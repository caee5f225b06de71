//! The backend turns display lists into frames. It works through messages: each changes the
//! documents, and asks for things to be done elsewhere.

pub mod capture;
pub mod debugger;
pub mod messages;
pub mod scenes;
pub mod update;

use crate::float_bits::{FloatBits, ONE_BITS};
use crate::internal_types::{ColorF, FloatPoint};
use crate::scene::{DisplayListId, Epoch, ListDetails, PipelineId, Scene, SceneContents};
use crate::table::with_key;
use crate::units::DeviceIntPoint;
use vstd::prelude::*;

verus! {

#[derive(Clone, Copy, Debug, PartialEq, Eq, Structural)]
pub struct DeviceUintSize {
    pub width: u32,
    pub height: u32,
}

#[derive(Clone, Copy, Debug, PartialEq, Eq, Structural)]
pub struct DeviceUintRect {
    pub x: u32,
    pub y: u32,
    pub size: DeviceUintSize,
}

/// How a document is looked at.
#[derive(Clone, Copy, Debug, PartialEq, Eq, Structural)]
pub struct DocumentView {
    pub window_size: DeviceUintSize,
    pub inner_rect: DeviceUintRect,
    /// Documents of higher layers are drawn above those of lower ones.
    pub layer: i8,
    pub pan: DeviceIntPoint,
    pub device_pixel_ratio: FloatBits,
    pub page_zoom_factor: FloatBits,
    pub pinch_zoom_factor: FloatBits,
}

/// What has to be done for a document.
#[derive(Clone, Copy, Debug, PartialEq, Eq, Structural)]
pub struct DocumentOps {
    pub scroll: bool,
    pub build: bool,
    pub render: bool,
    pub composite: bool,
}

impl DocumentOps {
    pub open spec fn spec_nop() -> Self {
        DocumentOps { scroll: false, build: false, render: false, composite: false }
    }

    #[verifier::when_used_as_spec(spec_nop)]
    pub fn nop() -> (r: Self)
        ensures
            r == Self::spec_nop(),
    {
        DocumentOps { scroll: false, build: false, render: false, composite: false }
    }

    pub open spec fn spec_build() -> Self {
        DocumentOps { build: true, ..Self::spec_nop() }
    }

    #[verifier::when_used_as_spec(spec_build)]
    pub fn build() -> (r: Self)
        ensures
            r == Self::spec_build(),
    {
        DocumentOps { scroll: false, build: true, render: false, composite: false }
    }

    /// A document was scrolled, and is drawn where that is wanted.
    pub open spec fn scrolled(render: bool) -> Self {
        DocumentOps { scroll: true, build: false, render, composite: render }
    }

    /// Everything that is to be done for either.
    pub open spec fn combined(self, other: Self) -> Self {
        DocumentOps {
            scroll: self.scroll || other.scroll,
            build: self.build || other.build,
            render: self.render || other.render,
            composite: self.composite || other.composite,
        }
    }

    pub fn combine(&mut self, other: Self)
        ensures
            *final(self) == old(self).combined(other),
    {
        self.scroll = self.scroll || other.scroll;
        self.build = self.build || other.build;
        self.render = self.render || other.render;
        self.composite = self.composite || other.composite;
    }
}

/// What is to be done for several messages does not depend on how they are taken together,
/// and nothing is added by a message that asks for nothing.
pub proof fn ops_add_up(a: DocumentOps, b: DocumentOps, c: DocumentOps)
    ensures
        a.combined(b).combined(c) == a.combined(b.combined(c)),
        a.combined(b) == b.combined(a),
        a.combined(a) == a,
        a.combined(DocumentOps::nop()) == a,
{
}

/// A change of a document. Where something was scrolled elsewhere, the message says whether
/// that had an effect.
#[derive(Clone, Copy, Debug, PartialEq, Eq, Structural)]
pub enum DocumentMsg {
    SetPageZoom(FloatBits),
    EnableFrameOutput(PipelineId, bool),
    SetPinchZoom(FloatBits),
    SetPan(DeviceIntPoint),
    SetWindowParameters {
        window_size: DeviceUintSize,
        inner_rect: DeviceUintRect,
        device_pixel_ratio: FloatBits,
    },
    SetDisplayList {
        epoch: Epoch,
        pipeline_id: PipelineId,
        background: Option<ColorF>,
        viewport_size: FloatPoint,
        content_size: FloatPoint,
        display_list: DisplayListId,
    },
    UpdateEpoch(PipelineId, Epoch),
    SetRootPipeline(PipelineId),
    RemovePipeline(PipelineId),
    Scroll { scrolled: bool },
    HitTest { reply: u64 },
    ScrollNodeWithId { scrolled: bool },
    TickScrollingBounce,
    GetScrollNodeState,
    UpdateDynamicProperties,
}

/// What the backend keeps of a document.
pub struct Document {
    pub scene: Scene,
    /// The pipelines that were removed from the scene since it was last built.
    pub scene_removed_pipelines: Vec<PipelineId>,
    pub view: DocumentView,
    /// Some scene was built.
    pub has_frame_builder: bool,
    /// The pipelines that are made available as textures.
    pub output_pipelines: Vec<PipelineId>,
    /// The pipelines whose removal is told with the next frame.
    pub removed_pipelines: Vec<PipelineId>,
    /// Whether scrolling draws a frame. Between a display list and the next frame that is
    /// asked for, it does not.
    pub render_on_scroll: Option<bool>,
    /// The scene was built, but not drawn yet.
    pub render_on_hittest: bool,
    /// A frame was drawn that can be tested for what is hit.
    pub has_hit_tester: bool,
    pub dual_source_blending: bool,
}

/// A document as a mathematical value.
#[verifier::ext_equal]
pub struct DocumentState {
    pub scene: SceneContents,
    pub scene_removed: Seq<PipelineId>,
    pub view: DocumentView,
    pub has_frame_builder: bool,
    pub outputs: Seq<PipelineId>,
    pub removed: Seq<PipelineId>,
    pub render_on_scroll: Option<bool>,
    pub render_on_hittest: bool,
    pub has_hit_tester: bool,
    pub dual_source_blending: bool,
}

/// A document whose size is that of its window.
pub open spec fn first_view(
    window_size: DeviceUintSize,
    layer: i8,
    device_pixel_ratio: FloatBits,
) -> DocumentView {
    DocumentView {
        window_size,
        inner_rect: DeviceUintRect { x: 0, y: 0, size: window_size },
        layer,
        pan: DeviceIntPoint { x: 0, y: 0 },
        page_zoom_factor: FloatBits(ONE_BITS),
        pinch_zoom_factor: FloatBits(ONE_BITS),
        device_pixel_ratio,
    }
}

impl DocumentState {
    /// A document that nothing was done to yet.
    pub open spec fn first(
        view: DocumentView,
        enable_render_on_scroll: bool,
        dual_source_blending: bool,
    ) -> Self {
        DocumentState {
            scene: SceneContents::empty(),
            scene_removed: Seq::empty(),
            view,
            has_frame_builder: false,
            outputs: Seq::empty(),
            removed: Seq::empty(),
            render_on_scroll: if enable_render_on_scroll {
                Some(false)
            } else {
                None
            },
            render_on_hittest: false,
            has_hit_tester: false,
            dual_source_blending,
        }
    }

    /// The document after a message.
    pub open spec fn after(self, msg: DocumentMsg) -> Self {
        match msg {
            DocumentMsg::SetPageZoom(factor) => DocumentState {
                view: DocumentView { page_zoom_factor: factor, ..self.view },
                ..self
            },
            DocumentMsg::EnableFrameOutput(pipeline, enable) => DocumentState {
                outputs: if enable {
                    with_key(self.outputs, pipeline)
                } else {
                    self.outputs.remove_value(pipeline)
                },
                ..self
            },
            DocumentMsg::SetPinchZoom(factor) => DocumentState {
                view: DocumentView { pinch_zoom_factor: factor, ..self.view },
                ..self
            },
            DocumentMsg::SetPan(pan) => DocumentState {
                view: DocumentView { pan, ..self.view },
                ..self
            },
            DocumentMsg::SetWindowParameters { window_size, inner_rect, device_pixel_ratio } => {
                DocumentState {
                    view: DocumentView {
                        window_size,
                        inner_rect,
                        device_pixel_ratio,
                        ..self.view
                    },
                    ..self
                }
            },
            DocumentMsg::SetDisplayList {
                epoch,
                pipeline_id,
                background,
                viewport_size,
                content_size,
                display_list,
            } => DocumentState {
                scene: self.scene.with_display_list(
                    pipeline_id,
                    epoch,
                    display_list,
                    ListDetails::Page { background, viewport_size, content_size },
                ),
                render_on_scroll: match self.render_on_scroll {
                    Some(_) => Some(false),
                    None => None,
                },
                ..self
            },
            DocumentMsg::UpdateEpoch(pipeline, epoch) => DocumentState {
                scene: self.scene.with_epoch(pipeline, epoch),
                ..self
            },
            DocumentMsg::SetRootPipeline(pipeline) => DocumentState {
                scene: self.scene.with_root(pipeline),
                ..self
            },
            DocumentMsg::RemovePipeline(pipeline) => DocumentState {
                scene: self.scene.without(pipeline),
                scene_removed: self.scene_removed.push(pipeline),
                ..self
            },
            _ => self,
        }
    }

    /// What is to be done for a message.
    pub open spec fn ops(self, msg: DocumentMsg) -> DocumentOps {
        let renders = self.render_on_scroll == Some(true);
        match msg {
            DocumentMsg::SetDisplayList { .. } => DocumentOps::build(),
            DocumentMsg::SetRootPipeline(pipeline) => if self.scene.pipelines.dom().contains(
                pipeline,
            ) {
                DocumentOps::build()
            } else {
                DocumentOps::nop()
            },
            DocumentMsg::Scroll { scrolled } => DocumentOps::scrolled(scrolled && renders),
            DocumentMsg::ScrollNodeWithId { scrolled } => DocumentOps::scrolled(
                scrolled && renders,
            ),
            DocumentMsg::TickScrollingBounce => DocumentOps::scrolled(renders),
            DocumentMsg::UpdateDynamicProperties => DocumentOps::build(),
            _ => DocumentOps::nop(),
        }
    }

    /// The document after several messages.
    pub open spec fn after_all(self, msgs: Seq<DocumentMsg>) -> Self
        decreases msgs.len(),
    {
        if msgs.len() == 0 {
            self
        } else {
            self.after_all(msgs.drop_last()).after(msgs.last())
        }
    }

    /// What is to be done for several messages.
    pub open spec fn ops_all(self, msgs: Seq<DocumentMsg>) -> DocumentOps
        decreases msgs.len(),
    {
        if msgs.len() == 0 {
            DocumentOps::nop()
        } else {
            self.ops_all(msgs.drop_last()).combined(
                self.after_all(msgs.drop_last()).ops(msgs.last()),
            )
        }
    }

    /// The document once its scene was built.
    pub open spec fn built(self) -> Self {
        DocumentState {
            removed: self.removed + self.scene_removed,
            scene_removed: Seq::empty(),
            has_frame_builder: true,
            ..self
        }
    }

    /// The document once a frame was made of it, which tells of the removed pipelines.
    pub open spec fn rendered(self) -> Self {
        DocumentState { removed: Seq::empty(), has_hit_tester: true, ..self }
    }

    /// All the pipelines whose removal has not been told yet.
    pub open spec fn untold(self) -> Seq<PipelineId> {
        self.removed + self.scene_removed
    }
}

/// The pipelines that messages remove.
pub open spec fn removals(msgs: Seq<DocumentMsg>) -> Seq<PipelineId>
    decreases msgs.len(),
{
    if msgs.len() == 0 {
        Seq::empty()
    } else {
        let before = removals(msgs.drop_last());
        match msgs.last() {
            DocumentMsg::RemovePipeline(pipeline) => before.push(pipeline),
            _ => before,
        }
    }
}

/// The removal of a pipeline waits to be told, together with those before.
pub proof fn removals_wait_to_be_told(doc: DocumentState, msgs: Seq<DocumentMsg>)
    ensures
        doc.after_all(msgs).untold() =~= doc.untold() + removals(msgs),
    decreases msgs.len(),
{
    if msgs.len() > 0 {
        removals_wait_to_be_told(doc, msgs.drop_last());
        let before = doc.after_all(msgs.drop_last());
        match msgs.last() {
            DocumentMsg::RemovePipeline(pipeline) => {
                assert(before.after(msgs.last()).untold() =~= before.untold().push(pipeline));
            },
            _ => {
                assert(before.after(msgs.last()).untold() =~= before.untold());
            },
        }
    }
}

/// Messages alone never draw a document on which scrolling must not draw, nor do they let
/// scrolling draw: that takes a frame that is asked for.
pub proof fn scrolling_waits_for_a_frame(doc: DocumentState, msgs: Seq<DocumentMsg>)
    requires
        doc.render_on_scroll != Some(true),
    ensures
        doc.after_all(msgs).render_on_scroll != Some(true),
        !doc.ops_all(msgs).render,
        !doc.ops_all(msgs).composite,
    decreases msgs.len(),
{
    if msgs.len() > 0 {
        scrolling_waits_for_a_frame(doc, msgs.drop_last());
    }
}

/// After a display list was set, scrolling draws nothing, whatever else comes in the same
/// row of messages.
pub proof fn display_lists_stop_scrolling(doc: DocumentState, msgs: Seq<DocumentMsg>, i: int)
    requires
        0 <= i < msgs.len(),
        msgs[i] is SetDisplayList,
    ensures
        doc.after_all(msgs).render_on_scroll != Some(true),
    decreases msgs.len(),
{
    if i < msgs.len() - 1 {
        display_lists_stop_scrolling(doc, msgs.drop_last(), i);
    }
}

/// What is composited was drawn before.
pub proof fn composited_frames_are_rendered(doc: DocumentState, msgs: Seq<DocumentMsg>)
    ensures
        doc.ops_all(msgs).composite == doc.ops_all(msgs).render,
    decreases msgs.len(),
{
    if msgs.len() > 0 {
        composited_frames_are_rendered(doc, msgs.drop_last());
    }
}

/// Something that is answered at once.
#[derive(Clone, Copy, Debug, PartialEq, Eq, Structural)]
pub struct HitTestAnswer {
    pub reply: u64,
    /// Test the last frame. Otherwise there is none, and nothing is hit.
    pub tests: bool,
}

/// The hit tests among messages that a document answers.
pub open spec fn hit_tests(doc: DocumentState, msgs: Seq<DocumentMsg>) -> Seq<HitTestAnswer>
    decreases msgs.len(),
{
    if msgs.len() == 0 {
        Seq::empty()
    } else {
        let before = hit_tests(doc, msgs.drop_last());
        match msgs.last() {
            DocumentMsg::HitTest { reply } => before.push(
                HitTestAnswer { reply, tests: doc.has_hit_tester },
            ),
            _ => before,
        }
    }
}

fn lists_pipeline(pipelines: &Vec<PipelineId>, pipeline: PipelineId) -> (r: Option<usize>)
    ensures
        match r {
            Some(i) => i < pipelines@.len() && pipelines@[i as int] == pipeline && (forall|j: int|
                0 <= j < i ==> pipelines@[j] != pipeline),
            None => !pipelines@.contains(pipeline),
        },
{
    let mut i: usize = 0;
    while i < pipelines.len()
        invariant
            i <= pipelines@.len(),
            forall|j: int| 0 <= j < i ==> pipelines@[j] != pipeline,
        decreases pipelines@.len() - i,
    {
        if pipelines[i] == pipeline {
            return Some(i);
        }
        i = i + 1;
    }
    None
}

impl Document {
    pub open spec fn wf(self) -> bool {
        self.scene.wf()
    }

    pub open spec fn view(self) -> DocumentState {
        DocumentState {
            scene: self.scene@,
            scene_removed: self.scene_removed_pipelines@,
            view: self.view,
            has_frame_builder: self.has_frame_builder,
            outputs: self.output_pipelines@,
            removed: self.removed_pipelines@,
            render_on_scroll: self.render_on_scroll,
            render_on_hittest: self.render_on_hittest,
            has_hit_tester: self.has_hit_tester,
            dual_source_blending: self.dual_source_blending,
        }
    }

    pub fn new(
        window_size: DeviceUintSize,
        layer: i8,
        enable_render_on_scroll: bool,
        default_device_pixel_ratio: FloatBits,
        dual_source_blending: bool,
    ) -> (r: Self)
        ensures
            r.wf(),
            r@ == DocumentState::first(
                first_view(window_size, layer, default_device_pixel_ratio),
                enable_render_on_scroll,
                dual_source_blending,
            ),
    {
        let render_on_scroll = if enable_render_on_scroll {
            Some(false)
        } else {
            None
        };
        Document {
            scene: Scene::new(),
            scene_removed_pipelines: Vec::new(),
            view: DocumentView {
                window_size,
                inner_rect: DeviceUintRect { x: 0, y: 0, size: window_size },
                layer,
                pan: DeviceIntPoint::new(0, 0),
                page_zoom_factor: FloatBits(ONE_BITS),
                pinch_zoom_factor: FloatBits(ONE_BITS),
                device_pixel_ratio: default_device_pixel_ratio,
            },
            has_frame_builder: false,
            output_pipelines: Vec::new(),
            removed_pipelines: Vec::new(),
            render_on_scroll,
            render_on_hittest: false,
            has_hit_tester: false,
            dual_source_blending,
        }
    }

    /// Some scene was built, so that frames can be made.
    pub fn can_render(&self) -> (r: bool)
        ensures
            r == self@.has_frame_builder,
    {
        self.has_frame_builder
    }

    /// The scene is built: the removal of pipelines is told with the next frame.
    pub fn build_scene(&mut self)
        requires
            old(self).wf(),
        ensures
            final(self).wf(),
            final(self)@ == old(self)@.built(),
    {
        self.removed_pipelines.append(&mut self.scene_removed_pipelines);
        self.scene_removed_pipelines = Vec::new();
        self.has_frame_builder = true;
        assert(self@ =~= old(self)@.built());
    }

    /// A frame is made. Gives the pipelines whose removal it tells.
    pub fn render(&mut self) -> (r: Vec<PipelineId>)
        requires
            old(self).wf(),
            old(self)@.has_frame_builder,
        ensures
            final(self).wf(),
            final(self)@ == old(self)@.rendered(),
            r@ == old(self)@.removed,
    {
        let mut removed: Vec<PipelineId> = Vec::new();
        std::mem::swap(&mut removed, &mut self.removed_pipelines);
        self.has_hit_tester = true;
        assert(self@ =~= old(self)@.rendered());
        removed
    }

    fn enable_output(&mut self, pipeline: PipelineId, enable: bool)
        requires
            old(self).wf(),
        ensures
            final(self).wf(),
            final(self)@ == old(self)@.after(DocumentMsg::EnableFrameOutput(pipeline, enable)),
    {
        let ghost before = self.output_pipelines@;
        proof {
            before.index_of_first_ensures(pipeline);
        }
        match lists_pipeline(&self.output_pipelines, pipeline) {
            Some(i) => {
                if !enable {
                    let _ = self.output_pipelines.remove(i);
                }
            },
            None => {
                if enable {
                    self.output_pipelines.push(pipeline);
                }
            },
        }
        assert(self@ =~= old(self)@.after(DocumentMsg::EnableFrameOutput(pipeline, enable)));
    }

    /// Takes a message. Hit tests are answered by way of `answers`.
    pub fn process_document(&mut self, msg: DocumentMsg, answers: &mut Vec<HitTestAnswer>) -> (r:
        DocumentOps)
        requires
            old(self).wf(),
        ensures
            final(self).wf(),
            final(self)@ == old(self)@.after(msg),
            r == old(self)@.ops(msg),
            final(answers)@ == old(answers)@ + hit_tests(old(self)@, seq![msg]),
    {
        proof {
            assert(seq![msg].drop_last() =~= Seq::<DocumentMsg>::empty());
            assert(hit_tests(self@, Seq::<DocumentMsg>::empty()) =~= Seq::empty());
            reveal_with_fuel(hit_tests, 2);
        }
        let renders = self.render_on_scroll == Some(true);
        match msg {
            DocumentMsg::SetPageZoom(factor) => {
                self.view.page_zoom_factor = factor;
                DocumentOps::nop()
            },
            DocumentMsg::EnableFrameOutput(pipeline_id, enable) => {
                self.enable_output(pipeline_id, enable);
                DocumentOps::nop()
            },
            DocumentMsg::SetPinchZoom(factor) => {
                self.view.pinch_zoom_factor = factor;
                DocumentOps::nop()
            },
            DocumentMsg::SetPan(pan) => {
                self.view.pan = pan;
                DocumentOps::nop()
            },
            DocumentMsg::SetWindowParameters { window_size, inner_rect, device_pixel_ratio } => {
                self.view.window_size = window_size;
                self.view.inner_rect = inner_rect;
                self.view.device_pixel_ratio = device_pixel_ratio;
                DocumentOps::nop()
            },
            DocumentMsg::SetDisplayList {
                epoch,
                pipeline_id,
                background,
                viewport_size,
                content_size,
                display_list,
            } => {
                let details = ListDetails::Page { background, viewport_size, content_size };
                self.scene.set_display_list(pipeline_id, epoch, display_list, details);
                if self.render_on_scroll.is_some() {
                    self.render_on_scroll = Some(false);
                }
                DocumentOps::build()
            },
            DocumentMsg::UpdateEpoch(pipeline_id, epoch) => {
                self.scene.update_epoch(pipeline_id, epoch);
                DocumentOps::nop()
            },
            DocumentMsg::SetRootPipeline(pipeline_id) => {
                self.scene.set_root_pipeline_id(pipeline_id);
                if self.scene.pipelines.contains(&pipeline_id) {
                    DocumentOps::build()
                } else {
                    DocumentOps::nop()
                }
            },
            DocumentMsg::RemovePipeline(pipeline_id) => {
                self.scene.remove_pipeline(pipeline_id);
                self.scene_removed_pipelines.push(pipeline_id);
                DocumentOps::nop()
            },
            DocumentMsg::Scroll { scrolled } => {
                let render = scrolled && renders;
                DocumentOps { scroll: true, build: false, render, composite: render }
            },
            DocumentMsg::HitTest { reply } => {
                answers.push(HitTestAnswer { reply, tests: self.has_hit_tester });
                DocumentOps::nop()
            },
            DocumentMsg::ScrollNodeWithId { scrolled } => {
                let render = scrolled && renders;
                DocumentOps { scroll: true, build: false, render, composite: render }
            },
            DocumentMsg::TickScrollingBounce => {
                DocumentOps { scroll: true, build: false, render: renders, composite: renders }
            },
            DocumentMsg::GetScrollNodeState => DocumentOps::nop(),
            DocumentMsg::UpdateDynamicProperties => DocumentOps::build(),
        }
    }
}

/// What a message sets of the view is what is looked at from then on, and the rest of the
/// document stays as it is. The last of two messages of one kind counts, and messages of
/// different kinds can be taken in any order.
pub proof fn views_follow_messages(
    doc: DocumentState,
    pan: DeviceIntPoint,
    zoom: FloatBits,
    pinch: FloatBits,
    size: DeviceUintSize,
    rect: DeviceUintRect,
    ratio: FloatBits,
    earlier: DocumentMsg,
)
    ensures
        ({
            let p = DocumentMsg::SetPan(pan);
            let z = DocumentMsg::SetPageZoom(zoom);
            let n = DocumentMsg::SetPinchZoom(pinch);
            let w = DocumentMsg::SetWindowParameters {
                window_size: size,
                inner_rect: rect,
                device_pixel_ratio: ratio,
            };
            let all = doc.after(p).after(z).after(n).after(w);
            &&& all.view.pan == pan
            &&& all.view.page_zoom_factor == zoom
            &&& all.view.pinch_zoom_factor == pinch
            &&& all.view.window_size == size
            &&& all.view.inner_rect == rect
            &&& all.view.device_pixel_ratio == ratio
            &&& all.view.layer == doc.view.layer
            &&& all == (DocumentState { view: all.view, ..doc })
            &&& all == doc.after(w).after(n).after(z).after(p)
            &&& doc.after(p).view == (DocumentView { pan, ..doc.view })
            &&& doc.after(z).view == (DocumentView { page_zoom_factor: zoom, ..doc.view })
            &&& doc.after(n).view == (DocumentView { pinch_zoom_factor: pinch, ..doc.view })
            &&& earlier is SetPan ==> doc.after(earlier).after(p) == doc.after(p)
            &&& earlier is SetPageZoom ==> doc.after(earlier).after(z) == doc.after(z)
            &&& earlier is SetPinchZoom ==> doc.after(earlier).after(n) == doc.after(n)
            &&& earlier is SetWindowParameters ==> doc.after(earlier).after(w) == doc.after(w)
        }),
{
}

/// The scene is built anew for a display list, for properties that change, and for a root that
/// has a display list, and for no other message. Only scrolling scrolls; it draws
/// a frame where that is allowed and something was scrolled, and what is drawn is composited.
pub proof fn messages_ask_for_what_they_need(doc: DocumentState, msg: DocumentMsg)
    ensures
        ({
            let ops = doc.ops(msg);
            let moves = match msg {
                DocumentMsg::Scroll { scrolled } => scrolled,
                DocumentMsg::ScrollNodeWithId { scrolled } => scrolled,
                DocumentMsg::TickScrollingBounce => true,
                _ => false,
            };
            &&& ops.build <==> msg is SetDisplayList || msg is UpdateDynamicProperties || (
            doc.after(msg).scene.has_root_pipeline() && msg is SetRootPipeline)
            &&& ops.scroll <==> msg is Scroll || msg is ScrollNodeWithId || msg
                is TickScrollingBounce
            &&& ops.render <==> moves && doc.render_on_scroll == Some(true)
            &&& ops.composite == ops.render
        }),
{
}

/// A pipeline whose output is asked for is among the outputs, once, until that is taken back;
/// other outputs stay.
pub proof fn outputs_follow_messages(doc: DocumentState, pipeline: PipelineId, other: PipelineId)
    requires
        doc.outputs.no_duplicates(),
    ensures
        ({
            let on = doc.after(DocumentMsg::EnableFrameOutput(pipeline, true));
            let off = doc.after(DocumentMsg::EnableFrameOutput(pipeline, false));
            &&& on.outputs.contains(pipeline)
            &&& on.outputs.no_duplicates()
            &&& !off.outputs.contains(pipeline)
            &&& other != pipeline ==> on.outputs.contains(other) == doc.outputs.contains(other)
                && off.outputs.contains(other) == doc.outputs.contains(other)
            &&& on == (DocumentState { outputs: on.outputs, ..doc })
            &&& off == (DocumentState { outputs: off.outputs, ..doc })
        }),
{
    let on = doc.after(DocumentMsg::EnableFrameOutput(pipeline, true)).outputs;
    let off = doc.after(DocumentMsg::EnableFrameOutput(pipeline, false)).outputs;
    let outputs = doc.outputs;
    outputs.index_of_first_ensures(pipeline);
    if outputs.contains(pipeline) {
        let i = outputs.index_of_first(pipeline)->0;
        assert(off =~= outputs.remove(i));
        assert forall|j: int| 0 <= j < off.len() implies #[trigger] off[j] != pipeline by {
            assert(off[j] == outputs[if j < i { j } else { j + 1 }]);
        }
        if other != pipeline && outputs.contains(other) {
            let j = outputs.index_of(other);
            assert(off[if j < i { j } else { j - 1 }] == other);
        }
        if off.contains(other) {
            let j = off.index_of(other);
            assert(outputs[if j < i { j } else { j + 1 }] == other);
        }
    } else {
        assert(off == outputs);
        assert(on[outputs.len() as int] == pipeline);
        if outputs.contains(other) {
            assert(on[outputs.index_of(other)] == other);
        }
        if other != pipeline && on.contains(other) {
            assert(outputs[on.index_of(other)] == other);
        }
    }
}

} // verus!
