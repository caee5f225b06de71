//! Documents, their pipelines, and the scene that display lists make up.

use crate::grouped::GroupKey;
use crate::internal_types::{ColorF, FloatPoint};
use crate::table::Table;
use crate::text::{decimal, decimal_is_read_back, numbered, to_decimal};
use vstd::prelude::*;

verus! {

/// A document, within the namespace of the API instance that made it.
#[derive(Clone, Copy, Debug, PartialEq, Eq, Structural)]
pub struct DocumentId {
    pub namespace_id: u32,
    pub id: u32,
}

/// A source of display lists.
#[derive(Clone, Copy, Debug, PartialEq, Eq, Structural)]
pub struct PipelineId(pub u32, pub u32);

/// A counter that the owner of a pipeline sets, to tell versions of it apart.
#[derive(Clone, Copy, Debug, PartialEq, Eq, Structural)]
pub struct Epoch(pub u32);

/// A display list that was received.
#[derive(Clone, Copy, Debug, PartialEq, Eq, Structural)]
pub struct DisplayListId(pub u64);

/// What is handed on with a display list.
#[derive(Clone, Copy, Debug, PartialEq, Eq, Structural)]
pub enum ListDetails {
    /// The namespace of the keys in the list.
    Namespace(u32),
    /// The color behind the page, and the sizes of what is seen of it and of all of it.
    Page { background: Option<ColorF>, viewport_size: FloatPoint, content_size: FloatPoint },
}

/// What a pipeline shows.
#[derive(Clone, Copy, Debug, PartialEq, Eq, Structural)]
pub struct ScenePipeline {
    pub display_list: DisplayListId,
    pub details: ListDetails,
}

impl GroupKey for DocumentId {
    fn same(&self, other: &Self) -> (r: bool) {
        *self == *other
    }
}

impl GroupKey for PipelineId {
    fn same(&self, other: &Self) -> (r: bool) {
        *self == *other
    }
}

/// The display lists of a document, and which of them is the root.
pub struct Scene {
    pub root_pipeline_id: Option<PipelineId>,
    pub pipelines: Table<PipelineId, ScenePipeline>,
    pub pipeline_epochs: Table<PipelineId, Epoch>,
}

/// A scene as a mathematical value.
#[verifier::ext_equal]
pub struct SceneContents {
    pub root: Option<PipelineId>,
    pub pipelines: Map<PipelineId, ScenePipeline>,
    pub epochs: Map<PipelineId, Epoch>,
}

impl SceneContents {
    pub open spec fn empty() -> Self {
        SceneContents { root: None, pipelines: Map::empty(), epochs: Map::empty() }
    }

    /// The scene with a new epoch of a pipeline.
    pub open spec fn with_epoch(self, pipeline: PipelineId, epoch: Epoch) -> Self {
        SceneContents { epochs: self.epochs.insert(pipeline, epoch), ..self }
    }

    /// The scene with a new display list of a pipeline.
    pub open spec fn with_display_list(
        self,
        pipeline: PipelineId,
        epoch: Epoch,
        list: DisplayListId,
        details: ListDetails,
    ) -> Self {
        SceneContents {
            pipelines: self.pipelines.insert(
                pipeline,
                ScenePipeline { display_list: list, details },
            ),
            epochs: self.epochs.insert(pipeline, epoch),
            ..self
        }
    }

    pub open spec fn with_root(self, pipeline: PipelineId) -> Self {
        SceneContents { root: Some(pipeline), ..self }
    }

    /// The scene without a pipeline. Where that was the root, no root is left.
    pub open spec fn without(self, pipeline: PipelineId) -> Self {
        SceneContents {
            root: if self.root == Some(pipeline) {
                None
            } else {
                self.root
            },
            pipelines: self.pipelines.remove(pipeline),
            epochs: self.epochs.remove(pipeline),
        }
    }

    /// The root has a display list.
    pub open spec fn has_root_pipeline(self) -> bool {
        self.root matches Some(root) && self.pipelines.dom().contains(root)
    }
}

/// A pipeline that was removed is in no part of the scene, until it gets a display list
/// again.
pub proof fn removed_pipelines_are_gone(scene: SceneContents, pipeline: PipelineId)
    ensures
        scene.without(pipeline).root != Some(pipeline),
        !scene.without(pipeline).pipelines.dom().contains(pipeline),
        !scene.without(pipeline).epochs.dom().contains(pipeline),
        forall|other: PipelineId| #[trigger]
            scene.without(pipeline).pipelines.dom().contains(other) == (other != pipeline
                && scene.pipelines.dom().contains(other)),
{
}

impl Scene {
    pub open spec fn wf(self) -> bool {
        self.pipelines.wf() && self.pipeline_epochs.wf()
    }

    pub open spec fn view(self) -> SceneContents {
        SceneContents {
            root: self.root_pipeline_id,
            pipelines: self.pipelines@,
            epochs: self.pipeline_epochs@,
        }
    }

    pub fn new() -> (r: Self)
        ensures
            r.wf(),
            r@ == SceneContents::empty(),
    {
        Scene {
            root_pipeline_id: None,
            pipelines: Table::new(),
            pipeline_epochs: Table::new(),
        }
    }

    /// The same scene again.
    pub fn duplicate(&self) -> (r: Self)
        requires
            self.wf(),
        ensures
            r.wf(),
            r@ == self@,
    {
        Scene {
            root_pipeline_id: self.root_pipeline_id,
            pipelines: self.pipelines.duplicate(),
            pipeline_epochs: self.pipeline_epochs.duplicate(),
        }
    }

    pub fn set_root_pipeline_id(&mut self, pipeline_id: PipelineId)
        requires
            old(self).wf(),
        ensures
            final(self).wf(),
            final(self)@ == old(self)@.with_root(pipeline_id),
    {
        self.root_pipeline_id = Some(pipeline_id);
    }

    pub fn update_epoch(&mut self, pipeline_id: PipelineId, epoch: Epoch)
        requires
            old(self).wf(),
        ensures
            final(self).wf(),
            final(self)@ == old(self)@.with_epoch(pipeline_id, epoch),
    {
        self.pipeline_epochs.insert(pipeline_id, epoch);
    }

    pub fn set_display_list(
        &mut self,
        pipeline_id: PipelineId,
        epoch: Epoch,
        display_list: DisplayListId,
        details: ListDetails,
    )
        requires
            old(self).wf(),
        ensures
            final(self).wf(),
            final(self)@ == old(self)@.with_display_list(
                pipeline_id,
                epoch,
                display_list,
                details,
            ),
    {
        self.pipelines.insert(pipeline_id, ScenePipeline { display_list, details });
        self.pipeline_epochs.insert(pipeline_id, epoch);
    }

    pub fn remove_pipeline(&mut self, pipeline_id: PipelineId)
        requires
            old(self).wf(),
        ensures
            final(self).wf(),
            final(self)@ == old(self)@.without(pipeline_id),
    {
        if self.root_pipeline_id == Some(pipeline_id) {
            self.root_pipeline_id = None;
        }
        let _ = self.pipelines.remove(&pipeline_id);
        let _ = self.pipeline_epochs.remove(&pipeline_id);
    }

    pub fn has_root_pipeline(&self) -> (r: bool)
        requires
            self.wf(),
        ensures
            r == self@.has_root_pipeline(),
    {
        match &self.root_pipeline_id {
            Some(root) => self.pipelines.contains(root),
            None => false,
        }
    }
}

/// The documents of other namespaces.
pub open spec fn outside_namespace(keys: Seq<DocumentId>, namespace_id: u32) -> Seq<DocumentId> {
    keys.filter(|document: DocumentId| document.namespace_id != namespace_id)
}

pub open spec fn in_namespace(namespace_id: u32) -> Set<DocumentId> {
    Set::new(|document: DocumentId| document.namespace_id == namespace_id)
}

/// Takes out what stands under the documents of a namespace.
pub fn forget_namespace<V>(table: &mut Table<DocumentId, V>, namespace_id: u32)
    requires
        old(table).wf(),
    ensures
        final(table).wf(),
        final(table).keys@ == outside_namespace(old(table).keys@, namespace_id),
        final(table)@ == old(table)@.remove_keys(in_namespace(namespace_id)),
{
    let ghost before = table.keys@;
    let ghost mut seen: int = 0;
    let ghost other = |document: DocumentId| document.namespace_id != namespace_id;
    let mut i: usize = 0;
    assert(before.take(0) =~= Seq::<DocumentId>::empty());
    assert(before.skip(0) =~= before);
    proof {
        reveal(Seq::filter);
    }
    assert(table.keys@ =~= before.take(0).filter(other) + before.skip(0));
    assert(table@ =~= old(table)@.remove_keys(
        Set::new(
            |document: DocumentId|
                document.namespace_id == namespace_id && before.take(0).contains(document),
        ),
    ));
    while i < table.keys.len()
        invariant
            table.wf(),
            before == old(table).keys@,
            old(table).wf(),
            other == (|document: DocumentId| document.namespace_id != namespace_id),
            0 <= seen <= before.len(),
            i == before.take(seen).filter(other).len(),
            table.keys@ == before.take(seen).filter(other) + before.skip(seen),
            table@ == old(table)@.remove_keys(
                Set::new(
                    |document: DocumentId|
                        document.namespace_id == namespace_id && before.take(seen).contains(
                            document,
                        ),
                ),
            ),
        decreases before.len() - seen,
    {
        let key = table.keys[i];
        let ghost kept = before.take(seen).filter(other);
        proof {
            assert(table.keys@[i as int] == before.skip(seen)[0]);
            assert(before.take(seen + 1).drop_last() =~= before.take(seen));
            assert(before.take(seen + 1).filter(other) =~= if other(key) {
                kept.push(key)
            } else {
                kept
            }) by {
                reveal(Seq::filter);
            }
            assert forall|document: DocumentId| #[trigger]
                before.take(seen + 1).contains(document) == (before.take(seen).contains(document)
                || document == key) by {
                assert(before.take(seen + 1) =~= before.take(seen).push(key));
                if before.take(seen).contains(document) {
                    let at = before.take(seen).index_of(document);
                    assert(before.take(seen).push(key)[at] == document);
                }
                assert(before.take(seen).push(key)[seen] == key);
            }
        }
        if key.namespace_id == namespace_id {
            let ghost keys = table.keys@;
            let _ = table.remove(&key);
            proof {
                keys.index_of_first_ensures(key);
                assert(keys[i as int] == key);
                assert(keys.remove(i as int) =~= kept + before.skip(seen + 1));
            }
        } else {
            i = i + 1;
            assert(kept + before.skip(seen) =~= kept.push(key) + before.skip(seen + 1));
        }
        proof {
            seen = seen + 1;
            assert(table@ =~= old(table)@.remove_keys(
                Set::new(
                    |document: DocumentId|
                        document.namespace_id == namespace_id && before.take(seen).contains(
                            document,
                        ),
                ),
            ));
        }
    }
    proof {
        assert(before.skip(seen).len() == 0);
        assert(before.take(seen) =~= before);
        assert(table.keys@ =~= before.filter(other));
        assert(table@ =~= old(table)@.remove_keys(in_namespace(namespace_id)));
    }
}

/// The name of what is kept of a document.
pub open spec fn document_text(name: Seq<char>, document: DocumentId) -> Seq<char> {
    name + decimal(document.namespace_id as nat) + seq!['-'] + decimal(document.id as nat)
}

/// Writes the name of what is kept of a document.
pub fn document_name(name: &str, document: DocumentId) -> (r: String)
    ensures
        r@ == document_text(name@, document),
{
    let mut r = numbered(name, document.namespace_id as u64);
    proof {
        reveal_strlit("-");
    }
    r.append("-");
    let id = to_decimal(document.id as u64);
    r.append(id.as_str());
    assert(r@ =~= document_text(name@, document));
    r
}

proof fn lemma_decimal_has_no_dash(n: nat)
    ensures
        !decimal(n).contains('-'),
    decreases n,
{
    if n >= 10 {
        lemma_decimal_has_no_dash(n / 10);
        let front = decimal(n / 10);
        if decimal(n).contains('-') {
            let i = decimal(n).index_of('-');
            if i < front.len() {
                assert(front[i] == '-');
            }
        }
    }
}

/// What is kept of one document never has the name of what is kept of another.
pub proof fn document_names_differ(name: Seq<char>, a: DocumentId, b: DocumentId)
    requires
        document_text(name, a) == document_text(name, b),
    ensures
        a == b,
{
    let n = name.len() as int;
    let x = decimal(a.namespace_id as nat);
    let y = decimal(b.namespace_id as nat);
    let text = document_text(name, a);
    lemma_decimal_has_no_dash(a.namespace_id as nat);
    lemma_decimal_has_no_dash(b.namespace_id as nat);
    assert(text[n + x.len()] == '-');
    assert(document_text(name, b)[n + y.len()] == '-');
    if x.len() < y.len() {
        assert(document_text(name, b)[n + x.len()] == y[x.len() as int]);
        assert(y.contains('-'));
    }
    if y.len() < x.len() {
        assert(text[n + y.len()] == x[y.len() as int]);
        assert(x.contains('-'));
    }
    assert(x =~= text.subrange(n, n + x.len()));
    assert(y =~= document_text(name, b).subrange(n, n + y.len()));
    assert(decimal(a.id as nat) =~= text.skip(n + x.len() + 1));
    assert(decimal(b.id as nat) =~= document_text(name, b).skip(n + y.len() + 1));
    decimal_is_read_back(a.namespace_id as nat);
    decimal_is_read_back(b.namespace_id as nat);
    decimal_is_read_back(a.id as nat);
    decimal_is_read_back(b.id as nat);
}

/// A display list that a pipeline gets is what it shows from then on, under the epoch that
/// came with it, and so is an epoch or a root that is set. Nothing else of the scene changes.
pub proof fn scenes_hold_what_was_set(
    scene: SceneContents,
    pipeline: PipelineId,
    epoch: Epoch,
    list: DisplayListId,
    details: ListDetails,
    other: PipelineId,
)
    ensures
        ({
            let listed = scene.with_display_list(pipeline, epoch, list, details);
            let dated = scene.with_epoch(pipeline, epoch);
            let rooted = scene.with_root(pipeline);
            &&& listed.pipelines.dom().contains(pipeline)
            &&& listed.pipelines[pipeline].display_list == list
            &&& listed.pipelines[pipeline].details == details
            &&& listed.epochs.dom().contains(pipeline) && listed.epochs[pipeline] == epoch
            &&& listed.root == scene.root
            &&& dated.epochs.dom().contains(pipeline) && dated.epochs[pipeline] == epoch
            &&& dated.pipelines == scene.pipelines && dated.root == scene.root
            &&& rooted.root == Some(pipeline)
            &&& rooted.pipelines == scene.pipelines && rooted.epochs == scene.epochs
            &&& rooted.has_root_pipeline() == scene.pipelines.dom().contains(pipeline)
            &&& rooted.with_display_list(pipeline, epoch, list, details).has_root_pipeline()
            &&& !rooted.without(pipeline).has_root_pipeline()
            &&& other != pipeline ==> {
                &&& listed.pipelines.dom().contains(other) == scene.pipelines.dom().contains(other)
                &&& listed.pipelines[other] == scene.pipelines[other]
                &&& listed.epochs.dom().contains(other) == scene.epochs.dom().contains(other)
                &&& listed.epochs[other] == scene.epochs[other]
                &&& dated.epochs.dom().contains(other) == scene.epochs.dom().contains(other)
                &&& dated.epochs[other] == scene.epochs[other]
                &&& scene.without(pipeline).epochs.dom().contains(other)
                    == scene.epochs.dom().contains(other)
                &&& scene.root == Some(other) ==> scene.without(pipeline).root == Some(other)
            }
        }),
{
}

} // verus!
