//! The thread that turns display lists into scenes. It works for any number of windows,
//! and tells each of them what happens to its own documents.

pub mod forward;
pub mod process;
pub mod requests;
pub mod transaction;

use crate::grouped::GroupKey;
use crate::scene::{DocumentId, Epoch, PipelineId, Scene, SceneContents};
use crate::table::Table;
use crate::units::{DeviceIntPoint, DeviceIntRect, DeviceIntSize};
use vstd::prelude::*;

verus! {

/// A window that is drawn to.
#[derive(Clone, Copy, Debug, PartialEq, Eq, Structural)]
pub struct RenderBackendId(pub u64);

impl GroupKey for RenderBackendId {
    fn same(&self, other: &Self) -> (r: bool) {
        *self == *other
    }
}

/// A configuration of the frame builder.
#[derive(Clone, Copy, Debug, PartialEq, Eq, Structural)]
pub struct FrameBuilderConfig(pub u64);

/// A capture on disk, and what goes into it.
#[derive(Clone, Copy, Debug, PartialEq, Eq, Structural)]
pub struct CaptureConfig {
    pub id: u64,
    pub scene: bool,
    pub frame: bool,
}

/// What the last scene of a document took up, to allocate the next one at once.
#[derive(Clone, Copy, Debug, PartialEq, Eq, Structural)]
pub struct SceneStats(pub u64);

impl SceneStats {
    pub open spec fn spec_empty() -> Self {
        SceneStats(0)
    }

    #[verifier::when_used_as_spec(spec_empty)]
    pub fn empty() -> (r: Self)
        ensures
            r == Self::spec_empty(),
    {
        SceneStats(0)
    }
}

#[derive(Clone, Copy, Debug, PartialEq, Eq, Structural)]
pub struct QualitySettings {
    pub force_subpixel_aa_where_possible: bool,
}

/// How a document is looked at.
#[derive(Clone, Copy, Debug, PartialEq, Eq, Structural)]
pub struct SceneView {
    pub device_rect: DeviceIntRect,
    pub quality_settings: QualitySettings,
}

/// A scene that was built, with the epochs of its pipelines.
pub struct BuiltScene {
    pub id: u64,
    pub pipeline_epochs: Vec<(PipelineId, Epoch)>,
}

/// A scene that is drawn once, beside that of its document.
#[derive(Clone, Copy, Debug, PartialEq, Eq, Structural)]
pub struct OffscreenBuiltScene {
    pub scene: u64,
    pub spatial_tree_updates: u64,
}

/// What a document holds between transactions.
pub struct Document {
    pub scene: Scene,
    pub stats: SceneStats,
    pub view: SceneView,
}

/// A document as a mathematical value.
#[verifier::ext_equal]
pub struct DocumentContents {
    pub scene: SceneContents,
    pub stats: SceneStats,
    pub view: SceneView,
}

/// How a document is looked at first: all of it, with the default quality.
pub open spec fn first_view(size: DeviceIntSize) -> SceneView {
    SceneView {
        device_rect: DeviceIntRect {
            min: DeviceIntPoint { x: 0, y: 0 },
            max: DeviceIntPoint { x: size.width, y: size.height },
        },
        quality_settings: QualitySettings { force_subpixel_aa_where_possible: false },
    }
}

impl Document {
    pub open spec fn view(self) -> DocumentContents {
        DocumentContents { scene: self.scene@, stats: self.stats, view: self.view }
    }

    pub fn new(initial_size: DeviceIntSize) -> (r: Self)
        ensures
            r.scene.wf(),
            r@ == (DocumentContents {
                scene: SceneContents::empty(),
                stats: SceneStats::empty(),
                view: first_view(initial_size),
            }),
    {
        Document {
            scene: Scene::new(),
            stats: SceneStats::empty(),
            view: SceneView {
                device_rect: DeviceIntRect::from_size(initial_size),
                quality_settings: QualitySettings { force_subpixel_aa_where_possible: false },
            },
        }
    }
}

/// What the thread keeps between requests.
pub struct SceneBuilderThread {
    pub documents: Table<DocumentId, Document>,
    /// Which window each document belongs to.
    pub doc_to_window: Table<DocumentId, RenderBackendId>,
    /// The configuration for windows that have not registered one.
    pub config: FrameBuilderConfig,
    pub window_configs: Table<RenderBackendId, FrameBuilderConfig>,
    /// The windows with hooks.
    pub hooks: Vec<RenderBackendId>,
    pub simulate_slow_ms: u32,
    pub capture_config: Option<CaptureConfig>,
    pub debug_flags: u64,
}

/// The thread as a mathematical value.
#[verifier::ext_equal]
pub struct ThreadContents {
    pub documents: Map<DocumentId, DocumentContents>,
    pub windows: Map<DocumentId, RenderBackendId>,
    pub config: FrameBuilderConfig,
    pub window_configs: Map<RenderBackendId, FrameBuilderConfig>,
    pub hooks: Seq<RenderBackendId>,
    pub simulate_slow_ms: u32,
    pub capture_config: Option<CaptureConfig>,
    pub debug_flags: u64,
}

/// The contents of documents.
pub open spec fn document_contents(documents: Map<DocumentId, Document>) -> Map<
    DocumentId,
    DocumentContents,
> {
    documents.map_values(|document: Document| document@)
}

impl ThreadContents {
    /// The configuration for a document: that of its window, where it has registered one.
    pub open spec fn config_for(self, document: DocumentId) -> FrameBuilderConfig {
        if self.windows.dom().contains(document) && self.window_configs.dom().contains(
            self.windows[document],
        ) {
            self.window_configs[self.windows[document]]
        } else {
            self.config
        }
    }

    /// The window of a document, where it has hooks.
    pub open spec fn hooked_window(self, document: DocumentId) -> Option<RenderBackendId> {
        if self.windows.dom().contains(document) && self.hooks.contains(self.windows[document]) {
            Some(self.windows[document])
        } else {
            None
        }
    }
}

/// A window is among those in a list.
pub fn lists_window(windows: &Vec<RenderBackendId>, window: RenderBackendId) -> (r: bool)
    ensures
        r == windows@.contains(window),
{
    let mut i: usize = 0;
    while i < windows.len()
        invariant
            i <= windows@.len(),
            forall|j: int| 0 <= j < i ==> windows@[j] != window,
        decreases windows@.len() - i,
    {
        if windows[i] == window {
            return true;
        }
        i = i + 1;
    }
    false
}

impl SceneBuilderThread {
    /// The tables are in order, no window has two sets of hooks, and every scene is in order.
    pub open spec fn wf(self) -> bool {
        &&& self.documents.wf()
        &&& self.doc_to_window.wf()
        &&& self.window_configs.wf()
        &&& self.hooks@.no_duplicates()
        &&& forall|document: DocumentId| #[trigger]
            self.documents@.dom().contains(document) ==> self.documents@[document].scene.wf()
    }

    pub open spec fn view(self) -> ThreadContents {
        ThreadContents {
            documents: document_contents(self.documents@),
            windows: self.doc_to_window@,
            config: self.config,
            window_configs: self.window_configs@,
            hooks: self.hooks@,
            simulate_slow_ms: self.simulate_slow_ms,
            capture_config: self.capture_config,
            debug_flags: self.debug_flags,
        }
    }

    /// A thread that knows of no document and no window.
    pub fn new(config: FrameBuilderConfig) -> (r: Self)
        ensures
            r.wf(),
            r@ == (ThreadContents {
                documents: Map::empty(),
                windows: Map::empty(),
                config,
                window_configs: Map::empty(),
                hooks: Seq::empty(),
                simulate_slow_ms: 0,
                capture_config: None,
                debug_flags: 0,
            }),
    {
        let r = SceneBuilderThread {
            documents: Table::new(),
            doc_to_window: Table::new(),
            config,
            window_configs: Table::new(),
            hooks: Vec::new(),
            simulate_slow_ms: 0,
            capture_config: None,
            debug_flags: 0,
        };
        assert(document_contents(r.documents@) =~= Map::<DocumentId, DocumentContents>::empty());
        r
    }

    /// The window of a document, where it has hooks.
    pub fn hooked_window(&self, document: DocumentId) -> (r: Option<RenderBackendId>)
        requires
            self.wf(),
        ensures
            r == self@.hooked_window(document),
    {
        match self.doc_to_window.get(&document) {
            Some(window) => if lists_window(&self.hooks, *window) {
                Some(*window)
            } else {
                None
            },
            None => None,
        }
    }

    /// The configuration for a document.
    pub fn config_for(&self, document: DocumentId) -> (r: FrameBuilderConfig)
        requires
            self.wf(),
        ensures
            r == self@.config_for(document),
    {
        match self.doc_to_window.get(&document) {
            Some(window) => match self.window_configs.get(window) {
                Some(config) => *config,
                None => self.config,
            },
            None => self.config,
        }
    }
}

} // verus!
