//! What happens to transactions whose scenes are built, and who is told of it.

use crate::grouped::GroupKey;
use crate::scene::{DocumentId, Epoch, PipelineId};
use crate::scene_builder_thread::transaction::BuiltTransaction;
use crate::scene_builder_thread::{
    lists_window, CaptureConfig, RenderBackendId, SceneBuilderThread, ThreadContents,
};
use crate::table::{with_key, Table};
use vstd::prelude::*;

verus! {

/// A pipeline of a document.
#[derive(Clone, Copy, Debug, PartialEq, Eq, Structural)]
pub struct DocumentPipeline {
    pub pipeline_id: PipelineId,
    pub document_id: DocumentId,
}

impl GroupKey for DocumentPipeline {
    fn same(&self, other: &Self) -> (r: bool) {
        *self == *other
    }
}

/// The pipelines of scenes that were built.
pub struct PipelineInfo {
    pub epochs: Table<DocumentPipeline, Epoch>,
    pub removed_pipelines: Vec<(PipelineId, DocumentId)>,
}

/// The pipelines of scenes as a mathematical value.
#[verifier::ext_equal]
pub struct PipelineNews {
    pub epochs: Map<DocumentPipeline, Epoch>,
    pub removed: Seq<(PipelineId, DocumentId)>,
}

impl PipelineInfo {
    pub open spec fn wf(self) -> bool {
        self.epochs.wf()
    }

    pub open spec fn view(self) -> PipelineNews {
        PipelineNews { epochs: self.epochs@, removed: self.removed_pipelines@ }
    }
}

/// What the hooks of a window are told after transactions were forwarded.
pub enum HookCall {
    /// The scenes of documents were swapped for new ones.
    PostSceneSwap {
        window: RenderBackendId,
        documents: Vec<DocumentId>,
        info: PipelineInfo,
        schedule_frame: bool,
    },
    /// The resources of documents have changed.
    PostResourceUpdate { window: RenderBackendId, documents: Vec<DocumentId> },
    /// Nothing was built.
    PostEmptySceneBuild { window: RenderBackendId },
}

/// A call of hooks as a mathematical value.
#[verifier::ext_equal]
pub enum HookNews {
    PostSceneSwap {
        window: RenderBackendId,
        documents: Seq<DocumentId>,
        info: PipelineNews,
        schedule_frame: bool,
    },
    PostResourceUpdate { window: RenderBackendId, documents: Seq<DocumentId> },
    PostEmptySceneBuild { window: RenderBackendId },
}

impl HookCall {
    pub open spec fn view(self) -> HookNews {
        match self {
            HookCall::PostSceneSwap { window, documents, info, schedule_frame } => {
                HookNews::PostSceneSwap {
                    window,
                    documents: documents@,
                    info: info@,
                    schedule_frame,
                }
            },
            HookCall::PostResourceUpdate { window, documents } => HookNews::PostResourceUpdate {
                window,
                documents: documents@,
            },
            HookCall::PostEmptySceneBuild { window } => HookNews::PostEmptySceneBuild { window },
        }
    }
}

/// Which window each document belongs to.
pub type Windows = Map<DocumentId, RenderBackendId>;

/// A transaction is for a document of a window.
pub open spec fn is_in(windows: Windows, txn: BuiltTransaction, window: RenderBackendId) -> bool {
    windows.dom().contains(txn.document_id) && windows[txn.document_id] == window
}

/// The windows of those transactions that have a window, or of those whose scene was built.
pub open spec fn batch_windows(
    windows: Windows,
    txns: Seq<BuiltTransaction>,
    only_built: bool,
) -> Seq<RenderBackendId>
    decreases txns.len(),
{
    if txns.len() == 0 {
        Seq::empty()
    } else {
        let before = batch_windows(windows, txns.drop_last(), only_built);
        let txn = txns.last();
        if windows.dom().contains(txn.document_id) && (!only_built || txn.built_scene is Some) {
            with_key(before, windows[txn.document_id])
        } else {
            before
        }
    }
}

/// The window can see that something has changed, though no scene was built.
pub open spec fn has_updates(txn: BuiltTransaction) -> bool {
    txn.resource_updates@.len() > 0 || txn.invalidate_rendered_frame
}

/// The documents of a window that have transactions, or that have updates.
pub open spec fn documents_of(
    windows: Windows,
    txns: Seq<BuiltTransaction>,
    window: RenderBackendId,
    only_updated: bool,
) -> Seq<DocumentId>
    decreases txns.len(),
{
    if txns.len() == 0 {
        Seq::empty()
    } else {
        let before = documents_of(windows, txns.drop_last(), window, only_updated);
        let txn = txns.last();
        if is_in(windows, txn, window) && (!only_updated || has_updates(txn)) {
            before.push(txn.document_id)
        } else {
            before
        }
    }
}

/// The epochs of a document's pipelines, added to those of others.
pub open spec fn with_scene_epochs(
    epochs: Map<DocumentPipeline, Epoch>,
    scene: Seq<(PipelineId, Epoch)>,
    document_id: DocumentId,
) -> Map<DocumentPipeline, Epoch>
    decreases scene.len(),
{
    if scene.len() == 0 {
        epochs
    } else {
        with_scene_epochs(epochs, scene.drop_last(), document_id).insert(
            DocumentPipeline { pipeline_id: scene.last().0, document_id },
            scene.last().1,
        )
    }
}

/// The epochs of all the pipelines whose scenes were built.
pub open spec fn batch_epochs(txns: Seq<BuiltTransaction>) -> Map<DocumentPipeline, Epoch>
    decreases txns.len(),
{
    if txns.len() == 0 {
        Map::empty()
    } else {
        let before = batch_epochs(txns.drop_last());
        match txns.last().built_scene {
            Some(scene) => with_scene_epochs(
                before,
                scene.pipeline_epochs@,
                txns.last().document_id,
            ),
            None => before,
        }
    }
}

/// All the pipelines that were removed.
pub open spec fn batch_removed(txns: Seq<BuiltTransaction>) -> Seq<(PipelineId, DocumentId)>
    decreases txns.len(),
{
    if txns.len() == 0 {
        Seq::empty()
    } else {
        batch_removed(txns.drop_last()) + txns.last().removed_pipelines@
    }
}

/// What concerns some documents.
pub open spec fn news_for(news: PipelineNews, documents: Seq<DocumentId>) -> PipelineNews {
    PipelineNews {
        epochs: news.epochs.restrict(
            Set::new(|key: DocumentPipeline| documents.contains(key.document_id)),
        ),
        removed: news.removed.filter(
            |removed: (PipelineId, DocumentId)| documents.contains(removed.1),
        ),
    }
}

/// Some transaction draws a frame at once.
pub open spec fn renders(txns: Seq<BuiltTransaction>) -> bool {
    exists|i: int| 0 <= i < txns.len() && (#[trigger] txns[i]).render_frame
}

/// What a window is told whose scenes were swapped. Where no frame is drawn at once, one is
/// to be scheduled.
pub open spec fn swap_news(
    windows: Windows,
    txns: Seq<BuiltTransaction>,
    window: RenderBackendId,
) -> HookNews {
    let documents = documents_of(windows, txns, window, false);
    HookNews::PostSceneSwap {
        window,
        documents,
        info: news_for(
            PipelineNews { epochs: batch_epochs(txns), removed: batch_removed(txns) },
            documents,
        ),
        schedule_frame: !renders(txns),
    }
}

/// What a window is told where no scene was built.
pub open spec fn idle_news(
    windows: Windows,
    txns: Seq<BuiltTransaction>,
    window: RenderBackendId,
) -> HookNews {
    let documents = documents_of(windows, txns, window, true);
    if documents.len() > 0 {
        HookNews::PostResourceUpdate { window, documents }
    } else {
        HookNews::PostEmptySceneBuild { window }
    }
}

/// Those windows that have hooks.
pub open spec fn hooked(hooks: Seq<RenderBackendId>, windows: Seq<RenderBackendId>) -> Seq<
    RenderBackendId,
> {
    windows.filter(|window: RenderBackendId| hooks.contains(window))
}

/// Some scene was built for a window.
pub open spec fn swaps(thread: ThreadContents, txns: Seq<BuiltTransaction>) -> bool {
    batch_windows(thread.windows, txns, true).len() > 0
}

/// The windows that are told what becomes of transactions.
pub open spec fn told_windows(thread: ThreadContents, txns: Seq<BuiltTransaction>) -> Seq<
    RenderBackendId,
> {
    hooked(
        thread.hooks,
        batch_windows(thread.windows, txns, swaps(thread, txns)),
    )
}

/// What they are told.
pub open spec fn all_news(thread: ThreadContents, txns: Seq<BuiltTransaction>) -> Seq<HookNews> {
    if swaps(thread, txns) {
        told_windows(thread, txns).map_values(
            |window: RenderBackendId| swap_news(thread.windows, txns, window),
        )
    } else {
        told_windows(thread, txns).map_values(
            |window: RenderBackendId| idle_news(thread.windows, txns, window),
        )
    }
}

/// The longest time that a scene took to build.
pub open spec fn longest_build(txns: Seq<BuiltTransaction>) -> int
    decreases txns.len(),
{
    if txns.len() == 0 {
        0
    } else {
        let before = longest_build(txns.drop_last());
        match txns.last().profile.scene_build_time_ns {
            Some(time) => if time > before {
                time as int
            } else {
                before
            },
            None => before,
        }
    }
}

/// What is done with transactions whose scenes are built.
pub struct Forwarding {
    /// How long the longest build took, where that is to be recorded.
    pub scene_build_time_ns: Option<u64>,
    /// The windows whose hooks are told before the scenes are swapped.
    pub pre_scene_swap: Vec<RenderBackendId>,
    /// What the transactions are captured with.
    pub capture: Option<CaptureConfig>,
    /// Wait until the scenes were swapped, and let the other side go on after the hooks
    /// were told.
    pub wait_for_swap: bool,
    /// What is told to hooks at the end.
    pub post: Vec<HookCall>,
}

/// A document is among those in a list.
fn lists_document(documents: &Vec<DocumentId>, document: DocumentId) -> (r: bool)
    ensures
        r == documents@.contains(document),
{
    let mut i: usize = 0;
    while i < documents.len()
        invariant
            i <= documents@.len(),
            forall|j: int| 0 <= j < i ==> documents@[j] != document,
        decreases documents@.len() - i,
    {
        if documents[i] == document {
            return true;
        }
        i = i + 1;
    }
    false
}

/// The pipelines of all the scenes that were built.
fn batch_info(txns: &Vec<BuiltTransaction>) -> (r: PipelineInfo)
    ensures
        r.wf(),
        r@ == (PipelineNews { epochs: batch_epochs(txns@), removed: batch_removed(txns@) }),
{
    let mut epochs: Table<DocumentPipeline, Epoch> = Table::new();
    let mut removed_pipelines: Vec<(PipelineId, DocumentId)> = Vec::new();
    let mut i: usize = 0;
    assert(txns@.take(0) =~= Seq::<BuiltTransaction>::empty());
    while i < txns.len()
        invariant
            i <= txns@.len(),
            epochs.wf(),
            epochs@ == batch_epochs(txns@.take(i as int)),
            removed_pipelines@ == batch_removed(txns@.take(i as int)),
        decreases txns@.len() - i,
    {
        assert(txns@.take(i as int + 1).drop_last() =~= txns@.take(i as int));
        let txn = &txns[i];
        if let Some(scene) = &txn.built_scene {
            add_epochs(&mut epochs, &scene.pipeline_epochs, txn.document_id);
        }
        let mut j: usize = 0;
        let total: usize = txn.removed_pipelines.len();
        let ghost before = removed_pipelines@;
        assert(txn.removed_pipelines@.take(0) =~= Seq::<(PipelineId, DocumentId)>::empty());
        while j < total
            invariant
                j <= total,
                total == txn.removed_pipelines@.len(),
                removed_pipelines@ == before + txn.removed_pipelines@.take(j as int),
            decreases total - j,
        {
            removed_pipelines.push(txn.removed_pipelines[j]);
            j = j + 1;
            assert(removed_pipelines@ =~= before + txn.removed_pipelines@.take(j as int));
        }
        assert(txn.removed_pipelines@.take(j as int) =~= txn.removed_pipelines@);
        i = i + 1;
    }
    assert(txns@.take(i as int) =~= txns@);
    PipelineInfo { epochs, removed_pipelines }
}

fn add_epochs(
    epochs: &mut Table<DocumentPipeline, Epoch>,
    scene: &Vec<(PipelineId, Epoch)>,
    document_id: DocumentId,
)
    requires
        old(epochs).wf(),
    ensures
        final(epochs).wf(),
        final(epochs)@ == with_scene_epochs(old(epochs)@, scene@, document_id),
{
    let mut i: usize = 0;
    assert(scene@.take(0) =~= Seq::<(PipelineId, Epoch)>::empty());
    while i < scene.len()
        invariant
            i <= scene@.len(),
            epochs.wf(),
            epochs@ == with_scene_epochs(old(epochs)@, scene@.take(i as int), document_id),
        decreases scene@.len() - i,
    {
        assert(scene@.take(i as int + 1).drop_last() =~= scene@.take(i as int));
        let (pipeline_id, epoch) = scene[i];
        epochs.insert(DocumentPipeline { pipeline_id, document_id }, epoch);
        i = i + 1;
    }
    assert(scene@.take(i as int) =~= scene@);
}

/// What of the pipelines concerns some documents.
fn info_for(info: &PipelineInfo, documents: &Vec<DocumentId>) -> (r: PipelineInfo)
    requires
        info.wf(),
    ensures
        r.wf(),
        r@ == news_for(info@, documents@),
{
    let ghost about = Set::new(|key: DocumentPipeline| documents@.contains(key.document_id));
    let ghost concerns = |removed: (PipelineId, DocumentId)| documents@.contains(removed.1);
    let mut epochs: Table<DocumentPipeline, Epoch> = Table::new();
    let mut i: usize = 0;
    let total: usize = info.epochs.keys.len();
    let ghost keys = info.epochs.keys@;
    assert(epochs@ =~= info.epochs@.restrict(about).restrict(keys.take(0).to_set()));
    while i < total
        invariant
            i <= total,
            total == keys.len(),
            keys == info.epochs.keys@,
            info.epochs.wf(),
            about == Set::new(|key: DocumentPipeline| documents@.contains(key.document_id)),
            epochs.wf(),
            epochs@ == info.epochs@.restrict(about).restrict(keys.take(i as int).to_set()),
        decreases total - i,
    {
        let key = info.epochs.keys[i];
        assert(keys.take(i as int + 1) =~= keys.take(i as int).push(key));
        assert(keys.contains(key));
        assert(keys.take(i as int + 1).to_set() =~= keys.take(i as int).to_set().insert(key)) by {
            let earlier = keys.take(i as int);
            assert forall|k: DocumentPipeline| #[trigger] earlier.push(key).contains(k) == (
            earlier.contains(k) || k == key) by {
                assert(earlier.push(key)[i as int] == key);
                if earlier.contains(k) {
                    assert(earlier.push(key)[earlier.index_of(k)] == k);
                }
            }
        }
        if lists_document(documents, key.document_id) {
            if let Some(epoch) = info.epochs.get(&key) {
                epochs.insert(key, *epoch);
            }
        }
        i = i + 1;
        assert(epochs@ =~= info.epochs@.restrict(about).restrict(keys.take(i as int).to_set()));
    }
    proof {
        assert(keys.take(i as int) =~= keys);
        assert(epochs@ =~= info.epochs@.restrict(about));
    }
    let mut removed_pipelines: Vec<(PipelineId, DocumentId)> = Vec::new();
    let mut j: usize = 0;
    let count: usize = info.removed_pipelines.len();
    assert(info.removed_pipelines@.take(0) =~= Seq::<(PipelineId, DocumentId)>::empty());
    proof {
        reveal(Seq::filter);
    }
    while j < count
        invariant
            j <= count,
            count == info.removed_pipelines@.len(),
            concerns == (|removed: (PipelineId, DocumentId)| documents@.contains(removed.1)),
            removed_pipelines@ == info.removed_pipelines@.take(j as int).filter(concerns),
        decreases count - j,
    {
        proof {
            reveal(Seq::filter);
            assert(info.removed_pipelines@.take(j as int + 1).drop_last()
                =~= info.removed_pipelines@.take(j as int));
        }
        let removed = info.removed_pipelines[j];
        if lists_document(documents, removed.1) {
            removed_pipelines.push(removed);
        }
        j = j + 1;
    }
    assert(info.removed_pipelines@.take(j as int) =~= info.removed_pipelines@);
    PipelineInfo { epochs, removed_pipelines }
}

/// A transaction has something that can be seen though no scene was built.
fn updates_something(txn: &BuiltTransaction) -> (r: bool)
    ensures
        r == has_updates(*txn),
{
    txn.resource_updates.len() > 0 || txn.invalidate_rendered_frame
}

/// Some transaction draws a frame at once.
fn any_renders(txns: &Vec<BuiltTransaction>) -> (r: bool)
    ensures
        r == renders(txns@),
{
    let mut i: usize = 0;
    while i < txns.len()
        invariant
            i <= txns@.len(),
            forall|j: int| 0 <= j < i ==> !(#[trigger] txns@[j]).render_frame,
        decreases txns@.len() - i,
    {
        if txns[i].render_frame {
            return true;
        }
        i = i + 1;
    }
    false
}

/// The longest time that a scene took to build.
fn max_build_time(txns: &Vec<BuiltTransaction>) -> (r: u64)
    ensures
        r == longest_build(txns@),
{
    let mut longest: u64 = 0;
    let mut i: usize = 0;
    assert(txns@.take(0) =~= Seq::<BuiltTransaction>::empty());
    while i < txns.len()
        invariant
            i <= txns@.len(),
            longest == longest_build(txns@.take(i as int)),
        decreases txns@.len() - i,
    {
        assert(txns@.take(i as int + 1).drop_last() =~= txns@.take(i as int));
        if let Some(time) = txns[i].profile.scene_build_time_ns {
            if time > longest {
                longest = time;
            }
        }
        i = i + 1;
    }
    assert(txns@.take(i as int) =~= txns@);
    longest
}

impl SceneBuilderThread {
    /// The windows of transactions, or of those whose scene was built.
    fn windows_of(&self, txns: &Vec<BuiltTransaction>, only_built: bool) -> (r: Vec<
        RenderBackendId,
    >)
        requires
            self.wf(),
        ensures
            r@ == batch_windows(self@.windows, txns@, only_built),
    {
        let mut windows: Vec<RenderBackendId> = Vec::new();
        let mut i: usize = 0;
        assert(txns@.take(0) =~= Seq::<BuiltTransaction>::empty());
        while i < txns.len()
            invariant
                i <= txns@.len(),
                self.wf(),
                windows@ == batch_windows(self@.windows, txns@.take(i as int), only_built),
            decreases txns@.len() - i,
        {
            assert(txns@.take(i as int + 1).drop_last() =~= txns@.take(i as int));
            let txn = &txns[i];
            if let Some(window) = self.doc_to_window.get(&txn.document_id) {
                if !only_built || txn.built_scene.is_some() {
                    if !lists_window(&windows, *window) {
                        windows.push(*window);
                    }
                }
            }
            i = i + 1;
        }
        assert(txns@.take(i as int) =~= txns@);
        windows
    }

    /// The documents of a window that have transactions, or that have updates.
    fn documents_of(
        &self,
        txns: &Vec<BuiltTransaction>,
        window: RenderBackendId,
        only_updated: bool,
    ) -> (r: Vec<DocumentId>)
        requires
            self.wf(),
        ensures
            r@ == documents_of(self@.windows, txns@, window, only_updated),
    {
        let mut documents: Vec<DocumentId> = Vec::new();
        let mut i: usize = 0;
        assert(txns@.take(0) =~= Seq::<BuiltTransaction>::empty());
        while i < txns.len()
            invariant
                i <= txns@.len(),
                self.wf(),
                documents@ == documents_of(
                    self@.windows,
                    txns@.take(i as int),
                    window,
                    only_updated,
                ),
            decreases txns@.len() - i,
        {
            assert(txns@.take(i as int + 1).drop_last() =~= txns@.take(i as int));
            let txn = &txns[i];
            if let Some(owner) = self.doc_to_window.get(&txn.document_id) {
                if *owner == window && (!only_updated || updates_something(txn)) {
                    documents.push(txn.document_id);
                }
            }
            i = i + 1;
        }
        assert(txns@.take(i as int) =~= txns@);
        documents
    }

    /// Those windows that have hooks.
    fn hooked(&self, windows: &Vec<RenderBackendId>) -> (r: Vec<RenderBackendId>)
        ensures
            r@ == hooked(self@.hooks, windows@),
    {
        let mut r: Vec<RenderBackendId> = Vec::new();
        let mut i: usize = 0;
        assert(windows@.take(0) =~= Seq::<RenderBackendId>::empty());
        proof {
            reveal(Seq::filter);
        }
        while i < windows.len()
            invariant
                i <= windows@.len(),
                r@ == hooked(self@.hooks, windows@.take(i as int)),
            decreases windows@.len() - i,
        {
            proof {
                reveal(Seq::filter);
                assert(windows@.take(i as int + 1).drop_last() =~= windows@.take(i as int));
            }
            if lists_window(&self.hooks, windows[i]) {
                r.push(windows[i]);
            }
            i = i + 1;
        }
        assert(windows@.take(i as int) =~= windows@);
        r
    }

    /// What one window is told.
    fn call_for(
        &self,
        txns: &Vec<BuiltTransaction>,
        info: &PipelineInfo,
        window: RenderBackendId,
        swapped: bool,
        schedule_frame: bool,
    ) -> (r: HookCall)
        requires
            self.wf(),
            info.wf(),
            info@ == (PipelineNews {
                epochs: batch_epochs(txns@),
                removed: batch_removed(txns@),
            }),
            schedule_frame == !renders(txns@),
        ensures
            r@ == (if swapped {
                swap_news(self@.windows, txns@, window)
            } else {
                idle_news(self@.windows, txns@, window)
            }),
    {
        if swapped {
            let documents = self.documents_of(txns, window, false);
            let info = info_for(info, &documents);
            HookCall::PostSceneSwap { window, documents, info, schedule_frame }
        } else {
            let documents = self.documents_of(txns, window, true);
            if documents.len() > 0 {
                HookCall::PostResourceUpdate { window, documents }
            } else {
                HookCall::PostEmptySceneBuild { window }
            }
        }
    }

    /// Decides what is done with transactions whose scenes are built. Each window is told
    /// of its own documents only.
    pub fn forward_built_transactions(&self, txns: &Vec<BuiltTransaction>) -> (r: Forwarding)
        requires
            self.wf(),
        ensures
            r.scene_build_time_ns == (if longest_build(txns@) > 0 {
                Some(longest_build(txns@) as u64)
            } else {
                None
            }),
            r.pre_scene_swap@ == (if swaps(self@, txns@) {
                told_windows(self@, txns@)
            } else {
                Seq::empty()
            }),
            r.capture == self@.capture_config,
            r.wait_for_swap == swaps(self@, txns@),
            r.post@.map_values(|call: HookCall| call@) == all_news(self@, txns@),
    {
        let longest = max_build_time(txns);
        let built = self.windows_of(txns, true);
        let swapped = built.len() > 0;
        let windows = if swapped {
            built
        } else {
            self.windows_of(txns, false)
        };
        let told = self.hooked(&windows);
        let info = batch_info(txns);
        let schedule_frame = !any_renders(txns);
        let mut post: Vec<HookCall> = Vec::new();
        let mut i: usize = 0;
        let ghost news = all_news(self@, txns@);
        assert(post@.map_values(|call: HookCall| call@) =~= news.take(0));
        while i < told.len()
            invariant
                i <= told@.len(),
                self.wf(),
                info.wf(),
                info@ == (PipelineNews {
                    epochs: batch_epochs(txns@),
                    removed: batch_removed(txns@),
                }),
                schedule_frame == !renders(txns@),
                swapped == swaps(self@, txns@),
                told@ == told_windows(self@, txns@),
                news == all_news(self@, txns@),
                news.len() == told@.len(),
                post@.map_values(|call: HookCall| call@) == news.take(i as int),
            decreases told@.len() - i,
        {
            let ghost before = post@;
            let call = self.call_for(txns, &info, told[i], swapped, schedule_frame);
            assert(call@ == news[i as int]);
            post.push(call);
            i = i + 1;
            assert(post@.map_values(|call: HookCall| call@) =~= before.map_values(
                |call: HookCall| call@,
            ).push(call@));
            assert(news.take(i as int) =~= news.take(i - 1).push(news[i - 1]));
        }
        assert(news.take(i as int) =~= news);
        Forwarding {
            scene_build_time_ns: if longest > 0 {
                Some(longest)
            } else {
                None
            },
            pre_scene_swap: if swapped {
                told
            } else {
                Vec::new()
            },
            capture: self.capture_config,
            wait_for_swap: swapped,
            post,
        }
    }
}

proof fn lemma_documents(
    windows: Windows,
    txns: Seq<BuiltTransaction>,
    window: RenderBackendId,
    only_updated: bool,
    document: DocumentId,
)
    ensures
        documents_of(windows, txns, window, only_updated).contains(document) <==> exists|i: int|
            #![trigger txns[i]]
            0 <= i < txns.len() && txns[i].document_id == document && is_in(
                windows,
                txns[i],
                window,
            ) && (!only_updated || has_updates(txns[i])),
    decreases txns.len(),
{
    if txns.len() > 0 {
        let earlier = txns.drop_last();
        let before = documents_of(windows, earlier, window, only_updated);
        let all = documents_of(windows, txns, window, only_updated);
        lemma_documents(windows, earlier, window, only_updated, document);
        if before.contains(document) {
            let i = choose|i: int|
                #![trigger earlier[i]]
                0 <= i < earlier.len() && earlier[i].document_id == document && is_in(
                    windows,
                    earlier[i],
                    window,
                ) && (!only_updated || has_updates(earlier[i]));
            assert(txns[i] == earlier[i]);
            assert(all[before.index_of(document)] == document);
        }
        let last = txns.last();
        if is_in(windows, last, window) && (!only_updated || has_updates(last)) {
            assert(all[before.len() as int] == last.document_id);
            if all.contains(document) && !before.contains(document) {
                let at = all.index_of(document);
                if at < before.len() {
                    assert(before[at] == document);
                }
                assert(txns[txns.len() - 1].document_id == document);
            }
        }
        assert forall|i: int|
            #![trigger txns[i]]
            0 <= i < txns.len() && txns[i].document_id == document && is_in(
                windows,
                txns[i],
                window,
            ) && (!only_updated || has_updates(txns[i])) implies all.contains(document) by {
            if i < earlier.len() {
                assert(earlier[i] == txns[i]);
            }
        }
    }
}

proof fn lemma_batch_windows(windows: Windows, txns: Seq<BuiltTransaction>, only_built: bool)
    ensures
        batch_windows(windows, txns, only_built).no_duplicates(),
        forall|i: int|
            #![trigger txns[i]]
            0 <= i < txns.len() && windows.dom().contains(txns[i].document_id) && (!only_built
                || txns[i].built_scene is Some) ==> batch_windows(
                windows,
                txns,
                only_built,
            ).contains(windows[txns[i].document_id]),
    decreases txns.len(),
{
    if txns.len() > 0 {
        let earlier = txns.drop_last();
        let before = batch_windows(windows, earlier, only_built);
        let all = batch_windows(windows, txns, only_built);
        lemma_batch_windows(windows, earlier, only_built);
        assert forall|i: int|
            #![trigger txns[i]]
            0 <= i < txns.len() && windows.dom().contains(txns[i].document_id) && (!only_built
                || txns[i].built_scene is Some) implies all.contains(
            windows[txns[i].document_id],
        ) by {
            let window = windows[txns[i].document_id];
            if i < earlier.len() {
                assert(earlier[i] == txns[i]);
                assert(all[before.index_of(window)] == window);
            } else if !before.contains(window) {
                assert(all[before.len() as int] == window);
            }
        }
    }
}

proof fn lemma_filter_once<T>(items: Seq<T>, keep: spec_fn(T) -> bool)
    requires
        items.no_duplicates(),
    ensures
        items.filter(keep).no_duplicates(),
        forall|item: T| #[trigger]
            items.filter(keep).contains(item) == (items.contains(item) && keep(item)),
    decreases items.len(),
{
    reveal(Seq::filter);
    if items.len() > 0 {
        let earlier = items.drop_last();
        let last = items.last();
        lemma_filter_once(earlier, keep);
        let before = earlier.filter(keep);
        assert(!earlier.contains(last));
        assert(!before.contains(last));
        if keep(last) {
            assert(items.filter(keep) =~= before.push(last));
            assert forall|i: int, j: int|
                0 <= i < before.len() + 1 && 0 <= j < before.len() + 1 && i != j implies before.push(
                last,
            )[i] != before.push(last)[j] by {
                if i == before.len() {
                    assert(before.contains(before[j]));
                } else if j == before.len() {
                    assert(before.contains(before[i]));
                }
            }
        }
        assert forall|item: T| #[trigger]
            items.filter(keep).contains(item) == (items.contains(item) && keep(item)) by {
            assert(items.contains(item) == (earlier.contains(item) || item == last)) by {
                if earlier.contains(item) {
                    assert(items[earlier.index_of(item)] == item);
                }
                if items.contains(item) && item != last {
                    assert(earlier[items.index_of(item)] == item);
                }
            }
            if keep(last) {
                assert(items.filter(keep) =~= before.push(last));
                if before.contains(item) {
                    assert(before.push(last)[before.index_of(item)] == item);
                }
                assert(before.push(last)[before.len() as int] == last);
                if before.push(last).contains(item) && item != last {
                    assert(before[before.push(last).index_of(item)] == item);
                }
            }
        }
    }
}

/// No window is told twice what becomes of a batch of transactions.
pub proof fn windows_are_told_once(thread: ThreadContents, txns: Seq<BuiltTransaction>)
    ensures
        told_windows(thread, txns).no_duplicates(),
        forall|window: RenderBackendId| #[trigger]
            told_windows(thread, txns).contains(window) ==> thread.hooks.contains(window),
{
    let only_built = swaps(thread, txns);
    lemma_batch_windows(thread.windows, txns, only_built);
    lemma_filter_once(
        batch_windows(thread.windows, txns, only_built),
        |window: RenderBackendId| thread.hooks.contains(window),
    );
}

/// What a window is told of swapped scenes is about its own documents, all of which have a
/// transaction in the batch.
pub proof fn windows_hear_of_their_own(
    windows: Windows,
    txns: Seq<BuiltTransaction>,
    window: RenderBackendId,
)
    ensures
        swap_news(windows, txns, window) matches HookNews::PostSceneSwap { documents, info, .. }
            && (forall|document: DocumentId| #[trigger]
            documents.contains(document) ==> windows.dom().contains(document)
                && windows[document] == window) && (forall|key: DocumentPipeline| #[trigger]
            info.epochs.dom().contains(key) ==> windows.dom().contains(key.document_id)
                && windows[key.document_id] == window) && (forall|i: int|
            0 <= i < info.removed.len() ==> windows.dom().contains(
                (#[trigger] info.removed[i]).1,
            ) && windows[info.removed[i].1] == window),
{
    let documents = documents_of(windows, txns, window, false);
    assert forall|document: DocumentId| #[trigger] documents.contains(document) implies
    windows.dom().contains(document) && windows[document] == window by {
        lemma_documents(windows, txns, window, false, document);
    }
    let removed = batch_removed(txns);
    let concerns = |r: (PipelineId, DocumentId)| documents.contains(r.1);
    assert forall|i: int| 0 <= i < removed.filter(concerns).len() implies documents.contains(
        (#[trigger] removed.filter(concerns)[i]).1,
    ) by {
        removed.lemma_filter_pred(concerns, i);
    }
}

proof fn lemma_scene_epochs(
    epochs: Map<DocumentPipeline, Epoch>,
    scene: Seq<(PipelineId, Epoch)>,
    document_id: DocumentId,
)
    ensures
        forall|key: DocumentPipeline| #[trigger]
            epochs.dom().contains(key) ==> with_scene_epochs(
                epochs,
                scene,
                document_id,
            ).dom().contains(key),
        forall|i: int|
            #![trigger scene[i]]
            0 <= i < scene.len() ==> with_scene_epochs(epochs, scene, document_id).dom().contains(
                DocumentPipeline { pipeline_id: scene[i].0, document_id },
            ),
    decreases scene.len(),
{
    if scene.len() > 0 {
        lemma_scene_epochs(epochs, scene.drop_last(), document_id);
        assert forall|i: int| #![trigger scene[i]] 0 <= i < scene.len() implies with_scene_epochs(
            epochs,
            scene,
            document_id,
        ).dom().contains(DocumentPipeline { pipeline_id: scene[i].0, document_id }) by {
            if i < scene.len() - 1 {
                assert(scene.drop_last()[i] == scene[i]);
            }
        }
    }
}

proof fn lemma_batch_epochs(txns: Seq<BuiltTransaction>, i: int, j: int)
    requires
        0 <= i < txns.len(),
        txns[i].built_scene matches Some(scene) && 0 <= j < scene.pipeline_epochs@.len(),
    ensures
        batch_epochs(txns).dom().contains(
            DocumentPipeline {
                pipeline_id: txns[i].built_scene->0.pipeline_epochs@[j].0,
                document_id: txns[i].document_id,
            },
        ),
    decreases txns.len(),
{
    let last = txns.last();
    let before = batch_epochs(txns.drop_last());
    if let Some(scene) = last.built_scene {
        lemma_scene_epochs(before, scene.pipeline_epochs@, last.document_id);
    }
    if i < txns.len() - 1 {
        assert(txns.drop_last()[i] == txns[i]);
        lemma_batch_epochs(txns.drop_last(), i, j);
    }
}

/// A window with hooks is told of every scene that was built for it, with an epoch of each
/// of the scene's pipelines.
pub proof fn built_scenes_are_told(thread: ThreadContents, txns: Seq<BuiltTransaction>, i: int)
    requires
        0 <= i < txns.len(),
        txns[i].built_scene is Some,
        thread.hooked_window(txns[i].document_id) is Some,
    ensures
        swaps(thread, txns),
        told_windows(thread, txns).contains(thread.hooked_window(txns[i].document_id)->0),
        swap_news(thread.windows, txns, thread.hooked_window(txns[i].document_id)->0)
            matches HookNews::PostSceneSwap { documents, info, .. } && documents.contains(
            txns[i].document_id,
        ) && (forall|j: int|
            0 <= j < txns[i].built_scene->0.pipeline_epochs@.len()
                ==> info.epochs.dom().contains(
                DocumentPipeline {
                    pipeline_id: (#[trigger] txns[i].built_scene->0.pipeline_epochs@[j]).0,
                    document_id: txns[i].document_id,
                },
            )),
{
    let window = thread.hooked_window(txns[i].document_id)->0;
    lemma_batch_windows(thread.windows, txns, true);
    lemma_filter_once(
        batch_windows(thread.windows, txns, true),
        |window: RenderBackendId| thread.hooks.contains(window),
    );
    lemma_documents(thread.windows, txns, window, false, txns[i].document_id);
    assert(is_in(thread.windows, txns[i], window));
    let scene = txns[i].built_scene->0;
    assert forall|j: int|
        #![trigger scene.pipeline_epochs@[j]]
        0 <= j < scene.pipeline_epochs@.len() implies batch_epochs(txns).dom().contains(
        DocumentPipeline {
            pipeline_id: scene.pipeline_epochs@[j].0,
            document_id: txns[i].document_id,
        },
    ) by {
        lemma_batch_epochs(txns, i, j);
    }
}

/// Where no scene was built, a window with hooks hears of exactly those of its documents
/// that have updates.
pub proof fn updates_are_told(
    thread: ThreadContents,
    txns: Seq<BuiltTransaction>,
    window: RenderBackendId,
    document: DocumentId,
)
    requires
        !swaps(thread, txns),
    ensures
        ({
            let updated = exists|i: int|
                #![trigger txns[i]]
                0 <= i < txns.len() && txns[i].document_id == document && is_in(
                    thread.windows,
                    txns[i],
                    window,
                ) && has_updates(txns[i]);
            match idle_news(thread.windows, txns, window) {
                HookNews::PostResourceUpdate { documents, .. } => documents.contains(document)
                    == updated,
                HookNews::PostEmptySceneBuild { .. } => !updated,
                _ => false,
            }
        }),
{
    lemma_documents(thread.windows, txns, window, true, document);
}

/// A window whose scenes were swapped is told of all its documents that had transactions and
/// of no others, and to schedule a frame exactly where no transaction draws one.
pub proof fn frames_are_scheduled_unless_drawn(
    windows: Windows,
    txns: Seq<BuiltTransaction>,
    window: RenderBackendId,
)
    ensures
        swap_news(windows, txns, window) matches HookNews::PostSceneSwap {
            window: told,
            documents,
            schedule_frame,
            ..
        } && {
            &&& told == window
            &&& schedule_frame <==> forall|i: int|
                0 <= i < txns.len() ==> !(#[trigger] txns[i]).render_frame
            &&& forall|i: int|
                0 <= i < txns.len() && windows.dom().contains((#[trigger] txns[i]).document_id)
                    && windows[txns[i].document_id] == window ==> documents.contains(
                    txns[i].document_id,
                )
            &&& forall|k: int|
                0 <= k < documents.len() ==> windows.dom().contains(#[trigger] documents[k])
                    && windows[documents[k]] == window
        },
{
    lemma_documents_of(windows, txns, window);
}

proof fn lemma_documents_of(
    windows: Windows,
    txns: Seq<BuiltTransaction>,
    window: RenderBackendId,
)
    ensures
        ({
            let documents = documents_of(windows, txns, window, false);
            &&& forall|i: int|
                0 <= i < txns.len() && windows.dom().contains((#[trigger] txns[i]).document_id)
                    && windows[txns[i].document_id] == window ==> documents.contains(
                    txns[i].document_id,
                )
            &&& forall|k: int|
                0 <= k < documents.len() ==> windows.dom().contains(#[trigger] documents[k])
                    && windows[documents[k]] == window
        }),
    decreases txns.len(),
{
    if txns.len() > 0 {
        let most = txns.drop_last();
        lemma_documents_of(windows, most, window);
        let before = documents_of(windows, most, window, false);
        let documents = documents_of(windows, txns, window, false);
        assert forall|i: int|
            0 <= i < txns.len() && windows.dom().contains((#[trigger] txns[i]).document_id)
                && windows[txns[i].document_id] == window implies documents.contains(
            txns[i].document_id,
        ) by {
            if i < most.len() {
                assert(most[i] == txns[i]);
                let k = before.index_of(txns[i].document_id);
                assert(documents[k] == before[k]);
            } else {
                assert(documents[documents.len() - 1] == txns[i].document_id);
            }
        }
    }
}

} // verus!
