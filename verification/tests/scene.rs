use webrender::scene::{
    document_name, DisplayListId, DocumentId, Epoch, ListDetails, PipelineId, Scene,
};
use webrender::table::Table;

fn document(namespace_id: u32, id: u32) -> DocumentId {
    DocumentId { namespace_id, id }
}

#[test]
fn removing_the_root_leaves_none() {
    let p = PipelineId(1, 2);
    let q = PipelineId(1, 3);
    let mut scene = Scene::new();
    assert!(!scene.has_root_pipeline());
    scene.set_root_pipeline_id(p);
    assert!(!scene.has_root_pipeline());
    scene.set_display_list(p, Epoch(4), DisplayListId(9), ListDetails::Namespace(1));
    scene.set_display_list(q, Epoch(5), DisplayListId(10), ListDetails::Namespace(1));
    assert!(scene.has_root_pipeline());
    scene.remove_pipeline(q);
    assert!(scene.has_root_pipeline());
    assert!(scene.pipeline_epochs.get(&q).is_none());
    scene.remove_pipeline(p);
    assert_eq!(scene.root_pipeline_id, None);
    assert!(!scene.has_root_pipeline());
}

#[test]
fn names_of_documents_differ() {
    assert_eq!(document_name("scene-", document(1, 23)), "scene-1-23");
    assert_eq!(document_name("scene-", document(12, 3)), "scene-12-3");
}

#[test]
fn tables_keep_the_order_of_their_keys() {
    let mut table: Table<PipelineId, u32> = Table::new();
    let a = PipelineId(0, 1);
    let b = PipelineId(0, 2);
    let c = PipelineId(0, 3);
    table.insert(a, 10);
    table.insert(b, 20);
    table.insert(c, 30);
    table.insert(a, 11);
    assert_eq!(table.keys, vec![a, b, c]);
    assert_eq!(table.get(&a), Some(&11));
    if let Some(value) = table.get_mut(&c) {
        *value = 31;
    }
    assert_eq!(table.remove(&b), Some(20));
    assert_eq!(table.remove(&b), None);
    assert_eq!(table.keys, vec![a, c]);
    assert_eq!(table.values, vec![11, 31]);
    assert!(table.contains(&c));
    assert!(!table.contains(&b));
}
