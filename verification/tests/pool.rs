use webrender::render_backend_pool::{
    spawn_member, LowPriorityChannel, MemberThread, RenderBackendPool,
};

#[test]
fn pools_have_the_size_asked_for() {
    for size in [0, 1, 5, 16, 17, 20, usize::MAX] {
        assert_eq!(RenderBackendPool::new(size).size(), size);
    }
}

#[test]
fn windows_go_to_the_members_in_turn() {
    let mut pool = RenderBackendPool::new(3);
    let members: Vec<usize> = (0..7).map(|_| pool.assign()).collect();
    assert_eq!(members, vec![0, 1, 2, 0, 1, 2, 0]);
    pool.next = usize::MAX;
    assert_eq!(pool.assign(), usize::MAX % 3);
    assert_eq!(pool.assign(), 0);
}

#[test]
fn threads_are_named_after_their_member() {
    let (threads, channel) = spawn_member(true, "2");
    let names: Vec<&str> = threads.iter().map(|t| t.name.as_str()).collect();
    assert_eq!(names, vec!["WRSceneBuilder#2", "WRSceneBuilderLP#2", "WRRenderBackend#2"]);
    assert_eq!(channel, LowPriorityChannel::Own);

    let (threads, channel) = spawn_member(false, "");
    assert_eq!(threads.len(), 2);
    assert_eq!(threads[0].thread, MemberThread::SceneBuilder);
    assert_eq!(threads[1].name, "WRRenderBackend#");
    assert_eq!(channel, LowPriorityChannel::SceneBuilder);
}
