//! A pool of backends. Each member has a backend thread, a scene builder thread and, where
//! that is wanted, a scene builder thread of low priority. Windows are assigned to the
//! members in turn.

use vstd::prelude::*;

verus! {

/// The threads of a member.
#[derive(Clone, Copy, Debug, PartialEq, Eq, Structural)]
pub enum MemberThread {
    SceneBuilder,
    LowPrioritySceneBuilder,
    RenderBackend,
}

/// Where requests of low priority go.
#[derive(Clone, Copy, Debug, PartialEq, Eq, Structural)]
pub enum LowPriorityChannel {
    /// To a thread of their own, which passes them on.
    Own,
    /// To the scene builder at once.
    SceneBuilder,
}

/// A thread to start, with its name.
pub struct ThreadStart {
    pub thread: MemberThread,
    pub name: String,
}

/// The name of a thread, with the suffix of its member.
pub open spec fn thread_text(thread: MemberThread, suffix: Seq<char>) -> Seq<char> {
    match thread {
        MemberThread::SceneBuilder => "WRSceneBuilder#"@ + suffix,
        MemberThread::LowPrioritySceneBuilder => "WRSceneBuilderLP#"@ + suffix,
        MemberThread::RenderBackend => "WRRenderBackend#"@ + suffix,
    }
}

/// The thread is to be started, with its name.
pub open spec fn starts(start: ThreadStart, thread: MemberThread, suffix: Seq<char>) -> bool {
    start.thread == thread && start.name@ == thread_text(thread, suffix)
}

fn start(thread: MemberThread, suffix: &str) -> (r: ThreadStart)
    ensures
        starts(r, thread, suffix@),
{
    let prefix = match thread {
        MemberThread::SceneBuilder => "WRSceneBuilder#",
        MemberThread::LowPrioritySceneBuilder => "WRSceneBuilderLP#",
        MemberThread::RenderBackend => "WRRenderBackend#",
    };
    let mut name = String::new();
    name.append(prefix);
    name.append(suffix);
    assert(name@ =~= thread_text(thread, suffix@));
    ThreadStart { thread, name }
}

/// The threads of a member in the order in which they are started, and where its requests
/// of low priority go.
pub fn spawn_member(support_low_priority_transactions: bool, suffix: &str) -> (r: (
    Vec<ThreadStart>,
    LowPriorityChannel,
))
    ensures
        support_low_priority_transactions ==> {
            &&& r.1 is Own
            &&& r.0@.len() == 3
            &&& starts(r.0@[0], MemberThread::SceneBuilder, suffix@)
            &&& starts(r.0@[1], MemberThread::LowPrioritySceneBuilder, suffix@)
            &&& starts(r.0@[2], MemberThread::RenderBackend, suffix@)
        },
        !support_low_priority_transactions ==> {
            &&& r.1 is SceneBuilder
            &&& r.0@.len() == 2
            &&& starts(r.0@[0], MemberThread::SceneBuilder, suffix@)
            &&& starts(r.0@[1], MemberThread::RenderBackend, suffix@)
        },
{
    let mut threads: Vec<ThreadStart> = Vec::new();
    threads.push(start(MemberThread::SceneBuilder, suffix));
    let channel = if support_low_priority_transactions {
        threads.push(start(MemberThread::LowPrioritySceneBuilder, suffix));
        LowPriorityChannel::Own
    } else {
        LowPriorityChannel::SceneBuilder
    };
    threads.push(start(MemberThread::RenderBackend, suffix));
    (threads, channel)
}

/// Whose turn it is to get a window.
pub struct RenderBackendPool {
    pub members: usize,
    pub next: usize,
}

/// The member that gets the window with a number.
pub open spec fn member_for(number: int, members: usize) -> int {
    number % (members as int)
}

impl RenderBackendPool {
    /// There is a member.
    pub open spec fn has_members(self) -> bool {
        self.members > 0
    }

    /// A pool with as many members as asked for. The first window goes to the first member.
    pub fn new(size: usize) -> (r: Self)
        ensures
            r.members == size,
            r.next == 0,
    {
        RenderBackendPool { members: size, next: 0 }
    }

    /// The number of members.
    pub fn size(&self) -> (r: usize)
        ensures
            r == self.members,
    {
        self.members
    }

    /// The member that gets the next window.
    pub fn assign(&mut self) -> (r: usize)
        requires
            old(self).has_members(),
        ensures
            final(self).members == old(self).members,
            r < old(self).members,
            r == member_for(old(self).next as int, old(self).members),
            final(self).next == (if old(self).next == usize::MAX {
                0
            } else {
                (old(self).next + 1) as usize
            }),
    {
        let i: usize = self.next % self.members;
        self.next = self.next.wrapping_add(1);
        i
    }
}

/// Of as many windows in a row as there are members, each member gets exactly one.
pub proof fn windows_are_shared_out(members: usize, first: int, member: int)
    requires
        1 <= members,
        0 <= first,
        0 <= member < members,
    ensures
        exists|k: int| 0 <= k < members && #[trigger] member_for(first + k, members) == member,
        forall|j: int, k: int|
            0 <= j < members && 0 <= k < members && j != k ==> #[trigger] member_for(
                first + j,
                members,
            ) != #[trigger] member_for(first + k, members),
{
    let n = members as int;
    let at = first % n;
    let k = if member >= at {
        member - at
    } else {
        member - at + n
    };
    lemma_member(first, k, n);
    assert(member_for(first + k, members) == member);
    assert forall|j: int, k: int| 0 <= j < members && 0 <= k < members && j != k implies
    #[trigger] member_for(first + j, members) != #[trigger] member_for(first + k, members) by {
        lemma_member(first, j, n);
        lemma_member(first, k, n);
    }
}

proof fn lemma_member(first: int, k: int, n: int)
    requires
        0 <= first,
        0 <= k < n,
    ensures
        (first + k) % n == (if first % n + k < n {
            first % n + k
        } else {
            first % n + k - n
        }),
{
    let q = first / n;
    let at = first % n;
    vstd::arithmetic::div_mod::lemma_fundamental_div_mod(first, n);
    if at + k < n {
        vstd::arithmetic::div_mod::lemma_fundamental_div_mod_converse(first + k, n, q, at + k);
    } else {
        assert((q + 1) * n == q * n + n) by (nonlinear_arith);
        assert(n * q == q * n) by (nonlinear_arith);
        vstd::arithmetic::div_mod::lemma_fundamental_div_mod_converse(
            first + k,
            n,
            q + 1,
            at + k - n,
        );
    }
}

} // verus!
