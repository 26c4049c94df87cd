//! The live-synchronization engine: one rendered artifact, a version counter,
//! and a set of subscriptions with bounded, coalescing mailboxes.
//!
//! The engine is a sequential model of the concurrent protocol: updates are
//! totally ordered (single-writer discipline), a change signal is recorded in
//! every open subscription's mailbox atomically with the update that caused
//! it, and a subscription that polls a signal and then fetches is guaranteed
//! an artifact at least as new as the one current when the signal was
//! published.

use vstd::prelude::*;

verus! {

/// The single rendered document held in memory: the HTML text and the
/// display name of its source. It is replaced whole on every re-render,
/// never mutated in place.
pub struct Artifact {
    pub html: String,
    pub source_name: String,
}

/// How many change signals one subscription's mailbox can hold before
/// further signals coalesce. A signal is a pure "go re-fetch" hint, so
/// coalescing loses nothing: any fetch returns the latest artifact.
pub const MAILBOX_CAP: u64 = 100;

/// One viewer's registration for change signals.
///
/// `pending` counts queued signals, never exceeding `MAILBOX_CAP`;
/// `last_version` is the engine version current when the newest queued
/// signal was published.
pub struct SubState {
    pub open: bool,
    pub pending: u64,
    pub last_version: u64,
}

/// The engine state: the current artifact, the total order of updates
/// (as a version counter), and all subscriptions ever registered
/// (closed ones stay as tombstones so indices remain stable).
pub struct SyncState {
    pub artifact: Artifact,
    pub version: u64,
    pub subs: Vec<SubState>,
}

impl SyncState {
    /// Well-formedness: every mailbox is bounded, and a queued signal never
    /// describes a version newer than the engine's current one — the ground
    /// for causal delivery.
    pub open spec fn wf(self) -> bool {
        forall|i: int|
            0 <= i < self.subs.len() ==> {
                &&& (#[trigger] self.subs[i]).pending <= MAILBOX_CAP
                &&& (self.subs[i].pending > 0 ==> 1 <= self.subs[i].last_version
                    <= self.version)
            }
    }

    /// A fresh engine holding the initial artifact, with no updates yet and
    /// no subscribers.
    pub fn new(artifact: Artifact) -> (s: SyncState)
        ensures
            s.wf(),
            s.artifact == artifact,
            s.version == 0,
            s.subs@.len() == 0,
    {
        SyncState { artifact, version: 0, subs: Vec::new() }
    }

    /// Shared read access: hands back the current artifact, whole. A reader
    /// observes exactly the artifact committed by the most recent update —
    /// never a partially written one.
    pub fn read_artifact(&self) -> (a: &Artifact)
        ensures
            a == &self.artifact,
    {
        &self.artifact
    }

    /// Registers a new subscription with an empty mailbox and returns its
    /// handle. No other subscription and neither the artifact nor the
    /// version is touched.
    pub fn subscribe(&mut self) -> (id: usize)
        requires
            old(self).wf(),
        ensures
            final(self).wf(),
            id == old(self).subs@.len(),
            final(self).subs@ == old(self).subs@.push(
                SubState { open: true, pending: 0, last_version: 0 },
            ),
            final(self).artifact == old(self).artifact,
            final(self).version == old(self).version,
    {
        let id = self.subs.len();
        self.subs.push(SubState { open: true, pending: 0, last_version: 0 });
        id
    }

    /// Commits a new rendered artifact and, atomically with the commit,
    /// publishes one change signal to every open subscription. The signal is
    /// thus only ever observable after the artifact it describes is fully in
    /// place. Publishing touches each mailbox independently, by
    /// `publish_one`: it never waits on any subscription, and a full mailbox
    /// coalesces instead of growing.
    pub fn update_and_publish(&mut self, html: String)
        requires
            old(self).wf(),
            old(self).version < u64::MAX,
        ensures
            final(self).wf(),
            update_rel(*old(self), *final(self), html@),
    {
        self.artifact.html = html;
        self.version = self.version + 1;
        let mut i: usize = 0;
        while i < self.subs.len()
            invariant
                i <= self.subs.len(),
                self.subs@.len() == old(self).subs@.len(),
                self.artifact.html == html,
                self.artifact.source_name == old(self).artifact.source_name,
                self.version == old(self).version + 1,
                forall|j: int|
                    0 <= j < i ==> self.subs@[j] == publish_one(
                        old(self).subs@[j],
                        (old(self).version + 1) as u64,
                    ),
                forall|j: int| i <= j < self.subs@.len() ==> self.subs@[j] == old(self).subs@[j],
            decreases self.subs@.len() - i,
        {
            let s = &self.subs[i];
            if s.open {
                let p = s.pending;
                let new_pending = if p < MAILBOX_CAP {
                    p + 1
                } else {
                    MAILBOX_CAP
                };
                let v = self.version;
                self.subs[i] = SubState { open: true, pending: new_pending, last_version: v };
            }
            i = i + 1;
        }
    }

    /// Takes one queued change signal from subscription `id`, if any.
    /// `Some(v)` means: a signal is delivered, and the newest signal this
    /// mailbox saw was published when the engine's version was `v` — which
    /// is never newer than the version current now, so a fetch made after
    /// the poll returns content at least as new as what the signal
    /// described. Nothing else in the engine is touched.
    pub fn poll(&mut self, id: usize) -> (r: Option<u64>)
        requires
            old(self).wf(),
            id < old(self).subs@.len(),
        ensures
            final(self).wf(),
            final(self).artifact == old(self).artifact,
            final(self).version == old(self).version,
            final(self).subs@.len() == old(self).subs@.len(),
            forall|j: int|
                0 <= j < old(self).subs@.len() && j != id ==> final(self).subs@[j] == old(
                    self,
                ).subs@[j],
            r is Some <==> (old(self).subs@[id as int].open && old(
                self,
            ).subs@[id as int].pending > 0),
            r matches Some(v) ==> {
                &&& v == old(self).subs@[id as int].last_version
                &&& v <= final(self).version
                &&& final(self).subs@[id as int] == (SubState {
                    open: true,
                    pending: (old(self).subs@[id as int].pending - 1) as u64,
                    last_version: old(self).subs@[id as int].last_version,
                })
            },
            r is None ==> final(self).subs@[id as int] == old(self).subs@[id as int],
    {
        let s = &self.subs[id];
        if s.open && s.pending > 0 {
            let v = s.last_version;
            let p = s.pending;
            self.subs[id] = SubState { open: true, pending: p - 1, last_version: v };
            Some(v)
        } else {
            None
        }
    }

    /// Releases subscription `id`: its mailbox is emptied and it receives no
    /// further signals. Every other subscription, the artifact and the
    /// version are left exactly as they were — closing one viewer is
    /// invisible to all the rest.
    pub fn close(&mut self, id: usize)
        requires
            old(self).wf(),
            id < old(self).subs@.len(),
        ensures
            final(self).wf(),
            close_rel(*old(self), *final(self), id as int),
    {
        self.subs[id] = SubState { open: false, pending: 0, last_version: 0 };
    }
}

/// The effect of one published signal on one subscription's mailbox, at new
/// engine version `v`: an open mailbox gains the signal, coalescing when
/// already full; a closed one is left alone. The effect depends on that
/// subscription's own state only.
pub open spec fn publish_one(s: SubState, v: u64) -> SubState {
    if s.open {
        SubState {
            open: true,
            pending: if s.pending < MAILBOX_CAP {
                (s.pending + 1) as u64
            } else {
                MAILBOX_CAP
            },
            last_version: v,
        }
    } else {
        s
    }
}

/// How `close(id)` relates the engine state before and after: subscription
/// `id` becomes a tombstone; everything else is untouched.
pub open spec fn close_rel(pre: SyncState, post: SyncState, id: int) -> bool {
    &&& post.artifact == pre.artifact
    &&& post.version == pre.version
    &&& post.subs.len() == pre.subs.len()
    &&& post.subs[id] == (SubState { open: false, pending: 0, last_version: 0 })
    &&& forall|j: int| 0 <= j < pre.subs.len() && j != id ==> post.subs[j] == pre.subs[j]
}

/// How `update_and_publish(html)` relates the engine state before and
/// after: the artifact is replaced whole, the version advances by one, and
/// each subscription's mailbox changes by `publish_one` of its own prior
/// state alone.
pub open spec fn update_rel(pre: SyncState, post: SyncState, html: Seq<char>) -> bool {
    &&& post.artifact.html@ == html
    &&& post.artifact.source_name == pre.artifact.source_name
    &&& post.version == pre.version + 1
    &&& post.subs.len() == pre.subs.len()
    &&& forall|i: int|
        0 <= i < pre.subs.len() ==> post.subs[i] == publish_one(
            pre.subs[i],
            (pre.version + 1) as u64,
        )
}

/// Causal delivery: whenever a subscription holds a queued change signal,
/// the version that signal described is no newer than the engine's current
/// version — so a viewer that reacts to the signal by fetching receives an
/// artifact at least as new (in update order) as the one current at
/// signal-emission time.
pub proof fn lemma_causal_delivery(s: SyncState, id: int)
    requires
        s.wf(),
        0 <= id < s.subs.len(),
        s.subs[id].pending > 0,
    ensures
        s.subs[id].last_version <= s.version,
{
}

/// No starvation from slow consumers: the effect of a publish on one
/// subscription is a total function of that subscription's own state — a
/// slow, full or closed mailbox changes nothing for anyone else, an open
/// mailbox always receives the signal (coalesced if full), and no mailbox
/// ever grows past its bound.
pub proof fn lemma_publish_no_starvation(s: SubState, v: u64)
    requires
        s.pending <= MAILBOX_CAP,
    ensures
        publish_one(s, v).pending <= MAILBOX_CAP,
        s.open ==> publish_one(s, v).pending >= 1 && publish_one(s, v).last_version == v,
        !s.open ==> publish_one(s, v) == s,
{
}

/// However many intermediate signals a slow subscription missed to
/// coalescing, the newest signal in its mailbox always describes the
/// latest committed artifact: right after any update, every open
/// subscription's `last_version` is the new current version, whose
/// artifact is exactly the update's payload.
pub proof fn lemma_slow_subscriber_sees_latest(
    pre: SyncState,
    post: SyncState,
    html: Seq<char>,
    i: int,
)
    requires
        update_rel(pre, post, html),
        0 <= i < pre.subs.len(),
        pre.subs[i].open,
    ensures
        post.subs[i].last_version == post.version,
        post.subs[i].pending >= 1,
        post.artifact.html@ == html,
{
}

/// Isolation: closing subscription `a` while subscription `b` is live
/// neither changes `b`'s mailbox nor prevents the next published signal
/// from reaching `b`.
pub proof fn lemma_isolation(
    s0: SyncState,
    s1: SyncState,
    s2: SyncState,
    a: int,
    b: int,
    html: Seq<char>,
)
    requires
        0 <= a < s0.subs.len(),
        0 <= b < s0.subs.len(),
        a != b,
        s0.subs[b].open,
        close_rel(s0, s1, a),
        update_rel(s1, s2, html),
    ensures
        s1.subs[b] == s0.subs[b],
        s2.subs[b].open,
        s2.subs[b].pending >= 1,
        s2.subs[b].last_version == s1.version + 1,
{
}

/// One step of an interleaving on the shared render cache: a concurrent
/// reader takes its turn, or the single writer commits a new artifact.
pub enum CacheOp {
    Read,
    Update(String),
}

/// The payload an update op commits, if it is one.
pub open spec fn update_payload(op: CacheOp) -> Option<Seq<char>> {
    match op {
        CacheOp::Update(h) => Some(h@),
        CacheOp::Read => None,
    }
}

/// The cache content a reader observes after the first `k` steps of an
/// interleaving: exactly the payload of the latest earlier update, or the
/// initial content when no update has happened yet.
pub open spec fn content_after(init: Seq<char>, ops: Seq<CacheOp>, k: int) -> Seq<char>
    decreases k,
{
    if k <= 0 {
        init
    } else {
        match ops[k - 1] {
            CacheOp::Update(h) => h@,
            CacheOp::Read => content_after(init, ops, k - 1),
        }
    }
}

/// Atomicity: in every interleaving of concurrent readers and the single
/// writer, each read observes either the initial artifact or the complete
/// payload of some earlier update — never a mixture of two artifacts.
pub proof fn lemma_reads_atomic(init: Seq<char>, ops: Seq<CacheOp>, k: int)
    requires
        0 <= k <= ops.len(),
    ensures
        content_after(init, ops, k) == init || (exists|j: int|
            0 <= j < k && #[trigger] update_payload(ops[j]) == Some(content_after(init, ops, k))),
    decreases k,
{
    if k > 0 {
        match ops[k - 1] {
            CacheOp::Update(h) => {
                assert(update_payload(ops[k - 1]) == Some(content_after(init, ops, k)));
            },
            CacheOp::Read => {
                lemma_reads_atomic(init, ops, k - 1);
            },
        }
    }
}

} // verus!
