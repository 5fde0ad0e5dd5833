//! The session registry and the operations on it: which sessions are live,
//! and for each the receiving end of its channel, its liveness flag and the
//! handle by which its worker can be awaited.
//!
//! The registry is an ordinary value. A process that wants one shared
//! registry puts it behind a lock and holds the lock for the length of one
//! call.

use vstd::prelude::*;
use crate::channel::{drain, open_channel, receiver_channel, sender_channel, LivenessFlag};
use crate::config::{SessionConfig, SessionError};
use crate::sampler::{OsContextState, Sample};
use crate::worker::{Cadence, Worker};

verus! {

/// One live session. `J` is the handle by which the worker's thread of
/// execution is awaited.
struct Session<J> {
    id: String,
    alive: LivenessFlag,
    rx: crossbeam_channel::Receiver<Sample>,
    handle: Option<J>,
}

/// The live sessions. No identifier occurs twice.
///
/// The sessions are kept in a vector and found by comparing identifiers:
/// vstd's model of the standard hash map covers integer keys, not strings.
pub struct Registry<J> {
    sessions: Vec<Session<J>>,
}

/// The model of a registry: each live identifier, with the handle of its
/// worker if one is attached and was not yet taken.
pub type Live<J> = Map<Seq<char>, Option<J>>;

spec fn distinct_ids<J>(sessions: Seq<Session<J>>) -> bool {
    forall|i: int, j: int|
        0 <= i < j < sessions.len() ==> (#[trigger] sessions[i]).id@ != (#[trigger] sessions[j]).id@
}

spec fn has_id<J>(sessions: Seq<Session<J>>, id: Seq<char>) -> bool {
    exists|i: int| 0 <= i < sessions.len() && (#[trigger] sessions[i]).id@ == id
}

spec fn index_of<J>(sessions: Seq<Session<J>>, id: Seq<char>) -> int {
    choose|i: int| 0 <= i < sessions.len() && (#[trigger] sessions[i]).id@ == id
}

spec fn as_map<J>(sessions: Seq<Session<J>>) -> Live<J> {
    Map::new(
        |id: Seq<char>| has_id(sessions, id),
        |id: Seq<char>| sessions[index_of(sessions, id)].handle,
    )
}

/// Whether two sessions hold the same receiving end and the same flag.
spec fn same_ends<J>(a: Session<J>, b: Session<J>) -> bool {
    a.rx == b.rx && a.alive == b.alive
}

/// Whether every session that is in both sequences holds in `after` the
/// receiving end and the flag that it holds in `before`.
spec fn ends_kept<J>(before: Seq<Session<J>>, after: Seq<Session<J>>) -> bool {
    forall|id: Seq<char>|
        has_id(before, id) && has_id(after, id) ==> same_ends(
            after[#[trigger] index_of(after, id)],
            before[index_of(before, id)],
        )
}

/// The session at index `i` is found under its identifier, and only there.
proof fn lemma_lookup<J>(sessions: Seq<Session<J>>, i: int)
    requires
        distinct_ids(sessions),
        0 <= i < sessions.len(),
    ensures
        has_id(sessions, sessions[i].id@),
        index_of(sessions, sessions[i].id@) == i,
        as_map(sessions).dom().contains(sessions[i].id@),
        as_map(sessions)[sessions[i].id@] == sessions[i].handle,
{
    let j = index_of(sessions, sessions[i].id@);
    assert(0 <= j < sessions.len() && sessions[j].id@ == sessions[i].id@);
    if j < i {
        assert(sessions[j].id@ != sessions[i].id@);
    } else if i < j {
        assert(sessions[i].id@ != sessions[j].id@);
    }
}

/// Adding a session under a new identifier adds one entry to the model.
proof fn lemma_push<J>(sessions: Seq<Session<J>>, session: Session<J>)
    requires
        distinct_ids(sessions),
        !has_id(sessions, session.id@),
    ensures
        distinct_ids(sessions.push(session)),
        as_map(sessions.push(session)) == as_map(sessions).insert(session.id@, session.handle),
        ends_kept(sessions, sessions.push(session)),
{
    let grown = sessions.push(session);
    assert(distinct_ids(grown)) by {
        assert forall|i: int, j: int| 0 <= i < j < grown.len() implies (#[trigger] grown[i]).id@
            != (#[trigger] grown[j]).id@ by {
            if j == sessions.len() {
                assert(grown[i] == sessions[i]);
                assert(sessions[i].id@ != session.id@);
            } else {
                assert(grown[i] == sessions[i]);
                assert(grown[j] == sessions[j]);
            }
        }
    }
    let expected = as_map(sessions).insert(session.id@, session.handle);
    assert forall|id: Seq<char>| as_map(grown).dom().contains(id) <==> expected.dom().contains(
        id,
    ) by {
        if has_id(grown, id) {
            let i = index_of(grown, id);
            if i < sessions.len() {
                assert(sessions[i].id@ == id);
            }
        }
        if has_id(sessions, id) {
            let i = index_of(sessions, id);
            assert(grown[i].id@ == id);
        }
        if id == session.id@ {
            assert(grown[sessions.len() as int].id@ == id);
        }
    }
    assert forall|id: Seq<char>| as_map(grown).dom().contains(id) implies as_map(grown)[id]
        == expected[id] by {
        let i = index_of(grown, id);
        lemma_lookup(grown, i);
        if i < sessions.len() {
            assert(grown[i] == sessions[i]);
            lemma_lookup(sessions, i);
        }
    }
    assert(as_map(grown) =~= expected);
    assert forall|id: Seq<char>| has_id(sessions, id) && has_id(grown, id) implies same_ends(
        grown[#[trigger] index_of(grown, id)],
        sessions[index_of(sessions, id)],
    ) by {
        let i = index_of(sessions, id);
        assert(grown[i] == sessions[i]);
        lemma_lookup(grown, i);
    }
}

/// Removing the session at index `i` removes its entry from the model.
proof fn lemma_remove<J>(sessions: Seq<Session<J>>, i: int)
    requires
        distinct_ids(sessions),
        0 <= i < sessions.len(),
    ensures
        distinct_ids(sessions.remove(i)),
        !has_id(sessions.remove(i), sessions[i].id@),
        as_map(sessions.remove(i)) == as_map(sessions).remove(sessions[i].id@),
        ends_kept(sessions, sessions.remove(i)),
{
    let rest = sessions.remove(i);
    let gone = sessions[i].id@;
    assert forall|k: int| 0 <= k < rest.len() implies (#[trigger] rest[k]) == sessions[if k < i {
        k
    } else {
        k + 1
    }] by {}
    assert(distinct_ids(rest)) by {
        assert forall|a: int, b: int| 0 <= a < b < rest.len() implies (#[trigger] rest[a]).id@ != (
        #[trigger] rest[b]).id@ by {
            let a0 = if a < i { a } else { a + 1 };
            let b0 = if b < i { b } else { b + 1 };
            assert(rest[a] == sessions[a0]);
            assert(rest[b] == sessions[b0]);
            assert(sessions[a0].id@ != sessions[b0].id@);
        }
    }
    assert(!has_id(rest, gone)) by {
        if has_id(rest, gone) {
            let k = index_of(rest, gone);
            let k0 = if k < i { k } else { k + 1 };
            assert(rest[k] == sessions[k0]);
            lemma_lookup(sessions, k0);
            lemma_lookup(sessions, i);
        }
    }
    let expected = as_map(sessions).remove(gone);
    assert forall|id: Seq<char>| as_map(rest).dom().contains(id) <==> expected.dom().contains(
        id,
    ) by {
        if has_id(rest, id) {
            let k = index_of(rest, id);
            let k0 = if k < i { k } else { k + 1 };
            assert(rest[k] == sessions[k0]);
            assert(sessions[k0].id@ == id);
        }
        if has_id(sessions, id) && id != gone {
            let k0 = index_of(sessions, id);
            let k = if k0 < i { k0 } else { k0 - 1 };
            assert(rest[k] == sessions[k0]);
            assert(rest[k].id@ == id);
        }
    }
    assert forall|id: Seq<char>| as_map(rest).dom().contains(id) implies as_map(rest)[id]
        == expected[id] by {
        let k = index_of(rest, id);
        let k0 = if k < i { k } else { k + 1 };
        assert(rest[k] == sessions[k0]);
        lemma_lookup(rest, k);
        lemma_lookup(sessions, k0);
    }
    assert(as_map(rest) =~= expected);
    assert forall|id: Seq<char>| has_id(sessions, id) && has_id(rest, id) implies same_ends(
        rest[#[trigger] index_of(rest, id)],
        sessions[index_of(sessions, id)],
    ) by {
        let k = index_of(rest, id);
        let k0 = if k < i { k } else { k + 1 };
        assert(rest[k] == sessions[k0]);
        lemma_lookup(sessions, k0);
    }
}

/// Putting the session at index `i` back with another worker handle, at the
/// end of the sequence, changes that one entry of the model and nobody's
/// receiving end or flag.
proof fn lemma_replace<J>(sessions: Seq<Session<J>>, i: int, session: Session<J>)
    requires
        distinct_ids(sessions),
        0 <= i < sessions.len(),
        session.id@ == sessions[i].id@,
        same_ends(session, sessions[i]),
    ensures
        distinct_ids(sessions.remove(i).push(session)),
        as_map(sessions.remove(i).push(session)) == as_map(sessions).insert(
            session.id@,
            session.handle,
        ),
        ends_kept(sessions, sessions.remove(i).push(session)),
{
    let rest = sessions.remove(i);
    let after = rest.push(session);
    lemma_lookup(sessions, i);
    lemma_remove(sessions, i);
    lemma_push(rest, session);
    assert(as_map(sessions).remove(session.id@).insert(session.id@, session.handle) =~= as_map(
        sessions,
    ).insert(session.id@, session.handle));
    assert forall|id: Seq<char>| has_id(sessions, id) && has_id(after, id) implies same_ends(
        after[#[trigger] index_of(after, id)],
        sessions[index_of(sessions, id)],
    ) by {
        if id == session.id@ {
            lemma_lookup(after, rest.len() as int);
        } else {
            assert(as_map(rest).dom().contains(id));
            assert(has_id(rest, id));
            assert(same_ends(rest[index_of(rest, id)], sessions[index_of(sessions, id)]));
            assert(same_ends(after[index_of(after, id)], rest[index_of(rest, id)]));
        }
    }
}

impl<J> View for Registry<J> {
    type V = Live<J>;

    closed spec fn view(&self) -> Live<J> {
        as_map(self.sessions@)
    }
}

impl<J> Registry<J> {
    #[verifier::type_invariant]
    closed spec fn well_formed(&self) -> bool {
        distinct_ids(self.sessions@)
    }

    /// The receiving end of the channel of the live session `id`: the end
    /// that a poll of `id` drains.
    pub closed spec fn receiver(&self, id: Seq<char>) -> crossbeam_channel::Receiver<Sample> {
        self.sessions@[index_of(self.sessions@, id)].rx
    }

    /// The liveness flag of the live session `id`: the flag that a stop
    /// request for `id` clears.
    pub closed spec fn flag(&self, id: Seq<char>) -> LivenessFlag {
        self.sessions@[index_of(self.sessions@, id)].alive
    }

    /// Whether every session that is live in both registries has in `self`
    /// the receiving end and the flag that it has in `before`, and with
    /// them the samples that are buffered for it.
    pub open spec fn keeps_sessions_of(&self, before: &Registry<J>) -> bool {
        forall|id: Seq<char>|
            #![trigger self.receiver(id)]
            #![trigger self.flag(id)]
            before@.dom().contains(id) && self@.dom().contains(id) ==> {
                &&& self.receiver(id) == before.receiver(id)
                &&& self.flag(id) == before.flag(id)
            }
    }

    /// A registry without sessions.
    pub fn new() -> (registry: Registry<J>)
        ensures
            registry@ == Map::<Seq<char>, Option<J>>::empty(),
    {
        let registry = Registry { sessions: Vec::new() };
        assert(registry@ =~= Map::<Seq<char>, Option<J>>::empty());
        registry
    }

    /// Whether a session with this identifier is live.
    pub fn is_live(&self, session_id: &str) -> (live: bool)
        ensures
            live == self@.dom().contains(session_id@),
    {
        let key = session_id.to_owned();
        find(&self.sessions, &key).is_some()
    }
}

/// The index of the session called `key`, if there is one.
fn find<J>(sessions: &Vec<Session<J>>, key: &String) -> (found: Option<usize>)
    ensures
        match found {
            Some(i) => i < sessions@.len() && sessions@[i as int].id@ == key@,
            None => !has_id(sessions@, key@),
        },
{
    let mut i: usize = 0;
    while i < sessions.len()
        invariant
            i <= sessions@.len(),
            forall|k: int| 0 <= k < i ==> (#[trigger] sessions@[k]).id@ != key@,
        decreases sessions@.len() - i,
    {
        if sessions[i].id == *key {
            return Some(i);
        }
        i += 1;
    }
    None
}

/// The registry after a start request for `id`: a session that is live
/// stays as it is, and a new one is registered without a worker handle.
pub open spec fn after_start<J>(live: Live<J>, id: Seq<char>) -> Live<J> {
    if live.dom().contains(id) {
        live
    } else {
        live.insert(id, None)
    }
}

/// The registry after the worker handle `handle` was attached to `id`.
pub open spec fn after_attach<J>(live: Live<J>, id: Seq<char>, handle: J) -> Live<J> {
    if live.dom().contains(id) {
        live.insert(id, Some(handle))
    } else {
        live
    }
}

/// The registry after a stop request for `id`: the session is still
/// registered, and its worker handle has been handed out.
pub open spec fn after_stop<J>(live: Live<J>, id: Seq<char>) -> Live<J> {
    if live.dom().contains(id) {
        live.insert(id, None)
    } else {
        live
    }
}

/// The worker handle that a stop request for `id` hands out.
pub open spec fn stop_handle<J>(live: Live<J>, id: Seq<char>) -> Option<J> {
    if live.dom().contains(id) {
        live[id]
    } else {
        None
    }
}

/// Whether a start request for `id` makes a new worker.
pub open spec fn start_spawns<J>(live: Live<J>, id: Seq<char>) -> bool {
    !live.dom().contains(id)
}

/// Starts a session, unless one with this identifier is live.
///
/// The configuration is examined first, and a malformed one is refused
/// whether or not the session exists. For a new session the function makes
/// the channel and the liveness flag, registers the session and returns the
/// worker, which the caller is to run on a thread of its own and whose
/// handle it then attaches with [`attach_worker`]. For a live session it
/// changes nothing and returns no worker.
pub fn start_session<J>(
    registry: &mut Registry<J>,
    session_id: &str,
    cfg: &SessionConfig,
) -> (started: Result<Option<Worker>, SessionError>)
    ensures
        match cfg.interval() {
            None => {
                &&& started is Err
                &&& started->Err_0 == SessionError::InvalidPollInterval
                &&& final(registry)@ == old(registry)@
            },
            Some(millis) => {
                &&& started is Ok
                &&& started->Ok_0 is Some <==> start_spawns(old(registry)@, session_id@)
                &&& started->Ok_0 matches Some(worker) ==> {
                    &&& worker@ == (Cadence { tick: 0, poll_interval_ms: millis })
                    &&& worker.flag() == final(registry).flag(session_id@)
                    &&& sender_channel(worker.sender()) == receiver_channel(
                        final(registry).receiver(session_id@),
                    )
                }
                &&& final(registry)@ == after_start(old(registry)@, session_id@)
            },
        },
        final(registry).keeps_sessions_of(old(registry)),
{
    let millis = match cfg.resolve() {
        Ok(millis) => millis,
        Err(error) => {
            return Err(error);
        },
    };
    proof {
        use_type_invariant(&*registry);
    }
    let key = session_id.to_owned();
    if find(&registry.sessions, &key).is_some() {
        return Ok(None);
    }
    let (tx, rx) = open_channel();
    let alive = LivenessFlag::new();
    let worker = Worker::new(tx, alive.handle(), millis);
    let session = Session { id: key, alive, rx, handle: None };
    proof {
        lemma_push(registry.sessions@, session);
        lemma_lookup(registry.sessions@.push(session), registry.sessions@.len() as int);
    }
    let mut sessions: Vec<Session<J>> = Vec::new();
    std::mem::swap(&mut sessions, &mut registry.sessions);
    sessions.push(session);
    registry.sessions = sessions;
    Ok(Some(worker))
}

/// Records the handle of the thread that runs the worker of `session_id`.
/// If no such session is live, the handle comes back unused.
pub fn attach_worker<J>(registry: &mut Registry<J>, session_id: &str, handle: J) -> (attached:
    Result<(), J>)
    ensures
        final(registry)@ == after_attach(old(registry)@, session_id@, handle),
        final(registry).keeps_sessions_of(old(registry)),
        attached is Ok <==> old(registry)@.dom().contains(session_id@),
        attached is Err ==> attached->Err_0 == handle,
{
    proof {
        use_type_invariant(&*registry);
    }
    let key = session_id.to_owned();
    match find(&registry.sessions, &key) {
        None => Err(handle),
        Some(i) => {
            let ghost before = registry.sessions@;
            let mut sessions: Vec<Session<J>> = Vec::new();
            std::mem::swap(&mut sessions, &mut registry.sessions);
            let Session { id, alive, rx, handle: _ } = sessions.remove(i);
            let kept = Session { id, alive, rx, handle: Some(handle) };
            proof {
                lemma_replace(before, i as int, kept);
            }
            sessions.push(kept);
            registry.sessions = sessions;
            Ok(())
        },
    }
}

/// Asks the worker of `session_id` to stop and hands out its handle, so that
/// the caller can wait until the worker has exited. The session stays
/// registered until [`retire_session`] removes it. Without such a session
/// nothing happens.
pub fn stop_session<J>(registry: &mut Registry<J>, session_id: &str) -> (handle: Option<J>)
    ensures
        final(registry)@ == after_stop(old(registry)@, session_id@),
        final(registry).keeps_sessions_of(old(registry)),
        handle == stop_handle(old(registry)@, session_id@),
{
    proof {
        use_type_invariant(&*registry);
    }
    let key = session_id.to_owned();
    match find(&registry.sessions, &key) {
        None => None,
        Some(i) => {
            let ghost before = registry.sessions@;
            let mut sessions: Vec<Session<J>> = Vec::new();
            std::mem::swap(&mut sessions, &mut registry.sessions);
            let Session { id, alive, rx, handle } = sessions.remove(i);
            alive.clear();
            let kept = Session { id, alive, rx, handle: None };
            proof {
                lemma_lookup(before, i as int);
                lemma_replace(before, i as int, kept);
            }
            sessions.push(kept);
            registry.sessions = sessions;
            handle
        },
    }
}

/// Removes the session `session_id` from the registry and says whether
/// there was one. This drops the receiving end of its channel, so a worker
/// that is still running finds the channel closed at its next send.
pub fn retire_session<J>(registry: &mut Registry<J>, session_id: &str) -> (removed: bool)
    ensures
        final(registry)@ == old(registry)@.remove(session_id@),
        final(registry).keeps_sessions_of(old(registry)),
        removed == old(registry)@.dom().contains(session_id@),
{
    proof {
        use_type_invariant(&*registry);
    }
    let key = session_id.to_owned();
    match find(&registry.sessions, &key) {
        None => {
            assert(registry@.remove(session_id@) =~= registry@);
            false
        },
        Some(i) => {
            let ghost before = registry.sessions@;
            let mut sessions: Vec<Session<J>> = Vec::new();
            std::mem::swap(&mut sessions, &mut registry.sessions);
            proof {
                lemma_lookup(before, i as int);
                lemma_remove(before, i as int);
            }
            let _ = sessions.remove(i);
            registry.sessions = sessions;
            true
        },
    }
}

/// Takes every sample that the session's worker has buffered so far, oldest
/// first, without waiting: it drains the session's receiving end. A session
/// that is not live has none. Which samples a live session has buffered
/// depends on how far its worker has come; whichever they are, each is well
/// formed: it names a moment, an application and a window.
pub fn poll_state<J>(registry: &Registry<J>, session_id: &str) -> (samples: Vec<OsContextState>)
    ensures
        !registry@.dom().contains(session_id@) ==> samples@.len() == 0,
        forall|i: int| 0 <= i < samples@.len() ==> (#[trigger] samples@[i])@.well_formed(),
{
    let key = session_id.to_owned();
    match find(&registry.sessions, &key) {
        None => Vec::new(),
        Some(i) => open_all(drain(&registry.sessions[i].rx)),
    }
}

/// Takes the records out of `sealed`, in order.
fn open_all(sealed: Vec<Sample>) -> (samples: Vec<OsContextState>)
    ensures
        samples@.len() == sealed@.len(),
        forall|i: int| 0 <= i < samples@.len() ==> (#[trigger] samples@[i])@ == sealed@[i]@,
        forall|i: int| 0 <= i < samples@.len() ==> (#[trigger] samples@[i])@.well_formed(),
{
    let mut samples: Vec<OsContextState> = Vec::new();
    for sample in iter: sealed
        invariant
            samples@.len() == iter.index(),
            forall|i: int| 0 <= i < samples@.len() ==> (#[trigger] samples@[i])@ == iter.seq()[i]@,
            forall|i: int| 0 <= i < samples@.len() ==> (#[trigger] samples@[i])@.well_formed(),
    {
        samples.push(sample.open());
    }
    samples
}

/// Starting is idempotent: after one start request the session is live, and
/// a second request without a stop in between makes no worker and leaves
/// the registry as it is. So a session never has more than one worker.
pub proof fn lemma_start_is_idempotent<J>(live: Live<J>, id: Seq<char>)
    ensures
        after_start(live, id).dom().contains(id),
        !start_spawns(after_start(live, id), id),
        after_start(after_start(live, id), id) == after_start(live, id),
{
}

/// A session that is not live can be stopped, retired and polled without
/// effect: the registry stays as it is and no handle comes out.
pub proof fn lemma_unknown_session_is_untouched<J>(live: Live<J>, id: Seq<char>)
    requires
        !live.dom().contains(id),
    ensures
        after_stop(live, id) == live,
        stop_handle(live, id) == None::<J>,
        live.remove(id) == live,
{
    assert(live.remove(id) =~= live);
}

/// Once a session was stopped and retired it is not live, whatever state it
/// was in, and it stays so under every operation on another session: only a
/// start request for the same identifier brings it back.
pub proof fn lemma_stopped_session_stays_gone<J>(
    live: Live<J>,
    id: Seq<char>,
    other: Seq<char>,
    handle: J,
)
    requires
        other != id,
    ensures
        !after_stop(live, id).remove(id).dom().contains(id),
        ({
            let gone = after_stop(live, id).remove(id);
            &&& !after_start(gone, other).dom().contains(id)
            &&& !after_attach(gone, other, handle).dom().contains(id)
            &&& !after_attach(gone, id, handle).dom().contains(id)
            &&& !after_stop(gone, other).dom().contains(id)
            &&& !after_stop(gone, id).dom().contains(id)
            &&& !gone.remove(other).dom().contains(id)
        }),
{
}

/// Operations on one session leave every other session as it was: its
/// presence and its worker handle do not change.
pub proof fn lemma_sessions_are_independent<J>(
    live: Live<J>,
    id: Seq<char>,
    other: Seq<char>,
    handle: J,
)
    requires
        other != id,
    ensures
        after_start(live, id).dom().contains(other) == live.dom().contains(other),
        after_attach(live, id, handle).dom().contains(other) == live.dom().contains(other),
        after_stop(live, id).dom().contains(other) == live.dom().contains(other),
        live.remove(id).dom().contains(other) == live.dom().contains(other),
        live.dom().contains(other) ==> {
            &&& after_start(live, id)[other] == live[other]
            &&& after_attach(live, id, handle)[other] == live[other]
            &&& after_stop(live, id)[other] == live[other]
            &&& live.remove(id)[other] == live[other]
        },
{
}

} // verus!
