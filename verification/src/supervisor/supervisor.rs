//! The supervisor's books: the ids it has given out and the join handles of the
//! threads that run under them.

use crate::supervisor::runner::Runner;
use std::collections::HashMap;
use vstd::prelude::*;

verus! {

broadcast use vstd::std_specs::hash::group_hash_axioms;

/// What starting an actor's thread gives: the sender of its channel and the
/// handle to join the thread by.
pub struct ActorHandle<S, H> {
    pub sender: S,
    pub join_handle: H,
}

/// What starting a message source's thread gives: the handle to join the thread
/// by.
pub struct MessageSourceHandle<H> {
    pub join_handle: H,
}

/// How one wake-up of the supervisor ends. The whole runs while the supervisor
/// waits; it drains once a thread has ended and is being joined; with the
/// supervisor's return it is over.
pub enum Supervision<H> {
    /// The wake-up brought no id: the supervisor waits on.
    Waiting,
    /// The thread with `actor_id` has ended. Its join handle, where it was in
    /// the books, is to be joined, and the supervisor returns.
    Finished { actor_id: u32, join_handle: Option<H> },
}

/// The books and the ids taken note of after a run of wake-ups: the supervisor
/// goes through the wake-ups in order and returns at the first that brings an
/// id, the later ones unseen.
pub open spec fn supervised<H>(handles: Map<u32, H>, wakeups: Seq<Option<u32>>) -> (
    Map<u32, H>,
    Seq<u32>,
)
    decreases wakeups.len(),
{
    if wakeups.len() == 0 {
        (handles, Seq::empty())
    } else {
        match wakeups.first() {
            Some(actor_id) => (handles.remove(actor_id), seq![actor_id]),
            None => supervised(handles, wakeups.drop_first()),
        }
    }
}

/// A run of wake-ups is one call of `supervise` for the first of them and, where
/// that one brought no id, the run of the others on the same books.
pub proof fn lemma_supervised_by_steps<H>(
    handles: Map<u32, H>,
    first: Option<u32>,
    others: Seq<Option<u32>>,
)
    ensures
        supervised(handles, seq![first] + others) == if first is Some {
            supervised(handles, seq![first])
        } else {
            supervised(supervised(handles, seq![first]).0, others)
        },
{
    reveal_with_fuel(supervised, 2);
    assert((seq![first] + others).drop_first() =~= others);
    assert(seq![first].drop_first() =~= Seq::<Option<u32>>::empty());
}

/// Whatever the wake-ups, the supervisor takes note of at most one thread that
/// ended: of exactly one where a wake-up brings an id, and then of the first
/// such id. The join handle of that thread leaves the books, and is the only
/// one that does. So of the threads that were started, one is joined; the
/// others are joined too only where there are none.
pub proof fn lemma_supervise_observes_one_completion<H>(
    handles: Map<u32, H>,
    wakeups: Seq<Option<u32>>,
)
    ensures
        supervised(handles, wakeups).1.len() <= 1,
        supervised(handles, wakeups).1.len() == 1 <==> exists|i: int|
            0 <= i < wakeups.len() && wakeups[i] is Some,
        supervised(handles, wakeups).1.len() == 1 ==> {
            let actor_id = supervised(handles, wakeups).1[0];
            &&& exists|i: int|
                0 <= i < wakeups.len() && wakeups[i] == Some(actor_id) && forall|j: int|
                    0 <= j < i ==> wakeups[j] is None
            &&& supervised(handles, wakeups).0 == handles.remove(actor_id)
        },
        supervised(handles, wakeups).1.len() == 0 ==> supervised(handles, wakeups).0 == handles,
    decreases wakeups.len(),
{
    if wakeups.len() > 0 {
        match wakeups.first() {
            Some(actor_id) => {
                assert(wakeups[0] == Some(actor_id));
            },
            None => {
                let rest = wakeups.drop_first();
                lemma_supervise_observes_one_completion(handles, rest);
                assert forall|i: int| 0 <= i < rest.len() implies rest[i] == wakeups[i + 1] by {}
                if exists|i: int| 0 <= i < wakeups.len() && wakeups[i] is Some {
                    let i = choose|i: int| 0 <= i < wakeups.len() && wakeups[i] is Some;
                    assert(rest[i - 1] is Some);
                }
                if supervised(handles, wakeups).1.len() == 1 {
                    let actor_id = supervised(handles, rest).1[0];
                    let i = choose|i: int|
                        0 <= i < rest.len() && rest[i] == Some(actor_id) && forall|j: int|
                            0 <= j < i ==> rest[j] is None;
                    assert(wakeups[i + 1] == Some(actor_id));
                    assert forall|j: int| 0 <= j < i + 1 implies wakeups[j] is None by {
                        if j > 0 {
                            assert(rest[j - 1] is None);
                        }
                    }
                }
            },
        }
    }
}

/// The completion that the supervisor takes note of hands out one join handle:
/// of the threads in the books, that one leaves them and every other stays,
/// unjoined. So every thread that was started has been joined when the
/// supervisor returns only where one thread was started; where there were more,
/// the others are left to the end of the process.
pub proof fn lemma_supervise_joins_one_thread<H>(handles: Map<u32, H>, wakeups: Seq<Option<u32>>)
    requires
        handles.dom().finite(),
        supervised(handles, wakeups).1.len() == 1,
        handles.contains_key(supervised(handles, wakeups).1[0]),
    ensures
        supervised(handles, wakeups).0.dom() == handles.dom().remove(
            supervised(handles, wakeups).1[0],
        ),
        supervised(handles, wakeups).0.dom().len() == handles.dom().len() - 1,
        handles.dom().len() == 1 <==> supervised(handles, wakeups).0 == Map::<u32, H>::empty(),
        forall|actor_id: u32|
            actor_id != supervised(handles, wakeups).1[0] && handles.contains_key(actor_id)
                ==> supervised(handles, wakeups).0.contains_key(actor_id) && supervised(
                handles,
                wakeups,
            ).0[actor_id] == handles[actor_id],
{
    lemma_supervise_observes_one_completion(handles, wakeups);
    let left = supervised(handles, wakeups).0;
    if handles.dom().len() == 1 {
        assert(left.dom().len() == 0);
        assert(left.dom() =~= Set::<u32>::empty());
        assert(left =~= Map::<u32, H>::empty());
    }
}

/// What the supervisor keeps of the threads it started. `H` is the type of a
/// thread's join handle.
pub struct Supervisor<H> {
    next_actor_id: u32,
    handles: HashMap<u32, H>,
}

impl<H> Supervisor<H> {
    /// The id that the next thread gets. Every id below it has been given out.
    pub closed spec fn next_actor_id(self) -> u32 {
        self.next_actor_id
    }

    /// The join handles of the threads that were started and have not been
    /// handed out for joining, by id.
    pub closed spec fn handles(self) -> Map<u32, H> {
        self.handles@
    }

    /// Every thread in the books runs under an id that has been given out.
    pub open spec fn wf(self) -> bool {
        forall|actor_id: u32| #[trigger]
            self.handles().contains_key(actor_id) ==> actor_id < self.next_actor_id()
    }

    pub fn new() -> (supervisor: Self)
        ensures
            supervisor.wf(),
            supervisor.next_actor_id() == 0,
            supervisor.handles() == Map::<u32, H>::empty(),
    {
        Self { next_actor_id: 0, handles: HashMap::new() }
    }

    /// Whether an id is left to give out.
    pub fn has_next_actor_id(&self) -> (left: bool)
        ensures
            left == (self.next_actor_id() < u32::MAX),
    {
        self.next_actor_id < u32::MAX
    }

    /// Gives out a fresh id: the ids count up from 0.
    pub fn get_next_actor_id(&mut self) -> (actor_id: u32)
        requires
            old(self).next_actor_id() < u32::MAX,
        ensures
            actor_id == old(self).next_actor_id(),
            final(self).next_actor_id() == actor_id + 1,
            final(self).handles() == old(self).handles(),
            old(self).wf() ==> final(self).wf(),
    {
        let thread_id: u32 = self.next_actor_id;
        self.next_actor_id += 1;
        thread_id
    }

    /// Starts an actor. `spawn` starts the actor's thread around the runner it
    /// is given, which carries a fresh id. Where it succeeds, the thread's join
    /// handle is booked under that id and the sender of the actor's channel is
    /// handed back. Where it fails, its error is handed back and nothing is
    /// booked; the id is spent all the same.
    pub fn start<S, E, F>(&mut self, spawn: F) -> (started: Result<S, E>) where
        F: FnOnce(Runner) -> Result<ActorHandle<S, H>, E>,

        requires
            old(self).wf(),
            old(self).next_actor_id() < u32::MAX,
            call_requires(spawn, (Runner::with_id(old(self).next_actor_id()),)),
        ensures
            final(self).wf(),
            final(self).next_actor_id() == old(self).next_actor_id() + 1,
            !old(self).handles().contains_key(old(self).next_actor_id()),
            match started {
                Ok(sender) => exists|handle: ActorHandle<S, H>|
                    {
                        &&& call_ensures(
                            spawn,
                            (Runner::with_id(old(self).next_actor_id()),),
                            Ok(handle),
                        )
                        &&& sender == handle.sender
                        &&& final(self).handles() == old(self).handles().insert(
                            old(self).next_actor_id(),
                            handle.join_handle,
                        )
                    },
                Err(err) => call_ensures(
                    spawn,
                    (Runner::with_id(old(self).next_actor_id()),),
                    Err(err),
                ) && final(self).handles() == old(self).handles(),
            },
    {
        let actor_id = self.get_next_actor_id();
        let runner = Runner::new(actor_id);
        let handle = match spawn(runner) {
            Ok(handle) => handle,
            Err(err) => {
                return Err(err);
            },
        };
        self.handles.insert(actor_id, handle.join_handle);
        Ok(handle.sender)
    }

    /// Starts a message source. `spawn` starts the source's thread around the
    /// runner it is given, which carries a fresh id. Where it succeeds, the
    /// thread's join handle is booked under that id. Where it fails, its error
    /// is handed back and nothing is booked; the id is spent all the same.
    pub fn start_message_source<E, F>(&mut self, spawn: F) -> (started: Result<(), E>) where
        F: FnOnce(Runner) -> Result<MessageSourceHandle<H>, E>,

        requires
            old(self).wf(),
            old(self).next_actor_id() < u32::MAX,
            call_requires(spawn, (Runner::with_id(old(self).next_actor_id()),)),
        ensures
            final(self).wf(),
            final(self).next_actor_id() == old(self).next_actor_id() + 1,
            !old(self).handles().contains_key(old(self).next_actor_id()),
            match started {
                Ok(_) => exists|handle: MessageSourceHandle<H>|
                    {
                        &&& call_ensures(
                            spawn,
                            (Runner::with_id(old(self).next_actor_id()),),
                            Ok(handle),
                        )
                        &&& final(self).handles() == old(self).handles().insert(
                            old(self).next_actor_id(),
                            handle.join_handle,
                        )
                    },
                Err(err) => call_ensures(
                    spawn,
                    (Runner::with_id(old(self).next_actor_id()),),
                    Err(err),
                ) && final(self).handles() == old(self).handles(),
            },
    {
        let actor_id = self.get_next_actor_id();
        let runner = Runner::new(actor_id);
        let handle = match spawn(runner) {
            Ok(handle) => handle,
            Err(err) => {
                return Err(err);
            },
        };
        self.handles.insert(actor_id, handle.join_handle);
        Ok(())
    }

    /// Takes the news that the thread with `actor_id` has ended: hands out its
    /// join handle, if it is still in the books, and says whether the
    /// supervisor is to give up. It always is: the first thread that ends,
    /// whyever it does, ends the whole.
    pub fn handle_completed_actor(&mut self, actor_id: u32) -> (outcome: (Option<H>, bool))
        ensures
            outcome.1,
            outcome.0 == if old(self).handles().contains_key(actor_id) {
                Some(old(self).handles()[actor_id])
            } else {
                None
            },
            final(self).handles() == old(self).handles().remove(actor_id),
            final(self).next_actor_id() == old(self).next_actor_id(),
            old(self).wf() ==> final(self).wf(),
    {
        let join_handle = self.handles.remove(&actor_id);
        (join_handle, true)
    }

    /// Takes one wake-up, with the id that it brought, if any. Without an id the
    /// supervisor waits on, its books unchanged. With one, it takes the news of
    /// that thread's end and is done: the first thread that ends, ends the whole.
    pub fn supervise(&mut self, completed_actor: Option<u32>) -> (supervision: Supervision<H>)
        ensures
            final(self).next_actor_id() == old(self).next_actor_id(),
            final(self).handles() == supervised(old(self).handles(), seq![completed_actor]).0,
            old(self).wf() ==> final(self).wf(),
            match completed_actor {
                None => supervision is Waiting,
                Some(actor_id) => supervision == (Supervision::Finished {
                    actor_id,
                    join_handle: if old(self).handles().contains_key(actor_id) {
                        Some(old(self).handles()[actor_id])
                    } else {
                        None
                    },
                }),
            },
    {
        proof {
            reveal_with_fuel(supervised, 2);
        }
        match completed_actor {
            Some(actor_id) => {
                let (join_handle, should_terminate) = self.handle_completed_actor(actor_id);
                if should_terminate {
                    Supervision::Finished { actor_id, join_handle }
                } else {
                    Supervision::Waiting
                }
            },
            None => Supervision::Waiting,
        }
    }
}

} // verus!
