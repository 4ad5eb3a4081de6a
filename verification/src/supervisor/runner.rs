//! The loop of one thread, as the decision taken after each thing the thread
//! has done.

use vstd::prelude::*;

verus! {

/// How a thread's run ends.
#[derive(Clone, Copy, Debug, PartialEq, Eq, Structural)]
pub enum Exit {
    /// The actor asked to stop, or no sender is left.
    Clean,
    /// `startup` failed.
    StartupError,
    /// `handle_message` failed.
    MessageError,
    /// A message source's `run` failed.
    SourceError,
}

/// What an actor's thread has just done.
#[derive(Clone, Copy, Debug, PartialEq, Eq, Structural)]
pub enum ActorProgress {
    /// The thread has begun.
    Spawned,
    /// `startup` returned an error.
    StartupFailed,
    /// `startup` returned.
    StartedUp,
    /// The wait for a message ended because no sender is left.
    Disconnected,
    /// A message has come.
    Received,
    /// `handle_message` returned an error.
    HandlerFailed,
    /// `handle_message` returned, and said whether the actor is to stop.
    Handled { should_terminate: bool },
}

/// What an actor's thread does next.
#[derive(Clone, Copy, Debug, PartialEq, Eq, Structural)]
pub enum ActorDirective {
    /// Call `startup`.
    Startup,
    /// Wait for the next message.
    Receive,
    /// Hand the message that has come to `handle_message`.
    HandleMessage,
    /// End the thread.
    Exit(Exit),
}

/// What a message source's thread has just done.
#[derive(Clone, Copy, Debug, PartialEq, Eq, Structural)]
pub enum SourceProgress {
    /// The thread has begun.
    Spawned,
    /// `run` returned an error.
    RunFailed,
    /// `run` returned, and said whether the source is to stop.
    Ran { should_terminate: bool },
}

/// What a message source's thread does next.
#[derive(Clone, Copy, Debug, PartialEq, Eq, Structural)]
pub enum SourceDirective {
    /// Call `run`.
    Run,
    /// End the thread.
    Exit(Exit),
}

/// The ids of the threads that have ended, in the order in which they ended.
pub struct CompletedActors {
    ids: Vec<u32>,
}

impl View for CompletedActors {
    type V = Seq<u32>;

    closed spec fn view(&self) -> Seq<u32> {
        self.ids@
    }
}

impl CompletedActors {
    pub fn new() -> (completed: CompletedActors)
        ensures
            completed@ == Seq::<u32>::empty(),
    {
        CompletedActors { ids: Vec::new() }
    }

    /// Notes that the thread with this id has ended.
    pub fn push(&mut self, actor_id: u32)
        ensures
            final(self)@ == old(self)@.push(actor_id),
    {
        self.ids.push(actor_id);
    }

    /// Takes out the id that was noted last, if there is one.
    pub fn pop(&mut self) -> (actor_id: Option<u32>)
        ensures
            old(self)@.len() == 0 ==> actor_id is None && final(self)@ == old(self)@,
            old(self)@.len() > 0 ==> actor_id == Some(old(self)@.last()) && final(self)@ == old(
                self,
            )@.drop_last(),
    {
        self.ids.pop()
    }
}

/// The part of a thread that knows the thread's id: it decides how the thread's
/// loop goes on, and notes the id when the thread ends.
#[derive(Debug)]
pub struct Runner {
    actor_id: u32,
}

impl Runner {
    pub closed spec fn id(self) -> u32 {
        self.actor_id
    }

    /// The runner of the thread with this id.
    pub closed spec fn with_id(actor_id: u32) -> Runner {
        Runner { actor_id }
    }

    /// An actor's thread calls `startup` once, at its beginning. It then waits
    /// for a message and handles it, over and over, until a call fails, the
    /// actor asks to stop, or no sender is left.
    pub open spec fn actor_directive(progress: ActorProgress) -> ActorDirective {
        match progress {
            ActorProgress::Spawned => ActorDirective::Startup,
            ActorProgress::StartupFailed => ActorDirective::Exit(Exit::StartupError),
            ActorProgress::StartedUp => ActorDirective::Receive,
            ActorProgress::Disconnected => ActorDirective::Exit(Exit::Clean),
            ActorProgress::Received => ActorDirective::HandleMessage,
            ActorProgress::HandlerFailed => ActorDirective::Exit(Exit::MessageError),
            ActorProgress::Handled { should_terminate } => if should_terminate {
                ActorDirective::Exit(Exit::Clean)
            } else {
                ActorDirective::Receive
            },
        }
    }

    /// A message source's thread calls `run` over and over, until a call fails or
    /// the source asks to stop.
    pub open spec fn source_directive(progress: SourceProgress) -> SourceDirective {
        match progress {
            SourceProgress::Spawned => SourceDirective::Run,
            SourceProgress::RunFailed => SourceDirective::Exit(Exit::SourceError),
            SourceProgress::Ran { should_terminate } => if should_terminate {
                SourceDirective::Exit(Exit::Clean)
            } else {
                SourceDirective::Run
            },
        }
    }

    pub fn new(actor_id: u32) -> (runner: Self)
        ensures
            runner == Runner::with_id(actor_id),
            runner.id() == actor_id,
    {
        Self { actor_id }
    }

    pub fn actor_id(&self) -> (actor_id: u32)
        ensures
            actor_id == self.id(),
    {
        self.actor_id
    }

    /// Says what an actor's thread does next, given what it has just done.
    pub fn run_actor(&self, progress: ActorProgress) -> (directive: ActorDirective)
        ensures
            directive == Runner::actor_directive(progress),
    {
        match progress {
            ActorProgress::Spawned => ActorDirective::Startup,
            ActorProgress::StartupFailed => ActorDirective::Exit(Exit::StartupError),
            ActorProgress::StartedUp | ActorProgress::Handled { should_terminate: false } => {
                ActorDirective::Receive
            },
            ActorProgress::Received => ActorDirective::HandleMessage,
            ActorProgress::HandlerFailed => ActorDirective::Exit(Exit::MessageError),
            ActorProgress::Disconnected | ActorProgress::Handled { should_terminate: true } => {
                ActorDirective::Exit(Exit::Clean)
            },
        }
    }

    /// Says what a message source's thread does next, given what it has just
    /// done.
    pub fn run_message_source(&self, progress: SourceProgress) -> (directive: SourceDirective)
        ensures
            directive == Runner::source_directive(progress),
    {
        match progress {
            SourceProgress::Spawned | SourceProgress::Ran { should_terminate: false } => {
                SourceDirective::Run
            },
            SourceProgress::RunFailed => SourceDirective::Exit(Exit::SourceError),
            SourceProgress::Ran { should_terminate: true } => SourceDirective::Exit(Exit::Clean),
        }
    }

    /// Notes the end of the thread. The thread does this on every way out.
    pub fn notify_completed(&self, completed_actors: &mut CompletedActors)
        ensures
            final(completed_actors)@ == old(completed_actors)@.push(self.id()),
    {
        completed_actors.push(self.actor_id);
    }
}

} // verus!
