//! The steps by which a target gets into the manifest file.
//!
//! The file is shared by every generation that runs for one project, so it
//! is changed under an exclusive lock only. This module decides the steps; a
//! driver carries them out and reports what happened. The driver starts with
//! [`Action::CreateExclusive`], hands every outcome to [`Registrar::step`],
//! does what it is told next, and stops at [`Action::Done`].

use vstd::prelude::*;
use vstd::string::*;
use crate::manifest::{
    new_manifest, register, spec_manifest, spec_register, ManifestError, ManifestUpdate,
    UpdateView,
};

verus! {

/// Why a registration failed.
#[derive(Clone, Copy, Debug, PartialEq, Eq)]
pub enum Failure {
    /// The last action failed; the driver holds the cause.
    Io,
    /// The manifest holds a block that declares no target.
    Corrupt,
    /// The driver reported something that the last action cannot bring about.
    OutOfTurn,
}

/// How a registration ended.
#[derive(Clone, Copy, Debug, PartialEq, Eq)]
pub enum Outcome {
    /// The manifest declares the target.
    Registered,
    /// Nothing can be said of the manifest but that this went wrong.
    Failed(Failure),
}

/// What the driver reports after it has carried out an action.
#[derive(Clone, Debug, PartialEq, Eq)]
pub enum Event {
    /// The file did not exist and was created.
    Created,
    /// The file was not created because it exists.
    AlreadyExists,
    /// The existing file was opened.
    Opened,
    /// The lock was acquired.
    Locked,
    /// The file was read: this is all of its text.
    Contents(String),
    /// The text was written and flushed.
    Written,
    /// The lock was released.
    Unlocked,
    /// The action failed for any other reason.
    Failed,
}

/// What the driver is to do next.
#[derive(Clone, Debug, PartialEq, Eq)]
pub enum Action {
    /// Create the manifest file, failing if it exists.
    CreateExclusive,
    /// Open the existing file for reading and appending.
    OpenExisting,
    /// Acquire the exclusive lock on the file, waiting for it if need be.
    Lock,
    /// Read the whole file.
    Read,
    /// Write this text at the end of the file and flush.
    Write(String),
    /// Release the lock.
    Unlock,
    /// Stop: the registration has ended in this way.
    Done(Outcome),
}

/// How far a registration has come.
#[derive(Clone, Copy, Debug, PartialEq, Eq)]
pub enum Phase {
    /// Waiting for the file to be created.
    Creating,
    /// Waiting for the existing file to be opened.
    Opening,
    /// Waiting for the lock, on a file that was just created or on one that
    /// was there before.
    Locking { fresh: bool },
    /// Holding the lock, waiting for the text of the file.
    Reading,
    /// Holding the lock, waiting for the text to be written.
    Writing,
    /// Holding the lock, waiting for it to be released; the registration
    /// will end in this way.
    Releasing(Outcome),
    /// Ended.
    Finished,
}

/// One registration: the target, the project, and how far it has come.
#[derive(Clone, Debug, PartialEq, Eq)]
pub struct Registrar {
    crate_name: String,
    target: String,
    phase: Phase,
}

/// View of [`Event`].
pub enum EventView {
    Created,
    AlreadyExists,
    Opened,
    Locked,
    Contents(Seq<char>),
    Written,
    Unlocked,
    Failed,
}

/// View of [`Action`].
pub enum ActionView {
    CreateExclusive,
    OpenExisting,
    Lock,
    Read,
    Write(Seq<char>),
    Unlock,
    Done(Outcome),
}

/// View of [`Registrar`].
pub struct RegistrarView {
    pub crate_name: Seq<char>,
    pub target: Seq<char>,
    pub phase: Phase,
}

impl View for Event {
    type V = EventView;

    open spec fn view(&self) -> EventView {
        match self {
            Event::Created => EventView::Created,
            Event::AlreadyExists => EventView::AlreadyExists,
            Event::Opened => EventView::Opened,
            Event::Locked => EventView::Locked,
            Event::Contents(text) => EventView::Contents(text@),
            Event::Written => EventView::Written,
            Event::Unlocked => EventView::Unlocked,
            Event::Failed => EventView::Failed,
        }
    }
}

impl View for Action {
    type V = ActionView;

    open spec fn view(&self) -> ActionView {
        match self {
            Action::CreateExclusive => ActionView::CreateExclusive,
            Action::OpenExisting => ActionView::OpenExisting,
            Action::Lock => ActionView::Lock,
            Action::Read => ActionView::Read,
            Action::Write(text) => ActionView::Write(text@),
            Action::Unlock => ActionView::Unlock,
            Action::Done(outcome) => ActionView::Done(*outcome),
        }
    }
}

impl View for Registrar {
    type V = RegistrarView;

    closed spec fn view(&self) -> RegistrarView {
        RegistrarView { crate_name: self.crate_name@, target: self.target@, phase: self.phase }
    }
}

impl Phase {
    /// Whether the lock is held in this phase.
    pub open spec fn locked(self) -> bool {
        self is Reading || self is Writing || self is Releasing
    }

    /// An upper bound on the number of steps that are left.
    pub open spec fn steps_left(self) -> nat {
        match self {
            Phase::Creating => 6,
            Phase::Opening => 5,
            Phase::Locking { .. } => 4,
            Phase::Reading => 3,
            Phase::Writing => 2,
            Phase::Releasing(_) => 1,
            Phase::Finished => 0,
        }
    }
}

/// The failure that an event stands for when it is not the one that was
/// waited for.
pub open spec fn failure_of(event: EventView) -> Failure {
    if event is Failed {
        Failure::Io
    } else {
        Failure::OutOfTurn
    }
}

/// The next phase and the next action, given what the driver reports.
pub open spec fn spec_step(state: RegistrarView, event: EventView) -> (Phase, ActionView) {
    match state.phase {
        Phase::Creating => match event {
            EventView::Created => (Phase::Locking { fresh: true }, ActionView::Lock),
            EventView::AlreadyExists => (Phase::Opening, ActionView::OpenExisting),
            _ => (Phase::Finished, ActionView::Done(Outcome::Failed(failure_of(event)))),
        },
        Phase::Opening => match event {
            EventView::Opened => (Phase::Locking { fresh: false }, ActionView::Lock),
            _ => (Phase::Finished, ActionView::Done(Outcome::Failed(failure_of(event)))),
        },
        Phase::Locking { fresh } => match event {
            EventView::Locked => if fresh {
                (
                    Phase::Writing,
                    ActionView::Write(spec_manifest(state.crate_name, seq![state.target])),
                )
            } else {
                (Phase::Reading, ActionView::Read)
            },
            _ => (Phase::Finished, ActionView::Done(Outcome::Failed(failure_of(event)))),
        },
        Phase::Reading => match event {
            EventView::Contents(text) => match spec_register(
                Some(text),
                state.crate_name,
                state.target,
            ) {
                Ok(UpdateView::Unchanged) => (Phase::Releasing(Outcome::Registered), ActionView::Unlock),
                Ok(UpdateView::Append(entry)) => (Phase::Writing, ActionView::Write(entry)),
                Ok(UpdateView::Create(text)) => (Phase::Writing, ActionView::Write(text)),
                Err(ManifestError::Corrupt) => (
                    Phase::Releasing(Outcome::Failed(Failure::Corrupt)),
                    ActionView::Unlock,
                ),
            },
            _ => (Phase::Releasing(Outcome::Failed(failure_of(event))), ActionView::Unlock),
        },
        Phase::Writing => match event {
            EventView::Written => (Phase::Releasing(Outcome::Registered), ActionView::Unlock),
            _ => (Phase::Releasing(Outcome::Failed(failure_of(event))), ActionView::Unlock),
        },
        Phase::Releasing(outcome) => match event {
            EventView::Unlocked => (Phase::Finished, ActionView::Done(outcome)),
            _ => (
                Phase::Finished,
                ActionView::Done(
                    match outcome {
                        Outcome::Registered => Outcome::Failed(failure_of(event)),
                        Outcome::Failed(failure) => Outcome::Failed(failure),
                    },
                ),
            ),
        },
        Phase::Finished => (Phase::Finished, ActionView::Done(Outcome::Failed(Failure::OutOfTurn))),
    }
}

impl Registrar {
    /// Begins the registration of `target` with the manifest of the project
    /// `crate_name`. The first action is [`Action::CreateExclusive`].
    pub fn new(crate_name: &str, target: &str) -> (registrar: Registrar)
        ensures
            registrar@ == (RegistrarView {
                crate_name: crate_name@,
                target: target@,
                phase: Phase::Creating,
            }),
    {
        Registrar {
            crate_name: crate_name.to_owned(),
            target: target.to_owned(),
            phase: Phase::Creating,
        }
    }

    /// How far the registration has come.
    pub fn phase(&self) -> (phase: Phase)
        ensures
            phase == self@.phase,
    {
        self.phase
    }

    /// Takes what the driver reports and says what to do next.
    ///
    /// The project and the target stay as they are; the phase and the action
    /// are those of [`spec_step`].
    pub fn step(&mut self, event: Event) -> (action: Action)
        ensures
            final(self)@.crate_name == old(self)@.crate_name,
            final(self)@.target == old(self)@.target,
            (final(self)@.phase, action@) == spec_step(old(self)@, event@),
    {
        let failure = match &event {
            Event::Failed => Failure::Io,
            _ => Failure::OutOfTurn,
        };
        let (phase, action) = match self.phase {
            Phase::Creating => match event {
                Event::Created => (Phase::Locking { fresh: true }, Action::Lock),
                Event::AlreadyExists => (Phase::Opening, Action::OpenExisting),
                _ => (Phase::Finished, Action::Done(Outcome::Failed(failure))),
            },
            Phase::Opening => match event {
                Event::Opened => (Phase::Locking { fresh: false }, Action::Lock),
                _ => (Phase::Finished, Action::Done(Outcome::Failed(failure))),
            },
            Phase::Locking { fresh } => match event {
                Event::Locked => if fresh {
                    (
                        Phase::Writing,
                        Action::Write(
                            new_manifest(self.crate_name.as_str(), self.target.as_str()),
                        ),
                    )
                } else {
                    (Phase::Reading, Action::Read)
                },
                _ => (Phase::Finished, Action::Done(Outcome::Failed(failure))),
            },
            Phase::Reading => match event {
                Event::Contents(text) => match register(
                    Some(text.as_str()),
                    self.crate_name.as_str(),
                    self.target.as_str(),
                ) {
                    Ok(ManifestUpdate::Unchanged) => (Phase::Releasing(Outcome::Registered), Action::Unlock),
                    Ok(ManifestUpdate::Append(entry)) => (Phase::Writing, Action::Write(entry)),
                    Ok(ManifestUpdate::Create(text)) => (Phase::Writing, Action::Write(text)),
                    Err(ManifestError::Corrupt) => (
                        Phase::Releasing(Outcome::Failed(Failure::Corrupt)),
                        Action::Unlock,
                    ),
                },
                _ => (Phase::Releasing(Outcome::Failed(failure)), Action::Unlock),
            },
            Phase::Writing => match event {
                Event::Written => (Phase::Releasing(Outcome::Registered), Action::Unlock),
                _ => (Phase::Releasing(Outcome::Failed(failure)), Action::Unlock),
            },
            Phase::Releasing(outcome) => match event {
                Event::Unlocked => (Phase::Finished, Action::Done(outcome)),
                _ => (
                    Phase::Finished,
                    Action::Done(
                        match outcome {
                            Outcome::Registered => Outcome::Failed(failure),
                            Outcome::Failed(earlier) => Outcome::Failed(earlier),
                        },
                    ),
                ),
            },
            Phase::Finished => (Phase::Finished, Action::Done(Outcome::Failed(Failure::OutOfTurn))),
        };
        self.phase = phase;
        action
    }
}

/// The lock is released on every path. The lock is taken by the one step
/// that follows its acquisition; while it is held the only actions are to
/// read, to write and to unlock; and no registration ends, in success or in
/// failure, while it is held.
pub proof fn lock_is_released_on_every_path(state: RegistrarView, event: EventView)
    ensures
        ({
            let (next, action) = spec_step(state, event);
            &&& action is Done ==> !next.locked() && (state.phase.locked()
                ==> state.phase is Releasing)
            &&& state.phase.locked() ==> action is Write || action is Unlock || action is Done
            &&& state.phase.locked() && !(action is Done) ==> next.locked()
            &&& !state.phase.locked() && next.locked() ==> state.phase is Locking && event
                is Locked
            &&& action is Unlock ==> state.phase.locked() && next is Releasing
        }),
{
}

/// Every step but the last brings the end nearer: a registration that is not
/// kept waiting by the driver ends after six steps at most.
pub proof fn registration_ends(state: RegistrarView, event: EventView)
    ensures
        ({
            let (next, action) = spec_step(state, event);
            &&& !(state.phase is Finished) ==> next.steps_left() < state.phase.steps_left()
            &&& action is Done <==> next is Finished
        }),
{
}

/// What a registration writes is decided by the manifest alone: into a new
/// file the whole manifest with the one target, and into an existing one,
/// once it is read, what [`spec_register`] gives.
pub proof fn registration_writes_what_register_decides(state: RegistrarView, event: EventView)
    ensures
        ({
            let (next, action) = spec_step(state, event);
            action matches ActionView::Write(text) ==> {
                ||| state.phase == (Phase::Locking { fresh: true }) && spec_register(
                    None,
                    state.crate_name,
                    state.target,
                ) == Ok::<UpdateView, ManifestError>(UpdateView::Create(text))
                ||| state.phase is Reading && event is Contents && spec_register(
                    Some(event->Contents_0),
                    state.crate_name,
                    state.target,
                ) == Ok::<UpdateView, ManifestError>(UpdateView::Append(text))
            }
        }),
{
}

} // verus!
