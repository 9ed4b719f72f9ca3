//! The sink's decisions: what each setup entry point prepares, what one
//! record does to the file, when a flush reaches a handle, and what a setup
//! call returns.
//!
//! The file itself is modelled by its content, a sequence of characters.
//! The functions here return the step to take; the caller performs it.
use vstd::prelude::*;

use crate::line::{record_of, record_text, Level};

verus! {

/// How the sink reaches its file.
#[derive(Clone, Copy, Debug, PartialEq, Eq, Structural)]
pub enum Access {
    /// One handle, opened at setup and held until the process exits.
    KeepOpen,
    /// The path alone; the file is opened for each write and closed after it.
    Transient,
}

/// The four setup entry points.
#[derive(Clone, Copy, Debug, PartialEq, Eq, Structural)]
pub enum Setup {
    /// Reopen for each write, keep what the file holds.
    AppendTransient,
    /// Reopen for each write, delete the file first.
    TruncateTransient,
    /// Hold one handle, keep what the file holds.
    Append,
    /// Hold one handle, empty the file when it is opened. The open comes
    /// before registration, so the file is emptied even when the setup then
    /// fails as already registered.
    Truncate,
}

/// What a setup call prepares before the sink is registered.
#[derive(Clone, Copy, Debug, PartialEq, Eq, Structural)]
pub struct SetupPlan {
    /// How the sink reaches its file afterwards.
    pub access: Access,
    /// Whether what the file holds is discarded: by deleting the file for
    /// transient access, by truncating it on open for a held handle. A
    /// failed delete is ignored.
    pub discard_existing: bool,
    /// Whether opening the file creates it when it is missing: so for each
    /// transient write; a held handle is opened only on an existing file, and
    /// a missing one fails the setup.
    pub create_missing: bool,
}

/// The plan that each entry point follows.
pub open spec fn plan_of(setup: Setup) -> SetupPlan {
    match setup {
        Setup::AppendTransient => SetupPlan {
            access: Access::Transient,
            discard_existing: false,
            create_missing: true,
        },
        Setup::TruncateTransient => SetupPlan {
            access: Access::Transient,
            discard_existing: true,
            create_missing: true,
        },
        Setup::Append => SetupPlan {
            access: Access::KeepOpen,
            discard_existing: false,
            create_missing: false,
        },
        Setup::Truncate => SetupPlan {
            access: Access::KeepOpen,
            discard_existing: true,
            create_missing: false,
        },
    }
}

/// Returns the plan that a setup entry point follows.
pub fn setup_plan(setup: Setup) -> (r: SetupPlan)
    ensures
        r == plan_of(setup),
{
    match setup {
        Setup::AppendTransient => SetupPlan {
            access: Access::Transient,
            discard_existing: false,
            create_missing: true,
        },
        Setup::TruncateTransient => SetupPlan {
            access: Access::Transient,
            discard_existing: true,
            create_missing: true,
        },
        Setup::Append => SetupPlan {
            access: Access::KeepOpen,
            discard_existing: false,
            create_missing: false,
        },
        Setup::Truncate => SetupPlan {
            access: Access::KeepOpen,
            discard_existing: true,
            create_missing: false,
        },
    }
}

/// What the file holds once a setup plan has been carried out on a file that
/// held `content`.
pub open spec fn content_after_setup(plan: SetupPlan, content: Seq<char>) -> Seq<char> {
    if plan.discard_existing {
        Seq::empty()
    } else {
        content
    }
}

/// What the sink does with one record.
#[derive(Debug)]
pub enum Action {
    /// The record is filtered out: nothing is opened or written.
    Skip,
    /// `text` is written; through a freshly opened handle when `reopen`
    /// holds, else through the held one. A failed open or write drops the
    /// record silently.
    Write { text: String, reopen: bool },
}

impl View for Action {
    type V = Option<(Seq<char>, bool)>;

    open spec fn view(&self) -> Option<(Seq<char>, bool)> {
        match self {
            Action::Skip => None,
            Action::Write { text, reopen } => Some((text@, *reopen)),
        }
    }
}

/// The step for one record: nothing when the filter rejects it, else its
/// text, to be written after reopening the file when access is transient.
pub open spec fn step_of(
    access: Access,
    enabled: bool,
    level: Level,
    millis: nat,
    target: Seq<char>,
    message: Seq<char>,
) -> Option<(Seq<char>, bool)> {
    if enabled {
        Some((record_of(level, millis, target, message), access == Access::Transient))
    } else {
        None
    }
}

/// Decides what to do with one record, given the filter's verdict on it and
/// the time in milliseconds since the Unix epoch.
pub fn log_action(
    access: Access,
    enabled: bool,
    level: Level,
    millis: u64,
    target: &str,
    message: &str,
) -> (r: Action)
    ensures
        r@ == step_of(access, enabled, level, millis as nat, target@, message@),
{
    if enabled {
        let text = record_text(level, millis, target, message);
        Action::Write { text, reopen: access == Access::Transient }
    } else {
        Action::Skip
    }
}

/// What the file holds after one step on a file that held `content`, where
/// `opened` tells whether reopening the file succeeded (it is not consulted
/// for a held handle). Writes are taken to succeed.
pub open spec fn content_after_step(
    content: Seq<char>,
    step: Option<(Seq<char>, bool)>,
    opened: bool,
) -> Seq<char> {
    match step {
        None => content,
        Some((text, reopen)) => if reopen && !opened { content } else { content + text },
    }
}

/// Whether a flush request reaches a handle: only a held one is flushed.
pub fn flushes(access: Access) -> (r: bool)
    ensures
        r == (access == Access::KeepOpen),
{
    match access {
        Access::KeepOpen => true,
        Access::Transient => false,
    }
}

/// Why a setup call failed.
#[derive(Clone, Copy, Debug, PartialEq, Eq, Structural)]
pub enum SetupError {
    /// The file to hold open could not be opened.
    Open,
    /// A sink was registered already in this process; it stays active.
    AlreadyRegistered,
}

/// What a setup call returns, given whether the file could be opened (a
/// transient setup opens nothing, so it passes `true`) and whether the
/// facade's registration slot was still free.
pub open spec fn outcome_of(opened: bool, slot_free: bool) -> Result<(), SetupError> {
    if !opened {
        Err(SetupError::Open)
    } else if !slot_free {
        Err(SetupError::AlreadyRegistered)
    } else {
        Ok(())
    }
}

/// Whether the registration slot is free after a setup call with this
/// outcome: a success takes it, a failure leaves it as it was.
pub open spec fn slot_free_after(slot_free: bool, outcome: Result<(), SetupError>) -> bool {
    slot_free && outcome is Err
}

/// Returns what a setup call reports: an open failure first, then a taken
/// registration slot, else success. After a failed open the slot is not
/// consulted.
pub fn setup_outcome(opened: bool, slot_free: bool) -> (r: Result<(), SetupError>)
    ensures
        r == outcome_of(opened, slot_free),
{
    if !opened {
        Err(SetupError::Open)
    } else if !slot_free {
        Err(SetupError::AlreadyRegistered)
    } else {
        Ok(())
    }
}

} // verus!
