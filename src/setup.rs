//! The sequence of an installation session, as a state machine: each stage
//! is a request to the caller (a prompt, a transfer pass), and the caller
//! answers it with an event.
use crate::prompt::YES_CHOICE;
use vstd::prelude::*;

verus! {

/// The request a session waits on.
#[derive(Clone, Copy, Debug, PartialEq, Eq, Structural)]
pub enum Stage {
    /// Ask which platform to install to.
    AskPlatform,
    /// Say that Cemu is not supported yet; the session ends.
    CemuUnsupported,
    /// Explain how to enable system access over FTP and wait for a line.
    ConfirmAccess,
    /// Ask for the console's IP address.
    AskAddress,
    /// Say that the address was not valid; the session ends.
    InvalidAddress,
    /// Connect, log in anonymously and probe both devices.
    Probe,
    /// Say that the game was not found; the session ends.
    NotDetected,
    /// List the installed titles and ask which one to use.
    ChooseTitle,
    /// The chosen number picks no title; the session ends.
    InvalidChoice,
    /// Ask for the local mod directory.
    AskModPath,
    /// Ask whether to back up first.
    AskBackup,
    /// Ask for the local backup directory.
    AskBackupPath,
    /// Run the backup pass.
    Backup,
    /// Run the install pass of the mod directory.
    Install,
    /// Ask whether to install the patch payload too.
    AskPatch,
    /// Fetch the patch payload and run an install pass over it.
    InstallPatch,
    /// Close the transfer session.
    Quit,
    /// The session is over.
    Finished,
}

/// What the caller reports back.
#[derive(Clone, Copy, Debug, PartialEq, Eq, Structural)]
pub enum SetupEvent {
    /// A numeric answer.
    Choice(u32),
    /// A line of free text was read (the caller keeps it).
    Entered,
    /// Whether the entered address parsed as an IPv4 address.
    Address(bool),
    /// The number of known releases found installed on both devices.
    Probed(usize),
    /// The requested work is done.
    Done,
}

/// A session: its stage, the number of titles found, and the index of the
/// chosen one.
pub struct SetupRun {
    pub stage: Stage,
    pub titles: usize,
    pub selected: usize,
}

/// Whether a stage ends the session.
pub open spec fn is_final(s: Stage) -> bool {
    s == Stage::CemuUnsupported || s == Stage::InvalidAddress || s == Stage::NotDetected
        || s == Stage::InvalidChoice || s == Stage::Finished
}

/// The next (stage, titles, selected) after event `e`. An event that does
/// not answer the stage changes nothing.
pub open spec fn setup_transition(s: Stage, titles: usize, selected: usize, e: SetupEvent) -> (
    Stage,
    usize,
    usize,
) {
    match (s, e) {
        (Stage::AskPlatform, SetupEvent::Choice(c)) => if c == YES_CHOICE {
            (Stage::ConfirmAccess, titles, selected)
        } else {
            (Stage::CemuUnsupported, titles, selected)
        },
        (Stage::ConfirmAccess, SetupEvent::Entered) => (Stage::AskAddress, titles, selected),
        (Stage::AskAddress, SetupEvent::Address(ok)) => if ok {
            (Stage::Probe, titles, selected)
        } else {
            (Stage::InvalidAddress, titles, selected)
        },
        (Stage::Probe, SetupEvent::Probed(n)) => if n == 0 {
            (Stage::NotDetected, n, selected)
        } else {
            (Stage::ChooseTitle, n, selected)
        },
        (Stage::ChooseTitle, SetupEvent::Choice(c)) => if (c as int) < titles {
            (Stage::AskModPath, titles, c as usize)
        } else {
            (Stage::InvalidChoice, titles, selected)
        },
        (Stage::AskModPath, SetupEvent::Entered) => (Stage::AskBackup, titles, selected),
        (Stage::AskBackup, SetupEvent::Choice(c)) => if c == YES_CHOICE {
            (Stage::AskBackupPath, titles, selected)
        } else {
            (Stage::Install, titles, selected)
        },
        (Stage::AskBackupPath, SetupEvent::Entered) => (Stage::Backup, titles, selected),
        (Stage::Backup, SetupEvent::Done) => (Stage::Install, titles, selected),
        (Stage::Install, SetupEvent::Done) => (Stage::AskPatch, titles, selected),
        (Stage::AskPatch, SetupEvent::Choice(c)) => if c == YES_CHOICE {
            (Stage::InstallPatch, titles, selected)
        } else {
            (Stage::Quit, titles, selected)
        },
        (Stage::InstallPatch, SetupEvent::Done) => (Stage::Quit, titles, selected),
        (Stage::Quit, SetupEvent::Done) => (Stage::Finished, titles, selected),
        _ => (s, titles, selected),
    }
}

/// From the stage of choosing a title on, the chosen index names one of
/// the titles found.
pub open spec fn selection_valid(s: Stage, titles: usize, selected: usize) -> bool {
    match s {
        Stage::AskModPath | Stage::AskBackup | Stage::AskBackupPath | Stage::Backup
        | Stage::Install | Stage::AskPatch | Stage::InstallPatch | Stage::Quit => selected
            < titles,
        _ => true,
    }
}

impl SetupRun {
    pub open spec fn wf(&self) -> bool {
        selection_valid(self.stage, self.titles, self.selected)
    }

    /// A session at its first prompt.
    pub fn new() -> (r: SetupRun)
        ensures
            r.wf(),
            r.stage == Stage::AskPlatform,
            r.titles == 0,
            r.selected == 0,
    {
        SetupRun { stage: Stage::AskPlatform, titles: 0, selected: 0 }
    }

    /// Whether the session is over.
    pub fn is_over(&self) -> (r: bool)
        ensures
            r == is_final(self.stage),
    {
        match self.stage {
            Stage::CemuUnsupported | Stage::InvalidAddress | Stage::NotDetected
            | Stage::InvalidChoice | Stage::Finished => true,
            _ => false,
        }
    }

    /// Take in the answer to the current request; returns the next request.
    pub fn step(&mut self, e: SetupEvent) -> (r: Stage)
        requires
            old(self).wf(),
        ensures
            final(self).wf(),
            r == final(self).stage,
            (final(self).stage, final(self).titles, final(self).selected) == setup_transition(
                old(self).stage,
                old(self).titles,
                old(self).selected,
                e,
            ),
    {
        let (stage, titles, selected) = match (self.stage, e) {
            (Stage::AskPlatform, SetupEvent::Choice(c)) => {
                if c == YES_CHOICE {
                    (Stage::ConfirmAccess, self.titles, self.selected)
                } else {
                    (Stage::CemuUnsupported, self.titles, self.selected)
                }
            },
            (Stage::ConfirmAccess, SetupEvent::Entered) => (
                Stage::AskAddress,
                self.titles,
                self.selected,
            ),
            (Stage::AskAddress, SetupEvent::Address(ok)) => {
                if ok {
                    (Stage::Probe, self.titles, self.selected)
                } else {
                    (Stage::InvalidAddress, self.titles, self.selected)
                }
            },
            (Stage::Probe, SetupEvent::Probed(n)) => {
                if n == 0 {
                    (Stage::NotDetected, n, self.selected)
                } else {
                    (Stage::ChooseTitle, n, self.selected)
                }
            },
            (Stage::ChooseTitle, SetupEvent::Choice(c)) => {
                if (c as usize) < self.titles {
                    (Stage::AskModPath, self.titles, c as usize)
                } else {
                    (Stage::InvalidChoice, self.titles, self.selected)
                }
            },
            (Stage::AskModPath, SetupEvent::Entered) => (
                Stage::AskBackup,
                self.titles,
                self.selected,
            ),
            (Stage::AskBackup, SetupEvent::Choice(c)) => {
                if c == YES_CHOICE {
                    (Stage::AskBackupPath, self.titles, self.selected)
                } else {
                    (Stage::Install, self.titles, self.selected)
                }
            },
            (Stage::AskBackupPath, SetupEvent::Entered) => (
                Stage::Backup,
                self.titles,
                self.selected,
            ),
            (Stage::Backup, SetupEvent::Done) => (Stage::Install, self.titles, self.selected),
            (Stage::Install, SetupEvent::Done) => (Stage::AskPatch, self.titles, self.selected),
            (Stage::AskPatch, SetupEvent::Choice(c)) => {
                if c == YES_CHOICE {
                    (Stage::InstallPatch, self.titles, self.selected)
                } else {
                    (Stage::Quit, self.titles, self.selected)
                }
            },
            (Stage::InstallPatch, SetupEvent::Done) => (Stage::Quit, self.titles, self.selected),
            (Stage::Quit, SetupEvent::Done) => (Stage::Finished, self.titles, self.selected),
            _ => (self.stage, self.titles, self.selected),
        };
        self.stage = stage;
        self.titles = titles;
        self.selected = selected;
        stage
    }
}

} // verus!
