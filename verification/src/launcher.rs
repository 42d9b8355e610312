//! The decisions around KeePassXC: the arguments it is started with, and the
//! answer to Ctrl+C while it runs (which wipes the temporary keyfile).
use vstd::prelude::*;

verus! {

/// The option that hands KeePassXC its keyfile.
pub const KEYFILE_OPTION: &'static str = "--keyfile";

/// The arguments that start KeePassXC with the keyfile at `keyfile_path`.
pub fn keepassxc_arguments(keyfile_path: &str) -> (args: Vec<String>)
    ensures
        args@.len() == 2,
        args@[0]@ == KEYFILE_OPTION@,
        args@[1]@ == keyfile_path@,
{
    let mut args: Vec<String> = Vec::new();
    args.push(String::from_str(KEYFILE_OPTION));
    args.push(String::from_str(keyfile_path));
    args
}

/// What to do when the user presses Ctrl+C.
#[derive(Clone, Copy, PartialEq, Eq, Structural, Debug)]
pub enum InterruptResponse {
    /// First Ctrl+C while a temporary keyfile is on disk: remember it, wipe
    /// the keyfile, then exit cleanly.
    WipeAndExit,
    /// First Ctrl+C with no temporary keyfile on disk: remember it, and exit
    /// cleanly.
    CleanExit,
    /// Ctrl+C again: exit at once, with a failure status.
    ForcedExit,
}

/// The answer to Ctrl+C, given whether it was pressed before and whether a
/// temporary keyfile is on disk.
pub open spec fn interrupt_response(previously_interrupted: bool, keyfile_present: bool) -> InterruptResponse {
    if previously_interrupted {
        InterruptResponse::ForcedExit
    } else if keyfile_present {
        InterruptResponse::WipeAndExit
    } else {
        InterruptResponse::CleanExit
    }
}

/// The answer to Ctrl+C, given whether it was pressed before and whether a
/// temporary keyfile is on disk. The first Ctrl+C never leaves the keyfile
/// behind: it is wiped before the process exits.
pub fn respond_to_interrupt(previously_interrupted: bool, keyfile_present: bool) -> (r: InterruptResponse)
    ensures
        r == interrupt_response(previously_interrupted, keyfile_present),
{
    if previously_interrupted {
        InterruptResponse::ForcedExit
    } else if keyfile_present {
        InterruptResponse::WipeAndExit
    } else {
        InterruptResponse::CleanExit
    }
}

pub open spec fn interrupt_exit_code(r: InterruptResponse) -> i32 {
    match r {
        InterruptResponse::WipeAndExit => 0,
        InterruptResponse::CleanExit => 0,
        InterruptResponse::ForcedExit => 1,
    }
}

pub open spec fn interrupt_message(r: InterruptResponse) -> Seq<char> {
    match r {
        InterruptResponse::WipeAndExit => "\nInterrupted. Cleaning up temporary file..."@,
        InterruptResponse::CleanExit => "\nInterrupted. Cleaning up temporary file..."@,
        InterruptResponse::ForcedExit => "\nForced exit."@,
    }
}

pub open spec fn interrupt_wipes(r: InterruptResponse) -> bool {
    r == InterruptResponse::WipeAndExit
}

impl InterruptResponse {
    /// The status the process exits with.
    pub fn exit_code(&self) -> (code: i32)
        ensures
            code == interrupt_exit_code(*self),
    {
        match self {
            InterruptResponse::WipeAndExit => 0,
            InterruptResponse::CleanExit => 0,
            InterruptResponse::ForcedExit => 1,
        }
    }

    /// Whether the temporary keyfile is to be wiped before exiting.
    pub fn wipes_keyfile(&self) -> (b: bool)
        ensures
            b == interrupt_wipes(*self),
    {
        match self {
            InterruptResponse::WipeAndExit => true,
            _ => false,
        }
    }

    /// The message printed before exiting (and before the wipe).
    pub fn message(&self) -> (m: String)
        ensures
            m@ == interrupt_message(*self),
    {
        match self {
            InterruptResponse::WipeAndExit => String::from_str(
                "\nInterrupted. Cleaning up temporary file...",
            ),
            InterruptResponse::CleanExit => String::from_str(
                "\nInterrupted. Cleaning up temporary file...",
            ),
            InterruptResponse::ForcedExit => String::from_str("\nForced exit."),
        }
    }
}

} // verus!
