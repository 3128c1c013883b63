//! What the bot says about prefixes, and what the `prefix` command does with
//! its argument.

use vstd::prelude::*;
use vstd::string::StringExecFns;
use crate::store::StoreError;

verus! {

/// The notice that a prefix could not be changed.
pub const CHANGE_FAILED: &'static str = "Failed to set the new prefix!";

/// The text that tells which prefix is in force.
pub open spec fn prefix_notice_text(prefix: Seq<char>) -> Seq<char> {
    "My prefix here is \""@ + prefix + "\""@
}

/// The text that confirms a new prefix.
pub open spec fn changed_notice_text(prefix: Seq<char>) -> Seq<char> {
    "Set the new prefix to \""@ + prefix + "\""@
}

/// Tells which prefix is in force: the prefix, in double quotes, after
/// `My prefix here is `.
pub fn prefix_notice(prefix: &str) -> (text: String)
    ensures
        text@ == prefix_notice_text(prefix@),
{
    let mut text = String::from_str("My prefix here is \"");
    text.append(prefix);
    text.append("\"");
    text
}

/// Answers an attempt to change the prefix: where the store took the write,
/// the new prefix, in double quotes, after `Set the new prefix to `; where
/// it failed, the notice of failure.
pub fn change_notice(prefix: &str, outcome: &Result<(), StoreError>) -> (text: String)
    ensures
        text@ == match *outcome {
            Ok(_) => changed_notice_text(prefix@),
            Err(_) => CHANGE_FAILED@,
        },
{
    match outcome {
        Ok(_) => {
            let mut text = String::from_str("Set the new prefix to \"");
            text.append(prefix);
            text.append("\"");
            text
        },
        Err(_) => String::from_str(CHANGE_FAILED),
    }
}

/// What the `prefix` command was given as its argument.
#[derive(Debug, PartialEq, Eq)]
pub enum PrefixArgument {
    /// No argument.
    Absent,
    /// An argument that reads as a prefix.
    Given(String),
    /// An argument that does not read as a prefix.
    Unreadable,
}

/// What the `prefix` command does.
#[derive(Debug, PartialEq, Eq)]
pub enum PrefixCommand {
    /// Resolve the prefix in force and tell it.
    Show,
    /// Assign the prefix to the guild and tell how that ended.
    Change(String),
    /// Write nothing and answer with the text.
    Refuse(String),
}

/// Decides what the `prefix` command does with its argument: without one it
/// shows the prefix in force, with a prefix it changes to it, and with an
/// argument that is no prefix it answers with the notice of failure, and
/// nothing is written.
pub fn prefix_command(argument: PrefixArgument) -> (command: PrefixCommand)
    ensures
        match argument {
            PrefixArgument::Absent => command is Show,
            PrefixArgument::Given(prefix) => command == PrefixCommand::Change(prefix),
            PrefixArgument::Unreadable => command is Refuse && command->Refuse_0@
                == CHANGE_FAILED@,
        },
{
    match argument {
        PrefixArgument::Absent => PrefixCommand::Show,
        PrefixArgument::Given(prefix) => PrefixCommand::Change(prefix),
        PrefixArgument::Unreadable => PrefixCommand::Refuse(String::from_str(CHANGE_FAILED)),
    }
}

} // verus!
