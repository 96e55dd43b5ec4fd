//! The slash commands that the input suggests.

use crate::text::{chars_of, starts_with};
use vstd::prelude::*;

verus! {

/// A slash command: its name without the slash, and what it does.
#[derive(Debug)]
pub struct SlashCommandInfo {
    pub name: &'static str,
    pub description: &'static str,
}

/// Number of slash commands.
pub const SLASH_COMMAND_COUNT: usize = 8;

/// The name of the command at `index`, in the order of the registry.
pub open spec fn command_name(index: int) -> Seq<char> {
    if index == 0 {
        "command"@
    } else if index == 1 {
        "exit"@
    } else if index == 2 {
        "help"@
    } else if index == 3 {
        "init"@
    } else if index == 4 {
        "list-themes"@
    } else if index == 5 {
        "model"@
    } else if index == 6 {
        "sessions"@
    } else {
        "theme"@
    }
}

/// What the command at `index` does.
pub open spec fn command_description(index: int) -> Seq<char> {
    if index == 0 {
        "Run a terminal command"@
    } else if index == 1 {
        "Leave the session"@
    } else if index == 2 {
        "Show the slash commands"@
    } else if index == 3 {
        "Set up the workspace guidelines"@
    } else if index == 4 {
        "List the themes"@
    } else if index == 5 {
        "Pick the model"@
    } else if index == 6 {
        "List recent sessions"@
    } else {
        "Switch the theme"@
    }
}

/// The command at `index`, in the order of the registry.
pub fn command_at(index: usize) -> (r: SlashCommandInfo)
    requires
        index < SLASH_COMMAND_COUNT,
    ensures
        r.name@ == command_name(index as int),
        r.description@ == command_description(index as int),
{
    if index == 0 {
        SlashCommandInfo { name: "command", description: "Run a terminal command" }
    } else if index == 1 {
        SlashCommandInfo { name: "exit", description: "Leave the session" }
    } else if index == 2 {
        SlashCommandInfo { name: "help", description: "Show the slash commands" }
    } else if index == 3 {
        SlashCommandInfo { name: "init", description: "Set up the workspace guidelines" }
    } else if index == 4 {
        SlashCommandInfo { name: "list-themes", description: "List the themes" }
    } else if index == 5 {
        SlashCommandInfo { name: "model", description: "Pick the model" }
    } else if index == 6 {
        SlashCommandInfo { name: "sessions", description: "List recent sessions" }
    } else {
        SlashCommandInfo { name: "theme", description: "Switch the theme" }
    }
}

/// The indices of the commands from `i` on whose names begin with
/// `prefix`, added to `acc`.
pub open spec fn matching_from(prefix: Seq<char>, i: int, acc: Seq<usize>) -> Seq<usize>
    decreases SLASH_COMMAND_COUNT - i,
{
    if 0 <= i < SLASH_COMMAND_COUNT {
        if prefix.is_prefix_of(command_name(i)) {
            matching_from(prefix, i + 1, acc.push(i as usize))
        } else {
            matching_from(prefix, i + 1, acc)
        }
    } else {
        acc
    }
}

/// The indices of the commands whose names begin with `prefix`, in the
/// order of the registry.
pub open spec fn matching_commands(prefix: Seq<char>) -> Seq<usize> {
    matching_from(prefix, 0, Seq::empty())
}

/// The commands whose names begin with `prefix`, as indices into the
/// registry.
pub fn suggestions_for(prefix: &str) -> (r: Vec<usize>)
    ensures
        r@ == matching_commands(prefix@),
        forall|k: int| 0 <= k < r@.len() ==> r@[k] < SLASH_COMMAND_COUNT,
{
    let p = chars_of(prefix);
    let mut out: Vec<usize> = Vec::new();
    let mut i: usize = 0;
    while i < SLASH_COMMAND_COUNT
        invariant
            i <= SLASH_COMMAND_COUNT,
            p@ == prefix@,
            matching_from(prefix@, i as int, out@) == matching_commands(prefix@),
            forall|k: int| 0 <= k < out@.len() ==> out@[k] < SLASH_COMMAND_COUNT,
        decreases SLASH_COMMAND_COUNT - i,
    {
        let name = chars_of(command_at(i).name);
        if starts_with(name.as_slice(), p.as_slice()) {
            out.push(i);
        }
        i += 1;
    }
    out
}

} // verus!
