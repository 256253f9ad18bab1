use vstd::prelude::*;
use vstd::string::StringExecFns;

use crate::text::same_text;

verus! {

/// The command stored under the per-user `Run` key: the engine's path in
/// double quotes, so that spaces in it survive.
pub open spec fn quoted(path: Seq<char>) -> Seq<char> {
    seq!['"'] + path + seq!['"']
}

pub fn command_line(engine_path: &str) -> (command: String)
    ensures
        command@ == quoted(engine_path@),
{
    let quote = "\"";
    proof {
        reveal_strlit("\"");
    }
    let mut command = String::new();
    command.append(quote);
    command.append(engine_path);
    command.append(quote);
    command
}

/// How many characters a registry string of `size_bytes` bytes holds: two
/// bytes each, less the terminating zero.
pub fn stored_characters(size_bytes: u32) -> (characters: usize)
    ensures
        characters == (if size_bytes / 2 >= 1 {
            size_bytes / 2 - 1
        } else {
            0
        }),
{
    let half = (size_bytes / 2) as usize;
    half.saturating_sub(1)
}

/// Autostart is rewritten when it is on but names another command than the
/// one expected; it is left alone when it is off.
pub fn needs_repair(current: Option<&str>, expected: &str) -> (repair: bool)
    ensures
        repair == match current {
            Some(c) => c@ != expected@,
            None => false,
        },
{
    match current {
        Some(c) => !same_text(c, expected),
        None => false,
    }
}

} // verus!
