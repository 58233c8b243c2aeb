//! How the window's visibility follows from the commands the host carries out.
use vstd::prelude::*;
use crate::events::Command;

verus! {

/// Visibility of a window that was `visible`, once the host has carried out
/// `commands` in order: `Show` makes it visible, `Hide` hidden, and the other
/// commands leave it as it was.
pub open spec fn visibility_after(visible: bool, commands: Seq<Command>) -> bool
    decreases commands.len(),
{
    if commands.len() == 0 {
        visible
    } else {
        let before = visibility_after(visible, commands.drop_last());
        match commands.last() {
            Command::Show => true,
            Command::Hide => false,
            _ => before,
        }
    }
}

/// How many times `command` occurs in `commands`.
pub open spec fn occurrences(commands: Seq<Command>, command: Command) -> nat
    decreases commands.len(),
{
    if commands.len() == 0 {
        0
    } else {
        occurrences(commands.drop_last(), command) + if commands.last() == command {
            1nat
        } else {
            0nat
        }
    }
}

/// Runs `commands` against a window that was `visible`, when the host carries
/// out every one of them, and returns whether the window is visible after.
pub fn apply_commands(visible: bool, commands: &Vec<Command>) -> (r: bool)
    ensures
        r == visibility_after(visible, commands@),
{
    let mut current = visible;
    let mut i: usize = 0;
    while i < commands.len()
        invariant
            i <= commands@.len(),
            current == visibility_after(visible, commands@.subrange(0, i as int)),
        decreases commands@.len() - i,
    {
        assert(commands@.subrange(0, i + 1).drop_last() =~= commands@.subrange(0, i as int));
        match commands[i] {
            Command::Show => {
                current = true;
            },
            Command::Hide => {
                current = false;
            },
            _ => {},
        }
        i = i + 1;
    }
    assert(commands@.subrange(0, commands@.len() as int) =~= commands@);
    current
}

} // verus!
