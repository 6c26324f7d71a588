use vstd::prelude::*;
use vstd::string::*;

use crate::command::KeyCode;

verus! {

/// What the terminal has to do after one key press in the file name prompt.
#[derive(Debug, Clone, Copy, PartialEq, Eq, Structural)]
pub enum PromptAction {
    /// Print this character at the cursor.
    Print(char),
    /// Step left, blank the cell, step left again.
    EraseLeft,
    /// The name is complete: go to the next line and stop prompting.
    Accept,
    /// The prompt was abandoned; the name is empty.
    Cancel,
    /// Nothing to do.
    Ignore,
}

/// Handles one key press while a file name is typed into `name`: characters
/// are added, Backspace removes the last one, Enter accepts a name that is
/// not empty and Escape abandons the prompt with an empty name.
pub fn prompt_step(name: &mut String, code: KeyCode) -> (r: PromptAction)
    ensures
        match code {
            KeyCode::Char(c) => final(name)@ == old(name)@.push(c) && r == PromptAction::Print(c),
            KeyCode::Backspace => {
                &&& final(name)@ == if old(name)@.len() > 0 {
                    old(name)@.drop_last()
                } else {
                    old(name)@
                }
                &&& r == PromptAction::EraseLeft
            },
            KeyCode::Enter => {
                &&& final(name)@ == old(name)@
                &&& r == if old(name)@.len() > 0 {
                    PromptAction::Accept
                } else {
                    PromptAction::Ignore
                }
            },
            KeyCode::Esc => final(name)@.len() == 0 && r == PromptAction::Cancel,
            _ => final(name)@ == old(name)@ && r == PromptAction::Ignore,
        },
{
    match code {
        KeyCode::Char(c) => {
            name.push(c);
            PromptAction::Print(c)
        },
        KeyCode::Backspace => {
            name.pop();
            PromptAction::EraseLeft
        },
        KeyCode::Enter => {
            if name.as_str().unicode_len() > 0 {
                PromptAction::Accept
            } else {
                PromptAction::Ignore
            }
        },
        KeyCode::Esc => {
            *name = String::new();
            PromptAction::Cancel
        },
        _ => PromptAction::Ignore,
    }
}

} // verus!
