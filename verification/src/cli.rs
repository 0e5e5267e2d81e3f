//! The command line: what it asks of a running instance, and the naming
//! of a new widget.

use crate::text::{joined, without_first};
use vstd::prelude::*;

verus! {

/// What the command line asks of a running instance.
pub enum Commands {
    /// Emit an event by name.
    Emit { event: String },
    /// Tell that the focused workspace changed.
    FocusChanged { focused: String, prev: Option<String> },
}

/// The parsed command line; without a command the application starts.
pub struct Cli {
    pub command: Option<Commands>,
}

/// The line sent to the running instance for a command: the event name
/// itself, or `focus-changed:` with the focused workspace and, after a
/// further colon, the previous one if it is known.
pub open spec fn ipc_command_spec(command: &Commands) -> Seq<char> {
    match command {
        Commands::Emit { event } => event@,
        Commands::FocusChanged { focused, prev } => match prev {
            Some(p) => "focus-changed:"@ + focused@ + ":"@ + p@,
            None => "focus-changed:"@ + focused@,
        },
    }
}

/// Builds the line that carries a command to the running instance.
pub fn ipc_command(command: &Commands) -> (r: String)
    ensures
        r@ == ipc_command_spec(command),
{
    match command {
        Commands::Emit { event } => event.clone(),
        Commands::FocusChanged { focused, prev } => {
            let mut line: String = joined("focus-changed:", focused.as_str());
            match prev {
                Some(p) => {
                    line.append(":");
                    line.append(p.as_str());
                },
                None => {},
            }
            line
        },
    }
}

impl Cli {
    /// The line to send, if the command line holds a command.
    pub fn message(&self) -> (r: Option<String>)
        ensures
            match r {
                Some(line) => self.command matches Some(c) && line@ == ipc_command_spec(&c),
                None => self.command is None,
            },
    {
        match &self.command {
            Some(c) => Some(ipc_command(c)),
            None => None,
        }
    }
}

/// The exit status after a command was handed over: 0 if it was, 1 if not.
pub fn exit_code(success: bool) -> (r: i32)
    ensures
        r == (if success {
            0i32
        } else {
            1i32
        }),
{
    if success {
        0
    } else {
        1
    }
}

/// The upper-case form of a character, which may be more than one character.
pub uninterp spec fn uppercase_of(c: char) -> Seq<char>;

/// `char::to_uppercase` of the standard library, collected into a text.
/// The contract only names the result: it is the upper-case mapping of
/// `c`, whatever the standard library's tables give for it.
#[verifier::external_body]
fn uppercase(c: char) -> (r: String)
    ensures
        r@ == uppercase_of(c),
{
    c.to_uppercase().collect()
}

/// The text with `upper_first` in place of its first character.
pub open spec fn capitalized(upper_first: Seq<char>, s: Seq<char>) -> Seq<char> {
    upper_first + s.skip(1)
}

/// Puts `upper_first` in place of the first character of a text that is
/// not empty; an empty text gives `upper_first` alone.
pub fn with_first_replaced(upper_first: &str, s: &str) -> (r: String)
    ensures
        r@ == (if s@.len() == 0 {
            upper_first@
        } else {
            capitalized(upper_first@, s@)
        }),
{
    match without_first(s, 1) {
        Some(rest) => joined(upper_first, rest),
        None => upper_first.to_owned(),
    }
}

/// The text with its first character in upper case; an empty text stays empty.
pub fn capitalize(s: &str) -> (r: String)
    ensures
        r@ == (if s@.len() == 0 {
            Seq::<char>::empty()
        } else {
            capitalized(uppercase_of(s@[0]), s@)
        }),
{
    if s.unicode_len() == 0 {
        return String::new();
    }
    let first: String = uppercase(s.get_char(0));
    with_first_replaced(first.as_str(), s)
}

} // verus!
