//! The lines a running instance receives on its control socket.

use crate::text::{equal, position_of, split_once, strip_prefix};
use vstd::prelude::*;

verus! {

/// What a received line asks for.
pub enum IpcRequest {
    /// The focused workspace changed.
    FocusChanged { focused: String, prev: Option<String> },
    /// The workspaces are to be read afresh.
    WorkspaceChanged,
    /// The line asks for nothing.
    Ignored,
}

/// The mathematical value of an `IpcRequest`.
pub enum IpcRequestView {
    FocusChanged { focused: Seq<char>, prev: Option<Seq<char>> },
    WorkspaceChanged,
    Ignored,
}

impl View for IpcRequest {
    type V = IpcRequestView;

    open spec fn view(&self) -> IpcRequestView {
        match self {
            IpcRequest::FocusChanged { focused, prev } => IpcRequestView::FocusChanged {
                focused: focused@,
                prev: match prev {
                    Some(p) => Some(p@),
                    None => None,
                },
            },
            IpcRequest::WorkspaceChanged => IpcRequestView::WorkspaceChanged,
            IpcRequest::Ignored => IpcRequestView::Ignored,
        }
    }
}

/// A text without the white space at its two ends.
pub uninterp spec fn trimmed(s: Seq<char>) -> Seq<char>;

/// `str::trim` of the standard library. The contract only names the
/// result: it is `s` without leading and trailing white space, as the
/// standard library defines white space.
#[verifier::external_body]
fn trim<'a>(s: &'a str) -> (r: &'a str)
    ensures
        r@ == trimmed(s@),
{
    s.trim()
}

/// What a focus change asks for, given its two fields with the white
/// space taken off: nothing if the focused workspace is not named; a
/// previous workspace only if it is named.
pub open spec fn focus_request(focused: Seq<char>, prev: Option<Seq<char>>) -> IpcRequestView {
    if focused.len() == 0 {
        IpcRequestView::Ignored
    } else {
        IpcRequestView::FocusChanged {
            focused,
            prev: match prev {
                Some(p) => if p.len() == 0 {
                    None
                } else {
                    Some(p)
                },
                None => None,
            },
        }
    }
}

pub open spec fn field_view(field: Option<&str>) -> Option<Seq<char>> {
    match field {
        Some(f) => Some(f@),
        None => None,
    }
}

/// Builds the request of a focus change from its two fields, which are
/// given with the white space at their ends taken off.
pub fn request_from_fields(focused: &str, prev: Option<&str>) -> (r: IpcRequest)
    ensures
        r@ == focus_request(focused@, field_view(prev)),
{
    if focused.unicode_len() == 0 {
        return IpcRequest::Ignored;
    }
    let prev: Option<String> = match prev {
        Some(p) => if p.unicode_len() == 0 {
            None
        } else {
            Some(p.to_owned())
        },
        None => None,
    };
    IpcRequest::FocusChanged { focused: focused.to_owned(), prev }
}

/// The first field of a text whose fields are separated by colons.
pub open spec fn first_field(s: Seq<char>) -> Seq<char> {
    s.take(position_of(s, ':'))
}

/// The second field, if the text has a colon.
pub open spec fn second_field(s: Seq<char>) -> Option<Seq<char>> {
    if position_of(s, ':') < s.len() {
        Some(first_field(s.skip(position_of(s, ':') + 1)))
    } else {
        None
    }
}

pub open spec fn trimmed_field(field: Option<Seq<char>>) -> Option<Seq<char>> {
    match field {
        Some(f) => Some(trimmed(f)),
        None => None,
    }
}

/// What a line asks for.
///
/// After `focus-changed:` come the focused workspace and, behind a colon,
/// the previous one; white space around either is dropped and further
/// fields are not read. The line `workspace-changed` asks for a fresh
/// reading. Every other line asks for nothing.
pub open spec fn request_spec(command: Seq<char>) -> IpcRequestView {
    if "focus-changed:"@.is_prefix_of(command) {
        let rest = command.skip("focus-changed:"@.len() as int);
        focus_request(trimmed(first_field(rest)), trimmed_field(second_field(rest)))
    } else if command == "workspace-changed"@ {
        IpcRequestView::WorkspaceChanged
    } else {
        IpcRequestView::Ignored
    }
}

/// Reads a line received from the command line.
pub fn parse_command(command: &str) -> (r: IpcRequest)
    ensures
        r@ == request_spec(command@),
{
    match strip_prefix(command, "focus-changed:") {
        Some(rest) => {
            let (first, after) = split_once(rest, ':');
            let focused: &str = trim(first);
            match after {
                Some(more) => {
                    let (second, _) = split_once(more, ':');
                    request_from_fields(focused, Some(trim(second)))
                },
                None => request_from_fields(focused, None),
            }
        },
        None => {
            if equal(command, "workspace-changed") {
                IpcRequest::WorkspaceChanged
            } else {
                IpcRequest::Ignored
            }
        },
    }
}

} // verus!
