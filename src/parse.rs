use vstd::prelude::*;

use crate::task::{Priority, Status};

verus! {

broadcast use vstd::string::to_string_from_display_ensures_for_str;

/// What `str::trim` gives on a text: the text without its leading and
/// trailing Unicode white space.
pub uninterp spec fn trimmed(s: Seq<char>) -> Seq<char>;

/// What `str::to_lowercase` gives on a text.
pub uninterp spec fn lower_of(s: Seq<char>) -> Seq<char>;

/// Relies on `str::trim`: the result depends on the characters alone.
#[verifier::external_body]
fn trim(s: &str) -> (r: &str)
    ensures
        r@ == trimmed(s@),
{
    s.trim()
}

/// Relies on `str::to_lowercase`: the result depends on the characters alone.
#[verifier::external_body]
fn lowercase(s: &str) -> (r: String)
    ensures
        r@ == lower_of(s@),
{
    s.to_lowercase()
}

/// The normal form in which words typed by a user are compared.
pub open spec fn normalized(s: Seq<char>) -> Seq<char> {
    lower_of(trimmed(s))
}

/// A caller's answer to a deletion prompt.
#[derive(Clone, Copy, Debug, PartialEq, Eq, Structural)]
pub enum Confirmation {
    Yes,
    No,
    Invalid,
}

/// The priority named by an exact, already normalised word.
pub open spec fn priority_named(w: Seq<char>) -> Option<Priority> {
    if w == "low"@ {
        Some(Priority::Low)
    } else if w == "medium"@ {
        Some(Priority::Medium)
    } else if w == "high"@ {
        Some(Priority::High)
    } else {
        None
    }
}

/// The status named by an exact, already normalised word.
pub open spec fn status_named(w: Seq<char>) -> Option<Status> {
    if w == "pending"@ {
        Some(Status::Pending)
    } else if w == "completed"@ {
        Some(Status::Completed)
    } else {
        None
    }
}

/// The answer named by an exact, already normalised word.
pub open spec fn confirmation_named(w: Seq<char>) -> Confirmation {
    if w == "yes"@ {
        Confirmation::Yes
    } else if w == "no"@ {
        Confirmation::No
    } else {
        Confirmation::Invalid
    }
}

/// Whether the text `a` is exactly the text `b`.
fn same_text(a: &String, b: &str) -> (r: bool)
    ensures
        r == (a@ == b@),
{
    let b = b.to_string();
    *a == b
}

/// The priority named by the normalised word `w`.
pub fn priority_of_word(w: &String) -> (r: Option<Priority>)
    ensures
        r == priority_named(w@),
{
    if same_text(w, "low") {
        Some(Priority::Low)
    } else if same_text(w, "medium") {
        Some(Priority::Medium)
    } else if same_text(w, "high") {
        Some(Priority::High)
    } else {
        None
    }
}

/// The status named by the normalised word `w`.
pub fn status_of_word(w: &String) -> (r: Option<Status>)
    ensures
        r == status_named(w@),
{
    if same_text(w, "pending") {
        Some(Status::Pending)
    } else if same_text(w, "completed") {
        Some(Status::Completed)
    } else {
        None
    }
}

/// The answer named by the normalised word `w`.
pub fn confirmation_of_word(w: &String) -> (r: Confirmation)
    ensures
        r == confirmation_named(w@),
{
    if same_text(w, "yes") {
        Confirmation::Yes
    } else if same_text(w, "no") {
        Confirmation::No
    } else {
        Confirmation::Invalid
    }
}

/// Reads a priority from user text, ignoring surrounding white space and case.
pub fn get_priority(priority: &str) -> (r: Option<Priority>)
    ensures
        r == priority_named(normalized(priority@)),
{
    let w = lowercase(trim(priority));
    priority_of_word(&w)
}

/// Reads a status from user text, ignoring surrounding white space and case.
pub fn get_status(status: &str) -> (r: Option<Status>)
    ensures
        r == status_named(normalized(status@)),
{
    let w = lowercase(trim(status));
    status_of_word(&w)
}

/// Reads both a priority and a status; `None` unless both are recognised.
pub fn get_priority_and_status(priority: &str, status: &str) -> (r: Option<(Priority, Status)>)
    ensures
        r == (match (priority_named(normalized(priority@)), status_named(normalized(status@))) {
            (Some(p), Some(s)) => Some((p, s)),
            _ => None,
        }),
{
    let p = get_priority(priority)?;
    let s = get_status(status)?;
    Some((p, s))
}

/// Reads a deletion answer from user text, ignoring surrounding white space
/// and case: "yes", "no", or anything else.
pub fn parse_confirmation(answer: &str) -> (r: Confirmation)
    ensures
        r == confirmation_named(normalized(answer@)),
{
    let w = lowercase(trim(answer));
    confirmation_of_word(&w)
}

} // verus!
