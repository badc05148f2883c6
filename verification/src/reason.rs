//! The reason that an exceptional punch status gives for an absence.

use vstd::prelude::*;

use crate::text::text_of;

verus! {

/// The leave tag: the word for leave, then the reason in round brackets.
pub const LEAVE_PATTERN: &'static str = "请假\\((.*?)\\)";

/// The reason under which two kinds of leave are entered together.
pub const NURSING_OR_BREAK_LEAVE: &'static str = "哺乳假/工间休息假";

/// The reason that a report shows in its place.
pub const NURSING_LEAVE: &'static str = "哺乳假";

/// What the first capture group holds in the match that the regex crate
/// finds for `pattern` in `text`. `None` where the pattern does not compile,
/// where nothing matches, and where the group took no part in the match.
pub uninterp spec fn first_group(pattern: Seq<char>, text: Seq<char>) -> Option<Seq<char>>;

/// Taken on trust from the regex crate: `Regex::new` compiles `pattern`,
/// `Regex::captures` searches `text`, and `Captures::get` hands out group 1
/// of the match. What is found depends on pattern and text alone and is left
/// to the crate.
#[verifier::external_body]
fn capture_first_group(pattern: &str, text: &str) -> (r: Option<String>)
    ensures
        text_of(r) == first_group(pattern@, text@),
{
    let re = match regex::Regex::new(pattern) {
        Ok(re) => re,
        Err(_) => return None,
    };
    match re.captures(text) {
        Some(found) => match found.get(1) {
            Some(group) => Some(group.as_str().to_string()),
            None => None,
        },
        None => None,
    }
}

/// The reason shown for a status in which the leave tag captured `capture`:
/// the captured text, with the joint nursing and break leave shortened to
/// nursing leave; the status itself where there is no leave tag.
pub open spec fn reason_from(status: Seq<char>, capture: Option<Seq<char>>) -> Seq<char> {
    match capture {
        Some(reason) => if reason == NURSING_OR_BREAK_LEAVE@ {
            NURSING_LEAVE@
        } else {
            reason
        },
        None => status,
    }
}

/// The reason shown for a status.
pub open spec fn reason_text(status: Seq<char>) -> Seq<char> {
    reason_from(status, first_group(LEAVE_PATTERN@, status))
}

/// The reason shown for `status`, given what the leave tag captured in it.
pub fn reason_from_capture(status: &str, capture: Option<String>) -> (r: String)
    ensures
        r@ == reason_from(status@, text_of(capture)),
{
    match capture {
        Some(reason) => {
            let joint = NURSING_OR_BREAK_LEAVE.to_owned();
            if reason == joint {
                NURSING_LEAVE.to_owned()
            } else {
                reason
            }
        },
        None => status.to_owned(),
    }
}

/// The reason shown for `status`: what stands in the brackets of its leave
/// tag, or the whole status where it has none.
pub fn extract_reason(status: &str) -> (r: String)
    ensures
        r@ == reason_text(status@),
{
    let capture = capture_first_group(LEAVE_PATTERN, status);
    reason_from_capture(status, capture)
}

} // verus!
