use vstd::prelude::*;

use crate::form::FormState;
use crate::form::SubmissionPayload;

verus! {

/// The quoted, escaped rendering that Rust's `Debug` formatting gives a
/// string: the characters between two quote marks, with quotes, backslashes
/// and unprintable characters escaped.
pub uninterp spec fn debug_of(s: Seq<char>) -> Seq<char>;

/// Relies on the `Debug` impl for `str`, through `format!("{:?}", ..)`:
/// the quoted, escaped rendering depends on the characters alone.
#[verifier::external_body]
fn debug_quote(s: &str) -> (r: String)
    ensures
        r@ == debug_of(s@),
{
    format!("{:?}", s)
}

/// The single text frame sent over the socket: the three field values,
/// each debug-quoted, joined by commas.
pub open spec fn socket_frame_spec(u: Seq<char>, r: Seq<char>, v: Seq<char>) -> Seq<char> {
    debug_of(u) + ","@ + debug_of(r) + ","@ + debug_of(v)
}

/// Encode a submission snapshot as the socket frame.
pub fn socket_frame(p: &SubmissionPayload) -> (m: String)
    ensures
        m@ == socket_frame_spec(p.username@, p.rating@, p.review@),
{
    let mut m = debug_quote(p.username.as_str());
    m.append(",");
    let quoted_rating = debug_quote(p.rating.as_str());
    m.append(quoted_rating.as_str());
    m.append(",");
    let quoted_review = debug_quote(p.review.as_str());
    m.append(quoted_review.as_str());
    m
}

/// The paragraph that echoes the last captured values: each field value
/// debug-quoted behind its label.
pub open spec fn display_line_spec(u: Seq<char>, r: Seq<char>, v: Seq<char>) -> Seq<char> {
    "Username: "@ + debug_of(u) + " Rating: "@ + debug_of(r) + " Review: "@ + debug_of(v)
}

/// Render the echo paragraph for the current field state.
pub fn display_line(s: &FormState) -> (t: String)
    ensures
        t@ == display_line_spec(s.username@, s.rating@, s.review@),
{
    let mut t = String::from_str("Username: ");
    let quoted_username = debug_quote(s.username.as_str());
    t.append(quoted_username.as_str());
    t.append(" Rating: ");
    let quoted_rating = debug_quote(s.rating.as_str());
    t.append(quoted_rating.as_str());
    t.append(" Review: ");
    let quoted_review = debug_quote(s.review.as_str());
    t.append(quoted_review.as_str());
    t
}

/// The socket frame is a function of the three field values alone: two
/// submissions that agree on the fields produce the same frame, whatever
/// else differs between them.
pub proof fn lemma_socket_frame_deterministic(
    u1: Seq<char>,
    r1: Seq<char>,
    v1: Seq<char>,
    u2: Seq<char>,
    r2: Seq<char>,
    v2: Seq<char>,
)
    requires
        u1 == u2,
        r1 == r2,
        v1 == v2,
    ensures
        socket_frame_spec(u1, r1, v1) == socket_frame_spec(u2, r2, v2),
{
}

} // verus!
