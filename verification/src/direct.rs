//! The rule by which a page fetched over plain HTTP is accepted or refused.

use vstd::prelude::*;
use vstd::string::StringExecFns;
use crate::text::{chars_of, contains_exec, contains_text, trim_bounds, trimmed};

verus! {

/// What `str::to_lowercase` returns for `s`.
pub uninterp spec fn lowercase(s: Seq<char>) -> Seq<char>;

/// What the `Display` text of an HTTP status code is (`"404 Not Found"`).
pub uninterp spec fn status_display(code: u16) -> Seq<char>;

/// `c` with an ASCII capital letter made small.
pub open spec fn ascii_lower(c: char) -> char {
    if 'A' <= c && c <= 'Z' {
        ((c as u32) + 32) as char
    } else {
        c
    }
}

/// `str::to_lowercase`: the contract claims that the result is the named
/// lowercase form of `s`, and that for text of ASCII characters only it is
/// the text with each capital letter made small (the Unicode lowercase of an
/// ASCII character); for other text, what that form is, Unicode's case
/// tables say.
#[verifier::external_body]
pub(crate) fn to_lowercase(s: &str) -> (r: String)
    ensures
        r@ == lowercase(s@),
        (forall|i: int| 0 <= i < s@.len() ==> (#[trigger] s@[i] as u32) < 128) ==> r@ == s@.map_values(|c: char| ascii_lower(c)),
{
    s.to_lowercase()
}

/// `reqwest::StatusCode::from_u16` and its `Display`: for a code in
/// `100..=999` (the codes `from_u16` accepts) the result is the named
/// display text of the code; which reason phrase it holds is left unsaid.
#[verifier::external_body]
fn status_text(code: u16) -> (r: String)
    requires
        100 <= code <= 999,
    ensures
        r@ == status_display(code),
{
    match reqwest::StatusCode::from_u16(code) {
        Ok(status) => status.to_string(),
        Err(_) => String::new(),
    }
}

/// A status in `200..=299`, as `StatusCode::is_success` has it.
pub open spec fn is_success_status(code: u16) -> bool {
    200 <= code && code < 300
}

/// What the plain HTTP fetch of a page came to.
pub enum DirectOutcome {
    /// The request could not be sent; the error's text.
    SendFailed(String),
    /// The response came but its body could not be read; the error's text.
    BodyFailed(String),
    /// A response with its status code (in `100..=999`) and body.
    Received { status: u16, body: String },
}

/// The markers whose presence in the lowercased body marks a block page.
pub open spec fn blocked_markers() -> Seq<Seq<char>> {
    seq!["access denied"@, "captcha"@, "blocked"@, "cloudflare"@]
}

/// A lowercased body that names one of the markers, or that is all white space.
pub open spec fn looks_blocked(lower: Seq<char>) -> bool {
    ||| exists|k: int| 0 <= k < blocked_markers().len() && contains_text(lower, #[trigger] blocked_markers()[k])
    ||| trimmed(lower).len() == 0
}

/// The result of a plain fetch: the body, or the error text.
pub open spec fn direct_result(o: DirectOutcome) -> Result<Seq<char>, Seq<char>> {
    match o {
        DirectOutcome::SendFailed(e) => Err("Direct fetch error: "@ + e@),
        DirectOutcome::BodyFailed(e) => Err("Direct fetch body error: "@ + e@),
        DirectOutcome::Received { status, body } => {
            if !is_success_status(status) {
                Err("Direct fetch HTTP error: "@ + status_display(status))
            } else if looks_blocked(lowercase(body@)) {
                Err("Blocked or invalid content detected"@)
            } else {
                Ok(body@)
            }
        },
    }
}

/// Whether a lowercased body looks like a block page or holds nothing.
pub fn is_blocked_page(lower: &str) -> (r: bool)
    ensures
        r == looks_blocked(lower@),
{
    let l = chars_of(lower);
    let markers = [chars_of("access denied"), chars_of("captcha"), chars_of("blocked"), chars_of("cloudflare")];
    assert(blocked_markers()[0] == markers[0]@);
    assert(blocked_markers()[1] == markers[1]@);
    assert(blocked_markers()[2] == markers[2]@);
    assert(blocked_markers()[3] == markers[3]@);
    let mut k: usize = 0;
    while k < 4
        invariant
            k <= 4,
            l@ == lower@,
            forall|j: int| 0 <= j < 4 ==> #[trigger] blocked_markers()[j] == markers[j]@,
            forall|j: int| 0 <= j < k ==> !contains_text(lower@, #[trigger] blocked_markers()[j]),
        decreases 4 - k,
    {
        if contains_exec(l.as_slice(), markers[k].as_slice()) {
            assert(contains_text(lower@, blocked_markers()[k as int]));
            return true;
        }
        k = k + 1;
    }
    let (start, end) = trim_bounds(l.as_slice());
    start == end
}

/// Accepts or refuses what a plain HTTP fetch brought back: send and body
/// errors are reported with their stage, a status outside `200..=299` with
/// the status, and a block page (or an all-white-space body) as such.
pub fn fetch_direct(outcome: DirectOutcome) -> (r: Result<String, String>)
    requires
        outcome matches DirectOutcome::Received { status, .. } ==> 100 <= status <= 999,
    ensures
        match (r, direct_result(outcome)) {
            (Ok(s), Ok(t)) => s@ == t,
            (Err(s), Err(t)) => s@ == t,
            _ => false,
        },
{
    match outcome {
        DirectOutcome::SendFailed(e) => Err(String::from_str("Direct fetch error: ").concat(e.as_str())),
        DirectOutcome::BodyFailed(e) => Err(String::from_str("Direct fetch body error: ").concat(e.as_str())),
        DirectOutcome::Received { status, body } => {
            if !(200 <= status && status < 300) {
                let text = status_text(status);
                return Err(String::from_str("Direct fetch HTTP error: ").concat(text.as_str()));
            }
            let lower = to_lowercase(body.as_str());
            if is_blocked_page(lower.as_str()) {
                return Err(String::from_str("Blocked or invalid content detected"));
            }
            Ok(body)
        },
    }
}

} // verus!
