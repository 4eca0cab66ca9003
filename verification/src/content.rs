//! What is made of a fetched page: the HTML without scripts, styles, frames
//! and `noscript` blocks; its Markdown form; and the request and reply texts
//! of the OpenAI summary.

use vstd::prelude::*;
use vstd::string::StringExecFns;
use crate::text::{chars_of, newlines_to_br, replace_newlines, text_of, trim_chars, trimmed};

verus! {

/// What `regex::Regex::new(pattern)` and then `replace_all(text, replacement)`
/// give: `None` where the pattern does not compile.
pub uninterp spec fn regex_replace_all(pattern: Seq<char>, text: Seq<char>, replacement: Seq<char>) -> Option<Seq<char>>;

/// What an `htmd` converter that skips `skip_tags` makes of `html`.
pub uninterp spec fn htmd_markdown(skip_tags: Seq<Seq<char>>, html: Seq<char>) -> Seq<char>;

/// `regex::Regex::new` followed by `Regex::replace_all`. The contract claims
/// only that the result is the named one; the regex engine's semantics are
/// left unsaid.
#[verifier::external_body]
fn regex_replace(pattern: &str, text: &str, replacement: &str) -> (r: Option<String>)
    ensures
        match r {
            Some(s) => regex_replace_all(pattern@, text@, replacement@) == Some(s@),
            None => regex_replace_all(pattern@, text@, replacement@) is None,
        },
{
    match regex::Regex::new(pattern) {
        Ok(re) => Some(re.replace_all(text, replacement).to_string()),
        Err(_) => None,
    }
}

/// `htmd::HtmlToMarkdown::builder().skip_tags(..).build().convert(..)`. The
/// contract claims that the conversion succeeds (in this version of `htmd`,
/// `convert` always returns `Ok`) with the named Markdown; the error's text
/// would be handed back otherwise.
#[verifier::external_body]
fn htmd_convert(skip_tags: &[&str], html: &str) -> (r: Result<String, String>)
    ensures
        r is Ok,
        r matches Ok(md) ==> md@ == htmd_markdown(skip_tags@.map_values(|t: &str| t@), html@),
{
    let converter = htmd::HtmlToMarkdown::builder().skip_tags(skip_tags.to_vec()).build();
    converter.convert(html).map_err(|e| e.to_string())
}

/// The tags whose elements carry no page text.
pub open spec fn noise_tags() -> Seq<Seq<char>> {
    seq!["script"@, "style"@, "iframe"@, "noscript"@]
}

/// The pattern that matches one element `tag`, attributes and content
/// included, case-insensitively and across lines, up to its first closing tag.
pub open spec fn element_pattern(tag: Seq<char>) -> Seq<char> {
    "(?is)<"@ + tag + "[^>]*>.*?</"@ + tag + ">"@
}

/// `html` with the elements of each of `tags` removed, one tag after the other.
pub open spec fn strip_elements(tags: Seq<Seq<char>>, html: Seq<char>) -> Option<Seq<char>>
    decreases tags.len(),
{
    if tags.len() == 0 {
        Some(html)
    } else {
        match strip_elements(tags.drop_last(), html) {
            Some(t) => regex_replace_all(element_pattern(tags.last()), t, ""@),
            None => None,
        }
    }
}

/// The pattern that removes the elements `tag`.
pub fn element_pattern_for(tag: &str) -> (r: String)
    ensures
        r@ == element_pattern(tag@),
{
    String::from_str("(?is)<").concat(tag).concat("[^>]*>.*?</").concat(tag).concat(">")
}

/// Removes `script`, `style`, `iframe` and `noscript` elements from `html`;
/// `None` only where one of their patterns failed to compile.
pub fn clean_html(html: &str) -> (r: Option<String>)
    ensures
        match r {
            Some(s) => strip_elements(noise_tags(), html@) == Some(s@),
            None => strip_elements(noise_tags(), html@) is None,
        },
{
    let tags: [&str; 4] = ["script", "style", "iframe", "noscript"];
    assert(tags@.map_values(|t: &str| t@) =~= noise_tags());
    let mut cleaned = String::from_str(html);
    let mut k: usize = 0;
    while k < 4
        invariant
            k <= 4,
            tags@.map_values(|t: &str| t@) == noise_tags(),
            strip_elements(noise_tags().take(k as int), html@) == Some(cleaned@),
        decreases 4 - k,
    {
        assert(noise_tags().take(k + 1).drop_last() =~= noise_tags().take(k as int));
        assert(noise_tags().take(k + 1).last() == tags[k as int]@);
        let pattern = element_pattern_for(tags[k]);
        match regex_replace(pattern.as_str(), cleaned.as_str(), "") {
            Some(next) => {
                cleaned = next;
            },
            None => {
                assert(strip_elements(noise_tags().take(k + 1), html@) is None);
                assert forall|j: int| k + 1 <= j <= 4 implies strip_elements(noise_tags().take(j), html@) is None by {
                    lemma_strip_none_extends(noise_tags(), html@, k + 1, j);
                }
                assert(noise_tags().take(4) =~= noise_tags());
                return None;
            },
        }
        k = k + 1;
    }
    assert(noise_tags().take(4) =~= noise_tags());
    Some(cleaned)
}

/// Once stripping fails on a prefix of the tags, it fails on every longer prefix.
proof fn lemma_strip_none_extends(tags: Seq<Seq<char>>, html: Seq<char>, i: int, j: int)
    requires
        0 <= i <= j <= tags.len(),
        strip_elements(tags.take(i), html) is None,
    ensures
        strip_elements(tags.take(j), html) is None,
    decreases j - i,
{
    if j > i {
        lemma_strip_none_extends(tags, html, i, j - 1);
        assert(tags.take(j).drop_last() =~= tags.take(j - 1));
    }
}

/// The Markdown answer for a page: the converted Markdown with each newline
/// written `<br>` and the ends trimmed.
pub open spec fn markdown_text(html: Seq<char>) -> Seq<char> {
    trimmed(newlines_to_br(htmd_markdown(noise_tags(), html)))
}

/// Converts a page to Markdown, skipping the same four tags, then writes
/// newlines as `<br>` and trims; a conversion error would be reported as
/// `Failed to convert HTML to Markdown: <error>`.
pub fn markdown_for(html: &str) -> (r: Result<String, String>)
    ensures
        r is Ok,
        r matches Ok(md) ==> md@ == markdown_text(html@),
{
    let tags: [&str; 4] = ["script", "style", "iframe", "noscript"];
    assert(tags@.map_values(|t: &str| t@) =~= noise_tags());
    match htmd_convert(tags.as_slice(), html) {
        Ok(md) => {
            let cs = chars_of(md.as_str());
            let with_br = replace_newlines(cs.as_slice());
            let trimmed_chars = trim_chars(with_br.as_slice());
            Ok(text_of(trimmed_chars.as_slice()))
        },
        Err(e) => Err(String::from_str("Failed to convert HTML to Markdown: ").concat(e.as_str())),
    }
}

/// The prompt that opens the summary request when the caller gave none.
pub open spec fn default_prompt() -> Seq<char> {
    "Summarize the following HTML content:"@
}

/// The user message sent for a summary: the prompt (or the default one when
/// it is empty), a blank line, `HTML:` and the cleaned page.
pub open spec fn summary_request_text(prompt: Seq<char>, cleaned_html: Seq<char>) -> Seq<char> {
    (if prompt.len() == 0 { default_prompt() } else { prompt }) + "\n\nHTML:\n"@ + cleaned_html
}

/// Builds the user message of the summary request.
pub fn summary_request(prompt: &str, cleaned_html: &str) -> (r: String)
    ensures
        r@ == summary_request_text(prompt@, cleaned_html@),
{
    let head = if prompt.is_empty() {
        String::from_str("Summarize the following HTML content:")
    } else {
        String::from_str(prompt)
    };
    head.concat("\n\nHTML:\n").concat(cleaned_html)
}

/// What the summary call came to.
pub enum SummaryOutcome {
    /// `OPENAI_API_KEY` is not set.
    MissingKey,
    /// The request could not be sent; the error's text.
    SendFailed(String),
    /// The reply was not JSON; the error's text.
    BadJson(String),
    /// The reply's `choices[0].message.content`.
    Answer(String),
    /// A reply without that field; its pretty-printed JSON.
    Unexpected(String),
}

/// The summary text, or the message of the internal error that ends the request.
pub open spec fn summary_result(o: SummaryOutcome) -> Result<Seq<char>, Seq<char>> {
    match o {
        SummaryOutcome::MissingKey => Err("OPENAI_API_KEY must be set"@),
        SummaryOutcome::SendFailed(e) => Err("OpenAI send error: "@ + e@),
        SummaryOutcome::BadJson(e) => Err("OpenAI json error: "@ + e@),
        SummaryOutcome::Answer(a) => Ok(a@),
        SummaryOutcome::Unexpected(dump) => Ok("OpenAI API error or unexpected response: "@ + dump@),
    }
}

/// Turns the outcome of the summary call into the summary text or an error message.
pub fn summary_reply(o: SummaryOutcome) -> (r: Result<String, String>)
    ensures
        match (r, summary_result(o)) {
            (Ok(s), Ok(t)) => s@ == t,
            (Err(s), Err(t)) => s@ == t,
            _ => false,
        },
{
    match o {
        SummaryOutcome::MissingKey => Err(String::from_str("OPENAI_API_KEY must be set")),
        SummaryOutcome::SendFailed(e) => Err(String::from_str("OpenAI send error: ").concat(e.as_str())),
        SummaryOutcome::BadJson(e) => Err(String::from_str("OpenAI json error: ").concat(e.as_str())),
        SummaryOutcome::Answer(a) => Ok(a),
        SummaryOutcome::Unexpected(dump) => Ok(String::from_str("OpenAI API error or unexpected response: ").concat(dump.as_str())),
    }
}

} // verus!
