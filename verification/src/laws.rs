//! Properties that span several calls of the library.

use vstd::prelude::*;
use crate::cache::{file_to_read, page_file_name, page_file_path, CacheRow};
use crate::path::joined;
use crate::cache::day_dir;
use crate::encoding::lemma_base64_injective;
use vstd::string::StringSliceAdditionalSpecFns;
use crate::content::markdown_text;
use crate::lifecycle::REQUESTS_PER_BROWSER;
use crate::pool::ContextPool;
use crate::retry::{loads_again, PageResult, MAX_ATTEMPTS};
use crate::text::{is_white_space, lemma_newlines_to_br_one_line, lemma_trimmed_piece, trimmed, lemma_trimmed_empty_iff_white_space, newlines_to_br};
use crate::retry::is_timeout_error;
use crate::direct::{direct_result, lowercase, status_display, DirectOutcome};
use crate::client::{output_choice, ClientOutput};
use crate::extract::{processed, ExtractResponse, ExtractAction, ExtractRequest, FetchSource, ExtractStage};
use crate::content::{element_pattern, htmd_markdown, noise_tags, regex_replace_all, strip_elements};

verus! {

/// The request count after one more request: it starts over on reaching ten.
pub open spec fn count_after_request(count: nat) -> nat {
    (count + 1) % (REQUESTS_PER_BROWSER as nat)
}

/// The request count after `k` more requests.
pub open spec fn count_after_requests(count: nat, k: nat) -> nat
    decreases k,
{
    if k == 0 {
        count
    } else {
        count_after_request(count_after_requests(count, (k - 1) as nat))
    }
}

/// How many of `k` more requests relaunch the browser (those that bring the
/// count back to zero).
pub open spec fn relaunches_in(count: nat, k: nat) -> nat
    decreases k,
{
    if k == 0 {
        0
    } else {
        relaunches_in(count, (k - 1) as nat) + if count_after_requests(count, k) == 0 { 1nat } else { 0nat }
    }
}

/// Starting from `count` requests since the last launch, `k` more requests
/// leave `(count + k) mod 10` requests counted and relaunch the browser
/// `(count + k) div 10` times: once every ten requests.
pub proof fn law_relaunch_every_ten_requests(count: nat, k: nat)
    requires
        count < REQUESTS_PER_BROWSER,
    ensures
        count_after_requests(count, k) == (count + k) % 10,
        relaunches_in(count, k) == (count + k) / 10,
    decreases k,
{
    if k > 0 {
        law_relaunch_every_ten_requests(count, (k - 1) as nat);
        let c = count + k;
        assert(((c - 1) % 10 + 1) % 10 == c % 10) by (nonlinear_arith)
            requires c >= 1;
        assert(((c - 1) % 10 + 1) % 10 == 0 <==> (c - 1) / 10 + 1 == c / 10) by (nonlinear_arith)
            requires c >= 1;
        assert(((c - 1) % 10 + 1) % 10 != 0 <==> (c - 1) / 10 == c / 10) by (nonlinear_arith)
            requires c >= 1;
    }
}

/// A page stored today is found by a lookup made the same day, in the file
/// it was written to; a lookup on another day finds nothing.
pub proof fn law_stored_page_found_same_day(row: CacheRow, day: Seq<char>)
    ensures
        file_to_read(Some(row), row.date@) == Some(row.file_path@),
        day != row.date@ ==> file_to_read(Some(row), day) is None,
        file_to_read(None, day) is None,
{
}

/// A context given back to the pool is the next one lent out, and lending it
/// leaves the pool as it was before.
pub proof fn law_pool_gives_back_last_returned<T>(pool: ContextPool<T>, context: T)
    ensures
        pool@.push(context).len() > 0,
        pool@.push(context).last() == context,
        pool@.push(context).drop_last() == pool@,
{
    assert(pool@.push(context).drop_last() =~= pool@);
}

/// A trimmed text is a piece of the text and neither starts nor ends with
/// white space.
pub proof fn law_trimmed_has_no_outer_white_space(s: Seq<char>)
    ensures
        exists|i: int, j: int| 0 <= i <= j <= s.len() && trimmed(s) == s.subrange(i, j),
        trimmed(s).len() > 0 ==> !is_white_space(trimmed(s)[0]) && !is_white_space(trimmed(s).last()),
{
    lemma_trimmed_piece(s);
}

/// The Markdown answer is a single line: each newline became `<br>`, and
/// it starts and ends with no white space.
pub proof fn law_markdown_is_one_line(html: Seq<char>)
    ensures
        forall|i: int| 0 <= i < markdown_text(html).len() ==> markdown_text(html)[i] != '\n',
        markdown_text(html).len() > 0 ==> !is_white_space(markdown_text(html)[0])
            && !is_white_space(markdown_text(html).last()),
{
    let md = crate::content::htmd_markdown(crate::content::noise_tags(), html);
    let br = crate::text::newlines_to_br(md);
    lemma_newlines_to_br_one_line(md);
    lemma_trimmed_piece(br);
    let (i, j) = choose|i: int, j: int| 0 <= i <= j <= br.len() && trimmed(br) == br.subrange(i, j);
    assert forall|k: int| 0 <= k < markdown_text(html).len() implies markdown_text(html)[k] != '\n' by {
        assert(markdown_text(html)[k] == br[i + k]);
    }
}

/// The loads one request makes when the loads from number `made + 1` on
/// give `results`, one after the other.
pub open spec fn loads_made(results: Seq<PageResult>, made: nat) -> nat
    decreases results.len(),
{
    if results.len() == 0 {
        made
    } else if loads_again(made + 1, results[0]) {
        loads_made(results.drop_first(), made + 1)
    } else {
        made + 1
    }
}

/// Whatever the loads give, a request makes at most three of them.
pub proof fn law_at_most_three_loads(results: Seq<PageResult>, made: nat)
    requires
        made < MAX_ATTEMPTS,
    ensures
        loads_made(results, made) <= MAX_ATTEMPTS,
    decreases results.len(),
{
    if results.len() > 0 && loads_again(made + 1, results[0]) {
        law_at_most_three_loads(results.drop_first(), made + 1);
    }
}

/// A page stored by `cache_entry_for` on a day is found by a lookup on the
/// same day, in the file it was written to.
pub proof fn law_cache_hit_after_store(sep: char, base_cache_dir: Seq<char>, today: Seq<char>, url: &str, row: CacheRow)
    requires
        row.url@ == url@,
        row.date@ == today,
        row.file_path@ == page_file_path(sep, base_cache_dir, today, url),
    ensures
        file_to_read(Some(row), today) == Some(page_file_path(sep, base_cache_dir, today, url)),
{
}

/// Two different URLs are cached in two different files on the same day:
/// their UTF-8 bytes differ, their base64 names differ, and so do the paths.
pub proof fn law_distinct_urls_distinct_files(sep: char, base_cache_dir: Seq<char>, today: Seq<char>, u1: &str, u2: &str)
    requires
        u1@ != u2@,
    ensures
        page_file_name(u1) != page_file_name(u2),
        page_file_path(sep, base_cache_dir, today, u1) != page_file_path(sep, base_cache_dir, today, u2),
{
    broadcast use vstd::utf8::encode_utf8_decode_utf8;
    let b1 = u1.spec_bytes();
    let b2 = u2.spec_bytes();
    assert(vstd::utf8::decode_utf8(b1) == u1@);
    assert(vstd::utf8::decode_utf8(b2) == u2@);
    assert(b1 != b2);
    let e1 = crate::encoding::base64_url_no_pad(b1);
    let e2 = crate::encoding::base64_url_no_pad(b2);
    if e1 == e2 {
        lemma_base64_injective(b1, b2);
    }
    let n1 = page_file_name(u1);
    let n2 = page_file_name(u2);
    assert(n1 == e1 + ".html"@);
    assert(n2 == e2 + ".html"@);
    if n1 == n2 {
        assert(n1.len() == e1.len() + ".html"@.len());
        assert(e1.len() == e2.len());
        assert(e1 =~= n1.subrange(0, e1.len() as int));
        assert(e2 =~= n2.subrange(0, e2.len() as int));
    }
    let d = crate::cache::day_dir(sep, base_cache_dir, today);
    let p1 = joined(sep, d, n1);
    let p2 = joined(sep, d, n2);
    if p1 == p2 {
        let k = p1.len() - n1.len();
        assert(n1 =~= p1.subrange(k, p1.len() as int));
        assert(n2 =~= p2.subrange(k, p2.len() as int));
    }
}

/// Two calls made for the same base directory, day and separator, one
/// finding the day's directory for its index and one storing a page, use the
/// same directory and the same index database.
pub proof fn law_one_directory_per_day(sep: char, base_cache_dir: Seq<char>, today: Seq<char>, first: Seq<char>, second: Seq<char>)
    requires
        first == day_dir(sep, base_cache_dir, today),
        second == day_dir(sep, base_cache_dir, today),
    ensures
        first == second,
        joined(sep, first, "cache.db"@) == joined(sep, second, "cache.db"@),
{
}

/// `needle` stands in `hay` starting at some position.
pub open spec fn occurs_somewhere(hay: Seq<char>, needle: Seq<char>) -> bool {
    exists|i: int| 0 <= i && i + needle.len() <= hay.len() && #[trigger] hay.subrange(i, i + needle.len()) == needle
}

/// `contains_text` says that the needle stands at some position.
proof fn lemma_contains_is_occurs(hay: Seq<char>, needle: Seq<char>)
    ensures
        crate::text::contains_text(hay, needle) <==> occurs_somewhere(hay, needle),
{
    if crate::text::contains_text(hay, needle) {
        let i = choose|i: int| crate::text::occurs_at(hay, needle, i);
        assert(hay.subrange(i, i + needle.len()) == needle);
    }
    if occurs_somewhere(hay, needle) {
        let i = choose|i: int| 0 <= i && i + needle.len() <= hay.len() && #[trigger] hay.subrange(i, i + needle.len()) == needle;
        assert(crate::text::occurs_at(hay, needle, i));
    }
}

/// An error counts as a timeout exactly when its lowercase form holds
/// `timeout` at some position, wherever that is.
pub proof fn law_timeout_found_anywhere(e: Seq<char>)
    ensures
        is_timeout_error(e) <==> occurs_somewhere(lowercase(e), "timeout"@),
{
    lemma_contains_is_occurs(lowercase(e), "timeout"@);
}

/// A load that is not the last of a request and failed with an error that
/// holds `timeout` anywhere (in any letter case) is followed by a relaunch
/// and another load; a load that succeeded, or failed otherwise, never is,
/// and neither is the third.
pub proof fn law_timed_out_load_is_retried(loads_made: nat, result: PageResult)
    ensures
        loads_again(loads_made, result) <==> (loads_made < 3 && (result matches Err(e) && occurs_somewhere(lowercase(e@), "timeout"@))),
{
    if let Err(e) = result {
        law_timeout_found_anywhere(e@);
    }
}

/// A page with a success status is refused as a block page exactly when its
/// lowercase body holds `access denied`, `captcha`, `blocked` or `cloudflare`
/// at some position, or is white space only; otherwise the body is accepted
/// as it came. A page with another status is refused with that status.
pub proof fn law_block_pages_refused(status: u16, body: String)
    ensures
        ({
            let lower = lowercase(body@);
            let blocked = occurs_somewhere(lower, "access denied"@) || occurs_somewhere(lower, "captcha"@)
                || occurs_somewhere(lower, "blocked"@) || occurs_somewhere(lower, "cloudflare"@)
                || (forall|i: int| 0 <= i < lower.len() ==> is_white_space(#[trigger] lower[i]));
            &&& (200 <= status < 300 && blocked) ==> direct_result(DirectOutcome::Received { status, body }) == Err::<Seq<char>, Seq<char>>("Blocked or invalid content detected"@)
            &&& (200 <= status < 300 && !blocked) ==> direct_result(DirectOutcome::Received { status, body }) == Ok::<Seq<char>, Seq<char>>(body@)
            &&& !(200 <= status < 300) ==> direct_result(DirectOutcome::Received { status, body }) == Err::<Seq<char>, Seq<char>>("Direct fetch HTTP error: "@ + status_display(status))
        }),
{
    let lower = lowercase(body@);
    lemma_trimmed_empty_iff_white_space(lower);
    let markers = crate::direct::blocked_markers();
    assert(markers[0] == "access denied"@ && markers[1] == "captcha"@ && markers[2] == "blocked"@ && markers[3] == "cloudflare"@);
    lemma_contains_is_occurs(lower, markers[0]);
    lemma_contains_is_occurs(lower, markers[1]);
    lemma_contains_is_occurs(lower, markers[2]);
    lemma_contains_is_occurs(lower, markers[3]);
    if crate::direct::looks_blocked(lower) && !(trimmed(lower).len() == 0) {
        let k = choose|k: int| 0 <= k < markers.len() && crate::text::contains_text(lower, #[trigger] markers[k]);
        assert(k == 0 || k == 1 || k == 2 || k == 3);
    }
}

/// What the client writes out: the error exactly when the server reported
/// one; the screenshot only when one was asked for and came (never an empty
/// one); the summary and the Markdown only when asked for and not empty, and
/// each only when nothing before it applies; the HTML when nothing else applies.
pub proof fn law_client_writes_what_came(response: ExtractResponse, take_screenshot: bool, use_openai: bool, output_md: bool)
    ensures
        ({
            let o = output_choice(&response, take_screenshot, use_openai, output_md);
            let failed = response.error@.len() > 0;
            let shot = take_screenshot && response.screenshot@.len() > 0;
            let summary = use_openai && response.openai_response@.len() > 0;
            let md = output_md && response.markdown@.len() > 0;
            &&& (o == ClientOutput::Failed) <==> failed
            &&& (o == ClientOutput::SaveScreenshot) <==> (!failed && shot)
            &&& (o == ClientOutput::PrintSummary) <==> (!failed && !shot && summary)
            &&& (o == ClientOutput::PrintMarkdown) <==> (!failed && !shot && !summary && md)
            &&& (o == ClientOutput::PrintHtml) <==> (!failed && !shot && !summary && !md)
        }),
{
}

/// A fetched page that needs no summary is answered with that page and that
/// screenshot, no summary and no error, from where it was fetched; asking
/// for Markdown only fills the Markdown field (with the page's Markdown), so
/// two such requests that differ only in `output_md` get answers that differ
/// only there.
pub proof fn law_markdown_changes_only_the_markdown(
    req: ExtractRequest,
    html: Seq<char>,
    shot: Seq<u8>,
    source: FetchSource,
    stage: ExtractStage,
    a: ExtractAction,
)
    requires
        processed(req, html, shot, source, stage, a),
        !req.use_openai,
        strip_elements(noise_tags(), html) is Some,
    ensures
        a matches ExtractAction::Respond { response, source: s } && {
            &&& s == source
            &&& response.html@ == html
            &&& response.screenshot@ == shot
            &&& response.openai_response@.len() == 0
            &&& response.error@.len() == 0
            &&& req.output_md ==> response.markdown@ == markdown_text(html)
            &&& !req.output_md ==> response.markdown@.len() == 0
        },
{
}

/// The Markdown is made by htmd told to skip `script`, `style`, `iframe` and
/// `noscript` (the same tags whose elements cleaning removes, in that order)
/// and then written on one line and trimmed.
pub proof fn law_noise_tags_are_skipped(html: Seq<char>)
    ensures
        markdown_text(html) == trimmed(newlines_to_br(htmd_markdown(seq!["script"@, "style"@, "iframe"@, "noscript"@], html))),
        strip_elements(noise_tags(), html) == match regex_replace_all(element_pattern("script"@), html, ""@) {
            None => None,
            Some(a) => match regex_replace_all(element_pattern("style"@), a, ""@) {
                None => None,
                Some(b) => match regex_replace_all(element_pattern("iframe"@), b, ""@) {
                    None => None,
                    Some(c) => regex_replace_all(element_pattern("noscript"@), c, ""@),
                },
            },
        },
{
    reveal_with_fuel(strip_elements, 5);
    let t = noise_tags();
    assert(t == seq!["script"@, "style"@, "iframe"@, "noscript"@]);
    assert(t.drop_last() =~= seq!["script"@, "style"@, "iframe"@]);
    assert(t.drop_last().drop_last() =~= seq!["script"@, "style"@]);
    assert(t.drop_last().drop_last().drop_last() =~= seq!["script"@]);
    assert(t.drop_last().drop_last().drop_last().drop_last() =~= Seq::<Seq<char>>::empty());
}

} // verus!
