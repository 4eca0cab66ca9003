//! The decisions of one extraction request, as a state machine that the
//! service shell drives: it performs each action (a cache lookup, the fetch
//! race, a cache write, the summary call) and hands back what came of it.

use vstd::prelude::*;
use crate::content::{
    clean_html, markdown_for, markdown_text, noise_tags, strip_elements, summary_reply,
    summary_request, summary_request_text, summary_result, SummaryOutcome,
};
use crate::lifecycle::{BrowserLifecycle, REQUESTS_PER_BROWSER};
use crate::retry::PageResult;

verus! {

/// What a caller asks for.
pub struct ExtractRequest {
    pub url: String,
    /// Answer with the page as Markdown.
    pub output_md: bool,
    /// Answer with an OpenAI summary of the page.
    pub use_openai: bool,
    /// The OpenAI model of the summary.
    pub model: String,
    /// The summary prompt; empty for the default one.
    pub prompt: String,
    /// Take a full-page screenshot when the page is loaded in the browser.
    pub take_screenshot: bool,
}

/// What a caller is answered.
pub struct ExtractResponse {
    pub html: String,
    pub markdown: String,
    pub screenshot: Vec<u8>,
    pub openai_response: String,
    /// Empty unless the page could not be fetched or converted.
    pub error: String,
}

/// The contents of a response.
pub struct ResponseView {
    pub html: Seq<char>,
    pub markdown: Seq<char>,
    pub screenshot: Seq<u8>,
    pub openai_response: Seq<char>,
    pub error: Seq<char>,
}

impl View for ExtractResponse {
    type V = ResponseView;

    open spec fn view(&self) -> ResponseView {
        ResponseView {
            html: self.html@,
            markdown: self.markdown@,
            screenshot: self.screenshot@,
            openai_response: self.openai_response@,
            error: self.error@,
        }
    }
}

/// Where the answered page came from, as the request log names it; a request
/// whose fetches all failed is logged as `direct`.
pub enum FetchSource {
    Cache,
    Direct,
    Playwright,
}

/// Where a request stands.
pub enum ExtractStage {
    Relaunching,
    CheckingCache,
    Fetching,
    AwaitingPlaywright,
    StoringCache,
    AwaitingSummary,
    Done,
}

/// What the caller does next.
pub enum ExtractAction {
    /// This is the tenth request since the browser was launched: relaunch
    /// the browser and its context pool before serving it.
    RelaunchBrowser,
    /// Look the URL up in today's cache.
    LookupCache { url: String },
    /// Start the plain fetch and the browser load (with its retries) at once,
    /// and report whichever finishes first.
    Fetch { url: String, take_screenshot: bool },
    /// The plain fetch failed: wait for the browser load.
    AwaitPlaywright,
    /// Store the page in today's cache; a failure to store is ignored.
    StoreCache { url: String, html: String },
    /// Ask OpenAI for a summary.
    Summarize { model: String, content: String },
    /// Answer the request.
    Respond { response: ExtractResponse, source: FetchSource },
    /// End the request with an internal error with this message.
    Fail(String),
    /// A cleaning pattern did not compile: the request cannot go on.
    Abort,
}

/// A response with only these fields set.
pub open spec fn response_of(
    html: Seq<char>,
    markdown: Seq<char>,
    screenshot: Seq<u8>,
    openai_response: Seq<char>,
    error: Seq<char>,
) -> ResponseView {
    ResponseView { html, markdown, screenshot, openai_response, error }
}

/// Where a fetched page goes once it is cached (or caching is off): it is
/// cleaned; then a summary is asked for, or the page is answered as it is or
/// with its Markdown. `stage` and `a` are the resulting stage and action.
pub open spec fn processed(
    req: ExtractRequest,
    html: Seq<char>,
    shot: Seq<u8>,
    source: FetchSource,
    stage: ExtractStage,
    a: ExtractAction,
) -> bool {
    match strip_elements(noise_tags(), html) {
        None => stage == ExtractStage::Done && a == ExtractAction::Abort,
        Some(cleaned) => if req.use_openai {
            &&& stage == ExtractStage::AwaitingSummary
            &&& a matches ExtractAction::Summarize { model, content }
            &&& model@ == req.model@
            &&& content@ == summary_request_text(req.prompt@, cleaned)
        } else {
            &&& stage == ExtractStage::Done
            &&& a matches ExtractAction::Respond { response, source: s }
            &&& s == source
            &&& response@ == if req.output_md {
                response_of(html, markdown_text(html), shot, Seq::empty(), Seq::empty())
            } else {
                response_of(html, Seq::empty(), shot, Seq::empty(), Seq::empty())
            }
        },
    }
}

/// One extraction request.
pub struct Extraction {
    request: ExtractRequest,
    use_cache: bool,
    stage: ExtractStage,
    html: String,
    screenshot: Vec<u8>,
    used_playwright: bool,
}

impl Extraction {
    pub closed spec fn request(&self) -> ExtractRequest {
        self.request
    }

    /// The service keeps a cache of the pages it fetched.
    pub closed spec fn uses_cache(&self) -> bool {
        self.use_cache
    }

    pub closed spec fn stage(&self) -> ExtractStage {
        self.stage
    }

    /// The page fetched so far (empty before a fetch succeeds).
    pub closed spec fn html(&self) -> Seq<char> {
        self.html@
    }

    /// The screenshot fetched so far.
    pub closed spec fn screenshot(&self) -> Seq<u8> {
        self.screenshot@
    }

    /// Where the fetched page came from.
    pub closed spec fn source(&self) -> FetchSource {
        if self.used_playwright { FetchSource::Playwright } else { FetchSource::Direct }
    }

    /// The spec facts that every method keeps of the request and the cache switch.
    pub open spec fn same_request(&self, other: &Self) -> bool {
        self.request() == other.request() && self.uses_cache() == other.uses_cache()
    }

    /// The first step of serving a request: with the cache on, look the URL
    /// up; else fetch.
    pub open spec fn first_step(&self, a: ExtractAction) -> bool {
        if self.uses_cache() {
            self.stage() == ExtractStage::CheckingCache && (a matches ExtractAction::LookupCache { url } && url@ == self.request().url@)
        } else {
            self.stage() == ExtractStage::Fetching && (a matches ExtractAction::Fetch { url, take_screenshot }
                && url@ == self.request().url@ && take_screenshot == self.request().take_screenshot)
        }
    }

    /// Starts a request: it is counted against the browser's lifetime; the
    /// tenth since the last launch first relaunches the browser. Then, with
    /// the cache on, the URL is looked up; else it is fetched.
    pub fn start(request: ExtractRequest, use_cache: bool, lifecycle: &mut BrowserLifecycle) -> (r: (Self, ExtractAction))
        ensures
            final(lifecycle).count() == (old(lifecycle).count() + 1) % (REQUESTS_PER_BROWSER as nat),
            r.0.request() == request,
            r.0.uses_cache() == use_cache,
            r.0.html().len() == 0,
            r.0.screenshot().len() == 0,
            r.0.source() == FetchSource::Direct,
            old(lifecycle).count() + 1 == REQUESTS_PER_BROWSER ==> r.0.stage() == ExtractStage::Relaunching && r.1 == ExtractAction::RelaunchBrowser,
            old(lifecycle).count() + 1 != REQUESTS_PER_BROWSER ==> r.0.first_step(r.1),
    {
        let relaunch = lifecycle.on_request();
        let url = request.url.clone();
        let take_screenshot = request.take_screenshot;
        let stage = if relaunch {
            ExtractStage::Relaunching
        } else if use_cache {
            ExtractStage::CheckingCache
        } else {
            ExtractStage::Fetching
        };
        let s = Extraction {
            request,
            use_cache,
            stage,
            html: String::new(),
            screenshot: Vec::new(),
            used_playwright: false,
        };
        let a = if relaunch {
            ExtractAction::RelaunchBrowser
        } else if use_cache {
            ExtractAction::LookupCache { url }
        } else {
            ExtractAction::Fetch { url, take_screenshot }
        };
        (s, a)
    }

    /// After the browser was relaunched: serve the request.
    pub fn on_relaunched(&mut self) -> (a: ExtractAction)
        requires
            old(self).stage() == ExtractStage::Relaunching,
        ensures
            final(self).same_request(old(self)),
            final(self).html() == old(self).html(),
            final(self).screenshot() == old(self).screenshot(),
            final(self).source() == old(self).source(),
            final(self).first_step(a),
    {
        if self.use_cache {
            self.stage = ExtractStage::CheckingCache;
            ExtractAction::LookupCache { url: self.request.url.clone() }
        } else {
            self.stage = ExtractStage::Fetching;
            ExtractAction::Fetch { url: self.request.url.clone(), take_screenshot: self.request.take_screenshot }
        }
    }

    /// After the cache lookup: a cached page is answered at once, as it is
    /// (no Markdown, no summary); without one, fetch.
    pub fn on_cache_lookup(&mut self, cached: Option<String>) -> (a: ExtractAction)
        requires
            old(self).stage() == ExtractStage::CheckingCache,
        ensures
            final(self).same_request(old(self)),
            final(self).html() == old(self).html(),
            final(self).screenshot() == old(self).screenshot(),
            final(self).source() == old(self).source(),
            match cached {
                Some(h) => final(self).stage() == ExtractStage::Done
                    && (a matches ExtractAction::Respond { response, source: FetchSource::Cache }
                    && response@ == response_of(h@, Seq::empty(), Seq::empty(), Seq::empty(), Seq::empty())),
                None => final(self).stage() == ExtractStage::Fetching
                    && (a matches ExtractAction::Fetch { url, take_screenshot }
                    && url@ == old(self).request().url@ && take_screenshot == old(self).request().take_screenshot),
            },
    {
        match cached {
            Some(h) => {
                self.stage = ExtractStage::Done;
                let response = ExtractResponse {
                    html: h,
                    markdown: String::new(),
                    screenshot: Vec::new(),
                    openai_response: String::new(),
                    error: String::new(),
                };
                ExtractAction::Respond { response, source: FetchSource::Cache }
            },
            None => {
                self.stage = ExtractStage::Fetching;
                ExtractAction::Fetch { url: self.request.url.clone(), take_screenshot: self.request.take_screenshot }
            },
        }
    }

    /// Cleans the fetched page, then asks for a summary or answers.
    fn process(&mut self) -> (a: ExtractAction)
        ensures
            final(self).same_request(old(self)),
            final(self).html() == old(self).html(),
            final(self).screenshot() == old(self).screenshot(),
            final(self).source() == old(self).source(),
            processed(old(self).request(), old(self).html(), old(self).screenshot(), old(self).source(), final(self).stage(), a),
    {
        let cleaned = match clean_html(self.html.as_str()) {
            Some(c) => c,
            None => {
                self.stage = ExtractStage::Done;
                return ExtractAction::Abort;
            },
        };
        let source = if self.used_playwright { FetchSource::Playwright } else { FetchSource::Direct };
        if self.request.use_openai {
            self.stage = ExtractStage::AwaitingSummary;
            let content = summary_request(self.request.prompt.as_str(), cleaned.as_str());
            ExtractAction::Summarize { model: self.request.model.clone(), content }
        } else {
            self.stage = ExtractStage::Done;
            let (markdown, error) = if self.request.output_md {
                match markdown_for(self.html.as_str()) {
                    Ok(md) => (md, String::new()),
                    Err(e) => (String::new(), e),
                }
            } else {
                (String::new(), String::new())
            };
            let response = ExtractResponse {
                html: self.html.clone(),
                markdown,
                screenshot: self.screenshot.clone(),
                openai_response: String::new(),
                error,
            };
            ExtractAction::Respond { response, source }
        }
    }

    /// After a page was fetched: store it when the cache is on, else go on.
    fn after_fetch(&mut self) -> (a: ExtractAction)
        ensures
            final(self).same_request(old(self)),
            final(self).html() == old(self).html(),
            final(self).screenshot() == old(self).screenshot(),
            final(self).source() == old(self).source(),
            old(self).uses_cache() ==> final(self).stage() == ExtractStage::StoringCache
                && (a matches ExtractAction::StoreCache { url, html } && url@ == old(self).request().url@ && html@ == old(self).html()),
            !old(self).uses_cache() ==> processed(old(self).request(), old(self).html(), old(self).screenshot(), old(self).source(), final(self).stage(), a),
    {
        if self.use_cache {
            self.stage = ExtractStage::StoringCache;
            ExtractAction::StoreCache { url: self.request.url.clone(), html: self.html.clone() }
        } else {
            self.process()
        }
    }

    /// The plain fetch finished first: its page (with no screenshot) is
    /// taken; if it failed, wait for the browser load.
    pub fn on_direct_first(&mut self, direct: Result<String, String>) -> (a: ExtractAction)
        requires
            old(self).stage() == ExtractStage::Fetching,
        ensures
            final(self).same_request(old(self)),
            match direct {
                Ok(body) => {
                    &&& final(self).html() == body@
                    &&& final(self).screenshot().len() == 0
                    &&& final(self).source() == FetchSource::Direct
                    &&& old(self).uses_cache() ==> final(self).stage() == ExtractStage::StoringCache
                        && (a matches ExtractAction::StoreCache { url, html } && url@ == old(self).request().url@ && html@ == body@)
                    &&& !old(self).uses_cache() ==> processed(old(self).request(), body@, Seq::empty(), FetchSource::Direct, final(self).stage(), a)
                },
                Err(_) => {
                    &&& final(self).stage() == ExtractStage::AwaitingPlaywright
                    &&& a == ExtractAction::AwaitPlaywright
                    &&& final(self).html() == old(self).html()
                    &&& final(self).screenshot() == old(self).screenshot()
                    &&& final(self).source() == old(self).source()
                },
            },
    {
        match direct {
            Ok(body) => {
                self.html = body;
                self.screenshot = Vec::new();
                self.used_playwright = false;
                self.after_fetch()
            },
            Err(_) => {
                self.stage = ExtractStage::AwaitingPlaywright;
                ExtractAction::AwaitPlaywright
            },
        }
    }

    /// The browser load finished (first, or after the plain fetch failed):
    /// its page and screenshot are taken; if it failed, the request is
    /// answered with its error and nothing else.
    pub fn on_playwright(&mut self, loaded: PageResult) -> (a: ExtractAction)
        requires
            old(self).stage() == ExtractStage::Fetching || old(self).stage() == ExtractStage::AwaitingPlaywright,
            old(self).html().len() == 0,
            old(self).source() == FetchSource::Direct,
        ensures
            final(self).same_request(old(self)),
            match loaded {
                Ok((body, shot)) => {
                    &&& final(self).html() == body@
                    &&& final(self).screenshot() == shot@
                    &&& final(self).source() == FetchSource::Playwright
                    &&& old(self).uses_cache() ==> final(self).stage() == ExtractStage::StoringCache
                        && (a matches ExtractAction::StoreCache { url, html } && url@ == old(self).request().url@ && html@ == body@)
                    &&& !old(self).uses_cache() ==> processed(old(self).request(), body@, shot@, FetchSource::Playwright, final(self).stage(), a)
                },
                Err(e) => {
                    &&& final(self).stage() == ExtractStage::Done
                    &&& a matches ExtractAction::Respond { response, source: FetchSource::Direct }
                    &&& response@ == response_of(Seq::empty(), Seq::empty(), Seq::empty(), Seq::empty(), e@)
                },
            },
    {
        match loaded {
            Ok((body, shot)) => {
                self.html = body;
                self.screenshot = shot;
                self.used_playwright = true;
                self.after_fetch()
            },
            Err(e) => {
                self.stage = ExtractStage::Done;
                let response = ExtractResponse {
                    html: String::new(),
                    markdown: String::new(),
                    screenshot: Vec::new(),
                    openai_response: String::new(),
                    error: e,
                };
                ExtractAction::Respond { response, source: FetchSource::Direct }
            },
        }
    }

    /// After the page was stored in the cache (or storing failed): go on.
    pub fn on_cache_stored(&mut self) -> (a: ExtractAction)
        requires
            old(self).stage() == ExtractStage::StoringCache,
        ensures
            final(self).same_request(old(self)),
            final(self).html() == old(self).html(),
            final(self).screenshot() == old(self).screenshot(),
            processed(old(self).request(), old(self).html(), old(self).screenshot(), old(self).source(), final(self).stage(), a),
    {
        self.process()
    }

    /// After the summary call: answer with the page and the summary, or end
    /// the request with the call's error.
    pub fn on_summary(&mut self, outcome: SummaryOutcome) -> (a: ExtractAction)
        requires
            old(self).stage() == ExtractStage::AwaitingSummary,
        ensures
            final(self).same_request(old(self)),
            final(self).stage() == ExtractStage::Done,
            match summary_result(outcome) {
                Ok(text) => a matches ExtractAction::Respond { response, source } && source == old(self).source()
                    && response@ == response_of(old(self).html(), Seq::empty(), old(self).screenshot(), text, Seq::empty()),
                Err(m) => a matches ExtractAction::Fail(msg) && msg@ == m,
            },
    {
        self.stage = ExtractStage::Done;
        let source = if self.used_playwright { FetchSource::Playwright } else { FetchSource::Direct };
        match summary_reply(outcome) {
            Ok(text) => {
                let response = ExtractResponse {
                    html: self.html.clone(),
                    markdown: String::new(),
                    screenshot: self.screenshot.clone(),
                    openai_response: text,
                    error: String::new(),
                };
                ExtractAction::Respond { response, source }
            },
            Err(m) => ExtractAction::Fail(m),
        }
    }
}

} // verus!
