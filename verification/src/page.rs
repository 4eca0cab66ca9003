//! Loading a page in a borrowed browser context: open a page, navigate,
//! read the HTML, and take a full-page screenshot when one was asked for.

use vstd::prelude::*;
use vstd::string::StringExecFns;
use crate::retry::PageResult;

verus! {

/// Where a page load stands.
pub enum PageStage {
    Opening,
    Navigating,
    Reading,
    Capturing,
    Done,
}

/// What the caller does next.
pub enum PageAction {
    /// Navigate the opened page to the URL, until the DOM content is loaded.
    Navigate,
    /// Read the page's HTML.
    ReadContent,
    /// Take a full-page screenshot.
    Capture,
    /// The load is over; give the context back to the pool when told to.
    Finish { result: PageResult, give_back_context: bool },
}

/// One page load.
pub struct PageLoad {
    take_screenshot: bool,
    stage: PageStage,
    html: String,
}

impl PageLoad {
    pub closed spec fn stage(&self) -> PageStage {
        self.stage
    }

    pub closed spec fn wants_screenshot(&self) -> bool {
        self.take_screenshot
    }

    /// The HTML read so far.
    pub closed spec fn html(&self) -> Seq<char> {
        self.html@
    }

    /// A load that starts by opening a page in the borrowed context.
    pub fn new(take_screenshot: bool) -> (s: Self)
        ensures
            s.stage() == PageStage::Opening,
            s.wants_screenshot() == take_screenshot,
    {
        PageLoad { take_screenshot, stage: PageStage::Opening, html: String::new() }
    }

    /// After opening a page: navigate, or fail without giving the context back.
    pub fn on_opened(&mut self, opened: Result<(), String>) -> (a: PageAction)
        requires
            old(self).stage() == PageStage::Opening,
        ensures
            final(self).wants_screenshot() == old(self).wants_screenshot(),
            match opened {
                Ok(()) => a == PageAction::Navigate && final(self).stage() == PageStage::Navigating,
                Err(e) => final(self).stage() == PageStage::Done && (a matches PageAction::Finish { result: Err(m), give_back_context: false }
                    && m@ == "Playwright new_page error: "@ + e@),
            },
    {
        match opened {
            Ok(()) => {
                self.stage = PageStage::Navigating;
                PageAction::Navigate
            },
            Err(e) => {
                self.stage = PageStage::Done;
                let m = String::from_str("Playwright new_page error: ").concat(e.as_str());
                PageAction::Finish { result: Err(m), give_back_context: false }
            },
        }
    }

    /// After navigating: read the HTML, or fail without giving the context back.
    pub fn on_navigated(&mut self, navigated: Result<(), String>) -> (a: PageAction)
        requires
            old(self).stage() == PageStage::Navigating,
        ensures
            final(self).wants_screenshot() == old(self).wants_screenshot(),
            match navigated {
                Ok(()) => a == PageAction::ReadContent && final(self).stage() == PageStage::Reading,
                Err(e) => final(self).stage() == PageStage::Done && (a matches PageAction::Finish { result: Err(m), give_back_context: false }
                    && m@ == "Playwright goto error: "@ + e@),
            },
    {
        match navigated {
            Ok(()) => {
                self.stage = PageStage::Reading;
                PageAction::ReadContent
            },
            Err(e) => {
                self.stage = PageStage::Done;
                let m = String::from_str("Playwright goto error: ").concat(e.as_str());
                PageAction::Finish { result: Err(m), give_back_context: false }
            },
        }
    }

    /// After reading the HTML: take the screenshot if one was asked for,
    /// else give the context back and finish with the HTML and no screenshot;
    /// a read error fails without giving the context back.
    pub fn on_content(&mut self, content: Result<String, String>) -> (a: PageAction)
        requires
            old(self).stage() == PageStage::Reading,
        ensures
            final(self).wants_screenshot() == old(self).wants_screenshot(),
            match content {
                Ok(html) => if old(self).wants_screenshot() {
                    a == PageAction::Capture && final(self).stage() == PageStage::Capturing && final(self).html() == html@
                } else {
                    final(self).stage() == PageStage::Done && (a matches PageAction::Finish { result: Ok((h, shot)), give_back_context: true }
                        && h@ == html@ && shot@.len() == 0)
                },
                Err(e) => final(self).stage() == PageStage::Done && (a matches PageAction::Finish { result: Err(m), give_back_context: false }
                    && m@ == "Playwright content error: "@ + e@),
            },
    {
        match content {
            Ok(html) => {
                if self.take_screenshot {
                    self.stage = PageStage::Capturing;
                    self.html = html;
                    PageAction::Capture
                } else {
                    self.stage = PageStage::Done;
                    PageAction::Finish { result: Ok((html, Vec::new())), give_back_context: true }
                }
            },
            Err(e) => {
                self.stage = PageStage::Done;
                let m = String::from_str("Playwright content error: ").concat(e.as_str());
                PageAction::Finish { result: Err(m), give_back_context: false }
            },
        }
    }

    /// After the screenshot: give the context back and finish with the HTML
    /// and the screenshot, an empty one where taking it failed.
    pub fn on_captured(&mut self, shot: Option<Vec<u8>>) -> (a: PageAction)
        requires
            old(self).stage() == PageStage::Capturing,
        ensures
            final(self).stage() == PageStage::Done,
            a matches PageAction::Finish { result: Ok((h, s)), give_back_context: true } && h@ == old(self).html()
                && s@ == match shot { Some(bytes) => bytes@, None => Seq::<u8>::empty() },
    {
        self.stage = PageStage::Done;
        let mut html = String::new();
        std::mem::swap(&mut html, &mut self.html);
        let bytes = match shot {
            Some(b) => b,
            None => Vec::new(),
        };
        PageAction::Finish { result: Ok((html, bytes)), give_back_context: true }
    }
}

} // verus!
