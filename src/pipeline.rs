use vstd::prelude::*;

verus! {

/// Why a request failed; page numbers are 1-based.
#[derive(PartialEq, Eq, Debug)]
pub enum PipelineError {
    Input,
    Fetch(String),
    DocumentLoad(String),
    Rasterize { page: usize, cause: String },
    Encode { page: usize, cause: String },
    Transport { page: usize, cause: String },
    MalformedReply { page: usize, cause: String },
}

impl PipelineError {
    /// Whether the request itself was at fault (a missing body or a document that could
    /// not be fetched), as opposed to a failure while processing the document.
    pub fn is_client_error(&self) -> (r: bool)
        ensures
            r <==> (self is Input || self is Fetch),
    {
        match self {
            PipelineError::Input => true,
            PipelineError::Fetch(_) => true,
            _ => false,
        }
    }
}

/// What became of one page after the controller asked for it.
pub enum PageEvent<P> {
    Recognized(P),
    RasterizeFailed(String),
    EncodeFailed(String),
    TransportFailed(String),
    MalformedReply(String),
}

pub struct PageResult<P> {
    pub page: usize,
    pub ocr_result: P,
}

pub struct Report<P> {
    pub results: Vec<PageResult<P>>,
    pub page_count: usize,
}

/// Drives the pages of one document in ascending order and stops at the first failure.
pub struct Controller<P> {
    page_count: usize,
    results: Vec<PageResult<P>>,
    failure: Option<PipelineError>,
}

/// Results numbered 1, 2, ... in order, with no gap.
pub open spec fn numbered_in_order<P>(rs: Seq<PageResult<P>>) -> bool {
    forall|i: int| 0 <= i < rs.len() ==> #[trigger] rs[i].page == i + 1
}

/// A finished run's results over `n` pages carry exactly the page numbers 1, 2, ..., n,
/// in that order.
pub proof fn lemma_complete_run_pages<P>(rs: Seq<PageResult<P>>, n: nat)
    requires
        rs.len() == n,
        numbered_in_order(rs),
    ensures
        rs.map_values(|r: PageResult<P>| r.page as int) == Seq::new(n, |i: int| i + 1),
{
    assert(rs.map_values(|r: PageResult<P>| r.page as int) =~= Seq::new(n, |i: int| i + 1));
}

impl<P> Controller<P> {
    pub closed spec fn count(&self) -> nat {
        self.page_count as nat
    }

    pub closed spec fn done(&self) -> Seq<PageResult<P>> {
        self.results@
    }

    pub closed spec fn failed(&self) -> Option<PipelineError> {
        self.failure
    }

    pub open spec fn well_formed(&self) -> bool {
        &&& self.done().len() <= self.count()
        &&& numbered_in_order(self.done())
    }

    /// The zero-based index of the page to process next, if any.
    pub open spec fn pending(&self) -> Option<nat> {
        if self.failed() is None && self.done().len() < self.count() {
            Some(self.done().len())
        } else {
            None
        }
    }

    /// A controller for a freshly loaded document of `page_count` pages.
    pub fn new(page_count: usize) -> (r: Self)
        ensures
            r.well_formed(),
            r.count() == page_count,
            r.done().len() == 0,
            r.failed() is None,
    {
        Controller { page_count, results: Vec::new(), failure: None }
    }

    pub fn page_count(&self) -> (r: usize)
        ensures
            r == self.count(),
    {
        self.page_count
    }

    /// The zero-based index of the page to render and dispatch next, or `None` once
    /// every page is done or a page has failed.
    pub fn next_page(&self) -> (r: Option<usize>)
        ensures
            r matches Some(i) ==> self.pending() == Some(i as nat),
            r is None ==> self.pending() is None,
    {
        if self.failure.is_none() && self.results.len() < self.page_count {
            Some(self.results.len())
        } else {
            None
        }
    }

    /// Takes in what happened to the pending page: a recognition payload is appended
    /// under the page's 1-based number; any failure ends the run, naming that page.
    pub fn record(&mut self, event: PageEvent<P>)
        requires
            old(self).well_formed(),
            old(self).pending() is Some,
        ensures
            final(self).well_formed(),
            final(self).count() == old(self).count(),
            ({
                let k = old(self).done().len();
                match event {
                    PageEvent::Recognized(p) => final(self).failed() is None
                        && final(self).done().len() == k + 1
                        && final(self).done().take(k as int) == old(self).done()
                        && final(self).done()[k as int].page == k + 1
                        && final(self).done()[k as int].ocr_result == p,
                    PageEvent::RasterizeFailed(c) => final(self).done() == old(self).done()
                        && final(self).failed() == Some(PipelineError::Rasterize { page: (k + 1) as usize, cause: c }),
                    PageEvent::EncodeFailed(c) => final(self).done() == old(self).done()
                        && final(self).failed() == Some(PipelineError::Encode { page: (k + 1) as usize, cause: c }),
                    PageEvent::TransportFailed(c) => final(self).done() == old(self).done()
                        && final(self).failed() == Some(PipelineError::Transport { page: (k + 1) as usize, cause: c }),
                    PageEvent::MalformedReply(c) => final(self).done() == old(self).done()
                        && final(self).failed() == Some(PipelineError::MalformedReply { page: (k + 1) as usize, cause: c }),
                }
            }),
    {
        let page = self.results.len() + 1;
        match event {
            PageEvent::Recognized(p) => {
                self.results.push(PageResult { page, ocr_result: p });
                assert(self.results@.take((page - 1) as int) =~= old(self).results@);
            },
            PageEvent::RasterizeFailed(c) => {
                self.failure = Some(PipelineError::Rasterize { page, cause: c });
            },
            PageEvent::EncodeFailed(c) => {
                self.failure = Some(PipelineError::Encode { page, cause: c });
            },
            PageEvent::TransportFailed(c) => {
                self.failure = Some(PipelineError::Transport { page, cause: c });
            },
            PageEvent::MalformedReply(c) => {
                self.failure = Some(PipelineError::MalformedReply { page, cause: c });
            },
        }
    }

    /// The outcome of a finished run: the first failure alone, with no results, or
    /// every page's result numbered 1..N in order together with the page count.
    pub fn finish(self) -> (r: Result<Report<P>, PipelineError>)
        requires
            self.well_formed(),
            self.pending() is None,
        ensures
            self.failed() matches Some(e) ==> r == Err::<Report<P>, PipelineError>(e),
            self.failed() is None ==> (r matches Ok(rep) && rep.page_count == self.count()
                && rep.results@ == self.done() && rep.results@.len() == self.count()
                && numbered_in_order(rep.results@)),
    {
        match self.failure {
            Some(e) => Err(e),
            None => Ok(Report { results: self.results, page_count: self.page_count }),
        }
    }
}

} // verus!
