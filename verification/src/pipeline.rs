//! The two phases of a run, as verified decision logic. The pagination
//! phase consumes one response per page and builds the queue of download
//! tasks; the download phase names each task's destination file and decides
//! whether it must be fetched. The caller performs the HTTP calls and the
//! file I/O and feeds the outcomes back in.

use vstd::prelude::*;

verus! {

use crate::model::{
    Article,
    Hit,
    SearchResponse,
    WebLinkElement,
    article_links,
    first_link_of_type,
    spec_num_pages,
};
use vstd::string::StringExecFns;

/// One unit of download work: the issue code that names the output file,
/// and the URL of the PDF rendition. Queued in response order, consumed
/// once.
pub struct DownloadTask {
    pub issue: String,
    pub url: String,
}

/// The download task an article gives rise to: the article's issue code
/// paired with its first "formatPdf" web link, if it has one.
pub open spec fn spec_task_of(a: Article) -> Option<DownloadTask> {
    match first_link_of_type(article_links(a), "formatPdf"@) {
        Some(l) => Some(DownloadTask { issue: a.identifiers.issue, url: l.phys_url }),
        None => None,
    }
}

/// The download tasks of a list of hits, in response order: one task per
/// article that has a "formatPdf" web link.
pub open spec fn spec_tasks(hits: Seq<Hit>) -> Seq<DownloadTask>
    decreases hits.len(),
{
    if hits.len() == 0 {
        Seq::empty()
    } else {
        let rest = spec_tasks(hits.drop_last());
        match spec_task_of(hits.last().article) {
            Some(t) => rest.push(t),
            None => rest,
        }
    }
}

/// The first "formatPdf" web link of the article, in document order, if any.
pub fn first_pdf_link(a: &Article) -> (r: Option<WebLinkElement>)
    ensures
        r == first_link_of_type(article_links(*a), "formatPdf"@),
{
    let links = a.weblinks();
    let tag: String = "formatPdf".to_owned();
    let mut i: usize = 0;
    proof {
        assert(links@.skip(0) =~= links@);
    }
    while i < links.len()
        invariant
            i <= links.len(),
            links@ == article_links(*a),
            tag@ == "formatPdf"@,
            first_link_of_type(links@, "formatPdf"@) == first_link_of_type(
                links@.skip(i as int),
                "formatPdf"@,
            ),
        decreases links.len() - i,
    {
        proof {
            assert(links@.skip(i as int).first() == links@[i as int]);
        }
        if links[i].typ == tag {
            return Some(links[i].clone());
        }
        proof {
            assert(links@.skip(i as int).drop_first() =~= links@.skip(i + 1 as int));
        }
        i += 1;
    }
    proof {
        assert(links@.skip(links@.len() as int) =~= Seq::<WebLinkElement>::empty());
    }
    None
}

/// Appends to `queue`, in response order, one task per article of this
/// page that has a "formatPdf" web link. Tasks already queued stay as they
/// are.
pub fn collect_tasks(resp: &SearchResponse, queue: &mut Vec<DownloadTask>)
    ensures
        final(queue)@ == old(queue)@ + spec_tasks(resp.hits.hits@),
{
    let hits: &Vec<Hit> = resp.hits();
    proof {
        assert(old(queue)@ + spec_tasks(hits@.take(0)) =~= old(queue)@);
    }
    let mut i: usize = 0;
    while i < hits.len()
        invariant
            i <= hits.len(),
            hits == &resp.hits.hits,
            queue@ == old(queue)@ + spec_tasks(hits@.take(i as int)),
        decreases hits.len() - i,
    {
        let article = hits[i].article();
        let link = first_pdf_link(article);
        match link {
            Some(l) => {
                let task = DownloadTask { issue: article.identifiers.issue.clone(), url: l.phys_url };
                queue.push(task);
            },
            None => {},
        }
        proof {
            assert(hits@.take(i + 1 as int).drop_last() =~= hits@.take(i as int));
            assert(hits@.take(i + 1 as int).last() == hits@[i as int]);
            if spec_task_of(hits@[i as int].article) is Some {
                assert(queue@ =~= old(queue)@ + spec_tasks(hits@.take(i + 1 as int)));
            }
        }
        i += 1;
    }
    proof {
        assert(hits@.take(hits@.len() as int) =~= hits@);
    }
}

/// The pagination phase as a state machine. The caller fetches pages over
/// HTTP and feeds each response in; this tracks the page counter, the page
/// bound read once from the first response, and the queue of download tasks
/// built so far. A fetch failure simply means no further call: the queue
/// keeps everything collected up to that point.
pub struct Pagination {
    /// The page whose response is expected next; starts at 1.
    pub page: usize,
    /// The page bound, read from the first response; 0 until then.
    pub num_pages: usize,
    /// Whether the first response has been seen.
    pub started: bool,
    /// The download tasks collected so far, in response order.
    pub tasks: Vec<DownloadTask>,
}

impl Pagination {
    /// A fresh pagination: about to fetch page 1, with an empty queue.
    pub fn new() -> (r: Self)
        ensures
            !r.started,
            r.page == 1,
            r.tasks@ == Seq::<DownloadTask>::empty(),
    {
        Pagination { page: 1, num_pages: 0, started: false, tasks: Vec::new() }
    }

    /// Feeds the response for page `self.page`. On the first call the page
    /// bound is read from the response and kept; later responses never
    /// re-derive it. While the counter is below the bound, the page's
    /// articles become download tasks, the counter advances, and the number
    /// of the next page to fetch is returned; otherwise the phase is over
    /// and the response is not mined for tasks — so the final page, like a
    /// sole page, contributes none. Tasks already queued are never dropped.
    pub fn on_response(&mut self, resp: &SearchResponse) -> (next: Option<usize>)
        requires
            resp.page_size > 0,
        ensures
            final(self).started,
            final(self).num_pages == if old(self).started {
                old(self).num_pages as nat
            } else {
                spec_num_pages(resp.result.header.total_hits as nat, resp.page_size as nat)
            },
            old(self).page < final(self).num_pages ==> {
                &&& final(self).tasks@ == old(self).tasks@ + spec_tasks(resp.hits.hits@)
                &&& final(self).page == old(self).page + 1
                &&& next == Some(final(self).page)
            },
            old(self).page >= final(self).num_pages ==> {
                &&& final(self).tasks@ == old(self).tasks@
                &&& final(self).page == old(self).page
                &&& next is None
            },
            old(self).tasks@.is_prefix_of(final(self).tasks@),
    {
        if !self.started {
            self.num_pages = resp.num_pages();
            self.started = true;
        }
        if self.page < self.num_pages {
            collect_tasks(resp, &mut self.tasks);
            self.page = self.page + 1;
            proof {
                assert(final(self).tasks@.subrange(0, old(self).tasks@.len() as int)
                    =~= old(self).tasks@);
            }
            Some(self.page)
        } else {
            proof {
                assert(final(self).tasks@.subrange(0, old(self).tasks@.len() as int)
                    =~= old(self).tasks@);
            }
            None
        }
    }
}

impl DownloadTask {
    /// The name of the destination file: the issue code with ".pdf"
    /// appended.
    pub fn dest_file_name(&self) -> (r: String)
        ensures
            r@ == self.issue@ + ".pdf"@,
    {
        let mut s = self.issue.clone();
        s.append(".pdf");
        s
    }

    /// Whether the PDF must be fetched: only when no destination
    /// file of its name exists yet. A file already present is never fetched
    /// again nor overwritten; re-running the download phase is safe.
    pub fn should_download(&self, dest_exists: bool) -> (r: bool)
        ensures
            r == !dest_exists,
    {
        !dest_exists
    }
}

} // verus!
