//! The command line's settings and the work they describe.
use vstd::prelude::*;

use crate::text::{decimal, decimal_string};

verus! {

/// The settings of a run: the search query, how many result pages to take,
/// and the name of the file (without extension) to save the result to.
pub struct CliArgs {
    pub query: String,
    pub pages: usize,
    pub file: String,
}

impl Clone for CliArgs {
    fn clone(&self) -> (r: CliArgs)
        ensures
            r == *self,
    {
        CliArgs { query: self.query.clone(), pages: self.pages, file: self.file.clone() }
    }
}

impl Default for CliArgs {
    /// The settings when none is given: query "anime", 2 pages, file
    /// "result".
    fn default() -> (r: CliArgs)
        ensures
            r.query@ == "anime"@,
            r.pages == 2,
            r.file@ == "result"@,
    {
        CliArgs { query: String::from_str("anime"), pages: 2, file: String::from_str("result") }
    }
}

/// The number of logical processors (`num_cpus::get`). It depends on the
/// machine and on the limits put on the process; the crate documents that it
/// is always at least 1, and nothing more is promised of it.
#[verifier::external_body]
fn cpu_count() -> (r: usize)
    ensures
        r >= 1,
{
    num_cpus::get()
}

/// The worker count is the smaller of the page count and the processor
/// count: no more than either, and equal to one of them.
pub proof fn law_thread_number_is_smaller(pages: usize, max_cpus: usize)
    ensures
        spec_thread_number(pages, max_cpus) <= pages,
        spec_thread_number(pages, max_cpus) <= max_cpus,
        spec_thread_number(pages, max_cpus) == pages || spec_thread_number(pages, max_cpus) == max_cpus,
{
}

/// As many workers of each kind as pages, but no more than processors.
pub open spec fn spec_thread_number(pages: usize, max_cpus: usize) -> usize {
    if pages < max_cpus { pages } else { max_cpus }
}

/// As many workers of each kind as pages, but no more than processors.
pub fn choose_thread_number(pages: usize, max_cpus: usize) -> (r: usize)
    ensures
        r == spec_thread_number(pages, max_cpus),
{
    if pages < max_cpus {
        pages
    } else {
        max_cpus
    }
}

/// The number of workers of each kind for a run over `pages` pages on this
/// machine: the smaller of the pages and the processor count, so never more
/// than the pages, and at least one where there is a page.
pub fn thread_number(pages: usize) -> (r: usize)
    ensures
        r <= pages,
        pages >= 1 ==> r >= 1,
        exists|cpus: usize| cpus >= 1 && r == #[trigger] spec_thread_number(pages, cpus),
{
    let max_cpus = cpu_count();
    let r = choose_thread_number(pages, max_cpus);
    assert(max_cpus >= 1 && r == spec_thread_number(pages, max_cpus));
    r
}

/// The address of one page of search results.
pub open spec fn spec_query_url(query: Seq<char>, page: nat) -> Seq<char> {
    "https://www.goodfon.ru/search/?q="@ + query + "&page="@ + decimal(page)
}

/// The address of page `page` of the search results for `query`.
pub fn query_url(query: &str, page: usize) -> (r: String)
    ensures
        r@ == spec_query_url(query@, page as nat),
{
    let mut s = String::from_str("https://www.goodfon.ru/search/?q=");
    s.append(query);
    s.append("&page=");
    let d = decimal_string(page as u64);
    s.append(d.as_str());
    s
}

/// The messages for the parsing workers, each with the worker it goes to:
/// the addresses of pages 1 to `pages`, dealt out in turn over the
/// `workers` workers, then an end marker for each worker.
pub fn query_plan(query: &str, pages: usize, workers: usize) -> (r: Vec<(usize, Option<String>)>)
    requires
        workers > 0,
        pages + workers <= usize::MAX,
    ensures
        r@.len() == pages + workers,
        forall|k: int|
            0 <= k < pages ==> {
                &&& (#[trigger] r@[k]).0 == k % (workers as int)
                &&& r@[k].1 matches Some(url) && url@ == spec_query_url(query@, (k + 1) as nat)
            },
        forall|j: int| 0 <= j < workers ==> (#[trigger] r@[pages + j]).0 == j && r@[pages + j].1 is None,
{
    let mut r: Vec<(usize, Option<String>)> = Vec::new();
    let mut k: usize = 0;
    while k < pages
        invariant
            workers > 0,
            pages + workers <= usize::MAX,
            r@.len() == k,
            k <= pages,
            forall|i: int|
                0 <= i < k ==> {
                    &&& (#[trigger] r@[i]).0 == i % (workers as int)
                    &&& r@[i].1 matches Some(u) && u@ == spec_query_url(query@, (i + 1) as nat)
                },
        decreases pages - k,
    {
        r.push((k % workers, Some(query_url(query, k + 1))));
        k = k + 1;
    }
    let mut j: usize = 0;
    while j < workers
        invariant
            workers > 0,
            r@.len() == pages + j,
            j <= workers,
            pages + workers <= usize::MAX,
            forall|i: int|
                0 <= i < pages ==> {
                    &&& (#[trigger] r@[i]).0 == i % (workers as int)
                    &&& r@[i].1 matches Some(u) && u@ == spec_query_url(query@, (i + 1) as nat)
                },
            forall|i: int| 0 <= i < j ==> (#[trigger] r@[pages + i]).0 == i && r@[pages + i].1 is None,
        decreases workers - j,
    {
        r.push((j, None));
        j = j + 1;
    }
    r
}

} // verus!
