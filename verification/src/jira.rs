//! Decisions of the paginated issue-tracker client: how request URLs are
//! formed and how the sequential polling loop reacts to each page. The
//! HTTP requests themselves, and the JSON bodies they carry, are the
//! surrounding program's; their outcomes are passed in as plain values.

use vstd::prelude::*;
use vstd::string::StrSliceExecFns;
use vstd::string::StringExecFns;

verus! {

/// Page size the tracker caps requests at.
pub const JIRA_PAGE_SIZE: u32 = 100;

/// Seconds waited after a rate-limit answer that names no delay.
pub const DEFAULT_RETRY_DELAY_SECS: u64 = 2;

/// `s` without its trailing slashes.
pub open spec fn trim_trailing_slashes(s: Seq<char>) -> Seq<char>
    decreases s.len(),
{
    if s.len() > 0 && s.last() == '/' {
        trim_trailing_slashes(s.drop_last())
    } else {
        s
    }
}

/// `s` without its leading slashes.
pub open spec fn trim_leading_slashes(s: Seq<char>) -> Seq<char>
    decreases s.len(),
{
    if s.len() > 0 && s.first() == '/' {
        trim_leading_slashes(s.skip(1))
    } else {
        s
    }
}

/// Join the tracker's base URL and a request path with exactly one slash
/// between them, however many either side carries.
pub fn join_url(base: &str, path: &str) -> (u: String)
    ensures
        u@ == trim_trailing_slashes(base@) + "/"@ + trim_leading_slashes(path@),
{
    let n = base.unicode_len();
    let mut e: usize = n;
    proof {
        assert(base@.take(n as int) =~= base@);
    }
    while e > 0 && base.get_char(e - 1) == '/'
        invariant
            e <= n,
            n == base@.len(),
            trim_trailing_slashes(base@) == trim_trailing_slashes(base@.take(e as int)),
        decreases e,
    {
        proof {
            let cur = base@.take(e as int);
            assert(cur.last() == base@[e - 1]);
            assert(cur.drop_last() =~= base@.take(e - 1));
        }
        e = e - 1;
    }
    proof {
        let cur = base@.take(e as int);
        if e > 0 {
            assert(cur.last() == base@[e - 1]);
        }
        assert(trim_trailing_slashes(base@) == base@.take(e as int));
    }
    let trimmed_base = base.substring_char(0, e);

    let m = path.unicode_len();
    let mut b: usize = 0;
    proof {
        assert(path@.skip(0) =~= path@);
    }
    while b < m && path.get_char(b) == '/'
        invariant
            b <= m,
            m == path@.len(),
            trim_leading_slashes(path@) == trim_leading_slashes(path@.skip(b as int)),
        decreases m - b,
    {
        proof {
            let cur = path@.skip(b as int);
            assert(cur.first() == path@[b as int]);
            assert(cur.skip(1) =~= path@.skip(b + 1));
        }
        b = b + 1;
    }
    proof {
        let cur = path@.skip(b as int);
        if b < m {
            assert(cur.first() == path@[b as int]);
        }
        assert(trim_leading_slashes(path@) == path@.skip(b as int));
    }
    let trimmed_path = path.substring_char(b, m);

    let joined = String::from_str(trimmed_base).concat("/").concat(trimmed_path);
    proof {
        assert(base@.take(e as int) + "/"@ + path@.skip(b as int) =~= (base@.take(e as int)
            + "/"@) + path@.skip(b as int));
        assert(path@.subrange(b as int, m as int) =~= path@.skip(b as int));
    }
    joined
}

/// The path an issue is fetched under.
pub fn issue_path(issue_key: &str) -> (p: String)
    ensures
        p@ == "rest/api/3/issue/"@ + issue_key@,
{
    String::from_str("rest/api/3/issue/").concat(issue_key)
}

/// The path searches are posted to.
pub fn search_path() -> (p: String)
    ensures
        p@ == "rest/api/3/search"@,
{
    String::from_str("rest/api/3/search")
}

/// What the polling loop does after one page request.
#[derive(Clone, Copy, PartialEq, Eq, Structural, Debug)]
pub enum PageDecision {
    /// Rate-limited: wait this many seconds and ask for the same page again.
    RetryAfter(u64),
    /// The page request failed; the search fails.
    Fail,
    /// Everything collected; the search is over.
    Done,
    /// More results remain below the caller's cap; ask for the next page.
    Continue,
}

/// The loop's reaction: back off when rate-limited (for the named delay,
/// or the default when none is named), fail on any other unsuccessful
/// status, and otherwise stop once the tracker's total is reached or the
/// caller's cap is met.
pub open spec fn spec_page_decision(
    rate_limited: bool,
    retry_after: Option<u64>,
    success: bool,
    next_start: u32,
    total: u32,
    collected: u32,
    max_results: u32,
) -> PageDecision {
    if rate_limited {
        PageDecision::RetryAfter(
            match retry_after {
                Some(secs) => secs,
                None => DEFAULT_RETRY_DELAY_SECS,
            },
        )
    } else if !success {
        PageDecision::Fail
    } else if next_start >= total || collected >= max_results {
        PageDecision::Done
    } else {
        PageDecision::Continue
    }
}

pub fn page_decision(
    rate_limited: bool,
    retry_after: Option<u64>,
    success: bool,
    next_start: u32,
    total: u32,
    collected: u32,
    max_results: u32,
) -> (d: PageDecision)
    ensures
        d == spec_page_decision(
            rate_limited,
            retry_after,
            success,
            next_start,
            total,
            collected,
            max_results,
        ),
{
    if rate_limited {
        match retry_after {
            Some(secs) => PageDecision::RetryAfter(secs),
            None => PageDecision::RetryAfter(DEFAULT_RETRY_DELAY_SECS),
        }
    } else if !success {
        PageDecision::Fail
    } else if next_start >= total || collected >= max_results {
        PageDecision::Done
    } else {
        PageDecision::Continue
    }
}

/// Where the next page starts.
pub fn next_start_at(start_at: u32) -> (n: u32)
    requires
        start_at + JIRA_PAGE_SIZE <= u32::MAX,
    ensures
        n == start_at + JIRA_PAGE_SIZE,
{
    start_at + JIRA_PAGE_SIZE
}

/// The fields a search asks for when the caller names none.
pub fn default_search_fields() -> (f: Vec<String>)
    ensures
        f@.len() == 3,
        f@[0]@ == "summary"@,
        f@[1]@ == "status"@,
        f@[2]@ == "assignee"@,
{
    let mut f: Vec<String> = Vec::new();
    f.push(String::from_str("summary"));
    f.push(String::from_str("status"));
    f.push(String::from_str("assignee"));
    f
}

} // verus!
