//! The allowlist guard: a set of permitted URL prefixes consulted before any
//! outbound fetch, plus the fetch timeout. Built once at startup and passed
//! by shared reference to the rendering pipeline; never mutated while
//! serving.

use vstd::prelude::*;

use crate::text::str_starts_with;

verus! {

/// Process-wide configuration: the URL prefixes a template `fetch` may
/// target, and the default fetch timeout in milliseconds.
///
/// An empty prefix list means "allow all". Matching is a literal
/// character-wise prefix test, not URL-structure-aware: the prefix
/// `https://example.com/a` also matches `https://example.com/ab`. Callers
/// who need a boundary must end the prefix with one.
#[derive(Clone)]
pub struct State {
    allow_urls: Vec<String>,
    fetch_timeout: u64,
}

impl State {
    /// The configured prefixes, as character sequences.
    pub closed spec fn spec_allow_urls(&self) -> Seq<Seq<char>> {
        self.allow_urls@.map_values(|p: String| p@)
    }

    /// The configured timeout in milliseconds; 0 means no timeout.
    pub closed spec fn spec_fetch_timeout(&self) -> u64 {
        self.fetch_timeout
    }

    /// A URL is allowed iff the prefix set is empty or some configured
    /// prefix is a literal prefix of the URL.
    pub open spec fn spec_allows(&self, url: Seq<char>) -> bool {
        self.spec_allow_urls().len() == 0 || (exists|i: int|
            0 <= i < self.spec_allow_urls().len() && self.spec_allow_urls()[i].is_prefix_of(url))
    }

    /// An empty guard: no prefixes (so every URL is allowed), no timeout.
    pub fn new() -> (r: Self)
        ensures
            r.spec_allow_urls() == Seq::<Seq<char>>::empty(),
            r.spec_fetch_timeout() == 0,
    {
        let r = State { allow_urls: Vec::new(), fetch_timeout: 0 };
        proof {
            assert(r.spec_allow_urls() =~= Seq::<Seq<char>>::empty());
        }
        r
    }

    /// Replaces the prefix set. Called once, before serving starts.
    pub fn set_allow_urls(&mut self, allow_urls: &[String])
        ensures
            final(self).spec_allow_urls() == allow_urls@.map_values(|p: String| p@),
            final(self).spec_fetch_timeout() == old(self).spec_fetch_timeout(),
    {
        let n = allow_urls.len();
        let mut copied: Vec<String> = Vec::new();
        let mut i: usize = 0;
        while i < n
            invariant
                i <= n,
                n == allow_urls@.len(),
                copied@.len() == i,
                forall|j: int| 0 <= j < i ==> copied@[j]@ == allow_urls@[j]@,
            decreases n - i,
        {
            copied.push(allow_urls[i].clone());
            i += 1;
        }
        self.allow_urls = copied;
        proof {
            assert(self.spec_allow_urls() =~= allow_urls@.map_values(|p: String| p@));
        }
    }

    /// Replaces the fetch timeout.
    pub fn set_fetch_timeout(&mut self, timeout: u64)
        ensures
            final(self).spec_fetch_timeout() == timeout,
            final(self).spec_allow_urls() == old(self).spec_allow_urls(),
    {
        self.fetch_timeout = timeout;
    }

    /// Membership query of the guard: true iff the prefix set is empty or
    /// some prefix is a literal prefix of `url`.
    pub fn allow_url(&self, url: &str) -> (r: bool)
        ensures
            r == self.spec_allows(url@),
    {
        if self.allow_urls.len() == 0 {
            return true;
        }
        let n = self.allow_urls.len();
        let mut i: usize = 0;
        while i < n
            invariant
                i <= n,
                n == self.allow_urls@.len(),
                forall|j: int| 0 <= j < i ==> !self.spec_allow_urls()[j].is_prefix_of(url@),
            decreases n - i,
        {
            if str_starts_with(url, self.allow_urls[i].as_str()) {
                proof {
                    assert(self.spec_allow_urls()[i as int].is_prefix_of(url@));
                }
                return true;
            }
            i += 1;
        }
        false
    }

    /// The configured fetch timeout in milliseconds.
    pub fn fetch_timeout(&self) -> (r: u64)
        ensures
            r == self.spec_fetch_timeout(),
    {
        self.fetch_timeout
    }
}

} // verus!
