//! The response cache: for each request URI, the body, validator and
//! continuation of the last successful GET that carried a validator.

use vstd::prelude::*;
use crate::text::{opt_view, same_text};

verus! {

/// What the cache remembers of one response.
#[derive(Clone, Debug, PartialEq, Eq)]
pub struct CacheEntry {
    pub uri: String,
    pub body: Vec<u8>,
    pub validator: String,
    pub continuation: Option<String>,
}

/// The mathematical value of a [`CacheEntry`].
pub struct EntryView {
    pub uri: Seq<char>,
    pub body: Seq<u8>,
    pub validator: Seq<char>,
    pub continuation: Option<Seq<char>>,
}

impl View for CacheEntry {
    type V = EntryView;

    open spec fn view(&self) -> EntryView {
        EntryView {
            uri: self.uri@,
            body: self.body@,
            validator: self.validator@,
            continuation: opt_view(self.continuation),
        }
    }
}

/// The entry that `entries` holds for `uri`: the last one stored under it.
pub open spec fn entry_in(entries: Seq<CacheEntry>, uri: Seq<char>) -> Option<EntryView>
    decreases entries.len(),
{
    if entries.len() == 0 {
        None
    } else if entries.last().uri@ == uri {
        Some(entries.last()@)
    } else {
        entry_in(entries.drop_last(), uri)
    }
}

/// A response cache keyed by request URI. A disabled cache stores nothing
/// and finds nothing, so that every GET through it behaves as uncached.
#[derive(Clone, Debug, PartialEq, Eq)]
pub struct ResponseCache {
    enabled: bool,
    entries: Vec<CacheEntry>,
}

impl ResponseCache {
    /// Whether the cache keeps anything.
    pub closed spec fn is_enabled(&self) -> bool {
        self.enabled
    }

    /// The entry held for `uri`.
    pub closed spec fn entry(&self, uri: Seq<char>) -> Option<EntryView> {
        if self.enabled {
            entry_in(self.entries@, uri)
        } else {
            None
        }
    }

    /// A cache that keeps responses in memory, empty at first.
    pub fn in_memory() -> (r: ResponseCache)
        ensures
            r.is_enabled(),
            forall|u: Seq<char>| r.entry(u) is None,
    {
        ResponseCache { enabled: true, entries: Vec::new() }
    }

    /// A cache that keeps nothing.
    pub fn disabled() -> (r: ResponseCache)
        ensures
            !r.is_enabled(),
            forall|u: Seq<char>| r.entry(u) is None,
    {
        ResponseCache { enabled: false, entries: Vec::new() }
    }

    /// Whether the cache keeps anything.
    pub fn enabled(&self) -> (r: bool)
        ensures
            r == self.is_enabled(),
    {
        self.enabled
    }

    /// The position of the entry held for `uri`.
    fn position(&self, uri: &str) -> (r: Option<usize>)
        ensures
            match r {
                Some(i) => i < self.entries@.len() && self.entries@[i as int].uri@ == uri@
                    && entry_in(self.entries@, uri@) == Some(self.entries@[i as int]@)
                    && forall|j: int| i < j < self.entries@.len() ==> #[trigger] self.entries@[j].uri@ != uri@,
                None => entry_in(self.entries@, uri@) is None,
            },
    {
        let mut i: usize = self.entries.len();
        assert(self.entries@.subrange(0, i as int) =~= self.entries@);
        while i > 0
            invariant
                i <= self.entries@.len(),
                entry_in(self.entries@.subrange(0, i as int), uri@) == entry_in(self.entries@, uri@),
                forall|j: int| i <= j < self.entries@.len() ==> #[trigger] self.entries@[j].uri@ != uri@,
            decreases i,
        {
            let ghost pre = self.entries@.subrange(0, i as int);
            assert(pre.drop_last() =~= self.entries@.subrange(0, i - 1));
            if same_text(self.entries[i - 1].uri.as_str(), uri) {
                return Some(i - 1);
            }
            i = i - 1;
        }
        assert(self.entries@.subrange(0, 0) =~= Seq::<CacheEntry>::empty());
        None
    }

    /// The validator remembered for `uri`.
    pub fn lookup_validator(&self, uri: &str) -> (r: Option<String>)
        ensures
            opt_view(r) == match self.entry(uri@) {
                Some(e) => Some(e.validator),
                None => None,
            },
    {
        if !self.enabled {
            return None;
        }
        match self.position(uri) {
            Some(i) => Some(self.entries[i].validator.clone()),
            None => None,
        }
    }

    /// The body remembered for `uri`.
    pub fn lookup_body(&self, uri: &str) -> (r: Option<Vec<u8>>)
        ensures
            match r {
                Some(b) => self.entry(uri@) is Some && b@ == self.entry(uri@)->0.body,
                None => self.entry(uri@) is None,
            },
    {
        if !self.enabled {
            return None;
        }
        match self.position(uri) {
            Some(i) => Some(self.entries[i].body.clone()),
            None => None,
        }
    }

    /// The continuation remembered for `uri`; `None` also when nothing is
    /// remembered for it.
    pub fn lookup_continuation(&self, uri: &str) -> (r: Option<String>)
        ensures
            opt_view(r) == match self.entry(uri@) {
                Some(e) => e.continuation,
                None => None,
            },
    {
        if !self.enabled {
            return None;
        }
        match self.position(uri) {
            Some(i) => match &self.entries[i].continuation {
                Some(c) => Some(c.clone()),
                None => None,
            },
            None => None,
        }
    }

    /// Remembers `entry` under its URI, in place of what was there; a
    /// disabled cache is left as it is.
    pub fn store(&mut self, entry: CacheEntry)
        ensures
            final(self).is_enabled() == old(self).is_enabled(),
            old(self).is_enabled() ==> final(self).entry(entry.uri@) == Some(entry@),
            !old(self).is_enabled() ==> *final(self) == *old(self),
            forall|u: Seq<char>| u != entry.uri@ ==> #[trigger] final(self).entry(u) == old(self).entry(u),
    {
        if !self.enabled {
            return;
        }
        let ghost e = entry@;
        let ghost before = self.entries@;
        match self.position(entry.uri.as_str()) {
            Some(i) => {
                self.entries.set(i, entry);
                proof {
                    lemma_entry_in_update(before, i as int, self.entries@[i as int]);
                }
            },
            None => {
                self.entries.push(entry);
                assert(self.entries@.drop_last() =~= before);
            },
        }
    }
}

/// A disabled cache finds nothing.
pub proof fn lemma_disabled_finds_nothing(cache: ResponseCache, uri: Seq<char>)
    requires
        !cache.is_enabled(),
    ensures
        cache.entry(uri) is None,
{
}

proof fn lemma_entry_in_update(entries: Seq<CacheEntry>, i: int, e: CacheEntry)
    requires
        0 <= i < entries.len(),
        entries[i].uri@ == e.uri@,
        forall|j: int| i < j < entries.len() ==> #[trigger] entries[j].uri@ != e.uri@,
    ensures
        entry_in(entries.update(i, e), e.uri@) == Some(e@),
        forall|u: Seq<char>| u != e.uri@ ==> #[trigger] entry_in(entries.update(i, e), u) == entry_in(entries, u),
    decreases entries.len(),
{
    let up = entries.update(i, e);
    if i == entries.len() - 1 {
        assert(up.drop_last() =~= entries.drop_last());
        assert forall|u: Seq<char>| u != e.uri@ implies #[trigger] entry_in(up, u) == entry_in(entries, u) by {
            assert(up.last() == e);
            assert(entries.last().uri@ == e.uri@);
        }
    } else {
        assert(up.drop_last() =~= entries.drop_last().update(i, e));
        lemma_entry_in_update(entries.drop_last(), i, e);
        assert forall|u: Seq<char>| u != e.uri@ implies #[trigger] entry_in(up, u) == entry_in(entries, u) by {
            assert(up.last() == entries.last());
            assert(entry_in(entries.drop_last().update(i, e), u) == entry_in(entries.drop_last(), u));
        }
    }
}

} // verus!
