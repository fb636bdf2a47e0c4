//! The paginator: follows continuation links from page to page and gathers
//! the items of every page, in the order they were released.

use vstd::prelude::*;
use crate::text::{opt_view, push_char, same_text};

verus! {

/// The state of a pagination: the items gathered so far, the page still to
/// fetch, if any, and how many pages have been taken.
pub struct Paginator<T> {
    items: Vec<T>,
    next: Option<String>,
    pages: Ghost<nat>,
}

/// The mathematical value of a [`Paginator`].
pub struct PaginatorView<T> {
    pub collected: Seq<T>,
    pub next: Option<Seq<char>>,
    pub pages: nat,
}

impl<T> View for Paginator<T> {
    type V = PaginatorView<T>;

    closed spec fn view(&self) -> PaginatorView<T> {
        PaginatorView { collected: self.items@, next: opt_view(self.next), pages: self.pages@ }
    }
}

/// A pagination about to fetch its first page, at `uri`.
pub open spec fn start<T>(uri: Seq<char>) -> PaginatorView<T> {
    PaginatorView { collected: Seq::empty(), next: Some(uri), pages: 0 }
}

/// The state after a page with `items` and `continuation` arrived: a
/// non-empty batch is gathered, and the continuation is fetched next; an
/// empty batch, or no continuation, ends the pagination. A page that arrives
/// once the pagination has ended changes nothing.
pub open spec fn after_page<T>(p: PaginatorView<T>, items: Seq<T>, continuation: Option<Seq<char>>) -> PaginatorView<T> {
    if p.next is None {
        p
    } else {
        PaginatorView {
            collected: p.collected + items,
            next: if items.len() == 0 {
                None
            } else {
                continuation
            },
            pages: p.pages + 1,
        }
    }
}

impl<T> Paginator<T> {
    /// A pagination whose first page is at `uri`.
    pub fn new(uri: String) -> (r: Paginator<T>)
        ensures
            r@ == start::<T>(uri@),
    {
        let r = Paginator { items: Vec::new(), next: Some(uri), pages: Ghost(0) };
        assert(r@.collected =~= Seq::<T>::empty());
        r
    }

    /// The address of the page to fetch next; `None` once the pagination
    /// has ended.
    pub fn pending(&self) -> (r: Option<String>)
        ensures
            opt_view(r) == self@.next,
    {
        match &self.next {
            Some(u) => Some(u.clone()),
            None => None,
        }
    }

    /// Takes the page fetched from the pending address.
    pub fn accept(&mut self, mut items: Vec<T>, continuation: Option<String>)
        ensures
            final(self)@ == after_page(old(self)@, items@, opt_view(continuation)),
    {
        if self.next.is_none() {
            return;
        }
        let ghost page = items@;
        let empty = items.len() == 0;
        self.items.append(&mut items);
        self.next = if empty {
            None
        } else {
            continuation
        };
        self.pages = Ghost(self.pages@ + 1);
        assert(self@.collected =~= old(self)@.collected + page);
    }

    /// The items gathered, in order.
    pub fn into_items(self) -> (r: Vec<T>)
        ensures
            r@ == self@.collected,
    {
        self.items
    }
}

/// A first page without a continuation ends the pagination: exactly one
/// page is fetched, whatever the page holds.
pub proof fn lemma_single_page<T>(uri: Seq<char>, items: Seq<T>)
    ensures
        after_page(start::<T>(uri), items, None).next is None,
        after_page(start::<T>(uri), items, None).pages == 1,
        after_page(start::<T>(uri), items, None).collected == items,
{
    assert(Seq::<T>::empty() + items =~= items);
}

/// The address of the page named by `token`, on the query `url`.
pub open spec fn token_page_url(url: Seq<char>, token: Seq<char>) -> Seq<char> {
    url + seq![if url.contains('?') { '&' } else { '?' }] + "pageToken="@ + token
}

/// The token to follow after a page that named `next`, when `current` was
/// followed to reach it: a new, non-empty token, or none (empty).
pub open spec fn token_after(current: Seq<char>, next: Seq<char>) -> Seq<char> {
    if next.len() > 0 && next != current {
        next
    } else {
        Seq::empty()
    }
}

/// Pagination by page token: each page names the token of the next one,
/// until a page holds no items, names no token, or repeats the token that
/// reached it.
pub struct TokenPager<T> {
    url: String,
    token: String,
    items: Vec<T>,
}

/// The mathematical value of a [`TokenPager`].
pub struct TokenPagerView<T> {
    pub url: Seq<char>,
    pub token: Seq<char>,
    pub collected: Seq<T>,
}

impl<T> View for TokenPager<T> {
    type V = TokenPagerView<T>;

    closed spec fn view(&self) -> TokenPagerView<T> {
        TokenPagerView { url: self.url@, token: self.token@, collected: self.items@ }
    }
}

fn has_question_mark(s: &str) -> (r: bool)
    ensures
        r == s@.contains('?'),
{
    let n = s.unicode_len();
    let mut i: usize = 0;
    while i < n
        invariant
            n == s@.len(),
            i <= n,
            forall|j: int| 0 <= j < i ==> s@[j] != '?',
        decreases n - i,
    {
        if s.get_char(i) == '?' {
            return true;
        }
        i = i + 1;
    }
    false
}

impl<T> TokenPager<T> {
    /// Pagination of the query `url`, whose first page held `items` and
    /// named `next_token`. An empty first page ends it at once.
    pub fn new(url: String, items: Vec<T>, next_token: String) -> (r: TokenPager<T>)
        ensures
            r@ == (TokenPagerView {
                url: url@,
                token: if items@.len() == 0 { Seq::empty() } else { next_token@ },
                collected: items@,
            }),
    {
        let token = if items.len() == 0 {
            String::new()
        } else {
            next_token
        };
        TokenPager { url, token, items }
    }

    /// The address of the next page; `None` once there is none.
    pub fn pending(&self) -> (r: Option<String>)
        ensures
            opt_view(r) == if self@.token.len() == 0 {
                None
            } else {
                Some(token_page_url(self@.url, self@.token))
            },
    {
        if self.token.unicode_len() == 0 {
            return None;
        }
        let mut r = self.url.clone();
        if has_question_mark(self.url.as_str()) {
            push_char(&mut r, '&');
        } else {
            push_char(&mut r, '?');
        }
        r.append("pageToken=");
        r.append(self.token.as_str());
        Some(r)
    }

    /// Takes the page fetched from the pending address: an empty batch ends
    /// the pagination, as does a page that names no new token. Once no page
    /// is pending, nothing changes.
    pub fn accept(&mut self, mut items: Vec<T>, next_token: String)
        ensures
            old(self)@.token.len() == 0 ==> final(self)@ == old(self)@,
            old(self)@.token.len() > 0 ==> final(self)@ == (TokenPagerView {
                url: old(self)@.url,
                token: if items@.len() == 0 {
                    Seq::empty()
                } else {
                    token_after(old(self)@.token, next_token@)
                },
                collected: old(self)@.collected + items@,
            }),
    {
        if self.token.unicode_len() == 0 {
            return;
        }
        let ghost page = items@;
        let empty = items.len() == 0;
        self.items.append(&mut items);
        if !empty && next_token.unicode_len() > 0 && !same_text(next_token.as_str(), self.token.as_str()) {
            self.token = next_token;
        } else {
            self.token = String::new();
        }
        assert(self@.collected =~= old(self)@.collected + page);
        assert(self@.token =~= if page.len() == 0 {
            Seq::empty()
        } else {
            token_after(old(self)@.token, next_token@)
        });
    }

    /// The items gathered, in order.
    pub fn into_items(self) -> (r: Vec<T>)
        ensures
            r@ == self@.collected,
    {
        self.items
    }
}

} // verus!
