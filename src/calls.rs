//! Endpoint calls: the verb, the path with its query string, and the body of
//! one operation of a service, ready for the executor.

use vstd::prelude::*;
use vstd::string::StringSliceAdditionalSpecFns;
use crate::executor::Method;
use crate::link::views;
use crate::text::{decimal, push_char, push_decimal};

verus! {

/// One operation of a service.
#[derive(Clone, Debug, PartialEq, Eq)]
pub struct ApiCall {
    pub method: Method,
    /// The path on the client's host, with its query string.
    pub path: String,
    pub body: Option<Vec<u8>>,
}

/// The response format of a Google API call.
#[derive(Clone, Copy, PartialEq, Eq, Structural, Debug)]
pub enum Alt {
    Json,
    Media,
    Proto,
}

/// How a format is written in a query.
pub open spec fn alt_text(a: Alt) -> Seq<char> {
    match a {
        Alt::Json => "json"@,
        Alt::Media => "media"@,
        Alt::Proto => "proto"@,
    }
}

impl Alt {
    /// How the format is written in a query.
    pub fn as_str(&self) -> (r: &'static str)
        ensures
            r@ == alt_text(*self),
    {
        match self {
            Alt::Json => "json",
            Alt::Media => "media",
            Alt::Proto => "proto",
        }
    }
}

/// `name=value`.
pub open spec fn param(name: Seq<char>, value: Seq<char>) -> Seq<char> {
    name + seq!['='] + value
}

/// `name=value` when the value is not empty; nothing otherwise.
pub open spec fn optional(name: Seq<char>, value: Seq<char>) -> Seq<Seq<char>> {
    if value.len() == 0 {
        Seq::empty()
    } else {
        seq![param(name, value)]
    }
}

/// `name=true` when `on`; nothing otherwise.
pub open spec fn flag(name: Seq<char>, on: bool) -> Seq<Seq<char>> {
    if on {
        seq![param(name, "true"@)]
    } else {
        Seq::empty()
    }
}

/// `name=n` in decimal when `n` is positive; nothing otherwise.
pub open spec fn positive(name: Seq<char>, n: i64) -> Seq<Seq<char>> {
    if n > 0 {
        seq![param(name, decimal(n as nat))]
    } else {
        Seq::empty()
    }
}

/// The parameters joined by `&`.
pub open spec fn joined(args: Seq<Seq<char>>) -> Seq<char>
    decreases args.len(),
{
    if args.len() == 0 {
        Seq::empty()
    } else if args.len() == 1 {
        args[0]
    } else {
        joined(args.drop_last()) + seq!['&'] + args.last()
    }
}

/// Adds `name=value`.
pub fn push_param(args: &mut Vec<String>, name: &str, value: &str)
    ensures
        views(final(args)@) == views(old(args)@).push(param(name@, value@)),
{
    let mut p = String::from_str(name);
    push_char(&mut p, '=');
    p.append(value);
    assert(p@ =~= param(name@, value@));
    args.push(p);
    assert(views(args@) =~= views(old(args)@).push(param(name@, value@)));
}

/// Adds `name=value` when the value is not empty.
pub fn push_optional(args: &mut Vec<String>, name: &str, value: &str)
    ensures
        views(final(args)@) == views(old(args)@) + optional(name@, value@),
{
    if value.unicode_len() > 0 {
        push_param(args, name, value);
        assert(views(args@) =~= views(old(args)@) + optional(name@, value@));
    } else {
        assert(views(args@) =~= views(old(args)@) + optional(name@, value@));
    }
}

/// Adds `name=true` when `on`.
pub fn push_flag(args: &mut Vec<String>, name: &str, on: bool)
    ensures
        views(final(args)@) == views(old(args)@) + flag(name@, on),
{
    if on {
        push_param(args, name, "true");
    }
    assert(views(args@) =~= views(old(args)@) + flag(name@, on));
}

/// Adds `name=n` when `n` is positive.
pub fn push_positive(args: &mut Vec<String>, name: &str, n: i64)
    ensures
        views(final(args)@) == views(old(args)@) + positive(name@, n),
{
    if n > 0 {
        let mut v = String::new();
        push_decimal(&mut v, n as u64);
        assert(v@ =~= decimal(n as nat));
        push_param(args, name, v.as_str());
    }
    assert(views(args@) =~= views(old(args)@) + positive(name@, n));
}

/// `prefix`, then `?`, then the parameters joined by `&`.
pub fn with_query(prefix: String, args: &Vec<String>) -> (r: String)
    ensures
        r@ == prefix@ + seq!['?'] + joined(views(args@)),
{
    let mut r = prefix;
    push_char(&mut r, '?');
    let ghost start = r@;
    let mut i: usize = 0;
    while i < args.len()
        invariant
            r@ == start + joined(views(args@).subrange(0, i as int)),
            i <= args.len(),
        decreases args.len() - i,
    {
        let ghost pre = views(args@).subrange(0, i as int);
        let ghost next = views(args@).subrange(0, i + 1);
        assert(next.drop_last() =~= pre);
        assert(next.last() == args@[i as int]@);
        if i > 0 {
            push_char(&mut r, '&');
        }
        r.append(args[i].as_str());
        assert(r@ =~= start + joined(next));
        i = i + 1;
    }
    assert(views(args@).subrange(0, args.len() as int) =~= views(args@));
    r
}

/// A byte that stands for itself in a path segment: printable ASCII other
/// than space, `"`, `#`, `<`, `>`, `?`, `` ` ``, `{` and `}`.
pub open spec fn path_safe(b: u8) -> bool {
    0x21 <= b <= 0x7e && b != 0x22 && b != 0x23 && b != 0x3c && b != 0x3e && b != 0x3f
        && b != 0x60 && b != 0x7b && b != 0x7d
}

/// An upper-case hexadecimal digit.
pub open spec fn hex_digit(d: u8) -> char {
    if d < 10 {
        (0x30 + d) as char
    } else {
        (0x37 + d) as char
    }
}

/// One byte of a path segment, percent-encoded when it is not safe.
pub open spec fn encoded_byte(b: u8) -> Seq<char> {
    if path_safe(b) {
        seq![b as char]
    } else {
        seq!['%', hex_digit(b / 16), hex_digit(b % 16)]
    }
}

/// The UTF-8 bytes of a path segment, percent-encoded.
pub open spec fn encoded_path(bytes: Seq<u8>) -> Seq<char>
    decreases bytes.len(),
{
    if bytes.len() == 0 {
        Seq::empty()
    } else {
        encoded_path(bytes.drop_last()) + encoded_byte(bytes.last())
    }
}

fn hex(d: u8) -> (c: char)
    requires
        d < 16,
    ensures
        c == hex_digit(d),
{
    if d < 10 {
        (0x30 + d) as char
    } else {
        (0x37 + d) as char
    }
}

/// Appends the path segment `segment`, percent-encoded.
pub fn push_encoded(r: &mut String, segment: &str)
    ensures
        final(r)@ == old(r)@ + encoded_path(segment.spec_bytes()),
{
    let bytes = segment.as_bytes();
    let ghost start = r@;
    let mut i: usize = 0;
    while i < bytes.len()
        invariant
            bytes@ == segment.spec_bytes(),
            i <= bytes@.len(),
            r@ == start + encoded_path(bytes@.subrange(0, i as int)),
        decreases bytes@.len() - i,
    {
        let b = bytes[i];
        assert(bytes@.subrange(0, i + 1).drop_last() =~= bytes@.subrange(0, i as int));
        if 0x21 <= b && b <= 0x7e && b != 0x22 && b != 0x23 && b != 0x3c && b != 0x3e && b != 0x3f
            && b != 0x60 && b != 0x7b && b != 0x7d {
            push_char(r, b as char);
        } else {
            push_char(r, '%');
            push_char(r, hex(b / 16));
            push_char(r, hex(b % 16));
        }
        assert(r@ =~= start + encoded_path(bytes@.subrange(0, i + 1)));
        i = i + 1;
    }
    assert(bytes@.subrange(0, bytes@.len() as int) =~= bytes@);
}

/// The string `s`.
pub fn text(s: &str) -> (r: String)
    ensures
        r@ == s@,
{
    String::from_str(s)
}

} // verus!
