//! The port that the text of a URL writes after its host.
//!
//! A parsed URL no longer holds a port that is the well-known one of its
//! scheme. The text still does. It is read here in its plain form,
//! `scheme://authority`: the authority ends at the first `/`, `\`, `?` or
//! `#`, and the port is the run of digits that ends the authority after a
//! `:`. A text in any other form writes no port as far as this goes.

use crate::address::{decimal, lemma_decimal_digits};
use crate::url_parts::{UrlParts, UrlPartsView};
use vstd::prelude::*;

verus! {

/// The colon that ends a scheme.
pub open spec fn colon() -> spec_fn(char) -> bool {
    |c: char| c == ':'
}

/// The characters that end the authority of a URL.
pub open spec fn authority_end() -> spec_fn(char) -> bool {
    |c: char| c == '/' || c == '\\' || c == '?' || c == '#'
}

/// The index of the first character at or after `from` that `stop` holds
/// of, or the length of the text where there is none.
pub open spec fn first_where(text: Seq<char>, from: int, stop: spec_fn(char) -> bool) -> int
    decreases text.len() - from,
{
    if from < 0 || from >= text.len() {
        text.len() as int
    } else if stop(text[from]) {
        from
    } else {
        first_where(text, from + 1, stop)
    }
}

/// Whether `c` is a decimal digit.
pub open spec fn is_digit(c: char) -> bool {
    '0' <= c && c <= '9'
}

/// The number that a decimal digit stands for.
pub open spec fn digit_value(c: char) -> nat {
    (c as u32 - '0' as u32) as nat
}

/// Where the run of digits begins that ends `text[from..to]`: `to` itself
/// where the character before `to` is no digit.
pub open spec fn digits_start(text: Seq<char>, from: int, to: int) -> int
    decreases to - from,
{
    if from < to && to <= text.len() && is_digit(text[to - 1]) {
        digits_start(text, from, to - 1)
    } else {
        to
    }
}

/// The number that the digits `text[from..to]` spell in decimal.
pub open spec fn value_of(text: Seq<char>, from: int, to: int) -> nat
    decreases to - from,
{
    if from < to && to <= text.len() {
        10 * value_of(text, from, to - 1) + digit_value(text[to - 1])
    } else {
        0
    }
}

/// The port that a URL's text writes: the digits that end its authority
/// after a `:`, where there are any and their number fits a port.
pub open spec fn written_port(text: Seq<char>) -> Option<u16> {
    let scheme_end = first_where(text, 0, colon());
    if scheme_end + 2 < text.len() && text[scheme_end + 1] == '/' && text[scheme_end + 2] == '/' {
        let start = scheme_end + 3;
        let end = first_where(text, start, authority_end());
        let digits = digits_start(text, start, end);
        if start < digits < end && text[digits - 1] == ':' && value_of(text, digits, end)
            <= u16::MAX {
            Some(value_of(text, digits, end) as u16)
        } else {
            None
        }
    } else {
        None
    }
}

/// The characters of a text, one by one.
fn chars_of(text: &str) -> (r: Vec<char>)
    ensures
        r@ == text@,
{
    let mut r: Vec<char> = Vec::new();
    for c in it: text.chars()
        invariant
            it.seq() == text@,
            r@ == it.seq().take(it.index() as int),
    {
        r.push(c);
    }
    r
}

/// Where the scheme ends: the first `:`.
fn find_colon(text: &Vec<char>) -> (i: usize)
    ensures
        i == first_where(text@, 0, colon()),
{
    let mut i: usize = 0;
    while i < text.len() && text[i] != ':'
        invariant
            i <= text.len(),
            first_where(text@, 0, colon()) == first_where(text@, i as int, colon()),
        decreases text.len() - i,
    {
        i += 1;
    }
    i
}

/// Where the authority that begins at `from` ends.
fn find_authority_end(text: &Vec<char>, from: usize) -> (i: usize)
    requires
        from <= text.len(),
    ensures
        from <= i <= text.len(),
        i == first_where(text@, from as int, authority_end()),
{
    let mut i: usize = from;
    while i < text.len() && text[i] != '/' && text[i] != '\\' && text[i] != '?' && text[i]
        != '#'
        invariant
            from <= i <= text.len(),
            first_where(text@, from as int, authority_end()) == first_where(
                text@,
                i as int,
                authority_end(),
            ),
        decreases text.len() - i,
    {
        i += 1;
    }
    i
}

/// Where the digits begin that end `text[from..to]`.
fn find_digits_start(text: &Vec<char>, from: usize, to: usize) -> (i: usize)
    requires
        from <= to <= text.len(),
    ensures
        from <= i <= to,
        i == digits_start(text@, from as int, to as int),
{
    let mut i: usize = to;
    while from < i && '0' <= text[i - 1] && text[i - 1] <= '9'
        invariant
            from <= i <= to <= text.len(),
            digits_start(text@, from as int, to as int) == digits_start(
                text@,
                from as int,
                i as int,
            ),
        decreases i,
    {
        i -= 1;
    }
    i
}

/// A number spelled with more digits is no smaller.
proof fn lemma_value_grows(text: Seq<char>, from: int, mid: int, to: int)
    requires
        from <= mid <= to <= text.len(),
    ensures
        value_of(text, from, mid) <= value_of(text, from, to),
    decreases to - mid,
{
    if mid < to {
        lemma_value_grows(text, from, mid, to - 1);
    }
}

/// The number that the digits `text[from..to]` spell, if it fits a port.
fn read_port(text: &Vec<char>, from: usize, to: usize) -> (r: Option<u16>)
    requires
        from <= to <= text.len(),
        forall|j: int| from <= j < to ==> is_digit(#[trigger] text@[j]),
    ensures
        r == if value_of(text@, from as int, to as int) <= u16::MAX {
            Some(value_of(text@, from as int, to as int) as u16)
        } else {
            None
        },
{
    let mut value: u32 = 0;
    let mut i: usize = from;
    while i < to
        invariant
            from <= i <= to <= text.len(),
            forall|j: int| from <= j < to ==> is_digit(#[trigger] text@[j]),
            value == value_of(text@, from as int, i as int),
            value <= u16::MAX,
        decreases to - i,
    {
        let digit: u32 = text[i] as u32 - '0' as u32;
        value = value * 10 + digit;
        i += 1;
        if value > 65535 {
            proof {
                lemma_value_grows(text@, from as int, i as int, to as int);
            }
            return None;
        }
    }
    Some(value as u16)
}

/// Every character of the run that `digits_start` finds is a digit.
proof fn lemma_digits_are_digits(text: Seq<char>, from: int, to: int)
    requires
        0 <= from <= to <= text.len(),
    ensures
        from <= digits_start(text, from, to) <= to,
        forall|j: int|
            digits_start(text, from, to) <= j < to ==> is_digit(#[trigger] text[j]),
    decreases to - from,
{
    if from < to && is_digit(text[to - 1]) {
        lemma_digits_are_digits(text, from, to - 1);
    }
}

/// Reads the port that a URL's text writes after its host.
pub fn find_written_port(url: &str) -> (r: Option<u16>)
    ensures
        r == written_port(url@),
{
    let text = chars_of(url);
    let scheme_end: usize = find_colon(&text);
    if text.len() < 3 || scheme_end >= text.len() - 2 {
        return None;
    }
    if text[scheme_end + 1] != '/' || text[scheme_end + 2] != '/' {
        return None;
    }
    let start: usize = scheme_end + 3;
    let end: usize = find_authority_end(&text, start);
    let digits: usize = find_digits_start(&text, start, end);
    if digits <= start || digits >= end || text[digits - 1] != ':' {
        return None;
    }
    proof {
        lemma_digits_are_digits(text@, start as int, end as int);
    }
    read_port(&text, digits, end)
}

/// The parts of a URL with the port that its text writes put back where
/// parsing has dropped it. A port that the parts hold is left alone.
pub open spec fn restore_port(parts: UrlPartsView, text: Seq<char>) -> UrlPartsView {
    UrlPartsView {
        port: match parts.port {
            Some(port) => Some(port),
            None => written_port(text),
        },
        ..parts
    }
}

impl UrlParts {
    /// Puts back the port that `url` writes, where these parts hold none.
    pub fn with_written_port(self, url: &str) -> (r: UrlParts)
        ensures
            r@ == restore_port(self@, url@),
    {
        match self.port {
            Some(_) => self,
            None => UrlParts {
                scheme: self.scheme,
                host: self.host,
                port: find_written_port(url),
                username: self.username,
                password: self.password,
            },
        }
    }
}

/// A URL as it is written with a port: the scheme, `://`, what comes
/// before the port (credentials and host), `:`, the port in decimal, and
/// what follows the authority.
pub open spec fn url_with_port(scheme: Seq<char>, front: Seq<char>, port: u16, rest: Seq<char>)
    -> Seq<char> {
    scheme + seq![':', '/', '/'] + front + seq![':'] + decimal(port as nat) + rest
}

/// A URL as it is written without a port.
pub open spec fn url_without_port(scheme: Seq<char>, authority: Seq<char>, rest: Seq<char>)
    -> Seq<char> {
    scheme + seq![':', '/', '/'] + authority + rest
}

/// Whether `stop` holds of no character of `text`.
pub open spec fn free_of(text: Seq<char>, stop: spec_fn(char) -> bool) -> bool {
    forall|i: int| 0 <= i < text.len() ==> !stop(#[trigger] text[i])
}

/// A search passes over characters that it is not looking for.
proof fn lemma_search_passes(text: Seq<char>, from: int, to: int, stop: spec_fn(char) -> bool)
    requires
        0 <= from <= to <= text.len(),
        forall|i: int| from <= i < to ==> !stop(#[trigger] text[i]),
    ensures
        first_where(text, from, stop) == first_where(text, to, stop),
    decreases to - from,
{
    if from < to {
        lemma_search_passes(text, from + 1, to, stop);
    }
}

/// A run of digits that nothing but digits follows up to `to`, and that no
/// digit precedes, is the run that ends `text[from..to]`.
proof fn lemma_digits_start_at(text: Seq<char>, from: int, run: int, to: int)
    requires
        0 <= from <= run <= to <= text.len(),
        forall|i: int| run <= i < to ==> is_digit(#[trigger] text[i]),
        run == from || !is_digit(text[run - 1]),
    ensures
        digits_start(text, from, to) == run,
    decreases to - run,
{
    if run < to {
        lemma_digits_start_at(text, from, run, to - 1);
    }
}

/// Reading a rendered number gives the number back.
proof fn lemma_value_of_decimal(text: Seq<char>, from: int, n: nat)
    requires
        0 <= from,
        from + decimal(n).len() <= text.len(),
        text.subrange(from, from + decimal(n).len()) == decimal(n),
    ensures
        value_of(text, from, from + decimal(n).len()) == n,
    decreases n,
{
    let len = decimal(n).len() as int;
    lemma_decimal_digits(n);
    assert(text[from + len - 1] == decimal(n)[len - 1]);
    if n < 10 {
        assert(value_of(text, from, from) == 0);
    } else {
        let shorter = decimal(n / 10);
        assert(decimal(n) == shorter.push(crate::address::digit_char(n % 10)));
        assert(text.subrange(from, from + shorter.len()) == shorter) by {
            assert(text.subrange(from, from + shorter.len()) =~= decimal(n).subrange(
                0,
                shorter.len() as int,
            ));
            assert(decimal(n).subrange(0, shorter.len() as int) =~= shorter);
        }
        lemma_value_of_decimal(text, from, n / 10);
    }
}

/// A port written after the host is read as it is written, whatever the
/// scheme, the credentials and the host are, and whatever follows.
pub proof fn lemma_written_port_is_read(
    scheme: Seq<char>,
    front: Seq<char>,
    port: u16,
    rest: Seq<char>,
)
    requires
        free_of(scheme, colon()),
        free_of(front, authority_end()),
        rest.len() > 0 ==> authority_end()(rest[0]),
    ensures
        written_port(url_with_port(scheme, front, port, rest)) == Some(port),
{
    let text = url_with_port(scheme, front, port, rest);
    let digits = decimal(port as nat);
    lemma_decimal_digits(port as nat);
    let scheme_end = scheme.len() as int;
    let start = scheme_end + 3;
    let run = start + front.len() + 1;
    let end = run + digits.len();
    assert(text.len() == end + rest.len());
    assert forall|i: int| 0 <= i < scheme_end implies !colon()(#[trigger] text[i]) by {
        assert(text[i] == scheme[i]);
    }
    lemma_search_passes(text, 0, scheme_end, colon());
    assert(text[scheme_end] == ':' && text[scheme_end + 1] == '/' && text[scheme_end + 2] == '/');
    assert(first_where(text, 0, colon()) == scheme_end);
    assert forall|i: int| start <= i < end implies !authority_end()(#[trigger] text[i]) by {
        if i < run - 1 {
            assert(text[i] == front[i - start]);
        } else if i == run - 1 {
            assert(text[i] == ':');
        } else {
            assert(text[i] == digits[i - run]);
        }
    }
    lemma_search_passes(text, start, end, authority_end());
    if rest.len() > 0 {
        assert(text[end] == rest[0]);
    }
    assert(first_where(text, start, authority_end()) == end);
    assert forall|i: int| run <= i < end implies is_digit(#[trigger] text[i]) by {
        assert(text[i] == digits[i - run]);
    }
    assert(text[run - 1] == ':');
    lemma_digits_start_at(text, start, run, end);
    assert(text.subrange(run, end) =~= digits);
    lemma_value_of_decimal(text, run, port as nat);
}

/// A URL whose authority does not end in a digit writes no port.
pub proof fn lemma_no_port_is_read(scheme: Seq<char>, authority: Seq<char>, rest: Seq<char>)
    requires
        free_of(scheme, colon()),
        free_of(authority, authority_end()),
        rest.len() > 0 ==> authority_end()(rest[0]),
        authority.len() == 0 || !is_digit(authority.last()),
    ensures
        written_port(url_without_port(scheme, authority, rest)) is None,
{
    let text = url_without_port(scheme, authority, rest);
    let scheme_end = scheme.len() as int;
    let start = scheme_end + 3;
    let end = start + authority.len();
    assert forall|i: int| 0 <= i < scheme_end implies !colon()(#[trigger] text[i]) by {
        assert(text[i] == scheme[i]);
    }
    lemma_search_passes(text, 0, scheme_end, colon());
    assert(text[scheme_end] == ':');
    assert(first_where(text, 0, colon()) == scheme_end);
    assert forall|i: int| start <= i < end implies !authority_end()(#[trigger] text[i]) by {
        assert(text[i] == authority[i - start]);
    }
    lemma_search_passes(text, start, end, authority_end());
    if rest.len() > 0 {
        assert(text[end] == rest[0]);
    }
    assert(first_where(text, start, authority_end()) == end);
    if authority.len() > 0 {
        assert(text[end - 1] == authority.last());
    }
    assert(digits_start(text, start, end) == end);
}

} // verus!
