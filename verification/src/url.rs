//! The addresses of the three endpoints, as text.

use vstd::prelude::*;
use vstd::string::StringExecFns;
use vstd::utf8::encode_utf8;
use crate::models::PaginationOpts;

verus! {

/// The character that stands for a value below ten.
pub open spec fn digit(d: nat) -> char {
    if d == 0 {
        '0'
    } else if d == 1 {
        '1'
    } else if d == 2 {
        '2'
    } else if d == 3 {
        '3'
    } else if d == 4 {
        '4'
    } else if d == 5 {
        '5'
    } else if d == 6 {
        '6'
    } else if d == 7 {
        '7'
    } else if d == 8 {
        '8'
    } else {
        '9'
    }
}

/// A number in base ten, most significant digit first, without leading zeros.
pub open spec fn decimal(n: nat) -> Seq<char>
    decreases n,
{
    if n < 10 {
        seq![digit(n)]
    } else {
        decimal(n / 10).push(digit(n % 10))
    }
}

/// Where the service lives: scheme and host, without a path.
pub open spec fn base() -> Seq<char> {
    "https://icanhazdadjoke.com"@
}

/// The address of the joke with the given id: the id follows `/j/` as it is.
pub open spec fn url_of_joke(id: Seq<char>) -> Seq<char> {
    base() + "/j/"@ + id
}

/// The address that answers with a joke of the service's choosing.
pub open spec fn url_of_random() -> Seq<char> {
    base() + "/"@
}

/// The address of one page of a search. The term goes into the query as it
/// is, so a term that holds `&` or `#` changes what the query says; the page
/// and the limit are digits and change nothing.
pub open spec fn url_of_search(term: Seq<char>, page: nat, limit: nat) -> Seq<char> {
    base() + "/search?term="@ + term + "&page="@ + decimal(page) + "&limit="@ + decimal(limit)
}

fn digit_text(d: u32) -> (text: &'static str)
    requires
        d < 10,
    ensures
        text@ == seq![digit(d as nat)],
{
    proof {
        reveal_strlit("0");
        reveal_strlit("1");
        reveal_strlit("2");
        reveal_strlit("3");
        reveal_strlit("4");
        reveal_strlit("5");
        reveal_strlit("6");
        reveal_strlit("7");
        reveal_strlit("8");
        reveal_strlit("9");
    }
    if d == 0 {
        "0"
    } else if d == 1 {
        "1"
    } else if d == 2 {
        "2"
    } else if d == 3 {
        "3"
    } else if d == 4 {
        "4"
    } else if d == 5 {
        "5"
    } else if d == 6 {
        "6"
    } else if d == 7 {
        "7"
    } else if d == 8 {
        "8"
    } else {
        "9"
    }
}

/// Writes `n` in base ten behind what `out` holds.
pub fn push_decimal(out: &mut String, n: u32)
    ensures
        final(out)@ == old(out)@ + decimal(n as nat),
    decreases n,
{
    if n >= 10 {
        push_decimal(out, n / 10);
    }
    out.append(digit_text(n % 10));
}

/// `n` in base ten.
pub fn decimal_text(n: u32) -> (text: String)
    ensures
        text@ == decimal(n as nat),
{
    let mut text = String::new();
    push_decimal(&mut text, n);
    text
}

/// Builds the address of the joke with the given id.
pub fn joke_url(id: &str) -> (url: String)
    ensures
        url@ == url_of_joke(id@),
{
    let mut url = String::from_str("https://icanhazdadjoke.com");
    url.append("/j/");
    url.append(id);
    url
}

/// Builds the address that answers with a joke of the service's choosing.
pub fn random_url() -> (url: String)
    ensures
        url@ == url_of_random(),
{
    let mut url = String::from_str("https://icanhazdadjoke.com");
    url.append("/");
    url
}

/// Builds the address of the page of a search that `opts` asks for.
pub fn search_url(term: &str, opts: PaginationOpts) -> (url: String)
    ensures
        url@ == url_of_search(term@, opts.page as nat, opts.limit as nat),
{
    let mut url = String::from_str("https://icanhazdadjoke.com");
    url.append("/search?term=");
    url.append(term);
    url.append("&page=");
    push_decimal(&mut url, opts.page);
    url.append("&limit=");
    push_decimal(&mut url, opts.limit as u32);
    url
}

/// A byte that stands for itself in any part of a URI: an ASCII letter or
/// digit, or one of `-`, `.`, `_` and `~`.
pub open spec fn unreserved(b: u8) -> bool {
    (0x30 <= b <= 0x39) || (0x41 <= b <= 0x5a) || (0x61 <= b <= 0x7a) || b == 0x2d || b == 0x2e
        || b == 0x5f || b == 0x7e
}

/// The character that stands for a value below sixteen, in upper case.
pub open spec fn hex_digit(d: nat) -> char {
    if d < 10 {
        digit(d)
    } else if d == 10 {
        'A'
    } else if d == 11 {
        'B'
    } else if d == 12 {
        'C'
    } else if d == 13 {
        'D'
    } else if d == 14 {
        'E'
    } else {
        'F'
    }
}

/// How one byte is written: an unreserved byte as its character, any other
/// as `%` and its two hexadecimal digits.
pub open spec fn escaped(b: u8) -> Seq<char> {
    if unreserved(b) {
        seq![b as char]
    } else {
        seq!['%', hex_digit((b / 16) as nat), hex_digit((b % 16) as nat)]
    }
}

/// The bytes written one after the other, each as [`escaped`] says.
pub open spec fn percent_encoded(bytes: Seq<u8>) -> Seq<char>
    decreases bytes.len(),
{
    if bytes.len() == 0 {
        Seq::empty()
    } else {
        percent_encoded(bytes.drop_last()) + escaped(bytes.last())
    }
}

/// Appends one character with `String::push`, which puts the character
/// behind what the string holds and changes nothing else.
#[verifier::external_body]
fn push_char(out: &mut String, c: char)
    ensures
        final(out)@ == old(out)@.push(c),
{
    out.push(c)
}

fn hex_char(d: u8) -> (c: char)
    requires
        d < 16,
    ensures
        c == hex_digit(d as nat),
{
    if d == 0 {
        '0'
    } else if d == 1 {
        '1'
    } else if d == 2 {
        '2'
    } else if d == 3 {
        '3'
    } else if d == 4 {
        '4'
    } else if d == 5 {
        '5'
    } else if d == 6 {
        '6'
    } else if d == 7 {
        '7'
    } else if d == 8 {
        '8'
    } else if d == 9 {
        '9'
    } else if d == 10 {
        'A'
    } else if d == 11 {
        'B'
    } else if d == 12 {
        'C'
    } else if d == 13 {
        'D'
    } else if d == 14 {
        'E'
    } else {
        'F'
    }
}

fn is_unreserved(b: u8) -> (plain: bool)
    ensures
        plain == unreserved(b),
{
    (0x30 <= b && b <= 0x39) || (0x41 <= b && b <= 0x5a) || (0x61 <= b && b <= 0x7a) || b == 0x2d
        || b == 0x2e || b == 0x5f || b == 0x7e
}

/// Writes a text so that it can stand in a query without changing what the
/// query says: the bytes of its UTF-8 form, each as [`escaped`] says.
pub fn percent_encode(text: &str) -> (out: String)
    ensures
        out@ == percent_encoded(encode_utf8(text@)),
{
    let bytes = text.as_bytes();
    let mut out = String::new();
    let mut k: usize = 0;
    while k < bytes.len()
        invariant
            k <= bytes.len(),
            out@ == percent_encoded(bytes@.take(k as int)),
        decreases bytes.len() - k,
    {
        let b = bytes[k];
        proof {
            assert(bytes@.take(k + 1).drop_last() =~= bytes@.take(k as int));
        }
        if is_unreserved(b) {
            push_char(&mut out, b as char);
        } else {
            push_char(&mut out, '%');
            push_char(&mut out, hex_char(b / 16));
            push_char(&mut out, hex_char(b % 16));
        }
        assert(out@ =~= percent_encoded(bytes@.take(k as int)) + escaped(b));
        k += 1;
    }
    assert(bytes@.take(k as int) =~= bytes@);
    out
}

/// A character that means nothing to a URI but itself, or the `%` that opens
/// an escape.
pub open spec fn plain(c: char) -> bool {
    c == '%' || (c as u32 <= 0x7f && unreserved(c as u8))
}

/// A text that was percent-encoded holds plain characters only: none of
/// `&`, `=`, `#`, `?`, `/` or a space, whatever the text was.
pub proof fn lemma_percent_encoded_is_plain(bytes: Seq<u8>)
    ensures
        forall|i: int| 0 <= i < percent_encoded(bytes).len() ==> plain(#[trigger] percent_encoded(bytes)[i]),
    decreases bytes.len(),
{
    if bytes.len() > 0 {
        lemma_percent_encoded_is_plain(bytes.drop_last());
        let head = percent_encoded(bytes.drop_last());
        let tail = escaped(bytes.last());
        assert forall|i: int| 0 <= i < tail.len() implies plain(#[trigger] tail[i]) by {}
        assert forall|i: int| 0 <= i < (head + tail).len() implies plain(#[trigger] (head + tail)[i]) by {
            if i >= head.len() {
                assert((head + tail)[i] == tail[i - head.len()]);
            }
        }
    }
}

/// A number in base ten holds digits only, so it stands in a query as it is.
pub proof fn lemma_decimal_is_plain(n: nat)
    ensures
        forall|i: int| 0 <= i < decimal(n).len() ==> plain(#[trigger] decimal(n)[i]),
    decreases n,
{
    assert(plain(digit(n % 10)));
    if n >= 10 {
        lemma_decimal_is_plain(n / 10);
        let head = decimal(n / 10);
        assert forall|i: int| 0 <= i < decimal(n).len() implies plain(#[trigger] decimal(n)[i]) by {
            if i < head.len() {
                assert(decimal(n)[i] == head[i]);
            }
        }
    }
}

/// The value that a hexadecimal digit in upper case stands for.
pub open spec fn hex_value(c: char) -> nat {
    if c == 'A' {
        10
    } else if c == 'B' {
        11
    } else if c == 'C' {
        12
    } else if c == 'D' {
        13
    } else if c == 'E' {
        14
    } else if c == 'F' {
        15
    } else {
        (c as u32 - 0x30) as nat
    }
}

/// The bytes that a percent-encoded text stands for: each escape read as the
/// byte of its two digits, every other character as its own byte. A text
/// that breaks off inside an escape ends there.
pub open spec fn percent_decoded(text: Seq<char>) -> Seq<u8>
    decreases text.len(),
{
    if text.len() == 0 {
        Seq::empty()
    } else if text[0] != '%' {
        seq![text[0] as u8] + percent_decoded(text.drop_first())
    } else if text.len() >= 3 {
        seq![(16 * hex_value(text[1]) + hex_value(text[2])) as u8] + percent_decoded(
            text.subrange(3, text.len() as int),
        )
    } else {
        Seq::empty()
    }
}

/// Encoding may start at the first byte as well as at the last.
proof fn lemma_percent_encoded_from_the_front(first: u8, rest: Seq<u8>)
    ensures
        percent_encoded(seq![first] + rest) == escaped(first) + percent_encoded(rest),
    decreases rest.len(),
{
    let all = seq![first] + rest;
    if rest.len() == 0 {
        reveal_with_fuel(percent_encoded, 2);
        assert(all.drop_last() =~= Seq::<u8>::empty());
        assert(percent_encoded(all) =~= escaped(first) + percent_encoded(rest));
    } else {
        assert(all.drop_last() =~= seq![first] + rest.drop_last());
        lemma_percent_encoded_from_the_front(first, rest.drop_last());
        assert(percent_encoded(all) =~= escaped(first) + percent_encoded(rest));
    }
}

/// Percent-encoding loses nothing: the encoded text stands for the bytes
/// that it was made of.
pub proof fn lemma_percent_encoding_round_trip(bytes: Seq<u8>)
    ensures
        percent_decoded(percent_encoded(bytes)) == bytes,
    decreases bytes.len(),
{
    if bytes.len() > 0 {
        let first = bytes[0];
        let rest = bytes.drop_first();
        assert(bytes =~= seq![first] + rest);
        lemma_percent_encoded_from_the_front(first, rest);
        lemma_percent_encoding_round_trip(rest);
        let text = escaped(first) + percent_encoded(rest);
        if unreserved(first) {
            assert(text.drop_first() =~= percent_encoded(rest));
            assert(text[0] == first as char);
        } else {
            assert(text.subrange(3, text.len() as int) =~= percent_encoded(rest));
            assert(text[0] == '%');
            assert(hex_value(text[1]) == first / 16);
            assert(hex_value(text[2]) == first % 16);
        }
        assert(percent_decoded(text) =~= seq![first] + rest);
    }
}

/// Two texts that are encoded alike are the same text.
pub proof fn lemma_percent_encoding_is_injective(a: Seq<u8>, b: Seq<u8>)
    requires
        percent_encoded(a) == percent_encoded(b),
    ensures
        a == b,
{
    lemma_percent_encoding_round_trip(a);
    lemma_percent_encoding_round_trip(b);
}

} // verus!
