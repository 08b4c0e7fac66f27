//! The address of one page of a search.

use vstd::prelude::*;
use vstd::string::StringExecFns;
use vstd::utf8::encode_utf8;

verus! {

/// The search endpoint, up to and including the name of the query parameter.
pub const SEARCH_PREFIX: &'static str = "https://www.gazeta.uz/ru/search?q=";

/// The order in which the site is asked to list its results.
#[derive(Clone, Copy, Debug, PartialEq, Eq, Structural)]
pub enum SortType {
    /// Newest first.
    Date,
    /// Best match first.
    Revalet,
}

impl SortType {
    /// The word that stands for this order in a request.
    pub open spec fn token(self) -> Seq<char> {
        match self {
            SortType::Date => "date"@,
            SortType::Revalet => "relevance"@,
        }
    }

    /// The word that stands for this order in a request.
    pub fn to_string(&self) -> (word: String)
        ensures
            word@ == self.token(),
    {
        match self {
            SortType::Date => String::from_str("date"),
            SortType::Revalet => String::from_str("relevance"),
        }
    }
}

/// `String::push` of the standard library: appends one character.
pub assume_specification[ String::push ](text: &mut String, ch: char)
    ensures
        final(text)@ == old(text)@.push(ch),
;

/// Whether a byte stands for itself in a query: an ASCII letter, a digit,
/// or one of `-`, `.`, `_`, `~`.
pub open spec fn is_unreserved(b: u8) -> bool {
    ||| 0x30 <= b <= 0x39
    ||| 0x41 <= b <= 0x5a
    ||| 0x61 <= b <= 0x7a
    ||| b == 0x2d
    ||| b == 0x2e
    ||| b == 0x5f
    ||| b == 0x7e
}

/// The upper-case hexadecimal digit of a value below 16.
pub open spec fn hex_digit(n: u8) -> char {
    if n < 10 {
        (0x30 + n) as u8 as char
    } else {
        (0x37 + n) as u8 as char
    }
}

/// How one byte is written in a query: as itself where it is unreserved,
/// else as `%` and its two hexadecimal digits.
pub open spec fn encode_byte(b: u8) -> Seq<char> {
    if is_unreserved(b) {
        seq![b as char]
    } else {
        seq!['%', hex_digit(b / 16), hex_digit(b % 16)]
    }
}

/// The percent-encoding of a sequence of bytes.
pub open spec fn percent_encode(bytes: Seq<u8>) -> Seq<char>
    decreases bytes.len(),
{
    if bytes.len() == 0 {
        Seq::empty()
    } else {
        percent_encode(bytes.drop_last()) + encode_byte(bytes.last())
    }
}

/// The decimal digits of a number, without leading zeros.
pub open spec fn decimal(n: nat) -> Seq<char>
    decreases n,
{
    if n < 10 {
        seq![(0x30 + n) as u8 as char]
    } else {
        decimal(n / 10).push((0x30 + n % 10) as u8 as char)
    }
}

/// The address of page `page` of the search for `query`: the endpoint, the
/// percent-encoded UTF-8 bytes of the query, the sort order and the page
/// number.
pub open spec fn search_url_text(query: Seq<char>, sort: SortType, page: nat) -> Seq<char> {
    SEARCH_PREFIX@ + percent_encode(encode_utf8(query)) + "&sort="@ + sort.token() + "&page="@
        + decimal(page)
}

/// Tells whether a byte stands for itself in a query.
pub fn unreserved(b: u8) -> (yes: bool)
    ensures
        yes == is_unreserved(b),
{
    (0x30 <= b && b <= 0x39) || (0x41 <= b && b <= 0x5a) || (0x61 <= b && b <= 0x7a) || b == 0x2d
        || b == 0x2e || b == 0x5f || b == 0x7e
}

fn hex_char(n: u8) -> (c: char)
    requires
        n < 16,
    ensures
        c == hex_digit(n),
{
    if n < 10 {
        (0x30 + n) as char
    } else {
        (0x37 + n) as char
    }
}

/// Appends the percent-encoding of `bytes` to `out`.
pub fn push_percent_encoded(out: &mut String, bytes: &[u8])
    ensures
        final(out)@ == old(out)@ + percent_encode(bytes@),
{
    let mut i: usize = 0;
    while i < bytes.len()
        invariant
            i <= bytes.len(),
            out@ == old(out)@ + percent_encode(bytes@.take(i as int)),
        decreases bytes.len() - i,
    {
        let b: u8 = bytes[i];
        let ghost before = out@;
        if unreserved(b) {
            out.push(b as char);
        } else {
            out.push('%');
            out.push(hex_char(b / 16));
            out.push(hex_char(b % 16));
        }
        proof {
            assert(bytes@.take(i + 1).drop_last() == bytes@.take(i as int));
            assert(out@ == before + encode_byte(b));
        }
        i += 1;
    }
    assert(bytes@.take(bytes.len() as int) == bytes@);
}

/// Appends the decimal digits of `n` to `out`.
pub fn push_decimal(out: &mut String, n: u64)
    ensures
        final(out)@ == old(out)@ + decimal(n as nat),
    decreases n,
{
    if n >= 10 {
        push_decimal(out, n / 10);
    }
    let digit: u8 = (n % 10) as u8;
    out.push((0x30 + digit) as char);
    assert(out@ == old(out)@ + decimal(n as nat));
}

/// Builds the address of one page of a search. Any text is accepted as the
/// query, and any number as the page.
pub fn search_url(query: &str, sort: SortType, page: u64) -> (url: String)
    ensures
        url@ == search_url_text(query@, sort, page as nat),
{
    let mut url = String::from_str(SEARCH_PREFIX);
    push_percent_encoded(&mut url, query.as_bytes());
    url.append("&sort=");
    url.append(sort.to_string().as_str());
    url.append("&page=");
    push_decimal(&mut url, page);
    url
}

} // verus!
