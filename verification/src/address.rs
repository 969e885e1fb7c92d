//! The network address of a host: four octets, written in dotted decimal.

use vstd::prelude::*;

verus! {

/// A 4-octet network address, most significant octet first.
#[derive(Clone, Copy, Debug, PartialEq, Eq, Structural)]
pub struct NetworkAddress(pub u8, pub u8, pub u8, pub u8);

/// Whether a character is a decimal digit.
pub open spec fn is_digit(c: char) -> bool {
    '0' <= c <= '9'
}

/// The character of a decimal digit.
pub open spec fn digit(d: u8) -> char
    recommends
        d <= 9,
{
    ((d + 48) as u8) as char
}

/// The decimal numeral of an octet: one to three digits, without a leading
/// zero unless the octet is zero.
pub open spec fn numeral(n: u8) -> Seq<char> {
    if n < 10 {
        seq![digit(n)]
    } else if n < 100 {
        seq![digit(n / 10), digit(n % 10)]
    } else {
        seq![digit(n / 100), digit(n / 10 % 10), digit(n % 10)]
    }
}

impl NetworkAddress {
    /// The dotted-decimal text of the address.
    pub open spec fn text(self) -> Seq<char> {
        numeral(self.0) + seq!['.'] + numeral(self.1) + seq!['.'] + numeral(self.2) + seq!['.']
            + numeral(self.3)
    }
}

/// The address that a text denotes: the one whose dotted-decimal text it is.
pub open spec fn address_of(s: Seq<char>) -> Option<NetworkAddress> {
    if exists|a: NetworkAddress| a.text() == s {
        Some(choose|a: NetworkAddress| a.text() == s)
    } else {
        None
    }
}

/// The value of the digit `c`.
spec fn digit_value(c: char) -> int {
    c as u32 - 48
}

/// The octet whose numeral starts at index `p` of `s` and ends where the
/// digits end, with the index after it.
#[verifier::opaque]
spec fn octet_at(s: Seq<char>, p: int) -> Option<(u8, int)> {
    if !(0 <= p < s.len()) || !is_digit(s[p]) {
        None
    } else if p + 1 >= s.len() || !is_digit(s[p + 1]) {
        Some((digit_value(s[p]) as u8, p + 1))
    } else if s[p] == '0' {
        None
    } else if p + 2 >= s.len() || !is_digit(s[p + 2]) {
        Some(((10 * digit_value(s[p]) + digit_value(s[p + 1])) as u8, p + 2))
    } else if p + 3 < s.len() && is_digit(s[p + 3]) {
        None
    } else {
        let v = 100 * digit_value(s[p]) + 10 * digit_value(s[p + 1]) + digit_value(s[p + 2]);
        if v <= 255 {
            Some((v as u8, p + 3))
        } else {
            None
        }
    }
}

/// Whether a full stop stands at index `p` of `s`.
spec fn dot_at(s: Seq<char>, p: int) -> bool {
    0 <= p < s.len() && s[p] == '.'
}

/// The address read from `s` by four octets with full stops between them.
spec fn scan(s: Seq<char>) -> Option<NetworkAddress> {
    match octet_at(s, 0) {
        Some((a, p)) if dot_at(s, p) => match octet_at(s, p + 1) {
            Some((b, q)) if dot_at(s, q) => match octet_at(s, q + 1) {
                Some((c, r)) if dot_at(s, r) => match octet_at(s, r + 1) {
                    Some((d, end)) if end == s.len() => Some(NetworkAddress(a, b, c, d)),
                    _ => None,
                },
                _ => None,
            },
            _ => None,
        },
        _ => None,
    }
}

/// The numeral of `n`, standing at index `p` of `s` and followed by no
/// further digit, is read back as `n`.
proof fn lemma_octet_read(s: Seq<char>, p: int, n: u8)
    requires
        0 <= p,
        p + numeral(n).len() <= s.len(),
        s.subrange(p, p + numeral(n).len()) == numeral(n),
        p + numeral(n).len() < s.len() ==> !is_digit(s[p + numeral(n).len()]),
    ensures
        octet_at(s, p) == Some((n, p + numeral(n).len())),
{
    reveal(octet_at);
    let w = s.subrange(p, p + numeral(n).len());
    assert(w[0] == s[p]);
    if n >= 10 {
        assert(w[1] == s[p + 1]);
    }
    if n >= 100 {
        assert(w[2] == s[p + 2]);
    }
}

/// What is read at index `p` of `s` is the numeral that stands there, and
/// no digit follows it.
proof fn lemma_octet_sound(s: Seq<char>, p: int)
    requires
        octet_at(s, p) is Some,
    ensures
        ({
            let (n, q) = octet_at(s, p)->0;
            &&& 0 <= p < q <= s.len()
            &&& s.subrange(p, q) == numeral(n)
            &&& q < s.len() ==> !is_digit(s[q])
        }),
{
    reveal(octet_at);
    let (n, q) = octet_at(s, p)->0;
    assert(s.subrange(p, q) =~= numeral(n));
}

/// A text is its four parts between three indices, joined by the characters
/// at those indices.
proof fn lemma_split_at_three(s: Seq<char>, p: int, q: int, r: int)
    requires
        0 <= p < q < r < s.len(),
    ensures
        s == s.subrange(0, p) + seq![s[p]] + s.subrange(p + 1, q) + seq![s[q]] + s.subrange(
            q + 1,
            r,
        ) + seq![s[r]] + s.subrange(r + 1, s.len() as int),
{
    assert(s =~= s.subrange(0, p) + seq![s[p]] + s.subrange(p + 1, q) + seq![s[q]] + s.subrange(
        q + 1,
        r,
    ) + seq![s[r]] + s.subrange(r + 1, s.len() as int));
}

/// Reading the dotted-decimal text of an address gives the address back.
proof fn lemma_scan_text(a: NetworkAddress)
    ensures
        scan(a.text()) == Some(a),
{
    let s = a.text();
    let p = numeral(a.0).len() as int;
    let q = p + 1 + numeral(a.1).len();
    let r = q + 1 + numeral(a.2).len();
    let end = r + 1 + numeral(a.3).len();
    assert(s.len() == end);
    assert(s.subrange(0, p) =~= numeral(a.0));
    assert(s[p] == '.');
    lemma_octet_read(s, 0, a.0);
    assert(s.subrange(p + 1, q) =~= numeral(a.1));
    assert(s[q] == '.');
    lemma_octet_read(s, p + 1, a.1);
    assert(s.subrange(q + 1, r) =~= numeral(a.2));
    assert(s[r] == '.');
    lemma_octet_read(s, q + 1, a.2);
    assert(s.subrange(r + 1, end) =~= numeral(a.3));
    lemma_octet_read(s, r + 1, a.3);
}

/// A text from which an address is read is the dotted-decimal text of that
/// address.
proof fn lemma_scan_sound(s: Seq<char>)
    requires
        scan(s) is Some,
    ensures
        (scan(s)->0).text() == s,
{
    let (a, p) = octet_at(s, 0)->0;
    lemma_octet_sound(s, 0);
    let (b, q) = octet_at(s, p + 1)->0;
    lemma_octet_sound(s, p + 1);
    let (c, r) = octet_at(s, q + 1)->0;
    lemma_octet_sound(s, q + 1);
    let (d, end) = octet_at(s, r + 1)->0;
    lemma_octet_sound(s, r + 1);
    lemma_split_at_three(s, p, q, r);
}

/// The dotted-decimal text of an address denotes that address.
pub proof fn lemma_address_of_text(a: NetworkAddress)
    ensures
        address_of(a.text()) == Some(a),
{
    let b = choose|b: NetworkAddress| b.text() == a.text();
    lemma_scan_text(a);
    lemma_scan_text(b);
}

/// The dotted-decimal text of an address is not empty and holds digits and
/// full stops only.
pub proof fn lemma_text_chars(a: NetworkAddress)
    ensures
        a.text().len() >= 7,
        forall|i: int| 0 <= i < a.text().len() ==> is_digit(a.text()[i]) || a.text()[i] == '.',
{
}

/// What `scan` reads from a text is the address that the text denotes.
proof fn lemma_scan_is_address_of(s: Seq<char>)
    ensures
        scan(s) == address_of(s),
{
    if scan(s) is Some {
        lemma_scan_sound(s);
        lemma_address_of_text(scan(s)->0);
    } else {
        if exists|a: NetworkAddress| a.text() == s {
            let a = choose|a: NetworkAddress| a.text() == s;
            lemma_scan_text(a);
        }
    }
}

/// Whether a character is a decimal digit.
fn is_decimal(c: char) -> (b: bool)
    ensures
        b == is_digit(c),
{
    '0' <= c && c <= '9'
}

/// The value of a decimal digit.
fn value_of(c: char) -> (d: u16)
    requires
        is_digit(c),
    ensures
        d == digit_value(c),
        d <= 9,
{
    (c as u32 - 48) as u16
}

/// Reads the octet whose numeral starts at index `p` of `s`.
fn read_octet(s: &[char], p: usize) -> (r: Option<(u8, usize)>)
    ensures
        match r {
            Some((n, q)) => octet_at(s@, p as int) == Some((n, q as int)),
            None => octet_at(s@, p as int) is None,
        },
{
    reveal(octet_at);
    if p >= s.len() || !is_decimal(s[p]) {
        return None;
    }
    let first: u16 = value_of(s[p]);
    if s.len() - p < 2 || !is_decimal(s[p + 1]) {
        return Some((first as u8, p + 1));
    }
    if first == 0 {
        return None;
    }
    let second: u16 = value_of(s[p + 1]);
    if s.len() - p < 3 || !is_decimal(s[p + 2]) {
        return Some(((10 * first + second) as u8, p + 2));
    }
    if s.len() - p > 3 && is_decimal(s[p + 3]) {
        return None;
    }
    let value: u16 = 100 * first + 10 * second + value_of(s[p + 2]);
    if value <= 255 {
        Some((value as u8, p + 3))
    } else {
        None
    }
}

/// Appends the decimal numeral of `n` to `out`.
fn push_numeral(out: &mut String, n: u8)
    ensures
        final(out)@ == old(out)@ + numeral(n),
{
    if n >= 100 {
        out.push((n / 100 + 48) as char);
    }
    if n >= 10 {
        out.push((n / 10 % 10 + 48) as char);
    }
    out.push((n % 10 + 48) as char);
    assert(out@ =~= old(out)@ + numeral(n));
}

impl NetworkAddress {
    /// The address with the given octets, most significant first.
    pub fn new(a: u8, b: u8, c: u8, d: u8) -> (address: NetworkAddress)
        ensures
            address == NetworkAddress(a, b, c, d),
    {
        NetworkAddress(a, b, c, d)
    }

    /// The address that `s` denotes. A text denotes an address only where
    /// it is four decimal numerals of octets with a full stop between each
    /// two, every numeral without sign, space or needless leading zero.
    pub fn parse(s: &[char]) -> (r: Option<NetworkAddress>)
        ensures
            r == address_of(s@),
    {
        proof {
            lemma_scan_is_address_of(s@);
        }
        let (a, p) = match read_octet(s, 0) {
            Some(found) => found,
            None => return None,
        };
        if p >= s.len() || s[p] != '.' {
            return None;
        }
        let (b, q) = match read_octet(s, p + 1) {
            Some(found) => found,
            None => return None,
        };
        if q >= s.len() || s[q] != '.' {
            return None;
        }
        let (c, r) = match read_octet(s, q + 1) {
            Some(found) => found,
            None => return None,
        };
        if r >= s.len() || s[r] != '.' {
            return None;
        }
        let (d, end) = match read_octet(s, r + 1) {
            Some(found) => found,
            None => return None,
        };
        if end != s.len() {
            return None;
        }
        Some(NetworkAddress(a, b, c, d))
    }

    /// The dotted-decimal text of the address.
    pub fn to_text(&self) -> (s: String)
        ensures
            s@ == self.text(),
    {
        let mut s = String::new();
        push_numeral(&mut s, self.0);
        s.push('.');
        push_numeral(&mut s, self.1);
        s.push('.');
        push_numeral(&mut s, self.2);
        s.push('.');
        push_numeral(&mut s, self.3);
        assert(s@ =~= self.text());
        s
    }
}

} // verus!
