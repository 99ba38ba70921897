//! Text as sequences of characters: comparing, rendering numbers in decimal,
//! reading decimal port numbers and splitting at a separator.

use vstd::prelude::*;
use vstd::string::StrSliceExecFns;
use vstd::string::StringSliceAdditionalSpecFns;
use vstd::utf8::encode_utf8;
use vstd::utf8::encode_utf8_decode_utf8;

verus! {

/// The character that stands for the decimal digit `d`.
pub open spec fn digit_char(d: nat) -> char
    recommends
        d < 10,
{
    ((48 + d) as u8) as char
}

/// The decimal representation of `n`, without sign or leading zeros.
pub open spec fn decimal(n: nat) -> Seq<char>
    decreases n,
{
    if n < 10 {
        seq![digit_char(n)]
    } else {
        decimal(n / 10).push(digit_char(n % 10))
    }
}

/// Whether `c` is one of the ten ASCII digits.
pub open spec fn is_digit(c: char) -> bool {
    '0' <= c <= '9'
}

/// The number a digit character stands for.
pub open spec fn digit_value(c: char) -> nat
    recommends
        is_digit(c),
{
    (c as u32 - 48) as nat
}

/// Whether every character of `s` is a digit.
pub open spec fn all_digits(s: Seq<char>) -> bool {
    forall|i: int| 0 <= i < s.len() ==> is_digit(#[trigger] s[i])
}

/// The number that a run of digits denotes; the empty run denotes zero.
pub open spec fn digits_value(s: Seq<char>) -> nat
    decreases s.len(),
{
    if s.len() == 0 {
        0
    } else {
        digits_value(s.drop_last()) * 10 + digit_value(s.last())
    }
}

/// What remains of `s` once one leading plus sign, if any, is dropped.
pub open spec fn unsigned_body(s: Seq<char>) -> Seq<char> {
    if s.len() > 0 && s[0] == '+' {
        s.drop_first()
    } else {
        s
    }
}

/// The port number that `s` spells: an optional plus sign, then at least one
/// digit, the whole no larger than 65535.  Anything else spells no port.
pub open spec fn port_number(s: Seq<char>) -> Option<u16> {
    let body = unsigned_body(s);
    if body.len() > 0 && all_digits(body) && digits_value(body) <= 0xffff {
        Some(digits_value(body) as u16)
    } else {
        None
    }
}

/// The pieces of `s` between occurrences of `sep`.  A text without `sep` is
/// one piece; each occurrence starts a new, possibly empty, piece.
pub open spec fn split_on(s: Seq<char>, sep: char) -> Seq<Seq<char>>
    decreases s.len(),
{
    if s.len() == 0 {
        seq![Seq::<char>::empty()]
    } else {
        let before = split_on(s.drop_last(), sep);
        if s.last() == sep {
            before.push(Seq::<char>::empty())
        } else {
            before.update(before.len() - 1, before.last().push(s.last()))
        }
    }
}

/// The characters that a run of ASCII bytes spells.
pub open spec fn ascii_chars(bytes: Seq<u8>) -> Seq<char> {
    Seq::new(bytes.len(), |i: int| bytes[i] as char)
}

/// Whether every byte of `bytes` is ASCII.
pub open spec fn all_ascii(bytes: Seq<u8>) -> bool {
    forall|i: int| 0 <= i < bytes.len() ==> #[trigger] bytes[i] < 128
}

/// The texts of a run of strings.
pub open spec fn texts(v: Seq<String>) -> Seq<Seq<char>> {
    v.map_values(|s: String| s@)
}

/// Copies a run of strings.
pub fn clone_texts(v: &Vec<String>) -> (r: Vec<String>)
    ensures
        texts(r@) == texts(v@),
{
    let mut r: Vec<String> = Vec::new();
    let mut i: usize = 0;
    while i < v.len()
        invariant
            i <= v.len(),
            r.len() == i,
            forall|j: int| 0 <= j < i ==> (#[trigger] r@[j])@ == v@[j]@,
        decreases v.len() - i,
    {
        r.push(v[i].clone());
        i += 1;
    }
    assert(texts(r@) =~= texts(v@));
    r
}

/// Whether two string slices hold the same characters.
pub fn str_eq(a: &str, b: &str) -> (same: bool)
    ensures
        same == (a@ == b@),
{
    let x = a.as_bytes();
    let y = b.as_bytes();
    proof {
        encode_utf8_decode_utf8(a@);
        encode_utf8_decode_utf8(b@);
    }
    if x.len() != y.len() {
        return false;
    }
    let mut i: usize = 0;
    while i < x.len()
        invariant
            i <= x.len(),
            x.len() == y.len(),
            x@ == encode_utf8(a@),
            y@ == encode_utf8(b@),
            forall|k: int| 0 <= k < i ==> x@[k] == y@[k],
        decreases x.len() - i,
    {
        if x[i] != y[i] {
            return false;
        }
        i += 1;
    }
    assert(x@ =~= y@);
    true
}

/// `String::from_utf8_lossy`.  ASCII bytes are valid UTF-8, so nothing is
/// replaced and each byte comes back as the character of the same code.
#[verifier::external_body]
pub(crate) fn ascii_string(bytes: &[u8]) -> (s: String)
    requires
        all_ascii(bytes@),
    ensures
        s@ == ascii_chars(bytes@),
{
    String::from_utf8_lossy(bytes).into_owned()
}

/// The digits of `m` that are still to be written: none for zero.
spec fn leading_digits(m: nat) -> Seq<char> {
    if m == 0 {
        Seq::empty()
    } else {
        decimal(m)
    }
}

/// The characters that the bytes of `rev` spell, last byte first.
spec fn spelled_backwards(rev: Seq<u8>) -> Seq<char> {
    Seq::new(rev.len(), |i: int| rev[rev.len() - 1 - i] as char)
}

/// Renders `n` in decimal, without sign or leading zeros.
pub fn decimal_string(n: u64) -> (s: String)
    ensures
        s@ == decimal(n as nat),
{
    let mut rev: Vec<u8> = Vec::new();
    let mut m: u64 = n;
    rev.push((48 + m % 10) as u8);
    m = m / 10;
    assert(decimal(n as nat) =~= leading_digits(m as nat) + spelled_backwards(rev@));
    while m > 0
        invariant
            rev.len() >= 1,
            decimal(n as nat) == leading_digits(m as nat) + spelled_backwards(rev@),
            forall|i: int| 0 <= i < rev.len() ==> 48 <= #[trigger] rev@[i] <= 57,
        decreases m,
    {
        let ghost before = rev@;
        let digit: u8 = (48 + m % 10) as u8;
        rev.push(digit);
        assert(decimal(m as nat) =~= leading_digits((m / 10) as nat) + seq![digit as char]);
        assert(spelled_backwards(rev@) =~= seq![digit as char] + spelled_backwards(before));
        m = m / 10;
    }
    let mut bytes: Vec<u8> = Vec::new();
    let mut i: usize = rev.len();
    while i > 0
        invariant
            i <= rev.len(),
            bytes.len() == rev.len() - i,
            forall|k: int| 0 <= k < bytes.len() ==> #[trigger] bytes@[k] == rev@[rev.len() - 1 - k],
            forall|k: int| 0 <= k < rev.len() ==> 48 <= #[trigger] rev@[k] <= 57,
        decreases i,
    {
        i -= 1;
        bytes.push(rev[i]);
    }
    assert(ascii_chars(bytes@) =~= spelled_backwards(rev@));
    ascii_string(bytes.as_slice())
}

/// The decimal representation of a number is made of digits and spells
/// that number.
pub proof fn law_decimal_reads_back(n: nat)
    ensures
        decimal(n).len() >= 1,
        all_digits(decimal(n)),
        digits_value(decimal(n)) == n,
    decreases n,
{
    if n < 10 {
        assert(decimal(n).drop_last() =~= Seq::<char>::empty());
        assert(digits_value(decimal(n)) == digits_value(decimal(n).drop_last()) * 10 + digit_value(
            decimal(n).last(),
        ));
    } else {
        law_decimal_reads_back(n / 10);
        let front = decimal(n / 10);
        let all = decimal(n);
        assert(all == front.push(digit_char(n % 10)));
        assert(all.drop_last() =~= front);
        assert forall|i: int| 0 <= i < all.len() implies is_digit(#[trigger] all[i]) by {
            if i < front.len() {
                assert(all[i] == front[i]);
            }
        }
    }
}

/// Different numbers have different decimal representations.
pub proof fn law_decimal_is_injective(a: nat, b: nat)
    ensures
        decimal(a) == decimal(b) ==> a == b,
{
    law_decimal_reads_back(a);
    law_decimal_reads_back(b);
}

proof fn lemma_digits_value_grows(s: Seq<char>, k: int)
    requires
        0 <= k <= s.len(),
    ensures
        digits_value(s.subrange(0, k)) <= digits_value(s),
    decreases s.len() - k,
{
    if k < s.len() {
        lemma_digits_value_grows(s, k + 1);
        let longer = s.subrange(0, k + 1);
        assert(longer.drop_last() =~= s.subrange(0, k));
        assert(digits_value(longer) == digits_value(s.subrange(0, k)) * 10 + digit_value(
            longer.last(),
        ));
    } else {
        assert(s.subrange(0, k) =~= s);
    }
}

/// Reads a port number: an optional plus sign followed by decimal digits.
pub fn parse_port(s: &str) -> (port: Option<u16>)
    ensures
        port == port_number(s@),
{
    let n = s.unicode_len();
    let start: usize = if n > 0 && s.get_char(0) == '+' {
        1
    } else {
        0
    };
    let ghost body = unsigned_body(s@);
    assert(body =~= s@.subrange(start as int, n as int));
    if start == n {
        return None;
    }
    let mut acc: u32 = 0;
    let mut i: usize = start;
    while i < n
        invariant
            start <= i <= n,
            n == s@.len(),
            body == s@.subrange(start as int, n as int),
            body == unsigned_body(s@),
            all_digits(body.subrange(0, i - start)),
            acc == digits_value(body.subrange(0, i - start)),
            acc <= 0xffff,
        decreases n - i,
    {
        let c = s.get_char(i);
        let code: u32 = c as u32;
        let ghost seen = body.subrange(0, i - start);
        let ghost next = body.subrange(0, i - start + 1);
        assert(next.drop_last() =~= seen);
        assert(next.last() == c);
        if code < 48 || code > 57 {
            assert(!is_digit(body[i - start]));
            return None;
        }
        let v: u32 = acc * 10 + (code - 48);
        assert(v == digits_value(next));
        if v > 0xffff {
            proof {
                lemma_digits_value_grows(body, i - start + 1);
            }
            return None;
        }
        assert forall|j: int| 0 <= j < next.len() implies is_digit(#[trigger] next[j]) by {
            if j < seen.len() {
                assert(seen[j] == next[j]);
            }
        }
        acc = v;
        i += 1;
    }
    assert(body.subrange(0, n - start) =~= body);
    Some(acc as u16)
}

} // verus!
