use ring::digest;
use vstd::prelude::*;

use crate::errors::UpdateError;
use crate::privacy::{chars_of, lowercase_of, to_lowercase};
use crate::types::UpdateInfo;

verus! {

/// The SHA-256 digest of `data`.
pub uninterp spec fn sha256_of(data: Seq<u8>) -> Seq<u8>;

/// Relies on ring's `digest::digest` with `SHA256`: the 32-byte digest of the data.
#[verifier::external_body]
fn sha256(data: &[u8]) -> (r: Vec<u8>)
    ensures
        r@ == sha256_of(data@),
        r@.len() == 32,
{
    digest::digest(&digest::SHA256, data).as_ref().to_vec()
}

/// The version this build reports.
pub const CURRENT_VERSION: &'static str = "0.1.0";

/// `s` without its leading `v` characters.
pub open spec fn strip_leading_v(s: Seq<char>) -> Seq<char>
    decreases s.len(),
{
    if s.len() > 0 && s[0] == 'v' {
        strip_leading_v(s.drop_first())
    } else {
        s
    }
}

/// The pieces of `s` between `.` separators; the empty text is one empty piece.
pub open spec fn dot_pieces(s: Seq<char>) -> Seq<Seq<char>>
    decreases s.len(),
{
    if s.len() == 0 {
        seq![Seq::<char>::empty()]
    } else {
        let prev = dot_pieces(s.drop_last());
        if s.last() == '.' {
            prev.push(Seq::<char>::empty())
        } else {
            prev.update(prev.len() - 1, prev.last().push(s.last()))
        }
    }
}

pub open spec fn is_digit(c: char) -> bool {
    '0' <= c && c <= '9'
}

/// The number written by decimal digits `d`.
pub open spec fn digits_value(d: Seq<char>) -> nat
    decreases d.len(),
{
    if d.len() == 0 {
        0
    } else {
        digits_value(d.drop_last()) * 10 + ((d.last() as u32) - ('0' as u32)) as nat
    }
}

/// `p` without one leading `+`.
pub open spec fn unsigned_part(p: Seq<char>) -> Seq<char> {
    if p.len() > 0 && p[0] == '+' {
        p.drop_first()
    } else {
        p
    }
}

pub open spec fn all_digits(d: Seq<char>) -> bool {
    forall|i: int| 0 <= i < d.len() ==> is_digit(#[trigger] d[i])
}

/// What `str::parse::<u32>` accepts: an optional `+`, then one or more decimal digits
/// whose value fits in 32 bits.
pub open spec fn parse_u32(p: Seq<char>) -> Option<u32> {
    if unsigned_part(p).len() > 0 && all_digits(unsigned_part(p)) && digits_value(unsigned_part(p)) <= u32::MAX {
        Some(digits_value(unsigned_part(p)) as u32)
    } else {
        None
    }
}

/// The numbers among `pieces` that parse.
pub open spec fn parsed_numbers(pieces: Seq<Seq<char>>) -> Seq<u32>
    decreases pieces.len(),
{
    if pieces.len() == 0 {
        Seq::empty()
    } else {
        let prev = parsed_numbers(pieces.drop_last());
        match parse_u32(pieces.last()) {
            Some(v) => prev.push(v),
            None => prev,
        }
    }
}

/// The numeric components of a version text such as `v1.2.3`.
pub open spec fn version_numbers(v: Seq<char>) -> Seq<u32> {
    parsed_numbers(dot_pieces(strip_leading_v(v)))
}

/// Lexicographic order of number lists, a proper prefix coming first.
pub open spec fn lex_less(a: Seq<u32>, b: Seq<u32>) -> bool
    decreases a.len(),
{
    if a.len() == 0 {
        b.len() > 0
    } else if b.len() == 0 {
        false
    } else if a[0] != b[0] {
        a[0] < b[0]
    } else {
        lex_less(a.drop_first(), b.drop_first())
    }
}

fn strip_v(s: &Vec<char>) -> (r: usize)
    ensures
        r <= s@.len(),
        s@.subrange(r as int, s@.len() as int) == strip_leading_v(s@),
{
    let mut i: usize = 0;
    assert(s@.subrange(0, s@.len() as int) =~= s@);
    while i < s.len() && s[i] == 'v'
        invariant
            i <= s@.len(),
            strip_leading_v(s@) == strip_leading_v(s@.subrange(i as int, s@.len() as int)),
        decreases s@.len() - i,
    {
        assert(s@.subrange(i as int, s@.len() as int).drop_first() =~= s@.subrange(i + 1, s@.len() as int));
        i = i + 1;
    }
    i
}

fn parse_piece(p: &Vec<char>) -> (r: Option<u32>)
    ensures
        r == parse_u32(p@),
{
    let start: usize = if p.len() > 0 && p[0] == '+' { 1 } else { 0 };
    let ghost d = unsigned_part(p@);
    assert(d =~= p@.subrange(start as int, p@.len() as int));
    if start >= p.len() {
        return None;
    }
    let mut value: u64 = 0;
    let mut i: usize = start;
    while i < p.len()
        invariant
            start <= i <= p@.len(),
            d == unsigned_part(p@),
            d == p@.subrange(start as int, p@.len() as int),
            forall|j: int| start <= j < i ==> is_digit(#[trigger] p@[j]),
            value == digits_value(p@.subrange(start as int, i as int)),
            value <= u32::MAX,
        decreases p@.len() - i,
    {
        let c = p[i];
        if !('0' <= c && c <= '9') {
            assert(!is_digit(d[i - start]));
            assert(!all_digits(d));
            return None;
        }
        assert(p@.subrange(start as int, i + 1).drop_last() =~= p@.subrange(start as int, i as int));
        let digit = (c as u32 - '0' as u32) as u64;
        let next = value * 10 + digit;
        if next > 4294967295u64 {
            proof {
                if all_digits(d) {
                    assert(p@.subrange(start as int, i + 1) =~= d.subrange(0, i + 1 - start));
                    lemma_digits_value_monotone(p@.subrange(start as int, i + 1), d);
                }
            }
            return None;
        }
        value = next;
        i = i + 1;
    }
    assert(p@.subrange(start as int, p@.len() as int) =~= d);
    Some(value as u32)
}

/// Extending digits never lowers their value.
proof fn lemma_digits_value_monotone(prefix: Seq<char>, d: Seq<char>)
    requires
        prefix.len() <= d.len(),
        prefix == d.subrange(0, prefix.len() as int),
        all_digits(d),
    ensures
        digits_value(prefix) <= digits_value(d),
    decreases d.len(),
{
    if prefix.len() < d.len() {
        assert(prefix == d.drop_last().subrange(0, prefix.len() as int));
        lemma_digits_value_monotone(prefix, d.drop_last());
    } else {
        assert(prefix =~= d);
    }
}

fn version_parts(v: &str) -> (r: Vec<u32>)
    ensures
        r@ == version_numbers(v@),
{
    let chars = chars_of(v);
    let start = strip_v(&chars);
    let ghost s = chars@.subrange(start as int, chars@.len() as int);
    let mut parts: Vec<u32> = Vec::new();
    let mut piece: Vec<char> = Vec::new();
    let mut i: usize = start;
    assert(s.subrange(0, 0) =~= Seq::<char>::empty());
    while i < chars.len()
        invariant
            start <= i <= chars@.len(),
            s == chars@.subrange(start as int, chars@.len() as int),
            dot_pieces(s.subrange(0, i - start)).len() > 0,
            piece@ == dot_pieces(s.subrange(0, i - start)).last(),
            parts@ == parsed_numbers(dot_pieces(s.subrange(0, i - start)).drop_last()),
        decreases chars@.len() - i,
    {
        let ghost pre = s.subrange(0, i - start);
        let ghost next = s.subrange(0, i + 1 - start);
        assert(next.drop_last() =~= pre);
        assert(next.last() == chars@[i as int]);
        if chars[i] == '.' {
            let ghost pp = dot_pieces(pre);
            assert(pp.push(Seq::<char>::empty()).drop_last() =~= pp);
            assert(pp =~= pp.drop_last().push(pp.last()));
            match parse_piece(&piece) {
                Some(n) => parts.push(n),
                None => {},
            }
            piece = Vec::new();
            assert(piece@ =~= Seq::<char>::empty());
        } else {
            let ghost pp = dot_pieces(pre);
            piece.push(chars[i]);
            assert(pp.update(pp.len() - 1, pp.last().push(chars@[i as int])).drop_last() =~= pp.drop_last());
        }
        i = i + 1;
    }
    assert(s.subrange(0, i - start) =~= s);
    let ghost pp = dot_pieces(s);
    assert(pp =~= pp.drop_last().push(pp.last()));
    match parse_piece(&piece) {
        Some(n) => parts.push(n),
        None => {},
    }
    parts
}

fn lex_less_exec(a: &Vec<u32>, b: &Vec<u32>) -> (r: bool)
    ensures
        r == lex_less(a@, b@),
{
    let mut i: usize = 0;
    assert(a@.subrange(0, a@.len() as int) =~= a@);
    assert(b@.subrange(0, b@.len() as int) =~= b@);
    while i < a.len() && i < b.len() && a[i] == b[i]
        invariant
            i <= a@.len(),
            i <= b@.len(),
            lex_less(a@, b@) == lex_less(a@.subrange(i as int, a@.len() as int), b@.subrange(i as int, b@.len() as int)),
        decreases a@.len() - i,
    {
        assert(a@.subrange(i as int, a@.len() as int).drop_first() =~= a@.subrange(i + 1, a@.len() as int));
        assert(b@.subrange(i as int, b@.len() as int).drop_first() =~= b@.subrange(i + 1, b@.len() as int));
        i = i + 1;
    }
    if i == a.len() {
        i < b.len()
    } else if i == b.len() {
        false
    } else {
        a[i] < b[i]
    }
}

/// Lowercase hexadecimal digits of `bytes`, two per byte.
pub open spec fn hex_of(bytes: Seq<u8>) -> Seq<char>
    decreases bytes.len(),
{
    if bytes.len() == 0 {
        Seq::empty()
    } else {
        hex_of(bytes.drop_last()) + seq![hex_digit(bytes.last() / 16), hex_digit(bytes.last() % 16)]
    }
}

pub open spec fn hex_digit(d: u8) -> char {
    seq!['0', '1', '2', '3', '4', '5', '6', '7', '8', '9', 'a', 'b', 'c', 'd', 'e', 'f'][d as int]
}

/// Lowercase hexadecimal text of `bytes`.
pub fn hex_encode(bytes: &[u8]) -> (r: String)
    ensures
        r@ == hex_of(bytes@),
{
    let digits = ['0', '1', '2', '3', '4', '5', '6', '7', '8', '9', 'a', 'b', 'c', 'd', 'e', 'f'];
    let mut out: Vec<char> = Vec::new();
    let mut i: usize = 0;
    while i < bytes.len()
        invariant
            i <= bytes@.len(),
            out@ == hex_of(bytes@.subrange(0, i as int)),
            digits@ == seq!['0', '1', '2', '3', '4', '5', '6', '7', '8', '9', 'a', 'b', 'c', 'd', 'e', 'f'],
        decreases bytes@.len() - i,
    {
        let b = bytes[i];
        let hi = digits[(b / 16) as usize];
        let lo = digits[(b % 16) as usize];
        assert(bytes@.subrange(0, i + 1).drop_last() =~= bytes@.subrange(0, i as int));
        out.push(hi);
        out.push(lo);
        i = i + 1;
        assert(out@ =~= hex_of(bytes@.subrange(0, i as int)));
    }
    assert(bytes@.subrange(0, bytes@.len() as int) =~= bytes@);
    crate::errors::string_from_chars(&out)
}

/// Update checks and the settings that govern them.
pub struct UpdateManager {
    current_version: String,
    auto_check_enabled: bool,
}

impl UpdateManager {
    pub closed spec fn version_view(&self) -> Seq<char> {
        self.current_version@
    }

    pub closed spec fn auto_check_view(&self) -> bool {
        self.auto_check_enabled
    }

    /// A manager for the running version, with automatic checks on.
    pub fn new() -> (r: Self)
        ensures
            r.version_view() == CURRENT_VERSION@,
            r.auto_check_view(),
    {
        UpdateManager { current_version: CURRENT_VERSION.to_owned(), auto_check_enabled: true }
    }

    /// Whether `latest` is a newer version than `current`: their numeric components,
    /// compared in order, with a missing component counting as older.
    pub fn is_newer_version(current: &str, latest: &str) -> (r: bool)
        ensures
            r == lex_less(version_numbers(current@), version_numbers(latest@)),
    {
        let c = version_parts(current);
        let l = version_parts(latest);
        lex_less_exec(&c, &l)
    }

    /// No release feed is consulted: there is never an update to offer.
    pub fn check_for_updates(&self) -> (r: Result<Option<UpdateInfo>, UpdateError>)
        ensures
            r matches Ok(None),
    {
        Ok(None)
    }

    /// Whether `data` has the SHA-256 digest written, in either case, as `expected_sha256`.
    pub fn verify_checksum(&self, data: &[u8], expected_sha256: &str) -> (r: Result<bool, UpdateError>)
        ensures
            r == Ok::<bool, UpdateError>(hex_of(sha256_of(data@)) == lowercase_of(expected_sha256@)),
    {
        let actual = hex_encode(sha256(data).as_slice());
        let expected = to_lowercase(expected_sha256);
        Ok(crate::vault::string_eq(actual.as_str(), expected.as_str()))
    }

    pub fn get_current_version(&self) -> (r: &str)
        ensures
            r@ == self.version_view(),
    {
        self.current_version.as_str()
    }

    pub fn set_auto_check_enabled(&mut self, enabled: bool)
        ensures
            final(self).auto_check_view() == enabled,
            final(self).version_view() == old(self).version_view(),
    {
        self.auto_check_enabled = enabled;
    }

    pub fn is_auto_check_enabled(&self) -> (r: bool)
        ensures
            r == self.auto_check_view(),
    {
        self.auto_check_enabled
    }
}

} // verus!
