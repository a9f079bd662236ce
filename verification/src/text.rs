//! Verified text utilities: character-level equality, substring search,
//! search-and-replace, percent-encoding and decimal formatting.
//!
//! Strings are modelled by their character sequences (`Seq<char>`); every
//! function here is specified against a direct mathematical description of
//! its result.

use vstd::prelude::*;
use vstd::string::StrSliceExecFns;
use vstd::string::StringExecFns;
use vstd::utf8::char_is_scalar;
use vstd::utf8::encode_scalar;
use vstd::utf8::has_width_3_encoding;

verus! {

/// Appends one character to the string.
///
/// Relies on `String::push` of std: "Appends the given char to the end of
/// this String" is exactly a sequence push on the character view.
pub assume_specification[ String::push ](s: &mut String, ch: char)
    ensures
        final(s)@ == old(s)@.push(ch),
;

/// The pattern `pat` occurs in `s` at position `i`.
pub open spec fn match_at(s: Seq<char>, pat: Seq<char>, i: int) -> bool {
    0 <= i && i + pat.len() <= s.len() && s.subrange(i, i + pat.len() as int) == pat
}

/// Position of the leftmost occurrence of `pat` in `s`, if any.
pub open spec fn spec_find(s: Seq<char>, pat: Seq<char>) -> Option<int>
    decreases s.len(),
{
    if s.len() == 0 {
        if pat.len() == 0 {
            Some(0)
        } else {
            None
        }
    } else if pat.len() > s.len() {
        None
    } else if s.subrange(0, pat.len() as int) == pat {
        Some(0)
    } else {
        match spec_find(s.drop_first(), pat) {
            Some(i) => Some(i + 1),
            None => None,
        }
    }
}

/// `spec_find` returns the leftmost match position, and `None` exactly when
/// no position matches.
pub proof fn lemma_spec_find_characterization(s: Seq<char>, pat: Seq<char>)
    ensures
        match spec_find(s, pat) {
            Some(i) => match_at(s, pat, i) && (forall|j: int| 0 <= j < i ==> !match_at(s, pat, j)),
            None => forall|j: int| !match_at(s, pat, j),
        },
    decreases s.len(),
{
    if s.len() == 0 {
        if pat.len() == 0 {
            assert(s.subrange(0, 0) =~= pat);
        }
    } else if pat.len() > s.len() {
        assert(forall|j: int| !match_at(s, pat, j));
    } else if s.subrange(0, pat.len() as int) == pat {
    } else {
        if pat.len() == 0 {
            assert(s.subrange(0, 0) =~= pat);
        }
        assert(s.drop_first().len() == s.len() - 1);
        lemma_spec_find_characterization(s.drop_first(), pat);
        assert forall|j: int| 1 <= j && match_at(s, pat, j) implies match_at(
            s.drop_first(),
            pat,
            j - 1,
        ) by {
            assert forall|k: int| 0 <= k < pat.len() implies s.drop_first().subrange(
                j - 1,
                j - 1 + pat.len() as int,
            )[k] == pat[k] by {
                assert(s.subrange(j, j + pat.len() as int)[k] == pat[k]);
            }
            assert(s.drop_first().subrange(j - 1, j - 1 + pat.len() as int) =~= pat);
        }
        assert forall|j: int| 0 <= j && match_at(s.drop_first(), pat, j) implies match_at(
            s,
            pat,
            j + 1,
        ) by {
            assert forall|k: int| 0 <= k < pat.len() implies s.subrange(
                j + 1,
                j + 1 + pat.len() as int,
            )[k] == pat[k] by {
                assert(s.drop_first().subrange(j, j + pat.len() as int)[k] == pat[k]);
            }
            assert(s.subrange(j + 1, j + 1 + pat.len() as int) =~= pat);
        }
    }
}

/// Character-for-character equality of two string slices.
pub fn str_eq(a: &str, b: &str) -> (r: bool)
    ensures
        r == (a@ == b@),
{
    let na = a.unicode_len();
    let nb = b.unicode_len();
    if na != nb {
        assert(a@ != b@);
        return false;
    }
    let mut i: usize = 0;
    while i < na
        invariant
            i <= na,
            na == a@.len(),
            na == b@.len(),
            forall|j: int| 0 <= j < i ==> a@[j] == b@[j],
        decreases na - i,
    {
        if a.get_char(i) != b.get_char(i) {
            return false;
        }
        i += 1;
    }
    proof {
        assert(a@ =~= b@);
    }
    true
}

/// Does `pat` occur in `s` at position `i`?
pub fn matches_at(s: &str, pat: &str, i: usize) -> (b: bool)
    requires
        i + pat@.len() <= s@.len(),
        s@.len() <= usize::MAX,
    ensures
        b == match_at(s@, pat@, i as int),
{
    let m = pat.unicode_len();
    let mut j: usize = 0;
    while j < m
        invariant
            j <= m,
            m == pat@.len(),
            i + m <= s@.len(),
            s@.len() <= usize::MAX,
            forall|k: int| 0 <= k < j ==> s@[i + k] == pat@[k],
        decreases m - j,
    {
        if s.get_char(i + j) != pat.get_char(j) {
            assert(s@.subrange(i as int, i + m) != pat@) by {
                assert(s@.subrange(i as int, i + m)[j as int] == s@[i + j]);
            }
            return false;
        }
        j += 1;
    }
    proof {
        assert(s@.subrange(i as int, i + m) =~= pat@);
    }
    true
}

/// Position of the leftmost occurrence of `pat` in `s`, if any.
pub fn find(s: &str, pat: &str) -> (r: Option<usize>)
    ensures
        match r {
            Some(i) => spec_find(s@, pat@) == Some(i as int),
            None => spec_find(s@, pat@) is None,
        },
{
    proof {
        lemma_spec_find_characterization(s@, pat@);
    }
    let n = s.unicode_len();
    let m = pat.unicode_len();
    if m > n {
        return None;
    }
    if m == 0 {
        proof {
            assert(s@.subrange(0, 0) =~= pat@);
        }
        return Some(0);
    }
    let end = n - m;
    let mut i: usize = 0;
    while i <= end
        invariant
            1 <= m <= n,
            n == s@.len(),
            m == pat@.len(),
            end == n - m,
            i <= end + 1,
            forall|j: int| 0 <= j < i ==> !match_at(s@, pat@, j),
        decreases end + 1 - i,
    {
        if matches_at(s, pat, i) {
            proof {
                lemma_spec_find_characterization(s@, pat@);
                if spec_find(s@, pat@) is None {
                    assert(!match_at(s@, pat@, i as int));
                }
                let k = spec_find(s@, pat@)->Some_0;
                assert(!(k < i) && !(i < k));
            }
            return Some(i);
        }
        i += 1;
    }
    proof {
        assert forall|j: int| !match_at(s@, pat@, j) by {
            if 0 <= j && j + pat@.len() <= s@.len() {
                assert(j < i);
            }
        }
        if spec_find(s@, pat@) is Some {
            assert(match_at(s@, pat@, spec_find(s@, pat@)->Some_0));
        }
    }
    None
}

/// `s` with every (leftmost-first, non-overlapping) occurrence of `from`
/// replaced by `to`; `s` itself when `from` is empty.
pub open spec fn spec_replace(s: Seq<char>, from: Seq<char>, to: Seq<char>) -> Seq<char>
    decreases s.len(),
{
    if from.len() == 0 || s.len() == 0 {
        s
    } else if from.len() <= s.len() && s.subrange(0, from.len() as int) == from {
        to + spec_replace(s.skip(from.len() as int), from, to)
    } else {
        seq![s[0]] + spec_replace(s.drop_first(), from, to)
    }
}

/// Replaces every occurrence of `from` in `s` by `to`, scanning left to
/// right without overlap, exactly as `spec_replace` describes.
pub fn replace_all(s: &str, from: &str, to: &str) -> (r: String)
    requires
        from@.len() > 0,
    ensures
        r@ == spec_replace(s@, from@, to@),
{
    let n = s.unicode_len();
    let m = from.unicode_len();
    let mut out = String::new();
    let mut i: usize = 0;
    proof {
        assert(s@.skip(0) =~= s@);
        assert(Seq::<char>::empty() + spec_replace(s@, from@, to@) =~= spec_replace(
            s@,
            from@,
            to@,
        ));
    }
    while i < n
        invariant
            n == s@.len(),
            m == from@.len(),
            m >= 1,
            i <= n,
            out@ + spec_replace(s@.skip(i as int), from@, to@) == spec_replace(s@, from@, to@),
        decreases n - i,
    {
        let ghost rest = s@.skip(i as int);
        let ghost out_pre = out@;
        assert(rest.len() == n - i);
        if m <= n - i && matches_at(s, from, i) {
            out.append(to);
            proof {
                assert(rest.subrange(0, m as int) =~= s@.subrange(i as int, i + m));
                assert(rest.skip(m as int) =~= s@.skip(i + m));
                assert(spec_replace(rest, from@, to@) == to@ + spec_replace(
                    s@.skip(i + m),
                    from@,
                    to@,
                ));
                assert(out_pre + to@ + spec_replace(s@.skip(i + m), from@, to@) =~= out_pre + (to@
                    + spec_replace(s@.skip(i + m), from@, to@)));
            }
            i += m;
        } else {
            let c = s.get_char(i);
            out.push(c);
            proof {
                assert(rest[0] == s@[i as int]);
                if m <= rest.len() {
                    assert(i + m <= n);
                    assert(rest.subrange(0, m as int) =~= s@.subrange(i as int, i + m));
                    assert(rest.subrange(0, m as int) != from@);
                }
                assert(spec_replace(rest, from@, to@) == seq![rest[0]] + spec_replace(
                    rest.drop_first(),
                    from@,
                    to@,
                ));
                assert(rest.drop_first() =~= s@.skip(i + 1));
                assert(out_pre.push(c) =~= out_pre + seq![c]);
                assert(out_pre + seq![c] + spec_replace(s@.skip(i + 1), from@, to@) =~= out_pre + (
                seq![c] + spec_replace(s@.skip(i + 1), from@, to@)));
            }
            i += 1;
        }
    }
    proof {
        assert(s@.skip(n as int) =~= Seq::<char>::empty());
        assert(out@ + Seq::<char>::empty() =~= out@);
    }
    out
}

/// The hexadecimal digit character for a value below sixteen, upper case.
pub open spec fn hex_char(n: u8) -> char
    recommends
        n < 16,
{
    if n == 0 {
        '0'
    } else if n == 1 {
        '1'
    } else if n == 2 {
        '2'
    } else if n == 3 {
        '3'
    } else if n == 4 {
        '4'
    } else if n == 5 {
        '5'
    } else if n == 6 {
        '6'
    } else if n == 7 {
        '7'
    } else if n == 8 {
        '8'
    } else if n == 9 {
        '9'
    } else if n == 10 {
        'A'
    } else if n == 11 {
        'B'
    } else if n == 12 {
        'C'
    } else if n == 13 {
        'D'
    } else if n == 14 {
        'E'
    } else {
        'F'
    }
}

/// The hexadecimal digit character for a value below sixteen, upper case.
pub fn hex_char_exec(n: u8) -> (c: char)
    requires
        n < 16,
    ensures
        c == hex_char(n),
{
    if n == 0 {
        '0'
    } else if n == 1 {
        '1'
    } else if n == 2 {
        '2'
    } else if n == 3 {
        '3'
    } else if n == 4 {
        '4'
    } else if n == 5 {
        '5'
    } else if n == 6 {
        '6'
    } else if n == 7 {
        '7'
    } else if n == 8 {
        '8'
    } else if n == 9 {
        '9'
    } else if n == 10 {
        'A'
    } else if n == 11 {
        'B'
    } else if n == 12 {
        'C'
    } else if n == 13 {
        'D'
    } else if n == 14 {
        'E'
    } else {
        'F'
    }
}

/// A percent-escape of one byte: `%` followed by two hex digits.
pub open spec fn percent_byte(b: u8) -> Seq<char> {
    seq!['%', hex_char(b / 16), hex_char(b % 16)]
}

/// Percent-escapes of a byte sequence, in order.
pub open spec fn percent_bytes(bs: Seq<u8>) -> Seq<char>
    decreases bs.len(),
{
    if bs.len() == 0 {
        Seq::empty()
    } else {
        percent_byte(bs[0]) + percent_bytes(bs.drop_first())
    }
}

/// Characters that percent-encoding leaves as they are: ASCII letters,
/// digits, `-`, `_`, `.` and `~`.
pub open spec fn is_unreserved(c: char) -> bool {
    (97 <= c as u32 && c as u32 <= 122) || (65 <= c as u32 && c as u32 <= 90) || (48 <= c as u32
        && c as u32 <= 57) || c == '-' || c == '_' || c == '.' || c == '~'
}

/// The percent-encoding of one character: kept when unreserved, `%20` for a
/// space, and a percent-escape of each of its UTF-8 bytes otherwise.
pub open spec fn encode_char(c: char) -> Seq<char> {
    if is_unreserved(c) {
        seq![c]
    } else if c == ' ' {
        seq!['%', '2', '0']
    } else {
        percent_bytes(encode_scalar(c as u32))
    }
}

/// The percent-encoding of a character sequence.
pub open spec fn percent_encode(s: Seq<char>) -> Seq<char>
    decreases s.len(),
{
    if s.len() == 0 {
        Seq::empty()
    } else {
        encode_char(s[0]) + percent_encode(s.drop_first())
    }
}

/// Appends the percent-escape of one byte.
fn push_percent_byte(out: &mut String, b: u8)
    ensures
        final(out)@ == old(out)@ + percent_byte(b),
{
    let ghost pre = out@;
    out.push('%');
    out.push(hex_char_exec(b / 16));
    out.push(hex_char_exec(b % 16));
    proof {
        assert(pre.push('%').push(hex_char(b / 16)).push(hex_char(b % 16)) =~= pre + percent_byte(
            b,
        ));
    }
}

/// Appends the percent-encoding of one character, whose UTF-8 bytes are
/// computed here and proved equal to `vstd::utf8::encode_scalar`.
fn push_encoded_char(out: &mut String, c: char)
    ensures
        final(out)@ == old(out)@ + encode_char(c),
{
    let ghost pre = out@;
    let u = c as u32;
    proof {
        char_is_scalar(c);
    }
    if (97 <= u && u <= 122) || (65 <= u && u <= 90) || (48 <= u && u <= 57) || c == '-' || c == '_'
        || c == '.' || c == '~' {
        out.push(c);
        proof {
            assert(pre.push(c) =~= pre + seq![c]);
        }
    } else if c == ' ' {
        out.push('%');
        out.push('2');
        out.push('0');
        proof {
            assert(pre.push('%').push('2').push('0') =~= pre + seq!['%', '2', '0']);
        }
    } else if u <= 0x7F {
        let b0 = #[verifier::truncate] ((u & 0x7F) as u8);
        push_percent_byte(out, b0);
        proof {
            assert(encode_scalar(u) =~= seq![b0]);
            lemma_percent_bytes_one(b0);
        }
    } else if u <= 0x7FF {
        let b0 = 0xC0 | #[verifier::truncate] (((u >> 6) & 0x1F) as u8);
        let b1 = 0x80 | (u & 0x3F) as u8;
        push_percent_byte(out, b0);
        push_percent_byte(out, b1);
        proof {
            assert(encode_scalar(u) =~= seq![b0, b1]);
            lemma_percent_bytes_concat(seq![b0], seq![b1]);
            assert(seq![b0] + seq![b1] =~= seq![b0, b1]);
            lemma_percent_bytes_one(b0);
            lemma_percent_bytes_one(b1);
            assert(pre + percent_byte(b0) + percent_byte(b1) =~= pre + (percent_byte(b0)
                + percent_byte(b1)));
        }
    } else if u <= 0xFFFF {
        let b0 = 0xE0 | #[verifier::truncate] (((u >> 12) & 0x0F) as u8);
        let b1 = 0x80 | #[verifier::truncate] (((u >> 6) & 0x3F) as u8);
        let b2 = 0x80 | (u & 0x3F) as u8;
        push_percent_byte(out, b0);
        push_percent_byte(out, b1);
        push_percent_byte(out, b2);
        proof {
            assert(has_width_3_encoding(u));
            assert(encode_scalar(u) =~= seq![b0, b1, b2]);
            lemma_percent_bytes_concat(seq![b0], seq![b1]);
            lemma_percent_bytes_concat(seq![b0] + seq![b1], seq![b2]);
            assert(seq![b0] + seq![b1] + seq![b2] =~= seq![b0, b1, b2]);
            lemma_percent_bytes_one(b0);
            lemma_percent_bytes_one(b1);
            lemma_percent_bytes_one(b2);
            assert(pre + percent_byte(b0) + percent_byte(b1) + percent_byte(b2) =~= pre + (
            percent_bytes(seq![b0] + seq![b1]) + percent_byte(b2)));
        }
    } else {
        let b0 = 0xF0 | #[verifier::truncate] (((u >> 18) & 0x7) as u8);
        let b1 = 0x80 | #[verifier::truncate] (((u >> 12) & 0x3F) as u8);
        let b2 = 0x80 | #[verifier::truncate] (((u >> 6) & 0x3F) as u8);
        let b3 = 0x80 | (u & 0x3F) as u8;
        push_percent_byte(out, b0);
        push_percent_byte(out, b1);
        push_percent_byte(out, b2);
        push_percent_byte(out, b3);
        proof {
            assert(encode_scalar(u) =~= seq![b0, b1, b2, b3]);
            lemma_percent_bytes_concat(seq![b0], seq![b1]);
            lemma_percent_bytes_concat(seq![b0] + seq![b1], seq![b2]);
            lemma_percent_bytes_concat(seq![b0] + seq![b1] + seq![b2], seq![b3]);
            assert(seq![b0] + seq![b1] =~= seq![b0, b1]);
            assert(seq![b0] + seq![b1] + seq![b2] =~= seq![b0, b1, b2]);
            assert(seq![b0] + seq![b1] + seq![b2] + seq![b3] =~= seq![b0, b1, b2, b3]);
            lemma_percent_bytes_one(b0);
            lemma_percent_bytes_one(b1);
            lemma_percent_bytes_one(b2);
            lemma_percent_bytes_one(b3);
            assert(pre + percent_byte(b0) + percent_byte(b1) + percent_byte(b2) + percent_byte(b3)
                =~= pre + (percent_bytes(seq![b0] + seq![b1] + seq![b2]) + percent_byte(b3)));
        }
    }
}

/// `percent_bytes` of a single byte is that byte's percent-escape.
proof fn lemma_percent_bytes_one(b: u8)
    ensures
        percent_bytes(seq![b]) == percent_byte(b),
{
    assert(seq![b].drop_first() =~= Seq::<u8>::empty());
    assert(seq![b][0] == b);
    assert(percent_bytes(Seq::<u8>::empty()) == Seq::<char>::empty());
    assert(percent_bytes(seq![b]) == percent_byte(b) + Seq::<char>::empty());
    assert(percent_byte(b) + Seq::<char>::empty() =~= percent_byte(b));
}

/// `percent_bytes` distributes over concatenation.
proof fn lemma_percent_bytes_concat(a: Seq<u8>, b: Seq<u8>)
    ensures
        percent_bytes(a + b) == percent_bytes(a) + percent_bytes(b),
    decreases a.len(),
{
    if a.len() == 0 {
        assert(a + b =~= b);
        assert(percent_bytes(a) + percent_bytes(b) =~= percent_bytes(b));
    } else {
        lemma_percent_bytes_concat(a.drop_first(), b);
        assert((a + b).drop_first() =~= a.drop_first() + b);
        assert((a + b)[0] == a[0]);
        assert(percent_byte(a[0]) + (percent_bytes(a.drop_first()) + percent_bytes(b)) =~= (
        percent_byte(a[0]) + percent_bytes(a.drop_first())) + percent_bytes(b));
    }
}

/// Percent-encodes `s` for use in a query string: unreserved characters are
/// kept, a space becomes `%20`, and every other character becomes the
/// percent-escapes of its UTF-8 bytes.
pub fn urlencoding(s: &str) -> (r: String)
    ensures
        r@ == percent_encode(s@),
{
    let n = s.unicode_len();
    let mut out = String::new();
    let mut i: usize = 0;
    while i < n
        invariant
            n == s@.len(),
            i <= n,
            out@ == percent_encode(s@.take(i as int)),
        decreases n - i,
    {
        let c = s.get_char(i);
        push_encoded_char(&mut out, c);
        proof {
            lemma_percent_encode_snoc(s@.take(i as int), c);
            assert(s@.take(i as int).push(c) =~= s@.take(i + 1));
        }
        i += 1;
    }
    proof {
        assert(s@.take(n as int) =~= s@);
    }
    out
}

/// `percent_encode` over a sequence extended by one character.
proof fn lemma_percent_encode_snoc(s: Seq<char>, c: char)
    ensures
        percent_encode(s.push(c)) == percent_encode(s) + encode_char(c),
    decreases s.len(),
{
    if s.len() == 0 {
        assert(s.push(c).drop_first() =~= Seq::<char>::empty());
        assert(s.push(c)[0] == c);
        assert(percent_encode(s.push(c)) == encode_char(c) + percent_encode(Seq::<char>::empty()));
        assert(encode_char(c) + Seq::<char>::empty() =~= encode_char(c));
        assert(percent_encode(s) + encode_char(c) =~= encode_char(c));
    } else {
        lemma_percent_encode_snoc(s.drop_first(), c);
        assert(s.push(c).drop_first() =~= s.drop_first().push(c));
        assert(s.push(c)[0] == s[0]);
        assert(encode_char(s[0]) + (percent_encode(s.drop_first()) + encode_char(c)) =~= (
        encode_char(s[0]) + percent_encode(s.drop_first())) + encode_char(c));
    }
}

/// The decimal digit characters of `n`, most significant first, with no
/// leading zeros (a single `0` for zero itself).
pub open spec fn dec_digits(n: nat) -> Seq<char>
    decreases n,
{
    if n < 10 {
        seq![hex_char(n as u8)]
    } else {
        dec_digits(n / 10) + seq![hex_char((n % 10) as u8)]
    }
}

/// Writes `n` in decimal.
pub fn u64_to_string(n: u64) -> (r: String)
    ensures
        r@ == dec_digits(n as nat),
{
    let mut out = String::new();
    if n == 0 {
        out.push('0');
        proof {
            assert(out@ =~= seq!['0']);
        }
        return out;
    }
    let mut m: u64 = n;
    let mut digits: Vec<char> = Vec::new();
    proof {
        assert(dec_digits(n as nat) + Seq::<char>::empty() =~= dec_digits(n as nat));
    }
    while m > 0
        invariant
            m > 0 ==> dec_digits(n as nat) == dec_digits(m as nat) + digits@,
            m == 0 ==> dec_digits(n as nat) == digits@,
        decreases m,
    {
        let ghost m0 = m as nat;
        let ghost digits0 = digits@;
        let d = (m % 10) as u8;
        let c = hex_char_exec(d);
        digits.insert(0, c);
        m = m / 10;
        proof {
            assert(digits@ =~= seq![c] + digits0);
            if m > 0 {
                assert(m0 >= 10);
                assert(dec_digits(m0) == dec_digits(m0 / 10) + seq![hex_char((m0 % 10) as u8)]);
                assert((m0 % 10) as u8 == d);
                assert(m as nat == m0 / 10);
                assert(dec_digits(m as nat) + (seq![c] + digits0) =~= (dec_digits(m as nat)
                    + seq![c]) + digits0);
            } else {
                assert(m0 < 10);
                assert(dec_digits(m0) == seq![hex_char(m0 as u8)]);
                assert(m0 as u8 == d);
                assert(seq![c] + digits0 =~= dec_digits(m0) + digits0);
            }
        }
    }
    let k = digits.len();
    let mut i: usize = 0;
    proof {
        assert(digits@.take(0) =~= Seq::<char>::empty());
    }
    while i < k
        invariant
            k == digits@.len(),
            i <= k,
            out@ == digits@.take(i as int),
        decreases k - i,
    {
        let c = digits[i];
        out.push(c);
        proof {
            assert(digits@.take(i as int).push(c) =~= digits@.take(i + 1));
        }
        i += 1;
    }
    proof {
        assert(digits@.take(k as int) =~= digits@);
    }
    out
}

/// The decimal digits of `n`, zero-padded on the left to width two.
pub open spec fn two_digits(n: nat) -> Seq<char> {
    if n < 10 {
        seq!['0'] + dec_digits(n)
    } else {
        dec_digits(n)
    }
}

/// Formats a whole-second count as zero-padded `minutes:seconds`.
pub fn format_time(total_secs: u64) -> (r: String)
    ensures
        r@ == two_digits((total_secs / 60) as nat) + seq![':'] + two_digits(
            (total_secs % 60) as nat,
        ),
{
    let mins = total_secs / 60;
    let secs = total_secs % 60;
    let mut out = String::new();
    if mins < 10 {
        out.push('0');
    }
    let mins_str = u64_to_string(mins);
    out.append(mins_str.as_str());
    proof {
        if mins < 10 {
            assert(out@ =~= seq!['0'] + dec_digits(mins as nat));
        }
        assert(out@ =~= two_digits((total_secs / 60) as nat));
    }
    out.push(':');
    let ghost mid = out@;
    if secs < 10 {
        out.push('0');
    }
    let secs_str = u64_to_string(secs);
    out.append(secs_str.as_str());
    proof {
        assert(mid =~= two_digits((total_secs / 60) as nat) + seq![':']);
        if secs < 10 {
            assert(out@ =~= mid + (seq!['0'] + dec_digits(secs as nat)));
        } else {
            assert(out@ =~= mid + dec_digits(secs as nat));
        }
        assert(mid + two_digits((total_secs % 60) as nat) =~= two_digits(
            (total_secs / 60) as nat,
        ) + seq![':'] + two_digits((total_secs % 60) as nat));
    }
    out
}

/// Is `c` a decimal digit?
pub open spec fn is_dec_digit(c: char) -> bool {
    48 <= c as u32 && c as u32 <= 57
}

/// The value of a decimal digit character; zero for anything else.
pub open spec fn digit_val(c: char) -> nat {
    if is_dec_digit(c) {
        (c as u32 - 48) as nat
    } else {
        0
    }
}

/// The number that a digit string denotes, most significant digit first.
pub open spec fn digits_val(s: Seq<char>) -> nat
    decreases s.len(),
{
    if s.len() == 0 {
        0
    } else {
        digits_val(s.drop_last()) * 10 + digit_val(s.last())
    }
}

/// The digits of a number string after an optional leading plus sign.
pub open spec fn u8_str_body(s: Seq<char>) -> Seq<char> {
    if s.len() > 0 && s[0] == '+' {
        s.drop_first()
    } else {
        s
    }
}

/// Does `s` denote a `u8`: an optional `+`, then one or more decimal digits
/// whose value fits in eight bits?
pub open spec fn is_valid_u8_str(s: Seq<char>) -> bool {
    let t = u8_str_body(s);
    t.len() > 0 && (forall|i: int| 0 <= i < t.len() ==> is_dec_digit(#[trigger] t[i]))
        && digits_val(t) <= 255
}

/// Appending one digit multiplies the prefix value by ten.
proof fn lemma_digits_val_take_step(t: Seq<char>, k: int)
    requires
        0 <= k < t.len(),
    ensures
        digits_val(t.take(k + 1)) == digits_val(t.take(k)) * 10 + digit_val(t[k]),
{
    assert(t.take(k + 1).drop_last() =~= t.take(k));
    assert(t.take(k + 1).last() == t[k]);
}

/// The value of a digit string is at least the value of any prefix.
proof fn lemma_digits_val_take_le(t: Seq<char>, k: int)
    requires
        0 <= k <= t.len(),
    ensures
        digits_val(t.take(k)) <= digits_val(t),
    decreases t.len() - k,
{
    if k == t.len() {
        assert(t.take(k) =~= t);
    } else {
        lemma_digits_val_take_step(t, k);
        lemma_digits_val_take_le(t, k + 1);
    }
}

/// Reads a `u8` from its decimal notation: an optional `+` followed by one
/// or more digits. Returns `None` exactly on strings that std's `u8`
/// parsing would reject: empty digits, a non-digit character, or a value
/// above 255.
pub fn parse_u8(s: &str) -> (r: Option<u8>)
    ensures
        match r {
            Some(v) => is_valid_u8_str(s@) && v == digits_val(u8_str_body(s@)),
            None => !is_valid_u8_str(s@),
        },
{
    let n = s.unicode_len();
    let start: usize = if n > 0 && s.get_char(0) == '+' {
        1
    } else {
        0
    };
    let ghost t = u8_str_body(s@);
    proof {
        assert(t =~= s@.subrange(start as int, n as int));
    }
    if start == n {
        return None;
    }
    let mut acc: u32 = 0;
    let mut i: usize = start;
    proof {
        assert(t.take(0) =~= Seq::<char>::empty());
    }
    while i < n
        invariant
            start <= i <= n,
            n == s@.len(),
            t == u8_str_body(s@),
            t == s@.subrange(start as int, n as int),
            t.len() == n - start,
            acc == digits_val(t.take(i - start)),
            acc <= 255,
            forall|j: int| 0 <= j < i - start ==> is_dec_digit(#[trigger] t[j]),
        decreases n - i,
    {
        let c = s.get_char(i);
        let u = c as u32;
        proof {
            assert(t[i - start] == s@[i as int]);
        }
        if !(48 <= u && u <= 57) {
            return None;
        }
        proof {
            lemma_digits_val_take_step(t, i - start);
        }
        acc = acc * 10 + (u - 48);
        if acc > 255 {
            proof {
                lemma_digits_val_take_le(t, i + 1 - start);
            }
            return None;
        }
        i += 1;
    }
    proof {
        assert(t.take(n - start) =~= t);
    }
    Some(acc as u8)
}

/// Does `s` begin with `pat`?
pub fn starts_with(s: &str, pat: &str) -> (b: bool)
    ensures
        b == (pat@.len() <= s@.len() && s@.subrange(0, pat@.len() as int) == pat@),
{
    let n = s.unicode_len();
    let m = pat.unicode_len();
    if m > n {
        return false;
    }
    matches_at(s, pat, 0)
}

} // verus!
