//! Character-level text algorithms: substring search, literal
//! replace-all, case folding for the ASCII range, blank detection,
//! truncation and decimal rendering.
//!
//! Strings are processed as `Vec<char>`, matching the `Seq<char>` view
//! that Verus gives to `str` and `String`.
use vstd::prelude::*;

verus! {

use vstd::string::StrSliceExecFns;

/// `p` occurs in `s` starting at position `i`.
pub open spec fn match_at(s: Seq<char>, p: Seq<char>, i: int) -> bool {
    0 <= i && i + p.len() <= s.len() && s.subrange(i, i + p.len() as int) == p
}

/// `p` occurs somewhere in `s`.
pub open spec fn contains_sub(s: Seq<char>, p: Seq<char>) -> bool {
    exists|i: int| match_at(s, p, i)
}

/// Every non-overlapping occurrence of `p` in `s`, scanned left to right,
/// replaced by `t`. An empty pattern leaves `s` unchanged.
pub open spec fn spec_replace_all(s: Seq<char>, p: Seq<char>, t: Seq<char>) -> Seq<char>
    decreases s.len(),
{
    if p.len() == 0 || s.len() < p.len() {
        s
    } else if s.subrange(0, p.len() as int) == p {
        t + spec_replace_all(s.skip(p.len() as int), p, t)
    } else {
        seq![s[0]] + spec_replace_all(s.skip(1), p, t)
    }
}

/// The characters of `s`, in order, as a vector.
#[verifier::loop_isolation(false)]
pub fn str_to_chars(s: &str) -> (r: Vec<char>)
    ensures
        r@ == s@,
{
    let n = s.unicode_len();
    let mut v: Vec<char> = Vec::new();
    let mut i: usize = 0;
    while i < n
        invariant
            i <= n,
            n == s@.len(),
            v@ == s@.subrange(0, i as int),
        decreases n - i,
    {
        let c = s.get_char(i);
        v.push(c);
        i = i + 1;
        proof {
            assert(v@ =~= s@.subrange(0, i as int));
        }
    }
    proof {
        assert(v@ =~= s@);
    }
    v
}

/// Relies on String::push: appends exactly one character.
#[verifier::external_body]
fn string_push_char(s: &mut String, c: char)
    ensures
        final(s)@ == old(s)@.push(c),
{
    s.push(c);
}

/// The string holding exactly the characters of `v`, in order.
#[verifier::loop_isolation(false)]
pub fn chars_to_string(v: &Vec<char>) -> (r: String)
    ensures
        r@ == v@,
{
    let mut s = String::new();
    let mut i: usize = 0;
    while i < v.len()
        invariant
            i <= v@.len(),
            s@ == v@.subrange(0, i as int),
        decreases v@.len() - i,
    {
        string_push_char(&mut s, v[i]);
        i = i + 1;
        proof {
            assert(s@ =~= v@.subrange(0, i as int));
        }
    }
    proof {
        assert(s@ =~= v@);
    }
    s
}

/// Appends all of `src` to `dst`.
#[verifier::loop_isolation(false)]
pub fn append_chars(dst: &mut Vec<char>, src: &Vec<char>)
    ensures
        final(dst)@ == old(dst)@ + src@,
{
    let ghost dst0 = dst@;
    let mut i: usize = 0;
    while i < src.len()
        invariant
            i <= src@.len(),
            dst@ == dst0 + src@.subrange(0, i as int),
        decreases src@.len() - i,
    {
        dst.push(src[i]);
        i = i + 1;
        proof {
            assert(dst@ =~= dst0 + src@.subrange(0, i as int));
        }
    }
    proof {
        assert(dst@ =~= dst0 + src@);
    }
}

#[verifier::loop_isolation(false)]
fn match_at_exec(s: &Vec<char>, p: &Vec<char>, i: usize) -> (r: bool)
    requires
        i + p@.len() <= s@.len(),
    ensures
        r == match_at(s@, p@, i as int),
{
    let slen = s.len();
    let mut j: usize = 0;
    while j < p.len()
        invariant
            j <= p@.len(),
            i + p@.len() <= s@.len(),
            slen == s@.len(),
            forall|k: int| 0 <= k < j ==> s@[i + k] == p@[k],
        decreases p@.len() - j,
    {
        proof {
            assert(i + j < s@.len());
        }
        if s[i + j] != p[j] {
            proof {
                assert(s@.subrange(i as int, i + p@.len() as int)[j as int] != p@[j as int]);
            }
            return false;
        }
        j = j + 1;
    }
    proof {
        assert(s@.subrange(i as int, i + p@.len() as int) =~= p@);
    }
    true
}

/// Whether `p` occurs in `s`.
#[verifier::loop_isolation(false)]
pub fn contains_chars(s: &Vec<char>, p: &Vec<char>) -> (r: bool)
    ensures
        r == contains_sub(s@, p@),
{
    if p.len() > s.len() {
        proof {
            assert(forall|i: int| !match_at(s@, p@, i));
        }
        return false;
    }
    if p.len() == 0 {
        proof {
            assert(s@.subrange(0, 0) =~= p@);
            assert(match_at(s@, p@, 0));
        }
        return true;
    }
    let mut i: usize = 0;
    while i <= s.len() - p.len()
        invariant
            1 <= p@.len() <= s@.len(),
            i <= s@.len() - p@.len() + 1,
            forall|k: int| 0 <= k < i ==> !match_at(s@, p@, k),
        decreases s@.len() - i,
    {
        if match_at_exec(s, p, i) {
            return true;
        }
        i = i + 1;
    }
    proof {
        assert(forall|k: int| match_at(s@, p@, k) ==> 0 <= k <= s@.len() - p@.len());
    }
    false
}

/// Whether `pattern` occurs in `text`.
pub fn contains_str(text: &str, pattern: &str) -> (r: bool)
    ensures
        r == contains_sub(text@, pattern@),
{
    let s = str_to_chars(text);
    let p = str_to_chars(pattern);
    contains_chars(&s, &p)
}

/// Every non-overlapping occurrence of `p` replaced by `t`.
#[verifier::loop_isolation(false)]
pub fn replace_all_chars(s: &Vec<char>, p: &Vec<char>, t: &Vec<char>) -> (r: Vec<char>)
    ensures
        r@ == spec_replace_all(s@, p@, t@),
{
    let mut out: Vec<char> = Vec::new();
    if p.len() == 0 {
        append_chars(&mut out, s);
        return out;
    }
    let mut i: usize = 0;
    proof {
        assert(s@.skip(0) =~= s@);
        assert(out@ + spec_replace_all(s@, p@, t@) =~= spec_replace_all(s@, p@, t@));
    }
    while i < s.len()
        invariant
            p@.len() >= 1,
            i <= s@.len(),
            spec_replace_all(s@, p@, t@) == out@ + spec_replace_all(s@.skip(i as int), p@, t@),
        decreases s@.len() - i,
    {
        let ghost rem = s@.skip(i as int);
        if s.len() - i >= p.len() && match_at_exec(s, p, i) {
            proof {
                assert(rem.subrange(0, p@.len() as int) =~= s@.subrange(
                    i as int,
                    i + p@.len() as int,
                ));
                assert(rem.skip(p@.len() as int) =~= s@.skip(i + p@.len() as int));
                assert(out@ + (t@ + spec_replace_all(s@.skip(i + p@.len() as int), p@, t@)) =~= (
                out@ + t@) + spec_replace_all(s@.skip(i + p@.len() as int), p@, t@));
            }
            append_chars(&mut out, t);
            i = i + p.len();
        } else {
            proof {
                if s@.len() - i >= p@.len() {
                    assert(rem.subrange(0, p@.len() as int) =~= s@.subrange(
                        i as int,
                        i + p@.len() as int,
                    ));
                    assert(rem.subrange(0, p@.len() as int) != p@);
                    assert(rem.skip(1) =~= s@.skip(i + 1));
                    assert(spec_replace_all(rem, p@, t@) == seq![rem[0]] + spec_replace_all(
                        s@.skip(i + 1),
                        p@,
                        t@,
                    ));
                } else {
                    assert(spec_replace_all(rem, p@, t@) == rem);
                    assert(rem.skip(1) =~= s@.skip(i + 1));
                    assert(s@.skip(i + 1).len() < p@.len());
                    assert(spec_replace_all(s@.skip(i + 1), p@, t@) == s@.skip(i + 1));
                    assert(rem == seq![rem[0]] + rem.skip(1));
                }
                assert(out@ + (seq![rem[0]] + spec_replace_all(s@.skip(i + 1), p@, t@)) =~= (out@
                    + seq![rem[0]]) + spec_replace_all(s@.skip(i + 1), p@, t@));
                assert(rem[0] == s@[i as int]);
            }
            let c = s[i];
            out.push(c);
            i = i + 1;
        }
    }
    proof {
        assert(s@.skip(i as int) =~= Seq::<char>::empty());
        assert(spec_replace_all(s@.skip(i as int), p@, t@) == s@.skip(i as int));
        assert(out@ + s@.skip(i as int) =~= out@);
    }
    out
}

/// Every non-overlapping occurrence of `pattern` in `text`, scanned left
/// to right, replaced by the literal `to`.
pub fn replace_all(text: &str, pattern: &str, to: &str) -> (r: String)
    ensures
        r@ == spec_replace_all(text@, pattern@, to@),
{
    let s = str_to_chars(text);
    let p = str_to_chars(pattern);
    let t = str_to_chars(to);
    let out = replace_all_chars(&s, &p, &t);
    chars_to_string(&out)
}

/// ASCII upper-case letters mapped to lower case; all else unchanged.
pub open spec fn spec_lower_char(c: char) -> char {
    if 'A' <= c && c <= 'Z' {
        ((c as u8) + 32) as char
    } else {
        c
    }
}

/// The character-wise ASCII lowering of `s`.
pub open spec fn spec_ascii_lower(s: Seq<char>) -> Seq<char> {
    s.map(|_i: int, c: char| spec_lower_char(c))
}

/// The string with every ASCII upper-case letter lowered.
#[verifier::loop_isolation(false)]
pub fn ascii_lowercase(text: &str) -> (r: String)
    ensures
        r@ == spec_ascii_lower(text@),
{
    let s = str_to_chars(text);
    let mut out: Vec<char> = Vec::new();
    let mut i: usize = 0;
    while i < s.len()
        invariant
            i <= s@.len(),
            out@ == spec_ascii_lower(s@).subrange(0, i as int),
        decreases s@.len() - i,
    {
        let c = s[i];
        if 'A' <= c && c <= 'Z' {
            out.push(((c as u8) + 32) as char);
        } else {
            out.push(c);
        }
        i = i + 1;
        proof {
            assert(out@ =~= spec_ascii_lower(s@).subrange(0, i as int));
        }
    }
    proof {
        assert(out@ =~= spec_ascii_lower(s@));
    }
    chars_to_string(&out)
}

/// Whether `char::is_whitespace` holds: a property of the character
/// alone, given by the Unicode tables.
pub uninterp spec fn char_whitespace(c: char) -> bool;

/// Relies on char::is_whitespace: a fixed property of the character;
/// the documented ASCII whitespace characters satisfy it.
#[verifier::external_body]
pub(crate) fn is_whitespace_char(c: char) -> (r: bool)
    ensures
        r == char_whitespace(c),
        c == ' ' ==> r,
        c == '\t' ==> r,
        c == '\n' ==> r,
        c == '\r' ==> r,
{
    c.is_whitespace()
}

/// `s` consists of whitespace only (an empty string is blank).
pub open spec fn all_space(s: Seq<char>) -> bool {
    forall|i: int| 0 <= i < s.len() ==> char_whitespace(#[trigger] s[i])
}

/// Whether `text` is empty or whitespace only.
#[verifier::loop_isolation(false)]
pub fn is_blank(text: &str) -> (r: bool)
    ensures
        r == all_space(text@),
{
    let s = str_to_chars(text);
    let mut i: usize = 0;
    while i < s.len()
        invariant
            i <= s@.len(),
            forall|k: int| 0 <= k < i ==> char_whitespace(#[trigger] s@[k]),
        decreases s@.len() - i,
    {
        let c = s[i];
        if !is_whitespace_char(c) {
            proof {
                assert(!char_whitespace(s@[i as int]));
                assert(!all_space(s@));
                assert(s@ == text@);
            }
            return false;
        }
        i = i + 1;
    }
    true
}

/// `s` cut to at most `max` characters.
pub open spec fn spec_truncate(s: Seq<char>, max: int) -> Seq<char> {
    if s.len() <= max {
        s
    } else {
        s.subrange(0, max)
    }
}

/// The first `max` characters of `text` (all of it, if shorter).
#[verifier::loop_isolation(false)]
pub fn truncate_chars(text: &str, max: usize) -> (r: String)
    ensures
        r@ == spec_truncate(text@, max as int),
{
    let s = str_to_chars(text);
    if s.len() <= max {
        return chars_to_string(&s);
    }
    let mut out: Vec<char> = Vec::new();
    let mut i: usize = 0;
    while i < max
        invariant
            max < s@.len(),
            i <= max,
            out@ == s@.subrange(0, i as int),
        decreases max - i,
    {
        out.push(s[i]);
        i = i + 1;
        proof {
            assert(out@ =~= s@.subrange(0, i as int));
        }
    }
    chars_to_string(&out)
}

/// The decimal digit character for `d`.
pub open spec fn spec_digit_char(d: int) -> char {
    if d == 0 {
        '0'
    } else if d == 1 {
        '1'
    } else if d == 2 {
        '2'
    } else if d == 3 {
        '3'
    } else if d == 4 {
        '4'
    } else if d == 5 {
        '5'
    } else if d == 6 {
        '6'
    } else if d == 7 {
        '7'
    } else if d == 8 {
        '8'
    } else {
        '9'
    }
}

/// The decimal rendering of `n`, most significant digit first.
pub open spec fn spec_u64_dec(n: int) -> Seq<char>
    decreases n,
{
    if n < 10 {
        seq![spec_digit_char(n)]
    } else {
        spec_u64_dec(n / 10).push(spec_digit_char(n % 10))
    }
}

fn digit_char(d: u64) -> (r: char)
    requires
        d < 10,
    ensures
        r == spec_digit_char(d as int),
{
    if d == 0 {
        '0'
    } else if d == 1 {
        '1'
    } else if d == 2 {
        '2'
    } else if d == 3 {
        '3'
    } else if d == 4 {
        '4'
    } else if d == 5 {
        '5'
    } else if d == 6 {
        '6'
    } else if d == 7 {
        '7'
    } else if d == 8 {
        '8'
    } else {
        '9'
    }
}

fn u64_to_chars(n: u64) -> (r: Vec<char>)
    ensures
        r@ == spec_u64_dec(n as int),
    decreases n,
{
    if n < 10 {
        let mut v: Vec<char> = Vec::new();
        v.push(digit_char(n));
        proof {
            assert(v@ =~= seq![spec_digit_char(n as int)]);
        }
        v
    } else {
        let mut v = u64_to_chars(n / 10);
        v.push(digit_char(n % 10));
        v
    }
}

/// The decimal rendering of `n` as a string.
pub fn u64_to_string(n: u64) -> (r: String)
    ensures
        r@ == spec_u64_dec(n as int),
{
    let v = u64_to_chars(n);
    chars_to_string(&v)
}

/// A decimal digit character.
pub open spec fn is_digit_char(c: char) -> bool {
    ||| c == '0'
    ||| c == '1'
    ||| c == '2'
    ||| c == '3'
    ||| c == '4'
    ||| c == '5'
    ||| c == '6'
    ||| c == '7'
    ||| c == '8'
    ||| c == '9'
}

/// A decimal rendering is non-empty and made of digits only.
pub proof fn lemma_dec_shape(n: int)
    requires
        n >= 0,
    ensures
        spec_u64_dec(n).len() >= 1,
        forall|i: int| 0 <= i < spec_u64_dec(n).len() ==> is_digit_char(#[trigger] spec_u64_dec(n)[i]),
    decreases n,
{
    if n >= 10 {
        lemma_dec_shape(n / 10);
        assert forall|i: int| 0 <= i < spec_u64_dec(n).len() implies is_digit_char(
            #[trigger] spec_u64_dec(n)[i],
        ) by {
            if i < spec_u64_dec(n / 10).len() {
                assert(spec_u64_dec(n)[i] == spec_u64_dec(n / 10)[i]);
            } else {
                assert(spec_u64_dec(n)[i] == spec_digit_char(n % 10));
            }
        }
    }
}

/// Distinct numbers render distinct decimal strings.
pub proof fn lemma_dec_injective(a: int, b: int)
    requires
        a >= 0,
        b >= 0,
        spec_u64_dec(a) == spec_u64_dec(b),
    ensures
        a == b,
    decreases a,
{
    lemma_dec_shape(a);
    lemma_dec_shape(b);
    if a < 10 && b < 10 {
        assert(spec_u64_dec(a)[0] == spec_digit_char(a));
        assert(spec_u64_dec(b)[0] == spec_digit_char(b));
    } else if a < 10 && b >= 10 {
        lemma_dec_shape(b / 10);
        assert(spec_u64_dec(b).len() >= 2);
        assert(spec_u64_dec(a).len() == 1);
    } else if a >= 10 && b < 10 {
        lemma_dec_shape(a / 10);
        assert(spec_u64_dec(a).len() >= 2);
        assert(spec_u64_dec(b).len() == 1);
    } else {
        assert(spec_u64_dec(a).last() == spec_digit_char(a % 10));
        assert(spec_u64_dec(b).last() == spec_digit_char(b % 10));
        assert(a % 10 == b % 10);
        assert(spec_u64_dec(a).drop_last() =~= spec_u64_dec(a / 10));
        assert(spec_u64_dec(b).drop_last() =~= spec_u64_dec(b / 10));
        lemma_dec_injective(a / 10, b / 10);
        assert(a == 10 * (a / 10) + a % 10);
        assert(b == 10 * (b / 10) + b % 10);
    }
}

/// A delimiter that occurs in neither head determines the split: equal
/// concatenations around it have equal heads and equal tails.
pub proof fn lemma_delimited_unique(x1: Seq<char>, y1: Seq<char>, x2: Seq<char>, y2: Seq<char>, c: char)
    requires
        forall|i: int| 0 <= i < x1.len() ==> x1[i] != c,
        forall|i: int| 0 <= i < x2.len() ==> x2[i] != c,
        x1 + seq![c] + y1 == x2 + seq![c] + y2,
    ensures
        x1 == x2,
        y1 == y2,
{
    let s = x1 + seq![c] + y1;
    assert(s[x1.len() as int] == c);
    assert(s[x2.len() as int] == c);
    if x1.len() < x2.len() {
        assert(s[x1.len() as int] == x2[x1.len() as int]);
        assert(false);
    }
    if x2.len() < x1.len() {
        assert(s[x2.len() as int] == x1[x2.len() as int]);
        assert(false);
    }
    assert(x1 =~= x2) by {
        assert forall|i: int| 0 <= i < x1.len() implies x1[i] == x2[i] by {
            assert(s[i] == x1[i]);
            assert(s[i] == x2[i]);
        }
    }
    assert(s == x2 + seq![c] + y2);
    assert(s.len() == x1.len() + 1 + y1.len());
    assert(s.len() == x2.len() + 1 + y2.len());
    assert(y1.len() == y2.len());
    assert(y1 =~= y2) by {
        assert forall|i: int| 0 <= i < y1.len() implies y1[i] == y2[i] by {
            assert((x1 + seq![c] + y1)[x1.len() + 1 + i] == y1[i]);
            assert((x2 + seq![c] + y2)[x2.len() + 1 + i] == y2[i]);
        }
    }
}

/// Law: a string without any occurrence of the pattern is left unchanged
/// by replace-all.
pub proof fn lemma_replace_all_absent(s: Seq<char>, p: Seq<char>, t: Seq<char>)
    requires
        !contains_sub(s, p),
    ensures
        spec_replace_all(s, p, t) == s,
    decreases s.len(),
{
    if p.len() == 0 || s.len() < p.len() {
    } else if s.subrange(0, p.len() as int) == p {
        assert(match_at(s, p, 0));
        assert(false);
    } else {
        assert forall|i: int| !match_at(s.skip(1), p, i) by {
            if match_at(s.skip(1), p, i) {
                assert(s.skip(1).subrange(i, i + p.len() as int) =~= s.subrange(
                    i + 1,
                    i + 1 + p.len() as int,
                ));
                assert(match_at(s, p, i + 1));
            }
        }
        lemma_replace_all_absent(s.skip(1), p, t);
        assert(seq![s[0]] + s.skip(1) =~= s);
    }
}

} // verus!
