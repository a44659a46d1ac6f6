//! Verified string utilities: the character- and byte-level operations that
//! the argument grammars and the renderer are specified with.

use vstd::prelude::*;
use vstd::string::StrSliceExecFns;
use vstd::string::StringExecFns;
use vstd::string::StringSliceAdditionalSpecFns;

verus! {

/// Character-by-character equality of two string slices.
pub fn str_eq(a: &str, b: &str) -> (r: bool)
    ensures
        r == (a@ == b@),
{
    let alen = a.unicode_len();
    let blen = b.unicode_len();
    if alen != blen {
        proof {
            assert(a@.len() != b@.len());
        }
        return false;
    }
    let mut i: usize = 0;
    while i < alen
        invariant
            i <= alen,
            alen == a@.len(),
            alen == b@.len(),
            forall|j: int| 0 <= j < i ==> a@[j] == b@[j],
        decreases alen - i,
    {
        if a.get_char(i) != b.get_char(i) {
            return false;
        }
        i += 1;
    }
    proof {
        assert(a@ =~= b@);
    }
    true
}

/// True when `s` begins with `prefix`, compared character by character.
pub open spec fn spec_starts_with(s: Seq<char>, prefix: Seq<char>) -> bool {
    prefix.len() <= s.len() && s.subrange(0, prefix.len() as int) == prefix
}

pub fn starts_with(s: &str, prefix: &str) -> (r: bool)
    ensures
        r == spec_starts_with(s@, prefix@),
{
    let slen = s.unicode_len();
    let plen = prefix.unicode_len();
    if plen > slen {
        return false;
    }
    let mut i: usize = 0;
    while i < plen
        invariant
            i <= plen,
            plen <= slen,
            slen == s@.len(),
            plen == prefix@.len(),
            forall|j: int| 0 <= j < i ==> s@[j] == prefix@[j],
        decreases plen - i,
    {
        if s.get_char(i) != prefix.get_char(i) {
            proof {
                assert(s@.subrange(0, prefix@.len() as int)[i as int] != prefix@[i as int]);
            }
            return false;
        }
        i += 1;
    }
    proof {
        assert(s@.subrange(0, prefix@.len() as int) =~= prefix@);
    }
    true
}

/// The characters of `s` after its last `/`; all of `s` when it has none.
pub open spec fn spec_basename(s: Seq<char>) -> Seq<char>
    decreases s.len(),
{
    if s.len() == 0 {
        s
    } else if s[s.len() - 1] == '/' {
        Seq::empty()
    } else {
        spec_basename(s.drop_last()).push(s[s.len() - 1])
    }
}

proof fn lemma_basename_of_suffix(s: Seq<char>, i: int)
    requires
        0 <= i < s.len(),
        s[i] == '/',
        forall|j: int| i < j < s.len() ==> s[j] != '/',
    ensures
        spec_basename(s) == s.subrange(i + 1, s.len() as int),
    decreases s.len(),
{
    if i == s.len() - 1 {
        assert(spec_basename(s) =~= s.subrange(i + 1, s.len() as int));
    } else {
        lemma_basename_of_suffix(s.drop_last(), i);
        assert(s.drop_last().subrange(i + 1, s.len() - 1).push(s[s.len() - 1]) =~= s.subrange(
            i + 1,
            s.len() as int,
        ));
    }
}

proof fn lemma_basename_no_slash(s: Seq<char>)
    requires
        forall|j: int| 0 <= j < s.len() ==> s[j] != '/',
    ensures
        spec_basename(s) == s,
    decreases s.len(),
{
    if s.len() > 0 {
        lemma_basename_no_slash(s.drop_last());
        assert(s.drop_last().push(s[s.len() - 1]) =~= s);
    }
}

/// The file-name component of a `/`-separated path: everything after the
/// last separator.
pub fn basename(s: &str) -> (r: String)
    ensures
        r@ == spec_basename(s@),
{
    let len = s.unicode_len();
    let mut i: usize = len;
    while i > 0
        invariant
            i <= len,
            len == s@.len(),
            forall|j: int| i <= j < len ==> s@[j] != '/',
        decreases i,
    {
        if s.get_char(i - 1) == '/' {
            proof {
                lemma_basename_of_suffix(s@, i - 1);
            }
            let r = s.substring_char(i, len);
            return r.to_owned();
        }
        i -= 1;
    }
    proof {
        lemma_basename_no_slash(s@);
        assert(s@.subrange(0, len as int) =~= s@);
    }
    s.substring_char(0, len).to_owned()
}

/// The parts of `s` between occurrences of `sep`; splitting the empty
/// string yields one empty part, as `str::split` does.
pub open spec fn spec_split(s: Seq<char>, sep: char) -> Seq<Seq<char>>
    decreases s.len(),
{
    if s.len() == 0 {
        seq![Seq::empty()]
    } else if s[0] == sep {
        seq![Seq::<char>::empty()] + spec_split(s.skip(1), sep)
    } else {
        let rest = spec_split(s.skip(1), sep);
        seq![seq![s[0]] + rest[0]] + rest.skip(1)
    }
}

pub proof fn lemma_split_len(s: Seq<char>, sep: char)
    ensures
        spec_split(s, sep).len() >= 1,
    decreases s.len(),
{
    if s.len() > 0 {
        lemma_split_len(s.skip(1), sep);
    }
}

proof fn lemma_split_at_first(s: Seq<char>, sep: char, i: int)
    requires
        0 <= i < s.len(),
        s[i] == sep,
        forall|j: int| 0 <= j < i ==> s[j] != sep,
    ensures
        spec_split(s, sep) == seq![s.subrange(0, i)] + spec_split(s.skip(i + 1), sep),
    decreases i,
{
    if i == 0 {
        assert(s.subrange(0, 0) =~= Seq::<char>::empty());
        assert(spec_split(s, sep) =~= seq![s.subrange(0, 0)] + spec_split(s.skip(1), sep));
    } else {
        let s1 = s.skip(1);
        assert(s1[i - 1] == sep);
        lemma_split_at_first(s1, sep, i - 1);
        lemma_split_len(s1.skip(i), sep);
        assert(s1.skip(i) =~= s.skip(i + 1));
        let rest = spec_split(s1, sep);
        assert(rest[0] == s1.subrange(0, i - 1));
        assert(seq![s[0]] + s1.subrange(0, i - 1) =~= s.subrange(0, i));
        assert(rest.skip(1) =~= spec_split(s.skip(i + 1), sep));
        assert(spec_split(s, sep) =~= seq![s.subrange(0, i)] + spec_split(s.skip(i + 1), sep));
    }
}

proof fn lemma_split_no_sep(s: Seq<char>, sep: char)
    requires
        forall|j: int| 0 <= j < s.len() ==> s[j] != sep,
    ensures
        spec_split(s, sep) == seq![s],
    decreases s.len(),
{
    if s.len() == 0 {
        assert(spec_split(s, sep) =~~= seq![s]);
    } else {
        lemma_split_no_sep(s.skip(1), sep);
        assert(seq![s[0]] + s.skip(1) =~= s);
        assert(spec_split(s, sep) =~~= seq![s]);
    }
}

/// Splits `s` on every occurrence of `sep`.
pub fn split_char(s: &str, sep: char) -> (r: Vec<String>)
    ensures
        r.deep_view() == spec_split(s@, sep),
    decreases s@.len(),
{
    let len = s.unicode_len();
    let mut i: usize = 0;
    while i < len
        invariant
            i <= len,
            len == s@.len(),
            forall|j: int| 0 <= j < i ==> s@[j] != sep,
        decreases len - i,
    {
        if s.get_char(i) == sep {
            let head = s.substring_char(0, i).to_owned();
            let tail = s.substring_char(i + 1, len);
            proof {
                assert(tail@ =~= s@.skip(i + 1));
            }
            let mut parts = split_char(tail, sep);
            proof {
                lemma_split_at_first(s@, sep, i as int);
            }
            parts.insert(0, head);
            proof {
                assert(parts.deep_view() =~= spec_split(s@, sep));
            }
            return parts;
        }
        i += 1;
    }
    proof {
        lemma_split_no_sep(s@, sep);
    }
    let mut parts: Vec<String> = Vec::new();
    parts.push(s.substring_char(0, len).to_owned());
    proof {
        assert(s@.subrange(0, len as int) =~= s@);
        assert(parts.deep_view() =~= seq![s@]);
    }
    parts
}

/// The parts joined with `sep` between consecutive parts.
pub open spec fn spec_join(parts: Seq<Seq<char>>, sep: Seq<char>) -> Seq<char>
    decreases parts.len(),
{
    if parts.len() == 0 {
        Seq::empty()
    } else if parts.len() == 1 {
        parts[0]
    } else {
        parts[0] + sep + spec_join(parts.skip(1), sep)
    }
}

fn join_from(parts: &Vec<String>, sep: &str, i: usize) -> (r: String)
    requires
        i <= parts.len(),
    ensures
        r@ == spec_join(parts.deep_view().skip(i as int), sep@),
    decreases parts.len() - i,
{
    if i == parts.len() {
        proof {
            assert(parts.deep_view().skip(i as int) =~= Seq::<Seq<char>>::empty());
        }
        String::new()
    } else if i + 1 == parts.len() {
        let r = parts[i].clone();
        proof {
            assert(parts.deep_view().skip(i as int) =~= seq![parts.deep_view()[i as int]]);
        }
        r
    } else {
        let tail = join_from(parts, sep, i + 1);
        let mut r = parts[i].clone();
        r.append(sep);
        r.append(tail.as_str());
        proof {
            let d = parts.deep_view();
            assert(d.skip(i as int).len() == parts.len() - i);
            assert(d.skip(i as int)[0] == d[i as int]);
            assert(d.skip(i as int).skip(1) =~= d.skip(i + 1));
        }
        r
    }
}

/// Joins the strings of `parts` with `sep` between consecutive elements.
pub fn join(parts: &Vec<String>, sep: &str) -> (r: String)
    ensures
        r@ == spec_join(parts.deep_view(), sep@),
{
    let r = join_from(parts, sep, 0);
    proof {
        assert(parts.deep_view().skip(0) =~= parts.deep_view());
    }
    r
}

/// The whitespace that `trim` strips: the common ASCII blank characters.
pub open spec fn is_blank(c: char) -> bool {
    c == ' ' || c == '\t' || c == '\n' || c == '\r'
}

pub open spec fn spec_trim_start(s: Seq<char>) -> Seq<char>
    decreases s.len(),
{
    if s.len() > 0 && is_blank(s[0]) {
        spec_trim_start(s.skip(1))
    } else {
        s
    }
}

pub open spec fn spec_trim_end(s: Seq<char>) -> Seq<char>
    decreases s.len(),
{
    if s.len() > 0 && is_blank(s[s.len() - 1]) {
        spec_trim_end(s.drop_last())
    } else {
        s
    }
}

/// `s` with leading and trailing blanks removed.
pub open spec fn spec_trim(s: Seq<char>) -> Seq<char> {
    spec_trim_end(spec_trim_start(s))
}

proof fn lemma_trim_start_skip(s: Seq<char>, a: int)
    requires
        0 <= a <= s.len(),
        forall|j: int| 0 <= j < a ==> is_blank(s[j]),
        a < s.len() ==> !is_blank(s[a]),
    ensures
        spec_trim_start(s) == s.skip(a),
    decreases a,
{
    if a == 0 {
        assert(s.skip(0) =~= s);
    } else {
        lemma_trim_start_skip(s.skip(1), a - 1);
        assert(s.skip(1).skip(a - 1) =~= s.skip(a));
    }
}

proof fn lemma_trim_end_take(s: Seq<char>, b: int)
    requires
        0 <= b <= s.len(),
        forall|j: int| b <= j < s.len() ==> is_blank(s[j]),
        b > 0 ==> !is_blank(s[b - 1]),
    ensures
        spec_trim_end(s) == s.take(b),
    decreases s.len() - b,
{
    if b == s.len() {
        assert(s.take(b) =~= s);
    } else {
        lemma_trim_end_take(s.drop_last(), b);
        assert(s.drop_last().take(b) =~= s.take(b));
    }
}

/// Removes leading and trailing blanks, character-exactly as `spec_trim`
/// describes.
pub fn trim(s: &str) -> (r: String)
    ensures
        r@ == spec_trim(s@),
{
    let len = s.unicode_len();
    let mut a: usize = 0;
    while a < len && is_blank_char(s.get_char(a))
        invariant
            a <= len,
            len == s@.len(),
            forall|j: int| 0 <= j < a ==> is_blank(s@[j]),
        decreases len - a,
    {
        a += 1;
    }
    proof {
        lemma_trim_start_skip(s@, a as int);
    }
    let mut b: usize = len;
    while b > a && is_blank_char(s.get_char(b - 1))
        invariant
            a <= b <= len,
            len == s@.len(),
            forall|j: int| 0 <= j < a ==> is_blank(s@[j]),
            forall|j: int| b <= j < len ==> is_blank(s@[j]),
        decreases b,
    {
        b -= 1;
    }
    let r = s.substring_char(a, b).to_owned();
    proof {
        let t = s@.skip(a as int);
        if b == a {
            lemma_trim_end_take(t, 0);
        } else {
            lemma_trim_end_take(t, b - a);
        }
        assert(t.take(b - a) =~= s@.subrange(a as int, b as int));
    }
    r
}

fn is_blank_char(c: char) -> (r: bool)
    ensures
        r == is_blank(c),
{
    c == ' ' || c == '\t' || c == '\n' || c == '\r'
}

/// True when `pat` occurs in `s` starting at position `i`.
pub open spec fn spec_match_at(s: Seq<char>, pat: Seq<char>, i: int) -> bool {
    i + pat.len() <= s.len() && s.subrange(i, i + pat.len()) == pat
}

fn match_at(s: &str, pat: &str, i: usize) -> (r: bool)
    requires
        i <= s@.len(),
    ensures
        r == spec_match_at(s@, pat@, i as int),
{
    let slen = s.unicode_len();
    let plen = pat.unicode_len();
    if plen > slen - i {
        return false;
    }
    let mut k: usize = 0;
    while k < plen
        invariant
            k <= plen,
            i + plen <= slen,
            slen == s@.len(),
            plen == pat@.len(),
            forall|j: int| 0 <= j < k ==> s@[i + j] == pat@[j],
        decreases plen - k,
    {
        if s.get_char(i + k) != pat.get_char(k) {
            proof {
                assert(s@.subrange(i as int, i + pat@.len())[k as int] != pat@[k as int]);
            }
            return false;
        }
        k += 1;
    }
    proof {
        assert(s@.subrange(i as int, i + pat@.len()) =~= pat@);
    }
    true
}

/// `s` with every occurrence of a non-empty `pat` replaced by `rep`,
/// scanning left to right without overlap; an empty `pat` leaves `s`
/// unchanged.
pub open spec fn spec_replace(s: Seq<char>, pat: Seq<char>, rep: Seq<char>) -> Seq<char>
    decreases s.len(),
{
    if pat.len() == 0 || s.len() < pat.len() {
        s
    } else if s.subrange(0, pat.len() as int) == pat {
        rep + spec_replace(s.skip(pat.len() as int), pat, rep)
    } else {
        seq![s[0]] + spec_replace(s.skip(1), pat, rep)
    }
}

/// Replaces every occurrence of `pat` in `s` by `rep`.
pub fn replace(s: &str, pat: &str, rep: &str) -> (r: String)
    ensures
        r@ == spec_replace(s@, pat@, rep@),
{
    let slen = s.unicode_len();
    let plen = pat.unicode_len();
    if plen == 0 || slen < plen {
        return s.to_owned();
    }
    let mut out = String::new();
    let mut run: usize = 0;
    let mut i: usize = 0;
    proof {
        assert(s@.skip(0) =~= s@);
        assert(Seq::<char>::empty() + s@.subrange(0, 0) + spec_replace(s@, pat@, rep@)
            =~= spec_replace(s@, pat@, rep@));
    }
    while i <= slen - plen
        invariant
            run <= i <= slen,
            plen >= 1,
            plen <= slen,
            slen == s@.len(),
            plen == pat@.len(),
            out@ + s@.subrange(run as int, i as int) + spec_replace(s@.skip(i as int), pat@, rep@)
                == spec_replace(s@, pat@, rep@),
        decreases slen - i,
    {
        if match_at(s, pat, i) {
            out.append(s.substring_char(run, i));
            out.append(rep);
            proof {
                let t = s@.skip(i as int);
                assert(t.subrange(0, pat@.len() as int) =~= s@.subrange(
                    i as int,
                    i + pat@.len(),
                ));
                assert(t.skip(pat@.len() as int) =~= s@.skip(i + plen));
                assert(s@.subrange(run as int, i as int) + Seq::<char>::empty() =~= s@.subrange(
                    run as int,
                    i as int,
                ));
            }
            i += plen;
            run = i;
            proof {
                assert(s@.subrange(run as int, i as int) =~= Seq::<char>::empty());
                assert(out@ + Seq::<char>::empty() =~= out@);
            }
        } else {
            proof {
                let t = s@.skip(i as int);
                assert(t.subrange(0, pat@.len() as int) =~= s@.subrange(
                    i as int,
                    i + pat@.len(),
                ));
                assert(t.skip(1) =~= s@.skip(i + 1));
                assert(seq![t[0]] =~= s@.subrange(i as int, i + 1));
                assert(s@.subrange(run as int, i as int) + s@.subrange(i as int, i + 1)
                    =~= s@.subrange(run as int, i + 1));
            }
            i += 1;
        }
    }
    out.append(s.substring_char(run, slen));
    proof {
        let t = s@.skip(i as int);
        assert(t.len() < pat@.len());
        assert(s@.subrange(run as int, i as int) + t =~= s@.subrange(run as int, slen as int));
    }
    out
}

/// The decimal digit character for `d`.
pub open spec fn spec_digit(d: int) -> char {
    if d == 0 {
        '0'
    } else if d == 1 {
        '1'
    } else if d == 2 {
        '2'
    } else if d == 3 {
        '3'
    } else if d == 4 {
        '4'
    } else if d == 5 {
        '5'
    } else if d == 6 {
        '6'
    } else if d == 7 {
        '7'
    } else if d == 8 {
        '8'
    } else {
        '9'
    }
}

/// The decimal rendering of a non-negative integer, without leading zeros
/// except for zero itself.
pub open spec fn spec_dec(n: int) -> Seq<char>
    recommends
        n >= 0,
    decreases n,
{
    if n < 10 {
        seq![spec_digit(n)]
    } else {
        spec_dec(n / 10).push(spec_digit(n % 10))
    }
}

fn digit_str(d: u32) -> (r: &'static str)
    requires
        d < 10,
    ensures
        r@ =~= seq![spec_digit(d as int)],
{
    proof {
        reveal_strlit("0");
        reveal_strlit("1");
        reveal_strlit("2");
        reveal_strlit("3");
        reveal_strlit("4");
        reveal_strlit("5");
        reveal_strlit("6");
        reveal_strlit("7");
        reveal_strlit("8");
        reveal_strlit("9");
    }
    if d == 0 {
        "0"
    } else if d == 1 {
        "1"
    } else if d == 2 {
        "2"
    } else if d == 3 {
        "3"
    } else if d == 4 {
        "4"
    } else if d == 5 {
        "5"
    } else if d == 6 {
        "6"
    } else if d == 7 {
        "7"
    } else if d == 8 {
        "8"
    } else {
        "9"
    }
}

/// Renders `n` in decimal.
pub fn u32_to_string(n: u32) -> (r: String)
    ensures
        r@ == spec_dec(n as int),
    decreases n,
{
    if n < 10 {
        digit_str(n).to_owned()
    } else {
        proof {
            assert(n / 10 < n && n / 10 >= 1) by (nonlinear_arith)
                requires
                    n >= 10,
            ;
        }
        let mut s = u32_to_string(n / 10);
        s.append(digit_str(n % 10));
        proof {
            assert(spec_dec(n as int / 10) + seq![spec_digit(n as int % 10)] =~= spec_dec(
                n as int / 10,
            ).push(spec_digit(n as int % 10)));
        }
        s
    }
}

/// Renders `n` in decimal.
pub fn u64_to_string(n: u64) -> (r: String)
    ensures
        r@ == spec_dec(n as int),
    decreases n,
{
    if n < 10 {
        digit_str(n as u32).to_owned()
    } else {
        proof {
            assert(n / 10 < n && n / 10 >= 1) by (nonlinear_arith)
                requires
                    n >= 10,
            ;
        }
        let mut s = u64_to_string(n / 10);
        s.append(digit_str((n % 10) as u32));
        proof {
            assert(spec_dec(n as int / 10) + seq![spec_digit(n as int % 10)] =~= spec_dec(
                n as int / 10,
            ).push(spec_digit(n as int % 10)));
        }
        s
    }
}

/// The decimal rendering of an integer, with a leading minus sign when it
/// is negative.
pub open spec fn spec_dec_signed(n: int) -> Seq<char> {
    if n >= 0 {
        spec_dec(n)
    } else {
        "-"@ + spec_dec(-n)
    }
}

/// Renders `n` in decimal, with a sign when negative.
pub fn i32_to_string(n: i32) -> (r: String)
    ensures
        r@ == spec_dec_signed(n as int),
{
    if n >= 0 {
        let r = u32_to_string(n as u32);
        r
    } else {
        let magnitude: u64 = (-(n as i64)) as u64;
        let mut r = "-".to_owned();
        let digits = u64_to_string(magnitude);
        r.append(digits.as_str());
        r
    }
}

/// True when some element of `v` has the characters of `x`.
pub fn contains_str(v: &Vec<String>, x: &str) -> (r: bool)
    ensures
        r == v.deep_view().contains(x@),
{
    let mut i: usize = 0;
    while i < v.len()
        invariant
            i <= v.len(),
            forall|k: int| 0 <= k < i ==> v.deep_view()[k] != x@,
        decreases v.len() - i,
    {
        if str_eq(v[i].as_str(), x) {
            proof {
                assert(v.deep_view()[i as int] == x@);
            }
            return true;
        }
        i += 1;
    }
    proof {
        assert(!v.deep_view().contains(x@));
    }
    false
}

/// The largest byte index at most `limit` that falls on a character
/// boundary of the UTF-8 encoding `bytes`.
pub open spec fn spec_boundary_at_most(bytes: Seq<u8>, k: int) -> int
    decreases k,
{
    if k <= 0 {
        0
    } else if vstd::utf8::is_char_boundary(bytes, k) {
        k
    } else {
        spec_boundary_at_most(bytes, k - 1)
    }
}

/// Relates a string to its cut: `r` is `s` when the UTF-8 encoding of `s`
/// fits in `limit` bytes, and otherwise the prefix of `s` cut at the last
/// character boundary not beyond `limit`.
pub open spec fn spec_truncated(s: Seq<char>, r: Seq<char>, limit: int) -> bool {
    if vstd::utf8::encode_utf8(s).len() <= limit {
        r == s
    } else {
        vstd::utf8::encode_utf8(r) == vstd::utf8::encode_utf8(s).subrange(
            0,
            spec_boundary_at_most(vstd::utf8::encode_utf8(s), limit),
        )
    }
}

proof fn lemma_boundary_at_most_bounds(bytes: Seq<u8>, k: int)
    ensures
        0 <= spec_boundary_at_most(bytes, k),
        spec_boundary_at_most(bytes, k) <= k || k < 0,
    decreases k,
{
    if k > 0 && !vstd::utf8::is_char_boundary(bytes, k) {
        lemma_boundary_at_most_bounds(bytes, k - 1);
    }
}

/// A truncated string's encoding never exceeds the limit.
pub proof fn lemma_truncated_len(s: Seq<char>, r: Seq<char>, limit: int)
    requires
        spec_truncated(s, r, limit),
        limit >= 0,
    ensures
        vstd::utf8::encode_utf8(r).len() <= limit,
{
    let bytes = vstd::utf8::encode_utf8(s);
    if bytes.len() > limit {
        lemma_boundary_at_most_bounds(bytes, limit);
    }
}

/// `s` cut to at most `limit` bytes, at the last character boundary not
/// beyond the limit; `s` unchanged when its encoding already fits.
pub fn truncate_bytes(s: &str, limit: usize) -> (r: String)
    ensures
        spec_truncated(s@, r@, limit as int),
{
    broadcast use vstd::slice::axiom_spec_len;

    let b = s.as_bytes();
    if b.len() <= limit {
        return s.to_owned();
    }
    let mut cut: usize = limit;
    while !s.is_char_boundary(cut)
        invariant
            cut <= limit < s.spec_bytes().len(),
            spec_boundary_at_most(s.spec_bytes(), limit as int) == spec_boundary_at_most(
                s.spec_bytes(),
                cut as int,
            ),
        decreases cut,
    {
        proof {
            if cut == 0 {
                vstd::utf8::encode_utf8_valid_utf8(s@);
                vstd::utf8::is_char_boundary_start_end_of_seq(s.spec_bytes());
            }
        }
        cut -= 1;
    }
    proof {
        assert(spec_boundary_at_most(s.spec_bytes(), cut as int) == cut as int);
    }
    let (head, _) = s.split_at(cut);
    head.to_owned()
}

/// Joins two path components with a single separator.
pub fn path_join(a: &str, b: &str) -> (r: String)
    ensures
        r@ == a@ + "/"@ + b@,
{
    let mut s = a.to_owned();
    s.append("/");
    s.append(b);
    s
}

} // verus!
