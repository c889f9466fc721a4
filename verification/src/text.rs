//! Character-sequence helpers shared by the rest of the library.
//!
//! Every helper states its behaviour over `Seq<char>`, the view of `str` and
//! `String`, so the contracts of the rest of the crate read as plain sequence
//! mathematics.

use vstd::prelude::*;

verus! {

/// Unicode `White_Space` property (what `char::is_whitespace` and
/// `str::trim` use).
pub open spec fn is_ws_spec(c: char) -> bool {
    let u = c as u32;
    ||| 0x09 <= u <= 0x0D
    ||| u == 0x20
    ||| u == 0x85
    ||| u == 0xA0
    ||| u == 0x1680
    ||| 0x2000 <= u <= 0x200A
    ||| u == 0x2028
    ||| u == 0x2029
    ||| u == 0x202F
    ||| u == 0x205F
    ||| u == 0x3000
}

/// `s` with its leading white space removed.
pub open spec fn trim_start_spec(s: Seq<char>) -> Seq<char>
    decreases s.len(),
{
    if s.len() > 0 && is_ws_spec(s[0]) {
        trim_start_spec(s.drop_first())
    } else {
        s
    }
}

/// `s` with its trailing white space removed.
pub open spec fn trim_end_spec(s: Seq<char>) -> Seq<char>
    decreases s.len(),
{
    if s.len() > 0 && is_ws_spec(s.last()) {
        trim_end_spec(s.drop_last())
    } else {
        s
    }
}

/// `s` with white space removed at both ends.
pub open spec fn trim_spec(s: Seq<char>) -> Seq<char> {
    trim_end_spec(trim_start_spec(s))
}

/// `s` with every leading and trailing `c` removed.
pub open spec fn trim_char_spec(s: Seq<char>, c: char) -> Seq<char> {
    trim_char_end_spec(trim_char_start_spec(s, c), c)
}

pub open spec fn trim_char_start_spec(s: Seq<char>, c: char) -> Seq<char>
    decreases s.len(),
{
    if s.len() > 0 && s[0] == c {
        trim_char_start_spec(s.drop_first(), c)
    } else {
        s
    }
}

pub open spec fn trim_char_end_spec(s: Seq<char>, c: char) -> Seq<char>
    decreases s.len(),
{
    if s.len() > 0 && s.last() == c {
        trim_char_end_spec(s.drop_last(), c)
    } else {
        s
    }
}

/// `p` occurs in `s` starting at index `i`.
pub open spec fn occurs_at<T>(s: Seq<T>, p: Seq<T>, i: int) -> bool {
    0 <= i && i + p.len() <= s.len() && s.subrange(i, i + p.len()) == p
}

/// `p` occurs somewhere in `s` (`str::contains`).
pub open spec fn contains_spec<T>(s: Seq<T>, p: Seq<T>) -> bool {
    exists|i: int| occurs_at(s, p, i)
}

/// `s` begins with `p`.
pub open spec fn starts_with_spec<T>(s: Seq<T>, p: Seq<T>) -> bool {
    occurs_at(s, p, 0)
}

/// `s` ends with `p`.
pub open spec fn ends_with_spec<T>(s: Seq<T>, p: Seq<T>) -> bool {
    p.len() <= s.len() && occurs_at(s, p, s.len() - p.len())
}

/// The character of a decimal digit.
pub open spec fn digit_char(d: nat) -> char {
    if d == 0 { '0' }
    else if d == 1 { '1' }
    else if d == 2 { '2' }
    else if d == 3 { '3' }
    else if d == 4 { '4' }
    else if d == 5 { '5' }
    else if d == 6 { '6' }
    else if d == 7 { '7' }
    else if d == 8 { '8' }
    else { '9' }
}

/// Decimal rendering of a natural number (what `Display` prints for an
/// unsigned integer).
pub open spec fn decimal(n: nat) -> Seq<char>
    decreases n,
{
    if n < 10 {
        seq![digit_char(n)]
    } else {
        decimal(n / 10).push(digit_char(n % 10))
    }
}

/// Tests `char::is_whitespace`.
pub fn is_ws(c: char) -> (b: bool)
    ensures
        b == is_ws_spec(c),
{
    let u = c as u32;
    (0x09 <= u && u <= 0x0D) || u == 0x20 || u == 0x85 || u == 0xA0 || u == 0x1680 || (0x2000
        <= u && u <= 0x200A) || u == 0x2028 || u == 0x2029 || u == 0x202F || u == 0x205F || u
        == 0x3000
}

/// Copies the characters of `s` into a vector.
pub fn chars_of(s: &str) -> (v: Vec<char>)
    ensures
        v@ == s@,
{
    let mut v: Vec<char> = Vec::new();
    for c in it: s.chars()
        invariant
            v@ == it.seq().take(it.index()),
            it.seq() == s@,
    {
        v.push(c);
    }
    proof {
        assert(v@ =~= s@);
    }
    v
}

/// Appends one character to a `String` (`String::push`).
#[verifier::external_body]
pub(crate) fn push_char(s: &mut String, c: char)
    ensures
        final(s)@ == old(s)@.push(c),
{
    s.push(c);
}

/// Appends the characters of `v` to `out`.
pub fn push_chars(out: &mut String, v: &Vec<char>)
    ensures
        final(out)@ == old(out)@ + v@,
{
    let mut i: usize = 0;
    while i < v.len()
        invariant
            i <= v.len(),
            out@ == old(out)@ + v@.take(i as int),
        decreases v.len() - i,
    {
        push_char(out, v[i]);
        proof {
            assert(v@.take(i + 1) =~= v@.take(i as int).push(v@[i as int]));
        }
        i = i + 1;
    }
    proof {
        assert(v@.take(v.len() as int) =~= v@);
    }
}

/// Builds a `String` from characters.
pub fn string_of(v: &Vec<char>) -> (s: String)
    ensures
        s@ == v@,
{
    let mut s = String::new();
    push_chars(&mut s, v);
    proof {
        assert(s@ =~= v@);
    }
    s
}

/// Appends `t` to `out`.
pub fn push_str(out: &mut String, t: &str)
    ensures
        final(out)@ == old(out)@ + t@,
{
    let v = chars_of(t);
    push_chars(out, &v);
}

/// Whether `p` occurs in `s` starting at `i`.
pub fn occurs_at_exec(s: &Vec<char>, p: &Vec<char>, i: usize) -> (b: bool)
    ensures
        b == occurs_at(s@, p@, i as int),
{
    if i > s.len() || p.len() > s.len() - i {
        return false;
    }
    let mut k: usize = 0;
    while k < p.len()
        invariant
            k <= p.len(),
            i + p.len() <= s.len(),
            forall|j: int| 0 <= j < k ==> s@[i + j] == p@[j],
        decreases p.len() - k,
    {
        if s[i + k] != p[k] {
            proof {
                assert(s@.subrange(i as int, i + p.len())[k as int] != p@[k as int]);
            }
            return false;
        }
        k = k + 1;
    }
    proof {
        assert(s@.subrange(i as int, i + p.len()) =~= p@);
    }
    true
}

/// `str::contains` on character vectors.
pub fn contains_exec(s: &Vec<char>, p: &Vec<char>) -> (b: bool)
    ensures
        b == contains_spec(s@, p@),
{
    if p.len() > s.len() {
        return false;
    }
    if p.len() == 0 {
        proof {
            assert(s@.subrange(0, 0) =~= p@);
            assert(occurs_at(s@, p@, 0));
        }
        return true;
    }
    let mut i: usize = 0;
    while i <= s.len() - p.len()
        invariant
            1 <= p.len() <= s.len(),
            i <= s.len(),
            forall|j: int| 0 <= j < i ==> !occurs_at(s@, p@, j),
        decreases s.len() - i,
    {
        if occurs_at_exec(s, p, i) {
            return true;
        }
        i = i + 1;
    }
    false
}

/// `str::contains` on string slices.
pub fn str_contains(s: &str, p: &str) -> (b: bool)
    ensures
        b == contains_spec(s@, p@),
{
    let sv = chars_of(s);
    let pv = chars_of(p);
    contains_exec(&sv, &pv)
}

/// `str::starts_with` on string slices.
pub fn str_starts_with(s: &str, p: &str) -> (b: bool)
    ensures
        b == starts_with_spec(s@, p@),
{
    let sv = chars_of(s);
    let pv = chars_of(p);
    occurs_at_exec(&sv, &pv, 0)
}

/// `str::ends_with` on string slices.
pub fn str_ends_with(s: &str, p: &str) -> (b: bool)
    ensures
        b == ends_with_spec(s@, p@),
{
    let sv = chars_of(s);
    let pv = chars_of(p);
    if pv.len() > sv.len() {
        false
    } else {
        occurs_at_exec(&sv, &pv, sv.len() - pv.len())
    }
}

/// Whether two strings hold the same characters.
pub fn str_eq(a: &str, b: &str) -> (r: bool)
    ensures
        r == (a@ == b@),
{
    let av = chars_of(a);
    let bv = chars_of(b);
    if av.len() != bv.len() {
        return false;
    }
    let r = occurs_at_exec(&av, &bv, 0);
    proof {
        assert(av@ =~= av@.subrange(0, bv@.len() as int));
    }
    r
}

/// Index of the first character of `s` that is not white space.
pub fn trim_start_index(s: &Vec<char>) -> (i: usize)
    ensures
        i <= s.len(),
        trim_start_spec(s@) == s@.subrange(i as int, s.len() as int),
{
    let mut i: usize = 0;
    proof {
        assert(s@.subrange(0, s.len() as int) =~= s@);
    }
    while i < s.len() && is_ws(s[i])
        invariant
            i <= s.len(),
            trim_start_spec(s@) == trim_start_spec(s@.subrange(i as int, s.len() as int)),
        decreases s.len() - i,
    {
        proof {
            let t = s@.subrange(i as int, s.len() as int);
            assert(t.drop_first() =~= s@.subrange(i + 1, s.len() as int));
        }
        i = i + 1;
    }
    i
}

/// One past the index of the last character of `s[..end]` that is not
/// white space.
pub fn trim_end_index(s: &Vec<char>, start: usize) -> (e: usize)
    requires
        start <= s.len(),
    ensures
        start <= e <= s.len(),
        trim_end_spec(s@.subrange(start as int, s.len() as int)) == s@.subrange(
            start as int,
            e as int,
        ),
{
    let mut e: usize = s.len();
    while e > start && is_ws(s[e - 1])
        invariant
            start <= e <= s.len(),
            trim_end_spec(s@.subrange(start as int, s.len() as int)) == trim_end_spec(
                s@.subrange(start as int, e as int),
            ),
        decreases e,
    {
        proof {
            let t = s@.subrange(start as int, e as int);
            assert(t.drop_last() =~= s@.subrange(start as int, e - 1));
        }
        e = e - 1;
    }
    e
}

/// Copies `s[from..to]`.
pub fn slice_chars(s: &Vec<char>, from: usize, to: usize) -> (r: Vec<char>)
    requires
        from <= to <= s.len(),
    ensures
        r@ == s@.subrange(from as int, to as int),
{
    let mut r: Vec<char> = Vec::new();
    let mut i = from;
    while i < to
        invariant
            from <= i <= to <= s.len(),
            r@ == s@.subrange(from as int, i as int),
        decreases to - i,
    {
        r.push(s[i]);
        proof {
            assert(s@.subrange(from as int, i + 1) =~= s@.subrange(from as int, i as int).push(
                s@[i as int],
            ));
        }
        i = i + 1;
    }
    r
}

/// `str::trim`.
pub fn trim_chars(s: &Vec<char>) -> (r: Vec<char>)
    ensures
        r@ == trim_spec(s@),
{
    let a = trim_start_index(s);
    let b = trim_end_index(s, a);
    slice_chars(s, a, b)
}

/// `str::trim_start`.
pub fn trim_start_chars(s: &Vec<char>) -> (r: Vec<char>)
    ensures
        r@ == trim_start_spec(s@),
{
    let a = trim_start_index(s);
    slice_chars(s, a, s.len())
}

/// `str::trim_matches(c)` for a single character.
pub fn trim_char_chars(s: &Vec<char>, c: char) -> (r: Vec<char>)
    ensures
        r@ == trim_char_spec(s@, c),
{
    let mut a: usize = 0;
    proof {
        assert(s@.subrange(0, s.len() as int) =~= s@);
    }
    while a < s.len() && s[a] == c
        invariant
            a <= s.len(),
            trim_char_start_spec(s@, c) == trim_char_start_spec(
                s@.subrange(a as int, s.len() as int),
                c,
            ),
        decreases s.len() - a,
    {
        proof {
            let t = s@.subrange(a as int, s.len() as int);
            assert(t.drop_first() =~= s@.subrange(a + 1, s.len() as int));
        }
        a = a + 1;
    }
    proof {
        assert(s@.subrange(a as int, s.len() as int) =~= s@.subrange(a as int, s.len() as int));
    }
    let mut e: usize = s.len();
    while e > a && s[e - 1] == c
        invariant
            a <= e <= s.len(),
            trim_char_start_spec(s@, c) == s@.subrange(a as int, s.len() as int),
            trim_char_end_spec(s@.subrange(a as int, s.len() as int), c) == trim_char_end_spec(
                s@.subrange(a as int, e as int),
                c,
            ),
        decreases e,
    {
        proof {
            let t = s@.subrange(a as int, e as int);
            assert(t.drop_last() =~= s@.subrange(a as int, e - 1));
        }
        e = e - 1;
    }
    slice_chars(s, a, e)
}

/// Decimal rendering of an unsigned integer (`u64::to_string`).
pub fn decimal_chars(n: u64) -> (r: Vec<char>)
    ensures
        r@ == decimal(n as nat),
    decreases n,
{
    if n < 10 {
        let c = digit_exec(n);
        let mut r: Vec<char> = Vec::new();
        r.push(c);
        proof {
            assert(r@ =~= seq![digit_char(n as nat)]);
        }
        r
    } else {
        let mut r = decimal_chars(n / 10);
        r.push(digit_exec(n % 10));
        r
    }
}

fn digit_exec(d: u64) -> (c: char)
    requires
        d < 10,
    ensures
        c == digit_char(d as nat),
{
    if d == 0 { '0' }
    else if d == 1 { '1' }
    else if d == 2 { '2' }
    else if d == 3 { '3' }
    else if d == 4 { '4' }
    else if d == 5 { '5' }
    else if d == 6 { '6' }
    else if d == 7 { '7' }
    else if d == 8 { '8' }
    else { '9' }
}

/// Appends the decimal rendering of `n` to `out`.
pub fn push_decimal(out: &mut String, n: u64)
    ensures
        final(out)@ == old(out)@ + decimal(n as nat),
{
    let d = decimal_chars(n);
    push_chars(out, &d);
}

/// Decimal rendering of an integer, with a leading `-` when negative.
pub open spec fn signed_decimal(n: int) -> Seq<char> {
    if n < 0 {
        "-"@ + decimal((-n) as nat)
    } else {
        decimal(n as nat)
    }
}

/// Appends the decimal rendering of a signed `n` to `out`.
pub fn push_signed(out: &mut String, n: i64)
    ensures
        final(out)@ == old(out)@ + signed_decimal(n as int),
{
    if n < 0 {
        push_str(out, "-");
        let m: u64 = if n == i64::MIN {
            9223372036854775808u64
        } else {
            (-n) as u64
        };
        push_decimal(out, m);
        proof {
            assert(out@ =~= old(out)@ + signed_decimal(n as int));
        }
    } else {
        push_decimal(out, n as u64);
    }
}

} // verus!
