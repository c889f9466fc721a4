//! Version strings of Python, uv, MinerU and MarkItDown: parsing,
//! comparison and compatibility verdicts.

use vstd::prelude::*;
use crate::text::{
    chars_of, contains_spec, is_ws, is_ws_spec, occurs_at_exec, slice_chars, starts_with_spec,
};

verus! {

/// Whether `c` is an ASCII decimal digit.
pub open spec fn is_digit(c: char) -> bool {
    '0' <= c && c <= '9'
}

/// Value of a string of decimal digits.
pub open spec fn digits_value(s: Seq<char>) -> nat
    decreases s.len(),
{
    if s.len() == 0 {
        0
    } else {
        digits_value(s.drop_last()) * 10 + ((s.last() as u32) - ('0' as u32)) as nat
    }
}

/// The digits of an unsigned number after its optional `+`.
pub open spec fn unsigned_digits(s: Seq<char>) -> Seq<char> {
    if s.len() > 0 && s[0] == '+' {
        s.drop_first()
    } else {
        s
    }
}

/// Value of a non-empty digit string that fits in `u32`.
pub open spec fn digits_u32_spec(d: Seq<char>) -> Option<u32> {
    if d.len() > 0 && (forall|i: int| 0 <= i < d.len() ==> is_digit(#[trigger] d[i]))
        && digits_value(d) <= u32::MAX {
        Some(digits_value(d) as u32)
    } else {
        None
    }
}

/// What `str::parse::<u32>` accepts: an optional `+`, then one or more
/// decimal digits whose value fits in `u32`.
pub open spec fn parse_u32_spec(s: Seq<char>) -> Option<u32> {
    digits_u32_spec(unsigned_digits(s))
}

/// Pieces of `s` between occurrences of `c` (`str::split(c)`).
pub open spec fn split_spec(s: Seq<char>, c: char) -> Seq<Seq<char>>
    decreases s.len(),
{
    if s.len() == 0 {
        seq![Seq::empty()]
    } else {
        let r = split_spec(s.drop_last(), c);
        if s.last() == c {
            r.push(Seq::empty())
        } else {
            r.update(r.len() - 1, r.last().push(s.last()))
        }
    }
}

/// Non-empty runs of non-white-space characters (`str::split_whitespace`).
pub open spec fn words_spec(s: Seq<char>) -> Seq<Seq<char>>
    decreases s.len(),
{
    if s.len() == 0 {
        Seq::empty()
    } else {
        let r = words_spec(s.drop_last());
        if is_ws_spec(s.last()) {
            r
        } else if s.len() >= 2 && !is_ws_spec(s[s.len() - 2]) && r.len() > 0 {
            r.update(r.len() - 1, r.last().push(s.last()))
        } else {
            r.push(seq![s.last()])
        }
    }
}

/// `(major, minor, patch)` of a dotted version: at least two pieces, the
/// first two must parse, a third that does not parse counts as 0.
pub open spec fn version_tuple_spec(s: Seq<char>) -> Option<(u32, u32, u32)> {
    let parts = split_spec(s, '.');
    if parts.len() >= 2 {
        match (parse_u32_spec(parts[0]), parse_u32_spec(parts[1])) {
            (Some(major), Some(minor)) => {
                let patch = if parts.len() >= 3 {
                    match parse_u32_spec(parts[2]) {
                        Some(p) => p,
                        None => 0,
                    }
                } else {
                    0
                };
                Some((major, minor, patch))
            },
            _ => None,
        }
    } else {
        None
    }
}

/// Lexicographic order on version tuples.
pub open spec fn version_ge(a: (u32, u32, u32), b: (u32, u32, u32)) -> bool {
    a.0 > b.0 || (a.0 == b.0 && (a.1 > b.1 || (a.1 == b.1 && a.2 >= b.2)))
}

/// The uv version of `uv --version` output (`uv 0.4.15` or `0.4.15`).
pub open spec fn uv_version_spec(s: Seq<char>) -> Option<(u32, u32, u32)> {
    if starts_with_spec(s, "uv "@) {
        version_tuple_spec(s.subrange(3, s.len() as int))
    } else {
        version_tuple_spec(s)
    }
}

/// `(major, minor)` of `python --version` output (`Python 3.9.7`).
pub open spec fn python_version_spec(s: Seq<char>) -> Option<(u32, u32)> {
    let w = words_spec(s);
    if w.len() >= 2 {
        match version_tuple_spec(w[1]) {
            Some(t) => Some((t.0, t.1)),
            None => None,
        }
    } else {
        None
    }
}

/// Version strings that stand for "present, version unknown".
pub open spec fn is_placeholder_version(s: Seq<char>) -> bool {
    s == "available"@ || s == "latest"@ || s == "unknown"@
}

/// `current` satisfies `minimum`: placeholders and unparsable versions are
/// accepted, otherwise the tuples are compared.
pub open spec fn version_compatible_spec(current: Seq<char>, minimum: Seq<char>) -> bool {
    if is_placeholder_version(current) {
        true
    } else {
        match (version_tuple_spec(current), version_tuple_spec(minimum)) {
            (Some(c), Some(m)) => version_ge(c, m),
            _ => true,
        }
    }
}

/// Parses a `u32` as `str::parse::<u32>` does.
pub fn parse_u32(s: &Vec<char>) -> (r: Option<u32>)
    ensures
        r == parse_u32_spec(s@),
{
    let start: usize = if s.len() > 0 && s[0] == '+' {
        1
    } else {
        0
    };
    let ghost d = unsigned_digits(s@);
    proof {
        assert(d =~= s@.subrange(start as int, s.len() as int));
    }
    if start >= s.len() {
        return None;
    }
    let mut value: u64 = 0;
    let mut i = start;
    while i < s.len()
        invariant
            start <= i <= s.len(),
            d == s@.subrange(start as int, s.len() as int),
            d == unsigned_digits(s@),
            forall|j: int| start <= j < i ==> is_digit(#[trigger] s@[j]),
            value as nat == digits_value(s@.subrange(start as int, i as int)),
            value <= u32::MAX,
        decreases s.len() - i,
    {
        let c = s[i];
        if !('0' <= c && c <= '9') {
            proof {
                assert(d[i - start] == c);
                assert(!is_digit(d[(i - start) as int]));
                assert(!(forall|j: int| 0 <= j < d.len() ==> is_digit(#[trigger] d[j])));
            }
            return None;
        }
        let dv = (c as u32 - '0' as u32) as u64;
        proof {
            assert(s@.subrange(start as int, i + 1).drop_last() =~= s@.subrange(
                start as int,
                i as int,
            ));
        }
        if value > (u32::MAX as u64 - dv) / 10 {
            proof {
                assert(value * 10 + dv > u32::MAX) by (nonlinear_arith)
                    requires
                        value > (u32::MAX - dv) / 10,
                        dv <= 9,
                ;
                let pre = s@.subrange(start as int, i + 1);
                assert(pre.last() == c);
                assert(digits_value(pre) == digits_value(pre.drop_last()) * 10 + dv);
                if forall|j: int| 0 <= j < d.len() ==> is_digit(#[trigger] d[j]) {
                    lemma_digits_value_prefix_mono(d, (i + 1 - start) as int);
                    assert(pre =~= d.take(i + 1 - start));
                    assert(digits_value(d) > u32::MAX);
                }
            }
            return None;
        }
        value = value * 10 + dv;
        i = i + 1;
    }
    proof {
        assert(s@.subrange(start as int, s.len() as int) =~= d);
        assert forall|j: int| 0 <= j < d.len() implies is_digit(#[trigger] d[j]) by {
            assert(d[j] == s@[start + j]);
        }
    }
    Some(value as u32)
}

/// The value of a digit string grows with its prefixes.
pub proof fn lemma_digits_value_prefix_mono(d: Seq<char>, n: int)
    requires
        0 <= n <= d.len(),
        forall|i: int| 0 <= i < d.len() ==> is_digit(#[trigger] d[i]),
    ensures
        digits_value(d.take(n)) <= digits_value(d),
    decreases d.len(),
{
    if n < d.len() {
        assert(d.drop_last().take(n) =~= d.take(n));
        assert forall|i: int| 0 <= i < d.drop_last().len() implies is_digit(
            #[trigger] d.drop_last()[i],
        ) by {
            assert(d.drop_last()[i] == d[i]);
        }
        lemma_digits_value_prefix_mono(d.drop_last(), n);
    } else {
        assert(d.take(n) =~= d);
    }
}

/// Splits `s` at every `c` (`str::split(c)`).
pub fn split_char(s: &Vec<char>, c: char) -> (r: Vec<Vec<char>>)
    ensures
        r@.map_values(|p: Vec<char>| p@) == split_spec(s@, c),
{
    let mut r: Vec<Vec<char>> = Vec::new();
    r.push(Vec::new());
    let mut i: usize = 0;
    proof {
        assert(r@.map_values(|p: Vec<char>| p@) =~= split_spec(s@.take(0), c));
    }
    while i < s.len()
        invariant
            i <= s.len(),
            r@.len() >= 1,
            r@.map_values(|p: Vec<char>| p@) == split_spec(s@.take(i as int), c),
        decreases s.len() - i,
    {
        proof {
            assert(s@.take(i + 1).drop_last() =~= s@.take(i as int));
        }
        let ghost before = r@.map_values(|p: Vec<char>| p@);
        if s[i] == c {
            r.push(Vec::new());
            proof {
                assert(r@.map_values(|p: Vec<char>| p@) =~= before.push(Seq::empty()));
            }
        } else {
            let last = r.len() - 1;
            let mut piece = r.pop().unwrap();
            piece.push(s[i]);
            r.push(piece);
            proof {
                assert(r@.map_values(|p: Vec<char>| p@) =~= before.update(
                    before.len() - 1,
                    before.last().push(s@[i as int]),
                ));
            }
        }
        i = i + 1;
    }
    proof {
        assert(s@.take(s.len() as int) =~= s@);
    }
    r
}

/// Splits `s` into white-space separated words (`str::split_whitespace`).
pub fn split_words(s: &Vec<char>) -> (r: Vec<Vec<char>>)
    ensures
        r@.map_values(|p: Vec<char>| p@) == words_spec(s@),
{
    let mut r: Vec<Vec<char>> = Vec::new();
    let mut i: usize = 0;
    proof {
        assert(r@.map_values(|p: Vec<char>| p@) =~= words_spec(s@.take(0)));
    }
    while i < s.len()
        invariant
            i <= s.len(),
            r@.map_values(|p: Vec<char>| p@) == words_spec(s@.take(i as int)),
        decreases s.len() - i,
    {
        let t = Ghost(s@.take(i + 1));
        proof {
            assert(t@.drop_last() =~= s@.take(i as int));
            if i >= 1 {
                assert(t@[t@.len() - 2] == s@[i - 1]);
            }
        }
        let ghost before = r@.map_values(|p: Vec<char>| p@);
        if is_ws(s[i]) {
        } else if i >= 1 && !is_ws(s[i - 1]) && r.len() > 0 {
            let mut piece = r.pop().unwrap();
            piece.push(s[i]);
            r.push(piece);
            proof {
                assert(r@.map_values(|p: Vec<char>| p@) =~= before.update(
                    before.len() - 1,
                    before.last().push(s@[i as int]),
                ));
            }
        } else {
            let mut piece: Vec<char> = Vec::new();
            piece.push(s[i]);
            r.push(piece);
            proof {
                assert(r@.map_values(|p: Vec<char>| p@) =~= before.push(seq![s@[i as int]]));
            }
        }
        i = i + 1;
    }
    proof {
        assert(s@.take(s.len() as int) =~= s@);
    }
    r
}

/// Parses `major.minor[.patch]`.
pub fn parse_version_tuple(version_str: &Vec<char>) -> (r: Option<(u32, u32, u32)>)
    ensures
        r == version_tuple_spec(version_str@),
{
    let parts = split_char(version_str, '.');
    let ghost pv = parts@.map_values(|p: Vec<char>| p@);
    if parts.len() >= 2 {
        proof {
            assert(pv[0] == parts@[0]@);
            assert(pv[1] == parts@[1]@);
        }
        let major = match parse_u32(&parts[0]) {
            Some(m) => m,
            None => return None,
        };
        let minor = match parse_u32(&parts[1]) {
            Some(m) => m,
            None => return None,
        };
        let patch = if parts.len() >= 3 {
            proof {
                assert(pv[2] == parts@[2]@);
            }
            match parse_u32(&parts[2]) {
                Some(p) => p,
                None => 0,
            }
        } else {
            0
        };
        Some((major, minor, patch))
    } else {
        None
    }
}

/// Version tuple of `uv --version` output.
pub fn extract_uv_version(version_str: &str) -> (r: Option<(u32, u32, u32)>)
    ensures
        r == uv_version_spec(version_str@),
{
    let s = chars_of(version_str);
    let prefix = chars_of("uv ");
    proof {
        reveal_strlit("uv ");
    }
    if occurs_at_exec(&s, &prefix, 0) {
        let rest = slice_chars(&s, 3, s.len());
        parse_version_tuple(&rest)
    } else {
        parse_version_tuple(&s)
    }
}

/// `(major, minor)` of `python --version` output.
pub fn extract_python_version(version_str: &str) -> (r: Option<(u32, u32)>)
    ensures
        r == python_version_spec(version_str@),
{
    let s = chars_of(version_str);
    let words = split_words(&s);
    let ghost wv = words@.map_values(|p: Vec<char>| p@);
    if words.len() >= 2 {
        proof {
            assert(wv[1] == words@[1]@);
        }
        match parse_version_tuple(&words[1]) {
            Some(t) => Some((t.0, t.1)),
            None => None,
        }
    } else {
        None
    }
}

/// `a >= b` on version tuples.
pub fn version_at_least(a: (u32, u32, u32), b: (u32, u32, u32)) -> (r: bool)
    ensures
        r == version_ge(a, b),
{
    a.0 > b.0 || (a.0 == b.0 && (a.1 > b.1 || (a.1 == b.1 && a.2 >= b.2)))
}

/// Whether `current` satisfies `minimum`.
pub fn is_version_compatible(current: &str, minimum: &str) -> (r: bool)
    ensures
        r == version_compatible_spec(current@, minimum@),
{
    if crate::text::str_eq(current, "available") || crate::text::str_eq(current, "latest")
        || crate::text::str_eq(current, "unknown") {
        return true;
    }
    let c = chars_of(current);
    let m = chars_of(minimum);
    match (parse_version_tuple(&c), parse_version_tuple(&m)) {
        (Some(cv), Some(mv)) => version_at_least(cv, mv),
        _ => true,
    }
}

/// A version is at least itself.
pub proof fn lemma_version_compatible_reflexive(v: Seq<char>)
    ensures
        version_compatible_spec(v, v),
{
}

/// A version that satisfies a second one, which satisfies a third, satisfies
/// the third (for versions that parse).
pub proof fn lemma_version_ge_transitive(
    a: (u32, u32, u32),
    b: (u32, u32, u32),
    c: (u32, u32, u32),
)
    requires
        version_ge(a, b),
        version_ge(b, c),
    ensures
        version_ge(a, c),
{
}

/// Of two version tuples one is at least the other.
pub proof fn lemma_version_ge_total(a: (u32, u32, u32), b: (u32, u32, u32))
    ensures
        version_ge(a, b) || version_ge(b, a),
{
}

/// A version tuple as one number: major, minor and patch as digits in
/// base 2^32, so that numbers compare as versions should.
pub open spec fn version_weight(v: (u32, u32, u32)) -> int {
    (v.0 as int) * 0x1_0000_0000_0000_0000 + (v.1 as int) * 0x1_0000_0000 + (v.2 as int)
}

/// `version_at_least` compares all three parts, major first, then minor,
/// then patch: its verdict is that of the tuples read as numbers in base
/// 2^32. Two tuples that are each at least the other are equal, and with
/// the same major and minor the patch decides.
pub proof fn lemma_version_order_compares_every_part(a: (u32, u32, u32), b: (u32, u32, u32))
    ensures
        version_ge(a, b) <==> version_weight(a) >= version_weight(b),
        version_ge(a, b) && version_ge(b, a) ==> a == b,
        a.0 == b.0 && a.1 == b.1 ==> (version_ge(a, b) <==> a.2 >= b.2),
        a.0 == b.0 && a.1 < b.1 ==> !version_ge(a, b),
        a.0 < b.0 ==> !version_ge(a, b),
{
    assert(version_ge(a, b) <==> version_weight(a) >= version_weight(b)) by (nonlinear_arith);
}

/// For versions that parse, and a current version that is no placeholder,
/// compatibility is the comparison of the parsed tuples on every part.
pub proof fn lemma_compatibility_compares_every_part(current: Seq<char>, minimum: Seq<char>)
    requires
        !is_placeholder_version(current),
        version_tuple_spec(current) is Some,
        version_tuple_spec(minimum) is Some,
    ensures
        version_compatible_spec(current, minimum) <==> version_weight(
            version_tuple_spec(current)->0,
        ) >= version_weight(version_tuple_spec(minimum)->0),
{
    lemma_version_order_compares_every_part(
        version_tuple_spec(current)->0,
        version_tuple_spec(minimum)->0,
    );
}

} // verus!
