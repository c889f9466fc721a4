//! Whole-text operations of `str`: replacing every occurrence of a
//! pattern, splitting into lines and joining lines.

use vstd::prelude::*;
use crate::text::{chars_of, occurs_at, occurs_at_exec, string_of};
use crate::version::{split_char, split_spec};

verus! {

/// `s[i..]` with every non-overlapping occurrence of `p` (taken from the
/// left) replaced by `r` (`str::replace`).
pub open spec fn replace_from(s: Seq<char>, p: Seq<char>, r: Seq<char>, i: int) -> Seq<char>
    decreases s.len() - i,
{
    if i < 0 || i >= s.len() {
        Seq::empty()
    } else if p.len() > 0 && occurs_at(s, p, i) {
        r + replace_from(s, p, r, i + p.len())
    } else {
        seq![s[i]] + replace_from(s, p, r, i + 1)
    }
}

/// `s` with every non-overlapping occurrence of `p` replaced by `r`.
pub open spec fn replace_spec(s: Seq<char>, p: Seq<char>, r: Seq<char>) -> Seq<char> {
    replace_from(s, p, r, 0)
}

/// Replaces every occurrence of a non-empty `p` in `s` by `r`.
pub fn replace_chars(s: &Vec<char>, p: &Vec<char>, r: &Vec<char>) -> (out: Vec<char>)
    requires
        p@.len() > 0,
    ensures
        out@ == replace_spec(s@, p@, r@),
{
    let mut out: Vec<char> = Vec::new();
    let mut i: usize = 0;
    while i < s.len()
        invariant
            i <= s@.len(),
            p@.len() > 0,
            out@ + replace_from(s@, p@, r@, i as int) == replace_spec(s@, p@, r@),
        decreases s.len() - i,
    {
        let ghost before = out@;
        if occurs_at_exec(s, p, i) {
            let mut k: usize = 0;
            while k < r.len()
                invariant
                    k <= r@.len(),
                    out@ == before + r@.take(k as int),
                decreases r.len() - k,
            {
                out.push(r[k]);
                proof {
                    assert(r@.take(k + 1) =~= r@.take(k as int).push(r@[k as int]));
                }
                k = k + 1;
            }
            proof {
                assert(r@.take(r@.len() as int) =~= r@);
                assert(out@ + replace_from(s@, p@, r@, i + p@.len()) =~= before + replace_from(
                    s@,
                    p@,
                    r@,
                    i as int,
                ));
            }
            i = i + p.len();
        } else {
            out.push(s[i]);
            proof {
                assert(out@ + replace_from(s@, p@, r@, i + 1) =~= before + replace_from(
                    s@,
                    p@,
                    r@,
                    i as int,
                ));
            }
            i = i + 1;
        }
    }
    proof {
        assert(out@ + replace_from(s@, p@, r@, i as int) =~= out@);
    }
    out
}

/// `str::replace` on strings, for a non-empty pattern.
pub fn replace_str(s: &str, p: &str, r: &str) -> (out: String)
    requires
        p@.len() > 0,
    ensures
        out@ == replace_spec(s@, p@, r@),
{
    let sv = chars_of(s);
    let pv = chars_of(p);
    let rv = chars_of(r);
    let o = replace_chars(&sv, &pv, &rv);
    string_of(&o)
}

/// The lines of `s` as `str::lines` yields them: split at `\n`, a final
/// empty piece dropped, and a `\r` before a `\n` removed.
pub open spec fn lines_spec(s: Seq<char>) -> Seq<Seq<char>> {
    let parts = split_spec(s, '\n');
    let body = if parts.last().len() == 0 {
        parts.drop_last()
    } else {
        parts
    };
    Seq::new(
        body.len(),
        |i: int|
            if i < parts.len() - 1 && body[i].len() > 0 && body[i].last() == '\r' {
                body[i].drop_last()
            } else {
                body[i]
            },
    )
}

/// `items` joined by `sep`.
pub open spec fn join_spec(items: Seq<Seq<char>>, sep: Seq<char>) -> Seq<char>
    decreases items.len(),
{
    if items.len() == 0 {
        Seq::empty()
    } else if items.len() == 1 {
        items[0]
    } else {
        join_spec(items.drop_last(), sep) + sep + items.last()
    }
}

proof fn lemma_split_nonempty(s: Seq<char>, c: char)
    ensures
        split_spec(s, c).len() >= 1,
    decreases s.len(),
{
    if s.len() > 0 {
        lemma_split_nonempty(s.drop_last(), c);
    }
}

/// Splits `s` into lines (`str::lines`).
pub fn split_lines(s: &Vec<char>) -> (r: Vec<Vec<char>>)
    ensures
        r@.map_values(|l: Vec<char>| l@) == lines_spec(s@),
{
    let parts = split_char(s, '\n');
    let ghost pv = parts@.map_values(|l: Vec<char>| l@);
    proof {
        lemma_split_nonempty(s@, '\n');
    }
    let n = parts.len();
    let body_len = if parts[n - 1].len() == 0 {
        n - 1
    } else {
        n
    };
    let mut r: Vec<Vec<char>> = Vec::new();
    let mut i: usize = 0;
    while i < body_len
        invariant
            i <= body_len,
            n == parts@.len(),
            n >= 1,
            body_len == if pv.last().len() == 0 {
                n - 1
            } else {
                n as int
            },
            pv == parts@.map_values(|l: Vec<char>| l@),
            pv == split_spec(s@, '\n'),
            r@.map_values(|l: Vec<char>| l@) == lines_spec(s@).take(i as int),
        decreases body_len - i,
    {
        let piece = &parts[i];
        let k = piece.len();
        let ghost lv = lines_spec(s@);
        if i < n - 1 && k > 0 && piece[k - 1] == '\r' {
            let mut line: Vec<char> = Vec::new();
            let mut j: usize = 0;
            while j < k - 1
                invariant
                    j <= k - 1,
                    k == piece@.len(),
                    line@ == piece@.take(j as int),
                decreases k - 1 - j,
            {
                line.push(piece[j]);
                proof {
                    assert(piece@.take(j + 1) =~= piece@.take(j as int).push(piece@[j as int]));
                }
                j = j + 1;
            }
            proof {
                assert(line@ =~= piece@.drop_last());
            }
            proof {
                assert(pv[i as int] == piece@);
                let body = if pv.last().len() == 0 {
                    pv.drop_last()
                } else {
                    pv
                };
                assert(body[i as int] == piece@);
                assert(lv.len() == body_len);
                assert(lv[i as int] == line@);
            }
            let ghost before = r@.map_values(|l: Vec<char>| l@);
            r.push(line);
            proof {
                assert(r@.map_values(|l: Vec<char>| l@) =~= before.push(lv[i as int]));
                assert(lv.take(i + 1) =~= lv.take(i as int).push(lv[i as int]));
            }
        } else {
            let mut line: Vec<char> = Vec::new();
            let mut j: usize = 0;
            while j < k
                invariant
                    j <= k,
                    k == piece@.len(),
                    line@ == piece@.take(j as int),
                decreases k - j,
            {
                line.push(piece[j]);
                proof {
                    assert(piece@.take(j + 1) =~= piece@.take(j as int).push(piece@[j as int]));
                }
                j = j + 1;
            }
            proof {
                assert(line@ =~= piece@);
                assert(pv[i as int] == piece@);
                let body = if pv.last().len() == 0 {
                    pv.drop_last()
                } else {
                    pv
                };
                assert(body[i as int] == piece@);
                assert(lv.len() == body_len);
                assert(lv[i as int] == line@);
            }
            let ghost before = r@.map_values(|l: Vec<char>| l@);
            r.push(line);
            proof {
                assert(r@.map_values(|l: Vec<char>| l@) =~= before.push(lv[i as int]));
                assert(lv.take(i + 1) =~= lv.take(i as int).push(lv[i as int]));
            }
        }
        i = i + 1;
    }
    proof {
        assert(lines_spec(s@).take(body_len as int) =~= lines_spec(s@));
    }
    r
}

/// Joins character lines with `sep`.
pub fn join_chars(items: &Vec<Vec<char>>, sep: &Vec<char>) -> (out: Vec<char>)
    ensures
        out@ == join_spec(items@.map_values(|l: Vec<char>| l@), sep@),
{
    let ghost iv = items@.map_values(|l: Vec<char>| l@);
    let mut out: Vec<char> = Vec::new();
    let mut i: usize = 0;
    proof {
        assert(iv.take(0) =~= Seq::<Seq<char>>::empty());
    }
    while i < items.len()
        invariant
            i <= items@.len(),
            iv == items@.map_values(|l: Vec<char>| l@),
            out@ == join_spec(iv.take(i as int), sep@),
        decreases items.len() - i,
    {
        let ghost before = out@;
        if i > 0 {
            let mut k: usize = 0;
            while k < sep.len()
                invariant
                    k <= sep@.len(),
                    out@ == before + sep@.take(k as int),
                decreases sep.len() - k,
            {
                out.push(sep[k]);
                proof {
                    assert(sep@.take(k + 1) =~= sep@.take(k as int).push(sep@[k as int]));
                }
                k = k + 1;
            }
            proof {
                assert(sep@.take(sep@.len() as int) =~= sep@);
            }
        }
        let ghost mid = out@;
        let item = &items[i];
        let mut k: usize = 0;
        while k < item.len()
            invariant
                k <= item@.len(),
                out@ == mid + item@.take(k as int),
            decreases item.len() - k,
        {
            out.push(item[k]);
            proof {
                assert(item@.take(k + 1) =~= item@.take(k as int).push(item@[k as int]));
            }
            k = k + 1;
        }
        proof {
            assert(item@.take(item@.len() as int) =~= item@);
            assert(iv.take(i + 1).drop_last() =~= iv.take(i as int));
            assert(iv[i as int] == item@);
            if i == 0 {
                assert(out@ =~= join_spec(iv.take(i + 1), sep@));
            } else {
                assert(out@ =~= join_spec(iv.take(i + 1), sep@));
            }
        }
        i = i + 1;
    }
    proof {
        assert(iv.take(items.len() as int) =~= iv);
    }
    out
}

} // verus!
