//! Which files of a parse's output directory are its images, and the order
//! in which they are listed: paths under a directory named `images` with
//! an image extension, sorted component by component, each once.

use vstd::prelude::*;
use crate::formats::lowercase;
use crate::image_paths::{image_extensions, is_image_extension};
use crate::text::{chars_of, str_eq};

verus! {

/// Lexicographic order of sequences under an order of their elements: a
/// proper prefix comes first.
pub open spec fn lex_lt<T>(a: Seq<T>, b: Seq<T>, lt: spec_fn(T, T) -> bool) -> bool
    decreases a.len(),
{
    if a.len() == 0 {
        b.len() > 0
    } else if b.len() == 0 {
        false
    } else if a[0] != b[0] {
        lt(a[0], b[0])
    } else {
        lex_lt(a.drop_first(), b.drop_first(), lt)
    }
}

/// `lt` is a strict total order.
pub open spec fn strict_total<T>(lt: spec_fn(T, T) -> bool) -> bool {
    &&& forall|x: T| !#[trigger] lt(x, x)
    &&& forall|x: T, y: T, z: T| #[trigger] lt(x, y) && #[trigger] lt(y, z) ==> lt(x, z)
    &&& forall|x: T, y: T| x != y ==> #[trigger] lt(x, y) || #[trigger] lt(y, x)
}

proof fn lemma_lex_irreflexive<T>(a: Seq<T>, lt: spec_fn(T, T) -> bool)
    ensures
        !lex_lt(a, a, lt),
    decreases a.len(),
{
    if a.len() > 0 {
        lemma_lex_irreflexive(a.drop_first(), lt);
    }
}

proof fn lemma_lex_transitive<T>(a: Seq<T>, b: Seq<T>, c: Seq<T>, lt: spec_fn(T, T) -> bool)
    requires
        strict_total(lt),
        lex_lt(a, b, lt),
        lex_lt(b, c, lt),
    ensures
        lex_lt(a, c, lt),
    decreases a.len(),
{
    if a.len() > 0 {
        if a[0] == b[0] && b[0] == c[0] {
            lemma_lex_transitive(a.drop_first(), b.drop_first(), c.drop_first(), lt);
        } else if a[0] != b[0] && b[0] != c[0] {
            assert(lt(a[0], c[0]));
            assert(a[0] != c[0]);
        }
    }
}

proof fn lemma_lex_total<T>(a: Seq<T>, b: Seq<T>, lt: spec_fn(T, T) -> bool)
    requires
        strict_total(lt),
        a != b,
    ensures
        lex_lt(a, b, lt) || lex_lt(b, a, lt),
    decreases a.len(),
{
    if a.len() == 0 {
        if b.len() == 0 {
            assert(a =~= b);
        }
    } else if b.len() > 0 && a[0] == b[0] {
        if a.drop_first() == b.drop_first() {
            assert(a =~= seq![a[0]] + a.drop_first());
            assert(b =~= seq![b[0]] + b.drop_first());
        }
        lemma_lex_total(a.drop_first(), b.drop_first(), lt);
    }
}

/// The lexicographic order of sequences is a strict total order when that
/// of their elements is.
pub proof fn lemma_lex_strict_total<T>(lt: spec_fn(T, T) -> bool)
    requires
        strict_total(lt),
    ensures
        strict_total(|a: Seq<T>, b: Seq<T>| lex_lt(a, b, lt)),
{
    let l = |a: Seq<T>, b: Seq<T>| lex_lt(a, b, lt);
    assert forall|x: Seq<T>| !#[trigger] l(x, x) by {
        lemma_lex_irreflexive(x, lt);
    }
    assert forall|x: Seq<T>, y: Seq<T>, z: Seq<T>| #[trigger] l(x, y) && #[trigger] l(y, z) implies l(
        x,
        z,
    ) by {
        lemma_lex_transitive(x, y, z, lt);
    }
    assert forall|x: Seq<T>, y: Seq<T>| x != y implies #[trigger] l(x, y) || #[trigger] l(y, x) by {
        lemma_lex_total(x, y, lt);
    }
}

/// Characters by code point, which is how `str` and UTF-8 bytes compare.
pub open spec fn char_order() -> spec_fn(char, char) -> bool {
    |x: char, y: char| (x as u32) < (y as u32)
}

/// Texts in lexicographic order of their characters.
pub open spec fn text_order() -> spec_fn(Seq<char>, Seq<char>) -> bool {
    |a: Seq<char>, b: Seq<char>| lex_lt(a, b, char_order())
}

/// Paths, as sequences of components, compared component by component.
pub open spec fn path_order() -> spec_fn(Seq<Seq<char>>, Seq<Seq<char>>) -> bool {
    |a: Seq<Seq<char>>, b: Seq<Seq<char>>| lex_lt(a, b, text_order())
}

/// Both orders are strict total orders.
pub proof fn lemma_orders_strict_total()
    ensures
        strict_total(text_order()),
        strict_total(path_order()),
{
    assert(strict_total(char_order())) by {
        assert forall|x: char, y: char| x != y implies #[trigger] char_order()(x, y)
            || #[trigger] char_order()(y, x) by {
            if (x as u32) == (y as u32) {
                vstd::utf8::char_u32_cast(x, x as u32);
                vstd::utf8::char_u32_cast(y, y as u32);
            }
        }
    }
    lemma_lex_strict_total(char_order());
    assert(text_order() == (|a: Seq<char>, b: Seq<char>| lex_lt(a, b, char_order())));
    lemma_lex_strict_total(text_order());
}

/// Whether `a` comes before `b` in the order of [`text_order`].
pub fn text_lt(a: &str, b: &str) -> (r: bool)
    ensures
        r == text_order()(a@, b@),
{
    let av = chars_of(a);
    let bv = chars_of(b);
    let mut i: usize = 0;
    proof {
        assert(a@.skip(0) =~= a@);
        assert(b@.skip(0) =~= b@);
    }
    while i < av.len() && i < bv.len() && av[i] == bv[i]
        invariant
            i <= av@.len(),
            i <= bv@.len(),
            av@ == a@,
            bv@ == b@,
            lex_lt(a@, b@, char_order()) == lex_lt(a@.skip(i as int), b@.skip(i as int), char_order()),
        decreases av.len() - i,
    {
        proof {
            let sa = a@.skip(i as int);
            let sb = b@.skip(i as int);
            assert(sa[0] == sb[0]);
            assert(sa.drop_first() =~= a@.skip(i + 1));
            assert(sb.drop_first() =~= b@.skip(i + 1));
        }
        i = i + 1;
    }
    let sa = Ghost(a@.skip(i as int));
    let sb = Ghost(b@.skip(i as int));
    if i == av.len() {
        proof {
            assert(sa@.len() == 0);
        }
        i < bv.len()
    } else if i == bv.len() {
        false
    } else {
        proof {
            assert(sa@[0] == av@[i as int] && sb@[0] == bv@[i as int]);
        }
        (av[i] as u32) < (bv[i] as u32)
    }
}

/// The view of a path given by its components.
pub open spec fn comps_view(v: Seq<String>) -> Seq<Seq<char>> {
    v.map_values(|s: String| s@)
}

/// Whether `a` comes before `b` in the order of [`path_order`].
pub fn path_lt(a: &Vec<String>, b: &Vec<String>) -> (r: bool)
    ensures
        r == path_order()(comps_view(a@), comps_view(b@)),
{
    let ghost av = comps_view(a@);
    let ghost bv = comps_view(b@);
    let mut i: usize = 0;
    proof {
        assert(av.skip(0) =~= av);
        assert(bv.skip(0) =~= bv);
    }
    while i < a.len() && i < b.len() && str_eq(a[i].as_str(), b[i].as_str())
        invariant
            i <= a@.len(),
            i <= b@.len(),
            av == comps_view(a@),
            bv == comps_view(b@),
            lex_lt(av, bv, text_order()) == lex_lt(av.skip(i as int), bv.skip(i as int), text_order()),
        decreases a.len() - i,
    {
        proof {
            let sa = av.skip(i as int);
            let sb = bv.skip(i as int);
            assert(sa[0] == a@[i as int]@ && sb[0] == b@[i as int]@);
            assert(sa.drop_first() =~= av.skip(i + 1));
            assert(sb.drop_first() =~= bv.skip(i + 1));
        }
        i = i + 1;
    }
    let ghost sa = av.skip(i as int);
    let ghost sb = bv.skip(i as int);
    if i == a.len() {
        proof {
            assert(sa.len() == 0);
        }
        i < b.len()
    } else if i == b.len() {
        false
    } else {
        proof {
            assert(sa[0] == a@[i as int]@ && sb[0] == b@[i as int]@);
            assert(sa[0] != sb[0]);
        }
        text_lt(a[i].as_str(), b[i].as_str())
    }
}

/// Some directory on the way to the file is named `images`.
pub open spec fn in_images_dir(c: Seq<Seq<char>>) -> bool {
    exists|i: int| 0 <= i < c.len() - 1 && #[trigger] c[i] == "images"@
}

/// A file (its components below the output directory and the extension
/// `Path::extension` gives it) that is collected as an image.
pub open spec fn is_image_file(f: (Seq<Seq<char>>, Option<Seq<char>>)) -> bool {
    &&& in_images_dir(f.0)
    &&& f.1 matches Some(e) && image_extensions().contains(lowercase(e))
}

/// View of the files found.
pub open spec fn files_view(v: Seq<(Vec<String>, Option<String>)>) -> Seq<
    (Seq<Seq<char>>, Option<Seq<char>>),
> {
    v.map_values(
        |f: (Vec<String>, Option<String>)|
            (
                comps_view(f.0@),
                match f.1 {
                    Some(e) => Some(e@),
                    None => None,
                },
            ),
    )
}

/// View of a list of paths.
pub open spec fn paths_view(v: Seq<Vec<String>>) -> Seq<Seq<Seq<char>>> {
    v.map_values(|p: Vec<String>| comps_view(p@))
}

/// Each path comes before every later one.
pub open spec fn strictly_sorted(v: Seq<Seq<Seq<char>>>) -> bool {
    forall|i: int, j: int| 0 <= i < j < v.len() ==> path_order()(#[trigger] v[i], #[trigger] v[j])
}

fn in_images_exec(c: &Vec<String>) -> (b: bool)
    ensures
        b == in_images_dir(comps_view(c@)),
{
    let ghost cv = comps_view(c@);
    if c.len() == 0 {
        return false;
    }
    let mut i: usize = 0;
    while i < c.len() - 1
        invariant
            c@.len() > 0,
            i <= c@.len() - 1,
            cv == comps_view(c@),
            forall|j: int| 0 <= j < i ==> cv[j] != "images"@,
        decreases c.len() - 1 - i,
    {
        if str_eq(c[i].as_str(), "images") {
            assert(cv[i as int] == "images"@);
            return true;
        }
        i = i + 1;
    }
    false
}

fn copy_path(c: &Vec<String>) -> (r: Vec<String>)
    ensures
        comps_view(r@) == comps_view(c@),
{
    let mut r: Vec<String> = Vec::new();
    let mut i: usize = 0;
    while i < c.len()
        invariant
            i <= c@.len(),
            comps_view(r@) == comps_view(c@).take(i as int),
        decreases c.len() - i,
    {
        let ghost before = comps_view(r@);
        r.push(c[i].clone());
        proof {
            assert(comps_view(r@) =~= before.push(c@[i as int]@));
            assert(comps_view(c@).take(i + 1) =~= comps_view(c@).take(i as int).push(c@[i as int]@));
        }
        i = i + 1;
    }
    proof {
        assert(comps_view(c@).take(c@.len() as int) =~= comps_view(c@));
    }
    r
}

/// The images among the files found below an output directory, each given
/// by its components and its extension: the files under a directory named
/// `images` whose extension is an image extension, sorted component by
/// component, each once.
pub fn select_images(files: &Vec<(Vec<String>, Option<String>)>) -> (r: Vec<Vec<String>>)
    ensures
        strictly_sorted(paths_view(r@)),
        forall|c: Seq<Seq<char>>|
            paths_view(r@).contains(c) <==> exists|k: int|
                0 <= k < files@.len() && is_image_file(#[trigger] files_view(files@)[k])
                    && files_view(files@)[k].0 == c,
{
    proof {
        lemma_orders_strict_total();
    }
    let ghost fv = files_view(files@);
    let mut out: Vec<Vec<String>> = Vec::new();
    let mut i: usize = 0;
    while i < files.len()
        invariant
            i <= files@.len(),
            fv == files_view(files@),
            strict_total(path_order()),
            strictly_sorted(paths_view(out@)),
            forall|c: Seq<Seq<char>>|
                paths_view(out@).contains(c) <==> exists|k: int|
                    0 <= k < i && is_image_file(#[trigger] fv[k]) && fv[k].0 == c,
        decreases files.len() - i,
    {
        let ghost fi = fv[i as int];
        let keep = match &files[i].1 {
            Some(e) => in_images_exec(&files[i].0) && is_image_extension(e.as_str()),
            None => false,
        };
        let ghost before = paths_view(out@);
        if keep {
            let x = copy_path(&files[i].0);
            let ghost xv = comps_view(x@);
            let mut k: usize = 0;
            while k < out.len() && path_lt(&out[k], &x)
                invariant
                    k <= out@.len(),
                    before == paths_view(out@),
                    xv == comps_view(x@),
                    forall|j: int| 0 <= j < k ==> path_order()(#[trigger] before[j], xv),
                decreases out.len() - k,
            {
                k = k + 1;
            }
            let dup = k < out.len() && !path_lt(&x, &out[k]);
            if dup {
                proof {
                    assert(before[k as int] == xv);
                    assert(before.contains(xv));
                }
            } else {
                out.insert(k, x);
                proof {
                    let after = paths_view(out@);
                    assert(after =~= before.insert(k as int, xv));
                    assert forall|a: int, b: int| 0 <= a < b < after.len() implies path_order()(
                        #[trigger] after[a],
                        #[trigger] after[b],
                    ) by {
                        if b < k {
                            assert(after[a] == before[a] && after[b] == before[b]);
                        } else if b == k {
                            assert(after[a] == before[a]);
                        } else if a == k {
                            assert(after[b] == before[b - 1]);
                            if b - 1 > k {
                                assert(path_order()(before[k as int], before[b - 1]));
                            }
                        } else if a < k {
                            assert(after[a] == before[a] && after[b] == before[b - 1]);
                            assert(path_order()(before[a], xv));
                            assert(path_order()(xv, before[k as int]));
                            if b - 1 > k {
                                assert(path_order()(before[k as int], before[b - 1]));
                            }
                        } else {
                            assert(after[a] == before[a - 1] && after[b] == before[b - 1]);
                        }
                    }
                    assert forall|c: Seq<Seq<char>>| after.contains(c) <==> (before.contains(c)
                        || c == xv) by {
                        if after.contains(c) {
                            let j = choose|j: int| 0 <= j < after.len() && after[j] == c;
                            if j < k {
                                assert(before[j] == c);
                            } else if j > k {
                                assert(before[j - 1] == c);
                            }
                        }
                        if before.contains(c) {
                            let j = choose|j: int| 0 <= j < before.len() && before[j] == c;
                            if j < k {
                                assert(after[j] == c);
                            } else {
                                assert(after[j + 1] == c);
                            }
                        }
                        if c == xv {
                            assert(after[k as int] == c);
                        }
                    }
                }
            }
        }
        proof {
            assert(keep == is_image_file(fi));
            assert forall|c: Seq<Seq<char>>|
                paths_view(out@).contains(c) <==> exists|k: int|
                    0 <= k < i + 1 && is_image_file(#[trigger] fv[k]) && fv[k].0 == c by {
                if exists|k: int| 0 <= k < i + 1 && is_image_file(#[trigger] fv[k]) && fv[k].0 == c {
                    let k = choose|k: int| 0 <= k < i + 1 && is_image_file(#[trigger] fv[k]) && fv[k].0 == c;
                    if k < i {
                        assert(before.contains(c));
                    }
                }
                if paths_view(out@).contains(c) && !before.contains(c) {
                    assert(fv[i as int].0 == c);
                }
            }
        }
        i = i + 1;
    }
    out
}

} // verus!
