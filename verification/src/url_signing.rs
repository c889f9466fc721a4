//! Re-signing the backend URLs embedded in a downloaded Markdown file: which
//! URLs to exchange, and the file rewritten with the signed ones. The
//! exchange itself, a network call under a time budget, is the caller's.

use vstd::prelude::*;
use vstd::string::StrSliceExecFns;
use vstd::utf8::{encode_utf8, valid_utf8};
use crate::md_links::{
    dest_spans, extract_inline_dest_spans, lemma_dest_spans_fit, rebuild_from,
    rebuild_with_replacements, spans_fit, spans_view,
};
use crate::text::{push_str, str_eq, trim_char_end_spec};
use crate::upload_target::trim_end_slashes;

verus! {

/// Decodes bytes with `std::str::from_utf8`, which succeeds exactly on
/// valid UTF-8 and then holds the text those bytes encode.
#[verifier::external_body]
fn utf8_text(bytes: &[u8]) -> (r: Option<String>)
    ensures
        r is Some <==> valid_utf8(bytes@),
        r matches Some(s) ==> encode_utf8(s@) == bytes@,
{
    std::str::from_utf8(bytes).ok().map(|s| s.to_string())
}

/// The prefix of the backend's file URLs: the base URL without trailing
/// slashes, then `/api/f/`.
pub open spec fn url_prefix_spec(base_url: Seq<char>) -> Seq<char> {
    trim_char_end_spec(base_url, '/') + "/api/f/"@
}

/// The prefix of the backend's file URLs.
pub fn embedded_url_prefix(base_url: &str) -> (r: String)
    ensures
        r@ == url_prefix_spec(base_url@),
{
    let b = String::from_str(base_url);
    let mut r = trim_end_slashes(&b);
    push_str(&mut r, "/api/f/");
    r
}

/// The destinations of some spans.
pub open spec fn dests_of(spans: Seq<(Seq<char>, int, int)>) -> Seq<Seq<char>> {
    spans.map_values(|x: (Seq<char>, int, int)| x.0)
}

fn contains_text(v: &Vec<String>, s: &str) -> (b: bool)
    ensures
        b == v.deep_view().contains(s@),
{
    let mut i: usize = 0;
    while i < v.len()
        invariant
            i <= v@.len(),
            forall|j: int| 0 <= j < i ==> v.deep_view()[j] != s@,
        decreases v.len() - i,
    {
        if str_eq(v[i].as_str(), s) {
            proof {
                assert(v.deep_view()[i as int] == s@);
            }
            return true;
        }
        i = i + 1;
    }
    false
}

/// Each destination of the spans once, in order of first appearance.
pub fn unique_dests(spans: &Vec<(String, usize, usize)>) -> (r: Vec<String>)
    ensures
        r.deep_view().no_duplicates(),
        forall|d: Seq<char>|
            r.deep_view().contains(d) <==> dests_of(spans_view(spans@)).contains(d),
{
    let ghost ds = dests_of(spans_view(spans@));
    let mut r: Vec<String> = Vec::new();
    let mut i: usize = 0;
    while i < spans.len()
        invariant
            i <= spans@.len(),
            ds == dests_of(spans_view(spans@)),
            r.deep_view().no_duplicates(),
            forall|d: Seq<char>| r.deep_view().contains(d) <==> ds.take(i as int).contains(d),
        decreases spans.len() - i,
    {
        let ghost before = r.deep_view();
        proof {
            assert(ds.take(i + 1) =~= ds.take(i as int).push(ds[i as int]));
            assert(ds[i as int] == spans@[i as int].0@);
        }
        if !contains_text(&r, spans[i].0.as_str()) {
            r.push(spans[i].0.clone());
            proof {
                assert(r.deep_view() =~= before.push(spans@[i as int].0@));
                assert forall|a: int, b: int|
                    0 <= a < b < r.deep_view().len() implies r.deep_view()[a] != r.deep_view()[b] by {
                    if b == before.len() {
                        assert(before.contains(before[a]));
                    }
                }
            }
        }
        proof {
            let t0 = ds.take(i as int);
            let t1 = ds.take(i + 1);
            let after = r.deep_view();
            assert(t1 =~= t0.push(ds[i as int]));
            assert forall|d: Seq<char>| after.contains(d) <==> t1.contains(d) by {
                if t1.contains(d) {
                    let j = choose|j: int| 0 <= j < t1.len() && t1[j] == d;
                    if j < i {
                        assert(t0[j] == d);
                        assert(before.contains(d));
                        let k = choose|k: int| 0 <= k < before.len() && before[k] == d;
                        assert(after[k] == d);
                    } else {
                        assert(d == spans@[i as int].0@);
                        if before.contains(d) {
                            let k = choose|k: int| 0 <= k < before.len() && before[k] == d;
                            assert(after[k] == d);
                        } else {
                            assert(after[before.len() as int] == d);
                        }
                    }
                }
                if after.contains(d) {
                    let k = choose|k: int| 0 <= k < after.len() && after[k] == d;
                    if k < before.len() {
                        assert(before[k] == d);
                        assert(before.contains(d));
                        assert(t0.contains(d));
                        let j = choose|j: int| 0 <= j < t0.len() && t0[j] == d;
                        assert(t1[j] == d);
                    } else {
                        assert(t1[i as int] == d);
                    }
                }
            }
        }
        i = i + 1;
    }
    proof {
        assert(ds.take(spans@.len() as int) =~= ds);
    }
    r
}

/// What a downloaded file needs re-signed: its text, the spans of the
/// backend URLs in it and those URLs once each. `None` when the file is
/// not UTF-8 text or holds no such URL: the file is then served as it is.
pub fn sign_targets(content: &[u8], base_url: &str) -> (r: Option<
    (String, Vec<(String, usize, usize)>, Vec<String>),
>)
    ensures
        match r {
            Some((text, spans, unique)) => {
                &&& valid_utf8(content@)
                &&& encode_utf8(text@) == content@
                &&& spans_view(spans@) == dest_spans(text@, url_prefix_spec(base_url@))
                &&& spans@.len() > 0
                &&& unique.deep_view().no_duplicates()
                &&& forall|d: Seq<char>|
                    unique.deep_view().contains(d) <==> dests_of(spans_view(spans@)).contains(d)
            },
            None => !valid_utf8(content@) || (exists|t: Seq<char>|
                encode_utf8(t) == content@ && dest_spans(t, url_prefix_spec(base_url@)).len()
                    == 0),
        },
{
    let text = match utf8_text(content) {
        Some(t) => t,
        None => {
            return None;
        },
    };
    let prefix = embedded_url_prefix(base_url);
    let spans = extract_inline_dest_spans(text.as_str(), prefix.as_str());
    if spans.len() == 0 {
        return None;
    }
    let unique = unique_dests(&spans);
    Some((text, spans, unique))
}

/// The exchanges that succeeded, in order.
pub open spec fn signed_pairs(results: Seq<Option<(Seq<char>, Seq<char>)>>) -> Seq<
    (Seq<char>, Seq<char>),
>
    decreases results.len(),
{
    if results.len() == 0 {
        Seq::empty()
    } else {
        let p = signed_pairs(results.drop_last());
        match results.last() {
            Some(x) => p.push(x),
            None => p,
        }
    }
}

/// View of the exchange outcomes.
pub open spec fn outcomes_view(v: Seq<Option<(String, String)>>) -> Seq<
    Option<(Seq<char>, Seq<char>)>,
> {
    v.map_values(
        |o: Option<(String, String)>|
            match o {
                Some(p) => Some((p.0@, p.1@)),
                None => None,
            },
    )
}

/// The file to serve once the exchanges are done (`(url, signed url)` for
/// each success, `None` for each failure): the original bytes when none
/// succeeded, else the text with every span whose URL was signed replaced.
pub fn apply_signed_urls(
    content: Vec<u8>,
    text: &str,
    spans: &Vec<(String, usize, usize)>,
    results: &Vec<Option<(String, String)>>,
) -> (r: Vec<u8>)
    requires
        spans_fit(encode_utf8(text@), spans_view(spans@)),
    ensures
        r@ == if signed_pairs(outcomes_view(results@)).len() == 0 {
            content@
        } else {
            rebuild_from(
                encode_utf8(text@),
                spans_view(spans@),
                signed_pairs(outcomes_view(results@)),
                0,
                0,
            )
        },
{
    let ghost ov = outcomes_view(results@);
    let mut signed: Vec<(String, String)> = Vec::new();
    let mut i: usize = 0;
    proof {
        assert(ov.take(0) =~= Seq::<Option<(Seq<char>, Seq<char>)>>::empty());
        assert(signed@.map_values(|p: (String, String)| (p.0@, p.1@)) =~= Seq::<
            (Seq<char>, Seq<char>),
        >::empty());
    }
    while i < results.len()
        invariant
            i <= results@.len(),
            ov == outcomes_view(results@),
            signed@.map_values(|p: (String, String)| (p.0@, p.1@)) == signed_pairs(
                ov.take(i as int),
            ),
        decreases results.len() - i,
    {
        proof {
            assert(ov.take(i + 1).drop_last() =~= ov.take(i as int));
        }
        match &results[i] {
            Some(p) => {
                let ghost before = signed@.map_values(|q: (String, String)| (q.0@, q.1@));
                signed.push((p.0.clone(), p.1.clone()));
                proof {
                    assert(signed@.map_values(|q: (String, String)| (q.0@, q.1@)) =~= before.push(
                        (p.0@, p.1@),
                    ));
                }
            },
            None => {},
        }
        i = i + 1;
    }
    proof {
        assert(ov.take(results@.len() as int) =~= ov);
    }
    if signed.len() == 0 {
        return content;
    }
    let out = rebuild_with_replacements(text, spans, &signed);
    out.as_str().as_bytes_vec()
}

} // verus!
