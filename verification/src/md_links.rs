//! Destinations of inline Markdown images and links: where each stands in
//! the text, and the text rebuilt with some of them replaced. Offsets are
//! byte offsets into the UTF-8 text.

use vstd::prelude::*;
use vstd::utf8::{
    encode_utf8, encode_utf8_valid_utf8, is_char_boundary, is_char_boundary_start_end_of_seq,
    valid_utf8, valid_utf8_split,
};
use pulldown_cmark::{Event, LinkType, Parser, Tag};
use crate::text::{push_str, starts_with_spec, str_eq, str_starts_with};
use crate::utf8_facts::{
    lemma_boundary_after_ascii, lemma_boundary_after_encoded, lemma_boundary_in_suffix,
    lemma_encode_concat,
};

verus! {

/// For each event that `pulldown_cmark` reports for a text, in order: for
/// the start of an image or a link, its destination, whether the link is
/// inline, and the byte range of the element in the text; nothing for
/// any other event.
pub uninterp spec fn link_events(text: Seq<char>) -> Seq<Option<(Seq<char>, bool, usize, usize)>>;

/// View of the reported events.
pub open spec fn link_events_view(v: Seq<Option<(String, bool, usize, usize)>>) -> Seq<
    Option<(Seq<char>, bool, usize, usize)>,
> {
    v.map_values(
        |o: Option<(String, bool, usize, usize)>|
            match o {
                Some(e) => Some((e.0@, e.1, e.2, e.3)),
                None => None,
            },
    )
}

/// Runs `pulldown_cmark::Parser` with offsets over the text and reports
/// each event, telling image and link starts from the rest.
#[verifier::external_body]
fn link_starts(text: &str) -> (r: Vec<Option<(String, bool, usize, usize)>>)
    ensures
        link_events_view(r@) == link_events(text@),
{
    Parser::new(text).into_offset_iter().map(|(event, range)| match event {
        Event::Start(Tag::Image { link_type, dest_url, .. }) =>
            Some((dest_url.to_string(), link_type == LinkType::Inline, range.start, range.end)),
        Event::Start(Tag::Link { link_type, dest_url, .. }) =>
            Some((dest_url.to_string(), link_type == LinkType::Inline, range.start, range.end)),
        _ => None,
    }).collect()
}

/// Whether the bytes at `i` begin `)` or a white-space character (the
/// UTF-8 encodings of the Unicode White_Space characters).
pub open spec fn ws_or_paren_at(b: Seq<u8>, i: int) -> bool {
    let n = b.len();
    let x = b[i];
    ||| x == 0x29
    ||| (0x09 <= x <= 0x0d)
    ||| x == 0x20
    ||| (x == 0xc2 && i + 1 < n && (b[i + 1] == 0x85 || b[i + 1] == 0xa0))
    ||| (x == 0xe1 && i + 2 < n && b[i + 1] == 0x9a && b[i + 2] == 0x80)
    ||| (x == 0xe2 && i + 2 < n && b[i + 1] == 0x80 && ((0x80 <= b[i + 2] <= 0x8a) || b[i + 2]
        == 0xa8 || b[i + 2] == 0xa9 || b[i + 2] == 0xaf))
    ||| (x == 0xe2 && i + 2 < n && b[i + 1] == 0x81 && b[i + 2] == 0x9f)
    ||| (x == 0xe3 && i + 2 < n && b[i + 1] == 0x80 && b[i + 2] == 0x80)
}

/// What may follow a destination written in place: the end of the
/// element, `)`, or white space before a title.
pub open spec fn href_end(span: Seq<u8>, after: int) -> bool {
    after >= span.len() || ws_or_paren_at(span, after)
}

/// `p` occurs in `s` at `i`.
pub open spec fn bytes_at(s: Seq<u8>, p: Seq<u8>, i: int) -> bool {
    0 <= i && i + p.len() <= s.len() && s.subrange(i, i + p.len()) == p
}

/// The last occurrence of `p` that ends at or before `e`, or -1.
pub open spec fn rfind_below(s: Seq<u8>, p: Seq<u8>, e: int) -> int
    decreases e,
{
    if e < p.len() || e < 0 {
        -1
    } else if bytes_at(s, p, e - p.len()) {
        e - p.len()
    } else if e == 0 {
        -1
    } else {
        rfind_below(s, p, e - 1)
    }
}

/// A found occurrence lies before the bound.
pub proof fn lemma_rfind_below(s: Seq<u8>, p: Seq<u8>, e: int)
    ensures
        rfind_below(s, p, e) >= 0 ==> rfind_below(s, p, e) + p.len() <= e && bytes_at(
            s,
            p,
            rfind_below(s, p, e),
        ),
    decreases e,
{
    if e < p.len() || e < 0 {
    } else if bytes_at(s, p, e - p.len()) {
    } else if e == 0 {
    } else {
        lemma_rfind_below(s, p, e - 1);
    }
}

/// Where the destination starts within the element: after the last
/// `](dest` before `e` that is followed by what may end a destination;
/// -1 when there is none. `needle` is `](` and the destination.
pub open spec fn locate(span: Seq<u8>, needle: Seq<u8>, e: int) -> int
    decreases e,
{
    if needle.len() < 2 || e <= 0 {
        -1
    } else {
        let pos = rfind_below(span, needle, e);
        if pos < 0 {
            -1
        } else if href_end(span, pos + needle.len()) {
            pos + 2
        } else {
            proof {
                lemma_rfind_below(span, needle, e);
            }
            locate(span, needle, pos)
        }
    }
}

/// The bytes of `](` followed by a destination.
pub open spec fn needle_of(dest: Seq<char>) -> Seq<u8> {
    seq![0x5du8, 0x28u8] + encode_utf8(dest)
}

/// The span (destination, start, end) that one event yields, if any.
pub open spec fn event_span(
    b: Seq<u8>,
    ev: (Seq<char>, bool, usize, usize),
    prefix: Seq<char>,
) -> Option<(Seq<char>, int, int)> {
    let dest = ev.0;
    let rs = ev.2 as int;
    let re = ev.3 as int;
    if !ev.1 || !starts_with_spec(dest, prefix) || !(rs <= re <= b.len()) {
        None
    } else {
        let span = b.subrange(rs, re);
        let l = locate(span, needle_of(dest), span.len() as int);
        if l < 0 {
            None
        } else {
            Some((dest, rs + l, rs + l + encode_utf8(dest).len()))
        }
    }
}

/// The span of an event that starts an image or a link, if any.
pub open spec fn opt_event_span(
    b: Seq<u8>,
    ev: Option<(Seq<char>, bool, usize, usize)>,
    prefix: Seq<char>,
) -> Option<(Seq<char>, int, int)> {
    match ev {
        Some(e) => event_span(b, e, prefix),
        None => None,
    }
}

/// The spans of the events, in event order.
pub open spec fn collected(
    b: Seq<u8>,
    evs: Seq<Option<(Seq<char>, bool, usize, usize)>>,
    prefix: Seq<char>,
) -> Seq<(Seq<char>, int, int)>
    decreases evs.len(),
{
    if evs.len() == 0 {
        Seq::empty()
    } else {
        let r = collected(b, evs.drop_last(), prefix);
        match opt_event_span(b, evs.last(), prefix) {
            Some(x) => r.push(x),
            None => r,
        }
    }
}

/// `x` inserted into `s` after every element that starts no later.
pub open spec fn insert_by_start(s: Seq<(Seq<char>, int, int)>, x: (Seq<char>, int, int)) -> Seq<
    (Seq<char>, int, int),
>
    decreases s.len(),
{
    if s.len() == 0 {
        seq![x]
    } else if s.last().1 <= x.1 {
        s.push(x)
    } else {
        insert_by_start(s.drop_last(), x).push(s.last())
    }
}

/// Stable sort by start.
pub open spec fn sort_by_start(s: Seq<(Seq<char>, int, int)>) -> Seq<(Seq<char>, int, int)>
    decreases s.len(),
{
    if s.len() == 0 {
        Seq::empty()
    } else {
        insert_by_start(sort_by_start(s.drop_last()), s.last())
    }
}

/// The spans that do not overlap an earlier kept one, scanning from the
/// left; `last_end` is where the last kept span ended.
pub open spec fn drop_overlaps(s: Seq<(Seq<char>, int, int)>, last_end: int) -> Seq<
    (Seq<char>, int, int),
>
    decreases s.len(),
{
    if s.len() == 0 {
        Seq::empty()
    } else if s[0].1 >= last_end {
        seq![s[0]] + drop_overlaps(s.drop_first(), s[0].2)
    } else {
        drop_overlaps(s.drop_first(), last_end)
    }
}

/// The destination spans of the inline images and links whose destination
/// starts with `prefix`, by position, without overlaps.
pub open spec fn dest_spans(text: Seq<char>, prefix: Seq<char>) -> Seq<(Seq<char>, int, int)> {
    drop_overlaps(sort_by_start(collected(encode_utf8(text), link_events(text), prefix)), 0)
}

/// A span that covers exactly the encoding of its destination, between
/// character starts.
pub open spec fn good_span(b: Seq<u8>, x: (Seq<char>, int, int)) -> bool {
    &&& 0 <= x.1 <= x.2 <= b.len()
    &&& x.2 == x.1 + encode_utf8(x.0).len()
    &&& b.subrange(x.1, x.2) == encode_utf8(x.0)
    &&& is_char_boundary(b, x.1)
    &&& is_char_boundary(b, x.2)
}

/// Spans in order of position, none overlapping the next.
pub open spec fn ordered_spans(s: Seq<(Seq<char>, int, int)>) -> bool {
    forall|i: int, j: int| 0 <= i < j < s.len() ==> #[trigger] s[i].2 <= #[trigger] s[j].1
}


/// A located destination starts two bytes after an occurrence of the
/// needle, and lies before the bound.
pub proof fn lemma_locate(span: Seq<u8>, needle: Seq<u8>, e: int)
    ensures
        locate(span, needle, e) >= 0 ==> {
            let l = locate(span, needle, e);
            &&& l >= 2
            &&& bytes_at(span, needle, l - 2)
            &&& l - 2 + needle.len() <= e
        },
    decreases e,
{
    if needle.len() < 2 || e <= 0 {
    } else {
        let pos = rfind_below(span, needle, e);
        lemma_rfind_below(span, needle, e);
        if pos >= 0 && !href_end(span, pos + needle.len()) {
            lemma_locate(span, needle, pos);
        }
    }
}

/// Every span an event yields covers exactly its destination, between
/// character starts.
pub proof fn lemma_event_span_good(
    b: Seq<u8>,
    ev: (Seq<char>, bool, usize, usize),
    prefix: Seq<char>,
)
    requires
        valid_utf8(b),
        event_span(b, ev, prefix) is Some,
    ensures
        good_span(b, event_span(b, ev, prefix)->0),
{
    let dest = ev.0;
    let rs = ev.2 as int;
    let re = ev.3 as int;
    let span = b.subrange(rs, re);
    let needle = needle_of(dest);
    lemma_locate(span, needle, span.len() as int);
    let l = locate(span, needle, span.len() as int);
    let pos = l - 2;
    let n = encode_utf8(dest).len();
    assert(span.subrange(pos, pos + needle.len()) == needle);
    assert(needle[0] == 0x5du8 && needle[1] == 0x28u8);
    assert(span[pos + 1] == needle[1]);
    assert(b[rs + pos + 1] == span[pos + 1]);
    lemma_boundary_after_ascii(b, rs + l);
    assert(needle.subrange(2, needle.len() as int) =~= encode_utf8(dest));
    assert(b.subrange(rs + l, rs + l + n) =~= span.subrange(pos, pos + needle.len()).subrange(
        2,
        needle.len() as int,
    ));
    lemma_boundary_after_encoded(b, rs + l, dest);
}

/// View of a list of spans.
pub open spec fn spans_view(v: Seq<(String, usize, usize)>) -> Seq<(Seq<char>, int, int)> {
    v.map_values(|e: (String, usize, usize)| (e.0@, e.1 as int, e.2 as int))
}

fn bytes_at_exec(s: &Vec<u8>, p: &Vec<u8>, i: usize) -> (r: bool)
    ensures
        r == bytes_at(s@, p@, i as int),
{
    let sl = s.len();
    if i > sl || p.len() > sl - i {
        return false;
    }
    let mut k: usize = 0;
    while k < p.len()
        invariant
            k <= p@.len(),
            sl == s@.len(),
            i + p@.len() <= s@.len(),
            forall|j: int| 0 <= j < k ==> s@[i + j] == p@[j],
        decreases p.len() - k,
    {
        if s[i + k] != p[k] {
            proof {
                assert(s@.subrange(i as int, i + p@.len())[k as int] != p@[k as int]);
            }
            return false;
        }
        k = k + 1;
    }
    proof {
        assert(s@.subrange(i as int, i + p@.len()) =~= p@);
    }
    true
}

fn rfind_below_exec(s: &Vec<u8>, p: &Vec<u8>, e: usize) -> (r: Option<usize>)
    requires
        e <= s@.len(),
    ensures
        match r {
            Some(i) => i as int == rfind_below(s@, p@, e as int),
            None => rfind_below(s@, p@, e as int) == -1,
        },
{
    let mut k = e;
    while k >= p.len()
        invariant
            k <= e,
            e <= s@.len(),
            rfind_below(s@, p@, e as int) == rfind_below(s@, p@, k as int),
        decreases k,
    {
        if bytes_at_exec(s, p, k - p.len()) {
            return Some(k - p.len());
        }
        if k == 0 {
            return None;
        }
        k = k - 1;
    }
    None
}

fn ws_or_paren_exec(b: &Vec<u8>, i: usize) -> (r: bool)
    requires
        i < b@.len(),
    ensures
        r == ws_or_paren_at(b@, i as int),
{
    let n = b.len();
    let x = b[i];
    if x == 0x29 || (0x09 <= x && x <= 0x0d) || x == 0x20 {
        return true;
    }
    if x == 0xc2 && n - i > 1 {
        let y = b[i + 1];
        return y == 0x85 || y == 0xa0;
    }
    if n - i > 2 {
        let y = b[i + 1];
        let z = b[i + 2];
        if x == 0xe1 {
            return y == 0x9a && z == 0x80;
        }
        if x == 0xe2 {
            return (y == 0x80 && ((0x80 <= z && z <= 0x8a) || z == 0xa8 || z == 0xa9 || z == 0xaf))
                || (y == 0x81 && z == 0x9f);
        }
        if x == 0xe3 {
            return y == 0x80 && z == 0x80;
        }
    }
    false
}

fn locate_exec(span: &Vec<u8>, needle: &Vec<u8>) -> (r: Option<usize>)
    requires
        needle@.len() >= 2,
    ensures
        match r {
            Some(l) => l as int == locate(span@, needle@, span@.len() as int),
            None => locate(span@, needle@, span@.len() as int) == -1,
        },
{
    let mut e = span.len();
    while e > 0
        invariant
            e <= span@.len(),
            needle@.len() >= 2,
            locate(span@, needle@, span@.len() as int) == locate(span@, needle@, e as int),
        decreases e,
    {
        proof {
            lemma_rfind_below(span@, needle@, e as int);
        }
        match rfind_below_exec(span, needle, e) {
            None => {
                return None;
            },
            Some(pos) => {
                let after = pos + needle.len();
                let ok = after >= span.len() || ws_or_paren_exec(span, after);
                if ok {
                    return Some(pos + 2);
                }
                e = pos;
            },
        }
    }
    None
}

fn copy_range(b: &[u8], from: usize, to: usize) -> (r: Vec<u8>)
    requires
        from <= to <= b@.len(),
    ensures
        r@ == b@.subrange(from as int, to as int),
{
    let mut r: Vec<u8> = Vec::new();
    let mut i = from;
    while i < to
        invariant
            from <= i <= to,
            to <= b@.len(),
            r@ == b@.subrange(from as int, i as int),
        decreases to - i,
    {
        r.push(b[i]);
        proof {
            assert(b@.subrange(from as int, i + 1) =~= b@.subrange(from as int, i as int).push(
                b@[i as int],
            ));
        }
        i = i + 1;
    }
    r
}

fn needle_for(dest: &str) -> (n: Vec<u8>)
    ensures
        n@ == needle_of(dest@),
{
    let mut n: Vec<u8> = Vec::new();
    n.push(0x5d);
    n.push(0x28);
    let d = dest.as_bytes();
    let mut i: usize = 0;
    let ghost head = n@;
    while i < d.len()
        invariant
            i <= d@.len(),
            head == seq![0x5du8, 0x28u8],
            n@ == head + d@.take(i as int),
        decreases d.len() - i,
    {
        n.push(d[i]);
        proof {
            assert(d@.take(i + 1) =~= d@.take(i as int).push(d@[i as int]));
        }
        i = i + 1;
    }
    proof {
        assert(d@.take(d@.len() as int) =~= d@);
    }
    n
}

/// Inserting at the first place from the right whose predecessor starts
/// no later.
pub proof fn lemma_insert_split(s: Seq<(Seq<char>, int, int)>, x: (Seq<char>, int, int), k: int)
    requires
        0 <= k <= s.len(),
        forall|j: int| k <= j < s.len() ==> #[trigger] s[j].1 > x.1,
        k == 0 || s[k - 1].1 <= x.1,
    ensures
        insert_by_start(s, x) == s.take(k).push(x) + s.skip(k),
    decreases s.len(),
{
    if s.len() == 0 {
        assert(s.take(k).push(x) + s.skip(k) =~= seq![x]);
    } else if s.last().1 <= x.1 {
        assert(k == s.len());
        assert(s.take(k).push(x) + s.skip(k) =~= s.push(x));
    } else {
        let p = s.drop_last();
        lemma_insert_split(p, x, k);
        assert(insert_by_start(s, x) =~= s.take(k).push(x) + s.skip(k));
    }
}

/// What survives the overlap filter are spans of the input, in order,
/// starting at or after the bound.
pub proof fn lemma_drop_overlaps(s: Seq<(Seq<char>, int, int)>, last_end: int)
    requires
        forall|i: int| 0 <= i < s.len() ==> #[trigger] s[i].1 <= s[i].2,
    ensures
        ordered_spans(drop_overlaps(s, last_end)),
        forall|i: int|
            0 <= i < drop_overlaps(s, last_end).len() ==> #[trigger] drop_overlaps(s, last_end)[i].1
                >= last_end,
        forall|i: int|
            0 <= i < drop_overlaps(s, last_end).len() ==> s.contains(
                #[trigger] drop_overlaps(s, last_end)[i],
            ),
    decreases s.len(),
{
    if s.len() > 0 {
        let t = s.drop_first();
        assert forall|i: int| 0 <= i < t.len() implies #[trigger] t[i].1 <= t[i].2 by {
            assert(t[i] == s[i + 1]);
        }
        if s[0].1 >= last_end {
            lemma_drop_overlaps(t, s[0].2);
            let r = drop_overlaps(t, s[0].2);
            let whole = seq![s[0]] + r;
            assert(drop_overlaps(s, last_end) == whole);
            assert forall|i: int, j: int| 0 <= i < j < whole.len() implies #[trigger] whole[i].2
                <= #[trigger] whole[j].1 by {
                if i == 0 {
                    assert(whole[j] == r[j - 1]);
                } else {
                    assert(whole[i] == r[i - 1] && whole[j] == r[j - 1]);
                }
            }
            assert forall|i: int| 0 <= i < whole.len() implies s.contains(#[trigger] whole[i]) by {
                if i == 0 {
                    assert(s[0] == whole[0]);
                } else {
                    assert(whole[i] == r[i - 1]);
                    let k = choose|k: int| 0 <= k < t.len() && t[k] == r[i - 1];
                    assert(s[k + 1] == t[k]);
                }
            }
            assert forall|i: int| 0 <= i < whole.len() implies #[trigger] whole[i].1 >= last_end by {
                if i > 0 {
                    assert(whole[i] == r[i - 1]);
                }
            }
        } else {
            lemma_drop_overlaps(t, last_end);
            let r = drop_overlaps(t, last_end);
            assert forall|i: int| 0 <= i < r.len() implies s.contains(#[trigger] r[i]) by {
                let k = choose|k: int| 0 <= k < t.len() && t[k] == r[i];
                assert(s[k + 1] == t[k]);
            }
        }
    }
}

/// The byte offsets of the destinations of the inline images and links
/// whose destination starts with `base_prefix`, as `(destination, start,
/// end)`, ordered by position and never overlapping. Destinations inside
/// code are not links; reference links are skipped, their destination
/// standing elsewhere.
pub fn extract_inline_dest_spans(content: &str, base_prefix: &str) -> (r: Vec<(String, usize, usize)>)
    ensures
        spans_view(r@) == dest_spans(content@, base_prefix@),
        ordered_spans(spans_view(r@)),
        forall|i: int|
            0 <= i < r@.len() ==> good_span(encode_utf8(content@), #[trigger] spans_view(r@)[i]),
{
    let evs = link_starts(content);
    let ghost ev = link_events_view(evs@);
    let b = content.as_bytes();
    let ghost bv = b@;
    proof {
        encode_utf8_valid_utf8(content@);
        assert(bv == encode_utf8(content@));
    }
    let mut col: Vec<(String, usize, usize)> = Vec::new();
    let mut i: usize = 0;
    proof {
        assert(ev.take(0) =~= Seq::<Option<(Seq<char>, bool, usize, usize)>>::empty());
        assert(spans_view(col@) =~= Seq::<(Seq<char>, int, int)>::empty());
    }
    while i < evs.len()
        invariant
            i <= evs@.len(),
            ev == link_events_view(evs@),
            ev == link_events(content@),
            bv == b@,
            bv == encode_utf8(content@),
            valid_utf8(bv),
            spans_view(col@) == collected(bv, ev.take(i as int), base_prefix@),
            forall|j: int| 0 <= j < col@.len() ==> good_span(bv, #[trigger] spans_view(col@)[j]),
        decreases evs.len() - i,
    {
        proof {
            assert(ev.take(i + 1).drop_last() =~= ev.take(i as int));
            assert(ev.take(i + 1).last() == ev[i as int]);
        }
        match &evs[i] {
            Some(e) => {
                let ghost cur = ev[i as int]->0;
                let dest = e.0.as_str();
                let rs = e.2;
                let re = e.3;
                if e.1 && str_starts_with(dest, base_prefix) && rs <= re && re <= b.len() {
                    let span = copy_range(b, rs, re);
                    let needle = needle_for(dest);
                    proof {
                        lemma_locate(span@, needle@, span@.len() as int);
                    }
                    match locate_exec(&span, &needle) {
                        Some(l) => {
                            let dl = dest.len();
                            proof {
                                assert(event_span(bv, cur, base_prefix@) == Some(
                                    (dest@, rs + l, rs + l + encode_utf8(dest@).len()),
                                ));
                                lemma_event_span_good(bv, cur, base_prefix@);
                            }
                            let ghost before = spans_view(col@);
                            col.push((e.0.clone(), rs + l, rs + l + dl));
                            proof {
                                assert(spans_view(col@) =~= before.push(
                                    (dest@, rs + l, rs + l + encode_utf8(dest@).len()),
                                ));
                            }
                        },
                        None => {},
                    }
                }
            },
            None => {},
        }
        i = i + 1;
    }
    proof {
        assert(ev.take(evs@.len() as int) =~= ev);
    }
    let ghost cv = spans_view(col@);
    let mut sorted: Vec<(String, usize, usize)> = Vec::new();
    let mut i: usize = 0;
    proof {
        assert(cv.take(0) =~= Seq::<(Seq<char>, int, int)>::empty());
        assert(spans_view(sorted@) =~= Seq::<(Seq<char>, int, int)>::empty());
    }
    while i < col.len()
        invariant
            i <= col@.len(),
            cv == spans_view(col@),
            forall|j: int| 0 <= j < col@.len() ==> good_span(bv, #[trigger] cv[j]),
            spans_view(sorted@) == sort_by_start(cv.take(i as int)),
            forall|j: int| 0 <= j < sorted@.len() ==> good_span(bv, #[trigger] spans_view(sorted@)[j]),
        decreases col.len() - i,
    {
        let x = &col[i];
        let ghost xv = cv[i as int];
        let ghost sv = spans_view(sorted@);
        proof {
            assert(xv.1 == x.1 as int);
        }
        let mut k = sorted.len();
        while k > 0 && sorted[k - 1].1 > x.1
            invariant
                k <= sorted@.len(),
                sv == spans_view(sorted@),
                xv == cv[i as int],
                i < col@.len(),
                cv == spans_view(col@),
                forall|j: int| k <= j < sv.len() ==> #[trigger] sv[j].1 > xv.1,
                xv.1 == x.1 as int,
            decreases k,
        {
            k = k - 1;
            proof {
                assert(sv[k as int].1 == sorted@[k as int].1 as int);
            }
        }
        proof {
            lemma_insert_split(sv, xv, k as int);
            assert(cv.take(i + 1).drop_last() =~= cv.take(i as int));
            assert(cv.take(i + 1).last() == xv);
        }
        sorted.insert(k, (x.0.clone(), x.1, x.2));
        proof {
            assert(spans_view(sorted@) =~= sv.take(k as int).push(xv) + sv.skip(k as int));
            assert forall|j: int| 0 <= j < sorted@.len() implies good_span(
                bv,
                #[trigger] spans_view(sorted@)[j],
            ) by {
                if j < k {
                    assert(spans_view(sorted@)[j] == sv[j]);
                } else if j > k {
                    assert(spans_view(sorted@)[j] == sv[j - 1]);
                }
            }
        }
        i = i + 1;
    }
    proof {
        assert(cv.take(col@.len() as int) =~= cv);
    }
    let ghost sv = spans_view(sorted@);
    let mut out: Vec<(String, usize, usize)> = Vec::new();
    let mut last_end: usize = 0;
    let mut i: usize = 0;
    proof {
        assert(sv.skip(0) =~= sv);
        assert(spans_view(out@) =~= Seq::<(Seq<char>, int, int)>::empty());
    }
    while i < sorted.len()
        invariant
            i <= sorted@.len(),
            sv == spans_view(sorted@),
            spans_view(out@) + drop_overlaps(sv.skip(i as int), last_end as int) == drop_overlaps(
                sv,
                0,
            ),
        decreases sorted.len() - i,
    {
        let x = &sorted[i];
        proof {
            assert(sv.skip(i as int).drop_first() =~= sv.skip(i + 1));
            assert(sv.skip(i as int)[0] == sv[i as int]);
        }
        if x.1 >= last_end {
            let ghost before = spans_view(out@);
            let ghost old_end = last_end as int;
            out.push((x.0.clone(), x.1, x.2));
            last_end = x.2;
            proof {
                assert(spans_view(out@) =~= before.push(sv[i as int]));
                assert(drop_overlaps(sv.skip(i as int), old_end) == seq![sv[i as int]]
                    + drop_overlaps(sv.skip(i + 1), last_end as int));
                assert(spans_view(out@) + drop_overlaps(sv.skip(i + 1), last_end as int) =~= before
                    + drop_overlaps(sv.skip(i as int), old_end));
            }
        }
        i = i + 1;
    }
    proof {
        assert(sv.skip(sorted@.len() as int) =~= Seq::<(Seq<char>, int, int)>::empty());
        assert(spans_view(out@) =~= drop_overlaps(sv, 0));
        assert forall|j: int| 0 <= j < sv.len() implies #[trigger] sv[j].1 <= sv[j].2 by {
            assert(good_span(bv, sv[j]));
        }
        lemma_drop_overlaps(sv, 0);
        assert forall|j: int| 0 <= j < out@.len() implies good_span(
            encode_utf8(content@),
            #[trigger] spans_view(out@)[j],
        ) by {
            assert(sv.contains(spans_view(out@)[j]));
            let k = choose|k: int| 0 <= k < sv.len() && sv[k] == spans_view(out@)[j];
            assert(good_span(bv, sv[k]));
        }
    }
    out
}

/// The replacement of the first pair whose key matches.
pub open spec fn lookup(signed: Seq<(Seq<char>, Seq<char>)>, key: Seq<char>) -> Option<Seq<char>>
    decreases signed.len(),
{
    if signed.len() == 0 {
        None
    } else if signed[0].0 == key {
        Some(signed[0].1)
    } else {
        lookup(signed.drop_first(), key)
    }
}

/// What a span becomes: the encoding of its replacement, or itself.
pub open spec fn replacement(
    b: Seq<u8>,
    x: (Seq<char>, int, int),
    signed: Seq<(Seq<char>, Seq<char>)>,
) -> Seq<u8> {
    match lookup(signed, x.0) {
        Some(r) => encode_utf8(r),
        None => b.subrange(x.1, x.2),
    }
}

/// The text from `prev` on, with spans `k..` replaced.
pub open spec fn rebuild_from(
    b: Seq<u8>,
    spans: Seq<(Seq<char>, int, int)>,
    signed: Seq<(Seq<char>, Seq<char>)>,
    k: int,
    prev: int,
) -> Seq<u8>
    decreases spans.len() - k,
{
    if k < 0 || k >= spans.len() {
        b.subrange(prev, b.len() as int)
    } else {
        b.subrange(prev, spans[k].1) + replacement(b, spans[k], signed) + rebuild_from(
            b,
            spans,
            signed,
            k + 1,
            spans[k].2,
        )
    }
}

/// Spans that lie in the text, between character starts, in order.
pub open spec fn spans_fit(b: Seq<u8>, spans: Seq<(Seq<char>, int, int)>) -> bool {
    &&& ordered_spans(spans)
    &&& forall|i: int|
        0 <= i < spans.len() ==> {
            &&& 0 <= #[trigger] spans[i].1 <= spans[i].2 <= b.len()
            &&& is_char_boundary(b, spans[i].1)
            &&& is_char_boundary(b, spans[i].2)
        }
}

/// View of the replacement pairs.
pub open spec fn pairs_view(v: Seq<(String, String)>) -> Seq<(Seq<char>, Seq<char>)> {
    v.map_values(|p: (String, String)| (p.0@, p.1@))
}

fn push_slice(out: &mut String, content: &str, from: usize, to: usize)
    requires
        valid_utf8(encode_utf8(content@)),
        is_char_boundary(encode_utf8(content@), from as int),
        is_char_boundary(encode_utf8(content@), to as int),
        from <= to <= encode_utf8(content@).len(),
    ensures
        encode_utf8(final(out)@) == encode_utf8(old(out)@) + encode_utf8(content@).subrange(
            from as int,
            to as int,
        ),
{
    let ghost bv = encode_utf8(content@);
    proof {
        lemma_boundary_in_suffix(bv, from as int, to as int);
    }
    let (_, rest) = content.split_at(from);
    proof {
        assert(encode_utf8(rest@) == bv.subrange(from as int, bv.len() as int));
    }
    let (mid, _) = rest.split_at(to - from);
    proof {
        assert(encode_utf8(mid@) =~= bv.subrange(from as int, to as int));
        lemma_encode_concat(out@, mid@);
    }
    push_str(out, mid);
}

fn find_replacement(signed: &Vec<(String, String)>, key: &str) -> (r: Option<usize>)
    ensures
        match r {
            Some(i) => i < signed@.len() && lookup(pairs_view(signed@), key@) == Some(
                signed@[i as int].1@,
            ),
            None => lookup(pairs_view(signed@), key@) is None,
        },
{
    let ghost pv = pairs_view(signed@);
    let mut i: usize = 0;
    proof {
        assert(pv.skip(0) =~= pv);
    }
    while i < signed.len()
        invariant
            i <= signed@.len(),
            pv == pairs_view(signed@),
            lookup(pv, key@) == lookup(pv.skip(i as int), key@),
        decreases signed.len() - i,
    {
        proof {
            assert(pv.skip(i as int).drop_first() =~= pv.skip(i + 1));
            assert(pv.skip(i as int)[0] == pv[i as int]);
        }
        if str_eq(signed[i].0.as_str(), key) {
            return Some(i);
        }
        i = i + 1;
    }
    None
}

/// The text with each span replaced by the replacement paired with its
/// destination (the first pair with that key), and left as it is when
/// there is none.
pub fn rebuild_with_replacements(
    content: &str,
    spans: &Vec<(String, usize, usize)>,
    signed: &Vec<(String, String)>,
) -> (out: String)
    requires
        spans_fit(encode_utf8(content@), spans_view(spans@)),
    ensures
        encode_utf8(out@) == rebuild_from(
            encode_utf8(content@),
            spans_view(spans@),
            pairs_view(signed@),
            0,
            0,
        ),
{
    let ghost bv = encode_utf8(content@);
    let ghost sv = spans_view(spans@);
    let ghost pv = pairs_view(signed@);
    proof {
        encode_utf8_valid_utf8(content@);
        is_char_boundary_start_end_of_seq(bv);
    }
    let n = content.as_bytes().len();
    let mut out = String::new();
    let mut prev: usize = 0;
    let mut k: usize = 0;
    proof {
        assert(encode_utf8(out@) =~= Seq::<u8>::empty());
        assert(encode_utf8(out@) + rebuild_from(bv, sv, pv, 0, 0) =~= rebuild_from(bv, sv, pv, 0, 0));
    }
    while k < spans.len()
        invariant
            k <= spans@.len(),
            n == bv.len(),
            bv == encode_utf8(content@),
            valid_utf8(bv),
            sv == spans_view(spans@),
            pv == pairs_view(signed@),
            spans_fit(bv, sv),
            is_char_boundary(bv, prev as int),
            prev <= bv.len(),
            k < spans@.len() ==> prev <= sv[k as int].1,
            encode_utf8(out@) + rebuild_from(bv, sv, pv, k as int, prev as int) == rebuild_from(
                bv,
                sv,
                pv,
                0,
                0,
            ),
        decreases spans.len() - k,
    {
        let st = spans[k].1;
        let en = spans[k].2;
        let ghost x = sv[k as int];
        let ghost before = encode_utf8(out@);
        push_slice(&mut out, content, prev, st);
        let ghost mid = encode_utf8(out@);
        match find_replacement(signed, spans[k].0.as_str()) {
            Some(i) => {
                proof {
                    lemma_encode_concat(out@, signed@[i as int].1@);
                }
                push_str(&mut out, signed[i].1.as_str());
            },
            None => {
                push_slice(&mut out, content, st, en);
            },
        }
        proof {
            assert(encode_utf8(out@) == mid + replacement(bv, x, pv));
            assert(rebuild_from(bv, sv, pv, k as int, prev as int) == bv.subrange(prev as int, x.1)
                + replacement(bv, x, pv) + rebuild_from(bv, sv, pv, k + 1, x.2));
            assert(encode_utf8(out@) + rebuild_from(bv, sv, pv, k + 1, en as int) =~= before
                + rebuild_from(bv, sv, pv, k as int, prev as int));
            if k + 1 < spans@.len() {
                assert(sv[k as int].2 <= sv[k + 1].1);
            }
        }
        prev = en;
        k = k + 1;
    }
    let ghost before = encode_utf8(out@);
    push_slice(&mut out, content, prev, n);
    proof {
        assert(rebuild_from(bv, sv, pv, k as int, prev as int) == bv.subrange(
            prev as int,
            bv.len() as int,
        ));
    }
    out
}

/// With nothing to replace, the text comes back unchanged.
pub proof fn lemma_rebuild_identity(
    b: Seq<u8>,
    spans: Seq<(Seq<char>, int, int)>,
    k: int,
    prev: int,
)
    requires
        spans_fit(b, spans),
        0 <= k,
        0 <= prev <= b.len(),
        k < spans.len() ==> prev <= spans[k].1,
    ensures
        rebuild_from(b, spans, Seq::empty(), k, prev) == b.subrange(prev, b.len() as int),
    decreases spans.len() - k,
{
    if k < spans.len() {
        if k + 1 < spans.len() {
            assert(spans[k].2 <= spans[k + 1].1);
        }
        lemma_rebuild_identity(b, spans, k + 1, spans[k].2);
        assert(b.subrange(prev, spans[k].1) + b.subrange(spans[k].1, spans[k].2) + b.subrange(
            spans[k].2,
            b.len() as int,
        ) =~= b.subrange(prev, b.len() as int));
    }
}

/// Every collected span is good.
pub proof fn lemma_collected_good(
    b: Seq<u8>,
    evs: Seq<Option<(Seq<char>, bool, usize, usize)>>,
    prefix: Seq<char>,
)
    requires
        valid_utf8(b),
    ensures
        forall|i: int|
            0 <= i < collected(b, evs, prefix).len() ==> good_span(
                b,
                #[trigger] collected(b, evs, prefix)[i],
            ),
    decreases evs.len(),
{
    if evs.len() > 0 {
        lemma_collected_good(b, evs.drop_last(), prefix);
        let r = collected(b, evs.drop_last(), prefix);
        let c = collected(b, evs, prefix);
        if opt_event_span(b, evs.last(), prefix) is Some {
            lemma_event_span_good(b, evs.last()->0, prefix);
            assert(c == r.push(opt_event_span(b, evs.last(), prefix)->0));
            assert forall|i: int| 0 <= i < c.len() implies good_span(b, #[trigger] c[i]) by {
                if i < r.len() {
                    assert(c[i] == r[i]);
                }
            }
        } else {
            assert(c == r);
        }
    }
}

/// Inserting adds the element and keeps the others.
pub proof fn lemma_insert_members(s: Seq<(Seq<char>, int, int)>, x: (Seq<char>, int, int))
    ensures
        insert_by_start(s, x).len() == s.len() + 1,
        forall|i: int|
            0 <= i < insert_by_start(s, x).len() ==> #[trigger] insert_by_start(s, x)[i] == x
                || s.contains(insert_by_start(s, x)[i]),
    decreases s.len(),
{
    if s.len() > 0 && s.last().1 > x.1 {
        let p = s.drop_last();
        lemma_insert_members(p, x);
        let r = insert_by_start(s, x);
        assert forall|i: int| 0 <= i < r.len() implies #[trigger] r[i] == x || s.contains(r[i]) by {
            if i < r.len() - 1 {
                let y = insert_by_start(p, x)[i];
                assert(r[i] == y);
                if y != x {
                    let k = choose|k: int| 0 <= k < p.len() && p[k] == y;
                    assert(s[k] == p[k]);
                }
            } else {
                assert(s[s.len() - 1] == r[i]);
            }
        }
    } else if s.len() > 0 {
        let r = insert_by_start(s, x);
        assert forall|i: int| 0 <= i < r.len() implies #[trigger] r[i] == x || s.contains(r[i]) by {
            if i < s.len() {
                assert(s[i] == r[i]);
            }
        }
    }
}

/// Sorting keeps every element good.
pub proof fn lemma_sort_good(b: Seq<u8>, s: Seq<(Seq<char>, int, int)>)
    requires
        forall|i: int| 0 <= i < s.len() ==> good_span(b, #[trigger] s[i]),
    ensures
        forall|i: int|
            0 <= i < sort_by_start(s).len() ==> good_span(b, #[trigger] sort_by_start(s)[i]),
    decreases s.len(),
{
    if s.len() > 0 {
        let p = s.drop_last();
        assert forall|i: int| 0 <= i < p.len() implies good_span(b, #[trigger] p[i]) by {
            assert(p[i] == s[i]);
        }
        lemma_sort_good(b, p);
        let t = sort_by_start(p);
        lemma_insert_members(t, s.last());
        let r = sort_by_start(s);
        assert forall|i: int| 0 <= i < r.len() implies good_span(b, #[trigger] r[i]) by {
            if r[i] != s.last() {
                let k = choose|k: int| 0 <= k < t.len() && t[k] == r[i];
                assert(good_span(b, t[k]));
            } else {
                assert(good_span(b, s[s.len() - 1]));
            }
        }
    }
}

/// The spans found in a text are good and in order.
pub proof fn lemma_dest_spans_fit(text: Seq<char>, prefix: Seq<char>)
    ensures
        spans_fit(encode_utf8(text), dest_spans(text, prefix)),
        forall|i: int|
            0 <= i < dest_spans(text, prefix).len() ==> good_span(
                encode_utf8(text),
                #[trigger] dest_spans(text, prefix)[i],
            ),
{
    let b = encode_utf8(text);
    encode_utf8_valid_utf8(text);
    let c = collected(b, link_events(text), prefix);
    lemma_collected_good(b, link_events(text), prefix);
    lemma_sort_good(b, c);
    let sorted = sort_by_start(c);
    assert forall|j: int| 0 <= j < sorted.len() implies #[trigger] sorted[j].1 <= sorted[j].2 by {
        assert(good_span(b, sorted[j]));
    }
    lemma_drop_overlaps(sorted, 0);
    let d = dest_spans(text, prefix);
    assert forall|i: int| 0 <= i < d.len() implies good_span(b, #[trigger] d[i]) by {
        let k = choose|k: int| 0 <= k < sorted.len() && sorted[k] == d[i];
        assert(good_span(b, sorted[k]));
    }
}

/// Rebuilding the spans found in a text with no replacement gives the
/// text back.
pub proof fn lemma_extract_then_rebuild_identity(text: Seq<char>, prefix: Seq<char>)
    ensures
        rebuild_from(encode_utf8(text), dest_spans(text, prefix), Seq::empty(), 0, 0)
            == encode_utf8(text),
{
    let b = encode_utf8(text);
    lemma_dest_spans_fit(text, prefix);
    lemma_rebuild_identity(b, dest_spans(text, prefix), 0, 0);
    assert(b.subrange(0, b.len() as int) =~= b);
}

} // verus!
