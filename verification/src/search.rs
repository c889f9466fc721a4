//! Full-text search over a document's sections: where a query first
//! occurs in a section (ignoring case), the section's title from the table
//! of contents, and the text around the hit. Ranking the hits by relevance
//! is done by the caller.

use vstd::prelude::*;
use vstd::utf8::{encode_scalar, encode_utf8};
use crate::formats::{lowercase, to_lowercase};
use crate::sections::{context_spec, sections_view, DocumentStructure, MarkdownProcessor, TocItem};
use crate::text::{chars_of, occurs_at, str_eq};
use crate::utf8_facts::lemma_encode_concat;

verus! {

/// The first position at or after `i` where `p` occurs in `s`.
pub open spec fn first_occurrence_from(s: Seq<u8>, p: Seq<u8>, i: int) -> Option<int>
    decreases s.len() + 1 - i,
{
    if i < 0 || i > s.len() {
        None
    } else if occurs_at(s, p, i) {
        Some(i)
    } else {
        first_occurrence_from(s, p, i + 1)
    }
}

/// The byte offset of the first occurrence of `p` in `s` (`str::find`).
pub open spec fn first_occurrence(s: Seq<u8>, p: Seq<u8>) -> Option<int> {
    first_occurrence_from(s, p, 0)
}

/// The number of characters from `n` on whose encoding ends at byte `p`.
pub open spec fn char_index_from(s: Seq<char>, p: int, n: int) -> Option<int>
    decreases s.len() + 1 - n,
{
    if n < 0 || n > s.len() {
        None
    } else if encode_utf8(s.take(n)).len() == p {
        Some(n)
    } else {
        char_index_from(s, p, n + 1)
    }
}

/// How many characters of `s` come before byte `p`: `None` where `p` is
/// not a character boundary of its encoding.
pub open spec fn char_index(s: Seq<char>, p: int) -> Option<int> {
    char_index_from(s, p, 0)
}

/// The title of the first table-of-contents entry with an id.
pub open spec fn toc_title(toc: Seq<TocItem>, id: Seq<char>) -> Option<Seq<char>>
    decreases toc.len(),
{
    if toc.len() == 0 {
        None
    } else if toc[0].id@ == id {
        Some(toc[0].title@)
    } else {
        toc_title(toc.drop_first(), id)
    }
}

/// A section that matches a query.
#[derive(Debug, Clone)]
pub struct SearchHit {
    pub section_id: String,
    pub title: String,
    pub content: String,
    pub context: String,
    pub position: usize,
}

/// The hit of a section, given the lower-case forms of its content and
/// of the query: where the query first occurs in the lowered content, as
/// a character position in the content, and the title of its entry in the
/// table of contents; none when it does not occur or the section has no
/// entry.
pub open spec fn hit_spec(
    toc: Seq<TocItem>,
    section_id: Seq<char>,
    content: Seq<char>,
    content_lower: Seq<char>,
    query_lower: Seq<char>,
) -> Option<(Seq<char>, int)> {
    match first_occurrence(encode_utf8(content_lower), encode_utf8(query_lower)) {
        None => None,
        Some(p) => match toc_title(toc, section_id) {
            None => None,
            Some(t) => match char_index(content, p) {
                Some(n) => Some((t, n)),
                None => None,
            },
        },
    }
}

/// The hit matches the section, its title and position, with the text
/// around it for a query of `query_len` characters.
pub open spec fn is_hit(
    h: SearchHit,
    section_id: Seq<char>,
    content: Seq<char>,
    title: Seq<char>,
    position: int,
    query_len: int,
) -> bool {
    &&& h.section_id@ == section_id
    &&& h.content@ == content
    &&& h.title@ == title
    &&& h.position == position
    &&& h.context@ == context_spec(content, position, query_len)
}

/// Finds the first occurrence of `p` in `s`.
fn find_bytes(s: &[u8], p: &[u8]) -> (r: Option<usize>)
    ensures
        match r {
            Some(i) => first_occurrence(s@, p@) == Some(i as int),
            None => first_occurrence(s@, p@) is None,
        },
{
    if p.len() > s.len() {
        proof {
            lemma_no_occurrence_past(s@, p@, 0);
        }
        return None;
    }
    let slen = s.len();
    let last = slen - p.len();
    let mut i: usize = 0;
    loop
        invariant
            slen == s@.len(),
            last == s@.len() - p@.len(),
            p@.len() <= s@.len(),
            i <= last,
            first_occurrence(s@, p@) == first_occurrence_from(s@, p@, i as int),
        decreases last - i,
    {
        let mut k: usize = 0;
        let mut same = true;
        while k < p.len()
            invariant
                slen == s@.len(),
                k <= p@.len(),
                i <= last,
                last == s@.len() - p@.len(),
                same ==> forall|j: int| 0 <= j < k ==> s@[i + j] == p@[j],
                !same ==> !occurs_at(s@, p@, i as int),
            decreases p.len() - k,
        {
            if same && s[i + k] != p[k] {
                proof {
                    assert(s@.subrange(i as int, i + p@.len())[k as int] != p@[k as int]);
                }
                same = false;
            }
            k = k + 1;
        }
        if same {
            proof {
                assert(s@.subrange(i as int, i + p@.len()) =~= p@);
            }
            return Some(i);
        }
        if i == last {
            proof {
                lemma_no_occurrence_past(s@, p@, i + 1);
            }
            return None;
        }
        i = i + 1;
    }
}

proof fn lemma_no_occurrence_past(s: Seq<u8>, p: Seq<u8>, i: int)
    requires
        i >= 0,
        i + p.len() > s.len(),
    ensures
        first_occurrence_from(s, p, i) is None,
    decreases s.len() + 1 - i,
{
    if i <= s.len() {
        lemma_no_occurrence_past(s, p, i + 1);
    }
}

/// The bytes of a character's UTF-8 encoding.
fn char_width(c: char) -> (w: usize)
    ensures
        w == encode_scalar(c as u32).len(),
        1 <= w <= 4,
{
    proof {
        vstd::utf8::char_is_scalar(c);
    }
    let v = c as u32;
    if v <= 0x7f {
        1
    } else if v <= 0x7ff {
        2
    } else if v <= 0xffff {
        3
    } else {
        4
    }
}

proof fn lemma_take_step(s: Seq<char>, n: int)
    requires
        0 <= n < s.len(),
    ensures
        encode_utf8(s.take(n + 1)) == encode_utf8(s.take(n)) + encode_scalar(s[n] as u32),
        encode_utf8(s.take(n + 1)).len() <= encode_utf8(s).len(),
{
    assert(s.take(n + 1) =~= s.take(n) + seq![s[n]]);
    lemma_encode_concat(s.take(n), seq![s[n]]);
    assert(seq![s[n]].drop_first() =~= Seq::<char>::empty());
    assert(encode_utf8(Seq::<char>::empty()) =~= Seq::<u8>::empty());
    assert(encode_utf8(seq![s[n]]) =~= encode_scalar(s[n] as u32));
    assert(s =~= s.take(n + 1) + s.skip(n + 1));
    lemma_encode_concat(s.take(n + 1), s.skip(n + 1));
}

proof fn lemma_grows_past(s: Seq<char>, p: int, n: int)
    requires
        0 <= n <= s.len(),
        encode_utf8(s.take(n)).len() > p,
    ensures
        char_index_from(s, p, n) is None,
    decreases s.len() + 1 - n,
{
    if n < s.len() {
        lemma_take_step(s, n);
        lemma_grows_past(s, p, n + 1);
    } else {
        assert(char_index_from(s, p, n + 1) is None);
    }
}

/// The number of characters of `content` before byte `p`, where `p` is
/// a character boundary.
fn char_index_of(content: &str, p: usize) -> (r: Option<usize>)
    ensures
        match r {
            Some(n) => char_index(content@, p as int) == Some(n as int),
            None => char_index(content@, p as int) is None,
        },
{
    let cs = chars_of(content);
    let ghost s = content@;
    let ghost total = encode_utf8(s).len();
    proof {
        vstd::utf8::encode_utf8_valid_utf8(s);
        assert(s.take(0) =~= Seq::<char>::empty());
        assert(encode_utf8(s.take(0)) =~= Seq::<u8>::empty());
    }
    let bytes = content.as_bytes();
    proof {
        assert(bytes@ == encode_utf8(s));
    }
    let limit = bytes.len();
    let mut n: usize = 0;
    let mut acc: usize = 0;
    while n < cs.len() && acc < p
        invariant
            cs@ == s,
            n <= s.len(),
            limit == total,
            total == encode_utf8(s).len(),
            acc == encode_utf8(s.take(n as int)).len(),
            acc <= total,
            char_index(s, p as int) == char_index_from(s, p as int, n as int),
        decreases cs.len() - n,
    {
        proof {
            lemma_take_step(s, n as int);
        }
        let w = char_width(cs[n]);
        proof {
            assert(cs@[n as int] == s[n as int]);
            assert(acc + w == encode_utf8(s.take(n + 1)).len());
        }
        acc = acc + w;
        n = n + 1;
    }
    if acc == p {
        Some(n)
    } else {
        proof {
            if acc > p {
                lemma_grows_past(s, p as int, n as int);
            } else {
                assert(char_index_from(s, p as int, n as int + 1) is None);
            }
        }
        None
    }
}

/// The title of the first table-of-contents entry with the id.
fn find_toc_title(toc: &Vec<TocItem>, id: &str) -> (r: Option<String>)
    ensures
        match r {
            Some(t) => toc_title(toc@, id@) == Some(t@),
            None => toc_title(toc@, id@) is None,
        },
{
    let mut i: usize = 0;
    proof {
        assert(toc@.skip(0) =~= toc@);
    }
    while i < toc.len()
        invariant
            i <= toc@.len(),
            toc_title(toc@, id@) == toc_title(toc@.skip(i as int), id@),
        decreases toc.len() - i,
    {
        proof {
            assert(toc@.skip(i as int)[0] == toc@[i as int]);
            assert(toc@.skip(i as int).drop_first() =~= toc@.skip(i + 1));
        }
        if str_eq(toc[i].id.as_str(), id) {
            return Some(toc[i].title.clone());
        }
        i = i + 1;
    }
    proof {
        assert(toc@.skip(i as int).len() == 0);
    }
    None
}

proof fn lemma_char_index_bounds(s: Seq<char>, p: int, n: int)
    ensures
        char_index_from(s, p, n) matches Some(m) ==> n <= m <= s.len(),
    decreases s.len() + 1 - n,
{
    if 0 <= n <= s.len() && encode_utf8(s.take(n)).len() != p {
        lemma_char_index_bounds(s, p, n + 1);
    }
}

/// Where a query matches a section's lowered text and the section has an
/// entry in the table of contents, the match falls on a character boundary
/// of the section's own text, where the hit position is counted.
pub open spec fn match_on_boundary(
    toc: Seq<TocItem>,
    id: Seq<char>,
    content: Seq<char>,
    query: Seq<char>,
) -> bool {
    match first_occurrence(encode_utf8(lowercase(content)), encode_utf8(lowercase(query))) {
        Some(p) => toc_title(toc, id) is Some ==> char_index(content, p) is Some,
        None => true,
    }
}

/// The hits of the sections, in their order: section id, title, content
/// and position.
pub open spec fn section_hits(
    toc: Seq<TocItem>,
    secs: Seq<(Seq<char>, Seq<char>)>,
    query: Seq<char>,
) -> Seq<(Seq<char>, Seq<char>, Seq<char>, int)>
    decreases secs.len(),
{
    if secs.len() == 0 {
        Seq::empty()
    } else {
        let r = section_hits(toc, secs.drop_last(), query);
        let (id, content) = secs.last();
        match hit_spec(toc, id, content, lowercase(content), lowercase(query)) {
            Some((t, n)) => r.push((id, t, content, n)),
            None => r,
        }
    }
}

/// The hits match [`section_hits`] one for one.
pub open spec fn hits_match(
    r: Seq<SearchHit>,
    hits: Seq<(Seq<char>, Seq<char>, Seq<char>, int)>,
    query_len: int,
) -> bool {
    &&& r.len() == hits.len()
    &&& forall|i: int|
        0 <= i < r.len() ==> is_hit(
            #[trigger] r[i],
            hits[i].0,
            hits[i].2,
            hits[i].1,
            hits[i].3,
            query_len,
        )
}

/// Every section leaves room for its hit's context in a `usize`.
pub open spec fn contexts_fit(secs: Seq<(Seq<char>, Seq<char>)>, query: Seq<char>) -> bool {
    forall|i: int| 0 <= i < secs.len() ==> (#[trigger] secs[i]).1.len() + query.len() + 50 <= usize::MAX
}

/// The hit of one section: `Err` where the match does not fall on a
/// character boundary of the section's text.
fn probe(
    p: &MarkdownProcessor,
    toc: &Vec<TocItem>,
    id: &String,
    content: &String,
    query: &str,
) -> (r: Result<Option<SearchHit>, ()>)
    requires
        content@.len() + query@.len() + 50 <= usize::MAX,
    ensures
        r is Err <==> !match_on_boundary(toc@, id@, content@, query@),
        r matches Ok(o) ==> match hit_spec(toc@, id@, content@, lowercase(content@), lowercase(query@)) {
            Some((t, n)) => o matches Some(h) && is_hit(h, id@, content@, t, n, query@.len() as int),
            None => o is None,
        },
{
    let cl = to_lowercase(content.as_str());
    let ql = to_lowercase(query);
    let found = find_bytes(cl.as_str().as_bytes(), ql.as_str().as_bytes());
    proof {
        vstd::utf8::encode_utf8_valid_utf8(cl@);
    }
    let pos = match found {
        None => {
            return Ok(None);
        },
        Some(b) => b,
    };
    let title = match find_toc_title(toc, id.as_str()) {
        None => {
            return Ok(None);
        },
        Some(t) => t,
    };
    let n = match char_index_of(content.as_str(), pos) {
        None => {
            return Err(());
        },
        Some(n) => n,
    };
    proof {
        lemma_char_index_bounds(content@, pos as int, 0);
    }
    let ql_len = query.unicode_len();
    let context = p.extract_context(content.as_str(), n, ql_len);
    Ok(Some(SearchHit { section_id: id.clone(), title, content: content.clone(), context, position: n }))
}

/// Every section's match falls on a character boundary of its text.
pub open spec fn all_on_boundary(toc: Seq<TocItem>, secs: Seq<(Seq<char>, Seq<char>)>, query: Seq<char>) -> bool {
    forall|i: int| 0 <= i < secs.len() ==> match_on_boundary(toc, (#[trigger] secs[i]).0, secs[i].1, query)
}

impl MarkdownProcessor {
    /// The sections whose text contains the query, ignoring case, in the
    /// order of the sections: for each, its id, the title of its entry in
    /// the table of contents (a section without one is left out), its text,
    /// the character position of the first match and the text around it.
    pub fn search_content(&self, doc_structure: &DocumentStructure, query: &str) -> (r: Vec<SearchHit>)
        requires
            contexts_fit(sections_view(doc_structure.sections@), query@),
            all_on_boundary(doc_structure.toc@, sections_view(doc_structure.sections@), query@),
        ensures
            hits_match(
                r@,
                section_hits(doc_structure.toc@, sections_view(doc_structure.sections@), query@),
                query@.len() as int,
            ),
    {
        let secs = &doc_structure.sections;
        let ghost sv = sections_view(secs@);
        let ghost toc = doc_structure.toc@;
        let mut out: Vec<SearchHit> = Vec::new();
        let mut i: usize = 0;
        proof {
            assert(sv.take(0) =~= Seq::<(Seq<char>, Seq<char>)>::empty());
        }
        while i < secs.len()
            invariant
                i <= secs@.len(),
                sv == sections_view(secs@),
                toc == doc_structure.toc@,
                contexts_fit(sv, query@),
                all_on_boundary(toc, sv, query@),
                hits_match(out@, section_hits(toc, sv.take(i as int), query@), query@.len() as int),
            decreases secs.len() - i,
        {
            proof {
                assert(sv.take(i + 1).drop_last() =~= sv.take(i as int));
                assert(sv.take(i + 1).last() == sv[i as int]);
                assert(sv[i as int] == (secs@[i as int].0@, secs@[i as int].1@));
                assert(contexts_fit(sv, query@) ==> sv[i as int].1.len() + query@.len() + 50 <= usize::MAX);
                assert(match_on_boundary(toc, sv[i as int].0, sv[i as int].1, query@));
            }
            let ghost before = out@;
            match probe(self, &doc_structure.toc, &secs[i].0, &secs[i].1, query) {
                Ok(Some(h)) => {
                    out.push(h);
                    proof {
                        let hits = section_hits(toc, sv.take(i + 1), query@);
                        assert forall|j: int| 0 <= j < out@.len() implies is_hit(
                            #[trigger] out@[j],
                            hits[j].0,
                            hits[j].2,
                            hits[j].1,
                            hits[j].3,
                            query@.len() as int,
                        ) by {
                            if j < before.len() {
                                assert(out@[j] == before[j]);
                            }
                        }
                    }
                },
                Ok(None) => {},
                Err(()) => {},
            }
            i = i + 1;
        }
        proof {
            assert(sv.take(secs@.len() as int) =~= sv);
        }
        out
    }

    /// [`MarkdownProcessor::search_content`] where every section's match
    /// falls on a character boundary of its text; `None` where one does
    /// not (the position of such a match cannot be counted in the text).
    pub fn search_sections(&self, doc_structure: &DocumentStructure, query: &str) -> (r: Option<Vec<SearchHit>>)
        requires
            contexts_fit(sections_view(doc_structure.sections@), query@),
        ensures
            r is None <==> !all_on_boundary(
                doc_structure.toc@,
                sections_view(doc_structure.sections@),
                query@,
            ),
            r matches Some(v) ==> hits_match(
                v@,
                section_hits(doc_structure.toc@, sections_view(doc_structure.sections@), query@),
                query@.len() as int,
            ),
    {
        let secs = &doc_structure.sections;
        let ghost sv = sections_view(secs@);
        let ghost toc = doc_structure.toc@;
        let mut i: usize = 0;
        while i < secs.len()
            invariant
                i <= secs@.len(),
                sv == sections_view(secs@),
                toc == doc_structure.toc@,
                contexts_fit(sv, query@),
                sv == sections_view(doc_structure.sections@),
                forall|j: int| 0 <= j < i ==> match_on_boundary(toc, (#[trigger] sv[j]).0, sv[j].1, query@),
            decreases secs.len() - i,
        {
            proof {
                assert(sv[i as int] == (secs@[i as int].0@, secs@[i as int].1@));
                assert(sv[i as int].1.len() + query@.len() + 50 <= usize::MAX);
            }
            if probe(self, &doc_structure.toc, &secs[i].0, &secs[i].1, query).is_err() {
                proof {
                    assert(!match_on_boundary(toc, sv[i as int].0, sv[i as int].1, query@));
                    assert(!all_on_boundary(toc, sv, query@));
                }
                return None;
            }
            i = i + 1;
        }
        Some(self.search_content(doc_structure, query))
    }
}

} // verus!
