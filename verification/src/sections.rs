//! Markdown sections: the text under a table-of-contents entry, found by
//! line range or by heading, and the context shown around a search hit.

use vstd::prelude::*;
use crate::text::{
    chars_of, contains_exec, contains_spec, push_chars, push_str, slice_chars, string_of,
    trim_chars, trim_spec,
};
use crate::text::str_eq;
use crate::text_ops::{join_chars, join_spec, lines_spec, split_lines};

verus! {

/// A document's structure: its title, its table of contents and the
/// content of each section by id (one entry per id).
#[derive(Debug, Clone)]
pub struct DocumentStructure {
    pub title: String,
    pub toc: Vec<TocItem>,
    pub sections: Vec<(String, String)>,
}

/// View of the sections: id and content.
pub open spec fn sections_view(v: Seq<(String, String)>) -> Seq<(Seq<char>, Seq<char>)> {
    v.map_values(|p: (String, String)| (p.0@, p.1@))
}

/// View of an optional text.
pub open spec fn opt_text(o: Option<String>) -> Option<Seq<char>> {
    match o {
        Some(t) => Some(t@),
        None => None,
    }
}

/// The content of the first section with the id, if any.
pub open spec fn section_lookup(s: Seq<(Seq<char>, Seq<char>)>, id: Seq<char>) -> Option<Seq<char>>
    decreases s.len(),
{
    if s.len() == 0 {
        None
    } else if s[0].0 == id {
        Some(s[0].1)
    } else {
        section_lookup(s.drop_first(), id)
    }
}

proof fn lemma_section_lookup_first(s: Seq<(Seq<char>, Seq<char>)>, id: Seq<char>, i: int)
    requires
        0 <= i < s.len(),
        s[i].0 == id,
        forall|j: int| 0 <= j < i ==> s[j].0 != id,
    ensures
        section_lookup(s, id) == Some(s[i].1),
    decreases i,
{
    if i > 0 {
        assert forall|j: int| 0 <= j < i - 1 implies s.drop_first()[j].0 != id by {
            assert(s.drop_first()[j] == s[j + 1]);
        }
        lemma_section_lookup_first(s.drop_first(), id, i - 1);
    }
}

proof fn lemma_section_lookup_none(s: Seq<(Seq<char>, Seq<char>)>, id: Seq<char>)
    requires
        forall|j: int| 0 <= j < s.len() ==> s[j].0 != id,
    ensures
        section_lookup(s, id) is None,
    decreases s.len(),
{
    if s.len() > 0 {
        assert forall|j: int| 0 <= j < s.len() - 1 implies s.drop_first()[j].0 != id by {
            assert(s.drop_first()[j] == s[j + 1]);
        }
        lemma_section_lookup_none(s.drop_first(), id);
    }
}


impl DocumentStructure {
    /// No two sections share an id: the sections stand for a map from id
    /// to content.
    pub open spec fn ids_distinct(self) -> bool {
        let v = sections_view(self.sections@);
        forall|i: int, j: int| 0 <= i < j < v.len() ==> (#[trigger] v[i]).0 != (#[trigger] v[j]).0
    }
}

/// In a document whose section ids are distinct, looking an id up gives
/// the content filed under it, and nothing exactly when no section has it.
pub proof fn lemma_section_lookup_by_id(d: DocumentStructure, id: Seq<char>)
    requires
        d.ids_distinct(),
    ensures
        forall|i: int|
            0 <= i < d.sections@.len() && (#[trigger] sections_view(d.sections@)[i]).0 == id
                ==> section_lookup(sections_view(d.sections@), id) == Some(
                sections_view(d.sections@)[i].1,
            ),
        section_lookup(sections_view(d.sections@), id) is None <==> forall|i: int|
            0 <= i < d.sections@.len() ==> (#[trigger] sections_view(d.sections@)[i]).0 != id,
{
    let v = sections_view(d.sections@);
    assert forall|i: int| 0 <= i < d.sections@.len() && (#[trigger] v[i]).0 == id implies section_lookup(
        v,
        id,
    ) == Some(v[i].1) by {
        assert forall|j: int| 0 <= j < i implies v[j].0 != id by {
            assert(v[j].0 != v[i].0);
        }
        lemma_section_lookup_first(v, id, i);
    }
    if forall|i: int| 0 <= i < d.sections@.len() ==> (#[trigger] v[i]).0 != id {
        lemma_section_lookup_none(v, id);
    }
}

/// An entry of a document's table of contents: its heading, level and the
/// range of lines it covers.
#[derive(Debug, Clone)]
pub struct TocItem {
    pub id: String,
    pub title: String,
    pub level: u8,
    pub start_pos: usize,
    pub end_pos: usize,
}

/// Processes Markdown documents into sections.
#[derive(Debug, Clone, Copy)]
pub struct MarkdownProcessor;

/// `n` copies of `c`.
pub open spec fn repeat(c: char, n: nat) -> Seq<char>
    decreases n,
{
    if n == 0 {
        Seq::empty()
    } else {
        repeat(c, (n - 1) as nat).push(c)
    }
}

/// The heading line of a title at a level: `## Title`.
pub open spec fn heading_of(title: Seq<char>, level: u8) -> Seq<char> {
    repeat('#', level as nat) + " "@ + title
}

/// Whether a line is the heading sought: the heading itself, or any line
/// that mentions the title.
pub open spec fn is_title_line(line: Seq<char>, title: Seq<char>, level: u8) -> bool {
    trim_spec(line) == trim_spec(heading_of(title, level)) || contains_spec(trim_spec(line), title)
}

/// Index of the first title line at or after `i`, or -1.
pub open spec fn title_line_from(lines: Seq<Seq<char>>, title: Seq<char>, level: u8, i: int) -> int
    decreases lines.len() - i,
{
    if i < 0 || i >= lines.len() {
        -1
    } else if is_title_line(lines[i], title, level) {
        i
    } else {
        title_line_from(lines, title, level, i + 1)
    }
}

/// Number of `#` a line begins with.
pub open spec fn leading_hashes(l: Seq<char>) -> nat
    decreases l.len(),
{
    if l.len() == 0 || l[0] != '#' {
        0
    } else {
        1 + leading_hashes(l.drop_first())
    }
}

/// Whether a line is a heading at `level` or above (its `#` count taken
/// modulo 256, as a byte holds it).
pub open spec fn closes_section(l: Seq<char>, level: u8) -> bool {
    l.len() > 0 && l[0] == '#' && leading_hashes(l) % 256 <= level
}

/// Index of the first line at or after `i` that closes the section, or
/// the number of lines.
pub open spec fn section_end_from(lines: Seq<Seq<char>>, level: u8, i: int) -> int
    decreases lines.len() - i,
{
    if i < 0 || i >= lines.len() {
        lines.len() as int
    } else if closes_section(lines[i], level) {
        i
    } else {
        section_end_from(lines, level, i + 1)
    }
}

/// The text under the heading with the given title and level.
pub open spec fn by_title_spec(content: Seq<char>, title: Seq<char>, level: u8) -> Seq<char> {
    let lines = lines_spec(content);
    let t = title_line_from(lines, title, level, 0);
    if t < 0 {
        "Content for: "@ + title
    } else {
        join_spec(lines.subrange(t + 1, section_end_from(lines, level, t + 1)), "\n"@)
    }
}

/// The text of a table-of-contents entry: its line range when that range
/// is usable, else the text under its heading.
pub open spec fn section_spec(content: Seq<char>, item: TocItem) -> Seq<char> {
    let lines = lines_spec(content);
    let end = if item.end_pos <= lines.len() {
        item.end_pos as int
    } else {
        lines.len() as int
    };
    if item.start_pos < lines.len() && item.start_pos < end {
        join_spec(lines.subrange(item.start_pos as int, end), "\n"@)
    } else {
        by_title_spec(content, item.title@, item.level)
    }
}

proof fn lemma_title_line_from(lines: Seq<Seq<char>>, title: Seq<char>, level: u8, i: int)
    requires
        0 <= i,
    ensures
        title_line_from(lines, title, level, i) == -1 || (i <= title_line_from(
            lines,
            title,
            level,
            i,
        ) < lines.len()),
    decreases lines.len() - i,
{
    if i < lines.len() && !is_title_line(lines[i], title, level) {
        lemma_title_line_from(lines, title, level, i + 1);
    }
}

proof fn lemma_section_end_from(lines: Seq<Seq<char>>, level: u8, i: int)
    requires
        0 <= i <= lines.len(),
    ensures
        i <= section_end_from(lines, level, i) <= lines.len(),
    decreases lines.len() - i,
{
    if i < lines.len() && !closes_section(lines[i], level) {
        lemma_section_end_from(lines, level, i + 1);
    }
}

/// A line that starts a heading of level at most `level` (its `#` count
/// taken modulo 256, as the byte that holds it).
pub open spec fn heading_at_most(l: Seq<char>, level: u8) -> bool {
    l.len() > 0 && l[0] == '#' && leading_hashes(l) % 256 <= level as int
}

proof fn lemma_section_end_first_closing(lines: Seq<Seq<char>>, level: u8, i: int)
    requires
        0 <= i <= lines.len(),
    ensures
        forall|j: int| i <= j < section_end_from(lines, level, i) ==> !heading_at_most(#[trigger] lines[j], level),
        section_end_from(lines, level, i) == lines.len() || heading_at_most(
            lines[section_end_from(lines, level, i)],
            level,
        ),
    decreases lines.len() - i,
{
    if i < lines.len() && !closes_section(lines[i], level) {
        lemma_section_end_first_closing(lines, level, i + 1);
    }
}

/// The text extracted under a heading runs from the line after the
/// heading up to, and without, the first later line that is a heading of
/// the same level or a higher one (fewer `#`); it holds no such line, and
/// it runs to the end when there is none.
pub proof fn lemma_section_stops_at_first_heading_not_deeper(content: Seq<char>, title: Seq<char>, level: u8)
    requires
        title_line_from(lines_spec(content), title, level, 0) >= 0,
    ensures
        ({
            let lines = lines_spec(content);
            let t = title_line_from(lines, title, level, 0);
            exists|e: int|
                {
                    &&& t + 1 <= e <= lines.len()
                    &&& by_title_spec(content, title, level) == join_spec(
                        lines.subrange(t + 1, e),
                        "\n"@,
                    )
                    &&& forall|j: int| t + 1 <= j < e ==> !heading_at_most(#[trigger] lines[j], level)
                    &&& (e == lines.len() || heading_at_most(lines[e], level))
                }
        }),
{
    let lines = lines_spec(content);
    let t = title_line_from(lines, title, level, 0);
    lemma_title_line_from(lines, title, level, 0);
    lemma_section_end_from(lines, level, t + 1);
    lemma_section_end_first_closing(lines, level, t + 1);
    let e = section_end_from(lines, level, t + 1);
    assert(t + 1 <= e <= lines.len());
}

fn repeat_hash(n: u8) -> (r: Vec<char>)
    ensures
        r@ == repeat('#', n as nat),
{
    let mut r: Vec<char> = Vec::new();
    let mut i: u8 = 0;
    while i < n
        invariant
            i <= n,
            r@ == repeat('#', i as nat),
        decreases n - i,
    {
        r.push('#');
        i = i + 1;
    }
    r
}

fn vec_eq(a: &Vec<char>, b: &Vec<char>) -> (r: bool)
    ensures
        r == (a@ == b@),
{
    if a.len() != b.len() {
        return false;
    }
    let mut i: usize = 0;
    while i < a.len()
        invariant
            i <= a@.len(),
            a@.len() == b@.len(),
            forall|j: int| 0 <= j < i ==> a@[j] == b@[j],
        decreases a.len() - i,
    {
        if a[i] != b[i] {
            return false;
        }
        i = i + 1;
    }
    proof {
        assert(a@ =~= b@);
    }
    true
}

fn leading_hashes_exec(l: &Vec<char>) -> (n: usize)
    ensures
        n == leading_hashes(l@),
{
    let mut i: usize = 0;
    proof {
        assert(l@.skip(0) =~= l@);
    }
    while i < l.len() && l[i] == '#'
        invariant
            i <= l@.len(),
            leading_hashes(l@) == i + leading_hashes(l@.skip(i as int)),
        decreases l.len() - i,
    {
        proof {
            assert(l@.skip(i as int).drop_first() =~= l@.skip(i + 1));
        }
        i = i + 1;
    }
    proof {
        assert(leading_hashes(l@.skip(i as int)) == 0);
    }
    i
}

fn sub_lines(lines: &Vec<Vec<char>>, from: usize, to: usize) -> (r: Vec<Vec<char>>)
    requires
        from <= to <= lines@.len(),
    ensures
        r@.map_values(|l: Vec<char>| l@) == lines@.map_values(|l: Vec<char>| l@).subrange(
            from as int,
            to as int,
        ),
{
    let ghost lv = lines@.map_values(|l: Vec<char>| l@);
    let mut r: Vec<Vec<char>> = Vec::new();
    let mut i = from;
    while i < to
        invariant
            from <= i <= to,
            to <= lines@.len(),
            lv == lines@.map_values(|l: Vec<char>| l@),
            r@.map_values(|l: Vec<char>| l@) == lv.subrange(from as int, i as int),
        decreases to - i,
    {
        let l = slice_chars(&lines[i], 0, lines[i].len());
        let ghost before = r@.map_values(|l: Vec<char>| l@);
        r.push(l);
        proof {
            assert(lv[i as int] == lines@[i as int]@);
            assert(l@ =~= lv[i as int]);
            assert(r@.map_values(|l: Vec<char>| l@) =~= before.push(l@));
            assert(lv.subrange(from as int, i + 1) =~= lv.subrange(from as int, i as int).push(
                lv[i as int],
            ));
        }
        i = i + 1;
    }
    r
}

fn find_title_line(
    lines: &Vec<Vec<char>>,
    target_trim: &Vec<char>,
    tv: &Vec<char>,
    Ghost(title): Ghost<Seq<char>>,
    level: u8,
) -> (r: Option<usize>)
    requires
        target_trim@ == trim_spec(heading_of(title, level)),
        tv@ == title,
    ensures
        match r {
            Some(i) => i as int == title_line_from(
                lines@.map_values(|l: Vec<char>| l@),
                title,
                level,
                0,
            ),
            None => title_line_from(lines@.map_values(|l: Vec<char>| l@), title, level, 0) == -1,
        },
{
    let ghost lv = lines@.map_values(|l: Vec<char>| l@);
    let mut i: usize = 0;
    while i < lines.len()
        invariant
            i <= lines@.len(),
            lv == lines@.map_values(|l: Vec<char>| l@),
            target_trim@ == trim_spec(heading_of(title, level)),
            tv@ == title,
            title_line_from(lv, title, level, 0) == title_line_from(lv, title, level, i as int),
        decreases lines.len() - i,
    {
        let t = trim_chars(&lines[i]);
        proof {
            assert(lv[i as int] == lines@[i as int]@);
        }
        if vec_eq(&t, target_trim) || contains_exec(&t, tv) {
            return Some(i);
        }
        i = i + 1;
    }
    None
}

fn find_section_end(lines: &Vec<Vec<char>>, level: u8, s: usize) -> (e: usize)
    requires
        s <= lines@.len(),
    ensures
        e as int == section_end_from(lines@.map_values(|l: Vec<char>| l@), level, s as int),
{
    let ghost lv = lines@.map_values(|l: Vec<char>| l@);
    let mut j = s;
    while j < lines.len()
        invariant
            s <= j <= lines@.len(),
            lv == lines@.map_values(|l: Vec<char>| l@),
            section_end_from(lv, level, s as int) == section_end_from(lv, level, j as int),
        decreases lines.len() - j,
    {
        proof {
            assert(lv[j as int] == lines@[j as int]@);
        }
        let l = &lines[j];
        if l.len() > 0 && l[0] == '#' {
            let h = leading_hashes_exec(l);
            if (h % 256) as u8 <= level {
                return j;
            }
        }
        j = j + 1;
    }
    lines.len()
}

impl MarkdownProcessor {
    /// The text under the heading titled `title` at `level`: from the line
    /// after the first line that is that heading or mentions the title, up
    /// to the next heading of that level or above; a placeholder when no
    /// line matches.
    pub fn extract_content_by_title(&self, content: &str, title: &str, level: u8) -> (r: String)
        ensures
            r@ == by_title_spec(content@, title@, level),
    {
        let cv = chars_of(content);
        let lines = split_lines(&cv);
        let ghost lv = lines@.map_values(|l: Vec<char>| l@);
        let mut target = repeat_hash(level);
        target.push(' ');
        let tv = chars_of(title);
        push_all(&mut target, &tv);
        proof {
            reveal_strlit(" ");
            assert(target@ =~= heading_of(title@, level));
        }
        let target_trim = trim_chars(&target);
        match find_title_line(&lines, &target_trim, &tv, Ghost(title@), level) {
            None => {
                let mut r = String::from_str("Content for: ");
                push_str(&mut r, title);
                r
            },
            Some(i) => {
                proof {
                    lemma_title_line_from(lv, title@, level, 0);
                }
                assert(i < lines.len());
                let s = i + 1;
                let end = find_section_end(&lines, level, s);
                proof {
                    lemma_section_end_from(lv, level, s as int);
                }
                let body = sub_lines(&lines, s, end);
                let nl = chars_of("\n");
                let joined = join_chars(&body, &nl);
                string_of(&joined)
            },
        }
    }

    /// The text of a table-of-contents entry: its lines when its range is
    /// usable, else the text under its heading.
    pub fn extract_section_content(&self, content: &str, toc_item: &TocItem) -> (r: String)
        ensures
            r@ == section_spec(content@, *toc_item),
    {
        let cv = chars_of(content);
        let lines = split_lines(&cv);
        let n = lines.len();
        let start = toc_item.start_pos;
        let end = if toc_item.end_pos <= n {
            toc_item.end_pos
        } else {
            n
        };
        if start < n && start < end {
            let body = sub_lines(&lines, start, end);
            let nl = chars_of("\n");
            let joined = join_chars(&body, &nl);
            string_of(&joined)
        } else {
            self.extract_content_by_title(content, toc_item.title.as_str(), toc_item.level)
        }
    }

    /// The content stored for a section id, if the structure holds one.
    pub fn get_section_content(&self, doc_structure: &DocumentStructure, section_id: &str) -> (r:
        Option<String>)
        ensures
            opt_text(r) == section_lookup(sections_view(doc_structure.sections@), section_id@),
    {
        let secs = &doc_structure.sections;
        let ghost sv = sections_view(secs@);
        let mut i: usize = 0;
        while i < secs.len()
            invariant
                i <= secs@.len(),
                sv == sections_view(secs@),
                sv == sections_view(doc_structure.sections@),
                forall|j: int| 0 <= j < i ==> sv[j].0 != section_id@,
            decreases secs.len() - i,
        {
            if str_eq(secs[i].0.as_str(), section_id) {
                let c = secs[i].1.clone();
                proof {
                    assert(sv[i as int] == (secs@[i as int].0@, secs@[i as int].1@));
                    lemma_section_lookup_first(sv, section_id@, i as int);
                }
                return Some(c);
            }
            i = i + 1;
        }
        proof {
            lemma_section_lookup_none(sv, section_id@);
        }
        None
    }

    /// Up to 50 characters on each side of a hit at `position` (in
    /// characters) of `query_len` characters, marked with ellipses.
    pub fn extract_context(&self, content: &str, position: usize, query_len: usize) -> (r: String)
        requires
            position + query_len + 50 <= usize::MAX,
            (if position >= 50 { position - 50 } else { 0 }) <= (if position + query_len + 50
                <= content@.len() {
                position + query_len + 50
            } else {
                content@.len() as int
            }),
        ensures
            r@ == context_spec(content@, position as int, query_len as int),
    {
        let chars = chars_of(content);
        let start = position.saturating_sub(50);
        let end = if position + query_len + 50 <= chars.len() {
            position + query_len + 50
        } else {
            chars.len()
        };
        let ctx = slice_chars(&chars, start, end);
        let mut r = if start > 0 {
            String::from_str("...")
        } else {
            String::new()
        };
        push_chars(&mut r, &ctx);
        push_str(&mut r, "...");
        r
    }
}

/// The context shown around a hit.
pub open spec fn context_spec(content: Seq<char>, position: int, query_len: int) -> Seq<char> {
    let start = if position >= 50 {
        position - 50
    } else {
        0
    };
    let end = if position + query_len + 50 <= content.len() {
        position + query_len + 50
    } else {
        content.len() as int
    };
    (if start > 0 {
        "..."@
    } else {
        Seq::empty()
    }) + content.subrange(start, end) + "..."@
}

fn push_all(out: &mut Vec<char>, v: &Vec<char>)
    ensures
        final(out)@ == old(out)@ + v@,
{
    let mut i: usize = 0;
    while i < v.len()
        invariant
            i <= v@.len(),
            out@ == old(out)@ + v@.take(i as int),
        decreases v.len() - i,
    {
        out.push(v[i]);
        proof {
            assert(v@.take(i + 1) =~= v@.take(i as int).push(v@[i as int]));
        }
        i = i + 1;
    }
    proof {
        assert(v@.take(v@.len() as int) =~= v@);
    }
}

} // verus!
