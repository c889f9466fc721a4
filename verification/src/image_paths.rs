//! Pointing the images of a Markdown document at their uploaded copies:
//! the table from file name to URL, the choice of a new destination for
//! each image, and the document written back out with them.

use vstd::prelude::*;
use pulldown_cmark::{Event, Parser, Tag};
use crate::error::AppError;
use crate::env_types::opt_view;
use crate::formats::{
    file_name_spec, lowercase, path_file_name, path_file_stem, plain_path, stem_spec, to_lowercase,
};
use crate::text::str_eq;

verus! {

/// An error of the Markdown writer `pulldown_cmark_to_cmark`.
#[verifier::external_type_specification]
#[verifier::external_body]
pub struct ExCmarkError(pulldown_cmark_to_cmark::Error);

/// For each event `pulldown_cmark::Parser::new` reports for a text, in
/// order: the destination when the event starts an image, else nothing.
pub uninterp spec fn event_image_dests(markdown: Seq<char>) -> Seq<Option<Seq<char>>>;

/// The text `pulldown_cmark_to_cmark::cmark` writes for the events of a
/// text, the `i`-th event paired with `dests[i]` (one entry per event):
/// the destination of an image start replaced where its entry holds one,
/// every other event as parsed; `None` when the writer fails.
pub uninterp spec fn markdown_rewritten(
    markdown: Seq<char>,
    dests: Seq<Option<Seq<char>>>,
) -> Option<Seq<char>>;

/// Runs `pulldown_cmark::Parser::new` and reports, per event, the
/// destination of an image start.
#[verifier::external_body]
fn image_dests_by_event(markdown: &str) -> (r: Vec<Option<String>>)
    ensures
        opt_views(r@) == event_image_dests(markdown@),
{
    Parser::new(markdown).map(|event| match event {
        Event::Start(Tag::Image { dest_url, .. }) => Some(dest_url.to_string()),
        _ => None,
    }).collect()
}

/// Writes the events of `markdown` back out with `pulldown_cmark_to_cmark::cmark`
/// (the parser's options), the `i`-th event's image destination replaced by
/// `dests[i]` where that holds one.
#[verifier::external_body]
fn write_with_image_dests(markdown: &str, dests: &Vec<Option<String>>) -> (r: Result<
    String,
    pulldown_cmark_to_cmark::Error,
>)
    requires
        dests@.len() == event_image_dests(markdown@).len(),
    ensures
        match r {
            Ok(s) => markdown_rewritten(markdown@, opt_views(dests@)) == Some(s@),
            Err(_) => markdown_rewritten(markdown@, opt_views(dests@)) is None,
        },
{
    let events = Parser::new(markdown).zip(dests.iter()).map(|(event, d)| match (event, d) {
        (Event::Start(Tag::Image { link_type, id, title, .. }), Some(d)) =>
            Event::Start(Tag::Image { dest_url: d.clone().into(), link_type, id, title }),
        (event, _) => event,
    });
    let mut out = String::new();
    pulldown_cmark_to_cmark::cmark(events, &mut out, pulldown_cmark::Options::empty()).map(|_| out)
}

/// The message of a writer error, as its `Display` prints it.
#[verifier::external_body]
fn cmark_error_text(e: &pulldown_cmark_to_cmark::Error) -> String {
    e.to_string()
}

/// View of an optional text.
pub open spec fn opt_views(v: Seq<Option<String>>) -> Seq<Option<Seq<char>>> {
    v.map_values(|d: Option<String>| opt_view(d))
}

/// View of a table entry source: original file name, its stem, its URL.
pub open spec fn entries_view(v: Seq<(String, Option<String>, String)>) -> Seq<
    (Seq<char>, Option<Seq<char>>, Seq<char>),
> {
    v.map_values(|e: (String, Option<String>, String)| (e.0@, opt_view(e.1), e.2@))
}

/// The table from file name to URL: each upload under its original name
/// (a later one replacing an earlier one), and under its stem unless that
/// name is already taken.
pub open spec fn url_table(es: Seq<(Seq<char>, Option<Seq<char>>, Seq<char>)>) -> Map<
    Seq<char>,
    Seq<char>,
>
    decreases es.len(),
{
    if es.len() == 0 {
        Map::empty()
    } else {
        let m = url_table(es.drop_last());
        let e = es.last();
        let m1 = m.insert(e.0, e.2);
        match e.1 {
            Some(st) => if m1.dom().contains(st) {
                m1
            } else {
                m1.insert(st, e.2)
            },
            None => m1,
        }
    }
}

/// The new destination of each event: the URL filed under the file name
/// of an image's destination, where there is one.
pub open spec fn dest_choice(
    ed: Seq<Option<Seq<char>>>,
    names: Seq<Option<Seq<char>>>,
    m: Map<Seq<char>, Seq<char>>,
) -> Seq<Option<Seq<char>>> {
    Seq::new(
        ed.len(),
        |i: int|
            if ed[i] is Some && names[i] is Some && m.dom().contains(names[i]->0) {
                Some(m[names[i]->0])
            } else {
                None
            },
    )
}

/// An upload stays filed under its original name unless a later upload
/// has the same name.
proof fn lemma_url_table_keeps_name(es: Seq<(Seq<char>, Option<Seq<char>>, Seq<char>)>, j: int)
    requires
        0 <= j < es.len(),
        forall|k: int| j < k < es.len() ==> (#[trigger] es[k]).0 != es[j].0,
    ensures
        url_table(es).dom().contains(es[j].0),
        url_table(es)[es[j].0] == es[j].2,
    decreases es.len(),
{
    if j < es.len() - 1 {
        let d = es.drop_last();
        assert forall|k: int| j < k < d.len() implies (#[trigger] d[k]).0 != d[j].0 by {
            assert(d[k] == es[k]);
        }
        lemma_url_table_keeps_name(d, j);
        assert(es.last() == es[es.len() - 1]);
    }
}

/// An image whose destination's file name is the original name of an
/// upload gets that upload's URL (the last one under that name); an image
/// whose file name names no upload, and every other event, gets no new
/// destination and is written as parsed.
pub proof fn lemma_uploaded_image_gets_url(
    es: Seq<(Seq<char>, Option<Seq<char>>, Seq<char>)>,
    ed: Seq<Option<Seq<char>>>,
    names: Seq<Option<Seq<char>>>,
    i: int,
)
    requires
        names.len() == ed.len(),
        0 <= i < ed.len(),
    ensures
        forall|j: int|
            0 <= j < es.len() && ed[i] is Some && names[i] == Some(es[j].0) && (forall|k: int|
                j < k < es.len() ==> (#[trigger] es[k]).0 != es[j].0) ==> #[trigger] dest_choice(
                ed,
                names,
                url_table(es),
            )[i] == Some(es[j].2),
        ed[i] is None || names[i] is None || !url_table(es).dom().contains(names[i]->0)
            ==> dest_choice(ed, names, url_table(es))[i] is None,
{
    assert forall|j: int|
        0 <= j < es.len() && ed[i] is Some && names[i] == Some(es[j].0) && (forall|k: int|
            j < k < es.len() ==> (#[trigger] es[k]).0 != es[j].0) implies #[trigger] dest_choice(
            ed,
            names,
            url_table(es),
        )[i] == Some(es[j].2) by {
        lemma_url_table_keeps_name(es, j);
    }
}

spec fn pairs_view(v: Seq<(String, String)>) -> Seq<(Seq<char>, Seq<char>)> {
    v.map_values(|p: (String, String)| (p.0@, p.1@))
}

/// A list of distinct keys with their values stands for `m`.
spec fn table_holds(v: Seq<(Seq<char>, Seq<char>)>, m: Map<Seq<char>, Seq<char>>) -> bool {
    &&& forall|i: int, j: int| 0 <= i < j < v.len() ==> v[i].0 != v[j].0
    &&& forall|i: int|
        0 <= i < v.len() ==> m.dom().contains(#[trigger] v[i].0) && m[v[i].0] == v[i].1
    &&& forall|k: Seq<char>| #[trigger]
        m.dom().contains(k) ==> exists|i: int| 0 <= i < v.len() && v[i].0 == k
}

fn find_key(v: &Vec<(String, String)>, k: &str) -> (r: Option<usize>)
    ensures
        match r {
            Some(i) => i < v@.len() && v@[i as int].0@ == k@,
            None => forall|i: int| 0 <= i < v@.len() ==> v@[i].0@ != k@,
        },
{
    let mut i: usize = 0;
    while i < v.len()
        invariant
            i <= v@.len(),
            forall|j: int| 0 <= j < i ==> v@[j].0@ != k@,
        decreases v.len() - i,
    {
        if str_eq(v[i].0.as_str(), k) {
            return Some(i);
        }
        i = i + 1;
    }
    None
}

fn table_put(
    v: &mut Vec<(String, String)>,
    k: &str,
    u: &str,
    overwrite: bool,
    Ghost(m): Ghost<Map<Seq<char>, Seq<char>>>,
)
    requires
        table_holds(pairs_view(old(v)@), m),
    ensures
        table_holds(
            pairs_view(final(v)@),
            if overwrite || !m.dom().contains(k@) {
                m.insert(k@, u@)
            } else {
                m
            },
        ),
{
    let ghost before = pairs_view(v@);
    match find_key(v, k) {
        Some(i) => {
            proof {
                assert(before[i as int].0 == k@);
                assert(m.dom().contains(k@));
            }
            if overwrite {
                v.set(i, (String::from_str(k), String::from_str(u)));
                proof {
                    let pv = pairs_view(v@);
                    let m2 = m.insert(k@, u@);
                    assert(pv =~= before.update(i as int, (k@, u@)));
                    assert forall|a: int, b: int| 0 <= a < b < pv.len() implies pv[a].0 != pv[b].0 by {
                        assert(before[a].0 != before[b].0);
                    }
                    assert forall|a: int| 0 <= a < pv.len() implies m2.dom().contains(
                        #[trigger] pv[a].0,
                    ) && m2[pv[a].0] == pv[a].1 by {
                        if a != i {
                            assert(before[a].0 != before[i as int].0);
                            assert(m.dom().contains(before[a].0));
                        }
                    }
                    assert forall|kk: Seq<char>| #[trigger] m2.dom().contains(kk) implies exists|
                        j: int,
                    | 0 <= j < pv.len() && pv[j].0 == kk by {
                        if kk == k@ {
                            assert(pv[i as int].0 == kk);
                        } else {
                            assert(m.dom().contains(kk));
                            let j = choose|j: int| 0 <= j < before.len() && before[j].0 == kk;
                            assert(pv[j].0 == kk);
                        }
                    }
                }
            }
        },
        None => {
            proof {
                if m.dom().contains(k@) {
                    let j = choose|j: int| 0 <= j < before.len() && before[j].0 == k@;
                    assert(v@[j].0@ == k@);
                }
            }
            v.push((String::from_str(k), String::from_str(u)));
            proof {
                let pv = pairs_view(v@);
                let m2 = m.insert(k@, u@);
                assert(pv =~= before.push((k@, u@)));
                assert forall|a: int, b: int| 0 <= a < b < pv.len() implies pv[a].0 != pv[b].0 by {
                    if b == before.len() {
                        assert(v@[a].0@ != k@);
                    } else {
                        assert(before[a].0 != before[b].0);
                    }
                }
                assert forall|a: int| 0 <= a < pv.len() implies m2.dom().contains(
                    #[trigger] pv[a].0,
                ) && m2[pv[a].0] == pv[a].1 by {
                    if a < before.len() {
                        assert(v@[a].0@ != k@);
                        assert(m.dom().contains(before[a].0));
                    }
                }
                assert forall|kk: Seq<char>| #[trigger] m2.dom().contains(kk) implies exists|j: int|
                    0 <= j < pv.len() && pv[j].0 == kk by {
                    if kk == k@ {
                        assert(pv[before.len() as int].0 == kk);
                    } else {
                        assert(m.dom().contains(kk));
                        let j = choose|j: int| 0 <= j < before.len() && before[j].0 == kk;
                        assert(pv[j].0 == kk);
                    }
                }
            }
        },
    }
}

fn table_get(v: &Vec<(String, String)>, k: &str, Ghost(m): Ghost<Map<Seq<char>, Seq<char>>>) -> (r:
    Option<String>)
    requires
        table_holds(pairs_view(v@), m),
    ensures
        opt_view(r) == (if m.dom().contains(k@) {
            Some(m[k@])
        } else {
            None
        }),
{
    match find_key(v, k) {
        Some(i) => {
            proof {
                assert(pairs_view(v@)[i as int].0 == k@);
            }
            Some(v[i].1.clone())
        },
        None => {
            proof {
                if m.dom().contains(k@) {
                    let j = choose|j: int| 0 <= j < pairs_view(v@).len() && pairs_view(v@)[j].0 == k@;
                    assert(v@[j].0@ == k@);
                }
            }
            None
        },
    }
}

fn build_url_table(entries: &Vec<(String, Option<String>, String)>) -> (r: (
    Vec<(String, String)>,
    Ghost<Map<Seq<char>, Seq<char>>>,
))
    ensures
        r.1@ == url_table(entries_view(entries@)),
        table_holds(pairs_view(r.0@), r.1@),
{
    let ghost ev = entries_view(entries@);
    let mut t: Vec<(String, String)> = Vec::new();
    let ghost mut m: Map<Seq<char>, Seq<char>> = Map::empty();
    let mut i: usize = 0;
    proof {
        assert(ev.take(0) =~= Seq::<(Seq<char>, Option<Seq<char>>, Seq<char>)>::empty());
        assert(pairs_view(t@) =~= Seq::<(Seq<char>, Seq<char>)>::empty());
    }
    while i < entries.len()
        invariant
            i <= entries@.len(),
            ev == entries_view(entries@),
            m == url_table(ev.take(i as int)),
            table_holds(pairs_view(t@), m),
        decreases entries.len() - i,
    {
        proof {
            assert(ev.take(i + 1).drop_last() =~= ev.take(i as int));
        }
        let e = &entries[i];
        table_put(&mut t, e.0.as_str(), e.2.as_str(), true, Ghost(m));
        proof {
            m = m.insert(e.0@, e.2@);
        }
        match &e.1 {
            Some(st) => {
                table_put(&mut t, st.as_str(), e.2.as_str(), false, Ghost(m));
                proof {
                    if !m.dom().contains(st@) {
                        m = m.insert(st@, e.2@);
                    }
                }
            },
            None => {},
        }
        i = i + 1;
    }
    proof {
        assert(ev.take(entries@.len() as int) =~= ev);
    }
    (t, Ghost(m))
}

/// The new destination of each event (see [`dest_choice`]); `names[i]`
/// is the file name of the `i`-th event's image destination.
pub fn choose_image_dests(
    event_dests: &Vec<Option<String>>,
    names: &Vec<Option<String>>,
    entries: &Vec<(String, Option<String>, String)>,
) -> (r: Vec<Option<String>>)
    requires
        names@.len() == event_dests@.len(),
    ensures
        r@.len() == event_dests@.len(),
        opt_views(r@) == dest_choice(
            opt_views(event_dests@),
            opt_views(names@),
            url_table(entries_view(entries@)),
        ),
{
    let (table, Ghost(m)) = build_url_table(entries);
    let ghost target = dest_choice(opt_views(event_dests@), opt_views(names@), m);
    let mut out: Vec<Option<String>> = Vec::new();
    let mut i: usize = 0;
    while i < event_dests.len()
        invariant
            i <= event_dests@.len(),
            names@.len() == event_dests@.len(),
            table_holds(pairs_view(table@), m),
            target == dest_choice(opt_views(event_dests@), opt_views(names@), m),
            opt_views(out@) == target.take(i as int),
        decreases event_dests.len() - i,
    {
        let ghost before = opt_views(out@);
        let choice: Option<String> = match (&event_dests[i], &names[i]) {
            (Some(_), Some(n)) => table_get(&table, n.as_str(), Ghost(m)),
            _ => None,
        };
        out.push(choice);
        proof {
            assert(opt_views(out@) =~= before.push(opt_view(choice)));
            assert(target.take(i + 1) =~= target.take(i as int).push(target[i as int]));
        }
        i = i + 1;
    }
    proof {
        assert(target.take(event_dests@.len() as int) =~= target);
        assert(opt_views(out@).len() == out@.len());
    }
    out
}

/// The document with each image pointed at its new destination, as the
/// Markdown writer prints it; a writer failure is a file error.
pub fn rewrite_image_paths(
    markdown: &str,
    event_dests: &Vec<Option<String>>,
    names: &Vec<Option<String>>,
    entries: &Vec<(String, Option<String>, String)>,
) -> (r: Result<String, AppError>)
    requires
        names@.len() == event_dests@.len(),
        event_dests@.len() == event_image_dests(markdown@).len(),
    ensures
        ({
            let want = markdown_rewritten(
                markdown@,
                dest_choice(
                    opt_views(event_dests@),
                    opt_views(names@),
                    url_table(entries_view(entries@)),
                ),
            );
            match r {
                Ok(s) => want == Some(s@),
                Err(e) => want is None && e is File,
            }
        }),
{
    let dests = choose_image_dests(event_dests, names, entries);
    match write_with_image_dests(markdown, &dests) {
        Ok(s) => Ok(s),
        Err(e) => Err(AppError::File(cmark_error_text(&e))),
    }
}

/// View of the uploads: original file name and URL.
pub open spec fn results_view(v: Seq<(String, String)>) -> Seq<(Seq<char>, Seq<char>)> {
    v.map_values(|p: (String, String)| (p.0@, p.1@))
}

/// The document the writer prints with each image pointed at its upload,
/// given the stem of each upload's file name and the file name of each
/// event's image destination.
pub open spec fn rewritten_with(
    markdown: Seq<char>,
    results: Seq<(Seq<char>, Seq<char>)>,
    stems: Seq<Option<Seq<char>>>,
    names: Seq<Option<Seq<char>>>,
) -> Option<Seq<char>> {
    markdown_rewritten(
        markdown,
        dest_choice(
            event_image_dests(markdown),
            names,
            url_table(Seq::new(results.len(), |i: int| (results[i].0, stems[i], results[i].1))),
        ),
    )
}

/// The file names used for the events: none where an event starts no
/// image, and the file name of the destination where that path is plain
/// (elsewhere the platform's path rules decide).
pub open spec fn names_fit(names: Seq<Option<Seq<char>>>, ed: Seq<Option<Seq<char>>>) -> bool {
    &&& names.len() == ed.len()
    &&& forall|i: int| 0 <= i < ed.len() && ed[i] is None ==> (#[trigger] names[i]) is None
    &&& forall|i: int|
        0 <= i < ed.len() && ed[i] is Some && plain_path(ed[i]->0) ==> #[trigger] names[i]
            == file_name_spec(ed[i]->0)
}

/// The stems used for the uploads: that of each upload's file name where
/// the name is a plain path (elsewhere the platform's path rules decide).
pub open spec fn stems_fit(stems: Seq<Option<Seq<char>>>, results: Seq<(Seq<char>, Seq<char>)>) -> bool {
    &&& stems.len() == results.len()
    &&& forall|i: int|
        0 <= i < results.len() && plain_path(results[i].0) ==> #[trigger] stems[i] == match file_name_spec(
            results[i].0,
        ) {
            Some(n) => Some(stem_spec(n)),
            None => None,
        }
}

/// The file name of each event's image destination, by the rules for
/// plain paths.
pub open spec fn plain_names(ed: Seq<Option<Seq<char>>>) -> Seq<Option<Seq<char>>> {
    ed.map_values(
        |d: Option<Seq<char>>|
            match d {
                Some(p) => file_name_spec(p),
                None => None,
            },
    )
}

/// The stem of each upload's file name, by the rules for plain paths.
pub open spec fn plain_stems(results: Seq<(Seq<char>, Seq<char>)>) -> Seq<Option<Seq<char>>> {
    results.map_values(
        |x: (Seq<char>, Seq<char>)|
            match file_name_spec(x.0) {
                Some(n) => Some(stem_spec(n)),
                None => None,
            },
    )
}

/// Every image destination and every uploaded file name is a plain path.
pub open spec fn all_plain(ed: Seq<Option<Seq<char>>>, results: Seq<(Seq<char>, Seq<char>)>) -> bool {
    &&& forall|i: int| 0 <= i < ed.len() && ed[i] is Some ==> plain_path(#[trigger] ed[i]->0)
    &&& forall|i: int| 0 <= i < results.len() ==> plain_path(#[trigger] results[i].0)
}

/// Points the images of a document at their uploads (`(original file
/// name, URL)` pairs): an image whose destination's file name was
/// uploaded gets that URL, the rest stay. File names and stems are those
/// the path rules give (stated for plain paths, see [`names_fit`] and
/// [`stems_fit`]); the result is what the Markdown writer prints for the
/// rewritten events, and it fails exactly when the writer fails for them.
pub fn replace_image_paths_in_markdown(markdown: &str, image_results: &Vec<(String, String)>) -> (r:
    Result<String, AppError>)
    ensures
        match r {
            Ok(s) => exists|stems: Seq<Option<Seq<char>>>, names: Seq<Option<Seq<char>>>|
                {
                    &&& stems_fit(stems, results_view(image_results@))
                    &&& names_fit(names, event_image_dests(markdown@))
                    &&& #[trigger] rewritten_with(markdown@, results_view(image_results@), stems, names)
                        == Some(s@)
                },
            Err(e) => e is File && exists|stems: Seq<Option<Seq<char>>>, names: Seq<Option<Seq<char>>>|
                {
                    &&& stems_fit(stems, results_view(image_results@))
                    &&& names_fit(names, event_image_dests(markdown@))
                    &&& #[trigger] rewritten_with(markdown@, results_view(image_results@), stems, names)
                        is None
                },
        },
        all_plain(event_image_dests(markdown@), results_view(image_results@)) ==> ({
            let want = rewritten_with(
                markdown@,
                results_view(image_results@),
                plain_stems(results_view(image_results@)),
                plain_names(event_image_dests(markdown@)),
            );
            match r {
                Ok(s) => want == Some(s@),
                Err(e) => want is None && e is File,
            }
        }),
{
    let mut entries: Vec<(String, Option<String>, String)> = Vec::new();
    let mut i: usize = 0;
    while i < image_results.len()
        invariant
            i <= image_results@.len(),
            entries@.len() == i,
            forall|j: int|
                0 <= j < i ==> (#[trigger] entries_view(entries@)[j]).0 == image_results@[j].0@
                    && entries_view(entries@)[j].2 == image_results@[j].1@ && (plain_path(
                    image_results@[j].0@,
                ) ==> entries_view(entries@)[j].1 == match file_name_spec(image_results@[j].0@) {
                    Some(n) => Some(stem_spec(n)),
                    None => None,
                }),
        decreases image_results.len() - i,
    {
        let stem = path_file_stem(image_results[i].0.as_str());
        let ghost before = entries_view(entries@);
        let entry = (image_results[i].0.clone(), stem, image_results[i].1.clone());
        let ghost ev_new = (entry.0@, opt_view(entry.1), entry.2@);
        entries.push(entry);
        proof {
            assert(entries_view(entries@) =~= before.push(ev_new));
        }
        i = i + 1;
    }
    let event_dests = image_dests_by_event(markdown);
    let mut names: Vec<Option<String>> = Vec::new();
    let mut k: usize = 0;
    while k < event_dests.len()
        invariant
            k <= event_dests@.len(),
            names@.len() == k,
            forall|j: int|
                0 <= j < k && opt_views(event_dests@)[j] is None ==> (#[trigger] opt_views(
                    names@,
                )[j]) is None,
            forall|j: int|
                0 <= j < k && opt_views(event_dests@)[j] is Some && plain_path(
                    opt_views(event_dests@)[j]->0,
                ) ==> #[trigger] opt_views(names@)[j] == file_name_spec(
                    opt_views(event_dests@)[j]->0,
                ),
        decreases event_dests.len() - k,
    {
        let name = match &event_dests[k] {
            Some(d) => path_file_name(d.as_str()),
            None => None,
        };
        let ghost before = opt_views(names@);
        let ghost nv = opt_view(name);
        names.push(name);
        proof {
            assert(opt_views(names@) =~= before.push(nv));
        }
        k = k + 1;
    }
    let r = rewrite_image_paths(markdown, &event_dests, &names, &entries);
    proof {
        let ev = entries_view(entries@);
        let stems = ev.map_values(|e: (Seq<char>, Option<Seq<char>>, Seq<char>)| e.1);
        let rv = results_view(image_results@);
        let built = Seq::new(rv.len(), |j: int| (rv[j].0, stems[j], rv[j].1));
        assert(built =~= ev);
        assert(stems_fit(stems, rv));
        assert(names_fit(opt_views(names@), event_image_dests(markdown@)));
        if all_plain(event_image_dests(markdown@), rv) {
            assert(stems =~= plain_stems(rv));
            assert(opt_views(names@) =~= plain_names(event_image_dests(markdown@)));
        }
        assert(r matches Ok(s) ==> rewritten_with(
            markdown@,
            results_view(image_results@),
            stems,
            opt_views(names@),
        ) == Some(s@));
        assert(r is Err ==> rewritten_with(
            markdown@,
            results_view(image_results@),
            stems,
            opt_views(names@),
        ) is None);
    }
    r
}

/// Extensions of the image files an output directory may hold.
pub open spec fn image_extensions() -> Seq<Seq<char>> {
    seq!["png"@, "jpg"@, "jpeg"@, "gif"@, "bmp"@, "webp"@, "svg"@, "tiff"@, "tif"@]
}

/// Whether a file with this extension is collected as an image (compared
/// in lower case).
pub fn is_image_extension(ext: &str) -> (b: bool)
    ensures
        b == image_extensions().contains(lowercase(ext@)),
{
    let l = to_lowercase(ext);
    let s = l.as_str();
    let r = str_eq(s, "png") || str_eq(s, "jpg") || str_eq(s, "jpeg") || str_eq(s, "gif")
        || str_eq(s, "bmp") || str_eq(s, "webp") || str_eq(s, "svg") || str_eq(s, "tiff")
        || str_eq(s, "tif");
    proof {
        let e = image_extensions();
        reveal_strlit("png");
        reveal_strlit("jpg");
        reveal_strlit("jpeg");
        reveal_strlit("gif");
        reveal_strlit("bmp");
        reveal_strlit("webp");
        reveal_strlit("svg");
        reveal_strlit("tiff");
        reveal_strlit("tif");
        if r {
            assert(e.contains(l@)) by {
                if l@ == "png"@ {
                    assert(e[0] == l@);
                } else if l@ == "jpg"@ {
                    assert(e[1] == l@);
                } else if l@ == "jpeg"@ {
                    assert(e[2] == l@);
                } else if l@ == "gif"@ {
                    assert(e[3] == l@);
                } else if l@ == "bmp"@ {
                    assert(e[4] == l@);
                } else if l@ == "webp"@ {
                    assert(e[5] == l@);
                } else if l@ == "svg"@ {
                    assert(e[6] == l@);
                } else if l@ == "tiff"@ {
                    assert(e[7] == l@);
                } else {
                    assert(e[8] == l@);
                }
            }
        } else {
            assert(!e.contains(l@)) by {
                if e.contains(l@) {
                    let j = choose|j: int| 0 <= j < e.len() && e[j] == l@;
                    assert(j == 0 || j == 1 || j == 2 || j == 3 || j == 4 || j == 5 || j == 6 || j
                        == 7 || j == 8);
                }
            }
        }
    }
    r
}

} // verus!
