//! Object keys under which parse products are uploaded.
//!
//! Layouts: `[bucket_dir/]processed_markdown/<task_id>/<task_id>.md` for the
//! Markdown and `[bucket_dir/]parsed_images/<task_id>/sha256/<hash><ext>`
//! for images. `bucket_dir` is stripped of leading and trailing `/`; when
//! nothing is left it adds no prefix.

use vstd::prelude::*;
use crate::digest::{hex_spec, sha256, sha256_hex};
use crate::formats::{lowercase, to_lowercase};
use crate::text::{chars_of, push_chars, push_str, trim_char_chars, trim_char_spec};

verus! {

/// The prefix directory that a bucket dir contributes, if any.
pub open spec fn bucket_prefix(bucket_dir: Option<Seq<char>>) -> Option<Seq<char>> {
    match bucket_dir {
        Some(d) => {
            let t = trim_char_spec(d, '/');
            if t.len() > 0 {
                Some(t)
            } else {
                None
            }
        },
        None => None,
    }
}

/// The view of an optional string slice.
pub open spec fn opt_str_view(o: Option<&str>) -> Option<Seq<char>> {
    match o {
        Some(s) => Some(s@),
        None => None,
    }
}

/// `prefix/` followed by `tail`, or `tail` alone.
pub open spec fn with_prefix(prefix: Option<Seq<char>>, tail: Seq<char>) -> Seq<char> {
    match prefix {
        Some(d) => d + "/"@ + tail,
        None => tail,
    }
}

/// Key of the processed Markdown of a task.
pub open spec fn markdown_key_spec(bucket_dir: Option<Seq<char>>, task_id: Seq<char>) -> Seq<
    char,
> {
    with_prefix(
        bucket_prefix(bucket_dir),
        "processed_markdown/"@ + task_id + "/"@ + task_id + ".md"@,
    )
}

/// Key of an image of a task, addressed by the hex digest of its content.
pub open spec fn image_key_spec(
    bucket_dir: Option<Seq<char>>,
    task_id: Seq<char>,
    hash_hex: Seq<char>,
    ext_suffix: Seq<char>,
) -> Seq<char> {
    with_prefix(
        bucket_prefix(bucket_dir),
        "parsed_images/"@ + task_id + "/sha256/"@ + hash_hex + ext_suffix,
    )
}

fn prefix_of(bucket_dir: Option<&str>) -> (p: Option<Vec<char>>)
    ensures
        match p {
            Some(v) => bucket_prefix(opt_str_view(bucket_dir)) == Some(v@),
            None => bucket_prefix(opt_str_view(bucket_dir)) is None,
        },
{
    match bucket_dir {
        Some(d) => {
            let dv = chars_of(d);
            let t = trim_char_chars(&dv, '/');
            if t.len() > 0 {
                Some(t)
            } else {
                None
            }
        },
        None => None,
    }
}

fn start_with_prefix(p: &Option<Vec<char>>) -> (s: String)
    ensures
        s@ == with_prefix(
            match p {
                Some(v) => Some(v@),
                None => None,
            },
            Seq::empty(),
        ),
{
    let mut s = String::new();
    match p {
        Some(v) => {
            push_chars(&mut s, v);
            push_str(&mut s, "/");
        },
        None => {},
    }
    proof {
        match p {
            Some(v) => {
                assert(s@ =~= v@ + "/"@ + Seq::<char>::empty());
            },
            None => {
                assert(s@ =~= Seq::<char>::empty());
            },
        }
    }
    s
}

/// Builds the key of the processed Markdown of a task.
pub fn build_markdown_object_key(bucket_dir: Option<&str>, task_id: &str) -> (k: String)
    ensures
        k@ == markdown_key_spec(opt_str_view(bucket_dir), task_id@),
{
    let p = prefix_of(bucket_dir);
    let mut k = start_with_prefix(&p);
    let ghost head = k@;
    push_str(&mut k, "processed_markdown/");
    push_str(&mut k, task_id);
    push_str(&mut k, "/");
    push_str(&mut k, task_id);
    push_str(&mut k, ".md");
    proof {
        let tail = "processed_markdown/"@ + task_id@ + "/"@ + task_id@ + ".md"@;
        assert(k@ =~= head + tail);
        match p {
            Some(v) => {
                assert(head + tail =~= v@ + "/"@ + tail);
            },
            None => {
                assert(head + tail =~= tail);
            },
        }
    }
    k
}

/// Builds the key of an image of a task.
pub fn build_image_object_key(
    bucket_dir: Option<&str>,
    task_id: &str,
    hash_hex: &str,
    ext_suffix: &str,
) -> (k: String)
    ensures
        k@ == image_key_spec(opt_str_view(bucket_dir), task_id@, hash_hex@, ext_suffix@),
{
    let p = prefix_of(bucket_dir);
    let mut k = start_with_prefix(&p);
    let ghost head = k@;
    push_str(&mut k, "parsed_images/");
    push_str(&mut k, task_id);
    push_str(&mut k, "/sha256/");
    push_str(&mut k, hash_hex);
    push_str(&mut k, ext_suffix);
    proof {
        let tail = "parsed_images/"@ + task_id@ + "/sha256/"@ + hash_hex@ + ext_suffix@;
        assert(k@ =~= head + tail);
        match p {
            Some(v) => {
                assert(head + tail =~= v@ + "/"@ + tail);
            },
            None => {
                assert(head + tail =~= tail);
            },
        }
    }
    k
}

/// The suffix an image key keeps of the file's extension: a dot and the
/// extension in lower case, or nothing.
pub open spec fn ext_suffix_spec(ext: Option<Seq<char>>) -> Seq<char> {
    match ext {
        Some(e) => if lowercase(e).len() == 0 {
            Seq::empty()
        } else {
            "."@ + lowercase(e)
        },
        None => Seq::empty(),
    }
}

/// The suffix an image key keeps of the file's extension.
pub fn image_ext_suffix(ext: Option<&str>) -> (s: String)
    ensures
        s@ == ext_suffix_spec(
            match ext {
                Some(e) => Some(e@),
                None => None,
            },
        ),
{
    match ext {
        Some(e) => {
            let l = to_lowercase(e);
            if l.as_str().is_empty() {
                String::new()
            } else {
                let mut s = String::from_str(".");
                push_str(&mut s, l.as_str());
                s
            }
        },
        None => String::new(),
    }
}

/// The key an uploaded image is stored under: named by the SHA-256 of
/// its bytes, so that the same picture is stored once, with its
/// extension kept.
pub fn image_object_key_for_file(
    bucket_dir: Option<&str>,
    task_id: &str,
    content: &[u8],
    ext: Option<&str>,
) -> (k: String)
    ensures
        k@ == image_key_spec(
            opt_str_view(bucket_dir),
            task_id@,
            hex_spec(sha256(content@)),
            ext_suffix_spec(
                match ext {
                    Some(e) => Some(e@),
                    None => None,
                },
            ),
        ),
{
    let hash = sha256_hex(content);
    let suffix = image_ext_suffix(ext);
    build_image_object_key(bucket_dir, task_id, hash.as_str(), suffix.as_str())
}

} // verus!
