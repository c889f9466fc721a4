//! Choosing the upload backend of a request: request parameters merged
//! over the global custom-upload defaults, checked before use.

use vstd::prelude::*;
use crate::env_types::opt_view;
use crate::error::AppError;
use crate::text::{
    chars_of, contains_spec, is_ws_spec, push_chars, starts_with_spec, str_contains,
    str_starts_with, string_of, trim_chars, trim_char_end_spec, trim_spec,
};

verus! {

/// Storage class of an upload.
#[derive(Debug, Clone, Copy, PartialEq, Eq, Structural)]
pub enum CustomUploadType {
    Store,
    Tmp,
}

/// Upload parameters a request may carry.
#[derive(Debug, Clone)]
pub struct UploadTargetParams {
    pub upload_base_url: Option<String>,
    pub upload_path: Option<String>,
    pub upload_api_key: Option<String>,
    pub upload_type: Option<CustomUploadType>,
}

/// Global defaults of the custom upload backend (empty when unset).
#[derive(Debug, Clone)]
pub struct CustomUploadConfig {
    pub base_url: String,
    pub api_key: String,
    pub path: String,
}

/// Where and how to upload.
#[derive(Debug, Clone)]
pub struct UploadEndpoint {
    pub base_url: String,
    pub path: String,
    pub api_key: String,
    pub upload_type: CustomUploadType,
}

impl Default for UploadTargetParams {
    fn default() -> (p: Self)
        ensures
            p.upload_base_url is None && p.upload_path is None && p.upload_api_key is None
                && p.upload_type is None,
    {
        UploadTargetParams {
            upload_base_url: None,
            upload_path: None,
            upload_api_key: None,
            upload_type: None,
        }
    }
}

impl UploadTargetParams {
    /// Whether any upload parameter is present (which asks for the custom
    /// backend).
    pub fn has_any(&self) -> (b: bool)
        ensures
            b == (self.upload_base_url is Some || self.upload_path is Some
                || self.upload_api_key is Some || self.upload_type is Some),
    {
        self.upload_base_url.is_some() || self.upload_path.is_some()
            || self.upload_api_key.is_some() || self.upload_type.is_some()
    }
}

/// The default upload path of the REST contract.
pub open spec fn default_upload_path() -> Seq<char> {
    "/api/v1/file/upload"@
}

/// A value trimmed of white space, when something is left.
pub open spec fn non_empty_spec(s: Option<Seq<char>>) -> Option<Seq<char>> {
    match s {
        Some(x) => if trim_spec(x).len() > 0 {
            Some(trim_spec(x))
        } else {
            None
        },
        None => None,
    }
}

/// A value trimmed of white space, when something is left.
pub fn non_empty(s: Option<&str>) -> (r: Option<String>)
    ensures
        opt_view(r) == non_empty_spec(
            match s {
                Some(x) => Some(x@),
                None => None,
            },
        ),
{
    match s {
        Some(x) => {
            let v = chars_of(x);
            let t = trim_chars(&v);
            if t.len() > 0 {
                Some(string_of(&t))
            } else {
                None
            }
        },
        None => None,
    }
}

/// The host part of a URL after its scheme: up to the first `/`, `:`,
/// `?` or `#`.
pub open spec fn host_len(rest: Seq<char>) -> nat
    decreases rest.len(),
{
    if rest.len() == 0 || rest[0] == '/' || rest[0] == ':' || rest[0] == '?' || rest[0] == '#' {
        0
    } else {
        1 + host_len(rest.drop_first())
    }
}

/// What follows the scheme of an http(s) URL, or none.
pub open spec fn after_scheme(u: Seq<char>) -> Option<Seq<char>> {
    if starts_with_spec(u, "https://"@) {
        Some(u.skip(8))
    } else if starts_with_spec(u, "http://"@) {
        Some(u.skip(7))
    } else {
        None
    }
}

/// An http(s) URL with a host, without white space, query or fragment.
pub open spec fn base_url_ok(u: Seq<char>) -> bool {
    match after_scheme(u) {
        Some(rest) => host_len(rest) > 0 && !contains_spec(u, "?"@) && !contains_spec(u, "#"@)
            && (forall|i: int| 0 <= i < u.len() ==> !is_ws_spec(#[trigger] u[i])),
        None => false,
    }
}

/// A path that starts with `/` and has no query or fragment.
pub open spec fn upload_path_ok(p: Seq<char>) -> bool {
    starts_with_spec(p, "/"@) && !contains_spec(p, "?"@) && !contains_spec(p, "#"@)
}

fn host_len_positive(v: &Vec<char>, from: usize) -> (b: bool)
    requires
        from <= v@.len(),
    ensures
        b == (host_len(v@.skip(from as int)) > 0),
{
    if from >= v.len() {
        proof {
            assert(v@.skip(from as int).len() == 0);
        }
        return false;
    }
    let c = v[from];
    proof {
        assert(v@.skip(from as int)[0] == c);
    }
    !(c == '/' || c == ':' || c == '?' || c == '#')
}

fn no_white_space(v: &Vec<char>) -> (b: bool)
    ensures
        b == (forall|i: int| 0 <= i < v@.len() ==> !is_ws_spec(#[trigger] v@[i])),
{
    let mut i: usize = 0;
    while i < v.len()
        invariant
            i <= v@.len(),
            forall|j: int| 0 <= j < i ==> !is_ws_spec(#[trigger] v@[j]),
        decreases v.len() - i,
    {
        if crate::text::is_ws(v[i]) {
            return false;
        }
        i = i + 1;
    }
    true
}

/// Checks a base URL: http(s), with a host, no white space, query or
/// fragment.
pub fn validate_base_url(url: &str) -> (r: Result<(), String>)
    ensures
        r is Ok <==> base_url_ok(url@),
        r matches Err(m) ==> m@ == "上传 base_url 必须是不带 query/fragment 的 http(s) URL: "@ + url@,
{
    let v = chars_of(url);
    let rest_start: Option<usize> = if str_starts_with(url, "https://") {
        proof {
            reveal_strlit("https://");
        }
        Some(8)
    } else if str_starts_with(url, "http://") {
        proof {
            reveal_strlit("http://");
        }
        Some(7)
    } else {
        None
    };
    let ok = match rest_start {
        Some(k) => host_len_positive(&v, k) && !str_contains(url, "?") && !str_contains(url, "#")
            && no_white_space(&v),
        None => false,
    };
    if ok {
        Ok(())
    } else {
        let mut m = String::from_str("上传 base_url 必须是不带 query/fragment 的 http(s) URL: ");
        push_chars(&mut m, &v);
        Err(m)
    }
}

/// Checks an upload path: it starts with `/` and has no query or fragment.
pub fn validate_upload_path(path: &str) -> (r: Result<(), String>)
    ensures
        r is Ok <==> upload_path_ok(path@),
        r matches Err(m) ==> m@ == "上传路径必须以 / 开头且不带 query/fragment: "@ + path@,
{
    if str_starts_with(path, "/") && !str_contains(path, "?") && !str_contains(path, "#") {
        Ok(())
    } else {
        let mut m = String::from_str("上传路径必须以 / 开头且不带 query/fragment: ");
        let v = chars_of(path);
        push_chars(&mut m, &v);
        Err(m)
    }
}

/// `a`, or else `b`.
pub open spec fn or_else(a: Option<Seq<char>>, b: Option<Seq<char>>) -> Option<Seq<char>> {
    match a {
        Some(x) => Some(x),
        None => b,
    }
}

/// Whether an endpoint carries exactly these values.
pub open spec fn endpoint_is(
    e: UploadEndpoint,
    base: Seq<char>,
    path: Seq<char>,
    key: Seq<char>,
    t: CustomUploadType,
) -> bool {
    e.base_url@ == base && e.path@ == path && e.api_key@ == key && e.upload_type == t
}

/// The merged base URL (trailing `/` removed), if any.
pub open spec fn merged_base(p: UploadTargetParams, g: CustomUploadConfig) -> Option<Seq<char>> {
    match or_else(non_empty_spec(opt_view(p.upload_base_url)), non_empty_spec(Some(g.base_url@))) {
        Some(b) => Some(trim_char_end_spec(b, '/')),
        None => None,
    }
}

/// The merged path.
pub open spec fn merged_path(p: UploadTargetParams, g: CustomUploadConfig) -> Seq<char> {
    match or_else(non_empty_spec(opt_view(p.upload_path)), non_empty_spec(Some(g.path@))) {
        Some(x) => x,
        None => default_upload_path(),
    }
}

/// The merged key (empty when none).
pub open spec fn merged_key(p: UploadTargetParams, g: CustomUploadConfig) -> Seq<char> {
    match or_else(non_empty_spec(opt_view(p.upload_api_key)), non_empty_spec(Some(g.api_key@))) {
        Some(x) => x,
        None => Seq::empty(),
    }
}

/// The message when upload parameters come without any base URL.
pub open spec fn missing_base_message() -> Seq<char> {
    "请求携带 upload_* 参数，但未能解析出上传 base_url （请求与全局 storage.custom_upload.base_url 均未提供）"@
}

fn pick(a: Option<String>, b: Option<String>) -> (r: Option<String>)
    ensures
        opt_view(r) == or_else(opt_view(a), opt_view(b)),
{
    match a {
        Some(x) => Some(x),
        None => b,
    }
}

pub(crate) fn trim_end_slashes(s: &String) -> (r: String)
    ensures
        r@ == trim_char_end_spec(s@, '/'),
{
    let v = chars_of(s.as_str());
    let mut e = v.len();
    proof {
        assert(v@.take(e as int) =~= v@);
    }
    while e > 0 && v[e - 1] == '/'
        invariant
            e <= v@.len(),
            trim_char_end_spec(v@.take(e as int), '/') == trim_char_end_spec(v@, '/'),
        decreases e,
    {
        proof {
            assert(v@.take(e as int).drop_last() =~= v@.take(e - 1));
        }
        e = e - 1;
    }
    let t = crate::text::slice_chars(&v, 0, e);
    proof {
        assert(t@ =~= v@.take(e as int));
    }
    string_of(&t)
}

fn as_opt_str(o: &Option<String>) -> (r: Option<&str>)
    ensures
        match r {
            Some(x) => Some(x@),
            None => None::<Seq<char>>,
        } == opt_view(*o),
{
    match o {
        Some(s) => Some(s.as_str()),
        None => None,
    }
}

/// The upload target of a request: `Ok(None)` for the default object
/// storage when neither the request nor the defaults name a base URL and
/// the request carries no upload parameter; an error when it carries some
/// but no base URL can be found, or when the merged base URL or path is not
/// valid; else the merged endpoint, request values over defaults.
pub fn resolve_upload_target(params: &UploadTargetParams, global: &CustomUploadConfig) -> (r: Result<
    Option<UploadEndpoint>,
    AppError,
>)
    ensures
        match merged_base(*params, *global) {
            None => if params.upload_base_url is Some || params.upload_path is Some
                || params.upload_api_key is Some || params.upload_type is Some {
                r matches Err(e) && e is Validation && e.message() == missing_base_message()
            } else {
                r matches Ok(x) && x is None
            },
            Some(base) => if !base_url_ok(base) {
                r matches Err(e) && e is Validation && e.message()
                    == "上传 base_url 必须是不带 query/fragment 的 http(s) URL: "@ + base
            } else if !upload_path_ok(merged_path(*params, *global)) {
                r matches Err(e) && e is Validation && e.message()
                    == "上传路径必须以 / 开头且不带 query/fragment: "@ + merged_path(*params, *global)
            } else {
                r matches Ok(Some(ep)) && endpoint_is(
                    ep,
                    base,
                    merged_path(*params, *global),
                    merged_key(*params, *global),
                    match params.upload_type {
                        Some(t) => t,
                        None => CustomUploadType::Store,
                    },
                )
            },
        },
{
    let request_base = non_empty(as_opt_str(&params.upload_base_url));
    let global_base = non_empty(Some(global.base_url.as_str()));
    let base = match pick(request_base, global_base) {
        Some(b) => trim_end_slashes(&b),
        None => {
            if params.has_any() {
                return Err(
                    AppError::Validation(
                        String::from_str(
                            "请求携带 upload_* 参数，但未能解析出上传 base_url （请求与全局 storage.custom_upload.base_url 均未提供）",
                        ),
                    ),
                );
            }
            return Ok(None);
        },
    };
    match validate_base_url(base.as_str()) {
        Ok(()) => {},
        Err(m) => {
            return Err(AppError::Validation(m));
        },
    }
    let path = match pick(
        non_empty(as_opt_str(&params.upload_path)),
        non_empty(Some(global.path.as_str())),
    ) {
        Some(p) => p,
        None => String::from_str("/api/v1/file/upload"),
    };
    match validate_upload_path(path.as_str()) {
        Ok(()) => {},
        Err(m) => {
            return Err(AppError::Validation(m));
        },
    }
    let api_key = match pick(
        non_empty(as_opt_str(&params.upload_api_key)),
        non_empty(Some(global.api_key.as_str())),
    ) {
        Some(k) => k,
        None => String::new(),
    };
    let upload_type = match params.upload_type {
        Some(t) => t,
        None => CustomUploadType::Store,
    };
    Ok(Some(UploadEndpoint { base_url: base, path, api_key, upload_type }))
}

} // verus!
