//! Path classification for the embedded web assets: which requests are
//! static-resource lookups, which fall through to the single-page app's
//! index, and which content type a file is served with.
//!
//! Reading the embedded bytes and building HTTP responses happen outside
//! the library; the decisions they follow are verified here.

use vstd::prelude::*;
use vstd::string::StrSliceExecFns;
use crate::permission::str_eq;

verus! {

/// Whether `prefix` is a prefix of `s`.
pub open spec fn spec_starts_with(s: Seq<char>, prefix: Seq<char>) -> bool {
    s.len() >= prefix.len() && s.subrange(0, prefix.len() as int) == prefix
}

fn starts_with_marker(s: &str, prefix: &str) -> (r: bool)
    ensures
        r == spec_starts_with(s@, prefix@),
{
    let plen = prefix.unicode_len();
    let slen = s.unicode_len();
    if slen < plen {
        return false;
    }
    let mut i: usize = 0;
    while i < plen
        invariant
            slen == s@.len(),
            plen == prefix@.len(),
            slen >= plen,
            i <= plen,
            forall|j: int| 0 <= j < i ==> s@[j] == prefix@[j],
        decreases plen - i,
    {
        if s.get_char(i) != prefix.get_char(i) {
            proof {
                assert(s@.subrange(0, plen as int)[i as int] != prefix@[i as int]);
            }
            return false;
        }
        i += 1;
    }
    proof {
        assert(s@.subrange(0, plen as int) =~= prefix@);
    }
    true
}

fn contains_char(s: &str, c: char) -> (r: bool)
    ensures
        r == s@.contains(c),
{
    let len = s.unicode_len();
    let mut i: usize = 0;
    while i < len
        invariant
            len == s@.len(),
            i <= len,
            forall|j: int| 0 <= j < i ==> s@[j] != c,
        decreases len - i,
    {
        if s.get_char(i) == c {
            proof {
                assert(s@[i as int] == c);
            }
            return true;
        }
        i += 1;
    }
    proof {
        assert(forall|j: int| 0 <= j < s@.len() ==> s@[j] != c);
    }
    false
}

/// Whether a request path names a static resource rather than a route of
/// the single-page app: anything with a file extension, or anything under
/// the conventional asset directories.
pub open spec fn spec_is_static_resource_path(path: Seq<char>) -> bool {
    ||| path.contains('.')
    ||| spec_starts_with(path, "assets/"@)
    ||| spec_starts_with(path, "static/"@)
    ||| spec_starts_with(path, "public/"@)
    ||| spec_starts_with(path, "images/"@)
    ||| spec_starts_with(path, "css/"@)
    ||| spec_starts_with(path, "js/"@)
}

/// Decides whether the path is a static resource path; everything else
/// is treated as a route of the single-page app.
pub fn is_static_resource_path(path: &str) -> (r: bool)
    ensures
        r == spec_is_static_resource_path(path@),
{
    if contains_char(path, '.') {
        return true;
    }
    if starts_with_marker(path, "assets/") {
        return true;
    }
    if starts_with_marker(path, "static/") {
        return true;
    }
    if starts_with_marker(path, "public/") {
        return true;
    }
    if starts_with_marker(path, "images/") {
        return true;
    }
    if starts_with_marker(path, "css/") {
        return true;
    }
    if starts_with_marker(path, "js/") {
        return true;
    }
    false
}

/// The index of the last `'.'` in `s`, or -1 when there is none.
pub open spec fn spec_last_dot(s: Seq<char>) -> int
    decreases s.len(),
{
    if s.len() == 0 {
        -1
    } else if s[s.len() - 1] == '.' {
        s.len() - 1
    } else {
        spec_last_dot(s.drop_last())
    }
}

/// The characters after the last `'.'`: the file extension, or the whole
/// path when it has no dot.
pub open spec fn spec_extension(s: Seq<char>) -> Seq<char> {
    s.subrange(spec_last_dot(s) + 1, s.len() as int)
}

fn extension_of<'a>(s: &'a str) -> (r: &'a str)
    ensures
        r@ == spec_extension(s@),
{
    let len = s.unicode_len();
    proof {
        assert(s@.subrange(0, len as int) =~= s@);
    }
    let mut i: usize = len;
    while i > 0
        invariant
            len == s@.len(),
            i <= len,
            spec_last_dot(s@) == spec_last_dot(s@.subrange(0, i as int)),
        decreases i,
    {
        if s.get_char(i - 1) == '.' {
            proof {
                assert(s@.subrange(0, i as int)[i as int - 1] == '.');
                assert(spec_last_dot(s@.subrange(0, i as int)) == i as int - 1);
            }
            let r = s.substring_char(i, len);
            proof {
                assert(r@ =~= spec_extension(s@));
            }
            return r;
        }
        proof {
            assert(s@.subrange(0, i as int)[i as int - 1] != '.');
            assert(s@.subrange(0, i as int).drop_last() =~= s@.subrange(0, i as int - 1));
        }
        i -= 1;
    }
    proof {
        assert(s@.subrange(0, 0) =~= Seq::<char>::empty());
        assert(spec_last_dot(s@) == -1);
        assert(spec_extension(s@) =~= s@);
    }
    s
}

/// The ASCII-lowercased form of a character; anything outside `A`..`Z`
/// is left alone.
pub open spec fn spec_lower_char(c: char) -> char {
    if 65 <= c as u32 <= 90 {
        (((c as u32) + 32) as u8) as char
    } else {
        c
    }
}

/// Whether `a` reads as `b` once ASCII case is folded; `b` is expected
/// lowercase already.
pub open spec fn spec_eq_ignore_ascii_case(a: Seq<char>, b: Seq<char>) -> bool {
    a.len() == b.len() && forall|i: int| 0 <= i < a.len() ==> spec_lower_char(a[i]) == b[i]
}

fn matches_lower(s: &str, target: &str) -> (r: bool)
    ensures
        r == spec_eq_ignore_ascii_case(s@, target@),
{
    let slen = s.unicode_len();
    let tlen = target.unicode_len();
    if slen != tlen {
        return false;
    }
    let mut i: usize = 0;
    while i < slen
        invariant
            slen == s@.len(),
            tlen == target@.len(),
            slen == tlen,
            i <= slen,
            forall|j: int| 0 <= j < i ==> spec_lower_char(s@[j]) == target@[j],
        decreases slen - i,
    {
        let c = s.get_char(i);
        let code = c as u32;
        let lc: char = if code >= 65 && code <= 90 {
            ((code + 32) as u8) as char
        } else {
            c
        };
        proof {
            assert(lc == spec_lower_char(s@[i as int]));
        }
        if lc != target.get_char(i) {
            return false;
        }
        i += 1;
    }
    true
}

/// The content type a file at `path` is served with, decided by its
/// extension, ASCII case ignored; anything unrecognized is served as an
/// opaque byte stream.
pub open spec fn spec_content_type(path: Seq<char>) -> Seq<char> {
    let ext = spec_extension(path);
    if spec_eq_ignore_ascii_case(ext, "html"@) {
        "text/html; charset=utf-8"@
    } else if spec_eq_ignore_ascii_case(ext, "css"@) {
        "text/css; charset=utf-8"@
    } else if spec_eq_ignore_ascii_case(ext, "js"@) || spec_eq_ignore_ascii_case(ext, "mjs"@)
        || spec_eq_ignore_ascii_case(ext, "jsx"@) {
        "application/javascript; charset=utf-8"@
    } else if spec_eq_ignore_ascii_case(ext, "ts"@) || spec_eq_ignore_ascii_case(ext, "tsx"@) {
        "application/typescript; charset=utf-8"@
    } else if spec_eq_ignore_ascii_case(ext, "json"@) || spec_eq_ignore_ascii_case(ext, "map"@) {
        "application/json; charset=utf-8"@
    } else if spec_eq_ignore_ascii_case(ext, "png"@) {
        "image/png"@
    } else if spec_eq_ignore_ascii_case(ext, "jpg"@) || spec_eq_ignore_ascii_case(ext, "jpeg"@) {
        "image/jpeg"@
    } else if spec_eq_ignore_ascii_case(ext, "gif"@) {
        "image/gif"@
    } else if spec_eq_ignore_ascii_case(ext, "svg"@) {
        "image/svg+xml"@
    } else if spec_eq_ignore_ascii_case(ext, "ico"@) {
        "image/x-icon"@
    } else if spec_eq_ignore_ascii_case(ext, "woff"@) {
        "font/woff"@
    } else if spec_eq_ignore_ascii_case(ext, "woff2"@) {
        "font/woff2"@
    } else if spec_eq_ignore_ascii_case(ext, "ttf"@) {
        "font/ttf"@
    } else if spec_eq_ignore_ascii_case(ext, "eot"@) {
        "application/vnd.ms-fontobject"@
    } else if spec_eq_ignore_ascii_case(ext, "webp"@) {
        "image/webp"@
    } else if spec_eq_ignore_ascii_case(ext, "mp4"@) {
        "video/mp4"@
    } else if spec_eq_ignore_ascii_case(ext, "webm"@) {
        "video/webm"@
    } else if spec_eq_ignore_ascii_case(ext, "pdf"@) {
        "application/pdf"@
    } else if spec_eq_ignore_ascii_case(ext, "xml"@) {
        "application/xml; charset=utf-8"@
    } else if spec_eq_ignore_ascii_case(ext, "txt"@) {
        "text/plain; charset=utf-8"@
    } else {
        "application/octet-stream"@
    }
}

/// Picks the content type for a file path by its extension.
pub fn get_content_type(path: &str) -> (r: &'static str)
    ensures
        r@ == spec_content_type(path@),
{
    let ext = extension_of(path);
    if matches_lower(ext, "html") {
        "text/html; charset=utf-8"
    } else if matches_lower(ext, "css") {
        "text/css; charset=utf-8"
    } else if matches_lower(ext, "js") || matches_lower(ext, "mjs") || matches_lower(ext, "jsx") {
        "application/javascript; charset=utf-8"
    } else if matches_lower(ext, "ts") || matches_lower(ext, "tsx") {
        "application/typescript; charset=utf-8"
    } else if matches_lower(ext, "json") || matches_lower(ext, "map") {
        "application/json; charset=utf-8"
    } else if matches_lower(ext, "png") {
        "image/png"
    } else if matches_lower(ext, "jpg") || matches_lower(ext, "jpeg") {
        "image/jpeg"
    } else if matches_lower(ext, "gif") {
        "image/gif"
    } else if matches_lower(ext, "svg") {
        "image/svg+xml"
    } else if matches_lower(ext, "ico") {
        "image/x-icon"
    } else if matches_lower(ext, "woff") {
        "font/woff"
    } else if matches_lower(ext, "woff2") {
        "font/woff2"
    } else if matches_lower(ext, "ttf") {
        "font/ttf"
    } else if matches_lower(ext, "eot") {
        "application/vnd.ms-fontobject"
    } else if matches_lower(ext, "webp") {
        "image/webp"
    } else if matches_lower(ext, "mp4") {
        "video/mp4"
    } else if matches_lower(ext, "webm") {
        "video/webm"
    } else if matches_lower(ext, "pdf") {
        "application/pdf"
    } else if matches_lower(ext, "xml") {
        "application/xml; charset=utf-8"
    } else if matches_lower(ext, "txt") {
        "text/plain; charset=utf-8"
    } else {
        "application/octet-stream"
    }
}

/// Where a request for an embedded asset is routed.
#[derive(Clone, Copy, Debug, PartialEq, Eq, Structural)]
pub enum EmbeddedRoute {
    /// Serve the single-page app's index document.
    Index,
    /// Look the path up among the embedded files; absent means not found.
    Asset,
}

/// How a request path is routed: the empty path and the index document
/// itself go to the index, static resource paths go to the asset lookup,
/// and every other path is a route of the single-page app, which also
/// gets the index.
pub open spec fn spec_embedded_route(path: Seq<char>) -> EmbeddedRoute {
    if path.len() == 0 || path == "index.html"@ {
        EmbeddedRoute::Index
    } else if spec_is_static_resource_path(path) {
        EmbeddedRoute::Asset
    } else {
        EmbeddedRoute::Index
    }
}

/// Routes one request path for the embedded web assets.
pub fn classify_embedded_path(path: &str) -> (r: EmbeddedRoute)
    ensures
        r == spec_embedded_route(path@),
{
    if path.is_empty() {
        return EmbeddedRoute::Index;
    }
    if str_eq(path, "index.html") {
        return EmbeddedRoute::Index;
    }
    if is_static_resource_path(path) {
        EmbeddedRoute::Asset
    } else {
        EmbeddedRoute::Index
    }
}

} // verus!
