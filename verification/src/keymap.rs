//! Mapping between local file-system paths and object-store keys.
//!
//! Paths and keys are `/`-separated UTF-8 strings. A path's *file name* is
//! the part after its last `/`; it must be non-empty and neither `.` nor
//! `..` to be usable. A path's *extension* is the part of its file name
//! after the last `.`, provided something precedes that dot.

use vstd::prelude::*;

use crate::error::Error;
use crate::strutil::{
    after_last_slash, concat3, concat_str, find_last, lower_of, lowercase, seq_after,
    spec_after_last_slash, spec_find_last, str_eq, suffix_from,
};

verus! {

/// A name that can serve as a file-name component.
pub open spec fn valid_file_name(n: Seq<char>) -> bool {
    n.len() > 0 && n != seq!['.'] && n != seq!['.', '.']
}

/// The file-name component of `path`, when it has a usable one.
pub open spec fn spec_file_name(path: Seq<char>) -> Option<Seq<char>> {
    let n = spec_after_last_slash(path);
    if valid_file_name(n) {
        Some(n)
    } else {
        None
    }
}

/// The extension of `path`: what follows the last `.` of its file name,
/// provided the name is usable and at least one character precedes the dot.
pub open spec fn spec_extension(path: Seq<char>) -> Option<Seq<char>> {
    let n = spec_after_last_slash(path);
    if valid_file_name(n) {
        match spec_find_last(n, '.') {
            Some(i) => if i > 0 {
                Some(seq_after(n, i))
            } else {
                None
            },
            None => None,
        }
    } else {
        None
    }
}

/// Joining a relative part onto a `/`-separated prefix. An empty prefix
/// contributes nothing; a prefix already ending in `/` gets no second
/// separator.
pub open spec fn spec_join(prefix: Seq<char>, rel: Seq<char>) -> Seq<char> {
    if prefix.len() == 0 {
        rel
    } else if prefix.last() == '/' {
        prefix + rel
    } else {
        prefix + seq!['/'] + rel
    }
}

/// Whether an upload is a rename: the caller allows it and source and
/// destination prefix carry case-insensitively equal extensions.
pub open spec fn spec_rename_only(
    src_file: Seq<char>,
    dst_prefix: Seq<char>,
    renamable: bool,
) -> bool {
    &&& renamable
    &&& spec_extension(src_file) is Some
    &&& spec_extension(dst_prefix) is Some
    &&& lower_of(spec_extension(src_file)->0) == lower_of(spec_extension(dst_prefix)->0)
}

/// The destination key of one uploaded file: the prefix itself on a rename,
/// otherwise the prefix joined with the path of the file relative to the
/// base directory, or with the bare file name when no relative path exists.
/// `None` when the source has no usable file name.
pub open spec fn spec_dst_key(
    base_dir: Option<Seq<char>>,
    src_file: Seq<char>,
    dst_prefix: Seq<char>,
    renamable: bool,
) -> Option<Seq<char>> {
    if spec_file_name(src_file) is None {
        None
    } else if spec_rename_only(src_file, dst_prefix, renamable) {
        Some(dst_prefix)
    } else {
        let rel = match base_dir {
            Some(b) => match rel_path_of(src_file, b) {
                Some(r) => r,
                None => spec_file_name(src_file)->0,
            },
            None => spec_file_name(src_file)->0,
        };
        Some(spec_join(dst_prefix, rel))
    }
}

/// The suffix of `object_key` after `base_key`, with one leading `/`
/// dropped, joined onto `base_dir`.
pub open spec fn spec_dst_path(
    base_key: Seq<char>,
    object_key: Seq<char>,
    base_dir: Seq<char>,
) -> Seq<char> {
    let suffix = object_key.skip(base_key.len() as int);
    let rel = if suffix.len() > 0 && suffix[0] == '/' {
        suffix.skip(1)
    } else {
        suffix
    };
    spec_join(base_dir, rel)
}

/// The view of an optional string argument.
pub open spec fn opt_view(o: Option<&str>) -> Option<Seq<char>> {
    match o {
        Some(s) => Some(s@),
        None => None,
    }
}

/// What a path classifies as for routing decisions. The classification is
/// purely syntactic — a path with an extension counts as a file — because
/// the path may not exist anywhere yet when the decision is needed.
#[derive(Debug, Clone, Copy, PartialEq, Eq, Structural)]
pub enum PathType {
    File,
    Dir,
}

/// Relative path from `base` to `path`, as the path algebra of the
/// `pathdiff` crate defines it; a function of the two paths alone.
pub uninterp spec fn rel_path_of(path: Seq<char>, base: Seq<char>) -> Option<Seq<char>>;

/// Relies on pathdiff::diff_paths for the relative path from `base` to
/// `path`. Both inputs are UTF-8, so the result (built from their
/// components) converts back losslessly.
#[verifier::external_body]
fn diff_path(path: &str, base: &str) -> (r: Option<String>)
    ensures
        match r {
            Some(d) => rel_path_of(path@, base@) == Some(d@),
            None => rel_path_of(path@, base@) is None,
        },
{
    pathdiff::diff_paths(path, base).and_then(|p| p.to_str().map(|s| s.to_string()))
}

/// The file-name component of `path`, or `InvalidPath` when there is none.
pub fn get_file_name(path: &str) -> (r: Result<String, Error>)
    ensures
        (r is Ok) == (spec_file_name(path@) is Some),
        r matches Ok(n) ==> spec_file_name(path@) == Some(n@),
        r matches Err(e) ==> e matches Error::InvalidPath(p) && p@ == path@,
{
    let name = after_last_slash(path);
    proof {
        reveal_strlit(".");
        reveal_strlit("..");
        assert("."@ =~= seq!['.']);
        assert(".."@ =~= seq!['.', '.']);
    }
    if name.as_str().unicode_len() == 0 || str_eq(name.as_str(), ".") || str_eq(
        name.as_str(),
        "..",
    ) {
        Err(Error::InvalidPath(String::from_str(path)))
    } else {
        Ok(name)
    }
}

/// The extension of `path`, when its file name has one.
pub fn extension_of(path: &str) -> (r: Option<String>)
    ensures
        (r is Some) == (spec_extension(path@) is Some),
        r matches Some(e) ==> spec_extension(path@) == Some(e@),
{
    let name = match get_file_name(path) {
        Ok(n) => n,
        Err(_) => {
            return None;
        },
    };
    match find_last(name.as_str(), '.') {
        Some(i) => {
            if i > 0 {
                Some(suffix_from(name.as_str(), i + 1))
            } else {
                None
            }
        },
        None => None,
    }
}

/// Syntactic file/directory classification of a path or key.
pub fn path_type(path: &str) -> (r: PathType)
    ensures
        r == (if spec_extension(path@) is Some {
            PathType::File
        } else {
            PathType::Dir
        }),
{
    match extension_of(path) {
        Some(_) => PathType::File,
        None => PathType::Dir,
    }
}

/// `prefix` and `rel` joined with `/`-separated semantics.
pub fn join_key(prefix: &str, rel: &str) -> (r: String)
    ensures
        r@ == spec_join(prefix@, rel@),
{
    let n = prefix.unicode_len();
    proof {
        reveal_strlit("/");
        assert("/"@ =~= seq!['/']);
    }
    if n == 0 {
        String::from_str(rel)
    } else if prefix.get_char(n - 1) == '/' {
        concat_str(prefix, rel)
    } else {
        concat3(prefix, "/", rel)
    }
}

/// Case-insensitive equality of two extensions.
fn exts_match_ci(a: &str, b: &str) -> (r: bool)
    ensures
        r == (lower_of(a@) == lower_of(b@)),
{
    let la = lowercase(a);
    let lb = lowercase(b);
    str_eq(la.as_str(), lb.as_str())
}

/// The destination key for uploading `src_file` under `dst_prefix`.
///
/// With `renamable` set and matching extensions the prefix *is* the key (a
/// rename); otherwise the file's path relative to `base_dir` — or its bare
/// file name when `base_dir` is absent or unrelated — is joined onto the
/// prefix. Fails exactly when `src_file` has no usable file name.
pub fn compute_dst_key(
    base_dir: Option<&str>,
    src_file: &str,
    dst_prefix: &str,
    renamable: bool,
) -> (r: Result<String, Error>)
    ensures
        (r is Ok) == (spec_file_name(src_file@) is Some),
        r matches Ok(k) ==> spec_dst_key(opt_view(base_dir), src_file@, dst_prefix@, renamable)
            == Some(k@),
        r matches Err(e) ==> e matches Error::InvalidPath(p) && p@ == src_file@,
{
    let name = match get_file_name(src_file) {
        Ok(n) => n,
        Err(e) => {
            return Err(e);
        },
    };
    let rename_only = if renamable {
        let se = extension_of(src_file);
        let de = extension_of(dst_prefix);
        match (se, de) {
            (Some(a), Some(b)) => exts_match_ci(a.as_str(), b.as_str()),
            _ => false,
        }
    } else {
        false
    };
    if rename_only {
        Ok(String::from_str(dst_prefix))
    } else {
        let rel = match base_dir {
            Some(b) => diff_path(src_file, b),
            None => None,
        };
        let rel = match rel {
            Some(d) => d,
            None => name,
        };
        Ok(join_key(dst_prefix, rel.as_str()))
    }
}

/// The directory part of a path: everything before its last `/`, or
/// nothing when the path has no `/`.
pub open spec fn spec_parent_dir(path: Seq<char>) -> Option<Seq<char>> {
    match spec_find_last(path, '/') {
        Some(i) => Some(path.take(i)),
        None => None,
    }
}

/// The parent directory of `path`, when the path has one.
pub fn parent_dir(path: &str) -> (r: Option<String>)
    ensures
        match r {
            Some(d) => spec_parent_dir(path@) == Some(d@),
            None => spec_parent_dir(path@) is None,
        },
{
    match find_last(path, '/') {
        Some(i) => {
            let d = String::from_str(path.substring_char(0, i));
            proof {
                assert(d@ =~= path@.take(spec_find_last(path@, '/')->0));
            }
            Some(d)
        },
        None => None,
    }
}

/// Rename detection: when renaming is allowed and source and destination
/// prefix carry case-insensitively equal extensions, the destination prefix
/// itself is the destination key — the file is not placed under it.
pub proof fn lemma_rename_detection(
    base_dir: Option<Seq<char>>,
    src_file: Seq<char>,
    dst_prefix: Seq<char>,
)
    requires
        spec_extension(src_file) is Some,
        spec_extension(dst_prefix) is Some,
        lower_of(spec_extension(src_file)->0) == lower_of(spec_extension(dst_prefix)->0),
    ensures
        spec_dst_key(base_dir, src_file, dst_prefix, true) == Some(dst_prefix),
{
}

/// Round trip: a key computed for an upload without a base directory is the
/// prefix joined with the file's name, and mapping that key back under the
/// same prefix lands on the file's name under the download directory.
pub proof fn lemma_upload_download_round_trip(
    src_file: Seq<char>,
    prefix: Seq<char>,
    base_dir: Seq<char>,
)
    requires
        spec_file_name(src_file) is Some,
        prefix.len() > 0,
        prefix.last() != '/',
    ensures
        spec_dst_key(None, src_file, prefix, false) matches Some(key) && prefix.is_prefix_of(key)
            && spec_dst_path(prefix, key, base_dir) == spec_join(
            base_dir,
            spec_file_name(src_file)->0,
        ),
{
    let n = spec_file_name(src_file)->0;
    let key = spec_join(prefix, n);
    assert(spec_dst_key(None, src_file, prefix, false) == Some(key));
    assert(key == prefix + seq!['/'] + n);
    assert(key.subrange(0, prefix.len() as int) =~= prefix);
    let suffix = key.skip(prefix.len() as int);
    assert(suffix =~= seq!['/'] + n);
    assert(suffix[0] == '/');
    assert(suffix.skip(1) =~= n);
}

/// The local destination path for downloading `object_key`, which the
/// caller already knows to lie under `base_key`, into `base_dir`.
pub fn compute_dst_path(base_key: &str, object_key: &str, base_dir: &str) -> (r: String)
    requires
        base_key@.is_prefix_of(object_key@),
    ensures
        r@ == spec_dst_path(base_key@, object_key@, base_dir@),
{
    let bn = base_key.unicode_len();
    let suffix = suffix_from(object_key, bn);
    proof {
        reveal_strlit("/");
        assert("/"@ =~= seq!['/']);
    }
    let sn = suffix.as_str().unicode_len();
    let rel = if sn > 0 && suffix.as_str().get_char(0) == '/' {
        suffix_from(suffix.as_str(), 1)
    } else {
        suffix
    };
    join_key(base_dir, rel.as_str())
}

} // verus!
