//! The copy orchestrator's decision core.
//!
//! The caller walks the local tree, performs the store requests, and reads
//! or writes file bytes; every branching decision of the copy — routing,
//! ignore list, include/exclude rules, overwrite policy, content type, and
//! the prefix-by-prefix walk of a remote tree — is taken here, verified
//! for every outcome the outside work can produce.

use vstd::prelude::*;

use crate::error::Error;
use crate::filter::{compute_inex, spec_inex, spec_matches, Inex};
use crate::keymap::{path_type, spec_extension, spec_file_name, PathType};
use crate::over::OverMode;
use crate::sitem::SItem;
use crate::strutil::{after_last_slash, contains_name, spec_after_last_slash, spec_name_in};

verus! {

/// Options of one copy invocation.
pub struct CpOptions {
    pub recursive: bool,
    pub excludes: Option<globset::GlobSet>,
    pub includes: Option<globset::GlobSet>,
    pub over: OverMode,
    pub show_skip: bool,
    /// Content type for files without an extension.
    pub noext_ct: Option<String>,
}

impl Default for CpOptions {
    /// A non-recursive copy, unfiltered, skipping existing destinations.
    fn default() -> (r: CpOptions)
        ensures
            !r.recursive,
            r.excludes is None,
            r.includes is None,
            r.over == OverMode::Skip,
            !r.show_skip,
            r.noext_ct is None,
    {
        CpOptions {
            recursive: false,
            excludes: None,
            includes: None,
            over: OverMode::Skip,
            show_skip: false,
            noext_ct: None,
        }
    }
}

/// Per-bucket configuration of upload behaviour.
pub struct SBucketConfig {
    /// File names an upload passes over by default.
    pub default_ignore_upload_names: Option<Vec<String>>,
}

/// The built-in upload ignore list: OS metadata files nobody means to
/// upload.
pub fn default_upload_ignore_names() -> (r: Vec<String>)
    ensures
        r@.len() == 1,
        r@[0]@ == ".DS_Store"@,
{
    let mut names: Vec<String> = Vec::new();
    names.push(String::from_str(".DS_Store"));
    names
}

/// The content type a file resolves to; what `mime_guess` derives from a
/// path is a function of the path alone.
pub uninterp spec fn mime_of(path: Seq<char>) -> Seq<char>;

/// Relies on mime_guess::from_path: the type guessed from the path's
/// extension, with `application/octet-stream` as its fallback.
#[verifier::external_body]
fn guess_mime(path: &str) -> (r: String)
    ensures
        r@ == mime_of(path@),
{
    mime_guess::from_path(path).first_or_octet_stream().to_string()
}

/// The content type an upload is tagged with: the configured override for
/// an extensionless file, otherwise the type guessed from the path.
pub open spec fn spec_content_type(src_file: Seq<char>, noext_ct: Option<Seq<char>>) -> Seq<char> {
    if noext_ct is Some && spec_extension(src_file) is None {
        noext_ct->0
    } else {
        mime_of(src_file)
    }
}

/// Resolve the content type for uploading `src_file`.
pub fn content_type_for(src_file: &str, noext_ct: &Option<String>) -> (r: String)
    ensures
        r@ == spec_content_type(
            src_file@,
            match noext_ct {
                Some(ct) => Some(ct@),
                None => None,
            },
        ),
{
    match (noext_ct, crate::keymap::extension_of(src_file)) {
        (Some(ct), None) => ct.clone(),
        _ => guess_mime(src_file),
    }
}

/// What the single-file upload procedure decides for one file.
#[derive(Debug)]
pub enum UploadAction {
    /// The file name is on the default ignore list; nothing happens.
    SkipDefaultIgnore,
    /// An exclude pattern matched; reported, nothing uploaded.
    Excluded,
    /// The include rule was not matched; silently dropped.
    SilentSkip,
    /// The overwrite policy denied the copy.
    SkipOver,
    /// Upload, tagged with this content type.
    Put { content_type: String },
}

/// How a file or directory upload routes.
#[derive(Debug)]
pub enum UploadRoute {
    /// One file, uploaded under a key computed with renaming allowed.
    SingleFile,
    /// A directory walk down to this depth.
    DirWalk { max_depth: usize },
}

/// Route an upload source: a file uploads alone, a directory walks one
/// level or without bound, and anything else is a missing path.
pub fn upload_route(src_path: &str, is_file: bool, is_dir: bool, recursive: bool) -> (r: Result<
    UploadRoute,
    Error,
>)
    ensures
        is_file ==> r matches Ok(UploadRoute::SingleFile),
        !is_file && is_dir ==> (r matches Ok(UploadRoute::DirWalk { max_depth }) && max_depth == (
        if recursive {
            usize::MAX
        } else {
            1usize
        })),
        !is_file && !is_dir ==> (r matches Err(e) && e matches Error::FilePathNotFound(p) && p@
            == src_path@),
{
    if is_file {
        Ok(UploadRoute::SingleFile)
    } else if is_dir {
        Ok(UploadRoute::DirWalk { max_depth: if recursive { usize::MAX } else { 1 } })
    } else {
        Err(Error::FilePathNotFound(String::from_str(src_path)))
    }
}

/// Whether this upload wants the destination listing snapshot fetched
/// before the walk: only a directory walk in Etag mode does.
pub fn needs_sitems_cache(over: &OverMode, is_dir: bool) -> (r: bool)
    ensures
        r == (over is Etag && is_dir),
{
    match over {
        OverMode::Etag => is_dir,
        _ => false,
    }
}

/// Decide what to do with one file of an upload.
///
/// `ignore_names` is the configured default ignore list, matched against
/// the file's name; `exists` and `same_etag` are the policy probes the
/// mode needs. The decision follows the single-file upload procedure:
/// ignore list first, then the include/exclude rules, then the overwrite
/// policy, and only a permitted file becomes a put, tagged with its
/// resolved content type.
pub fn plan_upload_file(
    src_file: &str,
    key: &str,
    s3_url: &str,
    opts: &CpOptions,
    ignore_names: &Option<Vec<String>>,
    exists: Option<bool>,
    same_etag: Option<bool>,
) -> (r: Result<UploadAction, Error>)
    requires
        opts.over is Skip || opts.over is Fail ==> exists is Some,
        opts.over is Etag ==> same_etag is Some,
    ensures
        ({
            let ignored = match ignore_names {
                Some(names) => spec_name_in(names@, spec_after_last_slash(src_file@)),
                None => false,
            };
            let rules = spec_inex(
                spec_matches(opts.includes, key@),
                spec_matches(opts.excludes, key@),
            );
            &&& ignored ==> (r matches Ok(a) && a is SkipDefaultIgnore)
            &&& !ignored && rules is ExcludeInExclude ==> (r matches Ok(a) && a is Excluded)
            &&& !ignored && rules is ExcludeNotInInclude ==> (r matches Ok(a) && a is SilentSkip)
            &&& !ignored && rules is Include && opts.over is Write ==> (r matches Ok(a)
                && a matches UploadAction::Put { content_type } && content_type@
                == spec_content_type(
                src_file@,
                match opts.noext_ct {
                    Some(ct) => Some(ct@),
                    None => None,
                },
            ))
            &&& !ignored && rules is Include && opts.over is Skip ==> (if exists->0 {
                r matches Ok(a) && a is SkipOver
            } else {
                r matches Ok(a) && a is Put
            })
            &&& !ignored && rules is Include && opts.over is Etag ==> (if same_etag->0 {
                r matches Ok(a) && a is SkipOver
            } else {
                r matches Ok(a) && a is Put
            })
            &&& !ignored && rules is Include && opts.over is Fail && exists->0 ==> (r matches Err(e)
                && e matches Error::ObjectExistsOverFailMode(u) && u@ == s3_url@)
            &&& !ignored && rules is Include && opts.over is Fail && !exists->0 ==> (r matches Ok(a)
                && a is Put)
        }),
{
    let file_name = after_last_slash(src_file);
    let ignored = match ignore_names {
        Some(names) => contains_name(names, file_name.as_str()),
        None => false,
    };
    if ignored {
        return Ok(UploadAction::SkipDefaultIgnore);
    }
    match compute_inex(key, &opts.includes, &opts.excludes) {
        Inex::ExcludeInExclude => Ok(UploadAction::Excluded),
        Inex::ExcludeNotInInclude => Ok(UploadAction::SilentSkip),
        Inex::Include => {
            let allowed = match crate::over::validate_over_for_s3_dest(
                s3_url,
                &opts.over,
                exists,
                same_etag,
            ) {
                Ok(b) => b,
                Err(e) => {
                    return Err(e);
                },
            };
            if allowed {
                Ok(UploadAction::Put { content_type: content_type_for(src_file, &opts.noext_ct) })
            } else {
                Ok(UploadAction::SkipOver)
            }
        },
    }
}

/// What the single-file download procedure decides for one key.
#[derive(Debug)]
pub enum DownloadAction {
    /// An exclude pattern matched; reported, nothing downloaded.
    Excluded,
    /// The include rule was not matched; silently dropped.
    SilentSkip,
    /// The overwrite policy denied the copy.
    SkipOver,
    /// Stream the object into the destination file.
    Get,
}

/// Decide what to do with one key of a download. `dst_exists` is the
/// file-system existence check of the destination file.
pub fn plan_download_file(
    key: &str,
    dst_file: &str,
    opts: &CpOptions,
    dst_exists: bool,
) -> (r: Result<DownloadAction, Error>)
    requires
        !(opts.over is Etag),
    ensures
        ({
            let rules = spec_inex(
                spec_matches(opts.includes, key@),
                spec_matches(opts.excludes, key@),
            );
            &&& rules is ExcludeInExclude ==> (r matches Ok(a) && a is Excluded)
            &&& rules is ExcludeNotInInclude ==> (r matches Ok(a) && a is SilentSkip)
            &&& rules is Include && opts.over is Write ==> (r matches Ok(a) && a is Get)
            &&& rules is Include && opts.over is Skip ==> (if dst_exists {
                r matches Ok(a) && a is SkipOver
            } else {
                r matches Ok(a) && a is Get
            })
            &&& rules is Include && opts.over is Fail && dst_exists ==> (r matches Err(e)
                && e matches Error::FileExistsOverFailMode(u) && u@ == dst_file@)
            &&& rules is Include && opts.over is Fail && !dst_exists ==> (r matches Ok(a)
                && a is Get)
        }),
{
    match compute_inex(key, &opts.includes, &opts.excludes) {
        Inex::ExcludeInExclude => Ok(DownloadAction::Excluded),
        Inex::ExcludeNotInInclude => Ok(DownloadAction::SilentSkip),
        Inex::Include => {
            let allowed = match crate::over::validate_over_for_file_dest(
                dst_file,
                &opts.over,
                dst_exists,
            ) {
                Ok(b) => b,
                Err(e) => {
                    return Err(e);
                },
            };
            if allowed {
                Ok(DownloadAction::Get)
            } else {
                Ok(DownloadAction::SkipOver)
            }
        },
    }
}

/// How a download routes, by the syntactic shapes of key and destination.
#[derive(Debug)]
pub enum DownloadRoute {
    /// One object into this concrete file path.
    SingleFile { dst_file: String },
    /// A prefix tree into a directory, walked prefix by prefix.
    WalkTree,
}

/// Route a download: a file-shaped key lands in the destination file, or
/// under a directory-shaped destination by its file name; a
/// directory-shaped key walks into a directory and cannot become a single
/// file.
pub fn download_route(base_key: &str, dst_path: &str) -> (r: Result<DownloadRoute, Error>)
    ensures
        spec_extension(base_key@) is Some && spec_extension(dst_path@) is Some ==> (r matches Ok(
            DownloadRoute::SingleFile { dst_file },
        ) && dst_file@ == dst_path@),
        spec_extension(base_key@) is Some && spec_extension(dst_path@) is None ==> (r matches Ok(
            DownloadRoute::SingleFile { dst_file },
        ) && dst_file@ == crate::keymap::spec_join(dst_path@, spec_file_name(base_key@)->0)),
        spec_extension(base_key@) is None && spec_extension(dst_path@) is None ==> (r matches Ok(
            DownloadRoute::WalkTree,
        )),
        spec_extension(base_key@) is None && spec_extension(dst_path@) is Some ==> (r matches Err(
            e,
        ) && e matches Error::NotSupported(m) && m@ == "S3 Dir to Path File"@),
{
    match (path_type(base_key), path_type(dst_path)) {
        (PathType::File, PathType::File) => Ok(
            DownloadRoute::SingleFile { dst_file: String::from_str(dst_path) },
        ),
        (PathType::File, PathType::Dir) => {
            let name = match crate::keymap::get_file_name(base_key) {
                Ok(n) => n,
                Err(e) => {
                    return Err(e);
                },
            };
            Ok(
                DownloadRoute::SingleFile {
                    dst_file: crate::keymap::join_key(dst_path, name.as_str()),
                },
            )
        },
        (PathType::Dir, PathType::Dir) => Ok(DownloadRoute::WalkTree),
        (PathType::Dir, PathType::File) => Err(
            Error::NotSupported(String::from_str("S3 Dir to Path File")),
        ),
    }
}

/// One listing request the walk asks for next.
pub struct ListCall {
    pub prefix: String,
    pub token: Option<String>,
}

/// The prefix-by-prefix walk of a remote tree.
///
/// A FIFO queue holds the prefixes still to visit; the front one is paged
/// through with the store's continuation tokens, and, on a recursive walk,
/// every sub-prefix a page returns joins the back of the queue. Requests
/// and answers strictly alternate.
pub struct DownloadWalk {
    /// Prefixes still to visit, front first.
    pub queue: Vec<String>,
    /// The prefix whose pages are being fetched.
    pub current: Option<String>,
    /// The continuation token for the next page of `current`.
    pub token: Option<String>,
    /// A request is outstanding: `next_request` was answered and the
    /// page has not come back yet.
    pub awaiting: bool,
    /// Whether sub-prefixes are enqueued.
    pub recursive: bool,
}

impl DownloadWalk {
    /// A walk of everything under `base_key`.
    pub fn new(base_key: &str, recursive: bool) -> (r: DownloadWalk)
        ensures
            r.queue@.len() == 1,
            r.queue@[0]@ == base_key@,
            r.current is None,
            r.token is None,
            !r.awaiting,
            r.recursive == recursive,
    {
        let mut queue: Vec<String> = Vec::new();
        queue.push(String::from_str(base_key));
        DownloadWalk { queue, current: None, token: None, awaiting: false, recursive }
    }

    /// The next listing request: the front prefix's next page while a
    /// continuation token is pending, else the first page of the next
    /// queued prefix; nothing when the walk is done.
    pub fn next_request(&mut self) -> (r: Option<ListCall>)
        requires
            !old(self).awaiting,
        ensures
            final(self).recursive == old(self).recursive,
            old(self).current is Some && old(self).token is Some ==> ({
                &&& r matches Some(call)
                &&& call.prefix@ == old(self).current->0@
                &&& call.token == old(self).token
                &&& final(self).queue == old(self).queue
                &&& final(self).current == old(self).current
                &&& final(self).token == old(self).token
                &&& final(self).awaiting
            }),
            (old(self).current is None || old(self).token is None) && old(self).queue@.len() > 0
                ==> ({
                &&& r matches Some(call)
                &&& call.prefix@ == old(self).queue@[0]@
                &&& call.token is None
                &&& final(self).queue@ == old(self).queue@.skip(1)
                &&& final(self).current matches Some(c)
                &&& final(self).current->0@ == old(self).queue@[0]@
                &&& final(self).token is None
                &&& final(self).awaiting
            }),
            (old(self).current is None || old(self).token is None) && old(self).queue@.len() == 0
                ==> ({
                &&& r is None
                &&& final(self).queue == old(self).queue
                &&& final(self).current == old(self).current
                &&& final(self).token == old(self).token
                &&& !final(self).awaiting
            }),
    {
        let has_token = self.current.is_some() && self.token.is_some();
        if has_token {
            let prefix = match &self.current {
                Some(c) => c.clone(),
                None => String::new(),
            };
            let token = match &self.token {
                Some(t) => Some(t.clone()),
                None => None,
            };
            self.awaiting = true;
            Some(ListCall { prefix, token })
        } else if self.queue.len() > 0 {
            let next = self.queue.remove(0);
            let prefix = next.clone();
            self.current = Some(next);
            self.token = None;
            self.awaiting = true;
            Some(ListCall { prefix, token: None })
        } else {
            None
        }
    }

    /// Feed back one page: the continuation token replaces the pending
    /// one, and on a recursive walk the returned sub-prefixes join the
    /// back of the queue in their listed order.
    pub fn on_page(&mut self, prefixes: &Vec<SItem>, next_token: Option<String>)
        requires
            old(self).awaiting,
        ensures
            !final(self).awaiting,
            final(self).recursive == old(self).recursive,
            final(self).current == old(self).current,
            final(self).token == next_token,
            old(self).recursive ==> final(self).queue@.len() == old(self).queue@.len()
                + prefixes@.len(),
            old(self).recursive ==> final(self).queue@.take(old(self).queue@.len() as int) == old(
                self,
            ).queue@,
            old(self).recursive ==> (forall|i: int|
                0 <= i < prefixes@.len() ==> final(self).queue@[old(self).queue@.len() + i]@
                    == prefixes@[i].key@),
            !old(self).recursive ==> final(self).queue == old(self).queue,
    {
        self.token = next_token;
        self.awaiting = false;
        if self.recursive {
            let n = prefixes.len();
            let mut i: usize = 0;
            proof {
                assert(self.queue@.take(old(self).queue@.len() as int) =~= old(self).queue@);
            }
            while i < n
                invariant
                    i <= n,
                    n == prefixes@.len(),
                    self.queue@.len() == old(self).queue@.len() + i,
                    self.queue@.take(old(self).queue@.len() as int) == old(self).queue@,
                    forall|k: int|
                        0 <= k < i ==> self.queue@[old(self).queue@.len() + k]@
                            == prefixes@[k].key@,
                    self.current == old(self).current,
                    self.token == next_token,
                    self.awaiting == false,
                    self.recursive == old(self).recursive,
                decreases n - i,
            {
                self.queue.push(prefixes[i].key.clone());
                proof {
                    assert(self.queue@.take(old(self).queue@.len() as int) =~= old(self).queue@);
                }
                i = i + 1;
            }
        }
    }
}

/// The set of directories already known to exist, so one download run
/// creates each parent directory once.
pub struct DirSet {
    pub dirs: Vec<String>,
}

impl DirSet {
    /// An empty set.
    pub fn new() -> (r: DirSet)
        ensures
            r.dirs@ =~= Seq::<String>::empty(),
    {
        DirSet { dirs: Vec::new() }
    }

    /// Whether the directory is already in the set.
    pub fn contains(&self, dir: &str) -> (r: bool)
        ensures
            r == spec_name_in(self.dirs@, dir@),
    {
        contains_name(&self.dirs, dir)
    }

    /// Record the directory; already-present entries are not duplicated.
    pub fn insert(&mut self, dir: String)
        ensures
            final(self).dirs@ == (if spec_name_in(old(self).dirs@, dir@) {
                old(self).dirs@
            } else {
                old(self).dirs@.push(dir)
            }),
    {
        if !contains_name(&self.dirs, dir.as_str()) {
            self.dirs.push(dir);
        }
    }
}

} // verus!
