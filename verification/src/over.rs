//! The overwrite policy: whether a copy may proceed onto its destination.
//!
//! The existence probe against the store, the fallback item fetch, and the
//! reading of local file bytes are performed by the caller; the decisions
//! here are verified for every outcome those can produce.

use vstd::prelude::*;

use crate::error::Error;
use crate::sitem::{spec_find_item, SItem, SItemsCache};

verus! {

/// The overwrite policy modes of a copy.
#[derive(Debug, Clone, Copy, PartialEq, Eq, Structural)]
pub enum OverMode {
    /// Overwrite no matter what.
    Write,
    /// Skip destinations that already exist.
    Skip,
    /// Skip destinations whose content is already identical (uploads only).
    Etag,
    /// Fail on destinations that already exist.
    Fail,
}

impl Default for OverMode {
    /// Skipping existing destinations is the default policy.
    fn default() -> (r: OverMode)
        ensures
            r == OverMode::Skip,
    {
        OverMode::Skip
    }
}

impl OverMode {
    /// The label shown when a skip is reported.
    pub fn label(&self) -> (r: &'static str)
        ensures
            self is Write ==> r@ == "Write"@,
            self is Skip ==> r@ == "Exists"@,
            self is Etag ==> r@ == "Etag"@,
            self is Fail ==> r@ == "Fail"@,
    {
        match self {
            OverMode::Write => "Write",
            OverMode::Skip => "Exists",
            OverMode::Etag => "Etag",
            OverMode::Fail => "Fail",
        }
    }
}

/// The mode a command-line argument selects: absent means the default,
/// and an unknown word selects nothing.
pub fn over_mode_from_arg(arg: Option<&str>) -> (r: Option<OverMode>)
    ensures
        arg is None ==> r == Some(OverMode::Skip),
        arg matches Some(s) ==> r == (if s@ == "write"@ {
            Some(OverMode::Write)
        } else if s@ == "skip"@ {
            Some(OverMode::Skip)
        } else if s@ == "etag"@ {
            Some(OverMode::Etag)
        } else if s@ == "fail"@ {
            Some(OverMode::Fail)
        } else {
            None
        }),
{
    match arg {
        None => Some(OverMode::Skip),
        Some(s) => {
            if crate::strutil::str_eq(s, "write") {
                Some(OverMode::Write)
            } else if crate::strutil::str_eq(s, "skip") {
                Some(OverMode::Skip)
            } else if crate::strutil::str_eq(s, "etag") {
                Some(OverMode::Etag)
            } else if crate::strutil::str_eq(s, "fail") {
                Some(OverMode::Fail)
            } else {
                None
            }
        },
    }
}

/// The lowercase hex MD5 digest of the bytes; a function of the bytes
/// alone, 32 hex characters.
pub uninterp spec fn md5_hex_of(bytes: Seq<u8>) -> Seq<char>;

/// Relies on md5::compute: the whole-file digest used as the single-part
/// etag, printed as 16 bytes of lowercase hex.
#[verifier::external_body]
pub fn md5_hex(bytes: &[u8]) -> (r: String)
    ensures
        r@ == md5_hex_of(bytes@),
        r@.len() == 32,
{
    let digest = md5::compute(bytes);
    format!("{:x}", digest)
}

/// Content identity as Etag mode defines it: the destination has a
/// non-empty etag, the local digest could be computed, and the two are
/// equal.
pub open spec fn spec_same_etag(
    remote_etag: Option<Seq<char>>,
    local_md5: Option<Seq<char>>,
) -> bool {
    &&& remote_etag matches Some(e) && e.len() > 0
    &&& local_md5 matches Some(m) && m == remote_etag->0
}

/// The etag of the item the Etag probe settles on: the snapshot's entry
/// for the key when it has one, else whatever single fetch the caller made.
pub open spec fn spec_probe_etag(
    cached: Option<SItem>,
    fetched: Option<SItem>,
) -> Option<Seq<char>> {
    let item = if cached is Some {
        cached
    } else {
        fetched
    };
    match item {
        Some(it) => match it.etag {
            Some(e) => Some(e@),
            None => None,
        },
        None => None,
    }
}

/// Whether the destination already holds content identical to the local
/// file: the snapshot's item for `key` — or, when the snapshot misses, the
/// item the caller fetched — carries a non-empty etag equal to the local
/// digest.
pub fn check_has_and_same_etags(
    cache: Option<&SItemsCache>,
    fetched: Option<&SItem>,
    key: &str,
    local_md5: &Option<String>,
) -> (r: bool)
    ensures
        r == ({
            let cached = match cache {
                Some(c) => spec_find_item(c.items@, key@),
                None => None,
            };
            let fetched_item = match fetched {
                Some(it) => Some(*it),
                None => None,
            };
            spec_same_etag(
                spec_probe_etag(cached, fetched_item),
                match local_md5 {
                    Some(m) => Some(m@),
                    None => None,
                },
            )
        }),
{
    let cached = match cache {
        Some(c) => c.get(key),
        None => None,
    };
    let item = match cached {
        Some(it) => Some(it),
        None => fetched,
    };
    let remote_etag = match item {
        Some(it) => match &it.etag {
            Some(e) => Some(e),
            None => None,
        },
        None => None,
    };
    match (remote_etag, local_md5) {
        (Some(e), Some(m)) => e.as_str().unicode_len() > 0 && crate::strutil::str_eq(
            e.as_str(),
            m.as_str(),
        ),
        _ => false,
    }
}

/// Whether the policy lets an upload proceed onto `s3_url`.
///
/// `exists` is the store existence probe's answer, needed by Skip and
/// Fail; `same_etag` is the content-identity answer, needed by Etag.
pub fn validate_over_for_s3_dest(
    s3_url: &str,
    over: &OverMode,
    exists: Option<bool>,
    same_etag: Option<bool>,
) -> (r: Result<bool, Error>)
    requires
        over is Skip || over is Fail ==> exists is Some,
        over is Etag ==> same_etag is Some,
    ensures
        over is Write ==> (r matches Ok(b) && b),
        over is Skip ==> (r matches Ok(b) && b == !exists->0),
        over is Etag ==> (r matches Ok(b) && b == !same_etag->0),
        over is Fail && !exists->0 ==> (r matches Ok(b) && b),
        over is Fail && exists->0 ==> (r matches Err(e)
            && e matches Error::ObjectExistsOverFailMode(u) && u@ == s3_url@),
{
    match over {
        OverMode::Write => Ok(true),
        OverMode::Skip => Ok(!exists.unwrap()),
        OverMode::Etag => Ok(!same_etag.unwrap()),
        OverMode::Fail => {
            if exists.unwrap() {
                Err(Error::ObjectExistsOverFailMode(String::from_str(s3_url)))
            } else {
                Ok(true)
            }
        },
    }
}

/// Whether the policy lets a download proceed onto the local `file`.
///
/// Etag mode is not defined for downloads and is excluded outright.
pub fn validate_over_for_file_dest(file: &str, over: &OverMode, exists: bool) -> (r: Result<
    bool,
    Error,
>)
    requires
        !(over is Etag),
    ensures
        over is Write ==> (r matches Ok(b) && b),
        over is Skip ==> (r matches Ok(b) && b == !exists),
        over is Fail && !exists ==> (r matches Ok(b) && b),
        over is Fail && exists ==> (r matches Err(e)
            && e matches Error::FileExistsOverFailMode(u) && u@ == file@),
{
    match over {
        OverMode::Write => Ok(true),
        OverMode::Skip => Ok(!exists),
        OverMode::Etag => Ok(false),
        OverMode::Fail => {
            if exists {
                Err(Error::FileExistsOverFailMode(String::from_str(file)))
            } else {
                Ok(true)
            }
        },
    }
}

/// Whether the mode needs the store existence probe.
pub fn needs_exists_probe(over: &OverMode) -> (r: bool)
    ensures
        r == (over is Skip || over is Fail),
{
    match over {
        OverMode::Skip | OverMode::Fail => true,
        _ => false,
    }
}

/// Whether the mode needs the content-identity probe.
pub fn needs_etag_probe(over: &OverMode) -> (r: bool)
    ensures
        r == (over is Etag),
{
    match over {
        OverMode::Etag => true,
        _ => false,
    }
}

/// Idempotence of Etag uploads: when the destination's snapshot entry for
/// the key carries exactly the local content's digest as its etag, the
/// content-identity check holds, so the Etag decision denies the copy and
/// no further put happens.
pub proof fn lemma_etag_upload_idempotent(
    content: Seq<u8>,
    cached: Option<SItem>,
    fetched: Option<SItem>,
)
    ensures
        (cached matches Some(it) && it.etag matches Some(e) && e@ == md5_hex_of(content)
            && e@.len() > 0) ==> spec_same_etag(
            spec_probe_etag(cached, fetched),
            Some(md5_hex_of(content)),
        ),
{
}

} // verus!
