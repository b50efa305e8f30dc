//! Parsing of `s3://bucket[/key]` URLs and classification of path
//! arguments into store URLs and local paths.

use vstd::prelude::*;

use crate::error::Error;
use crate::strutil::{concat3, starts_with, suffix_from};

verus! {

/// Characters a bucket name may consist of: anything but `:`, `/` and
/// whitespace.
pub open spec fn is_bucket_char(c: char) -> bool {
    c != ':' && c != '/' && c != ' ' && c != '\t' && c != '\n' && c != '\r' && c != '\u{b}'
        && c != '\u{c}'
}

/// The length of the leading run of bucket characters.
pub open spec fn spec_bucket_run(s: Seq<char>) -> int
    decreases s.len(),
{
    if s.len() == 0 || !is_bucket_char(s[0]) {
        0
    } else {
        1 + spec_bucket_run(s.skip(1))
    }
}

/// The url scheme prefix.
pub open spec fn spec_s3_scheme() -> Seq<char> {
    seq!['s', '3', ':', '/', '/']
}

/// The bucket and key parsed from an `s3://` URL: after the scheme, the
/// bucket is the maximal non-empty run of bucket characters, and the key
/// is the remainder with one leading `/` dropped.
pub open spec fn spec_parse_s3_url(u: Seq<char>) -> Option<(Seq<char>, Seq<char>)> {
    if u.len() >= 5 && u.subrange(0, 5) == spec_s3_scheme() {
        let rest = u.skip(5);
        let blen = spec_bucket_run(rest);
        if blen > 0 {
            let tail = rest.skip(blen);
            let key = if tail.len() > 0 && tail[0] == '/' {
                tail.skip(1)
            } else {
                tail
            };
            Some((rest.take(blen), key))
        } else {
            None
        }
    } else {
        None
    }
}

/// The leading bucket run is the unique cut at a non-bucket character.
proof fn lemma_bucket_run_is(s: Seq<char>, j: int)
    requires
        0 <= j <= s.len(),
        forall|k: int| 0 <= k < j ==> is_bucket_char(s[k]),
        j == s.len() || !is_bucket_char(s[j]),
    ensures
        spec_bucket_run(s) == j,
    decreases j,
{
    if j == 0 {
    } else {
        assert(is_bucket_char(s[0]));
        assert forall|k: int| 0 <= k < j - 1 implies is_bucket_char(s.skip(1)[k]) by {
            assert(s.skip(1)[k] == s[k + 1]);
        }
        if j - 1 < s.skip(1).len() {
            assert(s.skip(1)[j - 1] == s[j]);
        }
        lemma_bucket_run_is(s.skip(1), j - 1);
    }
}

/// A parsed store URL.
#[derive(Debug, Clone)]
pub struct S3Url {
    bucket: String,
    key: String,
}

/// A path argument: a store URL or a local file-system path.
#[derive(Debug, Clone)]
pub enum SPath {
    S3(S3Url),
    File(String),
}

impl S3Url {
    /// The bucket name.
    pub fn bucket(&self) -> (r: &str)
        ensures
            r@ == self@.0,
    {
        self.bucket.as_str()
    }

    /// The key, without its leading slash.
    pub fn key(&self) -> (r: &str)
        ensures
            r@ == self@.1,
    {
        self.key.as_str()
    }

    /// The bucket and key as the URL presented them.
    pub closed spec fn view(&self) -> (Seq<char>, Seq<char>) {
        (self.bucket@, self.key@)
    }

    /// Parse an `s3://bucket[/key]` URL. Fails exactly when the scheme is
    /// missing or the bucket name is empty.
    pub fn from_url(url: &str) -> (r: Result<S3Url, Error>)
        ensures
            (r is Ok) == (spec_parse_s3_url(url@) is Some),
            r matches Ok(s3) ==> spec_parse_s3_url(url@) == Some(s3@),
            r matches Err(e) ==> e matches Error::NotValidS3Url(u) && u@ == url@,
    {
        proof {
            reveal_strlit("s3://");
            assert("s3://"@ =~= spec_s3_scheme());
        }
        let n = url.unicode_len();
        if !starts_with(url, "s3://") {
            proof {
                if url@.len() >= 5 {
                    assert(spec_s3_scheme().is_prefix_of(url@) == (url@.subrange(0, 5)
                        == spec_s3_scheme()));
                }
            }
            return Err(Error::NotValidS3Url(String::from_str(url)));
        }
        let ghost rest = url@.skip(5);
        let mut j: usize = 5;
        while j < n && bucket_char(url.get_char(j))
            invariant
                5 <= j <= n,
                n == url@.len(),
                forall|k: int| 5 <= k < j ==> is_bucket_char(url@[k]),
            decreases n - j,
        {
            j = j + 1;
        }
        proof {
            assert forall|k: int| 0 <= k < j - 5 implies is_bucket_char(rest[k]) by {
                assert(rest[k] == url@[k + 5]);
            }
            if j < n {
                assert(rest[j - 5] == url@[j as int]);
            }
            lemma_bucket_run_is(rest, j - 5);
        }
        if j == 5 {
            return Err(Error::NotValidS3Url(String::from_str(url)));
        }
        let bucket = String::from_str(url.substring_char(5, j));
        proof {
            assert(bucket@ =~= rest.take(j - 5));
        }
        let key = if j < n && url.get_char(j) == '/' {
            let k = suffix_from(url, j + 1);
            proof {
                assert(rest.skip(j - 5)[0] == url@[j as int]);
                assert(k@ =~= rest.skip(j - 5).skip(1));
            }
            k
        } else {
            let k = suffix_from(url, j);
            proof {
                if rest.skip(j - 5).len() > 0 {
                    assert(rest.skip(j - 5)[0] == url@[j as int]);
                }
                assert(k@ =~= rest.skip(j - 5));
            }
            k
        };
        Ok(S3Url { bucket, key })
    }
}

/// Whether the character may appear in a bucket name.
fn bucket_char(c: char) -> (r: bool)
    ensures
        r == is_bucket_char(c),
{
    c != ':' && c != '/' && c != ' ' && c != '\t' && c != '\n' && c != '\r' && c != '\u{b}'
        && c != '\u{c}'
}

impl SPath {
    /// Classify a path argument: text with the store scheme parses as a
    /// store URL, anything else stands for a local path.
    pub fn from_str(path: &str) -> (r: Result<SPath, Error>)
        ensures
            match r {
                Ok(SPath::S3(s3)) => spec_s3_scheme().is_prefix_of(path@) && spec_parse_s3_url(
                    path@,
                ) == Some(s3@),
                Ok(SPath::File(f)) => !spec_s3_scheme().is_prefix_of(path@) && f@ == path@,
                Err(e) => spec_s3_scheme().is_prefix_of(path@) && spec_parse_s3_url(path@) is None
                    && (e matches Error::NotValidS3Url(u) && u@ == path@),
            },
    {
        proof {
            reveal_strlit("s3://");
            assert("s3://"@ =~= spec_s3_scheme());
        }
        if starts_with(path, "s3://") {
            match S3Url::from_url(path) {
                Ok(s3) => Ok(SPath::S3(s3)),
                Err(e) => Err(e),
            }
        } else {
            Ok(SPath::File(String::from_str(path)))
        }
    }
}

/// The printable `s3://bucket/key` form of a location.
pub fn s3_url_of(bucket: &str, key: &str) -> (r: String)
    ensures
        r@ == spec_s3_scheme() + bucket@ + seq!['/'] + key@,
{
    proof {
        reveal_strlit("s3://");
        reveal_strlit("/");
        assert("s3://"@ =~= spec_s3_scheme());
        assert("/"@ =~= seq!['/']);
    }
    let r = concat3(bucket, "/", key);
    let out = crate::strutil::concat_str("s3://", r.as_str());
    proof {
        assert(out@ =~= spec_s3_scheme() + bucket@ + seq!['/'] + key@);
    }
    out
}

} // verus!
