//! Listed store entries and the point-in-time snapshot used by Etag mode.

use vstd::prelude::*;

use crate::strutil::str_eq;

verus! {

/// Whether a listed entry is an object or a grouped prefix.
#[derive(Debug, Clone, Copy, PartialEq, Eq, Structural)]
pub enum SItemType {
    Object,
    Prefix,
}

/// One listed entry: an object with its size and optional etag, or a
/// prefix standing for one directory level.
#[derive(Debug, Clone)]
pub struct SItem {
    pub typ: SItemType,
    pub key: String,
    pub etag: Option<String>,
    pub size: i64,
}

/// `s` with one surrounding quote character removed from either end.
pub open spec fn spec_strip_quotes(s: Seq<char>) -> Seq<char> {
    let a = if s.len() > 0 && s[0] == '"' {
        s.skip(1)
    } else {
        s
    };
    if a.len() > 0 && a.last() == '"' {
        a.drop_last()
    } else {
        a
    }
}

/// The view of an optional owned string.
pub open spec fn opt_str_view(o: Option<String>) -> Option<Seq<char>> {
    match o {
        Some(s) => Some(s@),
        None => None,
    }
}

/// One leading and one trailing quote character removed.
pub fn strip_quotes(s: &str) -> (r: String)
    ensures
        r@ == spec_strip_quotes(s@),
{
    proof {
        reveal_strlit("\"");
        assert("\""@ =~= seq!['"']);
    }
    let n = s.unicode_len();
    let (s1, n1) = if n > 0 && s.get_char(0) == '"' {
        (String::from_str(s.substring_char(1, n)), n - 1)
    } else {
        (String::from_str(s), n)
    };
    if n1 > 0 && s1.as_str().get_char(n1 - 1) == '"' {
        let r = String::from_str(s1.as_str().substring_char(0, n1 - 1));
        proof {
            assert(r@ =~= spec_strip_quotes(s@));
        }
        r
    } else {
        proof {
            assert(s1@ =~= spec_strip_quotes(s@));
        }
        s1
    }
}

impl SItem {
    /// An object entry from the raw fields of a store listing: a missing
    /// key becomes empty, a missing size becomes -1, and the etag loses its
    /// surrounding quotes.
    pub fn from_object_parts(
        key: Option<String>,
        size: Option<i64>,
        etag: Option<String>,
    ) -> (r: SItem)
        ensures
            r.typ == SItemType::Object,
            r.key@ == (match key {
                Some(k) => k@,
                None => Seq::<char>::empty(),
            }),
            r.size == (match size {
                Some(s) => s,
                None => -1i64,
            }),
            match etag {
                Some(e) => r.etag matches Some(x) && x@ == spec_strip_quotes(e@),
                None => r.etag is None,
            },
    {
        let key = match key {
            Some(k) => k,
            None => String::new(),
        };
        let size = match size {
            Some(s) => s,
            None => -1,
        };
        let etag = match etag {
            Some(e) => Some(strip_quotes(e.as_str())),
            None => None,
        };
        SItem { typ: SItemType::Object, key, etag, size }
    }

    /// A prefix entry from the raw prefix string of a store listing; a
    /// missing prefix becomes empty.
    pub fn from_prefix_parts(prefix: Option<String>) -> (r: SItem)
        ensures
            r.typ == SItemType::Prefix,
            r.key@ == (match prefix {
                Some(p) => p@,
                None => Seq::<char>::empty(),
            }),
            r.etag is None,
            r.size == 0i64,
    {
        let key = match prefix {
            Some(p) => p,
            None => String::new(),
        };
        SItem { typ: SItemType::Prefix, key, etag: None, size: 0 }
    }

    /// A prefix entry for a known key.
    pub fn from_prefix_str(prefix: &str) -> (r: SItem)
        ensures
            r.typ == SItemType::Prefix,
            r.key@ == prefix@,
            r.etag is None,
            r.size == 0i64,
    {
        SItem { typ: SItemType::Prefix, key: String::from_str(prefix), etag: None, size: 0 }
    }
}

/// The first item in `items` whose key reads `key`.
pub open spec fn spec_find_item(items: Seq<SItem>, key: Seq<char>) -> Option<SItem>
    decreases items.len(),
{
    if items.len() == 0 {
        None
    } else if items[0].key@ == key {
        Some(items[0])
    } else {
        spec_find_item(items.skip(1), key)
    }
}

/// A point-in-time snapshot of a listing, mapping keys to their items. It
/// is built once before an upload walk in Etag mode and only read
/// afterwards.
pub struct SItemsCache {
    pub items: Vec<SItem>,
}

impl SItemsCache {
    /// An empty snapshot.
    pub fn new() -> (r: SItemsCache)
        ensures
            r.items@ =~= Seq::<SItem>::empty(),
    {
        SItemsCache { items: Vec::new() }
    }

    /// The snapshot of exactly the given listed items.
    pub fn from_items(items: Vec<SItem>) -> (r: SItemsCache)
        ensures
            r.items@ == items@,
    {
        SItemsCache { items }
    }

    /// Look the key up in the snapshot.
    pub fn get(&self, key: &str) -> (r: Option<&SItem>)
        ensures
            match r {
                Some(it) => spec_find_item(self.items@, key@) == Some(*it),
                None => spec_find_item(self.items@, key@) is None,
            },
    {
        let n = self.items.len();
        let mut i: usize = 0;
        proof {
            assert(self.items@.skip(0) =~= self.items@);
        }
        while i < n
            invariant
                i <= n,
                n == self.items@.len(),
                spec_find_item(self.items@, key@) == spec_find_item(
                    self.items@.skip(i as int),
                    key@,
                ),
            decreases n - i,
        {
            proof {
                assert(self.items@.skip(i as int)[0] == self.items@[i as int]);
                assert(self.items@.skip(i as int).skip(1) =~= self.items@.skip(i + 1));
            }
            if str_eq(self.items[i].key.as_str(), key) {
                return Some(&self.items[i]);
            }
            i = i + 1;
        }
        proof {
            assert(self.items@.skip(n as int) =~= Seq::<SItem>::empty());
        }
        None
    }
}

} // verus!
