//! Building filtered listing pages and accumulating them across
//! continuation tokens.
//!
//! The store request itself happens outside; one raw page of prefix and
//! object records comes in, and exactly the entries whose keys pass the
//! include/exclude rules come out, in their arrival order. Paging is a
//! do-while: the first request is unconditional and pages follow while the
//! store returns a continuation token.

use vstd::prelude::*;

use crate::filter::{spec_inex, spec_matches, validate_key, Inex};
use crate::sitem::{spec_strip_quotes, SItem, SItemType};
use crate::strutil::{spec_find_last, str_eq};

verus! {

/// How much of the listing the caller wants printed versus summarized.
#[derive(Debug, Clone, Copy, PartialEq, Eq, Structural)]
pub enum ListInfo {
    WithInfo,
    InfoOnly,
}

/// Options of one listing request.
pub struct ListOptions {
    pub recursive: bool,
    pub excludes: Option<globset::GlobSet>,
    pub includes: Option<globset::GlobSet>,
    pub continuation_token: Option<String>,
    pub info: Option<ListInfo>,
}

impl ListOptions {
    /// Options with only the recursion flag set.
    pub fn new(recursive: bool) -> (r: ListOptions)
        ensures
            r.recursive == recursive,
            r.excludes is None,
            r.includes is None,
            r.continuation_token is None,
            r.info is None,
    {
        ListOptions {
            recursive,
            excludes: None,
            includes: None,
            continuation_token: None,
            info: None,
        }
    }
}

impl Default for ListOptions {
    /// A non-recursive, unfiltered, first-page request.
    fn default() -> (r: ListOptions)
        ensures
            !r.recursive,
            r.excludes is None,
            r.includes is None,
            r.continuation_token is None,
            r.info is None,
    {
        ListOptions::new(false)
    }
}

/// One page of a listing: grouped prefixes, objects, and the continuation
/// token when more pages follow.
pub struct ListResult {
    pub prefixes: Vec<SItem>,
    pub objects: Vec<SItem>,
    pub next_continuation_token: Option<String>,
}

/// The raw fields of one listed object as the store response carries them.
pub struct RawObject {
    pub key: Option<String>,
    pub size: Option<i64>,
    pub etag: Option<String>,
}

/// Whether a raw key comes through the include/exclude rules; entries without a
/// key never pass.
pub open spec fn spec_keeps(
    key: Option<String>,
    inc: Option<globset::GlobSet>,
    exc: Option<globset::GlobSet>,
) -> bool {
    match key {
        Some(k) => spec_inex(spec_matches(inc, k@), spec_matches(exc, k@)) == Inex::Include,
        None => false,
    }
}

/// The rules as one predicate over raw object records.
pub open spec fn keep_obj_pred(
    inc: Option<globset::GlobSet>,
    exc: Option<globset::GlobSet>,
) -> spec_fn(RawObject) -> bool {
    |r: RawObject| spec_keeps(r.key, inc, exc)
}

/// The rules as one predicate over raw prefix strings.
pub open spec fn keep_prefix_pred(
    inc: Option<globset::GlobSet>,
    exc: Option<globset::GlobSet>,
) -> spec_fn(Option<String>) -> bool {
    |p: Option<String>| spec_keeps(p, inc, exc)
}

/// How a materialized object item reflects its raw record.
pub open spec fn spec_object_of(item: SItem, r: RawObject) -> bool {
    &&& item.typ == SItemType::Object
    &&& item.key@ == (match r.key {
        Some(k) => k@,
        None => Seq::<char>::empty(),
    })
    &&& item.size == (match r.size {
        Some(s) => s,
        None => -1i64,
    })
    &&& (match r.etag {
        Some(e) => item.etag matches Some(x) && x@ == spec_strip_quotes(e@),
        None => item.etag is None,
    })
}

/// How a materialized prefix item reflects its raw prefix.
pub open spec fn spec_prefix_of(item: SItem, p: Option<String>) -> bool {
    &&& item.typ == SItemType::Prefix
    &&& item.key@ == (match p {
        Some(k) => k@,
        None => Seq::<char>::empty(),
    })
    &&& item.etag is None
    &&& item.size == 0i64
}

fn clone_opt_string(o: &Option<String>) -> (r: Option<String>)
    ensures
        r == *o,
{
    match o {
        Some(s) => Some(s.clone()),
        None => None,
    }
}

/// One filtered page: exactly the raw entries whose keys come through the rules
/// appear, in arrival order, as `SItem`s; the continuation token passes
/// through untouched.
pub fn make_list_result(
    raw_prefixes: Vec<Option<String>>,
    raw_objects: Vec<RawObject>,
    includes: &Option<globset::GlobSet>,
    excludes: &Option<globset::GlobSet>,
    next_continuation_token: Option<String>,
) -> (r: ListResult)
    ensures
        r.next_continuation_token == next_continuation_token,
        r.prefixes@.len() == raw_prefixes@.filter(keep_prefix_pred(*includes, *excludes)).len(),
        forall|i: int|
            0 <= i < r.prefixes@.len() ==> spec_prefix_of(
                #[trigger] r.prefixes@[i],
                raw_prefixes@.filter(keep_prefix_pred(*includes, *excludes))[i],
            ),
        r.objects@.len() == raw_objects@.filter(keep_obj_pred(*includes, *excludes)).len(),
        forall|i: int|
            0 <= i < r.objects@.len() ==> spec_object_of(
                #[trigger] r.objects@[i],
                raw_objects@.filter(keep_obj_pred(*includes, *excludes))[i],
            ),
{
    let ghost ppred = keep_prefix_pred(*includes, *excludes);
    let ghost opred = keep_obj_pred(*includes, *excludes);
    let mut prefixes: Vec<SItem> = Vec::new();
    let pn = raw_prefixes.len();
    let mut i: usize = 0;
    proof {
        reveal(Seq::filter);
        assert(raw_prefixes@.take(0) =~= Seq::<Option<String>>::empty());
        assert(raw_prefixes@.take(0).filter(ppred) =~= Seq::<Option<String>>::empty());
    }
    while i < pn
        invariant
            i <= pn,
            pn == raw_prefixes@.len(),
            ppred == keep_prefix_pred(*includes, *excludes),
            prefixes@.len() == raw_prefixes@.take(i as int).filter(ppred).len(),
            forall|k: int|
                0 <= k < prefixes@.len() ==> spec_prefix_of(
                    #[trigger] prefixes@[k],
                    raw_prefixes@.take(i as int).filter(ppred)[k],
                ),
        decreases pn - i,
    {
        let rp = &raw_prefixes[i];
        let keep = match rp {
            Some(p) => validate_key(p.as_str(), includes, excludes),
            None => false,
        };
        proof {
            reveal(Seq::filter);
            let t1 = raw_prefixes@.take(i + 1);
            assert(t1.drop_last() =~= raw_prefixes@.take(i as int));
            assert(t1.last() == raw_prefixes@[i as int]);
            assert(keep == ppred(raw_prefixes@[i as int]));
            if keep {
                assert(t1.filter(ppred) == raw_prefixes@.take(i as int).filter(ppred).push(
                    raw_prefixes@[i as int],
                ));
            } else {
                assert(t1.filter(ppred) == raw_prefixes@.take(i as int).filter(ppred));
            }
        }
        if keep {
            prefixes.push(SItem::from_prefix_parts(clone_opt_string(rp)));
        }
        i = i + 1;
    }
    proof {
        assert(raw_prefixes@.take(pn as int) =~= raw_prefixes@);
    }
    let mut objects: Vec<SItem> = Vec::new();
    let on = raw_objects.len();
    let mut j: usize = 0;
    proof {
        reveal(Seq::filter);
        assert(raw_objects@.take(0) =~= Seq::<RawObject>::empty());
        assert(raw_objects@.take(0).filter(opred) =~= Seq::<RawObject>::empty());
    }
    while j < on
        invariant
            j <= on,
            on == raw_objects@.len(),
            opred == keep_obj_pred(*includes, *excludes),
            objects@.len() == raw_objects@.take(j as int).filter(opred).len(),
            forall|k: int|
                0 <= k < objects@.len() ==> spec_object_of(
                    #[trigger] objects@[k],
                    raw_objects@.take(j as int).filter(opred)[k],
                ),
        decreases on - j,
    {
        let ro = &raw_objects[j];
        let keep = match &ro.key {
            Some(p) => validate_key(p.as_str(), includes, excludes),
            None => false,
        };
        proof {
            reveal(Seq::filter);
            let t1 = raw_objects@.take(j + 1);
            assert(t1.drop_last() =~= raw_objects@.take(j as int));
            assert(t1.last() == raw_objects@[j as int]);
            assert(keep == opred(raw_objects@[j as int]));
            if keep {
                assert(t1.filter(opred) == raw_objects@.take(j as int).filter(opred).push(
                    raw_objects@[j as int],
                ));
            } else {
                assert(t1.filter(opred) == raw_objects@.take(j as int).filter(opred));
            }
        }
        if keep {
            let item = SItem::from_object_parts(
                clone_opt_string(&ro.key),
                ro.size,
                clone_opt_string(&ro.etag),
            );
            objects.push(item);
        }
        j = j + 1;
    }
    proof {
        assert(raw_objects@.take(on as int) =~= raw_objects@);
    }
    ListResult { prefixes, objects, next_continuation_token }
}

/// Append one page of items onto the accumulated listing.
pub fn append_page(acc: &mut Vec<SItem>, page: Vec<SItem>)
    ensures
        final(acc)@ == old(acc)@ + page@,
{
    let mut page = page;
    acc.append(&mut page);
}

/// The listing cut into pages of at most `p` keys: every page but the last
/// is full, and their concatenation is the listing.
pub open spec fn spec_pages<T>(s: Seq<T>, p: nat) -> Seq<Seq<T>>
    decreases s.len(),
{
    if p == 0 || s.len() == 0 {
        Seq::empty()
    } else if s.len() <= p {
        seq![s]
    } else {
        seq![s.take(p as int)] + spec_pages(s.skip(p as int), p)
    }
}

/// Pagination loses nothing and changes nothing: a listing split across
/// pages of size `p` holds the same keys, in the same order and with no
/// duplicates across page boundaries, as the unpaginated listing — their
/// concatenation is the listing itself.
pub proof fn lemma_pagination_preserves_keys<T>(s: Seq<T>, p: nat)
    requires
        p > 0,
    ensures
        spec_pages(s, p).flatten() == s,
    decreases s.len(),
{
    if s.len() == 0 {
        assert(spec_pages(s, p).flatten() =~= s);
    } else if s.len() <= p {
        let pages = spec_pages(s, p);
        assert(pages == seq![s]);
        assert(pages.first() == s);
        assert(pages.drop_first() =~= Seq::<Seq<T>>::empty());
        assert(Seq::<Seq<T>>::empty().flatten() =~= Seq::<T>::empty());
        assert(pages.flatten() == pages.first() + pages.drop_first().flatten());
        assert(pages.flatten() =~= s);
    } else {
        lemma_pagination_preserves_keys(s.skip(p as int), p);
        let pages = spec_pages(s, p);
        assert(pages == seq![s.take(p as int)] + spec_pages(s.skip(p as int), p));
        assert(pages.first() == s.take(p as int));
        assert(pages.drop_first() =~= spec_pages(s.skip(p as int), p));
        assert(pages.flatten() == s.take(p as int) + s.skip(p as int));
        assert(s.take(p as int) + s.skip(p as int) =~= s);
    }
}

/// The extension shown in listing statistics: the key's tail from its last
/// dot on, dot included.
pub open spec fn spec_key_ext(k: Seq<char>) -> Option<Seq<char>> {
    match spec_find_last(k, '.') {
        Some(i) => Some(k.subrange(i, k.len() as int)),
        None => None,
    }
}

/// Aggrerulesd size and count of one extension.
pub struct ExtStat {
    pub ext: String,
    pub size: i64,
    pub count: i64,
}

/// First position in the statistics carrying this extension.
pub open spec fn spec_ext_index(s: Seq<ExtStat>, ext: Seq<char>) -> Option<int>
    decreases s.len(),
{
    if s.len() == 0 {
        None
    } else if s[0].ext@ == ext {
        Some(0)
    } else {
        match spec_ext_index(s.skip(1), ext) {
            Some(i) => Some(i + 1),
            None => None,
        }
    }
}

/// Saturating signed addition.
pub open spec fn spec_sat_add_i64(a: int, b: int) -> int {
    if a + b > i64::MAX {
        i64::MAX as int
    } else if a + b < i64::MIN {
        i64::MIN as int
    } else {
        a + b
    }
}

/// `a + b` clamped into the `i64` range.
pub fn sat_add_i64(a: i64, b: i64) -> (r: i64)
    ensures
        r as int == spec_sat_add_i64(a as int, b as int),
{
    if b > 0 && a > i64::MAX - b {
        i64::MAX
    } else if b < 0 && a < i64::MIN - b {
        i64::MIN
    } else {
        a + b
    }
}

/// Totals a listing pass accumulates for display: object count, byte
/// total, and per-extension size and count in first-appearance order.
pub struct LsStats {
    pub total_objects: i64,
    pub total_size: i64,
    pub per_ext: Vec<ExtStat>,
}

/// A match at `j` with none before it is the first match.
proof fn lemma_ext_index_at(s: Seq<ExtStat>, ext: Seq<char>, j: int)
    requires
        0 <= j < s.len(),
        s[j].ext@ == ext,
        forall|k: int| 0 <= k < j ==> s[k].ext@ != ext,
    ensures
        spec_ext_index(s, ext) == Some(j),
    decreases j,
{
    if j == 0 {
    } else {
        assert forall|k: int| 0 <= k < j - 1 implies s.skip(1)[k].ext@ != ext by {
            assert(s.skip(1)[k] == s[k + 1]);
        }
        assert(s.skip(1)[j - 1] == s[j]);
        lemma_ext_index_at(s.skip(1), ext, j - 1);
    }
}

/// No match anywhere means no first match.
proof fn lemma_ext_index_none(s: Seq<ExtStat>, ext: Seq<char>)
    requires
        forall|k: int| 0 <= k < s.len() ==> s[k].ext@ != ext,
    ensures
        spec_ext_index(s, ext) is None,
    decreases s.len(),
{
    if s.len() > 0 {
        assert forall|k: int| 0 <= k < s.skip(1).len() implies s.skip(1)[k].ext@ != ext by {
            assert(s.skip(1)[k] == s[k + 1]);
        }
        lemma_ext_index_none(s.skip(1), ext);
    }
}

impl LsStats {
    /// Empty totals.
    pub fn new() -> (r: LsStats)
        ensures
            r.total_objects == 0i64,
            r.total_size == 0i64,
            r.per_ext@ =~= Seq::<ExtStat>::empty(),
    {
        LsStats { total_objects: 0, total_size: 0, per_ext: Vec::new() }
    }

    /// Fold one listed object into the totals: counts and sizes add with
    /// saturation, and the key's extension entry is updated in place, or
    /// appended on first sight, or nothing for an extensionless key.
    #[verifier::loop_isolation(false)]
    pub fn add_object(&mut self, key: &str, size: i64)
        ensures
            final(self).total_objects as int == spec_sat_add_i64(old(self).total_objects as int, 1),
            final(self).total_size as int == spec_sat_add_i64(
                old(self).total_size as int,
                size as int,
            ),
            match spec_key_ext(key@) {
                None => final(self).per_ext@ == old(self).per_ext@,
                Some(ext) => match spec_ext_index(old(self).per_ext@, ext) {
                    Some(j) => final(self).per_ext@ == old(self).per_ext@.update(
                        j,
                        (ExtStat {
                            ext: old(self).per_ext@[j].ext,
                            size: spec_sat_add_i64(
                                old(self).per_ext@[j].size as int,
                                size as int,
                            ) as i64,
                            count: spec_sat_add_i64(old(self).per_ext@[j].count as int, 1) as i64,
                        }),
                    ),
                    None => ({
                        &&& final(self).per_ext@.len() == old(self).per_ext@.len() + 1
                        &&& final(self).per_ext@.take(old(self).per_ext@.len() as int) == old(
                            self,
                        ).per_ext@
                        &&& final(self).per_ext@.last().ext@ == ext
                        &&& final(self).per_ext@.last().size == size
                        &&& final(self).per_ext@.last().count == 1i64
                    }),
                },
            },
    {
        self.total_objects = sat_add_i64(self.total_objects, 1);
        self.total_size = sat_add_i64(self.total_size, size);
        let ghost to1 = self.total_objects;
        let ghost ts1 = self.total_size;
        let n = key.unicode_len();
        let ext_pos = crate::strutil::find_last(key, '.');
        match ext_pos {
            None => {
            },
            Some(p) => {
                let ext = String::from_str(key.substring_char(p, n));
                let m = self.per_ext.len();
                let mut j: usize = 0;
                while j < m
                    invariant
                        j <= m,
                        m == self.per_ext@.len(),
                        self.per_ext@ == old(self).per_ext@,
                        self.total_objects == to1,
                        self.total_size == ts1,
                        forall|k: int| 0 <= k < j ==> self.per_ext@[k].ext@ != ext@,
                    decreases m - j,
                {
                    if str_eq(self.per_ext[j].ext.as_str(), ext.as_str()) {
                        proof {
                            lemma_ext_index_at(self.per_ext@, ext@, j as int);
                        }
                        let new_size = sat_add_i64(self.per_ext[j].size, size);
                        let new_count = sat_add_i64(self.per_ext[j].count, 1);
                        let new_ext = self.per_ext[j].ext.clone();
                        self.per_ext[j] = ExtStat { ext: new_ext, size: new_size, count: new_count };
                        return ;
                    }
                    j = j + 1;
                }
                proof {
                    lemma_ext_index_none(self.per_ext@, ext@);
                }
                self.per_ext.push(ExtStat { ext, size, count: 1 });
                proof {
                    assert(self.per_ext@.take(self.per_ext@.len() - 1) =~= old(self).per_ext@);
                }
            },
        }
    }
}

} // verus!
