//! Planning a clean pass: which remote keys have no local counterpart.
//!
//! The remote listing and the local file walk happen outside; given both,
//! the plan is a set difference — every remote key that the local
//! directory would not produce under upload key-mapping. Deleting the
//! returned keys is the caller's business.

use vstd::prelude::*;

use crate::error::Error;
use crate::keymap::{compute_dst_key, spec_dst_key, spec_file_name};
use crate::sitem::SItem;
use crate::strutil::{contains_name, spec_name_in};

verus! {

/// Options of one clean invocation.
pub struct CleanOptions {
    pub force: bool,
}

impl Default for CleanOptions {
    /// A clean that still asks before deleting.
    fn default() -> (r: CleanOptions)
        ensures
            !r.force,
    {
        CleanOptions { force: false }
    }
}

/// The first local file that has no usable file name, if any.
pub open spec fn spec_first_invalid(files: Seq<String>) -> Option<int>
    decreases files.len(),
{
    if files.len() == 0 {
        None
    } else if spec_file_name(files[0]@) is None {
        Some(0)
    } else {
        match spec_first_invalid(files.skip(1)) {
            Some(i) => Some(i + 1),
            None => None,
        }
    }
}

/// A mapping failure at `j` with none before it is the first failure.
proof fn lemma_first_invalid_at(files: Seq<String>, j: int)
    requires
        0 <= j < files.len(),
        spec_file_name(files[j]@) is None,
        forall|k: int| 0 <= k < j ==> spec_file_name(files[k]@) is Some,
    ensures
        spec_first_invalid(files) == Some(j),
    decreases j,
{
    if j == 0 {
    } else {
        assert forall|k: int| 0 <= k < j - 1 implies spec_file_name(
            files.skip(1)[k]@,
        ) is Some by {
            assert(files.skip(1)[k] == files[k + 1]);
        }
        assert(files.skip(1)[j - 1] == files[j]);
        lemma_first_invalid_at(files.skip(1), j - 1);
    }
}

/// With every file mapping cleanly there is no first failure.
proof fn lemma_first_invalid_none(files: Seq<String>)
    requires
        forall|k: int| 0 <= k < files.len() ==> spec_file_name(files[k]@) is Some,
    ensures
        spec_first_invalid(files) is None,
    decreases files.len(),
{
    if files.len() > 0 {
        assert forall|k: int| 0 <= k < files.skip(1).len() implies spec_file_name(
            files.skip(1)[k]@,
        ) is Some by {
            assert(files.skip(1)[k] == files[k + 1]);
        }
        lemma_first_invalid_none(files.skip(1));
    }
}

/// The destination keys the local files would get when uploaded from
/// `base_dir` under `base_key` — the target set a clean pass compares
/// against. Fails on the first file without a usable file name.
pub fn compute_target_keys(
    local_files: &Vec<String>,
    base_dir: &str,
    base_key: &str,
) -> (r: Result<Vec<String>, Error>)
    ensures
        (r is Ok) == (spec_first_invalid(local_files@) is None),
        r matches Ok(ks) ==> ks@.len() == local_files@.len() && (forall|i: int|
            0 <= i < ks@.len() ==> Some(#[trigger] ks@[i]@) == spec_dst_key(
                Some(base_dir@),
                local_files@[i]@,
                base_key@,
                false,
            )),
        r matches Err(e) ==> (e matches Error::InvalidPath(p) && spec_first_invalid(local_files@)
            matches Some(j) && p@ == local_files@[j]@),
{
    let n = local_files.len();
    let mut keys: Vec<String> = Vec::new();
    let mut i: usize = 0;
    while i < n
        invariant
            i <= n,
            n == local_files@.len(),
            keys@.len() == i,
            forall|k: int| 0 <= k < i ==> spec_file_name(local_files@[k]@) is Some,
            forall|k: int|
                0 <= k < i ==> Some(#[trigger] keys@[k]@) == spec_dst_key(
                    Some(base_dir@),
                    local_files@[k]@,
                    base_key@,
                    false,
                ),
        decreases n - i,
    {
        match compute_dst_key(Some(base_dir), local_files[i].as_str(), base_key, false) {
            Ok(k) => {
                keys.push(k);
            },
            Err(e) => {
                proof {
                    lemma_first_invalid_at(local_files@, i as int);
                }
                return Err(e);
            },
        }
        i = i + 1;
    }
    proof {
        lemma_first_invalid_none(local_files@);
    }
    Ok(keys)
}

/// The predicate a clean pass filters remote items by: the item's key is
/// absent from the target key set.
pub open spec fn stale_pred(target_keys: Seq<String>) -> spec_fn(SItem) -> bool {
    |it: SItem| !spec_name_in(target_keys, it.key@)
}

/// Every remote key absent from the target set, in listing order. This is
/// the plan only; nothing is deleted here.
pub fn keys_to_clean(remote: &Vec<SItem>, target_keys: &Vec<String>) -> (r: Vec<String>)
    ensures
        r@.len() == remote@.filter(stale_pred(target_keys@)).len(),
        forall|i: int|
            0 <= i < r@.len() ==> #[trigger] r@[i]@ == remote@.filter(
                stale_pred(target_keys@),
            )[i].key@,
{
    let ghost pred = stale_pred(target_keys@);
    let n = remote.len();
    let mut out: Vec<String> = Vec::new();
    let mut i: usize = 0;
    proof {
        reveal(Seq::filter);
        assert(remote@.take(0) =~= Seq::<SItem>::empty());
        assert(remote@.take(0).filter(pred) =~= Seq::<SItem>::empty());
    }
    while i < n
        invariant
            i <= n,
            n == remote@.len(),
            pred == stale_pred(target_keys@),
            out@.len() == remote@.take(i as int).filter(pred).len(),
            forall|k: int|
                0 <= k < out@.len() ==> #[trigger] out@[k]@ == remote@.take(i as int).filter(
                    pred,
                )[k].key@,
        decreases n - i,
    {
        let stale = !contains_name(target_keys, remote[i].key.as_str());
        proof {
            reveal(Seq::filter);
            let t1 = remote@.take(i + 1);
            assert(t1.drop_last() =~= remote@.take(i as int));
            assert(t1.last() == remote@[i as int]);
            assert(stale == pred(remote@[i as int]));
            if stale {
                assert(t1.filter(pred) == remote@.take(i as int).filter(pred).push(
                    remote@[i as int],
                ));
            } else {
                assert(t1.filter(pred) == remote@.take(i as int).filter(pred));
            }
        }
        if stale {
            out.push(remote[i].key.clone());
        }
        i = i + 1;
    }
    proof {
        assert(remote@.take(n as int) =~= remote@);
    }
    out
}

} // verus!
