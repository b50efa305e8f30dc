use globset::{Glob, GlobSetBuilder};
use ss3::list::{
    append_page, make_list_result, sat_add_i64, ListOptions, LsStats, RawObject,
};
use ss3::sitem::SItemType;

fn raw(key: Option<&str>, size: Option<i64>, etag: Option<&str>) -> RawObject {
    RawObject {
        key: key.map(|k| k.to_string()),
        size,
        etag: etag.map(|e| e.to_string()),
    }
}

#[test]
fn test_list_options_new() {
    let o = ListOptions::new(true);
    assert!(o.recursive);
    assert!(o.includes.is_none());
    assert!(o.excludes.is_none());
    assert!(o.continuation_token.is_none());
    assert!(o.info.is_none());
}

#[test]
fn test_make_list_result_materializes_fields() {
    let r = make_list_result(
        vec![Some("p/a/".to_string()), None],
        vec![
            raw(Some("p/x.txt"), Some(12), Some("\"abc\"")),
            raw(Some("p/y.bin"), None, None),
            raw(None, Some(1), None),
        ],
        &None,
        &None,
        Some("tok".to_string()),
    );
    assert_eq!(r.next_continuation_token.as_deref(), Some("tok"));
    // Entries without a key never come through.
    assert_eq!(r.prefixes.len(), 1);
    assert_eq!(r.prefixes[0].key, "p/a/");
    assert_eq!(r.prefixes[0].typ, SItemType::Prefix);
    assert_eq!(r.prefixes[0].size, 0);
    assert_eq!(r.objects.len(), 2);
    assert_eq!(r.objects[0].key, "p/x.txt");
    assert_eq!(r.objects[0].size, 12);
    // The surrounding quotes of the etag are stripped.
    assert_eq!(r.objects[0].etag.as_deref(), Some("abc"));
    assert_eq!(r.objects[1].size, -1);
    assert!(r.objects[1].etag.is_none());
}

#[test]
fn test_make_list_result_filters_through_rules() {
    let mut b = GlobSetBuilder::new();
    b.add(Glob::new("*.txt").unwrap());
    let inc = Some(b.build().unwrap());
    let r = make_list_result(
        vec![],
        vec![
            raw(Some("a.txt"), Some(1), None),
            raw(Some("b.jpg"), Some(2), None),
            raw(Some("c.txt"), Some(3), None),
        ],
        &inc,
        &None,
        None,
    );
    assert_eq!(r.objects.len(), 2);
    assert_eq!(r.objects[0].key, "a.txt");
    assert_eq!(r.objects[1].key, "c.txt");
}

#[test]
fn test_pagination_accumulates_all_keys_in_order() {
    // The same listing once whole and once split across pages of two,
    // fed through the paging accumulation.
    let keys = ["k1", "k2", "k3", "k4", "k5"];
    let whole = make_list_result(
        vec![],
        keys.iter().map(|k| raw(Some(k), Some(1), None)).collect(),
        &None,
        &None,
        None,
    );
    let mut acc = Vec::new();
    let mut start = 0;
    loop {
        let page_keys: Vec<_> = keys[start..(start + 2).min(keys.len())].to_vec();
        start += page_keys.len();
        let token = if start < keys.len() { Some("t".to_string()) } else { None };
        let page = make_list_result(
            vec![],
            page_keys.iter().map(|k| raw(Some(k), Some(1), None)).collect(),
            &None,
            &None,
            token,
        );
        let more = page.next_continuation_token.is_some();
        append_page(&mut acc, page.objects);
        if !more {
            break;
        }
    }
    assert_eq!(acc.len(), whole.objects.len());
    for (a, w) in acc.iter().zip(whole.objects.iter()) {
        assert_eq!(a.key, w.key);
    }
}

#[test]
fn test_sat_add() {
    assert_eq!(sat_add_i64(1, 2), 3);
    assert_eq!(sat_add_i64(i64::MAX, 1), i64::MAX);
    assert_eq!(sat_add_i64(i64::MIN, -1), i64::MIN);
    assert_eq!(sat_add_i64(-5, 2), -3);
}

#[test]
fn test_ls_stats_totals_and_extensions() {
    let mut stats = LsStats::new();
    stats.add_object("a/x.txt", 10);
    stats.add_object("a/y.txt", 5);
    stats.add_object("b/z.jpg", 7);
    stats.add_object("noext", 2);
    assert_eq!(stats.total_objects, 4);
    assert_eq!(stats.total_size, 24);
    assert_eq!(stats.per_ext.len(), 2);
    assert_eq!(stats.per_ext[0].ext, ".txt");
    assert_eq!(stats.per_ext[0].size, 15);
    assert_eq!(stats.per_ext[0].count, 2);
    assert_eq!(stats.per_ext[1].ext, ".jpg");
    assert_eq!(stats.per_ext[1].size, 7);
    assert_eq!(stats.per_ext[1].count, 1);
}
