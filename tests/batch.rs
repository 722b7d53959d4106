use bibo::batch::{
    batch_all, batch_for_numbers, count_successes, parse_download_spec, parse_numbers, parse_usize, split_on,
    BatchItem, DownloadRequest,
};

#[test]
fn numbers_with_an_invalid_index() {
    let req = parse_download_spec("3,99");
    assert_eq!(req, DownloadRequest::Numbers(vec![3, 99]));
    let items = match req {
        DownloadRequest::Numbers(n) => batch_for_numbers(&n),
        _ => unreachable!(),
    };
    assert_eq!(items.len(), 2);
    assert!(matches!(items[0], BatchItem::Install(v) if v.id == "aishell3"));
    assert!(matches!(items[1], BatchItem::Invalid(99)));
    assert_eq!(count_successes(&items, &vec![true, true]), 1);
    assert_eq!(count_successes(&items, &vec![false, true]), 0);
    assert_eq!(count_successes(&items, &vec![true, false]), 1);
}

#[test]
fn spec_keywords() {
    assert_eq!(parse_download_spec("list"), DownloadRequest::ShowCatalog);
    assert_eq!(parse_download_spec("LIST"), DownloadRequest::ShowCatalog);
    assert_eq!(parse_download_spec("All"), DownloadRequest::All);
    assert_eq!(parse_download_spec("Amy"), DownloadRequest::Single("amy".to_string()));
    assert_eq!(parse_download_spec("5"), DownloadRequest::Numbers(vec![5]));
    assert_eq!(parse_download_spec(""), DownloadRequest::Numbers(vec![]));
    assert_eq!(parse_download_spec(" 1 , x,2,"), DownloadRequest::Numbers(vec![1, 2]));
}

#[test]
fn whole_catalog_batch() {
    let items = batch_all();
    assert_eq!(items.len(), 17);
    assert!(matches!(items[0], BatchItem::Install(v) if v.id == "melo"));
    assert!(matches!(items[16], BatchItem::Install(v) if v.id == "vais"));
    assert_eq!(count_successes(&items, &vec![true; 17]), 17);
}

#[test]
fn index_bounds() {
    let items = batch_for_numbers(&vec![0, 1, 17, 18]);
    assert!(matches!(items[0], BatchItem::Invalid(0)));
    assert!(matches!(items[1], BatchItem::Install(v) if v.id == "melo"));
    assert!(matches!(items[2], BatchItem::Install(v) if v.id == "vais"));
    assert!(matches!(items[3], BatchItem::Invalid(18)));
}

#[test]
fn unsigned_numbers() {
    assert_eq!(parse_usize("42"), Some(42));
    assert_eq!(parse_usize("+7"), Some(7));
    assert_eq!(parse_usize("+"), None);
    assert_eq!(parse_usize(""), None);
    assert_eq!(parse_usize("-1"), None);
    assert_eq!(parse_usize("4a"), None);
    assert_eq!(parse_usize("007"), Some(7));
    assert_eq!(parse_usize(&usize::MAX.to_string()), Some(usize::MAX));
    assert_eq!(parse_usize("99999999999999999999999999"), None);
}

#[test]
fn splitting() {
    assert_eq!(split_on("a,b", ','), vec!["a", "b"]);
    assert_eq!(split_on("", ','), vec![""]);
    assert_eq!(split_on(",a,", ','), vec!["", "a", ""]);
    assert_eq!(parse_numbers("1,2,3"), vec![1, 2, 3]);
}
