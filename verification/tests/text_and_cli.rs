use wallblend::cli::{choose_thread_number, query_plan, query_url, thread_number};
use wallblend::text::{decimal_string, numbered, two_numbered};
use wallblend::CliArgs;

#[test]
fn decimal_numerals() {
    assert_eq!(decimal_string(0), "0");
    assert_eq!(decimal_string(7), "7");
    assert_eq!(decimal_string(10), "10");
    assert_eq!(decimal_string(1234), "1234");
    assert_eq!(decimal_string(u64::MAX), u64::MAX.to_string());
}

#[test]
fn numbered_texts() {
    assert_eq!(numbered("Accumulated ", 3, "."), "Accumulated 3.");
    assert_eq!(two_numbered("None ", 1, " / ", 4), "None 1 / 4");
}

#[test]
fn query_addresses() {
    assert_eq!(query_url("anime", 3), "https://www.goodfon.ru/search/?q=anime&page=3");
}

#[test]
fn query_plan_deals_pages_out_then_ends_each_worker() {
    let plan = query_plan("cats", 3, 2);
    assert_eq!(
        plan,
        vec![
            (0, Some("https://www.goodfon.ru/search/?q=cats&page=1".to_string())),
            (1, Some("https://www.goodfon.ru/search/?q=cats&page=2".to_string())),
            (0, Some("https://www.goodfon.ru/search/?q=cats&page=3".to_string())),
            (0, None),
            (1, None),
        ]
    );
    assert_eq!(query_plan("x", 0, 1), vec![(0, None)]);
}

#[test]
fn thread_numbers() {
    assert_eq!(choose_thread_number(2, 8), 2);
    assert_eq!(choose_thread_number(10, 4), 4);
    assert_eq!(choose_thread_number(4, 4), 4);
    assert!(thread_number(3) <= 3);
    assert!(thread_number(3) >= 1);
    assert!(thread_number(1) == 1);
    assert_eq!(thread_number(0), 0);
}

#[test]
fn default_arguments() {
    let a = CliArgs::default();
    assert_eq!(a.query, "anime");
    assert_eq!(a.pages, 2);
    assert_eq!(a.file, "result");
    let b = a.clone();
    assert_eq!(b.query, "anime");
    assert_eq!(b.pages, 2);
}
