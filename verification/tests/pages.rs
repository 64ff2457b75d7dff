use wallblend::job::parse::{extract_urls, keep_present};

#[test]
fn wallpaper_links_are_found() {
    let html = r#"<html><body>
        <img class="wallpapers__item__img" src="https://a/1.jpg">
        <img class="other" src="https://a/skip.jpg">
        <div><img class="wallpapers__item__img"></div>
        <img class="x wallpapers__item__img" src="https://a/2.jpg">
        </body></html>"#;
    let urls = extract_urls(html.to_string());
    assert_eq!(urls, vec!["https://a/1.jpg".to_string(), "https://a/2.jpg".to_string()]);
}

#[test]
fn no_links_in_an_empty_page() {
    assert_eq!(extract_urls(String::new()), Vec::<String>::new());
}

#[test]
fn present_values_are_kept_in_order() {
    let found = vec![Some("a".to_string()), None, Some("b".to_string()), None];
    assert_eq!(keep_present(found), vec!["a".to_string(), "b".to_string()]);
    assert!(keep_present(vec![None, None]).is_empty());
}
