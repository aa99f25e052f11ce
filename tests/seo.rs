use rey::Seo;

#[test]
fn new_is_empty() {
    let s = Seo::new();
    assert!(s.title.is_empty());
    assert!(s.description.is_empty());
    assert!(s.keywords.is_empty());
    assert!(s.author.is_none());
    assert!(s.twitter_card.is_none());
    let d = Seo::default();
    assert!(d.slug.is_none());
}

#[test]
fn builders_chain_and_replace() {
    let mut s = Seo::new();
    s.with_title("First")
        .with_title("Home")
        .with_desc("Welcome")
        .with_keywords(&["a", "b"])
        .with_keywords(&["rust", "web"])
        .with_author("Ann")
        .with_lang("fr")
        .with_updated("2024-01-01")
        .with_json_ld("{}")
        .with_content_type("work")
        .with_canonical("https://x.org/")
        .with_slug("home")
        .with_og_image("/img.png")
        .with_og_type("website")
        .with_twitter_card("summary_large_image");
    assert_eq!(s.title, "Home");
    assert_eq!(s.description, "Welcome");
    assert_eq!(s.keywords, vec!["rust".to_string(), "web".to_string()]);
    assert_eq!(s.author.as_deref(), Some("Ann"));
    assert_eq!(s.lang.as_deref(), Some("fr"));
    assert_eq!(s.updated.as_deref(), Some("2024-01-01"));
    assert_eq!(s.json_ld.as_deref(), Some("{}"));
    assert_eq!(s.content_type.as_deref(), Some("work"));
    assert_eq!(s.canonical_url.as_deref(), Some("https://x.org/"));
    assert_eq!(s.slug.as_deref(), Some("home"));
    assert_eq!(s.og_image.as_deref(), Some("/img.png"));
    assert_eq!(s.og_type.as_deref(), Some("website"));
    assert_eq!(s.twitter_card.as_deref(), Some("summary_large_image"));
    s.twitter_summary();
    assert_eq!(s.twitter_card.as_deref(), Some("summary"));
}
