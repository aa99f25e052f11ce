use rey::render::{
    active_link, ago_text, group_thousands, markdown, md_excerpt, money_text, asset_tag, csrf_input, external_rel, img_srcset, nl2br, paginate,
    push_decimal, safe_url, slugify, truncate, Pagination,
};

#[test]
fn safe_urls() {
    assert_eq!(safe_url("/about"), "/about");
    assert_eq!(safe_url("https://x.org"), "https://x.org");
    assert_eq!(safe_url("http://x.org"), "http://x.org");
    assert_eq!(safe_url("javascript:alert(1)"), "#");
    assert_eq!(safe_url(""), "#");
    assert_eq!(safe_url("httpx://x"), "#");
}

#[test]
fn link_relations() {
    assert_eq!(external_rel("https://x.org"), "noopener noreferrer external");
    assert_eq!(external_rel("/local"), "");
    assert_eq!(active_link("/a", "/a"), "aria-current=\"page\"");
    assert_eq!(active_link("/a", "/b"), "");
}

#[test]
fn tags() {
    assert_eq!(csrf_input("t0k"), "<input type=\"hidden\" name=\"csrf\" value=\"t0k\">");
    assert_eq!(asset_tag("css", "/public/a.css"), "<link rel=\"stylesheet\" href=\"/public/a.css\">");
    assert_eq!(
        asset_tag("js", "/public/a.js"),
        "<script type=\"module\" src=\"/public/a.js\"></script>"
    );
    assert_eq!(asset_tag("img", "/public/a.png"), "");
}

#[test]
fn pagination() {
    assert_eq!(
        paginate(45, 1, 20),
        Pagination { pages: 3, page: 1, per: 20, prev: false, next: true }
    );
    assert_eq!(
        paginate(40, 2, 20),
        Pagination { pages: 2, page: 2, per: 20, prev: true, next: false }
    );
    assert_eq!(paginate(0, 1, 20), Pagination { pages: 0, page: 1, per: 20, prev: false, next: false });
    assert_eq!(paginate(usize::MAX, 1, 1).pages, usize::MAX);
}

#[test]
fn line_breaks() {
    assert_eq!(nl2br("a\nb\n"), "a<br/>b<br/>");
    assert_eq!(nl2br("é\nü"), "é<br/>ü");
    assert_eq!(nl2br(""), "");
}

#[test]
fn slugs() {
    assert_eq!(slugify("Hello World!"), "hello-world");
    assert_eq!(slugify("  Déjà vu  "), "deja-vu");
}

#[test]
fn decimals() {
    let mut s = String::from("n=");
    push_decimal(&mut s, 0);
    assert_eq!(s, "n=0");
    let mut s = String::new();
    push_decimal(&mut s, 1200);
    assert_eq!(s, "1200");
    let mut s = String::new();
    push_decimal(&mut s, i64::MIN);
    assert_eq!(s, i64::MIN.to_string());
    let mut s = String::new();
    push_decimal(&mut s, i64::MAX);
    assert_eq!(s, i64::MAX.to_string());
}

#[test]
fn relative_times() {
    assert_eq!(ago_text(5), "il y a 5s");
    assert_eq!(ago_text(-5), "il y a -5s");
    assert_eq!(ago_text(59), "il y a 59s");
    assert_eq!(ago_text(60), "il y a 1min");
    assert_eq!(ago_text(3599), "il y a 59min");
    assert_eq!(ago_text(7200), "il y a 2h");
    assert_eq!(ago_text(86400 * 3 + 5), "il y a 3j");
}

#[test]
fn image_source_sets() {
    assert_eq!(
        img_srcset("img/cover.jpg", &[480, 768]),
        "/public/img/cover.480.jpgjpg 480w, /public/img/cover.768.jpgjpg 768w"
    );
    assert_eq!(img_srcset("logo", &[100]), "/public/logo 100w");
    assert_eq!(img_srcset("a.b.png", &[1]), "/public/a.1.pngb.1.pngpng 1w");
    assert_eq!(img_srcset("x.jpg", &[]), "");
}

#[test]
fn excerpts() {
    let text = "\n\n  Hello   big\tworld  \nsecond line";
    assert_eq!(md_excerpt(text, 2), "Hello big");
    assert_eq!(md_excerpt(text, 40), "Hello big world");
    assert_eq!(md_excerpt(text, 0), "");
    assert_eq!(md_excerpt("   \n \n", 40), "");
    assert_eq!(md_excerpt("", 40), "");
    assert_eq!(md_excerpt("x\u{3000}y", 40), "x y");
    assert_eq!(md_excerpt("\r\nfoo bar\r\nbaz", 40), "foo bar");
    assert_eq!(md_excerpt("# Title\n\nBody", 40), "# Title");
}

#[test]
fn truncation() {
    assert_eq!(truncate("hello world", 5), "hello\u{2026}");
    assert_eq!(truncate("hello", 5), "hello");
    assert_eq!(truncate("hi", 160), "hi");
    assert_eq!(truncate("h\u{e9}llo", 3), "h\u{e9}\u{2026}");
    assert_eq!(truncate("abc", 0), "\u{2026}");
}

#[test]
fn thousands_and_euros() {
    assert_eq!(group_thousands("1234567"), "1 234 567");
    assert_eq!(group_thousands("123"), "123");
    assert_eq!(group_thousands("1000"), "1 000");
    assert_eq!(group_thousands(""), "");
    assert_eq!(group_thousands("-123"), "- 123");
    assert_eq!(money_text("1234.50"), "1 234,50 \u{20ac}");
    assert_eq!(money_text("0.05"), "0,05 \u{20ac}");
    assert_eq!(money_text("12"), "12,00 \u{20ac}");
}

#[test]
fn markdown_with_extensions() {
    let html = markdown("# Hi\n\n~~old~~ *new*");
    assert!(html.contains("<h1>Hi</h1>"));
    assert!(html.contains("<del>old</del>"));
    assert!(html.contains("<em>new</em>"));
    let table = markdown("| a | b |\n|---|---|\n| 1 | 2 |\n");
    assert!(table.contains("<table>"));
}
