use website::blog::{new_post, StoreError};
use website::date::PostDate;
use website::markdown::{render_html, Html};
use website::post::{
    parse_metadata, parse_post, slug, split_document, Field, FrontMatter, ParseErrorKind,
};
use website::summary::{create_summary, summary_source, SUMMARY_LENGTH};

const HELLO: &str = "title: Hello World\ndate: 3:00pm 06/15/18\n\n# Hi\n\nSome *text*.";

fn front_matter_from_yaml(text: &str) -> Option<FrontMatter> {
    let value: serde_yaml::Value = serde_yaml::from_str(text).ok()?;
    let strings = |key: &str| -> Vec<String> {
        value
            .get(key)
            .and_then(|v| v.as_sequence())
            .map(|items| items.iter().filter_map(|i| i.as_str()).map(String::from).collect())
            .unwrap_or_default()
    };
    Some(FrontMatter {
        title: value.get("title").and_then(|v| v.as_str()).map(String::from),
        date: value.get("date").and_then(|v| v.as_str()).map(String::from),
        categories: strings("categories"),
        tags: strings("tags"),
    })
}

fn front(title: Option<&str>, date: Option<&str>) -> FrontMatter {
    FrontMatter {
        title: title.map(String::from),
        date: date.map(String::from),
        categories: vec![],
        tags: vec![],
    }
}

#[test]
fn summary_sanitization() {
    let text = "<p>Lorem ipsum dolor sit amet, consectetur adipiscing elit, sed do \
                eiusmod tempor incididunt ut labore et dolore magna aliqua. Ut enim ad minim \
                veniam, quis nostrud exercitation ullamco laboris nisi ut aliquip ex ea \
                commodo consequat. Duis aute irure dolor in reprehenderit in voluptate velit \
                esse cillum dolore eu fugiat nulla pariatur. Excepteur sint occaecat \
                cupidatat non proident, sunt in culpa qui officia deserunt mollit anim id est \
                laborum.</p>";
    let html = Html::new(String::from(text));
    assert!(html.as_str().len() > SUMMARY_LENGTH);

    let summary = create_summary(&html, "http://google.com");

    assert!(summary.as_str().ends_with("</p>"));
}

#[test]
fn hello_world_scenario() {
    let doc = split_document("hello.md", HELLO).unwrap();
    assert_eq!(doc.front_matter, "title: Hello World\ndate: 3:00pm 06/15/18");
    assert_eq!(doc.content.as_str(), "# Hi\n\nSome *text*.");
    let meta = front_matter_from_yaml(&doc.front_matter);
    let post = parse_post("hello.md", doc, meta).unwrap();
    assert_eq!(post.metadata.title, "Hello World");
    assert_eq!(
        post.metadata.date,
        PostDate { year: 2018, month: 6, day: 15, hour: 15, minute: 0 }
    );
    assert_eq!(post.slug(), "hello-world");
    assert_eq!(post.url(), "/blog/2018/6/15/hello-world");
    let enriched = new_post(&post);
    assert!(enriched.html.as_str().contains("<h1>Hi</h1>"));
    assert!(enriched.html.as_str().contains("<em>text</em>"));
    assert_eq!(enriched.slug, "hello-world");
    assert_eq!(enriched.url, "/blog/2018/6/15/hello-world");
    assert!(enriched.summary.as_str().contains("href=\"/blog/2018/6/15/hello-world\""));
}

#[test]
fn content_is_everything_after_first_blank_line() {
    let doc = split_document("a.md", "a: b\n\nfirst\n\n\nsecond\n").unwrap();
    assert_eq!(doc.front_matter, "a: b");
    assert_eq!(doc.content.as_str(), "first\n\n\nsecond\n");
    let doc = split_document("b.md", "\n\n").unwrap();
    assert_eq!(doc.front_matter, "");
    assert_eq!(doc.content.as_str(), "");
}

#[test]
fn no_blank_line_is_malformed() {
    let err = split_document("posts/flat.md", "title: x\ndate: 3:00pm 06/15/18\n# no content")
        .unwrap_err();
    assert_eq!(err.kind, ParseErrorKind::MalformedDocument);
    assert_eq!(err.source, "posts/flat.md");
    let err = split_document("empty.md", "").unwrap_err();
    assert_eq!(err.kind, ParseErrorKind::MalformedDocument);
    let err = split_document("single.md", "a\nb\n").unwrap_err();
    assert_eq!(err.kind, ParseErrorKind::MalformedDocument);
}

#[test]
fn parse_errors_carry_the_file() {
    let doc = split_document("posts/broken.md", "title: [unclosed\n\nbody").unwrap();
    let meta = front_matter_from_yaml(&doc.front_matter);
    let err = parse_post("posts/broken.md", doc, meta).unwrap_err();
    assert_eq!(err.source, "posts/broken.md");
    assert_eq!(err.kind, ParseErrorKind::MetadataSyntaxError);
}

#[test]
fn metadata_errors() {
    assert_eq!(parse_metadata(None).unwrap_err(), ParseErrorKind::MetadataSyntaxError);
    assert_eq!(
        parse_metadata(Some(front(None, Some("3:00pm 06/15/18")))).unwrap_err(),
        ParseErrorKind::MissingField(Field::Title)
    );
    assert_eq!(
        parse_metadata(Some(front(Some(""), Some("3:00pm 06/15/18")))).unwrap_err(),
        ParseErrorKind::EmptyField(Field::Title)
    );
    assert_eq!(
        parse_metadata(Some(front(Some(""), None))).unwrap_err(),
        ParseErrorKind::MissingField(Field::Date)
    );
    assert_eq!(
        parse_metadata(Some(front(None, None))).unwrap_err(),
        ParseErrorKind::MissingField(Field::Title)
    );
    assert_eq!(
        parse_metadata(Some(front(Some("T"), None))).unwrap_err(),
        ParseErrorKind::MissingField(Field::Date)
    );
    assert_eq!(
        parse_metadata(Some(front(Some("T"), Some("2018-06-15")))).unwrap_err(),
        ParseErrorKind::InvalidDateFormat
    );
    let ok = parse_metadata(Some(FrontMatter {
        title: Some("T".to_string()),
        date: Some("9:05am 12/01/17".to_string()),
        categories: vec!["rust".to_string()],
        tags: vec!["a".to_string(), "b".to_string()],
    }))
    .unwrap();
    assert_eq!(ok.date, PostDate { year: 2017, month: 12, day: 1, hour: 9, minute: 5 });
    assert_eq!(ok.categories, vec!["rust".to_string()]);
    assert_eq!(ok.tags, vec!["a".to_string(), "b".to_string()]);
}

#[test]
fn categories_and_tags_from_yaml() {
    let meta = front_matter_from_yaml(
        "title: T\ndate: 12:00am 01/02/03\ncategories: [one, two]\ntags: [x]",
    )
    .unwrap();
    let m = parse_metadata(Some(meta)).unwrap();
    assert_eq!(m.categories, vec!["one".to_string(), "two".to_string()]);
    assert_eq!(m.tags, vec!["x".to_string()]);
    assert_eq!(m.date, PostDate { year: 2003, month: 1, day: 2, hour: 0, minute: 0 });
}

#[test]
fn on_disk_dates() {
    assert_eq!(
        PostDate::parse_on_disk("3:00pm 06/15/18"),
        Some(PostDate { year: 2018, month: 6, day: 15, hour: 15, minute: 0 })
    );
    assert_eq!(
        PostDate::parse_on_disk("11:59pm 12/31/99"),
        Some(PostDate { year: 1999, month: 12, day: 31, hour: 23, minute: 59 })
    );
    assert_eq!(PostDate::parse_on_disk("13:00pm 06/15/18"), None);
    assert_eq!(PostDate::parse_on_disk("3:00pm 13/15/18"), None);
    assert_eq!(PostDate::parse_on_disk("not a date"), None);
}

#[test]
fn human_readable_dates() {
    let d = PostDate { year: 2018, month: 6, day: 15, hour: 15, minute: 0 };
    assert_eq!(d.human_readable().unwrap(), "June 15, 2018");
    let d = PostDate { year: 2017, month: 12, day: 5, hour: 0, minute: 0 };
    assert_eq!(d.human_readable().unwrap(), "December  5, 2017");
    let d = PostDate { year: 5, month: 1, day: 1, hour: 0, minute: 0 };
    assert_eq!(d.human_readable().unwrap(), "January  1, 0005");
    let d = PostDate { year: 2018, month: 2, day: 30, hour: 0, minute: 0 };
    assert_eq!(d.human_readable(), None);
}

#[test]
fn slug_lowercases_and_hyphenates() {
    assert_eq!(slug("Hello World"), "hello-world");
    assert_eq!(slug("Hello World"), slug("Hello World"));
    assert_eq!(slug("  A  B "), "--a--b-");
    assert_eq!(slug("ÀB C"), "àb-c");
    assert_eq!(slug(""), "");
}

#[test]
fn markdown_renders_extensions() {
    let html = render_html("see https://example.com\n\n```\ncode\n```\n");
    assert!(html.as_str().contains("<a href=\"https://example.com\">"));
    assert!(html.as_str().contains("<code>code\n</code>"));
    let escaped = render_html("hi <b>x</b>\n\n<script>alert(1)</script>\n");
    assert!(escaped.as_str().contains("&lt;b&gt;"));
    assert!(!escaped.as_str().contains("<script>"));
    let table = render_html("| a | b |\n|---|---|\n| 1 | 2 |\n");
    assert!(table.as_str().contains("<table>"));
}

#[test]
fn summary_source_truncates_by_characters() {
    let long: String = std::iter::repeat('é').take(250).collect();
    let src = summary_source(&Html::new(long.clone()), "/u");
    let expected: String = std::iter::repeat('é').take(200).collect::<String>()
        + "\u{2026} <a href=\"/u\">Continue&rarr;</a>";
    assert_eq!(src, expected);
}

#[test]
fn short_summary_keeps_all_and_links() {
    let src = summary_source(&Html::new("<p>short</p>".to_string()), "/blog/x");
    assert_eq!(src, "<p>short</p>\u{2026} <a href=\"/blog/x\">Continue&rarr;</a>");
    let clean = create_summary(&Html::new("<p>short</p>".to_string()), "/blog/x");
    assert!(clean.as_str().contains("<a href=\"/blog/x\""));
    assert!(clean.as_str().contains("Continue\u{2192}</a>"));
}

#[test]
fn summary_closes_cut_tags() {
    let text = format!("<p><strong>{}</strong></p>", "x".repeat(300));
    let clean = create_summary(&Html::new(text), "/blog/y");
    let s = clean.as_str();
    assert!(s.contains("</strong>"));
    assert!(s.ends_with("</p>"));
    assert!(!s.contains("<script"));
    let hostile = create_summary(&Html::new("<script>alert(1)</script>".to_string()), "/z");
    assert!(!hostile.as_str().contains("<script"));
}

#[test]
fn store_error_variant() {
    assert_eq!(StoreError::DuplicateKey, StoreError::DuplicateKey);
}
