use website::blog::{ingest, load, PostStore, StoreError, NUM_SUMMARIES};
use website::date::{Day, PostDate};
use website::markdown::{Html, Markdown};
use website::models::NewPost;
use website::post::{split_document, FrontMatter, ParsedPost};

fn date(year: i32, month: u32, day: u32, hour: u32) -> PostDate {
    PostDate { year, month, day, hour, minute: 0 }
}

fn new(title: &str, slug: &str, d: PostDate, content: &str) -> NewPost {
    NewPost {
        title: title.to_string(),
        date: d,
        html: Html::new(format!("<p>{}</p>", content)),
        summary: Html::new(format!("<p>{}</p>", title)),
        url: format!("/blog/{}/{}/{}/{}", d.year, d.month, d.day, slug),
        slug: slug.to_string(),
        content: Markdown::new(content.to_string()),
    }
}

fn three() -> PostStore {
    ingest(&vec![
        new("Second", "second", date(2018, 2, 1, 10), "middle post about rust"),
        new("First", "first", date(2017, 1, 1, 10), "oldest post"),
        new("Third", "third", date(2018, 3, 1, 10), "newest post about verus"),
    ])
    .unwrap()
}

#[test]
fn listing_is_newest_first() {
    let store = three();
    let titles: Vec<String> = store.get_summaries().into_iter().map(|s| s.title).collect();
    assert_eq!(titles, vec!["Third", "Second", "First"]);
    let ids: Vec<usize> = store.posts.iter().map(|p| p.id).collect();
    assert_eq!(ids, vec![3, 1, 2]);
    assert_eq!(store.index.len(), 3);
    assert_eq!(store.index[0].content, "newest post about verus");
}

#[test]
fn adjacency_of_three_posts() {
    let store = three();
    let (prev, next) = store.adjacent(&date(2018, 2, 1, 10));
    assert_eq!(prev.unwrap().title, "First");
    assert_eq!(next.unwrap().title, "Third");
    let (prev, next) = store.adjacent(&date(2017, 1, 1, 10));
    assert!(prev.is_none());
    assert_eq!(next.unwrap().title, "Second");
    let (prev, next) = store.adjacent(&date(2018, 3, 1, 10));
    assert_eq!(prev.unwrap().title, "Second");
    assert!(next.is_none());
}

#[test]
fn get_post_by_day_and_slug() {
    let store = three();
    let post = store.get_post(&Day { year: 2018, month: 2, day: 1 }, "second").unwrap();
    assert_eq!(post.title, "Second");
    assert_eq!(post.html.as_str(), "<p>middle post about rust</p>");
    assert_eq!(post.prev_post.unwrap().url, "/blog/2017/1/1/first");
    assert_eq!(post.next_post.unwrap().url, "/blog/2018/3/1/third");
    assert!(store.get_post(&Day { year: 2018, month: 2, day: 2 }, "second").is_none());
    assert!(store.get_post(&Day { year: 2018, month: 2, day: 1 }, "first").is_none());
    assert!(store.get_post(&Day { year: 2016, month: 13, day: 31 }, "invalid-date").is_none());
}

#[test]
fn search_returns_listed_matches() {
    let store = three();
    let all: Vec<String> = store.get_summaries().into_iter().map(|s| s.url).collect();
    let found = store.find_summaries("about");
    let titles: Vec<String> = found.iter().map(|s| s.title.clone()).collect();
    assert_eq!(titles, vec!["Third", "Second"]);
    for s in &found {
        assert!(all.contains(&s.url));
    }
    assert_eq!(store.find_summaries("First").len(), 1);
    assert_eq!(store.find_summaries("first").len(), 1);
    assert_eq!(store.find_summaries("RUST")[0].title, "Second");
    assert_eq!(store.find_summaries("About Verus")[0].title, "Third");
    assert!(store.find_summaries("nonsensequerythatwillreturnnovalues").is_empty());
    assert!(store.find_summaries("<p>").is_empty());
}

#[test]
fn listing_with_and_without_query() {
    let store = three();
    assert_eq!(store.blog_listing("").len(), 3);
    assert_eq!(store.blog_listing("verus").len(), 1);
    assert_eq!(store.latest_summaries(NUM_SUMMARIES).len(), 3);
    assert_eq!(store.latest_summaries(2).len(), 2);
    assert_eq!(store.latest_summaries(2)[1].title, "Second");
    assert_eq!(store.latest_summaries(10).len(), 3);
}

#[test]
fn duplicate_day_and_slug_is_refused() {
    let r = ingest(&vec![
        new("Same", "same", date(2018, 2, 1, 10), "a"),
        new("Same", "same", date(2018, 2, 1, 18), "b"),
    ]);
    assert_eq!(r.unwrap_err(), StoreError::DuplicateKey);
    let ok = ingest(&vec![
        new("Same", "same", date(2018, 2, 1, 10), "a"),
        new("Same", "same", date(2018, 2, 2, 10), "b"),
    ]);
    assert_eq!(ok.unwrap().posts.len(), 2);
    let mut first = new("One", "one", date(2018, 2, 1, 10), "a");
    let second = new("Two", "two", date(2018, 3, 1, 10), "b");
    first.url = second.url.clone();
    assert_eq!(ingest(&vec![first, second]).unwrap_err(), StoreError::DuplicateKey);
}

#[test]
fn empty_store() {
    let store = ingest(&vec![]).unwrap();
    assert!(store.get_summaries().is_empty());
    assert!(store.find_summaries("x").is_empty());
    let (prev, next) = store.adjacent(&date(2018, 1, 1, 0));
    assert!(prev.is_none() && next.is_none());
}

fn parsed(title: &str, d: &str, body: &str) -> ParsedPost {
    let raw = format!("title: {}\ndate: {}\n\n{}", title, d, body);
    let doc = split_document("p.md", &raw).unwrap();
    let front = FrontMatter {
        title: Some(title.to_string()),
        date: Some(d.to_string()),
        categories: vec![],
        tags: vec![],
    };
    website::post::parse_post("p.md", doc, Some(front)).unwrap()
}

#[test]
fn load_renders_and_stores() {
    let posts = vec![
        parsed("Hello World", "3:00pm 06/15/18", "# Hi\n\nSome *text*."),
        parsed("Later Post", "9:00am 07/01/18", "More words."),
    ];
    let store = load(&posts).unwrap();
    assert_eq!(store.posts[0].title, "Later Post");
    assert_eq!(store.posts[1].url, "/blog/2018/6/15/hello-world");
    assert!(store.posts[1].html.as_str().contains("<h1>Hi</h1>"));
    assert_eq!(store.index[1].content, "# Hi\n\nSome *text*.");
    assert!(store.find_summaries("*text*").len() == 1);
    let clash = vec![
        parsed("Hello World", "3:00pm 06/15/18", "a"),
        parsed("hello world", "5:00pm 06/15/18", "b"),
    ];
    assert_eq!(load(&clash).unwrap_err(), StoreError::DuplicateKey);
}
