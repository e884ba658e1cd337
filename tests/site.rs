use website::config::Page;
use website::helpers::DEFAULT_SEPARATOR;

#[test]
fn join() {
    let parts = vec!["one".to_owned(), "two".to_owned(), "three".to_owned()];
    assert_eq!(website::helpers::join(&parts, DEFAULT_SEPARATOR), "one, two, three");
}

#[test]
fn join_edges() {
    assert_eq!(website::helpers::join(&vec![], ", "), "");
    assert_eq!(website::helpers::join(&vec!["solo".to_owned()], ", "), "solo");
    assert_eq!(website::helpers::join(&vec!["a".to_owned(), "b".to_owned()], "-"), "a-b");
}

#[test]
fn page_html_paths() {
    let page = Page::new("About".into(), "about".into(), "/about".into());
    assert_eq!(page.html_path(), "about/index.html");
    let root = Page::new("Home".into(), "index".into(), "/".into());
    assert_eq!(root.html_path(), "index.html");
    let nested = Page::new("R".into(), "r".into(), "/a/b/".into());
    assert_eq!(nested.html_path(), "a/b/index.html");
    let doubled = Page::new("X".into(), "x".into(), "//x".into());
    assert_eq!(doubled.html_path(), "x/index.html");
    let repeated = Page::new("Y".into(), "y".into(), "/a//b///c".into());
    assert_eq!(repeated.html_path(), "a/b/c/index.html");
    let slashes = Page::new("Z".into(), "z".into(), "///".into());
    assert_eq!(slashes.html_path(), "index.html");
    let dot_first = Page::new("D".into(), "d".into(), "/./a".into());
    assert_eq!(dot_first.html_path(), "a/index.html");
    let dot_last = Page::new("E".into(), "e".into(), "/a/.".into());
    assert_eq!(dot_last.html_path(), "a/index.html");
    let dot_inner = Page::new("F".into(), "f".into(), "/a/./b/.hidden/..".into());
    assert_eq!(dot_inner.html_path(), "a/b/.hidden/../index.html");
    let only_dot = Page::new("G".into(), "g".into(), "/.".into());
    assert_eq!(only_dot.html_path(), "index.html");
}
