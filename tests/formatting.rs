use jira_export::anchor::make_anchor;
use jira_export::console_sink::{console_line, console_lines, cut_comma, remove_commas};
use jira_export::model::{Item, Rss};

fn item(title: &str, link: &str) -> Item {
    Item::new(title.to_string(), link.to_string())
}

#[test]
fn anchor_inserts_title_and_link() {
    assert_eq!(make_anchor("A", "http://x"), "<a href='http://x'>A</a>");
}

#[test]
fn anchor_of_empty_item() {
    assert_eq!(make_anchor("", ""), "<a href=''></a>");
}

#[test]
fn anchor_does_not_escape() {
    assert_eq!(make_anchor("<b>\"q\"</b>", "a'b"), "<a href='a'b'><b>\"q\"</b></a>");
}

#[test]
fn remove_commas_drops_every_comma() {
    assert_eq!(remove_commas("Hello, World"), "Hello World");
    assert_eq!(remove_commas(",a,,b,"), "ab");
    assert_eq!(remove_commas(",,,"), "");
    assert_eq!(remove_commas(""), "");
    assert_eq!(remove_commas("no commas here"), "no commas here");
    assert_eq!(remove_commas("é,ü"), "éü");
}

#[test]
fn cut_comma_keeps_text_before_first_comma() {
    assert_eq!(cut_comma("http://a.com"), "http://a.com");
    assert_eq!(cut_comma("a,b,c"), "a");
    assert_eq!(cut_comma(",x"), "");
    assert_eq!(cut_comma("ä,ö"), "ä");
}

#[test]
fn cut_comma_of_empty_link_is_empty() {
    assert_eq!(cut_comma(""), "");
}

#[test]
fn console_line_of_example_item() {
    let it = item("Hello, World", "http://a.com");
    assert_eq!(console_line(&it), "Hello World, http://a.com");
}

#[test]
fn console_line_of_empty_item() {
    assert_eq!(console_line(&item("", "")), ", ");
}

#[test]
fn console_line_truncates_link() {
    assert_eq!(console_line(&item("T", "http://a,b")), "T, http://a");
}

#[test]
fn console_lines_one_per_item_in_order() {
    let rss = Rss::new(vec![
        item("a,1", "l1"),
        item("b", "l2,x"),
        item("a,1", "l1"),
    ]);
    let lines = console_lines(&rss);
    assert_eq!(lines, vec!["a1, l1".to_string(), "b, l2".to_string(), "a1, l1".to_string()]);
}

#[test]
fn console_lines_of_empty_document() {
    assert!(console_lines(&Rss::new(vec![])).is_empty());
}
