use jira_export::csv_sink::{csv_contents, get_out_file, join_records};
use jira_export::model::{Item, Rss};

fn item(title: &str, link: &str) -> Item {
    Item::new(title.to_string(), link.to_string())
}

#[test]
fn single_item_gives_single_row() {
    let rss = Rss::new(vec![item("A", "http://x")]);
    let bytes = csv_contents(&rss).unwrap();
    assert_eq!(bytes, b"<a href='http://x'>A</a>\n".to_vec());
}

#[test]
fn rows_follow_item_order() {
    let rss = Rss::new(vec![item("one", "l1"), item("two", "l2"), item("one", "l1")]);
    let text = String::from_utf8(csv_contents(&rss).unwrap()).unwrap();
    let rows: Vec<&str> = text.lines().collect();
    assert_eq!(
        rows,
        vec!["<a href='l1'>one</a>", "<a href='l2'>two</a>", "<a href='l1'>one</a>"]
    );
}

#[test]
fn empty_item_row() {
    let rss = Rss::new(vec![item("", "")]);
    assert_eq!(csv_contents(&rss).unwrap(), b"<a href=''></a>\n".to_vec());
}

#[test]
fn empty_document_gives_empty_file() {
    assert!(csv_contents(&Rss::new(vec![])).unwrap().is_empty());
}

#[test]
fn field_with_comma_is_quoted() {
    let rss = Rss::new(vec![item("a,b", "l")]);
    assert_eq!(csv_contents(&rss).unwrap(), b"\"<a href='l'>a,b</a>\"\n".to_vec());
}

#[test]
fn field_with_quote_is_quoted_and_doubled() {
    let rss = Rss::new(vec![item("say \"hi\"", "l")]);
    assert_eq!(
        csv_contents(&rss).unwrap(),
        b"\"<a href='l'>say \"\"hi\"\"</a>\"\n".to_vec()
    );
}

#[test]
fn two_encodings_are_identical() {
    let rss = Rss::new(vec![item("x, y", "http://z"), item("w", "v")]);
    assert_eq!(csv_contents(&rss).unwrap(), csv_contents(&rss).unwrap());
}

#[test]
fn out_file_replaces_extension() {
    assert_eq!(get_out_file("foo.xml"), "foo.out.csv");
    assert_eq!(get_out_file("noext"), "noext.out.csv");
}

#[test]
fn out_file_keeps_directory() {
    assert_eq!(get_out_file("dir/sub/feed.xml"), "dir/sub/feed.out.csv");
    assert_eq!(get_out_file("/tmp/feed.xml"), "/tmp/feed.out.csv");
}

#[test]
fn join_records_concatenates() {
    let recs = vec![b"ab\n".to_vec(), Vec::new(), b"c\n".to_vec()];
    assert_eq!(join_records(&recs), b"ab\nc\n".to_vec());
    assert!(join_records(&Vec::new()).is_empty());
}
