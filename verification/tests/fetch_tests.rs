use jrss::error::{ErrorKind, FetchError};
use jrss::feed::{Feed, FeedItem};
use jrss::fetch::{accept, decode, interpret, parse_feed, Transfer};

const THREE_ITEMS: &str = r#"<?xml version="1.0" encoding="UTF-8"?>
<rss version="2.0">
  <channel>
    <title>T</title>
    <link>https://example.com/</link>
    <description>D</description>
    <item>
      <title>first</title>
      <link>https://example.com/1</link>
      <description>one</description>
    </item>
    <item>
      <title>second</title>
      <link>https://example.com/2</link>
    </item>
    <item>
      <description>three</description>
    </item>
  </channel>
</rss>"#;

fn item(title: Option<&str>, link: Option<&str>, description: Option<&str>) -> FeedItem {
    FeedItem {
        title: title.map(str::to_string),
        link: link.map(str::to_string),
        description: description.map(str::to_string),
    }
}

fn ok_response(body: &str) -> Transfer {
    Transfer::Response { status: 200, body: body.as_bytes().to_vec() }
}

#[test]
fn well_formed_feed_keeps_title_description_and_item_order() {
    let feed = parse_feed(THREE_ITEMS.as_bytes()).unwrap();
    assert_eq!(
        feed,
        Feed {
            title: "T".to_string(),
            description: "D".to_string(),
            items: vec![
                item(Some("first"), Some("https://example.com/1"), Some("one")),
                item(Some("second"), Some("https://example.com/2"), None),
                item(None, None, Some("three")),
            ],
        }
    );
}

#[test]
fn interpret_returns_the_feed_of_a_successful_response() {
    let feed = interpret(ok_response(THREE_ITEMS)).unwrap();
    assert_eq!(feed.title, "T");
    assert_eq!(feed.description, "D");
    assert_eq!(feed.items.len(), 3);
    assert_eq!(feed.items[0].title.as_deref(), Some("first"));
    assert_eq!(feed.items[1].title.as_deref(), Some("second"));
    assert_eq!(feed.items[2].title, None);
}

#[test]
fn feed_without_items_has_no_items() {
    let body = "<rss><channel><title>T</title><description>D</description></channel></rss>";
    let feed = parse_feed(body.as_bytes()).unwrap();
    assert_eq!(feed, Feed { title: "T".to_string(), description: "D".to_string(), items: vec![] });
}

#[test]
fn missing_item_description_is_absent() {
    let feed = parse_feed(THREE_ITEMS.as_bytes()).unwrap();
    assert_eq!(feed.items[1].description, None);
    assert_ne!(feed.items[1].description, Some(String::new()));
}

#[test]
fn missing_item_title_and_link_are_absent() {
    let feed = parse_feed(THREE_ITEMS.as_bytes()).unwrap();
    assert_eq!(feed.items[2].title, None);
    assert_eq!(feed.items[2].link, None);
    assert_eq!(feed.items[2].description.as_deref(), Some("three"));
}

#[test]
fn item_with_no_fields_is_kept() {
    let body =
        "<rss><channel><title>T</title><description>D</description><item></item></channel></rss>";
    let feed = parse_feed(body.as_bytes()).unwrap();
    assert_eq!(feed.items, vec![item(None, None, None)]);
}

#[test]
fn transport_failure_is_a_network_error_with_its_cause() {
    let result = interpret(Transfer::Failed("dns error: no such host".to_string()));
    assert_eq!(result, Err(FetchError::Transport("dns error: no such host".to_string())));
    assert_eq!(result.unwrap_err().kind(), ErrorKind::Network);
}

#[test]
fn plain_text_body_is_a_parse_error() {
    let result = interpret(ok_response("hello, this is not a feed"));
    assert_eq!(
        result,
        Err(FetchError::Malformed(
            "reached end of input without finding a complete channel".to_string()
        ))
    );
    assert_eq!(result.unwrap_err().kind(), ErrorKind::Parse);
}

#[test]
fn empty_body_is_a_parse_error() {
    let result = interpret(Transfer::Response { status: 200, body: Vec::new() });
    assert_eq!(result.unwrap_err().kind(), ErrorKind::Parse);
}

#[test]
fn other_markup_is_a_parse_error() {
    let result = parse_feed(b"<html><body>hi</body></html>");
    assert_eq!(
        result,
        Err(FetchError::Malformed("the input did not begin with an rss tag".to_string()))
    );
}

#[test]
fn rss_without_channel_is_a_parse_error() {
    let result = parse_feed(b"<rss version=\"2.0\"></rss>");
    assert_eq!(
        result,
        Err(FetchError::Malformed(
            "reached end of input without finding a complete channel".to_string()
        ))
    );
}

#[test]
fn unclosed_markup_is_a_parse_error() {
    let result = parse_feed(b"<rss><channel><title>T</title>");
    assert!(matches!(result, Err(FetchError::Malformed(_))));
}

#[test]
fn channel_without_title_is_rejected() {
    let body = "<rss><channel><description>D</description></channel></rss>";
    let result = parse_feed(body.as_bytes());
    assert_eq!(result, Err(FetchError::MissingTitle));
    assert_eq!(result.unwrap_err().kind(), ErrorKind::Parse);
}

#[test]
fn channel_without_description_is_rejected() {
    let body = "<rss><channel><title>T</title></channel></rss>";
    let result = parse_feed(body.as_bytes());
    assert_eq!(result, Err(FetchError::MissingDescription));
    assert_eq!(result.unwrap_err().kind(), ErrorKind::Parse);
}

#[test]
fn channel_without_either_reports_the_title() {
    let result = parse_feed(b"<rss><channel></channel></rss>");
    assert_eq!(result, Err(FetchError::MissingTitle));
}

#[test]
fn blank_channel_title_counts_as_missing() {
    let body = "<rss><channel><title>  </title><description>D</description></channel></rss>";
    assert_eq!(parse_feed(body.as_bytes()), Err(FetchError::MissingTitle));
}

#[test]
fn status_outside_2xx_is_a_network_error() {
    for status in [0u16, 100, 199, 300, 301, 404, 500, 599, u16::MAX] {
        let result = interpret(Transfer::Response {
            status,
            body: THREE_ITEMS.as_bytes().to_vec(),
        });
        assert_eq!(result, Err(FetchError::Status(status)));
        assert_eq!(result.unwrap_err().kind(), ErrorKind::Network);
    }
}

#[test]
fn every_2xx_status_is_decoded() {
    for status in [200u16, 201, 204, 250, 299] {
        let result = interpret(Transfer::Response {
            status,
            body: THREE_ITEMS.as_bytes().to_vec(),
        });
        assert_eq!(result.unwrap().title, "T");
    }
}

#[test]
fn refused_status_does_not_look_at_the_body() {
    let result = interpret(Transfer::Response { status: 404, body: b"not a feed".to_vec() });
    assert_eq!(result, Err(FetchError::Status(404)));
}

#[test]
fn decode_gives_the_document_or_the_complaint() {
    let document = decode(THREE_ITEMS.as_bytes()).unwrap();
    assert_eq!(document.title, "T");
    assert_eq!(document.items.len(), 3);
    assert_eq!(
        decode(b"plain"),
        Err("reached end of input without finding a complete channel".to_string())
    );
}

#[test]
fn decode_keeps_a_document_without_title() {
    let document = decode(b"<rss><channel><description>D</description></channel></rss>").unwrap();
    assert_eq!(document.title, "");
    assert_eq!(document.description, "D");
}

#[test]
fn accept_passes_a_complete_document_through() {
    let feed = Feed {
        title: "T".to_string(),
        description: "D".to_string(),
        items: vec![item(Some("a"), None, None)],
    };
    assert_eq!(accept(Ok(feed.clone())), Ok(feed));
}

#[test]
fn accept_rejects_empty_mandatory_fields() {
    let no_title = Feed { title: String::new(), description: "D".to_string(), items: vec![] };
    let no_description = Feed { title: "T".to_string(), description: String::new(), items: vec![] };
    let neither = Feed { title: String::new(), description: String::new(), items: vec![] };
    assert_eq!(accept(Ok(no_title)), Err(FetchError::MissingTitle));
    assert_eq!(accept(Ok(no_description)), Err(FetchError::MissingDescription));
    assert_eq!(accept(Ok(neither)), Err(FetchError::MissingTitle));
}

#[test]
fn accept_turns_a_complaint_into_a_malformed_body() {
    assert_eq!(accept(Err("bad".to_string())), Err(FetchError::Malformed("bad".to_string())));
}

#[test]
fn from_channel_reads_title_description_and_items() {
    let mut first = rss::Item::default();
    first.set_title("a".to_string());
    first.set_link("http://a/".to_string());
    let mut second = rss::Item::default();
    second.set_description("b text".to_string());
    let mut channel = rss::Channel::default();
    channel.set_title("Title");
    channel.set_link("http://site/");
    channel.set_description("About");
    channel.set_items(vec![first, second]);
    assert_eq!(
        Feed::from_channel(&channel),
        Feed {
            title: "Title".to_string(),
            description: "About".to_string(),
            items: vec![
                item(Some("a"), Some("http://a/"), None),
                item(None, None, Some("b text")),
            ],
        }
    );
}

#[test]
fn from_entry_keeps_each_field_apart() {
    let mut entry = rss::Item::default();
    entry.set_title("t".to_string());
    entry.set_link("l".to_string());
    entry.set_description("d".to_string());
    entry.set_author("someone".to_string());
    assert_eq!(FeedItem::from_entry(&entry), item(Some("t"), Some("l"), Some("d")));
    assert_eq!(FeedItem::from_entry(&rss::Item::default()), item(None, None, None));
}

#[test]
fn error_kinds() {
    assert_eq!(FetchError::Transport("x".to_string()).kind(), ErrorKind::Network);
    assert_eq!(FetchError::Status(503).kind(), ErrorKind::Network);
    assert_eq!(FetchError::Malformed("x".to_string()).kind(), ErrorKind::Parse);
    assert_eq!(FetchError::MissingTitle.kind(), ErrorKind::Parse);
    assert_eq!(FetchError::MissingDescription.kind(), ErrorKind::Parse);
    assert_eq!(FetchError::Index(3).kind(), ErrorKind::Index);
}

#[test]
fn repeated_calls_are_independent() {
    let first = parse_feed(THREE_ITEMS.as_bytes());
    let failed = parse_feed(b"junk");
    let second = parse_feed(THREE_ITEMS.as_bytes());
    assert!(failed.is_err());
    assert_eq!(first, second);
}
