use podcasts::feed::{get_feed, FeedUrl, FetchError};
use podcasts::message::{Channel, Episode};

fn sample_document() -> Vec<u8> {
    let text = "<?xml version=\"1.0\" encoding=\"UTF-8\"?>\
<rss version=\"2.0\"><channel>\
<title>Wine About It</title>\
<link>https://example.com/</link>\
<description>A show</description>\
<item><title>First</title><description>&lt;p&gt;One&lt;/p&gt;</description>\
<enclosure url=\"https://example.com/1.mp3\" length=\"10\" type=\"audio/mpeg\"/></item>\
<item><description>No title here</description></item>\
<item><title>Third</title></item>\
</channel></rss>";
    text.as_bytes().to_vec()
}

#[test]
fn url_is_kept_in_serialized_form() {
    let url = FeedUrl::parse("https://google.com").expect("an absolute URL");
    assert_eq!(url.as_str(), "https://google.com/");
    assert_eq!(url.as_str(), url::Url::parse("https://google.com").unwrap().as_str());
}

#[test]
fn url_with_a_path_is_kept_as_written() {
    let url = FeedUrl::parse("https://feeds.example.com/show").expect("an absolute URL");
    assert_eq!(url.as_str(), "https://feeds.example.com/show");
}

#[test]
fn url_is_normalised_as_the_url_crate_does() {
    let url = FeedUrl::parse("HTTPS://Example.COM:443/a/../b").expect("an absolute URL");
    assert_eq!(url.as_str(), "https://example.com/b");
}

#[test]
fn text_that_is_no_absolute_url_gives_no_address() {
    assert_eq!(FeedUrl::parse(""), None);
    assert_eq!(FeedUrl::parse("google.com"), None);
    assert_eq!(FeedUrl::parse("/relative/path"), None);
    assert_eq!(FeedUrl::parse("https://"), None);
}

#[test]
fn addresses_compare_by_their_serialization() {
    let a = FeedUrl::parse("https://google.com").unwrap();
    let b = FeedUrl::parse("https://google.com/").unwrap();
    let c = FeedUrl::parse("https://google.com/x").unwrap();
    assert_eq!(a, b);
    assert_ne!(a, c);
    assert_eq!(a.clone(), a);
}

#[test]
fn failed_transport_is_a_transport_error() {
    assert_eq!(get_feed(None), Err(FetchError::Transport));
}

#[test]
fn malformed_document_is_a_decode_error() {
    assert_eq!(get_feed(Some(b"this is not a feed")), Err(FetchError::Decode));
    assert_eq!(get_feed(Some(b"")), Err(FetchError::Decode));
    assert_eq!(get_feed(Some(b"<html><body>hello</body></html>")), Err(FetchError::Decode));
    assert_eq!(get_feed(Some(b"<rss version=\"2.0\"></rss>")), Err(FetchError::Decode));
}

#[test]
fn document_is_decoded_into_title_and_episodes() {
    let body = sample_document();
    let channel = get_feed(Some(&body)).expect("a feed");
    let expected = Channel::new(
        "Wine About It".to_string(),
        vec![
            Episode::new(
                Some("First".to_string()),
                Some("<p>One</p>".to_string()),
                Some("https://example.com/1.mp3".to_string()),
            ),
            Episode::new(None, Some("No title here".to_string()), None),
            Episode::new(Some("Third".to_string()), None, None),
        ],
    );
    assert_eq!(channel, expected);
}

#[test]
fn decoding_agrees_with_the_rss_crate() {
    let body = sample_document();
    let channel = get_feed(Some(&body)).expect("a feed");
    let theirs = rss::Channel::read_from(&body[..]).expect("a feed");
    assert_eq!(channel.title, theirs.title());
    assert_eq!(channel.items.len(), theirs.items().len());
    for (ours, item) in channel.items.iter().zip(theirs.items()) {
        assert_eq!(ours.title.as_deref(), item.title());
        assert_eq!(ours.description.as_deref(), item.description());
        assert_eq!(ours.enclosure_url.as_deref(), item.enclosure().map(|e| e.url()));
    }
}

#[test]
fn every_call_decodes_anew() {
    let body = sample_document();
    assert_eq!(get_feed(Some(&body)), get_feed(Some(&body)));
    assert_eq!(get_feed(None), Err(FetchError::Transport));
    assert!(get_feed(Some(&body)).is_ok());
}

#[test]
fn defaults_are_empty() {
    assert_eq!(Channel::default(), Channel::new(String::new(), Vec::new()));
    assert_eq!(Episode::default(), Episode::new(None, None, None));
}

#[test]
fn copies_are_equal() {
    let body = sample_document();
    let channel = get_feed(Some(&body)).expect("a feed");
    assert_eq!(channel.clone(), channel);
    assert_eq!(channel.items[0].clone(), channel.items[0]);
}
