use podcasts::ui::input::{parse, Command};

#[test]
fn parses_fetch_podcast_feed() {
    let input = "/load https://google.com something else";
    if let Command::FetchPodcastFeed(url) = parse(input) {
        assert_eq!(url, "https://google.comsomethingelse")
    } else {
        panic!("Did not get the right InputType");
    }
}

#[test]
fn parses_fetch_podcast_feed_no_args() {
    let input = "/load";
    if let Command::FetchPodcastFeed(url) = parse(input) {
        assert_eq!(url, "")
    } else {
        panic!("Did not get the right InputType");
    }
}

#[test]
fn parses_no_op() {
    let input = "something";
    assert_eq!(parse(input), Command::NoOp);
}

#[test]
fn parses_empty_input() {
    assert_eq!(parse(""), Command::NoOp);
}

#[test]
fn parses_load_with_one_url() {
    assert_eq!(
        parse("/load https://feeds.example.com/show"),
        Command::FetchPodcastFeed("https://feeds.example.com/show".to_string())
    );
}

#[test]
fn parses_load_with_runs_of_spaces() {
    assert_eq!(parse("/load   a  b "), Command::FetchPodcastFeed("ab".to_string()));
    assert_eq!(parse("/load "), Command::FetchPodcastFeed(String::new()));
}

#[test]
fn opcode_is_the_whole_first_token() {
    assert_eq!(parse("/loadx https://google.com"), Command::NoOp);
    assert_eq!(parse("/loa"), Command::NoOp);
    assert_eq!(parse("/LOAD https://google.com"), Command::NoOp);
    assert_eq!(parse("load https://google.com"), Command::NoOp);
}

#[test]
fn leading_space_makes_an_empty_opcode() {
    assert_eq!(parse(" /load https://google.com"), Command::NoOp);
    assert_eq!(parse(" "), Command::NoOp);
}

#[test]
fn other_white_space_does_not_split() {
    assert_eq!(parse("/load\thttps://google.com"), Command::NoOp);
    assert_eq!(parse("/load a\tb"), Command::FetchPodcastFeed("a\tb".to_string()));
}

#[test]
fn parses_text_beyond_ascii() {
    assert_eq!(
        parse("/load https://例え.jp/ポッド キャスト"),
        Command::FetchPodcastFeed("https://例え.jp/ポッドキャスト".to_string())
    );
}

#[test]
fn default_command_is_no_op() {
    assert_eq!(Command::default(), Command::NoOp);
}
