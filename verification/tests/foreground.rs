use podcasts::feed::FeedUrl;
use podcasts::foreground::{display, handle_key, submit, KeyEvent, LoopStep};
use podcasts::message::{Channel, DisplayAction, Episode, Request, Response};
use podcasts::state::App;

fn episode(title: &str) -> Episode {
    Episode::new(
        Some(title.to_string()),
        Some(format!("about {}", title)),
        Some(format!("https://example.com/{}.mp3", title)),
    )
}

fn channel(titles: &[&str]) -> Channel {
    Channel::new("Show".to_string(), titles.iter().map(|t| episode(t)).collect())
}

fn type_line(app: &mut App, line: &str) {
    for c in line.chars() {
        assert_eq!(handle_key(app, KeyEvent::Char(c)), LoopStep::Continue(None));
    }
}

#[test]
fn characters_are_appended() {
    let mut app = App::default();
    type_line(&mut app, "/load x");
    assert_eq!(app.input, "/load x");
    assert_eq!(app.display_action, DisplayAction::Input);
}

#[test]
fn backspace_removes_the_last_character() {
    let mut app = App::default();
    type_line(&mut app, "abé");
    assert_eq!(handle_key(&mut app, KeyEvent::Backspace), LoopStep::Continue(None));
    assert_eq!(app.input, "ab");
    handle_key(&mut app, KeyEvent::Backspace);
    handle_key(&mut app, KeyEvent::Backspace);
    assert_eq!(app.input, "");
    assert_eq!(handle_key(&mut app, KeyEvent::Backspace), LoopStep::Continue(None));
    assert_eq!(app.input, "");
}

#[test]
fn quit_leaves_the_loop() {
    let mut app = App::default();
    type_line(&mut app, "typed");
    assert_eq!(handle_key(&mut app, KeyEvent::Quit), LoopStep::Exit);
    assert_eq!(app.input, "typed");
    assert_eq!(app.display_action, DisplayAction::Input);
}

#[test]
fn other_keys_do_nothing() {
    let mut app = App::default();
    type_line(&mut app, "typed");
    assert_eq!(handle_key(&mut app, KeyEvent::Other), LoopStep::Continue(None));
    assert_eq!(app.input, "typed");
    assert_eq!(app.selected, None);
    assert_eq!(app.display_action, DisplayAction::Input);
}

#[test]
fn arrows_move_the_cursor() {
    let mut app = App::default();
    app.channel = Some(channel(&["a", "b", "c"]));
    assert_eq!(handle_key(&mut app, KeyEvent::Down), LoopStep::Continue(None));
    assert_eq!(app.selected, Some(0));
    handle_key(&mut app, KeyEvent::Down);
    assert_eq!(app.selected, Some(1));
    assert_eq!(handle_key(&mut app, KeyEvent::Up), LoopStep::Continue(None));
    assert_eq!(app.selected, Some(0));
    handle_key(&mut app, KeyEvent::Up);
    assert_eq!(app.selected, Some(2));
    handle_key(&mut app, KeyEvent::Down);
    assert_eq!(app.selected, Some(0));
}

#[test]
fn submit_of_a_valid_url_requests_the_feed() {
    let mut app = App::default();
    type_line(&mut app, "/load https://feeds.example.com/show");
    let step = handle_key(&mut app, KeyEvent::Confirm);
    let url = FeedUrl::parse("https://feeds.example.com/show").unwrap();
    assert_eq!(step, LoopStep::Continue(Some(Request::Feed(url))));
    assert_eq!(app.display_action, DisplayAction::ListEpisodes);
    assert_eq!(app.input, "");
}

#[test]
fn submit_of_unparsable_input_changes_nothing() {
    for line in ["", "something", "/load", "/load not a url", "/load google.com", "load https://google.com"] {
        let mut app = App::default();
        app.selected = Some(3);
        type_line(&mut app, line);
        assert_eq!(handle_key(&mut app, KeyEvent::Confirm), LoopStep::Continue(None));
        assert_eq!(app.display_action, DisplayAction::Input);
        assert_eq!(app.input, line);
        assert_eq!(app.channel, None);
        assert_eq!(app.item, None);
        assert_eq!(app.selected, Some(3));
    }
}

#[test]
fn submit_joins_the_tokens_before_reading_the_url() {
    let mut app = App::default();
    type_line(&mut app, "/load https://feeds. example.com /show");
    let request = submit(&mut app);
    let url = FeedUrl::parse("https://feeds.example.com/show").unwrap();
    assert_eq!(request, Some(Request::Feed(url)));
}

#[test]
fn submit_on_the_list_requests_the_selected_episode() {
    let mut app = App::default();
    app.channel = Some(channel(&["a", "b", "c"]));
    app.selected = Some(1);
    app.display_action = DisplayAction::ListEpisodes;
    app.input = "typed".to_string();
    let request = submit(&mut app);
    assert_eq!(request, Some(Request::Episode(Some(episode("b")))));
    assert_eq!(app.display_action, DisplayAction::DescribeEpisode);
    assert_eq!(app.input, "typed");
    assert_eq!(app.selected, Some(1));
    assert_eq!(app.channel, Some(channel(&["a", "b", "c"])));
    assert_eq!(app.item, None);
}

#[test]
fn submit_on_the_list_without_a_selection() {
    let mut app = App::default();
    app.channel = Some(channel(&["a", "b", "c"]));
    app.display_action = DisplayAction::ListEpisodes;
    assert_eq!(submit(&mut app), Some(Request::Episode(None)));
    assert_eq!(app.display_action, DisplayAction::ListEpisodes);

    app.selected = Some(3);
    assert_eq!(submit(&mut app), Some(Request::Episode(None)));
    assert_eq!(app.display_action, DisplayAction::ListEpisodes);

    app.channel = Some(channel(&[]));
    app.selected = Some(0);
    assert_eq!(submit(&mut app), Some(Request::Episode(None)));
    assert_eq!(app.display_action, DisplayAction::ListEpisodes);
}

#[test]
fn submit_on_the_details_does_nothing() {
    let mut app = App::default();
    app.channel = Some(channel(&["a"]));
    app.selected = Some(0);
    app.item = Some(episode("a"));
    app.input = "/load https://google.com".to_string();
    app.display_action = DisplayAction::DescribeEpisode;
    assert_eq!(handle_key(&mut app, KeyEvent::Confirm), LoopStep::Continue(None));
    assert_eq!(app.display_action, DisplayAction::DescribeEpisode);
    assert_eq!(app.input, "/load https://google.com");
    assert_eq!(app.item, Some(episode("a")));
}

#[test]
fn a_poll_without_a_response_changes_nothing() {
    let mut app = App::default();
    app.input = "typed".to_string();
    display(&mut app, None);
    assert_eq!(app.input, "typed");
    assert_eq!(app.channel, None);
    assert_eq!(app.item, None);
    assert_eq!(app.display_action, DisplayAction::Input);
}

#[test]
fn a_response_does_not_change_the_display() {
    for action in [DisplayAction::Input, DisplayAction::ListEpisodes, DisplayAction::DescribeEpisode] {
        let mut app = App::default();
        app.display_action = action;
        display(&mut app, Some(Response::Feed(channel(&["a"]))));
        assert_eq!(app.display_action, action);
        assert_eq!(app.channel, Some(channel(&["a"])));
        display(&mut app, Some(Response::Episode(episode("a"))));
        assert_eq!(app.display_action, action);
        assert_eq!(app.item, Some(episode("a")));
    }
}
