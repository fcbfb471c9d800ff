//! The state that the foreground loop owns.

use vstd::prelude::*;

use crate::message::{
    channel_view, episode_view, Channel, ChannelView, DisplayAction, Episode, EpisodeView,
    Response, ResponseView,
};

verus! {

/// The model of [`App`].
#[verifier::ext_equal]
pub struct AppView {
    pub input: Seq<char>,
    pub channel: Option<ChannelView>,
    pub item: Option<EpisodeView>,
    pub selected: Option<nat>,
    pub display_action: DisplayAction,
}

/// The state of the application: what was typed, what was loaded, where the
/// list cursor stands and what is on display.
#[derive(Debug)]
pub struct App {
    /// The text of the input box.
    pub input: String,
    /// The feed that was loaded last.
    pub channel: Option<Channel>,
    /// The episode that was loaded last.
    pub item: Option<Episode>,
    /// The position of the list cursor. It points at an episode only while a
    /// feed with more episodes than this is loaded.
    pub selected: Option<usize>,
    /// What is on display.
    pub display_action: DisplayAction,
}

/// The model of a cursor position.
pub open spec fn index_view(index: Option<usize>) -> Option<nat> {
    match index {
        Some(i) => Some(i as nat),
        None => None,
    }
}

impl View for App {
    type V = AppView;

    open spec fn view(&self) -> AppView {
        AppView {
            input: self.input@,
            channel: channel_view(self.channel),
            item: episode_view(self.item),
            selected: index_view(self.selected),
            display_action: self.display_action,
        }
    }
}

/// The state at startup: nothing typed, nothing loaded, no cursor, the input
/// on display.
pub open spec fn initial_state() -> AppView {
    AppView {
        input: Seq::empty(),
        channel: None,
        item: None,
        selected: None,
        display_action: DisplayAction::Input,
    }
}

/// Where the cursor stands after a step down: one further, from the last
/// episode back to the first, and at the first where there is no cursor, no
/// feed or no episode.
pub open spec fn next_index(app: AppView) -> nat {
    match (app.channel, app.selected) {
        (Some(channel), Some(i)) => if i + 1 >= channel.items.len() {
            0
        } else {
            i + 1
        },
        _ => 0,
    }
}

/// Where the cursor stands after a step up: one back, from the first episode
/// to the last, and at the first where there is no cursor, no feed or no
/// episode.
pub open spec fn previous_index(app: AppView) -> nat {
    match (app.channel, app.selected) {
        (Some(channel), Some(i)) => if channel.items.len() == 0 {
            0
        } else if i == 0 {
            (channel.items.len() - 1) as nat
        } else {
            (i - 1) as nat
        },
        _ => 0,
    }
}

/// The episode under the cursor: there is one where a feed is loaded and the
/// cursor stands within its episodes.
pub open spec fn selected_episode(app: AppView) -> Option<EpisodeView> {
    match (app.channel, app.selected) {
        (Some(channel), Some(i)) => if i < channel.items.len() {
            Some(channel.items[i as int])
        } else {
            None
        },
        _ => None,
    }
}

/// The state after a response has been taken in: a feed replaces the loaded
/// feed, an episode the loaded episode, and nothing else changes.
pub open spec fn after_response(app: AppView, response: ResponseView) -> AppView {
    match response {
        ResponseView::Feed(channel) => AppView { channel: Some(channel), ..app },
        ResponseView::Episode(episode) => AppView { item: Some(episode), ..app },
    }
}

impl Default for App {
    fn default() -> (r: Self)
        ensures
            r@ == initial_state(),
    {
        App {
            input: String::new(),
            channel: None,
            item: None,
            selected: None,
            display_action: DisplayAction::Input,
        }
    }
}

impl App {
    /// Moves the list cursor one episode down.
    pub fn next(&mut self)
        ensures
            final(self)@ == (AppView { selected: Some(next_index(old(self)@)), ..old(self)@ }),
    {
        let i: usize = match (&self.channel, self.selected) {
            (Some(channel), Some(i)) => if i >= channel.items.len() || i + 1 >= channel.items.len() {
                0
            } else {
                i + 1
            },
            _ => 0,
        };
        self.selected = Some(i);
    }

    /// Moves the list cursor one episode up.
    pub fn previous(&mut self)
        ensures
            final(self)@ == (AppView { selected: Some(previous_index(old(self)@)), ..old(self)@ }),
    {
        let i: usize = match (&self.channel, self.selected) {
            (Some(channel), Some(i)) => if channel.items.len() == 0 {
                0
            } else if i == 0 {
                channel.items.len() - 1
            } else {
                i - 1
            },
            _ => 0,
        };
        self.selected = Some(i);
    }

    /// A copy of the episode under the cursor.
    pub fn selected_episode(&self) -> (r: Option<Episode>)
        ensures
            episode_view(r) == selected_episode(self@),
    {
        match (&self.channel, self.selected) {
            (Some(channel), Some(i)) => if i < channel.items.len() {
                Some(channel.items[i].clone())
            } else {
                None
            },
            _ => None,
        }
    }
}

/// Takes a response of the worker into the state.
pub fn update_app_state(app: &mut App, msg: Response)
    ensures
        final(app)@ == after_response(old(app)@, msg@),
{
    match msg {
        Response::Feed(c) => {
            app.channel = Some(c);
        },
        Response::Episode(e) => {
            app.item = Some(e);
        },
    }
}

/// Stepping down from the last episode leads to the first.
pub proof fn lemma_next_wraps(app: AppView)
    requires
        app.channel is Some,
        app.channel->0.items.len() > 0,
        app.selected == Some((app.channel->0.items.len() - 1) as nat),
    ensures
        next_index(app) == 0,
{
}

/// Stepping up from the first episode leads to the last.
pub proof fn lemma_previous_wraps(app: AppView)
    requires
        app.channel is Some,
        app.channel->0.items.len() > 0,
        app.selected == Some(0nat),
    ensures
        previous_index(app) == app.channel->0.items.len() - 1,
{
}

/// While the cursor stands on an episode of the loaded feed, a step in either
/// direction leaves it on one, and a step down followed by a step up, or the
/// other way round, leads back.
pub proof fn lemma_cursor_stays_in_list(app: AppView)
    requires
        selected_episode(app) is Some,
    ensures
        selected_episode(AppView { selected: Some(next_index(app)), ..app }) is Some,
        selected_episode(AppView { selected: Some(previous_index(app)), ..app }) is Some,
        previous_index(AppView { selected: Some(next_index(app)), ..app }) == app.selected->0,
        next_index(AppView { selected: Some(previous_index(app)), ..app }) == app.selected->0,
{
}

/// Taking a response in changes neither what is on display, nor the input,
/// nor the cursor.
pub proof fn lemma_response_keeps_display(app: AppView, response: ResponseView)
    ensures
        after_response(app, response).display_action == app.display_action,
        after_response(app, response).input == app.input,
        after_response(app, response).selected == app.selected,
{
}

} // verus!
