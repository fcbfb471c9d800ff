//! One turn of the foreground loop.
//!
//! The loop itself polls the terminal and the outbound queue of the worker
//! and redraws; what it does with what it polled is decided here. A turn
//! takes in at most one response ([`display`]) and at most one key
//! ([`handle_key`]), and never waits.
//!
//! What is on display only ever moves forward, and only when the user
//! submits: from the input to the episode list when a feed is requested, and
//! from the list to the description of an episode when one is selected.

use vstd::prelude::*;

use crate::data::{feed_requested, handle_user_input, validated_target};
use crate::message::{
    episode_view, request_view, response_view, DisplayAction, Request, RequestView, Response,
    ResponseView,
};
use crate::state::{
    after_response, next_index, previous_index, selected_episode, update_app_state, App, AppView,
};
use crate::ui::input::{parse, parse_spec};

verus! {

/// A key of the terminal, as far as the loop tells keys apart.
#[derive(Debug, Clone, Copy, PartialEq, Eq, Structural)]
pub enum KeyEvent {
    /// A character to put into the input.
    Char(char),
    /// Take the last character of the input away.
    Backspace,
    /// Submit what the display stands for.
    Confirm,
    /// Move the list cursor up.
    Up,
    /// Move the list cursor down.
    Down,
    /// Leave the loop.
    Quit,
    /// Any other key.
    Other,
}

/// The model of a [`LoopStep`].
#[verifier::ext_equal]
pub enum LoopStepView {
    Exit,
    Continue(Option<RequestView>),
}

/// What the loop does after a key.
#[derive(Debug, PartialEq, Eq)]
pub enum LoopStep {
    /// Leave the loop.
    Exit,
    /// Go on, after putting the request, if there is one, on the inbound
    /// queue of the worker.
    Continue(Option<Request>),
}

impl View for LoopStep {
    type V = LoopStepView;

    open spec fn view(&self) -> LoopStepView {
        match self {
            LoopStep::Exit => LoopStepView::Exit,
            LoopStep::Continue(request) => LoopStepView::Continue(request_view(*request)),
        }
    }
}

/// The state after a poll of the outbound queue: a response is taken in, and
/// without one nothing changes.
pub open spec fn after_poll(app: AppView, polled: Option<ResponseView>) -> AppView {
    match polled {
        Some(response) => after_response(app, response),
        None => app,
    }
}

/// The state and the request after the user has submitted.
///
/// On the input, the line is read as a command and a feed is asked for where
/// it names one. On the episode list, the episode under the cursor is
/// requested, and comes on display if there is one; without one the request
/// holds no episode. On the description of an episode nothing happens.
pub open spec fn submitted(app: AppView) -> (AppView, Option<RequestView>) {
    match app.display_action {
        DisplayAction::Input => feed_requested(app, validated_target(parse_spec(app.input))),
        DisplayAction::ListEpisodes => match selected_episode(app) {
            Some(episode) => (
                AppView { display_action: DisplayAction::DescribeEpisode, ..app },
                Some(RequestView::Episode(Some(episode))),
            ),
            None => (app, Some(RequestView::Episode(None))),
        },
        DisplayAction::DescribeEpisode => (app, None),
    }
}

/// The state and the step of the loop after a key.
pub open spec fn after_key(app: AppView, key: KeyEvent) -> (AppView, LoopStepView) {
    match key {
        KeyEvent::Quit => (app, LoopStepView::Exit),
        KeyEvent::Confirm => (submitted(app).0, LoopStepView::Continue(submitted(app).1)),
        KeyEvent::Char(c) => (
            AppView { input: app.input.push(c), ..app },
            LoopStepView::Continue(None),
        ),
        KeyEvent::Backspace => (
            AppView {
                input: if app.input.len() > 0 {
                    app.input.drop_last()
                } else {
                    app.input
                },
                ..app
            },
            LoopStepView::Continue(None),
        ),
        KeyEvent::Up => (
            AppView { selected: Some(previous_index(app)), ..app },
            LoopStepView::Continue(None),
        ),
        KeyEvent::Down => (
            AppView { selected: Some(next_index(app)), ..app },
            LoopStepView::Continue(None),
        ),
        KeyEvent::Other => (app, LoopStepView::Continue(None)),
    }
}

/// Takes in what a poll of the outbound queue gave, before the state is drawn.
pub fn display(app: &mut App, polled: Option<Response>)
    ensures
        final(app)@ == after_poll(old(app)@, response_view(polled)),
{
    if let Some(r) = polled {
        update_app_state(app, r)
    }
}

/// Submits what the display stands for. The result is the request to put on
/// the inbound queue of the worker.
pub fn submit(app: &mut App) -> (request: Option<Request>)
    ensures
        (final(app)@, request_view(request)) == submitted(old(app)@),
{
    match app.display_action {
        DisplayAction::Input => {
            let command = parse(app.input.as_str());
            handle_user_input(app, command)
        },
        DisplayAction::ListEpisodes => {
            let item = app.selected_episode();
            if item.is_some() {
                app.display_action = DisplayAction::DescribeEpisode;
            }
            Some(Request::Episode(item))
        },
        DisplayAction::DescribeEpisode => None,
    }
}

/// Takes a key in.
pub fn handle_key(app: &mut App, key: KeyEvent) -> (step: LoopStep)
    ensures
        (final(app)@, step@) == after_key(old(app)@, key),
{
    match key {
        KeyEvent::Quit => LoopStep::Exit,
        KeyEvent::Confirm => LoopStep::Continue(submit(app)),
        KeyEvent::Char(c) => {
            app.input.push(c);
            LoopStep::Continue(None)
        },
        KeyEvent::Backspace => {
            app.input.pop();
            LoopStep::Continue(None)
        },
        KeyEvent::Up => {
            app.previous();
            LoopStep::Continue(None)
        },
        KeyEvent::Down => {
            app.next();
            LoopStep::Continue(None)
        },
        KeyEvent::Other => LoopStep::Continue(None),
    }
}

/// Submitting on the input, where the line names a feed by a valid address:
/// the feed is requested at that address, the input is cleared and the
/// episode list comes on display. Where the line names none, nothing changes
/// and nothing is requested.
pub proof fn lemma_submit_on_input(app: AppView)
    requires
        app.display_action == DisplayAction::Input,
    ensures
        match validated_target(parse_spec(app.input)) {
            Some(url) => submitted(app) == (
                AppView { input: Seq::empty(), display_action: DisplayAction::ListEpisodes, ..app },
                Some(RequestView::Feed(url)),
            ),
            None => submitted(app) == (app, None::<RequestView>),
        },
{
}

/// Submitting on the episode list with the cursor on an episode: that
/// episode, and no other, is requested, its description comes on display and
/// nothing else changes.
pub proof fn lemma_submit_on_list(app: AppView, i: nat)
    requires
        app.display_action == DisplayAction::ListEpisodes,
        app.channel is Some,
        app.selected == Some(i),
        i < app.channel->0.items.len(),
    ensures
        submitted(app) == (
            AppView { display_action: DisplayAction::DescribeEpisode, ..app },
            Some(RequestView::Episode(Some(app.channel->0.items[i as int]))),
        ),
{
}

/// Submitting on the episode list without an episode under the cursor: a
/// request without an episode, and the list stays on display.
pub proof fn lemma_submit_without_selection(app: AppView)
    requires
        app.display_action == DisplayAction::ListEpisodes,
        selected_episode(app) is None,
    ensures
        submitted(app) == (app, Some(RequestView::Episode(None))),
{
}

/// Whether the display may go from `from` to `to` in one turn.
pub open spec fn may_follow(from: DisplayAction, to: DisplayAction) -> bool {
    ||| to == from
    ||| from == DisplayAction::Input && to == DisplayAction::ListEpisodes
    ||| from == DisplayAction::ListEpisodes && to == DisplayAction::DescribeEpisode
}

/// The display changes by a submit only, and then one step forward; a
/// response that arrives does not change it.
pub proof fn lemma_display_moves_forward(app: AppView, key: KeyEvent, polled: Option<ResponseView>)
    ensures
        may_follow(app.display_action, after_key(app, key).0.display_action),
        key != KeyEvent::Confirm ==> after_key(app, key).0.display_action == app.display_action,
        after_poll(app, polled).display_action == app.display_action,
{
}

/// Only a submit asks anything of the worker, and a key asks for one request
/// at most.
pub proof fn lemma_requests_come_from_submits(app: AppView, key: KeyEvent)
    ensures
        key != KeyEvent::Confirm && key != KeyEvent::Quit ==> after_key(app, key).1
            == LoopStepView::Continue(None),
        key == KeyEvent::Confirm ==> after_key(app, key).1 == LoopStepView::Continue(
            submitted(app).1,
        ),
{
}

} // verus!
