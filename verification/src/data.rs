//! The decisions on both sides of the two queues: what a command of the user
//! asks of the worker, and what the worker does with a request.
//!
//! Nothing here waits or sends. The caller takes a request from the inbound
//! queue and performs what [`handle_background_request`] decides; where that
//! is a retrieval, it hands what came of it to [`fetch_reply`] and publishes
//! the response, if there is one.

use vstd::prelude::*;

use crate::feed::{parsed_url, url_view, FeedUrl, FetchError};
use crate::message::{
    request_view, response_view, Channel, ChannelView, DisplayAction, Request, RequestView,
    Response, ResponseView,
};
use crate::state::{App, AppView};
use crate::ui::input::{Command, CommandView};

verus! {

/// The model of a [`WorkerAction`].
#[verifier::ext_equal]
pub enum WorkerActionView {
    Idle,
    Fetch(Seq<char>),
    Publish(ResponseView),
}

/// What the worker is to do in one cycle.
#[derive(Debug, PartialEq, Eq)]
pub enum WorkerAction {
    /// Nothing: no request was waiting, or the request asks for nothing.
    Idle,
    /// Retrieve the feed at this address, and publish what [`fetch_reply`]
    /// makes of the outcome.
    Fetch(FeedUrl),
    /// Publish this response.
    Publish(Response),
}

impl View for WorkerAction {
    type V = WorkerActionView;

    open spec fn view(&self) -> WorkerActionView {
        match self {
            WorkerAction::Idle => WorkerActionView::Idle,
            WorkerAction::Fetch(url) => WorkerActionView::Fetch(url@),
            WorkerAction::Publish(response) => WorkerActionView::Publish(response@),
        }
    }
}

/// What the worker does with what it took from the inbound queue: a feed is
/// retrieved, an episode is handed back as it is, and without a request, or
/// without an episode in it, nothing is done.
pub open spec fn worker_action(request: Option<RequestView>) -> WorkerActionView {
    match request {
        None => WorkerActionView::Idle,
        Some(RequestView::Feed(url)) => WorkerActionView::Fetch(url),
        Some(RequestView::Episode(Some(episode))) => WorkerActionView::Publish(
            ResponseView::Episode(episode),
        ),
        Some(RequestView::Episode(None)) => WorkerActionView::Idle,
    }
}

/// What is published when a retrieval has ended: the feed where it succeeded,
/// nothing where it failed.
pub open spec fn reply_to_fetch(fetched: Result<ChannelView, FetchError>) -> Option<ResponseView> {
    match fetched {
        Ok(channel) => Some(ResponseView::Feed(channel)),
        Err(_) => None,
    }
}

/// Everything that one cycle of the worker publishes for `request`, where
/// `fetched` is what the retrieval gives if the cycle makes one.
pub open spec fn published(request: Option<RequestView>, fetched: Result<ChannelView, FetchError>) -> Seq<
    ResponseView,
> {
    match worker_action(request) {
        WorkerActionView::Idle => Seq::empty(),
        WorkerActionView::Publish(response) => seq![response],
        WorkerActionView::Fetch(_) => match reply_to_fetch(fetched) {
            Some(response) => seq![response],
            None => Seq::empty(),
        },
    }
}

/// Decides one cycle of the worker. `request` is what a take from the
/// inbound queue gave, without waiting: `None` where nothing was there.
pub fn handle_background_request(request: Option<Request>) -> (action: WorkerAction)
    ensures
        action@ == worker_action(request_view(request)),
{
    match request {
        None => WorkerAction::Idle,
        Some(Request::Feed(url)) => WorkerAction::Fetch(url),
        Some(Request::Episode(Some(episode))) => WorkerAction::Publish(Response::Episode(episode)),
        Some(Request::Episode(None)) => WorkerAction::Idle,
    }
}

/// Decides what to publish when a retrieval has ended. A failure is dropped:
/// no response, no second attempt.
pub fn fetch_reply(fetched: Result<Channel, FetchError>) -> (response: Option<Response>)
    ensures
        response_view(response) == reply_to_fetch(crate::feed::fetched_view(fetched)),
{
    match fetched {
        Ok(channel) => Some(Response::Feed(channel)),
        Err(_) => None,
    }
}

/// The address that a command leads to: what reading the text after `/load`
/// as a URL gives, and none for any other command.
pub open spec fn validated_target(command: CommandView) -> Option<Seq<char>> {
    match command {
        CommandView::FetchPodcastFeed(text) => parsed_url(text),
        CommandView::NoOp => None,
    }
}

/// The state and the request after a feed was asked for at `url`. With an
/// address the input is cleared, the episode list comes on display and the
/// feed is requested; without one nothing changes and nothing is requested.
pub open spec fn feed_requested(app: AppView, url: Option<Seq<char>>) -> (AppView, Option<RequestView>) {
    match url {
        Some(u) => (
            AppView { input: Seq::empty(), display_action: DisplayAction::ListEpisodes, ..app },
            Some(RequestView::Feed(u)),
        ),
        None => (app, None),
    }
}

/// Asks for the feed at `url`, where there is one. The result is the
/// request to put on the inbound queue of the worker.
pub fn load_feed(app: &mut App, url: Option<FeedUrl>) -> (request: Option<Request>)
    ensures
        (final(app)@, request_view(request)) == feed_requested(old(app)@, url_view(url)),
{
    match url {
        Some(u) => {
            app.input = String::new();
            app.display_action = DisplayAction::ListEpisodes;
            Some(Request::Feed(u))
        },
        None => None,
    }
}

/// Carries out a command of the user. Text that is not read as an absolute
/// URL asks for nothing, as `NoOp` does. The result is the request to put on
/// the inbound queue of the worker.
pub fn handle_user_input(app: &mut App, i: Command) -> (request: Option<Request>)
    ensures
        (final(app)@, request_view(request)) == feed_requested(old(app)@, validated_target(i@)),
{
    match i {
        Command::FetchPodcastFeed(text) => {
            let url = FeedUrl::parse(text.as_str());
            load_feed(app, url)
        },
        Command::NoOp => None,
    }
}

/// A request is answered at most once, and only where it succeeds: a feed
/// request where the retrieval gave a feed, with that feed; an episode
/// request where it holds an episode, with that episode.
pub proof fn lemma_at_most_one_response(
    request: RequestView,
    fetched: Result<ChannelView, FetchError>,
)
    ensures
        published(Some(request), fetched).len() <= 1,
        published(Some(request), fetched).len() == 1 <==> (request is Feed && fetched is Ok) || (
        request matches RequestView::Episode(e) && e is Some),
        request is Feed && fetched is Ok ==> published(Some(request), fetched) == seq![
            ResponseView::Feed(fetched->Ok_0),
        ],
        request matches RequestView::Episode(Some(e)) ==> published(Some(request), fetched)
            == seq![ResponseView::Episode(e)],
{
}

/// A cycle that found no request publishes nothing.
pub proof fn lemma_idle_cycle(fetched: Result<ChannelView, FetchError>)
    ensures
        published(None, fetched).len() == 0,
{
}

} // verus!
