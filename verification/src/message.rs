//! The vocabulary shared by the foreground loop and the background worker.
//!
//! Every type here is plain data. Each has a view, its mathematical model,
//! and the contracts of the other modules are stated over those views.

use vstd::prelude::*;

use crate::feed::FeedUrl;

verus! {

/// What the foreground currently renders.
#[derive(Debug, Clone, Copy, PartialEq, Eq, Structural)]
pub enum DisplayAction {
    Input,
    ListEpisodes,
    DescribeEpisode,
}

impl Default for DisplayAction {
    fn default() -> (r: Self)
        ensures
            r == DisplayAction::Input,
    {
        DisplayAction::Input
    }
}

/// The model of an optional text: the characters it holds, if any.
pub open spec fn text_view(text: Option<String>) -> Option<Seq<char>> {
    match text {
        Some(t) => Some(t@),
        None => None,
    }
}

/// Copies an optional text.
pub fn clone_text(text: &Option<String>) -> (r: Option<String>)
    ensures
        r == *text,
{
    match text {
        Some(t) => Some(t.clone()),
        None => None,
    }
}

/// The model of an [`Episode`].
#[verifier::ext_equal]
pub struct EpisodeView {
    pub title: Option<Seq<char>>,
    pub description: Option<Seq<char>>,
    pub enclosure_url: Option<Seq<char>>,
}

/// One entry of a feed.
#[derive(Debug, PartialEq, Eq)]
pub struct Episode {
    pub title: Option<String>,
    /// The description, which may hold markup.
    pub description: Option<String>,
    /// Where the audio of the episode is found.
    pub enclosure_url: Option<String>,
}

impl View for Episode {
    type V = EpisodeView;

    open spec fn view(&self) -> EpisodeView {
        EpisodeView {
            title: text_view(self.title),
            description: text_view(self.description),
            enclosure_url: text_view(self.enclosure_url),
        }
    }
}

impl Episode {
    pub fn new(
        title: Option<String>,
        description: Option<String>,
        enclosure_url: Option<String>,
    ) -> (r: Self)
        ensures
            r.title == title,
            r.description == description,
            r.enclosure_url == enclosure_url,
    {
        Episode { title, description, enclosure_url }
    }
}

impl Clone for Episode {
    fn clone(&self) -> (r: Self)
        ensures
            r == *self,
    {
        Episode {
            title: clone_text(&self.title),
            description: clone_text(&self.description),
            enclosure_url: clone_text(&self.enclosure_url),
        }
    }
}

impl Default for Episode {
    fn default() -> (r: Self)
        ensures
            r@ == (EpisodeView { title: None, description: None, enclosure_url: None }),
    {
        Episode { title: None, description: None, enclosure_url: None }
    }
}

/// The models of the episodes of a list, in its order.
pub open spec fn episode_views(items: Seq<Episode>) -> Seq<EpisodeView> {
    items.map_values(|e: Episode| e@)
}

/// The model of a [`Channel`].
#[verifier::ext_equal]
pub struct ChannelView {
    pub title: Seq<char>,
    pub items: Seq<EpisodeView>,
}

/// A decoded feed: its title and its episodes in the order of the document.
#[derive(Debug, PartialEq, Eq)]
pub struct Channel {
    pub title: String,
    pub items: Vec<Episode>,
}

impl View for Channel {
    type V = ChannelView;

    open spec fn view(&self) -> ChannelView {
        ChannelView { title: self.title@, items: episode_views(self.items@) }
    }
}

impl Channel {
    pub fn new(title: String, items: Vec<Episode>) -> (r: Self)
        ensures
            r.title == title,
            r.items == items,
    {
        Channel { title, items }
    }
}

impl Clone for Channel {
    fn clone(&self) -> (r: Self)
        ensures
            r@ == self@,
    {
        let mut items: Vec<Episode> = Vec::new();
        let mut i: usize = 0;
        while i < self.items.len()
            invariant
                i <= self.items.len(),
                items@ == self.items@.take(i as int),
            decreases self.items.len() - i,
        {
            items.push(self.items[i].clone());
            i += 1;
        }
        assert(items@ == self.items@);
        Channel { title: self.title.clone(), items }
    }
}

impl Default for Channel {
    fn default() -> (r: Self)
        ensures
            r@ == (ChannelView { title: Seq::empty(), items: Seq::empty() }),
    {
        let r = Channel { title: String::new(), items: Vec::new() };
        assert(r@ =~~= (ChannelView { title: Seq::empty(), items: Seq::empty() }));
        r
    }
}

/// The model of an optional episode.
pub open spec fn episode_view(episode: Option<Episode>) -> Option<EpisodeView> {
    match episode {
        Some(e) => Some(e@),
        None => None,
    }
}

/// The model of an optional channel.
pub open spec fn channel_view(channel: Option<Channel>) -> Option<ChannelView> {
    match channel {
        Some(c) => Some(c@),
        None => None,
    }
}

/// The model of a [`Request`].
#[verifier::ext_equal]
pub enum RequestView {
    Feed(Seq<char>),
    Episode(Option<EpisodeView>),
}

/// What the foreground asks of the background worker.
#[derive(Debug, PartialEq, Eq)]
pub enum Request {
    /// Fetch the feed at this address.
    Feed(FeedUrl),
    /// Hand this episode, which the foreground already holds, back; with
    /// `None` there is nothing to hand back.
    Episode(Option<Episode>),
}

impl View for Request {
    type V = RequestView;

    open spec fn view(&self) -> RequestView {
        match self {
            Request::Feed(url) => RequestView::Feed(url@),
            Request::Episode(episode) => RequestView::Episode(episode_view(*episode)),
        }
    }
}

/// The model of an optional request.
pub open spec fn request_view(request: Option<Request>) -> Option<RequestView> {
    match request {
        Some(r) => Some(r@),
        None => None,
    }
}

/// The model of a [`Response`].
#[verifier::ext_equal]
pub enum ResponseView {
    Feed(ChannelView),
    Episode(EpisodeView),
}

/// What the background worker answers.
#[derive(Debug, PartialEq, Eq)]
pub enum Response {
    /// The feed that was asked for, decoded.
    Feed(Channel),
    /// The episode of the request, as it was.
    Episode(Episode),
}

impl View for Response {
    type V = ResponseView;

    open spec fn view(&self) -> ResponseView {
        match self {
            Response::Feed(channel) => ResponseView::Feed(channel@),
            Response::Episode(episode) => ResponseView::Episode(episode@),
        }
    }
}

/// The model of an optional response.
pub open spec fn response_view(response: Option<Response>) -> Option<ResponseView> {
    match response {
        Some(r) => Some(r@),
        None => None,
    }
}

} // verus!
