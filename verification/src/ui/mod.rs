//! What the terminal front end shows of the state: the texts of the panes,
//! and where the cursor of the input box stands. Drawing them is left to
//! the caller.

pub mod input;

use vstd::prelude::*;
use vstd::string::StringExecFns;

use crate::message::{Channel, DisplayAction, Episode, EpisodeView};
use crate::state::{App, AppView};

verus! {

/// The pane that fills the display area.
#[derive(Debug, Clone, Copy, PartialEq, Eq, Structural)]
pub enum Pane {
    EpisodeList,
    EpisodeDetails,
}

/// The pane that goes with what is on display: the details of an episode
/// while one is described, the list of episodes otherwise.
pub open spec fn pane_of(action: DisplayAction) -> Pane {
    match action {
        DisplayAction::Input | DisplayAction::ListEpisodes => Pane::EpisodeList,
        DisplayAction::DescribeEpisode => Pane::EpisodeDetails,
    }
}

/// Picks the pane for the display area.
pub fn display_area(app: &App) -> (pane: Pane)
    ensures
        pane == pane_of(app@.display_action),
{
    match app.display_action {
        DisplayAction::Input | DisplayAction::ListEpisodes => Pane::EpisodeList,
        DisplayAction::DescribeEpisode => Pane::EpisodeDetails,
    }
}

/// The decimal digit for `d`, which is below ten.
pub open spec fn digit(d: nat) -> char {
    ((48 + d) as u8) as char
}

/// `n` in decimal, without leading zeros.
pub open spec fn decimal(n: nat) -> Seq<char>
    decreases n,
{
    if n < 10 {
        seq![digit(n)]
    } else {
        decimal(n / 10).push(digit(n % 10))
    }
}

/// Writes `n` in decimal.
pub fn decimal_text(n: usize) -> (text: String)
    ensures
        text@ == decimal(n as nat),
    decreases n,
{
    let last: u8 = (n % 10) as u8;
    let mut text = if n < 10 {
        String::new()
    } else {
        decimal_text(n / 10)
    };
    text.push((48u8 + last) as char);
    text
}

/// `text` between square brackets.
pub open spec fn bracketed(text: Seq<char>) -> Seq<char> {
    seq!['['] + text + seq![']']
}

/// Puts `text` between square brackets.
pub fn bracket(text: &str) -> (r: String)
    ensures
        r@ == bracketed(text@),
{
    let mut r = String::new();
    r.push('[');
    r.append(text);
    r.push(']');
    r
}

/// The line of the episode list for the episode at `index`: the index, a
/// colon, a space and the title, or a note that there is none.
pub open spec fn episode_line(index: nat, episode: EpisodeView) -> Seq<char> {
    decimal(index) + seq![':', ' '] + match episode.title {
        Some(title) => title,
        None => "Title missing!"@,
    }
}

/// The lines of the episode list: one for each episode of the loaded feed,
/// in its order, and none without a feed.
pub open spec fn episode_lines(app: AppView) -> Seq<Seq<char>> {
    match app.channel {
        Some(channel) => Seq::new(
            channel.items.len(),
            |i: int| episode_line(i as nat, channel.items[i]),
        ),
        None => Seq::empty(),
    }
}

/// The heading of the episode list: the title of the loaded feed between
/// brackets, or a placeholder.
pub open spec fn feed_heading(app: AppView) -> Seq<char> {
    match app.channel {
        Some(channel) => bracketed(channel.title),
        None => "[Title]"@,
    }
}

/// The heading of the episode details: the title of the loaded episode
/// between brackets, or a placeholder.
pub open spec fn episode_heading(app: AppView) -> Seq<char> {
    match app.item {
        Some(EpisodeView { title: Some(title), .. }) => bracketed(title),
        _ => "[Episode Title]"@,
    }
}

/// The description of the loaded episode as the feed gave it, markup and
/// all, or a placeholder.
pub open spec fn episode_description(app: AppView) -> Seq<char> {
    match app.item {
        Some(EpisodeView { description: Some(description), .. }) => description,
        _ => "Description"@,
    }
}

/// Where the audio of the loaded episode is found, or a placeholder.
pub open spec fn audio_link(app: AppView) -> Seq<char> {
    match app.item {
        Some(EpisodeView { enclosure_url: Some(url), .. }) => url,
        _ => "[Audio URL]"@,
    }
}

/// The model of [`EpisodeList`].
#[verifier::ext_equal]
pub struct EpisodeListView {
    pub heading: Seq<char>,
    pub lines: Seq<Seq<char>>,
}

/// What the episode list shows.
#[derive(Debug, PartialEq, Eq)]
pub struct EpisodeList {
    pub heading: String,
    pub lines: Vec<String>,
}

impl View for EpisodeList {
    type V = EpisodeListView;

    open spec fn view(&self) -> EpisodeListView {
        EpisodeListView { heading: self.heading@, lines: self.lines.deep_view() }
    }
}

/// The model of [`EpisodeDetails`].
#[verifier::ext_equal]
pub struct EpisodeDetailsView {
    pub heading: Seq<char>,
    pub audio_link: Seq<char>,
    pub description: Seq<char>,
}

/// What the episode details show.
#[derive(Debug, PartialEq, Eq)]
pub struct EpisodeDetails {
    pub heading: String,
    pub audio_link: String,
    /// The description as the feed gave it; it may hold markup.
    pub description: String,
}

impl View for EpisodeDetails {
    type V = EpisodeDetailsView;

    open spec fn view(&self) -> EpisodeDetailsView {
        EpisodeDetailsView {
            heading: self.heading@,
            audio_link: self.audio_link@,
            description: self.description@,
        }
    }
}

/// Writes the line of the episode list for `episode` at `index`.
fn line_of(index: usize, episode: &Episode) -> (line: String)
    ensures
        line@ == episode_line(index as nat, episode@),
{
    let mut line = decimal_text(index);
    line.push(':');
    line.push(' ');
    match &episode.title {
        Some(title) => line.append(title.as_str()),
        None => line.append("Title missing!"),
    }
    line
}

/// Collects what the episode list shows.
pub fn episode_list(app: &App) -> (list: EpisodeList)
    ensures
        list@ == (EpisodeListView { heading: feed_heading(app@), lines: episode_lines(app@) }),
{
    match &app.channel {
        Some(channel) => {
            let mut lines: Vec<String> = Vec::new();
            let mut i: usize = 0;
            while i < channel.items.len()
                invariant
                    i <= channel.items.len(),
                    lines@.len() == i,
                    forall|j: int|
                        0 <= j < i ==> (#[trigger] lines@[j])@ == episode_line(
                            j as nat,
                            channel.items@[j]@,
                        ),
                decreases channel.items.len() - i,
            {
                lines.push(line_of(i, &channel.items[i]));
                i += 1;
            }
            let list = EpisodeList { heading: bracket(channel.title.as_str()), lines };
            assert(list@.lines =~= episode_lines(app@));
            list
        },
        None => {
            let list = EpisodeList { heading: "[Title]".to_owned(), lines: Vec::new() };
            assert(list@.lines =~= episode_lines(app@));
            list
        },
    }
}

/// Collects what the episode details show.
pub fn episode_details(app: &App) -> (details: EpisodeDetails)
    ensures
        details@ == (EpisodeDetailsView {
            heading: episode_heading(app@),
            audio_link: audio_link(app@),
            description: episode_description(app@),
        }),
{
    let heading = match &app.item {
        Some(Episode { title: Some(title), .. }) => bracket(title.as_str()),
        _ => "[Episode Title]".to_owned(),
    };
    let description = match &app.item {
        Some(Episode { description: Some(description), .. }) => description.clone(),
        _ => "Description".to_owned(),
    };
    let audio_link = match &app.item {
        Some(Episode { enclosure_url: Some(url), .. }) => url.clone(),
        _ => "[Audio URL]".to_owned(),
    };
    EpisodeDetails { heading, audio_link, description }
}

/// The number of columns that `text` takes on a terminal, as
/// `unicode_width::UnicodeWidthStr::width` counts them.
pub uninterp spec fn display_width(text: Seq<char>) -> nat;

/// Calls `unicode_width::UnicodeWidthStr::width`. Trusted: the result is the
/// one that `display_width` names.
#[verifier::external_body]
fn text_width(text: &str) -> (width: usize)
    ensures
        width == display_width(text@),
{
    unicode_width::UnicodeWidthStr::width(text)
}

/// Where the cursor stands in an input box whose corner is at `(x, y)` and
/// whose text is `width` columns wide: one line below the border, one column
/// past the end of the text.
pub open spec fn cursor_at(x: u16, y: u16, width: nat) -> (int, int) {
    (x + width + 1, y + 1)
}

/// Whether the cursor of such an input box stands on a cell that a terminal
/// can address.
pub open spec fn cursor_fits(x: u16, y: u16, width: nat) -> bool {
    cursor_at(x, y, width).0 <= u16::MAX && cursor_at(x, y, width).1 <= u16::MAX
}

/// Places the cursor of an input box whose text is `width` columns wide.
pub fn place_cursor(x: u16, y: u16, width: usize) -> (at: (u16, u16))
    requires
        cursor_fits(x, y, width as nat),
    ensures
        (at.0 as int, at.1 as int) == cursor_at(x, y, width as nat),
{
    (x + width as u16 + 1, y + 1)
}

/// Places the cursor of the input box whose corner is at `(x, y)`, past the
/// end of what was typed. There is no place for it where it would stand
/// beyond the cells that a terminal can address.
pub fn input_cursor(app: &App, x: u16, y: u16) -> (at: Option<(u16, u16)>)
    ensures
        at is Some <==> cursor_fits(x, y, display_width(app@.input)),
        at matches Some(p) ==> (p.0 as int, p.1 as int) == cursor_at(
            x,
            y,
            display_width(app@.input),
        ),
{
    let width = text_width(app.input.as_str());
    if width < 0xffff && x as usize + width < 0xffff && y < 0xffff {
        Some(place_cursor(x, y, width))
    } else {
        None
    }
}

} // verus!
