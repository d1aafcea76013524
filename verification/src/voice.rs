//! Voice: joining the author's voice channel and starting playback, as
//! steps from what the front end found out to what it does next.
use vstd::prelude::*;
use crate::text::{owned, push_str};

verus! {

/// What the front end does next.
pub enum VoiceAction {
    /// Say this in the channel.
    Say(String),
    /// Join the author's voice channel, then report whether that worked.
    Join,
    /// Open the audio source at the given address, then report whether
    /// that worked.
    LoadSource,
    /// Play the opened source.
    Play,
}

pub enum VoiceActionView {
    Say(Seq<char>),
    Join,
    LoadSource,
    Play,
}

impl View for VoiceAction {
    type V = VoiceActionView;

    open spec fn view(&self) -> VoiceActionView {
        match self {
            VoiceAction::Say(s) => VoiceActionView::Say(s@),
            VoiceAction::Join => VoiceActionView::Join,
            VoiceAction::LoadSource => VoiceActionView::LoadSource,
            VoiceAction::Play => VoiceActionView::Play,
        }
    }
}

pub open spec fn action_views(v: Seq<VoiceAction>) -> Seq<VoiceActionView> {
    v.map_values(|a: VoiceAction| a@)
}

/// Where a playback request stands.
pub enum PlayState {
    /// Nothing is known yet.
    Begin,
    /// Joining the named channel.
    Joining(String),
    /// Waiting for the source; `joined` tells whether the bot had to join
    /// first.
    AwaitingSource { joined: bool },
    /// Nothing more to do.
    Done,
}

pub enum PlayStateView {
    Begin,
    Joining(Seq<char>),
    AwaitingSource { joined: bool },
    Done,
}

impl View for PlayState {
    type V = PlayStateView;

    open spec fn view(&self) -> PlayStateView {
        match self {
            PlayState::Begin => PlayStateView::Begin,
            PlayState::Joining(n) => PlayStateView::Joining(n@),
            PlayState::AwaitingSource { joined } => PlayStateView::AwaitingSource { joined: *joined },
            PlayState::Done => PlayStateView::Done,
        }
    }
}

/// What the front end reports.
pub enum PlayEvent {
    /// The request as it came: whether a URL was given, whether the channel
    /// is a known guild channel, whether the bot already has a voice
    /// connection in the guild, the author's name and the name of the
    /// author's voice channel, if any.
    Request { url_given: bool, channel_known: bool, connected: bool, author: String, author_channel: Option<String> },
    /// Whether joining worked.
    Joined(bool),
    /// Whether the source opened.
    SourceOpened(bool),
}

pub enum PlayEventView {
    Request {
        url_given: bool,
        channel_known: bool,
        connected: bool,
        author: Seq<char>,
        author_channel: Option<Seq<char>>,
    },
    Joined(bool),
    SourceOpened(bool),
}

impl View for PlayEvent {
    type V = PlayEventView;

    open spec fn view(&self) -> PlayEventView {
        match self {
            PlayEvent::Request { url_given, channel_known, connected, author, author_channel } => PlayEventView::Request {
                url_given: *url_given,
                channel_known: *channel_known,
                connected: *connected,
                author: author@,
                author_channel: author_channel.deep_view(),
            },
            PlayEvent::Joined(b) => PlayEventView::Joined(*b),
            PlayEvent::SourceOpened(b) => PlayEventView::SourceOpened(*b),
        }
    }
}

pub open spec fn not_in_voice(author: Seq<char>) -> Seq<char> {
    "You are not in a voice channel, **"@ + author + "**."@
}

pub open spec fn join_failed(channel: Seq<char>) -> Seq<char> {
    "Error joining **"@ + channel + "**. Please try again later."@
}

/// One step of a playback request. Events that do not fit the state
/// change nothing.
pub open spec fn play_next(s: PlayStateView, e: PlayEventView) -> (PlayStateView, Seq<VoiceActionView>) {
    match (s, e) {
        (PlayStateView::Begin, PlayEventView::Request { url_given, channel_known, connected, author, author_channel }) => {
            if !url_given {
                (PlayStateView::Done, seq![VoiceActionView::Say("Must provide a URL to a video or audio"@)])
            } else if !channel_known {
                (PlayStateView::Done, seq![VoiceActionView::Say("Error finding channel info"@)])
            } else if connected {
                (PlayStateView::AwaitingSource { joined: false }, seq![VoiceActionView::LoadSource])
            } else {
                match author_channel {
                    None => (PlayStateView::Done, seq![VoiceActionView::Say(not_in_voice(author))]),
                    Some(name) => (PlayStateView::Joining(name), seq![VoiceActionView::Join]),
                }
            }
        },
        (PlayStateView::Joining(name), PlayEventView::Joined(ok)) => {
            if ok {
                (
                    PlayStateView::AwaitingSource { joined: true },
                    seq![
                        VoiceActionView::Say("Joined the voice channel **"@ + name + "**, beginning playback."@),
                        VoiceActionView::LoadSource,
                    ],
                )
            } else {
                (PlayStateView::Done, seq![VoiceActionView::Say(join_failed(name))])
            }
        },
        (PlayStateView::AwaitingSource { joined }, PlayEventView::SourceOpened(ok)) => {
            if ok {
                if joined {
                    (PlayStateView::Done, seq![VoiceActionView::Play])
                } else {
                    (PlayStateView::Done, seq![VoiceActionView::Say("Beginning song playback."@), VoiceActionView::Play])
                }
            } else if joined {
                (PlayStateView::Done, seq![VoiceActionView::Say("Error starting playback. Please try again later."@)])
            } else {
                (PlayStateView::Done, seq![VoiceActionView::Say("Error starting playback...Please try again later."@)])
            }
        },
        _ => (s, Seq::empty()),
    }
}

fn say_line(prefix: &str, middle: &str, suffix: &str) -> (a: VoiceAction)
    ensures
        a@ == VoiceActionView::Say(prefix@ + middle@ + suffix@),
{
    let mut s = owned(prefix);
    push_str(&mut s, middle);
    push_str(&mut s, suffix);
    VoiceAction::Say(s)
}

fn one(a: VoiceAction) -> (v: Vec<VoiceAction>)
    ensures
        action_views(v@) == seq![a@],
{
    let mut v = Vec::new();
    v.push(a);
    assert(action_views(v@) =~= seq![a@]);
    v
}

fn two(a: VoiceAction, b: VoiceAction) -> (v: Vec<VoiceAction>)
    ensures
        action_views(v@) == seq![a@, b@],
{
    let mut v = Vec::new();
    v.push(a);
    v.push(b);
    assert(action_views(v@) =~= seq![a@, b@]);
    v
}

/// One step of a playback request.
pub fn play_step(s: PlayState, e: PlayEvent) -> (r: (PlayState, Vec<VoiceAction>))
    ensures
        (r.0@, action_views(r.1@)) == play_next(s@, e@),
{
    match (s, e) {
        (PlayState::Begin, PlayEvent::Request { url_given, channel_known, connected, author, author_channel }) => {
            if !url_given {
                (PlayState::Done, one(VoiceAction::Say(owned("Must provide a URL to a video or audio"))))
            } else if !channel_known {
                (PlayState::Done, one(VoiceAction::Say(owned("Error finding channel info"))))
            } else if connected {
                (PlayState::AwaitingSource { joined: false }, one(VoiceAction::LoadSource))
            } else {
                match author_channel {
                    None => (
                        PlayState::Done,
                        one(say_line("You are not in a voice channel, **", author.as_str(), "**.")),
                    ),
                    Some(name) => (PlayState::Joining(name), one(VoiceAction::Join)),
                }
            }
        },
        (PlayState::Joining(name), PlayEvent::Joined(ok)) => {
            if ok {
                let said = say_line("Joined the voice channel **", name.as_str(), "**, beginning playback.");
                (PlayState::AwaitingSource { joined: true }, two(said, VoiceAction::LoadSource))
            } else {
                (PlayState::Done, one(say_line("Error joining **", name.as_str(), "**. Please try again later.")))
            }
        },
        (PlayState::AwaitingSource { joined }, PlayEvent::SourceOpened(ok)) => {
            if ok {
                if joined {
                    (PlayState::Done, one(VoiceAction::Play))
                } else {
                    (PlayState::Done, two(VoiceAction::Say(owned("Beginning song playback.")), VoiceAction::Play))
                }
            } else if joined {
                (PlayState::Done, one(VoiceAction::Say(owned("Error starting playback. Please try again later."))))
            } else {
                (PlayState::Done, one(VoiceAction::Say(owned("Error starting playback...Please try again later."))))
            }
        },
        (s, _) => {
            let v: Vec<VoiceAction> = Vec::new();
            assert(action_views(v@) =~= Seq::<VoiceActionView>::empty());
            (s, v)
        },
    }
}

/// A finished request stays finished and asks for nothing more.
pub proof fn play_done_is_final(e: PlayEventView)
    ensures
        play_next(PlayStateView::Done, e) == (PlayStateView::Done, Seq::<VoiceActionView>::empty()),
{
}

/// Playback starts only after a source opened: every step that asks to
/// play is a step on an opened source.
pub proof fn play_only_after_source(s: PlayStateView, e: PlayEventView)
    ensures
        play_next(s, e).1.contains(VoiceActionView::Play) ==> (s is AwaitingSource && e == PlayEventView::SourceOpened(
            true,
        )),
{
    let r = play_next(s, e).1;
    if r.contains(VoiceActionView::Play) {
        let k = choose|k: int| 0 <= k < r.len() && r[k] == VoiceActionView::Play;
        assert(r[k] == VoiceActionView::Play);
    }
}

// ---------------------------------------------------------------------------
// Joining alone
// ---------------------------------------------------------------------------

/// The join command: not in a voice channel, or join the named channel.
pub fn join_request(author: &str, author_channel: Option<String>) -> (r: (Option<String>, Vec<VoiceAction>))
    ensures
        r.0.deep_view() == author_channel.deep_view(),
        action_views(r.1@) == match author_channel {
            None => seq![VoiceActionView::Say(not_in_voice(author@))],
            Some(_) => seq![VoiceActionView::Join],
        },
{
    match author_channel {
        None => (None, one(say_line("You are not in a voice channel, **", author, "**."))),
        Some(name) => (Some(name), one(VoiceAction::Join)),
    }
}

/// What the join command says once joining was tried.
pub fn join_result(channel: &str, ok: bool) -> (a: VoiceAction)
    ensures
        a@ == VoiceActionView::Say(
            if ok { "Joined the voice channel **"@ + channel@ + "**."@ } else { join_failed(channel@) },
        ),
{
    if ok {
        say_line("Joined the voice channel **", channel, "**.")
    } else {
        say_line("Error joining **", channel, "**. Please try again later.")
    }
}

} // verus!
