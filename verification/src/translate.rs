//! Translating session events into outbound messages.
//!
//! Each incoming protocol event maps to zero or one outbound message.  Chat
//! from a bridging Minecraft-Fabric client carries the bridge's own
//! `name> ` prefix, which is stripped; a chat line that then starts with
//! `"!"` is a command echo and is de-emphasized with the muted prefix.

use vstd::prelude::*;

use crate::message::{Message, MessageView, player_message, simple_message};
use crate::richtext::{RichText, RichTextView, format_rich_text, spec_render, token_views};

verus! {

/// A session event, reduced to the values the translator reads.  Event kinds
/// the translator ignores are collapsed into `Other`.
#[derive(Debug, Clone, PartialEq, Eq)]
pub enum Event {
    /// The connection to the session server was established.
    Connected,
    /// A chat message from a player, with the player's display name and the
    /// declared client type (game) of the originating client.
    Chat { player_name: String, player_game: String, message: String },
    /// A chat message originated by the server itself.
    ServerChat { message: String },
    /// An item was sent to a player.
    ItemSend { data: Vec<RichText> },
    /// An item was obtained through a cheat command.
    ItemCheat { data: Vec<RichText> },
    /// A hint was published.
    Hint { data: Vec<RichText> },
    /// A player joined the session.
    Join { data: Vec<RichText> },
    /// A player left the session.
    Part { data: Vec<RichText> },
    /// A player reached their goal.
    Goal { data: Vec<RichText> },
    /// A player released their remaining items.
    Release { data: Vec<RichText> },
    /// A player collected their remaining items.
    Collect { data: Vec<RichText> },
    /// The server countdown progressed.
    Countdown { data: Vec<RichText> },
    /// The client reported an error; logged by the caller, never delivered.
    SessionError { description: String },
    /// Any other event kind; produces no message.
    Other,
}

/// Mathematical model of an event.
pub enum EventView {
    Connected,
    Chat { player_name: Seq<char>, player_game: Seq<char>, message: Seq<char> },
    ServerChat { message: Seq<char> },
    ItemSend { data: Seq<RichTextView> },
    ItemCheat { data: Seq<RichTextView> },
    Hint { data: Seq<RichTextView> },
    Join { data: Seq<RichTextView> },
    Part { data: Seq<RichTextView> },
    Goal { data: Seq<RichTextView> },
    Release { data: Seq<RichTextView> },
    Collect { data: Seq<RichTextView> },
    Countdown { data: Seq<RichTextView> },
    SessionError { description: Seq<char> },
    Other,
}

impl View for Event {
    type V = EventView;

    open spec fn view(&self) -> EventView {
        match self {
            Event::Connected => EventView::Connected,
            Event::Chat { player_name, player_game, message } => EventView::Chat {
                player_name: player_name@,
                player_game: player_game@,
                message: message@,
            },
            Event::ServerChat { message } => EventView::ServerChat { message: message@ },
            Event::ItemSend { data } => EventView::ItemSend { data: token_views(data@) },
            Event::ItemCheat { data } => EventView::ItemCheat { data: token_views(data@) },
            Event::Hint { data } => EventView::Hint { data: token_views(data@) },
            Event::Join { data } => EventView::Join { data: token_views(data@) },
            Event::Part { data } => EventView::Part { data: token_views(data@) },
            Event::Goal { data } => EventView::Goal { data: token_views(data@) },
            Event::Release { data } => EventView::Release { data: token_views(data@) },
            Event::Collect { data } => EventView::Collect { data: token_views(data@) },
            Event::Countdown { data } => EventView::Countdown { data: token_views(data@) },
            Event::SessionError { description } => EventView::SessionError {
                description: description@,
            },
            Event::Other => EventView::Other,
        }
    }
}

/// The text that follows the first occurrence of the bridge marker `"> "`,
/// or `None` when the marker does not occur.
pub open spec fn spec_after_marker(s: Seq<char>) -> Option<Seq<char>>
    decreases s.len(),
{
    if s.len() < 2 {
        None
    } else if s[0] == '>' && s[1] == ' ' {
        Some(s.skip(2))
    } else {
        spec_after_marker(s.drop_first())
    }
}

/// A chat line with everything up to and including the first `"> "` removed;
/// the line unchanged when no such marker occurs.
pub open spec fn spec_stripped(s: Seq<char>) -> Seq<char> {
    match spec_after_marker(s) {
        Some(t) => t,
        None => s,
    }
}

/// The displayed content of a player chat message: the bridge prefix is
/// stripped only for a Minecraft-Fabric originator, and a resulting line that
/// starts with `"!"` gains the muted prefix.
pub open spec fn spec_chat_content(game: Seq<char>, message: Seq<char>) -> Seq<char> {
    let stripped = if game == "Minecraft Fabric"@ {
        spec_stripped(message)
    } else {
        message
    };
    if stripped.len() > 0 && stripped[0] == '!' {
        "-# "@ + stripped
    } else {
        stripped
    }
}

/// Removes everything up to and including the first `"> "` from the line;
/// returns the line unchanged when the marker is absent.
pub fn strip_bridge_prefix<'a>(message: &'a str) -> (r: &'a str)
    ensures
        r@ == spec_stripped(message@),
{
    let n = message.unicode_len();
    if n < 2 {
        return message;
    }
    let mut i: usize = 0;
    proof {
        assert(message@.skip(0) =~= message@);
    }
    while i <= n - 2
        invariant
            2 <= n,
            n == message@.len(),
            i <= n - 1,
            spec_after_marker(message@) == spec_after_marker(message@.skip(i as int)),
        decreases n - i,
    {
        let ghost s = message@.skip(i as int);
        if message.get_char(i) == '>' && message.get_char(i + 1) == ' ' {
            proof {
                assert(s[0] == '>' && s[1] == ' ');
                assert(spec_after_marker(s) == Some(s.skip(2)));
                assert(s.skip(2) =~= message@.subrange(i + 2, n as int));
            }
            return message.substring_char(i + 2, n);
        }
        proof {
            assert(s[0] != '>' || s[1] != ' ');
            assert(s.drop_first() =~= message@.skip(i + 1));
        }
        i += 1;
    }
    proof {
        assert(message@.skip(i as int).len() < 2);
    }
    message
}

/// A marker `"> "` stands at position `i` of `s`.
pub open spec fn marker_at(s: Seq<char>, i: int) -> bool {
    0 <= i && i + 2 <= s.len() && s[i] == '>' && s[i + 1] == ' '
}

/// Stripping finds exactly the first marker: when no marker stands anywhere
/// the line is left alone, and otherwise the result is everything after the
/// earliest marker.
pub proof fn lemma_strip_first_marker(s: Seq<char>)
    ensures
        spec_after_marker(s) is None ==> forall|i: int| !marker_at(s, i),
        spec_after_marker(s) matches Some(t) ==> exists|i: int|
            marker_at(s, i) && t == s.skip(i + 2) && (forall|j: int| j < i ==> !marker_at(s, j)),
    decreases s.len(),
{
    if s.len() < 2 {
        assert(forall|i: int| !marker_at(s, i));
    } else if s[0] == '>' && s[1] == ' ' {
        assert(marker_at(s, 0));
        assert(spec_after_marker(s) == Some(s.skip(2)));
        assert(forall|j: int| j < 0 ==> !marker_at(s, j));
    } else {
        let rest = s.drop_first();
        lemma_strip_first_marker(rest);
        assert(forall|i: int| marker_at(rest, i) ==> #[trigger] marker_at(s, i + 1));
        assert(forall|i: int| marker_at(s, i) && i >= 1 ==> #[trigger] marker_at(rest, i - 1));
        match spec_after_marker(rest) {
            None => {
                assert(spec_after_marker(s) is None);
                assert forall|i: int| !marker_at(s, i) by {
                    if i >= 1 {
                        assert(!marker_at(rest, i - 1));
                    }
                }
            },
            Some(t) => {
                let i = choose|i: int|
                    marker_at(rest, i) && t == rest.skip(i + 2) && (forall|j: int|
                        j < i ==> !marker_at(rest, j));
                assert(marker_at(s, i + 1));
                assert(rest.skip(i + 2) =~= s.skip(i + 3));
                assert forall|j: int| j < i + 1 implies !marker_at(s, j) by {
                    if j >= 1 {
                        assert(!marker_at(rest, j - 1));
                    }
                }
                assert(spec_after_marker(s) == Some(s.skip(i + 1 + 2)));
            },
        }
    }
}

/// Command-echo de-emphasis: a chat line that, after any stripping, starts
/// with `'!'` is wrapped in the muted prefix, and one that does not is passed
/// through unchanged.
pub proof fn lemma_command_echo_muting(game: Seq<char>, message: Seq<char>)
    ensures
        ({
            let stripped = if game == "Minecraft Fabric"@ {
                spec_stripped(message)
            } else {
                message
            };
            &&& (stripped.len() > 0 && stripped[0] == '!') ==> spec_chat_content(game, message)
                == "-# "@ + stripped
            &&& !(stripped.len() > 0 && stripped[0] == '!') ==> spec_chat_content(game, message)
                == stripped
        }),
{
}

/// Computes the displayed content of a chat message from the originator's
/// declared client type and the raw line.
pub fn chat_content(game: &str, message: &str) -> (r: String)
    ensures
        r@ == spec_chat_content(game@, message@),
{
    let is_fabric = String::from_str(game) == String::from_str("Minecraft Fabric");
    let stripped: &str = if is_fabric {
        strip_bridge_prefix(message)
    } else {
        message
    };
    let slen = stripped.unicode_len();
    if slen > 0 && stripped.get_char(0) == '!' {
        let mut r = String::from_str("-# ");
        r.append(stripped);
        r
    } else {
        String::from_str(stripped)
    }
}

/// The message an event translates to, or `None` for event kinds that produce
/// nothing.
pub open spec fn spec_translate(e: EventView) -> Option<MessageView> {
    match e {
        EventView::Connected => Some(
            MessageView::Simple { content: "-# Successfully connected!"@ },
        ),
        EventView::Chat { player_name, player_game, message } => Some(
            MessageView::Player {
                username: player_name,
                content: spec_chat_content(player_game, message),
            },
        ),
        EventView::ServerChat { message } => Some(MessageView::Simple { content: message }),
        EventView::ItemSend { data } => Some(MessageView::Simple { content: spec_render(data) }),
        EventView::ItemCheat { data } => Some(MessageView::Simple { content: spec_render(data) }),
        EventView::Hint { data } => Some(MessageView::Simple { content: spec_render(data) }),
        EventView::Join { data } => Some(MessageView::Simple { content: spec_render(data) }),
        EventView::Part { data } => Some(MessageView::Simple { content: spec_render(data) }),
        EventView::Goal { data } => Some(MessageView::Simple { content: spec_render(data) }),
        EventView::Release { data } => Some(MessageView::Simple { content: spec_render(data) }),
        EventView::Collect { data } => Some(MessageView::Simple { content: spec_render(data) }),
        EventView::Countdown { data } => Some(MessageView::Simple { content: spec_render(data) }),
        EventView::SessionError { .. } => None,
        EventView::Other => None,
    }
}

/// Maps one session event to zero or one outbound message, per the
/// translation rules.
pub fn translate_event(e: &Event) -> (m: Option<Message>)
    ensures
        match m {
            Some(msg) => spec_translate(e@) == Some(msg@),
            None => spec_translate(e@) is None,
        },
{
    match e {
        Event::Connected => Some(simple_message("-# Successfully connected!")),
        Event::Chat { player_name, player_game, message } => {
            let content = chat_content(player_game.as_str(), message.as_str());
            Some(player_message(player_name.as_str(), content.as_str()))
        },
        Event::ServerChat { message } => Some(simple_message(message.as_str())),
        Event::ItemSend { data } => Some(simple_message(format_rich_text(data).as_str())),
        Event::ItemCheat { data } => Some(simple_message(format_rich_text(data).as_str())),
        Event::Hint { data } => Some(simple_message(format_rich_text(data).as_str())),
        Event::Join { data } => Some(simple_message(format_rich_text(data).as_str())),
        Event::Part { data } => Some(simple_message(format_rich_text(data).as_str())),
        Event::Goal { data } => Some(simple_message(format_rich_text(data).as_str())),
        Event::Release { data } => Some(simple_message(format_rich_text(data).as_str())),
        Event::Collect { data } => Some(simple_message(format_rich_text(data).as_str())),
        Event::Countdown { data } => Some(simple_message(format_rich_text(data).as_str())),
        Event::SessionError { .. } => None,
        Event::Other => None,
    }
}

/// The final message enqueued when the session client reports itself
/// disconnected, carrying the disconnection reason.
pub fn disconnect_message(reason: &str) -> (m: Message)
    ensures
        m@ == (MessageView::Simple { content: "IslandBridge disconnected: "@ + reason@ }),
{
    let r = String::from_str("IslandBridge disconnected: ").concat(reason);
    Message::Simple { content: r }
}

} // verus!
