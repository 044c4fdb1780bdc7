//! The `join` command (alias `j`): connect to the author's voice channel.

use vstd::prelude::*;
use vstd::string::*;

use crate::reply::{new_card, success, warning, warning_card, Embed, EmbedView, COLOUR_SUCCESS};
use crate::text::{decimal, push_decimal};

verus! {

/// What `join` does next.
pub enum JoinStep {
    /// Connect to this voice channel, then report with [`joined`].
    Connect(u64),
    /// Send this card and stop.
    Done(Embed),
}

/// How a channel is mentioned in a message: `<#` and its id.
pub open spec fn channel_mention(id: u64) -> Seq<char> {
    "<#"@ + decimal(id as nat) + ">"@
}

/// The card when the author is in no voice channel.
pub open spec fn no_voice_channel() -> EmbedView {
    warning(":warning: Join a voice channel first!"@)
}

/// The card after an attempt to connect to `channel`.
pub open spec fn joined_view(channel: u64, connected: bool) -> EmbedView {
    if connected {
        success("Joined channel --> "@ + channel_mention(channel))
    } else {
        EmbedView {
            description: Some("Please ensure I have the correct permissions."@),
            ..warning(":warning: error joining channel."@)
        }
    }
}

/// The `join` command: connects to the voice channel the author is in, or
/// asks the author to join one first.
pub fn join(author_channel: Option<u64>) -> (step: JoinStep)
    ensures
        match author_channel {
            Some(c) => step matches JoinStep::Connect(d) && d == c,
            None => step matches JoinStep::Done(e) && e@ == no_voice_channel(),
        },
{
    match author_channel {
        Some(c) => JoinStep::Connect(c),
        None => JoinStep::Done(warning_card(":warning: Join a voice channel first!")),
    }
}

/// The card after an attempt to connect to `channel`: success mentions the
/// channel, failure asks for the right permissions.
pub fn joined(channel: u64, connected: bool) -> (e: Embed)
    ensures
        e@ == joined_view(channel, connected),
{
    if connected {
        let mut title = String::from_str("Joined channel --> ");
        title.append("<#");
        push_decimal(&mut title, channel as u128);
        title.append(">");
        assert(title@ =~= "Joined channel --> "@ + channel_mention(channel));
        new_card(COLOUR_SUCCESS, title)
    } else {
        let mut e = warning_card(":warning: error joining channel.");
        e.description = Some(String::from_str("Please ensure I have the correct permissions."));
        e
    }
}

} // verus!
