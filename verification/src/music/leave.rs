//! The `leave` command: disconnect from the guild's voice channel.

use vstd::prelude::*;
use vstd::string::*;

use crate::music::{not_in_voice, not_in_voice_card};
use crate::reply::{card, new_card, success, success_card, Embed, EmbedView, COLOUR_ERROR};

verus! {

/// What `leave` does next.
pub enum LeaveStep {
    /// Disconnect, then report with [`left`].
    Disconnect,
    /// Send this card and stop.
    Done(Embed),
}

/// The cards sent after a disconnect: a failure card where removing the
/// connection failed, then in either case the card that reports leaving.
pub open spec fn left_view(removed: bool) -> Seq<EmbedView> {
    if removed {
        seq![success("Left voice channel!"@)]
    } else {
        seq![card(COLOUR_ERROR, "Failed to join voice channel."@), success("Left voice channel!"@)]
    }
}

/// The `leave` command: disconnects where the bot is in a voice channel of
/// the guild, and otherwise says that it is in none.
pub fn leave(in_voice: bool) -> (step: LeaveStep)
    ensures
        in_voice ==> step is Disconnect,
        !in_voice ==> (step matches LeaveStep::Done(e) && e@ == not_in_voice()),
{
    if in_voice {
        LeaveStep::Disconnect
    } else {
        LeaveStep::Done(not_in_voice_card())
    }
}

/// The cards sent after the disconnect, given whether the connection was
/// removed without error.
pub fn left(removed: bool) -> (cards: Vec<Embed>)
    ensures
        cards@.map_values(|e: Embed| e@) == left_view(removed),
{
    let mut cards: Vec<Embed> = Vec::new();
    if !removed {
        cards.push(new_card(COLOUR_ERROR, String::from_str("Failed to join voice channel.")));
    }
    cards.push(success_card("Left voice channel!"));
    assert(cards@.map_values(|e: Embed| e@) =~= left_view(removed));
    cards
}

} // verus!
