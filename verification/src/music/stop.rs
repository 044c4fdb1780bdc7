//! The `stop` command: stop the guild's playlist.

use vstd::prelude::*;

use crate::music::{control, control_view, ControlStep, QueueCommand};

verus! {

/// The `stop` command: stops and clears the queue where the bot is in a
/// voice channel of the guild, and otherwise says that it is in none.
pub fn stop(in_voice: bool) -> (step: ControlStep)
    ensures
        step.apply == in_voice,
        step.reply@ == control_view(QueueCommand::Stop, in_voice),
{
    control(QueueCommand::Stop, in_voice)
}

} // verus!
