//! The music commands: joining and leaving voice channels, queueing songs
//! and controlling the queue.

pub mod join;
pub mod leave;
pub mod play;
pub mod stop;

use vstd::prelude::*;
use vstd::string::*;

use crate::args::{arg_text, argument_facts, as_text, first_argument, split_first_argument};
use crate::reply::{success, success_card, warning, warning_card, Embed, EmbedView, Reply, ReplyView};
use crate::text::{decimal, push_decimal, starts_with};

verus! {

/// The card when the bot is in no voice channel of the guild.
pub open spec fn not_in_voice() -> EmbedView {
    warning(":warning: Not in a voice channel."@)
}

/// Builds the card for a bot that is in no voice channel of the guild.
pub fn not_in_voice_card() -> (e: Embed)
    ensures
        e@ == not_in_voice(),
{
    warning_card(":warning: Not in a voice channel.")
}

/// A command on the guild's queue.
#[derive(PartialEq, Eq, Structural, Clone, Copy)]
pub enum QueueCommand {
    Skip,
    Pause,
    Resume,
    Stop,
}

/// What a queue command does: whether to apply it to the queue, and the card
/// to send afterwards.
pub struct ControlStep {
    pub apply: bool,
    pub reply: Embed,
}

/// The title of the card that confirms a queue command.
pub open spec fn control_title(command: QueueCommand) -> Seq<char> {
    match command {
        QueueCommand::Skip => ":track_next: Skipped!"@,
        QueueCommand::Pause => ":pause_button: Paused!"@,
        QueueCommand::Resume => ":arrow_forward: Resumed!"@,
        QueueCommand::Stop => ":stop_button: Playlist stopped!"@,
    }
}

/// The card a queue command sends.
pub open spec fn control_view(command: QueueCommand, in_voice: bool) -> EmbedView {
    if in_voice {
        success(control_title(command))
    } else {
        not_in_voice()
    }
}

/// A queue command: applied, and confirmed, where the bot is in a voice
/// channel of the guild; otherwise not applied, and the card says the bot is
/// in none.
pub fn control(command: QueueCommand, in_voice: bool) -> (step: ControlStep)
    ensures
        step.apply == in_voice,
        step.reply@ == control_view(command, in_voice),
{
    if !in_voice {
        return ControlStep { apply: false, reply: not_in_voice_card() };
    }
    let reply = match command {
        QueueCommand::Skip => success_card(":track_next: Skipped!"),
        QueueCommand::Pause => success_card(":pause_button: Paused!"),
        QueueCommand::Resume => success_card(":arrow_forward: Resumed!"),
        QueueCommand::Stop => success_card(":stop_button: Playlist stopped!"),
    };
    ControlStep { apply: true, reply }
}

/// The `skip` command: skips the current song.
pub fn skip(in_voice: bool) -> (step: ControlStep)
    ensures
        step.apply == in_voice,
        step.reply@ == control_view(QueueCommand::Skip, in_voice),
{
    control(QueueCommand::Skip, in_voice)
}

/// The `pause` command: pauses the current song.
pub fn pause(in_voice: bool) -> (step: ControlStep)
    ensures
        step.apply == in_voice,
        step.reply@ == control_view(QueueCommand::Pause, in_voice),
{
    control(QueueCommand::Pause, in_voice)
}

/// The `resume` command: resumes the current song.
pub fn resume(in_voice: bool) -> (step: ControlStep)
    ensures
        step.apply == in_voice,
        step.reply@ == control_view(QueueCommand::Resume, in_voice),
{
    control(QueueCommand::Resume, in_voice)
}

/// What the simple `play` command makes of its argument: without one it
/// explains its use, a text that does not begin with `http` is refused, and
/// otherwise the URL is the one to queue.
pub open spec fn play_request_view(url: Option<Seq<char>>) -> Result<Seq<char>, ReplyView> {
    match url {
        None => Err(ReplyView::Say("Use the command like this: `play <url>`"@)),
        Some(u) => if "http"@.is_prefix_of(u) {
            Ok(u)
        } else {
            Err(ReplyView::Card(warning(":warning: Please enter a valid URL."@)))
        },
    }
}

/// The simple `play` command's first step for a given first argument: the
/// URL to queue, or the reply that ends the command.
pub fn play_with_argument(url: Option<&str>) -> (r: Result<String, Reply>)
    ensures
        match r {
            Ok(u) => play_request_view(arg_text(url)) == Ok::<Seq<char>, ReplyView>(u@),
            Err(reply) => play_request_view(arg_text(url)) == Err::<Seq<char>, ReplyView>(reply@),
        },
{
    match url {
        None => Err(Reply::Say(String::from_str("Use the command like this: `play <url>`"))),
        Some(u) => if starts_with(u, "http") {
            Ok(String::from_str(u))
        } else {
            Err(Reply::Card(warning_card(":warning: Please enter a valid URL.")))
        },
    }
}

/// The simple `play` command's first step, given the text after the
/// command's name: the URL is its first argument.
pub fn play(message: &str) -> (r: Result<String, Reply>)
    ensures
        match r {
            Ok(u) => play_request_view(first_argument(message@)) == Ok::<Seq<char>, ReplyView>(u@),
            Err(reply) => play_request_view(first_argument(message@)) == Err::<Seq<char>, ReplyView>(reply@),
        },
        message@.len() == 0 ==> (r matches Err(reply) && reply@ == ReplyView::Say(
            "Use the command like this: `play <url>`"@,
        )),
        argument_facts(message@),
{
    let url = split_first_argument(message);
    play_with_argument(as_text(&url))
}

/// What the simple `play` command sends once the bot looked for the source:
/// an error where yt-dlp gave none, otherwise the song's position in the
/// queue.
pub open spec fn play_queued_view(fetched: bool, queue_len: usize) -> ReplyView {
    if fetched {
        ReplyView::Say("Playing song. Position in queue: "@ + decimal(queue_len as nat))
    } else {
        ReplyView::Card(warning(":warning: Error sourcing yt-dlp."@))
    }
}

/// The simple `play` command's reply after fetching the source; `queue_len`
/// is the length of the queue after the song was added.
pub fn play_queued(fetched: bool, queue_len: usize) -> (r: Reply)
    ensures
        r@ == play_queued_view(fetched, queue_len),
{
    if fetched {
        let mut text = String::from_str("Playing song. Position in queue: ");
        push_decimal(&mut text, queue_len as u128);
        Reply::Say(text)
    } else {
        Reply::Card(warning_card(":warning: Error sourcing yt-dlp."))
    }
}

} // verus!
