//! The `help` command: a menu of the bot's commands.

use vstd::prelude::*;
use vstd::string::*;

use crate::args::{arg_text, argument_facts, as_text, first_argument, split_first_argument};
use crate::reply::{field_view, fields_view, push_field, new_card, Embed, EmbedView, Field, FieldView, COLOUR_INFO};
use crate::text::same_text;

verus! {

/// The fields of the menu chosen by the first argument: the general
/// commands, the music commands, or, for anything else and for no argument,
/// the overview.
pub open spec fn help_fields(menu: Option<Seq<char>>) -> Seq<FieldView> {
    if menu == Some("general"@) {
        seq![
            field_view("help"@, "Displays this help menu"@, true),
            field_view("ping"@, "Shows info about the bot"@, true),
            field_view("choice"@, "Selects a random number from a given range"@, true),
        ]
    } else if menu == Some("music"@) {
        seq![
            field_view("join"@, "Joins a voice channel"@, true),
            field_view("leave"@, "Leaves a music channel"@, true),
            field_view("play"@, "Play / queue a song from a YouTube URL"@, true),
            field_view("stop"@, "Stops current playlist"@, true),
            field_view("skip"@, "Skips the current song"@, true),
            field_view("pause"@, "Pauses the current song"@, true),
            field_view("resume"@, "Resumes the current song"@, true),
            field_view("nowplaying"@, "Shows info about current song"@, true),
            field_view("queue"@, "Show the current queue"@, true),
            field_view("shuffle"@, "Shuffles the current playlist"@, true),
        ]
    } else {
        seq![
            field_view("help"@, "Displays this help menu"@, false),
            field_view("help music"@, "Show music commands"@, false),
            field_view("help general"@, "Show general commands"@, false),
        ]
    }
}

/// The help card for the command prefix `prefix` and the chosen menu.
pub open spec fn help_view(prefix: Seq<char>, menu: Option<Seq<char>>) -> EmbedView {
    EmbedView {
        colour: COLOUR_INFO,
        title: "**- -【 Ｈｅｌｐ 】- -**"@,
        description: Some(
            "Hi! I'm Echo. A simple rust discord bot made with Serenity and Songbird! My prefix is `"@
                + prefix + "`."@,
        ),
        url: None,
        thumbnail: Some(
            "https://images.unsplash.com/photo-1574169208507-84376144848b?ixlib=rb-4.0.3"@,
        ),
        fields: help_fields(menu),
        footer: Some("Made by Gogy"@),
    }
}

fn menu_fields(menu: Option<&str>) -> (fields: Vec<Field>)
    ensures
        fields_view(fields@) == help_fields(arg_text(menu)),
{
    let mut v: Vec<Field> = Vec::new();
    let choice: u8 = match menu {
        Some(m) => if same_text(m, "general") {
            1
        } else if same_text(m, "music") {
            2
        } else {
            0
        },
        None => 0,
    };
    if choice == 1 {
        push_field(&mut v, "help", String::from_str("Displays this help menu"), true);
        push_field(&mut v, "ping", String::from_str("Shows info about the bot"), true);
        push_field(&mut v, "choice", String::from_str("Selects a random number from a given range"), true);
    } else if choice == 2 {
        push_field(&mut v, "join", String::from_str("Joins a voice channel"), true);
        push_field(&mut v, "leave", String::from_str("Leaves a music channel"), true);
        push_field(&mut v, "play", String::from_str("Play / queue a song from a YouTube URL"), true);
        push_field(&mut v, "stop", String::from_str("Stops current playlist"), true);
        push_field(&mut v, "skip", String::from_str("Skips the current song"), true);
        push_field(&mut v, "pause", String::from_str("Pauses the current song"), true);
        push_field(&mut v, "resume", String::from_str("Resumes the current song"), true);
        push_field(&mut v, "nowplaying", String::from_str("Shows info about current song"), true);
        push_field(&mut v, "queue", String::from_str("Show the current queue"), true);
        push_field(&mut v, "shuffle", String::from_str("Shuffles the current playlist"), true);
    } else {
        push_field(&mut v, "help", String::from_str("Displays this help menu"), false);
        push_field(&mut v, "help music", String::from_str("Show music commands"), false);
        push_field(&mut v, "help general", String::from_str("Show general commands"), false);
    }
    assert(fields_view(v@) =~= help_fields(arg_text(menu)));
    v
}

/// The `help` card for a given menu name (`general` or `music`; anything
/// else, or nothing, gives the overview), under a card that names the command
/// prefix.
pub fn help_with_menu(prefix: &str, menu: Option<&str>) -> (e: Embed)
    ensures
        e@ == help_view(prefix@, arg_text(menu)),
{
    let mut description = String::from_str(
        "Hi! I'm Echo. A simple rust discord bot made with Serenity and Songbird! My prefix is `",
    );
    description.append(prefix);
    description.append("`.");
    let mut e = new_card(COLOUR_INFO, String::from_str("**- -【 Ｈｅｌｐ 】- -**"));
    e.description = Some(description);
    e.thumbnail = Some(
        String::from_str(
            "https://images.unsplash.com/photo-1574169208507-84376144848b?ixlib=rb-4.0.3",
        ),
    );
    e.fields = menu_fields(menu);
    e.footer = Some(String::from_str("Made by Gogy"));
    e
}

/// The `help` command, given the command prefix and the text after the
/// command's name: the menu is named by the first argument.
pub fn help(prefix: &str, message: &str) -> (e: Embed)
    ensures
        e@ == help_view(prefix@, first_argument(message@)),
        message@.len() == 0 ==> e@ == help_view(prefix@, None),
        argument_facts(message@),
{
    let menu = split_first_argument(message);
    help_with_menu(prefix, as_text(&menu))
}

/// Only the first argument picks the menu: two messages with the same first
/// argument get the same card.
pub proof fn law_first_argument_picks_menu(prefix: Seq<char>, a: Seq<char>, b: Seq<char>)
    requires
        first_argument(a) == first_argument(b),
    ensures
        help_view(prefix, first_argument(a)) == help_view(prefix, first_argument(b)),
{
}

/// A menu name other than `general` and `music` shows the same card as no
/// menu name at all.
pub proof fn law_unknown_menu_shows_overview(prefix: Seq<char>, menu: Seq<char>)
    requires
        menu != "general"@,
        menu != "music"@,
    ensures
        help_view(prefix, Some(menu)) == help_view(prefix, None),
{
}

} // verus!
