//! The `choice` command (aliases `random`, `choose`): a random number from
//! one up to a limit given as the first argument.

use rand::rngs::{OsRng, StdRng};
use rand::{Rng, SeedableRng};
use vstd::prelude::*;
use vstd::string::*;

use crate::args::{arg_text, argument_facts, as_text, first_argument, split_first_argument};
use crate::reply::{new_card, warning, warning_card, Embed, EmbedView, COLOUR_ERROR, COLOUR_SUCCESS};
use crate::text::{decimal, parse_u32, push_decimal, u32_text};

verus! {

#[verifier::external_type_specification]
#[verifier::external_body]
pub struct ExStdRng(StdRng);

/// Calls `rand::SeedableRng::from_rng(OsRng)` for `StdRng`: a generator
/// seeded from the operating system's random source. The call reports,
/// rather than panics, when that source gives no entropy; the result is then
/// `None`. Nothing is claimed of the generator's state, nor of when the source
/// fails.
#[verifier::external_body]
fn seeded_rng() -> Option<StdRng> {
    StdRng::from_rng(OsRng).ok()
}

/// Calls `rand::Rng::gen_range` on `low..high`: claims only that the result
/// lies in `low..high`, which the crate documents, and which value it is
/// depends on the generator. The crate panics on an empty range, which
/// `requires` excludes.
#[verifier::external_body]
fn gen_below(rng: &mut StdRng, low: u32, high: u32) -> (r: u32)
    requires
        low < high,
    ensures
        low <= r < high,
{
    rng.gen_range(low..high)
}

/// The upper limit the command uses: the argument read as a `u32`, or ten
/// where there is no argument or it is no `u32`.
pub open spec fn choice_limit(arg: Option<Seq<char>>) -> u32 {
    match arg {
        Some(a) => match u32_text(a) {
            Some(v) => v,
            None => 10,
        },
        None => 10,
    }
}

/// The card for a limit below two.
pub open spec fn limit_too_small() -> EmbedView {
    warning(":warning: Number must be at least 2."@)
}

/// The card that announces `rolled`, drawn below `max`; its footer says
/// "Nice" exactly when 69 was drawn.
pub open spec fn roll_view(max: u32, rolled: u32) -> EmbedView {
    EmbedView {
        colour: COLOUR_SUCCESS,
        title: "Random digit --> "@ + decimal(rolled as nat),
        description: Some("Range --> 1 - "@ + decimal(max as nat)),
        url: None,
        thumbnail: None,
        fields: Seq::empty(),
        footer: Some(if rolled == 69 { "Nice"@ } else { " - "@ }),
    }
}

/// The card when no random number could be drawn because the operating
/// system gave no entropy.
pub open spec fn no_entropy() -> EmbedView {
    warning(":warning: Could not draw a random number."@)
}

/// The limit the command reads from its first argument.
pub fn choice_limit_of(arg: Option<&str>) -> (max: u32)
    ensures
        max == choice_limit(arg_text(arg)),
{
    match arg {
        Some(a) => match parse_u32(a) {
            Some(v) => v,
            None => 10,
        },
        None => 10,
    }
}

/// The card that announces a number `rolled` drawn below `max`.
pub fn roll_card(max: u32, rolled: u32) -> (e: Embed)
    ensures
        e@ == roll_view(max, rolled),
{
    let mut title = String::from_str("Random digit --> ");
    push_decimal(&mut title, rolled as u128);
    let mut description = String::from_str("Range --> 1 - ");
    push_decimal(&mut description, max as u128);
    let footer = if rolled == 69 {
        String::from_str("Nice")
    } else {
        String::from_str(" - ")
    };
    let mut e = new_card(COLOUR_SUCCESS, title);
    e.description = Some(description);
    e.footer = Some(footer);
    e
}

/// The draw for a limit `max` of at least two, given the seeding of the
/// generator: without a generator the card reports that no number could be
/// drawn; with one, a number from one up to, but not including, `max` is
/// drawn and announced.
pub fn roll_with(max: u32, rng: Option<StdRng>) -> (e: Embed)
    requires
        max >= 2,
    ensures
        rng is None ==> e@ == no_entropy(),
        rng is Some ==> exists|rolled: u32| 1 <= rolled < max && e@ == roll_view(max, rolled),
{
    match rng {
        Some(mut generator) => {
            let rolled = gen_below(&mut generator, 1, max);
            roll_card(max, rolled)
        },
        None => warning_card(":warning: Could not draw a random number."),
    }
}

/// The `choice` command for a given first argument and a given seeding of
/// the generator: a limit below two is refused; otherwise, without a
/// generator the card reports that no number could be drawn, and with one it
/// announces a number from one up to, but not including, the limit.
pub fn choice_drawn_with(arg: Option<&str>, rng: Option<StdRng>) -> (e: Embed)
    ensures
        choice_limit(arg_text(arg)) <= 1 ==> e@ == limit_too_small(),
        choice_limit(arg_text(arg)) > 1 && rng is None ==> e@ == no_entropy(),
        choice_limit(arg_text(arg)) > 1 && rng is Some ==> exists|rolled: u32|
            1 <= rolled < choice_limit(arg_text(arg)) && e@ == roll_view(
                choice_limit(arg_text(arg)),
                rolled,
            ),
{
    let max = choice_limit_of(arg);
    if max <= 1 {
        return warning_card(":warning: Number must be at least 2.");
    }
    roll_with(max, rng)
}

/// A card that announces a drawn number is never the card that reports a
/// failed draw, nor the card that refuses the limit: it is green, they are
/// red, and it names the number and the limit.
pub proof fn law_drawn_card_is_no_error(max: u32, rolled: u32)
    ensures
        roll_view(max, rolled).colour == COLOUR_SUCCESS,
        no_entropy().colour == COLOUR_ERROR,
        limit_too_small().colour == COLOUR_ERROR,
        roll_view(max, rolled) != no_entropy(),
        roll_view(max, rolled).description == Some("Range --> 1 - "@ + decimal(max as nat)),
        roll_view(max, rolled).title == "Random digit --> "@ + decimal(rolled as nat),
{
}

/// The `choice` command for a given first argument: reads the limit from it
/// (ten by default); a limit below two is refused, otherwise a number from one
/// up to, but not including, the limit is drawn and announced (or, where
/// the operating system gives no entropy, an error card is sent).
pub fn choice_with_argument(arg: Option<&str>) -> (e: Embed)
    ensures
        choice_limit(arg_text(arg)) <= 1 ==> e@ == limit_too_small(),
        choice_limit(arg_text(arg)) > 1 ==> e@ == no_entropy() || exists|rolled: u32|
            1 <= rolled < choice_limit(arg_text(arg)) && e@ == roll_view(
                choice_limit(arg_text(arg)),
                rolled,
            ),
{
    let max = choice_limit_of(arg);
    if max <= 1 {
        return warning_card(":warning: Number must be at least 2.");
    }
    choice_drawn_with(arg, seeded_rng())
}

/// The `choice` command, given the text after the command's name: the limit
/// is read from its first argument, and the card is the one
/// [`choice_with_argument`] makes for it.
pub fn choice(message: &str) -> (e: Embed)
    ensures
        choice_limit(first_argument(message@)) <= 1 ==> e@ == limit_too_small(),
        choice_limit(first_argument(message@)) > 1 ==> e@ == no_entropy() || exists|rolled: u32|
            1 <= rolled < choice_limit(first_argument(message@)) && e@ == roll_view(
                choice_limit(first_argument(message@)),
                rolled,
            ),
        message@.len() == 0 ==> e@ == no_entropy() || exists|rolled: u32|
            1 <= rolled < 10 && e@ == roll_view(10, rolled),
        argument_facts(message@),
{
    let arg = split_first_argument(message);
    choice_with_argument(as_text(&arg))
}

} // verus!
