//! The `ping` command: the shard the bot answers from, its latency and its
//! connection stage.

use vstd::prelude::*;
use vstd::string::*;

use crate::reply::{field_view, fields_view, new_card, push_field, warning, warning_card, EmbedView, Field, FieldView, Reply, ReplyView, COLOUR_INFO};
use crate::text::{decimal, decimal_string};

verus! {

/// What the bot finds when it looks up the shard that received the command.
pub enum ShardLookup {
    /// The shard manager is missing from the client's data.
    NoManager,
    /// The manager has no runner for this shard.
    NoRunner,
    /// The runner's measured latency in milliseconds (none until it has been
    /// measured) and its connection stage as text.
    Runner { latency_ms: Option<u128>, stage: String },
}

/// The latency as the card shows it.
pub open spec fn latency_text(latency_ms: Option<u128>) -> Seq<char> {
    match latency_ms {
        Some(ms) => decimal(ms as nat) + " ms"@,
        None => "..."@,
    }
}

/// The fields of the info card.
pub open spec fn info_fields(shard_id: u64, latency_ms: Option<u128>, stage: Seq<char>) -> Seq<FieldView> {
    seq![
        field_view("Shard ID"@, decimal(shard_id as nat), true),
        field_view("Latency"@, latency_text(latency_ms), true),
        field_view("Status:"@, stage, false),
    ]
}

/// What `ping` sends for shard `shard_id` after the lookup `lookup`.
pub open spec fn ping_view(shard_id: u64, lookup: ShardLookup) -> ReplyView {
    match lookup {
        ShardLookup::NoManager => ReplyView::Answer(
            "There was a problem getting the shard manager"@,
        ),
        ShardLookup::NoRunner => ReplyView::Card(warning(":warning: No shard found!"@)),
        ShardLookup::Runner { latency_ms, stage } => ReplyView::Card(
            EmbedView {
                colour: COLOUR_INFO,
                title: "**Info**"@,
                description: None,
                url: None,
                thumbnail: None,
                fields: info_fields(shard_id, latency_ms, stage@),
                footer: None,
            },
        ),
    }
}

fn latency_string(latency_ms: Option<u128>) -> (s: String)
    ensures
        s@ == latency_text(latency_ms),
{
    match latency_ms {
        Some(ms) => {
            let mut s = decimal_string(ms);
            s.append(" ms");
            s
        },
        None => String::from_str("..."),
    }
}

/// The `ping` command: answers the author when the shard manager is missing,
/// warns when the shard has no runner, and otherwise shows the shard id, the
/// latency and the connection stage.
pub fn ping(shard_id: u64, lookup: ShardLookup) -> (r: Reply)
    ensures
        r@ == ping_view(shard_id, lookup),
{
    match lookup {
        ShardLookup::NoManager => Reply::Answer(
            String::from_str("There was a problem getting the shard manager"),
        ),
        ShardLookup::NoRunner => Reply::Card(warning_card(":warning: No shard found!")),
        ShardLookup::Runner { latency_ms, stage } => {
            let ghost stage_text = stage@;
            let mut fields: Vec<Field> = Vec::new();
            push_field(&mut fields, "Shard ID", decimal_string(shard_id as u128), true);
            push_field(&mut fields, "Latency", latency_string(latency_ms), true);
            push_field(&mut fields, "Status:", stage, false);
            assert(fields_view(fields@) =~= info_fields(shard_id, latency_ms, stage_text));
            let mut e = new_card(COLOUR_INFO, String::from_str("**Info**"));
            e.fields = fields;
            Reply::Card(e)
        },
    }
}

} // verus!
