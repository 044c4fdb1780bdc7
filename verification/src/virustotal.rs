//! The `scan` command (aliases `virustotal`, `vt`): the verdict of a URL
//! scan, coloured by how many engines flagged the URL.

use vstd::prelude::*;
use vstd::string::*;

use crate::reply::{new_card, Embed, EmbedView, COLOUR_CAUTION, COLOUR_ERROR, COLOUR_SUCCESS};
use crate::text::{decimal, push_decimal};

verus! {

/// How dangerous a scanned URL looks.
#[derive(PartialEq, Eq, Structural, Clone, Copy)]
pub enum Severity {
    Safe,
    Suspicious,
    Malicious,
}

/// The severity of a URL that `positives` engines flagged: fewer than four is
/// safe, fewer than ten suspicious, otherwise malicious.
pub open spec fn severity_of(positives: u32) -> Severity {
    if positives < 4 {
        Severity::Safe
    } else if positives < 10 {
        Severity::Suspicious
    } else {
        Severity::Malicious
    }
}

/// The rank of a severity, from zero for safe to two for malicious.
pub open spec fn severity_rank(s: Severity) -> int {
    match s {
        Severity::Safe => 0,
        Severity::Suspicious => 1,
        Severity::Malicious => 2,
    }
}

/// The colour of a card for a severity.
pub open spec fn severity_colour(s: Severity) -> u32 {
    match s {
        Severity::Safe => COLOUR_SUCCESS,
        Severity::Suspicious => COLOUR_CAUTION,
        Severity::Malicious => COLOUR_ERROR,
    }
}

/// The card for a scanned URL.
pub open spec fn scan_view(url: Seq<char>, positives: u32, total: u32, permalink: Seq<char>) -> EmbedView {
    EmbedView {
        colour: severity_colour(severity_of(positives)),
        title: ":shield: URL Scanned"@,
        description: Some(
            "--> `"@ + url + "`\n\nHits --> "@ + decimal(positives as nat) + "/"@ + decimal(
                total as nat,
            ),
        ),
        url: Some(permalink),
        thumbnail: None,
        fields: Seq::empty(),
        footer: None,
    }
}

/// The severity of a URL that `positives` engines flagged.
pub fn severity(positives: u32) -> (s: Severity)
    ensures
        s == severity_of(positives),
{
    if positives < 4 {
        Severity::Safe
    } else if positives < 10 {
        Severity::Suspicious
    } else {
        Severity::Malicious
    }
}

fn colour_of(s: Severity) -> (c: u32)
    ensures
        c == severity_colour(s),
{
    match s {
        Severity::Safe => COLOUR_SUCCESS,
        Severity::Suspicious => COLOUR_CAUTION,
        Severity::Malicious => COLOUR_ERROR,
    }
}

/// The `scan` command's card: the scanned URL, how many of the engines
/// flagged it, a link to the full report, and a colour for the severity.
pub fn scan(url: &str, positives: u32, total: u32, permalink: String) -> (e: Embed)
    ensures
        e@ == scan_view(url@, positives, total, permalink@),
        positives < 4 ==> e.colour == COLOUR_SUCCESS,
        4 <= positives < 10 ==> e.colour == COLOUR_CAUTION,
        positives >= 10 ==> e.colour == COLOUR_ERROR,
{
    let mut description = String::from_str("--> `");
    description.append(url);
    description.append("`\n\nHits --> ");
    push_decimal(&mut description, positives as u128);
    description.append("/");
    push_decimal(&mut description, total as u128);
    let mut e = new_card(colour_of(severity(positives)), String::from_str(":shield: URL Scanned"));
    e.description = Some(description);
    e.url = Some(permalink);
    e
}

/// More engines flagging a URL never make it look less dangerous.
pub proof fn law_severity_monotone(fewer: u32, more: u32)
    requires
        fewer <= more,
    ensures
        severity_rank(severity_of(fewer)) <= severity_rank(severity_of(more)),
{
}

/// The rank of a card colour by the danger it shows: green below yellow
/// below red.
pub open spec fn colour_rank(colour: u32) -> int {
    if colour == COLOUR_SUCCESS {
        0
    } else if colour == COLOUR_CAUTION {
        1
    } else {
        2
    }
}

/// The scan card's colour depends on the number of positives alone: green
/// below four, yellow below ten, red from ten on; and more positives never
/// give a less alarming colour.
pub proof fn law_scan_colour(
    url: Seq<char>,
    other_url: Seq<char>,
    fewer: u32,
    more: u32,
    total: u32,
    other_total: u32,
    link: Seq<char>,
    other_link: Seq<char>,
)
    ensures
        fewer < 4 ==> scan_view(url, fewer, total, link).colour == COLOUR_SUCCESS,
        4 <= fewer < 10 ==> scan_view(url, fewer, total, link).colour == COLOUR_CAUTION,
        fewer >= 10 ==> scan_view(url, fewer, total, link).colour == COLOUR_ERROR,
        fewer == more ==> scan_view(url, fewer, total, link).colour == scan_view(
            other_url,
            more,
            other_total,
            other_link,
        ).colour,
        fewer <= more ==> colour_rank(scan_view(url, fewer, total, link).colour) <= colour_rank(
            scan_view(other_url, more, other_total, other_link).colour,
        ),
{
}

} // verus!
