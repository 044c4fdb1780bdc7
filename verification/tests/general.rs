use echo::choice::{choice, choice_limit_of, choice_with_argument, roll_card};
use echo::help::{help, help_with_menu};
use echo::ping::{ping, ShardLookup};
use echo::reply::{Embed, Reply, COLOUR_CAUTION, COLOUR_ERROR, COLOUR_INFO, COLOUR_SUCCESS};
use echo::text::{contains, decimal_string, parse_u32, same_text, starts_with};
use echo::virustotal::{scan, severity, Severity};

fn field_list(e: &Embed) -> Vec<(String, String, bool)> {
    e.fields.iter().map(|f| (f.name.clone(), f.value.clone(), f.inline)).collect()
}

#[test]
fn parse_u32_reads_like_from_str() {
    assert_eq!(parse_u32("42"), Some(42));
    assert_eq!(parse_u32("+7"), Some(7));
    assert_eq!(parse_u32("007"), Some(7));
    assert_eq!(parse_u32("4294967295"), Some(u32::MAX));
    assert_eq!(parse_u32("4294967296"), None);
    assert_eq!(parse_u32("-3"), None);
    assert_eq!(parse_u32("+"), None);
    assert_eq!(parse_u32(""), None);
    assert_eq!(parse_u32("12a"), None);
    for s in ["0", "1", "+99", "123456", "99999999999", " 5", "5 ", "٣"] {
        assert_eq!(parse_u32(s), s.parse::<u32>().ok(), "{s}");
    }
}

#[test]
fn decimal_string_matches_to_string() {
    for n in [0u128, 7, 10, 305, 4294967295, u64::MAX as u128, u128::MAX] {
        assert_eq!(decimal_string(n), n.to_string());
    }
}

#[test]
fn parsing_reads_back_decimal_text() {
    for n in [0u32, 1, 9, 10, 69, 65535, u32::MAX] {
        assert_eq!(parse_u32(&decimal_string(n as u128)), Some(n));
    }
}

#[test]
fn substring_tests() {
    assert!(starts_with("https://youtu.be/x", "http"));
    assert!(!starts_with("htt", "http"));
    assert!(!starts_with("never gonna", "http"));
    assert!(contains("https://www.youtube.com/playlist?list=PL", "playlist"));
    assert!(!contains("https://www.youtube.com/watch?v=abc", "playlist"));
    assert!(contains("abc", ""));
    assert!(same_text("music", "music"));
    assert!(!same_text("music", "musics"));
}

#[test]
fn choice_limit_defaults_to_ten() {
    assert_eq!(choice_limit_of(None), 10);
    assert_eq!(choice_limit_of(Some("abc")), 10);
    assert_eq!(choice_limit_of(Some("-5")), 10);
    assert_eq!(choice_limit_of(Some("25")), 25);
}

#[test]
fn choice_refuses_small_limits() {
    for arg in ["0", "1"] {
        let e = choice_with_argument(Some(arg));
        assert_eq!(e.colour, COLOUR_ERROR);
        assert_eq!(e.title, ":warning: Number must be at least 2.");
        assert!(e.description.is_none());
    }
}

#[test]
fn choice_with_limit_two_always_draws_one() {
    for _ in 0..20 {
        let e = choice_with_argument(Some("2"));
        assert_eq!(e.colour, COLOUR_SUCCESS);
        assert_eq!(e.title, "Random digit --> 1");
        assert_eq!(e.description.as_deref(), Some("Range --> 1 - 2"));
        assert_eq!(e.footer.as_deref(), Some(" - "));
    }
}

#[test]
fn choice_draws_below_the_limit() {
    for _ in 0..200 {
        let e = choice_with_argument(None);
        let n: u32 = e.title.strip_prefix("Random digit --> ").unwrap().parse().unwrap();
        assert!((1..10).contains(&n));
        assert_eq!(e.description.as_deref(), Some("Range --> 1 - 10"));
    }
}

#[test]
fn roll_of_69_is_nice() {
    assert_eq!(roll_card(100, 69).footer.as_deref(), Some("Nice"));
    assert_eq!(roll_card(100, 68).footer.as_deref(), Some(" - "));
    assert_eq!(roll_card(100, 68).title, "Random digit --> 68");
}

#[test]
fn help_menus() {
    let general = help_with_menu("!", Some("general"));
    assert_eq!(general.colour, COLOUR_INFO);
    assert_eq!(general.title, "**- -【 Ｈｅｌｐ 】- -**");
    assert_eq!(
        general.description.as_deref(),
        Some("Hi! I'm Echo. A simple rust discord bot made with Serenity and Songbird! My prefix is `!`.")
    );
    assert_eq!(general.footer.as_deref(), Some("Made by Gogy"));
    let names: Vec<String> = general.fields.iter().map(|f| f.name.clone()).collect();
    assert_eq!(names, ["help", "ping", "choice"]);
    assert!(general.fields.iter().all(|f| f.inline));

    let music = help_with_menu("~", Some("music"));
    assert_eq!(music.fields.len(), 10);
    assert_eq!(music.fields[2].name, "play");
    assert_eq!(music.fields[2].value, "Play / queue a song from a YouTube URL");

    let overview = help_with_menu("!", None);
    assert_eq!(
        field_list(&overview),
        vec![
            ("help".to_string(), "Displays this help menu".to_string(), false),
            ("help music".to_string(), "Show music commands".to_string(), false),
            ("help general".to_string(), "Show general commands".to_string(), false),
        ]
    );
}

#[test]
fn help_with_an_unknown_menu_shows_the_overview() {
    let a = help_with_menu("!", Some("games"));
    let b = help_with_menu("!", None);
    assert_eq!(field_list(&a), field_list(&b));
    assert_eq!(a.description, b.description);
}

#[test]
fn ping_without_manager_answers_the_author() {
    match ping(0, ShardLookup::NoManager) {
        Reply::Answer(t) => assert_eq!(t, "There was a problem getting the shard manager"),
        _ => panic!("expected an answer"),
    }
}

#[test]
fn ping_without_runner_warns() {
    match ping(0, ShardLookup::NoRunner) {
        Reply::Card(e) => {
            assert_eq!(e.colour, COLOUR_ERROR);
            assert_eq!(e.title, ":warning: No shard found!");
        },
        _ => panic!("expected a card"),
    }
}

#[test]
fn ping_reports_shard_latency_and_stage() {
    let r = ping(3, ShardLookup::Runner { latency_ms: Some(42), stage: "Connected".to_string() });
    match r {
        Reply::Card(e) => {
            assert_eq!(e.colour, COLOUR_INFO);
            assert_eq!(e.title, "**Info**");
            assert_eq!(
                field_list(&e),
                vec![
                    ("Shard ID".to_string(), "3".to_string(), true),
                    ("Latency".to_string(), "42 ms".to_string(), true),
                    ("Status:".to_string(), "Connected".to_string(), false),
                ]
            );
        },
        _ => panic!("expected a card"),
    }
    match ping(0, ShardLookup::Runner { latency_ms: None, stage: "Handshake".to_string() }) {
        Reply::Card(e) => assert_eq!(e.fields[1].value, "..."),
        _ => panic!("expected a card"),
    }
}

#[test]
fn scan_colours_by_severity() {
    assert!(severity(0) == Severity::Safe);
    assert!(severity(3) == Severity::Safe);
    assert!(severity(4) == Severity::Suspicious);
    assert!(severity(9) == Severity::Suspicious);
    assert!(severity(10) == Severity::Malicious);
    let link = "https://www.virustotal.com/report".to_string();
    assert_eq!(scan("http://a.example", 3, 90, link.clone()).colour, COLOUR_SUCCESS);
    assert_eq!(scan("http://a.example", 4, 90, link.clone()).colour, COLOUR_CAUTION);
    assert_eq!(scan("http://a.example", 10, 90, link.clone()).colour, COLOUR_ERROR);
}

#[test]
fn scan_card_text() {
    let e = scan("http://a.example", 5, 88, "https://vt/permalink".to_string());
    assert_eq!(e.title, ":shield: URL Scanned");
    assert_eq!(e.url.as_deref(), Some("https://vt/permalink"));
    assert_eq!(e.description.as_deref(), Some("--> `http://a.example`\n\nHits --> 5/88"));
}

#[test]
fn choice_reads_the_first_word_of_the_message() {
    let e = choice("1 and more");
    assert_eq!(e.title, ":warning: Number must be at least 2.");
    let e = choice("2 3");
    assert_eq!(e.title, "Random digit --> 1");
    let e = choice("");
    assert_eq!(e.description.as_deref(), Some("Range --> 1 - 10"));
    let e = choice("lots");
    assert_eq!(e.description.as_deref(), Some("Range --> 1 - 10"));
}

#[test]
fn help_reads_the_menu_from_the_first_word() {
    let e = help("!", "general please");
    assert_eq!(e.fields.len(), 3);
    assert_eq!(e.fields[2].name, "choice");
    let e = help("!", "music");
    assert_eq!(e.fields.len(), 10);
    let e = help("!", "");
    assert_eq!(e.fields[1].name, "help music");
}

#[test]
fn choice_draws_more_than_one_number() {
    let mut seen = std::collections::HashSet::new();
    for _ in 0..300 {
        seen.insert(choice_with_argument(Some("1000")).title);
    }
    assert!(seen.len() > 1);
}

#[test]
fn choice_without_entropy_reports_an_error() {
    let e = echo::choice::roll_with(10, None);
    assert_eq!(e.colour, COLOUR_ERROR);
    assert_eq!(e.title, ":warning: Could not draw a random number.");
}

#[test]
fn help_with_an_empty_message_shows_the_overview() {
    let e = help("!", "");
    let o = help_with_menu("!", None);
    assert_eq!(field_list(&e), field_list(&o));
}

#[test]
fn help_reads_quoted_and_spaced_arguments() {
    assert_eq!(help("!", "  music  now").fields.len(), 10);
    assert_eq!(help("!", "general").fields.len(), 3);
}
