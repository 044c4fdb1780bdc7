use echo::music::join::{join, joined, JoinStep};
use echo::music::leave::{leave, left, LeaveStep};
use echo::music::play::{choose_source, play, play_with_argument, playlist_listing, playlist_song, playlist_urls, song_queued, to_time, total_seconds, Queued, Source};
use echo::music::stop::stop;
use echo::music::{control, pause, play as play_simple, play_queued, play_with_argument as play_simple_with_argument, resume, skip, QueueCommand};
use echo::reply::{Reply, COLOUR_ERROR, COLOUR_SUCCESS};

#[test]
fn join_needs_a_voice_channel() {
    match join(None) {
        JoinStep::Done(e) => {
            assert_eq!(e.colour, COLOUR_ERROR);
            assert_eq!(e.title, ":warning: Join a voice channel first!");
        },
        JoinStep::Connect(_) => panic!("no channel to connect to"),
    }
    match join(Some(1234)) {
        JoinStep::Connect(c) => assert_eq!(c, 1234),
        JoinStep::Done(_) => panic!("should connect"),
    }
}

#[test]
fn joined_mentions_the_channel() {
    let e = joined(81384788765712384, true);
    assert_eq!(e.colour, COLOUR_SUCCESS);
    assert_eq!(e.title, "Joined channel --> <#81384788765712384>");
    let f = joined(5, false);
    assert_eq!(f.colour, COLOUR_ERROR);
    assert_eq!(f.title, ":warning: error joining channel.");
    assert_eq!(f.description.as_deref(), Some("Please ensure I have the correct permissions."));
}

#[test]
fn leave_flow() {
    match leave(false) {
        LeaveStep::Done(e) => assert_eq!(e.title, ":warning: Not in a voice channel."),
        LeaveStep::Disconnect => panic!("not in voice"),
    }
    assert!(matches!(leave(true), LeaveStep::Disconnect));
    let ok = left(true);
    assert_eq!(ok.len(), 1);
    assert_eq!(ok[0].title, "Left voice channel!");
    let failed = left(false);
    assert_eq!(failed.len(), 2);
    assert_eq!(failed[0].title, "Failed to join voice channel.");
    assert_eq!(failed[0].colour, COLOUR_ERROR);
    assert_eq!(failed[1].title, "Left voice channel!");
}

#[test]
fn queue_commands_apply_only_in_voice() {
    let cases = [
        (skip(true), ":track_next: Skipped!"),
        (pause(true), ":pause_button: Paused!"),
        (resume(true), ":arrow_forward: Resumed!"),
        (stop(true), ":stop_button: Playlist stopped!"),
    ];
    for (step, title) in cases {
        assert!(step.apply);
        assert_eq!(step.reply.title, title);
        assert_eq!(step.reply.colour, COLOUR_SUCCESS);
    }
    for command in [QueueCommand::Skip, QueueCommand::Pause, QueueCommand::Resume, QueueCommand::Stop] {
        let step = control(command, false);
        assert!(!step.apply);
        assert_eq!(step.reply.title, ":warning: Not in a voice channel.");
    }
}

#[test]
fn simple_play_checks_its_argument() {
    match play_simple_with_argument(None) {
        Err(Reply::Say(t)) => assert_eq!(t, "Use the command like this: `play <url>`"),
        _ => panic!("expected usage"),
    }
    match play_simple("never gonna give you up") {
        Err(Reply::Card(e)) => assert_eq!(e.title, ":warning: Please enter a valid URL."),
        _ => panic!("expected refusal"),
    }
    match play_simple("https://youtu.be/dQw4w9WgXcQ") {
        Ok(u) => assert_eq!(u, "https://youtu.be/dQw4w9WgXcQ"),
        _ => panic!("expected the URL"),
    }
    match play_queued(true, 3) {
        Reply::Say(t) => assert_eq!(t, "Playing song. Position in queue: 3"),
        _ => panic!("expected a message"),
    }
    match play_queued(false, 3) {
        Reply::Card(e) => assert_eq!(e.title, ":warning: Error sourcing yt-dlp."),
        _ => panic!("expected a card"),
    }
}

#[test]
fn play_chooses_its_source() {
    match play("") {
        Err(e) => assert_eq!(e.title, ":warning: Use the command like this: play <url>"),
        Ok(_) => panic!("no argument"),
    }
    assert!(play_with_argument(None).is_err());
    assert_eq!(play("abc def").ok().as_deref(), Some("abc"));
    match choose_source("rick", "rick astley", true) {
        Ok(Source::Search(q)) => assert_eq!(q, "rick astley"),
        _ => panic!("expected a search"),
    }
    match choose_source("https://www.youtube.com/playlist?list=PL1", "x", true) {
        Ok(Source::Playlist(u)) => assert_eq!(u, "https://www.youtube.com/playlist?list=PL1"),
        _ => panic!("expected a playlist"),
    }
    match choose_source("https://www.youtube.com/watch?v=dQw4w9WgXcQ", "x", true) {
        Ok(Source::Link(u)) => assert_eq!(u, "https://www.youtube.com/watch?v=dQw4w9WgXcQ"),
        _ => panic!("expected a link"),
    }
    match choose_source("https://x", "x", false) {
        Err(e) => assert_eq!(e.title, ":warning: Not in a voice channel."),
        Ok(_) => panic!("not in voice"),
    }
}

#[test]
fn playlist_urls_reads_the_listing() {
    let listing = [
        "{\"id\": \"a\", \"url\": \"https://www.youtube.com/watch?v=dQw4w9WgXcQ\", \"title\": \"x\"}",
        "{\"id\": \"b\", \"url\": \"https://www.youtube.com/watch?v=short\"}",
        "{\"id\": \"c\", \"url\": \"https://www.youtube.com/watch?v=9bZkp7q19f0\"}",
    ]
    .join("\n");
    assert_eq!(
        playlist_urls(&listing),
        Some(vec![
            "https://www.youtube.com/watch?v=dQw4w9WgXcQ".to_string(),
            "https://www.youtube.com/watch?v=9bZkp7q19f0".to_string(),
        ])
    );
    assert_eq!(playlist_urls("Error!"), Some(vec![]));
    assert_eq!(playlist_urls("nothing here"), Some(vec![]));
}

#[test]
fn playlist_listing_decodes_the_output() {
    assert_eq!(playlist_listing(None).as_deref(), Some("Error!"));
    assert_eq!(playlist_listing(Some("{\"url\": \"x\"}".as_bytes().to_vec())).as_deref(), Some("{\"url\": \"x\"}"));
    assert_eq!(playlist_listing(Some("héllo".as_bytes().to_vec())).as_deref(), Some("héllo"));
    assert_eq!(playlist_listing(Some(vec![0x66, 0xff, 0x66])), None);
}

#[test]
fn playtime_is_a_clock_reading() {
    assert_eq!(to_time(0), "00:00:00");
    assert_eq!(to_time(59), "00:00:59");
    assert_eq!(to_time(61), "00:01:01");
    assert_eq!(to_time(3723), "01:02:03");
    assert_eq!(to_time(360000), "100:00:00");
    assert_eq!(total_seconds(&vec![]), Some(0));
    assert_eq!(total_seconds(&vec![200, 13, 7]), Some(220));
    assert_eq!(total_seconds(&vec![u64::MAX, 1]), None);
}

#[test]
fn song_cards() {
    let song = Queued {
        title: "Never Gonna Give You Up".to_string(),
        artist: "Rick Astley".to_string(),
        thumbnail: None,
        queue_len: 2,
        total_secs: 425,
    };
    let e = song_queued(true, Some(song));
    assert_eq!(e.title, ":notes: Found song!");
    assert_eq!(e.description.as_deref(), Some("Never Gonna Give You Up - Rick Astley"));
    assert_eq!(
        e.thumbnail.as_deref(),
        Some("https://images.unsplash.com/photo-1611162616475-46b635cb6868?ixlib=rb-4.0.3")
    );
    assert_eq!(e.fields[0].value, "2");
    assert_eq!(e.fields[1].name, "Total playtime");
    assert_eq!(e.fields[1].value, "00:07:05");
    let linked = Queued {
        title: "t".to_string(),
        artist: "a".to_string(),
        thumbnail: Some("https://img/x.jpg".to_string()),
        queue_len: 1,
        total_secs: 1,
    };
    let e = song_queued(false, Some(linked));
    assert_eq!(e.title, ":notes: Added to playlist!");
    assert_eq!(e.thumbnail.as_deref(), Some("https://img/x.jpg"));
    let failed = song_queued(false, None);
    assert_eq!(failed.title, ":warning: Error adding song to playlist.");
    assert_eq!(failed.description.as_deref(), Some("This could mean that the song is unavailable."));
    let failed = song_queued(true, None);
    assert_eq!(failed.title, ":warning: Error adding song to playlist");
}

#[test]
fn playlist_stops_at_the_first_failure() {
    let step = playlist_song(Some((4, 3600)));
    assert!(step.keep_going);
    assert_eq!(step.reply.title, ":notes: Added playlist!");
    assert_eq!(step.reply.fields[0].value, "4");
    assert_eq!(step.reply.fields[1].value, "01:00:00");
    let step = playlist_song(None);
    assert!(!step.keep_going);
    assert_eq!(step.reply.colour, COLOUR_ERROR);
    assert_eq!(
        step.reply.description.as_deref(),
        Some("This could mean that one of the songs in the playlist is unavailable.")
    );
}

#[test]
fn adding_a_song_adds_its_duration() {
    let mut queue = vec![180, 240];
    let before = total_seconds(&queue).unwrap();
    queue.push(95);
    assert_eq!(total_seconds(&queue), Some(before + 95));
}
