//! The `play` command (alias `p`): queue a song found by a search, a single
//! song by URL, or every song of a playlist.

use regex::Regex;
use vstd::prelude::*;
use vstd::string::*;
use vstd::utf8::{decode_utf8, valid_utf8};

use crate::args::{argument_facts, as_text, first_argument, split_first_argument};
use crate::music::{not_in_voice, not_in_voice_card};
use crate::reply::{field_view, fields_view, new_card, push_field, warning, warning_card, Embed, EmbedView, Field, FieldView, COLOUR_SUCCESS};
use crate::text::{contains, decimal, decimal_string, occurs_in, push_char, push_decimal, starts_with};

verus! {

/// The captures of group one of every match of the regular expression
/// `pattern` in `text`, in order (a capture is `None` where group one took no
/// part in the match), or `None` where `pattern` does not compile.
pub uninterp spec fn regex_group_one(pattern: Seq<char>, text: Seq<char>) -> Option<Seq<Option<Seq<char>>>>;

/// Calls `regex::Regex::new(pattern)` and, on success, `captures_iter(text)`,
/// taking group one of each match with `Captures::get(1)`. Claims that the
/// result is `regex_group_one` of the arguments, and that each capture is a
/// piece of `text`, which the crate documents. Which matches the pattern has
/// is left to the name.
#[verifier::external_body]
fn group_one_captures(pattern: &str, text: &str) -> (r: Option<Vec<Option<String>>>)
    ensures
        r.deep_view() == regex_group_one(pattern@, text@),
        r matches Some(caps) ==> forall|i: int|
            0 <= i < caps@.len() ==> (#[trigger] caps@[i] matches Some(s) ==> occurs_in(
                text@,
                s@,
            )),
{
    match Regex::new(pattern) {
        Ok(re) => Some(
            re.captures_iter(text).map(|c| c.get(1).map(|m| m.as_str().to_string())).collect(),
        ),
        Err(_) => None,
    }
}

/// The pattern of one video of a playlist in yt-dlp's JSON listing: its
/// `url` entry, with the watch URL as group one.
pub open spec fn playlist_entry_pattern() -> Seq<char> {
    "\"url\": \"(https://www.youtube.com/watch\\?v=[A-Za-z0-9]{11})\""@
}

/// The listing the URLs are read from, given yt-dlp's output (`None` where
/// yt-dlp could not be run): the text `Error!` where it could not be run, the
/// output decoded where it is UTF-8, and `None` where it is not.
pub open spec fn listing_view(stdout: Option<Seq<u8>>) -> Option<Seq<char>> {
    match stdout {
        None => Some("Error!"@),
        Some(bytes) => if valid_utf8(bytes) {
            Some(decode_utf8(bytes))
        } else {
            None
        },
    }
}

/// Calls `String::from_utf8`: claims that it succeeds exactly on valid UTF-8
/// and then holds the decoded characters, as std documents.
#[verifier::external_body]
fn utf8_string(bytes: Vec<u8>) -> (r: Option<String>)
    ensures
        r is Some <==> valid_utf8(bytes@),
        r matches Some(s) ==> s@ == decode_utf8(bytes@),
{
    String::from_utf8(bytes).ok()
}

/// The `play` command's listing of a playlist, from yt-dlp's standard output
/// (`None` where yt-dlp could not be run), as [`listing_view`] describes it.
pub fn playlist_listing(stdout: Option<Vec<u8>>) -> (r: Option<String>)
    ensures
        r.deep_view() == listing_view(stdout.deep_view()),
{
    match stdout {
        None => Some(String::from_str("Error!")),
        Some(bytes) => {
            let ghost b = bytes@;
            assert(bytes.deep_view() =~= b);
            utf8_string(bytes)
        },
    }
}

/// The entry pattern is the `url` key of a JSON entry, then, as group one, a
/// watch URL whose video id is exactly eleven ASCII letters or digits, then
/// the closing quote.
pub proof fn law_entry_pattern(u: ())
    ensures
        playlist_entry_pattern() == "\"url\": \"("@ + "https://www.youtube.com/watch\\?v="@
            + "[A-Za-z0-9]"@ + "{11}"@ + ")\""@,
        "[A-Za-z0-9]"@ == seq!['[', 'A', '-', 'Z', 'a', '-', 'z', '0', '-', '9', ']'],
        "{11}"@ == seq!['{', '1', '1', '}'],
{
    reveal_strlit("\"url\": \"(https://www.youtube.com/watch\\?v=[A-Za-z0-9]{11})\"");
    reveal_strlit("\"url\": \"(");
    reveal_strlit("https://www.youtube.com/watch\\?v=");
    reveal_strlit("[A-Za-z0-9]");
    reveal_strlit("{11}");
    reveal_strlit(")\"");
    assert(playlist_entry_pattern() =~= "\"url\": \"("@ + "https://www.youtube.com/watch\\?v="@
        + "[A-Za-z0-9]"@ + "{11}"@ + ")\""@);
}

/// The URLs of a list of captures: all of them, in order, where every
/// capture is present; `None` where the pattern did not compile or a capture
/// is missing.
pub open spec fn urls_of(caps: Option<Seq<Option<Seq<char>>>>) -> Option<Seq<Seq<char>>> {
    match caps {
        None => None,
        Some(c) => if forall|i: int| 0 <= i < c.len() ==> #[trigger] c[i] is Some {
            Some(c.map_values(|o: Option<Seq<char>>| o->0))
        } else {
            None
        },
    }
}

/// The URLs of a list of captures, as [`urls_of`] describes them.
pub fn urls_from_captures(caps: Option<Vec<Option<String>>>) -> (r: Option<Vec<String>>)
    ensures
        r.deep_view() == urls_of(caps.deep_view()),
{
    match caps {
        None => None,
        Some(c) => {
            let ghost cv = c.deep_view();
            assert(cv =~= c@.map_values(|o: Option<String>| o.deep_view()));
            assert(caps.deep_view() == Some(cv));
            let mut urls: Vec<String> = Vec::new();
            let mut rest = c;
            let ghost all = rest@;
            let mut i: usize = 0;
            let n = rest.len();
            while i < n
                invariant
                    n == all.len(),
                    caps.deep_view() == Some(cv),
                    i <= n,
                    cv == all.map_values(|o: Option<String>| o.deep_view()),
                    urls@.len() == i,
                    forall|k: int| 0 <= k < i ==> #[trigger] all[k] is Some,
                    forall|k: int| 0 <= k < i ==> #[trigger] urls@[k]@ == all[k]->0@,
                    rest@ =~= all,
                decreases n - i,
            {
                match &rest[i] {
                    Some(s) => {
                        urls.push(s.clone());
                    },
                    None => {
                        assert(cv[i as int] == all[i as int].deep_view());
                        assert(!(cv[i as int] is Some));
                        assert(0 <= i < cv.len());
                        assert(!(forall|k: int| 0 <= k < cv.len() ==> #[trigger] cv[k] is Some));
                        assert(urls_of(Some(cv)) is None);
                        return None;
                    },
                }
                i = i + 1;
            }
            assert forall|k: int| 0 <= k < cv.len() implies #[trigger] cv[k] is Some by {
                assert(cv[k] == all[k].deep_view());
            }
            assert(urls.deep_view() =~= cv.map_values(|o: Option<Seq<char>>| o->0));
            Some(urls)
        },
    }
}

/// The `play` command's playlist step: the watch URLs in yt-dlp's listing of
/// the playlist, in the order they are listed. Each URL is a piece of the
/// listing. The result is `None` only where the pattern fails to compile or a
/// match lacks its group.
pub fn playlist_urls(text: &str) -> (r: Option<Vec<String>>)
    ensures
        r.deep_view() == urls_of(regex_group_one(playlist_entry_pattern(), text@)),
        r matches Some(urls) ==> forall|i: int|
            0 <= i < urls@.len() ==> occurs_in(text@, #[trigger] urls@[i]@),
{
    let caps = group_one_captures(
        "\"url\": \"(https://www.youtube.com/watch\\?v=[A-Za-z0-9]{11})\"",
        text,
    );
    let ghost caps_value = caps;
    let ghost cv = caps.deep_view();
    let r = urls_from_captures(caps);
    proof {
        if r is Some {
            let urls = r->0;
            assert forall|i: int| 0 <= i < urls@.len() implies occurs_in(
                text@,
                #[trigger] urls@[i]@,
            ) by {
                let c = caps_value->0;
                assert(cv == Some(c.deep_view()));
                assert(urls.deep_view().len() == urls@.len());
                assert(c.deep_view().len() == c@.len());
                assert(urls.deep_view()[i] == urls@[i]@);
                assert(c.deep_view()[i] == c@[i].deep_view());
                assert(c@[i] is Some);
                assert(urls@[i]@ == c@[i]->0@);
            }
        }
    }
    r
}


/// Where the `play` command takes its song from.
pub enum Source {
    /// Search YouTube for the whole argument text.
    Search(String),
    /// Queue the song at this URL.
    Link(String),
    /// Queue every song of the playlist at this URL.
    Playlist(String),
}

/// The view of a [`Source`].
pub enum SourceView {
    Search(Seq<char>),
    Link(Seq<char>),
    Playlist(Seq<char>),
}

impl View for Source {
    type V = SourceView;

    open spec fn view(&self) -> SourceView {
        match self {
            Source::Search(q) => SourceView::Search(q@),
            Source::Link(u) => SourceView::Link(u@),
            Source::Playlist(u) => SourceView::Playlist(u@),
        }
    }
}

/// The card when `play` is given no argument.
pub open spec fn play_usage() -> EmbedView {
    warning(":warning: Use the command like this: play <url>"@)
}

/// The source for the first argument `url` and the whole argument text
/// `query`: a search where `url` does not begin with `http`, a playlist where
/// it does and names a playlist, a single song otherwise.
pub open spec fn source_view(url: Seq<char>, query: Seq<char>) -> SourceView {
    if !"http"@.is_prefix_of(url) {
        SourceView::Search(query)
    } else if occurs_in(url, "playlist"@) {
        SourceView::Playlist(url)
    } else {
        SourceView::Link(url)
    }
}

/// The `play` command's first step for a given first argument: the argument,
/// or the card that explains how to use the command.
pub fn play_with_argument(url: Option<&str>) -> (r: Result<String, Embed>)
    ensures
        match url {
            Some(u) => r matches Ok(v) && v@ == u@,
            None => r matches Err(e) && e@ == play_usage(),
        },
{
    match url {
        Some(u) => Ok(String::from_str(u)),
        None => Err(warning_card(":warning: Use the command like this: play <url>")),
    }
}

/// The `play` command's first step, given the text after the command's name:
/// its first argument, or the card that explains how to use the command.
pub fn play(message: &str) -> (r: Result<String, Embed>)
    ensures
        match first_argument(message@) {
            Some(u) => r matches Ok(v) && v@ == u,
            None => r matches Err(e) && e@ == play_usage(),
        },
        message@.len() == 0 ==> (r matches Err(e) && e@ == play_usage()),
        argument_facts(message@),
{
    let url = split_first_argument(message);
    play_with_argument(as_text(&url))
}

/// The `play` command's second step, once it knows whether the bot is in a
/// voice channel of the guild: where to take the song from, or the card that
/// says the bot is in no voice channel.
pub fn choose_source(url: &str, query: &str, in_voice: bool) -> (r: Result<Source, Embed>)
    ensures
        in_voice ==> (r matches Ok(s) && s@ == source_view(url@, query@)),
        !in_voice ==> (r matches Err(e) && e@ == not_in_voice()),
        in_voice && !"http"@.is_prefix_of(url@) ==> (r matches Ok(Source::Search(q)) && q@ == query@),
        in_voice && "http"@.is_prefix_of(url@) && occurs_in(url@, "playlist"@) ==> (r matches Ok(
            Source::Playlist(u),
        ) && u@ == url@),
        in_voice && "http"@.is_prefix_of(url@) && !occurs_in(url@, "playlist"@) ==> (r matches Ok(
            Source::Link(u),
        ) && u@ == url@),
{
    if !in_voice {
        return Err(not_in_voice_card());
    }
    if !starts_with(url, "http") {
        Ok(Source::Search(String::from_str(query)))
    } else if contains(url, "playlist") {
        Ok(Source::Playlist(String::from_str(url)))
    } else {
        Ok(Source::Link(String::from_str(url)))
    }
}

/// Where a song comes from: a text that does not begin with `http` is a
/// search for the whole argument text; a URL is a playlist exactly when it
/// contains `playlist`, and otherwise a single song (a watch URL with a
/// `list=` parameter among them).
pub proof fn law_playlist_exactly_when_named(url: Seq<char>, query: Seq<char>)
    ensures
        !"http"@.is_prefix_of(url) ==> source_view(url, query) == SourceView::Search(query),
        "http"@.is_prefix_of(url) ==> (source_view(url, query) is Playlist <==> occurs_in(
            url,
            "playlist"@,
        )),
        "http"@.is_prefix_of(url) && !occurs_in(url, "playlist"@) ==> source_view(url, query)
            == SourceView::Link(url),
        "http"@.is_prefix_of(url) && occurs_in(url, "playlist"@) ==> source_view(url, query)
            == SourceView::Playlist(url),
{
}

/// The sum of a list of durations in seconds.
pub open spec fn seconds_sum(durations: Seq<u64>) -> nat
    decreases durations.len(),
{
    if durations.len() == 0 {
        0
    } else {
        seconds_sum(durations.drop_last()) + durations.last() as nat
    }
}

proof fn lemma_seconds_sum_prefix(s: Seq<u64>, k: int)
    requires
        0 <= k <= s.len(),
    ensures
        seconds_sum(s.subrange(0, k)) <= seconds_sum(s),
    decreases s.len() - k,
{
    if k < s.len() {
        lemma_seconds_sum_prefix(s, k + 1);
        assert(s.subrange(0, k + 1).drop_last() =~= s.subrange(0, k));
    } else {
        assert(s.subrange(0, k) =~= s);
    }
}

/// Adding a song of `added` seconds to the queue adds exactly that much to
/// the queue's total playing time.
pub proof fn law_added_song_adds_its_duration(durations: Seq<u64>, added: u64)
    ensures
        seconds_sum(durations.push(added)) == seconds_sum(durations) + added,
{
    assert(durations.push(added).drop_last() =~= durations);
}

/// The total playing time of the queue, in seconds, from the durations of
/// its songs; `None` where the total does not fit in a `u64`.
pub fn total_seconds(durations: &Vec<u64>) -> (r: Option<u64>)
    ensures
        seconds_sum(durations@) <= u64::MAX ==> r == Some(seconds_sum(durations@) as u64),
        seconds_sum(durations@) > u64::MAX ==> r is None,
{
    let n = durations.len();
    let mut total: u64 = 0;
    let mut i: usize = 0;
    assert(durations@.subrange(0, 0) =~= Seq::<u64>::empty());
    while i < n
        invariant
            n == durations@.len(),
            i <= n,
            total == seconds_sum(durations@.subrange(0, i as int)),
        decreases n - i,
    {
        let ghost next = durations@.subrange(0, i + 1);
        assert(next.drop_last() =~= durations@.subrange(0, i as int));
        match total.checked_add(durations[i]) {
            Some(t) => {
                total = t;
            },
            None => {
                proof {
                    lemma_seconds_sum_prefix(durations@, i + 1);
                }
                return None;
            },
        }
        i = i + 1;
    }
    assert(durations@.subrange(0, n as int) =~= durations@);
    Some(total)
}

/// A number written with at least two digits.
pub open spec fn two_digits(s: Seq<char>) -> Seq<char> {
    if s.len() < 2 {
        seq!['0'] + s
    } else {
        s
    }
}

/// A number of seconds as a clock reading `hours:minutes:seconds`, each part
/// with at least two digits.
pub open spec fn clock_text(secs: nat) -> Seq<char> {
    two_digits(decimal(secs / 3600)) + ":"@ + two_digits(decimal((secs / 60) % 60)) + ":"@
        + two_digits(decimal(secs % 60))
}

fn push_two_digits(s: &mut String, n: u64)
    ensures
        final(s)@ == old(s)@ + two_digits(decimal(n as nat)),
{
    if n < 10 {
        push_char(s, '0');
        assert(decimal(n as nat).len() == 1);
    } else {
        assert(decimal(n as nat).len() >= 2) by {
            assert(decimal(n as nat) == decimal((n / 10) as nat).push(crate::text::digit_char((n % 10) as nat)));
            crate::text::lemma_decimal_digits((n / 10) as nat);
        }
    }
    push_decimal(s, n as u128);
    assert(final(s)@ =~= old(s)@ + two_digits(decimal(n as nat)));
}

/// The clock reading shows the number of seconds: its hours, minutes and
/// seconds add up to it, with minutes and seconds below sixty.
pub proof fn law_clock_reads_back(secs: nat)
    ensures
        exists|h: nat, m: nat, s: nat|
            m < 60 && s < 60 && h * 3600 + m * 60 + s == secs && clock_text(secs) == two_digits(
                decimal(h),
            ) + ":"@ + two_digits(decimal(m)) + ":"@ + two_digits(decimal(s)),
{
    let h = secs / 3600;
    let m = (secs / 60) % 60;
    let s = secs % 60;
    let mins = secs / 60;
    assert(secs == mins * 60 + s) by (nonlinear_arith)
        requires
            mins == secs / 60,
            s == secs % 60,
    ;
    assert(mins == h * 60 + m) by (nonlinear_arith)
        requires
            mins == secs / 60,
            h == secs / 3600,
            m == mins % 60,
    ;
    assert(h * 3600 + m * 60 + s == secs) by (nonlinear_arith)
        requires
            secs == mins * 60 + s,
            mins == h * 60 + m,
    ;
    assert(clock_text(secs) == two_digits(decimal(h)) + ":"@ + two_digits(decimal(m)) + ":"@
        + two_digits(decimal(s)));
}

/// The total playing time as the cards show it.
pub fn to_time(secs: u64) -> (t: String)
    ensures
        t@ == clock_text(secs as nat),
{
    let mut t = String::new();
    push_two_digits(&mut t, secs / 3600);
    t.append(":");
    push_two_digits(&mut t, (secs / 60) % 60);
    t.append(":");
    push_two_digits(&mut t, secs % 60);
    assert(t@ =~= clock_text(secs as nat));
    t
}

/// The thumbnail of a song that has none of its own.
pub open spec fn default_thumbnail() -> Seq<char> {
    "https://images.unsplash.com/photo-1611162616475-46b635cb6868?ixlib=rb-4.0.3"@
}

/// The fields that describe the queue after a song was added.
pub open spec fn queue_fields(queue_len: usize, total_secs: u64) -> Seq<FieldView> {
    seq![
        field_view("Songs queued"@, decimal(queue_len as nat), true),
        field_view("Total playtime"@, clock_text(total_secs as nat), true),
    ]
}

fn queue_field_list(queue_len: usize, total_secs: u64) -> (fields: Vec<Field>)
    ensures
        fields_view(fields@) == queue_fields(queue_len, total_secs),
{
    let mut fields: Vec<Field> = Vec::new();
    push_field(&mut fields, "Songs queued", decimal_string(queue_len as u128), true);
    push_field(&mut fields, "Total playtime", to_time(total_secs), true);
    assert(fields_view(fields@) =~= queue_fields(queue_len, total_secs));
    fields
}

/// A song that was added to the queue: its title, artist and thumbnail, the
/// length of the queue with it, and the total playing time of the queue.
pub struct Queued {
    pub title: String,
    pub artist: String,
    pub thumbnail: Option<String>,
    pub queue_len: usize,
    pub total_secs: u64,
}

/// The card that reports a song added from a search (`searched`) or from a
/// link.
pub open spec fn song_added_view(searched: bool, song: Queued) -> EmbedView {
    EmbedView {
        colour: COLOUR_SUCCESS,
        title: if searched { ":notes: Found song!"@ } else { ":notes: Added to playlist!"@ },
        description: Some(song.title@ + " - "@ + song.artist@),
        url: None,
        thumbnail: Some(
            match song.thumbnail {
                Some(t) => t@,
                None => default_thumbnail(),
            },
        ),
        fields: queue_fields(song.queue_len, song.total_secs),
        footer: None,
    }
}

/// The card when a song of a search or of a playlist could not be sourced.
pub open spec fn playlist_song_failed() -> EmbedView {
    EmbedView {
        description: Some("This could mean that one of the songs in the playlist is unavailable."@),
        ..warning(":warning: Error adding song to playlist"@)
    }
}

/// The card when the song at a link could not be sourced.
pub open spec fn link_failed() -> EmbedView {
    EmbedView {
        description: Some("This could mean that the song is unavailable."@),
        ..warning(":warning: Error adding song to playlist."@)
    }
}

fn playlist_song_failed_card() -> (e: Embed)
    ensures
        e@ == playlist_song_failed(),
{
    let mut e = warning_card(":warning: Error adding song to playlist");
    e.description = Some(
        String::from_str("This could mean that one of the songs in the playlist is unavailable."),
    );
    e
}

/// The card after the `play` command looked for the song of a search
/// (`searched`) or a link: the song that was added, or the error when none
/// could be sourced.
pub fn song_queued(searched: bool, song: Option<Queued>) -> (e: Embed)
    ensures
        match song {
            Some(s) => e@ == song_added_view(searched, s),
            None => e@ == (if searched { playlist_song_failed() } else { link_failed() }),
        },
{
    match song {
        None => if searched {
            playlist_song_failed_card()
        } else {
            let mut e = warning_card(":warning: Error adding song to playlist.");
            e.description = Some(String::from_str("This could mean that the song is unavailable."));
            e
        },
        Some(s) => {
            let ghost sv = s;
            let title = if searched {
                String::from_str(":notes: Found song!")
            } else {
                String::from_str(":notes: Added to playlist!")
            };
            let mut description = s.title;
            description.append(" - ");
            description.append(s.artist.as_str());
            let thumbnail = match s.thumbnail {
                Some(t) => t,
                None => String::from_str(
                    "https://images.unsplash.com/photo-1611162616475-46b635cb6868?ixlib=rb-4.0.3",
                ),
            };
            let mut e = new_card(COLOUR_SUCCESS, title);
            e.description = Some(description);
            e.thumbnail = Some(thumbnail);
            e.fields = queue_field_list(s.queue_len, s.total_secs);
            assert(e@ == song_added_view(searched, sv));
            e
        },
    }
}

/// The card that reports a song of a playlist added to the queue.
pub open spec fn playlist_song_added(queue_len: usize, total_secs: u64) -> EmbedView {
    EmbedView {
        fields: queue_fields(queue_len, total_secs),
        ..crate::reply::success(":notes: Added playlist!"@)
    }
}

/// What the `play` command does after looking for one song of a playlist:
/// the card to send, and whether to go on with the next song.
pub struct PlaylistStep {
    pub reply: Embed,
    pub keep_going: bool,
}

/// One song of a playlist: where it was added (with the length of the queue
/// and its total playing time), the card reports it and the command goes on;
/// where it could not be sourced, the card reports the error and the command
/// stops.
pub fn playlist_song(added: Option<(usize, u64)>) -> (step: PlaylistStep)
    ensures
        step.keep_going == added is Some,
        match added {
            Some((len, secs)) => step.reply@ == playlist_song_added(len, secs),
            None => step.reply@ == playlist_song_failed(),
        },
{
    match added {
        Some((len, secs)) => {
            let mut e = new_card(COLOUR_SUCCESS, String::from_str(":notes: Added playlist!"));
            e.fields = queue_field_list(len, secs);
            PlaylistStep { reply: e, keep_going: true }
        },
        None => PlaylistStep { reply: playlist_song_failed_card(), keep_going: false },
    }
}

} // verus!
