use sc_log_analyzer::event::{EventKind, EventTag, PlayerEvent};
use sc_log_analyzer::grammar::Grammars;
use sc_log_analyzer::ingest::{
    extract_nickname, find_record_end, insert_ascending, open_failure, parse_log, read_failure,
    sort_newest_first, strip_line_ending, Ingestor, ParsedLog,
};
use sc_log_analyzer::timestamp::Timestamp;

fn grammars() -> Grammars {
    match Grammars::new() {
        Ok(g) => g,
        Err(e) => panic!("pattern refused: {:?}", e),
    }
}

fn status_line(stamp: &str, player: &str, effect: &str) -> String {
    format!(
        "<{}> Logged a start of a status effect! nickname: {}, status effect: {}",
        stamp, player, effect
    )
}

fn ingest(text: &str) -> ParsedLog {
    parse_log(&grammars(), text.as_bytes())
}

fn effects(log: &ParsedLog) -> Vec<String> {
    log.events
        .iter()
        .map(|e| match &e.kind {
            EventKind::StatusEffect(s) => s.effect.clone(),
            other => panic!("not a status effect: {:?}", other),
        })
        .collect()
}

fn event_at(secs: i64, nanos: u32, tag: &str) -> PlayerEvent {
    let line = status_line("2024-01-01T00:00:00Z", "Bob", tag);
    match grammars().parse_line(&line) {
        Some(mut e) => {
            e.timestamp = Timestamp { secs, nanos };
            e
        }
        None => panic!("not classified"),
    }
}

fn tags(events: &[PlayerEvent]) -> Vec<String> {
    events
        .iter()
        .map(|e| match &e.kind {
            EventKind::StatusEffect(s) => s.effect.clone(),
            other => panic!("not a status effect: {:?}", other),
        })
        .collect()
}

#[test]
fn empty_log_gives_nothing() {
    let log = ingest("");
    assert_eq!(log.events.len(), 0);
    assert_eq!(log.primary_nickname, None);
}

#[test]
fn corpse_enabled_only_gives_no_events() {
    let log = ingest("<2024-01-01T00:00:00Z> Player 'Bob' <remote client>: IsCorpseEnabled: Yes.\n");
    assert_eq!(log.events.len(), 0);
    assert_eq!(log.primary_nickname, None);
    let twice = ingest("<2024-01-01T00:00:00Z> Player 'Bob': IsCorpseEnabled: Yes");
    assert_eq!(twice.events.len(), 0);
}

#[test]
fn adjacent_identical_lines_give_one_event() {
    let line = status_line("2024-01-01T00:00:00Z", "Bob", "A");
    let log = ingest(&format!("{}\n{}\n", line, line));
    assert_eq!(effects(&log), vec!["A"]);
    let thrice = ingest(&format!("{}\n{}\n{}", line, line, line));
    assert_eq!(effects(&thrice), vec!["A"]);
}

#[test]
fn identical_lines_with_noise_between_give_one_event() {
    let line = status_line("2024-01-01T00:00:00Z", "Bob", "A");
    let log = ingest(&format!("{}\nnoise\n\n{}\n", line, line));
    assert_eq!(effects(&log), vec!["A"]);
}

#[test]
fn non_adjacent_identical_lines_are_both_kept() {
    let a = status_line("2024-01-01T00:00:00Z", "Bob", "A");
    let b = status_line("2024-01-01T00:00:00Z", "Bob", "B");
    let log = ingest(&format!("{}\n{}\n{}\n", a, b, a));
    assert_eq!(effects(&log), vec!["A", "B", "A"]);
    assert_eq!(log.events[0], log.events[2]);
}

#[test]
fn ingestion_is_repeatable() {
    let text = format!(
        "{}\n{}\nnickname=\"Bob\"\n{}\n",
        status_line("2024-01-01T00:00:02Z", "Bob", "A"),
        status_line("2024-01-01T00:00:01Z", "Bob", "B"),
        status_line("2024-01-01T00:00:02Z", "Bob", "C"),
    );
    let first = ingest(&text);
    let second = ingest(&text);
    assert_eq!(first, second);
    assert_eq!(effects(&first), vec!["C", "A", "B"]);
}

#[test]
fn events_come_newest_first() {
    let text = format!(
        "{}\n{}\n{}\n{}\n",
        status_line("2024-01-01T00:00:03Z", "Bob", "third"),
        status_line("2024-01-01T00:00:01Z", "Bob", "first"),
        status_line("2024-01-01T00:00:04.5Z", "Bob", "fourth"),
        status_line("2024-01-01T00:00:02Z", "Bob", "second"),
    );
    assert_eq!(effects(&ingest(&text)), vec!["fourth", "third", "second", "first"]);
}

#[test]
fn events_of_one_instant_come_in_reverse_of_the_log() {
    let text = format!(
        "{}\n{}\n{}\n{}\n",
        status_line("2024-01-01T00:00:01Z", "Bob", "a"),
        status_line("2024-01-01T01:00:01+01:00", "Bob", "b"),
        status_line("2024-01-01T00:00:00Z", "Bob", "old"),
        status_line("2024-01-01T00:00:01.000Z", "Bob", "c"),
    );
    assert_eq!(effects(&ingest(&text)), vec!["c", "b", "a", "old"]);
}

#[test]
fn one_more_trailing_line_adds_one_event_in_its_place() {
    let base = format!(
        "{}\n{}\n{}\n",
        status_line("2024-01-01T00:00:05Z", "Bob", "five"),
        status_line("2024-01-01T00:00:01Z", "Bob", "one"),
        status_line("2024-01-01T00:00:03Z", "Bob", "three"),
    );
    let first = ingest(&base);
    assert_eq!(effects(&first), vec!["five", "three", "one"]);
    let longer = format!("{}{}\n", base, status_line("2024-01-01T00:00:03Z", "Bob", "new"));
    let second = ingest(&longer);
    assert_eq!(effects(&second), vec!["five", "new", "three", "one"]);
    let mut without: Vec<PlayerEvent> = second.events.clone();
    without.remove(1);
    assert_eq!(without, first.events);
    let newest = format!("{}{}", base, status_line("2024-01-01T00:00:09Z", "Bob", "nine"));
    assert_eq!(effects(&ingest(&newest)), vec!["nine", "five", "three", "one"]);
    let oldest = format!("{}{}\r\n", base, status_line("2024-01-01T00:00:00Z", "Bob", "zero"));
    assert_eq!(effects(&ingest(&oldest)), vec!["five", "three", "one", "zero"]);
}

#[test]
fn trailing_repeat_of_the_last_line_adds_nothing() {
    let line = status_line("2024-01-01T00:00:05Z", "Bob", "five");
    let first = ingest(&format!("{}\n", line));
    let second = ingest(&format!("{}\n{}\n", line, line));
    assert_eq!(first, second);
}

#[test]
fn line_endings_are_stripped() {
    let line = status_line("2024-01-01T00:00:00Z", "Bob", "A");
    let unix = ingest(&format!("{}\n", line));
    let dos = ingest(&format!("{}\r\n", line));
    let bare = ingest(&line);
    assert_eq!(unix.events[0].raw, line);
    assert_eq!(dos.events[0].raw, line);
    assert_eq!(bare.events[0].raw, line);
    let lone_cr = ingest(&format!("{}\r", line));
    assert_eq!(lone_cr.events[0].raw, format!("{}\r", line));
    let two_cr = ingest(&format!("{}\r\r\n", line));
    assert_eq!(two_cr.events[0].raw, format!("{}\r", line));
}

#[test]
fn strip_line_ending_cases() {
    assert_eq!(strip_line_ending(b"abc\n"), b"abc");
    assert_eq!(strip_line_ending(b"abc\r\n"), b"abc");
    assert_eq!(strip_line_ending(b"abc\r"), b"abc\r");
    assert_eq!(strip_line_ending(b"abc"), b"abc");
    assert_eq!(strip_line_ending(b"\n"), b"");
    assert_eq!(strip_line_ending(b"\r\n"), b"");
    assert_eq!(strip_line_ending(b""), b"");
    assert_eq!(strip_line_ending(b"a\n\n"), b"a\n");
}

#[test]
fn record_ends_behind_its_line_feed() {
    let bytes = b"ab\ncd\n\nef";
    assert_eq!(find_record_end(bytes, 0), 3);
    assert_eq!(find_record_end(bytes, 1), 3);
    assert_eq!(find_record_end(bytes, 3), 6);
    assert_eq!(find_record_end(bytes, 6), 7);
    assert_eq!(find_record_end(bytes, 7), 9);
    assert_eq!(find_record_end(bytes, 9), 9);
}

#[test]
fn bytes_that_are_no_utf8_are_replaced() {
    let mut bytes: Vec<u8> = Vec::new();
    bytes.extend_from_slice(b"<2024-01-01T00:00:00Z> Logged a start of a status effect! nickname: B\xffb, status effect: A\n");
    let log = parse_log(&grammars(), &bytes);
    assert_eq!(log.events.len(), 1);
    match &log.events[0].kind {
        EventKind::StatusEffect(s) => assert_eq!(s.player_name, "B\u{fffd}b"),
        other => panic!("not a status effect: {:?}", other),
    }
    assert!(log.events[0].raw.contains('\u{fffd}'));
}

#[test]
fn first_nickname_is_kept() {
    let text = format!(
        "noise\n<2024-01-01T00:00:00Z> login nickname=\"Bob\" playerGEID=1\n{}\nnickname=\"Carol\"\n",
        status_line("2024-01-01T00:00:00Z", "Bob", "A"),
    );
    let log = ingest(&text);
    assert_eq!(log.primary_nickname, Some(String::from("Bob")));
    assert_eq!(log.events.len(), 1);
}

#[test]
fn nickname_is_what_stands_between_the_quotes() {
    assert_eq!(extract_nickname("x nickname=\"Bob\" y"), Some(String::from("Bob")));
    assert_eq!(extract_nickname("nickname=\"\""), Some(String::new()));
    assert_eq!(extract_nickname("nickname=\"a\" nickname=\"b\""), Some(String::from("a")));
    assert_eq!(extract_nickname("é nickname=\"Zoë\"!"), Some(String::from("Zoë")));
    assert_eq!(extract_nickname("nickname=\"Bob"), None);
    assert_eq!(extract_nickname("nickname=Bob\""), None);
    assert_eq!(extract_nickname("Nickname=\"Bob\""), None);
    assert_eq!(extract_nickname(""), None);
}

#[test]
fn a_line_can_give_nickname_and_event() {
    let line = format!("{} nickname=\"Dan\"", status_line("2024-01-01T00:00:00Z", "Bob", "A"));
    let log = ingest(&line);
    assert_eq!(log.primary_nickname, Some(String::from("Dan")));
    assert_eq!(log.events.len(), 1);
}

#[test]
fn ingestor_takes_lines_one_by_one() {
    let g = grammars();
    let mut state = Ingestor::new();
    assert_eq!(state.accepted.len(), 0);
    assert_eq!(state.primary_nickname, None);
    let a = status_line("2024-01-01T00:00:01Z", "Bob", "A");
    let b = status_line("2024-01-01T00:00:02Z", "Bob", "B");
    state.feed_line(&g, &a);
    state.feed_line(&g, &a);
    state.feed_line(&g, "nickname=\"Bob\"");
    state.feed_record(&g, format!("{}\r\n", b).as_bytes());
    state.feed_record(&g, b"nickname=\"Carol\"\n");
    assert_eq!(tags(&state.accepted), vec!["A", "B"]);
    assert_eq!(state.primary_nickname, Some(String::from("Bob")));
    let log = state.finish();
    assert_eq!(effects(&log), vec!["B", "A"]);
    assert_eq!(log.primary_nickname, Some(String::from("Bob")));
}

#[test]
fn ingestor_and_parse_log_agree() {
    let g = grammars();
    let a = status_line("2024-01-01T00:00:01Z", "Bob", "A");
    let b = status_line("2024-01-01T00:00:02Z", "Bob", "B");
    let text = format!("{}\n{}\r\n{}", a, b, a);
    let mut state = Ingestor::new();
    state.feed_record(&g, format!("{}\n", a).as_bytes());
    state.feed_record(&g, format!("{}\r\n", b).as_bytes());
    state.feed_record(&g, a.as_bytes());
    assert_eq!(state.finish(), parse_log(&g, text.as_bytes()));
}

#[test]
fn accept_reading_drops_only_a_repeat_of_the_last() {
    let mut state = Ingestor::new();
    state.accept_reading(None);
    assert_eq!(state.accepted.len(), 0);
    state.accept_reading(Some(event_at(1, 0, "A")));
    state.accept_reading(Some(event_at(2, 0, "A")));
    assert_eq!(state.accepted.len(), 1);
    assert_eq!(state.accepted[0].timestamp, Timestamp { secs: 1, nanos: 0 });
    state.accept_reading(Some(event_at(1, 0, "B")));
    state.accept_reading(None);
    state.accept_reading(Some(event_at(1, 0, "A")));
    assert_eq!(tags(&state.accepted), vec!["A", "B", "A"]);
}

#[test]
fn sort_is_stable_and_newest_first() {
    let events = vec![
        event_at(5, 0, "a"),
        event_at(1, 0, "b"),
        event_at(5, 0, "c"),
        event_at(5, 1, "d"),
        event_at(-2, 7, "e"),
        event_at(1, 0, "f"),
    ];
    let sorted = sort_newest_first(events);
    assert_eq!(tags(&sorted), vec!["d", "c", "a", "f", "b", "e"]);
    assert_eq!(sort_newest_first(Vec::new()).len(), 0);
}

#[test]
fn insert_ascending_goes_behind_equal_instants() {
    let mut sorted = vec![event_at(1, 0, "a"), event_at(2, 0, "b"), event_at(2, 0, "c"), event_at(3, 0, "d")];
    insert_ascending(&mut sorted, event_at(2, 0, "new"));
    assert_eq!(tags(&sorted), vec!["a", "b", "c", "new", "d"]);
    insert_ascending(&mut sorted, event_at(0, 0, "first"));
    assert_eq!(tags(&sorted), vec!["first", "a", "b", "c", "new", "d"]);
    insert_ascending(&mut sorted, event_at(9, 0, "last"));
    assert_eq!(tags(&sorted), vec!["first", "a", "b", "c", "new", "d", "last"]);
}

#[test]
fn mixed_kinds_share_one_timeline() {
    let text = "<2024-01-01T00:00:06Z> <Vehicle Destruction> Vehicle 'V' [1] in zone 'Z' driven by 'Bob' [100] advanced from destroy level 1 to 2 caused by 'Alice' [200] with 'Combat'\n\
<2024-01-01T00:00:07Z> <Actor Death> CActor::Kill: 'Bob' [100] killed by 'Alice' [200]\n\
<2024-01-01T00:00:05Z> Player 'Bob': IsCorpseEnabled: No\n";
    let log = ingest(text);
    let kinds: Vec<EventTag> = log.events.iter().map(|e| e.kind.tag()).collect();
    assert_eq!(kinds, vec![EventTag::Kill, EventTag::VehicleDestruction, EventTag::CorpseStatus]);
}

#[test]
fn failure_messages() {
    assert_eq!(open_failure("/tmp/Game.log", "No such file"), "Failed to open /tmp/Game.log: No such file");
    assert_eq!(read_failure("Game.log", "broken pipe"), "Failed to read line from Game.log: broken pipe");
}
