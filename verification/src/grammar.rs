//! The event grammars: one pattern and one extraction rule for each kind of
//! event, and the classifier that tries them in a fixed order.
//!
//! Matching is the regex crate's. What it captures is known here only by
//! name; the extraction rules are proved for every capture list.

use crate::event::{
    opt_event_view, opt_text, CorpseStatusEvent, CorpseStatusView, EventKind, EventTag, EventView,
    HitEvent, HitView, KillEvent, KillView, KindView, PlayerEvent, SpawnReservationEvent,
    SpawnReservationView, StatusEffectEvent, StatusEffectView, VehicleDestructionEvent,
    VehicleDestructionView, ZoneTransferEvent, ZoneTransferView,
};
use crate::text::{
    from_chars_range, lower_ascii, matches_ignore_case, parse_u32, parsed_u32,
    same_ignoring_ascii_case, strip_leading, strip_leading_bound, strip_trailing,
    strip_trailing_bound, to_ascii_lowercase, to_chars, trim, trim_bounds, trimmed,
};
use crate::timestamp::{parse_timestamp, rfc3339_instant, timestamp_of, Timestamp};
use vstd::prelude::*;
use vstd::string::*;

verus! {

/// A compiled pattern of the regex crate.
#[verifier::external_type_specification]
#[verifier::external_body]
pub struct ExRegex(regex::Regex);

/// Why the regex crate refused a pattern.
#[verifier::external_type_specification]
#[verifier::external_body]
pub struct ExRegexError(regex::Error);

/// The pattern text of a compiled pattern that `regex::Regex::new` made,
/// which `regex::Regex::as_str` gives back. `None` for a compiled pattern
/// that was made in another way, with options that `new` does not set.
pub uninterp spec fn pattern_of(re: regex::Regex) -> Option<Seq<char>>;

/// What `regex::Regex::captures` finds in a haystack for a pattern: `None`
/// where the pattern matches nowhere, else the text of each capture group of
/// the leftmost match, in the order of the groups' opening brackets, group 0
/// being the whole match and `None` standing for a group that took no part.
pub uninterp spec fn regex_captures(pattern: Seq<char>, haystack: Seq<char>) -> Option<
    Seq<Option<Seq<char>>>,
>;

/// Whether `regex::Regex::new` accepts a pattern text on a machine whose
/// addresses have the given number of bits. The regex crate refuses a
/// pattern that is ill-formed or whose compiled form is larger than its
/// limit; it counts that size in bytes of its own structures, which hold
/// addresses, so the answer is one for all machines of one address width.
pub uninterp spec fn regex_accepts(pattern: Seq<char>, address_bits: u32) -> bool;

/// `regex::Regex::new`: it succeeds on the patterns that `regex_accepts`
/// names for this machine, and a compiled pattern remembers its text.
pub assume_specification[ regex::Regex::new ](re: &str) -> (r: Result<regex::Regex, regex::Error>)
    ensures
        r is Ok <==> regex_accepts(re@, usize::BITS),
        r matches Ok(compiled) ==> pattern_of(compiled) == Some(re@),
;

/// The views of a capture list.
pub open spec fn group_texts(caps: Seq<Option<String>>) -> Seq<Option<Seq<char>>> {
    caps.map_values(|g: Option<String>| opt_text(g))
}

/// The view of an optional capture list.
pub open spec fn opt_group_texts(caps: Option<Vec<Option<String>>>) -> Option<
    Seq<Option<Seq<char>>>,
> {
    match caps {
        Some(v) => Some(group_texts(v@)),
        None => None,
    }
}

/// `regex::Regex::captures` on a compiled pattern that `regex::Regex::new`
/// made, each group of the match copied out as a string. The contract only
/// names the result.
#[verifier::external_body]
fn captures(re: &regex::Regex, haystack: &str) -> (r: Option<Vec<Option<String>>>)
    requires
        pattern_of(*re) is Some,
    ensures
        opt_group_texts(r) == regex_captures(pattern_of(*re)->0, haystack@),
{
    match re.captures(haystack) {
        Some(caps) => Some(caps.iter().map(|g| g.map(|m| m.as_str().to_string())).collect()),
        None => None,
    }
}

/// The text of capture group `i`, if the list has such a group and it took
/// part in the match.
pub open spec fn group(caps: Seq<Option<Seq<char>>>, i: int) -> Option<Seq<char>> {
    if 0 <= i < caps.len() {
        caps[i]
    } else {
        None
    }
}

/// The text of capture group `i`, empty where `group` has none.
pub open spec fn group_or_empty(caps: Seq<Option<Seq<char>>>, i: int) -> Seq<char> {
    match group(caps, i) {
        Some(t) => t,
        None => Seq::empty(),
    }
}

/// The text of capture group `i`.
pub fn group_at(caps: &Vec<Option<String>>, i: usize) -> (r: Option<&String>)
    ensures
        match r {
            Some(s) => group(group_texts(caps@), i as int) == Some(s@),
            None => group(group_texts(caps@), i as int) is None,
        },
{
    if i < caps.len() {
        caps[i].as_ref()
    } else {
        None
    }
}

/// A copy of the text of capture group `i`, empty where there is none.
pub fn group_text_or_empty(caps: &Vec<Option<String>>, i: usize) -> (r: String)
    ensures
        r@ == group_or_empty(group_texts(caps@), i as int),
{
    match group_at(caps, i) {
        Some(s) => s.clone(),
        None => String::new(),
    }
}

/// The pattern of a kill. Its groups, by number: 1 timestamp, 2 victim,
/// 3 victim's id, 4 zone, 5 killer, 6 killer's id, 7 weapon, 8 weapon class,
/// 9 damage type. Zone, weapon, weapon class and damage type may be absent.
pub const KILL_PATTERN: &'static str =
    r#"^<(?P<timestamp>[^>]+)>.*?<Actor Death> CActor::Kill: ["'](?P<victim>[^"']+)["']\s\[(?P<victim_id>[^\]]+)\](?: in zone ["'](?P<zone>[^"']+)["'])? killed by ["'](?P<killer>[^"']+)["']\s\[(?P<killer_id>[^\]]+)\](?: using ["'](?P<weapon>[^"']*)["'](?: \[(?P<weapon_class>[^\]]+)\])?)?(?:\s+with damage type ["'](?P<damage>[^"']+)["'])?.*"#;

/// The timestamp that a capture list carries in its first group.
pub open spec fn stamp_of(caps: Seq<Option<Seq<char>>>) -> Option<Timestamp> {
    match group(caps, 1) {
        Some(token) => timestamp_of(rfc3339_instant(token)),
        None => None,
    }
}

/// Reads the timestamp in the first group of a capture list.
pub fn stamp(caps: &Vec<Option<String>>) -> (r: Option<Timestamp>)
    ensures
        r == stamp_of(group_texts(caps@)),
{
    match group_at(caps, 1) {
        Some(token) => parse_timestamp(token.as_str()),
        None => None,
    }
}

/// The kill that a capture list of the kill grammar describes: victim and
/// killer with their ids are required, the rest is empty where it is absent.
pub open spec fn kill_event(caps: Seq<Option<Seq<char>>>, at: Timestamp, line: Seq<char>) -> Option<
    EventView,
> {
    if group(caps, 2) is Some && group(caps, 3) is Some && group(caps, 5) is Some && group(
        caps,
        6,
    ) is Some {
        Some(
            EventView {
                timestamp: at,
                kind: KindView::Kill(
                    KillView {
                        victim_name: group_or_empty(caps, 2),
                        victim_id: group_or_empty(caps, 3),
                        killer_name: group_or_empty(caps, 5),
                        killer_id: group_or_empty(caps, 6),
                        weapon: group_or_empty(caps, 7),
                        weapon_class: group_or_empty(caps, 8),
                        damage_type: group_or_empty(caps, 9),
                        zone: group_or_empty(caps, 4),
                    },
                ),
                raw: line,
            },
        )
    } else {
        None
    }
}

/// Builds the kill that a capture list of the kill grammar describes.
pub fn kill_from_captures(caps: &Vec<Option<String>>, at: Timestamp, line: &str) -> (r: Option<
    PlayerEvent,
>)
    ensures
        opt_event_view(r) == kill_event(group_texts(caps@), at, line@),
{
    if group_at(caps, 2).is_none() || group_at(caps, 3).is_none() || group_at(caps, 5).is_none()
        || group_at(caps, 6).is_none() {
        return None;
    }
    Some(
        PlayerEvent {
            timestamp: at,
            kind: EventKind::Kill(
                KillEvent {
                    victim_name: group_text_or_empty(caps, 2),
                    victim_id: group_text_or_empty(caps, 3),
                    killer_name: group_text_or_empty(caps, 5),
                    killer_id: group_text_or_empty(caps, 6),
                    weapon: group_text_or_empty(caps, 7),
                    weapon_class: group_text_or_empty(caps, 8),
                    damage_type: group_text_or_empty(caps, 9),
                    zone: group_text_or_empty(caps, 4),
                },
            ),
            raw: line.to_owned(),
        },
    )
}

/// The pattern of a lost spawn reservation. Its groups, by number:
/// 1 timestamp, 2 player, 3 player's id, 4 spawn point, 5 spawn id,
/// 6 location.
pub const SPAWN_PATTERN: &'static str =
    r#"^<(?P<timestamp>[^>]+)>.*?<Spawn Flow>.*?Player ["'](?P<player>[^"']+)["']\s\[(?P<player_id>[^\]]+)\] lost reservation for spawnpoint (?P<spawnpoint>[^\[]+)\s\[(?P<spawn_id>[^\]]+)\] at location (?P<location>[-\d]+)"#;

/// The pattern of a corpse status. Its groups, by number: 1 timestamp,
/// 2 player, 3 context in angle brackets, which may be absent, 4 the flag,
/// "Yes" or "No" in whatever case.
pub const CORPSE_PATTERN: &'static str =
    r#"^<(?P<timestamp>[^>]+)>.*?\bPlayer ["'](?P<player>[^"'<>]+)["']\s*(?P<context><[^>]+>)?:\s*IsCorpseEnabled:\s*(?P<enabled>(?i:Yes|No))\.?"#;

/// The pattern of a zone transfer. Its groups, by number: 1 timestamp,
/// 2 child id, 3 player, 4 parent id, 5 parent name, 6 host id, 7 host name.
pub const ZONE_PATTERN: &'static str =
    r#"^<(?P<timestamp>[^>]+)>.*?moving zone hosted child id = (?P<child_id>\d+)\s+name\s*=\s*"(?P<player>[^"]+)"\s+to unblock removal of parent id = (?P<parent_id>\d+)\s+name\s*=\s*"(?P<parent_name>[^"]+)"\s+into zone host id = (?P<host_id>\d+)\s+name\s*=\s*"(?P<host_name>[^"]+)""#;

/// The pattern of a status effect. Its groups, by number: 1 timestamp,
/// 2 article, 3 stage, 4 nickname, 5 effect.
pub const STATUS_PATTERN: &'static str =
    r#"^<(?P<timestamp>[^>]+)>.*?Logged (?P<article>a|an) (?P<stage>start|end) of a status effect!\s*nickname:\s*(?P<nickname>[^,]+),\s*status effect:\s*(?P<effect>.+)"#;

/// The pattern of a hit. Its groups, by number: 1 timestamp, 2 attacker,
/// 3 target, which ends at the first full stop, 4 routing channel.
pub const HIT_PATTERN: &'static str =
    r#"^<(?P<timestamp>[^>]+)>.*?<Debug Hostility Events>.*?Fake hit FROM (?P<attacker>[^\s]+) TO (?P<target>[^\.]+)\.\s*Being sent to child (?P<child>[\w_-]+)"#;

/// The pattern of a vehicle's destruction. Its groups, by number:
/// 1 timestamp, 2 vehicle, 3 vehicle's id, 4 zone, 5 driver, 6 driver's id,
/// 7 level before, 8 level after, 9 attacker, 10 attacker's id, 11 cause.
/// Driver and driver's id may be empty.
pub const VEHICLE_PATTERN: &'static str =
    r#"^<(?P<timestamp>[^>]+)>.*?<Vehicle Destruction>.*?Vehicle '(?P<vehicle>[^']+)'\s*\[(?P<vehicle_id>[^\]]+)\].*?zone '(?P<zone>[^']+)'.*?driven by '(?P<driver>[^']*)'\s*\[(?P<driver_id>[^\]]*)\].*?advanced from destroy level (?P<from>\d+) to (?P<to>\d+) caused by '(?P<attacker>[^']+)'\s*\[(?P<attacker_id>[^\]]+)\]\s*with '(?P<cause>[^']+)'"#;

/// The lost spawn reservation that a capture list of the spawn grammar
/// describes: the player and its id are required.
pub open spec fn spawn_event(caps: Seq<Option<Seq<char>>>, at: Timestamp, line: Seq<char>) -> Option<
    EventView,
> {
    if group(caps, 2) is Some && group(caps, 3) is Some {
        Some(
            EventView {
                timestamp: at,
                kind: KindView::SpawnReservation(
                    SpawnReservationView {
                        player_name: trimmed(group_or_empty(caps, 2)),
                        player_id: group_or_empty(caps, 3),
                        spawn_point: trimmed(group_or_empty(caps, 4)),
                        spawn_id: group_or_empty(caps, 5),
                        location: group_or_empty(caps, 6),
                    },
                ),
                raw: line,
            },
        )
    } else {
        None
    }
}

/// Builds the lost spawn reservation that a capture list describes.
pub fn spawn_from_captures(caps: &Vec<Option<String>>, at: Timestamp, line: &str) -> (r: Option<
    PlayerEvent,
>)
    ensures
        opt_event_view(r) == spawn_event(group_texts(caps@), at, line@),
{
    if group_at(caps, 2).is_none() || group_at(caps, 3).is_none() {
        return None;
    }
    Some(
        PlayerEvent {
            timestamp: at,
            kind: EventKind::SpawnReservation(
                SpawnReservationEvent {
                    player_name: trim(group_text_or_empty(caps, 2).as_str()),
                    player_id: group_text_or_empty(caps, 3),
                    spawn_point: trim(group_text_or_empty(caps, 4).as_str()),
                    spawn_id: group_text_or_empty(caps, 5),
                    location: group_text_or_empty(caps, 6),
                },
            ),
            raw: line.to_owned(),
        },
    )
}

/// What a grammar makes of a line when it may also recognise a line and
/// drop it.
#[derive(Debug, PartialEq, Eq)]
pub enum Reading {
    /// The grammar does not apply; later grammars may.
    Unmatched,
    /// The grammar applies and the line stands for no event; no later
    /// grammar is tried.
    Discarded,
    /// The grammar applies and the line stands for this event.
    Event(PlayerEvent),
}

/// A reading, its event as a view.
pub enum ReadingView {
    Unmatched,
    Discarded,
    Event(EventView),
}

impl View for Reading {
    type V = ReadingView;

    open spec fn view(&self) -> ReadingView {
        match *self {
            Reading::Unmatched => ReadingView::Unmatched,
            Reading::Discarded => ReadingView::Discarded,
            Reading::Event(e) => ReadingView::Event(e@),
        }
    }
}

impl ReadingView {
    /// The event of a reading, if it has one.
    pub open spec fn event(self) -> Option<EventView> {
        match self {
            ReadingView::Event(e) => Some(e),
            _ => None,
        }
    }
}

impl Reading {
    /// The event of a reading, if it has one.
    pub fn into_event(self) -> (r: Option<PlayerEvent>)
        ensures
            opt_event_view(r) == self@.event(),
    {
        match self {
            Reading::Event(e) => Some(e),
            _ => None,
        }
    }
}

/// The context tag of a corpse status: the captured text without white space
/// and angle brackets around it, or none where nothing is left.
pub open spec fn context_tag(captured: Option<Seq<char>>) -> Option<Seq<char>> {
    match captured {
        Some(text) => {
            let inner = trimmed(strip_trailing(strip_leading(trimmed(text), '<'), '>'));
            if inner.len() == 0 {
                None
            } else {
                Some(inner)
            }
        },
        None => None,
    }
}

/// Builds the context tag of a corpse status from the captured text.
pub fn context_from(captured: Option<&String>) -> (r: Option<String>)
    ensures
        opt_text(r) == context_tag(
            match captured {
                Some(s) => Some(s@),
                None => None,
            },
        ),
{
    match captured {
        Some(text) => {
            let v = to_chars(text.as_str());
            assert(v@.subrange(0, v@.len() as int) == v@);
            let (a, b) = trim_bounds(&v, 0, v.len());
            let a2 = strip_leading_bound(&v, a, b, '<');
            let b2 = strip_trailing_bound(&v, a2, b, '>');
            let (a3, b3) = trim_bounds(&v, a2, b2);
            if a3 == b3 {
                None
            } else {
                Some(from_chars_range(&v, a3, b3))
            }
        },
        None => None,
    }
}

/// What a capture list of the corpse grammar stands for: nothing where the
/// player or the flag is missing, a dropped line where the flag says yes,
/// else the switching off of the player's corpse.
pub open spec fn corpse_reading(caps: Seq<Option<Seq<char>>>, at: Timestamp, line: Seq<char>)
    -> ReadingView {
    if group(caps, 2) is Some && group(caps, 4) is Some {
        if same_ignoring_ascii_case(group_or_empty(caps, 4), "Yes"@) {
            ReadingView::Discarded
        } else {
            ReadingView::Event(
                EventView {
                    timestamp: at,
                    kind: KindView::CorpseStatus(
                        CorpseStatusView {
                            player_name: trimmed(group_or_empty(caps, 2)),
                            context: context_tag(group(caps, 3)),
                            corpse_enabled: false,
                        },
                    ),
                    raw: line,
                },
            )
        }
    } else {
        ReadingView::Unmatched
    }
}

/// Reads a capture list of the corpse grammar.
pub fn corpse_from_captures(caps: &Vec<Option<String>>, at: Timestamp, line: &str) -> (r: Reading)
    ensures
        r@ == corpse_reading(group_texts(caps@), at, line@),
{
    if group_at(caps, 2).is_none() {
        return Reading::Unmatched;
    }
    match group_at(caps, 4) {
        Some(enabled) => {
            if matches_ignore_case(enabled.as_str(), "Yes") {
                return Reading::Discarded;
            }
        },
        None => {
            return Reading::Unmatched;
        },
    }
    Reading::Event(
        PlayerEvent {
            timestamp: at,
            kind: EventKind::CorpseStatus(
                CorpseStatusEvent {
                    player_name: trim(group_text_or_empty(caps, 2).as_str()),
                    context: context_from(group_at(caps, 3)),
                    corpse_enabled: false,
                },
            ),
            raw: line.to_owned(),
        },
    )
}

/// The zone transfer that a capture list of the zone grammar describes: the
/// player's name is required and must not be empty.
pub open spec fn zone_event(caps: Seq<Option<Seq<char>>>, at: Timestamp, line: Seq<char>) -> Option<
    EventView,
> {
    if group(caps, 3) is Some && group_or_empty(caps, 3).len() > 0 {
        Some(
            EventView {
                timestamp: at,
                kind: KindView::ZoneTransfer(
                    ZoneTransferView {
                        player_name: group_or_empty(caps, 3),
                        child_id: group(caps, 2),
                        parent_id: group(caps, 4),
                        parent_name: group(caps, 5),
                        host_id: group(caps, 6),
                        host_name: group(caps, 7),
                    },
                ),
                raw: line,
            },
        )
    } else {
        None
    }
}

/// A copy of the text of capture group `i`, if there is one.
pub fn group_copy(caps: &Vec<Option<String>>, i: usize) -> (r: Option<String>)
    ensures
        opt_text(r) == group(group_texts(caps@), i as int),
{
    match group_at(caps, i) {
        Some(s) => Some(s.clone()),
        None => None,
    }
}

/// Builds the zone transfer that a capture list describes.
pub fn zone_from_captures(caps: &Vec<Option<String>>, at: Timestamp, line: &str) -> (r: Option<
    PlayerEvent,
>)
    ensures
        opt_event_view(r) == zone_event(group_texts(caps@), at, line@),
{
    match group_at(caps, 3) {
        Some(player) => {
            if player.as_str().is_empty() {
                return None;
            }
            Some(
                PlayerEvent {
                    timestamp: at,
                    kind: EventKind::ZoneTransfer(
                        ZoneTransferEvent {
                            player_name: player.clone(),
                            child_id: group_copy(caps, 2),
                            parent_id: group_copy(caps, 4),
                            parent_name: group_copy(caps, 5),
                            host_id: group_copy(caps, 6),
                            host_name: group_copy(caps, 7),
                        },
                    ),
                    raw: line.to_owned(),
                },
            )
        },
        None => None,
    }
}

/// The stage of a status effect: the captured word, trimmed and with small
/// ASCII letters, or "start" where none was captured.
pub open spec fn stage_of(captured: Option<Seq<char>>) -> Seq<char> {
    match captured {
        Some(word) => lower_ascii(trimmed(word)),
        None => "start"@,
    }
}

/// The status effect that a capture list of the status grammar describes:
/// the nickname is required.
pub open spec fn status_event(caps: Seq<Option<Seq<char>>>, at: Timestamp, line: Seq<char>)
    -> Option<EventView> {
    if group(caps, 4) is Some {
        Some(
            EventView {
                timestamp: at,
                kind: KindView::StatusEffect(
                    StatusEffectView {
                        player_name: trimmed(group_or_empty(caps, 4)),
                        effect: trimmed(group_or_empty(caps, 5)),
                        stage: stage_of(group(caps, 3)),
                    },
                ),
                raw: line,
            },
        )
    } else {
        None
    }
}

/// Builds the status effect that a capture list describes.
pub fn status_from_captures(caps: &Vec<Option<String>>, at: Timestamp, line: &str) -> (r: Option<
    PlayerEvent,
>)
    ensures
        opt_event_view(r) == status_event(group_texts(caps@), at, line@),
{
    if group_at(caps, 4).is_none() {
        return None;
    }
    let stage = match group_at(caps, 3) {
        Some(word) => to_ascii_lowercase(trim(word.as_str()).as_str()),
        None => "start".to_owned(),
    };
    Some(
        PlayerEvent {
            timestamp: at,
            kind: EventKind::StatusEffect(
                StatusEffectEvent {
                    player_name: trim(group_text_or_empty(caps, 4).as_str()),
                    effect: trim(group_text_or_empty(caps, 5).as_str()),
                    stage,
                },
            ),
            raw: line.to_owned(),
        },
    )
}

/// The routing channel of a hit: the captured text trimmed, or none where
/// nothing is left.
pub open spec fn channel_of(captured: Option<Seq<char>>) -> Option<Seq<char>> {
    match captured {
        Some(text) => if trimmed(text).len() == 0 {
            None
        } else {
            Some(trimmed(text))
        },
        None => None,
    }
}

/// The hit that a capture list of the hit grammar describes: attacker and
/// target are required.
pub open spec fn hit_event(caps: Seq<Option<Seq<char>>>, at: Timestamp, line: Seq<char>) -> Option<
    EventView,
> {
    if group(caps, 2) is Some && group(caps, 3) is Some {
        Some(
            EventView {
                timestamp: at,
                kind: KindView::Hit(
                    HitView {
                        attacker: group_or_empty(caps, 2),
                        target: trimmed(group_or_empty(caps, 3)),
                        child: channel_of(group(caps, 4)),
                    },
                ),
                raw: line,
            },
        )
    } else {
        None
    }
}

/// Builds the hit that a capture list describes.
pub fn hit_from_captures(caps: &Vec<Option<String>>, at: Timestamp, line: &str) -> (r: Option<
    PlayerEvent,
>)
    ensures
        opt_event_view(r) == hit_event(group_texts(caps@), at, line@),
{
    if group_at(caps, 2).is_none() || group_at(caps, 3).is_none() {
        return None;
    }
    let child = match group_at(caps, 4) {
        Some(text) => {
            let t = trim(text.as_str());
            if t.as_str().is_empty() {
                None
            } else {
                Some(t)
            }
        },
        None => None,
    };
    Some(
        PlayerEvent {
            timestamp: at,
            kind: EventKind::Hit(
                HitEvent {
                    attacker: group_text_or_empty(caps, 2),
                    target: trim(group_text_or_empty(caps, 3).as_str()),
                    child,
                },
            ),
            raw: line.to_owned(),
        },
    )
}

/// The destroy level that a captured text writes; zero where there is none
/// or it is no number that a `u32` holds.
pub open spec fn level_of(captured: Option<Seq<char>>) -> u32 {
    match captured {
        Some(text) => match parsed_u32(text) {
            Some(n) => n,
            None => 0,
        },
        None => 0,
    }
}

/// Reads a destroy level from capture group `i`.
pub fn level_at(caps: &Vec<Option<String>>, i: usize) -> (r: u32)
    ensures
        r == level_of(group(group_texts(caps@), i as int)),
{
    match group_at(caps, i) {
        Some(text) => match parse_u32(text.as_str()) {
            Some(n) => n,
            None => 0,
        },
        None => 0,
    }
}

/// The vehicle destruction that a capture list of the vehicle grammar
/// describes; every field is empty, or zero, where it is absent.
pub open spec fn vehicle_event(caps: Seq<Option<Seq<char>>>, at: Timestamp, line: Seq<char>)
    -> EventView {
    EventView {
        timestamp: at,
        kind: KindView::VehicleDestruction(
            VehicleDestructionView {
                vehicle_name: group_or_empty(caps, 2),
                vehicle_id: group_or_empty(caps, 3),
                zone: group_or_empty(caps, 4),
                driver_name: group_or_empty(caps, 5),
                driver_id: group_or_empty(caps, 6),
                from_level: level_of(group(caps, 7)),
                to_level: level_of(group(caps, 8)),
                attacker_name: group_or_empty(caps, 9),
                attacker_id: group_or_empty(caps, 10),
                cause: group_or_empty(caps, 11),
            },
        ),
        raw: line,
    }
}

/// Builds the vehicle destruction that a capture list describes.
pub fn vehicle_from_captures(caps: &Vec<Option<String>>, at: Timestamp, line: &str) -> (r:
    PlayerEvent)
    ensures
        r@ == vehicle_event(group_texts(caps@), at, line@),
{
    PlayerEvent {
        timestamp: at,
        kind: EventKind::VehicleDestruction(
            VehicleDestructionEvent {
                vehicle_name: group_text_or_empty(caps, 2),
                vehicle_id: group_text_or_empty(caps, 3),
                zone: group_text_or_empty(caps, 4),
                driver_name: group_text_or_empty(caps, 5),
                driver_id: group_text_or_empty(caps, 6),
                from_level: level_at(caps, 7),
                to_level: level_at(caps, 8),
                attacker_name: group_text_or_empty(caps, 9),
                attacker_id: group_text_or_empty(caps, 10),
                cause: group_text_or_empty(caps, 11),
            },
        ),
        raw: line.to_owned(),
    }
}

/// A capture list together with the timestamp in its first group.
pub struct Stamped {
    pub caps: Vec<Option<String>>,
    pub at: Timestamp,
}

/// What a pattern captures in a line, where it matches and the first group
/// is a timestamp: the capture list and that timestamp.
pub open spec fn stamped_captures(pattern: Seq<char>, line: Seq<char>) -> Option<
    (Seq<Option<Seq<char>>>, Timestamp),
> {
    match regex_captures(pattern, line) {
        Some(caps) => match stamp_of(caps) {
            Some(at) => Some((caps, at)),
            None => None,
        },
        None => None,
    }
}

/// The capture list and timestamp for what the pattern captured.
pub fn stamped_from(found: Option<Vec<Option<String>>>) -> (r: Option<Stamped>)
    ensures
        match r {
            Some(m) => opt_group_texts(found) matches Some(caps) && stamp_of(caps) == Some(m.at)
                && group_texts(m.caps@) == caps,
            None => opt_group_texts(found) matches Some(caps) ==> stamp_of(caps) is None,
        },
{
    match found {
        Some(caps) => match stamp(&caps) {
            Some(at) => Some(Stamped { caps, at }),
            None => None,
        },
        None => None,
    }
}

/// Matches a line against a compiled pattern and reads its timestamp.
fn match_line(re: &regex::Regex, line: &str) -> (r: Option<Stamped>)
    requires
        pattern_of(*re) is Some,
    ensures
        match r {
            Some(m) => stamped_captures(pattern_of(*re)->0, line@) == Some(
                (group_texts(m.caps@), m.at),
            ),
            None => stamped_captures(pattern_of(*re)->0, line@) is None,
        },
{
    stamped_from(captures(re, line))
}

/// What the kill grammar makes of a line.
pub open spec fn kill_reading(line: Seq<char>) -> Option<EventView> {
    match stamped_captures(KILL_PATTERN@, line) {
        Some(m) => kill_event(m.0, m.1, line),
        None => None,
    }
}

/// What the spawn grammar makes of a line.
pub open spec fn spawn_reading(line: Seq<char>) -> Option<EventView> {
    match stamped_captures(SPAWN_PATTERN@, line) {
        Some(m) => spawn_event(m.0, m.1, line),
        None => None,
    }
}

/// What the corpse grammar makes of a line.
pub open spec fn corpse_line_reading(line: Seq<char>) -> ReadingView {
    match stamped_captures(CORPSE_PATTERN@, line) {
        Some(m) => corpse_reading(m.0, m.1, line),
        None => ReadingView::Unmatched,
    }
}

/// What the zone grammar makes of a line.
pub open spec fn zone_reading(line: Seq<char>) -> Option<EventView> {
    match stamped_captures(ZONE_PATTERN@, line) {
        Some(m) => zone_event(m.0, m.1, line),
        None => None,
    }
}

/// What the status grammar makes of a line.
pub open spec fn status_reading(line: Seq<char>) -> Option<EventView> {
    match stamped_captures(STATUS_PATTERN@, line) {
        Some(m) => status_event(m.0, m.1, line),
        None => None,
    }
}

/// What the hit grammar makes of a line.
pub open spec fn hit_reading(line: Seq<char>) -> Option<EventView> {
    match stamped_captures(HIT_PATTERN@, line) {
        Some(m) => hit_event(m.0, m.1, line),
        None => None,
    }
}

/// What the vehicle grammar makes of a line.
pub open spec fn vehicle_reading(line: Seq<char>) -> Option<EventView> {
    match stamped_captures(VEHICLE_PATTERN@, line) {
        Some(m) => Some(vehicle_event(m.0, m.1, line)),
        None => None,
    }
}

/// The first of two readings that has an event.
pub open spec fn or_else(first: Option<EventView>, second: Option<EventView>) -> Option<
    EventView,
> {
    if first is Some {
        first
    } else {
        second
    }
}

/// What the grammars after the corpse grammar make of a line.
pub open spec fn late_reading(line: Seq<char>) -> Option<EventView> {
    or_else(
        zone_reading(line),
        or_else(status_reading(line), or_else(hit_reading(line), vehicle_reading(line))),
    )
}

/// The event that a line stands for: that of the first grammar, in the order
/// kill, spawn, corpse, zone, status, hit, vehicle, that has one. A line
/// that the corpse grammar drops stands for none.
pub open spec fn classified(line: Seq<char>) -> Option<EventView> {
    or_else(
        kill_reading(line),
        or_else(
            spawn_reading(line),
            match corpse_line_reading(line) {
                ReadingView::Event(e) => Some(e),
                ReadingView::Discarded => None,
                ReadingView::Unmatched => late_reading(line),
            },
        ),
    )
}

/// A line in the shape of a kill is read as a kill whatever it leaves out:
/// where the kill grammar matches with a timestamp and with victim and
/// killer and their ids, the line stands for a kill, and zone, weapon,
/// weapon class and damage type are empty where the line has none.
pub proof fn lemma_kill_survives_missing_fields(line: Seq<char>)
    requires
        stamped_captures(KILL_PATTERN@, line) matches Some(m) && group(m.0, 2) is Some && group(
            m.0,
            3,
        ) is Some && group(m.0, 5) is Some && group(m.0, 6) is Some,
    ensures
        classified(line) matches Some(e) && (e.kind matches KindView::Kill(k) && {
            let found = stamped_captures(KILL_PATTERN@, line)->0;
            let caps = found.0;
            &&& e.raw == line
            &&& e.timestamp == found.1
            &&& k.victim_name == group(caps, 2)->0
            &&& k.victim_id == group(caps, 3)->0
            &&& k.killer_name == group(caps, 5)->0
            &&& k.killer_id == group(caps, 6)->0
            &&& group(caps, 4) is None ==> k.zone == Seq::<char>::empty()
            &&& group(caps, 7) is None ==> k.weapon == Seq::<char>::empty()
            &&& group(caps, 8) is None ==> k.weapon_class == Seq::<char>::empty()
            &&& group(caps, 9) is None ==> k.damage_type == Seq::<char>::empty()
        }),
{
}

/// What the corpse grammar matches stands for an event exactly where the
/// flag does not say yes: with "Yes", in whatever case, the line is dropped.
pub proof fn lemma_corpse_flag_decides(caps: Seq<Option<Seq<char>>>, at: Timestamp, line: Seq<char>)
    requires
        group(caps, 2) is Some,
        group(caps, 4) is Some,
    ensures
        same_ignoring_ascii_case(group(caps, 4)->0, "Yes"@) ==> corpse_reading(caps, at, line)
            is Discarded,
        !same_ignoring_ascii_case(group(caps, 4)->0, "Yes"@) ==> corpse_reading(caps, at, line)
            is Event,
{
}

/// A line that the corpse grammar drops stands for no event, unless the
/// kill or the spawn grammar, which come first, read it.
pub proof fn lemma_dropped_line_gives_no_event(line: Seq<char>)
    requires
        corpse_line_reading(line) is Discarded,
        kill_reading(line) is None,
        spawn_reading(line) is None,
    ensures
        classified(line) is None,
{
}

/// A line that two grammars can read stands for the event of the one that
/// comes first in the order kill, spawn, corpse, zone, status, hit, vehicle.
pub proof fn lemma_first_grammar_wins(line: Seq<char>)
    ensures
        kill_reading(line) is Some ==> classified(line) == kill_reading(line),
        kill_reading(line) is None && spawn_reading(line) is Some ==> classified(line)
            == spawn_reading(line),
        kill_reading(line) is None && spawn_reading(line) is None && !(corpse_line_reading(line)
            is Unmatched) ==> classified(line) == corpse_line_reading(line).event(),
        kill_reading(line) is None && spawn_reading(line) is None && corpse_line_reading(line)
            is Unmatched ==> classified(line) == late_reading(line),
{
}

/// What holds of every event that a line stands for: a corpse status says
/// that the corpse is off, and a zone transfer names its player.
pub proof fn lemma_classified_event_is_sound(line: Seq<char>)
    ensures
        classified(line) matches Some(e) ==> (e.kind matches KindView::CorpseStatus(c)
            ==> !c.corpse_enabled),
        classified(line) matches Some(e) ==> (e.kind matches KindView::ZoneTransfer(z)
            ==> z.player_name.len() > 0),
{
}

/// An event carries the line that it was read from.
pub proof fn lemma_classified_keeps_line(line: Seq<char>)
    ensures
        classified(line) matches Some(e) ==> e.raw == line,
{
}

/// The grammar whose pattern the regex crate refused.
#[derive(Clone, Copy, Debug, PartialEq, Eq, Structural)]
pub struct GrammarError {
    pub grammar: EventTag,
}

/// The pattern of the grammar of a kind of event.
pub open spec fn pattern_for(tag: EventTag) -> Seq<char> {
    match tag {
        EventTag::Kill => KILL_PATTERN@,
        EventTag::SpawnReservation => SPAWN_PATTERN@,
        EventTag::CorpseStatus => CORPSE_PATTERN@,
        EventTag::ZoneTransfer => ZONE_PATTERN@,
        EventTag::StatusEffect => STATUS_PATTERN@,
        EventTag::Hit => HIT_PATTERN@,
        EventTag::VehicleDestruction => VEHICLE_PATTERN@,
    }
}

/// The first grammar, in the order in which the grammars are tried, whose
/// pattern was refused; each argument says whether the pattern of one
/// grammar was.
pub open spec fn first_refused(
    kill: bool,
    spawn: bool,
    corpse: bool,
    zone: bool,
    status: bool,
    hit: bool,
    vehicle: bool,
) -> Option<EventTag> {
    if kill {
        Some(EventTag::Kill)
    } else if spawn {
        Some(EventTag::SpawnReservation)
    } else if corpse {
        Some(EventTag::CorpseStatus)
    } else if zone {
        Some(EventTag::ZoneTransfer)
    } else if status {
        Some(EventTag::StatusEffect)
    } else if hit {
        Some(EventTag::Hit)
    } else if vehicle {
        Some(EventTag::VehicleDestruction)
    } else {
        None
    }
}

/// Whether the regex crate refuses the pattern of a grammar on this machine.
pub open spec fn refuses(tag: EventTag) -> bool {
    !regex_accepts(pattern_for(tag), usize::BITS)
}

/// The first grammar, in the order in which the grammars are tried, whose
/// pattern the regex crate refuses on this machine.
pub open spec fn first_refused_pattern() -> Option<EventTag> {
    first_refused(
        refuses(EventTag::Kill),
        refuses(EventTag::SpawnReservation),
        refuses(EventTag::CorpseStatus),
        refuses(EventTag::ZoneTransfer),
        refuses(EventTag::StatusEffect),
        refuses(EventTag::Hit),
        refuses(EventTag::VehicleDestruction),
    )
}

/// The outcome of compiling the pattern of one grammar.
pub fn compiled_for(tag: EventTag, outcome: Result<regex::Regex, regex::Error>) -> (r: Result<
    regex::Regex,
    GrammarError,
>)
    ensures
        match outcome {
            Ok(re) => r == Ok::<regex::Regex, GrammarError>(re),
            Err(_) => r == Err::<regex::Regex, GrammarError>(GrammarError { grammar: tag }),
        },
{
    match outcome {
        Ok(re) => Ok(re),
        Err(_) => Err(GrammarError { grammar: tag }),
    }
}

/// The seven grammars, compiled once and used for every line.
pub struct Grammars {
    kill: regex::Regex,
    spawn: regex::Regex,
    corpse: regex::Regex,
    zone: regex::Regex,
    status: regex::Regex,
    hit: regex::Regex,
    vehicle: regex::Regex,
}

impl Grammars {
    /// The compiled pattern of a grammar.
    pub closed spec fn compiled(self, tag: EventTag) -> regex::Regex {
        match tag {
            EventTag::Kill => self.kill,
            EventTag::SpawnReservation => self.spawn,
            EventTag::CorpseStatus => self.corpse,
            EventTag::ZoneTransfer => self.zone,
            EventTag::StatusEffect => self.status,
            EventTag::Hit => self.hit,
            EventTag::VehicleDestruction => self.vehicle,
        }
    }

    /// The pattern text that the compiled pattern of a grammar was made
    /// from.
    pub closed spec fn source(self, tag: EventTag) -> Option<Seq<char>> {
        pattern_of(self.compiled(tag))
    }

    /// Each compiled pattern was made from the pattern of its grammar.
    #[verifier::type_invariant]
    pub closed spec fn well_formed(self) -> bool {
        forall|tag: EventTag| #[trigger] self.source(tag) == Some(pattern_for(tag))
    }

    /// Puts the seven grammars together from what compiling their patterns
    /// gave. Succeeds where every pattern compiled, and then holds the seven
    /// compiled patterns as they were given; else fails with the first
    /// grammar, in the order in which the grammars are tried, whose pattern
    /// was refused.
    pub fn assemble(
        kill: Result<regex::Regex, regex::Error>,
        spawn: Result<regex::Regex, regex::Error>,
        corpse: Result<regex::Regex, regex::Error>,
        zone: Result<regex::Regex, regex::Error>,
        status: Result<regex::Regex, regex::Error>,
        hit: Result<regex::Regex, regex::Error>,
        vehicle: Result<regex::Regex, regex::Error>,
    ) -> (r: Result<Grammars, GrammarError>)
        requires
            kill matches Ok(c) ==> pattern_of(c) == Some(KILL_PATTERN@),
            spawn matches Ok(c) ==> pattern_of(c) == Some(SPAWN_PATTERN@),
            corpse matches Ok(c) ==> pattern_of(c) == Some(CORPSE_PATTERN@),
            zone matches Ok(c) ==> pattern_of(c) == Some(ZONE_PATTERN@),
            status matches Ok(c) ==> pattern_of(c) == Some(STATUS_PATTERN@),
            hit matches Ok(c) ==> pattern_of(c) == Some(HIT_PATTERN@),
            vehicle matches Ok(c) ==> pattern_of(c) == Some(VEHICLE_PATTERN@),
        ensures
            match r {
                Ok(g) => {
                    &&& first_refused(
                        kill is Err,
                        spawn is Err,
                        corpse is Err,
                        zone is Err,
                        status is Err,
                        hit is Err,
                        vehicle is Err,
                    ) is None
                    &&& g.compiled(EventTag::Kill) == kill->Ok_0
                    &&& g.compiled(EventTag::SpawnReservation) == spawn->Ok_0
                    &&& g.compiled(EventTag::CorpseStatus) == corpse->Ok_0
                    &&& g.compiled(EventTag::ZoneTransfer) == zone->Ok_0
                    &&& g.compiled(EventTag::StatusEffect) == status->Ok_0
                    &&& g.compiled(EventTag::Hit) == hit->Ok_0
                    &&& g.compiled(EventTag::VehicleDestruction) == vehicle->Ok_0
                    &&& forall|tag: EventTag| #[trigger] g.source(tag) == Some(pattern_for(tag))
                },
                Err(e) => first_refused(
                    kill is Err,
                    spawn is Err,
                    corpse is Err,
                    zone is Err,
                    status is Err,
                    hit is Err,
                    vehicle is Err,
                ) == Some(e.grammar),
            },
    {
        let kill = match compiled_for(EventTag::Kill, kill) {
            Ok(re) => re,
            Err(e) => {
                return Err(e);
            },
        };
        let spawn = match compiled_for(EventTag::SpawnReservation, spawn) {
            Ok(re) => re,
            Err(e) => {
                return Err(e);
            },
        };
        let corpse = match compiled_for(EventTag::CorpseStatus, corpse) {
            Ok(re) => re,
            Err(e) => {
                return Err(e);
            },
        };
        let zone = match compiled_for(EventTag::ZoneTransfer, zone) {
            Ok(re) => re,
            Err(e) => {
                return Err(e);
            },
        };
        let status = match compiled_for(EventTag::StatusEffect, status) {
            Ok(re) => re,
            Err(e) => {
                return Err(e);
            },
        };
        let hit = match compiled_for(EventTag::Hit, hit) {
            Ok(re) => re,
            Err(e) => {
                return Err(e);
            },
        };
        let vehicle = match compiled_for(EventTag::VehicleDestruction, vehicle) {
            Ok(re) => re,
            Err(e) => {
                return Err(e);
            },
        };
        let g = Grammars { kill, spawn, corpse, zone, status, hit, vehicle };
        assert forall|tag: EventTag| #[trigger] g.source(tag) == Some(pattern_for(tag)) by {
            match tag {
                EventTag::Kill => {},
                EventTag::SpawnReservation => {},
                EventTag::CorpseStatus => {},
                EventTag::ZoneTransfer => {},
                EventTag::StatusEffect => {},
                EventTag::Hit => {},
                EventTag::VehicleDestruction => {},
            }
        }
        Ok(g)
    }

    /// Compiles the seven patterns and puts the grammars together.
    /// Succeeds where the regex crate accepts every pattern; else fails with
    /// the first grammar, in the order in which the grammars are tried, whose
    /// pattern it refuses.
    pub fn new() -> (r: Result<Grammars, GrammarError>)
        ensures
            match r {
                Ok(g) => {
                    &&& first_refused_pattern() is None
                    &&& forall|tag: EventTag| #[trigger] g.source(tag) == Some(pattern_for(tag))
                },
                Err(e) => first_refused_pattern() == Some(e.grammar),
            },
    {
        Grammars::assemble(
            regex::Regex::new(KILL_PATTERN),
            regex::Regex::new(SPAWN_PATTERN),
            regex::Regex::new(CORPSE_PATTERN),
            regex::Regex::new(ZONE_PATTERN),
            regex::Regex::new(STATUS_PATTERN),
            regex::Regex::new(HIT_PATTERN),
            regex::Regex::new(VEHICLE_PATTERN),
        )
    }

    /// Reads a line as a kill.
    pub fn parse_actor_death(&self, line: &str) -> (r: Option<PlayerEvent>)
        ensures
            opt_event_view(r) == kill_reading(line@),
    {
        proof {
            use_type_invariant(self);
            assert(self.source(EventTag::Kill) == Some(pattern_for(EventTag::Kill)));
        }
        match match_line(&self.kill, line) {
            Some(m) => kill_from_captures(&m.caps, m.at, line),
            None => None,
        }
    }

    /// Reads a line as a lost spawn reservation.
    pub fn parse_spawn_reservation(&self, line: &str) -> (r: Option<PlayerEvent>)
        ensures
            opt_event_view(r) == spawn_reading(line@),
    {
        proof {
            use_type_invariant(self);
            assert(self.source(EventTag::SpawnReservation) == Some(pattern_for(EventTag::SpawnReservation)));
        }
        match match_line(&self.spawn, line) {
            Some(m) => spawn_from_captures(&m.caps, m.at, line),
            None => None,
        }
    }

    /// Reads a line as a corpse status, telling a line that the grammar
    /// does not match from one that it matches and drops.
    pub fn read_corpse_status(&self, line: &str) -> (r: Reading)
        ensures
            r@ == corpse_line_reading(line@),
    {
        proof {
            use_type_invariant(self);
            assert(self.source(EventTag::CorpseStatus) == Some(pattern_for(EventTag::CorpseStatus)));
        }
        match match_line(&self.corpse, line) {
            Some(m) => corpse_from_captures(&m.caps, m.at, line),
            None => Reading::Unmatched,
        }
    }

    /// Reads a line as the switching off of a corpse.
    pub fn parse_corpse_status(&self, line: &str) -> (r: Option<PlayerEvent>)
        ensures
            opt_event_view(r) == corpse_line_reading(line@).event(),
    {
        self.read_corpse_status(line).into_event()
    }

    /// Reads a line as a zone transfer.
    pub fn parse_zone_transfer(&self, line: &str) -> (r: Option<PlayerEvent>)
        ensures
            opt_event_view(r) == zone_reading(line@),
    {
        proof {
            use_type_invariant(self);
            assert(self.source(EventTag::ZoneTransfer) == Some(pattern_for(EventTag::ZoneTransfer)));
        }
        match match_line(&self.zone, line) {
            Some(m) => zone_from_captures(&m.caps, m.at, line),
            None => None,
        }
    }

    /// Reads a line as a status effect.
    pub fn parse_status_effect(&self, line: &str) -> (r: Option<PlayerEvent>)
        ensures
            opt_event_view(r) == status_reading(line@),
    {
        proof {
            use_type_invariant(self);
            assert(self.source(EventTag::StatusEffect) == Some(pattern_for(EventTag::StatusEffect)));
        }
        match match_line(&self.status, line) {
            Some(m) => status_from_captures(&m.caps, m.at, line),
            None => None,
        }
    }

    /// Reads a line as a hit.
    pub fn parse_hit_event(&self, line: &str) -> (r: Option<PlayerEvent>)
        ensures
            opt_event_view(r) == hit_reading(line@),
    {
        proof {
            use_type_invariant(self);
            assert(self.source(EventTag::Hit) == Some(pattern_for(EventTag::Hit)));
        }
        match match_line(&self.hit, line) {
            Some(m) => hit_from_captures(&m.caps, m.at, line),
            None => None,
        }
    }

    /// Reads a line as a vehicle destruction.
    pub fn parse_vehicle_destruction(&self, line: &str) -> (r: Option<PlayerEvent>)
        ensures
            opt_event_view(r) == vehicle_reading(line@),
    {
        proof {
            use_type_invariant(self);
            assert(self.source(EventTag::VehicleDestruction) == Some(pattern_for(EventTag::VehicleDestruction)));
        }
        match match_line(&self.vehicle, line) {
            Some(m) => Some(vehicle_from_captures(&m.caps, m.at, line)),
            None => None,
        }
    }

    /// Classifies a line: the event of the first grammar that has one.
    pub fn parse_line(&self, line: &str) -> (r: Option<PlayerEvent>)
        ensures
            opt_event_view(r) == classified(line@),
    {
        match self.parse_actor_death(line) {
            Some(e) => {
                return Some(e);
            },
            None => {},
        }
        match self.parse_spawn_reservation(line) {
            Some(e) => {
                return Some(e);
            },
            None => {},
        }
        match self.read_corpse_status(line) {
            Reading::Event(e) => {
                return Some(e);
            },
            Reading::Discarded => {
                return None;
            },
            Reading::Unmatched => {},
        }
        match self.parse_zone_transfer(line) {
            Some(e) => {
                return Some(e);
            },
            None => {},
        }
        match self.parse_status_effect(line) {
            Some(e) => {
                return Some(e);
            },
            None => {},
        }
        match self.parse_hit_event(line) {
            Some(e) => {
                return Some(e);
            },
            None => {},
        }
        self.parse_vehicle_destruction(line)
    }
}

} // verus!
