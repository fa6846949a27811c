use sc_log_analyzer::event::{EventKind, EventTag, PlayerEvent};
use sc_log_analyzer::grammar::{
    compiled_for, context_from, corpse_from_captures, group_at, group_copy, group_text_or_empty,
    hit_from_captures, kill_from_captures, level_at, spawn_from_captures, stamp, stamped_from,
    status_from_captures, vehicle_from_captures, zone_from_captures, GrammarError, Grammars,
    Reading, CORPSE_PATTERN, HIT_PATTERN, KILL_PATTERN, SPAWN_PATTERN, STATUS_PATTERN,
    VEHICLE_PATTERN, ZONE_PATTERN,
};
use sc_log_analyzer::timestamp::Timestamp;

fn grammars() -> Grammars {
    match Grammars::new() {
        Ok(g) => g,
        Err(e) => panic!("pattern refused: {:?}", e),
    }
}

fn classify(line: &str) -> PlayerEvent {
    match grammars().parse_line(line) {
        Some(e) => e,
        None => panic!("line was not classified: {}", line),
    }
}

fn caps(groups: &[Option<&str>]) -> Vec<Option<String>> {
    groups.iter().map(|g| g.map(|s| s.to_string())).collect()
}

const KILL_LINE: &str = "<2024-01-01T00:00:00Z> [Notice] <Actor Death> CActor::Kill: 'Bob' [100] in zone 'Stanton' killed by 'Alice' [200] using 'Rifle' [RifleClass] with damage type 'Bullet'";
const SPAWN_LINE: &str = "<2024-01-01T00:00:01Z> [Notice] <Spawn Flow> CSCPlayerPUSpawningComponent::UnregisterFromExternalSystems: Player 'Bob' [100] lost reservation for spawnpoint Bed_Single-001 [5555] at location -12345";
const CORPSE_NO_LINE: &str = "<2024-01-01T00:00:02Z> [Notice] <Corpse> Player 'Bob' <remote client>: IsCorpseEnabled: No.";
const CORPSE_YES_LINE: &str = "<2024-01-01T00:00:02Z> [Notice] <Corpse> Player 'Bob' <remote client>: IsCorpseEnabled: Yes.";
const ZONE_LINE: &str = "<2024-01-01T00:00:03Z> [Notice] <ZoneTransfer> moving zone hosted child id = 42 name = \"Bob\" to unblock removal of parent id = 7 name = \"OldShip\" into zone host id = 9 name = \"Stanton\"";
const STATUS_LINE: &str = "<2024-01-01T00:00:04Z> Logged a start of a status effect! nickname: Bob, status effect: Bleeding ";
const HIT_LINE: &str = "<2024-01-01T00:00:05Z> [Notice] <Debug Hostility Events> [OnHandleHit] Fake hit FROM Alice TO Bob. Being sent to child PU_Channel-1";
const VEHICLE_LINE: &str = "<2024-01-01T00:00:06Z> [Notice] <Vehicle Destruction> CVehicle::OnAdvanceDestroyLevel: Vehicle 'AEGS_Gladius_1' [111] in zone 'Stanton' [pos x: 1] driven by 'Bob' [100] advanced from destroy level 0 to 1 caused by 'Alice' [200] with 'Combat'";

#[test]
fn all_patterns_compile() {
    assert!(Grammars::new().is_ok());
}

#[test]
fn kill_line_yields_all_fields() {
    let event = classify(KILL_LINE);
    assert_eq!(event.raw, KILL_LINE);
    assert_eq!(event.timestamp, Timestamp { secs: 1704067200, nanos: 0 });
    match &event.kind {
        EventKind::Kill(k) => {
            assert_eq!(k.killer_name, "Alice");
            assert_eq!(k.killer_id, "200");
            assert_eq!(k.victim_name, "Bob");
            assert_eq!(k.victim_id, "100");
            assert_eq!(k.weapon, "Rifle");
            assert_eq!(k.weapon_class, "RifleClass");
            assert_eq!(k.damage_type, "Bullet");
            assert_eq!(k.zone, "Stanton");
        }
        other => panic!("not a kill: {:?}", other),
    }
}

#[test]
fn kill_line_summary() {
    let event = classify(KILL_LINE);
    assert_eq!(
        event.summary_line(),
        "2024-01-01 00:00:00 | Kill | Alice → Bob with Rifle (RifleClass)"
    );
}

#[test]
fn kill_without_optional_fields_is_still_a_kill() {
    let line = "<2024-01-01T00:00:00Z> <Actor Death> CActor::Kill: 'Bob' [100] killed by 'Alice' [200]";
    let event = classify(line);
    match &event.kind {
        EventKind::Kill(k) => {
            assert_eq!(k.victim_name, "Bob");
            assert_eq!(k.victim_id, "100");
            assert_eq!(k.killer_name, "Alice");
            assert_eq!(k.killer_id, "200");
            assert_eq!(k.zone, "");
            assert_eq!(k.weapon, "");
            assert_eq!(k.weapon_class, "");
            assert_eq!(k.damage_type, "");
        }
        other => panic!("not a kill: {:?}", other),
    }
}

#[test]
fn kill_with_some_optional_fields() {
    let no_zone = classify("<2024-01-01T00:00:00Z> <Actor Death> CActor::Kill: \"Bob\" [100] killed by \"Alice\" [200] using 'Rifle' with damage type 'Bullet'");
    match &no_zone.kind {
        EventKind::Kill(k) => {
            assert_eq!(k.zone, "");
            assert_eq!(k.weapon, "Rifle");
            assert_eq!(k.weapon_class, "");
            assert_eq!(k.damage_type, "Bullet");
        }
        other => panic!("not a kill: {:?}", other),
    }
    let no_weapon = classify("<2024-01-01T00:00:00Z> <Actor Death> CActor::Kill: 'Bob' [100] in zone 'Stanton' killed by 'Alice' [200] with damage type 'Crash' trailing text");
    match &no_weapon.kind {
        EventKind::Kill(k) => {
            assert_eq!(k.zone, "Stanton");
            assert_eq!(k.weapon, "");
            assert_eq!(k.weapon_class, "");
            assert_eq!(k.damage_type, "Crash");
        }
        other => panic!("not a kill: {:?}", other),
    }
}

#[test]
fn kill_needs_names_and_ids() {
    let g = grammars();
    assert_eq!(g.parse_line("<2024-01-01T00:00:00Z> <Actor Death> CActor::Kill: 'Bob' killed by 'Alice' [200]"), None);
    assert_eq!(g.parse_line("<2024-01-01T00:00:00Z> <Actor Death> CActor::Kill: 'Bob' [100] killed by '' [200]"), None);
}

#[test]
fn line_with_bad_timestamp_is_skipped() {
    let g = grammars();
    let line = KILL_LINE.replace("2024-01-01T00:00:00Z", "2024-01-01 00:00:00");
    assert_eq!(g.parse_line(&line), None);
    assert_eq!(g.parse_actor_death(&line), None);
    let no_stamp = "[Notice] <Actor Death> CActor::Kill: 'Bob' [100] killed by 'Alice' [200]";
    assert_eq!(g.parse_line(no_stamp), None);
}

#[test]
fn unmatched_lines_give_nothing() {
    let g = grammars();
    assert_eq!(g.parse_line(""), None);
    assert_eq!(g.parse_line("<2024-01-01T00:00:00Z> nothing of interest"), None);
    assert_eq!(g.parse_line("<2024-01-01T00:00:00Z> nickname=\"Bob\""), None);
}

#[test]
fn spawn_line() {
    let event = classify(SPAWN_LINE);
    assert_eq!(event.timestamp, Timestamp { secs: 1704067201, nanos: 0 });
    match &event.kind {
        EventKind::SpawnReservation(s) => {
            assert_eq!(s.player_name, "Bob");
            assert_eq!(s.player_id, "100");
            assert_eq!(s.spawn_point, "Bed_Single-001");
            assert_eq!(s.spawn_id, "5555");
            assert_eq!(s.location, "-12345");
        }
        other => panic!("not a spawn: {:?}", other),
    }
    assert_eq!(grammars().parse_spawn_reservation(SPAWN_LINE), Some(event));
}

#[test]
fn corpse_disabled_is_an_event() {
    let event = classify(CORPSE_NO_LINE);
    match &event.kind {
        EventKind::CorpseStatus(c) => {
            assert_eq!(c.player_name, "Bob");
            assert_eq!(c.context, Some(String::from("remote client")));
            assert!(!c.corpse_enabled);
        }
        other => panic!("not a corpse status: {:?}", other),
    }
}

#[test]
fn corpse_enabled_is_dropped() {
    let g = grammars();
    assert_eq!(g.parse_line(CORPSE_YES_LINE), None);
    assert_eq!(g.parse_corpse_status(CORPSE_YES_LINE), None);
    assert_eq!(g.read_corpse_status(CORPSE_YES_LINE), Reading::Discarded);
    assert_eq!(g.read_corpse_status("<2024-01-01T00:00:02Z> no corpse here"), Reading::Unmatched);
    assert!(matches!(g.read_corpse_status(CORPSE_NO_LINE), Reading::Event(_)));
}

#[test]
fn corpse_flag_counts_in_any_case() {
    let g = grammars();
    let yes = CORPSE_YES_LINE.replace("Yes", "YES");
    assert_eq!(g.read_corpse_status(&yes), Reading::Discarded);
    let no = CORPSE_NO_LINE.replace("No.", "no");
    assert!(matches!(g.read_corpse_status(&no), Reading::Event(_)));
}

#[test]
fn corpse_without_context() {
    let event = classify("<2024-01-01T00:00:02Z> Player \"Bob\": IsCorpseEnabled: No");
    match &event.kind {
        EventKind::CorpseStatus(c) => {
            assert_eq!(c.player_name, "Bob");
            assert_eq!(c.context, None);
        }
        other => panic!("not a corpse status: {:?}", other),
    }
}

#[test]
fn dropped_corpse_line_is_not_passed_on() {
    let g = grammars();
    let line = "<2024-01-01T00:00:04Z> Player 'Bob': IsCorpseEnabled: Yes. Logged a start of a status effect! nickname: Bob, status effect: Bleeding";
    assert!(g.parse_status_effect(line).is_some());
    assert_eq!(g.read_corpse_status(line), Reading::Discarded);
    assert_eq!(g.parse_line(line), None);
}

#[test]
fn zone_line() {
    let event = classify(ZONE_LINE);
    match &event.kind {
        EventKind::ZoneTransfer(z) => {
            assert_eq!(z.player_name, "Bob");
            assert_eq!(z.child_id, Some(String::from("42")));
            assert_eq!(z.parent_id, Some(String::from("7")));
            assert_eq!(z.parent_name, Some(String::from("OldShip")));
            assert_eq!(z.host_id, Some(String::from("9")));
            assert_eq!(z.host_name, Some(String::from("Stanton")));
        }
        other => panic!("not a zone transfer: {:?}", other),
    }
}

#[test]
fn status_line() {
    let event = classify(STATUS_LINE);
    match &event.kind {
        EventKind::StatusEffect(s) => {
            assert_eq!(s.player_name, "Bob");
            assert_eq!(s.effect, "Bleeding");
            assert_eq!(s.stage, "start");
        }
        other => panic!("not a status effect: {:?}", other),
    }
    let end = classify("<2024-01-01T00:00:04Z> Logged an end of a status effect! nickname:  Bob , status effect: Stun, heavy");
    match &end.kind {
        EventKind::StatusEffect(s) => {
            assert_eq!(s.player_name, "Bob");
            assert_eq!(s.effect, "Stun, heavy");
            assert_eq!(s.stage, "end");
        }
        other => panic!("not a status effect: {:?}", other),
    }
}

#[test]
fn hit_line_target_stops_at_first_period() {
    let event = classify(HIT_LINE);
    match &event.kind {
        EventKind::Hit(h) => {
            assert_eq!(h.attacker, "Alice");
            assert_eq!(h.target, "Bob");
            assert_eq!(h.child, Some(String::from("PU_Channel-1")));
        }
        other => panic!("not a hit: {:?}", other),
    }
    let g = grammars();
    assert_eq!(
        g.parse_line("<2024-01-01T00:00:05Z> <Debug Hostility Events> Fake hit FROM Alice TO Mr. Bob. Being sent to child c1"),
        None
    );
}

#[test]
fn vehicle_line() {
    let event = classify(VEHICLE_LINE);
    match &event.kind {
        EventKind::VehicleDestruction(v) => {
            assert_eq!(v.vehicle_name, "AEGS_Gladius_1");
            assert_eq!(v.vehicle_id, "111");
            assert_eq!(v.zone, "Stanton");
            assert_eq!(v.driver_name, "Bob");
            assert_eq!(v.driver_id, "100");
            assert_eq!(v.from_level, 0);
            assert_eq!(v.to_level, 1);
            assert_eq!(v.attacker_name, "Alice");
            assert_eq!(v.attacker_id, "200");
            assert_eq!(v.cause, "Combat");
        }
        other => panic!("not a vehicle destruction: {:?}", other),
    }
}

#[test]
fn vehicle_line_without_driver() {
    let line = VEHICLE_LINE.replace("driven by 'Bob' [100]", "driven by '' []");
    let event = classify(&line);
    match &event.kind {
        EventKind::VehicleDestruction(v) => {
            assert_eq!(v.driver_name, "");
            assert_eq!(v.driver_id, "");
            assert_eq!(v.attacker_name, "Alice");
        }
        other => panic!("not a vehicle destruction: {:?}", other),
    }
}

#[test]
fn vehicle_level_that_is_no_u32_counts_as_zero() {
    let line = VEHICLE_LINE.replace("level 0 to 1", "level 99999999999 to 2");
    let event = classify(&line);
    match &event.kind {
        EventKind::VehicleDestruction(v) => {
            assert_eq!(v.from_level, 0);
            assert_eq!(v.to_level, 2);
        }
        other => panic!("not a vehicle destruction: {:?}", other),
    }
}

#[test]
fn earlier_grammar_wins() {
    let g = grammars();
    let line = format!("{} {}", KILL_LINE, &HIT_LINE[24..]);
    assert!(g.parse_hit_event(&line).is_some());
    match g.parse_line(&line) {
        Some(e) => assert_eq!(e.kind.tag(), EventTag::Kill),
        None => panic!("not classified"),
    }
    let spawn_and_status = format!("{} Logged a start of a status effect! nickname: Bob, status effect: Bleeding", SPAWN_LINE);
    assert!(g.parse_status_effect(&spawn_and_status).is_some());
    match g.parse_line(&spawn_and_status) {
        Some(e) => assert_eq!(e.kind.tag(), EventTag::SpawnReservation),
        None => panic!("not classified"),
    }
}

#[test]
fn each_grammar_reads_its_own_line_only() {
    let g = grammars();
    let lines = [KILL_LINE, SPAWN_LINE, CORPSE_NO_LINE, ZONE_LINE, STATUS_LINE, HIT_LINE, VEHICLE_LINE];
    let tags = [
        EventTag::Kill,
        EventTag::SpawnReservation,
        EventTag::CorpseStatus,
        EventTag::ZoneTransfer,
        EventTag::StatusEffect,
        EventTag::Hit,
        EventTag::VehicleDestruction,
    ];
    for (i, line) in lines.iter().enumerate() {
        assert_eq!(classify(line).kind.tag(), tags[i]);
        assert_eq!(g.parse_actor_death(line).is_some(), i == 0);
        assert_eq!(g.parse_spawn_reservation(line).is_some(), i == 1);
        assert_eq!(g.parse_corpse_status(line).is_some(), i == 2);
        assert_eq!(g.parse_zone_transfer(line).is_some(), i == 3);
        assert_eq!(g.parse_status_effect(line).is_some(), i == 4);
        assert_eq!(g.parse_hit_event(line).is_some(), i == 5);
        assert_eq!(g.parse_vehicle_destruction(line).is_some(), i == 6);
    }
}

#[test]
fn groups_by_index() {
    let c = caps(&[Some("whole"), Some("a"), None]);
    assert_eq!(group_at(&c, 1), Some(&String::from("a")));
    assert_eq!(group_at(&c, 2), None);
    assert_eq!(group_at(&c, 3), None);
    assert_eq!(group_text_or_empty(&c, 0), "whole");
    assert_eq!(group_text_or_empty(&c, 2), "");
    assert_eq!(group_text_or_empty(&c, 9), "");
    assert_eq!(group_copy(&c, 1), Some(String::from("a")));
    assert_eq!(group_copy(&c, 2), None);
    assert_eq!(level_at(&c, 1), 0);
    assert_eq!(level_at(&caps(&[None, Some("17")]), 1), 17);
    assert_eq!(level_at(&caps(&[None, Some("17")]), 5), 0);
}

#[test]
fn stamp_reads_the_first_group() {
    let c = caps(&[Some("x"), Some("2024-01-01T00:00:00Z")]);
    assert_eq!(stamp(&c), Some(Timestamp { secs: 1704067200, nanos: 0 }));
    assert_eq!(stamp(&caps(&[Some("x"), Some("soon")])), None);
    assert_eq!(stamp(&caps(&[Some("x"), None])), None);
    assert_eq!(stamp(&caps(&[Some("x")])), None);
    match stamped_from(Some(c.clone())) {
        Some(m) => {
            assert_eq!(m.caps, c);
            assert_eq!(m.at, Timestamp { secs: 1704067200, nanos: 0 });
        }
        None => panic!("no stamp"),
    }
    assert!(stamped_from(None).is_none());
    assert!(stamped_from(Some(caps(&[Some("x"), Some("soon")]))).is_none());
}

#[test]
fn kill_from_capture_list() {
    let at = Timestamp { secs: 1, nanos: 2 };
    let c = caps(&[Some("w"), Some("t"), Some("Bob"), Some("100"), None, Some("Alice"), Some("200"), None, None, None]);
    match kill_from_captures(&c, at, "the line") {
        Some(e) => {
            assert_eq!(e.timestamp, at);
            assert_eq!(e.raw, "the line");
            match e.kind {
                EventKind::Kill(k) => {
                    assert_eq!(k.victim_name, "Bob");
                    assert_eq!(k.killer_id, "200");
                    assert_eq!(k.zone, "");
                    assert_eq!(k.weapon, "");
                    assert_eq!(k.weapon_class, "");
                    assert_eq!(k.damage_type, "");
                }
                other => panic!("not a kill: {:?}", other),
            }
        }
        None => panic!("no kill"),
    }
    let no_killer = caps(&[Some("w"), Some("t"), Some("Bob"), Some("100"), None, None, Some("200")]);
    assert_eq!(kill_from_captures(&no_killer, at, "l"), None);
    assert_eq!(kill_from_captures(&caps(&[]), at, "l"), None);
}

#[test]
fn other_grammars_from_capture_lists() {
    let at = Timestamp { secs: 1, nanos: 2 };
    let spawn = caps(&[Some("w"), Some("t"), Some(" Bob "), Some("100"), Some(" Bed "), Some("5"), Some("-1")]);
    match spawn_from_captures(&spawn, at, "l") {
        Some(e) => match e.kind {
            EventKind::SpawnReservation(s) => {
                assert_eq!(s.player_name, "Bob");
                assert_eq!(s.spawn_point, "Bed");
                assert_eq!(s.location, "-1");
            }
            other => panic!("not a spawn: {:?}", other),
        },
        None => panic!("no spawn"),
    }
    assert_eq!(spawn_from_captures(&caps(&[Some("w"), Some("t"), Some("Bob")]), at, "l"), None);

    let corpse = caps(&[Some("w"), Some("t"), Some("Bob"), Some(" << ctx > "), Some("no")]);
    match corpse_from_captures(&corpse, at, "l") {
        Reading::Event(e) => match e.kind {
            EventKind::CorpseStatus(c) => {
                assert_eq!(c.context, Some(String::from("ctx")));
                assert!(!c.corpse_enabled);
            }
            other => panic!("not a corpse status: {:?}", other),
        },
        other => panic!("no event: {:?}", other),
    }
    let yes = caps(&[Some("w"), Some("t"), Some("Bob"), None, Some("yEs")]);
    assert_eq!(corpse_from_captures(&yes, at, "l"), Reading::Discarded);
    let no_flag = caps(&[Some("w"), Some("t"), Some("Bob"), None, None]);
    assert_eq!(corpse_from_captures(&no_flag, at, "l"), Reading::Unmatched);

    let zone = caps(&[Some("w"), Some("t"), Some("1"), Some(""), Some("2"), Some("p"), Some("3"), Some("h")]);
    assert_eq!(zone_from_captures(&zone, at, "l"), None);
    let zone_ok = caps(&[Some("w"), Some("t"), None, Some("Bob")]);
    match zone_from_captures(&zone_ok, at, "l") {
        Some(e) => match e.kind {
            EventKind::ZoneTransfer(z) => {
                assert_eq!(z.player_name, "Bob");
                assert_eq!(z.child_id, None);
                assert_eq!(z.host_name, None);
            }
            other => panic!("not a zone transfer: {:?}", other),
        },
        None => panic!("no zone transfer"),
    }

    let status = caps(&[Some("w"), Some("t"), Some("a"), None, Some(" Bob "), None]);
    match status_from_captures(&status, at, "l") {
        Some(e) => match e.kind {
            EventKind::StatusEffect(s) => {
                assert_eq!(s.player_name, "Bob");
                assert_eq!(s.effect, "");
                assert_eq!(s.stage, "start");
            }
            other => panic!("not a status effect: {:?}", other),
        },
        None => panic!("no status effect"),
    }
    let odd_stage = caps(&[Some("w"), Some("t"), Some("a"), Some(" PAUSE "), Some("Bob"), Some("x")]);
    match status_from_captures(&odd_stage, at, "l") {
        Some(e) => match e.kind {
            EventKind::StatusEffect(s) => assert_eq!(s.stage, "pause"),
            other => panic!("not a status effect: {:?}", other),
        },
        None => panic!("no status effect"),
    }

    let hit = caps(&[Some("w"), Some("t"), Some("Alice"), Some(" Bob "), Some("  ")]);
    match hit_from_captures(&hit, at, "l") {
        Some(e) => match e.kind {
            EventKind::Hit(h) => {
                assert_eq!(h.attacker, "Alice");
                assert_eq!(h.target, "Bob");
                assert_eq!(h.child, None);
            }
            other => panic!("not a hit: {:?}", other),
        },
        None => panic!("no hit"),
    }

    let vehicle = vehicle_from_captures(&caps(&[Some("w"), Some("t")]), at, "l");
    match vehicle.kind {
        EventKind::VehicleDestruction(v) => {
            assert_eq!(v.vehicle_name, "");
            assert_eq!(v.from_level, 0);
            assert_eq!(v.to_level, 0);
            assert_eq!(v.cause, "");
        }
        other => panic!("not a vehicle destruction: {:?}", other),
    }
}

#[test]
fn context_tag_is_stripped() {
    assert_eq!(context_from(Some(&String::from(" <remote client> "))), Some(String::from("remote client")));
    assert_eq!(context_from(Some(&String::from("<< a >>"))), Some(String::from("a")));
    assert_eq!(context_from(Some(&String::from("< >"))), None);
    assert_eq!(context_from(Some(&String::from(""))), None);
    assert_eq!(context_from(None), None);
}

#[test]
fn refused_pattern_names_its_grammar() {
    let refused = compiled_for(EventTag::Hit, regex::Regex::new("(unclosed"));
    match refused {
        Err(e) => assert_eq!(e, GrammarError { grammar: EventTag::Hit }),
        Ok(_) => panic!("pattern was accepted"),
    }
    match compiled_for(EventTag::Kill, regex::Regex::new(KILL_PATTERN)) {
        Ok(re) => assert_eq!(re.as_str(), KILL_PATTERN),
        Err(e) => panic!("pattern refused: {:?}", e),
    }
}

fn refused() -> Result<regex::Regex, regex::Error> {
    regex::Regex::new("(unclosed")
}

#[test]
fn assemble_succeeds_where_every_pattern_compiled() {
    let g = Grammars::assemble(
        regex::Regex::new(KILL_PATTERN),
        regex::Regex::new(SPAWN_PATTERN),
        regex::Regex::new(CORPSE_PATTERN),
        regex::Regex::new(ZONE_PATTERN),
        regex::Regex::new(STATUS_PATTERN),
        regex::Regex::new(HIT_PATTERN),
        regex::Regex::new(VEHICLE_PATTERN),
    );
    match g {
        Ok(g) => {
            assert_eq!(g.parse_line(KILL_LINE), grammars().parse_line(KILL_LINE));
            assert_eq!(g.parse_line(VEHICLE_LINE), grammars().parse_line(VEHICLE_LINE));
            assert!(g.parse_line(HIT_LINE).is_some());
        }
        Err(e) => panic!("pattern refused: {:?}", e),
    }
}

#[test]
fn assemble_fails_with_the_first_refused_grammar() {
    let one = Grammars::assemble(
        regex::Regex::new(KILL_PATTERN),
        refused(),
        regex::Regex::new(CORPSE_PATTERN),
        regex::Regex::new(ZONE_PATTERN),
        regex::Regex::new(STATUS_PATTERN),
        regex::Regex::new(HIT_PATTERN),
        regex::Regex::new(VEHICLE_PATTERN),
    );
    assert_eq!(one.err(), Some(GrammarError { grammar: EventTag::SpawnReservation }));
    let two = Grammars::assemble(
        regex::Regex::new(KILL_PATTERN),
        regex::Regex::new(SPAWN_PATTERN),
        refused(),
        regex::Regex::new(ZONE_PATTERN),
        regex::Regex::new(STATUS_PATTERN),
        refused(),
        regex::Regex::new(VEHICLE_PATTERN),
    );
    assert_eq!(two.err(), Some(GrammarError { grammar: EventTag::CorpseStatus }));
    let last = Grammars::assemble(
        regex::Regex::new(KILL_PATTERN),
        regex::Regex::new(SPAWN_PATTERN),
        regex::Regex::new(CORPSE_PATTERN),
        regex::Regex::new(ZONE_PATTERN),
        regex::Regex::new(STATUS_PATTERN),
        regex::Regex::new(HIT_PATTERN),
        refused(),
    );
    assert_eq!(last.err(), Some(GrammarError { grammar: EventTag::VehicleDestruction }));
    let all = Grammars::assemble(
        refused(),
        refused(),
        refused(),
        refused(),
        refused(),
        refused(),
        refused(),
    );
    assert_eq!(all.err(), Some(GrammarError { grammar: EventTag::Kill }));
}
