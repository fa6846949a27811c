use sc_log_analyzer::event::{
    CorpseStatusEvent, EventKind, HitEvent, KillEvent, PlayerEvent, SpawnReservationEvent,
    StatusEffectEvent, VehicleDestructionEvent, ZoneTransferEvent,
};
use sc_log_analyzer::render::{describe_destroy_levels, format_status_stage, push_name};
use sc_log_analyzer::timestamp::Timestamp;

fn s(text: &str) -> String {
    text.to_string()
}

fn event(kind: EventKind) -> PlayerEvent {
    PlayerEvent { timestamp: Timestamp { secs: 1704067200, nanos: 0 }, kind, raw: s("RAW Line") }
}

fn kill(weapon: &str, class: &str, damage: &str) -> PlayerEvent {
    event(EventKind::Kill(KillEvent {
        victim_name: s("Bob"),
        victim_id: s("100"),
        killer_name: s("Alice"),
        killer_id: s("200"),
        weapon: s(weapon),
        weapon_class: s(class),
        damage_type: s(damage),
        zone: s("Stanton"),
    }))
}

fn vehicle(from: u32, to: u32, zone: &str, driver: &str) -> PlayerEvent {
    event(EventKind::VehicleDestruction(VehicleDestructionEvent {
        vehicle_name: s("Gladius"),
        vehicle_id: s("111"),
        zone: s(zone),
        driver_name: s(driver),
        driver_id: s("100"),
        from_level: from,
        to_level: to,
        attacker_name: s("Alice"),
        attacker_id: s("200"),
        cause: s("Combat"),
    }))
}

fn zone(host: Option<&str>) -> PlayerEvent {
    event(EventKind::ZoneTransfer(ZoneTransferEvent {
        player_name: s("Bob"),
        child_id: Some(s("42")),
        parent_id: None,
        parent_name: Some(s("")),
        host_id: Some(s("9")),
        host_name: host.map(s),
    }))
}

#[test]
fn kill_summaries() {
    assert_eq!(kill("Rifle", "RifleClass", "Bullet").summary_line(), "2024-01-01 00:00:00 | Kill | Alice → Bob with Rifle (RifleClass)");
    assert_eq!(kill("Rifle", "", "Bullet").summary_line(), "2024-01-01 00:00:00 | Kill | Alice → Bob with Rifle");
    assert_eq!(kill("", "RifleClass", "").summary_line(), "2024-01-01 00:00:00 | Kill | Alice → Bob with unknown weapon");
}

#[test]
fn summaries_of_the_other_kinds() {
    let spawn = event(EventKind::SpawnReservation(SpawnReservationEvent {
        player_name: s("Bob"),
        player_id: s("100"),
        spawn_point: s("Bed"),
        spawn_id: s("5"),
        location: s("-1"),
    }));
    assert_eq!(spawn.summary_line(), "2024-01-01 00:00:00 | Spawn | Bob lost Bed");
    let corpse = event(EventKind::CorpseStatus(CorpseStatusEvent { player_name: s("Bob"), context: None, corpse_enabled: false }));
    assert_eq!(corpse.summary_line(), "2024-01-01 00:00:00 | Corpse | Bob corpse disabled");
    let enabled = event(EventKind::CorpseStatus(CorpseStatusEvent { player_name: s("Bob"), context: None, corpse_enabled: true }));
    assert_eq!(enabled.summary_line(), "2024-01-01 00:00:00 | Corpse | Bob corpse enabled");
    assert_eq!(zone(Some("Stanton")).summary_line(), "2024-01-01 00:00:00 | Zone | Bob → Stanton");
    assert_eq!(zone(Some("")).summary_line(), "2024-01-01 00:00:00 | Zone | Bob → unknown destination");
    assert_eq!(zone(None).summary_line(), "2024-01-01 00:00:00 | Zone | Bob → unknown destination");
    let status = event(EventKind::StatusEffect(StatusEffectEvent { player_name: s("Bob"), effect: s("Bleeding"), stage: s("end") }));
    assert_eq!(status.summary_line(), "2024-01-01 00:00:00 | Status | Bob ended Bleeding");
    let hit = event(EventKind::Hit(HitEvent { attacker: s("Alice"), target: s("Bob"), child: None }));
    assert_eq!(hit.summary_line(), "2024-01-01 00:00:00 | Hit | Alice → Bob");
    assert_eq!(vehicle(0, 1, "Z", "Bob").summary_line(), "2024-01-01 00:00:00 | Vehicle | Alice soft kill (Gladius)");
}

#[test]
fn summary_behind_a_given_clock_text() {
    assert_eq!(kill("", "", "").summary_line_at(s("noon")), "noon | Kill | Alice → Bob with unknown weapon");
    assert_eq!(kill("", "", "").summary_line_at(String::new()), " | Kill | Alice → Bob with unknown weapon");
}

#[test]
fn status_stage_wording() {
    assert_eq!(format_status_stage("start", "Bleeding"), "started Bleeding");
    assert_eq!(format_status_stage("START", "Bleeding"), "started Bleeding");
    assert_eq!(format_status_stage("End", "Bleeding"), "ended Bleeding");
    assert_eq!(format_status_stage("pause", "Bleeding"), "pause Bleeding");
    assert_eq!(format_status_stage("", ""), " ");
}

#[test]
fn destroy_level_names() {
    assert_eq!(describe_destroy_levels(0, 1), "soft kill");
    assert_eq!(describe_destroy_levels(1, 2), "hard kill");
    assert_eq!(describe_destroy_levels(0, 2), "destroyed");
    assert_eq!(describe_destroy_levels(2, 3), "destroyed");
    assert_eq!(describe_destroy_levels(1, 1), "changed");
    assert_eq!(describe_destroy_levels(2, 0), "changed");
    assert_eq!(describe_destroy_levels(0, 0), "changed");
    assert_eq!(describe_destroy_levels(u32::MAX, 0), "changed");
}

#[test]
fn kill_details() {
    assert_eq!(
        kill("Rifle", "RifleClass", "Bullet").detail_lines(),
        vec!["Victim: Bob [100] in Stanton", "Killer: Alice [200]", "Damage type: Bullet"]
    );
    assert_eq!(kill("Rifle", "", "").detail_lines(), vec!["Victim: Bob [100] in Stanton", "Killer: Alice [200]"]);
}

#[test]
fn details_of_the_other_kinds() {
    let spawn = event(EventKind::SpawnReservation(SpawnReservationEvent {
        player_name: s("Bob"),
        player_id: s("100"),
        spawn_point: s("Bed"),
        spawn_id: s("5"),
        location: s("-1"),
    }));
    assert_eq!(spawn.detail_lines(), vec!["Player: Bob [100]", "Spawn point: Bed", "Spawn ID: 5", "Location: -1"]);
    let corpse = event(EventKind::CorpseStatus(CorpseStatusEvent { player_name: s("Bob"), context: Some(s("ctx")), corpse_enabled: false }));
    assert_eq!(corpse.detail_lines(), vec!["Corpse state: Disabled", "Context: ctx"]);
    let bare = event(EventKind::CorpseStatus(CorpseStatusEvent { player_name: s("Bob"), context: Some(s("")), corpse_enabled: true }));
    assert_eq!(bare.detail_lines(), vec!["Corpse state: Enabled"]);
    assert_eq!(
        zone(Some("Stanton")).detail_lines(),
        vec!["Player: Bob", "Child ID: 42", "Zone host: Stanton", "Zone host ID: 9"]
    );
    let full = event(EventKind::ZoneTransfer(ZoneTransferEvent {
        player_name: s("Bob"),
        child_id: Some(s("42")),
        parent_id: Some(s("7")),
        parent_name: Some(s("OldShip")),
        host_id: Some(s("9")),
        host_name: Some(s("Stanton")),
    }));
    assert_eq!(
        full.detail_lines(),
        vec!["Player: Bob", "Child ID: 42", "Parent: OldShip", "Parent ID: 7", "Zone host: Stanton", "Zone host ID: 9"]
    );
    let status = event(EventKind::StatusEffect(StatusEffectEvent { player_name: s("Bob"), effect: s("Bleeding"), stage: s("START") }));
    assert_eq!(status.detail_lines(), vec!["Player: Bob", "Status effect: Bleeding", "Stage: Start"]);
    let odd = event(EventKind::StatusEffect(StatusEffectEvent { player_name: s("Bob"), effect: s("Bleeding"), stage: s("pause") }));
    assert_eq!(odd.detail_lines(), vec!["Player: Bob", "Status effect: Bleeding", "Stage: pause"]);
    let ended = event(EventKind::StatusEffect(StatusEffectEvent { player_name: s("Bob"), effect: s("Bleeding"), stage: s("end") }));
    assert_eq!(ended.detail_lines()[2], "Stage: End");
    let hit = event(EventKind::Hit(HitEvent { attacker: s("Alice"), target: s("Bob"), child: Some(s("c1")) }));
    assert_eq!(hit.detail_lines(), vec!["Attacker: Alice", "Target: Bob", "Child channel: c1"]);
    let plain = event(EventKind::Hit(HitEvent { attacker: s("Alice"), target: s("Bob"), child: None }));
    assert_eq!(plain.detail_lines(), vec!["Attacker: Alice", "Target: Bob"]);
}

#[test]
fn vehicle_details() {
    assert_eq!(
        vehicle(1, 2, "Stanton", "Bob").detail_lines(),
        vec![
            "Vehicle: Gladius [111]",
            "Destroy level: 1 → 2 (hard kill)",
            "Attacker: Alice [200] via Combat",
            "Zone: Stanton",
            "Driver: Bob [100]",
        ]
    );
    assert_eq!(
        vehicle(10, 4000000000, "", "").detail_lines(),
        vec!["Vehicle: Gladius [111]", "Destroy level: 10 → 4000000000 (destroyed)", "Attacker: Alice [200] via Combat"]
    );
}

#[test]
fn search_blob_is_lower_case_lines() {
    let blob = kill("Rifle", "RifleClass", "Bullet").search_blob();
    assert_eq!(
        blob,
        "2024-01-01 00:00:00 | kill | alice → bob with rifle (rifleclass)\nvictim: bob [100] in stanton\nkiller: alice [200]\ndamage type: bullet\nraw line"
    );
    let hit = event(EventKind::Hit(HitEvent { attacker: s("ÄLICE"), target: s("Bob"), child: None }));
    assert_eq!(hit.search_blob_at(s("T")), "t | hit | älice → bob\nattacker: älice\ntarget: bob\nraw line");
}

#[test]
fn participants_are_lower_case_names() {
    assert_eq!(kill("", "", "").participants(), vec!["alice", "bob"]);
    assert_eq!(vehicle(0, 1, "", "Bob").participants(), vec!["alice", "bob"]);
    assert_eq!(vehicle(0, 1, "", "").participants(), vec!["alice"]);
    let hit = event(EventKind::Hit(HitEvent { attacker: s("ÄLICE"), target: s("Bob"), child: None }));
    assert_eq!(hit.participants(), vec!["älice"]);
    assert_eq!(zone(None).participants(), vec!["bob"]);
}

#[test]
fn involved_players_are_named_once() {
    assert_eq!(kill("", "", "").involved_players(), vec!["Alice", "Bob"]);
    let suicide = event(EventKind::Kill(KillEvent {
        victim_name: s("bob "),
        victim_id: s("100"),
        killer_name: s(" Bob"),
        killer_id: s("100"),
        weapon: s(""),
        weapon_class: s(""),
        damage_type: s(""),
        zone: s(""),
    }));
    assert_eq!(suicide.involved_players(), vec!["Bob"]);
    let unknown = event(EventKind::Kill(KillEvent {
        victim_name: s("Bob"),
        victim_id: s("100"),
        killer_name: s("UNKNOWN"),
        killer_id: s("0"),
        weapon: s(""),
        weapon_class: s(""),
        damage_type: s(""),
        zone: s(""),
    }));
    assert_eq!(unknown.involved_players(), vec!["Bob"]);
    assert_eq!(vehicle(0, 1, "", "").involved_players(), vec!["Alice"]);
    assert_eq!(vehicle(0, 1, "", "Bob").involved_players(), vec!["Alice", "Bob"]);
    assert_eq!(vehicle(0, 1, "", "alice").involved_players(), vec!["Alice"]);
    let hit = event(EventKind::Hit(HitEvent { attacker: s("  "), target: s("Bob"), child: None }));
    assert_eq!(hit.involved_players().len(), 0);
}

#[test]
fn push_name_rules() {
    let mut names: Vec<String> = Vec::new();
    push_name(&mut names, " Bob ");
    push_name(&mut names, "BOB");
    push_name(&mut names, "");
    push_name(&mut names, "Unknown");
    push_name(&mut names, "Zoë");
    push_name(&mut names, "ZOË");
    push_name(&mut names, "zoË");
    assert_eq!(names, vec!["Bob", "Zoë", "ZOË"]);
}
