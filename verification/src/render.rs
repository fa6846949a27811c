//! What the presentation layer shows of an event: a one-line summary, detail
//! lines, the text that a search runs over, and the names involved.

use crate::event::{
    texts, EventKind, EventView, HitView, KillView, KindView, PlayerEvent, SpawnReservationView,
    StatusEffectView, VehicleDestructionView, ZoneTransferView, CorpseStatusView,
};
use crate::text::{
    decimal_digits, lowercased, matches_ignore_case, push_decimal, same_ignoring_ascii_case, trim,
    trimmed,
};
use vstd::prelude::*;
use vstd::string::*;

verus! {

/// How a status effect's stage reads before the effect's name.
pub open spec fn status_stage_text(stage: Seq<char>, effect: Seq<char>) -> Seq<char> {
    if same_ignoring_ascii_case(stage, "start"@) {
        "started "@ + effect
    } else if same_ignoring_ascii_case(stage, "end"@) {
        "ended "@ + effect
    } else {
        stage + " "@ + effect
    }
}

/// How a status effect's stage reads on its detail line.
pub open spec fn stage_label(stage: Seq<char>) -> Seq<char> {
    if same_ignoring_ascii_case(stage, "start"@) {
        "Start"@
    } else if same_ignoring_ascii_case(stage, "end"@) {
        "End"@
    } else {
        stage
    }
}

/// The name of a step from one destroy level to another.
pub open spec fn destroy_levels_text(from: u32, to: u32) -> Seq<char> {
    if from == 0 && to == 1 {
        "soft kill"@
    } else if from == 1 && to == 2 {
        "hard kill"@
    } else if to > from {
        "destroyed"@
    } else {
        "changed"@
    }
}

/// How the weapon of a kill reads in the summary.
pub open spec fn weapon_display(k: KillView) -> Seq<char> {
    if k.weapon.len() == 0 {
        "unknown weapon"@
    } else if k.weapon_class.len() == 0 {
        k.weapon
    } else {
        k.weapon + " ("@ + k.weapon_class + ")"@
    }
}

/// How the destination of a zone transfer reads in the summary.
pub open spec fn destination_display(z: ZoneTransferView) -> Seq<char> {
    match z.host_name {
        Some(name) => if name.len() > 0 {
            name
        } else {
            "unknown destination"@
        },
        None => "unknown destination"@,
    }
}

/// The summary of an event behind the given clock text.
pub open spec fn summary_text(ev: EventView, clock: Seq<char>) -> Seq<char> {
    match ev.kind {
        KindView::Kill(k) => clock + " | Kill | "@ + k.killer_name + " → "@ + k.victim_name
            + " with "@ + weapon_display(k),
        KindView::SpawnReservation(s) => clock + " | Spawn | "@ + s.player_name + " lost "@
            + s.spawn_point,
        KindView::CorpseStatus(c) => clock + " | Corpse | "@ + c.player_name + " corpse "@ + (
        if c.corpse_enabled {
            "enabled"@
        } else {
            "disabled"@
        }),
        KindView::ZoneTransfer(z) => clock + " | Zone | "@ + z.player_name + " → "@
            + destination_display(z),
        KindView::StatusEffect(s) => clock + " | Status | "@ + s.player_name + " "@
            + status_stage_text(s.stage, s.effect),
        KindView::Hit(h) => clock + " | Hit | "@ + h.attacker + " → "@ + h.target,
        KindView::VehicleDestruction(v) => clock + " | Vehicle | "@ + v.attacker_name + " "@
            + destroy_levels_text(v.from_level, v.to_level) + " ("@ + v.vehicle_name + ")"@,
    }
}

/// `lines` with `line` added where `cond` holds.
pub open spec fn with_line_if(lines: Seq<Seq<char>>, cond: bool, line: Seq<char>) -> Seq<
    Seq<char>,
> {
    if cond {
        lines.push(line)
    } else {
        lines
    }
}

/// Whether an optional text is there and not empty.
pub open spec fn present(o: Option<Seq<char>>) -> bool {
    o matches Some(t) && t.len() > 0
}

/// The text of an optional value, empty where there is none.
pub open spec fn text_or_empty(o: Option<Seq<char>>) -> Seq<char> {
    match o {
        Some(t) => t,
        None => Seq::empty(),
    }
}

/// The detail lines of a kill.
pub open spec fn kill_details(k: KillView) -> Seq<Seq<char>> {
    with_line_if(
        seq![
            "Victim: "@ + k.victim_name + " ["@ + k.victim_id + "] in "@ + k.zone,
            "Killer: "@ + k.killer_name + " ["@ + k.killer_id + "]"@,
        ],
        k.damage_type.len() > 0,
        "Damage type: "@ + k.damage_type,
    )
}

/// The detail lines of a lost spawn reservation.
pub open spec fn spawn_details(s: SpawnReservationView) -> Seq<Seq<char>> {
    seq![
        "Player: "@ + s.player_name + " ["@ + s.player_id + "]"@,
        "Spawn point: "@ + s.spawn_point,
        "Spawn ID: "@ + s.spawn_id,
        "Location: "@ + s.location,
    ]
}

/// The detail lines of a corpse status.
pub open spec fn corpse_details(c: CorpseStatusView) -> Seq<Seq<char>> {
    with_line_if(
        seq![
            "Corpse state: "@ + (if c.corpse_enabled {
                "Enabled"@
            } else {
                "Disabled"@
            }),
        ],
        present(c.context),
        "Context: "@ + text_or_empty(c.context),
    )
}

/// The detail lines of a zone transfer.
pub open spec fn zone_details(z: ZoneTransferView) -> Seq<Seq<char>> {
    let l0 = seq!["Player: "@ + z.player_name];
    let l1 = with_line_if(l0, z.child_id is Some, "Child ID: "@ + text_or_empty(z.child_id));
    let l2 = with_line_if(l1, present(z.parent_name), "Parent: "@ + text_or_empty(z.parent_name));
    let l3 = with_line_if(l2, z.parent_id is Some, "Parent ID: "@ + text_or_empty(z.parent_id));
    let l4 = with_line_if(l3, present(z.host_name), "Zone host: "@ + text_or_empty(z.host_name));
    with_line_if(l4, z.host_id is Some, "Zone host ID: "@ + text_or_empty(z.host_id))
}

/// The detail lines of a status effect.
pub open spec fn status_details(s: StatusEffectView) -> Seq<Seq<char>> {
    seq![
        "Player: "@ + s.player_name,
        "Status effect: "@ + s.effect,
        "Stage: "@ + stage_label(s.stage),
    ]
}

/// The detail lines of a hit.
pub open spec fn hit_details(h: HitView) -> Seq<Seq<char>> {
    with_line_if(
        seq!["Attacker: "@ + h.attacker, "Target: "@ + h.target],
        h.child is Some,
        "Child channel: "@ + text_or_empty(h.child),
    )
}

/// The detail lines of a vehicle's destruction.
pub open spec fn vehicle_details(v: VehicleDestructionView) -> Seq<Seq<char>> {
    let l0 = seq![
        "Vehicle: "@ + v.vehicle_name + " ["@ + v.vehicle_id + "]"@,
        "Destroy level: "@ + decimal_digits(v.from_level as nat) + " → "@ + decimal_digits(
            v.to_level as nat,
        ) + " ("@ + destroy_levels_text(v.from_level, v.to_level) + ")"@,
        "Attacker: "@ + v.attacker_name + " ["@ + v.attacker_id + "] via "@ + v.cause,
    ];
    let l1 = with_line_if(l0, v.zone.len() > 0, "Zone: "@ + v.zone);
    with_line_if(
        l1,
        v.driver_name.len() > 0,
        "Driver: "@ + v.driver_name + " ["@ + v.driver_id + "]"@,
    )
}

/// The detail lines of an event, in the order shown.
pub open spec fn detail_texts(ev: EventView) -> Seq<Seq<char>> {
    match ev.kind {
        KindView::Kill(k) => kill_details(k),
        KindView::SpawnReservation(s) => spawn_details(s),
        KindView::CorpseStatus(c) => corpse_details(c),
        KindView::ZoneTransfer(z) => zone_details(z),
        KindView::StatusEffect(s) => status_details(s),
        KindView::Hit(h) => hit_details(h),
        KindView::VehicleDestruction(v) => vehicle_details(v),
    }
}

/// `acc`, then each line on a line of its own, in lower case.
pub open spec fn lowered_lines(acc: Seq<char>, lines: Seq<Seq<char>>) -> Seq<char>
    decreases lines.len(),
{
    if lines.len() == 0 {
        acc
    } else {
        lowered_lines(acc, lines.drop_last()).push('\n') + lowercased(lines.last())
    }
}

/// The text that a search runs over: summary, detail lines and the log line,
/// each in lower case and on a line of its own.
pub open spec fn search_blob_text(ev: EventView, clock: Seq<char>) -> Seq<char> {
    lowered_lines(lowercased(summary_text(ev, clock)), detail_texts(ev)).push('\n') + lowercased(
        ev.raw,
    )
}

/// The names that take part in an event, in lower case.
pub open spec fn participant_texts(ev: EventView) -> Seq<Seq<char>> {
    match ev.kind {
        KindView::Kill(k) => seq![lowercased(k.killer_name), lowercased(k.victim_name)],
        KindView::SpawnReservation(s) => seq![lowercased(s.player_name)],
        KindView::CorpseStatus(c) => seq![lowercased(c.player_name)],
        KindView::ZoneTransfer(z) => seq![lowercased(z.player_name)],
        KindView::StatusEffect(s) => seq![lowercased(s.player_name)],
        KindView::Hit(h) => seq![lowercased(h.attacker)],
        KindView::VehicleDestruction(v) => with_line_if(
            seq![lowercased(v.attacker_name)],
            v.driver_name.len() > 0,
            lowercased(v.driver_name),
        ),
    }
}

/// Whether one of `names` equals `name` but for the case of ASCII letters.
pub open spec fn names_hold(names: Seq<Seq<char>>, name: Seq<char>) -> bool {
    exists|i: int| 0 <= i < names.len() && same_ignoring_ascii_case(#[trigger] names[i], name)
}

/// `names` with the trimmed `name` added, unless that is empty, is the word
/// "unknown", or is there already; the case of ASCII letters does not count.
pub open spec fn with_name(names: Seq<Seq<char>>, name: Seq<char>) -> Seq<Seq<char>> {
    let t = trimmed(name);
    if t.len() == 0 || same_ignoring_ascii_case(t, "unknown"@) || names_hold(names, t) {
        names
    } else {
        names.push(t)
    }
}

/// The display names involved in an event: each once, in order.
pub open spec fn involved_texts(ev: EventView) -> Seq<Seq<char>> {
    let none = Seq::<Seq<char>>::empty();
    match ev.kind {
        KindView::Kill(k) => with_name(with_name(none, k.killer_name), k.victim_name),
        KindView::SpawnReservation(s) => with_name(none, s.player_name),
        KindView::CorpseStatus(c) => with_name(none, c.player_name),
        KindView::ZoneTransfer(z) => with_name(none, z.player_name),
        KindView::StatusEffect(s) => with_name(none, s.player_name),
        KindView::Hit(h) => with_name(none, h.attacker),
        KindView::VehicleDestruction(v) => with_name(
            with_name(none, v.attacker_name),
            v.driver_name,
        ),
    }
}

/// How a status effect's stage reads before the effect's name.
pub fn format_status_stage(stage: &str, effect: &str) -> (r: String)
    ensures
        r@ == status_stage_text(stage@, effect@),
{
    let mut out = if matches_ignore_case(stage, "start") {
        "started ".to_owned()
    } else if matches_ignore_case(stage, "end") {
        "ended ".to_owned()
    } else {
        let mut s = stage.to_owned();
        s.append(" ");
        s
    };
    out.append(effect);
    out
}

/// The name of a step from one destroy level to another.
pub fn describe_destroy_levels(from: u32, to: u32) -> (r: &'static str)
    ensures
        r@ == destroy_levels_text(from, to),
{
    if from == 0 && to == 1 {
        "soft kill"
    } else if from == 1 && to == 2 {
        "hard kill"
    } else if to > from {
        "destroyed"
    } else {
        "changed"
    }
}

/// `label`, then `value`.
fn labelled(label: &str, value: &str) -> (r: String)
    ensures
        r@ == label@ + value@,
{
    let mut out = label.to_owned();
    out.append(value);
    out
}

/// `label`, then `name`, then ` [`, `id` and `]`.
fn labelled_with_id(label: &str, name: &str, id: &str) -> (r: String)
    ensures
        r@ == label@ + name@ + " ["@ + id@ + "]"@,
{
    let mut out = label.to_owned();
    out.append(name);
    out.append(" [");
    out.append(id);
    out.append("]");
    out
}

/// Adds the trimmed `name` to `names` unless it is empty, "unknown", or
/// there already.
pub fn push_name(names: &mut Vec<String>, name: &str)
    ensures
        texts(final(names)@) == with_name(texts(old(names)@), name@),
{
    let t = trim(name);
    if t.as_str().is_empty() {
        return ;
    }
    if matches_ignore_case(t.as_str(), "unknown") {
        return ;
    }
    let mut i: usize = 0;
    while i < names.len()
        invariant
            i <= names.len(),
            names == old(names),
            t@ == trimmed(name@),
            forall|j: int| 0 <= j < i ==> !same_ignoring_ascii_case(texts(names@)[j], t@),
        decreases names.len() - i,
    {
        if matches_ignore_case(names[i].as_str(), t.as_str()) {
            assert(same_ignoring_ascii_case(texts(names@)[i as int], t@));
            return ;
        }
        i += 1;
    }
    names.push(t);
    assert(texts(names@) =~= texts(old(names)@).push(t@));
}

impl PlayerEvent {
    /// The summary of this event behind the given clock text.
    pub fn summary_line_at(&self, clock: String) -> (r: String)
        ensures
            r@ == summary_text(self@, clock@),
    {
        let mut out = clock;
        match &self.kind {
            EventKind::Kill(event) => {
                let weapon_display = if event.weapon.as_str().is_empty() {
                    "unknown weapon".to_owned()
                } else if event.weapon_class.as_str().is_empty() {
                    event.weapon.clone()
                } else {
                    let mut w = event.weapon.clone();
                    w.append(" (");
                    w.append(event.weapon_class.as_str());
                    w.append(")");
                    w
                };
                out.append(" | Kill | ");
                out.append(event.killer_name.as_str());
                out.append(" → ");
                out.append(event.victim_name.as_str());
                out.append(" with ");
                out.append(weapon_display.as_str());
            },
            EventKind::SpawnReservation(event) => {
                out.append(" | Spawn | ");
                out.append(event.player_name.as_str());
                out.append(" lost ");
                out.append(event.spawn_point.as_str());
            },
            EventKind::CorpseStatus(event) => {
                out.append(" | Corpse | ");
                out.append(event.player_name.as_str());
                out.append(" corpse ");
                out.append(
                    if event.corpse_enabled {
                        "enabled"
                    } else {
                        "disabled"
                    },
                );
            },
            EventKind::ZoneTransfer(event) => {
                out.append(" | Zone | ");
                out.append(event.player_name.as_str());
                out.append(" → ");
                match &event.host_name {
                    Some(name) => {
                        if name.as_str().is_empty() {
                            out.append("unknown destination");
                        } else {
                            out.append(name.as_str());
                        }
                    },
                    None => {
                        out.append("unknown destination");
                    },
                }
            },
            EventKind::StatusEffect(event) => {
                let staged = format_status_stage(event.stage.as_str(), event.effect.as_str());
                out.append(" | Status | ");
                out.append(event.player_name.as_str());
                out.append(" ");
                out.append(staged.as_str());
            },
            EventKind::Hit(event) => {
                out.append(" | Hit | ");
                out.append(event.attacker.as_str());
                out.append(" → ");
                out.append(event.target.as_str());
            },
            EventKind::VehicleDestruction(event) => {
                out.append(" | Vehicle | ");
                out.append(event.attacker_name.as_str());
                out.append(" ");
                out.append(describe_destroy_levels(event.from_level, event.to_level));
                out.append(" (");
                out.append(event.vehicle_name.as_str());
                out.append(")");
            },
        }
        out
    }

    /// The one-line summary: clock text, kind, and who did what.
    pub fn summary_line(&self) -> (r: String)
        ensures
            r@ == summary_text(self@, self.timestamp.clock()),
    {
        self.summary_line_at(self.timestamp.clock_text())
    }

    /// The detail lines, in the order shown.
    pub fn detail_lines(&self) -> (r: Vec<String>)
        ensures
            texts(r@) == detail_texts(self@),
    {
        let mut lines: Vec<String> = Vec::new();
        match &self.kind {
            EventKind::Kill(event) => {
                let mut victim = labelled_with_id(
                    "Victim: ",
                    event.victim_name.as_str(),
                    event.victim_id.as_str(),
                );
                victim.append(" in ");
                victim.append(event.zone.as_str());
                lines.push(victim);
                lines.push(
                    labelled_with_id(
                        "Killer: ",
                        event.killer_name.as_str(),
                        event.killer_id.as_str(),
                    ),
                );
                if !event.damage_type.as_str().is_empty() {
                    lines.push(labelled("Damage type: ", event.damage_type.as_str()));
                }
                proof {
                    reveal_strlit("] in ");
                    reveal_strlit("]");
                    reveal_strlit(" in ");
                    assert("]"@ + " in "@ =~= "] in "@);
                    let k = event@;
                    assert(victim@ =~= "Victim: "@ + k.victim_name + " ["@ + k.victim_id
                        + "] in "@ + k.zone);
                }
            },
            EventKind::SpawnReservation(event) => {
                lines.push(
                    labelled_with_id(
                        "Player: ",
                        event.player_name.as_str(),
                        event.player_id.as_str(),
                    ),
                );
                lines.push(labelled("Spawn point: ", event.spawn_point.as_str()));
                lines.push(labelled("Spawn ID: ", event.spawn_id.as_str()));
                lines.push(labelled("Location: ", event.location.as_str()));
            },
            EventKind::CorpseStatus(event) => {
                lines.push(
                    labelled(
                        "Corpse state: ",
                        if event.corpse_enabled {
                            "Enabled"
                        } else {
                            "Disabled"
                        },
                    ),
                );
                match &event.context {
                    Some(context) => {
                        if !context.as_str().is_empty() {
                            lines.push(labelled("Context: ", context.as_str()));
                        }
                    },
                    None => {},
                }
            },
            EventKind::ZoneTransfer(event) => {
                lines.push(labelled("Player: ", event.player_name.as_str()));
                match &event.child_id {
                    Some(child_id) => {
                        lines.push(labelled("Child ID: ", child_id.as_str()));
                    },
                    None => {},
                }
                match &event.parent_name {
                    Some(parent_name) => {
                        if !parent_name.as_str().is_empty() {
                            lines.push(labelled("Parent: ", parent_name.as_str()));
                        }
                    },
                    None => {},
                }
                match &event.parent_id {
                    Some(parent_id) => {
                        lines.push(labelled("Parent ID: ", parent_id.as_str()));
                    },
                    None => {},
                }
                match &event.host_name {
                    Some(host_name) => {
                        if !host_name.as_str().is_empty() {
                            lines.push(labelled("Zone host: ", host_name.as_str()));
                        }
                    },
                    None => {},
                }
                match &event.host_id {
                    Some(host_id) => {
                        lines.push(labelled("Zone host ID: ", host_id.as_str()));
                    },
                    None => {},
                }
            },
            EventKind::StatusEffect(event) => {
                lines.push(labelled("Player: ", event.player_name.as_str()));
                lines.push(labelled("Status effect: ", event.effect.as_str()));
                let stage = if matches_ignore_case(event.stage.as_str(), "start") {
                    "Start".to_owned()
                } else if matches_ignore_case(event.stage.as_str(), "end") {
                    "End".to_owned()
                } else {
                    event.stage.clone()
                };
                lines.push(labelled("Stage: ", stage.as_str()));
            },
            EventKind::Hit(event) => {
                lines.push(labelled("Attacker: ", event.attacker.as_str()));
                lines.push(labelled("Target: ", event.target.as_str()));
                match &event.child {
                    Some(child) => {
                        lines.push(labelled("Child channel: ", child.as_str()));
                    },
                    None => {},
                }
            },
            EventKind::VehicleDestruction(event) => {
                lines.push(
                    labelled_with_id(
                        "Vehicle: ",
                        event.vehicle_name.as_str(),
                        event.vehicle_id.as_str(),
                    ),
                );
                let mut level = "Destroy level: ".to_owned();
                push_decimal(&mut level, event.from_level);
                level.append(" → ");
                push_decimal(&mut level, event.to_level);
                level.append(" (");
                level.append(describe_destroy_levels(event.from_level, event.to_level));
                level.append(")");
                lines.push(level);
                let mut attacker = labelled_with_id(
                    "Attacker: ",
                    event.attacker_name.as_str(),
                    event.attacker_id.as_str(),
                );
                attacker.append(" via ");
                attacker.append(event.cause.as_str());
                proof {
                    reveal_strlit("] via ");
                    reveal_strlit("]");
                    reveal_strlit(" via ");
                    assert("]"@ + " via "@ =~= "] via "@);
                    let v = event@;
                    assert(attacker@ =~= "Attacker: "@ + v.attacker_name + " ["@ + v.attacker_id
                        + "] via "@ + v.cause);
                }
                lines.push(attacker);
                if !event.zone.as_str().is_empty() {
                    lines.push(labelled("Zone: ", event.zone.as_str()));
                }
                if !event.driver_name.as_str().is_empty() {
                    lines.push(
                        labelled_with_id(
                            "Driver: ",
                            event.driver_name.as_str(),
                            event.driver_id.as_str(),
                        ),
                    );
                }
            },
        }
        assert(texts(lines@) =~= detail_texts(self@));
        lines
    }

    /// The names that take part in this event, in lower case.
    pub fn participants(&self) -> (r: Vec<String>)
        ensures
            texts(r@) == participant_texts(self@),
    {
        let mut names: Vec<String> = Vec::new();
        match &self.kind {
            EventKind::Kill(event) => {
                names.push(event.killer_name.as_str().to_lowercase());
                names.push(event.victim_name.as_str().to_lowercase());
            },
            EventKind::SpawnReservation(event) => {
                names.push(event.player_name.as_str().to_lowercase());
            },
            EventKind::CorpseStatus(event) => {
                names.push(event.player_name.as_str().to_lowercase());
            },
            EventKind::ZoneTransfer(event) => {
                names.push(event.player_name.as_str().to_lowercase());
            },
            EventKind::StatusEffect(event) => {
                names.push(event.player_name.as_str().to_lowercase());
            },
            EventKind::Hit(event) => {
                names.push(event.attacker.as_str().to_lowercase());
            },
            EventKind::VehicleDestruction(event) => {
                names.push(event.attacker_name.as_str().to_lowercase());
                if !event.driver_name.as_str().is_empty() {
                    names.push(event.driver_name.as_str().to_lowercase());
                }
            },
        }
        assert(texts(names@) =~= participant_texts(self@));
        names
    }

    /// The display names involved in this event: each once, in order.
    pub fn involved_players(&self) -> (r: Vec<String>)
        ensures
            texts(r@) == involved_texts(self@),
    {
        let mut names: Vec<String> = Vec::new();
        assert(texts(names@) =~= Seq::<Seq<char>>::empty());
        match &self.kind {
            EventKind::Kill(event) => {
                push_name(&mut names, event.killer_name.as_str());
                push_name(&mut names, event.victim_name.as_str());
            },
            EventKind::SpawnReservation(event) => {
                push_name(&mut names, event.player_name.as_str());
            },
            EventKind::CorpseStatus(event) => {
                push_name(&mut names, event.player_name.as_str());
            },
            EventKind::ZoneTransfer(event) => {
                push_name(&mut names, event.player_name.as_str());
            },
            EventKind::StatusEffect(event) => {
                push_name(&mut names, event.player_name.as_str());
            },
            EventKind::Hit(event) => {
                push_name(&mut names, event.attacker.as_str());
            },
            EventKind::VehicleDestruction(event) => {
                push_name(&mut names, event.attacker_name.as_str());
                push_name(&mut names, event.driver_name.as_str());
            },
        }
        names
    }

    /// The text that a search runs over, behind the given clock text.
    pub fn search_blob_at(&self, clock: String) -> (r: String)
        ensures
            r@ == search_blob_text(self@, clock@),
    {
        let mut blob = self.summary_line_at(clock).as_str().to_lowercase();
        let lines = self.detail_lines();
        let ghost start = blob@;
        let mut i: usize = 0;
        assert(texts(lines@).take(0) =~= Seq::<Seq<char>>::empty());
        while i < lines.len()
            invariant
                i <= lines.len(),
                blob@ == lowered_lines(start, texts(lines@).take(i as int)),
            decreases lines.len() - i,
        {
            blob.push('\n');
            blob.append(lines[i].as_str().to_lowercase().as_str());
            proof {
                let t = texts(lines@).take(i + 1);
                assert(t.drop_last() =~= texts(lines@).take(i as int));
                assert(t.last() == lines@[i as int]@);
            }
            i += 1;
        }
        assert(texts(lines@).take(lines@.len() as int) =~= texts(lines@));
        blob.push('\n');
        blob.append(self.raw.as_str().to_lowercase().as_str());
        blob
    }

    /// The text that a search runs over: summary, detail lines and the log
    /// line, each in lower case and on a line of its own.
    pub fn search_blob(&self) -> (r: String)
        ensures
            r@ == search_blob_text(self@, self.timestamp.clock()),
    {
        self.search_blob_at(self.timestamp.clock_text())
    }
}

} // verus!
