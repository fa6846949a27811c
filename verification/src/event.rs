//! The events that a log line can stand for, and their mathematical views.
//!
//! Every executable type here has a view in which each string is the
//! sequence of its characters. Contracts elsewhere speak of the views.

use crate::timestamp::Timestamp;
use vstd::prelude::*;
use vstd::string::*;

verus! {

/// The view of an optional string.
pub open spec fn opt_text(o: Option<String>) -> Option<Seq<char>> {
    match o {
        Some(s) => Some(s@),
        None => None,
    }
}

/// The views of a sequence of strings.
pub open spec fn texts(v: Seq<String>) -> Seq<Seq<char>> {
    v.map_values(|s: String| s@)
}

/// One actor killing another.
#[derive(Debug, PartialEq, Eq)]
pub struct KillEvent {
    pub victim_name: String,
    pub victim_id: String,
    pub killer_name: String,
    pub killer_id: String,
    pub weapon: String,
    pub weapon_class: String,
    pub damage_type: String,
    pub zone: String,
}

/// A kill, its strings as sequences of characters.
pub struct KillView {
    pub victim_name: Seq<char>,
    pub victim_id: Seq<char>,
    pub killer_name: Seq<char>,
    pub killer_id: Seq<char>,
    pub weapon: Seq<char>,
    pub weapon_class: Seq<char>,
    pub damage_type: Seq<char>,
    pub zone: Seq<char>,
}

impl View for KillEvent {
    type V = KillView;

    open spec fn view(&self) -> KillView {
        KillView {
            victim_name: self.victim_name@,
            victim_id: self.victim_id@,
            killer_name: self.killer_name@,
            killer_id: self.killer_id@,
            weapon: self.weapon@,
            weapon_class: self.weapon_class@,
            damage_type: self.damage_type@,
            zone: self.zone@,
        }
    }
}

impl Clone for KillEvent {
    fn clone(&self) -> (r: Self)
        ensures
            r == *self,
    {
        KillEvent {
            victim_name: self.victim_name.clone(),
            victim_id: self.victim_id.clone(),
            killer_name: self.killer_name.clone(),
            killer_id: self.killer_id.clone(),
            weapon: self.weapon.clone(),
            weapon_class: self.weapon_class.clone(),
            damage_type: self.damage_type.clone(),
            zone: self.zone.clone(),
        }
    }
}

/// A player losing the reservation of a spawn point.
#[derive(Debug, PartialEq, Eq)]
pub struct SpawnReservationEvent {
    pub player_name: String,
    pub player_id: String,
    pub spawn_point: String,
    pub spawn_id: String,
    pub location: String,
}

/// A lost spawn reservation, its strings as sequences of characters.
pub struct SpawnReservationView {
    pub player_name: Seq<char>,
    pub player_id: Seq<char>,
    pub spawn_point: Seq<char>,
    pub spawn_id: Seq<char>,
    pub location: Seq<char>,
}

impl View for SpawnReservationEvent {
    type V = SpawnReservationView;

    open spec fn view(&self) -> SpawnReservationView {
        SpawnReservationView {
            player_name: self.player_name@,
            player_id: self.player_id@,
            spawn_point: self.spawn_point@,
            spawn_id: self.spawn_id@,
            location: self.location@,
        }
    }
}

impl Clone for SpawnReservationEvent {
    fn clone(&self) -> (r: Self)
        ensures
            r == *self,
    {
        SpawnReservationEvent {
            player_name: self.player_name.clone(),
            player_id: self.player_id.clone(),
            spawn_point: self.spawn_point.clone(),
            spawn_id: self.spawn_id.clone(),
            location: self.location.clone(),
        }
    }
}

/// A player's corpse being switched on or off. Only the switching off is
/// kept as an event.
#[derive(Debug, PartialEq, Eq)]
pub struct CorpseStatusEvent {
    pub player_name: String,
    pub context: Option<String>,
    pub corpse_enabled: bool,
}

/// A corpse status, its strings as sequences of characters.
pub struct CorpseStatusView {
    pub player_name: Seq<char>,
    pub context: Option<Seq<char>>,
    pub corpse_enabled: bool,
}

impl View for CorpseStatusEvent {
    type V = CorpseStatusView;

    open spec fn view(&self) -> CorpseStatusView {
        CorpseStatusView {
            player_name: self.player_name@,
            context: opt_text(self.context),
            corpse_enabled: self.corpse_enabled,
        }
    }
}

impl Clone for CorpseStatusEvent {
    fn clone(&self) -> (r: Self)
        ensures
            r == *self,
    {
        CorpseStatusEvent {
            player_name: self.player_name.clone(),
            context: clone_opt(&self.context),
            corpse_enabled: self.corpse_enabled,
        }
    }
}

/// A player being moved from one zone to another.
#[derive(Debug, PartialEq, Eq)]
pub struct ZoneTransferEvent {
    pub player_name: String,
    pub child_id: Option<String>,
    pub parent_id: Option<String>,
    pub parent_name: Option<String>,
    pub host_id: Option<String>,
    pub host_name: Option<String>,
}

/// A zone transfer, its strings as sequences of characters.
pub struct ZoneTransferView {
    pub player_name: Seq<char>,
    pub child_id: Option<Seq<char>>,
    pub parent_id: Option<Seq<char>>,
    pub parent_name: Option<Seq<char>>,
    pub host_id: Option<Seq<char>>,
    pub host_name: Option<Seq<char>>,
}

impl View for ZoneTransferEvent {
    type V = ZoneTransferView;

    open spec fn view(&self) -> ZoneTransferView {
        ZoneTransferView {
            player_name: self.player_name@,
            child_id: opt_text(self.child_id),
            parent_id: opt_text(self.parent_id),
            parent_name: opt_text(self.parent_name),
            host_id: opt_text(self.host_id),
            host_name: opt_text(self.host_name),
        }
    }
}

impl Clone for ZoneTransferEvent {
    fn clone(&self) -> (r: Self)
        ensures
            r == *self,
    {
        ZoneTransferEvent {
            player_name: self.player_name.clone(),
            child_id: clone_opt(&self.child_id),
            parent_id: clone_opt(&self.parent_id),
            parent_name: clone_opt(&self.parent_name),
            host_id: clone_opt(&self.host_id),
            host_name: clone_opt(&self.host_name),
        }
    }
}

/// A status effect starting or ending on a player.
#[derive(Debug, PartialEq, Eq)]
pub struct StatusEffectEvent {
    pub player_name: String,
    pub effect: String,
    pub stage: String,
}

/// A status effect, its strings as sequences of characters.
pub struct StatusEffectView {
    pub player_name: Seq<char>,
    pub effect: Seq<char>,
    pub stage: Seq<char>,
}

impl View for StatusEffectEvent {
    type V = StatusEffectView;

    open spec fn view(&self) -> StatusEffectView {
        StatusEffectView {
            player_name: self.player_name@,
            effect: self.effect@,
            stage: self.stage@,
        }
    }
}

impl Clone for StatusEffectEvent {
    fn clone(&self) -> (r: Self)
        ensures
            r == *self,
    {
        StatusEffectEvent {
            player_name: self.player_name.clone(),
            effect: self.effect.clone(),
            stage: self.stage.clone(),
        }
    }
}

/// One actor hitting another.
#[derive(Debug, PartialEq, Eq)]
pub struct HitEvent {
    pub attacker: String,
    pub target: String,
    pub child: Option<String>,
}

/// A hit, its strings as sequences of characters.
pub struct HitView {
    pub attacker: Seq<char>,
    pub target: Seq<char>,
    pub child: Option<Seq<char>>,
}

impl View for HitEvent {
    type V = HitView;

    open spec fn view(&self) -> HitView {
        HitView { attacker: self.attacker@, target: self.target@, child: opt_text(self.child) }
    }
}

impl Clone for HitEvent {
    fn clone(&self) -> (r: Self)
        ensures
            r == *self,
    {
        HitEvent {
            attacker: self.attacker.clone(),
            target: self.target.clone(),
            child: clone_opt(&self.child),
        }
    }
}

/// A vehicle passing from one destroy level to another.
#[derive(Debug, PartialEq, Eq)]
pub struct VehicleDestructionEvent {
    pub vehicle_name: String,
    pub vehicle_id: String,
    pub zone: String,
    pub driver_name: String,
    pub driver_id: String,
    pub from_level: u32,
    pub to_level: u32,
    pub attacker_name: String,
    pub attacker_id: String,
    pub cause: String,
}

/// A vehicle's destruction, its strings as sequences of characters.
pub struct VehicleDestructionView {
    pub vehicle_name: Seq<char>,
    pub vehicle_id: Seq<char>,
    pub zone: Seq<char>,
    pub driver_name: Seq<char>,
    pub driver_id: Seq<char>,
    pub from_level: u32,
    pub to_level: u32,
    pub attacker_name: Seq<char>,
    pub attacker_id: Seq<char>,
    pub cause: Seq<char>,
}

impl View for VehicleDestructionEvent {
    type V = VehicleDestructionView;

    open spec fn view(&self) -> VehicleDestructionView {
        VehicleDestructionView {
            vehicle_name: self.vehicle_name@,
            vehicle_id: self.vehicle_id@,
            zone: self.zone@,
            driver_name: self.driver_name@,
            driver_id: self.driver_id@,
            from_level: self.from_level,
            to_level: self.to_level,
            attacker_name: self.attacker_name@,
            attacker_id: self.attacker_id@,
            cause: self.cause@,
        }
    }
}

impl Clone for VehicleDestructionEvent {
    fn clone(&self) -> (r: Self)
        ensures
            r == *self,
    {
        VehicleDestructionEvent {
            vehicle_name: self.vehicle_name.clone(),
            vehicle_id: self.vehicle_id.clone(),
            zone: self.zone.clone(),
            driver_name: self.driver_name.clone(),
            driver_id: self.driver_id.clone(),
            from_level: self.from_level,
            to_level: self.to_level,
            attacker_name: self.attacker_name.clone(),
            attacker_id: self.attacker_id.clone(),
            cause: self.cause.clone(),
        }
    }
}

/// The seven kinds of event, in the order in which their grammars are tried.
#[derive(Clone, Copy, Debug, PartialEq, Eq, Structural)]
pub enum EventTag {
    Kill,
    SpawnReservation,
    CorpseStatus,
    ZoneTransfer,
    StatusEffect,
    Hit,
    VehicleDestruction,
}

/// What an event is about: one payload for each kind of event.
#[derive(Debug, PartialEq, Eq)]
pub enum EventKind {
    Kill(KillEvent),
    SpawnReservation(SpawnReservationEvent),
    CorpseStatus(CorpseStatusEvent),
    ZoneTransfer(ZoneTransferEvent),
    StatusEffect(StatusEffectEvent),
    Hit(HitEvent),
    VehicleDestruction(VehicleDestructionEvent),
}

/// The payload of an event, its strings as sequences of characters.
pub enum KindView {
    Kill(KillView),
    SpawnReservation(SpawnReservationView),
    CorpseStatus(CorpseStatusView),
    ZoneTransfer(ZoneTransferView),
    StatusEffect(StatusEffectView),
    Hit(HitView),
    VehicleDestruction(VehicleDestructionView),
}

impl View for EventKind {
    type V = KindView;

    open spec fn view(&self) -> KindView {
        match *self {
            EventKind::Kill(e) => KindView::Kill(e@),
            EventKind::SpawnReservation(e) => KindView::SpawnReservation(e@),
            EventKind::CorpseStatus(e) => KindView::CorpseStatus(e@),
            EventKind::ZoneTransfer(e) => KindView::ZoneTransfer(e@),
            EventKind::StatusEffect(e) => KindView::StatusEffect(e@),
            EventKind::Hit(e) => KindView::Hit(e@),
            EventKind::VehicleDestruction(e) => KindView::VehicleDestruction(e@),
        }
    }
}

impl KindView {
    /// The kind of this payload.
    pub open spec fn tag(self) -> EventTag {
        match self {
            KindView::Kill(_) => EventTag::Kill,
            KindView::SpawnReservation(_) => EventTag::SpawnReservation,
            KindView::CorpseStatus(_) => EventTag::CorpseStatus,
            KindView::ZoneTransfer(_) => EventTag::ZoneTransfer,
            KindView::StatusEffect(_) => EventTag::StatusEffect,
            KindView::Hit(_) => EventTag::Hit,
            KindView::VehicleDestruction(_) => EventTag::VehicleDestruction,
        }
    }
}

impl EventKind {
    /// The kind of this payload.
    pub fn tag(&self) -> (r: EventTag)
        ensures
            r == self@.tag(),
    {
        match self {
            EventKind::Kill(_) => EventTag::Kill,
            EventKind::SpawnReservation(_) => EventTag::SpawnReservation,
            EventKind::CorpseStatus(_) => EventTag::CorpseStatus,
            EventKind::ZoneTransfer(_) => EventTag::ZoneTransfer,
            EventKind::StatusEffect(_) => EventTag::StatusEffect,
            EventKind::Hit(_) => EventTag::Hit,
            EventKind::VehicleDestruction(_) => EventTag::VehicleDestruction,
        }
    }
}

impl Clone for EventKind {
    fn clone(&self) -> (r: Self)
        ensures
            r == *self,
    {
        match self {
            EventKind::Kill(e) => EventKind::Kill(e.clone()),
            EventKind::SpawnReservation(e) => EventKind::SpawnReservation(e.clone()),
            EventKind::CorpseStatus(e) => EventKind::CorpseStatus(e.clone()),
            EventKind::ZoneTransfer(e) => EventKind::ZoneTransfer(e.clone()),
            EventKind::StatusEffect(e) => EventKind::StatusEffect(e.clone()),
            EventKind::Hit(e) => EventKind::Hit(e.clone()),
            EventKind::VehicleDestruction(e) => EventKind::VehicleDestruction(e.clone()),
        }
    }
}

/// One record of the timeline: when it happened, what happened, and the log
/// line that said so.
#[derive(Debug, PartialEq, Eq)]
pub struct PlayerEvent {
    pub timestamp: Timestamp,
    pub kind: EventKind,
    pub raw: String,
}

/// An event, its strings as sequences of characters.
pub struct EventView {
    pub timestamp: Timestamp,
    pub kind: KindView,
    pub raw: Seq<char>,
}

impl View for PlayerEvent {
    type V = EventView;

    open spec fn view(&self) -> EventView {
        EventView { timestamp: self.timestamp, kind: self.kind@, raw: self.raw@ }
    }
}

impl Clone for PlayerEvent {
    fn clone(&self) -> (r: Self)
        ensures
            r == *self,
    {
        PlayerEvent {
            timestamp: self.timestamp,
            kind: self.kind.clone(),
            raw: self.raw.clone(),
        }
    }
}

/// The views of a sequence of events.
pub open spec fn event_views(v: Seq<PlayerEvent>) -> Seq<EventView> {
    v.map_values(|e: PlayerEvent| e@)
}

/// The view of an optional event.
pub open spec fn opt_event_view(o: Option<PlayerEvent>) -> Option<EventView> {
    match o {
        Some(e) => Some(e@),
        None => None,
    }
}

/// A copy of an optional string.
pub fn clone_opt(o: &Option<String>) -> (r: Option<String>)
    ensures
        r == *o,
{
    match o {
        Some(s) => Some(s.clone()),
        None => None,
    }
}

} // verus!
