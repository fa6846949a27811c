//! The projection from all events to those that are shown.
//!
//! An event is shown where its kind is switched on, its actor is not the
//! ignored one, and the search text is found in it. The projection keeps
//! the order of the events and leaves the list as it is.

use crate::event::{event_views, EventKind, EventTag, EventView, KindView, PlayerEvent};
use crate::render::search_blob_text;
use crate::text::{
    contains, has_substring, lowercased, matches_ignore_case, same_ignoring_ascii_case, trim,
    trimmed,
};
use vstd::prelude::*;
use vstd::string::*;

verus! {

/// What decides which events are shown.
#[derive(Debug, PartialEq, Eq)]
pub struct FilterCriteria {
    pub show_kills: bool,
    pub show_spawns: bool,
    pub show_corpse: bool,
    pub show_zone_moves: bool,
    pub show_status_effects: bool,
    pub show_hits: bool,
    pub show_vehicle_destruction: bool,
    /// Shown events hold this text, whatever the case of its letters.
    pub search_text: String,
    /// Events whose actor bears this name are not shown.
    pub ignored_player: String,
}

/// The criteria, their strings as sequences of characters.
pub struct CriteriaView {
    pub show_kills: bool,
    pub show_spawns: bool,
    pub show_corpse: bool,
    pub show_zone_moves: bool,
    pub show_status_effects: bool,
    pub show_hits: bool,
    pub show_vehicle_destruction: bool,
    pub search_text: Seq<char>,
    pub ignored_player: Seq<char>,
}

impl View for FilterCriteria {
    type V = CriteriaView;

    open spec fn view(&self) -> CriteriaView {
        CriteriaView {
            show_kills: self.show_kills,
            show_spawns: self.show_spawns,
            show_corpse: self.show_corpse,
            show_zone_moves: self.show_zone_moves,
            show_status_effects: self.show_status_effects,
            show_hits: self.show_hits,
            show_vehicle_destruction: self.show_vehicle_destruction,
            search_text: self.search_text@,
            ignored_player: self.ignored_player@,
        }
    }
}

impl CriteriaView {
    /// Whether events of a kind are switched on.
    pub open spec fn shows(self, tag: EventTag) -> bool {
        match tag {
            EventTag::Kill => self.show_kills,
            EventTag::SpawnReservation => self.show_spawns,
            EventTag::CorpseStatus => self.show_corpse,
            EventTag::ZoneTransfer => self.show_zone_moves,
            EventTag::StatusEffect => self.show_status_effects,
            EventTag::Hit => self.show_hits,
            EventTag::VehicleDestruction => self.show_vehicle_destruction,
        }
    }
}

/// Whether an event is left out because of the ignored name. The name
/// counts trimmed, and not at all where nothing is left of it; letters
/// compare without regard to ASCII case. The actor that counts is the killer
/// of a kill, unless the victim bears the name too; the attacker of a hit;
/// the attacker or the driver of a vehicle's destruction; else the player.
pub open spec fn ignore_applies(ev: EventView, ignored: Seq<char>) -> bool {
    let name = trimmed(ignored);
    name.len() > 0 && match ev.kind {
        KindView::Kill(k) => same_ignoring_ascii_case(k.killer_name, name)
            && !same_ignoring_ascii_case(k.victim_name, name),
        KindView::SpawnReservation(s) => same_ignoring_ascii_case(s.player_name, name),
        KindView::CorpseStatus(c) => same_ignoring_ascii_case(c.player_name, name),
        KindView::ZoneTransfer(z) => same_ignoring_ascii_case(z.player_name, name),
        KindView::StatusEffect(s) => same_ignoring_ascii_case(s.player_name, name),
        KindView::Hit(h) => same_ignoring_ascii_case(h.attacker, name),
        KindView::VehicleDestruction(v) => same_ignoring_ascii_case(v.attacker_name, name) || (
        v.driver_name.len() > 0 && same_ignoring_ascii_case(v.driver_name, name)),
    }
}

/// Whether the trimmed needle stands in a search text; an empty needle
/// stands in every text.
pub open spec fn needle_found(blob: Seq<char>, needle: Seq<char>) -> bool {
    trimmed(needle).len() == 0 || has_substring(blob, trimmed(needle))
}

/// Whether a needle is found in an event: in its summary, its detail
/// lines or its log line, all in lower case.
pub open spec fn search_finds(ev: EventView, needle: Seq<char>) -> bool {
    needle_found(search_blob_text(ev, ev.timestamp.clock()), needle)
}

/// The three tests that an event passes to be shown.
pub enum FilterStage {
    Kind,
    Ignored,
    Search,
}

/// Whether an event passes one of the three tests: its kind is switched on;
/// it is not left out because of the ignored name; the search text is empty
/// or, in lower case, is found in the event.
pub open spec fn passes(ev: EventView, c: CriteriaView, stage: FilterStage) -> bool {
    match stage {
        FilterStage::Kind => c.shows(ev.kind.tag()),
        FilterStage::Ignored => !ignore_applies(ev, c.ignored_player),
        FilterStage::Search => c.search_text.len() == 0 || search_finds(
            ev,
            lowercased(c.search_text),
        ),
    }
}

/// Whether an event is shown: it passes all three tests.
pub open spec fn keeps(ev: EventView, c: CriteriaView) -> bool {
    passes(ev, c, FilterStage::Kind) && passes(ev, c, FilterStage::Ignored) && passes(
        ev,
        c,
        FilterStage::Search,
    )
}

/// The events for which `pred` holds, in their order.
pub open spec fn retain(events: Seq<EventView>, pred: spec_fn(EventView) -> bool) -> Seq<
    EventView,
>
    decreases events.len(),
{
    if events.len() == 0 {
        Seq::empty()
    } else if pred(events.last()) {
        retain(events.drop_last(), pred).push(events.last())
    } else {
        retain(events.drop_last(), pred)
    }
}

/// The events that are shown, in their order.
pub open spec fn kept(events: Seq<EventView>, c: CriteriaView) -> Seq<EventView> {
    retain(events, |e: EventView| keeps(e, c))
}

/// The events that pass one test, in their order.
pub open spec fn kept_by(events: Seq<EventView>, c: CriteriaView, stage: FilterStage) -> Seq<
    EventView,
> {
    retain(events, |e: EventView| passes(e, c, stage))
}

/// The indices of the events for which `pred` holds, ascending.
pub open spec fn retained_indices(events: Seq<EventView>, pred: spec_fn(EventView) -> bool) -> Seq<
    int,
>
    decreases events.len(),
{
    if events.len() == 0 {
        Seq::empty()
    } else if pred(events.last()) {
        retained_indices(events.drop_last(), pred).push(events.len() - 1)
    } else {
        retained_indices(events.drop_last(), pred)
    }
}

impl FilterCriteria {
    /// Criteria under which every event is shown.
    pub fn show_all() -> (r: FilterCriteria)
        ensures
            r@ == (CriteriaView {
                show_kills: true,
                show_spawns: true,
                show_corpse: true,
                show_zone_moves: true,
                show_status_effects: true,
                show_hits: true,
                show_vehicle_destruction: true,
                search_text: Seq::empty(),
                ignored_player: Seq::empty(),
            }),
    {
        FilterCriteria {
            show_kills: true,
            show_spawns: true,
            show_corpse: true,
            show_zone_moves: true,
            show_status_effects: true,
            show_hits: true,
            show_vehicle_destruction: true,
            search_text: String::new(),
            ignored_player: String::new(),
        }
    }

    /// Whether events of a kind are switched on.
    pub fn shows(&self, tag: EventTag) -> (r: bool)
        ensures
            r == self@.shows(tag),
    {
        match tag {
            EventTag::Kill => self.show_kills,
            EventTag::SpawnReservation => self.show_spawns,
            EventTag::CorpseStatus => self.show_corpse,
            EventTag::ZoneTransfer => self.show_zone_moves,
            EventTag::StatusEffect => self.show_status_effects,
            EventTag::Hit => self.show_hits,
            EventTag::VehicleDestruction => self.show_vehicle_destruction,
        }
    }
}

/// Whether the trimmed needle stands in a search text.
pub fn needle_in(blob: &str, needle: &str) -> (r: bool)
    ensures
        r == needle_found(blob@, needle@),
{
    let needle = trim(needle);
    if needle.as_str().is_empty() {
        return true;
    }
    contains(blob, needle.as_str())
}

impl PlayerEvent {
    /// Whether this event is left out because of the ignored name.
    pub fn should_ignore(&self, ignored: &str) -> (r: bool)
        ensures
            r == ignore_applies(self@, ignored@),
    {
        let trimmed = trim(ignored);
        let name = trimmed.as_str();
        if name.is_empty() {
            return false;
        }
        match &self.kind {
            EventKind::Kill(event) => {
                matches_ignore_case(event.killer_name.as_str(), name) && !matches_ignore_case(
                    event.victim_name.as_str(),
                    name,
                )
            },
            EventKind::SpawnReservation(event) => matches_ignore_case(
                event.player_name.as_str(),
                name,
            ),
            EventKind::CorpseStatus(event) => matches_ignore_case(event.player_name.as_str(), name),
            EventKind::ZoneTransfer(event) => matches_ignore_case(event.player_name.as_str(), name),
            EventKind::StatusEffect(event) => matches_ignore_case(event.player_name.as_str(), name),
            EventKind::Hit(event) => matches_ignore_case(event.attacker.as_str(), name),
            EventKind::VehicleDestruction(event) => {
                matches_ignore_case(event.attacker_name.as_str(), name) || (
                !event.driver_name.as_str().is_empty() && matches_ignore_case(
                    event.driver_name.as_str(),
                    name,
                ))
            },
        }
    }

    /// Whether a needle, given in lower case, is found in this event.
    pub fn matches_search(&self, needle: &str) -> (r: bool)
        ensures
            r == search_finds(self@, needle@),
    {
        let needle = trim(needle);
        if needle.as_str().is_empty() {
            return true;
        }
        contains(self.search_blob().as_str(), needle.as_str())
    }

    /// Whether this event is shown under the criteria.
    pub fn is_shown(&self, criteria: &FilterCriteria) -> (r: bool)
        ensures
            r == keeps(self@, criteria@),
    {
        criteria.shows(self.kind.tag()) && !self.should_ignore(criteria.ignored_player.as_str())
            && (criteria.search_text.as_str().is_empty() || self.matches_search(
            criteria.search_text.as_str().to_lowercase().as_str(),
        ))
    }
}

/// The events that are shown under the criteria, in their order. The list
/// itself stays as it is.
pub fn filtered_events(events: &Vec<PlayerEvent>, criteria: &FilterCriteria) -> (r: Vec<
    PlayerEvent,
>)
    ensures
        event_views(r@) == kept(event_views(events@), criteria@),
{
    let no_search = criteria.search_text.as_str().is_empty();
    let search_lower = criteria.search_text.as_str().to_lowercase();
    let ghost all = event_views(events@);
    let ghost pred = |e: EventView| keeps(e, criteria@);
    let mut out: Vec<PlayerEvent> = Vec::new();
    let mut i: usize = 0;
    assert(event_views(out@) =~= retain(all.take(0), pred));
    while i < events.len()
        invariant
            i <= events.len(),
            all == event_views(events@),
            pred == |e: EventView| keeps(e, criteria@),
            no_search == (criteria@.search_text.len() == 0),
            search_lower@ == lowercased(criteria@.search_text),
            event_views(out@) == retain(all.take(i as int), pred),
        decreases events.len() - i,
    {
        let event = &events[i];
        let shown = criteria.shows(event.kind.tag()) && !event.should_ignore(
            criteria.ignored_player.as_str(),
        ) && (no_search || event.matches_search(search_lower.as_str()));
        proof {
            let t = all.take(i + 1);
            assert(t.drop_last() =~= all.take(i as int));
            assert(t.last() == event@);
            assert(pred(event@) == shown);
        }
        if shown {
            out.push(event.clone());
            assert(event_views(out@) =~= retain(all.take(i as int), pred).push(event@));
        }
        i += 1;
    }
    assert(all.take(events@.len() as int) =~= all);
    out
}

/// Two tests that agree on every event keep the same events.
pub proof fn lemma_retain_agrees(
    events: Seq<EventView>,
    p: spec_fn(EventView) -> bool,
    q: spec_fn(EventView) -> bool,
)
    requires
        forall|e: EventView| #[trigger] p(e) == q(e),
    ensures
        retain(events, p) == retain(events, q),
        retained_indices(events, p) == retained_indices(events, q),
    decreases events.len(),
{
    if events.len() > 0 {
        lemma_retain_agrees(events.drop_last(), p, q);
    }
}

/// Keeping by one test and then by another keeps what passes both.
pub proof fn lemma_retain_twice(
    events: Seq<EventView>,
    p: spec_fn(EventView) -> bool,
    q: spec_fn(EventView) -> bool,
)
    ensures
        retain(retain(events, p), q) == retain(events, |e: EventView| p(e) && q(e)),
    decreases events.len(),
{
    let both = |e: EventView| p(e) && q(e);
    if events.len() > 0 {
        lemma_retain_twice(events.drop_last(), p, q);
        let front = retain(events.drop_last(), p);
        if p(events.last()) {
            assert(front.push(events.last()).drop_last() =~= front);
        }
    }
}

/// The three tests may be applied one after the other in any order: what is
/// left is what is shown.
pub proof fn lemma_stages_in_any_order(
    events: Seq<EventView>,
    c: CriteriaView,
    first: FilterStage,
    second: FilterStage,
    third: FilterStage,
)
    requires
        first != second,
        second != third,
        first != third,
    ensures
        retain(
            retain(retain(events, |e: EventView| passes(e, c, first)), |e: EventView|
                passes(e, c, second)),
            |e: EventView| passes(e, c, third),
        ) == kept(events, c),
{
    let one = |e: EventView| passes(e, c, first);
    let two = |e: EventView| passes(e, c, second);
    let three = |e: EventView| passes(e, c, third);
    let both = |e: EventView| one(e) && two(e);
    let every = |e: EventView| both(e) && three(e);
    lemma_retain_twice(events, one, two);
    lemma_retain_twice(events, both, three);
    lemma_retain_agrees(events, every, |e: EventView| keeps(e, c));
}

/// The projection keeps the order of the events: what is shown stands at
/// ascending indices of the list, and an event of the list is among them
/// exactly where it is shown.
pub proof fn lemma_kept_in_order(events: Seq<EventView>, pred: spec_fn(EventView) -> bool)
    ensures
        retained_indices(events, pred).len() == retain(events, pred).len(),
        forall|i: int|
            0 <= i < retain(events, pred).len() ==> 0 <= #[trigger] retained_indices(
                events,
                pred,
            )[i] < events.len() && retain(events, pred)[i] == events[retained_indices(
                events,
                pred,
            )[i]],
        forall|i: int, j: int|
            0 <= i < j < retain(events, pred).len() ==> #[trigger] retained_indices(events, pred)[i]
                < #[trigger] retained_indices(events, pred)[j],
        forall|k: int|
            0 <= k < events.len() ==> (pred(events[k]) <==> retained_indices(
                events,
                pred,
            ).contains(k)),
    decreases events.len(),
{
    let picks = retained_indices(events, pred);
    if events.len() > 0 {
        let front = events.drop_last();
        let n = events.len() - 1;
        lemma_kept_in_order(front, pred);
        let inner = retained_indices(front, pred);
        assert forall|k: int| 0 <= k < events.len() implies (pred(events[k]) <==> picks.contains(
            k,
        )) by {
            if k < n {
                assert(front[k] == events[k]);
                if inner.contains(k) {
                    let w = choose|w: int| 0 <= w < inner.len() && inner[w] == k;
                    assert(picks[w] == k);
                }
                if picks.contains(k) {
                    let w = choose|w: int| 0 <= w < picks.len() && picks[w] == k;
                    assert(inner[w] == k);
                }
            } else {
                if pred(events.last()) {
                    assert(picks[picks.len() - 1] == k);
                }
                if picks.contains(k) {
                    let w = choose|w: int| 0 <= w < picks.len() && picks[w] == k;
                    if w < inner.len() {
                        assert(inner[w] == picks[w]);
                    }
                }
            }
        }
        assert forall|i: int| 0 <= i < retain(events, pred).len() implies 0 <= #[trigger] picks[i]
            < events.len() && retain(events, pred)[i] == events[picks[i]] by {
            if i < inner.len() {
                assert(picks[i] == inner[i]);
                assert(retain(events, pred)[i] == retain(front, pred)[i]);
                assert(front[inner[i]] == events[inner[i]]);
            }
        }
        assert forall|i: int, j: int| 0 <= i < j < retain(events, pred).len() implies #[trigger] picks[i]
            < #[trigger] picks[j] by {
            if j < inner.len() {
                assert(picks[i] == inner[i] && picks[j] == inner[j]);
            } else {
                assert(picks[i] == inner[i]);
            }
        }
    }
}

/// The criteria that apply one of the three tests of `c` and let every event
/// pass the other two: all kinds switched on, no ignored name, no search
/// text.
pub open spec fn single(c: CriteriaView, stage: FilterStage) -> CriteriaView {
    let open = CriteriaView {
        show_kills: true,
        show_spawns: true,
        show_corpse: true,
        show_zone_moves: true,
        show_status_effects: true,
        show_hits: true,
        show_vehicle_destruction: true,
        search_text: Seq::empty(),
        ignored_player: Seq::empty(),
    };
    match stage {
        FilterStage::Kind => CriteriaView {
            search_text: Seq::empty(),
            ignored_player: Seq::empty(),
            ..c
        },
        FilterStage::Ignored => CriteriaView { ignored_player: c.ignored_player, ..open },
        FilterStage::Search => CriteriaView { search_text: c.search_text, ..open },
    }
}

/// Under criteria that apply one test, an event is shown exactly where it
/// passes that test.
pub proof fn lemma_single_test(ev: EventView, c: CriteriaView, stage: FilterStage)
    ensures
        keeps(ev, single(c, stage)) == passes(ev, c, stage),
{
    assert(trimmed(Seq::<char>::empty()) =~= Seq::<char>::empty());
}

/// An event is shown exactly where it is shown under each of the three
/// criteria that apply one test; so what is shown under `c` is what of the
/// list is shown under all three, in the order of the list.
pub proof fn lemma_shown_under_each(events: Seq<EventView>, c: CriteriaView)
    ensures
        forall|e: EventView|
            #[trigger] keeps(e, c) <==> keeps(e, single(c, FilterStage::Kind)) && keeps(
                e,
                single(c, FilterStage::Ignored),
            ) && keeps(e, single(c, FilterStage::Search)),
        kept(events, c) == retain(
            events,
            |e: EventView|
                keeps(e, single(c, FilterStage::Kind)) && keeps(e, single(c, FilterStage::Ignored))
                    && keeps(e, single(c, FilterStage::Search)),
        ),
{
    assert forall|e: EventView|
        #[trigger] keeps(e, c) <==> keeps(e, single(c, FilterStage::Kind)) && keeps(
            e,
            single(c, FilterStage::Ignored),
        ) && keeps(e, single(c, FilterStage::Search)) by {
        lemma_single_test(e, c, FilterStage::Kind);
        lemma_single_test(e, c, FilterStage::Ignored);
        lemma_single_test(e, c, FilterStage::Search);
    }
    let each = |e: EventView|
        keeps(e, single(c, FilterStage::Kind)) && keeps(e, single(c, FilterStage::Ignored))
            && keeps(e, single(c, FilterStage::Search));
    let whole = |e: EventView| keeps(e, c);
    assert forall|e: EventView| #[trigger] whole(e) == each(e) by {
        assert(keeps(e, c) <==> each(e));
    }
    lemma_retain_agrees(events, whole, each);
}

/// Filtering by the three criteria that apply one test each, one after the
/// other in any order, gives what is shown under `c`.
pub proof fn lemma_single_criteria_in_any_order(
    events: Seq<EventView>,
    c: CriteriaView,
    first: FilterStage,
    second: FilterStage,
    third: FilterStage,
)
    requires
        first != second,
        second != third,
        first != third,
    ensures
        kept(kept(kept(events, single(c, first)), single(c, second)), single(c, third)) == kept(
            events,
            c,
        ),
{
    let after_first = kept(events, single(c, first));
    let after_second = kept(after_first, single(c, second));
    assert forall|e: EventView| #[trigger]
        keeps(e, single(c, first)) == passes(e, c, first) by {
        lemma_single_test(e, c, first);
    }
    assert forall|e: EventView| #[trigger]
        keeps(e, single(c, second)) == passes(e, c, second) by {
        lemma_single_test(e, c, second);
    }
    assert forall|e: EventView| #[trigger]
        keeps(e, single(c, third)) == passes(e, c, third) by {
        lemma_single_test(e, c, third);
    }
    lemma_retain_agrees(
        events,
        |e: EventView| keeps(e, single(c, first)),
        |e: EventView| passes(e, c, first),
    );
    lemma_retain_agrees(
        after_first,
        |e: EventView| keeps(e, single(c, second)),
        |e: EventView| passes(e, c, second),
    );
    lemma_retain_agrees(
        after_second,
        |e: EventView| keeps(e, single(c, third)),
        |e: EventView| passes(e, c, third),
    );
    lemma_stages_in_any_order(events, c, first, second, third);
}

/// A kill whose killer and victim bear the same name, but for the case of
/// ASCII letters, is shown wherever kills are switched on and no search
/// text is set, whatever the ignored name.
pub proof fn lemma_self_kill_is_shown(events: Seq<EventView>, c: CriteriaView, k: int)
    requires
        0 <= k < events.len(),
        events[k].kind matches KindView::Kill(kill) && same_ignoring_ascii_case(
            kill.killer_name,
            kill.victim_name,
        ),
        c.show_kills,
        c.search_text.len() == 0,
    ensures
        keeps(events[k], c),
        shown_indices(events, c).contains(k),
        kept(events, c).contains(events[k]),
{
    lemma_self_kill_never_ignored(events[k], c.ignored_player);
    assert(keeps(events[k], c));
    lemma_shown_in_order(events, c);
    let picks = shown_indices(events, c);
    assert(picks.contains(k));
    let i = choose|i: int| 0 <= i < picks.len() && picks[i] == k;
    assert(picks[i] == k);
    assert(kept(events, c)[i] == events[picks[i]]);
}

/// The indices, in the list, of the events that are shown, ascending.
pub open spec fn shown_indices(events: Seq<EventView>, c: CriteriaView) -> Seq<int> {
    retained_indices(events, |e: EventView| keeps(e, c))
}

/// What is shown keeps the order of the list: the shown events stand at
/// ascending indices of the list, and an event of the list is among them
/// exactly where it passes the three tests.
pub proof fn lemma_shown_in_order(events: Seq<EventView>, c: CriteriaView)
    ensures
        shown_indices(events, c).len() == kept(events, c).len(),
        forall|i: int|
            0 <= i < kept(events, c).len() ==> 0 <= #[trigger] shown_indices(events, c)[i]
                < events.len() && kept(events, c)[i] == events[shown_indices(events, c)[i]],
        forall|i: int, j: int|
            0 <= i < j < kept(events, c).len() ==> #[trigger] shown_indices(events, c)[i]
                < #[trigger] shown_indices(events, c)[j],
        forall|k: int|
            0 <= k < events.len() ==> (keeps(events[k], c) <==> shown_indices(events, c).contains(
                k,
            )),
{
    lemma_kept_in_order(events, |e: EventView| keeps(e, c));
}

/// A kill whose killer and victim bear the same name, but for the case of
/// ASCII letters, is never left out because of the ignored name.
pub proof fn lemma_self_kill_never_ignored(ev: EventView, ignored: Seq<char>)
    requires
        ev.kind matches KindView::Kill(k) && same_ignoring_ascii_case(k.killer_name, k.victim_name),
    ensures
        !ignore_applies(ev, ignored),
{
}

} // verus!
