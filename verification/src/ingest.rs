//! Ingestion: from the bytes of a log to the ordered list of its events.
//!
//! A log is cut into records at line feeds. Each record is decoded, searched
//! for the player's nickname and classified; an event whose line repeats that
//! of the event accepted just before it is dropped. At the end the accepted
//! events are put newest first.

use crate::event::{event_views, opt_event_view, opt_text, EventView, PlayerEvent};
use crate::grammar::{classified, lemma_classified_keeps_line, Grammars};
use crate::text::{
    decode_lossy, find_from, first_occurrence, from_chars_range, lemma_first_occurrence,
    lossy_text, occurs_at, to_chars,
};
use crate::timeline::{later_prefix, lemma_one_more_event};
use vstd::prelude::*;
use vstd::slice::slice_subrange;
use vstd::string::*;

verus! {

/// What comes before a nickname in the line that announces it.
pub const NICKNAME_MARKER: &'static str = "nickname=\"";

/// The nickname that a line announces: what stands between the first
/// `nickname="` and the next double quote.
pub open spec fn nickname_in(line: Seq<char>) -> Option<Seq<char>> {
    match first_occurrence(line, NICKNAME_MARKER@, 0) {
        Some(i) => {
            let start = i + NICKNAME_MARKER@.len();
            match first_occurrence(line, seq!['"'], start) {
                Some(j) => Some(line.subrange(start, j)),
                None => None,
            }
        },
        None => None,
    }
}

/// Finds the nickname that a line announces.
pub fn extract_nickname(line: &str) -> (r: Option<String>)
    ensures
        opt_text(r) == nickname_in(line@),
{
    let hay = to_chars(line);
    let marker = to_chars(NICKNAME_MARKER);
    let mut quote: Vec<char> = Vec::new();
    quote.push('"');
    assert(quote@ =~= seq!['"']);
    proof {
        lemma_first_occurrence(hay@, marker@, 0);
    }
    match find_from(&hay, &marker, 0) {
        Some(i) => {
            let total: usize = hay.len();
            assert(occurs_at(hay@, marker@, i as int));
            assert(i + marker@.len() <= total);
            let start: usize = i + marker.len();
            proof {
                lemma_first_occurrence(hay@, quote@, start as int);
            }
            match find_from(&hay, &quote, start) {
                Some(j) => Some(from_chars_range(&hay, start, j)),
                None => None,
            }
        },
        None => None,
    }
}

/// The accepted events with one more reading: an event is added unless its
/// line is that of the event accepted last.
pub open spec fn accept(accepted: Seq<EventView>, reading: Option<EventView>) -> Seq<EventView> {
    match reading {
        Some(e) => if accepted.len() > 0 && accepted.last().raw == e.raw {
            accepted
        } else {
            accepted.push(e)
        },
        None => accepted,
    }
}

/// What an ingestion has gathered so far.
pub struct IngestView {
    /// The accepted events, in the order of their lines.
    pub accepted: Seq<EventView>,
    /// The first nickname that a line announced.
    pub nickname: Option<Seq<char>>,
}

/// The state after one more line.
pub open spec fn step(state: IngestView, line: Seq<char>) -> IngestView {
    IngestView {
        accepted: accept(state.accepted, classified(line)),
        nickname: if state.nickname is None {
            nickname_in(line)
        } else {
            state.nickname
        },
    }
}

/// The state before the first line.
pub open spec fn initial() -> IngestView {
    IngestView { accepted: Seq::empty(), nickname: None }
}

/// The state after the given lines, taken in order.
pub open spec fn after_lines(state: IngestView, lines: Seq<Seq<char>>) -> IngestView
    decreases lines.len(),
{
    if lines.len() == 0 {
        state
    } else {
        after_lines(step(state, lines[0]), lines.drop_first())
    }
}

/// Where the record that starts at `from` ends: behind its line feed, or
/// at the end of the bytes.
pub open spec fn record_end(bytes: Seq<u8>, from: int) -> int
    decreases bytes.len() - from,
{
    if from >= bytes.len() {
        bytes.len() as int
    } else if bytes[from] == 10 {
        from + 1
    } else {
        record_end(bytes, from + 1)
    }
}

/// The records of a log: each ends with a line feed, but the last where
/// the log does not end with one.
pub open spec fn records(bytes: Seq<u8>) -> Seq<Seq<u8>>
    decreases bytes.len(),
{
    if bytes.len() == 0 {
        Seq::empty()
    } else {
        let end = record_end(bytes, 0);
        if 0 < end <= bytes.len() {
            seq![bytes.take(end)] + records(bytes.skip(end))
        } else {
            Seq::empty()
        }
    }
}

/// A record without its line ending: without the line feed at its end, and
/// then without the carriage return before that line feed.
pub open spec fn line_body(record: Seq<u8>) -> Seq<u8> {
    if record.len() > 0 && record.last() == 10 {
        let cut = record.drop_last();
        if cut.len() > 0 && cut.last() == 13 {
            cut.drop_last()
        } else {
            cut
        }
    } else {
        record
    }
}

/// The line of a record: its body, decoded.
pub open spec fn record_line(record: Seq<u8>) -> Seq<char> {
    lossy_text(line_body(record))
}

/// The lines of a sequence of records.
pub open spec fn record_lines(records: Seq<Seq<u8>>) -> Seq<Seq<char>> {
    records.map_values(|r: Seq<u8>| record_line(r))
}

/// Where `e` goes among events in ascending order of time: behind every
/// event that is not later than it.
pub open spec fn place_ascending(sorted: Seq<EventView>, e: EventView) -> Seq<EventView>
    decreases sorted.len(),
{
    if sorted.len() > 0 && e.timestamp.before(sorted.last().timestamp) {
        place_ascending(sorted.drop_last(), e).push(sorted.last())
    } else {
        sorted.push(e)
    }
}

/// The events in ascending order of time, those of one instant in the
/// order given.
pub open spec fn stable_ascending(events: Seq<EventView>) -> Seq<EventView>
    decreases events.len(),
{
    if events.len() == 0 {
        Seq::empty()
    } else {
        place_ascending(stable_ascending(events.drop_last()), events.last())
    }
}

/// The events newest first, those of one instant in the reverse of the
/// order given.
pub open spec fn newest_first(events: Seq<EventView>) -> Seq<EventView> {
    stable_ascending(events).reverse()
}

/// The outcome of one ingestion.
#[derive(Debug, PartialEq, Eq)]
pub struct ParsedLog {
    /// The events, newest first.
    pub events: Vec<PlayerEvent>,
    /// The first nickname that a line announced.
    pub primary_nickname: Option<String>,
}

/// The outcome of an ingestion, its events and strings as views.
pub struct ParsedLogView {
    pub events: Seq<EventView>,
    pub primary_nickname: Option<Seq<char>>,
}

impl View for ParsedLog {
    type V = ParsedLogView;

    open spec fn view(&self) -> ParsedLogView {
        ParsedLogView {
            events: event_views(self.events@),
            primary_nickname: opt_text(self.primary_nickname),
        }
    }
}

/// The outcome of an ingestion that has gathered `state`.
pub open spec fn outcome(state: IngestView) -> ParsedLogView {
    ParsedLogView { events: newest_first(state.accepted), primary_nickname: state.nickname }
}

/// The outcome of ingesting a whole log.
pub open spec fn log_of(bytes: Seq<u8>) -> ParsedLogView {
    outcome(after_lines(initial(), record_lines(records(bytes))))
}

/// An ingestion under way: what the lines fed so far have given.
#[derive(Debug)]
pub struct Ingestor {
    /// The accepted events, in the order of their lines.
    pub accepted: Vec<PlayerEvent>,
    /// The first nickname that a line announced.
    pub primary_nickname: Option<String>,
}

impl View for Ingestor {
    type V = IngestView;

    open spec fn view(&self) -> IngestView {
        IngestView {
            accepted: event_views(self.accepted@),
            nickname: opt_text(self.primary_nickname),
        }
    }
}

/// Puts `e` into events in ascending order of time, behind every event that
/// is not later than it. The search starts at the end, so an event that is
/// no earlier than the last one is placed at once.
pub fn insert_ascending(sorted: &mut Vec<PlayerEvent>, e: PlayerEvent)
    ensures
        event_views(final(sorted)@) == place_ascending(event_views(old(sorted)@), e@),
{
    let mut j: usize = sorted.len();
    while j > 0 && e.timestamp.is_before(&sorted[j - 1].timestamp)
        invariant
            j <= sorted.len(),
            sorted == old(sorted),
            forall|k: int| j <= k < sorted.len() ==> e.timestamp.before(sorted@[k].timestamp),
        decreases j,
    {
        j -= 1;
    }
    proof {
        lemma_place_ascending(event_views(sorted@), e@, j as int);
    }
    sorted.insert(j, e);
    assert(event_views(sorted@) =~= event_views(old(sorted)@).insert(j as int, e@));
}

/// Where every event from index `j` on is later than `e`, and the one before
/// index `j` is not, `e` goes to index `j`.
pub proof fn lemma_place_ascending(sorted: Seq<EventView>, e: EventView, j: int)
    requires
        0 <= j <= sorted.len(),
        forall|k: int| j <= k < sorted.len() ==> e.timestamp.before(sorted[k].timestamp),
        j > 0 ==> !e.timestamp.before(sorted[j - 1].timestamp),
    ensures
        place_ascending(sorted, e) == sorted.insert(j, e),
    decreases sorted.len(),
{
    if j == sorted.len() {
        assert(sorted.insert(j, e) =~= sorted.push(e));
    } else {
        lemma_place_ascending(sorted.drop_last(), e, j);
        assert(sorted.drop_last().insert(j, e).push(sorted.last()) =~= sorted.insert(j, e));
    }
}

/// Puts events newest first, those of one instant in the reverse of the
/// order given. Events that come in the order of their time, as the lines
/// of a log do, are placed in one pass.
pub fn sort_newest_first(events: Vec<PlayerEvent>) -> (r: Vec<PlayerEvent>)
    ensures
        event_views(r@) == newest_first(event_views(events@)),
{
    let ghost all = event_views(events@);
    let mut ascending: Vec<PlayerEvent> = Vec::new();
    assert(event_views(ascending@) =~= stable_ascending(all.take(0)));
    for e in it: events
        invariant
            event_views(it.seq()) == all,
            event_views(ascending@) == stable_ascending(all.take(it.index())),
    {
        proof {
            let t = all.take(it.index() + 1);
            assert(t.drop_last() =~= all.take(it.index()));
            assert(t.last() == e@);
        }
        insert_ascending(&mut ascending, e);
    }
    assert(all.take(all.len() as int) =~= all);
    let ghost up = event_views(ascending@);
    let mut out: Vec<PlayerEvent> = Vec::new();
    while ascending.len() > 0
        invariant
            ascending@.len() <= up.len(),
            event_views(ascending@) == up.take(ascending@.len() as int),
            out@.len() + ascending@.len() == up.len(),
            forall|k: int| 0 <= k < out@.len() ==> out@[k]@ == up[up.len() - 1 - k],
        decreases ascending.len(),
    {
        let ghost before = ascending@;
        match ascending.pop() {
            Some(e) => {
                assert(e@ == event_views(before)[before.len() - 1]);
                out.push(e);
                assert(event_views(ascending@) =~= up.take(ascending@.len() as int));
            },
            None => {},
        }
    }
    assert(event_views(out@) =~= up.reverse());
    out
}

impl Ingestor {
    /// An ingestion that has seen no line.
    pub fn new() -> (r: Ingestor)
        ensures
            r@ == initial(),
    {
        let r = Ingestor { accepted: Vec::new(), primary_nickname: None };
        assert(event_views(r.accepted@) =~= Seq::empty());
        r
    }

    /// Adds what the classifier read in a line: its event, unless the
    /// event's line is that of the event accepted last.
    pub fn accept_reading(&mut self, reading: Option<PlayerEvent>)
        ensures
            final(self).primary_nickname == old(self).primary_nickname,
            event_views(final(self).accepted@) == accept(
                event_views(old(self).accepted@),
                opt_event_view(reading),
            ),
    {
        match reading {
            Some(event) => {
                let n: usize = self.accepted.len();
                let is_duplicate = n > 0 && self.accepted[n - 1].raw == event.raw;
                if !is_duplicate {
                    self.accepted.push(event);
                    assert(event_views(self.accepted@) =~= event_views(old(self).accepted@).push(
                        event@,
                    ));
                }
            },
            None => {},
        }
    }

    /// Takes one line of the log.
    pub fn feed_line(&mut self, grammars: &Grammars, line: &str)
        ensures
            final(self)@ == step(old(self)@, line@),
    {
        if self.primary_nickname.is_none() {
            self.primary_nickname = extract_nickname(line);
        }
        self.accept_reading(grammars.parse_line(line));
    }

    /// Takes one record of the log, as it was read up to and with its line
    /// feed.
    pub fn feed_record(&mut self, grammars: &Grammars, record: &[u8])
        ensures
            final(self)@ == step(old(self)@, record_line(record@)),
    {
        let line = decode_lossy(strip_line_ending(record));
        self.feed_line(grammars, line.as_str());
    }

    /// Ends the ingestion: the accepted events, newest first, and the
    /// nickname.
    pub fn finish(self) -> (r: ParsedLog)
        ensures
            r@ == outcome(self@),
    {
        ParsedLog {
            events: sort_newest_first(self.accepted),
            primary_nickname: self.primary_nickname,
        }
    }
}

/// What is shown where the log could not be opened.
pub fn open_failure(path: &str, cause: &str) -> (r: String)
    ensures
        r@ == "Failed to open "@ + path@ + ": "@ + cause@,
{
    let mut out = "Failed to open ".to_owned();
    out.append(path);
    out.append(": ");
    out.append(cause);
    out
}

/// What is shown where reading the log broke off.
pub fn read_failure(path: &str, cause: &str) -> (r: String)
    ensures
        r@ == "Failed to read line from "@ + path@ + ": "@ + cause@,
{
    let mut out = "Failed to read line from ".to_owned();
    out.append(path);
    out.append(": ");
    out.append(cause);
    out
}

/// A record without its line ending.
pub fn strip_line_ending(record: &[u8]) -> (r: &[u8])
    ensures
        r@ == line_body(record@),
{
    let n: usize = record.len();
    if n > 0 && record[n - 1] == 10 {
        let cut: usize = if n > 1 && record[n - 2] == 13 {
            n - 2
        } else {
            n - 1
        };
        let r = slice_subrange(record, 0, cut);
        proof {
            let dropped = record@.drop_last();
            assert(dropped =~= record@.subrange(0, n - 1));
            if cut == n - 2 {
                assert(dropped.last() == 13);
                assert(r@ =~= dropped.drop_last());
            } else {
                assert(r@ =~= dropped);
            }
        }
        r
    } else {
        let r = slice_subrange(record, 0, n);
        assert(r@ =~= record@);
        r
    }
}

/// Where the record that starts at `from` ends.
pub fn find_record_end(bytes: &[u8], from: usize) -> (r: usize)
    requires
        from <= bytes.len(),
    ensures
        r == record_end(bytes@, from as int),
        from <= r <= bytes.len(),
        from < bytes.len() ==> from < r,
{
    let mut i: usize = from;
    while i < bytes.len() && bytes[i] != 10
        invariant
            from <= i <= bytes.len(),
            record_end(bytes@, from as int) == record_end(bytes@, i as int),
        decreases bytes.len() - i,
    {
        i += 1;
    }
    if i < bytes.len() {
        i + 1
    } else {
        i
    }
}

/// Ingests a whole log.
pub fn parse_log(grammars: &Grammars, bytes: &[u8]) -> (r: ParsedLog)
    ensures
        r@ == log_of(bytes@),
{
    let mut state = Ingestor::new();
    let mut i: usize = 0;
    assert(bytes@.skip(0) =~= bytes@);
    while i < bytes.len()
        invariant
            i <= bytes.len(),
            after_lines(state@, record_lines(records(bytes@.skip(i as int)))) == after_lines(
                initial(),
                record_lines(records(bytes@)),
            ),
        decreases bytes.len() - i,
    {
        let end: usize = find_record_end(bytes, i);
        let record = slice_subrange(bytes, i, end);
        proof {
            let rest = bytes@.skip(i as int);
            lemma_record_end_skip(bytes@, i as int, i as int);
            assert(record_end(rest, 0) == end - i);
            assert(rest.take(end - i) =~= record@);
            assert(rest.skip(end - i) =~= bytes@.skip(end as int));
            let rs = records(rest);
            assert(rs == seq![record@] + records(bytes@.skip(end as int)));
            assert(record_lines(rs)[0] == record_line(record@));
            assert(record_lines(rs).drop_first() =~= record_lines(
                records(bytes@.skip(end as int)),
            ));
        }
        state.feed_record(grammars, record);
        i = end;
    }
    assert(records(bytes@.skip(i as int)) =~= Seq::<Seq<u8>>::empty());
    state.finish()
}

/// A record ends at the same byte whether the bytes before its start are
/// there or not.
pub proof fn lemma_record_end_skip(bytes: Seq<u8>, start: int, from: int)
    requires
        0 <= start <= from <= bytes.len(),
    ensures
        record_end(bytes.skip(start), from - start) == record_end(bytes, from) - start,
    decreases bytes.len() - from,
{
    if from < bytes.len() {
        assert(bytes.skip(start)[from - start] == bytes[from]);
        if bytes[from] != 10 {
            lemma_record_end_skip(bytes, start, from + 1);
        }
    }
}

/// A line that stands for an event and comes twice in a row gives one
/// event: the second time changes nothing. Where the event accepted before
/// was read from another line, the two lines add exactly their one event.
pub proof fn lemma_repeated_line_counts_once(state: IngestView, line: Seq<char>)
    requires
        classified(line) is Some,
    ensures
        step(step(state, line), line).accepted == step(state, line).accepted,
        step(state, line).accepted.len() > 0,
        step(state, line).accepted.last().raw == line,
        state.accepted.len() == 0 || state.accepted.last().raw != line ==> step(
            step(state, line),
            line,
        ).accepted == state.accepted.push(classified(line)->0),
{
    lemma_classified_keeps_line(line);
}

/// Of two equal lines that stand for an event, with a different line that
/// stands for an event between them, both are kept.
pub proof fn lemma_separated_repeats_are_kept(
    state: IngestView,
    line: Seq<char>,
    between: Seq<char>,
)
    requires
        classified(line) is Some,
        classified(between) is Some,
        between != line,
    ensures
        step(step(step(state, line), between), line).accepted == step(state, line).accepted.push(
            classified(between)->0,
        ).push(classified(line)->0),
{
    lemma_classified_keeps_line(line);
    lemma_classified_keeps_line(between);
    lemma_repeated_line_counts_once(state, line);
}

/// Ingestion is a function of the bytes: the same bytes give the same
/// events in the same order, and the same nickname.
pub proof fn lemma_same_bytes_same_log(
    bytes: Seq<u8>,
    first: ParsedLogView,
    again: Seq<u8>,
    second: ParsedLogView,
)
    requires
        first == log_of(bytes),
        second == log_of(again),
        bytes == again,
    ensures
        first == second,
{
}

/// The state after lines and one more is the state after the lines, one
/// step on.
pub proof fn lemma_after_one_more_line(state: IngestView, lines: Seq<Seq<char>>, line: Seq<char>)
    ensures
        after_lines(state, lines.push(line)) == step(after_lines(state, lines), line),
    decreases lines.len(),
{
    let longer = lines.push(line);
    if lines.len() == 0 {
        assert(longer.drop_first() =~= lines);
        assert(longer[0] == line);
        assert(after_lines(state, longer) == after_lines(step(state, line), lines));
    } else {
        lemma_after_one_more_line(step(state, lines[0]), lines.drop_first(), line);
        assert(longer.drop_first() =~= lines.drop_first().push(line));
        assert(longer[0] == lines[0]);
        assert(after_lines(state, longer) == after_lines(
            step(state, lines[0]),
            longer.drop_first(),
        ));
    }
}

/// Whether a record can stand at the end of a log: it is not empty and has
/// no line feed but, if any, its last byte.
pub open spec fn is_record(record: Seq<u8>) -> bool {
    record.len() > 0 && forall|i: int| 0 <= i < record.len() - 1 ==> record[i] != 10
}

/// Whether a log ends where a record does: it is empty or ends with a line
/// feed.
pub open spec fn ends_with_record(bytes: Seq<u8>) -> bool {
    bytes.len() == 0 || bytes.last() == 10
}

/// A record ends at its last byte.
pub proof fn lemma_record_end_of_record(record: Seq<u8>, from: int)
    requires
        is_record(record),
        0 <= from <= record.len(),
    ensures
        record_end(record, from) == record.len(),
    decreases record.len() - from,
{
    if from < record.len() && record[from] != 10 {
        lemma_record_end_of_record(record, from + 1);
    }
}

/// In a log that ends with a line feed, the first record ends within the
/// log, whatever follows the log.
pub proof fn lemma_record_end_within(bytes: Seq<u8>, more: Seq<u8>, from: int)
    requires
        bytes.len() > 0,
        bytes.last() == 10,
        0 <= from < bytes.len(),
    ensures
        record_end(bytes + more, from) == record_end(bytes, from),
        from < record_end(bytes, from) <= bytes.len(),
    decreases bytes.len() - from,
{
    assert((bytes + more)[from] == bytes[from]);
    if bytes[from] != 10 {
        lemma_record_end_within(bytes, more, from + 1);
    }
}

/// A record added to a log that ends where a record does is the last
/// record of the longer log, behind those of the log.
pub proof fn lemma_records_with_one_more(bytes: Seq<u8>, record: Seq<u8>)
    requires
        ends_with_record(bytes),
        is_record(record),
    ensures
        records(bytes + record) == records(bytes).push(record),
    decreases bytes.len(),
{
    if bytes.len() == 0 {
        assert(bytes + record =~= record);
        lemma_record_end_of_record(record, 0);
        assert(record.take(record.len() as int) =~= record);
        assert(records(record.skip(record.len() as int)) =~= Seq::<Seq<u8>>::empty());
        assert(records(bytes) =~= Seq::<Seq<u8>>::empty());
        assert(records(record) =~= seq![record]);
    } else {
        lemma_record_end_within(bytes, record, 0);
        let end = record_end(bytes, 0);
        let rest = bytes.skip(end);
        assert((bytes + record).take(end) =~= bytes.take(end));
        assert((bytes + record).skip(end) =~= rest + record);
        assert(ends_with_record(rest)) by {
            if rest.len() > 0 {
                assert(rest.last() == bytes.last());
            }
        }
        lemma_records_with_one_more(rest, record);
        assert(records(bytes + record) =~= records(bytes).push(record));
    }
}

/// A log and the same log with one more line at its end, where that line
/// stands for an event and is not the line of the event accepted last: the
/// longer log gives the events of the shorter, in their order, and the new
/// event behind exactly those that are later than it.
pub proof fn lemma_one_more_trailing_line(bytes: Seq<u8>, record: Seq<u8>)
    requires
        ends_with_record(bytes),
        is_record(record),
        classified(record_line(record)) is Some,
        ({
            let before = after_lines(initial(), record_lines(records(bytes))).accepted;
            before.len() == 0 || before.last().raw != record_line(record)
        }),
    ensures
        ({
            let shorter = log_of(bytes).events;
            let e = classified(record_line(record))->0;
            let slot = later_prefix(shorter, e);
            &&& 0 <= slot <= shorter.len()
            &&& log_of(bytes + record).events == shorter.insert(slot, e)
            &&& log_of(bytes + record).events.remove(slot) == shorter
        }),
{
    lemma_records_with_one_more(bytes, record);
    let lines = record_lines(records(bytes));
    assert(record_lines(records(bytes).push(record)) =~= lines.push(record_line(record)));
    lemma_after_one_more_line(initial(), lines, record_line(record));
    lemma_classified_keeps_line(record_line(record));
    let before = after_lines(initial(), lines).accepted;
    let e = classified(record_line(record))->0;
    lemma_one_more_event(before, e);
    let after = after_lines(initial(), lines.push(record_line(record)));
    assert(after == step(after_lines(initial(), lines), record_line(record)));
    assert(after.accepted == before.push(e));
    assert(log_of(bytes).events == newest_first(before));
    assert(log_of(bytes + record).events == newest_first(after.accepted));
}

} // verus!
