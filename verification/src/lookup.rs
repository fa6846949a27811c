//! The cache of profile lookups: for each player that was asked for, how
//! far the lookup has come.
//!
//! The lookups themselves run elsewhere. The cache decides when one is
//! asked for and takes in the answers as they arrive. A player is known by
//! a key: the name, trimmed and with small ASCII letters.

use crate::event::{clone_opt, opt_text};
use crate::player_info::{PlayerInfo, PlayerInfoView};
use crate::text::{lower_ascii, to_ascii_lowercase, trim, trimmed};
use vstd::prelude::*;
use vstd::string::*;

verus! {

/// The key of a player's name: the name trimmed, with small ASCII letters.
pub open spec fn player_key(name: Seq<char>) -> Seq<char> {
    lower_ascii(trimmed(name))
}

/// The key under which a player's lookups are kept.
pub fn canonical_player_key(name: &str) -> (r: String)
    ensures
        r@ == player_key(name@),
{
    to_ascii_lowercase(trim(name).as_str())
}

/// How far the lookup of one player has come.
#[derive(Debug, PartialEq, Eq)]
pub enum PlayerInfoState {
    NotLoaded,
    Loading,
    Loaded(PlayerInfo),
    Error(String),
}

/// How far a lookup has come, its strings as sequences of characters.
pub enum StateView {
    NotLoaded,
    Loading,
    Loaded(PlayerInfoView),
    Error(Seq<char>),
}

impl View for PlayerInfoState {
    type V = StateView;

    open spec fn view(&self) -> StateView {
        match *self {
            PlayerInfoState::NotLoaded => StateView::NotLoaded,
            PlayerInfoState::Loading => StateView::Loading,
            PlayerInfoState::Loaded(info) => StateView::Loaded(info@),
            PlayerInfoState::Error(why) => StateView::Error(why@),
        }
    }
}

impl Clone for PlayerInfoState {
    fn clone(&self) -> (r: Self)
        ensures
            r == *self,
    {
        match self {
            PlayerInfoState::NotLoaded => PlayerInfoState::NotLoaded,
            PlayerInfoState::Loading => PlayerInfoState::Loading,
            PlayerInfoState::Loaded(info) => PlayerInfoState::Loaded(info.clone()),
            PlayerInfoState::Error(why) => PlayerInfoState::Error(why.clone()),
        }
    }
}

/// What the cache holds of one player.
#[derive(Debug, PartialEq, Eq)]
pub struct PlayerInfoEntry {
    pub key: String,
    pub display_name: String,
    pub state: PlayerInfoState,
}

/// What the cache holds of one player, but for the key.
pub struct EntryView {
    pub display_name: Seq<char>,
    pub state: StateView,
}

impl View for PlayerInfoEntry {
    type V = EntryView;

    open spec fn view(&self) -> EntryView {
        EntryView { display_name: self.display_name@, state: self.state@ }
    }
}

/// How a lookup ended.
#[derive(Debug, PartialEq, Eq)]
pub enum PlayerInfoResult {
    Success(PlayerInfo),
    Error(String),
}

/// The answer to a lookup.
#[derive(Debug, PartialEq, Eq)]
pub struct PlayerInfoResponse {
    pub key: String,
    pub display_name: String,
    pub result: PlayerInfoResult,
}

/// The answer to a lookup, with the state that it brings.
pub struct ResponseView {
    pub key: Seq<char>,
    pub display_name: Seq<char>,
    pub state: StateView,
}

impl View for PlayerInfoResponse {
    type V = ResponseView;

    open spec fn view(&self) -> ResponseView {
        ResponseView {
            key: self.key@,
            display_name: self.display_name@,
            state: match self.result {
                PlayerInfoResult::Success(info) => StateView::Loaded(info@),
                PlayerInfoResult::Error(why) => StateView::Error(why@),
            },
        }
    }
}

/// A lookup that is to be started.
#[derive(Debug, PartialEq, Eq)]
pub struct LookupRequest {
    pub key: String,
    pub display_name: String,
}

/// A lookup that is to be started, its strings as sequences of characters.
pub struct RequestView {
    pub key: Seq<char>,
    pub display_name: Seq<char>,
}

impl View for LookupRequest {
    type V = RequestView;

    open spec fn view(&self) -> RequestView {
        RequestView { key: self.key@, display_name: self.display_name@ }
    }
}

/// The view of an optional request.
pub open spec fn opt_request(o: Option<LookupRequest>) -> Option<RequestView> {
    match o {
        Some(r) => Some(r@),
        None => None,
    }
}

/// The cache as a map from keys, and the key of the player whose window is
/// open.
pub struct CacheView {
    pub entries: Map<Seq<char>, EntryView>,
    pub window: Option<Seq<char>>,
}

/// The state on record for a key; a key that is not there was not
/// looked up.
pub open spec fn state_of(cache: CacheView, key: Seq<char>) -> StateView {
    if cache.entries.contains_key(key) {
        cache.entries[key].state
    } else {
        StateView::NotLoaded
    }
}

/// Whether opening a player's window starts a lookup: the name is more than
/// white space, and no lookup has been made or the last one failed.
pub open spec fn open_starts_lookup(cache: CacheView, name: Seq<char>) -> bool {
    trimmed(name).len() > 0 && (state_of(cache, player_key(trimmed(name))) is NotLoaded
        || state_of(cache, player_key(trimmed(name))) is Error)
}

/// The cache after a player's window was opened. A name that is nothing but
/// white space changes nothing.
pub open spec fn opened(cache: CacheView, name: Seq<char>) -> CacheView {
    let display = trimmed(name);
    let key = player_key(display);
    if display.len() == 0 {
        cache
    } else {
        CacheView {
            entries: cache.entries.insert(
                key,
                EntryView {
                    display_name: display,
                    state: if open_starts_lookup(cache, name) {
                        StateView::Loading
                    } else {
                        state_of(cache, key)
                    },
                },
            ),
            window: Some(key),
        }
    }
}

/// The lookup that opening a player's window starts, if it starts one.
pub open spec fn open_request(cache: CacheView, name: Seq<char>) -> Option<RequestView> {
    if open_starts_lookup(cache, name) {
        Some(RequestView { key: player_key(trimmed(name)), display_name: trimmed(name) })
    } else {
        None
    }
}

/// The cache after an answer arrived: the answer replaces what was on
/// record for its key.
pub open spec fn received(cache: CacheView, response: ResponseView) -> CacheView {
    CacheView {
        entries: cache.entries.insert(
            response.key,
            EntryView { display_name: response.display_name, state: response.state },
        ),
        ..cache
    }
}

/// Whether asking again, for the player whose window is open, starts a
/// lookup: a window is open and no lookup for its player is under way.
pub open spec fn retry_starts_lookup(cache: CacheView) -> bool {
    cache.window matches Some(key) && !(state_of(cache, key) is Loading)
}

/// The cache after the user asked again.
pub open spec fn retried(cache: CacheView) -> CacheView {
    match cache.window {
        Some(key) => if retry_starts_lookup(cache) && cache.entries.contains_key(key) {
            CacheView {
                entries: cache.entries.insert(
                    key,
                    EntryView {
                        display_name: cache.entries[key].display_name,
                        state: StateView::Loading,
                    },
                ),
                ..cache
            }
        } else {
            cache
        },
        None => cache,
    }
}

/// The lookup that asking again starts, if it starts one: for the player
/// whose window is open, under the name on record or else under the key.
pub open spec fn retry_request(cache: CacheView) -> Option<RequestView> {
    match cache.window {
        Some(key) => if retry_starts_lookup(cache) {
            Some(
                RequestView {
                    key,
                    display_name: if cache.entries.contains_key(key) {
                        cache.entries[key].display_name
                    } else {
                        key
                    },
                },
            )
        } else {
            None
        },
        None => None,
    }
}

/// The title of the player's window.
pub open spec fn window_title_text(cache: CacheView) -> Seq<char> {
    match cache.window {
        Some(key) => if cache.entries.contains_key(key) {
            "Player info — "@ + cache.entries[key].display_name
        } else {
            "Player info"@
        },
        None => "Player info"@,
    }
}

/// The map that a list of entries stands for; of two entries with one key
/// the later counts.
pub open spec fn entries_map(entries: Seq<PlayerInfoEntry>) -> Map<Seq<char>, EntryView>
    decreases entries.len(),
{
    if entries.len() == 0 {
        Map::empty()
    } else {
        entries_map(entries.drop_last()).insert(entries.last().key@, entries.last()@)
    }
}

/// Whether no two entries have one key.
pub open spec fn distinct_keys(entries: Seq<PlayerInfoEntry>) -> bool {
    forall|i: int, j: int|
        0 <= i < j < entries.len() ==> (#[trigger] entries[i]).key@ != (#[trigger] entries[j]).key@
}

/// The map holds exactly the keys of the entries, each with its entry.
pub proof fn lemma_entries_map(entries: Seq<PlayerInfoEntry>)
    requires
        distinct_keys(entries),
    ensures
        forall|i: int|
            0 <= i < entries.len() ==> entries_map(entries).contains_key(
                (#[trigger] entries[i]).key@,
            ) && entries_map(entries)[entries[i].key@] == entries[i]@,
        forall|k: Seq<char>| #[trigger]
            entries_map(entries).contains_key(k) ==> exists|i: int|
                0 <= i < entries.len() && (#[trigger] entries[i]).key@ == k,
    decreases entries.len(),
{
    if entries.len() > 0 {
        let front = entries.drop_last();
        assert(distinct_keys(front)) by {
            assert forall|i: int, j: int| 0 <= i < j < front.len() implies (#[trigger] front[i]).key@
                != (#[trigger] front[j]).key@ by {
                assert(front[i] == entries[i] && front[j] == entries[j]);
            }
        }
        lemma_entries_map(front);
        assert forall|i: int| 0 <= i < entries.len() implies entries_map(entries).contains_key(
            (#[trigger] entries[i]).key@,
        ) && entries_map(entries)[entries[i].key@] == entries[i]@ by {
            if i < front.len() {
                assert(front[i] == entries[i]);
                assert(entries[i].key@ != entries[entries.len() - 1].key@);
            }
        }
        assert forall|k: Seq<char>| #[trigger]
            entries_map(entries).contains_key(k) implies exists|i: int|
            0 <= i < entries.len() && (#[trigger] entries[i]).key@ == k by {
            if k == entries.last().key@ {
                assert(entries[entries.len() - 1].key@ == k);
            } else {
                assert(entries_map(front).contains_key(k));
                let i = choose|i: int| 0 <= i < front.len() && (#[trigger] front[i]).key@ == k;
                assert(entries[i].key@ == k);
            }
        }
    }
}

/// Replacing an entry by one with the same key replaces it in the map.
pub proof fn lemma_entries_map_update(
    entries: Seq<PlayerInfoEntry>,
    i: int,
    entry: PlayerInfoEntry,
)
    requires
        distinct_keys(entries),
        0 <= i < entries.len(),
        entry.key@ == entries[i].key@,
    ensures
        distinct_keys(entries.update(i, entry)),
        entries_map(entries.update(i, entry)) == entries_map(entries).insert(entry.key@, entry@),
    decreases entries.len(),
{
    let updated = entries.update(i, entry);
    assert(distinct_keys(updated)) by {
        assert forall|a: int, b: int| 0 <= a < b < updated.len() implies (#[trigger] updated[a]).key@
            != (#[trigger] updated[b]).key@ by {
            assert(entries[a].key@ != entries[b].key@);
        }
    }
    let front = entries.drop_last();
    if i == entries.len() - 1 {
        assert(updated.drop_last() =~= front);
        assert(entries_map(updated) =~= entries_map(entries).insert(entry.key@, entry@));
    } else {
        assert(distinct_keys(front)) by {
            assert forall|a: int, b: int| 0 <= a < b < front.len() implies (#[trigger] front[a]).key@
                != (#[trigger] front[b]).key@ by {
                assert(front[a] == entries[a] && front[b] == entries[b]);
            }
        }
        assert(front[i] == entries[i]);
        lemma_entries_map_update(front, i, entry);
        assert(updated.drop_last() =~= front.update(i, entry));
        assert(updated.last() == entries.last());
        assert(entries[i].key@ != entries[entries.len() - 1].key@);
        assert(entries_map(updated) =~= entries_map(entries).insert(entry.key@, entry@));
    }
}

/// The cache of profile lookups.
#[derive(Debug)]
pub struct PlayerInfoCache {
    entries: Vec<PlayerInfoEntry>,
    window: Option<String>,
}

impl View for PlayerInfoCache {
    type V = CacheView;

    closed spec fn view(&self) -> CacheView {
        CacheView { entries: entries_map(self.entries@), window: opt_text(self.window) }
    }
}

impl PlayerInfoCache {
    /// The cache is well formed: no two entries have one key.
    pub closed spec fn wf(&self) -> bool {
        distinct_keys(self.entries@)
    }

    /// A cache that holds nothing, with no window open.
    pub fn new() -> (r: PlayerInfoCache)
        ensures
            r.wf(),
            r@ == (CacheView { entries: Map::empty(), window: None }),
    {
        PlayerInfoCache { entries: Vec::new(), window: None }
    }

    /// Where the entry of a key stands.
    fn position(&self, key: &str) -> (r: Option<usize>)
        ensures
            match r {
                Some(i) => i < self.entries@.len() && self.entries@[i as int].key@ == key@,
                None => forall|i: int|
                    0 <= i < self.entries@.len() ==> (#[trigger] self.entries@[i]).key@ != key@,
            },
    {
        let wanted = key.to_owned();
        let mut i: usize = 0;
        while i < self.entries.len()
            invariant
                i <= self.entries.len(),
                wanted@ == key@,
                forall|j: int| 0 <= j < i ==> (#[trigger] self.entries@[j]).key@ != key@,
            decreases self.entries.len() - i,
        {
            if self.entries[i].key == wanted {
                return Some(i);
            }
            i += 1;
        }
        None
    }

    /// Puts an entry in the place of the one with its key, or behind the
    /// others where there is none.
    fn put(&mut self, entry: PlayerInfoEntry)
        requires
            old(self).wf(),
        ensures
            final(self).wf(),
            final(self)@ == (CacheView {
                entries: old(self)@.entries.insert(entry.key@, entry@),
                window: old(self)@.window,
            }),
    {
        proof {
            lemma_entries_map(self.entries@);
        }
        match self.position(entry.key.as_str()) {
            Some(i) => {
                proof {
                    lemma_entries_map_update(self.entries@, i as int, entry);
                }
                self.entries.set(i, entry);
            },
            None => {
                let ghost before = self.entries@;
                assert(distinct_keys(before.push(entry))) by {
                    assert forall|a: int, b: int|
                        0 <= a < b < before.push(entry).len() implies (#[trigger] before.push(
                        entry,
                    )[a]).key@ != (#[trigger] before.push(entry)[b]).key@ by {
                        if b < before.len() {
                            assert(before[a].key@ != before[b].key@);
                        } else {
                            assert(before[a].key@ != entry.key@);
                        }
                    }
                }
                assert(before.push(entry).drop_last() =~= before);
                self.entries.push(entry);
            },
        }
    }

    /// What the cache holds for a key.
    pub fn get(&self, key: &str) -> (r: Option<&PlayerInfoEntry>)
        requires
            self.wf(),
        ensures
            match r {
                Some(e) => self@.entries.contains_key(key@) && self@.entries[key@] == e@ && e.key@
                    == key@,
                None => !self@.entries.contains_key(key@),
            },
    {
        proof {
            lemma_entries_map(self.entries@);
        }
        match self.position(key) {
            Some(i) => Some(&self.entries[i]),
            None => None,
        }
    }

    /// The key of the player whose window is open.
    pub fn window(&self) -> (r: Option<&String>)
        ensures
            match r {
                Some(k) => self@.window == Some(k@),
                None => self@.window is None,
            },
    {
        self.window.as_ref()
    }

    /// Opens the window of a player, and says which lookup to start, if
    /// any: one is started where none was made yet or the last one failed,
    /// and none while one is under way.
    pub fn open_player_info(&mut self, name: &str) -> (r: Option<LookupRequest>)
        requires
            old(self).wf(),
        ensures
            final(self).wf(),
            final(self)@ == opened(old(self)@, name@),
            opt_request(r) == open_request(old(self)@, name@),
    {
        let display = trim(name);
        if display.as_str().is_empty() {
            return None;
        }
        let key = canonical_player_key(display.as_str());
        let (state, should_request) = match self.get(key.as_str()) {
            Some(entry) => match &entry.state {
                PlayerInfoState::NotLoaded => (PlayerInfoState::Loading, true),
                PlayerInfoState::Error(_) => (PlayerInfoState::Loading, true),
                other => (other.clone(), false),
            },
            None => (PlayerInfoState::Loading, true),
        };
        self.put(PlayerInfoEntry { key: key.clone(), display_name: display.clone(), state });
        self.window = Some(key.clone());
        if should_request {
            Some(LookupRequest { key, display_name: display })
        } else {
            None
        }
    }

    /// Takes in the answer to a lookup: it replaces what was on record for
    /// its key, whatever that was.
    pub fn receive(&mut self, response: PlayerInfoResponse)
        requires
            old(self).wf(),
        ensures
            final(self).wf(),
            final(self)@ == received(old(self)@, response@),
    {
        let state = match response.result {
            PlayerInfoResult::Success(info) => PlayerInfoState::Loaded(info),
            PlayerInfoResult::Error(why) => PlayerInfoState::Error(why),
        };
        self.put(PlayerInfoEntry { key: response.key, display_name: response.display_name, state });
    }

    /// Takes in the answers that have arrived, in their order.
    pub fn poll_player_info_responses(&mut self, responses: Vec<PlayerInfoResponse>)
        requires
            old(self).wf(),
        ensures
            final(self).wf(),
            final(self)@ == received_all(old(self)@, response_views(responses@)),
    {
        let ghost all = response_views(responses@);
        let ghost start = self@;
        assert(all.take(0) =~= Seq::<ResponseView>::empty());
        for response in it: responses
            invariant
                self.wf(),
                response_views(it.seq()) == all,
                self@ == received_all(start, all.take(it.index())),
        {
            proof {
                let t = all.take(it.index() + 1);
                assert(t.drop_last() =~= all.take(it.index()));
                assert(t.last() == response@);
            }
            self.receive(response);
        }
        assert(all.take(all.len() as int) =~= all);
    }

    /// Asks again for the player whose window is open, and says which
    /// lookup to start, if any: none while one is under way.
    pub fn retry(&mut self) -> (r: Option<LookupRequest>)
        requires
            old(self).wf(),
        ensures
            final(self).wf(),
            final(self)@ == retried(old(self)@),
            opt_request(r) == retry_request(old(self)@),
    {
        let key = match &self.window {
            Some(key) => key.clone(),
            None => {
                return None;
            },
        };
        let display = match self.get(key.as_str()) {
            Some(entry) => match &entry.state {
                PlayerInfoState::Loading => {
                    return None;
                },
                _ => Some(entry.display_name.clone()),
            },
            None => None,
        };
        match display {
            Some(display_name) => {
                self.put(
                    PlayerInfoEntry {
                        key: key.clone(),
                        display_name: display_name.clone(),
                        state: PlayerInfoState::Loading,
                    },
                );
                Some(LookupRequest { key, display_name })
            },
            None => Some(LookupRequest { key: key.clone(), display_name: key }),
        }
    }

    /// Closes the player's window.
    pub fn close_window(&mut self)
        requires
            old(self).wf(),
        ensures
            final(self).wf(),
            final(self)@ == (CacheView { window: None, ..old(self)@ }),
    {
        self.window = None;
    }

    /// The title of the player's window.
    pub fn window_title(&self) -> (r: String)
        requires
            self.wf(),
        ensures
            r@ == window_title_text(self@),
    {
        match &self.window {
            Some(key) => match self.get(key.as_str()) {
                Some(entry) => {
                    let mut title = "Player info — ".to_owned();
                    title.append(entry.display_name.as_str());
                    title
                },
                None => "Player info".to_owned(),
            },
            None => "Player info".to_owned(),
        }
    }
}

/// The views of a sequence of answers.
pub open spec fn response_views(v: Seq<PlayerInfoResponse>) -> Seq<ResponseView> {
    v.map_values(|r: PlayerInfoResponse| r@)
}

/// The cache after answers arrived, in their order.
pub open spec fn received_all(cache: CacheView, responses: Seq<ResponseView>) -> CacheView
    decreases responses.len(),
{
    if responses.len() == 0 {
        cache
    } else {
        received(received_all(cache, responses.drop_last()), responses.last())
    }
}

/// How a field of a profile reads: its value, or "Unknown".
pub fn field_text(value: Option<&String>) -> (r: String)
    ensures
        r@ == match value {
            Some(v) => v@,
            None => "Unknown"@,
        },
{
    match value {
        Some(v) => v.clone(),
        None => "Unknown".to_owned(),
    }
}

/// While a lookup for a player is under way, opening the player's window
/// starts no second one.
pub proof fn lemma_no_second_lookup(cache: CacheView, name: Seq<char>)
    requires
        state_of(cache, player_key(trimmed(name))) is Loading,
    ensures
        open_request(cache, name) is None,
        trimmed(name).len() > 0 ==> state_of(opened(cache, name), player_key(trimmed(name)))
            is Loading,
{
}

/// While a lookup for the player whose window is open is under way, asking
/// again starts no second one and changes nothing.
pub proof fn lemma_no_second_retry(cache: CacheView)
    requires
        cache.window matches Some(key) && state_of(cache, key) is Loading,
    ensures
        retry_request(cache) is None,
        retried(cache) == cache,
{
}

/// Of the answers for one key the one that arrived last stays on record.
pub proof fn lemma_last_answer_stays(cache: CacheView, first: ResponseView, second: ResponseView)
    requires
        first.key == second.key,
    ensures
        received(received(cache, first), second) == received(cache, second),
{
    assert(cache.entries.insert(
        first.key,
        EntryView { display_name: first.display_name, state: first.state },
    ).insert(second.key, EntryView { display_name: second.display_name, state: second.state })
        =~= cache.entries.insert(
        second.key,
        EntryView { display_name: second.display_name, state: second.state },
    ));
}

} // verus!
