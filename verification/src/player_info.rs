//! A player's public profile: what a profile page says of a player, and the
//! errors of a lookup.
//!
//! The page is fetched elsewhere and taken apart by the scraper crate. What
//! the library decides is which text becomes which field.

use crate::event::{opt_text, texts};
use crate::text::{
    from_chars_range, is_white_space, matches_ignore_case, push_decimal, decimal_digits,
    same_ignoring_ascii_case, strip_trailing, strip_trailing_bound, to_chars, trim, trim_bounds,
    trimmed,
};
use vstd::prelude::*;
use vstd::string::*;

verus! {

/// What a profile page says of a player.
#[derive(Debug, PartialEq, Eq)]
pub struct PlayerInfo {
    pub enlisted: Option<String>,
    pub location: Option<String>,
    pub fluency: Option<String>,
    pub main_organization: Option<String>,
}

/// A profile, its strings as sequences of characters.
pub struct PlayerInfoView {
    pub enlisted: Option<Seq<char>>,
    pub location: Option<Seq<char>>,
    pub fluency: Option<Seq<char>>,
    pub main_organization: Option<Seq<char>>,
}

impl View for PlayerInfo {
    type V = PlayerInfoView;

    open spec fn view(&self) -> PlayerInfoView {
        PlayerInfoView {
            enlisted: opt_text(self.enlisted),
            location: opt_text(self.location),
            fluency: opt_text(self.fluency),
            main_organization: opt_text(self.main_organization),
        }
    }
}

impl PlayerInfoView {
    /// The profile of which nothing is known.
    pub open spec fn unknown() -> PlayerInfoView {
        PlayerInfoView { enlisted: None, location: None, fluency: None, main_organization: None }
    }

    /// Whether nothing is known.
    pub open spec fn is_empty(self) -> bool {
        self.enlisted is None && self.location is None && self.fluency is None
            && self.main_organization is None
    }
}

impl Default for PlayerInfo {
    fn default() -> (r: PlayerInfo)
        ensures
            r@ == PlayerInfoView::unknown(),
    {
        PlayerInfo { enlisted: None, location: None, fluency: None, main_organization: None }
    }
}

impl Clone for PlayerInfo {
    fn clone(&self) -> (r: Self)
        ensures
            r == *self,
    {
        PlayerInfo {
            enlisted: crate::event::clone_opt(&self.enlisted),
            location: crate::event::clone_opt(&self.location),
            fluency: crate::event::clone_opt(&self.fluency),
            main_organization: crate::event::clone_opt(&self.main_organization),
        }
    }
}

impl PlayerInfo {
    /// Whether no field is known.
    pub fn is_empty(&self) -> (r: bool)
        ensures
            r == self@.is_empty(),
    {
        self.enlisted.is_none() && self.location.is_none() && self.fluency.is_none()
            && self.main_organization.is_none()
    }
}

/// Why a lookup gave no profile.
#[derive(Debug, PartialEq, Eq)]
pub enum PlayerInfoError {
    /// The request did not get through.
    Network(String),
    /// The server answered with this status, which is no success.
    Http(u16),
    /// The server knows no such player.
    NotFound,
    /// The page held nothing that could be read as a profile.
    Parse(String),
}

/// An error of a lookup, its strings as sequences of characters.
pub enum PlayerInfoErrorView {
    Network(Seq<char>),
    Http(u16),
    NotFound,
    Parse(Seq<char>),
}

impl View for PlayerInfoError {
    type V = PlayerInfoErrorView;

    open spec fn view(&self) -> PlayerInfoErrorView {
        match *self {
            PlayerInfoError::Network(s) => PlayerInfoErrorView::Network(s@),
            PlayerInfoError::Http(code) => PlayerInfoErrorView::Http(code),
            PlayerInfoError::NotFound => PlayerInfoErrorView::NotFound,
            PlayerInfoError::Parse(s) => PlayerInfoErrorView::Parse(s@),
        }
    }
}

impl Clone for PlayerInfoError {
    fn clone(&self) -> (r: Self)
        ensures
            r == *self,
    {
        match self {
            PlayerInfoError::Network(s) => PlayerInfoError::Network(s.clone()),
            PlayerInfoError::Http(code) => PlayerInfoError::Http(*code),
            PlayerInfoError::NotFound => PlayerInfoError::NotFound,
            PlayerInfoError::Parse(s) => PlayerInfoError::Parse(s.clone()),
        }
    }
}

impl PlayerInfoErrorView {
    /// The error in words.
    pub open spec fn message(self) -> Seq<char> {
        match self {
            PlayerInfoErrorView::Network(err) => "Network error: "@ + err,
            PlayerInfoErrorView::Http(code) => "HTTP error: status "@ + decimal_digits(code as nat),
            PlayerInfoErrorView::NotFound => "Citizen profile not found"@,
            PlayerInfoErrorView::Parse(err) => "Failed to parse profile: "@ + err,
        }
    }
}

impl PlayerInfoError {
    /// The error in words.
    pub fn message(&self) -> (r: String)
        ensures
            r@ == self@.message(),
    {
        match self {
            PlayerInfoError::Network(err) => {
                let mut out = "Network error: ".to_owned();
                out.append(err.as_str());
                out
            },
            PlayerInfoError::Http(code) => {
                let mut out = "HTTP error: status ".to_owned();
                push_decimal(&mut out, *code as u32);
                out
            },
            PlayerInfoError::NotFound => "Citizen profile not found".to_owned(),
            PlayerInfoError::Parse(err) => {
                let mut out = "Failed to parse profile: ".to_owned();
                out.append(err.as_str());
                out
            },
        }
    }
}

/// The first index at or after `i` that holds no white space.
pub open spec fn word_start(s: Seq<char>, i: int) -> int
    decreases s.len() - i,
{
    if 0 <= i < s.len() && is_white_space(s[i]) {
        word_start(s, i + 1)
    } else {
        i
    }
}

/// The first index at or after `i` that holds white space, or the length.
pub open spec fn word_end(s: Seq<char>, i: int) -> int
    decreases s.len() - i,
{
    if 0 <= i < s.len() && !is_white_space(s[i]) {
        word_end(s, i + 1)
    } else {
        i
    }
}

/// The words of a text from index `i` on: its runs of characters that are
/// no white space.
pub open spec fn words_from(s: Seq<char>, i: int) -> Seq<Seq<char>>
    decreases s.len() - i,
{
    let a = word_start(s, i);
    let b = word_end(s, a);
    if 0 <= i <= a < b <= s.len() {
        seq![s.subrange(a, b)] + words_from(s, b)
    } else {
        Seq::empty()
    }
}

/// The texts one after the other with `sep` between them.
pub open spec fn joined(parts: Seq<Seq<char>>, sep: Seq<char>) -> Seq<char>
    decreases parts.len(),
{
    if parts.len() == 0 {
        Seq::empty()
    } else if parts.len() == 1 {
        parts[0]
    } else {
        joined(parts.drop_last(), sep) + sep + parts.last()
    }
}

/// A text with each run of white space made one space and none at its ends.
pub open spec fn normalized_text(s: Seq<char>) -> Seq<char> {
    trimmed(joined(words_from(s, 0), seq![' ']))
}

/// A label without white space around it and without colons at its end.
pub open spec fn normalized_label(s: Seq<char>) -> Seq<char> {
    trimmed(strip_trailing(trimmed(s), ':'))
}

/// The first index at or after `i` that holds no white space.
fn find_word_start(v: &Vec<char>, i: usize) -> (a: usize)
    requires
        i <= v.len(),
    ensures
        a == word_start(v@, i as int),
        i <= a <= v.len(),
        a < v.len() ==> !is_white_space(v@[a as int]),
{
    let mut a: usize = i;
    while a < v.len() && v[a].is_whitespace()
        invariant
            i <= a <= v.len(),
            word_start(v@, i as int) == word_start(v@, a as int),
        decreases v.len() - a,
    {
        a += 1;
    }
    a
}

/// The first index at or after `i` that holds white space, or the length.
fn find_word_end(v: &Vec<char>, i: usize) -> (b: usize)
    requires
        i <= v.len(),
    ensures
        b == word_end(v@, i as int),
        i <= b <= v.len(),
        i < v.len() && !is_white_space(v@[i as int]) ==> i < b,
{
    let mut b: usize = i;
    while b < v.len() && !v[b].is_whitespace()
        invariant
            i <= b <= v.len(),
            word_end(v@, i as int) == word_end(v@, b as int),
        decreases v.len() - b,
    {
        b += 1;
    }
    b
}

/// Makes each run of white space one space and drops it at the ends.
pub fn normalize_text(input: &str) -> (r: String)
    ensures
        r@ == normalized_text(input@),
{
    let v = to_chars(input);
    let mut out = String::new();
    let ghost mut done: Seq<Seq<char>> = Seq::empty();
    let mut i: usize = 0;
    let mut first = true;
    loop
        invariant
            i <= v.len(),
            first == (done.len() == 0),
            out@ == joined(done, seq![' ']),
            words_from(v@, 0) == done + words_from(v@, i as int),
        ensures
            out@ == joined(done, seq![' ']),
            words_from(v@, 0) == done,
        decreases v.len() - i,
    {
        let a: usize = find_word_start(&v, i);
        if a >= v.len() {
            proof {
                assert(words_from(v@, i as int) =~= Seq::<Seq<char>>::empty());
                assert(done + Seq::<Seq<char>>::empty() =~= done);
            }
            break ;
        }
        let b: usize = find_word_end(&v, a);
        let ghost word = v@.subrange(a as int, b as int);
        proof {
            assert(!is_white_space(v@[a as int]));
            assert(words_from(v@, i as int) == seq![word] + words_from(v@, b as int));
            assert(done + (seq![word] + words_from(v@, b as int)) =~= done.push(word)
                + words_from(v@, b as int));
        }
        if !first {
            out.push(' ');
        }
        let ghost head = out@;
        let mut k: usize = a;
        while k < b
            invariant
                a <= k <= b <= v.len(),
                out@ == head + v@.subrange(a as int, k as int),
            decreases b - k,
        {
            out.push(v[k]);
            assert(out@ =~= head + v@.subrange(a as int, k + 1));
            k += 1;
        }
        proof {
            let next = done.push(word);
            assert(next.drop_last() =~= done);
            if done.len() == 0 {
                assert(head =~= Seq::<char>::empty());
                assert(out@ =~= word);
            } else {
                assert(head =~= joined(done, seq![' ']) + seq![' ']);
            }
            done = next;
        }
        first = false;
        i = b;
    }
    trim(out.as_str())
}

/// Drops white space around a label and colons at its end.
pub fn normalize_label(input: &str) -> (r: String)
    ensures
        r@ == normalized_label(input@),
{
    let v = to_chars(input);
    assert(v@.subrange(0, v@.len() as int) == v@);
    let (a, b) = trim_bounds(&v, 0, v.len());
    let b2: usize = strip_trailing_bound(&v, a, b, ':');
    let (a3, b3) = trim_bounds(&v, a, b2);
    from_chars_range(&v, a3, b3)
}

/// What the scraper finds of one element of a page.
#[derive(Debug, PartialEq, Eq)]
pub struct ScrapedEntry {
    /// The text of the element.
    pub text: String,
    /// The pieces that the text is made of, one for each text node.
    pub pieces: Vec<String>,
    /// The text of each label within the element.
    pub labels: Vec<String>,
    /// The text of each value within the element.
    pub values: Vec<String>,
}

/// A scraped element, its strings as sequences of characters.
pub struct ScrapedEntryView {
    pub text: Seq<char>,
    pub pieces: Seq<Seq<char>>,
    pub labels: Seq<Seq<char>>,
    pub values: Seq<Seq<char>>,
}

impl View for ScrapedEntry {
    type V = ScrapedEntryView;

    open spec fn view(&self) -> ScrapedEntryView {
        ScrapedEntryView {
            text: self.text@,
            pieces: texts(self.pieces@),
            labels: texts(self.labels@),
            values: texts(self.values@),
        }
    }
}

/// The views of a sequence of scraped elements.
pub open spec fn entry_views(v: Seq<ScrapedEntry>) -> Seq<ScrapedEntryView> {
    v.map_values(|e: ScrapedEntry| e@)
}

/// The view of an optional list of scraped elements.
pub open spec fn opt_entry_views(o: Option<Vec<ScrapedEntry>>) -> Option<Seq<ScrapedEntryView>> {
    match o {
        Some(v) => Some(entry_views(v@)),
        None => None,
    }
}

/// What `scraper::Html::select` finds in a page: one entry for each element
/// that the selector `outer` matches, in the order in which the parser put
/// the nodes into its tree. An entry holds the element's text, the pieces of
/// that text, and the texts of the elements within it that the selectors
/// `label` and `value` match; pieces and inner elements come in the order
/// in which the element's subtree is walked, depth first. `None` where the
/// scraper refuses one of the selectors.
pub uninterp spec fn scraped(
    html: Seq<char>,
    outer: Seq<char>,
    label: Seq<char>,
    value: Seq<char>,
) -> Option<Seq<ScrapedEntryView>>;

/// `scraper::Html::select`, from plain values to plain values. The page and
/// the selectors are handed to it as `scraper::Html::parse_document` and
/// `scraper::Selector::parse` make them; each element found is copied out
/// with `scraper::ElementRef::text` and `scraper::ElementRef::select`. The
/// contract only names the result.
#[verifier::external_body]
fn scrape(html: &str, outer: &str, label: &str, value: &str) -> (r: Option<Vec<ScrapedEntry>>)
    ensures
        opt_entry_views(r) == scraped(html@, outer@, label@, value@),
{
    let outer = scraper::Selector::parse(outer).ok()?;
    let label = scraper::Selector::parse(label).ok()?;
    let value = scraper::Selector::parse(value).ok()?;
    let document = scraper::Html::parse_document(html);
    Some(document.select(&outer).map(|e| ScrapedEntry {
        text: e.text().collect(),
        pieces: e.text().map(|t| t.to_string()).collect(),
        labels: e.select(&label).map(|l| l.text().collect()).collect(),
        values: e.select(&value).map(|v| v.text().collect()).collect(),
    }).collect())
}

/// The selector of the entries of a profile.
pub const ENTRY_SELECTOR: &'static str = "div.profile-content .left-col .inner p.entry";

/// The selector of a label within an entry.
pub const LABEL_SELECTOR: &'static str = ".label";

/// The selector of a value within an entry.
pub const VALUE_SELECTOR: &'static str = ".value";

/// The selector of the link to the main organization.
pub const MAIN_ORG_LINK_SELECTOR: &'static str = "div.main-org .info p.entry a.value";

/// The selector of the value that names the main organization.
pub const MAIN_ORG_VALUE_SELECTOR: &'static str = "div.main-org .info p.entry .value";

/// The pieces that are more than white space, trimmed.
pub open spec fn solid_pieces(pieces: Seq<Seq<char>>) -> Seq<Seq<char>>
    decreases pieces.len(),
{
    if pieces.len() == 0 {
        Seq::empty()
    } else if trimmed(pieces.last()).len() > 0 {
        solid_pieces(pieces.drop_last()).push(trimmed(pieces.last()))
    } else {
        solid_pieces(pieces.drop_last())
    }
}

/// The value of an entry: the text of its first value, normalized; where
/// that is empty, the solid pieces of its text with spaces between them,
/// normalized.
pub open spec fn entry_value(e: ScrapedEntryView) -> Seq<char> {
    let direct = if e.values.len() > 0 {
        normalized_text(e.values[0])
    } else {
        Seq::empty()
    };
    if direct.len() > 0 {
        direct
    } else {
        normalized_text(joined(solid_pieces(e.pieces), seq![' ']))
    }
}

/// The profile with what one entry says: an entry with a label and a value
/// sets the field that the label names; the main organization only where
/// none is known yet.
pub open spec fn with_entry(info: PlayerInfoView, e: ScrapedEntryView) -> PlayerInfoView {
    if e.labels.len() == 0 {
        info
    } else {
        let label = normalized_label(e.labels[0]);
        let value = entry_value(e);
        if value.len() == 0 {
            info
        } else if same_ignoring_ascii_case(label, "Enlisted"@) {
            PlayerInfoView { enlisted: Some(value), ..info }
        } else if same_ignoring_ascii_case(label, "Location"@) {
            PlayerInfoView { location: Some(value), ..info }
        } else if same_ignoring_ascii_case(label, "Fluency"@) {
            PlayerInfoView { fluency: Some(value), ..info }
        } else if same_ignoring_ascii_case(label, "Main Organization"@)
            && info.main_organization is None {
            PlayerInfoView { main_organization: Some(value), ..info }
        } else {
            info
        }
    }
}

/// The profile with what the entries say, taken in order.
pub open spec fn with_entries(info: PlayerInfoView, entries: Seq<ScrapedEntryView>)
    -> PlayerInfoView
    decreases entries.len(),
{
    if entries.len() == 0 {
        info
    } else {
        with_entry(with_entries(info, entries.drop_last()), entries.last())
    }
}

/// The profile with the main organization of the page's own box, where the
/// entries named none: the text of the link, if there is a link; else the
/// text of the value, unless it only repeats the heading.
pub open spec fn with_main_org(
    info: PlayerInfoView,
    link: Option<Seq<char>>,
    value: Option<Seq<char>>,
) -> PlayerInfoView {
    if info.main_organization is Some {
        info
    } else {
        match link {
            Some(text) => if normalized_text(text).len() > 0 {
                PlayerInfoView { main_organization: Some(normalized_text(text)), ..info }
            } else {
                info
            },
            None => match value {
                Some(text) => if normalized_text(text).len() > 0 && !same_ignoring_ascii_case(
                    normalized_text(text),
                    "Main organization"@,
                ) {
                    PlayerInfoView { main_organization: Some(normalized_text(text)), ..info }
                } else {
                    info
                },
                None => info,
            },
        }
    }
}

/// The profile that scraped entries and the main organization's box give.
pub open spec fn profile_of(
    entries: Seq<ScrapedEntryView>,
    link: Option<Seq<char>>,
    value: Option<Seq<char>>,
) -> PlayerInfoView {
    with_main_org(with_entries(PlayerInfoView::unknown(), entries), link, value)
}

/// The text of the first of the scraped elements, if there is one.
pub open spec fn first_text(found: Option<Seq<ScrapedEntryView>>) -> Option<Seq<char>> {
    match found {
        Some(list) => if list.len() > 0 {
            Some(list[0].text)
        } else {
            None
        },
        None => None,
    }
}

/// The scraped elements, none where the scraper gave no list.
pub open spec fn found_or_none(found: Option<Seq<ScrapedEntryView>>) -> Seq<ScrapedEntryView> {
    match found {
        Some(list) => list,
        None => Seq::empty(),
    }
}

/// The profile that a page gives.
pub open spec fn page_profile(html: Seq<char>) -> PlayerInfoView {
    profile_of(
        found_or_none(scraped(html, ENTRY_SELECTOR@, LABEL_SELECTOR@, VALUE_SELECTOR@)),
        first_text(scraped(html, MAIN_ORG_LINK_SELECTOR@, LABEL_SELECTOR@, VALUE_SELECTOR@)),
        first_text(scraped(html, MAIN_ORG_VALUE_SELECTOR@, LABEL_SELECTOR@, VALUE_SELECTOR@)),
    )
}

/// The solid pieces with spaces between them.
fn join_solid_pieces(pieces: &Vec<String>) -> (r: String)
    ensures
        r@ == joined(solid_pieces(texts(pieces@)), seq![' ']),
{
    let mut out = String::new();
    let ghost all = texts(pieces@);
    let mut first = true;
    let mut i: usize = 0;
    assert(all.take(0) =~= Seq::<Seq<char>>::empty());
    while i < pieces.len()
        invariant
            i <= pieces.len(),
            all == texts(pieces@),
            first == (solid_pieces(all.take(i as int)).len() == 0),
            out@ == joined(solid_pieces(all.take(i as int)), seq![' ']),
        decreases pieces.len() - i,
    {
        let piece = trim(pieces[i].as_str());
        proof {
            let t = all.take(i + 1);
            assert(t.drop_last() =~= all.take(i as int));
            assert(t.last() == pieces@[i as int]@);
        }
        if !piece.as_str().is_empty() {
            let ghost before = solid_pieces(all.take(i as int));
            if !first {
                out.push(' ');
            }
            out.append(piece.as_str());
            proof {
                let next = before.push(piece@);
                assert(next.drop_last() =~= before);
                if before.len() == 0 {
                    assert(out@ =~= piece@);
                } else {
                    assert(out@ =~= joined(before, seq![' ']) + seq![' '] + piece@);
                }
            }
            first = false;
        }
        i += 1;
    }
    assert(all.take(pieces@.len() as int) =~= all);
    out
}

/// The value of an entry.
pub fn extract_value_text(entry: &ScrapedEntry) -> (r: String)
    ensures
        r@ == entry_value(entry@),
{
    if entry.values.len() > 0 {
        let text = normalize_text(entry.values[0].as_str());
        if !text.as_str().is_empty() {
            return text;
        }
    }
    normalize_text(join_solid_pieces(&entry.pieces).as_str())
}

/// Takes into a profile what one entry says.
pub fn apply_entry(info: &mut PlayerInfo, entry: &ScrapedEntry)
    ensures
        final(info)@ == with_entry(old(info)@, entry@),
{
    if entry.labels.len() == 0 {
        return ;
    }
    let label_text = normalize_label(entry.labels[0].as_str());
    let label = label_text.as_str();
    let value_text = extract_value_text(entry);
    if value_text.as_str().is_empty() {
        return ;
    }
    if matches_ignore_case(label, "Enlisted") {
        info.enlisted = Some(value_text);
    } else if matches_ignore_case(label, "Location") {
        info.location = Some(value_text);
    } else if matches_ignore_case(label, "Fluency") {
        info.fluency = Some(value_text);
    } else if matches_ignore_case(label, "Main Organization") && info.main_organization.is_none() {
        info.main_organization = Some(value_text);
    }
}

/// Takes into a profile, where it names no main organization, that of the
/// page's own box.
pub fn apply_main_org(info: &mut PlayerInfo, link: Option<&str>, value: Option<&str>)
    ensures
        final(info)@ == with_main_org(
            old(info)@,
            match link {
                Some(s) => Some(s@),
                None => None,
            },
            match value {
                Some(s) => Some(s@),
                None => None,
            },
        ),
{
    if info.main_organization.is_some() {
        return ;
    }
    match link {
        Some(text) => {
            let org_name = normalize_text(text);
            if !org_name.as_str().is_empty() {
                info.main_organization = Some(org_name);
            }
        },
        None => match value {
            Some(text) => {
                let org_name = normalize_text(text);
                if !org_name.as_str().is_empty() && !matches_ignore_case(
                    org_name.as_str(),
                    "Main organization",
                ) {
                    info.main_organization = Some(org_name);
                }
            },
            None => {},
        },
    }
}

/// The profile that scraped entries and the main organization's box give.
pub fn player_info_from(entries: &Vec<ScrapedEntry>, link: Option<&str>, value: Option<&str>) -> (r:
    PlayerInfo)
    ensures
        r@ == profile_of(
            entry_views(entries@),
            match link {
                Some(s) => Some(s@),
                None => None,
            },
            match value {
                Some(s) => Some(s@),
                None => None,
            },
        ),
{
    let mut info = PlayerInfo::default();
    let ghost all = entry_views(entries@);
    let mut i: usize = 0;
    assert(all.take(0) =~= Seq::<ScrapedEntryView>::empty());
    while i < entries.len()
        invariant
            i <= entries.len(),
            all == entry_views(entries@),
            info@ == with_entries(PlayerInfoView::unknown(), all.take(i as int)),
        decreases entries.len() - i,
    {
        proof {
            let t = all.take(i + 1);
            assert(t.drop_last() =~= all.take(i as int));
            assert(t.last() == entries@[i as int]@);
        }
        apply_entry(&mut info, &entries[i]);
        i += 1;
    }
    assert(all.take(entries@.len() as int) =~= all);
    apply_main_org(&mut info, link, value);
    info
}

/// The text of the first of the scraped elements, if there is one.
fn first_text_of(found: &Option<Vec<ScrapedEntry>>) -> (r: Option<&str>)
    ensures
        match r {
            Some(s) => first_text(opt_entry_views(*found)) == Some(s@),
            None => first_text(opt_entry_views(*found)) is None,
        },
{
    match found {
        Some(list) => if list.len() > 0 {
            Some(list[0].text.as_str())
        } else {
            None
        },
        None => None,
    }
}

/// Reads a profile off a profile page.
pub fn parse_player_info(html: &str) -> (r: PlayerInfo)
    ensures
        r@ == page_profile(html@),
{
    let entries = scrape(html, ENTRY_SELECTOR, LABEL_SELECTOR, VALUE_SELECTOR);
    let links = scrape(html, MAIN_ORG_LINK_SELECTOR, LABEL_SELECTOR, VALUE_SELECTOR);
    let values = scrape(html, MAIN_ORG_VALUE_SELECTOR, LABEL_SELECTOR, VALUE_SELECTOR);
    let link = first_text_of(&links);
    let value = first_text_of(&values);
    match &entries {
        Some(list) => player_info_from(list, link, value),
        None => {
            let none: Vec<ScrapedEntry> = Vec::new();
            assert(entry_views(none@) =~= Seq::<ScrapedEntryView>::empty());
            player_info_from(&none, link, value)
        },
    }
}

/// Where profiles are found; the player's handle follows.
pub const PROFILE_URL_PREFIX: &'static str = "https://robertsspaceindustries.com/en/citizens/";

/// The address of a player's profile page, or the error for a handle that
/// is nothing but white space.
pub open spec fn profile_address(handle: Seq<char>) -> Result<Seq<char>, PlayerInfoErrorView> {
    if trimmed(handle).len() == 0 {
        Err(PlayerInfoErrorView::Parse("Empty handle"@))
    } else {
        Ok(PROFILE_URL_PREFIX@ + trimmed(handle))
    }
}

/// The address of a player's profile page.
pub fn profile_url(handle: &str) -> (r: Result<String, PlayerInfoError>)
    ensures
        match r {
            Ok(url) => profile_address(handle@) == Ok::<Seq<char>, PlayerInfoErrorView>(url@),
            Err(e) => profile_address(handle@) == Err::<Seq<char>, PlayerInfoErrorView>(e@),
        },
{
    let trimmed = trim(handle);
    if trimmed.as_str().is_empty() {
        return Err(PlayerInfoError::Parse("Empty handle".to_owned()));
    }
    let mut url = PROFILE_URL_PREFIX.to_owned();
    url.append(trimmed.as_str());
    Ok(url)
}

/// What an HTTP status means for a lookup: 404 says that there is no such
/// player, any other status outside 200 to 299 is an error of its own.
pub open spec fn status_error(status: u16) -> Option<PlayerInfoErrorView> {
    if status == 404 {
        Some(PlayerInfoErrorView::NotFound)
    } else if status < 200 || status > 299 {
        Some(PlayerInfoErrorView::Http(status))
    } else {
        None
    }
}

/// Judges the status of the answer to a lookup.
pub fn check_status(status: u16) -> (r: Result<(), PlayerInfoError>)
    ensures
        match r {
            Ok(_) => status_error(status) is None,
            Err(e) => status_error(status) == Some(e@),
        },
{
    if status == 404 {
        Err(PlayerInfoError::NotFound)
    } else if status < 200 || status > 299 {
        Err(PlayerInfoError::Http(status))
    } else {
        Ok(())
    }
}

/// The outcome of a lookup whose page gave this profile: the profile, or an
/// error where nothing is known.
pub open spec fn profile_outcome(info: PlayerInfoView) -> Result<
    PlayerInfoView,
    PlayerInfoErrorView,
> {
    if info.is_empty() {
        Err(PlayerInfoErrorView::Parse("Profile page did not include expected fields"@))
    } else {
        Ok(info)
    }
}

/// The outcome of a lookup whose page gave this profile.
pub fn checked_profile(info: PlayerInfo) -> (r: Result<PlayerInfo, PlayerInfoError>)
    ensures
        match r {
            Ok(p) => profile_outcome(info@) == Ok::<PlayerInfoView, PlayerInfoErrorView>(p@),
            Err(e) => profile_outcome(info@) == Err::<PlayerInfoView, PlayerInfoErrorView>(e@),
        },
{
    if info.is_empty() {
        Err(PlayerInfoError::Parse("Profile page did not include expected fields".to_owned()))
    } else {
        Ok(info)
    }
}

/// The outcome of a lookup whose answer had this body.
pub fn profile_from_body(body: &str) -> (r: Result<PlayerInfo, PlayerInfoError>)
    ensures
        match r {
            Ok(p) => profile_outcome(page_profile(body@)) == Ok::<
                PlayerInfoView,
                PlayerInfoErrorView,
            >(p@),
            Err(e) => profile_outcome(page_profile(body@)) == Err::<
                PlayerInfoView,
                PlayerInfoErrorView,
            >(e@),
        },
{
    checked_profile(parse_player_info(body))
}

} // verus!
