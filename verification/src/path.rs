//! From what the user typed to the path of the log.
//!
//! The user may give the path in quotes, with `~` for the home directory,
//! or with a drive letter as under Windows. The library says which base
//! directory and which components make up the path; the caller reads the
//! environment and builds the path of the platform.

use crate::event::texts;
use crate::settings::SETTINGS_DIR;
use crate::text::{from_chars_range, lower_ascii_char, to_chars, to_lower_ascii_char, trim_bounds, trimmed};
use vstd::prelude::*;
use vstd::string::*;

verus! {

/// A path in two parts: a base, taken as it is, and components that are
/// added to it one after the other.
#[derive(Debug, PartialEq, Eq)]
pub struct PathPlan {
    pub base: String,
    pub parts: Vec<String>,
}

/// A path in two parts, its strings as sequences of characters.
pub struct PathPlanView {
    pub base: Seq<char>,
    pub parts: Seq<Seq<char>>,
}

impl View for PathPlan {
    type V = PathPlanView;

    open spec fn view(&self) -> PathPlanView {
        PathPlanView { base: self.base@, parts: texts(self.parts@) }
    }
}

impl PathPlanView {
    /// Whether the plan stands for no path at all.
    pub open spec fn is_empty(self) -> bool {
        self.base.len() == 0 && self.parts.len() == 0
    }
}

impl PathPlan {
    /// Whether the plan stands for no path at all.
    pub fn is_empty(&self) -> (r: bool)
        ensures
            r == self@.is_empty(),
    {
        self.base.as_str().is_empty() && self.parts.len() == 0
    }
}

/// A text without the pair of quotes around it: double quotes first, else
/// single quotes, else the text as it is.
pub open spec fn unquoted(s: Seq<char>) -> Seq<char> {
    if s.len() >= 2 && s[0] == '"' && s.last() == '"' {
        s.subrange(1, s.len() - 1)
    } else if s.len() >= 2 && s[0] == '\'' && s.last() == '\'' {
        s.subrange(1, s.len() - 1)
    } else {
        s
    }
}

/// A text with each backslash made a slash.
pub open spec fn slashed(s: Seq<char>) -> Seq<char> {
    Seq::new(
        s.len(),
        |i: int|
            if s[i] == '\\' {
                '/'
            } else {
                s[i]
            },
    )
}

/// The first index at or after `i` that holds no slash.
pub open spec fn segment_start(s: Seq<char>, i: int) -> int
    decreases s.len() - i,
{
    if 0 <= i < s.len() && s[i] == '/' {
        segment_start(s, i + 1)
    } else {
        i
    }
}

/// The first index at or after `i` that holds a slash, or the length.
pub open spec fn segment_end(s: Seq<char>, i: int) -> int
    decreases s.len() - i,
{
    if 0 <= i < s.len() && s[i] != '/' {
        segment_end(s, i + 1)
    } else {
        i
    }
}

/// The components of a path text from index `i` on: what stands between
/// its slashes, without what is empty.
pub open spec fn segments_from(s: Seq<char>, i: int) -> Seq<Seq<char>>
    decreases s.len() - i,
{
    let a = segment_start(s, i);
    let b = segment_end(s, a);
    if 0 <= i <= a < b <= s.len() {
        seq![s.subrange(a, b)] + segments_from(s, b)
    } else {
        Seq::empty()
    }
}

/// Whether a text starts as a path with a drive letter does: one ASCII
/// character, a colon, and a slash or a backslash.
pub open spec fn has_drive(s: Seq<char>) -> bool {
    s.len() >= 3 && (s[0] as u32) < 128 && s[1] == ':' && (s[2] == '\\' || s[2] == '/')
}

/// Whether a text starts with `~` and a slash or a backslash.
pub open spec fn has_home_prefix(s: Seq<char>) -> bool {
    s.len() >= 2 && s[0] == '~' && (s[1] == '/' || s[1] == '\\')
}

/// The directory that stands for a drive: below the Wine prefix where one
/// is set, else below `.wine` in the home directory; none without both.
pub open spec fn drive_base(drive: char, home: Option<Seq<char>>, wine_prefix: Option<Seq<char>>)
    -> Option<PathPlanView> {
    let name = "drive_"@.push(lower_ascii_char(drive));
    match wine_prefix {
        Some(prefix) => Some(PathPlanView { base: prefix, parts: seq![name] }),
        None => match home {
            Some(h) => Some(PathPlanView { base: h, parts: seq![".wine"@, name] }),
            None => None,
        },
    }
}

/// The path that the user's text stands for, given the home directory and
/// the Wine prefix where they are set. White space and one pair of quotes
/// around the text do not count. `~` is the home directory. Drive `z` is
/// the root; any other drive is a directory of Wine. Anything else is
/// taken as it is.
pub open spec fn resolved(raw: Seq<char>, home: Option<Seq<char>>, wine_prefix: Option<Seq<char>>)
    -> PathPlanView {
    let t = trimmed(unquoted(trimmed(raw)));
    let as_given = PathPlanView { base: t, parts: Seq::empty() };
    if t.len() == 0 {
        as_given
    } else if t == seq!['~'] && home is Some {
        PathPlanView { base: home->0, parts: Seq::empty() }
    } else if has_home_prefix(t) && home is Some {
        PathPlanView { base: home->0, parts: segments_from(slashed(t.skip(2)), 0) }
    } else if has_drive(t) {
        let rest = segments_from(slashed(t.skip(2)), 0);
        if lower_ascii_char(t[0]) == 'z' {
            PathPlanView { base: "/"@, parts: rest }
        } else {
            match drive_base(t[0], home, wine_prefix) {
                Some(base) => PathPlanView { base: base.base, parts: base.parts + rest },
                None => as_given,
            }
        }
    } else {
        as_given
    }
}

/// The bounds of `v[lo..hi]` without the pair of quotes around it.
fn unquote_bounds(v: &Vec<char>, lo: usize, hi: usize) -> (r: (usize, usize))
    requires
        lo <= hi <= v.len(),
    ensures
        lo <= r.0 <= r.1 <= hi,
        v@.subrange(r.0 as int, r.1 as int) == unquoted(v@.subrange(lo as int, hi as int)),
{
    let ghost s = v@.subrange(lo as int, hi as int);
    if hi - lo >= 2 && ((v[lo] == '"' && v[hi - 1] == '"') || (v[lo] == '\'' && v[hi - 1]
        == '\'')) {
        assert(s[0] == v@[lo as int] && s.last() == v@[hi - 1]);
        assert(s.subrange(1, s.len() - 1) =~= v@.subrange(lo + 1, hi - 1));
        (lo + 1, hi - 1)
    } else {
        if hi - lo >= 2 {
            assert(s[0] == v@[lo as int] && s.last() == v@[hi - 1]);
        }
        (lo, hi)
    }
}

/// Adds to `parts` the components of the path text `v[from..]`, with
/// backslashes read as slashes.
fn push_segments(parts: &mut Vec<String>, v: &Vec<char>, from: usize)
    requires
        from <= v.len(),
    ensures
        texts(final(parts)@) == texts(old(parts)@) + segments_from(
            slashed(v@.skip(from as int)),
            0,
        ),
{
    let mut flat: Vec<char> = Vec::new();
    let mut k: usize = from;
    while k < v.len()
        invariant
            from <= k <= v.len(),
            flat@ == slashed(v@.skip(from as int)).take(k - from),
        decreases v.len() - k,
    {
        let c = v[k];
        flat.push(
            if c == '\\' {
                '/'
            } else {
                c
            },
        );
        assert(flat@ =~= slashed(v@.skip(from as int)).take(k - from + 1));
        k += 1;
    }
    assert(flat@ =~= slashed(v@.skip(from as int)));
    push_path_components(parts, &flat);
}

/// Adds to `parts` the components of a path text: what stands between its
/// slashes, without what is empty.
pub fn push_path_components(parts: &mut Vec<String>, components: &Vec<char>)
    ensures
        texts(final(parts)@) == texts(old(parts)@) + segments_from(components@, 0),
{
    let ghost start = texts(parts@);
    let mut i: usize = 0;
    assert(start + Seq::<Seq<char>>::empty() =~= start);
    let ghost mut done: Seq<Seq<char>> = Seq::empty();
    loop
        invariant
            i <= components.len(),
            texts(parts@) == start + done,
            segments_from(components@, 0) == done + segments_from(components@, i as int),
        ensures
            texts(parts@) == start + segments_from(components@, 0),
        decreases components.len() - i,
    {
        let mut a: usize = i;
        while a < components.len() && components[a] == '/'
            invariant
                i <= a <= components.len(),
                segment_start(components@, i as int) == segment_start(components@, a as int),
            decreases components.len() - a,
        {
            a += 1;
        }
        if a >= components.len() {
            proof {
                assert(segments_from(components@, i as int) =~= Seq::<Seq<char>>::empty());
                assert(done + Seq::<Seq<char>>::empty() =~= done);
            }
            break ;
        }
        let mut b: usize = a;
        while b < components.len() && components[b] != '/'
            invariant
                a <= b <= components.len(),
                a < components.len(),
                components@[a as int] != '/',
                segment_end(components@, a as int) == segment_end(components@, b as int),
            decreases components.len() - b,
        {
            b += 1;
        }
        let part = from_chars_range(components, a, b);
        proof {
            assert(segments_from(components@, i as int) == seq![part@] + segments_from(
                components@,
                b as int,
            ));
            assert(done + (seq![part@] + segments_from(components@, b as int)) =~= done.push(
                part@,
            ) + segments_from(components@, b as int));
            assert(start + done.push(part@) =~= (start + done).push(part@));
        }
        let ghost before = parts@;
        parts.push(part);
        assert(texts(parts@) =~= texts(before).push(part@));
        proof {
            done = done.push(part@);
        }
        i = b;
    }
}

/// The directory that stands for a drive.
pub fn wine_drive_base(drive: char, home: Option<&str>, wine_prefix: Option<&str>) -> (r: Option<
    PathPlan,
>)
    ensures
        match r {
            Some(p) => drive_base(drive, opt_str(home), opt_str(wine_prefix)) == Some(p@),
            None => drive_base(drive, opt_str(home), opt_str(wine_prefix)) is None,
        },
{
    let mut name = "drive_".to_owned();
    name.push(to_lower_ascii_char(drive));
    let mut parts: Vec<String> = Vec::new();
    match wine_prefix {
        Some(prefix) => {
            parts.push(name);
            assert(texts(parts@) =~= seq![name@]);
            Some(PathPlan { base: prefix.to_owned(), parts })
        },
        None => match home {
            Some(h) => {
                let dot = ".wine".to_owned();
                parts.push(dot);
                parts.push(name);
                assert(texts(parts@) =~= seq![dot@, name@]);
                Some(PathPlan { base: h.to_owned(), parts })
            },
            None => None,
        },
    }
}

/// The view of an optional string slice.
pub open spec fn opt_str(o: Option<&str>) -> Option<Seq<char>> {
    match o {
        Some(s) => Some(s@),
        None => None,
    }
}

/// Resolves what the user typed to the path of the log, given the home
/// directory and the Wine prefix where they are set.
pub fn resolve_input_path(raw: &str, home: Option<&str>, wine_prefix: Option<&str>) -> (r: PathPlan)
    ensures
        r@ == resolved(raw@, opt_str(home), opt_str(wine_prefix)),
{
    let v = to_chars(raw);
    assert(v@.subrange(0, v@.len() as int) == v@);
    let (a, b) = trim_bounds(&v, 0, v.len());
    let (a2, b2) = unquote_bounds(&v, a, b);
    let (lo, hi) = trim_bounds(&v, a2, b2);
    let ghost t = v@.subrange(lo as int, hi as int);
    assert(t == trimmed(unquoted(trimmed(raw@))));
    let mut none: Vec<String> = Vec::new();
    assert(texts(none@) =~= Seq::<Seq<char>>::empty());
    if lo == hi {
        return PathPlan { base: from_chars_range(&v, lo, hi), parts: none };
    }
    let first = v[lo];
    assert(first == t[0]);
    if hi - lo == 1 && first == '~' {
        assert(t =~= seq!['~']);
        match home {
            Some(h) => {
                return PathPlan { base: h.to_owned(), parts: none };
            },
            None => {},
        }
    }
    if hi - lo >= 2 {
        assert(v@[lo + 1] == t[1]);
    }
    if hi - lo >= 2 && first == '~' && (v[lo + 1] == '/' || v[lo + 1] == '\\') {
        match home {
            Some(h) => {
                let tail = tail_of(&v, lo + 2, hi);
                assert(tail@ =~= t.skip(2));
                assert(tail@.skip(0) =~= tail@);
                let mut parts: Vec<String> = Vec::new();
                assert(texts(parts@) =~= Seq::<Seq<char>>::empty());
                push_segments(&mut parts, &tail, 0);
                assert(Seq::<Seq<char>>::empty() + segments_from(slashed(t.skip(2)), 0)
                    =~= segments_from(slashed(t.skip(2)), 0));
                return PathPlan { base: h.to_owned(), parts };
            },
            None => {},
        }
    }
    if hi - lo >= 3 {
        assert(v@[lo + 1] == t[1] && v@[lo + 2] == t[2]);
    }
    assert(t != seq!['~'] || home is None) by {
        if t =~= seq!['~'] {
            assert(hi - lo == 1);
        }
    }
    if hi - lo >= 3 && (first as u32) < 128 && v[lo + 1] == ':' && (v[lo + 2] == '\\' || v[lo + 2]
        == '/') {
        let tail = tail_of(&v, lo + 2, hi);
        assert(tail@ =~= t.skip(2));
        assert(tail@.skip(0) =~= tail@);
        if to_lower_ascii_char(first) == 'z' {
            let mut parts: Vec<String> = Vec::new();
            assert(texts(parts@) =~= Seq::<Seq<char>>::empty());
            push_segments(&mut parts, &tail, 0);
            assert(Seq::<Seq<char>>::empty() + segments_from(slashed(t.skip(2)), 0)
                =~= segments_from(slashed(t.skip(2)), 0));
            return PathPlan { base: "/".to_owned(), parts };
        }
        match wine_drive_base(first, home, wine_prefix) {
            Some(plan) => {
                let mut parts = plan.parts;
                push_segments(&mut parts, &tail, 0);
                return PathPlan { base: plan.base, parts };
            },
            None => {},
        }
    }
    PathPlan { base: from_chars_range(&v, lo, hi), parts: none }
}

/// A copy of `v[lo..hi]`.
fn tail_of(v: &Vec<char>, lo: usize, hi: usize) -> (r: Vec<char>)
    requires
        lo <= hi <= v.len(),
    ensures
        r@ == v@.subrange(lo as int, hi as int),
{
    let mut r: Vec<char> = Vec::new();
    let mut k: usize = lo;
    while k < hi
        invariant
            lo <= k <= hi <= v.len(),
            r@ == v@.subrange(lo as int, k as int),
        decreases hi - k,
    {
        r.push(v[k]);
        assert(r@ =~= v@.subrange(lo as int, k + 1));
        k += 1;
    }
    r
}

/// The directory of the settings where the platform names none: below the
/// directory of application data where that is set, else below `.config`
/// in the home directory; none without both.
pub open spec fn fallback_dir(appdata: Option<Seq<char>>, home: Option<Seq<char>>) -> Option<
    PathPlanView,
> {
    match appdata {
        Some(dir) => Some(PathPlanView { base: dir, parts: seq![SETTINGS_DIR@] }),
        None => match home {
            Some(h) => Some(PathPlanView { base: h, parts: seq![".config"@, SETTINGS_DIR@] }),
            None => None,
        },
    }
}

/// The directory of the settings where the platform names none.
pub fn fallback_config_dir(appdata: Option<&str>, home: Option<&str>) -> (r: Option<PathPlan>)
    ensures
        match r {
            Some(p) => fallback_dir(opt_str(appdata), opt_str(home)) == Some(p@),
            None => fallback_dir(opt_str(appdata), opt_str(home)) is None,
        },
{
    let mut parts: Vec<String> = Vec::new();
    let name = SETTINGS_DIR.to_owned();
    match appdata {
        Some(dir) => {
            parts.push(name);
            assert(texts(parts@) =~= seq![name@]);
            Some(PathPlan { base: dir.to_owned(), parts })
        },
        None => match home {
            Some(h) => {
                let dot = ".config".to_owned();
                parts.push(dot);
                parts.push(name);
                assert(texts(parts@) =~= seq![dot@, name@]);
                Some(PathPlan { base: h.to_owned(), parts })
            },
            None => None,
        },
    }
}

/// The path of a settings file in the directory of the settings.
pub fn storage_file_path(dir: Option<PathPlan>, file_name: &str) -> (r: Option<PathPlan>)
    ensures
        match r {
            Some(p) => dir matches Some(d) && p@ == (PathPlanView {
                base: d@.base,
                parts: d@.parts.push(file_name@),
            }),
            None => dir is None,
        },
{
    match dir {
        Some(d) => {
            let mut parts = d.parts;
            let ghost before = parts@;
            parts.push(file_name.to_owned());
            assert(texts(parts@) =~= texts(before).push(file_name@));
            Some(PathPlan { base: d.base, parts })
        },
        None => None,
    }
}

} // verus!
