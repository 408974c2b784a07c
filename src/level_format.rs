//! The level description: start position, platforms and exits, and the rule
//! that turns a level name into the file that holds it.
use vstd::prelude::*;

use crate::components::box_in_level;
use crate::geometry::LEVEL_LIMIT;

verus! {

/// Informational data of a level.
#[derive(Clone, Debug, PartialEq, Eq, Default)]
pub struct Meta {
    pub name: String,
}

/// Where the player appears.
#[derive(Clone, Copy, Debug, PartialEq, Eq, Structural, Default)]
pub struct Start {
    pub x: i64,
    pub y: i64,
}

/// A platform: centre and size.
#[derive(Clone, Copy, Debug, PartialEq, Eq, Structural)]
pub struct Rect {
    pub x: i64,
    pub y: i64,
    pub w: i64,
    pub h: i64,
}

/// An exit area: centre, size and the level it leads to.
#[derive(Clone, Debug, PartialEq, Eq)]
pub struct Exit {
    pub x: i64,
    pub y: i64,
    pub w: i64,
    pub h: i64,
    pub next: String,
}

#[derive(Clone, Debug, PartialEq, Eq)]
pub struct Level {
    pub meta: Meta,
    pub start: Start,
    pub platforms: Vec<Rect>,
    pub exits: Vec<Exit>,
}

impl Rect {
    pub open spec fn wf(self) -> bool {
        box_in_level(self.x as int, self.y as int, self.w as int, self.h as int)
    }
}

impl Exit {
    pub open spec fn wf(self) -> bool {
        box_in_level(self.x as int, self.y as int, self.w as int, self.h as int)
    }
}

fn box_fits(x: i64, y: i64, w: i64, h: i64) -> (r: bool)
    ensures
        r == box_in_level(x as int, y as int, w as int, h as int),
{
    -LEVEL_LIMIT <= x && x <= LEVEL_LIMIT && -LEVEL_LIMIT <= y && y <= LEVEL_LIMIT && 0 <= w
        && w <= LEVEL_LIMIT && 0 <= h && h <= LEVEL_LIMIT
}

impl Level {
    /// The start lies within the level bounds and every box lies within them
    /// with a non-negative size.
    pub open spec fn wf(self) -> bool {
        &&& -LEVEL_LIMIT <= self.start.x <= LEVEL_LIMIT
        &&& -LEVEL_LIMIT <= self.start.y <= LEVEL_LIMIT
        &&& forall|i: int| 0 <= i < self.platforms@.len() ==> #[trigger] self.platforms@[i].wf()
        &&& forall|i: int| 0 <= i < self.exits@.len() ==> #[trigger] self.exits@[i].wf()
    }

    /// Whether the level can be played; one that cannot is treated as
    /// unreadable.
    pub fn is_valid(&self) -> (r: bool)
        ensures
            r == self.wf(),
    {
        if !(-LEVEL_LIMIT <= self.start.x && self.start.x <= LEVEL_LIMIT && -LEVEL_LIMIT
            <= self.start.y && self.start.y <= LEVEL_LIMIT) {
            return false;
        }
        let mut i: usize = 0;
        while i < self.platforms.len()
            invariant
                0 <= i <= self.platforms@.len(),
                forall|j: int| 0 <= j < i ==> #[trigger] self.platforms@[j].wf(),
            decreases self.platforms@.len() - i,
        {
            let r = &self.platforms[i];
            if !box_fits(r.x, r.y, r.w, r.h) {
                assert(!self.platforms@[i as int].wf());
                return false;
            }
            i = i + 1;
        }
        let mut k: usize = 0;
        while k < self.exits.len()
            invariant
                0 <= k <= self.exits@.len(),
                forall|j: int| 0 <= j < self.platforms@.len() ==> #[trigger] self.platforms@[j].wf(),
                forall|j: int| 0 <= j < k ==> #[trigger] self.exits@[j].wf(),
            decreases self.exits@.len() - k,
        {
            let e = &self.exits[k];
            if !box_fits(e.x, e.y, e.w, e.h) {
                assert(!self.exits@[k as int].wf());
                return false;
            }
            k = k + 1;
        }
        true
    }
}

/// The name ends in `.toml`.
pub open spec fn has_toml_suffix(s: Seq<char>) -> bool {
    let n = s.len() as int;
    &&& n >= 5
    &&& s[n - 5] == '.'
    &&& s[n - 4] == 't'
    &&& s[n - 3] == 'o'
    &&& s[n - 2] == 'm'
    &&& s[n - 1] == 'l'
}

pub open spec fn is_separator(c: char) -> bool {
    c == '/' || c == '\\'
}

/// The name holds a path separator.
pub open spec fn has_separator(s: Seq<char>) -> bool {
    exists|i: int| 0 <= i < s.len() && #[trigger] is_separator(s[i])
}

/// A name that is already a path (it holds a separator or ends in `.toml`)
/// is used as it is; a bare name `n` stands for `levels/n.toml`.
pub open spec fn level_path_spec(name: Seq<char>) -> Seq<char> {
    if has_toml_suffix(name) || has_separator(name) {
        name
    } else {
        seq!['l', 'e', 'v', 'e', 'l', 's', '/'] + name + seq!['.', 't', 'o', 'm', 'l']
    }
}

fn ends_with_toml(s: &str) -> (r: bool)
    ensures
        r == has_toml_suffix(s@),
{
    let n = s.unicode_len();
    if n < 5 {
        return false;
    }
    s.get_char(n - 5) == '.' && s.get_char(n - 4) == 't' && s.get_char(n - 3) == 'o'
        && s.get_char(n - 2) == 'm' && s.get_char(n - 1) == 'l'
}

fn contains_separator(s: &str) -> (r: bool)
    ensures
        r == has_separator(s@),
{
    let n = s.unicode_len();
    let mut i: usize = 0;
    while i < n
        invariant
            0 <= i <= n,
            n == s@.len(),
            forall|j: int| 0 <= j < i ==> !#[trigger] is_separator(s@[j]),
        decreases n - i,
    {
        let c = s.get_char(i);
        if c == '/' || c == '\\' {
            assert(is_separator(s@[i as int]));
            return true;
        }
        i = i + 1;
    }
    false
}

/// The file that holds the level called `name`.
pub fn level_path(name: &str) -> (r: String)
    ensures
        r@ == level_path_spec(name@),
{
    if ends_with_toml(name) || contains_separator(name) {
        return name.to_string();
    }
    let mut path = String::from_str("levels/");
    path.append(name);
    path.append(".toml");
    proof {
        reveal_strlit("levels/");
        reveal_strlit(".toml");
        assert(path@ =~= level_path_spec(name@));
    }
    path
}

} // verus!
