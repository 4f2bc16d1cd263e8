//! Sessions bound to keys, and the configuration directory they are read from.
use std::collections::BTreeMap;
use vstd::prelude::*;

use crate::options::entries_in_order;
use crate::paths::{config_dir_of, muxi_dir, join_path, joined_path};
use crate::style::{blue, blue_text, dimmed, dimmed_text, green, green_text, joined};
use crate::tmux::Key;

verus! {

/// A tmux session: a name and the directory it opens in.
#[derive(Debug, Clone, PartialEq, Eq, PartialOrd, Ord)]
pub struct Session {
    pub name: String,
    pub path: String,
}

/// `path` lies under `home`, component-wise.
pub open spec fn is_under(path: Seq<char>, home: Seq<char>) -> bool {
    home.len() > 0 && (path == home || (path.len() > home.len() && path.subrange(0, home.len() as int)
        == home && path[home.len() as int] == '/'))
}

/// `path` shown with `~` for the home directory.
pub open spec fn shown_path(path: Seq<char>, home: Option<Seq<char>>) -> Seq<char> {
    match home {
        Some(h) => if is_under(path, h) {
            if path == h {
                "~/"@
            } else {
                "~/"@ + path.subrange(h.len() as int + 1, path.len() as int)
            }
        } else {
            path
        },
        None => path,
    }
}

impl Session {
    /// The session's directory, with `~` for the home directory when it lies under it.
    pub fn display_path(&self, home: Option<&str>) -> (r: String)
        ensures
            r@ == shown_path(self.path@, match home {
                Some(h) => Some(h@),
                None => None,
            }),
    {
        let p = self.path.as_str();
        match home {
            Some(h) => {
                let n = p.unicode_len();
                let m = h.unicode_len();
                if m > 0 && crate::text::str_eq(p, h) {
                    String::from_str("~/")
                } else if m > 0 && n > m && crate::text::str_eq(p.substring_char(0, m), h)
                    && p.get_char(m) == '/' {
                    let mut r = String::from_str("~/");
                    r.append(p.substring_char(m + 1, n));
                    r
                } else {
                    String::from_str(p)
                }
            },
            None => String::from_str(p),
        }
    }
}

/// The sessions, by the key that switches to each.
#[derive(Debug, Clone, PartialEq, Eq)]
pub struct Sessions(pub BTreeMap<Key, Session>);

impl Sessions {
    pub fn is_empty(&self) -> (r: bool)
        ensures
            r == self.0@.is_empty(),
    {
        self.0.is_empty()
    }

    /// The sessions listing, in key order, with `~` for `home`; empty when there are no sessions.
    pub fn display(&self, home: Option<&str>) -> (r: String)
        ensures
            exists|e: Seq<(Key, Session)>| e.len() == self.0@.dom().len() && r@ == sessions_text(e, match home {
                Some(h) => Some(h@),
                None => None,
            }),
            self.0@.dom().len() == 0 ==> r@.len() == 0,
    {
        let entries = entries_in_order(&self.0);
        format_sessions(&entries, home)
    }
}

/// `s` padded with spaces on the right to `width` characters.
pub open spec fn padded(s: Seq<char>, width: nat) -> Seq<char> {
    if s.len() >= width {
        s
    } else {
        s + Seq::new((width - s.len()) as nat, |i: int| ' ')
    }
}

fn pad(s: &str, width: usize) -> (r: String)
    ensures
        r@ == padded(s@, width as nat),
{
    let n = s.unicode_len();
    let mut r = String::from_str(s);
    let mut i: usize = n;
    assert(r@ =~= s@ + Seq::new(0, |j: int| ' '));
    while i < width
        invariant
            n == s@.len(),
            n <= i,
            i <= width || i == n,
            r@ == s@ + Seq::new((i - n) as nat, |j: int| ' '),
        decreases width - i,
    {
        r.append(" ");
        proof {
            reveal_strlit(" ");
            assert(r@ =~= s@ + Seq::new((i + 1 - n) as nat, |j: int| ' '));
        }
        i = i + 1;
    }
    assert(n >= width ==> r@ =~= s@);
    r
}

/// The widest key.
pub open spec fn key_width(entries: Seq<(Key, Session)>) -> nat
    decreases entries.len(),
{
    if entries.len() == 0 {
        0
    } else {
        let w = key_width(entries.drop_last());
        let k = entries.last().0.0@.len();
        if k > w { k } else { w }
    }
}

/// The widest session name.
pub open spec fn name_width(entries: Seq<(Key, Session)>) -> nat
    decreases entries.len(),
{
    if entries.len() == 0 {
        0
    } else {
        let w = name_width(entries.drop_last());
        let k = entries.last().1.name@.len();
        if k > w { k } else { w }
    }
}

/// One line of the sessions listing: key, name and directory in aligned columns.
pub open spec fn session_line(e: (Key, Session), kw: nat, nw: nat, home: Option<Seq<char>>) -> Seq<char> {
    green_text(padded(e.0.0@, kw)) + "  "@ + blue_text(padded(e.1.name@, nw)) + "  "@ + dimmed_text(shown_path(e.1.path@, home))
}

/// The sessions listing, one line per entry in the order given.
pub open spec fn sessions_text(entries: Seq<(Key, Session)>, home: Option<Seq<char>>) -> Seq<char> {
    joined(entries.map_values(|e: (Key, Session)| session_line(e, key_width(entries), name_width(entries), home)))
}

fn widths(entries: &Vec<(Key, Session)>) -> (r: (usize, usize))
    ensures
        r.0 as nat == key_width(entries@),
        r.1 as nat == name_width(entries@),
{
    let mut kw: usize = 0;
    let mut nw: usize = 0;
    let mut i: usize = 0;
    while i < entries.len()
        invariant
            i <= entries@.len(),
            kw as nat == key_width(entries@.subrange(0, i as int)),
            nw as nat == name_width(entries@.subrange(0, i as int)),
        decreases entries@.len() - i,
    {
        proof {
            assert(entries@.subrange(0, i + 1).drop_last() =~= entries@.subrange(0, i as int));
        }
        let k = entries[i].0.0.as_str().unicode_len();
        let m = entries[i].1.name.as_str().unicode_len();
        if k > kw {
            kw = k;
        }
        if m > nw {
            nw = m;
        }
        i = i + 1;
    }
    assert(entries@.subrange(0, entries@.len() as int) =~= entries@);
    (kw, nw)
}

/// Lists sessions in the order given, with `~` for `home`.
pub fn format_sessions(entries: &Vec<(Key, Session)>, home: Option<&str>) -> (r: String)
    ensures
        r@ == sessions_text(entries@, match home {
            Some(h) => Some(h@),
            None => None,
        }),
{
    let ghost h = match home {
        Some(h) => Some(h@),
        None => None,
    };
    let (kw, nw) = widths(entries);
    let ghost lines = entries@.map_values(|e: (Key, Session)| session_line(e, key_width(entries@), name_width(entries@), h));
    let mut body = String::new();
    let mut i: usize = 0;
    while i < entries.len()
        invariant
            i <= entries@.len(),
            kw as nat == key_width(entries@),
            nw as nat == name_width(entries@),
            h == match home {
                Some(x) => Some(x@),
                None => None::<Seq<char>>,
            },
            lines == entries@.map_values(|e: (Key, Session)| session_line(e, key_width(entries@), name_width(entries@), h)),
            body@ == joined(lines.subrange(0, i as int)),
        decreases entries@.len() - i,
    {
        let e = &entries[i];
        let key = pad(e.0.0.as_str(), kw);
        let name = pad(e.1.name.as_str(), nw);
        let shown = e.1.display_path(home);
        let mut line = green(key.as_str());
        line.append("  ");
        let b = blue(name.as_str());
        line.append(b.as_str());
        line.append("  ");
        let d = dimmed(shown.as_str());
        line.append(d.as_str());
        proof {
            let prev = lines.subrange(0, i as int);
            let next = lines.subrange(0, i + 1);
            assert(next.drop_last() =~= prev);
            assert(next.last() == line@);
        }
        if i > 0 {
            body.append("\n");
        } else {
            assert(lines.subrange(0, 1) =~= seq![line@]);
        }
        body.append(line.as_str());
        i = i + 1;
    }
    assert(lines.subrange(0, entries@.len() as int) =~= lines);
    body
}

/// Where the configuration lives.
#[derive(Debug, Clone, PartialEq, Eq)]
pub struct Config {
    pub path: String,
}

impl Config {
    /// The configuration in the directory that the two variables and the home directory select.
    pub fn new(muxi_config_path: Option<&str>, xdg_config_home: Option<&str>, home: &str) -> (r: Config)
        ensures
            r.path@ == config_dir_of(
                match muxi_config_path { Some(p) => Some(p@), None => None },
                match xdg_config_home { Some(x) => Some(x@), None => None },
                home@,
            ),
    {
        Config { path: muxi_dir(muxi_config_path, xdg_config_home, home) }
    }

    /// The sessions file of this configuration.
    pub fn sessions_path(&self) -> (r: String)
        ensures
            r@ == joined_path(self.path@, "sessions.muxi"@),
    {
        join_path(self.path.as_str(), "sessions.muxi")
    }
}

} // verus!
