//! File-system paths as text: joining, `~` expansion and the configuration files.
use vstd::prelude::*;

use crate::plugin::with_trailing_slash;

verus! {

/// `rest` joined onto `base`: an absolute `rest` replaces `base`.
pub open spec fn joined_path(base: Seq<char>, rest: Seq<char>) -> Seq<char> {
    if rest.len() > 0 && rest[0] == '/' {
        rest
    } else if base.len() == 0 {
        rest
    } else {
        with_trailing_slash(base) + rest
    }
}

pub fn join_path(base: &str, rest: &str) -> (r: String)
    ensures
        r@ == joined_path(base@, rest@),
{
    let n = base.unicode_len();
    if rest.unicode_len() > 0 && rest.get_char(0) == '/' {
        String::from_str(rest)
    } else if n == 0 {
        String::from_str(rest)
    } else {
        let mut r = String::from_str(base);
        if base.get_char(n - 1) != '/' {
            r.append("/");
        }
        r.append(rest);
        r
    }
}

/// `path` with a leading `~` component replaced by `home`.
pub open spec fn expanded(path: Seq<char>, home: Seq<char>) -> Seq<char> {
    if path == seq!['~'] {
        joined_path(home, Seq::empty())
    } else if path.len() >= 2 && path[0] == '~' && path[1] == '/' {
        joined_path(home, path.subrange(2, path.len() as int))
    } else {
        path
    }
}

pub fn expand_tilde(path: &str, home: &str) -> (r: String)
    ensures
        r@ == expanded(path@, home@),
{
    let n = path.unicode_len();
    if n == 1 && path.get_char(0) == '~' {
        assert(path@ =~= seq!['~']);
        proof {
            reveal_strlit("");
        }
        join_path(home, "")
    } else if n >= 2 && path.get_char(0) == '~' && path.get_char(1) == '/' {
        proof {
            reveal_strlit("");
        }
        join_path(home, path.substring_char(2, n))
    } else {
        proof {
            if path@ == seq!['~'] {
                assert(path@[0] == '~');
            }
        }
        String::from_str(path)
    }
}

/// The configuration directory: `$MUXI_CONFIG_PATH`, else `muxi/` under
/// `$XDG_CONFIG_HOME`, else `~/.config/muxi/`; with `~` expanded.
pub open spec fn config_dir_of(muxi_config_path: Option<Seq<char>>, xdg_config_home: Option<Seq<char>>, home: Seq<char>) -> Seq<char> {
    match muxi_config_path {
        Some(p) => expanded(p, home),
        None => match xdg_config_home {
            Some(x) => expanded(joined_path(x, "muxi/"@), home),
            None => expanded("~/.config/muxi/"@, home),
        },
    }
}

/// The configuration directory, from the two variables that can set it and the home directory.
pub fn muxi_dir(muxi_config_path: Option<&str>, xdg_config_home: Option<&str>, home: &str) -> (r: String)
    ensures
        r@ == config_dir_of(
            match muxi_config_path { Some(p) => Some(p@), None => None },
            match xdg_config_home { Some(x) => Some(x@), None => None },
            home@,
        ),
{
    match muxi_config_path {
        Some(p) => expand_tilde(p, home),
        None => match xdg_config_home {
            Some(x) => {
                let dir = join_path(x, "muxi/");
                expand_tilde(dir.as_str(), home)
            },
            None => expand_tilde("~/.config/muxi/", home),
        },
    }
}

/// The settings file in the configuration directory.
pub fn settings_file(config_dir: &str) -> (r: String)
    ensures
        r@ == joined_path(config_dir@, "init.lua"@),
{
    join_path(config_dir, "init.lua")
}

/// The sessions file in the configuration directory.
pub fn sessions_file(config_dir: &str) -> (r: String)
    ensures
        r@ == joined_path(config_dir@, "sessions.toml"@),
{
    join_path(config_dir, "sessions.toml")
}

/// The directory remote plugins are cloned into, in the configuration directory.
pub fn plugins_dir(config_dir: &str) -> (r: String)
    ensures
        r@ == joined_path(config_dir@, "plugins"@),
{
    join_path(config_dir, "plugins")
}

/// `s` without its trailing slashes.
pub open spec fn without_trailing_slashes(s: Seq<char>) -> Seq<char>
    decreases s.len(),
{
    if s.len() > 0 && s.last() == '/' {
        without_trailing_slashes(s.drop_last())
    } else {
        s
    }
}

/// The part of `s` after its last slash.
pub open spec fn after_last_slash(s: Seq<char>) -> Seq<char>
    decreases s.len(),
{
    if s.len() == 0 {
        s
    } else if s.last() == '/' {
        Seq::empty()
    } else {
        after_last_slash(s.drop_last()).push(s.last())
    }
}

/// The final component of a path, or the whole path when it has none.
pub open spec fn final_component(path: Seq<char>) -> Seq<char> {
    let c = after_last_slash(without_trailing_slashes(path));
    if c.len() == 0 {
        path
    } else {
        c
    }
}

pub fn path_final_component(path: &str) -> (r: String)
    ensures
        r@ == final_component(path@),
{
    let n = path.unicode_len();
    let mut end: usize = n;
    assert(path@.subrange(0, n as int) =~= path@);
    while end > 0 && path.get_char(end - 1) == '/'
        invariant
            end <= n,
            n == path@.len(),
            without_trailing_slashes(path@) == without_trailing_slashes(path@.subrange(0, end as int)),
        decreases end,
    {
        assert(path@.subrange(0, end - 1) =~= path@.subrange(0, end as int).drop_last());
        end = end - 1;
    }
    let ghost t = path@.subrange(0, end as int);
    assert(without_trailing_slashes(t) == t);
    let mut start: usize = end;
    while start > 0 && path.get_char(start - 1) != '/'
        invariant
            start <= end,
            end <= n,
            n == path@.len(),
            t == path@.subrange(0, end as int),
            after_last_slash(t) == after_last_slash(path@.subrange(0, start as int)) + path@.subrange(start as int, end as int),
        decreases start,
    {
        let ghost s = path@.subrange(0, start as int);
        assert(path@.subrange(0, start - 1) =~= s.drop_last());
        assert(path@.subrange(start - 1, end as int) =~= seq![s.last()] + path@.subrange(start as int, end as int));
        assert(after_last_slash(s) == after_last_slash(s.drop_last()).push(s.last()));
        assert(after_last_slash(s.drop_last()).push(s.last()) + path@.subrange(start as int, end as int) =~= after_last_slash(s.drop_last()) + path@.subrange(start - 1, end as int));
        start = start - 1;
    }
    assert(after_last_slash(path@.subrange(0, start as int)) =~= Seq::<char>::empty());
    assert(after_last_slash(t) =~= path@.subrange(start as int, end as int));
    if start == end {
        String::from_str(path)
    } else {
        String::from_str(path.substring_char(start, end))
    }
}

} // verus!
