//! The plugin listing: one status line per plugin, and its options as a tree.
use vstd::prelude::*;

use crate::options::{entries_in_order, PluginOptions};
use crate::status::PluginStatus;
use crate::batch::ReportEvent;
use crate::style::{
    blue, blue_text, bold, bold_text, dimmed, dimmed_text, green, green_text, joined, red, red_text,
};

verus! {

/// The status line of a plugin: a check mark when it is there, a circle when not.
pub open spec fn status_line_text(name: Seq<char>, status: PluginStatus) -> Seq<char> {
    match status {
        PluginStatus::Remote { installed, commit } => if installed {
            match commit {
                Some(c) => bold_text(green_text("✔"@)) + " "@ + name + " "@ + dimmed_text("("@ + c@ + ")"@),
                None => bold_text(green_text("✔"@)) + " "@ + name,
            }
        } else {
            dimmed_text("○"@) + " "@ + dimmed_text(name) + " "@ + dimmed_text("(not installed)"@)
        },
        PluginStatus::Local { exists, path } => if exists {
            bold_text(green_text("✔"@)) + " "@ + name + " "@ + dimmed_text("("@ + path@ + ")"@)
        } else {
            dimmed_text("○"@) + " "@ + dimmed_text(name) + " "@ + dimmed_text("("@ + path@ + ")"@)
        },
    }
}

fn in_parens(s: &str) -> (r: String)
    ensures
        r@ == "("@ + s@ + ")"@,
{
    let mut r = String::from_str("(");
    r.append(s);
    r.append(")");
    r
}

fn check_mark() -> (r: String)
    ensures
        r@ == bold_text(green_text("✔"@)),
{
    let g = green("✔");
    bold(g.as_str())
}

/// The listing line of the plugin `name` in the state `status`.
pub fn status_line(name: &str, status: &PluginStatus) -> (r: String)
    ensures
        r@ == status_line_text(name@, *status),
{
    let (present, detail) = match status {
        PluginStatus::Remote { installed, commit } => {
            if !*installed {
                (false, Some(String::from_str("(not installed)")))
            } else {
                match commit {
                    Some(c) => (true, Some(in_parens(c.as_str()))),
                    None => (true, None),
                }
            }
        },
        PluginStatus::Local { exists, path } => (*exists, Some(in_parens(path.as_str()))),
    };
    let mut r = if present {
        let mut r = check_mark();
        r.append(" ");
        r.append(name);
        r
    } else {
        let mut r = dimmed("○");
        r.append(" ");
        let n = dimmed(name);
        r.append(n.as_str());
        r
    };
    match detail {
        Some(d) => {
            r.append(" ");
            let d = dimmed(d.as_str());
            r.append(d.as_str());
        },
        None => {},
    }
    r
}

/// The mark that ends a plugin's progress line.
pub open spec fn event_mark(e: ReportEvent) -> Seq<char> {
    match e {
        ReportEvent::Success(_) => bold_text(green_text("✔"@)),
        ReportEvent::AlreadyInstalled => bold_text(blue_text("⊙"@)),
        ReportEvent::UpToDate(_) => bold_text(blue_text("≡"@)),
        ReportEvent::Error => bold_text(red_text("✗"@)),
    }
}

/// The detail shown after the plugin's name, if any.
pub open spec fn event_detail(e: ReportEvent) -> Option<Seq<char>> {
    match e {
        ReportEvent::Success(d) => crate::status::opt_view(d),
        ReportEvent::AlreadyInstalled => Some("already installed"@),
        ReportEvent::UpToDate(d) => crate::status::opt_view(d),
        ReportEvent::Error => None,
    }
}

/// A plugin's finished progress line: its mark, its name, and the detail in parentheses.
pub open spec fn progress_text(name: Seq<char>, e: ReportEvent) -> Seq<char> {
    event_mark(e) + " "@ + name + match event_detail(e) {
        Some(d) => " "@ + dimmed_text("("@ + d + ")"@),
        None => Seq::empty(),
    }
}

/// The line a plugin's progress ends with.
pub fn progress_line(name: &str, event: &ReportEvent) -> (r: String)
    ensures
        r@ == progress_text(name@, *event),
{
    let (mark, detail) = match event {
        ReportEvent::Success(d) => {
            let g = green("✔");
            (bold(g.as_str()), match d {
                Some(x) => Some(x.clone()),
                None => None,
            })
        },
        ReportEvent::AlreadyInstalled => {
            let b = blue("⊙");
            (bold(b.as_str()), Some(String::from_str("already installed")))
        },
        ReportEvent::UpToDate(d) => {
            let b = blue("≡");
            (bold(b.as_str()), match d {
                Some(x) => Some(x.clone()),
                None => None,
            })
        },
        ReportEvent::Error => {
            let x = red("✗");
            (bold(x.as_str()), None)
        },
    };
    let mut r = mark;
    r.append(" ");
    r.append(name);
    match detail {
        Some(d) => {
            r.append(" ");
            let p = in_parens(d.as_str());
            let p = dimmed(p.as_str());
            r.append(p.as_str());
        },
        None => {
            proof {
                assert(r@ + Seq::<char>::empty() =~= r@);
            }
        },
    }
    r
}

/// One line of the options tree; the last option hangs off a corner.
pub open spec fn option_line(key: Seq<char>, value: Seq<char>, last: bool) -> Seq<char> {
    dimmed_text(if last { "└──"@ } else { "├──"@ }) + " "@ + dimmed_text("@"@ + key) + " "@ + bold_text(green_text(value))
}

/// The options tree, one line per option in the order given.
pub open spec fn options_text(entries: Seq<(String, String)>) -> Seq<char> {
    joined(Seq::new(entries.len(), |i: int| option_line(entries[i].0@, entries[i].1@, i == entries.len() - 1)))
}

/// Lists options as a tree, in the order given.
pub fn format_options(entries: &Vec<(String, String)>) -> (r: String)
    ensures
        r@ == options_text(entries@),
{
    let ghost lines = Seq::new(entries@.len(), |i: int| option_line(entries@[i].0@, entries@[i].1@, i == entries@.len() - 1));
    let n = entries.len();
    let mut body = String::new();
    let mut i: usize = 0;
    while i < n
        invariant
            n == entries@.len(),
            i <= n,
            lines == Seq::new(entries@.len(), |i: int| option_line(entries@[i].0@, entries@[i].1@, i == entries@.len() - 1)),
            body@ == joined(lines.subrange(0, i as int)),
        decreases n - i,
    {
        let corner = if i + 1 == n {
            dimmed("└──")
        } else {
            dimmed("├──")
        };
        let mut key = String::from_str("@");
        key.append(entries[i].0.as_str());
        let key = dimmed(key.as_str());
        let g = green(entries[i].1.as_str());
        let value = bold(g.as_str());
        let mut line = corner;
        line.append(" ");
        line.append(key.as_str());
        line.append(" ");
        line.append(value.as_str());
        proof {
            let prev = lines.subrange(0, i as int);
            let next = lines.subrange(0, i + 1);
            assert(next.drop_last() =~= prev);
            assert(next.last() == line@);
        }
        if i > 0 {
            body.append("\n");
        } else {
            assert(lines.subrange(0, 1) =~= seq![line@]);
        }
        body.append(line.as_str());
        i = i + 1;
    }
    assert(lines.subrange(0, n as int) =~= lines);
    body
}

impl PluginOptions {
    /// The options as a tree, in key order; empty when there are none.
    pub fn display(&self) -> (r: String)
        ensures
            exists|e: Seq<(String, String)>| e.len() == self@.dom().len() && r@ == options_text(e),
            self@.dom().len() == 0 ==> r@.len() == 0,
    {
        let entries = entries_in_order(&self.0);
        format_options(&entries)
    }
}

} // verus!
