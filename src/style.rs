//! Terminal text: styling, hyperlinks, relative times and the changelog of one plugin.
use owo_colors::OwoColorize;
use vstd::prelude::*;

use crate::status::{opt_view, PluginChange};

verus! {

/// `message` as a terminal hyperlink (OSC 8) to `url`.
pub open spec fn hyperlink_text(message: Seq<char>, url: Seq<char>) -> Seq<char> {
    "\u{1b}]8;;"@ + url + "\u{1b}\\"@ + message + "\u{1b}]8;;\u{1b}\\"@
}

/// Wraps `message` in an OSC 8 hyperlink sequence pointing to `url`.
pub fn hyperlink(message: &str, url: &str) -> (r: String)
    ensures
        r@ == hyperlink_text(message@, url@),
{
    let mut r = String::from_str("\u{1b}]8;;");
    r.append(url);
    r.append("\u{1b}\\");
    r.append(message);
    r.append("\u{1b}]8;;\u{1b}\\");
    r
}

pub open spec fn bold_text(s: Seq<char>) -> Seq<char> {
    "\u{1b}[1m"@ + s + "\u{1b}[0m"@
}

pub open spec fn dimmed_text(s: Seq<char>) -> Seq<char> {
    "\u{1b}[2m"@ + s + "\u{1b}[0m"@
}

pub open spec fn green_text(s: Seq<char>) -> Seq<char> {
    "\u{1b}[32m"@ + s + "\u{1b}[39m"@
}

/// Relies on owo_colors' `bold`, whose `Display` writes `ESC[1m`, the text, then `ESC[0m`.
#[verifier::external_body]
pub(crate) fn bold(s: &str) -> (r: String)
    ensures
        r@ == bold_text(s@),
{
    s.bold().to_string()
}

/// Relies on owo_colors' `dimmed`, whose `Display` writes `ESC[2m`, the text, then `ESC[0m`.
#[verifier::external_body]
pub(crate) fn dimmed(s: &str) -> (r: String)
    ensures
        r@ == dimmed_text(s@),
{
    s.dimmed().to_string()
}

/// Relies on owo_colors' `green`, whose `Display` writes `ESC[32m`, the text, then `ESC[39m`.
#[verifier::external_body]
pub(crate) fn green(s: &str) -> (r: String)
    ensures
        r@ == green_text(s@),
{
    s.green().to_string()
}

pub open spec fn blue_text(s: Seq<char>) -> Seq<char> {
    "\u{1b}[34m"@ + s + "\u{1b}[39m"@
}

/// Relies on owo_colors' `blue`, whose `Display` writes `ESC[34m`, the text, then `ESC[39m`.
#[verifier::external_body]
pub(crate) fn blue(s: &str) -> (r: String)
    ensures
        r@ == blue_text(s@),
{
    s.blue().to_string()
}

pub open spec fn red_text(s: Seq<char>) -> Seq<char> {
    "\u{1b}[31m"@ + s + "\u{1b}[39m"@
}

/// Relies on owo_colors' `red`, whose `Display` writes `ESC[31m`, the text, then `ESC[39m`.
#[verifier::external_body]
pub(crate) fn red(s: &str) -> (r: String)
    ensures
        r@ == red_text(s@),
{
    s.red().to_string()
}

/// What timeago's default formatter writes for a duration of `secs` seconds.
pub uninterp spec fn ago_text(secs: nat) -> Seq<char>;

/// Relies on `timeago::Formatter::new().convert`, a function of the duration alone.
#[verifier::external_body]
fn time_ago(secs: u64) -> (r: String)
    ensures
        r@ == ago_text(secs as nat),
{
    timeago::Formatter::new().convert(std::time::Duration::from_secs(secs))
}

/// `s` without leading and trailing whitespace.
pub uninterp spec fn trimmed(s: Seq<char>) -> Seq<char>;

/// Relies on `str::trim`, a function of the text alone.
#[verifier::external_body]
pub(crate) fn trim(s: &str) -> (r: String)
    ensures
        r@ == trimmed(s@),
{
    s.trim().to_string()
}

/// Seconds from `time` to `now`, or zero when `time` is not in the past.
pub open spec fn elapsed(time: i64, now: i64) -> nat {
    if now > time {
        (now - time) as nat
    } else {
        0
    }
}

pub fn elapsed_secs(time: i64, now: i64) -> (r: u64)
    ensures
        r as nat == elapsed(time, now),
{
    if now > time {
        let d: i128 = now as i128 - time as i128;
        d as u64
    } else {
        0
    }
}

/// The line of the changelog for one commit.
pub open spec fn change_line(c: PluginChange, now: i64) -> Seq<char> {
    let id = bold_text(green_text(c.id@));
    let shown = match opt_view(c.url) {
        Some(u) => hyperlink_text(id, u),
        None => id,
    };
    "  "@ + shown + " "@ + trimmed(c.summary@) + " "@ + dimmed_text("("@ + ago_text(elapsed(c.time, now)) + ")"@)
}

/// `lines` joined by newlines.
pub open spec fn joined(lines: Seq<Seq<char>>) -> Seq<char>
    decreases lines.len(),
{
    if lines.len() == 0 {
        Seq::empty()
    } else if lines.len() == 1 {
        lines[0]
    } else {
        joined(lines.drop_last()) + "\n"@ + lines.last()
    }
}

/// The changelog of one plugin: its name in bold, then one line per change.
pub open spec fn changelog_text(name: Seq<char>, changes: Seq<PluginChange>, now: i64) -> Seq<char> {
    bold_text(name) + "\n"@ + joined(changes.map_values(|c: PluginChange| change_line(c, now)))
}

fn format_change(c: &PluginChange, now: i64) -> (r: String)
    ensures
        r@ == change_line(*c, now),
{
    let green_id = green(c.id.as_str());
    let id = bold(green_id.as_str());
    let shown = match &c.url {
        Some(u) => hyperlink(id.as_str(), u.as_str()),
        None => id,
    };
    let ago = time_ago(elapsed_secs(c.time, now));
    let mut when = String::from_str("(");
    when.append(ago.as_str());
    when.append(")");
    let when = dimmed(when.as_str());
    let summary = trim(c.summary.as_str());
    let mut r = String::from_str("  ");
    r.append(shown.as_str());
    r.append(" ");
    r.append(summary.as_str());
    r.append(" ");
    r.append(when.as_str());
    r
}

/// The changelog of one plugin, given the time now in seconds since the Unix epoch.
pub fn format_plugin_changes(plugin_name: &str, changes: &Vec<PluginChange>, now: i64) -> (r: String)
    ensures
        r@ == changelog_text(plugin_name@, changes@, now),
{
    let ghost lines = changes@.map_values(|c: PluginChange| change_line(c, now));
    let mut body = String::new();
    let mut i: usize = 0;
    while i < changes.len()
        invariant
            i <= changes@.len(),
            lines == changes@.map_values(|c: PluginChange| change_line(c, now)),
            body@ == joined(lines.subrange(0, i as int)),
        decreases changes@.len() - i,
    {
        let line = format_change(&changes[i], now);
        proof {
            let prev = lines.subrange(0, i as int);
            let next = lines.subrange(0, i + 1);
            assert(next.drop_last() =~= prev);
            assert(next.last() == line@);
        }
        if i > 0 {
            body.append("\n");
        } else {
            assert(lines.subrange(0, 1) =~= seq![line@]);
        }
        body.append(line.as_str());
        i = i + 1;
    }
    assert(lines.subrange(0, changes@.len() as int) =~= lines);
    let mut r = bold(plugin_name);
    r.append("\n");
    r.append(body.as_str());
    r
}

} // verus!
