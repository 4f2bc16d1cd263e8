//! Aggregating the results of a batch of plugins that ran concurrently:
//! failures in completion order, changelogs in declaration order.
use vstd::prelude::*;

use crate::status::PluginUpdateStatus;
use crate::style::{changelog_text, format_plugin_changes, hyperlink, hyperlink_text};
use crate::sync::{error_text, SyncError};

verus! {

/// The one terminal event a plugin's progress line ends with.
#[derive(Debug, Clone, PartialEq, Eq)]
pub enum ReportEvent {
    Success(Option<String>),
    AlreadyInstalled,
    UpToDate(Option<String>),
    Error,
}

/// The text shown beside an updated plugin: `from..to`, or `to` alone.
pub open spec fn range_text(from: Option<String>, to: String) -> Seq<char> {
    match from {
        Some(f) => f@ + ".."@ + to@,
        None => to@,
    }
}

/// The terminal event for the result of an update.
pub fn update_event(result: &Result<PluginUpdateStatus, SyncError>) -> (r: ReportEvent)
    ensures
        result is Err ==> r == ReportEvent::Error,
        *result matches Ok(PluginUpdateStatus::Updated { from, to, range_url, .. }) ==> (r matches ReportEvent::Success(Some(d)) && d@ == match range_url {
            Some(u) => hyperlink_text(range_text(from, to), u@),
            None => range_text(from, to),
        }),
        *result matches Ok(PluginUpdateStatus::UpToDate { commit }) ==> (r matches ReportEvent::UpToDate(Some(d)) && d@ == commit@),
        *result matches Ok(PluginUpdateStatus::Local { path }) ==> (r matches ReportEvent::UpToDate(Some(d)) && d@ == path@),
{
    match result {
        Ok(PluginUpdateStatus::Updated { from, to, range_url, .. }) => {
            let display = match from {
                Some(f) => {
                    let mut d = f.clone();
                    d.append("..");
                    d.append(to.as_str());
                    d
                },
                None => to.clone(),
            };
            let detail = match range_url {
                Some(u) => hyperlink(display.as_str(), u.as_str()),
                None => display,
            };
            ReportEvent::Success(Some(detail))
        },
        Ok(PluginUpdateStatus::UpToDate { commit }) => ReportEvent::UpToDate(Some(commit.clone())),
        Ok(PluginUpdateStatus::Local { path }) => ReportEvent::UpToDate(Some(path.clone())),
        Err(_) => ReportEvent::Error,
    }
}

/// The terminal event for the result of an install.
pub fn install_event(result: &Result<bool, SyncError>) -> (r: ReportEvent)
    ensures
        result == Ok::<bool, SyncError>(true) ==> r == ReportEvent::Success(None),
        result == Ok::<bool, SyncError>(false) ==> r == ReportEvent::AlreadyInstalled,
        result is Err ==> r == ReportEvent::Error,
{
    match result {
        Ok(true) => ReportEvent::Success(None),
        Ok(false) => ReportEvent::AlreadyInstalled,
        Err(_) => ReportEvent::Error,
    }
}

/// A plugin that failed, with the message of its error.
#[derive(Debug, Clone, PartialEq, Eq)]
pub struct PluginFailure {
    pub name: String,
    pub message: String,
}

/// The failures after one more result: an error adds its plugin, anything else adds nothing.
pub open spec fn failure_step(
    f: Seq<(Seq<char>, Seq<char>)>,
    name: Seq<char>,
    failed: Option<SyncError>,
) -> Seq<(Seq<char>, Seq<char>)> {
    match failed {
        Some(e) => f.push((name, error_text(e))),
        None => f,
    }
}

/// The failures recorded for `outcomes`, each a plugin name and whether it failed, in completion order.
pub open spec fn failures_of(outcomes: Seq<(Seq<char>, Option<SyncError>)>) -> Seq<(Seq<char>, Seq<char>)>
    decreases outcomes.len(),
{
    if outcomes.len() == 0 {
        Seq::empty()
    } else {
        failure_step(failures_of(outcomes.drop_last()), outcomes.last().0, outcomes.last().1)
    }
}

/// The changelog slots after one more changelog, at its declaration index.
pub open spec fn fill(slots: Seq<Option<Seq<char>>>, records: Seq<(int, Seq<char>)>) -> Seq<Option<Seq<char>>>
    decreases records.len(),
{
    if records.len() == 0 {
        slots
    } else {
        fill(slots, records.drop_last()).update(records.last().0, Some(records.last().1))
    }
}

/// The filled slots, in index order.
pub open spec fn in_order(slots: Seq<Option<Seq<char>>>) -> Seq<Seq<char>>
    decreases slots.len(),
{
    if slots.len() == 0 {
        Seq::empty()
    } else {
        match slots.last() {
            Some(x) => in_order(slots.drop_last()).push(x),
            None => in_order(slots.drop_last()),
        }
    }
}

/// No two records share a declaration index, and each index is below `n`.
pub open spec fn distinct_indices(records: Seq<(int, Seq<char>)>, n: int) -> bool {
    &&& forall|j: int| 0 <= j < records.len() ==> 0 <= #[trigger] records[j].0 < n
    &&& forall|j: int, k: int| 0 <= j < records.len() && 0 <= k < records.len() && j != k ==> #[trigger] records[j].0 != #[trigger] records[k].0
}

/// The failure line of a plugin.
pub open spec fn failure_line(f: (Seq<char>, Seq<char>)) -> Seq<char> {
    f.0 + ": "@ + f.1
}

/// The aggregate error of a batch: a header naming the operation, then one line per failure.
pub open spec fn summary_text(operation: Seq<char>, failures: Seq<(Seq<char>, Seq<char>)>) -> Seq<char> {
    "Some plugins failed to "@ + operation + "\n"@ + crate::style::joined(failures.map_values(|f: (Seq<char>, Seq<char>)| failure_line(f)))
}

/// The aggregate error text: a header naming the operation, then one
/// `<name>: <message>` line per failure, in the order given.
pub fn format_plugin_errors(failures: &Vec<PluginFailure>, operation: &str) -> (r: String)
    ensures
        r@ == summary_text(operation@, failures_view(failures@)),
{
    let ghost lines = failures_view(failures@).map_values(|f: (Seq<char>, Seq<char>)| failure_line(f));
    let mut body = String::new();
    let mut i: usize = 0;
    while i < failures.len()
        invariant
            i <= failures@.len(),
            lines == failures_view(failures@).map_values(|f: (Seq<char>, Seq<char>)| failure_line(f)),
            body@ == crate::style::joined(lines.subrange(0, i as int)),
        decreases failures@.len() - i,
    {
        let f = &failures[i];
        let mut line = f.name.clone();
        line.append(": ");
        line.append(f.message.as_str());
        proof {
            let prev = lines.subrange(0, i as int);
            let next = lines.subrange(0, i + 1);
            assert(next.drop_last() =~= prev);
            assert(next.last() == line@);
        }
        if i > 0 {
            body.append("\n");
        } else {
            assert(lines.subrange(0, 1) =~= seq![line@]);
        }
        body.append(line.as_str());
        i = i + 1;
    }
    assert(lines.subrange(0, failures@.len() as int) =~= lines);
    let mut r = String::from_str("Some plugins failed to ");
    r.append(operation);
    r.append("\n");
    r.append(body.as_str());
    r
}

/// What a batch has gathered: the failures as they came, and each plugin's
/// changelog at its declaration index.
pub struct BatchReport {
    pub failures: Vec<PluginFailure>,
    pub changelogs: Vec<Option<String>>,
}

pub open spec fn failures_view(v: Seq<PluginFailure>) -> Seq<(Seq<char>, Seq<char>)> {
    v.map_values(|f: PluginFailure| (f.name@, f.message@))
}

pub open spec fn slots_view(v: Seq<Option<String>>) -> Seq<Option<Seq<char>>> {
    v.map_values(|o: Option<String>| crate::status::opt_view(o))
}

impl BatchReport {
    pub open spec fn failures_seq(&self) -> Seq<(Seq<char>, Seq<char>)> {
        failures_view(self.failures@)
    }

    pub open spec fn slots(&self) -> Seq<Option<Seq<char>>> {
        slots_view(self.changelogs@)
    }

    /// An empty report for `count` plugins.
    pub fn new(count: usize) -> (r: BatchReport)
        ensures
            r.failures_seq().len() == 0,
            r.slots() == Seq::<Option<Seq<char>>>::new(count as nat, |i: int| None),
    {
        let mut changelogs: Vec<Option<String>> = Vec::new();
        let mut i: usize = 0;
        while i < count
            invariant
                i <= count,
                changelogs@.len() == i,
                forall|k: int| 0 <= k < i ==> changelogs@[k] is None,
            decreases count - i,
        {
            changelogs.push(None);
            i = i + 1;
        }
        let r = BatchReport { failures: Vec::new(), changelogs };
        assert(r.failures_seq() =~= Seq::<(Seq<char>, Seq<char>)>::empty());
        assert(r.slots() =~= Seq::<Option<Seq<char>>>::new(count as nat, |i: int| None));
        r
    }

    fn push_failure(&mut self, name: &str, e: &SyncError)
        ensures
            final(self).failures_seq() == old(self).failures_seq().push((name@, error_text(*e))),
            final(self).changelogs@ == old(self).changelogs@,
    {
        let f = PluginFailure { name: String::from_str(name), message: e.message() };
        self.failures.push(f);
        assert(final(self).failures_seq() =~= old(self).failures_seq().push((name@, error_text(*e))));
    }

    /// Records the result of installing the plugin `name`.
    pub fn record_install(&mut self, name: &str, result: &Result<bool, SyncError>)
        ensures
            final(self).failures_seq() == failure_step(old(self).failures_seq(), name@, match *result {
                Err(e) => Some(e),
                Ok(_) => None,
            }),
            final(self).changelogs@ == old(self).changelogs@,
    {
        match result {
            Err(e) => self.push_failure(name, e),
            Ok(_) => {},
        }
    }

    /// Records the result of updating the plugin declared at `index`, given the
    /// time now in seconds since the Unix epoch.
    pub fn record_update(
        &mut self,
        index: usize,
        name: &str,
        result: &Result<PluginUpdateStatus, SyncError>,
        now: i64,
    )
        requires
            index < old(self).changelogs@.len(),
        ensures
            final(self).failures_seq() == failure_step(old(self).failures_seq(), name@, match *result {
                Err(e) => Some(e),
                Ok(_) => None,
            }),
            final(self).changelogs@.len() == old(self).changelogs@.len(),
            (*result matches Ok(PluginUpdateStatus::Updated { changes, .. }) && changes@.len() > 0)
                ==> final(self).slots() == old(self).slots().update(index as int, Some(changelog_text(name@, result->Ok_0->Updated_changes@, now))),
            !(*result matches Ok(PluginUpdateStatus::Updated { changes, .. }) && changes@.len() > 0)
                ==> final(self).changelogs@ == old(self).changelogs@,
    {
        match result {
            Err(e) => self.push_failure(name, e),
            Ok(PluginUpdateStatus::Updated { changes, .. }) => {
                if changes.len() > 0 {
                    let log = format_plugin_changes(name, changes, now);
                    self.changelogs.set(index, Some(log));
                    assert(final(self).slots() =~= old(self).slots().update(index as int, Some(changelog_text(name@, changes@, now))));
                }
            },
            Ok(_) => {},
        }
    }

    /// The changelogs, in declaration order.
    pub fn changelog(&self) -> (r: Vec<String>)
        ensures
            r@.map_values(|s: String| s@) == in_order(self.slots()),
    {
        let mut r: Vec<String> = Vec::new();
        let mut i: usize = 0;
        while i < self.changelogs.len()
            invariant
                i <= self.changelogs@.len(),
                r@.map_values(|s: String| s@) == in_order(self.slots().subrange(0, i as int)),
            decreases self.changelogs@.len() - i,
        {
            proof {
                let prev = self.slots().subrange(0, i as int);
                let next = self.slots().subrange(0, i + 1);
                assert(next.drop_last() =~= prev);
            }
            match &self.changelogs[i] {
                Some(s) => {
                    let ghost before = r@;
                    r.push(s.clone());
                    assert(r@.map_values(|s: String| s@) =~= before.map_values(|s: String| s@).push(s@));
                },
                None => {},
            }
            i = i + 1;
        }
        assert(self.slots().subrange(0, self.changelogs@.len() as int) =~= self.slots());
        r
    }

    /// The aggregate error of the batch, or `None` when no plugin failed.
    pub fn failure_summary(&self, operation: &str) -> (r: Option<String>)
        ensures
            self.failures_seq().len() == 0 ==> r is None,
            self.failures_seq().len() > 0 ==> (r matches Some(t) && t@ == summary_text(operation@, self.failures_seq())),
    {
        if self.failures.len() == 0 {
            None
        } else {
            Some(format_plugin_errors(&self.failures, operation))
        }
    }
}

/// `f` is the failure line of some plugin whose result is an error.
pub open spec fn failure_from(outcomes: Seq<(Seq<char>, Option<SyncError>)>, f: (Seq<char>, Seq<char>)) -> bool {
    exists|i: int| 0 <= i < outcomes.len() && (#[trigger] outcomes[i]).1 is Some && f == (outcomes[i].0, error_text(outcomes[i].1->Some_0))
}

/// Every plugin whose result is an error is listed among the failures with
/// its message, and every listed failure is such a plugin: the aggregate
/// names exactly the failed plugins, whatever the others did.
pub proof fn lemma_failures_are_exactly_the_errors(outcomes: Seq<(Seq<char>, Option<SyncError>)>)
    ensures
        forall|i: int| 0 <= i < outcomes.len() && (#[trigger] outcomes[i]).1 is Some ==> failures_of(outcomes).contains(
            (outcomes[i].0, error_text(outcomes[i].1->Some_0)),
        ),
        forall|j: int| 0 <= j < failures_of(outcomes).len() ==> failure_from(outcomes, #[trigger] failures_of(outcomes)[j]),
    decreases outcomes.len(),
{
    if outcomes.len() > 0 {
        let prev = outcomes.drop_last();
        lemma_failures_are_exactly_the_errors(prev);
        let f = failures_of(outcomes);
        let fp = failures_of(prev);
        let n = outcomes.len() - 1;
        assert forall|i: int| 0 <= i < outcomes.len() && (#[trigger] outcomes[i]).1 is Some implies f.contains(
            (outcomes[i].0, error_text(outcomes[i].1->Some_0)),
        ) by {
            if i < n {
                assert(prev[i] == outcomes[i]);
                let k = choose|k: int| 0 <= k < fp.len() && fp[k] == (prev[i].0, error_text(prev[i].1->Some_0));
                assert(f[k] == fp[k]);
            } else {
                assert(f[f.len() - 1] == (outcomes[i].0, error_text(outcomes[i].1->Some_0)));
            }
        }
        assert forall|j: int| 0 <= j < f.len() implies failure_from(outcomes, #[trigger] f[j]) by {
            if j < fp.len() {
                assert(f[j] == fp[j]);
                assert(failure_from(prev, fp[j]));
                let i = choose|i: int| 0 <= i < prev.len() && (#[trigger] prev[i]).1 is Some && fp[j] == (prev[i].0, error_text(prev[i].1->Some_0));
                assert(outcomes[i] == prev[i]);
            } else {
                assert(outcomes[n].1 is Some);
            }
        }
    }
}

proof fn lemma_fill_contents(slots: Seq<Option<Seq<char>>>, records: Seq<(int, Seq<char>)>)
    requires
        distinct_indices(records, slots.len() as int),
    ensures
        fill(slots, records).len() == slots.len(),
        forall|j: int| 0 <= j < records.len() ==> fill(slots, records)[(#[trigger] records[j]).0] == Some(records[j].1),
        forall|k: int| 0 <= k < slots.len() && (forall|j: int| 0 <= j < records.len() ==> (#[trigger] records[j]).0 != k) ==> fill(slots, records)[k] == slots[k],
    decreases records.len(),
{
    if records.len() > 0 {
        let prev = records.drop_last();
        assert(distinct_indices(prev, slots.len() as int)) by {
            assert forall|j: int| 0 <= j < prev.len() implies 0 <= #[trigger] prev[j].0 < slots.len() by {
                assert(prev[j] == records[j]);
            }
            assert forall|j: int, k: int| 0 <= j < prev.len() && 0 <= k < prev.len() && j != k implies #[trigger] prev[j].0 != #[trigger] prev[k].0 by {
                assert(prev[j] == records[j] && prev[k] == records[k]);
            }
        }
        lemma_fill_contents(slots, prev);
        let last = records.last();
        let n = records.len() - 1;
        assert forall|j: int| 0 <= j < records.len() implies fill(slots, records)[(#[trigger] records[j]).0] == Some(records[j].1) by {
            if j < n {
                assert(prev[j] == records[j]);
                assert(records[j].0 != records[n].0);
            }
        }
        assert forall|k: int| 0 <= k < slots.len() && (forall|j: int| 0 <= j < records.len() ==> (#[trigger] records[j]).0 != k) implies fill(slots, records)[k] == slots[k] by {
            assert(records[n].0 != k);
            assert forall|j: int| 0 <= j < prev.len() implies (#[trigger] prev[j]).0 != k by {
                assert(prev[j] == records[j]);
            }
        }
    }
}

/// The changelog depends only on which plugins produced which changelog, not
/// on the order in which their tasks completed: two batches that record the
/// same changelogs, each at its own declaration index, print the same text
/// in declaration order.
pub proof fn lemma_changelog_ignores_completion_order(
    slots: Seq<Option<Seq<char>>>,
    first: Seq<(int, Seq<char>)>,
    second: Seq<(int, Seq<char>)>,
)
    requires
        distinct_indices(first, slots.len() as int),
        distinct_indices(second, slots.len() as int),
        forall|x: (int, Seq<char>)| first.contains(x) <==> second.contains(x),
    ensures
        fill(slots, first) == fill(slots, second),
        in_order(fill(slots, first)) == in_order(fill(slots, second)),
{
    lemma_fill_contents(slots, first);
    lemma_fill_contents(slots, second);
    let a = fill(slots, first);
    let b = fill(slots, second);
    assert forall|k: int| 0 <= k < slots.len() implies a[k] == b[k] by {
        if exists|j: int| 0 <= j < first.len() && (#[trigger] first[j]).0 == k {
            let j = choose|j: int| 0 <= j < first.len() && (#[trigger] first[j]).0 == k;
            assert(first.contains(first[j]));
            assert(second.contains(first[j]));
            let j2 = choose|j2: int| 0 <= j2 < second.len() && second[j2] == first[j];
            assert(b[second[j2].0] == Some(second[j2].1));
        } else if exists|j: int| 0 <= j < second.len() && (#[trigger] second[j]).0 == k {
            let j = choose|j: int| 0 <= j < second.len() && (#[trigger] second[j]).0 == k;
            assert(second.contains(second[j]));
            assert(first.contains(second[j]));
            let j1 = choose|j1: int| 0 <= j1 < first.len() && first[j1] == second[j];
            assert(first[j1].0 == k);
        } else {
            assert(a[k] == slots[k]);
            assert(b[k] == slots[k]);
        }
    }
    assert(a =~= b);
}

} // verus!
