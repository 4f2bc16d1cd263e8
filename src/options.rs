//! Per-plugin tmux options, set as `@key value` after a plugin is installed.
use std::collections::BTreeMap;
use vstd::prelude::*;

verus! {

/// Option names mapped to their values; the order of declaration does not matter.
#[derive(Debug, Clone, PartialEq, Eq, Default)]
pub struct PluginOptions(pub BTreeMap<String, String>);

impl View for PluginOptions {
    type V = Map<String, String>;

    open spec fn view(&self) -> Map<String, String> {
        self.0@
    }
}

/// Relies on `BTreeMap::iter`, which yields each entry once, in key order.
#[verifier::external_body]
pub(crate) fn entries_in_order<K: Clone, V: Clone>(m: &BTreeMap<K, V>) -> (r: Vec<(K, V)>)
    ensures
        r@.len() == m@.dom().len(),
{
    let mut r = Vec::new();
    for (k, v) in m {
        r.push((k.clone(), v.clone()));
    }
    r
}

impl PluginOptions {
    /// No options at all.
    pub fn new() -> (r: PluginOptions)
        ensures
            r@ == Map::<String, String>::empty(),
    {
        PluginOptions(BTreeMap::new())
    }

    pub fn is_empty(&self) -> (r: bool)
        ensures
            r == self@.is_empty(),
    {
        self.0.is_empty()
    }

    pub fn len(&self) -> (r: usize)
        ensures
            r == self.0.len(),
    {
        self.0.len()
    }
}

} // verus!
