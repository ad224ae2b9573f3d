use vstd::prelude::*;

verus! {

/// Which module identifiers a plugin wants its `load` and `transform`
/// hooks to observe, as the plugin's `filter_id` hook reported them:
/// an id is observed when it is not denied and either the allowed
/// list is empty or lists it.
pub struct FilterIdResult {
    pub allowed: Vec<String>,
    pub denied: Vec<String>,
}

/// Whether one of the listed patterns is exactly the given id.
pub open spec fn contains_id(patterns: Seq<String>, id: Seq<char>) -> bool {
    exists|i: int| 0 <= i < patterns.len() && patterns[i]@ == id
}

impl FilterIdResult {
    /// The filter admits `id`: it is not denied, and the allowed
    /// list is either empty (observe everything) or mentions it.
    pub open spec fn spec_matches(self, id: Seq<char>) -> bool {
        &&& !contains_id(self.denied@, id)
        &&& (self.allowed@.len() == 0 || contains_id(self.allowed@, id))
    }

    /// No rules at all: the state cached when the plugin has no
    /// `filter_id` hook.
    pub open spec fn is_unfiltered(self) -> bool {
        self.allowed@.len() == 0 && self.denied@.len() == 0
    }

    /// Applies the filter criteria to one candidate id.
    pub fn matches(&self, id: &str) -> (b: bool)
        ensures
            b == self.spec_matches(id@),
    {
        let id_owned: String = id.to_owned();
        if contains(&self.denied, &id_owned) {
            false
        } else if self.allowed.len() == 0 {
            true
        } else {
            contains(&self.allowed, &id_owned)
        }
    }
}

impl Default for FilterIdResult {
    /// The default filter has no rules, so every id matches.
    fn default() -> (r: Self)
        ensures
            r.is_unfiltered(),
    {
        FilterIdResult { allowed: Vec::new(), denied: Vec::new() }
    }
}

fn contains(patterns: &Vec<String>, id: &String) -> (b: bool)
    ensures
        b == contains_id(patterns@, id@),
{
    let mut i: usize = 0;
    while i < patterns.len()
        invariant
            0 <= i <= patterns@.len(),
            forall|k: int| 0 <= k < i ==> patterns@[k]@ != id@,
        decreases patterns@.len() - i,
    {
        if patterns[i] == *id {
            return true;
        }
        i = i + 1;
    }
    false
}

/// A plugin that configured no filter rules observes every module id:
/// absence of filters means "matches all", never "matches none".
pub proof fn lemma_unfiltered_matches_all(f: FilterIdResult, id: Seq<char>)
    requires
        f.is_unfiltered(),
    ensures
        f.spec_matches(id),
{
}

} // verus!
