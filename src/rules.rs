//! The rule set: process names mapped to the profile each one calls for.

use vstd::prelude::*;
use crate::config::{Config, Rule};
use crate::process::{ProcessEntry, is_process_running, running};

verus! {

/// A rule set seen as a sequence of (process name, profile) pairs.
pub type RuleSeq = Seq<(Seq<char>, Seq<char>)>;

/// No process name appears twice.
pub open spec fn keys_unique(m: RuleSeq) -> bool {
    forall|i: int, j: int|
        0 <= i < m.len() && 0 <= j < m.len() && #[trigger] m[i].0 == #[trigger] m[j].0 ==> i == j
}

pub open spec fn has_key(m: RuleSeq, k: Seq<char>) -> bool {
    exists|i: int| 0 <= i < m.len() && #[trigger] m[i].0 == k
}

/// Inserting a pair: a name already present keeps its place and takes the new
/// profile; a new name goes to the end.
pub open spec fn map_insert(m: RuleSeq, k: Seq<char>, v: Seq<char>) -> RuleSeq {
    if has_key(m, k) {
        let i = choose|i: int| 0 <= i < m.len() && #[trigger] m[i].0 == k;
        m.update(i, (k, v))
    } else {
        m.push((k, v))
    }
}

/// The rule set that a list of rules gives, inserted in order.
pub open spec fn rules_to_map(rules: Seq<Rule>) -> RuleSeq
    decreases rules.len(),
{
    if rules.len() == 0 {
        Seq::empty()
    } else {
        map_insert(rules_to_map(rules.drop_last()), rules.last().name@, rules.last().profile@)
    }
}

/// `i` is the first rule whose process is running.
pub open spec fn first_active(m: RuleSeq, procs: Seq<ProcessEntry>, i: int) -> bool {
    &&& 0 <= i < m.len()
    &&& running(procs, m[i].0)
    &&& forall|j: int| 0 <= j < i ==> !running(procs, #[trigger] m[j].0)
}

/// The profile of the first rule whose process is running, if any.
pub open spec fn desired_of(m: RuleSeq, procs: Seq<ProcessEntry>) -> Option<Seq<char>> {
    if exists|i: int| first_active(m, procs, i) {
        let i = choose|i: int| first_active(m, procs, i);
        Some(m[i].1)
    } else {
        None
    }
}

pub open spec fn opt_view(o: Option<String>) -> Option<Seq<char>> {
    match o {
        Some(s) => Some(s@),
        None => None,
    }
}

/// Process names with their profiles, in the order the rules first named them.
pub struct RuleMap {
    entries: Vec<(String, String)>,
}

impl View for RuleMap {
    type V = RuleSeq;

    closed spec fn view(&self) -> RuleSeq {
        self.entries@.map_values(|e: (String, String)| (e.0@, e.1@))
    }
}

impl RuleMap {
    /// The empty rule set.
    pub fn new() -> (r: RuleMap)
        ensures
            r@ == Seq::<(Seq<char>, Seq<char>)>::empty(),
    {
        let r = RuleMap { entries: Vec::new() };
        assert(r@ =~= Seq::<(Seq<char>, Seq<char>)>::empty());
        r
    }

    /// Number of rules.
    pub fn len(&self) -> (r: usize)
        ensures
            r == self@.len(),
    {
        self.entries.len()
    }

    /// The profile bound to a process name, if any.
    pub fn profile_for(&self, name: &String) -> (r: Option<String>)
        ensures
            has_key(self@, name@) <==> r is Some,
            r matches Some(p) ==> exists|i: int|
                0 <= i < self@.len() && self@[i].0 == name@ && #[trigger] self@[i].1 == p@,
    {
        let mut i: usize = 0;
        while i < self.entries.len()
            invariant
                0 <= i <= self.entries@.len(),
                self@.len() == self.entries@.len(),
                forall|j: int| 0 <= j < i ==> #[trigger] self@[j].0 != name@,
            decreases self.entries@.len() - i,
        {
            if self.entries[i].0 == *name {
                let p = self.entries[i].1.clone();
                assert(self@[i as int].0 == name@ && self@[i as int].1 == p@);
                return Some(p);
            }
            i = i + 1;
        }
        None
    }
}

/// Builds the rule set of a configuration. A name given by several rules is
/// bound to the profile of the last of them.
pub fn build_rule_map(config: &Config) -> (r: RuleMap)
    ensures
        r@ == rules_to_map(config.rule@),
        keys_unique(r@),
{
    let mut map = RuleMap::new();
    let mut i: usize = 0;
    while i < config.rule.len()
        invariant
            0 <= i <= config.rule@.len(),
            map@ == rules_to_map(config.rule@.subrange(0, i as int)),
            keys_unique(map@),
        decreases config.rule@.len() - i,
    {
        let rule = &config.rule[i];
        let ghost prev = map@;
        assert(config.rule@.subrange(0, i + 1).drop_last() =~= config.rule@.subrange(0, i as int));
        let mut j: usize = 0;
        while j < map.entries.len()
            invariant
                0 <= j <= map.entries@.len(),
                map@ == prev,
                map@.len() == map.entries@.len(),
                forall|jj: int| 0 <= jj < j ==> #[trigger] prev[jj].0 != rule.name@,
            ensures
                0 <= j <= map.entries@.len(),
                map@ == prev,
                map@.len() == map.entries@.len(),
                forall|jj: int| 0 <= jj < j ==> #[trigger] prev[jj].0 != rule.name@,
                j < map.entries@.len() ==> prev[j as int].0 == rule.name@,
            decreases map.entries@.len() - j,
        {
            if map.entries[j].0 == rule.name {
                break;
            }
            j = j + 1;
        }
        if j < map.entries.len() {
            assert(prev[j as int].0 == rule.name@);
            assert(has_key(prev, rule.name@));
            let ghost c = choose|c: int| 0 <= c < prev.len() && #[trigger] prev[c].0 == rule.name@;
            assert(c == j);
            map.entries.set(j, (rule.name.clone(), rule.profile.clone()));
            assert(map@ =~= prev.update(j as int, (rule.name@, rule.profile@)));
        } else {
            assert(!has_key(prev, rule.name@));
            map.entries.push((rule.name.clone(), rule.profile.clone()));
            assert(map@ =~= prev.push((rule.name@, rule.profile@)));
        }
        i = i + 1;
    }
    assert(config.rule@.subrange(0, config.rule@.len() as int) =~= config.rule@);
    map
}

/// The profile that the rules call for: that of the first rule, in the rule
/// set's order, whose process is running; `None` when none is.
pub fn get_desired_profile(rules: &RuleMap, procs: &Vec<ProcessEntry>) -> (r: Option<String>)
    ensures
        opt_view(r) == desired_of(rules@, procs@),
{
    let mut i: usize = 0;
    while i < rules.entries.len()
        invariant
            0 <= i <= rules.entries@.len(),
            rules@.len() == rules.entries@.len(),
            forall|j: int| 0 <= j < i ==> !running(procs@, #[trigger] rules@[j].0),
        decreases rules.entries@.len() - i,
    {
        if is_process_running(procs, rules.entries[i].0.as_str()) {
            assert(first_active(rules@, procs@, i as int));
            let ghost c = choose|c: int| first_active(rules@, procs@, c);
            assert(c == i) by {
                if c < i {
                    assert(!running(procs@, rules@[c].0));
                } else if c > i {
                    assert(!running(procs@, rules@[i as int].0));
                }
            }
            return Some(rules.entries[i].1.clone());
        }
        i = i + 1;
    }
    None
}

} // verus!
