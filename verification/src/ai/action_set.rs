use vstd::prelude::*;
use crate::types::openai_completion::{FunctionModel, OpenAiCallableFunction, functions_model};

verus! {

/// A list of functions offered to the model.
pub type AiActionSet = Vec<OpenAiCallableFunction>;

/// The sets of actions the agent knows.
#[derive(Debug, PartialEq, Eq, Structural, Clone, Copy, Hash)]
pub enum ActionSetType {
    OuterActions,
}

/// The definition of the outer actions: the functions the model may call.
pub const OUTER_ACTIONS_JSON: &'static str = "[{\"name\":\"ListTools\",\"description\":\"Lists the actions that this agent can take\",\"parameters\":{\"type\":\"object\",\"properties\":{}}}]";

impl ActionSetType {
    /// The JSON text that defines this set.
    pub fn get_action_set_file_contents(&self) -> (r: &'static str)
        ensures
            r@ == OUTER_ACTIONS_JSON@,
    {
        match self {
            ActionSetType::OuterActions => OUTER_ACTIONS_JSON,
        }
    }

    /// The sets that are loaded when the engine starts, in order.
    pub fn sets_to_load() -> (r: Vec<ActionSetType>)
        ensures
            r@ == seq![ActionSetType::OuterActions],
    {
        let r = vec![ActionSetType::OuterActions];
        assert(r@ =~= seq![ActionSetType::OuterActions]);
        r
    }

    /// The sets of actions, each set from its parsed definition; a later
    /// definition of the same set takes the place of an earlier one.
    pub fn load_map(loaded: Vec<(ActionSetType, AiActionSet)>) -> (r: AiFunctionSets)
        ensures
            r@ == loaded_sets(loaded@),
    {
        let mut sets = AiFunctionSets::new();
        let mut rest = loaded;
        let ghost all = rest@;
        let n = rest.len();
        let mut i: usize = 0;
        assert(all.skip(0) =~= all);
        assert(all.take(0) =~= Seq::<(ActionSetType, AiActionSet)>::empty());
        while i < n
            invariant
                n == all.len(),
                i <= n,
                rest@ == all.skip(i as int),
                sets@ == loaded_sets(all.take(i as int)),
            decreases n - i,
        {
            let (set_type, functions) = rest.remove(0);
            assert(rest@ =~= all.skip(i + 1));
            assert(all.take(i + 1).drop_last() =~= all.take(i as int));
            sets.insert(set_type, functions);
            i = i + 1;
        }
        assert(all.take(n as int) =~= all);
        sets
    }
}

/// The sets that inserting each loaded definition, in order, gives.
pub open spec fn loaded_sets(s: Seq<(ActionSetType, AiActionSet)>) -> Map<ActionSetType, Seq<FunctionModel>>
    decreases s.len(),
{
    if s.len() == 0 {
        Map::empty()
    } else {
        loaded_sets(s.drop_last()).insert(s.last().0, functions_model(s.last().1@))
    }
}

/// The sets of actions the engine offers the model, by set type.
pub struct AiFunctionSets {
    entries: Vec<(ActionSetType, AiActionSet)>,
}

impl AiFunctionSets {
    #[verifier::type_invariant]
    spec fn keys_distinct(self) -> bool {
        forall|i: int, j: int|
            0 <= i < j < self.entries@.len() ==> #[trigger] self.entries@[i].0 != #[trigger] self.entries@[j].0
    }

    /// The functions of each set.
    pub closed spec fn view(&self) -> Map<ActionSetType, Seq<FunctionModel>> {
        Map::new(
            |k: ActionSetType| exists|i: int| 0 <= i < self.entries@.len() && self.entries@[i].0 == k,
            |k: ActionSetType|
                functions_model(
                    self.entries@[choose|i: int| 0 <= i < self.entries@.len() && self.entries@[i].0 == k].1@,
                ),
        )
    }

    /// No sets.
    pub fn new() -> (r: AiFunctionSets)
        ensures
            r@ == Map::<ActionSetType, Seq<FunctionModel>>::empty(),
    {
        let r = AiFunctionSets { entries: Vec::new() };
        assert(r@ =~= Map::<ActionSetType, Seq<FunctionModel>>::empty());
        r
    }

    /// Sets `key` to `functions`, in place of what it held.
    pub fn insert(&mut self, key: ActionSetType, functions: AiActionSet)
        ensures
            final(self)@ == old(self)@.insert(key, functions_model(functions@)),
    {
        proof {
            use_type_invariant(&*self);
        }
        let ghost before = self@;
        let n = self.entries.len();
        let mut i: usize = 0;
        while i < n
            invariant
                before == self@,
                n == self.entries@.len(),
                i <= n,
                forall|j: int| 0 <= j < i ==> self.entries@[j].0 != key,
                forall|a: int, b: int|
                    0 <= a < b < self.entries@.len() ==> #[trigger] self.entries@[a].0
                        != #[trigger] self.entries@[b].0,
            decreases n - i,
        {
            if self.entries[i].0 == key {
                let mut entries: Vec<(ActionSetType, AiActionSet)> = Vec::new();
                std::mem::swap(&mut entries, &mut self.entries);
                let ghost old_entries = entries@;
                entries.set(i, (key, functions));
                self.entries = entries;
                assert forall|a: int, b: int|
                    0 <= a < b < self.entries@.len() implies #[trigger] self.entries@[a].0
                    != #[trigger] self.entries@[b].0 by {
                    assert(old_entries[a].0 != old_entries[b].0);
                }
                assert(self@ =~= before.insert(key, functions_model(functions@))) by {
                    assert forall|k: ActionSetType| #[trigger] self@.contains_key(k) implies
                        before.insert(key, functions_model(functions@)).contains_key(k)
                        && self@[k] == before.insert(key, functions_model(functions@))[k] by {
                        let c = choose|c: int| 0 <= c < self.entries@.len() && self.entries@[c].0 == k;
                        assert(old_entries[c].0 == k);
                        if k != key {
                            let d = choose|d: int| 0 <= d < old_entries.len() && old_entries[d].0 == k;
                            assert(d == c);
                        }
                    }
                    assert forall|k: ActionSetType| #[trigger] before.insert(key, functions_model(functions@)).contains_key(k)
                        implies self@.contains_key(k) by {
                        if k == key {
                            assert(self.entries@[i as int].0 == k);
                        } else {
                            let d = choose|d: int| 0 <= d < old_entries.len() && old_entries[d].0 == k;
                            assert(self.entries@[d].0 == k);
                        }
                    }
                }
                return;
            }
            i = i + 1;
        }
        let ghost old_entries = self.entries@;
        let mut entries: Vec<(ActionSetType, AiActionSet)> = Vec::new();
        std::mem::swap(&mut entries, &mut self.entries);
        entries.push((key, functions));
        self.entries = entries;
        assert(self.entries@[n as int].0 == key);
        assert(self@ =~= before.insert(key, functions_model(functions@))) by {
            assert forall|k: ActionSetType| #[trigger] self@.contains_key(k) implies
                before.insert(key, functions_model(functions@)).contains_key(k)
                && self@[k] == before.insert(key, functions_model(functions@))[k] by {
                let c = choose|c: int| 0 <= c < self.entries@.len() && self.entries@[c].0 == k;
                if c < n {
                    assert(old_entries[c].0 == k);
                    let d = choose|d: int| 0 <= d < old_entries.len() && old_entries[d].0 == k;
                    assert(d == c);
                } else {
                    assert(k == key);
                }
            }
            assert forall|k: ActionSetType| #[trigger] before.insert(key, functions_model(functions@)).contains_key(k)
                implies self@.contains_key(k) by {
                if k == key {
                    assert(self.entries@[n as int].0 == k);
                } else {
                    let d = choose|d: int| 0 <= d < old_entries.len() && old_entries[d].0 == k;
                    assert(self.entries@[d].0 == k);
                }
            }
        }
    }

    /// The functions of the set `key`, if the engine has it.
    pub fn get(&self, key: ActionSetType) -> (r: Option<&AiActionSet>)
        ensures
            match r {
                Some(f) => self@.contains_key(key) && functions_model(f@) == self@[key],
                None => !self@.contains_key(key),
            },
    {
        proof {
            use_type_invariant(self);
        }
        let n = self.entries.len();
        let mut i: usize = 0;
        while i < n
            invariant
                n == self.entries@.len(),
                i <= n,
                forall|j: int| 0 <= j < i ==> self.entries@[j].0 != key,
                forall|a: int, b: int|
                    0 <= a < b < self.entries@.len() ==> #[trigger] self.entries@[a].0
                        != #[trigger] self.entries@[b].0,
            decreases n - i,
        {
            if self.entries[i].0 == key {
                proof {
                    let c = choose|c: int| 0 <= c < self.entries@.len() && self.entries@[c].0 == key;
                    assert(c == i);
                }
                return Some(&self.entries[i].1);
            }
            i = i + 1;
        }
        None
    }
}

} // verus!
