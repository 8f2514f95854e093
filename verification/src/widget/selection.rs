//! The list of monsters beside the profile.

use crate::monster::record::MonsterEntity;
use crate::state::monster_list::MonsterListState;
use std::rc::Rc;
use vstd::prelude::*;

verus! {

/// The display names of the first `upto` of `records`.
pub open spec fn names_of(records: Seq<Rc<MonsterEntity>>, upto: int) -> Seq<Seq<char>> {
    Seq::new(upto as nat, |i: int| records[i].name.name@)
}

/// The list of monsters.
pub struct MonsterSelection;

impl MonsterSelection {
    /// The display names of the records that the list shows, in order.
    pub fn items(&self, state: &MonsterListState) -> (names: Vec<String>)
        ensures
            names.deep_view() == names_of(state.visible(), state.visible().len() as int),
    {
        let records = state.list_items();
        let mut names: Vec<String> = Vec::new();
        let mut i: usize = 0;
        proof {
            assert(names.deep_view() =~= names_of(records@, 0));
        }
        while i < records.len()
            invariant
                i <= records.len(),
                names.deep_view() == names_of(records@, i as int),
            decreases records.len() - i,
        {
            let ghost before = names.deep_view();
            names.push(records[i].name.name.clone());
            proof {
                assert(names.deep_view() =~= before.push(records@[i as int].name.name@));
                assert(names.deep_view() =~= names_of(records@, i + 1));
            }
            i += 1;
        }
        names
    }
}

} // verus!
