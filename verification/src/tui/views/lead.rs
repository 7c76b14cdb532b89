//! Lead detail view state: contacts, notes, the stage picker and the delete
//! confirmation.

use vstd::prelude::*;
use crate::text::{str_eq, strings_view};

verus! {

/// Lead detail data.
#[derive(Debug, Clone)]
pub struct LeadDetail {
    pub id: String,
    pub company_name: String,
    pub contact_name: Option<String>,
    pub contact_email: Option<String>,
    pub estimated_value: Option<String>,
    pub stage: String,
    pub source: Option<String>,
    pub source_detail: Option<String>,
    pub next_action: Option<String>,
    pub next_action_date: Option<String>,
    pub notes: Vec<LeadNote>,
    pub contacts: Vec<LeadContact>,
    /// Stage picker state.
    pub stage_picker: Option<StagePicker>,
    /// Confirmation dialog state.
    pub confirm_delete: bool,
}

/// Lead contact for display.
#[derive(Debug, Clone)]
pub struct LeadContact {
    pub id: String,
    pub name: String,
    pub email: Option<String>,
    pub phone: Option<String>,
    pub role: Option<String>,
    pub is_primary: bool,
}

/// Stage picker overlay state.
#[derive(Debug, Clone)]
pub struct StagePicker {
    pub selected: usize,
    pub stages: Vec<String>,
}

#[derive(Debug, Clone)]
pub struct LeadNote {
    pub content: String,
    pub created_at: String,
}

/// The stages a lead goes through, in order.
pub open spec fn stage_names() -> Seq<Seq<char>> {
    seq![
        "cold"@,
        "warm"@,
        "discovery"@,
        "proposal_sent"@,
        "negotiating"@,
        "closed_won"@,
        "closed_lost"@,
    ]
}

/// The position of `stage` in `names`, or 0 when it is not there.
pub open spec fn stage_position(names: Seq<Seq<char>>, stage: Seq<char>) -> int
    decreases names.len(),
{
    if names.len() == 0 {
        0
    } else if names.last() == stage {
        let p = stage_position(names.drop_last(), stage);
        if names.drop_last().contains(stage) {
            p
        } else {
            names.len() - 1
        }
    } else {
        stage_position(names.drop_last(), stage)
    }
}

impl StagePicker {
    /// The selection points at one of the stages.
    pub open spec fn wf(&self) -> bool {
        self.selected < self.stages@.len()
    }

    /// A picker over all stages, with `current_stage` selected (the first
    /// stage when `current_stage` is none of them).
    pub fn new(current_stage: &str) -> (p: Self)
        ensures
            strings_view(p.stages@) == stage_names(),
            p.selected == stage_position(stage_names(), current_stage@),
            p.wf(),
    {
        let mut stages: Vec<String> = Vec::new();
        stages.push(String::from_str("cold"));
        stages.push(String::from_str("warm"));
        stages.push(String::from_str("discovery"));
        stages.push(String::from_str("proposal_sent"));
        stages.push(String::from_str("negotiating"));
        stages.push(String::from_str("closed_won"));
        stages.push(String::from_str("closed_lost"));
        assert(strings_view(stages@) =~= stage_names());
        let mut selected: usize = 0;
        let mut found = false;
        let mut i: usize = 0;
        assert(stage_names().take(0) =~= Seq::<Seq<char>>::empty());
        while i < stages.len()
            invariant
                stages@.len() == 7,
                strings_view(stages@) == stage_names(),
                i <= 7,
                found == stage_names().take(i as int).contains(current_stage@),
                selected == stage_position(stage_names().take(i as int), current_stage@),
                selected < 7,
            decreases 7 - i,
        {
            let ghost t = stage_names().take(i + 1);
            assert(t.drop_last() =~= stage_names().take(i as int));
            assert(t.last() == stages@[i as int]@);
            let is_it = str_eq(stages[i].as_str(), current_stage);
            if is_it && !found {
                selected = i;
            }
            if is_it {
                found = true;
            }
            assert(found == t.contains(current_stage@)) by {
                if t.contains(current_stage@) {
                    let k = choose|k: int| 0 <= k < t.len() && t[k] == current_stage@;
                    if k < i {
                        assert(stage_names().take(i as int)[k] == current_stage@);
                    }
                }
                if stage_names().take(i as int).contains(current_stage@) {
                    let k = choose|k: int| 0 <= k < i && stage_names().take(i as int)[k] == current_stage@;
                    assert(t[k] == current_stage@);
                }
            }
            i += 1;
        }
        assert(stage_names().take(7) =~= stage_names());
        StagePicker { selected, stages }
    }

    /// The currently selected stage.
    pub fn current(&self) -> (r: &str)
        requires
            self.wf(),
        ensures
            r@ == self.stages@[self.selected as int]@,
    {
        self.stages[self.selected].as_str()
    }
}

impl LeadDetail {
    /// An open stage picker points at one of its stages.
    pub open spec fn wf(&self) -> bool {
        self.stage_picker matches Some(p) ==> p.wf()
    }

    /// Nothing loaded.
    pub open spec fn is_empty(&self) -> bool {
        &&& self.id@.len() == 0
        &&& self.company_name@.len() == 0
        &&& self.contact_name is None
        &&& self.contact_email is None
        &&& self.estimated_value is None
        &&& self.stage@.len() == 0
        &&& self.source is None
        &&& self.source_detail is None
        &&& self.next_action is None
        &&& self.next_action_date is None
        &&& self.notes@.len() == 0
        &&& self.contacts@.len() == 0
        &&& self.stage_picker is None
        &&& !self.confirm_delete
    }
}

impl Default for LeadDetail {
    /// Nothing loaded.
    fn default() -> (r: Self)
        ensures
            r.is_empty(),
            r.wf(),
    {
        LeadDetail {
            id: String::new(),
            company_name: String::new(),
            contact_name: None,
            contact_email: None,
            estimated_value: None,
            stage: String::new(),
            source: None,
            source_detail: None,
            next_action: None,
            next_action_date: None,
            notes: Vec::new(),
            contacts: Vec::new(),
            stage_picker: None,
            confirm_delete: false,
        }
    }
}


/// The stage picker opens at the lead's stage: the position found for a
/// stage that is listed names that stage (its first listing), and a stage
/// that is not listed opens the picker at the first stage.
pub proof fn lemma_stage_position(names: Seq<Seq<char>>, stage: Seq<char>)
    ensures
        names.contains(stage) ==> 0 <= stage_position(names, stage) < names.len()
            && names[stage_position(names, stage)] == stage
            && forall|j: int| 0 <= j < stage_position(names, stage) ==> names[j] != stage,
        !names.contains(stage) ==> stage_position(names, stage) == 0,
    decreases names.len(),
{
    if names.len() > 0 {
        let init = names.drop_last();
        lemma_stage_position(init, stage);
        assert forall|j: int| #![trigger names[j]] #![trigger init[j]] 0 <= j < init.len() implies names[j] == init[j] by {}
        if init.contains(stage) {
            let k = choose|k: int| 0 <= k < init.len() && init[k] == stage;
            assert(names[k] == stage);
            assert(names.contains(stage));
            let p = stage_position(init, stage);
            assert(stage_position(names, stage) == p);
            assert(names[p] == init[p]);
        } else if names.last() == stage {
            assert(names[names.len() - 1] == stage);
            assert forall|j: int| 0 <= j < names.len() - 1 implies names[j] != stage by {
                assert(names[j] == init[j]);
            }
        } else {
            assert(!names.contains(stage)) by {
                if names.contains(stage) {
                    let k = choose|k: int| 0 <= k < names.len() && names[k] == stage;
                    if k < init.len() {
                        assert(init[k] == stage);
                    }
                }
            }
        }
    }
}

} // verus!
