//! Pipeline view: the leads list, with a company-name filter.

use vstd::prelude::*;
use crate::text::{contains, has_infix, lemma_infix_transitive, spec_to_lowercase, to_lowercase};

verus! {

/// Pipeline view state.
#[derive(Debug, Clone)]
pub struct PipelineState {
    pub leads: Vec<LeadSummary>,
    pub selected: usize,
    pub loaded: bool,
    /// Active filter text (when `/` is pressed).
    pub filter: Option<String>,
    /// Whether we are in filter input mode.
    pub filtering: bool,
    /// Confirm delete state.
    pub confirm_delete: bool,
}

/// Lead summary for list display.
#[derive(Debug, Clone)]
pub struct LeadSummary {
    pub id: String,
    pub company_name: String,
    pub contact_name: Option<String>,
    pub estimated_value: Option<String>,
    pub stage: String,
    pub next_action: Option<String>,
    pub next_action_date: Option<String>,
}

/// A lead passes the filter: there is no filter, or the lowercased company
/// name contains the lowercased filter text (which an empty filter, being
/// empty when lowercased, always is).
pub open spec fn lead_passes(lead: LeadSummary, filter: Option<String>) -> bool {
    match filter {
        Some(f) => has_infix(spec_to_lowercase(lead.company_name@), spec_to_lowercase(f@)),
        None => true,
    }
}

/// The leads that pass the filter, in their order.
pub open spec fn filter_leads(leads: Seq<LeadSummary>, filter: Option<String>) -> Seq<LeadSummary>
    decreases leads.len(),
{
    if leads.len() == 0 {
        Seq::<LeadSummary>::empty()
    } else {
        let rest = filter_leads(leads.drop_last(), filter);
        if lead_passes(leads.last(), filter) {
            rest.push(leads.last())
        } else {
            rest
        }
    }
}

/// The referenced leads.
pub open spec fn derefs(v: Seq<&LeadSummary>) -> Seq<LeadSummary> {
    v.map_values(|l: &LeadSummary| *l)
}

impl PipelineState {
    /// The leads shown under the current filter.
    pub open spec fn shown(&self) -> Seq<LeadSummary> {
        filter_leads(self.leads@, self.filter)
    }

    /// Get leads filtered by the current filter text.
    pub fn filtered_leads(&self) -> (r: Vec<&LeadSummary>)
        ensures
            derefs(r@) == self.shown(),
            (self.filter is None || (self.filter matches Some(f) && f@.len() == 0)) ==> derefs(r@)
                == self.leads@,
    {
        let mut r: Vec<&LeadSummary> = Vec::new();
        let active = match &self.filter {
            Some(f) => !f.as_str().is_empty(),
            None => false,
        };
        let lower_filter = match &self.filter {
            Some(f) => to_lowercase(f.as_str()),
            None => String::new(),
        };
        assert(derefs(r@) =~= filter_leads(self.leads@.take(0), self.filter));
        let mut i: usize = 0;
        while i < self.leads.len()
            invariant
                i <= self.leads.len(),
                active == (self.filter matches Some(f) && f@.len() > 0),
                self.filter matches Some(f) ==> lower_filter@ == spec_to_lowercase(f@),
                self.filter matches Some(f) ==> (f@.len() == 0 <==> lower_filter@.len() == 0),
                self.filter is None ==> lower_filter@.len() == 0,
                derefs(r@) == filter_leads(self.leads@.take(i as int), self.filter),
            decreases self.leads.len() - i,
        {
            let lead = &self.leads[i];
            assert(self.leads@.take(i + 1).drop_last() =~= self.leads@.take(i as int));
            assert(self.leads@.take(i + 1).last() == *lead);
            let pass = if active {
                let name = to_lowercase(lead.company_name.as_str());
                contains(name.as_str(), lower_filter.as_str())
            } else {
                assert(lead_passes(*lead, self.filter)) by {
                    let x = spec_to_lowercase(lead.company_name@);
                    assert(x.subrange(0, 0int + lower_filter@.len()) =~= lower_filter@);
                }
                true
            };
            let ghost before = derefs(r@);
            if pass {
                r.push(lead);
                assert(derefs(r@) =~= before.push(*lead));
            }
            i += 1;
        }
        assert(self.leads@.take(self.leads@.len() as int) =~= self.leads@);
        proof {
            if self.filter is None || self.filter->0@.len() == 0 {
                assert forall|l: LeadSummary| #[trigger] lead_passes(l, self.filter) by {
                    let x = spec_to_lowercase(l.company_name@);
                    assert(x.subrange(0, 0int + lower_filter@.len()) =~= lower_filter@);
                }
                lemma_all_pass(self.leads@, self.filter);
            }
        }
        r
    }
}

impl Default for PipelineState {
    /// Nothing loaded, no filter.
    fn default() -> (r: Self)
        ensures
            r.leads@.len() == 0 && r.selected == 0 && !r.loaded && r.filter is None && !r.filtering
                && !r.confirm_delete,
    {
        PipelineState {
            leads: Vec::new(),
            selected: 0,
            loaded: false,
            filter: None,
            filtering: false,
            confirm_delete: false,
        }
    }
}


/// The filter shows exactly the leads that pass it, in their order; with no
/// filter, or one whose lowercase text is empty, every lead is shown (and
/// `filtered_leads` states that an empty filter shows every lead).
pub proof fn lemma_filter_shows_passing(leads: Seq<LeadSummary>, filter: Option<String>)
    ensures
        filter_leads(leads, filter) == leads.filter(|l: LeadSummary| lead_passes(l, filter)),
        (filter is None || (filter matches Some(f) && spec_to_lowercase(f@).len() == 0)) ==> filter_leads(
            leads,
            filter,
        ) == leads,
    decreases leads.len(),
{
    reveal(Seq::filter);
    if leads.len() > 0 {
        lemma_filter_shows_passing(leads.drop_last(), filter);
        assert(leads.drop_last() == leads.subrange(0, leads.len() - 1));
        if filter is Some && spec_to_lowercase(filter->0@).len() == 0 {
            let w = spec_to_lowercase(filter->0@);
            let x = spec_to_lowercase(leads.last().company_name@);
            assert(x.subrange(0, 0int + w.len()) =~= w);
            assert(leads.drop_last().push(leads.last()) =~= leads);
        } else if filter is None {
            assert(leads.drop_last().push(leads.last()) =~= leads);
        }
    }
}

/// Filtering never shows more leads than it is given.
pub proof fn lemma_filter_len(leads: Seq<LeadSummary>, filter: Option<String>)
    ensures
        filter_leads(leads, filter).len() <= leads.len(),
    decreases leads.len(),
{
    if leads.len() > 0 {
        lemma_filter_len(leads.drop_last(), filter);
    }
}

/// A lead that passes a filter also passes every filter whose lowercase
/// text occurs in the first one's lowercase text.
proof fn lemma_passes_narrower(lead: LeadSummary, f1: String, f2: String)
    requires
        has_infix(spec_to_lowercase(f2@), spec_to_lowercase(f1@)),
        lead_passes(lead, Some(f2)),
    ensures
        lead_passes(lead, Some(f1)),
{
    lemma_infix_transitive(spec_to_lowercase(lead.company_name@), spec_to_lowercase(f2@), spec_to_lowercase(f1@));
}

/// Typing more of a filter narrows what is shown: when the lowercase text of
/// filter `f2` contains that of filter `f1` (as after typing another
/// character), the leads `f2` shows are exactly those that `f2` keeps of what
/// `f1` shows, in the same order; so they are never more.
pub proof fn lemma_narrower_filter(leads: Seq<LeadSummary>, f1: String, f2: String)
    requires
        has_infix(spec_to_lowercase(f2@), spec_to_lowercase(f1@)),
    ensures
        filter_leads(leads, Some(f2)) == filter_leads(filter_leads(leads, Some(f1)), Some(f2)),
        filter_leads(leads, Some(f2)).len() <= filter_leads(leads, Some(f1)).len(),
    decreases leads.len(),
{
    if leads.len() > 0 {
        let last = leads.last();
        let rest1 = filter_leads(leads.drop_last(), Some(f1));
        lemma_narrower_filter(leads.drop_last(), f1, f2);
        if lead_passes(last, Some(f1)) {
            assert(rest1.push(last).drop_last() =~= rest1);
            assert(rest1.push(last).last() == last);
        } else if lead_passes(last, Some(f2)) {
            lemma_passes_narrower(last, f1, f2);
        }
    }
    lemma_filter_len(filter_leads(leads, Some(f1)), Some(f2));
}

/// When every lead passes the filter, filtering keeps the list as it is.
proof fn lemma_all_pass(leads: Seq<LeadSummary>, filter: Option<String>)
    requires
        forall|l: LeadSummary| #[trigger] lead_passes(l, filter),
    ensures
        filter_leads(leads, filter) == leads,
    decreases leads.len(),
{
    if leads.len() > 0 {
        lemma_all_pass(leads.drop_last(), filter);
        assert(leads.drop_last().push(leads.last()) =~= leads);
    }
}

} // verus!
