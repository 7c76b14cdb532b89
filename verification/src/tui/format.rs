//! Display labels: project phases, lead stages, activity sources and the
//! count of pending write-backs.

use vstd::prelude::*;
use crate::auth::{decimal, decimal_string};
use crate::text::{concat, str_eq};

verus! {

/// Display label of a project phase; unknown phases are shown as they are.
pub open spec fn spec_phase_label(phase: Seq<char>) -> Seq<char> {
    if phase == "discovery"@ {
        "Discovery"@
    } else if phase == "in_progress"@ {
        "In Progress"@
    } else if phase == "review"@ {
        "Review"@
    } else if phase == "delivery"@ {
        "Delivery"@
    } else if phase == "complete"@ {
        "Complete"@
    } else if phase == "on_hold"@ {
        "On Hold"@
    } else {
        phase
    }
}

/// Display label of a lead stage; unknown stages are shown as they are.
pub open spec fn spec_stage_label(stage: Seq<char>) -> Seq<char> {
    if stage == "cold"@ {
        "Cold"@
    } else if stage == "warm"@ {
        "Warm"@
    } else if stage == "discovery"@ {
        "Discovery"@
    } else if stage == "proposal_sent"@ {
        "Proposal Sent"@
    } else if stage == "negotiating"@ {
        "Negotiating"@
    } else if stage == "closed_won"@ {
        "Closed Won"@
    } else if stage == "closed_lost"@ {
        "Closed Lost"@
    } else {
        stage
    }
}

/// Display label of a project phase.
pub fn format_phase(phase: &str) -> (r: &str)
    ensures
        r@ == spec_phase_label(phase@),
{
    if str_eq(phase, "discovery") {
        "Discovery"
    } else if str_eq(phase, "in_progress") {
        "In Progress"
    } else if str_eq(phase, "review") {
        "Review"
    } else if str_eq(phase, "delivery") {
        "Delivery"
    } else if str_eq(phase, "complete") {
        "Complete"
    } else if str_eq(phase, "on_hold") {
        "On Hold"
    } else {
        phase
    }
}

/// Display label of a lead stage.
pub fn format_stage(stage: &str) -> (r: &str)
    ensures
        r@ == spec_stage_label(stage@),
{
    if str_eq(stage, "cold") {
        "Cold"
    } else if str_eq(stage, "warm") {
        "Warm"
    } else if str_eq(stage, "discovery") {
        "Discovery"
    } else if str_eq(stage, "proposal_sent") {
        "Proposal Sent"
    } else if str_eq(stage, "negotiating") {
        "Negotiating"
    } else if str_eq(stage, "closed_won") {
        "Closed Won"
    } else if str_eq(stage, "closed_lost") {
        "Closed Lost"
    } else {
        stage
    }
}


/// The tag shown before a team activity entry for its source.
pub open spec fn spec_activity_tag(source: Seq<char>) -> Seq<char> {
    if source == "github"@ {
        "[gh]"@
    } else if source == "email"@ {
        "[em]"@
    } else if source == "calendar"@ {
        "[cal]"@
    } else if source == "meeting"@ {
        "[mtg]"@
    } else {
        "[os]"@
    }
}

/// The tag shown before a team activity entry (`[gh]`, `[em]`, `[cal]`,
/// `[mtg]`, or `[os]` for any other source).
pub fn activity_tag(source: &str) -> (r: &str)
    ensures
        r@ == spec_activity_tag(source@),
{
    if str_eq(source, "github") {
        "[gh]"
    } else if str_eq(source, "email") {
        "[em]"
    } else if str_eq(source, "calendar") {
        "[cal]"
    } else if str_eq(source, "meeting") {
        "[mtg]"
    } else {
        "[os]"
    }
}

/// `n write-back(s) awaiting review`, singular for one.
pub open spec fn spec_pending_label(count: nat) -> Seq<char> {
    decimal(count) + (if count == 1 { " write-back awaiting review"@ } else { " write-backs awaiting review"@ })
}

/// The line counting the write-backs that await review.
pub fn pending_label(count: u64) -> (r: String)
    ensures
        r@ == spec_pending_label(count as nat),
{
    let n = decimal_string(count);
    if count == 1 {
        concat(n.as_str(), " write-back awaiting review")
    } else {
        concat(n.as_str(), " write-backs awaiting review")
    }
}

} // verus!
