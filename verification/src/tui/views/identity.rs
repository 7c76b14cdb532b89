//! Identity view: the onboarding interview, its review, and the saved
//! identity document.

use vstd::prelude::*;
use crate::tui::keys::{Key, KeyCode};
use crate::text::{pop_char, push_char, strings_view};

verus! {

/// Number of interview questions.
pub const QUESTION_COUNT: usize = 7;

/// Identity view state.
#[derive(Debug, Clone)]
pub enum IdentityMode {
    /// Viewing existing identity document.
    View { content: String, complete: bool },
    /// Onboarding: answering questions one at a time.
    Onboarding { step: usize, answers: Vec<String>, current_input: String },
    /// Reviewing generated identity before saving.
    Review { generated: String, answers: Vec<String> },
}

/// Action returned from key handling.
#[derive(Debug, Clone, Copy, PartialEq, Eq, Structural)]
pub enum IdentityAction {
    Nothing,
    StartOnboarding,
    Generate,
    Regenerate,
    Save,
}

impl IdentityMode {
    /// During the interview there is one answer per question and the step
    /// names one of them.
    pub open spec fn wf(&self) -> bool {
        self matches IdentityMode::Onboarding { step, answers, .. } ==> answers@.len() == QUESTION_COUNT
            && step < QUESTION_COUNT
    }

    /// The interview at its first question with no answers given.
    pub open spec fn is_fresh_onboarding(&self) -> bool {
        &&& self matches IdentityMode::Onboarding { step, answers, current_input }
        &&& step == 0
        &&& answers@.len() == QUESTION_COUNT
        &&& (forall|i: int| 0 <= i < QUESTION_COUNT ==> (#[trigger] answers@[i])@.len() == 0)
        &&& current_input@.len() == 0
    }

    /// The interview at its first question with no answers given.
    pub fn start_onboarding() -> (r: Self)
        ensures
            r.is_fresh_onboarding(),
            r.wf(),
    {
        let mut answers: Vec<String> = Vec::new();
        let mut i: usize = 0;
        while i < QUESTION_COUNT
            invariant
                i <= QUESTION_COUNT,
                answers@.len() == i,
                forall|j: int| 0 <= j < i ==> (#[trigger] answers@[j])@.len() == 0,
            decreases QUESTION_COUNT - i,
        {
            answers.push(String::new());
            i += 1;
        }
        IdentityMode::Onboarding { step: 0, answers, current_input: String::new() }
    }
}

impl Default for IdentityMode {
    /// No identity document shown yet.
    fn default() -> (r: Self)
        ensures
            r matches IdentityMode::View { content, complete } && content@.len() == 0 && !complete,
    {
        IdentityMode::View { content: String::new(), complete: false }
    }
}

/// What a key does in the identity view: the mode afterwards and the
/// action asked of the caller.
pub open spec fn identity_key_step(pre: IdentityMode, key: Key, post: IdentityMode, action: IdentityAction) -> bool {
    match pre {
        IdentityMode::View { .. } => post == pre && action == (if key.is_char('r') {
            IdentityAction::StartOnboarding
        } else {
            IdentityAction::Nothing
        }),
        IdentityMode::Onboarding { step, answers, current_input } => match key.code {
            KeyCode::Enter => {
                let saved = strings_view(answers@).update(step as int, current_input@);
                if step < QUESTION_COUNT - 1 {
                    &&& post matches IdentityMode::Onboarding { step: s2, answers: a2, current_input: c2 }
                    &&& s2 == step + 1
                    &&& strings_view(a2@) == saved
                    &&& c2@ == saved[step + 1]
                    &&& action == IdentityAction::Nothing
                } else {
                    &&& post matches IdentityMode::Onboarding { step: s2, answers: a2, current_input: c2 }
                    &&& s2 == step
                    &&& strings_view(a2@) == saved
                    &&& c2@ == current_input@
                    &&& action == IdentityAction::Generate
                }
            },
            KeyCode::Backspace => {
                &&& post matches IdentityMode::Onboarding { step: s2, answers: a2, current_input: c2 }
                &&& s2 == step
                &&& a2 == answers
                &&& c2@ == (if current_input@.len() > 0 { current_input@.drop_last() } else { current_input@ })
                &&& action == IdentityAction::Nothing
            },
            KeyCode::Left => if step > 0 {
                let saved = strings_view(answers@).update(step as int, current_input@);
                &&& post matches IdentityMode::Onboarding { step: s2, answers: a2, current_input: c2 }
                &&& s2 == step - 1
                &&& strings_view(a2@) == saved
                &&& c2@ == saved[step - 1]
                &&& action == IdentityAction::Nothing
            } else {
                post == pre && action == IdentityAction::Nothing
            },
            KeyCode::Char(c) => {
                &&& post matches IdentityMode::Onboarding { step: s2, answers: a2, current_input: c2 }
                &&& s2 == step
                &&& a2 == answers
                &&& c2@ == current_input@.push(c)
                &&& action == IdentityAction::Nothing
            },
            _ => post == pre && action == IdentityAction::Nothing,
        },
        IdentityMode::Review { .. } => post == pre && action == (match key.code {
            KeyCode::Enter => IdentityAction::Save,
            KeyCode::Char('r') => IdentityAction::Regenerate,
            _ => IdentityAction::Nothing,
        }),
    }
}

/// Handle key events for the identity view, returning what the caller
/// should do next.
pub fn handle_key(mode: &mut IdentityMode, key: &Key) -> (action: IdentityAction)
    requires
        old(mode).wf(),
    ensures
        identity_key_step(*old(mode), *key, *final(mode), action),
        final(mode).wf(),
{
    let mut cur = IdentityMode::View { content: String::new(), complete: false };
    core::mem::swap(mode, &mut cur);
    let (next, action) = step_mode(cur, key);
    *mode = next;
    action
}

fn step_mode(mode: IdentityMode, key: &Key) -> (r: (IdentityMode, IdentityAction))
    requires
        mode.wf(),
    ensures
        identity_key_step(mode, *key, r.0, r.1),
        r.0.wf(),
{
    match mode {
        IdentityMode::View { content, complete } => {
            let action = match key.code {
                KeyCode::Char('r') => IdentityAction::StartOnboarding,
                _ => IdentityAction::Nothing,
            };
            (IdentityMode::View { content, complete }, action)
        },
        IdentityMode::Onboarding { step, answers, current_input } => {
            let mut answers = answers;
            let mut step = step;
            let mut current_input = current_input;
            let ghost a0 = answers@;
            let ghost c0 = current_input@;
            match key.code {
                KeyCode::Enter => {
                    answers.set(step, current_input.clone());
                    assert(strings_view(answers@) =~= strings_view(a0).update(step as int, c0));
                    if step < QUESTION_COUNT - 1 {
                        step = step + 1;
                        current_input = answers[step].clone();
                        (IdentityMode::Onboarding { step, answers, current_input }, IdentityAction::Nothing)
                    } else {
                        (IdentityMode::Onboarding { step, answers, current_input }, IdentityAction::Generate)
                    }
                },
                KeyCode::Backspace => {
                    pop_char(&mut current_input);
                    (IdentityMode::Onboarding { step, answers, current_input }, IdentityAction::Nothing)
                },
                KeyCode::Left => {
                    if step > 0 {
                        answers.set(step, current_input.clone());
                        assert(strings_view(answers@) =~= strings_view(a0).update(step as int, c0));
                        step = step - 1;
                        current_input = answers[step].clone();
                    }
                    (IdentityMode::Onboarding { step, answers, current_input }, IdentityAction::Nothing)
                },
                KeyCode::Char(c) => {
                    push_char(&mut current_input, c);
                    (IdentityMode::Onboarding { step, answers, current_input }, IdentityAction::Nothing)
                },
                _ => (IdentityMode::Onboarding { step, answers, current_input }, IdentityAction::Nothing),
            }
        },
        IdentityMode::Review { generated, answers } => {
            let action = match key.code {
                KeyCode::Enter => IdentityAction::Save,
                KeyCode::Char('r') => IdentityAction::Regenerate,
                _ => IdentityAction::Nothing,
            };
            (IdentityMode::Review { generated, answers }, action)
        },
    }
}


/// The identity document as the API holds it.
#[derive(Debug, Clone)]
pub struct IdentityDocument {
    pub content: String,
    /// Whether the document was saved as complete.
    pub complete: bool,
}

/// The identity view for a fetched document: the interview starts afresh
/// when there is no document, or when it is empty and not complete;
/// otherwise the document is shown.
pub open spec fn starts_interview(doc: Option<IdentityDocument>) -> bool {
    match doc {
        None => true,
        Some(d) => !d.complete && d.content@.len() == 0,
    }
}

/// The identity view for a fetched document (`None`: the API holds none).
pub fn mode_for_document(doc: Option<IdentityDocument>) -> (r: IdentityMode)
    ensures
        r.wf(),
        starts_interview(doc) ==> r.is_fresh_onboarding(),
        !starts_interview(doc) ==> (doc matches Some(d) && r == (IdentityMode::View { content: d.content, complete: d.complete })),
{
    match doc {
        None => IdentityMode::start_onboarding(),
        Some(d) => {
            if !d.complete && d.content.as_str().is_empty() {
                IdentityMode::start_onboarding()
            } else {
                IdentityMode::View { content: d.content, complete: d.complete }
            }
        },
    }
}

} // verus!
