//! Chat view state: a question-and-answer session with optional project or
//! lead context.

use vstd::prelude::*;
use crate::text::{
    byte_prefix, char_index_of_byte, chars_of, concat, exceeds_bytes, is_byte_boundary,
    string_of_range, utf8_len,
};

verus! {

/// A single chat message.
#[derive(Debug, Clone)]
pub struct ChatMessage {
    /// `user` or `assistant`.
    pub role: String,
    pub content: String,
}

/// Chat view state.
#[derive(Debug, Clone)]
pub struct ChatState {
    /// Project slug for context (if navigated from project view).
    pub project_slug: Option<String>,
    /// Lead ID for context (if navigated from lead detail).
    pub lead_id: Option<String>,
    /// Chat history for this session.
    pub messages: Vec<ChatMessage>,
    /// Current input text.
    pub input: String,
    /// Whether we are waiting for a response.
    pub loading: bool,
    /// Scroll offset for messages.
    pub scroll: u16,
}

/// A lead id as shown in the chat header: its first 8 bytes.
pub open spec fn short_id(id: Seq<char>) -> Seq<char> {
    if utf8_len(id) <= 8 {
        id
    } else {
        byte_prefix(id, 8)
    }
}

impl ChatState {
    /// A fresh session with this context: no messages, no input, idle.
    pub open spec fn is_fresh(&self, project_slug: Option<String>, lead_id: Option<String>) -> bool {
        &&& self.project_slug == project_slug
        &&& self.lead_id == lead_id
        &&& self.messages@.len() == 0
        &&& self.input@.len() == 0
        &&& !self.loading
        &&& self.scroll == 0
    }

    /// Create a new chat state with optional project or lead context.
    pub fn new(project_slug: Option<String>, lead_id: Option<String>) -> (r: Self)
        ensures
            r.is_fresh(project_slug, lead_id),
    {
        ChatState { project_slug, lead_id, messages: Vec::new(), input: String::new(), loading: false, scroll: 0 }
    }

    /// The context shown in the header: the project slug, else `Lead `
    /// and the lead id's first 8 bytes, else `Global`.
    pub open spec fn spec_context_label(&self) -> Seq<char> {
        match self.project_slug {
            Some(slug) => slug@,
            None => match self.lead_id {
                Some(id) => "Lead "@ + short_id(id@),
                None => "Global"@,
            },
        }
    }

    /// Cutting a lead id after 8 bytes lands between characters.
    pub open spec fn label_cut_ok(&self) -> bool {
        self.project_slug is None ==> (self.lead_id matches Some(id) ==> (utf8_len(id@) > 8
            ==> is_byte_boundary(id@, 8)))
    }

    /// Get context label for display.
    pub fn context_label(&self) -> (r: String)
        requires
            self.label_cut_ok(),
        ensures
            r@ == self.spec_context_label(),
    {
        match &self.project_slug {
            Some(slug) => slug.clone(),
            None => match &self.lead_id {
                Some(id) => {
                    let v = chars_of(id.as_str());
                    let shown = if exceeds_bytes(&v, 8) {
                        let cut = char_index_of_byte(&v, 8);
                        string_of_range(&v, 0, cut)
                    } else {
                        let s = string_of_range(&v, 0, v.len());
                        assert(v@.subrange(0, v@.len() as int) =~= v@);
                        s
                    };
                    concat("Lead ", shown.as_str())
                },
                None => String::from_str("Global"),
            },
        }
    }
}

impl Default for ChatState {
    /// A fresh session without context.
    fn default() -> (r: Self)
        ensures
            r.is_fresh(None, None),
    {
        ChatState::new(None, None)
    }
}

} // verus!
