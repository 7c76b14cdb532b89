//! The application's decisions. A key press, or the outcome of a request,
//! changes the state and names the next request to make (a `Command`); the
//! program around this library makes it and reports back an `Outcome`.

use vstd::prelude::*;
use crate::text::{
    chars_of, concat, is_alphanumeric, opt_view, pop_char, push_char, spec_is_alphanumeric, spec_to_lowercase,
    split_once, split_once_at, str_eq, strings_view, to_lowercase, trim, trimmed,
};
use crate::tui::app::{global_key_step, navigated, went_back, App, InputMode};
use crate::tui::data::{ActivityEntry, DashboardData};
use crate::tui::keys::{is_quit, spec_is_quit, Key, KeyCode};
use crate::tui::view;
use crate::tui::views::changes::PendingChange;
use crate::tui::views::chat::{ChatMessage, ChatState};
use crate::tui::views::clients::{ClientDetailData, ClientSummary};
use crate::tui::views::identity::{
    handle_key, identity_key_step, mode_for_document, starts_interview, IdentityAction, IdentityDocument,
    IdentityMode,
};
use crate::tui::views::lead::{stage_names, stage_position, LeadDetail, StagePicker};
use crate::tui::views::pipeline::{derefs, filter_leads, LeadSummary};
use crate::tui::views::project::ProjectData;
use crate::tui::views::search::SearchResult;
use crate::tui::views::skills::SkillSummary;
use crate::tui::views::status::{StatusData, StatusSection};

verus! {

/// A request for the program to make.
#[derive(Debug)]
pub enum Command {
    /// Nothing to do.
    Nothing,
    /// Fetch the user's name: the first request the program makes.
    LoadUserName,
    /// Fetch the dashboard.
    LoadDashboard,
    /// Fetch a project for the view just opened.
    LoadProject { slug: String },
    /// Fetch the daily status for the view just opened.
    LoadStatus,
    /// Fetch a lead for the view just opened.
    LoadLead { id: String },
    /// Fetch the pending changes for the view just opened.
    LoadChanges,
    /// Fetch the leads for the view just opened.
    LoadPipeline,
    /// Fetch the team activity of the last `days` days.
    LoadActivity { days: u32 },
    /// Fetch the clients for the view just opened.
    LoadClients,
    /// Fetch a client for the view just opened.
    LoadClientDetail { slug: String },
    /// Fetch the skills for the view just opened.
    LoadSkills,
    /// Fetch the identity document.
    LoadIdentity,
    /// Fetch a project again after a change.
    RefreshProject { slug: String },
    /// Fetch the dashboard again after a change.
    ReloadDashboard,
    /// Fetch the leads again after a change.
    ReloadPipeline,
    /// Fetch a lead again after a change.
    ReloadLead { id: String },
    /// Fetch the daily status again after a change.
    ReloadStatus,
    /// Fetch the daily status again, keeping the selection.
    ReloadStatusKeepingSelection,
    /// Push a local file to a project.
    PushFile { project_slug: String, path: String },
    /// Link a GitHub repository to a project.
    LinkRepo { project_slug: String, github_repo: String },
    /// Create a task in a project.
    CreateTask { project_slug: String, title: String },
    /// Create a decision in a project.
    CreateDecision { project_slug: String, title: String },
    /// Create a lead.
    CreateLead { company_name: String },
    /// Create a project.
    CreateProject { name: String, slug: String },
    /// Add a note to a lead.
    AddLeadNote { lead_id: String, content: String },
    /// Add a contact to a lead.
    AddLeadContact { lead_id: String, name: String, email: Option<String> },
    /// Resolve a decision.
    ResolveDecision { project_slug: String, decision_id: String, resolution: String },
    /// Set a task's status.
    UpdateTaskStatus { project_slug: String, task_id: String, status: String },
    /// Set a lead's stage.
    UpdateLeadStage { lead_id: String, stage: String },
    /// Delete a lead from the pipeline list.
    DeleteLead { lead_id: String },
    /// Delete the lead whose detail was open.
    DeleteOpenLead { lead_id: String },
    /// Approve a pending change.
    ApproveChange { id: String },
    /// Reject a pending change.
    RejectChange { id: String },
    /// Ask the assistant a question in the given context.
    Chat { question: String, project_slug: Option<String>, lead_id: Option<String> },
    /// Run a search.
    Search { query: String },
    /// Run a skill.
    RunSkill { slug: String },
    /// Generate an identity document from the interview answers.
    GenerateIdentity { answers: Vec<String> },
    /// Save the identity document as complete.
    SaveIdentity { content: String },
}

/// What came of a request.
#[derive(Debug)]
pub enum Outcome {
    /// The user's name, if it could be fetched.
    UserNameLoaded(Option<String>),
    /// The dashboard, or the error that prevented fetching it.
    DashboardLoaded(Result<DashboardData, String>),
    /// A project for a view just opened (`None`: the request failed).
    ProjectLoaded(Option<ProjectData>),
    StatusLoaded(Option<StatusData>),
    LeadLoaded(Option<LeadDetail>),
    ChangesLoaded(Option<Vec<PendingChange>>),
    PipelineLoaded(Option<Vec<LeadSummary>>),
    ActivityLoaded(Option<Vec<ActivityEntry>>),
    ClientsLoaded(Option<Vec<ClientSummary>>),
    ClientDetailLoaded(Option<ClientDetailData>),
    SkillsLoaded(Option<Vec<SkillSummary>>),
    /// The identity document (`Ok(None)`: the API holds none), or the
    /// error that prevented fetching it.
    IdentityLoaded(Result<Option<IdentityDocument>, String>),
    /// A project fetched again (`None`: the request failed).
    ProjectRefreshed(Option<ProjectData>),
    DashboardReloaded(Option<DashboardData>),
    PipelineReloaded(Option<Vec<LeadSummary>>),
    LeadReloaded(Option<LeadDetail>),
    StatusReloaded(Option<StatusData>),
    StatusReloadedKeepingSelection(Option<StatusData>),
    /// A file push to a project finished, successfully or not.
    FilePushed { project_slug: String, ok: bool },
    /// A repository link, task or decision request for a project finished.
    ProjectChanged { project_slug: String },
    /// A lead creation request finished.
    LeadCreated,
    /// A project creation request finished.
    ProjectCreated,
    /// A note, contact or stage request for a lead finished.
    LeadChanged { lead_id: String },
    /// A decision resolution request finished.
    DecisionResolved,
    /// A task status request finished.
    TaskStatusUpdated,
    /// The deletion of the open lead finished.
    OpenLeadDeleted,
    /// An approval or rejection finished, successfully or not.
    ChangeDecided { ok: bool },
    /// The assistant's answer (`Ok(None)`: the reply held none), or the error.
    ChatAnswered(Result<Option<String>, String>),
    /// Search results, or `None` when the search failed.
    SearchFinished(Option<Vec<SearchResult>>),
    /// A skill's output (`Ok(None)`: the reply held none), or the error.
    SkillRan(Result<Option<String>, String>),
    /// A generated identity document (`Ok(None)`: the reply held none), or
    /// the error.
    IdentityGenerated(Result<Option<String>, String>),
    /// A request whose outcome changes nothing.
    Done,
}

// ---------------------------------------------------------------------------
// Selection and text editing
// ---------------------------------------------------------------------------

/// One step down a list of `len` items; the last item stays selected.
pub open spec fn inc_sel(sel: usize, len: nat) -> usize {
    if len > 0 && sel < len - 1 {
        (sel + 1) as usize
    } else {
        sel
    }
}

/// One step up a list; the first item stays selected.
pub open spec fn dec_sel(sel: usize) -> usize {
    if sel > 0 {
        (sel - 1) as usize
    } else {
        sel
    }
}

/// Text after a backspace.
pub open spec fn popped(s: Seq<char>) -> Seq<char> {
    if s.len() > 0 {
        s.drop_last()
    } else {
        s
    }
}

fn inc(sel: usize, len: usize) -> (r: usize)
    ensures
        r == inc_sel(sel, len as nat),
{
    if len > 0 && sel < len - 1 {
        sel + 1
    } else {
        sel
    }
}

fn dec(sel: usize) -> (r: usize)
    ensures
        r == dec_sel(sel),
{
    if sel > 0 {
        sel - 1
    } else {
        sel
    }
}

fn backspace(s: &mut String)
    ensures
        final(s)@ == popped(old(s)@),
{
    pop_char(s);
}

/// `j` or the down arrow.
pub open spec fn is_down(key: Key) -> bool {
    key.is_char('j') || key.code == KeyCode::Down
}

/// `k` or the up arrow.
pub open spec fn is_up(key: Key) -> bool {
    key.is_char('k') || key.code == KeyCode::Up
}

fn key_is_down(key: &Key) -> (r: bool)
    ensures
        r == is_down(*key),
{
    match key.code {
        KeyCode::Char(c) => c == 'j',
        KeyCode::Down => true,
        _ => false,
    }
}

fn key_is_up(key: &Key) -> (r: bool)
    ensures
        r == is_up(*key),
{
    match key.code {
        KeyCode::Char(c) => c == 'k',
        KeyCode::Up => true,
        _ => false,
    }
}

fn key_is_char(key: &Key, c: char) -> (r: bool)
    ensures
        r == key.is_char(c),
{
    match key.code {
        KeyCode::Char(d) => d == c,
        _ => false,
    }
}

/// A message from the user with this text.
pub open spec fn is_user_message(m: ChatMessage, text: Seq<char>) -> bool {
    m.role@ == "user"@ && m.content@ == text
}

/// An answer of the assistant with this text.
pub open spec fn is_assistant_message(m: ChatMessage, text: Seq<char>) -> bool {
    m.role@ == "assistant"@ && m.content@ == text
}

/// The input bar collects `mode` and starts empty.
pub open spec fn input_opened(pre: App, mode: InputMode, post: App) -> bool {
    post == (App { input_mode: Some(mode), input_buffer: post.input_buffer, ..pre })
        && post.input_buffer@.len() == 0
}

/// The chat view opened afresh with this context.
pub open spec fn chat_opened(pre: App, project_slug: Option<String>, lead_id: Option<String>, post: App) -> bool {
    post == (App { chat: post.chat, ..navigated(pre, view::View::Chat) })
        && post.chat.is_fresh(project_slug, lead_id)
}

// ---------------------------------------------------------------------------
// Views with a plain list
// ---------------------------------------------------------------------------

/// Keys of the pending-changes view: move the selection, approve or
/// reject the selected change.
pub open spec fn changes_key_step(pre: App, key: Key, post: App, cmd: Command) -> bool {
    let s = pre.changes;
    if is_down(key) {
        post == (App { changes: crate::tui::views::changes::ChangesState { selected: inc_sel(s.selected, s.changes@.len()), ..s }, ..pre })
            && cmd == Command::Nothing
    } else if is_up(key) {
        post == (App { changes: crate::tui::views::changes::ChangesState { selected: dec_sel(s.selected), ..s }, ..pre })
            && cmd == Command::Nothing
    } else if key.is_char('a') && s.selected < s.changes@.len() {
        post == pre && cmd == (Command::ApproveChange { id: s.changes@[s.selected as int].id })
    } else if key.is_char('r') && s.selected < s.changes@.len() {
        post == pre && cmd == (Command::RejectChange { id: s.changes@[s.selected as int].id })
    } else {
        post == pre && cmd == Command::Nothing
    }
}

/// Keys of the skills view: move the selection, run the selected skill,
/// `Esc` closes its output.
pub open spec fn skills_key_step(pre: App, key: Key, post: App, cmd: Command) -> bool {
    let s = pre.skills;
    if is_down(key) {
        post == (App { skills: crate::tui::views::skills::SkillsState { selected: inc_sel(s.selected, s.skills@.len()), ..s }, ..pre })
            && cmd == Command::Nothing
    } else if is_up(key) {
        post == (App { skills: crate::tui::views::skills::SkillsState { selected: dec_sel(s.selected), ..s }, ..pre })
            && cmd == Command::Nothing
    } else if key.code == KeyCode::Enter && s.selected < s.skills@.len() {
        post == pre && cmd == (Command::RunSkill { slug: s.skills@[s.selected as int].slug })
    } else if key.code == KeyCode::Esc {
        post == (App { skills: crate::tui::views::skills::SkillsState { run_output: None, ..s }, ..pre })
            && cmd == Command::Nothing
    } else {
        post == pre && cmd == Command::Nothing
    }
}

/// Keys of the clients list: move the selection, open the selected client.
pub open spec fn clients_key_step(pre: App, key: Key, post: App, cmd: Command) -> bool {
    let s = pre.clients;
    if is_down(key) {
        post == (App { clients: crate::tui::views::clients::ClientsState { selected: inc_sel(s.selected, s.clients@.len()), ..s }, ..pre })
            && cmd == Command::Nothing
    } else if is_up(key) {
        post == (App { clients: crate::tui::views::clients::ClientsState { selected: dec_sel(s.selected), ..s }, ..pre })
            && cmd == Command::Nothing
    } else if key.code == KeyCode::Enter && s.selected < s.clients@.len() {
        let slug = s.clients@[s.selected as int].slug;
        post == navigated(pre, view::View::ClientDetail { slug }) && cmd == (Command::LoadClientDetail { slug })
    } else {
        post == pre && cmd == Command::Nothing
    }
}

/// Keys of a client's detail: move the selection among its projects, open
/// the selected project.
pub open spec fn client_detail_key_step(pre: App, key: Key, post: App, cmd: Command) -> bool {
    match pre.clients.detail {
        Some(d) => if is_down(key) {
            post == (App { clients: crate::tui::views::clients::ClientsState { detail: Some(ClientDetailData { selected: inc_sel(d.selected, d.projects@.len()), ..d }), ..pre.clients }, ..pre })
                && cmd == Command::Nothing
        } else if is_up(key) {
            post == (App { clients: crate::tui::views::clients::ClientsState { detail: Some(ClientDetailData { selected: dec_sel(d.selected), ..d }), ..pre.clients }, ..pre })
                && cmd == Command::Nothing
        } else if key.code == KeyCode::Enter && d.selected < d.projects@.len() {
            let slug = d.projects@[d.selected as int].slug;
            post == navigated(pre, view::View::Project { slug }) && cmd == (Command::LoadProject { slug })
        } else {
            post == pre && cmd == Command::Nothing
        },
        None => post == pre && cmd == Command::Nothing,
    }
}

impl App {
    /// Keys of the pending-changes view.
    pub fn handle_changes_keys(&mut self, key: &Key) -> (cmd: Command)
        ensures
            changes_key_step(*old(self), *key, *final(self), cmd),
    {
        if key_is_down(key) {
            self.changes.selected = inc(self.changes.selected, self.changes.changes.len());
            Command::Nothing
        } else if key_is_up(key) {
            self.changes.selected = dec(self.changes.selected);
            Command::Nothing
        } else if key_is_char(key, 'a') && self.changes.selected < self.changes.changes.len() {
            Command::ApproveChange { id: self.changes.changes[self.changes.selected].id.clone() }
        } else if key_is_char(key, 'r') && self.changes.selected < self.changes.changes.len() {
            Command::RejectChange { id: self.changes.changes[self.changes.selected].id.clone() }
        } else {
            Command::Nothing
        }
    }

    /// Keys of the skills view.
    pub fn handle_skills_keys(&mut self, key: &Key) -> (cmd: Command)
        ensures
            skills_key_step(*old(self), *key, *final(self), cmd),
    {
        if key_is_down(key) {
            self.skills.selected = inc(self.skills.selected, self.skills.skills.len());
            Command::Nothing
        } else if key_is_up(key) {
            self.skills.selected = dec(self.skills.selected);
            Command::Nothing
        } else if key.code == KeyCode::Enter && self.skills.selected < self.skills.skills.len() {
            Command::RunSkill { slug: self.skills.skills[self.skills.selected].slug.clone() }
        } else if key.code == KeyCode::Esc {
            self.skills.run_output = None;
            Command::Nothing
        } else {
            Command::Nothing
        }
    }

    /// Keys of the clients list.
    pub fn handle_clients_keys(&mut self, key: &Key) -> (cmd: Command)
        ensures
            clients_key_step(*old(self), *key, *final(self), cmd),
    {
        if key_is_down(key) {
            self.clients.selected = inc(self.clients.selected, self.clients.clients.len());
            Command::Nothing
        } else if key_is_up(key) {
            self.clients.selected = dec(self.clients.selected);
            Command::Nothing
        } else if key.code == KeyCode::Enter && self.clients.selected < self.clients.clients.len() {
            let slug = self.clients.clients[self.clients.selected].slug.clone();
            self.navigate(view::View::ClientDetail { slug: slug.clone() });
            Command::LoadClientDetail { slug }
        } else {
            Command::Nothing
        }
    }

    /// Keys of a client's detail.
    pub fn handle_client_detail_keys(&mut self, key: &Key) -> (cmd: Command)
        ensures
            client_detail_key_step(*old(self), *key, *final(self), cmd),
    {
        let ghost pre = *self;
        match &mut self.clients.detail {
            Some(d) => {
                if key_is_down(key) {
                    d.selected = inc(d.selected, d.projects.len());
                    Command::Nothing
                } else if key_is_up(key) {
                    d.selected = dec(d.selected);
                    Command::Nothing
                } else if key.code == KeyCode::Enter && d.selected < d.projects.len() {
                    let slug = d.projects[d.selected].slug.clone();
                    self.navigate(view::View::Project { slug: slug.clone() });
                    Command::LoadProject { slug }
                } else {
                    Command::Nothing
                }
            },
            None => Command::Nothing,
        }
    }
}


// ---------------------------------------------------------------------------
// Views that capture typing
// ---------------------------------------------------------------------------

fn clone_opt(o: &Option<String>) -> (r: Option<String>)
    ensures
        r == *o,
{
    match o {
        Some(s) => Some(s.clone()),
        None => None,
    }
}

fn user_message(text: String) -> (m: ChatMessage)
    ensures
        is_user_message(m, text@),
{
    ChatMessage { role: String::from_str("user"), content: text }
}

fn assistant_message(text: String) -> (m: ChatMessage)
    ensures
        is_assistant_message(m, text@),
{
    ChatMessage { role: String::from_str("assistant"), content: text }
}

/// The messages are those before, then one more that satisfies `last`.
pub open spec fn appended(before: Seq<ChatMessage>, after: Seq<ChatMessage>) -> bool {
    after.len() == before.len() + 1 && after.drop_last() == before
}

/// Keys of the search view. Typing edits the query; `Enter` runs a
/// non-empty query; `Esc` clears the query, or goes back when it is empty;
/// the arrows move the selection; Control-C quits.
pub open spec fn search_key_step(pre: App, key: Key, post: App, cmd: Command) -> bool {
    let s = pre.search;
    match key.code {
        KeyCode::Esc => cmd == Command::Nothing && if s.query@.len() == 0 {
            post == went_back(pre)
        } else {
            &&& post == (App { search: crate::tui::views::search::SearchState { query: post.search.query, results: post.search.results, searched: false, ..s }, ..pre })
            &&& post.search.query@.len() == 0
            &&& post.search.results@.len() == 0
        },
        KeyCode::Backspace => {
            &&& post == (App { search: crate::tui::views::search::SearchState { query: post.search.query, ..s }, ..pre })
            &&& post.search.query@ == popped(s.query@)
            &&& cmd == Command::Nothing
        },
        KeyCode::Enter => if s.query@.len() > 0 {
            post == (App { search: crate::tui::views::search::SearchState { searching: true, ..s }, ..pre })
                && cmd == (Command::Search { query: s.query })
        } else {
            post == pre && cmd == Command::Nothing
        },
        KeyCode::Down => post == (App { search: crate::tui::views::search::SearchState { selected: inc_sel(s.selected, s.results@.len()), ..s }, ..pre })
            && cmd == Command::Nothing,
        KeyCode::Up => post == (App { search: crate::tui::views::search::SearchState { selected: dec_sel(s.selected), ..s }, ..pre })
            && cmd == Command::Nothing,
        KeyCode::Char(c) => cmd == Command::Nothing && if c == 'c' && key.ctrl {
            post == (App { running: false, ..pre })
        } else {
            &&& post == (App { search: crate::tui::views::search::SearchState { query: post.search.query, ..s }, ..pre })
            &&& post.search.query@ == s.query@.push(c)
        },
        _ => post == pre && cmd == Command::Nothing,
    }
}

/// Keys of the chat view. While an answer is awaited only `Esc` (back)
/// does anything. Otherwise typing edits the question, `Enter` sends a
/// non-empty question (it joins the history and the input empties), `Esc`
/// goes back and Control-C quits.
pub open spec fn chat_key_step(pre: App, key: Key, post: App, cmd: Command) -> bool {
    let c = pre.chat;
    if c.loading {
        cmd == Command::Nothing && if key.code == KeyCode::Esc {
            post == went_back(pre)
        } else {
            post == pre
        }
    } else {
        match key.code {
            KeyCode::Esc => post == went_back(pre) && cmd == Command::Nothing,
            KeyCode::Backspace => {
                &&& post == (App { chat: ChatState { input: post.chat.input, ..c }, ..pre })
                &&& post.chat.input@ == popped(c.input@)
                &&& cmd == Command::Nothing
            },
            KeyCode::Enter => if c.input@.len() > 0 {
                &&& post == (App { chat: ChatState { input: post.chat.input, messages: post.chat.messages, loading: true, ..c }, ..pre })
                &&& post.chat.input@.len() == 0
                &&& appended(c.messages@, post.chat.messages@)
                &&& is_user_message(post.chat.messages@.last(), c.input@)
                &&& cmd == (Command::Chat { question: c.input, project_slug: c.project_slug, lead_id: c.lead_id })
            } else {
                post == pre && cmd == Command::Nothing
            },
            KeyCode::Char(ch) => cmd == Command::Nothing && if ch == 'c' && key.ctrl {
                post == (App { running: false, ..pre })
            } else {
                &&& post == (App { chat: ChatState { input: post.chat.input, ..c }, ..pre })
                &&& post.chat.input@ == c.input@.push(ch)
            },
            _ => post == pre && cmd == Command::Nothing,
        }
    }
}

/// Keys while the pipeline filter is being typed: typing edits the filter
/// and selects the first lead, `Enter` keeps the filter and stops typing,
/// `Esc` drops the filter.
pub open spec fn pipeline_filter_key_step(pre: App, key: Key, post: App) -> bool {
    let p = pre.pipeline;
    match key.code {
        KeyCode::Esc => post == (App { pipeline: crate::tui::views::pipeline::PipelineState { filtering: false, filter: None, selected: 0, ..p }, ..pre }),
        KeyCode::Backspace => {
            &&& post == (App { pipeline: crate::tui::views::pipeline::PipelineState { filter: post.pipeline.filter, ..p }, ..pre })
            &&& match p.filter {
                Some(f) => post.pipeline.filter matches Some(g) && g@ == popped(f@),
                None => post.pipeline.filter is None,
            }
        },
        KeyCode::Enter => post == (App { pipeline: crate::tui::views::pipeline::PipelineState { filtering: false, ..p }, ..pre }),
        KeyCode::Char(c) => {
            &&& post == (App { pipeline: crate::tui::views::pipeline::PipelineState { filter: post.pipeline.filter, selected: 0, ..p }, ..pre })
            &&& match p.filter {
                Some(f) => post.pipeline.filter matches Some(g) && g@ == f@.push(c),
                None => post.pipeline.filter is None,
            }
        },
        _ => post == pre,
    }
}

impl App {
    /// Keys of the search view.
    pub fn handle_search_keys(&mut self, key: &Key) -> (cmd: Command)
        ensures
            search_key_step(*old(self), *key, *final(self), cmd),
    {
        match key.code {
            KeyCode::Esc => {
                if self.search.query.as_str().is_empty() {
                    self.go_back();
                } else {
                    self.search.query = String::new();
                    self.search.results = Vec::new();
                    self.search.searched = false;
                }
                Command::Nothing
            },
            KeyCode::Backspace => {
                backspace(&mut self.search.query);
                Command::Nothing
            },
            KeyCode::Enter => {
                if !self.search.query.as_str().is_empty() {
                    self.search.searching = true;
                    Command::Search { query: self.search.query.clone() }
                } else {
                    Command::Nothing
                }
            },
            KeyCode::Down => {
                self.search.selected = inc(self.search.selected, self.search.results.len());
                Command::Nothing
            },
            KeyCode::Up => {
                self.search.selected = dec(self.search.selected);
                Command::Nothing
            },
            KeyCode::Char(c) => {
                if c == 'c' && key.ctrl {
                    self.running = false;
                } else {
                    push_char(&mut self.search.query, c);
                }
                Command::Nothing
            },
            _ => Command::Nothing,
        }
    }

    /// Keys of the chat view.
    pub fn handle_chat_keys(&mut self, key: &Key) -> (cmd: Command)
        ensures
            chat_key_step(*old(self), *key, *final(self), cmd),
    {
        if self.chat.loading {
            if key.code == KeyCode::Esc {
                self.go_back();
            }
            Command::Nothing
        } else {
            self.handle_chat_input_keys(key)
        }
    }

    fn handle_chat_input_keys(&mut self, key: &Key) -> (cmd: Command)
        requires
            !old(self).chat.loading,
        ensures
            chat_key_step(*old(self), *key, *final(self), cmd),
    {
        match key.code {
            KeyCode::Esc => {
                self.go_back();
                Command::Nothing
            },
            KeyCode::Backspace => {
                backspace(&mut self.chat.input);
                Command::Nothing
            },
            KeyCode::Enter => {
                if !self.chat.input.as_str().is_empty() {
                    let question = self.chat.input.clone();
                    self.chat.input = String::new();
                    let ghost before = self.chat.messages@;
                    self.chat.messages.push(user_message(question.clone()));
                    assert(self.chat.messages@.drop_last() =~= before);
                    self.chat.loading = true;
                    Command::Chat {
                        question,
                        project_slug: clone_opt(&self.chat.project_slug),
                        lead_id: clone_opt(&self.chat.lead_id),
                    }
                } else {
                    Command::Nothing
                }
            },
            KeyCode::Char(c) => {
                if c == 'c' && key.ctrl {
                    self.running = false;
                } else {
                    push_char(&mut self.chat.input, c);
                }
                Command::Nothing
            },
            _ => Command::Nothing,
        }
    }

    /// Keys while the pipeline filter is being typed.
    pub fn handle_pipeline_filter(&mut self, key: &Key)
        ensures
            pipeline_filter_key_step(*old(self), *key, *final(self)),
    {
        match key.code {
            KeyCode::Esc => {
                self.pipeline.filtering = false;
                self.pipeline.filter = None;
                self.pipeline.selected = 0;
            },
            KeyCode::Backspace => {
                match &mut self.pipeline.filter {
                    Some(f) => {
                        backspace(f);
                    },
                    None => {},
                }
            },
            KeyCode::Enter => {
                self.pipeline.filtering = false;
            },
            KeyCode::Char(c) => {
                match &mut self.pipeline.filter {
                    Some(f) => push_char(f, c),
                    None => {},
                }
                self.pipeline.selected = 0;
            },
            _ => {},
        }
    }
}


// ---------------------------------------------------------------------------
// Pipeline, lead and project views
// ---------------------------------------------------------------------------

/// The leads other than those with this id, in their order.
pub open spec fn without_lead(leads: Seq<LeadSummary>, id: Seq<char>) -> Seq<LeadSummary>
    decreases leads.len(),
{
    if leads.len() == 0 {
        Seq::<LeadSummary>::empty()
    } else {
        let rest = without_lead(leads.drop_last(), id);
        if leads.last().id@ == id {
            rest
        } else {
            rest.push(leads.last())
        }
    }
}

/// The selection after the list it points into shrank to `len` items: it
/// moves up one when it fell off the end (unless it is already at the top).
pub open spec fn clamp_after_removal(sel: usize, len: nat) -> usize {
    if sel > 0 && sel >= len {
        (sel - 1) as usize
    } else {
        sel
    }
}

fn remove_lead(leads: &mut Vec<LeadSummary>, id: &str)
    ensures
        final(leads)@ == without_lead(old(leads)@, id@),
{
    let mut all: Vec<LeadSummary> = Vec::new();
    core::mem::swap(&mut all, leads);
    let ghost orig = all@;
    let mut kept: Vec<LeadSummary> = Vec::new();
    assert(orig.take(0) =~= Seq::<LeadSummary>::empty());
    for lead in it: all
        invariant
            it.seq() == orig,
            kept@ == without_lead(orig.take(it.index() as int), id@),
    {
        let ghost i = it.index() as int;
        assert(orig.take(i + 1).drop_last() =~= orig.take(i));
        assert(orig.take(i + 1).last() == lead);
        if !str_eq(lead.id.as_str(), id) {
            kept.push(lead);
        }
    }
    assert(orig.take(orig.len() as int) =~= orig);
    *leads = kept;
}

/// Keys of the pipeline list. While a deletion awaits confirmation, `y`
/// deletes the selected lead (it leaves the list at once) and any key
/// ends the confirmation. Otherwise the selection moves within the shown
/// leads, `Enter` opens the selected lead, `n` asks for a new lead's name,
/// `d` asks to confirm a deletion and `/` starts typing a filter.
pub open spec fn pipeline_key_step(pre: App, key: Key, post: App, cmd: Command) -> bool {
    let p = pre.pipeline;
    let shown = p.shown();
    if p.confirm_delete {
        if key.is_char('y') && p.selected < shown.len() {
            let id = shown[p.selected as int].id;
            let kept = without_lead(p.leads@, id@);
            &&& post == (App { pipeline: crate::tui::views::pipeline::PipelineState {
                leads: post.pipeline.leads,
                selected: clamp_after_removal(p.selected, filter_leads(kept, p.filter).len()),
                confirm_delete: false,
                ..p
            }, ..pre })
            &&& post.pipeline.leads@ == kept
            &&& cmd == (Command::DeleteLead { lead_id: id })
        } else {
            post == (App { pipeline: crate::tui::views::pipeline::PipelineState { confirm_delete: false, ..p }, ..pre })
                && cmd == Command::Nothing
        }
    } else if is_down(key) {
        post == (App { pipeline: crate::tui::views::pipeline::PipelineState { selected: inc_sel(p.selected, shown.len()), ..p }, ..pre })
            && cmd == Command::Nothing
    } else if is_up(key) {
        post == (App { pipeline: crate::tui::views::pipeline::PipelineState { selected: dec_sel(p.selected), ..p }, ..pre })
            && cmd == Command::Nothing
    } else if key.code == KeyCode::Enter {
        if p.selected < shown.len() {
            let id = shown[p.selected as int].id;
            post == navigated(pre, view::View::LeadDetail { id }) && cmd == (Command::LoadLead { id })
        } else {
            post == pre && cmd == Command::Nothing
        }
    } else if key.is_char('n') {
        input_opened(pre, InputMode::NewLead, post) && cmd == Command::Nothing
    } else if key.is_char('d') {
        cmd == Command::Nothing && if shown.len() > 0 {
            post == (App { pipeline: crate::tui::views::pipeline::PipelineState { confirm_delete: true, ..p }, ..pre })
        } else {
            post == pre
        }
    } else if key.is_char('/') {
        &&& post == (App { pipeline: crate::tui::views::pipeline::PipelineState { filtering: true, filter: post.pipeline.filter, selected: 0, ..p }, ..pre })
        &&& post.pipeline.filter matches Some(f) && f@.len() == 0
        &&& cmd == Command::Nothing
    } else {
        post == pre && cmd == Command::Nothing
    }
}

impl App {
    /// Keys of the pipeline list.
    pub fn handle_pipeline_keys(&mut self, key: &Key) -> (cmd: Command)
        ensures
            pipeline_key_step(*old(self), *key, *final(self), cmd),
    {
        if self.pipeline.confirm_delete {
            let mut cmd = Command::Nothing;
            if key_is_char(key, 'y') {
                let shown = self.pipeline.filtered_leads();
                proof {
                    assert(shown@.len() == derefs(shown@).len());
                }
                if self.pipeline.selected < shown.len() {
                    let id = shown[self.pipeline.selected].id.clone();
                    proof {
                        assert(derefs(shown@)[self.pipeline.selected as int] == *shown@[self.pipeline.selected as int]);
                    }
                    remove_lead(&mut self.pipeline.leads, id.as_str());
                    let n = self.pipeline.filtered_leads().len();
                    if self.pipeline.selected > 0 && self.pipeline.selected >= n {
                        self.pipeline.selected = self.pipeline.selected - 1;
                    }
                    cmd = Command::DeleteLead { lead_id: id };
                }
            }
            self.pipeline.confirm_delete = false;
            return cmd;
        }
        if key_is_down(key) {
            let n = self.pipeline.filtered_leads().len();
            self.pipeline.selected = inc(self.pipeline.selected, n);
            Command::Nothing
        } else if key_is_up(key) {
            self.pipeline.selected = dec(self.pipeline.selected);
            Command::Nothing
        } else if key.code == KeyCode::Enter {
            let shown = self.pipeline.filtered_leads();
            proof {
                assert(shown@.len() == derefs(shown@).len());
            }
            if self.pipeline.selected < shown.len() {
                let id = shown[self.pipeline.selected].id.clone();
                proof {
                    assert(derefs(shown@)[self.pipeline.selected as int] == *shown@[self.pipeline.selected as int]);
                }
                self.navigate(view::View::LeadDetail { id: id.clone() });
                Command::LoadLead { id }
            } else {
                Command::Nothing
            }
        } else if key_is_char(key, 'n') {
            self.input_mode = Some(InputMode::NewLead);
            self.input_buffer = String::new();
            Command::Nothing
        } else if key_is_char(key, 'd') {
            let n = self.pipeline.filtered_leads().len();
            if n > 0 {
                self.pipeline.confirm_delete = true;
            }
            Command::Nothing
        } else if key_is_char(key, '/') {
            self.pipeline.filtering = true;
            self.pipeline.filter = Some(String::new());
            self.pipeline.selected = 0;
            Command::Nothing
        } else {
            Command::Nothing
        }
    }
}


/// Keys of a lead's detail. While a deletion awaits confirmation, `y`
/// deletes the lead and goes back, and any key ends the confirmation.
/// While the stage picker is open, the selection moves among the stages,
/// `Enter` sets the selected stage and `Esc` closes the picker. Otherwise
/// `n` asks for a note, `a` for a contact, `s` opens the stage picker at
/// the lead's stage, `d` asks to confirm a deletion and `c` opens a chat
/// about the lead.
pub open spec fn lead_detail_key_step(pre: App, key: Key, post: App, cmd: Command) -> bool {
    match pre.lead_detail {
        None => post == pre && cmd == Command::Nothing,
        Some(ld) => if ld.confirm_delete {
            let closed = App { lead_detail: Some(LeadDetail { confirm_delete: false, ..ld }), ..pre };
            if key.is_char('y') {
                post == went_back(closed) && cmd == (Command::DeleteOpenLead { lead_id: ld.id })
            } else {
                post == closed && cmd == Command::Nothing
            }
        } else {
            match ld.stage_picker {
                Some(pk) => if is_down(key) {
                    post == (App { lead_detail: Some(LeadDetail { stage_picker: Some(StagePicker { selected: inc_sel(pk.selected, pk.stages@.len()), ..pk }), ..ld }), ..pre })
                        && cmd == Command::Nothing
                } else if is_up(key) {
                    post == (App { lead_detail: Some(LeadDetail { stage_picker: Some(StagePicker { selected: dec_sel(pk.selected), ..pk }), ..ld }), ..pre })
                        && cmd == Command::Nothing
                } else if key.code == KeyCode::Enter {
                    &&& post == pre
                    &&& cmd matches Command::UpdateLeadStage { lead_id, stage }
                    &&& lead_id == ld.id
                    &&& stage@ == pk.stages@[pk.selected as int]@
                } else if key.code == KeyCode::Esc {
                    post == (App { lead_detail: Some(LeadDetail { stage_picker: None, ..ld }), ..pre })
                        && cmd == Command::Nothing
                } else {
                    post == pre && cmd == Command::Nothing
                },
                None => if key.is_char('n') {
                    input_opened(pre, InputMode::AddLeadNote { lead_id: ld.id }, post) && cmd == Command::Nothing
                } else if key.is_char('s') {
                    &&& post == (App { lead_detail: post.lead_detail, ..pre })
                    &&& post.lead_detail matches Some(ld2)
                    &&& ld2 == (LeadDetail { stage_picker: ld2.stage_picker, ..ld })
                    &&& ld2.stage_picker matches Some(p2)
                    &&& strings_view(p2.stages@) == stage_names()
                    &&& p2.selected == stage_position(stage_names(), ld.stage@)
                    &&& cmd == Command::Nothing
                } else if key.is_char('a') {
                    input_opened(pre, InputMode::AddLeadContact { lead_id: ld.id }, post) && cmd == Command::Nothing
                } else if key.is_char('d') {
                    post == (App { lead_detail: Some(LeadDetail { confirm_delete: true, ..ld }), ..pre })
                        && cmd == Command::Nothing
                } else if key.is_char('c') {
                    chat_opened(pre, None, Some(ld.id), post) && cmd == Command::Nothing
                } else {
                    post == pre && cmd == Command::Nothing
                },
            }
        },
    }
}

/// Keys of a project's view: `p` asks for a file to push, `t` for a task,
/// `d` for a decision, `r` for a repository to link; `c` opens a chat about
/// the project.
pub open spec fn project_key_step(pre: App, key: Key, post: App) -> bool {
    match pre.view {
        view::View::Project { slug } => if key.is_char('p') {
            input_opened(pre, InputMode::PushFile { project_slug: slug }, post)
        } else if key.is_char('t') {
            input_opened(pre, InputMode::NewTask { project_slug: slug }, post)
        } else if key.is_char('d') {
            input_opened(pre, InputMode::NewDecision { project_slug: slug }, post)
        } else if key.is_char('r') {
            input_opened(pre, InputMode::LinkRepo { project_slug: slug }, post)
        } else if key.is_char('c') {
            chat_opened(pre, Some(slug), None, post)
        } else {
            post == pre
        },
        _ => post == pre,
    }
}

impl App {
    fn open_input(&mut self, mode: InputMode)
        ensures
            input_opened(*old(self), mode, *final(self)),
    {
        self.input_mode = Some(mode);
        self.input_buffer = String::new();
    }

    fn open_chat(&mut self, project_slug: Option<String>, lead_id: Option<String>)
        ensures
            chat_opened(*old(self), project_slug, lead_id, *final(self)),
    {
        self.chat = ChatState::new(project_slug, lead_id);
        self.navigate(view::View::Chat);
    }

    /// Keys of a lead's detail.
    pub fn handle_lead_detail_keys(&mut self, key: &Key) -> (cmd: Command)
        requires
            old(self).wf(),
        ensures
            lead_detail_key_step(*old(self), *key, *final(self), cmd),
            final(self).wf(),
    {
        let (confirming, picking, id) = match &self.lead_detail {
            None => {
                return Command::Nothing;
            },
            Some(ld) => (ld.confirm_delete, ld.stage_picker.is_some(), ld.id.clone()),
        };
        if confirming {
            match &mut self.lead_detail {
                Some(ld) => {
                    ld.confirm_delete = false;
                },
                None => {},
            }
            if key_is_char(key, 'y') {
                self.go_back();
                return Command::DeleteOpenLead { lead_id: id };
            }
            return Command::Nothing;
        }
        if picking {
            let mut cmd = Command::Nothing;
            match &mut self.lead_detail {
                Some(ld) => match &mut ld.stage_picker {
                    Some(pk) => {
                        if key_is_down(key) {
                            pk.selected = inc(pk.selected, pk.stages.len());
                        } else if key_is_up(key) {
                            pk.selected = dec(pk.selected);
                        } else if key.code == KeyCode::Enter {
                            let stage = String::from_str(pk.current());
                            cmd = Command::UpdateLeadStage { lead_id: id, stage };
                        }
                    },
                    None => {},
                },
                None => {},
            }
            if key.code == KeyCode::Esc {
                match &mut self.lead_detail {
                    Some(ld) => {
                        ld.stage_picker = None;
                    },
                    None => {},
                }
            }
            return cmd;
        }
        if key_is_char(key, 'n') {
            self.open_input(InputMode::AddLeadNote { lead_id: id });
        } else if key_is_char(key, 's') {
            match &mut self.lead_detail {
                Some(ld) => {
                    let p = StagePicker::new(ld.stage.as_str());
                    ld.stage_picker = Some(p);
                },
                None => {},
            }
        } else if key_is_char(key, 'a') {
            self.open_input(InputMode::AddLeadContact { lead_id: id });
        } else if key_is_char(key, 'd') {
            match &mut self.lead_detail {
                Some(ld) => {
                    ld.confirm_delete = true;
                },
                None => {},
            }
        } else if key_is_char(key, 'c') {
            self.open_chat(None, Some(id));
        }
        Command::Nothing
    }

    /// Keys of a project's view.
    pub fn handle_project_keys(&mut self, key: &Key)
        ensures
            project_key_step(*old(self), *key, *final(self)),
    {
        let slug = match &self.view {
            view::View::Project { slug } => slug.clone(),
            _ => {
                return;
            },
        };
        if key_is_char(key, 'p') {
            self.open_input(InputMode::PushFile { project_slug: slug });
        } else if key_is_char(key, 't') {
            self.open_input(InputMode::NewTask { project_slug: slug });
        } else if key_is_char(key, 'd') {
            self.open_input(InputMode::NewDecision { project_slug: slug });
        } else if key_is_char(key, 'r') {
            self.open_input(InputMode::LinkRepo { project_slug: slug });
        } else if key_is_char(key, 'c') {
            self.open_chat(Some(slug), None);
        }
    }
}


// ---------------------------------------------------------------------------
// Dashboard and daily status
// ---------------------------------------------------------------------------

/// Keys of the dashboard: the selection moves among the projects, `Enter`
/// opens the selected one; `l` opens the daily status, `s` the search,
/// `c` a chat, `x` the pending changes, `/` the pipeline, `C` the clients
/// and `K` the skills; `n` asks for a new project; `w` switches the team
/// activity between the last day and the last seven days.
pub open spec fn dashboard_key_step(pre: App, key: Key, post: App, cmd: Command) -> bool {
    let projects = pre.dashboard.projects@;
    if is_down(key) {
        post == (App { selected_index: inc_sel(pre.selected_index, projects.len()), ..pre }) && cmd == Command::Nothing
    } else if is_up(key) {
        post == (App { selected_index: dec_sel(pre.selected_index), ..pre }) && cmd == Command::Nothing
    } else if key.code == KeyCode::Enter {
        if pre.selected_index < projects.len() {
            let slug = projects[pre.selected_index as int].slug;
            post == navigated(pre, view::View::Project { slug }) && cmd == (Command::LoadProject { slug })
        } else {
            post == pre && cmd == Command::Nothing
        }
    } else if key.is_char('l') {
        post == navigated(pre, view::View::Status) && cmd == Command::LoadStatus
    } else if key.is_char('s') {
        post == navigated(pre, view::View::Search) && cmd == Command::Nothing
    } else if key.is_char('c') {
        chat_opened(pre, None, None, post) && cmd == Command::Nothing
    } else if key.is_char('n') {
        input_opened(pre, InputMode::NewProject, post) && cmd == Command::Nothing
    } else if key.is_char('x') {
        post == navigated(pre, view::View::Changes) && cmd == Command::LoadChanges
    } else if key.is_char('/') {
        post == navigated(pre, view::View::Pipeline) && cmd == Command::LoadPipeline
    } else if key.is_char('w') {
        let days: u32 = if pre.activity_days == 1 { 7 } else { 1 };
        post == (App { activity_days: days, ..pre }) && cmd == (Command::LoadActivity { days })
    } else if key.is_char('C') {
        post == navigated(pre, view::View::Clients) && cmd == Command::LoadClients
    } else if key.is_char('K') {
        post == navigated(pre, view::View::Skills) && cmd == Command::LoadSkills
    } else {
        post == pre && cmd == Command::Nothing
    }
}

/// The status a task moves to when `Enter` is pressed on it:
/// open, then in progress, then done, then open again.
pub open spec fn next_task_status(status: Seq<char>) -> Seq<char> {
    if status == "open"@ {
        "in_progress"@
    } else if status == "in_progress"@ {
        "done"@
    } else {
        "open"@
    }
}

/// The other section of the status view.
pub open spec fn other_section(s: StatusSection) -> StatusSection {
    match s {
        StatusSection::Tasks => StatusSection::Decisions,
        StatusSection::Decisions => StatusSection::Tasks,
    }
}

/// Keys of the daily status (nothing happens before it is loaded): the
/// selection moves within the focused section, `Tab` focuses the other
/// section at its top, `Enter` on a task moves it to its next status, `r`
/// on a decision asks for its resolution, `c` opens a chat.
pub open spec fn status_key_step(pre: App, key: Key, post: App, cmd: Command) -> bool {
    match pre.status_data {
        None => post == pre && cmd == Command::Nothing,
        Some(sd) => if is_down(key) {
            // (an index at the top of the machine's range cannot move further)
            let next: usize = if sd.selected_index < sd.max_index() && sd.selected_index < usize::MAX {
                (sd.selected_index + 1) as usize
            } else {
                sd.selected_index
            };
            post == (App { status_data: Some(StatusData { selected_index: next, ..sd }), ..pre }) && cmd == Command::Nothing
        } else if is_up(key) {
            post == (App { status_data: Some(StatusData { selected_index: dec_sel(sd.selected_index), ..sd }), ..pre })
                && cmd == Command::Nothing
        } else if key.code == KeyCode::Tab {
            post == (App { status_data: Some(StatusData { selected_section: other_section(sd.selected_section), selected_index: 0, ..sd }), ..pre })
                && cmd == Command::Nothing
        } else if key.code == KeyCode::Enter {
            if sd.selected_section == StatusSection::Tasks && sd.selected_index < sd.all_tasks().len() {
                let t = sd.all_tasks()[sd.selected_index as int];
                &&& post == pre
                &&& cmd matches Command::UpdateTaskStatus { project_slug, task_id, status }
                &&& project_slug == t.project_slug
                &&& task_id == t.id
                &&& status@ == next_task_status(t.status@)
            } else {
                post == pre && cmd == Command::Nothing
            }
        } else if key.is_char('r') {
            cmd == Command::Nothing && if sd.selected_section == StatusSection::Decisions && sd.selected_index < sd.decisions@.len() {
                let d = sd.decisions@[sd.selected_index as int];
                input_opened(pre, InputMode::ResolveDecision { project_slug: d.project, decision_id: d.id }, post)
            } else {
                post == pre
            }
        } else if key.is_char('c') {
            chat_opened(pre, None, None, post) && cmd == Command::Nothing
        } else {
            post == pre && cmd == Command::Nothing
        },
    }
}

/// Whether the selection is above the last item of the focused section.
fn below_last(sd: &StatusData) -> (r: bool)
    ensures
        r == (sd.selected_index < sd.max_index()),
{
    let i = sd.selected_index;
    match sd.selected_section {
        StatusSection::Tasks => {
            let a = sd.overdue.len();
            let b = sd.tasks.len();
            if i < a {
                i + 1 < a || b > 0
            } else {
                b > 0 && i - a < b - 1
            }
        },
        StatusSection::Decisions => {
            let n = sd.decisions.len();
            n > 0 && i < n - 1
        },
    }
}

fn next_status_of(status: &str) -> (r: String)
    ensures
        r@ == next_task_status(status@),
{
    if str_eq(status, "open") {
        String::from_str("in_progress")
    } else if str_eq(status, "in_progress") {
        String::from_str("done")
    } else {
        String::from_str("open")
    }
}

impl App {
    /// Keys of the dashboard.
    pub fn handle_dashboard_keys(&mut self, key: &Key) -> (cmd: Command)
        ensures
            dashboard_key_step(*old(self), *key, *final(self), cmd),
    {
        if key_is_down(key) {
            self.selected_index = inc(self.selected_index, self.dashboard.projects.len());
            Command::Nothing
        } else if key_is_up(key) {
            self.selected_index = dec(self.selected_index);
            Command::Nothing
        } else if key.code == KeyCode::Enter {
            if self.selected_index < self.dashboard.projects.len() {
                let slug = self.dashboard.projects[self.selected_index].slug.clone();
                self.navigate(view::View::Project { slug: slug.clone() });
                Command::LoadProject { slug }
            } else {
                Command::Nothing
            }
        } else if key_is_char(key, 'l') {
            self.navigate(view::View::Status);
            Command::LoadStatus
        } else if key_is_char(key, 's') {
            self.navigate(view::View::Search);
            Command::Nothing
        } else if key_is_char(key, 'c') {
            self.open_chat(None, None);
            Command::Nothing
        } else if key_is_char(key, 'n') {
            self.open_input(InputMode::NewProject);
            Command::Nothing
        } else if key_is_char(key, 'x') {
            self.navigate(view::View::Changes);
            Command::LoadChanges
        } else if key_is_char(key, '/') {
            self.navigate(view::View::Pipeline);
            Command::LoadPipeline
        } else if key_is_char(key, 'w') {
            let days: u32 = if self.activity_days == 1 { 7 } else { 1 };
            self.activity_days = days;
            Command::LoadActivity { days }
        } else if key_is_char(key, 'C') {
            self.navigate(view::View::Clients);
            Command::LoadClients
        } else if key_is_char(key, 'K') {
            self.navigate(view::View::Skills);
            Command::LoadSkills
        } else {
            Command::Nothing
        }
    }

    /// Keys of the daily status.
    pub fn handle_status_keys(&mut self, key: &Key) -> (cmd: Command)
        ensures
            status_key_step(*old(self), *key, *final(self), cmd),
    {
        let ghost pre = *self;
        let mut open_chat = false;
        let mut resolve: Option<InputMode> = None;
        let mut cmd = Command::Nothing;
        match &mut self.status_data {
            None => {
                return Command::Nothing;
            },
            Some(sd) => {
                if key_is_down(key) {
                    if below_last(sd) && sd.selected_index < usize::MAX {
                        sd.selected_index = sd.selected_index + 1;
                    }
                } else if key_is_up(key) {
                    sd.selected_index = dec(sd.selected_index);
                } else if key.code == KeyCode::Tab {
                    sd.selected_section = match sd.selected_section {
                        StatusSection::Tasks => StatusSection::Decisions,
                        StatusSection::Decisions => StatusSection::Tasks,
                    };
                    sd.selected_index = 0;
                } else if key.code == KeyCode::Enter {
                    let i = sd.selected_index;
                    let a = sd.overdue.len();
                    if sd.selected_section == StatusSection::Tasks && (i < a || i - a < sd.tasks.len()) {
                        let t = if i < a { &sd.overdue[i] } else { &sd.tasks[i - a] };
                        proof {
                            assert(sd.all_tasks()[i as int] == *t);
                        }
                        cmd = Command::UpdateTaskStatus {
                            project_slug: t.project_slug.clone(),
                            task_id: t.id.clone(),
                            status: next_status_of(t.status.as_str()),
                        };
                    }
                } else if key_is_char(key, 'r') {
                    if sd.selected_section == StatusSection::Decisions && sd.selected_index < sd.decisions.len() {
                        let d = &sd.decisions[sd.selected_index];
                        resolve = Some(InputMode::ResolveDecision { project_slug: d.project.clone(), decision_id: d.id.clone() });
                    }
                } else if key_is_char(key, 'c') {
                    open_chat = true;
                }
            },
        }
        match resolve {
            Some(mode) => self.open_input(mode),
            None => {},
        }
        if open_chat {
            self.open_chat(None, None);
        }
        cmd
    }
}


// ---------------------------------------------------------------------------
// The input bar
// ---------------------------------------------------------------------------

/// A character of a generated slug: alphanumerics and `-` stay, anything
/// else becomes `-`.
pub open spec fn slug_char(c: char) -> char {
    if spec_is_alphanumeric(c) || c == '-' {
        c
    } else {
        '-'
    }
}

/// The slug generated from a project name: the lowercased name with every
/// character that is neither alphanumeric nor `-` replaced by `-`.
pub open spec fn slugified(name: Seq<char>) -> Seq<char> {
    spec_to_lowercase(name).map_values(|c: char| slug_char(c))
}

/// The name of a project typed as `name` or `name:slug`, trimmed.
pub open spec fn new_project_name(input: Seq<char>) -> Seq<char> {
    trimmed(split_once(input, ':').0)
}

/// The slug of a project typed as `name:slug` (trimmed), or generated
/// from the name when only `name` was typed.
pub open spec fn new_project_slug(input: Seq<char>) -> Seq<char> {
    match split_once(input, ':').1 {
        Some(slug) => trimmed(slug),
        None => slugified(new_project_name(input)),
    }
}

/// The name of a contact typed as `name` or `name:email`, trimmed.
pub open spec fn contact_name(input: Seq<char>) -> Seq<char> {
    trimmed(split_once(input, ':').0)
}

/// The email of a contact typed as `name:email` (trimmed), if given.
pub open spec fn contact_email(input: Seq<char>) -> Option<Seq<char>> {
    match split_once(input, ':').1 {
        Some(email) => Some(trimmed(email)),
        None => None,
    }
}

/// The slug generated from a project name.
pub fn slugify(name: &str) -> (r: String)
    ensures
        r@ == slugified(name@),
{
    let lower = to_lowercase(name);
    let v = chars_of(lower.as_str());
    let mut out = String::new();
    let mut i: usize = 0;
    while i < v.len()
        invariant
            i <= v.len(),
            v@ == spec_to_lowercase(name@),
            out@ == v@.take(i as int).map_values(|c: char| slug_char(c)),
        decreases v.len() - i,
    {
        let c = v[i];
        let d = if is_alphanumeric(c) || c == '-' { c } else { '-' };
        push_char(&mut out, d);
        assert(v@.take(i + 1).map_values(|c: char| slug_char(c)) =~= v@.take(i as int).map_values(|c: char| slug_char(c)).push(d));
        i += 1;
    }
    assert(v@.take(v@.len() as int) =~= v@);
    out
}

/// The name and slug of a new project typed as `name` or `name:slug`.
pub fn parse_new_project(input: &str) -> (r: (String, String))
    ensures
        r.0@ == new_project_name(input@),
        r.1@ == new_project_slug(input@),
{
    let (head, tail) = split_once_at(input, ':');
    let name = trim(head.as_str());
    let slug = match tail {
        Some(t) => trim(t.as_str()),
        None => slugify(name.as_str()),
    };
    (name, slug)
}

/// The name and email of a contact typed as `name` or `name:email`.
pub fn parse_contact(input: &str) -> (r: (String, Option<String>))
    ensures
        r.0@ == contact_name(input@),
        opt_view(r.1) == contact_email(input@),
{
    let (head, tail) = split_once_at(input, ':');
    let name = trim(head.as_str());
    let email = match tail {
        Some(t) => Some(trim(t.as_str())),
        None => None,
    };
    (name, email)
}

/// What submitting `text` in the input bar does, for each thing it was
/// collecting; `closed` is the state with the bar closed and emptied.
pub open spec fn submitted(mode: Option<InputMode>, text: String, closed: App, post: App, cmd: Command) -> bool {
    match mode {
        Some(InputMode::PushFile { project_slug }) => post == closed
            && cmd == (Command::PushFile { project_slug, path: text }),
        Some(InputMode::LinkRepo { project_slug }) => post == closed
            && cmd == (Command::LinkRepo { project_slug, github_repo: text }),
        Some(InputMode::NewTask { project_slug }) => post == closed
            && cmd == (Command::CreateTask { project_slug, title: text }),
        Some(InputMode::NewDecision { project_slug }) => post == closed
            && cmd == (Command::CreateDecision { project_slug, title: text }),
        Some(InputMode::NewLead) => post == closed && cmd == (Command::CreateLead { company_name: text }),
        Some(InputMode::NewProject) => {
            &&& post == closed
            &&& cmd matches Command::CreateProject { name, slug }
            &&& name@ == new_project_name(text@)
            &&& slug@ == new_project_slug(text@)
        },
        Some(InputMode::AddLeadNote { lead_id }) => post == closed
            && cmd == (Command::AddLeadNote { lead_id, content: text }),
        Some(InputMode::AddLeadContact { lead_id }) => {
            &&& post == closed
            &&& cmd matches Command::AddLeadContact { lead_id: id, name, email }
            &&& id == lead_id
            &&& name@ == contact_name(text@)
            &&& opt_view(email) == contact_email(text@)
        },
        Some(InputMode::ResolveDecision { project_slug, decision_id }) => post == closed
            && cmd == (Command::ResolveDecision { project_slug, decision_id, resolution: text }),
        Some(InputMode::ChatInput { project_slug, lead_id }) => {
            &&& post == (App { chat: post.chat, ..navigated(closed, view::View::Chat) })
            &&& post.chat.project_slug == project_slug
            &&& post.chat.lead_id == lead_id
            &&& post.chat.messages@.len() == 1
            &&& is_user_message(post.chat.messages@[0], text@)
            &&& post.chat.input@.len() == 0
            &&& post.chat.loading
            &&& post.chat.scroll == 0
            &&& cmd == (Command::Chat { question: text, project_slug, lead_id })
        },
        None => post == closed && cmd == Command::Nothing,
    }
}

/// Keys while the input bar is open: typing edits the text, `Esc` closes
/// the bar, `Enter` closes it and submits the text when there is any.
pub open spec fn input_key_step(pre: App, key: Key, post: App, cmd: Command) -> bool {
    match key.code {
        KeyCode::Esc => {
            &&& post == (App { input_mode: None, input_buffer: post.input_buffer, ..pre })
            &&& post.input_buffer@.len() == 0
            &&& cmd == Command::Nothing
        },
        KeyCode::Backspace => {
            &&& post == (App { input_buffer: post.input_buffer, ..pre })
            &&& post.input_buffer@ == popped(pre.input_buffer@)
            &&& cmd == Command::Nothing
        },
        KeyCode::Enter => {
            let closed = App { input_mode: None, input_buffer: post.input_buffer, ..pre };
            &&& post.input_buffer@.len() == 0
            &&& if pre.input_buffer@.len() == 0 {
                post == closed && cmd == Command::Nothing
            } else {
                submitted(pre.input_mode, pre.input_buffer, closed, post, cmd)
            }
        },
        KeyCode::Char(c) => {
            &&& post == (App { input_buffer: post.input_buffer, ..pre })
            &&& post.input_buffer@ == pre.input_buffer@.push(c)
            &&& cmd == Command::Nothing
        },
        _ => post == pre && cmd == Command::Nothing,
    }
}

impl App {
    fn submit(&mut self, mode: Option<InputMode>, text: String) -> (cmd: Command)
        ensures
            submitted(mode, text, *old(self), *final(self), cmd),
    {
        match mode {
            Some(InputMode::PushFile { project_slug }) => Command::PushFile { project_slug, path: text },
            Some(InputMode::LinkRepo { project_slug }) => Command::LinkRepo { project_slug, github_repo: text },
            Some(InputMode::NewTask { project_slug }) => Command::CreateTask { project_slug, title: text },
            Some(InputMode::NewDecision { project_slug }) => Command::CreateDecision { project_slug, title: text },
            Some(InputMode::NewLead) => Command::CreateLead { company_name: text },
            Some(InputMode::NewProject) => {
                let (name, slug) = parse_new_project(text.as_str());
                Command::CreateProject { name, slug }
            },
            Some(InputMode::AddLeadNote { lead_id }) => Command::AddLeadNote { lead_id, content: text },
            Some(InputMode::AddLeadContact { lead_id }) => {
                let (name, email) = parse_contact(text.as_str());
                Command::AddLeadContact { lead_id, name, email }
            },
            Some(InputMode::ResolveDecision { project_slug, decision_id }) => Command::ResolveDecision {
                project_slug,
                decision_id,
                resolution: text,
            },
            Some(InputMode::ChatInput { project_slug, lead_id }) => {
                let mut chat = ChatState::new(clone_opt(&project_slug), clone_opt(&lead_id));
                chat.messages.push(user_message(text.clone()));
                chat.loading = true;
                self.chat = chat;
                self.navigate(view::View::Chat);
                Command::Chat { question: text, project_slug, lead_id }
            },
            None => Command::Nothing,
        }
    }

    /// Keys while the input bar is open.
    pub fn handle_input_keys(&mut self, key: &Key) -> (cmd: Command)
        ensures
            input_key_step(*old(self), *key, *final(self), cmd),
    {
        match key.code {
            KeyCode::Esc => {
                self.input_mode = None;
                self.input_buffer = String::new();
                Command::Nothing
            },
            KeyCode::Backspace => {
                backspace(&mut self.input_buffer);
                Command::Nothing
            },
            KeyCode::Enter => {
                let mut text = String::new();
                core::mem::swap(&mut text, &mut self.input_buffer);
                let mut mode: Option<InputMode> = None;
                core::mem::swap(&mut mode, &mut self.input_mode);
                if text.as_str().is_empty() {
                    Command::Nothing
                } else {
                    self.submit(mode, text)
                }
            },
            KeyCode::Char(c) => {
                push_char(&mut self.input_buffer, c);
                Command::Nothing
            },
            _ => Command::Nothing,
        }
    }
}


// ---------------------------------------------------------------------------
// The identity view
// ---------------------------------------------------------------------------

fn clone_strings(v: &Vec<String>) -> (r: Vec<String>)
    ensures
        r@ == v@,
{
    let mut r: Vec<String> = Vec::new();
    let mut i: usize = 0;
    while i < v.len()
        invariant
            i <= v.len(),
            r@ == v@.take(i as int),
        decreases v.len() - i,
    {
        r.push(v[i].clone());
        assert(r@ =~= v@.take(i + 1));
        i += 1;
    }
    assert(v@.take(v@.len() as int) =~= v@);
    r
}

/// What the application does with the action the identity view asked for,
/// from the state `mid` in which the view has taken the key: a new
/// interview starts; the interview's answers go to be turned into a
/// document; the reviewed document is saved and shown as complete.
pub open spec fn identity_action_done(mid: App, action: IdentityAction, post: App, cmd: Command) -> bool {
    match action {
        IdentityAction::StartOnboarding => {
            &&& post == (App { identity_mode: post.identity_mode, ..mid })
            &&& post.identity_mode.is_fresh_onboarding()
            &&& cmd == Command::Nothing
        },
        IdentityAction::Generate | IdentityAction::Regenerate => post == mid && match mid.identity_mode {
            IdentityMode::Onboarding { answers, .. } => cmd matches Command::GenerateIdentity { answers: a } && a@ == answers@,
            IdentityMode::Review { answers, .. } => cmd matches Command::GenerateIdentity { answers: a } && a@ == answers@,
            IdentityMode::View { .. } => cmd == Command::Nothing,
        },
        IdentityAction::Save => match mid.identity_mode {
            IdentityMode::Review { generated, .. } => {
                &&& post == (App { identity_mode: IdentityMode::View { content: generated, complete: true }, ..mid })
                &&& cmd == (Command::SaveIdentity { content: generated })
            },
            _ => post == mid && cmd == Command::Nothing,
        },
        IdentityAction::Nothing => post == mid && cmd == Command::Nothing,
    }
}

/// Keys of the identity view: `Esc` goes back, Control-C quits, any other
/// key goes to the view (see `identity_key_step`) and its action is carried
/// out.
pub open spec fn identity_view_key_step(pre: App, key: Key, post: App, cmd: Command) -> bool {
    if key.code == KeyCode::Esc {
        post == went_back(pre) && cmd == Command::Nothing
    } else if key.is_ctrl_c() {
        post == (App { running: false, ..pre }) && cmd == Command::Nothing
    } else {
        exists|m: IdentityMode, a: IdentityAction|
            #[trigger] identity_key_step(pre.identity_mode, key, m, a)
                && identity_action_done(App { identity_mode: m, ..pre }, a, post, cmd)
    }
}

impl App {
    /// Keys of the identity view.
    pub fn handle_identity_view_keys(&mut self, key: &Key) -> (cmd: Command)
        requires
            old(self).wf(),
        ensures
            identity_view_key_step(*old(self), *key, *final(self), cmd),
            final(self).wf(),
    {
        if key.code == KeyCode::Esc {
            self.go_back();
            return Command::Nothing;
        }
        let ctrl_c = match key.code {
            KeyCode::Char(c) => c == 'c' && key.ctrl,
            _ => false,
        };
        if ctrl_c {
            self.running = false;
            return Command::Nothing;
        }
        let ghost pre = *self;
        let action = handle_key(&mut self.identity_mode, key);
        let ghost mid = *self;
        let ghost m = self.identity_mode;
        assert(identity_key_step(pre.identity_mode, *key, m, action));
        let cmd = match action {
            IdentityAction::StartOnboarding => {
                self.identity_mode = IdentityMode::start_onboarding();
                Command::Nothing
            },
            IdentityAction::Generate | IdentityAction::Regenerate => match &self.identity_mode {
                IdentityMode::Onboarding { answers, .. } => Command::GenerateIdentity { answers: clone_strings(answers) },
                IdentityMode::Review { answers, .. } => Command::GenerateIdentity { answers: clone_strings(answers) },
                IdentityMode::View { .. } => Command::Nothing,
            },
            IdentityAction::Save => {
                let mut cur = IdentityMode::View { content: String::new(), complete: false };
                core::mem::swap(&mut cur, &mut self.identity_mode);
                match cur {
                    IdentityMode::Review { generated, .. } => {
                        let content = generated.clone();
                        self.identity_mode = IdentityMode::View { content: generated, complete: true };
                        Command::SaveIdentity { content }
                    },
                    other => {
                        self.identity_mode = other;
                        Command::Nothing
                    },
                }
            },
            IdentityAction::Nothing => Command::Nothing,
        };
        assert(mid == (App { identity_mode: m, ..pre }));
        assert(identity_action_done(mid, action, *self, cmd));
        cmd
    }
}


// ---------------------------------------------------------------------------
// Dispatching a key press
// ---------------------------------------------------------------------------

/// A global key that changes the view: `b` away from the dashboard, or `i`.
pub open spec fn is_global_view_key(pre: App, key: Key) -> bool {
    (key.is_char('b') && pre.view != view::View::Dashboard) || key.is_char('i')
}

/// What a key press does. The open input bar takes every key; so do the
/// chat, the search and the identity views, and the pipeline while its
/// filter is typed. Otherwise `q` and Control-C quit, `b` and `i` move
/// between views (opening the identity view fetches the document), and the
/// open view takes the key.
pub open spec fn key_step(pre: App, key: Key, post: App, cmd: Command) -> bool {
    if pre.input_mode is Some {
        input_key_step(pre, key, post, cmd)
    } else if pre.view == view::View::Chat {
        chat_key_step(pre, key, post, cmd)
    } else if pre.view == view::View::Search {
        search_key_step(pre, key, post, cmd)
    } else if pre.view == view::View::Identity {
        identity_view_key_step(pre, key, post, cmd)
    } else if pre.view == view::View::Pipeline && pre.pipeline.filtering {
        pipeline_filter_key_step(pre, key, post) && cmd == Command::Nothing
    } else if spec_is_quit(key) {
        post == (App { running: false, ..pre }) && cmd == Command::Nothing
    } else if is_global_view_key(pre, key) {
        &&& global_key_step(pre, key, post, true)
        &&& cmd == (if post.view == view::View::Identity { Command::LoadIdentity } else { Command::Nothing })
    } else {
        match pre.view {
            view::View::Changes => changes_key_step(pre, key, post, cmd),
            view::View::Pipeline => pipeline_key_step(pre, key, post, cmd),
            view::View::LeadDetail { .. } => lead_detail_key_step(pre, key, post, cmd),
            view::View::Project { .. } => project_key_step(pre, key, post) && cmd == Command::Nothing,
            view::View::Dashboard => dashboard_key_step(pre, key, post, cmd),
            view::View::Skills => skills_key_step(pre, key, post, cmd),
            view::View::Status => status_key_step(pre, key, post, cmd),
            view::View::Clients => clients_key_step(pre, key, post, cmd),
            view::View::ClientDetail { .. } => client_detail_key_step(pre, key, post, cmd),
            _ => post == pre && cmd == Command::Nothing,
        }
    }
}

/// Which view is open, without its data.
enum ViewKind {
    Dashboard,
    Status,
    Project,
    Search,
    Changes,
    Pipeline,
    LeadDetail,
    Identity,
    Skills,
    Chat,
    Clients,
    ClientDetail,
}

fn kind_of(v: &view::View) -> (k: ViewKind)
    ensures
        (k is Dashboard) == (*v == view::View::Dashboard),
        (k is Status) == (*v == view::View::Status),
        (k is Project) == (*v is Project),
        (k is Search) == (*v == view::View::Search),
        (k is Changes) == (*v == view::View::Changes),
        (k is Pipeline) == (*v == view::View::Pipeline),
        (k is LeadDetail) == (*v is LeadDetail),
        (k is Identity) == (*v == view::View::Identity),
        (k is Skills) == (*v == view::View::Skills),
        (k is Chat) == (*v == view::View::Chat),
        (k is Clients) == (*v == view::View::Clients),
        (k is ClientDetail) == (*v is ClientDetail),
{
    match v {
        view::View::Dashboard => ViewKind::Dashboard,
        view::View::Status => ViewKind::Status,
        view::View::Project { .. } => ViewKind::Project,
        view::View::Search => ViewKind::Search,
        view::View::Changes => ViewKind::Changes,
        view::View::Pipeline => ViewKind::Pipeline,
        view::View::LeadDetail { .. } => ViewKind::LeadDetail,
        view::View::Identity => ViewKind::Identity,
        view::View::Skills => ViewKind::Skills,
        view::View::Chat => ViewKind::Chat,
        view::View::Clients => ViewKind::Clients,
        view::View::ClientDetail { .. } => ViewKind::ClientDetail,
    }
}

impl App {
    /// Handle a key press: change the state and name the request to make.
    pub fn handle_key(&mut self, key: &Key) -> (cmd: Command)
        requires
            old(self).wf(),
        ensures
            key_step(*old(self), *key, *final(self), cmd),
            final(self).wf(),
    {
        if self.input_mode.is_some() {
            return self.handle_input_keys(key);
        }
        match kind_of(&self.view) {
            ViewKind::Chat => {
                return self.handle_chat_keys(key);
            },
            ViewKind::Search => {
                return self.handle_search_keys(key);
            },
            ViewKind::Identity => {
                return self.handle_identity_view_keys(key);
            },
            ViewKind::Pipeline => {
                if self.pipeline.filtering {
                    self.handle_pipeline_filter(key);
                    return Command::Nothing;
                }
            },
            _ => {},
        }
        if is_quit(key) {
            self.running = false;
            return Command::Nothing;
        }
        if self.handle_global_key(key) {
            return match kind_of(&self.view) {
                ViewKind::Identity => Command::LoadIdentity,
                _ => Command::Nothing,
            };
        }
        match kind_of(&self.view) {
            ViewKind::Changes => self.handle_changes_keys(key),
            ViewKind::Pipeline => self.handle_pipeline_keys(key),
            ViewKind::LeadDetail => self.handle_lead_detail_keys(key),
            ViewKind::Project => {
                self.handle_project_keys(key);
                Command::Nothing
            },
            ViewKind::Dashboard => self.handle_dashboard_keys(key),
            ViewKind::Skills => self.handle_skills_keys(key),
            ViewKind::Status => self.handle_status_keys(key),
            ViewKind::Clients => self.handle_clients_keys(key),
            ViewKind::ClientDetail => self.handle_client_detail_keys(key),
            _ => Command::Nothing,
        }
    }
}


// ---------------------------------------------------------------------------
// Outcomes of requests
// ---------------------------------------------------------------------------

/// The text shown for the assistant's reply: the answer, `No response`
/// when the reply held none, or `Error: ` and the error.
pub open spec fn answer_text(r: Result<Option<String>, String>) -> Seq<char> {
    match r {
        Ok(Some(a)) => a@,
        Ok(None) => "No response"@,
        Err(e) => "Error: "@ + e@,
    }
}

/// The text shown for a skill run: its output, `No output` when the reply
/// held none, or `Error: ` and the error.
pub open spec fn skill_output(r: Result<Option<String>, String>) -> Seq<char> {
    match r {
        Ok(Some(o)) => o@,
        Ok(None) => "No output"@,
        Err(e) => "Error: "@ + e@,
    }
}

/// A lead's detail as it opens: no stage picker, no confirmation pending.
pub open spec fn fresh_lead(ld: LeadDetail) -> LeadDetail {
    LeadDetail { stage_picker: None, confirm_delete: false, ..ld }
}

/// The selection index moved back onto the last item of the focused
/// section when it lies beyond it.
pub open spec fn clamped(sd: StatusData) -> StatusData {
    if sd.selected_index > sd.max_index() {
        StatusData { selected_index: sd.max_index() as usize, ..sd }
    } else {
        sd
    }
}

/// A reloaded status keeps the focused section and selection it had
/// (clamped to the new lists).
pub open spec fn kept_selection(prev: Option<StatusData>, new: StatusData) -> StatusData {
    match prev {
        Some(p) => clamped(StatusData { selected_section: p.selected_section, selected_index: p.selected_index, ..new }),
        None => new,
    }
}

/// What the outcome of a request changes, and the request that follows.
pub open spec fn outcome_step(pre: App, outcome: Outcome, post: App, cmd: Command) -> bool {
    match outcome {
        Outcome::UserNameLoaded(n) => {
            &&& post == (App { user_name: post.user_name, ..pre })
            &&& post.user_name@ == (match n {
                Some(name) => name@,
                None => "unknown"@,
            })
            &&& cmd == Command::LoadDashboard
        },
        Outcome::DashboardLoaded(r) => {
            &&& match r {
                Ok(d) => post == (App { dashboard: d, loading: false, ..pre }),
                Err(e) => post == (App { error: Some(e), loading: false, ..pre }),
            }
            &&& cmd == (match pre.view {
                view::View::Project { slug } => Command::RefreshProject { slug },
                _ => Command::Nothing,
            })
        },
        Outcome::ProjectLoaded(r) => cmd == Command::Nothing && match r {
            Some(pd) => post == (App { project_data: Some(pd), ..pre }),
            None => post == (App { project_data: post.project_data, ..pre })
                && (post.project_data matches Some(pd) && pd.is_empty()),
        },
        Outcome::StatusLoaded(r) => cmd == Command::Nothing && match r {
            Some(sd) => post == (App { status_data: Some(sd), ..pre }),
            None => post == (App { status_data: post.status_data, ..pre })
                && (post.status_data matches Some(sd) && sd.is_empty()),
        },
        Outcome::LeadLoaded(r) => cmd == Command::Nothing && match r {
            Some(ld) => post == (App { lead_detail: Some(fresh_lead(ld)), ..pre }),
            None => post == (App { lead_detail: post.lead_detail, ..pre })
                && (post.lead_detail matches Some(ld) && ld.is_empty()),
        },
        Outcome::ChangesLoaded(r) => cmd == Command::Nothing && match r {
            Some(c) => post == (App { changes: crate::tui::views::changes::ChangesState { changes: c, selected: 0, loaded: true }, ..pre }),
            None => post == (App { changes: crate::tui::views::changes::ChangesState { changes: post.changes.changes, loaded: true, ..pre.changes }, ..pre })
                && post.changes.changes@.len() == 0,
        },
        Outcome::PipelineLoaded(r) => cmd == Command::Nothing && match r {
            Some(leads) => post == (App { pipeline: crate::tui::views::pipeline::PipelineState {
                leads,
                selected: 0,
                loaded: true,
                filter: None,
                filtering: false,
                confirm_delete: false,
            }, ..pre }),
            None => post == (App { pipeline: crate::tui::views::pipeline::PipelineState { leads: post.pipeline.leads, loaded: true, ..pre.pipeline }, ..pre })
                && post.pipeline.leads@.len() == 0,
        },
        Outcome::ActivityLoaded(r) => cmd == Command::Nothing && match r {
            Some(a) => post == (App { dashboard: DashboardData { activity: a, activity_days: pre.activity_days, ..pre.dashboard }, ..pre }),
            None => post == (App { dashboard: DashboardData { activity: post.dashboard.activity, ..pre.dashboard }, ..pre })
                && post.dashboard.activity@.len() == 0,
        },
        Outcome::ClientsLoaded(r) => cmd == Command::Nothing && match r {
            Some(c) => post == (App { clients: crate::tui::views::clients::ClientsState { clients: c, selected: 0, loaded: true, detail: None }, ..pre }),
            None => post == (App { clients: crate::tui::views::clients::ClientsState { clients: post.clients.clients, loaded: true, ..pre.clients }, ..pre })
                && post.clients.clients@.len() == 0,
        },
        Outcome::ClientDetailLoaded(r) => cmd == Command::Nothing && match r {
            Some(d) => post == (App { clients: crate::tui::views::clients::ClientsState { detail: Some(d), ..pre.clients }, ..pre }),
            None => post == (App { clients: crate::tui::views::clients::ClientsState { detail: post.clients.detail, ..pre.clients }, ..pre })
                && (post.clients.detail matches Some(d) && d.is_empty()),
        },
        Outcome::SkillsLoaded(r) => cmd == Command::Nothing && match r {
            Some(sk) => post == (App { skills: crate::tui::views::skills::SkillsState { skills: sk, selected: 0, loaded: true, run_output: None }, ..pre }),
            None => post == (App { skills: crate::tui::views::skills::SkillsState { skills: post.skills.skills, loaded: true, ..pre.skills }, ..pre })
                && post.skills.skills@.len() == 0,
        },
        Outcome::IdentityLoaded(r) => cmd == Command::Nothing && match r {
            Ok(doc) => {
                &&& post == (App { identity_mode: post.identity_mode, ..pre })
                &&& starts_interview(doc) ==> post.identity_mode.is_fresh_onboarding()
                &&& !starts_interview(doc) ==> (doc matches Some(d) && post.identity_mode == (IdentityMode::View { content: d.content, complete: d.complete }))
            },
            Err(_) => post == pre,
        },
        Outcome::ProjectRefreshed(r) => cmd == Command::Nothing && match r {
            Some(pd) => post == (App { project_data: Some(pd), ..pre }),
            None => post == pre,
        },
        Outcome::DashboardReloaded(r) => cmd == Command::Nothing && match r {
            Some(d) => post == (App { dashboard: d, ..pre }),
            None => post == pre,
        },
        Outcome::PipelineReloaded(r) => cmd == Command::Nothing && match r {
            Some(leads) => post == (App { pipeline: crate::tui::views::pipeline::PipelineState { leads, ..pre.pipeline }, ..pre }),
            None => post == pre,
        },
        Outcome::LeadReloaded(r) => cmd == Command::Nothing && match r {
            Some(ld) => post == (App { lead_detail: Some(fresh_lead(ld)), ..pre }),
            None => post == pre,
        },
        Outcome::StatusReloaded(r) => cmd == Command::Nothing && match r {
            Some(sd) => post == (App { status_data: Some(sd), ..pre }),
            None => post == pre,
        },
        Outcome::StatusReloadedKeepingSelection(r) => cmd == Command::Nothing && match r {
            Some(sd) => post == (App { status_data: Some(kept_selection(pre.status_data, sd)), ..pre }),
            None => post == pre,
        },
        Outcome::FilePushed { project_slug, ok } => post == pre && cmd == (if ok {
            Command::RefreshProject { slug: project_slug }
        } else {
            Command::Nothing
        }),
        Outcome::ProjectChanged { project_slug } => post == pre && cmd == (Command::RefreshProject { slug: project_slug }),
        Outcome::LeadCreated => post == pre && cmd == Command::ReloadPipeline,
        Outcome::ProjectCreated => post == pre && cmd == Command::ReloadDashboard,
        Outcome::LeadChanged { lead_id } => post == pre && cmd == (Command::ReloadLead { id: lead_id }),
        Outcome::DecisionResolved => post == pre && cmd == Command::ReloadStatus,
        Outcome::TaskStatusUpdated => post == pre && cmd == Command::ReloadStatusKeepingSelection,
        Outcome::OpenLeadDeleted => post == pre && cmd == Command::ReloadPipeline,
        Outcome::ChangeDecided { ok } => {
            let c = pre.changes;
            &&& cmd == Command::Nothing
            &&& if ok && c.selected < c.changes@.len() {
                let kept = c.changes@.remove(c.selected as int);
                &&& post == (App { changes: crate::tui::views::changes::ChangesState {
                    changes: post.changes.changes,
                    selected: clamp_after_removal(c.selected, kept.len()),
                    ..c
                }, ..pre })
                &&& post.changes.changes@ == kept
            } else {
                post == pre
            }
        },
        Outcome::ChatAnswered(r) => {
            &&& post == (App { chat: ChatState { messages: post.chat.messages, loading: false, ..pre.chat }, ..pre })
            &&& appended(pre.chat.messages@, post.chat.messages@)
            &&& is_assistant_message(post.chat.messages@.last(), answer_text(r))
            &&& cmd == Command::Nothing
        },
        Outcome::SearchFinished(r) => cmd == Command::Nothing && match r {
            Some(res) => post == (App { search: crate::tui::views::search::SearchState { results: res, selected: 0, searching: false, searched: true, ..pre.search }, ..pre }),
            None => post == (App { search: crate::tui::views::search::SearchState { results: post.search.results, searching: false, searched: true, ..pre.search }, ..pre })
                && post.search.results@.len() == 0,
        },
        Outcome::SkillRan(r) => {
            &&& post == (App { skills: crate::tui::views::skills::SkillsState { run_output: post.skills.run_output, ..pre.skills }, ..pre })
            &&& post.skills.run_output matches Some(o) && o@ == skill_output(r)
            &&& cmd == Command::Nothing
        },
        Outcome::IdentityGenerated(r) => cmd == Command::Nothing && match r {
            Ok(g) => {
                let content = match g {
                    Some(c) => c@,
                    None => Seq::<char>::empty(),
                };
                match pre.identity_mode {
                    IdentityMode::View { .. } => post == pre,
                    IdentityMode::Onboarding { answers, .. } => {
                        &&& post == (App { identity_mode: post.identity_mode, ..pre })
                        &&& post.identity_mode matches IdentityMode::Review { generated, answers: a }
                        &&& generated@ == content && a == answers
                    },
                    IdentityMode::Review { answers, .. } => {
                        &&& post == (App { identity_mode: post.identity_mode, ..pre })
                        &&& post.identity_mode matches IdentityMode::Review { generated, answers: a }
                        &&& generated@ == content && a == answers
                    },
                }
            },
            Err(_) => post == pre,
        },
        Outcome::Done => post == pre && cmd == Command::Nothing,
    }
}

/// The selection index clamped to the last item of the focused section.
fn clamp_index(sd: &StatusData) -> (r: usize)
    ensures
        r == clamped(*sd).selected_index,
{
    let i = sd.selected_index;
    match sd.selected_section {
        StatusSection::Tasks => {
            let a = sd.overdue.len();
            let b = sd.tasks.len();
            if b == 0 {
                let max = if a == 0 { 0 } else { a - 1 };
                if i > max { max } else { i }
            } else if i < a || i - a <= b - 1 {
                i
            } else {
                a + (b - 1)
            }
        },
        StatusSection::Decisions => {
            let n = sd.decisions.len();
            let max = if n == 0 { 0 } else { n - 1 };
            if i > max { max } else { i }
        },
    }
}

fn result_text(r: Result<Option<String>, String>, none: &str) -> (t: String)
    ensures
        t@ == (match r {
            Ok(Some(a)) => a@,
            Ok(None) => none@,
            Err(e) => "Error: "@ + e@,
        }),
{
    match r {
        Ok(Some(a)) => a,
        Ok(None) => String::from_str(none),
        Err(e) => concat("Error: ", e.as_str()),
    }
}

impl App {
    /// The first requests: the user's name, then the dashboard.
    fn apply_start(&mut self, outcome: Outcome) -> (cmd: Command)
        requires
            old(self).wf(),
            outcome matches Outcome::UserNameLoaded(..) || outcome matches Outcome::DashboardLoaded(..),
        ensures
            outcome_step(*old(self), outcome, *final(self), cmd),
            final(self).wf(),
    {
        match outcome {
            Outcome::UserNameLoaded(n) => {
                self.user_name = match n {
                    Some(name) => name,
                    None => String::from_str("unknown"),
                };
                Command::LoadDashboard
            },
            Outcome::DashboardLoaded(r) => {
                match r {
                    Ok(d) => {
                        self.dashboard = d;
                    },
                    Err(e) => {
                        self.error = Some(e);
                    },
                }
                self.loading = false;
                match &self.view {
                    view::View::Project { slug } => Command::RefreshProject { slug: slug.clone() },
                    _ => Command::Nothing,
                }
            },
            _ => Command::Nothing,
        }
    }

    /// Data for a view just opened.
    fn apply_view_load(&mut self, outcome: Outcome) -> (cmd: Command)
        requires
            old(self).wf(),
            outcome matches Outcome::ProjectLoaded(..) || outcome matches Outcome::StatusLoaded(..) || outcome matches Outcome::LeadLoaded(..) || outcome matches Outcome::ChangesLoaded(..) || outcome matches Outcome::PipelineLoaded(..) || outcome matches Outcome::ActivityLoaded(..) || outcome matches Outcome::ClientsLoaded(..) || outcome matches Outcome::ClientDetailLoaded(..) || outcome matches Outcome::SkillsLoaded(..) || outcome matches Outcome::IdentityLoaded(..),
        ensures
            outcome_step(*old(self), outcome, *final(self), cmd),
            final(self).wf(),
    {
        match outcome {
            Outcome::ProjectLoaded(r) => {
                self.project_data = Some(
                    match r {
                        Some(pd) => pd,
                        None => ProjectData::default(),
                    },
                );
                Command::Nothing
            },
            Outcome::StatusLoaded(r) => {
                self.status_data = Some(
                    match r {
                        Some(sd) => sd,
                        None => StatusData::default(),
                    },
                );
                Command::Nothing
            },
            Outcome::LeadLoaded(r) => {
                let mut ld = match r {
                    Some(ld) => ld,
                    None => LeadDetail::default(),
                };
                ld.stage_picker = None;
                ld.confirm_delete = false;
                self.lead_detail = Some(ld);
                Command::Nothing
            },
            Outcome::ChangesLoaded(r) => {
                match r {
                    Some(c) => {
                        self.changes = crate::tui::views::changes::ChangesState { changes: c, selected: 0, loaded: true };
                    },
                    None => {
                        self.changes.loaded = true;
                        self.changes.changes = Vec::new();
                    },
                }
                Command::Nothing
            },
            Outcome::PipelineLoaded(r) => {
                match r {
                    Some(leads) => {
                        self.pipeline = crate::tui::views::pipeline::PipelineState {
                            leads,
                            selected: 0,
                            loaded: true,
                            filter: None,
                            filtering: false,
                            confirm_delete: false,
                        };
                    },
                    None => {
                        self.pipeline.loaded = true;
                        self.pipeline.leads = Vec::new();
                    },
                }
                Command::Nothing
            },
            Outcome::ActivityLoaded(r) => {
                match r {
                    Some(a) => {
                        self.dashboard.activity = a;
                        self.dashboard.activity_days = self.activity_days;
                    },
                    None => {
                        self.dashboard.activity = Vec::new();
                    },
                }
                Command::Nothing
            },
            Outcome::ClientsLoaded(r) => {
                match r {
                    Some(c) => {
                        self.clients = crate::tui::views::clients::ClientsState { clients: c, selected: 0, loaded: true, detail: None };
                    },
                    None => {
                        self.clients.loaded = true;
                        self.clients.clients = Vec::new();
                    },
                }
                Command::Nothing
            },
            Outcome::ClientDetailLoaded(r) => {
                self.clients.detail = Some(
                    match r {
                        Some(d) => d,
                        None => ClientDetailData::default(),
                    },
                );
                Command::Nothing
            },
            Outcome::SkillsLoaded(r) => {
                match r {
                    Some(sk) => {
                        self.skills = crate::tui::views::skills::SkillsState { skills: sk, selected: 0, loaded: true, run_output: None };
                    },
                    None => {
                        self.skills.loaded = true;
                        self.skills.skills = Vec::new();
                    },
                }
                Command::Nothing
            },
            Outcome::IdentityLoaded(r) => {
                match r {
                    Ok(doc) => {
                        self.identity_mode = mode_for_document(doc);
                    },
                    Err(_) => {},
                }
                Command::Nothing
            },
            _ => Command::Nothing,
        }
    }

    /// Data fetched again after a change.
    fn apply_reload(&mut self, outcome: Outcome) -> (cmd: Command)
        requires
            old(self).wf(),
            outcome matches Outcome::ProjectRefreshed(..) || outcome matches Outcome::DashboardReloaded(..) || outcome matches Outcome::PipelineReloaded(..) || outcome matches Outcome::LeadReloaded(..) || outcome matches Outcome::StatusReloaded(..) || outcome matches Outcome::StatusReloadedKeepingSelection(..),
        ensures
            outcome_step(*old(self), outcome, *final(self), cmd),
            final(self).wf(),
    {
        match outcome {
            Outcome::ProjectRefreshed(r) => {
                match r {
                    Some(pd) => {
                        self.project_data = Some(pd);
                    },
                    None => {},
                }
                Command::Nothing
            },
            Outcome::DashboardReloaded(r) => {
                match r {
                    Some(d) => {
                        self.dashboard = d;
                    },
                    None => {},
                }
                Command::Nothing
            },
            Outcome::PipelineReloaded(r) => {
                match r {
                    Some(leads) => {
                        self.pipeline.leads = leads;
                    },
                    None => {},
                }
                Command::Nothing
            },
            Outcome::LeadReloaded(r) => {
                match r {
                    Some(ld) => {
                        let mut ld = ld;
                        ld.stage_picker = None;
                        ld.confirm_delete = false;
                        self.lead_detail = Some(ld);
                    },
                    None => {},
                }
                Command::Nothing
            },
            Outcome::StatusReloaded(r) => {
                match r {
                    Some(sd) => {
                        self.status_data = Some(sd);
                    },
                    None => {},
                }
                Command::Nothing
            },
            Outcome::StatusReloadedKeepingSelection(r) => {
                match r {
                    Some(sd) => {
                        let mut sd = sd;
                        match &self.status_data {
                            Some(prev) => {
                                sd.selected_section = prev.selected_section;
                                sd.selected_index = prev.selected_index;
                                sd.selected_index = clamp_index(&sd);
                            },
                            None => {},
                        }
                        self.status_data = Some(sd);
                    },
                    None => {},
                }
                Command::Nothing
            },
            _ => Command::Nothing,
        }
    }

    /// Requests whose end only leads to a reload.
    fn apply_follow_up(&mut self, outcome: Outcome) -> (cmd: Command)
        requires
            old(self).wf(),
            outcome matches Outcome::FilePushed { .. } || outcome matches Outcome::ProjectChanged { .. } || outcome matches Outcome::LeadCreated || outcome matches Outcome::ProjectCreated || outcome matches Outcome::LeadChanged { .. } || outcome matches Outcome::DecisionResolved || outcome matches Outcome::TaskStatusUpdated || outcome matches Outcome::OpenLeadDeleted || outcome matches Outcome::Done,
        ensures
            outcome_step(*old(self), outcome, *final(self), cmd),
            final(self).wf(),
    {
        match outcome {
            Outcome::FilePushed { project_slug, ok } => {
                if ok {
                    Command::RefreshProject { slug: project_slug }
                } else {
                    Command::Nothing
                }
            },
            Outcome::ProjectChanged { project_slug } => Command::RefreshProject { slug: project_slug },
            Outcome::LeadCreated => Command::ReloadPipeline,
            Outcome::ProjectCreated => Command::ReloadDashboard,
            Outcome::LeadChanged { lead_id } => Command::ReloadLead { id: lead_id },
            Outcome::DecisionResolved => Command::ReloadStatus,
            Outcome::TaskStatusUpdated => Command::ReloadStatusKeepingSelection,
            Outcome::OpenLeadDeleted => Command::ReloadPipeline,
            Outcome::Done => Command::Nothing,
            _ => Command::Nothing,
        }
    }

    /// Results shown where they were asked for.
    fn apply_result(&mut self, outcome: Outcome) -> (cmd: Command)
        requires
            old(self).wf(),
            outcome matches Outcome::ChangeDecided { .. } || outcome matches Outcome::ChatAnswered(..) || outcome matches Outcome::SearchFinished(..) || outcome matches Outcome::SkillRan(..) || outcome matches Outcome::IdentityGenerated(..),
        ensures
            outcome_step(*old(self), outcome, *final(self), cmd),
            final(self).wf(),
    {
        match outcome {
            Outcome::ChangeDecided { ok } => {
                if ok && self.changes.selected < self.changes.changes.len() {
                    let sel = self.changes.selected;
                    let _removed = self.changes.changes.remove(sel);
                    if sel > 0 && sel >= self.changes.changes.len() {
                        self.changes.selected = sel - 1;
                    }
                }
                Command::Nothing
            },
            Outcome::ChatAnswered(r) => {
                let text = result_text(r, "No response");
                let ghost before = self.chat.messages@;
                self.chat.messages.push(assistant_message(text));
                assert(self.chat.messages@.drop_last() =~= before);
                self.chat.loading = false;
                Command::Nothing
            },
            Outcome::SearchFinished(r) => {
                match r {
                    Some(res) => {
                        self.search.results = res;
                        self.search.selected = 0;
                    },
                    None => {
                        self.search.results = Vec::new();
                    },
                }
                self.search.searching = false;
                self.search.searched = true;
                Command::Nothing
            },
            Outcome::SkillRan(r) => {
                self.skills.run_output = Some(result_text(r, "No output"));
                Command::Nothing
            },
            Outcome::IdentityGenerated(r) => {
                match r {
                    Ok(g) => {
                        let content = match g {
                            Some(c) => c,
                            None => String::new(),
                        };
                        let mut cur = IdentityMode::View { content: String::new(), complete: false };
                        core::mem::swap(&mut cur, &mut self.identity_mode);
                        self.identity_mode = match cur {
                            IdentityMode::Onboarding { answers, .. } => IdentityMode::Review { generated: content, answers },
                            IdentityMode::Review { answers, .. } => IdentityMode::Review { generated: content, answers },
                            other => other,
                        };
                    },
                    Err(_) => {},
                }
                Command::Nothing
            },
            _ => Command::Nothing,
        }
    }

    /// Take in the outcome of a request and name the request that follows.
    pub fn apply(&mut self, outcome: Outcome) -> (cmd: Command)
        requires
            old(self).wf(),
        ensures
            outcome_step(*old(self), outcome, *final(self), cmd),
            final(self).wf(),
    {
        match &outcome {
            Outcome::UserNameLoaded(..) | Outcome::DashboardLoaded(..) => self.apply_start(outcome),
            Outcome::ProjectLoaded(..) | Outcome::StatusLoaded(..) | Outcome::LeadLoaded(..) | Outcome::ChangesLoaded(..) | Outcome::PipelineLoaded(..) | Outcome::ActivityLoaded(..) | Outcome::ClientsLoaded(..) | Outcome::ClientDetailLoaded(..) | Outcome::SkillsLoaded(..) | Outcome::IdentityLoaded(..) => self.apply_view_load(outcome),
            Outcome::ProjectRefreshed(..) | Outcome::DashboardReloaded(..) | Outcome::PipelineReloaded(..) | Outcome::LeadReloaded(..) | Outcome::StatusReloaded(..) | Outcome::StatusReloadedKeepingSelection(..) => self.apply_reload(outcome),
            Outcome::FilePushed { .. } | Outcome::ProjectChanged { .. } | Outcome::LeadCreated | Outcome::ProjectCreated | Outcome::LeadChanged { .. } | Outcome::DecisionResolved | Outcome::TaskStatusUpdated | Outcome::OpenLeadDeleted | Outcome::Done => self.apply_follow_up(outcome),
            Outcome::ChangeDecided { .. } | Outcome::ChatAnswered(..) | Outcome::SearchFinished(..) | Outcome::SkillRan(..) | Outcome::IdentityGenerated(..) => self.apply_result(outcome),
        }
    }
}


// ---------------------------------------------------------------------------
// Laws
// ---------------------------------------------------------------------------

/// Moving a selection up or down a list keeps it on the list: from an item
/// of a list, one step down or up lands on an item of the same list, and
/// an empty list keeps the selection at the top.
pub proof fn lemma_selection_stays_in_list(sel: usize, len: nat)
    ensures
        sel < len ==> inc_sel(sel, len) < len && dec_sel(sel) < len,
        sel == 0 ==> dec_sel(sel) == 0,
        len == 0 ==> inc_sel(sel, len) == sel,
        len <= usize::MAX ==> sel <= inc_sel(sel, len) <= sel + 1,
        dec_sel(sel) <= sel,
{
}

/// `Enter` on a task cycles its status through open, in progress and done:
/// three presses bring a task back to where it was, and any other status
/// becomes open.
pub proof fn lemma_task_status_cycle(status: Seq<char>)
    ensures
        (status == "open"@ || status == "in_progress"@ || status == "done"@)
            ==> next_task_status(next_task_status(next_task_status(status))) == status,
        next_task_status(status) == "open"@ || next_task_status(status) == "in_progress"@
            || next_task_status(status) == "done"@,
{
    reveal_strlit("open");
    reveal_strlit("in_progress");
    reveal_strlit("done");
    assert("open"@.len() != "in_progress"@.len());
    assert("done"@.len() != "in_progress"@.len());
    assert("open"@[0] != "done"@[0]);
    assert("open"@ != "done"@);
}

/// `Tab` pressed twice in the daily status focuses the section it started
/// on.
pub proof fn lemma_tab_twice(s: StatusSection)
    ensures
        other_section(other_section(s)) == s,
        other_section(s) != s,
{
}

/// Typing a character into the input bar and erasing it with Backspace
/// gives back the text that was there.
pub proof fn lemma_type_then_erase(pre: App, c: char, mid: App, post: App, cmd1: Command, cmd2: Command)
    requires
        input_key_step(pre, Key { code: KeyCode::Char(c), ctrl: false }, mid, cmd1),
        input_key_step(mid, Key { code: KeyCode::Backspace, ctrl: false }, post, cmd2),
    ensures
        post == (App { input_buffer: post.input_buffer, ..pre }),
        post.input_buffer@ == pre.input_buffer@,
        cmd1 == Command::Nothing && cmd2 == Command::Nothing,
{
    assert(pre.input_buffer@.push(c).drop_last() =~= pre.input_buffer@);
}

/// Deleting a lead from the pipeline leaves no lead with its id, and keeps
/// every lead with another id, in order.
pub proof fn lemma_delete_lead(leads: Seq<LeadSummary>, id: Seq<char>)
    ensures
        forall|i: int| 0 <= i < without_lead(leads, id).len() ==> (#[trigger] without_lead(leads, id)[i]).id@ != id,
        without_lead(leads, id) == leads.filter(|l: LeadSummary| l.id@ != id),
    decreases leads.len(),
{
    reveal(Seq::filter);
    if leads.len() > 0 {
        lemma_delete_lead(leads.drop_last(), id);
        assert(leads.drop_last() == leads.subrange(0, leads.len() - 1));
    }
}

/// Only `q` and Control-C stop the program: a key press that stops it is
/// one of them.
pub proof fn lemma_only_quit_keys_stop(pre: App, key: Key, post: App, cmd: Command)
    requires
        key_step(pre, key, post, cmd),
        pre.running,
        !post.running,
    ensures
        spec_is_quit(key),
{
    if pre.input_mode is None && pre.view == view::View::Identity && key.code != KeyCode::Esc && !key.is_ctrl_c() {
        let (m, a) = choose|m: IdentityMode, a: IdentityAction|
            #[trigger] identity_key_step(pre.identity_mode, key, m, a)
                && identity_action_done(App { identity_mode: m, ..pre }, a, post, cmd);
        assert(post.running == pre.running);
    }
}

/// The outcome of a request never moves to another view and never stops
/// the program: only keys do.
#[verifier::spinoff_prover]
#[verifier::rlimit(80)]
pub proof fn lemma_outcomes_keep_view(pre: App, outcome: Outcome, post: App, cmd: Command)
    requires
        outcome_step(pre, outcome, post, cmd),
    ensures
        post.view == pre.view,
        post.previous_view == pre.previous_view,
        post.running == pre.running,
        post.input_mode == pre.input_mode,
{
}

/// Every character of a generated slug is alphanumeric or `-`, and the slug
/// is as long as the lowercased name.
pub proof fn lemma_slug_chars(name: Seq<char>)
    ensures
        slugified(name).len() == spec_to_lowercase(name).len(),
        forall|i: int| 0 <= i < slugified(name).len()
            ==> spec_is_alphanumeric(#[trigger] slugified(name)[i]) || slugified(name)[i] == '-',
{
}


/// Which outcomes report on which request: the program answers each
/// request it makes with an outcome of the matching kind.
pub open spec fn answers(cmd: Command, o: Outcome) -> bool {
    match cmd {
        Command::Nothing => false,
        Command::LoadUserName => o is UserNameLoaded,
        Command::LoadDashboard => o is DashboardLoaded,
        Command::LoadProject { .. } => o is ProjectLoaded,
        Command::LoadStatus => o is StatusLoaded,
        Command::LoadLead { .. } => o is LeadLoaded,
        Command::LoadChanges => o is ChangesLoaded,
        Command::LoadPipeline => o is PipelineLoaded,
        Command::LoadActivity { .. } => o is ActivityLoaded,
        Command::LoadClients => o is ClientsLoaded,
        Command::LoadClientDetail { .. } => o is ClientDetailLoaded,
        Command::LoadSkills => o is SkillsLoaded,
        Command::LoadIdentity => o is IdentityLoaded,
        Command::RefreshProject { .. } => o is ProjectRefreshed,
        Command::ReloadDashboard => o is DashboardReloaded,
        Command::ReloadPipeline => o is PipelineReloaded,
        Command::ReloadLead { .. } => o is LeadReloaded,
        Command::ReloadStatus => o is StatusReloaded,
        Command::ReloadStatusKeepingSelection => o is StatusReloadedKeepingSelection,
        Command::PushFile { .. } => o is FilePushed,
        Command::LinkRepo { .. } | Command::CreateTask { .. } | Command::CreateDecision { .. } => o is ProjectChanged,
        Command::CreateLead { .. } => o is LeadCreated,
        Command::CreateProject { .. } => o is ProjectCreated,
        Command::AddLeadNote { .. } | Command::AddLeadContact { .. } | Command::UpdateLeadStage { .. } => o is LeadChanged,
        Command::ResolveDecision { .. } => o is DecisionResolved,
        Command::UpdateTaskStatus { .. } => o is TaskStatusUpdated,
        Command::DeleteLead { .. } | Command::SaveIdentity { .. } => o is Done,
        Command::DeleteOpenLead { .. } => o is OpenLeadDeleted,
        Command::ApproveChange { .. } | Command::RejectChange { .. } => o is ChangeDecided,
        Command::Chat { .. } => o is ChatAnswered,
        Command::Search { .. } => o is SearchFinished,
        Command::RunSkill { .. } => o is SkillRan,
        Command::GenerateIdentity { .. } => o is IdentityGenerated,
    }
}

/// How many requests at most a request leads to, itself included: the
/// first request asks for the dashboard, which may refresh the project;
/// a change leads to a reload; anything else to nothing.
pub open spec fn chain_rank(cmd: Command) -> nat {
    match cmd {
        Command::Nothing => 0,
        Command::LoadUserName => 3,
        Command::LoadDashboard | Command::PushFile { .. } | Command::LinkRepo { .. } | Command::CreateTask { .. }
        | Command::CreateDecision { .. } | Command::CreateLead { .. } | Command::CreateProject { .. }
        | Command::AddLeadNote { .. } | Command::AddLeadContact { .. } | Command::ResolveDecision { .. }
        | Command::UpdateTaskStatus { .. } | Command::UpdateLeadStage { .. } | Command::DeleteOpenLead { .. } => 2,
        _ => 1,
    }
}

/// The requests that follow one another end: the request that follows an
/// outcome ranks below the request it answers, so no chain of requests is
/// longer than three.
#[verifier::spinoff_prover]
#[verifier::rlimit(80)]
pub proof fn lemma_requests_end(pre: App, cmd: Command, o: Outcome, post: App, next: Command)
    requires
        answers(cmd, o),
        outcome_step(pre, o, post, next),
    ensures
        chain_rank(next) < chain_rank(cmd),
        chain_rank(cmd) <= 3,
{
}

/// On the dashboard, the up and down keys move the selection through the
/// project list one place at a time: up moves to the project just above
/// (and stays on the first), down to the project just below (and stays on
/// the last); nothing else changes and nothing is fetched.
pub proof fn lemma_dashboard_moves_one_place(pre: App, key: Key, post: App, cmd: Command)
    requires
        pre.input_mode is None,
        pre.view == view::View::Dashboard,
        is_up(key) || is_down(key),
        key_step(pre, key, post, cmd),
    ensures
        is_up(key) && pre.selected_index > 0 ==> post.selected_index == pre.selected_index - 1,
        is_up(key) && pre.selected_index == 0 ==> post.selected_index == 0,
        is_down(key) && pre.selected_index + 1 < pre.dashboard.projects@.len() ==> post.selected_index
            == pre.selected_index + 1,
        is_down(key) && pre.selected_index + 1 >= pre.dashboard.projects@.len() ==> post.selected_index
            == pre.selected_index,
        post == (App { selected_index: post.selected_index, ..pre }),
        cmd == Command::Nothing,
{
    assert(pre.dashboard.projects@.len() == pre.dashboard.projects.len());
}

/// A search that answered shows exactly the results it answered with, the
/// first one selected; a search that failed shows none. Either way the
/// search is over and counts as done.
pub proof fn lemma_search_shows_its_results(pre: App, r: Option<Vec<SearchResult>>, post: App, cmd: Command)
    requires
        outcome_step(pre, Outcome::SearchFinished(r), post, cmd),
    ensures
        r matches Some(res) ==> post.search.results@ == res@ && post.search.selected == 0,
        r is None ==> post.search.results@.len() == 0,
        post.search.searched && !post.search.searching,
        post.search.query == pre.search.query,
        cmd == Command::Nothing,
{
}

/// The assistant's reply is added after the conversation so far as one
/// assistant message: the answer itself when the reply holds one, `No
/// response` when it holds none, and `Error: ` with the error when the
/// question failed.
pub proof fn lemma_chat_shows_the_answer(pre: App, r: Result<Option<String>, String>, post: App, cmd: Command)
    requires
        outcome_step(pre, Outcome::ChatAnswered(r), post, cmd),
    ensures
        post.chat.messages@.len() == pre.chat.messages@.len() + 1,
        forall|i: int| 0 <= i < pre.chat.messages@.len() ==> post.chat.messages@[i] == pre.chat.messages@[i],
        post.chat.messages@.last().role@ == "assistant"@,
        r matches Ok(Some(a)) ==> post.chat.messages@.last().content@ == a@,
        r matches Ok(None) ==> post.chat.messages@.last().content@ == "No response"@,
        r matches Err(e) ==> post.chat.messages@.last().content@ == "Error: "@ + e@,
        !post.chat.loading,
        cmd == Command::Nothing,
{
    assert forall|i: int| 0 <= i < pre.chat.messages@.len() implies post.chat.messages@[i]
        == pre.chat.messages@[i] by {
        assert(post.chat.messages@.drop_last()[i] == post.chat.messages@[i]);
    }
}

/// Every finished change is followed by fetching again the data it changed:
/// a new or deleted lead reloads the pipeline, a new project the dashboard,
/// a changed lead that lead, a resolved decision or an updated task the
/// status view, and a project change (or a file pushed to it) that project;
/// none of them changes the state by itself.
pub proof fn lemma_changes_reload_what_they_changed(pre: App, o: Outcome, post: App, cmd: Command)
    requires
        outcome_step(pre, o, post, cmd),
    ensures
        o is LeadCreated ==> post == pre && cmd == Command::ReloadPipeline,
        o is OpenLeadDeleted ==> post == pre && cmd == Command::ReloadPipeline,
        o is ProjectCreated ==> post == pre && cmd == Command::ReloadDashboard,
        o matches Outcome::LeadChanged { lead_id } ==> post == pre && cmd == (Command::ReloadLead { id: lead_id }),
        o is DecisionResolved ==> post == pre && cmd == Command::ReloadStatus,
        o is TaskStatusUpdated ==> post == pre && cmd == Command::ReloadStatusKeepingSelection,
        o matches Outcome::ProjectChanged { project_slug } ==> post == pre && cmd == (Command::RefreshProject {
            slug: project_slug,
        }),
        o matches Outcome::FilePushed { project_slug, ok } ==> post == pre && (ok ==> cmd == (
        Command::RefreshProject { slug: project_slug })),
{
}

/// Where one press of the up or down key leaves a selection at `before` in a
/// list of `len` items: one place up (staying on the first) or one place
/// down (staying on the last).
pub open spec fn moved_one_place(key: Key, before: int, after: int, len: int) -> bool {
    &&& is_up(key) ==> after == (if before > 0 { before - 1 } else { 0 })
    &&& is_down(key) ==> after == (if before + 1 < len { before + 1 } else { before })
}

/// In the pending changes, the skills, the clients and the pipeline (while
/// no filter is typed and no deletion awaits confirmation), the up and down
/// keys move the selection one place through the list shown, change nothing
/// else in that view and fetch nothing.
pub proof fn lemma_lists_move_one_place(pre: App, key: Key, post: App, cmd: Command)
    requires
        pre.input_mode is None,
        is_up(key) || is_down(key),
        key_step(pre, key, post, cmd),
    ensures
        pre.view == view::View::Changes ==> moved_one_place(key, pre.changes.selected as int,
            post.changes.selected as int, pre.changes.changes@.len() as int) && post == (App {
            changes: crate::tui::views::changes::ChangesState { selected: post.changes.selected, ..pre.changes },
            ..pre
        }) && cmd == Command::Nothing,
        pre.view == view::View::Skills ==> moved_one_place(key, pre.skills.selected as int,
            post.skills.selected as int, pre.skills.skills@.len() as int) && post == (App {
            skills: crate::tui::views::skills::SkillsState { selected: post.skills.selected, ..pre.skills },
            ..pre
        }) && cmd == Command::Nothing,
        pre.view == view::View::Clients ==> moved_one_place(key, pre.clients.selected as int,
            post.clients.selected as int, pre.clients.clients@.len() as int) && post == (App {
            clients: crate::tui::views::clients::ClientsState { selected: post.clients.selected, ..pre.clients },
            ..pre
        }) && cmd == Command::Nothing,
        pre.view == view::View::Pipeline && !pre.pipeline.filtering && !pre.pipeline.confirm_delete
            ==> moved_one_place(key, pre.pipeline.selected as int, post.pipeline.selected as int,
            pre.pipeline.shown().len() as int) && post == (App {
            pipeline: crate::tui::views::pipeline::PipelineState { selected: post.pipeline.selected, ..pre.pipeline },
            ..pre
        }) && cmd == Command::Nothing,
{
    assert(pre.changes.changes@.len() == pre.changes.changes.len());
    assert(pre.skills.skills@.len() == pre.skills.skills.len());
    assert(pre.clients.clients@.len() == pre.clients.clients.len());
    assert(pre.pipeline.leads@.len() == pre.pipeline.leads.len());
    crate::tui::views::pipeline::lemma_filter_len(pre.pipeline.leads@, pre.pipeline.filter);
}

} // verus!
