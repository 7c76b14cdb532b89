//! The application state: which view is open, what each view holds, and
//! the navigation between views.

use vstd::prelude::*;
use crate::api::ApiClient;
use crate::text::{trim_start_char, trim_start_matches};
use crate::tui::data::DashboardData;
use crate::tui::keys::{Key, KeyCode};
use crate::tui::view;
use crate::tui::views::changes::ChangesState;
use crate::tui::views::chat::ChatState;
use crate::tui::views::clients::ClientsState;
use crate::tui::views::identity::IdentityMode;
use crate::tui::views::lead::LeadDetail;
use crate::tui::views::pipeline::PipelineState;
use crate::tui::views::project::ProjectData;
use crate::tui::views::search::SearchState;
use crate::tui::views::skills::SkillsState;
use crate::tui::views::status::StatusData;

verus! {

/// What the input bar is collecting, and for what.
#[derive(Debug, Clone, PartialEq)]
pub enum InputMode {
    /// A local file path to push to the project.
    PushFile { project_slug: String },
    /// An `owner/repo` to link to the project.
    LinkRepo { project_slug: String },
    /// The title of a new task.
    NewTask { project_slug: String },
    /// The title of a new decision.
    NewDecision { project_slug: String },
    /// The company name of a new lead.
    NewLead,
    /// `name` or `name:slug` of a new project.
    NewProject,
    /// A note for the lead.
    AddLeadNote { lead_id: String },
    /// `name` or `name:email` of a new contact of the lead.
    AddLeadContact { lead_id: String },
    /// The resolution of a decision.
    ResolveDecision { project_slug: String, decision_id: String },
    /// A question that opens the chat.
    ChatInput { project_slug: Option<String>, lead_id: Option<String> },
}

/// Top-level application state.
pub struct App {
    pub view: view::View,
    pub previous_view: Option<view::View>,
    pub running: bool,
    pub client: ApiClient,
    pub user_name: String,
    pub dashboard: DashboardData,
    pub project_data: Option<ProjectData>,
    pub status_data: Option<StatusData>,
    pub search: SearchState,
    pub changes: ChangesState,
    pub pipeline: PipelineState,
    pub lead_detail: Option<LeadDetail>,
    pub identity_mode: IdentityMode,
    pub skills: SkillsState,
    pub chat: ChatState,
    pub clients: ClientsState,
    pub selected_index: usize,
    pub loading: bool,
    pub error: Option<String>,
    pub input_mode: Option<InputMode>,
    pub input_buffer: String,
    /// Days of team activity shown on the dashboard: 1 or 7.
    pub activity_days: u32,
}

/// The view after moving to `view`: the current one is remembered for
/// going back, and the selection starts at the top.
pub open spec fn navigated(pre: App, view: view::View) -> App {
    App { previous_view: Some(pre.view), view, selected_index: 0, ..pre }
}

/// The view after going back: the remembered view, if any, is reopened
/// (and forgotten) with the selection at the top; otherwise nothing changes.
pub open spec fn went_back(pre: App) -> App {
    match pre.previous_view {
        Some(prev) => App { view: prev, previous_view: None, selected_index: 0, ..pre },
        None => pre,
    }
}

impl App {
    /// The invariants the key handling relies on: an open stage picker
    /// points at a stage, and the interview has one answer per question.
    pub open spec fn wf(&self) -> bool {
        &&& (self.lead_detail matches Some(ld) ==> ld.wf())
        &&& self.identity_mode.wf()
    }

    /// Create a new app, optionally focused on a project (given as
    /// `@slug` or `slug`).
    pub fn new(client: ApiClient, project: Option<String>) -> (app: Self)
        ensures
            match project {
                Some(p) => app.view matches view::View::Project { slug } && slug@ == trim_start_char(p@, '@'),
                None => app.view == view::View::Dashboard,
            },
            app.previous_view is None,
            app.running,
            app.client == client,
            app.user_name@.len() == 0,
            app.dashboard.is_empty(),
            app.project_data is None,
            app.status_data is None,
            app.search.query@.len() == 0 && app.search.results@.len() == 0,
            app.changes.changes@.len() == 0 && !app.changes.loaded,
            app.pipeline.leads@.len() == 0 && !app.pipeline.loaded && app.pipeline.filter is None
                && !app.pipeline.filtering && !app.pipeline.confirm_delete,
            app.lead_detail is None,
            app.identity_mode matches IdentityMode::View { content, complete } && content@.len() == 0
                && !complete,
            app.skills.skills@.len() == 0 && !app.skills.loaded && app.skills.run_output is None,
            app.chat.is_fresh(None, None),
            app.clients.clients@.len() == 0 && !app.clients.loaded && app.clients.detail is None,
            app.selected_index == 0,
            app.loading,
            app.error is None,
            app.input_mode is None,
            app.input_buffer@.len() == 0,
            app.activity_days == 1,
            app.wf(),
    {
        let view = match project {
            Some(p) => view::View::Project { slug: trim_start_matches(p.as_str(), '@') },
            None => view::View::Dashboard,
        };
        App {
            view,
            previous_view: None,
            running: true,
            client,
            user_name: String::new(),
            dashboard: DashboardData::default(),
            project_data: None,
            status_data: None,
            search: SearchState::default(),
            changes: ChangesState::default(),
            pipeline: PipelineState::default(),
            lead_detail: None,
            identity_mode: IdentityMode::default(),
            skills: SkillsState::default(),
            chat: ChatState::default(),
            clients: ClientsState::default(),
            selected_index: 0,
            loading: true,
            error: None,
            input_mode: None,
            input_buffer: String::new(),
            activity_days: 1,
        }
    }

    /// Navigate to a new view, saving the current one for back navigation.
    pub fn navigate(&mut self, view: view::View)
        ensures
            *final(self) == navigated(*old(self), view),
    {
        let mut v = view;
        core::mem::swap(&mut self.view, &mut v);
        self.previous_view = Some(v);
        self.selected_index = 0;
    }

    /// Go back to the previous view.
    pub fn go_back(&mut self)
        ensures
            *final(self) == went_back(*old(self)),
    {
        if let Some(prev) = self.previous_view.take() {
            self.view = prev;
            self.selected_index = 0;
        }
    }

    /// Whether the dashboard is open.
    pub fn on_dashboard(&self) -> (r: bool)
        ensures
            r == (self.view == view::View::Dashboard),
    {
        match self.view {
            view::View::Dashboard => true,
            _ => false,
        }
    }

    /// Handle a global key event. Returns true if the key was consumed:
    /// `q` stops the application, `b` goes back from any view but the
    /// dashboard, `i` opens the identity view.
    pub fn handle_global_key(&mut self, key: &Key) -> (consumed: bool)
        ensures
            global_key_step(*old(self), *key, *final(self), consumed),
    {
        match key.code {
            KeyCode::Char('q') => {
                self.running = false;
                true
            },
            KeyCode::Char('b') => {
                if !self.on_dashboard() {
                    self.go_back();
                    true
                } else {
                    false
                }
            },
            KeyCode::Char('i') => {
                self.navigate(view::View::Identity);
                true
            },
            _ => false,
        }
    }
}

/// What a global key does.
pub open spec fn global_key_step(pre: App, key: Key, post: App, consumed: bool) -> bool {
    if key.is_char('q') {
        post == App { running: false, ..pre } && consumed
    } else if key.is_char('b') {
        if pre.view != view::View::Dashboard {
            post == went_back(pre) && consumed
        } else {
            post == pre && !consumed
        }
    } else if key.is_char('i') {
        post == navigated(pre, view::View::Identity) && consumed
    } else {
        post == pre && !consumed
    }
}

/// Going back after moving to a view returns to the view that was open
/// before, with the selection at the top.
pub proof fn lemma_navigate_then_back(pre: App, view: view::View)
    ensures
        went_back(navigated(pre, view)).view == pre.view,
        went_back(navigated(pre, view)).previous_view is None,
        went_back(navigated(pre, view)).selected_index == 0,
        went_back(navigated(pre, view)) == (App { previous_view: None, selected_index: 0, ..pre }),
{
}

/// Going back twice in a row changes nothing the second time.
pub proof fn lemma_back_twice(pre: App)
    ensures
        went_back(went_back(pre)) == went_back(pre),
{
}

} // verus!
