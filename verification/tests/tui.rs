use os_cli::api::ApiClient;
use os_cli::tui::app::{App, InputMode};
use os_cli::tui::data::{DashboardData, ProjectSummary};
use os_cli::tui::format::{activity_tag, format_phase, format_stage, pending_label};
use os_cli::tui::keys::{is_quit, Key, KeyCode};
use os_cli::tui::machine::{parse_contact, parse_new_project, slugify, Command, Outcome};
use os_cli::tui::view::View;
use os_cli::tui::views::changes::PendingChange;
use os_cli::tui::views::chat::ChatState;
use os_cli::tui::views::clients::ClientsState;
use os_cli::tui::views::identity::{handle_key, IdentityAction, IdentityDocument, IdentityMode};
use os_cli::tui::views::lead::{LeadDetail, StagePicker};
use os_cli::tui::views::pipeline::{LeadSummary, PipelineState};
use os_cli::tui::views::project::{is_manager, open_decisions, DecisionEntry, TeamMember};
use os_cli::tui::views::status::{StatusData, StatusDecision, StatusSection, StatusTask};

fn test_app() -> App {
    App::new(ApiClient::new("http://localhost", ""), None)
}

fn key(c: char) -> Key {
    Key::new(KeyCode::Char(c))
}

fn press(app: &mut App, k: Key) -> Command {
    app.handle_key(&k)
}

fn type_text(app: &mut App, text: &str) {
    for c in text.chars() {
        let cmd = press(app, key(c));
        assert!(matches!(cmd, Command::Nothing));
    }
}

fn lead(id: &str, company: &str) -> LeadSummary {
    LeadSummary {
        id: id.to_string(),
        company_name: company.to_string(),
        contact_name: None,
        estimated_value: None,
        stage: "warm".to_string(),
        next_action: None,
        next_action_date: None,
    }
}

fn project(slug: &str) -> ProjectSummary {
    ProjectSummary {
        name: slug.to_uppercase(),
        slug: slug.to_string(),
        description: None,
        phase: "discovery".to_string(),
        is_internal: false,
        team_count: 2,
    }
}

fn task(id: &str, status: &str, project: &str) -> StatusTask {
    StatusTask { id: id.to_string(), title: format!("task {id}"), status: status.to_string(), due: None, project_slug: project.to_string() }
}

#[test]
fn starts_at_dashboard() {
    let app = test_app();
    assert_eq!(app.view, View::Dashboard);
    assert!(app.running);
}

#[test]
fn starts_at_project_when_given() {
    let app = App::new(ApiClient::new("http://localhost", ""), Some("@brownells".into()));
    assert_eq!(app.view, View::Project { slug: "brownells".into() });
}

#[test]
fn navigate_and_back() {
    let mut app = test_app();
    app.navigate(View::Search);
    assert_eq!(app.view, View::Search);

    app.go_back();
    assert_eq!(app.view, View::Dashboard);
}

#[test]
fn q_stops_app() {
    let mut app = test_app();
    assert!(app.handle_global_key(&key('q')));
    assert!(!app.running);
}

#[test]
fn b_does_not_go_back_from_dashboard() {
    let mut app = test_app();
    assert!(!app.handle_global_key(&key('b')));
    assert_eq!(app.view, View::Dashboard);
}

#[test]
fn q_is_quit() {
    assert!(is_quit(&key('q')));
}

#[test]
fn ctrl_c_is_quit() {
    assert!(is_quit(&Key::with_ctrl(KeyCode::Char('c'))));
}

#[test]
fn other_keys_not_quit() {
    assert!(!is_quit(&key('a')));
    assert!(!is_quit(&key('c')));
    assert!(!is_quit(&Key::new(KeyCode::Esc)));
}

#[test]
fn clients_state_defaults() {
    let state = ClientsState::default();
    assert!(state.clients.is_empty());
    assert_eq!(state.selected, 0);
    assert!(!state.loaded);
}

#[test]
fn back_twice_changes_nothing_more() {
    let mut app = test_app();
    app.navigate(View::Changes);
    app.navigate(View::Skills);
    app.go_back();
    assert_eq!(app.view, View::Changes);
    app.go_back();
    assert_eq!(app.view, View::Changes);
}

#[test]
fn phases_and_stages_read_well() {
    assert_eq!(format_phase("in_progress"), "In Progress");
    assert_eq!(format_phase("on_hold"), "On Hold");
    assert_eq!(format_phase("custom"), "custom");
    assert_eq!(format_stage("proposal_sent"), "Proposal Sent");
    assert_eq!(format_stage("closed_lost"), "Closed Lost");
    assert_eq!(format_stage("other"), "other");
}

#[test]
fn stage_picker_opens_at_stage() {
    let p = StagePicker::new("negotiating");
    assert_eq!(p.selected, 4);
    assert_eq!(p.current(), "negotiating");
    assert_eq!(p.stages.len(), 7);
    let q = StagePicker::new("unknown");
    assert_eq!(q.selected, 0);
    assert_eq!(q.current(), "cold");
}

#[test]
fn chat_context_labels() {
    assert_eq!(ChatState::new(Some("acme".into()), None).context_label(), "acme");
    assert_eq!(ChatState::new(None, Some("0123456789abcdef".into())).context_label(), "Lead 01234567");
    assert_eq!(ChatState::new(None, Some("abc".into())).context_label(), "Lead abc");
    assert_eq!(ChatState::new(None, None).context_label(), "Global");
}

#[test]
fn pipeline_filter_matches_company_case_insensitively() {
    let state = PipelineState {
        leads: vec![lead("1", "Acme Corp"), lead("2", "Globex"), lead("3", "ACME Labs")],
        selected: 0,
        loaded: true,
        filter: Some("acme".into()),
        filtering: false,
        confirm_delete: false,
    };
    let shown: Vec<&str> = state.filtered_leads().iter().map(|l| l.id.as_str()).collect();
    assert_eq!(shown, vec!["1", "3"]);
    let all = PipelineState { filter: Some(String::new()), ..state.clone() };
    assert_eq!(all.filtered_leads().len(), 3);
    let none = PipelineState { filter: None, ..state };
    assert_eq!(none.filtered_leads().len(), 3);
}

#[test]
fn slugs_from_project_names() {
    assert_eq!(slugify("My Project!"), "my-project-");
    assert_eq!(slugify("a-b_c"), "a-b-c");
    assert_eq!(parse_new_project("  Acme Site : acme-site "), ("Acme Site".to_string(), "acme-site".to_string()));
    assert_eq!(parse_new_project("Big Deal"), ("Big Deal".to_string(), "big-deal".to_string()));
    assert_eq!(parse_contact(" Jo Smith : jo@x.com"), ("Jo Smith".to_string(), Some("jo@x.com".to_string())));
    assert_eq!(parse_contact("Jo"), ("Jo".to_string(), None));
}

#[test]
fn startup_requests_chain() {
    let mut app = App::new(ApiClient::new("http://localhost", ""), Some("acme".into()));
    assert!(matches!(app.apply(Outcome::UserNameLoaded(None)), Command::LoadDashboard));
    assert_eq!(app.user_name, "unknown");
    let cmd = app.apply(Outcome::DashboardLoaded(Err("offline".into())));
    assert!(matches!(cmd, Command::RefreshProject { ref slug } if slug == "acme"));
    assert!(!app.loading);
    assert_eq!(app.error.as_deref(), Some("offline"));
}

#[test]
fn dashboard_opens_selected_project() {
    let mut app = test_app();
    let mut d = DashboardData::default();
    d.projects = vec![project("alpha"), project("beta")];
    app.apply(Outcome::DashboardLoaded(Ok(d)));
    press(&mut app, key('j'));
    press(&mut app, key('j'));
    assert_eq!(app.selected_index, 1);
    let cmd = press(&mut app, Key::new(KeyCode::Enter));
    assert!(matches!(cmd, Command::LoadProject { ref slug } if slug == "beta"));
    assert_eq!(app.view, View::Project { slug: "beta".into() });
    assert!(matches!(app.apply(Outcome::ProjectLoaded(None)), Command::Nothing));
    assert!(app.project_data.as_ref().unwrap().files.is_empty());
    press(&mut app, key('b'));
    assert_eq!(app.view, View::Dashboard);
    assert_eq!(app.selected_index, 0);
}

#[test]
fn activity_window_toggles() {
    let mut app = test_app();
    assert!(matches!(press(&mut app, key('w')), Command::LoadActivity { days: 7 }));
    assert!(matches!(press(&mut app, key('w')), Command::LoadActivity { days: 1 }));
    app.apply(Outcome::ActivityLoaded(Some(vec![])));
    assert_eq!(app.dashboard.activity_days, 1);
}

#[test]
fn new_project_from_input_bar() {
    let mut app = test_app();
    press(&mut app, key('n'));
    assert!(matches!(app.input_mode, Some(InputMode::NewProject)));
    type_text(&mut app, "Acme Site!x");
    press(&mut app, Key::new(KeyCode::Backspace));
    press(&mut app, Key::new(KeyCode::Backspace));
    let cmd = press(&mut app, Key::new(KeyCode::Enter));
    match cmd {
        Command::CreateProject { name, slug } => {
            assert_eq!(name, "Acme Site");
            assert_eq!(slug, "acme-site");
        }
        other => panic!("unexpected {:?}", other),
    }
    assert!(app.input_mode.is_none());
    assert_eq!(app.input_buffer, "");
    assert!(matches!(app.apply(Outcome::ProjectCreated), Command::ReloadDashboard));
}

#[test]
fn input_bar_q_is_text_and_esc_cancels() {
    let mut app = test_app();
    press(&mut app, key('n'));
    type_text(&mut app, "q");
    assert!(app.running);
    assert_eq!(app.input_buffer, "q");
    press(&mut app, Key::new(KeyCode::Esc));
    assert!(app.input_mode.is_none());
    assert_eq!(app.input_buffer, "");
    press(&mut app, key('n'));
    assert!(matches!(press(&mut app, Key::new(KeyCode::Enter)), Command::Nothing));
    assert!(app.input_mode.is_none());
}

#[test]
fn project_keys_open_inputs_and_chat() {
    let mut app = App::new(ApiClient::new("http://localhost", ""), Some("@acme".into()));
    press(&mut app, key('t'));
    type_text(&mut app, "Write spec");
    match press(&mut app, Key::new(KeyCode::Enter)) {
        Command::CreateTask { project_slug, title } => {
            assert_eq!(project_slug, "acme");
            assert_eq!(title, "Write spec");
        }
        other => panic!("unexpected {:?}", other),
    }
    assert!(matches!(app.apply(Outcome::ProjectChanged { project_slug: "acme".into() }), Command::RefreshProject { .. }));
    press(&mut app, key('c'));
    assert_eq!(app.view, View::Chat);
    assert_eq!(app.chat.project_slug.as_deref(), Some("acme"));
    type_text(&mut app, "status?");
    match press(&mut app, Key::new(KeyCode::Enter)) {
        Command::Chat { question, project_slug, lead_id } => {
            assert_eq!(question, "status?");
            assert_eq!(project_slug.as_deref(), Some("acme"));
            assert!(lead_id.is_none());
        }
        other => panic!("unexpected {:?}", other),
    }
    assert!(app.chat.loading);
    assert_eq!(app.chat.messages.len(), 1);
    assert_eq!(app.chat.messages[0].role, "user");
    press(&mut app, key('x'));
    assert_eq!(app.chat.input, "");
    app.apply(Outcome::ChatAnswered(Ok(None)));
    assert!(!app.chat.loading);
    assert_eq!(app.chat.messages[1].role, "assistant");
    assert_eq!(app.chat.messages[1].content, "No response");
    app.apply(Outcome::ChatAnswered(Err("timeout".into())));
    assert_eq!(app.chat.messages[2].content, "Error: timeout");
    press(&mut app, Key::new(KeyCode::Esc));
    assert_eq!(app.view, View::Project { slug: "acme".into() });
}

#[test]
fn chat_from_dashboard_input_mode() {
    let mut app = test_app();
    app.input_mode = Some(InputMode::ChatInput { project_slug: None, lead_id: Some("L1".into()) });
    type_text(&mut app, "hi");
    let cmd = press(&mut app, Key::new(KeyCode::Enter));
    assert!(matches!(cmd, Command::Chat { ref question, .. } if question == "hi"));
    assert_eq!(app.view, View::Chat);
    assert_eq!(app.previous_view, Some(View::Dashboard));
    assert_eq!(app.chat.lead_id.as_deref(), Some("L1"));
    assert_eq!(app.chat.messages.len(), 1);
    assert!(app.chat.loading);
    press(&mut app, Key::with_ctrl(KeyCode::Char('c')));
    assert!(app.running);
    app.apply(Outcome::ChatAnswered(Ok(Some("hello".into()))));
    press(&mut app, Key::with_ctrl(KeyCode::Char('c')));
    assert!(!app.running);
}

#[test]
fn pipeline_filter_then_delete() {
    let mut app = test_app();
    press(&mut app, key('/'));
    assert_eq!(app.view, View::Pipeline);
    app.apply(Outcome::PipelineLoaded(Some(vec![lead("1", "Acme"), lead("2", "Beta"), lead("3", "Acme Two")])));
    press(&mut app, key('/'));
    assert!(app.pipeline.filtering);
    type_text(&mut app, "acme");
    assert_eq!(app.pipeline.filter.as_deref(), Some("acme"));
    press(&mut app, Key::new(KeyCode::Enter));
    assert!(!app.pipeline.filtering);
    press(&mut app, key('j'));
    press(&mut app, key('j'));
    assert_eq!(app.pipeline.selected, 1);
    press(&mut app, key('d'));
    assert!(app.pipeline.confirm_delete);
    let cmd = press(&mut app, key('y'));
    assert!(matches!(cmd, Command::DeleteLead { ref lead_id } if lead_id == "3"));
    assert!(!app.pipeline.confirm_delete);
    assert_eq!(app.pipeline.leads.len(), 2);
    assert_eq!(app.pipeline.selected, 0);
    press(&mut app, key('d'));
    assert!(matches!(press(&mut app, key('n')), Command::Nothing));
    assert!(!app.pipeline.confirm_delete);
    assert_eq!(app.pipeline.leads.len(), 2);
}

#[test]
fn lead_detail_stage_and_delete() {
    let mut app = test_app();
    app.apply(Outcome::PipelineLoaded(Some(vec![lead("L9", "Acme")])));
    app.navigate(View::Pipeline);
    let cmd = press(&mut app, Key::new(KeyCode::Enter));
    assert!(matches!(cmd, Command::LoadLead { ref id } if id == "L9"));
    assert_eq!(app.view, View::LeadDetail { id: "L9".into() });
    let mut ld = LeadDetail::default();
    ld.id = "L9".into();
    ld.stage = "warm".into();
    ld.confirm_delete = true;
    app.apply(Outcome::LeadLoaded(Some(ld)));
    assert!(!app.lead_detail.as_ref().unwrap().confirm_delete);
    press(&mut app, key('s'));
    assert_eq!(app.lead_detail.as_ref().unwrap().stage_picker.as_ref().unwrap().selected, 1);
    press(&mut app, Key::new(KeyCode::Down));
    match press(&mut app, Key::new(KeyCode::Enter)) {
        Command::UpdateLeadStage { lead_id, stage } => {
            assert_eq!(lead_id, "L9");
            assert_eq!(stage, "discovery");
        }
        other => panic!("unexpected {:?}", other),
    }
    press(&mut app, Key::new(KeyCode::Esc));
    assert!(app.lead_detail.as_ref().unwrap().stage_picker.is_none());
    press(&mut app, key('a'));
    type_text(&mut app, "Jo:jo@x.com");
    match press(&mut app, Key::new(KeyCode::Enter)) {
        Command::AddLeadContact { lead_id, name, email } => {
            assert_eq!(lead_id, "L9");
            assert_eq!(name, "Jo");
            assert_eq!(email.as_deref(), Some("jo@x.com"));
        }
        other => panic!("unexpected {:?}", other),
    }
    press(&mut app, key('d'));
    let cmd = press(&mut app, key('y'));
    assert!(matches!(cmd, Command::DeleteOpenLead { ref lead_id } if lead_id == "L9"));
    assert_eq!(app.view, View::Pipeline);
    assert!(matches!(app.apply(Outcome::OpenLeadDeleted), Command::ReloadPipeline));
}

#[test]
fn status_cycles_tasks_and_resolves_decisions() {
    let mut app = test_app();
    assert!(matches!(press(&mut app, key('l')), Command::LoadStatus));
    let sd = StatusData {
        overdue: vec![task("t1", "open", "p1")],
        tasks: vec![task("t2", "in_progress", "p2"), task("t3", "done", "p3")],
        decisions: vec![StatusDecision { id: "d1".into(), title: "Pick".into(), project: "p9".into() }],
        ..StatusData::default()
    };
    app.apply(Outcome::StatusLoaded(Some(sd.clone())));
    let statuses: Vec<String> = (0..3)
        .map(|_| {
            let cmd = press(&mut app, Key::new(KeyCode::Enter));
            press(&mut app, key('j'));
            match cmd {
                Command::UpdateTaskStatus { status, .. } => status,
                other => panic!("unexpected {:?}", other),
            }
        })
        .collect();
    assert_eq!(statuses, vec!["in_progress", "done", "open"]);
    assert_eq!(app.status_data.as_ref().unwrap().selected_index, 2);
    assert!(matches!(app.apply(Outcome::TaskStatusUpdated), Command::ReloadStatusKeepingSelection));
    let fewer = StatusData { tasks: vec![], ..sd };
    app.apply(Outcome::StatusReloadedKeepingSelection(Some(fewer)));
    assert_eq!(app.status_data.as_ref().unwrap().selected_index, 0);
    press(&mut app, Key::new(KeyCode::Tab));
    assert_eq!(app.status_data.as_ref().unwrap().selected_section, StatusSection::Decisions);
    press(&mut app, key('r'));
    assert!(matches!(app.input_mode, Some(InputMode::ResolveDecision { ref project_slug, ref decision_id }) if project_slug == "p9" && decision_id == "d1"));
    type_text(&mut app, "yes");
    assert!(matches!(press(&mut app, Key::new(KeyCode::Enter)), Command::ResolveDecision { ref resolution, .. } if resolution == "yes"));
}

#[test]
fn changes_approve_removes_selected() {
    let mut app = test_app();
    assert!(matches!(press(&mut app, key('x')), Command::LoadChanges));
    let change = |id: &str| PendingChange { id: id.into(), file_title: String::new(), project: String::new(), reason: String::new(), diff: String::new() };
    app.apply(Outcome::ChangesLoaded(Some(vec![change("c1"), change("c2")])));
    press(&mut app, key('j'));
    assert!(matches!(press(&mut app, key('a')), Command::ApproveChange { ref id } if id == "c2"));
    app.apply(Outcome::ChangeDecided { ok: true });
    assert_eq!(app.changes.changes.len(), 1);
    assert_eq!(app.changes.selected, 0);
    assert!(matches!(press(&mut app, key('r')), Command::RejectChange { ref id } if id == "c1"));
    app.apply(Outcome::ChangeDecided { ok: false });
    assert_eq!(app.changes.changes.len(), 1);
}

#[test]
fn search_runs_and_clears() {
    let mut app = test_app();
    press(&mut app, key('s'));
    assert_eq!(app.view, View::Search);
    type_text(&mut app, "jq");
    assert!(app.running);
    assert!(matches!(press(&mut app, Key::new(KeyCode::Enter)), Command::Search { ref query } if query == "jq"));
    assert!(app.search.searching);
    app.apply(Outcome::SearchFinished(None));
    assert!(!app.search.searching);
    assert!(app.search.searched);
    press(&mut app, Key::new(KeyCode::Esc));
    assert_eq!(app.search.query, "");
    assert!(!app.search.searched);
    press(&mut app, Key::new(KeyCode::Esc));
    assert_eq!(app.view, View::Dashboard);
}

#[test]
fn skills_run_output() {
    let mut app = test_app();
    assert!(matches!(press(&mut app, key('K')), Command::LoadSkills));
    app.apply(Outcome::SkillsLoaded(None));
    assert!(app.skills.loaded);
    assert!(matches!(press(&mut app, Key::new(KeyCode::Enter)), Command::Nothing));
    app.apply(Outcome::SkillRan(Ok(None)));
    assert_eq!(app.skills.run_output.as_deref(), Some("No output"));
    app.apply(Outcome::SkillRan(Err("bad".into())));
    assert_eq!(app.skills.run_output.as_deref(), Some("Error: bad"));
    press(&mut app, Key::new(KeyCode::Esc));
    assert!(app.skills.run_output.is_none());
}

#[test]
fn identity_interview_flow() {
    let mut app = test_app();
    assert!(matches!(press(&mut app, key('i')), Command::LoadIdentity));
    assert_eq!(app.view, View::Identity);
    app.apply(Outcome::IdentityLoaded(Ok(Some(IdentityDocument { content: String::new(), complete: false }))));
    assert!(matches!(app.identity_mode, IdentityMode::Onboarding { step: 0, .. }));
    for i in 0..7 {
        type_text(&mut app, &format!("a{i}"));
        let cmd = press(&mut app, Key::new(KeyCode::Enter));
        if i < 6 {
            assert!(matches!(cmd, Command::Nothing));
        } else {
            match cmd {
                Command::GenerateIdentity { answers } => {
                    assert_eq!(answers.len(), 7);
                    assert_eq!(answers[0], "a0");
                    assert_eq!(answers[6], "a6");
                }
                other => panic!("unexpected {:?}", other),
            }
        }
    }
    app.apply(Outcome::IdentityGenerated(Ok(Some("# Me".into()))));
    assert!(matches!(app.identity_mode, IdentityMode::Review { ref generated, .. } if generated == "# Me"));
    assert!(matches!(press(&mut app, key('r')), Command::GenerateIdentity { .. }));
    assert!(matches!(press(&mut app, Key::new(KeyCode::Enter)), Command::SaveIdentity { ref content } if content == "# Me"));
    assert!(matches!(app.identity_mode, IdentityMode::View { complete: true, .. }));
    press(&mut app, Key::new(KeyCode::Esc));
    assert_eq!(app.view, View::Dashboard);
}

#[test]
fn identity_view_keys() {
    let mut mode = IdentityMode::View { content: "doc".into(), complete: true };
    assert_eq!(handle_key(&mut mode, &key('r')), IdentityAction::StartOnboarding);
    assert_eq!(handle_key(&mut mode, &key('x')), IdentityAction::Nothing);
    let mut onboarding = IdentityMode::start_onboarding();
    handle_key(&mut onboarding, &key('a'));
    handle_key(&mut onboarding, &Key::new(KeyCode::Enter));
    handle_key(&mut onboarding, &Key::new(KeyCode::Left));
    match onboarding {
        IdentityMode::Onboarding { step, current_input, .. } => {
            assert_eq!(step, 0);
            assert_eq!(current_input, "a");
        }
        other => panic!("unexpected {:?}", other),
    }
}

#[test]
fn identity_document_decides_mode() {
    let mut app = test_app();
    app.apply(Outcome::IdentityLoaded(Ok(None)));
    assert!(matches!(app.identity_mode, IdentityMode::Onboarding { .. }));
    app.apply(Outcome::IdentityLoaded(Ok(Some(IdentityDocument { content: "x".into(), complete: false }))));
    assert!(matches!(app.identity_mode, IdentityMode::View { ref content, complete: false } if content == "x"));
    app.apply(Outcome::IdentityLoaded(Err("down".into())));
    assert!(matches!(app.identity_mode, IdentityMode::View { .. }));
}

#[test]
fn clients_flow() {
    let mut app = test_app();
    assert!(matches!(press(&mut app, key('C')), Command::LoadClients));
    assert_eq!(app.view, View::Clients);
    app.apply(Outcome::ClientsLoaded(None));
    assert!(app.clients.loaded);
    assert!(matches!(press(&mut app, Key::new(KeyCode::Enter)), Command::Nothing));
    assert!(matches!(press(&mut app, key('q')), Command::Nothing));
    assert!(!app.running);
}

#[test]
fn activity_tags_and_pending_labels() {
    assert_eq!(activity_tag("github"), "[gh]");
    assert_eq!(activity_tag("email"), "[em]");
    assert_eq!(activity_tag("calendar"), "[cal]");
    assert_eq!(activity_tag("meeting"), "[mtg]");
    assert_eq!(activity_tag("slack"), "[os]");
    assert_eq!(pending_label(1), "1 write-back awaiting review");
    assert_eq!(pending_label(0), "0 write-backs awaiting review");
    assert_eq!(pending_label(12), "12 write-backs awaiting review");
}

#[test]
fn tab_twice_returns_to_section() {
    let mut app = test_app();
    press(&mut app, key('l'));
    app.apply(Outcome::StatusLoaded(None));
    press(&mut app, Key::new(KeyCode::Tab));
    press(&mut app, Key::new(KeyCode::Tab));
    let sd = app.status_data.as_ref().unwrap();
    assert_eq!(sd.selected_section, StatusSection::Tasks);
    assert_eq!(sd.selected_index, 0);
}

#[test]
fn request_chains_end() {
    let mut app = App::new(ApiClient::new("http://localhost", ""), Some("p".into()));
    let mut cmd = Command::LoadUserName;
    let mut steps = 0;
    while !matches!(cmd, Command::Nothing) {
        let outcome = match cmd {
            Command::LoadUserName => Outcome::UserNameLoaded(Some("Ann".into())),
            Command::LoadDashboard => Outcome::DashboardLoaded(Ok(DashboardData::default())),
            Command::RefreshProject { .. } => Outcome::ProjectRefreshed(None),
            other => panic!("unexpected {:?}", other),
        };
        cmd = app.apply(outcome);
        steps += 1;
    }
    assert_eq!(steps, 3);
    assert_eq!(app.user_name, "Ann");
    assert!(matches!(app.apply(Outcome::FilePushed { project_slug: "p".into(), ok: false }), Command::Nothing));
    assert!(matches!(app.apply(Outcome::FilePushed { project_slug: "p".into(), ok: true }), Command::RefreshProject { .. }));
    assert!(matches!(app.apply(Outcome::LeadChanged { lead_id: "L".into() }), Command::ReloadLead { ref id } if id == "L"));
    assert!(matches!(app.apply(Outcome::LeadReloaded(None)), Command::Nothing));
    assert!(matches!(app.apply(Outcome::Done), Command::Nothing));
}

#[test]
fn typing_more_of_the_filter_narrows_the_list() {
    let mut state = PipelineState::default();
    state.leads = vec![lead("1", "Acme Corp"), lead("2", "Brownells"), lead("3", "ACME labs"), lead("4", "Macro")];
    let ids = |s: &PipelineState| s.filtered_leads().iter().map(|l| l.id.clone()).collect::<Vec<_>>();
    state.filter = Some("ac".to_string());
    let wide = ids(&state);
    assert_eq!(wide, vec!["1", "3", "4"]);
    state.filter = Some("aCm".to_string());
    let narrow = ids(&state);
    assert_eq!(narrow, vec!["1", "3"]);
    assert!(narrow.iter().all(|id| wide.contains(id)));
    state.filter = Some(String::new());
    assert_eq!(ids(&state).len(), 4);
}

#[test]
fn project_view_lists_open_decisions_and_marks_the_manager() {
    let d = |id: &str, status: &str| DecisionEntry {
        id: id.to_string(),
        title: format!("decision {id}"),
        status: status.to_string(),
        resolution: None,
    };
    let ds = vec![d("1", "open"), d("2", "resolved"), d("3", "open"), d("4", "Open")];
    let ids: Vec<&str> = open_decisions(&ds).iter().map(|d| d.id.as_str()).collect();
    assert_eq!(ids, vec!["1", "3"]);
    assert!(open_decisions(&vec![]).is_empty());

    let m = |role: &str| TeamMember {
        user_id: "u".to_string(),
        name: "N".to_string(),
        email: "e".to_string(),
        role: role.to_string(),
    };
    assert!(is_manager(&m("manager")));
    assert!(!is_manager(&m("member")));
    assert!(!is_manager(&m("Manager")));
}
