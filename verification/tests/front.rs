use git_flow::cli::{exit_code_after, route, Command, Route};
use git_flow::console::ConsoleLog;
use git_flow::flow::{FlowAction, FlowKind};
use git_flow::gui::{
    close_request_response, command_plan, console_after_flow, gui_update, CloseResponse, FrontEnd, GuiCommand,
    GuiEvent, UiState,
};
use git_flow::plans::{feature_finish, release_start};
use git_flow::names::validate_name;
use git_flow::select::{path_argument, RepoSelection, SelectAction, SelectEvent};

fn s(x: &str) -> String {
    x.to_string()
}

fn ui() -> UiState {
    UiState {
        show_start_dialog: true,
        show_finish_dialog: false,
        show_console_dialog: false,
        console_finished: true,
        show_develop_dialog: false,
        not_a_repository: false,
        dirty: false,
        item: 3,
        create_err: String::new(),
        console_text: String::new(),
        repository: String::new(),
    }
}

#[test]
fn names_accepted_and_refused() {
    assert!(validate_name(s("login")));
    assert!(validate_name(s("Fix_42-b")));
    assert!(validate_name(s("-")));
    assert!(!validate_name(s("")));
    assert!(!validate_name(s("a/b")));
    assert!(!validate_name(s("with space")));
    assert!(!validate_name(s("tail\n")));
    assert!(!validate_name(s("1.0")));
    assert!(!validate_name(s("caf\u{e9}")));
}

#[test]
fn console_joins_lines() {
    let mut log = ConsoleLog::new();
    assert_eq!(log.text(), "");
    log.push(s("one"));
    assert_eq!(log.text(), "one");
    log.push(s("two"));
    log.push(s(""));
    log.push(s("three"));
    assert_eq!(log.len(), 4);
    assert_eq!(log.text(), "one\ntwo\n\nthree");
}

#[test]
fn start_refused_when_name_exists() {
    let mut u = ui();
    let before = u.clone();
    assert_eq!(gui_update(&mut u, GuiEvent::StartChecked(true, 0)), GuiCommand::Nothing);
    assert_eq!(u, UiState { create_err: s("Already exists"), ..before });
}

#[test]
fn start_opens_console() {
    let mut u = ui();
    assert_eq!(gui_update(&mut u, GuiEvent::StartChecked(false, 1)), GuiCommand::StartCreation(1));
    assert!(!u.show_start_dialog && u.show_console_dialog && !u.console_finished);
    assert_eq!(close_request_response(Some(&u)), CloseResponse::KeepWindowShown);
    assert_eq!(gui_update(&mut u, GuiEvent::ConsoleText(s("a\nb"))), GuiCommand::Nothing);
    assert_eq!(u.console_text, "a\nb");
    assert_eq!(gui_update(&mut u, GuiEvent::FlowProcessEnded(1)), GuiCommand::RefreshItems(1));
    assert!(u.console_finished);
    assert_eq!(u.item, -1);
    assert_eq!(close_request_response(Some(&u)), CloseResponse::HideWindow);
}

#[test]
fn older_front_end_leaves_finished_flag() {
    let mut u = ui();
    assert_eq!(gui_update(&mut u, GuiEvent::NameChecked(false, 2)), GuiCommand::StartCreation(2));
    assert!(u.console_finished);
    assert!(u.show_console_dialog && !u.show_start_dialog);
}

#[test]
fn older_front_end_keeps_selection_when_done() {
    let mut u = ui();
    u.console_finished = false;
    assert_eq!(gui_update(&mut u, GuiEvent::ProcessEndedKeepSelection(3)), GuiCommand::RefreshItems(3));
    assert!(u.console_finished);
    assert_eq!(u.item, 3);
}

#[test]
fn finish_and_develop_events() {
    let mut u = ui();
    u.show_finish_dialog = true;
    assert_eq!(gui_update(&mut u, GuiEvent::FinishRequested(0)), GuiCommand::StartFinish(0));
    assert!(!u.show_finish_dialog && u.show_console_dialog && !u.console_finished);
    let mut d = ui();
    assert_eq!(gui_update(&mut d, GuiEvent::RepositoryLoaded { dirty: true, develop_exists: false }), GuiCommand::Nothing);
    assert!(d.dirty && d.show_develop_dialog);
    assert_eq!(gui_update(&mut d, GuiEvent::DevelopSetupRequested), GuiCommand::StartDevelopSetup);
    assert!(d.show_console_dialog && !d.console_finished);
    assert_eq!(gui_update(&mut d, GuiEvent::DevelopSetupEnded), GuiCommand::Nothing);
    assert!(d.console_finished && !d.show_develop_dialog);
    assert_eq!(gui_update(&mut d, GuiEvent::RepositoryMissing), GuiCommand::Nothing);
    assert!(d.not_a_repository);
}

#[test]
fn close_without_window_hides() {
    assert_eq!(close_request_response(None), CloseResponse::HideWindow);
}

fn act(sel: &mut RepoSelection, e: SelectEvent) -> SelectAction {
    sel.next(e).action
}

#[test]
fn selection_from_dialog_retries_until_repository() {
    let mut sel = RepoSelection::new(FrontEnd::Current, None);
    assert_eq!(act(&mut sel, SelectEvent::Started), SelectAction::ShowDialog);
    assert_eq!(act(&mut sel, SelectEvent::DialogClosed(Some(s("")))), SelectAction::ShowDialog);
    let step = sel.next(SelectEvent::DialogClosed(Some(s("/tmp"))));
    assert_eq!(step.action, SelectAction::Verify(s("/tmp")));
    assert_eq!(step.label, Some(s("/tmp")));
    assert!(step.errors.is_empty());
    let step = sel.next(SelectEvent::Verified(false));
    assert_eq!(step.action, SelectAction::ShowDialog);
    assert_eq!(step.errors, vec![s("Folder is not a repository")]);
    assert_eq!(act(&mut sel, SelectEvent::DialogClosed(Some(s("/repo")))), SelectAction::Verify(s("/repo")));
    assert!(!sel.is_done());
    assert_eq!(act(&mut sel, SelectEvent::Verified(true)), SelectAction::Adopt(s("/repo")));
    assert!(!sel.is_done());
    assert_eq!(act(&mut sel, SelectEvent::Proceed), SelectAction::Fetch);
    assert_eq!(act(&mut sel, SelectEvent::Proceed), SelectAction::Inspect);
    assert!(sel.is_done());
    assert_eq!(act(&mut sel, SelectEvent::Verified(true)), SelectAction::Idle);
}

#[test]
fn selection_cancelled_exits() {
    let mut sel = RepoSelection::new(FrontEnd::Current, None);
    sel.next(SelectEvent::Started);
    let step = sel.next(SelectEvent::DialogClosed(None));
    assert_eq!(step.action, SelectAction::Exit(1));
    assert_eq!(step.errors, vec![s("No folder selected")]);
    let mut legacy = RepoSelection::new(FrontEnd::Legacy, None);
    legacy.next(SelectEvent::Started);
    let step = legacy.next(SelectEvent::DialogClosed(Some(s(""))));
    assert_eq!(step.action, SelectAction::Verify(s("")));
    assert_eq!(step.label, None);
    assert_eq!(legacy.next(SelectEvent::Verified(false)).action, SelectAction::ShowDialog);
    let step = legacy.next(SelectEvent::DialogClosed(None));
    assert_eq!(step.action, SelectAction::Exit(1));
    assert_eq!(step.errors, vec![s("No git repository selected")]);
}

#[test]
fn named_folder_that_is_not_a_repository() {
    let mut sel = RepoSelection::new(FrontEnd::Current, Some(s("/x")));
    let step = sel.next(SelectEvent::Started);
    assert_eq!(step.action, SelectAction::Verify(s("/x")));
    assert_eq!(step.label, Some(s("/x")));
    let step = sel.next(SelectEvent::Verified(false));
    assert_eq!(step.action, SelectAction::GiveUp);
    assert_eq!(step.errors, vec![s("Folder is not a repository /x")]);
    let mut legacy = RepoSelection::new(FrontEnd::Legacy, Some(s("/x")));
    assert_eq!(act(&mut legacy, SelectEvent::Started), SelectAction::Verify(s("/x")));
    let step = legacy.next(SelectEvent::Verified(false));
    assert_eq!(step.action, SelectAction::Exit(1));
    assert_eq!(step.errors, vec![s("Folder is not a repository /x"), s("No git repository selected")]);
}

#[test]
fn legacy_adoption_ends_the_choice() {
    let mut legacy = RepoSelection::new(FrontEnd::Legacy, Some(s("/r")));
    legacy.next(SelectEvent::Started);
    assert_eq!(act(&mut legacy, SelectEvent::Verified(true)), SelectAction::Adopt(s("/r")));
    assert!(legacy.is_done());
    assert_eq!(act(&mut legacy, SelectEvent::Proceed), SelectAction::Idle);
}

#[test]
fn out_of_order_events_are_ignored() {
    let mut sel = RepoSelection::new(FrontEnd::Current, None);
    assert_eq!(act(&mut sel, SelectEvent::Verified(true)), SelectAction::Idle);
    assert_eq!(act(&mut sel, SelectEvent::Proceed), SelectAction::Idle);
    assert_eq!(act(&mut sel, SelectEvent::Started), SelectAction::ShowDialog);
}

#[test]
fn folder_label_shown() {
    let mut u = ui();
    assert_eq!(gui_update(&mut u, GuiEvent::FolderChosen(s("/w/repo"))), GuiCommand::Nothing);
    assert_eq!(u.repository, "/w/repo");
}

#[test]
fn plans_of_window_commands() {
    assert_eq!(command_plan(GuiCommand::StartCreation(1), "r", "main"), Some(release_start("r")));
    assert_eq!(command_plan(GuiCommand::StartFinish(0), "f", "main"), Some(feature_finish("f")));
    assert_eq!(command_plan(GuiCommand::StartFinish(7), "f", "main"), None);
    assert_eq!(command_plan(GuiCommand::RefreshItems(0), "f", "main"), None);
    assert_eq!(command_plan(GuiCommand::StartCreation(2), "b", "main"), None);
}

#[test]
fn console_at_end_of_failed_flow() {
    let mut log = ConsoleLog::new();
    log.push(s("Starting creation of feature x..."));
    console_after_flow(&mut log, &Err(s("Branch exists")), FrontEnd::Legacy);
    assert_eq!(log.text(), "Starting creation of feature x...\nBranch exists");
    let mut log = ConsoleLog::new();
    log.push(s("a"));
    console_after_flow(&mut log, &Err(s("e")), FrontEnd::Current);
    assert_eq!(log.text(), "a");
    console_after_flow(&mut log, &Ok(()), FrontEnd::Legacy);
    assert_eq!(log.text(), "a");
}

#[test]
fn path_argument_of_window() {
    assert_eq!(path_argument(&vec![s("prog")]), None);
    assert_eq!(path_argument(&vec![s("prog"), s("/r"), s("x")]), Some(s("/r")));
}

#[test]
fn routes() {
    assert_eq!(
        route(Command::Feature { name: s("a"), action: FlowAction::Start }),
        Route::Flow { kind: FlowKind::Feature, action: FlowAction::Start, name: s("a") }
    );
    assert_eq!(
        route(Command::Release { name: s("1"), action: FlowAction::Finish }),
        Route::Flow { kind: FlowKind::Release, action: FlowAction::Finish, name: s("1") }
    );
    assert_eq!(
        route(Command::Hotfix { name: s("h"), action: FlowAction::Start }),
        Route::Flow { kind: FlowKind::Hotfix, action: FlowAction::Start, name: s("h") }
    );
    assert_eq!(
        route(Command::Bugfix { name: s("b"), action: FlowAction::Finish }),
        Route::Flow { kind: FlowKind::Bugfix, action: FlowAction::Finish, name: s("b") }
    );
    assert_eq!(route(Command::Gui { path: Some(s("/p")) }), Route::Gui { path: Some(s("/p")) });
    assert_eq!(route(Command::Gui { path: None }), Route::Gui { path: None });
}

#[test]
fn exit_codes() {
    assert_eq!(exit_code_after(&Ok(())), None);
    assert_eq!(exit_code_after(&Err(s("x"))), Some(1));
}

#[test]
fn categories_outside_range_start_nothing() {
    let mut u = ui();
    let before = u.clone();
    assert_eq!(gui_update(&mut u, GuiEvent::StartChecked(false, 7)), GuiCommand::Nothing);
    assert_eq!(gui_update(&mut u, GuiEvent::NameChecked(true, -1)), GuiCommand::Nothing);
    assert_eq!(u, before);
    assert_eq!(gui_update(&mut u, GuiEvent::FinishRequested(4)), GuiCommand::Nothing);
    assert!(u.show_console_dialog && u.console_finished);
    assert_eq!(u.item, -1);
    assert_eq!(close_request_response(Some(&u)), CloseResponse::HideWindow);
    assert_eq!(gui_update(&mut u, GuiEvent::FlowProcessEnded(9)), GuiCommand::Nothing);
    assert_eq!(gui_update(&mut u, GuiEvent::ProcessEndedKeepSelection(9)), GuiCommand::Nothing);
}

#[test]
fn stand_alone_dirty_check_sets_only_dirty() {
    let mut u = ui();
    let before = u.clone();
    assert_eq!(gui_update(&mut u, GuiEvent::DirtyChecked(true)), GuiCommand::Nothing);
    assert_eq!(u, UiState { dirty: true, ..before });
}

#[test]
fn console_text_grows_at_the_end() {
    let mut log = ConsoleLog::new();
    log.push(s("a"));
    let earlier = log.text();
    log.push(s("bc"));
    assert!(log.text().starts_with(&earlier));
    assert!(log.text().ends_with("bc"));
}
