use vstd::prelude::*;

use crate::console::ConsoleLog;
use crate::flow::{flow_kind_from_category, is_valid_category, kind_of_category_spec, valid_category, FlowAction};
use crate::plans::{flow_plan, flow_plan_spec, FlowPlan, FlowPlanView};

verus! {

/// The two front ends of the program differ in small ways.
#[derive(Debug, Clone, Copy, PartialEq, Eq, Structural)]
pub enum FrontEnd {
    /// The window of the command-line program.
    Current,
    /// The stand-alone window.
    Legacy,
}

/// The state of the window that the decisions of the front end read and
/// change.
#[derive(Debug, Clone, PartialEq, Eq)]
pub struct UiState {
    pub show_start_dialog: bool,
    pub show_finish_dialog: bool,
    pub show_console_dialog: bool,
    pub console_finished: bool,
    pub show_develop_dialog: bool,
    pub not_a_repository: bool,
    pub dirty: bool,
    /// The selected entry of the list of branches; -1 selects none.
    pub item: i32,
    /// The error shown in the dialog that starts a flow.
    pub create_err: String,
    /// The text of the console.
    pub console_text: String,
    /// The folder shown as the repository.
    pub repository: String,
}

/// The mathematical value of a [`UiState`].
pub struct UiStateView {
    pub show_start_dialog: bool,
    pub show_finish_dialog: bool,
    pub show_console_dialog: bool,
    pub console_finished: bool,
    pub show_develop_dialog: bool,
    pub not_a_repository: bool,
    pub dirty: bool,
    pub item: int,
    pub create_err: Seq<char>,
    pub console_text: Seq<char>,
    pub repository: Seq<char>,
}

impl View for UiState {
    type V = UiStateView;

    open spec fn view(&self) -> UiStateView {
        UiStateView {
            show_start_dialog: self.show_start_dialog,
            show_finish_dialog: self.show_finish_dialog,
            show_console_dialog: self.show_console_dialog,
            console_finished: self.console_finished,
            show_develop_dialog: self.show_develop_dialog,
            not_a_repository: self.not_a_repository,
            dirty: self.dirty,
            item: self.item as int,
            create_err: self.create_err@,
            console_text: self.console_text@,
            repository: self.repository@,
        }
    }
}

/// What happened in the front end. The category is the index of the kind
/// of flow the window shows (see [`flow_kind_from_category`]).
#[derive(Debug, Clone, PartialEq, Eq)]
pub enum GuiEvent {
    /// The name asked for a new flow of the category was looked up among
    /// the local and remote branches; `true` if it was found.
    StartChecked(bool, i32),
    /// The same, from the older front end, which leaves the console's
    /// finished flag alone.
    NameChecked(bool, i32),
    /// The user asked to finish the selected flow of the category.
    FinishRequested(i32),
    /// The console received new text.
    ConsoleText(String),
    /// The process that started or finished a flow of the category is over.
    FlowProcessEnded(i32),
    /// The same, from the older front end, which keeps the selection.
    ProcessEndedKeepSelection(i32),
    /// The user asked to set up the `develop` branch.
    DevelopSetupRequested,
    /// The set-up of `develop` is over.
    DevelopSetupEnded,
    /// A folder was chosen or named as the repository, and is shown before
    /// it is checked.
    FolderChosen(String),
    /// A repository was adopted, fetched and inspected: whether it has
    /// uncommitted changes and whether a `develop` branch exists locally or
    /// remotely.
    RepositoryLoaded { dirty: bool, develop_exists: bool },
    /// No repository could be selected.
    RepositoryMissing,
    /// The stand-alone window read whether the repository has uncommitted
    /// changes.
    DirtyChecked(bool),
}

/// The mathematical value of a [`GuiEvent`].
pub enum GuiEventView {
    StartChecked(bool, int),
    NameChecked(bool, int),
    FinishRequested(int),
    ConsoleText(Seq<char>),
    FlowProcessEnded(int),
    ProcessEndedKeepSelection(int),
    DevelopSetupRequested,
    DevelopSetupEnded,
    FolderChosen(Seq<char>),
    RepositoryLoaded { dirty: bool, develop_exists: bool },
    RepositoryMissing,
    DirtyChecked(bool),
}

impl View for GuiEvent {
    type V = GuiEventView;

    open spec fn view(&self) -> GuiEventView {
        match self {
            GuiEvent::StartChecked(f, c) => GuiEventView::StartChecked(*f, *c as int),
            GuiEvent::NameChecked(f, c) => GuiEventView::NameChecked(*f, *c as int),
            GuiEvent::FinishRequested(c) => GuiEventView::FinishRequested(*c as int),
            GuiEvent::ConsoleText(t) => GuiEventView::ConsoleText(t@),
            GuiEvent::FlowProcessEnded(c) => GuiEventView::FlowProcessEnded(*c as int),
            GuiEvent::ProcessEndedKeepSelection(c) => GuiEventView::ProcessEndedKeepSelection(*c as int),
            GuiEvent::DevelopSetupRequested => GuiEventView::DevelopSetupRequested,
            GuiEvent::DevelopSetupEnded => GuiEventView::DevelopSetupEnded,
            GuiEvent::FolderChosen(f) => GuiEventView::FolderChosen(f@),
            GuiEvent::RepositoryLoaded { dirty, develop_exists } =>
                GuiEventView::RepositoryLoaded { dirty: *dirty, develop_exists: *develop_exists },
            GuiEvent::RepositoryMissing => GuiEventView::RepositoryMissing,
            GuiEvent::DirtyChecked(d) => GuiEventView::DirtyChecked(*d),
        }
    }
}

/// The work the front end must start after an event.
#[derive(Debug, Clone, Copy, PartialEq, Eq, Structural)]
pub enum GuiCommand {
    Nothing,
    /// Run the start of a flow of the category in the background.
    StartCreation(i32),
    /// Run the finish of a flow of the category in the background.
    StartFinish(i32),
    /// Reload the list of branches of the category.
    RefreshItems(i32),
    /// Run the set-up of `develop` in the background.
    StartDevelopSetup,
}

/// The error shown when a flow to start already exists.
pub open spec fn already_exists_spec() -> Seq<char> {
    "Already exists"@
}

/// How the window changes on an event, and the work to start. A flow
/// whose name already exists is refused with an error in the start
/// dialog; otherwise the start dialog gives way to the console and the
/// creation of a flow of that category starts. Finishing a flow and
/// setting up `develop` open the console likewise. When the background
/// work is over, the console is marked finished; after a flow, the
/// selection is cleared and the list of branches of the flow's category is
/// reloaded; after the set-up, the dialog that offers it closes. A chosen
/// folder becomes the repository shown. A loaded repository sets the dirty
/// flag and offers the set-up of `develop` exactly when no `develop`
/// branch exists; the stand-alone window only sets the dirty flag.
///
/// A category outside 0 to 3 names no flow, and the work of the window
/// stops there: checking a name for it changes nothing and starts
/// nothing; asking to finish a flow of it opens the console, which ends at
/// once as finished with the selection cleared, and nothing is run or
/// reloaded; and the end of a flow of it reloads nothing.
pub open spec fn gui_step(ui: UiStateView, event: GuiEventView) -> (UiStateView, GuiCommand) {
    match event {
        GuiEventView::StartChecked(found, c) => if !valid_category(c) {
            (ui, GuiCommand::Nothing)
        } else if found {
            (UiStateView { create_err: already_exists_spec(), ..ui }, GuiCommand::Nothing)
        } else {
            (UiStateView { show_start_dialog: false, show_console_dialog: true, console_finished: false, ..ui },
             GuiCommand::StartCreation(c as i32))
        },
        GuiEventView::NameChecked(found, c) => if !valid_category(c) {
            (ui, GuiCommand::Nothing)
        } else if found {
            (UiStateView { create_err: already_exists_spec(), ..ui }, GuiCommand::Nothing)
        } else {
            (UiStateView { show_start_dialog: false, show_console_dialog: true, ..ui }, GuiCommand::StartCreation(c as i32))
        },
        GuiEventView::FinishRequested(c) => if valid_category(c) {
            (UiStateView { show_finish_dialog: false, show_console_dialog: true, console_finished: false, ..ui },
             GuiCommand::StartFinish(c as i32))
        } else {
            (UiStateView { show_finish_dialog: false, show_console_dialog: true, console_finished: true, item: -1, ..ui },
             GuiCommand::Nothing)
        },
        GuiEventView::ConsoleText(t) => (UiStateView { console_text: t, ..ui }, GuiCommand::Nothing),
        GuiEventView::FlowProcessEnded(c) =>
            (UiStateView { console_finished: true, item: -1, ..ui },
             if valid_category(c) { GuiCommand::RefreshItems(c as i32) } else { GuiCommand::Nothing }),
        GuiEventView::ProcessEndedKeepSelection(c) =>
            (UiStateView { console_finished: true, ..ui },
             if valid_category(c) { GuiCommand::RefreshItems(c as i32) } else { GuiCommand::Nothing }),
        GuiEventView::DevelopSetupRequested =>
            (UiStateView { show_console_dialog: true, console_finished: false, ..ui }, GuiCommand::StartDevelopSetup),
        GuiEventView::DevelopSetupEnded =>
            (UiStateView { console_finished: true, show_develop_dialog: false, ..ui }, GuiCommand::Nothing),
        GuiEventView::FolderChosen(f) => (UiStateView { repository: f, ..ui }, GuiCommand::Nothing),
        GuiEventView::RepositoryLoaded { dirty, develop_exists } =>
            (UiStateView { dirty, show_develop_dialog: !develop_exists, ..ui }, GuiCommand::Nothing),
        GuiEventView::RepositoryMissing =>
            (UiStateView { not_a_repository: true, ..ui }, GuiCommand::Nothing),
        GuiEventView::DirtyChecked(dirty) => (UiStateView { dirty, ..ui }, GuiCommand::Nothing),
    }
}

/// Applies an event to the window and returns the work to start.
pub fn gui_update(ui: &mut UiState, event: GuiEvent) -> (command: GuiCommand)
    ensures
        (final(ui)@, command) == gui_step(old(ui)@, event@),
{
    match event {
        GuiEvent::StartChecked(found, c) => {
            if !is_valid_category(c) {
                GuiCommand::Nothing
            } else if found {
                ui.create_err = String::from_str("Already exists");
                GuiCommand::Nothing
            } else {
                ui.show_start_dialog = false;
                ui.show_console_dialog = true;
                ui.console_finished = false;
                GuiCommand::StartCreation(c)
            }
        },
        GuiEvent::NameChecked(found, c) => {
            if !is_valid_category(c) {
                GuiCommand::Nothing
            } else if found {
                ui.create_err = String::from_str("Already exists");
                GuiCommand::Nothing
            } else {
                ui.show_start_dialog = false;
                ui.show_console_dialog = true;
                GuiCommand::StartCreation(c)
            }
        },
        GuiEvent::FinishRequested(c) => {
            ui.show_finish_dialog = false;
            ui.show_console_dialog = true;
            if is_valid_category(c) {
                ui.console_finished = false;
                GuiCommand::StartFinish(c)
            } else {
                ui.console_finished = true;
                ui.item = -1;
                GuiCommand::Nothing
            }
        },
        GuiEvent::ConsoleText(text) => {
            ui.console_text = text;
            GuiCommand::Nothing
        },
        GuiEvent::FlowProcessEnded(c) => {
            ui.console_finished = true;
            ui.item = -1;
            if is_valid_category(c) { GuiCommand::RefreshItems(c) } else { GuiCommand::Nothing }
        },
        GuiEvent::ProcessEndedKeepSelection(c) => {
            ui.console_finished = true;
            if is_valid_category(c) { GuiCommand::RefreshItems(c) } else { GuiCommand::Nothing }
        },
        GuiEvent::DevelopSetupRequested => {
            ui.show_console_dialog = true;
            ui.console_finished = false;
            GuiCommand::StartDevelopSetup
        },
        GuiEvent::DevelopSetupEnded => {
            ui.console_finished = true;
            ui.show_develop_dialog = false;
            GuiCommand::Nothing
        },
        GuiEvent::FolderChosen(folder) => {
            ui.repository = folder;
            GuiCommand::Nothing
        },
        GuiEvent::RepositoryLoaded { dirty, develop_exists } => {
            ui.dirty = dirty;
            ui.show_develop_dialog = !develop_exists;
            GuiCommand::Nothing
        },
        GuiEvent::RepositoryMissing => {
            ui.not_a_repository = true;
            GuiCommand::Nothing
        },
        GuiEvent::DirtyChecked(dirty) => {
            ui.dirty = dirty;
            GuiCommand::Nothing
        },
    }
}

/// The flow that a command of the window runs, if any: the start or the
/// finish of the flow of the command's category, with the given name
/// (`main` is the main branch, used when a release is finished).
pub open spec fn command_plan_spec(command: GuiCommand, name: Seq<char>, main: Seq<char>) -> Option<FlowPlanView> {
    match command {
        GuiCommand::StartCreation(c) => match kind_of_category_spec(c as int) {
            Some(k) => flow_plan_spec(k, FlowAction::Start, name, main),
            None => None,
        },
        GuiCommand::StartFinish(c) => match kind_of_category_spec(c as int) {
            Some(k) => flow_plan_spec(k, FlowAction::Finish, name, main),
            None => None,
        },
        _ => None,
    }
}

/// The plan of the one flow that a command of the window runs: the start
/// flow of its category for [`GuiCommand::StartCreation`], the finish flow
/// for [`GuiCommand::StartFinish`], and none for the other commands, for
/// categories outside 0 to 3, and for the kinds without a pipeline here.
pub fn command_plan(command: GuiCommand, name: &str, main_branch: &str) -> (plan: Option<FlowPlan>)
    ensures
        match plan {
            Some(p) => command_plan_spec(command, name@, main_branch@) == Some(p@),
            None => command_plan_spec(command, name@, main_branch@) is None,
        },
{
    let (category, action) = match command {
        GuiCommand::StartCreation(c) => (c, FlowAction::Start),
        GuiCommand::StartFinish(c) => (c, FlowAction::Finish),
        _ => {
            return None;
        },
    };
    if !is_valid_category(category) {
        return None;
    }
    let kind = flow_kind_from_category(category);
    let plan = flow_plan(kind, action, name, main_branch);
    proof {
        if plan is None {
            assert(flow_plan_spec(kind, action, name@, main_branch@) is None);
        }
    }
    plan
}

/// The console at the end of a flow run from the window, given the flow's
/// result. The stand-alone window adds the error of a failed flow as a
/// last line. The current window hands that line to its channel without
/// awaiting the send, so it never reaches the console there, and the
/// console stays as it was.
pub fn console_after_flow(log: &mut ConsoleLog, result: &Result<(), String>, front_end: FrontEnd)
    ensures
        final(log)@ == match (result, front_end) {
            (Err(e), FrontEnd::Legacy) => old(log)@.push(e@),
            _ => old(log)@,
        },
{
    if let Err(e) = result {
        if front_end == FrontEnd::Legacy {
            log.push(e.clone());
        }
    }
}

/// What to do when the user asks to close the window.
#[derive(Debug, Clone, Copy, PartialEq, Eq, Structural)]
pub enum CloseResponse {
    KeepWindowShown,
    HideWindow,
}

/// Whether closing is refused: only while the console shows work that is
/// not over yet.
pub open spec fn keeps_window(ui: Option<UiStateView>) -> bool {
    ui matches Some(u) && u.show_console_dialog && !u.console_finished
}

/// The answer to a request to close the window, given its state (`None`
/// when the window is already gone): the window stays while the console
/// shows unfinished work, and hides otherwise.
pub fn close_request_response(ui: Option<&UiState>) -> (response: CloseResponse)
    ensures
        (response == CloseResponse::KeepWindowShown) == keeps_window(
            match ui { Some(u) => Some(u@), None => None },
        ),
{
    if let Some(u) = ui {
        if u.show_console_dialog && !u.console_finished {
            return CloseResponse::KeepWindowShown;
        }
    }
    CloseResponse::HideWindow
}

/// Work in the background cannot be cut short by closing the window: from
/// the moment a flow or the set-up of `develop` starts until it is over,
/// the window stays; once it is over, the window may close.
pub proof fn law_close_waits_for_background_work(ui: UiStateView, event: GuiEventView)
    ensures
        ({
            let (after, command) = gui_step(ui, event);
            &&& (command is StartCreation && event !is NameChecked
                || command is StartFinish
                || command is StartDevelopSetup) ==> keeps_window(Some(after))
            &&& (event is FlowProcessEnded || event is ProcessEndedKeepSelection || event is DevelopSetupEnded)
                ==> !keeps_window(Some(after))
        }),
{
}

/// A flow is started only when its name was not found: an existing name
/// leaves everything but the error of the start dialog as it was, and
/// starts nothing; a new name starts the creation of a flow of the
/// category that was asked for.
pub proof fn law_existing_name_is_refused(ui: UiStateView, found: bool, c: i32)
    requires
        valid_category(c as int),
    ensures
        ({
            let (after, command) = gui_step(ui, GuiEventView::StartChecked(found, c as int));
            &&& found ==> command == GuiCommand::Nothing
            &&& !found ==> command == GuiCommand::StartCreation(c)
            &&& found ==> after == UiStateView { create_err: already_exists_spec(), ..ui }
        }),
{
}

/// The end of a flow reloads the list of branches of the flow's own
/// category, and the start or finish of a flow runs the flow of the kind
/// that its category names, and no flow of another kind or action.
pub proof fn law_flow_commands_keep_their_category(ui: UiStateView, c: i32, name: Seq<char>, main: Seq<char>)
    requires
        valid_category(c as int),
    ensures
        gui_step(ui, GuiEventView::FlowProcessEnded(c as int)).1 == GuiCommand::RefreshItems(c),
        gui_step(ui, GuiEventView::ProcessEndedKeepSelection(c as int)).1 == GuiCommand::RefreshItems(c),
        gui_step(ui, GuiEventView::FinishRequested(c as int)).1 == GuiCommand::StartFinish(c),
        command_plan_spec(GuiCommand::StartCreation(c), name, main) == (match kind_of_category_spec(c as int) {
            Some(k) => flow_plan_spec(k, FlowAction::Start, name, main),
            None => None,
        }),
        command_plan_spec(GuiCommand::StartFinish(c), name, main) == (match kind_of_category_spec(c as int) {
            Some(k) => flow_plan_spec(k, FlowAction::Finish, name, main),
            None => None,
        }),
{
}

/// A category outside 0 to 3 starts no work: checking a name for it
/// leaves the window as it was, and no event about it asks to create,
/// finish or reload anything, nor leaves the window unable to close.
pub proof fn law_invalid_category_starts_nothing(ui: UiStateView, found: bool, c: int, name: Seq<char>, main: Seq<char>)
    requires
        !valid_category(c),
    ensures
        gui_step(ui, GuiEventView::StartChecked(found, c)) == (ui, GuiCommand::Nothing),
        gui_step(ui, GuiEventView::NameChecked(found, c)) == (ui, GuiCommand::Nothing),
        gui_step(ui, GuiEventView::FinishRequested(c)).1 == GuiCommand::Nothing,
        !keeps_window(Some(gui_step(ui, GuiEventView::FinishRequested(c)).0)),
        gui_step(ui, GuiEventView::FlowProcessEnded(c)).1 == GuiCommand::Nothing,
        gui_step(ui, GuiEventView::ProcessEndedKeepSelection(c)).1 == GuiCommand::Nothing,
        c == c as i32 ==> command_plan_spec(GuiCommand::StartCreation(c as i32), name, main) is None,
        c == c as i32 ==> command_plan_spec(GuiCommand::StartFinish(c as i32), name, main) is None,
{
}

/// The stand-alone window's reading of the changes sets the dirty flag and
/// nothing else.
pub proof fn law_dirty_check_sets_only_dirty(ui: UiStateView, dirty: bool)
    ensures
        gui_step(ui, GuiEventView::DirtyChecked(dirty)) == (UiStateView { dirty, ..ui }, GuiCommand::Nothing),
{
}

/// The folder shown as the repository is the one last chosen or named.
pub proof fn law_label_is_last_folder(ui: UiStateView, f: Seq<char>)
    ensures
        gui_step(ui, GuiEventView::FolderChosen(f)).0 == (UiStateView { repository: f, ..ui }),
{
}

/// A name that already exists never starts a flow, in either front end:
/// for every category that names a flow, a found name sets the start
/// dialog's error to "Already exists", changes nothing else and starts
/// nothing; a name not found starts the creation of a flow of that
/// category and leaves the error as it was.
pub proof fn law_found_name_never_starts(ui: UiStateView, c: i32)
    requires
        0 <= c <= 3,
    ensures
        gui_step(ui, GuiEventView::StartChecked(true, c as int))
            == (UiStateView { create_err: "Already exists"@, ..ui }, GuiCommand::Nothing),
        gui_step(ui, GuiEventView::NameChecked(true, c as int))
            == (UiStateView { create_err: "Already exists"@, ..ui }, GuiCommand::Nothing),
        gui_step(ui, GuiEventView::StartChecked(false, c as int)).1 == GuiCommand::StartCreation(c),
        gui_step(ui, GuiEventView::NameChecked(false, c as int)).1 == GuiCommand::StartCreation(c),
        gui_step(ui, GuiEventView::StartChecked(false, c as int)).0.create_err == ui.create_err,
        gui_step(ui, GuiEventView::NameChecked(false, c as int)).0.create_err == ui.create_err,
{
}

/// Loading a repository shows its reported change status, and offers the
/// set-up of `develop` exactly when `develop` is missing, whatever the
/// change status; nothing else in the window changes and no work starts.
pub proof fn law_develop_offered_iff_missing(ui: UiStateView, dirty: bool, develop_exists: bool)
    ensures
        ({
            let (after, command) = gui_step(ui, GuiEventView::RepositoryLoaded { dirty, develop_exists });
            &&& after.dirty == dirty
            &&& after.show_develop_dialog == !develop_exists
            &&& after == UiStateView { dirty: after.dirty, show_develop_dialog: after.show_develop_dialog, ..ui }
            &&& command == GuiCommand::Nothing
        }),
{
}

} // verus!
