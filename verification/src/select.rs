use vstd::prelude::*;

use crate::gui::FrontEnd;

verus! {

/// How far the choice of the repository has come.
#[derive(Debug, Clone, PartialEq, Eq)]
pub enum SelectPhase {
    Begin,
    /// The folder dialog is open.
    AwaitDialog,
    /// The folder is being checked; `true` if it came from the dialog.
    AwaitVerify(String, bool),
    /// The repository is adopted; it is to be fetched next.
    Fetching,
    /// The repository is fetched; it is to be inspected next.
    Inspecting,
    Done,
}

/// The mathematical value of a [`SelectPhase`].
pub enum SelectPhaseView {
    Begin,
    AwaitDialog,
    AwaitVerify(Seq<char>, bool),
    Fetching,
    Inspecting,
    Done,
}

impl View for SelectPhase {
    type V = SelectPhaseView;

    open spec fn view(&self) -> SelectPhaseView {
        match self {
            SelectPhase::Begin => SelectPhaseView::Begin,
            SelectPhase::AwaitDialog => SelectPhaseView::AwaitDialog,
            SelectPhase::AwaitVerify(p, d) => SelectPhaseView::AwaitVerify(p@, *d),
            SelectPhase::Fetching => SelectPhaseView::Fetching,
            SelectPhase::Inspecting => SelectPhaseView::Inspecting,
            SelectPhase::Done => SelectPhaseView::Done,
        }
    }
}

/// What happened while choosing the repository.
#[derive(Debug, Clone, PartialEq, Eq)]
pub enum SelectEvent {
    /// The choice begins.
    Started,
    /// The folder dialog closed, with the chosen folder or without one.
    DialogClosed(Option<String>),
    /// The folder asked for was checked: `true` if it is a git repository.
    Verified(bool),
    /// The last action asked for is done.
    Proceed,
}

/// The mathematical value of a [`SelectEvent`].
pub enum SelectEventView {
    Started,
    DialogClosed(Option<Seq<char>>),
    Verified(bool),
    Proceed,
}

impl View for SelectEvent {
    type V = SelectEventView;

    open spec fn view(&self) -> SelectEventView {
        match self {
            SelectEvent::Started => SelectEventView::Started,
            SelectEvent::DialogClosed(None) => SelectEventView::DialogClosed(None),
            SelectEvent::DialogClosed(Some(f)) => SelectEventView::DialogClosed(Some(f@)),
            SelectEvent::Verified(b) => SelectEventView::Verified(*b),
            SelectEvent::Proceed => SelectEventView::Proceed,
        }
    }
}

/// What the front end must do next while choosing the repository.
#[derive(Debug, Clone, PartialEq, Eq)]
pub enum SelectAction {
    /// Nothing: the event does not concern the current phase.
    Idle,
    /// Open the folder dialog.
    ShowDialog,
    /// Check whether the folder is a git repository.
    Verify(String),
    /// Work in this repository from now on: make it the current directory.
    Adopt(String),
    /// Tell the user that the repository is being refreshed, and fetch it.
    Fetch,
    /// Read whether the repository has changes and which branches it has.
    Inspect,
    /// Go on without a repository.
    GiveUp,
    /// Quit the program with this exit code.
    Exit(i32),
}

/// The mathematical value of a [`SelectAction`].
pub enum SelectActionView {
    Idle,
    ShowDialog,
    Verify(Seq<char>),
    Adopt(Seq<char>),
    Fetch,
    Inspect,
    GiveUp,
    Exit(int),
}

impl View for SelectAction {
    type V = SelectActionView;

    open spec fn view(&self) -> SelectActionView {
        match self {
            SelectAction::Idle => SelectActionView::Idle,
            SelectAction::ShowDialog => SelectActionView::ShowDialog,
            SelectAction::Verify(p) => SelectActionView::Verify(p@),
            SelectAction::Adopt(p) => SelectActionView::Adopt(p@),
            SelectAction::Fetch => SelectActionView::Fetch,
            SelectAction::Inspect => SelectActionView::Inspect,
            SelectAction::GiveUp => SelectActionView::GiveUp,
            SelectAction::Exit(c) => SelectActionView::Exit(*c as int),
        }
    }
}

/// One move of the choice: the errors to report, in order, the folder to
/// show as the repository if it changes, and the action to take.
pub struct SelectStep {
    pub errors: Vec<String>,
    pub label: Option<String>,
    pub action: SelectAction,
}

/// The mathematical value of a [`SelectStep`].
pub struct SelectStepView {
    pub errors: Seq<Seq<char>>,
    pub label: Option<Seq<char>>,
    pub action: SelectActionView,
}

impl View for SelectStep {
    type V = SelectStepView;

    open spec fn view(&self) -> SelectStepView {
        SelectStepView {
            errors: self.errors@.map_values(|e: String| e@),
            label: match self.label {
                Some(l) => Some(l@),
                None => None,
            },
            action: self.action@,
        }
    }
}

/// The choice of the repository: the front end, the folder named on the
/// command line if any, and the phase.
pub struct RepoSelection {
    pub front_end: FrontEnd,
    pub given: Option<String>,
    pub phase: SelectPhase,
}

/// The mathematical value of a [`RepoSelection`].
pub struct RepoSelectionView {
    pub front_end: FrontEnd,
    pub given: Option<Seq<char>>,
    pub phase: SelectPhaseView,
}

impl View for RepoSelection {
    type V = RepoSelectionView;

    open spec fn view(&self) -> RepoSelectionView {
        RepoSelectionView {
            front_end: self.front_end,
            given: match self.given {
                Some(p) => Some(p@),
                None => None,
            },
            phase: self.phase@,
        }
    }
}

pub open spec fn msg_not_a_repository() -> Seq<char> { "Folder is not a repository"@ }
pub open spec fn msg_named_not_a_repository() -> Seq<char> { "Folder is not a repository "@ }
pub open spec fn msg_no_folder() -> Seq<char> { "No folder selected"@ }
pub open spec fn msg_no_repository() -> Seq<char> { "No git repository selected"@ }

/// A move that reports the errors and takes the action, with no new label.
pub open spec fn plain(errors: Seq<Seq<char>>, action: SelectActionView) -> SelectStepView {
    SelectStepView { errors, label: None, action }
}

/// The folder shown while it is checked: the current window shows it, the
/// stand-alone window shows none.
pub open spec fn label_of(front_end: FrontEnd, folder: Seq<char>) -> Option<Seq<char>> {
    if front_end == FrontEnd::Current { Some(folder) } else { None }
}

/// One move of the choice of the repository. A folder named on the command
/// line is checked at once; otherwise the folder dialog opens. The current
/// window shows each folder it checks as the repository. A folder from the
/// dialog that is not a repository is reported and the dialog opens again
/// (as it does at once on an empty selection, in the current window). A
/// named folder that is not a repository is reported, and the current
/// window goes on without a repository while the stand-alone window reports
/// that no repository was selected and quits with exit code 1. Closing the
/// dialog without a folder reports it and quits with exit code 1. A folder
/// is adopted exactly when its check says it is a repository; the current
/// window then fetches it, and only then inspects it.
pub open spec fn select_step(s: RepoSelectionView, e: SelectEventView) -> (RepoSelectionView, SelectStepView) {
    match (s.phase, e) {
        (SelectPhaseView::Begin, SelectEventView::Started) => match s.given {
            Some(p) => (RepoSelectionView { phase: SelectPhaseView::AwaitVerify(p, false), ..s },
                SelectStepView { errors: Seq::empty(), label: label_of(s.front_end, p), action: SelectActionView::Verify(p) }),
            None => (RepoSelectionView { phase: SelectPhaseView::AwaitDialog, ..s },
                plain(Seq::empty(), SelectActionView::ShowDialog)),
        },
        (SelectPhaseView::AwaitDialog, SelectEventView::DialogClosed(choice)) => match choice {
            Some(f) => if s.front_end == FrontEnd::Current && f.len() == 0 {
                (s, plain(Seq::empty(), SelectActionView::ShowDialog))
            } else {
                (RepoSelectionView { phase: SelectPhaseView::AwaitVerify(f, true), ..s },
                 SelectStepView { errors: Seq::empty(), label: label_of(s.front_end, f), action: SelectActionView::Verify(f) })
            },
            None => (RepoSelectionView { phase: SelectPhaseView::Done, ..s },
                plain(seq![if s.front_end == FrontEnd::Current { msg_no_folder() } else { msg_no_repository() }],
                    SelectActionView::Exit(1))),
        },
        (SelectPhaseView::AwaitVerify(p, from_dialog), SelectEventView::Verified(ok)) => if ok {
            (RepoSelectionView {
                phase: if s.front_end == FrontEnd::Current { SelectPhaseView::Fetching } else { SelectPhaseView::Done },
                ..s
            }, plain(Seq::empty(), SelectActionView::Adopt(p)))
        } else if from_dialog {
            (RepoSelectionView { phase: SelectPhaseView::AwaitDialog, ..s },
             plain(seq![msg_not_a_repository()], SelectActionView::ShowDialog))
        } else if s.front_end == FrontEnd::Current {
            (RepoSelectionView { phase: SelectPhaseView::Done, ..s },
             plain(seq![msg_named_not_a_repository() + p], SelectActionView::GiveUp))
        } else {
            (RepoSelectionView { phase: SelectPhaseView::Done, ..s },
             plain(seq![msg_named_not_a_repository() + p, msg_no_repository()], SelectActionView::Exit(1)))
        },
        (SelectPhaseView::Fetching, SelectEventView::Proceed) =>
            (RepoSelectionView { phase: SelectPhaseView::Inspecting, ..s }, plain(Seq::empty(), SelectActionView::Fetch)),
        (SelectPhaseView::Inspecting, SelectEventView::Proceed) =>
            (RepoSelectionView { phase: SelectPhaseView::Done, ..s }, plain(Seq::empty(), SelectActionView::Inspect)),
        _ => (s, plain(Seq::empty(), SelectActionView::Idle)),
    }
}

/// A move with no error and no new label.
fn plain_step(action: SelectAction) -> (step: SelectStep)
    ensures
        step@ == plain(Seq::empty(), action@),
{
    let step = SelectStep { errors: Vec::new(), label: None, action };
    proof {
        assert(step@.errors =~= Seq::<Seq<char>>::empty());
    }
    step
}

/// The folder to show while it is checked.
fn label_for(front_end: FrontEnd, folder: &String) -> (label: Option<String>)
    ensures
        (match label { Some(l) => Some(l@), None => None }) == label_of(front_end, folder@),
{
    if front_end == FrontEnd::Current { Some(folder.clone()) } else { None }
}

/// The move that checks a folder, showing it where the front end does.
fn verify_step(front_end: FrontEnd, folder: String) -> (step: SelectStep)
    ensures
        step@ == (SelectStepView {
            errors: Seq::empty(),
            label: label_of(front_end, folder@),
            action: SelectActionView::Verify(folder@),
        }),
{
    let label = label_for(front_end, &folder);
    let step = SelectStep { errors: Vec::new(), label, action: SelectAction::Verify(folder) };
    proof {
        assert(step@.errors =~= Seq::<Seq<char>>::empty());
    }
    step
}

impl RepoSelection {
    /// A choice for the given front end, with the folder named on the
    /// command line if any.
    pub fn new(front_end: FrontEnd, given: Option<String>) -> (s: RepoSelection)
        ensures
            s@ == (RepoSelectionView {
                front_end,
                given: match given { Some(p) => Some(p@), None => None },
                phase: SelectPhaseView::Begin,
            }),
    {
        RepoSelection { front_end, given, phase: SelectPhase::Begin }
    }

    /// Whether the choice is over.
    pub fn is_done(&self) -> (b: bool)
        ensures
            b == (self@.phase is Done),
    {
        match self.phase {
            SelectPhase::Done => true,
            _ => false,
        }
    }

    /// Applies an event and returns the next move.
    pub fn next(&mut self, event: SelectEvent) -> (step: SelectStep)
        ensures
            (final(self)@, step@) == select_step(old(self)@, event@),
    {
        let mut phase = SelectPhase::Done;
        std::mem::swap(&mut phase, &mut self.phase);
        match (phase, event) {
            (SelectPhase::Begin, SelectEvent::Started) => match &self.given {
                Some(p) => {
                    self.phase = SelectPhase::AwaitVerify(p.clone(), false);
                    verify_step(self.front_end, p.clone())
                },
                None => {
                    self.phase = SelectPhase::AwaitDialog;
                    plain_step(SelectAction::ShowDialog)
                },
            },
            (SelectPhase::AwaitDialog, SelectEvent::DialogClosed(choice)) => match choice {
                Some(f) => {
                    let empty = f.as_str().is_empty();
                    proof {
                        assert(empty == (f@.len() == 0));
                    }
                    if self.front_end == FrontEnd::Current && empty {
                        self.phase = SelectPhase::AwaitDialog;
                        plain_step(SelectAction::ShowDialog)
                    } else {
                        self.phase = SelectPhase::AwaitVerify(f.clone(), true);
                        verify_step(self.front_end, f)
                    }
                },
                None => {
                    let msg = if self.front_end == FrontEnd::Current {
                        String::from_str("No folder selected")
                    } else {
                        String::from_str("No git repository selected")
                    };
                    let ghost m = msg@;
                    let step = SelectStep { errors: vec![msg], label: None, action: SelectAction::Exit(1) };
                    proof {
                        assert(step@.errors =~= seq![m]);
                    }
                    step
                },
            },
            (SelectPhase::AwaitVerify(p, from_dialog), SelectEvent::Verified(ok)) => {
                if ok {
                    if self.front_end == FrontEnd::Current {
                        self.phase = SelectPhase::Fetching;
                    }
                    plain_step(SelectAction::Adopt(p))
                } else if from_dialog {
                    self.phase = SelectPhase::AwaitDialog;
                    let step = SelectStep {
                        errors: vec![String::from_str("Folder is not a repository")],
                        label: None,
                        action: SelectAction::ShowDialog,
                    };
                    proof {
                        assert(step@.errors =~= seq![msg_not_a_repository()]);
                    }
                    step
                } else {
                    let mut named = String::from_str("Folder is not a repository ");
                    named.append(p.as_str());
                    let ghost n = named@;
                    if self.front_end == FrontEnd::Current {
                        let step = SelectStep { errors: vec![named], label: None, action: SelectAction::GiveUp };
                        proof {
                            assert(step@.errors =~= seq![n]);
                        }
                        step
                    } else {
                        let step = SelectStep {
                            errors: vec![named, String::from_str("No git repository selected")],
                            label: None,
                            action: SelectAction::Exit(1),
                        };
                        proof {
                            assert(step@.errors =~= seq![n, msg_no_repository()]);
                        }
                        step
                    }
                }
            },
            (SelectPhase::Fetching, SelectEvent::Proceed) => {
                self.phase = SelectPhase::Inspecting;
                plain_step(SelectAction::Fetch)
            },
            (SelectPhase::Inspecting, SelectEvent::Proceed) => plain_step(SelectAction::Inspect),
            (phase, _) => {
                self.phase = phase;
                plain_step(SelectAction::Idle)
            },
        }
    }
}

/// The folder named on the command line of the stand-alone window: the
/// first argument after the program's name, if there is one.
pub fn path_argument(args: &Vec<String>) -> (path: Option<String>)
    requires
        args.len() >= 1,
    ensures
        args.len() == 1 ==> path is None,
        args.len() > 1 ==> (path matches Some(p) && p@ == args@[1]@),
{
    if args.len() == 1 {
        None
    } else {
        Some(args[1].clone())
    }
}

/// A folder is adopted only once its check has said that it is a git
/// repository, and it is the folder that was checked.
pub proof fn law_adopt_only_verified(s: RepoSelectionView, e: SelectEventView, p: Seq<char>)
    requires
        select_step(s, e).1.action == SelectActionView::Adopt(p),
    ensures
        (s.phase matches SelectPhaseView::AwaitVerify(q, _) && q == p),
        e == SelectEventView::Verified(true),
{
}

/// The current window fetches the repository right after adopting it, and
/// inspects it (its changes and branches) only after the fetch; nothing is
/// fetched or inspected before a folder is adopted. The stand-alone window
/// ends the choice on adoption.
pub proof fn law_fetch_before_inspect(s: RepoSelectionView, e: SelectEventView)
    ensures
        ({
            let (after, step) = select_step(s, e);
            &&& step.action is Adopt ==> (after.phase is Fetching <==> s.front_end == FrontEnd::Current)
            &&& step.action is Adopt && s.front_end == FrontEnd::Legacy ==> after.phase is Done
            &&& step.action is Fetch <==> (s.phase is Fetching && e is Proceed)
            &&& step.action is Inspect <==> (s.phase is Inspecting && e is Proceed)
            &&& after.phase is Fetching ==> (s.phase is Fetching || step.action is Adopt)
            &&& after.phase is Inspecting ==> (s.phase is Inspecting || step.action is Fetch)
        }),
{
}

/// Every folder that is checked is either the one named on the command
/// line or one chosen in the dialog, and in the current window an empty
/// choice is never checked. The current window shows exactly the folder it
/// checks; the stand-alone window shows none.
pub proof fn law_verified_folder_was_given_or_chosen(s: RepoSelectionView, e: SelectEventView, p: Seq<char>)
    requires
        select_step(s, e).1.action == SelectActionView::Verify(p),
    ensures
        (s.phase is Begin && s.given == Some(p)) || e == SelectEventView::DialogClosed(Some(p)),
        s.front_end == FrontEnd::Current && !(s.phase is Begin) ==> p.len() > 0,
        select_step(s, e).1.label == label_of(s.front_end, p),
{
}

/// Only the check of a folder changes the folder shown.
pub proof fn law_label_only_when_checking(s: RepoSelectionView, e: SelectEventView)
    ensures
        select_step(s, e).1.label is Some ==> select_step(s, e).1.action is Verify,
{
}

/// A finished choice stays finished and asks for nothing more.
pub proof fn law_selection_done_is_final(s: RepoSelectionView, e: SelectEventView)
    requires
        s.phase is Done,
    ensures
        select_step(s, e) == (s, plain(Seq::empty(), SelectActionView::Idle)),
{
}

/// The stand-alone window never goes on without a repository: where the
/// current window gives up, it reports that no repository was selected and
/// quits with exit code 1.
pub proof fn law_legacy_never_gives_up(s: RepoSelectionView, e: SelectEventView)
    requires
        s.front_end == FrontEnd::Legacy,
    ensures
        select_step(s, e).1.action != SelectActionView::GiveUp,
        select_step(s, e).1.action == SelectActionView::Exit(1) ==> select_step(s, e).1.errors.last() == msg_no_repository(),
{
}

/// A folder whose check says it is a git repository is adopted, wherever
/// it came from (the command line or the dialog) and in either front end,
/// with no error; the current window goes on to fetch it, the stand-alone
/// window is done. A folder whose check says it is not a repository is
/// never adopted.
pub proof fn law_repository_is_adopted(s: RepoSelectionView, p: Seq<char>, from_dialog: bool)
    requires
        s.phase == SelectPhaseView::AwaitVerify(p, from_dialog),
    ensures
        select_step(s, SelectEventView::Verified(true)).1.action == SelectActionView::Adopt(p),
        select_step(s, SelectEventView::Verified(true)).1.errors.len() == 0,
        select_step(s, SelectEventView::Verified(true)).0.phase
            == (if s.front_end == FrontEnd::Current { SelectPhaseView::Fetching } else { SelectPhaseView::Done }),
        !(select_step(s, SelectEventView::Verified(false)).1.action is Adopt),
        select_step(s, SelectEventView::Verified(false)).1.errors.len() > 0,
{
}

} // verus!
