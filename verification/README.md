# git_flow

The decision logic of a git-flow helper, verified with Verus.

- `src/flow.rs`: kinds of flow, their category indices and branch names.
- `src/pipeline.rs`, `src/plans.rs`: the steps and conditions of starting and
  finishing features and releases.
- `src/runner.rs`: the state machine that drives a flow through its plan and
  stops at the first failure.
- `src/repo_model.rs`: a model of a repository's branches, over which the
  start and finish of a flow are shown to fit together.
- `src/develop.rs`: the set-up of the `develop` branch.
- `src/branches.rs`, `src/console.rs`, `src/names.rs`: branch look-ups, the
  console text, and the rule for flow names (checked with the `regex` crate).
- `src/gui.rs`, `src/select.rs`, `src/cli.rs`: the choices of the window, the
  choice of the repository, and the command line.

`app/` is the command-line program: it parses the arguments with `clap`, runs
`git`, and prints what the library asks it to print.

## Known gaps

- Bugfix and hotfix flows: the program offers them (as commands and as the
  window's categories 2 and 3), but the steps of their pipelines are not known
  to this project, so `flow_plan` has no plan for them and the command line
  stops with exit code 1 when asked to run one. Only feature and release flows
  run.
- The git operations of `app/` and the condition checks are written against
  the `git` program; the way the steps are run (every condition first, then
  the steps in order, stopping at the first failure) is the one `FlowRun`
  states.
- The window itself (its component definitions and toolkit) is not part of
  this build; the library holds its decisions (`gui.rs`, `select.rs`,
  `develop.rs`, `console.rs`), and the `gui` command stops with exit code 1.
