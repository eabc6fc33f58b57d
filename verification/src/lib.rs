//! Verified decision logic of a git-flow helper: branch naming, the
//! pipelines of the start and finish flows, the runner that drives a flow
//! through its steps, the set-up of the `develop` branch, the console log
//! and the choices the graphical front end makes.
pub mod flow;
pub mod pipeline;
pub mod plans;
pub mod runner;
pub mod branches;
pub mod develop;
pub mod console;
pub mod names;
pub mod gui;
pub mod select;
pub mod cli;
pub mod repo_model;
