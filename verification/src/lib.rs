//! Issuing registration tokens to runners, as a machine that decides and never
//! performs.
//!
//! A request names a runner. Handling it takes four things from the outside
//! world, in this order: the configuration (owner, repository, credential), the
//! store's word on whether the runner is known, the platform's reply to one
//! POST, and the store's write of the runner's new status. This crate decides
//! what is asked next and what is answered at the end; the caller does the
//! asking. [`runners::runner_return_github_token`] opens a request and
//! [`runners::Handler::step`] takes each answer in turn.
//!
//! [`world`] describes the collaborators mathematically and [`laws`] proves
//! what every handled request does to them.
//!
//! Values that hold a credential or a token can be compared but not printed.

pub mod config;
pub mod laws;
pub mod platform;
pub mod runners;
pub mod status;
pub mod token;
pub mod views;
pub mod world;
