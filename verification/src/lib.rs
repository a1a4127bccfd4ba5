//! The core of a grading service. A client uploads the archive of a
//! submission; the service builds it in a disposable environment, runs it
//! against a catalog of test cases, scores the outcome and returns a signed
//! report.
//!
//! A [`session::Session`] holds the state of one connection and decides
//! every step of the pipeline. It does no outside work itself: it is told
//! what happened, one [`protocol::Event`] at a time, and answers with the
//! [`protocol::Action`]s that its host is to carry out. What a session makes
//! of an event is stated in [`model`]; what holds of all sessions is proved
//! in [`laws`].

pub mod catalog;
pub mod checksum;
pub mod clock;
pub mod command;
pub mod compare;
pub mod error;
pub mod laws;
pub mod model;
pub mod protocol;
pub mod report;
pub mod session;
pub mod stage;
pub mod text;
