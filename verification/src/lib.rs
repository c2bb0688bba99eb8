//! Protocol core of a line-oriented calculator service.
//!
//! Clients connect over a stream transport and send text commands, one per
//! line, that read or mutate a single shared numeric value: `ADD x`,
//! `SUBTRACT x`, `POWER x` and `SHOW`.  This crate holds the verified parts
//! of that service: splitting a line into words, classifying a line into the
//! directive it stands for, and rendering every byte the service writes back.
//! The transport, the shared cell and its floating-point arithmetic live in
//! the surrounding program, which drives one session loop per connection and
//! asks this crate what each line means and what to answer.

pub mod protocol;
pub mod render;
pub mod session;
pub mod words;
