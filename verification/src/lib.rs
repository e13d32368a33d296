//! Coordination between a log-search server and the unattended agents that
//! run its searches.
//!
//! An agent logs in, asks the server whether to run, scans the locations of
//! each search line by line, and reports the results that hold a match. The
//! server authenticates agents and operators, decides when an agent is due,
//! takes in the reported results and tells the webhooks about them.
//!
//! Nothing here reads a file, a clock, a socket or a database: callers hand
//! in what they read and carry out what is decided.
//!
//! - [`agent`], [`searchrunner`], [`patterns`], [`webclient`]: the agent's
//!   loop, its scans, the three kinds of match, and what the server's
//!   answers mean to it.
//! - [`schedule`]: when an agent is due.
//! - [`sql`]: the stored agents, operators, searches, results and webhooks,
//!   and what each operation does to them.
//! - [`web`], [`webhooks`]: the server's answers to agents and operators,
//!   and the notifications.
//! - [`models`], [`time`], [`conf`], [`constants`]: the values that travel,
//!   points in time, settings, and fixed names and numbers.
//! - [`secrets`], [`text`], [`seqs`]: hashing and random draws, operations on
//!   text, and facts about sequences.

pub mod agent;
pub mod conf;
pub mod constants;
pub mod models;
pub mod patterns;
pub mod schedule;
pub mod searchrunner;
pub mod secrets;
pub mod seqs;
pub mod sql;
pub mod text;
pub mod time;
pub mod web;
pub mod webclient;
pub mod webhooks;
