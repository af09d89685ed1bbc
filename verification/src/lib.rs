//! ÖBB Monitor: the state and rules of a terminal board of live departures
//! and arrivals of the Austrian Federal Railways, verified with Verus.
//!
//! - [`app`]: the application state and its changes (station picker, train
//!   selection), and the feed's page URLs.
//! - [`input`]: what a key press does in each screen.
//! - [`live`]: the decisions of the live connection (merging board updates,
//!   failure, reconnect backoff).
//! - [`ui`], [`detail`]: what the screens show, as styled text.
//! - [`lang`]: German/English labels; [`config`]: the saved language.
//! - [`model`]: the feed's data; [`stations`]: the station table.
//! - [`time`]: timestamps, delays and clock text.
//! - [`text`], [`sort`]: text helpers and stable sorting, with their laws.
//! - [`laws`]: properties that span several of these.

use vstd::prelude::*;

pub mod app;
pub mod config;
pub mod detail;
pub mod input;
pub mod lang;
pub mod laws;
pub mod live;
pub mod model;
pub mod sort;
pub mod stations;
pub mod text;
pub mod time;
pub mod ui;
