//! A weekly class timetable as a calendar feed.
//!
//! A timetable provider answers with a loosely typed document: named tables
//! of rows that refer to each other by id. This library finds the lessons of
//! one class in it, lays each on its weekday of the current week, and writes
//! them out as a calendar of events that repeat weekly.
//!
//! - [`json`]: the dynamic value in which the provider answers.
//! - [`tables`]: tables by name and rows by id, first match first.
//! - [`clock`] and [`marks`]: days, weeks, times of day and weekday marks.
//! - [`projector`]: from the cards of the timetable to the lessons of the week.
//! - [`event`] and [`feed`]: the events and the calendar that holds them.
//! - [`calgen`]: what to ask of the provider and what to make of its answers.
//! - [`launch`]: the state that a server of the feed starts with.
//! - [`laws`]: what holds of every projection.
//!
//! The library sends nothing and reads no clock: requests are handed out,
//! and answers and the current moment are taken in.

pub mod calgen;
pub mod clock;
pub mod error;
pub mod event;
pub mod feed;
pub mod json;
pub mod launch;
pub mod laws;
pub mod marks;
pub mod projector;
pub mod scan;
pub mod tables;
pub mod text;
