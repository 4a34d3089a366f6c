//! Decision logic of an automated grading pipeline: a dispatcher that turns
//! push notifications into grading jobs and test reports into commit
//! statuses, and a tester that runs each job in a container.
//!
//! Everything here is a function from plain values to plain values; the
//! programs around it perform the network, file and process work.

pub mod amqp;
pub mod api;
pub mod archive;
pub mod builder;
pub mod config;
pub mod hook;
pub mod packager;
pub mod paths;
pub mod pipeline;
pub mod process;
pub mod report;
pub mod tester;
pub mod text;
pub mod web;
pub mod yaml;
pub mod ziputils;
