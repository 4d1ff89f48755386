//! Tor as a static library: what is decided when it is built, linked and driven.
//!
//! Tor and libevent are built from source with their own `configure` scripts and linked
//! into the program that embeds them. Building and running touch the machine, and callers
//! do that. What this crate holds is every decision on the way, each with a contract that
//! says exactly what comes out:
//!
//! - [`sources`]: where the sources are, and where they are staged;
//! - [`configure`]: the options and variables of each build;
//! - [`artifacts`], [`link`], [`directives`]: what cargo is told to link, line by line and
//!   in link order;
//! - [`lifecycle`]: the order in which a configuration handle of the daemon may be
//!   created, set up, run and freed;
//! - [`text`] and [`paths`]: the strings and paths that the others are made of.

pub mod artifacts;
pub mod configure;
pub mod directives;
pub mod lifecycle;
pub mod link;
pub mod paths;
pub mod sources;
pub mod text;
