//! Rewrites text by running it through an ordered list of pattern rules.
//!
//! A [`Replacement`](replacement::Replacement) binds one compiled
//! [`Pattern`](pattern::Pattern) to one [`Target`](target::Target): applying
//! it replaces every match of the pattern by a fragment that the target hands
//! out, and keeps the rest of the text. An [`Accent`](accent::Accent) is an
//! ordered list of replacements that a text is folded through, each rule
//! working on what the rule before it made of the text.
//!
//! The regex engine and the random generator are outside crates. What the
//! library takes on trust about them stands in [`pattern`] and [`chance`];
//! everything else is proved.

pub mod accent;
pub mod capture;
pub mod chance;
pub mod error;
pub mod pattern;
pub mod replacement;
pub mod scotsman;
pub mod source;
pub mod target;
pub mod text;
