//! Structural front end of the Smiley stylesheet language.
//!
//! A Smiley source is significant in its indentation. This crate measures the
//! indentation of each line, checks that the depths of a file nest properly,
//! and tells block-opening selector lines from leaf declaration lines.

pub use preprocessor::builder::Builder as PreprocessorBuilder;

pub mod error;
pub mod parser;
pub mod preprocessor;
pub mod util;
