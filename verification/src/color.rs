//! Mapping severity levels to terminal colors and applying them.

use vstd::prelude::*;

use colored::Colorize;

use crate::level::Level;

verus! {

/// Terminal color assigned to a severity level.
#[derive(Clone, Copy, Debug, PartialEq, Eq, Structural)]
pub enum LogColor {
    Red,
    Yellow,
    Green,
    Blue,
    Magenta,
}

/// The total severity-to-color mapping.
pub open spec fn spec_color_for(level: Level) -> LogColor {
    match level {
        Level::Error => LogColor::Red,
        Level::Warn => LogColor::Yellow,
        Level::Info => LogColor::Green,
        Level::Debug => LogColor::Blue,
        Level::Trace => LogColor::Magenta,
    }
}

/// Maps a severity level to its terminal color.
pub fn color_for(level: Level) -> (r: LogColor)
    ensures
        r == spec_color_for(level),
{
    match level {
        Level::Error => LogColor::Red,
        Level::Warn => LogColor::Yellow,
        Level::Info => LogColor::Green,
        Level::Debug => LogColor::Blue,
        Level::Trace => LogColor::Magenta,
    }
}

/// Relies on `colored::Colorize::red`: wraps the text in red ANSI escape
/// codes, or leaves it as it is when the crate has colors globally disabled;
/// either way the text is kept whole, so the result is at least as long.
#[verifier::external_body]
fn paint_red(text: &str) -> (r: String)
    ensures
        r@.len() >= text@.len(),
{
    format!("{}", text.red())
}

/// Relies on `colored::Colorize::yellow`; see `paint_red`.
#[verifier::external_body]
fn paint_yellow(text: &str) -> (r: String)
    ensures
        r@.len() >= text@.len(),
{
    format!("{}", text.yellow())
}

/// Relies on `colored::Colorize::green`; see `paint_red`.
#[verifier::external_body]
fn paint_green(text: &str) -> (r: String)
    ensures
        r@.len() >= text@.len(),
{
    format!("{}", text.green())
}

/// Relies on `colored::Colorize::blue`; see `paint_red`.
#[verifier::external_body]
fn paint_blue(text: &str) -> (r: String)
    ensures
        r@.len() >= text@.len(),
{
    format!("{}", text.blue())
}

/// Relies on `colored::Colorize::magenta`; see `paint_red`.
#[verifier::external_body]
fn paint_magenta(text: &str) -> (r: String)
    ensures
        r@.len() >= text@.len(),
{
    format!("{}", text.magenta())
}

/// Applies the level's color to `text` when `enabled`. With coloring
/// disabled the text comes back unchanged, free of escape codes; with it
/// enabled, the text is kept whole inside whatever codes the terminal
/// settings allow.
pub fn colorize(text: &str, level: Level, enabled: bool) -> (r: String)
    ensures
        !enabled ==> r@ == text@,
        r@.len() >= text@.len(),
{
    if enabled {
        match color_for(level) {
            LogColor::Red => paint_red(text),
            LogColor::Yellow => paint_yellow(text),
            LogColor::Green => paint_green(text),
            LogColor::Blue => paint_blue(text),
            LogColor::Magenta => paint_magenta(text),
        }
    } else {
        text.to_owned()
    }
}

} // verus!
