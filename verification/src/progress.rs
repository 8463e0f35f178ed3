//! The progress indicator of a transfer.

use indicatif::{ProgressBar, ProgressStyle};
use vstd::prelude::*;

verus! {

/// The progress bar of `indicatif`. What it draws is its own affair; the
/// library reads and moves its position only.
#[verifier::external_type_specification]
#[verifier::external_body]
pub struct ExProgressBar(ProgressBar);

/// The position that a progress bar has reached.
pub uninterp spec fn bar_position(bar: ProgressBar) -> u64;

/// The length that a progress bar was made with.
pub uninterp spec fn bar_length(bar: ProgressBar) -> u64;

/// The length of a bar whose total is not known.
pub const UNKNOWN_LENGTH: u64 = u64::MAX;

/// How a transfer shows its progress.
pub const TEMPLATE: &'static str = "{wide_bar} {bytes}/{total_bytes} ({bytes_per_sec}) (eta {eta})";

/// `a + b`, held at the largest `u64`.
pub open spec fn saturating_sum(a: int, b: int) -> int {
    if a + b > u64::MAX {
        u64::MAX as int
    } else {
        a + b
    }
}

/// Calls `ProgressBar::new`: a bar of the given length at position zero.
#[verifier::external_body]
fn new_bar(length: u64) -> (bar: ProgressBar)
    ensures
        bar_position(bar) == 0,
        bar_length(bar) == length,
{
    ProgressBar::new(length)
}

/// Calls `ProgressBar::new_spinner`: a bar at position zero whose length is
/// the largest `u64`.
#[verifier::external_body]
fn new_spinner() -> (bar: ProgressBar)
    ensures
        bar_position(bar) == 0,
        bar_length(bar) == u64::MAX,
{
    ProgressBar::new_spinner()
}

/// Calls `ProgressBar::set_style` with the default bar style and the given
/// template. Position and length stay.
#[verifier::external_body]
fn set_template(bar: &mut ProgressBar, template: &str)
    ensures
        bar_position(*final(bar)) == bar_position(*old(bar)),
        bar_length(*final(bar)) == bar_length(*old(bar)),
{
    bar.set_style(ProgressStyle::default_bar().template(template))
}

/// Calls `ProgressBar::inc`, which adds to the position and holds it at the
/// largest `u64`. The length stays.
#[verifier::external_body]
pub(crate) fn advance(bar: &mut ProgressBar, delta: u64)
    ensures
        bar_position(*final(bar)) == saturating_sum(bar_position(*old(bar)) as int, delta as int),
        bar_length(*final(bar)) == bar_length(*old(bar)),
{
    bar.inc(delta)
}

/// The indicator for a transfer: a bar of the source's size where the size
/// is known, a spinner where it is not. The choice is made once, before
/// the first byte moves.
pub fn progress_for(size: Option<u64>) -> (bar: ProgressBar)
    ensures
        bar_position(bar) == 0,
        bar_length(bar) == match size {
            Some(length) => length,
            None => UNKNOWN_LENGTH,
        },
{
    let mut bar = match size {
        Some(length) => new_bar(length),
        None => new_spinner(),
    };
    set_template(&mut bar, TEMPLATE);
    bar
}

} // verus!
