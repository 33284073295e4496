//! The control-rate parameter: the averaging window length.
//!
//! One integer parameter lives at index 0 of a flat parameter namespace;
//! every other index yields a defined neutral result (zero, empty text, or
//! no change) rather than an error. The host hands parameter changes over
//! as a normalized value in `[0.0, 1.0]`; the adapter around this library
//! clamps that value and rounds `clamped * 100` to an integer before the
//! verified mapping below turns it into a window length in `1..=100`.

use vstd::prelude::*;
use crate::text::{dec_rep, to_decimal};

verus! {

/// Window lengths are never larger than this; the normalized mapping
/// saturates here.
pub const MAX_WINDOW: usize = 100;

/// Window length on instantiation.
pub const DEFAULT_WINDOW: usize = 5;

/// The window length that a scaled control input selects: a floor of 1,
/// a ceiling of 100, and the scaled value itself in between.
pub open spec fn spec_map_normalized(scaled: nat) -> nat {
    if scaled == 0 {
        1
    } else if scaled > 100 {
        100
    } else {
        scaled
    }
}

/// Holds the one control parameter, `samples_to_average`.
///
/// This is the sequential store; a host adapter that shares the value
/// between a control thread and an audio thread keeps the integer in a
/// single-word atomic cell and routes every read and write through the
/// pure functions of this module, so the mapping proved here is the one
/// the concurrent cell carries.
pub struct ParameterStore {
    pub samples_to_average: usize,
}

/// A store is well formed when the window length lies in `1..=100`,
/// so a division by it never sees zero.
impl ParameterStore {
    pub open spec fn wf(&self) -> bool {
        1 <= self.samples_to_average <= 100
    }

    pub fn new() -> (s: Self)
        ensures
            s.wf(),
            s.samples_to_average == DEFAULT_WINDOW,
    {
        ParameterStore { samples_to_average: DEFAULT_WINDOW }
    }

    /// Updates the parameter at `index` from a scaled control input
    /// (`round(clamp(v, 0, 1) * 100)`); any index other than 0 changes
    /// nothing.
    pub fn set_parameter(&mut self, index: i32, scaled: usize)
        ensures
            index == 0 ==> final(self).samples_to_average == spec_map_normalized(
                scaled as nat,
            ),
            index != 0 ==> *final(self) == *old(self),
            old(self).wf() || index == 0 ==> final(self).wf(),
    {
        if index == 0 {
            self.samples_to_average = map_normalized(scaled);
        }
    }

    /// The current parameter value at `index`: the window length at
    /// index 0, zero anywhere else.
    pub fn get_parameter(&self, index: i32) -> (v: usize)
        ensures
            index == 0 ==> v == self.samples_to_average,
            index != 0 ==> v == 0,
    {
        parameter_value(self.samples_to_average, index)
    }

    /// The display label of the parameter at `index`; empty for every
    /// index other than 0.
    pub fn get_parameter_name(&self, index: i32) -> (r: String)
        ensures
            index == 0 ==> r@ == "Cock reduction"@,
            index != 0 ==> r@ == Seq::<char>::empty(),
    {
        parameter_name(index)
    }

    /// The current parameter value at `index` rendered as decimal text;
    /// empty for every index other than 0.
    pub fn get_parameter_text(&self, index: i32) -> (r: String)
        ensures
            index == 0 ==> r@ == dec_rep(self.samples_to_average as nat),
            index != 0 ==> r@ == Seq::<char>::empty(),
    {
        parameter_text(self.samples_to_average, index)
    }
}

impl Default for ParameterStore {
    fn default() -> (s: Self)
        ensures
            s.wf(),
            s.samples_to_average == DEFAULT_WINDOW,
    {
        ParameterStore::new()
    }
}

/// Maps a scaled control input to a window length in `1..=100`.
pub fn map_normalized(scaled: usize) -> (n: usize)
    ensures
        n == spec_map_normalized(scaled as nat),
        1 <= n <= 100,
{
    if scaled == 0 {
        1
    } else if scaled > MAX_WINDOW {
        MAX_WINDOW
    } else {
        scaled
    }
}

/// The value that replaces a stored window length `n` when the host sets
/// the parameter at `index` with scaled control input `scaled`: the
/// mapped input at index 0, the old value anywhere else.
pub fn parameter_update(n: usize, index: i32, scaled: usize) -> (r: usize)
    ensures
        index == 0 ==> r == spec_map_normalized(scaled as nat),
        index != 0 ==> r == n,
{
    if index == 0 {
        map_normalized(scaled)
    } else {
        n
    }
}

/// The value reported for the parameter at `index` when the stored
/// window length is `n`.
pub fn parameter_value(n: usize, index: i32) -> (v: usize)
    ensures
        index == 0 ==> v == n,
        index != 0 ==> v == 0,
{
    if index == 0 {
        n
    } else {
        0
    }
}

/// The display label of the parameter at `index`.
pub fn parameter_name(index: i32) -> (r: String)
    ensures
        index == 0 ==> r@ == "Cock reduction"@,
        index != 0 ==> r@ == Seq::<char>::empty(),
{
    if index == 0 {
        "Cock reduction".to_owned()
    } else {
        String::new()
    }
}

/// The decimal text of the parameter at `index` when the stored window
/// length is `n`.
pub fn parameter_text(n: usize, index: i32) -> (r: String)
    ensures
        index == 0 ==> r@ == dec_rep(n as nat),
        index != 0 ==> r@ == Seq::<char>::empty(),
{
    if index == 0 {
        to_decimal(n as u64)
    } else {
        String::new()
    }
}

} // verus!
