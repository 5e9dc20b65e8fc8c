//! The waveform shown in the song panel.
//!
//! A sparkline draws each value as a bar of up to eight levels per row,
//! so a panel of `height` rows shows values up to `8 * height`. Until the
//! audio is analysed, the waveform is filled with random bars of that
//! range, one per column.

use vstd::prelude::*;
use rand::rngs::StdRng;
use rand::Rng;

verus! {

/// A seeded random generator. It never reseeds itself, so drawing from it
/// cannot fail.
#[verifier::external_type_specification]
#[verifier::external_body]
pub struct ExStdRng(StdRng);

/// Calls `Rng::random_range` on the range `0..=max`. Claimed of it: the
/// value lies in that range. Which value comes is chance, and the
/// generator's state after the call is left unsaid.
#[verifier::external_body]
fn random_at_most(rng: &mut StdRng, max: u64) -> (value: u64)
    ensures
        value <= max,
{
    rng.random_range(0..=max)
}

/// The largest value a sparkline of `height` rows can show.
pub fn max_sparkline_height(height: u16) -> (max: u64)
    ensures
        max == 8 * height,
{
    (height as u64) * 8
}

/// Random waveform data drawn from `rng`: one value per column, each at
/// most `max_value`.
pub fn random_waveform(rng: &mut StdRng, width: u16, max_value: u64) -> (data: Vec<u64>)
    ensures
        data@.len() == width,
        forall|i: int| 0 <= i < data@.len() ==> data@[i] <= max_value,
{
    let mut data: Vec<u64> = Vec::with_capacity(width as usize);
    let mut column: u16 = 0;
    while column < width
        invariant
            column <= width,
            data@.len() == column,
            forall|i: int| 0 <= i < data@.len() ==> data@[i] <= max_value,
        decreases width - column,
    {
        let value = random_at_most(rng, max_value);
        data.push(value);
        column = column + 1;
    }
    data
}

} // verus!
