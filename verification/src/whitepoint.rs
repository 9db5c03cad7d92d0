use vstd::prelude::*;

verus! {

/// Number of rows in the white-point table.
pub const WHITE_POINT_ROWS: usize = 20;

/// Width, in kelvin, of the temperature band between two table rows.
pub const BAND_WIDTH: u32 = 500;

/// The temperatures that the table can blend: every one below this bound.
pub const TEMP_LIMIT: u32 = 9500;

/// Where a temperature falls in the white-point table: it blends row
/// `lower` with row `upper`, giving `upper` the weight `weight / BAND_WIDTH`.
#[derive(Clone, Copy, Debug, PartialEq, Eq)]
pub struct BlendStep {
    pub lower: usize,
    pub upper: usize,
    pub weight: u32,
}

/// The row a temperature starts from.
pub open spec fn spec_lower_row(temp: int) -> int {
    temp / 500
}

/// The blend of a temperature: its band, the next band, and how far into
/// its band it lies.
pub open spec fn spec_blend_step(temp: u32) -> BlendStep {
    BlendStep {
        lower: (temp / 500) as usize,
        upper: (temp / 500 + 1) as usize,
        weight: temp % 500,
    }
}

/// A temperature is blendable when both rows it reads are in the table.
pub open spec fn blendable(temp: int) -> bool {
    0 <= temp && spec_lower_row(temp) + 1 < WHITE_POINT_ROWS
}

/// The blend of `temp`: rows `temp / 500` and `temp / 500 + 1`, weight
/// `temp % 500` (the numerator of the ratio over `BAND_WIDTH`).
pub fn blend_step(temp: u32) -> (s: BlendStep)
    requires
        blendable(temp as int),
    ensures
        s == spec_blend_step(temp),
        s.upper == s.lower + 1,
        s.upper < WHITE_POINT_ROWS,
        s.weight < BAND_WIDTH,
        s.lower * 500 + s.weight == temp,
{
    let lower = (temp / BAND_WIDTH) as usize;
    BlendStep { lower, upper: lower + 1, weight: temp % BAND_WIDTH }
}

/// The blend of `temp` where the table holds both of its rows, and `None`
/// where it does not (every temperature from `TEMP_LIMIT` up).
pub fn checked_blend_step(temp: u32) -> (s: Option<BlendStep>)
    ensures
        s is Some <==> temp < TEMP_LIMIT,
        s is Some <==> blendable(temp as int),
        s matches Some(b) ==> b == spec_blend_step(temp),
{
    if temp < TEMP_LIMIT {
        Some(blend_step(temp))
    } else {
        None
    }
}

/// The numerator of the blend ratio `(temp % 500) / 500`, for any temperature.
pub fn ratio_numerator(temp: u32) -> (n: u32)
    ensures
        n == temp % 500,
        n < BAND_WIDTH,
{
    temp % BAND_WIDTH
}

/// A temperature can be blended exactly when it lies below `TEMP_LIMIT`.
pub proof fn lemma_blendable_iff_below_limit(temp: u32)
    ensures
        blendable(temp as int) <==> temp < TEMP_LIMIT,
{
}

/// The blend of a temperature gives it back: `lower * 500 + weight == temp`,
/// so two temperatures with the same blend are the same temperature.
pub proof fn lemma_blend_step_injective(a: u32, b: u32)
    requires
        blendable(a as int),
        blendable(b as int),
        spec_blend_step(a) == spec_blend_step(b),
    ensures
        a == b,
{
}

/// A temperature on a band boundary takes its lower row whole: weight 0.
pub proof fn lemma_band_boundary_unblended(k: u32)
    requires
        k < 19,
    ensures
        spec_blend_step((k * 500) as u32).lower == k,
        spec_blend_step((k * 500) as u32).weight == 0,
{
}

/// Raising a temperature never moves its blend to an earlier row.
pub proof fn lemma_lower_row_monotone(a: u32, b: u32)
    requires
        a <= b,
    ensures
        spec_blend_step(a).lower <= spec_blend_step(b).lower,
{
    assert(a / 500 <= b / 500) by (nonlinear_arith)
        requires a <= b;
}

} // verus!
