use vstd::prelude::*;
use crate::whitepoint::{spec_blend_step, WHITE_POINT_ROWS};

verus! {

/// One unit of a channel is `1 / WHITE_POINT_SCALE`: the table's values have
/// eight decimal places, so they are held exactly as integers.
pub const WHITE_POINT_SCALE: u32 = 100000000;

/// The red, green and blue factors of a white point, in units of
/// `1 / WHITE_POINT_SCALE` (so `WHITE_POINT_SCALE` stands for a factor of 1).
#[derive(Clone, Copy, Debug, PartialEq, Eq)]
pub struct ScaledWhitePoint {
    pub red: u32,
    pub green: u32,
    pub blue: u32,
}

/// The white-point table, row by row: row `k` is blended for the
/// temperatures from `500 * k` to `500 * k + 499` kelvin.
pub open spec fn spec_white_point(row: int) -> ScaledWhitePoint {
    if row == 0 {
        ScaledWhitePoint { red: 100000000, green: 18172716, blue: 0 }
    } else if row == 1 {
        ScaledWhitePoint { red: 100000000, green: 42322816, blue: 0 }
    } else if row == 2 {
        ScaledWhitePoint { red: 100000000, green: 54360078, blue: 8679949 }
    } else if row == 3 {
        ScaledWhitePoint { red: 100000000, green: 64373109, blue: 28819679 }
    } else if row == 4 {
        ScaledWhitePoint { red: 100000000, green: 71976951, blue: 42860152 }
    } else if row == 5 {
        ScaledWhitePoint { red: 100000000, green: 77987699, blue: 54642268 }
    } else if row == 6 {
        ScaledWhitePoint { red: 100000000, green: 82854786, blue: 64816570 }
    } else if row == 7 {
        ScaledWhitePoint { red: 100000000, green: 86860704, blue: 73688797 }
    } else if row == 8 {
        ScaledWhitePoint { red: 100000000, green: 90198230, blue: 81465502 }
    } else if row == 9 {
        ScaledWhitePoint { red: 100000000, green: 93853986, blue: 88130458 }
    } else if row == 10 {
        ScaledWhitePoint { red: 100000000, green: 97107439, blue: 94305985 }
    } else if row == 11 {
        ScaledWhitePoint { red: 100000000, green: 100000000, blue: 100000000 }
    } else if row == 12 {
        ScaledWhitePoint { red: 95160805, green: 96983355, blue: 100000000 }
    } else if row == 13 {
        ScaledWhitePoint { red: 91194747, green: 94470005, blue: 100000000 }
    } else if row == 14 {
        ScaledWhitePoint { red: 87906581, green: 92357340, blue: 100000000 }
    } else if row == 15 {
        ScaledWhitePoint { red: 85139976, green: 90559011, blue: 100000000 }
    } else if row == 16 {
        ScaledWhitePoint { red: 82782969, green: 89011714, blue: 100000000 }
    } else if row == 17 {
        ScaledWhitePoint { red: 80753191, green: 87667891, blue: 100000000 }
    } else if row == 18 {
        ScaledWhitePoint { red: 78988728, green: 86491137, blue: 100000000 }
    } else {
        ScaledWhitePoint { red: 77442176, green: 85453121, blue: 100000000 }
    }
}

/// The neutral white point: every channel at factor 1.
pub open spec fn neutral() -> ScaledWhitePoint {
    ScaledWhitePoint { red: WHITE_POINT_SCALE, green: WHITE_POINT_SCALE, blue: WHITE_POINT_SCALE }
}

/// Row `row` of the white-point table.
pub fn white_point(row: usize) -> (w: ScaledWhitePoint)
    requires
        row < WHITE_POINT_ROWS,
    ensures
        w == spec_white_point(row as int),
{
    match row {
        0 => ScaledWhitePoint { red: 100000000, green: 18172716, blue: 0 },
        1 => ScaledWhitePoint { red: 100000000, green: 42322816, blue: 0 },
        2 => ScaledWhitePoint { red: 100000000, green: 54360078, blue: 8679949 },
        3 => ScaledWhitePoint { red: 100000000, green: 64373109, blue: 28819679 },
        4 => ScaledWhitePoint { red: 100000000, green: 71976951, blue: 42860152 },
        5 => ScaledWhitePoint { red: 100000000, green: 77987699, blue: 54642268 },
        6 => ScaledWhitePoint { red: 100000000, green: 82854786, blue: 64816570 },
        7 => ScaledWhitePoint { red: 100000000, green: 86860704, blue: 73688797 },
        8 => ScaledWhitePoint { red: 100000000, green: 90198230, blue: 81465502 },
        9 => ScaledWhitePoint { red: 100000000, green: 93853986, blue: 88130458 },
        10 => ScaledWhitePoint { red: 100000000, green: 97107439, blue: 94305985 },
        11 => ScaledWhitePoint { red: 100000000, green: 100000000, blue: 100000000 },
        12 => ScaledWhitePoint { red: 95160805, green: 96983355, blue: 100000000 },
        13 => ScaledWhitePoint { red: 91194747, green: 94470005, blue: 100000000 },
        14 => ScaledWhitePoint { red: 87906581, green: 92357340, blue: 100000000 },
        15 => ScaledWhitePoint { red: 85139976, green: 90559011, blue: 100000000 },
        16 => ScaledWhitePoint { red: 82782969, green: 89011714, blue: 100000000 },
        17 => ScaledWhitePoint { red: 80753191, green: 87667891, blue: 100000000 },
        18 => ScaledWhitePoint { red: 78988728, green: 86491137, blue: 100000000 },
        _ => ScaledWhitePoint { red: 77442176, green: 85453121, blue: 100000000 },
    }
}

/// Every channel of every row is a factor between 0 and 1.
pub proof fn lemma_channels_at_most_one(row: int)
    requires
        0 <= row < WHITE_POINT_ROWS,
    ensures
        spec_white_point(row).red <= WHITE_POINT_SCALE,
        spec_white_point(row).green <= WHITE_POINT_SCALE,
        spec_white_point(row).blue <= WHITE_POINT_SCALE,
{
}

/// Row 11 is neutral white; red is full in rows 0 to 11, blue is full in
/// rows 11 to 19, and only rows 0 and 1 have no blue at all.
pub proof fn lemma_table_shape(row: int)
    requires
        0 <= row < WHITE_POINT_ROWS,
    ensures
        spec_white_point(11) == neutral(),
        row <= 11 ==> spec_white_point(row).red == WHITE_POINT_SCALE,
        row >= 11 ==> spec_white_point(row).blue == WHITE_POINT_SCALE,
        spec_white_point(row).green == WHITE_POINT_SCALE <==> row == 11,
        spec_white_point(row).blue == 0 <==> row <= 1,
        spec_white_point(row).red > 0,
        spec_white_point(row).green > 0,
{
}

/// Between neighbouring rows red never rises, blue never falls, and green
/// rises up to row 11 and falls after it.
pub proof fn lemma_adjacent_rows(row: int)
    requires
        0 <= row,
        row + 1 < WHITE_POINT_ROWS,
    ensures
        spec_white_point(row + 1).red <= spec_white_point(row).red,
        spec_white_point(row).blue <= spec_white_point(row + 1).blue,
        row < 11 ==> spec_white_point(row).green < spec_white_point(row + 1).green,
        row >= 11 ==> spec_white_point(row + 1).green < spec_white_point(row).green,
{
}

/// Across the whole table, a hotter row has no more red and no less blue
/// than a cooler one.
pub proof fn lemma_rows_monotone(i: int, j: int)
    requires
        0 <= i <= j < WHITE_POINT_ROWS,
    ensures
        spec_white_point(j).red <= spec_white_point(i).red,
        spec_white_point(i).blue <= spec_white_point(j).blue,
        j <= 11 ==> spec_white_point(i).green <= spec_white_point(j).green,
        11 <= i ==> spec_white_point(j).green <= spec_white_point(i).green,
    decreases j - i,
{
    if i < j {
        lemma_rows_monotone(i, j - 1);
        lemma_adjacent_rows(j - 1);
    }
}

/// A temperature on a band boundary is the table row itself: its blend
/// gives the upper row no weight.
pub proof fn lemma_boundary_is_row(k: u32)
    requires
        k < 19,
    ensures
        spec_blend_step((k * 500) as u32).weight == 0,
        spec_white_point(spec_blend_step((k * 500) as u32).lower as int) == spec_white_point(k as int),
{
}

} // verus!
