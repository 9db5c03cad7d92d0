use sctd::table::{white_point, ScaledWhitePoint, WHITE_POINT_SCALE};
use sctd::temperature::{reset_temperature, HIGH_TEMP, LOW_TEMP};
use sctd::whitepoint::{blend_step, WHITE_POINT_ROWS};

const LITERAL_TABLE: [[f64; 3]; 20] = [
    [1.00000000, 0.18172716, 0.00000000],
    [1.00000000, 0.42322816, 0.00000000],
    [1.00000000, 0.54360078, 0.08679949],
    [1.00000000, 0.64373109, 0.28819679],
    [1.00000000, 0.71976951, 0.42860152],
    [1.00000000, 0.77987699, 0.54642268],
    [1.00000000, 0.82854786, 0.64816570],
    [1.00000000, 0.86860704, 0.73688797],
    [1.00000000, 0.90198230, 0.81465502],
    [1.00000000, 0.93853986, 0.88130458],
    [1.00000000, 0.97107439, 0.94305985],
    [1.00000000, 1.00000000, 1.00000000],
    [0.95160805, 0.96983355, 1.00000000],
    [0.91194747, 0.94470005, 1.00000000],
    [0.87906581, 0.92357340, 1.00000000],
    [0.85139976, 0.90559011, 1.00000000],
    [0.82782969, 0.89011714, 1.00000000],
    [0.80753191, 0.87667891, 1.00000000],
    [0.78988728, 0.86491137, 1.00000000],
    [0.77442176, 0.85453121, 1.00000000],
];

fn as_f64(n: u32) -> f64 {
    n as f64 / WHITE_POINT_SCALE as f64
}

#[test]
fn scaled_table_rebuilds_the_literal_factors_exactly() {
    for row in 0..WHITE_POINT_ROWS {
        let w = white_point(row);
        assert_eq!(as_f64(w.red), LITERAL_TABLE[row][0]);
        assert_eq!(as_f64(w.green), LITERAL_TABLE[row][1]);
        assert_eq!(as_f64(w.blue), LITERAL_TABLE[row][2]);
    }
}

#[test]
fn first_and_last_rows() {
    assert_eq!(white_point(0), ScaledWhitePoint { red: 100000000, green: 18172716, blue: 0 });
    assert_eq!(
        white_point(19),
        ScaledWhitePoint { red: 77442176, green: 85453121, blue: 100000000 }
    );
}

#[test]
fn row_eleven_is_neutral() {
    let n = WHITE_POINT_SCALE;
    assert_eq!(white_point(11), ScaledWhitePoint { red: n, green: n, blue: n });
}

#[test]
fn reset_falls_on_neutral_row() {
    let s = blend_step(reset_temperature());
    assert_eq!(s.weight, 0);
    assert_eq!(white_point(s.lower), white_point(11));
    assert_eq!(blend_step(HIGH_TEMP).lower, 11);
}

#[test]
fn night_row_is_warmer_than_day_row() {
    let night = white_point(blend_step(LOW_TEMP).lower);
    let day = white_point(blend_step(HIGH_TEMP).lower);
    assert_eq!(night.red, day.red);
    assert!(night.green < day.green);
    assert!(night.blue < day.blue);
}

#[test]
fn red_never_rises_and_blue_never_falls() {
    for row in 0..WHITE_POINT_ROWS - 1 {
        assert!(white_point(row + 1).red <= white_point(row).red);
        assert!(white_point(row).blue <= white_point(row + 1).blue);
    }
}

#[test]
fn channels_are_factors_at_most_one() {
    for row in 0..WHITE_POINT_ROWS {
        let w = white_point(row);
        assert!(w.red <= WHITE_POINT_SCALE && w.green <= WHITE_POINT_SCALE);
        assert!(w.blue <= WHITE_POINT_SCALE);
    }
}
