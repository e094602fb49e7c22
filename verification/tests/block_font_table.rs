use bui::fixed::Fixed;
use bui::rect::Points;
use bui::strokes::glyph_strokes;

fn strokes(c: char, expected: &[(i64, i64, i64, i64)]) {
    let drawn = glyph_strokes(c);
    let expected: Vec<Points> = expected
        .iter()
        .map(|s| Points {
            p1x: Fixed::from_raw(s.0),
            p1y: Fixed::from_raw(s.1),
            p2x: Fixed::from_raw(s.2),
            p2y: Fixed::from_raw(s.3),
        })
        .collect();
    assert_eq!(drawn, expected);
}

#[test]
fn the_strokes_of_space() {
    strokes(' ', &[]);
}

#[test]
fn the_strokes_of_colon() {
    strokes(
        ':',
        &[
            (-8192, 40960, 8192, 24576),
            (-8192, -24576, 8192, -40960),
        ],
    );
}

#[test]
fn the_strokes_of_plus() {
    strokes(
        '+',
        &[
            (-65536, 8192, 65536, -8192),
            (-8192, 65536, 8192, 8192),
            (-8192, -8192, 8192, -65536),
        ],
    );
}

#[test]
fn the_strokes_of_minus() {
    strokes(
        '-',
        &[
            (-65536, 8192, 65536, -8192),
        ],
    );
}

#[test]
fn the_strokes_of_full_stop() {
    strokes(
        '.',
        &[
            (-8192, -49152, 8192, -65536),
        ],
    );
}

#[test]
fn the_strokes_of_slash() {
    strokes(
        '/',
        &[
            (-8192, 8192, 8192, -8192),
            (8192, 24576, 24576, 8192),
            (-24576, -8192, -8192, -24576),
            (24576, 40960, 40960, 24576),
            (-40960, -24576, -24576, -40960),
            (40960, 57344, 57344, 40960),
            (-57344, -40960, -40960, -57344),
        ],
    );
}

#[test]
fn the_strokes_of_digit_0() {
    strokes(
        '0',
        &[
            (-65536, 65536, -49152, -65536),
            (-49152, 65536, 49152, 49152),
            (-49152, -49152, 49152, -65536),
            (49152, 65536, 65536, -65536),
        ],
    );
}

#[test]
fn the_strokes_of_digit_1() {
    strokes(
        '1',
        &[
            (-8192, 65536, 8192, -65536),
        ],
    );
}

#[test]
fn the_strokes_of_digit_2() {
    strokes(
        '2',
        &[
            (-65536, 49152, -49152, 32768),
            (-49152, 65536, 49152, 49152),
            (49152, 49152, 65536, -16384),
            (0, -16384, 49152, -32768),
            (-49152, -32768, 0, -49152),
            (-65536, -49152, 65536, -65536),
        ],
    );
}

#[test]
fn the_strokes_of_digit_3() {
    strokes(
        '3',
        &[
            (-65536, 65536, 49152, 49152),
            (-65536, 8192, 49152, -8192),
            (-65536, -49152, 49152, -65536),
            (49152, 65536, 65536, -65536),
        ],
    );
}

#[test]
fn the_strokes_of_digit_4() {
    strokes(
        '4',
        &[
            (-65536, 65536, -49152, -8192),
            (-49152, 8192, 65536, -8192),
            (32768, 65536, 49152, 8192),
            (32768, -8192, 49152, -65536),
        ],
    );
}

#[test]
fn the_strokes_of_digit_5() {
    strokes(
        '5',
        &[
            (-65536, 65536, -49152, -8192),
            (-49152, 65536, 65536, 49152),
            (-49152, 8192, 49152, -8192),
            (-65536, -49152, 49152, -65536),
            (49152, 8192, 65536, -65536),
        ],
    );
}

#[test]
fn the_strokes_of_digit_6() {
    strokes(
        '6',
        &[
            (-65536, 65536, -49152, -65536),
            (-49152, 65536, 65536, 49152),
            (-49152, 8192, 49152, -8192),
            (-49152, -49152, 49152, -65536),
            (49152, 8192, 65536, -65536),
        ],
    );
}

#[test]
fn the_strokes_of_digit_7() {
    strokes(
        '7',
        &[
            (-65536, 65536, 49152, 49152),
            (49152, 65536, 65536, -65536),
        ],
    );
}

#[test]
fn the_strokes_of_digit_8() {
    strokes(
        '8',
        &[
            (-65536, 65536, -49152, -65536),
            (-49152, 65536, 49152, 49152),
            (-49152, 8192, 49152, -8192),
            (-49152, -49152, 49152, -65536),
            (49152, 65536, 65536, -65536),
        ],
    );
}

#[test]
fn the_strokes_of_digit_9() {
    strokes(
        '9',
        &[
            (-65536, 65536, -49152, -8192),
            (-49152, 65536, 49152, 49152),
            (-49152, 8192, 49152, -8192),
            (49152, 65536, 65536, -65536),
        ],
    );
}

#[test]
fn the_strokes_of_letter_a() {
    strokes(
        'A',
        &[
            (-65536, 65536, -49152, -65536),
            (-49152, 65536, 49152, 49152),
            (-49152, 16384, 49152, 0),
            (49152, 65536, 65536, -65536),
        ],
    );
}

#[test]
fn the_strokes_of_letter_b() {
    strokes(
        'B',
        &[
            (-65536, 65536, -49152, -65536),
            (-49152, 65536, 49152, 49152),
            (-49152, 8192, 49152, -8192),
            (-49152, -49152, 49152, -65536),
            (49152, 49152, 65536, 8192),
            (49152, -8192, 65536, -49152),
        ],
    );
}

#[test]
fn the_strokes_of_letter_c() {
    strokes(
        'C',
        &[
            (-65536, 65536, 65536, 49152),
            (-65536, 49152, -49152, -49152),
            (-65536, -49152, 65536, -65536),
        ],
    );
}

#[test]
fn the_strokes_of_letter_d() {
    strokes(
        'D',
        &[
            (-65536, 65536, -49152, -65536),
            (-49152, 65536, 49152, 49152),
            (-49152, -49152, 49152, -65536),
            (49152, 49152, 65536, -49152),
        ],
    );
}

#[test]
fn the_strokes_of_letter_e() {
    strokes(
        'E',
        &[
            (-65536, 65536, -49152, -65536),
            (-49152, 65536, 65536, 49152),
            (-49152, 8192, 65536, -8192),
            (-49152, -49152, 65536, -65536),
        ],
    );
}

#[test]
fn the_strokes_of_letter_f() {
    strokes(
        'F',
        &[
            (-65536, 65536, -49152, -65536),
            (-49152, 65536, 65536, 49152),
            (-49152, 8192, 65536, -8192),
        ],
    );
}

#[test]
fn the_strokes_of_letter_g() {
    strokes(
        'G',
        &[
            (-65536, 65536, -49152, -65536),
            (-49152, 65536, 49152, 49152),
            (-16384, 8192, 65536, -8192),
            (-49152, -49152, 16384, -65536),
            (16384, -8192, 32768, -65536),
        ],
    );
}

#[test]
fn the_strokes_of_letter_h() {
    strokes(
        'H',
        &[
            (-65536, 65536, -49152, -65536),
            (-49152, 8192, 49152, -8192),
            (49152, 65536, 65536, -65536),
        ],
    );
}

#[test]
fn the_strokes_of_letter_i() {
    strokes(
        'I',
        &[
            (-65536, 65536, 65536, 49152),
            (-8192, 49152, 8192, -49152),
            (-65536, -49152, 65536, -65536),
        ],
    );
}

#[test]
fn the_strokes_of_letter_j() {
    strokes(
        'J',
        &[
            (-65536, 65536, 65536, 49152),
            (-8192, 49152, 8192, -49152),
            (-65536, -49152, 8192, -65536),
        ],
    );
}

#[test]
fn the_strokes_of_letter_k() {
    strokes(
        'K',
        &[
            (-65536, 65536, -49152, -65536),
            (-49152, 16384, -32768, 0),
            (-49152, 0, -32768, -16384),
            (-32768, 32768, -16384, 16384),
            (-32768, -16384, -16384, -32768),
            (-16384, 49152, 0, 32768),
            (-16384, -32768, 0, -49152),
            (0, 65536, 16384, 49152),
            (0, -49152, 16384, -65536),
        ],
    );
}

#[test]
fn the_strokes_of_letter_l() {
    strokes(
        'L',
        &[
            (-65536, 65536, -49152, -65536),
            (-49152, -49152, 65536, -65536),
        ],
    );
}

#[test]
fn the_strokes_of_letter_n() {
    strokes(
        'N',
        &[
            (-65536, 65536, -49152, -65536),
            (49152, 65536, 65536, -65536),
            (-8192, 8192, 8192, -8192),
            (-24576, 24576, -8192, 8192),
            (8192, -8192, 24576, -24576),
            (-40960, 40960, -24576, 24576),
            (24576, -24576, 40960, -40960),
            (-57344, 57344, -40960, 40960),
            (40960, -40960, 57344, -57344),
        ],
    );
}

#[test]
fn the_strokes_of_letter_o() {
    strokes(
        'O',
        &[
            (-65536, 65536, -49152, -65536),
            (-49152, 65536, 49152, 49152),
            (-49152, -49152, 49152, -65536),
            (49152, 65536, 65536, -65536),
        ],
    );
}

#[test]
fn the_strokes_of_letter_p() {
    strokes(
        'P',
        &[
            (-65536, 65536, -49152, -65536),
            (-49152, 65536, 49152, 49152),
            (-49152, 8192, 49152, -8192),
            (49152, 65536, 65536, -8192),
        ],
    );
}

#[test]
fn the_strokes_of_letter_q() {
    strokes(
        'Q',
        &[
            (-65536, 65536, -49152, -65536),
            (-49152, 65536, 49152, 49152),
            (-49152, -49152, 32768, -65536),
            (49152, 65536, 65536, -32768),
            (49152, -49152, 65536, -65536),
            (32768, -32768, 49152, -49152),
            (16384, -16384, 32768, -32768),
        ],
    );
}

#[test]
fn the_strokes_of_letter_r() {
    strokes(
        'R',
        &[
            (-65536, 65536, -49152, -65536),
            (-49152, 65536, 49152, 49152),
            (-49152, 8192, 49152, -8192),
            (49152, 65536, 65536, -8192),
            (-32768, -8192, 0, -24576),
            (0, -24576, 32768, -40960),
            (32768, -40960, 65536, -57344),
        ],
    );
}

#[test]
fn the_strokes_of_letter_s() {
    strokes(
        'S',
        &[
            (-65536, 65536, -49152, -8192),
            (-49152, 65536, 65536, 49152),
            (-49152, 8192, 49152, -8192),
            (-65536, -49152, 49152, -65536),
            (49152, 8192, 65536, -65536),
        ],
    );
}

#[test]
fn the_strokes_of_letter_t() {
    strokes(
        'T',
        &[
            (-65536, 65536, 65536, 49152),
            (-8192, 49152, 8192, -65536),
        ],
    );
}

#[test]
fn the_strokes_of_letter_u() {
    strokes(
        'U',
        &[
            (-65536, 65536, -49152, -65536),
            (-49152, -49152, 49152, -65536),
            (49152, 65536, 65536, -65536),
        ],
    );
}

#[test]
fn the_strokes_of_letter_v() {
    strokes(
        'V',
        &[
            (-8192, -49152, 8192, -65536),
            (8192, -12288, 24576, -49152),
            (-24576, -12288, -8192, -49152),
            (24576, 24576, 40960, -12288),
            (-40960, 24576, -24576, -12288),
            (40960, 61440, 57344, 24576),
            (-57344, 61440, -40960, 24576),
        ],
    );
}

#[test]
fn the_strokes_of_letter_x() {
    strokes(
        'X',
        &[
            (-8192, 8192, 8192, -8192),
            (8192, 24576, 24576, 8192),
            (-24576, 24576, -8192, 8192),
            (8192, -8192, 24576, -24576),
            (-24576, -8192, -8192, -24576),
            (24576, 40960, 40960, 24576),
            (-40960, 40960, -24576, 24576),
            (24576, -24576, 40960, -40960),
            (-40960, -24576, -24576, -40960),
            (40960, 57344, 57344, 40960),
            (-57344, 57344, -40960, 40960),
            (40960, -40960, 57344, -57344),
            (-57344, -40960, -40960, -57344),
        ],
    );
}

#[test]
fn the_strokes_of_letter_y() {
    strokes(
        'Y',
        &[
            (-65536, 65536, -49152, -8192),
            (-49152, 8192, 49152, -8192),
            (49152, 65536, 65536, -8192),
            (-8192, -8192, 8192, -65536),
        ],
    );
}
