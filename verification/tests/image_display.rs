use image_sorter::image_display::{
    font_dimensions, parse_dimensions, place_image, DisplayError, ImageDisplay, Placement, Rect,
};

fn s(text: &str) -> String {
    text.to_string()
}

fn rect(x: u16, y: u16, width: u16, height: u16) -> Rect {
    Rect { x, y, width, height }
}

#[test]
fn search_paths_without_an_environment_path() {
    assert_eq!(
        ImageDisplay::search_paths(""),
        vec![
            s("/usr/lib/w3m/w3mimgdisplay"),
            s("/usr/libexec/w3m/w3mimgdisplay"),
            s("/usr/lib64/w3m/w3mimgdisplay"),
            s("/usr/libexec64/w3m/w3mimgdisplay"),
            s("/usr/local/libexec/w3m/w3mimgdisplay"),
        ]
    );
}

#[test]
fn search_paths_start_with_the_environment_path() {
    let paths = ImageDisplay::search_paths("/opt/w3m/w3mimgdisplay");
    assert_eq!(paths.len(), 6);
    assert_eq!(paths[0], "/opt/w3m/w3mimgdisplay");
    assert_eq!(paths[1], "/usr/lib/w3m/w3mimgdisplay");
}

#[test]
fn the_last_program_that_exists_is_taken() {
    let found = vec![(s("/a"), true), (s("/b"), false), (s("/c"), true), (s("/d"), false)];
    assert_eq!(ImageDisplay::new(found).unwrap().path(), "/c");
    assert_eq!(ImageDisplay::new(vec![(s("/a"), true)]).unwrap().path(), "/a");
}

#[test]
fn no_program_is_an_error() {
    assert_eq!(
        ImageDisplay::new(vec![(s("/a"), false), (s("/b"), false)]),
        Err(DisplayError::Unavailable)
    );
    assert_eq!(ImageDisplay::new(vec![]), Err(DisplayError::Unavailable));
}

#[test]
fn dimensions_are_the_first_two_fields() {
    assert_eq!(parse_dimensions("640 480"), Ok((640, 480)));
    assert_eq!(parse_dimensions("640 480\n"), Ok((640, 480)));
    assert_eq!(parse_dimensions(" \t640 480 \r\n"), Ok((640, 480)));
    assert_eq!(parse_dimensions("1 2 3"), Ok((1, 2)));
    assert_eq!(parse_dimensions("1 2 x"), Ok((1, 2)));
    assert_eq!(parse_dimensions("+7 007"), Ok((7, 7)));
    assert_eq!(parse_dimensions("4294967295 0"), Ok((4294967295, 0)));
}

#[test]
fn dimensions_need_two_fields() {
    assert_eq!(parse_dimensions(""), Err(DisplayError::WrongOutput));
    assert_eq!(parse_dimensions("640"), Err(DisplayError::WrongOutput));
    assert_eq!(parse_dimensions("  640\n"), Err(DisplayError::WrongOutput));
    assert_eq!(parse_dimensions("640\t480"), Err(DisplayError::WrongOutput));
}

#[test]
fn dimensions_need_numbers() {
    assert_eq!(parse_dimensions("640 x"), Err(DisplayError::InvalidNumber));
    assert_eq!(parse_dimensions("x 480"), Err(DisplayError::InvalidNumber));
    assert_eq!(parse_dimensions("640  480"), Err(DisplayError::InvalidNumber));
    assert_eq!(parse_dimensions("-1 480"), Err(DisplayError::InvalidNumber));
    assert_eq!(parse_dimensions("4294967296 1"), Err(DisplayError::InvalidNumber));
    assert_eq!(parse_dimensions("1 99999999999999999999"), Err(DisplayError::InvalidNumber));
    assert_eq!(parse_dimensions("+ 1"), Err(DisplayError::InvalidNumber));
}

#[test]
fn font_dimensions_divide_the_screen_by_its_cells() {
    assert_eq!(font_dimensions("798 598\n", rect(0, 0, 80, 24)), Ok((10, 25)));
    assert_eq!(font_dimensions("1918 1078", rect(0, 0, 213, 56)), Ok((9, 19)));
    assert_eq!(font_dimensions("0 0", rect(0, 0, 80, 24)), Ok((0, 0)));
}

#[test]
fn font_dimensions_fail_on_bad_output_or_an_empty_screen() {
    assert_eq!(font_dimensions("798", rect(0, 0, 80, 24)), Err(DisplayError::WrongOutput));
    assert_eq!(font_dimensions("a b", rect(0, 0, 80, 24)), Err(DisplayError::InvalidNumber));
    assert_eq!(font_dimensions("798 598", rect(0, 0, 0, 24)), Err(DisplayError::DoesNotFit));
    assert_eq!(font_dimensions("798 598", rect(0, 0, 80, 0)), Err(DisplayError::DoesNotFit));
    assert_eq!(font_dimensions("4294967294 1", rect(0, 0, 80, 24)), Err(DisplayError::DoesNotFit));
    assert_eq!(font_dimensions("4294967293 1", rect(0, 0, 1, 1)), Ok((4294967295, 3)));
}

#[test]
fn a_small_image_keeps_its_size() {
    assert_eq!(
        place_image(rect(1, 4, 50, 20), (10, 20), (300, 200)),
        Some(Placement { x: 20, y: 100, width: 300, height: 200 })
    );
}

#[test]
fn a_wide_image_is_fitted_to_the_width() {
    assert_eq!(
        place_image(rect(0, 0, 51, 41), (10, 20), (1000, 600)),
        Some(Placement { x: 10, y: 20, width: 500, height: 300 })
    );
}

#[test]
fn a_high_image_is_fitted_to_the_height() {
    assert_eq!(
        place_image(rect(0, 0, 51, 11), (10, 20), (400, 1000)),
        Some(Placement { x: 10, y: 20, width: 80, height: 200 })
    );
}

#[test]
fn an_image_is_fitted_both_ways_in_turn() {
    assert_eq!(
        place_image(rect(2, 3, 11, 6), (10, 10), (1000, 900)),
        Some(Placement { x: 30, y: 40, width: 55, height: 50 })
    );
    assert_eq!(
        place_image(rect(0, 0, 11, 6), (10, 10), (1001, 7)),
        Some(Placement { x: 10, y: 10, width: 100, height: 0 })
    );
}

#[test]
fn no_place_in_a_block_without_size_or_with_sizes_too_large() {
    assert_eq!(place_image(rect(0, 0, 0, 10), (10, 10), (1, 1)), None);
    assert_eq!(place_image(rect(0, 0, 10, 0), (10, 10), (1, 1)), None);
    assert_eq!(place_image(rect(1, 0, 10, 10), (u32::MAX, 1), (1, 1)), None);
    assert_eq!(place_image(rect(0, 1, 10, 10), (1, u32::MAX), (1, 1)), None);
    assert_eq!(place_image(rect(0, 0, 3, 3), (u32::MAX, 1), (1, 1)), None);
    assert_eq!(place_image(rect(0, 0, 3, 3), (1, u32::MAX), (1, 1)), None);
    assert_eq!(place_image(rect(0, 0, 65535, 3), (65535, 1), (u32::MAX, 2)), None);
    assert_eq!(
        place_image(rect(0, 0, 2, 2), (u32::MAX, u32::MAX), (7, 9)),
        Some(Placement { x: u32::MAX, y: u32::MAX, width: 7, height: 9 })
    );
}

#[test]
fn w3m_input_is_the_draw_command() {
    assert_eq!(
        ImageDisplay::w3m_input("/in/my image.png", rect(1, 4, 50, 20), (10, 20), (300, 200)),
        Ok(s("0;1;20;100;300;200;;;;;/in/my image.png\n4;\n3;\n"))
    );
    assert_eq!(
        ImageDisplay::w3m_input("a.jpg", rect(0, 0, 11, 6), (10, 10), (1001, 7)),
        Ok(s("0;1;10;10;100;0;;;;;a.jpg\n4;\n3;\n"))
    );
}

#[test]
fn w3m_input_fails_where_there_is_no_place() {
    assert_eq!(
        ImageDisplay::w3m_input("a.jpg", rect(0, 0, 0, 0), (10, 10), (1, 1)),
        Err(DisplayError::DoesNotFit)
    );
}

#[test]
fn image_query_asks_for_the_size() {
    assert_eq!(ImageDisplay::image_query("/in/a b.png"), "5;/in/a b.png\n");
}

#[test]
fn display_errors_have_messages() {
    assert_eq!(DisplayError::Unavailable.message(), "w3mimgdisplay is not available!");
    assert_eq!(DisplayError::WrongOutput.message(), "w3mimgdisplay wrong output");
    assert_eq!(DisplayError::InvalidNumber.message(), "w3mimgdisplay wrong output: not a number");
    assert_eq!(DisplayError::DoesNotFit.message(), "the image cannot be placed on this screen");
}
