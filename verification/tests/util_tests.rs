use apprentice::util::{format_exec_output, parse_color, parse_colors};
use apprentice::AppError;

#[test]
fn test_parse_color() {
    assert_eq!(parse_color("( 0, 123, 255 )").unwrap(), [0, 123, 255]);
    assert_eq!(parse_color("(0,123,255)").unwrap(), [0, 123, 255]);
    assert!(matches!(parse_color("( 256, 123, 123 )").unwrap_err(), AppError::ColorParseError));
    assert!(matches!(parse_color("( 256, 123, -1 )").unwrap_err(), AppError::ColorParseError));
    assert!(matches!(
        parse_color("( 123, 123, 123, 123 )").unwrap_err(),
        AppError::ColorParseError
    ));
    assert!(matches!(parse_color("(123, 123)").unwrap_err(), AppError::ColorParseError));
    assert!(matches!(parse_color("asdfg").unwrap_err(), AppError::ColorParseError));
}

#[test]
fn test_parse_colors() {
    assert_eq!(parse_colors(" bg ( 0, 123, 255 ) ").unwrap(), (None, Some([0, 123, 255])));
    assert_eq!(parse_colors("fg(0,123,255)").unwrap(), (Some([0, 123, 255]), None));
    assert_eq!(
        parse_colors(" bg ( 255, 0, 123 ) ; fg ( 0, 123, 255 ) ").unwrap(),
        (Some([0, 123, 255]), Some([255, 0, 123]))
    );
    assert_eq!(
        parse_colors("fg(255,0,123);bg(0,123,255)").unwrap(),
        (Some([255, 0, 123]), Some([0, 123, 255]))
    );
    assert_eq!(
        parse_colors("fg(255,0,123);bg(0,123,255);bg(123,255,0)").unwrap(),
        (Some([255, 0, 123]), Some([123, 255, 0]))
    );
    assert!(matches!(
        parse_colors("fg(255,0,123);gg(0,123,255)").unwrap_err(),
        AppError::ColorParseError
    ));
    assert!(matches!(
        parse_colors("fg(255,0,123)gg(0,123,255)").unwrap_err(),
        AppError::ColorParseError
    ));
    assert!(matches!(
        parse_colors("fg(255,0,123)bg(0,123,255)").unwrap_err(),
        AppError::ColorParseError
    ));
    assert!(matches!(
        parse_colors("fg(255,0,123);bg(0,123,255);(123,255,0)").unwrap_err(),
        AppError::ColorParseError
    ));
}

#[test]
fn quoted_and_signed_color_values() {
    assert_eq!(
        parse_colors("'fg(255,0,125);bg(0,125,255)'").unwrap(),
        (Some([255, 0, 125]), Some([0, 125, 255]))
    );
    assert_eq!(
        parse_colors("\"fg(255,0,123);bg(0,123,255)\"").unwrap(),
        (Some([255, 0, 123]), Some([0, 123, 255]))
    );
    assert_eq!(parse_color("(+12, 0, 0)").unwrap(), [12, 0, 0]);
    assert!(matches!(parse_color("(, 0, 0)").unwrap_err(), AppError::ColorParseError));
}

#[test]
fn exec_output_is_labelled() {
    assert_eq!(format_exec_output("out\n", "err\n"), "STDOUT:\nout\n\nSTDERR:\nerr\n");
    assert_eq!(format_exec_output("", ""), "STDOUT:\n\nSTDERR:\n");
}
