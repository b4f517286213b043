use monitor_switcher::rotation::Rotation;
use monitor_switcher::xrandr::{parse_geometry, parse_position};

#[test]
fn test_parse_geometry() {
    assert_eq!(parse_geometry("1920x1080+0+0"), Some(((1920, 1080), (0, 0))));
    assert_eq!(parse_geometry("2560x1440+1920+0"), Some(((2560, 1440), (1920, 0))));
    assert_eq!(parse_geometry("1920x1080+0+1080"), Some(((1920, 1080), (0, 1080))));
}

#[test]
fn test_parse_position() {
    assert_eq!(parse_position("+0+0"), Some((0, 0)));
    assert_eq!(parse_position("+1920+0"), Some((1920, 0)));
    assert_eq!(parse_position("-100+200"), Some((-100, 200)));
}

#[test]
fn parse_geometry_without_position_is_at_origin() {
    assert_eq!(parse_geometry("1920x1080"), Some(((1920, 1080), (0, 0))));
}

#[test]
fn parse_geometry_rejects_malformed_strings() {
    assert_eq!(parse_geometry("1920"), None);
    assert_eq!(parse_geometry("1920x1080x3"), None);
    assert_eq!(parse_geometry("x1080+0+0"), None);
    assert_eq!(parse_geometry("ax1080+0+0"), None);
    assert_eq!(parse_geometry("1920x+0+0"), None);
}

#[test]
fn parse_position_rejects_malformed_strings() {
    assert_eq!(parse_position(""), None);
    assert_eq!(parse_position("12+3"), None);
    assert_eq!(parse_position("+12"), None);
    assert_eq!(parse_position("-+3"), None);
}

#[test]
fn rotation_round_trip_and_encoding() {
    assert_eq!(Rotation::from_xrandr("LEFT"), Rotation::Left);
    assert_eq!(Rotation::from_xrandr("right"), Rotation::Right);
    assert_eq!(Rotation::from_xrandr("Inverted"), Rotation::Inverted);
    assert_eq!(Rotation::from_xrandr("anything"), Rotation::Normal);
    assert_eq!(Rotation::Normal.to_xrandr_arg(), "normal");
    assert_eq!(Rotation::Left.to_xrandr_arg(), "left");
    assert_eq!(Rotation::Normal.to_u32(), 1);
    assert_eq!(Rotation::Right.to_u32(), 2);
    assert_eq!(Rotation::Inverted.to_u32(), 3);
    assert_eq!(Rotation::Left.to_u32(), 4);
}
