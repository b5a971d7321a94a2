use hyprctl_tools::{Geometry, ParseGeometryError};

fn rect(x: i32, y: i32, width: u32, height: u32) -> Geometry {
    Geometry { x, y, width, height }
}

#[test]
fn parses_canonical_layout() {
    assert_eq!(Geometry::parse(b"10,20 300x400"), Ok(rect(10, 20, 300, 400)));
}

#[test]
fn parses_token_layout_with_newline() {
    assert_eq!(Geometry::parse(b"-5 7 30 40\n"), Ok(rect(-5, 7, 30, 40)));
}

#[test]
fn parses_extreme_values() {
    let text = b"-2147483648,2147483647 4294967295x0";
    assert_eq!(Geometry::parse(text), Ok(rect(i32::MIN, i32::MAX, u32::MAX, 0)));
}

#[test]
fn rejects_too_few_fields() {
    assert_eq!(Geometry::parse(b"1 2 3"), Err(ParseGeometryError::WrongArgumentsCount));
    assert_eq!(Geometry::parse(b""), Err(ParseGeometryError::WrongArgumentsCount));
    assert_eq!(Geometry::parse(b"1,2 3"), Err(ParseGeometryError::WrongArgumentsCount));
}

#[test]
fn rejects_too_many_fields() {
    assert_eq!(Geometry::parse(b"1 2 3 4 5"), Err(ParseGeometryError::WrongArgumentsCount));
}

#[test]
fn points_at_bad_field() {
    assert_eq!(Geometry::parse(b"a 2 3 4"), Err(ParseGeometryError::ParseArgument(0)));
    assert_eq!(Geometry::parse(b"1 2b 3 4"), Err(ParseGeometryError::ParseArgument(1)));
    assert_eq!(Geometry::parse(b"1 2 -3 4"), Err(ParseGeometryError::ParseArgument(2)));
    assert_eq!(Geometry::parse(b"1 2 3 4294967296"), Err(ParseGeometryError::ParseArgument(3)));
    assert_eq!(Geometry::parse(b"2147483648 2 3 4"), Err(ParseGeometryError::ParseArgument(0)));
    assert_eq!(Geometry::parse(b"- 2 3 4"), Err(ParseGeometryError::ParseArgument(0)));
}

#[test]
fn accepts_plus_sign() {
    assert_eq!(Geometry::parse(b"+1 -0 +3 4"), Ok(rect(1, 0, 3, 4)));
}

#[test]
fn formats_canonical_layout() {
    assert_eq!(rect(-12, 0, 1920, 1080).to_text(), b"-12,0 1920x1080".to_vec());
    assert_eq!(rect(i32::MIN, 5, 0, u32::MAX).to_text(), b"-2147483648,5 0x4294967295".to_vec());
}

#[test]
fn round_trips_random_rectangles() {
    let mut state: u64 = 0x9E37_79B9_7F4A_7C15;
    for _ in 0..1000 {
        state = state.wrapping_mul(6364136223846793005).wrapping_add(1442695040888963407);
        let a = (state >> 32) as u32;
        state = state.wrapping_mul(6364136223846793005).wrapping_add(1442695040888963407);
        let b = (state >> 32) as u32;
        let r = rect(a as i32, b as i32, b, a);
        assert_eq!(Geometry::parse(&r.to_text()), Ok(r));
    }
}

#[test]
fn degenerate_rectangles() {
    assert!(rect(0, 0, 2, 100).is_degenerate());
    assert!(rect(0, 0, 100, 1).is_degenerate());
    assert!(!rect(0, 0, 3, 3).is_degenerate());
}
