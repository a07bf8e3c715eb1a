use user_access::color::{Color, DecodeError};

#[test]
fn opposite_swaps_the_sides() {
    assert_eq!(Color::Black.opposite(), Color::White);
    assert_eq!(Color::White.opposite(), Color::Black);
}

#[test]
fn opposite_twice_is_identity() {
    for side in [Color::Black, Color::White] {
        assert_eq!(side.opposite().opposite(), side);
        assert_ne!(side.opposite(), side);
    }
}

#[test]
fn from_str_reads_the_two_codes() {
    assert_eq!(Color::from_str("w"), Color::White);
    assert_eq!(Color::from_str("b"), Color::Black);
}

#[test]
fn decode_reads_the_two_codes() {
    assert_eq!(Color::decode("w"), Ok(Color::White));
    assert_eq!(Color::decode("b"), Ok(Color::Black));
}

#[test]
fn decode_refuses_every_other_token() {
    for token in ["", "x", "W", "B", "bw", "wb", "black", "white", " b", "b ", "\u{e9}"] {
        assert_eq!(Color::decode(token), Err(DecodeError::UnknownToken), "token {:?}", token);
    }
}

#[test]
fn codes_round_trip() {
    for side in [Color::Black, Color::White] {
        assert_eq!(Color::decode(side.as_str()), Ok(side));
        assert_eq!(Color::from_str(&side.to_text()), side);
    }
    assert_eq!(Color::Black.as_str(), "b");
    assert_eq!(Color::White.as_str(), "w");
    assert_eq!(Color::Black.to_text(), "b".to_string());
    assert_eq!(Color::White.to_text(), "w".to_string());
}

#[test]
fn default_is_a_placeholder() {
    let side: Color = Default::default();
    assert_eq!(side, Color::Black);
}
