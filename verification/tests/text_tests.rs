use qr_code_styling::config::Color;
use qr_code_styling::text::{pieces_to_string, push_nat, push_units, Piece};

#[test]
fn units_are_written_in_pixels() {
    let cases: [(i128, &str); 8] = [
        (0, "0"), (1000, "1"), (12500, "12.5"), (-90000, "-90"), (33327, "33.327"), (100, "0.1"), (10, "0.01"), (-1, "-0.001"),
    ];
    for (v, t) in cases {
        let mut s = String::new();
        push_units(&mut s, v);
        assert_eq!(s, t);
    }
}

#[test]
fn naturals_and_pieces() {
    let mut s = String::new();
    push_nat(&mut s, 1234567890);
    assert_eq!(s, "1234567890");
    let v = vec![Piece::Lit("a"), Piece::Nat(7), Piece::HexByte(0x0f), Piece::Units(2500), Piece::Owned("z".to_string())];
    assert_eq!(pieces_to_string(&v), "a70f2.5z");
}

#[test]
fn color_hex() {
    assert_eq!(Color::new(255, 0, 16).to_hex(), "#ff0010");
    assert_eq!(Color::black().to_hex(), "#000000");
}
