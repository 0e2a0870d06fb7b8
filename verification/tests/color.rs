use openlogi::color::Rgb;

#[test]
fn parses_and_round_trips_hex() {
    let color: Rgb = "8000ff".parse().unwrap();
    assert_eq!(color, Rgb::new(0x80, 0x00, 0xff));
    assert_eq!(color.packed(), 0x0080_00ff);
    assert_eq!(color.to_string(), "8000ff");
}

#[test]
fn accepts_uppercase_but_prints_lowercase() {
    let color: Rgb = "FF3B30".parse().unwrap();
    assert_eq!(color.to_string(), "ff3b30");
}

#[test]
fn rejects_wrong_length_prefix_and_non_hex() {
    for bad in ["fff", "ff00aa0", "#ff00aa", "red", ""] {
        assert!(bad.parse::<Rgb>().is_err(), "{bad:?} should not parse");
    }
}

#[test]
fn every_printed_color_parses_back_and_errors_keep_the_input() {
    for (r, g, b) in [(0, 0, 0), (1, 2, 3), (0xff, 0x10, 0xab)] {
        let color = Rgb::new(r, g, b);
        assert_eq!(Rgb::parse(&color.to_string()).unwrap(), color);
        assert_eq!(color.components(), (r, g, b));
    }
    let err = Rgb::parse("zz").unwrap_err();
    assert_eq!(err.input(), "zz");
    assert!(Rgb::parse("+fffff").is_err(), "a sign is not a hex digit");
    assert!("-fffff".parse::<Rgb>().is_err());
    assert_eq!(Rgb::white(), Rgb::new(0xff, 0xff, 0xff));
}
