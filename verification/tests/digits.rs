use weather_model::digits::parse_u16;

#[test]
fn parse_u16_exact_values() {
    assert_eq!(parse_u16("0"), Some(0));
    assert_eq!(parse_u16("7"), Some(7));
    assert_eq!(parse_u16("+7"), Some(7));
    assert_eq!(parse_u16("113"), Some(113));
    assert_eq!(parse_u16("00113"), Some(113));
    assert_eq!(parse_u16("65535"), Some(65535));
    assert_eq!(parse_u16("+65535"), Some(65535));
    assert_eq!(parse_u16("0000000000000000000065535"), Some(65535));
}

#[test]
fn parse_u16_rejections() {
    assert_eq!(parse_u16(""), None);
    assert_eq!(parse_u16("+"), None);
    assert_eq!(parse_u16("++1"), None);
    assert_eq!(parse_u16("-1"), None);
    assert_eq!(parse_u16("1.5"), None);
    assert_eq!(parse_u16(" 1"), None);
    assert_eq!(parse_u16("1 "), None);
    assert_eq!(parse_u16("1a"), None);
    assert_eq!(parse_u16("a1"), None);
    assert_eq!(parse_u16("65536"), None);
    assert_eq!(parse_u16("999999999999999999999999999"), None);
    assert_eq!(parse_u16("１２３"), None);
}

#[test]
fn parse_u16_agrees_with_std() {
    let samples = [
        "", "+", "-", "0", "7", "+7", "-7", "113", "00113", "+00113", "65535", "65536", "70000",
        "999999999999999999999999999", "1a", "a1", " 1", "1 ", "1.5", "+-1", "１２３", "٣",
    ];
    for s in samples {
        assert_eq!(parse_u16(s), s.parse::<u16>().ok(), "input {s:?}");
    }
}
