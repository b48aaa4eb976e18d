use omega_agi::text::replace_str;

#[test]
fn replace_with_an_empty_pattern_surrounds_every_character() {
    assert_eq!(replace_str("ab", "", "X"), "XaXbX");
    assert_eq!(replace_str("", "", "X"), "X");
    assert_eq!(replace_str("a-b-c", "-", "+"), "a+b+c");
}
