use stft::WindowType;

#[test]
fn test_window_type_from_string() {
    assert_eq!(
        WindowType::from_str("Hanning").unwrap(),
        WindowType::Hanning
    );
    assert_eq!(
        WindowType::from_str("hanning").unwrap(),
        WindowType::Hanning
    );
    assert_eq!(WindowType::from_str("hann").unwrap(), WindowType::Hanning);
    assert_eq!(
        WindowType::from_str("blackman").unwrap(),
        WindowType::Blackman
    );
}

#[test]
fn test_window_type_to_string() {
    assert_eq!(WindowType::Hanning.to_string(), "Hanning");
}

#[test]
fn every_name_and_alias_is_parsed() {
    assert_eq!(WindowType::from_str("hamming"), Ok(WindowType::Hamming));
    assert_eq!(WindowType::from_str("nuttall"), Ok(WindowType::Nuttall));
    assert_eq!(WindowType::from_str("none"), Ok(WindowType::NoWindow));
    assert_eq!(WindowType::from_str("HANN"), Ok(WindowType::Hanning));
    assert_eq!(WindowType::from_str("BlackMan"), Ok(WindowType::Blackman));
    assert_eq!(WindowType::from_str("NONE"), Ok(WindowType::NoWindow));
}

#[test]
fn unknown_names_are_an_error() {
    assert_eq!(WindowType::from_str("triangular"), Err("no match"));
    assert_eq!(WindowType::from_str(""), Err("no match"));
    assert_eq!(WindowType::from_str(" hann"), Err("no match"));
    assert_eq!(WindowType::from_str("hannin"), Err("no match"));
}

#[test]
fn lowercase_lookup_does_not_fold_case() {
    assert_eq!(WindowType::from_lowercase("hann"), Ok(WindowType::Hanning));
    assert_eq!(WindowType::from_lowercase("Hann"), Err("no match"));
    assert_eq!(WindowType::from_lowercase("HANNING"), Err("no match"));
}

#[test]
fn case_is_folded_as_unicode_does() {
    assert_eq!(WindowType::from_str("blac\u{212A}man"), Ok(WindowType::Blackman));
}

#[test]
fn parse_through_the_standard_trait() {
    assert_eq!("Nuttall".parse::<WindowType>(), Ok(WindowType::Nuttall));
    assert_eq!("nope".parse::<WindowType>(), Err("no match"));
}

#[test]
fn display_names() {
    assert_eq!(WindowType::Hamming.to_string(), "Hamming");
    assert_eq!(WindowType::Blackman.to_string(), "Blackman");
    assert_eq!(WindowType::Nuttall.to_string(), "Nuttall");
    assert_eq!(WindowType::NoWindow.to_string(), "None");
}

#[test]
fn display_name_parses_back() {
    for window in [
        WindowType::Hanning,
        WindowType::Hamming,
        WindowType::Blackman,
        WindowType::Nuttall,
        WindowType::NoWindow,
    ] {
        assert_eq!(WindowType::from_str(&window.to_string()), Ok(window));
    }
}
