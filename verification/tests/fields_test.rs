use rust_henkilotunnus::henkilotunnus::Henkilotunnus;
use rust_henkilotunnus::henkilotunnus::ValidationError;

#[test]
fn fields_of_010181_900c() {
    let h = Henkilotunnus::from("010181-900C".to_string()).unwrap();
    assert_eq!(h.day_of_month(), 1);
    assert_eq!(h.month(), 1);
    assert_eq!(h.two_digit_year(), 81);
    assert_eq!(h.century_marker(), '-');
    assert_eq!(h.full_year(), 1981);
    assert_eq!(h.individual_number(), 900);
    assert_eq!(h.checksum_symbol(), 'C');
    assert_eq!(h.gender(), 'f');
    assert_eq!(h.raw(), "010181-900C");
}

#[test]
fn fields_of_311299_984y() {
    let h = Henkilotunnus::from("311299-984Y".to_string()).unwrap();
    assert_eq!(h.day_of_month(), 31);
    assert_eq!(h.month(), 12);
    assert_eq!(h.two_digit_year(), 99);
    assert_eq!(h.full_year(), 1999);
    assert_eq!(h.individual_number(), 984);
    assert_eq!(h.checksum_symbol(), 'Y');
    assert_eq!(h.gender(), 'f');
}

#[test]
fn fields_of_090921_987a() {
    let h = Henkilotunnus::from("090921-987A".to_string()).unwrap();
    assert_eq!(h.day_of_month(), 9);
    assert_eq!(h.month(), 9);
    assert_eq!(h.two_digit_year(), 21);
    assert_eq!(h.full_year(), 1921);
    assert_eq!(h.individual_number(), 987);
    assert_eq!(h.gender(), 'm');
}

#[test]
fn fields_of_plus_century() {
    let h = Henkilotunnus::from("020682+9287".to_string()).unwrap();
    assert_eq!(h.century_marker(), '+');
    assert_eq!(h.two_digit_year(), 82);
    assert_eq!(h.full_year(), 1882);
    assert_eq!(h.individual_number(), 928);
    assert_eq!(h.checksum_symbol(), '7');
}

#[test]
fn lowercase_input_is_normalized() {
    let h = Henkilotunnus::from("010100a963h".to_string()).unwrap();
    assert_eq!(h.raw(), "010100A963H");
    assert_eq!(h.day_of_month(), 1);
    assert_eq!(h.month(), 1);
    assert_eq!(h.two_digit_year(), 0);
    assert_eq!(h.century_marker(), 'A');
    assert_eq!(h.full_year(), 2000);
    assert_eq!(h.individual_number(), 963);
    assert_eq!(h.checksum_symbol(), 'H');
    assert_eq!(h.gender(), 'm');
}

#[test]
fn largest_individual_number() {
    let h = Henkilotunnus::from("010181-999K".to_string()).unwrap();
    assert_eq!(h.individual_number(), 999);
    assert_eq!(h.gender(), 'm');
}

#[test]
fn wrong_length_errors() {
    let e = Henkilotunnus::from("010181-900".to_string()).unwrap_err();
    assert_eq!(e, ValidationError::WrongLength);
    let e = Henkilotunnus::from("010181-900HA".to_string()).unwrap_err();
    assert_eq!(e, ValidationError::WrongLength);
    let e = Henkilotunnus::from("090921987A".to_string()).unwrap_err();
    assert_eq!(e, ValidationError::WrongLength);
    let e = Henkilotunnus::from("".to_string()).unwrap_err();
    assert_eq!(e, ValidationError::WrongLength);
}

#[test]
fn length_is_counted_in_characters() {
    // 11 characters but 12 bytes: the length check passes and the day
    // field, which holds the non-ASCII character, is rejected instead.
    let e = Henkilotunnus::from("ä10181-900C".to_string()).unwrap_err();
    assert_eq!(e, ValidationError::InvalidDayOfMonth);
}

#[test]
fn day_of_month_errors() {
    let e = Henkilotunnus::from("320100A963H".to_string()).unwrap_err();
    assert_eq!(e, ValidationError::InvalidDayOfMonth);
    let e = Henkilotunnus::from("000181-900C".to_string()).unwrap_err();
    assert_eq!(e, ValidationError::InvalidDayOfMonth);
    let e = Henkilotunnus::from("XX0181-900C".to_string()).unwrap_err();
    assert_eq!(e, ValidationError::InvalidDayOfMonth);
}

#[test]
fn month_errors() {
    let e = Henkilotunnus::from("311399-984Y".to_string()).unwrap_err();
    assert_eq!(e, ValidationError::InvalidMonth);
    let e = Henkilotunnus::from("040022A9456".to_string()).unwrap_err();
    assert_eq!(e, ValidationError::InvalidMonth);
}

#[test]
fn year_errors() {
    let e = Henkilotunnus::from("0101XX-900C".to_string()).unwrap_err();
    assert_eq!(e, ValidationError::InvalidYear);
}

#[test]
fn century_marker_errors() {
    let e = Henkilotunnus::from("010181X900C".to_string()).unwrap_err();
    assert_eq!(e, ValidationError::InvalidCenturyMarker);
    let e = Henkilotunnus::from("090921r987A".to_string()).unwrap_err();
    assert_eq!(e, ValidationError::InvalidCenturyMarker);
}

#[test]
fn individual_number_errors() {
    let e = Henkilotunnus::from("010181-000C".to_string()).unwrap_err();
    assert_eq!(e, ValidationError::InvalidIndividualNumber);
    let e = Henkilotunnus::from("010181-9XXC".to_string()).unwrap_err();
    assert_eq!(e, ValidationError::InvalidIndividualNumber);
}

#[test]
fn checksum_errors() {
    let e = Henkilotunnus::from("010181-900A".to_string()).unwrap_err();
    assert_eq!(e, ValidationError::ChecksumMismatch);
}
