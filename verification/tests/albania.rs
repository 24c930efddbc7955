use nidx::albania::{decode, is_valid, DateKind, FormatKind, NidError, CHECKSUM_CHARS};
use nidx::{Date, Sex};

const VALID_NID: &str = "J00101999W";

/// Builds a valid NID from 9 content bytes by appending the computed checksum.
fn make_nid(partial: &[u8; 9]) -> String {
    let symbols = CHECKSUM_CHARS.as_bytes();
    let total: usize = partial
        .iter()
        .enumerate()
        .map(|(i, &ch)| {
            let weight = if i == 0 { 1 } else { i };
            let value = if ch.is_ascii_digit() {
                (ch - b'0') as usize
            } else {
                symbols.iter().position(|&c| c == ch).unwrap()
            };
            weight * value
        })
        .sum();
    let check = symbols[total % 23] as char;
    format!("{}{check}", std::str::from_utf8(partial).unwrap())
}

#[test]
fn decode_valid() {
    let info = decode(VALID_NID).unwrap();
    assert_eq!(
        info.birthday,
        Date {
            year: 1990,
            month: 1,
            day: 1
        }
    );
    assert_eq!(info.sex, Sex::Male);
    assert!(info.is_national);
}

#[test]
fn decode_lowercase_input() {
    let info = decode("j00101999w").unwrap();
    assert_eq!(info.sex, Sex::Male);
    assert!(info.is_national);
}

#[test]
fn albania_is_valid_true() {
    assert!(is_valid(VALID_NID));
}

#[test]
fn albania_is_valid_false_empty() {
    assert!(!is_valid(""));
}

#[test]
fn albania_is_valid_false_wrong_format() {
    assert!(!is_valid("ABCDEFGHIJK"));
}

#[test]
fn albania_is_valid_false_bad_checksum() {
    let mut bad = VALID_NID.to_string();
    bad.replace_range(9..10, "Z");
    assert!(!is_valid(&bad));
}

#[test]
fn albania_error_too_short() {
    let err = decode("J00101").unwrap_err();
    assert_eq!(err, NidError::Format(FormatKind::InvalidLength));
}

#[test]
fn albania_error_too_long() {
    let err = decode("J0010199945X").unwrap_err();
    assert_eq!(err, NidError::Format(FormatKind::InvalidLength));
}

#[test]
fn error_invalid_decade_char() {
    let err = decode("Z001011230").unwrap_err();
    assert_eq!(err, NidError::Format(FormatKind::InvalidDecadeChar));
}

#[test]
fn error_non_digit_middle() {
    let err = decode("J0A101123R").unwrap_err();
    assert_eq!(err, NidError::Format(FormatKind::NonDigitCharacter));
}

#[test]
fn error_invalid_date_feb_30() {
    let result = decode("J00230123C");
    assert!(matches!(result, Err(NidError::InvalidDate(_))));
}

#[test]
fn decode_female_albanian() {
    let nid = make_nid(b"J05115001");
    let info = decode(&nid).unwrap();
    assert_eq!(info.sex, Sex::Female);
    assert!(info.is_national);
    assert_eq!(info.birthday.month, 1);
    assert_eq!(info.birthday.day, 15);
}

#[test]
fn decode_male_foreigner() {
    let nid = make_nid(b"J03101001");
    let info = decode(&nid).unwrap();
    assert_eq!(info.sex, Sex::Male);
    assert!(!info.is_national);
}

#[test]
fn decode_female_foreigner() {
    let nid = make_nid(b"J08101001");
    let info = decode(&nid).unwrap();
    assert_eq!(info.sex, Sex::Female);
    assert!(!info.is_national);
}

#[test]
fn error_invalid_month_code() {
    let nid = make_nid(b"J01301001");
    let result = decode(&nid);
    assert!(matches!(result, Err(NidError::Format(_))));
}

#[test]
fn leap_year_feb_29() {
    let nid = make_nid(b"K00229001");
    let info = decode(&nid).unwrap();
    assert_eq!(info.birthday.year, 2000);
    assert_eq!(info.birthday.month, 2);
    assert_eq!(info.birthday.day, 29);
}

#[test]
fn non_leap_year_feb_29_fails() {
    let nid = make_nid(b"J90229001");
    let result = decode(&nid);
    assert!(matches!(result, Err(NidError::InvalidDate(_))));
}

#[test]
fn sex_display() {
    assert_eq!(Sex::Male.to_string(), "M");
    assert_eq!(Sex::Female.to_string(), "F");
}

#[test]
fn date_display() {
    let d = Date {
        year: 1990,
        month: 1,
        day: 1,
    };
    assert_eq!(d.to_string(), "1990-01-01");
}

#[test]
fn albania_error_display() {
    assert_eq!(
        NidError::Format(FormatKind::InvalidLength).to_string(),
        "format error: NID must be exactly 10 characters"
    );
    assert_eq!(NidError::Checksum.to_string(), "checksum validation failed");
    assert_eq!(
        NidError::InvalidDate(DateKind::MonthOutOfRange { month: 13 }).to_string(),
        "invalid date: month 13 out of range"
    );
    assert_eq!(
        NidError::InvalidDate(DateKind::DayOutOfRange {
            year: 1990,
            month: 2,
            day: 30
        })
        .to_string(),
        "invalid date: day 30 is out of range for 1990-02"
    );
}
