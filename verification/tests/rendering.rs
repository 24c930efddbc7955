use nidx::albania::{DateKind, FormatKind, NidError};
use nidx::{Date, Sex};

#[test]
fn date_is_zero_padded_to_four_two_two() {
    let d = Date { year: 7, month: 3, day: 9 };
    assert_eq!(d.to_string(), "0007-03-09");
    let d = Date { year: 0, month: 0, day: 0 };
    assert_eq!(d.to_string(), "0000-00-00");
    let d = Date { year: 812, month: 10, day: 31 };
    assert_eq!(d.to_string(), "0812-10-31");
    let d = Date { year: 2099, month: 12, day: 1 };
    assert_eq!(d.to_string(), "2099-12-01");
}

#[test]
fn date_wider_than_its_padding_is_written_in_full() {
    let d = Date { year: 12345, month: 123, day: 255 };
    assert_eq!(d.to_string(), "12345-123-255");
    let d = Date { year: 65535, month: 100, day: 10 };
    assert_eq!(d.to_string(), "65535-100-10");
}

#[test]
fn date_rendering_matches_std_formatting() {
    for year in [0u16, 9, 10, 99, 100, 999, 1000, 1990, 9999, 10000, 65535] {
        for month in [0u8, 1, 9, 10, 12, 99, 100, 255] {
            for day in [0u8, 1, 9, 10, 31, 200] {
                let d = Date { year, month, day };
                assert_eq!(d.to_string(), format!("{year:04}-{month:02}-{day:02}"));
            }
        }
    }
}

#[test]
fn sex_renders_as_one_letter() {
    assert_eq!(Sex::Male.to_string(), "M");
    assert_eq!(Sex::Female.to_string(), "F");
    assert_eq!(Sex::Male.to_string().len(), 1);
}

#[test]
fn albania_format_kind_messages() {
    assert_eq!(
        FormatKind::InvalidLength.to_string(),
        "NID must be exactly 10 characters"
    );
    assert_eq!(
        FormatKind::InvalidDecadeChar.to_string(),
        "first character out of range"
    );
    assert_eq!(
        FormatKind::NonDigitCharacter.to_string(),
        "characters 2-9 must be ASCII digits"
    );
    assert_eq!(
        FormatKind::InvalidChecksumChar.to_string(),
        "invalid checksum character"
    );
    assert_eq!(
        FormatKind::InvalidMonthCode { code: 13 }.to_string(),
        "invalid month code: 13"
    );
    assert_eq!(
        FormatKind::InvalidMonthCode { code: 0 }.to_string(),
        "invalid month code: 0"
    );
    assert_eq!(
        FormatKind::InvalidMonthCode { code: 7 }.to_string(),
        "invalid month code: 7"
    );
    assert_eq!(
        FormatKind::InvalidMonthCode { code: 255 }.to_string(),
        "invalid month code: 255"
    );
}

#[test]
fn albania_date_kind_messages() {
    assert_eq!(
        DateKind::MonthOutOfRange { month: 0 }.to_string(),
        "month 0 out of range"
    );
    assert_eq!(
        DateKind::MonthOutOfRange { month: 13 }.to_string(),
        "month 13 out of range"
    );
    assert_eq!(
        DateKind::DayOutOfRange {
            year: 1990,
            month: 2,
            day: 30
        }
        .to_string(),
        "day 30 is out of range for 1990-02"
    );
    assert_eq!(
        DateKind::DayOutOfRange {
            year: 2001,
            month: 11,
            day: 31
        }
        .to_string(),
        "day 31 is out of range for 2001-11"
    );
    assert_eq!(
        DateKind::DayOutOfRange {
            year: 5,
            month: 4,
            day: 0
        }
        .to_string(),
        "day 0 is out of range for 5-04"
    );
}

#[test]
fn albania_error_messages_name_the_family_first() {
    assert_eq!(
        NidError::Format(FormatKind::InvalidDecadeChar).to_string(),
        "format error: first character out of range"
    );
    assert_eq!(
        NidError::Format(FormatKind::NonDigitCharacter).to_string(),
        "format error: characters 2-9 must be ASCII digits"
    );
    assert_eq!(
        NidError::Format(FormatKind::InvalidChecksumChar).to_string(),
        "format error: invalid checksum character"
    );
    assert_eq!(
        NidError::Format(FormatKind::InvalidMonthCode { code: 99 }).to_string(),
        "format error: invalid month code: 99"
    );
    assert_eq!(
        NidError::InvalidDate(DateKind::DayOutOfRange {
            year: 1999,
            month: 2,
            day: 29
        })
        .to_string(),
        "invalid date: day 29 is out of range for 1999-02"
    );
}

#[test]
fn kosovo_messages() {
    assert_eq!(
        nidx::kosovo::FormatKind::InvalidLength.to_string(),
        "personal number must be exactly 10 digits"
    );
    assert_eq!(
        nidx::kosovo::FormatKind::NonDigitCharacter.to_string(),
        "all characters must be ASCII digits"
    );
    assert_eq!(
        nidx::kosovo::NidError::Checksum.to_string(),
        "checksum validation failed"
    );
}

#[test]
fn message_of_a_decoding_error() {
    let err = nidx::albania::decode("J00230123C").unwrap_err();
    assert_eq!(
        err.to_string(),
        "invalid date: day 30 is out of range for 1990-02"
    );
    let err = nidx::albania::decode("J01301001K").unwrap_err();
    assert_eq!(err.to_string(), "format error: invalid month code: 13");
}
