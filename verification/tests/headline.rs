use zotexon::export::headline::{FileHeadline, PREFIX, VERSION_PREFIX};
use zotexon::export::try_read_file_headline;

fn decode(line: &str) -> Option<u64> {
    FileHeadline::try_from(line)
        .ok()
        .map(|h| h.last_modified_version)
}

#[test]
fn export_test_file_headline_string_conversion() {
    let headline = FileHeadline {
        last_modified_version: 12345,
    };
    let headline_str: String = headline.into();

    let parsed_headline = FileHeadline::try_from(headline_str.as_str());
    assert!(parsed_headline.is_ok());
    let parsed_headline = parsed_headline.unwrap();
    assert_eq!(parsed_headline.last_modified_version, 12345);
}

#[test]
fn file_syncer_test_file_headline_string_conversion() {
    let headline = FileHeadline {
        last_modified_version: 12345,
    };
    let headline_str: String = headline.into();

    let parsed_headline = FileHeadline::try_from(headline_str.as_str());
    assert!(parsed_headline.is_ok());
    let parsed_headline = parsed_headline.unwrap();
    assert_eq!(parsed_headline.last_modified_version, 12345);
}

#[test]
fn headline_is_written_exactly() {
    let line: String = FileHeadline {
        last_modified_version: 12345,
    }
    .into();
    assert_eq!(
        line,
        "% *** THIS FILE WAS AUTO-GENERATED BY ZOTEX - DO NOT EDIT ***Last-Modified-Version: 12345"
    );
}

#[test]
fn headline_of_zero_and_of_the_largest_version() {
    let zero: String = FileHeadline {
        last_modified_version: 0,
    }
    .into();
    assert_eq!(zero, format!("{}{}0", PREFIX, VERSION_PREFIX));
    assert_eq!(decode(&zero), Some(0));

    let largest: String = FileHeadline {
        last_modified_version: u64::MAX,
    }
    .into();
    assert_eq!(
        largest,
        format!("{}{}18446744073709551615", PREFIX, VERSION_PREFIX)
    );
    assert_eq!(decode(&largest), Some(u64::MAX));
}

#[test]
fn headline_round_trip_on_many_versions() {
    for version in [1u64, 9, 10, 99, 100, 1234567890, u64::MAX - 1] {
        let line: String = FileHeadline {
            last_modified_version: version,
        }
        .into();
        assert_eq!(decode(&line), Some(version));
    }
}

#[test]
fn line_without_the_marker_is_no_headline() {
    assert_eq!(decode(""), None);
    assert_eq!(decode("Last-Modified-Version: 5"), None);
    assert_eq!(decode("@article{key,"), None);
    let shifted = format!(" {}{}5", PREFIX, VERSION_PREFIX);
    assert_eq!(decode(&shifted), None);
}

#[test]
fn line_with_a_malformed_body_is_no_headline() {
    assert_eq!(decode(PREFIX), None);
    assert_eq!(decode(&format!("{}{}", PREFIX, VERSION_PREFIX)), None);
    assert_eq!(decode(&format!("{}Version: 5", PREFIX)), None);
    assert_eq!(decode(&format!("{}{}abc", PREFIX, VERSION_PREFIX)), None);
    assert_eq!(decode(&format!("{}{}-5", PREFIX, VERSION_PREFIX)), None);
    assert_eq!(decode(&format!("{}{}5 6", PREFIX, VERSION_PREFIX)), None);
    assert_eq!(decode(&format!("{}{}+", PREFIX, VERSION_PREFIX)), None);
    assert_eq!(
        decode(&format!("{}{}18446744073709551616", PREFIX, VERSION_PREFIX)),
        None
    );
}

#[test]
fn white_space_around_the_parts_is_passed_over() {
    assert_eq!(
        decode(&format!("{}  {}   42  ", PREFIX, VERSION_PREFIX)),
        Some(42)
    );
    assert_eq!(
        decode(&format!("{}\t{}\u{a0}42", PREFIX, VERSION_PREFIX)),
        Some(42)
    );
}

#[test]
fn number_may_carry_a_plus_and_leading_zeros() {
    assert_eq!(decode(&format!("{}{}+42", PREFIX, VERSION_PREFIX)), Some(42));
    assert_eq!(decode(&format!("{}{}007", PREFIX, VERSION_PREFIX)), Some(7));
}

#[test]
fn repeated_marker_or_label_is_no_headline() {
    assert_eq!(
        decode(&format!("{}{}{}5", PREFIX, PREFIX, VERSION_PREFIX)),
        None
    );
    assert_eq!(
        decode(&format!("{}{}{}5", PREFIX, VERSION_PREFIX, VERSION_PREFIX)),
        None
    );
    assert_eq!(
        decode(&format!(
            "{}{}{}{}9",
            PREFIX, PREFIX, VERSION_PREFIX, VERSION_PREFIX
        )),
        None
    );
    assert_eq!(
        decode(&format!("{} {}{}5", PREFIX, PREFIX, VERSION_PREFIX)),
        None
    );
    assert_eq!(decode(&format!("{}{}5", PREFIX, VERSION_PREFIX)), Some(5));
}

#[test]
fn first_line_is_trimmed_before_it_is_decoded() {
    let line = format!("  {}{}77\r\n", PREFIX, VERSION_PREFIX);
    let headline = try_read_file_headline(&line);
    assert_eq!(headline.map(|h| h.last_modified_version), Some(77));
    assert!(try_read_file_headline("").is_none());
    assert!(try_read_file_headline("@book{x,\n").is_none());
}
