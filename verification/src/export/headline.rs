//! The first line of the output file: it marks the file as generated and
//! records the library version that the rest of the file holds.

use crate::text::{
    append_decimal, chars_of, decimal, has_prefix, is_digit, lemma_decimal_digits,
    lemma_parse_decimal, lemma_trim_end_keeps_start, parse_u64, parse_u64_window,
    skip_whitespace, skip_whitespace_back, trim, trim_start,
};
use vstd::prelude::*;
use vstd::std_specs::convert::FromSpecImpl;
use vstd::std_specs::convert::TryFromSpecImpl;
use vstd::string::*;

verus! {

/// The marker that opens the first line of every file written here.
pub const PREFIX: &'static str = "% *** THIS FILE WAS AUTO-GENERATED BY ZOTEX - DO NOT EDIT ***";

/// What stands between the marker and the version number.
pub const VERSION_PREFIX: &'static str = "Last-Modified-Version: ";

/// The line that records `version`: the marker, the label, the number in
/// base ten.
pub open spec fn headline_text(version: u64) -> Seq<char> {
    PREFIX@ + VERSION_PREFIX@ + decimal(version as nat)
}

/// The version that `line` records, if it is a headline.
///
/// A headline begins with the marker, once. What follows the marker,
/// trimmed, begins with the label, once; what follows the label, trimmed, is
/// the number.
pub open spec fn headline_version(line: Seq<char>) -> Option<u64> {
    if !PREFIX@.is_prefix_of(line) {
        None
    } else {
        let part = trim(line.skip(PREFIX@.len() as int));
        if !VERSION_PREFIX@.is_prefix_of(part) {
            None
        } else {
            parse_u64(trim(part.skip(VERSION_PREFIX@.len() as int)))
        }
    }
}

/// Round trip: the line written for a version records that version.
pub proof fn lemma_headline_round_trip(version: u64)
    ensures
        headline_version(headline_text(version)) == Some(version),
{
    reveal_strlit("% *** THIS FILE WAS AUTO-GENERATED BY ZOTEX - DO NOT EDIT ***");
    reveal_strlit("Last-Modified-Version: ");
    lemma_decimal_digits(version as nat);
    let number = decimal(version as nat);
    let line = headline_text(version);
    let rest = VERSION_PREFIX@ + number;
    assert(line.subrange(0, PREFIX@.len() as int) =~= PREFIX@);
    assert(line.skip(PREFIX@.len() as int) =~= rest);
    assert(rest[0] == 'L');
    assert(rest.last() == number.last());
    assert(is_digit(number.last()));
    assert(trim(rest) == rest);
    assert(rest.subrange(0, VERSION_PREFIX@.len() as int) =~= VERSION_PREFIX@);
    assert(rest.skip(VERSION_PREFIX@.len() as int) =~= number);
    assert(is_digit(number[0]));
    assert(trim(number) == number);
    lemma_parse_decimal(version);
}

/// Robustness: a line that does not begin with the marker records nothing,
/// and a line records a version only where the marker is followed by the
/// label and the label by a number.
pub proof fn lemma_headline_rejects(line: Seq<char>)
    ensures
        !PREFIX@.is_prefix_of(line) ==> headline_version(line) is None,
        headline_version(line) is Some ==> {
            let part = trim(line.skip(PREFIX@.len() as int));
            &&& PREFIX@.is_prefix_of(line)
            &&& VERSION_PREFIX@.is_prefix_of(part)
            &&& parse_u64(trim(part.skip(VERSION_PREFIX@.len() as int))) == headline_version(line)
        },
{
}

/// Robustness: a line on which the marker stands twice records nothing,
/// whatever follows the second marker.
pub proof fn lemma_repeated_marker_rejected(rest: Seq<char>)
    ensures
        headline_version(PREFIX@ + PREFIX@ + rest) is None,
{
    reveal_strlit("% *** THIS FILE WAS AUTO-GENERATED BY ZOTEX - DO NOT EDIT ***");
    reveal_strlit("Last-Modified-Version: ");
    let line = PREFIX@ + PREFIX@ + rest;
    let after = PREFIX@ + rest;
    assert(line.skip(PREFIX@.len() as int) =~= after);
    assert(after[0] == '%');
    assert(trim_start(after) == after);
    lemma_trim_end_keeps_start(after);
    let part = trim(after);
    if VERSION_PREFIX@.is_prefix_of(part) {
        assert(part.subrange(0, VERSION_PREFIX@.len() as int)[0] == part[0]);
    }
}

/// Robustness: a line on which the label stands twice records nothing,
/// whatever follows the second label.
pub proof fn lemma_repeated_label_rejected(rest: Seq<char>)
    ensures
        headline_version(PREFIX@ + VERSION_PREFIX@ + VERSION_PREFIX@ + rest) is None,
{
    reveal_strlit("% *** THIS FILE WAS AUTO-GENERATED BY ZOTEX - DO NOT EDIT ***");
    reveal_strlit("Last-Modified-Version: ");
    let line = PREFIX@ + VERSION_PREFIX@ + VERSION_PREFIX@ + rest;
    let after = VERSION_PREFIX@ + VERSION_PREFIX@ + rest;
    assert(line.subrange(0, PREFIX@.len() as int) =~= PREFIX@);
    assert(line.skip(PREFIX@.len() as int) =~= after);
    assert(after[0] == 'L');
    assert(trim_start(after) == after);
    lemma_trim_end_keeps_start(after);
    let part = trim(after);
    if VERSION_PREFIX@.is_prefix_of(part) {
        let tail = part.skip(VERSION_PREFIX@.len() as int);
        assert(tail.len() > 0 ==> tail[0] == part[VERSION_PREFIX@.len() as int]);
        if tail.len() > 0 {
            assert(part[VERSION_PREFIX@.len() as int] == after[VERSION_PREFIX@.len() as int]);
            assert(after[VERSION_PREFIX@.len() as int] == 'L');
            assert(trim_start(tail) == tail);
            lemma_trim_end_keeps_start(tail);
            assert(trim(tail)[0] == 'L');
            if parse_u64(trim(tail)) is Some {
                let t = trim(tail);
                assert(is_digit(t[0]));
            }
        }
    }
}

/// The checkpoint: the library version that the file was last brought to.
pub struct FileHeadline {
    pub last_modified_version: u64,
}

impl FileHeadline {
    /// What `value` decodes to, as `try_from` returns it.
    pub open spec fn decoded(value: Seq<char>) -> Result<FileHeadline, ()> {
        match headline_version(value) {
            Some(version) => Ok(FileHeadline { last_modified_version: version }),
            None => Err(()),
        }
    }
}

impl From<FileHeadline> for String {
    /// Encodes the checkpoint as the file's first line, without a line end.
    fn from(headline: FileHeadline) -> (line: String)
        ensures
            line@ == headline_text(headline.last_modified_version),
    {
        let marker = String::from_str(PREFIX);
        let labelled = marker.concat(VERSION_PREFIX);
        append_decimal(labelled, headline.last_modified_version)
    }
}

impl FromSpecImpl<FileHeadline> for String {
    open spec fn obeys_from_spec() -> bool {
        false
    }

    open spec fn from_spec(headline: FileHeadline) -> String {
        arbitrary()
    }
}

impl<'a> TryFrom<&'a str> for FileHeadline {
    type Error = ();

    /// Decodes a line. A line that is no headline is an error, never a panic.
    fn try_from(value: &'a str) -> (decoded: Result<FileHeadline, ()>)
        ensures
            decoded == FileHeadline::decoded(value@),
    {
        let v = chars_of(value);
        let marker = chars_of(PREFIX);
        let label = chars_of(VERSION_PREFIX);
        let n = v.len();
        if !has_prefix(&v, 0, n, &marker) {
            assert(v@.subrange(0, n as int) =~= v@);
            return Err(());
        }
        assert(v@.subrange(0, n as int) =~= v@);
        assert(v@.subrange(marker.len() as int, n as int) =~= v@.skip(PREFIX@.len() as int));
        let a = skip_whitespace(&v, marker.len(), n);
        let b = skip_whitespace_back(&v, a, n);
        if !has_prefix(&v, a, b, &label) {
            return Err(());
        }
        assert(v@.subrange(a + label.len(), b as int) =~= v@.subrange(a as int, b as int).skip(
            VERSION_PREFIX@.len() as int,
        ));
        let c = skip_whitespace(&v, a + label.len(), b);
        let d = skip_whitespace_back(&v, c, b);
        match parse_u64_window(&v, c, d) {
            Some(version) => Ok(FileHeadline { last_modified_version: version }),
            None => Err(()),
        }
    }
}

impl<'a> TryFromSpecImpl<&'a str> for FileHeadline {
    open spec fn obeys_try_from_spec() -> bool {
        true
    }

    open spec fn try_from_spec(value: &'a str) -> Result<FileHeadline, ()> {
        FileHeadline::decoded(value@)
    }
}

} // verus!
