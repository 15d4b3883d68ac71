//! Version comparison for the update check.
//!
//! The update check asks the package registry for the latest published
//! version and compares it with the version this package was built as.
//! Parsing and comparison are total and never abort a build: an
//! unparseable version string makes the comparison fall back to a
//! caller-supplied default, appropriate because the result only feeds an
//! advisory notification. Fetching the registry output is a collaborator's
//! concern; this module scans the captured text.

use vstd::prelude::*;

use crate::strings::{
    all_digits, dec_val, is_prefix, parse_u32, remove_char, split_on, split_string,
    str_starts_with, str_trim, trimmed, without_char,
};

verus! {

/// The version this package identifies itself as.
pub open spec fn current_version_text() -> Seq<char> {
    "0.1.0"@
}

/// The version string of this package.
pub fn current_version() -> (r: &'static str)
    ensures
        r@ == current_version_text(),
{
    "0.1.0"
}

/// A version string that does not parse as `<major>.<minor>.<patch>`.
#[derive(Debug, PartialEq, Eq, Structural)]
pub enum SemverError {
    Invalid,
}

/// A parsed semantic version.
#[derive(Clone, Copy, Debug, PartialEq, Eq, Structural)]
pub struct Version {
    pub major: u32,
    pub minor: u32,
    pub patch: u32,
}

/// A piece of a version string is a plain decimal number that fits the
/// component type.
pub open spec fn semver_piece_ok(p: Seq<char>) -> bool {
    p.len() >= 1 && all_digits(p) && dec_val(p) <= u32::MAX
}

/// How `<major>.<minor>.<patch>` parses: exactly three dot-separated
/// decimal components, or nothing.
pub open spec fn parse_semver(s: Seq<char>) -> Option<(nat, nat, nat)> {
    let ps = split_on(s, '.');
    if ps.len() == 3 && semver_piece_ok(ps[0]) && semver_piece_ok(ps[1]) && semver_piece_ok(ps[2]) {
        Some((dec_val(ps[0]), dec_val(ps[1]), dec_val(ps[2])))
    } else {
        None
    }
}

impl Version {
    /// Parses `<major>.<minor>.<patch>`.
    pub fn from_semver(s: &str) -> (r: Result<Version, SemverError>)
        ensures
            match parse_semver(s@) {
                Some(v) => r matches Ok(p) && p.major == v.0 && p.minor == v.1 && p.patch == v.2,
                None => r matches Err(SemverError::Invalid),
            },
    {
        let parts = split_string(s, '.');
        let ghost ps = split_on(s@, '.');
        if parts.len() != 3 {
            return Err(SemverError::Invalid);
        }
        proof {
            assert(ps[0] == parts@.map_values(|p: String| p@)[0]);
            assert(ps[1] == parts@.map_values(|p: String| p@)[1]);
            assert(ps[2] == parts@.map_values(|p: String| p@)[2]);
        }
        let major = match parse_u32(parts[0].as_str()) {
            Some(v) => v,
            None => {
                return Err(SemverError::Invalid);
            },
        };
        let minor = match parse_u32(parts[1].as_str()) {
            Some(v) => v,
            None => {
                return Err(SemverError::Invalid);
            },
        };
        let patch = match parse_u32(parts[2].as_str()) {
            Some(v) => v,
            None => {
                return Err(SemverError::Invalid);
            },
        };
        Ok(Version { major, minor, patch })
    }
}

/// Two version strings name the same release: both parse and agree on all
/// three components; if either fails to parse, the caller's default.
pub open spec fn spec_is_same(a: Seq<char>, b: Seq<char>, default_result: bool) -> bool {
    match (parse_semver(a), parse_semver(b)) {
        (Some(x), Some(y)) => x == y,
        _ => default_result,
    }
}

/// `new` names a strictly newer release than `old`: both parse and `new`
/// is lexicographically greater on (major, minor, patch); if either fails
/// to parse, the caller's default.
pub open spec fn spec_is_newer(
    old_s: Seq<char>,
    new_s: Seq<char>,
    default_result: bool,
) -> bool {
    match (parse_semver(old_s), parse_semver(new_s)) {
        (Some(o), Some(n)) => n.0 > o.0 || (n.0 == o.0 && (n.1 > o.1 || (n.1 == o.1 && n.2
            > o.2))),
        _ => default_result,
    }
}

/// Compares two version strings for equality of release, falling back to
/// `default_result` when either does not parse.
pub fn is_same(version1: &str, version2: &str, default_result: bool) -> (r: bool)
    ensures
        r == spec_is_same(version1@, version2@, default_result),
{
    let v1 = match Version::from_semver(version1) {
        Ok(v) => v,
        Err(_) => {
            return default_result;
        },
    };
    let v2 = match Version::from_semver(version2) {
        Ok(v) => v,
        Err(_) => {
            return default_result;
        },
    };
    v1.major == v2.major && v1.minor == v2.minor && v1.patch == v2.patch
}

/// Compares two version strings for newness, falling back to
/// `default_result` when either does not parse.
pub fn is_newer(old_string: &str, new_string: &str, default_result: bool) -> (r: bool)
    ensures
        r == spec_is_newer(old_string@, new_string@, default_result),
{
    let old_v = match Version::from_semver(old_string) {
        Ok(v) => v,
        Err(_) => {
            return default_result;
        },
    };
    let new_v = match Version::from_semver(new_string) {
        Ok(v) => v,
        Err(_) => {
            return default_result;
        },
    };
    if new_v.major > old_v.major {
        true
    } else if new_v.major == old_v.major {
        if new_v.minor > old_v.minor {
            true
        } else {
            new_v.minor == old_v.minor && new_v.patch > old_v.patch
        }
    } else {
        false
    }
}

/// Whether `version_string` names a release newer than this package.
pub fn is_newer_found(version_string: &str) -> (r: bool)
    ensures
        r == spec_is_newer(current_version_text(), version_string@, false),
{
    is_newer(current_version(), version_string, false)
}

/// Whether `version_string` names the same release as this package.
pub fn is_same_found(version_string: &str) -> (r: bool)
    ensures
        r == spec_is_same(current_version_text(), version_string@, false),
{
    is_same(current_version(), version_string, false)
}

/// The version quoted in a registry search line: the third
/// space-separated field with quotation marks removed.
pub open spec fn version_from_line(line: Seq<char>) -> Option<Seq<char>> {
    let ps = split_on(line, ' ');
    if ps.len() >= 3 {
        Some(without_char(ps[2], '"'))
    } else {
        None
    }
}

/// Extracts the quoted version from one registry search line.
pub fn get_version_from_output(line: &str) -> (r: Option<String>)
    ensures
        match version_from_line(line@) {
            Some(v) => r matches Some(s) && s@ == v,
            None => r is None,
        },
{
    let parts = split_string(line, ' ');
    let ghost ps = split_on(line@, ' ');
    if parts.len() >= 3 {
        proof {
            assert(ps[2] == parts@.map_values(|p: String| p@)[2]);
        }
        let version_part = &parts[2];
        Some(remove_char(version_part.as_str(), '"'))
    } else {
        None
    }
}

/// The prefix that marks the registry search line naming this project.
pub open spec fn search_line_marker() -> Seq<char> {
    "crossbundle = "@
}

/// The version reported by the first line of the captured search output
/// that, after trimming, names this project.
pub open spec fn scan_search_lines(lines: Seq<Seq<char>>) -> Option<Seq<char>>
    decreases lines.len(),
{
    if lines.len() == 0 {
        None
    } else if is_prefix(trimmed(lines[0]), search_line_marker()) {
        version_from_line(trimmed(lines[0]))
    } else {
        scan_search_lines(lines.skip(1))
    }
}

/// Scans captured registry search output for the line naming this
/// project, and extracts the version it quotes.
pub fn latest_version_from_search_output(stdout: &str) -> (r: Option<String>)
    ensures
        match scan_search_lines(split_on(stdout@, '\n')) {
            Some(v) => r matches Some(s) && s@ == v,
            None => r is None,
        },
{
    let lines = split_string(stdout, '\n');
    let ghost ls = split_on(stdout@, '\n');
    let n = lines.len();
    let mut i: usize = 0;
    proof {
        assert(ls.skip(0) =~= ls);
    }
    while i < n
        invariant
            i <= n,
            n == lines@.len(),
            ls == split_on(stdout@, '\n'),
            lines@.map_values(|p: String| p@) == ls,
            scan_search_lines(ls) == scan_search_lines(ls.skip(i as int)),
        decreases n - i,
    {
        let line = str_trim(lines[i].as_str());
        proof {
            assert(ls.skip(i as int)[0] == lines@.map_values(|p: String| p@)[i as int]);
            assert(ls.skip(i as int).skip(1) =~= ls.skip(i + 1));
        }
        if str_starts_with(line.as_str(), "crossbundle = ") {
            proof {
                assert(line@ == trimmed(ls.skip(i as int)[0]));
                assert(is_prefix(trimmed(ls.skip(i as int)[0]), search_line_marker()));
                assert(scan_search_lines(ls.skip(i as int)) == version_from_line(
                    trimmed(ls.skip(i as int)[0]),
                ));
            }
            return get_version_from_output(line.as_str());
        }
        i += 1;
    }
    proof {
        assert(ls.skip(n as int) =~= Seq::<Seq<char>>::empty());
    }
    None
}

} // verus!
