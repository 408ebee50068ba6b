//! The toolchain version, as far as the launch arguments depend on it.

use vstd::prelude::*;
use vstd::string::*;

verus! {

/// The three numbers of a toolchain version.
#[derive(Clone, Copy, Debug, PartialEq, Eq, Structural)]
pub struct ToolVersion {
    pub major: u64,
    pub minor: u64,
    pub patch: u64,
}

/// Whether `a` comes strictly before `b`: by major, then minor, then patch.
pub open spec fn precedes(a: ToolVersion, b: ToolVersion) -> bool {
    a.major < b.major || (a.major == b.major && (a.minor < b.minor || (a.minor == b.minor
        && a.patch < b.patch)))
}

/// The first version that takes the current launch arguments: 0.1.35.
pub open spec fn current_format_version() -> ToolVersion {
    ToolVersion { major: 0, minor: 1, patch: 35 }
}

/// The two shapes that the launch arguments can take.
#[derive(Clone, Copy, Debug, PartialEq, Eq, Structural)]
pub enum LaunchShape {
    /// The arguments of toolchains before 0.1.35.
    Legacy,
    /// The arguments of toolchains from 0.1.35 on.
    Current,
}

/// The shape that a toolchain version takes: legacy strictly before 0.1.35,
/// current from 0.1.35 on.
pub open spec fn shape_for(version: ToolVersion) -> LaunchShape {
    if precedes(version, current_format_version()) {
        LaunchShape::Legacy
    } else {
        LaunchShape::Current
    }
}

/// The version that stands for a parse result: the numbers read, or 0.1.35
/// where nothing could be read.
pub open spec fn resolved_version(parsed: Option<(u64, u64, u64)>) -> ToolVersion {
    match parsed {
        Some(n) => ToolVersion { major: n.0, minor: n.1, patch: n.2 },
        None => current_format_version(),
    }
}

/// The version string without one leading `v`, if it has one.
pub open spec fn without_prefix(text: Seq<char>) -> Seq<char> {
    if text.len() > 0 && text[0] == 'v' {
        text.skip(1)
    } else {
        text
    }
}

/// The major, minor and patch numbers that `semver::Version::parse` reads
/// from a text, or `None` where it rejects the text.
pub uninterp spec fn semver_numbers(text: Seq<char>) -> Option<(u64, u64, u64)>;

/// Calls `semver::Version::parse`. Not proved: that the call depends on the
/// text alone, so that its outcome is `semver_numbers` of the text. Of an
/// accepted version only the `major`, `minor` and `patch` fields are handed on.
#[verifier::external_body]
fn parse_semver(text: &str) -> (r: Option<(u64, u64, u64)>)
    ensures
        r == semver_numbers(text@),
{
    match semver::Version::parse(text) {
        Ok(v) => Some((v.major, v.minor, v.patch)),
        Err(_) => None,
    }
}

impl ToolVersion {
    pub fn new(major: u64, minor: u64, patch: u64) -> (r: Self)
        ensures
            r == (ToolVersion { major, minor, patch }),
    {
        ToolVersion { major, minor, patch }
    }

    /// The version assumed where the active version cannot be read: 0.1.35.
    pub fn current_format() -> (r: Self)
        ensures
            r == current_format_version(),
    {
        ToolVersion { major: 0, minor: 1, patch: 35 }
    }

    /// Whether this version still takes the legacy launch arguments, that is
    /// whether it comes strictly before 0.1.35.
    pub fn uses_legacy_arguments(&self) -> (r: bool)
        ensures
            r == precedes(*self, current_format_version()),
    {
        self.major == 0 && (self.minor == 0 || (self.minor == 1 && self.patch < 35))
    }

    /// The shape of the launch arguments for this version.
    pub fn launch_shape(&self) -> (r: LaunchShape)
        ensures
            r == shape_for(*self),
    {
        if self.uses_legacy_arguments() {
            LaunchShape::Legacy
        } else {
            LaunchShape::Current
        }
    }
}

/// Turns a parse result into a version, falling back to 0.1.35.
pub fn version_or_default(parsed: Option<(u64, u64, u64)>) -> (r: ToolVersion)
    ensures
        r == resolved_version(parsed),
{
    match parsed {
        Some(n) => ToolVersion { major: n.0, minor: n.1, patch: n.2 },
        None => ToolVersion::current_format(),
    }
}

/// Drops one leading `v` from a version string.
pub fn strip_version_prefix(text: &str) -> (r: &str)
    ensures
        r@ == without_prefix(text@),
{
    let n: usize = text.unicode_len();
    if n > 0 && text.get_char(0) == 'v' {
        let rest = text.substring_char(1, n);
        assert(rest@ =~= text@.skip(1));
        rest
    } else {
        text
    }
}

/// Reads the toolchain version from the active version string: one leading
/// `v` is dropped, the rest is parsed as a semantic version, and a string
/// that does not parse counts as 0.1.35.
pub fn tooling_version(active_version: &str) -> (r: ToolVersion)
    ensures
        r == resolved_version(semver_numbers(without_prefix(active_version@))),
{
    version_or_default(parse_semver(strip_version_prefix(active_version)))
}

} // verus!
