//! Schema versions: which versions this executor accepts, and which imply
//! the BaseContainer backend.

use vstd::prelude::*;
use crate::errors::{Logger, WxcError};
use crate::text::{line, push_str, to_owned_string};

verus! {

/// The supported schema range, compared on major.minor.
pub const SUPPORTED_VERSION: &'static str = ">=0.4, <=0.7";

/// The lower bound of [`SUPPORTED_VERSION`] alone; a version outside the
/// range that meets it is too new.
pub const SUPPORTED_MINIMUM: &'static str = ">=0.4";

/// The first schema version of the BaseContainer era.
pub const BASE_CONTAINER_MIN_VERSION: &'static str = "0.5.0";

/// What `semver::Version::parse` makes of a text: major, minor and patch
/// of the version, or `None` when the text is not a semantic version.
pub uninterp spec fn semver_version(text: Seq<char>) -> Option<(u64, u64, u64)>;

/// Calls `semver::Version::parse` and keeps major, minor and patch. Claims
/// that the outcome is the named function of the text, and that
/// `"0.5.0"` parses to `(0, 5, 0)`.
#[verifier::external_body]
pub(crate) fn parse_semver(text: &str) -> (r: Option<(u64, u64, u64)>)
    ensures
        r == semver_version(text@),
        text@ == BASE_CONTAINER_MIN_VERSION@ ==> r == Some((0u64, 5u64, 0u64)),
{
    match semver::Version::parse(text) {
        Ok(v) => Some((v.major, v.minor, v.patch)),
        Err(_) => None,
    }
}

/// What `semver::VersionReq::parse(req)` and then `matches` on the release
/// version `major.minor.patch` give: `None` when the requirement does not
/// parse.
pub uninterp spec fn semver_req_matches(req: Seq<char>, major: u64, minor: u64, patch: u64) -> Option<bool>;

/// Parses the requirement `req` with `semver::VersionReq::parse` and asks
/// `VersionReq::matches` about `semver::Version::new(major, minor, patch)`.
/// Claims that the outcome is the named function of the arguments, and
/// what the crate's comparator rules give for the two requirements used
/// here: `>=0.4, <=0.7` holds exactly of major 0 with minor 4 to 7, and
/// `>=0.4` exactly of a major above 0 or a minor of at least 4.
#[verifier::external_body]
pub(crate) fn version_req_matches(req: &str, major: u64, minor: u64, patch: u64) -> (r: Option<bool>)
    ensures
        r == semver_req_matches(req@, major, minor, patch),
        req@ == SUPPORTED_VERSION@ ==> r == Some(major == 0 && 4 <= minor && minor <= 7),
        req@ == SUPPORTED_MINIMUM@ ==> r == Some(major > 0 || minor >= 4),
{
    match semver::VersionReq::parse(req) {
        Ok(q) => Some(q.matches(&semver::Version::new(major, minor, patch))),
        Err(_) => None,
    }
}

/// Release versions in semver precedence: by major, then minor, then patch.
pub open spec fn version_at_least(a: (u64, u64, u64), b: (u64, u64, u64)) -> bool {
    a.0 > b.0 || (a.0 == b.0 && (a.1 > b.1 || (a.1 == b.1 && a.2 >= b.2)))
}

/// `semver::Version::new(a) >= semver::Version::new(b)`: the derived order
/// of `Version` on two versions without pre-release or build labels, which
/// is the order of (major, minor, patch).
#[verifier::external_body]
pub(crate) fn release_at_least(a: (u64, u64, u64), b: (u64, u64, u64)) -> (r: bool)
    ensures
        r == version_at_least(a, b),
{
    semver::Version::new(a.0, a.1, a.2) >= semver::Version::new(b.0, b.1, b.2)
}

/// Whether a parsed version is of the BaseContainer era (at least 0.5.0,
/// pre-release labels ignored).
pub open spec fn spec_base_container_era(parsed: Option<(u64, u64, u64)>) -> bool {
    match parsed {
        Some(v) => version_at_least(v, (0, 5, 0)),
        None => false,
    }
}

/// Whether the schema version `version` implies the BaseContainer backend:
/// a semantic version of at least 0.5.0, pre-release labels ignored; an
/// empty or unparseable version does not.
pub open spec fn spec_is_base_container_version(version: Seq<char>) -> bool {
    version.len() > 0 && spec_base_container_era(semver_version(version))
}

/// [`spec_base_container_era`], given what the version parser returned.
pub fn base_container_era(parsed: Option<(u64, u64, u64)>) -> (r: bool)
    ensures
        r == spec_base_container_era(parsed),
{
    match parsed {
        None => false,
        Some(v) => {
            let threshold = parse_semver(BASE_CONTAINER_MIN_VERSION);
            match threshold {
                Some(t) => release_at_least(v, t),
                None => false,
            }
        },
    }
}

/// Returns `true` if `version` is a BaseContainer-era schema version
/// (>= 0.5.0, pre-release labels stripped); `false` for an empty or
/// unparseable version.
pub fn is_base_container_version(version: &str) -> (r: bool)
    ensures
        r == spec_is_base_container_version(version@),
{
    if version.unicode_len() == 0 {
        return false;
    }
    base_container_era(parse_semver(version))
}

pub const MSG_INVALID_VERSION_PREFIX: &'static str = "Invalid schema version '";
pub const MSG_INVALID_VERSION_SUFFIX: &'static str = "': must be semver (e.g., 'X.Y.Z' or 'X.Y.Z-alpha')";
pub const MSG_VERSION_PREFIX: &'static str = "Config schema version '";
pub const MSG_VERSION_OLDER: &'static str = "' is older than supported (supported: >=0.4, <=0.7). Update your config.";
pub const MSG_VERSION_NEWER: &'static str = "' is newer than supported (supported: >=0.4, <=0.7). Upgrade wxc-exec.";

pub open spec fn invalid_version_msg(v: Seq<char>) -> Seq<char> {
    MSG_INVALID_VERSION_PREFIX@ + v + MSG_INVALID_VERSION_SUFFIX@
}

pub open spec fn older_version_msg(v: Seq<char>) -> Seq<char> {
    MSG_VERSION_PREFIX@ + v + MSG_VERSION_OLDER@
}

pub open spec fn newer_version_msg(v: Seq<char>) -> Seq<char> {
    MSG_VERSION_PREFIX@ + v + MSG_VERSION_NEWER@
}

/// The verdict on a schema version, given what the version parser made of
/// it: an empty version is accepted; otherwise it must be semver with
/// major 0 and minor 4 to 7 (patch and pre-release ignored). `None` is
/// acceptance, `Some` the refusal's message.
pub open spec fn spec_schema_check(version: Seq<char>, parsed: Option<(u64, u64, u64)>) -> Option<Seq<char>> {
    if version.len() == 0 {
        None
    } else {
        match parsed {
            None => Some(invalid_version_msg(version)),
            Some((major, minor, _)) => if major == 0 && 4 <= minor && minor <= 7 {
                None
            } else if !(major > 0 || minor >= 4) {
                Some(older_version_msg(version))
            } else {
                Some(newer_version_msg(version))
            },
        }
    }
}

/// The verdict on a schema version as the version parser reads it.
pub open spec fn spec_schema_version(version: Seq<char>) -> Option<Seq<char>> {
    spec_schema_check(version, semver_version(version))
}

/// Checks a schema version against the supported range, given what the
/// version parser returned for it; a refusal is logged.
pub fn check_schema_version(version: &str, parsed: Option<(u64, u64, u64)>, logger: &mut Logger) -> (r: Result<(), WxcError>)
    ensures
        match spec_schema_check(version@, parsed) {
            None => r is Ok && final(logger)@ == old(logger)@,
            Some(m) => r matches Err(e) && e.spec_message() == m && final(logger)@ == old(logger)@ + line(m),
        },
{
    if version.unicode_len() == 0 {
        return Ok(());
    }
    let (major, minor, patch) = match parsed {
        None => {
            let mut msg = to_owned_string(MSG_INVALID_VERSION_PREFIX);
            push_str(&mut msg, version);
            push_str(&mut msg, MSG_INVALID_VERSION_SUFFIX);
            logger.log_line(msg.as_str());
            return Err(WxcError::ConfigParse(msg));
        },
        Some(v) => v,
    };
    let supported = version_req_matches(SUPPORTED_VERSION, major, minor, patch);
    if supported == Some(true) {
        return Ok(());
    }
    let at_least_min = version_req_matches(SUPPORTED_MINIMUM, major, minor, patch);
    let mut msg = to_owned_string(MSG_VERSION_PREFIX);
    push_str(&mut msg, version);
    if at_least_min != Some(true) {
        push_str(&mut msg, MSG_VERSION_OLDER);
    } else {
        push_str(&mut msg, MSG_VERSION_NEWER);
    }
    logger.log_line(msg.as_str());
    Err(WxcError::ConfigParse(msg))
}

/// Validates that the schema version is supported by this executor
/// (major.minor only; patch and pre-release labels are ignored).
pub fn validate_schema_version(version: &str, logger: &mut Logger) -> (r: Result<(), WxcError>)
    ensures
        match spec_schema_version(version@) {
            None => r is Ok && final(logger)@ == old(logger)@,
            Some(m) => r matches Err(e) && e.spec_message() == m && final(logger)@ == old(logger)@ + line(m),
        },
{
    if version.unicode_len() == 0 {
        return Ok(());
    }
    let parsed = parse_semver(version);
    check_schema_version(version, parsed, logger)
}

} // verus!
