//! Option value types owned by other subsystems, modeled here as closed sets
//! of variants or as validated newtypes over plain text, each with its own
//! parse/validate routine. The schema stores these typed values, so an
//! invalid value fails at parse time.

use vstd::prelude::*;
use crate::str_eq;

verus! {

// ---------------------------------------------------------------------------
// Character classes, over the character sequence of a string.
// ---------------------------------------------------------------------------

/// An ASCII letter or digit.
pub open spec fn is_alnum_char(c: char) -> bool {
    (97 <= c as u32 && c as u32 <= 122) || (65 <= c as u32 && c as u32 <= 90) || (48 <= c as u32
        && c as u32 <= 57)
}

/// A character allowed inside a package name: alphanumeric, `-`, `_` or `.`.
pub open spec fn is_name_char(c: char) -> bool {
    is_alnum_char(c) || c as u32 == 45 || c as u32 == 95 || c as u32 == 46
}

/// An ASCII digit.
pub open spec fn is_digit_char(c: char) -> bool {
    48 <= c as u32 && c as u32 <= 57
}

/// A character allowed in an index URL: anything but ASCII whitespace,
/// control characters and DEL.
pub open spec fn is_url_char(c: char) -> bool {
    c as u32 > 32 && c as u32 != 127
}

fn is_alnum(c: char) -> (r: bool)
    ensures
        r == is_alnum_char(c),
{
    let u = c as u32;
    (97 <= u && u <= 122) || (65 <= u && u <= 90) || (48 <= u && u <= 57)
}

fn is_name(c: char) -> (r: bool)
    ensures
        r == is_name_char(c),
{
    let u = c as u32;
    is_alnum(c) || u == 45 || u == 95 || u == 46
}

fn is_digit(c: char) -> (r: bool)
    ensures
        r == is_digit_char(c),
{
    let u = c as u32;
    48 <= u && u <= 57
}

fn is_url(c: char) -> (r: bool)
    ensures
        r == is_url_char(c),
{
    let u = c as u32;
    u > 32 && u != 127
}

// ---------------------------------------------------------------------------
// Package names.
// ---------------------------------------------------------------------------

/// A syntactically well-formed package name: nonempty, made of alphanumerics,
/// `-`, `_` and `.`, beginning and ending alphanumeric.
pub open spec fn package_name_ok(s: Seq<char>) -> bool {
    &&& s.len() > 0
    &&& is_alnum_char(s[0])
    &&& is_alnum_char(s[s.len() - 1])
    &&& forall|i: int| 0 <= i < s.len() ==> is_name_char(s[i])
}

/// A package name, validated for syntactic well-formedness only; its meaning
/// belongs to the naming subsystem.
#[derive(Debug, Clone, PartialEq, Eq)]
pub struct PackageName {
    pub text: String,
}

/// Decides `package_name_ok` for the text.
pub fn check_package_name(s: &str) -> (r: bool)
    ensures
        r == package_name_ok(s@),
{
    let n = s.unicode_len();
    if n == 0 {
        return false;
    }
    if !is_alnum(s.get_char(0)) {
        return false;
    }
    if !is_alnum(s.get_char(n - 1)) {
        return false;
    }
    let mut i: usize = 0;
    while i < n
        invariant
            n == s@.len(),
            i <= n,
            forall|j: int| 0 <= j < i ==> is_name_char(s@[j]),
        decreases n - i,
    {
        if !is_name(s.get_char(i)) {
            assert(!is_name_char(s@[i as int]));
            return false;
        }
        i += 1;
    }
    true
}

// ---------------------------------------------------------------------------
// Index URLs and find-links locations.
// ---------------------------------------------------------------------------

/// A syntactically well-formed index URL: nonempty, with no whitespace or
/// control characters.
pub open spec fn url_text_ok(s: Seq<char>) -> bool {
    &&& s.len() > 0
    &&& forall|i: int| 0 <= i < s.len() ==> is_url_char(s[i])
}

/// An index URL, validated for syntactic well-formedness only; its meaning
/// belongs to the distribution subsystem.
#[derive(Debug, Clone, PartialEq, Eq)]
pub struct IndexUrl {
    pub text: String,
}

/// Decides `url_text_ok` for the text.
pub fn check_url_text(s: &str) -> (r: bool)
    ensures
        r == url_text_ok(s@),
{
    let n = s.unicode_len();
    if n == 0 {
        return false;
    }
    let mut i: usize = 0;
    while i < n
        invariant
            n == s@.len(),
            i <= n,
            forall|j: int| 0 <= j < i ==> is_url_char(s@[j]),
        decreases n - i,
    {
        if !is_url(s.get_char(i)) {
            assert(!is_url_char(s@[i as int]));
            return false;
        }
        i += 1;
    }
    true
}

/// A nonempty piece of text.
pub open spec fn location_text_ok(s: Seq<char>) -> bool {
    s.len() > 0
}

/// A local or remote "find links" location: a URL or a directory path,
/// validated here only for being nonempty.
#[derive(Debug, Clone, PartialEq, Eq)]
pub struct FlatIndexLocation {
    pub text: String,
}

/// Decides `location_text_ok` for the text.
pub fn check_location_text(s: &str) -> (r: bool)
    ensures
        r == location_text_ok(s@),
{
    !s.is_empty()
}

// ---------------------------------------------------------------------------
// Interpreter versions.
// ---------------------------------------------------------------------------

/// A syntactically well-formed interpreter version: digit groups separated by
/// single dots, as in `3`, `3.11` or `3.11.4`.
pub open spec fn version_text_ok(s: Seq<char>) -> bool {
    &&& s.len() > 0
    &&& is_digit_char(s[0])
    &&& is_digit_char(s[s.len() - 1])
    &&& forall|i: int| 0 <= i < s.len() ==> (is_digit_char(s[i]) || s[i] as u32 == 46)
    &&& forall|i: int| 0 <= i < s.len() - 1 ==> !((#[trigger] s[i]) as u32 == 46 && s[i + 1] as u32 == 46)
}

/// A target interpreter version, validated for syntactic well-formedness
/// only; its meaning belongs to the toolchain subsystem.
#[derive(Debug, Clone, PartialEq, Eq)]
pub struct PythonVersion {
    pub text: String,
}

/// Decides `version_text_ok` for the text.
pub fn check_version_text(s: &str) -> (r: bool)
    ensures
        r == version_text_ok(s@),
{
    let n = s.unicode_len();
    if n == 0 {
        return false;
    }
    if !is_digit(s.get_char(0)) {
        return false;
    }
    if !is_digit(s.get_char(n - 1)) {
        return false;
    }
    let mut i: usize = 0;
    while i < n
        invariant
            n == s@.len(),
            i <= n,
            forall|j: int| 0 <= j < i ==> (is_digit_char(s@[j]) || s@[j] as u32 == 46),
            forall|j: int|
                0 <= j < i - 1 ==> !((#[trigger] s@[j]) as u32 == 46 && s@[j + 1] as u32 == 46),
        decreases n - i,
    {
        let c = s.get_char(i);
        if !is_digit(c) && (c as u32) != 46 {
            assert(!(is_digit_char(s@[i as int]) || s@[i as int] as u32 == 46));
            return false;
        }
        if i > 0 && (c as u32) == 46 && (s.get_char(i - 1) as u32) == 46 {
            assert(s@[i - 1] as u32 == 46 && s@[i as int] as u32 == 46);
            return false;
        }
        i += 1;
    }
    true
}

// ---------------------------------------------------------------------------
// Timestamps.
// ---------------------------------------------------------------------------

/// Names the instant an RFC 3339 timestamp text denotes, as seconds since the
/// Unix epoch with a subsecond nanosecond part, or `None` for text that is
/// not a well-formed timestamp. The result depends on the text alone.
pub uninterp spec fn rfc3339_instant(s: Seq<char>) -> Option<(i64, u32)>;

/// Relies on `chrono::DateTime::parse_from_rfc3339`, `timestamp` and
/// `timestamp_subsec_nanos`: parses RFC 3339 text into the instant it names,
/// deterministically in the text.
#[verifier::external_body]
pub(crate) fn parse_rfc3339(s: &str) -> (r: Option<(i64, u32)>)
    ensures
        r == rfc3339_instant(s@),
{
    match chrono::DateTime::parse_from_rfc3339(s) {
        Ok(dt) => Some((dt.timestamp(), dt.timestamp_subsec_nanos())),
        Err(_) => None,
    }
}

/// A cutoff instant: only package versions published at or before it are
/// eligible. The exact semantics are owned by the resolver subsystem; this
/// core only carries the instant as plain values.
#[derive(Debug, Clone, Copy, PartialEq, Eq, Structural)]
pub struct Timestamp {
    pub seconds: i64,
    pub nanos: u32,
}

// ---------------------------------------------------------------------------
// Closed enumerations owned by other subsystems.
// ---------------------------------------------------------------------------

/// Resolution strategy of the resolver subsystem.
#[derive(Debug, Clone, Copy, PartialEq, Eq, Structural)]
pub enum ResolutionMode {
    Highest,
    Lowest,
    LowestDirect,
}

/// The mode named by a token, if any: `highest`, `lowest` or `lowest-direct`.
pub open spec fn resolution_token(s: Seq<char>) -> Option<ResolutionMode> {
    if s == "highest"@ {
        Some(ResolutionMode::Highest)
    } else if s == "lowest"@ {
        Some(ResolutionMode::Lowest)
    } else if s == "lowest-direct"@ {
        Some(ResolutionMode::LowestDirect)
    } else {
        None
    }
}

/// Parses a resolution-strategy token.
pub fn parse_resolution_token(s: &str) -> (r: Option<ResolutionMode>)
    ensures
        r == resolution_token(s@),
{
    if str_eq(s, "highest") {
        Some(ResolutionMode::Highest)
    } else if str_eq(s, "lowest") {
        Some(ResolutionMode::Lowest)
    } else if str_eq(s, "lowest-direct") {
        Some(ResolutionMode::LowestDirect)
    } else {
        None
    }
}

/// Pre-release inclusion policy of the resolver subsystem.
#[derive(Debug, Clone, Copy, PartialEq, Eq, Structural)]
pub enum PreReleaseMode {
    Disallow,
    Allow,
    IfNecessary,
    Explicit,
    IfNecessaryOrExplicit,
}

/// The policy named by a token, if any.
pub open spec fn prerelease_token(s: Seq<char>) -> Option<PreReleaseMode> {
    if s == "disallow"@ {
        Some(PreReleaseMode::Disallow)
    } else if s == "allow"@ {
        Some(PreReleaseMode::Allow)
    } else if s == "if-necessary"@ {
        Some(PreReleaseMode::IfNecessary)
    } else if s == "explicit"@ {
        Some(PreReleaseMode::Explicit)
    } else if s == "if-necessary-or-explicit"@ {
        Some(PreReleaseMode::IfNecessaryOrExplicit)
    } else {
        None
    }
}

/// Parses a pre-release-policy token.
pub fn parse_prerelease_token(s: &str) -> (r: Option<PreReleaseMode>)
    ensures
        r == prerelease_token(s@),
{
    if str_eq(s, "disallow") {
        Some(PreReleaseMode::Disallow)
    } else if str_eq(s, "allow") {
        Some(PreReleaseMode::Allow)
    } else if str_eq(s, "if-necessary") {
        Some(PreReleaseMode::IfNecessary)
    } else if str_eq(s, "explicit") {
        Some(PreReleaseMode::Explicit)
    } else if str_eq(s, "if-necessary-or-explicit") {
        Some(PreReleaseMode::IfNecessaryOrExplicit)
    } else {
        None
    }
}

/// Annotation rendering style of the resolver's output.
#[derive(Debug, Clone, Copy, PartialEq, Eq, Structural)]
pub enum AnnotationStyle {
    Line,
    Split,
}

/// The style named by a token, if any: `line` or `split`.
pub open spec fn annotation_style_token(s: Seq<char>) -> Option<AnnotationStyle> {
    if s == "line"@ {
        Some(AnnotationStyle::Line)
    } else if s == "split"@ {
        Some(AnnotationStyle::Split)
    } else {
        None
    }
}

/// Parses an annotation-style token.
pub fn parse_annotation_style_token(s: &str) -> (r: Option<AnnotationStyle>)
    ensures
        r == annotation_style_token(s@),
{
    if str_eq(s, "line") {
        Some(AnnotationStyle::Line)
    } else if str_eq(s, "split") {
        Some(AnnotationStyle::Split)
    } else {
        None
    }
}

/// Index-selection strategy across multiple package indexes.
#[derive(Debug, Clone, Copy, PartialEq, Eq, Structural)]
pub enum IndexStrategy {
    FirstIndex,
    UnsafeFirstMatch,
    UnsafeBestMatch,
}

/// The strategy named by a token, if any.
pub open spec fn index_strategy_token(s: Seq<char>) -> Option<IndexStrategy> {
    if s == "first-index"@ {
        Some(IndexStrategy::FirstIndex)
    } else if s == "unsafe-first-match"@ {
        Some(IndexStrategy::UnsafeFirstMatch)
    } else if s == "unsafe-best-match"@ {
        Some(IndexStrategy::UnsafeBestMatch)
    } else {
        None
    }
}

/// Parses an index-strategy token.
pub fn parse_index_strategy_token(s: &str) -> (r: Option<IndexStrategy>)
    ensures
        r == index_strategy_token(s@),
{
    if str_eq(s, "first-index") {
        Some(IndexStrategy::FirstIndex)
    } else if str_eq(s, "unsafe-first-match") {
        Some(IndexStrategy::UnsafeFirstMatch)
    } else if str_eq(s, "unsafe-best-match") {
        Some(IndexStrategy::UnsafeBestMatch)
    } else {
        None
    }
}

/// Credential-helper policy for authenticating to indexes.
#[derive(Debug, Clone, Copy, PartialEq, Eq, Structural)]
pub enum KeyringProvider {
    Disabled,
    Subprocess,
}

/// The policy named by a token, if any: `disabled` or `subprocess`.
pub open spec fn keyring_provider_token(s: Seq<char>) -> Option<KeyringProvider> {
    if s == "disabled"@ {
        Some(KeyringProvider::Disabled)
    } else if s == "subprocess"@ {
        Some(KeyringProvider::Subprocess)
    } else {
        None
    }
}

/// Parses a credential-helper token.
pub fn parse_keyring_provider_token(s: &str) -> (r: Option<KeyringProvider>)
    ensures
        r == keyring_provider_token(s@),
{
    if str_eq(s, "disabled") {
        Some(KeyringProvider::Disabled)
    } else if str_eq(s, "subprocess") {
        Some(KeyringProvider::Subprocess)
    } else {
        None
    }
}

/// Link strategy for placing installed files.
#[derive(Debug, Clone, Copy, PartialEq, Eq, Structural)]
pub enum LinkMode {
    CloneLink,
    CopyLink,
    HardLink,
}

/// The strategy named by a token, if any: `clone`, `copy` or `hardlink`.
pub open spec fn link_mode_token(s: Seq<char>) -> Option<LinkMode> {
    if s == "clone"@ {
        Some(LinkMode::CloneLink)
    } else if s == "copy"@ {
        Some(LinkMode::CopyLink)
    } else if s == "hardlink"@ {
        Some(LinkMode::HardLink)
    } else {
        None
    }
}

/// Parses a link-mode token.
pub fn parse_link_mode_token(s: &str) -> (r: Option<LinkMode>)
    ensures
        r == link_mode_token(s@),
{
    if str_eq(s, "clone") {
        Some(LinkMode::CloneLink)
    } else if str_eq(s, "copy") {
        Some(LinkMode::CopyLink)
    } else if str_eq(s, "hardlink") {
        Some(LinkMode::HardLink)
    } else {
        None
    }
}

// ---------------------------------------------------------------------------
// Per-package build specifiers and build-backend settings.
// ---------------------------------------------------------------------------

/// Which packages a no-binary/only-binary rule applies to: all packages,
/// no package, or one named package.
#[derive(Debug, Clone, PartialEq, Eq)]
pub enum PackageNameSpecifier {
    All,
    NotAny,
    Package(PackageName),
}

/// The specifier a text denotes, if any: `:all:`, `:none:` or a well-formed
/// package name.
pub open spec fn specifier_of(s: String) -> Option<PackageNameSpecifier> {
    if s@ == ":all:"@ {
        Some(PackageNameSpecifier::All)
    } else if s@ == ":none:"@ {
        Some(PackageNameSpecifier::NotAny)
    } else if package_name_ok(s@) {
        Some(PackageNameSpecifier::Package(PackageName { text: s }))
    } else {
        None
    }
}

/// Parses a package-name specifier.
pub fn parse_specifier(s: &String) -> (r: Option<PackageNameSpecifier>)
    ensures
        r == specifier_of(*s),
{
    if str_eq(s.as_str(), ":all:") {
        Some(PackageNameSpecifier::All)
    } else if str_eq(s.as_str(), ":none:") {
        Some(PackageNameSpecifier::NotAny)
    } else if check_package_name(s.as_str()) {
        Some(PackageNameSpecifier::Package(PackageName { text: s.clone() }))
    } else {
        None
    }
}

/// Arbitrary key/value settings handed through to a build backend.
#[derive(Debug, Clone, PartialEq, Eq)]
pub struct ConfigSettings {
    pub entries: Vec<(String, String)>,
}

} // verus!
