//! Version and version-range handling.
//!
//! Parsing of version strings and range expressions is done by the
//! `deno_semver` crate behind trusted wrappers; what a string parses to is
//! named by uninterpreted spec functions of the string alone. Precedence
//! between parsed versions is the library's own verified logic over the
//! plain data (major, minor, patch, prerelease identifiers) that the
//! parser hands out.

use vstd::prelude::*;

use crate::errors::InstallError;

verus! {

/// The plain data of a parsed version: major, minor, patch, and the
/// prerelease identifiers as byte strings.
pub type VersionKey = (int, int, int, Seq<Seq<u8>>);

/// Whether `deno_semver::npm::parse_npm_version` accepts the string.
pub uninterp spec fn npm_version_parses(s: Seq<char>) -> bool;

/// The version data that `deno_semver::npm::parse_npm_version` reads out of
/// the string: a function of the string alone.
pub uninterp spec fn npm_version_of(s: Seq<char>) -> VersionKey;

/// Whether `deno_semver::npm::parse_npm_version_req` accepts the string.
pub uninterp spec fn npm_req_parses(s: Seq<char>) -> bool;

/// Whether the requirement parses to a bare dist-tag (such as `latest`)
/// rather than a range: the result of `deno_semver::VersionReq::tag`.
pub uninterp spec fn npm_req_is_tag(s: Seq<char>) -> bool;

/// Whether the version satisfies the range, as
/// `deno_semver::VersionReq::matches` decides it: a function of the two
/// source strings alone.
pub uninterp spec fn npm_req_matches(range: Seq<char>, version: Seq<char>) -> bool;

/// `deno_semver::Version` carried through as an opaque value.
#[verifier::external_type_specification]
#[verifier::external_body]
pub struct ExDenoVersion(deno_semver::Version);

/// `deno_semver::VersionReq` carried through as an opaque value.
#[verifier::external_type_specification]
#[verifier::external_body]
pub struct ExDenoVersionReq(deno_semver::VersionReq);

/// A parsed semantic version.
///
/// Holds the parsed `deno_semver` value (for range matching), the plain
/// comparison data copied out of it, and the source string it was parsed
/// from. Values are only created by [`parse_version`], so the plain data
/// always equals `npm_version_of` of the source string.
pub struct SemVer {
    inner: deno_semver::Version,
    major: u64,
    minor: u64,
    patch: u64,
    pre: Vec<Vec<u8>>,
    src: String,
}

/// A parsed version range.
///
/// Holds the parsed `deno_semver` value and the source string it was
/// parsed from. Values are only created by the parsing functions here.
pub struct VersionRange {
    inner: deno_semver::VersionReq,
    src: String,
}

/// The views of a list of byte strings.
pub open spec fn pres_view(v: Seq<Vec<u8>>) -> Seq<Seq<u8>> {
    Seq::new(v.len(), |i: int| v[i]@)
}

impl SemVer {
    /// The string this version was parsed from.
    pub closed spec fn src(self) -> Seq<char> {
        self.src@
    }

    /// The plain comparison data of this version.
    pub closed spec fn key(self) -> VersionKey {
        (self.major as int, self.minor as int, self.patch as int, pres_view(self.pre@))
    }

    /// The comparison data is exactly what the parser read from the source.
    pub open spec fn wf(self) -> bool {
        self.key() == npm_version_of(self.src())
    }

    /// The string this version was parsed from.
    pub fn raw(&self) -> (r: &str)
        ensures
            r@ == self.src(),
    {
        self.src.as_str()
    }
}

impl VersionRange {
    /// The string this range was parsed from.
    pub closed spec fn src(self) -> Seq<char> {
        self.src@
    }

    /// The string this range was parsed from.
    pub fn raw(&self) -> (r: &str)
        ensures
            r@ == self.src(),
    {
        self.src.as_str()
    }
}

/// Relies on `deno_semver::npm::parse_npm_version`: parsing is
/// deterministic, so which strings it accepts and what plain data (major,
/// minor, patch, prerelease identifiers) the accepted ones carry are
/// functions of the string alone. The returned value couples the parsed
/// `deno_semver::Version` with the string it came from; the fields are
/// private, so that coupling holds of every `SemVer` in the program.
#[verifier::external_body]
fn parse_version_raw(s: &str) -> (r: Option<SemVer>)
    ensures
        r is Some <==> npm_version_parses(s@),
        r matches Some(v) ==> v.src() == s@ && v.key() == npm_version_of(s@),
{
    match deno_semver::npm::parse_npm_version(s) {
        Ok(v) => {
            let pre: Vec<Vec<u8>> = v.pre.iter().map(|p| p.as_bytes().to_vec()).collect();
            let (major, minor, patch) = (v.major, v.minor, v.patch);
            Some(SemVer { major, minor, patch, pre, inner: v, src: s.to_owned() })
        },
        Err(_) => None,
    }
}

/// Relies on `deno_semver::npm::parse_npm_version_req`: parsing is
/// deterministic, so which strings it accepts is a function of the string
/// alone. The returned value couples the parsed `deno_semver::VersionReq`
/// with the string it came from; the fields are private, so that coupling
/// holds of every `VersionRange` in the program.
#[verifier::external_body]
fn parse_range_raw(s: &str) -> (r: Option<VersionRange>)
    ensures
        r is Some <==> npm_req_parses(s@),
        r matches Some(q) ==> q.src() == s@,
{
    match deno_semver::npm::parse_npm_version_req(s) {
        Ok(q) => Some(VersionRange { inner: q, src: s.to_owned() }),
        Err(_) => None,
    }
}

/// Relies on `deno_semver::VersionReq::tag`: whether a requirement parsed
/// to a bare dist-tag rather than a range is decided during its
/// deterministic parse, hence a function of its source string alone.
#[verifier::external_body]
fn range_is_tag_raw(q: &VersionRange) -> (r: bool)
    ensures
        r == npm_req_is_tag(q.src()),
{
    q.inner.tag().is_some()
}

/// Relies on `deno_semver::VersionReq::matches`: it reads only the two
/// parsed values, each the deterministic parse of its source string, so
/// the answer is a function of the two source strings alone. `matches`
/// panics on a dist-tag requirement, so that case is excluded here.
#[verifier::external_body]
fn range_matches_raw(q: &VersionRange, v: &SemVer) -> (r: bool)
    requires
        !npm_req_is_tag(q.src()),
    ensures
        r == npm_req_matches(q.src(), v.src()),
{
    q.inner.matches(&v.inner)
}

/// Parses a version range. A string that does not parse as a range — a
/// dist-tag among them — is rejected with `InvalidConstraint`.
pub fn parse_range(raw: &str) -> (r: Result<VersionRange, InstallError>)
    ensures
        r is Ok <==> npm_req_parses(raw@) && !npm_req_is_tag(raw@),
        r matches Ok(q) ==> q.src() == raw@,
        r matches Err(e) ==> e == InstallError::InvalidConstraint,
{
    match parse_range_raw(raw) {
        Some(q) => {
            if range_is_tag_raw(&q) {
                Err(InstallError::InvalidConstraint)
            } else {
                Ok(q)
            }
        },
        None => Err(InstallError::InvalidConstraint),
    }
}

/// Parses a version string, rejecting what the parser refuses with
/// `InvalidVersion`.
pub fn parse_version(raw: &str) -> (r: Result<SemVer, InstallError>)
    ensures
        r is Ok <==> npm_version_parses(raw@),
        r matches Ok(v) ==> v.src() == raw@ && v.wf(),
        r matches Err(e) ==> e == InstallError::InvalidVersion,
{
    match parse_version_raw(raw) {
        Some(v) => Ok(v),
        None => Err(InstallError::InvalidVersion),
    }
}

/// Whether the version satisfies the range. Pure: no side effects.
pub fn matches(range: &VersionRange, version: &SemVer) -> (r: bool)
    requires
        !npm_req_is_tag(range.src()),
    ensures
        r == npm_req_matches(range.src(), version.src()),
{
    range_matches_raw(range, version)
}

/// An ASCII decimal digit.
pub open spec fn is_digit_byte(b: u8) -> bool {
    48 <= b <= 57
}

/// A numeric prerelease identifier: nonempty, digits only. Such
/// identifiers compare numerically; since the version grammar forbids
/// leading zeros in them, shorter-then-lexicographic byte order below
/// coincides with numeric order.
pub open spec fn ident_is_numeric(a: Seq<u8>) -> bool {
    a.len() > 0 && forall|i: int| 0 <= i < a.len() ==> is_digit_byte(a[i])
}

/// Lexicographic order on byte strings.
pub open spec fn bytes_lex_lt(a: Seq<u8>, b: Seq<u8>) -> bool
    decreases a.len(),
{
    if b.len() == 0 {
        false
    } else if a.len() == 0 {
        true
    } else {
        a[0] < b[0] || (a[0] == b[0] && bytes_lex_lt(a.skip(1), b.skip(1)))
    }
}

/// Shorter-then-lexicographic order on byte strings: the order of numeric
/// identifiers.
pub open spec fn shortlex_lt(a: Seq<u8>, b: Seq<u8>) -> bool {
    a.len() < b.len() || (a.len() == b.len() && bytes_lex_lt(a, b))
}

/// Precedence order between two prerelease identifiers: numeric ones
/// compare numerically and sort below alphanumeric ones; alphanumeric ones
/// compare lexically in ASCII order.
pub open spec fn ident_lt(a: Seq<u8>, b: Seq<u8>) -> bool {
    if ident_is_numeric(a) && ident_is_numeric(b) {
        shortlex_lt(a, b)
    } else if ident_is_numeric(a) {
        true
    } else if ident_is_numeric(b) {
        false
    } else {
        bytes_lex_lt(a, b)
    }
}

/// Precedence order between two nonempty prerelease identifier lists:
/// identifier by identifier from the left, a shorter list sorting below
/// any list it is a prefix of.
pub open spec fn pre_lt(a: Seq<Seq<u8>>, b: Seq<Seq<u8>>) -> bool
    decreases a.len(),
{
    if a.len() == 0 {
        b.len() > 0
    } else if b.len() == 0 {
        false
    } else if a[0] == b[0] {
        pre_lt(a.skip(1), b.skip(1))
    } else {
        ident_lt(a[0], b[0])
    }
}

/// Semantic-version precedence: major, minor, patch numerically; on a tie
/// a version with a prerelease sorts below one without, and two
/// prereleases compare by [`pre_lt`]. Build metadata takes no part.
pub open spec fn prec_lt(a: VersionKey, b: VersionKey) -> bool {
    if a.0 != b.0 {
        a.0 < b.0
    } else if a.1 != b.1 {
        a.1 < b.1
    } else if a.2 != b.2 {
        a.2 < b.2
    } else if a.3.len() == 0 {
        false
    } else if b.3.len() == 0 {
        true
    } else {
        pre_lt(a.3, b.3)
    }
}

proof fn lemma_lex_irrefl(a: Seq<u8>)
    ensures
        !bytes_lex_lt(a, a),
    decreases a.len(),
{
    if a.len() > 0 {
        lemma_lex_irrefl(a.skip(1));
    }
}

proof fn lemma_lex_trans(a: Seq<u8>, b: Seq<u8>, c: Seq<u8>)
    requires
        bytes_lex_lt(a, b),
        bytes_lex_lt(b, c),
    ensures
        bytes_lex_lt(a, c),
    decreases a.len(),
{
    if a.len() > 0 && b.len() > 0 && c.len() > 0 {
        if a[0] == b[0] && b[0] == c[0] {
            lemma_lex_trans(a.skip(1), b.skip(1), c.skip(1));
        }
    }
}

proof fn lemma_ident_irrefl(a: Seq<u8>)
    ensures
        !ident_lt(a, a),
{
    lemma_lex_irrefl(a);
}

proof fn lemma_ident_trans(a: Seq<u8>, b: Seq<u8>, c: Seq<u8>)
    requires
        ident_lt(a, b),
        ident_lt(b, c),
    ensures
        ident_lt(a, c),
{
    if ident_is_numeric(a) && ident_is_numeric(b) && ident_is_numeric(c) {
        if a.len() == b.len() && b.len() == c.len() {
            lemma_lex_trans(a, b, c);
        }
    } else if !ident_is_numeric(a) && !ident_is_numeric(b) && !ident_is_numeric(c) {
        lemma_lex_trans(a, b, c);
    }
}

proof fn lemma_pre_lt_trans(a: Seq<Seq<u8>>, b: Seq<Seq<u8>>, c: Seq<Seq<u8>>)
    requires
        pre_lt(a, b),
        pre_lt(b, c),
    ensures
        pre_lt(a, c),
    decreases a.len(),
{
    if a.len() == 0 {
        // b is nonempty, hence c is nonempty, hence pre_lt(a, c)
    } else {
        // a and b nonempty; pre_lt(b, c) forces c nonempty
        if a[0] == b[0] && b[0] == c[0] {
            lemma_pre_lt_trans(a.skip(1), b.skip(1), c.skip(1));
        } else if a[0] == b[0] {
            // ident_lt(b[0], c[0]) and a[0] == b[0]; a[0] == c[0] would make
            // ident_lt irreflexive, so the head case decides
            if a[0] == c[0] {
                lemma_ident_irrefl(c[0]);
            }
        } else if b[0] == c[0] {
            if a[0] == c[0] {
                lemma_ident_irrefl(c[0]);
            }
        } else {
            lemma_ident_trans(a[0], b[0], c[0]);
            if a[0] == c[0] {
                // ident_lt(a[0], b[0]) and ident_lt(b[0], a[0]): transitivity
                // would contradict irreflexivity
                lemma_ident_trans(b[0], c[0], b[0]);
                lemma_ident_irrefl(b[0]);
            }
        }
    }
}

proof fn lemma_pre_lt_irrefl(a: Seq<Seq<u8>>)
    ensures
        !pre_lt(a, a),
    decreases a.len(),
{
    if a.len() > 0 {
        lemma_pre_lt_irrefl(a.skip(1));
    }
}

/// No version precedes itself.
pub proof fn lemma_prec_lt_irrefl(a: VersionKey)
    ensures
        !prec_lt(a, a),
{
    if a.3.len() > 0 {
        lemma_pre_lt_irrefl(a.3);
    }
}

/// Precedence is transitive: versions are totally preordered by it.
pub proof fn lemma_prec_lt_trans(a: VersionKey, b: VersionKey, c: VersionKey)
    requires
        prec_lt(a, b),
        prec_lt(b, c),
    ensures
        prec_lt(a, c),
{
    if a.0 == b.0 && b.0 == c.0 && a.1 == b.1 && b.1 == c.1 && a.2 == b.2 && b.2 == c.2 {
        if a.3.len() > 0 && b.3.len() > 0 && c.3.len() > 0 {
            lemma_pre_lt_trans(a.3, b.3, c.3);
        }
    }
}

fn bytes_eq(a: &Vec<u8>, b: &Vec<u8>) -> (r: bool)
    ensures
        r == (a@ == b@),
{
    if a.len() != b.len() {
        return false;
    }
    let mut i: usize = 0;
    while i < a.len()
        invariant
            i <= a.len(),
            a@.len() == b@.len(),
            forall|j: int| 0 <= j < i ==> a@[j] == b@[j],
        decreases a.len() - i,
    {
        if a[i] != b[i] {
            return false;
        }
        i += 1;
    }
    proof {
        assert(a@ =~= b@);
    }
    true
}

fn is_numeric_exec(a: &Vec<u8>) -> (r: bool)
    ensures
        r == ident_is_numeric(a@),
{
    if a.len() == 0 {
        return false;
    }
    let mut i: usize = 0;
    while i < a.len()
        invariant
            i <= a.len(),
            forall|j: int| 0 <= j < i ==> is_digit_byte(a@[j]),
        decreases a.len() - i,
    {
        let d = a[i];
        if d < 48 || d > 57 {
            return false;
        }
        i += 1;
    }
    true
}

fn lex_lt_exec(a: &Vec<u8>, b: &Vec<u8>) -> (r: bool)
    ensures
        r == bytes_lex_lt(a@, b@),
{
    let mut i: usize = 0;
    proof {
        assert(a@.skip(0) =~= a@);
        assert(b@.skip(0) =~= b@);
    }
    while i < a.len() && i < b.len()
        invariant
            i <= a.len(),
            i <= b.len(),
            bytes_lex_lt(a@, b@) == bytes_lex_lt(a@.skip(i as int), b@.skip(i as int)),
        decreases a.len() - i,
    {
        if a[i] != b[i] {
            return a[i] < b[i];
        }
        proof {
            assert(a@.skip(i as int).skip(1) =~= a@.skip(i as int + 1));
            assert(b@.skip(i as int).skip(1) =~= b@.skip(i as int + 1));
        }
        i += 1;
    }
    a.len() < b.len()
}

fn ident_lt_exec(a: &Vec<u8>, b: &Vec<u8>) -> (r: bool)
    ensures
        r == ident_lt(a@, b@),
{
    let a_num = is_numeric_exec(a);
    let b_num = is_numeric_exec(b);
    if a_num && b_num {
        if a.len() != b.len() {
            a.len() < b.len()
        } else {
            lex_lt_exec(a, b)
        }
    } else if a_num {
        true
    } else if b_num {
        false
    } else {
        lex_lt_exec(a, b)
    }
}

fn pre_list_lt(a: &Vec<Vec<u8>>, b: &Vec<Vec<u8>>) -> (r: bool)
    ensures
        r == pre_lt(pres_view(a@), pres_view(b@)),
{
    let ghost av = pres_view(a@);
    let ghost bv = pres_view(b@);
    let mut i: usize = 0;
    proof {
        assert(av.skip(0) =~= av);
        assert(bv.skip(0) =~= bv);
    }
    while i < a.len() && i < b.len()
        invariant
            i <= a.len(),
            i <= b.len(),
            av == pres_view(a@),
            bv == pres_view(b@),
            pre_lt(av, bv) == pre_lt(av.skip(i as int), bv.skip(i as int)),
        decreases a.len() - i,
    {
        if !bytes_eq(&a[i], &b[i]) {
            return ident_lt_exec(&a[i], &b[i]);
        }
        proof {
            assert(av.skip(i as int).skip(1) =~= av.skip(i as int + 1));
            assert(bv.skip(i as int).skip(1) =~= bv.skip(i as int + 1));
        }
        i += 1;
    }
    a.len() < b.len()
}

/// Whether `a` precedes `b` in semantic-version precedence.
pub fn semver_lt(a: &SemVer, b: &SemVer) -> (r: bool)
    ensures
        r == prec_lt(a.key(), b.key()),
{
    if a.major != b.major {
        return a.major < b.major;
    }
    if a.minor != b.minor {
        return a.minor < b.minor;
    }
    if a.patch != b.patch {
        return a.patch < b.patch;
    }
    if a.pre.len() == 0 {
        return false;
    }
    if b.pre.len() == 0 {
        return true;
    }
    pre_list_lt(&a.pre, &b.pre)
}

} // verus!
