//! RTSP version
//!
//! This module contains the definition of the `Version` type, intended to be
//! accessed through the root of the crate rather than this module.
//!
//! The `Version` type exposes constructors that represent the supported
//! revisions of the RTSP protocol.

use vstd::prelude::*;
use vstd::std_specs::cmp::PartialOrdSpec;

verus! {

/// Internal discriminant distinguishing the supported protocol revisions.
///
/// It is private and exhaustive: a `Version` can be obtained only through the
/// two published constructors, so the value space of `Version` stays closed.
/// Supporting a further protocol revision means adding a variant together
/// with a matching constructor, which is a source change and a version bump.
#[derive(PartialEq, Eq, Structural, PartialOrd, Ord, Copy, Clone, Hash, Debug)]
enum Rtsp {
    Rtsp10,
    Rtsp20,
}

/// Represents a version of the RTSP spec.
///
/// The only two values of this type are [`Version::rtsp_10`] and
/// [`Version::rtsp_20`]. A `Version` is a plain value: cheap to copy and
/// hash, with structural equality and a total order in declaration order,
/// and it renders to the canonical wire token (`"RTSP/1.0"` or `"RTSP/2.0"`).
#[derive(PartialEq, Eq, Structural, Ord, Copy, Clone, Hash, Debug)]
pub struct Version(Rtsp);

impl Version {
    /// The `RTSP/1.0` value, at the specification level.
    pub closed spec fn spec_rtsp_10() -> Version {
        Version(Rtsp::Rtsp10)
    }

    /// The `RTSP/2.0` value, at the specification level.
    pub closed spec fn spec_rtsp_20() -> Version {
        Version(Rtsp::Rtsp20)
    }

    /// The version number with one implied decimal place: 10 for `RTSP/1.0`
    /// and 20 for `RTSP/2.0`. Equality and ordering contracts are stated
    /// over this model.
    pub closed spec fn as_nat(self) -> nat {
        match self.0 {
            Rtsp::Rtsp10 => 10,
            Rtsp::Rtsp20 => 20,
        }
    }

    /// The canonical wire token of this version, as a sequence of characters.
    pub closed spec fn spec_render(self) -> Seq<char> {
        match self.0 {
            Rtsp::Rtsp10 => "RTSP/1.0"@,
            Rtsp::Rtsp20 => "RTSP/2.0"@,
        }
    }

    /// `RTSP/1.0`
    pub fn rtsp_10() -> (v: Version)
        ensures
            v == Version::spec_rtsp_10(),
            v.as_nat() == 10,
    {
        Version(Rtsp::Rtsp10)
    }

    /// `RTSP/2.0`
    pub fn rtsp_20() -> (v: Version)
        ensures
            v == Version::spec_rtsp_20(),
            v.as_nat() == 20,
    {
        Version(Rtsp::Rtsp20)
    }

    /// Renders the canonical protocol token: exactly `"RTSP/1.0"` or
    /// `"RTSP/2.0"`, with no surrounding whitespace or punctuation, so that
    /// a serializer printing it emits protocol-correct wire bytes.
    pub fn render(&self) -> (s: String)
        ensures
            s@ == self.spec_render(),
            *self == Version::spec_rtsp_10() ==> s@ == "RTSP/1.0"@,
            *self == Version::spec_rtsp_20() ==> s@ == "RTSP/2.0"@,
    {
        match self.0 {
            Rtsp::Rtsp10 => String::from_str("RTSP/1.0"),
            Rtsp::Rtsp20 => String::from_str("RTSP/2.0"),
        }
    }
}

impl Default for Version {
    /// When no version is specified, `RTSP/1.0` is assumed.
    fn default() -> (v: Version)
        ensures
            v == Version::spec_rtsp_10(),
            v.as_nat() == 10,
    {
        Version(Rtsp::Rtsp10)
    }
}

impl PartialOrd for Version {
    fn partial_cmp(&self, other: &Version) -> (r: Option<core::cmp::Ordering>) {
        match (self.0, other.0) {
            (Rtsp::Rtsp10, Rtsp::Rtsp10) => Some(core::cmp::Ordering::Equal),
            (Rtsp::Rtsp10, Rtsp::Rtsp20) => Some(core::cmp::Ordering::Less),
            (Rtsp::Rtsp20, Rtsp::Rtsp10) => Some(core::cmp::Ordering::Greater),
            (Rtsp::Rtsp20, Rtsp::Rtsp20) => Some(core::cmp::Ordering::Equal),
        }
    }
}

impl vstd::std_specs::cmp::PartialOrdSpecImpl for Version {
    open spec fn obeys_partial_cmp_spec() -> bool {
        true
    }

    open spec fn partial_cmp_spec(&self, other: &Version) -> Option<core::cmp::Ordering> {
        if self.as_nat() < other.as_nat() {
            Some(core::cmp::Ordering::Less)
        } else if self.as_nat() == other.as_nat() {
            Some(core::cmp::Ordering::Equal)
        } else {
            Some(core::cmp::Ordering::Greater)
        }
    }
}

/// The value space is closed: every `Version` is one of the two published
/// values, and the two are distinct values with version numbers 10 and 20.
pub proof fn lemma_version_closed(v: Version)
    ensures
        v == Version::spec_rtsp_10() || v == Version::spec_rtsp_20(),
        Version::spec_rtsp_10() != Version::spec_rtsp_20(),
        Version::spec_rtsp_10().as_nat() == 10,
        Version::spec_rtsp_20().as_nat() == 20,
{
}

/// Equality is structural: two versions are equal exactly when they carry
/// the same version number, so each published value equals itself and the
/// two distinct published values are unequal.
pub proof fn lemma_version_eq(a: Version, b: Version)
    ensures
        a == b <==> a.as_nat() == b.as_nat(),
{
}

/// The order follows declaration order: `RTSP/1.0` comes before `RTSP/2.0`,
/// and every version compares equal to itself, so `x <= x` holds of both
/// published values.
pub proof fn lemma_version_order()
    ensures
        Version::spec_rtsp_10().partial_cmp_spec(&Version::spec_rtsp_20())
            == Some(core::cmp::Ordering::Less),
        forall|v: Version| #![auto] v.partial_cmp_spec(&v) == Some(core::cmp::Ordering::Equal),
{
}

/// Rendering is deterministic: any two renderings of the same version are
/// identical, since `render` pins its result to `spec_render`.
pub proof fn lemma_render_deterministic(v: Version, s1: Seq<char>, s2: Seq<char>)
    requires
        s1 == v.spec_render(),
        s2 == v.spec_render(),
    ensures
        s1 == s2,
{
}

} // verus!
