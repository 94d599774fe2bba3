//! Software versions and version filters.
//!
//! A [`SoftwareVersion`] is an ordered `(major, minor)` pair; versions are
//! compared lexicographically, major part first. A [`VersionFilter`]
//! restricts a field's nominal applicability to a range of versions and is
//! evaluated against a supplied current version, yielding a three-way
//! [`VersionSupport`] result so that callers can report *why* a version is
//! out of range.

use vstd::prelude::*;
use vstd::std_specs::cmp::PartialOrdSpec;

verus! {

/// An ordered software version: a `(major, minor)` pair, compared
/// lexicographically with the major part taking precedence.
#[derive(Clone, Copy, Debug, PartialEq, Eq, Structural)]
pub struct SoftwareVersion {
    pub major: u32,
    pub minor: u32,
}

impl SoftwareVersion {
    /// Strict lexicographic order: by major version, then by minor version.
    pub open spec fn spec_lt(self, other: Self) -> bool {
        self.major < other.major || (self.major == other.major && self.minor < other.minor)
    }

    pub fn new(major: u32, minor: u32) -> (v: Self)
        ensures
            v == (SoftwareVersion { major, minor }),
    {
        SoftwareVersion { major, minor }
    }
}

impl PartialOrd for SoftwareVersion {
    fn partial_cmp(&self, other: &Self) -> (r: Option<core::cmp::Ordering>) {
        if self.major < other.major {
            Some(core::cmp::Ordering::Less)
        } else if self.major > other.major {
            Some(core::cmp::Ordering::Greater)
        } else if self.minor < other.minor {
            Some(core::cmp::Ordering::Less)
        } else if self.minor > other.minor {
            Some(core::cmp::Ordering::Greater)
        } else {
            Some(core::cmp::Ordering::Equal)
        }
    }
}

impl vstd::std_specs::cmp::PartialOrdSpecImpl for SoftwareVersion {
    open spec fn obeys_partial_cmp_spec() -> bool {
        true
    }

    open spec fn partial_cmp_spec(&self, other: &Self) -> Option<core::cmp::Ordering> {
        if self.spec_lt(*other) {
            Some(core::cmp::Ordering::Less)
        } else if other.spec_lt(*self) {
            Some(core::cmp::Ordering::Greater)
        } else {
            Some(core::cmp::Ordering::Equal)
        }
    }
}

/// The outcome of evaluating a [`VersionFilter`] against a current version:
/// either the version is inside the filter's range, or it lies below the
/// minimum bound, or above the maximum bound.
#[derive(Clone, Copy, Debug, PartialEq, Eq, Structural)]
pub enum VersionSupport {
    Supported,
    BelowMin,
    AboveMax,
}

/// A predicate restricting a field's nominal applicability to a range of
/// software versions. Evaluation is advisory: it reports whether a version
/// lies in range, and on which side it falls out, but never blocks anything.
#[derive(Clone, Copy, Debug)]
pub enum VersionFilter {
    MinVersion(SoftwareVersion),
    MaxVersion(SoftwareVersion),
    VersionRange(SoftwareVersion, SoftwareVersion),
}

impl VersionFilter {
    /// What evaluating the filter at `version` yields: `BelowMin` under a
    /// minimum bound, `AboveMax` over a maximum bound, `Supported` otherwise.
    pub open spec fn spec_applies_at(self, version: SoftwareVersion) -> VersionSupport {
        match self {
            VersionFilter::MinVersion(min) => if version.spec_lt(min) {
                VersionSupport::BelowMin
            } else {
                VersionSupport::Supported
            },
            VersionFilter::MaxVersion(max) => if max.spec_lt(version) {
                VersionSupport::AboveMax
            } else {
                VersionSupport::Supported
            },
            VersionFilter::VersionRange(min, max) => if version.spec_lt(min) {
                VersionSupport::BelowMin
            } else if max.spec_lt(version) {
                VersionSupport::AboveMax
            } else {
                VersionSupport::Supported
            },
        }
    }

    pub fn min_version(version: SoftwareVersion) -> (f: Self)
        ensures
            f == VersionFilter::MinVersion(version),
    {
        VersionFilter::MinVersion(version)
    }

    pub fn max_version(version: SoftwareVersion) -> (f: Self)
        ensures
            f == VersionFilter::MaxVersion(version),
    {
        VersionFilter::MaxVersion(version)
    }

    pub fn version_range(min_version: SoftwareVersion, max_version: SoftwareVersion) -> (f: Self)
        ensures
            f == VersionFilter::VersionRange(min_version, max_version),
    {
        VersionFilter::VersionRange(min_version, max_version)
    }

    /// Evaluates the filter against `version`.
    pub fn applies_at(&self, version: SoftwareVersion) -> (s: VersionSupport)
        ensures
            s == self.spec_applies_at(version),
    {
        match self {
            VersionFilter::MinVersion(min) => {
                if version < *min {
                    VersionSupport::BelowMin
                } else {
                    VersionSupport::Supported
                }
            },
            VersionFilter::MaxVersion(max) => {
                if *max < version {
                    VersionSupport::AboveMax
                } else {
                    VersionSupport::Supported
                }
            },
            VersionFilter::VersionRange(min, max) => {
                if version < *min {
                    VersionSupport::BelowMin
                } else if *max < version {
                    VersionSupport::AboveMax
                } else {
                    VersionSupport::Supported
                }
            },
        }
    }
}

/// A minimum-version filter reports `BelowMin` exactly on the versions below
/// its bound, and `Supported` on every other version.
pub proof fn lemma_min_version_filter(bound: SoftwareVersion, version: SoftwareVersion)
    ensures
        VersionFilter::MinVersion(bound).spec_applies_at(version) == VersionSupport::BelowMin
            <==> version.spec_lt(bound),
        !version.spec_lt(bound) ==> VersionFilter::MinVersion(bound).spec_applies_at(version)
            == VersionSupport::Supported,
{
}

/// The order on versions is total: of two versions with the same major part,
/// the one with the smaller minor part compares less, the other compares
/// greater, and the two are never equal.
pub proof fn lemma_minor_orders_versions(v1: SoftwareVersion, v2: SoftwareVersion)
    requires
        v1.major == v2.major,
        v1.minor < v2.minor,
    ensures
        v1.partial_cmp_spec(&v2) == Some(core::cmp::Ordering::Less),
        v2.partial_cmp_spec(&v1) == Some(core::cmp::Ordering::Greater),
        v1 != v2,
{
}

} // verus!
