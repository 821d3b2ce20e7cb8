//! Release versions and their total order.
use crate::text::{decimal, decimal_string, push_char, push_decimal};
use core::cmp::Ordering;
use vstd::prelude::*;

verus! {

/// A release identifier. Equality and order are over the four numbers alone;
/// `semver` is display text derived from them.
pub struct VersionData {
    pub major: i64,
    pub build: i64,
    pub minor: i64,
    pub security: i64,
    /// Equal to {major}.{minor}.{security}+{build}
    pub semver: String,
    pub openjdk_version: String,
    pub adopt_build_number: Option<i64>,
}

/// The numeric key of a version, in priority order.
pub type VersionKey = (int, int, int, int);

/// Lexicographic comparison of two numeric keys.
pub open spec fn compare_keys(a: VersionKey, b: VersionKey) -> Ordering {
    if a.0 < b.0 {
        Ordering::Less
    } else if a.0 > b.0 {
        Ordering::Greater
    } else if a.1 < b.1 {
        Ordering::Less
    } else if a.1 > b.1 {
        Ordering::Greater
    } else if a.2 < b.2 {
        Ordering::Less
    } else if a.2 > b.2 {
        Ordering::Greater
    } else if a.3 < b.3 {
        Ordering::Less
    } else if a.3 > b.3 {
        Ordering::Greater
    } else {
        Ordering::Equal
    }
}

/// The display text "{major}.{minor}.{security}+{build}".
pub open spec fn semver_text(major: int, minor: int, security: int, build: int) -> Seq<char> {
    decimal(major) + seq!['.'] + decimal(minor) + seq!['.'] + decimal(security) + seq!['+']
        + decimal(build)
}

impl VersionData {
    /// The numeric key (major, minor, security, build).
    pub open spec fn key(&self) -> VersionKey {
        (self.major as int, self.minor as int, self.security as int, self.build as int)
    }

    /// Builds a version whose display text is derived from the four numbers.
    pub fn new(major: i64, minor: i64, security: i64, build: i64) -> (r: VersionData)
        ensures
            r.major == major,
            r.minor == minor,
            r.security == security,
            r.build == build,
            r.semver@ == semver_text(major as int, minor as int, security as int, build as int),
            r.openjdk_version@ == Seq::<char>::empty(),
            r.adopt_build_number is None,
    {
        let mut semver = decimal_string(major);
        push_char(&mut semver, '.');
        push_decimal(&mut semver, minor);
        push_char(&mut semver, '.');
        push_decimal(&mut semver, security);
        push_char(&mut semver, '+');
        push_decimal(&mut semver, build);
        assert(semver@ =~= semver_text(major as int, minor as int, security as int, build as int));
        VersionData {
            major,
            build,
            minor,
            security,
            semver,
            openjdk_version: String::new(),
            adopt_build_number: None,
        }
    }

    /// Builds a version from a tuple laid out as (major, build, minor, security).
    pub fn from_tuple(t: (i64, i64, i64, i64)) -> (r: VersionData)
        ensures
            r.major == t.0,
            r.build == t.1,
            r.minor == t.2,
            r.security == t.3,
            r.semver@ == semver_text(t.0 as int, t.2 as int, t.3 as int, t.1 as int),
            r.adopt_build_number is None,
    {
        VersionData::new(t.0, t.2, t.3, t.1)
    }

    /// Compares major, then minor, then security, then build; the first
    /// field that differs decides.
    pub fn compare(&self, other: &VersionData) -> (r: Ordering)
        ensures
            r == compare_keys(self.key(), other.key()),
    {
        if self.major < other.major {
            Ordering::Less
        } else if self.major > other.major {
            Ordering::Greater
        } else if self.minor < other.minor {
            Ordering::Less
        } else if self.minor > other.minor {
            Ordering::Greater
        } else if self.security < other.security {
            Ordering::Less
        } else if self.security > other.security {
            Ordering::Greater
        } else if self.build < other.build {
            Ordering::Less
        } else if self.build > other.build {
            Ordering::Greater
        } else {
            Ordering::Equal
        }
    }

    /// Whether `self` is strictly newer than `other`.
    pub fn is_newer_than(&self, other: &VersionData) -> (r: bool)
        ensures
            r <==> compare_keys(self.key(), other.key()) == Ordering::Greater,
    {
        match self.compare(other) {
            Ordering::Greater => true,
            _ => false,
        }
    }
}

impl Clone for VersionData {
    fn clone(&self) -> (r: VersionData)
        ensures
            r.major == self.major,
            r.build == self.build,
            r.minor == self.minor,
            r.security == self.security,
            r.semver@ == self.semver@,
            r.openjdk_version@ == self.openjdk_version@,
            r.adopt_build_number == self.adopt_build_number,
    {
        VersionData {
            major: self.major,
            build: self.build,
            minor: self.minor,
            security: self.security,
            semver: self.semver.clone(),
            openjdk_version: self.openjdk_version.clone(),
            adopt_build_number: self.adopt_build_number,
        }
    }
}

impl PartialEq for VersionData {
    fn eq(&self, other: &VersionData) -> (r: bool) {
        self.major == other.major && self.minor == other.minor && self.security == other.security
            && self.build == other.build
    }
}

impl vstd::std_specs::cmp::PartialEqSpecImpl for VersionData {
    open spec fn obeys_eq_spec() -> bool {
        true
    }

    open spec fn eq_spec(&self, other: &VersionData) -> bool {
        self.key() == other.key()
    }
}

impl PartialOrd for VersionData {
    fn partial_cmp(&self, other: &VersionData) -> (r: Option<Ordering>) {
        Some(self.compare(other))
    }
}

impl vstd::std_specs::cmp::PartialOrdSpecImpl for VersionData {
    open spec fn obeys_partial_cmp_spec() -> bool {
        true
    }

    open spec fn partial_cmp_spec(&self, other: &VersionData) -> Option<Ordering> {
        Some(compare_keys(self.key(), other.key()))
    }
}

/// The version order is a strict total order over the numeric keys: for two
/// versions exactly one of less, equal or greater holds, the comparison is
/// antisymmetric, equal only on equal keys, and transitive.
pub proof fn lemma_version_order_total(a: VersionKey, b: VersionKey, c: VersionKey)
    ensures
        compare_keys(a, b) == Ordering::Less || compare_keys(a, b) == Ordering::Equal
            || compare_keys(a, b) == Ordering::Greater,
        compare_keys(a, b) == Ordering::Equal <==> a == b,
        compare_keys(a, b) == Ordering::Less <==> compare_keys(b, a) == Ordering::Greater,
        compare_keys(a, a) == Ordering::Equal,
        compare_keys(a, b) == Ordering::Less && compare_keys(b, c) == Ordering::Less
            ==> compare_keys(a, c) == Ordering::Less,
        compare_keys(a, b) == Ordering::Greater && compare_keys(b, c) == Ordering::Greater
            ==> compare_keys(a, c) == Ordering::Greater,
{
}

/// The order on versions is the order on their keys, so `==`, `<` and `>`
/// on two versions agree with `compare`: exactly one of them holds.
pub proof fn lemma_version_trichotomy(a: &VersionData, b: &VersionData)
    ensures
        a.key() == b.key() <==> compare_keys(a.key(), b.key()) == Ordering::Equal,
        (compare_keys(a.key(), b.key()) == Ordering::Less) as int + (a.key() == b.key()) as int
            + (compare_keys(a.key(), b.key()) == Ordering::Greater) as int == 1,
{
}

} // verus!
