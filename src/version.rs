//! Game versions: releases (`1.20.1`) and weekly snapshots (`23w45a`),
//! read from and written to their text form.

use vstd::prelude::*;

use crate::error::{VersionError, VersionFault};
use crate::text::{all_digits, chars_of, count_from, decimal, digits_value, find_char, index_of, is_digit, lemma_decimal, lemma_index_count, lemma_index_of_at, lemma_leading_zero, lemma_u32_of_decimal, parse_u32, push_char, push_decimal, string_of_range, u32_of};

verus! {

/// The kind of server software an instance runs.
#[derive(Debug, Clone, Copy, PartialEq, Eq, Structural)]
pub enum MinecraftType {
    Vanilla,
}

/// A release version `major.minor.patch`.
#[derive(Debug, Clone, Copy, PartialEq, Eq, Structural)]
pub struct Version {
    pub major: u32,
    pub minor: u32,
    pub patch: u32,
}

/// A snapshot version: year, week and a one-character build tag.
#[derive(Debug, Clone, Copy, PartialEq, Eq, Structural)]
pub struct Snapshot {
    pub year: u32,
    pub week: u32,
    pub build: char,
}

/// Either kind of game version.
#[derive(Debug, Clone, Copy, PartialEq, Eq, Structural)]
pub enum MinecraftVersion {
    Release(Version),
    Snapshot(Snapshot),
}

/// Reading of a release string: exactly three dot-separated fields, each
/// an unsigned 32-bit number; the first field at fault is reported.
pub open spec fn release_of(s: Seq<char>) -> Result<Version, VersionFault> {
    let d1 = index_of(s, '.', 0);
    let d2 = index_of(s, '.', d1 + 1);
    let d3 = index_of(s, '.', d2 + 1);
    if d1 == s.len() {
        Err(VersionFault::MissingMinor)
    } else if d2 == s.len() {
        Err(VersionFault::MissingPatch)
    } else if d3 < s.len() {
        Err(VersionFault::ExtraComponents)
    } else {
        let a = s.subrange(0, d1);
        let b = s.subrange(d1 + 1, d2);
        let c = s.subrange(d2 + 1, s.len() as int);
        if u32_of(a) is None {
            Err(VersionFault::IncorrectMajor(a))
        } else if u32_of(b) is None {
            Err(VersionFault::IncorrectMinor(b))
        } else if u32_of(c) is None {
            Err(VersionFault::IncorrectPatch(c))
        } else {
            Ok(Version { major: u32_of(a)->0, minor: u32_of(b)->0, patch: u32_of(c)->0 })
        }
    }
}

/// Reading of a snapshot string `<year>w<week><build>`: the text before the
/// first `w` is the year, the two digits after it the week, and exactly
/// one character the build tag.
pub open spec fn snapshot_of(s: Seq<char>) -> Result<Snapshot, VersionFault> {
    let w = index_of(s, 'w', 0);
    if w == s.len() || s.len() - (w + 1) < 3 {
        Err(VersionFault::InvalidSnapshotFormat)
    } else {
        let y = s.subrange(0, w);
        let k = s.subrange(w + 1, w + 3);
        let b = s.subrange(w + 3, s.len() as int);
        if u32_of(y) is None {
            Err(VersionFault::IncorrectYear(y))
        } else if !(is_digit(k[0]) && is_digit(k[1])) {
            Err(VersionFault::IncorrectWeek(k))
        } else if b.len() != 1 {
            Err(VersionFault::IncorrectBuild(b))
        } else {
            Ok(Snapshot { year: u32_of(y)->0, week: u32_of(k)->0, build: b[0] })
        }
    }
}

/// Reading of any version string: a release if it reads as one, else a
/// snapshot if it reads as one, else an unknown format.
pub open spec fn minecraft_version_of(s: Seq<char>) -> Result<MinecraftVersion, VersionFault> {
    if release_of(s) is Ok {
        Ok(MinecraftVersion::Release(release_of(s)->Ok_0))
    } else if snapshot_of(s) is Ok {
        Ok(MinecraftVersion::Snapshot(snapshot_of(s)->Ok_0))
    } else {
        Err(VersionFault::UnknownVersionFormat(s))
    }
}

/// Text of a release: `major.minor.patch` in shortest decimal.
pub open spec fn release_text(v: Version) -> Seq<char> {
    decimal(v.major as nat) + seq!['.'] + decimal(v.minor as nat) + seq!['.'] + decimal(v.patch as nat)
}

/// Text of a snapshot: the year, `w`, the week in at least two digits,
/// then the build tag.
pub open spec fn snapshot_text(s: Snapshot) -> Seq<char> {
    decimal(s.year as nat) + seq!['w'] + (if s.week < 10 { seq!['0'] } else { seq![] })
        + decimal(s.week as nat) + seq![s.build]
}

/// Text of a version, as its kind writes it.
pub open spec fn minecraft_version_text(v: MinecraftVersion) -> Seq<char> {
    match v {
        MinecraftVersion::Release(r) => release_text(r),
        MinecraftVersion::Snapshot(s) => snapshot_text(s),
    }
}

/// Whether a library result agrees with a reading.
pub open spec fn agrees<T>(r: Result<T, VersionError>, m: Result<T, VersionFault>) -> bool {
    match r {
        Ok(v) => m == Ok::<T, VersionFault>(v),
        Err(e) => m == Err::<T, VersionFault>(e@),
    }
}

/// The number of dot-separated components of a version string.
pub open spec fn component_count(s: Seq<char>) -> nat {
    count_from(s, '.', 0) + 1
}

/// A version string with fewer or more than three dot-separated components
/// is never read as a release: reading it as one fails because a component
/// is missing or because there are too many, and reading it as any version
/// does not give a release.
pub proof fn lemma_wrong_component_count(s: Seq<char>)
    requires
        component_count(s) != 3,
    ensures
        component_count(s) == 1 ==> release_of(s) == Err::<Version, VersionFault>(VersionFault::MissingMinor),
        component_count(s) == 2 ==> release_of(s) == Err::<Version, VersionFault>(VersionFault::MissingPatch),
        component_count(s) > 3 ==> release_of(s) == Err::<Version, VersionFault>(VersionFault::ExtraComponents),
        !(minecraft_version_of(s) matches Ok(MinecraftVersion::Release(_))),
{
    let d1 = index_of(s, '.', 0);
    lemma_index_count(s, '.', 0);
    if d1 < s.len() {
        lemma_index_count(s, '.', d1 + 1);
        let d2 = index_of(s, '.', d1 + 1);
        if d2 < s.len() {
            lemma_index_count(s, '.', d2 + 1);
        }
    }
}

/// The text of a release reads back as that release.
pub proof fn lemma_release_round_trip(v: Version)
    ensures
        release_of(release_text(v)) == Ok::<Version, VersionFault>(v),
{
    let a = decimal(v.major as nat);
    let b = decimal(v.minor as nat);
    let c = decimal(v.patch as nat);
    lemma_decimal(v.major as nat);
    lemma_decimal(v.minor as nat);
    lemma_decimal(v.patch as nat);
    lemma_u32_of_decimal(v.major);
    lemma_u32_of_decimal(v.minor);
    lemma_u32_of_decimal(v.patch);
    let t = release_text(v);
    let la = a.len() as int;
    let lb = b.len() as int;
    assert(t =~= a + seq!['.'] + b + seq!['.'] + c);
    assert forall|i: int| 0 <= i < la implies t[i] != '.' by {
        assert(t[i] == a[i] && is_digit(a[i]));
    }
    assert forall|i: int| la + 1 <= i < la + 1 + lb implies t[i] != '.' by {
        assert(t[i] == b[i - la - 1] && is_digit(b[i - la - 1]));
    }
    assert forall|i: int| la + 2 + lb <= i < t.len() implies t[i] != '.' by {
        assert(t[i] == c[i - la - lb - 2] && is_digit(c[i - la - lb - 2]));
    }
    lemma_index_of_at(t, '.', 0, la);
    lemma_index_of_at(t, '.', la + 1, la + 1 + lb);
    lemma_index_of_at(t, '.', la + lb + 2, t.len() as int);
    assert(t.subrange(0, la) =~= a);
    assert(t.subrange(la + 1, la + 1 + lb) =~= b);
    assert(t.subrange(la + lb + 2, t.len() as int) =~= c);
}

/// The text of a snapshot whose week has at most two digits reads back as
/// that snapshot.
pub proof fn lemma_snapshot_round_trip(s: Snapshot)
    requires
        s.week < 100,
    ensures
        snapshot_of(snapshot_text(s)) == Ok::<Snapshot, VersionFault>(s),
{
    let y = decimal(s.year as nat);
    let k = decimal(s.week as nat);
    let p: Seq<char> = if s.week < 10 { seq!['0'] } else { seq![] };
    lemma_decimal(s.year as nat);
    lemma_decimal(s.week as nat);
    lemma_u32_of_decimal(s.year);
    lemma_u32_of_decimal(s.week);
    let t = snapshot_text(s);
    let ly = y.len() as int;
    assert(t =~= y + seq!['w'] + (p + k) + seq![s.build]);
    assert forall|i: int| 0 <= i < ly implies t[i] != 'w' by {
        assert(t[i] == y[i] && is_digit(y[i]));
    }
    lemma_index_of_at(t, 'w', 0, ly);
    assert(t.subrange(0, ly) =~= y);
    assert(t.subrange(ly + 1, ly + 3) =~= p + k);
    assert(t.subrange(ly + 3, t.len() as int) =~= seq![s.build]);
    if s.week < 10 {
        lemma_leading_zero(k);
        assert(all_digits(p + k));
        assert((p + k)[0] != '+');
    }
}

impl Version {
    /// Reads a release string such as `1.20.1`.
    pub fn parse(s: &str) -> (r: Result<Version, VersionError>)
        ensures
            agrees(r, release_of(s@)),
    {
        let cs = chars_of(s);
        let n = cs.len();
        let d1 = find_char(&cs, '.', 0);
        if d1 == n {
            return Err(VersionError::MissingMinor);
        }
        let d2 = find_char(&cs, '.', d1 + 1);
        if d2 == n {
            return Err(VersionError::MissingPatch);
        }
        let d3 = find_char(&cs, '.', d2 + 1);
        if d3 < n {
            return Err(VersionError::ExtraComponents);
        }
        let major = match parse_u32(&cs, 0, d1) {
            Some(v) => v,
            None => return Err(VersionError::IncorrectMajor(string_of_range(&cs, 0, d1))),
        };
        let minor = match parse_u32(&cs, d1 + 1, d2) {
            Some(v) => v,
            None => return Err(VersionError::IncorrectMinor(string_of_range(&cs, d1 + 1, d2))),
        };
        let patch = match parse_u32(&cs, d2 + 1, n) {
            Some(v) => v,
            None => return Err(VersionError::IncorrectPatch(string_of_range(&cs, d2 + 1, n))),
        };
        Ok(Version { major, minor, patch })
    }

    /// The text of this release, `major.minor.patch`.
    pub fn to_string(&self) -> (r: String)
        ensures
            r@ == release_text(*self),
    {
        let mut r = String::new();
        push_decimal(&mut r, self.major);
        push_char(&mut r, '.');
        push_decimal(&mut r, self.minor);
        push_char(&mut r, '.');
        push_decimal(&mut r, self.patch);
        r
    }
}

impl Snapshot {
    /// Reads a snapshot string such as `23w45a`.
    pub fn parse(s: &str) -> (r: Result<Snapshot, VersionError>)
        ensures
            agrees(r, snapshot_of(s@)),
    {
        let cs = chars_of(s);
        let n = cs.len();
        let w = find_char(&cs, 'w', 0);
        if w == n || n - (w + 1) < 3 {
            return Err(VersionError::InvalidSnapshotFormat);
        }
        let year = match parse_u32(&cs, 0, w) {
            Some(v) => v,
            None => return Err(VersionError::IncorrectYear(string_of_range(&cs, 0, w))),
        };
        let (k0, k1) = (cs[w + 1], cs[w + 2]);
        if !('0' <= k0 && k0 <= '9' && '0' <= k1 && k1 <= '9') {
            return Err(VersionError::IncorrectWeek(string_of_range(&cs, w + 1, w + 3)));
        }
        let week = ((k0 as u32) - 48) * 10 + ((k1 as u32) - 48);
        proof {
            let k = cs@.subrange(w + 1, w + 3);
            assert(k.drop_last() =~= seq![k0]);
            assert(seq![k0].drop_last() =~= Seq::<char>::empty());
            assert(all_digits(k));
            assert(digits_value(k) == digits_value(k.drop_last()) * 10 + (k.last() as nat - '0' as nat) as nat);
            assert(digits_value(seq![k0]) == digits_value(seq![k0].drop_last()) * 10 + (seq![k0].last() as nat - '0' as nat) as nat);
        }
        if n - (w + 3) != 1 {
            return Err(VersionError::IncorrectBuild(string_of_range(&cs, w + 3, n)));
        }
        Ok(Snapshot { year, week, build: cs[w + 3] })
    }

    /// The text of this snapshot, with the week in at least two digits.
    pub fn to_string(&self) -> (r: String)
        ensures
            r@ == snapshot_text(*self),
    {
        let mut r = String::new();
        push_decimal(&mut r, self.year);
        push_char(&mut r, 'w');
        if self.week < 10 {
            push_char(&mut r, '0');
        }
        push_decimal(&mut r, self.week);
        push_char(&mut r, self.build);
        assert(r@ =~= snapshot_text(*self));
        r
    }
}

impl MinecraftVersion {
    /// Reads a version string: a release is tried first, then a snapshot.
    pub fn parse(s: &str) -> (r: Result<MinecraftVersion, VersionError>)
        ensures
            agrees(r, minecraft_version_of(s@)),
    {
        if let Ok(v) = Version::parse(s) {
            return Ok(MinecraftVersion::Release(v));
        }
        if let Ok(v) = Snapshot::parse(s) {
            return Ok(MinecraftVersion::Snapshot(v));
        }
        Err(VersionError::UnknownVersionFormat(String::from_str(s)))
    }

    /// The text of this version, as its kind writes it.
    pub fn to_string(&self) -> (r: String)
        ensures
            r@ == minecraft_version_text(*self),
    {
        match self {
            MinecraftVersion::Release(v) => v.to_string(),
            MinecraftVersion::Snapshot(s) => s.to_string(),
        }
    }
}

impl std::str::FromStr for Version {
    type Err = VersionError;

    fn from_str(s: &str) -> (r: Result<Version, VersionError>)
        ensures
            agrees(r, release_of(s@)),
    {
        Version::parse(s)
    }
}

impl std::str::FromStr for Snapshot {
    type Err = VersionError;

    fn from_str(s: &str) -> (r: Result<Snapshot, VersionError>)
        ensures
            agrees(r, snapshot_of(s@)),
    {
        Snapshot::parse(s)
    }
}

impl std::str::FromStr for MinecraftVersion {
    type Err = VersionError;

    fn from_str(s: &str) -> (r: Result<MinecraftVersion, VersionError>)
        ensures
            agrees(r, minecraft_version_of(s@)),
    {
        MinecraftVersion::parse(s)
    }
}

} // verus!
