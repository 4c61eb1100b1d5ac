use mineguard::{MinecraftVersion, Snapshot, Version, VersionError};

#[test]
fn release_parses_and_prints_back() {
    let v = Version::parse("1.20.1").unwrap();
    assert_eq!(v, Version { major: 1, minor: 20, patch: 1 });
    assert_eq!(v.to_string(), "1.20.1");
}

#[test]
fn snapshot_parses_and_prints_back() {
    let s = Snapshot::parse("23w45a").unwrap();
    assert_eq!(s, Snapshot { year: 23, week: 45, build: 'a' });
    assert_eq!(s.to_string(), "23w45a");
}

#[test]
fn minecraft_version_prefers_release() {
    assert_eq!(
        MinecraftVersion::parse("1.20.1").unwrap(),
        MinecraftVersion::Release(Version { major: 1, minor: 20, patch: 1 })
    );
    assert_eq!(
        MinecraftVersion::parse("23w45a").unwrap(),
        MinecraftVersion::Snapshot(Snapshot { year: 23, week: 45, build: 'a' })
    );
    assert_eq!(MinecraftVersion::parse("1.20.1").unwrap().to_string(), "1.20.1");
}

#[test]
fn from_str_agrees_with_parse() {
    let v: Version = "0.0.7".parse().unwrap();
    assert_eq!(v, Version { major: 0, minor: 0, patch: 7 });
    let s: Snapshot = "24w03b".parse().unwrap();
    assert_eq!(s.to_string(), "24w03b");
    let m: MinecraftVersion = "1.2.3".parse().unwrap();
    assert_eq!(m, MinecraftVersion::Release(Version { major: 1, minor: 2, patch: 3 }));
}

#[test]
fn too_few_components_are_missing() {
    assert_eq!(Version::parse("1"), Err(VersionError::MissingMinor));
    assert_eq!(Version::parse(""), Err(VersionError::MissingMinor));
    assert_eq!(Version::parse("1.20"), Err(VersionError::MissingPatch));
}

#[test]
fn too_many_components_are_extra() {
    assert_eq!(Version::parse("1.2.3.4"), Err(VersionError::ExtraComponents));
    assert_eq!(Version::parse("1.2.3."), Err(VersionError::ExtraComponents));
    assert!(!matches!(MinecraftVersion::parse("1.2.3.4"), Ok(MinecraftVersion::Release(_))));
    assert!(!matches!(MinecraftVersion::parse("1.20"), Ok(MinecraftVersion::Release(_))));
}

#[test]
fn bad_release_fields_are_named() {
    assert_eq!(Version::parse("a.2.3"), Err(VersionError::IncorrectMajor("a".to_string())));
    assert_eq!(Version::parse("1..3"), Err(VersionError::IncorrectMinor("".to_string())));
    assert_eq!(Version::parse("1.2.x"), Err(VersionError::IncorrectPatch("x".to_string())));
    assert_eq!(
        Version::parse("4294967296.0.0"),
        Err(VersionError::IncorrectMajor("4294967296".to_string()))
    );
}

#[test]
fn release_fields_read_as_unsigned_numbers() {
    assert_eq!(
        Version::parse("4294967295.+1.007").unwrap(),
        Version { major: 4294967295, minor: 1, patch: 7 }
    );
    assert_eq!(Version::parse("-1.0.0"), Err(VersionError::IncorrectMajor("-1".to_string())));
    assert_eq!(Version::parse("+.0.0"), Err(VersionError::IncorrectMajor("+".to_string())));
}

#[test]
fn bad_snapshots_are_refused() {
    assert_eq!(Snapshot::parse("2345a"), Err(VersionError::InvalidSnapshotFormat));
    assert_eq!(Snapshot::parse("23w45"), Err(VersionError::InvalidSnapshotFormat));
    assert_eq!(Snapshot::parse("yyw45a"), Err(VersionError::IncorrectYear("yy".to_string())));
    assert_eq!(Snapshot::parse("23wx5a"), Err(VersionError::IncorrectWeek("x5".to_string())));
    assert_eq!(Snapshot::parse("23w45ab"), Err(VersionError::IncorrectBuild("ab".to_string())));
    assert_eq!(Snapshot::parse("23w+5a"), Err(VersionError::IncorrectWeek("+5".to_string())));
    assert_eq!(Snapshot::parse("1w€a"), Err(VersionError::InvalidSnapshotFormat));
    assert_eq!(
        MinecraftVersion::parse("1w€a"),
        Err(VersionError::UnknownVersionFormat("1w€a".to_string()))
    );
}

#[test]
fn snapshot_build_is_any_single_character() {
    assert_eq!(Snapshot::parse("23w45é").unwrap(), Snapshot { year: 23, week: 45, build: 'é' });
    assert_eq!(Snapshot { year: 23, week: 45, build: 'é' }.to_string(), "23w45é");
}

#[test]
fn unknown_format_keeps_the_text() {
    assert_eq!(
        MinecraftVersion::parse("latest"),
        Err(VersionError::UnknownVersionFormat("latest".to_string()))
    );
}

#[test]
fn single_digit_weeks_print_padded() {
    let s = Snapshot { year: 24, week: 3, build: 'c' };
    assert_eq!(s.to_string(), "24w03c");
    assert_eq!(Snapshot::parse(&s.to_string()).unwrap(), s);
    let big = Version { major: 4294967295, minor: 10, patch: 0 };
    assert_eq!(big.to_string(), "4294967295.10.0");
    assert_eq!(Version::parse(&big.to_string()).unwrap(), big);
}
