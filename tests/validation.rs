use std::io::Write;

use modcheck::validate::{
    select_validator, validate_file, validators, Loader, Selection, ValidationError,
    ValidationResult, Validator, MODERN_FORGE_START,
};
use modcheck::versions::{
    find_release_date, game_version_supported, GameVersion, ReleasedVersion, SupportedGameVersions,
};

fn archive(entries: &[(&str, &[u8])]) -> Vec<u8> {
    let mut writer = zip::ZipWriter::new(std::io::Cursor::new(Vec::new()));
    let options =
        zip::write::SimpleFileOptions::default().compression_method(zip::CompressionMethod::Stored);
    for (name, data) in entries {
        writer.start_file(*name, options).unwrap();
        writer.write_all(data).unwrap();
    }
    writer.finish().unwrap().into_inner()
}

fn loaders(names: &[&str]) -> Vec<Loader> {
    names.iter().map(|n| Loader(n.to_string())).collect()
}

fn versions(labels: &[&str]) -> Vec<GameVersion> {
    labels.iter().map(|l| GameVersion(l.to_string())).collect()
}

fn catalog() -> Vec<ReleasedVersion> {
    vec![
        ReleasedVersion { version: "1.7.10".to_string(), date: 1403193600 },
        ReleasedVersion { version: "1.12.2".to_string(), date: 1505752800 },
        ReleasedVersion { version: "1.16.5".to_string(), date: 1610452800 },
    ]
}

const FABRIC_MANIFEST: &[u8] = br#"{"schemaVersion": 1, "id": "example", "version": "1.0.0"}"#;

fn invalid_input(r: Result<ValidationResult, ValidationError>) -> String {
    match r {
        Err(ValidationError::InvalidInputError(s)) => s,
        _ => panic!("expected an invalid-input error"),
    }
}

fn warning(r: Result<ValidationResult, ValidationError>) -> String {
    match r {
        Ok(ValidationResult::Warning(s)) => s,
        _ => panic!("expected a warning"),
    }
}

#[test]
fn fabric_mod_with_manifest_passes() {
    let data = archive(&[
        ("fabric.mod.json", FABRIC_MANIFEST),
        ("example/Main.class", b"\xca\xfe\xba\xbe"),
    ]);
    let r = validate_file(&data, "jar", "mod", loaders(&["fabric"]), versions(&["1.16.5"]), &catalog());
    assert!(matches!(r, Ok(ValidationResult::Pass)));
}

#[test]
fn fabric_mod_as_zip_is_rejected() {
    let data = archive(&[
        ("fabric.mod.json", FABRIC_MANIFEST),
        ("example/Main.class", b"\xca\xfe\xba\xbe"),
    ]);
    let r = validate_file(&data, "zip", "mod", loaders(&["fabric"]), versions(&["1.16.5"]), &catalog());
    let message = invalid_input(r);
    assert!(message.contains("zip"));
    assert_eq!(message, "File extension zip is invalid for input file");
}

#[test]
fn corrupt_buffer_is_an_archive_error() {
    let r = validate_file(
        b"this is not a zip archive",
        "jar",
        "mod",
        loaders(&["fabric"]),
        versions(&["1.16.5"]),
        &catalog(),
    );
    assert!(matches!(r, Err(ValidationError::ZipError(_))));
}

#[test]
fn corrupt_buffer_fails_even_when_no_validator_applies() {
    let r = validate_file(&[1, 2, 3], "png", "resourcepack", loaders(&["minecraft"]), versions(&[]), &[]);
    assert!(matches!(r, Err(ValidationError::ZipError(_))));
}

#[test]
fn unknown_version_never_meets_a_date_threshold() {
    let known: Vec<ReleasedVersion> = catalog().into_iter().filter(|v| v.version != "1.16.5").collect();
    let supported = game_version_supported(
        &versions(&["1.16.5"]),
        &known,
        SupportedGameVersions::PastDate(1577836800),
    );
    assert!(!supported);
    let data = archive(&[("readme.txt", b"hello")]);
    let r = validate_file(&data, "exe", "mod", loaders(&["forge"]), versions(&["1.16.5"]), &known);
    assert!(matches!(r, Ok(ValidationResult::Pass)));
    let sel = select_validator("jar", "mod", &loaders(&["forge"]), &versions(&["1.16.5"]), &known);
    assert!(matches!(sel, Selection::NoneApplies));
}

#[test]
fn no_applicable_validator_passes() {
    let data = archive(&[("pack.mcmeta", b"{}")]);
    let r = validate_file(&data, "zip", "resourcepack", loaders(&["minecraft"]), versions(&["1.16.5"]), &catalog());
    assert!(matches!(r, Ok(ValidationResult::Pass)));
    let r = validate_file(&data, "jar", "mod", loaders(&["quilt"]), versions(&["1.16.5"]), &catalog());
    assert!(matches!(r, Ok(ValidationResult::Pass)));
}

#[test]
fn applicable_validator_with_wrong_extension_rejects() {
    let data = archive(&[("META-INF/mods.toml", b"modLoader=\"javafml\"")]);
    let r = validate_file(&data, "exe", "mod", loaders(&["forge"]), versions(&["1.16.5"]), &catalog());
    assert_eq!(invalid_input(r), "File extension exe is invalid for input file");
}

#[test]
fn custom_policy_is_set_intersection() {
    let listed = || SupportedGameVersions::Custom(versions(&["1.12.2", "1.16.5"]));
    assert!(game_version_supported(&versions(&["1.16.5"]), &[], listed()));
    assert!(game_version_supported(&versions(&["1.0", "1.12.2"]), &[], listed()));
    assert!(game_version_supported(
        &versions(&["1.16.5"]),
        &[],
        SupportedGameVersions::Custom(versions(&["1.16.5", "1.12.2"]))
    ));
    assert!(!game_version_supported(&versions(&["1.7.10"]), &catalog(), listed()));
    assert!(!game_version_supported(&versions(&[]), &catalog(), listed()));
}

#[test]
fn past_date_policy_needs_a_later_release() {
    let threshold = 1505752800;
    let past = || SupportedGameVersions::PastDate(threshold);
    assert!(!game_version_supported(&versions(&["1.12.2"]), &catalog(), past()));
    assert!(!game_version_supported(&versions(&["1.7.10"]), &catalog(), past()));
    assert!(!game_version_supported(&versions(&["1.17"]), &catalog(), past()));
    assert!(game_version_supported(&versions(&["1.7.10", "1.16.5"]), &catalog(), past()));
    assert!(!game_version_supported(&versions(&["1.7.10", "1.17"]), &catalog(), past()));
}

#[test]
fn range_policy_is_strict_on_both_ends() {
    let cat = catalog();
    assert!(game_version_supported(&versions(&["1.12.2"]), &cat, SupportedGameVersions::Range(1403193600, 1610452800)));
    assert!(!game_version_supported(&versions(&["1.7.10"]), &cat, SupportedGameVersions::Range(1403193600, 1610452800)));
    assert!(!game_version_supported(&versions(&["1.16.5"]), &cat, SupportedGameVersions::Range(1403193600, 1610452800)));
    assert!(game_version_supported(&versions(&["1.16.5"]), &cat, SupportedGameVersions::All));
}

#[test]
fn first_catalog_entry_gives_the_release_date() {
    let mut cat = catalog();
    cat.push(ReleasedVersion { version: "1.12.2".to_string(), date: 1 });
    assert_eq!(find_release_date(&cat, &"1.12.2".to_string()), Some(1505752800));
    assert_eq!(find_release_date(&cat, &"1.18".to_string()), None);
}

#[test]
fn validating_twice_gives_the_same_result() {
    let data = archive(&[("fabric.mod.json", FABRIC_MANIFEST)]);
    let first = validate_file(&data, "jar", "mod", loaders(&["fabric"]), versions(&["1.16.5"]), &catalog());
    let second = validate_file(&data, "jar", "mod", loaders(&["fabric"]), versions(&["1.16.5"]), &catalog());
    assert_eq!(first.unwrap(), second.unwrap());
    let source = archive(&[("META-INF/mods.toml", b""), ("a/B.java", b"x")]);
    let first = validate_file(&source, "jar", "mod", loaders(&["forge"]), versions(&["1.16.5"]), &catalog());
    let second = validate_file(&source, "jar", "mod", loaders(&["forge"]), versions(&["1.16.5"]), &catalog());
    assert_eq!(warning(first), warning(second));
}

#[test]
fn fabric_manifest_alone_passes() {
    let data = archive(&[("fabric.mod.json", FABRIC_MANIFEST)]);
    let r = validate_file(&data, "jar", "mod", loaders(&["fabric"]), versions(&["1.16.5"]), &catalog());
    assert!(matches!(r, Ok(ValidationResult::Pass)));
}

#[test]
fn leading_dot_of_extension_is_ignored() {
    let data = archive(&[("fabric.mod.json", FABRIC_MANIFEST)]);
    let r = validate_file(&data, ".jar", "mod", loaders(&["fabric"]), versions(&["1.16.5"]), &catalog());
    assert!(matches!(r, Ok(ValidationResult::Pass)));
    let r = validate_file(&data, ".zip", "mod", loaders(&["fabric"]), versions(&["1.16.5"]), &catalog());
    assert_eq!(invalid_input(r), "File extension .zip is invalid for input file");
    let r = validate_file(&data, "..jar", "mod", loaders(&["fabric"]), versions(&["1.16.5"]), &catalog());
    assert_eq!(invalid_input(r), "File extension ..jar is invalid for input file");
    let sel = select_validator(".zip", "modpack", &loaders(&["forge"]), &versions(&[]), &catalog());
    assert!(matches!(sel, Selection::Run(Validator::Pack)));
}

#[test]
fn fabric_without_manifest_is_rejected() {
    let data = archive(&[("example/Main.class", b"\xca\xfe\xba\xbe")]);
    let r = validate_file(&data, "jar", "mod", loaders(&["fabric"]), versions(&["1.16.5"]), &catalog());
    assert_eq!(invalid_input(r), "No fabric.mod.json present for Fabric file.");
}

#[test]
fn fabric_malformed_manifest_is_a_decode_error() {
    let data = archive(&[("fabric.mod.json", b"{\"id\": "), ("Main.class", b"x")]);
    let r = validate_file(&data, "jar", "mod", loaders(&["fabric"]), versions(&["1.16.5"]), &catalog());
    assert!(matches!(r, Err(ValidationError::SerDeError(_))));
}

#[test]
fn fabric_manifest_without_id_is_rejected() {
    let data = archive(&[("fabric.mod.json", br#"{"schemaVersion": 1, "id": 7}"#), ("Main.class", b"x")]);
    let r = validate_file(&data, "jar", "mod", loaders(&["fabric"]), versions(&["1.16.5"]), &catalog());
    assert_eq!(invalid_input(r), "fabric.mod.json has no mod id.");
}

#[test]
fn forge_mod_checks() {
    let with_code = archive(&[("META-INF/mods.toml", b"modLoader=\"javafml\""), ("a/B.class", b"x")]);
    let r = validate_file(&with_code, "jar", "mod", loaders(&["forge"]), versions(&["1.16.5"]), &catalog());
    assert!(matches!(r, Ok(ValidationResult::Pass)));
    let source = archive(&[("META-INF/mods.toml", b"modLoader=\"javafml\""), ("a/B.java", b"x")]);
    let r = validate_file(&source, "zip", "mod", loaders(&["forge"]), versions(&["1.16.5"]), &catalog());
    assert_eq!(warning(r), "Forge mod file is a source file!");
    let legacy = archive(&[("mcmod.info", b"[]"), ("a/B.class", b"x")]);
    let r = validate_file(&legacy, "jar", "mod", loaders(&["forge"]), versions(&["1.16.5"]), &catalog());
    assert_eq!(invalid_input(r), "No mods.toml present for Forge file.");
}

#[test]
fn legacy_forge_mod_checks() {
    let legacy = archive(&[("mcmod.info", b"[]"), ("a/B.class", b"x")]);
    let r = validate_file(&legacy, "jar", "mod", loaders(&["forge"]), versions(&["1.12.2"]), &catalog());
    assert!(matches!(r, Ok(ValidationResult::Pass)));
    let modern = archive(&[("META-INF/mods.toml", b""), ("a/B.class", b"x")]);
    let r = validate_file(&modern, "jar", "mod", loaders(&["forge"]), versions(&["1.12.2"]), &catalog());
    assert_eq!(invalid_input(r), "No mcmod.info present for Forge file.");
}

#[test]
fn pack_checks() {
    let good = archive(&[("index.json", br#"{"game": "minecraft", "formatVersion": 1}"#)]);
    let r = validate_file(&good, "zip", "modpack", loaders(&["fabric"]), versions(&["1.16.5"]), &catalog());
    assert!(matches!(r, Ok(ValidationResult::Pass)));
    let other = archive(&[("index.json", br#"{"game": "terraria"}"#)]);
    let r = validate_file(&other, "zip", "modpack", loaders(&["forge"]), versions(&["1.16.5"]), &catalog());
    assert_eq!(invalid_input(r), "Pack manifest does not target Minecraft.");
    let broken = archive(&[("index.json", b"[1, 2")]);
    let r = validate_file(&broken, "zip", "modpack", loaders(&["forge"]), versions(&["1.16.5"]), &catalog());
    assert!(matches!(r, Err(ValidationError::SerDeError(_))));
    let missing = archive(&[("pack.toml", b"{}")]);
    let r = validate_file(&missing, "zip", "modpack", loaders(&["forge"]), versions(&["1.16.5"]), &catalog());
    assert_eq!(invalid_input(r), "Pack manifest is missing.");
    let r = validate_file(&good, "mrpack", "modpack", loaders(&["forge"]), versions(&["1.16.5"]), &catalog());
    assert_eq!(invalid_input(r), "File extension mrpack is invalid for input file");
}

#[test]
fn selection_follows_registry_order() {
    assert_eq!(
        validators(),
        vec![Validator::Pack, Validator::Fabric, Validator::Forge, Validator::LegacyForge]
    );
    let cat = catalog();
    let sel = select_validator("zip", "modpack", &loaders(&["fabric"]), &versions(&[]), &cat);
    assert!(matches!(sel, Selection::Run(Validator::Pack)));
    let sel = select_validator("jar", "mod", &loaders(&["quilt", "forge"]), &versions(&["1.7.10"]), &cat);
    assert!(matches!(sel, Selection::Run(Validator::LegacyForge)));
    let sel = select_validator("jar", "mod", &loaders(&["forge", "fabric"]), &versions(&["1.16.5"]), &cat);
    assert!(matches!(sel, Selection::Run(Validator::Fabric)));
    let sel = select_validator("zip", "mod", &loaders(&["forge", "fabric"]), &versions(&["1.16.5"]), &cat);
    assert!(matches!(sel, Selection::Run(Validator::Forge)));
    let sel = select_validator("zip", "mod", &loaders(&["fabric"]), &versions(&["1.16.5"]), &cat);
    assert!(matches!(sel, Selection::WrongExtension));
}

#[test]
fn validator_descriptors() {
    assert_eq!(Validator::Fabric.get_file_extensions(), vec!["jar"]);
    assert_eq!(Validator::Pack.get_file_extensions(), vec!["zip"]);
    assert_eq!(Validator::Forge.get_file_extensions(), vec!["jar", "zip"]);
    assert_eq!(Validator::Pack.get_project_types(), vec!["modpack"]);
    assert_eq!(Validator::LegacyForge.get_project_types(), vec!["mod"]);
    assert_eq!(Validator::Pack.get_supported_loaders(), vec!["forge", "fabric"]);
    assert_eq!(Validator::Fabric.get_supported_loaders(), vec!["fabric"]);
    assert!(matches!(
        Validator::Forge.get_supported_game_versions(),
        SupportedGameVersions::PastDate(MODERN_FORGE_START)
    ));
    assert!(matches!(
        Validator::LegacyForge.get_supported_game_versions(),
        SupportedGameVersions::Range(1366818300, 1540122067)
    ));
    assert!(Validator::Pack.applies_to("modpack", &loaders(&["forge"]), &versions(&[]), &[]));
    assert!(!Validator::Pack.applies_to("mod", &loaders(&["forge"]), &versions(&[]), &[]));
}

#[test]
fn manifest_verdicts() {
    let r = Validator::Pack.manifest_verdict(Some("minecraft".to_string()));
    assert!(matches!(r, Ok(ValidationResult::Pass)));
    let r = Validator::Pack.manifest_verdict(Some("terraria".to_string()));
    assert_eq!(invalid_input(r), "Pack manifest does not target Minecraft.");
    let r = Validator::Pack.manifest_verdict(None);
    assert_eq!(invalid_input(r), "Pack manifest does not target Minecraft.");
    let r = Validator::Fabric.manifest_verdict(Some("example".to_string()));
    assert!(matches!(r, Ok(ValidationResult::Pass)));
    let r = Validator::Fabric.manifest_verdict(None);
    assert_eq!(invalid_input(r), "fabric.mod.json has no mod id.");
}
