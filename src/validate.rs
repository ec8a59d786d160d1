//! The validators of each loader family, and the dispatch that picks the one
//! that decides on an uploaded file.

use crate::archive::{
    entry_contents, entry_names, file_names, open_archive, read_entry, zip_entry_contents,
    zip_entry_names, zip_readable,
};
use crate::manifest::{check_json, json_string_member, json_well_formed, string_member};
use crate::versions::{game_version_supported, supports, GameVersion, ReleasedVersion, SupportedGameVersions};
use vstd::prelude::*;
use vstd::string::{StrSliceExecFns, StringExecFns};

verus! {

/// Why a file was rejected.
#[derive(Debug)]
pub enum ValidationError {
    /// The archive, or an entry of it, could not be read.
    ZipError(zip::result::ZipError),
    /// A manifest is not well-formed JSON.
    SerDeError(serde_json::Error),
    /// The file does not fit what was declared of it; the text says how.
    InvalidInputError(String),
}

/// The verdict on a file that was not rejected.
#[derive(Debug, PartialEq, Eq)]
pub enum ValidationResult {
    /// The file may be marked as primary.
    Pass,
    /// The file must not be marked as primary, for the reason given.
    Warning(String),
}

/// A mod loader that a project declares, such as `fabric`.
#[derive(Debug, Clone)]
pub struct Loader(pub String);

/// The validator of one loader family.
#[derive(Clone, Copy, Debug, PartialEq, Eq, Structural)]
pub enum Validator {
    /// Modpacks for Forge or Fabric, described by `index.json`.
    Pack,
    /// Fabric mods, described by `fabric.mod.json`.
    Fabric,
    /// Forge mods since game version 1.13, described by `META-INF/mods.toml`.
    Forge,
    /// Forge mods from game version 1.5.2 up to 1.13, described by `mcmod.info`.
    LegacyForge,
}

/// What the dispatch decided to do with a file.
#[derive(Debug)]
pub enum Selection {
    /// This validator applies and accepts the file's extension.
    Run(Validator),
    /// Some validator applies, but none of those accepts the file's extension.
    WrongExtension,
    /// No validator applies.
    NoneApplies,
}

/// A result or an error, with the outside payloads of the errors left out.
pub enum Verdict {
    Pass,
    Warning(Seq<char>),
    ArchiveError,
    DecodeError,
    InvalidInput(Seq<char>),
}

/// The verdict that a result or an error stands for.
pub open spec fn verdict_of(r: Result<ValidationResult, ValidationError>) -> Verdict {
    match r {
        Ok(ValidationResult::Pass) => Verdict::Pass,
        Ok(ValidationResult::Warning(s)) => Verdict::Warning(s@),
        Err(ValidationError::ZipError(_)) => Verdict::ArchiveError,
        Err(ValidationError::SerDeError(_)) => Verdict::DecodeError,
        Err(ValidationError::InvalidInputError(s)) => Verdict::InvalidInput(s@),
    }
}

/// Time of the release of game version 1.5.2, in seconds since the Unix epoch.
pub const LEGACY_FORGE_START: i64 = 1366818300;

/// Time of the release of game version 1.13, the first whose Forge mods
/// carry `META-INF/mods.toml`.
pub const MODERN_FORGE_START: i64 = 1540122067;

/// The validators, in the order in which the dispatch consults them.
pub open spec fn registry() -> Seq<Validator> {
    seq![Validator::Pack, Validator::Fabric, Validator::Forge, Validator::LegacyForge]
}

/// Whether `list` holds `s`.
pub open spec fn listed(list: Seq<&str>, s: Seq<char>) -> bool {
    exists|i: int| 0 <= i < list.len() && list[i]@ == s
}

/// An extension without its leading dot, if it has one.
pub open spec fn bare_extension(e: Seq<char>) -> Seq<char> {
    if e.len() > 0 && e[0] == '.' {
        e.subrange(1, e.len() as int)
    } else {
        e
    }
}

/// Whether a name ends with `.class`, the suffix of compiled code.
pub open spec fn is_class_name(n: Seq<char>) -> bool {
    n.len() >= 6 && n.subrange(n.len() - 6, n.len() as int) =~= seq!['.', 'c', 'l', 'a', 's', 's']
}

/// Whether any of the names is one of compiled code.
pub open spec fn has_class_name(names: Set<Seq<char>>) -> bool {
    exists|n: Seq<char>| names.contains(n) && is_class_name(n)
}

/// The verdict on a Forge mod whose manifest is present: it passes when it
/// holds compiled code, and is otherwise a source file.
pub open spec fn code_verdict(v: Validator, has_classes: bool) -> Verdict {
    if has_classes {
        Verdict::Pass
    } else {
        Verdict::Warning(v.source_warning())
    }
}

impl Validator {
    pub open spec fn spec_file_extensions(self) -> Seq<&'static str> {
        match self {
            Validator::Pack => seq!["zip"],
            Validator::Fabric => seq!["jar"],
            _ => seq!["jar", "zip"],
        }
    }

    pub open spec fn spec_project_types(self) -> Seq<&'static str> {
        match self {
            Validator::Pack => seq!["modpack"],
            _ => seq!["mod"],
        }
    }

    pub open spec fn spec_supported_loaders(self) -> Seq<&'static str> {
        match self {
            Validator::Pack => seq!["forge", "fabric"],
            Validator::Fabric => seq!["fabric"],
            _ => seq!["forge"],
        }
    }

    pub open spec fn spec_supported_game_versions(self) -> SupportedGameVersions {
        match self {
            Validator::Forge => SupportedGameVersions::PastDate(MODERN_FORGE_START),
            Validator::LegacyForge => SupportedGameVersions::Range(
                LEGACY_FORGE_START,
                MODERN_FORGE_START,
            ),
            _ => SupportedGameVersions::All,
        }
    }

    /// The name of the entry that describes a file of this family.
    pub open spec fn manifest_name(self) -> Seq<char> {
        match self {
            Validator::Pack => "index.json"@,
            Validator::Fabric => "fabric.mod.json"@,
            Validator::Forge => "META-INF/mods.toml"@,
            Validator::LegacyForge => "mcmod.info"@,
        }
    }

    pub open spec fn missing_message(self) -> Seq<char> {
        match self {
            Validator::Pack => "Pack manifest is missing."@,
            Validator::Fabric => "No fabric.mod.json present for Fabric file."@,
            Validator::Forge => "No mods.toml present for Forge file."@,
            Validator::LegacyForge => "No mcmod.info present for Forge file."@,
        }
    }

    pub open spec fn source_warning(self) -> Seq<char> {
        "Forge mod file is a source file!"@
    }

    /// Whether the manifest of this family is JSON that the validator reads.
    pub open spec fn reads_manifest(self) -> bool {
        self is Pack || self is Fabric
    }

    /// The member of the manifest that the validator inspects.
    pub open spec fn member_key(self) -> Seq<char> {
        if self is Pack {
            "game"@
        } else {
            "id"@
        }
    }

    /// The verdict on a well-formed manifest whose inspected member is `member`.
    pub open spec fn member_verdict(self, member: Option<Seq<char>>) -> Verdict {
        if self is Pack {
            if member == Some("minecraft"@) {
                Verdict::Pass
            } else {
                Verdict::InvalidInput("Pack manifest does not target Minecraft."@)
            }
        } else {
            if member is Some {
                Verdict::Pass
            } else {
                Verdict::InvalidInput("fabric.mod.json has no mod id."@)
            }
        }
    }

    /// The verdict of this validator on an archive with these entries.
    pub open spec fn spec_validate(
        self,
        names: Set<Seq<char>>,
        contents: Map<Seq<char>, Seq<u8>>,
    ) -> Verdict {
        let m = self.manifest_name();
        if !names.contains(m) {
            Verdict::InvalidInput(self.missing_message())
        } else if !self.reads_manifest() {
            code_verdict(self, has_class_name(names))
        } else if !contents.contains_key(m) {
            Verdict::ArchiveError
        } else if !json_well_formed(contents[m]) {
            Verdict::DecodeError
        } else {
            self.member_verdict(json_string_member(contents[m], self.member_key()))
        }
    }

    /// Whether this validator applies to the declared project type, loaders
    /// and game versions.
    pub open spec fn applies(
        self,
        project_type: Seq<char>,
        loaders: Seq<Loader>,
        game_versions: Seq<GameVersion>,
        catalog: Seq<ReleasedVersion>,
    ) -> bool {
        &&& listed(self.spec_project_types(), project_type)
        &&& exists|i: int|
            0 <= i < loaders.len() && #[trigger] listed(self.spec_supported_loaders(), loaders[i].0@)
        &&& supports(game_versions, catalog, self.spec_supported_game_versions())
    }

    /// Whether this validator applies and accepts the extension, taken without
    /// a leading dot.
    pub open spec fn fully_matches(
        self,
        file_extension: Seq<char>,
        project_type: Seq<char>,
        loaders: Seq<Loader>,
        game_versions: Seq<GameVersion>,
        catalog: Seq<ReleasedVersion>,
    ) -> bool {
        self.applies(project_type, loaders, game_versions, catalog) && listed(
            self.spec_file_extensions(),
            bare_extension(file_extension),
        )
    }
}

/// What the dispatch decides for the declared extension, project type,
/// loaders and game versions: the first validator in the registry that applies
/// and accepts the extension runs; failing that, the file is rejected when some
/// validator applies, and otherwise no validator has a say.
pub open spec fn selection(
    file_extension: Seq<char>,
    project_type: Seq<char>,
    loaders: Seq<Loader>,
    game_versions: Seq<GameVersion>,
    catalog: Seq<ReleasedVersion>,
) -> Selection {
    if exists|i: int|
        0 <= i < registry().len() && #[trigger] registry()[i].fully_matches(
            file_extension,
            project_type,
            loaders,
            game_versions,
            catalog,
        ) {
        let i = choose|i: int|
            0 <= i < registry().len() && #[trigger] registry()[i].fully_matches(
                file_extension,
                project_type,
                loaders,
                game_versions,
                catalog,
            ) && forall|j: int|
                0 <= j < i ==> !#[trigger] registry()[j].fully_matches(
                    file_extension,
                    project_type,
                    loaders,
                    game_versions,
                    catalog,
                );
        Selection::Run(registry()[i])
    } else if exists|i: int|
        0 <= i < registry().len() && #[trigger] registry()[i].applies(
            project_type,
            loaders,
            game_versions,
            catalog,
        ) {
        Selection::WrongExtension
    } else {
        Selection::NoneApplies
    }
}

/// The text of the error on an extension that no applicable validator accepts.
pub open spec fn extension_message(file_extension: Seq<char>) -> Seq<char> {
    "File extension "@ + file_extension + " is invalid for input file"@
}

/// The verdict of the dispatch on an archive with these entries.
pub open spec fn dispatch_verdict(
    sel: Selection,
    file_extension: Seq<char>,
    names: Set<Seq<char>>,
    contents: Map<Seq<char>, Seq<u8>>,
) -> Verdict {
    match sel {
        Selection::Run(v) => v.spec_validate(names, contents),
        Selection::WrongExtension => Verdict::InvalidInput(extension_message(file_extension)),
        Selection::NoneApplies => Verdict::Pass,
    }
}

/// Whether two texts are equal.
fn same_text(a: &str, b: &str) -> (r: bool)
    ensures
        r == (a@ == b@),
{
    a.to_owned() == b.to_owned()
}

/// The extension without its leading dot, if it has one.
fn strip_dot(e: &str) -> (r: &str)
    ensures
        r@ == bare_extension(e@),
{
    let n = e.unicode_len();
    if n > 0 && e.get_char(0) == '.' {
        e.substring_char(1, n)
    } else {
        e
    }
}

/// Whether `list` holds `s`.
fn contains_text(list: &Vec<&'static str>, s: &str) -> (r: bool)
    ensures
        r == listed(list@, s@),
{
    let mut i: usize = 0;
    while i < list.len()
        invariant
            0 <= i <= list@.len(),
            forall|j: int| 0 <= j < i ==> list@[j]@ != s@,
        decreases list.len() - i,
    {
        if same_text(list[i], s) {
            return true;
        }
        i = i + 1;
    }
    false
}

/// Whether the name ends with `.class`.
fn is_class_file(n: &String) -> (r: bool)
    ensures
        r == is_class_name(n@),
{
    let t = n.as_str();
    let len = t.unicode_len();
    if len < 6 {
        return false;
    }
    let suffix = ['.', 'c', 'l', 'a', 's', 's'];
    assert(suffix@ =~= seq!['.', 'c', 'l', 'a', 's', 's']);
    let mut k: usize = 0;
    while k < 6
        invariant
            suffix@ == seq!['.', 'c', 'l', 'a', 's', 's'],
            t@ == n@,
            len == n@.len(),
            len >= 6,
            0 <= k <= 6,
            forall|j: int| 0 <= j < k ==> n@[len - 6 + j] == suffix@[j],
        decreases 6 - k,
    {
        if t.get_char(len - 6 + k) != suffix[k] {
            assert(n@.subrange(len - 6, len as int)[k as int] != seq!['.', 'c', 'l', 'a', 's', 's'][k as int]);
            return false;
        }
        k = k + 1;
    }
    assert(n@.subrange(len - 6, len as int) =~= seq!['.', 'c', 'l', 'a', 's', 's']);
    true
}

/// Whether any of the names ends with `.class`.
fn has_class_file(names: &Vec<String>) -> (r: bool)
    ensures
        r == exists|i: int| 0 <= i < names@.len() && is_class_name(#[trigger] names@[i]@),
{
    let mut i: usize = 0;
    while i < names.len()
        invariant
            0 <= i <= names@.len(),
            forall|j: int| 0 <= j < i ==> !is_class_name(#[trigger] names@[j]@),
        decreases names.len() - i,
    {
        if is_class_file(&names[i]) {
            return true;
        }
        i = i + 1;
    }
    false
}

/// The view of an optional text.
pub open spec fn opt_view(o: Option<String>) -> Option<Seq<char>> {
    match o {
        Some(s) => Some(s@),
        None => None,
    }
}

/// Whether `names` holds `m`.
fn contains_name(names: &Vec<String>, m: &str) -> (r: bool)
    ensures
        r == exists|i: int| 0 <= i < names@.len() && #[trigger] names@[i]@ == m@,
{
    let mut i: usize = 0;
    while i < names.len()
        invariant
            0 <= i <= names@.len(),
            forall|j: int| 0 <= j < i ==> #[trigger] names@[j]@ != m@,
        decreases names.len() - i,
    {
        if same_text(names[i].as_str(), m) {
            return true;
        }
        i = i + 1;
    }
    false
}

fn verdict_on_code(v: &Validator, has_classes: bool) -> (r: Result<ValidationResult, ValidationError>)
    ensures
        verdict_of(r) == code_verdict(*v, has_classes),
{
    if has_classes {
        Ok(ValidationResult::Pass)
    } else {
        Ok(ValidationResult::Warning(v.source_file_warning()))
    }
}

impl Validator {
    /// The file extensions that this validator accepts.
    pub fn get_file_extensions(&self) -> (r: Vec<&'static str>)
        ensures
            r@ == self.spec_file_extensions(),
    {
        let r = match self {
            Validator::Pack => vec!["zip"],
            Validator::Fabric => vec!["jar"],
            _ => vec!["jar", "zip"],
        };
        assert(r@ =~= self.spec_file_extensions());
        r
    }

    /// The project types that this validator applies to.
    pub fn get_project_types(&self) -> (r: Vec<&'static str>)
        ensures
            r@ == self.spec_project_types(),
    {
        let r = match self {
            Validator::Pack => vec!["modpack"],
            _ => vec!["mod"],
        };
        assert(r@ =~= self.spec_project_types());
        r
    }

    /// The loaders that this validator applies to.
    pub fn get_supported_loaders(&self) -> (r: Vec<&'static str>)
        ensures
            r@ == self.spec_supported_loaders(),
    {
        let r = match self {
            Validator::Pack => vec!["forge", "fabric"],
            Validator::Fabric => vec!["fabric"],
            _ => vec!["forge"],
        };
        assert(r@ =~= self.spec_supported_loaders());
        r
    }

    /// The game versions that this validator applies to.
    pub fn get_supported_game_versions(&self) -> (r: SupportedGameVersions)
        ensures
            r == self.spec_supported_game_versions(),
    {
        match self {
            Validator::Forge => SupportedGameVersions::PastDate(MODERN_FORGE_START),
            Validator::LegacyForge => SupportedGameVersions::Range(
                LEGACY_FORGE_START,
                MODERN_FORGE_START,
            ),
            _ => SupportedGameVersions::All,
        }
    }

    fn manifest_entry(&self) -> (r: &'static str)
        ensures
            r@ == self.manifest_name(),
    {
        match self {
            Validator::Pack => "index.json",
            Validator::Fabric => "fabric.mod.json",
            Validator::Forge => "META-INF/mods.toml",
            Validator::LegacyForge => "mcmod.info",
        }
    }

    fn missing_manifest(&self) -> (r: String)
        ensures
            r@ == self.missing_message(),
    {
        match self {
            Validator::Pack => <String as StringExecFns>::from_str("Pack manifest is missing."),
            Validator::Fabric => <String as StringExecFns>::from_str(
                "No fabric.mod.json present for Fabric file.",
            ),
            Validator::Forge => <String as StringExecFns>::from_str(
                "No mods.toml present for Forge file.",
            ),
            Validator::LegacyForge => <String as StringExecFns>::from_str(
                "No mcmod.info present for Forge file.",
            ),
        }
    }

    fn source_file_warning(&self) -> (r: String)
        ensures
            r@ == self.source_warning(),
    {
        <String as StringExecFns>::from_str("Forge mod file is a source file!")
    }

    fn member_name(&self) -> (r: &'static str)
        ensures
            r@ == self.member_key(),
    {
        if let Validator::Pack = self {
            "game"
        } else {
            "id"
        }
    }

    /// The verdict on a well-formed manifest whose inspected member (`game` of a
    /// pack, `id` of a Fabric mod) holds `member`.
    pub fn manifest_verdict(&self, member: Option<String>) -> (r: Result<
        ValidationResult,
        ValidationError,
    >)
        ensures
            verdict_of(r) == self.member_verdict(opt_view(member)),
    {
        if let Validator::Pack = self {
            let ok = match &member {
                Some(game) => same_text(game.as_str(), "minecraft"),
                None => false,
            };
            if ok {
                Ok(ValidationResult::Pass)
            } else {
                Err(
                    ValidationError::InvalidInputError(
                        <String as StringExecFns>::from_str(
                            "Pack manifest does not target Minecraft.",
                        ),
                    ),
                )
            }
        } else {
            match member {
                Some(_) => Ok(ValidationResult::Pass),
                None => Err(
                    ValidationError::InvalidInputError(
                        <String as StringExecFns>::from_str("fabric.mod.json has no mod id."),
                    ),
                ),
            }
        }
    }

    /// Validates an opened archive as a file of this family.
    pub fn validate(&self, archive: &mut zip::ZipArchive<std::io::Cursor<Vec<u8>>>) -> (r: Result<
        ValidationResult,
        ValidationError,
    >)
        ensures
            entry_names(*final(archive)) == entry_names(*old(archive)),
            entry_contents(*final(archive)) == entry_contents(*old(archive)),
            verdict_of(r) == self.spec_validate(
                entry_names(*old(archive)),
                entry_contents(*old(archive)),
            ),
    {
        let ghost names0 = entry_names(*archive);
        let names = file_names(archive);
        let m = self.manifest_entry();
        if !contains_name(&names, m) {
            assert(!names0.contains(m@));
            return Err(ValidationError::InvalidInputError(self.missing_manifest()));
        }
        assert(names0.contains(m@));
        if let Validator::Forge | Validator::LegacyForge = self {
            let classes = has_class_file(&names);
            assert(classes == has_class_name(names0)) by {
                if classes {
                    let i = choose|i: int| 0 <= i < names@.len() && is_class_name(#[trigger] names@[i]@);
                    assert(names0.contains(names@[i]@));
                }
                if has_class_name(names0) {
                    let n = choose|n: Seq<char>| names0.contains(n) && is_class_name(n);
                    let i = choose|i: int| 0 <= i < names@.len() && names@[i]@ == n;
                    assert(is_class_name(names@[i]@));
                }
            }
            return verdict_on_code(self, classes);
        }
        let data = match read_entry(archive, m) {
            Ok(d) => d,
            Err(e) => return Err(ValidationError::ZipError(e)),
        };
        match check_json(data.as_slice()) {
            Ok(_) => {},
            Err(e) => return Err(ValidationError::SerDeError(e)),
        }
        let member = string_member(data.as_slice(), self.member_name());
        self.manifest_verdict(member)
    }
}

/// The validators, in the order in which the dispatch consults them.
pub fn validators() -> (r: Vec<Validator>)
    ensures
        r@ == registry(),
{
    let r = vec![Validator::Pack, Validator::Fabric, Validator::Forge, Validator::LegacyForge];
    assert(r@ =~= registry());
    r
}

impl Validator {
    /// Whether this validator applies to the declared project type, loaders
    /// and game versions.
    pub fn applies_to(
        &self,
        project_type: &str,
        loaders: &[Loader],
        game_versions: &[GameVersion],
        all_game_versions: &[ReleasedVersion],
    ) -> (r: bool)
        ensures
            r == self.applies(project_type@, loaders@, game_versions@, all_game_versions@),
    {
        if !contains_text(&self.get_project_types(), project_type) {
            return false;
        }
        let supported = self.get_supported_loaders();
        let mut found = false;
        let mut i: usize = 0;
        while i < loaders.len()
            invariant
                0 <= i <= loaders@.len(),
                supported@ == self.spec_supported_loaders(),
                found == exists|j: int|
                    0 <= j < i && #[trigger] listed(self.spec_supported_loaders(), loaders@[j].0@),
            decreases loaders.len() - i,
        {
            if contains_text(&supported, loaders[i].0.as_str()) {
                found = true;
            }
            i = i + 1;
        }
        if !found {
            return false;
        }
        game_version_supported(game_versions, all_game_versions, self.get_supported_game_versions())
    }
}

/// Decides which validator, if any, rules on a file with the declared
/// extension, project type, loaders and game versions.
pub fn select_validator(
    file_extension: &str,
    project_type: &str,
    loaders: &[Loader],
    game_versions: &[GameVersion],
    all_game_versions: &[ReleasedVersion],
) -> (r: Selection)
    ensures
        r == selection(
            file_extension@,
            project_type@,
            loaders@,
            game_versions@,
            all_game_versions@,
        ),
{
    let registered = validators();
    let bare = strip_dot(file_extension);
    let mut visited = false;
    let mut i: usize = 0;
    while i < registered.len()
        invariant
            0 <= i <= registered@.len(),
            registered@ == registry(),
            bare@ == bare_extension(file_extension@),
            forall|j: int|
                0 <= j < i ==> !#[trigger] registry()[j].fully_matches(
                    file_extension@,
                    project_type@,
                    loaders@,
                    game_versions@,
                    all_game_versions@,
                ),
            visited == exists|j: int|
                0 <= j < i && #[trigger] registry()[j].applies(
                    project_type@,
                    loaders@,
                    game_versions@,
                    all_game_versions@,
                ),
        decreases registered.len() - i,
    {
        let v = registered[i];
        if v.applies_to(project_type, loaders, game_versions, all_game_versions) {
            if contains_text(&v.get_file_extensions(), bare) {
                let ghost k = choose|k: int|
                    0 <= k < registry().len() && #[trigger] registry()[k].fully_matches(
                        file_extension@,
                        project_type@,
                        loaders@,
                        game_versions@,
                        all_game_versions@,
                    ) && forall|j: int|
                        0 <= j < k ==> !#[trigger] registry()[j].fully_matches(
                            file_extension@,
                            project_type@,
                            loaders@,
                            game_versions@,
                            all_game_versions@,
                        );
                assert(registry()[i as int].fully_matches(
                    file_extension@,
                    project_type@,
                    loaders@,
                    game_versions@,
                    all_game_versions@,
                ));
                assert(k == i);
                return Selection::Run(v);
            }
            visited = true;
        }
        i = i + 1;
    }
    if visited {
        Selection::WrongExtension
    } else {
        Selection::NoneApplies
    }
}

/// The text of the error on an extension that no applicable validator accepts.
fn invalid_extension(file_extension: &str) -> (r: String)
    ensures
        r@ == extension_message(file_extension@),
{
    <String as StringExecFns>::from_str("File extension ").concat(file_extension).concat(
        " is invalid for input file",
    )
}

/// Validates an opened archive uploaded with the declared extension, project
/// type, loaders and game versions, the release times of game versions taken
/// from `all_game_versions`.
pub fn validate_archive(
    archive: &mut zip::ZipArchive<std::io::Cursor<Vec<u8>>>,
    file_extension: &str,
    project_type: &str,
    loaders: &[Loader],
    game_versions: &[GameVersion],
    all_game_versions: &[ReleasedVersion],
) -> (r: Result<ValidationResult, ValidationError>)
    ensures
        entry_names(*final(archive)) == entry_names(*old(archive)),
        entry_contents(*final(archive)) == entry_contents(*old(archive)),
        verdict_of(r) == dispatch_verdict(
            selection(
                file_extension@,
                project_type@,
                loaders@,
                game_versions@,
                all_game_versions@,
            ),
            file_extension@,
            entry_names(*old(archive)),
            entry_contents(*old(archive)),
        ),
{
    match select_validator(file_extension, project_type, loaders, game_versions, all_game_versions) {
        Selection::Run(v) => v.validate(archive),
        Selection::WrongExtension => Err(
            ValidationError::InvalidInputError(invalid_extension(file_extension)),
        ),
        Selection::NoneApplies => Ok(ValidationResult::Pass),
    }
}

/// Validates an uploaded file: `data` must be a zip archive, and the validator
/// that the declared extension, project type, loaders and game versions select
/// decides on its entries. Whether the file may be marked as primary is in the
/// result. An extension is compared without its leading dot, if it has one;
/// extensions, project types and loaders are compared with case significant.
pub fn validate_file(
    data: &[u8],
    file_extension: &str,
    project_type: &str,
    loaders: Vec<Loader>,
    game_versions: Vec<GameVersion>,
    all_game_versions: &[ReleasedVersion],
) -> (r: Result<ValidationResult, ValidationError>)
    ensures
        !zip_readable(data@) ==> verdict_of(r) == Verdict::ArchiveError,
        zip_readable(data@) ==> verdict_of(r) == dispatch_verdict(
            selection(
                file_extension@,
                project_type@,
                loaders@,
                game_versions@,
                all_game_versions@,
            ),
            file_extension@,
            zip_entry_names(data@),
            zip_entry_contents(data@),
        ),
{
    let mut zip = match open_archive(data) {
        Ok(z) => z,
        Err(e) => return Err(ValidationError::ZipError(e)),
    };
    let r = validate_archive(
        &mut zip,
        file_extension,
        project_type,
        loaders.as_slice(),
        game_versions.as_slice(),
        all_game_versions,
    );
    r
}

} // verus!
