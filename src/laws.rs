//! Properties that the dispatch and the version policies have for all inputs.

use crate::archive::{entry_contents, entry_names};
use crate::manifest::{json_string_member, json_well_formed};
use crate::validate::{bare_extension, dispatch_verdict, listed, extension_message, registry, selection, Loader, Selection, Validator, Verdict};
use crate::versions::{dated_match, release_date, supports, GameVersion, ReleasedVersion, SupportedGameVersions};
use vstd::prelude::*;

verus! {

/// The labels of a list of game versions, as a set.
pub open spec fn labels(s: Seq<GameVersion>) -> Set<Seq<char>> {
    Set::new(|v: Seq<char>| exists|i: int| 0 <= i < s.len() && s[i].0@ == v)
}

/// When no validator applies to the declared project type, loaders and game
/// versions, the file passes, whatever its entries.
pub proof fn lemma_no_validator_passes(
    file_extension: Seq<char>,
    project_type: Seq<char>,
    loaders: Seq<Loader>,
    game_versions: Seq<GameVersion>,
    catalog: Seq<ReleasedVersion>,
    names: Set<Seq<char>>,
    contents: Map<Seq<char>, Seq<u8>>,
)
    requires
        forall|i: int|
            0 <= i < registry().len() ==> !#[trigger] registry()[i].applies(
                project_type,
                loaders,
                game_versions,
                catalog,
            ),
    ensures
        selection(file_extension, project_type, loaders, game_versions, catalog)
            == Selection::NoneApplies,
        dispatch_verdict(
            selection(file_extension, project_type, loaders, game_versions, catalog),
            file_extension,
            names,
            contents,
        ) == Verdict::Pass,
{
}

/// When exactly one validator applies and accepts the extension, its verdict
/// on the archive's entries is the verdict of the dispatch.
pub proof fn lemma_single_match_decides(
    k: int,
    file_extension: Seq<char>,
    project_type: Seq<char>,
    loaders: Seq<Loader>,
    game_versions: Seq<GameVersion>,
    catalog: Seq<ReleasedVersion>,
    names: Set<Seq<char>>,
    contents: Map<Seq<char>, Seq<u8>>,
)
    requires
        0 <= k < registry().len(),
        registry()[k].fully_matches(file_extension, project_type, loaders, game_versions, catalog),
        forall|j: int|
            0 <= j < registry().len() && j != k ==> !#[trigger] registry()[j].fully_matches(
                file_extension,
                project_type,
                loaders,
                game_versions,
                catalog,
            ),
    ensures
        selection(file_extension, project_type, loaders, game_versions, catalog) == Selection::Run(
            registry()[k],
        ),
        dispatch_verdict(
            selection(file_extension, project_type, loaders, game_versions, catalog),
            file_extension,
            names,
            contents,
        ) == registry()[k].spec_validate(names, contents),
{
    let i = choose|i: int|
        0 <= i < registry().len() && #[trigger] registry()[i].fully_matches(
            file_extension,
            project_type,
            loaders,
            game_versions,
            catalog,
        ) && forall|j: int|
            0 <= j < i ==> !#[trigger] registry()[j].fully_matches(
                file_extension,
                project_type,
                loaders,
                game_versions,
                catalog,
            );
    assert(i == k);
}

/// When some validator applies but none of those that apply accepts the
/// extension, the file is rejected with an error that names the extension.
pub proof fn lemma_wrong_extension_rejected(
    file_extension: Seq<char>,
    project_type: Seq<char>,
    loaders: Seq<Loader>,
    game_versions: Seq<GameVersion>,
    catalog: Seq<ReleasedVersion>,
    names: Set<Seq<char>>,
    contents: Map<Seq<char>, Seq<u8>>,
)
    requires
        exists|i: int|
            0 <= i < registry().len() && #[trigger] registry()[i].applies(
                project_type,
                loaders,
                game_versions,
                catalog,
            ),
        forall|i: int|
            0 <= i < registry().len() ==> !#[trigger] registry()[i].fully_matches(
                file_extension,
                project_type,
                loaders,
                game_versions,
                catalog,
            ),
    ensures
        selection(file_extension, project_type, loaders, game_versions, catalog)
            == Selection::WrongExtension,
        dispatch_verdict(
            selection(file_extension, project_type, loaders, game_versions, catalog),
            file_extension,
            names,
            contents,
        ) == Verdict::InvalidInput(extension_message(file_extension)),
{
}

/// A fixed list of versions is supported exactly when it shares a label with
/// the declared versions, as sets, whatever the catalog.
pub proof fn lemma_custom_is_intersection(
    declared: Seq<GameVersion>,
    catalog: Seq<ReleasedVersion>,
    listed: Vec<GameVersion>,
)
    ensures
        supports(declared, catalog, SupportedGameVersions::Custom(listed)) <==> exists|v: Seq<char>|
            labels(listed@).contains(v) && labels(declared).contains(v),
{
    if supports(declared, catalog, SupportedGameVersions::Custom(listed)) {
        let (i, j) = choose|i: int, j: int|
            0 <= i < listed@.len() && 0 <= j < declared.len() && listed@[i].0@ == declared[j].0@;
        assert(labels(listed@).contains(listed@[i].0@));
        assert(labels(declared).contains(listed@[i].0@));
    }
    if exists|v: Seq<char>| labels(listed@).contains(v) && labels(declared).contains(v) {
        let v = choose|v: Seq<char>| labels(listed@).contains(v) && labels(declared).contains(v);
        let i = choose|i: int| 0 <= i < listed@.len() && listed@[i].0@ == v;
        let j = choose|j: int| 0 <= j < declared.len() && declared[j].0@ == v;
        assert(listed@[i].0@ == declared[j].0@);
        let p = SupportedGameVersions::Custom(listed);
        assert(p->Custom_0@[i].0@ == declared[j].0@);
    }
}

/// A release-date threshold is met exactly when some declared version has a
/// catalog entry released strictly after it.
pub proof fn lemma_past_date_needs_later_release(
    declared: Seq<GameVersion>,
    catalog: Seq<ReleasedVersion>,
    threshold: i64,
)
    ensures
        supports(declared, catalog, SupportedGameVersions::PastDate(threshold)) <==> exists|j: int|
            0 <= j < declared.len() && match #[trigger] release_date(catalog, declared[j].0@) {
                Some(d) => d > threshold,
                None => false,
            },
{
    let p = SupportedGameVersions::PastDate(threshold);
    if supports(declared, catalog, p) {
        let j = choose|j: int| 0 <= j < declared.len() && #[trigger] dated_match(catalog, p, declared[j].0@);
        assert(match release_date(catalog, declared[j].0@) {
            Some(d) => d > threshold,
            None => false,
        });
    }
    if exists|j: int|
        0 <= j < declared.len() && match #[trigger] release_date(catalog, declared[j].0@) {
            Some(d) => d > threshold,
            None => false,
        } {
        let j = choose|j: int|
            0 <= j < declared.len() && match #[trigger] release_date(catalog, declared[j].0@) {
                Some(d) => d > threshold,
                None => false,
            };
        assert(dated_match(catalog, p, declared[j].0@));
    }
}

/// A release-date threshold is not met when each declared version is missing
/// from the catalog or released at or before the threshold.
pub proof fn lemma_past_date_fails_closed(
    declared: Seq<GameVersion>,
    catalog: Seq<ReleasedVersion>,
    threshold: i64,
)
    requires
        forall|j: int|
            0 <= j < declared.len() ==> match #[trigger] release_date(catalog, declared[j].0@) {
                Some(d) => d <= threshold,
                None => true,
            },
    ensures
        !supports(declared, catalog, SupportedGameVersions::PastDate(threshold)),
{
    lemma_past_date_needs_later_release(declared, catalog, threshold);
}

/// A second validation of one archive, with equal declarations, reaches the
/// verdict of the first: validating keeps the entries of the archive, and the
/// verdict is a function of those entries and the declarations.
pub proof fn lemma_revalidation_agrees(
    before: zip::ZipArchive<std::io::Cursor<Vec<u8>>>,
    after: zip::ZipArchive<std::io::Cursor<Vec<u8>>>,
    file_extension: Seq<char>,
    project_type: Seq<char>,
    loaders: Seq<Loader>,
    game_versions: Seq<GameVersion>,
    catalog: Seq<ReleasedVersion>,
)
    requires
        entry_names(after) == entry_names(before),
        entry_contents(after) == entry_contents(before),
    ensures
        dispatch_verdict(
            selection(file_extension, project_type, loaders, game_versions, catalog),
            file_extension,
            entry_names(after),
            entry_contents(after),
        ) == dispatch_verdict(
            selection(file_extension, project_type, loaders, game_versions, catalog),
            file_extension,
            entry_names(before),
            entry_contents(before),
        ),
{
}

/// A mod declared for the `fabric` loader and uploaded as a `jar` file passes
/// when its archive holds a readable `fabric.mod.json` that is well-formed JSON
/// with a string `id`, whatever its game versions and other entries.
pub proof fn lemma_fabric_manifest_passes(
    file_extension: Seq<char>,
    loaders: Seq<Loader>,
    game_versions: Seq<GameVersion>,
    catalog: Seq<ReleasedVersion>,
    names: Set<Seq<char>>,
    contents: Map<Seq<char>, Seq<u8>>,
)
    requires
        bare_extension(file_extension) == "jar"@,
        exists|i: int| 0 <= i < loaders.len() && loaders[i].0@ == "fabric"@,
        names.contains("fabric.mod.json"@),
        contents.contains_key("fabric.mod.json"@),
        json_well_formed(contents["fabric.mod.json"@]),
        json_string_member(contents["fabric.mod.json"@], "id"@) is Some,
    ensures
        selection(file_extension, "mod"@, loaders, game_versions, catalog) == Selection::Run(
            Validator::Fabric,
        ),
        dispatch_verdict(
            selection(file_extension, "mod"@, loaders, game_versions, catalog),
            file_extension,
            names,
            contents,
        ) == Verdict::Pass,
{
    reveal_strlit("mod");
    reveal_strlit("modpack");
    reveal_strlit("fabric");
    reveal_strlit("jar");
    let pt = "mod"@;
    let i = choose|i: int| 0 <= i < loaders.len() && loaders[i].0@ == "fabric"@;
    let fabric = Validator::Fabric;
    assert(fabric.spec_project_types()[0]@ == pt);
    assert(listed(fabric.spec_project_types(), pt));
    assert(fabric.spec_supported_loaders()[0]@ == loaders[i].0@);
    assert(listed(fabric.spec_supported_loaders(), loaders[i].0@));
    assert(fabric.spec_file_extensions()[0]@ == bare_extension(file_extension));
    assert(registry()[1].fully_matches(file_extension, pt, loaders, game_versions, catalog));
    assert(!listed(Validator::Pack.spec_project_types(), pt)) by {
        assert(Validator::Pack.spec_project_types()[0]@ != pt) by {
            assert(Validator::Pack.spec_project_types()[0]@.len() != pt.len());
        }
    }
    assert(!registry()[0].fully_matches(file_extension, pt, loaders, game_versions, catalog));
    let k = choose|k: int|
        0 <= k < registry().len() && #[trigger] registry()[k].fully_matches(
            file_extension,
            pt,
            loaders,
            game_versions,
            catalog,
        ) && forall|j: int|
            0 <= j < k ==> !#[trigger] registry()[j].fully_matches(
                file_extension,
                pt,
                loaders,
                game_versions,
                catalog,
            );
    assert(k == 1);
    reveal_strlit("fabric.mod.json");
    reveal_strlit("id");
}

} // verus!
