//! Game versions, the release catalog, and the version policies that
//! validators declare.

use vstd::prelude::*;

verus! {

/// A game version label that a project declares, such as `1.16.5`.
#[derive(Debug, Clone)]
pub struct GameVersion(pub String);

/// One entry of the catalog of known game versions: a label and its release
/// time, in seconds since the Unix epoch.
#[derive(Debug, Clone)]
pub struct ReleasedVersion {
    pub version: String,
    pub date: i64,
}

/// Which declared game versions a validator applies to.
#[derive(Debug)]
pub enum SupportedGameVersions {
    /// Every game version.
    All,
    /// Versions released strictly after the given time.
    PastDate(i64),
    /// Versions released strictly between the two times.
    Range(i64, i64),
    /// Exactly the listed versions, compared by label.
    Custom(Vec<GameVersion>),
}

/// The release time of the first catalog entry labelled `v`, if any.
pub open spec fn release_date(catalog: Seq<ReleasedVersion>, v: Seq<char>) -> Option<i64> {
    if exists|i: int| 0 <= i < catalog.len() && catalog[i].version@ == v {
        let i = choose|i: int|
            0 <= i < catalog.len() && catalog[i].version@ == v && forall|j: int|
                0 <= j < i ==> catalog[j].version@ != v;
        Some(catalog[i].date)
    } else {
        None
    }
}

/// Whether a release time satisfies a date-based policy.
pub open spec fn date_qualifies(policy: SupportedGameVersions, d: i64) -> bool {
    match policy {
        SupportedGameVersions::PastDate(t) => d > t,
        SupportedGameVersions::Range(start, end) => start < d && d < end,
        _ => false,
    }
}

/// Whether the declared versions satisfy `policy`, dates looked up in `catalog`.
/// A declared version missing from the catalog never satisfies a date-based policy.
pub open spec fn supports(
    declared: Seq<GameVersion>,
    catalog: Seq<ReleasedVersion>,
    policy: SupportedGameVersions,
) -> bool {
    match policy {
        SupportedGameVersions::All => true,
        SupportedGameVersions::Custom(listed) => exists|i: int, j: int|
            0 <= i < listed@.len() && 0 <= j < declared.len() && listed@[i].0@ == declared[j].0@,
        _ => exists|j: int|
            0 <= j < declared.len() && #[trigger] dated_match(catalog, policy, declared[j].0@),
    }
}

/// Whether the catalog's release time for `v` satisfies a date-based policy.
pub open spec fn dated_match(
    catalog: Seq<ReleasedVersion>,
    policy: SupportedGameVersions,
    v: Seq<char>,
) -> bool {
    match release_date(catalog, v) {
        Some(d) => date_qualifies(policy, d),
        None => false,
    }
}

/// The release time of `v` in `catalog`: that of its first entry with this label.
pub fn find_release_date(catalog: &[ReleasedVersion], v: &String) -> (r: Option<i64>)
    ensures
        r == release_date(catalog@, v@),
{
    let mut i: usize = 0;
    while i < catalog.len()
        invariant
            0 <= i <= catalog@.len(),
            forall|j: int| 0 <= j < i ==> catalog@[j].version@ != v@,
        decreases catalog.len() - i,
    {
        if catalog[i].version == *v {
            let ghost k = choose|k: int|
                0 <= k < catalog@.len() && catalog@[k].version@ == v@ && forall|j: int|
                    0 <= j < k ==> catalog@[j].version@ != v@;
            assert(catalog@[i as int].version@ == v@);
            assert(k == i) by {
                if k < i {
                } else if k > i {
                    assert(catalog@[i as int].version@ != v@);
                }
            }
            return Some(catalog[i].date);
        }
        i = i + 1;
    }
    None
}

fn date_supported(policy: &SupportedGameVersions, d: i64) -> (r: bool)
    ensures
        r == date_qualifies(*policy, d),
{
    match policy {
        SupportedGameVersions::PastDate(t) => d > *t,
        SupportedGameVersions::Range(start, end) => *start < d && d < *end,
        _ => false,
    }
}

/// Whether any of the declared game versions satisfies `supported_game_versions`.
pub fn game_version_supported(
    game_versions: &[GameVersion],
    all_game_versions: &[ReleasedVersion],
    supported_game_versions: SupportedGameVersions,
) -> (r: bool)
    ensures
        r == supports(game_versions@, all_game_versions@, supported_game_versions),
{
    match &supported_game_versions {
        SupportedGameVersions::All => true,
        SupportedGameVersions::Custom(listed) => {
            let mut i: usize = 0;
            while i < listed.len()
                invariant
                    0 <= i <= listed@.len(),
                    supported_game_versions is Custom,
                    supported_game_versions->Custom_0@ == listed@,
                    forall|a: int, b: int|
                        0 <= a < i && 0 <= b < game_versions@.len() ==> listed@[a].0@
                            != game_versions@[b].0@,
                decreases listed.len() - i,
            {
                let mut j: usize = 0;
                while j < game_versions.len()
                    invariant
                        0 <= i < listed@.len(),
                        supported_game_versions is Custom,
                        supported_game_versions->Custom_0@ == listed@,
                        0 <= j <= game_versions@.len(),
                        forall|b: int| 0 <= b < j ==> listed@[i as int].0@ != game_versions@[b].0@,
                    decreases game_versions.len() - j,
                {
                    if listed[i].0 == game_versions[j].0 {
                        assert(supported_game_versions->Custom_0@ == listed@);
                        assert(listed@[i as int].0@ == game_versions@[j as int].0@);
                        return true;
                    }
                    j = j + 1;
                }
                i = i + 1;
            }
            false
        },
        _ => {
            let mut j: usize = 0;
            while j < game_versions.len()
                invariant
                    0 <= j <= game_versions@.len(),
                    !(supported_game_versions is All),
                    !(supported_game_versions is Custom),
                    forall|b: int|
                        0 <= b < j ==> !dated_match(
                            all_game_versions@,
                            supported_game_versions,
                            game_versions@[b].0@,
                        ),
                decreases game_versions.len() - j,
            {
                match find_release_date(all_game_versions, &game_versions[j].0) {
                    Some(d) => {
                        if date_supported(&supported_game_versions, d) {
                            assert(dated_match(
                                all_game_versions@,
                                supported_game_versions,
                                game_versions@[j as int].0@,
                            ));
                            return true;
                        }
                    },
                    None => {},
                }
                j = j + 1;
            }
            false
        },
    }
}

} // verus!
