//! Releases and their downloadable assets.
//!
//! A resolution attempt that has to download the binary fetches the latest
//! release and picks the first asset whose name ends with the platform's
//! suffix.

use vstd::prelude::*;

verus! {

/// One downloadable file attached to a release.
pub struct ReleaseAsset {
    pub name: String,
    pub download_url: String,
}

/// A fetched release: its version tag and its assets.
pub struct Release {
    pub version: String,
    pub assets: Vec<ReleaseAsset>,
}

/// Mathematical model of an asset: its name and download URL as character
/// sequences.
pub struct AssetModel {
    pub name: Seq<char>,
    pub url: Seq<char>,
}

/// Mathematical model of a release.
pub struct ReleaseModel {
    pub version: Seq<char>,
    pub assets: Seq<AssetModel>,
}

impl View for ReleaseAsset {
    type V = AssetModel;

    open spec fn view(&self) -> AssetModel {
        AssetModel { name: self.name@, url: self.download_url@ }
    }
}

impl View for Release {
    type V = ReleaseModel;

    open spec fn view(&self) -> ReleaseModel {
        ReleaseModel {
            version: self.version@,
            assets: self.assets@.map_values(|a: ReleaseAsset| a@),
        }
    }
}

/// Holds when `suffix` is the final run of characters of `s`.
pub open spec fn ends_with(s: Seq<char>, suffix: Seq<char>) -> bool {
    suffix.len() <= s.len() && s.skip(s.len() - suffix.len()) == suffix
}

/// The index of the first asset whose name ends with `suffix`, if any.
pub open spec fn first_matching(assets: Seq<AssetModel>, suffix: Seq<char>) -> Option<int>
    decreases assets.len(),
{
    if assets.len() == 0 {
        None
    } else if ends_with(assets[0].name, suffix) {
        Some(0int)
    } else {
        match first_matching(assets.skip(1), suffix) {
            Some(i) => Some(i + 1),
            None => None,
        }
    }
}

/// The first match is a match, nothing before it matches, and where there
/// is no first match nothing matches at all.
pub proof fn lemma_first_matching_characterization(assets: Seq<AssetModel>, suffix: Seq<char>)
    ensures
        match first_matching(assets, suffix) {
            Some(i) => 0 <= i < assets.len() && ends_with(assets[i].name, suffix) && (forall|
                j: int,
            |
                0 <= j < i ==> !ends_with(assets[j].name, suffix)),
            None => forall|j: int| 0 <= j < assets.len() ==> !ends_with(assets[j].name, suffix),
        },
    decreases assets.len(),
{
    if assets.len() == 0 {
    } else if ends_with(assets[0].name, suffix) {
    } else {
        let rest = assets.skip(1);
        lemma_first_matching_characterization(rest, suffix);
        assert(forall|j: int| 1 <= j < assets.len() ==> assets[j] == rest[j - 1]);
        match first_matching(rest, suffix) {
            Some(i) => {
                assert(assets[i + 1] == rest[i]);
                assert(forall|j: int| 0 <= j < i + 1 ==> !ends_with(assets[j].name, suffix));
            },
            None => {
                assert(forall|j: int| 0 <= j < assets.len() ==> !ends_with(assets[j].name, suffix));
            },
        }
    }
}

/// Relies on str::ends_with with a string pattern: it returns true exactly
/// when the pattern's characters close the string.
#[verifier::external_body]
fn str_ends_with(s: &str, suffix: &str) -> (r: bool)
    ensures
        r == ends_with(s@, suffix@),
{
    s.ends_with(suffix)
}

/// Finds the first asset whose name ends with `suffix`.
pub fn select_asset(assets: &Vec<ReleaseAsset>, suffix: &str) -> (r: Option<usize>)
    ensures
        match r {
            Some(i) => i < assets@.len() && first_matching(
                assets@.map_values(|a: ReleaseAsset| a@),
                suffix@,
            ) == Some(i as int),
            None => first_matching(assets@.map_values(|a: ReleaseAsset| a@), suffix@) is None,
        },
{
    let ghost models = assets@.map_values(|a: ReleaseAsset| a@);
    let mut k: usize = 0;
    while k < assets.len()
        invariant
            k <= assets@.len(),
            models == assets@.map_values(|a: ReleaseAsset| a@),
            forall|j: int| 0 <= j < k ==> !ends_with(models[j].name, suffix@),
        decreases assets@.len() - k,
    {
        if str_ends_with(assets[k].name.as_str(), suffix) {
            proof {
                assert(models[k as int].name == assets@[k as int].name@);
                lemma_first_matching_characterization(models, suffix@);
            }
            return Some(k);
        }
        k += 1;
    }
    proof {
        lemma_first_matching_characterization(models, suffix@);
    }
    None
}

} // verus!
