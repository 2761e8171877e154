//! Release descriptors and asset lookup.

use vstd::prelude::*;
use vstd::string::*;

verus! {

/// A downloadable file attached to a release.
#[derive(Clone, Debug, PartialEq, Eq)]
pub struct Asset {
    pub name: String,
    pub download_url: String,
}

/// A published version of the tool together with its assets.
#[derive(Clone, Debug, PartialEq, Eq)]
pub struct Release {
    pub version: String,
    pub assets: Vec<Asset>,
}

/// Mathematical content of an [`Asset`].
pub struct AssetModel {
    pub name: Seq<char>,
    pub download_url: Seq<char>,
}

/// Mathematical content of a [`Release`].
pub struct ReleaseModel {
    pub version: Seq<char>,
    pub assets: Seq<AssetModel>,
}

impl DeepView for Asset {
    type V = AssetModel;

    open spec fn deep_view(&self) -> AssetModel {
        AssetModel { name: self.name@, download_url: self.download_url@ }
    }
}

impl DeepView for Release {
    type V = ReleaseModel;

    open spec fn deep_view(&self) -> ReleaseModel {
        ReleaseModel { version: self.version@, assets: self.assets.deep_view() }
    }
}

/// `i` is the position of the first asset called `name`.
pub open spec fn is_first_match(assets: Seq<AssetModel>, name: Seq<char>, i: int) -> bool {
    &&& 0 <= i < assets.len()
    &&& assets[i].name == name
    &&& forall|j: int| 0 <= j < i ==> (#[trigger] assets[j]).name != name
}

/// Some asset is called `name`.
pub open spec fn has_asset(assets: Seq<AssetModel>, name: Seq<char>) -> bool {
    exists|i: int| 0 <= i < assets.len() && (#[trigger] assets[i]).name == name
}

/// Position of the first asset called `name`, if any asset has that name.
pub open spec fn first_match_of(assets: Seq<AssetModel>, name: Seq<char>) -> Option<int> {
    if exists|i: int| is_first_match(assets, name, i) {
        Some(choose|i: int| is_first_match(assets, name, i))
    } else {
        None
    }
}

/// At most one position is the first match.
pub proof fn lemma_first_match_unique(assets: Seq<AssetModel>, name: Seq<char>, i: int, k: int)
    requires
        is_first_match(assets, name, i),
        is_first_match(assets, name, k),
    ensures
        i == k,
{
    if i < k {
        assert(assets[i].name != name);
    } else if k < i {
        assert(assets[k].name != name);
    }
}

/// Finds the first asset of `assets` whose name equals `name`.
///
/// Returns its position, or `None` exactly when no asset carries that name.
pub fn find_asset(assets: &Vec<Asset>, name: &str) -> (found: Option<usize>)
    ensures
        match found {
            Some(i) => is_first_match(assets.deep_view(), name@, i as int),
            None => !has_asset(assets.deep_view(), name@),
        },
        found == match first_match_of(assets.deep_view(), name@) {
            Some(i) => Some(i as usize),
            None => None,
        },
{
    let wanted = String::from_str(name);
    let ghost models = assets.deep_view();
    let mut i: usize = 0;
    while i < assets.len()
        invariant
            i <= assets.len(),
            models == assets.deep_view(),
            wanted@ == name@,
            forall|j: int| 0 <= j < i ==> (#[trigger] models[j]).name != name@,
        decreases assets.len() - i,
    {
        if assets[i].name == wanted {
            proof {
                assert(models[i as int].name == name@);
                assert(is_first_match(models, name@, i as int));
                let c = choose|c: int| is_first_match(models, name@, c);
                lemma_first_match_unique(models, name@, i as int, c);
            }
            return Some(i);
        }
        assert(models[i as int].name != name@);
        i += 1;
    }
    proof {
        assert forall|c: int| !is_first_match(models, name@, c) by {
            if 0 <= c < models.len() {
                assert(models[c].name != name@);
            }
        }
    }
    None
}

} // verus!
