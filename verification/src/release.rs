//! Releases as the remote index reports them, and exact-name asset lookup.

use vstd::prelude::*;

verus! {

/// One downloadable file attached to a release.
pub struct Asset {
    pub name: String,
    pub download_url: String,
}

/// The latest release the remote index returned: a version tag and the
/// assets attached to it.
pub struct Release {
    pub version: String,
    pub assets: Vec<Asset>,
}

/// Finds the first asset whose name equals `name` exactly. No fallback: a
/// near miss is no match.
pub fn find_asset<'a>(assets: &'a Vec<Asset>, name: &String) -> (r: Option<&'a Asset>)
    ensures
        match r {
            Some(asset) => {
                &&& exists|i: int|
                    {
                        &&& 0 <= i < assets@.len()
                        &&& assets@[i].name@ == name@
                        &&& asset == &assets@[i]
                        &&& forall|j: int| 0 <= j < i ==> assets@[j].name@ != name@
                    }
                &&& asset.name@ == name@
            },
            None => forall|i: int| 0 <= i < assets@.len() ==> assets@[i].name@ != name@,
        },
{
    let mut k: usize = 0;
    while k < assets.len()
        invariant
            k <= assets@.len(),
            forall|j: int| 0 <= j < k ==> assets@[j].name@ != name@,
        decreases assets@.len() - k,
    {
        if assets[k].name == *name {
            return Some(&assets[k]);
        }
        k = k + 1;
    }
    None
}

} // verus!
