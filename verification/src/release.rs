use vstd::prelude::*;

verus! {

/// One downloadable artifact of a release.
#[derive(Debug, Clone, PartialEq, Eq)]
pub struct Asset {
    pub name: String,
    pub download_url: String,
}

/// The mathematical value of an [`Asset`].
pub struct AssetView {
    pub name: Seq<char>,
    pub download_url: Seq<char>,
}

impl View for Asset {
    type V = AssetView;

    open spec fn view(&self) -> AssetView {
        AssetView { name: self.name@, download_url: self.download_url@ }
    }
}

/// A published release: its version as the source gives it, and its assets
/// in the order in which the source lists them.
#[derive(Debug, Clone, PartialEq, Eq)]
pub struct Release {
    pub version: String,
    pub assets: Vec<Asset>,
}

/// The mathematical value of a [`Release`].
pub struct ReleaseView {
    pub version: Seq<char>,
    pub assets: Seq<AssetView>,
}

/// The values of a list of assets, in order.
pub open spec fn assets_view(assets: Seq<Asset>) -> Seq<AssetView> {
    Seq::new(assets.len(), |i: int| assets[i]@)
}

impl View for Release {
    type V = ReleaseView;

    open spec fn view(&self) -> ReleaseView {
        ReleaseView { version: self.version@, assets: assets_view(self.assets@) }
    }
}

/// The first asset whose name is exactly `name`, if there is one.
pub open spec fn first_named(assets: Seq<AssetView>, name: Seq<char>) -> Option<AssetView>
    decreases assets.len(),
{
    if assets.len() == 0 {
        None
    } else if assets[0].name == name {
        Some(assets[0])
    } else {
        first_named(assets.drop_first(), name)
    }
}

/// What [`first_named`] finds is an asset of the list by that name, with no
/// asset of that name before it; it finds nothing only where no asset has
/// the name.
pub proof fn first_named_is_first_match(assets: Seq<AssetView>, name: Seq<char>)
    ensures
        match first_named(assets, name) {
            Some(a) => exists|i: int|
                0 <= i < assets.len() && assets[i] == a && a.name == name && forall|j: int|
                    0 <= j < i ==> (#[trigger] assets[j]).name != name,
            None => forall|j: int| 0 <= j < assets.len() ==> (#[trigger] assets[j]).name != name,
        },
    decreases assets.len(),
{
    if assets.len() == 0 {
    } else if assets[0].name == name {
        assert(assets[0] == first_named(assets, name).unwrap());
    } else {
        let rest = assets.drop_first();
        first_named_is_first_match(rest, name);
        match first_named(rest, name) {
            Some(a) => {
                let i = choose|i: int|
                    0 <= i < rest.len() && rest[i] == a && a.name == name && forall|j: int|
                        0 <= j < i ==> (#[trigger] rest[j]).name != name;
                assert(assets[i + 1] == a);
                assert forall|j: int| 0 <= j < i + 1 implies (#[trigger] assets[j]).name
                    != name by {
                    if j > 0 {
                        assert(rest[j - 1] == assets[j]);
                    }
                }
            },
            None => {
                assert forall|j: int| 0 <= j < assets.len() implies (#[trigger] assets[j]).name
                    != name by {
                    if j > 0 {
                        assert(rest[j - 1] == assets[j]);
                    }
                }
            },
        }
    }
}

/// Looks an asset up by its exact name and hands out the first match.
pub fn find_asset<'a>(assets: &'a Vec<Asset>, name: &String) -> (r: Option<&'a Asset>)
    ensures
        match r {
            Some(a) => first_named(assets_view(assets@), name@) == Some(a@),
            None => first_named(assets_view(assets@), name@).is_none(),
        },
{
    let ghost all = assets_view(assets@);
    let mut i: usize = 0;
    proof {
        assert(all.skip(0) =~= all);
    }
    while i < assets.len()
        invariant
            i <= assets.len(),
            all == assets_view(assets@),
            first_named(all, name@) == first_named(all.skip(i as int), name@),
        decreases assets.len() - i,
    {
        proof {
            assert(all.skip(i as int)[0] == assets@[i as int]@);
            assert(all.skip(i as int).drop_first() =~= all.skip(i + 1));
        }
        if assets[i].name == *name {
            return Some(&assets[i]);
        }
        i = i + 1;
    }
    None
}

} // verus!
