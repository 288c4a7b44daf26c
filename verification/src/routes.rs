//! What every page needs to know of the files that are served beside it.

use vstd::prelude::*;

verus! {

/// A file that is served as it is, and the path under which it is served.
#[derive(Debug, PartialEq, Eq)]
pub struct Asset {
    pub name: String,
    pub path: String,
}

/// The files that are served as they are. Of two with one name the first counts.
#[derive(Debug, PartialEq, Eq)]
pub struct AssetCache {
    pub assets: Vec<Asset>,
}

/// Whether the asset at `place` is named `name` and none before it is.
pub open spec fn first_named(assets: Seq<Asset>, name: Seq<char>, place: int) -> bool {
    &&& 0 <= place < assets.len()
    &&& assets[place].name@ == name
    &&& forall|j: int| 0 <= j < place ==> (#[trigger] assets[j]).name@ != name
}

/// Whether an asset is named `name`.
pub open spec fn holds(assets: Seq<Asset>, name: Seq<char>) -> bool {
    exists|i: int| 0 <= i < assets.len() && (#[trigger] assets[i]).name@ == name
}

/// The path of the first asset named `name`.
pub open spec fn path_of_asset(assets: Seq<Asset>, name: Seq<char>) -> Option<Seq<char>> {
    if holds(assets, name) {
        Some(assets[choose|place: int| first_named(assets, name, place)].path@)
    } else {
        None
    }
}

/// There is one first asset of a name, so its path is the path of that name.
pub proof fn lemma_first_named_is_the_one(assets: Seq<Asset>, name: Seq<char>, place: int)
    requires
        first_named(assets, name, place),
    ensures
        holds(assets, name),
        path_of_asset(assets, name) == Some(assets[place].path@),
{
    let chosen = choose|other: int| first_named(assets, name, other);
    assert(chosen == place) by {
        if chosen < place {
            assert(assets[chosen].name@ != name);
        } else if place < chosen {
            assert(assets[place].name@ != name);
        }
    }
}

impl AssetCache {
    /// The first asset named `name`, if there is one of that name.
    pub fn get(&self, name: &str) -> (r: Option<&Asset>)
        ensures
            match r {
                Some(asset) => exists|place: int|
                    first_named(self.assets@, name@, place) && *asset == self.assets@[place],
                None => !holds(self.assets@, name@),
            },
            path_of_asset(self.assets@, name@) == match r {
                Some(asset) => Some(asset.path@),
                None => None,
            },
    {
        let wanted: String = name.to_owned();
        let mut i: usize = 0;
        while i < self.assets.len()
            invariant
                i <= self.assets.len(),
                wanted@ == name@,
                forall|j: int| 0 <= j < i ==> (#[trigger] self.assets@[j]).name@ != name@,
            decreases self.assets.len() - i,
        {
            let asset = &self.assets[i];
            if asset.name == wanted {
                proof {
                    assert(first_named(self.assets@, name@, i as int));
                    lemma_first_named_is_the_one(self.assets@, name@, i as int);
                }
                return Some(asset);
            }
            i += 1;
        }
        None
    }
}

/// The paths of the style sheet, of the script and of the icon of the pages.
#[derive(Debug, PartialEq, Eq)]
pub struct BaseTemplateData {
    styles: String,
    scripts: String,
    favicon: String,
}

impl Clone for BaseTemplateData {
    fn clone(&self) -> (r: Self)
        ensures
            r.styles_path() == self.styles_path(),
            r.scripts_path() == self.scripts_path(),
            r.favicon_path() == self.favicon_path(),
    {
        BaseTemplateData {
            styles: self.styles.clone(),
            scripts: self.scripts.clone(),
            favicon: self.favicon.clone(),
        }
    }
}

impl BaseTemplateData {
    pub closed spec fn styles_path(&self) -> Seq<char> {
        self.styles@
    }

    pub closed spec fn scripts_path(&self) -> Seq<char> {
        self.scripts@
    }

    pub closed spec fn favicon_path(&self) -> Seq<char> {
        self.favicon@
    }

    /// Whether `assets` holds the three files that the pages need.
    pub open spec fn complete(assets: Seq<Asset>) -> bool {
        &&& path_of_asset(assets, "index.css"@) is Some
        &&& path_of_asset(assets, "index.js"@) is Some
        &&& path_of_asset(assets, "favicon.ico"@) is Some
    }

    /// The paths under which `assets` serves `index.css`, `index.js` and
    /// `favicon.ico`.
    pub fn new(assets: &AssetCache) -> (r: Self)
        requires
            Self::complete(assets.assets@),
        ensures
            Some(r.styles_path()) == path_of_asset(assets.assets@, "index.css"@),
            Some(r.scripts_path()) == path_of_asset(assets.assets@, "index.js"@),
            Some(r.favicon_path()) == path_of_asset(assets.assets@, "favicon.ico"@),
    {
        let styles = assets.get("index.css").unwrap().path.clone();
        let scripts = assets.get("index.js").unwrap().path.clone();
        let favicon = assets.get("favicon.ico").unwrap().path.clone();
        BaseTemplateData { styles, scripts, favicon }
    }

    /// Like [`BaseTemplateData::new`], for a cache that may lack a file: then there
    /// is no result.
    pub fn try_new(assets: &AssetCache) -> (r: Option<Self>)
        ensures
            r is Some == Self::complete(assets.assets@),
            r is Some ==> {
                &&& Some(r->0.styles_path()) == path_of_asset(assets.assets@, "index.css"@)
                &&& Some(r->0.scripts_path()) == path_of_asset(assets.assets@, "index.js"@)
                &&& Some(r->0.favicon_path()) == path_of_asset(assets.assets@, "favicon.ico"@)
            },
    {
        if assets.get("index.css").is_some() && assets.get("index.js").is_some() && assets.get(
            "favicon.ico",
        ).is_some() {
            Some(BaseTemplateData::new(assets))
        } else {
            None
        }
    }

    pub fn styles(&self) -> (r: &str)
        ensures
            r@ == self.styles_path(),
    {
        self.styles.as_str()
    }

    pub fn scripts(&self) -> (r: &str)
        ensures
            r@ == self.scripts_path(),
    {
        self.scripts.as_str()
    }

    pub fn favicon(&self) -> (r: &str)
        ensures
            r@ == self.favicon_path(),
    {
        self.favicon.as_str()
    }
}

} // verus!
