//! The artifacts of one release: which file names it holds, and where each
//! can be downloaded.

use crate::text::str_eq;
use vstd::prelude::*;

verus! {

/// One artifact of a release, as the API lists it.
#[derive(Debug)]
pub struct Artifact {
    /// The file name.
    pub name: String,
    /// The URL from which the API serves the file.
    pub url: String,
}

/// The artifacts of one release: a mapping from file name to download URL
/// that does not change once it is built.
#[derive(Debug)]
pub struct Artifacts {
    assets: Vec<Artifact>,
}

/// The name and the URL of each listed artifact, in order.
pub open spec fn listing(assets: Seq<Artifact>) -> Seq<(Seq<char>, Seq<char>)> {
    assets.map_values(|asset: Artifact| (asset.name@, asset.url@))
}

/// The mapping that a listing stands for. Where a name is listed more than
/// once, its first entry counts.
pub open spec fn index_of(listed: Seq<(Seq<char>, Seq<char>)>) -> Map<Seq<char>, Seq<char>>
    decreases listed.len(),
{
    if listed.len() == 0 {
        Map::empty()
    } else {
        let earlier = index_of(listed.drop_last());
        if earlier.dom().contains(listed.last().0) {
            earlier
        } else {
            earlier.insert(listed.last().0, listed.last().1)
        }
    }
}

/// Whether no name is listed twice.
pub open spec fn names_differ(listed: Seq<(Seq<char>, Seq<char>)>) -> bool {
    forall|i: int, j: int| 0 <= i < j < listed.len() ==> listed[i].0 != listed[j].0
}

/// Whether `name` is the name of an entry of the listing.
pub open spec fn lists(listed: Seq<(Seq<char>, Seq<char>)>, name: Seq<char>) -> bool {
    exists|i: int| 0 <= i < listed.len() && (#[trigger] listed[i]).0 == name
}

/// The names of an index are those of its listing.
proof fn lemma_index_names(listed: Seq<(Seq<char>, Seq<char>)>, name: Seq<char>)
    ensures
        index_of(listed).dom().contains(name) <==> lists(listed, name),
    decreases listed.len(),
{
    if listed.len() > 0 {
        let earlier = listed.drop_last();
        lemma_index_names(earlier, name);
        if lists(earlier, name) {
            let i = choose|i: int| 0 <= i < earlier.len() && (#[trigger] earlier[i]).0 == name;
            assert(listed[i].0 == name);
        }
        if listed.last().0 == name {
            assert(listed[listed.len() - 1].0 == name);
        }
        if lists(listed, name) {
            let i = choose|i: int| 0 <= i < listed.len() && (#[trigger] listed[i]).0 == name;
            if i < listed.len() - 1 {
                assert(earlier[i].0 == name);
            }
        }
    }
}

/// In a listing without repeated names, each entry is what the index holds
/// under its name.
proof fn lemma_index_entry(listed: Seq<(Seq<char>, Seq<char>)>, at: int)
    requires
        names_differ(listed),
        0 <= at < listed.len(),
    ensures
        index_of(listed).dom().contains(listed[at].0),
        index_of(listed)[listed[at].0] == listed[at].1,
    decreases listed.len(),
{
    let earlier = listed.drop_last();
    lemma_index_names(earlier, listed[at].0);
    if at < listed.len() - 1 {
        assert(names_differ(earlier));
        lemma_index_entry(earlier, at);
        assert(earlier[at] == listed[at]);
    } else {
        if lists(earlier, listed.last().0) {
            let i = choose|i: int|
                0 <= i < earlier.len() && (#[trigger] earlier[i]).0 == listed.last().0;
            assert(listed[i].0 == listed[at].0);
        }
    }
}

/// Where `name` stands among `assets`, if it does.
fn position(assets: &Vec<Artifact>, name: &str) -> (at: Option<usize>)
    ensures
        at matches Some(i) ==> i < assets.len() && assets[i as int].name@ == name@,
        at is None ==> forall|i: int| 0 <= i < assets.len() ==> assets[i].name@ != name@,
{
    let mut i: usize = 0;
    while i < assets.len()
        invariant
            i <= assets.len(),
            forall|j: int| 0 <= j < i ==> assets[j].name@ != name@,
        decreases assets.len() - i,
    {
        if str_eq(assets[i].name.as_str(), name) {
            return Some(i);
        }
        i += 1;
    }
    None
}

impl View for Artifacts {
    type V = Map<Seq<char>, Seq<char>>;

    closed spec fn view(&self) -> Map<Seq<char>, Seq<char>> {
        index_of(listing(self.assets@))
    }
}

impl Artifacts {
    #[verifier::type_invariant]
    spec fn names_are_unique(&self) -> bool {
        names_differ(listing(self.assets@))
    }

    /// Builds the index of a release from the artifacts that the API lists
    /// for it. Of two artifacts with one name the first is kept.
    pub fn new(listed: Vec<Artifact>) -> (index: Self)
        ensures
            index@ == index_of(listing(listed@)),
    {
        let ghost all = listing(listed@);
        let mut kept: Vec<Artifact> = Vec::new();
        for asset in it: listed
            invariant
                all == listing(it.seq()),
                names_differ(listing(kept@)),
                index_of(listing(kept@)) == index_of(all.take(it.index() as int)),
        {
            let ghost done = all.take(it.index() as int);
            let ghost held = listing(kept@);
            proof {
                let n = it.index() + 1;
                assert(all.take(n).drop_last() =~= done);
                assert(all.take(n).last() == (asset.name@, asset.url@));
                lemma_index_names(held, asset.name@);
            }
            match position(&kept, asset.name.as_str()) {
                Some(at) => {
                    proof {
                        assert(held[at as int].0 == asset.name@);
                    }
                },
                None => {
                    proof {
                        let added = held.push((asset.name@, asset.url@));
                        assert(listing(kept@.push(asset)) =~= added);
                        assert(added.drop_last() =~= held);
                        assert(names_differ(added));
                        assert forall|i: int| 0 <= i < held.len() implies (#[trigger] held[i]).0
                            != asset.name@ by {
                            assert(kept@[i].name@ != asset.name@);
                        }
                    }
                    kept.push(asset);
                },
            }
        }
        proof {
            assert(all.take(all.len() as int) =~= all);
        }
        Artifacts { assets: kept }
    }

    /// The URL from which the artifact `artifact_name` can be downloaded, if
    /// the release holds an artifact of exactly that name.
    pub fn get_artifact_url(&self, artifact_name: &str) -> (url: Option<String>)
        ensures
            url matches Some(found) ==> self@.dom().contains(artifact_name@) && self@[artifact_name@]
                == found@,
            url is None ==> !self@.dom().contains(artifact_name@),
    {
        proof {
            use_type_invariant(self);
            lemma_index_names(listing(self.assets@), artifact_name@);
        }
        match position(&self.assets, artifact_name) {
            Some(i) => {
                proof {
                    lemma_index_entry(listing(self.assets@), i as int);
                }
                Some(self.assets[i].url.clone())
            },
            None => {
                proof {
                    let held = listing(self.assets@);
                    assert forall|i: int| 0 <= i < held.len() implies (#[trigger] held[i]).0
                        != artifact_name@ by {
                        assert(self.assets@[i].name@ != artifact_name@);
                    }
                }
                None
            },
        }
    }
}

} // verus!
