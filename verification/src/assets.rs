//! The set of static files that ships with a function.

use vstd::prelude::*;
use crate::text::same_text;

verus! {

/// One collected file: the name it is published under and its bytes.
pub struct StoredAsset {
    pub name: String,
    pub content: Vec<u8>,
}

/// What the remote is told of one asset before any byte is sent.
#[derive(Clone, Debug, PartialEq, Eq)]
pub struct Asset {
    pub name: String,
    pub size: usize,
}

/// A mapping from asset name to content. No name occurs twice; names keep
/// the order in which they first came in.
pub struct AssetSet {
    entries: Vec<StoredAsset>,
}

impl View for AssetSet {
    type V = Map<Seq<char>, Seq<u8>>;

    /// The mapping itself: each name with the bytes stored under it.
    open spec fn view(&self) -> Map<Seq<char>, Seq<u8>> {
        Map::new(
            |name: Seq<char>| self.names().contains(name),
            |name: Seq<char>| self.contents()[self.names().index_of(name)],
        )
    }
}

impl AssetSet {
    /// The names, in the order in which they first came in.
    pub closed spec fn names(&self) -> Seq<Seq<char>> {
        Seq::new(self.entries@.len(), |i: int| self.entries@[i].name@)
    }

    /// The contents, in the order of `names`.
    pub closed spec fn contents(&self) -> Seq<Seq<u8>> {
        Seq::new(self.entries@.len(), |i: int| self.entries@[i].content@)
    }

    /// No name occurs twice, and every name has its content.
    pub open spec fn wf(&self) -> bool {
        &&& self.names().no_duplicates()
        &&& self.names().len() == self.contents().len()
    }

    /// Under a valid set, the name at a position maps to the content at it.
    pub proof fn lemma_entry(&self, i: int)
        requires
            self.wf(),
            0 <= i < self.names().len(),
        ensures
            self@.contains_key(self.names()[i]),
            self@[self.names()[i]] == self.contents()[i],
            self.names().index_of(self.names()[i]) == i,
    {
        let names = self.names();
        assert(names.contains(names[i]));
        let j = names.index_of(names[i]);
        assert(0 <= j < names.len() && names[j] == names[i]);
    }

    /// The set without any asset.
    pub fn new() -> (assets: AssetSet)
        ensures
            assets@ == Map::<Seq<char>, Seq<u8>>::empty(),
            assets.names() == Seq::<Seq<char>>::empty(),
            assets.wf(),
    {
        let assets = AssetSet { entries: Vec::new() };
        assert(assets.names() =~= Seq::<Seq<char>>::empty());
        assert(assets@ =~= Map::<Seq<char>, Seq<u8>>::empty());
        assets
    }

    /// How many assets the set holds.
    pub fn len(&self) -> (n: usize)
        requires
            self.wf(),
        ensures
            n == self.names().len(),
            n == self@.dom().len(),
    {
        proof {
            self.lemma_domain_size();
        }
        self.entries.len()
    }

    /// The domain of a valid set has as many members as there are names.
    pub proof fn lemma_domain_size(&self)
        requires
            self.wf(),
        ensures
            self@.dom() == self.names().to_set(),
            self@.dom().finite(),
            self@.dom().len() == self.names().len(),
    {
        assert(self@.dom() =~= self.names().to_set());
        self.names().unique_seq_to_set();
    }

    /// Where a name stands among the names, if it is one of them.
    fn position(&self, name: &str) -> (found: Option<usize>)
        ensures
            match found {
                Some(i) => i < self.names().len() && self.names()[i as int] == name@,
                None => !self.names().contains(name@),
            },
    {
        let mut i: usize = 0;
        while i < self.entries.len()
            invariant
                i <= self.entries@.len(),
                forall|j: int| 0 <= j < i ==> self.names()[j] != name@,
            decreases self.entries@.len() - i,
        {
            if same_text(self.entries[i].name.as_str(), name) {
                return Some(i);
            }
            i += 1;
        }
        None
    }

    /// Whether an asset of that name is in the set.
    pub fn contains(&self, name: &str) -> (found: bool)
        ensures
            found == self@.contains_key(name@),
    {
        self.position(name).is_some()
    }

    /// The content stored under a name.
    pub fn get(&self, name: &str) -> (content: Option<&Vec<u8>>)
        requires
            self.wf(),
        ensures
            match content {
                Some(bytes) => self@.contains_key(name@) && bytes@ == self@[name@],
                None => !self@.contains_key(name@),
            },
    {
        match self.position(name) {
            Some(i) => {
                proof {
                    self.lemma_entry(i as int);
                }
                Some(&self.entries[i].content)
            },
            None => None,
        }
    }

    /// Stores content under a name. Content already stored under that name
    /// is replaced, and the name keeps its place; a new name goes last.
    pub fn insert(&mut self, name: String, content: Vec<u8>)
        requires
            old(self).wf(),
        ensures
            final(self)@ == old(self)@.insert(name@, content@),
            final(self).wf(),
            old(self)@.contains_key(name@) ==> final(self).names() == old(self).names(),
            !old(self)@.contains_key(name@) ==> final(self).names() == old(self).names().push(name@),
    {
        let ghost before = *self;
        match self.position(name.as_str()) {
            Some(i) => {
                let kept = StoredAsset { name, content };
                self.entries.set(i, kept);
                proof {
                    assert(self.names() =~= before.names());
                    assert(self.contents() =~= before.contents().update(i as int, content@));
                    before.lemma_entry(i as int);
                    assert forall|k: Seq<char>| self@.contains_key(k) implies #[trigger] self@[k]
                        == before@.insert(name@, content@)[k] by {
                        let j = self.names().index_of(k);
                        assert(0 <= j < self.names().len() && self.names()[j] == k);
                    }
                    assert(self@ =~= before@.insert(name@, content@));
                }
            },
            None => {
                self.entries.push(StoredAsset { name, content });
                proof {
                    assert(self.names() =~= before.names().push(name@));
                    assert(self.contents() =~= before.contents().push(content@));
                    assert forall|a: int, b: int|
                        0 <= a < self.names().len() && 0 <= b < self.names().len() && a
                            != b implies self.names()[a] != self.names()[b] by {
                        if a < before.names().len() && b < before.names().len() {
                        } else if a < before.names().len() {
                            assert(before.names().contains(before.names()[a]));
                        } else {
                            assert(before.names().contains(before.names()[b]));
                        }
                    }
                    assert(self.wf());
                    let target = before@.insert(name@, content@);
                    assert forall|k: Seq<char>| #[trigger]
                        target.dom().contains(k) implies self@.dom().contains(k) && self@[k]
                        == target[k] by {
                        if k == name@ {
                            let last = before.names().len() as int;
                            assert(self.names()[last] == k);
                            self.lemma_entry(last);
                        } else {
                            let j = before.names().index_of(k);
                            assert(0 <= j < before.names().len() && before.names()[j] == k);
                            assert(self.names()[j] == k);
                            self.lemma_entry(j);
                            before.lemma_entry(j);
                        }
                    }
                    assert forall|k: Seq<char>| #[trigger]
                        self@.dom().contains(k) implies target.dom().contains(k) by {
                        let j = self.names().index_of(k);
                        assert(0 <= j < self.names().len() && self.names()[j] == k);
                        if j < before.names().len() {
                            assert(before.names()[j] == k);
                        }
                    }
                    assert(self@ =~= before@.insert(name@, content@));
                }
            },
        }
    }

    /// Whether `list` tells name and size of every asset, in the order of
    /// `names`.
    pub open spec fn manifest_is(&self, list: Seq<Asset>) -> bool {
        &&& list.len() == self.names().len()
        &&& forall|i: int|
            0 <= i < list.len() ==> #[trigger] list[i].name@ == self.names()[i] && list[i].size
                == self.contents()[i].len()
    }

    /// Name and size of every asset, in the order of `names`.
    pub fn manifest(&self) -> (list: Vec<Asset>)
        ensures
            self.manifest_is(list@),
    {
        let mut list: Vec<Asset> = Vec::new();
        let mut i: usize = 0;
        while i < self.entries.len()
            invariant
                i <= self.entries@.len(),
                list@.len() == i,
                forall|j: int|
                    0 <= j < i ==> #[trigger] list@[j].name@ == self.names()[j] && list@[j].size
                        == self.contents()[j].len(),
            decreases self.entries@.len() - i,
        {
            let entry = &self.entries[i];
            list.push(Asset { name: entry.name.clone(), size: entry.content.len() });
            i += 1;
        }
        list
    }
}

} // verus!
