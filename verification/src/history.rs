//! The history store: what was known of each file after the last run.

use vstd::prelude::*;
use vstd::hash_map::StringHashMap;
use crate::error::SyncError;

verus! {

/// What the store remembers of one file.
#[derive(Debug, PartialEq, Eq)]
pub struct HistoryElement {
    /// Canonical path of the file.
    pub file_path: String,
    /// Content fingerprint, present when it was computed. The text names the
    /// algorithm that computed it, whatever the name of this field suggests.
    pub md5_hash: Option<String>,
    /// Modification time when the file was last seen.
    pub modified_time: i64,
    /// Size in bytes when the file was last seen, where it was recorded.
    pub size: Option<u64>,
}

/// The mathematical value of a [`HistoryElement`].
pub struct ElementView {
    pub file_path: Seq<char>,
    pub md5_hash: Option<Seq<char>>,
    pub modified_time: i64,
    pub size: Option<u64>,
}

/// The characters of an optional string.
pub open spec fn text_of(s: Option<String>) -> Option<Seq<char>> {
    match s {
        Some(t) => Some(t@),
        None => None,
    }
}

impl View for HistoryElement {
    type V = ElementView;

    open spec fn view(&self) -> ElementView {
        ElementView {
            file_path: self.file_path@,
            md5_hash: text_of(self.md5_hash),
            modified_time: self.modified_time,
            size: self.size,
        }
    }
}

impl Clone for HistoryElement {
    fn clone(&self) -> (copy: Self)
        ensures
            copy@ == self@,
    {
        let md5_hash = match &self.md5_hash {
            Some(h) => Some(h.clone()),
            None => None,
        };
        HistoryElement {
            file_path: self.file_path.clone(),
            md5_hash,
            modified_time: self.modified_time,
            size: self.size,
        }
    }
}

/// One line of the store: a key and the element recorded under it.
#[derive(Debug, PartialEq, Eq)]
pub struct HistoryEntry {
    /// The lookup key: the canonical path of a file.
    pub key: String,
    /// What is recorded under the key.
    pub element: HistoryElement,
}

impl View for HistoryEntry {
    type V = (Seq<char>, ElementView);

    open spec fn view(&self) -> (Seq<char>, ElementView) {
        (self.key@, self.element@)
    }
}

impl Clone for HistoryEntry {
    fn clone(&self) -> (copy: Self)
        ensures
            copy@ == self@,
    {
        HistoryEntry { key: self.key.clone(), element: self.element.clone() }
    }
}

/// The values of a sequence of entries.
pub open spec fn entry_views(entries: Seq<HistoryEntry>) -> Seq<(Seq<char>, ElementView)> {
    Seq::new(entries.len(), |i: int| entries[i]@)
}

/// The mapping that results from recording `entries` one after the other:
/// where a key occurs more than once, its last entry stands.
pub open spec fn map_of(entries: Seq<(Seq<char>, ElementView)>) -> Map<Seq<char>, ElementView>
    decreases entries.len(),
{
    if entries.len() == 0 {
        Map::empty()
    } else {
        map_of(entries.drop_last()).insert(entries.last().0, entries.last().1)
    }
}

/// Whether `entries` lists `mapping`: every entry is a pair of the mapping,
/// every key of the mapping has an entry, and no key has two.
pub open spec fn lists(entries: Seq<(Seq<char>, ElementView)>, mapping: Map<Seq<char>, ElementView>) -> bool {
    &&& forall|i: int|
        0 <= i < entries.len() ==> mapping.contains_pair((#[trigger] entries[i]).0, entries[i].1)
    &&& forall|k: Seq<char>| #[trigger]
        mapping.contains_key(k) ==> exists|i: int| 0 <= i < entries.len() && (#[trigger] entries[i]).0 == k
    &&& forall|i: int, j: int|
        0 <= i < j < entries.len() ==> (#[trigger] entries[i]).0 != (#[trigger] entries[j]).0
}

/// What was found where the history is kept between runs.
#[derive(Debug)]
pub enum HistorySource {
    /// There is no history file: nothing has been synchronised yet.
    Absent,
    /// There is a history file, and it cannot be understood.
    Malformed { reason: String },
    /// The entries of the history file, in the order in which it holds them.
    Entries { entries: Vec<HistoryEntry> },
}

/// The name of the file that a store is written to before it takes the place
/// of the file at `path`.
pub open spec fn temporary_path_of(path: Seq<char>) -> Seq<char> {
    path + ".tmp"@
}

/// The file to write a store to, so that the file at `path` is replaced by
/// renaming and is never seen half written. It is never `path` itself.
pub fn temporary_path(path: &str) -> (temporary: String)
    ensures
        temporary@ == temporary_path_of(path@),
        temporary@ != path@,
{
    proof {
        reveal_strlit(".tmp");
        assert((path@ + ".tmp"@).len() == path@.len() + 4);
    }
    String::from_str(path).concat(".tmp")
}

/// A mapping from canonical path to the element recorded for it.
///
/// The entries are kept in a vector; an index from key to position makes a
/// lookup independent of the number of entries.
pub struct HistoryStore {
    slots: Vec<HistoryEntry>,
    index: StringHashMap<usize>,
}

impl View for HistoryStore {
    type V = Map<Seq<char>, ElementView>;

    closed spec fn view(&self) -> Map<Seq<char>, ElementView> {
        Map::new(
            |k: Seq<char>| self.index@.contains_key(k),
            |k: Seq<char>| self.slots@[self.index@[k] as int].element@,
        )
    }
}

impl HistoryStore {
    #[verifier::type_invariant]
    spec fn indexed(&self) -> bool {
        &&& forall|k: Seq<char>| #[trigger]
            self.index@.contains_key(k) ==> (self.index@[k] as int) < self.slots@.len()
                && self.slots@[self.index@[k] as int].key@ == k
        &&& forall|i: int|
            0 <= i < self.slots@.len() ==> self.index@.contains_key(
                #[trigger] self.slots@[i].key@,
            ) && self.index@[self.slots@[i].key@] as int == i
    }

    /// A store that knows no file.
    pub fn new() -> (store: Self)
        ensures
            store@ == Map::<Seq<char>, ElementView>::empty(),
    {
        let store = HistoryStore { slots: Vec::new(), index: StringHashMap::new() };
        assert(store@ =~= Map::<Seq<char>, ElementView>::empty());
        store
    }

    /// The store to start a run from. Where there is no history file yet, the
    /// store is empty. A file that cannot be understood is an error, never an
    /// empty store.
    pub fn load(source: HistorySource) -> (outcome: Result<Self, SyncError>)
        ensures
            match source {
                HistorySource::Absent => outcome is Ok && outcome->Ok_0@ == Map::<
                    Seq<char>,
                    ElementView,
                >::empty(),
                HistorySource::Malformed { reason } => outcome == Err::<Self, SyncError>(
                    SyncError::CorruptHistory { reason },
                ),
                HistorySource::Entries { entries } => outcome is Ok && outcome->Ok_0@ == map_of(
                    entry_views(entries@),
                ),
            },
    {
        match source {
            HistorySource::Absent => Ok(HistoryStore::new()),
            HistorySource::Malformed { reason } => Err(SyncError::CorruptHistory { reason }),
            HistorySource::Entries { entries } => Ok(HistoryStore::from_entries(entries)),
        }
    }

    /// The element recorded under `key`, if there is one.
    pub fn get(&self, key: &str) -> (found: Option<&HistoryElement>)
        ensures
            match found {
                Some(element) => self@.contains_key(key@) && element@ == self@[key@],
                None => !self@.contains_key(key@),
            },
    {
        proof {
            use_type_invariant(self);
        }
        match self.index.get(key) {
            Some(position) => Some(&self.slots[*position].element),
            None => None,
        }
    }

    /// Records `element` under `key`, in place of what was recorded there.
    pub fn put(&mut self, key: String, element: HistoryElement)
        ensures
            final(self)@ == old(self)@.insert(key@, element@),
    {
        proof {
            use_type_invariant(&*self);
        }
        let mut taken = HistoryStore::new();
        std::mem::swap(self, &mut taken);
        let HistoryStore { mut slots, mut index } = taken;
        let found = match index.get(key.as_str()) {
            Some(position) => Some(*position),
            None => None,
        };
        match found {
            Some(position) => {
                slots[position].element = element;
            },
            None => {
                let position = slots.len();
                index.insert(key.clone(), position);
                slots.push(HistoryEntry { key, element });
            },
        }
        *self = HistoryStore { slots, index };
        assert(self@ =~= old(self)@.insert(key@, element@));
    }

    /// Whether an element is recorded under `key`.
    pub fn contains(&self, key: &str) -> (present: bool)
        ensures
            present == self@.contains_key(key@),
    {
        self.index.contains_key(key)
    }

    /// The number of keys.
    pub fn len(&self) -> (count: usize)
        ensures
            self@.dom().finite(),
            count == self@.len(),
    {
        proof {
            use_type_invariant(self);
            assert(self@.dom() =~= self.index@.dom());
            self.lemma_index_is_finite(self.slots@.len());
        }
        self.index.len()
    }

    /// Whether the store knows no file.
    pub fn is_empty(&self) -> (empty: bool)
        ensures
            empty == (self@ == Map::<Seq<char>, ElementView>::empty()),
    {
        proof {
            assert(self@.dom() =~= self.index@.dom());
            if self.index@.is_empty() {
                assert(self@ =~= Map::<Seq<char>, ElementView>::empty());
            }
        }
        self.index.is_empty()
    }

    /// All entries of the store, each key once.
    pub fn entries(&self) -> (listing: Vec<HistoryEntry>)
        ensures
            lists(entry_views(listing@), self@),
    {
        proof {
            use_type_invariant(self);
        }
        let mut listing: Vec<HistoryEntry> = Vec::new();
        let mut i: usize = 0;
        while i < self.slots.len()
            invariant
                i <= self.slots.len(),
                listing@.len() == i,
                forall|j: int| 0 <= j < i ==> (#[trigger] listing@[j])@ == self.slots@[j]@,
            decreases self.slots.len() - i,
        {
            listing.push(self.slots[i].clone());
            i = i + 1;
        }
        proof {
            let views = entry_views(listing@);
            assert forall|j: int| 0 <= j < views.len() implies self@.contains_pair(
                (#[trigger] views[j]).0,
                views[j].1,
            ) by {
                assert(self.index@.contains_key(self.slots@[j].key@));
            }
            assert forall|k: Seq<char>| #[trigger] self@.contains_key(k) implies exists|j: int|
                0 <= j < views.len() && (#[trigger] views[j]).0 == k by {
                let j = self.index@[k] as int;
                assert(views[j].0 == k);
            }
            assert forall|a: int, b: int| 0 <= a < b < views.len() implies (#[trigger] views[a]).0 != (
            #[trigger] views[b]).0 by {
                assert(self.index@[self.slots@[a].key@] as int == a);
                assert(self.index@[self.slots@[b].key@] as int == b);
            }
        }
        listing
    }

    /// The store that results from recording `entries` one after the other.
    pub fn from_entries(entries: Vec<HistoryEntry>) -> (store: Self)
        ensures
            store@ == map_of(entry_views(entries@)),
    {
        let mut store = HistoryStore::new();
        let ghost all = entry_views(entries@);
        let mut i: usize = 0;
        assert(all.take(0) =~= Seq::empty());
        while i < entries.len()
            invariant
                i <= entries.len(),
                all == entry_views(entries@),
                store@ == map_of(all.take(i as int)),
            decreases entries.len() - i,
        {
            proof {
                assert(all.take(i + 1).drop_last() =~= all.take(i as int));
            }
            let entry = entries[i].clone();
            store.put(entry.key, entry.element);
            i = i + 1;
        }
        assert(all.take(i as int) =~= all);
        store
    }

    proof fn lemma_index_is_finite(&self, n: nat)
        requires
            self.indexed(),
            n <= self.slots@.len(),
        ensures
            Set::new(|k: Seq<char>| self.index@.contains_key(k) && (self.index@[k] as nat) < n).finite(),
            n == self.slots@.len() ==> self.index@.dom().finite(),
        decreases n,
    {
        let upto = Set::new(|k: Seq<char>| self.index@.contains_key(k) && (self.index@[k] as nat) < n);
        if n == 0 {
            assert(upto =~= Set::empty());
        } else {
            self.lemma_index_is_finite((n - 1) as nat);
            let before = Set::new(
                |k: Seq<char>| self.index@.contains_key(k) && (self.index@[k] as nat) < (n - 1) as nat,
            );
            let key = self.slots@[n - 1].key@;
            assert(upto =~= before.insert(key));
        }
        if n == self.slots@.len() {
            assert(self.index@.dom() =~= upto);
        }
    }
}

/// Recording the entries that list a mapping gives that mapping back: what
/// [`HistoryStore::entries`] hands out, [`HistoryStore::from_entries`] turns
/// into an equal store.
pub proof fn lemma_listing_round_trip(
    entries: Seq<(Seq<char>, ElementView)>,
    mapping: Map<Seq<char>, ElementView>,
)
    requires
        lists(entries, mapping),
    ensures
        map_of(entries) == mapping,
{
    lemma_map_of_contents(entries);
    assert forall|k: Seq<char>| map_of(entries).contains_key(k) == mapping.contains_key(k) by {
        if map_of(entries).contains_key(k) {
            let i = choose|i: int| 0 <= i < entries.len() && (#[trigger] entries[i]).0 == k;
            assert(mapping.contains_pair(entries[i].0, entries[i].1));
        }
    }
    assert forall|k: Seq<char>| map_of(entries).contains_key(k) implies map_of(entries)[k] == mapping[k] by {
        let i = choose|i: int|
            0 <= i < entries.len() && (#[trigger] entries[i]).0 == k && map_of(entries)[k] == entries[i].1;
        assert(mapping.contains_pair(entries[i].0, entries[i].1));
    }
    assert(map_of(entries) =~= mapping);
}

/// The keys of [`map_of`] are the keys of the entries, and each is mapped to
/// the element of one of its entries.
pub proof fn lemma_map_of_contents(entries: Seq<(Seq<char>, ElementView)>)
    ensures
        forall|k: Seq<char>| #[trigger]
            map_of(entries).contains_key(k) <==> exists|i: int|
                0 <= i < entries.len() && (#[trigger] entries[i]).0 == k,
        forall|k: Seq<char>| #[trigger]
            map_of(entries).contains_key(k) ==> exists|i: int|
                0 <= i < entries.len() && (#[trigger] entries[i]).0 == k && map_of(entries)[k]
                    == entries[i].1,
    decreases entries.len(),
{
    if entries.len() > 0 {
        let front = entries.drop_last();
        lemma_map_of_contents(front);
        assert forall|k: Seq<char>| #[trigger] map_of(entries).contains_key(k) implies exists|i: int|
            0 <= i < entries.len() && (#[trigger] entries[i]).0 == k && map_of(entries)[k]
                == entries[i].1 by {
            if k == entries.last().0 {
                assert(entries[entries.len() - 1].0 == k);
            } else {
                let i = choose|i: int|
                    0 <= i < front.len() && (#[trigger] front[i]).0 == k && map_of(front)[k] == front[i].1;
                assert(entries[i] == front[i]);
            }
        }
        assert forall|k: Seq<char>|
            (exists|i: int| 0 <= i < entries.len() && (#[trigger] entries[i]).0 == k) implies #[trigger]
            map_of(entries).contains_key(k) by {
            let i = choose|i: int| 0 <= i < entries.len() && (#[trigger] entries[i]).0 == k;
            if i < front.len() {
                assert(front[i].0 == k);
                assert(map_of(front).contains_key(k));
            } else {
                assert(k == entries.last().0);
            }
        }
    }
}

} // verus!
