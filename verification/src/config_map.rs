//! The keyed collection of dataset descriptors.

use vstd::prelude::*;
use vstd::string::*;

use crate::config::{TickerVectorConfig, TickerVectorConfigView};
use crate::keys::{compare_keys, key_lt, lemma_key_lt_asymmetric, lemma_key_lt_transitive, KeyOrder};

verus! {

/// Whether the keys of `entries` strictly ascend.
spec fn ascending(entries: Seq<(String, TickerVectorConfig)>) -> bool {
    forall|i: int, j: int| 0 <= i < j < entries.len() ==> key_lt(entries[i].0@, entries[j].0@)
}

/// Whether the entry at index `i` stands under `key`.
spec fn holds_key(entries: Seq<(String, TickerVectorConfig)>, key: Seq<char>, i: int) -> bool {
    0 <= i < entries.len() && entries[i].0@ == key
}

/// Whether some entry stands under `key`.
spec fn has_key(entries: Seq<(String, TickerVectorConfig)>, key: Seq<char>) -> bool {
    exists|i: int| holds_key(entries, key, i)
}

/// The index of an entry under `key`, where there is one.
spec fn index_of(entries: Seq<(String, TickerVectorConfig)>, key: Seq<char>) -> int {
    choose|i: int| holds_key(entries, key, i)
}

/// The mapping that a list of entries stands for.
spec fn entries_map(entries: Seq<(String, TickerVectorConfig)>) -> Map<
    Seq<char>,
    TickerVectorConfigView,
> {
    Map::new(
        |key: Seq<char>| has_key(entries, key),
        |key: Seq<char>| entries[index_of(entries, key)].1@,
    )
}

/// In an ascending list every entry is what the mapping holds under its key.
proof fn lemma_entry_is_mapped(entries: Seq<(String, TickerVectorConfig)>, i: int)
    requires
        ascending(entries),
        0 <= i < entries.len(),
    ensures
        entries_map(entries).contains_key(entries[i].0@),
        entries_map(entries)[entries[i].0@] == entries[i].1@,
{
    let key = entries[i].0@;
    assert(holds_key(entries, key, i));
    let j = index_of(entries, key);
    if j < i {
        lemma_key_lt_asymmetric(entries[j].0@, entries[i].0@);
    } else if i < j {
        lemma_key_lt_asymmetric(entries[i].0@, entries[j].0@);
    }
}

/// An ascending list holds as many entries as its mapping has keys.
proof fn lemma_map_len(entries: Seq<(String, TickerVectorConfig)>)
    requires
        ascending(entries),
    ensures
        entries_map(entries).dom().finite(),
        entries_map(entries).dom().len() == entries.len(),
    decreases entries.len(),
{
    if entries.len() == 0 {
        assert(entries_map(entries).dom() =~= Set::<Seq<char>>::empty());
    } else {
        let front = entries.drop_last();
        let last = entries.last();
        lemma_map_len(front);
        assert(!entries_map(front).dom().contains(last.0@)) by {
            if entries_map(front).dom().contains(last.0@) {
                let j = index_of(front, last.0@);
                assert(front[j] == entries[j]);
                lemma_key_lt_asymmetric(entries[j].0@, entries[entries.len() - 1].0@);
            }
        }
        assert(entries_map(entries).dom() =~= entries_map(front).dom().insert(last.0@)) by {
            assert forall|key: Seq<char>|
                entries_map(entries).dom().contains(key) implies entries_map(front).dom().insert(
                last.0@,
            ).contains(key) by {
                let j = index_of(entries, key);
                if j < front.len() {
                    assert(holds_key(front, key, j));
                }
            }
            assert forall|key: Seq<char>|
                entries_map(front).dom().insert(last.0@).contains(
                    key,
                ) implies entries_map(entries).dom().contains(key) by {
                if key == last.0@ {
                    assert(holds_key(entries, key, entries.len() - 1));
                } else {
                    let j = index_of(front, key);
                    assert(holds_key(entries, key, j));
                }
            }
        }
    }
}

/// Dataset descriptors by key.
///
/// Each key stands for exactly one descriptor. The entries are kept in the
/// order of `str` on their keys.
#[derive(Debug, PartialEq, Eq)]
pub struct TickerVectorConfigMap {
    entries: Vec<(String, TickerVectorConfig)>,
}

impl View for TickerVectorConfigMap {
    type V = Map<Seq<char>, TickerVectorConfigView>;

    closed spec fn view(&self) -> Map<Seq<char>, TickerVectorConfigView> {
        entries_map(self.entries@)
    }
}

/// Where `key` belongs in an ascending list: the index of its entry if it
/// has one, else the index at which it would be put.
fn locate(entries: &Vec<(String, TickerVectorConfig)>, key: &str) -> (place: (usize, bool))
    requires
        ascending(entries@),
    ensures
        place.0 <= entries@.len(),
        forall|j: int| 0 <= j < place.0 ==> key_lt(entries@[j].0@, key@),
        place.1 ==> place.0 < entries@.len() && entries@[place.0 as int].0@ == key@,
        !place.1 ==> forall|j: int| place.0 <= j < entries@.len() ==> key_lt(key@, entries@[j].0@),
{
    let mut low: usize = 0;
    let mut high: usize = entries.len();
    while low < high
        invariant
            low <= high <= entries@.len(),
            ascending(entries@),
            forall|j: int| 0 <= j < low ==> key_lt(entries@[j].0@, key@),
            forall|j: int| high <= j < entries@.len() ==> key_lt(key@, entries@[j].0@),
        decreases high - low,
    {
        let middle = low + (high - low) / 2;
        match compare_keys(entries[middle].0.as_str(), key) {
            KeyOrder::Same => {
                proof {
                    assert forall|j: int| 0 <= j < middle implies key_lt(entries@[j].0@, key@) by {
                        assert(key_lt(entries@[j].0@, entries@[middle as int].0@));
                    }
                }
                return (middle, true);
            },
            KeyOrder::Before => {
                proof {
                    assert forall|j: int| 0 <= j < middle + 1 implies key_lt(
                        entries@[j].0@,
                        key@,
                    ) by {
                        if j < middle {
                            lemma_key_lt_transitive(
                                entries@[j].0@,
                                entries@[middle as int].0@,
                                key@,
                            );
                        }
                    }
                }
                low = middle + 1;
            },
            KeyOrder::After => {
                proof {
                    assert forall|j: int| middle <= j < entries@.len() implies key_lt(
                        key@,
                        entries@[j].0@,
                    ) by {
                        if middle < j {
                            lemma_key_lt_transitive(
                                key@,
                                entries@[middle as int].0@,
                                entries@[j].0@,
                            );
                        }
                    }
                }
                high = middle;
            },
        }
    }
    (low, false)
}

/// A key that sorts strictly between its neighbours is none of the list's.
proof fn lemma_absent(entries: Seq<(String, TickerVectorConfig)>, key: Seq<char>, at: int)
    requires
        0 <= at <= entries.len(),
        forall|j: int| 0 <= j < at ==> key_lt(entries[j].0@, key),
        forall|j: int| at <= j < entries.len() ==> key_lt(key, entries[j].0@),
    ensures
        !entries_map(entries).contains_key(key),
{
    if entries_map(entries).contains_key(key) {
        let j = index_of(entries, key);
        if j < at {
            lemma_key_lt_asymmetric(entries[j].0@, key);
        } else {
            lemma_key_lt_asymmetric(key, entries[j].0@);
        }
    }
}

impl TickerVectorConfigMap {
    #[verifier::type_invariant]
    spec fn well_formed(&self) -> bool {
        ascending(self.entries@)
    }

    /// A collection without entries.
    pub fn new() -> (configs: Self)
        ensures
            configs@ == Map::<Seq<char>, TickerVectorConfigView>::empty(),
    {
        let configs = TickerVectorConfigMap { entries: Vec::new() };
        assert(configs@ =~= Map::<Seq<char>, TickerVectorConfigView>::empty());
        configs
    }

    /// The number of entries.
    pub fn len(&self) -> (count: usize)
        ensures
            self@.dom().finite(),
            count == self@.len(),
    {
        proof {
            use_type_invariant(self);
            lemma_map_len(self.entries@);
        }
        self.entries.len()
    }

    /// Whether there is no entry.
    pub fn is_empty(&self) -> (empty: bool)
        ensures
            empty == (self@ == Map::<Seq<char>, TickerVectorConfigView>::empty()),
    {
        proof {
            use_type_invariant(self);
            if self.entries@.len() == 0 {
                assert(self@ =~= Map::<Seq<char>, TickerVectorConfigView>::empty());
            } else {
                lemma_entry_is_mapped(self.entries@, 0);
            }
        }
        self.entries.len() == 0
    }

    /// Whether `key` has an entry. Keys are matched exactly and with regard
    /// to case.
    pub fn contains_key(&self, key: &str) -> (found: bool)
        ensures
            found == self@.contains_key(key@),
    {
        self.get(key).is_some()
    }

    /// The descriptor stored under `key`, if there is one. Keys are matched
    /// exactly and with regard to case.
    pub fn get(&self, key: &str) -> (found: Option<&TickerVectorConfig>)
        ensures
            match found {
                Some(config) => self@.contains_key(key@) && config@ == self@[key@],
                None => !self@.contains_key(key@),
            },
    {
        proof {
            use_type_invariant(self);
        }
        let (at, present) = locate(&self.entries, key);
        if present {
            proof {
                lemma_entry_is_mapped(self.entries@, at as int);
            }
            Some(&self.entries[at].1)
        } else {
            proof {
                lemma_absent(self.entries@, key@, at as int);
            }
            None
        }
    }

    /// The keys, each once, in ascending order.
    pub fn keys(&self) -> (keys: Vec<String>)
        ensures
            self@.dom().finite(),
            keys@.len() == self@.len(),
            forall|i: int| 0 <= i < keys@.len() ==> self@.contains_key(#[trigger] keys@[i]@),
            forall|key: Seq<char>|
                self@.contains_key(key) ==> exists|i: int|
                    0 <= i < keys@.len() && #[trigger] keys@[i]@ == key,
            forall|i: int, j: int|
                0 <= i < j < keys@.len() ==> key_lt(#[trigger] keys@[i]@, #[trigger] keys@[j]@),
    {
        proof {
            use_type_invariant(self);
        }
        let mut keys: Vec<String> = Vec::new();
        let mut i: usize = 0;
        while i < self.entries.len()
            invariant
                i <= self.entries@.len(),
                keys@.len() == i,
                forall|j: int| 0 <= j < i ==> (#[trigger] keys@[j])@ == self.entries@[j].0@,
            decreases self.entries@.len() - i,
        {
            keys.push(self.entries[i].0.clone());
            i += 1;
        }
        proof {
            let entries = self.entries@;
            lemma_map_len(entries);
            assert forall|j: int| 0 <= j < keys@.len() implies self@.contains_key(
                #[trigger] keys@[j]@,
            ) by {
                lemma_entry_is_mapped(entries, j);
            }
            assert forall|key: Seq<char>| self@.contains_key(key) implies exists|j: int|
                0 <= j < keys@.len() && #[trigger] keys@[j]@ == key by {
                let j = index_of(entries, key);
                assert(keys@[j]@ == key);
            }
        }
        keys
    }

    /// Stores `config` under `key` and hands back the descriptor that the
    /// key stood for before, if any.
    pub fn insert(&mut self, key: String, config: TickerVectorConfig) -> (previous: Option<
        TickerVectorConfig,
    >)
        ensures
            final(self)@ == old(self)@.insert(key@, config@),
            match previous {
                Some(replaced) => old(self)@.contains_key(key@) && replaced@ == old(self)@[key@],
                None => !old(self)@.contains_key(key@),
            },
    {
        proof {
            use_type_invariant(&*self);
        }
        let mut entries: Vec<(String, TickerVectorConfig)> = Vec::new();
        std::mem::swap(&mut entries, &mut self.entries);
        let ghost before = entries@;
        let (at, present) = locate(&entries, key.as_str());
        let previous = if present {
            proof {
                lemma_entry_is_mapped(before, at as int);
            }
            let replaced = entries.remove(at);
            Some(replaced.1)
        } else {
            proof {
                lemma_absent(before, key@, at as int);
            }
            None
        };
        entries.insert(at, (key, config));
        proof {
            let after = entries@;
            assert forall|i: int, j: int| 0 <= i < j < after.len() implies key_lt(
                after[i].0@,
                after[j].0@,
            ) by {
                if j < at {
                    assert(after[i] == before[i] && after[j] == before[j]);
                } else if j == at {
                    assert(after[i] == before[i]);
                } else if i == at {
                    if present {
                        assert(after[j] == before[j]);
                        assert(key_lt(before[at as int].0@, before[j].0@));
                    } else {
                        assert(after[j] == before[j - 1]);
                    }
                } else if i < at {
                    if present {
                        assert(after[i] == before[i] && after[j] == before[j]);
                    } else {
                        assert(after[i] == before[i] && after[j] == before[j - 1]);
                    }
                } else {
                    if present {
                        assert(after[i] == before[i] && after[j] == before[j]);
                    } else {
                        assert(after[i] == before[i - 1] && after[j] == before[j - 1]);
                    }
                }
            }
            assert(ascending(after));
            let wanted = entries_map(before).insert(key@, config@);
            assert forall|k: Seq<char>|
                #![trigger entries_map(after).dom().contains(k)]
                #![trigger wanted.dom().contains(k)]
                entries_map(after).dom().contains(k) implies wanted.dom().contains(k) by {
                let j = index_of(after, k);
                if j < at {
                    assert(holds_key(before, k, j));
                } else if j > at {
                    if present {
                        assert(holds_key(before, k, j));
                    } else {
                        assert(holds_key(before, k, j - 1));
                    }
                }
            }
            assert forall|k: Seq<char>|
                #![trigger entries_map(after).dom().contains(k)]
                #![trigger wanted.dom().contains(k)]
                wanted.dom().contains(k) implies entries_map(after).dom().contains(k)
                    && entries_map(after)[k] == wanted[k] by {
                if k == key@ {
                    lemma_entry_is_mapped(after, at as int);
                } else {
                    let j = index_of(before, k);
                    lemma_entry_is_mapped(before, j);
                    if j < at {
                        assert(after[j] == before[j]);
                        lemma_entry_is_mapped(after, j);
                    } else if present {
                        assert(after[j] == before[j]);
                        lemma_entry_is_mapped(after, j);
                    } else {
                        assert(after[j + 1] == before[j]);
                        lemma_entry_is_mapped(after, j + 1);
                    }
                }
            }
            assert(entries_map(after).dom() =~= wanted.dom());
            assert(entries_map(after) =~= wanted);
        }
        self.entries = entries;
        previous
    }
}

} // verus!
