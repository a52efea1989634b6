//! The in-memory configuration tree.
//!
//! Namespaces and properties are kept as vectors of `(name, value)` pairs in
//! which no name occurs twice. The standard ordered map is specified only
//! for keys whose ordering the verifier has a model of, and strings are not
//! among them, so nothing could be proved of a `BTreeMap` keyed by `String`.
//! The order of the names carries no meaning; the file format sorts them
//! when the tree is written.

use vstd::prelude::*;
use crate::assoc::{assoc_map, distinct_keys, Key};
use crate::assoc::{lemma_assoc_map_dom, lemma_assoc_map_index, lemma_assoc_map_push, lemma_assoc_map_update};
use crate::model::{assign, lookup, tree_of, Namespace, Tree};

verus! {

/// The index of a pair with the given key, if there is one.
fn position<V>(entries: &Vec<(String, V)>, key: &String) -> (found: Option<usize>)
    ensures
        match found {
            Some(i) => i < entries@.len() && entries@[i as int].0@ == key@,
            None => forall|i: int| 0 <= i < entries@.len() ==> (#[trigger] entries@[i]).0@ != key@,
        },
{
    let mut i: usize = 0;
    while i < entries.len()
        invariant
            i <= entries@.len(),
            forall|j: int| 0 <= j < i ==> (#[trigger] entries@[j]).0@ != key@,
        decreases entries@.len() - i,
    {
        if entries[i].0 == *key {
            return Some(i);
        }
        i += 1;
    }
    None
}

/// The properties of one namespace: a mapping from property name to value.
#[derive(Debug)]
pub struct ConfigNamespace {
    pub(crate) entries: Vec<(String, String)>,
}

impl View for ConfigNamespace {
    type V = Namespace;

    closed spec fn view(&self) -> Namespace {
        assoc_map(self.pairs())
    }
}

impl ConfigNamespace {
    /// The stored pairs, each string taken as its characters.
    spec fn pairs(&self) -> Seq<(Key, Seq<char>)> {
        self.entries.deep_view()
    }

    /// No property name is stored twice.
    pub closed spec fn wf(&self) -> bool {
        distinct_keys(self.pairs())
    }

    /// A namespace without properties.
    pub fn new() -> (namespace: ConfigNamespace)
        ensures
            namespace.wf(),
            namespace@ == Map::<Key, Seq<char>>::empty(),
    {
        ConfigNamespace { entries: Vec::new() }
    }

    /// The value of `property`, if it is set.
    pub fn get(&self, property: &str) -> (value: Option<&String>)
        requires
            self.wf(),
        ensures
            match value {
                Some(v) => self@.contains_key(property@) && self@[property@] == v@,
                None => !self@.contains_key(property@),
            },
    {
        let key = property.to_owned();
        match position(&self.entries, &key) {
            Some(i) => {
                proof {
                    lemma_assoc_map_index(self.pairs(), i as int);
                }
                Some(&self.entries[i].1)
            },
            None => {
                proof {
                    lemma_assoc_map_dom(self.pairs(), key@);
                }
                None
            },
        }
    }

    /// Sets `property` to `value`, whether or not it was set before.
    pub fn set(&mut self, property: &str, value: &str)
        requires
            old(self).wf(),
        ensures
            final(self).wf(),
            final(self)@ == old(self)@.insert(property@, value@),
    {
        let key = property.to_owned();
        let ghost before = self.pairs();
        match position(&self.entries, &key) {
            Some(i) => {
                self.entries[i].1 = value.to_owned();
                proof {
                    lemma_assoc_map_update(before, i as int, value@);
                    assert(self.pairs() =~= before.update(i as int, (before[i as int].0, value@)));
                }
            },
            None => {
                self.entries.push((key, value.to_owned()));
                proof {
                    lemma_assoc_map_push(before, property@, value@);
                    assert(self.pairs() =~= before.push((property@, value@)));
                }
            },
        }
    }

    /// The namespace that holds the given properties, entered in order.
    pub fn from_entries(entries: &Vec<(String, String)>) -> (namespace: ConfigNamespace)
        ensures
            namespace.wf(),
            namespace@ == assoc_map(entries.deep_view()),
    {
        let mut namespace = ConfigNamespace::new();
        let ghost all = entries.deep_view();
        let mut i: usize = 0;
        while i < entries.len()
            invariant
                i <= entries@.len(),
                all == entries.deep_view(),
                namespace.wf(),
                namespace@ == assoc_map(all.take(i as int)),
            decreases entries@.len() - i,
        {
            namespace.set(entries[i].0.as_str(), entries[i].1.as_str());
            proof {
                lemma_assoc_map_push(all.take(i as int), all[i as int].0, all[i as int].1);
                assert(all.take(i + 1) =~= all.take(i as int).push(all[i as int]));
            }
            i += 1;
        }
        assert(all.take(i as int) =~= all);
        namespace
    }
}

/// The configuration tree: a mapping from namespace name to namespace.
#[derive(Debug)]
pub struct ConfigTree {
    pub(crate) namespaces: Vec<(String, ConfigNamespace)>,
}

impl View for ConfigTree {
    type V = Tree;

    closed spec fn view(&self) -> Tree {
        assoc_map(self.pairs())
    }
}

impl ConfigTree {
    /// The stored namespaces, each name taken as its characters and each
    /// namespace as the map it stands for.
    spec fn pairs(&self) -> Seq<(Key, Namespace)> {
        Seq::new(
            self.namespaces@.len(),
            |i: int| (self.namespaces@[i].0@, self.namespaces@[i].1@),
        )
    }

    /// No namespace name is stored twice, and every namespace is well formed.
    pub closed spec fn wf(&self) -> bool {
        &&& distinct_keys(self.pairs())
        &&& forall|i: int| 0 <= i < self.namespaces@.len() ==> (#[trigger] self.namespaces@[i]).1.wf()
    }

    /// A tree without namespaces.
    pub fn new() -> (tree: ConfigTree)
        ensures
            tree.wf(),
            tree@ == Map::<Key, Namespace>::empty(),
    {
        ConfigTree { namespaces: Vec::new() }
    }

    /// Whether the tree holds a namespace of this name, with or without
    /// properties.
    pub fn contains_namespace(&self, namespace: &str) -> (found: bool)
        requires
            self.wf(),
        ensures
            found == self@.contains_key(namespace@),
    {
        let key = namespace.to_owned();
        let found = position(&self.namespaces, &key);
        proof {
            lemma_assoc_map_dom(self.pairs(), key@);
            if let Some(i) = found {
                lemma_assoc_map_index(self.pairs(), i as int);
            }
        }
        found.is_some()
    }

    /// The value of `property` in `namespace`, if both exist.
    pub fn get(&self, namespace: &str, property: &str) -> (value: Option<&String>)
        requires
            self.wf(),
        ensures
            match value {
                Some(v) => lookup(self@, namespace@, property@) == Some(v@),
                None => lookup(self@, namespace@, property@) is None,
            },
    {
        let key = namespace.to_owned();
        match position(&self.namespaces, &key) {
            Some(i) => {
                proof {
                    lemma_assoc_map_index(self.pairs(), i as int);
                }
                self.namespaces[i].1.get(property)
            },
            None => {
                proof {
                    lemma_assoc_map_dom(self.pairs(), key@);
                }
                None
            },
        }
    }

    /// Puts `properties` under `name`, in place of any namespace of that name.
    pub fn insert_namespace(&mut self, name: &str, properties: ConfigNamespace)
        requires
            old(self).wf(),
            properties.wf(),
        ensures
            final(self).wf(),
            final(self)@ == old(self)@.insert(name@, properties@),
    {
        let key = name.to_owned();
        let ghost before = self.pairs();
        match position(&self.namespaces, &key) {
            Some(i) => {
                self.namespaces[i].1 = properties;
                proof {
                    lemma_assoc_map_update(before, i as int, properties@);
                    assert(self.pairs() =~= before.update(i as int, (before[i as int].0, properties@)));
                }
            },
            None => {
                self.namespaces.push((key, properties));
                proof {
                    lemma_assoc_map_push(before, name@, properties@);
                    assert(self.pairs() =~= before.push((name@, properties@)));
                }
            },
        }
    }

    /// Sets `property` of `namespace` to `value`, creating the namespace if
    /// it does not exist yet.
    pub fn set(&mut self, namespace: &str, property: &str, value: &str)
        requires
            old(self).wf(),
        ensures
            final(self).wf(),
            final(self)@ == assign(old(self)@, namespace@, property@, value@),
    {
        let key = namespace.to_owned();
        let ghost before = self.pairs();
        match position(&self.namespaces, &key) {
            Some(i) => {
                self.namespaces[i].1.set(property, value);
                proof {
                    let changed = before[i as int].1.insert(property@, value@);
                    lemma_assoc_map_index(before, i as int);
                    lemma_assoc_map_update(before, i as int, changed);
                    assert(self.pairs() =~= before.update(i as int, (before[i as int].0, changed)));
                }
            },
            None => {
                let mut properties = ConfigNamespace::new();
                properties.set(property, value);
                self.namespaces.push((key, properties));
                proof {
                    lemma_assoc_map_dom(before, namespace@);
                    lemma_assoc_map_push(before, namespace@, properties@);
                    assert(self.pairs() =~= before.push((namespace@, properties@)));
                }
            },
        }
    }

    /// The tree that holds the given namespaces, entered in order.
    pub fn from_entries(entries: &Vec<(String, Vec<(String, String)>)>) -> (tree: ConfigTree)
        ensures
            tree.wf(),
            tree@ == tree_of(entries.deep_view()),
    {
        let mut tree = ConfigTree::new();
        let ghost all = entries.deep_view().map_values(
            |e: (Key, Seq<(Key, Seq<char>)>)| (e.0, assoc_map(e.1)),
        );
        let mut i: usize = 0;
        while i < entries.len()
            invariant
                i <= entries@.len(),
                all == entries.deep_view().map_values(
                    |e: (Key, Seq<(Key, Seq<char>)>)| (e.0, assoc_map(e.1)),
                ),
                tree.wf(),
                tree@ == assoc_map(all.take(i as int)),
            decreases entries@.len() - i,
        {
            let properties = ConfigNamespace::from_entries(&entries[i].1);
            tree.insert_namespace(entries[i].0.as_str(), properties);
            proof {
                lemma_assoc_map_push(all.take(i as int), all[i as int].0, all[i as int].1);
                assert(all.take(i + 1) =~= all.take(i as int).push(all[i as int]));
            }
            i += 1;
        }
        assert(all.take(i as int) =~= all);
        tree
    }
}

} // verus!
