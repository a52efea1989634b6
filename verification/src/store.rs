//! The configuration store: a tree together with the file that backs it.

use vstd::prelude::*;
use crate::json::{parse_entries, parsed_entries, pretty_json, render_pretty};
use crate::model::{assign, lookup, tree_of, Tree};
use crate::persist::{temp_name_of, SaveError, SavePlan};
use crate::tree::ConfigTree;

verus! {

/// Why the backing file did not yield a tree.
#[derive(Clone, Copy, Debug, PartialEq, Eq, Structural)]
pub enum LoadError {
    /// The file is missing or could not be read.
    Unreadable,
    /// The file was read, but its contents are not a tree in the file format.
    Malformed,
}

/// What loading makes of the contents of the backing file, `None` standing
/// for a file that could not be read.
pub open spec fn loaded(contents: Option<&[u8]>) -> Result<Tree, LoadError> {
    match contents {
        None => Err(LoadError::Unreadable),
        Some(bytes) => match parsed_entries(bytes@) {
            Some(entries) => Ok(tree_of(entries)),
            None => Err(LoadError::Malformed),
        },
    }
}

/// The tree a store starts with: the loaded one, or the empty tree where
/// loading failed.
pub open spec fn initial_tree(contents: Option<&[u8]>) -> Tree {
    match loaded(contents) {
        Ok(tree) => tree,
        Err(_) => Map::empty(),
    }
}

/// `plan` replaces the file `file_name` with the rendering of `tree`.
pub open spec fn saves(plan: SavePlan, file_name: Seq<char>, tree: Tree) -> bool {
    &&& plan.file_name@ == file_name
    &&& plan.temp_name@ == temp_name_of(file_name)
    &&& plan.contents@ == pretty_json(tree)
}

/// A store whose file is missing or unreadable starts empty: nothing is
/// found in it.
pub proof fn lemma_unreadable_starts_empty(namespace: Seq<char>, property: Seq<char>)
    ensures
        loaded(None) == Err::<Tree, LoadError>(LoadError::Unreadable),
        initial_tree(None) == Map::<Seq<char>, Map<Seq<char>, Seq<char>>>::empty(),
        lookup(initial_tree(None), namespace, property) is None,
{
}

/// A store whose file holds anything but a tree in the file format starts
/// empty, as one without a file does: nothing is found in it.
pub proof fn lemma_malformed_starts_empty(bytes: &[u8], namespace: Seq<char>, property: Seq<char>)
    requires
        loaded(Some(bytes)) == Err::<Tree, LoadError>(LoadError::Malformed),
    ensures
        initial_tree(Some(bytes)) == initial_tree(None),
        lookup(initial_tree(Some(bytes)), namespace, property) is None,
{
}

/// A configuration tree and the name of the file that backs it.
#[derive(Debug)]
pub struct ConfigStore {
    file_name: String,
    config: ConfigTree,
}

impl View for ConfigStore {
    type V = Tree;

    closed spec fn view(&self) -> Tree {
        self.config@
    }
}

impl ConfigStore {
    /// The store's representation is consistent.
    pub closed spec fn wf(&self) -> bool {
        self.config.wf()
    }

    /// The name of the backing file.
    pub closed spec fn path(&self) -> Seq<char> {
        self.file_name@
    }

    /// Reads a tree from the contents of the backing file. `None` stands for
    /// a file that could not be read.
    pub fn load(contents: Option<&[u8]>) -> (outcome: Result<ConfigTree, LoadError>)
        ensures
            match outcome {
                Ok(tree) => tree.wf() && loaded(contents) == Ok::<Tree, LoadError>(tree@),
                Err(error) => loaded(contents) == Err::<Tree, LoadError>(error),
            },
    {
        match contents {
            None => Err(LoadError::Unreadable),
            Some(bytes) => match parse_entries(bytes) {
                Ok(entries) => Ok(ConfigTree::from_entries(&entries)),
                Err(_) => Err(LoadError::Malformed),
            },
        }
    }

    /// The store for `file_name` that starts from the outcome of a load. A
    /// failed load is not an error of the store: it starts empty.
    pub fn from_loaded(file_name: &str, outcome: Result<ConfigTree, LoadError>) -> (store:
        ConfigStore)
        requires
            outcome matches Ok(tree) ==> tree.wf(),
        ensures
            store.wf(),
            store.path() == file_name@,
            store@ == match outcome {
                Ok(tree) => tree@,
                Err(_) => Map::empty(),
            },
    {
        let config = match outcome {
            Ok(tree) => tree,
            Err(_) => ConfigTree::new(),
        };
        ConfigStore { file_name: file_name.to_owned(), config }
    }

    /// The store for `file_name`, given what was read from that file (`None`
    /// where it could not be read). The store holds the tree written in
    /// `contents`, and is empty where there is none.
    pub fn new(file_name: &str, contents: Option<&[u8]>) -> (store: ConfigStore)
        ensures
            store.wf(),
            store.path() == file_name@,
            store@ == initial_tree(contents),
    {
        ConfigStore::from_loaded(file_name, ConfigStore::load(contents))
    }

    /// The name of the backing file.
    pub fn file_name(&self) -> (name: &str)
        ensures
            name@ == self.path(),
    {
        self.file_name.as_str()
    }

    /// Whether the store holds a namespace of this name, with or without
    /// properties.
    pub fn contains_namespace(&self, namespace: &str) -> (found: bool)
        requires
            self.wf(),
        ensures
            found == self@.contains_key(namespace@),
    {
        self.config.contains_namespace(namespace)
    }

    /// The value of `property` in `namespace`, if both exist.
    pub fn get(&self, namespace: &str, property: &str) -> (value: Option<&String>)
        requires
            self.wf(),
        ensures
            match value {
                Some(v) => lookup(self@, namespace@, property@) == Some(v@),
                None => lookup(self@, namespace@, property@) is None,
            },
    {
        self.config.get(namespace, property)
    }

    /// The plan that brings the backing file up to date with the tree. A
    /// plan is always owed: rendering a tree of strings does not fail.
    pub fn save(&self) -> (outcome: Result<SavePlan, SaveError>)
        requires
            self.wf(),
        ensures
            outcome is Ok,
            outcome matches Ok(plan) ==> saves(plan, self.path(), self@),
    {
        match render_pretty(&self.config) {
            Ok(contents) => Ok(SavePlan::new(self.file_name.as_str(), contents)),
            Err(_) => Err(SaveError::Render),
        }
    }

    /// Sets `property` of `namespace` to `value` and plans the save that
    /// every call is followed by, whether or not the value is new. The tree
    /// is changed whether or not the save is later carried out.
    pub fn set(&mut self, namespace: &str, property: &str, value: &str) -> (outcome: Result<
        SavePlan,
        SaveError,
    >)
        requires
            old(self).wf(),
        ensures
            final(self).wf(),
            final(self).path() == old(self).path(),
            final(self)@ == assign(old(self)@, namespace@, property@, value@),
            lookup(final(self)@, namespace@, property@) == Some(value@),
            outcome is Ok,
            outcome matches Ok(plan) ==> saves(plan, final(self).path(), final(self)@),
    {
        self.config.set(namespace, property, value);
        self.save()
    }
}

} // verus!
