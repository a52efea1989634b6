//! What the store holds, as plain maps.
//!
//! The contracts of the tree and of the store are stated over these
//! functions; the lemmas at the end are the guarantees a user of the store
//! can build on.

use vstd::prelude::*;
use crate::assoc::{assoc_map, Key};

verus! {

/// The properties of one namespace: property name to value.
pub type Namespace = Map<Key, Seq<char>>;

/// The whole configuration: namespace name to namespace.
pub type Tree = Map<Key, Namespace>;

/// A tree as it comes out of a file: the namespaces in file order, each with
/// its properties in file order.
pub type Entries = Seq<(Key, Seq<(Key, Seq<char>)>)>;

/// The value stored for `property` in `namespace`. A missing namespace and a
/// missing property both give `None`.
pub open spec fn lookup(tree: Tree, namespace: Key, property: Key) -> Option<Seq<char>> {
    if tree.contains_key(namespace) && tree[namespace].contains_key(property) {
        Some(tree[namespace][property])
    } else {
        None
    }
}

/// The tree after `property` of `namespace` has been set to `value`: the
/// namespace is created if it is missing, the property inserted or replaced,
/// and nothing else changes.
pub open spec fn assign(tree: Tree, namespace: Key, property: Key, value: Seq<char>) -> Tree {
    let properties = if tree.contains_key(namespace) {
        tree[namespace]
    } else {
        Map::empty()
    };
    tree.insert(namespace, properties.insert(property, value))
}

/// The tree that a sequence of entries stands for.
pub open spec fn tree_of(entries: Entries) -> Tree {
    assoc_map(entries.map_values(|e: (Key, Seq<(Key, Seq<char>)>)| (e.0, assoc_map(e.1))))
}

/// One write: namespace, property and value.
pub type Write = (Key, Key, Seq<char>);

/// The tree after the given writes have been applied to `tree`, one after
/// another.
pub open spec fn assign_all(tree: Tree, writes: Seq<Write>) -> Tree
    decreases writes.len(),
{
    if writes.len() == 0 {
        tree
    } else {
        let last = writes.last();
        assign(assign_all(tree, writes.drop_last()), last.0, last.1, last.2)
    }
}

/// `write` sets the given property of the given namespace.
pub open spec fn targets(write: Write, namespace: Key, property: Key) -> bool {
    write.0 == namespace && write.1 == property
}

/// A value that has just been set is the value that is found.
pub proof fn lemma_lookup_after_assign(tree: Tree, namespace: Key, property: Key, value: Seq<char>)
    ensures
        lookup(assign(tree, namespace, property, value), namespace, property) == Some(value),
{
}

/// Setting one property leaves every other property, of the same and of
/// every other namespace, as it was.
pub proof fn lemma_assign_keeps_others(
    tree: Tree,
    namespace: Key,
    property: Key,
    value: Seq<char>,
    other_namespace: Key,
    other_property: Key,
)
    requires
        other_namespace != namespace || other_property != property,
    ensures
        lookup(assign(tree, namespace, property, value), other_namespace, other_property)
            == lookup(tree, other_namespace, other_property),
{
}

/// Nothing is found in a namespace that the tree does not hold.
pub proof fn lemma_lookup_missing_namespace(tree: Tree, namespace: Key, property: Key)
    requires
        !tree.contains_key(namespace),
    ensures
        lookup(tree, namespace, property) is None,
{
}

/// Nothing is found for a property that its namespace does not hold, though
/// the namespace exists.
pub proof fn lemma_lookup_missing_property(tree: Tree, namespace: Key, property: Key)
    requires
        tree.contains_key(namespace),
        !tree[namespace].contains_key(property),
    ensures
        lookup(tree, namespace, property) is None,
{
}

/// Nothing is found in the empty tree.
pub proof fn lemma_lookup_empty(namespace: Key, property: Key)
    ensures
        lookup(Map::empty(), namespace, property) is None,
{
}

/// Of two values set for the same property one after the other, only the
/// second is kept: the tree is the one that setting the second alone gives.
pub proof fn lemma_assign_overwrites(
    tree: Tree,
    namespace: Key,
    property: Key,
    first: Seq<char>,
    second: Seq<char>,
)
    ensures
        assign(assign(tree, namespace, property, first), namespace, property, second) == assign(
            tree,
            namespace,
            property,
            second,
        ),
{
    let once = assign(tree, namespace, property, first);
    assert(once[namespace].insert(property, second) =~= (if tree.contains_key(namespace) {
        tree[namespace]
    } else {
        Map::empty()
    }).insert(property, second));
}

/// A property that none of the writes targets is found as before them. In
/// particular a namespace that was never written to stays absent, and so
/// does an unwritten property of a namespace that was.
pub proof fn lemma_untouched_stays(tree: Tree, writes: Seq<Write>, namespace: Key, property: Key)
    requires
        forall|i: int| 0 <= i < writes.len() ==> !targets(#[trigger] writes[i], namespace, property),
    ensures
        lookup(assign_all(tree, writes), namespace, property) == lookup(tree, namespace, property),
    decreases writes.len(),
{
    if writes.len() > 0 {
        let front = writes.drop_last();
        let last = writes.last();
        assert(forall|i: int| 0 <= i < front.len() ==> front[i] == writes[i]);
        lemma_untouched_stays(tree, front, namespace, property);
        lemma_assign_keeps_others(
            assign_all(tree, front),
            last.0,
            last.1,
            last.2,
            namespace,
            property,
        );
    }
}

/// The last write to a property wins: where no later write targets the
/// property that write `i` sets, the value of write `i` is found after all
/// the writes. So writes to distinct properties are all kept, whatever the
/// order in which they arrive.
pub proof fn lemma_last_write_wins(tree: Tree, writes: Seq<Write>, i: int)
    requires
        0 <= i < writes.len(),
        forall|j: int| i < j < writes.len() ==> !targets(#[trigger] writes[j], writes[i].0, writes[i].1),
    ensures
        lookup(assign_all(tree, writes), writes[i].0, writes[i].1) == Some(writes[i].2),
    decreases writes.len(),
{
    let front = writes.drop_last();
    let last = writes.last();
    if i < writes.len() - 1 {
        assert(forall|j: int| 0 <= j < front.len() ==> front[j] == writes[j]);
        lemma_last_write_wins(tree, front, i);
        lemma_assign_keeps_others(
            assign_all(tree, front),
            last.0,
            last.1,
            last.2,
            writes[i].0,
            writes[i].1,
        );
    }
}

} // verus!
