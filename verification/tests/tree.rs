use config_store::{ConfigNamespace, ConfigTree};

fn pair(name: &str, value: &str) -> (String, String) {
    (name.to_string(), value.to_string())
}

#[test]
fn namespace_set_and_get() {
    let mut namespace = ConfigNamespace::new();
    assert_eq!(namespace.get("bar"), None);
    namespace.set("bar", "baz");
    namespace.set("other", "value");
    assert_eq!(namespace.get("bar"), Some(&"baz".to_string()));
    namespace.set("bar", "qux");
    assert_eq!(namespace.get("bar"), Some(&"qux".to_string()));
    assert_eq!(namespace.get("other"), Some(&"value".to_string()));
    assert_eq!(namespace.get("barbar"), None);
}

#[test]
fn namespace_from_entries_lets_later_entries_win() {
    let entries = vec![pair("a", "1"), pair("b", "2"), pair("a", "3")];
    let namespace = ConfigNamespace::from_entries(&entries);
    assert_eq!(namespace.get("a"), Some(&"3".to_string()));
    assert_eq!(namespace.get("b"), Some(&"2".to_string()));
    assert_eq!(namespace.get("c"), None);
    assert_eq!(ConfigNamespace::from_entries(&Vec::new()).get("a"), None);
}

#[test]
fn tree_set_creates_the_namespace() {
    let mut tree = ConfigTree::new();
    assert_eq!(tree.get("foo", "bar"), None);
    tree.set("foo", "bar", "baz");
    assert_eq!(tree.get("foo", "bar"), Some(&"baz".to_string()));
    assert_eq!(tree.get("foo", "barbar"), None);
    assert_eq!(tree.get("foofoo", "bar"), None);
    tree.set("foo", "barbar", "second");
    assert_eq!(tree.get("foo", "bar"), Some(&"baz".to_string()));
    assert_eq!(tree.get("foo", "barbar"), Some(&"second".to_string()));
}

#[test]
fn tree_insert_namespace_replaces_a_namespace_whole() {
    let mut tree = ConfigTree::new();
    tree.set("foo", "bar", "baz");
    tree.set("keep", "k", "v");
    let mut replacement = ConfigNamespace::new();
    replacement.set("new", "value");
    tree.insert_namespace("foo", replacement);
    assert_eq!(tree.get("foo", "bar"), None);
    assert_eq!(tree.get("foo", "new"), Some(&"value".to_string()));
    assert_eq!(tree.get("keep", "k"), Some(&"v".to_string()));
    tree.insert_namespace("fresh", ConfigNamespace::new());
    assert_eq!(tree.get("fresh", "new"), None);
}

#[test]
fn tree_from_entries_enters_namespaces_in_order() {
    let entries = vec![
        ("foo".to_string(), vec![pair("bar", "1"), pair("baz", "2")]),
        ("empty".to_string(), Vec::new()),
        ("foo".to_string(), vec![pair("baz", "3")]),
    ];
    let tree = ConfigTree::from_entries(&entries);
    assert_eq!(tree.get("foo", "bar"), None);
    assert_eq!(tree.get("foo", "baz"), Some(&"3".to_string()));
    assert_eq!(tree.get("empty", "bar"), None);
    assert_eq!(ConfigTree::from_entries(&Vec::new()).get("foo", "bar"), None);
}

#[test]
fn tree_contains_namespace() {
    let mut tree = ConfigTree::new();
    assert!(!tree.contains_namespace("foo"));
    tree.set("foo", "bar", "baz");
    tree.insert_namespace("empty", ConfigNamespace::new());
    assert!(tree.contains_namespace("foo"));
    assert!(tree.contains_namespace("empty"));
    assert!(!tree.contains_namespace("bar"));
    assert!(!tree.contains_namespace(""));
}
