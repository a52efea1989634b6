//! The file format: JSON, read and written by `serde_json`.
//!
//! Nothing in this module is proved. Each item states what the rest of the
//! crate takes on trust about `serde_json`; the text-level details of JSON
//! are not spelled out but given names that the contracts elsewhere refer to.

use vstd::prelude::*;
use std::collections::BTreeMap;
use crate::tree::ConfigTree;

verus! {

/// `serde_json::Error`, carried through as an opaque value.
#[verifier::external_type_specification]
#[verifier::external_body]
pub struct ExJsonError(serde_json::Error);

/// What `serde_json::from_reader` makes of `bytes` when asked for a map of
/// maps of strings: the namespaces with their properties, or `None` where it
/// rejects the input.
pub uninterp spec fn parsed_entries(bytes: Seq<u8>) -> Option<
    Seq<(Seq<char>, Seq<(Seq<char>, Seq<char>)>)>,
>;

/// The text that `serde_json::to_string_pretty` produces for a map of maps of
/// strings with the given contents.
pub uninterp spec fn pretty_json(tree: Map<Seq<char>, Map<Seq<char>, Seq<char>>>) -> Seq<char>;

/// Parses `bytes` with `serde_json::from_reader` into a
/// `BTreeMap<String, BTreeMap<String, String>>` and hands its pairs out in
/// the map's order.
///
/// Trusted: the outcome depends on `bytes` alone, so it can be named by
/// [`parsed_entries`]. Nothing is claimed about which inputs are accepted.
#[verifier::external_body]
pub(crate) fn parse_entries(bytes: &[u8]) -> (parsed: Result<
    Vec<(String, Vec<(String, String)>)>,
    serde_json::Error,
>)
    ensures
        match parsed {
            Ok(entries) => parsed_entries(bytes@) == Some(entries.deep_view()),
            Err(_) => parsed_entries(bytes@) is None,
        },
{
    let map: BTreeMap<String, BTreeMap<String, String>> = serde_json::from_reader(bytes)?;
    Ok(map.into_iter().map(|(name, properties)| (name, properties.into_iter().collect())).collect())
}

/// Renders `tree` with `serde_json::to_string_pretty`, after collecting it
/// into a `BTreeMap<&str, BTreeMap<&str, &str>>`.
///
/// Trusted, on two counts. The call succeeds: `serde_json` documents two
/// causes of failure, a `Serialize` impl that fails and a map key that is
/// not a string, and a map of maps of strings written into memory has
/// neither. And the text depends only on which values the tree holds under
/// which names (the `BTreeMap` orders the names), so it can be named by
/// [`pretty_json`].
#[verifier::external_body]
pub(crate) fn render_pretty(tree: &ConfigTree) -> (rendered: Result<String, serde_json::Error>)
    requires
        tree.wf(),
    ensures
        rendered is Ok,
        rendered matches Ok(text) ==> text@ == pretty_json(tree@),
{
    let map: BTreeMap<&str, BTreeMap<&str, &str>> = tree.namespaces.iter().map(
        |(name, properties)| {
            (name.as_str(), properties.entries.iter().map(|(p, v)| (p.as_str(), v.as_str())).collect())
        },
    ).collect();
    serde_json::to_string_pretty(&map)
}

} // verus!
