use crate::node::Node;
use vstd::prelude::*;
use yaml_rust::{ScanError, Yaml, YamlLoader};

verus! {

#[verifier::external_type_specification]
#[verifier::external_body]
pub struct ExYaml(Yaml);

#[verifier::external_type_specification]
#[verifier::external_body]
pub struct ExScanError(ScanError);

/// The documents that the YAML loader reads from `text`, or `None` where it
/// rejects the text. The loader is deterministic: the same text always gives
/// the same documents.
pub uninterp spec fn yaml_documents(text: Seq<char>) -> Option<Seq<Node>>;

/// Relies on `yaml_rust::YamlLoader::load_from_str`: it reads every document
/// of `text`, in order, or returns the scanner's error.
#[verifier::external_body]
pub(crate) fn load_documents(text: &str) -> (r: Result<Vec<Node>, ScanError>)
    ensures
        match r {
            Ok(docs) => yaml_documents(text@) == Some(docs@),
            Err(_) => yaml_documents(text@) is None,
        },
{
    YamlLoader::load_from_str(text).map(|docs| docs.into_iter().map(node_of_yaml).collect())
}

/// Moves a `yaml_rust::Yaml` value into the `Node` variant of the same name,
/// one variant at a time; used only by `load_documents`.
#[verifier::external_body]
fn node_of_yaml(y: Yaml) -> Node {
    match y {
        Yaml::Real(s) => Node::Real(s),
        Yaml::Integer(i) => Node::Integer(i),
        Yaml::String(s) => Node::String(s),
        Yaml::Boolean(b) => Node::Boolean(b),
        Yaml::Array(a) => Node::Array(a.into_iter().map(node_of_yaml).collect()),
        Yaml::Hash(h) => Node::Hash(h.into_iter().map(|(k, v)| (node_of_yaml(k), node_of_yaml(v))).collect()),
        Yaml::Alias(a) => Node::Alias(a),
        Yaml::Null => Node::Null,
        Yaml::BadValue => Node::BadValue,
    }
}

/// Relies on the `Debug` impl of `yaml_rust::ScanError`, which shows where the
/// scanner stopped and why.
#[verifier::external_body]
pub(crate) fn scan_error_text(e: &ScanError) -> String {
    format!("{:#?}", e)
}

} // verus!
