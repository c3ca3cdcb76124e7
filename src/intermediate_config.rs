use crate::node::{child, entry_of, find_entry, get_child, Node};
use crate::text::{decimal, decimal_string, render, render_node};
use crate::yaml::{load_documents, scan_error_text, yaml_documents};
use vstd::prelude::*;

verus! {

/// The validated configuration: each section is present only where the
/// document holds it.
#[derive(Debug, PartialEq, Eq)]
pub struct IntermediateConfig {
    pub remote_machine: Option<IntermediateRemoteMachine>,
    pub compression: Option<IntermediateCompression>,
}

/// The `remoteMachine` section.
#[derive(Debug, PartialEq, Eq)]
pub struct IntermediateRemoteMachine {
    pub host: Option<String>,
}

/// The `compression` section: each level, where given, lies in 1..=9.
#[derive(Debug, PartialEq, Eq, Clone, Copy)]
pub struct IntermediateCompression {
    pub local: Option<i64>,
    pub remote: Option<i64>,
}

/// The model of an `IntermediateRemoteMachine`.
pub struct RemoteMachineView {
    pub host: Option<Seq<char>>,
}

/// The model of an `IntermediateConfig`.
pub struct ConfigView {
    pub remote_machine: Option<RemoteMachineView>,
    pub compression: Option<IntermediateCompression>,
}

impl View for IntermediateRemoteMachine {
    type V = RemoteMachineView;

    open spec fn view(&self) -> RemoteMachineView {
        RemoteMachineView {
            host: match self.host {
                Some(h) => Some(h@),
                None => None,
            },
        }
    }
}

impl View for IntermediateConfig {
    type V = ConfigView;

    open spec fn view(&self) -> ConfigView {
        ConfigView {
            remote_machine: match self.remote_machine {
                Some(m) => Some(m@),
                None => None,
            },
            compression: self.compression,
        }
    }
}

/// A compression level that the configuration accepts.
pub open spec fn is_level(n: int) -> bool {
    1 <= n <= 9
}

pub open spec fn host_message() -> Seq<char> {
    "remoteMachine.host must be a string"@
}

pub open spec fn remote_machine_shape_message(section: Node) -> Seq<char> {
    "'remoteMachine' must be an object, but was "@ + render(section)
}

pub open spec fn compression_shape_message() -> Seq<char> {
    "'compression' must be an object"@
}

/// The error for the compression level `field` that shows `shown` instead
/// of a level.
pub open spec fn level_message(field: Seq<char>, shown: Seq<char>) -> Seq<char> {
    "'compression."@ + field + "' must be a positive integer from 1 to 9, but was "@ + shown
}

/// The host given by the `host` entry `v` of the `remoteMachine` section.
pub open spec fn host_of(v: Option<Node>) -> Result<Option<Seq<char>>, Seq<char>> {
    match v {
        None => Ok(None),
        Some(Node::String(s)) => Ok(Some(s@)),
        Some(Node::Null) => Ok(None),
        Some(_) => Err(host_message()),
    }
}

/// The `remoteMachine` section of the document `root`.
pub open spec fn remote_machine_of(root: Node) -> Result<Option<RemoteMachineView>, Seq<char>> {
    match child(root, "remoteMachine"@) {
        Node::Hash(entries) => match host_of(entry_of(entries@, "host"@)) {
            Ok(host) => Ok(Some(RemoteMachineView { host })),
            Err(e) => Err(e),
        },
        Node::Null => Ok(None),
        Node::BadValue => Ok(None),
        section => Err(remote_machine_shape_message(section)),
    }
}

/// The compression level given by the entry `v` named `field`.
pub open spec fn level_of(field: Seq<char>, v: Option<Node>) -> Result<Option<i64>, Seq<char>> {
    match v {
        None => Ok(None),
        Some(Node::Integer(n)) => if is_level(n as int) {
            Ok(Some(n))
        } else {
            Err(level_message(field, decimal(n as int)))
        },
        Some(Node::Null) => Ok(None),
        Some(Node::BadValue) => Ok(None),
        Some(other) => Err(level_message(field, render(other))),
    }
}

/// The `compression` section of the document `root`.
pub open spec fn compression_of(root: Node) -> Result<Option<IntermediateCompression>, Seq<char>> {
    match child(root, "compression"@) {
        Node::Hash(entries) => match level_of("local"@, entry_of(entries@, "local"@)) {
            Err(e) => Err(e),
            Ok(local) => match level_of("remote"@, entry_of(entries@, "remote"@)) {
                Err(e) => Err(e),
                Ok(remote) => Ok(Some(IntermediateCompression { local, remote })),
            },
        },
        Node::Null => Ok(None),
        Node::BadValue => Ok(None),
        _ => Err(compression_shape_message()),
    }
}

/// The configuration that the document `root` describes, or the first error
/// in it: `remoteMachine` is checked before `compression`.
pub open spec fn translation(root: Node) -> Result<ConfigView, Seq<char>> {
    match remote_machine_of(root) {
        Err(e) => Err(e),
        Ok(remote_machine) => match compression_of(root) {
            Err(e) => Err(e),
            Ok(compression) => Ok(ConfigView { remote_machine, compression }),
        },
    }
}

/// The model of a translation's result.
pub open spec fn outcome(r: Result<IntermediateConfig, String>) -> Result<ConfigView, Seq<char>> {
    match r {
        Ok(c) => Ok(c@),
        Err(e) => Err(e@),
    }
}

/// The document that a configuration text stands for: its first one, or
/// null where it holds none.
pub open spec fn first_document(docs: Seq<Node>) -> Node {
    if docs.len() == 0 {
        Node::Null
    } else {
        docs[0]
    }
}

pub open spec fn starts_with(s: Seq<char>, prefix: Seq<char>) -> bool {
    prefix.len() <= s.len() && s.subrange(0, prefix.len() as int) == prefix
}

pub open spec fn syntax_error_prefix() -> Seq<char> {
    "YAML parsing error "@
}

/// Reads the `host` entry of a `remoteMachine` section.
fn host_from(entries: &Vec<(Node, Node)>) -> (r: Result<Option<String>, String>)
    ensures
        match host_of(entry_of(entries@, "host"@)) {
            Ok(h) => r is Ok && match r->Ok_0 {
                Some(s) => h == Some(s@),
                None => h is None,
            },
            Err(m) => r is Err && r->Err_0@ == m,
        },
{
    match find_entry(entries, "host") {
        None => Ok(None),
        Some(Node::String(s)) => Ok(Some(s.clone())),
        Some(Node::Null) => Ok(None),
        Some(_) => Err(String::from_str("remoteMachine.host must be a string")),
    }
}

/// Reads the compression level named `field` of a `compression` section.
fn level_from(entries: &Vec<(Node, Node)>, field: &str) -> (r: Result<Option<i64>, String>)
    ensures
        match level_of(field@, entry_of(entries@, field@)) {
            Ok(l) => r == Ok::<Option<i64>, String>(l),
            Err(m) => r is Err && r->Err_0@ == m,
        },
{
    match find_entry(entries, field) {
        None => Ok(None),
        Some(Node::Integer(n)) => if 1 <= *n && *n <= 9 {
            Ok(Some(*n))
        } else {
            Err(level_error(field, decimal_string(*n)))
        },
        Some(Node::Null) => Ok(None),
        Some(Node::BadValue) => Ok(None),
        Some(other) => Err(level_error(field, render_node(other))),
    }
}

fn level_error(field: &str, shown: String) -> (r: String)
    ensures
        r@ == level_message(field@, shown@),
{
    let mut m = String::from_str("'compression.");
    m.append(field);
    m.append("' must be a positive integer from 1 to 9, but was ");
    m.append(shown.as_str());
    m
}

/// Builds the validated configuration from the document `root`, or returns
/// the first error in it.
pub fn translate(root: &Node) -> (r: Result<IntermediateConfig, String>)
    ensures
        outcome(r) == translation(*root),
{
    let remote_machine = match get_child(root, "remoteMachine") {
        Node::Hash(entries) => match host_from(entries) {
            Ok(host) => Some(IntermediateRemoteMachine { host }),
            Err(e) => {
                return Err(e);
            },
        },
        Node::Null => None,
        Node::BadValue => None,
        section => {
            let mut m = String::from_str("'remoteMachine' must be an object, but was ");
            let shown = render_node(section);
            m.append(shown.as_str());
            return Err(m);
        },
    };
    let compression = match get_child(root, "compression") {
        Node::Hash(entries) => {
            let local = match level_from(entries, "local") {
                Ok(l) => l,
                Err(e) => {
                    return Err(e);
                },
            };
            let remote = match level_from(entries, "remote") {
                Ok(l) => l,
                Err(e) => {
                    return Err(e);
                },
            };
            Some(IntermediateCompression { local, remote })
        },
        Node::Null => None,
        Node::BadValue => None,
        _ => {
            return Err(String::from_str("'compression' must be an object"));
        },
    };
    Ok(IntermediateConfig { remote_machine, compression })
}

/// Reads a configuration text: its first YAML document is translated, and
/// a text that holds none stands for an empty configuration.
pub fn parse_config_from_str(config_content: &str) -> (r: Result<IntermediateConfig, String>)
    ensures
        match yaml_documents(config_content@) {
            Some(docs) => outcome(r) == translation(first_document(docs)),
            None => r is Err && starts_with(r->Err_0@, syntax_error_prefix()),
        },
{
    match load_documents(config_content) {
        Err(e) => {
            let mut m = String::from_str("YAML parsing error ");
            let detail = scan_error_text(&e);
            m.append(detail.as_str());
            assert(m@.subrange(0, syntax_error_prefix().len() as int) =~= syntax_error_prefix());
            Err(m)
        },
        Ok(docs) => if docs.len() == 0 {
            translate(&Node::Null)
        } else {
            translate(&docs[0])
        },
    }
}

/// The first line of the error for a configuration file that could not be
/// read as configuration.
pub open spec fn file_error_prefix(path: Seq<char>) -> Seq<char> {
    "Error during parsing config file '"@ + path + "'\n"@
}

impl IntermediateConfig {
    /// The error for a configuration file at `file_path` that cannot be opened.
    pub fn open_error(file_path: &str) -> (r: String)
        ensures
            r@ == "Could not open config file '"@ + file_path@ + "'"@,
    {
        let mut m = String::from_str("Could not open config file '");
        m.append(file_path);
        m.append("'");
        m
    }

    /// The configuration held by `content`, the text of the file at
    /// `file_path`; an error names the file on a line of its own.
    pub fn from_file_content(file_path: &str, content: &str) -> (r: Result<IntermediateConfig, String>)
        ensures
            match yaml_documents(content@) {
                Some(docs) => match translation(first_document(docs)) {
                    Ok(c) => r is Ok && r->Ok_0@ == c,
                    Err(m) => r is Err && r->Err_0@ == file_error_prefix(file_path@) + m,
                },
                None => r is Err && starts_with(
                    r->Err_0@,
                    file_error_prefix(file_path@) + syntax_error_prefix(),
                ),
            },
    {
        match parse_config_from_str(content) {
            Ok(config) => Ok(config),
            Err(message) => {
                let mut m = String::from_str("Error during parsing config file '");
                m.append(file_path);
                m.append("'\n");
                let ghost head = m@;
                m.append(message.as_str());
                proof {
                    if yaml_documents(content@) is None {
                        let p = syntax_error_prefix();
                        assert(message@.subrange(0, p.len() as int) == p);
                        assert(m@.subrange(0, (head.len() + p.len()) as int) =~= head + p);
                    }
                }
                Err(m)
            },
        }
    }
}

} // verus!
