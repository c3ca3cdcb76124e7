use vstd::prelude::*;

verus! {

/// One value of a parsed configuration document.
///
/// The variants follow the kinds of node that a YAML loader produces:
/// `Real` keeps the float's source text, `Hash` keeps its entries in
/// document order with unique keys.
#[derive(Debug)]
pub enum Node {
    Real(String),
    Integer(i64),
    String(String),
    Boolean(bool),
    Array(Vec<Node>),
    Hash(Vec<(Node, Node)>),
    Alias(usize),
    Null,
    BadValue,
}

/// Whether `k` is the string key `key`.
pub open spec fn is_key(k: Node, key: Seq<char>) -> bool {
    match k {
        Node::String(s) => s@ == key,
        _ => false,
    }
}

/// The value stored under the string key `key` among `entries`, if any.
pub open spec fn entry_of(entries: Seq<(Node, Node)>, key: Seq<char>) -> Option<Node>
    decreases entries.len(),
{
    if entries.len() == 0 {
        None
    } else if is_key(entries[0].0, key) {
        Some(entries[0].1)
    } else {
        entry_of(entries.drop_first(), key)
    }
}

/// What indexing a node by a string key yields: the value of a mapping
/// entry, or `BadValue` where the node is no mapping or has no such key.
pub open spec fn child(n: Node, key: Seq<char>) -> Node {
    match n {
        Node::Hash(entries) => match entry_of(entries@, key) {
            Some(v) => v,
            None => Node::BadValue,
        },
        _ => Node::BadValue,
    }
}

/// Looks up the value stored under the string key `key` among `entries`.
pub fn find_entry<'a>(entries: &'a Vec<(Node, Node)>, key: &str) -> (r: Option<&'a Node>)
    ensures
        match entry_of(entries@, key@) {
            Some(v) => r == Some(&v),
            None => r is None,
        },
{
    let wanted = String::from_str(key);
    let mut i: usize = 0;
    assert(entries@.subrange(0, entries@.len() as int) =~= entries@);
    while i < entries.len()
        invariant
            0 <= i <= entries.len(),
            wanted@ == key@,
            entry_of(entries@, key@) == entry_of(entries@.subrange(i as int, entries@.len() as int), key@),
        decreases entries.len() - i,
    {
        proof {
            let rest = entries@.subrange(i as int, entries@.len() as int);
            assert(rest.drop_first() =~= entries@.subrange(i + 1, entries@.len() as int));
        }
        let (k, v) = &entries[i];
        if let Node::String(s) = k {
            if *s == wanted {
                return Some(v);
            }
        }
        i = i + 1;
    }
    None
}

/// Indexes `n` by the string key `key`, as `child` states.
pub fn get_child<'a>(n: &'a Node, key: &str) -> (r: &'a Node)
    ensures
        *r == child(*n, key@),
{
    match n {
        Node::Hash(entries) => match find_entry(entries, key) {
            Some(v) => v,
            None => &Node::BadValue,
        },
        _ => &Node::BadValue,
    }
}

} // verus!
