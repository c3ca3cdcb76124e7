use crate::node::Node;
use vstd::prelude::*;

verus! {

broadcast use {
    vstd::std_specs::vec::axiom_vec_decreases_to_view,
    vstd::std_specs::vec::axiom_vec_index_decreases,
    vstd::seq::axiom_seq_index_decreases,
    vstd::seq::axiom_seq_subrange_decreases,
};

/// The text of one decimal digit.
pub open spec fn digit_text(d: nat) -> Seq<char> {
    if d == 0 {
        "0"@
    } else if d == 1 {
        "1"@
    } else if d == 2 {
        "2"@
    } else if d == 3 {
        "3"@
    } else if d == 4 {
        "4"@
    } else if d == 5 {
        "5"@
    } else if d == 6 {
        "6"@
    } else if d == 7 {
        "7"@
    } else if d == 8 {
        "8"@
    } else {
        "9"@
    }
}

/// The decimal digits of `n`, most significant first, without leading zeros.
pub open spec fn digits(n: nat) -> Seq<char>
    decreases n,
{
    if n < 10 {
        digit_text(n)
    } else {
        digits(n / 10) + digit_text(n % 10)
    }
}

/// The decimal text of `i`, with a leading `-` when it is negative.
pub open spec fn decimal(i: int) -> Seq<char> {
    if i < 0 {
        "-"@ + digits((-i) as nat)
    } else {
        digits(i as nat)
    }
}

/// How one character is written between double quotes.
pub open spec fn escape_char(c: char) -> Seq<char> {
    if c == '"' {
        "\\\""@
    } else if c == '\\' {
        "\\\\"@
    } else if c == '\n' {
        "\\n"@
    } else {
        seq![c]
    }
}

/// The characters of `s`, each written as `escape_char` says.
pub open spec fn escaped(s: Seq<char>) -> Seq<char>
    decreases s.len(),
{
    if s.len() == 0 {
        Seq::empty()
    } else {
        escaped(s.drop_last()) + escape_char(s.last())
    }
}

/// `s` between double quotes, escaped.
pub open spec fn quoted(s: Seq<char>) -> Seq<char> {
    "\""@ + escaped(s) + "\""@
}

/// A node kind's name followed by its payload on an indented line of its own.
pub open spec fn wrapped(kind: Seq<char>, payload: Seq<char>) -> Seq<char> {
    kind + "(\n    "@ + payload + "\n)"@
}

/// The text of a node, naming its kind and giving its whole value.
pub open spec fn render(n: Node) -> Seq<char>
    decreases n,
{
    match n {
        Node::Real(s) => wrapped("Real"@, quoted(s@)),
        Node::Integer(i) => wrapped("Integer"@, decimal(i as int)),
        Node::String(s) => wrapped("String"@, quoted(s@)),
        Node::Boolean(b) => wrapped("Boolean"@, if b { "true"@ } else { "false"@ }),
        Node::Array(items) => wrapped("Array"@, "["@ + render_items(items@) + "]"@),
        Node::Hash(entries) => wrapped("Hash"@, "{"@ + render_entries(entries@) + "}"@),
        Node::Alias(a) => wrapped("Alias"@, decimal(a as int)),
        Node::Null => "Null"@,
        Node::BadValue => "BadValue"@,
    }
}

/// The texts of `items`, separated by `, `.
pub open spec fn render_items(items: Seq<Node>) -> Seq<char>
    decreases items,
{
    if items.len() == 0 {
        Seq::empty()
    } else if items.len() == 1 {
        render(items[0])
    } else {
        render_items(items.drop_last()) + ", "@ + render(items.last())
    }
}

/// One mapping entry as `key: value`.
pub open spec fn render_entry(e: (Node, Node)) -> Seq<char>
    decreases e,
{
    render(e.0) + ": "@ + render(e.1)
}

/// The texts of `entries`, separated by `, `.
pub open spec fn render_entries(entries: Seq<(Node, Node)>) -> Seq<char>
    decreases entries,
{
    if entries.len() == 0 {
        Seq::empty()
    } else if entries.len() == 1 {
        render_entry(entries[0])
    } else {
        render_entries(entries.drop_last()) + ", "@ + render_entry(entries.last())
    }
}

/// The text of the decimal digit `d`.
fn digit_str(d: u64) -> (r: &'static str)
    requires
        d < 10,
    ensures
        r@ == digit_text(d as nat),
{
    if d == 0 {
        "0"
    } else if d == 1 {
        "1"
    } else if d == 2 {
        "2"
    } else if d == 3 {
        "3"
    } else if d == 4 {
        "4"
    } else if d == 5 {
        "5"
    } else if d == 6 {
        "6"
    } else if d == 7 {
        "7"
    } else if d == 8 {
        "8"
    } else {
        "9"
    }
}

/// Appends the decimal digits of `n` to `out`.
fn push_digits(out: &mut String, n: u64)
    ensures
        final(out)@ == old(out)@ + digits(n as nat),
    decreases n,
{
    if n >= 10 {
        push_digits(out, n / 10);
        out.append(digit_str(n % 10));
        assert(final(out)@ =~= old(out)@ + digits(n as nat));
    } else {
        out.append(digit_str(n));
    }
}

/// The decimal text of `i`.
pub fn decimal_string(i: i64) -> (r: String)
    ensures
        r@ == decimal(i as int),
{
    let mut out = String::new();
    if i < 0 {
        out.append("-");
        let magnitude: u64 = (-(i + 1)) as u64 + 1;
        push_digits(&mut out, magnitude);
    } else {
        push_digits(&mut out, i as u64);
    }
    out
}

/// The decimal text of `u`.
pub fn unsigned_string(u: usize) -> (r: String)
    ensures
        r@ == decimal(u as int),
{
    let mut out = String::new();
    push_digits(&mut out, u as u64);
    out
}

/// `s` between double quotes, escaped as `quoted` says.
pub fn quote(s: &str) -> (r: String)
    ensures
        r@ == quoted(s@),
{
    let mut out = String::from_str("\"");
    let n = s.unicode_len();
    let mut i: usize = 0;
    while i < n
        invariant
            n == s@.len(),
            0 <= i <= n,
            out@ == "\""@ + escaped(s@.subrange(0, i as int)),
        decreases n - i,
    {
        let c = s.get_char(i);
        proof {
            assert(s@.subrange(0, i + 1).drop_last() =~= s@.subrange(0, i as int));
        }
        if c == '"' {
            out.append("\\\"");
        } else if c == '\\' {
            out.append("\\\\");
        } else if c == '\n' {
            out.append("\\n");
        } else {
            out.append(s.substring_char(i, i + 1));
            assert(s@.subrange(i as int, i + 1) =~= seq![c]);
        }
        assert(out@ =~= "\""@ + escaped(s@.subrange(0, i + 1)));
        i = i + 1;
    }
    assert(s@.subrange(0, n as int) =~= s@);
    out.append("\"");
    out
}

/// Builds `kind(\n    payload\n)` as `wrapped` says.
fn wrap(kind: &str, payload: String) -> (r: String)
    ensures
        r@ == wrapped(kind@, payload@),
{
    let mut out = String::from_str(kind);
    out.append("(\n    ");
    out.append(payload.as_str());
    out.append("\n)");
    out
}

/// The text of a node, as `render` states.
pub fn render_node(n: &Node) -> (r: String)
    ensures
        r@ == render(*n),
    decreases n,
{
    match n {
        Node::Real(s) => wrap("Real", quote(s.as_str())),
        Node::Integer(i) => wrap("Integer", decimal_string(*i)),
        Node::String(s) => wrap("String", quote(s.as_str())),
        Node::Boolean(b) => wrap("Boolean", String::from_str(if *b { "true" } else { "false" })),
        Node::Array(items) => {
            let mut out = String::from_str("[");
            let mut i: usize = 0;
            while i < items.len()
                invariant
                    0 <= i <= items.len(),
                    out@ == "["@ + render_items(items@.subrange(0, i as int)),
                    *n == Node::Array(*items),
                decreases items.len() - i,
            {
                proof {
                    assert(items@.subrange(0, i + 1).drop_last() =~= items@.subrange(0, i as int));
                }
                if i > 0 {
                    out.append(", ");
                }
                proof {
                    vstd::std_specs::vec::axiom_vec_index_decreases(*items, i as int);
                    assert(decreases_to!(*n => n->Array_0));
                    assert(decreases_to!(*n => items[i as int]));
                }
                let t = render_node(&items[i]);
                out.append(t.as_str());
                assert(out@ =~= "["@ + render_items(items@.subrange(0, i + 1)));
                i = i + 1;
            }
            assert(items@.subrange(0, items.len() as int) =~= items@);
            out.append("]");
            wrap("Array", out)
        },
        Node::Hash(entries) => {
            let mut out = String::from_str("{");
            let mut i: usize = 0;
            while i < entries.len()
                invariant
                    0 <= i <= entries.len(),
                    out@ == "{"@ + render_entries(entries@.subrange(0, i as int)),
                    *n == Node::Hash(*entries),
                decreases entries.len() - i,
            {
                proof {
                    assert(entries@.subrange(0, i + 1).drop_last() =~= entries@.subrange(0, i as int));
                }
                if i > 0 {
                    out.append(", ");
                }
                proof {
                    vstd::std_specs::vec::axiom_vec_index_decreases(*entries, i as int);
                    assert(decreases_to!(*n => n->Hash_0));
                    assert(decreases_to!(*n => entries[i as int]));
                    assert(decreases_to!(*n => entries[i as int].0));
                    assert(decreases_to!(*n => entries[i as int].1));
                }
                let key = render_node(&entries[i].0);
                let value = render_node(&entries[i].1);
                out.append(key.as_str());
                out.append(": ");
                out.append(value.as_str());
                assert(render_entry(entries@[i as int]) == key@ + ": "@ + value@);
                assert(out@ =~= "{"@ + render_entries(entries@.subrange(0, i + 1)));
                i = i + 1;
            }
            assert(entries@.subrange(0, entries.len() as int) =~= entries@);
            out.append("}");
            wrap("Hash", out)
        },
        Node::Alias(a) => wrap("Alias", unsigned_string(*a)),
        Node::Null => String::from_str("Null"),
        Node::BadValue => String::from_str("BadValue"),
    }
}

} // verus!
