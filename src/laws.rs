use crate::intermediate_config::{
    compression_shape_message, level_message, outcome, remote_machine_of,
    remote_machine_shape_message, translation, ConfigView, IntermediateCompression,
    IntermediateConfig,
};
use crate::node::{child, entry_of, Node};
use crate::text::decimal;
use vstd::prelude::*;

verus! {

/// Whether a section value counts as absent: null, or not there at all.
pub open spec fn is_absent(section: Node) -> bool {
    section is Null || section is BadValue
}

/// The compression level named beside `field`.
pub open spec fn other_level(field: Seq<char>) -> Seq<char> {
    if field == "local"@ {
        "remote"@
    } else {
        "local"@
    }
}

/// A document without either section gives a configuration with neither.
pub proof fn lemma_no_sections(root: Node)
    requires
        is_absent(child(root, "remoteMachine"@)),
        is_absent(child(root, "compression"@)),
    ensures
        translation(root) == Ok::<ConfigView, Seq<char>>(
            ConfigView { remote_machine: None, compression: None },
        ),
{
}

/// A document whose only section is `compression`, holding just the level
/// `field` set to a value from 1 to 9, gives that level and leaves the other
/// one out.
pub proof fn lemma_level_in_range(root: Node, entries: Vec<(Node, Node)>, field: Seq<char>, n: i64)
    requires
        field == "local"@ || field == "remote"@,
        1 <= n <= 9,
        child(root, "remoteMachine"@) is BadValue,
        child(root, "compression"@) == Node::Hash(entries),
        entry_of(entries@, field) == Some(Node::Integer(n)),
        entry_of(entries@, other_level(field)) is None,
    ensures
        translation(root) == Ok::<ConfigView, Seq<char>>(
            ConfigView {
                remote_machine: None,
                compression: Some(
                    IntermediateCompression {
                        local: if field == "local"@ { Some(n) } else { None },
                        remote: if field == "remote"@ { Some(n) } else { None },
                    },
                ),
            },
        ),
{
    reveal_strlit("local");
    reveal_strlit("remote");
    assert("local"@ != "remote"@);
}

/// A document whose only section is `compression`, holding just the level
/// `field` set to 0, 10 or -1, fails with the range error that shows the
/// number.
pub proof fn lemma_level_out_of_range(root: Node, entries: Vec<(Node, Node)>, field: Seq<char>, n: i64)
    requires
        field == "local"@ || field == "remote"@,
        n == 0 || n == 10 || n == -1,
        child(root, "remoteMachine"@) is BadValue,
        child(root, "compression"@) == Node::Hash(entries),
        entry_of(entries@, field) == Some(Node::Integer(n)),
        entry_of(entries@, other_level(field)) is None,
    ensures
        translation(root) == Err::<ConfigView, Seq<char>>(level_message(field, decimal(n as int))),
{
    reveal_strlit("local");
    reveal_strlit("remote");
    assert("local"@ != "remote"@);
}

/// Translating the same document twice gives the same result: any two
/// results that meet the translation's contract on one document agree.
pub proof fn lemma_translation_repeatable(
    root: Node,
    first: Result<IntermediateConfig, String>,
    second: Result<IntermediateConfig, String>,
)
    requires
        outcome(first) == translation(root),
        outcome(second) == translation(root),
    ensures
        outcome(first) == outcome(second),
{
}

/// A `remoteMachine` section that is neither a mapping nor null fails with
/// the shape error that shows the section.
pub proof fn lemma_remote_machine_not_object(root: Node)
    requires
        !(child(root, "remoteMachine"@) is Hash),
        !is_absent(child(root, "remoteMachine"@)),
    ensures
        translation(root) == Err::<ConfigView, Seq<char>>(
            remote_machine_shape_message(child(root, "remoteMachine"@)),
        ),
{
}

/// A `compression` section that is neither a mapping nor null fails with
/// the shape error, which does not show the section, once the
/// `remoteMachine` section is valid.
pub proof fn lemma_compression_not_object(root: Node)
    requires
        remote_machine_of(root) is Ok,
        !(child(root, "compression"@) is Hash),
        !is_absent(child(root, "compression"@)),
    ensures
        translation(root) == Err::<ConfigView, Seq<char>>(compression_shape_message()),
{
}

} // verus!
