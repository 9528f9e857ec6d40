//! The configuration document, decoupled from any serialization library: a
//! tagged value mirroring scalar, sequence and mapping nodes. The loader
//! validates a document of this shape into the entity model.

use vstd::prelude::*;

verus! {

/// One node of a configuration document.
#[derive(Debug)]
pub enum DocValue {
    /// A string scalar.
    Text(String),
    /// A boolean scalar.
    Flag(bool),
    /// Any other scalar (a number, a null, a tagged or malformed node),
    /// carried only as text; every typed read of it is a shape error.
    Other(String),
    /// A sequence of nodes.
    List(Vec<DocValue>),
    /// A mapping, in document order.
    Table(Vec<(String, DocValue)>),
}

impl DocValue {
    /// The text of a `Text` node (meaningful only there).
    pub open spec fn text(self) -> Seq<char> {
        match self {
            DocValue::Text(s) => s@,
            _ => Seq::empty(),
        }
    }
}

/// The value at `key`, at its first occurrence in the table.
pub open spec fn table_get(es: Seq<(String, DocValue)>, key: Seq<char>) -> Option<DocValue>
    decreases es.len(),
{
    if es.len() == 0 {
        None
    } else if es[0].0@ == key {
        Some(es[0].1)
    } else {
        table_get(es.drop_first(), key)
    }
}

/// Whether every node of the sequence is a string scalar.
pub open spec fn all_text(items: Seq<DocValue>) -> bool {
    forall|i: int| 0 <= i < items.len() ==> items[i] is Text
}

/// The texts of a sequence of string scalars.
pub open spec fn texts(items: Seq<DocValue>) -> Seq<Seq<char>> {
    items.map_values(|d: DocValue| d.text())
}

/// Looks `key` up in the entries of a table.
pub fn lookup<'a>(es: &'a Vec<(String, DocValue)>, key: &str) -> (r: Option<&'a DocValue>)
    ensures
        match r {
            Some(d) => table_get(es@, key@) == Some(*d),
            None => table_get(es@, key@) is None,
        },
{
    let mut i: usize = 0;
    assert(es@.subrange(0, es@.len() as int) =~= es@);
    while i < es.len()
        invariant
            0 <= i <= es@.len(),
            table_get(es@, key@) == table_get(es@.subrange(i as int, es@.len() as int), key@),
        decreases es@.len() - i,
    {
        let ghost pre = es@.subrange(i as int, es@.len() as int);
        if crate::paths::str_eq(es[i].0.as_str(), key) {
            assert(table_get(pre, key@) == Some(es@[i as int].1));
            return Some(&es[i].1);
        }
        proof {
            assert(pre.drop_first() =~= es@.subrange(i as int + 1, es@.len() as int));
        }
        i += 1;
    }
    None
}

} // verus!
