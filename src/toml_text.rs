//! The document tree that TOML text is read into and written from, and the
//! calls into the `toml` crate that do the reading and writing.
use vstd::prelude::*;
use vstd::string::*;
use crate::nesting::{nesting, MAX_NESTING};

verus! {

/// A TOML value as the configuration logic sees it. Floats, datetimes and
/// arrays are never configuration values: of them only the TOML type name is
/// kept.
#[derive(Debug)]
pub enum TomlNode {
    Text(String),
    Integer(i64),
    Boolean(bool),
    Table(Vec<(String, TomlNode)>),
    Other(&'static str),
}

#[verifier::external_type_specification]
#[verifier::external_body]
pub struct ExTomlValue(toml::Value);

/// What the `toml` crate reads a text into, as a tree, or `None` where it
/// refuses the text.
pub uninterp spec fn toml_reading(text: Seq<char>) -> Option<TomlNode>;

/// Moves a value of the `toml` crate into a tree, one variant for another.
#[verifier::external_body]
fn lift(v: toml::Value) -> TomlNode {
    match v {
        toml::Value::String(s) => TomlNode::Text(s),
        toml::Value::Integer(i) => TomlNode::Integer(i),
        toml::Value::Boolean(b) => TomlNode::Boolean(b),
        toml::Value::Table(t) => TomlNode::Table(t.into_iter().map(|(k, v)| (k, lift(v))).collect()),
        other => TomlNode::Other(other.type_str()),
    }
}

/// Relies on `toml::from_str` into `toml::Value`: it reads the text or
/// refuses it with a message, and what it reads depends on the text alone.
#[verifier::external_body]
pub(crate) fn read_toml(text: &str) -> (r: Result<TomlNode, String>)
    requires
        nesting(text.spec_bytes()) <= MAX_NESTING,
    ensures
        match r {
            Ok(n) => toml_reading(text@) == Some(n),
            Err(_) => toml_reading(text@) is None,
        },
{
    match toml::from_str::<toml::Value>(text) {
        Ok(v) => Ok(lift(v)),
        Err(e) => Err(e.to_string()),
    }
}

/// Moves a tree into a value of the `toml` crate, one variant for another; a
/// value of which only the type name is held is written as that name.
#[verifier::external_body]
fn lower(n: &TomlNode) -> toml::Value
    requires
        depth_within(*n, MAX_TREE_DEPTH as nat),
{
    match n {
        TomlNode::Text(s) => toml::Value::String(s.clone()),
        TomlNode::Integer(i) => toml::Value::Integer(*i),
        TomlNode::Boolean(b) => toml::Value::Boolean(*b),
        TomlNode::Table(es) => toml::Value::Table(es.iter().map(|(k, v)| (k.clone(), lower(v))).collect()),
        TomlNode::Other(s) => toml::Value::String(s.to_string()),
    }
}

/// The deepest tree handed to the `toml` crate for writing.
pub const MAX_TREE_DEPTH: u64 = 32;

/// A tree holds no more than `d` levels of tables.
pub open spec fn depth_within(n: TomlNode, d: nat) -> bool
    decreases d,
{
    match n {
        TomlNode::Table(es) => d > 0 && forall|i: int|
            0 <= i < es@.len() ==> depth_within(#[trigger] es@[i].1, (d - 1) as nat),
        _ => true,
    }
}

/// A tree within `d` levels is within any larger number of levels.
pub proof fn lemma_depth_grows(n: TomlNode, d: nat, e: nat)
    requires
        depth_within(n, d),
        d <= e,
    ensures
        depth_within(n, e),
    decreases d,
{
    if let TomlNode::Table(es) = n {
        assert forall|i: int| 0 <= i < es@.len() implies depth_within(#[trigger] es@[i].1, (e - 1) as nat) by {
            lemma_depth_grows(es@[i].1, (d - 1) as nat, (e - 1) as nat);
        }
    }
}

/// The text that the `toml` crate writes a tree as, or `None` where it
/// refuses the tree.
pub uninterp spec fn toml_writing(n: TomlNode) -> Option<Seq<char>>;

/// Relies on `toml::to_string_pretty` on a `toml::Value`: what it writes
/// depends on the tree alone, and a table, whose plain values it writes
/// before its tables, is always written. It recurses once per level, so the
/// tree's depth is bounded.
#[verifier::external_body]
pub(crate) fn write_toml(n: &TomlNode) -> (r: Result<String, String>)
    requires
        depth_within(*n, MAX_TREE_DEPTH as nat),
    ensures
        *n is Table ==> r is Ok,
        match r {
            Ok(s) => toml_writing(*n) == Some(s@),
            Err(_) => toml_writing(*n) is None,
        },
{
    toml::to_string_pretty(&lower(n)).map_err(|e| e.to_string())
}

} // verus!
