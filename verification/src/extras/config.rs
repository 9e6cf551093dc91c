//! The rules of naming the configuration files of a folder.
use crate::address::same_text;
use vstd::prelude::*;
use vstd::string::*;

verus! {

/// Whether a file with the extension `extension` holds YAML.
pub open spec fn yaml_extension(extension: Seq<char>) -> bool {
    extension == "yaml"@ || extension == "yml"@
}

/// What kind of value a YAML node is, as far as merging goes.
#[derive(Clone, Copy, Debug, PartialEq, Eq, Structural)]
pub enum Kind {
    Mapping,
    Sequence,
    Other,
}

/// How two YAML nodes are merged.
#[derive(Clone, Copy, Debug, PartialEq, Eq, Structural)]
pub enum Merge {
    /// Key by key: a key of both sides gets the merge of its two values, a
    /// key of one side keeps its value.
    ByKey,
    /// The items of the source follow those of the destination.
    Append,
    /// The source takes the place of the destination.
    Replace,
}

/// How a source of the kind `source` is merged into a destination of the
/// kind `destination`: two mappings key by key, two sequences by appending,
/// and in every other case the source replaces the destination.
pub open spec fn merge_rule_of(destination: Kind, source: Kind) -> Merge {
    if destination == Kind::Mapping && source == Kind::Mapping {
        Merge::ByKey
    } else if destination == Kind::Sequence && source == Kind::Sequence {
        Merge::Append
    } else {
        Merge::Replace
    }
}

/// How a source of the kind `source` is merged into a destination of the
/// kind `destination`.
pub fn merge_rule(destination: Kind, source: Kind) -> (rule: Merge)
    ensures
        rule == merge_rule_of(destination, source),
{
    match (destination, source) {
        (Kind::Mapping, Kind::Mapping) => Merge::ByKey,
        (Kind::Sequence, Kind::Sequence) => Merge::Append,
        _ => Merge::Replace,
    }
}

/// The text `s` with every `from` replaced by `to`.
pub open spec fn replaced(s: Seq<char>, from: char, to: char) -> Seq<char> {
    s.map_values(
        |c: char|
            if c == from {
                to
            } else {
                c
            },
    )
}

/// `str::replace` of std, with a character as the pattern and a text of one
/// character as the replacement: a copy of `text` in which every occurrence
/// of `from` is that character, and nothing else is changed.
#[verifier::external_body]
fn replace_char(text: &str, from: char, to: &str) -> (out: String)
    requires
        to@.len() == 1,
    ensures
        out@ == replaced(text@, from, to@[0]),
{
    text.replace(from, to)
}

/// Whether a file with the extension `extension` holds YAML.
pub fn is_yaml_extension(extension: &str) -> (b: bool)
    ensures
        b == yaml_extension(extension@),
{
    same_text(extension, "yaml") || same_text(extension, "yml")
}

/// The name under which the file at `path`, a path relative to its folder,
/// is listed: the path with forward slashes for backslashes.
pub fn get_relative_file_name(path: &str) -> (name: String)
    ensures
        name@ == replaced(path@, '\\', '/'),
{
    proof {
        reveal_strlit("/");
    }
    replace_char(path, '\\', "/")
}

} // verus!
