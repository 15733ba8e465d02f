//! A plain-data model of a parsed YAML document.
//!
//! The decoding of file text into this shape is delegated to an outside
//! parser behind a trusted boundary; everything that reads the shape is
//! verified against the mathematical view [`YamlV`].
use vstd::prelude::*;

verus! {

broadcast use vstd::std_specs::vec::axiom_vec_index_decreases;

/// A parsed YAML node, reduced to the plain values the schemas read.
///
/// Nodes that the schemas can never accept (floating-point or negative
/// numbers, tagged values) are carried as [`Yaml::Other`]; every decoder
/// rejects them with the same structural error the typed decoding of the
/// underlying parser would raise.
pub enum Yaml {
    /// A null scalar.
    Null,
    /// A boolean scalar.
    Bool(bool),
    /// A non-negative integer scalar.
    Int(u64),
    /// A string scalar.
    Str(String),
    /// A sequence of nodes.
    List(Vec<Yaml>),
    /// A mapping, kept as key/value pairs in document order.
    Dict(Vec<(Yaml, Yaml)>),
    /// Any node the schemas cannot hold (e.g. a float or a tagged value).
    Other,
}

/// The mathematical view of a [`Yaml`] node.
pub enum YamlV {
    Null,
    Bool(bool),
    Int(u64),
    Str(Seq<char>),
    List(Seq<YamlV>),
    Dict(Seq<(YamlV, YamlV)>),
    Other,
}

/// The view of one node.
pub open spec fn yaml_view(y: Yaml) -> YamlV
    decreases y,
{
    match y {
        Yaml::Null => YamlV::Null,
        Yaml::Bool(b) => YamlV::Bool(b),
        Yaml::Int(u) => YamlV::Int(u),
        Yaml::Str(s) => YamlV::Str(s@),
        Yaml::List(items) => YamlV::List(yaml_list_view(items@)),
        Yaml::Dict(entries) => YamlV::Dict(yaml_dict_view(entries@)),
        Yaml::Other => YamlV::Other,
    }
}

/// The views of the nodes of a sequence, in order.
pub open spec fn yaml_list_view(items: Seq<Yaml>) -> Seq<YamlV>
    decreases items,
{
    if items.len() == 0 {
        Seq::empty()
    } else {
        seq![yaml_view(items[0])] + yaml_list_view(items.drop_first())
    }
}

/// The views of the entries of a mapping, in document order.
pub open spec fn yaml_dict_view(entries: Seq<(Yaml, Yaml)>) -> Seq<(YamlV, YamlV)>
    decreases entries,
{
    if entries.len() == 0 {
        Seq::empty()
    } else {
        seq![(yaml_view(entries[0].0), yaml_view(entries[0].1))] + yaml_dict_view(
            entries.drop_first(),
        )
    }
}

impl View for Yaml {
    type V = YamlV;

    open spec fn view(&self) -> YamlV {
        yaml_view(*self)
    }
}

/// The view of a node sequence is the sequence of the views, index by index.
pub proof fn lemma_yaml_list_view(items: Seq<Yaml>)
    ensures
        yaml_list_view(items).len() == items.len(),
        forall|i: int| 0 <= i < items.len() ==> yaml_list_view(items)[i] == yaml_view(items[i]),
    decreases items,
{
    if items.len() > 0 {
        lemma_yaml_list_view(items.drop_first());
    }
}

/// The view of a mapping is the sequence of entry views, index by index.
pub proof fn lemma_yaml_dict_view(entries: Seq<(Yaml, Yaml)>)
    ensures
        yaml_dict_view(entries).len() == entries.len(),
        forall|i: int| 0 <= i < entries.len() ==> yaml_dict_view(entries)[i] == (
        yaml_view(entries[i].0),
        yaml_view(entries[i].1),
        ),
    decreases entries,
{
    if entries.len() > 0 {
        lemma_yaml_dict_view(entries.drop_first());
    }
}

/// The value under the first entry of `entries` whose key is the string
/// `key`, if any.
pub open spec fn dict_get(entries: Seq<(YamlV, YamlV)>, key: Seq<char>) -> Option<YamlV>
    decreases entries,
{
    if entries.len() == 0 {
        None
    } else if entries[0].0 == YamlV::Str(key) {
        Some(entries[0].1)
    } else {
        dict_get(entries.drop_first(), key)
    }
}

/// Look a string key up among the entries of a parsed mapping.
pub fn dict_lookup<'a>(entries: &'a Vec<(Yaml, Yaml)>, key: &str) -> (r: Option<&'a Yaml>)
    ensures
        r is Some <==> dict_get(yaml_dict_view(entries@), key@) is Some,
        r matches Some(y) ==> Some(yaml_view(*y)) == dict_get(yaml_dict_view(entries@), key@),
{
    proof {
        lemma_yaml_dict_view(entries@);
        assert(entries@.skip(0) =~= entries@);
    }
    let n = entries.len();
    let mut i: usize = 0;
    while i < n
        invariant
            n == entries@.len(),
            i <= n,
            dict_get(yaml_dict_view(entries@), key@) == dict_get(
                yaml_dict_view(entries@.skip(i as int)),
                key@,
            ),
        decreases n - i,
    {
        let ghost tail = entries@.skip(i as int);
        proof {
            assert(tail.len() > 0);
            assert(tail[0] == entries@[i as int]);
            assert(tail.drop_first() =~= entries@.skip(i as int + 1));
        }
        let hit = match &entries[i].0 {
            Yaml::Str(k) => crate::text::str_eq(k.as_str(), key),
            _ => false,
        };
        proof {
            assert(yaml_dict_view(tail)[0] == (yaml_view(tail[0].0), yaml_view(tail[0].1)))
                by {
                lemma_yaml_dict_view(tail);
            }
            if hit {
                assert(yaml_view(entries@[i as int].0) == YamlV::Str(key@));
            } else {
                assert(yaml_view(entries@[i as int].0) != YamlV::Str(key@));
                assert(yaml_dict_view(tail).drop_first() =~= yaml_dict_view(tail.drop_first()))
                    by {
                    lemma_yaml_dict_view(tail);
                    lemma_yaml_dict_view(tail.drop_first());
                }
            }
        }
        if hit {
            return Some(&entries[i].1);
        }
        i = i + 1;
    }
    proof {
        assert(entries@.skip(n as int).len() == 0);
    }
    None
}

/// What the outside YAML parser yields for a text: the view of the parsed
/// document, or nothing when the text is not well-formed YAML.
pub uninterp spec fn yaml_doc(text: Seq<char>) -> Option<YamlV>;

#[verifier::external_type_specification]
#[verifier::external_body]
pub struct ExYamlValue(serde_yaml::Value);

/// Relies on the shape of `serde_yaml::Value`: this is the conversion half
/// of [`parse_yaml_text`], carrying each parsed node over into [`Yaml`]
/// variant by variant. Numbers outside `u64` and tagged values have no
/// counterpart the schemas accept and become [`Yaml::Other`].
#[verifier::external_body]
fn yaml_of_value(v: serde_yaml::Value) -> Yaml {
    match v {
        serde_yaml::Value::Null => Yaml::Null,
        serde_yaml::Value::Bool(b) => Yaml::Bool(b),
        serde_yaml::Value::Number(n) => n.as_u64().map_or(Yaml::Other, Yaml::Int),
        serde_yaml::Value::String(s) => Yaml::Str(s),
        serde_yaml::Value::Sequence(items) => Yaml::List(
            items.into_iter().map(yaml_of_value).collect(),
        ),
        serde_yaml::Value::Mapping(m) => Yaml::Dict(
            m.into_iter().map(|(k, w)| (yaml_of_value(k), yaml_of_value(w))).collect(),
        ),
        serde_yaml::Value::Tagged(_) => Yaml::Other,
    }
}

/// Relies on `serde_yaml::from_str::<serde_yaml::Value>`: the parsed
/// document depends on the text alone; a malformed text yields the parser's
/// error message. A mapping that writes the same key twice is malformed to
/// this parser, so the keys of every parsed mapping are distinct.
#[verifier::external_body]
pub(crate) fn parse_yaml_text(text: &str) -> (r: Result<Yaml, String>)
    ensures
        r is Ok <==> yaml_doc(text@) is Some,
        r matches Ok(y) ==> Some(y@) == yaml_doc(text@),
{
    match serde_yaml::from_str::<serde_yaml::Value>(text) {
        Ok(v) => Ok(yaml_of_value(v)),
        Err(e) => Err(e.to_string()),
    }
}

} // verus!
