//! The YAML report that stands in for a run that produced none.

use vstd::prelude::*;
use vstd::string::*;
use crate::text::opt_text;

verus! {

/// A scalar of a YAML document.
pub enum YamlValue {
    Number(u64),
    Text(Seq<char>),
}

/// A YAML mapping under construction.
#[verifier::external_type_specification]
#[verifier::external_body]
pub struct ExMapping(serde_yaml::Mapping);

/// The keys and values of a mapping, in the order in which it writes them.
pub uninterp spec fn mapping_fields(mapping: serde_yaml::Mapping) -> Seq<(Seq<char>, YamlValue)>;

/// The YAML document for a mapping with the given keys and scalar values, in
/// the given order; `None` where the serialiser reports an error.
pub uninterp spec fn yaml_mapping_text(fields: Seq<(Seq<char>, YamlValue)>) -> Option<Seq<char>>;

/// Whether one of the fields has the given key.
pub open spec fn has_key(fields: Seq<(Seq<char>, YamlValue)>, key: Seq<char>) -> bool {
    exists|i: int| 0 <= i < fields.len() && (#[trigger] fields[i]).0 == key
}

/// `serde_yaml::Mapping::new`: a mapping without fields.
#[verifier::external_body]
fn mapping_new() -> (r: serde_yaml::Mapping)
    ensures
        mapping_fields(r) == Seq::<(Seq<char>, YamlValue)>::empty(),
{
    serde_yaml::Mapping::new()
}

/// `serde_yaml::Mapping::insert` with a text key and a number: a key that
/// the mapping does not hold yet goes to the end.
#[verifier::external_body]
fn mapping_insert_number(mapping: &mut serde_yaml::Mapping, key: &str, value: u64)
    requires
        !has_key(mapping_fields(*old(mapping)), key@),
    ensures
        mapping_fields(*final(mapping)) == mapping_fields(*old(mapping)).push(
            (key@, YamlValue::Number(value)),
        ),
{
    mapping.insert(serde_yaml::Value::from(key), serde_yaml::Value::from(value));
}

/// `serde_yaml::Mapping::insert` with a text key and a text: a key that the
/// mapping does not hold yet goes to the end.
#[verifier::external_body]
fn mapping_insert_text(mapping: &mut serde_yaml::Mapping, key: &str, value: &str)
    requires
        !has_key(mapping_fields(*old(mapping)), key@),
    ensures
        mapping_fields(*final(mapping)) == mapping_fields(*old(mapping)).push(
            (key@, YamlValue::Text(value@)),
        ),
{
    mapping.insert(serde_yaml::Value::from(key), serde_yaml::Value::from(value));
}

/// `serde_yaml::to_string` on a mapping. The contract names the result: it
/// depends on the fields of the mapping alone.
#[verifier::external_body]
fn mapping_to_string(mapping: &serde_yaml::Mapping) -> (r: Option<String>)
    ensures
        opt_text(r) == yaml_mapping_text(mapping_fields(*mapping)),
{
    serde_yaml::to_string(mapping).ok()
}

/// The fields of the report that stands in where a run has none of its own:
/// no points out of one, and why.
pub open spec fn error_report_fields(explanation: Seq<char>) -> Seq<(Seq<char>, YamlValue)> {
    seq![
        ("grade"@, YamlValue::Number(0)),
        ("max-grade"@, YamlValue::Number(1)),
        ("explanation"@, YamlValue::Text(explanation)),
    ]
}

/// The stand-in report with the given explanation, as a YAML document.
pub open spec fn error_report_text(explanation: Seq<char>) -> Option<Seq<char>> {
    yaml_mapping_text(error_report_fields(explanation))
}

/// Writes the stand-in report with the given explanation.
pub fn error_report(explanation: &str) -> (r: Option<String>)
    ensures
        opt_text(r) == error_report_text(explanation@),
{
    proof {
        reveal_strlit("grade");
        reveal_strlit("max-grade");
        reveal_strlit("explanation");
    }
    let mut mapping = mapping_new();
    mapping_insert_number(&mut mapping, "grade", 0);
    assert(mapping_fields(mapping)[0].0.len() == 5);
    mapping_insert_number(&mut mapping, "max-grade", 1);
    assert(mapping_fields(mapping)[0].0.len() == 5);
    assert(mapping_fields(mapping)[1].0.len() == 9);
    mapping_insert_text(&mut mapping, "explanation", explanation);
    assert(mapping_fields(mapping) =~= error_report_fields(explanation@));
    mapping_to_string(&mapping)
}

} // verus!
