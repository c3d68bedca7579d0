//! The structured summary that is written beside a snapshot.

use crate::snapshot::SnapshotPlan;
use crate::stamp::text_is;
use vstd::prelude::*;
use vstd::string::*;

verus! {

/// The texts of a list of key and value pairs.
pub open spec fn pairs(fields: Seq<(String, String)>) -> Seq<(Seq<char>, Seq<char>)> {
    Seq::new(fields.len(), |i: int| (fields[i].0@, fields[i].1@))
}

/// The pretty-printed JSON object whose members are the given keys with
/// their string values, or `None` where it cannot be written.
pub uninterp spec fn json_object_text(fields: Seq<(Seq<char>, Seq<char>)>) -> Option<Seq<char>>;

/// `serde_json::to_string_pretty` on a `serde_json::Value::Object` whose map
/// was collected from the pairs, each value as a `Value::String`: the
/// object's pretty-printed text. The result depends on the pairs alone.
#[verifier::external_body]
fn write_json_object(fields: &Vec<(String, String)>) -> (r: Option<String>)
    ensures
        text_is(r, json_object_text(pairs(fields@))),
{
    let map: serde_json::Map<String, serde_json::Value> = fields
        .iter()
        .map(|field| (field.0.clone(), serde_json::Value::String(field.1.clone())))
        .collect();
    serde_json::to_string_pretty(&serde_json::Value::Object(map)).ok()
}

/// The members of a snapshot's summary: which snapshot of which game, when,
/// and which save file.
pub open spec fn metadata_pairs(plan: SnapshotPlan, timestamp: Seq<char>) -> Seq<
    (Seq<char>, Seq<char>),
> {
    seq![
        ("id"@, plan.id@),
        ("game_id"@, plan.game_id@),
        ("game_name"@, plan.game_name@),
        ("timestamp"@, timestamp),
        ("dat_file"@, plan.file_name@),
        ("dat_path"@, plan.source_path@),
    ]
}

fn field(key: &str, value: &str) -> (r: (String, String))
    ensures
        r.0@ == key@,
        r.1@ == value@,
{
    (String::from_str(key), String::from_str(value))
}

/// Lists the members of a snapshot's summary.
pub fn metadata_fields(plan: &SnapshotPlan, timestamp: &str) -> (r: Vec<(String, String)>)
    ensures
        pairs(r@) == metadata_pairs(*plan, timestamp@),
{
    let mut fields: Vec<(String, String)> = Vec::new();
    fields.push(field("id", plan.id.as_str()));
    fields.push(field("game_id", plan.game_id.as_str()));
    fields.push(field("game_name", plan.game_name.as_str()));
    fields.push(field("timestamp", timestamp));
    fields.push(field("dat_file", plan.file_name.as_str()));
    fields.push(field("dat_path", plan.source_path.as_str()));
    assert(pairs(fields@) =~= metadata_pairs(*plan, timestamp@));
    fields
}

/// The text of a snapshot's `metadata.json`.
pub fn metadata_text(plan: &SnapshotPlan, timestamp: &str) -> (r: Option<String>)
    ensures
        text_is(r, json_object_text(metadata_pairs(*plan, timestamp@))),
{
    let fields = metadata_fields(plan, timestamp);
    write_json_object(&fields)
}

} // verus!
