//! The entity records carried by the four streams.
use vstd::prelude::*;

use crate::json::JsonNumber;

verus! {

/// A piece of equipment. Timestamps are milliseconds since the Unix epoch.
#[derive(Debug)]
pub struct Asset {
    pub id: i64,
    pub tag: String,
    pub name: String,
    pub description: String,
    pub status: String,
    pub date_created: i64,
    pub last_updated: i64,
}

/// A work permit, with the ids of the assets linked to it in the order of
/// linking. Validity bounds are milliseconds since the Unix epoch.
#[derive(Debug)]
pub struct WorkPermit {
    pub id: i64,
    pub description: String,
    pub status: String,
    pub permit_type: Option<String>,
    pub responsible_person: String,
    pub valid_from: i64,
    pub valid_to: i64,
    pub authorized_by: String,
    pub location: String,
    pub permit_number: String,
    pub asset_ids: Vec<i64>,
}

/// An association event: the asset `asset_id` is covered by permit `permit_id`.
#[derive(Debug)]
pub struct PermitAsset {
    pub permit_id: i64,
    pub asset_id: i64,
}

/// A sensor reading. The timestamp is in nanoseconds since the Unix epoch.
#[derive(Debug)]
pub struct Datapoint {
    pub id: i64,
    pub timestamp: i128,
    pub value: JsonNumber,
    pub asset_id: i64,
}

/// `a` and `b` agree on every field but the list of linked assets.
pub open spec fn same_permit_details(a: WorkPermit, b: WorkPermit) -> bool {
    &&& a.id == b.id
    &&& a.description == b.description
    &&& a.status == b.status
    &&& a.permit_type == b.permit_type
    &&& a.responsible_person == b.responsible_person
    &&& a.valid_from == b.valid_from
    &&& a.valid_to == b.valid_to
    &&& a.authorized_by == b.authorized_by
    &&& a.location == b.location
    &&& a.permit_number == b.permit_number
}

} // verus!
