//! Decoding of change-data-capture envelopes into entity events.
//!
//! An envelope is an object whose `payload` member is an object whose `after`
//! member is the row image of the entity. The image's members are read by
//! name; members that no record has are ignored.
use vstd::prelude::*;

use crate::json::{member, refers_to, Json, JsonNumber};
use crate::model::{Asset, Datapoint, PermitAsset, WorkPermit};
use crate::time::{millis_in_range, millis_representable};

verus! {

/// The four streams whose records this library decodes.
#[derive(PartialEq, Eq, Structural, Clone, Copy, Debug)]
pub enum Stream {
    Datapoints,
    WorkPermits,
    Assets,
    PermitAssets,
}

/// A decoded message.
#[derive(Debug)]
pub enum EntityEvent {
    Datapoint(Datapoint),
    WorkPermit(WorkPermit),
    Asset(Asset),
    PermitAsset(PermitAsset),
    /// The message came from a stream that this library does not handle.
    UnknownStream,
}

/// Why a message could not be decoded.
#[derive(Debug)]
pub enum DecodeError {
    /// The payload is not a JSON document.
    MalformedPayload,
    /// The envelope has no `payload.after` row image, or it is null.
    NoAfterImage,
    /// The row image lacks the named member, or holds it with the wrong type.
    SchemaMismatch(String),
}

// ---------------------------------------------------------------------------
// What each member type accepts.

/// An integer member that fits in `i64`.
pub open spec fn int_value(v: Option<Json>) -> Option<i64> {
    match v {
        Some(Json::Number(JsonNumber::Int(x))) => if i64::MIN <= x <= i64::MAX {
            Some(x as i64)
        } else {
            None
        },
        _ => None,
    }
}

/// A string member.
pub open spec fn text_value(v: Option<Json>) -> Option<Seq<char>> {
    match v {
        Some(Json::Str(s)) => Some(s@),
        _ => None,
    }
}

/// An optional string member: absent or null reads as `None`.
pub open spec fn optional_text_value(v: Option<Json>) -> Option<Option<Seq<char>>> {
    match v {
        None => Some(None),
        Some(Json::Null) => Some(None),
        Some(Json::Str(s)) => Some(Some(s@)),
        _ => None,
    }
}

/// A millisecond timestamp: an `i64` that names a representable instant.
pub open spec fn millis_value(v: Option<Json>) -> Option<i64> {
    match int_value(v) {
        Some(x) => if millis_representable(x) {
            Some(x)
        } else {
            None
        },
        None => None,
    }
}

/// A nanosecond timestamp: any integer from `i64::MIN` to `u64::MAX`.
pub open spec fn nanos_value(v: Option<Json>) -> Option<i128> {
    match v {
        Some(Json::Number(JsonNumber::Int(x))) => if i64::MIN <= x <= u64::MAX {
            Some(x)
        } else {
            None
        },
        _ => None,
    }
}

/// A numeric member of any kind.
pub open spec fn number_value(v: Option<Json>) -> Option<JsonNumber> {
    match v {
        Some(Json::Number(n)) => Some(n),
        _ => None,
    }
}

/// The optional text of `o`, viewed.
pub open spec fn optional_view(o: Option<String>) -> Option<Seq<char>> {
    match o {
        Some(s) => Some(s@),
        None => None,
    }
}

fn read_int(o: &Json, key: &str) -> (r: Option<i64>)
    ensures
        r == int_value(member(*o, key@)),
{
    match o.get(key) {
        Some(Json::Number(JsonNumber::Int(x))) => if i64::MIN as i128 <= *x && *x <= i64::MAX as i128 {
            Some(*x as i64)
        } else {
            None
        },
        _ => None,
    }
}

fn read_text(o: &Json, key: &str) -> (r: Option<String>)
    ensures
        match r {
            Some(s) => text_value(member(*o, key@)) == Some(s@),
            None => text_value(member(*o, key@)).is_none(),
        },
{
    match o.get(key) {
        Some(Json::Str(s)) => Some(s.clone()),
        _ => None,
    }
}

fn read_optional_text(o: &Json, key: &str) -> (r: Option<Option<String>>)
    ensures
        match r {
            Some(t) => optional_text_value(member(*o, key@)) == Some(optional_view(t)),
            None => optional_text_value(member(*o, key@)).is_none(),
        },
{
    match o.get(key) {
        None => Some(None),
        Some(Json::Null) => Some(None),
        Some(Json::Str(s)) => Some(Some(s.clone())),
        _ => None,
    }
}

fn read_millis(o: &Json, key: &str) -> (r: Option<i64>)
    ensures
        r == millis_value(member(*o, key@)),
{
    match read_int(o, key) {
        Some(x) => if millis_in_range(x) {
            Some(x)
        } else {
            None
        },
        None => None,
    }
}

fn read_nanos(o: &Json, key: &str) -> (r: Option<i128>)
    ensures
        r == nanos_value(member(*o, key@)),
{
    match o.get(key) {
        Some(Json::Number(JsonNumber::Int(x))) => if i64::MIN as i128 <= *x && *x <= u64::MAX as i128 {
            Some(*x)
        } else {
            None
        },
        _ => None,
    }
}

fn read_number(o: &Json, key: &str) -> (r: Option<JsonNumber>)
    ensures
        r == number_value(member(*o, key@)),
{
    match o.get(key) {
        Some(Json::Number(n)) => Some(n.copy()),
        _ => None,
    }
}

// ---------------------------------------------------------------------------
// Records. A record's fault is the name of its first member, in declaration
// order, that is missing or has the wrong type.

pub open spec fn asset_fault(o: Json) -> Option<Seq<char>> {
    if int_value(member(o, "id"@)).is_none() {
        Some("id"@)
    } else if text_value(member(o, "tag"@)).is_none() {
        Some("tag"@)
    } else if text_value(member(o, "name"@)).is_none() {
        Some("name"@)
    } else if text_value(member(o, "description"@)).is_none() {
        Some("description"@)
    } else if text_value(member(o, "status"@)).is_none() {
        Some("status"@)
    } else if millis_value(member(o, "date_created"@)).is_none() {
        Some("date_created"@)
    } else if millis_value(member(o, "last_updated"@)).is_none() {
        Some("last_updated"@)
    } else {
        None
    }
}

/// `a` holds the members of the row image `o`.
pub open spec fn reads_asset(o: Json, a: Asset) -> bool {
    &&& int_value(member(o, "id"@)) == Some(a.id)
    &&& text_value(member(o, "tag"@)) == Some(a.tag@)
    &&& text_value(member(o, "name"@)) == Some(a.name@)
    &&& text_value(member(o, "description"@)) == Some(a.description@)
    &&& text_value(member(o, "status"@)) == Some(a.status@)
    &&& millis_value(member(o, "date_created"@)) == Some(a.date_created)
    &&& millis_value(member(o, "last_updated"@)) == Some(a.last_updated)
}

pub open spec fn permit_fault(o: Json) -> Option<Seq<char>> {
    if int_value(member(o, "id"@)).is_none() {
        Some("id"@)
    } else if text_value(member(o, "description"@)).is_none() {
        Some("description"@)
    } else if text_value(member(o, "status"@)).is_none() {
        Some("status"@)
    } else if optional_text_value(member(o, "type"@)).is_none() {
        Some("type"@)
    } else if text_value(member(o, "responsible_person"@)).is_none() {
        Some("responsible_person"@)
    } else if millis_value(member(o, "valid_from"@)).is_none() {
        Some("valid_from"@)
    } else if millis_value(member(o, "valid_to"@)).is_none() {
        Some("valid_to"@)
    } else if text_value(member(o, "authorized_by"@)).is_none() {
        Some("authorized_by"@)
    } else if text_value(member(o, "location"@)).is_none() {
        Some("location"@)
    } else if text_value(member(o, "permit_number"@)).is_none() {
        Some("permit_number"@)
    } else {
        None
    }
}

/// `p` holds the members of the row image `o` and has no linked assets: an
/// `assets` member of the image is not read.
pub open spec fn reads_permit(o: Json, p: WorkPermit) -> bool {
    &&& int_value(member(o, "id"@)) == Some(p.id)
    &&& text_value(member(o, "description"@)) == Some(p.description@)
    &&& text_value(member(o, "status"@)) == Some(p.status@)
    &&& optional_text_value(member(o, "type"@)) == Some(optional_view(p.permit_type))
    &&& text_value(member(o, "responsible_person"@)) == Some(p.responsible_person@)
    &&& millis_value(member(o, "valid_from"@)) == Some(p.valid_from)
    &&& millis_value(member(o, "valid_to"@)) == Some(p.valid_to)
    &&& text_value(member(o, "authorized_by"@)) == Some(p.authorized_by@)
    &&& text_value(member(o, "location"@)) == Some(p.location@)
    &&& text_value(member(o, "permit_number"@)) == Some(p.permit_number@)
    &&& p.asset_ids@.len() == 0
}

pub open spec fn link_fault(o: Json) -> Option<Seq<char>> {
    if int_value(member(o, "permit_id"@)).is_none() {
        Some("permit_id"@)
    } else if int_value(member(o, "asset_id"@)).is_none() {
        Some("asset_id"@)
    } else {
        None
    }
}

pub open spec fn reads_link(o: Json, l: PermitAsset) -> bool {
    &&& int_value(member(o, "permit_id"@)) == Some(l.permit_id)
    &&& int_value(member(o, "asset_id"@)) == Some(l.asset_id)
}

pub open spec fn datapoint_fault(o: Json) -> Option<Seq<char>> {
    if int_value(member(o, "id"@)).is_none() {
        Some("id"@)
    } else if nanos_value(member(o, "timestamp"@)).is_none() {
        Some("timestamp"@)
    } else if number_value(member(o, "value"@)).is_none() {
        Some("value"@)
    } else if int_value(member(o, "asset_id"@)).is_none() {
        Some("asset_id"@)
    } else {
        None
    }
}

pub open spec fn reads_datapoint(o: Json, d: Datapoint) -> bool {
    &&& int_value(member(o, "id"@)) == Some(d.id)
    &&& nanos_value(member(o, "timestamp"@)) == Some(d.timestamp)
    &&& number_value(member(o, "value"@)) == Some(d.value)
    &&& int_value(member(o, "asset_id"@)) == Some(d.asset_id)
}

/// Decodes an asset row image; the error names the first faulty member.
pub fn decode_asset(o: &Json) -> (r: Result<Asset, String>)
    ensures
        match r {
            Ok(a) => asset_fault(*o).is_none() && reads_asset(*o, a),
            Err(d) => asset_fault(*o) == Some(d@),
        },
{
    let id = match read_int(o, "id") {
        Some(x) => x,
        None => return Err("id".to_owned()),
    };
    let tag = match read_text(o, "tag") {
        Some(x) => x,
        None => return Err("tag".to_owned()),
    };
    let name = match read_text(o, "name") {
        Some(x) => x,
        None => return Err("name".to_owned()),
    };
    let description = match read_text(o, "description") {
        Some(x) => x,
        None => return Err("description".to_owned()),
    };
    let status = match read_text(o, "status") {
        Some(x) => x,
        None => return Err("status".to_owned()),
    };
    let date_created = match read_millis(o, "date_created") {
        Some(x) => x,
        None => return Err("date_created".to_owned()),
    };
    let last_updated = match read_millis(o, "last_updated") {
        Some(x) => x,
        None => return Err("last_updated".to_owned()),
    };
    Ok(Asset { id, tag, name, description, status, date_created, last_updated })
}

/// Decodes a work permit row image; the error names the first faulty member.
pub fn decode_permit(o: &Json) -> (r: Result<WorkPermit, String>)
    ensures
        match r {
            Ok(p) => permit_fault(*o).is_none() && reads_permit(*o, p),
            Err(d) => permit_fault(*o) == Some(d@),
        },
{
    let id = match read_int(o, "id") {
        Some(x) => x,
        None => return Err("id".to_owned()),
    };
    let description = match read_text(o, "description") {
        Some(x) => x,
        None => return Err("description".to_owned()),
    };
    let status = match read_text(o, "status") {
        Some(x) => x,
        None => return Err("status".to_owned()),
    };
    let permit_type = match read_optional_text(o, "type") {
        Some(x) => x,
        None => return Err("type".to_owned()),
    };
    let responsible_person = match read_text(o, "responsible_person") {
        Some(x) => x,
        None => return Err("responsible_person".to_owned()),
    };
    let valid_from = match read_millis(o, "valid_from") {
        Some(x) => x,
        None => return Err("valid_from".to_owned()),
    };
    let valid_to = match read_millis(o, "valid_to") {
        Some(x) => x,
        None => return Err("valid_to".to_owned()),
    };
    let authorized_by = match read_text(o, "authorized_by") {
        Some(x) => x,
        None => return Err("authorized_by".to_owned()),
    };
    let location = match read_text(o, "location") {
        Some(x) => x,
        None => return Err("location".to_owned()),
    };
    let permit_number = match read_text(o, "permit_number") {
        Some(x) => x,
        None => return Err("permit_number".to_owned()),
    };
    Ok(
        WorkPermit {
            id,
            description,
            status,
            permit_type,
            responsible_person,
            valid_from,
            valid_to,
            authorized_by,
            location,
            permit_number,
            asset_ids: Vec::new(),
        },
    )
}

/// Decodes a permit-asset row image; the error names the first faulty member.
pub fn decode_link(o: &Json) -> (r: Result<PermitAsset, String>)
    ensures
        match r {
            Ok(l) => link_fault(*o).is_none() && reads_link(*o, l),
            Err(d) => link_fault(*o) == Some(d@),
        },
{
    let permit_id = match read_int(o, "permit_id") {
        Some(x) => x,
        None => return Err("permit_id".to_owned()),
    };
    let asset_id = match read_int(o, "asset_id") {
        Some(x) => x,
        None => return Err("asset_id".to_owned()),
    };
    Ok(PermitAsset { permit_id, asset_id })
}

/// Decodes a datapoint row image; the error names the first faulty member.
pub fn decode_datapoint(o: &Json) -> (r: Result<Datapoint, String>)
    ensures
        match r {
            Ok(d) => datapoint_fault(*o).is_none() && reads_datapoint(*o, d),
            Err(d) => datapoint_fault(*o) == Some(d@),
        },
{
    let id = match read_int(o, "id") {
        Some(x) => x,
        None => return Err("id".to_owned()),
    };
    let timestamp = match read_nanos(o, "timestamp") {
        Some(x) => x,
        None => return Err("timestamp".to_owned()),
    };
    let value = match read_number(o, "value") {
        Some(x) => x,
        None => return Err("value".to_owned()),
    };
    let asset_id = match read_int(o, "asset_id") {
        Some(x) => x,
        None => return Err("asset_id".to_owned()),
    };
    Ok(Datapoint { id, timestamp, value, asset_id })
}

// ---------------------------------------------------------------------------
// Envelopes.

/// The stream named `name`, if it is one of the four.
pub open spec fn stream_of(name: Seq<char>) -> Option<Stream> {
    if name == "datapoints"@ {
        Some(Stream::Datapoints)
    } else if name == "work-permit"@ {
        Some(Stream::WorkPermits)
    } else if name == "asset"@ {
        Some(Stream::Assets)
    } else if name == "permit-asset"@ {
        Some(Stream::PermitAssets)
    } else {
        None
    }
}

/// The row image of an envelope: its `payload.after` member, unless null.
pub open spec fn after_image(root: Json) -> Option<Json> {
    match member(root, "payload"@) {
        Some(p) => match member(p, "after"@) {
            Some(Json::Null) => None,
            a => a,
        },
        None => None,
    }
}

/// `r` is what decoding the row image `o` as a record of stream `k` gives.
pub open spec fn decodes_as(k: Stream, o: Json, r: Result<EntityEvent, DecodeError>) -> bool {
    match k {
        Stream::Datapoints => match datapoint_fault(o) {
            Some(f) => r matches Err(DecodeError::SchemaMismatch(d)) && d@ == f,
            None => r matches Ok(EntityEvent::Datapoint(x)) && reads_datapoint(o, x),
        },
        Stream::WorkPermits => match permit_fault(o) {
            Some(f) => r matches Err(DecodeError::SchemaMismatch(d)) && d@ == f,
            None => r matches Ok(EntityEvent::WorkPermit(x)) && reads_permit(o, x),
        },
        Stream::Assets => match asset_fault(o) {
            Some(f) => r matches Err(DecodeError::SchemaMismatch(d)) && d@ == f,
            None => r matches Ok(EntityEvent::Asset(x)) && reads_asset(o, x),
        },
        Stream::PermitAssets => match link_fault(o) {
            Some(f) => r matches Err(DecodeError::SchemaMismatch(d)) && d@ == f,
            None => r matches Ok(EntityEvent::PermitAsset(x)) && reads_link(o, x),
        },
    }
}

/// What decoding a message of stream `name` whose payload parsed to `root`
/// (`None`: it did not parse) gives. A missing row image is reported before
/// the stream name is looked at.
pub open spec fn decode_result(name: Seq<char>, root: Option<Json>, r: Result<EntityEvent, DecodeError>) -> bool {
    match root {
        None => r == Err::<EntityEvent, DecodeError>(DecodeError::MalformedPayload),
        Some(j) => match after_image(j) {
            None => r == Err::<EntityEvent, DecodeError>(DecodeError::NoAfterImage),
            Some(a) => match stream_of(name) {
                None => r == Ok::<EntityEvent, DecodeError>(EntityEvent::UnknownStream),
                Some(k) => decodes_as(k, a, r),
            },
        },
    }
}

fn same_text(a: &str, b: &str) -> (r: bool)
    ensures
        r == (a@ == b@),
{
    a.to_owned() == b.to_owned()
}

/// The stream named `name`, if it is one of the four.
pub fn stream_kind(name: &str) -> (r: Option<Stream>)
    ensures
        r == stream_of(name@),
{
    if same_text(name, "datapoints") {
        Some(Stream::Datapoints)
    } else if same_text(name, "work-permit") {
        Some(Stream::WorkPermits)
    } else if same_text(name, "asset") {
        Some(Stream::Assets)
    } else if same_text(name, "permit-asset") {
        Some(Stream::PermitAssets)
    } else {
        None
    }
}

/// The row image of an envelope, if it has a non-null one.
pub fn find_after_image(root: &Json) -> (r: Option<&Json>)
    ensures
        refers_to(r, after_image(*root)),
{
    match root.get("payload") {
        Some(p) => match p.get("after") {
            Some(Json::Null) => None,
            a => a,
        },
        None => None,
    }
}

/// Decodes a row image as a record of stream `k`.
pub fn decode_image(k: Stream, o: &Json) -> (r: Result<EntityEvent, DecodeError>)
    ensures
        decodes_as(k, *o, r),
{
    match k {
        Stream::Datapoints => match decode_datapoint(o) {
            Ok(x) => Ok(EntityEvent::Datapoint(x)),
            Err(d) => Err(DecodeError::SchemaMismatch(d)),
        },
        Stream::WorkPermits => match decode_permit(o) {
            Ok(x) => Ok(EntityEvent::WorkPermit(x)),
            Err(d) => Err(DecodeError::SchemaMismatch(d)),
        },
        Stream::Assets => match decode_asset(o) {
            Ok(x) => Ok(EntityEvent::Asset(x)),
            Err(d) => Err(DecodeError::SchemaMismatch(d)),
        },
        Stream::PermitAssets => match decode_link(o) {
            Ok(x) => Ok(EntityEvent::PermitAsset(x)),
            Err(d) => Err(DecodeError::SchemaMismatch(d)),
        },
    }
}

/// Decodes a message of stream `stream` whose payload parsed to `root`;
/// `None` stands for a payload that is not a JSON document.
pub fn decode(stream: &str, root: Option<&Json>) -> (r: Result<EntityEvent, DecodeError>)
    ensures
        decode_result(stream@, match root { Some(j) => Some(*j), None => None }, r),
{
    match root {
        None => Err(DecodeError::MalformedPayload),
        Some(j) => match find_after_image(j) {
            None => Err(DecodeError::NoAfterImage),
            Some(a) => match stream_kind(stream) {
                None => Ok(EntityEvent::UnknownStream),
                Some(k) => decode_image(k, a),
            },
        },
    }
}

/// A payload without a row image is refused as such, whatever stream it
/// came from.
pub proof fn missing_image_is_reported(name: Seq<char>, root: Json, r: Result<EntityEvent, DecodeError>)
    requires
        after_image(root).is_none(),
        decode_result(name, Some(root), r),
    ensures
        r == Err::<EntityEvent, DecodeError>(DecodeError::NoAfterImage),
{
}

} // verus!
