//! Routing of decoded messages to the store, one outcome per message.
use vstd::prelude::*;

use crate::decode::{decode, decode_result, DecodeError, EntityEvent};
use crate::json::Json;
use crate::store::{covering, link_effect, permit_appended, EntityStore, LinkOutcome};

verus! {

/// What handling one message did.
#[derive(Debug)]
pub enum Outcome {
    /// An asset was stored.
    AssetStored,
    /// A work permit was stored.
    PermitStored,
    /// An association event was applied, with this outcome.
    Link(LinkOutcome),
    /// A datapoint was attributed to the stored permits at these positions.
    Attributed(Vec<usize>),
    /// The message came from a stream that is not handled.
    Ignored,
    /// The message could not be decoded; nothing changed.
    Rejected(DecodeError),
}

/// Handling `event` took the store from `before` to `after` with outcome `r`.
pub open spec fn dispatched(before: EntityStore, after: EntityStore, event: EntityEvent, r: Outcome) -> bool {
    match event {
        EntityEvent::Asset(a) => {
            &&& r is AssetStored
            &&& after.assets@ == before.assets@.push(a)
            &&& after.permits@ == before.permits@
        },
        EntityEvent::WorkPermit(p) => r is PermitStored && permit_appended(before, after, p),
        EntityEvent::PermitAsset(l) => match r {
            Outcome::Link(o) => link_effect(before, after, l.permit_id, l.asset_id, o),
            _ => false,
        },
        EntityEvent::Datapoint(d) => {
            &&& after == before
            &&& match r {
                Outcome::Attributed(v) => v@.map_values(|x: usize| x as int) == covering(
                    before.permits@,
                    d.asset_id,
                ),
                _ => false,
            }
        },
        EntityEvent::UnknownStream => r is Ignored && after == before,
    }
}

/// Applies a decoded event to the store.
pub fn dispatch(store: &mut EntityStore, event: EntityEvent) -> (r: Outcome)
    ensures
        dispatched(*old(store), *final(store), event, r),
{
    match event {
        EntityEvent::Asset(a) => {
            store.insert_asset(a);
            Outcome::AssetStored
        },
        EntityEvent::WorkPermit(p) => {
            store.insert_permit(p);
            Outcome::PermitStored
        },
        EntityEvent::PermitAsset(l) => Outcome::Link(store.link(l.permit_id, l.asset_id)),
        EntityEvent::Datapoint(d) => Outcome::Attributed(store.attribute(&d)),
        EntityEvent::UnknownStream => Outcome::Ignored,
    }
}

/// Decodes a message of stream `stream`, whose payload parsed to `root`
/// (`None`: it did not parse), and applies it to the store.
pub fn process(store: &mut EntityStore, stream: &str, root: Option<&Json>) -> (r: Outcome)
    ensures
        match r {
            Outcome::Rejected(e) => {
                &&& decode_result(stream@, match root { Some(j) => Some(*j), None => None }, Err(e))
                &&& *final(store) == *old(store)
            },
            _ => exists|event: EntityEvent|
                decode_result(stream@, match root { Some(j) => Some(*j), None => None }, Ok(event))
                && #[trigger] dispatched(*old(store), *final(store), event, r),
        },
{
    match decode(stream, root) {
        Ok(event) => {
            let ghost e = event;
            let r = dispatch(store, event);
            assert(dispatched(*old(store), *store, e, r));
            r
        },
        Err(e) => Outcome::Rejected(e),
    }
}

} // verus!
