//! The in-memory entity store: assets and permits in order of arrival, the
//! linking of assets into permits, and attribution of datapoints to permits.
use vstd::prelude::*;

use crate::model::{same_permit_details, Asset, Datapoint, WorkPermit};

verus! {

/// The result of applying an association event.
#[derive(PartialEq, Eq, Structural, Clone, Copy, Debug)]
pub enum LinkOutcome {
    /// The asset was linked into this many permits (at least one).
    Linked(usize),
    /// No stored asset has the event's asset id; nothing changed.
    AssetNotFound,
    /// No stored permit has the event's permit id; nothing changed.
    PermitNotFound,
}

/// All known assets and work permits, in order of arrival. Neither ids of
/// assets nor ids of permits need be unique.
#[derive(Debug)]
pub struct EntityStore {
    pub assets: Vec<Asset>,
    pub permits: Vec<WorkPermit>,
}

/// Some asset in `assets` has the id `id`.
pub open spec fn has_asset(assets: Seq<Asset>, id: i64) -> bool {
    exists|i: int| 0 <= i < assets.len() && #[trigger] assets[i].id == id
}

/// Some permit in `permits` has the id `id`.
pub open spec fn has_permit(permits: Seq<WorkPermit>, id: i64) -> bool {
    exists|i: int| 0 <= i < permits.len() && #[trigger] permits[i].id == id
}

/// `i` is the first position in `assets` holding an asset with id `id`.
pub open spec fn first_asset_at(assets: Seq<Asset>, id: i64, i: int) -> bool {
    &&& 0 <= i < assets.len()
    &&& assets[i].id == id
    &&& forall|j: int| 0 <= j < i ==> #[trigger] assets[j].id != id
}

/// The permit `p` lists the asset `asset_id` among its linked assets.
pub open spec fn covers(p: WorkPermit, asset_id: i64) -> bool {
    p.asset_ids@.contains(asset_id)
}

/// The positions, in increasing order, of the permits in `permits` that
/// cover `asset_id`.
pub open spec fn covering(permits: Seq<WorkPermit>, asset_id: i64) -> Seq<int>
    decreases permits.len(),
{
    if permits.len() == 0 {
        Seq::empty()
    } else {
        let before = covering(permits.drop_last(), asset_id);
        if covers(permits.last(), asset_id) {
            before.push(permits.len() - 1)
        } else {
            before
        }
    }
}

/// `after` is `before` with `asset_id` appended to the linked assets of
/// every permit whose id is `permit_id`, and nothing else changed.
pub open spec fn linked_into(before: Seq<WorkPermit>, after: Seq<WorkPermit>, permit_id: i64, asset_id: i64) -> bool {
    &&& after.len() == before.len()
    &&& forall|i: int| 0 <= i < before.len() ==> {
        &&& same_permit_details(#[trigger] after[i], before[i])
        &&& after[i].asset_ids@ == if before[i].id == permit_id {
            before[i].asset_ids@.push(asset_id)
        } else {
            before[i].asset_ids@
        }
    }
}

/// The number of permits in `permits` whose id is `id`.
pub open spec fn permit_count(permits: Seq<WorkPermit>, id: i64) -> nat
    decreases permits.len(),
{
    if permits.len() == 0 {
        0
    } else {
        permit_count(permits.drop_last(), id) + if permits.last().id == id {
            1nat
        } else {
            0nat
        }
    }
}

/// `after` is `before` with `permit` stored last, its linked assets cleared.
pub open spec fn permit_appended(before: EntityStore, after: EntityStore, permit: WorkPermit) -> bool {
    &&& after.permits@.len() == before.permits@.len() + 1
    &&& after.permits@.drop_last() == before.permits@
    &&& same_permit_details(after.permits@.last(), permit)
    &&& after.permits@.last().asset_ids@.len() == 0
    &&& after.assets@ == before.assets@
}

/// Applying the association (`permit_id`, `asset_id`) to `before` gave
/// `after` and the outcome `r`. The asset is looked up first.
pub open spec fn link_effect(before: EntityStore, after: EntityStore, permit_id: i64, asset_id: i64, r: LinkOutcome) -> bool {
    &&& after.assets@ == before.assets@
    &&& r == if !has_asset(before.assets@, asset_id) {
        LinkOutcome::AssetNotFound
    } else if !has_permit(before.permits@, permit_id) {
        LinkOutcome::PermitNotFound
    } else {
        LinkOutcome::Linked(permit_count(before.permits@, permit_id) as usize)
    }
    &&& r is Linked ==> linked_into(before.permits@, after.permits@, permit_id, asset_id)
    &&& !(r is Linked) ==> after.permits@ == before.permits@
}

/// No permit has the id `id` exactly when none is counted.
pub proof fn lemma_count_zero_iff_absent(permits: Seq<WorkPermit>, id: i64)
    ensures
        (permit_count(permits, id) == 0) == !has_permit(permits, id),
    decreases permits.len(),
{
    if permits.len() > 0 {
        let rest = permits.drop_last();
        lemma_count_zero_iff_absent(rest, id);
        if has_permit(rest, id) {
            let i = choose|i: int| 0 <= i < rest.len() && #[trigger] rest[i].id == id;
            assert(permits[i].id == id);
        }
        if has_permit(permits, id) && permits.last().id != id {
            let i = choose|i: int| 0 <= i < permits.len() && #[trigger] permits[i].id == id;
            assert(rest[i].id == id);
        }
        if permits.last().id == id {
            assert(permits[permits.len() - 1].id == id);
        }
    }
}

impl EntityStore {
    /// An empty store.
    pub fn new() -> (r: EntityStore)
        ensures
            r.assets@.len() == 0,
            r.permits@.len() == 0,
    {
        EntityStore { assets: Vec::new(), permits: Vec::new() }
    }

    /// Stores an asset after all earlier ones, whatever its id.
    pub fn insert_asset(&mut self, asset: Asset)
        ensures
            final(self).assets@ == old(self).assets@.push(asset),
            final(self).permits@ == old(self).permits@,
    {
        self.assets.push(asset);
    }

    /// Stores a permit after all earlier ones, with no linked assets whatever
    /// the given one listed.
    pub fn insert_permit(&mut self, permit: WorkPermit)
        ensures
            permit_appended(*old(self), *final(self), permit),
    {
        let mut permit = permit;
        permit.asset_ids = Vec::new();
        self.permits.push(permit);
        assert(self.permits@.drop_last() =~= old(self).permits@);
    }

    /// The first stored asset with id `id`.
    pub fn find_asset_by_id(&self, id: i64) -> (r: Option<&Asset>)
        ensures
            match r {
                Some(a) => exists|i: int| first_asset_at(self.assets@, id, i) && self.assets@[i] == *a,
                None => !has_asset(self.assets@, id),
            },
    {
        let mut i: usize = 0;
        while i < self.assets.len()
            invariant
                i <= self.assets@.len(),
                forall|j: int| 0 <= j < i ==> #[trigger] self.assets@[j].id != id,
            decreases self.assets@.len() - i,
        {
            if self.assets[i].id == id {
                assert(first_asset_at(self.assets@, id, i as int));
                return Some(&self.assets[i]);
            }
            i = i + 1;
        }
        None
    }

    /// Applies an association event: links the asset `asset_id` into every
    /// permit whose id is `permit_id`. Nothing changes when no stored asset
    /// has that id (checked first) or no stored permit has that id.
    pub fn link(&mut self, permit_id: i64, asset_id: i64) -> (r: LinkOutcome)
        ensures
            link_effect(*old(self), *final(self), permit_id, asset_id, r),
    {
        if self.find_asset_by_id(asset_id).is_none() {
            return LinkOutcome::AssetNotFound;
        }
        let ghost before = self.permits@;
        let mut count: usize = 0;
        let mut i: usize = 0;
        while i < self.permits.len()
            invariant
                i <= self.permits@.len(),
                self.permits@.len() == before.len(),
                count == permit_count(before.take(i as int), permit_id),
                count <= i,
                forall|j: int| 0 <= j < before.len() ==> {
                    &&& same_permit_details(#[trigger] self.permits@[j], before[j])
                    &&& self.permits@[j].asset_ids@ == if j < i && before[j].id == permit_id {
                        before[j].asset_ids@.push(asset_id)
                    } else {
                        before[j].asset_ids@
                    }
                },
                self.assets@ == old(self).assets@,
                count == 0 ==> self.permits@ == before,
            decreases before.len() - i,
        {
            assert(before.take(i + 1).drop_last() =~= before.take(i as int));
            if self.permits[i].id == permit_id {
                let mut p = self.permits.remove(i);
                p.asset_ids.push(asset_id);
                self.permits.insert(i, p);
                count = count + 1;
            }
            i = i + 1;
        }
        assert(before.take(before.len() as int) =~= before);
        if count == 0 {
            proof {
                lemma_count_zero_iff_absent(before, permit_id);
            }
            LinkOutcome::PermitNotFound
        } else {
            proof {
                lemma_count_zero_iff_absent(before, permit_id);
            }
            LinkOutcome::Linked(count)
        }
    }

    /// The positions of the stored permits linked to the datapoint's asset,
    /// in order of arrival. Neither the permits' status nor their validity
    /// window is looked at.
    pub fn attribute(&self, datapoint: &Datapoint) -> (r: Vec<usize>)
        ensures
            r@.map_values(|x: usize| x as int) == covering(self.permits@, datapoint.asset_id),
    {
        let aid = datapoint.asset_id;
        let mut r: Vec<usize> = Vec::new();
        let mut i: usize = 0;
        while i < self.permits.len()
            invariant
                i <= self.permits@.len(),
                r@.map_values(|x: usize| x as int) == covering(self.permits@.take(i as int), aid),
            decreases self.permits@.len() - i,
        {
            let ghost upto = self.permits@.take(i + 1);
            assert(upto.drop_last() =~= self.permits@.take(i as int));
            assert(upto.last() == self.permits@[i as int]);
            if lists_asset(&self.permits[i].asset_ids, aid) {
                r.push(i);
                assert(r@.map_values(|x: usize| x as int) =~= covering(self.permits@.take(i as int), aid).push(i as int));
            }
            i = i + 1;
        }
        assert(self.permits@.take(self.permits@.len() as int) =~= self.permits@);
        r
    }

    /// The stored permit at position `i`.
    pub fn permit_at(&self, i: usize) -> (r: &WorkPermit)
        requires
            i < self.permits@.len(),
        ensures
            *r == self.permits@[i as int],
    {
        &self.permits[i]
    }

    /// The number of stored permits.
    pub fn permit_len(&self) -> (r: usize)
        ensures
            r == self.permits@.len(),
    {
        self.permits.len()
    }

    /// The number of stored assets.
    pub fn asset_len(&self) -> (r: usize)
        ensures
            r == self.assets@.len(),
    {
        self.assets.len()
    }
}

/// Whether `ids` holds `id`.
fn lists_asset(ids: &Vec<i64>, id: i64) -> (r: bool)
    ensures
        r == ids@.contains(id),
{
    let mut i: usize = 0;
    while i < ids.len()
        invariant
            i <= ids@.len(),
            forall|j: int| 0 <= j < i ==> ids@[j] != id,
        decreases ids@.len() - i,
    {
        if ids[i] == id {
            assert(ids@[i as int] == id);
            return true;
        }
        i = i + 1;
    }
    false
}

/// A position is attributed exactly when it holds a permit that covers the
/// asset.
pub proof fn lemma_covering_members(permits: Seq<WorkPermit>, asset_id: i64)
    ensures
        forall|k: int| #[trigger] covering(permits, asset_id).contains(k)
            <==> 0 <= k < permits.len() && covers(permits[k], asset_id),
    decreases permits.len(),
{
    if permits.len() > 0 {
        let rest = permits.drop_last();
        lemma_covering_members(rest, asset_id);
        let c = covering(permits, asset_id);
        let b = covering(rest, asset_id);
        assert forall|k: int| #[trigger] c.contains(k)
            <==> 0 <= k < permits.len() && covers(permits[k], asset_id) by {
            if 0 <= k < rest.len() {
                assert(rest[k] == permits[k]);
            }
            if covers(permits.last(), asset_id) {
                assert(c == b.push(permits.len() - 1));
                if c.contains(k) && k != permits.len() - 1 {
                    let j = choose|j: int| 0 <= j < c.len() && c[j] == k;
                    assert(b[j] == k);
                    assert(b.contains(k));
                }
                if b.contains(k) {
                    let j = choose|j: int| 0 <= j < b.len() && b[j] == k;
                    assert(c[j] == k);
                }
                if k == permits.len() - 1 {
                    assert(c[b.len() as int] == k);
                }
            }
        }
    }
}

/// Once an asset is stored and linked into a stored permit, a datapoint of
/// that asset is attributed to the permit.
pub proof fn linked_permit_is_attributed(
    before: Seq<WorkPermit>,
    after: Seq<WorkPermit>,
    permit_id: i64,
    asset_id: i64,
    i: int,
)
    requires
        linked_into(before, after, permit_id, asset_id),
        0 <= i < before.len(),
        before[i].id == permit_id,
    ensures
        covering(after, asset_id).contains(i),
{
    lemma_covering_members(after, asset_id);
    assert(after[i].asset_ids@ == before[i].asset_ids@.push(asset_id));
    assert(after[i].asset_ids@.last() == asset_id);
    assert(covers(after[i], asset_id));
}

/// A datapoint whose asset no permit lists is attributed to no permit.
pub proof fn unlinked_asset_is_unattributed(permits: Seq<WorkPermit>, asset_id: i64)
    requires
        forall|i: int| 0 <= i < permits.len() ==> !covers(#[trigger] permits[i], asset_id),
    ensures
        covering(permits, asset_id).len() == 0,
{
    lemma_covering_members(permits, asset_id);
    let c = covering(permits, asset_id);
    if c.len() > 0 {
        assert(c.contains(c[0]));
    }
}

/// An asset stored under an id that no earlier asset has is what a lookup
/// of that id then finds, with every field as it was given.
pub proof fn inserted_asset_is_found(before: Seq<Asset>, asset: Asset)
    requires
        !has_asset(before, asset.id),
    ensures
        has_asset(before.push(asset), asset.id),
        forall|i: int| #[trigger] first_asset_at(before.push(asset), asset.id, i)
            ==> before.push(asset)[i] == asset,
{
    let after = before.push(asset);
    assert(after[before.len() as int].id == asset.id);
    assert forall|i: int| #[trigger] first_asset_at(after, asset.id, i) implies after[i] == asset by {
        if i < before.len() {
            assert(before[i].id == asset.id);
        }
    }
}

} // verus!
