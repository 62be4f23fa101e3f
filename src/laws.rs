use vstd::prelude::*;

use crate::handlers::{created_record, tracks, TrackResponse};
use crate::package::{PackageEntry, PackageView};
use crate::registry::{is_listing, PackageField};
use crate::routes::{serves, Response, Route};
use crate::text::tracking_sentence;

verus! {

/// The registry contents after creating, in order, a package under each of
/// `ids`, the i-th bound for `requests[i].0` at speed `requests[i].1`.
pub open spec fn after_creates(
    m: Map<Seq<char>, PackageView>,
    ids: Seq<Seq<char>>,
    requests: Seq<(Seq<char>, Seq<char>)>,
) -> Map<Seq<char>, PackageView>
    decreases ids.len(),
{
    if ids.len() == 0 || requests.len() == 0 {
        m
    } else {
        after_creates(m, ids.drop_last(), requests.drop_last()).insert(
            ids.last(),
            created_record(requests.last().0, requests.last().1),
        )
    }
}

/// Creates serialized through the registry lose no record: after K creates
/// under K distinct identifiers not yet stored, the registry holds K more
/// packages. From an empty registry the count is exactly K.
pub proof fn lemma_count_after_creates(
    m: Map<Seq<char>, PackageView>,
    ids: Seq<Seq<char>>,
    requests: Seq<(Seq<char>, Seq<char>)>,
)
    requires
        m.dom().finite(),
        ids.len() == requests.len(),
        ids.no_duplicates(),
        forall|i: int| 0 <= i < ids.len() ==> !m.contains_key(#[trigger] ids[i]),
    ensures
        after_creates(m, ids, requests).dom().finite(),
        after_creates(m, ids, requests).len() == m.len() + ids.len(),
        forall|i: int|
            0 <= i < ids.len() ==> #[trigger] after_creates(m, ids, requests).contains_key(ids[i]),
    decreases ids.len(),
{
    if ids.len() > 0 {
        let front = ids.drop_last();
        let reqs = requests.drop_last();
        assert forall|i: int| 0 <= i < front.len() implies !m.contains_key(#[trigger] front[i]) by {
            assert(front[i] == ids[i]);
        }
        assert(front.no_duplicates()) by {
            assert forall|i: int, j: int|
                0 <= i < front.len() && 0 <= j < front.len() && i != j implies front[i]
                != front[j] by {
                assert(front[i] == ids[i] && front[j] == ids[j]);
            }
        }
        lemma_count_after_creates(m, front, reqs);
        let prev = after_creates(m, front, reqs);
        let last = ids.last();
        if prev.contains_key(last) {
            if m.contains_key(last) {
                assert(m.contains_key(ids[ids.len() - 1]));
            } else {
                lemma_created_key_listed(m, front, reqs, last);
                let i = choose|i: int| 0 <= i < front.len() && front[i] == last;
                assert(ids[i] == ids[ids.len() - 1]);
            }
        }
        assert forall|i: int|
            0 <= i < ids.len() implies #[trigger] after_creates(m, ids, requests).contains_key(
            ids[i],
        ) by {
            if i < ids.len() - 1 {
                assert(prev.contains_key(front[i]));
            }
        }
    }
}

/// A key that the creates added is one of their identifiers.
proof fn lemma_created_key_listed(
    m: Map<Seq<char>, PackageView>,
    ids: Seq<Seq<char>>,
    requests: Seq<(Seq<char>, Seq<char>)>,
    k: Seq<char>,
)
    requires
        ids.len() == requests.len(),
        after_creates(m, ids, requests).contains_key(k),
        !m.contains_key(k),
    ensures
        exists|i: int| 0 <= i < ids.len() && ids[i] == k,
    decreases ids.len(),
{
    if ids.len() > 0 && k != ids.last() {
        lemma_created_key_listed(m, ids.drop_last(), requests.drop_last(), k);
        let i = choose|i: int| 0 <= i < ids.len() - 1 && ids.drop_last()[i] == k;
        assert(ids[i] == k);
    } else if ids.len() > 0 {
        assert(ids[ids.len() - 1] == k);
    }
}

/// Tracking a package right after creating it reports what was created:
/// its identifier, its destination and speed, and Earth as its location.
pub proof fn lemma_round_trip(
    m: Map<Seq<char>, PackageView>,
    package_id: Seq<char>,
    destination: Seq<char>,
    speed: Seq<char>,
    r: TrackResponse,
)
    requires
        tracks(m.insert(package_id, created_record(destination, speed)), package_id, r),
    ensures
        r matches TrackResponse::Found(t) && t.package_id@ == package_id && t.destination@
            == destination && t.speed@ == speed && t.current_location@ == "Earth"@
            && t.tracking_info@ == tracking_sentence("Earth"@, destination),
{
}

/// Tracking an identifier that was never issued reports that it is not
/// found and leaves the registry as it was, so every later query of it
/// reports the same.
pub proof fn lemma_not_found_idempotent(
    m: Map<Seq<char>, PackageView>,
    package_id: String,
    r: Response,
    m2: Map<Seq<char>, PackageView>,
)
    requires
        !m.contains_key(package_id@),
        serves(m, Route::Track(package_id), r, m2),
    ensures
        r matches Response::TrackReport(TrackResponse::NotFound),
        m2 == m,
        !m2.contains_key(package_id@),
{
}

/// A listing by destination holds the identifiers of exactly the stored
/// packages bound there, and is empty when none is.
pub proof fn lemma_destination_filter_exact(
    m: Map<Seq<char>, PackageView>,
    rows: Seq<PackageEntry>,
    destination: Seq<char>,
)
    requires
        is_listing(m, rows, PackageField::Destination, destination),
    ensures
        rows.map_values(|e: PackageEntry| e.package_id@).to_set() == m.dom().filter(
            |k: Seq<char>| m[k].destination == destination,
        ),
        (forall|k: Seq<char>| m.contains_key(k) ==> m[k].destination != destination) ==> rows.len()
            == 0,
{
    let ids = rows.map_values(|e: PackageEntry| e.package_id@);
    let want = m.dom().filter(|k: Seq<char>| m[k].destination == destination);
    assert forall|k: Seq<char>| ids.to_set().contains(k) <==> want.contains(k) by {
        if ids.to_set().contains(k) {
            let i = choose|i: int| 0 <= i < ids.len() && ids[i] == k;
            assert(m.contains_key(rows[i].package_id@));
        }
        if want.contains(k) {
            assert(m.contains_key(k));
            let i = choose|i: int| 0 <= i < rows.len() && rows[i].package_id@ == k;
            assert(ids[i] == k);
        }
    }
    assert(ids.to_set() =~= want);
    if rows.len() > 0 {
        assert(m.contains_key(rows[0].package_id@));
    }
}

} // verus!
