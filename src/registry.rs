use vstd::prelude::*;

use crate::package::{PackageEntry, PackageInfo, PackageView};

verus! {

/// The record field that a listing filters on.
#[derive(Clone, Copy, Debug, PartialEq, Eq, Structural)]
pub enum PackageField {
    Destination,
    Speed,
}

/// The value of `field` in a record.
pub open spec fn field_of(v: PackageView, field: PackageField) -> Seq<char> {
    match field {
        PackageField::Destination => v.destination,
        PackageField::Speed => v.speed,
    }
}

/// `e` is an entry of `m` whose `field` equals `value`.
pub open spec fn row_matches(
    m: Map<Seq<char>, PackageView>,
    e: PackageEntry,
    field: PackageField,
    value: Seq<char>,
) -> bool {
    &&& m.contains_key(e.package_id@)
    &&& m[e.package_id@] == e.info@
    &&& field_of(e.info@, field) == value
}

/// `rows` holds, once each and in any order, exactly the entries of `m`
/// whose `field` equals `value`.
pub open spec fn is_listing(
    m: Map<Seq<char>, PackageView>,
    rows: Seq<PackageEntry>,
    field: PackageField,
    value: Seq<char>,
) -> bool {
    &&& forall|i: int|
        0 <= i < rows.len() ==> {
            &&& #[trigger] m.contains_key(rows[i].package_id@)
            &&& m[rows[i].package_id@] == rows[i].info@
            &&& field_of(rows[i].info@, field) == value
        }
    &&& forall|k: Seq<char>|
        #![trigger m.contains_key(k)]
        m.contains_key(k) && field_of(m[k], field) == value ==> exists|i: int|
            0 <= i < rows.len() && rows[i].package_id@ == k
    &&& forall|i: int, j: int|
        0 <= i < j < rows.len() ==> rows[i].package_id@ != rows[j].package_id@
}

/// The store of package records, keyed by package identifier.
///
/// Every identifier occurs at most once; inserting under an identifier that
/// is already present replaces its record. Listings come out in insertion
/// order, which callers must not rely on.
pub struct PackageRegistry {
    entries: Vec<PackageEntry>,
    records: Ghost<Map<Seq<char>, PackageView>>,
}

impl View for PackageRegistry {
    type V = Map<Seq<char>, PackageView>;

    closed spec fn view(&self) -> Map<Seq<char>, PackageView> {
        self.records@
    }
}

impl PackageRegistry {
    /// The entries and the map agree, and no identifier occurs twice.
    pub closed spec fn wf(&self) -> bool {
        let m = self.records@;
        let e = self.entries@;
        &&& m.dom().finite()
        &&& e.len() == m.len()
        &&& forall|i: int|
            0 <= i < e.len() ==> {
                &&& #[trigger] m.contains_key(e[i].package_id@)
                &&& m[e[i].package_id@] == e[i].info@
            }
        &&& forall|i: int, j: int|
            0 <= i < j < e.len() ==> e[i].package_id@ != e[j].package_id@
        &&& forall|k: Seq<char>|
            #![trigger m.contains_key(k)]
            m.contains_key(k) ==> exists|i: int| 0 <= i < e.len() && e[i].package_id@ == k
    }

    /// A well-formed registry holds finitely many packages.
    pub proof fn lemma_view_finite(&self)
        requires
            self.wf(),
        ensures
            self@.dom().finite(),
    {
    }

    /// An empty registry.
    pub fn new() -> (r: PackageRegistry)
        ensures
            r.wf(),
            r@ == Map::<Seq<char>, PackageView>::empty(),
            r@.dom().finite(),
    {
        PackageRegistry { entries: Vec::new(), records: Ghost(Map::empty()) }
    }

    /// The index of the entry stored under `package_id`, if any.
    fn position(&self, package_id: &String) -> (r: Option<usize>)
        requires
            self.wf(),
        ensures
            match r {
                Some(i) => i < self.entries@.len() && self.entries@[i as int].package_id@
                    == package_id@,
                None => !self@.contains_key(package_id@),
            },
    {
        let mut i: usize = 0;
        while i < self.entries.len()
            invariant
                self.wf(),
                i <= self.entries@.len(),
                forall|j: int| 0 <= j < i ==> self.entries@[j].package_id@ != package_id@,
            decreases self.entries@.len() - i,
        {
            if self.entries[i].package_id == *package_id {
                return Some(i);
            }
            i = i + 1;
        }
        None
    }

    /// Stores `info` under `package_id`, replacing any record already there.
    pub fn insert(&mut self, package_id: String, info: PackageInfo)
        requires
            old(self).wf(),
        ensures
            final(self).wf(),
            final(self)@ == old(self)@.insert(package_id@, info@),
            final(self)@.dom().finite(),
            final(self)@.len() == old(self)@.len() + if old(self)@.contains_key(package_id@) {
                0int
            } else {
                1int
            },
    {
        let ghost key = package_id@;
        let ghost value = info@;
        let ghost at: int;
        match self.position(&package_id) {
            Some(i) => {
                self.entries.set(i, PackageEntry { package_id, info });
                self.records = Ghost(self.records@.insert(key, value));
                assert(self.records@.dom() =~= old(self).records@.dom());
                proof {
                    at = i as int;
                }
            },
            None => {
                self.entries.push(PackageEntry { package_id, info });
                self.records = Ghost(self.records@.insert(key, value));
                proof {
                    at = self.entries@.len() - 1;
                }
            },
        }
        assert(self.entries@[at].package_id@ == key);
        assert forall|k: Seq<char>| #[trigger] self.records@.contains_key(k) implies exists|
            i: int,
        | 0 <= i < self.entries@.len() && self.entries@[i].package_id@ == k by {
            if k != key {
                let j = choose|j: int|
                    0 <= j < old(self).entries@.len() && old(self).entries@[j].package_id@ == k;
                assert(self.entries@[j].package_id@ == k);
            } else {
                assert(self.entries@[at].package_id@ == k);
            }
        }
    }

    /// A copy of the record stored under `package_id`; `None` when there is none.
    pub fn get(&self, package_id: &String) -> (r: Option<PackageInfo>)
        requires
            self.wf(),
        ensures
            r is Some <==> self@.contains_key(package_id@),
            r is Some ==> r->0@ == self@[package_id@],
    {
        match self.position(package_id) {
            Some(i) => {
                assert(self.records@.contains_key(self.entries@[i as int].package_id@));
                Some(self.entries[i].info.duplicate())
            },
            None => None,
        }
    }

    /// The entries whose `field` equals `value`.
    fn select(&self, field: PackageField, value: &String) -> (r: Vec<PackageEntry>)
        requires
            self.wf(),
        ensures
            is_listing(self@, r@, field, value@),
    {
        let mut rows: Vec<PackageEntry> = Vec::new();
        let mut i: usize = 0;
        while i < self.entries.len()
            invariant
                self.wf(),
                i <= self.entries@.len(),
                forall|j: int| 0 <= j < rows@.len() ==> row_matches(self@, #[trigger] rows@[j], field, value@),
                forall|j: int, q: int|
                    0 <= j < rows@.len() && i <= q < self.entries@.len() ==> #[trigger] rows@[j].package_id@
                        != #[trigger] self.entries@[q].package_id@,
                forall|p: int|
                    0 <= p < i && field_of(self.entries@[p].info@, field) == value@ ==> exists|
                        j: int,
                    | 0 <= j < rows@.len() && rows@[j].package_id@ == self.entries@[p].package_id@,
                forall|a: int, b: int|
                    0 <= a < b < rows@.len() ==> rows@[a].package_id@ != rows@[b].package_id@,
            decreases self.entries@.len() - i,
        {
            let entry = &self.entries[i];
            let hit = match field {
                PackageField::Destination => entry.info.destination == *value,
                PackageField::Speed => entry.info.speed == *value,
            };
            if hit {
                let ghost before = rows@;
                assert(self@.contains_key(entry.package_id@));
                assert(self@[entry.package_id@] == entry.info@);
                assert(field_of(entry.info@, field) == value@);
                rows.push(
                    PackageEntry { package_id: entry.package_id.clone(), info: entry.info.duplicate() },
                );
                assert(rows@[rows@.len() - 1]@ == entry@);
                assert(row_matches(self@, rows@[rows@.len() - 1], field, value@));
                assert forall|j: int| 0 <= j < before.len() implies rows@[j] == before[j] by {}
                assert forall|a: int, b: int|
                    0 <= a < b < rows@.len() implies rows@[a].package_id@
                    != rows@[b].package_id@ by {
                    if b == rows@.len() - 1 {
                        assert(before[a].package_id@ != self.entries@[i as int].package_id@);
                    }
                }
                assert forall|j: int, q: int|
                    0 <= j < rows@.len() && i + 1 <= q < self.entries@.len() implies #[trigger] rows@[j].package_id@
                        != #[trigger] self.entries@[q].package_id@ by {
                    if j == rows@.len() - 1 {
                        assert(self.entries@[i as int].package_id@ != self.entries@[q].package_id@);
                    }
                }
                assert forall|p: int|
                    0 <= p < i + 1 && field_of(self.entries@[p].info@, field)
                        == value@ implies exists|j: int|
                    0 <= j < rows@.len() && rows@[j].package_id@
                        == self.entries@[p].package_id@ by {
                    if p == i {
                        assert(rows@[rows@.len() - 1].package_id@ == self.entries@[p].package_id@);
                    } else {
                        let j = choose|j: int|
                            0 <= j < before.len() && before[j].package_id@
                                == self.entries@[p].package_id@;
                        assert(rows@[j] == before[j]);
                    }
                }
                assert forall|j: int| 0 <= j < rows@.len() implies row_matches(
                    self@,
                    #[trigger] rows@[j],
                    field,
                    value@,
                ) by {
                    if j < before.len() {
                        assert(rows@[j] == before[j]);
                    }
                }
            }
            i = i + 1;
        }
        assert forall|k: Seq<char>|
            #![trigger self@.contains_key(k)]
            self@.contains_key(k) && field_of(self@[k], field) == value@ implies exists|i: int|
                0 <= i < rows@.len() && rows@[i].package_id@ == k by {
            let p = choose|p: int|
                0 <= p < self.entries@.len() && self.entries@[p].package_id@ == k;
            assert(self.records@.contains_key(self.entries@[p].package_id@));
        }
        rows
    }

    /// The entries whose destination is exactly `destination`.
    pub fn list_by_destination(&self, destination: &String) -> (r: Vec<PackageEntry>)
        requires
            self.wf(),
        ensures
            is_listing(self@, r@, PackageField::Destination, destination@),
    {
        self.select(PackageField::Destination, destination)
    }

    /// The entries whose speed is exactly `speed`.
    pub fn list_by_speed(&self, speed: &String) -> (r: Vec<PackageEntry>)
        requires
            self.wf(),
        ensures
            is_listing(self@, r@, PackageField::Speed, speed@),
    {
        self.select(PackageField::Speed, speed)
    }

    /// The number of packages stored.
    pub fn count(&self) -> (r: usize)
        requires
            self.wf(),
        ensures
            r == self@.len(),
    {
        self.entries.len()
    }
}

} // verus!
