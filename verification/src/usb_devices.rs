//! The inventory of connected USB devices and what changed between two
//! listings of it.

use vstd::prelude::*;

use crate::text::{same_text, texts_of};
use crate::usb::{device_id, device_id_spec, UsbIds};

verus! {

/// A set of device identifiers. No identifier is held twice; the order in
/// which `ids` hands them out is the order in which they came in.
pub struct DeviceSet {
    ids: Vec<String>,
}

/// The device list could not be had from the system.
#[derive(Debug)]
pub struct EnumerationError {
    pub reason: String,
}

/// The identifiers that arrived and that left between two listings.
pub struct ChangedDevices {
    pub added: DeviceSet,
    pub removed: DeviceSet,
}

/// Keeps the last listing of devices and reports what a new one changes.
pub struct UsbChangeDetector {
    current_devices: DeviceSet,
}

/// The identifiers of the devices in a listing. An entry without
/// descriptor, a device that could not be queried, contributes nothing.
pub open spec fn listed(listing: Seq<Option<UsbIds>>) -> Set<Seq<char>> {
    Set::new(
        |id: Seq<char>|
            exists|i: int|
                0 <= i < listing.len() && (#[trigger] listing[i]) is Some && device_id_spec(
                    listing[i].unwrap(),
                ) == id,
    )
}

/// The identifiers present after and not before.
pub open spec fn arrived(before: Set<Seq<char>>, after: Set<Seq<char>>) -> Set<Seq<char>> {
    after.difference(before)
}

/// The identifiers present before and not after.
pub open spec fn departed(before: Set<Seq<char>>, after: Set<Seq<char>>) -> Set<Seq<char>> {
    before.difference(after)
}

impl View for DeviceSet {
    type V = Set<Seq<char>>;

    /// The identifiers in the set.
    closed spec fn view(&self) -> Set<Seq<char>> {
        self.names().to_set()
    }
}

impl DeviceSet {
    /// The identifiers in the order in which `ids` hands them out.
    pub closed spec fn names(&self) -> Seq<Seq<char>> {
        texts_of(self.ids@)
    }

    #[verifier::type_invariant]
    spec fn distinct(&self) -> bool {
        self.names().no_duplicates()
    }

    /// The set is what its sequence of identifiers holds, none of them
    /// twice, so it is finite and has as many members as the sequence.
    proof fn lemma_names(&self)
        requires
            self.names().no_duplicates(),
        ensures
            self@ == self.names().to_set(),
            self@.finite(),
            self@.len() == self.names().len(),
            forall|id: Seq<char>| self@.contains(id) <==> self.names().contains(id),
    {
        self.names().unique_seq_to_set();
        vstd::seq_lib::seq_to_set_is_finite(self.names());
    }

    /// The empty set.
    pub fn new() -> (set: DeviceSet)
        ensures
            set@ == Set::<Seq<char>>::empty(),
            set.names() == Seq::<Seq<char>>::empty(),
    {
        DeviceSet { ids: Vec::new() }
    }

    /// Whether `id` is in the set.
    pub fn contains(&self, id: &str) -> (found: bool)
        ensures
            found == self@.contains(id@),
    {
        let mut i: usize = 0;
        while i < self.ids.len()
            invariant
                i <= self.ids.len(),
                forall|k: int| 0 <= k < i ==> self.names()[k] != id@,
            decreases self.ids.len() - i,
        {
            if same_text(self.ids[i].as_str(), id) {
                assert(self.names()[i as int] == id@);
                return true;
            }
            i += 1;
        }
        false
    }

    /// How many identifiers the set holds.
    pub fn len(&self) -> (n: usize)
        ensures
            n == self@.len(),
            n == self.names().len(),
    {
        proof {
            use_type_invariant(self);
            self.lemma_names();
        }
        self.ids.len()
    }

    /// Whether the set holds no identifier.
    pub fn is_empty(&self) -> (empty: bool)
        ensures
            empty == (self@ == Set::<Seq<char>>::empty()),
    {
        proof {
            use_type_invariant(self);
            self.lemma_names();
            if self.ids.len() == 0 {
                assert(self@ =~= Set::<Seq<char>>::empty());
            }
        }
        self.ids.len() == 0
    }

    /// The identifiers of the set, each once.
    pub fn ids(&self) -> (ids: Vec<String>)
        ensures
            texts_of(ids@) == self.names(),
            texts_of(ids@).no_duplicates(),
            texts_of(ids@).to_set() == self@,
    {
        proof {
            use_type_invariant(self);
        }
        let mut out: Vec<String> = Vec::new();
        let mut i: usize = 0;
        while i < self.ids.len()
            invariant
                i <= self.ids.len(),
                texts_of(out@) == self.names().take(i as int),
            decreases self.ids.len() - i,
        {
            let id: String = self.ids[i].clone();
            let ghost before = texts_of(out@);
            out.push(id);
            assert(texts_of(out@) =~= before.push(id@));
            i += 1;
        }
        assert(self.names().take(i as int) =~= self.names());
        out
    }

    /// The set with `id` added to it.
    pub fn with(self, id: String) -> (set: DeviceSet)
        ensures
            set@ == self@.insert(id@),
            set.names() == if self@.contains(id@) {
                self.names()
            } else {
                self.names().push(id@)
            },
    {
        proof {
            use_type_invariant(&self);
        }
        if self.contains(id.as_str()) {
            self
        } else {
            let ghost before = self.names();
            let mut ids = self.ids;
            ids.push(id);
            proof {
                assert(texts_of(ids@) =~= before.push(id@));
                before.lemma_push_to_set_commute(id@);
            }
            DeviceSet { ids }
        }
    }

    /// The set of the given identifiers.
    pub fn from_ids(ids: Vec<String>) -> (set: DeviceSet)
        ensures
            set@ == texts_of(ids@).to_set(),
    {
        let mut set = DeviceSet::new();
        let mut i: usize = 0;
        while i < ids.len()
            invariant
                i <= ids.len(),
                set@ == texts_of(ids@).take(i as int).to_set(),
            decreases ids.len() - i,
        {
            proof {
                let before = texts_of(ids@).take(i as int);
                assert(texts_of(ids@).take(i + 1) =~= before.push(ids@[i as int]@));
                before.lemma_push_to_set_commute(ids@[i as int]@);
            }
            set = set.with(ids[i].clone());
            i += 1;
        }
        assert(texts_of(ids@).take(i as int) =~= texts_of(ids@));
        set
    }

    /// The identifiers of the devices in a listing; devices whose descriptor
    /// could not be read are left out.
    pub fn from_listing(listing: &Vec<Option<UsbIds>>) -> (set: DeviceSet)
        ensures
            set@ == listed(listing@),
    {
        let mut set = DeviceSet::new();
        let mut i: usize = 0;
        while i < listing.len()
            invariant
                i <= listing.len(),
                set@ == listed(listing@.take(i as int)),
            decreases listing.len() - i,
        {
            let ghost before = listing@.take(i as int);
            let ghost after = listing@.take(i + 1);
            let ghost entry = listing@[i as int];
            assert(listed(after) =~= match entry {
                Some(ids) => listed(before).insert(device_id_spec(ids)),
                None => listed(before),
            }) by {
                let target = match entry {
                    Some(ids) => listed(before).insert(device_id_spec(ids)),
                    None => listed(before),
                };
                assert forall|x: Seq<char>| listed(after).contains(x) <==> target.contains(x) by {
                    if listed(before).contains(x) {
                        let k = choose|k: int|
                            0 <= k < before.len() && (#[trigger] before[k]) is Some
                                && device_id_spec(before[k].unwrap()) == x;
                        assert(after[k] == before[k]);
                    }
                    assert(after[before.len() as int] == entry);
                }
            }
            match device_id(&listing[i]) {
                Some(id) => {
                    set = set.with(id);
                },
                None => {},
            }
            i += 1;
        }
        assert(listing@.take(i as int) =~= listing@);
        set
    }

    /// The identifiers of this set that are not in `other`, in the order in
    /// which this set holds them.
    pub fn difference(&self, other: &DeviceSet) -> (rest: DeviceSet)
        ensures
            rest@ == self@.difference(other@),
            rest.names() == self.names().filter(|id: Seq<char>| !other@.contains(id)),
    {
        proof {
            use_type_invariant(self);
        }
        let ghost keep = |id: Seq<char>| !other@.contains(id);
        let mut rest = DeviceSet::new();
        let mut i: usize = 0;
        assert(self.names().take(0).filter(keep) =~= Seq::<Seq<char>>::empty()) by {
            reveal(Seq::filter);
        }
        while i < self.ids.len()
            invariant
                i <= self.ids.len(),
                keep == |id: Seq<char>| !other@.contains(id),
                self.names().no_duplicates(),
                rest.names() == self.names().take(i as int).filter(keep),
                rest@ == self.names().take(i as int).to_set().difference(other@),
            decreases self.ids.len() - i,
        {
            let ghost before = self.names().take(i as int);
            let ghost after = self.names().take(i + 1);
            let ghost id = self.names()[i as int];
            assert(after.drop_last() =~= before);
            assert(after.filter(keep) == if keep(id) {
                before.filter(keep).push(id)
            } else {
                before.filter(keep)
            }) by {
                reveal(Seq::filter);
            }
            proof {
                assert(after =~= before.push(id));
                before.lemma_push_to_set_commute(id);
            }
            if !other.contains(self.ids[i].as_str()) {
                proof {
                    // The identifier is new to `rest`: it stands nowhere
                    // earlier in this set.
                    if before.contains(id) {
                        let k = choose|k: int| 0 <= k < before.len() && before[k] == id;
                        assert(self.names()[k] == id);
                    }
                }
                rest = rest.with(self.ids[i].clone());
            }
            i += 1;
        }
        assert(self.names().take(i as int) =~= self.names());
        rest
    }
}

impl UsbChangeDetector {
    /// The identifiers of the last listing.
    pub closed spec fn inventory(&self) -> Set<Seq<char>> {
        self.current_devices@
    }

    /// Starts from a first listing of the devices. Fails, with the error of
    /// the listing, exactly when the listing failed.
    pub fn new(listing: Result<Vec<Option<UsbIds>>, EnumerationError>) -> (r: Result<
        UsbChangeDetector,
        EnumerationError,
    >)
        ensures
            match listing {
                Ok(devices) => r matches Ok(detector) && detector.inventory() == listed(devices@),
                Err(error) => r matches Err(e) && e == error,
            },
    {
        match listing {
            Ok(devices) => Ok(
                UsbChangeDetector { current_devices: DeviceSet::from_listing(&devices) },
            ),
            Err(error) => Err(error),
        }
    }

    /// The identifiers of the last listing.
    pub fn current_devices(&self) -> (set: &DeviceSet)
        ensures
            set@ == self.inventory(),
    {
        &self.current_devices
    }

    /// Compares a new listing with the last one. The new listing replaces
    /// the old one, whatever it holds; the result says which identifiers it
    /// added and which it removed. When the listing failed, its error is
    /// returned and the last listing stays.
    pub fn detect_changed_devices(
        &mut self,
        listing: Result<Vec<Option<UsbIds>>, EnumerationError>,
    ) -> (r: Result<ChangedDevices, EnumerationError>)
        ensures
            match listing {
                Ok(devices) => {
                    &&& r matches Ok(changes)
                    &&& changes.added@ == arrived(old(self).inventory(), listed(devices@))
                    &&& changes.removed@ == departed(old(self).inventory(), listed(devices@))
                    &&& changes.added@.disjoint(changes.removed@)
                    &&& final(self).inventory() == listed(devices@)
                },
                Err(error) => {
                    &&& r matches Err(e)
                    &&& e == error
                    &&& final(self).inventory() == old(self).inventory()
                },
            },
    {
        match listing {
            Ok(devices) => {
                let new_devices = DeviceSet::from_listing(&devices);
                let added = new_devices.difference(&self.current_devices);
                let removed = self.current_devices.difference(&new_devices);
                self.current_devices = new_devices;
                Ok(ChangedDevices { added, removed })
            },
            Err(error) => Err(error),
        }
    }
}

/// No identifier both arrives and leaves between two listings.
pub proof fn lemma_changes_disjoint(before: Set<Seq<char>>, after: Set<Seq<char>>)
    ensures
        arrived(before, after).disjoint(departed(before, after)),
        arrived(before, after).intersect(departed(before, after)) == Set::<Seq<char>>::empty(),
{
}

/// A listing equal to the last one changes nothing: nothing arrives and
/// nothing leaves.
pub proof fn lemma_unchanged_listing(inventory: Set<Seq<char>>)
    ensures
        arrived(inventory, inventory) == Set::<Seq<char>>::empty(),
        departed(inventory, inventory) == Set::<Seq<char>>::empty(),
{
}

/// One device between two listings: it arrives exactly when it was absent
/// and is present, it leaves exactly when it was present and is absent, and
/// a listing that does not change its presence reports it in neither set.
pub proof fn lemma_transition(before: Set<Seq<char>>, after: Set<Seq<char>>, id: Seq<char>)
    ensures
        arrived(before, after).contains(id) <==> !before.contains(id) && after.contains(id),
        departed(before, after).contains(id) <==> before.contains(id) && !after.contains(id),
        before.contains(id) == after.contains(id) ==> !arrived(before, after).contains(id)
            && !departed(before, after).contains(id),
        !(arrived(before, after).contains(id) && departed(before, after).contains(id)),
{
}

} // verus!
