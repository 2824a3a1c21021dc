use vstd::prelude::*;

use crate::text::nul_free;

verus! {

/// Backend device information
#[derive(Debug)]
pub struct BackendDevice {
    name: String,
}

impl View for BackendDevice {
    type V = Seq<char>;

    /// A device is seen as its name.
    closed spec fn view(&self) -> Seq<char> {
        self.name@
    }
}

impl BackendDevice {
    /// A device name comes from the engine as a C string: it holds no NUL.
    #[verifier::type_invariant]
    spec fn name_is_c_string(self) -> bool {
        nul_free(self.name@)
    }

    /// A device with the given name.
    pub fn new(name: String) -> (r: Self)
        requires
            nul_free(name@),
        ensures
            r@ == name@,
    {
        BackendDevice { name }
    }

    /// Get device name
    pub fn name(&self) -> (r: &str)
        ensures
            r@ == self@,
            nul_free(r@),
    {
        proof {
            use_type_invariant(self);
        }
        self.name.as_str()
    }
}

/// The device table that the engine reports: slot `i` holds the name of
/// device `i`, or nothing where the engine has no device at that index.
pub struct BackendRegistry {
    slots: Vec<Option<String>>,
}

/// The name held by a device slot, as a sequence of characters.
pub open spec fn slot_view(slot: Option<String>) -> Option<Seq<char>> {
    match slot {
        Some(name) => Some(name@),
        None => None,
    }
}

impl View for BackendRegistry {
    type V = Seq<Option<Seq<char>>>;

    closed spec fn view(&self) -> Seq<Option<Seq<char>>> {
        self.slots@.map_values(|slot: Option<String>| slot_view(slot))
    }
}

/// Every device name in `slots` holds no NUL character.
pub open spec fn names_nul_free(slots: Seq<Option<Seq<char>>>) -> bool {
    forall|i: int| 0 <= i < slots.len() && #[trigger] slots[i] is Some ==> nul_free(slots[i].unwrap())
}

impl BackendRegistry {
    /// The engine reports device names as C strings: none holds a NUL.
    #[verifier::type_invariant]
    spec fn names_are_c_strings(self) -> bool {
        names_nul_free(self@)
    }

    /// A registry over the device slots the engine reports, in index order.
    pub fn new(slots: Vec<Option<String>>) -> (r: Self)
        requires
            names_nul_free(slots@.map_values(|slot: Option<String>| slot_view(slot))),
        ensures
            r@ == slots@.map_values(|slot: Option<String>| slot_view(slot)),
    {
        BackendRegistry { slots }
    }
}

/// The device at `index`, if the index is below the device count and the
/// engine has a device there.
pub open spec fn spec_get_backend(slots: Seq<Option<Seq<char>>>, index: int) -> Option<Seq<char>> {
    if 0 <= index < slots.len() {
        slots[index]
    } else {
        None
    }
}

/// The names of the devices present in `slots`, in index order.
pub open spec fn listed_names(slots: Seq<Option<Seq<char>>>) -> Seq<Seq<char>>
    decreases slots.len(),
{
    if slots.len() == 0 {
        Seq::empty()
    } else {
        let rest = listed_names(slots.drop_last());
        match slots.last() {
            Some(name) => rest.push(name),
            None => rest,
        }
    }
}

/// Get number of available backend devices
pub fn backend_count(registry: &BackendRegistry) -> (r: usize)
    ensures
        r == registry@.len(),
{
    registry.slots.len()
}

/// Get backend device by index
pub fn get_backend(registry: &BackendRegistry, index: usize) -> (r: Option<BackendDevice>)
    ensures
        r is Some <==> spec_get_backend(registry@, index as int) is Some,
        r matches Some(device) ==> Some(device@) == spec_get_backend(registry@, index as int),
        index >= registry@.len() ==> r is None,
        index < registry@.len() ==> (r is Some <==> registry@[index as int] is Some),
        r matches Some(device) ==> registry@[index as int] == Some(device@),
        r matches Some(device) ==> nul_free(device@),
{
    proof {
        use_type_invariant(registry);
    }
    if index < registry.slots.len() {
        assert(slot_view(registry.slots@[index as int]) == registry@[index as int]);
        match &registry.slots[index] {
            Some(name) => Some(BackendDevice { name: name.clone() }),
            None => None,
        }
    } else {
        None
    }
}

/// `names` lists the devices of `slots` in index order, as `indices` shows:
/// entry `k` is the device at slot `indices[k]`, the indices strictly rise,
/// and every slot that holds a device is one of them.
pub open spec fn lists_in_index_order(
    slots: Seq<Option<Seq<char>>>,
    names: Seq<Seq<char>>,
    indices: Seq<int>,
) -> bool {
    &&& indices.len() == names.len()
    &&& forall|k: int|
        0 <= k < indices.len() ==> 0 <= #[trigger] indices[k] < slots.len() && slots[indices[k]]
            == Some(names[k])
    &&& forall|k1: int, k2: int|
        0 <= k1 < k2 < indices.len() ==> #[trigger] indices[k1] < #[trigger] indices[k2]
    &&& forall|i: int|
        0 <= i < slots.len() && #[trigger] slots[i] is Some ==> exists|k: int|
            0 <= k < indices.len() && #[trigger] indices[k] == i
}

/// The listed names are the devices of the slots in index order: each is the
/// device at a slot, the slots rise, and no slot holding a device is skipped.
pub proof fn lemma_listed_names_in_index_order(slots: Seq<Option<Seq<char>>>)
    ensures
        exists|indices: Seq<int>| lists_in_index_order(slots, listed_names(slots), indices),
    decreases slots.len(),
{
    if slots.len() == 0 {
        assert(lists_in_index_order(slots, listed_names(slots), Seq::<int>::empty()));
    } else {
        let rest = slots.drop_last();
        lemma_listed_names_in_index_order(rest);
        let rest_indices = choose|indices: Seq<int>|
            lists_in_index_order(rest, listed_names(rest), indices);
        let last = slots.len() - 1;
        let indices = if slots[last] is Some {
            rest_indices.push(last)
        } else {
            rest_indices
        };
        let names = listed_names(slots);
        assert forall|k: int| 0 <= k < indices.len() implies 0 <= #[trigger] indices[k]
            < slots.len() && slots[indices[k]] == Some(names[k]) by {
            if k < rest_indices.len() {
                assert(rest[rest_indices[k]] == slots[rest_indices[k]]);
            }
        }
        assert forall|i: int| 0 <= i < slots.len() && #[trigger] slots[i] is Some implies exists|
            k: int,
        | 0 <= k < indices.len() && #[trigger] indices[k] == i by {
            if i < last {
                assert(rest[i] == slots[i]);
                let k = choose|k: int| 0 <= k < rest_indices.len() && #[trigger] rest_indices[k] == i;
                assert(indices[k] == i);
            } else {
                assert(indices[indices.len() - 1] == i);
            }
        }
        assert(lists_in_index_order(slots, names, indices));
    }
}

/// The names of a list of devices, in order.
pub open spec fn device_names(devices: Seq<BackendDevice>) -> Seq<Seq<char>> {
    devices.map_values(|device: BackendDevice| device@)
}

/// List all available backends
pub fn list_backends(registry: &BackendRegistry) -> (r: Vec<BackendDevice>)
    ensures
        r.len() == listed_names(registry@).len(),
        forall|k: int| 0 <= k < r.len() ==> #[trigger] r[k]@ == listed_names(registry@)[k],
        forall|k: int| 0 <= k < r.len() ==> nul_free(#[trigger] r[k]@),
        exists|indices: Seq<int>| lists_in_index_order(registry@, device_names(r@), indices),
{
    let count = backend_count(registry);
    let mut devices: Vec<BackendDevice> = Vec::new();
    let ghost mut indices: Seq<int> = Seq::empty();
    for i in 0..count
        invariant
            count == registry@.len(),
            devices.len() == listed_names(registry@.take(i as int)).len(),
            forall|k: int|
                0 <= k < devices.len() ==> #[trigger] devices[k]@ == listed_names(
                    registry@.take(i as int),
                )[k],
            forall|k: int| 0 <= k < devices.len() ==> nul_free(#[trigger] devices[k]@),
            indices.len() == devices.len(),
            forall|k: int|
                0 <= k < indices.len() ==> 0 <= #[trigger] indices[k] < i && registry@[indices[k]]
                    == Some(devices[k]@),
            forall|k1: int, k2: int|
                0 <= k1 < k2 < indices.len() ==> #[trigger] indices[k1] < #[trigger] indices[k2],
            forall|j: int|
                0 <= j < i && #[trigger] registry@[j] is Some ==> exists|k: int|
                    0 <= k < indices.len() && #[trigger] indices[k] == j,
    {
        assert(registry@.take(i + 1).drop_last() =~= registry@.take(i as int));
        if let Some(device) = get_backend(registry, i) {
            let ghost old_indices = indices;
            proof {
                indices = indices.push(i as int);
            }
            devices.push(device);
            assert forall|j: int|
                0 <= j < i + 1 && #[trigger] registry@[j] is Some implies exists|k: int|
                    0 <= k < indices.len() && #[trigger] indices[k] == j by {
                if j < i {
                    let k = choose|k: int| 0 <= k < old_indices.len() && #[trigger] old_indices[k] == j;
                    assert(indices[k] == j);
                } else {
                    assert(indices[indices.len() - 1] == j);
                }
            }
        } else {
            assert forall|j: int|
                0 <= j < i + 1 && #[trigger] registry@[j] is Some implies exists|k: int|
                    0 <= k < indices.len() && #[trigger] indices[k] == j by {
                if j == i {
                    assert(spec_get_backend(registry@, i as int) == registry@[j]);
                }
            }
        }
    }
    assert(registry@.take(count as int) =~= registry@);
    assert(lists_in_index_order(registry@, device_names(devices@), indices));
    devices
}

/// Some index below the device count holds a device named `name`.
pub open spec fn found_at_some_index(slots: Seq<Option<Seq<char>>>, name: Seq<char>) -> bool {
    exists|i: int| 0 <= i < slots.len() && #[trigger] spec_get_backend(slots, i) == Some(name)
}

/// `list_backends` lists exactly the devices that `get_backend` finds below
/// `backend_count`: never more devices than slots, every device found at some
/// index is listed, and every listed device is found at some index.
pub proof fn lemma_listed_are_found(slots: Seq<Option<Seq<char>>>)
    ensures
        listed_names(slots).len() <= slots.len(),
        forall|i: int|
            0 <= i < slots.len() && #[trigger] spec_get_backend(slots, i) is Some
                ==> listed_names(slots).contains(spec_get_backend(slots, i).unwrap()),
        forall|k: int|
            0 <= k < listed_names(slots).len() ==> found_at_some_index(
                slots,
                #[trigger] listed_names(slots)[k],
            ),
    decreases slots.len(),
{
    if slots.len() > 0 {
        let rest = slots.drop_last();
        lemma_listed_are_found(rest);
        let listed = listed_names(slots);
        let rest_listed = listed_names(rest);
        assert forall|i: int|
            0 <= i < slots.len() && #[trigger] spec_get_backend(slots, i) is Some implies listed.contains(
                spec_get_backend(slots, i).unwrap(),
            ) by {
            if i < slots.len() - 1 {
                assert(spec_get_backend(rest, i) == spec_get_backend(slots, i));
                let k = choose|k: int|
                    0 <= k < rest_listed.len() && rest_listed[k] == spec_get_backend(rest, i).unwrap();
                assert(listed[k] == rest_listed[k]);
            } else {
                assert(listed[listed.len() - 1] == slots.last().unwrap());
            }
        }
        assert forall|k: int| 0 <= k < listed.len() implies found_at_some_index(
            slots,
            #[trigger] listed[k],
        ) by {
            if k < rest_listed.len() {
                assert(listed[k] == rest_listed[k]);
                assert(found_at_some_index(rest, rest_listed[k]));
                let i = choose|i: int|
                    0 <= i < rest.len() && #[trigger] spec_get_backend(rest, i) == Some(
                        rest_listed[k],
                    );
                assert(spec_get_backend(slots, i) == Some(listed[k]));
            } else {
                let i = slots.len() - 1;
                assert(spec_get_backend(slots, i) == Some(listed[k]));
            }
        }
    }
}

/// With no device present, nothing is listed; with every slot holding a
/// device, every device is listed.
pub proof fn lemma_listed_extremes(slots: Seq<Option<Seq<char>>>)
    ensures
        (forall|i: int| 0 <= i < slots.len() ==> #[trigger] slots[i] is None) ==> listed_names(
            slots,
        ).len() == 0,
        (forall|i: int| 0 <= i < slots.len() ==> #[trigger] slots[i] is Some) ==> listed_names(
            slots,
        ).len() == slots.len(),
    decreases slots.len(),
{
    if slots.len() > 0 {
        let rest = slots.drop_last();
        lemma_listed_extremes(rest);
        if forall|i: int| 0 <= i < slots.len() ==> #[trigger] slots[i] is None {
            assert(forall|i: int| 0 <= i < rest.len() ==> #[trigger] rest[i] == slots[i]);
            assert(slots[slots.len() - 1] is None);
        }
        if forall|i: int| 0 <= i < slots.len() ==> #[trigger] slots[i] is Some {
            assert(forall|i: int| 0 <= i < rest.len() ==> #[trigger] rest[i] == slots[i]);
            assert(slots[slots.len() - 1] is Some);
        }
    }
}

} // verus!
