//! The registry of live devices and the cache of their latest telemetry.
use std::collections::HashMap;
use std::collections::HashSet;
use vstd::prelude::*;
use vstd::string::StringExecFns;

use crate::device::ffi::Command;
use crate::device::ffi::CommandBody;
use crate::device::ffi::Data;
use crate::device::ffi::DeviceIdentity;
use crate::device::ffi::Type;
use crate::ffi::DeviceDatas;
use crate::text::decimal;
use crate::text::spec_decimal;

verus! {

broadcast use vstd::std_specs::hash::group_hash_axioms;

/// Why the context turned a request down.
#[derive(Clone, Copy, Debug, PartialEq, Eq, Structural)]
pub enum Error {
    /// The device was addressed but never registered.
    DeviceNotFound(Type, u8),
    /// The identity is taken: a device is registered at most once.
    DeviceAlreadyRegistered(Type, u8),
}

impl Error {
    /// The device that the request was about.
    pub open spec fn spec_device(self) -> DeviceIdentity {
        match self {
            Error::DeviceNotFound(kind, id) => DeviceIdentity { kind, id },
            Error::DeviceAlreadyRegistered(kind, id) => DeviceIdentity { kind, id },
        }
    }

    pub open spec fn spec_to_string(self) -> Seq<char> {
        let device = self.spec_device();
        let subject = "Device ("@ + device.kind.spec_name() + " "@ + spec_decimal(device.id as nat);
        match self {
            Error::DeviceNotFound(_, _) => subject + ") not found in context"@,
            Error::DeviceAlreadyRegistered(_, _) => subject + ") already registered"@,
        }
    }

    /// The error in words.
    pub fn to_string(&self) -> (text: String)
        ensures
            text@ == self.spec_to_string(),
    {
        let (kind, id, verdict) = match self {
            Error::DeviceNotFound(kind, id) => (kind, id, ") not found in context"),
            Error::DeviceAlreadyRegistered(kind, id) => (kind, id, ") already registered"),
        };
        let mut text = String::from_str("Device (");
        text.append(kind.name());
        text.append(" ");
        let number = decimal(*id);
        text.append(number.as_str());
        text.append(verdict);
        text
    }
}

/// What registering `device` makes of a registry: the registry with the
/// device in it, or a refusal where the device is in it already.
pub open spec fn registration(registry: Set<DeviceIdentity>, device: DeviceIdentity) -> Result<
    Set<DeviceIdentity>,
    Error,
> {
    if registry.contains(device) {
        Err(Error::DeviceAlreadyRegistered(device.kind, device.id))
    } else {
        Ok(registry.insert(device))
    }
}

/// The registry after `devices` were registered one after the other. A
/// registration that is refused leaves it as it was.
pub open spec fn registered(
    registry: Set<DeviceIdentity>,
    devices: Seq<DeviceIdentity>,
) -> Set<DeviceIdentity>
    decreases devices.len(),
{
    if devices.len() == 0 {
        registry
    } else {
        let before = registered(registry, devices.drop_last());
        match registration(before, devices.last()) {
            Ok(after) => after,
            Err(_) => before,
        }
    }
}

/// Whatever is registered, in whatever order, the registry holds what it
/// held before and every device that was named, and nothing else.
pub proof fn lemma_registered_is_union(registry: Set<DeviceIdentity>, devices: Seq<DeviceIdentity>)
    ensures
        forall|device: DeviceIdentity|
            registered(registry, devices).contains(device) <==> registry.contains(device)
                || devices.contains(device),
    decreases devices.len(),
{
    if devices.len() > 0 {
        let earlier = devices.drop_last();
        lemma_registered_is_union(registry, earlier);
        assert forall|device: DeviceIdentity|
            registered(registry, devices).contains(device) <==> registry.contains(device)
                || devices.contains(device) by {
            if earlier.contains(device) {
                let i = choose|i: int| 0 <= i < earlier.len() && earlier[i] == device;
                assert(devices[i] == device);
            }
            if devices.contains(device) {
                let i = choose|i: int| 0 <= i < devices.len() && devices[i] == device;
                if i < devices.len() - 1 {
                    assert(earlier[i] == device);
                }
            }
        }
    }
}

/// The registry reflects the registrations exactly. After distinct devices
/// were registered one after the other, it holds what it held before and
/// those devices, and nothing else; each of the registrations succeeded
/// unless the registry held the device before the first of them; and to
/// register any of the devices once more is refused and changes nothing.
pub proof fn law_registry_reflects_registrations(
    registry: Set<DeviceIdentity>,
    devices: Seq<DeviceIdentity>,
)
    requires
        devices.no_duplicates(),
    ensures
        forall|device: DeviceIdentity|
            registered(registry, devices).contains(device) <==> registry.contains(device)
                || devices.contains(device),
        forall|i: int|
            0 <= i < devices.len() ==> (registration(
                registered(registry, #[trigger] devices.take(i)),
                devices[i],
            ) is Ok <==> !registry.contains(devices[i])),
        forall|i: int|
            0 <= i < devices.len() ==> registration(
                registered(registry, devices),
                #[trigger] devices[i],
            ) == Err::<Set<DeviceIdentity>, Error>(
                Error::DeviceAlreadyRegistered(devices[i].kind, devices[i].id),
            ),
        forall|i: int|
            0 <= i < devices.len() ==> registered(registry, devices.push(#[trigger] devices[i]))
                == registered(registry, devices),
{
    lemma_registered_is_union(registry, devices);
    assert forall|i: int| 0 <= i < devices.len() implies (registration(
        registered(registry, #[trigger] devices.take(i)),
        devices[i],
    ) is Ok <==> !registry.contains(devices[i])) by {
        let earlier = devices.take(i);
        lemma_registered_is_union(registry, earlier);
        if earlier.contains(devices[i]) {
            let j = choose|j: int| 0 <= j < earlier.len() && earlier[j] == devices[i];
            assert(devices[j] == devices[i]);
        }
    }
    assert forall|i: int| 0 <= i < devices.len() implies registered(
        registry,
        devices.push(#[trigger] devices[i]),
    ) == registered(registry, devices) by {
        let again = devices.push(devices[i]);
        assert(again.drop_last() =~= devices);
        assert(devices.contains(devices[i]));
    }
}

/// The devices that a snapshot holds a record of.
pub open spec fn snapshot_devices<P>(records: Seq<Data<P>>) -> Set<DeviceIdentity> {
    Set::new(
        |device: DeviceIdentity|
            exists|i: int| 0 <= i < records.len() && (#[trigger] records[i]).device == device,
    )
}

/// The cache that a snapshot leaves behind: one payload for each device it
/// names, and where a device occurs more than once, its last record.
pub open spec fn snapshot_cache<P>(records: Seq<Data<P>>) -> Map<DeviceIdentity, P>
    decreases records.len(),
{
    if records.len() == 0 {
        Map::empty()
    } else {
        snapshot_cache(records.drop_last()).insert(records.last().device, records.last().data)
    }
}

/// The devices whose subscribers are to hear of a snapshot: every registered
/// device the snapshot names, once, in the order of first mention.
pub open spec fn emission_plan<P>(
    records: Seq<Data<P>>,
    registry: Set<DeviceIdentity>,
) -> Seq<DeviceIdentity>
    decreases records.len(),
{
    if records.len() == 0 {
        Seq::empty()
    } else {
        let earlier = records.drop_last();
        let device = records.last().device;
        if registry.contains(device) && !snapshot_devices(earlier).contains(device) {
            emission_plan(earlier, registry).push(device)
        } else {
            emission_plan(earlier, registry)
        }
    }
}

/// The devices of a snapshot are those of all its records but the last, and
/// the device of the last.
proof fn lemma_snapshot_devices_grow<P>(records: Seq<Data<P>>)
    requires
        records.len() > 0,
    ensures
        forall|device: DeviceIdentity|
            snapshot_devices(records).contains(device) <==> snapshot_devices(
                records.drop_last(),
            ).contains(device) || device == records.last().device,
{
    let earlier = records.drop_last();
    assert forall|device: DeviceIdentity|
        snapshot_devices(records).contains(device) <==> snapshot_devices(earlier).contains(device)
            || device == records.last().device by {
        if snapshot_devices(records).contains(device) {
            let i = choose|i: int|
                0 <= i < records.len() && (#[trigger] records[i]).device == device;
            if i < records.len() - 1 {
                assert(earlier[i].device == device);
            }
        }
        if snapshot_devices(earlier).contains(device) {
            let i = choose|i: int|
                0 <= i < earlier.len() && (#[trigger] earlier[i]).device == device;
            assert(records[i].device == device);
        }
        if device == records.last().device {
            assert(records[records.len() - 1].device == device);
        }
    }
}

/// A snapshot's cache holds exactly the devices the snapshot names.
pub proof fn lemma_snapshot_cache_domain<P>(records: Seq<Data<P>>)
    ensures
        snapshot_cache(records).dom() == snapshot_devices(records),
    decreases records.len(),
{
    if records.len() > 0 {
        let earlier = records.drop_last();
        lemma_snapshot_cache_domain(earlier);
        lemma_snapshot_devices_grow(records);
    }
}

/// After a snapshot was taken in, a device that it names has the payload of
/// its last record in the snapshot, whatever the cache held before.
pub proof fn law_replace_then_data<P>(records: Seq<Data<P>>, i: int)
    requires
        0 <= i < records.len(),
        forall|j: int| i < j < records.len() ==> records[j].device != records[i].device,
    ensures
        snapshot_cache(records).contains_key(records[i].device),
        snapshot_cache(records)[records[i].device] == records[i].data,
    decreases records.len(),
{
    if i < records.len() - 1 {
        law_replace_then_data(records.drop_last(), i);
    }
}

/// After a snapshot was taken in, the cache holds a payload for every device
/// that the snapshot names: that of one of the device's records, after which
/// the snapshot does not name the device again.
pub proof fn law_replace_covers_snapshot<P>(records: Seq<Data<P>>, device: DeviceIdentity)
    requires
        snapshot_devices(records).contains(device),
    ensures
        snapshot_cache(records).contains_key(device),
        exists|i: int|
            0 <= i < records.len() && (#[trigger] records[i]).device == device
                && snapshot_cache(records)[device] == records[i].data && forall|j: int|
                i < j < records.len() ==> (#[trigger] records[j]).device != device,
    decreases records.len(),
{
    let last = records.len() - 1;
    if records[last].device == device {
        law_replace_then_data(records, last);
    } else {
        let earlier = records.drop_last();
        lemma_snapshot_devices_grow(records);
        law_replace_covers_snapshot(earlier, device);
        let i = choose|i: int|
            0 <= i < earlier.len() && (#[trigger] earlier[i]).device == device && snapshot_cache(
                earlier,
            )[device] == earlier[i].data && forall|j: int|
                i < j < earlier.len() ==> (#[trigger] earlier[j]).device != device;
        assert(records[i].device == device);
        assert forall|j: int| i < j < records.len() implies (#[trigger] records[j]).device
            != device by {
            if j < last {
                assert(earlier[j].device != device);
            }
        }
        law_replace_then_data(records, i);
    }
}

/// A snapshot's emission plan names every registered device that the cache
/// holds after the snapshot was taken in, once, and no other device.
pub proof fn lemma_emission_plan_covers<P>(records: Seq<Data<P>>, registry: Set<DeviceIdentity>)
    ensures
        emission_plan(records, registry).no_duplicates(),
        forall|device: DeviceIdentity|
            emission_plan(records, registry).contains(device) <==> registry.contains(device)
                && snapshot_cache(records).contains_key(device),
    decreases records.len(),
{
    let plan = emission_plan(records, registry);
    lemma_snapshot_cache_domain(records);
    if records.len() > 0 {
        let earlier = records.drop_last();
        let last = records.last().device;
        let before = emission_plan(earlier, registry);
        lemma_emission_plan_covers(earlier, registry);
        lemma_snapshot_cache_domain(earlier);
        lemma_snapshot_devices_grow(records);
        if registry.contains(last) && !snapshot_devices(earlier).contains(last) {
            assert(plan == before.push(last));
            assert(!before.contains(last));
            assert forall|device: DeviceIdentity|
                plan.contains(device) <==> before.contains(device) || device == last by {
                if before.contains(device) {
                    let i = choose|i: int| 0 <= i < before.len() && before[i] == device;
                    assert(plan[i] == device);
                }
                assert(plan[plan.len() - 1] == last);
            }
            assert forall|a: int, b: int| 0 <= a < plan.len() && 0 <= b < plan.len() && a
                != b implies plan[a] != plan[b] by {
                if a < before.len() {
                    assert(before.contains(plan[a]));
                }
                if b < before.len() {
                    assert(before.contains(plan[b]));
                }
            }
        }
    }
}

/// The cache that a table of payloads by device key stands for.
spec fn cache_of<P>(table: Map<u64, P>) -> Map<DeviceIdentity, P> {
    Map::new(
        |device: DeviceIdentity| table.contains_key(device.spec_key()),
        |device: DeviceIdentity| table[device.spec_key()],
    )
}

/// The authoritative store of the core: which devices exist, and the latest
/// payload the host supplied for each.
pub struct Context<P> {
    data: HashMap<u64, P>,
    devices: HashSet<u64>,
}

impl<P> Context<P> {
    /// The identities that are registered.
    pub closed spec fn registry(&self) -> Set<DeviceIdentity> {
        Set::new(|device: DeviceIdentity| self.devices@.contains(device.spec_key()))
    }

    /// The latest payload of each device the last snapshot named.
    pub closed spec fn cache(&self) -> Map<DeviceIdentity, P> {
        cache_of(self.data@)
    }

    /// A context with no device and no telemetry.
    pub fn new() -> (context: Self)
        ensures
            context.registry() == Set::<DeviceIdentity>::empty(),
            context.cache() == Map::<DeviceIdentity, P>::empty(),
    {
        Context { data: HashMap::new(), devices: HashSet::new() }
    }

    /// Whether `device` is registered.
    pub fn device_exists(&self, device: &DeviceIdentity) -> (exists: bool)
        ensures
            exists == self.registry().contains(*device),
    {
        let key = device.key();
        self.devices.contains(&key)
    }

    /// Registers `device`. An identity that is already registered is turned
    /// down, and the context stays as it was.
    pub fn add_device(&mut self, device: &DeviceIdentity) -> (result: Result<(), Error>)
        ensures
            final(self).cache() == old(self).cache(),
            match registration(old(self).registry(), *device) {
                Ok(registry) => result is Ok && final(self).registry() == registry,
                Err(error) => result == Err::<(), Error>(error) && final(self).registry() == old(
                    self,
                ).registry(),
            },
    {
        let key = device.key();
        if self.devices.contains(&key) {
            return Err(Error::DeviceAlreadyRegistered(device.kind, device.id));
        }
        self.devices.insert(key);
        proof {
            assert forall|other: DeviceIdentity|
                final(self).registry().contains(other) == old(self).registry().insert(
                    *device,
                ).contains(other) by {
                DeviceIdentity::lemma_key_injective(other, *device);
            }
        }
        Ok(())
    }

    /// Takes a snapshot in as the new cache, whole: afterwards the cache holds
    /// what the snapshot says and nothing of what it held before. Returns the
    /// devices whose subscribers are now to be told.
    pub fn replace(&mut self, snapshot: DeviceDatas<P>) -> (plan: Vec<DeviceIdentity>)
        ensures
            final(self).registry() == old(self).registry(),
            final(self).cache() == snapshot_cache(snapshot@),
            plan@ == emission_plan(snapshot@, old(self).registry()),
    {
        let records = snapshot.into_vec();
        let ghost all = records@;
        let ghost registry = self.registry();
        let mut data: HashMap<u64, P> = HashMap::new();
        let mut plan: Vec<DeviceIdentity> = Vec::new();
        for record in it: records.into_iter()
            invariant
                it.seq() == all,
                registry == self.registry(),
                cache_of(data@) == snapshot_cache(all.take(it.index() as int)),
                plan@ == emission_plan(all.take(it.index() as int), registry),
        {
            let ghost seen = all.take(it.index() as int);
            let ghost next = all.take(it.index() + 1);
            let Data { device, data: payload } = record;
            let key = device.key();
            proof {
                assert(next.drop_last() =~= seen);
                lemma_snapshot_cache_domain(seen);
            }
            let previous = data.insert(key, payload);
            if previous.is_none() && self.devices.contains(&key) {
                plan.push(device);
            }
            proof {
                assert forall|other: DeviceIdentity| other.spec_key() == key implies other
                    == device by {
                    DeviceIdentity::lemma_key_injective(other, device);
                }
            }
        }
        proof {
            assert(all.take(all.len() as int) =~= all);
        }
        self.data = data;
        plan
    }

    /// Addresses `command` to `device`, which must be registered: a command
    /// to a device that the registry does not hold is turned down.
    pub fn command(&self, device: &DeviceIdentity, command: CommandBody) -> (result: Result<
        Command,
        Error,
    >)
        ensures
            self.registry().contains(*device) ==> result == Ok::<Command, Error>(
                Command { device: *device, command },
            ),
            !self.registry().contains(*device) ==> result == Err::<Command, Error>(
                Error::DeviceNotFound(device.kind, device.id),
            ),
    {
        if !self.device_exists(device) {
            return Err(Error::DeviceNotFound(device.kind, device.id));
        }
        Ok(Command { device: *device, command })
    }

    /// The latest payload the host supplied for `device`, if any.
    pub fn data(&self, device: &DeviceIdentity) -> (payload: Option<&P>)
        ensures
            match payload {
                Some(payload) => self.cache().contains_key(*device) && *payload
                    == self.cache()[*device],
                None => !self.cache().contains_key(*device),
            },
    {
        let key = device.key();
        self.data.get(&key)
    }
}

} // verus!
