//! The registry: which devices there are, which connections are up, and a few settings.
use crate::device::{Device, DeviceNames, DeviceNamesView, DeviceView};
use crate::error::{StateError, StateErrorView};
use crate::text::{lower, same_ignoring_case};
use vstd::prelude::*;

verus! {

/// The scale that temperatures are shown in.
#[derive(Clone, Copy, Debug, PartialEq, Eq, Structural)]
pub enum TemperatureScale {
    Celsius,
    Fahrenheit,
}

/// The connection to the local network interface, by the number its owner keeps it under.
#[derive(Clone, Copy, Debug, PartialEq, Eq, Structural)]
pub struct LanClient {
    pub handle: u64,
}

/// The connection to the documented platform interface, by the number its owner keeps it under.
#[derive(Clone, Copy, Debug, PartialEq, Eq, Structural)]
pub struct GoveeApiClient {
    pub handle: u64,
}

/// The connection to the undocumented interface, by the number its owner keeps it under.
#[derive(Clone, Copy, Debug, PartialEq, Eq, Structural)]
pub struct GoveeUndocumentedApi {
    pub handle: u64,
}

/// The connection to the message broker, by the number its owner keeps it under.
#[derive(Clone, Copy, Debug, PartialEq, Eq, Structural)]
pub struct IotClient {
    pub handle: u64,
}

/// The connection to the home automation hub, by the number its owner keeps it under.
#[derive(Clone, Copy, Debug, PartialEq, Eq, Structural)]
pub struct HassClient {
    pub handle: u64,
}

/// A device under the id it was registered with.
struct DeviceEntry {
    id: String,
    device: Device,
}

/// Devices, connections and settings that the parts of the service share.
pub struct State {
    devices: Vec<DeviceEntry>,
    semaphores: Vec<String>,
    lan_client: Option<LanClient>,
    platform_client: Option<GoveeApiClient>,
    undoc_client: Option<GoveeUndocumentedApi>,
    iot_client: Option<IotClient>,
    hass_client: Option<HassClient>,
    hass_discovery_prefix: String,
    temperature_scale: TemperatureScale,
}

/// A device to be controlled, and the number of the semaphore that its control goes by.
#[derive(Debug, PartialEq, Eq)]
pub struct Coordinator {
    pub device: Device,
    pub semaphore: usize,
}

/// The contents of a [`State`].
#[verifier::ext_equal]
pub struct StateView {
    /// The ids of the devices, in the order they were registered in.
    pub order: Seq<Seq<char>>,
    /// The devices by id.
    pub devices: Map<Seq<char>, DeviceView>,
    /// The ids that a control semaphore was handed out for, in the order of the semaphores.
    pub semaphores: Seq<Seq<char>>,
    pub lan_client: Option<LanClient>,
    pub platform_client: Option<GoveeApiClient>,
    pub undoc_client: Option<GoveeUndocumentedApi>,
    pub iot_client: Option<IotClient>,
    pub hass_client: Option<HassClient>,
    pub hass_discovery_prefix: Seq<char>,
    pub temperature_scale: TemperatureScale,
}

/// Whether a device that is called by some names goes by a label: by its name, id, topic id,
/// address or computed name, ignoring ASCII case.
pub open spec fn answers_to(device: DeviceView, names: DeviceNamesView, label: Seq<char>) -> bool {
    ||| lower(names.name) == lower(label)
    ||| lower(device.id) == lower(label)
    ||| lower(names.topic_safe_id) == lower(label)
    ||| names.ip_addr is Some && lower(names.ip_addr->0) == lower(label)
    ||| lower(names.computed_name) == lower(label)
}

/// The device without a kept scene catalog.
pub open spec fn without_catalog(device: DeviceView) -> DeviceView {
    DeviceView { scene_catalog: None, ..device }
}

impl StateView {
    /// A registry without devices or connections, showing temperatures in degrees Celsius.
    pub open spec fn empty() -> StateView {
        StateView {
            order: Seq::empty(),
            devices: Map::empty(),
            semaphores: Seq::empty(),
            lan_client: None,
            platform_client: None,
            undoc_client: None,
            iot_client: None,
            hass_client: None,
            hass_discovery_prefix: Seq::empty(),
            temperature_scale: TemperatureScale::Celsius,
        }
    }

    /// Every device stands in the registration order exactly once, and no id has two semaphores.
    pub open spec fn wf(self) -> bool {
        &&& self.order.no_duplicates()
        &&& self.devices.dom() == self.order.to_set()
        &&& self.semaphores.no_duplicates()
    }

    /// The device with an id, if there is one.
    pub open spec fn device(self, id: Seq<char>) -> Option<DeviceView> {
        if self.devices.contains_key(id) {
            Some(self.devices[id])
        } else {
            None
        }
    }

    /// The device with an id, or else a fresh one.
    pub open spec fn device_or_fresh(self, sku: Seq<char>, id: Seq<char>) -> DeviceView {
        match self.device(id) {
            Some(device) => device,
            None => DeviceView::fresh(sku, id),
        }
    }

    /// The registry with `device` under `id`; an id that is new is registered last.
    pub open spec fn with_device(self, id: Seq<char>, device: DeviceView) -> StateView {
        StateView {
            order: if self.devices.contains_key(id) {
                self.order
            } else {
                self.order.push(id)
            },
            devices: self.devices.insert(id, device),
            ..self
        }
    }

    /// Whether there are names for every device, in registration order.
    pub open spec fn named_by(self, names: Seq<DeviceNamesView>) -> bool {
        names.len() == self.order.len()
    }

    /// The position of the first device, in registration order, that goes by a label; the number
    /// of devices if none does. The devices are called by `names`, in registration order.
    pub open spec fn first_answering(
        self,
        names: Seq<DeviceNamesView>,
        label: Seq<char>,
        from: int,
    ) -> int
        decreases self.order.len() - from,
    {
        if from < 0 || from >= self.order.len() {
            self.order.len() as int
        } else if answers_to(self.devices[self.order[from]], names[from], label) {
            from
        } else {
            self.first_answering(names, label, from + 1)
        }
    }

    /// The device that a label stands for: the one whose id it is, or else the first registered
    /// one that goes by it. The devices are called by `names`, in registration order.
    pub open spec fn resolved(self, names: Seq<DeviceNamesView>, label: Seq<char>) -> Option<
        DeviceView,
    > {
        if self.devices.contains_key(label) {
            Some(self.devices[label])
        } else {
            let i = self.first_answering(names, label, 0);
            if i < self.order.len() {
                Some(self.devices[self.order[i]])
            } else {
                None
            }
        }
    }

    /// The registry without any kept scene catalog.
    pub open spec fn without_catalogs(self) -> StateView {
        StateView {
            devices: self.devices.map_values(|device: DeviceView| without_catalog(device)),
            ..self
        }
    }

    /// The number of the control semaphore of a device id.
    pub open spec fn semaphore_of(self, id: Seq<char>) -> int {
        if self.semaphores.contains(id) {
            self.semaphores.index_of(id)
        } else {
            self.semaphores.len() as int
        }
    }

    /// The registry with a control semaphore for a device id.
    pub open spec fn with_semaphore(self, id: Seq<char>) -> StateView {
        StateView {
            semaphores: if self.semaphores.contains(id) {
                self.semaphores
            } else {
                self.semaphores.push(id)
            },
            ..self
        }
    }
}

/// Whether a device that is called by some names goes by a label.
fn goes_by(device: &Device, names: &DeviceNames, label: &str) -> (res: bool)
    ensures
        res == answers_to(device@, names@, label@),
{
    let by_address = match &names.ip_addr {
        Some(address) => same_ignoring_case(address, label),
        None => false,
    };
    same_ignoring_case(&names.name, label) || same_ignoring_case(&device.id, label)
        || same_ignoring_case(&names.topic_safe_id, label) || by_address || same_ignoring_case(
        &names.computed_name,
        label,
    )
}

spec fn ids_of(entries: Seq<DeviceEntry>) -> Seq<Seq<char>> {
    Seq::new(entries.len(), |i: int| entries[i].id@)
}

spec fn devices_of(entries: Seq<DeviceEntry>) -> Map<Seq<char>, DeviceView> {
    Map::new(
        |id: Seq<char>| ids_of(entries).contains(id),
        |id: Seq<char>| entries[ids_of(entries).index_of(id)].device@,
    )
}

impl View for State {
    type V = StateView;

    closed spec fn view(&self) -> StateView {
        StateView {
            order: ids_of(self.devices@),
            devices: devices_of(self.devices@),
            semaphores: self.semaphores.deep_view(),
            lan_client: self.lan_client,
            platform_client: self.platform_client,
            undoc_client: self.undoc_client,
            iot_client: self.iot_client,
            hass_client: self.hass_client,
            hass_discovery_prefix: self.hass_discovery_prefix@,
            temperature_scale: self.temperature_scale,
        }
    }
}

proof fn lemma_entry(entries: Seq<DeviceEntry>, i: int)
    requires
        ids_of(entries).no_duplicates(),
        0 <= i < entries.len(),
    ensures
        devices_of(entries).contains_key(entries[i].id@),
        devices_of(entries)[entries[i].id@] == entries[i].device@,
        ids_of(entries)[i] == entries[i].id@,
{
    let ids = ids_of(entries);
    assert(ids[i] == entries[i].id@);
    assert(ids.contains(ids[i]));
    let k = ids.index_of(ids[i]);
    assert(ids[k] == ids[i]);
}

proof fn lemma_entry_replaced(entries: Seq<DeviceEntry>, i: int, entry: DeviceEntry)
    requires
        ids_of(entries).no_duplicates(),
        0 <= i < entries.len(),
        entry.id@ == entries[i].id@,
    ensures
        ids_of(entries.update(i, entry)) == ids_of(entries),
        devices_of(entries.update(i, entry)) == devices_of(entries).insert(entry.id@, entry.device@),
{
    let after = entries.update(i, entry);
    let ids = ids_of(entries);
    assert(ids_of(after) == ids);
    lemma_entry(entries, i);
    lemma_entry(after, i);
    assert forall|id: Seq<char>| #[trigger]
        devices_of(after).contains_key(id) && id != entry.id@ implies devices_of(after)[id]
        == devices_of(entries)[id] by {
        assert(ids[ids.index_of(id)] == id);
    }
    assert(devices_of(after) == devices_of(entries).insert(entry.id@, entry.device@));
}

proof fn lemma_entry_added(entries: Seq<DeviceEntry>, entry: DeviceEntry)
    requires
        ids_of(entries).no_duplicates(),
        !ids_of(entries).contains(entry.id@),
    ensures
        ids_of(entries.push(entry)) == ids_of(entries).push(entry.id@),
        ids_of(entries.push(entry)).no_duplicates(),
        ids_of(entries.push(entry)).to_set() == ids_of(entries).to_set().insert(entry.id@),
        devices_of(entries.push(entry)) == devices_of(entries).insert(entry.id@, entry.device@),
{
    let after = entries.push(entry);
    let ids = ids_of(entries);
    assert(ids_of(after) == ids.push(entry.id@));
    assert forall|j: int, k: int| 0 <= j < k < ids_of(after).len() implies ids_of(after)[j]
        != ids_of(after)[k] by {
        assert(ids.contains(ids[j]));
    }
    assert forall|id: Seq<char>| #[trigger]
        ids_of(after).contains(id) <==> ids.contains(id) || id == entry.id@ by {
        if ids.contains(id) {
            assert(ids_of(after)[ids.index_of(id)] == id);
        }
        assert(ids_of(after)[ids.len() as int] == entry.id@);
    }
    lemma_entry(after, entries.len() as int);
    assert forall|id: Seq<char>| ids.contains(id) implies #[trigger] devices_of(after)[id]
        == devices_of(entries)[id] by {
        let k = ids.index_of(id);
        assert(after[k] == entries[k]);
        lemma_entry(after, k);
    }
    assert(devices_of(after) == devices_of(entries).insert(entry.id@, entry.device@));
}

impl Default for State {
    /// The same as [`State::new`].
    fn default() -> (res: Self)
        ensures
            res.wf(),
            res@ == StateView::empty(),
    {
        State::new()
    }
}

impl State {
    /// Whether the registry is consistent.
    pub open spec fn wf(&self) -> bool {
        self@.wf()
    }

    /// A registry without devices or connections, showing temperatures in degrees Celsius.
    pub fn new() -> (res: Self)
        ensures
            res.wf(),
            res@ == StateView::empty(),
    {
        let res = State {
            devices: Vec::new(),
            semaphores: Vec::new(),
            lan_client: None,
            platform_client: None,
            undoc_client: None,
            iot_client: None,
            hass_client: None,
            hass_discovery_prefix: String::new(),
            temperature_scale: TemperatureScale::Celsius,
        };
        assert(res@.order == Seq::<Seq<char>>::empty());
        assert(res@.devices == Map::<Seq<char>, DeviceView>::empty());
        assert(res@.semaphores == Seq::<Seq<char>>::empty());
        assert(res@.devices.dom() == res@.order.to_set());
        res
    }

    /// The position of the entry with an id.
    fn position(&self, id: &str) -> (res: Option<usize>)
        requires
            self.wf(),
        ensures
            match res {
                Some(i) => i < self.devices@.len() && self.devices@[i as int].id@ == id@,
                None => !self@.devices.contains_key(id@),
            },
    {
        let wanted = id.to_string();
        let mut i: usize = 0;
        while i < self.devices.len()
            invariant
                i <= self.devices.len(),
                wanted@ == id@,
                forall|j: int| 0 <= j < i ==> (#[trigger] self.devices@[j]).id@ != id@,
            decreases self.devices.len() - i,
        {
            if self.devices[i].id == wanted {
                return Some(i);
            }
            i += 1;
        }
        None
    }

    /// Returns a mutable version of the specified device, creating
    /// an entry for it if necessary.
    pub fn device_mut(&mut self, sku: &str, id: &str) -> (device: &mut Device)
        requires
            old(self).wf(),
        ensures
            device@ == old(self)@.device_or_fresh(sku@, id@),
            final(self).wf(),
            final(self)@ == old(self)@.with_device(id@, final(device)@),
    {
        let ghost before = self.devices@;
        let i = match self.position(id) {
            Some(i) => i,
            None => {
                let entry = DeviceEntry { id: id.to_string(), device: Device::new(sku, id) };
                proof {
                    lemma_entry_added(before, entry);
                }
                self.devices.push(entry);
                self.devices.len() - 1
            },
        };
        proof {
            let entries = self.devices@;
            lemma_entry(entries, i as int);
            assert forall|entry: DeviceEntry| entry.id@ == id@ implies {
                &&& ids_of(#[trigger] entries.update(i as int, entry)) == ids_of(entries)
                &&& devices_of(entries.update(i as int, entry)) == devices_of(entries).insert(
                    id@,
                    entry.device@,
                )
            } by {
                lemma_entry_replaced(entries, i as int, entry);
            }
        }
        &mut self.devices[i].device
    }

    /// All devices, in the order they were registered in.
    pub fn devices(&self) -> (res: Vec<Device>)
        requires
            self.wf(),
        ensures
            res.deep_view() == self@.order.map_values(|id: Seq<char>| self@.devices[id]),
    {
        let mut res: Vec<Device> = Vec::new();
        let mut i: usize = 0;
        while i < self.devices.len()
            invariant
                i <= self.devices.len(),
                self.wf(),
                res.len() == i,
                forall|j: int|
                    0 <= j < i ==> (#[trigger] res[j])@ == self@.devices[self@.order[j]],
            decreases self.devices.len() - i,
        {
            proof {
                lemma_entry(self.devices@, i as int);
            }
            res.push(self.devices[i].device.clone());
            i += 1;
        }
        assert(res.deep_view() == self@.order.map_values(|id: Seq<char>| self@.devices[id]));
        res
    }

    /// Returns an immutable copy of the specified Device
    pub fn device_by_id(&self, id: &str) -> (res: Option<Device>)
        requires
            self.wf(),
        ensures
            res.deep_view() == self@.device(id@),
    {
        match self.position(id) {
            Some(i) => {
                proof {
                    lemma_entry(self.devices@, i as int);
                }
                Some(self.devices[i].device.clone())
            },
            None => None,
        }
    }

    /// The number of the semaphore that control of the device goes by. There is one for each id
    /// that was ever asked for, and an id keeps the one it has.
    pub fn semaphore_for_device(&mut self, device: &Device) -> (res: usize)
        requires
            old(self).wf(),
        ensures
            res == old(self)@.semaphore_of(device.id@),
            final(self).wf(),
            final(self)@ == old(self)@.with_semaphore(device.id@),
    {
        let ghost ids = self@.semaphores;
        let mut i: usize = 0;
        while i < self.semaphores.len()
            invariant
                i <= self.semaphores.len(),
                *self == *old(self),
                self.wf(),
                ids == self@.semaphores,
                forall|j: int| 0 <= j < i ==> #[trigger] ids[j] != device.id@,
                ids.no_duplicates(),
            decreases self.semaphores.len() - i,
        {
            if self.semaphores[i] == device.id {
                assert(ids[i as int] == device.id@);
                assert(ids.contains(device.id@));
                return i;
            }
            i += 1;
        }
        assert(!ids.contains(device.id@));
        self.semaphores.push(device.id.clone());
        assert(self.semaphores.deep_view() == ids.push(device.id@));
        i
    }

    /// Resolve a device using its name, computed name, id or label,
    /// ignoring case. The devices are called by `names`, in the order of [`State::devices`].
    pub fn resolve_device(&self, label: &str, names: &Vec<DeviceNames>) -> (res: Option<Device>)
        requires
            self.wf(),
            self@.named_by(names.deep_view()),
        ensures
            res.deep_view() == self@.resolved(names.deep_view(), label@),
    {
        // Try by id first
        if let Some(i) = self.position(label) {
            proof {
                lemma_entry(self.devices@, i as int);
            }
            return Some(self.devices[i].device.clone());
        }
        let mut i: usize = 0;
        while i < self.devices.len()
            invariant
                i <= self.devices.len(),
                self.wf(),
                self@.named_by(names.deep_view()),
                !self@.devices.contains_key(label@),
                self@.first_answering(names.deep_view(), label@, 0) == self@.first_answering(
                    names.deep_view(),
                    label@,
                    i as int,
                ),
            decreases self.devices.len() - i,
        {
            proof {
                lemma_entry(self.devices@, i as int);
                assert(names.deep_view()[i as int] == names[i as int]@);
            }
            if goes_by(&self.devices[i].device, &names[i], label) {
                return Some(self.devices[i].device.clone());
            }
            i += 1;
        }
        None
    }

    /// Resolve a device based on its label, or say that there is none. The devices are called by
    /// `names`, in the order of [`State::devices`].
    pub fn resolve_device_read_only(&self, label: &str, names: &Vec<DeviceNames>) -> (res: Result<
        Device,
        StateError,
    >)
        requires
            self.wf(),
            self@.named_by(names.deep_view()),
        ensures
            match res {
                Ok(device) => self@.resolved(names.deep_view(), label@) == Some(device@),
                Err(error) => self@.resolved(names.deep_view(), label@) is None
                    && error@ == (StateErrorView::LabelNotFound { label: label@ }),
            },
    {
        match self.resolve_device(label, names) {
            Some(device) => Ok(device),
            None => Err(StateError::LabelNotFound { label: label.to_string() }),
        }
    }

    /// Resolve a device based on its label. The devices are called by `names`, in the order of
    /// [`State::devices`].
    /// Assuming the device is found, returns a Coordinator, which says
    /// by which semaphore the caller has to wait for its turn, so that only one task at a time
    /// can be processing control requests for a device.
    pub fn resolve_device_for_control(&mut self, label: &str, names: &Vec<DeviceNames>) -> (res:
        Result<Coordinator, StateError>)
        requires
            old(self).wf(),
            old(self)@.named_by(names.deep_view()),
        ensures
            final(self).wf(),
            match res {
                Ok(coordinator) => {
                    &&& old(self)@.resolved(names.deep_view(), label@) == Some(coordinator.device@)
                    &&& coordinator.semaphore == old(self)@.semaphore_of(coordinator.device@.id)
                    &&& final(self)@ == old(self)@.with_semaphore(coordinator.device@.id)
                },
                Err(error) => {
                    &&& old(self)@.resolved(names.deep_view(), label@) is None
                    &&& error@ == (StateErrorView::LabelNotFound { label: label@ })
                    &&& final(self)@ == old(self)@
                },
            },
    {
        match self.resolve_device(label, names) {
            Some(device) => {
                let semaphore = self.semaphore_for_device(&device);
                Ok(Coordinator { device, semaphore })
            },
            None => Err(StateError::LabelNotFound { label: label.to_string() }),
        }
    }

    /// What has to be done after the state of a device has changed: hand the device as it is now
    /// to the home automation hub, if that is connected. There must be such a device.
    pub fn notify_of_state_change(&self, device_id: &str) -> (res: Result<
        Option<Device>,
        StateError,
    >)
        requires
            self.wf(),
        ensures
            match res {
                Ok(advised) => {
                    &&& self@.devices.contains_key(device_id@)
                    &&& advised.deep_view() == if self@.hass_client is Some {
                        self@.device(device_id@)
                    } else {
                        None
                    }
                },
                Err(error) => {
                    &&& !self@.devices.contains_key(device_id@)
                    &&& error@ == (StateErrorView::DeviceNotFound { id: device_id@ })
                },
            },
    {
        match self.device_by_id(device_id) {
            Some(device) => if self.hass_client.is_some() {
                Ok(Some(device))
            } else {
                Ok(None)
            },
            None => Err(StateError::DeviceNotFound { id: device_id.to_string() }),
        }
    }

    /// Clears every device's in-memory scene-catalog cache. Purging the cache that is kept on
    /// disk does not do that; without this, a stale scene catalog
    /// would survive a purge and only clear on a full restart.
    pub fn clear_scene_catalogs(&mut self)
        requires
            old(self).wf(),
        ensures
            final(self).wf(),
            final(self)@ == old(self)@.without_catalogs(),
    {
        let ghost before = self@;
        let mut i: usize = 0;
        assert forall|id: Seq<char>| before.devices.contains_key(id) implies #[trigger]
            before.order.index_of(id) >= 0 by {
            assert(before.order.contains(id));
        }
        while i < self.devices.len()
            invariant
                i <= self.devices.len(),
                self.wf(),
                before.wf(),
                self.devices@.len() == before.order.len(),
                self@ == (StateView { devices: self@.devices, ..before }),
                forall|j: int|
                    0 <= j < before.order.len() ==> self@.devices[#[trigger] before.order[j]]
                        == if j < i {
                        without_catalog(before.devices[before.order[j]])
                    } else {
                        before.devices[before.order[j]]
                    },
            decreases self.devices.len() - i,
        {
            let ghost entries = self.devices@;
            proof {
                lemma_entry(entries, i as int);
            }
            self.devices[i].device.clear_scene_catalog();
            proof {
                lemma_entry_replaced(entries, i as int, self.devices@[i as int]);
                assert(self.devices@ == entries.update(i as int, self.devices@[i as int]));
            }
            i += 1;
        }
        assert forall|id: Seq<char>| self@.devices.contains_key(id) implies #[trigger]
            self@.devices[id] == without_catalog(before.devices[id]) by {
            assert(before.order.contains(id));
            let j = choose|j: int| 0 <= j < before.order.len() && before.order[j] == id;
            assert(self@.devices[before.order[j]] == without_catalog(before.devices[id]));
        }
        assert(self@.devices == before.without_catalogs().devices);
    }

    /// Sets the scale that temperatures are shown in.
    pub fn set_temperature_scale(&mut self, scale: TemperatureScale)
        ensures
            final(self)@ == (StateView { temperature_scale: scale, ..old(self)@ }),
    {
        self.temperature_scale = scale;
    }

    /// The scale that temperatures are shown in.
    pub fn get_temperature_scale(&self) -> (res: TemperatureScale)
        ensures
            res == self@.temperature_scale,
    {
        self.temperature_scale
    }

    /// Sets the prefix of discovery topics.
    pub fn set_hass_disco_prefix(&mut self, prefix: String)
        ensures
            final(self)@ == (StateView { hass_discovery_prefix: prefix@, ..old(self)@ }),
    {
        self.hass_discovery_prefix = prefix;
    }

    /// The prefix of discovery topics.
    pub fn get_hass_disco_prefix(&self) -> (res: String)
        ensures
            res@ == self@.hass_discovery_prefix,
    {
        self.hass_discovery_prefix.clone()
    }

    /// Notes that the home automation hub is connected.
    pub fn set_hass_client(&mut self, client: HassClient)
        ensures
            final(self)@ == (StateView { hass_client: Some(client), ..old(self)@ }),
    {
        self.hass_client = Some(client);
    }

    /// The connection to the home automation hub, if there is one.
    pub fn get_hass_client(&self) -> (res: Option<HassClient>)
        ensures
            res == self@.hass_client,
    {
        self.hass_client
    }

    /// Notes that the message broker is connected.
    pub fn set_iot_client(&mut self, client: IotClient)
        ensures
            final(self)@ == (StateView { iot_client: Some(client), ..old(self)@ }),
    {
        self.iot_client = Some(client);
    }

    /// The connection to the message broker, if there is one.
    pub fn get_iot_client(&self) -> (res: Option<IotClient>)
        ensures
            res == self@.iot_client,
    {
        self.iot_client
    }

    /// Notes that the local network interface is connected.
    pub fn set_lan_client(&mut self, client: LanClient)
        ensures
            final(self)@ == (StateView { lan_client: Some(client), ..old(self)@ }),
    {
        self.lan_client = Some(client);
    }

    /// The connection to the local network interface, if there is one.
    pub fn get_lan_client(&self) -> (res: Option<LanClient>)
        ensures
            res == self@.lan_client,
    {
        self.lan_client
    }

    /// Notes that the documented platform interface is connected.
    pub fn set_platform_client(&mut self, client: GoveeApiClient)
        ensures
            final(self)@ == (StateView { platform_client: Some(client), ..old(self)@ }),
    {
        self.platform_client = Some(client);
    }

    /// The connection to the documented platform interface, if there is one.
    pub fn get_platform_client(&self) -> (res: Option<GoveeApiClient>)
        ensures
            res == self@.platform_client,
    {
        self.platform_client
    }

    /// Notes that the undocumented interface is connected.
    pub fn set_undoc_client(&mut self, client: GoveeUndocumentedApi)
        ensures
            final(self)@ == (StateView { undoc_client: Some(client), ..old(self)@ }),
    {
        self.undoc_client = Some(client);
    }

    /// The connection to the undocumented interface, if there is one.
    pub fn get_undoc_client(&self) -> (res: Option<GoveeUndocumentedApi>)
        ensures
            res == self@.undoc_client,
    {
        self.undoc_client
    }
}

} // verus!
