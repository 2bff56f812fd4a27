//! What the operations of the registry mean, said of its contents.
use crate::device::{DeviceNamesView, DeviceView};
use crate::state::{StateView, TemperatureScale};
use crate::text::lower;
use vstd::prelude::*;

verus! {

/// Whether `after` is `before` with `device` under `id`, and nothing else changed: the other
/// devices, the order they were registered in, connections, semaphores and settings stay, and an
/// id that is new is registered last.
pub open spec fn is_update(
    before: StateView,
    after: StateView,
    id: Seq<char>,
    device: DeviceView,
) -> bool {
    &&& forall|other: Seq<char>| #[trigger]
        after.devices.contains_key(other) <==> before.devices.contains_key(other) || other == id
    &&& forall|other: Seq<char>|
        other != id && before.devices.contains_key(other) ==> #[trigger] after.devices[other]
            == before.devices[other]
    &&& after.devices[id] == device
    &&& before.devices.contains_key(id) ==> after.order == before.order
    &&& !before.devices.contains_key(id) ==> after.order == before.order.push(id)
    &&& after.semaphores == before.semaphores
    &&& after.lan_client == before.lan_client
    &&& after.platform_client == before.platform_client
    &&& after.undoc_client == before.undoc_client
    &&& after.iot_client == before.iot_client
    &&& after.hass_client == before.hass_client
    &&& after.hass_discovery_prefix == before.hass_discovery_prefix
    &&& after.temperature_scale == before.temperature_scale
}

/// A write to a device changes that device and nothing else.
pub proof fn law_write_changes_one_device(state: StateView, id: Seq<char>, device: DeviceView)
    ensures
        is_update(state, state.with_device(id, device), id, device),
{
}

/// Reading by id gives what is kept under the id, and nothing where nothing is kept. A device that
/// is created for an id has that id and the model that was asked for.
pub proof fn law_read_by_id(state: StateView, sku: Seq<char>, id: Seq<char>)
    ensures
        state.devices.contains_key(id) ==> state.device(id) == Some(state.devices[id]),
        state.devices.contains_key(id) ==> state.device_or_fresh(sku, id) == state.devices[id],
        !state.devices.contains_key(id) ==> state.device(id) is None,
        !state.devices.contains_key(id) ==> state.device_or_fresh(sku, id) == DeviceView::fresh(
            sku,
            id,
        ),
{
}

/// Of a device that was just created nothing is known but model and id: it was found on no
/// interface, has reported nothing, was not polled, shows no scene and has no catalog.
pub proof fn law_fresh_device_is_blank(sku: Seq<char>, id: Seq<char>)
    ensures
        DeviceView::fresh(sku, id).sku == sku,
        DeviceView::fresh(sku, id).id == id,
        DeviceView::fresh(sku, id).lan_device is None,
        DeviceView::fresh(sku, id).http_device_info is None,
        DeviceView::fresh(sku, id).undoc_device_info is None,
        DeviceView::fresh(sku, id).nightlight_state is None,
        DeviceView::fresh(sku, id).lan_device_status is None,
        DeviceView::fresh(sku, id).http_device_state is None,
        DeviceView::fresh(sku, id).last_polled is None,
        DeviceView::fresh(sku, id).active_scene is None,
        DeviceView::fresh(sku, id).scene_catalog is None,
        DeviceView::fresh(sku, id).record.len() == 0,
{
}

/// A new registry holds no devices, no semaphores, no connections and no prefix, and shows degrees
/// Celsius.
pub proof fn law_new_registry_is_blank()
    ensures
        StateView::empty().order.len() == 0,
        forall|id: Seq<char>| !(#[trigger] StateView::empty().devices.contains_key(id)),
        StateView::empty().semaphores.len() == 0,
        StateView::empty().lan_client is None,
        StateView::empty().platform_client is None,
        StateView::empty().undoc_client is None,
        StateView::empty().iot_client is None,
        StateView::empty().hass_client is None,
        StateView::empty().hass_discovery_prefix.len() == 0,
        StateView::empty().temperature_scale == TemperatureScale::Celsius,
{
}

/// A registry is consistent exactly if every id of a device is registered once, no other id is,
/// and no id has two semaphores.
pub proof fn law_consistent_registry(state: StateView)
    ensures
        state.wf() <==> {
            &&& forall|i: int, j: int|
                0 <= i < j < state.order.len() ==> #[trigger] state.order[i]
                    != #[trigger] state.order[j]
            &&& forall|id: Seq<char>| #[trigger]
                state.devices.contains_key(id) <==> state.order.contains(id)
            &&& forall|i: int, j: int|
                0 <= i < j < state.semaphores.len() ==> #[trigger] state.semaphores[i]
                    != #[trigger] state.semaphores[j]
        },
{
    if forall|id: Seq<char>| #[trigger]
        state.devices.contains_key(id) <==> state.order.contains(id) {
        assert(state.devices.dom() =~= state.order.to_set());
    }
    if state.wf() {
        assert forall|id: Seq<char>| #[trigger]
            state.devices.contains_key(id) <==> state.order.contains(id) by {
            assert(state.devices.dom().contains(id) <==> state.order.to_set().contains(id));
        }
    }
}

/// A label that is no id stands for a device only if, ignoring ASCII case, it equals the device's
/// name, id, topic id, computed name or address; and no device that was registered earlier has
/// any such name.
pub proof fn law_resolved_device_has_the_label(
    state: StateView,
    names: Seq<DeviceNamesView>,
    label: Seq<char>,
)
    requires
        state.named_by(names),
        !state.devices.contains_key(label),
        state.resolved(names, label) is Some,
    ensures
        exists|i: int|
            {
                &&& 0 <= i < state.order.len()
                &&& state.resolved(names, label) == Some(state.devices[#[trigger] state.order[i]])
                &&& lower(label) == lower(names[i].name) || lower(label) == lower(
                    state.devices[state.order[i]].id,
                ) || lower(label) == lower(names[i].topic_safe_id) || lower(label) == lower(
                    names[i].computed_name,
                ) || (names[i].ip_addr is Some && lower(label) == lower(
                    names[i].ip_addr->0,
                ))
                &&& forall|j: int|
                    0 <= j < i ==> lower(label) != lower(names[j].name) && lower(label) != lower(
                        state.devices[#[trigger] state.order[j]].id,
                    ) && lower(label) != lower(names[j].topic_safe_id) && lower(label) != lower(
                        names[j].computed_name,
                    ) && !(names[j].ip_addr is Some && lower(label) == lower(names[j].ip_addr->0))
            },
{
    lemma_first_with_the_label(state, names, label, 0);
    let first = state.first_answering(names, label, 0);
    assert(state.resolved(names, label) == Some(state.devices[state.order[first]]));
}

proof fn lemma_first_with_the_label(
    state: StateView,
    names: Seq<DeviceNamesView>,
    label: Seq<char>,
    from: int,
)
    requires
        0 <= from <= state.order.len(),
    ensures
        ({
            let first = state.first_answering(names, label, from);
            &&& from <= first <= state.order.len()
            &&& first < state.order.len() ==> lower(label) == lower(names[first].name) || lower(
                label,
            ) == lower(state.devices[state.order[first]].id) || lower(label) == lower(
                names[first].topic_safe_id,
            ) || lower(label) == lower(names[first].computed_name) || names[first].ip_addr is Some
                && lower(label) == lower(names[first].ip_addr->0)
            &&& forall|j: int|
                from <= j < first ==> lower(label) != lower(names[j].name) && lower(label) != lower(
                    state.devices[#[trigger] state.order[j]].id,
                ) && lower(label) != lower(names[j].topic_safe_id) && lower(label) != lower(
                    names[j].computed_name,
                ) && !(names[j].ip_addr is Some && lower(label) == lower(names[j].ip_addr->0))
        }),
    decreases state.order.len() - from,
{
    if from < state.order.len() {
        lemma_first_with_the_label(state, names, label, from + 1);
    }
}

/// A label that is no id, and that no device has for a name, id, topic id, computed name or
/// address, ignoring ASCII case, stands for nothing.
pub proof fn law_unknown_label_stands_for_nothing(
    state: StateView,
    names: Seq<DeviceNamesView>,
    label: Seq<char>,
)
    requires
        state.named_by(names),
        !state.devices.contains_key(label),
        forall|j: int|
            0 <= j < state.order.len() ==> lower(label) != lower(names[j].name) && lower(label)
                != lower(state.devices[#[trigger] state.order[j]].id) && lower(label) != lower(
                names[j].topic_safe_id,
            ) && lower(label) != lower(names[j].computed_name) && !(names[j].ip_addr is Some
                && lower(label) == lower(names[j].ip_addr->0)),
    ensures
        state.resolved(names, label) is None,
{
    lemma_first_with_the_label(state, names, label, 0);
}

/// A label that is no id stands for the first registered device that has it, ignoring ASCII case,
/// for a name, id, topic id, computed name or address; so if only one device has it, for that one.
pub proof fn law_first_device_with_the_label_is_meant(
    state: StateView,
    names: Seq<DeviceNamesView>,
    label: Seq<char>,
    i: int,
)
    requires
        state.named_by(names),
        !state.devices.contains_key(label),
        0 <= i < state.order.len(),
        lower(label) == lower(names[i].name) || lower(label) == lower(
            state.devices[state.order[i]].id,
        ) || lower(label) == lower(names[i].topic_safe_id) || lower(label) == lower(
            names[i].computed_name,
        ) || (names[i].ip_addr is Some && lower(label) == lower(names[i].ip_addr->0)),
        forall|j: int|
            0 <= j < i ==> lower(label) != lower(names[j].name) && lower(label) != lower(
                state.devices[#[trigger] state.order[j]].id,
            ) && lower(label) != lower(names[j].topic_safe_id) && lower(label) != lower(
                names[j].computed_name,
            ) && !(names[j].ip_addr is Some && lower(label) == lower(names[j].ip_addr->0)),
    ensures
        state.resolved(names, label) == Some(state.devices[state.order[i]]),
{
    lemma_first_with_the_label(state, names, label, 0);
    let first = state.first_answering(names, label, 0);
    if first < i {
        assert(state.order[first] == state.order[first]);
    }
    if i < first {
        assert(state.order[i] == state.order[i]);
    }
}

/// An id that is asked for a semaphore gets one, at the number that is given, behind those that
/// were handed out before; devices, connections and settings stay.
pub proof fn law_semaphore_is_handed_out(state: StateView, id: Seq<char>)
    requires
        state.wf(),
    ensures
        ({
            let after = state.with_semaphore(id);
            let number = state.semaphore_of(id);
            &&& 0 <= number < after.semaphores.len()
            &&& after.semaphores[number] == id
            &&& state.semaphores.is_prefix_of(after.semaphores)
            &&& after.semaphores.len() <= state.semaphores.len() + 1
            &&& state.semaphores.contains(id) ==> after.semaphores == state.semaphores
            &&& after.order == state.order
            &&& after.devices == state.devices
            &&& after.lan_client == state.lan_client
            &&& after.platform_client == state.platform_client
            &&& after.undoc_client == state.undoc_client
            &&& after.iot_client == state.iot_client
            &&& after.hass_client == state.hass_client
            &&& after.hass_discovery_prefix == state.hass_discovery_prefix
            &&& after.temperature_scale == state.temperature_scale
        }),
{
    let after = state.with_semaphore(id);
    assert(after.semaphores.take(state.semaphores.len() as int) == state.semaphores);
    if state.semaphores.contains(id) {
        let i = state.semaphores.index_of(id);
        assert(state.semaphores[i] == id);
    } else {
        assert(after.semaphores[state.semaphores.len() as int] == id);
    }
}

/// Clearing the catalogs takes the catalog from every device, and nothing else from any.
pub proof fn law_clearing_takes_catalogs_only(state: StateView, id: Seq<char>)
    ensures
        ({
            let after = state.without_catalogs();
            &&& after.devices.contains_key(id) <==> state.devices.contains_key(id)
            &&& state.devices.contains_key(id) ==> after.devices[id].scene_catalog is None
            &&& state.devices.contains_key(id) ==> after.devices[id] == (DeviceView {
                scene_catalog: after.devices[id].scene_catalog,
                ..state.devices[id]
            })
            &&& after.order == state.order
            &&& after.semaphores == state.semaphores
            &&& after.lan_client == state.lan_client
            &&& after.platform_client == state.platform_client
            &&& after.undoc_client == state.undoc_client
            &&& after.iot_client == state.iot_client
            &&& after.hass_client == state.hass_client
            &&& after.hass_discovery_prefix == state.hass_discovery_prefix
            &&& after.temperature_scale == state.temperature_scale
        }),
{
}

} // verus!
