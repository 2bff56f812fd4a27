//! What holds of the registry and the tasks as a whole.
use crate::catalog::{
    catalog_step, fetch_begun, fetched_end, listing_begun, out_of_date, served, CatalogReplyView,
    CatalogStageView, CatalogTaskView,
};
use crate::control::{
    control_step, failed, light_route, notified, preferred_route, scene_after, scene_route,
    ControlReplyView, ControlStageView, ControlTaskView, LanPollView, LightCommand, RequestView,
    LAN_POLL_MILLIS,
};
use crate::device::{
    capability_text, platform_signature, DeviceCapabilityView, DeviceColor, DeviceFactsView,
    DeviceNamesView, DeviceView, LanDeviceStatus,
};
use crate::error::StateErrorView;
use crate::order::law_sort_ignores_order;
use crate::polling::{poll_step, PollReplyView, PollStageView, PollTaskView};
use crate::scene::{
    catalog_names, hint_of, law_first_media_wins, law_media_only_of_scenes,
    law_offered_names_idempotent, offered_names, scenes_of, LightEffectCategoryView,
    LightEffectSceneView, SceneCatalogCacheView, SceneCatalogCategoryView, SceneCatalogEntryView,
};
use crate::state::{answers_to, StateView};
use crate::text::lower;
use vstd::prelude::*;
use vstd::seq_lib::{group_to_multiset_ensures, to_multiset_insert, to_multiset_len};

verus! {

/// What is written to a device is read back, the other devices keep what they had, and the
/// registry stays consistent.
pub proof fn law_write_then_read(state: StateView, id: Seq<char>, device: DeviceView)
    requires
        state.wf(),
    ensures
        state.with_device(id, device).wf(),
        state.with_device(id, device).device(id) == Some(device),
        forall|other: Seq<char>|
            other != id ==> #[trigger] state.with_device(id, device).device(other) == state.device(
                other,
            ),
        state.order.is_prefix_of(state.with_device(id, device).order),
{
    let after = state.with_device(id, device);
    if !state.devices.contains_key(id) {
        assert(!state.order.contains(id));
        assert forall|other: Seq<char>| #[trigger]
            after.order.contains(other) <==> state.order.contains(other) || other == id by {
            if state.order.contains(other) {
                let i = choose|i: int| 0 <= i < state.order.len() && state.order[i] == other;
                assert(after.order[i] == other);
            }
            assert(after.order[state.order.len() as int] == id);
        }
        assert(after.devices.dom() == after.order.to_set());
        assert(after.order.take(state.order.len() as int) == state.order);
    } else {
        assert(state.order.contains(id));
        assert(after.devices.dom() == after.order.to_set());
        assert(after.order.take(state.order.len() as int) == state.order);
    }
}

/// Whether `after` differs from `before` in nothing but devices: none is lost, the registration
/// order only grows, and only the devices with the two ids may have changed.
pub open spec fn only_touches(
    before: StateView,
    after: StateView,
    first: Seq<char>,
    second: Seq<char>,
) -> bool {
    &&& after == (StateView { order: after.order, devices: after.devices, ..before })
    &&& before.order.is_prefix_of(after.order)
    &&& forall|id: Seq<char>| #[trigger]
        before.devices.contains_key(id) ==> after.devices.contains_key(id)
    &&& forall|id: Seq<char>|
        id != first && id != second ==> #[trigger] after.device(id) == before.device(id)
}

proof fn lemma_touches_one(
    state: StateView,
    id: Seq<char>,
    device: DeviceView,
    other: Seq<char>,
)
    requires
        state.wf(),
    ensures
        only_touches(state, state.with_device(id, device), id, other),
        only_touches(state, state.with_device(id, device), other, id),
        state.with_device(id, device).wf(),
{
    law_write_then_read(state, id, device);
}

proof fn lemma_touches_none(state: StateView, first: Seq<char>, second: Seq<char>)
    ensures
        only_touches(state, state, first, second),
{
    assert(state.order.take(state.order.len() as int) == state.order);
}

/// The id of the device that a control task polls on the local network.
pub open spec fn polled_id(task: ControlTaskView) -> Seq<char> {
    match task.stage {
        ControlStageView::QueryLan { poll } => poll.lan.device,
        ControlStageView::PauseLan { poll } => poll.lan.device,
        _ => task.device.id,
    }
}

/// A step of a control task changes no device but its own and the one it polls, loses none, and
/// leaves connections and settings alone.
pub proof fn law_control_touches_its_device(
    state: StateView,
    task: ControlTaskView,
    reply: ControlReplyView,
)
    requires
        state.wf(),
    ensures
        control_step(state, task, reply).0.wf(),
        only_touches(
            state,
            control_step(state, task, reply).0,
            task.device.id,
            polled_id(task),
        ),
{
    let id = task.device.id;
    let polled = polled_id(task);
    lemma_touches_none(state, id, polled);
    match (task.stage, reply) {
        (ControlStageView::Send { request }, ControlReplyView::Sent { result, now }) => {
            if let Some(scene) = scene_after(request) {
                let known = state.device_or_fresh(task.device.sku, id);
                lemma_touches_one(
                    state,
                    id,
                    DeviceView { active_scene: scene, ..known },
                    polled,
                );
            }
        },
        (ControlStageView::QueryLan { poll }, ControlReplyView::Status { result }) => {
            if let Ok(status) = result {
                let known = state.device_or_fresh(poll.lan.sku, poll.lan.device);
                lemma_touches_one(
                    state,
                    polled,
                    DeviceView { lan_device_status: Some(status), ..known },
                    id,
                );
            }
        },
        _ => {},
    }
}

/// A step of a poll changes no device but its own, loses none, and leaves connections and
/// settings alone.
pub proof fn law_poll_touches_its_device(
    state: StateView,
    task: PollTaskView,
    reply: PollReplyView,
)
    requires
        state.wf(),
    ensures
        poll_step(state, task, reply).0.wf(),
        only_touches(state, poll_step(state, task, reply).0, task.device.id, task.device.id),
{
    let id = task.device.id;
    let known = state.device_or_fresh(task.device.sku, id);
    lemma_touches_none(state, id, id);
    match (task.stage, reply) {
        (PollStageView::RequestIotStatus, PollReplyView::IotRequested { result, now }) => {
            lemma_touches_one(state, id, DeviceView { last_polled: Some(now), ..known }, id);
        },
        (PollStageView::GetDeviceState, PollReplyView::DeviceState { result, now }) => {
            if let Ok(report) = result {
                lemma_touches_one(
                    state,
                    id,
                    DeviceView {
                        http_device_state: Some(report),
                        last_polled: Some(now),
                        ..known
                    },
                    id,
                );
            }
        },
        _ => {},
    }
}

proof fn lemma_fetched_end_touches(
    state: StateView,
    device: DeviceView,
    fetched: SceneCatalogCacheView,
)
    requires
        state.wf(),
    ensures
        fetched_end(state, device, fetched).0.wf(),
        only_touches(state, fetched_end(state, device, fetched).0, device.id, device.id),
{
    let known = state.device_or_fresh(device.sku, device.id);
    let kept = SceneCatalogCacheView {
        platform_signature: fetched.platform_signature,
        categories: served(device, fetched),
    };
    lemma_touches_none(state, device.id, device.id);
    lemma_touches_one(
        state,
        device.id,
        DeviceView { scene_catalog: Some(kept), ..known },
        device.id,
    );
}

/// A step of a listing changes no device but its own, loses none, and leaves connections and
/// settings alone.
pub proof fn law_listing_touches_its_device(
    state: StateView,
    task: CatalogTaskView,
    reply: CatalogReplyView,
)
    requires
        state.wf(),
    ensures
        catalog_step(state, task, reply).0.wf(),
        only_touches(state, catalog_step(state, task, reply).0, task.device.id, task.device.id),
{
    let id = task.device.id;
    lemma_touches_none(state, id, id);
    assert forall|fetched: SceneCatalogCacheView| {
        &&& (#[trigger] fetched_end(state, task.device, fetched)).0.wf()
        &&& only_touches(state, fetched_end(state, task.device, fetched).0, id, id)
    } by {
        lemma_fetched_end_touches(state, task.device, fetched);
    }
}

/// A label that is the id of a device stands for that device.
pub proof fn law_id_resolves(state: StateView, names: Seq<DeviceNamesView>, id: Seq<char>)
    requires
        state.devices.contains_key(id),
    ensures
        state.resolved(names, id) == Some(state.devices[id]),
{
}

proof fn lemma_first_answering(
    state: StateView,
    names: Seq<DeviceNamesView>,
    label: Seq<char>,
    from: int,
)
    requires
        0 <= from <= state.order.len(),
    ensures
        from <= state.first_answering(names, label, from) <= state.order.len(),
        state.first_answering(names, label, from) < state.order.len() ==> answers_to(
            state.devices[state.order[state.first_answering(names, label, from)]],
            names[state.first_answering(names, label, from)],
            label,
        ),
        forall|i: int|
            from <= i < state.first_answering(names, label, from) ==> !answers_to(
                state.devices[#[trigger] state.order[i]],
                names[i],
                label,
            ),
    decreases state.order.len() - from,
{
    if from < state.order.len() {
        lemma_first_answering(state, names, label, from + 1);
    }
}

/// A label stands for a device exactly if it is an id or some device goes by it; the device that
/// it stands for has that id, or is the first that goes by the label.
pub proof fn law_resolves_if_answered(
    state: StateView,
    names: Seq<DeviceNamesView>,
    label: Seq<char>,
)
    requires
        state.wf(),
        state.named_by(names),
    ensures
        state.resolved(names, label) is Some <==> state.devices.contains_key(label) || exists|i: int|
            0 <= i < state.order.len() && answers_to(
                state.devices[#[trigger] state.order[i]],
                names[i],
                label,
            ),
        state.resolved(names, label) is Some && !state.devices.contains_key(label) ==> exists|i: int|
            {
                &&& 0 <= i < state.order.len()
                &&& state.resolved(names, label) == Some(state.devices[#[trigger] state.order[i]])
                &&& answers_to(state.devices[state.order[i]], names[i], label)
                &&& forall|j: int|
                    0 <= j < i ==> !answers_to(
                        state.devices[#[trigger] state.order[j]],
                        names[j],
                        label,
                    )
            },
{
    lemma_first_answering(state, names, label, 0);
    let first = state.first_answering(names, label, 0);
    if first < state.order.len() {
        assert(answers_to(state.devices[state.order[first]], names[first], label));
    }
}

/// Every device goes by its name, its computed name, its topic id, its id and its address where it
/// has one, in any case; the label then stands for a device, though perhaps for one that was
/// registered earlier or has the label for its id.
pub proof fn law_every_name_resolves(
    state: StateView,
    names: Seq<DeviceNamesView>,
    i: int,
    label: Seq<char>,
)
    requires
        state.wf(),
        state.named_by(names),
        0 <= i < state.order.len(),
        lower(label) == lower(names[i].name) || lower(label) == lower(names[i].computed_name)
            || lower(label) == lower(names[i].topic_safe_id) || lower(label) == lower(
            state.devices[state.order[i]].id,
        ) || (names[i].ip_addr is Some && lower(label) == lower(names[i].ip_addr->0)),
    ensures
        answers_to(state.devices[state.order[i]], names[i], label),
        state.resolved(names, label) is Some,
{
    assert(answers_to(state.devices[state.order[i]], names[i], label));
    law_resolves_if_answered(state, names, label);
}

proof fn lemma_first_answering_same(
    state: StateView,
    names: Seq<DeviceNamesView>,
    label: Seq<char>,
    other: Seq<char>,
    from: int,
)
    requires
        lower(label) == lower(other),
        0 <= from,
    ensures
        state.first_answering(names, label, from) == state.first_answering(names, other, from),
    decreases state.order.len() - from,
{
    if from < state.order.len() {
        lemma_first_answering_same(state, names, label, other, from + 1);
    }
}

/// Two labels that agree ignoring ASCII case stand for the same device, unless one of them is an
/// id.
pub proof fn law_resolve_ignores_case(
    state: StateView,
    names: Seq<DeviceNamesView>,
    label: Seq<char>,
    other: Seq<char>,
)
    requires
        lower(label) == lower(other),
        !state.devices.contains_key(label),
        !state.devices.contains_key(other),
    ensures
        state.resolved(names, label) == state.resolved(names, other),
{
    lemma_first_answering_same(state, names, label, other, 0);
}

/// Two devices are controlled by the same semaphore exactly if they have the same id, and handing
/// one out changes none that was handed out before.
pub proof fn law_one_semaphore_per_device(state: StateView, first: Seq<char>, second: Seq<char>)
    requires
        state.wf(),
    ensures
        state.with_semaphore(first).wf(),
        state.with_semaphore(first).semaphore_of(first) == state.semaphore_of(first),
        state.with_semaphore(first).semaphore_of(second) == state.semaphore_of(first) <==> first
            == second,
        state.semaphores.contains(second) ==> state.with_semaphore(first).semaphore_of(second)
            == state.semaphore_of(second),
{
    let before = state.semaphores;
    let after = state.with_semaphore(first).semaphores;
    assert forall|id: Seq<char>| #[trigger]
        after.contains(id) <==> before.contains(id) || id == first by {
        if before.contains(id) {
            let i = choose|i: int| 0 <= i < before.len() && before[i] == id;
            assert(after[i] == id);
        }
        if !before.contains(first) {
            assert(after[before.len() as int] == first);
        }
    }
    assert(after.no_duplicates());
    if before.contains(second) {
        let i = before.index_of(second);
        assert(before[i] == second && after[i] == second);
        assert(after.index_of(second) == i);
    }
    if before.contains(first) {
        let i = before.index_of(first);
        assert(before[i] == first && after[i] == first);
        assert(after.index_of(first) == i);
    } else {
        assert(after[before.len() as int] == first);
        assert(after.index_of(first) == before.len());
    }
    if after.contains(second) {
        assert(after[after.index_of(second)] == second);
    }
}

/// Without kept catalogs, every listing fetches one; nothing but the catalogs is lost.
pub proof fn law_cleared_catalogs_are_fetched_anew(state: StateView, device: DeviceView)
    requires
        state.wf(),
        state.devices.contains_key(device.id),
    ensures
        state.without_catalogs().wf(),
        state.without_catalogs().device(device.id) == Some(
            DeviceView { scene_catalog: None, ..state.devices[device.id] },
        ),
        listing_begun(state.without_catalogs(), device).stage == fetch_begun(
            state,
            state.devices[device.id],
        ),
{
    assert(state.without_catalogs().devices.dom() == state.devices.dom());
}

/// A call that fails ends a control task with its reason and changes nothing.
pub proof fn law_failed_call_changes_nothing(
    state: StateView,
    task: ControlTaskView,
    reason: Seq<char>,
    now: u64,
)
    ensures
        task.stage is Send ==> control_step(
            state,
            task,
            ControlReplyView::Sent { result: Err(reason), now },
        ) == (state, failed(StateErrorView::CallFailed { reason })),
        task.stage is QueryLan ==> control_step(
            state,
            task,
            ControlReplyView::Status { result: Err(reason) },
        ) == (state, failed(StateErrorView::CallFailed { reason })),
        task.stage is Advise ==> control_step(
            state,
            task,
            ControlReplyView::Advised { result: Err(reason) },
        ) == (state, failed(StateErrorView::CallFailed { reason })),
{
}

/// Once finished, a task stays as it is and does nothing more.
pub proof fn law_finished_tasks_rest(
    state: StateView,
    control: ControlTaskView,
    control_reply: ControlReplyView,
    poll: PollTaskView,
    poll_reply: PollReplyView,
    listing: CatalogTaskView,
    listing_reply: CatalogReplyView,
)
    ensures
        control.stage is Finished ==> control_step(state, control, control_reply) == (
            state,
            control.stage,
        ),
        poll.stage is Finished ==> poll_step(state, poll, poll_reply) == (state, poll.stage),
        listing.stage is Finished ==> catalog_step(state, listing, listing_reply) == (
            state,
            listing.stage,
        ),
{
}

/// Whether a control task has not sent its request yet.
pub open spec fn before_sending(stage: ControlStageView) -> bool {
    stage is EncodeNightlight || stage is EncodeMode || stage is Send
}

/// A command sends at most one request: once a request was sent, well or not, no reply leads back
/// to a stage before it.
pub proof fn law_one_request_per_command(
    state: StateView,
    task: ControlTaskView,
    reply: ControlReplyView,
)
    ensures
        !before_sending(task.stage) ==> !before_sending(control_step(state, task, reply).1),
        task.stage is Send && reply is Sent ==> !before_sending(
            control_step(state, task, reply).1,
        ),
{
}

/// A command that every interface takes is refused only if no interface reaches the device, and
/// it goes over the local network whenever the device was found there.
pub proof fn law_refused_only_if_unreachable(
    state: StateView,
    device: DeviceView,
    facts: DeviceFactsView,
    lan: RequestView,
    iot: RequestView,
    platform: RequestView,
    unable: StateErrorView,
)
    ensures
        preferred_route(state, device, facts, lan, iot, platform, unable) == failed(unable) <==> {
            &&& device.lan_device is None
            &&& !(facts.iot_api_supported && state.reaches_via_iot(device))
            &&& !state.reaches_via_platform(device)
        },
        device.lan_device is Some ==> preferred_route(state, device, facts, lan, iot, platform, unable)
            == (ControlStageView::Send { request: lan }),
{
}

/// A colour for a device that is animating to music goes to the platform whenever that reaches
/// the device, and otherwise where it would go without the music.
pub proof fn law_color_in_music_mode(
    state: StateView,
    device: DeviceView,
    facts: DeviceFactsView,
    color: DeviceColor,
)
    requires
        facts.music_mode_active == Some(true),
    ensures
        state.reaches_via_platform(device) ==> light_route(
            state,
            device,
            facts,
            LightCommand::ColorRgb { color },
        ) == (ControlStageView::Send { request: RequestView::PlatformSetColorRgb { color } }),
        !state.reaches_via_platform(device) ==> light_route(
            state,
            device,
            facts,
            LightCommand::ColorRgb { color },
        ) == light_route(
            state,
            device,
            DeviceFactsView { music_mode_active: None, ..facts },
            LightCommand::ColorRgb { color },
        ),
{
}

/// The registry once a request to a device went through.
pub open spec fn after_sending(
    state: StateView,
    device: DeviceView,
    request: RequestView,
    now: u64,
) -> StateView {
    control_step(
        state,
        ControlTaskView { device, stage: ControlStageView::Send { request } },
        ControlReplyView::Sent { result: Ok(()), now },
    ).0
}

/// Whether the device with an id is registered as showing a scene, or none.
pub open spec fn shows(state: StateView, id: Seq<char>, scene: Option<Seq<char>>) -> bool {
    state.device(id) is Some && state.device(id)->0.active_scene == scene
}

/// Whichever interface takes a colour or a colour temperature, the device shows no scene after.
pub proof fn law_color_ends_the_scene(
    state: StateView,
    device: DeviceView,
    facts: DeviceFactsView,
    color: DeviceColor,
    kelvin: u32,
    now: u64,
)
    ensures
        light_route(state, device, facts, LightCommand::ColorRgb { color }) matches ControlStageView::Send {
            request,
        } ==> shows(after_sending(state, device, request, now), device.id, None),
        preferred_route(
            state,
            device,
            facts,
            RequestView::LanColorTemperatureKelvin { kelvin },
            RequestView::IotSetColorTemperature { kelvin },
            RequestView::PlatformSetColorTemperature { kelvin },
            StateErrorView::UnableToControlColorTemperature,
        ) matches ControlStageView::Send { request } ==> shows(
            after_sending(state, device, request, now),
            device.id,
            None,
        ),
{
}

/// Whichever interface takes a scene, the device shows that scene after.
pub proof fn law_scene_begins(
    state: StateView,
    device: DeviceView,
    facts: DeviceFactsView,
    scene: Seq<char>,
    now: u64,
)
    ensures
        scene_route(state, device, facts, scene) matches ControlStageView::Send { request } ==> shows(
            after_sending(state, device, request, now),
            device.id,
            Some(scene),
        ),
{
}

/// A packet for the night light changes nothing that is known of the device.
pub proof fn law_packet_changes_nothing(
    state: StateView,
    device: DeviceView,
    packet: Seq<char>,
    now: u64,
)
    ensures
        after_sending(state, device, RequestView::IotSendReal { command: packet }, now) == state,
{
}

/// A status that a device gave on the local network is noted, and its task cannot end for want of
/// the device.
pub proof fn law_status_is_noted(
    state: StateView,
    device: DeviceView,
    poll: LanPollView,
    status: LanDeviceStatus,
)
    ensures
        ({
            let (after, stage) = control_step(
                state,
                ControlTaskView { device, stage: ControlStageView::QueryLan { poll } },
                ControlReplyView::Status { result: Ok(status) },
            );
            &&& after.device(poll.lan.device) is Some
            &&& after.device(poll.lan.device)->0.lan_device_status == Some(status)
            &&& stage != failed(StateErrorView::DeviceNotFound { id: poll.lan.device })
        }),
{
}

/// A poll on the local network that a command begins lasts until five seconds after the command,
/// and no question is asked later than that.
pub proof fn law_poll_keeps_its_deadline(
    state: StateView,
    device: DeviceView,
    request: RequestView,
    poll: LanPollView,
    sent: u64,
    now: u64,
)
    requires
        sent + LAN_POLL_MILLIS <= u64::MAX,
    ensures
        ({
            let begun = control_step(
                state,
                ControlTaskView { device, stage: ControlStageView::Send { request } },
                ControlReplyView::Sent { result: Ok(()), now: sent },
            ).1;
            let resumed = control_step(
                state,
                ControlTaskView { device, stage: ControlStageView::PauseLan { poll } },
                ControlReplyView::Resumed { now },
            ).1;
            &&& begun is QueryLan ==> begun->QueryLan_poll.deadline == sent + 5000
            &&& now <= poll.deadline ==> resumed == ControlStageView::QueryLan { poll }
            &&& now > poll.deadline ==> resumed == notified(state, poll.lan.device)
        }),
{
}

/// When a device took a colour on the local network, its scene is over before it is polled, and
/// no answer and no pause of the poll brings it back: the hub is advised of a device without a
/// scene and, where the poll succeeds, with the status that shows the colour.
pub proof fn law_scene_is_gone_before_the_hub_knows(
    state: StateView,
    device: DeviceView,
    request: RequestView,
    sent: u64,
    later: StateView,
    poll: LanPollView,
    status: LanDeviceStatus,
    now: u64,
)
    requires
        device.lan_device is Some && device.lan_device->0.device == device.id,
        request is LanColorRgb || request is LanColorTemperatureKelvin,
        poll.lan == device.lan_device->0,
    ensures
        shows(after_sending(state, device, request, sent), device.id, None),
        shows(later, device.id, None) ==> {
            let (after, stage) = control_step(
                later,
                ControlTaskView { device, stage: ControlStageView::QueryLan { poll } },
                ControlReplyView::Status { result: Ok(status) },
            );
            &&& shows(after, device.id, None)
            &&& stage matches ControlStageView::Advise { device: advised } ==> advised.active_scene
                is None && advised.lan_device_status == Some(status)
        },
        shows(later, device.id, None) ==> {
            let (after, stage) = control_step(
                later,
                ControlTaskView { device, stage: ControlStageView::PauseLan { poll } },
                ControlReplyView::Resumed { now },
            );
            &&& after == later
            &&& stage matches ControlStageView::Advise { device: advised } ==> advised.active_scene
                is None
        },
{
}

/// A poll that went through is noted with its time; one that failed is not.
pub proof fn law_poll_is_noted(
    state: StateView,
    device: DeviceView,
    report: Seq<char>,
    reason: Seq<char>,
    now: u64,
)
    ensures
        ({
            let task = PollTaskView { device, stage: PollStageView::RequestIotStatus };
            let ok = poll_step(state, task, PollReplyView::IotRequested { result: Ok(()), now });
            let err = poll_step(
                state,
                task,
                PollReplyView::IotRequested { result: Err(reason), now },
            );
            &&& ok.0.device(device.id) is Some
            &&& ok.0.device(device.id)->0.last_polled == Some(now)
            &&& err.0 == state
        }),
        ({
            let task = PollTaskView { device, stage: PollStageView::GetDeviceState };
            let ok = poll_step(
                state,
                task,
                PollReplyView::DeviceState { result: Ok(report), now },
            );
            let err = poll_step(
                state,
                task,
                PollReplyView::DeviceState { result: Err(reason), now },
            );
            &&& ok.0.device(device.id) is Some
            &&& ok.0.device(device.id)->0.last_polled == Some(now)
            &&& ok.0.device(device.id)->0.http_device_state == Some(report)
            &&& !(ok.1 matches PollStageView::Finished { result } && result is Err)
            &&& err.0 == state
        }),
{
}

/// A listing for which something other than an empty catalog was kept never fails and never comes
/// back empty.
pub proof fn law_kept_scenes_are_not_lost(
    state: StateView,
    task: CatalogTaskView,
    reply: CatalogReplyView,
)
    requires
        task.device.scene_catalog is Some,
        task.device.scene_catalog->0.categories.len() > 0,
        !(task.stage is Finished),
    ensures
        catalog_step(state, task, reply).1 matches CatalogStageView::Finished { result } ==> result
            is Ok && result->Ok_0.len() > 0,
{
}

/// A listing that fetched a catalog settles: the next one gives the same scenes without fetching,
/// as long as the platform knows nothing new of the device.
pub proof fn law_listing_settles(state: StateView, task: CatalogTaskView, reply: CatalogReplyView)
    requires
        task.stage matches CatalogStageView::FetchMedia { signature, .. } ==> signature == (
        if state.platform_client is Some {
            platform_signature(task.device)
        } else {
            None
        }),
        task.stage matches CatalogStageView::FetchScenes { signature } ==> signature == (
        if state.platform_client is Some {
            platform_signature(task.device)
        } else {
            None
        }),
        task.stage is FetchMedia || task.stage is FetchScenes,
        reply is Scenes,
        state.device(task.device.id) matches Some(known) ==> known.http_device_info
            == task.device.http_device_info,
    ensures
        ({
            let (after, stage) = catalog_step(state, task, reply);
            &&& stage is Finished
            &&& stage->result is Ok
            &&& stage->result->Ok_0.len() > 0 ==> listing_begun(after, task.device).stage == stage
        }),
{
    let (after, stage) = catalog_step(state, task, reply);
    let categories = stage->result->Ok_0;
    if categories.len() > 0 {
        let known = state.device_or_fresh(task.device.sku, task.device.id);
        let device = after.devices[task.device.id];
        assert(after.device(task.device.id) == Some(device));
        assert(device.http_device_info == known.http_device_info);
        assert(device.scene_catalog->0.categories == categories);
        assert(!out_of_date(after, device, device.scene_catalog->0));
    }
}

/// The end of a listing of a device's scenes, begun and answered without anything in between: the
/// platform gives `names` if it is asked, and the scene library gives `scenes` if it is.
pub open spec fn listing_run(
    state: StateView,
    device: DeviceView,
    names: Seq<Seq<char>>,
    scenes: Result<Seq<LightEffectCategoryView>, Seq<char>>,
) -> (StateView, CatalogStageView) {
    let task = listing_begun(state, device);
    let (later, stage) = catalog_step(state, task, CatalogReplyView::Names { result: Ok(names) });
    catalog_step(
        later,
        CatalogTaskView { device: task.device, stage },
        CatalogReplyView::Scenes { result: scenes },
    )
}

/// A whole listing settles: once it ended with scenes, the next listing of the same device gives
/// the same scenes without asking anyone, where the device is kept under its own id.
pub proof fn law_whole_listing_settles(
    state: StateView,
    device: DeviceView,
    names: Seq<Seq<char>>,
    scenes: Result<Seq<LightEffectCategoryView>, Seq<char>>,
)
    requires
        state.device(device.id) matches Some(known) ==> known.id == device.id,
    ensures
        ({
            let (after, end) = listing_run(state, device, names, scenes);
            &&& end is Finished
            &&& end->result is Ok
            &&& end->result->Ok_0.len() > 0 ==> listing_begun(after, device).stage == end
        }),
{
    let task = listing_begun(state, device);
    let reply = CatalogReplyView::Scenes { result: scenes };
    let (later, stage) = catalog_step(state, task, CatalogReplyView::Names { result: Ok(names) });
    if !(task.stage is Finished) {
        law_listing_settles(later, CatalogTaskView { device: task.device, stage }, reply);
    }
}

/// Where the platform gives names, the scenes that are listed are exactly those names, whatever
/// the scene library says.
pub proof fn law_platform_names_are_listed(
    state: StateView,
    later: StateView,
    device: DeviceView,
    signature: Option<Seq<char>>,
    names: Seq<Seq<char>>,
    reply: CatalogReplyView,
)
    requires
        offered_names(names).len() > 0,
        reply is Scenes,
    ensures
        ({
            let stage = catalog_step(
                state,
                CatalogTaskView { device, stage: CatalogStageView::ListSceneNames { signature } },
                CatalogReplyView::Names { result: Ok(names) },
            ).1;
            let end = catalog_step(later, CatalogTaskView { device, stage }, reply).1;
            &&& stage is FetchMedia
            &&& end is Finished
            &&& end->result is Ok
            &&& catalog_names(end->result->Ok_0) == offered_names(names)
            &&& offered_names(catalog_names(end->result->Ok_0)) == offered_names(names)
        }),
{
    let stage = catalog_step(
        state,
        CatalogTaskView { device, stage: CatalogStageView::ListSceneNames { signature } },
        CatalogReplyView::Names { result: Ok(names) },
    ).1;
    let end = catalog_step(later, CatalogTaskView { device, stage }, reply).1;
    let categories = end->result->Ok_0;
    assert(categories.len() == 1);
    assert(categories.drop_last() == Seq::<SceneCatalogCategoryView>::empty());
    assert(catalog_names(categories.drop_last()) == Seq::<Seq<char>>::empty());
    assert(categories.last().scenes.map_values(|scene: SceneCatalogEntryView| scene.name)
        == offered_names(names));
    assert(catalog_names(categories) == offered_names(names));
    law_offered_names_idempotent(names);
}

/// A platform name is illustrated by the first scene of the library with that name, ignoring
/// ASCII case, and stays without icons and hint if there is none.
pub proof fn law_platform_names_are_illustrated(
    state: StateView,
    device: DeviceView,
    signature: Option<Seq<char>>,
    names: Seq<Seq<char>>,
    library: Seq<LightEffectCategoryView>,
    n: int,
    i: int,
)
    requires
        0 <= n < names.len(),
    ensures
        ({
            let end = catalog_step(
                state,
                CatalogTaskView {
                    device,
                    stage: CatalogStageView::FetchMedia { signature, names },
                },
                CatalogReplyView::Scenes { result: Ok(library) },
            ).1;
            let entry = end->result->Ok_0[0].scenes[n];
            let scenes = scenes_of(library);
            &&& entry.name == names[n]
            &&& i < scenes.len() && is_first_named(scenes, names[n], i) ==> entry.icon_urls
                == scenes[i].icon_urls && entry.hint == hint_of(scenes[i].scenes_hint)
            &&& is_first_named(scenes, names[n], scenes.len() as int) ==> entry.icon_urls.len() == 0
                && entry.hint is None
        }),
{
    let scenes = scenes_of(library);
    if is_first_named(scenes, names[n], i) && i < scenes.len() {
        law_first_media_wins(scenes, i);
    }
    law_media_only_of_scenes(scenes);
}

/// Whether `i` is the position of the first scene with a name, ignoring ASCII case, or the number
/// of scenes if none has the name.
pub open spec fn is_first_named(
    scenes: Seq<LightEffectSceneView>,
    name: Seq<char>,
    i: int,
) -> bool {
    &&& 0 <= i <= scenes.len()
    &&& i < scenes.len() ==> lower(scenes[i].scene_name) == lower(name)
    &&& forall|j: int| 0 <= j < i ==> lower((#[trigger] scenes[j]).scene_name) != lower(name)
}

/// Kind and instance of the capabilities, in order.
pub open spec fn kinds_and_instances(capabilities: Seq<DeviceCapabilityView>) -> Seq<
    (Seq<char>, Seq<char>),
> {
    capabilities.map_values(|c: DeviceCapabilityView| (c.kind, c.instance))
}

spec fn pair_text(pair: (Seq<char>, Seq<char>)) -> Seq<char> {
    pair.0 + ":"@ + pair.1
}

proof fn lemma_texts_permuted(
    pairs: Seq<(Seq<char>, Seq<char>)>,
    other: Seq<(Seq<char>, Seq<char>)>,
)
    requires
        pairs.to_multiset() == other.to_multiset(),
    ensures
        pairs.map_values(|p: (Seq<char>, Seq<char>)| pair_text(p)).to_multiset()
            == other.map_values(|p: (Seq<char>, Seq<char>)| pair_text(p)).to_multiset(),
    decreases pairs.len(),
{
    broadcast use group_to_multiset_ensures;
    broadcast use vstd::multiset::group_multiset_axioms;

    let text = |p: (Seq<char>, Seq<char>)| pair_text(p);
    to_multiset_len(pairs);
    to_multiset_len(other);
    if pairs.len() > 0 {
        let front = pairs.drop_last();
        let last = pairs.last();
        assert(pairs == front.push(last));
        assert(other.to_multiset().contains(last));
        let i = choose|i: int| 0 <= i < other.len() && other[i] == last;
        let rest = other.remove(i);
        assert(front.to_multiset() =~= pairs.to_multiset().remove(last));
        lemma_texts_permuted(front, rest);
        assert(pairs.map_values(text) == front.map_values(text).push(text(last)));
        assert(other.map_values(text) == rest.map_values(text).insert(i, text(last)));
        to_multiset_insert(rest.map_values(text), i, text(last));
    } else {
        assert(pairs == other);
    }
}

/// Of what the platform knows of a device, nothing counts for its signature but model, id, and kind
/// and instance of each capability, in whatever order they are listed: a kept catalog is not out
/// of date because of anything else.
pub proof fn law_signature_ignores_capability_order(
    device: DeviceView,
    other: DeviceView,
    state: StateView,
    cache: SceneCatalogCacheView,
)
    requires
        device.http_device_info is Some,
        other.http_device_info is Some,
        device.http_device_info->0.sku == other.http_device_info->0.sku,
        device.http_device_info->0.device == other.http_device_info->0.device,
        kinds_and_instances(device.http_device_info->0.capabilities).to_multiset()
            == kinds_and_instances(other.http_device_info->0.capabilities).to_multiset(),
    ensures
        platform_signature(device) == platform_signature(other),
        out_of_date(state, device, cache) == out_of_date(state, other, cache),
{
    let capabilities = device.http_device_info->0.capabilities;
    let others = other.http_device_info->0.capabilities;
    let text = |p: (Seq<char>, Seq<char>)| pair_text(p);
    let texts = capabilities.map_values(|c: DeviceCapabilityView| capability_text(c));
    let other_texts = others.map_values(|c: DeviceCapabilityView| capability_text(c));
    lemma_texts_permuted(kinds_and_instances(capabilities), kinds_and_instances(others));
    assert(texts == kinds_and_instances(capabilities).map_values(text));
    assert(other_texts == kinds_and_instances(others).map_values(text));
    law_sort_ignores_order(texts, other_texts);
}

} // verus!
