//! What polls mean: when a device is asked for its state, and what each reply leads to, said of
//! devices and connections themselves.
use crate::device::{DeviceFactsView, DeviceView};
use crate::error::StateErrorView;
use crate::polling::{
    iot_poll, needs_poll_after_control, platform_poll, poll_step, PollReplyView, PollStageView,
    PollTaskView,
};
use crate::registry_laws::is_update;
use crate::state::StateView;
use vstd::prelude::*;

verus! {

/// The broker is asked for a status exactly if it is connected, the account knows the device and
/// the device answers there; otherwise the device counts as not polled.
pub proof fn law_when_the_broker_is_asked(
    state: StateView,
    device: DeviceView,
    facts: DeviceFactsView,
)
    ensures
        ({
            let asked = state.iot_client is Some && device.undoc_device_info is Some
                && facts.iot_compatible;
            &&& asked ==> iot_poll(state, device, facts) == PollStageView::RequestIotStatus
            &&& !asked ==> iot_poll(state, device, facts) == (PollStageView::Finished {
                result: Ok(false),
            })
        }),
{
}

/// The platform is asked for the state exactly if it is connected, knows the device, and the device
/// is not of an unknown type; otherwise the device counts as not polled.
pub proof fn law_when_the_platform_is_asked(
    state: StateView,
    device: DeviceView,
    facts: DeviceFactsView,
)
    ensures
        ({
            let asked = state.platform_client is Some && device.http_device_info is Some && !(
            facts.device_type is Other);
            &&& asked ==> platform_poll(state, device, facts) == PollStageView::GetDeviceState
            &&& !asked ==> platform_poll(state, device, facts) == (PollStageView::Finished {
                result: Ok(false),
            })
        }),
{
}

/// After a command, a device is polled unless it reports by itself: over the local network, or
/// through the broker while that is connected. It is polled after a pause, and as it was described
/// before the pause; the pause changes nothing.
pub proof fn law_poll_after_control(
    state: StateView,
    later: StateView,
    device: DeviceView,
    facts: DeviceFactsView,
)
    ensures
        ({
            let reports = facts.pollable_via_lan || facts.pollable_via_iot && state.iot_client
                is Some;
            let described = poll_step(
                state,
                PollTaskView { device, stage: PollStageView::Describe },
                PollReplyView::Described { facts },
            );
            let resumed = poll_step(
                later,
                PollTaskView { device, stage: PollStageView::Pause { facts } },
                PollReplyView::Resumed,
            );
            let asked = later.platform_client is Some && device.http_device_info is Some && !(
            facts.device_type is Other);
            &&& needs_poll_after_control(state, facts) <==> !reports
            &&& described.0 == state
            &&& reports ==> described.1 == (PollStageView::Finished { result: Ok(false) })
            &&& !reports ==> described.1 == (PollStageView::Pause { facts })
            &&& resumed.0 == later
            &&& asked ==> resumed.1 == PollStageView::GetDeviceState
            &&& !asked ==> resumed.1 == (PollStageView::Finished { result: Ok(false) })
        }),
{
}

/// A status that was asked for marks the device as polled then, and nothing else; a request that
/// failed leaves everything as it is, and the device counts as not polled.
pub proof fn law_broker_poll_marks_the_device(
    state: StateView,
    device: DeviceView,
    reason: Seq<char>,
    now: u64,
)
    ensures
        ({
            let task = PollTaskView { device, stage: PollStageView::RequestIotStatus };
            let asked = poll_step(state, task, PollReplyView::IotRequested { result: Ok(()), now });
            let known = if state.devices.contains_key(device.id) {
                state.devices[device.id]
            } else {
                DeviceView::fresh(device.sku, device.id)
            };
            &&& is_update(
                state,
                asked.0,
                device.id,
                DeviceView { last_polled: Some(now), ..known },
            )
            &&& asked.1 == (PollStageView::Finished { result: Ok(true) })
            &&& poll_step(
                state,
                task,
                PollReplyView::IotRequested { result: Err(reason), now },
            ) == (state, PollStageView::Finished { result: Ok(false) })
        }),
{
}

/// A state that the platform gave is noted on the device with its time, and nothing else; then the
/// hub, if it is connected, is handed the device as it is. A platform that failed ends the poll
/// with its reason and changes nothing.
pub proof fn law_platform_poll_notes_the_state(
    state: StateView,
    device: DeviceView,
    report: Seq<char>,
    reason: Seq<char>,
    now: u64,
)
    ensures
        ({
            let task = PollTaskView { device, stage: PollStageView::GetDeviceState };
            let (after, stage) = poll_step(
                state,
                task,
                PollReplyView::DeviceState { result: Ok(report), now },
            );
            let known = if state.devices.contains_key(device.id) {
                state.devices[device.id]
            } else {
                DeviceView::fresh(device.sku, device.id)
            };
            &&& is_update(
                state,
                after,
                device.id,
                DeviceView { http_device_state: Some(report), last_polled: Some(now), ..known },
            )
            &&& state.hass_client is Some ==> stage == (PollStageView::Advise {
                device: after.devices[device.id],
            })
            &&& state.hass_client is None ==> stage == (PollStageView::Finished {
                result: Ok(true),
            })
            &&& poll_step(
                state,
                task,
                PollReplyView::DeviceState { result: Err(reason), now },
            ) == (
                state,
                PollStageView::Finished { result: Err(StateErrorView::CallFailed { reason }) },
            )
        }),
{
}

/// A hub that was advised ends the poll well, and one that could not be ends it with the reason;
/// neither changes the registry.
pub proof fn law_poll_ends_with_the_hub(
    state: StateView,
    device: DeviceView,
    advised: DeviceView,
    reason: Seq<char>,
)
    ensures
        ({
            let task = PollTaskView { device, stage: PollStageView::Advise { device: advised } };
            &&& poll_step(state, task, PollReplyView::Advised { result: Ok(()) }) == (
                state,
                PollStageView::Finished { result: Ok(true) },
            )
            &&& poll_step(state, task, PollReplyView::Advised { result: Err(reason) }) == (
                state,
                PollStageView::Finished { result: Err(StateErrorView::CallFailed { reason }) },
            )
        }),
{
}

/// A reply to something that the poll does not wait for changes nothing.
pub proof fn law_stray_poll_reply_changes_nothing(
    state: StateView,
    task: PollTaskView,
    reply: PollReplyView,
)
    requires
        reply is IotRequested ==> !(task.stage is RequestIotStatus),
        reply is Described ==> !(task.stage is Describe),
        reply is Resumed ==> !(task.stage is Pause),
        reply is DeviceState ==> !(task.stage is GetDeviceState),
        reply is Advised ==> !(task.stage is Advise),
    ensures
        poll_step(state, task, reply) == (state, task.stage),
{
}

} // verus!
