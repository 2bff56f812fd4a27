//! What commands mean: which interface a command goes to, what the request carries, and what each
//! reply leads to, said of devices and connections themselves.
use crate::control::{
    control_step, light_route, low_byte, nightlight_params, platform_route, preferred_route,
    scene_route, ControlReplyView, ControlStageView, ControlTaskView, LanExpectation, LanPollView,
    LightCommand, RequestView,
};
use crate::device::{
    DeviceColor, DeviceFactsView, DeviceView, LanDeviceStatus, SetHumidifierNightlightParams,
};
use crate::error::StateErrorView;
use crate::registry_laws::is_update;
use crate::state::StateView;
use vstd::prelude::*;

verus! {

/// A command with a form for each interface takes the form of the interface that it goes to: the
/// local network for a device that was found there, else the message broker if the device takes
/// commands there and both the broker and the entry in the account are known, else the platform if
/// it is connected and knows the device. It is refused if there is none of these.
pub proof fn law_nearest_interface(
    state: StateView,
    device: DeviceView,
    facts: DeviceFactsView,
    lan: RequestView,
    iot: RequestView,
    platform: RequestView,
    unable: StateErrorView,
)
    ensures
        ({
            let stage = preferred_route(state, device, facts, lan, iot, platform, unable);
            let broker = facts.iot_api_supported && state.iot_client is Some
                && device.undoc_device_info is Some;
            let cloud = state.platform_client is Some && device.http_device_info is Some;
            &&& device.lan_device is Some ==> stage == (ControlStageView::Send { request: lan })
            &&& device.lan_device is None && broker ==> stage == (ControlStageView::Send {
                request: iot,
            })
            &&& device.lan_device is None && !broker && cloud ==> stage == (
            ControlStageView::Send { request: platform })
            &&& device.lan_device is None && !broker && !cloud ==> stage == (
            ControlStageView::Finished { result: Err(unable) })
        }),
{
}

/// A command that only the platform takes goes there if the platform is connected and knows the
/// device, wherever else the device was found, and is refused otherwise.
pub proof fn law_platform_commands(
    state: StateView,
    device: DeviceView,
    request: RequestView,
    unable: StateErrorView,
)
    ensures
        state.platform_client is Some && device.http_device_info is Some ==> platform_route(
            state,
            device,
            request,
            unable,
        ) == (ControlStageView::Send { request }),
        state.platform_client is None || device.http_device_info is None ==> platform_route(
            state,
            device,
            request,
            unable,
        ) == (ControlStageView::Finished { result: Err(unable) }),
{
}

/// A night light packet goes out whenever there is one, the message broker is connected and the
/// account knows the device, whatever the light command and wherever else the device was found;
/// nothing is noted yet.
pub proof fn law_packet_goes_first(
    state: StateView,
    device: DeviceView,
    params: SetHumidifierNightlightParams,
    command: LightCommand,
    facts: DeviceFactsView,
    packet: Seq<char>,
)
    requires
        state.iot_client is Some,
        device.undoc_device_info is Some,
    ensures
        control_step(
            state,
            ControlTaskView {
                device,
                stage: ControlStageView::EncodeNightlight { params, command, facts },
            },
            ControlReplyView::Encoded { command: Some(packet) },
        ) == (
            state,
            ControlStageView::Send { request: RequestView::IotSendReal { command: packet } },
        ),
{
}

/// The stage that a light command comes to for which there is no packet, or no way to send one.
pub open spec fn without_packet(
    state: StateView,
    device: DeviceView,
    params: SetHumidifierNightlightParams,
    command: LightCommand,
    facts: DeviceFactsView,
    packet: Option<Seq<char>>,
) -> (StateView, ControlStageView) {
    control_step(
        state,
        ControlTaskView {
            device,
            stage: ControlStageView::EncodeNightlight { params, command, facts },
        },
        ControlReplyView::Encoded { command: packet },
    )
}

/// A command to switch only the light carries the value of the switch to whichever interface takes
/// it: a turn on the local network, a power command on the broker, or the device's own toggle on
/// the platform. Without such a toggle it is refused, whatever interface there is.
pub proof fn law_light_power_carries_the_switch(
    state: StateView,
    device: DeviceView,
    facts: DeviceFactsView,
    params: SetHumidifierNightlightParams,
    packet: Option<Seq<char>>,
    on: bool,
)
    requires
        packet is None || state.iot_client is None || device.undoc_device_info is None,
    ensures
        ({
            let (after, stage) = without_packet(
                state,
                device,
                params,
                LightCommand::Power { on },
                facts,
                packet,
            );
            let toggle = facts.light_power_toggle_instance_name;
            let broker = facts.iot_api_supported && state.iot_client is Some
                && device.undoc_device_info is Some;
            let cloud = state.platform_client is Some && device.http_device_info is Some;
            &&& after == state
            &&& toggle is None ==> stage == (ControlStageView::Finished {
                result: Err(StateErrorView::UnsupportedLightPower),
            })
            &&& toggle is Some && device.lan_device is Some ==> stage == (ControlStageView::Send {
                request: RequestView::LanTurn { on },
            })
            &&& toggle is Some && device.lan_device is None && broker ==> stage == (
            ControlStageView::Send { request: RequestView::IotSetPower { on } })
            &&& toggle is Some && device.lan_device is None && !broker && cloud ==> stage == (
            ControlStageView::Send {
                request: RequestView::PlatformSetToggle { instance: toggle->0, on },
            })
            &&& toggle is Some && device.lan_device is None && !broker && !cloud ==> stage == (
            ControlStageView::Finished { result: Err(StateErrorView::UnableToControlLightPower) })
        }),
{
}

/// A brightness is carried as it was commanded to whichever interface takes it.
pub proof fn law_brightness_is_carried(
    state: StateView,
    device: DeviceView,
    facts: DeviceFactsView,
    params: SetHumidifierNightlightParams,
    packet: Option<Seq<char>>,
    percent: u8,
)
    requires
        packet is None || state.iot_client is None || device.undoc_device_info is None,
    ensures
        ({
            let (after, stage) = without_packet(
                state,
                device,
                params,
                LightCommand::Brightness { percent },
                facts,
                packet,
            );
            let broker = facts.iot_api_supported && state.iot_client is Some
                && device.undoc_device_info is Some;
            let cloud = state.platform_client is Some && device.http_device_info is Some;
            &&& after == state
            &&& device.lan_device is Some ==> stage == (ControlStageView::Send {
                request: RequestView::LanBrightness { percent },
            })
            &&& device.lan_device is None && broker ==> stage == (ControlStageView::Send {
                request: RequestView::IotSetBrightness { percent },
            })
            &&& device.lan_device is None && !broker && cloud ==> stage == (
            ControlStageView::Send { request: RequestView::PlatformSetBrightness { percent } })
            &&& device.lan_device is None && !broker && !cloud ==> stage == (
            ControlStageView::Finished { result: Err(StateErrorView::UnableToControlBrightness) })
        }),
{
}

/// A colour is carried as it was commanded to whichever interface takes it. While the device is
/// animating to music that is the platform, if it is connected and knows the device; otherwise it
/// is the nearest interface.
pub proof fn law_color_is_carried(
    state: StateView,
    device: DeviceView,
    facts: DeviceFactsView,
    params: SetHumidifierNightlightParams,
    packet: Option<Seq<char>>,
    color: DeviceColor,
)
    requires
        packet is None || state.iot_client is None || device.undoc_device_info is None,
    ensures
        ({
            let (after, stage) = without_packet(
                state,
                device,
                params,
                LightCommand::ColorRgb { color },
                facts,
                packet,
            );
            let broker = facts.iot_api_supported && state.iot_client is Some
                && device.undoc_device_info is Some;
            let cloud = state.platform_client is Some && device.http_device_info is Some;
            let dancing = facts.music_mode_active == Some(true) && cloud;
            &&& after == state
            &&& dancing ==> stage == (ControlStageView::Send {
                request: RequestView::PlatformSetColorRgb { color },
            })
            &&& !dancing && device.lan_device is Some ==> stage == (ControlStageView::Send {
                request: RequestView::LanColorRgb { color },
            })
            &&& !dancing && device.lan_device is None && broker ==> stage == (
            ControlStageView::Send { request: RequestView::IotSetColorRgb { color } })
            &&& device.lan_device is None && !broker && cloud ==> stage == (
            ControlStageView::Send { request: RequestView::PlatformSetColorRgb { color } })
            &&& device.lan_device is None && !broker && !cloud ==> stage == (
            ControlStageView::Finished { result: Err(StateErrorView::UnableToControlColor) })
        }),
{
}

/// A light command that is not sent as a packet goes where its route says.
pub proof fn law_route_is_followed(
    state: StateView,
    device: DeviceView,
    facts: DeviceFactsView,
    params: SetHumidifierNightlightParams,
    command: LightCommand,
)
    ensures
        without_packet(state, device, params, command, facts, None) == (
            state,
            light_route(state, device, facts, command),
        ),
{
}

/// A scene goes to the platform if it is connected, knows the device and is not to be avoided for
/// it; else over the local network if the device was found there. It is refused exactly if neither
/// holds. Either request carries the scene.
pub proof fn law_scene_is_carried(
    state: StateView,
    device: DeviceView,
    facts: DeviceFactsView,
    scene: Seq<char>,
)
    ensures
        ({
            let stage = scene_route(state, device, facts, scene);
            let cloud = !facts.avoid_platform_api && state.platform_client is Some
                && device.http_device_info is Some;
            &&& cloud ==> stage == (ControlStageView::Send {
                request: RequestView::PlatformSetSceneByName { scene },
            })
            &&& !cloud && device.lan_device is Some ==> stage == (ControlStageView::Send {
                request: RequestView::LanSceneByName { scene },
            })
            &&& stage == (ControlStageView::Finished {
                result: Err(StateErrorView::UnableToSetScene),
            }) <==> !cloud && device.lan_device is None
        }),
{
}

/// A work mode goes out as a packet if there is one and the broker and the account know of the
/// device; else the platform gets mode and value as they were commanded; else it is refused, by
/// naming the mode.
pub proof fn law_work_mode_is_carried(
    state: StateView,
    device: DeviceView,
    mode: u8,
    param: u8,
    work_mode: i64,
    value: i64,
    packet: Option<Seq<char>>,
)
    ensures
        ({
            let (after, stage) = control_step(
                state,
                ControlTaskView {
                    device,
                    stage: ControlStageView::EncodeMode { mode, param, work_mode, value },
                },
                ControlReplyView::Encoded { command: packet },
            );
            let broker = packet is Some && state.iot_client is Some && device.undoc_device_info
                is Some;
            let cloud = state.platform_client is Some && device.http_device_info is Some;
            &&& after == state
            &&& broker ==> stage == (ControlStageView::Send {
                request: RequestView::IotSendReal { command: packet->0 },
            })
            &&& !broker && cloud ==> stage == (ControlStageView::Send {
                request: RequestView::PlatformSetWorkMode { work_mode, value },
            })
            &&& !broker && !cloud ==> stage == (ControlStageView::Finished {
                result: Err(StateErrorView::UnableToControlHumidifier { work_mode }),
            })
        }),
{
}

/// The byte that a number is cut to differs from the number by a multiple of 256.
pub proof fn law_low_byte(n: i64)
    ensures
        (n - low_byte(n)) % 256 == 0,
{
}

/// The night light settings that a command sends keep what the device reported and the command
/// does not speak of. A power command keeps brightness and colour; a brightness keeps the colour
/// and a colour keeps the brightness, and both switch the night light on. What was not reported is
/// taken to be off, dark and black.
pub proof fn law_nightlight_keeps_what_was_reported(
    device: DeviceView,
    on: bool,
    percent: u8,
    color: DeviceColor,
)
    ensures
        ({
            let power = nightlight_params(device, LightCommand::Power { on });
            let bright = nightlight_params(device, LightCommand::Brightness { percent });
            let colored = nightlight_params(device, LightCommand::ColorRgb { color });
            &&& power.on == on
            &&& bright.on && bright.brightness == percent
            &&& colored.on && colored.r == color.r && colored.g == color.g && colored.b == color.b
            &&& device.nightlight_state matches Some(reported) ==> {
                &&& power.brightness == reported.brightness
                &&& power.r == reported.r && power.g == reported.g && power.b == reported.b
                &&& bright.r == reported.r && bright.g == reported.g && bright.b == reported.b
                &&& colored.brightness == reported.brightness
            }
            &&& device.nightlight_state is None ==> {
                &&& power.brightness == 0 && power.r == 0 && power.g == 0 && power.b == 0
                &&& bright.r == 0 && bright.g == 0 && bright.b == 0
                &&& colored.brightness == 0
            }
        }),
{
}

/// What a device shows once it took a request is noted, and nothing else: a colour or a colour
/// temperature ends its scene on every interface, a scene begins on either interface that takes
/// one, and any other request leaves the registry as it is.
pub proof fn law_taken_request_is_noted(
    state: StateView,
    device: DeviceView,
    request: RequestView,
    now: u64,
)
    ensures
        ({
            let after = control_step(
                state,
                ControlTaskView { device, stage: ControlStageView::Send { request } },
                ControlReplyView::Sent { result: Ok(()), now },
            ).0;
            let known = if state.devices.contains_key(device.id) {
                state.devices[device.id]
            } else {
                DeviceView::fresh(device.sku, device.id)
            };
            let ended = DeviceView { active_scene: None, ..known };
            match request {
                RequestView::LanColorRgb { .. } => is_update(state, after, device.id, ended),
                RequestView::LanColorTemperatureKelvin { .. } => is_update(
                    state,
                    after,
                    device.id,
                    ended,
                ),
                RequestView::IotSetColorRgb { .. } => is_update(state, after, device.id, ended),
                RequestView::IotSetColorTemperature { .. } => is_update(
                    state,
                    after,
                    device.id,
                    ended,
                ),
                RequestView::PlatformSetColorRgb { .. } => is_update(
                    state,
                    after,
                    device.id,
                    ended,
                ),
                RequestView::PlatformSetColorTemperature { .. } => is_update(
                    state,
                    after,
                    device.id,
                    ended,
                ),
                RequestView::LanSceneByName { scene } => is_update(
                    state,
                    after,
                    device.id,
                    DeviceView { active_scene: Some(scene), ..known },
                ),
                RequestView::PlatformSetSceneByName { scene } => is_update(
                    state,
                    after,
                    device.id,
                    DeviceView { active_scene: Some(scene), ..known },
                ),
                _ => after == state,
            }
        }),
{
}

/// A switch, brightness, colour temperature or colour that went over the local network is polled
/// for on the same device, with the value that was sent, for five seconds from then; without a
/// connection to the local network that fails. Any other request that went through ends well.
pub proof fn law_effect_on_the_local_network_is_awaited(
    state: StateView,
    device: DeviceView,
    request: RequestView,
    now: u64,
)
    requires
        now + 5000 <= u64::MAX,
    ensures
        ({
            let stage = control_step(
                state,
                ControlTaskView { device, stage: ControlStageView::Send { request } },
                ControlReplyView::Sent { result: Ok(()), now },
            ).1;
            let awaited = match request {
                RequestView::LanTurn { on } => Some(LanExpectation::Power { on }),
                RequestView::LanBrightness { percent } => Some(
                    LanExpectation::Brightness { percent },
                ),
                RequestView::LanColorTemperatureKelvin { kelvin } => Some(
                    LanExpectation::ColorTemperature { kelvin },
                ),
                RequestView::LanColorRgb { color } => Some(LanExpectation::Color { color }),
                _ => None,
            };
            &&& awaited is None ==> stage == (ControlStageView::Finished { result: Ok(()) })
            &&& awaited is Some && state.lan_client is None ==> stage == (
            ControlStageView::Finished { result: Err(StateErrorView::LanUnavailable) })
            &&& awaited is Some && state.lan_client is Some ==> {
                &&& stage is QueryLan
                &&& stage->QueryLan_poll.lan == device.lan_device->0
                &&& stage->QueryLan_poll.expect == awaited->0
                &&& stage->QueryLan_poll.deadline == now + 5000
            }
        }),
{
}

/// A status shows the effect of a command exactly if it has the value that was sent; what else it
/// says does not count.
pub proof fn law_effect_shows_in_the_status(
    status: LanDeviceStatus,
    on: bool,
    percent: u8,
    kelvin: u32,
    color: DeviceColor,
)
    ensures
        (LanExpectation::Power { on }).met_by(status) <==> status.on == on,
        (LanExpectation::Brightness { percent }).met_by(status) <==> status.brightness == percent,
        (LanExpectation::ColorTemperature { kelvin }).met_by(status)
            <==> status.color_temperature_kelvin == kelvin,
        (LanExpectation::Color { color }).met_by(status) <==> status.color.r == color.r
            && status.color.g == color.g && status.color.b == color.b,
{
}

/// Every status that a polled device gives is noted on that device and on no other. One that shows
/// the effect ends the poll: the hub, if it is connected, is handed the device as it is then. One
/// that does not leads to a pause of the same poll.
pub proof fn law_status_is_noted_and_judged(
    state: StateView,
    device: DeviceView,
    poll: LanPollView,
    status: LanDeviceStatus,
)
    ensures
        ({
            let (after, stage) = control_step(
                state,
                ControlTaskView { device, stage: ControlStageView::QueryLan { poll } },
                ControlReplyView::Status { result: Ok(status) },
            );
            let id = poll.lan.device;
            let known = if state.devices.contains_key(id) {
                state.devices[id]
            } else {
                DeviceView::fresh(poll.lan.sku, id)
            };
            &&& is_update(
                state,
                after,
                id,
                DeviceView { lan_device_status: Some(status), ..known },
            )
            &&& !poll.expect.met_by(status) ==> stage == (ControlStageView::PauseLan { poll })
            &&& poll.expect.met_by(status) && state.hass_client is Some ==> stage == (
            ControlStageView::Advise { device: after.devices[id] })
            &&& poll.expect.met_by(status) && state.hass_client is None ==> stage == (
            ControlStageView::Finished { result: Ok(()) })
        }),
{
}

/// A poll that paused goes on until its deadline, the deadline itself still counting. After that
/// the hub, if it is connected, is handed the polled device as it is; the device must be known.
pub proof fn law_pause_ends_in_question_or_notice(
    state: StateView,
    device: DeviceView,
    poll: LanPollView,
    now: u64,
)
    ensures
        ({
            let (after, stage) = control_step(
                state,
                ControlTaskView { device, stage: ControlStageView::PauseLan { poll } },
                ControlReplyView::Resumed { now },
            );
            let id = poll.lan.device;
            &&& after == state
            &&& now <= poll.deadline ==> stage == (ControlStageView::QueryLan { poll })
            &&& now > poll.deadline && !state.devices.contains_key(id) ==> stage == (
            ControlStageView::Finished { result: Err(StateErrorView::DeviceNotFound { id }) })
            &&& now > poll.deadline && state.devices.contains_key(id) && state.hass_client
                is Some ==> stage == (ControlStageView::Advise { device: state.devices[id] })
            &&& now > poll.deadline && state.devices.contains_key(id) && state.hass_client
                is None ==> stage == (ControlStageView::Finished { result: Ok(()) })
        }),
{
}

/// A failed call ends the command with the reason that the call gave, and a hub that was advised
/// ends it well; neither changes the registry.
pub proof fn law_command_ends_with_the_call(
    state: StateView,
    device: DeviceView,
    advised: DeviceView,
    request: RequestView,
    poll: LanPollView,
    reason: Seq<char>,
    now: u64,
)
    ensures
        ({
            let failed = ControlStageView::Finished {
                result: Err(StateErrorView::CallFailed { reason }),
            };
            let send = ControlTaskView { device, stage: ControlStageView::Send { request } };
            let query = ControlTaskView { device, stage: ControlStageView::QueryLan { poll } };
            let advise = ControlTaskView {
                device,
                stage: ControlStageView::Advise { device: advised },
            };
            &&& control_step(state, send, ControlReplyView::Sent { result: Err(reason), now }) == (
                state,
                failed,
            )
            &&& control_step(state, query, ControlReplyView::Status { result: Err(reason) }) == (
                state,
                failed,
            )
            &&& control_step(state, advise, ControlReplyView::Advised { result: Err(reason) }) == (
                state,
                failed,
            )
            &&& control_step(state, advise, ControlReplyView::Advised { result: Ok(()) }) == (
                state,
                ControlStageView::Finished { result: Ok(()) },
            )
        }),
{
}

/// A reply to something that the command does not wait for changes nothing.
pub proof fn law_stray_reply_changes_nothing(
    state: StateView,
    task: ControlTaskView,
    reply: ControlReplyView,
)
    requires
        reply is Encoded ==> !(task.stage is EncodeNightlight || task.stage is EncodeMode),
        reply is Sent ==> !(task.stage is Send),
        reply is Status ==> !(task.stage is QueryLan),
        reply is Resumed ==> !(task.stage is PauseLan),
        reply is Advised ==> !(task.stage is Advise),
    ensures
        control_step(state, task, reply) == (state, task.stage),
{
}

/// Every reply can be given but that a request was sent less than five seconds before the clock
/// ends, and every task can be advanced but one that sends over the local network, with something
/// to wait for, to a device that was not found there.
pub proof fn law_what_can_be_advanced(task: ControlTaskView, reply: ControlReplyView)
    ensures
        !(reply is Sent) ==> reply.wf(),
        reply matches ControlReplyView::Sent { now, .. } ==> (reply.wf() <==> now + 5000
            <= u64::MAX),
        !(task.stage is Send) ==> task.wf(),
        task.device.lan_device is Some ==> task.wf(),
        task.stage matches ControlStageView::Send { request } ==> (!(request is LanTurn
            || request is LanBrightness || request is LanColorTemperatureKelvin
            || request is LanColorRgb) ==> task.wf()),
{
}

} // verus!
