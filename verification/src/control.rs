//! Control of devices: which interface a command goes to, and what follows once it went through.
//!
//! A command is a task that advances from stage to stage. Each stage names one thing to be done
//! outside; the reply to it leads to the next stage, until the task is finished.
use crate::device::{
    nightlight_off, Device, DeviceCapability, DeviceCapabilityView, DeviceColor, DeviceFacts,
    DeviceFactsView, DeviceView, LanDevice, LanDeviceStatus, LanDeviceView,
    SetHumidifierNightlightParams,
};
use crate::error::{StateError, StateErrorView};
use crate::state::{State, StateView, TemperatureScale};
use vstd::prelude::*;

verus! {

/// `serde_json::Value`, a JSON value. Nothing is claimed of it: it is carried through to the
/// platform as it is and never looked into.
#[verifier::external_type_specification]
#[verifier::external_body]
pub struct ExJsonValue(serde_json::Value);

/// A temperature, carried through to the platform as it is.
#[derive(Clone, Copy, Debug, PartialEq, Eq, Structural)]
pub struct TemperatureValue {
    /// The bits of the number of degrees, as a double-precision number.
    pub bits: u64,
    pub scale: TemperatureScale,
}

/// How long the local network is polled for the effect of a command, in milliseconds.
pub const LAN_POLL_MILLIS: u64 = 5000;

/// How long to wait between two polls on the local network, in milliseconds.
pub const LAN_PAUSE_MILLIS: u64 = 100;

/// A command to the light of a device, which may be the night light of a humidifier.
#[derive(Clone, Copy, Debug, PartialEq, Eq, Structural)]
pub enum LightCommand {
    Power { on: bool },
    Brightness { percent: u8 },
    ColorRgb { color: DeviceColor },
}

/// What a status has to show for a command to have taken effect.
#[derive(Clone, Copy, Debug, PartialEq, Eq, Structural)]
pub enum LanExpectation {
    Power { on: bool },
    Brightness { percent: u8 },
    ColorTemperature { kelvin: u32 },
    Color { color: DeviceColor },
}

impl LanExpectation {
    /// Whether a status shows what is expected.
    pub open spec fn met_by(self, status: LanDeviceStatus) -> bool {
        match self {
            LanExpectation::Power { on } => status.on == on,
            LanExpectation::Brightness { percent } => status.brightness == percent,
            LanExpectation::ColorTemperature { kelvin } => status.color_temperature_kelvin
                == kelvin,
            LanExpectation::Color { color } => status.color == color,
        }
    }

    /// Whether a status shows what is expected.
    pub fn accepts(&self, status: &LanDeviceStatus) -> (res: bool)
        ensures
            res == self.met_by(*status),
    {
        match self {
            LanExpectation::Power { on } => status.on == *on,
            LanExpectation::Brightness { percent } => status.brightness == *percent,
            LanExpectation::ColorTemperature { kelvin } => status.color_temperature_kelvin
                == *kelvin,
            LanExpectation::Color { color } => status.color == *color,
        }
    }
}

/// One command to one interface of a device.
#[derive(Debug, PartialEq)]
pub enum Request {
    IotSendReal { command: String },
    IotSetPower { on: bool },
    IotSetBrightness { percent: u8 },
    IotSetColorTemperature { kelvin: u32 },
    IotSetColorRgb { color: DeviceColor },
    LanTurn { on: bool },
    LanBrightness { percent: u8 },
    LanColorTemperatureKelvin { kelvin: u32 },
    LanColorRgb { color: DeviceColor },
    LanSceneByName { scene: String },
    PlatformSetPower { on: bool },
    PlatformSetToggle { instance: String, on: bool },
    PlatformSetBrightness { percent: u8 },
    PlatformSetColorTemperature { kelvin: u32 },
    PlatformSetColorRgb { color: DeviceColor },
    PlatformSetWorkMode { work_mode: i64, value: i64 },
    PlatformSetTargetTemperature { instance: String, target: TemperatureValue },
    PlatformSetSceneByName { scene: String },
    PlatformControl { capability: DeviceCapability, value: serde_json::Value },
}

/// The contents of a [`Request`].
pub enum RequestView {
    IotSendReal { command: Seq<char> },
    IotSetPower { on: bool },
    IotSetBrightness { percent: u8 },
    IotSetColorTemperature { kelvin: u32 },
    IotSetColorRgb { color: DeviceColor },
    LanTurn { on: bool },
    LanBrightness { percent: u8 },
    LanColorTemperatureKelvin { kelvin: u32 },
    LanColorRgb { color: DeviceColor },
    LanSceneByName { scene: Seq<char> },
    PlatformSetPower { on: bool },
    PlatformSetToggle { instance: Seq<char>, on: bool },
    PlatformSetBrightness { percent: u8 },
    PlatformSetColorTemperature { kelvin: u32 },
    PlatformSetColorRgb { color: DeviceColor },
    PlatformSetWorkMode { work_mode: i64, value: i64 },
    PlatformSetTargetTemperature { instance: Seq<char>, target: TemperatureValue },
    PlatformSetSceneByName { scene: Seq<char> },
    PlatformControl { capability: DeviceCapabilityView, value: serde_json::Value },
}

impl DeepView for Request {
    type V = RequestView;

    open spec fn deep_view(&self) -> RequestView {
        match self {
            Request::IotSendReal { command } => RequestView::IotSendReal { command: command@ },
            Request::IotSetPower { on } => RequestView::IotSetPower { on: *on },
            Request::IotSetBrightness { percent } => RequestView::IotSetBrightness {
                percent: *percent,
            },
            Request::IotSetColorTemperature { kelvin } => RequestView::IotSetColorTemperature {
                kelvin: *kelvin,
            },
            Request::IotSetColorRgb { color } => RequestView::IotSetColorRgb { color: *color },
            Request::LanTurn { on } => RequestView::LanTurn { on: *on },
            Request::LanBrightness { percent } => RequestView::LanBrightness { percent: *percent },
            Request::LanColorTemperatureKelvin { kelvin } =>
                RequestView::LanColorTemperatureKelvin {
                kelvin: *kelvin,
            },
            Request::LanColorRgb { color } => RequestView::LanColorRgb { color: *color },
            Request::LanSceneByName { scene } => RequestView::LanSceneByName { scene: scene@ },
            Request::PlatformSetPower { on } => RequestView::PlatformSetPower { on: *on },
            Request::PlatformSetToggle { instance, on } => RequestView::PlatformSetToggle {
                instance: instance@,
                on: *on,
            },
            Request::PlatformSetBrightness { percent } => RequestView::PlatformSetBrightness {
                percent: *percent,
            },
            Request::PlatformSetColorTemperature { kelvin } =>
                RequestView::PlatformSetColorTemperature {
                kelvin: *kelvin,
            },
            Request::PlatformSetColorRgb { color } => RequestView::PlatformSetColorRgb {
                color: *color,
            },
            Request::PlatformSetWorkMode { work_mode, value } => RequestView::PlatformSetWorkMode {
                work_mode: *work_mode,
                value: *value,
            },
            Request::PlatformSetTargetTemperature { instance, target } =>
                RequestView::PlatformSetTargetTemperature {
                instance: instance@,
                target: *target,
            },
            Request::PlatformSetSceneByName { scene } => RequestView::PlatformSetSceneByName {
                scene: scene@,
            },
            Request::PlatformControl { capability, value } => RequestView::PlatformControl {
                capability: capability@,
                value: *value,
            },
        }
    }
}

impl View for Request {
    type V = RequestView;

    open spec fn view(&self) -> RequestView {
        self.deep_view()
    }
}

/// A device that is polled on the local network until it shows what is expected, or until the
/// deadline has passed.
#[derive(Debug, PartialEq, Eq)]
pub struct LanPoll {
    pub lan: LanDevice,
    pub expect: LanExpectation,
    pub deadline: u64,
}

/// The contents of a [`LanPoll`].
pub struct LanPollView {
    pub lan: LanDeviceView,
    pub expect: LanExpectation,
    pub deadline: u64,
}

impl DeepView for LanPoll {
    type V = LanPollView;

    open spec fn deep_view(&self) -> LanPollView {
        LanPollView { lan: self.lan@, expect: self.expect, deadline: self.deadline }
    }
}

impl View for LanPoll {
    type V = LanPollView;

    open spec fn view(&self) -> LanPollView {
        self.deep_view()
    }
}

/// What a control task waits for.
#[derive(Debug, PartialEq)]
pub enum ControlStage {
    /// Encode the night light settings for the model of the device, if it has a night light.
    EncodeNightlight {
        params: SetHumidifierNightlightParams,
        command: LightCommand,
        /// What held of the device when the command was given.
        facts: DeviceFacts,
    },
    /// Encode the work mode for the model of the device, if it is a humidifier.
    EncodeMode { mode: u8, param: u8, work_mode: i64, value: i64 },
    /// Send the request to the device.
    Send { request: Request },
    /// Ask the device for its status on the local network.
    QueryLan { poll: LanPoll },
    /// Wait for [`LAN_PAUSE_MILLIS`].
    PauseLan { poll: LanPoll },
    /// Hand the device to the home automation hub.
    Advise { device: Device },
    /// Nothing more.
    Finished { result: Result<(), StateError> },
}

/// The contents of a [`ControlStage`].
pub enum ControlStageView {
    EncodeNightlight {
        params: SetHumidifierNightlightParams,
        command: LightCommand,
        facts: DeviceFactsView,
    },
    EncodeMode { mode: u8, param: u8, work_mode: i64, value: i64 },
    Send { request: RequestView },
    QueryLan { poll: LanPollView },
    PauseLan { poll: LanPollView },
    Advise { device: DeviceView },
    Finished { result: Result<(), StateErrorView> },
}

/// The contents of the outcome of a task.
pub open spec fn outcome_view<T>(result: Result<T, StateError>) -> Result<T, StateErrorView> {
    match result {
        Ok(value) => Ok(value),
        Err(error) => Err(error@),
    }
}

impl DeepView for ControlStage {
    type V = ControlStageView;

    open spec fn deep_view(&self) -> ControlStageView {
        match self {
            ControlStage::EncodeNightlight { params, command, facts } =>
                ControlStageView::EncodeNightlight {
                params: *params,
                command: *command,
                facts: facts@,
            },
            ControlStage::EncodeMode { mode, param, work_mode, value } =>
                ControlStageView::EncodeMode {
                mode: *mode,
                param: *param,
                work_mode: *work_mode,
                value: *value,
            },
            ControlStage::Send { request } => ControlStageView::Send { request: request@ },
            ControlStage::QueryLan { poll } => ControlStageView::QueryLan { poll: poll@ },
            ControlStage::PauseLan { poll } => ControlStageView::PauseLan { poll: poll@ },
            ControlStage::Advise { device } => ControlStageView::Advise { device: device@ },
            ControlStage::Finished { result } => ControlStageView::Finished {
                result: outcome_view(*result),
            },
        }
    }
}

impl View for ControlStage {
    type V = ControlStageView;

    open spec fn view(&self) -> ControlStageView {
        self.deep_view()
    }
}

/// A command to a device on its way.
#[derive(Debug, PartialEq)]
pub struct ControlTask {
    /// The device as it was when the command was given.
    pub device: Device,
    pub stage: ControlStage,
}

/// The contents of a [`ControlTask`].
pub struct ControlTaskView {
    pub device: DeviceView,
    pub stage: ControlStageView,
}

impl DeepView for ControlTask {
    type V = ControlTaskView;

    open spec fn deep_view(&self) -> ControlTaskView {
        ControlTaskView { device: self.device@, stage: self.stage@ }
    }
}

impl View for ControlTask {
    type V = ControlTaskView;

    open spec fn view(&self) -> ControlTaskView {
        self.deep_view()
    }
}

/// The answer to what a control task waited for.
#[derive(Debug, PartialEq, Eq)]
pub enum ControlReply {
    /// The encoded packet, or nothing if there is none for the model.
    Encoded { command: Option<String> },
    /// The request was sent, or failed for a reason; `now` is the time in milliseconds.
    Sent { result: Result<(), String>, now: u64 },
    /// The device gave its status, or failed to for a reason.
    Status { result: Result<LanDeviceStatus, String> },
    /// The wait is over; `now` is the time in milliseconds.
    Resumed { now: u64 },
    /// The hub was advised, or that failed for a reason.
    Advised { result: Result<(), String> },
}

/// The contents of a [`ControlReply`].
pub enum ControlReplyView {
    Encoded { command: Option<Seq<char>> },
    Sent { result: Result<(), Seq<char>>, now: u64 },
    Status { result: Result<LanDeviceStatus, Seq<char>> },
    Resumed { now: u64 },
    Advised { result: Result<(), Seq<char>> },
}

/// The contents of the outcome of an outside call.
pub open spec fn call_view<T>(result: Result<T, String>) -> Result<T, Seq<char>> {
    match result {
        Ok(value) => Ok(value),
        Err(reason) => Err(reason@),
    }
}

impl DeepView for ControlReply {
    type V = ControlReplyView;

    open spec fn deep_view(&self) -> ControlReplyView {
        match self {
            ControlReply::Encoded { command } => ControlReplyView::Encoded {
                command: command.deep_view(),
            },
            ControlReply::Sent { result, now } => ControlReplyView::Sent {
                result: call_view(*result),
                now: *now,
            },
            ControlReply::Status { result } => ControlReplyView::Status {
                result: call_view(*result),
            },
            ControlReply::Resumed { now } => ControlReplyView::Resumed { now: *now },
            ControlReply::Advised { result } => ControlReplyView::Advised {
                result: call_view(*result),
            },
        }
    }
}

impl View for ControlReply {
    type V = ControlReplyView;

    open spec fn view(&self) -> ControlReplyView {
        self.deep_view()
    }
}

/// The night light settings that a light command amounts to, starting from what the device last
/// reported.
pub open spec fn nightlight_params(
    device: DeviceView,
    command: LightCommand,
) -> SetHumidifierNightlightParams {
    let reported = match device.nightlight_state {
        Some(params) => params,
        None => nightlight_off(),
    };
    match command {
        LightCommand::Power { on } => SetHumidifierNightlightParams { on, ..reported },
        LightCommand::Brightness { percent } => SetHumidifierNightlightParams {
            on: true,
            brightness: percent,
            ..reported
        },
        LightCommand::ColorRgb { color } => SetHumidifierNightlightParams {
            on: true,
            r: color.r,
            g: color.g,
            b: color.b,
            ..reported
        },
    }
}

/// The last eight bits of a number.
pub open spec fn low_byte(n: i64) -> u8 {
    (n as int % 256) as u8
}

impl StateView {
    /// Whether a packet for the device can go through the message broker.
    pub open spec fn reaches_via_iot(self, device: DeviceView) -> bool {
        self.iot_client is Some && device.undoc_device_info is Some
    }

    /// Whether a command for the device can go through the platform.
    pub open spec fn reaches_via_platform(self, device: DeviceView) -> bool {
        self.platform_client is Some && device.http_device_info is Some
    }

    /// The registry with the scene that a device shows noted.
    pub open spec fn with_scene(self, device: DeviceView, scene: Option<Seq<char>>) -> StateView {
        let known = self.device_or_fresh(device.sku, device.id);
        self.with_device(device.id, DeviceView { active_scene: scene, ..known })
    }

    /// The registry with the status that a device gave noted.
    pub open spec fn with_lan_status(self, lan: LanDeviceView, status: LanDeviceStatus) -> StateView {
        let known = self.device_or_fresh(lan.sku, lan.device);
        self.with_device(lan.device, DeviceView { lan_device_status: Some(status), ..known })
    }
}

/// A task that ended in an error.
pub open spec fn failed(error: StateErrorView) -> ControlStageView {
    ControlStageView::Finished { result: Err(error) }
}

/// A task that ended well.
pub open spec fn done() -> ControlStageView {
    ControlStageView::Finished { result: Ok(()) }
}

/// Where a command with a form for each interface goes: to the local network if the device was
/// found there, else to the message broker, else to the platform.
pub open spec fn preferred_route(
    state: StateView,
    device: DeviceView,
    facts: DeviceFactsView,
    lan: RequestView,
    iot: RequestView,
    platform: RequestView,
    unable: StateErrorView,
) -> ControlStageView {
    if device.lan_device is Some {
        ControlStageView::Send { request: lan }
    } else if facts.iot_api_supported && state.reaches_via_iot(device) {
        ControlStageView::Send { request: iot }
    } else if state.reaches_via_platform(device) {
        ControlStageView::Send { request: platform }
    } else {
        failed(unable)
    }
}

/// Where a command goes that only the platform takes.
pub open spec fn platform_route(
    state: StateView,
    device: DeviceView,
    platform: RequestView,
    unable: StateErrorView,
) -> ControlStageView {
    if state.reaches_via_platform(device) {
        ControlStageView::Send { request: platform }
    } else {
        failed(unable)
    }
}

/// Where a light command goes for which there is no night light packet, or no way to send one.
///
/// A device that is animating to music takes a colour for part of the animation unless it comes
/// from the platform, so then the platform goes first.
pub open spec fn light_route(
    state: StateView,
    device: DeviceView,
    facts: DeviceFactsView,
    command: LightCommand,
) -> ControlStageView {
    match command {
        LightCommand::Power { on } => match facts.light_power_toggle_instance_name {
            None => failed(StateErrorView::UnsupportedLightPower),
            Some(instance) => preferred_route(
                state,
                device,
                facts,
                RequestView::LanTurn { on },
                RequestView::IotSetPower { on },
                RequestView::PlatformSetToggle { instance, on },
                StateErrorView::UnableToControlLightPower,
            ),
        },
        LightCommand::Brightness { percent } => preferred_route(
            state,
            device,
            facts,
            RequestView::LanBrightness { percent },
            RequestView::IotSetBrightness { percent },
            RequestView::PlatformSetBrightness { percent },
            StateErrorView::UnableToControlBrightness,
        ),
        LightCommand::ColorRgb { color } => {
            if facts.music_mode_active == Some(true) && state.reaches_via_platform(device) {
                ControlStageView::Send { request: RequestView::PlatformSetColorRgb { color } }
            } else {
                preferred_route(
                    state,
                    device,
                    facts,
                    RequestView::LanColorRgb { color },
                    RequestView::IotSetColorRgb { color },
                    RequestView::PlatformSetColorRgb { color },
                    StateErrorView::UnableToControlColor,
                )
            }
        },
    }
}

/// Where a scene goes: to the platform, unless that is known not to work for the device, else to
/// the local network.
pub open spec fn scene_route(
    state: StateView,
    device: DeviceView,
    facts: DeviceFactsView,
    scene: Seq<char>,
) -> ControlStageView {
    if !facts.avoid_platform_api && state.reaches_via_platform(device) {
        ControlStageView::Send { request: RequestView::PlatformSetSceneByName { scene } }
    } else if device.lan_device is Some {
        ControlStageView::Send { request: RequestView::LanSceneByName { scene } }
    } else {
        failed(StateErrorView::UnableToSetScene)
    }
}

/// Where a command goes once its packet is encoded: a packet goes to the message broker where it
/// can, and `otherwise` says what happens where there is none or it cannot.
pub open spec fn packet_route(
    state: StateView,
    device: DeviceView,
    packet: Option<Seq<char>>,
    otherwise: ControlStageView,
) -> ControlStageView {
    if packet is Some && state.reaches_via_iot(device) {
        ControlStageView::Send { request: RequestView::IotSendReal { command: packet->0 } }
    } else {
        otherwise
    }
}

/// The scene that a device shows once it took a request, where the request says: a colour or
/// colour temperature ends the scene, a scene begins.
pub open spec fn scene_after(request: RequestView) -> Option<Option<Seq<char>>> {
    match request {
        RequestView::IotSetColorTemperature { .. } => Some(None),
        RequestView::IotSetColorRgb { .. } => Some(None),
        RequestView::LanColorTemperatureKelvin { .. } => Some(None),
        RequestView::LanColorRgb { .. } => Some(None),
        RequestView::PlatformSetColorTemperature { .. } => Some(None),
        RequestView::PlatformSetColorRgb { .. } => Some(None),
        RequestView::LanSceneByName { scene } => Some(Some(scene)),
        RequestView::PlatformSetSceneByName { scene } => Some(Some(scene)),
        _ => None,
    }
}

/// What the device is polled for on the local network once it took a request, where it is.
pub open spec fn expectation_of(request: RequestView) -> Option<LanExpectation> {
    match request {
        RequestView::LanTurn { on } => Some(LanExpectation::Power { on }),
        RequestView::LanBrightness { percent } => Some(LanExpectation::Brightness { percent }),
        RequestView::LanColorTemperatureKelvin { kelvin } => Some(
            LanExpectation::ColorTemperature { kelvin },
        ),
        RequestView::LanColorRgb { color } => Some(LanExpectation::Color { color }),
        _ => None,
    }
}

/// The registry once a device took a request.
pub open spec fn noted(state: StateView, device: DeviceView, request: RequestView) -> StateView {
    match scene_after(request) {
        Some(scene) => state.with_scene(device, scene),
        None => state,
    }
}

/// The beginning of a poll on the local network.
pub open spec fn poll_started(
    state: StateView,
    lan: LanDeviceView,
    expect: LanExpectation,
    now: u64,
) -> ControlStageView {
    if state.lan_client is Some {
        ControlStageView::QueryLan {
            poll: LanPollView { lan, expect, deadline: (now + LAN_POLL_MILLIS) as u64 },
        }
    } else {
        failed(StateErrorView::LanUnavailable)
    }
}

/// The end of a task that changed the state of a device: the home automation hub is advised, if
/// it is connected.
pub open spec fn notified(state: StateView, id: Seq<char>) -> ControlStageView {
    if !state.devices.contains_key(id) {
        failed(StateErrorView::DeviceNotFound { id })
    } else if state.hass_client is Some {
        ControlStageView::Advise { device: state.devices[id] }
    } else {
        done()
    }
}

impl ControlTaskView {
    /// A request that is to be followed by a poll goes to a device on the local network.
    pub open spec fn wf(self) -> bool {
        self.stage matches ControlStageView::Send { request } && expectation_of(request) is Some
            ==> self.device.lan_device is Some
    }
}

impl ControlReplyView {
    /// A poll that begins now ends before the clock does.
    pub open spec fn wf(self) -> bool {
        self matches ControlReplyView::Sent { now, .. } ==> now + LAN_POLL_MILLIS <= u64::MAX
    }
}

/// What a reply does to the registry and to the task that waited for it. A reply to something
/// else does nothing.
pub open spec fn control_step(
    state: StateView,
    task: ControlTaskView,
    reply: ControlReplyView,
) -> (StateView, ControlStageView) {
    let device = task.device;
    match (task.stage, reply) {
        (
            ControlStageView::EncodeNightlight { params, command, facts },
            ControlReplyView::Encoded { command: packet },
        ) => (
            state,
            packet_route(state, device, packet, light_route(state, device, facts, command)),
        ),
        (
            ControlStageView::EncodeMode { mode, param, work_mode, value },
            ControlReplyView::Encoded { command: packet },
        ) => (
            state,
            packet_route(
                state,
                device,
                packet,
                platform_route(
                    state,
                    device,
                    RequestView::PlatformSetWorkMode { work_mode, value },
                    StateErrorView::UnableToControlHumidifier { work_mode },
                ),
            ),
        ),
        (ControlStageView::Send { request }, ControlReplyView::Sent { result, now }) => match result {
            Ok(_) => {
                let after = noted(state, device, request);
                match expectation_of(request) {
                    Some(expect) => (after, poll_started(after, device.lan_device->0, expect, now)),
                    None => (after, done()),
                }
            },
            Err(reason) => (state, failed(StateErrorView::CallFailed { reason })),
        },
        (ControlStageView::QueryLan { poll }, ControlReplyView::Status { result }) => match result {
            Ok(status) => {
                let after = state.with_lan_status(poll.lan, status);
                if poll.expect.met_by(status) {
                    (after, notified(after, poll.lan.device))
                } else {
                    (after, ControlStageView::PauseLan { poll })
                }
            },
            Err(reason) => (state, failed(StateErrorView::CallFailed { reason })),
        },
        (ControlStageView::PauseLan { poll }, ControlReplyView::Resumed { now }) => (
            state,
            if now <= poll.deadline {
                ControlStageView::QueryLan { poll }
            } else {
                notified(state, poll.lan.device)
            },
        ),
        (ControlStageView::Advise { .. }, ControlReplyView::Advised { result }) => match result {
            Ok(_) => (state, done()),
            Err(reason) => (state, failed(StateErrorView::CallFailed { reason })),
        },
        (stage, _) => (state, stage),
    }
}

fn call_failed(reason: String) -> (res: ControlStage)
    ensures
        res@ == failed(StateErrorView::CallFailed { reason: reason@ }),
{
    ControlStage::Finished { result: Err(StateError::CallFailed { reason }) }
}

impl State {
    /// Whether a packet for the device can go through the message broker.
    pub(crate) fn has_iot(&self, device: &Device) -> (res: bool)
        ensures
            res == self@.reaches_via_iot(device@),
    {
        self.get_iot_client().is_some() && device.undoc_device_info.is_some()
    }

    /// Whether a command for the device can go through the platform.
    pub(crate) fn has_platform(&self, device: &Device) -> (res: bool)
        ensures
            res == self@.reaches_via_platform(device@),
    {
        self.get_platform_client().is_some() && device.http_device_info.is_some()
    }

    /// Sends a command over the local network if the device was found there, else through the
    /// message broker, else through the platform.
    fn preferred(
        &self,
        device: &Device,
        facts: &DeviceFacts,
        lan: Request,
        iot: Request,
        platform: Request,
        unable: StateError,
    ) -> (res: ControlStage)
        ensures
            res@ == preferred_route(self@, device@, facts@, lan@, iot@, platform@, unable@),
    {
        if device.lan_device.is_some() {
            ControlStage::Send { request: lan }
        } else if facts.iot_api_supported && self.has_iot(device) {
            ControlStage::Send { request: iot }
        } else if self.has_platform(device) {
            ControlStage::Send { request: platform }
        } else {
            ControlStage::Finished { result: Err(unable) }
        }
    }

    /// Sends a command through the platform.
    fn via_platform(&self, device: &Device, request: Request, unable: StateError) -> (res:
        ControlStage)
        ensures
            res@ == platform_route(self@, device@, request@, unable@),
    {
        if self.has_platform(device) {
            ControlStage::Send { request }
        } else {
            ControlStage::Finished { result: Err(unable) }
        }
    }

    /// Hands a value to a capability of the device.
    pub fn device_control(
        &self,
        device: &Device,
        capability: &DeviceCapability,
        value: serde_json::Value,
    ) -> (res: ControlTask)
        ensures
            res@.wf(),
            res@ == (ControlTaskView {
                device: device@,
                stage: platform_route(
                    self@,
                    device@,
                    RequestView::PlatformControl { capability: capability@, value },
                    StateErrorView::UnableToUsePlatform,
                ),
            }),
            res@.stage matches ControlStageView::Send { request } ==> request == (
            RequestView::PlatformControl { capability: capability@, value }),
    {
        ControlTask {
            device: device.clone(),
            stage: self.via_platform(
                device,
                Request::PlatformControl { capability: capability.clone(), value },
                StateError::UnableToUsePlatform,
            ),
        }
    }

    /// Begins a light command: the settings of a night light come first.
    fn try_humidifier_set_nightlight(
        &self,
        device: &Device,
        facts: &DeviceFacts,
        command: LightCommand,
    ) -> (res: ControlTask)
        ensures
            res@.wf(),
            res@ == (ControlTaskView {
                device: device@,
                stage: ControlStageView::EncodeNightlight {
                    params: nightlight_params(device@, command),
                    command,
                    facts: facts@,
                },
            }),
    {
        let mut params: SetHumidifierNightlightParams =
            device.nightlight_state.unwrap_or_default();
        match command {
            LightCommand::Power { on } => {
                params.on = on;
            },
            LightCommand::Brightness { percent } => {
                params.brightness = percent;
                params.on = true;
            },
            LightCommand::ColorRgb { color } => {
                params.r = color.r;
                params.g = color.g;
                params.b = color.b;
                params.on = true;
            },
        }
        ControlTask {
            device: device.clone(),
            stage: ControlStage::EncodeNightlight { params, command, facts: facts.clone() },
        }
    }

    /// Switches the light of the device, apart from the device itself.
    pub fn device_light_power_on(&self, device: &Device, facts: &DeviceFacts, on: bool) -> (res:
        ControlTask)
        ensures
            res@.wf(),
            res@ == (ControlTaskView {
                device: device@,
                stage: ControlStageView::EncodeNightlight {
                    params: nightlight_params(device@, LightCommand::Power { on }),
                    command: LightCommand::Power { on },
                    facts: facts@,
                },
            }),
            res@.stage matches ControlStageView::EncodeNightlight { params, command, .. }
                ==> params.on == on && command == (LightCommand::Power { on }),
    {
        self.try_humidifier_set_nightlight(device, facts, LightCommand::Power { on })
    }

    /// Switches the device.
    pub fn device_power_on(&self, device: &Device, facts: &DeviceFacts, on: bool) -> (res:
        ControlTask)
        ensures
            res@.wf(),
            res@ == (ControlTaskView {
                device: device@,
                stage: preferred_route(
                    self@,
                    device@,
                    facts@,
                    RequestView::LanTurn { on },
                    RequestView::IotSetPower { on },
                    RequestView::PlatformSetPower { on },
                    StateErrorView::UnableToControlPower,
                ),
            }),
            res@.stage matches ControlStageView::Send { request } ==> request == (
            RequestView::LanTurn { on }) || request == (RequestView::IotSetPower { on })
                || request == (RequestView::PlatformSetPower { on }),
    {
        ControlTask {
            device: device.clone(),
            stage: self.preferred(
                device,
                facts,
                Request::LanTurn { on },
                Request::IotSetPower { on },
                Request::PlatformSetPower { on },
                StateError::UnableToControlPower,
            ),
        }
    }

    /// Sets the brightness of the device.
    pub fn device_set_brightness(&self, device: &Device, facts: &DeviceFacts, percent: u8) -> (res:
        ControlTask)
        ensures
            res@.wf(),
            res@ == (ControlTaskView {
                device: device@,
                stage: ControlStageView::EncodeNightlight {
                    params: nightlight_params(device@, LightCommand::Brightness { percent }),
                    command: LightCommand::Brightness { percent },
                    facts: facts@,
                },
            }),
            res@.stage matches ControlStageView::EncodeNightlight { params, command, .. }
                ==> params.on && params.brightness == percent && command == (
            LightCommand::Brightness { percent }),
    {
        self.try_humidifier_set_nightlight(device, facts, LightCommand::Brightness { percent })
    }

    /// Sets the colour temperature of the device.
    pub fn device_set_color_temperature(
        &self,
        device: &Device,
        facts: &DeviceFacts,
        kelvin: u32,
    ) -> (res: ControlTask)
        ensures
            res@.wf(),
            res@ == (ControlTaskView {
                device: device@,
                stage: preferred_route(
                    self@,
                    device@,
                    facts@,
                    RequestView::LanColorTemperatureKelvin { kelvin },
                    RequestView::IotSetColorTemperature { kelvin },
                    RequestView::PlatformSetColorTemperature { kelvin },
                    StateErrorView::UnableToControlColorTemperature,
                ),
            }),
            res@.stage matches ControlStageView::Send { request } ==> request == (
            RequestView::LanColorTemperatureKelvin { kelvin }) || request == (
            RequestView::IotSetColorTemperature { kelvin }) || request == (
            RequestView::PlatformSetColorTemperature { kelvin }),
    {
        ControlTask {
            device: device.clone(),
            stage: self.preferred(
                device,
                facts,
                Request::LanColorTemperatureKelvin { kelvin },
                Request::IotSetColorTemperature { kelvin },
                Request::PlatformSetColorTemperature { kelvin },
                StateError::UnableToControlColorTemperature,
            ),
        }
    }

    /// Sets a work mode of a humidifier.
    pub fn humidifier_set_parameter(&self, device: &Device, work_mode: i64, value: i64) -> (res:
        ControlTask)
        ensures
            res@.wf(),
            res@ == (ControlTaskView {
                device: device@,
                stage: ControlStageView::EncodeMode {
                    mode: low_byte(work_mode),
                    param: low_byte(value),
                    work_mode,
                    value,
                },
            }),
            res@.stage matches ControlStageView::EncodeMode { mode, param, .. } ==> (work_mode
                - mode) % 256 == 0 && (value - param) % 256 == 0,
    {
        ControlTask {
            device: device.clone(),
            stage: ControlStage::EncodeMode {
                mode: low_byte_of(work_mode),
                param: low_byte_of(value),
                work_mode,
                value,
            },
        }
    }

    /// Sets the colour of the device.
    pub fn device_set_color_rgb(
        &self,
        device: &Device,
        facts: &DeviceFacts,
        r: u8,
        g: u8,
        b: u8,
    ) -> (res: ControlTask)
        ensures
            res@.wf(),
            res@ == (ControlTaskView {
                device: device@,
                stage: ControlStageView::EncodeNightlight {
                    params: nightlight_params(
                        device@,
                        LightCommand::ColorRgb { color: DeviceColor { r, g, b } },
                    ),
                    command: LightCommand::ColorRgb { color: DeviceColor { r, g, b } },
                    facts: facts@,
                },
            }),
            res@.stage matches ControlStageView::EncodeNightlight { params, command, .. }
                ==> params.on && params.r == r && params.g == g && params.b == b && command == (
            LightCommand::ColorRgb { color: DeviceColor { r, g, b } }),
    {
        self.try_humidifier_set_nightlight(
            device,
            facts,
            LightCommand::ColorRgb { color: DeviceColor { r, g, b } },
        )
    }

    /// Sets the temperature that the device is to reach.
    pub fn device_set_target_temperature(
        &self,
        device: &Device,
        instance_name: &str,
        target: TemperatureValue,
    ) -> (res: ControlTask)
        ensures
            res@.wf(),
            res@ == (ControlTaskView {
                device: device@,
                stage: platform_route(
                    self@,
                    device@,
                    RequestView::PlatformSetTargetTemperature { instance: instance_name@, target },
                    StateErrorView::UnableToSetTemperature,
                ),
            }),
            res@.stage matches ControlStageView::Send { request } ==> request == (
            RequestView::PlatformSetTargetTemperature { instance: instance_name@, target }),
    {
        ControlTask {
            device: device.clone(),
            stage: self.via_platform(
                device,
                Request::PlatformSetTargetTemperature {
                    instance: instance_name.to_string(),
                    target,
                },
                StateError::UnableToSetTemperature,
            ),
        }
    }

    /// Makes the device show a scene.
    pub fn device_set_scene(&self, device: &Device, facts: &DeviceFacts, scene: &str) -> (res:
        ControlTask)
        ensures
            res@.wf(),
            res@ == (ControlTaskView {
                device: device@,
                stage: scene_route(self@, device@, facts@, scene@),
            }),
            res@.stage matches ControlStageView::Send { request } ==> request == (
            RequestView::PlatformSetSceneByName { scene: scene@ }) || request == (
            RequestView::LanSceneByName { scene: scene@ }),
    {
        let stage = if !facts.avoid_platform_api && self.has_platform(device) {
            ControlStage::Send {
                request: Request::PlatformSetSceneByName { scene: scene.to_string() },
            }
        } else if device.lan_device.is_some() {
            ControlStage::Send { request: Request::LanSceneByName { scene: scene.to_string() } }
        } else {
            ControlStage::Finished { result: Err(StateError::UnableToSetScene) }
        };
        ControlTask { device: device.clone(), stage }
    }

    /// Sends a light command other than by a night light packet.
    fn light(&self, device: &Device, facts: &DeviceFacts, command: LightCommand) -> (res:
        ControlStage)
        ensures
            res@ == light_route(self@, device@, facts@, command),
    {
        match command {
            LightCommand::Power { on } => match &facts.light_power_toggle_instance_name {
                None => ControlStage::Finished { result: Err(StateError::UnsupportedLightPower) },
                Some(instance) => self.preferred(
                    device,
                    facts,
                    Request::LanTurn { on },
                    Request::IotSetPower { on },
                    Request::PlatformSetToggle { instance: instance.clone(), on },
                    StateError::UnableToControlLightPower,
                ),
            },
            LightCommand::Brightness { percent } => self.preferred(
                device,
                facts,
                Request::LanBrightness { percent },
                Request::IotSetBrightness { percent },
                Request::PlatformSetBrightness { percent },
                StateError::UnableToControlBrightness,
            ),
            LightCommand::ColorRgb { color } => {
                // A colour sent over LAN (or through the message broker) to a device that is
                // actively animating in music mode is consumed as a parameter of the
                // running animation on several SKUs: the device ACKs, its status
                // reports the new colour, and it keeps dancing, so the LAN
                // poll-for-colour "succeeds" without the light ever changing.
                // Only a Platform API colour command returns it to manual colour.
                let dancing = match facts.music_mode_active {
                    Some(active) => active,
                    None => false,
                };
                if dancing && self.has_platform(device) {
                    ControlStage::Send { request: Request::PlatformSetColorRgb { color } }
                } else {
                    self.preferred(
                        device,
                        facts,
                        Request::LanColorRgb { color },
                        Request::IotSetColorRgb { color },
                        Request::PlatformSetColorRgb { color },
                        StateError::UnableToControlColor,
                    )
                }
            },
        }
    }

    /// Sends an encoded packet through the message broker, if there is one and it can.
    fn via_packet(&self, device: &Device, packet: Option<String>) -> (res: Option<ControlStage>)
        ensures
            res is Some <==> packet is Some && self@.reaches_via_iot(device@),
            res is Some ==> res->0@ == (ControlStageView::Send {
                request: RequestView::IotSendReal { command: packet->0@ },
            }),
    {
        match packet {
            Some(command) => if self.has_iot(device) {
                Some(ControlStage::Send { request: Request::IotSendReal { command } })
            } else {
                None
            },
            None => None,
        }
    }

    /// Notes that a device took a request, and begins to poll for its effect where that is due.
    fn sent(&mut self, device: &Device, request: Request, now: u64) -> (res: ControlStage)
        requires
            old(self).wf(),
            expectation_of(request@) is Some ==> device.lan_device is Some,
            now + LAN_POLL_MILLIS <= u64::MAX,
        ensures
            final(self).wf(),
            (final(self)@, res@) == control_step(
                old(self)@,
                ControlTaskView {
                    device: device@,
                    stage: ControlStageView::Send { request: request@ },
                },
                ControlReplyView::Sent { result: Ok(()), now },
            ),
    {
        let (expect, scene): (Option<LanExpectation>, Option<Option<String>>) = match request {
            Request::LanTurn { on } => (Some(LanExpectation::Power { on }), None),
            Request::LanBrightness { percent } => (
                Some(LanExpectation::Brightness { percent }),
                None,
            ),
            Request::LanColorTemperatureKelvin { kelvin } => (
                Some(LanExpectation::ColorTemperature { kelvin }),
                Some(None),
            ),
            Request::LanColorRgb { color } => (Some(LanExpectation::Color { color }), Some(None)),
            Request::IotSetColorTemperature { .. } => (None, Some(None)),
            Request::IotSetColorRgb { .. } => (None, Some(None)),
            Request::PlatformSetColorTemperature { .. } => (None, Some(None)),
            Request::PlatformSetColorRgb { .. } => (None, Some(None)),
            Request::LanSceneByName { scene } => (None, Some(Some(scene))),
            Request::PlatformSetSceneByName { scene } => (None, Some(Some(scene))),
            _ => (None, None),
        };
        // Clear before polling: the poll ends in the state notification, so the
        // scene must already be cleared or the hub briefly sees the new color + old scene.
        if let Some(scene) = scene {
            self.device_mut(&device.sku, &device.id).set_active_scene(scene);
        }
        match (expect, &device.lan_device) {
            (Some(expect), Some(lan)) => self.poll_lan_api(lan, expect, now),
            _ => ControlStage::Finished { result: Ok(()) },
        }
    }

    /// Begins to poll a device on the local network for a status that shows what is expected.
    fn poll_lan_api(&self, lan: &LanDevice, expect: LanExpectation, now: u64) -> (res: ControlStage)
        requires
            now + LAN_POLL_MILLIS <= u64::MAX,
        ensures
            res@ == poll_started(self@, lan@, expect, now),
    {
        if self.get_lan_client().is_some() {
            let deadline: u64 = now + LAN_POLL_MILLIS;
            ControlStage::QueryLan { poll: LanPoll { lan: lan.clone(), expect, deadline } }
        } else {
            ControlStage::Finished { result: Err(StateError::LanUnavailable) }
        }
    }

    /// Ends a task that changed the state of a device.
    fn notify(&self, id: &str) -> (res: ControlStage)
        requires
            self.wf(),
        ensures
            res@ == notified(self@, id@),
    {
        match self.notify_of_state_change(id) {
            Ok(Some(device)) => ControlStage::Advise { device },
            Ok(None) => ControlStage::Finished { result: Ok(()) },
            Err(error) => ControlStage::Finished { result: Err(error) },
        }
    }

    /// Takes a control task on by one reply. A reply to something that the task does not wait for
    /// changes nothing.
    pub fn advance_control(&mut self, task: ControlTask, reply: ControlReply) -> (res: ControlTask)
        requires
            old(self).wf(),
            task@.wf(),
            reply@.wf(),
        ensures
            final(self).wf(),
            res@.wf(),
            res@.device == task@.device,
            (final(self)@, res@.stage) == control_step(old(self)@, task@, reply@),
    {
        let device = task.device;
        let stage = match (task.stage, reply) {
            (
                ControlStage::EncodeNightlight { params, command, facts },
                ControlReply::Encoded { command: packet },
            ) => match self.via_packet(&device, packet) {
                Some(stage) => stage,
                None => self.light(&device, &facts, command),
            },
            (
                ControlStage::EncodeMode { mode, param, work_mode, value },
                ControlReply::Encoded { command: packet },
            ) => match self.via_packet(&device, packet) {
                Some(stage) => stage,
                None => self.via_platform(
                    &device,
                    Request::PlatformSetWorkMode { work_mode, value },
                    StateError::UnableToControlHumidifier { work_mode },
                ),
            },
            (ControlStage::Send { request }, ControlReply::Sent { result, now }) => match result {
                Ok(_) => self.sent(&device, request, now),
                Err(reason) => call_failed(reason),
            },
            (ControlStage::QueryLan { poll }, ControlReply::Status { result }) => match result {
                Ok(status) => {
                    self.device_mut(&poll.lan.sku, &poll.lan.device).set_lan_device_status(status);
                    if poll.expect.accepts(&status) {
                        self.notify(&poll.lan.device)
                    } else {
                        ControlStage::PauseLan { poll }
                    }
                },
                Err(reason) => call_failed(reason),
            },
            (ControlStage::PauseLan { poll }, ControlReply::Resumed { now }) => if now
                <= poll.deadline {
                ControlStage::QueryLan { poll }
            } else {
                self.notify(&poll.lan.device)
            },
            (ControlStage::Advise { device: _ }, ControlReply::Advised { result }) => match result {
                Ok(_) => ControlStage::Finished { result: Ok(()) },
                Err(reason) => call_failed(reason),
            },
            (stage, _) => stage,
        };
        ControlTask { device, stage }
    }
}

/// The last eight bits of a number.
fn low_byte_of(n: i64) -> (res: u8)
    ensures
        res == low_byte(n),
{
    let res: u8 = #[verifier::truncate]
    (n as u8);
    assert(n as u8 == (n % 256) as u8) by (bit_vector);
    res
}

} // verus!
