//! Polling of devices: when a device is asked for its state, and over which interface.
//!
//! Like a control task, a poll advances from stage to stage by the replies it gets.
use crate::control::{call_view, outcome_view};
use crate::device::{
    Device, DeviceFacts, DeviceFactsView, DeviceType, DeviceView, HttpDeviceState,
};
use crate::error::{StateError, StateErrorView};
use crate::state::{State, StateView};
use vstd::prelude::*;

verus! {

/// How long to wait before the platform is asked for the effect of a command, in milliseconds.
/// What it says right after the command is not guaranteed to be coherent with it.
pub const AFTER_CONTROL_MILLIS: u64 = 5000;

/// What a poll waits for.
#[derive(Debug, PartialEq, Eq)]
pub enum PollStage {
    /// Ask the message broker for a status update of the device.
    RequestIotStatus,
    /// Work out what holds of the device.
    Describe,
    /// Wait for [`AFTER_CONTROL_MILLIS`].
    Pause {
        /// What held of the device when the poll began.
        facts: DeviceFacts,
    },
    /// Ask the platform for the state of the device.
    GetDeviceState,
    /// Hand the device to the home automation hub.
    Advise { device: Device },
    /// Nothing more; the result says whether the device was polled.
    Finished { result: Result<bool, StateError> },
}

/// The contents of a [`PollStage`].
pub enum PollStageView {
    RequestIotStatus,
    Describe,
    Pause { facts: DeviceFactsView },
    GetDeviceState,
    Advise { device: DeviceView },
    Finished { result: Result<bool, StateErrorView> },
}

impl DeepView for PollStage {
    type V = PollStageView;

    open spec fn deep_view(&self) -> PollStageView {
        match self {
            PollStage::RequestIotStatus => PollStageView::RequestIotStatus,
            PollStage::Describe => PollStageView::Describe,
            PollStage::Pause { facts } => PollStageView::Pause { facts: facts@ },
            PollStage::GetDeviceState => PollStageView::GetDeviceState,
            PollStage::Advise { device } => PollStageView::Advise { device: device@ },
            PollStage::Finished { result } => PollStageView::Finished {
                result: outcome_view(*result),
            },
        }
    }
}

impl View for PollStage {
    type V = PollStageView;

    open spec fn view(&self) -> PollStageView {
        self.deep_view()
    }
}

/// A poll of a device on its way.
#[derive(Debug, PartialEq, Eq)]
pub struct PollTask {
    /// The device as it was when the poll began.
    pub device: Device,
    pub stage: PollStage,
}

/// The contents of a [`PollTask`].
pub struct PollTaskView {
    pub device: DeviceView,
    pub stage: PollStageView,
}

impl DeepView for PollTask {
    type V = PollTaskView;

    open spec fn deep_view(&self) -> PollTaskView {
        PollTaskView { device: self.device@, stage: self.stage@ }
    }
}

impl View for PollTask {
    type V = PollTaskView;

    open spec fn view(&self) -> PollTaskView {
        self.deep_view()
    }
}

/// The answer to what a poll waited for.
#[derive(Debug, PartialEq, Eq)]
pub enum PollReply {
    /// The status update was asked for, or that failed for a reason; `now` is the time in
    /// milliseconds.
    IotRequested { result: Result<(), String>, now: u64 },
    /// What holds of the device.
    Described { facts: DeviceFacts },
    /// The wait is over.
    Resumed,
    /// The platform gave the state of the device, or failed to for a reason; `now` is the time in
    /// milliseconds.
    DeviceState { result: Result<HttpDeviceState, String>, now: u64 },
    /// The hub was advised, or that failed for a reason.
    Advised { result: Result<(), String> },
}

/// The contents of a [`PollReply`].
pub enum PollReplyView {
    IotRequested { result: Result<(), Seq<char>>, now: u64 },
    Described { facts: DeviceFactsView },
    Resumed,
    DeviceState { result: Result<Seq<char>, Seq<char>>, now: u64 },
    Advised { result: Result<(), Seq<char>> },
}

impl DeepView for PollReply {
    type V = PollReplyView;

    open spec fn deep_view(&self) -> PollReplyView {
        match self {
            PollReply::IotRequested { result, now } => PollReplyView::IotRequested {
                result: call_view(*result),
                now: *now,
            },
            PollReply::Described { facts } => PollReplyView::Described { facts: facts@ },
            PollReply::Resumed => PollReplyView::Resumed,
            PollReply::DeviceState { result, now } => PollReplyView::DeviceState {
                result: match *result {
                    Ok(state) => Ok(state@),
                    Err(reason) => Err(reason@),
                },
                now: *now,
            },
            PollReply::Advised { result } => PollReplyView::Advised { result: call_view(*result) },
        }
    }
}

impl View for PollReply {
    type V = PollReplyView;

    open spec fn view(&self) -> PollReplyView {
        self.deep_view()
    }
}

/// A poll that ended well; `polled` says whether the device was polled at all.
pub open spec fn poll_done(polled: bool) -> PollStageView {
    PollStageView::Finished { result: Ok(polled) }
}

/// A poll that ended in an error.
pub open spec fn poll_failed(error: StateErrorView) -> PollStageView {
    PollStageView::Finished { result: Err(error) }
}

/// Where a poll through the message broker begins: with a request for a status update, if the
/// broker is connected and can reach the device.
pub open spec fn iot_poll(
    state: StateView,
    device: DeviceView,
    facts: DeviceFactsView,
) -> PollStageView {
    if state.reaches_via_iot(device) && facts.iot_compatible {
        PollStageView::RequestIotStatus
    } else {
        poll_done(false)
    }
}

/// Where a poll through the platform begins: with a request for the state of the device, if the
/// platform is connected, knows the device, and the device is of a known type.
pub open spec fn platform_poll(
    state: StateView,
    device: DeviceView,
    facts: DeviceFactsView,
) -> PollStageView {
    if state.reaches_via_platform(device) && !(facts.device_type is Other) {
        PollStageView::GetDeviceState
    } else {
        poll_done(false)
    }
}

/// Whether the effect of a command has to be asked for: not where the device reports it by
/// itself.
pub open spec fn needs_poll_after_control(state: StateView, facts: DeviceFactsView) -> bool {
    !(facts.pollable_via_iot && state.iot_client is Some) && !facts.pollable_via_lan
}

impl StateView {
    /// The registry with the time of a poll noted.
    pub open spec fn with_poll(self, device: DeviceView, now: u64) -> StateView {
        let known = self.device_or_fresh(device.sku, device.id);
        self.with_device(device.id, DeviceView { last_polled: Some(now), ..known })
    }

    /// The registry with what the platform reported noted.
    pub open spec fn with_report(
        self,
        device: DeviceView,
        report: Seq<char>,
        now: u64,
    ) -> StateView {
        let known = self.device_or_fresh(device.sku, device.id);
        self.with_device(
            device.id,
            DeviceView { http_device_state: Some(report), last_polled: Some(now), ..known },
        )
    }
}

/// What a reply does to the registry and to the poll that waited for it. A reply to something
/// else does nothing.
pub open spec fn poll_step(state: StateView, task: PollTaskView, reply: PollReplyView) -> (
    StateView,
    PollStageView,
) {
    let device = task.device;
    match (task.stage, reply) {
        (PollStageView::RequestIotStatus, PollReplyView::IotRequested { result, now }) => match result {
            Ok(_) => (state.with_poll(device, now), poll_done(true)),
            Err(_) => (state, poll_done(false)),
        },
        (PollStageView::Describe, PollReplyView::Described { facts }) => (
            state,
            if needs_poll_after_control(state, facts) {
                PollStageView::Pause { facts }
            } else {
                poll_done(false)
            },
        ),
        (PollStageView::Pause { facts }, PollReplyView::Resumed) => (
            state,
            platform_poll(state, device, facts),
        ),
        (PollStageView::GetDeviceState, PollReplyView::DeviceState { result, now }) => match result {
            Ok(report) => {
                let after = state.with_report(device, report, now);
                if after.hass_client is Some {
                    (after, PollStageView::Advise { device: after.devices[device.id] })
                } else {
                    (after, poll_done(true))
                }
            },
            Err(reason) => (state, poll_failed(StateErrorView::CallFailed { reason })),
        },
        (PollStageView::Advise { .. }, PollReplyView::Advised { result }) => match result {
            Ok(_) => (state, poll_done(true)),
            Err(reason) => (state, poll_failed(StateErrorView::CallFailed { reason })),
        },
        (stage, _) => (state, stage),
    }
}

fn failed_call(reason: String) -> (res: PollStage)
    ensures
        res@ == poll_failed(StateErrorView::CallFailed { reason: reason@ }),
{
    PollStage::Finished { result: Err(StateError::CallFailed { reason }) }
}

impl State {
    /// Begins to poll a device through the message broker.
    pub fn poll_iot_api(&self, device: &Device, facts: &DeviceFacts) -> (res: PollTask)
        ensures
            res@ == (PollTaskView { device: device@, stage: iot_poll(self@, device@, facts@) }),
    {
        let mut stage = PollStage::Finished { result: Ok(false) };
        if self.has_iot(device) && facts.iot_compatible {
            stage = PollStage::RequestIotStatus;
        }
        PollTask { device: device.clone(), stage }
    }

    /// Begins to poll a device through the platform.
    pub fn poll_platform_api(&self, device: &Device, facts: &DeviceFacts) -> (res: PollTask)
        ensures
            res@ == (PollTaskView {
                device: device@,
                stage: platform_poll(self@, device@, facts@),
            }),
    {
        PollTask { device: device.clone(), stage: self.begin_platform_poll(device, facts) }
    }

    fn begin_platform_poll(&self, device: &Device, facts: &DeviceFacts) -> (res: PollStage)
        ensures
            res@ == platform_poll(self@, device@, facts@),
    {
        // A device of unknown type cannot be polled.
        let known = match &facts.device_type {
            DeviceType::Other(_) => false,
            _ => true,
        };
        if self.has_platform(device) && known {
            PollStage::GetDeviceState
        } else {
            PollStage::Finished { result: Ok(false) }
        }
    }

    /// Begins to poll a device for the effect of a command, a short time after the command. There
    /// is nothing to be done for a device that is not registered. What holds of the device decides
    /// next whether it reports by itself.
    pub fn poll_after_control(&self, id: &str) -> (res: Option<PollTask>)
        requires
            self.wf(),
        ensures
            res is Some <==> self@.device(id@) is Some,
            res is Some ==> res->0@ == (PollTaskView {
                device: self@.device(id@)->0,
                stage: PollStageView::Describe,
            }),
    {
        match self.device_by_id(id) {
            Some(device) => Some(PollTask { device, stage: PollStage::Describe }),
            None => None,
        }
    }

    /// Takes a poll on by one reply. A reply to something that the poll does not wait for changes
    /// nothing.
    pub fn advance_poll(&mut self, task: PollTask, reply: PollReply) -> (res: PollTask)
        requires
            old(self).wf(),
        ensures
            final(self).wf(),
            res@.device == task@.device,
            (final(self)@, res@.stage) == poll_step(old(self)@, task@, reply@),
    {
        let device = task.device;
        let stage = match (task.stage, reply) {
            (PollStage::RequestIotStatus, PollReply::IotRequested { result, now }) => match result {
                Ok(_) => {
                    // The response will come in by itself later.
                    // However, if the device is offline, nothing will change our state.
                    // Let's explicitly mark the device as having been polled so that
                    // we don't keep sending a request every minute.
                    self.device_mut(&device.sku, &device.id).set_last_polled(now);
                    PollStage::Finished { result: Ok(true) }
                },
                Err(_) => PollStage::Finished { result: Ok(false) },
            },
            (PollStage::Describe, PollReply::Described { facts }) => {
                let iot_available = self.get_iot_client().is_some();
                if (facts.pollable_via_iot && iot_available) || facts.pollable_via_lan {
                    PollStage::Finished { result: Ok(false) }
                } else {
                    PollStage::Pause { facts }
                }
            },
            (PollStage::Pause { facts }, PollReply::Resumed) => self.begin_platform_poll(
                &device,
                &facts,
            ),
            (PollStage::GetDeviceState, PollReply::DeviceState { result, now }) => match result {
                Ok(report) => {
                    let ghost before = self@;
                    {
                        let entry = self.device_mut(&device.sku, &device.id);
                        entry.set_http_device_state(report);
                        entry.set_last_polled(now);
                    }
                    assert(self@ == before.with_report(device@, report@, now));
                    match self.notify_of_state_change(&device.id) {
                        Ok(Some(device)) => PollStage::Advise { device },
                        Ok(None) => PollStage::Finished { result: Ok(true) },
                        Err(error) => PollStage::Finished { result: Err(error) },
                    }
                },
                Err(reason) => failed_call(reason),
            },
            (PollStage::Advise { device: _ }, PollReply::Advised { result }) => match result {
                Ok(_) => PollStage::Finished { result: Ok(true) },
                Err(reason) => failed_call(reason),
            },
            (stage, _) => stage,
        };
        PollTask { device, stage }
    }
}

} // verus!
