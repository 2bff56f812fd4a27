use govee2mqtt::device::{
    Device, DeviceFacts, DeviceType, HttpDeviceInfo, HttpDeviceState, UndocDeviceInfo,
};
use govee2mqtt::error::StateError;
use govee2mqtt::polling::{PollReply, PollStage, AFTER_CONTROL_MILLIS};
use govee2mqtt::state::{GoveeApiClient, HassClient, IotClient, State};

const ID: &str = "AA:BB";

fn lamp() -> Device {
    let mut device = Device::new("H6001", ID);
    device.undoc_device_info = Some(UndocDeviceInfo { entry: "{}".to_string() });
    device.http_device_info = Some(HttpDeviceInfo {
        sku: "H6001".to_string(),
        device: ID.to_string(),
        device_name: "Desk".to_string(),
        device_type: DeviceType::Light,
        capabilities: vec![],
    });
    device
}

fn facts() -> DeviceFacts {
    DeviceFacts {
        device_type: DeviceType::Light,
        iot_api_supported: true,
        iot_compatible: true,
        avoid_platform_api: false,
        pollable_via_iot: false,
        pollable_via_lan: false,
        music_mode_active: None,
        light_power_toggle_instance_name: None,
    }
}

fn report() -> HttpDeviceState {
    HttpDeviceState { document: "{\"online\":true}".to_string() }
}

fn ended(polled: bool) -> PollStage {
    PollStage::Finished { result: Ok(polled) }
}

#[test]
fn the_broker_is_asked_for_a_status() {
    let mut state = State::new();
    assert_eq!(state.poll_iot_api(&lamp(), &facts()).stage, ended(false));
    state.set_iot_client(IotClient { handle: 1 });
    let task = state.poll_iot_api(&lamp(), &facts());
    assert_eq!(task.stage, PollStage::RequestIotStatus);
    let task = state.advance_poll(task, PollReply::IotRequested { result: Ok(()), now: 17 });
    assert_eq!(task.stage, ended(true));
    assert_eq!(state.device_by_id(ID).unwrap().last_polled, Some(17));
    assert_eq!(state.device_by_id(ID).unwrap().sku, "H6001");

    let incompatible = DeviceFacts { iot_compatible: false, ..facts() };
    assert_eq!(state.poll_iot_api(&lamp(), &incompatible).stage, ended(false));
    let mut unlisted = lamp();
    unlisted.undoc_device_info = None;
    assert_eq!(state.poll_iot_api(&unlisted, &facts()).stage, ended(false));
}

#[test]
fn a_failed_request_leaves_the_device_unpolled() {
    let mut state = State::new();
    state.set_iot_client(IotClient { handle: 1 });
    let task = state.poll_iot_api(&lamp(), &facts());
    let failure = PollReply::IotRequested { result: Err("offline".to_string()), now: 17 };
    let task = state.advance_poll(task, failure);
    assert_eq!(task.stage, ended(false));
    assert!(state.devices().is_empty());
}

#[test]
fn the_platform_is_asked_for_the_state() {
    let mut state = State::new();
    assert_eq!(state.poll_platform_api(&lamp(), &facts()).stage, ended(false));
    state.set_platform_client(GoveeApiClient { handle: 1 });
    let task = state.poll_platform_api(&lamp(), &facts());
    assert_eq!(task.stage, PollStage::GetDeviceState);
    let answer = PollReply::DeviceState { result: Ok(report()), now: 23 };
    let task = state.advance_poll(task, answer);
    assert_eq!(task.stage, ended(true));
    let polled = state.device_by_id(ID).unwrap();
    assert_eq!(polled.http_device_state, Some(report()));
    assert_eq!(polled.last_polled, Some(23));
}

#[test]
fn the_hub_hears_of_a_polled_state() {
    let mut state = State::new();
    state.set_platform_client(GoveeApiClient { handle: 1 });
    state.set_hass_client(HassClient { handle: 2 });
    let task = state.poll_platform_api(&lamp(), &facts());
    let answer = PollReply::DeviceState { result: Ok(report()), now: 23 };
    let task = state.advance_poll(task, answer);
    let advised = state.device_by_id(ID).unwrap();
    assert_eq!(advised.http_device_state, Some(report()));
    assert_eq!(task.stage, PollStage::Advise { device: advised });
    let task = state.advance_poll(task, PollReply::Advised { result: Ok(()) });
    assert_eq!(task.stage, ended(true));

    let task = state.poll_platform_api(&lamp(), &facts());
    let answer = PollReply::DeviceState { result: Ok(report()), now: 24 };
    let task = state.advance_poll(task, answer);
    let failure = PollReply::Advised { result: Err("offline".to_string()) };
    let task = state.advance_poll(task, failure);
    assert_eq!(
        task.stage,
        PollStage::Finished {
            result: Err(StateError::CallFailed { reason: "offline".to_string() }),
        }
    );
}

#[test]
fn a_platform_that_fails_changes_nothing() {
    let mut state = State::new();
    state.set_platform_client(GoveeApiClient { handle: 1 });
    let task = state.poll_platform_api(&lamp(), &facts());
    let failure = PollReply::DeviceState { result: Err("offline".to_string()), now: 23 };
    let task = state.advance_poll(task, failure);
    assert_eq!(
        task.stage,
        PollStage::Finished {
            result: Err(StateError::CallFailed { reason: "offline".to_string() }),
        }
    );
    assert!(state.devices().is_empty());
}

#[test]
fn a_device_of_unknown_type_is_not_polled() {
    let mut state = State::new();
    state.set_platform_client(GoveeApiClient { handle: 1 });
    let of_type = |device_type: DeviceType| DeviceFacts { device_type, ..facts() };
    let kettle = of_type(DeviceType::Other("devices.types.kettle".to_string()));
    assert_eq!(state.poll_platform_api(&lamp(), &kettle).stage, ended(false));
    let humidifier = of_type(DeviceType::Known("Humidifier".to_string()));
    assert_eq!(
        state.poll_platform_api(&lamp(), &humidifier).stage,
        PollStage::GetDeviceState
    );
    let mut unknown = lamp();
    unknown.http_device_info = None;
    assert_eq!(state.poll_platform_api(&unknown, &facts()).stage, ended(false));
}

#[test]
fn a_device_that_reports_by_itself_is_not_polled_after_control() {
    let mut state = State::new();
    assert_eq!(state.poll_after_control(ID), None);
    state.device_mut("H6001", ID);
    let begin = |state: &mut State, facts: DeviceFacts| {
        let task = state.poll_after_control(ID).unwrap();
        assert_eq!(task.stage, PollStage::Describe);
        assert_eq!(task.device.id, ID);
        state.advance_poll(task, PollReply::Described { facts }).stage
    };
    let iot = || DeviceFacts { pollable_via_iot: true, ..facts() };
    let lan = || DeviceFacts { pollable_via_lan: true, ..facts() };
    // Without the broker the device cannot report through it.
    assert_eq!(begin(&mut state, iot()), PollStage::Pause { facts: iot() });
    state.set_iot_client(IotClient { handle: 1 });
    assert_eq!(begin(&mut state, iot()), ended(false));
    assert_eq!(begin(&mut state, facts()), PollStage::Pause { facts: facts() });
    assert_eq!(begin(&mut state, lan()), ended(false));
}

#[test]
fn a_poll_after_control_waits_and_then_asks_the_platform() {
    let mut state = State::new();
    *state.device_mut("H6001", ID) = lamp();
    let begin = |state: &mut State| {
        let task = state.poll_after_control(ID).unwrap();
        state.advance_poll(task, PollReply::Described { facts: facts() })
    };
    let task = begin(&mut state);
    let task = state.advance_poll(task, PollReply::Resumed);
    assert_eq!(task.stage, ended(false));
    state.set_platform_client(GoveeApiClient { handle: 1 });
    let task = begin(&mut state);
    let early = PollReply::DeviceState { result: Ok(report()), now: 1 };
    let task = state.advance_poll(task, early);
    assert_eq!(task.stage, PollStage::Pause { facts: facts() });
    let task = state.advance_poll(task, PollReply::Resumed);
    assert_eq!(task.stage, PollStage::GetDeviceState);
    assert_eq!(AFTER_CONTROL_MILLIS, 5000);
}
