use govee2mqtt::control::{
    ControlReply, ControlStage, ControlTask, LanExpectation, LanPoll, LightCommand, Request,
    TemperatureValue, LAN_PAUSE_MILLIS, LAN_POLL_MILLIS,
};
use govee2mqtt::device::{
    Device, DeviceCapability, DeviceColor, DeviceFacts, DeviceType, HttpDeviceInfo, LanDevice,
    LanDeviceStatus, SetHumidifierNightlightParams, UndocDeviceInfo,
};
use govee2mqtt::error::StateError;
use govee2mqtt::state::{
    GoveeApiClient, HassClient, IotClient, LanClient, State, TemperatureScale,
};

const ID: &str = "AA:BB";

const RED: DeviceColor = DeviceColor { r: 255, g: 0, b: 1 };

fn device() -> Device {
    Device::new("H6001", ID)
}

/// A light that takes commands through the message broker.
fn facts() -> DeviceFacts {
    DeviceFacts {
        device_type: DeviceType::Light,
        iot_api_supported: true,
        iot_compatible: true,
        avoid_platform_api: false,
        pollable_via_iot: false,
        pollable_via_lan: false,
        music_mode_active: None,
        light_power_toggle_instance_name: None,
    }
}

fn dancing() -> DeviceFacts {
    DeviceFacts { music_mode_active: Some(true), ..facts() }
}

fn lan() -> LanDevice {
    LanDevice {
        sku: "H6001".to_string(),
        device: ID.to_string(),
        announcement: "{\"ip\":\"192.168.0.7\"}".to_string(),
    }
}

fn on_lan(mut device: Device) -> Device {
    device.lan_device = Some(lan());
    device
}

fn on_iot(mut device: Device) -> Device {
    device.undoc_device_info = Some(UndocDeviceInfo { entry: "{}".to_string() });
    device
}

fn on_platform(mut device: Device) -> Device {
    device.http_device_info = Some(HttpDeviceInfo {
        sku: "H6001".to_string(),
        device: ID.to_string(),
        device_name: "Desk".to_string(),
        device_type: DeviceType::Light,
        capabilities: vec![],
    });
    device
}

fn everywhere() -> Device {
    on_platform(on_iot(on_lan(device())))
}

fn connected() -> State {
    let mut state = State::new();
    state.set_lan_client(LanClient { handle: 1 });
    state.set_iot_client(IotClient { handle: 2 });
    state.set_platform_client(GoveeApiClient { handle: 3 });
    state
}

fn status() -> LanDeviceStatus {
    LanDeviceStatus {
        on: false,
        brightness: 10,
        color: DeviceColor { r: 1, g: 2, b: 3 },
        color_temperature_kelvin: 0,
    }
}

fn sending(request: Request) -> ControlStage {
    ControlStage::Send { request }
}

fn refused(error: StateError) -> ControlStage {
    ControlStage::Finished { result: Err(error) }
}

fn done() -> ControlStage {
    ControlStage::Finished { result: Ok(()) }
}

fn sent(now: u64) -> ControlReply {
    ControlReply::Sent { result: Ok(()), now }
}

/// The stage that follows a light command for which there is no packet.
fn unencoded(state: &mut State, task: ControlTask) -> ControlTask {
    state.advance_control(task, ControlReply::Encoded { command: None })
}

#[test]
fn power_goes_to_the_nearest_interface() {
    let state = connected();
    assert_eq!(
        state.device_power_on(&everywhere(), &facts(), true).stage,
        sending(Request::LanTurn { on: true })
    );
    assert_eq!(
        state.device_power_on(&on_platform(on_iot(device())), &facts(), false).stage,
        sending(Request::IotSetPower { on: false })
    );
    assert_eq!(
        state.device_power_on(&on_platform(device()), &facts(), true).stage,
        sending(Request::PlatformSetPower { on: true })
    );
    assert_eq!(
        state.device_power_on(&device(), &facts(), true).stage,
        refused(StateError::UnableToControlPower)
    );
}

#[test]
fn an_interface_needs_connection_and_device() {
    let mut state = State::new();
    let known = on_platform(on_iot(device()));
    assert_eq!(
        state.device_power_on(&known, &facts(), true).stage,
        refused(StateError::UnableToControlPower)
    );
    state.set_platform_client(GoveeApiClient { handle: 1 });
    assert_eq!(
        state.device_power_on(&known, &facts(), true).stage,
        sending(Request::PlatformSetPower { on: true })
    );
    state.set_iot_client(IotClient { handle: 1 });
    let unsupported = DeviceFacts { iot_api_supported: false, ..facts() };
    assert_eq!(
        state.device_power_on(&known, &unsupported, true).stage,
        sending(Request::PlatformSetPower { on: true })
    );
    let mut unlisted = known.clone();
    unlisted.undoc_device_info = None;
    assert_eq!(
        state.device_power_on(&unlisted, &facts(), true).stage,
        sending(Request::PlatformSetPower { on: true })
    );
}

#[test]
fn a_night_light_packet_goes_first() {
    let mut state = connected();
    let lamp = everywhere();
    // The packet does not depend on whether the device takes other commands that way.
    let unsupported = || DeviceFacts { iot_api_supported: false, ..facts() };
    let task = state.device_set_color_rgb(&lamp, &unsupported(), 255, 0, 1);
    assert_eq!(
        task.stage,
        ControlStage::EncodeNightlight {
            params: SetHumidifierNightlightParams { on: true, brightness: 0, r: 255, g: 0, b: 1 },
            command: LightCommand::ColorRgb { color: RED },
            facts: unsupported(),
        }
    );
    state.device_mut("H6001", ID).set_active_scene(Some("Aurora".to_string()));
    let packet = ControlReply::Encoded { command: Some("MwU=".to_string()) };
    let task = state.advance_control(task, packet);
    assert_eq!(
        task.stage,
        sending(Request::IotSendReal { command: "MwU=".to_string() })
    );
    let task = state.advance_control(task, sent(0));
    assert_eq!(task.stage, done());
    // The packet leaves the scene alone.
    assert_eq!(
        state.device_by_id(ID).unwrap().active_scene.as_deref(),
        Some("Aurora")
    );
}

#[test]
fn a_packet_that_cannot_be_sent_gives_way() {
    let mut state = State::new();
    state.set_lan_client(LanClient { handle: 1 });
    let task = state.device_set_brightness(&everywhere(), &facts(), 40);
    let packet = ControlReply::Encoded { command: Some("MwU=".to_string()) };
    let task = state.advance_control(task, packet);
    assert_eq!(task.stage, sending(Request::LanBrightness { percent: 40 }));
}

#[test]
fn night_light_settings_start_from_the_last_report() {
    let state = State::new();
    let mut lamp = device();
    let reported = SetHumidifierNightlightParams { on: true, brightness: 9, r: 1, g: 2, b: 3 };
    lamp.nightlight_state = Some(reported);
    assert_eq!(
        state.device_light_power_on(&lamp, &facts(), false).stage,
        ControlStage::EncodeNightlight {
            params: SetHumidifierNightlightParams { on: false, ..reported },
            command: LightCommand::Power { on: false },
            facts: facts(),
        }
    );
    lamp.nightlight_state = Some(SetHumidifierNightlightParams { on: false, ..reported });
    assert_eq!(
        state.device_set_brightness(&lamp, &facts(), 70).stage,
        ControlStage::EncodeNightlight {
            params: SetHumidifierNightlightParams { on: true, brightness: 70, r: 1, g: 2, b: 3 },
            command: LightCommand::Brightness { percent: 70 },
            facts: facts(),
        }
    );
    assert_eq!(
        state.device_light_power_on(&device(), &facts(), true).stage,
        ControlStage::EncodeNightlight {
            params: SetHumidifierNightlightParams { on: true, brightness: 0, r: 0, g: 0, b: 0 },
            command: LightCommand::Power { on: true },
            facts: facts(),
        }
    );
}

#[test]
fn light_power_needs_a_toggle() {
    let mut state = connected();
    let task = state.device_light_power_on(&everywhere(), &facts(), true);
    assert_eq!(
        unencoded(&mut state, task).stage,
        refused(StateError::UnsupportedLightPower)
    );

    let toggle = DeviceFacts {
        light_power_toggle_instance_name: Some("nightlightToggle".to_string()),
        ..facts()
    };
    let cases = vec![
        (everywhere(), sending(Request::LanTurn { on: true })),
        (on_platform(on_iot(device())), sending(Request::IotSetPower { on: true })),
        (
            on_platform(device()),
            sending(Request::PlatformSetToggle {
                instance: "nightlightToggle".to_string(),
                on: true,
            }),
        ),
        (device(), refused(StateError::UnableToControlLightPower)),
    ];
    for (lamp, expected) in cases {
        let task = state.device_light_power_on(&lamp, &toggle, true);
        assert_eq!(unencoded(&mut state, task).stage, expected);
    }
}

#[test]
fn brightness_goes_to_the_nearest_interface() {
    let mut state = connected();
    let cases = vec![
        (everywhere(), sending(Request::LanBrightness { percent: 5 })),
        (
            on_platform(on_iot(device())),
            sending(Request::IotSetBrightness { percent: 5 }),
        ),
        (
            on_platform(device()),
            sending(Request::PlatformSetBrightness { percent: 5 }),
        ),
        (device(), refused(StateError::UnableToControlBrightness)),
    ];
    for (lamp, expected) in cases {
        let task = state.device_set_brightness(&lamp, &facts(), 5);
        assert_eq!(unencoded(&mut state, task).stage, expected);
    }
}

#[test]
fn color_in_music_mode_goes_to_the_platform() {
    let mut state = connected();
    let resting = DeviceFacts { music_mode_active: Some(false), ..facts() };
    let cases = vec![
        (everywhere(), facts(), sending(Request::LanColorRgb { color: RED })),
        (everywhere(), resting, sending(Request::LanColorRgb { color: RED })),
        (
            everywhere(),
            dancing(),
            sending(Request::PlatformSetColorRgb { color: RED }),
        ),
        (
            on_iot(on_lan(device())),
            dancing(),
            sending(Request::LanColorRgb { color: RED }),
        ),
        (
            on_iot(device()),
            dancing(),
            sending(Request::IotSetColorRgb { color: RED }),
        ),
        (
            on_platform(device()),
            facts(),
            sending(Request::PlatformSetColorRgb { color: RED }),
        ),
        (
            device(),
            dancing(),
            refused(StateError::UnableToControlColor),
        ),
    ];
    for (lamp, facts, expected) in cases {
        let task = state.device_set_color_rgb(&lamp, &facts, 255, 0, 1);
        assert_eq!(unencoded(&mut state, task).stage, expected);
    }
}

#[test]
fn color_temperature_goes_to_the_nearest_interface() {
    let state = connected();
    let cases = vec![
        (
            everywhere(),
            sending(Request::LanColorTemperatureKelvin { kelvin: 2700 }),
        ),
        (
            on_iot(device()),
            sending(Request::IotSetColorTemperature { kelvin: 2700 }),
        ),
        (
            on_platform(device()),
            sending(Request::PlatformSetColorTemperature { kelvin: 2700 }),
        ),
        (
            device(),
            refused(StateError::UnableToControlColorTemperature),
        ),
    ];
    for (lamp, expected) in cases {
        assert_eq!(state.device_set_color_temperature(&lamp, &facts(), 2700).stage, expected);
    }
}

#[test]
fn a_color_ends_the_scene_on_every_interface() {
    for lamp in [everywhere(), on_iot(device()), on_platform(device())] {
        let mut state = connected();
        state.device_mut("H6001", ID).set_active_scene(Some("Aurora".to_string()));
        let task = state.device_set_color_rgb(&lamp, &facts(), 255, 0, 1);
        let task = unencoded(&mut state, task);
        let _task = state.advance_control(task, sent(0));
        assert_eq!(state.device_by_id(ID).unwrap().active_scene, None);

        state.device_mut("H6001", ID).set_active_scene(Some("Aurora".to_string()));
        let task = state.device_set_color_temperature(&lamp, &facts(), 2700);
        let _task = state.advance_control(task, sent(0));
        assert_eq!(state.device_by_id(ID).unwrap().active_scene, None);
    }
}

#[test]
fn power_and_brightness_leave_the_scene() {
    for lamp in [everywhere(), on_iot(device()), on_platform(device())] {
        let mut state = connected();
        state.device_mut("H6001", ID).set_active_scene(Some("Aurora".to_string()));
        let task = state.device_power_on(&lamp, &facts(), false);
        let _task = state.advance_control(task, sent(0));
        let task = state.device_set_brightness(&lamp, &facts(), 1);
        let task = unencoded(&mut state, task);
        let _task = state.advance_control(task, sent(0));
        assert_eq!(
            state.device_by_id(ID).unwrap().active_scene.as_deref(),
            Some("Aurora")
        );
    }
}

#[test]
fn a_scene_goes_to_the_platform_first() {
    let mut state = connected();
    let task = state.device_set_scene(&everywhere(), &facts(), "Sunset");
    assert_eq!(
        task.stage,
        sending(Request::PlatformSetSceneByName { scene: "Sunset".to_string() })
    );
    let task = state.advance_control(task, sent(0));
    assert_eq!(task.stage, done());
    assert_eq!(
        state.device_by_id(ID).unwrap().active_scene.as_deref(),
        Some("Sunset")
    );

    let avoiding = DeviceFacts { avoid_platform_api: true, ..facts() };
    let task = state.device_set_scene(&everywhere(), &avoiding, "Forest");
    assert_eq!(
        task.stage,
        sending(Request::LanSceneByName { scene: "Forest".to_string() })
    );
    let task = state.advance_control(task, sent(0));
    assert_eq!(task.stage, done());
    assert_eq!(
        state.device_by_id(ID).unwrap().active_scene.as_deref(),
        Some("Forest")
    );

    assert_eq!(
        state.device_set_scene(&on_platform(device()), &avoiding, "Forest").stage,
        refused(StateError::UnableToSetScene)
    );
}

#[test]
fn a_work_mode_is_cut_to_bytes_for_the_packet_only() {
    let mut state = connected();
    let cases: Vec<(i64, i64, u8, u8)> = vec![
        (1, 2, 1, 2),
        (257, -1, 1, 255),
        (256, i64::MIN, 0, 0),
        (i64::MAX, -129, 255, 127),
    ];
    for (work_mode, value, mode, param) in cases {
        let task = state.humidifier_set_parameter(&on_platform(device()), work_mode, value);
        assert_eq!(
            task.stage,
            ControlStage::EncodeMode { mode, param, work_mode, value }
        );
        let task = unencoded(&mut state, task);
        assert_eq!(
            task.stage,
            sending(Request::PlatformSetWorkMode { work_mode, value })
        );
    }
    let task = state.humidifier_set_parameter(&device(), -7, 0);
    assert_eq!(
        unencoded(&mut state, task).stage,
        refused(StateError::UnableToControlHumidifier { work_mode: -7 })
    );
    let task = state.humidifier_set_parameter(&on_iot(device()), 1, 2);
    let task =
        state.advance_control(task, ControlReply::Encoded { command: Some("MwU=".to_string()) });
    assert_eq!(
        task.stage,
        sending(Request::IotSendReal { command: "MwU=".to_string() })
    );
}

#[test]
fn capabilities_and_temperatures_go_to_the_platform() {
    let mut state = connected();
    let capability = DeviceCapability {
        kind: "Toggle".to_string(),
        instance: "oscillationToggle".to_string(),
        parameters: Some("{\"dataType\":\"ENUM\"}".to_string()),
        alarm_type: Some("51".to_string()),
        event_state: Some("{}".to_string()),
    };
    let value = serde_json::Value::from(1);
    let task = state.device_control(&everywhere(), &capability, value.clone());
    assert_eq!(
        task.stage,
        sending(Request::PlatformControl { capability: capability.clone(), value: value.clone() })
    );
    let task = state.advance_control(task, sent(0));
    assert_eq!(task.stage, done());
    assert_eq!(
        state.device_control(&on_lan(device()), &capability, value).stage,
        refused(StateError::UnableToUsePlatform)
    );

    let target = TemperatureValue { bits: 21.5f64.to_bits(), scale: TemperatureScale::Celsius };
    assert_eq!(
        state.device_set_target_temperature(&everywhere(), "targetTemperature", target).stage,
        sending(Request::PlatformSetTargetTemperature {
            instance: "targetTemperature".to_string(),
            target,
        })
    );
    assert_eq!(
        state.device_set_target_temperature(&device(), "targetTemperature", target).stage,
        refused(StateError::UnableToSetTemperature)
    );
}

#[test]
fn a_command_over_the_local_network_is_polled_for() {
    let mut state = connected();
    state.set_hass_client(HassClient { handle: 4 });
    state.device_mut("H6001", ID).set_active_scene(Some("Aurora".to_string()));
    let lamp = everywhere();
    let task = state.device_set_color_rgb(&lamp, &facts(), 255, 0, 1);
    let task = unencoded(&mut state, task);
    let task = state.advance_control(task, sent(1000));
    let poll = || LanPoll {
        lan: lan(),
        expect: LanExpectation::Color { color: RED },
        deadline: 6000,
    };
    assert_eq!(task.stage, ControlStage::QueryLan { poll: poll() });
    // The scene is over before anybody is told of the colour.
    assert_eq!(state.device_by_id(ID).unwrap().active_scene, None);

    let before = ControlReply::Status { result: Ok(status()) };
    let task = state.advance_control(task, before);
    assert_eq!(task.stage, ControlStage::PauseLan { poll: poll() });
    assert_eq!(
        state.device_by_id(ID).unwrap().lan_device_status,
        Some(status())
    );

    let task = state.advance_control(task, ControlReply::Resumed { now: 6000 });
    assert_eq!(task.stage, ControlStage::QueryLan { poll: poll() });
    let shown = LanDeviceStatus { color: RED, ..status() };
    let task = state.advance_control(task, ControlReply::Status { result: Ok(shown) });
    let advised = state.device_by_id(ID).unwrap();
    assert_eq!(advised.lan_device_status, Some(shown));
    assert_eq!(advised.active_scene, None);
    assert_eq!(task.stage, ControlStage::Advise { device: advised });

    let task = state.advance_control(task, ControlReply::Advised { result: Ok(()) });
    assert_eq!(task.stage, done());
    // Nothing more happens to a task that is finished.
    let task = state.advance_control(task, sent(0));
    assert_eq!(task.stage, done());
}

#[test]
fn a_poll_ends_after_its_deadline() {
    let mut state = connected();
    let task = state.device_power_on(&everywhere(), &facts(), true);
    let task = state.advance_control(task, sent(1000));
    let task = state.advance_control(task, ControlReply::Status { result: Ok(status()) });
    let task = state.advance_control(task, ControlReply::Resumed { now: 6001 });
    // No hub is connected, so there is nobody to be told.
    assert_eq!(task.stage, done());
    assert_eq!(LAN_POLL_MILLIS, 5000);
    assert_eq!(LAN_PAUSE_MILLIS, 100);
}

#[test]
fn a_poll_needs_the_local_network() {
    let mut state = State::new();
    let task = state.device_set_color_temperature(&on_lan(device()), &facts(), 2700);
    let task = state.advance_control(task, sent(0));
    assert_eq!(task.stage, refused(StateError::LanUnavailable));
    // The command went out all the same.
    assert_eq!(state.device_by_id(ID).unwrap().active_scene, None);
}

#[test]
fn each_command_is_polled_for_what_it_set() {
    let shown = LanDeviceStatus {
        on: true,
        brightness: 40,
        color: RED,
        color_temperature_kelvin: 2700,
    };
    let cases = vec![
        LanExpectation::Power { on: true },
        LanExpectation::Brightness { percent: 40 },
        LanExpectation::ColorTemperature { kelvin: 2700 },
        LanExpectation::Color { color: RED },
    ];
    for expect in cases {
        assert!(expect.accepts(&shown));
        assert!(!expect.accepts(&status()));
    }
}

#[test]
fn a_failed_call_ends_the_command_and_changes_nothing() {
    let offline = || StateError::CallFailed { reason: "offline".to_string() };
    let mut state = connected();
    state.set_hass_client(HassClient { handle: 4 });
    state.device_mut("H6001", ID).set_active_scene(Some("Aurora".to_string()));
    let before = state.devices();

    let task = state.device_set_color_temperature(&everywhere(), &facts(), 2700);
    let failure = ControlReply::Sent { result: Err("offline".to_string()), now: 0 };
    let task = state.advance_control(task, failure);
    assert_eq!(task.stage, refused(offline()));
    assert_eq!(state.devices(), before);

    let task = state.device_power_on(&everywhere(), &facts(), true);
    let task = state.advance_control(task, sent(0));
    let failure = ControlReply::Status { result: Err("offline".to_string()) };
    let task = state.advance_control(task, failure);
    assert_eq!(task.stage, refused(offline()));
    assert_eq!(state.devices(), before);

    let task = state.device_power_on(&everywhere(), &facts(), false);
    let task = state.advance_control(task, sent(0));
    let task = state.advance_control(task, ControlReply::Status { result: Ok(status()) });
    let failure = ControlReply::Advised { result: Err("offline".to_string()) };
    let task = state.advance_control(task, failure);
    assert_eq!(task.stage, refused(offline()));
}

#[test]
fn a_reply_to_something_else_changes_nothing() {
    let mut state = connected();
    let task = state.device_power_on(&everywhere(), &facts(), true);
    let task = state.advance_control(task, ControlReply::Resumed { now: 9 });
    assert_eq!(task.stage, sending(Request::LanTurn { on: true }));
    let task = state.advance_control(task, ControlReply::Status { result: Ok(status()) });
    assert_eq!(task.stage, sending(Request::LanTurn { on: true }));
    assert!(state.devices().is_empty());
}

#[test]
fn a_command_touches_no_other_device() {
    let mut state = connected();
    state.device_mut("H6002", "other").set_active_scene(Some("Forest".to_string()));
    let other = state.device_by_id("other").unwrap();
    let task = state.device_set_color_temperature(&everywhere(), &facts(), 2700);
    let task = state.advance_control(task, sent(0));
    let _task = state.advance_control(task, ControlReply::Status { result: Ok(status()) });
    assert_eq!(state.device_by_id("other"), Some(other));
    assert_eq!(state.devices().len(), 2);
}

#[test]
fn a_command_sends_at_most_one_request() {
    let mut state = connected();
    let replies = || {
        vec![
            ControlReply::Encoded { command: Some("MwU=".to_string()) },
            sent(0),
            ControlReply::Status { result: Ok(status()) },
            ControlReply::Resumed { now: 0 },
            ControlReply::Advised { result: Ok(()) },
        ]
    };
    let mut task = state.device_set_color_temperature(&everywhere(), &facts(), 2700);
    task = state.advance_control(task, sent(0));
    for _ in 0..3 {
        for reply in replies() {
            task = state.advance_control(task, reply);
            assert!(!matches!(task.stage, ControlStage::Send { .. }));
        }
    }
}
