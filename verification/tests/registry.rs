use govee2mqtt::device::{Device, DeviceNames};
use govee2mqtt::error::StateError;
use govee2mqtt::scene::{SceneCatalogCache, SceneCatalogCategory, SceneCatalogEntry};
use govee2mqtt::state::{
    GoveeApiClient, GoveeUndocumentedApi, HassClient, IotClient, LanClient, State,
    TemperatureScale,
};

fn test_scene_catalog_cache(
    platform_signature: Option<String>,
    scene_name: &str,
) -> SceneCatalogCache {
    SceneCatalogCache {
        platform_signature,
        categories: vec![SceneCatalogCategory {
            name: "All".to_string(),
            scenes: vec![SceneCatalogEntry {
                name: scene_name.to_string(),
                icon_urls: vec![],
                hint: None,
            }],
        }],
    }
}

fn names(name: &str, computed_name: &str, topic_safe_id: &str, ip: Option<&str>) -> DeviceNames {
    DeviceNames {
        name: name.to_string(),
        computed_name: computed_name.to_string(),
        topic_safe_id: topic_safe_id.to_string(),
        ip_addr: ip.map(|ip| ip.to_string()),
    }
}

fn ids(state: &State) -> Vec<String> {
    state.devices().into_iter().map(|device| device.id).collect()
}

#[test]
fn test_state_temperature_scale_default() {
    let state = State::new();
    let scale = state.get_temperature_scale();
    // Default should be Celsius
    assert!(matches!(scale, TemperatureScale::Celsius));
}

#[test]
fn test_state_temperature_scale_round_trip() {
    let mut state = State::new();
    state.set_temperature_scale(TemperatureScale::Fahrenheit);
    let scale = state.get_temperature_scale();
    assert!(matches!(scale, TemperatureScale::Fahrenheit));
}

#[test]
fn test_state_hass_disco_prefix_default_empty() {
    let state = State::new();
    let prefix = state.get_hass_disco_prefix();
    assert_eq!(prefix, "");
}

#[test]
fn test_state_hass_disco_prefix_round_trip() {
    let mut state = State::new();
    state.set_hass_disco_prefix("homeassistant".to_string());
    let prefix = state.get_hass_disco_prefix();
    assert_eq!(prefix, "homeassistant");
}

#[test]
fn test_state_device_mut_creates_device() {
    let mut state = State::new();
    {
        let _device = state.device_mut("H6001", "AA:BB:CC:DD:EE:FF");
    }
    let devices = state.devices();
    assert_eq!(devices.len(), 1);
}

#[test]
fn test_state_devices_empty_by_default() {
    let state = State::new();
    let devices = state.devices();
    assert!(devices.is_empty());
}

#[test]
fn test_clear_scene_catalogs_drops_cached_catalog() {
    let mut state = State::new();
    {
        let canonical = state.device_mut("H6001", "AA:BB:CC:DD:EE:FF");
        canonical.set_scene_catalog(test_scene_catalog_cache(None, "Aurora"));
    }
    assert!(state
        .device_by_id("AA:BB:CC:DD:EE:FF")
        .unwrap()
        .scene_catalog_cache()
        .is_some());

    state.clear_scene_catalogs();

    assert!(state
        .device_by_id("AA:BB:CC:DD:EE:FF")
        .unwrap()
        .scene_catalog_cache()
        .is_none());
}

#[test]
fn clearing_catalogs_keeps_everything_else() {
    let mut state = State::new();
    for id in ["one", "two"] {
        let device = state.device_mut("H6001", id);
        device.set_active_scene(Some("Aurora".to_string()));
        device.set_scene_catalog(test_scene_catalog_cache(None, "Aurora"));
    }
    state.clear_scene_catalogs();
    assert_eq!(ids(&state), vec!["one", "two"]);
    for device in state.devices() {
        assert_eq!(device.scene_catalog, None);
        assert_eq!(device.active_scene.as_deref(), Some("Aurora"));
    }
}

#[test]
fn what_is_written_to_a_device_is_read_back() {
    let mut state = State::new();
    state.device_mut("H6001", "one").set_last_polled(7);
    state.device_mut("H6002", "two").set_last_polled(8);
    // The model counts only for a device that is new.
    state.device_mut("H7000", "one").set_active_scene(Some("Aurora".to_string()));
    assert_eq!(ids(&state), vec!["one", "two"]);
    let one = state.device_by_id("one").unwrap();
    assert_eq!(one.sku, "H6001");
    assert_eq!(one.last_polled, Some(7));
    assert_eq!(one.active_scene.as_deref(), Some("Aurora"));
    let two = state.device_by_id("two").unwrap();
    assert_eq!(two.sku, "H6002");
    assert_eq!(two.last_polled, Some(8));
    assert_eq!(two.active_scene, None);
    assert_eq!(state.device_by_id("ONE"), None);
}

#[test]
fn a_new_device_is_known_by_model_and_id_only() {
    let mut state = State::new();
    let device = state.device_mut("H6001", "one").clone();
    assert_eq!(device, Device::new("H6001", "one"));
    assert_eq!(device.lan_device, None);
    assert_eq!(device.http_device_info, None);
    assert_eq!(device.undoc_device_info, None);
    assert_eq!(device.record, "");
}

#[test]
fn a_device_goes_by_each_of_its_names_in_any_case() {
    let mut state = State::new();
    state.device_mut("H6001", "AA:BB");
    let called = vec![names("Desk Lamp", "H6001_AABB", "aabb_topic", Some("fe80::A"))];
    for label in [
        "AA:BB",
        "aa:bb",
        "Desk Lamp",
        "dESK lAMP",
        "h6001_aabb",
        "AABB_TOPIC",
        "FE80::a",
    ] {
        assert_eq!(state.resolve_device(label, &called).unwrap().id, "AA:BB");
        assert_eq!(state.resolve_device_read_only(label, &called).unwrap().id, "AA:BB");
    }
    assert_eq!(state.resolve_device("Desk", &called), None);
    assert_eq!(state.resolve_device("", &called), None);
    assert_eq!(
        state.resolve_device_read_only("Desk", &called),
        Err(StateError::LabelNotFound { label: "Desk".to_string() })
    );
}

#[test]
fn a_label_follows_the_names_of_the_moment() {
    let mut state = State::new();
    state.device_mut("H6001", "one");
    let before = vec![names("H6001_ONE", "H6001_ONE", "one", None)];
    let after = vec![names("Desk Lamp", "H6001_ONE", "one", None)];
    assert_eq!(state.resolve_device("desk lamp", &before), None);
    assert_eq!(state.resolve_device("desk lamp", &after).unwrap().id, "one");
    assert_eq!(state.resolve_device("h6001_one", &before).unwrap().id, "one");
    assert_eq!(state.resolve_device("h6001_one", &after).unwrap().id, "one");
    // Without an address, no label is one.
    assert_eq!(state.resolve_device("192.168.0.7", &after), None);
}

#[test]
fn an_id_goes_before_a_name() {
    let mut state = State::new();
    state.device_mut("H6001", "one");
    state.device_mut("H6001", "two");
    let called = vec![
        names("two", "H6001_ONE", "t1", None),
        names("three", "H6001_TWO", "t2", None),
    ];
    assert_eq!(state.resolve_device("two", &called).unwrap().id, "two");
    // In another case it is no id, and the device that was registered first counts.
    assert_eq!(state.resolve_device("TWO", &called).unwrap().id, "one");
    assert_eq!(state.resolve_device("Three", &called).unwrap().id, "two");
    assert_eq!(State::new().resolve_device("two", &vec![]), None);
}

#[test]
fn one_semaphore_per_device() {
    let mut state = State::new();
    state.device_mut("H6001", "one");
    state.device_mut("H6001", "two");
    let called = vec![
        names("Lamp", "H6001_ONE", "t1", None),
        names("Fan", "H6001_TWO", "t2", None),
    ];
    let first = state.resolve_device_for_control("one", &called).unwrap();
    let second = state.resolve_device_for_control("TWO", &called).unwrap();
    let again = state.resolve_device_for_control("lamp", &called).unwrap();
    assert_eq!(first.device.id, "one");
    assert_eq!(second.device.id, "two");
    assert_eq!(first.semaphore, 0);
    assert_eq!(second.semaphore, 1);
    assert_eq!(again.semaphore, 0);
    assert_eq!(state.semaphore_for_device(&second.device), 1);
    assert_eq!(
        state.resolve_device_for_control("three", &called),
        Err(StateError::LabelNotFound { label: "three".to_string() })
    );
}

#[test]
fn the_hub_is_told_if_it_is_connected() {
    let mut state = State::new();
    assert_eq!(
        state.notify_of_state_change("one"),
        Err(StateError::DeviceNotFound { id: "one".to_string() })
    );
    state.device_mut("H6001", "one").set_last_polled(3);
    assert_eq!(state.notify_of_state_change("one"), Ok(None));
    state.set_hass_client(HassClient { handle: 1 });
    let advised = state.notify_of_state_change("one").unwrap().unwrap();
    assert_eq!(advised.last_polled, Some(3));
    assert_eq!(advised, state.device_by_id("one").unwrap());
}

#[test]
fn connections_are_read_back() {
    let mut state = State::new();
    assert_eq!(state.get_lan_client(), None);
    assert_eq!(state.get_platform_client(), None);
    assert_eq!(state.get_undoc_client(), None);
    assert_eq!(state.get_iot_client(), None);
    assert_eq!(state.get_hass_client(), None);
    state.set_lan_client(LanClient { handle: 1 });
    state.set_platform_client(GoveeApiClient { handle: 2 });
    state.set_undoc_client(GoveeUndocumentedApi { handle: 3 });
    state.set_iot_client(IotClient { handle: 4 });
    state.set_hass_client(HassClient { handle: 5 });
    assert_eq!(state.get_lan_client(), Some(LanClient { handle: 1 }));
    assert_eq!(state.get_platform_client(), Some(GoveeApiClient { handle: 2 }));
    assert_eq!(state.get_undoc_client(), Some(GoveeUndocumentedApi { handle: 3 }));
    assert_eq!(state.get_iot_client(), Some(IotClient { handle: 4 }));
    assert_eq!(state.get_hass_client(), Some(HassClient { handle: 5 }));
    state.set_iot_client(IotClient { handle: 6 });
    assert_eq!(state.get_iot_client(), Some(IotClient { handle: 6 }));
}

#[test]
fn errors_are_put_into_words() {
    let cases: Vec<(StateError, &str)> = vec![
        (
            StateError::LabelNotFound { label: "Lamp".to_string() },
            "device 'Lamp' not found",
        ),
        (
            StateError::DeviceNotFound { id: "AA:BB".to_string() },
            "Device not found: AA:BB",
        ),
        (
            StateError::LanUnavailable,
            "LAN control unavailable: no LAN client connected",
        ),
        (
            StateError::UnsupportedLightPower,
            "Unsupported light-only power command for Desk. \
             Please share the device metadata and state if you report this issue",
        ),
        (
            StateError::UnableToUsePlatform,
            "Unable to use Platform API to control Desk",
        ),
        (
            StateError::UnableToControlLightPower,
            "Unable to control light power state for Desk",
        ),
        (
            StateError::UnableToControlPower,
            "Unable to control power state for Desk",
        ),
        (
            StateError::UnableToControlBrightness,
            "Unable to control brightness for Desk",
        ),
        (
            StateError::UnableToControlColorTemperature,
            "Unable to control color temperature for Desk",
        ),
        (
            StateError::UnableToControlColor,
            "Unable to control color for Desk",
        ),
        (
            StateError::UnableToControlHumidifier { work_mode: 3 },
            "Unable to control humidifier parameter work_mode=3 for Desk",
        ),
        (
            StateError::UnableToControlHumidifier { work_mode: -120 },
            "Unable to control humidifier parameter work_mode=-120 for Desk",
        ),
        (
            StateError::UnableToControlHumidifier { work_mode: i64::MIN },
            "Unable to control humidifier parameter work_mode=-9223372036854775808 for Desk",
        ),
        (
            StateError::UnableToControlHumidifier { work_mode: 0 },
            "Unable to control humidifier parameter work_mode=0 for Desk",
        ),
        (
            StateError::UnableToSetTemperature,
            "Unable to set temperature for Desk",
        ),
        (StateError::UnableToSetScene, "Unable to set scene for Desk"),
        (StateError::CallFailed { reason: "timeout".to_string() }, "timeout"),
    ];
    for (error, expected) in cases {
        assert_eq!(error.message("Desk"), expected);
    }
}

#[test]
fn the_default_registry_is_a_new_one() {
    let state = State::default();
    assert!(state.devices().is_empty());
    assert_eq!(state.get_hass_disco_prefix(), "");
    assert_eq!(state.get_temperature_scale(), TemperatureScale::Celsius);
    assert_eq!(state.get_platform_client(), None);
}
