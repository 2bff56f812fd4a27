use govee2mqtt::catalog::{CatalogReply, CatalogStage};
use govee2mqtt::device::{
    scene_platform_signature, Device, DeviceCapability, DeviceType, HttpDeviceInfo,
};
use govee2mqtt::error::StateError;
use govee2mqtt::scene::{
    LightEffectCategory, LightEffectEntry, LightEffectScene, SceneCatalogCache,
    SceneCatalogCategory, SceneCatalogEntry,
};
use govee2mqtt::state::{GoveeApiClient, State};

const ID: &str = "AA:BB:CC:DD:EE:FF";

fn entry(name: &str, icons: &[&str], hint: Option<&str>) -> SceneCatalogEntry {
    SceneCatalogEntry {
        name: name.to_string(),
        icon_urls: icons.iter().map(|icon| icon.to_string()).collect(),
        hint: hint.map(|hint| hint.to_string()),
    }
}

fn all(scenes: Vec<SceneCatalogEntry>) -> Vec<SceneCatalogCategory> {
    vec![SceneCatalogCategory { name: "All".to_string(), scenes }]
}

fn test_scene_catalog_cache(
    platform_signature: Option<String>,
    scene_name: &str,
) -> SceneCatalogCache {
    SceneCatalogCache {
        platform_signature,
        categories: all(vec![entry(scene_name, &[], None)]),
    }
}

fn dynamic_scene_capability(instance: &str) -> DeviceCapability {
    DeviceCapability {
        kind: "DynamicScene".to_string(),
        instance: instance.to_string(),
        parameters: None,
        alarm_type: None,
        event_state: None,
    }
}

fn http_device_info(id: &str, instance: &str) -> HttpDeviceInfo {
    HttpDeviceInfo {
        sku: "H6001".to_string(),
        device: id.to_string(),
        device_name: "Test Light".to_string(),
        device_type: DeviceType::Light,
        capabilities: vec![dynamic_scene_capability(instance)],
    }
}

fn library() -> Vec<LightEffectCategory> {
    let scene = |name: &str, icon: &str, hint: &str, code: i64| LightEffectScene {
        scene_name: name.to_string(),
        icon_urls: vec![icon.to_string()],
        scenes_hint: hint.to_string(),
        light_effects: vec![LightEffectEntry { scene_code: code }],
    };
    vec![
        LightEffectCategory {
            category_name: "Nature".to_string(),
            scenes: vec![
                scene("Aurora", "aurora.png", "calm", 1),
                scene("Void", "void.png", "", 0),
            ],
        },
        LightEffectCategory {
            category_name: "Feast".to_string(),
            scenes: vec![scene("Party", "party.png", "", 2)],
        },
    ]
}

fn names(items: &[&str]) -> CatalogReply {
    CatalogReply::Names { result: Ok(items.iter().map(|item| item.to_string()).collect()) }
}

fn listed(categories: Vec<SceneCatalogCategory>) -> CatalogStage {
    CatalogStage::Finished { result: Ok(categories) }
}

/// A registry with the platform connected and one device that the platform knows.
fn platform_state() -> State {
    let mut state = State::new();
    state.set_platform_client(GoveeApiClient { handle: 1 });
    state.device_mut("H6001", ID).http_device_info = Some(http_device_info(ID, "lightScene"));
    state
}

const SIGNATURE: &str = "H6001:AA:BB:CC:DD:EE:FF:DynamicScene:lightScene";

#[test]
fn test_scene_catalog_reads_canonical_cache_for_stale_clone() {
    let mut state = State::new();
    let stale_clone = Device::new("H6001", "AA:BB:CC:DD:EE:FF");
    {
        let canonical = state.device_mut("H6001", "AA:BB:CC:DD:EE:FF");
        canonical.set_scene_catalog(test_scene_catalog_cache(None, "Aurora"));
    }

    let task = state.device_list_scenes_categorized(&stale_clone);
    let catalog = match task.stage {
        CatalogStage::Finished { result } => result.unwrap(),
        stage => panic!("waiting for {stage:?}"),
    };

    assert_eq!(catalog.len(), 1);
    assert_eq!(catalog[0].scenes[0].name, "Aurora");
}

#[test]
fn test_scene_catalog_refreshes_when_platform_metadata_arrives() {
    let mut state = State::new();
    state.set_platform_client(GoveeApiClient { handle: 1 });

    let mut device = Device::new("H6001", "AA:BB:CC:DD:EE:FF");
    device.http_device_info = Some(http_device_info(&device.id, "lightScene"));
    let stale_undoc_cache = test_scene_catalog_cache(None, "Fallback");

    assert!(state.should_refresh_scene_catalog(&device, &stale_undoc_cache));

    let current_cache = SceneCatalogCache {
        platform_signature: scene_platform_signature(&device),
        ..stale_undoc_cache
    };

    assert!(!state.should_refresh_scene_catalog(&device, &current_cache));
}

#[test]
fn a_catalog_is_fresh_without_platform_or_metadata() {
    let mut state = State::new();
    let mut device = Device::new("H6001", ID);
    let kept = test_scene_catalog_cache(Some("something else".to_string()), "Fallback");
    device.http_device_info = Some(http_device_info(ID, "lightScene"));
    assert!(!state.should_refresh_scene_catalog(&device, &kept));
    state.set_platform_client(GoveeApiClient { handle: 1 });
    assert!(state.should_refresh_scene_catalog(&device, &kept));
    device.http_device_info = None;
    assert!(!state.should_refresh_scene_catalog(&device, &kept));
}

#[test]
fn a_signature_ignores_the_order_of_capabilities() {
    let mut device = Device::new("H6001", ID);
    assert_eq!(scene_platform_signature(&device), None);
    let mut info = http_device_info(ID, "snapshot");
    info.capabilities = vec![
        dynamic_scene_capability("lightScene"),
        DeviceCapability {
            kind: "OnOff".to_string(),
            // Only kind and instance count for the signature.
            parameters: Some("{\"dataType\":\"ENUM\"}".to_string()),
            ..dynamic_scene_capability("powerSwitch")
        },
        dynamic_scene_capability("diyScene"),
    ];
    device.http_device_info = Some(info);
    let signature = "H6001:AA:BB:CC:DD:EE:FF:\
                     DynamicScene:diyScene|DynamicScene:lightScene|OnOff:powerSwitch";
    assert_eq!(scene_platform_signature(&device).as_deref(), Some(signature));
    if let Some(info) = &mut device.http_device_info {
        info.capabilities.reverse();
    }
    assert_eq!(scene_platform_signature(&device).as_deref(), Some(signature));
    // Nothing else of a capability counts.
    if let Some(info) = &mut device.http_device_info {
        info.device_name = "Renamed".to_string();
        for capability in &mut info.capabilities {
            capability.parameters = None;
            capability.alarm_type = Some("51".to_string());
            capability.event_state = Some("{}".to_string());
        }
    }
    assert_eq!(scene_platform_signature(&device).as_deref(), Some(signature));
    if let Some(info) = &mut device.http_device_info {
        info.capabilities.clear();
    }
    assert_eq!(
        scene_platform_signature(&device).as_deref(),
        Some("H6001:AA:BB:CC:DD:EE:FF:")
    );
}

#[test]
fn platform_names_are_illustrated_by_the_library() {
    let mut state = platform_state();
    let device = state.device_by_id(ID).unwrap();
    let task = state.device_list_scenes_categorized(&device);
    let signature = Some(SIGNATURE.to_string());
    assert_eq!(
        task.stage,
        CatalogStage::ListSceneNames { signature: signature.clone() }
    );
    let task = state.advance_catalog(task, names(&["Sunset", "AURORA", "void", "Sunset"]));
    assert_eq!(
        task.stage,
        CatalogStage::FetchMedia {
            signature: signature.clone(),
            names: vec!["AURORA".to_string(), "Sunset".to_string(), "void".to_string()],
        }
    );
    let task = state.advance_catalog(task, CatalogReply::Scenes { result: Ok(library()) });
    let expected = all(vec![
        entry("AURORA", &["aurora.png"], Some("calm")),
        entry("Sunset", &[], None),
        entry("void", &["void.png"], None),
    ]);
    assert_eq!(task.stage, listed(expected.clone()));
    assert_eq!(
        state.device_by_id(ID).unwrap().scene_catalog,
        Some(SceneCatalogCache { platform_signature: signature, categories: expected.clone() })
    );
    // The next listing is settled by what was kept.
    let task = state.device_list_scenes_categorized(&device);
    assert_eq!(task.stage, listed(expected.clone()));
    assert_eq!(
        State::device_list_scenes(Ok(expected)),
        Ok(vec!["AURORA".to_string(), "Sunset".to_string(), "void".to_string()])
    );
}

#[test]
fn names_stand_alone_without_the_library() {
    let mut state = platform_state();
    let device = state.device_by_id(ID).unwrap();
    let task = state.device_list_scenes_categorized(&device);
    let task = state.advance_catalog(task, names(&["Sunset"]));
    let offline = CatalogReply::Scenes { result: Err("offline".to_string()) };
    let task = state.advance_catalog(task, offline);
    assert_eq!(task.stage, listed(all(vec![entry("Sunset", &[], None)])));
}

#[test]
fn the_library_stands_in_for_a_platform_without_names() {
    let expected = vec![
        SceneCatalogCategory {
            name: "Nature".to_string(),
            scenes: vec![entry("Aurora", &["aurora.png"], Some("calm"))],
        },
        SceneCatalogCategory {
            name: "Feast".to_string(),
            scenes: vec![entry("Party", &["party.png"], None)],
        },
    ];

    let mut state = platform_state();
    let device = state.device_by_id(ID).unwrap();
    let task = state.device_list_scenes_categorized(&device);
    let task = state.advance_catalog(task, names(&[]));
    let signature = Some(SIGNATURE.to_string());
    assert_eq!(
        task.stage,
        CatalogStage::FetchScenes { signature: signature.clone() }
    );
    let task = state.advance_catalog(task, CatalogReply::Scenes { result: Ok(library()) });
    assert_eq!(task.stage, listed(expected.clone()));
    assert_eq!(
        state.device_by_id(ID).unwrap().scene_catalog.unwrap().platform_signature,
        signature
    );

    let mut state = State::new();
    let device = Device::new("H6001", ID);
    let task = state.device_list_scenes_categorized(&device);
    assert_eq!(task.stage, CatalogStage::FetchScenes { signature: None });
    let task = state.advance_catalog(task, CatalogReply::Scenes { result: Ok(library()) });
    assert_eq!(task.stage, listed(expected.clone()));
    // What was fetched is kept, also for a device that was not registered yet.
    assert_eq!(
        state.device_by_id(ID).unwrap().scene_catalog,
        Some(SceneCatalogCache { platform_signature: None, categories: expected.clone() })
    );
    assert_eq!(
        State::device_list_scenes(Ok(expected)),
        Ok(vec!["Aurora".to_string(), "Party".to_string()])
    );
}

#[test]
fn an_empty_catalog_is_not_kept() {
    let mut state = State::new();
    let device = Device::new("H6001", ID);
    let task = state.device_list_scenes_categorized(&device);
    let offline = CatalogReply::Scenes { result: Err("offline".to_string()) };
    let task = state.advance_catalog(task, offline);
    assert_eq!(task.stage, listed(vec![]));
    assert!(state.devices().is_empty());
    assert_eq!(State::device_list_scenes(Ok(vec![])), Ok(vec![]));
}

#[test]
fn kept_scenes_outlive_an_empty_fetch() {
    let mut state = platform_state();
    let kept = test_scene_catalog_cache(None, "Fallback");
    state.device_mut("H6001", ID).set_scene_catalog(kept.clone());
    let device = state.device_by_id(ID).unwrap();
    let task = state.device_list_scenes_categorized(&device);
    let task = state.advance_catalog(task, names(&[]));
    let offline = CatalogReply::Scenes { result: Err("offline".to_string()) };
    let task = state.advance_catalog(task, offline);
    assert_eq!(task.stage, listed(kept.categories.clone()));
    // The fresh signature is adopted, so the next listing does not fetch again.
    assert_eq!(
        state.device_by_id(ID).unwrap().scene_catalog.unwrap().platform_signature.as_deref(),
        Some(SIGNATURE)
    );
    let task = state.device_list_scenes_categorized(&device);
    assert_eq!(task.stage, listed(kept.categories));
}

#[test]
fn a_platform_that_fails_leaves_the_kept_scenes() {
    let offline = || CatalogReply::Names { result: Err("offline".to_string()) };
    let mut state = platform_state();
    let device = state.device_by_id(ID).unwrap();
    let task = state.device_list_scenes_categorized(&device);
    let task = state.advance_catalog(task, offline());
    let error = StateError::CallFailed { reason: "offline".to_string() };
    assert_eq!(task.stage, CatalogStage::Finished { result: Err(error) });
    let error = || StateError::CallFailed { reason: "offline".to_string() };
    assert_eq!(State::device_list_scenes(Err(error())), Err(error()));

    let kept = test_scene_catalog_cache(None, "Fallback");
    state.device_mut("H6001", ID).set_scene_catalog(kept.clone());
    let task = state.device_list_scenes_categorized(&device);
    let task = state.advance_catalog(task, offline());
    assert_eq!(task.stage, listed(kept.categories.clone()));
    assert_eq!(state.device_by_id(ID).unwrap().scene_catalog, Some(kept));
}

#[test]
fn cleared_catalogs_are_fetched_anew() {
    let mut state = State::new();
    state.device_mut("H6001", ID).set_scene_catalog(test_scene_catalog_cache(None, "Aurora"));
    let device = state.device_by_id(ID).unwrap();
    state.clear_scene_catalogs();
    let task = state.device_list_scenes_categorized(&device);
    assert_eq!(task.stage, CatalogStage::FetchScenes { signature: None });
}
