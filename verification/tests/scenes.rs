use govee2mqtt::order::{dedup_names, sort_names, SortKey};
use govee2mqtt::scene::{
    catalog_categories, enrich_scene_names, flatten_catalog, scene_hint, scene_media_by_name,
    sort_and_dedup_scenes, LightEffectCategory, LightEffectEntry, LightEffectScene,
    SceneCatalogCategory, SceneCatalogEntry, SceneMedia,
};
use govee2mqtt::text::comes_before;

fn texts(items: &[&str]) -> Vec<String> {
    items.iter().map(|item| item.to_string()).collect()
}

fn scene(name: &str, icons: &[&str], hint: &str, codes: &[i64]) -> LightEffectScene {
    LightEffectScene {
        scene_name: name.to_string(),
        icon_urls: texts(icons),
        scenes_hint: hint.to_string(),
        light_effects: codes.iter().map(|code| LightEffectEntry { scene_code: *code }).collect(),
    }
}

fn category(name: &str, scenes: Vec<LightEffectScene>) -> LightEffectCategory {
    LightEffectCategory { category_name: name.to_string(), scenes }
}

fn entry(name: &str, icons: &[&str], hint: Option<&str>) -> SceneCatalogEntry {
    SceneCatalogEntry {
        name: name.to_string(),
        icon_urls: texts(icons),
        hint: hint.map(|hint| hint.to_string()),
    }
}

#[test]
fn test_enrich_scene_names_uses_platform_spine_with_undoc_media() {
    // Platform is the authoritative controllable set; the scene library supplies icons/hints.
    let mut media = SceneMedia::new();
    media.insert(
        "aurora".to_string(),
        (
            vec!["https://example.com/aurora.png".to_string()],
            Some("calm".to_string()),
        ),
    );
    // The library has a scene the platform does NOT list: it must be dropped.
    media.insert(
        "undoc only".to_string(),
        (vec!["https://example.com/x.png".to_string()], None),
    );

    // Platform lists "Aurora" (matches, case-insensitively via "AURORA") and
    // "Music: Energic" (platform-only, no media).
    let names = vec!["AURORA".to_string(), "Music: Energic".to_string()];
    let scenes = enrich_scene_names(names, &media);

    // Exactly the platform set, in platform order.
    assert_eq!(scenes.len(), 2);
    assert_eq!(scenes[0].name, "AURORA");
    assert_eq!(
        scenes[0].icon_urls,
        vec!["https://example.com/aurora.png".to_string()]
    );
    assert_eq!(scenes[0].hint.as_deref(), Some("calm"));

    // Platform-only scene survives (controllable) but carries no thumbnail.
    assert_eq!(scenes[1].name, "Music: Energic");
    assert!(scenes[1].icon_urls.is_empty());
    assert_eq!(scenes[1].hint, None);

    assert!(!scenes
        .iter()
        .any(|s| s.name.eq_ignore_ascii_case("undoc only")));
}

#[test]
fn test_scene_catalog_entry_hint_empty_string_convention() {
    // An empty hint text becomes None, a non-empty one becomes Some.
    let empty_hint = "";
    let result: Option<String> = scene_hint(empty_hint.to_string());
    assert_eq!(result, None);

    let non_empty_hint = "Gentle pulsing warmth";
    let result: Option<String> = scene_hint(non_empty_hint.to_string());
    assert_eq!(result, Some("Gentle pulsing warmth".to_string()));
}

#[test]
fn test_sort_and_dedup_scenes() {
    let scenes = vec![
        "Sunset".to_string(),
        "aurora".to_string(),
        "Blaze".to_string(),
        "aurora".to_string(),
        "Sunset".to_string(),
    ];
    let result = sort_and_dedup_scenes(scenes);
    assert_eq!(result, vec!["aurora", "Blaze", "Sunset"]);
}

#[test]
fn test_sort_and_dedup_scenes_empty() {
    let result = sort_and_dedup_scenes(vec![]);
    assert!(result.is_empty());
}

#[test]
fn test_sort_and_dedup_scenes_case_insensitive_order() {
    // Verify case-insensitive sorting keeps correct order
    let scenes = vec!["Zelda".to_string(), "alpha".to_string(), "Beta".to_string()];
    let result = sort_and_dedup_scenes(scenes);
    assert_eq!(result, vec!["alpha", "Beta", "Zelda"]);
}

#[test]
fn names_that_differ_in_case_stay_in_the_order_they_came_in() {
    let result = sort_and_dedup_scenes(texts(&["b", "aurora", "Aurora", "aurora", "AURORA"]));
    assert_eq!(result, texts(&["aurora", "Aurora", "aurora", "AURORA", "b"]));
}

#[test]
fn sorting_twice_is_sorting_once() {
    let once = sort_and_dedup_scenes(texts(&["x", "Y", "x", "X", "a", "A", "a"]));
    assert_eq!(once, texts(&["a", "A", "a", "x", "X", "Y"]));
    assert_eq!(sort_and_dedup_scenes(once.clone()), once);
}

#[test]
fn only_ascii_letters_are_folded() {
    // The capital umlaut is not folded, so it stays behind the plain letters and apart from the
    // small one.
    let result = sort_and_dedup_scenes(texts(&["ä", "Z", "Ä", "a"]));
    assert_eq!(result, texts(&["a", "Z", "Ä", "ä"]));
}

#[test]
fn plain_order_puts_capitals_first() {
    assert_eq!(
        sort_names(SortKey::Plain, texts(&["b", "a", "B", "A", ""])),
        texts(&["", "A", "B", "a", "b"])
    );
    assert_eq!(
        sort_names(SortKey::Folded, texts(&["b", "a", "B", "A", ""])),
        texts(&["", "a", "A", "b", "B"])
    );
}

#[test]
fn plain_order_does_not_depend_on_the_order_of_arrival() {
    let sorted = texts(&["a", "b", "b", "c"]);
    assert_eq!(sort_names(SortKey::Plain, texts(&["c", "b", "a", "b"])), sorted);
    assert_eq!(sort_names(SortKey::Plain, texts(&["b", "b", "c", "a"])), sorted);
}

#[test]
fn only_neighbours_are_deduplicated() {
    assert_eq!(
        dedup_names(texts(&["a", "a", "b", "a", "a", "a"])),
        texts(&["a", "b", "a"])
    );
}

#[test]
fn a_prefix_comes_first() {
    assert!(comes_before("sun", "sunset"));
    assert!(!comes_before("sunset", "sun"));
    assert!(!comes_before("sun", "sun"));
    assert!(comes_before("", "a"));
    assert!(comes_before("\u{ffff}", "\u{10000}"));
}

#[test]
fn the_first_scene_of_a_name_gives_the_media() {
    let media = scene_media_by_name(Ok(vec![
        category("One", vec![scene("Aurora", &["a.png"], "calm", &[1])]),
        category(
            "Two",
            vec![
                scene("AURORA", &["b.png"], "wild", &[2]),
                scene("Blaze", &[], "", &[0]),
            ],
        ),
    ]));
    assert_eq!(
        media.get("aurora"),
        Some((texts(&["a.png"]), Some("calm".to_string())))
    );
    assert_eq!(media.get("blaze"), Some((vec![], None)));
    assert!(!media.contains_key("Aurora"));
    assert_eq!(media.get("sunset"), None);
}

#[test]
fn no_library_gives_no_media() {
    let media = scene_media_by_name(Err("offline".to_string()));
    assert!(!media.contains_key("aurora"));
    let scenes = enrich_scene_names(texts(&["Aurora"]), &media);
    assert_eq!(scenes, vec![entry("Aurora", &[], None)]);
}

#[test]
fn scenes_without_a_code_and_empty_categories_are_left_out() {
    let categories = catalog_categories(vec![
        category(
            "Nature",
            vec![
                scene("Forest", &["f.png"], "Deep greens", &[0, 7]),
                scene("Void", &[], "", &[0, 0]),
                scene("Nothing", &[], "", &[]),
                scene("Ocean", &[], "", &[-1]),
            ],
        ),
        category("Empty", vec![]),
        category("Dark", vec![scene("Night", &[], "", &[0])]),
        category("Feast", vec![scene("Party", &[], "", &[3])]),
    ]);
    assert_eq!(
        categories,
        vec![
            SceneCatalogCategory {
                name: "Nature".to_string(),
                scenes: vec![
                    entry("Forest", &["f.png"], Some("Deep greens")),
                    entry("Ocean", &[], None),
                ],
            },
            SceneCatalogCategory {
                name: "Feast".to_string(),
                scenes: vec![entry("Party", &[], None)],
            },
        ]
    );
    assert_eq!(flatten_catalog(categories), texts(&["Forest", "Ocean", "Party"]));
}

#[test]
fn order_and_repetitions_do_not_count_where_case_does_not_matter() {
    let expected = texts(&["Aurora", "blaze", "Sunset"]);
    assert_eq!(
        sort_and_dedup_scenes(texts(&["Sunset", "Aurora", "blaze"])),
        expected
    );
    assert_eq!(
        sort_and_dedup_scenes(texts(&["blaze", "Sunset", "blaze", "Aurora", "Sunset"])),
        expected
    );
}
