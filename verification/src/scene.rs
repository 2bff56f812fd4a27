//! Scene catalogs: what a device can be told to show, grouped and illustrated.
use crate::order::{
    dedup, dedup_names, in_order, law_dedup, law_dedup_of_distinct, law_sort_is_stable,
    law_sort_keeps_names, law_sort_of_sorted, law_sort_orders, no_equal_neighbours, sort_names,
    stable_sort, with_key, SortKey,
};
use crate::text::{
    lemma_precedes_asymmetric, lemma_precedes_irreflexive, lemma_precedes_splits,
    lemma_precedes_total, lower, precedes,
};
use vstd::hash_map::StringHashMap;
use vstd::prelude::*;
use vstd::relations::{sorted_by, total_ordering};
use vstd::seq_lib::{group_to_multiset_ensures, lemma_sorted_unique};

verus! {

/// One scene of a catalog.
#[derive(Debug, PartialEq, Eq)]
pub struct SceneCatalogEntry {
    pub name: String,
    pub icon_urls: Vec<String>,
    pub hint: Option<String>,
}

/// A named group of scenes.
#[derive(Debug, PartialEq, Eq)]
pub struct SceneCatalogCategory {
    pub name: String,
    pub scenes: Vec<SceneCatalogEntry>,
}

/// A catalog together with what was known of the device when it was fetched.
#[derive(Debug, PartialEq, Eq)]
pub struct SceneCatalogCache {
    /// Platform-capability fingerprint at fetch time. Used to detect when platform
    /// device metadata has arrived/changed so a cached catalog can be refreshed.
    pub platform_signature: Option<String>,
    pub categories: Vec<SceneCatalogCategory>,
}

/// The contents of a [`SceneCatalogEntry`].
pub struct SceneCatalogEntryView {
    pub name: Seq<char>,
    pub icon_urls: Seq<Seq<char>>,
    pub hint: Option<Seq<char>>,
}

/// The contents of a [`SceneCatalogCategory`].
pub struct SceneCatalogCategoryView {
    pub name: Seq<char>,
    pub scenes: Seq<SceneCatalogEntryView>,
}

/// The contents of a [`SceneCatalogCache`].
pub struct SceneCatalogCacheView {
    pub platform_signature: Option<Seq<char>>,
    pub categories: Seq<SceneCatalogCategoryView>,
}

impl DeepView for SceneCatalogEntry {
    type V = SceneCatalogEntryView;

    open spec fn deep_view(&self) -> SceneCatalogEntryView {
        SceneCatalogEntryView {
            name: self.name@,
            icon_urls: self.icon_urls.deep_view(),
            hint: self.hint.deep_view(),
        }
    }
}

impl View for SceneCatalogEntry {
    type V = SceneCatalogEntryView;

    open spec fn view(&self) -> SceneCatalogEntryView {
        self.deep_view()
    }
}

impl DeepView for SceneCatalogCategory {
    type V = SceneCatalogCategoryView;

    open spec fn deep_view(&self) -> SceneCatalogCategoryView {
        SceneCatalogCategoryView { name: self.name@, scenes: self.scenes.deep_view() }
    }
}

impl View for SceneCatalogCategory {
    type V = SceneCatalogCategoryView;

    open spec fn view(&self) -> SceneCatalogCategoryView {
        self.deep_view()
    }
}

impl DeepView for SceneCatalogCache {
    type V = SceneCatalogCacheView;

    open spec fn deep_view(&self) -> SceneCatalogCacheView {
        SceneCatalogCacheView {
            platform_signature: self.platform_signature.deep_view(),
            categories: self.categories.deep_view(),
        }
    }
}

impl View for SceneCatalogCache {
    type V = SceneCatalogCacheView;

    open spec fn view(&self) -> SceneCatalogCacheView {
        self.deep_view()
    }
}

impl Clone for SceneCatalogEntry {
    fn clone(&self) -> (res: Self)
        ensures
            res@ == self@,
    {
        let res = SceneCatalogEntry {
            name: self.name.clone(),
            icon_urls: self.icon_urls.clone(),
            hint: self.hint.clone(),
        };
        assert(res.icon_urls.deep_view() == self.icon_urls.deep_view());
        res
    }
}

impl Clone for SceneCatalogCategory {
    fn clone(&self) -> (res: Self)
        ensures
            res@ == self@,
    {
        let res = SceneCatalogCategory { name: self.name.clone(), scenes: self.scenes.clone() };
        assert(res.scenes.deep_view() == self.scenes.deep_view());
        res
    }
}

impl Clone for SceneCatalogCache {
    fn clone(&self) -> (res: Self)
        ensures
            res@ == self@,
    {
        let res = SceneCatalogCache {
            platform_signature: self.platform_signature.clone(),
            categories: self.categories.clone(),
        };
        assert(res.categories.deep_view() == self.categories.deep_view());
        res
    }
}

/// A light effect of the undocumented scene library; code zero stands for "none".
#[derive(Clone, Copy, Debug, PartialEq, Eq, Structural)]
pub struct LightEffectEntry {
    pub scene_code: i64,
}

/// A scene as the undocumented scene library describes it.
#[derive(Debug, PartialEq, Eq)]
pub struct LightEffectScene {
    pub scene_name: String,
    pub icon_urls: Vec<String>,
    pub scenes_hint: String,
    pub light_effects: Vec<LightEffectEntry>,
}

/// A group of scenes as the undocumented scene library describes it.
#[derive(Debug, PartialEq, Eq)]
pub struct LightEffectCategory {
    pub category_name: String,
    pub scenes: Vec<LightEffectScene>,
}

/// The contents of a [`LightEffectScene`].
pub struct LightEffectSceneView {
    pub scene_name: Seq<char>,
    pub icon_urls: Seq<Seq<char>>,
    pub scenes_hint: Seq<char>,
    pub light_effects: Seq<LightEffectEntry>,
}

/// The contents of a [`LightEffectCategory`].
pub struct LightEffectCategoryView {
    pub category_name: Seq<char>,
    pub scenes: Seq<LightEffectSceneView>,
}

impl DeepView for LightEffectScene {
    type V = LightEffectSceneView;

    open spec fn deep_view(&self) -> LightEffectSceneView {
        LightEffectSceneView {
            scene_name: self.scene_name@,
            icon_urls: self.icon_urls.deep_view(),
            scenes_hint: self.scenes_hint@,
            light_effects: self.light_effects@,
        }
    }
}

impl View for LightEffectScene {
    type V = LightEffectSceneView;

    open spec fn view(&self) -> LightEffectSceneView {
        self.deep_view()
    }
}

impl DeepView for LightEffectCategory {
    type V = LightEffectCategoryView;

    open spec fn deep_view(&self) -> LightEffectCategoryView {
        LightEffectCategoryView {
            category_name: self.category_name@,
            scenes: self.scenes.deep_view(),
        }
    }
}

impl View for LightEffectCategory {
    type V = LightEffectCategoryView;

    open spec fn view(&self) -> LightEffectCategoryView {
        self.deep_view()
    }
}

/// Scene names in the order they are offered in: by name, ignoring ASCII case, without repeated
/// neighbours.
pub open spec fn offered_names(names: Seq<Seq<char>>) -> Seq<Seq<char>> {
    dedup(stable_sort(SortKey::Folded, names))
}

/// Sorts scene names, ignoring ASCII case, and drops every name that equals its predecessor.
pub fn sort_and_dedup_scenes(scenes: Vec<String>) -> (res: Vec<String>)
    ensures
        res.deep_view() == offered_names(scenes.deep_view()),
{
    dedup_names(sort_names(SortKey::Folded, scenes))
}

/// An empty hint is no hint.
pub open spec fn hint_of(text: Seq<char>) -> Option<Seq<char>> {
    if text.len() == 0 {
        None
    } else {
        Some(text)
    }
}

/// Turns a hint text into a hint: an empty text is no hint.
pub fn scene_hint(text: String) -> (res: Option<String>)
    ensures
        res.deep_view() == hint_of(text@),
{
    if text.as_str().is_empty() {
        None
    } else {
        Some(text)
    }
}

/// Icons and hint of a scene.
pub struct SceneMediaView {
    pub icon_urls: Seq<Seq<char>>,
    pub hint: Option<Seq<char>>,
}

/// The contents of an icons-and-hint pair.
pub open spec fn media_view(media: (Vec<String>, Option<String>)) -> SceneMediaView {
    SceneMediaView { icon_urls: media.0.deep_view(), hint: media.1.deep_view() }
}

/// Icons and hints by scene name in ASCII lower case.
pub struct SceneMedia {
    by_name: StringHashMap<(Vec<String>, Option<String>)>,
}

impl View for SceneMedia {
    type V = Map<Seq<char>, SceneMediaView>;

    closed spec fn view(&self) -> Map<Seq<char>, SceneMediaView> {
        self.by_name@.map_values(|media: (Vec<String>, Option<String>)| media_view(media))
    }
}

impl SceneMedia {
    /// No icons and no hints.
    pub fn new() -> (res: Self)
        ensures
            res@ == Map::<Seq<char>, SceneMediaView>::empty(),
    {
        let res = SceneMedia { by_name: StringHashMap::new() };
        assert(res@ == Map::<Seq<char>, SceneMediaView>::empty());
        res
    }

    /// Records icons and hint under `key`, in place of what was there.
    pub fn insert(&mut self, key: String, media: (Vec<String>, Option<String>))
        ensures
            final(self)@ == old(self)@.insert(key@, media_view(media)),
    {
        self.by_name.insert(key, media);
        assert(self@ == old(self)@.insert(key@, media_view(media)));
    }

    /// Whether anything is recorded under `key`.
    pub fn contains_key(&self, key: &str) -> (res: bool)
        ensures
            res == self@.contains_key(key@),
    {
        self.by_name.contains_key(key)
    }

    /// A copy of what is recorded under `key`.
    pub fn get(&self, key: &str) -> (res: Option<(Vec<String>, Option<String>)>)
        ensures
            res is Some == self@.contains_key(key@),
            res is Some ==> media_view(res->0) == self@[key@],
    {
        match self.by_name.get(key) {
            Some(media) => {
                let icon_urls = media.0.clone();
                let hint = media.1.clone();
                assert(icon_urls.deep_view() == media.0.deep_view());
                Some((icon_urls, hint))
            },
            None => None,
        }
    }
}

/// All scenes of the categories, category by category.
pub open spec fn scenes_of(categories: Seq<LightEffectCategoryView>) -> Seq<LightEffectSceneView>
    decreases categories.len(),
{
    if categories.len() == 0 {
        Seq::empty()
    } else {
        scenes_of(categories.drop_last()) + categories.last().scenes
    }
}

/// Icons and hint that a described scene comes with.
pub open spec fn media_of(scene: LightEffectSceneView) -> SceneMediaView {
    SceneMediaView { icon_urls: scene.icon_urls, hint: hint_of(scene.scenes_hint) }
}

/// Icons and hints by scene name in ASCII lower case; of several scenes with one name the first
/// counts.
pub open spec fn media_by_name(scenes: Seq<LightEffectSceneView>) -> Map<Seq<char>, SceneMediaView>
    decreases scenes.len(),
{
    if scenes.len() == 0 {
        Map::empty()
    } else {
        let earlier = media_by_name(scenes.drop_last());
        let key = lower(scenes.last().scene_name);
        if earlier.contains_key(key) {
            earlier
        } else {
            earlier.insert(key, media_of(scenes.last()))
        }
    }
}

proof fn lemma_scenes_of_push(
    categories: Seq<LightEffectCategoryView>,
    category: LightEffectCategoryView,
)
    ensures
        scenes_of(categories.push(category)) == scenes_of(categories) + category.scenes,
{
    assert(categories.push(category).drop_last() == categories);
}

/// Best-effort map of scene name (lowercased) to icons and hint from the undocumented scene
/// library. Without a library the map is empty, so enrichment degrades to names only rather than
/// failing. The first occurrence of a name wins.
pub fn scene_media_by_name(categories: Result<Vec<LightEffectCategory>, String>) -> (res:
    SceneMedia)
    ensures
        res@ == match categories {
            Ok(categories) => media_by_name(scenes_of(categories.deep_view())),
            Err(_) => Map::empty(),
        },
{
    let mut media = SceneMedia::new();
    if let Ok(categories) = categories {
        let ghost all = categories.deep_view();
        assert(all.take(0) == Seq::<LightEffectCategoryView>::empty());
        for category in it: categories
            invariant
                it.seq() == categories@,
                all == categories.deep_view(),
                media@ == media_by_name(scenes_of(all.take(it.index() as int))),
        {
            let ghost view = category@;
            let ghost done = scenes_of(all.take(it.index() as int));
            proof {
                let k = it.index() as int;
                assert(all.take(k + 1) == all.take(k).push(view));
                lemma_scenes_of_push(all.take(k), view);
                assert(done + view.scenes.take(0) == done);
            }
            let scenes = category.scenes;
            for scene in inner: scenes
                invariant
                    inner.seq() == scenes@,
                    view.scenes == scenes.deep_view(),
                    media@ == media_by_name(done + view.scenes.take(inner.index() as int)),
            {
                proof {
                    let k = inner.index() as int;
                    let more = done + view.scenes.take(k + 1);
                    assert(more.drop_last() == done + view.scenes.take(k));
                    assert(more.last() == scene@);
                }
                let key = scene.scene_name.to_ascii_lowercase();
                if !media.contains_key(&key) {
                    media.insert(key, (scene.icon_urls, scene_hint(scene.scenes_hint)));
                }
            }
            assert(view.scenes.take(view.scenes.len() as int) == view.scenes);
        }
        assert(all.take(all.len() as int) == all);
    }
    media
}

/// The catalog entry for a name: its icons and hint where the name is known, ignoring ASCII case,
/// and none where it is not.
pub open spec fn entry_for(
    name: Seq<char>,
    media: Map<Seq<char>, SceneMediaView>,
) -> SceneCatalogEntryView {
    if media.contains_key(lower(name)) {
        SceneCatalogEntryView {
            name,
            icon_urls: media[lower(name)].icon_urls,
            hint: media[lower(name)].hint,
        }
    } else {
        SceneCatalogEntryView { name, icon_urls: Seq::empty(), hint: None }
    }
}

/// Builds scene entries from the authoritative platform name list, attaching
/// icon/hint metadata where the name matches (case-insensitively). Every platform
/// name yields exactly one entry; a name with no media match still appears with empty
/// media. Names that only the media map knows are not represented: the platform decides
/// the controllable set.
pub fn enrich_scene_names(names: Vec<String>, media: &SceneMedia) -> (res: Vec<SceneCatalogEntry>)
    ensures
        res.deep_view() == names.deep_view().map_values(|name: Seq<char>| entry_for(name, media@)),
{
    let mut entries: Vec<SceneCatalogEntry> = Vec::new();
    for name in it: names
        invariant
            it.seq() == names@,
            entries.len() == it.index(),
            forall|i: int|
                0 <= i < entries.len() ==> (#[trigger] entries[i])@ == entry_for(
                    names[i]@,
                    media@,
                ),
    {
        let entry = match media.get(&name.to_ascii_lowercase()) {
            Some((icon_urls, hint)) => SceneCatalogEntry { name, icon_urls, hint },
            None => SceneCatalogEntry { name, icon_urls: Vec::new(), hint: None },
        };
        assert(entry@.icon_urls == entry_for(entry.name@, media@).icon_urls);
        entries.push(entry);
    }
    assert(entries.deep_view() == names.deep_view().map_values(
        |name: Seq<char>| entry_for(name, media@),
    ));
    entries
}

/// Whether a described scene can be shown: some light effect of it has a code.
pub open spec fn is_usable(scene: LightEffectSceneView) -> bool {
    exists|i: int|
        0 <= i < scene.light_effects.len() && (#[trigger] scene.light_effects[i]).scene_code != 0
}

/// The catalog entry of a described scene, if it can be shown.
pub open spec fn usable_entry(scene: LightEffectSceneView) -> Option<SceneCatalogEntryView> {
    if is_usable(scene) {
        Some(
            SceneCatalogEntryView {
                name: scene.scene_name,
                icon_urls: scene.icon_urls,
                hint: hint_of(scene.scenes_hint),
            },
        )
    } else {
        None
    }
}

/// The catalog entries of the scenes that can be shown, in order.
pub open spec fn usable_entries(scenes: Seq<LightEffectSceneView>) -> Seq<SceneCatalogEntryView> {
    scenes.filter_map(|scene: LightEffectSceneView| usable_entry(scene))
}

/// The catalog category of a described category, if any scene of it can be shown.
pub open spec fn usable_category(category: LightEffectCategoryView) -> Option<
    SceneCatalogCategoryView,
> {
    if usable_entries(category.scenes).len() > 0 {
        Some(
            SceneCatalogCategoryView {
                name: category.category_name,
                scenes: usable_entries(category.scenes),
            },
        )
    } else {
        None
    }
}

/// The catalog categories of the described categories that hold a scene that can be shown.
pub open spec fn usable_categories(categories: Seq<LightEffectCategoryView>) -> Seq<
    SceneCatalogCategoryView,
> {
    categories.filter_map(|category: LightEffectCategoryView| usable_category(category))
}

proof fn lemma_usable_entries_step(scenes: Seq<LightEffectSceneView>, k: int)
    requires
        0 <= k < scenes.len(),
    ensures
        usable_entries(scenes.take(k + 1)) == match usable_entry(scenes[k]) {
            Some(entry) => usable_entries(scenes.take(k)).push(entry),
            None => usable_entries(scenes.take(k)),
        },
{
    assert(scenes.take(k + 1).drop_last() == scenes.take(k));
    assert(scenes.take(k + 1).last() == scenes[k]);
    if let Some(entry) = usable_entry(scenes[k]) {
        assert(usable_entries(scenes.take(k)) + seq![entry] == usable_entries(scenes.take(k)).push(
            entry,
        ));
    }
}

proof fn lemma_usable_categories_step(categories: Seq<LightEffectCategoryView>, k: int)
    requires
        0 <= k < categories.len(),
    ensures
        usable_categories(categories.take(k + 1)) == match usable_category(categories[k]) {
            Some(category) => usable_categories(categories.take(k)).push(category),
            None => usable_categories(categories.take(k)),
        },
{
    assert(categories.take(k + 1).drop_last() == categories.take(k));
    assert(categories.take(k + 1).last() == categories[k]);
    if let Some(category) = usable_category(categories[k]) {
        assert(usable_categories(categories.take(k)) + seq![category] == usable_categories(
            categories.take(k),
        ).push(category));
    }
}

/// Whether some light effect has a code.
fn has_code(effects: &Vec<LightEffectEntry>) -> (res: bool)
    ensures
        res == exists|i: int|
            0 <= i < effects@.len() && (#[trigger] effects@[i]).scene_code != 0,
{
    let mut i: usize = 0;
    while i < effects.len()
        invariant
            i <= effects.len(),
            forall|j: int| 0 <= j < i ==> (#[trigger] effects@[j]).scene_code == 0,
        decreases effects.len() - i,
    {
        if effects[i].scene_code != 0 {
            return true;
        }
        i += 1;
    }
    false
}

/// The catalog entries of the scenes that can be shown: those of which at least one light effect
/// has a code other than zero.
fn usable_scenes(scenes: Vec<LightEffectScene>) -> (res: Vec<SceneCatalogEntry>)
    ensures
        res.deep_view() == usable_entries(scenes.deep_view()),
{
    let ghost all = scenes.deep_view();
    let mut entries: Vec<SceneCatalogEntry> = Vec::new();
    assert(entries.deep_view() == usable_entries(all.take(0)));
    for scene in it: scenes
        invariant
            it.seq() == scenes@,
            all == scenes.deep_view(),
            entries.deep_view() == usable_entries(all.take(it.index() as int)),
    {
        let ghost view = scene@;
        let ghost before = entries.deep_view();
        proof {
            lemma_usable_entries_step(all, it.index() as int);
        }
        if has_code(&scene.light_effects) {
            let entry = SceneCatalogEntry {
                name: scene.scene_name,
                icon_urls: scene.icon_urls,
                hint: scene_hint(scene.scenes_hint),
            };
            assert(usable_entry(view) == Some(entry@));
            entries.push(entry);
            assert(entries.deep_view() == before.push(entry@));
        }
    }
    assert(all.take(all.len() as int) == all);
    entries
}

/// The described categories as catalog categories, with their groupings, icons and hints; scenes
/// that cannot be shown are left out, and so are categories without any other.
pub fn catalog_categories(categories: Vec<LightEffectCategory>) -> (res: Vec<SceneCatalogCategory>)
    ensures
        res.deep_view() == usable_categories(categories.deep_view()),
{
    let ghost all = categories.deep_view();
    let mut result: Vec<SceneCatalogCategory> = Vec::new();
    assert(result.deep_view() == usable_categories(all.take(0)));
    for category in it: categories
        invariant
            it.seq() == categories@,
            all == categories.deep_view(),
            result.deep_view() == usable_categories(all.take(it.index() as int)),
    {
        let ghost view = category@;
        let ghost before = result.deep_view();
        proof {
            lemma_usable_categories_step(all, it.index() as int);
        }
        let scenes = usable_scenes(category.scenes);
        assert(scenes.deep_view().len() == scenes.len());
        if scenes.len() > 0 {
            let entry = SceneCatalogCategory { name: category.category_name, scenes };
            assert(usable_category(view) == Some(entry@));
            result.push(entry);
            assert(result.deep_view() == before.push(entry@));
        }
    }
    assert(all.take(all.len() as int) == all);
    result
}

/// The names of all scenes of a catalog, category by category.
pub open spec fn catalog_names(categories: Seq<SceneCatalogCategoryView>) -> Seq<Seq<char>>
    decreases categories.len(),
{
    if categories.len() == 0 {
        Seq::empty()
    } else {
        catalog_names(categories.drop_last()) + categories.last().scenes.map_values(
            |scene: SceneCatalogEntryView| scene.name,
        )
    }
}

/// The names of all scenes of a catalog, category by category.
pub fn flatten_catalog(categories: Vec<SceneCatalogCategory>) -> (res: Vec<String>)
    ensures
        res.deep_view() == catalog_names(categories.deep_view()),
{
    let ghost all = categories.deep_view();
    let mut names: Vec<String> = Vec::new();
    assert(names.deep_view() == catalog_names(all.take(0)));
    for category in it: categories
        invariant
            it.seq() == categories@,
            all == categories.deep_view(),
            names.deep_view() == catalog_names(all.take(it.index() as int)),
    {
        let ghost before = names.deep_view();
        let ghost added = category@.scenes.map_values(|scene: SceneCatalogEntryView| scene.name);
        proof {
            let k = it.index() as int;
            assert(all.take(k + 1).drop_last() == all.take(k));
            assert(all.take(k + 1).last() == category@);
            assert(before + added.take(0) == before);
        }
        let scenes = category.scenes;
        for scene in inner: scenes
            invariant
                inner.seq() == scenes@,
                added.len() == scenes.len(),
                forall|i: int| 0 <= i < scenes.len() ==> added[i] == (#[trigger] scenes[i]).name@,
                names.deep_view() == before + added.take(inner.index() as int),
        {
            let ghost so_far = names.deep_view();
            let ghost name = scene.name@;
            names.push(scene.name);
            assert(names.deep_view() == so_far.push(name));
            assert(names.deep_view() == before + added.take(inner.index() + 1));
        }
        assert(added.take(added.len() as int) == added);
    }
    assert(all.take(all.len() as int) == all);
    names
}

/// Offered names are in order, ignoring ASCII case.
pub proof fn law_offered_names_in_order(names: Seq<Seq<char>>)
    ensures
        in_order(SortKey::Folded, offered_names(names)),
{
    law_sort_orders(SortKey::Folded, names);
    law_dedup(SortKey::Folded, stable_sort(SortKey::Folded, names));
}

/// Every name is offered and nothing else is, and no name is offered twice in a row.
pub proof fn law_offered_names_complete(names: Seq<Seq<char>>)
    ensures
        forall|name: Seq<char>| #[trigger] offered_names(names).contains(name) <==> names.contains(name),
        no_equal_neighbours(offered_names(names)),
{
    law_sort_keeps_names(SortKey::Folded, names);
    law_dedup(SortKey::Folded, stable_sort(SortKey::Folded, names));
}

/// Sorting and removing repetitions once more changes nothing.
pub proof fn law_offered_names_idempotent(names: Seq<Seq<char>>)
    ensures
        offered_names(offered_names(names)) == offered_names(names),
{
    law_offered_names_in_order(names);
    law_offered_names_complete(names);
    law_sort_of_sorted(SortKey::Folded, offered_names(names));
    law_dedup_of_distinct(offered_names(names));
}

/// Whether names that agree ignoring ASCII case are equal.
pub open spec fn agree_only_if_equal(names: Seq<Seq<char>>) -> bool {
    forall|i: int, j: int|
        #![trigger names[i], names[j]]
        0 <= i < names.len() && 0 <= j < names.len() && lower(names[i]) == lower(names[j])
            ==> names[i] == names[j]
}

/// Where names that agree ignoring ASCII case are equal, no name is offered twice.
pub proof fn law_offered_names_distinct(names: Seq<Seq<char>>)
    requires
        agree_only_if_equal(names),
    ensures
        offered_names(names).no_duplicates(),
{
    let res = offered_names(names);
    law_offered_names_in_order(names);
    law_offered_names_complete(names);
    assert forall|i: int, j: int| 0 <= i < j < res.len() implies res[i] != res[j] by {
        if res[i] == res[j] {
            // Everything between the two has the same key, so it is the same name.
            let next = res[i + 1];
            assert(res.contains(next));
            assert(res.contains(res[i]));
            if j > i + 1 {
                assert(!precedes(lower(next), lower(res[i])));
                assert(!precedes(lower(res[j]), lower(next)));
            }
            lemma_precedes_total(lower(next), lower(res[i]));
            let a = choose|a: int| 0 <= a < names.len() && names[a] == res[i];
            let b = choose|b: int| 0 <= b < names.len() && names[b] == next;
            assert(names[a] == names[b]);
            assert(res[i + 1 - 1] != res[i + 1]);
        }
    }
}

/// The order of offered names, completed to one in which only equal names are level.
spec fn offered_before(a: Seq<char>, b: Seq<char>) -> bool {
    !precedes(lower(b), lower(a)) && (lower(a) == lower(b) ==> !precedes(b, a))
}

proof fn lemma_offered_before_total()
    ensures
        total_ordering(|a: Seq<char>, b: Seq<char>| offered_before(a, b)),
{
    let leq = |a: Seq<char>, b: Seq<char>| offered_before(a, b);
    assert forall|a: Seq<char>| #[trigger] leq(a, a) by {
        lemma_precedes_irreflexive(a);
        lemma_precedes_irreflexive(lower(a));
    }
    assert forall|a: Seq<char>, b: Seq<char>| #[trigger] leq(a, b) && #[trigger] leq(b, a) implies a
        == b by {
        lemma_precedes_total(lower(a), lower(b));
        lemma_precedes_total(a, b);
    }
    assert forall|a: Seq<char>, b: Seq<char>, c: Seq<char>| #[trigger]
        leq(a, b) && #[trigger] leq(b, c) implies leq(a, c) by {
        if precedes(lower(c), lower(a)) {
            lemma_precedes_splits(lower(c), lower(b), lower(a));
        }
        if lower(a) == lower(c) {
            lemma_precedes_total(lower(a), lower(b));
            if precedes(c, a) {
                lemma_precedes_splits(c, b, a);
            }
        }
    }
    assert forall|a: Seq<char>, b: Seq<char>| #[trigger] leq(a, b) || #[trigger] leq(b, a) by {
        lemma_precedes_asymmetric(lower(a), lower(b));
        lemma_precedes_asymmetric(a, b);
        lemma_precedes_total(lower(a), lower(b));
    }
}

proof fn lemma_offered_sorted(names: Seq<Seq<char>>)
    requires
        agree_only_if_equal(names),
    ensures
        sorted_by(offered_names(names), |a: Seq<char>, b: Seq<char>| offered_before(a, b)),
{
    let res = offered_names(names);
    law_offered_names_in_order(names);
    law_offered_names_complete(names);
    assert forall|i: int, j: int| 0 <= i < j < res.len() implies #[trigger] offered_before(
        res[i],
        res[j],
    ) by {
        if lower(res[i]) == lower(res[j]) {
            assert(res.contains(res[i]) && res.contains(res[j]));
            let a = choose|a: int| 0 <= a < names.len() && names[a] == res[i];
            let b = choose|b: int| 0 <= b < names.len() && names[b] == res[j];
            assert(names[a] == names[b]);
            lemma_precedes_irreflexive(res[i]);
        }
    }
}

/// Where names that agree ignoring ASCII case are equal, what is offered depends on nothing but
/// the set of the names: neither their order nor their repetitions count.
pub proof fn law_offered_names_of_a_set(names: Seq<Seq<char>>, other: Seq<Seq<char>>)
    requires
        agree_only_if_equal(names),
        names.to_set() == other.to_set(),
    ensures
        offered_names(names) == offered_names(other),
{
    broadcast use group_to_multiset_ensures;

    assert forall|name: Seq<char>| names.contains(name) <==> #[trigger] other.contains(name) by {
        assert(names.to_set().contains(name) <==> names.contains(name));
        assert(other.to_set().contains(name) <==> other.contains(name));
    }
    assert forall|i: int, j: int|
        #![trigger other[i], other[j]]
        0 <= i < other.len() && 0 <= j < other.len() && lower(other[i]) == lower(
            other[j],
        ) implies other[i] == other[j] by {
        assert(other.contains(other[i]) && other.contains(other[j]));
        let a = choose|a: int| 0 <= a < names.len() && names[a] == other[i];
        let b = choose|b: int| 0 <= b < names.len() && names[b] == other[j];
        assert(names[a] == names[b]);
    }
    let leq = |a: Seq<char>, b: Seq<char>| offered_before(a, b);
    let x = offered_names(names);
    let y = offered_names(other);
    lemma_offered_before_total();
    lemma_offered_sorted(names);
    lemma_offered_sorted(other);
    law_offered_names_distinct(names);
    law_offered_names_distinct(other);
    law_offered_names_complete(names);
    law_offered_names_complete(other);
    x.lemma_multiset_has_no_duplicates();
    y.lemma_multiset_has_no_duplicates();
    assert forall|name: Seq<char>| #[trigger]
        x.to_multiset().count(name) == y.to_multiset().count(name) by {
        assert(x.contains(name) <==> y.contains(name));
        if x.contains(name) {
            assert(x.to_multiset().contains(name) && y.to_multiset().contains(name));
        }
    }
    assert(x.to_multiset() =~= y.to_multiset());
    lemma_sorted_unique(x, y, leq);
}

proof fn lemma_no_key(names: Seq<Seq<char>>, key: Seq<char>)
    requires
        forall|i: int| 0 <= i < names.len() ==> lower(#[trigger] names[i]) != key,
    ensures
        with_key(SortKey::Folded, names, key) == Seq::<Seq<char>>::empty(),
    decreases names.len(),
{
    if names.len() > 0 {
        lemma_no_key(names.drop_last(), key);
    }
}

proof fn lemma_dedup_with_key(names: Seq<Seq<char>>, key: Seq<char>)
    requires
        in_order(SortKey::Folded, names),
    ensures
        with_key(SortKey::Folded, dedup(names), key) == dedup(
            with_key(SortKey::Folded, names, key),
        ),
    decreases names.len(),
{
    let by = SortKey::Folded;
    if names.len() > 0 {
        let front = names.drop_last();
        let last = names.last();
        let kept = with_key(by, front, key);
        lemma_dedup_with_key(front, key);
        assert(kept.push(last).drop_last() == kept);
        assert(dedup(front).push(last).drop_last() == dedup(front));
        if front.len() > 0 {
            let before = front.last();
            if lower(before) == key {
                assert(kept.last() == before);
            } else if lower(last) == key {
                lemma_precedes_total(lower(before), key);
                assert(precedes(lower(before), key));
                assert forall|i: int| 0 <= i < front.len() implies lower(#[trigger] front[i])
                    != key by {
                    if i < front.len() - 1 {
                        assert(!precedes(lower(names[front.len() - 1]), lower(names[i])));
                    }
                }
                lemma_no_key(front, key);
            }
        }
    }
}

/// Of the names that agree ignoring ASCII case, those are offered that differ from the one before,
/// in the order they came in.
pub proof fn law_offered_names_by_key(names: Seq<Seq<char>>, key: Seq<char>)
    ensures
        with_key(SortKey::Folded, offered_names(names), key) == dedup(
            with_key(SortKey::Folded, names, key),
        ),
{
    law_sort_orders(SortKey::Folded, names);
    law_sort_is_stable(SortKey::Folded, names, key);
    lemma_dedup_with_key(stable_sort(SortKey::Folded, names), key);
}

/// The first scene with a name decides its icons and hint.
pub proof fn law_first_media_wins(scenes: Seq<LightEffectSceneView>, i: int)
    requires
        0 <= i < scenes.len(),
        forall|j: int|
            0 <= j < i ==> lower((#[trigger] scenes[j]).scene_name) != lower(scenes[i].scene_name),
    ensures
        media_by_name(scenes).contains_key(lower(scenes[i].scene_name)),
        media_by_name(scenes)[lower(scenes[i].scene_name)] == media_of(scenes[i]),
    decreases scenes.len(),
{
    let front = scenes.drop_last();
    if i < front.len() {
        assert(front[i] == scenes[i]);
        assert forall|j: int| 0 <= j < i implies lower((#[trigger] front[j]).scene_name) != lower(
            front[i].scene_name,
        ) by {
            assert(front[j] == scenes[j]);
        }
        law_first_media_wins(front, i);
    } else {
        law_media_only_of_scenes(front);
        let key = lower(scenes[i].scene_name);
        if media_by_name(front).contains_key(key) {
            let j = choose|j: int|
                0 <= j < front.len() && lower((#[trigger] front[j]).scene_name) == key;
            assert(scenes[j] == front[j]);
        }
    }
}

/// Only names of described scenes have icons or a hint.
pub proof fn law_media_only_of_scenes(scenes: Seq<LightEffectSceneView>)
    ensures
        forall|key: Seq<char>| #[trigger]
            media_by_name(scenes).contains_key(key) ==> exists|j: int|
                0 <= j < scenes.len() && lower((#[trigger] scenes[j]).scene_name) == key,
    decreases scenes.len(),
{
    if scenes.len() > 0 {
        let front = scenes.drop_last();
        law_media_only_of_scenes(front);
        assert forall|key: Seq<char>| #[trigger] media_by_name(scenes).contains_key(key) implies exists|
            j: int,
        |
            0 <= j < scenes.len() && lower((#[trigger] scenes[j]).scene_name) == key by {
            if media_by_name(front).contains_key(key) {
                let j = choose|j: int|
                    0 <= j < front.len() && lower((#[trigger] front[j]).scene_name) == key;
                assert(scenes[j] == front[j]);
            } else {
                assert(lower(scenes[scenes.len() - 1].scene_name) == key);
            }
        }
    }
}

proof fn lemma_filter_map_has<A, B>(s: Seq<A>, f: spec_fn(A) -> Option<B>, i: int)
    requires
        0 <= i < s.len(),
        f(s[i]) is Some,
    ensures
        s.filter_map(f).contains(f(s[i])->0),
    decreases s.len(),
{
    let rest = s.drop_last();
    let kept = rest.filter_map(f);
    if i < rest.len() {
        lemma_filter_map_has(rest, f, i);
        let k = kept.index_of(f(s[i])->0);
        assert(s.filter_map(f)[k] == kept[k]);
    } else {
        assert(s.filter_map(f)[kept.len() as int] == f(s[i])->0);
    }
}

/// Every described scene that can be shown is in the catalog, in a category of the same name.
pub proof fn law_usable_scenes_are_kept(
    categories: Seq<LightEffectCategoryView>,
    i: int,
    j: int,
)
    requires
        0 <= i < categories.len(),
        0 <= j < categories[i].scenes.len(),
        is_usable(categories[i].scenes[j]),
    ensures
        exists|category: SceneCatalogCategoryView| #[trigger]
            usable_categories(categories).contains(category) && category.name
                == categories[i].category_name && category.scenes.contains(
                usable_entry(categories[i].scenes[j])->0,
            ),
{
    let scenes = categories[i].scenes;
    lemma_filter_map_has(scenes, |scene: LightEffectSceneView| usable_entry(scene), j);
    let kept = usable_entries(scenes);
    assert(kept[kept.index_of(usable_entry(scenes[j])->0)] == usable_entry(scenes[j])->0);
    lemma_filter_map_has(
        categories,
        |category: LightEffectCategoryView| usable_category(category),
        i,
    );
    assert(usable_categories(categories).contains(usable_category(categories[i])->0));
}

/// No category of the catalog is empty, and everything in it is a described scene that can be
/// shown, in a category of the same name.
pub proof fn law_only_usable_scenes_are_kept(
    categories: Seq<LightEffectCategoryView>,
    category: SceneCatalogCategoryView,
    entry: SceneCatalogEntryView,
)
    requires
        usable_categories(categories).contains(category),
    ensures
        category.scenes.len() > 0,
        category.scenes.contains(entry) ==> exists|
            described: LightEffectCategoryView,
            scene: LightEffectSceneView,
        | #[trigger]
            categories.contains(described) && #[trigger] described.scenes.contains(scene)
                && described.category_name == category.name && is_usable(scene) && usable_entry(
                scene,
            ) == Some(entry),
{
    let f = |category: LightEffectCategoryView| usable_category(category);
    categories.lemma_filter_map_contains(f, category);
    let described = choose|described: LightEffectCategoryView| #[trigger]
        categories.contains(described) && f(described) == Some(category);
    if category.scenes.contains(entry) {
        let g = |scene: LightEffectSceneView| usable_entry(scene);
        described.scenes.lemma_filter_map_contains(g, entry);
        let scene = choose|scene: LightEffectSceneView| #[trigger]
            described.scenes.contains(scene) && g(scene) == Some(entry);
        assert(categories.contains(described) && described.scenes.contains(scene));
    }
}

} // verus!
