//! What scenes, their names and their catalogs come to, said of the names and scenes themselves.
use crate::order::{
    dedup, in_order, law_sort_is_stable, law_sort_keeps_names, law_sort_orders, stable_sort,
    with_key, SortKey,
};
use crate::scene::{
    entry_for, hint_of, law_first_media_wins, law_media_only_of_scenes, law_offered_names_by_key,
    law_offered_names_in_order, media_by_name, offered_names, scenes_of, usable_categories,
    usable_category, usable_entries, usable_entry, LightEffectCategoryView, LightEffectSceneView,
    SceneCatalogCategoryView, SceneCatalogEntryView, SceneMediaView,
};
use crate::text::{lower, precedes};
use vstd::prelude::*;

verus! {

/// Folding changes the ASCII capitals, each to the small letter 32 places on, and nothing else.
pub proof fn law_folding(s: Seq<char>, i: int)
    requires
        0 <= i < s.len(),
    ensures
        lower(s).len() == s.len(),
        'A' <= s[i] <= 'Z' ==> lower(s)[i] as u32 == s[i] as u32 + 32,
        !('A' <= s[i] <= 'Z') ==> lower(s)[i] == s[i],
{
}

/// Of two texts that agree up to a position, the one that ends there or has the smaller character
/// there comes first.
pub proof fn law_first_difference_decides(a: Seq<char>, b: Seq<char>, k: int)
    requires
        0 <= k <= a.len(),
        k <= b.len(),
        forall|i: int| 0 <= i < k ==> #[trigger] a[i] == b[i],
    ensures
        k == b.len() ==> !precedes(a, b),
        k == a.len() && k < b.len() ==> precedes(a, b),
        k < a.len() && k < b.len() && a[k] != b[k] ==> (precedes(a, b) <==> a[k] < b[k]),
    decreases k,
{
    if k > 0 {
        assert(a[0] == b[0]);
        let x = a.drop_first();
        let y = b.drop_first();
        assert forall|i: int| 0 <= i < k - 1 implies #[trigger] x[i] == y[i] by {
            assert(a[i + 1] == b[i + 1]);
        }
        law_first_difference_decides(x, y, k - 1);
    }
}

/// Sorting by the names themselves gives the same names, none before a smaller one.
pub proof fn law_plain_sort(names: Seq<Seq<char>>, i: int, j: int)
    ensures
        stable_sort(SortKey::Plain, names).to_multiset() == names.to_multiset(),
        stable_sort(SortKey::Plain, names).len() == names.len(),
        0 <= i < j < names.len() ==> !precedes(
            stable_sort(SortKey::Plain, names)[j],
            stable_sort(SortKey::Plain, names)[i],
        ),
{
    law_sort_keeps_names(SortKey::Plain, names);
    law_sort_orders(SortKey::Plain, names);
    let sorted = stable_sort(SortKey::Plain, names);
    if 0 <= i < j < names.len() {
        assert(in_order(SortKey::Plain, sorted));
        assert(!precedes(SortKey::Plain.key(sorted[j]), SortKey::Plain.key(sorted[i])));
    }
}

proof fn lemma_with_key_is_filter(names: Seq<Seq<char>>, key: Seq<char>)
    ensures
        with_key(SortKey::Folded, names, key) == names.filter(|n: Seq<char>| lower(n) == key),
    decreases names.len(),
{
    reveal(Seq::filter);
    if names.len() > 0 {
        lemma_with_key_is_filter(names.drop_last(), key);
    }
}

/// Sorting ignoring ASCII case puts no name before one whose folded form is smaller, and leaves
/// the names that agree ignoring case as they are and in the order they came in.
pub proof fn law_folded_sort(names: Seq<Seq<char>>, key: Seq<char>, i: int, j: int)
    ensures
        ({
            let sorted = stable_sort(SortKey::Folded, names);
            &&& sorted.len() == names.len()
            &&& sorted.filter(|n: Seq<char>| lower(n) == key) == names.filter(
                |n: Seq<char>| lower(n) == key,
            )
            &&& 0 <= i < j < names.len() ==> !precedes(lower(sorted[j]), lower(sorted[i]))
        }),
{
    let by = SortKey::Folded;
    let sorted = stable_sort(by, names);
    law_sort_keeps_names(by, names);
    law_sort_orders(by, names);
    law_sort_is_stable(by, names, key);
    lemma_with_key_is_filter(sorted, key);
    lemma_with_key_is_filter(names, key);
    if 0 <= i < j < names.len() {
        assert(!precedes(by.key(sorted[j]), by.key(sorted[i])));
    }
}

/// How often a name differs from the one before it, up to a position.
pub open spec fn changes_up_to(names: Seq<Seq<char>>, i: int) -> int
    decreases i,
{
    if i <= 0 {
        0
    } else {
        changes_up_to(names, i - 1) + if names[i] == names[i - 1] {
            0int
        } else {
            1int
        }
    }
}

proof fn lemma_changes_of_front(names: Seq<Seq<char>>, i: int)
    requires
        i < names.len() - 1,
    ensures
        changes_up_to(names.drop_last(), i) == changes_up_to(names, i),
    decreases i,
{
    if i > 0 {
        lemma_changes_of_front(names, i - 1);
    }
}

/// Of each run of equal neighbours one name stays, and the runs stay in order.
pub proof fn law_one_of_each_run(names: Seq<Seq<char>>)
    ensures
        names.len() == 0 ==> dedup(names).len() == 0,
        names.len() > 0 ==> dedup(names).len() == changes_up_to(names, names.len() - 1) + 1,
        forall|i: int|
            0 <= i < names.len() ==> 0 <= #[trigger] changes_up_to(names, i) < dedup(names).len()
                && dedup(names)[changes_up_to(names, i)] == names[i],
    decreases names.len(),
{
    if names.len() > 1 {
        let front = names.drop_last();
        let n = names.len() - 1;
        law_one_of_each_run(front);
        lemma_changes_of_front(names, n - 1);
        assert forall|i: int| 0 <= i < names.len() implies 0 <= #[trigger] changes_up_to(names, i)
            < dedup(names).len() && dedup(names)[changes_up_to(names, i)] == names[i] by {
            if i < n {
                lemma_changes_of_front(names, i);
                assert(dedup(front)[changes_up_to(front, i)] == front[i]);
            } else {
                assert(dedup(front)[changes_up_to(front, n - 1)] == front[n - 1]);
            }
        }
    }
}

/// The names that are offered are in order of their folded form; and those that agree ignoring
/// ASCII case are the ones that came in, in that order, without repeated neighbours.
pub proof fn law_what_is_offered(names: Seq<Seq<char>>, key: Seq<char>, i: int, j: int)
    ensures
        ({
            let offered = offered_names(names);
            &&& offered.filter(|n: Seq<char>| lower(n) == key) == dedup(
                names.filter(|n: Seq<char>| lower(n) == key),
            )
            &&& 0 <= i < j < offered.len() ==> !precedes(lower(offered[j]), lower(offered[i]))
        }),
{
    let offered = offered_names(names);
    law_offered_names_by_key(names, key);
    law_offered_names_in_order(names);
    lemma_with_key_is_filter(offered, key);
    lemma_with_key_is_filter(names, key);
    if 0 <= i < j < offered.len() {
        assert(!precedes(SortKey::Folded.key(offered[j]), SortKey::Folded.key(offered[i])));
    }
}

/// A hint is the text itself, unless the text is empty.
pub proof fn law_hint(text: Seq<char>)
    ensures
        text.len() == 0 ==> hint_of(text) is None,
        text.len() > 0 ==> hint_of(text) == Some(text),
{
}

proof fn lemma_scenes_of(categories: Seq<LightEffectCategoryView>)
    ensures
        scenes_of(categories) == categories.map_values(
            |category: LightEffectCategoryView| category.scenes,
        ).flatten_alt(),
    decreases categories.len(),
{
    let scenes = |category: LightEffectCategoryView| category.scenes;
    if categories.len() > 0 {
        lemma_scenes_of(categories.drop_last());
        assert(categories.map_values(scenes).drop_last() == categories.drop_last().map_values(
            scenes,
        ));
    }
}

/// The scenes of the library are those of its categories, one category after the other.
pub proof fn law_scenes_in_order(categories: Seq<LightEffectCategoryView>)
    ensures
        scenes_of(categories) == categories.map_values(
            |category: LightEffectCategoryView| category.scenes,
        ).flatten(),
{
    lemma_scenes_of(categories);
    categories.map_values(
        |category: LightEffectCategoryView| category.scenes,
    ).lemma_flatten_and_flatten_alt_are_equivalent();
}

/// What is recorded under a key is icons and hint of the first scene whose name folds to it,
/// whether or not that scene can be shown; nothing is recorded where no name does.
pub proof fn law_media_of_the_first_scene(
    scenes: Seq<LightEffectSceneView>,
    key: Seq<char>,
    i: int,
)
    ensures
        0 <= i < scenes.len() && lower(scenes[i].scene_name) == key && (forall|j: int|
            0 <= j < i ==> lower((#[trigger] scenes[j]).scene_name) != key) ==> {
            &&& media_by_name(scenes).contains_key(key)
            &&& media_by_name(scenes)[key].icon_urls == scenes[i].icon_urls
            &&& scenes[i].scenes_hint.len() == 0 ==> media_by_name(scenes)[key].hint is None
            &&& scenes[i].scenes_hint.len() > 0 ==> media_by_name(scenes)[key].hint == Some(
                scenes[i].scenes_hint,
            )
        },
        (forall|j: int|
            0 <= j < scenes.len() ==> lower((#[trigger] scenes[j]).scene_name) != key)
            ==> !media_by_name(scenes).contains_key(key),
{
    law_media_only_of_scenes(scenes);
    if 0 <= i < scenes.len() && lower(scenes[i].scene_name) == key && (forall|j: int|
        0 <= j < i ==> lower((#[trigger] scenes[j]).scene_name) != key) {
        law_first_media_wins(scenes, i);
    }
}

/// The entry for a name keeps the name as it is and has what is recorded under its folded form, or
/// nothing if nothing is.
pub proof fn law_entry_of_a_name(name: Seq<char>, media: Map<Seq<char>, SceneMediaView>)
    ensures
        entry_for(name, media).name == name,
        media.contains_key(lower(name)) ==> entry_for(name, media).icon_urls
            == media[lower(name)].icon_urls && entry_for(name, media).hint
            == media[lower(name)].hint,
        !media.contains_key(lower(name)) ==> entry_for(name, media).icon_urls.len() == 0
            && entry_for(name, media).hint is None,
{
}

/// The catalog entry of a described scene: its name, its icons, and its hint unless that is empty.
pub open spec fn described_entry(scene: LightEffectSceneView) -> SceneCatalogEntryView {
    SceneCatalogEntryView {
        name: scene.scene_name,
        icon_urls: scene.icon_urls,
        hint: if scene.scenes_hint.len() == 0 {
            None
        } else {
            Some(scene.scenes_hint)
        },
    }
}

/// Whether a light effect of a scene has a code other than zero.
pub open spec fn some_code(scene: LightEffectSceneView) -> bool {
    exists|i: int|
        0 <= i < scene.light_effects.len() && (#[trigger] scene.light_effects[i]).scene_code != 0
}

/// The catalog category of a described category: the entries of the scenes that have a code.
pub open spec fn described_category(category: LightEffectCategoryView) -> SceneCatalogCategoryView {
    SceneCatalogCategoryView {
        name: category.category_name,
        scenes: category.scenes.filter(
            |scene: LightEffectSceneView| some_code(scene),
        ).map_values(|scene: LightEffectSceneView| described_entry(scene)),
    }
}

proof fn lemma_usable_entries(scenes: Seq<LightEffectSceneView>)
    ensures
        usable_entries(scenes) == scenes.filter(
            |scene: LightEffectSceneView| some_code(scene),
        ).map_values(|scene: LightEffectSceneView| described_entry(scene)),
    decreases scenes.len(),
{
    reveal(Seq::filter);
    if scenes.len() > 0 {
        let front = scenes.drop_last();
        let last = scenes.last();
        let coded = |scene: LightEffectSceneView| some_code(scene);
        let entry = |scene: LightEffectSceneView| described_entry(scene);
        lemma_usable_entries(front);
        if some_code(last) {
            assert(usable_entry(last) == Some(described_entry(last)));
            assert(front.filter(coded).push(last).map_values(entry) == front.filter(
                coded,
            ).map_values(entry) + seq![described_entry(last)]);
        } else {
            assert(usable_entry(last) is None);
        }
    }
}

/// The catalog that is made of the scene library has every category that holds a scene with a
/// code, in order, with just those scenes, in order.
pub proof fn law_catalog_of_the_library(categories: Seq<LightEffectCategoryView>)
    ensures
        usable_categories(categories) == categories.map_values(
            |category: LightEffectCategoryView| described_category(category),
        ).filter(|category: SceneCatalogCategoryView| category.scenes.len() > 0),
    decreases categories.len(),
{
    let described = |category: LightEffectCategoryView| described_category(category);
    let filled = |category: SceneCatalogCategoryView| category.scenes.len() > 0;
    reveal(Seq::filter);
    if categories.len() > 0 {
        let front = categories.drop_last();
        let last = categories.last();
        law_catalog_of_the_library(front);
        lemma_usable_entries(last.scenes);
        assert(categories.map_values(described).drop_last() == front.map_values(described));
        assert(categories.map_values(described).last() == described_category(last));
        if described_category(last).scenes.len() > 0 {
            assert(usable_category(last) == Some(described_category(last)));
            assert(usable_categories(front) + seq![described_category(last)]
                == usable_categories(front).push(described_category(last)));
        } else {
            assert(usable_category(last) is None);
        }
    }
}

} // verus!
