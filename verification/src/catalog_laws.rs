//! What listings mean: who is asked for the scenes of a device, what is listed, and what is kept,
//! said of devices and connections themselves.
use crate::catalog::{
    catalog_step, listing_begun, out_of_date, CatalogReplyView, CatalogStageView, CatalogTaskView,
};
use crate::device::{platform_signature, DeviceView};
use crate::error::StateErrorView;
use crate::laws::listing_run;
use crate::registry_laws::is_update;
use crate::scene::{
    catalog_names, law_offered_names_complete, offered_names, usable_categories,
    LightEffectCategoryView, SceneCatalogCacheView, SceneCatalogCategoryView,
    SceneCatalogEntryView,
};
use crate::state::StateView;
use vstd::prelude::*;

verus! {

/// A kept catalog is out of date exactly if the platform is connected and knows the device, and
/// the catalog was fetched without its signature or under another.
pub proof fn law_when_a_catalog_is_out_of_date(
    state: StateView,
    device: DeviceView,
    cache: SceneCatalogCacheView,
)
    ensures
        platform_signature(device) is Some <==> device.http_device_info is Some,
        out_of_date(state, device, cache) <==> {
            &&& state.platform_client is Some
            &&& device.http_device_info is Some
            &&& cache.platform_signature is None || cache.platform_signature->0
                != platform_signature(device)->0
        },
{
}

/// A listing goes by the device as it is registered, or as it was given if it is not. It gives the
/// kept catalog unless there is none or it is out of date. Otherwise it begins by asking the
/// platform for names if that is connected and knows the device, whatever else is known of the
/// device, and by asking the scene library if not.
pub proof fn law_where_a_listing_begins(state: StateView, device: DeviceView)
    ensures
        ({
            let task = listing_begun(state, device);
            let known = if state.devices.contains_key(device.id) {
                state.devices[device.id]
            } else {
                device
            };
            let connected = state.platform_client is Some;
            let cloud = connected && known.http_device_info is Some;
            let stale = cloud && known.scene_catalog is Some
                && known.scene_catalog->0.platform_signature != platform_signature(known);
            let fetch = known.scene_catalog is None || stale;
            &&& task.device == known
            &&& !fetch ==> task.stage == (CatalogStageView::Finished {
                result: Ok(known.scene_catalog->0.categories),
            })
            &&& fetch && cloud ==> task.stage == (CatalogStageView::ListSceneNames {
                signature: platform_signature(known),
            })
            &&& fetch && !cloud ==> task.stage == (CatalogStageView::FetchScenes {
                signature: None,
            })
        }),
{
}

proof fn lemma_offered_some(names: Seq<Seq<char>>)
    ensures
        offered_names(names).len() > 0 <==> names.len() > 0,
{
    law_offered_names_complete(names);
    if names.len() > 0 {
        assert(names.contains(names[0]));
        assert(offered_names(names).contains(names[0]));
    }
    if offered_names(names).len() > 0 {
        assert(offered_names(names).contains(offered_names(names)[0]));
    }
}

/// Names that the platform gives lead to their illustration, no names lead to the scene library,
/// and a platform that fails leads to the kept catalog, or to its reason if there is none. Nothing
/// is kept yet, and the signature stays with the listing.
pub proof fn law_answer_of_the_platform(
    state: StateView,
    device: DeviceView,
    signature: Option<Seq<char>>,
    names: Seq<Seq<char>>,
    reason: Seq<char>,
)
    ensures
        ({
            let task = CatalogTaskView {
                device,
                stage: CatalogStageView::ListSceneNames { signature },
            };
            let answered = catalog_step(state, task, CatalogReplyView::Names { result: Ok(names) });
            let failed = catalog_step(state, task, CatalogReplyView::Names { result: Err(reason) });
            &&& answered.0 == state
            &&& names.len() > 0 ==> answered.1 == (CatalogStageView::FetchMedia {
                signature,
                names: offered_names(names),
            })
            &&& names.len() == 0 ==> answered.1 == (CatalogStageView::FetchScenes { signature })
            &&& failed.0 == state
            &&& device.scene_catalog is Some ==> failed.1 == (CatalogStageView::Finished {
                result: Ok(device.scene_catalog->0.categories),
            })
            &&& device.scene_catalog is None ==> failed.1 == (CatalogStageView::Finished {
                result: Err(StateErrorView::CallFailed { reason }),
            })
        }),
{
    lemma_offered_some(names);
}

/// A listing by platform names ends with one category called All that has one entry for each name,
/// in order, whatever the scene library answers; it is kept for the device under its signature.
pub proof fn law_listing_by_names_ends(
    state: StateView,
    device: DeviceView,
    signature: Option<Seq<char>>,
    names: Seq<Seq<char>>,
    scenes: Result<Seq<LightEffectCategoryView>, Seq<char>>,
)
    ensures
        ({
            let (after, stage) = catalog_step(
                state,
                CatalogTaskView {
                    device,
                    stage: CatalogStageView::FetchMedia { signature, names },
                },
                CatalogReplyView::Scenes { result: scenes },
            );
            let categories = stage->result->Ok_0;
            let known = if state.devices.contains_key(device.id) {
                state.devices[device.id]
            } else {
                DeviceView::fresh(device.sku, device.id)
            };
            &&& stage == (CatalogStageView::Finished { result: Ok(categories) })
            &&& categories.len() == 1
            &&& categories[0].name == "All"@
            &&& categories[0].scenes.len() == names.len()
            &&& forall|n: int|
                0 <= n < names.len() ==> (#[trigger] categories[0].scenes[n]).name == names[n]
            &&& scenes is Err ==> forall|n: int|
                0 <= n < names.len() ==> (#[trigger] categories[0].scenes[n]).icon_urls.len() == 0
                    && categories[0].scenes[n].hint is None
            &&& is_update(
                state,
                after,
                device.id,
                DeviceView {
                    scene_catalog: Some(
                        SceneCatalogCacheView { platform_signature: signature, categories },
                    ),
                    ..known
                },
            )
        }),
{
}

/// A listing by the scene library ends with the usable categories of the library. Where there are
/// none, or the library cannot be had, the scenes that were kept stay. What is given is kept for
/// the device under the signature of this listing, unless it is empty; then nothing changes.
pub proof fn law_listing_by_the_library_ends(
    state: StateView,
    device: DeviceView,
    signature: Option<Seq<char>>,
    scenes: Result<Seq<LightEffectCategoryView>, Seq<char>>,
)
    ensures
        ({
            let (after, stage) = catalog_step(
                state,
                CatalogTaskView { device, stage: CatalogStageView::FetchScenes { signature } },
                CatalogReplyView::Scenes { result: scenes },
            );
            let fetched = scenes is Ok && usable_categories(scenes->Ok_0).len() > 0;
            let categories = stage->result->Ok_0;
            let known = if state.devices.contains_key(device.id) {
                state.devices[device.id]
            } else {
                DeviceView::fresh(device.sku, device.id)
            };
            &&& stage == (CatalogStageView::Finished { result: Ok(categories) })
            &&& fetched ==> categories == usable_categories(scenes->Ok_0)
            &&& !fetched && device.scene_catalog is Some ==> categories
                == device.scene_catalog->0.categories
            &&& !fetched && device.scene_catalog is None ==> categories.len() == 0
            &&& categories.len() == 0 ==> after == state
            &&& categories.len() > 0 ==> is_update(
                state,
                after,
                device.id,
                DeviceView {
                    scene_catalog: Some(
                        SceneCatalogCacheView { platform_signature: signature, categories },
                    ),
                    ..known
                },
            )
        }),
{
}

/// A reply to something that the listing does not wait for changes nothing.
pub proof fn law_stray_listing_reply_changes_nothing(
    state: StateView,
    task: CatalogTaskView,
    reply: CatalogReplyView,
)
    requires
        reply is Names ==> !(task.stage is ListSceneNames),
        reply is Scenes ==> !(task.stage is FetchMedia || task.stage is FetchScenes),
    ensures
        catalog_step(state, task, reply) == (state, task.stage),
{
}

/// No controllable scene is hidden. Wherever the platform is connected and knows the device, and no
/// catalog is kept or the kept one is out of date, a listing begins by asking the platform, on
/// whatever other interface the device was found; and if the platform gives names, the whole
/// listing ends with exactly those, each once if no two agree ignoring ASCII case, whatever the
/// scene library holds.
pub proof fn law_no_controllable_scene_is_hidden(
    state: StateView,
    device: DeviceView,
    names: Seq<Seq<char>>,
    scenes: Result<Seq<LightEffectCategoryView>, Seq<char>>,
    name: Seq<char>,
)
    requires
        ({
            let known = if state.devices.contains_key(device.id) {
                state.devices[device.id]
            } else {
                device
            };
            &&& state.platform_client is Some
            &&& known.http_device_info is Some
            &&& known.scene_catalog is None || known.scene_catalog->0.platform_signature
                != platform_signature(known)
        }),
    ensures
        listing_begun(state, device).stage is ListSceneNames,
        names.len() > 0 ==> {
            let end = listing_run(state, device, names, scenes).1;
            let categories = end->result->Ok_0;
            &&& end is Finished
            &&& end->result is Ok
            &&& names.contains(name) <==> exists|n: int|
                0 <= n < categories[0].scenes.len() && (#[trigger] categories[0].scenes[n]).name
                    == name
            &&& categories.len() == 1
            &&& categories[0].scenes.len() == offered_names(names).len()
            &&& forall|n: int|
                0 <= n < categories[0].scenes.len() ==> (#[trigger] categories[0].scenes[n]).name
                    == offered_names(names)[n]
        },
{
    let task = listing_begun(state, device);
    law_where_a_listing_begins(state, device);
    lemma_offered_some(names);
    law_offered_names_complete(names);
    let offered = offered_names(names);
    let categories = listing_run(state, device, names, scenes).1->result->Ok_0;
    if names.len() > 0 {
        law_listing_by_names_ends(state, task.device, task.stage->ListSceneNames_signature, offered, scenes);
        if names.contains(name) {
            assert(offered.contains(name));
            let n = choose|n: int| 0 <= n < offered.len() && offered[n] == name;
            assert(categories[0].scenes[n].name == name);
        }
        if exists|n: int|
            0 <= n < categories[0].scenes.len() && (#[trigger] categories[0].scenes[n]).name
                == name {
            let n = choose|n: int|
                0 <= n < categories[0].scenes.len() && (#[trigger] categories[0].scenes[n]).name
                    == name;
            assert(offered.contains(offered[n]));
        }
    }
}

/// The names of a catalog are the names of its scenes, category after category.
pub proof fn law_catalog_names_in_order(categories: Seq<SceneCatalogCategoryView>)
    ensures
        catalog_names(categories) == categories.map_values(
            |category: SceneCatalogCategoryView|
                category.scenes.map_values(|scene: SceneCatalogEntryView| scene.name),
        ).flatten(),
{
    let names = |category: SceneCatalogCategoryView|
        category.scenes.map_values(|scene: SceneCatalogEntryView| scene.name);
    lemma_catalog_names(categories);
    categories.map_values(names).lemma_flatten_and_flatten_alt_are_equivalent();
}

proof fn lemma_catalog_names(categories: Seq<SceneCatalogCategoryView>)
    ensures
        catalog_names(categories) == categories.map_values(
            |category: SceneCatalogCategoryView|
                category.scenes.map_values(|scene: SceneCatalogEntryView| scene.name),
        ).flatten_alt(),
    decreases categories.len(),
{
    let names = |category: SceneCatalogCategoryView|
        category.scenes.map_values(|scene: SceneCatalogEntryView| scene.name);
    if categories.len() > 0 {
        lemma_catalog_names(categories.drop_last());
        assert(categories.map_values(names).drop_last() == categories.drop_last().map_values(
            names,
        ));
    }
}

} // verus!
