//! Listing of scenes: when a kept catalog is good enough, where a new one comes from, and what is
//! kept of it.
//!
//! Like a control task, a listing advances from stage to stage by the replies it gets.
use crate::device::{platform_signature, scene_platform_signature, Device, DeviceView};
use crate::error::{StateError, StateErrorView};
use crate::scene::{
    catalog_categories, catalog_names, enrich_scene_names, entry_for, flatten_catalog,
    media_by_name, offered_names, scene_media_by_name, scenes_of, sort_and_dedup_scenes,
    usable_categories, LightEffectCategory, LightEffectCategoryView, SceneCatalogCache,
    SceneCatalogCacheView, SceneCatalogCategory, SceneCatalogCategoryView, SceneMediaView,
};
use crate::state::{State, StateView};
use vstd::prelude::*;

verus! {

/// What a listing waits for.
#[derive(Debug, PartialEq, Eq)]
pub enum CatalogStage {
    /// Ask the platform for the names of the scenes of the device.
    ListSceneNames { signature: Option<String> },
    /// Ask the undocumented scene library for the scenes of the model, to illustrate the names.
    FetchMedia { signature: Option<String>, names: Vec<String> },
    /// Ask the undocumented scene library for the scenes of the model.
    FetchScenes { signature: Option<String> },
    /// Nothing more.
    Finished { result: Result<Vec<SceneCatalogCategory>, StateError> },
}

/// The contents of a [`CatalogStage`].
pub enum CatalogStageView {
    ListSceneNames { signature: Option<Seq<char>> },
    FetchMedia { signature: Option<Seq<char>>, names: Seq<Seq<char>> },
    FetchScenes { signature: Option<Seq<char>> },
    Finished { result: Result<Seq<SceneCatalogCategoryView>, StateErrorView> },
}

/// The contents of the outcome of a listing.
pub open spec fn listing_view(result: Result<Vec<SceneCatalogCategory>, StateError>) -> Result<
    Seq<SceneCatalogCategoryView>,
    StateErrorView,
> {
    match result {
        Ok(categories) => Ok(categories.deep_view()),
        Err(error) => Err(error@),
    }
}

impl DeepView for CatalogStage {
    type V = CatalogStageView;

    open spec fn deep_view(&self) -> CatalogStageView {
        match self {
            CatalogStage::ListSceneNames { signature } => CatalogStageView::ListSceneNames {
                signature: signature.deep_view(),
            },
            CatalogStage::FetchMedia { signature, names } => CatalogStageView::FetchMedia {
                signature: signature.deep_view(),
                names: names.deep_view(),
            },
            CatalogStage::FetchScenes { signature } => CatalogStageView::FetchScenes {
                signature: signature.deep_view(),
            },
            CatalogStage::Finished { result } => CatalogStageView::Finished {
                result: listing_view(*result),
            },
        }
    }
}

impl View for CatalogStage {
    type V = CatalogStageView;

    open spec fn view(&self) -> CatalogStageView {
        self.deep_view()
    }
}

/// A listing of the scenes of a device on its way.
#[derive(Debug, PartialEq, Eq)]
pub struct CatalogTask {
    /// The device as it was when the listing began.
    pub device: Device,
    pub stage: CatalogStage,
}

/// The contents of a [`CatalogTask`].
pub struct CatalogTaskView {
    pub device: DeviceView,
    pub stage: CatalogStageView,
}

impl DeepView for CatalogTask {
    type V = CatalogTaskView;

    open spec fn deep_view(&self) -> CatalogTaskView {
        CatalogTaskView { device: self.device@, stage: self.stage@ }
    }
}

impl View for CatalogTask {
    type V = CatalogTaskView;

    open spec fn view(&self) -> CatalogTaskView {
        self.deep_view()
    }
}

/// The answer to what a listing waited for.
#[derive(Debug, PartialEq, Eq)]
pub enum CatalogReply {
    /// The names of the scenes, or the reason why there are none to be had.
    Names { result: Result<Vec<String>, String> },
    /// The scenes of the model, or the reason why there are none to be had.
    Scenes { result: Result<Vec<LightEffectCategory>, String> },
}

/// The contents of a [`CatalogReply`].
pub enum CatalogReplyView {
    Names { result: Result<Seq<Seq<char>>, Seq<char>> },
    Scenes { result: Result<Seq<LightEffectCategoryView>, Seq<char>> },
}

impl DeepView for CatalogReply {
    type V = CatalogReplyView;

    open spec fn deep_view(&self) -> CatalogReplyView {
        match self {
            CatalogReply::Names { result } => CatalogReplyView::Names {
                result: match *result {
                    Ok(names) => Ok(names.deep_view()),
                    Err(reason) => Err(reason@),
                },
            },
            CatalogReply::Scenes { result } => CatalogReplyView::Scenes {
                result: match *result {
                    Ok(categories) => Ok(categories.deep_view()),
                    Err(reason) => Err(reason@),
                },
            },
        }
    }
}

impl View for CatalogReply {
    type V = CatalogReplyView;

    open spec fn view(&self) -> CatalogReplyView {
        self.deep_view()
    }
}

/// A listing that ended well.
pub open spec fn listed(categories: Seq<SceneCatalogCategoryView>) -> CatalogStageView {
    CatalogStageView::Finished { result: Ok(categories) }
}

/// Whether a kept catalog is out of date: the platform is connected and knows something of the
/// device other than it did when the catalog was fetched.
pub open spec fn out_of_date(
    state: StateView,
    device: DeviceView,
    cache: SceneCatalogCacheView,
) -> bool {
    &&& state.platform_client is Some
    &&& platform_signature(device) is Some
    &&& cache.platform_signature != platform_signature(device)
}

/// Where the fetching of a catalog begins: with the platform where it knows the device, else with
/// the undocumented scene library.
pub open spec fn fetch_begun(state: StateView, device: DeviceView) -> CatalogStageView {
    let signature = if state.platform_client is Some {
        platform_signature(device)
    } else {
        None
    };
    if state.reaches_via_platform(device) {
        CatalogStageView::ListSceneNames { signature }
    } else {
        CatalogStageView::FetchScenes { signature }
    }
}

/// Where a listing begins: with the kept catalog if it is not out of date, else with fetching.
pub open spec fn listing_begun(state: StateView, device: DeviceView) -> CatalogTaskView {
    let device = match state.device(device.id) {
        Some(known) => known,
        None => device,
    };
    let stage = match device.scene_catalog {
        Some(cache) => if out_of_date(state, device, cache) {
            fetch_begun(state, device)
        } else {
            listed(cache.categories)
        },
        None => fetch_begun(state, device),
    };
    CatalogTaskView { device, stage }
}

/// The catalog of names that the platform gave: one category, each name with its icons and hint.
pub open spec fn platform_catalog(
    signature: Option<Seq<char>>,
    names: Seq<Seq<char>>,
    media: Map<Seq<char>, SceneMediaView>,
) -> SceneCatalogCacheView {
    SceneCatalogCacheView {
        platform_signature: signature,
        categories: seq![
            SceneCatalogCategoryView {
                name: "All"@,
                scenes: names.map_values(|name: Seq<char>| entry_for(name, media)),
            },
        ],
    }
}

/// The categories that a listing gives once a catalog was fetched: those of the catalog, but
/// where it is empty those that were kept.
pub open spec fn served(device: DeviceView, fetched: SceneCatalogCacheView) -> Seq<
    SceneCatalogCategoryView,
> {
    match device.scene_catalog {
        Some(cache) => if fetched.categories.len() == 0 {
            cache.categories
        } else {
            fetched.categories
        },
        None => fetched.categories,
    }
}

impl StateView {
    /// The registry with a catalog kept for a device.
    pub open spec fn with_catalog(
        self,
        device: DeviceView,
        catalog: SceneCatalogCacheView,
    ) -> StateView {
        let known = self.device_or_fresh(device.sku, device.id);
        self.with_device(device.id, DeviceView { scene_catalog: Some(catalog), ..known })
    }
}

/// The end of a listing for which a catalog was fetched. What is given is kept, under the
/// signature of the fetched catalog, unless it is empty.
pub open spec fn fetched_end(
    state: StateView,
    device: DeviceView,
    fetched: SceneCatalogCacheView,
) -> (StateView, CatalogStageView) {
    let categories = served(device, fetched);
    let after = if categories.len() > 0 {
        state.with_catalog(
            device,
            SceneCatalogCacheView { platform_signature: fetched.platform_signature, categories },
        )
    } else {
        state
    };
    (after, listed(categories))
}

/// The end of a listing for which no catalog could be fetched: the kept one, or else the error.
pub open spec fn unfetched_end(device: DeviceView, reason: Seq<char>) -> CatalogStageView {
    match device.scene_catalog {
        Some(cache) => listed(cache.categories),
        None => CatalogStageView::Finished { result: Err(StateErrorView::CallFailed { reason }) },
    }
}

/// What a reply does to the registry and to the listing that waited for it. A reply to something
/// else does nothing.
pub open spec fn catalog_step(
    state: StateView,
    task: CatalogTaskView,
    reply: CatalogReplyView,
) -> (StateView, CatalogStageView) {
    let device = task.device;
    match (task.stage, reply) {
        (
            CatalogStageView::ListSceneNames { signature },
            CatalogReplyView::Names { result },
        ) => match result {
            Ok(names) => {
                let names = offered_names(names);
                if names.len() > 0 {
                    (state, CatalogStageView::FetchMedia { signature, names })
                } else {
                    (state, CatalogStageView::FetchScenes { signature })
                }
            },
            Err(reason) => (state, unfetched_end(device, reason)),
        },
        (
            CatalogStageView::FetchMedia { signature, names },
            CatalogReplyView::Scenes { result },
        ) => {
            let media = match result {
                Ok(categories) => media_by_name(scenes_of(categories)),
                Err(_) => Map::empty(),
            };
            fetched_end(state, device, platform_catalog(signature, names, media))
        },
        (CatalogStageView::FetchScenes { signature }, CatalogReplyView::Scenes { result }) => {
            let categories = match result {
                Ok(categories) => usable_categories(categories),
                Err(_) => Seq::empty(),
            };
            fetched_end(
                state,
                device,
                SceneCatalogCacheView { platform_signature: signature, categories },
            )
        },
        (stage, _) => (state, stage),
    }
}

impl State {
    /// Whether a kept catalog is out of date.
    pub fn should_refresh_scene_catalog(&self, device: &Device, cache: &SceneCatalogCache) -> (res:
        bool)
        ensures
            res == out_of_date(self@, device@, cache@),
    {
        if self.get_platform_client().is_none() {
            return false;
        }
        match (scene_platform_signature(device), &cache.platform_signature) {
            (Some(current), Some(kept)) => current != *kept,
            (Some(_), None) => true,
            (None, _) => false,
        }
    }

    /// Begins to fetch the catalog of a device.
    ///
    /// The platform has the authoritative set of controllable scene names but carries
    /// no icons/hints. When it returns names, they are the spine and each is enriched
    /// with icon/hint metadata from the undocumented library, matched by name. Scenes with
    /// no match there still appear (without a thumbnail); scenes that only the library knows and
    /// the platform can't drive are dropped. Without platform names the library is
    /// used wholesale.
    fn fetch_scene_catalog(&self, device: &Device) -> (res: CatalogStage)
        ensures
            res@ == fetch_begun(self@, device@),
    {
        let signature = if self.get_platform_client().is_some() {
            scene_platform_signature(device)
        } else {
            None
        };
        if self.has_platform(device) {
            CatalogStage::ListSceneNames { signature }
        } else {
            CatalogStage::FetchScenes { signature }
        }
    }

    /// Begins to list the scenes of a device, with their category structure preserved.
    pub fn device_list_scenes_categorized(&self, device: &Device) -> (res: CatalogTask)
        requires
            self.wf(),
        ensures
            res@ == listing_begun(self@, device@),
    {
        let device = match self.device_by_id(&device.id) {
            Some(known) => known,
            None => device.clone(),
        };
        let stage = match device.scene_catalog_cache() {
            Some(cache) => if self.should_refresh_scene_catalog(&device, cache) {
                self.fetch_scene_catalog(&device)
            } else {
                CatalogStage::Finished { result: Ok(cache.categories.clone()) }
            },
            None => self.fetch_scene_catalog(&device),
        };
        CatalogTask { device, stage }
    }

    /// The scenes of a device as one list of names, from its listing by categories.
    pub fn device_list_scenes(listing: Result<Vec<SceneCatalogCategory>, StateError>) -> (res:
        Result<Vec<String>, StateError>)
        ensures
            match (listing, res) {
                (Ok(categories), Ok(names)) => names.deep_view() == offered_names(
                    catalog_names(categories.deep_view()),
                ),
                (Err(error), Err(same)) => same == error,
                _ => false,
            },
    {
        match listing {
            Ok(categories) => Ok(sort_and_dedup_scenes(flatten_catalog(categories))),
            Err(error) => Err(error),
        }
    }

    /// Ends a listing for which a catalog was fetched.
    ///
    /// The kept scenes stay if the fresh fetch came back empty (e.g. a
    /// transient upstream failure) rather than serving an empty list. The fresh
    /// signature is still adopted so the refresh check settles
    /// instead of refetching on every state notification. A still-empty result is left unkept
    /// so a device whose metadata hasn't loaded yet isn't pinned to "no scenes".
    fn keep_catalog(&mut self, device: &Device, fetched: SceneCatalogCache) -> (res: CatalogStage)
        requires
            old(self).wf(),
        ensures
            final(self).wf(),
            (final(self)@, res@) == fetched_end(old(self)@, device@, fetched@),
    {
        let mut catalog = fetched;
        if let Some(cache) = device.scene_catalog_cache() {
            if catalog.categories.len() == 0 && cache.categories.len() > 0 {
                catalog.categories = cache.categories.clone();
                assert(catalog.categories.deep_view() == cache.categories.deep_view());
            } else {
                assert(catalog.categories.deep_view() == served(device@, fetched@));
            }
        }
        assert(catalog.categories.deep_view() == served(device@, fetched@));
        if catalog.categories.len() > 0 {
            let kept = catalog.clone();
            self.device_mut(&device.sku, &device.id).set_scene_catalog(kept);
        }
        CatalogStage::Finished { result: Ok(catalog.categories) }
    }

    /// Takes a listing on by one reply. A reply to something that the listing does not wait for
    /// changes nothing.
    pub fn advance_catalog(&mut self, task: CatalogTask, reply: CatalogReply) -> (res: CatalogTask)
        requires
            old(self).wf(),
        ensures
            final(self).wf(),
            res@.device == task@.device,
            (final(self)@, res@.stage) == catalog_step(old(self)@, task@, reply@),
    {
        let device = task.device;
        let stage = match (task.stage, reply) {
            (CatalogStage::ListSceneNames { signature }, CatalogReply::Names { result }) =>
                match result {
                Ok(names) => {
                    let names = sort_and_dedup_scenes(names);
                    assert(names.deep_view().len() == names.len());
                    if names.len() > 0 {
                        CatalogStage::FetchMedia { signature, names }
                    } else {
                        CatalogStage::FetchScenes { signature }
                    }
                },
                Err(reason) => match device.scene_catalog_cache() {
                    Some(cache) => CatalogStage::Finished { result: Ok(cache.categories.clone()) },
                    None => CatalogStage::Finished {
                        result: Err(StateError::CallFailed { reason }),
                    },
                },
            },
            (CatalogStage::FetchMedia { signature, names }, CatalogReply::Scenes { result }) => {
                let media = scene_media_by_name(result);
                let mut categories: Vec<SceneCatalogCategory> = Vec::new();
                categories.push(
                    SceneCatalogCategory {
                        name: "All".to_string(),
                        scenes: enrich_scene_names(names, &media),
                    },
                );
                let fetched = SceneCatalogCache { platform_signature: signature, categories };
                assert(fetched@.categories == platform_catalog(
                    signature.deep_view(),
                    names.deep_view(),
                    media@,
                ).categories);
                self.keep_catalog(&device, fetched)
            },
            (CatalogStage::FetchScenes { signature }, CatalogReply::Scenes { result }) => {
                let categories = match result {
                    Ok(categories) => catalog_categories(categories),
                    Err(_) => Vec::new(),
                };
                let fetched = SceneCatalogCache { platform_signature: signature, categories };
                assert(result is Err ==> fetched@.categories == Seq::<
                    SceneCatalogCategoryView,
                >::empty());
                self.keep_catalog(&device, fetched)
            },
            (stage, _) => stage,
        };
        CatalogTask { device, stage }
    }
}

} // verus!
