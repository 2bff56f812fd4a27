//! Devices as the registry keeps them: what is known of each, and what it was last seen doing.
use crate::order::{sort_names, stable_sort, SortKey};
use crate::scene::{SceneCatalogCache, SceneCatalogCacheView};
use vstd::prelude::*;
use vstd::string::StringExecFns;

verus! {

/// A colour, one byte per channel.
#[derive(Clone, Copy, Debug, PartialEq, Eq, Structural)]
pub struct DeviceColor {
    pub r: u8,
    pub g: u8,
    pub b: u8,
}

/// What a device answers when it is asked for its status over the local network.
#[derive(Clone, Copy, Debug, PartialEq, Eq, Structural)]
pub struct LanDeviceStatus {
    pub on: bool,
    pub brightness: u8,
    pub color: DeviceColor,
    pub color_temperature_kelvin: u32,
}

/// Settings of the night light that some humidifiers have.
#[derive(Clone, Copy, Debug, PartialEq, Eq, Structural)]
pub struct SetHumidifierNightlightParams {
    pub on: bool,
    pub brightness: u8,
    pub r: u8,
    pub g: u8,
    pub b: u8,
}

impl Default for SetHumidifierNightlightParams {
    /// Off, dark and black.
    fn default() -> (res: Self)
        ensures
            res == nightlight_off(),
    {
        SetHumidifierNightlightParams { on: false, brightness: 0, r: 0, g: 0, b: 0 }
    }
}

/// The night light settings of a device that has reported none.
pub open spec fn nightlight_off() -> SetHumidifierNightlightParams {
    SetHumidifierNightlightParams { on: false, brightness: 0, r: 0, g: 0, b: 0 }
}

/// What the account knows of a device beyond the documented interface.
#[derive(Debug, PartialEq, Eq)]
pub struct UndocDeviceInfo {
    /// The entry of the device in the account, as JSON text. Commands through the message broker
    /// go by it.
    pub entry: String,
}

/// The kind of appliance a device is.
#[derive(Debug, PartialEq, Eq)]
pub enum DeviceType {
    Light,
    /// Another kind that the platform documents, by name.
    Known(String),
    /// A kind that is not known here, by the name the platform gives it.
    Other(String),
}

/// A device as it was found on the local network.
#[derive(Debug, PartialEq, Eq)]
pub struct LanDevice {
    pub sku: String,
    pub device: String,
    /// All that the device announced of itself, its address among it, as JSON text. Commands over
    /// the local network go by it.
    pub announcement: String,
}

/// Something the platform lets one do with a device.
#[derive(Debug, PartialEq, Eq)]
pub struct DeviceCapability {
    /// The kind of the capability, as the text that `{:?}` gives for it, such as `DynamicScene`.
    /// The platform signature of a device is made of it.
    pub kind: String,
    pub instance: String,
    /// The values that the capability takes, as JSON text.
    pub parameters: Option<String>,
    /// The type of alarm that the capability raises, as JSON text.
    pub alarm_type: Option<String>,
    /// The events that the capability reports, as JSON text.
    pub event_state: Option<String>,
}

/// What the platform knows of a device.
#[derive(Debug, PartialEq, Eq)]
pub struct HttpDeviceInfo {
    pub sku: String,
    pub device: String,
    pub device_name: String,
    pub device_type: DeviceType,
    pub capabilities: Vec<DeviceCapability>,
}

/// The state of a device as the platform last reported it.
#[derive(Debug, PartialEq, Eq)]
pub struct HttpDeviceState {
    pub document: String,
}

/// The contents of a [`DeviceType`].
pub enum DeviceTypeView {
    Light,
    Known(Seq<char>),
    Other(Seq<char>),
}

/// The contents of a [`LanDevice`].
pub struct LanDeviceView {
    pub sku: Seq<char>,
    pub device: Seq<char>,
    pub announcement: Seq<char>,
}

/// The contents of an [`UndocDeviceInfo`].
pub struct UndocDeviceInfoView {
    pub entry: Seq<char>,
}

/// The contents of a [`DeviceCapability`].
pub struct DeviceCapabilityView {
    pub kind: Seq<char>,
    pub instance: Seq<char>,
    pub parameters: Option<Seq<char>>,
    pub alarm_type: Option<Seq<char>>,
    pub event_state: Option<Seq<char>>,
}

/// The contents of an [`HttpDeviceInfo`].
pub struct HttpDeviceInfoView {
    pub sku: Seq<char>,
    pub device: Seq<char>,
    pub device_name: Seq<char>,
    pub device_type: DeviceTypeView,
    pub capabilities: Seq<DeviceCapabilityView>,
}

impl DeepView for DeviceType {
    type V = DeviceTypeView;

    open spec fn deep_view(&self) -> DeviceTypeView {
        match self {
            DeviceType::Light => DeviceTypeView::Light,
            DeviceType::Known(name) => DeviceTypeView::Known(name@),
            DeviceType::Other(name) => DeviceTypeView::Other(name@),
        }
    }
}

impl View for DeviceType {
    type V = DeviceTypeView;

    open spec fn view(&self) -> DeviceTypeView {
        self.deep_view()
    }
}

impl DeepView for LanDevice {
    type V = LanDeviceView;

    open spec fn deep_view(&self) -> LanDeviceView {
        LanDeviceView {
            sku: self.sku@,
            device: self.device@,
            announcement: self.announcement@,
        }
    }
}

impl View for LanDevice {
    type V = LanDeviceView;

    open spec fn view(&self) -> LanDeviceView {
        self.deep_view()
    }
}

impl DeepView for UndocDeviceInfo {
    type V = UndocDeviceInfoView;

    open spec fn deep_view(&self) -> UndocDeviceInfoView {
        UndocDeviceInfoView { entry: self.entry@ }
    }
}

impl View for UndocDeviceInfo {
    type V = UndocDeviceInfoView;

    open spec fn view(&self) -> UndocDeviceInfoView {
        self.deep_view()
    }
}

impl DeepView for DeviceCapability {
    type V = DeviceCapabilityView;

    open spec fn deep_view(&self) -> DeviceCapabilityView {
        DeviceCapabilityView {
            kind: self.kind@,
            instance: self.instance@,
            parameters: self.parameters.deep_view(),
            alarm_type: self.alarm_type.deep_view(),
            event_state: self.event_state.deep_view(),
        }
    }
}

impl View for DeviceCapability {
    type V = DeviceCapabilityView;

    open spec fn view(&self) -> DeviceCapabilityView {
        self.deep_view()
    }
}

impl DeepView for HttpDeviceInfo {
    type V = HttpDeviceInfoView;

    open spec fn deep_view(&self) -> HttpDeviceInfoView {
        HttpDeviceInfoView {
            sku: self.sku@,
            device: self.device@,
            device_name: self.device_name@,
            device_type: self.device_type@,
            capabilities: self.capabilities.deep_view(),
        }
    }
}

impl View for HttpDeviceInfo {
    type V = HttpDeviceInfoView;

    open spec fn view(&self) -> HttpDeviceInfoView {
        self.deep_view()
    }
}

impl DeepView for HttpDeviceState {
    type V = Seq<char>;

    open spec fn deep_view(&self) -> Seq<char> {
        self.document@
    }
}

impl View for HttpDeviceState {
    type V = Seq<char>;

    open spec fn view(&self) -> Seq<char> {
        self.document@
    }
}

impl Clone for DeviceType {
    fn clone(&self) -> (res: Self)
        ensures
            res@ == self@,
    {
        match self {
            DeviceType::Light => DeviceType::Light,
            DeviceType::Known(name) => DeviceType::Known(name.clone()),
            DeviceType::Other(name) => DeviceType::Other(name.clone()),
        }
    }
}

impl Clone for LanDevice {
    fn clone(&self) -> (res: Self)
        ensures
            res@ == self@,
    {
        LanDevice {
            sku: self.sku.clone(),
            device: self.device.clone(),
            announcement: self.announcement.clone(),
        }
    }
}

impl Clone for UndocDeviceInfo {
    fn clone(&self) -> (res: Self)
        ensures
            res@ == self@,
    {
        UndocDeviceInfo { entry: self.entry.clone() }
    }
}

impl Clone for DeviceCapability {
    fn clone(&self) -> (res: Self)
        ensures
            res@ == self@,
    {
        DeviceCapability {
            kind: self.kind.clone(),
            instance: self.instance.clone(),
            parameters: clone_text(&self.parameters),
            alarm_type: clone_text(&self.alarm_type),
            event_state: clone_text(&self.event_state),
        }
    }
}

impl Clone for HttpDeviceInfo {
    fn clone(&self) -> (res: Self)
        ensures
            res@ == self@,
    {
        let res = HttpDeviceInfo {
            sku: self.sku.clone(),
            device: self.device.clone(),
            device_name: self.device_name.clone(),
            device_type: self.device_type.clone(),
            capabilities: self.capabilities.clone(),
        };
        assert(res.capabilities.deep_view() == self.capabilities.deep_view());
        res
    }
}

impl Clone for HttpDeviceState {
    fn clone(&self) -> (res: Self)
        ensures
            res@ == self@,
    {
        HttpDeviceState { document: self.document.clone() }
    }
}

/// A device: over which interfaces it was found, and what it was last seen doing.
///
/// How the device is called and what its model can do follow from this; see [`DeviceNames`] and
/// [`DeviceFacts`].
#[derive(Debug, PartialEq, Eq)]
pub struct Device {
    pub sku: String,
    pub id: String,
    pub lan_device: Option<LanDevice>,
    pub http_device_info: Option<HttpDeviceInfo>,
    pub undoc_device_info: Option<UndocDeviceInfo>,
    pub nightlight_state: Option<SetHumidifierNightlightParams>,
    pub lan_device_status: Option<LanDeviceStatus>,
    pub http_device_state: Option<HttpDeviceState>,
    /// When the device was last polled, in milliseconds of the caller's clock.
    pub last_polled: Option<u64>,
    pub active_scene: Option<String>,
    pub scene_catalog: Option<SceneCatalogCache>,
    /// What other parts of the service keep of the device, such as its last report through the
    /// message broker, as JSON text.
    pub record: String,
}

/// The contents of a [`Device`].
pub struct DeviceView {
    pub sku: Seq<char>,
    pub id: Seq<char>,
    pub lan_device: Option<LanDeviceView>,
    pub http_device_info: Option<HttpDeviceInfoView>,
    pub undoc_device_info: Option<UndocDeviceInfoView>,
    pub nightlight_state: Option<SetHumidifierNightlightParams>,
    pub lan_device_status: Option<LanDeviceStatus>,
    pub http_device_state: Option<Seq<char>>,
    pub last_polled: Option<u64>,
    pub active_scene: Option<Seq<char>>,
    pub scene_catalog: Option<SceneCatalogCacheView>,
    pub record: Seq<char>,
}

/// How a device is called. This changes with what is known of the device, so it is not kept: it
/// is worked out from the device whenever a label is looked up.
#[derive(Debug, PartialEq, Eq)]
pub struct DeviceNames {
    /// The name that the user gave the device, or else one made up for it.
    pub name: String,
    /// The name made up from model and id.
    pub computed_name: String,
    /// The id in the form used in message topics.
    pub topic_safe_id: String,
    /// The address on the local network, as text, if the device was found there.
    pub ip_addr: Option<String>,
}

/// The contents of [`DeviceNames`].
pub struct DeviceNamesView {
    pub name: Seq<char>,
    pub computed_name: Seq<char>,
    pub topic_safe_id: Seq<char>,
    pub ip_addr: Option<Seq<char>>,
}

impl DeepView for DeviceNames {
    type V = DeviceNamesView;

    open spec fn deep_view(&self) -> DeviceNamesView {
        DeviceNamesView {
            name: self.name@,
            computed_name: self.computed_name@,
            topic_safe_id: self.topic_safe_id@,
            ip_addr: self.ip_addr.deep_view(),
        }
    }
}

impl View for DeviceNames {
    type V = DeviceNamesView;

    open spec fn view(&self) -> DeviceNamesView {
        self.deep_view()
    }
}

/// What a device can do and how far it can be reached, going by its model and by what it last
/// reported. This changes with the device and with time, so it is not kept: it is worked out from
/// the device whenever a command or a poll begins.
#[derive(Debug, PartialEq, Eq)]
pub struct DeviceFacts {
    pub device_type: DeviceType,
    /// Whether the device takes commands through the message broker.
    pub iot_api_supported: bool,
    /// Whether the entry of the device in the account lets the message broker ask for its status.
    pub iot_compatible: bool,
    /// Whether the platform's scene command is known not to work for the device.
    pub avoid_platform_api: bool,
    pub pollable_via_iot: bool,
    pub pollable_via_lan: bool,
    /// Whether the device is animating to music, where a recent report tells. A report that is no
    /// longer recent tells nothing.
    pub music_mode_active: Option<bool>,
    /// The platform toggle that switches only the light of the device.
    pub light_power_toggle_instance_name: Option<String>,
}

/// The contents of [`DeviceFacts`].
pub struct DeviceFactsView {
    pub device_type: DeviceTypeView,
    pub iot_api_supported: bool,
    pub iot_compatible: bool,
    pub avoid_platform_api: bool,
    pub pollable_via_iot: bool,
    pub pollable_via_lan: bool,
    pub music_mode_active: Option<bool>,
    pub light_power_toggle_instance_name: Option<Seq<char>>,
}

impl DeepView for DeviceFacts {
    type V = DeviceFactsView;

    open spec fn deep_view(&self) -> DeviceFactsView {
        DeviceFactsView {
            device_type: self.device_type@,
            iot_api_supported: self.iot_api_supported,
            iot_compatible: self.iot_compatible,
            avoid_platform_api: self.avoid_platform_api,
            pollable_via_iot: self.pollable_via_iot,
            pollable_via_lan: self.pollable_via_lan,
            music_mode_active: self.music_mode_active,
            light_power_toggle_instance_name: self.light_power_toggle_instance_name.deep_view(),
        }
    }
}

impl View for DeviceFacts {
    type V = DeviceFactsView;

    open spec fn view(&self) -> DeviceFactsView {
        self.deep_view()
    }
}

impl Clone for DeviceFacts {
    fn clone(&self) -> (res: Self)
        ensures
            res@ == self@,
    {
        DeviceFacts {
            device_type: self.device_type.clone(),
            iot_api_supported: self.iot_api_supported,
            iot_compatible: self.iot_compatible,
            avoid_platform_api: self.avoid_platform_api,
            pollable_via_iot: self.pollable_via_iot,
            pollable_via_lan: self.pollable_via_lan,
            music_mode_active: self.music_mode_active,
            light_power_toggle_instance_name: clone_text(&self.light_power_toggle_instance_name),
        }
    }
}

impl DeepView for Device {
    type V = DeviceView;

    open spec fn deep_view(&self) -> DeviceView {
        DeviceView {
            sku: self.sku@,
            id: self.id@,
            lan_device: self.lan_device.deep_view(),
            http_device_info: self.http_device_info.deep_view(),
            undoc_device_info: self.undoc_device_info.deep_view(),
            nightlight_state: self.nightlight_state,
            lan_device_status: self.lan_device_status,
            http_device_state: self.http_device_state.deep_view(),
            last_polled: self.last_polled,
            active_scene: self.active_scene.deep_view(),
            scene_catalog: self.scene_catalog.deep_view(),
            record: self.record@,
        }
    }
}

impl View for Device {
    type V = DeviceView;

    open spec fn view(&self) -> DeviceView {
        self.deep_view()
    }
}

fn clone_text(text: &Option<String>) -> (res: Option<String>)
    ensures
        res.deep_view() == text.deep_view(),
{
    text.clone()
}

fn clone_lan_device(lan: &Option<LanDevice>) -> (res: Option<LanDevice>)
    ensures
        res.deep_view() == lan.deep_view(),
{
    lan.clone()
}

fn clone_info(info: &Option<HttpDeviceInfo>) -> (res: Option<HttpDeviceInfo>)
    ensures
        res.deep_view() == info.deep_view(),
{
    info.clone()
}

fn clone_undoc_info(info: &Option<UndocDeviceInfo>) -> (res: Option<UndocDeviceInfo>)
    ensures
        res.deep_view() == info.deep_view(),
{
    info.clone()
}

fn clone_state(state: &Option<HttpDeviceState>) -> (res: Option<HttpDeviceState>)
    ensures
        res.deep_view() == state.deep_view(),
{
    state.clone()
}

fn clone_catalog(catalog: &Option<SceneCatalogCache>) -> (res: Option<SceneCatalogCache>)
    ensures
        res.deep_view() == catalog.deep_view(),
{
    catalog.clone()
}

impl Clone for Device {
    fn clone(&self) -> (res: Self)
        ensures
            res@ == self@,
    {
        Device {
            sku: self.sku.clone(),
            id: self.id.clone(),
            lan_device: clone_lan_device(&self.lan_device),
            http_device_info: clone_info(&self.http_device_info),
            undoc_device_info: clone_undoc_info(&self.undoc_device_info),
            nightlight_state: self.nightlight_state,
            lan_device_status: self.lan_device_status,
            http_device_state: clone_state(&self.http_device_state),
            last_polled: self.last_polled,
            active_scene: clone_text(&self.active_scene),
            scene_catalog: clone_catalog(&self.scene_catalog),
            record: self.record.clone(),
        }
    }
}

impl DeviceView {
    /// A device of which nothing but model and id is known.
    pub open spec fn fresh(sku: Seq<char>, id: Seq<char>) -> DeviceView {
        DeviceView {
            sku,
            id,
            lan_device: None,
            http_device_info: None,
            undoc_device_info: None,
            nightlight_state: None,
            lan_device_status: None,
            http_device_state: None,
            last_polled: None,
            active_scene: None,
            scene_catalog: None,
            record: Seq::empty(),
        }
    }
}

impl Device {
    /// A device of which nothing but model and id is known.
    pub fn new(sku: &str, id: &str) -> (res: Self)
        ensures
            res@ == DeviceView::fresh(sku@, id@),
    {
        Device {
            sku: sku.to_string(),
            id: id.to_string(),
            lan_device: None,
            http_device_info: None,
            undoc_device_info: None,
            nightlight_state: None,
            lan_device_status: None,
            http_device_state: None,
            last_polled: None,
            active_scene: None,
            scene_catalog: None,
            record: String::new(),
        }
    }

    /// Notes that the device was polled at `now`.
    pub fn set_last_polled(&mut self, now: u64)
        ensures
            final(self)@ == (DeviceView { last_polled: Some(now), ..old(self)@ }),
    {
        self.last_polled = Some(now);
    }

    /// Notes what the platform reported of the device.
    pub fn set_http_device_state(&mut self, state: HttpDeviceState)
        ensures
            final(self)@ == (DeviceView { http_device_state: Some(state@), ..old(self)@ }),
    {
        self.http_device_state = Some(state);
    }

    /// Notes what the device answered on the local network.
    pub fn set_lan_device_status(&mut self, status: LanDeviceStatus)
        ensures
            final(self)@ == (DeviceView { lan_device_status: Some(status), ..old(self)@ }),
    {
        self.lan_device_status = Some(status);
    }

    /// Notes the scene that the device shows, or that it shows none.
    pub fn set_active_scene(&mut self, scene: Option<String>)
        ensures
            final(self)@ == (DeviceView { active_scene: scene.deep_view(), ..old(self)@ }),
    {
        self.active_scene = scene;
    }

    /// The catalog that was kept for the device, if any.
    pub fn scene_catalog_cache(&self) -> (res: Option<&SceneCatalogCache>)
        ensures
            res.deep_view() == self@.scene_catalog,
    {
        self.scene_catalog.as_ref()
    }

    /// Keeps a catalog for the device.
    pub fn set_scene_catalog(&mut self, catalog: SceneCatalogCache)
        ensures
            final(self)@ == (DeviceView { scene_catalog: Some(catalog@), ..old(self)@ }),
    {
        self.scene_catalog = Some(catalog);
    }

    /// Forgets the catalog that was kept for the device.
    pub fn clear_scene_catalog(&mut self)
        ensures
            final(self)@ == (DeviceView { scene_catalog: None, ..old(self)@ }),
    {
        self.scene_catalog = None;
    }
}

/// A capability as one text: kind and instance, with a colon between them.
pub open spec fn capability_text(capability: DeviceCapabilityView) -> Seq<char> {
    capability.kind + ":"@ + capability.instance
}

/// The texts one after the other, with `separator` between neighbours.
pub open spec fn joined(texts: Seq<Seq<char>>, separator: Seq<char>) -> Seq<char>
    decreases texts.len(),
{
    if texts.len() == 0 {
        Seq::empty()
    } else if texts.len() == 1 {
        texts[0]
    } else {
        joined(texts.drop_last(), separator) + separator + texts.last()
    }
}

/// The fingerprint of what the platform knows of a device: model, id and the sorted capabilities.
pub open spec fn signature_of(info: HttpDeviceInfoView) -> Seq<char> {
    info.sku + ":"@ + info.device + ":"@ + joined(
        stable_sort(
            SortKey::Plain,
            info.capabilities.map_values(|c: DeviceCapabilityView| capability_text(c)),
        ),
        "|"@,
    )
}

/// The fingerprint of what the platform knows of a device, where it knows anything.
pub open spec fn platform_signature(device: DeviceView) -> Option<Seq<char>> {
    match device.http_device_info {
        Some(info) => Some(signature_of(info)),
        None => None,
    }
}

/// Joins the texts with `separator` between neighbours.
fn join(texts: &Vec<String>, separator: &str) -> (res: String)
    ensures
        res@ == joined(texts.deep_view(), separator@),
{
    let ghost all = texts.deep_view();
    let mut res = String::new();
    let mut i: usize = 0;
    assert(res@ == joined(all.take(0), separator@));
    while i < texts.len()
        invariant
            i <= texts.len(),
            all == texts.deep_view(),
            res@ == joined(all.take(i as int), separator@),
        decreases texts.len() - i,
    {
        assert(all.take(i + 1).drop_last() == all.take(i as int));
        assert(all.take(i + 1).last() == texts[i as int]@);
        if i > 0 {
            res.append(separator);
        }
        res.append(&texts[i]);
        assert(res@ == joined(all.take(i + 1), separator@));
        i += 1;
    }
    assert(all.take(all.len() as int) == all);
    res
}

/// A fingerprint of what the platform knows of the device, or nothing while it knows nothing.
/// The order in which the capabilities are listed does not matter.
pub fn scene_platform_signature(device: &Device) -> (res: Option<String>)
    ensures
        res.deep_view() == platform_signature(device@),
{
    match &device.http_device_info {
        None => None,
        Some(info) => {
            let mut capabilities: Vec<String> = Vec::new();
            let mut i: usize = 0;
            while i < info.capabilities.len()
                invariant
                    i <= info.capabilities.len(),
                    capabilities.len() == i,
                    forall|j: int|
                        0 <= j < i ==> (#[trigger] capabilities[j])@ == capability_text(
                            info.capabilities[j]@,
                        ),
                decreases info.capabilities.len() - i,
            {
                let mut text = info.capabilities[i].kind.clone();
                text.append(":");
                text.append(&info.capabilities[i].instance);
                capabilities.push(text);
                i += 1;
            }
            assert(capabilities.deep_view() == info@.capabilities.map_values(
                |c: DeviceCapabilityView| capability_text(c),
            ));
            let sorted = sort_names(SortKey::Plain, capabilities);
            let mut signature = info.sku.clone();
            signature.append(":");
            signature.append(&info.device);
            signature.append(":");
            signature.append(&join(&sorted, "|"));
            Some(signature)
        },
    }
}

} // verus!
