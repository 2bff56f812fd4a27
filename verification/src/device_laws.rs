//! What signatures and error messages say, and that the contents of a value leave nothing out.
use crate::catalog::{
    listing_view, CatalogReply, CatalogReplyView, CatalogStage, CatalogStageView, CatalogTask,
};
use crate::control::{
    call_view, outcome_view, ControlReply, ControlReplyView, ControlStage, ControlStageView,
    ControlTask, LanPoll, Request, RequestView,
};
use crate::device::{
    capability_text, platform_signature, signature_of, Device, DeviceCapability,
    DeviceCapabilityView, DeviceFacts, DeviceNames, DeviceView, HttpDeviceInfo,
    HttpDeviceInfoView, LanDevice,
};
use crate::error::{decimal, digits, StateError, StateErrorView};
use crate::order::{law_sort_keeps_names, stable_sort, SortKey};
use crate::polling::{PollReply, PollReplyView, PollStage, PollStageView, PollTask};
use crate::scene::{
    media_view, LightEffectCategory, LightEffectScene, SceneCatalogCache, SceneCatalogCategory,
    SceneCatalogCategoryView, SceneCatalogEntry,
};
use crate::text::precedes;
use vstd::prelude::*;

verus! {

/// The signature of a device that the platform knows is model and id, each with a colon behind it,
/// and then its capabilities. It is there exactly if the platform knows the device.
pub proof fn law_signature_begins_with_model_and_id(device: DeviceView)
    ensures
        device.http_device_info is None ==> platform_signature(device) is None,
        device.http_device_info is Some ==> platform_signature(device) == Some(
            signature_of(device.http_device_info->0),
        ),
        device.http_device_info matches Some(info) ==> (info.capabilities.len() == 0
            ==> platform_signature(device) == Some(info.sku + ":"@ + info.device + ":"@)),
{
    if let Some(info) = device.http_device_info {
        if info.capabilities.len() == 0 {
            let texts = info.capabilities.map_values(|c: DeviceCapabilityView| capability_text(c));
            assert(texts.len() == 0);
            law_sort_keeps_names(SortKey::Plain, texts);
            assert(signature_of(info) == info.sku + ":"@ + info.device + ":"@);
        }
    }
}

/// One more capability, not smaller in text than any before, adds its kind, a colon and its
/// instance to the signature, behind a bar if it is not the first.
pub proof fn law_signature_lists_capabilities(
    info: HttpDeviceInfoView,
    capability: DeviceCapabilityView,
)
    requires
        forall|i: int|
            0 <= i < info.capabilities.len() ==> !precedes(
                capability.kind + ":"@ + capability.instance,
                (#[trigger] info.capabilities[i]).kind + ":"@ + info.capabilities[i].instance,
            ),
    ensures
        ({
            let more = HttpDeviceInfoView {
                capabilities: info.capabilities.push(capability),
                ..info
            };
            let text = capability.kind + ":"@ + capability.instance;
            &&& info.capabilities.len() == 0 ==> signature_of(more) == signature_of(info) + text
            &&& info.capabilities.len() > 0 ==> signature_of(more) == signature_of(info) + "|"@
                + text
        }),
{
    let text_of = |c: DeviceCapabilityView| capability_text(c);
    let texts = info.capabilities.map_values(text_of);
    let more = info.capabilities.push(capability).map_values(text_of);
    let text = capability_text(capability);
    let sorted = stable_sort(SortKey::Plain, texts);
    law_sort_keeps_names(SortKey::Plain, texts);
    assert(more.drop_last() == texts);
    assert(more.last() == text);
    if sorted.len() > 0 {
        assert(sorted.contains(sorted.last()));
        let i = choose|i: int| 0 <= i < texts.len() && texts[i] == sorted.last();
        assert(texts[i] == capability_text(info.capabilities[i]));
        assert(!precedes(text, sorted.last()));
    }
    assert(stable_sort(SortKey::Plain, more) == sorted.push(text));
    assert(sorted.push(text).drop_last() == sorted);
    let front = info.sku + ":"@ + info.device + ":"@;
    let all = HttpDeviceInfoView { capabilities: info.capabilities.push(capability), ..info };
    if info.capabilities.len() == 0 {
        assert(signature_of(all) == signature_of(info) + text);
    } else {
        assert(signature_of(all) == signature_of(info) + "|"@ + text);
    }
}

/// The number that decimal digits stand for.
pub open spec fn number_of(text: Seq<char>) -> int
    decreases text.len(),
{
    if text.len() == 0 {
        0
    } else {
        number_of(text.drop_last()) * 10 + (text.last() as int - '0' as int)
    }
}

/// A natural number is written in decimal digits that stand for it, without a leading zero.
pub proof fn law_digits(n: nat)
    ensures
        digits(n).len() > 0,
        number_of(digits(n)) == n,
        forall|i: int| 0 <= i < digits(n).len() ==> '0' <= #[trigger] digits(n)[i] <= '9',
        n > 0 ==> digits(n)[0] != '0',
        n == 0 ==> digits(n).len() == 1,
    decreases n,
{
    let digit = ((48 + n % 10) as u32) as char;
    assert(digit as int == 48 + n % 10);
    if n < 10 {
        assert(digits(n) == seq![digit]);
        assert(digits(n).drop_last() == Seq::<char>::empty());
        assert(number_of(digits(n).drop_last()) == 0);
    } else {
        law_digits(n / 10);
        assert(digits(n).drop_last() == digits(n / 10));
        assert(digits(n)[0] == digits(n / 10)[0]);
    }
}

/// A number is written with a minus sign exactly if it is negative, and its digits stand for its
/// magnitude.
pub proof fn law_decimal(n: int)
    ensures
        n >= 0 ==> decimal(n) == digits(n as nat) && number_of(decimal(n)) == n,
        n < 0 ==> decimal(n)[0] == '-' && number_of(decimal(n).drop_first()) == -n,
{
    reveal_strlit("-");
    if n >= 0 {
        law_digits(n as nat);
    } else {
        law_digits((-n) as nat);
        assert(decimal(n).drop_first() == digits((-n) as nat));
    }
}

/// Each error is put into its own words, with the label, id, device, mode or reason that it is
/// about in their place.
pub proof fn law_error_in_words(
    device: Seq<char>,
    label: Seq<char>,
    id: Seq<char>,
    reason: Seq<char>,
    work_mode: i64,
)
    ensures
        (StateErrorView::LabelNotFound { label }).text(device) == "device '"@ + label
            + "' not found"@,
        (StateErrorView::DeviceNotFound { id }).text(device) == "Device not found: "@ + id,
        StateErrorView::LanUnavailable.text(device)
            == "LAN control unavailable: no LAN client connected"@,
        StateErrorView::UnsupportedLightPower.text(device)
            == "Unsupported light-only power command for "@ + device
            + ". Please share the device metadata and state if you report this issue"@,
        StateErrorView::UnableToUsePlatform.text(device)
            == "Unable to use Platform API to control "@ + device,
        StateErrorView::UnableToControlLightPower.text(device)
            == "Unable to control light power state for "@ + device,
        StateErrorView::UnableToControlPower.text(device) == "Unable to control power state for "@
            + device,
        StateErrorView::UnableToControlBrightness.text(device)
            == "Unable to control brightness for "@ + device,
        StateErrorView::UnableToControlColorTemperature.text(device)
            == "Unable to control color temperature for "@ + device,
        StateErrorView::UnableToControlColor.text(device) == "Unable to control color for "@
            + device,
        (StateErrorView::UnableToControlHumidifier { work_mode }).text(device)
            == "Unable to control humidifier parameter work_mode="@ + decimal(work_mode as int)
            + " for "@ + device,
        StateErrorView::UnableToSetTemperature.text(device) == "Unable to set temperature for "@
            + device,
        StateErrorView::UnableToSetScene.text(device) == "Unable to set scene for "@ + device,
        (StateErrorView::CallFailed { reason }).text(device) == reason,
{
}

/// The contents of a device are those of its fields.
pub proof fn law_contents_of_a_device(device: Device)
    ensures
        device@.sku == device.sku@,
        device@.id == device.id@,
        device@.lan_device is Some <==> device.lan_device is Some,
        device.lan_device matches Some(lan) ==> device@.lan_device == Some(lan@),
        device@.http_device_info is Some <==> device.http_device_info is Some,
        device.http_device_info matches Some(info) ==> device@.http_device_info == Some(info@),
        device@.undoc_device_info is Some <==> device.undoc_device_info is Some,
        device.undoc_device_info matches Some(info) ==> device@.undoc_device_info->0.entry
            == info.entry@,
        device@.nightlight_state == device.nightlight_state,
        device@.lan_device_status == device.lan_device_status,
        device@.http_device_state is Some <==> device.http_device_state is Some,
        device.http_device_state matches Some(state) ==> device@.http_device_state == Some(
            state.document@,
        ),
        device@.last_polled == device.last_polled,
        device@.active_scene is Some <==> device.active_scene is Some,
        device.active_scene matches Some(scene) ==> device@.active_scene == Some(scene@),
        device@.scene_catalog is Some <==> device.scene_catalog is Some,
        device.scene_catalog matches Some(catalog) ==> device@.scene_catalog == Some(catalog@),
        device@.record == device.record@,
{
}

/// The contents of what belongs to a device are those of its fields.
pub proof fn law_contents_of_device_parts(
    lan: LanDevice,
    info: HttpDeviceInfo,
    capability: DeviceCapability,
    names: DeviceNames,
    facts: DeviceFacts,
)
    ensures
        lan@.sku == lan.sku@ && lan@.device == lan.device@ && lan@.announcement
            == lan.announcement@,
        info@.sku == info.sku@ && info@.device == info.device@ && info@.device_name
            == info.device_name@ && info@.device_type == info.device_type@,
        info@.capabilities.len() == info.capabilities.len(),
        forall|i: int|
            0 <= i < info.capabilities.len() ==> #[trigger] info@.capabilities[i]
                == info.capabilities[i]@,
        capability@.kind == capability.kind@ && capability@.instance == capability.instance@,
        capability@.parameters is Some <==> capability.parameters is Some,
        capability.parameters matches Some(text) ==> capability@.parameters == Some(text@),
        capability@.alarm_type is Some <==> capability.alarm_type is Some,
        capability.alarm_type matches Some(text) ==> capability@.alarm_type == Some(text@),
        capability@.event_state is Some <==> capability.event_state is Some,
        capability.event_state matches Some(text) ==> capability@.event_state == Some(text@),
        names@.name == names.name@ && names@.computed_name == names.computed_name@
            && names@.topic_safe_id == names.topic_safe_id@,
        names@.ip_addr is Some <==> names.ip_addr is Some,
        names.ip_addr matches Some(address) ==> names@.ip_addr == Some(address@),
        facts@.device_type is Other <==> facts.device_type is Other,
        facts@.iot_api_supported == facts.iot_api_supported,
        facts@.iot_compatible == facts.iot_compatible,
        facts@.avoid_platform_api == facts.avoid_platform_api,
        facts@.pollable_via_iot == facts.pollable_via_iot,
        facts@.pollable_via_lan == facts.pollable_via_lan,
        facts@.music_mode_active == facts.music_mode_active,
        facts@.light_power_toggle_instance_name is Some
            <==> facts.light_power_toggle_instance_name is Some,
        facts.light_power_toggle_instance_name matches Some(name)
            ==> facts@.light_power_toggle_instance_name == Some(name@),
{
}

/// The contents of a request are the interface, the command and the values that it holds.
pub proof fn law_contents_of_a_request(request: Request)
    ensures
        match request {
            Request::IotSendReal { command } => request@ == (RequestView::IotSendReal {
                command: command@,
            }),
            Request::IotSetPower { on } => request@ == (RequestView::IotSetPower { on }),
            Request::IotSetBrightness { percent } => request@ == (
            RequestView::IotSetBrightness { percent }),
            Request::IotSetColorTemperature { kelvin } => request@ == (
            RequestView::IotSetColorTemperature { kelvin }),
            Request::IotSetColorRgb { color } => request@ == (
            RequestView::IotSetColorRgb { color }),
            Request::LanTurn { on } => request@ == (RequestView::LanTurn { on }),
            Request::LanBrightness { percent } => request@ == (
            RequestView::LanBrightness { percent }),
            Request::LanColorTemperatureKelvin { kelvin } => request@ == (
            RequestView::LanColorTemperatureKelvin { kelvin }),
            Request::LanColorRgb { color } => request@ == (RequestView::LanColorRgb { color }),
            Request::LanSceneByName { scene } => request@ == (RequestView::LanSceneByName {
                scene: scene@,
            }),
            Request::PlatformSetPower { on } => request@ == (RequestView::PlatformSetPower { on }),
            Request::PlatformSetToggle { instance, on } => request@ == (
            RequestView::PlatformSetToggle { instance: instance@, on }),
            Request::PlatformSetBrightness { percent } => request@ == (
            RequestView::PlatformSetBrightness { percent }),
            Request::PlatformSetColorTemperature { kelvin } => request@ == (
            RequestView::PlatformSetColorTemperature { kelvin }),
            Request::PlatformSetColorRgb { color } => request@ == (
            RequestView::PlatformSetColorRgb { color }),
            Request::PlatformSetWorkMode { work_mode, value } => request@ == (
            RequestView::PlatformSetWorkMode { work_mode, value }),
            Request::PlatformSetTargetTemperature { instance, target } => request@ == (
            RequestView::PlatformSetTargetTemperature { instance: instance@, target }),
            Request::PlatformSetSceneByName { scene } => request@ == (
            RequestView::PlatformSetSceneByName { scene: scene@ }),
            Request::PlatformControl { capability, value } => request@ == (
            RequestView::PlatformControl { capability: capability@, value }),
        },
{
}

/// The contents of a task are the device it began with and the stage it is at, and those of a poll
/// on the local network are the device, what is awaited and until when.
pub proof fn law_contents_of_tasks(
    control: ControlTask,
    poll: PollTask,
    listing: CatalogTask,
    lan: LanPoll,
)
    ensures
        control@.device == control.device@ && control@.stage == control.stage@,
        poll@.device == poll.device@ && poll@.stage == poll.stage@,
        listing@.device == listing.device@ && listing@.stage == listing.stage@,
        lan@.lan == lan.lan@ && lan@.expect == lan.expect && lan@.deadline == lan.deadline,
{
}

/// The contents of a stage are what it waits for and the values that it holds.
pub proof fn law_contents_of_stages(
    control: ControlStage,
    poll: PollStage,
    listing: CatalogStage,
)
    ensures
        match control {
            ControlStage::EncodeNightlight { params, command, facts } => control@ == (
            ControlStageView::EncodeNightlight { params, command, facts: facts@ }),
            ControlStage::EncodeMode { mode, param, work_mode, value } => control@ == (
            ControlStageView::EncodeMode { mode, param, work_mode, value }),
            ControlStage::Send { request } => control@ == (ControlStageView::Send {
                request: request@,
            }),
            ControlStage::QueryLan { poll } => control@ == (ControlStageView::QueryLan {
                poll: poll@,
            }),
            ControlStage::PauseLan { poll } => control@ == (ControlStageView::PauseLan {
                poll: poll@,
            }),
            ControlStage::Advise { device } => control@ == (ControlStageView::Advise {
                device: device@,
            }),
            ControlStage::Finished { result } => control@ == (ControlStageView::Finished {
                result: outcome_view(result),
            }),
        },
        match poll {
            PollStage::RequestIotStatus => poll@ == PollStageView::RequestIotStatus,
            PollStage::Describe => poll@ == PollStageView::Describe,
            PollStage::Pause { facts } => poll@ == (PollStageView::Pause { facts: facts@ }),
            PollStage::GetDeviceState => poll@ == PollStageView::GetDeviceState,
            PollStage::Advise { device } => poll@ == (PollStageView::Advise { device: device@ }),
            PollStage::Finished { result } => poll@ == (PollStageView::Finished {
                result: outcome_view(result),
            }),
        },
        match listing {
            CatalogStage::ListSceneNames { signature } => listing@ == (
            CatalogStageView::ListSceneNames { signature: signature.deep_view() }),
            CatalogStage::FetchMedia { signature, names } => listing@ == (
            CatalogStageView::FetchMedia {
                signature: signature.deep_view(),
                names: names.deep_view(),
            }),
            CatalogStage::FetchScenes { signature } => listing@ == (CatalogStageView::FetchScenes {
                signature: signature.deep_view(),
            }),
            CatalogStage::Finished { result } => listing@ == (CatalogStageView::Finished {
                result: listing_view(result),
            }),
        },
{
}

/// The contents of a reply are what it answers, how that went, and when.
pub proof fn law_contents_of_replies(
    control: ControlReply,
    poll: PollReply,
    listing: CatalogReply,
)
    ensures
        match control {
            ControlReply::Encoded { command } => control@ == (ControlReplyView::Encoded {
                command: command.deep_view(),
            }),
            ControlReply::Sent { result, now } => control@ == (ControlReplyView::Sent {
                result: call_view(result),
                now,
            }),
            ControlReply::Status { result } => control@ == (ControlReplyView::Status {
                result: call_view(result),
            }),
            ControlReply::Resumed { now } => control@ == (ControlReplyView::Resumed { now }),
            ControlReply::Advised { result } => control@ == (ControlReplyView::Advised {
                result: call_view(result),
            }),
        },
        match poll {
            PollReply::IotRequested { result, now } => poll@ == (PollReplyView::IotRequested {
                result: call_view(result),
                now,
            }),
            PollReply::Described { facts } => poll@ == (PollReplyView::Described {
                facts: facts@,
            }),
            PollReply::Resumed => poll@ == PollReplyView::Resumed,
            PollReply::DeviceState { result: Ok(state), now } => poll@ == (
            PollReplyView::DeviceState { result: Ok(state.document@), now }),
            PollReply::DeviceState { result: Err(reason), now } => poll@ == (
            PollReplyView::DeviceState { result: Err(reason@), now }),
            PollReply::Advised { result } => poll@ == (PollReplyView::Advised {
                result: call_view(result),
            }),
        },
        match listing {
            CatalogReply::Names { result: Ok(names) } => listing@ == (CatalogReplyView::Names {
                result: Ok(names.deep_view()),
            }),
            CatalogReply::Names { result: Err(reason) } => listing@ == (CatalogReplyView::Names {
                result: Err(reason@),
            }),
            CatalogReply::Scenes { result: Ok(library) } => listing@ == (CatalogReplyView::Scenes {
                result: Ok(library.deep_view()),
            }),
            CatalogReply::Scenes { result: Err(reason) } => listing@ == (CatalogReplyView::Scenes {
                result: Err(reason@),
            }),
        },
{
}

/// The contents of scenes and catalogs are those of their fields.
pub proof fn law_contents_of_scenes(
    entry: SceneCatalogEntry,
    category: SceneCatalogCategory,
    cache: SceneCatalogCache,
    scene: LightEffectScene,
    described: LightEffectCategory,
    media: (Vec<String>, Option<String>),
)
    ensures
        entry@.name == entry.name@ && entry@.icon_urls == entry.icon_urls.deep_view()
            && entry@.hint == entry.hint.deep_view(),
        category@.name == category.name@ && category@.scenes == category.scenes.deep_view(),
        cache@.platform_signature == cache.platform_signature.deep_view() && cache@.categories
            == cache.categories.deep_view(),
        scene@.scene_name == scene.scene_name@ && scene@.icon_urls == scene.icon_urls.deep_view()
            && scene@.scenes_hint == scene.scenes_hint@ && scene@.light_effects
            == scene.light_effects@,
        described@.category_name == described.category_name@ && described@.scenes
            == described.scenes.deep_view(),
        media_view(media).icon_urls == media.0.deep_view() && media_view(media).hint
            == media.1.deep_view(),
{
}

/// The contents of an error are what went wrong and what it is about.
pub proof fn law_contents_of_an_error(error: StateError)
    ensures
        match error {
            StateError::LabelNotFound { label } => error@ == (StateErrorView::LabelNotFound {
                label: label@,
            }),
            StateError::DeviceNotFound { id } => error@ == (StateErrorView::DeviceNotFound {
                id: id@,
            }),
            StateError::LanUnavailable => error@ == StateErrorView::LanUnavailable,
            StateError::UnsupportedLightPower => error@ == StateErrorView::UnsupportedLightPower,
            StateError::UnableToUsePlatform => error@ == StateErrorView::UnableToUsePlatform,
            StateError::UnableToControlLightPower => error@
                == StateErrorView::UnableToControlLightPower,
            StateError::UnableToControlPower => error@ == StateErrorView::UnableToControlPower,
            StateError::UnableToControlBrightness => error@
                == StateErrorView::UnableToControlBrightness,
            StateError::UnableToControlColorTemperature => error@
                == StateErrorView::UnableToControlColorTemperature,
            StateError::UnableToControlColor => error@ == StateErrorView::UnableToControlColor,
            StateError::UnableToControlHumidifier { work_mode } => error@ == (
            StateErrorView::UnableToControlHumidifier { work_mode }),
            StateError::UnableToSetTemperature => error@ == StateErrorView::UnableToSetTemperature,
            StateError::UnableToSetScene => error@ == StateErrorView::UnableToSetScene,
            StateError::CallFailed { reason } => error@ == (StateErrorView::CallFailed {
                reason: reason@,
            }),
        },
{
}

/// An outcome stays what it is: what was gained, the error, or the reason.
pub proof fn law_contents_of_outcomes<T>(
    value: T,
    error: StateError,
    reason: String,
    categories: Vec<SceneCatalogCategory>,
)
    ensures
        outcome_view::<T>(Ok(value)) == Ok::<T, StateErrorView>(value),
        outcome_view::<T>(Err(error)) == Err::<T, StateErrorView>(error@),
        call_view::<T>(Ok(value)) == Ok::<T, Seq<char>>(value),
        call_view::<T>(Err(reason)) == Err::<T, Seq<char>>(reason@),
        listing_view(Ok(categories)) == Ok::<Seq<SceneCatalogCategoryView>, StateErrorView>(
            categories.deep_view(),
        ),
        listing_view(Err(error)) == Err::<Seq<SceneCatalogCategoryView>, StateErrorView>(error@),
{
}

} // verus!
