//! What the service answers, field by field.

use vstd::prelude::*;
use serde_json::Value as JsonValue;

verus! {

/// The key material of the message broker.
#[derive(Debug, Clone)]
pub struct IotKey {
    pub endpoint: String,
    pub log: String,
    pub p12: String,
    pub p12_pass: String,
}

/// An account login.
#[derive(Debug, Clone)]
pub struct LoginAccountResponse {
    pub a: String,
    pub b: String,
    pub account_id: u64,
    /// The client identifier that the login was asked for with.
    pub client: String,
    pub is_savvy_user: bool,
    pub refresh_token: Option<String>,
    pub client_name: Option<String>,
    pub push_token: Option<String>,
    pub version_code: Option<String>,
    pub version_name: Option<String>,
    pub sys_version: Option<String>,
    pub token: String,
    /// Seconds after which the service renews the token.
    pub token_expire_cycle: u32,
    pub topic: String,
}

/// The devices and groups of an account.
#[derive(Debug)]
pub struct DevicesResponse {
    pub devices: Vec<DeviceEntry>,
    pub groups: Vec<GroupEntry>,
    pub message: String,
    pub status: u16,
}

#[derive(Debug)]
pub struct GroupEntry {
    pub group_id: u64,
    pub group_name: String,
}

#[derive(Debug, Clone)]
pub struct DeviceEntry {
    pub attributes_id: u32,
    pub device_id: Option<u32>,
    pub device: String,
    pub device_ext: DeviceEntryExt,
    pub device_name: String,
    pub goods_type: u32,
    pub group_id: u64,
    pub pact_code: Option<u32>,
    pub pact_type: Option<u32>,
    pub share: Option<u32>,
    pub sku: String,
    pub spec: String,
    pub support_scene: bool,
    pub version_hard: String,
    pub version_soft: String,
}

#[derive(Debug, Clone)]
pub struct DeviceEntryExt {
    pub device_settings: DeviceSettings,
    pub ext_resources: ExtResources,
    pub last_device_data: LastDeviceData,
}

#[derive(Debug, Clone)]
pub struct DeviceSettings {
    /// May be absent for devices that only speak Bluetooth.
    pub wifi_name: Option<String>,
    pub address: Option<String>,
    pub ble_name: String,
    pub topic: Option<String>,
    pub wifi_mac: Option<String>,
    pub pact_type: Option<u32>,
    pub pact_code: Option<u32>,
    pub dsp_version_soft: Option<JsonValue>,
    pub wifi_soft_version: Option<String>,
    pub wifi_hard_version: Option<String>,
    pub ic: Option<u32>,
    pub ic_sub_1: Option<u32>,
    pub ic_sub_2: Option<u32>,
    pub secret_code: Option<String>,
    pub boil_water_completed_noti_on_off: bool,
    pub completion_noti_on_off: bool,
    pub auto_shut_down_on_off: bool,
    pub sku: String,
    pub device: String,
    pub device_name: String,
    pub version_hard: String,
    pub version_soft: String,
    pub play_state: bool,
}

#[derive(Debug, Clone)]
pub struct ExtResources {
    pub sku_url: String,
    pub head_on_img_new: Option<String>,
    pub head_on_img: String,
    pub head_off_img: String,
    pub head_off_img_new: Option<String>,
    pub ext: String,
    pub ic: u32,
}

#[derive(Debug, Clone)]
pub struct LastDeviceData {
    pub online: bool,
}

/// The library of light effects of a device model.
#[derive(Debug)]
pub struct LightEffectLibraryResponse {
    pub data: LightEffectLibraryCategoryList,
    pub message: String,
    pub status: u32,
}

#[derive(Debug)]
pub struct LightEffectLibraryCategoryList {
    pub categories: Vec<LightEffectCategory>,
    pub support_speed: u8,
}

#[derive(Debug, Clone)]
pub struct LightEffectCategory {
    pub category_id: u32,
    pub category_name: String,
    pub scenes: Vec<LightEffectScene>,
}

#[derive(Debug, Clone)]
pub struct LightEffectScene {
    pub scene_id: u32,
    pub icon_urls: Vec<String>,
    pub scene_name: String,
    pub analytic_name: String,
    pub scene_type: u32,
    pub scene_code: u32,
    pub scence_category_id: u32,
    pub pop_up_prompt: u32,
    pub scenes_hint: String,
    /// For example the device versions that the scene applies to.
    pub rule: JsonValue,
    pub light_effects: Vec<LightEffectEntry>,
    pub voice_url: String,
    pub create_time: u64,
}

#[derive(Debug, Clone)]
pub struct LightEffectEntry {
    pub scence_param_id: u32,
    pub scence_name: String,
    /// Base64 text.
    pub scence_param: String,
    pub scene_code: u16,
    pub special_effect: Vec<JsonValue>,
    pub cmd_version: u32,
    pub scene_type: u32,
    pub diy_effect_code: Vec<JsonValue>,
    pub diy_effect_str: String,
    pub rules: Vec<JsonValue>,
    pub speed_info: JsonValue,
}

/// The shortcuts that an account has saved.
#[derive(Debug)]
pub struct OneClickResponse {
    pub data: OneClickComponentList,
    pub message: String,
    pub status: u32,
}

#[derive(Debug, Clone)]
pub struct OneClickComponentList {
    pub components: Vec<OneClickComponent>,
}

#[derive(Debug, Clone)]
pub struct OneClickComponent {
    pub can_disable: Option<u8>,
    pub can_manage: bool,
    pub feast_type: Option<u64>,
    pub feasts: Vec<JsonValue>,
    pub groups: Vec<JsonValue>,
    pub main_device: Option<JsonValue>,
    pub component_id: u64,
    pub environments: Vec<JsonValue>,
    pub name: String,
    pub component_type: u64,
    pub guide_url: Option<String>,
    pub h5_url: Option<String>,
    pub video_url: Option<String>,
    pub one_clicks: Vec<OneClick>,
}

#[derive(Debug, Clone)]
pub struct OneClick {
    pub name: String,
    pub plan_type: u32,
    pub preset_id: u32,
    pub preset_state: u32,
    pub siri_engine_id: u32,
    pub rule_type: u32,
    pub desc: String,
    pub exec_rules: Vec<JsonValue>,
    pub group_id: u64,
    pub group_name: String,
    pub iot_rules: Vec<OneClickIotRule>,
}

#[derive(Debug, Clone)]
pub struct OneClickIotRule {
    pub device_obj: OneClickIotRuleDevice,
    pub rule: Vec<OneClickIotRuleEntry>,
}

#[derive(Debug, Clone)]
pub struct OneClickIotRuleEntry {
    pub blue_msg: JsonValue,
    pub cmd_type: u64,
    pub cmd_val: OneClickIotRuleEntryCmd,
    pub device_type: u32,
    pub iot_msg: JsonValue,
}

#[derive(Debug, Clone)]
pub struct OneClickIotRuleEntryCmd {
    pub open: Option<u32>,
    pub scenes_code: Option<u16>,
    pub scence_id: Option<u16>,
    pub scenes_str: Option<String>,
    pub scence_param_id: Option<u16>,
}

#[derive(Debug, Clone)]
pub struct OneClickIotRuleDevice {
    pub name: String,
    pub device: String,
    pub sku: String,
    pub topic: String,
    pub ble_address: String,
    pub ble_name: String,
    pub device_splicing_status: u32,
    pub feast_id: u64,
    pub feast_name: String,
    pub feast_type: u64,
    pub goods_type: u64,
    pub ic: Option<u32>,
    pub ic_sub_1: Option<u32>,
    pub ic_sub_2: Option<u32>,
    pub is_feast: bool,
    pub pact_type: u32,
    pub pact_code: u32,
    pub settings: Option<JsonValue>,
    pub spec: String,
    pub sub_device: String,
    pub sub_device_num: u64,
    pub sub_devices: Option<JsonValue>,
    pub version_hard: String,
    pub version_soft: String,
    pub wifi_soft_version: String,
    pub wifi_hard_version: String,
}

} // verus!
