use govee_undoc::client::GoveeUndocumentedApi;
use govee_undoc::responses::{
    LightEffectCategory, LightEffectEntry, LightEffectScene, OneClick, OneClickComponent,
    OneClickIotRule, OneClickIotRuleDevice, OneClickIotRuleEntry, OneClickIotRuleEntryCmd,
};
use govee_undoc::scenes::{DeviceCapabilityKind, DeviceParameters, EnumOption, SceneSelector};
use serde_json::Value;

fn step(message: &str) -> OneClickIotRuleEntry {
    OneClickIotRuleEntry {
        blue_msg: Value::Null,
        cmd_type: 1,
        cmd_val: OneClickIotRuleEntryCmd {
            open: None,
            scenes_code: None,
            scence_id: None,
            scenes_str: None,
            scence_param_id: None,
        },
        device_type: 0,
        iot_msg: Value::String(message.to_string()),
    }
}

fn rule(topic: &str, device: &str, messages: &[&str]) -> OneClickIotRule {
    OneClickIotRule {
        device_obj: OneClickIotRuleDevice {
            name: "lamp".to_string(),
            device: device.to_string(),
            sku: "H6072".to_string(),
            topic: topic.to_string(),
            ble_address: String::new(),
            ble_name: String::new(),
            device_splicing_status: 0,
            feast_id: 0,
            feast_name: String::new(),
            feast_type: 0,
            goods_type: 0,
            ic: None,
            ic_sub_1: None,
            ic_sub_2: None,
            is_feast: false,
            pact_type: 0,
            pact_code: 0,
            settings: None,
            spec: String::new(),
            sub_device: String::new(),
            sub_device_num: 0,
            sub_devices: None,
            version_hard: String::new(),
            version_soft: String::new(),
            wifi_soft_version: String::new(),
            wifi_hard_version: String::new(),
        },
        rule: messages.iter().map(|m| step(m)).collect(),
    }
}

fn one_click(name: &str, iot_rules: Vec<OneClickIotRule>) -> OneClick {
    OneClick {
        name: name.to_string(),
        plan_type: 0,
        preset_id: 0,
        preset_state: 0,
        siri_engine_id: 0,
        rule_type: 0,
        desc: String::new(),
        exec_rules: vec![],
        group_id: 0,
        group_name: String::new(),
        iot_rules,
    }
}

fn component(name: &str, one_clicks: Vec<OneClick>) -> OneClickComponent {
    OneClickComponent {
        can_disable: None,
        can_manage: true,
        feast_type: None,
        feasts: vec![],
        groups: vec![],
        main_device: None,
        component_id: 1,
        environments: vec![],
        name: name.to_string(),
        component_type: 0,
        guide_url: None,
        h5_url: None,
        video_url: None,
        one_clicks,
    }
}

fn effect(param_id: u32) -> LightEffectEntry {
    LightEffectEntry {
        scence_param_id: param_id,
        scence_name: String::new(),
        scence_param: String::new(),
        scene_code: 0,
        special_effect: vec![],
        cmd_version: 0,
        scene_type: 0,
        diy_effect_code: vec![],
        diy_effect_str: String::new(),
        rules: vec![],
        speed_info: Value::Null,
    }
}

fn scene(id: u32, name: &str, light_effects: Vec<LightEffectEntry>) -> LightEffectScene {
    LightEffectScene {
        scene_id: id,
        icon_urls: vec![],
        scene_name: name.to_string(),
        analytic_name: String::new(),
        scene_type: 0,
        scene_code: 0,
        scence_category_id: 0,
        pop_up_prompt: 0,
        scenes_hint: String::new(),
        rule: Value::Null,
        light_effects,
        voice_url: String::new(),
        create_time: 0,
    }
}

fn category(name: &str, scenes: Vec<LightEffectScene>) -> LightEffectCategory {
    LightEffectCategory { category_id: 0, category_name: name.to_string(), scenes }
}

#[test]
fn no_components_give_no_shortcuts() {
    assert!(GoveeUndocumentedApi::parse_one_clicks(&vec![]).is_empty());
    assert!(GoveeUndocumentedApi::parse_one_clicks(&vec![component("Home", vec![])]).is_empty());
}

#[test]
fn one_clicks_without_rules_are_left_out() {
    let components = vec![component(
        "Home",
        vec![one_click("empty", vec![]), one_click("Movie", vec![rule("GA/1", "AA:BB", &["on"])])],
    )];
    let parsed = GoveeUndocumentedApi::parse_one_clicks(&components);
    assert_eq!(parsed.len(), 1);
    assert_eq!(parsed[0].name, "One-Click: Home: Movie");
}

#[test]
fn shortcuts_keep_the_order_and_the_messages() {
    let components = vec![
        component(
            "Home",
            vec![
                one_click(
                    "Movie",
                    vec![rule("GA/1", "AA:BB", &["on", "dim"]), rule("GA/2", "CC:DD", &["off"])],
                ),
                one_click("Idle", vec![]),
            ],
        ),
        component("Empty", vec![]),
        component("Office", vec![one_click("Work", vec![rule("GA/3", "EE:FF", &[])])]),
    ];
    let parsed = GoveeUndocumentedApi::parse_one_clicks(&components);
    assert_eq!(parsed.len(), 2);
    assert_eq!(parsed[0].name, "One-Click: Home: Movie");
    assert_eq!(parsed[0].entries.len(), 2);
    assert_eq!(parsed[0].entries[0].topic, "GA/1");
    assert_eq!(parsed[0].entries[0].device, "AA:BB");
    assert_eq!(
        parsed[0].entries[0].msgs,
        vec![Value::String("on".to_string()), Value::String("dim".to_string())]
    );
    assert_eq!(parsed[0].entries[1].topic, "GA/2");
    assert_eq!(parsed[0].entries[1].device, "CC:DD");
    assert_eq!(parsed[0].entries[1].msgs, vec![Value::String("off".to_string())]);
    assert_eq!(parsed[1].name, "One-Click: Office: Work");
    assert_eq!(parsed[1].entries.len(), 1);
    assert_eq!(parsed[1].entries[0].topic, "GA/3");
    assert!(parsed[1].entries[0].msgs.is_empty());
}

#[test]
fn empty_catalog_gives_one_capability_without_options() {
    let capabilities = GoveeUndocumentedApi::synthesize_platform_api_scene_list(&vec![]);
    assert_eq!(capabilities.len(), 1);
    assert_eq!(capabilities[0].kind, DeviceCapabilityKind::DynamicScene);
    assert_eq!(capabilities[0].instance, "lightScene");
    assert_eq!(capabilities[0].parameters, Some(DeviceParameters::Enum { options: vec![] }));
}

#[test]
fn scenes_with_a_light_effect_become_options() {
    let catalog = vec![
        category(
            "Natural",
            vec![
                scene(10, "Sunrise", vec![effect(100), effect(101)]),
                scene(11, "Nothing", vec![]),
                scene(12, "Sunset", vec![effect(120)]),
            ],
        ),
        category("Empty", vec![]),
        category("Festival", vec![scene(20, "Party", vec![effect(200)])]),
    ];
    let capabilities = GoveeUndocumentedApi::synthesize_platform_api_scene_list(&catalog);
    assert_eq!(capabilities.len(), 1);
    assert_eq!(capabilities[0].kind, DeviceCapabilityKind::DynamicScene);
    assert_eq!(capabilities[0].instance, "lightScene");
    assert_eq!(
        capabilities[0].parameters,
        Some(DeviceParameters::Enum {
            options: vec![
                EnumOption { name: "Sunrise".to_string(), value: SceneSelector { param_id: 100, id: 10 } },
                EnumOption { name: "Sunset".to_string(), value: SceneSelector { param_id: 120, id: 12 } },
                EnumOption { name: "Party".to_string(), value: SceneSelector { param_id: 200, id: 20 } },
            ],
        })
    );
}
