use nanoleaf::json::single;
use nanoleaf::models::{
    AnimType, Animations, Authorization, Brightness, ColorType, Effect, Effects, GlobalOrientation,
    Layout, LinearDirection, On, Palette, PanelInfo, PanelLayout, PluginOption, PluginType,
    Position, RadialDirection, Range, RotationalDirection, SetRange, ShapeType, State,
};
use nanoleaf::wire::{field, optional_field, Decode, Encode};
use serde_json::Value;

fn json(text: &str) -> Value {
    serde_json::from_str(text).unwrap()
}

fn read<T: Decode>(text: &str) -> Option<T> {
    T::from_json(&json(text))
}

#[test]
fn range_is_read_from_its_three_members() {
    assert_eq!(
        read::<Range>(r#"{"min":0,"max":100,"value":42}"#),
        Some(Range { max: 100, min: 0, value: 42 })
    );
}

#[test]
fn range_round_trip_keeps_the_fields() {
    let range = Range { min: 0, max: 100, value: 42 };
    let written = range.to_json();
    assert_eq!(written.to_string(), r#"{"max":100,"min":0,"value":42}"#);
    assert_eq!(Range::from_json(&written), Some(range));
}

#[test]
fn range_round_trip_at_the_edges() {
    for range in [
        Range { min: 0, max: 0, value: 0 },
        Range { min: u32::MAX, max: u32::MAX, value: u32::MAX },
        Range { min: 7, max: 3, value: 5 },
    ] {
        assert_eq!(Range::from_json(&range.to_json()), Some(range));
    }
}

#[test]
fn range_ignores_members_that_it_does_not_know() {
    assert_eq!(
        read::<Range>(r#"{"min":1,"max":2,"value":3,"step":1}"#),
        Some(Range { max: 2, min: 1, value: 3 })
    );
}

#[test]
fn range_bounds() {
    assert!(Range { min: 0, max: 100, value: 42 }.is_in_bounds());
    assert!(Range { min: 0, max: 100, value: 0 }.is_in_bounds());
    assert!(Range { min: 0, max: 100, value: 100 }.is_in_bounds());
    assert!(!Range { min: 1, max: 100, value: 0 }.is_in_bounds());
    assert!(!Range { min: 0, max: 100, value: 101 }.is_in_bounds());
}

#[test]
fn numbers_out_of_range_are_not_read() {
    assert_eq!(read::<u32>("4294967295"), Some(u32::MAX));
    assert_eq!(read::<u32>("4294967296"), None);
    assert_eq!(read::<u32>("-1"), None);
    assert_eq!(read::<u32>("1.0"), None);
    assert_eq!(read::<u32>("\"1\""), None);
    assert_eq!(read::<u16>("65535"), Some(u16::MAX));
    assert_eq!(read::<u16>("65536"), None);
    assert_eq!(read::<u8>("255"), Some(u8::MAX));
    assert_eq!(read::<u8>("256"), None);
    assert_eq!(read::<i32>("2147483647"), Some(i32::MAX));
    assert_eq!(read::<i32>("2147483648"), None);
    assert_eq!(read::<i32>("-2147483648"), Some(i32::MIN));
    assert_eq!(read::<i32>("-2147483649"), None);
    assert_eq!(read::<i32>("18446744073709551615"), None);
    assert_eq!(read::<i32>("1e2"), None);
}

#[test]
fn scalars_round_trip() {
    assert_eq!(bool::from_json(&true.to_json()), Some(true));
    assert_eq!(bool::from_json(&false.to_json()), Some(false));
    assert_eq!(u32::from_json(&u32::MAX.to_json()), Some(u32::MAX));
    assert_eq!(i32::from_json(&i32::MIN.to_json()), Some(i32::MIN));
    assert_eq!(i32::from_json(&(-1i32).to_json()), Some(-1));
    assert_eq!(String::from_json(&"Flow".to_string().to_json()), Some("Flow".to_string()));
    assert_eq!(true.to_json(), Value::Bool(true));
    assert_eq!(7u32.to_json(), json("7"));
    assert_eq!((-7i32).to_json(), json("-7"));
    assert_eq!("a".to_string().to_json(), json("\"a\""));
}

#[test]
fn bool_and_text_are_read_strictly() {
    assert_eq!(read::<bool>("true"), Some(true));
    assert_eq!(read::<bool>("1"), None);
    assert_eq!(read::<bool>("\"true\""), None);
    assert_eq!(read::<String>("\"\""), Some(String::new()));
    assert_eq!(read::<String>("null"), None);
    assert_eq!(read::<String>("[\"a\"]"), None);
}

#[test]
fn lists_are_read_item_by_item() {
    assert_eq!(read::<Vec<u32>>("[]"), Some(vec![]));
    assert_eq!(read::<Vec<u32>>("[3,1,2]"), Some(vec![3, 1, 2]));
    assert_eq!(read::<Vec<u32>>("[3,-1,2]"), None);
    assert_eq!(read::<Vec<u32>>("{}"), None);
    assert_eq!(read::<Vec<Vec<bool>>>("[[true],[],[false,true]]"), Some(vec![vec![true], vec![], vec![false, true]]));
}

#[test]
fn field_reads_a_member_of_an_object() {
    let v = json(r#"{"a":1,"b":null}"#);
    assert_eq!(field::<u32>(&v, "a"), Some(1));
    assert_eq!(field::<u32>(&v, "b"), None);
    assert_eq!(field::<u32>(&v, "c"), None);
    assert_eq!(field::<u32>(&json("[1]"), "a"), None);
}

#[test]
fn optional_field_takes_missing_and_null_for_none() {
    let v = json(r#"{"a":1,"b":null,"c":"x"}"#);
    assert_eq!(optional_field::<u32>(&v, "a"), Some(Some(1)));
    assert_eq!(optional_field::<u32>(&v, "b"), Some(None));
    assert_eq!(optional_field::<u32>(&v, "missing"), Some(None));
    assert_eq!(optional_field::<u32>(&v, "c"), None);
    assert_eq!(optional_field::<u32>(&json("7"), "a"), Some(None));
}

#[test]
fn single_builds_an_object_with_one_member() {
    assert_eq!(single("on", json(r#"{"value":true}"#)).to_string(), r#"{"on":{"value":true}}"#);
    assert_eq!(single("", json("null")).to_string(), r#"{"":null}"#);
}

#[test]
fn on_is_read_and_written() {
    assert_eq!(read::<On>(r#"{"value":true}"#), Some(On { value: true }));
    assert_eq!(read::<On>(r#"{"value":0}"#), None);
    assert_eq!(On { value: false }.to_json().to_string(), r#"{"value":false}"#);
    assert_eq!(On::from_json(&On { value: true }.to_json()), Some(On { value: true }));
}

#[test]
fn authorization_is_read() {
    assert_eq!(
        read::<Authorization>(r#"{"auth_token":"abcd"}"#),
        Some(Authorization { auth_token: "abcd".to_string() })
    );
    assert_eq!(read::<Authorization>(r#"{"authToken":"abcd"}"#), None);
    assert_eq!(read::<Authorization>(r#"{"auth_token":7}"#), None);
}

#[test]
fn absolute_brightness_has_no_increment() {
    let written = Brightness::SetTo { value: 80 }.to_json();
    assert_eq!(written.to_string(), r#"{"value":80}"#);
    assert!(written.get("increment").is_none());
    assert!(written.get("value").is_some());
}

#[test]
fn relative_brightness_has_no_value() {
    let written = Brightness::Increment { increment: -10 }.to_json();
    assert_eq!(written.to_string(), r#"{"increment":-10}"#);
    assert!(written.get("value").is_none());
    assert!(written.get("increment").is_some());
}

#[test]
fn timed_brightness_has_value_and_duration() {
    let written = Brightness::SetWithDuration { value: 80, duration: 5 }.to_json();
    assert_eq!(written.to_string(), r#"{"duration":5,"value":80}"#);
    assert!(written.get("increment").is_none());
}

#[test]
fn brightness_variant_is_told_by_the_members() {
    assert_eq!(read::<Brightness>(r#"{"increment":-10}"#), Some(Brightness::Increment { increment: -10 }));
    assert_eq!(read::<Brightness>(r#"{"value":80}"#), Some(Brightness::SetTo { value: 80 }));
    assert_eq!(
        read::<Brightness>(r#"{"value":80,"duration":5}"#),
        Some(Brightness::SetWithDuration { value: 80, duration: 5 })
    );
    assert_eq!(
        read::<Brightness>(r#"{"increment":1,"value":80}"#),
        Some(Brightness::Increment { increment: 1 })
    );
    assert_eq!(read::<Brightness>(r#"{"increment":"x","value":80}"#), Some(Brightness::SetTo { value: 80 }));
    assert_eq!(read::<Brightness>(r#"{"value":80,"duration":"x"}"#), Some(Brightness::SetTo { value: 80 }));
    assert_eq!(read::<Brightness>(r#"{"duration":5}"#), None);
    assert_eq!(read::<Brightness>("{}"), None);
    assert_eq!(read::<Brightness>("80"), None);
}

#[test]
fn brightness_round_trip() {
    for b in [
        Brightness::Increment { increment: i32::MIN },
        Brightness::Increment { increment: 0 },
        Brightness::SetTo { value: 0 },
        Brightness::SetTo { value: u32::MAX },
        Brightness::SetWithDuration { value: 1, duration: 0 },
    ] {
        assert_eq!(Brightness::from_json(&b.to_json()), Some(b));
    }
}

#[test]
fn relative_range_is_a_bare_number() {
    let written = SetRange::Increment(-10).to_json();
    assert_eq!(written.to_string(), "-10");
    assert!(written.is_i64());
    assert!(written.get("value").is_none());
}

#[test]
fn absolute_range_is_an_object_with_value() {
    let written = SetRange::SetTo { value: 80 }.to_json();
    assert_eq!(written.to_string(), r#"{"value":80}"#);
    assert!(written.get("increment").is_none());
}

#[test]
fn set_range_is_read_and_round_trips() {
    assert_eq!(read::<SetRange>("-10"), Some(SetRange::Increment(-10)));
    assert_eq!(read::<SetRange>(r#"{"value":80}"#), Some(SetRange::SetTo { value: 80 }));
    assert_eq!(read::<SetRange>("2147483648"), None);
    assert_eq!(read::<SetRange>(r#"{"value":-1}"#), None);
    assert_eq!(read::<SetRange>("null"), None);
    for s in [SetRange::Increment(i32::MAX), SetRange::Increment(0), SetRange::SetTo { value: 0 }] {
        assert_eq!(SetRange::from_json(&s.to_json()), Some(s));
    }
}

#[test]
fn shape_type_is_a_number_from_0_to_5() {
    assert_eq!(read::<ShapeType>("0"), Some(ShapeType::Triangle));
    assert_eq!(read::<ShapeType>("1"), Some(ShapeType::Rhythm));
    assert_eq!(read::<ShapeType>("2"), Some(ShapeType::Square));
    assert_eq!(read::<ShapeType>("3"), Some(ShapeType::ControlSquarePrimary));
    assert_eq!(read::<ShapeType>("4"), Some(ShapeType::ControlSquarePassive));
    assert_eq!(read::<ShapeType>("5"), Some(ShapeType::PowerSupply));
    assert_eq!(read::<ShapeType>("6"), None);
    assert_eq!(read::<ShapeType>("256"), None);
    assert_eq!(read::<ShapeType>("-1"), None);
    assert_eq!(read::<ShapeType>("\"0\""), None);
    assert_eq!(ShapeType::from_number(5), Some(ShapeType::PowerSupply));
    assert_eq!(ShapeType::from_number(255), None);
}

#[test]
fn position_may_lack_the_shape() {
    assert_eq!(
        read::<Position>(r#"{"panelId":7,"o":-60,"x":10,"y":-20}"#),
        Some(Position { panel_id: 7, o: -60, x: 10, y: -20, shape_type: None })
    );
    assert_eq!(
        read::<Position>(r#"{"panelId":7,"o":0,"x":0,"y":0,"shapeType":null}"#),
        Some(Position { panel_id: 7, o: 0, x: 0, y: 0, shape_type: None })
    );
    assert_eq!(
        read::<Position>(r#"{"panelId":7,"o":0,"x":0,"y":0,"shapeType":2}"#),
        Some(Position { panel_id: 7, o: 0, x: 0, y: 0, shape_type: Some(ShapeType::Square) })
    );
    assert_eq!(read::<Position>(r#"{"panelId":7,"o":0,"x":0,"y":0,"shapeType":9}"#), None);
    assert_eq!(read::<Position>(r#"{"panelId":7,"o":0,"x":0}"#), None);
}

#[test]
fn named_variants_are_read_by_their_wire_names() {
    assert_eq!(read::<PluginType>("\"color\""), Some(PluginType::Color));
    assert_eq!(read::<PluginType>("\"rhythm\""), Some(PluginType::Rhythm));
    assert_eq!(read::<PluginType>("\"Color\""), None);
    assert_eq!(read::<AnimType>("\"custom\""), Some(AnimType::Custom));
    assert_eq!(read::<AnimType>("\"explode\""), Some(AnimType::Explode));
    assert_eq!(read::<AnimType>("\"fade\""), Some(AnimType::Fade));
    assert_eq!(read::<AnimType>("\"flow\""), Some(AnimType::Flow));
    assert_eq!(read::<AnimType>("\"highlight\""), Some(AnimType::Highlight));
    assert_eq!(read::<AnimType>("\"plugin\""), Some(AnimType::Plugin));
    assert_eq!(read::<AnimType>("\"random\""), Some(AnimType::Random));
    assert_eq!(read::<AnimType>("\"static\""), Some(AnimType::Static));
    assert_eq!(read::<AnimType>("\"wheel\""), Some(AnimType::Wheel));
    assert_eq!(read::<AnimType>("\"\""), None);
    assert_eq!(read::<AnimType>("3"), None);
    assert_eq!(read::<LinearDirection>("\"left\""), Some(LinearDirection::Left));
    assert_eq!(read::<LinearDirection>("\"right\""), Some(LinearDirection::Right));
    assert_eq!(read::<LinearDirection>("\"up\""), Some(LinearDirection::Up));
    assert_eq!(read::<LinearDirection>("\"down\""), Some(LinearDirection::Down));
    assert_eq!(read::<RadialDirection>("\"in\""), Some(RadialDirection::In));
    assert_eq!(read::<RadialDirection>("\"out\""), Some(RadialDirection::Out));
    assert_eq!(read::<RotationalDirection>("\"cw\""), Some(RotationalDirection::Cw));
    assert_eq!(read::<RotationalDirection>("\"ccw\""), Some(RotationalDirection::Ccw));
    assert_eq!(read::<ColorType>("\"HSB\""), Some(ColorType::HSB));
    assert_eq!(read::<ColorType>("\"hsb\""), None);
    assert_eq!(AnimType::from_name("wheel"), Some(AnimType::Wheel));
    assert_eq!(AnimType::from_name("wheels"), None);
}

#[test]
fn plugin_options_are_read_by_name_and_value() {
    assert_eq!(
        read::<PluginOption>(r#"{"name":"transTime","value":24}"#),
        Some(PluginOption::TransitionTime(24))
    );
    assert_eq!(read::<PluginOption>(r#"{"name":"loop","value":true}"#), Some(PluginOption::Loop(true)));
    assert_eq!(
        read::<PluginOption>(r#"{"name":"linDirection","value":"left"}"#),
        Some(PluginOption::LinearDirection(LinearDirection::Left))
    );
    assert_eq!(
        read::<PluginOption>(r#"{"name":"radDirection","value":"out"}"#),
        Some(PluginOption::RadialDirection(RadialDirection::Out))
    );
    assert_eq!(
        read::<PluginOption>(r#"{"name":"rotDirection","value":"ccw"}"#),
        Some(PluginOption::RotationalDirection(RotationalDirection::Ccw))
    );
    assert_eq!(
        read::<PluginOption>(r#"{"name":"delayTime","value":65535}"#),
        Some(PluginOption::DelayTime(65535))
    );
    assert_eq!(
        read::<PluginOption>(r#"{"name":"nColorsPerFrame","value":3}"#),
        Some(PluginOption::NColorsPerFrame(3))
    );
    assert_eq!(read::<PluginOption>(r#"{"name":"delayTime","value":65536}"#), None);
    assert_eq!(read::<PluginOption>(r#"{"name":"nColorsPerFrame","value":256}"#), None);
    assert_eq!(read::<PluginOption>(r#"{"name":"loop","value":1}"#), None);
    assert_eq!(read::<PluginOption>(r#"{"name":"loop"}"#), None);
    assert_eq!(read::<PluginOption>(r#"{"name":"unknown","value":1}"#), None);
    assert_eq!(read::<PluginOption>(r#"{"value":1}"#), None);
}

#[test]
fn probability_is_kept_as_the_bits_of_a_double() {
    assert_eq!(
        read::<PluginOption>(r#"{"name":"mainColorProb","value":0.5}"#),
        Some(PluginOption::MainColorProb(0.5f64.to_bits()))
    );
    assert_eq!(
        read::<PluginOption>(r#"{"name":"mainColorProb","value":1}"#),
        Some(PluginOption::MainColorProb(1.0f64.to_bits()))
    );
    assert_eq!(
        read::<PluginOption>(r#"{"name":"mainColorProb","value":-3}"#),
        Some(PluginOption::MainColorProb((-3.0f64).to_bits()))
    );
    assert_eq!(read::<PluginOption>(r#"{"name":"mainColorProb","value":"0.5"}"#), None);
    assert_eq!(read::<PluginOption>(r#"{"name":"mainColorProb"}"#), None);
}

#[test]
fn palette_and_orientation_are_read() {
    assert_eq!(
        read::<Palette>(r#"{"hue":20,"saturation":100,"brightness":50}"#),
        Some(Palette { hue: 20, saturation: 100, brightness: 50 })
    );
    assert_eq!(read::<Palette>(r#"{"hue":20,"saturation":100}"#), None);
    assert_eq!(
        read::<GlobalOrientation>(r#"{"value":90,"max":360,"min":0}"#),
        Some(GlobalOrientation { max: 360, min: 0, value: 90 })
    );
}

fn range_text(value: u32) -> String {
    format!(r#"{{"value":{},"max":100,"min":0}}"#, value)
}

fn panel_info_text() -> String {
    format!(
        r#"{{
            "name":"Light Panels 12:34:56",
            "serialNo":"S1234",
            "manufacturer":"Nanoleaf",
            "firmwareVersion":"3.0.5",
            "model":"NL22",
            "state":{{
                "on":{{"value":true}},
                "brightness":{},
                "hue":{},
                "sat":{},
                "ct":{},
                "colorMode":"effect"
            }},
            "effects":{{"select":"Flow","effectsList":["Flow","Static"]}},
            "panelLayout":{{
                "layout":{{
                    "numPanels":2,
                    "sideLength":150,
                    "positionData":[
                        {{"panelId":1,"x":0,"y":0,"o":60}},
                        {{"panelId":2,"x":75,"y":-43,"o":-120,"shapeType":0}}
                    ]
                }},
                "globalOrientation":{{"value":0,"max":360,"min":0}}
            }}
        }}"#,
        range_text(50),
        range_text(10),
        range_text(20),
        range_text(30)
    )
}

fn range(value: u32) -> Range {
    Range { max: 100, min: 0, value }
}

#[test]
fn panel_info_is_read_with_all_that_it_holds() {
    let expected = PanelInfo {
        name: "Light Panels 12:34:56".to_string(),
        manufacturer: "Nanoleaf".to_string(),
        model: "NL22".to_string(),
        firmware_version: "3.0.5".to_string(),
        serial_number: "S1234".to_string(),
        state: State {
            color_mode: "effect".to_string(),
            brightness: range(50),
            ct: range(30),
            hue: range(10),
            sat: range(20),
            on: On { value: true },
        },
        effects: Effects {
            effects_list: vec!["Flow".to_string(), "Static".to_string()],
            select: "Flow".to_string(),
        },
        panel_layout: PanelLayout {
            global_orientation: GlobalOrientation { max: 360, min: 0, value: 0 },
            layout: Layout {
                num_panels: 2,
                side_length: 150,
                position_data: vec![
                    Position { panel_id: 1, o: 60, x: 0, y: 0, shape_type: None },
                    Position {
                        panel_id: 2,
                        o: -120,
                        x: 75,
                        y: -43,
                        shape_type: Some(ShapeType::Triangle),
                    },
                ],
            },
        },
    };
    assert_eq!(read::<PanelInfo>(&panel_info_text()), Some(expected));
}

#[test]
fn panel_info_with_a_fault_deep_inside_is_not_read() {
    let text = panel_info_text().replace(r#""o":-120"#, r#""o":"-120""#);
    assert_eq!(read::<PanelInfo>(&text), None);
    let text = panel_info_text().replace(r#""serialNo""#, r#""serialNumber""#);
    assert_eq!(read::<PanelInfo>(&text), None);
    let text = panel_info_text().replace(r#"["Flow","Static"]"#, r#"["Flow",null]"#);
    assert_eq!(read::<PanelInfo>(&text), None);
}

#[test]
fn state_effects_and_layout_are_read_alone() {
    assert_eq!(
        read::<Effects>(r#"{"effectsList":[],"select":""}"#),
        Some(Effects { effects_list: vec![], select: String::new() })
    );
    assert_eq!(read::<Effects>(r#"{"effects_list":[],"select":""}"#), None);
    assert_eq!(
        read::<Layout>(r#"{"numPanels":0,"sideLength":150,"positionData":[]}"#),
        Some(Layout { num_panels: 0, side_length: 150, position_data: vec![] })
    );
    assert_eq!(read::<Layout>(r#"{"numPanels":0,"sideLength":150,"positionData":{}}"#), None);
    assert_eq!(read::<State>("{}"), None);
}

#[test]
fn effect_without_plugin_members() {
    let text = r#"{
        "animName":"Static white",
        "animType":"static",
        "colorType":"HSB",
        "palette":[{"hue":0,"saturation":0,"brightness":100}],
        "version":"1.0"
    }"#;
    assert_eq!(
        read::<Effect>(text),
        Some(Effect {
            animation_type: AnimType::Static,
            color_type: ColorType::HSB,
            name: "Static white".to_string(),
            palette: vec![Palette { hue: 0, saturation: 0, brightness: 100 }],
            plugin_type: None,
            plugin_options: None,
            plugin_uuid: None,
            version: "1.0".to_string(),
        })
    );
}

#[test]
fn effect_with_plugin_members() {
    let text = r#"{
        "animName":"Flow",
        "animType":"plugin",
        "colorType":"HSB",
        "palette":[],
        "pluginType":"color",
        "pluginUuid":"027842e4-e1d6-4a4c-a731-be74a1ebd4cf",
        "pluginOptions":[
            {"name":"linDirection","value":"right"},
            {"name":"loop","value":true},
            {"name":"transTime","value":24}
        ],
        "version":"2.0"
    }"#;
    assert_eq!(
        read::<Effect>(text),
        Some(Effect {
            animation_type: AnimType::Plugin,
            color_type: ColorType::HSB,
            name: "Flow".to_string(),
            palette: vec![],
            plugin_type: Some(PluginType::Color),
            plugin_options: Some(vec![
                PluginOption::LinearDirection(LinearDirection::Right),
                PluginOption::Loop(true),
                PluginOption::TransitionTime(24),
            ]),
            plugin_uuid: Some("027842e4-e1d6-4a4c-a731-be74a1ebd4cf".to_string()),
            version: "2.0".to_string(),
        })
    );
}

#[test]
fn effect_with_a_bad_plugin_member_is_not_read() {
    let text = r#"{
        "animName":"Flow",
        "animType":"plugin",
        "colorType":"HSB",
        "palette":[],
        "pluginType":"colour",
        "version":"2.0"
    }"#;
    assert_eq!(read::<Effect>(text), None);
}

#[test]
fn animations_hold_a_list_of_effects() {
    assert_eq!(read::<Animations>(r#"{"animations":[]}"#), Some(Animations { animations: vec![] }));
    let text = r#"{"animations":[
        {"animName":"A","animType":"fade","colorType":"HSB","palette":[],"version":"1"},
        {"animName":"B","animType":"wheel","colorType":"HSB","palette":[],"version":"1"}
    ]}"#;
    let read = read::<Animations>(text).unwrap();
    assert_eq!(read.animations.len(), 2);
    assert_eq!(read.animations[0].name, "A");
    assert_eq!(read.animations[0].animation_type, AnimType::Fade);
    assert_eq!(read.animations[1].name, "B");
    assert_eq!(read.animations[1].animation_type, AnimType::Wheel);
    assert_eq!(self::read::<Animations>(r#"{"animations":[{}]}"#), None);
    assert_eq!(self::read::<Animations>("[]"), None);
}

#[test]
fn issued_token_is_not_empty() {
    assert!(Authorization { auth_token: "abcd".to_string() }.is_issued());
    assert!(!Authorization { auth_token: String::new() }.is_issued());
}

fn state(brightness: Range, ct: Range, hue: Range, sat: Range) -> State {
    State { color_mode: "hs".to_string(), brightness, ct, hue, sat, on: On { value: true } }
}

#[test]
fn state_keeps_its_bounds_when_every_setting_does() {
    let good = Range { min: 0, max: 100, value: 50 };
    let bad = Range { min: 0, max: 100, value: 101 };
    assert!(state(good, good, good, good).is_in_bounds());
    assert!(!state(bad, good, good, good).is_in_bounds());
    assert!(!state(good, bad, good, good).is_in_bounds());
    assert!(!state(good, good, bad, good).is_in_bounds());
    assert!(!state(good, good, good, bad).is_in_bounds());
}

#[test]
fn selection_is_listed_or_empty() {
    let list = vec!["Flow".to_string(), "Static".to_string()];
    let effects = |select: &str| Effects { effects_list: list.clone(), select: select.to_string() };
    assert!(effects("Flow").is_selection_listed());
    assert!(effects("Static").is_selection_listed());
    assert!(effects("").is_selection_listed());
    assert!(!effects("flow").is_selection_listed());
    assert!(!effects("Flo").is_selection_listed());
    assert!(Effects { effects_list: vec![], select: String::new() }.is_selection_listed());
    assert!(!Effects { effects_list: vec![], select: "Flow".to_string() }.is_selection_listed());
}

fn effect(
    plugin_type: Option<PluginType>,
    plugin_options: Option<Vec<PluginOption>>,
    plugin_uuid: Option<String>,
) -> Effect {
    Effect {
        animation_type: AnimType::Plugin,
        color_type: ColorType::HSB,
        name: "Flow".to_string(),
        palette: vec![],
        plugin_type,
        plugin_options,
        plugin_uuid,
        version: "2.0".to_string(),
    }
}

#[test]
fn plugin_members_need_the_plugin_type() {
    assert!(effect(None, None, None).are_plugin_members_gated());
    assert!(effect(Some(PluginType::Color), None, None).are_plugin_members_gated());
    assert!(effect(Some(PluginType::Rhythm), Some(vec![]), Some("u".to_string()))
        .are_plugin_members_gated());
    assert!(!effect(None, Some(vec![]), None).are_plugin_members_gated());
    assert!(!effect(None, None, Some("u".to_string())).are_plugin_members_gated());
}
