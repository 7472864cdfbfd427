use byofish::decorations::print_frame_indicator;
use byofish::input::{Direction, Key, Modifier, Press};
use byofish::json_format::format_json;
use byofish::menu::{AssetType, FishSettings, SaveMenu};
use byofish::text::dec_string;

fn press(key: Key) -> Press {
    Press::new(key, None)
}

#[test]
fn menu_starts_on_the_given_type() {
    let menu = SaveMenu::new(AssetType::Fish(FishSettings {}));
    assert_eq!(menu.print(), vec![String::from("Asset Type: < Fish > ")]);
}

#[test]
fn arrows_cycle_the_asset_type() {
    let mut menu = SaveMenu::new(AssetType::Fish(FishSettings {}));
    assert!(menu.handle_blocking_input(&press(Key::Direction(Direction::Right))));
    assert_eq!(
        menu.print(),
        vec![String::from("Asset Type: < Duck > "), String::from("\rBuoyancy: [0]")]
    );
    assert!(menu.handle_blocking_input(&press(Key::Direction(Direction::Right))));
    assert_eq!(menu.print(), vec![String::from("Asset Type: < Crab > ")]);
    assert!(menu.handle_blocking_input(&press(Key::Direction(Direction::Right))));
    assert_eq!(menu.print(), vec![String::from("Asset Type: < Fish > ")]);
    assert!(menu.handle_blocking_input(&press(Key::Direction(Direction::Left))));
    assert_eq!(menu.print(), vec![String::from("Asset Type: < Crab > ")]);
}

#[test]
fn digits_set_duck_buoyancy() {
    let mut menu = SaveMenu::new(AssetType::Fish(FishSettings {}));
    menu.handle_blocking_input(&press(Key::Direction(Direction::Right)));
    assert!(menu.handle_blocking_input(&press(Key::Glyph('7'))));
    assert_eq!(
        menu.print(),
        vec![String::from("Asset Type: < Duck > "), String::from("\rBuoyancy: [7]")]
    );
    // a non-digit leaves the setting alone
    menu.handle_blocking_input(&press(Key::Glyph('q')));
    assert_eq!(
        menu.print(),
        vec![String::from("Asset Type: < Duck > "), String::from("\rBuoyancy: [7]")]
    );
    // digits do nothing for the other asset types
    let mut crab = SaveMenu::new(AssetType::Fish(FishSettings {}));
    crab.handle_blocking_input(&press(Key::Direction(Direction::Left)));
    crab.handle_blocking_input(&press(Key::Glyph('3')));
    assert_eq!(crab.print(), vec![String::from("Asset Type: < Crab > ")]);
}

#[test]
fn escape_closes_the_menu_without_changes() {
    let mut menu = SaveMenu::new(AssetType::Fish(FishSettings {}));
    assert!(!menu.handle_blocking_input(&press(Key::Esc)));
    assert_eq!(menu.print(), vec![String::from("Asset Type: < Fish > ")]);
    // other keys keep it open
    assert!(menu.handle_blocking_input(&Press::new(Key::Glyph('z'), Some(Modifier::Alt))));
}

#[test]
fn cycle_asset_type_wraps_both_ways() {
    let mut menu = SaveMenu::new(AssetType::Fish(FishSettings {}));
    menu.cycle_asset_type(3);
    assert_eq!(menu.print(), vec![String::from("Asset Type: < Fish > ")]);
    menu.cycle_asset_type(-2);
    assert_eq!(
        menu.print(),
        vec![String::from("Asset Type: < Duck > "), String::from("\rBuoyancy: [0]")]
    );
}

#[test]
fn decimal_strings() {
    assert_eq!(dec_string(0), "0");
    assert_eq!(dec_string(7), "7");
    assert_eq!(dec_string(10), "10");
    assert_eq!(dec_string(90210), "90210");
}

#[test]
fn frame_indicator_stars_the_current_frame() {
    assert_eq!(print_frame_indicator(1, 3), "0[ ]1[*]2[ ]");
    assert_eq!(print_frame_indicator(0, 1), "0[*]");
    assert_eq!(print_frame_indicator(0, 0), "");
    assert_eq!(print_frame_indicator(10, 12), "0[ ]1[ ]2[ ]3[ ]4[ ]5[ ]6[ ]7[ ]8[ ]9[ ]10[*]11[ ]");
}

#[test]
fn format_json_indents_brackets() {
    assert_eq!(format_json("{\"a\":1}"), "{\n \"a\":1}\n");
    assert_eq!(
        format_json("{\"a\":\"b\",\"c\":2}"),
        "{\n \"a\":\"b\",\n \"c\":2}\n"
    );
    // brackets inside quoted text are left alone
    assert_eq!(format_json("\"{[\""), "\"{[\"");
    assert_eq!(format_json("[[]]"), "[\n [\n  ]\n ]\n");
}

#[test]
fn format_json_of_serialized_value() {
    let mut map = serde_json::Map::new();
    map.insert(String::from("k"), serde_json::Value::from(5));
    let text = serde_json::to_string(&serde_json::Value::Object(map)).unwrap();
    assert_eq!(text, "{\"k\":5}");
    assert_eq!(format_json(&text), "{\n \"k\":5}\n");
}
