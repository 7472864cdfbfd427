use byofish::asset::Asset;
use byofish::color_glyph::{color_to_char, Color, ColorGlyph};

#[test]
fn export_single_cell() {
    // a 1x1 single-frame grid with {'Z', foreground red, no background}
    // exports symbols [["Z"]], colors [["r"]], highlights [[" "]] in both
    // the forward and the flipped variant.
    let cell = ColorGlyph { glyph: 'Z', foreground_color: Some(Color::Red), background_color: None };
    let asset = Asset::new(vec![vec![vec![cell]]]);
    let export = asset.export();
    for channels in [&export.forward_animation, &export.flipped_animation] {
        assert_eq!(channels.symbols, vec![vec![String::from("Z")]]);
        assert_eq!(channels.colors, vec![vec![String::from("r")]]);
        assert_eq!(channels.highlights, vec![vec![String::from(" ")]]);
    }
}

#[test]
fn export_rows_and_frames() {
    let a = ColorGlyph { glyph: 'a', foreground_color: Some(Color::DarkBlue), background_color: Some(Color::White) };
    let b = ColorGlyph { glyph: 'b', foreground_color: None, background_color: Some(Color::Grey) };
    let c = ColorGlyph { glyph: 'c', foreground_color: Some(Color::Default), background_color: None };
    let d = ColorGlyph { glyph: 'd', foreground_color: Some(Color::Cyan), background_color: None };
    let frame1 = vec![vec![a, b], vec![c, d]];
    let frame2 = vec![vec![d, c], vec![b, a]];
    let asset = Asset::new(vec![frame1, frame2]);
    let export = asset.export();
    let fwd = &export.forward_animation;
    assert_eq!(fwd.symbols, vec![
        vec![String::from("ab"), String::from("cd")],
        vec![String::from("dc"), String::from("ba")],
    ]);
    // an unmapped color (Default) and an absent color both encode as a space
    assert_eq!(fwd.colors, vec![
        vec![String::from("B "), String::from(" c")],
        vec![String::from("c "), String::from(" B")],
    ]);
    assert_eq!(fwd.highlights, vec![
        vec![String::from("wW"), String::from("  ")],
        vec![String::from("  "), String::from("Ww")],
    ]);
    assert_eq!(export.flipped_animation.symbols, fwd.symbols);
    assert_eq!(export.flipped_animation.colors, fwd.colors);
    assert_eq!(export.flipped_animation.highlights, fwd.highlights);
}

#[test]
fn export_reflects_edits() {
    let mut asset = Asset::new(vec![vec![vec![
        ColorGlyph { glyph: ' ', foreground_color: None, background_color: None },
    ]]]);
    asset.set_char('x');
    asset.set_color(&Color::Magenta);
    let export = asset.export();
    assert_eq!(export.forward_animation.symbols, vec![vec![String::from("x")]]);
    assert_eq!(export.forward_animation.colors, vec![vec![String::from("m")]]);
}

#[test]
fn color_codes_are_the_fixed_palette() {
    // the eight light colors map to lowercase letters
    assert_eq!(color_to_char(&Some(Color::DarkGrey)), 'a');
    assert_eq!(color_to_char(&Some(Color::Red)), 'r');
    assert_eq!(color_to_char(&Some(Color::Green)), 'g');
    assert_eq!(color_to_char(&Some(Color::Yellow)), 'y');
    assert_eq!(color_to_char(&Some(Color::Blue)), 'b');
    assert_eq!(color_to_char(&Some(Color::Magenta)), 'm');
    assert_eq!(color_to_char(&Some(Color::Cyan)), 'c');
    assert_eq!(color_to_char(&Some(Color::White)), 'w');
    // the eight dark colors map to uppercase letters
    assert_eq!(color_to_char(&Some(Color::Black)), 'A');
    assert_eq!(color_to_char(&Some(Color::DarkRed)), 'R');
    assert_eq!(color_to_char(&Some(Color::DarkGreen)), 'G');
    assert_eq!(color_to_char(&Some(Color::DarkYellow)), 'Y');
    assert_eq!(color_to_char(&Some(Color::DarkBlue)), 'B');
    assert_eq!(color_to_char(&Some(Color::DarkMagenta)), 'M');
    assert_eq!(color_to_char(&Some(Color::DarkCyan)), 'C');
    assert_eq!(color_to_char(&Some(Color::Grey)), 'W');
    // absent and unmapped colors encode as a space
    assert_eq!(color_to_char(&None), ' ');
    assert_eq!(color_to_char(&Some(Color::Default)), ' ');
}
