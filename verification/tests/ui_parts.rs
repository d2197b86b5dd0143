use tuigreet::config::schema::WidgetPosition;
use tuigreet::types::{Mode, SecretDisplay};
use tuigreet::ui::prompt::{masked_answer, prompt_cursor};
use tuigreet::ui::background::options;
use tuigreet::ui::bg_animation::{kinds, parse_color, AnimationSpec, Color, Kind};
use tuigreet::ui::layout::{button_active, layout_plan, status_widths, Button, Row};

#[test]
fn parses_hex_colors() {
    assert_eq!(parse_color("#9F2707"), Some(Color::Rgb(0x9F, 0x27, 0x07)));
    assert_eq!(parse_color("0xFFFFFF"), Some(Color::Rgb(255, 255, 255)));
    assert_eq!(parse_color("0X000000"), Some(Color::Rgb(0, 0, 0)));
}

#[test]
fn falls_back_to_named_colors() {
    assert!(parse_color("red").is_some());
}

#[test]
fn rejects_garbage() {
    assert_eq!(parse_color("not-a-color"), None);
    assert_eq!(parse_color("#ZZZZZZ"), None);
}

#[test]
fn kind_from_name() {
    assert_eq!(Kind::from_name("doom"), Some(Kind::Doom));
    assert_eq!(Kind::from_name("DOOM"), Some(Kind::Doom));
    assert_eq!(Kind::from_name("fire"), Some(Kind::Doom));
    assert_eq!(Kind::from_name("none"), None);
    assert_eq!(Kind::from_name(""), None);
    assert_eq!(Kind::from_name("matrix"), None);
}

#[test]
fn colors_trim_and_use_ratatui_names() {
    assert_eq!(parse_color("  #0a0B0c\t"), Some(Color::Rgb(10, 11, 12)));
    assert_eq!(parse_color("light-blue"), Some(Color::LightBlue));
    assert_eq!(parse_color("42"), Some(Color::Indexed(42)));
    assert_eq!(parse_color("#12345"), None);
    assert_eq!(parse_color("0x+F+F+F"), Some(Color::Rgb(15, 15, 15)));
    assert_eq!(parse_color("#é1234"), None);
}

#[test]
fn default_spec_is_the_default_fire() {
    match Kind::Doom.default_spec() {
        AnimationSpec::Doom(o) => {
            assert_eq!(o.height, 6);
            assert_eq!(o.spread, 2);
            assert_eq!(o.bottom, Color::Rgb(0x9F, 0x27, 0x07));
        },
    }
}

#[test]
fn background_menu_lists_none_then_kinds() {
    let menu = options("Off");
    assert_eq!(menu.len(), 2);
    assert_eq!(menu[0].kind, None);
    assert_eq!(menu[0].label, "Off");
    assert_eq!(menu[1].kind, Some(Kind::Doom));
    assert_eq!(menu[1].label, "DOOM Fire");
    assert_eq!(menu[0].format(), "Off");
    assert_eq!(menu[1].format(), "DOOM Fire");
    let catalog = kinds();
    assert_eq!(catalog.len(), 1);
    assert_eq!(catalog[0].name, "doom");
}

#[test]
fn layout_places_time_and_status() {
    let plan = layout_plan(true, WidgetPosition::Default, WidgetPosition::Default, 2);
    assert_eq!(plan.rows, vec![Row::Length(2), Row::Length(1), Row::Min(1), Row::Length(1), Row::Length(2)]);
    assert_eq!(plan.time_slot, Some(1));
    assert_eq!(plan.main_slot, 2);
    assert_eq!(plan.status_slot, Some(3));

    let plan = layout_plan(true, WidgetPosition::Bottom, WidgetPosition::Top, 0);
    assert_eq!(plan.rows, vec![Row::Length(0), Row::Length(1), Row::Min(1), Row::Length(1), Row::Length(0)]);
    assert_eq!(plan.status_slot, Some(1));
    assert_eq!(plan.main_slot, 2);
    assert_eq!(plan.time_slot, Some(3));

    let plan = layout_plan(false, WidgetPosition::Top, WidgetPosition::Hidden, 1);
    assert_eq!(plan.rows, vec![Row::Length(1), Row::Min(1), Row::Length(1)]);
    assert_eq!(plan.time_slot, None);
    assert_eq!(plan.status_slot, None);
    assert_eq!(plan.main_slot, 1);
}

#[test]
fn status_bar_buttons_and_widths() {
    assert!(button_active(Mode::Power, Button::Power));
    assert!(!button_active(Mode::Power, Button::Command));
    assert!(!button_active(Mode::Username, Button::Other));
    assert_eq!(status_widths(80, 2, 9), (66, 12));
}

#[test]
fn answer_shown_as_typed_hidden_or_masked() {
    let none: Vec<usize> = Vec::new();
    assert_eq!(masked_answer("secret", false, &SecretDisplay::Hidden, &none), Some("secret".to_string()));
    assert_eq!(masked_answer("secret", true, &SecretDisplay::Hidden, &none), None);
    assert_eq!(masked_answer("abc", true, &SecretDisplay::Character("*".to_string()), &none), Some("***".to_string()));
    assert_eq!(masked_answer("", true, &SecretDisplay::Character("*".to_string()), &none), Some(String::new()));
    let drawn = vec![2, 0, 1];
    assert_eq!(masked_answer("xyz", true, &SecretDisplay::Character("ab#".to_string()), &drawn), Some("#ab".to_string()));
}

#[test]
fn cursor_hides_secret_length() {
    assert_eq!(prompt_cursor(10, 5, 9, 4, 1, true, &SecretDisplay::Hidden), (20, 8));
    assert_eq!(prompt_cursor(10, 5, 9, 4, 1, true, &SecretDisplay::Character("*".to_string())), (24, 8));
    assert_eq!(prompt_cursor(10, 5, 9, 4, 2, false, &SecretDisplay::Hidden), (24, 9));
}
