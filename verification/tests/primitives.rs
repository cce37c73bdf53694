use tile_realm::digits::{decimal_string, image_path};
use tile_realm::gamestate::{escape_status, Gamestate, Status};
use tile_realm::level::{cycle_biome, LevelBiome};
use tile_realm::text::{Text, TextStyle};
use tile_realm::ui::UI;
use tile_realm::utils::str_eq;

#[test]
fn decimal_rendering_is_exact() {
    assert_eq!(decimal_string(0), "0");
    assert_eq!(decimal_string(7), "7");
    assert_eq!(decimal_string(10), "10");
    assert_eq!(decimal_string(909), "909");
    assert_eq!(decimal_string(4294967295), "4294967295");
}

#[test]
fn image_paths_are_exact() {
    assert_eq!(image_path("img/biomes/ice/", 3, ".png"), "img/biomes/ice/3.png");
    assert_eq!(image_path("img/decals/rock_", 12, ".png"), "img/decals/rock_12.png");
}

#[test]
fn string_equality_by_scan() {
    assert!(str_eq("abc", "abc"));
    assert!(!str_eq("abc", "abd"));
    assert!(!str_eq("abc", "abcd"));
    assert!(str_eq("", ""));
    assert!(str_eq("4K Mode", "4K Mode"));
}

#[test]
fn gamestate_tracks_transitions() {
    let mut g = Gamestate::new();
    assert_eq!(g.get_status(), Status::MenuOpen);
    assert!(!g.get_changed());
    g.set_status(Status::Playing);
    assert_eq!(g.get_status(), Status::Playing);
    assert!(g.get_changed());
    g.acknowledge();
    assert!(!g.get_changed());
}

#[test]
fn biomes_cycle_through_all_six() {
    let mut b = LevelBiome::Desert;
    let mut seen = vec![b];
    for _ in 0..5 {
        b = cycle_biome(&b);
        assert!(!seen.contains(&b));
        seen.push(b);
    }
    assert_eq!(cycle_biome(&b), LevelBiome::Desert);
}

#[test]
fn escape_opens_menu_or_yields_to_dialog() {
    assert_eq!(escape_status(false), Status::MenuOpen);
    assert_eq!(escape_status(true), Status::DialogOpen);
}

#[test]
fn cursor_footprint_shifts_the_hit_test() {
    let mut u = UI::new(
        String::from("Continue"),
        String::from("img/ui/menu_button_continue.png"),
        String::from("img/ui/menu_button_continue_hover.png"),
        32,
        132,
    );
    u.render(0, 0, 200);
    // The hit point is the cursor graphic's far corner: the raw pointer may
    // sit well left of and above the box and still hover it.
    assert!(u.mouse_is_hovering(-56, -32));
    assert!(u.mouse_is_hovering(0, 0));
    assert!(!u.mouse_is_hovering(100, 0));
    assert!(!u.mouse_is_hovering(0, 10));
}

#[test]
fn hover_artwork_is_required_for_a_highlight() {
    let mut u = UI::new(String::from("Dialog Box"), String::from("img/ui/menu_dialog.png"), String::new(), 280, 1104);
    u.render(0, 0, 100);
    u.render_hover(0, 0, 100);
    assert!(!u.hovered);
}

#[test]
fn text_hover_needs_a_hoverable_rendered_block() {
    let mut t = Text::new(40, TextStyle::Choice, "Good day.", true);
    assert!(!t.mouse_is_hovering(-200, -20));
    t.render(0, 0, 200);
    assert!(t.mouse_is_hovering(-104, -32));
    assert!(!t.mouse_is_hovering(-104, 10));
    let mut plain = Text::new(40, TextStyle::MainText, "Hello.", false);
    plain.render(0, 0, 200);
    assert!(!plain.mouse_is_hovering(-104, -32));
}

#[test]
fn set_hover_switches_the_choice_colour() {
    let mut t = Text::new(40, TextStyle::Choice, "Good day.", true);
    t.set_hover(true);
    assert_eq!(t.color, TextStyle::ChoiceHover);
    t.set_hover(false);
    assert_eq!(t.color, TextStyle::Choice);
}
