use tile_realm::menu::{Menu, MenuMode, MenuSignal};
use tile_realm::options::{OptionKey, Options};

fn fresh_menu() -> Menu {
    Menu::new(String::from("img/ui/menu_main.png"))
}

#[test]
fn menu_starts_hidden_on_the_main_page() {
    let m = fresh_menu();
    assert!(!m.visible());
    assert_eq!(m.mode, MenuMode::Main);
    assert!(m.menu_elements.is_empty());
}

#[test]
fn render_builds_the_main_page() {
    let mut m = fresh_menu();
    m.render(&Options::default(), 0, 0);
    assert!(m.visible());
    assert_eq!(m.img, "img/ui/menu_main.png");
    let names: Vec<&str> = m.menu_elements.iter().map(|e| e.get_name()).collect();
    assert_eq!(names, vec!["Continue", "Save", "Load", "Options", "Quit"]);
}

#[test]
fn checkbox_art_follows_the_settings() {
    let mut m = fresh_menu();
    let opts = Options { four_k_mode: true, borderless: false, vsync: true, fullscreen: false };
    m.set_mode(MenuMode::Options);
    m.render(&opts, 0, 0);
    assert_eq!(m.img, "img/ui/menu_options.png");
    assert_eq!(m.menu_elements[1].img, "img/ui/menu_checkbox_true.png");
    assert_eq!(m.menu_elements[2].img, "img/ui/menu_checkbox_false.png");
    assert_eq!(m.menu_elements[3].img, "img/ui/menu_checkbox_true.png");
    assert_eq!(m.menu_elements[4].img, "img/ui/menu_checkbox_false.png");
}

#[test]
fn clicking_quit_opens_the_quit_page_without_terminating() {
    let mut m = fresh_menu();
    let opts = Options::default();
    m.render(&opts, 0, 0);
    let signal = m.click_events(&opts, 0, 0, 0, -120);
    assert_eq!(signal, MenuSignal::Nothing);
    assert_eq!(m.mode, MenuMode::Quit);
    assert!(m.visible());
}

#[test]
fn clicking_yes_quit_signals_termination() {
    let mut m = fresh_menu();
    let opts = Options::default();
    m.set_mode(MenuMode::Quit);
    m.render(&opts, 0, 0);
    let signal = m.click_events(&opts, 0, 0, 0, -40);
    assert_eq!(signal, MenuSignal::Terminate);
    // The menu itself keeps running; ending the process is the caller's
    // decision.
    assert!(m.visible());
    assert_eq!(m.mode, MenuMode::Quit);
}

#[test]
fn clicking_no_stay_returns_to_the_main_page() {
    let mut m = fresh_menu();
    let opts = Options::default();
    m.set_mode(MenuMode::Quit);
    m.render(&opts, 0, 0);
    let signal = m.click_events(&opts, 0, 0, 0, -90);
    assert_eq!(signal, MenuSignal::Nothing);
    assert_eq!(m.mode, MenuMode::Main);
    let names: Vec<&str> = m.menu_elements.iter().map(|e| e.get_name()).collect();
    assert_eq!(names, vec!["Continue", "Save", "Load", "Options", "Quit"]);
}

#[test]
fn clicking_a_checkbox_signals_the_toggle_and_keeps_the_mode() {
    let mut m = fresh_menu();
    let opts = Options::default();
    m.set_mode(MenuMode::Options);
    m.render(&opts, 0, 0);
    let signal = m.click_events(&opts, 0, 0, 90, 20);
    assert_eq!(signal, MenuSignal::Toggle(OptionKey::FourKMode));
    assert_eq!(m.mode, MenuMode::Options);
    assert!(m.visible());
}

#[test]
fn clicking_options_opens_the_options_page() {
    let mut m = fresh_menu();
    let opts = Options::default();
    m.render(&opts, 0, 0);
    let signal = m.click_events(&opts, 0, 0, 0, -70);
    assert_eq!(signal, MenuSignal::Nothing);
    assert_eq!(m.mode, MenuMode::Options);
    let names: Vec<&str> = m.menu_elements.iter().map(|e| e.get_name()).collect();
    assert_eq!(names, vec!["Back", "4K Mode", "Borderless", "V-sync", "Fullscreen"]);
}

#[test]
fn clicking_continue_hides_the_menu() {
    let mut m = fresh_menu();
    let opts = Options::default();
    m.render(&opts, 0, 0);
    let signal = m.click_events(&opts, 0, 0, 0, 70);
    assert_eq!(signal, MenuSignal::Nothing);
    assert!(!m.visible());
    assert!(m.menu_elements.is_empty());
}

#[test]
fn clicking_nothing_changes_nothing() {
    let mut m = fresh_menu();
    let opts = Options::default();
    m.render(&opts, 0, 0);
    let signal = m.click_events(&opts, 0, 0, 5000, 5000);
    assert_eq!(signal, MenuSignal::Nothing);
    assert_eq!(m.mode, MenuMode::Main);
    assert_eq!(m.menu_elements.len(), 5);
}

#[test]
fn hover_highlights_exactly_the_element_under_the_cursor() {
    let mut m = fresh_menu();
    let opts = Options::default();
    m.render(&opts, 0, 0);
    m.hover_events(0, 70);
    assert!(m.menu_elements[0].hovered);
    assert!(m.menu_elements.iter().skip(1).all(|e| !e.hovered));
    m.hover_events(5000, 5000);
    assert!(m.menu_elements.iter().all(|e| !e.hovered));
}

#[test]
fn hidden_menu_ignores_input() {
    let mut m = fresh_menu();
    let opts = Options::default();
    let signal = m.click_events(&opts, 0, 0, 0, -120);
    assert_eq!(signal, MenuSignal::Nothing);
    assert_eq!(m.mode, MenuMode::Main);
    m.hover_events(0, 70);
    assert!(m.menu_elements.is_empty());
}
