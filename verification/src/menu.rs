use crate::constants::{Z_VALUE_MENU, Z_VALUE_MENU_ELEMENTS};
use crate::options::{OptionKey, Options};
use crate::ui::{ui_hit, UI};
use crate::utils::str_eq;
use vstd::prelude::*;

verus! {

/// The three faces of the modal menu: the main page, the options page with
/// its toggles, and the quit confirmation.
#[derive(Clone, Copy, PartialEq, Eq, Structural, Debug)]
pub enum MenuMode {
    Main,
    Options,
    Quit,
}

/// What a menu click asks of the caller: nothing, ending the process (the
/// menu itself never terminates anything), or toggling one persisted
/// setting and re-rendering so the checkbox art follows it.
#[derive(Clone, Copy, PartialEq, Eq, Structural, Debug)]
pub enum MenuSignal {
    Nothing,
    Terminate,
    Toggle(OptionKey),
}

/// The catalog entry of one menu element: what it is named, how it looks,
/// and where its box sits, all as mathematical values.
pub ghost struct ElemSpec {
    pub name: Seq<char>,
    pub img: Seq<char>,
    pub img_hover: Seq<char>,
    pub height: int,
    pub width: int,
    pub x: int,
    pub y: int,
    pub xoff: int,
}

/// The background image of each menu page.
pub open spec fn menu_img(mode: MenuMode) -> Seq<char> {
    match mode {
        MenuMode::Main => "img/ui/menu_main.png"@,
        MenuMode::Options => "img/ui/menu_options.png"@,
        MenuMode::Quit => "img/ui/menu_quit.png"@,
    }
}

/// The checkbox artwork reflecting a setting's value.
pub open spec fn checkbox_img(on: bool) -> Seq<char> {
    if on {
        "img/ui/menu_checkbox_true.png"@
    } else {
        "img/ui/menu_checkbox_false.png"@
    }
}

/// The hover artwork of a checkbox reflecting a setting's value.
pub open spec fn checkbox_hover_img(on: bool) -> Seq<char> {
    if on {
        "img/ui/menu_checkbox_true_hover.png"@
    } else {
        "img/ui/menu_checkbox_false_hover.png"@
    }
}

/// The elements each menu page lays out around the camera centre
/// `(cx, cy)`: the main page stacks five buttons, the options page a back
/// button and four checkboxes in a right-hand column (whose artwork shows
/// the current settings), and the quit page its two answers.
pub open spec fn menu_layout(mode: MenuMode, opts: Options, cx: int, cy: int) -> Seq<ElemSpec> {
    match mode {
        MenuMode::Main => seq![
            ElemSpec {
                name: "Continue"@,
                img: "img/ui/menu_button_continue.png"@,
                img_hover: "img/ui/menu_button_continue_hover.png"@,
                height: 32,
                width: 132,
                x: cx,
                y: cy + 88,
                xoff: 0,
            },
            ElemSpec {
                name: "Save"@,
                img: "img/ui/menu_button_save.png"@,
                img_hover: "img/ui/menu_button_save_hover.png"@,
                height: 32,
                width: 132,
                x: cx,
                y: cy + 40,
                xoff: 0,
            },
            ElemSpec {
                name: "Load"@,
                img: "img/ui/menu_button_load.png"@,
                img_hover: "img/ui/menu_button_load_hover.png"@,
                height: 32,
                width: 132,
                x: cx,
                y: cy - 8,
                xoff: 0,
            },
            ElemSpec {
                name: "Options"@,
                img: "img/ui/menu_button_options.png"@,
                img_hover: "img/ui/menu_button_options_hover.png"@,
                height: 32,
                width: 132,
                x: cx,
                y: cy - 56,
                xoff: 0,
            },
            ElemSpec {
                name: "Quit"@,
                img: "img/ui/menu_button_quit.png"@,
                img_hover: "img/ui/menu_button_quit_hover.png"@,
                height: 32,
                width: 132,
                x: cx,
                y: cy - 104,
                xoff: 0,
            },
        ],
        MenuMode::Options => seq![
            ElemSpec {
                name: "Back"@,
                img: "img/ui/menu_button_back.png"@,
                img_hover: "img/ui/menu_button_back_hover.png"@,
                height: 32,
                width: 132,
                x: cx,
                y: cy + 88,
                xoff: 0,
            },
            ElemSpec {
                name: "4K Mode"@,
                img: checkbox_img(opts.four_k_mode),
                img_hover: checkbox_hover_img(opts.four_k_mode),
                height: 32,
                width: 34,
                x: cx + 135,
                y: cy + 35,
                xoff: -48,
            },
            ElemSpec {
                name: "Borderless"@,
                img: checkbox_img(opts.borderless),
                img_hover: checkbox_hover_img(opts.borderless),
                height: 32,
                width: 34,
                x: cx + 135,
                y: cy - 5,
                xoff: -48,
            },
            ElemSpec {
                name: "V-sync"@,
                img: checkbox_img(opts.vsync),
                img_hover: checkbox_hover_img(opts.vsync),
                height: 32,
                width: 34,
                x: cx + 135,
                y: cy - 45,
                xoff: -48,
            },
            ElemSpec {
                name: "Fullscreen"@,
                img: checkbox_img(opts.fullscreen),
                img_hover: checkbox_hover_img(opts.fullscreen),
                height: 32,
                width: 34,
                x: cx + 135,
                y: cy - 85,
                xoff: -48,
            },
        ],
        MenuMode::Quit => seq![
            ElemSpec {
                name: "Yes, quit"@,
                img: "img/ui/menu_button_yes_quit.png"@,
                img_hover: "img/ui/menu_button_yes_quit_hover.png"@,
                height: 32,
                width: 132,
                x: cx,
                y: cy - 24,
                xoff: 0,
            },
            ElemSpec {
                name: "No, stay"@,
                img: "img/ui/menu_button_no_stay.png"@,
                img_hover: "img/ui/menu_button_no_stay_hover.png"@,
                height: 32,
                width: 132,
                x: cx,
                y: cy - 72,
                xoff: 0,
            },
        ],
    }
}

/// Whether a concrete element realizes a catalog entry: same identity, same
/// artwork, same box, placed on the element layer and not highlighted.
pub open spec fn elem_matches(u: UI, e: ElemSpec) -> bool {
    &&& u.name@ == e.name
    &&& u.img@ == e.img
    &&& u.img_hover@ == e.img_hover
    &&& u.height == e.height
    &&& u.width == e.width
    &&& u.x == e.x
    &&& u.y == e.y
    &&& u.z == Z_VALUE_MENU_ELEMENTS
    &&& u.xoffset == e.xoff
    &&& u.initialized
    &&& !u.hovered
}

/// Whether the menu shows a page as `render` builds it: visible, in the
/// mode, with the page's background and exactly the page's elements.
pub open spec fn menu_rendered(m: Menu, mode: MenuMode, opts: Options, cx: int, cy: int) -> bool {
    &&& m.initialized
    &&& m.mode == mode
    &&& m.img@ == menu_img(mode)
    &&& m.menu_elements@.len() == menu_layout(mode, opts, cx, cy).len()
    &&& forall|i: int|
        0 <= i < m.menu_elements@.len() ==> elem_matches(
            #[trigger] m.menu_elements@[i],
            menu_layout(mode, opts, cx, cy)[i],
        )
}

/// An element as one hover pass leaves it: highlighted when the cursor hits
/// it (unless it has no hover artwork), plain otherwise, in place either
/// way.
pub open spec fn elem_hover_step(u: UI, x: int, y: int) -> UI {
    if ui_hit(u, x, y) {
        if u.img_hover@.len() == 0 {
            u
        } else {
            UI { hovered: true, ..u }
        }
    } else {
        UI { initialized: true, hovered: false, ..u }
    }
}

/// The name of the first element the cursor hits, or the empty string when
/// it hits none.
pub open spec fn hit_name(s: Seq<UI>, x: int, y: int) -> Seq<char>
    decreases s.len(),
{
    if s.len() == 0 {
        Seq::empty()
    } else if ui_hit(s[0], x, y) {
        s[0].name@
    } else {
        hit_name(s.drop_first(), x, y)
    }
}

proof fn lemma_hit_name_here(s: Seq<UI>, x: int, y: int, i: int)
    requires
        0 <= i < s.len(),
        ui_hit(s[i], x, y),
        forall|j: int| 0 <= j < i ==> !ui_hit(#[trigger] s[j], x, y),
    ensures
        hit_name(s, x, y) == s[i].name@,
    decreases i,
{
    if i > 0 {
        lemma_hit_name_here(s.drop_first(), x, y, i - 1);
    }
}

proof fn lemma_hit_name_none(s: Seq<UI>, x: int, y: int)
    requires
        forall|j: int| 0 <= j < s.len() ==> !ui_hit(#[trigger] s[j], x, y),
    ensures
        hit_name(s, x, y) == Seq::<char>::empty(),
    decreases s.len(),
{
    if s.len() > 0 {
        lemma_hit_name_none(s.drop_first(), x, y);
    }
}

/// Finds the first element the cursor hits, by scanning.
fn first_hit_index(elements: &Vec<UI>, x: i32, y: i32) -> (r: Option<usize>)
    ensures
        match r {
            Some(i) => i < elements@.len() && ui_hit(elements@[i as int], x as int, y as int)
                && hit_name(elements@, x as int, y as int) == elements@[i as int].name@,
            None => hit_name(elements@, x as int, y as int) == Seq::<char>::empty(),
        },
{
    let mut i: usize = 0;
    while i < elements.len()
        invariant
            i <= elements@.len(),
            forall|j: int| 0 <= j < i ==> !ui_hit(#[trigger] elements@[j], x as int, y as int),
        decreases elements@.len() - i,
    {
        if elements[i].mouse_is_hovering(x, y) {
            proof {
                lemma_hit_name_here(elements@, x as int, y as int, i as int);
            }
            return Some(i);
        }
        i += 1;
    }
    proof {
        lemma_hit_name_none(elements@, x as int, y as int);
    }
    None
}

/// The modal menu: its background image, its mode, and the elements of the
/// page currently shown. `entity` is the opaque render handle of the
/// background panel, owned by the embedding renderer.
pub struct Menu {
    pub img: String,
    pub initialized: bool,
    pub entity: u64,
    pub mode: MenuMode,
    pub borderless: bool,
    pub menu_elements: Vec<UI>,
}

impl Menu {
    pub fn new(img: String) -> (m: Menu)
        ensures
            m.img == img,
            !m.initialized,
            m.entity == 0,
            m.mode == MenuMode::Main,
            !m.borderless,
            m.menu_elements@.len() == 0,
    {
        Menu {
            img,
            initialized: false,
            entity: 0,
            mode: MenuMode::Main,
            borderless: false,
            menu_elements: Vec::new(),
        }
    }

    /// Builds the current mode's page around the camera centre, discarding
    /// whatever page was shown before. The embedding renderer spawns the
    /// artwork from this state.
    pub fn render(&mut self, opts: &Options, cam_x: i32, cam_y: i32)
        requires
            -100000000 <= cam_x <= 100000000,
            -100000000 <= cam_y <= 100000000,
        ensures
            menu_rendered(*final(self), old(self).mode, *opts, cam_x as int, cam_y as int),
            final(self).mode == old(self).mode,
            final(self).borderless == old(self).borderless,
            final(self).entity == old(self).entity,
    {
        self.dismiss();

        match self.mode {
            MenuMode::Main => {
                self.img = String::from_str("img/ui/menu_main.png");

                let mut continue_button = UI::new(
                    String::from_str("Continue"),
                    String::from_str("img/ui/menu_button_continue.png"),
                    String::from_str("img/ui/menu_button_continue_hover.png"),
                    32,
                    132,
                );
                continue_button.render(cam_x, cam_y + 88, Z_VALUE_MENU_ELEMENTS);

                let mut save_button = UI::new(
                    String::from_str("Save"),
                    String::from_str("img/ui/menu_button_save.png"),
                    String::from_str("img/ui/menu_button_save_hover.png"),
                    32,
                    132,
                );
                save_button.render(cam_x, cam_y + 40, Z_VALUE_MENU_ELEMENTS);

                let mut load_button = UI::new(
                    String::from_str("Load"),
                    String::from_str("img/ui/menu_button_load.png"),
                    String::from_str("img/ui/menu_button_load_hover.png"),
                    32,
                    132,
                );
                load_button.render(cam_x, cam_y - 8, Z_VALUE_MENU_ELEMENTS);

                let mut options_button = UI::new(
                    String::from_str("Options"),
                    String::from_str("img/ui/menu_button_options.png"),
                    String::from_str("img/ui/menu_button_options_hover.png"),
                    32,
                    132,
                );
                options_button.render(cam_x, cam_y - 56, Z_VALUE_MENU_ELEMENTS);

                let mut quit_button = UI::new(
                    String::from_str("Quit"),
                    String::from_str("img/ui/menu_button_quit.png"),
                    String::from_str("img/ui/menu_button_quit_hover.png"),
                    32,
                    132,
                );
                quit_button.render(cam_x, cam_y - 104, Z_VALUE_MENU_ELEMENTS);

                self.menu_elements = vec![
                    continue_button,
                    save_button,
                    load_button,
                    options_button,
                    quit_button,
                ];
            },
            MenuMode::Options => {
                self.img = String::from_str("img/ui/menu_options.png");

                let mut back_button = UI::new(
                    String::from_str("Back"),
                    String::from_str("img/ui/menu_button_back.png"),
                    String::from_str("img/ui/menu_button_back_hover.png"),
                    32,
                    132,
                );
                back_button.render(cam_x, cam_y + 88, Z_VALUE_MENU_ELEMENTS);

                let mut four_k_mode_button = UI::new(
                    String::from_str("4K Mode"),
                    checkbox_gfx(opts.four_k_mode),
                    checkbox_hover_gfx(opts.four_k_mode),
                    32,
                    34,
                );
                four_k_mode_button.set_xoffset(-48);
                four_k_mode_button.render(cam_x + 135, cam_y + 35, Z_VALUE_MENU_ELEMENTS);

                let mut borderless_button = UI::new(
                    String::from_str("Borderless"),
                    checkbox_gfx(opts.borderless),
                    checkbox_hover_gfx(opts.borderless),
                    32,
                    34,
                );
                borderless_button.set_xoffset(-48);
                borderless_button.render(cam_x + 135, cam_y - 5, Z_VALUE_MENU_ELEMENTS);

                let mut vsync_button = UI::new(
                    String::from_str("V-sync"),
                    checkbox_gfx(opts.vsync),
                    checkbox_hover_gfx(opts.vsync),
                    32,
                    34,
                );
                vsync_button.set_xoffset(-48);
                vsync_button.render(cam_x + 135, cam_y - 45, Z_VALUE_MENU_ELEMENTS);

                let mut fullscreen_button = UI::new(
                    String::from_str("Fullscreen"),
                    checkbox_gfx(opts.fullscreen),
                    checkbox_hover_gfx(opts.fullscreen),
                    32,
                    34,
                );
                fullscreen_button.set_xoffset(-48);
                fullscreen_button.render(cam_x + 135, cam_y - 85, Z_VALUE_MENU_ELEMENTS);

                self.menu_elements = vec![
                    back_button,
                    four_k_mode_button,
                    borderless_button,
                    vsync_button,
                    fullscreen_button,
                ];
            },
            MenuMode::Quit => {
                self.img = String::from_str("img/ui/menu_quit.png");

                let mut yes_quit_button = UI::new(
                    String::from_str("Yes, quit"),
                    String::from_str("img/ui/menu_button_yes_quit.png"),
                    String::from_str("img/ui/menu_button_yes_quit_hover.png"),
                    32,
                    132,
                );
                yes_quit_button.render(cam_x, cam_y - 24, Z_VALUE_MENU_ELEMENTS);

                let mut no_stay_button = UI::new(
                    String::from_str("No, stay"),
                    String::from_str("img/ui/menu_button_no_stay.png"),
                    String::from_str("img/ui/menu_button_no_stay_hover.png"),
                    32,
                    132,
                );
                no_stay_button.render(cam_x, cam_y - 72, Z_VALUE_MENU_ELEMENTS);

                self.menu_elements = vec![yes_quit_button, no_stay_button];
            },
        }

        self.initialized = true;
    }

    /// Takes the menu off the screen: the page's elements are released and
    /// dropped. The embedding renderer despawns their artwork beforehand.
    pub fn dismiss(&mut self)
        ensures
            !old(self).initialized ==> *final(self) == *old(self),
            old(self).initialized ==> {
                &&& !final(self).initialized
                &&& final(self).menu_elements@.len() == 0
                &&& final(self).img == old(self).img
                &&& final(self).mode == old(self).mode
                &&& final(self).borderless == old(self).borderless
                &&& final(self).entity == old(self).entity
            },
    {
        if !self.initialized {
            return ;
        }
        self.initialized = false;

        let n = self.menu_elements.len();
        let mut i: usize = 0;
        while i < n
            invariant
                i <= n,
                self.menu_elements@.len() == n,
                self.img == old(self).img,
                self.mode == old(self).mode,
                self.borderless == old(self).borderless,
                self.entity == old(self).entity,
                !self.initialized,
            decreases n - i,
        {
            self.menu_elements[i].free();
            i += 1;
        }

        self.menu_elements.clear();
    }

    pub fn is_borderless(&self) -> (r: bool)
        ensures
            r == self.borderless,
    {
        self.borderless
    }

    pub fn set_mode(&mut self, mode: MenuMode)
        ensures
            *final(self) == (Menu { mode, ..*old(self) }),
    {
        self.mode = mode;
    }

    pub fn reset_mode(&mut self)
        ensures
            *final(self) == (Menu { mode: MenuMode::Main, ..*old(self) }),
    {
        self.mode = MenuMode::Main;
    }

    pub fn visible(&self) -> (r: bool)
        ensures
            r == self.initialized,
    {
        self.initialized
    }

    /// Lets every element of the page follow the cursor: each one is
    /// highlighted exactly while the cursor hits it.
    pub fn hover_events(&mut self, mouse_x: i32, mouse_y: i32)
        ensures
            !old(self).initialized ==> *final(self) == *old(self),
            old(self).initialized ==> {
                &&& final(self).initialized == old(self).initialized
                &&& final(self).img == old(self).img
                &&& final(self).mode == old(self).mode
                &&& final(self).borderless == old(self).borderless
                &&& final(self).entity == old(self).entity
                &&& final(self).menu_elements@.len() == old(self).menu_elements@.len()
                &&& forall|i: int|
                    0 <= i < old(self).menu_elements@.len()
                        ==> #[trigger] final(self).menu_elements@[i] == elem_hover_step(
                        old(self).menu_elements@[i],
                        mouse_x as int,
                        mouse_y as int,
                    )
            },
    {
        if !self.visible() {
            return ;
        }
        let n = self.menu_elements.len();
        let mut i: usize = 0;
        while i < n
            invariant
                i <= n,
                self.menu_elements@.len() == n == old(self).menu_elements@.len(),
                self.initialized == old(self).initialized,
                self.img == old(self).img,
                self.mode == old(self).mode,
                self.borderless == old(self).borderless,
                self.entity == old(self).entity,
                forall|j: int| i <= j < n ==> self.menu_elements@[j] == old(self).menu_elements@[j],
                forall|j: int|
                    0 <= j < i ==> #[trigger] self.menu_elements@[j] == elem_hover_step(
                        old(self).menu_elements@[j],
                        mouse_x as int,
                        mouse_y as int,
                    ),
            decreases n - i,
        {
            let x = self.menu_elements[i].get_x();
            let y = self.menu_elements[i].get_y();
            let z = self.menu_elements[i].get_z();
            if self.menu_elements[i].mouse_is_hovering(mouse_x, mouse_y) {
                self.menu_elements[i].render_hover(x, y, z);
            } else {
                self.menu_elements[i].render(x, y, z);
            }
            i += 1;
        }
    }


    /// Answers a click on the page. Clicking "Continue" hides the menu;
    /// "Options" and "Quit" switch to their pages; "Back" and "No, stay"
    /// return to the main page; a checkbox asks the caller to toggle its
    /// setting (the mode does not change); "Yes, quit" asks the caller to
    /// end the process, which the menu itself never does. A click that hits
    /// nothing (or "Save" or "Load", which do nothing yet) is a no-op.
    pub fn click_events(
        &mut self,
        opts: &Options,
        cam_x: i32,
        cam_y: i32,
        mouse_x: i32,
        mouse_y: i32,
    ) -> (r: MenuSignal)
        requires
            -100000000 <= cam_x <= 100000000,
            -100000000 <= cam_y <= 100000000,
        ensures
            !old(self).initialized ==> *final(self) == *old(self) && r == MenuSignal::Nothing,
            old(self).initialized ==> ({
                let n = hit_name(old(self).menu_elements@, mouse_x as int, mouse_y as int);
                let m0 = *old(self);
                let m1 = *final(self);
                let kept = m1.borderless == m0.borderless && m1.entity == m0.entity;
                &&& (n == "Continue"@ ==> !m1.initialized && m1.menu_elements@.len() == 0
                    && m1.img == m0.img && m1.mode == m0.mode && kept && r == MenuSignal::Nothing)
                &&& (n == "Options"@ ==> menu_rendered(m1, MenuMode::Options, *opts, cam_x as int,
                    cam_y as int) && kept && r == MenuSignal::Nothing)
                &&& (n == "Quit"@ ==> menu_rendered(m1, MenuMode::Quit, *opts, cam_x as int,
                    cam_y as int) && kept && r == MenuSignal::Nothing)
                &&& (n == "Yes, quit"@ ==> m1 == m0 && r == MenuSignal::Terminate)
                &&& ((n == "Back"@ || n == "No, stay"@) ==> menu_rendered(m1, MenuMode::Main,
                    *opts, cam_x as int, cam_y as int) && kept && r == MenuSignal::Nothing)
                &&& (n == "4K Mode"@ ==> m1 == m0 && r == MenuSignal::Toggle(OptionKey::FourKMode))
                &&& (n == "Borderless"@ ==> m1 == m0 && r == MenuSignal::Toggle(
                    OptionKey::Borderless))
                &&& (n == "V-sync"@ ==> m1 == m0 && r == MenuSignal::Toggle(OptionKey::Vsync))
                &&& (n == "Fullscreen"@ ==> m1 == m0 && r == MenuSignal::Toggle(
                    OptionKey::Fullscreen))
                &&& ((n != "Continue"@ && n != "Options"@ && n != "Quit"@ && n != "Yes, quit"@
                    && n != "Back"@ && n != "No, stay"@ && n != "4K Mode"@ && n != "Borderless"@
                    && n != "V-sync"@ && n != "Fullscreen"@) ==> m1 == m0 && r
                    == MenuSignal::Nothing)
            }),
    {
        if !self.visible() {
            return MenuSignal::Nothing;
        }

        let name: String = match first_hit_index(&self.menu_elements, mouse_x, mouse_y) {
            None => String::from_str(""),
            Some(i) => String::from_str(self.menu_elements[i].get_name()),
        };
        proof {
            reveal_strlit("");
            reveal_strlit("Continue");
            reveal_strlit("Save");
            reveal_strlit("Load");
            reveal_strlit("Options");
            reveal_strlit("Quit");
            reveal_strlit("Yes, quit");
            reveal_strlit("Back");
            reveal_strlit("No, stay");
            reveal_strlit("4K Mode");
            reveal_strlit("Borderless");
            reveal_strlit("V-sync");
            reveal_strlit("Fullscreen");
            assert(""@ =~= Seq::<char>::empty());
            assert(name@ == hit_name(
                old(self).menu_elements@,
                mouse_x as int,
                mouse_y as int,
            ));
            assert("Continue"@.len() == 8 && "Continue"@[0] == 'C');
            assert("Save"@.len() == 4 && "Save"@[0] == 'S');
            assert("Load"@.len() == 4 && "Load"@[0] == 'L');
            assert("Options"@.len() == 7 && "Options"@[0] == 'O');
            assert("Quit"@.len() == 4 && "Quit"@[0] == 'Q');
            assert("Yes, quit"@.len() == 9 && "Yes, quit"@[0] == 'Y');
            assert("Back"@.len() == 4 && "Back"@[0] == 'B');
            assert("No, stay"@.len() == 8 && "No, stay"@[0] == 'N');
            assert("4K Mode"@.len() == 7 && "4K Mode"@[0] == '4');
            assert("Borderless"@.len() == 10 && "Borderless"@[0] == 'B');
            assert("V-sync"@.len() == 6 && "V-sync"@[0] == 'V');
            assert("Fullscreen"@.len() == 10 && "Fullscreen"@[0] == 'F');
        }

        if str_eq(name.as_str(), "Continue") {
            self.dismiss();
            MenuSignal::Nothing
        } else if str_eq(name.as_str(), "Options") {
            self.set_mode(MenuMode::Options);
            self.render(opts, cam_x, cam_y);
            MenuSignal::Nothing
        } else if str_eq(name.as_str(), "Quit") {
            self.set_mode(MenuMode::Quit);
            self.render(opts, cam_x, cam_y);
            MenuSignal::Nothing
        } else if str_eq(name.as_str(), "Yes, quit") {
            MenuSignal::Terminate
        } else if str_eq(name.as_str(), "Back") || str_eq(name.as_str(), "No, stay") {
            self.reset_mode();
            self.render(opts, cam_x, cam_y);
            MenuSignal::Nothing
        } else if str_eq(name.as_str(), "4K Mode") {
            MenuSignal::Toggle(OptionKey::FourKMode)
        } else if str_eq(name.as_str(), "Borderless") {
            MenuSignal::Toggle(OptionKey::Borderless)
        } else if str_eq(name.as_str(), "V-sync") {
            MenuSignal::Toggle(OptionKey::Vsync)
        } else if str_eq(name.as_str(), "Fullscreen") {
            MenuSignal::Toggle(OptionKey::Fullscreen)
        } else {
            MenuSignal::Nothing
        }
    }
}

/// The checkbox artwork for a setting's value.
fn checkbox_gfx(on: bool) -> (r: String)
    ensures
        r@ == checkbox_img(on),
{
    if on {
        String::from_str("img/ui/menu_checkbox_true.png")
    } else {
        String::from_str("img/ui/menu_checkbox_false.png")
    }
}

/// The hover artwork of a checkbox for a setting's value.
fn checkbox_hover_gfx(on: bool) -> (r: String)
    ensures
        r@ == checkbox_hover_img(on),
{
    if on {
        String::from_str("img/ui/menu_checkbox_true_hover.png")
    } else {
        String::from_str("img/ui/menu_checkbox_false_hover.png")
    }
}

} // verus!
