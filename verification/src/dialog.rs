use crate::constants::{DIALOG_FONT_SIZE, Z_VALUE_MENU, Z_VALUE_MENU_ELEMENTS};
use crate::text::{count_newlines, text_hit, Text, TextStyle};
use crate::ui::{ui_freed, UI};
use vstd::prelude::*;

verus! {

/// One choice entry of a dialog document node: its 1-based key index within
/// the node, the choice's display text, and the node the choice leads to
/// (0 for none).
pub struct DialogChoiceEntry {
    pub index: u32,
    pub text: String,
    pub next: i64,
}

/// One node of a dialog document: its number, its (possibly multi-line)
/// content, and its keyed choice entries.
pub struct DialogNode {
    pub id: i64,
    pub content: String,
    pub choices: Vec<DialogChoiceEntry>,
}

/// A dialog document: the keyed node collection the dialog engine loads
/// from. Node number 0 is reserved to mean "no dialog".
pub struct DialogDoc {
    pub nodes: Vec<DialogNode>,
}

/// The first node carrying the id, if any.
pub open spec fn first_node(s: Seq<DialogNode>, id: i64) -> Option<DialogNode>
    decreases s.len(),
{
    if s.len() == 0 {
        None
    } else if s[0].id == id {
        Some(s[0])
    } else {
        first_node(s.drop_first(), id)
    }
}

/// The first choice entry carrying the index, if any.
pub open spec fn first_choice(s: Seq<DialogChoiceEntry>, index: int) -> Option<DialogChoiceEntry>
    decreases s.len(),
{
    if s.len() == 0 {
        None
    } else if s[0].index == index {
        Some(s[0])
    } else {
        first_choice(s.drop_first(), index)
    }
}

/// The largest choice index among the entries (0 when there are none).
pub open spec fn max_choice_index(s: Seq<DialogChoiceEntry>) -> int
    decreases s.len(),
{
    if s.len() == 0 {
        0
    } else {
        let m = max_choice_index(s.drop_last());
        if s.last().index > m {
            s.last().index as int
        } else {
            m
        }
    }
}

proof fn lemma_max_bound(s: Seq<DialogChoiceEntry>, i: int)
    requires
        0 <= i < s.len(),
    ensures
        s[i].index <= max_choice_index(s),
        max_choice_index(s) <= u32::MAX,
    decreases s.len(),
{
    lemma_max_nonneg(s);
    if i == s.len() - 1 {
        lemma_max_nonneg(s.drop_last());
    } else {
        lemma_max_bound(s.drop_last(), i);
    }
}

proof fn lemma_max_nonneg(s: Seq<DialogChoiceEntry>)
    ensures
        0 <= max_choice_index(s) <= u32::MAX,
    decreases s.len(),
{
    if s.len() > 0 {
        lemma_max_nonneg(s.drop_last());
    }
}

proof fn lemma_first_choice_found(s: Seq<DialogChoiceEntry>, index: int)
    requires
        first_choice(s, index) is Some,
    ensures
        exists|i: int| 0 <= i < s.len() && s[i].index == index,
    decreases s.len(),
{
    if s.len() > 0 {
        if s[0].index == index {
        } else {
            lemma_first_choice_found(s.drop_first(), index);
            let i = choose|i: int| 0 <= i < s.drop_first().len() && s.drop_first()[i].index
                == index;
            assert(s[i + 1].index == index);
        }
    }
}

/// The choices a node load gathers: the entries for index 1, 2, 3, ... up to
/// the first index with no entry. A gap in the numbering ends the scan, so
/// entries after a gap are never loaded.
pub open spec fn choice_chain(s: Seq<DialogChoiceEntry>, from: int) -> Seq<DialogChoiceEntry>
    decreases max_choice_index(s) + 1 - from,
    via choice_chain_dec
{
    match first_choice(s, from) {
        Some(c) => seq![c] + choice_chain(s, from + 1),
        None => Seq::empty(),
    }
}

#[via_fn]
proof fn choice_chain_dec(s: Seq<DialogChoiceEntry>, from: int) {
    if first_choice(s, from) is Some {
        lemma_first_choice_found(s, from);
        let i = choose|i: int| 0 <= i < s.len() && s[i].index == from;
        lemma_max_bound(s, i);
    }
}

/// Finds the first node with the id, by scanning.
fn find_node<'a>(doc: &'a DialogDoc, id: i64) -> (r: Option<&'a DialogNode>)
    ensures
        match r {
            Some(n) => first_node(doc.nodes@, id) == Some(*n),
            None => first_node(doc.nodes@, id) is None,
        },
{
    let mut i: usize = 0;
    while i < doc.nodes.len()
        invariant
            i <= doc.nodes@.len(),
            forall|j: int| 0 <= j < i ==> doc.nodes@[j].id != id,
        decreases doc.nodes@.len() - i,
    {
        if doc.nodes[i].id == id {
            proof {
                lemma_first_node_here(doc.nodes@, id, i as int);
            }
            return Some(&doc.nodes[i]);
        }
        i += 1;
    }
    proof {
        lemma_first_node_none(doc.nodes@, id);
    }
    None
}

proof fn lemma_first_node_here(s: Seq<DialogNode>, id: i64, i: int)
    requires
        0 <= i < s.len(),
        s[i].id == id,
        forall|j: int| 0 <= j < i ==> s[j].id != id,
    ensures
        first_node(s, id) == Some(s[i]),
    decreases i,
{
    if i > 0 {
        lemma_first_node_here(s.drop_first(), id, i - 1);
    }
}

proof fn lemma_first_node_none(s: Seq<DialogNode>, id: i64)
    requires
        forall|j: int| 0 <= j < s.len() ==> s[j].id != id,
    ensures
        first_node(s, id) is None,
    decreases s.len(),
{
    if s.len() > 0 {
        lemma_first_node_none(s.drop_first(), id);
    }
}

/// Finds the first choice entry with the index, by scanning.
fn find_choice<'a>(node: &'a DialogNode, index: u64) -> (r: Option<&'a DialogChoiceEntry>)
    ensures
        match r {
            Some(c) => first_choice(node.choices@, index as int) == Some(*c),
            None => first_choice(node.choices@, index as int) is None,
        },
{
    let mut i: usize = 0;
    while i < node.choices.len()
        invariant
            i <= node.choices@.len(),
            forall|j: int| 0 <= j < i ==> node.choices@[j].index != index,
        decreases node.choices@.len() - i,
    {
        if node.choices[i].index as u64 == index {
            proof {
                lemma_first_choice_here(node.choices@, index as int, i as int);
            }
            return Some(&node.choices[i]);
        }
        i += 1;
    }
    proof {
        lemma_first_choice_none(node.choices@, index as int);
    }
    None
}

proof fn lemma_first_choice_here(s: Seq<DialogChoiceEntry>, index: int, i: int)
    requires
        0 <= i < s.len(),
        s[i].index == index,
        forall|j: int| 0 <= j < i ==> s[j].index != index,
    ensures
        first_choice(s, index) == Some(s[i]),
    decreases i,
{
    if i > 0 {
        lemma_first_choice_here(s.drop_first(), index, i - 1);
    }
}

proof fn lemma_first_choice_none(s: Seq<DialogChoiceEntry>, index: int)
    requires
        forall|j: int| 0 <= j < s.len() ==> s[j].index != index,
    ensures
        first_choice(s, index) is None,
    decreases s.len(),
{
    if s.len() > 0 {
        lemma_first_choice_none(s.drop_first(), index);
    }
}

/// A loaded dialog choice: its rendered text and the node it leads to.
pub struct DialogChoice {
    pub text: Text,
    pub next: i64,
}

/// A freshly loaded choice text, before any rendering: the dialog font, the
/// muted choice colour, hoverable, and not yet placed.
pub open spec fn fresh_choice_text(t: Text, content: Seq<char>) -> bool {
    &&& !t.initialized
    &&& t.entity == 0
    &&& t.size == DIALOG_FONT_SIZE
    &&& t.color == TextStyle::Choice
    &&& t.content@ == content
    &&& t.hoverable
    &&& !t.hovered
    &&& t.x == 0 && t.y == 0 && t.z == 0
}

/// The first hovered choice's target node, scanning in order; 0 when no
/// choice is hovered.
pub open spec fn first_hit_next(s: Seq<DialogChoice>, x: int, y: int) -> i64
    decreases s.len(),
{
    if s.len() == 0 {
        0
    } else if text_hit(s[0].text, x, y) {
        s[0].next
    } else {
        first_hit_next(s.drop_first(), x, y)
    }
}

/// A choice as one hover pass leaves it: the hover flag (and with it the
/// colour) follows the hit test, and nothing changes without a transition.
pub open spec fn choice_hover_step(c: DialogChoice, x: int, y: int) -> DialogChoice {
    let hit = text_hit(c.text, x, y);
    if c.text.hovered == hit {
        c
    } else {
        DialogChoice {
            text: Text {
                hovered: hit,
                color: if hit {
                    TextStyle::ChoiceHover
                } else {
                    TextStyle::Choice
                },
                ..c.text
            },
            ..c
        }
    }
}

/// The dialog engine: a background panel, the current node's content, and
/// the loaded choices. `initialized` doubles as visibility: an uninitialized
/// dialog is inactive and ignores hover and click events.
pub struct Dialog {
    pub initialized: bool,
    pub ui: UI,
    pub text: Text,
    pub dialog_choices: Vec<DialogChoice>,
}

impl Dialog {
    pub fn new() -> (d: Dialog)
        ensures
            !d.initialized,
            d.dialog_choices@.len() == 0,
            d.ui.name@ == "Dialog Box"@,
            d.ui.img@ == "img/ui/menu_dialog.png"@,
            d.ui.img_hover@.len() == 0,
            d.ui.height == 280 && d.ui.width == 1104,
            !d.ui.initialized && !d.ui.hovered,
            d.ui.x == 0 && d.ui.y == 0 && d.ui.z == 0 && d.ui.xoffset == 0,
            d.text.size == DIALOG_FONT_SIZE,
            d.text.color == TextStyle::MainText,
            d.text.content@.len() == 0,
            !d.text.hoverable && !d.text.hovered && !d.text.initialized,
            d.text.x == 0 && d.text.y == 0 && d.text.z == 0,
    {
        proof {
            reveal_strlit("");
        }
        let ui = UI::new(
            String::from_str("Dialog Box"),
            String::from_str("img/ui/menu_dialog.png"),
            String::from_str(""),
            280,
            1104,
        );
        let text = Text::new(DIALOG_FONT_SIZE, TextStyle::MainText, "", false);
        Dialog { initialized: false, ui, text, dialog_choices: Vec::new() }
    }

    /// Loads a node of the document: number 0 is reserved for "no dialog"
    /// and a number without a node in the document means the dialog does not
    /// open; both leave the engine untouched. Otherwise the node's content
    /// replaces the dialog text, the old choices are dropped, and the node's
    /// choice entries are gathered for index 1, 2, 3, ... until the first
    /// index that has no entry.
    pub fn load_dialog(&mut self, doc: &DialogDoc, number: i64)
        ensures
            number == 0 ==> *final(self) == *old(self),
            number != 0 && first_node(doc.nodes@, number) is None ==> *final(self) == *old(self),
            number != 0 && first_node(doc.nodes@, number) is Some ==> {
                let node = first_node(doc.nodes@, number).unwrap();
                let chain = choice_chain(node.choices@, 1);
                &&& final(self).initialized == old(self).initialized
                &&& final(self).ui == old(self).ui
                &&& final(self).text == (Text {
                    initialized: false,
                    content: final(self).text.content,
                    ..old(self).text
                })
                &&& final(self).text.content@ == node.content@
                &&& final(self).dialog_choices@.len() == chain.len()
                &&& forall|i: int|
                    0 <= i < chain.len() ==> {
                        &&& (#[trigger] final(self).dialog_choices@[i]).next == chain[i].next
                        &&& fresh_choice_text(final(self).dialog_choices@[i].text, chain[i].text@)
                    }
            },
    {
        if number == 0 {
            return ;
        }
        let node = match find_node(doc, number) {
            None => { return ; },
            Some(n) => n,
        };
        self.text.free();
        self.text.set_content(node.content.clone());
        self.dialog_choices.clear();

        let ghost chain = choice_chain(node.choices@, 1);
        let ghost mut loaded: Seq<DialogChoiceEntry> = Seq::empty();
        let mut count: u64 = 1;
        let mut going = true;
        while going
            invariant
                1 <= count,
                going ==> count <= max_choice_index(node.choices@) + 1,
                first_node(doc.nodes@, number) == Some(*node),
                self.initialized == old(self).initialized,
                self.ui == old(self).ui,
                self.text == (Text {
                    initialized: false,
                    content: self.text.content,
                    ..old(self).text
                }),
                self.text.content@ == node.content@,
                loaded.len() == count - 1,
                self.dialog_choices@.len() == loaded.len(),
                chain == loaded + choice_chain(node.choices@, count as int),
                forall|i: int|
                    0 <= i < loaded.len() ==> {
                        &&& (#[trigger] self.dialog_choices@[i]).next == loaded[i].next
                        &&& fresh_choice_text(self.dialog_choices@[i].text, loaded[i].text@)
                    },
                !going ==> chain == loaded,
            decreases
                    max_choice_index(node.choices@) + 2 - count,
                    (if going {
                        1int
                    } else {
                        0int
                    }),
        {
            proof {
                lemma_max_nonneg(node.choices@);
            }
            match find_choice(node, count) {
                None => {
                    going = false;
                    proof {
                        assert(choice_chain(node.choices@, count as int) =~= Seq::empty());
                        assert(chain =~= loaded);
                    }
                },
                Some(c) => {
                    let t = Text::new(DIALOG_FONT_SIZE, TextStyle::Choice, c.text.as_str(), true);
                    self.dialog_choices.push(DialogChoice { text: t, next: c.next });
                    proof {
                        lemma_first_choice_found(node.choices@, count as int);
                        let i = choose|i: int|
                            0 <= i < node.choices@.len() && node.choices@[i].index == count;
                        lemma_max_bound(node.choices@, i);
                        assert(choice_chain(node.choices@, count as int) == seq![*c]
                            + choice_chain(node.choices@, count as int + 1));
                        loaded = loaded.push(*c);
                        assert(chain =~= loaded + choice_chain(node.choices@, count as int + 1));
                    }
                    count += 1;
                },
            }
        }
        proof {
            assert(chain == loaded);
        }
    }

    /// Lays the dialog out around the camera: the panel a little below
    /// centre, the content text upon it, and each choice on its own row
    /// below the content. The embedding renderer draws from this state.
    pub fn render(&mut self, cam_x: i32, cam_y: i32)
        requires
            -100000000 <= cam_x <= 100000000,
            -100000000 <= cam_y <= 100000000,
            old(self).dialog_choices@.len() <= 1000000,
            count_newlines(old(self).text.content@) <= 1000000,
        ensures
            final(self).initialized,
            final(self).ui == (UI {
                initialized: true,
                hovered: false,
                x: final(self).ui.x,
                y: final(self).ui.y,
                z: Z_VALUE_MENU,
                ..old(self).ui
            }),
            final(self).ui.x == cam_x && final(self).ui.y == cam_y - 152,
            final(self).text == (Text {
                initialized: true,
                x: final(self).text.x,
                y: final(self).text.y,
                z: Z_VALUE_MENU_ELEMENTS,
                ..old(self).text
            }),
            final(self).text.x == cam_x - 144 && final(self).text.y == cam_y - 120,
            final(self).dialog_choices@.len() == old(self).dialog_choices@.len(),
            forall|k: int|
                0 <= k < old(self).dialog_choices@.len() ==> {
                    let c0 = old(self).dialog_choices@[k];
                    let c1 = #[trigger] final(self).dialog_choices@[k];
                    &&& c1.next == if old(self).initialized {
                        0
                    } else {
                        c0.next
                    }
                    &&& c1.text == (Text {
                        initialized: true,
                        x: c1.text.x,
                        y: c1.text.y,
                        z: Z_VALUE_MENU_ELEMENTS,
                        ..c0.text
                    })
                    &&& c1.text.x == cam_x - 236 - 24 * k
                    &&& c1.text.y == cam_y - 140 - 20 * count_newlines(old(self).text.content@)
                        - 28 * k
                },
    {
        if self.initialized {
            self.free();
        }
        let x = cam_x;
        let y = cam_y - 152;
        self.ui.render(x, y, Z_VALUE_MENU);

        let mut text_x: i64 = x as i64 - 144;
        let mut text_y: i64 = y as i64 + 32;
        self.text.render(text_x as i32, text_y as i32, Z_VALUE_MENU_ELEMENTS);

        text_x -= 92;
        let lines = self.text.lines();
        text_y -= lines as i64 * 20;

        let n = self.dialog_choices.len();
        let mut k: usize = 0;
        while k < n
            invariant
                k <= n,
                self.dialog_choices@.len() == n == old(self).dialog_choices@.len(),
                count_newlines(old(self).text.content@) <= 1000000,
                lines == count_newlines(old(self).text.content@) + 1,
                n <= 1000000,
                -100000000 <= cam_x <= 100000000,
                -100000000 <= cam_y <= 100000000,
                text_x == cam_x - 236 - 24 * k,
                text_y == cam_y - 140 - 20 * count_newlines(old(self).text.content@) - 28 * k,
                self.ui == (UI {
                    initialized: true,
                    hovered: false,
                    x: self.ui.x,
                    y: self.ui.y,
                    z: Z_VALUE_MENU,
                    ..old(self).ui
                }),
                self.ui.x == cam_x && self.ui.y == cam_y - 152,
                self.text == (Text {
                    initialized: true,
                    x: self.text.x,
                    y: self.text.y,
                    z: Z_VALUE_MENU_ELEMENTS,
                    ..old(self).text
                }),
                self.text.x == cam_x - 144 && self.text.y == cam_y - 120,
                forall|j: int|
                    k <= j < n ==> {
                        let c0 = old(self).dialog_choices@[j];
                        let c1 = #[trigger] self.dialog_choices@[j];
                        &&& c1.next == if old(self).initialized {
                            0
                        } else {
                            c0.next
                        }
                        &&& c1.text == if old(self).initialized {
                            (Text { initialized: false, ..c0.text })
                        } else {
                            c0.text
                        }
                    },
                forall|j: int|
                    0 <= j < k ==> {
                        let c0 = old(self).dialog_choices@[j];
                        let c1 = #[trigger] self.dialog_choices@[j];
                        &&& c1.next == if old(self).initialized {
                            0
                        } else {
                            c0.next
                        }
                        &&& c1.text == (Text {
                            initialized: true,
                            x: c1.text.x,
                            y: c1.text.y,
                            z: Z_VALUE_MENU_ELEMENTS,
                            ..c0.text
                        })
                        &&& c1.text.x == cam_x - 236 - 24 * j
                        &&& c1.text.y == cam_y - 140 - 20 * count_newlines(old(
                            self,
                        ).text.content@) - 28 * j
                    },
            decreases n - k,
        {
            self.dialog_choices[k].text.render(text_x as i32, text_y as i32, Z_VALUE_MENU_ELEMENTS);
            text_x -= 24;
            text_y -= 28;
            k += 1;
        }

        self.initialized = true;
    }

    /// Releases the dialog's presentation state and disarms every choice: a
    /// freed dialog keeps its choice rows but they lead nowhere.
    pub fn free(&mut self)
        ensures
            !old(self).initialized ==> *final(self) == *old(self),
            old(self).initialized ==> {
                &&& !final(self).initialized
                &&& final(self).ui == ui_freed(old(self).ui)
                &&& final(self).text == (Text { initialized: false, ..old(self).text })
                &&& final(self).dialog_choices@.len() == old(self).dialog_choices@.len()
                &&& forall|i: int|
                    0 <= i < old(self).dialog_choices@.len()
                        ==> #[trigger] final(self).dialog_choices@[i] == (DialogChoice {
                        next: 0,
                        text: Text {
                            initialized: false,
                            ..old(self).dialog_choices@[i].text
                        },
                    })
            },
    {
        if !self.initialized {
            return ;
        }
        self.ui.free();
        self.text.free();
        let n = self.dialog_choices.len();
        let mut i: usize = 0;
        while i < n
            invariant
                i <= n,
                self.dialog_choices@.len() == n == old(self).dialog_choices@.len(),
                self.initialized == old(self).initialized,
                self.ui == ui_freed(old(self).ui),
                self.text == (Text { initialized: false, ..old(self).text }),
                forall|j: int| i <= j < n ==> self.dialog_choices@[j] == old(
                    self,
                ).dialog_choices@[j],
                forall|j: int|
                    0 <= j < i ==> #[trigger] self.dialog_choices@[j] == (DialogChoice {
                        next: 0,
                        text: Text {
                            initialized: false,
                            ..old(self).dialog_choices@[j].text
                        },
                    }),
            decreases n - i,
        {
            self.dialog_choices[i].text.free();
            self.dialog_choices[i].next = 0;
            i += 1;
        }
        self.initialized = false;
    }

    pub fn visible(&self) -> (r: bool)
        ensures
            r == self.initialized,
    {
        self.initialized
    }

    /// Walks the choices and lets each follow the cursor: a choice whose
    /// hover state flips switches colour with it, and the indices that
    /// flipped are handed back so the renderer redraws only those.
    pub fn hover_events(&mut self, mouse_x: i32, mouse_y: i32) -> (changed: Vec<usize>)
        ensures
            !old(self).initialized ==> *final(self) == *old(self) && changed@.len() == 0,
            old(self).initialized ==> {
                &&& final(self).initialized == old(self).initialized
                &&& final(self).ui == old(self).ui
                &&& final(self).text == old(self).text
                &&& final(self).dialog_choices@.len() == old(self).dialog_choices@.len()
                &&& forall|i: int|
                    0 <= i < old(self).dialog_choices@.len()
                        ==> #[trigger] final(self).dialog_choices@[i] == choice_hover_step(
                        old(self).dialog_choices@[i],
                        mouse_x as int,
                        mouse_y as int,
                    )
                &&& forall|i: int|
                    0 <= i < old(self).dialog_choices@.len()
                        ==> ((#[trigger] old(self).dialog_choices@[i]).text.hovered != text_hit(
                        old(self).dialog_choices@[i].text,
                        mouse_x as int,
                        mouse_y as int,
                    ) <==> changed@.contains(i as usize))
                &&& forall|a: int, b: int|
                    0 <= a < b < changed@.len() ==> changed@[a] < changed@[b]
            },
    {
        let mut changed: Vec<usize> = Vec::new();
        if !self.visible() {
            return changed;
        }
        let n = self.dialog_choices.len();
        let mut i: usize = 0;
        while i < n
            invariant
                i <= n,
                self.dialog_choices@.len() == n == old(self).dialog_choices@.len(),
                self.initialized == old(self).initialized,
                self.ui == old(self).ui,
                self.text == old(self).text,
                forall|j: int| i <= j < n ==> self.dialog_choices@[j] == old(
                    self,
                ).dialog_choices@[j],
                forall|j: int|
                    0 <= j < i ==> #[trigger] self.dialog_choices@[j] == choice_hover_step(
                        old(self).dialog_choices@[j],
                        mouse_x as int,
                        mouse_y as int,
                    ),
                forall|j: int|
                    0 <= j < i ==> ((#[trigger] old(self).dialog_choices@[j]).text.hovered
                        != text_hit(
                        old(self).dialog_choices@[j].text,
                        mouse_x as int,
                        mouse_y as int,
                    ) <==> changed@.contains(j as usize)),
                forall|m: int| 0 <= m < changed@.len() ==> changed@[m] < i,
                forall|a: int, b: int| 0 <= a < b < changed@.len() ==> changed@[a] < changed@[b],
            decreases n - i,
        {
            let was_hovering = self.dialog_choices[i].text.get_hover();
            let is_hovering = self.dialog_choices[i].text.mouse_is_hovering(mouse_x, mouse_y);
            let ghost changed_before = changed@;
            if was_hovering && !is_hovering {
                self.dialog_choices[i].text.set_hover(false);
                changed.push(i);
            } else if !was_hovering && is_hovering {
                self.dialog_choices[i].text.set_hover(true);
                changed.push(i);
            }
            proof {
                broadcast use vstd::seq_lib::lemma_seq_contains_after_push;

                assert forall|j: int| 0 <= j < changed_before.len() implies changed_before[j]
                    < i by {}
            }
            i += 1;
        }
        changed
    }

    /// The dialog's answer to a click: the target node of the first hovered
    /// choice, or 0 when nothing is hovered or no dialog is open. The caller
    /// decides whether to load that node or let the dialog rest.
    pub fn click_events(&self, mouse_x: i32, mouse_y: i32) -> (r: i64)
        ensures
            r == if self.initialized {
                first_hit_next(self.dialog_choices@, mouse_x as int, mouse_y as int)
            } else {
                0
            },
    {
        if !self.visible() {
            return 0;
        }
        let n = self.dialog_choices.len();
        let mut i: usize = 0;
        while i < n
            invariant
                i <= n,
                n == self.dialog_choices@.len(),
                self.initialized,
                forall|j: int|
                    0 <= j < i ==> !text_hit(
                        (#[trigger] self.dialog_choices@[j]).text,
                        mouse_x as int,
                        mouse_y as int,
                    ),
            decreases n - i,
        {
            if self.dialog_choices[i].text.mouse_is_hovering(mouse_x, mouse_y) {
                proof {
                    assert(text_hit(
                        self.dialog_choices@[i as int].text,
                        mouse_x as int,
                        mouse_y as int,
                    ));
                    lemma_first_hit_here(
                        self.dialog_choices@,
                        mouse_x as int,
                        mouse_y as int,
                        i as int,
                    );
                }
                let r = self.dialog_choices[i].next;
                proof {
                    assert(r == self.dialog_choices@[i as int].next);
                    assert(first_hit_next(self.dialog_choices@, mouse_x as int, mouse_y as int)
                        == self.dialog_choices@[i as int].next);
                }
                return r;
            }
            i += 1;
        }
        proof {
            lemma_first_hit_none(self.dialog_choices@, mouse_x as int, mouse_y as int);
        }
        0
    }
}

proof fn lemma_first_hit_here(s: Seq<DialogChoice>, x: int, y: int, i: int)
    requires
        0 <= i < s.len(),
        text_hit(s[i].text, x, y),
        forall|j: int| 0 <= j < i ==> !text_hit((#[trigger] s[j]).text, x, y),
    ensures
        first_hit_next(s, x, y) == s[i].next,
    decreases i,
{
    if i > 0 {
        lemma_first_hit_here(s.drop_first(), x, y, i - 1);
    }
}

proof fn lemma_first_hit_none(s: Seq<DialogChoice>, x: int, y: int)
    requires
        forall|j: int| 0 <= j < s.len() ==> !text_hit((#[trigger] s[j]).text, x, y),
    ensures
        first_hit_next(s, x, y) == 0,
    decreases s.len(),
{
    if s.len() > 0 {
        lemma_first_hit_none(s.drop_first(), x, y);
    }
}

} // verus!
