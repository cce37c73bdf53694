use tile_realm::dialog::{Dialog, DialogChoiceEntry, DialogDoc, DialogNode};

fn sample_doc() -> DialogDoc {
    DialogDoc {
        nodes: vec![
            DialogNode {
                id: 1,
                content: String::from("Hello there.\nFine weather."),
                choices: vec![
                    DialogChoiceEntry { index: 1, text: String::from("Good day."), next: 2 },
                    DialogChoiceEntry { index: 2, text: String::from("Farewell."), next: 0 },
                ],
            },
            DialogNode {
                id: 2,
                content: String::from("Indeed."),
                choices: vec![
                    DialogChoiceEntry { index: 1, text: String::from("Quite."), next: 0 },
                    DialogChoiceEntry { index: 3, text: String::from("Unreachable."), next: 9 },
                ],
            },
        ],
    }
}

#[test]
fn load_dialog_zero_is_a_no_op() {
    let doc = sample_doc();
    let mut d = Dialog::new();
    d.load_dialog(&doc, 0);
    assert!(!d.visible());
    assert_eq!(d.dialog_choices.len(), 0);
    assert_eq!(d.text.content, "");
}

#[test]
fn load_dialog_missing_node_is_a_no_op() {
    let doc = sample_doc();
    let mut d = Dialog::new();
    d.load_dialog(&doc, 99);
    assert!(!d.visible());
    assert_eq!(d.dialog_choices.len(), 0);
    assert_eq!(d.text.content, "");
}

#[test]
fn load_dialog_reads_content_and_choices() {
    let doc = sample_doc();
    let mut d = Dialog::new();
    d.load_dialog(&doc, 1);
    assert_eq!(d.text.content, "Hello there.\nFine weather.");
    assert_eq!(d.dialog_choices.len(), 2);
    assert_eq!(d.dialog_choices[0].text.content, "Good day.");
    assert_eq!(d.dialog_choices[0].next, 2);
    assert_eq!(d.dialog_choices[1].text.content, "Farewell.");
    assert_eq!(d.dialog_choices[1].next, 0);
}

#[test]
fn gap_in_choice_numbering_ends_the_scan() {
    // Node 2 has entries for indices 1 and 3: the missing 2 stops loading,
    // so exactly one choice comes in.
    let doc = sample_doc();
    let mut d = Dialog::new();
    d.load_dialog(&doc, 2);
    assert_eq!(d.dialog_choices.len(), 1);
    assert_eq!(d.dialog_choices[0].text.content, "Quite.");
}

#[test]
fn click_on_inactive_dialog_returns_zero() {
    let d = Dialog::new();
    assert_eq!(d.click_events(0, 0), 0);
}

#[test]
fn click_on_a_choice_returns_its_target() {
    let doc = sample_doc();
    let mut d = Dialog::new();
    d.load_dialog(&doc, 1);
    d.render(0, 0);
    assert!(d.visible());
    // One newline in the content: the first choice row is anchored at
    // (-236, -160) in half-pixel units, and the cursor's effective point
    // carries a (48 + 56, 32) offset.
    assert_eq!(d.click_events(-330, -180), 2);
    // The second row sits 24 further left and 28 lower.
    assert_eq!(d.click_events(-354, -208), 0);
    // Far away hits nothing.
    assert_eq!(d.click_events(5000, 5000), 0);
}

#[test]
fn hover_reports_only_transitions() {
    let doc = sample_doc();
    let mut d = Dialog::new();
    d.load_dialog(&doc, 1);
    d.render(0, 0);
    let changed = d.hover_events(-330, -180);
    assert_eq!(changed, vec![0]);
    assert!(d.dialog_choices[0].text.hovered);
    // The cursor stays put: no transition, nothing to redraw.
    let changed = d.hover_events(-330, -180);
    assert!(changed.is_empty());
    // The cursor leaves: the first row transitions back.
    let changed = d.hover_events(5000, 5000);
    assert_eq!(changed, vec![0]);
    assert!(!d.dialog_choices[0].text.hovered);
}

#[test]
fn free_disarms_the_choices() {
    let doc = sample_doc();
    let mut d = Dialog::new();
    d.load_dialog(&doc, 1);
    d.render(0, 0);
    d.free();
    assert!(!d.visible());
    assert_eq!(d.dialog_choices.len(), 2);
    assert_eq!(d.dialog_choices[0].next, 0);
    assert_eq!(d.click_events(-330, -180), 0);
}

#[test]
fn text_lines_counts_newlines() {
    let doc = sample_doc();
    let mut d = Dialog::new();
    d.load_dialog(&doc, 1);
    assert_eq!(d.text.lines(), 2);
    d.load_dialog(&doc, 2);
    assert_eq!(d.text.lines(), 1);
}
