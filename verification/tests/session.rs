use picleo::config::Config;
use picleo::engine::TickStatus;
use picleo::event::EventResponse;
use picleo::event::InputEvent;
use picleo::event::KeyCode;
use picleo::event::KeyModifiers;
use picleo::event::MouseKind;
use picleo::picker::Autocomplete;
use picleo::picker::LoopAction;
use picleo::picker::Picker;
use picleo::picker::PickerMode;
use picleo::requested_items::RequestedItems;
use picleo::selectable::SelectableItem;
use picleo::text_buffer::TextChange;
use picleo::viewport::Viewport;

fn settle(picker: &mut Picker<String>) {
    let mut quiet = 0;
    let mut rounds = 0;
    while quiet < 3 && rounds < 1000 {
        let status: TickStatus = picker.tick(10);
        if status.running || status.changed {
            quiet = 0;
        } else {
            quiet += 1;
        }
        rounds += 1;
    }
}

fn picker_of(names: &[&str], config: Config) -> Picker<String> {
    let mut picker: Picker<String> = Picker::with_config(config, true);
    picker.update_height(10);
    for name in names {
        picker.push(SelectableItem::new(name.to_string()));
    }
    settle(&mut picker);
    picker
}

fn fruit_picker() -> Picker<String> {
    picker_of(&["apple", "banana", "grape"], Config::default())
}

fn key(code: KeyCode) -> InputEvent {
    InputEvent::Key { code, modifiers: KeyModifiers::none() }
}

fn control(c: char) -> InputEvent {
    InputEvent::Key { code: KeyCode::Char(c), modifiers: KeyModifiers::only_control() }
}

fn type_text(picker: &mut Picker<String>, text: &str) {
    for c in text.chars() {
        assert_eq!(picker.handle_event_by_mode(key(KeyCode::Char(c))), EventResponse::UpdateUI);
    }
}

fn matched_texts(picker: &Picker<String>) -> Vec<String> {
    picker.matched_items().iter().map(|item| item.text()).collect()
}

fn selected_flags(picker: &Picker<String>) -> Vec<(String, bool)> {
    picker.matched_items().iter().map(|item| (item.text(), item.is_selected())).collect()
}

struct Continuations;

impl Autocomplete for Continuations {
    fn suggestions(&self, text: &str) -> RequestedItems<String> {
        let mut items = RequestedItems::new();
        if !text.is_empty() {
            items.push(SelectableItem::new_requested(format!("{}/a", text)));
            items.push(SelectableItem::new_requested(format!("{}/b", text)));
            items.push(SelectableItem::new_requested(format!("{}/c", text)));
        }
        items
    }
}

#[test]
fn new_session_is_empty_and_in_search_mode() {
    let picker: Picker<String> = Picker::new(true);
    assert_eq!(picker.mode, PickerMode::Search);
    assert_eq!(picker.item_count(), 0);
    assert_eq!(picker.matched_item_count(), 0);
    assert_eq!(picker.viewport, Viewport { current_index: 0, first_visible_index: 0, height: 0 });
    assert!(picker.query_is_empty());
    assert_eq!(picker.editing_text(), "");
    assert!(picker.editable);
    assert!(!picker.has_preview());
    assert_eq!(picker.preview_output(), "");
    assert!(picker.redraw_requested);
    assert!(!picker.keep_colors());
    assert_eq!(picker.height(), 0);
    let configured: Picker<String> = Picker::with_config(
        Config {
            height: Some(7),
            mouse_enabled: None,
            case_matching: None,
            normalization: None,
            wrap_around: Some(false),
            invert_scroll: None,
        },
        false,
    );
    assert_eq!(configured.viewport.height, 7);
    assert!(!configured.editable);
}

#[test]
fn pool_is_seen_after_a_tick() {
    let mut picker: Picker<String> = Picker::new(true);
    picker.update_height(10);
    picker.push(SelectableItem::new("apple".to_string()));
    assert_eq!(picker.item_count(), 0);
    settle(&mut picker);
    assert_eq!(picker.item_count(), 1);
    picker.inject_items(|injector| {
        for name in ["banana", "grape"] {
            injector.push(SelectableItem::new(name.to_string()), |item, columns| {
                columns[0] = item.text().into()
            });
        }
    });
    settle(&mut picker);
    assert_eq!(picker.item_count(), 3);
    assert_eq!(picker.matched_item_count(), 3);
    assert_eq!(picker.snapshot().matched_item_count(), 3);
    assert_eq!(picker.last_item_index(), 2);
    assert_eq!(picker.height(), 3);
    assert_eq!(matched_texts(&picker), vec!["apple", "banana", "grape"]);
    assert_eq!(picker.current_item_text(), "apple");
}

#[test]
fn query_filters_and_resets_the_current_index() {
    let mut picker = fruit_picker();
    picker.next();
    picker.next();
    assert_eq!(picker.viewport.current_index, 2);
    type_text(&mut picker, "ap");
    assert_eq!(picker.viewport.current_index, 0);
    settle(&mut picker);
    let texts = matched_texts(&picker);
    assert_eq!(texts[0], "apple");
    assert!(!texts.contains(&"banana".to_string()));
    assert_eq!(picker.viewport.current_index, 0);
    assert_eq!(picker.query_text(), "ap");
    type_text(&mut picker, "p");
    settle(&mut picker);
    assert_eq!(matched_texts(&picker), vec!["apple"]);
    assert_eq!(picker.viewport.current_index, 0);
    assert_eq!(picker.item_count(), 3);
}

#[test]
fn narrowed_query_returns_the_highlighted_entry() {
    let mut picker = fruit_picker();
    type_text(&mut picker, "grape");
    settle(&mut picker);
    assert_eq!(matched_texts(&picker), vec!["grape"]);
    assert_eq!(picker.handle_event_by_mode(key(KeyCode::Enter)), EventResponse::ReturnSelectedItems);
    let selected = picker.selected_items();
    assert_eq!(selected.existing_values(), vec![&"grape".to_string()]);
    assert!(selected.requested_values().is_empty());
}

#[test]
fn committed_edit_is_returned_as_a_requested_entry() {
    let mut picker = fruit_picker();
    assert_eq!(picker.handle_event_by_mode(control('n')), EventResponse::UpdateUI);
    assert_eq!(picker.mode, PickerMode::Editing);
    assert_eq!(picker.editing_text(), "");
    type_text(&mut picker, "foo/bar");
    assert_eq!(picker.editing_text(), "foo/bar");
    assert!(picker.query_is_empty());
    assert_eq!(picker.handle_event_by_mode(key(KeyCode::Enter)), EventResponse::UpdateUI);
    assert_eq!(picker.mode, PickerMode::Search);
    assert_eq!(picker.editing_text(), "");
    settle(&mut picker);
    assert_eq!(picker.item_count(), 4);
    assert_eq!(
        selected_flags(&picker),
        vec![
            ("apple".to_string(), false),
            ("banana".to_string(), false),
            ("grape".to_string(), false),
            ("foo/bar".to_string(), true),
        ]
    );
    assert_eq!(picker.handle_event_by_mode(key(KeyCode::Enter)), EventResponse::ReturnSelectedItems);
    let selected = picker.selected_items();
    assert_eq!(selected.requested_values(), vec!["foo/bar"]);
    assert!(selected.existing_values().is_empty());
}

#[test]
fn empty_edit_adds_nothing() {
    let mut picker = fruit_picker();
    picker.handle_event_by_mode(control('n'));
    assert_eq!(picker.handle_event_by_mode(key(KeyCode::Enter)), EventResponse::UpdateUI);
    assert_eq!(picker.mode, PickerMode::Search);
    settle(&mut picker);
    assert_eq!(picker.item_count(), 3);
}

#[test]
fn cancelled_edit_adds_nothing() {
    let mut picker = fruit_picker();
    picker.handle_event_by_mode(control('n'));
    type_text(&mut picker, "pear");
    assert_eq!(picker.handle_event_by_mode(key(KeyCode::Esc)), EventResponse::UpdateUI);
    assert_eq!(picker.mode, PickerMode::Search);
    assert_eq!(picker.editing_text(), "");
    settle(&mut picker);
    assert_eq!(picker.item_count(), 3);
    assert_eq!(matched_texts(&picker), vec!["apple", "banana", "grape"]);
}

#[test]
fn edit_of_the_highlighted_entry_starts_from_its_text() {
    let mut picker = fruit_picker();
    picker.next();
    assert_eq!(picker.handle_event_by_mode(control('d')), EventResponse::UpdateUI);
    assert_eq!(picker.mode, PickerMode::Editing);
    assert_eq!(picker.editing_text(), "banana");
    assert_eq!(picker.editing.position(), 0);
    type_text(&mut picker, "a-");
    assert_eq!(picker.handle_event_by_mode(key(KeyCode::Enter)), EventResponse::UpdateUI);
    settle(&mut picker);
    assert_eq!(matched_texts(&picker), vec!["apple", "banana", "grape", "a-banana"]);
}

#[test]
fn selection_survives_narrowing_and_widening() {
    let mut picker = fruit_picker();
    picker.next();
    assert_eq!(picker.current_item_text(), "banana");
    picker.toggle_selected();
    type_text(&mut picker, "gr");
    settle(&mut picker);
    assert_eq!(matched_texts(&picker), vec!["grape"]);
    assert_eq!(picker.handle_event_by_mode(control('u')), EventResponse::UpdateUI);
    settle(&mut picker);
    assert_eq!(
        selected_flags(&picker),
        vec![
            ("apple".to_string(), false),
            ("banana".to_string(), true),
            ("grape".to_string(), false),
        ]
    );
    assert_eq!(picker.selected_items().existing_values(), vec![&"banana".to_string()]);
}

#[test]
fn reparsing_an_unchanged_query_keeps_the_snapshot() {
    let mut picker = picker_of(&["alpha", "beta", "gamma", "delta", "atlas"], Config::default());
    type_text(&mut picker, "a");
    settle(&mut picker);
    let first = matched_texts(&picker);
    let count = picker.matched_item_count();
    picker.query_changed(TextChange::Rewritten);
    settle(&mut picker);
    assert_eq!(matched_texts(&picker), first);
    picker.query_changed(TextChange::Rewritten);
    settle(&mut picker);
    assert_eq!(matched_texts(&picker), first);
    assert_eq!(picker.matched_item_count(), count);
    assert_eq!(picker.query_text(), "a");
}

#[test]
fn operations_on_an_empty_matched_set_do_nothing() {
    let mut picker: Picker<String> = Picker::new(true);
    picker.update_height(10);
    settle(&mut picker);
    let before = picker.viewport;
    picker.next();
    picker.previous();
    picker.next_page();
    picker.previous_page();
    picker.home();
    picker.end();
    picker.toggle_selected();
    picker.handle_item_click(5);
    assert_eq!(picker.viewport, before);
    assert_eq!(picker.current_item_text(), "");
    assert!(picker.matched_items().is_empty());
    assert!(picker.selected_items().is_empty());
    assert_eq!(picker.visible_item_range(), None);
    assert_eq!(picker.last_item_index(), 0);

    let mut picker = fruit_picker();
    type_text(&mut picker, "zzz");
    settle(&mut picker);
    assert_eq!(picker.matched_item_count(), 0);
    assert_eq!(picker.item_count(), 3);
    let before = picker.viewport;
    assert_eq!(picker.handle_event_by_mode(key(KeyCode::Down)), EventResponse::UpdateUI);
    assert_eq!(picker.handle_event_by_mode(key(KeyCode::Up)), EventResponse::UpdateUI);
    assert_eq!(picker.handle_event_by_mode(key(KeyCode::Tab)), EventResponse::UpdateUI);
    assert_eq!(picker.viewport, before);
    assert_eq!(picker.current_item_text(), "");
    assert!(picker.selected_items().is_empty());
    picker.handle_event_by_mode(control('u'));
    settle(&mut picker);
    assert!(selected_flags(&picker).iter().all(|(_, selected)| !selected));
}

#[test]
fn escape_clears_the_query_and_leaves_only_when_it_is_empty() {
    let mut picker = fruit_picker();
    type_text(&mut picker, "gr");
    assert_eq!(picker.handle_event_by_mode(key(KeyCode::Esc)), EventResponse::UpdateUI);
    assert!(picker.query_is_empty());
    assert_eq!(picker.query.position(), 0);
    assert_eq!(picker.mode, PickerMode::Search);
    settle(&mut picker);
    assert_eq!(picker.matched_item_count(), 3);
    assert_eq!(picker.handle_event_by_mode(key(KeyCode::Esc)), EventResponse::ExitProgram);
}

#[test]
fn interrupt_leaves_from_every_mode() {
    let mut picker = fruit_picker();
    assert_eq!(picker.handle_event_by_mode(control('c')), EventResponse::ExitProgram);
    picker.handle_event_by_mode(control('n'));
    assert_eq!(picker.mode, PickerMode::Editing);
    assert_eq!(picker.handle_event_by_mode(control('c')), EventResponse::ExitProgram);
    picker.enter_help_mode();
    assert_eq!(picker.mode, PickerMode::Help);
    assert_eq!(picker.handle_event_by_mode(control('c')), EventResponse::ExitProgram);
    assert_eq!(picker.dispatch(control('c')), LoopAction::Exit);
}

#[test]
fn help_is_closed_by_escape() {
    let mut picker = fruit_picker();
    picker.enter_help_mode();
    assert_eq!(picker.handle_event_by_mode(key(KeyCode::Down)), EventResponse::NoAction);
    assert_eq!(picker.viewport.current_index, 0);
    assert_eq!(picker.handle_event_by_mode(key(KeyCode::Char('x'))), EventResponse::NoAction);
    assert!(picker.query_is_empty());
    assert_eq!(picker.handle_event_by_mode(key(KeyCode::Esc)), EventResponse::UpdateUI);
    assert_eq!(picker.mode, PickerMode::Search);
    picker.enter_help_mode();
    picker.exit_help_mode();
    assert_eq!(picker.mode, PickerMode::Search);
}

#[test]
fn navigation_wraps_by_default_and_clamps_when_configured() {
    let mut picker = fruit_picker();
    picker.handle_event_by_mode(key(KeyCode::Up));
    assert_eq!(picker.viewport.current_index, 2);
    picker.handle_event_by_mode(key(KeyCode::Down));
    assert_eq!(picker.viewport.current_index, 0);
    let mut config = Config::default();
    config.wrap_around = Some(false);
    let mut picker = picker_of(&["apple", "banana", "grape"], config);
    picker.handle_event_by_mode(key(KeyCode::Up));
    assert_eq!(picker.viewport.current_index, 0);
    picker.handle_event_by_mode(key(KeyCode::End));
    assert_eq!(picker.viewport.current_index, 2);
    picker.handle_event_by_mode(key(KeyCode::Down));
    assert_eq!(picker.viewport.current_index, 2);
    picker.handle_event_by_mode(key(KeyCode::Home));
    assert_eq!(picker.viewport.current_index, 0);
    assert_eq!(picker.set_current_index(-1, None), 0);
    assert_eq!(picker.set_current_index(-1, Some(true)), 2);
    assert_eq!(picker.set_current_index(7, Some(true)), 0);
    assert_eq!(picker.set_current_index(7, None), 2);
    assert_eq!(picker.set_current_index(1, None), 1);
}

#[test]
fn window_follows_the_current_index() {
    let names: Vec<String> = (0..30).map(|i| format!("entry{:02}", i)).collect();
    let refs: Vec<&str> = names.iter().map(|s| s.as_str()).collect();
    let mut picker = picker_of(&refs, Config::default());
    picker.update_height(5);
    assert_eq!(matched_texts(&picker).len(), 5);
    picker.handle_event_by_mode(key(KeyCode::PageDown));
    assert_eq!(picker.viewport.current_index, 4);
    picker.handle_event_by_mode(key(KeyCode::PageDown));
    assert_eq!(picker.viewport.current_index, 9);
    assert_eq!(picker.first_visible_item_index(), 5);
    assert_eq!(picker.last_visible_item_index(), 9);
    assert_eq!(picker.visible_item_range(), Some((5, 9)));
    assert_eq!(
        matched_texts(&picker),
        vec!["entry05", "entry06", "entry07", "entry08", "entry09"]
    );
    picker.handle_event_by_mode(key(KeyCode::PageUp));
    assert_eq!(picker.viewport.current_index, 5);
    picker.set_item_window(20, false);
    assert_eq!(picker.first_visible_item_index(), 16);
    assert_eq!(picker.viewport.current_index, 5);
    picker.update_height(2);
    assert_eq!(picker.first_visible_item_index(), 5);
    assert_eq!(picker.visible_item_range(), Some((5, 6)));
}

#[test]
fn index_is_brought_back_when_the_list_shrinks() {
    let mut picker = fruit_picker();
    picker.handle_event_by_mode(key(KeyCode::End));
    assert_eq!(picker.viewport.current_index, 2);
    picker.query.set_text("apple");
    picker.query_changed(TextChange::Rewritten);
    picker.set_current_index(2, Some(false));
    assert_eq!(picker.viewport.current_index, 2);
    settle(&mut picker);
    assert_eq!(picker.matched_item_count(), 1);
    assert_eq!(picker.viewport.current_index, 0);
    assert_eq!(picker.current_item_text(), "apple");
}

#[test]
fn tab_flips_the_selection_and_moves_down() {
    let mut picker = fruit_picker();
    assert_eq!(picker.handle_event_by_mode(key(KeyCode::Tab)), EventResponse::UpdateUI);
    assert_eq!(picker.viewport.current_index, 1);
    picker.handle_event_by_mode(key(KeyCode::Tab));
    assert_eq!(picker.viewport.current_index, 2);
    assert_eq!(
        selected_flags(&picker),
        vec![
            ("apple".to_string(), true),
            ("banana".to_string(), true),
            ("grape".to_string(), false),
        ]
    );
    let selected = picker.selected_items();
    assert_eq!(selected.existing_values(), vec![&"apple".to_string(), &"banana".to_string()]);
    picker.handle_event_by_mode(key(KeyCode::Home));
    picker.handle_event_by_mode(key(KeyCode::Tab));
    assert_eq!(picker.selected_items().existing_values(), vec![&"banana".to_string()]);
}

#[test]
fn click_flips_the_selection_of_the_entry_on_that_row() {
    let mut picker = fruit_picker();
    let none = KeyModifiers::none();
    let click = |row: u16| InputEvent::Mouse { kind: MouseKind::LeftDown, row, modifiers: none };
    assert_eq!(picker.handle_event_by_mode(click(6)), EventResponse::UpdateUI);
    assert_eq!(picker.handle_event_by_mode(click(4)), EventResponse::UpdateUI);
    assert_eq!(picker.handle_event_by_mode(click(8)), EventResponse::UpdateUI);
    assert_eq!(
        selected_flags(&picker),
        vec![
            ("apple".to_string(), false),
            ("banana".to_string(), true),
            ("grape".to_string(), false),
        ]
    );
    assert_eq!(picker.viewport.current_index, 0);
    let middle = InputEvent::Mouse { kind: MouseKind::MiddleDown, row: 0, modifiers: none };
    assert_eq!(picker.handle_event_by_mode(middle), EventResponse::UpdateUI);
    assert!(selected_flags(&picker)[0].1);
    picker.handle_event_by_mode(click(6));
    assert!(!selected_flags(&picker)[1].1);
}

#[test]
fn scrolling_navigates_and_honours_inversion() {
    let none = KeyModifiers::none();
    let scroll_down = InputEvent::Mouse { kind: MouseKind::ScrollDown, row: 0, modifiers: none };
    let scroll_up = InputEvent::Mouse { kind: MouseKind::ScrollUp, row: 0, modifiers: none };
    let mut picker = fruit_picker();
    assert_eq!(picker.handle_event_by_mode(scroll_down), EventResponse::UpdateUI);
    assert_eq!(picker.viewport.current_index, 1);
    picker.handle_event_by_mode(scroll_up);
    assert_eq!(picker.viewport.current_index, 0);
    let mut config = Config::default();
    config.invert_scroll = Some(true);
    let mut picker = picker_of(&["apple", "banana", "grape"], config);
    picker.handle_event_by_mode(scroll_up);
    assert_eq!(picker.viewport.current_index, 1);
    picker.handle_event_by_mode(scroll_down);
    assert_eq!(picker.viewport.current_index, 0);
}

#[test]
fn query_is_edited_at_the_cursor() {
    let mut picker = fruit_picker();
    type_text(&mut picker, "hello world");
    picker.handle_event_by_mode(key(KeyCode::Left));
    picker.handle_event_by_mode(key(KeyCode::Backspace));
    assert_eq!(picker.query_text(), "hello word");
    assert_eq!(picker.query.position(), 9);
    picker.handle_event_by_mode(control('a'));
    assert_eq!(picker.query.position(), 0);
    picker.handle_event_by_mode(key(KeyCode::Backspace));
    assert_eq!(picker.query_text(), "hello word");
    picker.handle_event_by_mode(InputEvent::Key {
        code: KeyCode::Right,
        modifiers: KeyModifiers::only_alt(),
    });
    assert_eq!(picker.query.position(), 5);
    picker.handle_event_by_mode(control('k'));
    assert_eq!(picker.query_text(), "hello");
    picker.handle_event_by_mode(key(KeyCode::Right));
    picker.handle_event_by_mode(key(KeyCode::Right));
    assert_eq!(picker.query.position(), 5);
    type_text(&mut picker, " you");
    picker.handle_event_by_mode(InputEvent::Key {
        code: KeyCode::Backspace,
        modifiers: KeyModifiers::only_control(),
    });
    assert_eq!(picker.query_text(), "hello ");
    picker.handle_event_by_mode(control('a'));
    picker.handle_event_by_mode(InputEvent::Key {
        code: KeyCode::Delete,
        modifiers: KeyModifiers::only_control(),
    });
    assert_eq!(picker.query_text(), " ");
    picker.handle_event_by_mode(control('e'));
    assert_eq!(picker.query.position(), 1);
    picker.handle_event_by_mode(InputEvent::Key {
        code: KeyCode::Left,
        modifiers: KeyModifiers::only_control(),
    });
    assert_eq!(picker.query.position(), 0);
    picker.handle_event_by_mode(control('u'));
    assert!(picker.query_is_empty());
}

#[test]
fn cursor_moves_alone_do_not_reset_the_current_index() {
    let mut picker = fruit_picker();
    type_text(&mut picker, "a");
    settle(&mut picker);
    picker.next();
    assert_eq!(picker.viewport.current_index, 1);
    picker.handle_event_by_mode(key(KeyCode::Left));
    picker.handle_event_by_mode(key(KeyCode::Right));
    picker.handle_event_by_mode(control('a'));
    picker.handle_event_by_mode(key(KeyCode::Backspace));
    assert_eq!(picker.viewport.current_index, 1);
    picker.handle_event_by_mode(control('e'));
    picker.handle_event_by_mode(key(KeyCode::Backspace));
    assert_eq!(picker.viewport.current_index, 0);
}

#[test]
fn word_jump_differs_between_the_two_buffers() {
    let mut picker = fruit_picker();
    type_text(&mut picker, "foo/bar");
    picker.handle_event_by_mode(control('a'));
    picker.jump_word_forward();
    assert_eq!(picker.query.position(), 7);
    picker.handle_event_by_mode(control('u'));
    picker.handle_event_by_mode(control('n'));
    type_text(&mut picker, "foo/bar");
    picker.handle_event_by_mode(control('a'));
    picker.jump_word_forward_editing();
    assert_eq!(picker.editing.position(), 3);
    picker.handle_event_by_mode(control('e'));
    picker.jump_word_backward_editing();
    assert_eq!(picker.editing.position(), 4);
}

#[test]
fn edited_text_is_edited_at_the_cursor() {
    let mut picker = fruit_picker();
    picker.handle_event_by_mode(control('n'));
    type_text(&mut picker, "src/main.rs");
    let shift = KeyModifiers::only_shift();
    picker.handle_event_by_mode(InputEvent::Key { code: KeyCode::Backspace, modifiers: shift });
    assert_eq!(picker.editing_text(), "src/");
    type_text(&mut picker, "lib.rs");
    picker.handle_event_by_mode(key(KeyCode::Home));
    picker.handle_event_by_mode(key(KeyCode::Delete));
    assert_eq!(picker.editing_text(), "rc/lib.rs");
    picker.handle_event_by_mode(InputEvent::Key { code: KeyCode::Delete, modifiers: shift });
    assert_eq!(picker.editing_text(), "/lib.rs");
    picker.handle_event_by_mode(key(KeyCode::Right));
    picker.handle_event_by_mode(control('k'));
    assert_eq!(picker.editing_text(), "/");
    picker.handle_event_by_mode(key(KeyCode::Left));
    picker.handle_event_by_mode(key(KeyCode::Left));
    assert_eq!(picker.editing.position(), 0);
    picker.handle_event_by_mode(key(KeyCode::End));
    assert_eq!(picker.editing.position(), 1);
    picker.handle_event_by_mode(key(KeyCode::Backspace));
    assert_eq!(picker.editing_text(), "");
    type_text(&mut picker, "x");
    picker.handle_event_by_mode(control('u'));
    assert_eq!(picker.editing_text(), "");
    assert_eq!(picker.mode, PickerMode::Editing);
    assert_eq!(picker.handle_event_by_mode(key(KeyCode::PageDown)), EventResponse::NoAction);
    let none = KeyModifiers::none();
    let scroll = InputEvent::Mouse { kind: MouseKind::ScrollDown, row: 0, modifiers: none };
    assert_eq!(picker.handle_event_by_mode(scroll), EventResponse::NoAction);
    assert_eq!(picker.viewport.current_index, 0);
}

#[test]
fn suggestions_follow_the_edited_text() {
    let mut picker = fruit_picker();
    picker.set_autocomplete(Box::new(Continuations));
    picker.handle_event_by_mode(control('n'));
    assert!(picker.autocomplete_suggestions.is_empty());
    type_text(&mut picker, "x");
    assert_eq!(picker.autocomplete_suggestions.len(), 3);
    assert_eq!(picker.autocomplete_index, 0);
    picker.handle_event_by_mode(key(KeyCode::Up));
    assert_eq!(picker.autocomplete_index, 0);
    picker.handle_event_by_mode(key(KeyCode::Down));
    picker.handle_event_by_mode(key(KeyCode::Down));
    assert_eq!(picker.autocomplete_index, 2);
    picker.handle_event_by_mode(key(KeyCode::Down));
    assert_eq!(picker.autocomplete_index, 2);
    picker.handle_event_by_mode(key(KeyCode::Up));
    assert_eq!(picker.autocomplete_index, 1);
    assert_eq!(picker.handle_event_by_mode(key(KeyCode::Tab)), EventResponse::UpdateUI);
    assert_eq!(picker.editing_text(), "x/b");
    assert_eq!(picker.editing.position(), 3);
    assert_eq!(picker.autocomplete_index, 0);
    assert_eq!(picker.autocomplete_suggestions.get(2).map(|s| s.text()), Some("x/b/c".to_string()));
    picker.handle_event_by_mode(key(KeyCode::Tab));
    assert_eq!(picker.editing_text(), "x/b/a");
    picker.handle_event_by_mode(key(KeyCode::Down));
    picker.handle_event_by_mode(key(KeyCode::Backspace));
    assert_eq!(picker.autocomplete_index, 0);
    picker.handle_event_by_mode(control('u'));
    assert!(picker.autocomplete_suggestions.is_empty());
    picker.handle_event_by_mode(key(KeyCode::Tab));
    assert_eq!(picker.editing_text(), "");
    picker.handle_event_by_mode(key(KeyCode::Down));
    assert_eq!(picker.autocomplete_index, 0);
    type_text(&mut picker, "y");
    picker.handle_event_by_mode(key(KeyCode::Esc));
    assert!(picker.autocomplete_suggestions.is_empty());
    assert_eq!(picker.autocomplete_index, 0);
}

#[test]
fn without_autocomplete_there_are_no_suggestions() {
    let mut picker = fruit_picker();
    picker.handle_event_by_mode(control('n'));
    type_text(&mut picker, "x");
    assert!(picker.autocomplete_suggestions.is_empty());
    assert_eq!(picker.handle_event_by_mode(key(KeyCode::Tab)), EventResponse::UpdateUI);
    assert_eq!(picker.editing_text(), "x");
}

#[test]
fn preview_is_planned_for_the_highlighted_entry() {
    let mut picker = picker_of(&["alpha beta", "gamma delta"], Config::default());
    assert!(picker.take_pending_preview().is_none());
    picker.next();
    assert!(picker.take_pending_preview().is_none());
    picker.set_preview_command("echo {2} {}".to_string());
    assert!(picker.has_preview());
    picker.update_preview();
    let command = picker.take_pending_preview().unwrap();
    assert_eq!(command.program, "echo");
    assert_eq!(command.args, vec!["delta", "gamma delta"]);
    assert!(picker.take_pending_preview().is_none());
    picker.previous();
    let command = picker.take_pending_preview().unwrap();
    assert_eq!(command.args, vec!["beta", "alpha beta"]);
    picker.show_preview_output(b"beta alpha beta\n".to_vec(), Vec::new());
    assert_eq!(picker.preview_output(), "beta alpha beta\n");
    picker.show_preview_error("not found");
    assert_eq!(picker.preview_output(), "Error executing preview command: not found");
    type_text(&mut picker, "g");
    assert!(picker.take_pending_preview().is_some());
}

#[test]
fn preview_is_emptied_when_there_is_nothing_to_run() {
    let mut picker = picker_of(&["alpha beta"], Config::default());
    picker.set_preview_command("echo {}".to_string());
    picker.show_preview_output(b"old".to_vec(), Vec::new());
    type_text(&mut picker, "zzz");
    settle(&mut picker);
    picker.update_preview();
    assert!(picker.take_pending_preview().is_none());
    assert_eq!(picker.preview_output(), "");
    let mut picker = picker_of(&["alpha beta"], Config::default());
    picker.set_preview_command("echo 'unclosed".to_string());
    picker.show_preview_output(b"old".to_vec(), Vec::new());
    picker.update_preview();
    assert!(picker.take_pending_preview().is_none());
    assert_eq!(picker.preview_output(), "");
}

#[test]
fn loop_draws_first_and_then_on_request() {
    let mut picker: Picker<String> = Picker::new(true);
    assert!(picker.begin_iteration());
    assert!(!picker.begin_iteration());
    picker.push(SelectableItem::new("apple".to_string()));
    let mut asked = false;
    for _ in 0..200 {
        let status = picker.advance(10);
        if status.changed || status.running {
            assert!(picker.redraw_requested);
            asked = true;
        }
        if picker.item_count() == 1 {
            break;
        }
    }
    assert!(asked);
    assert!(picker.begin_iteration());
    settle(&mut picker);
    assert!(!picker.begin_iteration());
    let status = picker.advance(10);
    assert!(!status.changed && !status.running);
    assert!(!picker.begin_iteration());
    assert_eq!(picker.dispatch(InputEvent::Other), LoopAction::Continue);
    assert!(!picker.begin_iteration());
    assert_eq!(picker.dispatch(key(KeyCode::Down)), LoopAction::Continue);
    assert!(picker.begin_iteration());
    assert_eq!(picker.dispatch(key(KeyCode::Enter)), LoopAction::ReturnSelection);
    assert_eq!(picker.dispatch(key(KeyCode::Esc)), LoopAction::Exit);
    assert!(!picker.begin_iteration());
}

#[test]
fn default_session_can_be_edited() {
    let picker: Picker<String> = Picker::default();
    assert!(picker.editable);
    assert_eq!(picker.mode, PickerMode::Search);
    assert!(picker.query_is_empty());
}

#[test]
fn edited_text_makes_a_selected_requested_entry() {
    let mut picker: Picker<String> = Picker::new(true);
    picker.enter_editing_mode(String::new());
    assert!(picker.item_from_editing_text().is_none());
    type_text(&mut picker, "foo/bar");
    let item = picker.item_from_editing_text().unwrap();
    assert!(item.is_requested());
    assert!(item.is_selected());
    assert_eq!(item.requested_value(), Some(&"foo/bar".to_string()));
}

#[test]
fn highlighted_index_is_the_current_index_of_a_list_with_entries() {
    let mut picker = fruit_picker();
    assert_eq!(picker.highlighted_index(), Some(0));
    picker.next();
    assert_eq!(picker.highlighted_index(), Some(1));
    type_text(&mut picker, "zzz");
    settle(&mut picker);
    assert_eq!(picker.highlighted_index(), None);
    let empty: Picker<String> = Picker::new(true);
    assert_eq!(empty.highlighted_index(), None);
}

#[test]
fn toggling_leaves_the_session_as_it_is() {
    let mut picker = fruit_picker();
    picker.set_preview_command("echo {}".to_string());
    picker.show_preview_output(b"shown".to_vec(), Vec::new());
    picker.next();
    let viewport = picker.viewport;
    let pending = picker.take_pending_preview().map(|command| command.args);
    assert_eq!(pending, Some(vec!["banana".to_string()]));
    picker.toggle_selected();
    picker.handle_item_click(5);
    assert_eq!(picker.viewport, viewport);
    assert_eq!(picker.preview_output(), "shown");
    assert!(picker.take_pending_preview().is_none());
    assert!(picker.query_is_empty());
    assert_eq!(picker.mode, PickerMode::Search);
    assert_eq!(picker.matched_item_count(), 3);
    assert_eq!(
        selected_flags(&picker),
        vec![
            ("apple".to_string(), true),
            ("banana".to_string(), true),
            ("grape".to_string(), false),
        ]
    );
}

#[test]
fn navigation_on_an_empty_matched_set_leaves_the_preview() {
    let mut picker = picker_of(&["alpha beta"], Config::default());
    picker.set_preview_command("echo {}".to_string());
    type_text(&mut picker, "zzz");
    settle(&mut picker);
    assert_eq!(picker.matched_item_count(), 0);
    picker.take_pending_preview();
    picker.show_preview_output(b"kept".to_vec(), Vec::new());
    picker.next();
    picker.previous();
    picker.next_page();
    picker.previous_page();
    picker.home();
    picker.end();
    assert_eq!(picker.preview_output(), "kept");
    assert!(picker.take_pending_preview().is_none());
    assert_eq!(picker.viewport.current_index, 0);
    assert_eq!(picker.viewport.first_visible_index, 0);
}

#[test]
fn cursor_moves_and_edits_of_the_edited_text_leave_the_preview() {
    let mut picker = picker_of(&["alpha beta"], Config::default());
    picker.set_preview_command("echo {}".to_string());
    picker.show_preview_output(b"kept".to_vec(), Vec::new());
    type_text(&mut picker, "al");
    assert!(picker.take_pending_preview().is_some());
    picker.handle_event_by_mode(key(KeyCode::Left));
    picker.handle_event_by_mode(control('a'));
    picker.handle_event_by_mode(control('e'));
    assert!(picker.take_pending_preview().is_none());
    picker.handle_event_by_mode(control('n'));
    type_text(&mut picker, "x y");
    picker.handle_event_by_mode(key(KeyCode::Backspace));
    picker.handle_event_by_mode(key(KeyCode::Esc));
    assert!(picker.take_pending_preview().is_none());
    assert_eq!(picker.preview_output(), "kept");
}

#[test]
fn typing_resets_index_and_window_whatever_the_wrapping() {
    for wrap in [true, false] {
        let names: Vec<String> = (0..30).map(|i| format!("entry{:02}", i)).collect();
        let refs: Vec<&str> = names.iter().map(|s| s.as_str()).collect();
        let mut config = Config::default();
        config.wrap_around = Some(wrap);
        let mut picker = picker_of(&refs, config);
        picker.update_height(5);
        picker.set_current_index(12, None);
        assert_eq!(picker.viewport.current_index, 12);
        assert_eq!(picker.viewport.first_visible_index, 8);
        type_text(&mut picker, "et");
        picker.handle_event_by_mode(key(KeyCode::Left));
        picker.set_current_index(12, None);
        picker.handle_event_by_mode(key(KeyCode::Char('n')));
        assert_eq!(picker.query_text(), "ent");
        assert_eq!(picker.query.position(), 2);
        assert_eq!(picker.viewport.current_index, 0);
        assert_eq!(picker.viewport.first_visible_index, 0);
    }
}

#[test]
fn keep_colors_is_a_setting() {
    let mut picker: Picker<String> = Picker::new(false);
    assert!(!picker.keep_colors());
    picker.set_keep_colors(true);
    assert!(picker.keep_colors());
}
