//! Search mode: the query, the navigation of the list, the selection and the preview.

use crate::engine::matched_entry;
use crate::engine::reparse_query;
use crate::event::decode_search_event;
use crate::event::search_command;
use crate::event::EventResponse;
use crate::event::InputEvent;
use crate::event::SearchCommand;
use crate::picker::search_response;
use crate::picker::Picker;
use crate::preview::is_plan_for;
use crate::preview::plan_preview;
use crate::preview::preview_error_text;
use crate::preview::preview_text;
use crate::preview::render_preview;
use crate::preview::render_preview_error;
use crate::preview::PreviewCommand;
use crate::selectable::entry_text;
use crate::selectable::SelectableItem;
use crate::selected_items::selection_of;
use crate::selected_items::SelectedItems;
use crate::text_buffer::TextChange;
use crate::viewport::last_index;
use std::fmt::Display;
use vstd::prelude::*;

verus! {

impl<T: Sync + Send + Display + 'static> Picker<T> {
    /// Handles an event in search mode: does what the event is bound to and says what
    /// the loop has to do.
    pub fn search_mode_handle_event(&mut self, event: InputEvent) -> (r: EventResponse)
        ensures
            r == search_response(
                search_command(event, old(self)@.invert_scroll),
                old(self)@.query.text.len() == 0,
            ),
            final(self)@ == old(self)@.after_search(
                search_command(event, old(self)@.invert_scroll),
                final(self)@.editing.text,
            ),
            final(self).preview_follows(
                old(self),
                old(self)@.search_plans_preview(search_command(event, old(self)@.invert_scroll)),
            ),
    {
        let command = decode_search_event(event, self.config.invert_scroll());
        self.apply_search_command(command)
    }

    /// Carries out a command of search mode and says what the loop has to do.
    pub fn apply_search_command(&mut self, command: SearchCommand) -> (r: EventResponse)
        ensures
            r == search_response(command, old(self)@.query.text.len() == 0),
            final(self)@ == old(self)@.after_search(command, final(self)@.editing.text),
            final(self).preview_follows(old(self), old(self)@.search_plans_preview(command)),
    {
        match command {
            SearchCommand::Insert(_) | SearchCommand::Backspace | SearchCommand::DeleteWordBackward
            | SearchCommand::DeleteWordForward | SearchCommand::DeleteToEnd
            | SearchCommand::ClearQuery | SearchCommand::Escape => self.apply_query_edit(command),
            SearchCommand::MoveLeft | SearchCommand::MoveRight | SearchCommand::MoveHome
            | SearchCommand::MoveEnd | SearchCommand::JumpWordBackward
            | SearchCommand::JumpWordForward => self.apply_cursor_move(command),
            SearchCommand::Next | SearchCommand::Previous | SearchCommand::NextPage
            | SearchCommand::PreviousPage | SearchCommand::Home | SearchCommand::End
            | SearchCommand::ToggleAndNext => self.apply_navigation(command),
            SearchCommand::Interrupt => EventResponse::ExitProgram,
            SearchCommand::Accept => EventResponse::ReturnSelectedItems,
            SearchCommand::ToggleCurrent => {
                self.toggle_selected();
                EventResponse::UpdateUI
            },
            SearchCommand::Click(row) => {
                self.handle_item_click(row);
                EventResponse::UpdateUI
            },
            SearchCommand::EditCurrent => {
                let text = self.current_item_text();
                self.enter_editing_mode(text);
                EventResponse::UpdateUI
            },
            SearchCommand::EditNew => {
                self.enter_editing_mode(String::new());
                EventResponse::UpdateUI
            },
            SearchCommand::Ignore => EventResponse::NoAction,
        }
    }

    /// Carries out a command that edits the text of the query.
    fn apply_query_edit(&mut self, command: SearchCommand) -> (r: EventResponse)
        requires
            command is Insert || command is Backspace || command is DeleteWordBackward
                || command is DeleteWordForward || command is DeleteToEnd
                || command is ClearQuery || command is Escape,
        ensures
            r == search_response(command, old(self)@.query.text.len() == 0),
            final(self)@ == old(self)@.after_search(command, final(self)@.editing.text),
            final(self).preview_follows(old(self), old(self)@.search_plans_preview(command)),
    {
        match command {
            SearchCommand::Insert(c) => {
                self.append_to_query(c);
                EventResponse::UpdateUI
            },
            SearchCommand::Backspace => {
                self.delete_from_query();
                EventResponse::UpdateUI
            },
            SearchCommand::DeleteWordBackward => {
                self.delete_word_backward();
                EventResponse::UpdateUI
            },
            SearchCommand::DeleteWordForward => {
                self.delete_word_forward();
                EventResponse::UpdateUI
            },
            SearchCommand::DeleteToEnd => {
                self.delete_to_end();
                EventResponse::UpdateUI
            },
            SearchCommand::ClearQuery => {
                self.clear_query();
                EventResponse::UpdateUI
            },
            _ => {
                if self.query_is_empty() {
                    self.query.move_home();
                    EventResponse::ExitProgram
                } else {
                    self.clear_query();
                    EventResponse::UpdateUI
                }
            },
        }
    }

    /// Carries out a command that moves the cursor of the query.
    fn apply_cursor_move(&mut self, command: SearchCommand) -> (r: EventResponse)
        requires
            command is MoveLeft || command is MoveRight || command is MoveHome || command is MoveEnd
                || command is JumpWordBackward || command is JumpWordForward,
        ensures
            r == search_response(command, old(self)@.query.text.len() == 0),
            final(self)@ == old(self)@.after_search(command, final(self)@.editing.text),
            final(self).preview_follows(old(self), old(self)@.search_plans_preview(command)),
    {
        match command {
            SearchCommand::MoveLeft => self.query.move_left(),
            SearchCommand::MoveRight => self.query.move_right(),
            SearchCommand::MoveHome => self.query.move_home(),
            SearchCommand::MoveEnd => self.query.move_end(),
            SearchCommand::JumpWordBackward => self.jump_word_backward(),
            _ => self.jump_word_forward(),
        }
        EventResponse::UpdateUI
    }

    /// Carries out a command that navigates the list.
    fn apply_navigation(&mut self, command: SearchCommand) -> (r: EventResponse)
        requires
            command is Next || command is Previous || command is NextPage
                || command is PreviousPage || command is Home || command is End
                || command is ToggleAndNext,
        ensures
            r == search_response(command, old(self)@.query.text.len() == 0),
            final(self)@ == old(self)@.after_search(command, final(self)@.editing.text),
            final(self).preview_follows(old(self), old(self)@.search_plans_preview(command)),
    {
        match command {
            SearchCommand::Next => self.next(),
            SearchCommand::Previous => self.previous(),
            SearchCommand::NextPage => self.next_page(),
            SearchCommand::PreviousPage => self.previous_page(),
            SearchCommand::Home => self.home(),
            SearchCommand::End => self.end(),
            _ => {
                self.toggle_selected();
                self.next();
            },
        }
        EventResponse::UpdateUI
    }

    /// Does what every change of the query's text asks for: the engine gets the new
    /// text, the current index goes back to the first entry without wrapping, and the
    /// preview is planned anew. `Appended` tells the engine that the text is the last
    /// one with one character more at its end. Where the text is what it was, nothing
    /// happens.
    pub fn query_changed(&mut self, change: TextChange)
        ensures
            change == TextChange::Unchanged ==> final(self)@ == old(self)@,
            change != TextChange::Unchanged ==> final(self)@ == old(self)@.with_viewport(
                old(self)@.viewport.moved_to(0, false, old(self)@.counts),
            ),
            final(self).query == old(self).query,
            final(self).preview_follows(old(self), change != TextChange::Unchanged),
    {
        let append = match change.append_hint() {
            Some(append) => append,
            None => {
                return ;
            },
        };
        let text = self.query.text();
        reparse_query(&mut self.matcher, text.as_str(), append);
        self.viewport.set_current_index(0, false, self.counts);
        self.update_preview();
    }

    /// Puts `key` into the query at the cursor. The engine gets the new text, and the
    /// current index and the window go back to the first entry, without wrapping.
    pub fn append_to_query(&mut self, key: char)
        ensures
            final(self)@ == old(self)@.with_query(old(self)@.query.inserted(key)),
            final(self).preview_follows(
                old(self),
                old(self)@.query.inserted(key).text.len() != old(self)@.query.text.len(),
            ),
            old(self)@.query.text.len() < usize::MAX ==> {
                &&& final(self)@.query.text == old(self)@.query.text.insert(
                    old(self)@.query.cursor,
                    key,
                )
                &&& final(self)@.viewport.current == 0
                &&& final(self)@.viewport.first == 0
            },
    {
        let change = self.query.insert(key);
        self.query_changed(change);
    }

    /// Removes the character before the cursor from the query.
    pub fn delete_from_query(&mut self)
        ensures
            final(self)@ == old(self)@.with_query(old(self)@.query.backspaced()),
            final(self).preview_follows(
                old(self),
                old(self)@.query.backspaced().text.len() != old(self)@.query.text.len(),
            ),
    {
        let change = self.query.backspace();
        self.query_changed(change);
    }

    /// Removes the word before the cursor from the query.
    pub fn delete_word_backward(&mut self)
        ensures
            final(self)@ == old(self)@.with_query(old(self)@.query.word_deleted_backward()),
            final(self).preview_follows(
                old(self),
                old(self)@.query.word_deleted_backward().text.len() != old(self)@.query.text.len(),
            ),
    {
        let change = self.query.delete_word_backward();
        self.query_changed(change);
    }

    /// Removes the word behind the cursor from the query.
    pub fn delete_word_forward(&mut self)
        ensures
            final(self)@ == old(self)@.with_query(old(self)@.query.word_deleted_forward()),
            final(self).preview_follows(
                old(self),
                old(self)@.query.word_deleted_forward().text.len() != old(self)@.query.text.len(),
            ),
    {
        let change = self.query.delete_word_forward();
        self.query_changed(change);
    }

    /// Removes everything from the cursor on from the query.
    pub fn delete_to_end(&mut self)
        ensures
            final(self)@ == old(self)@.with_query(old(self)@.query.truncated()),
            final(self).preview_follows(
                old(self),
                old(self)@.query.truncated().text.len() != old(self)@.query.text.len(),
            ),
    {
        let change = self.query.delete_to_end();
        self.query_changed(change);
    }

    /// Empties the query.
    pub fn clear_query(&mut self)
        ensures
            final(self)@ == old(self)@.with_query(old(self)@.query.cleared()),
            final(self).preview_follows(
                old(self),
                old(self)@.query.cleared().text.len() != old(self)@.query.text.len(),
            ),
    {
        let change = self.query.clear();
        self.query_changed(change);
    }

    /// Moves the cursor of the query behind the next word.
    pub fn jump_word_forward(&mut self)
        ensures
            final(self)@ == old(self)@.with_query(old(self)@.query.word_forward()),
            final(self).preview_kept(old(self)),
    {
        self.query.jump_word_forward();
    }

    /// Moves the cursor of the query before the previous word.
    pub fn jump_word_backward(&mut self)
        ensures
            final(self)@ == old(self)@.with_query(old(self)@.query.word_backward()),
            final(self).preview_kept(old(self)),
    {
        self.query.jump_word_backward();
    }

    /// Whether the query is empty.
    pub fn query_is_empty(&self) -> (r: bool)
        ensures
            r == (self@.query.text.len() == 0),
    {
        self.query.is_empty()
    }

    /// The text of the query.
    pub fn query_text(&self) -> (r: String)
        ensures
            r@ == self@.query.text,
    {
        self.query.text()
    }

    /// Moves one entry down, wrapping as configured, and plans the preview anew.
    /// Nothing happens when no entry matches.
    pub fn next(&mut self)
        ensures
            final(self)@ == old(self)@.with_viewport(
                old(self)@.viewport.after_next(old(self)@.wrap_around, old(self)@.counts),
            ),
            old(self)@.counts.matched_item_count == 0 ==> final(self)@ == old(self)@,
            old(self)@.counts.matched_item_count > 0 ==> final(self)@.viewport.in_range(
                final(self)@.counts,
            ),
            old(self)@.counts.matched_item_count == 0 ==> *final(self) == *old(self),
            old(self)@.counts.matched_item_count > 0 ==> final(self).preview_planned(old(self)),
    {
        if self.counts.matched_item_count == 0 {
            return ;
        }
        self.viewport.next(self.config.wrap_around(), self.counts);
        self.update_preview();
    }

    /// Moves one entry up, wrapping as configured, and plans the preview anew. Nothing
    /// happens when no entry matches.
    pub fn previous(&mut self)
        ensures
            final(self)@ == old(self)@.with_viewport(
                old(self)@.viewport.after_previous(old(self)@.wrap_around, old(self)@.counts),
            ),
            old(self)@.counts.matched_item_count == 0 ==> final(self)@ == old(self)@,
            old(self)@.counts.matched_item_count > 0 ==> final(self)@.viewport.in_range(
                final(self)@.counts,
            ),
            old(self)@.counts.matched_item_count == 0 ==> *final(self) == *old(self),
            old(self)@.counts.matched_item_count > 0 ==> final(self).preview_planned(old(self)),
    {
        if self.counts.matched_item_count == 0 {
            return ;
        }
        self.viewport.previous(self.config.wrap_around(), self.counts);
        self.update_preview();
    }

    /// Moves one page down, without wrapping, and plans the preview anew.
    pub fn next_page(&mut self)
        ensures
            final(self)@ == old(self)@.with_viewport(
                old(self)@.viewport.after_next_page(old(self)@.counts),
            ),
            old(self)@.counts.matched_item_count == 0 ==> final(self)@ == old(self)@,
            old(self)@.counts.matched_item_count > 0 ==> final(self)@.viewport.in_range(
                final(self)@.counts,
            ),
            old(self)@.counts.matched_item_count == 0 ==> *final(self) == *old(self),
            old(self)@.counts.matched_item_count > 0 ==> final(self).preview_planned(old(self)),
    {
        if self.counts.matched_item_count == 0 {
            return ;
        }
        self.viewport.next_page(self.counts);
        self.update_preview();
    }

    /// Moves one page up, without wrapping, and plans the preview anew.
    pub fn previous_page(&mut self)
        ensures
            final(self)@ == old(self)@.with_viewport(
                old(self)@.viewport.after_previous_page(old(self)@.counts),
            ),
            old(self)@.counts.matched_item_count == 0 ==> final(self)@ == old(self)@,
            old(self)@.counts.matched_item_count > 0 ==> final(self)@.viewport.in_range(
                final(self)@.counts,
            ),
            old(self)@.counts.matched_item_count == 0 ==> *final(self) == *old(self),
            old(self)@.counts.matched_item_count > 0 ==> final(self).preview_planned(old(self)),
    {
        if self.counts.matched_item_count == 0 {
            return ;
        }
        self.viewport.previous_page(self.counts);
        self.update_preview();
    }

    /// Moves to the first entry and plans the preview anew.
    pub fn home(&mut self)
        ensures
            final(self)@ == old(self)@.with_viewport(
                old(self)@.viewport.after_home(old(self)@.counts),
            ),
            old(self)@.counts.matched_item_count == 0 ==> final(self)@ == old(self)@,
            old(self)@.counts.matched_item_count > 0 ==> final(self)@.viewport.in_range(
                final(self)@.counts,
            ),
            old(self)@.counts.matched_item_count == 0 ==> *final(self) == *old(self),
            old(self)@.counts.matched_item_count > 0 ==> final(self).preview_planned(old(self)),
    {
        if self.counts.matched_item_count == 0 {
            return ;
        }
        self.viewport.home(self.counts);
        self.update_preview();
    }

    /// Moves to the last entry and plans the preview anew.
    pub fn end(&mut self)
        ensures
            final(self)@ == old(self)@.with_viewport(
                old(self)@.viewport.after_end(old(self)@.counts),
            ),
            old(self)@.counts.matched_item_count == 0 ==> final(self)@ == old(self)@,
            old(self)@.counts.matched_item_count > 0 ==> final(self)@.viewport.in_range(
                final(self)@.counts,
            ),
            old(self)@.counts.matched_item_count == 0 ==> *final(self) == *old(self),
            old(self)@.counts.matched_item_count > 0 ==> final(self).preview_planned(old(self)),
    {
        if self.counts.matched_item_count == 0 {
            return ;
        }
        self.viewport.end(self.counts);
        self.update_preview();
    }

    /// Moves the current index to the entry that `new_index` leads to, and the window
    /// with it. `new_index` may lie before the list or behind it; `wrap_around` says
    /// what then happens, and where it is `None` the configuration does. Returns the
    /// new current index.
    pub fn set_current_index(&mut self, new_index: i64, wrap_around: Option<bool>) -> (r: u32)
        ensures
            final(self)@ == old(self)@.with_viewport(
                old(self)@.viewport.moved_to(
                    new_index as int,
                    match wrap_around {
                        Some(wrap) => wrap,
                        None => old(self)@.wrap_around,
                    },
                    old(self)@.counts,
                ),
            ),
            r == final(self)@.viewport.current,
            final(self)@.viewport.in_range(final(self)@.counts),
            final(self)@.counts.matched_item_count > 0
                ==> r < final(self)@.counts.matched_item_count,
            final(self)@.viewport.first <= r <= final(self)@.viewport.first
                + final(self)@.viewport.height,
            final(self).preview_kept(old(self)),
    {
        let wrap = match wrap_around {
            Some(wrap) => wrap,
            None => self.config.wrap_around(),
        };
        self.viewport.set_current_index(new_index, wrap, self.counts)
    }

    /// Moves the window, if need be, so that it holds the entry that `new_index` leads
    /// to.
    pub fn set_item_window(&mut self, new_index: i64, wrap_around: bool)
        ensures
            final(self)@ == old(self)@.with_viewport(
                old(self)@.viewport.windowed(new_index as int, wrap_around, old(self)@.counts),
            ),
            final(self).preview_kept(old(self)),
    {
        self.viewport.set_item_window(new_index, wrap_around, self.counts);
    }

    /// Flips the selection of the entry that a click on terminal row `mouse_row` hits.
    /// A click above the list or below its last entry does nothing. The session itself
    /// is left as it is: the flag is a cell inside the entry, which the pool holds.
    pub fn handle_item_click(&mut self, mouse_row: u16)
        ensures
            *final(self) == *old(self),
            final(self)@ == old(self)@,
    {
        match self.viewport.click_target(mouse_row, self.counts) {
            Some(index) => match matched_entry(self.matcher.snapshot(), index) {
                Some(item) => item.toggle_selected(),
                None => {},
            },
            None => {},
        }
    }

    /// The index of the highlighted entry, or `None` when no entry matches.
    pub fn highlighted_index(&self) -> (r: Option<u32>)
        ensures
            self@.counts.matched_item_count == 0 ==> r is None,
            self@.counts.matched_item_count > 0 ==> r == Some(self.viewport.current_index),
    {
        if self.counts.matched_item_count == 0 {
            None
        } else {
            Some(self.viewport.current_index)
        }
    }

    /// Flips the selection of the highlighted entry. Nothing happens when no entry
    /// matches. The session itself is left as it is: the flag is a cell inside the
    /// entry, which the pool holds.
    pub fn toggle_selected(&mut self)
        ensures
            *final(self) == *old(self),
            final(self)@ == old(self)@,
    {
        match self.highlighted_index() {
            Some(index) => match matched_entry(self.matcher.snapshot(), index) {
                Some(item) => item.toggle_selected(),
                None => {},
            },
            None => {},
        }
    }

    /// The text that stands for the highlighted entry, or the empty text when no entry
    /// matches.
    pub fn current_item_text(&self) -> (r: String)
        ensures
            self@.counts.matched_item_count == 0 ==> r@.len() == 0,
    {
        match self.highlighted_index() {
            Some(index) => entry_text(matched_entry(self.matcher.snapshot(), index)),
            None => String::new(),
        }
    }

    /// Sets the template of the command that previews the highlighted entry.
    pub fn set_preview_command(&mut self, command: String)
        ensures
            final(self).preview_command == Some(command),
            final(self)@ == old(self)@,
    {
        self.preview_command = Some(command);
    }

    /// Whether a preview is configured.
    pub fn has_preview(&self) -> (r: bool)
        ensures
            r == self.preview_command.is_some(),
    {
        self.preview_command.is_some()
    }

    /// The text of the preview.
    pub fn preview_output(&self) -> (r: &str)
        ensures
            r@ == self.preview_output@,
    {
        self.preview_output.as_str()
    }

    /// Plans the preview of the highlighted entry. Where a preview is configured, the
    /// command that its template makes for the text of the highlighted entry becomes
    /// the pending one; where there is nothing to run, because no entry is
    /// highlighted or its text is empty or the template makes no command, the text of
    /// the preview is emptied and nothing is pending. Without a configured preview
    /// nothing happens.
    pub fn update_preview(&mut self)
        ensures
            final(self)@ == old(self)@,
            final(self).query == old(self).query,
            final(self).preview_planned(old(self)),
            old(self).preview_command is Some && old(self)@.counts.matched_item_count == 0
                ==> final(self).pending_preview is None,
    {
        let plan = match &self.preview_command {
            Some(template) => {
                let item_text = self.current_item_text();
                let plan = plan_preview(template.as_str(), item_text.as_str());
                assert(is_plan_for(plan, template@, item_text@));
                plan
            },
            None => {
                return ;
            },
        };
        if plan.is_none() {
            self.preview_output = String::new();
        }
        self.pending_preview = plan;
    }

    /// Hands out the command that is to be run for the preview, if one is pending.
    /// After the call none is.
    pub fn take_pending_preview(&mut self) -> (r: Option<PreviewCommand>)
        ensures
            r == old(self).pending_preview,
            final(self).pending_preview is None,
            final(self)@ == old(self)@,
    {
        self.pending_preview.take()
    }

    /// Shows what the command of the preview printed.
    pub fn show_preview_output(&mut self, stdout: Vec<u8>, stderr: Vec<u8>)
        ensures
            final(self).preview_output@ == preview_text(stdout@, stderr@),
            final(self)@ == old(self)@,
    {
        self.preview_output = render_preview(stdout, stderr);
    }

    /// Shows that the command of the preview could not be run.
    pub fn show_preview_error(&mut self, message: &str)
        ensures
            final(self).preview_output@ == preview_error_text(message@),
            final(self)@ == old(self)@,
    {
        self.preview_output = render_preview_error(message);
    }

    /// The index of the first entry in the window.
    pub fn first_visible_item_index(&self) -> (r: u32)
        ensures
            r == self@.viewport.first,
    {
        self.viewport.first_visible_item_index()
    }

    /// The index of the last entry in the window, which ends with the list at the
    /// latest.
    pub fn last_visible_item_index(&self) -> (r: u32)
        ensures
            r == self@.viewport.last_visible(self@.counts),
    {
        self.viewport.last_visible_item_index(self.counts)
    }

    /// The first and the last index of the entries to draw, or `None` where there is
    /// none.
    pub fn visible_item_range(&self) -> (r: Option<(u32, u32)>)
        ensures
            r is Some <==> self@.counts.matched_item_count > 0 && self@.viewport.first
                < self@.counts.matched_item_count,
            r matches Some((from, to)) ==> from == self@.viewport.first && to
                == self@.viewport.last_visible(self@.counts) && from <= to
                < self@.counts.matched_item_count,
    {
        self.viewport.visible_item_range(self.counts)
    }

    /// The entries to draw: those in the window, in the order of their rank. The range
    /// asked of the engine never reaches behind the matched entries.
    pub fn matched_items(&self) -> (r: Vec<&SelectableItem<T>>)
        ensures
            r@.len() <= self@.viewport.visible_count(self@.counts),
            self@.counts.matched_item_count == 0 ==> r@.len() == 0,
    {
        let mut items: Vec<&SelectableItem<T>> = Vec::new();
        match self.viewport.visible_item_range(self.counts) {
            Some((from, to)) => {
                let mut i: u32 = from;
                while i <= to
                    invariant
                        from <= i <= to + 1,
                        to < u32::MAX,
                        items@.len() <= i - from,
                    decreases to + 1 - i,
                {
                    match matched_entry(self.matcher.snapshot(), i) {
                        Some(item) => {
                            items.push(item);
                        },
                        None => {},
                    }
                    i += 1;
                }
            },
            None => {},
        }
        items
    }

    /// The entries that the session returns when the selection is accepted: the
    /// matched entries that are selected or, where none is, the highlighted entry
    /// alone. Empty when no entry matches.
    pub fn selected_items(&self) -> (r: SelectedItems<'_, T>)
        ensures
            exists|matched: Seq<&SelectableItem<T>>, flags: Seq<bool>|
                matched.len() == flags.len() && matched.len() <= self@.counts.matched_item_count
                    && r@ == #[trigger] selection_of(matched, flags, self@.viewport.current),
            self@.counts.matched_item_count == 0 ==> r@.len() == 0,
    {
        let mut matched: Vec<&SelectableItem<T>> = Vec::new();
        let mut flags: Vec<bool> = Vec::new();
        let mut i: u32 = 0;
        while i < self.counts.matched_item_count
            invariant
                i <= self.counts.matched_item_count,
                matched@.len() == flags@.len(),
                matched@.len() <= i,
            decreases self.counts.matched_item_count - i,
        {
            match matched_entry(self.matcher.snapshot(), i) {
                Some(item) => {
                    flags.push(item.is_selected());
                    matched.push(item);
                },
                None => {
                    break ;
                },
            }
            i += 1;
        }
        let ghost entries = matched@;
        let chosen = SelectedItems::choose_from(matched, &flags, self.viewport.current_index);
        assert(chosen@ == selection_of(entries, flags@, self@.viewport.current));
        proof {
            if self@.counts.matched_item_count == 0 {
                assert(entries.len() == 0);
            }
        }
        chosen
    }

    /// The index of the last matched entry, or zero when no entry matches.
    pub fn last_item_index(&self) -> (r: u32)
        ensures
            r == last_index(self@.counts.matched_item_count as int),
    {
        self.counts.last_item_index()
    }
}

} // verus!
