//! Editing mode: the text of a new entry is typed, with suggestions, and added to the
//! pool.

use crate::event::decode_edit_event;
use crate::event::edit_command;
use crate::event::EditCommand;
use crate::event::EventResponse;
use crate::event::InputEvent;
use crate::picker::edit_response;
use crate::picker::Picker;
use crate::picker::PickerState;
use crate::selectable::SelectableItem;
use std::fmt::Display;
use vstd::prelude::*;

verus! {

impl<T: Sync + Send + Display + 'static> Picker<T> {
    /// Handles an event in editing mode: does what the event is bound to and says what
    /// the loop has to do.
    pub fn editing_mode_handle_event(&mut self, event: InputEvent) -> (r: EventResponse)
        ensures
            r == edit_response(edit_command(event)),
            final(self)@ == old(self)@.after_edit(
                edit_command(event),
                final(self)@.editing.text,
                final(self)@.suggestions,
            ),
            final(self).preview_kept(old(self)),
            edit_command(event) == EditCommand::AcceptSuggestion && old(self)@.suggestion_index
                < old(self)@.suggestion_count() ==> old(self).highlighted_suggestion_shows(
                final(self)@.editing.text,
            ),
    {
        let command = decode_edit_event(event);
        self.apply_edit_command(command)
    }

    /// Carries out a command of editing mode and says what the loop has to do. After
    /// every command that changes the edited text the suggestions are asked for anew.
    pub fn apply_edit_command(&mut self, command: EditCommand) -> (r: EventResponse)
        ensures
            r == edit_response(command),
            final(self)@ == old(self)@.after_edit(
                command,
                final(self)@.editing.text,
                final(self)@.suggestions,
            ),
            final(self).preview_kept(old(self)),
            command == EditCommand::AcceptSuggestion && old(self)@.suggestion_index
                < old(self)@.suggestion_count() ==> old(self).highlighted_suggestion_shows(
                final(self)@.editing.text,
            ),
    {
        match command {
            EditCommand::Insert(c) => {
                self.append_to_editing_text(c);
                self.update_autocomplete_suggestions();
                EventResponse::UpdateUI
            },
            EditCommand::Backspace => {
                self.delete_from_editing_text();
                self.update_autocomplete_suggestions();
                EventResponse::UpdateUI
            },
            EditCommand::DeleteForward => {
                self.delete_forward_editing();
                self.update_autocomplete_suggestions();
                EventResponse::UpdateUI
            },
            EditCommand::DeleteWordBackward => {
                self.delete_word_backward_editing();
                self.update_autocomplete_suggestions();
                EventResponse::UpdateUI
            },
            EditCommand::DeleteWordForward => {
                self.delete_word_forward_editing();
                self.update_autocomplete_suggestions();
                EventResponse::UpdateUI
            },
            EditCommand::DeleteToEnd => {
                self.delete_to_end_of_line_editing();
                self.update_autocomplete_suggestions();
                EventResponse::UpdateUI
            },
            EditCommand::Clear => {
                self.clear_editing_text();
                self.update_autocomplete_suggestions();
                EventResponse::UpdateUI
            },
            EditCommand::MoveLeft => {
                self.editing.move_left();
                EventResponse::UpdateUI
            },
            EditCommand::MoveRight => {
                self.editing.move_right();
                EventResponse::UpdateUI
            },
            EditCommand::MoveHome => {
                self.editing.move_home();
                EventResponse::UpdateUI
            },
            EditCommand::MoveEnd => {
                self.editing.move_end();
                EventResponse::UpdateUI
            },
            EditCommand::JumpWordBackward => {
                self.jump_word_backward_editing();
                EventResponse::UpdateUI
            },
            EditCommand::JumpWordForward => {
                self.jump_word_forward_editing();
                EventResponse::UpdateUI
            },
            EditCommand::Commit => {
                self.create_item_from_editing_text();
                EventResponse::UpdateUI
            },
            EditCommand::Cancel => {
                self.exit_editing_mode();
                EventResponse::UpdateUI
            },
            EditCommand::Interrupt => EventResponse::ExitProgram,
            EditCommand::SuggestionUp => {
                self.previous_suggestion();
                EventResponse::UpdateUI
            },
            EditCommand::SuggestionDown => {
                self.next_suggestion();
                EventResponse::UpdateUI
            },
            EditCommand::AcceptSuggestion => {
                self.accept_suggestion();
                EventResponse::UpdateUI
            },
            EditCommand::Ignore => EventResponse::NoAction,
        }
    }

    /// Puts `key` into the edited text at the cursor.
    pub fn append_to_editing_text(&mut self, key: char)
        ensures
            final(self)@ == old(self)@.with_editing(old(self)@.editing.inserted(key)),
            final(self).preview_kept(old(self)),
    {
        self.editing.insert(key);
    }

    /// Removes the character before the cursor from the edited text.
    pub fn delete_from_editing_text(&mut self)
        ensures
            final(self)@ == old(self)@.with_editing(old(self)@.editing.backspaced()),
            final(self).preview_kept(old(self)),
    {
        self.editing.backspace();
    }

    /// Empties the edited text and drops the suggestions.
    pub fn clear_editing_text(&mut self)
        ensures
            final(self)@ == (PickerState {
                editing: old(self)@.editing.cleared(),
                suggestions: Seq::empty(),
                suggestion_index: 0,
                ..old(self)@
            }),
            final(self).preview_kept(old(self)),
    {
        self.editing.clear();
        self.autocomplete_suggestions.clear();
        self.autocomplete_index = 0;
    }

    /// The entry that the edited text makes: none where the text is empty, and
    /// otherwise an entry with that text, asked for by the user and selected.
    pub fn item_from_editing_text(&self) -> (r: Option<SelectableItem<T>>)
        ensures
            r is Some <==> self@.editing.text.len() > 0,
            r matches Some(item) ==> item.requested_text() == Some(self@.editing.text),
    {
        if self.editing.is_empty() {
            None
        } else {
            Some(SelectableItem::new_requested_selected(self.editing.text()))
        }
    }

    /// Adds the entry that the edited text makes to the pool, if it makes one, and
    /// leaves editing mode.
    pub fn create_item_from_editing_text(&mut self)
        ensures
            final(self)@ == old(self)@.editing_ended(),
            final(self).preview_kept(old(self)),
    {
        match self.item_from_editing_text() {
            Some(new_item) => self.push(new_item),
            None => {},
        }
        self.exit_editing_mode();
    }

    /// Removes the character at the cursor from the edited text.
    pub fn delete_forward_editing(&mut self)
        ensures
            final(self)@ == old(self)@.with_editing(old(self)@.editing.deleted_forward()),
            final(self).preview_kept(old(self)),
    {
        self.editing.delete_forward();
    }

    /// Removes everything from the cursor on from the edited text.
    pub fn delete_to_end_of_line_editing(&mut self)
        ensures
            final(self)@ == old(self)@.with_editing(old(self)@.editing.truncated()),
            final(self).preview_kept(old(self)),
    {
        self.editing.delete_to_end();
    }

    /// Removes the word before the cursor from the edited text.
    pub fn delete_word_backward_editing(&mut self)
        ensures
            final(self)@ == old(self)@.with_editing(old(self)@.editing.word_deleted_backward()),
            final(self).preview_kept(old(self)),
    {
        self.editing.delete_word_backward();
    }

    /// Removes the word behind the cursor from the edited text.
    pub fn delete_word_forward_editing(&mut self)
        ensures
            final(self)@ == old(self)@.with_editing(old(self)@.editing.word_deleted_forward()),
            final(self).preview_kept(old(self)),
    {
        self.editing.delete_word_forward();
    }

    /// Moves the cursor of the edited text behind the next word.
    pub fn jump_word_forward_editing(&mut self)
        ensures
            final(self)@ == old(self)@.with_editing(old(self)@.editing.word_forward()),
            final(self).preview_kept(old(self)),
    {
        self.editing.jump_word_forward();
    }

    /// Moves the cursor of the edited text before the previous word.
    pub fn jump_word_backward_editing(&mut self)
        ensures
            final(self)@ == old(self)@.with_editing(old(self)@.editing.word_backward()),
            final(self).preview_kept(old(self)),
    {
        self.editing.jump_word_backward();
    }

    /// The edited text.
    pub fn editing_text(&self) -> (r: String)
        ensures
            r@ == self@.editing.text,
    {
        self.editing.text()
    }

    /// Highlights the suggestion above the highlighted one, if there is one.
    pub fn previous_suggestion(&mut self)
        ensures
            final(self)@ == old(self)@.suggestion_up(),
            final(self).preview_kept(old(self)),
    {
        if !self.autocomplete_suggestions.is_empty() && self.autocomplete_index > 0 {
            self.autocomplete_index = self.autocomplete_index - 1;
        }
    }

    /// Highlights the suggestion below the highlighted one, if there is one.
    pub fn next_suggestion(&mut self)
        ensures
            final(self)@ == old(self)@.suggestion_down(),
            final(self).preview_kept(old(self)),
    {
        let count = self.autocomplete_suggestions.len();
        if count > 0 {
            if self.autocomplete_index < count - 1 {
                self.autocomplete_index = self.autocomplete_index + 1;
            } else {
                self.autocomplete_index = count - 1;
            }
        }
    }

    /// Takes the highlighted suggestion: its text becomes the edited text, with the
    /// cursor at its end, and the suggestions are asked for anew, for that text.
    /// Nothing happens where no suggestion is highlighted.
    pub fn accept_suggestion(&mut self)
        ensures
            final(self)@ == old(self)@.suggestion_accepted(
                final(self)@.editing.text,
                final(self)@.suggestions,
            ),
            final(self).preview_kept(old(self)),
            old(self)@.suggestion_index < old(self)@.suggestion_count()
                ==> old(self).highlighted_suggestion_shows(final(self)@.editing.text),
    {
        let text = match self.autocomplete_suggestions.get(self.autocomplete_index) {
            Some(suggestion) => suggestion.text(),
            None => {
                return ;
            },
        };
        self.editing.replace_text(text.as_str());
        self.update_autocomplete_suggestions();
    }
}

} // verus!
