//! The session: the pool behind the match engine, the viewport, the two buffers, the
//! mode, and the steps of the loop that drives them.

use crate::config::Config;
use crate::engine::new_matcher;
use crate::engine::push_entry;
use crate::engine::snapshot_counts;
use crate::engine::tick_matcher;
use crate::engine::TickStatus;
use crate::event::edit_command;
use crate::event::search_command;
use crate::event::EditCommand;
use crate::event::EventResponse;
use crate::event::InputEvent;
use crate::event::KeyCode;
use crate::event::SearchCommand;
use crate::preview::is_plan_for;
use crate::preview::PreviewCommand;
use crate::requested_items::RequestedItems;
use crate::selectable::SelectableItem;
use crate::text_buffer::BufferKind;
use crate::text_buffer::TextBuffer;
use crate::text_buffer::TextState;
use crate::text_buffer::lemma_edits_keep_the_cursor_in_the_text;
use crate::viewport::lemma_move_lands_in_range;
use crate::viewport::lemma_navigation_stays_in_range;
use crate::viewport::SnapshotCounts;
use crate::viewport::Viewport;
use crate::viewport::ViewportState;
use std::fmt::Display;
use vstd::prelude::*;

verus! {

/// The mode of a session. Exactly one is active at a time.
#[derive(Debug, Clone, Copy, PartialEq, Eq, Structural)]
pub enum PickerMode {
    /// The query is typed and the list is navigated.
    Search,
    /// The text of a new entry is typed.
    Editing,
    /// The help screen is shown.
    Help,
}

/// What the loop has to do after it handed an event to the session.
#[derive(Debug, Clone, Copy, PartialEq, Eq, Structural)]
pub enum LoopAction {
    /// Go on with the next iteration.
    Continue,
    /// Leave the loop and return no entry.
    Exit,
    /// Leave the loop and return the selection.
    ReturnSelection,
}

/// What suggests texts while an entry is edited. It is asked after every change of the
/// edited text, with that text.
pub trait Autocomplete: Send + Sync {
    fn suggestions(&self, text: &str) -> RequestedItems<String>;
}

/// A session.
#[verifier::reject_recursive_types(T)]
pub struct Picker<T: Sync + Send + 'static> {
    pub matcher: nucleo::Nucleo<SelectableItem<T>>,
    /// The sizes of the snapshot that the engine held after the last tick.
    pub counts: SnapshotCounts,
    pub viewport: Viewport,
    pub query: TextBuffer,
    pub mode: PickerMode,
    pub editing: TextBuffer,
    pub config: Config,
    pub preview_command: Option<String>,
    pub preview_output: String,
    /// The command that is to be run for the preview and has not been taken yet.
    pub pending_preview: Option<PreviewCommand>,
    pub keep_colors: bool,
    pub editable: bool,
    pub autocomplete: Option<Box<dyn Autocomplete>>,
    pub autocomplete_suggestions: RequestedItems<String>,
    pub autocomplete_index: usize,
    /// Whether the screen has to be drawn anew.
    pub redraw_requested: bool,
}

/// The state of a session as far as the session itself decides it: everything but the
/// pool behind the match engine, what suggests texts, and the preview, of which the
/// contracts speak apart (`preview_kept`, `preview_planned`).
#[verifier::ext_equal]
pub struct PickerState {
    pub mode: PickerMode,
    pub counts: SnapshotCounts,
    pub viewport: ViewportState,
    pub query: TextState,
    pub editing: TextState,
    /// The suggestions, in their order.
    pub suggestions: Seq<SelectableItem<String>>,
    /// The index of the highlighted suggestion.
    pub suggestion_index: int,
    /// Whether something suggests texts.
    pub has_autocomplete: bool,
    /// Whether navigation wraps around by default.
    pub wrap_around: bool,
    /// Whether scrolling is inverted.
    pub invert_scroll: bool,
    pub redraw_requested: bool,
    /// Whether colors are kept in the preview.
    pub keep_colors: bool,
    /// Whether entries can be added by editing.
    pub editable: bool,
    /// The settings that the session started with.
    pub config: Config,
}

impl PickerState {
    /// The number of suggestions.
    pub open spec fn suggestion_count(self) -> int {
        self.suggestions.len() as int
    }

    /// The state with another viewport.
    pub open spec fn with_viewport(self, viewport: ViewportState) -> PickerState {
        PickerState { viewport, ..self }
    }

    /// The state with the query buffer in another state. When the text of the query is
    /// another than before, the current index goes back to the first entry, without
    /// wrapping.
    pub open spec fn with_query(self, query: TextState) -> PickerState {
        if query.text.len() != self.query.text.len() {
            PickerState {
                query,
                viewport: self.viewport.moved_to(0, false, self.counts),
                ..self
            }
        } else {
            PickerState { query, ..self }
        }
    }

    /// The state with the edit buffer in another state.
    pub open spec fn with_editing(self, editing: TextState) -> PickerState {
        PickerState { editing, ..self }
    }

    /// The state after the suggestions were asked for anew: where something suggests
    /// texts, `suggestions` are what it answered and the first is highlighted; where
    /// nothing does, nothing changes.
    pub open spec fn with_new_suggestions(self, suggestions: Seq<SelectableItem<String>>)
        -> PickerState {
        if self.has_autocomplete {
            PickerState { suggestions, suggestion_index: 0, ..self }
        } else {
            self
        }
    }

    /// The state with the edit buffer in another state and the suggestions asked for
    /// anew.
    pub open spec fn with_edited_text(
        self,
        editing: TextState,
        suggestions: Seq<SelectableItem<String>>,
    ) -> PickerState {
        self.with_editing(editing).with_new_suggestions(suggestions)
    }

    /// The state in editing mode, with `text` to edit, the cursor at its start and no
    /// suggestion.
    pub open spec fn editing_started(self, text: Seq<char>) -> PickerState {
        PickerState {
            mode: PickerMode::Editing,
            editing: TextState { text, cursor: 0, kind: self.editing.kind },
            suggestions: Seq::empty(),
            suggestion_index: 0,
            ..self
        }
    }

    /// The state back in search mode, with nothing to edit and no suggestion.
    pub open spec fn editing_ended(self) -> PickerState {
        PickerState {
            mode: PickerMode::Search,
            editing: TextState { text: Seq::empty(), cursor: 0, kind: self.editing.kind },
            suggestions: Seq::empty(),
            suggestion_index: 0,
            ..self
        }
    }

    /// The state after a command of search mode. `seed` is the text that stands for the
    /// highlighted entry, which an edit of that entry starts from.
    pub open spec fn after_search(self, command: SearchCommand, seed: Seq<char>) -> PickerState {
        match command {
            SearchCommand::Insert(c) => self.with_query(self.query.inserted(c)),
            SearchCommand::Backspace => self.with_query(self.query.backspaced()),
            SearchCommand::DeleteWordBackward => self.with_query(self.query.word_deleted_backward()),
            SearchCommand::DeleteWordForward => self.with_query(self.query.word_deleted_forward()),
            SearchCommand::DeleteToEnd => self.with_query(self.query.truncated()),
            SearchCommand::ClearQuery => self.with_query(self.query.cleared()),
            SearchCommand::MoveLeft => self.with_query(self.query.moved_left()),
            SearchCommand::MoveRight => self.with_query(self.query.moved_right()),
            SearchCommand::MoveHome => self.with_query(self.query.at_start()),
            SearchCommand::MoveEnd => self.with_query(self.query.at_end()),
            SearchCommand::JumpWordBackward => self.with_query(self.query.word_backward()),
            SearchCommand::JumpWordForward => self.with_query(self.query.word_forward()),
            SearchCommand::Escape => self.with_query(self.query.cleared()),
            SearchCommand::Interrupt => self,
            SearchCommand::Accept => self,
            SearchCommand::Next => self.with_viewport(
                self.viewport.after_next(self.wrap_around, self.counts),
            ),
            SearchCommand::Previous => self.with_viewport(
                self.viewport.after_previous(self.wrap_around, self.counts),
            ),
            SearchCommand::NextPage => self.with_viewport(
                self.viewport.after_next_page(self.counts),
            ),
            SearchCommand::PreviousPage => self.with_viewport(
                self.viewport.after_previous_page(self.counts),
            ),
            SearchCommand::Home => self.with_viewport(self.viewport.after_home(self.counts)),
            SearchCommand::End => self.with_viewport(self.viewport.after_end(self.counts)),
            SearchCommand::ToggleAndNext => self.with_viewport(
                self.viewport.after_next(self.wrap_around, self.counts),
            ),
            SearchCommand::ToggleCurrent => self,
            SearchCommand::Click(_) => self,
            SearchCommand::EditCurrent => self.editing_started(seed),
            SearchCommand::EditNew => self.editing_started(Seq::empty()),
            SearchCommand::Ignore => self,
        }
    }

    /// Whether a command of search mode plans the preview anew: a command that changes
    /// the text of the query does, and so does a navigation of a list with entries.
    pub open spec fn search_plans_preview(self, command: SearchCommand) -> bool {
        match command {
            SearchCommand::Next | SearchCommand::Previous | SearchCommand::NextPage
            | SearchCommand::PreviousPage | SearchCommand::Home | SearchCommand::End
            | SearchCommand::ToggleAndNext => self.counts.matched_item_count > 0,
            _ => self.after_search(command, Seq::empty()).query.text.len()
                != self.query.text.len(),
        }
    }

    /// Whether an event plans the preview anew: only a command of search mode can.
    pub open spec fn event_plans_preview(self, event: InputEvent) -> bool {
        self.mode == PickerMode::Search && self.search_plans_preview(
            search_command(event, self.invert_scroll),
        )
    }

    /// Whether an event takes the highlighted suggestion: the command that does, in
    /// editing mode, with a suggestion highlighted.
    pub open spec fn event_accepts_suggestion(self, event: InputEvent) -> bool {
        &&& self.mode == PickerMode::Editing
        &&& edit_command(event) == EditCommand::AcceptSuggestion
        &&& 0 <= self.suggestion_index < self.suggestion_count()
    }

    /// The highlighted suggestion one up, where there are suggestions.
    pub open spec fn suggestion_up(self) -> PickerState {
        if self.suggestion_count() > 0 && self.suggestion_index > 0 {
            PickerState { suggestion_index: self.suggestion_index - 1, ..self }
        } else {
            self
        }
    }

    /// The highlighted suggestion one down, but not below the last, where there are
    /// suggestions.
    pub open spec fn suggestion_down(self) -> PickerState {
        if self.suggestion_count() > 0 {
            PickerState {
                suggestion_index: if self.suggestion_index + 1 < self.suggestion_count() {
                    self.suggestion_index + 1
                } else {
                    self.suggestion_count() - 1
                },
                ..self
            }
        } else {
            self
        }
    }

    /// The state after the highlighted suggestion, whose text is `text`, was taken: the
    /// edit buffer holds it, with the cursor at its end, and the suggestions were asked
    /// for anew. Nothing changes where no suggestion is highlighted.
    pub open spec fn suggestion_accepted(
        self,
        text: Seq<char>,
        suggestions: Seq<SelectableItem<String>>,
    ) -> PickerState {
        if 0 <= self.suggestion_index < self.suggestion_count() {
            self.with_edited_text(
                TextState { text, cursor: text.len() as int, kind: self.editing.kind },
                suggestions,
            )
        } else {
            self
        }
    }

    /// The state after a command of editing mode. `text` is the text of the highlighted
    /// suggestion and `suggestions` what a new request for suggestions brought.
    pub open spec fn after_edit(
        self,
        command: EditCommand,
        text: Seq<char>,
        suggestions: Seq<SelectableItem<String>>,
    ) -> PickerState {
        match command {
            EditCommand::Insert(c) => self.with_edited_text(self.editing.inserted(c), suggestions),
            EditCommand::Backspace => self.with_edited_text(self.editing.backspaced(), suggestions),
            EditCommand::DeleteForward => self.with_edited_text(
                self.editing.deleted_forward(),
                suggestions,
            ),
            EditCommand::DeleteWordBackward => self.with_edited_text(
                self.editing.word_deleted_backward(),
                suggestions,
            ),
            EditCommand::DeleteWordForward => self.with_edited_text(
                self.editing.word_deleted_forward(),
                suggestions,
            ),
            EditCommand::DeleteToEnd => self.with_edited_text(self.editing.truncated(), suggestions),
            EditCommand::Clear => (PickerState {
                editing: self.editing.cleared(),
                suggestions: Seq::empty(),
                suggestion_index: 0,
                ..self
            }).with_new_suggestions(suggestions),
            EditCommand::MoveLeft => self.with_editing(self.editing.moved_left()),
            EditCommand::MoveRight => self.with_editing(self.editing.moved_right()),
            EditCommand::MoveHome => self.with_editing(self.editing.at_start()),
            EditCommand::MoveEnd => self.with_editing(self.editing.at_end()),
            EditCommand::JumpWordBackward => self.with_editing(self.editing.word_backward()),
            EditCommand::JumpWordForward => self.with_editing(self.editing.word_forward()),
            EditCommand::Commit => self.editing_ended(),
            EditCommand::Cancel => self.editing_ended(),
            EditCommand::Interrupt => self,
            EditCommand::SuggestionUp => self.suggestion_up(),
            EditCommand::SuggestionDown => self.suggestion_down(),
            EditCommand::AcceptSuggestion => self.suggestion_accepted(text, suggestions),
            EditCommand::Ignore => self,
        }
    }

    /// What the loop is told after an event, by the mode that the session is in.
    pub open spec fn response_to(self, event: InputEvent) -> EventResponse {
        match self.mode {
            PickerMode::Search => search_response(
                search_command(event, self.invert_scroll),
                self.query.text.len() == 0,
            ),
            PickerMode::Editing => edit_response(edit_command(event)),
            PickerMode::Help => help_response(event),
        }
    }

    /// The state after an event, by the mode that the session is in. `text` and
    /// `suggestions` are what `after_search` and `after_edit` take them for.
    pub open spec fn after_event(
        self,
        event: InputEvent,
        text: Seq<char>,
        suggestions: Seq<SelectableItem<String>>,
    ) -> PickerState {
        match self.mode {
            PickerMode::Search => self.after_search(
                search_command(event, self.invert_scroll),
                text,
            ),
            PickerMode::Editing => self.after_edit(edit_command(event), text, suggestions),
            PickerMode::Help => if help_response(event) == EventResponse::UpdateUI {
                PickerState { mode: PickerMode::Search, ..self }
            } else {
                self
            },
        }
    }

    /// The current index lies in the list and in the window, the cursors lie in their
    /// texts, and the highlighted suggestion is one of the suggestions.
    pub open spec fn wf(self) -> bool {
        &&& self.viewport.in_range(self.counts)
        &&& 0 <= self.viewport.height
        &&& self.query.wf()
        &&& self.editing.wf()
        &&& 0 <= self.suggestion_index
        &&& self.suggestion_count() > 0 ==> self.suggestion_index < self.suggestion_count()
        &&& self.suggestion_count() == 0 ==> self.suggestion_index == 0
    }
}

/// A change of the query buffer that leaves the cursor in the text keeps the invariant
/// of the session.
pub proof fn lemma_query_change_keeps_the_invariant(before: PickerState, query: TextState)
    requires
        before.wf(),
        query.wf(),
    ensures
        before.with_query(query).wf(),
{
    lemma_move_lands_in_range(before.viewport, 0, false, before.counts);
}

/// A character typed into the query goes to the cursor, and the current index and the
/// window go back to the first entry, whether navigation wraps around or not. A query
/// that is as long as the machine can address takes no more characters.
pub proof fn lemma_typing_resets_the_index(before: PickerState, c: char, seed: Seq<char>)
    requires
        0 <= before.viewport.first,
        before.query.wf(),
        before.query.text.len() < usize::MAX,
    ensures
        before.after_search(SearchCommand::Insert(c), seed).query.text == before.query.text.insert(
            before.query.cursor,
            c,
        ),
        before.after_search(SearchCommand::Insert(c), seed).query.cursor == before.query.cursor
            + 1,
        before.after_search(SearchCommand::Insert(c), seed).viewport.current == 0,
        before.after_search(SearchCommand::Insert(c), seed).viewport.first == 0,
{
    assert(before.query.inserted(c).text.len() == before.query.text.len() + 1);
}

/// Any change of the text of the query brings the current index and the window back to
/// the first entry.
pub proof fn lemma_query_change_resets_the_index(before: PickerState, query: TextState)
    requires
        0 <= before.viewport.first,
        query.text.len() != before.query.text.len(),
    ensures
        before.with_query(query).viewport.current == 0,
        before.with_query(query).viewport.first == 0,
        before.with_query(query).query == query,
{
}

/// A move of the viewport that leaves the current index in the list and in the window
/// keeps the invariant of the session.
pub proof fn lemma_viewport_change_keeps_the_invariant(
    before: PickerState,
    viewport: ViewportState,
)
    requires
        before.wf(),
        viewport.in_range(before.counts),
        0 <= viewport.height,
    ensures
        before.with_viewport(viewport).wf(),
{
}

/// No command of search mode that edits the query or moves its cursor breaks the
/// invariant of the session.
proof fn lemma_query_command_keeps_the_invariant(
    before: PickerState,
    command: SearchCommand,
    seed: Seq<char>,
)
    requires
        before.wf(),
        before.after_search(command, seed) == before.with_query(
            before.after_search(command, seed).query,
        ),
    ensures
        before.after_search(command, seed).wf(),
{
    let typed = match command {
        SearchCommand::Insert(c) => c,
        _ => ' ',
    };
    lemma_edits_keep_the_cursor_in_the_text(before.query, typed);
    lemma_query_change_keeps_the_invariant(before, before.after_search(command, seed).query);
}

/// No command of search mode that navigates the list breaks the invariant of the
/// session.
proof fn lemma_navigation_command_keeps_the_invariant(
    before: PickerState,
    command: SearchCommand,
    seed: Seq<char>,
)
    requires
        before.wf(),
        command is Next || command is Previous || command is NextPage || command is PreviousPage
            || command is Home || command is End || command is ToggleAndNext,
    ensures
        before.after_search(command, seed).wf(),
{
    lemma_navigation_stays_in_range(before.viewport, before.wrap_around, before.counts);
    lemma_viewport_change_keeps_the_invariant(
        before,
        before.after_search(command, seed).viewport,
    );
}

/// No command of search mode breaks the invariant of the session: the current index
/// stays in the list and in the window, and the cursors stay in their texts.
pub proof fn lemma_search_keeps_the_invariant(
    before: PickerState,
    command: SearchCommand,
    seed: Seq<char>,
)
    requires
        before.wf(),
    ensures
        before.after_search(command, seed).wf(),
{
    match command {
        SearchCommand::Next | SearchCommand::Previous | SearchCommand::NextPage
        | SearchCommand::PreviousPage | SearchCommand::Home | SearchCommand::End
        | SearchCommand::ToggleAndNext => {
            lemma_navigation_command_keeps_the_invariant(before, command, seed);
        },
        SearchCommand::Interrupt | SearchCommand::Accept | SearchCommand::ToggleCurrent
        | SearchCommand::Click(_) | SearchCommand::EditCurrent | SearchCommand::EditNew
        | SearchCommand::Ignore => {},
        _ => {
            lemma_query_command_keeps_the_invariant(before, command, seed);
        },
    }
}

/// A change of the edit buffer that leaves the cursor in the text keeps the invariant
/// of the session, with or without a new request for suggestions.
pub proof fn lemma_edit_change_keeps_the_invariant(
    before: PickerState,
    editing: TextState,
    suggestions: Seq<SelectableItem<String>>,
)
    requires
        before.wf(),
        editing.wf(),
    ensures
        before.with_editing(editing).wf(),
        before.with_edited_text(editing, suggestions).wf(),
{
}

/// No command of editing mode breaks the invariant of the session, whatever text the
/// highlighted suggestion has and whatever suggestions a new request brings.
pub proof fn lemma_edit_keeps_the_invariant(
    before: PickerState,
    command: EditCommand,
    text: Seq<char>,
    suggestions: Seq<SelectableItem<String>>,
)
    requires
        before.wf(),
    ensures
        before.after_edit(command, text, suggestions).wf(),
{
    match command {
        EditCommand::Commit | EditCommand::Cancel | EditCommand::Interrupt
        | EditCommand::SuggestionUp | EditCommand::SuggestionDown | EditCommand::Ignore => {},
        EditCommand::AcceptSuggestion => {
            lemma_edit_change_keeps_the_invariant(
                before,
                TextState { text, cursor: text.len() as int, kind: before.editing.kind },
                suggestions,
            );
        },
        EditCommand::Clear => {
            lemma_edits_keep_the_cursor_in_the_text(before.editing, ' ');
        },
        _ => {
            let typed = match command {
                EditCommand::Insert(c) => c,
                _ => ' ',
            };
            lemma_edits_keep_the_cursor_in_the_text(before.editing, typed);
            lemma_edit_change_keeps_the_invariant(
                before,
                before.after_edit(command, text, suggestions).editing,
                suggestions,
            );
        },
    }
}

/// No event breaks the invariant of the session, in whatever mode it arrives.
pub proof fn lemma_event_keeps_the_invariant(
    before: PickerState,
    event: InputEvent,
    text: Seq<char>,
    suggestions: Seq<SelectableItem<String>>,
)
    requires
        before.wf(),
    ensures
        before.after_event(event, text, suggestions).wf(),
{
    lemma_search_keeps_the_invariant(
        before,
        search_command(event, before.invert_scroll),
        text,
    );
    lemma_edit_keeps_the_invariant(before, edit_command(event), text, suggestions);
}

/// What the loop is told after a command of search mode: an escape leaves the program
/// where the query is empty, an interrupt always does, an accepted selection is
/// returned, and any other command but an ignored event asks for a redraw.
pub open spec fn search_response(command: SearchCommand, query_is_empty: bool) -> EventResponse {
    match command {
        SearchCommand::Escape => if query_is_empty {
            EventResponse::ExitProgram
        } else {
            EventResponse::UpdateUI
        },
        SearchCommand::Interrupt => EventResponse::ExitProgram,
        SearchCommand::Accept => EventResponse::ReturnSelectedItems,
        SearchCommand::Ignore => EventResponse::NoAction,
        _ => EventResponse::UpdateUI,
    }
}

/// What the loop is told after a command of editing mode: an interrupt leaves the
/// program, and any other command but an ignored event asks for a redraw.
pub open spec fn edit_response(command: EditCommand) -> EventResponse {
    match command {
        EditCommand::Interrupt => EventResponse::ExitProgram,
        EditCommand::Ignore => EventResponse::NoAction,
        _ => EventResponse::UpdateUI,
    }
}

/// What an event does in help mode: an interrupt leaves the program, an escape closes
/// the help, nothing else has an effect.
pub open spec fn help_response(event: InputEvent) -> EventResponse {
    match event {
        InputEvent::Key { code, modifiers } => if modifiers.is_control() && code == KeyCode::Char(
            'c',
        ) {
            EventResponse::ExitProgram
        } else if modifiers.is_none() && code == KeyCode::Esc {
            EventResponse::UpdateUI
        } else {
            EventResponse::NoAction
        },
        _ => EventResponse::NoAction,
    }
}

/// What the loop does on a response of the session.
pub open spec fn loop_action(response: EventResponse) -> LoopAction {
    match response {
        EventResponse::NoAction => LoopAction::Continue,
        EventResponse::UpdateUI => LoopAction::Continue,
        EventResponse::ExitProgram => LoopAction::Exit,
        EventResponse::ReturnSelectedItems => LoopAction::ReturnSelection,
    }
}

impl<T: Sync + Send + 'static> View for Picker<T> {
    type V = PickerState;

    open spec fn view(&self) -> PickerState {
        PickerState {
            mode: self.mode,
            counts: self.counts,
            viewport: self.viewport@,
            query: self.query@,
            editing: self.editing@,
            suggestions: self.autocomplete_suggestions@,
            suggestion_index: self.autocomplete_index as int,
            has_autocomplete: self.autocomplete is Some,
            wrap_around: self.config.wrap_around_value(),
            invert_scroll: self.config.invert_scroll_value(),
            redraw_requested: self.redraw_requested,
            keep_colors: self.keep_colors,
            editable: self.editable,
            config: self.config,
        }
    }
}

impl<T: Sync + Send + Display + 'static> Picker<T> {
    /// The preview is what it was before: its template, its text and the command that
    /// is pending.
    pub open spec fn preview_kept(&self, before: &Self) -> bool {
        &&& self.preview_command == before.preview_command
        &&& self.pending_preview == before.pending_preview
        &&& self.preview_output == before.preview_output
    }

    /// The preview was planned anew since `before`. Without a template nothing of it
    /// has changed. With one, the pending command is what the template plans for some
    /// text, which is that of the highlighted entry and is empty when no entry
    /// matches; where a command is pending the text of the preview is what it was,
    /// and where none is the text is empty.
    pub open spec fn preview_planned(&self, before: &Self) -> bool {
        &&& self.preview_command == before.preview_command
        &&& before.preview_command is None ==> self.pending_preview == before.pending_preview
            && self.preview_output == before.preview_output
        &&& before.preview_command matches Some(template) ==> exists|item_text: Seq<char>|
            #[trigger] is_plan_for(self.pending_preview, template@, item_text) && (
            self.counts.matched_item_count == 0 ==> item_text.len() == 0)
        &&& before.preview_command is Some && self.pending_preview is None
            ==> self.preview_output@.len() == 0
        &&& before.preview_command is Some && self.pending_preview is Some ==> self.preview_output
            == before.preview_output
    }

    /// The preview after a step that plans it anew under `planned`, and leaves it as it
    /// was otherwise.
    pub open spec fn preview_follows(&self, before: &Self, planned: bool) -> bool {
        if planned {
            self.preview_planned(before)
        } else {
            self.preview_kept(before)
        }
    }

    /// Whether `text` is what is shown for the highlighted suggestion.
    pub open spec fn highlighted_suggestion_shows(&self, text: Seq<char>) -> bool {
        exists|shown: String|
            #[trigger] self.autocomplete_suggestions@[self.autocomplete_index as int].displays_as(
                shown,
            ) && shown@ == text
    }

    /// A session with the default configuration, an empty pool and an empty query, in
    /// search mode.
    pub fn new(editable: bool) -> (r: Self)
        ensures
            r@.wf(),
            r@.mode == PickerMode::Search,
            r@.counts == (SnapshotCounts { item_count: 0, matched_item_count: 0 }),
            r@.viewport == (ViewportState { current: 0, first: 0, height: 0 }),
            r@.query == (TextState { text: Seq::empty(), cursor: 0, kind: BufferKind::Query }),
            r@.editing == (TextState { text: Seq::empty(), cursor: 0, kind: BufferKind::Edit }),
            r@.suggestions.len() == 0,
            !r@.has_autocomplete,
            r@.wrap_around,
            !r@.invert_scroll,
            r@.redraw_requested,
            r.editable == editable,
            r.preview_command is None,
            r.pending_preview is None,
            r.preview_output@.len() == 0,
    {
        Picker::with_config(Config::default(), editable)
    }

    /// A session with the given configuration, an empty pool and an empty query, in
    /// search mode. The window has the configured height, or none yet.
    pub fn with_config(config: Config, editable: bool) -> (r: Self)
        ensures
            r@.wf(),
            r@.mode == PickerMode::Search,
            r@.counts == (SnapshotCounts { item_count: 0, matched_item_count: 0 }),
            r@.viewport == (ViewportState {
                current: 0,
                first: 0,
                height: match config.height {
                    Some(height) => height as int,
                    None => 0,
                },
            }),
            r@.query == (TextState { text: Seq::empty(), cursor: 0, kind: BufferKind::Query }),
            r@.editing == (TextState { text: Seq::empty(), cursor: 0, kind: BufferKind::Edit }),
            r@.suggestions.len() == 0,
            !r@.has_autocomplete,
            r@.wrap_around == config.wrap_around_value(),
            r@.invert_scroll == config.invert_scroll_value(),
            r@.redraw_requested,
            r.config == config,
            r.editable == editable,
            r.preview_command is None,
            r.pending_preview is None,
            r.preview_output@.len() == 0,
    {
        let height = match config.height() {
            Some(height) => height,
            None => 0,
        };
        Picker {
            matcher: new_matcher(),
            counts: SnapshotCounts::empty(),
            viewport: Viewport::new(height),
            query: TextBuffer::new(BufferKind::Query),
            mode: PickerMode::Search,
            editing: TextBuffer::new(BufferKind::Edit),
            config,
            preview_command: None,
            preview_output: String::new(),
            pending_preview: None,
            keep_colors: false,
            editable,
            autocomplete: None,
            autocomplete_suggestions: RequestedItems::new(),
            autocomplete_index: 0,
            redraw_requested: true,
        }
    }

    /// Hands the handle of the pool to `f`, which adds entries through it. The match
    /// engine sees them with its next tick. `f` has to accept every handle.
    pub fn inject_items<F>(&self, f: F) where F: FnOnce(&nucleo::Injector<SelectableItem<T>>)
        requires
            forall|injector: &nucleo::Injector<SelectableItem<T>>| call_requires(f, (injector,)),
    {
        let injector = self.matcher.injector();
        f(&injector);
    }

    /// Adds an entry to the pool. The match engine sees it with its next tick.
    pub fn push(&self, item: SelectableItem<T>) {
        let injector = self.matcher.injector();
        push_entry(&injector, item);
    }

    /// The number of entries in the pool, as of the last tick.
    pub fn item_count(&self) -> (r: u32)
        ensures
            r == self@.counts.item_count,
    {
        self.counts.item_count
    }

    /// The number of entries that match the query, as of the last tick.
    pub fn matched_item_count(&self) -> (r: u32)
        ensures
            r == self@.counts.matched_item_count,
    {
        self.counts.matched_item_count
    }

    /// The height of the window that counts: the one that was set, or the size of the
    /// pool if that is smaller.
    pub fn height(&self) -> (r: u16)
        ensures
            r == crate::viewport::effective_height(
                self@.viewport.height,
                self@.counts.item_count as int,
            ),
    {
        self.viewport.height(self.counts)
    }

    /// Takes the height of the area that the list is drawn in, and moves the window so
    /// that it still holds the current index.
    pub fn update_height(&mut self, height: u16)
        ensures
            final(self)@ == old(self)@.with_viewport(
                (ViewportState { height: height as int, ..old(self)@.viewport }).windowed(
                    old(self)@.viewport.current,
                    false,
                    old(self)@.counts,
                ),
            ),
            old(self)@.viewport.current <= crate::viewport::last_index(
                old(self)@.counts.matched_item_count as int,
            ) ==> final(self)@.viewport.in_range(final(self)@.counts),
            final(self).preview_kept(old(self)),
    {
        self.viewport.update_height(height);
        self.viewport.set_item_window(self.viewport.current_index as i64, false, self.counts);
    }

    /// Lets the match engine work for at most `timeout` milliseconds and takes over the
    /// sizes of its snapshot. The current index and the window are brought back into
    /// the list where that has become shorter.
    pub fn tick(&mut self, timeout: u64) -> (status: TickStatus)
        ensures
            final(self)@ == (PickerState {
                counts: final(self)@.counts,
                viewport: old(self)@.viewport.moved_to(
                    old(self)@.viewport.current,
                    false,
                    final(self)@.counts,
                ),
                ..old(self)@
            }),
            final(self)@.viewport.in_range(final(self)@.counts),
            final(self).query == old(self).query,
            old(self)@.wf() ==> final(self)@.wf(),
            final(self).preview_kept(old(self)),
    {
        let status = tick_matcher(&mut self.matcher, timeout);
        self.counts = snapshot_counts(&self.matcher);
        self.viewport.clamp_to(self.counts);
        status
    }

    /// The snapshot of the match engine.
    pub fn snapshot(&self) -> &nucleo::Snapshot<SelectableItem<T>> {
        self.matcher.snapshot()
    }

    /// Goes to editing mode, with `item_text` to edit and the cursor at its start.
    pub fn enter_editing_mode(&mut self, item_text: String)
        ensures
            final(self)@ == old(self)@.editing_started(item_text@),
            final(self).preview_kept(old(self)),
    {
        self.mode = PickerMode::Editing;
        self.editing.set_text(item_text.as_str());
        self.autocomplete_suggestions.clear();
        self.autocomplete_index = 0;
    }

    /// Goes back to search mode. The edited text and the suggestions are dropped.
    pub fn exit_editing_mode(&mut self)
        ensures
            final(self)@ == old(self)@.editing_ended(),
            final(self).preview_kept(old(self)),
    {
        self.mode = PickerMode::Search;
        self.editing.clear();
        self.autocomplete_suggestions.clear();
        self.autocomplete_index = 0;
    }

    /// Shows the help screen.
    pub fn enter_help_mode(&mut self)
        ensures
            final(self)@ == (PickerState { mode: PickerMode::Help, ..old(self)@ }),
            final(self).preview_kept(old(self)),
    {
        self.mode = PickerMode::Help;
    }

    /// Closes the help screen and goes to search mode.
    pub fn exit_help_mode(&mut self)
        ensures
            final(self)@ == (PickerState { mode: PickerMode::Search, ..old(self)@ }),
            final(self).preview_kept(old(self)),
    {
        self.mode = PickerMode::Search;
    }

    /// Handles an event in help mode.
    pub fn help_mode_handle_event(&mut self, event: InputEvent) -> (r: EventResponse)
        ensures
            r == help_response(event),
            r == EventResponse::UpdateUI ==> final(self)@ == (PickerState {
                mode: PickerMode::Search,
                ..old(self)@
            }),
            r != EventResponse::UpdateUI ==> final(self)@ == old(self)@,
            final(self).preview_kept(old(self)),
    {
        match event {
            InputEvent::Key { code, modifiers } => {
                if modifiers.holds_only_control() && code == KeyCode::Char('c') {
                    EventResponse::ExitProgram
                } else if modifiers.holds_none() && code == KeyCode::Esc {
                    self.exit_help_mode();
                    EventResponse::UpdateUI
                } else {
                    EventResponse::NoAction
                }
            },
            _ => EventResponse::NoAction,
        }
    }

    /// Hands an event to the handler of the active mode.
    pub fn handle_event_by_mode(&mut self, event: InputEvent) -> (r: EventResponse)
        ensures
            r == old(self)@.response_to(event),
            final(self)@ == old(self)@.after_event(
                event,
                final(self)@.editing.text,
                final(self)@.suggestions,
            ),
            old(self)@.wf() ==> final(self)@.wf(),
            final(self).preview_follows(old(self), old(self)@.event_plans_preview(event)),
            old(self)@.event_accepts_suggestion(event)
                ==> old(self).highlighted_suggestion_shows(final(self)@.editing.text),
    {
        let response = match self.mode {
            PickerMode::Search => self.search_mode_handle_event(event),
            PickerMode::Editing => self.editing_mode_handle_event(event),
            PickerMode::Help => self.help_mode_handle_event(event),
        };
        proof {
            if old(self)@.wf() {
                lemma_event_keeps_the_invariant(
                    old(self)@,
                    event,
                    self@.editing.text,
                    self@.suggestions,
                );
            }
        }
        response
    }

    /// Sets what suggests texts while an entry is edited.
    pub fn set_autocomplete(&mut self, autocomplete: Box<dyn Autocomplete>)
        ensures
            final(self)@ == (PickerState { has_autocomplete: true, ..old(self)@ }),
            final(self).preview_kept(old(self)),
    {
        self.autocomplete = Some(autocomplete);
    }

    /// Asks for the suggestions for the edited text and highlights the first. Where
    /// nothing suggests texts, nothing happens.
    pub fn update_autocomplete_suggestions(&mut self)
        ensures
            final(self)@ == old(self)@.with_new_suggestions(final(self)@.suggestions),
            final(self).editing == old(self).editing,
            final(self).preview_kept(old(self)),
    {
        match &self.autocomplete {
            Some(provider) => {
                let text = self.editing.text();
                self.autocomplete_suggestions = provider.suggestions(text.as_str());
                self.autocomplete_index = 0;
            },
            None => {},
        }
    }

    /// Whether colors are kept in the preview.
    pub fn keep_colors(&self) -> (r: bool)
        ensures
            r == self.keep_colors,
    {
        self.keep_colors
    }

    /// Sets whether colors are kept in the preview.
    pub fn set_keep_colors(&mut self, keep_colors: bool)
        ensures
            final(self)@ == (PickerState { keep_colors, ..old(self)@ }),
            final(self).preview_kept(old(self)),
    {
        self.keep_colors = keep_colors;
    }

    /// Whether the screen has to be drawn now. The request is cleared: the next
    /// iteration draws only if something asks for it anew.
    pub fn begin_iteration(&mut self) -> (draw: bool)
        ensures
            draw == old(self)@.redraw_requested,
            final(self)@ == (PickerState { redraw_requested: false, ..old(self)@ }),
            final(self).preview_kept(old(self)),
    {
        let draw = self.redraw_requested;
        self.redraw_requested = false;
        draw
    }

    /// Advances the match engine by one tick of at most `timeout` milliseconds. Where
    /// the tick reports a change, or work still going on, the preview is planned anew
    /// and a redraw is asked for.
    pub fn advance(&mut self, timeout: u64) -> (status: TickStatus)
        ensures
            final(self)@ == (PickerState {
                counts: final(self)@.counts,
                viewport: old(self)@.viewport.moved_to(
                    old(self)@.viewport.current,
                    false,
                    final(self)@.counts,
                ),
                redraw_requested: old(self)@.redraw_requested || status.changed || status.running,
                ..old(self)@
            }),
            final(self)@.viewport.in_range(final(self)@.counts),
            old(self)@.wf() ==> final(self)@.wf(),
            final(self).preview_follows(old(self), status.changed || status.running),
    {
        let status = self.tick(timeout);
        if status.changed || status.running {
            self.update_preview();
            self.redraw_requested = true;
        }
        status
    }

    /// Hands an event of the input source to the session and says how the loop goes
    /// on. A response that asks for it makes the next iteration draw.
    pub fn dispatch(&mut self, event: InputEvent) -> (action: LoopAction)
        ensures
            action == loop_action(old(self)@.response_to(event)),
            old(self)@.wf() ==> final(self)@.wf(),
            final(self)@ == (PickerState {
                redraw_requested: old(self)@.redraw_requested || old(self)@.response_to(event)
                    == EventResponse::UpdateUI,
                ..old(self)@.after_event(
                    event,
                    final(self)@.editing.text,
                    final(self)@.suggestions,
                )
            }),
            final(self).preview_follows(old(self), old(self)@.event_plans_preview(event)),
            old(self)@.event_accepts_suggestion(event)
                ==> old(self).highlighted_suggestion_shows(final(self)@.editing.text),
    {
        let response = self.handle_event_by_mode(event);
        match response {
            EventResponse::NoAction => LoopAction::Continue,
            EventResponse::UpdateUI => {
                self.redraw_requested = true;
                LoopAction::Continue
            },
            EventResponse::ExitProgram => LoopAction::Exit,
            EventResponse::ReturnSelectedItems => LoopAction::ReturnSelection,
        }
    }
}

impl<T: Sync + Send + Display + 'static> Default for Picker<T> {
    /// A session that can be edited, as `new` makes it.
    fn default() -> (r: Self)
        ensures
            r@.wf(),
            r@.mode == PickerMode::Search,
            r@.counts == (SnapshotCounts { item_count: 0, matched_item_count: 0 }),
            r@.query.text.len() == 0,
            r.editable,
    {
        Picker::new(true)
    }
}

} // verus!
