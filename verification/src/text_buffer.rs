//! Cursor-addressed text with word-boundary navigation and deletion.
//!
//! A buffer holds its text as a sequence of characters and a cursor that counts
//! characters from the start. Two kinds of buffer exist. They differ only in what
//! separates words: white space in the query buffer, white space or the path
//! separator in the edit buffer.

use vstd::prelude::*;

verus! {

/// Whether `c` has the Unicode property `White_Space`: the controls from the tab to the
/// carriage return, the space, the next line control, the no-break space, the ogham
/// space mark, the spaces from the en quad to the hair space, the line and the
/// paragraph separator, the narrow no-break space, the medium mathematical space and
/// the ideographic space.
pub open spec fn is_whitespace_char(c: char) -> bool {
    ||| '\u{9}' <= c <= '\u{d}'
    ||| c == ' '
    ||| c == '\u{85}'
    ||| c == '\u{a0}'
    ||| c == '\u{1680}'
    ||| '\u{2000}' <= c <= '\u{200a}'
    ||| c == '\u{2028}'
    ||| c == '\u{2029}'
    ||| c == '\u{202f}'
    ||| c == '\u{205f}'
    ||| c == '\u{3000}'
}

/// `char::is_whitespace` of std. Trusted: the result says whether the character has
/// the Unicode property `White_Space`.
pub assume_specification[ char::is_whitespace ](c: char) -> (b: bool)
    ensures
        b == is_whitespace_char(c),
;

/// `String::push` of std. Trusted: it appends the one character to the string.
pub assume_specification[ String::push ](s: &mut String, c: char)
    ensures
        final(s)@ == old(s)@.push(c),
;

/// Which of the two buffers a text belongs to.
#[derive(Clone, Copy, Debug, PartialEq, Eq, Structural)]
pub enum BufferKind {
    /// The search query: words are separated by white space only.
    Query,
    /// The text of an entry being edited: the path separator separates words too.
    Edit,
}

/// Whether `c` separates words in a buffer of the given kind.
pub open spec fn is_boundary(kind: BufferKind, c: char) -> bool {
    is_whitespace_char(c) || (kind == BufferKind::Edit && c == '/')
}

/// The first position at or after `pos` whose character is not of the given class
/// (`boundary` or not), or the length of the text if there is none.
pub open spec fn skip_forward(text: Seq<char>, pos: int, kind: BufferKind, boundary: bool) -> int
    decreases text.len() - pos,
{
    if 0 <= pos < text.len() && is_boundary(kind, text[pos]) == boundary {
        skip_forward(text, pos + 1, kind, boundary)
    } else {
        pos
    }
}

/// The last position at or before `pos` whose preceding character is not of the given
/// class, or zero if there is none.
pub open spec fn skip_backward(text: Seq<char>, pos: int, kind: BufferKind, boundary: bool) -> int
    decreases pos,
{
    if 0 < pos <= text.len() && is_boundary(kind, text[pos - 1]) == boundary {
        skip_backward(text, pos - 1, kind, boundary)
    } else {
        pos
    }
}

/// Where a forward word jump from `pos` lands: behind the run of boundary characters at
/// `pos` and the run of other characters that follows it.
pub open spec fn word_end(text: Seq<char>, pos: int, kind: BufferKind) -> int {
    skip_forward(text, skip_forward(text, pos, kind, true), kind, false)
}

/// Where a backward word jump from `pos` lands: before the run of boundary characters
/// that ends at `pos` and the run of other characters that precedes it.
pub open spec fn word_start(text: Seq<char>, pos: int, kind: BufferKind) -> int {
    skip_backward(text, skip_backward(text, pos, kind, true), kind, false)
}

/// What a forward skip returns: every character it passed is of the class, and it
/// stopped at the end of the text or at a character that is not.
pub proof fn lemma_skip_forward(text: Seq<char>, pos: int, kind: BufferKind, boundary: bool)
    requires
        0 <= pos <= text.len(),
    ensures
        pos <= skip_forward(text, pos, kind, boundary) <= text.len(),
        forall|i: int|
            pos <= i < skip_forward(text, pos, kind, boundary) ==> is_boundary(kind, #[trigger] text[i])
                == boundary,
        skip_forward(text, pos, kind, boundary) < text.len() ==> is_boundary(
            kind,
            text[skip_forward(text, pos, kind, boundary)],
        ) != boundary,
    decreases text.len() - pos,
{
    if pos < text.len() && is_boundary(kind, text[pos]) == boundary {
        lemma_skip_forward(text, pos + 1, kind, boundary);
    }
}

/// What a backward skip returns: every character it passed is of the class, and it
/// stopped at the start of the text or behind a character that is not.
pub proof fn lemma_skip_backward(text: Seq<char>, pos: int, kind: BufferKind, boundary: bool)
    requires
        0 <= pos <= text.len(),
    ensures
        0 <= skip_backward(text, pos, kind, boundary) <= pos,
        forall|i: int|
            skip_backward(text, pos, kind, boundary) <= i < pos ==> is_boundary(
                kind,
                #[trigger] text[i],
            ) == boundary,
        skip_backward(text, pos, kind, boundary) > 0 ==> is_boundary(
            kind,
            text[skip_backward(text, pos, kind, boundary) - 1],
        ) != boundary,
    decreases pos,
{
    if 0 < pos && is_boundary(kind, text[pos - 1]) == boundary {
        lemma_skip_backward(text, pos - 1, kind, boundary);
    }
}

/// A forward skip stops at the first position from `pos` on whose character is not of
/// the class: any such position `stop`, with only characters of the class before it, is
/// the result.
pub proof fn lemma_skip_forward_stops_at(
    text: Seq<char>,
    pos: int,
    stop: int,
    kind: BufferKind,
    boundary: bool,
)
    requires
        0 <= pos <= stop <= text.len(),
        forall|i: int| pos <= i < stop ==> is_boundary(kind, #[trigger] text[i]) == boundary,
        stop < text.len() ==> is_boundary(kind, text[stop]) != boundary,
    ensures
        skip_forward(text, pos, kind, boundary) == stop,
    decreases stop - pos,
{
    if pos < stop {
        assert(is_boundary(kind, text[pos]) == boundary);
        lemma_skip_forward_stops_at(text, pos + 1, stop, kind, boundary);
    }
}

/// A backward skip stops at the last position up to `pos` whose preceding character is
/// not of the class: any such position `stop`, with only characters of the class
/// between it and `pos`, is the result.
pub proof fn lemma_skip_backward_stops_at(
    text: Seq<char>,
    pos: int,
    stop: int,
    kind: BufferKind,
    boundary: bool,
)
    requires
        0 <= stop <= pos <= text.len(),
        forall|i: int| stop <= i < pos ==> is_boundary(kind, #[trigger] text[i]) == boundary,
        stop > 0 ==> is_boundary(kind, text[stop - 1]) != boundary,
    ensures
        skip_backward(text, pos, kind, boundary) == stop,
    decreases pos - stop,
{
    if stop < pos {
        assert(is_boundary(kind, text[pos - 1]) == boundary);
        lemma_skip_backward_stops_at(text, pos - 1, stop, kind, boundary);
    }
}

/// A word jump stays inside the text and never moves against its direction.
pub proof fn lemma_word_bounds(text: Seq<char>, pos: int, kind: BufferKind)
    requires
        0 <= pos <= text.len(),
    ensures
        pos <= word_end(text, pos, kind) <= text.len(),
        0 <= word_start(text, pos, kind) <= pos,
{
    lemma_skip_forward(text, pos, kind, true);
    lemma_skip_forward(text, skip_forward(text, pos, kind, true), kind, false);
    lemma_skip_backward(text, pos, kind, true);
    lemma_skip_backward(text, skip_backward(text, pos, kind, true), kind, false);
}

/// In the edit buffer a path separator ends a word; in the query buffer, for the same
/// text and cursor, it does not. From a cursor inside a run of characters that are
/// neither white space nor separators, which a separator at `sep` ends, the forward
/// jump lands on the separator in the edit buffer and strictly behind it in the query
/// buffer.
pub proof fn lemma_separator_is_boundary_in_edit_only(text: Seq<char>, pos: int, sep: int)
    requires
        0 <= pos < sep < text.len(),
        text[sep] == '/',
        forall|i: int| pos <= i < sep ==> !is_boundary(BufferKind::Edit, #[trigger] text[i]),
    ensures
        word_end(text, pos, BufferKind::Edit) == sep,
        word_end(text, pos, BufferKind::Query) > sep,
{
    assert(!is_boundary(BufferKind::Edit, text[pos]));
    assert(!is_boundary(BufferKind::Query, text[pos]));
    assert(skip_forward(text, pos, BufferKind::Edit, true) == pos);
    assert(skip_forward(text, pos, BufferKind::Query, true) == pos);
    lemma_skip_forward_stops_at(text, pos, sep, BufferKind::Edit, false);
    assert forall|i: int| pos <= i < sep + 1 implies is_boundary(
        BufferKind::Query,
        #[trigger] text[i],
    ) == false by {
        if i < sep {
            assert(!is_boundary(BufferKind::Edit, text[i]));
        }
    }
    lemma_skip_forward(text, pos, BufferKind::Query, false);
    let landed = skip_forward(text, pos, BufferKind::Query, false);
    if landed <= sep {
        assert(is_boundary(BufferKind::Query, text[landed]) == false);
    }
}

/// The same holds backwards: from a cursor behind a run that starts right after a
/// separator, the backward jump lands right after the separator in the edit buffer and
/// strictly before it in the query buffer.
pub proof fn lemma_separator_is_boundary_in_edit_only_backward(
    text: Seq<char>,
    pos: int,
    sep: int,
)
    requires
        0 <= sep < pos - 1,
        pos <= text.len(),
        text[sep] == '/',
        forall|i: int| sep < i < pos ==> !is_boundary(BufferKind::Edit, #[trigger] text[i]),
    ensures
        word_start(text, pos, BufferKind::Edit) == sep + 1,
        word_start(text, pos, BufferKind::Query) <= sep,
{
    assert(!is_boundary(BufferKind::Edit, text[pos - 1]));
    assert(!is_boundary(BufferKind::Query, text[pos - 1]));
    assert(skip_backward(text, pos, BufferKind::Edit, true) == pos);
    assert(skip_backward(text, pos, BufferKind::Query, true) == pos);
    lemma_skip_backward_stops_at(text, pos, sep + 1, BufferKind::Edit, false);
    assert forall|i: int| sep <= i < pos implies is_boundary(
        BufferKind::Query,
        #[trigger] text[i],
    ) == false by {
        if sep < i {
            assert(!is_boundary(BufferKind::Edit, text[i]));
        }
    }
    lemma_skip_backward(text, pos, BufferKind::Query, false);
    let landed = skip_backward(text, pos, BufferKind::Query, false);
    if landed > sep {
        assert(is_boundary(BufferKind::Query, text[landed - 1]) == false);
    }
}

/// What an edit did to the text of a buffer.
#[derive(Clone, Copy, Debug, PartialEq, Eq, Structural)]
pub enum TextChange {
    /// The text is what it was.
    Unchanged,
    /// One character was added at the end of the text.
    Appended,
    /// Anything else: a deletion, or an insertion before the end.
    Rewritten,
}

impl TextChange {
    /// What the match engine is told of a change of the query: nothing where the text
    /// is what it was; otherwise that the text has to be parsed anew, and whether the
    /// new text is the old one with a single character added at its end, which lets
    /// the engine keep what it had ruled out.
    pub open spec fn reparse_hint(self) -> Option<bool> {
        match self {
            TextChange::Unchanged => None,
            TextChange::Appended => Some(true),
            TextChange::Rewritten => Some(false),
        }
    }

    /// What the match engine is told of the change.
    pub fn append_hint(self) -> (r: Option<bool>)
        ensures
            r == self.reparse_hint(),
    {
        match self {
            TextChange::Unchanged => None,
            TextChange::Appended => Some(true),
            TextChange::Rewritten => Some(false),
        }
    }
}

/// The mathematical state of a buffer: its characters, the cursor as a count of
/// characters from the start, and its kind.
#[verifier::ext_equal]
pub struct TextState {
    pub text: Seq<char>,
    pub cursor: int,
    pub kind: BufferKind,
}

impl TextState {
    /// The cursor lies within the text or right behind it.
    pub open spec fn wf(self) -> bool {
        0 <= self.cursor <= self.text.len()
    }

    pub open spec fn with_cursor(self, cursor: int) -> TextState {
        TextState { text: self.text, cursor, kind: self.kind }
    }

    pub open spec fn with_text(self, text: Seq<char>, cursor: int) -> TextState {
        TextState { text, cursor, kind: self.kind }
    }

    /// `c` inserted at the cursor; the cursor moves behind it. A text that is as long as
    /// the machine can address takes no more characters.
    pub open spec fn inserted(self, c: char) -> TextState {
        if self.text.len() < usize::MAX {
            self.with_text(self.text.insert(self.cursor, c), self.cursor + 1)
        } else {
            self
        }
    }

    /// An insertion at the end of the text is an append; any other rewrites the text.
    pub open spec fn insert_change(self) -> TextChange {
        if self.text.len() >= usize::MAX {
            TextChange::Unchanged
        } else if self.cursor == self.text.len() {
            TextChange::Appended
        } else {
            TextChange::Rewritten
        }
    }

    /// The character before the cursor removed, if there is one.
    pub open spec fn backspaced(self) -> TextState {
        if self.cursor > 0 {
            self.with_text(self.text.remove(self.cursor - 1), self.cursor - 1)
        } else {
            self
        }
    }

    /// The character at the cursor removed, if there is one.
    pub open spec fn deleted_forward(self) -> TextState {
        if self.cursor < self.text.len() {
            self.with_text(self.text.remove(self.cursor), self.cursor)
        } else {
            self
        }
    }

    /// The cursor one character further, but not behind the end.
    pub open spec fn moved_right(self) -> TextState {
        if self.cursor < self.text.len() {
            self.with_cursor(self.cursor + 1)
        } else {
            self
        }
    }

    /// The cursor one character back, but not before the start.
    pub open spec fn moved_left(self) -> TextState {
        if self.cursor > 0 {
            self.with_cursor(self.cursor - 1)
        } else {
            self
        }
    }

    pub open spec fn at_start(self) -> TextState {
        self.with_cursor(0)
    }

    pub open spec fn at_end(self) -> TextState {
        self.with_cursor(self.text.len() as int)
    }

    /// The cursor behind the next word.
    pub open spec fn word_forward(self) -> TextState {
        self.with_cursor(word_end(self.text, self.cursor, self.kind))
    }

    /// The cursor before the previous word.
    pub open spec fn word_backward(self) -> TextState {
        self.with_cursor(word_start(self.text, self.cursor, self.kind))
    }

    /// The text with the characters from `from` up to `to` taken out.
    pub open spec fn without(self, from: int, to: int) -> Seq<char> {
        self.text.subrange(0, from) + self.text.subrange(to, self.text.len() as int)
    }

    /// Everything from the cursor to the end of the next word removed.
    pub open spec fn word_deleted_forward(self) -> TextState {
        self.with_text(
            self.without(self.cursor, word_end(self.text, self.cursor, self.kind)),
            self.cursor,
        )
    }

    /// Everything from the start of the previous word to the cursor removed.
    pub open spec fn word_deleted_backward(self) -> TextState {
        self.with_text(
            self.without(word_start(self.text, self.cursor, self.kind), self.cursor),
            word_start(self.text, self.cursor, self.kind),
        )
    }

    /// Everything from the cursor on removed.
    pub open spec fn truncated(self) -> TextState {
        self.with_text(self.text.subrange(0, self.cursor), self.cursor)
    }

    /// No text, cursor at the start.
    pub open spec fn cleared(self) -> TextState {
        self.with_text(Seq::empty(), 0)
    }

    /// What a deletion that led from `self` to `after` did: nothing, or a rewrite.
    pub open spec fn deletion_change(self, after: TextState) -> TextChange {
        if after.text.len() == self.text.len() {
            TextChange::Unchanged
        } else {
            TextChange::Rewritten
        }
    }
}

/// Every edit and every move leaves the cursor within the text or right behind it.
pub proof fn lemma_edits_keep_the_cursor_in_the_text(state: TextState, c: char)
    requires
        state.wf(),
    ensures
        state.inserted(c).wf(),
        state.backspaced().wf(),
        state.deleted_forward().wf(),
        state.moved_left().wf(),
        state.moved_right().wf(),
        state.at_start().wf(),
        state.at_end().wf(),
        state.word_forward().wf(),
        state.word_backward().wf(),
        state.word_deleted_forward().wf(),
        state.word_deleted_backward().wf(),
        state.truncated().wf(),
        state.cleared().wf(),
{
    lemma_word_bounds(state.text, state.cursor, state.kind);
}

/// A text with a cursor.
pub struct TextBuffer {
    pub chars: Vec<char>,
    pub cursor: usize,
    pub kind: BufferKind,
}

impl View for TextBuffer {
    type V = TextState;

    /// The state of the buffer. A cursor that was set behind the end of the text counts
    /// as standing at the end.
    open spec fn view(&self) -> TextState {
        TextState {
            text: self.chars@,
            cursor: if self.cursor <= self.chars.len() {
                self.cursor as int
            } else {
                self.chars.len() as int
            },
            kind: self.kind,
        }
    }
}

/// Whether `c` separates words in the edit buffer: white space or the path separator.
pub fn is_skippable_char(c: &char) -> (r: bool)
    ensures
        r == is_boundary(BufferKind::Edit, *c),
{
    c.is_whitespace() || *c == '/'
}

/// Whether `c` separates words in a buffer of the given kind.
pub fn is_boundary_char(kind: BufferKind, c: char) -> (r: bool)
    ensures
        r == is_boundary(kind, c),
{
    match kind {
        BufferKind::Query => c.is_whitespace(),
        BufferKind::Edit => is_skippable_char(&c),
    }
}

/// The characters of a string, in order.
pub fn chars_of(s: &str) -> (v: Vec<char>)
    ensures
        v@ == s@,
{
    let mut v: Vec<char> = Vec::new();
    for c in it: s.chars()
        invariant
            it.seq() == s@,
            v@ == it.seq().take(it.index() as int),
    {
        v.push(c);
        assert(it.seq().take(it.index() + 1) =~= it.seq().take(it.index() as int).push(c));
    }
    assert(s@.take(s@.len() as int) =~= s@);
    v
}

/// The string made of the given characters, in order.
pub fn string_of(chars: &Vec<char>) -> (s: String)
    ensures
        s@ == chars@,
{
    let mut s = String::new();
    let mut i: usize = 0;
    while i < chars.len()
        invariant
            i <= chars.len(),
            s@ == chars@.take(i as int),
        decreases chars.len() - i,
    {
        s.push(chars[i]);
        assert(chars@.take(i + 1) =~= chars@.take(i as int).push(chars@[i as int]));
        i += 1;
    }
    assert(chars@.take(chars@.len() as int) =~= chars@);
    s
}

impl TextBuffer {
    /// An empty buffer of the given kind.
    pub fn new(kind: BufferKind) -> (r: Self)
        ensures
            r@ == (TextState { text: Seq::empty(), cursor: 0, kind }),
            r@.wf(),
            r.cursor == 0,
    {
        TextBuffer { chars: Vec::new(), cursor: 0, kind }
    }

    /// The cursor, never behind the end of the text.
    pub fn position(&self) -> (r: usize)
        ensures
            r == self@.cursor,
            r <= self.chars.len(),
    {
        if self.cursor <= self.chars.len() {
            self.cursor
        } else {
            self.chars.len()
        }
    }

    /// The number of characters in the text.
    pub fn len(&self) -> (r: usize)
        ensures
            r == self@.text.len(),
    {
        self.chars.len()
    }

    pub fn is_empty(&self) -> (r: bool)
        ensures
            r == (self@.text.len() == 0),
    {
        self.chars.len() == 0
    }

    /// The text as a string.
    pub fn text(&self) -> (r: String)
        ensures
            r@ == self@.text,
    {
        string_of(&self.chars)
    }

    /// Replaces the text and puts the cursor at its start.
    pub fn set_text(&mut self, text: &str)
        ensures
            final(self)@ == old(self)@.with_text(text@, 0),
            final(self)@.wf(),
            final(self).cursor == 0,
    {
        self.chars = chars_of(text);
        self.cursor = 0;
    }

    /// Replaces the text and puts the cursor behind its end.
    pub fn replace_text(&mut self, text: &str)
        ensures
            final(self)@ == old(self)@.with_text(text@, text@.len() as int),
            final(self)@.wf(),
            final(self).cursor == text@.len(),
    {
        self.chars = chars_of(text);
        self.cursor = self.chars.len();
    }

    /// Inserts `c` at the cursor and moves the cursor behind it. Says whether the
    /// character went to the end of the text.
    pub fn insert(&mut self, c: char) -> (change: TextChange)
        ensures
            final(self)@ == old(self)@.inserted(c),
            final(self)@.wf(),
            final(self).cursor == final(self)@.cursor,
            change == old(self)@.insert_change(),
    {
        let at = self.position();
        self.cursor = at;
        if self.chars.len() == usize::MAX {
            return TextChange::Unchanged;
        }
        let change = if at == self.chars.len() {
            TextChange::Appended
        } else {
            TextChange::Rewritten
        };
        self.chars.insert(at, c);
        self.cursor = at + 1;
        change
    }

    /// Removes the character before the cursor, if there is one.
    pub fn backspace(&mut self) -> (change: TextChange)
        ensures
            final(self)@ == old(self)@.backspaced(),
            final(self)@.wf(),
            final(self).cursor == final(self)@.cursor,
            change == old(self)@.deletion_change(final(self)@),
            change == TextChange::Unchanged <==> old(self)@.cursor == 0,
    {
        let at = self.position();
        if at > 0 {
            self.chars.remove(at - 1);
            self.cursor = at - 1;
            TextChange::Rewritten
        } else {
            self.cursor = at;
            TextChange::Unchanged
        }
    }

    /// Removes the character at the cursor, if there is one.
    pub fn delete_forward(&mut self) -> (change: TextChange)
        ensures
            final(self)@ == old(self)@.deleted_forward(),
            final(self)@.wf(),
            final(self).cursor == final(self)@.cursor,
            change == old(self)@.deletion_change(final(self)@),
            change == TextChange::Unchanged <==> old(self)@.cursor == old(self)@.text.len(),
    {
        let at = self.position();
        self.cursor = at;
        if at < self.chars.len() {
            self.chars.remove(at);
            TextChange::Rewritten
        } else {
            TextChange::Unchanged
        }
    }

    /// Moves the cursor one character forward; at the end it stays.
    pub fn move_right(&mut self)
        ensures
            final(self)@ == old(self)@.moved_right(),
            final(self)@.wf(),
            final(self).cursor == final(self)@.cursor,
    {
        let at = self.position();
        if at < self.chars.len() {
            self.cursor = at + 1;
        } else {
            self.cursor = at;
        }
    }

    /// Moves the cursor one character back; at the start it stays.
    pub fn move_left(&mut self)
        ensures
            final(self)@ == old(self)@.moved_left(),
            final(self)@.wf(),
            final(self).cursor == final(self)@.cursor,
    {
        let at = self.position();
        if at > 0 {
            self.cursor = at - 1;
        } else {
            self.cursor = at;
        }
    }

    /// Moves the cursor to the start of the text.
    pub fn move_home(&mut self)
        ensures
            final(self)@ == old(self)@.at_start(),
            final(self)@.wf(),
            final(self).cursor == 0,
    {
        self.cursor = 0;
    }

    /// Moves the cursor behind the end of the text.
    pub fn move_end(&mut self)
        ensures
            final(self)@ == old(self)@.at_end(),
            final(self)@.wf(),
            final(self).cursor == final(self)@.cursor,
    {
        self.cursor = self.chars.len();
    }

    /// The first position from `from` on whose character is not of the given class.
    fn scan_forward(&self, from: usize, boundary: bool) -> (r: usize)
        requires
            from <= self.chars.len(),
        ensures
            r == skip_forward(self.chars@, from as int, self.kind, boundary),
            from <= r <= self.chars.len(),
    {
        let mut p: usize = from;
        while p < self.chars.len() && is_boundary_char(self.kind, self.chars[p]) == boundary
            invariant
                from <= p <= self.chars.len(),
                skip_forward(self.chars@, from as int, self.kind, boundary) == skip_forward(
                    self.chars@,
                    p as int,
                    self.kind,
                    boundary,
                ),
            decreases self.chars.len() - p,
        {
            p += 1;
        }
        p
    }

    /// The last position up to `from` whose preceding character is not of the given
    /// class.
    fn scan_backward(&self, from: usize, boundary: bool) -> (r: usize)
        requires
            from <= self.chars.len(),
        ensures
            r == skip_backward(self.chars@, from as int, self.kind, boundary),
            r <= from,
    {
        let mut p: usize = from;
        while p > 0 && is_boundary_char(self.kind, self.chars[p - 1]) == boundary
            invariant
                p <= from <= self.chars.len(),
                skip_backward(self.chars@, from as int, self.kind, boundary) == skip_backward(
                    self.chars@,
                    p as int,
                    self.kind,
                    boundary,
                ),
            decreases p,
        {
            p -= 1;
        }
        p
    }

    /// The position behind the next word: the run of boundary characters at the cursor
    /// is skipped, then the run of other characters behind it.
    pub fn next_word_end(&self) -> (r: usize)
        ensures
            r == word_end(self@.text, self@.cursor, self.kind),
            self@.cursor <= r <= self.chars.len(),
    {
        let at = self.position();
        let gap = self.scan_forward(at, true);
        self.scan_forward(gap, false)
    }

    /// The position before the previous word: the run of boundary characters before the
    /// cursor is skipped, then the run of other characters before it.
    pub fn previous_word_start(&self) -> (r: usize)
        ensures
            r == word_start(self@.text, self@.cursor, self.kind),
            r <= self@.cursor,
    {
        let at = self.position();
        let gap = self.scan_backward(at, true);
        self.scan_backward(gap, false)
    }

    /// Moves the cursor behind the next word.
    pub fn jump_word_forward(&mut self)
        ensures
            final(self)@ == old(self)@.word_forward(),
            final(self)@.wf(),
            final(self).cursor == final(self)@.cursor,
            final(self)@.cursor >= old(self)@.cursor,
    {
        self.cursor = self.next_word_end();
    }

    /// Moves the cursor before the previous word.
    pub fn jump_word_backward(&mut self)
        ensures
            final(self)@ == old(self)@.word_backward(),
            final(self)@.wf(),
            final(self).cursor == final(self)@.cursor,
            final(self)@.cursor <= old(self)@.cursor,
    {
        self.cursor = self.previous_word_start();
    }

    /// Takes the characters from `from` up to `to` out of the text.
    fn remove_range(&mut self, from: usize, to: usize)
        requires
            from <= to <= old(self).chars.len(),
        ensures
            final(self).chars@ == old(self)@.without(from as int, to as int),
            final(self).cursor == old(self).cursor,
            final(self).kind == old(self).kind,
    {
        let mut kept: Vec<char> = Vec::new();
        let mut i: usize = 0;
        while i < from
            invariant
                i <= from <= to <= self.chars.len(),
                kept@ == self.chars@.subrange(0, i as int),
            decreases from - i,
        {
            kept.push(self.chars[i]);
            assert(self.chars@.subrange(0, i + 1) =~= self.chars@.subrange(0, i as int).push(
                self.chars@[i as int],
            ));
            i += 1;
        }
        let mut j: usize = to;
        while j < self.chars.len()
            invariant
                from <= to <= j <= self.chars.len(),
                kept@ == self.chars@.subrange(0, from as int) + self.chars@.subrange(
                    to as int,
                    j as int,
                ),
            decreases self.chars.len() - j,
        {
            kept.push(self.chars[j]);
            assert(self.chars@.subrange(to as int, j + 1) =~= self.chars@.subrange(
                to as int,
                j as int,
            ).push(self.chars@[j as int]));
            assert(kept@ =~= self.chars@.subrange(0, from as int) + self.chars@.subrange(
                to as int,
                j + 1,
            ));
            j += 1;
        }
        self.chars = kept;
    }

    /// Removes everything from the cursor to the end of the next word.
    pub fn delete_word_forward(&mut self) -> (change: TextChange)
        ensures
            final(self)@ == old(self)@.word_deleted_forward(),
            final(self)@.wf(),
            final(self).cursor == final(self)@.cursor,
            change == old(self)@.deletion_change(final(self)@),
            change == TextChange::Unchanged <==> old(self)@.cursor == old(self)@.text.len(),
    {
        let at = self.position();
        let end = self.next_word_end();
        proof {
            lemma_skip_forward(self.chars@, at as int, self.kind, true);
            lemma_skip_forward(
                self.chars@,
                skip_forward(self.chars@, at as int, self.kind, true),
                self.kind,
                false,
            );
        }
        self.cursor = at;
        self.remove_range(at, end);
        if end > at {
            TextChange::Rewritten
        } else {
            TextChange::Unchanged
        }
    }

    /// Removes everything from the start of the previous word to the cursor.
    pub fn delete_word_backward(&mut self) -> (change: TextChange)
        ensures
            final(self)@ == old(self)@.word_deleted_backward(),
            final(self)@.wf(),
            final(self).cursor == final(self)@.cursor,
            change == old(self)@.deletion_change(final(self)@),
            change == TextChange::Unchanged <==> old(self)@.cursor == 0,
    {
        let at = self.position();
        let start = self.previous_word_start();
        proof {
            lemma_skip_backward(self.chars@, at as int, self.kind, true);
            lemma_skip_backward(
                self.chars@,
                skip_backward(self.chars@, at as int, self.kind, true),
                self.kind,
                false,
            );
        }
        self.cursor = start;
        self.remove_range(start, at);
        if start < at {
            TextChange::Rewritten
        } else {
            TextChange::Unchanged
        }
    }

    /// Removes everything from the cursor on.
    pub fn delete_to_end(&mut self) -> (change: TextChange)
        ensures
            final(self)@ == old(self)@.truncated(),
            final(self)@.wf(),
            final(self).cursor == final(self)@.cursor,
            change == old(self)@.deletion_change(final(self)@),
            change == TextChange::Unchanged <==> old(self)@.cursor == old(self)@.text.len(),
    {
        let at = self.position();
        let change = if at < self.chars.len() {
            TextChange::Rewritten
        } else {
            TextChange::Unchanged
        };
        self.chars.truncate(at);
        self.cursor = at;
        change
    }

    /// Removes the whole text.
    pub fn clear(&mut self) -> (change: TextChange)
        ensures
            final(self)@ == old(self)@.cleared(),
            final(self)@.wf(),
            final(self).cursor == 0,
            change == old(self)@.deletion_change(final(self)@),
            change == TextChange::Unchanged <==> old(self)@.text.len() == 0,
    {
        let change = if self.chars.len() > 0 {
            TextChange::Rewritten
        } else {
            TextChange::Unchanged
        };
        self.chars.clear();
        self.cursor = 0;
        change
    }
}

} // verus!
