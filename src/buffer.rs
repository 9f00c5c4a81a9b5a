//! The text buffer behind the editor widget.
//!
//! The buffer is iced's `text_editor::Content`: it holds the text and the
//! cursor and applies edit actions itself. What the rest of the library knows
//! of a buffer is its text and its cursor, named below.
use vstd::prelude::*;

verus! {

/// iced's text buffer, drawn with the default renderer. The editor widget
/// reads it through `content`.
#[verifier::external_body]
pub struct Buffer {
    pub content: iced::widget::text_editor::Content<iced::Renderer>,
}

/// An edit action produced by the editor widget.
pub type EditAction = iced::widget::text_editor::Action;

#[verifier::external_type_specification]
#[verifier::external_body]
pub struct ExAction(iced::widget::text_editor::Action);

/// The text that a buffer reports: its lines joined with line feeds.
pub uninterp spec fn buffer_text(b: Buffer) -> Seq<char>;

/// The cursor that a buffer reports, as a 0-based (line, column) pair.
pub uninterp spec fn buffer_cursor(b: Buffer) -> (usize, usize);

/// The text of a buffer freshly made from the given text.
pub uninterp spec fn loaded_text(s: Seq<char>) -> Seq<char>;

/// Relies on `Content::with_text`: a buffer made from `s` alone.
#[verifier::external_body]
pub(crate) fn buffer_with_text(s: &str) -> (r: Buffer)
    ensures
        buffer_text(r) == loaded_text(s@),
{
    Buffer { content: iced::widget::text_editor::Content::with_text(s) }
}

/// Relies on `Content::new`, which is `Content::with_text("")`.
#[verifier::external_body]
pub(crate) fn buffer_new() -> (r: Buffer)
    ensures
        buffer_text(r) == loaded_text(Seq::empty()),
{
    Buffer { content: iced::widget::text_editor::Content::new() }
}

/// Relies on `Content::text`: the buffer's lines joined with `'\n'`, with a
/// final `'\n'` added where the last line does not end in one.
#[verifier::external_body]
pub(crate) fn buffer_text_of(b: &Buffer) -> (r: String)
    ensures
        r@ == buffer_text(*b),
        r@.len() > 0,
        r@.last() == '\n',
{
    b.content.text()
}

/// Relies on `Content::cursor_position`: the cursor's 0-based line and column.
#[verifier::external_body]
pub(crate) fn buffer_cursor_of(b: &Buffer) -> (r: (usize, usize))
    ensures
        r == buffer_cursor(*b),
{
    b.content.cursor_position()
}

/// Relies on `Content::perform`, which applies the action to the buffer. What
/// it does to the text and the cursor depends on both, so nothing is stated.
#[verifier::external_body]
pub(crate) fn buffer_perform(b: &mut Buffer, action: EditAction) {
    b.content.perform(action)
}

} // verus!
