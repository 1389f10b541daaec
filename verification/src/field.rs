//! Text fields of the forms, backed by `tui_input::Input`.
//!
//! Verus sees an `Input` as an opaque value. What it holds is named by two
//! specification functions, and the few operations that the forms use are
//! given contracts over those names.

use vstd::prelude::*;
use tui_input::{Input, InputRequest};

verus! {

/// `tui_input::Input`, made known to the verifier as a value without
/// visible parts.
#[verifier::external_type_specification]
#[verifier::external_body]
pub struct ExInput(Input);

/// The characters that an input holds, in order.
pub uninterp spec fn text_of(input: Input) -> Seq<char>;

/// The number of characters that precede the cursor of an input.
pub uninterp spec fn cursor_of(input: Input) -> nat;

/// The last boundary between grapheme clusters of `text` that lies before
/// position `at`, counted in characters. Where `at` is 0 no boundary lies
/// before it and the value carries no meaning.
pub uninterp spec fn cluster_start(text: Seq<char>, at: nat) -> nat;

/// The position at which an input with this text and cursor edits: the
/// cursor, or the end of the text where the cursor lies beyond it.
pub open spec fn edit_point(text: Seq<char>, cursor: nat) -> nat {
    if cursor <= text.len() {
        cursor
    } else {
        text.len()
    }
}

/// `Input::value`: the text of the input.
pub assume_specification[ Input::value ](input: &Input) -> (text: &str)
    ensures
        text@ == text_of(*input),
;

/// `Input::from` for a string slice: an input that holds the given text,
/// with the cursor behind its last character.
#[verifier::external_body]
pub(crate) fn input_with(text: &str) -> (input: Input)
    ensures
        text_of(input) == text@,
        cursor_of(input) == text@.len(),
{
    Input::from(text)
}

/// `Input::default`: an input without text, the cursor at 0.
#[verifier::external_body]
pub(crate) fn input_empty() -> (input: Input)
    ensures
        text_of(input) == Seq::<char>::empty(),
        cursor_of(input) == 0,
{
    Input::default()
}

/// Whether `after` is `before` with the character `c` typed into it: `c`
/// stands at the edit point and the cursor has moved one character on.
pub open spec fn typed(before: Input, c: char, after: Input) -> bool {
    &&& text_of(after) == text_of(before).insert(
        edit_point(text_of(before), cursor_of(before)) as int,
        c,
    )
    &&& cursor_of(after) == cursor_of(before) + 1
}

/// What `text` holds once the grapheme cluster before the edit point is
/// taken out; `text` itself where nothing precedes the edit point.
pub open spec fn text_after_delete(text: Seq<char>, cursor: nat) -> Seq<char> {
    let at = edit_point(text, cursor);
    if at == 0 {
        text
    } else {
        text.subrange(0, cluster_start(text, at) as int) + text.subrange(
            at as int,
            text.len() as int,
        )
    }
}

/// Where the cursor stands after that deletion: it moves back by the number
/// of characters removed.
pub open spec fn cursor_after_delete(text: Seq<char>, cursor: nat) -> nat {
    let at = edit_point(text, cursor);
    if at == 0 {
        cursor
    } else {
        (cursor - (at - cluster_start(text, at))) as nat
    }
}

/// Whether `after` is `before` with the grapheme cluster before the edit
/// point erased.
pub open spec fn erased(before: Input, after: Input) -> bool {
    &&& text_of(after) == text_after_delete(text_of(before), cursor_of(before))
    &&& cursor_of(after) == cursor_after_delete(text_of(before), cursor_of(before))
}

/// An edit of an input.
#[derive(Debug, Clone, Copy)]
pub(crate) enum Edit {
    /// Put this character in at the edit point.
    Insert(char),
    /// Take out the grapheme cluster before the edit point.
    Erase,
}

/// `Input::handle`, with `InputRequest::InsertChar` for an insertion and
/// `InputRequest::DeletePrevChar` for an erasure.
///
/// An inserted character stands at the edit point, and the cursor has moved
/// one character on. An erasure takes the grapheme cluster before the edit
/// point out of the text and moves the cursor back by its length: at least
/// one character goes wherever one precedes the edit point, and nothing
/// changes where none does.
#[verifier::external_body]
pub(crate) fn apply(input: &mut Input, edit: Edit)
    ensures
        match edit {
            Edit::Insert(c) => typed(*old(input), c, *final(input)),
            Edit::Erase => {
                let at = edit_point(text_of(*old(input)), cursor_of(*old(input)));
                &&& erased(*old(input), *final(input))
                &&& at > 0 ==> cluster_start(text_of(*old(input)), at) < at
            },
        },
{
    let request = match edit {
        Edit::Insert(c) => InputRequest::InsertChar(c),
        Edit::Erase => InputRequest::DeletePrevChar,
    };
    let _ = input.handle(request);
}

} // verus!
