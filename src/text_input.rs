//! Value types of text input method (IME) requests: which capabilities a
//! client supports, the purpose of a text field, and the text around the
//! caret.

use vstd::prelude::*;
use vstd::utf8::{encode_utf8, is_char_boundary};

verus! {

/// Error from sending a request to the input method.
#[derive(Debug, Clone, Copy, PartialEq, Eq, Structural)]
#[non_exhaustive]
pub enum ImeRequestError {
    /// IME is not yet enabled.
    NotEnabled,
    /// IME is already enabled.
    AlreadyEnabled,
    /// Not supported.
    NotSupported,
}

impl ImeRequestError {
    /// A sentence that describes the error.
    pub fn message(&self) -> (r: &'static str)
        ensures
            r@ == (match self {
                ImeRequestError::NotEnabled => "ime is not enabled."@,
                ImeRequestError::AlreadyEnabled => "ime is already enabled."@,
                ImeRequestError::NotSupported => "ime is not supported."@,
            }),
    {
        match self {
            ImeRequestError::NotEnabled => "ime is not enabled.",
            ImeRequestError::AlreadyEnabled => "ime is already enabled.",
            ImeRequestError::NotSupported => "ime is not supported.",
        }
    }
}

/// The capabilities in an [`ImeCapabilities`].
pub struct CapabilitySet {
    pub hint_and_purpose: bool,
    pub cursor_area: bool,
    pub surrounding_text: bool,
}

/// IME capabilities supported by a client. A capability that is not
/// enabled has updates of its data ignored.
#[derive(Debug, Clone, Copy, PartialEq, Eq, Structural, Hash)]
pub struct ImeCapabilities {
    hint_and_purpose: bool,
    cursor_area: bool,
    surrounding_text: bool,
}

impl View for ImeCapabilities {
    type V = CapabilitySet;

    closed spec fn view(&self) -> CapabilitySet {
        CapabilitySet {
            hint_and_purpose: self.hint_and_purpose,
            cursor_area: self.cursor_area,
            surrounding_text: self.surrounding_text,
        }
    }
}

impl Default for ImeCapabilities {
    fn default() -> (r: ImeCapabilities)
        ensures
            r@ == (CapabilitySet {
                hint_and_purpose: false,
                cursor_area: false,
                surrounding_text: false,
            }),
    {
        ImeCapabilities { hint_and_purpose: false, cursor_area: false, surrounding_text: false }
    }
}

impl ImeCapabilities {
    /// An empty set of capabilities.
    pub fn new() -> (r: ImeCapabilities)
        ensures
            r@ == (CapabilitySet {
                hint_and_purpose: false,
                cursor_area: false,
                surrounding_text: false,
            }),
    {
        ImeCapabilities::default()
    }

    /// Marks hint and purpose as supported.
    pub fn with_hint_and_purpose(self) -> (r: ImeCapabilities)
        ensures
            r@ == (CapabilitySet { hint_and_purpose: true, ..self@ }),
    {
        ImeCapabilities { hint_and_purpose: true, ..self }
    }

    /// Marks hint and purpose as unsupported.
    pub fn without_hint_and_purpose(self) -> (r: ImeCapabilities)
        ensures
            r@ == (CapabilitySet { hint_and_purpose: false, ..self@ }),
    {
        ImeCapabilities { hint_and_purpose: false, ..self }
    }

    /// Whether hint and purpose are supported.
    pub fn hint_and_purpose(&self) -> (r: bool)
        ensures
            r == self@.hint_and_purpose,
    {
        self.hint_and_purpose
    }

    /// Marks the cursor area as supported.
    pub fn with_cursor_area(self) -> (r: ImeCapabilities)
        ensures
            r@ == (CapabilitySet { cursor_area: true, ..self@ }),
    {
        ImeCapabilities { cursor_area: true, ..self }
    }

    /// Marks the cursor area as unsupported.
    pub fn without_cursor_area(self) -> (r: ImeCapabilities)
        ensures
            r@ == (CapabilitySet { cursor_area: false, ..self@ }),
    {
        ImeCapabilities { cursor_area: false, ..self }
    }

    /// Whether the cursor area is supported.
    pub fn cursor_area(&self) -> (r: bool)
        ensures
            r == self@.cursor_area,
    {
        self.cursor_area
    }

    /// Marks the surrounding text as supported.
    pub fn with_surrounding_text(self) -> (r: ImeCapabilities)
        ensures
            r@ == (CapabilitySet { surrounding_text: true, ..self@ }),
    {
        ImeCapabilities { surrounding_text: true, ..self }
    }

    /// Marks the surrounding text as unsupported.
    pub fn without_surrounding_text(self) -> (r: ImeCapabilities)
        ensures
            r@ == (CapabilitySet { surrounding_text: false, ..self@ }),
    {
        ImeCapabilities { surrounding_text: false, ..self }
    }

    /// Whether the surrounding text is supported.
    pub fn surrounding_text(&self) -> (r: bool)
        ensures
            r == self@.surrounding_text,
    {
        self.surrounding_text
    }
}

/// The purpose of a text field, which lets an on-screen keyboard adapt.
#[derive(Debug, Clone, Copy, PartialEq, Eq, Structural, Hash)]
#[non_exhaustive]
pub enum ImePurpose {
    /// No special purpose (the default).
    Normal,
    /// Password input; the contents are sensitive.
    Password,
    /// Input into a terminal.
    Terminal,
    /// Number, decimal separator and sign included.
    Number,
    /// Phone number.
    Phone,
    /// URL.
    Url,
    /// Email address.
    Email,
    /// Password of digits only; the contents are sensitive.
    Pin,
    /// Date.
    Date,
    /// Time.
    Time,
    /// Date and time.
    DateTime,
}

impl Default for ImePurpose {
    fn default() -> (r: ImePurpose)
        ensures
            r == ImePurpose::Normal,
    {
        ImePurpose::Normal
    }
}

/// Why an [`ImeSurroundingText`] could not be made.
#[derive(Debug, Clone, Copy, PartialEq, Eq, Structural, Hash)]
pub enum ImeSurroundingTextError {
    /// The text is `MAX_TEXT_BYTES` bytes long or longer.
    TextTooLong,
    /// The cursor is not on a code point boundary, or past the end.
    CursorBadPosition,
    /// The anchor is not on a code point boundary, or past the end.
    AnchorBadPosition,
}

/// The maximum size of a surrounding text excerpt, in bytes; an excerpt
/// must stay below it.
pub const MAX_TEXT_BYTES: usize = 4000;

/// Whether `index` is a byte offset of `text` that falls on a code point
/// boundary, the end included.
pub open spec fn valid_position(text: Seq<char>, index: usize) -> bool {
    is_char_boundary(encode_utf8(text), index as int) && index <= encode_utf8(text).len()
}

/// The text surrounding the caret, with the caret and the other end of
/// the selection as byte offsets into it.
#[derive(Debug, PartialEq, Eq, Hash)]
pub struct ImeSurroundingText {
    /// An excerpt of the text in the input field, preedit excluded.
    text: String,
    /// The position of the caret, in bytes from the start of the text.
    cursor: usize,
    /// The other end of the selection, in bytes; the cursor when there is
    /// no selection.
    anchor: usize,
}

impl Clone for ImeSurroundingText {
    fn clone(&self) -> (r: ImeSurroundingText)
        ensures
            r.spec_text() == self.spec_text(),
            r.spec_cursor() == self.spec_cursor(),
            r.spec_anchor() == self.spec_anchor(),
    {
        proof {
            use_type_invariant(self);
        }
        ImeSurroundingText { text: self.text.clone(), cursor: self.cursor, anchor: self.anchor }
    }
}

impl ImeSurroundingText {
    #[verifier::type_invariant]
    closed spec fn inv(self) -> bool {
        &&& encode_utf8(self.text@).len() < MAX_TEXT_BYTES
        &&& valid_position(self.text@, self.cursor)
        &&& valid_position(self.text@, self.anchor)
    }

    /// The text excerpt.
    pub closed spec fn spec_text(self) -> Seq<char> {
        self.text@
    }

    /// The caret's byte offset.
    pub closed spec fn spec_cursor(self) -> usize {
        self.cursor
    }

    /// The selection's other end, as a byte offset.
    pub closed spec fn spec_anchor(self) -> usize {
        self.anchor
    }

    /// Defines the text around the caret and the selection in it. Fails
    /// when the text is too long, then when the cursor, then when the
    /// anchor is not a code point boundary within it.
    pub fn new(text: String, cursor: usize, anchor: usize) -> (r: Result<
        ImeSurroundingText,
        ImeSurroundingTextError,
    >)
        ensures
            encode_utf8(text@).len() >= MAX_TEXT_BYTES ==> r == Err::<
                ImeSurroundingText,
                ImeSurroundingTextError,
            >(ImeSurroundingTextError::TextTooLong),
            encode_utf8(text@).len() < MAX_TEXT_BYTES && !valid_position(text@, cursor) ==> r
                == Err::<ImeSurroundingText, ImeSurroundingTextError>(
                ImeSurroundingTextError::CursorBadPosition,
            ),
            encode_utf8(text@).len() < MAX_TEXT_BYTES && valid_position(text@, cursor)
                && !valid_position(text@, anchor) ==> r == Err::<
                ImeSurroundingText,
                ImeSurroundingTextError,
            >(ImeSurroundingTextError::AnchorBadPosition),
            encode_utf8(text@).len() < MAX_TEXT_BYTES && valid_position(text@, cursor)
                && valid_position(text@, anchor) ==> (r matches Ok(s) && s.spec_text() == text@
                && s.spec_cursor() == cursor && s.spec_anchor() == anchor),
    {
        let len = text.as_str().as_bytes().len();
        if len >= MAX_TEXT_BYTES {
            return Err(ImeSurroundingTextError::TextTooLong);
        }
        if !(text.as_str().is_char_boundary(cursor) && cursor <= len) {
            return Err(ImeSurroundingTextError::CursorBadPosition);
        }
        if !(text.as_str().is_char_boundary(anchor) && anchor <= len) {
            return Err(ImeSurroundingTextError::AnchorBadPosition);
        }
        Ok(ImeSurroundingText { text, cursor, anchor })
    }

    /// Gives up the value, keeping the text only.
    pub fn into_text(self) -> (r: String)
        ensures
            r@ == self.spec_text(),
    {
        self.text
    }

    /// The text excerpt.
    pub fn text(&self) -> (r: &str)
        ensures
            r@ == self.spec_text(),
            encode_utf8(r@).len() < MAX_TEXT_BYTES,
    {
        proof {
            use_type_invariant(self);
        }
        self.text.as_str()
    }

    /// The caret's byte offset, on a code point boundary of the text.
    pub fn cursor(&self) -> (r: usize)
        ensures
            r == self.spec_cursor(),
            valid_position(self.spec_text(), r),
    {
        proof {
            use_type_invariant(self);
        }
        self.cursor
    }

    /// The selection's other end, on a code point boundary of the text.
    pub fn anchor(&self) -> (r: usize)
        ensures
            r == self.spec_anchor(),
            valid_position(self.spec_text(), r),
    {
        proof {
            use_type_invariant(self);
        }
        self.anchor
    }
}

} // verus!
