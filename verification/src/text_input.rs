//! Writing a bound text into a text input (text box, password box,
//! auto-suggest box, rich edit box) without disturbing the user's edit.
use vstd::prelude::*;

verus! {

/// What to do with a bound text.
#[derive(PartialEq, Eq, Structural, Clone, Copy, Debug)]
pub enum TextWrite {
    /// The control already shows the text: writing it again during the
    /// user's own edit would steal the focus.
    Skip,
    /// Write the text.
    Write,
    /// Make the control writable, write the text, make it read-only again.
    WriteUnlocked,
}

pub open spec fn text_write_of(current: Option<Seq<char>>, new: Seq<char>, read_only: bool) -> TextWrite {
    if current == Some(new) {
        TextWrite::Skip
    } else if read_only {
        TextWrite::WriteUnlocked
    } else {
        TextWrite::Write
    }
}

/// The write of `new` into a control showing `current` (`None` when it
/// could not be read); `read_only` says the control refuses edits.
pub fn text_write(current: &Option<String>, new: &String, read_only: bool) -> (w: TextWrite)
    ensures
        w == text_write_of(
            match current {
                Some(c) => Some(c@),
                None => None,
            },
            new@,
            read_only,
        ),
{
    let same = match current {
        Some(c) => c.eq(new),
        None => false,
    };
    if same {
        TextWrite::Skip
    } else if read_only {
        TextWrite::WriteUnlocked
    } else {
        TextWrite::Write
    }
}

} // verus!
