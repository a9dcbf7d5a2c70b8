//! A single-line text input: characters, an insertion index, and the
//! terminal column of the cursor, which counts display widths.

use vstd::prelude::*;

verus! {

/// The display width that the Unicode width tables give a character, or
/// `None` for a control character.
pub uninterp spec fn unicode_width_of(c: char) -> Option<usize>;

/// Relies on `unicode_width::UnicodeWidthChar::width` (unicode-width 0.1):
/// the result depends on the character alone; a width is at most 3
/// (the tables store 0 to 2, and one character, U+17D8, gets 3); printable
/// ASCII is one column wide.
#[verifier::external_body]
fn unicode_char_width(c: char) -> (r: Option<usize>)
    ensures
        r == unicode_width_of(c),
        r matches Some(w) ==> w <= 3,
        (0x20 <= (c as u32) < 0x7f) ==> r == Some(1usize),
{
    unicode_width::UnicodeWidthChar::width(c)
}

/// Columns taken by a character whose width lookup gave `width`: a control
/// character, which has no width, takes none.
pub open spec fn columns_for_width(width: Option<usize>) -> nat {
    match width {
        Some(w) => w as nat,
        None => 0,
    }
}

/// Columns that the cursor advances past a character.
pub open spec fn char_columns(c: char) -> nat {
    columns_for_width(unicode_width_of(c))
}

/// Total columns taken by a sequence of characters.
pub open spec fn columns(s: Seq<char>) -> nat
    decreases s.len(),
{
    if s.len() == 0 {
        0
    } else {
        columns(s.drop_last()) + char_columns(s.last())
    }
}

/// Columns for the result of a width lookup.
pub fn columns_for(width: Option<usize>) -> (r: usize)
    ensures
        r == columns_for_width(width),
{
    match width {
        Some(w) => w,
        None => 0,
    }
}

/// Columns a character takes on the terminal.
pub fn calculate_character_width(character: char) -> (r: u16)
    ensures
        r == char_columns(character),
        r <= 3,
        (0x20 <= (character as u32) < 0x7f) ==> r == 1,
{
    let w = columns_for(unicode_char_width(character));
    w as u16
}

/// Every character of `s` takes at most three columns.
pub open spec fn narrow_enough(s: Seq<char>) -> bool {
    forall|i: int| 0 <= i < s.len() ==> #[trigger] char_columns(s[i]) <= 3
}

proof fn lemma_columns_bounded(s: Seq<char>)
    requires
        narrow_enough(s),
    ensures
        columns(s) <= 3 * s.len(),
    decreases s.len(),
{
    if s.len() > 0 {
        lemma_columns_bounded(s.drop_last());
    }
}

/// What the editor holds, as mathematical values.
pub struct InputModel {
    pub chars: Seq<char>,
    pub index: nat,
    pub column: nat,
}

/// The index lies inside the text and the column counts the widths of the
/// characters before it.
pub open spec fn aligned(m: InputModel) -> bool {
    m.index <= m.chars.len() && m.column == columns(m.chars.subrange(0, m.index as int))
}

/// The editor after inserting `c` at the index.
pub open spec fn inserted(m: InputModel, c: char) -> InputModel {
    InputModel {
        chars: m.chars.insert(m.index as int, c),
        index: m.index + 1,
        column: m.column + char_columns(c),
    }
}

/// The editor after a backspace: the character before the index is removed,
/// unless the index is at the start.
pub open spec fn backspaced(m: InputModel) -> InputModel {
    if m.index == 0 || m.chars.len() == 0 {
        m
    } else {
        InputModel {
            chars: m.chars.remove(m.index - 1),
            index: (m.index - 1) as nat,
            column: (m.column - char_columns(m.chars[m.index - 1])) as nat,
        }
    }
}

/// The editor after a sequence of edits: `Some(c)` inserts `c`, `None` is a
/// backspace.
pub open spec fn after_edits(m: InputModel, edits: Seq<Option<char>>) -> InputModel
    decreases edits.len(),
{
    if edits.len() == 0 {
        m
    } else {
        let before = after_edits(m, edits.drop_last());
        match edits.last() {
            Some(c) => inserted(before, c),
            None => backspaced(before),
        }
    }
}

proof fn lemma_insert_keeps_alignment(m: InputModel, c: char)
    requires
        aligned(m),
    ensures
        aligned(inserted(m, c)),
{
    let n = inserted(m, c);
    let prefix = n.chars.subrange(0, n.index as int);
    assert(prefix.drop_last() =~= m.chars.subrange(0, m.index as int));
    assert(prefix.last() == c);
}

proof fn lemma_backspace_keeps_alignment(m: InputModel)
    requires
        aligned(m),
    ensures
        aligned(backspaced(m)),
        m.index > 0 ==> char_columns(m.chars[m.index - 1]) <= m.column,
{
    if m.index > 0 {
        let prefix = m.chars.subrange(0, m.index as int);
        assert(prefix.drop_last() =~= m.chars.subrange(0, m.index - 1));
        assert(prefix.last() == m.chars[m.index - 1]);
        assert(m.chars.remove(m.index - 1).subrange(0, m.index - 1) =~= m.chars.subrange(
            0,
            m.index - 1,
        ));
    }
}

/// Whatever the sequence of insertions and backspaces, the index stays
/// inside the text and the column equals the display width of the
/// characters before the index.
pub proof fn lemma_edits_keep_alignment(m: InputModel, edits: Seq<Option<char>>)
    requires
        aligned(m),
    ensures
        aligned(after_edits(m, edits)),
    decreases edits.len(),
{
    if edits.len() > 0 {
        lemma_edits_keep_alignment(m, edits.drop_last());
        let before = after_edits(m, edits.drop_last());
        match edits.last() {
            Some(c) => lemma_insert_keeps_alignment(before, c),
            None => lemma_backspace_keeps_alignment(before),
        }
    }
}

/// The most characters the buffer takes. A `Vec<char>` never gets this long:
/// its bytes are bounded by `isize::MAX`.
pub const MAX_INPUT_CHARS: usize = usize::MAX / 4;

/// The text being typed, the insertion index into it, and the cursor column.
pub struct InputBuffer {
    pub chars: Vec<char>,
    pub index: usize,
    pub cursor_column: usize,
}

impl View for InputBuffer {
    type V = InputModel;

    open spec fn view(&self) -> InputModel {
        InputModel {
            chars: self.chars@,
            index: self.index as nat,
            column: self.cursor_column as nat,
        }
    }
}

impl InputBuffer {
    /// The cursor column matches the text before the index, and every
    /// character held takes at most three columns.
    pub open spec fn wf(&self) -> bool {
        aligned(self@) && narrow_enough(self.chars@)
    }

    /// An empty buffer with the cursor at the start.
    pub fn new() -> (r: Self)
        ensures
            r@.chars == Seq::<char>::empty(),
            r@.index == 0,
            r@.column == 0,
            r.wf(),
    {
        let r = InputBuffer { chars: Vec::new(), index: 0, cursor_column: 0 };
        assert(r@.chars.subrange(0, 0) =~= Seq::<char>::empty());
        r
    }

    /// Inserts `c` at the index and moves the cursor past it.
    pub fn insert(&mut self, c: char)
        requires
            old(self).wf(),
            old(self).chars@.len() < MAX_INPUT_CHARS,
        ensures
            final(self)@ == inserted(old(self)@, c),
            final(self).wf(),
    {
        let width = calculate_character_width(c);
        proof {
            lemma_columns_bounded(self.chars@.subrange(0, self.index as int));
            lemma_insert_keeps_alignment(self@, c);
        }
        self.chars.insert(self.index, c);
        self.index = self.index + 1;
        self.cursor_column = self.cursor_column + width as usize;
    }

    /// Removes the character before the index and moves the cursor back over
    /// it; does nothing at the start of the text.
    pub fn backspace(&mut self)
        requires
            old(self).wf(),
        ensures
            final(self)@ == backspaced(old(self)@),
            final(self).wf(),
    {
        proof {
            lemma_backspace_keeps_alignment(self@);
        }
        if self.chars.len() > 0 && self.index > 0 {
            let c = self.chars.remove(self.index - 1);
            let width = calculate_character_width(c);
            self.index = self.index - 1;
            self.cursor_column = self.cursor_column - width as usize;
        }
    }
}

} // verus!
