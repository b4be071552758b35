use vstd::prelude::*;

verus! {

/// The six glyphs of one line style, each as a text of one character.
#[derive(Debug, Clone, Copy)]
pub struct LineChars<'a> {
    pub top_left: &'a str,
    pub top_right: &'a str,
    pub bottom_left: &'a str,
    pub bottom_right: &'a str,
    pub horizontal: &'a str,
    pub vertical: &'a str,
}

/// The glyphs of the two line styles.
#[derive(Debug, Clone, Copy)]
pub struct Lines<'a> {
    pub double: LineChars<'a>,
    pub single: LineChars<'a>,
}

/// The glyph table.
#[derive(Debug, Clone, Copy)]
pub struct Chars<'a> {
    pub lines: Lines<'a>,
}

/// The six glyphs of one line style, as characters.
pub ghost struct Glyphs {
    pub top_left: char,
    pub top_right: char,
    pub bottom_left: char,
    pub bottom_right: char,
    pub horizontal: char,
    pub vertical: char,
}

impl<'a> LineChars<'a> {
    /// Every glyph is exactly one character, so that it fills one cell.
    pub open spec fn wf(&self) -> bool {
        &&& self.top_left@.len() == 1
        &&& self.top_right@.len() == 1
        &&& self.bottom_left@.len() == 1
        &&& self.bottom_right@.len() == 1
        &&& self.horizontal@.len() == 1
        &&& self.vertical@.len() == 1
    }
}

impl<'a> View for LineChars<'a> {
    type V = Glyphs;

    open spec fn view(&self) -> Glyphs {
        Glyphs {
            top_left: self.top_left@[0],
            top_right: self.top_right@[0],
            bottom_left: self.bottom_left@[0],
            bottom_right: self.bottom_right@[0],
            horizontal: self.horizontal@[0],
            vertical: self.vertical@[0],
        }
    }
}

/// The double-line glyphs.
pub open spec fn double_glyphs() -> Glyphs {
    Glyphs {
        top_left: '\u{2554}',
        top_right: '\u{2557}',
        bottom_left: '\u{255A}',
        bottom_right: '\u{255D}',
        horizontal: '\u{2550}',
        vertical: '\u{2551}',
    }
}

/// The single-line glyphs.
pub open spec fn single_glyphs() -> Glyphs {
    Glyphs {
        top_left: '\u{250C}',
        top_right: '\u{2510}',
        bottom_left: '\u{2514}',
        bottom_right: '\u{2518}',
        horizontal: '\u{2500}',
        vertical: '\u{2502}',
    }
}

/// The glyph table: the box-drawing characters of both line styles.
pub fn chars() -> (table: Chars<'static>)
    ensures
        table.lines.double.wf(),
        table.lines.double@ == double_glyphs(),
        table.lines.single.wf(),
        table.lines.single@ == single_glyphs(),
{
    proof {
        reveal_strlit("\u{2554}");
        reveal_strlit("\u{2557}");
        reveal_strlit("\u{255A}");
        reveal_strlit("\u{255D}");
        reveal_strlit("\u{2550}");
        reveal_strlit("\u{2551}");
        reveal_strlit("\u{250C}");
        reveal_strlit("\u{2510}");
        reveal_strlit("\u{2514}");
        reveal_strlit("\u{2518}");
        reveal_strlit("\u{2500}");
        reveal_strlit("\u{2502}");
    }
    Chars {
        lines: Lines {
            double: LineChars {
                top_left: "\u{2554}",
                top_right: "\u{2557}",
                bottom_left: "\u{255A}",
                bottom_right: "\u{255D}",
                horizontal: "\u{2550}",
                vertical: "\u{2551}",
            },
            single: LineChars {
                top_left: "\u{250C}",
                top_right: "\u{2510}",
                bottom_left: "\u{2514}",
                bottom_right: "\u{2518}",
                horizontal: "\u{2500}",
                vertical: "\u{2502}",
            },
        },
    }
}

} // verus!
