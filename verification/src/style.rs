//! How the notice table is painted: the look of a header cell and of a
//! data cell.
use vstd::prelude::*;
use crate::item::Item;
use crate::text::{contains, contains_str};

verus! {

/// A colour given by its red, green and blue parts.
#[derive(Clone, Copy, Debug, PartialEq, Eq, Structural)]
pub struct Rgb {
    pub r: u8,
    pub g: u8,
    pub b: u8,
}

/// The colour of a cell's text.
#[derive(Clone, Copy, Debug, PartialEq, Eq, Structural)]
pub enum Ink {
    /// A colour given by its parts.
    Color(Rgb),
    /// The toolkit's red, used for rows found by a search.
    Red,
}

/// A typeface of the toolkit.
#[derive(Clone, Copy, Debug, PartialEq, Eq, Structural)]
pub enum Face {
    Times,
    TimesBold,
    Helvetica,
    HelveticaBold,
}

/// Where a cell's text sits.
#[derive(Clone, Copy, Debug, PartialEq, Eq, Structural)]
pub enum Placement {
    Left,
    Center,
}

/// How a data cell is painted.
#[derive(Clone, Copy, Debug, PartialEq, Eq, Structural)]
pub struct CellStyle {
    pub background: Rgb,
    pub face: Face,
    pub size: u8,
    pub ink: Ink,
    pub placement: Placement,
}

/// How a column header is painted (over the toolkit's default frame).
#[derive(Clone, Copy, Debug, PartialEq, Eq, Structural)]
pub struct HeaderStyle {
    pub background: Rgb,
    pub face: Face,
    pub size: u8,
    pub ink: Rgb,
    pub placement: Placement,
}

/// What the date cell of a notice published today shows.
pub const TODAY: &'static str = "今天";

/// What the title cell of a pinned notice shows.
pub const PINNED: &'static str = "置顶";

/// What the mark cell of a row found by a search shows.
pub const FOUND: &'static str = "f";

/// The colour with the given parts.
pub open spec fn rgb(r: u8, g: u8, b: u8) -> Rgb {
    Rgb { r, g, b }
}

/// Text sits centred in the title column and to the left elsewhere.
pub open spec fn placement_of(col: i32) -> Placement {
    if col != 0 {
        Placement::Left
    } else {
        Placement::Center
    }
}

/// The background of a data cell: selected cells light blue, odd rows pale
/// blue, even rows white.
pub open spec fn cell_background(row: i32, selected: bool) -> Rgb {
    if selected {
        rgb(201, 227, 251)
    } else if row >= 0 && row % 2 == 1 {
        rgb(240, 248, 255)
    } else {
        rgb(255, 255, 255)
    }
}

/// The typeface and size of a data cell: the date column bold, the title
/// of a pinned notice bold and larger, the rest plain.
pub open spec fn cell_font(col: i32, is_top: bool) -> (Face, u8) {
    if col == 2 {
        (Face::TimesBold, 14)
    } else if is_top && col == 0 {
        (Face::TimesBold, 15)
    } else {
        (Face::Times, 14)
    }
}

/// The text colour of a data cell: red for rows found by a search; else a
/// green date for today's notices and a grey one for older ones, a blue
/// department, and a dark blue title.
pub open spec fn cell_ink(txt: Seq<char>, col: i32, is_found: bool) -> Ink {
    if is_found {
        Ink::Red
    } else if col == 2 {
        if contains(txt, TODAY@) {
            Ink::Color(rgb(0x2A, 0x9D, 0x8F))
        } else {
            Ink::Color(rgb(0x6D, 0x68, 0x75))
        }
    } else if col == 1 {
        Ink::Color(rgb(39, 118, 197))
    } else {
        Ink::Color(rgb(0, 32, 96))
    }
}

/// How the data cell at (`row`, `col`) showing `txt` is painted; the cells
/// of the hidden columns are not painted.
pub fn cell_style(txt: &str, row: i32, col: i32, selected: bool, is_top: bool, is_found: bool) -> (r:
    Option<CellStyle>)
    ensures
        col > 2 ==> r is None,
        col <= 2 ==> r == Some(
            CellStyle {
                background: cell_background(row, selected),
                face: cell_font(col, is_top).0,
                size: cell_font(col, is_top).1,
                ink: cell_ink(txt@, col, is_found),
                placement: placement_of(col),
            },
        ),
{
    if col > 2 {
        return None;
    }
    let background = if selected {
        Rgb { r: 201, g: 227, b: 251 }
    } else if row >= 0 && row % 2 == 1 {
        Rgb { r: 240, g: 248, b: 255 }
    } else {
        Rgb { r: 255, g: 255, b: 255 }
    };
    let (face, size) = if col == 2 {
        (Face::TimesBold, 14u8)
    } else if is_top && col == 0 {
        (Face::TimesBold, 15u8)
    } else {
        (Face::Times, 14u8)
    };
    let ink = if is_found {
        Ink::Red
    } else if col == 2 {
        if contains_str(txt, TODAY) {
            Ink::Color(Rgb { r: 0x2A, g: 0x9D, b: 0x8F })
        } else {
            Ink::Color(Rgb { r: 0x6D, g: 0x68, b: 0x75 })
        }
    } else if col == 1 {
        Ink::Color(Rgb { r: 39, g: 118, b: 197 })
    } else {
        Ink::Color(Rgb { r: 0, g: 32, b: 96 })
    };
    let placement = if col != 0 {
        Placement::Left
    } else {
        Placement::Center
    };
    Some(CellStyle { background, face, size, ink, placement })
}

/// How the header of column `col` is painted.
pub fn header_style(col: i32) -> (r: HeaderStyle)
    ensures
        r == (HeaderStyle {
            background: rgb(230, 240, 255),
            face: Face::TimesBold,
            size: 16,
            ink: rgb(0, 32, 96),
            placement: placement_of(col),
        }),
{
    HeaderStyle {
        background: Rgb { r: 230, g: 240, b: 255 },
        face: Face::TimesBold,
        size: 16,
        ink: Rgb { r: 0, g: 32, b: 96 },
        placement: if col != 0 {
            Placement::Left
        } else {
            Placement::Center
        },
    }
}

/// Whether a row is pinned (its title cell shows the pin mark) and whether
/// it was found by a search (its mark cell shows the found mark).
pub fn row_marks(title_cell: &str, mark_cell: &str) -> (r: (bool, bool))
    ensures
        r.0 == contains(title_cell@, PINNED@),
        r.1 == contains(mark_cell@, FOUND@),
{
    (contains_str(title_cell, PINNED), contains_str(mark_cell, FOUND))
}

/// The typeface of the table's label after the fetched notices `items` are
/// written into it: the label follows the last notice, a plain sans face for
/// a pinned one and a serif one otherwise; with no notices it stays.
pub fn table_label_face(items: &Vec<Item>) -> (f: Option<Face>)
    ensures
        items@.len() == 0 ==> f is None,
        items@.len() > 0 ==> f == Some(
            if items@.last().is_top {
                Face::Helvetica
            } else {
                Face::Times
            },
        ),
{
    let n = items.len();
    if n == 0 {
        None
    } else if items[n - 1].is_top {
        Some(Face::Helvetica)
    } else {
        Some(Face::Times)
    }
}

} // verus!
