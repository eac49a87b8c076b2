//! The note ("sticker") data model shared across the application.

use vstd::prelude::*;

use crate::text::{ascii_eq_ic, eq_ignore_case, str_eq_ignore_ascii_case, trim_spec, trim_str};

verus! {

/// The kind of content a note holds.
#[derive(Clone, Copy, Debug, PartialEq, Eq)]
pub enum StickerType {
    Markdown,
    Timer,
    Command,
    Paint,
}

/// The orderings the note list can be shown in.
#[derive(Clone, Copy, Debug, PartialEq, Eq)]
pub enum StickerOrderBy {
    CreatedAsc,
    CreatedDesc,
    UpdatedAsc,
    UpdatedDesc,
}

impl StickerOrderBy {
    /// The ORDER BY fragment used when listing notes.
    pub fn to_sql(self) -> (r: &'static str)
        ensures
            self is CreatedAsc ==> r@ == "created_at ASC"@,
            self is CreatedDesc ==> r@ == "created_at DESC"@,
            self is UpdatedAsc ==> r@ == "updated_at ASC"@,
            self is UpdatedDesc ==> r@ == "updated_at DESC"@,
    {
        match self {
            StickerOrderBy::CreatedAsc => "created_at ASC",
            StickerOrderBy::CreatedDesc => "created_at DESC",
            StickerOrderBy::UpdatedAsc => "updated_at ASC",
            StickerOrderBy::UpdatedDesc => "updated_at DESC",
        }
    }
}

/// Whether a note's window is currently open.
#[derive(Clone, Copy, Debug, PartialEq, Eq)]
pub enum StickerState {
    Open,
    Close,
}

/// The background color family of a note.
#[derive(Clone, Copy, Debug, PartialEq, Eq)]
pub enum StickerColor {
    Yellow,
    Green,
    Blue,
    Pink,
    Gray,
}

impl StickerColor {
    /// The color's stored name.
    pub fn as_str(&self) -> (r: &'static str)
        ensures
            self is Yellow ==> r@ == "yellow"@,
            self is Green ==> r@ == "green"@,
            self is Blue ==> r@ == "blue"@,
            self is Pink ==> r@ == "pink"@,
            self is Gray ==> r@ == "gray"@,
    {
        match self {
            StickerColor::Yellow => "yellow",
            StickerColor::Green => "green",
            StickerColor::Blue => "blue",
            StickerColor::Pink => "pink",
            StickerColor::Gray => "gray",
        }
    }

    /// The color a stored name denotes, compared after trimming and without
    /// regard to ASCII case; anything unrecognized falls back to gray.
    pub fn from_name(s: &str) -> (r: StickerColor)
        ensures
            eq_ignore_case(trim_spec(s@), "yellow"@) ==> r is Yellow,
            eq_ignore_case(trim_spec(s@), "green"@) ==> r is Green,
            eq_ignore_case(trim_spec(s@), "blue"@) ==> r is Blue,
            eq_ignore_case(trim_spec(s@), "pink"@) ==> r is Pink,
            !(eq_ignore_case(trim_spec(s@), "yellow"@) || eq_ignore_case(
                trim_spec(s@),
                "green"@,
            ) || eq_ignore_case(trim_spec(s@), "blue"@) || eq_ignore_case(
                trim_spec(s@),
                "pink"@,
            )) ==> r is Gray,
    {
        proof {
            reveal_strlit("yellow");
            reveal_strlit("green");
            reveal_strlit("blue");
            reveal_strlit("pink");
        }
        let t = trim_str(s);
        if str_eq_ignore_ascii_case(t, "yellow") {
            StickerColor::Yellow
        } else if str_eq_ignore_ascii_case(t, "green") {
            StickerColor::Green
        } else if str_eq_ignore_ascii_case(t, "blue") {
            proof {
                if eq_ignore_case(t@, "pink"@) {
                    assert(ascii_eq_ic(t@[0], "blue"@[0]));
                    assert(ascii_eq_ic(t@[0], "pink"@[0]));
                }
            }
            StickerColor::Blue
        } else if str_eq_ignore_ascii_case(t, "pink") {
            StickerColor::Pink
        } else {
            StickerColor::Gray
        }
    }
}

/// The summary row of one note, as the overview lists it.
#[derive(Clone, Debug)]
pub struct StickerBrief {
    pub id: i64,
    pub title: String,
    pub state: StickerState,
    pub color: StickerColor,
    pub sticker_type: StickerType,
    pub created_at: i64,
    pub updated_at: i64,
}

/// Everything stored about one note, as its window needs it.
#[derive(Clone, Debug)]
pub struct StickerDetail {
    pub id: i64,
    pub title: String,
    pub state: StickerState,
    pub left: i32,
    pub top: i32,
    pub width: i32,
    pub height: i32,
    pub top_most: bool,
    pub color: StickerColor,
    pub sticker_type: StickerType,
    pub content: String,
    pub created_at: i64,
    pub updated_at: i64,
}

/// What a note window reports back to the overview.
#[derive(Clone, Debug)]
pub enum StickerWindowEvent {
    Closed { id: i64 },
    ColorChanged { id: i64, color: StickerColor },
    TitleChanged { id: i64, title: String },
}

} // verus!
