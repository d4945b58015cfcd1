//! The media app: a scrolling list of the images found on the SD card.
use vstd::prelude::*;

use crate::apps::common::{AppResult, W};
use crate::peripherals::touch::SwipeDirection;
use crate::ui::Color;

verus! {

/// Left edge of the list.
pub const LIST_X: i32 = 20;

/// Top of the first row of the list.
pub const LIST_Y: i32 = 86;

/// Width of the list.
pub const LIST_W: i32 = W - 40;

/// Height of a row of the list.
pub const ITEM_H: i32 = 44;

/// Rows of the list on screen at once.
pub const MAX_VISIBLE: usize = 8;

/// The state of the app as its users see it.
pub struct MediaState {
    /// Names of the images, in list order.
    pub images: Seq<String>,
    /// Index of the selected image.
    pub selected: usize,
    /// Index of the first image on screen.
    pub scroll: usize,
}

/// The first row on screen after the selection moved to `selected`: the
/// list scrolls just enough to keep the selection on screen.
pub open spec fn follow(scroll: usize, selected: usize) -> usize {
    if selected < scroll {
        selected
    } else if selected >= scroll + MAX_VISIBLE {
        (selected + 1 - MAX_VISIBLE) as usize
    } else {
        scroll
    }
}

impl MediaState {
    /// What holds of every state the app can be in: the selection is an
    /// image of the list (index 0 when there is none), and it is on
    /// screen.
    pub open spec fn wf(self) -> bool {
        &&& self.images.len() <= usize::MAX
        &&& self.images.len() == 0 ==> self.selected == 0 && self.scroll == 0
        &&& self.images.len() > 0 ==> self.selected < self.images.len()
        &&& self.scroll <= self.selected < self.scroll + MAX_VISIBLE
    }

    /// The selection after a move one image down (`down`) or up, stopping
    /// at either end of the list.
    pub open spec fn moved(self, down: bool) -> MediaState {
        if self.images.len() == 0 {
            self
        } else {
            let sel = if down {
                if self.selected + 1 < self.images.len() {
                    (self.selected + 1) as usize
                } else {
                    (self.images.len() - 1) as usize
                }
            } else {
                if self.selected == 0 {
                    0usize
                } else {
                    (self.selected - 1) as usize
                }
            };
            MediaState { selected: sel, scroll: follow(self.scroll, sel), ..self }
        }
    }

    /// The images on screen, from the first one down.
    pub open spec fn visible(self) -> Seq<String> {
        let end = if self.scroll + MAX_VISIBLE < self.images.len() {
            self.scroll + MAX_VISIBLE
        } else {
            self.images.len() as int
        };
        self.images.subrange(self.scroll as int, end)
    }
}

/// A row of the list on screen.
pub struct MediaRow {
    /// The image's name.
    pub name: String,
    /// The row shows the selected image.
    pub active: bool,
    /// Background of the row.
    pub bg: Color,
}

/// What the media screen shows that depends on the state. No rows means
/// that no image was found.
pub struct MediaScreen {
    pub rows: Vec<MediaRow>,
}

/// Position in the list: the selected image and the first one on screen.
/// Kept together so that both change in one step.
#[derive(Clone, Copy)]
struct Cursor {
    selected: usize,
    scroll: usize,
}

/// The media app.
pub struct MediaApp {
    images: Vec<String>,
    cursor: Cursor,
}

impl View for MediaApp {
    type V = MediaState;

    closed spec fn view(&self) -> MediaState {
        MediaState {
            images: self.images@,
            selected: self.cursor.selected,
            scroll: self.cursor.scroll,
        }
    }
}

/// The cursor after the selection moved to `sel`, which lies in a list of
/// `len > 0` images.
fn follow_cursor(cursor: Cursor, sel: usize, len: usize) -> (res: Cursor)
    requires
        sel < len,
        cursor.scroll <= cursor.selected < cursor.scroll + MAX_VISIBLE,
        cursor.selected < len,
    ensures
        res.selected == sel,
        res.scroll == follow(cursor.scroll, sel),
        res.scroll <= res.selected < res.scroll + MAX_VISIBLE,
{
    let scroll = if sel < cursor.scroll {
        sel
    } else if sel - cursor.scroll >= MAX_VISIBLE {
        sel + 1 - MAX_VISIBLE
    } else {
        cursor.scroll
    };
    Cursor { selected: sel, scroll }
}

impl MediaApp {
    #[verifier::type_invariant]
    spec fn inv(&self) -> bool {
        self@.wf()
    }

    /// No images, nothing selected.
    pub fn new() -> (res: Self)
        ensures
            res@.wf(),
            res@.images.len() == 0,
            res@.selected == 0,
            res@.scroll == 0,
    {
        Self { images: Vec::new(), cursor: Cursor { selected: 0, scroll: 0 } }
    }

    /// Replaces the list of images. The selection stays where it was if
    /// that index is still in the list, and goes back to the first image
    /// otherwise; the list scrolls so that the selection comes first.
    pub fn set_images(&mut self, images: Vec<String>)
        ensures
            final(self)@.wf(),
            final(self)@.images == images@,
            final(self)@.selected == (if old(self)@.selected >= images@.len() {
                0
            } else {
                old(self)@.selected
            }),
            final(self)@.scroll == final(self)@.selected,
    {
        let mut sel = self.cursor.selected;
        if sel >= images.len() {
            sel = 0;
        }
        let last = images.len().saturating_sub(1);
        let scroll = if sel < last {
            sel
        } else {
            last
        };
        *self = MediaApp { images, cursor: Cursor { selected: sel, scroll } };
    }

    /// Selects image `idx`, or the last image where `idx` is past the
    /// end; the list scrolls just enough to show it.
    pub fn set_selected_index(&mut self, idx: usize)
        ensures
            final(self)@.wf(),
            final(self)@.images == old(self)@.images,
            old(self)@.images.len() == 0 ==> final(self)@.selected == 0 && final(self)@.scroll
                == 0,
            old(self)@.images.len() > 0 ==> {
                let sel = if idx < old(self)@.images.len() {
                    idx
                } else {
                    (old(self)@.images.len() - 1) as usize
                };
                &&& final(self)@.selected == sel
                &&& final(self)@.scroll == follow(old(self)@.scroll, sel)
            },
    {
        proof {
            use_type_invariant(&*self);
        }
        if self.images.len() == 0 {
            self.cursor = Cursor { selected: 0, scroll: 0 };
            return;
        }
        let sel = if idx < self.images.len() {
            idx
        } else {
            self.images.len() - 1
        };
        self.cursor = follow_cursor(self.cursor, sel, self.images.len());
    }

    pub fn selected_index(&self) -> (res: usize)
        ensures
            res == self@.selected,
    {
        self.cursor.selected
    }

    pub fn image_count(&self) -> (res: usize)
        ensures
            res == self@.images.len(),
    {
        self.images.len()
    }

    /// Moves the selection one image down (`down`) or up.
    fn move_selection(&mut self, down: bool)
        ensures
            final(self)@.wf(),
            final(self)@ == old(self)@.moved(down),
    {
        proof {
            use_type_invariant(&*self);
        }
        if self.images.len() == 0 {
            return;
        }
        let cur = self.cursor.selected;
        let sel = if down {
            if cur + 1 < self.images.len() {
                cur + 1
            } else {
                self.images.len() - 1
            }
        } else {
            cur.saturating_sub(1)
        };
        self.cursor = follow_cursor(self.cursor, sel, self.images.len());
    }

    pub fn name(&self) -> (res: &'static str)
        ensures
            res@ == "Media"@,
    {
        "Media"
    }

    pub fn setup(&mut self)
        ensures
            final(self)@ == old(self)@,
    {
    }

    /// Acts on the swipe of this frame, if any: a swipe up moves the
    /// selection one image down the list, a swipe down one image up.
    pub fn update(&mut self, swipe: Option<SwipeDirection>) -> (res: AppResult)
        ensures
            final(self)@.wf(),
            final(self)@ == (match swipe {
                Some(SwipeDirection::Up) => old(self)@.moved(true),
                Some(SwipeDirection::Down) => old(self)@.moved(false),
                _ => old(self)@,
            }),
            res == AppResult::Continue,
    {
        proof {
            use_type_invariant(&*self);
        }
        match swipe {
            Some(SwipeDirection::Up) => self.move_selection(true),
            Some(SwipeDirection::Down) => self.move_selection(false),
            _ => {},
        }
        AppResult::Continue
    }

    /// The rows on screen: the images from the first one shown, at most
    /// [`MAX_VISIBLE`] of them, the selected one highlighted.
    pub fn screen(&self) -> (res: MediaScreen)
        ensures
            res.rows@.len() == self@.visible().len(),
            forall|i: int|
                0 <= i < res.rows@.len() ==> {
                    &&& (#[trigger] res.rows@[i]).name == self@.visible()[i]
                    &&& res.rows@[i].active == (self@.scroll + i == self@.selected)
                    &&& res.rows@[i].bg == (if res.rows@[i].active {
                        Color::Rgb(4, 12, 16)
                    } else {
                        Color::Rgb(2, 4, 6)
                    })
                },
    {
        proof {
            use_type_invariant(self);
        }
        let mut rows: Vec<MediaRow> = Vec::new();
        let len = self.images.len();
        let scroll = self.cursor.scroll;
        let mut i: usize = 0;
        while i < MAX_VISIBLE && i < len - scroll
            invariant
                self@.wf(),
                len == self@.images.len(),
                scroll == self@.scroll,
                i <= MAX_VISIBLE,
                scroll + i <= len,
                rows@.len() == i,
                forall|j: int|
                    0 <= j < i ==> {
                        &&& (#[trigger] rows@[j]).name == self@.images[scroll + j]
                        &&& rows@[j].active == (scroll + j == self@.selected)
                        &&& rows@[j].bg == (if rows@[j].active {
                            Color::Rgb(4, 12, 16)
                        } else {
                            Color::Rgb(2, 4, 6)
                        })
                    },
            decreases MAX_VISIBLE - i,
        {
            let idx = scroll + i;
            let active = idx == self.cursor.selected;
            rows.push(
                MediaRow {
                    name: self.images[idx].clone(),
                    active,
                    bg: if active {
                        Color::Rgb(4, 12, 16)
                    } else {
                        Color::Rgb(2, 4, 6)
                    },
                },
            );
            i += 1;
        }
        assert forall|j: int| 0 <= j < rows@.len() implies #[trigger] self@.visible()[j]
            == self@.images[scroll + j] by {}
        MediaScreen { rows }
    }
}

/// The selected image is always on screen, in its place among the rows.
pub proof fn lemma_selection_on_screen(s: MediaState)
    requires
        s.wf(),
        s.images.len() > 0,
    ensures
        0 <= s.selected - s.scroll < s.visible().len(),
        s.visible()[s.selected - s.scroll] == s.images[s.selected as int],
{
}

/// Moving down and back up returns to the same image, unless the
/// selection was already on the last one; every move keeps the state
/// valid.
pub proof fn lemma_move_down_then_up(s: MediaState)
    requires
        s.wf(),
        s.selected + 1 < s.images.len(),
    ensures
        s.moved(true).wf(),
        s.moved(true).moved(false).selected == s.selected,
        s.moved(true).moved(false).wf(),
{
}

} // verus!
