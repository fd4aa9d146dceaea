//! The fixed screen layout: five labels, their data binding, hit testing, and
//! where a rendered image goes inside its label.
use vstd::prelude::*;

use crate::model::Model;
use crate::text::{ellipsize_text, ellipsized};

verus! {

/// Width of the display, in pixels.
pub const WIDTH: usize = 480;

/// Height of the display, in pixels.
pub const HEIGHT: usize = 320;

/// Side of each square button.
pub const BUTTON_SIZE: usize = 128;

/// Top edge of the button row.
pub const BUTTON_Y: usize = 144;

/// Gap between neighbouring buttons.
pub const BUTTON_SPACING: usize = 16;

/// Left margin of the text labels.
pub const TEXT_X: usize = 48;

/// Top edge of the title label.
pub const TITLE_Y: usize = 48;

/// Top edge of the artist label.
pub const ARTIST_Y: usize = 80;

/// Height of each text label.
pub const TEXT_H: usize = 32;

/// Glyph shown while playing (pressing it pauses).
pub const ICON_PAUSE: &'static str = "\u{e034}";

/// Glyph shown while paused (pressing it plays).
pub const ICON_PLAY: &'static str = "\u{e037}";

/// Glyph of the skip button.
pub const ICON_SKIP_NEXT: &'static str = "\u{e044}";

/// Glyph shown when the track is saved.
pub const ICON_TICK: &'static str = "\u{e876}";

/// Glyph shown when the track can be saved.
pub const ICON_ADD: &'static str = "\u{e145}";

/// The characters of `ICON_PAUSE`.
pub open spec fn icon_pause() -> Seq<char> {
    seq!['\u{e034}']
}

/// The characters of `ICON_PLAY`.
pub open spec fn icon_play() -> Seq<char> {
    seq!['\u{e037}']
}

/// The characters of `ICON_SKIP_NEXT`.
pub open spec fn icon_skip_next() -> Seq<char> {
    seq!['\u{e044}']
}

/// The characters of `ICON_TICK`.
pub open spec fn icon_tick() -> Seq<char> {
    seq!['\u{e876}']
}

/// The characters of `ICON_ADD`.
pub open spec fn icon_add() -> Seq<char> {
    seq!['\u{e145}']
}

/// The three fonts a label can be drawn with.
#[derive(PartialEq, Eq, Structural, Clone, Copy, Debug)]
pub enum FontId {
    /// Regular text face at 24 points.
    Text24,
    /// Regular text face at 18 points.
    Text18,
    /// Icon face at 128 points.
    Icons128,
}

/// An opaque colour.
#[derive(PartialEq, Eq, Structural, Clone, Copy, Debug)]
pub struct Color {
    pub r: u8,
    pub g: u8,
    pub b: u8,
}

/// What happens to text wider than its label.
#[derive(PartialEq, Eq, Structural, Clone, Copy, Debug)]
pub enum Overflow {
    Hidden,
    Ellipsis,
}

/// Horizontal placement of the image inside its label.
#[derive(PartialEq, Eq, Structural, Clone, Copy, Debug)]
pub enum TextAlign {
    Left,
    Center,
}

/// A playback command chosen by a click.
#[derive(PartialEq, Eq, Structural, Clone, Copy, Debug)]
pub enum Action {
    Save,
    PlayPause,
    SkipNext,
}

/// A point on the display, in pixels; it may lie off screen.
#[derive(PartialEq, Eq, Structural, Clone, Copy, Debug)]
pub struct Point {
    pub x: i32,
    pub y: i32,
}

/// A fixed rectangle of the display with the text drawn in it.
pub struct Label {
    pub x: usize,
    pub y: usize,
    pub w: usize,
    pub h: usize,
    pub color: Color,
    pub font: FontId,
    pub text: String,
    pub overflow: Overflow,
    pub align: TextAlign,
}

/// The point lies in the label's rectangle, left and top edges included.
pub open spec fn contains(l: Label, px: int, py: int) -> bool {
    &&& l.x <= px < l.x + l.w
    &&& l.y <= py < l.y + l.h
}

/// The two labels' rectangles share no pixel.
pub open spec fn disjoint(a: Label, b: Label) -> bool {
    ||| a.x + a.w <= b.x
    ||| b.x + b.w <= a.x
    ||| a.y + a.h <= b.y
    ||| b.y + b.h <= a.y
}

/// The label has the given rectangle.
pub open spec fn has_rect(l: Label, x: int, y: int, w: int, h: int) -> bool {
    l.x == x && l.y == y && l.w == w && l.h == h
}

/// Everything about the two labels but their text is the same.
pub open spec fn same_frame(a: Label, b: Label) -> bool {
    &&& a.x == b.x && a.y == b.y && a.w == b.w && a.h == b.h
    &&& a.color == b.color && a.font == b.font && a.overflow == b.overflow && a.align == b.align
}

/// Offset that centres a span of `inner` pixels in a span of `outer` pixels;
/// an inner span larger than the outer one starts at the outer one's start.
pub open spec fn centre_offset(outer: int, inner: int) -> int {
    if inner < outer { (outer - inner) / 2 } else { 0 }
}

impl Label {
    fn new_label(
        x: usize,
        y: usize,
        w: usize,
        h: usize,
        color: Color,
        font: FontId,
        overflow: Overflow,
        align: TextAlign,
    ) -> (r: Label)
        ensures
            has_rect(r, x as int, y as int, w as int, h as int),
            r.color == color && r.font == font && r.overflow == overflow && r.align == align,
            r.text@.len() == 0,
    {
        Label { x, y, w, h, color, font, text: String::new(), overflow, align }
    }

    /// The point lies in this label's rectangle.
    pub fn in_bounds(&self, point: &Point) -> (r: bool)
        ensures
            r == contains(*self, point.x as int, point.y as int),
    {
        if point.x < 0 || point.y < 0 {
            return false;
        }
        let px = point.x as usize;
        let py = point.y as usize;
        px >= self.x && px - self.x < self.w && py >= self.y && py - self.y < self.h
    }

    /// Where an image of `img_w` by `img_h` pixels is drawn: centred
    /// vertically, and left-aligned or centred horizontally as the label says.
    pub fn place(&self, img_w: u32, img_h: u32) -> (r: (usize, usize))
        requires
            self.x + self.w <= usize::MAX,
            self.y + self.h <= usize::MAX,
        ensures
            r.1 == self.y + centre_offset(self.h as int, img_h as int),
            r.0 == match self.align {
                TextAlign::Left => self.x as int,
                TextAlign::Center => self.x + centre_offset(self.w as int, img_w as int),
            },
    {
        let ih = img_h as usize;
        let iw = img_w as usize;
        let dh = if ih < self.h { ih } else { self.h };
        let dw = if iw < self.w { iw } else { self.w };
        let y = self.y + (self.h - dh) / 2;
        let x = match self.align {
            TextAlign::Left => self.x,
            TextAlign::Center => self.x + (self.w - dw) / 2,
        };
        (x, y)
    }

    /// The text to rasterise: shortened with an ellipsis to fit the label's
    /// width where the label asks for it, else the text as it stands.
    pub fn display_text<E, F: Fn(&str) -> Result<u32, E>>(&self, measure: F) -> (r: Result<String, E>)
        requires
            forall|x: &str| measure.requires((x,)),
        ensures
            self.overflow == Overflow::Hidden ==> (r matches Ok(t) && t@ == self.text@),
            self.overflow == Overflow::Ellipsis ==> match r {
                Ok(t) => ellipsized(measure, self.text@, self.w as int, Ok(t@)),
                Err(e) => ellipsized(measure, self.text@, self.w as int, Err(e)),
            },
    {
        match self.overflow {
            Overflow::Ellipsis => ellipsize_text(measure, self.text.clone(), self.w),
            Overflow::Hidden => Ok(self.text.clone()),
        }
    }
}

/// The five labels of the display.
pub struct Ui {
    title: Label,
    artist: Label,
    save: Label,
    play: Label,
    next: Label,
}

/// The action a click at (`px`, `py`) chooses on the layout.
pub open spec fn hit(ui: Ui, px: int, py: int) -> Option<Action> {
    if contains(ui.save_label(), px, py) {
        Some(Action::Save)
    } else if contains(ui.play_label(), px, py) {
        Some(Action::PlayPause)
    } else if contains(ui.next_label(), px, py) {
        Some(Action::SkipNext)
    } else {
        None
    }
}

impl Ui {
    /// The labels in drawing order: title, artist, save, play, skip.
    pub open spec fn label_seq(self) -> Seq<Label> {
        seq![self.title_label(), self.artist_label(), self.save_label(), self.play_label(), self.next_label()]
    }

    /// The title label.
    pub closed spec fn title_label(self) -> Label {
        self.title
    }

    /// The artist label.
    pub closed spec fn artist_label(self) -> Label {
        self.artist
    }

    /// The save button.
    pub closed spec fn save_label(self) -> Label {
        self.save
    }

    /// The play/pause button.
    pub closed spec fn play_label(self) -> Label {
        self.play
    }

    /// The skip button.
    pub closed spec fn next_label(self) -> Label {
        self.next
    }

    /// Every label has its fixed rectangle.
    pub open spec fn wf(self) -> bool {
        &&& has_rect(self.title_label(), TEXT_X as int, TITLE_Y as int, WIDTH - 2 * TEXT_X, TEXT_H as int)
        &&& has_rect(self.artist_label(), TEXT_X as int, ARTIST_Y as int, WIDTH - 2 * TEXT_X, TEXT_H as int)
        &&& has_rect(
            self.save_label(),
            WIDTH / 2 - BUTTON_SIZE / 2 - BUTTON_SPACING - BUTTON_SIZE,
            BUTTON_Y as int,
            BUTTON_SIZE as int,
            BUTTON_SIZE as int,
        )
        &&& has_rect(self.play_label(), WIDTH / 2 - BUTTON_SIZE / 2, BUTTON_Y as int, BUTTON_SIZE as int, BUTTON_SIZE as int)
        &&& has_rect(
            self.next_label(),
            WIDTH / 2 + BUTTON_SIZE / 2 + BUTTON_SPACING,
            BUTTON_Y as int,
            BUTTON_SIZE as int,
            BUTTON_SIZE as int,
        )
    }

    /// The layout with every label empty: two left-aligned text labels that
    /// shorten with an ellipsis, and three centred icon buttons in a row.
    pub fn new() -> (r: Ui)
        ensures
            r.wf(),
            forall|i: int| 0 <= i < 5 ==> (#[trigger] r.label_seq()[i]).text@.len() == 0,
            r.title_label().overflow == Overflow::Ellipsis && r.title_label().align == TextAlign::Left,
            r.artist_label().overflow == Overflow::Ellipsis && r.artist_label().align == TextAlign::Left,
            r.title_label().font == FontId::Text24 && r.artist_label().font == FontId::Text18,
            forall|i: int|
                2 <= i < 5 ==> (#[trigger] r.label_seq()[i]).overflow == Overflow::Hidden
                    && r.label_seq()[i].align == TextAlign::Center && r.label_seq()[i].font
                    == FontId::Icons128,
    {
        let white = Color { r: 255, g: 255, b: 255 };
        let grey = Color { r: 169, g: 169, b: 169 };
        let text_w = WIDTH - TEXT_X * 2;
        let mid = WIDTH / 2;
        let half = BUTTON_SIZE / 2;
        let r = Ui {
            title: Label::new_label(
                TEXT_X,
                TITLE_Y,
                text_w,
                TEXT_H,
                white,
                FontId::Text24,
                Overflow::Ellipsis,
                TextAlign::Left,
            ),
            artist: Label::new_label(
                TEXT_X,
                ARTIST_Y,
                text_w,
                TEXT_H,
                white,
                FontId::Text18,
                Overflow::Ellipsis,
                TextAlign::Left,
            ),
            save: Label::new_label(
                mid - half - BUTTON_SPACING - BUTTON_SIZE,
                BUTTON_Y,
                BUTTON_SIZE,
                BUTTON_SIZE,
                grey,
                FontId::Icons128,
                Overflow::Hidden,
                TextAlign::Center,
            ),
            play: Label::new_label(
                mid - half,
                BUTTON_Y,
                BUTTON_SIZE,
                BUTTON_SIZE,
                grey,
                FontId::Icons128,
                Overflow::Hidden,
                TextAlign::Center,
            ),
            next: Label::new_label(
                mid + half + BUTTON_SPACING,
                BUTTON_Y,
                BUTTON_SIZE,
                BUTTON_SIZE,
                grey,
                FontId::Icons128,
                Overflow::Hidden,
                TextAlign::Center,
            ),
        };
        r
    }

    /// The labels in drawing order: title, artist, save, play, skip.
    pub fn labels(&self) -> (r: Vec<&Label>)
        ensures
            r@.len() == 5,
            forall|i: int| 0 <= i < 5 ==> *r@[i] == self.label_seq()[i],
    {
        let mut r: Vec<&Label> = Vec::new();
        r.push(&self.title);
        r.push(&self.artist);
        r.push(&self.save);
        r.push(&self.play);
        r.push(&self.next);
        r
    }

    /// Shows `model`: the title and the (already joined) artists as they
    /// stand, the save glyph by the saved flag, the play glyph by the playing
    /// flag, and the skip glyph. Nothing but the texts changes.
    pub fn update_data(&mut self, model: &Model)
        ensures
            final(self).title_label().text@ == model.track_name@,
            final(self).artist_label().text@ == model.track_artist@,
            final(self).save_label().text@ == (if model.saved { icon_tick() } else { icon_add() }),
            final(self).play_label().text@ == (if model.playing { icon_pause() } else { icon_play() }),
            final(self).next_label().text@ == icon_skip_next(),
            old(self).wf() ==> final(self).wf(),
            forall|i: int|
                0 <= i < 5 ==> same_frame(#[trigger] final(self).label_seq()[i], old(self).label_seq()[i]),
    {
        proof {
            reveal_strlit("\u{e034}");
            reveal_strlit("\u{e037}");
            reveal_strlit("\u{e044}");
            reveal_strlit("\u{e876}");
            reveal_strlit("\u{e145}");
        }
        self.title.text = model.track_name.clone();
        self.artist.text = model.track_artist.clone();
        self.save.text = if model.saved { ICON_TICK } else { ICON_ADD }.to_owned();
        self.play.text = if model.playing { ICON_PAUSE } else { ICON_PLAY }.to_owned();
        self.next.text = ICON_SKIP_NEXT.to_owned();
    }

    /// The button under a click: exactly the button whose rectangle holds the
    /// point, and none where no button's rectangle does.
    pub fn click(&self, point: Point) -> (r: Option<Action>)
        requires
            self.wf(),
        ensures
            r == hit(*self, point.x as int, point.y as int),
            (r == Some(Action::Save)) == contains(self.save_label(), point.x as int, point.y as int),
            (r == Some(Action::PlayPause)) == contains(self.play_label(), point.x as int, point.y as int),
            (r == Some(Action::SkipNext)) == contains(self.next_label(), point.x as int, point.y as int),
            r is None == !(contains(self.save_label(), point.x as int, point.y as int) || contains(
                self.play_label(),
                point.x as int,
                point.y as int,
            ) || contains(self.next_label(), point.x as int, point.y as int)),
    {
        if self.save.in_bounds(&point) {
            Some(Action::Save)
        } else if self.play.in_bounds(&point) {
            Some(Action::PlayPause)
        } else if self.next.in_bounds(&point) {
            Some(Action::SkipNext)
        } else {
            None
        }
    }
}

/// No two labels of the layout share a pixel.
pub proof fn lemma_labels_disjoint(ui: Ui)
    requires
        ui.wf(),
    ensures
        forall|i: int, j: int|
            0 <= i < 5 && 0 <= j < 5 && i != j ==> disjoint(
                #[trigger] ui.label_seq()[i],
                #[trigger] ui.label_seq()[j],
            ),
{
}

/// The buttons are equal squares in one row, `BUTTON_SPACING` apart, and the
/// row is centred on the display.
pub proof fn lemma_button_row(ui: Ui)
    requires
        ui.wf(),
    ensures
        ui.save_label().w == ui.save_label().h && ui.play_label().w == ui.play_label().h && ui.next_label().w == ui.next_label().h,
        ui.save_label().w == ui.play_label().w && ui.play_label().w == ui.next_label().w,
        ui.save_label().y == ui.play_label().y && ui.play_label().y == ui.next_label().y,
        ui.save_label().x + ui.save_label().w + BUTTON_SPACING == ui.play_label().x,
        ui.play_label().x + ui.play_label().w + BUTTON_SPACING == ui.next_label().x,
        ui.save_label().x + (ui.next_label().x + ui.next_label().w) == WIDTH,
        ui.next_label().y + ui.next_label().h <= HEIGHT && ui.next_label().x + ui.next_label().w <= WIDTH,
{
}

} // verus!
