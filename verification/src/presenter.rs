//! The presenter composer: the preview image of a series.
//!
//! The presenter is the branded template with the poster pasted at its left
//! edge, the title fitted into the box beside it, and the release year and
//! the four counts at fixed places. Decoding, resampling, text layout and
//! drawing are the work of the `ril` crate; the geometry, the fitting of the
//! title and what is written where are decided here.

use vstd::prelude::*;
use crate::codec::{
    area_within, decode_as, decoded_image, decodes_to_size, encode, encoded, is_sound,
    raster_of, resized_raster, same_shape, same_size, ImageData, ImageFormat, PixelBuffer,
    Raster, MAX_PIXELS,
};
use crate::color::{brand_accent, white, Color};
use crate::derivative::{
    artifact_path, get_presenter_path, Artifact, PRESENTER_FOLDER, THUMBNAIL_HEIGHT,
    THUMBNAIL_WIDTH,
};
use crate::placeholder::{accent_or_brand, resolve_accent};
use crate::text::{chars_of, decimal, decimal_text, text_of};
use crate::types::AnimeSeries;

verus! {

/// The most characters of a title that are laid out.
pub const TITLE_MAX_CHARS: usize = 585;

/// The font size at which the fitting of a title starts.
pub const TITLE_BASE_FONT_SIZE: u16 = 64;

/// The font size below which a title is never shrunk.
pub const TITLE_MIN_FONT_SIZE: u16 = 16;

/// The left edge of the title box.
pub const TITLE_X: u32 = 452;

/// The top edge of the title box.
pub const TITLE_Y: u32 = 82;

/// The margin kept free at the right of the title box.
pub const TITLE_MARGIN: u32 = 64;

/// The height of the title box.
pub const TITLE_MAX_HEIGHT: u32 = 212;

/// The font size of the release year.
pub const YEAR_FONT_SIZE: u16 = 28;

/// The centre of the release year.
pub const YEAR_X: u32 = 516;

pub const YEAR_Y: u32 = 55;

/// The font size of the four counts.
pub const COUNT_FONT_SIZE: u16 = 32;

/// The left edge of the four counts.
pub const COUNT_X: u32 = 532;

/// The vertical centres of the counts.
pub const EPISODES_Y: u32 = 570;

pub const SEASONS_Y: u32 = 490;

pub const CHAPTERS_Y: u32 = 410;

pub const VOLUMES_Y: u32 = 330;

/// The quality at which the presenter is encoded, lossy.
pub const PRESENTER_QUALITY: u8 = 100;

/// The assets that a presenter is made of, and its output.
#[derive(Debug, Clone, Copy, PartialEq, Eq, Structural)]
pub enum PresenterAsset {
    Template,
    Poster,
    Output,
}

/// Why no presenter was made. None of these touches the poster's own
/// artifacts or the series.
#[derive(Debug, Clone, Copy, PartialEq, Eq, Structural)]
pub enum PresenterError {
    /// The series has no title.
    MissingTitle,
    /// The font could not be loaded.
    FontLoadFailure,
    /// An asset could not be read or is unfit, or the output could not be
    /// encoded.
    PresenterIOFailure(PresenterAsset),
}

/// What the presenter shows of a series.
#[derive(Debug, Clone)]
pub struct PresenterFacts {
    pub title: String,
    pub release_year: u16,
    pub episodes: u16,
    pub seasons: u16,
    pub chapters: u16,
    pub volumes: u16,
    pub accent: Color,
}

/// Where the poster and the title go on a template.
#[derive(Debug, Clone, Copy, PartialEq, Eq, Structural)]
pub struct Geometry {
    /// The width of the poster as pasted.
    pub poster_width: u32,
    /// The height of the poster as pasted: that of the template.
    pub poster_height: u32,
    /// The width of the title box.
    pub title_width: u32,
}

/// A line of text at a fixed place.
#[derive(Debug, Clone)]
pub enum TextLine {
    /// One text, centred on a point both ways.
    Centered { x: u32, y: u32, size: u16, text: String, color: Color },
    /// A value and its label, starting at `x` and centred vertically on `y`.
    Labelled {
        x: u32,
        y: u32,
        size: u16,
        value: String,
        value_color: Color,
        label: String,
        label_color: Color,
    },
}

#[verifier::external_type_specification]
#[verifier::external_body]
pub struct ExFont(ril::Font);

/// The height that `ril` measures of `text` laid out in `font` at `size`
/// pixels from the point `(x, y)`, wrapped at word boundaries to `width`.
pub uninterp spec fn layout_height(
    font: ril::Font,
    text: Seq<char>,
    size: nat,
    x: nat,
    y: nat,
    width: nat,
) -> nat;

/// The image that `ril` makes of `canvas` when it draws `text` on it in
/// `font` at `size` pixels from the point `(x, y)`, wrapped at word
/// boundaries to `width`, in `color`.
pub uninterp spec fn wrapped_drawn(
    canvas: Raster,
    font: ril::Font,
    text: Seq<char>,
    size: nat,
    x: nat,
    y: nat,
    width: nat,
    color: Color,
) -> Raster;

/// The image that `ril` makes of `canvas` when it draws `text` on it in
/// `font` at `size` pixels, centred on the point `(x, y)`, in `color`.
pub uninterp spec fn centered_drawn(
    canvas: Raster,
    font: ril::Font,
    size: nat,
    x: nat,
    y: nat,
    text: Seq<char>,
    color: Color,
) -> Raster;

/// The image that `ril` makes of `canvas` when it draws on it, in `font` at
/// `size` pixels, a value and after it a label, each in its colour, starting
/// at `x` and centred vertically on `y`.
pub uninterp spec fn labelled_drawn(
    canvas: Raster,
    font: ril::Font,
    size: nat,
    x: nat,
    y: nat,
    value: Seq<char>,
    value_color: Color,
    label: Seq<char>,
    label_color: Color,
) -> Raster;

/// The title as it is laid out: its first 585 characters.
pub open spec fn truncated(title: Seq<char>) -> Seq<char> {
    if title.len() > TITLE_MAX_CHARS {
        title.subrange(0, TITLE_MAX_CHARS as int)
    } else {
        title
    }
}

/// The width to which the poster is scaled on a template of the given height:
/// that of a thumbnail's proportions, rounded down.
pub open spec fn poster_width_for(template_height: nat) -> nat {
    THUMBNAIL_WIDTH as nat * template_height / THUMBNAIL_HEIGHT as nat
}

/// The geometry of a template, where it has room for the poster and the
/// margin beside it.
pub open spec fn geometry_of(template_width: nat, template_height: nat) -> Option<Geometry> {
    let poster_width = poster_width_for(template_height);
    if template_width * template_height <= MAX_PIXELS && template_height
        <= 0xFFFF_FFFF && poster_width >= 1 && template_width >= poster_width + TITLE_MARGIN {
        Some(
            Geometry {
                poster_width: poster_width as u32,
                poster_height: template_height as u32,
                title_width: (template_width - poster_width - TITLE_MARGIN) as u32,
            },
        )
    } else {
        None
    }
}

/// Whether a title of the measured height is drawn at `size`: it is if it
/// fits the box, and at the least size whether it fits or not.
pub open spec fn settles(height: nat, size: nat) -> bool {
    height <= TITLE_MAX_HEIGHT || size <= TITLE_MIN_FONT_SIZE
}

/// The size at which a title is drawn when fitting starts at `size`, given
/// the height that it measures at each size: the greatest size, not above
/// the start, at which it settles.
pub open spec fn fitted_size(heights: spec_fn(nat) -> nat, size: nat) -> nat
    decreases size,
{
    if settles(heights(size), size) || size == 0 {
        size
    } else {
        fitted_size(heights, (size - 1) as nat)
    }
}

/// The image with `top` pasted so that its top-left corner is at `(x, y)`:
/// inside the pasted rectangle the pixels of `top`, elsewhere those of
/// `base`.
pub open spec fn pasted(base: Raster, top: Raster, x: nat, y: nat) -> Raster {
    Raster {
        width: base.width,
        height: base.height,
        pixels: Seq::new(
            base.pixels.len(),
            |i: int|
                {
                    let column = (i / 3) % (base.width as int);
                    let row = (i / 3) / (base.width as int);
                    if x <= column < x + top.width && y <= row < y + top.height {
                        top.pixels[3 * ((row - y) * top.width + (column - x)) + i % 3]
                    } else {
                        base.pixels[i]
                    }
                },
        ),
    }
}

/// The font that `ril` loads from the bytes of a font file, prepared for text
/// of the given size; `None` where it loads none.
pub uninterp spec fn loaded_font(bytes: Seq<u8>, optimal_size: nat) -> Option<ril::Font>;

/// `ril::Font::from_bytes`: loads a TrueType or OpenType font, prepared for
/// the given size. Whether it loads a font, and which, is determined by the
/// bytes and the size.
#[verifier::external_body]
fn load_font(bytes: &Vec<u8>, optimal_size: u16) -> (r: Result<ril::Font, ril::Error>)
    ensures
        match r {
            Ok(font) => loaded_font(bytes@, optimal_size as nat) == Some(font),
            Err(_) => loaded_font(bytes@, optimal_size as nat) is None,
        },
{
    ril::Font::from_bytes(bytes, optimal_size.into())
}

/// A font, loaded once and shared by every layout that uses it.
pub struct Typeface {
    font: ril::Font,
}

impl Typeface {
    /// The font that was loaded.
    pub closed spec fn font(&self) -> ril::Font {
        self.font
    }

    /// Loads a TrueType or OpenType font from the bytes of its file, prepared
    /// for text of the given size. The typeface is the font that the bytes
    /// give at this size; bytes that give none are a `FontLoadFailure`.
    pub fn load(bytes: &Vec<u8>, optimal_size: u16) -> (r: Result<Typeface, PresenterError>)
        ensures
            match loaded_font(bytes@, optimal_size as nat) {
                Some(font) => r matches Ok(face) && face.font() == font,
                None => r matches Err(e) && e == PresenterError::FontLoadFailure,
            },
    {
        match load_font(bytes, optimal_size) {
            Ok(font) => Ok(Typeface { font }),
            Err(_) => Err(PresenterError::FontLoadFailure),
        }
    }
}

/// `ril::TextLayout::height` of a layout at `(x, y)` with the given width,
/// word wrapping and one segment of `text` in `font` at `size`.
#[verifier::external_body]
fn measure_title(font: &ril::Font, text: &str, size: u16, x: u32, y: u32, width: u32) -> (h: u32)
    ensures
        h == layout_height(*font, text@, size as nat, x as nat, y as nat, width as nat),
{
    let segment = ril::TextSegment::new(font, text, ril::Rgb::white()).with_size(size.into());
    ril::TextLayout::new().with_position(x, y).with_width(width).with_wrap(
        ril::WrapStyle::Word,
    ).with_segment(&segment).height()
}

/// `ril::Image::paste`: puts `top` on the image with its top-left corner at
/// `(x, y)`. `top` lies within the image; both hold a pixel for every place
/// and no more pixels than a 32-bit position can address.
#[verifier::external_body]
fn paste(buffer: &mut ImageData, x: u32, y: u32, top: &ImageData)
    requires
        x + raster_of(*top).width <= raster_of(*old(buffer)).width,
        y + raster_of(*top).height <= raster_of(*old(buffer)).height,
        is_sound(raster_of(*old(buffer))),
        is_sound(raster_of(*top)),
    ensures
        raster_of(*final(buffer)) == pasted(
            raster_of(*old(buffer)),
            raster_of(*top),
            x as nat,
            y as nat,
        ),
{
    buffer.image.paste(x, y, &top.image)
}

/// `ril::Image::draw` of a `ril::TextLayout` at `(x, y)` with the given
/// width, word wrapping and one segment of `text` in `font` at `size`. The
/// image keeps its dimensions.
#[verifier::external_body]
fn draw_wrapped(
    buffer: &mut ImageData,
    font: &ril::Font,
    text: &str,
    size: u16,
    x: u32,
    y: u32,
    width: u32,
    color: Color,
)
    requires
        is_sound(raster_of(*old(buffer))),
    ensures
        raster_of(*final(buffer)) == wrapped_drawn(
            raster_of(*old(buffer)),
            *font,
            text@,
            size as nat,
            x as nat,
            y as nat,
            width as nat,
            color,
        ),
        same_shape(raster_of(*final(buffer)), raster_of(*old(buffer))),
{
    let fill = ril::Rgb::new(color.r, color.g, color.b);
    let segment = ril::TextSegment::new(font, text, fill).with_size(size.into());
    buffer.image.draw(
        &ril::TextLayout::new().with_position(x, y).with_width(width).with_wrap(
            ril::WrapStyle::Word,
        ).with_segment(&segment),
    )
}

/// `ril::Image::draw` of a `ril::TextLayout` centred both ways on `(x, y)`
/// with one segment of `text` in `font` at `size`. The image keeps its
/// dimensions and the number of its pixels.
#[verifier::external_body]
fn draw_centered(
    buffer: &mut ImageData,
    font: &ril::Font,
    size: u16,
    x: u32,
    y: u32,
    text: &str,
    color: Color,
)
    requires
        is_sound(raster_of(*old(buffer))),
    ensures
        raster_of(*final(buffer)) == centered_drawn(
            raster_of(*old(buffer)),
            *font,
            size as nat,
            x as nat,
            y as nat,
            text@,
            color,
        ),
        same_shape(raster_of(*final(buffer)), raster_of(*old(buffer))),
{
    let fill = ril::Rgb::new(color.r, color.g, color.b);
    let segment = ril::TextSegment::new(font, text, fill).with_size(size.into());
    buffer.image.draw(&ril::TextLayout::new().centered().with_position(x, y).with_segment(&segment))
}

/// `ril::Image::draw` of a `ril::TextLayout` that starts at `x`, is centred
/// vertically on `y` and holds two segments in `font` at `size`: the value,
/// then the label. The image keeps its dimensions and the number of its
/// pixels.
#[verifier::external_body]
fn draw_labelled(
    buffer: &mut ImageData,
    font: &ril::Font,
    size: u16,
    x: u32,
    y: u32,
    value: &str,
    value_color: Color,
    label: &str,
    label_color: Color,
)
    requires
        is_sound(raster_of(*old(buffer))),
    ensures
        raster_of(*final(buffer)) == labelled_drawn(
            raster_of(*old(buffer)),
            *font,
            size as nat,
            x as nat,
            y as nat,
            value@,
            value_color,
            label@,
            label_color,
        ),
        same_shape(raster_of(*final(buffer)), raster_of(*old(buffer))),
{
    let first = ril::Rgb::new(value_color.r, value_color.g, value_color.b);
    let first = ril::TextSegment::new(font, value, first).with_size(size.into());
    let second = ril::Rgb::new(label_color.r, label_color.g, label_color.b);
    let second = ril::TextSegment::new(font, label, second).with_size(size.into());
    buffer.image.draw(
        &ril::TextLayout::new().with_position(x, y).with_vertical_anchor(
            ril::VerticalAnchor::Center,
        ).with_segment(&first).with_segment(&second),
    )
}

/// Cuts a title down to the characters that are laid out: the first 585.
pub fn truncate_title(title: &str) -> (cut: String)
    ensures
        cut@ == truncated(title@),
        cut@.len() <= TITLE_MAX_CHARS,
{
    let chars = chars_of(title);
    let end = if chars.len() > TITLE_MAX_CHARS {
        TITLE_MAX_CHARS
    } else {
        chars.len()
    };
    let cut = text_of(&chars, 0, end);
    assert(chars@.subrange(0, chars@.len() as int) =~= chars@);
    cut
}

/// Works out where the poster and the title go on a template of the given
/// size. There is no geometry where the poster would have no width, where it
/// and the margin do not fit beside each other, or where the template has
/// more pixels than can be addressed.
pub fn plan_geometry(template_width: u32, template_height: u32) -> (r: Option<Geometry>)
    ensures
        r == geometry_of(template_width as nat, template_height as nat),
        r matches Some(g) ==> {
            &&& 1 <= g.poster_width <= template_width
            &&& g.poster_height == template_height
            &&& g.poster_width + g.title_width + TITLE_MARGIN == template_width
        },
{
    let w: u64 = template_width as u64;
    let h: u64 = template_height as u64;
    if !area_within(template_width, template_height, MAX_PIXELS) {
        return None;
    }
    let poster_width: u64 = (THUMBNAIL_WIDTH as u64) * h / (THUMBNAIL_HEIGHT as u64);
    if poster_width < 1 || w < poster_width + TITLE_MARGIN as u64 {
        return None;
    }
    Some(
        Geometry {
            poster_width: poster_width as u32,
            poster_height: template_height,
            title_width: (w - poster_width - TITLE_MARGIN as u64) as u32,
        },
    )
}

/// One step of fitting a title: whether a title that measures `height` at
/// `size` is drawn at that size (`None`), or measured again one size smaller.
pub fn fit_step(size: u16, height: u32) -> (next: Option<u16>)
    ensures
        settles(height as nat, size as nat) ==> next is None,
        !settles(height as nat, size as nat) ==> next == Some((size - 1) as u16),
{
    if height <= TITLE_MAX_HEIGHT || size <= TITLE_MIN_FONT_SIZE {
        None
    } else {
        Some(size - 1)
    }
}

/// The heights of one title at every size, as the layout measures them.
pub open spec fn title_heights(font: ril::Font, text: Seq<char>, width: nat) -> spec_fn(
    nat,
) -> nat {
    |size: nat| layout_height(font, text, size, TITLE_X as nat, TITLE_Y as nat, width)
}

/// Measures the height of a title laid out at `size` in the title box of
/// the given width.
pub fn title_height(face: &Typeface, title: &str, size: u16, width: u32) -> (height: u32)
    ensures
        height == title_heights(face.font(), title@, width as nat)(size as nat),
{
    measure_title(&face.font, title, size, TITLE_X, TITLE_Y, width)
}

/// Finds the size at which a title is drawn: starting from 64, the size goes
/// down by one until the title, wrapped to `width`, is no higher than the
/// box, or the size is 16. At 16 the title is taken as it is, fitting or not.
pub fn fit_title(face: &Typeface, title: &str, width: u32) -> (size: u16)
    ensures
        size == fitted_size(
            title_heights(face.font(), title@, width as nat),
            TITLE_BASE_FONT_SIZE as nat,
        ),
        TITLE_MIN_FONT_SIZE <= size <= TITLE_BASE_FONT_SIZE,
        size > TITLE_MIN_FONT_SIZE ==> title_heights(face.font(), title@, width as nat)(
            size as nat,
        ) <= TITLE_MAX_HEIGHT,
{
    let ghost heights = title_heights(face.font(), title@, width as nat);
    let mut size: u16 = TITLE_BASE_FONT_SIZE;
    loop
        invariant
            TITLE_MIN_FONT_SIZE <= size <= TITLE_BASE_FONT_SIZE,
            heights == title_heights(face.font(), title@, width as nat),
            fitted_size(heights, TITLE_BASE_FONT_SIZE as nat) == fitted_size(heights, size as nat),
        ensures
            TITLE_MIN_FONT_SIZE <= size <= TITLE_BASE_FONT_SIZE,
            size == fitted_size(heights, TITLE_BASE_FONT_SIZE as nat),
        decreases size,
    {
        let height = title_height(face, title, size, width);
        match fit_step(size, height) {
            None => {
                break ;
            },
            Some(smaller) => {
                size = smaller;
            },
        }
    }
    proof {
        law_fitted_size(heights, TITLE_BASE_FONT_SIZE as nat);
    }
    size
}

/// What `PresenterFacts` stands for.
pub struct PresenterFactsView {
    pub title: Seq<char>,
    pub release_year: u16,
    pub episodes: u16,
    pub seasons: u16,
    pub chapters: u16,
    pub volumes: u16,
    pub accent: Color,
}

impl View for PresenterFacts {
    type V = PresenterFactsView;

    open spec fn view(&self) -> PresenterFactsView {
        PresenterFactsView {
            title: self.title@,
            release_year: self.release_year,
            episodes: self.episodes,
            seasons: self.seasons,
            chapters: self.chapters,
            volumes: self.volumes,
            accent: self.accent,
        }
    }
}

/// What a `TextLine` stands for.
pub enum TextLineView {
    Centered { x: u32, y: u32, size: u16, text: Seq<char>, color: Color },
    Labelled {
        x: u32,
        y: u32,
        size: u16,
        value: Seq<char>,
        value_color: Color,
        label: Seq<char>,
        label_color: Color,
    },
}

impl View for TextLine {
    type V = TextLineView;

    open spec fn view(&self) -> TextLineView {
        match *self {
            TextLine::Centered { x, y, size, text, color } => TextLineView::Centered {
                x,
                y,
                size,
                text: text@,
                color,
            },
            TextLine::Labelled {
                x,
                y,
                size,
                value,
                value_color,
                label,
                label_color,
            } => TextLineView::Labelled {
                x,
                y,
                size,
                value: value@,
                value_color,
                label: label@,
                label_color,
            },
        }
    }
}

/// What the presenter shows of a series that has a title: its first title,
/// the year and the counts of its releases, and the accent of its poster.
pub open spec fn facts_of(series: AnimeSeries) -> PresenterFactsView {
    PresenterFactsView {
        title: series.titles@[0]@,
        release_year: series.anime.release_year,
        episodes: series.anime.episodes,
        seasons: series.anime.seasons,
        chapters: series.manga.chapters,
        volumes: series.manga.volumes,
        accent: accent_or_brand(series.poster@.placeholder),
    }
}

/// Gathers what the presenter shows of a series. `None` where the series has
/// no title.
pub fn presenter_facts(series: &AnimeSeries) -> (r: Option<PresenterFacts>)
    ensures
        r is Some <==> series.titles@.len() > 0,
        r matches Some(facts) ==> facts@ == facts_of(*series),
{
    if series.titles.len() == 0 {
        return None;
    }
    let placeholder = series.poster.placeholder();
    let accent = resolve_accent(placeholder);
    Some(
        PresenterFacts {
            title: series.titles[0].clone(),
            release_year: series.anime.release_year,
            episodes: series.anime.episodes,
            seasons: series.anime.seasons,
            chapters: series.manga.chapters,
            volumes: series.manga.volumes,
            accent,
        },
    )
}

/// A count as the presenter shows it: the number in the accent, its label in
/// white.
pub open spec fn count_line_of(at: u32, count: u16, accent: Color, name: Seq<char>) -> TextLineView {
    TextLineView::Labelled {
        x: COUNT_X,
        y: at,
        size: COUNT_FONT_SIZE,
        value: decimal(count as nat),
        value_color: accent,
        label: name,
        label_color: white(),
    }
}

/// The lines below the title: the release year in the brand accent, then the
/// episodes, seasons, chapters and volumes in the accent of the poster, each
/// with its label in white.
pub open spec fn secondary_lines(facts: PresenterFactsView) -> Seq<TextLineView> {
    seq![
        TextLineView::Centered {
            x: YEAR_X,
            y: YEAR_Y,
            size: YEAR_FONT_SIZE,
            text: decimal(facts.release_year as nat),
            color: brand_accent(),
        },
        count_line_of(EPISODES_Y, facts.episodes, facts.accent, " episodes"@),
        count_line_of(SEASONS_Y, facts.seasons, facts.accent, " seasons"@),
        count_line_of(CHAPTERS_Y, facts.chapters, facts.accent, " chapters"@),
        count_line_of(VOLUMES_Y, facts.volumes, facts.accent, " volumes"@),
    ]
}

/// What a list of lines stands for.
pub open spec fn line_views(lines: Seq<TextLine>) -> Seq<TextLineView> {
    lines.map_values(|line: TextLine| line@)
}

fn count_line(at: u32, count: u16, accent: Color, name: &str) -> (line: TextLine)
    ensures
        line@ == count_line_of(at, count, accent, name@),
{
    TextLine::Labelled {
        x: COUNT_X,
        y: at,
        size: COUNT_FONT_SIZE,
        value: decimal_text(count as u64),
        value_color: accent,
        label: String::from_str(name),
        label_color: Color::white(),
    }
}

/// Lists the lines below the title.
pub fn secondary_text(facts: &PresenterFacts) -> (lines: Vec<TextLine>)
    ensures
        line_views(lines@) == secondary_lines(facts@),
{
    let mut lines: Vec<TextLine> = Vec::new();
    lines.push(
        TextLine::Centered {
            x: YEAR_X,
            y: YEAR_Y,
            size: YEAR_FONT_SIZE,
            text: decimal_text(facts.release_year as u64),
            color: Color::accent(),
        },
    );
    lines.push(count_line(EPISODES_Y, facts.episodes, facts.accent, " episodes"));
    lines.push(count_line(SEASONS_Y, facts.seasons, facts.accent, " seasons"));
    lines.push(count_line(CHAPTERS_Y, facts.chapters, facts.accent, " chapters"));
    lines.push(count_line(VOLUMES_Y, facts.volumes, facts.accent, " volumes"));
    assert(line_views(lines@) =~= secondary_lines(facts@));
    lines
}

/// The fonts of a presenter, each loaded once for the size it is used at.
pub struct PresenterFonts {
    pub title: Typeface,
    pub year: Typeface,
    pub count: Typeface,
}

/// What `PresenterFonts` stands for: the three fonts.
pub struct FontSet {
    pub title: ril::Font,
    pub year: ril::Font,
    pub count: ril::Font,
}

impl View for PresenterFonts {
    type V = FontSet;

    open spec fn view(&self) -> FontSet {
        FontSet { title: self.title.font(), year: self.year.font(), count: self.count.font() }
    }
}

/// The fonts that the bytes of a font file give for the presenter: the font
/// of the file prepared for 64 pixels for the title, for 28 for the year and
/// for 32 for the counts. `None` where one of the three does not load.
pub open spec fn font_set_of(bytes: Seq<u8>) -> Option<FontSet> {
    match (
        loaded_font(bytes, TITLE_BASE_FONT_SIZE as nat),
        loaded_font(bytes, YEAR_FONT_SIZE as nat),
        loaded_font(bytes, COUNT_FONT_SIZE as nat),
    ) {
        (Some(title), Some(year), Some(count)) => Some(FontSet { title, year, count }),
        _ => None,
    }
}

impl PresenterFonts {
    /// Loads the presenter's font for its three sizes: the same bytes three
    /// times, prepared for the title, the year and the counts. If any of the
    /// three does not load, none is kept.
    pub fn load(bytes: &Vec<u8>) -> (r: Result<PresenterFonts, PresenterError>)
        ensures
            match font_set_of(bytes@) {
                Some(fonts) => r matches Ok(loaded) && loaded@ == fonts,
                None => r matches Err(e) && e == PresenterError::FontLoadFailure,
            },
    {
        let title = match Typeface::load(bytes, TITLE_BASE_FONT_SIZE) {
            Ok(face) => face,
            Err(e) => {
                return Err(e);
            },
        };
        let year = match Typeface::load(bytes, YEAR_FONT_SIZE) {
            Ok(face) => face,
            Err(e) => {
                return Err(e);
            },
        };
        let count = match Typeface::load(bytes, COUNT_FONT_SIZE) {
            Ok(face) => face,
            Err(e) => {
                return Err(e);
            },
        };
        Ok(PresenterFonts { title, year, count })
    }
}

/// The canvas with one more line drawn on it: a centred line in the font of
/// the year, a labelled line in the font of the counts.
pub open spec fn line_drawn(canvas: Raster, fonts: FontSet, line: TextLineView) -> Raster {
    match line {
        TextLineView::Centered { x, y, size, text, color } => centered_drawn(
            canvas,
            fonts.year,
            size as nat,
            x as nat,
            y as nat,
            text,
            color,
        ),
        TextLineView::Labelled {
            x,
            y,
            size,
            value,
            value_color,
            label,
            label_color,
        } => labelled_drawn(
            canvas,
            fonts.count,
            size as nat,
            x as nat,
            y as nat,
            value,
            value_color,
            label,
            label_color,
        ),
    }
}

/// The canvas with the given lines drawn on it, one after the other.
pub open spec fn lines_drawn(canvas: Raster, fonts: FontSet, lines: Seq<TextLineView>) -> Raster
    decreases lines.len(),
{
    if lines.len() == 0 {
        canvas
    } else {
        line_drawn(lines_drawn(canvas, fonts, lines.drop_last()), fonts, lines.last())
    }
}

/// Whether a poster can be scaled to its place on the template: the image
/// of the place's width and the poster's height, which the resampling
/// passes through, has no more pixels than can be addressed.
pub open spec fn scales_to(poster: Raster, geometry: Geometry) -> bool {
    geometry.poster_width * poster.height <= MAX_PIXELS
}

/// The template with the poster on it: the poster scaled to the geometry and
/// pasted at the top-left corner.
pub open spec fn poster_pasted(template: Raster, poster: Raster, geometry: Geometry) -> Raster {
    pasted(
        template,
        resized_raster(poster, geometry.poster_width as nat, geometry.poster_height as nat),
        0,
        0,
    )
}

/// The canvas with the title on it: the title cut to 585 characters and drawn
/// in white in the title box, at the size that the fitting finds.
pub open spec fn title_drawn(
    canvas: Raster,
    font: ril::Font,
    title: Seq<char>,
    geometry: Geometry,
) -> Raster {
    let text = truncated(title);
    let width = geometry.title_width as nat;
    wrapped_drawn(
        canvas,
        font,
        text,
        fitted_size(title_heights(font, text, width), TITLE_BASE_FONT_SIZE as nat),
        TITLE_X as nat,
        TITLE_Y as nat,
        width,
        white(),
    )
}

/// The presenter of a series on a template whose geometry is given: the
/// poster, the title and the lines below it, drawn in this order.
pub open spec fn composed(
    template: Raster,
    poster: Raster,
    fonts: FontSet,
    facts: PresenterFactsView,
    geometry: Geometry,
) -> Raster {
    lines_drawn(
        title_drawn(poster_pasted(template, poster, geometry), fonts.title, facts.title, geometry),
        fonts,
        secondary_lines(facts),
    )
}

/// Draws one line on the canvas.
fn draw_line(canvas: &mut ImageData, fonts: &PresenterFonts, line: &TextLine)
    requires
        is_sound(raster_of(*old(canvas))),
    ensures
        raster_of(*final(canvas)) == line_drawn(raster_of(*old(canvas)), fonts@, line@),
        same_shape(raster_of(*final(canvas)), raster_of(*old(canvas))),
{
    match line {
        TextLine::Centered { x, y, size, text, color } => {
            draw_centered(canvas, &fonts.year.font, *size, *x, *y, text.as_str(), *color);
        },
        TextLine::Labelled { x, y, size, value, value_color, label, label_color } => {
            draw_labelled(
                canvas,
                &fonts.count.font,
                *size,
                *x,
                *y,
                value.as_str(),
                *value_color,
                label.as_str(),
                *label_color,
            );
        },
    }
}

/// Composes the presenter on a template.
///
/// The poster is scaled to the template's height at a thumbnail's
/// proportions and pasted at the top-left corner. The title, cut to 585
/// characters, is drawn in white in the box to the right of the poster, at
/// the size that the fitting finds. Below it come the secondary lines. The
/// canvas has the template's dimensions.
///
/// A template without room for the poster and the margin is refused as an
/// unfit template, a poster too high to be scaled to its place as an unfit
/// poster. Nothing else fails.
pub fn compose_presenter(
    facts: &PresenterFacts,
    template: PixelBuffer,
    poster: PixelBuffer,
    fonts: &PresenterFonts,
) -> (r: Result<PixelBuffer, PresenterError>)
    ensures
        match geometry_of(template@.width, template@.height) {
            None => r matches Err(e) && e == PresenterError::PresenterIOFailure(
                PresenterAsset::Template,
            ),
            Some(geometry) => if scales_to(poster@, geometry) {
                r matches Ok(canvas) && canvas@ == composed(
                    template@,
                    poster@,
                    fonts@,
                    facts@,
                    geometry,
                ) && same_size(canvas@, template@)
            } else {
                r matches Err(e) && e == PresenterError::PresenterIOFailure(PresenterAsset::Poster)
            },
        },
{
    let width = template.width();
    let height = template.height();
    let geometry = match plan_geometry(width, height) {
        Some(g) => g,
        None => {
            return Err(PresenterError::PresenterIOFailure(PresenterAsset::Template));
        },
    };
    assert(geometry.poster_width * geometry.poster_height <= width * height) by (nonlinear_arith)
        requires
            geometry.poster_width <= width,
            geometry.poster_height == height,
    ;
    if !area_within(geometry.poster_width, poster.height(), MAX_PIXELS) {
        return Err(PresenterError::PresenterIOFailure(PresenterAsset::Poster));
    }
    let scaled = poster.resize(geometry.poster_width, geometry.poster_height);
    let mut canvas = template.into_image();
    let ghost base = raster_of(canvas);
    paste(&mut canvas, 0, 0, scaled.image());
    assert(same_shape(raster_of(canvas), base));

    let title = truncate_title(facts.title.as_str());
    let size = fit_title(&fonts.title, title.as_str(), geometry.title_width);
    draw_wrapped(
        &mut canvas,
        &fonts.title.font,
        title.as_str(),
        size,
        TITLE_X,
        TITLE_Y,
        geometry.title_width,
        Color::white(),
    );

    let lines = secondary_text(facts);
    let ghost titled = raster_of(canvas);
    let ghost views = line_views(lines@);
    let mut i: usize = 0;
    assert(views.subrange(0, 0) =~= Seq::<TextLineView>::empty());
    while i < lines.len()
        invariant
            i <= lines.len(),
            views == line_views(lines@),
            raster_of(canvas) == lines_drawn(titled, fonts@, views.subrange(0, i as int)),
            same_shape(raster_of(canvas), titled),
            is_sound(titled),
        decreases lines.len() - i,
    {
        draw_line(&mut canvas, fonts, &lines[i]);
        proof {
            let next = views.subrange(0, i + 1);
            assert(next.drop_last() =~= views.subrange(0, i as int));
            assert(next.last() == lines@[i as int]@);
        }
        i = i + 1;
    }
    assert(views.subrange(0, lines.len() as int) =~= views);
    Ok(PixelBuffer::from_image(canvas))
}

/// What making the presenter artifact of a series gives: the file, or why
/// there is none. The checks are made in this order: the title, the
/// template, the poster, the font, the room on the template, the height of
/// the poster, the encoding.
pub open spec fn presenter_outcome(
    series: AnimeSeries,
    template: Seq<u8>,
    poster: Seq<u8>,
    font: Seq<u8>,
) -> Result<Seq<u8>, PresenterError> {
    if series.titles@.len() == 0 {
        Err(PresenterError::MissingTitle)
    } else {
        match decoded_image(template, ImageFormat::Png) {
            None => Err(PresenterError::PresenterIOFailure(PresenterAsset::Template)),
            Some(canvas) => match decoded_image(poster, ImageFormat::WebP) {
                None => Err(PresenterError::PresenterIOFailure(PresenterAsset::Poster)),
                Some(picture) => match font_set_of(font) {
                    None => Err(PresenterError::FontLoadFailure),
                    Some(fonts) => match geometry_of(canvas.width, canvas.height) {
                        None => Err(PresenterError::PresenterIOFailure(PresenterAsset::Template)),
                        Some(geometry) => if !scales_to(picture, geometry) {
                            Err(PresenterError::PresenterIOFailure(PresenterAsset::Poster))
                        } else {
                            match encoded(
                                composed(canvas, picture, fonts, facts_of(series), geometry),
                                PRESENTER_QUALITY,
                                false,
                            ) {
                                None => Err(
                                    PresenterError::PresenterIOFailure(PresenterAsset::Output),
                                ),
                                Some(file) => Ok(file),
                            }
                        },
                    },
                },
            },
        }
    }
}

/// Makes the presenter artifact of a series: decodes the template (a PNG)
/// and the poster (a WebP artifact), loads the font, composes the presenter
/// and encodes it with loss as a WebP image of the template's size. Its
/// place is `pre/{key}.webp`.
///
/// A failure here is a failure of the presenter alone: a series without
/// title, a template or a poster that gives no image, a font that does not
/// load, a template without room, a poster too high to be scaled, a
/// presenter that does not encode.
pub fn export_presenter(
    series: &AnimeSeries,
    template: &Vec<u8>,
    poster: &Vec<u8>,
    font: &Vec<u8>,
) -> (r: Result<Artifact, PresenterError>)
    ensures
        match presenter_outcome(*series, template@, poster@, font@) {
            Ok(file) => {
                &&& r matches Ok(artifact)
                &&& artifact.path@ == artifact_path(PRESENTER_FOLDER@, series.poster@.key)
                &&& artifact.bytes@ == file
                &&& decodes_to_size(file, decoded_image(template@, ImageFormat::Png).unwrap())
            },
            Err(e) => r matches Err(x) && x == e,
        },
{
    let facts = match presenter_facts(series) {
        Some(f) => f,
        None => {
            return Err(PresenterError::MissingTitle);
        },
    };
    let template = match decode_as(template, ImageFormat::Png) {
        Ok(t) => t,
        Err(_) => {
            return Err(PresenterError::PresenterIOFailure(PresenterAsset::Template));
        },
    };
    let poster = match decode_as(poster, ImageFormat::WebP) {
        Ok(p) => p,
        Err(_) => {
            return Err(PresenterError::PresenterIOFailure(PresenterAsset::Poster));
        },
    };
    let fonts = match PresenterFonts::load(font) {
        Ok(f) => f,
        Err(e) => {
            return Err(e);
        },
    };
    let canvas = match compose_presenter(&facts, template, poster, &fonts) {
        Ok(c) => c,
        Err(e) => {
            return Err(e);
        },
    };
    match encode(&canvas, PRESENTER_QUALITY, false) {
        Ok(bytes) => Ok(Artifact { path: get_presenter_path(series.poster.key()), bytes }),
        Err(_) => Err(PresenterError::PresenterIOFailure(PresenterAsset::Output)),
    }
}

/// Fitting ends at a size between the least size and the start; above the
/// least size the title fits the box at the size found; and at every size
/// passed over on the way down it did not fit.
pub proof fn law_fitted_size(heights: spec_fn(nat) -> nat, start: nat)
    requires
        start >= TITLE_MIN_FONT_SIZE,
    ensures
        TITLE_MIN_FONT_SIZE <= fitted_size(heights, start) <= start,
        fitted_size(heights, start) > TITLE_MIN_FONT_SIZE ==> heights(fitted_size(heights, start))
            <= TITLE_MAX_HEIGHT,
        forall|s: nat|
            fitted_size(heights, start) < s <= start ==> #[trigger] heights(s) > TITLE_MAX_HEIGHT,
    decreases start,
{
    if !settles(heights(start), start) {
        law_fitted_size(heights, (start - 1) as nat);
    }
}

} // verus!
