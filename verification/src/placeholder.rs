//! The perceptual hash encoder: the placeholder string of a poster.
//!
//! A placeholder has a body and, where the poster yields one, an accent. The
//! body is the BlurHash of the image over a grid of 4 by 7 components, as the
//! `fast_blurhash` crate computes it: 60 characters of base 83, whatever the
//! size of the image. The accent is the third swatch of the palette that the
//! `color_thief` crate extracts; it follows the body after a `/`, as a
//! base-83 numeral of four digits for `0xRRGGBB`.

use vstd::prelude::*;
use crate::base83::{
    base83_char, base83_digits, base83_value, is_ascii_text, is_base83_text,
    lemma_ascii_byte, lemma_ascii_char, lemma_base83_char_is_plain,
    lemma_digits_shape, lemma_value_of_digits, pow83, read_numeral,
};
use crate::codec::{area_within, raster_of, ImageData, PixelBuffer, Raster};
use crate::color::{
    brand_accent, lemma_unpack_pack, pack_color, packed, unpack_color, unpacked, Color,
};
use crate::text::{find_byte, first_index, lemma_index_from, opt_view};
use vstd::utf8::{encode_utf8, is_ascii_chars, is_ascii_chars_encode_utf8};

verus! {

/// Components of the hash grid along the width of the image.
pub const COMPONENTS_X: usize = 4;

/// Components of the hash grid along the height of the image.
pub const COMPONENTS_Y: usize = 7;

/// The length of a placeholder's body: one character for the grid, one for
/// the scale, four for the average colour and two for each other component.
pub const BODY_LENGTH: usize = 60;

/// The number of digits of an accent.
pub const ACCENT_DIGITS: u8 = 4;

/// The character between body and accent.
pub const SEPARATOR: char = '/';

/// The separator as a byte of UTF-8.
pub const SEPARATOR_BYTE: u8 = 47;

/// The sampling step that palette extraction works with.
pub const PALETTE_QUALITY: u8 = 10;

/// The number of swatches asked of palette extraction.
pub const PALETTE_SIZE: u8 = 5;

/// The place in the palette of the swatch taken as accent: the third. The most
/// prominent swatches of a poster tend to be its near-white or near-black
/// background.
pub const ACCENT_RANK: usize = 2;

/// The largest image, in pixels, of which a palette is extracted.
pub const PALETTE_MAX_PIXELS: u64 = 0x100_0000;

/// The BlurHash that `fast_blurhash` computes of an image over a grid of `cx`
/// by `cy` components.
pub uninterp spec fn blurhash_text(image: Raster, cx: nat, cy: nat) -> Seq<char>;

/// The palette that `color_thief` extracts from an image at the given sampling
/// step and number of swatches, most prominent swatch first; `None` where it
/// fails.
pub uninterp spec fn palette_of(image: Raster, quality: nat, max_colors: nat) -> Option<
    Seq<Color>,
>;

#[verifier::external_type_specification]
#[verifier::external_body]
pub struct ExPaletteError(color_thief::Error);

/// The character that opens the BlurHash of a grid of `cx` by `cy`
/// components: the digit for `(cx - 1) + 9 * (cy - 1)`.
pub open spec fn grid_flag(cx: nat, cy: nat) -> char {
    base83_char(((cx - 1) + (cy - 1) * 9) as nat)
}

/// `fast_blurhash::compute_dct_iter` on the pixels of the image, followed by
/// `DCTResult::into_blurhash`. The hash is a function of the image and the
/// grid; it has `4 + 2 * cx * cy` characters, all of the base-83 alphabet,
/// and opens with the flag of the grid. The grid is between 1 and 9
/// components each way, which the encoder asks.
#[verifier::external_body]
fn blurhash(image: &ImageData, cx: usize, cy: usize) -> (hash: String)
    requires
        1 <= cx <= 9,
        1 <= cy <= 9,
    ensures
        hash@ == blurhash_text(raster_of(*image), cx as nat, cy as nat),
        hash@.len() == 4 + 2 * cx * cy,
        is_base83_text(hash@),
        hash@[0] == grid_flag(cx as nat, cy as nat),
{
    let image = &image.image;
    fast_blurhash::compute_dct_iter(
        image.data.iter().map(|p| [p.r, p.g, p.b]),
        image.width() as usize,
        image.height() as usize,
        cx,
        cy,
    ).into_blurhash()
}

/// `color_thief::get_palette` on the RGB bytes of the image. The palette is a
/// function of the image and the two settings. The function asks for a
/// sampling step from 1 to 10 and for at least two swatches; the bound on the
/// image keeps its 32-bit sums in range.
#[verifier::external_body]
fn palette(image: &ImageData, quality: u8, max_colors: u8) -> (r: Result<
    Vec<Color>,
    color_thief::Error,
>)
    requires
        1 <= quality <= 10,
        max_colors >= 2,
        raster_of(*image).width * raster_of(*image).height <= PALETTE_MAX_PIXELS,
    ensures
        match r {
            Ok(colors) => palette_of(raster_of(*image), quality as nat, max_colors as nat)
                == Some(colors@),
            Err(_) => palette_of(raster_of(*image), quality as nat, max_colors as nat) is None,
        },
{
    let bytes: Vec<u8> = image.image.data.iter().flat_map(|p| [p.r, p.g, p.b]).collect();
    let colors = color_thief::get_palette(&bytes, color_thief::ColorFormat::Rgb, quality, max_colors)?;
    Ok(colors.iter().map(|c| Color { r: c.r, g: c.g, b: c.b }).collect())
}

/// The body of the placeholder of an image.
pub open spec fn body_of(image: Raster) -> Seq<char> {
    blurhash_text(image, COMPONENTS_X as nat, COMPONENTS_Y as nat)
}

/// The palette of an image, as far as one is extracted: none of an image of
/// more than `PALETTE_MAX_PIXELS` pixels.
pub open spec fn swatches_of(image: Raster) -> Option<Seq<Color>> {
    if image.width * image.height <= PALETTE_MAX_PIXELS {
        palette_of(image, PALETTE_QUALITY as nat, PALETTE_SIZE as nat)
    } else {
        None
    }
}

/// The accent that a palette gives: its third swatch. A missing palette, and
/// one of fewer than three swatches, gives none.
pub open spec fn accent_swatch(palette: Option<Seq<Color>>) -> Option<Color> {
    match palette {
        Some(p) => if p.len() > ACCENT_RANK {
            Some(p[ACCENT_RANK as int])
        } else {
            None
        },
        None => None,
    }
}

/// The four digits that stand for an accent.
pub open spec fn accent_numeral(accent: Color) -> Seq<char> {
    base83_digits(packed(accent), ACCENT_DIGITS as nat)
}

/// The placeholder made of a body and an accent, or of the body alone.
pub open spec fn placeholder_text(body: Seq<char>, accent: Option<Color>) -> Seq<char> {
    match accent {
        Some(c) => body.push(SEPARATOR) + accent_numeral(c),
        None => body,
    }
}

/// Whether a text has the shape of a body: 60 characters of the base-83
/// alphabet, opening with the flag of the grid of 4 by 7, which is `v`.
pub open spec fn is_body(body: Seq<char>) -> bool {
    &&& body.len() == BODY_LENGTH
    &&& is_base83_text(body)
    &&& body[0] == 'v'
}

/// The placeholder of an image.
pub open spec fn placeholder_of(image: Raster) -> Seq<char> {
    placeholder_text(body_of(image), accent_swatch(swatches_of(image)))
}

/// The part of a placeholder before its separator: all of it where it has
/// none.
pub open spec fn body_part(placeholder: Seq<char>) -> Seq<char> {
    match first_index(placeholder, SEPARATOR) {
        Some(i) => placeholder.subrange(0, i),
        None => placeholder,
    }
}

/// The four bytes of a placeholder that hold its accent: those after the
/// first separator or, in a placeholder without separator, the third to the
/// sixth byte, which in a BlurHash hold the average colour. `None` where the
/// placeholder is too short to have them. A placeholder is taken as its
/// bytes of UTF-8.
pub open spec fn accent_part(placeholder: Seq<u8>) -> Option<Seq<u8>> {
    match first_index(placeholder, SEPARATOR_BYTE) {
        Some(i) => if placeholder.len() - (i + 1) >= 4 {
            Some(placeholder.subrange(i + 1, i + 5))
        } else {
            None
        },
        None => if placeholder.len() >= 6 {
            Some(placeholder.subrange(2, 6))
        } else {
            None
        },
    }
}

/// Whether every byte is one of ASCII.
pub open spec fn is_ascii_bytes(bytes: Seq<u8>) -> bool {
    forall|i: int| 0 <= i < bytes.len() ==> #[trigger] bytes[i] < 128
}

/// The characters that bytes of ASCII stand for.
pub open spec fn ascii_chars(bytes: Seq<u8>) -> Seq<char> {
    Seq::new(bytes.len(), |i: int| bytes[i] as char)
}

/// The colour that four bytes denote, if all of them are ASCII: that of the
/// base-83 numeral which they spell.
pub open spec fn color_of_numeral(digits: Seq<u8>) -> Option<Color> {
    if is_ascii_bytes(digits) {
        Some(unpacked(base83_value(ascii_chars(digits))))
    } else {
        None
    }
}

/// The accent that the bytes of a placeholder hold.
pub open spec fn accent_in(placeholder: Seq<u8>) -> Option<Color> {
    match accent_part(placeholder) {
        Some(digits) => color_of_numeral(digits),
        None => None,
    }
}

/// The accent that a placeholder holds.
pub open spec fn accent_of(placeholder: Seq<char>) -> Option<Color> {
    accent_in(encode_utf8(placeholder))
}

/// The accent to draw with for a poster record: the one that its placeholder
/// holds, or the brand accent where there is no placeholder or it holds none.
pub open spec fn accent_or_brand(placeholder: Option<Seq<char>>) -> Color {
    match placeholder {
        Some(p) => match accent_of(p) {
            Some(c) => c,
            None => brand_accent(),
        },
        None => brand_accent(),
    }
}

/// Computes the body of the placeholder of an image: 60 characters of the
/// base-83 alphabet, of which the first tells the grid. Its length does not
/// depend on the image.
pub fn placeholder_body(buffer: &PixelBuffer) -> (body: String)
    ensures
        body@ == body_of(buffer@),
        is_body(body@),
{
    let body = blurhash(buffer.image(), COMPONENTS_X, COMPONENTS_Y);
    proof {
        reveal(base83_char);
    }
    body
}

/// Extracts the palette of an image: up to five swatches, most prominent
/// first. An image of more than `PALETTE_MAX_PIXELS` pixels is not looked at.
pub fn extract_palette(buffer: &PixelBuffer) -> (r: Option<Vec<Color>>)
    ensures
        match swatches_of(buffer@) {
            Some(swatches) => r matches Some(colors) && colors@ == swatches,
            None => r is None,
        },
{
    if area_within(buffer.width(), buffer.height(), PALETTE_MAX_PIXELS) {
        match palette(buffer.image(), PALETTE_QUALITY, PALETTE_SIZE) {
            Ok(colors) => Some(colors),
            Err(_) => None,
        }
    } else {
        None
    }
}

/// Picks the accent from a palette: its third swatch. Where extraction failed
/// or gave fewer than three swatches there is no accent.
pub fn pick_accent(palette: &Option<Vec<Color>>) -> (accent: Option<Color>)
    ensures
        accent == accent_swatch(
            match *palette {
                Some(p) => Some(p@),
                None => None,
            },
        ),
{
    match palette {
        Some(p) => {
            if p.len() > ACCENT_RANK {
                Some(p[ACCENT_RANK])
            } else {
                None
            }
        },
        None => None,
    }
}

/// Puts a placeholder together: the body, then, where there is an accent, the
/// separator and the accent's four digits.
pub fn assemble_placeholder(body: String, accent: Option<Color>) -> (placeholder: String)
    ensures
        placeholder@ == placeholder_text(body@, accent),
{
    let mut placeholder = body;
    match accent {
        Some(c) => {
            placeholder.push(SEPARATOR);
            fast_blurhash::base83::encode_fixed_to(
                pack_color(c),
                ACCENT_DIGITS,
                &mut placeholder,
            );
        },
        None => {},
    }
    placeholder
}

/// Computes the placeholder of an image: its body and, where the palette has
/// a third swatch, that swatch as accent. The same image gives the same
/// placeholder, and reading the accent back gives the swatch.
pub fn compute_placeholder(buffer: &PixelBuffer) -> (placeholder: String)
    ensures
        placeholder@ == placeholder_of(buffer@),
        body_part(placeholder@) == body_of(buffer@),
        is_body(body_part(placeholder@)),
        accent_swatch(swatches_of(buffer@)) matches Some(c) ==> accent_of(placeholder@) == Some(c),
        accent_swatch(swatches_of(buffer@)) is None ==> !placeholder@.contains(SEPARATOR),
{
    let body = placeholder_body(buffer);
    let palette = extract_palette(buffer);
    let accent = pick_accent(&palette);
    proof {
        lemma_placeholder_parts(body@, accent);
    }
    assemble_placeholder(body, accent)
}

/// Reads the four bytes of an accent that start at `from`.
fn read_accent(bytes: &[u8], from: usize) -> (accent: Option<Color>)
    requires
        from + 4 <= bytes@.len(),
    ensures
        accent == color_of_numeral(bytes@.subrange(from as int, from + 4)),
{
    let ghost digits = bytes@.subrange(from as int, from + 4);
    let len = bytes.len();
    let mut text = String::new();
    let mut k: usize = 0;
    while k < 4
        invariant
            k <= 4,
            len == bytes@.len(),
            from + 4 <= len,
            digits == bytes@.subrange(from as int, from + 4),
            text@.len() == k,
            forall|j: int| 0 <= j < k ==> #[trigger] digits[j] < 128 && text@[j] == digits[j] as char,
        decreases 4 - k,
    {
        let b = bytes[from + k];
        assert(b == digits[k as int]);
        if b >= 128 {
            return None;
        }
        text.push(b as char);
        k = k + 1;
    }
    assert(text@ =~= ascii_chars(digits));
    assert(is_ascii_text(text@)) by {
        assert forall|j: int| 0 <= j < text@.len() implies (#[trigger] text@[j]) as nat <= 127 by {
            lemma_ascii_byte(digits[j]);
        }
    }
    match read_numeral(text.as_str()) {
        Ok(n) => Some(unpack_color(n)),
        Err(_) => None,
    }
}

/// Reads the accent of a placeholder.
///
/// With a separator the accent is the four bytes after the first one.
/// Without, it is the third to the sixth byte, as in placeholders written
/// before accents were appended. The four bytes are read as a base-83
/// numeral, in which a character outside the alphabet counts as zero; its
/// low 24 bits are the colour. A placeholder too short for that, and one
/// whose four bytes are not all ASCII, holds no accent.
pub fn get_dominant_color(blurhash: &str) -> (accent: Option<Color>)
    ensures
        accent == accent_of(blurhash@),
{
    let bytes = blurhash.as_bytes();
    match find_byte(bytes, SEPARATOR_BYTE) {
        Some(i) => {
            if bytes.len() - (i + 1) >= 4 {
                read_accent(bytes, i + 1)
            } else {
                None
            }
        },
        None => {
            if bytes.len() >= 6 {
                read_accent(bytes, 2)
            } else {
                None
            }
        },
    }
}

/// Chooses the accent to draw with for a poster record.
pub fn resolve_accent(placeholder: Option<&str>) -> (accent: Color)
    ensures
        accent == accent_or_brand(
            opt_view(placeholder),
        ),
{
    match placeholder {
        Some(p) => match get_dominant_color(p) {
            Some(c) => c,
            None => Color::accent(),
        },
        None => Color::accent(),
    }
}

/// A body written in base 83 holds no separator.
pub proof fn lemma_body_has_no_separator(body: Seq<char>)
    requires
        is_base83_text(body),
    ensures
        !body.contains(SEPARATOR),
        first_index(body, SEPARATOR) is None,
        is_ascii_text(body),
{
    assert forall|j: int| 0 <= j < body.len() implies body[j] != SEPARATOR && (
    #[trigger] body[j]) as nat <= 127 by {
        lemma_base83_char_is_plain(body[j]);
    }
    lemma_index_from(body, SEPARATOR, 0);
}

/// The bytes of a text of ASCII are its characters, one byte each.
proof fn lemma_ascii_bytes(text: Seq<char>)
    requires
        is_ascii_text(text),
    ensures
        encode_utf8(text).len() == text.len(),
        forall|i: int| 0 <= i < text.len() ==> #[trigger] encode_utf8(text)[i] == text[i] as u8,
        forall|i: int| 0 <= i < text.len() ==> #[trigger] encode_utf8(text)[i] < 128,
{
    assert(is_ascii_chars(text)) by {
        assert forall|i: int| 0 <= i < text.len() implies '\0' <= #[trigger] text[i]
            <= '\u{7f}' by {
            lemma_ascii_char(text[i]);
        }
    }
    is_ascii_chars_encode_utf8(text);
    assert forall|i: int| 0 <= i < text.len() implies #[trigger] encode_utf8(text)[i]
        == text[i] as u8 && encode_utf8(text)[i] < 128 by {
        lemma_ascii_char(text[i]);
        assert(text[i] as u8 == encode_utf8(text)[i]);
    }
}

/// Where a text of ASCII without separator is followed by a separator and
/// four more characters of ASCII, the separator found first is that one, in
/// the text and in its bytes, and the bytes after it spell the four
/// characters.
proof fn lemma_split_at_separator(body: Seq<char>, digits: Seq<char>)
    requires
        !body.contains(SEPARATOR),
        is_ascii_text(body),
        is_ascii_text(digits),
        digits.len() == 4,
    ensures
        first_index(body.push(SEPARATOR) + digits, SEPARATOR) == Some(body.len() as int),
        body_part(body.push(SEPARATOR) + digits) == body,
        accent_part(encode_utf8(body.push(SEPARATOR) + digits)) matches Some(part) && is_ascii_bytes(
            part,
        ) && ascii_chars(part) == digits,
{
    let p = body.push(SEPARATOR) + digits;
    let i = body.len() as int;
    lemma_index_from(p, SEPARATOR, 0);
    assert(p[i] == SEPARATOR);
    assert forall|j: int| 0 <= j < i implies p[j] != SEPARATOR by {
        assert(p[j] == body[j]);
        assert(body.contains(body[j]));
    }
    assert(first_index(p, SEPARATOR) == Some(i));
    assert(p.subrange(0, i) =~= body);

    assert(is_ascii_text(p)) by {
        assert forall|j: int| 0 <= j < p.len() implies (#[trigger] p[j]) as nat <= 127 by {
            if j < i {
                assert(p[j] == body[j]);
            } else if j > i {
                assert(p[j] == digits[j - i - 1]);
            }
        }
    }
    lemma_ascii_bytes(p);
    let bytes = encode_utf8(p);
    lemma_index_from(bytes, SEPARATOR_BYTE, 0);
    assert(bytes[i] == SEPARATOR_BYTE);
    assert forall|j: int| 0 <= j < i implies bytes[j] != SEPARATOR_BYTE by {
        assert(bytes[j] == p[j] as u8);
        lemma_ascii_char(p[j]);
    }
    assert(first_index(bytes, SEPARATOR_BYTE) == Some(i));
    let part = bytes.subrange(i + 1, i + 5);
    assert forall|k: int| 0 <= k < 4 implies #[trigger] part[k] < 128 && part[k] as char
        == digits[k] by {
        assert(part[k] == bytes[i + 1 + k]);
        assert(bytes[i + 1 + k] == p[i + 1 + k] as u8);
        assert(p[i + 1 + k] == digits[k]);
        lemma_ascii_char(digits[k]);
    }
    assert(ascii_chars(part) =~= digits);
}

/// The numeral of an accent has four ASCII digits and denotes the accent.
proof fn lemma_accent_numeral(accent: Color)
    ensures
        accent_numeral(accent).len() == 4,
        is_ascii_text(accent_numeral(accent)),
        unpacked(base83_value(accent_numeral(accent))) == accent,
{
    lemma_digits_shape(packed(accent), ACCENT_DIGITS as nat);
    assert(pow83(4) == 47458321) by {
        reveal_with_fuel(pow83, 5);
    }
    lemma_value_of_digits(packed(accent), ACCENT_DIGITS as nat);
    lemma_unpack_pack(accent);
}

/// The parts of an assembled placeholder: its body is the body it was made
/// of; with an accent, the accent read from it is that accent; without, it
/// holds no separator.
pub proof fn lemma_placeholder_parts(body: Seq<char>, accent: Option<Color>)
    requires
        is_base83_text(body),
    ensures
        body_part(placeholder_text(body, accent)) == body,
        accent matches Some(c) ==> accent_of(placeholder_text(body, accent)) == Some(c),
        accent is None ==> !placeholder_text(body, accent).contains(SEPARATOR),
        placeholder_text(body, accent).len() == body.len() + if accent is Some {
            5nat
        } else {
            0nat
        },
{
    lemma_body_has_no_separator(body);
    match accent {
        Some(c) => {
            lemma_accent_numeral(c);
            lemma_split_at_separator(body, accent_numeral(c));
        },
        None => {},
    }
}

/// The placeholder of an image depends on nothing but the image: two buffers
/// that hold the same image have the same placeholder.
pub proof fn law_placeholder_is_deterministic(a: PixelBuffer, b: PixelBuffer)
    requires
        a@ == b@,
    ensures
        placeholder_of(a@) == placeholder_of(b@),
{
}

/// Reading the accent of a placeholder that was assembled with one gives
/// that accent back, digit for digit.
pub proof fn law_accent_round_trip(body: Seq<char>, accent: Color)
    requires
        is_base83_text(body),
    ensures
        accent_of(placeholder_text(body, Some(accent))) == Some(accent),
        accent_or_brand(Some(placeholder_text(body, Some(accent)))) == accent,
{
    lemma_placeholder_parts(body, Some(accent));
}

} // verus!
