use kanime::codec::{decode, PixelBuffer};
use kanime::color::Color;
use kanime::presenter::{
    compose_presenter, export_presenter, fit_step, fit_title, plan_geometry, presenter_facts,
    secondary_text, title_height, truncate_title, Geometry, PresenterAsset, PresenterError,
    PresenterFacts, PresenterFonts, TextLine, Typeface,
};
use kanime::types::{get_anime, CachedImage};

// A small TrueType font: 1000 units per em, ascent 800, descent 200. The
// letter `a` and every character without a glyph are boxes 600 units wide;
// the space is 300 units wide.
const TEST_FONT: [u8; 392] = [
    0, 1, 0, 0, 0, 7, 0, 64, 0, 2, 0, 48, 99, 109, 97, 112,
    0, 180, 0, 28, 0, 0, 0, 124, 0, 0, 0, 52, 103, 108, 121, 102,
    6, 180, 11, 204, 0, 0, 0, 176, 0, 0, 0, 72, 104, 101, 97, 100,
    97, 107, 67, 161, 0, 0, 0, 248, 0, 0, 0, 54, 104, 104, 101, 97,
    5, 122, 1, 148, 0, 0, 1, 48, 0, 0, 0, 36, 104, 109, 116, 120,
    5, 220, 0, 100, 0, 0, 1, 84, 0, 0, 0, 12, 108, 111, 99, 97,
    0, 18, 0, 54, 0, 0, 1, 96, 0, 0, 0, 8, 109, 97, 120, 112,
    0, 5, 0, 6, 0, 0, 1, 104, 0, 0, 0, 32, 0, 0, 0, 1,
    0, 3, 0, 1, 0, 0, 0, 12, 0, 4, 0, 40, 0, 0, 0, 6,
    0, 4, 0, 1, 0, 2, 0, 32, 0, 97, 255, 255, 0, 0, 0, 32,
    0, 97, 255, 255, 255, 225, 255, 161, 0, 1, 0, 0, 0, 0, 0, 0,
    0, 1, 0, 50, 0, 0, 2, 38, 2, 188, 0, 3, 0, 0, 1, 1,
    1, 1, 0, 50, 1, 244, 0, 0, 254, 12, 0, 0, 0, 0, 2, 188,
    0, 0, 0, 0, 0, 1, 0, 50, 0, 0, 2, 38, 1, 244, 0, 3,
    0, 0, 1, 1, 1, 1, 0, 50, 1, 244, 0, 0, 254, 12, 0, 0,
    0, 0, 1, 244, 0, 0, 0, 0, 0, 1, 0, 0, 0, 1, 0, 0,
    0, 0, 0, 0, 95, 15, 60, 245, 0, 0, 3, 232, 0, 0, 0, 0,
    0, 0, 0, 0, 0, 0, 0, 0, 0, 0, 0, 0, 0, 0, 0, 0,
    2, 88, 2, 188, 0, 0, 0, 8, 0, 2, 0, 0, 0, 0, 0, 0,
    0, 1, 0, 0, 3, 32, 255, 56, 0, 0, 2, 88, 0, 0, 0, 0,
    2, 88, 0, 1, 0, 0, 0, 0, 0, 0, 0, 0, 0, 0, 0, 0,
    0, 0, 0, 3, 2, 88, 0, 50, 1, 44, 0, 0, 2, 88, 0, 50,
    0, 0, 0, 18, 0, 18, 0, 36, 0, 1, 0, 0, 0, 3, 0, 4,
    0, 1, 0, 0, 0, 0, 0, 2, 0, 0, 0, 0, 0, 0, 0, 0,
    0, 0, 0, 0, 0, 0, 0, 0,
];

fn font_bytes() -> Vec<u8> {
    TEST_FONT.to_vec()
}

fn fonts() -> PresenterFonts {
    match PresenterFonts::load(&font_bytes()) {
        Ok(fonts) => fonts,
        Err(e) => panic!("the font does not load: {:?}", e),
    }
}

fn face() -> Typeface {
    match Typeface::load(&font_bytes(), 64) {
        Ok(face) => face,
        Err(e) => panic!("the font does not load: {:?}", e),
    }
}

fn template_bytes(width: u32, height: u32) -> Vec<u8> {
    let image = ril::Image::new(width, height, ril::Rgb::new(20, 20, 40));
    let mut bytes = Vec::new();
    image.encode(ril::ImageFormat::Png, &mut bytes).unwrap();
    bytes
}

fn poster_bytes(width: u32, height: u32) -> Vec<u8> {
    let image = ril::Image::new(width, height, ril::Rgb::new(200, 30, 30));
    let mut bytes = Vec::new();
    image.encode(ril::ImageFormat::WebP, &mut bytes).unwrap();
    bytes
}

fn buffer(bytes: &Vec<u8>, content_type: &str) -> PixelBuffer {
    match decode(bytes, Some(content_type)) {
        Ok(b) => b,
        Err(e) => panic!("decoding failed: {:?}", e),
    }
}

fn words(count: usize) -> String {
    vec!["aaaa"; count].join(" ")
}

fn expected_size(face: &Typeface, title: &str, width: u32) -> u16 {
    let mut size = 64u16;
    while title_height(face, title, size, width) > 212 && size > 16 {
        size -= 1;
    }
    size
}

fn near(pixel: &ril::Rgb, r: u8, g: u8, b: u8) -> bool {
    let d = |a: u8, b: u8| (a as i32 - b as i32).abs();
    d(pixel.r, r) <= 12 && d(pixel.g, g) <= 12 && d(pixel.b, b) <= 12
}

fn facts(title: &str) -> PresenterFacts {
    PresenterFacts {
        title: String::from(title),
        release_year: 2021,
        episodes: 24,
        seasons: 1,
        chapters: 270,
        volumes: 30,
        accent: Color { r: 10, g: 200, b: 90 },
    }
}

#[test]
fn titles_are_cut_to_585_characters() {
    assert_eq!(truncate_title(""), "");
    let typical = "a".repeat(40);
    assert_eq!(truncate_title(&typical), typical);
    let full = "b".repeat(585);
    assert_eq!(truncate_title(&full), full);
    assert_eq!(truncate_title(&"c".repeat(586)), "c".repeat(585));
    assert_eq!(truncate_title(&"d".repeat(5000)).chars().count(), 585);
}

#[test]
fn titles_are_cut_between_characters() {
    let long = "\u{e9}".repeat(600);
    let cut = truncate_title(&long);
    assert_eq!(cut.chars().count(), 585);
    assert_eq!(cut.len(), 1170);
    let mixed = format!("{}{}", "x".repeat(584), "\u{4e2d}\u{6587}");
    assert_eq!(truncate_title(&mixed), format!("{}{}", "x".repeat(584), "\u{4e2d}"));
}

#[test]
fn geometry_scales_the_poster_to_the_template() {
    assert_eq!(
        plan_geometry(1200, 630),
        Some(Geometry { poster_width: 417, poster_height: 630, title_width: 719 })
    );
    assert_eq!(
        plan_geometry(1000, 468),
        Some(Geometry { poster_width: 310, poster_height: 468, title_width: 626 })
    );
    assert_eq!(
        plan_geometry(481, 630),
        Some(Geometry { poster_width: 417, poster_height: 630, title_width: 0 })
    );
    assert_eq!(
        plan_geometry(1200, 2),
        Some(Geometry { poster_width: 1, poster_height: 2, title_width: 1135 })
    );
}

#[test]
fn geometry_needs_room_for_poster_and_margin() {
    assert_eq!(plan_geometry(480, 630), None);
    assert_eq!(plan_geometry(100, 630), None);
    assert_eq!(plan_geometry(1200, 1), None);
    assert_eq!(plan_geometry(65536, 65536), None);
    assert_eq!(plan_geometry(4294967295, 4294967295), None);
}

#[test]
fn fitting_shrinks_by_one_until_the_title_fits_or_the_floor() {
    assert_eq!(fit_step(64, 0), None);
    assert_eq!(fit_step(64, 212), None);
    assert_eq!(fit_step(64, 213), Some(63));
    assert_eq!(fit_step(40, 5000), Some(39));
    assert_eq!(fit_step(17, 213), Some(16));
    assert_eq!(fit_step(16, 213), None);
    assert_eq!(fit_step(16, 4000000000), None);
    assert_eq!(fit_step(3, 999), None);
}

#[test]
fn font_that_is_no_font_does_not_load() {
    assert!(matches!(Typeface::load(&vec![1u8, 2, 3, 4], 64), Err(PresenterError::FontLoadFailure)));
    assert!(matches!(Typeface::load(&Vec::new(), 28), Err(PresenterError::FontLoadFailure)));
    assert!(Typeface::load(&font_bytes(), 32).is_ok());
}

#[test]
fn empty_title_has_no_height_and_keeps_the_base_size() {
    let face = face();
    assert_eq!(title_height(&face, "", 64, 719), 0);
    assert_eq!(fit_title(&face, "", 719), 64);
}

#[test]
fn height_grows_with_the_lines_of_a_title() {
    let face = face();
    let one = title_height(&face, "aaaa", 64, 719);
    let two = title_height(&face, &words(8), 64, 719);
    let many = title_height(&face, &words(40), 64, 719);
    assert!(one > 0);
    assert!(two > one);
    assert!(many > two);
    assert!(title_height(&face, &words(40), 20, 719) < many);
}

#[test]
fn typical_title_is_drawn_at_the_base_size() {
    let face = face();
    let title = words(8);
    assert_eq!(title.len(), 39);
    assert!(title_height(&face, &title, 64, 719) <= 212);
    assert_eq!(fit_title(&face, &title, 719), 64);
}

#[test]
fn long_title_is_shrunk_until_it_fits() {
    let face = face();
    let title = truncate_title(&words(130));
    assert_eq!(title.chars().count(), 585);
    let size = fit_title(&face, &title, 719);
    assert_eq!(size, expected_size(&face, &title, 719));
    assert!(size > 16);
    assert!(size < 64);
    assert!(title_height(&face, &title, size, 719) <= 212);
    assert!(title_height(&face, &title, size + 1, 719) > 212);
}

#[test]
fn fitting_stops_at_the_floor() {
    let face = face();
    let title = truncate_title(&words(130));
    let size = fit_title(&face, &title, 219);
    assert_eq!(size, 16);
    assert!(title_height(&face, &title, 16, 219) > 212);
    assert_eq!(size, expected_size(&face, &title, 219));
}

#[test]
fn secondary_lines_are_at_their_places() {
    let lines = secondary_text(&facts("t"));
    assert_eq!(lines.len(), 5);
    match &lines[0] {
        TextLine::Centered { x, y, size, text, color } => {
            assert_eq!((*x, *y, *size), (516, 55, 28));
            assert_eq!(text, "2021");
            assert_eq!(*color, Color { r: 241, g: 143, b: 243 });
        }
        other => panic!("unexpected line {:?}", other),
    }
    let expected = [(570u32, "24", " episodes"), (490, "1", " seasons"), (410, "270", " chapters"), (330, "30", " volumes")];
    for (line, (at, count, name)) in lines[1..].iter().zip(expected.iter()) {
        match line {
            TextLine::Labelled { x, y, size, value, value_color, label, label_color } => {
                assert_eq!((*x, *y, *size), (532, *at, 32));
                assert_eq!(value, count);
                assert_eq!(*value_color, Color { r: 10, g: 200, b: 90 });
                assert_eq!(label, name);
                assert_eq!(*label_color, Color { r: 255, g: 255, b: 255 });
            }
            other => panic!("unexpected line {:?}", other),
        }
    }
}

#[test]
fn counts_are_written_in_decimal() {
    let mut all = facts("t");
    all.release_year = 0;
    all.episodes = 65535;
    all.volumes = 10;
    let lines = secondary_text(&all);
    assert!(matches!(&lines[0], TextLine::Centered { text, .. } if text == "0"));
    assert!(matches!(&lines[1], TextLine::Labelled { value, .. } if value == "65535"));
    assert!(matches!(&lines[4], TextLine::Labelled { value, .. } if value == "10"));
}

#[test]
fn facts_are_taken_from_the_series() {
    let series = get_anime(5);
    let facts = presenter_facts(&series).unwrap();
    assert_eq!(facts.title, "Tokyo Revengers");
    assert_eq!(facts.release_year, 2021);
    assert_eq!(facts.episodes, 24);
    assert_eq!(facts.seasons, 1);
    assert_eq!(facts.chapters, 270);
    assert_eq!(facts.volumes, 30);
    assert_eq!(facts.accent, Color { r: 210, g: 144, b: 119 });
}

#[test]
fn facts_use_the_brand_accent_without_placeholder() {
    let mut series = get_anime(5);
    series.poster = CachedImage::new(String::from("key"));
    assert_eq!(presenter_facts(&series).unwrap().accent, Color { r: 241, g: 143, b: 243 });
    series.poster = CachedImage::with_placeholder(String::from("key"), String::from("body/1cn?"));
    assert_eq!(presenter_facts(&series).unwrap().accent, Color { r: 12, g: 200, b: 77 });
}

#[test]
fn series_without_title_has_no_presenter() {
    let mut series = get_anime(5);
    series.titles.clear();
    assert!(presenter_facts(&series).is_none());
    let r = export_presenter(&series, &template_bytes(1200, 630), &poster_bytes(310, 468), &font_bytes());
    assert!(matches!(r, Err(PresenterError::MissingTitle)));
}

#[test]
fn presenter_has_the_size_of_the_template() {
    let template = buffer(&template_bytes(1200, 630), "image/png");
    let poster = buffer(&poster_bytes(310, 468), "image/webp");
    let canvas = compose_presenter(&facts(&words(8)), template, poster, &fonts()).unwrap();
    assert_eq!((canvas.width(), canvas.height()), (1200, 630));

    let template = buffer(&template_bytes(900, 500), "image/png");
    let poster = buffer(&poster_bytes(50, 700), "image/webp");
    let canvas = compose_presenter(&facts(""), template, poster, &fonts()).unwrap();
    assert_eq!((canvas.width(), canvas.height()), (900, 500));
}

#[test]
fn presenter_shows_poster_title_and_background() {
    let series = get_anime(5);
    let artifact = export_presenter(
        &series,
        &template_bytes(1200, 630),
        &poster_bytes(310, 468),
        &font_bytes(),
    ).unwrap();
    assert_eq!(artifact.path, "pre/d07f449fdeb9e559e19095db31da14ff.webp");
    let image = ril::Image::<ril::Rgb>::from_bytes(ril::ImageFormat::WebP, &artifact.bytes).unwrap();
    assert_eq!(image.dimensions(), (1200, 630));
    assert!(near(image.pixel(10, 10), 200, 30, 30));
    assert!(near(image.pixel(400, 620), 200, 30, 30));
    assert!(near(image.pixel(430, 300), 20, 20, 40));
    assert!(near(image.pixel(1190, 10), 20, 20, 40));
    let mut white = 0;
    for y in 82..(82 + 64) {
        for x in 452..1136 {
            if near(image.pixel(x, y), 255, 255, 255) {
                white += 1;
            }
        }
    }
    assert!(white > 1000);
    let mut year = 0;
    for y in 35..76 {
        for x in 470..562 {
            if near(image.pixel(x, y), 241, 143, 243) {
                year += 1;
            }
        }
    }
    assert!(year > 100);
    let mut accent = 0;
    for y in 540..600 {
        for x in 532..700 {
            if near(image.pixel(x, y), 210, 144, 119) {
                accent += 1;
            }
        }
    }
    assert!(accent > 100);
}

#[test]
fn template_without_room_is_unfit() {
    let template = buffer(&template_bytes(480, 630), "image/png");
    let poster = buffer(&poster_bytes(310, 468), "image/webp");
    let r = compose_presenter(&facts("t"), template, poster, &fonts());
    assert!(matches!(r, Err(PresenterError::PresenterIOFailure(PresenterAsset::Template))));
    let template = buffer(&template_bytes(481, 630), "image/png");
    let poster = buffer(&poster_bytes(310, 468), "image/webp");
    assert!(compose_presenter(&facts("t"), template, poster, &fonts()).is_ok());
}

#[test]
fn fonts_load_together_or_not_at_all() {
    assert!(PresenterFonts::load(&font_bytes()).is_ok());
    assert!(matches!(PresenterFonts::load(&vec![0u8; 12]), Err(PresenterError::FontLoadFailure)));
}

#[test]
fn unreadable_assets_fail_the_presenter_alone() {
    let series = get_anime(5);
    let garbage = vec![7u8; 40];
    let no_template = export_presenter(&series, &garbage, &poster_bytes(310, 468), &font_bytes());
    assert!(matches!(no_template, Err(PresenterError::PresenterIOFailure(PresenterAsset::Template))));
    let no_poster = export_presenter(&series, &template_bytes(1200, 630), &garbage, &font_bytes());
    assert!(matches!(no_poster, Err(PresenterError::PresenterIOFailure(PresenterAsset::Poster))));
    let no_font = export_presenter(&series, &template_bytes(1200, 630), &poster_bytes(310, 468), &garbage);
    assert!(matches!(no_font, Err(PresenterError::FontLoadFailure)));
    let narrow = export_presenter(&series, &template_bytes(300, 630), &poster_bytes(310, 468), &font_bytes());
    assert!(matches!(narrow, Err(PresenterError::PresenterIOFailure(PresenterAsset::Template))));
}

#[test]
fn presenter_keeps_poster_and_template_where_nothing_is_written() {
    let template = buffer(&template_bytes(1200, 630), "image/png");
    let poster = buffer(&poster_bytes(310, 468), "image/webp");
    let canvas = compose_presenter(&facts(&words(8)), template, poster, &fonts()).unwrap();
    let red = |c: Option<Color>| matches!(c, Some(c) if c.r > 190 && c.g < 45 && c.b < 45);
    assert!(red(canvas.pixel(0, 0)));
    assert!(red(canvas.pixel(416, 629)));
    assert!(red(canvas.pixel(200, 300)));
    assert_eq!(canvas.pixel(417, 0), Some(Color { r: 20, g: 20, b: 40 }));
    assert_eq!(canvas.pixel(430, 629), Some(Color { r: 20, g: 20, b: 40 }));
    assert_eq!(canvas.pixel(1199, 629), Some(Color { r: 20, g: 20, b: 40 }));
    assert_eq!(canvas.pixel(1200, 0), None);
}

#[test]
fn empty_title_leaves_the_title_box_untouched() {
    let template = buffer(&template_bytes(1200, 630), "image/png");
    let poster = buffer(&poster_bytes(310, 468), "image/webp");
    let canvas = compose_presenter(&facts(""), template, poster, &fonts()).unwrap();
    for y in [82u32, 100, 150, 290] {
        for x in [452u32, 600, 900, 1130] {
            assert_eq!(canvas.pixel(x, y), Some(Color { r: 20, g: 20, b: 40 }));
        }
    }
}

#[test]
fn title_is_drawn_in_white_in_its_box() {
    let template = buffer(&template_bytes(1200, 630), "image/png");
    let poster = buffer(&poster_bytes(310, 468), "image/webp");
    let canvas = compose_presenter(&facts("aaaa"), template, poster, &fonts()).unwrap();
    let mut white = 0;
    for y in 82..146 {
        for x in 452..620 {
            if canvas.pixel(x, y) == Some(Color { r: 255, g: 255, b: 255 }) {
                white += 1;
            }
        }
    }
    assert!(white > 2000);
    assert_eq!(canvas.pixel(700, 100), Some(Color { r: 20, g: 20, b: 40 }));
}

#[test]
fn presenter_that_does_not_encode_fails_at_the_output() {
    let series = get_anime(5);
    let wide = export_presenter(&series, &template_bytes(16400, 2), &poster_bytes(310, 468), &font_bytes());
    assert!(matches!(wide, Err(PresenterError::PresenterIOFailure(PresenterAsset::Output))));
}

#[test]
fn poster_too_high_to_be_scaled_is_unfit() {
    let image = ril::Image::new(1, 10_300_000, ril::Rgb::new(9, 9, 9));
    let mut bytes = Vec::new();
    image.encode(ril::ImageFormat::Png, &mut bytes).unwrap();
    let poster = buffer(&bytes, "image/png");
    let template = buffer(&template_bytes(1200, 630), "image/png");
    let r = compose_presenter(&facts("t"), template, poster, &fonts());
    assert!(matches!(r, Err(PresenterError::PresenterIOFailure(PresenterAsset::Poster))));
}

#[test]
fn high_poster_is_scaled_to_its_place() {
    let poster = buffer(&poster_bytes(1, 16383), "image/webp");
    let template = buffer(&template_bytes(1200, 630), "image/png");
    let canvas = compose_presenter(&facts(""), template, poster, &fonts()).unwrap();
    assert_eq!((canvas.width(), canvas.height()), (1200, 630));
    assert!(matches!(canvas.pixel(100, 300), Some(c) if c.r > 190 && c.g < 45));
}
