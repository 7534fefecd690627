use kanime::routes::{plan_patch, survives_poster_failure, PatchRoute};
use kanime::types::{
    get_anime, get_search_entry, AnimeReleaseInfo, AnimeSeries, AnimeSeriesCandidate,
    AnimeSeriesPatch, AnimeSeriesSearchEntry, AnimeSeriesSearchEntryPatch, CachedImage, KError,
    KErrorType, MangaReleaseInfo, Note, SeasonKind, SeasonMapping, WithID, WithOID,
    ANIME_PRIMARY_KEY,
};

fn manga() -> MangaReleaseInfo {
    MangaReleaseInfo { author: String::from("Author"), volumes: 3, chapters: 30, release_year: 2001 }
}

fn anime() -> AnimeReleaseInfo {
    AnimeReleaseInfo { studios: vec![String::from("Studio")], seasons: 2, episodes: 26, release_year: 2003 }
}

fn season() -> SeasonMapping {
    SeasonMapping {
        kind: SeasonKind::Movie,
        label: String::from("The Movie"),
        start_episode: 1,
        end_episode: 1,
        start_chapter: 10,
        end_chapter: 20,
        start_volume: 2,
        end_volume: 3,
        pinned_note: Some(Note { timestamp: 7, author: String::from("mod"), content: String::from("note") }),
    }
}

#[test]
fn cached_image_without_placeholder() {
    let image = CachedImage::new(String::from("key1"));
    assert_eq!(image.key(), "key1");
    assert_eq!(image.placeholder(), None);
}

#[test]
fn cached_image_with_placeholder() {
    let image = CachedImage::with_placeholder(String::from("key2"), String::from("LEHV6n/abcd"));
    assert_eq!(image.key(), "key2");
    assert_eq!(image.placeholder(), Some("LEHV6n/abcd"));
}

#[test]
fn wrappers_give_their_record_back() {
    let with_oid = WithOID::new(String::from("63b44f977ef2f272e15f61ca"), 17u32);
    assert_eq!(with_oid.id, "63b44f977ef2f272e15f61ca");
    assert_eq!(*with_oid.as_ref(), 17);
    let with_id = WithID::from(with_oid);
    assert_eq!(with_id.id, "63b44f977ef2f272e15f61ca");
    assert_eq!(*with_id.as_ref(), 17);
    assert_eq!(with_id.into_inner(), 17);
    assert_eq!(WithOID::new(String::from("a"), "x").into_inner(), "x");
    let fresh = WithID::new(String::from("id"), vec![1, 2]);
    assert_eq!(fresh.id, "id");
    assert_eq!(fresh.into_inner(), vec![1, 2]);
}

#[test]
fn candidate_becomes_a_series_at_the_given_time() {
    let candidate = AnimeSeriesCandidate {
        titles: vec![String::from("One"), String::from("Two")],
        manga: manga(),
        anime: anime(),
        mapping: vec![season()],
    };
    let series = candidate.into_anime(CachedImage::new(String::from("k")), 1672531200000);
    assert_eq!(series.titles, vec![String::from("One"), String::from("Two")]);
    assert_eq!(series.poster.key(), "k");
    assert_eq!(series.poster.placeholder(), None);
    assert_eq!(series.manga.author, "Author");
    assert_eq!(series.manga.chapters, 30);
    assert_eq!(series.anime.episodes, 26);
    assert_eq!(series.mapping.len(), 1);
    assert_eq!(series.mapping[0].kind, SeasonKind::Movie);
    assert_eq!(series.mapping[0].pinned_note.as_ref().unwrap().content, "note");
    assert_eq!(series.created_on, 1672531200000);
    assert_eq!(series.updated_on, 1672531200000);
}

#[test]
fn empty_patch_changes_nothing() {
    let patch = AnimeSeriesPatch::new(None, None, None, None);
    assert!(patch.is_empty());
    assert!(!patch.has_presenter_changes());
    assert_eq!(patch.sealed_on(), 0);
    assert!(patch.poster_ref().is_none());
}

#[test]
fn patch_with_any_field_is_not_empty() {
    assert!(!AnimeSeriesPatch::new(Some(vec![]), None, None, None).is_empty());
    assert!(!AnimeSeriesPatch::new(None, Some(manga()), None, None).is_empty());
    assert!(!AnimeSeriesPatch::new(None, None, Some(anime()), None).is_empty());
    assert!(!AnimeSeriesPatch::new(None, None, None, Some(vec![])).is_empty());
}

#[test]
fn titles_manga_and_anime_change_the_presenter() {
    assert!(AnimeSeriesPatch::new(Some(vec![]), None, None, None).has_presenter_changes());
    assert!(AnimeSeriesPatch::new(None, Some(manga()), None, None).has_presenter_changes());
    assert!(AnimeSeriesPatch::new(None, None, Some(anime()), None).has_presenter_changes());
    assert!(!AnimeSeriesPatch::new(None, None, None, Some(vec![season()])).has_presenter_changes());
}

#[test]
fn setting_a_poster_fills_the_patch() {
    let mut patch = AnimeSeriesPatch::new(None, None, None, None);
    patch.set_poster(CachedImage::with_placeholder(String::from("k"), String::from("p")));
    assert!(!patch.is_empty());
    assert!(!patch.has_presenter_changes());
    assert_eq!(patch.poster_ref().as_ref().unwrap().key(), "k");
    patch.set_poster(CachedImage::new(String::from("other")));
    assert_eq!(patch.poster_ref().as_ref().unwrap().key(), "other");
    assert!(patch.titles_ref().is_none());
}

#[test]
fn sealing_stamps_the_patch() {
    let mut patch = AnimeSeriesPatch::new(Some(vec![String::from("T")]), None, None, None);
    patch.seal(42);
    assert_eq!(patch.sealed_on(), 42);
    assert_eq!(patch.titles_ref().as_ref().unwrap().len(), 1);
    assert!(patch.manga_ref().is_none());
    assert!(patch.anime_ref().is_none());
    assert!(patch.mapping_ref().is_none());
    patch.seal(43);
    assert_eq!(patch.sealed_on(), 43);
}

#[test]
fn index_patch_takes_titles_author_and_poster() {
    let mut patch = AnimeSeriesPatch::new(Some(vec![String::from("T")]), Some(manga()), Some(anime()), None);
    patch.set_poster(CachedImage::new(String::from("k")));
    let entry = AnimeSeriesSearchEntryPatch::from_patch(String::from("id1"), patch).unwrap();
    assert_eq!(entry.id, "id1");
    assert_eq!(entry.titles, Some(vec![String::from("T")]));
    assert_eq!(entry.author, Some(String::from("Author")));
    assert_eq!(entry.poster.unwrap().key(), "k");
}

#[test]
fn index_patch_of_titles_alone() {
    let patch = AnimeSeriesPatch::new(Some(vec![String::from("T")]), None, None, None);
    let entry = AnimeSeriesSearchEntryPatch::from_patch(String::from("id2"), patch).unwrap();
    assert_eq!(entry.titles, Some(vec![String::from("T")]));
    assert_eq!(entry.author, None);
    assert!(entry.poster.is_none());
}

#[test]
fn patch_that_the_index_does_not_hold_gives_no_index_patch() {
    let patch = AnimeSeriesPatch::new(None, None, Some(anime()), Some(vec![season()]));
    assert!(AnimeSeriesSearchEntryPatch::from_patch(String::from("id"), patch).is_none());
    let empty = AnimeSeriesPatch::new(None, None, None, None);
    assert!(AnimeSeriesSearchEntryPatch::from_patch(String::from("id"), empty).is_none());
}

#[test]
fn index_entry_of_a_stored_series() {
    let stored = WithOID::new(String::from("63b44f977ef2f272e15f61ca"), get_anime(1));
    let entry = AnimeSeriesSearchEntry::from(stored);
    assert_eq!(entry.id, "63b44f977ef2f272e15f61ca");
    assert_eq!(entry.titles, vec![String::from("Tokyo Revengers")]);
    assert_eq!(entry.author, "Ken Wakui");
    assert_eq!(entry.poster.key(), "d07f449fdeb9e559e19095db31da14ff");
    let handed = WithID::new(String::from("abc"), get_anime(1));
    let entry: AnimeSeriesSearchEntry = handed.into();
    assert_eq!(entry.id, "abc");
    assert_eq!(entry.author, "Ken Wakui");
}

#[test]
fn sample_entry_has_its_values() {
    let entry = get_search_entry();
    assert_eq!(entry.id, "63b44f977ef2f272e15f61ca");
    assert_eq!(entry.titles, vec![String::from("Tokyo Revengers")]);
    assert_eq!(entry.author, "Ken Wakui");
    assert_eq!(entry.poster.key(), "d07f449fdeb9e559e19095db31da14ff");
    assert_eq!(entry.poster.placeholder(), Some("TFOBAk}sIT9r?ZI=u,$zKK#lNYx["));
    assert_eq!(ANIME_PRIMARY_KEY, "id");
}

#[test]
fn sample_series_has_its_values() {
    let series: AnimeSeries = get_anime(99);
    assert_eq!(series.titles, vec![String::from("Tokyo Revengers")]);
    assert_eq!(series.poster.placeholder(), Some("TFOBAk}sIT9r?ZI=u,$zKK#lNYx["));
    assert_eq!(series.manga.author, "Ken Wakui");
    assert_eq!((series.manga.volumes, series.manga.chapters, series.manga.release_year), (30, 270, 2017));
    assert_eq!(series.anime.studios, vec![String::from("Liden Films")]);
    assert_eq!((series.anime.seasons, series.anime.episodes, series.anime.release_year), (1, 24, 2021));
    assert_eq!(series.mapping.len(), 1);
    let season = &series.mapping[0];
    assert_eq!(season.kind, SeasonKind::Season);
    assert_eq!(season.label, "Season 1");
    assert_eq!((season.start_episode, season.end_episode), (1, 24));
    assert_eq!((season.start_chapter, season.end_chapter), (1, 73));
    assert_eq!((season.start_volume, season.end_volume), (1, 8));
    assert!(season.pinned_note.is_none());
    assert_eq!((series.created_on, series.updated_on), (99, 99));
}

#[test]
fn error_bodies_carry_kind_text_and_status() {
    let bad = KError::bad_request("Patch is empty");
    assert_eq!((bad.error, bad.description.as_str(), bad.status), (KErrorType::BadRequest, "Patch is empty", 400));
    let missing = KError::not_found();
    assert_eq!((missing.error, missing.description.as_str(), missing.status), (KErrorType::NotFound, "Not Found", 404));
    let internal = KError::internal_error("Could not perform search");
    assert_eq!((internal.error, internal.description.as_str(), internal.status), (KErrorType::InternalError, "Could not perform search", 500));
    let forbidden = KError::forbidden();
    assert_eq!((forbidden.error, forbidden.description.as_str(), forbidden.status), (KErrorType::Forbidden, "Forbidden", 403));
    let db = KError::db_error();
    assert_eq!((db.error, db.description.as_str(), db.status), (KErrorType::InternalError, "Could not retrieve data from database", 500));
}

#[test]
fn patch_requests_are_routed() {
    let empty = AnimeSeriesPatch::new(None, None, None, None);
    let titles = AnimeSeriesPatch::new(Some(vec![String::from("T")]), None, None, None);
    let mapping = AnimeSeriesPatch::new(None, None, None, Some(vec![]));
    assert_eq!(plan_patch(&empty, false), PatchRoute::RejectEmpty);
    assert_eq!(plan_patch(&empty, true), PatchRoute::ReplacePoster);
    assert_eq!(plan_patch(&titles, true), PatchRoute::ReplacePoster);
    assert_eq!(plan_patch(&titles, false), PatchRoute::RefreshPresenter);
    assert_eq!(plan_patch(&mapping, false), PatchRoute::ApplyOnly);
    assert!(!survives_poster_failure(&empty));
    assert!(survives_poster_failure(&titles));
    assert!(survives_poster_failure(&mapping));
}

#[test]
fn applying_a_patch_replaces_what_it_holds() {
    let mut patch = AnimeSeriesPatch::new(Some(vec![String::from("New")]), None, Some(anime()), None);
    patch.set_poster(CachedImage::with_placeholder(String::from("k2"), String::from("p/0000")));
    patch.seal(77);
    let patched = patch.apply(get_anime(5));
    assert_eq!(patched.titles, vec![String::from("New")]);
    assert_eq!(patched.poster.key(), "k2");
    assert_eq!(patched.poster.placeholder(), Some("p/0000"));
    assert_eq!(patched.manga.author, "Ken Wakui");
    assert_eq!(patched.anime.episodes, 26);
    assert_eq!(patched.anime.studios, vec![String::from("Studio")]);
    assert_eq!(patched.mapping.len(), 1);
    assert_eq!(patched.mapping[0].label, "Season 1");
    assert_eq!((patched.created_on, patched.updated_on), (5, 77));
}

#[test]
fn applying_an_empty_patch_keeps_the_series() {
    let patched = AnimeSeriesPatch::new(None, None, None, None).apply(get_anime(9));
    assert_eq!(patched.titles, vec![String::from("Tokyo Revengers")]);
    assert_eq!(patched.poster.key(), "d07f449fdeb9e559e19095db31da14ff");
    assert_eq!(patched.manga.chapters, 270);
    assert_eq!((patched.created_on, patched.updated_on), (9, 0));
}
