//! The catalog's records: series, release data, season mappings, the image
//! record that ties a series to its poster artifacts, and the patches that
//! change them.

use vstd::prelude::*;

verus! {

/// The kinds of error that the service reports to a client.
#[derive(Debug, Clone, Copy, PartialEq, Eq, Structural)]
pub enum KErrorType {
    Forbidden,
    BadRequest,
    InternalError,
    NotFound,
}

/// What an error response carries: its kind, the text shown to the client and
/// the HTTP status it is sent with.
#[derive(Debug, Clone)]
pub struct ErrorBody {
    pub error: KErrorType,
    pub description: String,
    pub status: u16,
}

/// The error responses of the service.
pub struct KError;

impl KError {
    /// A 400 response with the caller's description.
    pub fn bad_request(details: &str) -> (body: ErrorBody)
        ensures
            body.error == KErrorType::BadRequest,
            body.description@ == details@,
            body.status == 400,
    {
        ErrorBody {
            error: KErrorType::BadRequest,
            description: String::from_str(details),
            status: 400,
        }
    }

    /// The 404 response.
    pub fn not_found() -> (body: ErrorBody)
        ensures
            body.error == KErrorType::NotFound,
            body.description@ == "Not Found"@,
            body.status == 404,
    {
        ErrorBody {
            error: KErrorType::NotFound,
            description: String::from_str("Not Found"),
            status: 404,
        }
    }

    /// A 500 response with the caller's description.
    pub fn internal_error(details: &str) -> (body: ErrorBody)
        ensures
            body.error == KErrorType::InternalError,
            body.description@ == details@,
            body.status == 500,
    {
        ErrorBody {
            error: KErrorType::InternalError,
            description: String::from_str(details),
            status: 500,
        }
    }

    /// The 403 response.
    pub fn forbidden() -> (body: ErrorBody)
        ensures
            body.error == KErrorType::Forbidden,
            body.description@ == "Forbidden"@,
            body.status == 403,
    {
        ErrorBody {
            error: KErrorType::Forbidden,
            description: String::from_str("Forbidden"),
            status: 403,
        }
    }

    /// The 500 response for a failed database call.
    pub fn db_error() -> (body: ErrorBody)
        ensures
            body.error == KErrorType::InternalError,
            body.description@ == "Could not retrieve data from database"@,
            body.status == 500,
    {
        ErrorBody {
            error: KErrorType::InternalError,
            description: String::from_str("Could not retrieve data from database"),
            status: 500,
        }
    }
}

/// A record as the document store returns it: the record and the store's
/// identifier for it.
#[derive(Debug, Clone)]
pub struct WithOID<T> {
    pub id: String,
    inner: T,
}

impl<T> WithOID<T> {
    /// The identifier of the record.
    pub closed spec fn spec_id(&self) -> String {
        self.id
    }

    /// The record that this value wraps.
    pub closed spec fn inner(&self) -> T {
        self.inner
    }

    pub fn new(id: String, inner: T) -> (r: Self)
        ensures
            r.spec_id() == id,
            r.inner() == inner,
    {
        Self { id, inner }
    }

    pub fn into_inner(self) -> (inner: T)
        ensures
            inner == self.inner(),
    {
        self.inner
    }

    pub fn as_ref(&self) -> (inner: &T)
        ensures
            *inner == self.inner(),
    {
        &self.inner
    }
}

/// A record as the service hands it out: the record and its identifier as
/// plain text.
#[derive(Debug, Clone)]
pub struct WithID<T> {
    pub id: String,
    inner: T,
}

impl<T> WithID<T> {
    /// The identifier of the record.
    pub closed spec fn spec_id(&self) -> String {
        self.id
    }

    /// The record that this value wraps.
    pub closed spec fn inner(&self) -> T {
        self.inner
    }

    pub fn new(id: String, inner: T) -> (r: Self)
        ensures
            r.spec_id() == id,
            r.inner() == inner,
    {
        Self { id, inner }
    }

    pub fn into_inner(self) -> (inner: T)
        ensures
            inner == self.inner(),
    {
        self.inner
    }

    pub fn as_ref(&self) -> (inner: &T)
        ensures
            *inner == self.inner(),
    {
        &self.inner
    }

}

impl<T> From<WithOID<T>> for WithID<T> {
    /// The same record under the same identifier.
    fn from(value: WithOID<T>) -> (r: Self) {
        WithID { id: value.id, inner: value.inner }
    }
}

impl<T> vstd::std_specs::convert::FromSpecImpl<WithOID<T>> for WithID<T> {
    open spec fn obeys_from_spec() -> bool {
        true
    }

    closed spec fn from_spec(value: WithOID<T>) -> Self {
        WithID { id: value.id, inner: value.inner }
    }
}

/// Converting a stored record keeps its identifier and the record.
pub proof fn lemma_with_id_from<T>(value: WithOID<T>)
    ensures
        <WithID<T> as vstd::std_specs::convert::FromSpec<WithOID<T>>>::from_spec(value).spec_id()
            == value.spec_id(),
        <WithID<T> as vstd::std_specs::convert::FromSpec<WithOID<T>>>::from_spec(value).inner()
            == value.inner(),
{
}

#[derive(Debug, Default, Clone)]
pub struct MangaReleaseInfo {
    pub author: String,
    pub volumes: u16,
    pub chapters: u16,
    pub release_year: u16,
}

#[derive(Debug, Default, Clone)]
pub struct AnimeReleaseInfo {
    pub studios: Vec<String>,
    pub seasons: u16,
    pub episodes: u16,
    pub release_year: u16,
}

#[derive(Debug, Clone, Copy, PartialEq, Eq, Structural)]
pub enum SeasonKind {
    Season,
    Movie,
    Oav,
    SpinOff,
}

/// A note that a moderator pinned to a season.
#[derive(Debug, Clone)]
pub struct Note {
    pub timestamp: u64,
    pub author: String,
    pub content: String,
}

/// Which episodes, chapters and volumes one season covers.
#[derive(Debug, Clone)]
pub struct SeasonMapping {
    pub kind: SeasonKind,
    pub label: String,
    pub start_episode: u16,
    pub end_episode: u16,
    pub start_chapter: u16,
    pub end_chapter: u16,
    pub start_volume: u16,
    pub end_volume: u16,
    pub pinned_note: Option<Note>,
}

/// The record of a poster: the cache key that names its artifacts, and the
/// placeholder string once one has been computed.
#[derive(Debug, Clone)]
pub struct CachedImage {
    key: String,
    placeholder: Option<String>,
}

/// What a `CachedImage` stands for.
pub struct CachedImageView {
    pub key: Seq<char>,
    pub placeholder: Option<Seq<char>>,
}

impl View for CachedImage {
    type V = CachedImageView;

    closed spec fn view(&self) -> CachedImageView {
        CachedImageView {
            key: self.key@,
            placeholder: match self.placeholder {
                Some(p) => Some(p@),
                None => None,
            },
        }
    }
}

impl CachedImage {
    /// The record of a poster that has no placeholder yet.
    pub fn new(key: String) -> (image: Self)
        ensures
            image@.key == key@,
            image@.placeholder is None,
    {
        Self { key, placeholder: None }
    }

    /// The record of a poster with its placeholder.
    pub fn with_placeholder(key: String, placeholder: String) -> (image: Self)
        ensures
            image@.key == key@,
            image@.placeholder == Some(placeholder@),
    {
        Self { key, placeholder: Some(placeholder) }
    }

    pub fn key(&self) -> (key: &str)
        ensures
            key@ == self@.key,
    {
        self.key.as_str()
    }

    pub fn placeholder(&self) -> (placeholder: Option<&str>)
        ensures
            placeholder matches Some(p) ==> self@.placeholder == Some(p@),
            placeholder is None ==> self@.placeholder is None,
    {
        match &self.placeholder {
            Some(placeholder) => Some(placeholder.as_str()),
            None => None,
        }
    }
}

#[derive(Debug, Clone)]
pub struct AnimeSeries {
    pub titles: Vec<String>,
    pub poster: CachedImage,
    pub manga: MangaReleaseInfo,
    pub anime: AnimeReleaseInfo,
    pub mapping: Vec<SeasonMapping>,
    pub updated_on: u64,
    pub created_on: u64,
}

/// A series as a client submits it: everything but the poster record and the
/// timestamps, which the service sets.
#[derive(Debug, Clone)]
pub struct AnimeSeriesCandidate {
    pub titles: Vec<String>,
    pub manga: MangaReleaseInfo,
    pub anime: AnimeReleaseInfo,
    pub mapping: Vec<SeasonMapping>,
}

impl AnimeSeriesCandidate {
    /// The series that this candidate becomes at the time `now`, in
    /// milliseconds since the Unix epoch: created and updated at that time.
    pub fn into_anime(self, poster: CachedImage, now: u64) -> (series: AnimeSeries)
        ensures
            series.titles == self.titles,
            series.poster == poster,
            series.manga == self.manga,
            series.anime == self.anime,
            series.mapping == self.mapping,
            series.updated_on == now,
            series.created_on == now,
    {
        AnimeSeries {
            titles: self.titles,
            poster,
            manga: self.manga,
            anime: self.anime,
            mapping: self.mapping,
            updated_on: now,
            created_on: now,
        }
    }
}

/// A change to a series. A field that is `None` is left as it is.
///
/// A client can set the titles, the release data and the mapping. The poster
/// record and the time of the change are set by the service alone.
#[derive(Debug, Default, Clone)]
pub struct AnimeSeriesPatch {
    titles: Option<Vec<String>>,
    poster: Option<CachedImage>,
    manga: Option<MangaReleaseInfo>,
    anime: Option<AnimeReleaseInfo>,
    mapping: Option<Vec<SeasonMapping>>,
    updated_on: u64,
}

impl AnimeSeriesPatch {
    pub closed spec fn titles(&self) -> Option<Vec<String>> {
        self.titles
    }

    pub closed spec fn poster(&self) -> Option<CachedImage> {
        self.poster
    }

    pub closed spec fn manga(&self) -> Option<MangaReleaseInfo> {
        self.manga
    }

    pub closed spec fn anime(&self) -> Option<AnimeReleaseInfo> {
        self.anime
    }

    pub closed spec fn mapping(&self) -> Option<Vec<SeasonMapping>> {
        self.mapping
    }

    pub closed spec fn updated_on(&self) -> u64 {
        self.updated_on
    }

    /// Whether the patch changes nothing.
    pub open spec fn spec_is_empty(&self) -> bool {
        self.titles() is None && self.poster() is None && self.manga() is None
            && self.anime() is None && self.mapping() is None
    }

    /// Whether the patch changes something that the presenter image shows.
    pub open spec fn spec_has_presenter_changes(&self) -> bool {
        self.titles() is Some || self.manga() is Some || self.anime() is Some
    }

    /// A patch as a client can send it: no poster record, no timestamp.
    pub fn new(
        titles: Option<Vec<String>>,
        manga: Option<MangaReleaseInfo>,
        anime: Option<AnimeReleaseInfo>,
        mapping: Option<Vec<SeasonMapping>>,
    ) -> (patch: Self)
        ensures
            patch.titles() == titles,
            patch.poster() is None,
            patch.manga() == manga,
            patch.anime() == anime,
            patch.mapping() == mapping,
            patch.updated_on() == 0,
    {
        Self { titles, poster: None, manga, anime, mapping, updated_on: 0 }
    }

    #[verifier::when_used_as_spec(spec_is_empty)]
    pub fn is_empty(&self) -> (empty: bool)
        ensures
            empty == self.spec_is_empty(),
    {
        self.titles.is_none() && self.poster.is_none() && self.manga.is_none()
            && self.anime.is_none() && self.mapping.is_none()
    }

    #[verifier::when_used_as_spec(spec_has_presenter_changes)]
    pub fn has_presenter_changes(&self) -> (changes: bool)
        ensures
            changes == self.spec_has_presenter_changes(),
    {
        self.titles.is_some() || self.manga.is_some() || self.anime.is_some()
    }

    /// Records a new poster in the patch, in place of any that it held.
    pub fn set_poster(&mut self, poster: CachedImage)
        ensures
            final(self).poster() == Some(poster),
            final(self).titles() == old(self).titles(),
            final(self).manga() == old(self).manga(),
            final(self).anime() == old(self).anime(),
            final(self).mapping() == old(self).mapping(),
            final(self).updated_on() == old(self).updated_on(),
            !final(self).spec_is_empty(),
    {
        self.poster = Some(poster);
    }

    /// Stamps the patch with the time of the change, in milliseconds since the
    /// Unix epoch. Nothing else changes.
    pub fn seal(&mut self, now: u64)
        ensures
            final(self).updated_on() == now,
            final(self).titles() == old(self).titles(),
            final(self).poster() == old(self).poster(),
            final(self).manga() == old(self).manga(),
            final(self).anime() == old(self).anime(),
            final(self).mapping() == old(self).mapping(),
    {
        self.updated_on = now;
    }

    /// The series as it stands once the patch is applied: every field that
    /// the patch holds replaces that of the series, and the time of the
    /// change is that of the patch. The time of creation stays.
    pub fn apply(self, series: AnimeSeries) -> (patched: AnimeSeries)
        ensures
            patched.titles == match self.titles() {
                Some(titles) => titles,
                None => series.titles,
            },
            patched.poster == match self.poster() {
                Some(poster) => poster,
                None => series.poster,
            },
            patched.manga == match self.manga() {
                Some(manga) => manga,
                None => series.manga,
            },
            patched.anime == match self.anime() {
                Some(anime) => anime,
                None => series.anime,
            },
            patched.mapping == match self.mapping() {
                Some(mapping) => mapping,
                None => series.mapping,
            },
            patched.updated_on == self.updated_on(),
            patched.created_on == series.created_on,
    {
        AnimeSeries {
            titles: match self.titles {
                Some(titles) => titles,
                None => series.titles,
            },
            poster: match self.poster {
                Some(poster) => poster,
                None => series.poster,
            },
            manga: match self.manga {
                Some(manga) => manga,
                None => series.manga,
            },
            anime: match self.anime {
                Some(anime) => anime,
                None => series.anime,
            },
            mapping: match self.mapping {
                Some(mapping) => mapping,
                None => series.mapping,
            },
            updated_on: self.updated_on,
            created_on: series.created_on,
        }
    }

    pub fn titles_ref(&self) -> (titles: &Option<Vec<String>>)
        ensures
            *titles == self.titles(),
    {
        &self.titles
    }

    pub fn poster_ref(&self) -> (poster: &Option<CachedImage>)
        ensures
            *poster == self.poster(),
    {
        &self.poster
    }

    pub fn manga_ref(&self) -> (manga: &Option<MangaReleaseInfo>)
        ensures
            *manga == self.manga(),
    {
        &self.manga
    }

    pub fn anime_ref(&self) -> (anime: &Option<AnimeReleaseInfo>)
        ensures
            *anime == self.anime(),
    {
        &self.anime
    }

    pub fn mapping_ref(&self) -> (mapping: &Option<Vec<SeasonMapping>>)
        ensures
            *mapping == self.mapping(),
    {
        &self.mapping
    }

    pub fn sealed_on(&self) -> (time: u64)
        ensures
            time == self.updated_on(),
    {
        self.updated_on
    }
}

/// The name of the field that identifies an entry of the search index.
pub const ANIME_PRIMARY_KEY: &'static str = "id";

/// What the search index holds of a series.
#[derive(Debug, Clone)]
pub struct AnimeSeriesSearchEntry {
    pub id: String,
    pub titles: Vec<String>,
    pub author: String,
    pub poster: CachedImage,
}

impl From<WithOID<AnimeSeries>> for AnimeSeriesSearchEntry {
    /// The index entry of a stored series: its identifier, titles, manga
    /// author and poster record.
    fn from(value: WithOID<AnimeSeries>) -> (entry: Self) {
        let id = value.id;
        let series = value.inner;
        AnimeSeriesSearchEntry {
            id,
            titles: series.titles,
            author: series.manga.author,
            poster: series.poster,
        }
    }
}

impl vstd::std_specs::convert::FromSpecImpl<WithOID<AnimeSeries>> for AnimeSeriesSearchEntry {
    open spec fn obeys_from_spec() -> bool {
        true
    }

    open spec fn from_spec(value: WithOID<AnimeSeries>) -> Self {
        AnimeSeriesSearchEntry {
            id: value.spec_id(),
            titles: value.inner().titles,
            author: value.inner().manga.author,
            poster: value.inner().poster,
        }
    }
}

impl From<WithID<AnimeSeries>> for AnimeSeriesSearchEntry {
    /// The index entry of a series as the service hands it out.
    fn from(value: WithID<AnimeSeries>) -> (entry: Self) {
        let id = value.id;
        let series = value.inner;
        AnimeSeriesSearchEntry {
            id,
            titles: series.titles,
            author: series.manga.author,
            poster: series.poster,
        }
    }
}

impl vstd::std_specs::convert::FromSpecImpl<WithID<AnimeSeries>> for AnimeSeriesSearchEntry {
    open spec fn obeys_from_spec() -> bool {
        true
    }

    open spec fn from_spec(value: WithID<AnimeSeries>) -> Self {
        AnimeSeriesSearchEntry {
            id: value.spec_id(),
            titles: value.inner().titles,
            author: value.inner().manga.author,
            poster: value.inner().poster,
        }
    }
}

/// A change to an index entry. A field that is `None` is left as it is.
#[derive(Debug, Default, Clone)]
pub struct AnimeSeriesSearchEntryPatch {
    pub id: String,
    pub titles: Option<Vec<String>>,
    pub author: Option<String>,
    pub poster: Option<CachedImage>,
}

impl AnimeSeriesSearchEntryPatch {
    /// Whether a patch changes anything that the search index holds: the
    /// titles, the manga data (for its author) or the poster record.
    pub open spec fn touches_index(p: AnimeSeriesPatch) -> bool {
        p.titles() is Some || p.manga() is Some || p.poster() is Some
    }

    /// The change that a patch of the series `id` makes to its index entry, or
    /// `None` where the patch changes nothing that the index holds.
    pub fn from_patch(id: String, p: AnimeSeriesPatch) -> (r: Option<Self>)
        ensures
            r is Some <==> Self::touches_index(p),
            r matches Some(entry) ==> {
                &&& entry.id == id
                &&& entry.titles == p.titles()
                &&& entry.poster == p.poster()
                &&& match p.manga() {
                    Some(manga) => entry.author == Some(manga.author),
                    None => entry.author is None,
                }
            },
    {
        if p.titles.is_none() && p.manga.is_none() && p.poster.is_none() {
            return None;
        }
        let author = match p.manga {
            Some(manga) => Some(manga.author),
            None => None,
        };
        Some(Self { id, titles: p.titles, author, poster: p.poster })
    }
}

/// The titles of the sample series.
pub open spec fn sample_titles(titles: Seq<String>) -> bool {
    titles.len() == 1 && titles[0]@ == "Tokyo Revengers"@
}

/// The poster record of the sample series.
pub open spec fn sample_poster(poster: CachedImage) -> bool {
    &&& poster@.key == "d07f449fdeb9e559e19095db31da14ff"@
    &&& poster@.placeholder == Some("TFOBAk}sIT9r?ZI=u,$zKK#lNYx["@)
}

fn sample_poster_record() -> (poster: CachedImage)
    ensures
        sample_poster(poster),
{
    CachedImage::with_placeholder(
        String::from_str("d07f449fdeb9e559e19095db31da14ff"),
        String::from_str("TFOBAk}sIT9r?ZI=u,$zKK#lNYx["),
    )
}

fn sample_title_list() -> (titles: Vec<String>)
    ensures
        sample_titles(titles@),
{
    let mut titles: Vec<String> = Vec::new();
    titles.push(String::from_str("Tokyo Revengers"));
    titles
}

/// A sample index entry, for documentation and trials of the service.
pub fn get_search_entry() -> (entry: AnimeSeriesSearchEntry)
    ensures
        entry.id@ == "63b44f977ef2f272e15f61ca"@,
        sample_titles(entry.titles@),
        entry.author@ == "Ken Wakui"@,
        sample_poster(entry.poster),
{
    AnimeSeriesSearchEntry {
        id: String::from_str("63b44f977ef2f272e15f61ca"),
        titles: sample_title_list(),
        author: String::from_str("Ken Wakui"),
        poster: sample_poster_record(),
    }
}

/// The one season of the sample series.
pub open spec fn sample_season(season: SeasonMapping) -> bool {
    &&& season.kind == SeasonKind::Season
    &&& season.label@ == "Season 1"@
    &&& season.start_episode == 1
    &&& season.end_episode == 24
    &&& season.start_chapter == 1
    &&& season.end_chapter == 73
    &&& season.start_volume == 1
    &&& season.end_volume == 8
    &&& season.pinned_note is None
}

/// A sample series, created and updated at the time `now`, in milliseconds
/// since the Unix epoch.
pub fn get_anime(now: u64) -> (series: AnimeSeries)
    ensures
        sample_titles(series.titles@),
        sample_poster(series.poster),
        series.manga.author@ == "Ken Wakui"@,
        series.manga.volumes == 30,
        series.manga.chapters == 270,
        series.manga.release_year == 2017,
        series.anime.studios@.len() == 1,
        series.anime.studios@[0]@ == "Liden Films"@,
        series.anime.seasons == 1,
        series.anime.episodes == 24,
        series.anime.release_year == 2021,
        series.mapping@.len() == 1,
        sample_season(series.mapping@[0]),
        series.updated_on == now,
        series.created_on == now,
{
    let mut studios: Vec<String> = Vec::new();
    studios.push(String::from_str("Liden Films"));
    let mut mapping: Vec<SeasonMapping> = Vec::new();
    mapping.push(
        SeasonMapping {
            kind: SeasonKind::Season,
            label: String::from_str("Season 1"),
            start_episode: 1,
            end_episode: 24,
            start_chapter: 1,
            end_chapter: 73,
            start_volume: 1,
            end_volume: 8,
            pinned_note: None,
        },
    );
    AnimeSeries {
        titles: sample_title_list(),
        poster: sample_poster_record(),
        manga: MangaReleaseInfo {
            author: String::from_str("Ken Wakui"),
            volumes: 30,
            chapters: 270,
            release_year: 2017,
        },
        anime: AnimeReleaseInfo {
            studios,
            seasons: 1,
            episodes: 24,
            release_year: 2021,
        },
        mapping,
        updated_on: now,
        created_on: now,
    }
}

} // verus!
