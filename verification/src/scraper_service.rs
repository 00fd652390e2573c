//! The gallery fetch service: where to fetch, and what to serve once the
//! fetch has come back.
//!
//! The service makes no request itself. Its caller issues the GET request
//! and hands the outcome over; what is served is decided here.

use crate::extraction::{
    album_elements, album_records, extract_albums, extract_photos, image_elements,
    lemma_album_records_have_no_photo_count, lemma_photo_records, photo_records, PHOTO_ID_PREFIX,
};
use crate::markup::page_fits;
use crate::models::{Album, AlbumView, Photo, PhotoView};
use crate::text::{decimal, decimal_text, digit_char, lemma_decimal_injective};
use vstd::prelude::*;

verus! {

/// Address of the album listing page.
pub const ALBUMS_URL: &'static str = "https://www.facebook.com/terrastationvn/photos_albums";

/// What the address of an album page starts with; the album identifier
/// follows as it is.
pub const ALBUM_URL_PREFIX: &'static str =
    "https://www.facebook.com/terrastationvn/photos_albums//";

/// User agent that the HTTP client announces.
pub const USER_AGENT: &'static str = "Mozilla/5.0 (Windows NT 10.0; Win64; x64) AppleWebKit/537.36";

/// Seconds after which the HTTP client gives a request up.
pub const TIMEOUT_SECONDS: u64 = 30;

/// Number of placeholder photos served for an album without photos.
pub const MOCK_PHOTO_COUNT: usize = 5;

/// What stands between the album identifier and the number in the identifier
/// of a placeholder photo.
pub const MOCK_ID_SEPARATOR: &'static str = "_";

/// What the address of a placeholder photo starts with.
pub const MOCK_PHOTO_URL_PREFIX: &'static str = "https://via.placeholder.com/800x1200?text=Photo+";

/// What the caption of a placeholder photo starts with.
pub const MOCK_CAPTION_PREFIX: &'static str = "Sample photo ";

/// What stands between the number and the album identifier in the caption of
/// a placeholder photo.
pub const MOCK_CAPTION_INFIX: &'static str = " from ";

/// The transport failed: the request could not be sent, no response arrived
/// in time, or the body could not be read.
#[derive(Debug)]
pub struct FetchError {
    /// What the transport reported.
    pub message: String,
}

/// The three placeholder albums.
pub open spec fn mock_albums() -> Seq<AlbumView> {
    seq![
        AlbumView {
            id: "album1"@,
            name: "Terra Station Gallery 1"@,
            cover: Some("https://via.placeholder.com/400x300?text=Gallery+1"@),
            photo_count: Some(5usize),
        },
        AlbumView {
            id: "album2"@,
            name: "Terra Station Gallery 2"@,
            cover: Some("https://via.placeholder.com/400x300?text=Gallery+2"@),
            photo_count: Some(5usize),
        },
        AlbumView {
            id: "album3"@,
            name: "Terra Station Gallery 3"@,
            cover: Some("https://via.placeholder.com/400x300?text=Gallery+3"@),
            photo_count: Some(5usize),
        },
    ]
}

/// The placeholder photo with the number `number` of the album `album_id`.
pub open spec fn mock_photo(album_id: Seq<char>, number: nat) -> PhotoView {
    PhotoView {
        id: PHOTO_ID_PREFIX@ + album_id + MOCK_ID_SEPARATOR@ + decimal(number),
        src: MOCK_PHOTO_URL_PREFIX@ + decimal(number),
        caption: Some(MOCK_CAPTION_PREFIX@ + decimal(number) + MOCK_CAPTION_INFIX@ + album_id),
        timestamp: None,
    }
}

/// The placeholder photos of the album `album_id`, numbered from one.
pub open spec fn mock_photos(album_id: Seq<char>) -> Seq<PhotoView> {
    Seq::new(MOCK_PHOTO_COUNT as nat, |i: int| mock_photo(album_id, (i + 1) as nat))
}

/// What is served for the albums that extraction found: the placeholders
/// where it found none, otherwise what it found.
pub open spec fn served_albums(extracted: Seq<AlbumView>) -> Seq<AlbumView> {
    if extracted.len() == 0 {
        mock_albums()
    } else {
        extracted
    }
}

/// What is served for the photos that extraction found in the album
/// `album_id`: the placeholders where it found none, otherwise what it found.
pub open spec fn served_photos(album_id: Seq<char>, extracted: Seq<PhotoView>) -> Seq<PhotoView> {
    if extracted.len() == 0 {
        mock_photos(album_id)
    } else {
        extracted
    }
}

/// The albums served for the listing page `html`.
pub open spec fn albums_of_page(html: Seq<char>) -> Seq<AlbumView> {
    served_albums(album_records(album_elements(html)))
}

/// The photos served for the page `html` of the album `album_id`.
pub open spec fn photos_of_page(album_id: Seq<char>, html: Seq<char>) -> Seq<PhotoView> {
    served_photos(album_id, photo_records(image_elements(html)))
}

/// `outcome` is what a fetch of the album listing comes to when the request
/// ended as `fetched`: a failure is handed on as it is; a body gives the
/// albums served for it.
pub open spec fn is_albums_outcome(
    fetched: Result<String, FetchError>,
    outcome: Result<Vec<Album>, FetchError>,
) -> bool {
    match fetched {
        Ok(body) => outcome is Ok && outcome->Ok_0.deep_view() == albums_of_page(body@),
        Err(error) => outcome is Err && outcome->Err_0 == error,
    }
}

/// `outcome` is what a fetch of the photos of the album `album_id` comes to
/// when the request ended as `fetched`: a failure is handed on as it is; a
/// body gives the photos served for it.
pub open spec fn is_photos_outcome(
    album_id: Seq<char>,
    fetched: Result<String, FetchError>,
    outcome: Result<Vec<Photo>, FetchError>,
) -> bool {
    match fetched {
        Ok(body) => outcome is Ok && outcome->Ok_0.deep_view() == photos_of_page(album_id, body@),
        Err(error) => outcome is Err && outcome->Err_0 == error,
    }
}

/// The list is not empty and its first album has a photo count.
pub open spec fn first_album_is_counted(served: Seq<AlbumView>) -> bool {
    served.len() > 0 && served[0].photo_count is Some
}

/// The list is not empty and its first photo does not have the identifier of
/// the first photo that extraction makes.
pub open spec fn first_photo_is_foreign(served: Seq<PhotoView>) -> bool {
    served.len() > 0 && served[0].id != PHOTO_ID_PREFIX@ + decimal(0)
}

/// The gallery fetch service.
pub struct ScraperService;

impl ScraperService {
    /// The address of the page of the album `album_id`. The identifier is
    /// inserted as it is, neither checked nor escaped.
    pub fn album_photos_url(album_id: &str) -> (url: String)
        ensures
            url@ == ALBUM_URL_PREFIX@ + album_id@,
    {
        String::from_str(ALBUM_URL_PREFIX).concat(album_id)
    }

    /// The placeholder albums.
    pub fn get_mock_albums() -> (albums: Vec<Album>)
        ensures
            albums.deep_view() == mock_albums(),
    {
        let mut albums: Vec<Album> = Vec::new();
        albums.push(
            Album {
                id: String::from_str("album1"),
                name: String::from_str("Terra Station Gallery 1"),
                cover: Some(String::from_str("https://via.placeholder.com/400x300?text=Gallery+1")),
                photo_count: Some(5),
            },
        );
        albums.push(
            Album {
                id: String::from_str("album2"),
                name: String::from_str("Terra Station Gallery 2"),
                cover: Some(String::from_str("https://via.placeholder.com/400x300?text=Gallery+2")),
                photo_count: Some(5),
            },
        );
        albums.push(
            Album {
                id: String::from_str("album3"),
                name: String::from_str("Terra Station Gallery 3"),
                cover: Some(String::from_str("https://via.placeholder.com/400x300?text=Gallery+3")),
                photo_count: Some(5),
            },
        );
        assert(albums.deep_view() =~= mock_albums());
        albums
    }

    /// The placeholder photos of the album `album_id`.
    pub fn get_mock_photos(album_id: &str) -> (photos: Vec<Photo>)
        ensures
            photos.deep_view() == mock_photos(album_id@),
    {
        let mut photos: Vec<Photo> = Vec::new();
        let mut number: usize = 1;
        while number <= MOCK_PHOTO_COUNT
            invariant
                1 <= number <= MOCK_PHOTO_COUNT + 1,
                photos.len() == number - 1,
                forall|k: int|
                    0 <= k < photos.len() ==> photos[k].deep_view() == mock_photo(
                        album_id@,
                        (k + 1) as nat,
                    ),
            decreases MOCK_PHOTO_COUNT + 1 - number,
        {
            let digits = decimal_text(number);
            let id = String::from_str(PHOTO_ID_PREFIX).concat(album_id).concat(
                MOCK_ID_SEPARATOR,
            ).concat(digits.as_str());
            let src = String::from_str(MOCK_PHOTO_URL_PREFIX).concat(digits.as_str());
            let caption = String::from_str(MOCK_CAPTION_PREFIX).concat(digits.as_str()).concat(
                MOCK_CAPTION_INFIX,
            ).concat(album_id);
            photos.push(Photo { id, src, caption: Some(caption), timestamp: None });
            number += 1;
        }
        assert(photos.deep_view() =~= mock_photos(album_id@));
        photos
    }

    /// Applies the fallback to extracted albums: an empty list is replaced by
    /// the placeholders, any other list is served as it is.
    pub fn albums_or_mock(extracted: Vec<Album>) -> (served: Vec<Album>)
        ensures
            served.deep_view() == served_albums(extracted.deep_view()),
    {
        if extracted.len() == 0 {
            Self::get_mock_albums()
        } else {
            extracted
        }
    }

    /// Applies the fallback to the photos extracted for the album
    /// `album_id`: an empty list is replaced by the album's placeholders, any
    /// other list is served as it is.
    pub fn photos_or_mock(album_id: &str, extracted: Vec<Photo>) -> (served: Vec<Photo>)
        ensures
            served.deep_view() == served_photos(album_id@, extracted.deep_view()),
    {
        if extracted.len() == 0 {
            Self::get_mock_photos(album_id)
        } else {
            extracted
        }
    }

    /// Whether `served`, a list of albums that a fetch gave, holds the
    /// placeholders: they have a photo count, which extraction never gives.
    pub fn albums_were_substituted(served: &Vec<Album>) -> (substituted: bool)
        ensures
            substituted == first_album_is_counted(served.deep_view()),
    {
        served.len() > 0 && served[0].photo_count.is_some()
    }

    /// Whether `served`, a list of photos that a fetch gave, holds the
    /// placeholders: their first identifier is not that of a first
    /// extracted photo.
    pub fn photos_were_substituted(served: &Vec<Photo>) -> (substituted: bool)
        ensures
            substituted == first_photo_is_foreign(served.deep_view()),
    {
        if served.len() == 0 {
            return false;
        }
        let first = String::from_str(PHOTO_ID_PREFIX).concat(decimal_text(0).as_str());
        !(served[0].id == first)
    }

    /// Completes a fetch of the album listing. `fetched` is the outcome of
    /// the GET request to [`ALBUMS_URL`]: the body of the response, whatever
    /// its status, or the transport's failure.
    ///
    /// A failure is handed on and never covered by placeholders. A body
    /// always gives albums: those extracted from it or, where there are
    /// none, the placeholders. The body must be short enough for the parser.
    pub fn fetch_albums(fetched: Result<String, FetchError>) -> (outcome: Result<
        Vec<Album>,
        FetchError,
    >)
        requires
            fetched matches Ok(body) ==> page_fits(body@),
        ensures
            is_albums_outcome(fetched, outcome),
    {
        match fetched {
            Ok(body) => Ok(Self::albums_or_mock(extract_albums(body.as_str()))),
            Err(error) => Err(error),
        }
    }

    /// Completes a fetch of the photos of the album `album_id`. `fetched` is
    /// the outcome of the GET request to the address that
    /// [`ScraperService::album_photos_url`] gives for `album_id`: the body of
    /// the response, whatever its status, or the transport's failure.
    ///
    /// A failure is handed on and never covered by placeholders. A body
    /// always gives photos: those extracted from it or, where there are
    /// none, the album's placeholders. The body must be short enough for the
    /// parser.
    pub fn fetch_album_photos(album_id: &str, fetched: Result<String, FetchError>) -> (outcome:
        Result<Vec<Photo>, FetchError>)
        requires
            fetched matches Ok(body) ==> page_fits(body@),
        ensures
            is_photos_outcome(album_id@, fetched, outcome),
    {
        match fetched {
            Ok(body) => Ok(Self::photos_or_mock(album_id, extract_photos(body.as_str()))),
            Err(error) => Err(error),
        }
    }
}

/// The placeholder albums are three, with the identifiers `album1`, `album2`
/// and `album3` in this order, and five photos each.
pub proof fn lemma_mock_albums()
    ensures
        mock_albums().len() == 3,
        mock_albums()[0].id == "album1"@,
        mock_albums()[1].id == "album2"@,
        mock_albums()[2].id == "album3"@,
        forall|k: int|
            0 <= k < 3 ==> (#[trigger] mock_albums()[k]).photo_count == Some(MOCK_PHOTO_COUNT),
{
}

/// The placeholder photos of an album are five; the `k`-th, counted from
/// zero, has the identifier made of `photo_`, the album identifier, `_` and
/// the digit of `k + 1`. No two share an identifier, and none has a
/// timestamp.
pub proof fn lemma_mock_photos(album_id: Seq<char>)
    ensures
        mock_photos(album_id).len() == 5,
        forall|k: int|
            0 <= k < 5 ==> {
                let photo = #[trigger] mock_photos(album_id)[k];
                &&& photo.id == "photo_"@ + album_id + "_"@ + seq![digit_char((k + 1) as nat)]
                &&& photo.id.len() > 0
                &&& photo.src.len() > 0
                &&& photo.timestamp is None
            },
        forall|j: int, k: int|
            0 <= j < k < 5 ==> (#[trigger] mock_photos(album_id)[j]).id != (
            #[trigger] mock_photos(album_id)[k]).id,
{
    reveal_strlit("photo_");
    reveal_strlit("https://via.placeholder.com/800x1200?text=Photo+");
    assert forall|j: int, k: int| 0 <= j < k < 5 implies (#[trigger] mock_photos(album_id)[j]).id
        != (#[trigger] mock_photos(album_id)[k]).id by {
        let a = mock_photos(album_id)[j].id;
        let b = mock_photos(album_id)[k].id;
        let stem = PHOTO_ID_PREFIX@ + album_id + MOCK_ID_SEPARATOR@;
        if a == b {
            assert(a.subrange(stem.len() as int, a.len() as int) =~= decimal((j + 1) as nat));
            assert(b.subrange(stem.len() as int, b.len() as int) =~= decimal((k + 1) as nat));
            lemma_decimal_injective((j + 1) as nat, (k + 1) as nat);
        }
    }
}

/// A listing page on which extraction finds no album is answered with
/// exactly the placeholder albums; any other page with exactly what
/// extraction found.
pub proof fn lemma_albums_fallback(html: Seq<char>)
    ensures
        album_records(album_elements(html)).len() == 0 ==> albums_of_page(html) == mock_albums(),
        album_records(album_elements(html)).len() > 0 ==> albums_of_page(html) == album_records(
            album_elements(html),
        ),
        albums_of_page(html).len() > 0,
{
}

/// An album page on which extraction finds no photo is answered with exactly
/// the placeholder photos of that album; any other page with exactly what
/// extraction found.
pub proof fn lemma_photos_fallback(album_id: Seq<char>, html: Seq<char>)
    ensures
        photo_records(image_elements(html)).len() == 0 ==> photos_of_page(album_id, html)
            == mock_photos(album_id),
        photo_records(image_elements(html)).len() > 0 ==> photos_of_page(album_id, html)
            == photo_records(image_elements(html)),
        photos_of_page(album_id, html).len() > 0,
{
}

/// Within the photos served for an album page no two share an identifier,
/// and neither identifier nor address of any is empty.
pub proof fn lemma_served_photos_are_well_formed(album_id: Seq<char>, html: Seq<char>)
    ensures
        forall|k: int|
            0 <= k < photos_of_page(album_id, html).len() ==> {
                let photo = #[trigger] photos_of_page(album_id, html)[k];
                photo.id.len() > 0 && photo.src.len() > 0
            },
        forall|j: int, k: int|
            0 <= j < k < photos_of_page(album_id, html).len() ==> (#[trigger] photos_of_page(
                album_id,
                html,
            )[j]).id != (#[trigger] photos_of_page(album_id, html)[k]).id,
{
    lemma_photo_records(image_elements(html));
    lemma_mock_photos(album_id);
}

/// A failed request never gives albums: the outcome is the failure itself.
pub proof fn lemma_failed_albums_fetch_fails(
    fetched: Result<String, FetchError>,
    outcome: Result<Vec<Album>, FetchError>,
)
    requires
        fetched is Err,
        is_albums_outcome(fetched, outcome),
    ensures
        outcome is Err,
        outcome->Err_0 == fetched->Err_0,
{
}

/// A failed request never gives photos: the outcome is the failure itself.
pub proof fn lemma_failed_photos_fetch_fails(
    album_id: Seq<char>,
    fetched: Result<String, FetchError>,
    outcome: Result<Vec<Photo>, FetchError>,
)
    requires
        fetched is Err,
        is_photos_outcome(album_id, fetched, outcome),
    ensures
        outcome is Err,
        outcome->Err_0 == fetched->Err_0,
{
}

/// Two fetches of the album listing that bring the same body give the same
/// albums.
pub proof fn lemma_albums_fetch_is_repeatable(
    first_fetched: Result<String, FetchError>,
    first: Result<Vec<Album>, FetchError>,
    second_fetched: Result<String, FetchError>,
    second: Result<Vec<Album>, FetchError>,
)
    requires
        first_fetched is Ok,
        second_fetched is Ok,
        first_fetched->Ok_0@ == second_fetched->Ok_0@,
        is_albums_outcome(first_fetched, first),
        is_albums_outcome(second_fetched, second),
    ensures
        first is Ok,
        second is Ok,
        first->Ok_0.deep_view() == second->Ok_0.deep_view(),
{
}

/// Two fetches of the photos of one album that bring the same body give the
/// same photos.
pub proof fn lemma_photos_fetch_is_repeatable(
    album_id: Seq<char>,
    first_fetched: Result<String, FetchError>,
    first: Result<Vec<Photo>, FetchError>,
    second_fetched: Result<String, FetchError>,
    second: Result<Vec<Photo>, FetchError>,
)
    requires
        first_fetched is Ok,
        second_fetched is Ok,
        first_fetched->Ok_0@ == second_fetched->Ok_0@,
        is_photos_outcome(album_id, first_fetched, first),
        is_photos_outcome(album_id, second_fetched, second),
    ensures
        first is Ok,
        second is Ok,
        first->Ok_0.deep_view() == second->Ok_0.deep_view(),
{
}

/// Of the albums served for a page the first has a photo count exactly when
/// extraction found no album and the placeholders were served in its place.
pub proof fn lemma_albums_substitution(html: Seq<char>)
    ensures
        first_album_is_counted(albums_of_page(html)) <==> album_records(
            album_elements(html),
        ).len() == 0,
{
    lemma_album_records_have_no_photo_count(album_elements(html));
}

/// Of the photos served for an album page the first has a foreign identifier
/// exactly when extraction found no photo and the placeholders were served
/// in its place.
pub proof fn lemma_photos_substitution(album_id: Seq<char>, html: Seq<char>)
    ensures
        first_photo_is_foreign(photos_of_page(album_id, html)) <==> photo_records(
            image_elements(html),
        ).len() == 0,
{
    lemma_photo_records(image_elements(html));
    reveal_strlit("photo_");
    reveal_strlit("_");
    if photo_records(image_elements(html)).len() == 0 {
        let mock = mock_photos(album_id)[0].id;
        let live = PHOTO_ID_PREFIX@ + decimal(0);
        assert(decimal(1).len() == 1);
        assert(decimal(0).len() == 1);
        assert(mock.len() == PHOTO_ID_PREFIX@.len() + album_id.len() + 2);
        assert(live.len() == PHOTO_ID_PREFIX@.len() + 1);
    }
}

} // verus!
