//! What the endpoints answer.
//!
//! The handlers proper live with the HTTP server. They issue the upstream
//! request, hand its outcome to the functions of this module, and serialise
//! what comes back. A failed fetch is reported inside the answer, never by
//! the answer's status.

use crate::markup::page_fits;
use crate::models::{
    AlbumsResponse, AlbumsResponseView, HealthResponse, PhotosResponse, PhotosResponseView,
};
use crate::scraper_service::{albums_of_page, photos_of_page, FetchError, ScraperService};
use vstd::prelude::*;

verus! {

/// What the message of a failed album listing starts with.
pub const ALBUMS_ERROR_PREFIX: &'static str =
    "Unable to fetch albums. Facebook page may have changed structure: ";

/// What the message of a failed photo listing starts with.
pub const PHOTOS_ERROR_PREFIX: &'static str = "Unable to fetch photos: ";

/// The status that the health endpoint reports.
pub const HEALTH_STATUS: &'static str = "ok";

/// The answer to a request for all albums. `fetched` is the outcome of the
/// GET request for the listing page.
///
/// A body gives the albums served for it and no message. A failure gives no
/// albums and a message that ends with what the transport reported. The
/// body must be short enough for the parser.
pub fn get_albums(fetched: Result<String, FetchError>) -> (response: AlbumsResponse)
    requires
        fetched matches Ok(body) ==> page_fits(body@),
    ensures
        response.deep_view() == match fetched {
            Ok(body) => AlbumsResponseView { albums: albums_of_page(body@), error: None },
            Err(error) => AlbumsResponseView {
                albums: Seq::empty(),
                error: Some(ALBUMS_ERROR_PREFIX@ + error.message@),
            },
        },
        response.error is Some ==> response.albums.len() == 0,
{
    match ScraperService::fetch_albums(fetched) {
        Ok(albums) => AlbumsResponse { albums, error: None },
        Err(error) => {
            let response = AlbumsResponse {
                albums: Vec::new(),
                error: Some(String::from_str(ALBUMS_ERROR_PREFIX).concat(error.message.as_str())),
            };
            assert(response.albums.deep_view() =~= Seq::empty());
            response
        },
    }
}

/// The answer to a request for the photos of the album `album_id`. `fetched`
/// is the outcome of the GET request for the album's page.
///
/// A body gives the photos served for it and no message. A failure gives no
/// photos and a message that ends with what the transport reported. The
/// body must be short enough for the parser.
pub fn get_album_photos(album_id: &str, fetched: Result<String, FetchError>) -> (response:
    PhotosResponse)
    requires
        fetched matches Ok(body) ==> page_fits(body@),
    ensures
        response.deep_view() == match fetched {
            Ok(body) => PhotosResponseView {
                photos: photos_of_page(album_id@, body@),
                error: None,
            },
            Err(error) => PhotosResponseView {
                photos: Seq::empty(),
                error: Some(PHOTOS_ERROR_PREFIX@ + error.message@),
            },
        },
        response.error is Some ==> response.photos.len() == 0,
{
    match ScraperService::fetch_album_photos(album_id, fetched) {
        Ok(photos) => PhotosResponse { photos, error: None },
        Err(error) => {
            let response = PhotosResponse {
                photos: Vec::new(),
                error: Some(String::from_str(PHOTOS_ERROR_PREFIX).concat(error.message.as_str())),
            };
            assert(response.photos.deep_view() =~= Seq::empty());
            response
        },
    }
}

/// The answer of the health endpoint.
pub fn health() -> (response: HealthResponse)
    ensures
        response.status@ == HEALTH_STATUS@,
{
    HealthResponse { status: String::from_str(HEALTH_STATUS) }
}

} // verus!
