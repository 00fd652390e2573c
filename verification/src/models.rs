//! The records handed to callers, and their mathematical views.

use vstd::prelude::*;

verus! {

/// Mathematical value of a [`Photo`].
pub struct PhotoView {
    pub id: Seq<char>,
    pub src: Seq<char>,
    pub caption: Option<Seq<char>>,
    pub timestamp: Option<Seq<char>>,
}

/// One image of an album.
#[derive(Debug, Clone)]
pub struct Photo {
    pub id: String,
    pub src: String,
    pub caption: Option<String>,
    pub timestamp: Option<String>,
}

impl DeepView for Photo {
    type V = PhotoView;

    open spec fn deep_view(&self) -> PhotoView {
        PhotoView {
            id: self.id@,
            src: self.src@,
            caption: self.caption.deep_view(),
            timestamp: self.timestamp.deep_view(),
        }
    }
}

impl View for Photo {
    type V = PhotoView;

    open spec fn view(&self) -> PhotoView {
        self.deep_view()
    }
}

/// Mathematical value of an [`Album`].
pub struct AlbumView {
    pub id: Seq<char>,
    pub name: Seq<char>,
    pub cover: Option<Seq<char>>,
    pub photo_count: Option<usize>,
}

/// A named collection of photos.
#[derive(Debug, Clone)]
pub struct Album {
    pub id: String,
    pub name: String,
    pub cover: Option<String>,
    pub photo_count: Option<usize>,
}

impl DeepView for Album {
    type V = AlbumView;

    open spec fn deep_view(&self) -> AlbumView {
        AlbumView {
            id: self.id@,
            name: self.name@,
            cover: self.cover.deep_view(),
            photo_count: self.photo_count,
        }
    }
}

impl View for Album {
    type V = AlbumView;

    open spec fn view(&self) -> AlbumView {
        self.deep_view()
    }
}

/// Mathematical value of an [`AlbumsResponse`].
pub struct AlbumsResponseView {
    pub albums: Seq<AlbumView>,
    pub error: Option<Seq<char>>,
}

/// What the album listing endpoint answers: the albums, and a message where
/// the listing could not be fetched.
#[derive(Debug)]
pub struct AlbumsResponse {
    pub albums: Vec<Album>,
    pub error: Option<String>,
}

impl DeepView for AlbumsResponse {
    type V = AlbumsResponseView;

    open spec fn deep_view(&self) -> AlbumsResponseView {
        AlbumsResponseView { albums: self.albums.deep_view(), error: self.error.deep_view() }
    }
}

impl View for AlbumsResponse {
    type V = AlbumsResponseView;

    open spec fn view(&self) -> AlbumsResponseView {
        self.deep_view()
    }
}

/// Mathematical value of a [`PhotosResponse`].
pub struct PhotosResponseView {
    pub photos: Seq<PhotoView>,
    pub error: Option<Seq<char>>,
}

/// What the album photos endpoint answers: the photos, and a message where
/// the album could not be fetched.
#[derive(Debug)]
pub struct PhotosResponse {
    pub photos: Vec<Photo>,
    pub error: Option<String>,
}

impl DeepView for PhotosResponse {
    type V = PhotosResponseView;

    open spec fn deep_view(&self) -> PhotosResponseView {
        PhotosResponseView { photos: self.photos.deep_view(), error: self.error.deep_view() }
    }
}

impl View for PhotosResponse {
    type V = PhotosResponseView;

    open spec fn view(&self) -> PhotosResponseView {
        self.deep_view()
    }
}

/// What the health endpoint answers.
#[derive(Debug)]
pub struct HealthResponse {
    pub status: String,
}

} // verus!
