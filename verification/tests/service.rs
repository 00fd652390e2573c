use terra_station_comic_reader::routes::{get_album_photos, get_albums, health};
use terra_station_comic_reader::scraper_service::{
    FetchError, ScraperService, ALBUMS_URL, TIMEOUT_SECONDS, USER_AGENT,
};

fn failure(message: &str) -> Result<String, FetchError> {
    Err(FetchError { message: message.to_string() })
}

fn body(html: &str) -> Result<String, FetchError> {
    Ok(html.to_string())
}

#[test]
fn upstream_addresses_are_fixed() {
    assert_eq!(ALBUMS_URL, "https://www.facebook.com/terrastationvn/photos_albums");
    assert_eq!(
        ScraperService::album_photos_url("12345"),
        "https://www.facebook.com/terrastationvn/photos_albums//12345"
    );
    assert_eq!(
        ScraperService::album_photos_url(""),
        "https://www.facebook.com/terrastationvn/photos_albums//"
    );
    assert_eq!(
        ScraperService::album_photos_url("a/b?c=d e"),
        "https://www.facebook.com/terrastationvn/photos_albums//a/b?c=d e"
    );
}

#[test]
fn client_settings_are_fixed() {
    assert_eq!(USER_AGENT, "Mozilla/5.0 (Windows NT 10.0; Win64; x64) AppleWebKit/537.36");
    assert_eq!(TIMEOUT_SECONDS, 30);
}

#[test]
fn mock_albums_are_the_three_fixed_ones() {
    let albums = ScraperService::get_mock_albums();
    assert_eq!(albums.len(), 3);
    for (i, album) in albums.iter().enumerate() {
        let n = i + 1;
        assert_eq!(album.id, format!("album{}", n));
        assert_eq!(album.name, format!("Terra Station Gallery {}", n));
        assert_eq!(
            album.cover,
            Some(format!("https://via.placeholder.com/400x300?text=Gallery+{}", n))
        );
        assert_eq!(album.photo_count, Some(5));
    }
}

#[test]
fn mock_photos_carry_the_album_identifier() {
    let photos = ScraperService::get_mock_photos("foo");
    assert_eq!(photos.len(), 5);
    for (i, photo) in photos.iter().enumerate() {
        let n = i + 1;
        assert_eq!(photo.id, format!("photo_foo_{}", n));
        assert_eq!(photo.src, format!("https://via.placeholder.com/800x1200?text=Photo+{}", n));
        assert_eq!(photo.caption, Some(format!("Sample photo {} from foo", n)));
        assert_eq!(photo.timestamp, None);
    }
    let photos = ScraperService::get_mock_photos("");
    assert_eq!(photos.len(), 5);
    assert_eq!(photos[0].id, "photo__1");
    assert_eq!(photos[4].caption, Some("Sample photo 5 from ".to_string()));
}

#[test]
fn failed_listing_fetch_is_handed_on() {
    let outcome = ScraperService::fetch_albums(failure("connection refused"));
    match outcome {
        Ok(_) => panic!("a failed fetch must not give albums"),
        Err(error) => assert_eq!(error.message, "connection refused"),
    }
}

#[test]
fn failed_album_fetch_is_handed_on() {
    let outcome = ScraperService::fetch_album_photos("foo", failure("timed out"));
    match outcome {
        Ok(_) => panic!("a failed fetch must not give photos"),
        Err(error) => assert_eq!(error.message, "timed out"),
    }
}

#[test]
fn listing_without_albums_gives_the_mock_albums() {
    let albums = ScraperService::fetch_albums(body("<html><body>nothing</body></html>")).unwrap();
    assert_eq!(albums.len(), 3);
    assert_eq!(albums[0].id, "album1");
    assert_eq!(albums[1].id, "album2");
    assert_eq!(albums[2].id, "album3");
    assert_eq!(albums[0].name, "Terra Station Gallery 1");
    assert_eq!(albums[2].photo_count, Some(5));
}

#[test]
fn album_page_without_photos_gives_the_mock_photos() {
    let photos = ScraperService::fetch_album_photos("foo", body("<p>empty</p>")).unwrap();
    assert_eq!(photos.len(), 5);
    assert_eq!(photos[0].id, "photo_foo_1");
    assert_eq!(photos[1].id, "photo_foo_2");
    assert_eq!(photos[2].id, "photo_foo_3");
    assert_eq!(photos[3].id, "photo_foo_4");
    assert_eq!(photos[4].id, "photo_foo_5");
}

#[test]
fn album_page_with_only_profile_pictures_gives_the_mock_photos() {
    let page = "<img src=\"https://x/fbcdn/profile.jpg\">";
    let photos = ScraperService::fetch_album_photos("bar", body(page)).unwrap();
    assert_eq!(photos.len(), 5);
    assert_eq!(photos[0].id, "photo_bar_1");
    assert_eq!(photos[0].caption, Some("Sample photo 1 from bar".to_string()));
}

#[test]
fn found_albums_are_served_as_they_are() {
    let page = "<div data-album-id=\"real\"><span>Real</span></div>";
    let albums = ScraperService::fetch_albums(body(page)).unwrap();
    assert_eq!(albums.len(), 1);
    assert_eq!(albums[0].id, "real");
    assert_eq!(albums[0].name, "Real");
    assert_eq!(albums[0].photo_count, None);
}

#[test]
fn found_photos_are_served_as_they_are() {
    let page = "<img src=\"https://x/fbcdn/a.jpg\" alt=\"A\">";
    let photos = ScraperService::fetch_album_photos("foo", body(page)).unwrap();
    assert_eq!(photos.len(), 1);
    assert_eq!(photos[0].id, "photo_0");
    assert_eq!(photos[0].src, "https://x/fbcdn/a.jpg");
    assert_eq!(photos[0].caption, Some("A".to_string()));
}

#[test]
fn fallback_replaces_only_empty_lists() {
    let served = ScraperService::albums_or_mock(Vec::new());
    assert_eq!(served.len(), 3);
    let one = ScraperService::get_mock_albums().into_iter().take(1).collect::<Vec<_>>();
    let served = ScraperService::albums_or_mock(one);
    assert_eq!(served.len(), 1);
    assert_eq!(served[0].id, "album1");
    let served = ScraperService::photos_or_mock("z", Vec::new());
    assert_eq!(served.len(), 5);
    assert_eq!(served[4].id, "photo_z_5");
    let two = ScraperService::get_mock_photos("y").into_iter().take(2).collect::<Vec<_>>();
    let served = ScraperService::photos_or_mock("z", two);
    assert_eq!(served.len(), 2);
    assert_eq!(served[1].id, "photo_y_2");
}

#[test]
fn fetching_twice_gives_the_same_lists() {
    let page = "<div data-album-id=\"a\"><span>A</span></div><img src=\"https://x/fbcdn/a.jpg\">";
    let first = ScraperService::fetch_albums(body(page)).unwrap();
    let second = ScraperService::fetch_albums(body(page)).unwrap();
    assert_eq!(first.len(), second.len());
    for i in 0..first.len() {
        assert_eq!(first[i].id, second[i].id);
        assert_eq!(first[i].name, second[i].name);
        assert_eq!(first[i].cover, second[i].cover);
        assert_eq!(first[i].photo_count, second[i].photo_count);
    }
    let first = ScraperService::fetch_album_photos("foo", body("")).unwrap();
    let second = ScraperService::fetch_album_photos("foo", body("")).unwrap();
    assert_eq!(first.len(), second.len());
    for i in 0..first.len() {
        assert_eq!(first[i].id, second[i].id);
        assert_eq!(first[i].src, second[i].src);
        assert_eq!(first[i].caption, second[i].caption);
        assert_eq!(first[i].timestamp, second[i].timestamp);
    }
}

#[test]
fn failed_listing_is_reported_in_the_answer() {
    let response = get_albums(failure("Failed to fetch albums page"));
    assert!(response.albums.is_empty());
    assert_eq!(
        response.error,
        Some(
            "Unable to fetch albums. Facebook page may have changed structure: Failed to fetch albums page"
                .to_string()
        )
    );
}

#[test]
fn failed_album_is_reported_in_the_answer() {
    let response = get_album_photos("foo", failure("Failed to fetch album page"));
    assert!(response.photos.is_empty());
    assert_eq!(
        response.error,
        Some("Unable to fetch photos: Failed to fetch album page".to_string())
    );
}

#[test]
fn answers_to_fetched_pages_carry_no_message() {
    let response = get_albums(body(""));
    assert_eq!(response.albums.len(), 3);
    assert_eq!(response.error, None);
    let response = get_album_photos("foo", body("<img src=\"https://x/fbcdn/a.jpg\">"));
    assert_eq!(response.photos.len(), 1);
    assert_eq!(response.photos[0].id, "photo_0");
    assert_eq!(response.error, None);
}

#[test]
fn health_reports_ok() {
    assert_eq!(health().status, "ok");
}

#[test]
fn section_listing_is_served_as_found() {
    let page = "<section data-album-id=\"x\"><span>Trip</span></section>";
    let albums = ScraperService::fetch_albums(body(page)).unwrap();
    assert_eq!(albums.len(), 1);
    assert_eq!(albums[0].id, "x");
    assert_eq!(albums[0].name, "Trip");
    assert_eq!(albums[0].cover, None);
    assert_eq!(albums[0].photo_count, None);
}

#[test]
fn substituted_albums_are_told_from_found_ones() {
    let mock = ScraperService::fetch_albums(body("<p>none</p>")).unwrap();
    assert!(ScraperService::albums_were_substituted(&mock));
    let live = ScraperService::fetch_albums(body("<div data-album-id=\"a\"></div>")).unwrap();
    assert!(!ScraperService::albums_were_substituted(&live));
    assert!(!ScraperService::albums_were_substituted(&Vec::new()));
}

#[test]
fn substituted_photos_are_told_from_found_ones() {
    let mock = ScraperService::fetch_album_photos("foo", body("<p>none</p>")).unwrap();
    assert!(ScraperService::photos_were_substituted(&mock));
    let mock = ScraperService::fetch_album_photos("", body("")).unwrap();
    assert!(ScraperService::photos_were_substituted(&mock));
    let page = "<img src=\"https://x/fbcdn/a.jpg\"><img src=\"https://x/fbcdn/b.jpg\">";
    let live = ScraperService::fetch_album_photos("foo", body(page)).unwrap();
    assert!(!ScraperService::photos_were_substituted(&live));
    assert!(!ScraperService::photos_were_substituted(&Vec::new()));
}
