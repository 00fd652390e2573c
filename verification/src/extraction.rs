//! The extraction engine: from the HTML of a page to album and photo
//! records.
//!
//! Extraction runs in two steps. The first reads, with the selector engine,
//! what the rules need to know of each candidate element, as plain text. The
//! second applies the rules to those readings and needs neither the document
//! nor the engine.

use crate::markup::{
    attribute, attribute_value, descendant_text, first_in, matches_in, page_fits, parse_document,
    parsed_document, select_first_in, select_in_document, text_content,
};
use crate::models::{Album, AlbumView, Photo, PhotoView};
use crate::text::{
    contains, copy_optional_text, decimal, decimal_text, is_substring, lemma_decimal_injective,
    lemma_substring_len,
};
use scraper::ElementRef;
use vstd::prelude::*;

verus! {

/// Selector of the elements that stand for an album: every element that
/// carries the identifier attribute, whatever its tag.
pub const ALBUM_SELECTOR: &'static str = "[data-album-id]";

/// Attribute that carries an album's identifier.
pub const ALBUM_ID_ATTRIBUTE: &'static str = "data-album-id";

/// Selector of the element that labels an album.
pub const LABEL_SELECTOR: &'static str = "span";

/// Selector of the element that shows an album's cover.
pub const COVER_SELECTOR: &'static str = "img";

/// Selector of the images served by the content-delivery network.
pub const PHOTO_SELECTOR: &'static str = "img[src*='fbcdn']";

/// Attribute that carries an image's address.
pub const SOURCE_ATTRIBUTE: &'static str = "src";

/// Attribute that carries an image's alternative text.
pub const CAPTION_ATTRIBUTE: &'static str = "alt";

/// Marker of the content-delivery network in an image's address.
pub const CDN_MARKER: &'static str = "fbcdn";

/// Marker of avatar and profile thumbnails in an image's address.
pub const PROFILE_MARKER: &'static str = "profile";

/// Name given to an album whose element holds no label.
pub const UNTITLED_ALBUM: &'static str = "Untitled Album";

/// What every photo identifier starts with.
pub const PHOTO_ID_PREFIX: &'static str = "photo_";

/// Mathematical value of an [`AlbumElement`].
pub struct AlbumElementView {
    pub album_id: Option<Seq<char>>,
    pub label: Option<Seq<char>>,
    pub cover: Option<Seq<char>>,
}

/// What album extraction reads of one element that the album selector
/// matched.
#[derive(Debug, Clone)]
pub struct AlbumElement {
    /// Value of the identifier attribute, if the element has one.
    pub album_id: Option<String>,
    /// Text of the first label element below it, if there is one.
    pub label: Option<String>,
    /// Address held by the first cover element below it, if there is such an
    /// element and it has an address.
    pub cover: Option<String>,
}

impl DeepView for AlbumElement {
    type V = AlbumElementView;

    open spec fn deep_view(&self) -> AlbumElementView {
        AlbumElementView {
            album_id: self.album_id.deep_view(),
            label: self.label.deep_view(),
            cover: self.cover.deep_view(),
        }
    }
}

impl View for AlbumElement {
    type V = AlbumElementView;

    open spec fn view(&self) -> AlbumElementView {
        self.deep_view()
    }
}

/// Mathematical value of an [`ImageElement`].
pub struct ImageElementView {
    pub src: Option<Seq<char>>,
    pub alt: Option<Seq<char>>,
}

/// What photo extraction reads of one element that the photo selector
/// matched.
#[derive(Debug, Clone)]
pub struct ImageElement {
    /// Value of the address attribute, if the element has one.
    pub src: Option<String>,
    /// Value of the alternative-text attribute, if the element has one.
    pub alt: Option<String>,
}

impl DeepView for ImageElement {
    type V = ImageElementView;

    open spec fn deep_view(&self) -> ImageElementView {
        ImageElementView { src: self.src.deep_view(), alt: self.alt.deep_view() }
    }
}

impl View for ImageElement {
    type V = ImageElementView;

    open spec fn view(&self) -> ImageElementView {
        self.deep_view()
    }
}

/// The album that an element stands for: none without an identifier;
/// otherwise the identifier as it is, the label or the placeholder name, the
/// cover if there is one, and no photo count.
pub open spec fn album_record(element: AlbumElementView) -> Option<AlbumView> {
    match element.album_id {
        Some(id) => Some(
            AlbumView {
                id,
                name: match element.label {
                    Some(label) => label,
                    None => UNTITLED_ALBUM@,
                },
                cover: element.cover,
                photo_count: None,
            },
        ),
        None => None,
    }
}

/// The albums of a run of elements: one for each element that carries an
/// identifier, in the order of the elements, with nothing merged or dropped.
pub open spec fn album_records(elements: Seq<AlbumElementView>) -> Seq<AlbumView> {
    elements.filter_map(|element: AlbumElementView| album_record(element))
}

/// An address of gallery content: it carries the marker of the
/// content-delivery network and not that of a profile picture.
pub open spec fn is_gallery_source(src: Seq<char>) -> bool {
    is_substring(CDN_MARKER@, src) && !is_substring(PROFILE_MARKER@, src)
}

/// An image that photo extraction keeps.
pub open spec fn is_gallery_image(image: ImageElementView) -> bool {
    image.src matches Some(src) && is_gallery_source(src)
}

/// The photo made of the kept image `image`, the `index`-th that is kept.
pub open spec fn photo_record(index: nat, image: ImageElementView) -> PhotoView {
    PhotoView {
        id: PHOTO_ID_PREFIX@ + decimal(index),
        src: image.src.unwrap(),
        caption: image.alt,
        timestamp: None,
    }
}

/// The images of a run that photo extraction keeps, in their order.
pub open spec fn gallery_images(images: Seq<ImageElementView>) -> Seq<ImageElementView> {
    images.filter(|image: ImageElementView| is_gallery_image(image))
}

/// The photos of a run of images: one for each kept image, in the order of
/// the images, numbered from zero without gaps.
pub open spec fn photo_records(images: Seq<ImageElementView>) -> Seq<PhotoView> {
    let kept = gallery_images(images);
    Seq::new(kept.len(), |k: int| photo_record(k as nat, kept[k]))
}

/// No element of the run carries an identifier.
pub open spec fn none_identified(elements: Seq<AlbumElementView>) -> bool {
    forall|i: int| 0 <= i < elements.len() ==> (#[trigger] elements[i]).album_id is None
}

/// Every element of the run carries an identifier.
pub open spec fn all_identified(elements: Seq<AlbumElementView>) -> bool {
    forall|i: int| 0 <= i < elements.len() ==> (#[trigger] elements[i]).album_id is Some
}

/// Every image of the run is one that photo extraction keeps.
pub open spec fn all_gallery_images(images: Seq<ImageElementView>) -> bool {
    forall|i: int| 0 <= i < images.len() ==> is_gallery_image(#[trigger] images[i])
}

/// What album extraction reads of `element`.
pub open spec fn album_element_of(element: ElementRef<'_>) -> AlbumElementView {
    AlbumElementView {
        album_id: attribute_value(element, ALBUM_ID_ATTRIBUTE@),
        label: match first_in(element, LABEL_SELECTOR@) {
            Some(label) => Some(descendant_text(label)),
            None => None,
        },
        cover: match first_in(element, COVER_SELECTOR@) {
            Some(cover) => attribute_value(cover, SOURCE_ATTRIBUTE@),
            None => None,
        },
    }
}

/// What photo extraction reads of `element`.
pub open spec fn image_element_of(element: ElementRef<'_>) -> ImageElementView {
    ImageElementView {
        src: attribute_value(element, SOURCE_ATTRIBUTE@),
        alt: attribute_value(element, CAPTION_ATTRIBUTE@),
    }
}

/// The readings of all elements of the page `html` that the album selector
/// matches, in the order in which the selector engine yields them.
pub open spec fn album_elements(html: Seq<char>) -> Seq<AlbumElementView> {
    let found = matches_in(parsed_document(html), ALBUM_SELECTOR@);
    Seq::new(found.len(), |i: int| album_element_of(found[i]))
}

/// The readings of all elements of the page `html` that the photo selector
/// matches, in the order in which the selector engine yields them.
pub open spec fn image_elements(html: Seq<char>) -> Seq<ImageElementView> {
    let found = matches_in(parsed_document(html), PHOTO_SELECTOR@);
    Seq::new(found.len(), |i: int| image_element_of(found[i]))
}

/// Reads from `element` what album extraction needs.
fn read_album_element(element: ElementRef<'_>) -> (reading: AlbumElement)
    ensures
        reading.deep_view() == album_element_of(element),
{
    let album_id = attribute(element, ALBUM_ID_ATTRIBUTE);
    let label = match select_first_in(element, LABEL_SELECTOR) {
        Some(label) => Some(text_content(label)),
        None => None,
    };
    let cover = match select_first_in(element, COVER_SELECTOR) {
        Some(cover) => attribute(cover, SOURCE_ATTRIBUTE),
        None => None,
    };
    AlbumElement { album_id, label, cover }
}

/// Reads from `element` what photo extraction needs.
fn read_image_element(element: ElementRef<'_>) -> (reading: ImageElement)
    ensures
        reading.deep_view() == image_element_of(element),
{
    let src = attribute(element, SOURCE_ATTRIBUTE);
    let alt = attribute(element, CAPTION_ATTRIBUTE);
    ImageElement { src, alt }
}

/// Parses the page and reads every element that the album selector matches.
/// Malformed markup is no error: the parser recovers as it can, and what it
/// does not find is not read. The page must be short enough for the parser.
pub fn read_album_elements(html: &str) -> (readings: Vec<AlbumElement>)
    requires
        page_fits(html@),
    ensures
        readings.deep_view() == album_elements(html@),
{
    let doc = parse_document(html);
    let found = select_in_document(&doc, ALBUM_SELECTOR);
    let mut readings: Vec<AlbumElement> = Vec::new();
    let mut i: usize = 0;
    while i < found.len()
        invariant
            i <= found.len(),
            readings.len() == i,
            forall|k: int| 0 <= k < i ==> readings[k].deep_view() == album_element_of(found[k]),
        decreases found.len() - i,
    {
        readings.push(read_album_element(found[i]));
        i += 1;
    }
    assert(readings.deep_view() =~= album_elements(html@));
    readings
}

/// Parses the page and reads every element that the photo selector matches.
/// Malformed markup is no error: the parser recovers as it can, and what it
/// does not find is not read. The page must be short enough for the parser.
pub fn read_image_elements(html: &str) -> (readings: Vec<ImageElement>)
    requires
        page_fits(html@),
    ensures
        readings.deep_view() == image_elements(html@),
{
    let doc = parse_document(html);
    let found = select_in_document(&doc, PHOTO_SELECTOR);
    let mut readings: Vec<ImageElement> = Vec::new();
    let mut i: usize = 0;
    while i < found.len()
        invariant
            i <= found.len(),
            readings.len() == i,
            forall|k: int| 0 <= k < i ==> readings[k].deep_view() == image_element_of(found[k]),
        decreases found.len() - i,
    {
        readings.push(read_image_element(found[i]));
        i += 1;
    }
    assert(readings.deep_view() =~= image_elements(html@));
    readings
}

/// The album that `element` stands for, if it carries an identifier.
pub fn album_from_element(element: &AlbumElement) -> (album: Option<Album>)
    ensures
        album.deep_view() == album_record(element.deep_view()),
        album is Some <==> element.album_id is Some,
        album is Some && element.label is None ==> album->0.name@ == UNTITLED_ALBUM@,
{
    match &element.album_id {
        Some(id) => {
            let name = match &element.label {
                Some(label) => label.clone(),
                None => String::from_str(UNTITLED_ALBUM),
            };
            Some(
                Album {
                    id: id.clone(),
                    name,
                    cover: copy_optional_text(&element.cover),
                    photo_count: None,
                },
            )
        },
        None => None,
    }
}

/// The albums of `elements`: one record for each element that carries an
/// identifier, in the order of the elements. Elements without an identifier
/// are skipped; equal identifiers give separate records.
pub fn albums_from_elements(elements: &Vec<AlbumElement>) -> (albums: Vec<Album>)
    ensures
        albums.deep_view() == album_records(elements.deep_view()),
        albums.len() <= elements.len(),
        none_identified(elements.deep_view()) ==> albums.len() == 0,
        all_identified(elements.deep_view()) ==> albums.len() == elements.len(),
        all_identified(elements.deep_view()) ==> forall|i: int|
            0 <= i < elements.len() ==> (#[trigger] albums.deep_view()[i]).id
                == elements.deep_view()[i].album_id->0,
{
    let mut albums: Vec<Album> = Vec::new();
    let mut i: usize = 0;
    while i < elements.len()
        invariant
            i <= elements.len(),
            albums.deep_view() == album_records(elements.deep_view().take(i as int)),
        decreases elements.len() - i,
    {
        let ghost before = albums.deep_view();
        proof {
            elements.deep_view().lemma_filter_map_take_succ(
                |element: AlbumElementView| album_record(element),
                i as int,
            );
        }
        match album_from_element(&elements[i]) {
            Some(album) => {
                albums.push(album);
                assert(albums.deep_view() =~= before + seq![album.deep_view()]);
            },
            None => {},
        }
        i += 1;
    }
    assert(elements.deep_view().take(elements.len() as int) =~= elements.deep_view());
    proof {
        lemma_album_records_len(elements.deep_view());
        if none_identified(elements.deep_view()) {
            lemma_no_identifier_no_album(elements.deep_view());
        }
        if all_identified(elements.deep_view()) {
            lemma_identified_elements_give_one_album_each(elements.deep_view());
        }
    }
    albums
}

/// The albums of the page `html`: those of the elements that the album
/// selector matches on it. A page on which no matched element carries an
/// identifier gives an empty list, never an error; a page on which each of
/// them carries one gives one album for each, in their order.
pub fn extract_albums(html: &str) -> (albums: Vec<Album>)
    requires
        page_fits(html@),
    ensures
        albums.deep_view() == album_records(album_elements(html@)),
        albums.len() <= album_elements(html@).len(),
        none_identified(album_elements(html@)) ==> albums.len() == 0,
        all_identified(album_elements(html@)) ==> albums.len() == album_elements(html@).len(),
        all_identified(album_elements(html@)) ==> forall|i: int|
            0 <= i < albums.len() ==> (#[trigger] albums.deep_view()[i]).id == album_elements(
                html@,
            )[i].album_id->0,
{
    let readings = read_album_elements(html);
    albums_from_elements(&readings)
}

/// The photo made of `image`, if photo extraction keeps it; `index` is the
/// number of images kept before it.
pub fn photo_from_image(index: usize, image: &ImageElement) -> (photo: Option<Photo>)
    ensures
        photo.deep_view() == if is_gallery_image(image.deep_view()) {
            Some(photo_record(index as nat, image.deep_view()))
        } else {
            None
        },
        image.src matches Some(src) && is_substring(PROFILE_MARKER@, src@) ==> photo is None,
{
    match &image.src {
        Some(src) => {
            if contains(src.as_str(), CDN_MARKER) && !contains(src.as_str(), PROFILE_MARKER) {
                let number = decimal_text(index);
                let id = String::from_str(PHOTO_ID_PREFIX).concat(number.as_str());
                Some(
                    Photo {
                        id,
                        src: src.clone(),
                        caption: copy_optional_text(&image.alt),
                        timestamp: None,
                    },
                )
            } else {
                None
            }
        },
        None => None,
    }
}

/// Keeping or dropping the last image of a run leaves the choice among the
/// earlier ones as it was.
pub proof fn lemma_gallery_images_push(images: Seq<ImageElementView>, image: ImageElementView)
    ensures
        gallery_images(images.push(image)) == if is_gallery_image(image) {
            gallery_images(images).push(image)
        } else {
            gallery_images(images)
        },
        gallery_images(images).len() <= images.len(),
{
    let keep = |image: ImageElementView| is_gallery_image(image);
    images.lemma_filter_push(image, keep);
    images.lemma_filter_len(keep);
}

/// The photos of `images`: one record for each image whose address carries
/// the marker of the content-delivery network and not that of a profile
/// picture, in the order of the images. The kept images are numbered from
/// zero without gaps, and the number makes the identifier.
pub fn photos_from_images(images: &Vec<ImageElement>) -> (photos: Vec<Photo>)
    ensures
        photos.deep_view() == photo_records(images.deep_view()),
        photos.len() <= images.len(),
        all_gallery_images(images.deep_view()) ==> photos.len() == images.len(),
        forall|k: int|
            0 <= k < photos.len() ==> {
                let photo = #[trigger] photos.deep_view()[k];
                &&& photo.id == PHOTO_ID_PREFIX@ + decimal(k as nat)
                &&& is_gallery_source(photo.src)
                &&& photo.src.len() > 0
            },
{
    let mut photos: Vec<Photo> = Vec::new();
    let mut i: usize = 0;
    while i < images.len()
        invariant
            i <= images.len(),
            photos.len() <= i,
            photos.deep_view() == photo_records(images.deep_view().take(i as int)),
        decreases images.len() - i,
    {
        let ghost before = images.deep_view().take(i as int);
        let ghost made = photos.deep_view();
        proof {
            assert(images.deep_view().take(i + 1) =~= before.push(images[i as int].deep_view()));
            lemma_gallery_images_push(before, images[i as int].deep_view());
        }
        match photo_from_image(photos.len(), &images[i]) {
            Some(photo) => {
                photos.push(photo);
                assert(photos.deep_view() =~= made.push(photo.deep_view()));
                assert(photos.deep_view() =~= photo_records(images.deep_view().take(i + 1)));
            },
            None => {},
        }
        i += 1;
    }
    assert(images.deep_view().take(images.len() as int) =~= images.deep_view());
    proof {
        lemma_photo_records(images.deep_view());
        if all_gallery_images(images.deep_view()) {
            lemma_gallery_images_give_one_photo_each(images.deep_view());
        }
    }
    photos
}

/// The photos of the page `html`: those of the elements that the photo
/// selector matches on it. No photo has an address that carries the marker
/// of a profile picture, and the `k`-th photo has the number `k`.
pub fn extract_photos(html: &str) -> (photos: Vec<Photo>)
    requires
        page_fits(html@),
    ensures
        photos.deep_view() == photo_records(image_elements(html@)),
        photos.len() <= image_elements(html@).len(),
        forall|k: int|
            0 <= k < photos.len() ==> {
                let photo = #[trigger] photos.deep_view()[k];
                &&& photo.id == PHOTO_ID_PREFIX@ + decimal(k as nat)
                &&& is_gallery_source(photo.src)
                &&& photo.src.len() > 0
            },
{
    let readings = read_image_elements(html);
    photos_from_images(&readings)
}

/// There are at most as many albums as elements.
pub proof fn lemma_album_records_len(elements: Seq<AlbumElementView>)
    ensures
        album_records(elements).len() <= elements.len(),
    decreases elements.len(),
{
    if elements.len() > 0 {
        lemma_album_records_len(elements.drop_last());
    }
}

/// Elements of which none carries an identifier give no album. In
/// particular a page on which the album selector matches nothing gives none.
pub proof fn lemma_no_identifier_no_album(elements: Seq<AlbumElementView>)
    requires
        none_identified(elements),
    ensures
        album_records(elements) == Seq::<AlbumView>::empty(),
    decreases elements.len(),
{
    if elements.len() > 0 {
        assert(elements.last().album_id is None);
        lemma_no_identifier_no_album(elements.drop_last());
    }
}

/// Elements that all carry an identifier give one album each, in the order
/// of the elements, and each album has the identifier of its element.
pub proof fn lemma_identified_elements_give_one_album_each(elements: Seq<AlbumElementView>)
    requires
        all_identified(elements),
    ensures
        album_records(elements).len() == elements.len(),
        forall|i: int|
            0 <= i < elements.len() ==> album_record(elements[i]) == Some(
                #[trigger] album_records(elements)[i],
            ),
        forall|i: int|
            0 <= i < elements.len() ==> (#[trigger] album_records(elements)[i]).id
                == elements[i].album_id->0,
    decreases elements.len(),
{
    if elements.len() > 0 {
        let rest = elements.drop_last();
        lemma_identified_elements_give_one_album_each(rest);
        assert(elements.last().album_id is Some);
        assert(album_records(elements) =~= album_records(rest).push(
            album_record(elements.last())->0,
        ));
        assert forall|i: int| 0 <= i < elements.len() implies album_record(elements[i]) == Some(
            #[trigger] album_records(elements)[i],
        ) by {
            if i < rest.len() {
                assert(elements[i] == rest[i]);
                assert(album_records(elements)[i] == album_records(rest)[i]);
            }
        }
    }
}

/// An element with an identifier and without a label gives an album with the
/// placeholder name.
pub proof fn lemma_unlabelled_album_is_untitled(element: AlbumElementView)
    requires
        element.album_id is Some,
        element.label is None,
    ensures
        album_record(element) is Some,
        album_record(element)->0.name == "Untitled Album"@,
{
}

/// No album made from markup has a photo count.
pub proof fn lemma_album_records_have_no_photo_count(elements: Seq<AlbumElementView>)
    ensures
        forall|k: int|
            0 <= k < album_records(elements).len() ==> (#[trigger] album_records(
                elements,
            )[k]).photo_count is None,
    decreases elements.len(),
{
    if elements.len() > 0 {
        let rest = elements.drop_last();
        lemma_album_records_have_no_photo_count(rest);
        assert forall|k: int| 0 <= k < album_records(elements).len() implies (
        #[trigger] album_records(elements)[k]).photo_count is None by {
            if k < album_records(rest).len() {
                assert(album_records(elements)[k] == album_records(rest)[k]);
            }
        }
    }
}

/// What holds of the photos of any run of images: there is one for each kept
/// image; the `k`-th has the identifier made of the prefix and the numeral of
/// `k`, so no two share one; each address carries the marker of the
/// content-delivery network and not that of a profile picture; neither
/// identifier nor address is empty; none has a timestamp.
pub proof fn lemma_photo_records(images: Seq<ImageElementView>)
    ensures
        photo_records(images).len() == gallery_images(images).len(),
        photo_records(images).len() <= images.len(),
        forall|k: int|
            0 <= k < photo_records(images).len() ==> {
                let photo = #[trigger] photo_records(images)[k];
                &&& photo.id == "photo_"@ + decimal(k as nat)
                &&& photo.id.len() > 0
                &&& is_substring("fbcdn"@, photo.src)
                &&& !is_substring("profile"@, photo.src)
                &&& photo.src.len() > 0
                &&& photo.timestamp is None
            },
        forall|j: int, k: int|
            0 <= j < k < photo_records(images).len() ==> (#[trigger] photo_records(images)[j]).id
                != (#[trigger] photo_records(images)[k]).id,
{
    let keep = |image: ImageElementView| is_gallery_image(image);
    let kept = gallery_images(images);
    images.lemma_filter_len(keep);
    reveal_strlit("photo_");
    reveal_strlit("fbcdn");
    assert forall|k: int| 0 <= k < photo_records(images).len() implies {
        let photo = #[trigger] photo_records(images)[k];
        &&& photo.id == "photo_"@ + decimal(k as nat)
        &&& photo.id.len() > 0
        &&& is_substring("fbcdn"@, photo.src)
        &&& !is_substring("profile"@, photo.src)
        &&& photo.src.len() > 0
        &&& photo.timestamp is None
    } by {
        images.lemma_filter_pred(keep, k);
        assert(is_gallery_image(kept[k]));
        lemma_substring_len("fbcdn"@, kept[k].src->0);
    }
    assert forall|j: int, k: int| 0 <= j < k < photo_records(images).len() implies (
    #[trigger] photo_records(images)[j]).id != (#[trigger] photo_records(images)[k]).id by {
        let a = photo_records(images)[j].id;
        let b = photo_records(images)[k].id;
        if a == b {
            let prefix = PHOTO_ID_PREFIX@;
            assert(a.subrange(prefix.len() as int, a.len() as int) =~= decimal(j as nat));
            assert(b.subrange(prefix.len() as int, b.len() as int) =~= decimal(k as nat));
            lemma_decimal_injective(j as nat, k as nat);
        }
    }
}

/// An image whose address carries the marker of a profile picture gives no
/// photo, whatever else its address carries; so images that all carry it
/// give none.
pub proof fn lemma_profile_pictures_are_excluded(images: Seq<ImageElementView>)
    requires
        forall|i: int|
            0 <= i < images.len() ==> ((#[trigger] images[i]).src matches Some(src) ==> is_substring(
                "profile"@,
                src,
            )),
    ensures
        photo_records(images) == Seq::<PhotoView>::empty(),
{
    let keep = |image: ImageElementView| is_gallery_image(image);
    assert forall|i: int| 0 <= i < images.len() implies !keep(#[trigger] images[i]) by {}
    images.lemma_all_neg_filter_empty(keep);
    assert(photo_records(images) =~= Seq::<PhotoView>::empty());
}

/// Images that are all kept give one photo each, in the order of the images:
/// the `i`-th photo is made of the `i`-th image and numbered `i`.
pub proof fn lemma_gallery_images_give_one_photo_each(images: Seq<ImageElementView>)
    requires
        all_gallery_images(images),
    ensures
        photo_records(images).len() == images.len(),
        forall|i: int|
            0 <= i < images.len() ==> #[trigger] photo_records(images)[i] == photo_record(
                i as nat,
                images[i],
            ),
{
    lemma_all_kept(images);
}

/// Where every image is kept, the kept images are the images.
proof fn lemma_all_kept(images: Seq<ImageElementView>)
    requires
        all_gallery_images(images),
    ensures
        gallery_images(images) == images,
    decreases images.len(),
{
    if images.len() > 0 {
        let rest = images.drop_last();
        lemma_all_kept(rest);
        assert(images =~= rest.push(images.last()));
        lemma_gallery_images_push(rest, images.last());
    } else {
        reveal(Seq::filter);
    }
}

} // verus!
