//! The codec-independent half of reading and writing a file's tags: what a
//! record is made of once a tag has been read, and what is put into a tag
//! before it is saved.

use vstd::prelude::*;

use crate::decimal::{decimal, format_i32, parse_i32, parse_i32_spec};
use crate::error::TagError;
use crate::metadata::{
    arts_view, copy_text, number_of, text_of, text_view, Art, ArtView, MetadataContainer,
    MetadataView, NumberField, TextField,
};

verus! {

/// Reads the tags of the file at a path.
pub trait MetadataReadCapable {
    fn metadata(&self, path: &str) -> Result<MetadataContainer, TagError>;
}

/// Writes tags to the file at a path.
pub trait MetadataWriteCapable {
    fn write_metadata(&self, path: &str, metadata: &MetadataContainer) -> Result<(), TagError>;
}

/// A file's primary tag as its codec hands it over: every field as text,
/// numbers included, and the embedded pictures.
#[derive(Clone, Debug, PartialEq, Eq)]
pub struct RawTag {
    pub title: Option<String>,
    pub artist: Option<String>,
    pub album: Option<String>,
    pub album_artist: Option<String>,
    pub track_number: Option<String>,
    pub track_total: Option<String>,
    pub genre: Option<String>,
    pub year: Option<String>,
    pub disc_number: Option<String>,
    pub disc_total: Option<String>,
    pub composer: Option<String>,
    pub comment: Option<String>,
    pub copyright: Option<String>,
    pub pictures: Vec<Art>,
}

/// A numeric field read from its text: absent stays absent, a text that
/// parses gives its number, and one that does not gives `None`.
pub open spec fn number_field(t: Option<String>) -> Option<Option<i32>> {
    match t {
        None => Some(None),
        Some(s) => match parse_i32_spec(s@) {
            Some(n) => Some(Some(n)),
            None => None,
        },
    }
}

/// Whether every numeric field of a tag parses.
pub open spec fn numbers_parse(t: RawTag) -> bool {
    number_field(t.track_number) is Some && number_field(t.track_total) is Some
        && number_field(t.disc_number) is Some && number_field(t.disc_total) is Some
}

/// The record that a tag whose numbers parse stands for; pictures are
/// kept in order, and no pictures means no artwork.
pub open spec fn record_of(t: RawTag) -> MetadataView {
    MetadataView {
        title: text_view(t.title),
        artist: text_view(t.artist),
        album_artist: text_view(t.album_artist),
        album: text_view(t.album),
        track_number: number_field(t.track_number).unwrap(),
        track_total: number_field(t.track_total).unwrap(),
        genre: text_view(t.genre),
        year: text_view(t.year),
        disc_number: number_field(t.disc_number).unwrap(),
        disc_total: number_field(t.disc_total).unwrap(),
        composer: text_view(t.composer),
        comment: text_view(t.comment),
        copyright: text_view(t.copyright),
        art: if t.pictures@.len() > 0 {
            Some(arts_view(t.pictures@))
        } else {
            None
        },
    }
}

/// Which field a tag item carries.
#[derive(Clone, Copy, Debug, PartialEq, Eq, Structural)]
pub enum TagKey {
    Text(TextField),
    Number(NumberField),
}

/// One text item to store in a tag.
#[derive(Clone, Debug, PartialEq, Eq)]
pub struct TagItem {
    pub key: TagKey,
    pub value: String,
}

/// The role under which a picture is stored.
#[derive(Clone, Copy, Debug, PartialEq, Eq, Structural)]
pub enum PictureKind {
    CoverFront,
    Other,
}

/// One picture to store in a tag.
#[derive(Clone, Debug, PartialEq, Eq)]
pub struct PictureItem {
    pub kind: PictureKind,
    pub art: Art,
}

/// The order in which the fields are stored.
pub open spec fn write_order() -> Seq<TagKey> {
    seq![
        TagKey::Text(TextField::Title),
        TagKey::Text(TextField::Artist),
        TagKey::Text(TextField::Album),
        TagKey::Text(TextField::AlbumArtist),
        TagKey::Number(NumberField::TrackNumber),
        TagKey::Number(NumberField::TrackTotal),
        TagKey::Text(TextField::Genre),
        TagKey::Text(TextField::Year),
        TagKey::Number(NumberField::DiscNumber),
        TagKey::Number(NumberField::DiscTotal),
        TagKey::Text(TextField::Composer),
        TagKey::Text(TextField::Copyright),
        TagKey::Text(TextField::Comment),
    ]
}

/// The text stored for a field: text as it is, numbers in decimal.
pub open spec fn item_text(m: MetadataView, k: TagKey) -> Option<Seq<char>> {
    match k {
        TagKey::Text(f) => text_of(m, f),
        TagKey::Number(f) => match number_of(m, f) {
            Some(n) => Some(decimal(n as int)),
            None => None,
        },
    }
}

/// The items stored for the fields `keys` of `m`, in that order; an absent
/// field gives no item, so the tag keeps what it had there.
pub open spec fn items_for(m: MetadataView, keys: Seq<TagKey>) -> Seq<(TagKey, Seq<char>)>
    decreases keys.len(),
{
    if keys.len() == 0 {
        Seq::empty()
    } else {
        let prev = items_for(m, keys.drop_last());
        match item_text(m, keys.last()) {
            Some(v) => prev.push((keys.last(), v)),
            None => prev,
        }
    }
}

pub open spec fn items_view(items: Seq<TagItem>) -> Seq<(TagKey, Seq<char>)> {
    items.map_values(|i: TagItem| (i.key, i.value@))
}

pub open spec fn cover_description() -> Seq<char> {
    seq!['c', 'o', 'v', 'e', 'r']
}

/// A picture described as "cover" is the front cover; any other is "other".
pub open spec fn picture_kind_of(a: ArtView) -> PictureKind {
    if a.description == Some(cover_description()) {
        PictureKind::CoverFront
    } else {
        PictureKind::Other
    }
}

pub open spec fn pictures_view(items: Seq<PictureItem>) -> Seq<(PictureKind, ArtView)> {
    items.map_values(|i: PictureItem| (i.kind, i.art@))
}

/// The pictures stored for a record's artwork, in order.
pub open spec fn pictures_for(art: Option<Seq<ArtView>>) -> Seq<(PictureKind, ArtView)> {
    match art {
        Some(a) => a.map_values(|x: ArtView| (picture_kind_of(x), x)),
        None => Seq::empty(),
    }
}

/// Reads tags from files and writes them back. The codec work is done by
/// the caller; this type holds the decisions around it.
#[derive(Debug)]
pub struct MetadataAgent {}

fn number_from_text(t: &Option<String>) -> (r: Result<Option<i32>, TagError>)
    ensures
        number_field(*t) matches Some(v) ==> r == Ok::<Option<i32>, TagError>(v),
        number_field(*t) is None ==> r == Err::<Option<i32>, TagError>(TagError::ParseError),
{
    match t {
        None => Ok(None),
        Some(s) => match parse_i32(s.as_str()) {
            Some(n) => Ok(Some(n)),
            None => Err(TagError::ParseError),
        },
    }
}

fn keys_in_write_order() -> (r: Vec<TagKey>)
    ensures
        r@ == write_order(),
{
    let r = vec![
        TagKey::Text(TextField::Title),
        TagKey::Text(TextField::Artist),
        TagKey::Text(TextField::Album),
        TagKey::Text(TextField::AlbumArtist),
        TagKey::Number(NumberField::TrackNumber),
        TagKey::Number(NumberField::TrackTotal),
        TagKey::Text(TextField::Genre),
        TagKey::Text(TextField::Year),
        TagKey::Number(NumberField::DiscNumber),
        TagKey::Number(NumberField::DiscTotal),
        TagKey::Text(TextField::Composer),
        TagKey::Text(TextField::Copyright),
        TagKey::Text(TextField::Comment),
    ];
    assert(r@ =~= write_order());
    r
}

impl MetadataAgent {
    pub fn new() -> (r: Self) {
        MetadataAgent {  }
    }

    /// The record that a file's tag stands for. A numeric field whose text
    /// is not an `i32` gives `ParseError`.
    pub fn metadata_from_tag(&self, tag: RawTag) -> (r: Result<MetadataContainer, TagError>)
        ensures
            numbers_parse(tag) <==> r is Ok,
            r matches Ok(m) ==> m@ == record_of(tag),
            r matches Err(e) ==> e == TagError::ParseError,
    {
        let track_number = match number_from_text(&tag.track_number) {
            Ok(v) => v,
            Err(e) => return Err(e),
        };
        let track_total = match number_from_text(&tag.track_total) {
            Ok(v) => v,
            Err(e) => return Err(e),
        };
        let disc_number = match number_from_text(&tag.disc_number) {
            Ok(v) => v,
            Err(e) => return Err(e),
        };
        let disc_total = match number_from_text(&tag.disc_total) {
            Ok(v) => v,
            Err(e) => return Err(e),
        };
        let art = if tag.pictures.len() > 0 {
            Some(tag.pictures)
        } else {
            None
        };
        Ok(
            MetadataContainer {
                title: tag.title,
                artist: tag.artist,
                album_artist: tag.album_artist,
                album: tag.album,
                track_number,
                track_total,
                genre: tag.genre,
                year: tag.year,
                disc_number,
                disc_total,
                composer: tag.composer,
                comment: tag.comment,
                copyright: tag.copyright,
                art,
            },
        )
    }

    /// The text items to store for a record, in the order that they are
    /// stored; absent fields give none.
    pub fn tag_items(&self, metadata: &MetadataContainer) -> (r: Vec<TagItem>)
        ensures
            items_view(r@) == items_for(metadata@, write_order()),
    {
        let keys = keys_in_write_order();
        let mut items: Vec<TagItem> = Vec::new();
        let mut i: usize = 0;
        while i < keys.len()
            invariant
                i <= keys@.len(),
                items_view(items@) == items_for(metadata@, keys@.subrange(0, i as int)),
            decreases keys@.len() - i,
        {
            let key = keys[i];
            let value = match key {
                TagKey::Text(f) => copy_text(metadata.text(f)),
                TagKey::Number(f) => match metadata.number(f) {
                    Some(n) => Some(format_i32(n)),
                    None => None,
                },
            };
            let ghost before = items@;
            assert(keys@.subrange(0, i + 1).drop_last() =~= keys@.subrange(0, i as int));
            match value {
                Some(v) => {
                    items.push(TagItem { key, value: v });
                    assert(items_view(items@) =~= items_view(before).push((key, text_view(value).unwrap())));
                },
                None => {},
            }
            i = i + 1;
        }
        assert(keys@.subrange(0, keys@.len() as int) =~= keys@);
        items
    }

    /// The role under which a picture is stored.
    pub fn picture_kind(&self, art: &Art) -> (r: PictureKind)
        ensures
            r == picture_kind_of(art@),
    {
        proof {
            reveal_strlit("cover");
        }
        let cover = String::from_str("cover");
        assert(cover@ =~= cover_description());
        match &art.description {
            Some(d) => if *d == cover {
                PictureKind::CoverFront
            } else {
                PictureKind::Other
            },
            None => PictureKind::Other,
        }
    }

    /// The pictures to store for a record's artwork. The tag's existing
    /// pictures are all removed first, so absent artwork leaves none.
    pub fn picture_items(&self, art: &Option<Vec<Art>>) -> (r: Vec<PictureItem>)
        ensures
            pictures_view(r@) == pictures_for(crate::metadata::art_list_view(*art)),
    {
        let mut out: Vec<PictureItem> = Vec::new();
        match art {
            Some(list) => {
                let mut i: usize = 0;
                while i < list.len()
                    invariant
                        i <= list@.len(),
                        out@.len() == i,
                        forall|j: int|
                            0 <= j < i ==> (#[trigger] out@[j]).kind == picture_kind_of(list@[j]@)
                                && out@[j].art@ == list@[j]@,
                    decreases list@.len() - i,
                {
                    let kind = self.picture_kind(&list[i]);
                    out.push(PictureItem { kind, art: list[i].copy() });
                    i = i + 1;
                }
                assert(pictures_view(out@) =~= pictures_for(crate::metadata::art_list_view(*art)));
            },
            None => {
                assert(pictures_view(out@) =~= Seq::<(PictureKind, ArtView)>::empty());
            },
        }
        out
    }
}

} // verus!
