use metanote::agent::{MetadataAgent, PictureItem, PictureKind, RawTag, TagItem, TagKey};
use metanote::error::TagError;
use metanote::metadata::{Art, MetadataContainer, NumberField, TextField};

fn raw() -> RawTag {
    RawTag {
        title: Some("Song".to_string()),
        artist: None,
        album: None,
        album_artist: None,
        track_number: Some("3".to_string()),
        track_total: None,
        genre: None,
        year: Some("2001".to_string()),
        disc_number: None,
        disc_total: Some("+2".to_string()),
        composer: None,
        comment: None,
        copyright: None,
        pictures: vec![],
    }
}

fn art(desc: Option<&str>) -> Art {
    Art { description: desc.map(|d| d.to_string()), mime_type: "image/png".to_string(), data: vec![1] }
}

#[test]
fn record_from_tag() {
    let agent = MetadataAgent::new();
    let m = agent.metadata_from_tag(raw()).unwrap();
    assert_eq!(m.title, Some("Song".to_string()));
    assert_eq!(m.track_number, Some(3));
    assert_eq!(m.disc_total, Some(2));
    assert_eq!(m.year, Some("2001".to_string()));
    assert_eq!(m.art, None);
}

#[test]
fn record_from_tag_keeps_pictures() {
    let agent = MetadataAgent::new();
    let mut t = raw();
    t.pictures = vec![art(Some("cover")), art(None)];
    let m = agent.metadata_from_tag(t).unwrap();
    assert_eq!(m.art, Some(vec![art(Some("cover")), art(None)]));
}

#[test]
fn bad_number_in_tag_is_parse_error() {
    let agent = MetadataAgent::new();
    let mut t = raw();
    t.track_total = Some("3/12".to_string());
    assert_eq!(agent.metadata_from_tag(t), Err(TagError::ParseError));
}

#[test]
fn tag_items_in_write_order() {
    let agent = MetadataAgent::new();
    let m = MetadataContainer {
        comment: Some("c".to_string()),
        title: Some("t".to_string()),
        track_number: Some(-7),
        disc_total: Some(2),
        ..MetadataContainer::default()
    };
    let items = agent.tag_items(&m);
    assert_eq!(
        items,
        vec![
            TagItem { key: TagKey::Text(TextField::Title), value: "t".to_string() },
            TagItem { key: TagKey::Number(NumberField::TrackNumber), value: "-7".to_string() },
            TagItem { key: TagKey::Number(NumberField::DiscTotal), value: "2".to_string() },
            TagItem { key: TagKey::Text(TextField::Comment), value: "c".to_string() },
        ]
    );
    assert!(agent.tag_items(&MetadataContainer::default()).is_empty());
}

#[test]
fn picture_kinds() {
    let agent = MetadataAgent::new();
    assert_eq!(agent.picture_kind(&art(Some("cover"))), PictureKind::CoverFront);
    assert_eq!(agent.picture_kind(&art(Some("Cover"))), PictureKind::Other);
    assert_eq!(agent.picture_kind(&art(None)), PictureKind::Other);
    let items = agent.picture_items(&Some(vec![art(None), art(Some("cover"))]));
    assert_eq!(
        items,
        vec![
            PictureItem { kind: PictureKind::Other, art: art(None) },
            PictureItem { kind: PictureKind::CoverFront, art: art(Some("cover")) },
        ]
    );
    assert!(agent.picture_items(&None).is_empty());
}
