use metanote::metadata::{keep_text_value, Art, MetadataContainer, NumberField, TextField, KEEP_NUMBER};

fn with_artist(a: &str) -> MetadataContainer {
    MetadataContainer { artist: Some(a.to_string()), ..MetadataContainer::default() }
}

fn with_title(t: &str) -> MetadataContainer {
    MetadataContainer { title: Some(t.to_string()), ..MetadataContainer::default() }
}

fn image(desc: Option<&str>, bytes: Vec<u8>) -> Art {
    Art { description: desc.map(|d| d.to_string()), mime_type: "image/png".to_string(), data: bytes }
}

fn full_record() -> MetadataContainer {
    MetadataContainer {
        title: Some("Song".to_string()),
        artist: Some("Band".to_string()),
        album_artist: Some("Band".to_string()),
        album: Some("Record".to_string()),
        track_number: Some(3),
        track_total: Some(12),
        genre: Some("Rock".to_string()),
        year: Some("1999".to_string()),
        disc_number: Some(1),
        disc_total: Some(2),
        composer: Some("Someone".to_string()),
        comment: Some(String::new()),
        copyright: None,
        art: Some(vec![image(Some("cover"), vec![1, 2, 3])]),
    }
}

#[test]
fn keep_token_is_exposed() {
    assert_eq!(keep_text_value(), "<Keep>");
    assert_eq!(KEEP_NUMBER, -1);
}

#[test]
fn merge_of_one_record_is_that_record() {
    let r = full_record();
    let merged = MetadataContainer::merge(&[r.clone()]);
    assert_eq!(merged, r);
}

#[test]
fn merge_of_empty_record_keeps_everything_absent() {
    let merged = MetadataContainer::merge(&[MetadataContainer::default()]);
    assert_eq!(merged, MetadataContainer::default());
}

#[test]
fn scenario_artist_conflict_then_edit() {
    let selection = vec![with_artist("A"), with_artist("A"), with_artist("B")];
    let merged = MetadataContainer::merge(&selection);
    assert_eq!(merged.artist, Some("<Keep>".to_string()));
    // every other field is absent in all three records, so it stays absent
    assert_eq!(merged.title, None);
    assert_eq!(merged.track_number, None);
    let mut edited = merged.clone();
    edited.artist = Some("C".to_string());
    for r in &selection {
        let saved = r.resolve(&edited);
        assert_eq!(saved.artist, Some("C".to_string()));
        assert_eq!(saved.title, None);
    }
}

#[test]
fn scenario_shared_title_unedited_save() {
    let selection = vec![with_title("X"), with_title("X"), with_title("X")];
    let merged = MetadataContainer::merge(&selection);
    assert_eq!(merged.title, Some("X".to_string()));
    for r in &selection {
        let saved = r.resolve(&merged);
        assert_eq!(saved.title, Some("X".to_string()));
        assert_eq!(&saved, r);
    }
}

#[test]
fn merge_marks_every_kind_of_conflict() {
    let a = full_record();
    let mut b = full_record();
    b.title = None;
    b.track_total = Some(13);
    b.art = Some(vec![image(Some("cover"), vec![9])]);
    let merged = MetadataContainer::merge(&[a.clone(), b]);
    assert_eq!(merged.title, Some("<Keep>".to_string()));
    assert_eq!(merged.track_total, Some(-1));
    assert_eq!(merged.art, None);
    assert_eq!(merged.artist, a.artist);
    assert_eq!(merged.track_number, Some(3));
    assert_eq!(merged.comment, Some(String::new()));
    assert_eq!(merged.copyright, None);
}

#[test]
fn merge_keeps_shared_art() {
    let a = full_record();
    let mut b = with_title("Other");
    b.art = a.art.clone();
    let merged = MetadataContainer::merge(&[a.clone(), b]);
    assert_eq!(merged.art, a.art);
}

#[test]
fn merge_tells_absent_from_empty() {
    let mut a = MetadataContainer::default();
    a.genre = Some(String::new());
    let merged = MetadataContainer::merge(&[a, MetadataContainer::default()]);
    assert_eq!(merged.genre, Some("<Keep>".to_string()));
}

#[test]
fn unedited_save_round_trips_each_record() {
    let a = full_record();
    let mut b = full_record();
    b.title = Some("Other".to_string());
    b.disc_number = None;
    let merged = MetadataContainer::merge(&[a.clone(), b.clone()]);
    assert_eq!(a.resolve(&merged), a);
    assert_eq!(b.resolve(&merged), b);
}

#[test]
fn unedited_save_with_differing_art_drops_art() {
    let a = full_record();
    let b = MetadataContainer::default();
    let merged = MetadataContainer::merge(&[a.clone(), b]);
    assert_eq!(a.resolve(&merged).art, None);
}

#[test]
fn edited_values_are_broadcast() {
    let a = full_record();
    let b = with_artist("Solo");
    let mut edited = MetadataContainer::merge(&[a.clone(), b.clone()]);
    edited.track_number = Some(7);
    edited.year = None;
    edited.composer = Some("New".to_string());
    for r in [&a, &b] {
        let saved = r.resolve(&edited);
        assert_eq!(saved.track_number, Some(7));
        assert_eq!(saved.year, None);
        assert_eq!(saved.composer, Some("New".to_string()));
    }
    // untouched fields keep each record's own value
    assert_eq!(a.resolve(&edited).artist, Some("Band".to_string()));
    assert_eq!(b.resolve(&edited).artist, Some("Solo".to_string()));
}

#[test]
fn art_always_overwrites() {
    let a = full_record();
    let mut edited = with_title("<Keep>");
    let new_art = vec![image(None, vec![4, 5])];
    edited.art = Some(new_art.clone());
    edited.track_number = Some(-1);
    let saved = a.resolve(&edited);
    assert_eq!(saved.art, Some(new_art));
    assert_eq!(saved.title, a.title);
    assert_eq!(saved.track_number, a.track_number);
}

#[test]
fn field_accessors_follow_the_fields() {
    let mut r = MetadataContainer::default();
    r.set_text(TextField::Copyright, Some("(c)".to_string()));
    r.set_number(NumberField::DiscTotal, Some(4));
    assert_eq!(r.copyright, Some("(c)".to_string()));
    assert_eq!(r.disc_total, Some(4));
    assert_eq!(r.text(TextField::Copyright), &Some("(c)".to_string()));
    assert_eq!(r.number(NumberField::DiscTotal), Some(4));
    assert_eq!(r.number(NumberField::TrackTotal), None);
}

#[test]
fn art_from_path_guesses_mime_type() {
    let a = Art::from_path("folder/cover.png", vec![1, 2]);
    assert_eq!(a.mime_type, "image/png");
    assert_eq!(a.description, None);
    assert_eq!(a.data, vec![1, 2]);
    let b = Art::from_path("front.jpg", vec![]);
    assert_eq!(b.mime_type, "image/jpeg");
    let c = Art::from_path("noextension", vec![]);
    assert_eq!(c.mime_type, "text/plain");
}

#[test]
fn art_compares_by_value() {
    let a = image(Some("x"), vec![1, 2]);
    assert!(a.same_as(&a.copy()));
    assert!(!a.same_as(&image(Some("x"), vec![1, 3])));
    assert!(!a.same_as(&image(None, vec![1, 2])));
}

#[test]
fn merge_ignores_order_and_repeats() {
    let a = full_record();
    let b = with_artist("Solo");
    let one = MetadataContainer::merge(&[a.clone(), b.clone()]);
    let two = MetadataContainer::merge(&[b.clone(), a.clone(), b]);
    assert_eq!(one, two);
}
