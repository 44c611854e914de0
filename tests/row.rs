use metanote::agent::{MetadataAgent, MetadataReadCapable};
use metanote::error::TagError;
use metanote::metadata::MetadataContainer;
use metanote::row::{add_tracks, is_audio_content_type, MetanoteRow};

struct FakeStore {
    files: Vec<(String, MetadataContainer)>,
}

impl MetadataReadCapable for FakeStore {
    fn metadata(&self, path: &str) -> Result<MetadataContainer, TagError> {
        for (p, m) in &self.files {
            if p == path {
                return Ok(m.clone());
            }
        }
        Err(TagError::NotATrackFile)
    }
}

fn with_artist(a: &str) -> MetadataContainer {
    MetadataContainer { artist: Some(a.to_string()), ..MetadataContainer::default() }
}

#[test]
fn bad_path_throws_error() {
    let _agent = MetadataAgent::new();
    let store = FakeStore { files: vec![] };
    let row = MetanoteRow::new("bad_path", &store);
    assert!(row.is_err());
    assert_eq!(row.unwrap_err(), TagError::NotATrackFile);
}

#[test]
fn row_holds_path_and_record() {
    let store = FakeStore { files: vec![("a.mp3".to_string(), with_artist("A"))] };
    let row = MetanoteRow::new("a.mp3", &store).unwrap();
    assert_eq!(row.path, "a.mp3");
    assert_eq!(row.metadata, with_artist("A"));
}

#[test]
fn unreadable_path_never_enters_the_selection() {
    let store = FakeStore {
        files: vec![("a.mp3".to_string(), with_artist("A")), ("c.mp3".to_string(), with_artist("C"))],
    };
    let paths = vec!["a.mp3".to_string(), "dir".to_string(), "c.mp3".to_string()];
    let rows = add_tracks(&paths, &store);
    assert_eq!(rows.len(), 2);
    assert_eq!(rows[0].path, "a.mp3");
    assert_eq!(rows[1].path, "c.mp3");
    let records: Vec<MetadataContainer> = rows.iter().map(|r| r.metadata.clone()).collect();
    let merged = MetadataContainer::merge(&records);
    assert_eq!(merged.artist, Some("<Keep>".to_string()));
}

#[test]
fn collect_rows_skips_failed_reads() {
    let paths = vec!["x".to_string(), "y".to_string()];
    let reads = vec![Err(TagError::CodecError), Ok(with_artist("Y"))];
    let rows = MetanoteRow::collect_rows(&paths, &reads);
    assert_eq!(rows, vec![MetanoteRow { path: "y".to_string(), metadata: with_artist("Y") }]);
}

#[test]
fn row_title_names_artist_and_title() {
    let mut m = with_artist("Band");
    assert_eq!(MetanoteRow::title_from_metadata(&m), "Band - Unknown");
    m.title = Some("Song".to_string());
    assert_eq!(MetanoteRow::title_from_metadata(&m), "Band - Song");
    assert_eq!(MetanoteRow::title_from_metadata(&MetadataContainer::default()), "Unknown - Unknown");
}

#[test]
fn replace_metadata_resolves_against_view() {
    let mut row = MetanoteRow { path: "p".to_string(), metadata: with_artist("Old") };
    let mut view = with_artist("<Keep>");
    view.title = Some("T".to_string());
    row.replace_metadata(&view);
    assert_eq!(row.metadata.artist, Some("Old".to_string()));
    assert_eq!(row.metadata.title, Some("T".to_string()));
    assert_eq!(row.path, "p");
}

#[test]
fn audio_content_types() {
    assert!(is_audio_content_type("audio/mpeg"));
    assert!(is_audio_content_type("application/x-audio"));
    assert!(!is_audio_content_type("image/png"));
    assert!(!is_audio_content_type("audi"));
    assert!(!is_audio_content_type(""));
}
