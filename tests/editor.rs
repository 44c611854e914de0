use std::cell::RefCell;

use metanote::agent::MetadataWriteCapable;
use metanote::editor::MetanoteEditorPage;
use metanote::error::TagError;
use metanote::metadata::{Art, MetadataContainer};
use metanote::row::MetanoteRow;

struct Recorder {
    fail_on: Vec<String>,
    written: RefCell<Vec<(String, MetadataContainer)>>,
}

impl MetadataWriteCapable for Recorder {
    fn write_metadata(&self, path: &str, metadata: &MetadataContainer) -> Result<(), TagError> {
        if self.fail_on.iter().any(|p| p == path) {
            return Err(TagError::CodecError);
        }
        self.written.borrow_mut().push((path.to_string(), metadata.clone()));
        Ok(())
    }
}

fn row(path: &str, artist: &str) -> MetanoteRow {
    MetanoteRow {
        path: path.to_string(),
        metadata: MetadataContainer { artist: Some(artist.to_string()), ..MetadataContainer::default() },
    }
}

fn art(b: u8) -> Art {
    Art { description: None, mime_type: "image/png".to_string(), data: vec![b] }
}

#[test]
fn empty_selection_has_no_view() {
    let mut page = MetanoteEditorPage::new();
    assert_eq!(page, MetanoteEditorPage::Empty);
    page.set_metadata(vec![row("a", "A")]);
    assert!(page.metadata().is_some());
    page.set_metadata(vec![]);
    assert_eq!(page, MetanoteEditorPage::Empty);
    assert!(page.metadata().is_none());
}

#[test]
fn scenario_edit_broadcasts_to_all_tracks() {
    let mut page = MetanoteEditorPage::new();
    page.set_metadata(vec![row("1", "A"), row("2", "A"), row("3", "B")]);
    assert_eq!(page.metadata().unwrap().artist, Some("<Keep>".to_string()));
    let mut edited = page.metadata().unwrap().clone();
    edited.artist = Some("C".to_string());
    page.update_metadata(&edited);
    let rec = Recorder { fail_on: vec![], written: RefCell::new(vec![]) };
    let results = page.write_metadata(&rec);
    assert_eq!(results, vec![Ok(()), Ok(()), Ok(())]);
    let written = rec.written.borrow();
    assert_eq!(written.len(), 3);
    for (i, (p, m)) in written.iter().enumerate() {
        assert_eq!(p, &(i + 1).to_string());
        assert_eq!(m.artist, Some("C".to_string()));
    }
}

#[test]
fn unedited_save_writes_each_record_back() {
    let mut page = MetanoteEditorPage::new();
    let rows = vec![row("1", "A"), row("2", "B")];
    page.set_metadata(rows.clone());
    let rec = Recorder { fail_on: vec![], written: RefCell::new(vec![]) };
    page.write_metadata(&rec);
    let written = rec.written.borrow();
    assert_eq!(written[0], ("1".to_string(), rows[0].metadata.clone()));
    assert_eq!(written[1], ("2".to_string(), rows[1].metadata.clone()));
}

#[test]
fn failed_write_does_not_stop_the_others() {
    let mut page = MetanoteEditorPage::new();
    page.set_metadata(vec![row("1", "A"), row("2", "B"), row("3", "C")]);
    let mut edited = page.metadata().unwrap().clone();
    edited.title = Some("T".to_string());
    page.update_metadata(&edited);
    let rec = Recorder { fail_on: vec!["2".to_string()], written: RefCell::new(vec![]) };
    let results = page.write_metadata(&rec);
    assert_eq!(results, vec![Ok(()), Err(TagError::CodecError), Ok(())]);
    assert_eq!(rec.written.borrow().len(), 2);
    match &page {
        MetanoteEditorPage::Viewing { rows, metadata } => {
            assert_eq!(rows[0].metadata.title, Some("T".to_string()));
            assert_eq!(rows[1].metadata.title, None);
            assert_eq!(rows[2].metadata.title, Some("T".to_string()));
            assert_eq!(rows[2].metadata.artist, Some("C".to_string()));
            assert_eq!(metadata.title, Some("T".to_string()));
        }
        MetanoteEditorPage::Empty => panic!("selection lost"),
    }
}

#[test]
fn update_keeps_view_art() {
    let mut page = MetanoteEditorPage::new();
    let mut r = row("1", "A");
    r.metadata.art = Some(vec![art(1)]);
    page.set_metadata(vec![r]);
    page.update_metadata(&MetadataContainer::default());
    let view = page.metadata().unwrap();
    assert_eq!(view.art, Some(vec![art(1)]));
    assert_eq!(view.artist, None);
}

#[test]
fn art_change_pushes_and_pops() {
    let mut page = MetanoteEditorPage::new();
    page.set_metadata(vec![row("1", "A")]);
    page.on_art_change(vec![Some(art(1)), Some(art(2)), None, Some(art(3))]);
    assert_eq!(page.metadata().unwrap().art, Some(vec![art(1), art(3)]));
    page.on_art_change(vec![None, Some(art(4))]);
    assert_eq!(page.metadata().unwrap().art, Some(vec![art(4)]));
}

#[test]
fn edits_without_selection_do_nothing() {
    let mut page = MetanoteEditorPage::new();
    page.update_metadata(&MetadataContainer::default());
    page.on_art_change(vec![Some(art(1))]);
    assert_eq!(page, MetanoteEditorPage::Empty);
}
