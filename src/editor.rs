//! The editor: the tracks selected for batch editing, the consolidated view
//! that the user edits, and the save that writes each track back.

use vstd::prelude::*;

use crate::agent::MetadataWriteCapable;
use crate::error::TagError;
use crate::metadata::{
    art_list_view, arts_view, copy_art_list, merge_spec, records_view, resolve_spec, Art, ArtView,
    MetadataContainer, MetadataView,
};
use crate::row::{rows_view, MetanoteRow, RowView};

verus! {

/// The editor's state. With no track selected there is no view; otherwise
/// the selected tracks, in selection order, and the view being edited.
#[derive(Debug, PartialEq, Eq)]
pub enum MetanoteEditorPage {
    Empty,
    Viewing { rows: Vec<MetanoteRow>, metadata: MetadataContainer },
}

pub open spec fn row_records(rows: Seq<RowView>) -> Seq<MetadataView> {
    rows.map_values(|r: RowView| r.metadata)
}

/// The tracks after a save of `view` whose writes returned `results`: a
/// track whose write succeeded holds its resolved record, any other keeps
/// the record that it had.
pub open spec fn saved_rows(
    rows: Seq<RowView>,
    view: MetadataView,
    results: Seq<Result<(), TagError>>,
) -> Seq<RowView> {
    Seq::new(
        rows.len(),
        |i: int|
            if results[i] is Ok {
                RowView { path: rows[i].path, metadata: resolve_spec(rows[i].metadata, view) }
            } else {
                rows[i]
            },
    )
}

/// The artwork that the image buttons give, in order: a button with a
/// chosen image adds it, one without drops the last image gathered so far.
pub open spec fn chosen_art(choices: Seq<Option<ArtView>>) -> Seq<ArtView>
    decreases choices.len(),
{
    if choices.len() == 0 {
        Seq::empty()
    } else {
        let prev = chosen_art(choices.drop_last());
        match choices.last() {
            Some(a) => prev.push(a),
            None => if prev.len() > 0 {
                prev.drop_last()
            } else {
                prev
            },
        }
    }
}

pub open spec fn choices_view(choices: Seq<Option<Art>>) -> Seq<Option<ArtView>> {
    choices.map_values(
        |c: Option<Art>|
            match c {
                Some(a) => Some(a@),
                None => None,
            },
    )
}

impl MetanoteEditorPage {
    /// The selected tracks, in selection order.
    pub open spec fn selection(&self) -> Seq<RowView> {
        match self {
            MetanoteEditorPage::Empty => Seq::empty(),
            MetanoteEditorPage::Viewing { rows, .. } => rows_view(rows@),
        }
    }

    /// The view being edited, if any track is selected.
    pub open spec fn edit_view(&self) -> Option<MetadataView> {
        match self {
            MetanoteEditorPage::Empty => None,
            MetanoteEditorPage::Viewing { metadata, .. } => Some(metadata@),
        }
    }

    /// An editor with nothing selected.
    pub fn new() -> (r: Self)
        ensures
            r is Empty,
    {
        MetanoteEditorPage::Empty
    }

    /// Selects `rows`, dropping any earlier selection and view. A non-empty
    /// selection is merged into a fresh view; an empty one leaves no view.
    pub fn set_metadata(&mut self, rows: Vec<MetanoteRow>)
        ensures
            final(self).selection() == rows_view(rows@),
            rows@.len() == 0 ==> *final(self) is Empty,
            rows@.len() > 0 ==> final(self).edit_view() == Some(
                merge_spec(row_records(rows_view(rows@))),
            ),
    {
        if rows.len() == 0 {
            *self = MetanoteEditorPage::Empty;
            return;
        }
        let mut containers: Vec<MetadataContainer> = Vec::new();
        let mut i: usize = 0;
        while i < rows.len()
            invariant
                i <= rows@.len(),
                containers@.len() == i,
                forall|j: int| 0 <= j < i ==> (#[trigger] containers@[j])@ == rows@[j].metadata@,
            decreases rows@.len() - i,
        {
            containers.push(rows[i].metadata.copy());
            i = i + 1;
        }
        assert(records_view(containers@) =~= row_records(rows_view(rows@)));
        let merged = MetadataContainer::merge(containers.as_slice());
        *self = MetanoteEditorPage::Viewing { rows, metadata: merged };
    }

    /// The view being edited, if any track is selected.
    pub fn metadata(&self) -> (r: Option<&MetadataContainer>)
        ensures
            r matches Some(m) ==> self.edit_view() == Some(m@),
            r is None <==> self is Empty,
    {
        match self {
            MetanoteEditorPage::Empty => None,
            MetanoteEditorPage::Viewing { metadata, .. } => Some(metadata),
        }
    }

    /// Takes the text and numeric fields that the user left in the view;
    /// the view's artwork is kept. Does nothing with no track selected.
    pub fn update_metadata(&mut self, edited: &MetadataContainer)
        ensures
            final(self).selection() == old(self).selection(),
            *old(self) is Empty ==> *final(self) is Empty,
            old(self).edit_view() matches Some(v) ==> final(self).edit_view() == Some(
                MetadataView { art: v.art, ..edited@ },
            ),
    {
        match self {
            MetanoteEditorPage::Empty => {},
            MetanoteEditorPage::Viewing { rows: _, metadata } => {
                let art = copy_art_list(&metadata.art);
                let mut next = edited.copy();
                next.art = art;
                *metadata = next;
            },
        }
    }

    /// Sets the view's artwork from the image buttons, in order. Does
    /// nothing with no track selected.
    pub fn on_art_change(&mut self, choices: Vec<Option<Art>>)
        ensures
            final(self).selection() == old(self).selection(),
            *old(self) is Empty ==> *final(self) is Empty,
            old(self).edit_view() matches Some(v) ==> final(self).edit_view() == Some(
                MetadataView { art: Some(chosen_art(choices_view(choices@))), ..v },
            ),
    {
        let ghost cv = choices_view(choices@);
        let mut artwork: Vec<Art> = Vec::new();
        let mut i: usize = 0;
        while i < choices.len()
            invariant
                i <= choices@.len(),
                cv == choices_view(choices@),
                arts_view(artwork@) == chosen_art(cv.subrange(0, i as int)),
            decreases choices@.len() - i,
        {
            let ghost before = artwork@;
            assert(cv.subrange(0, i + 1).drop_last() =~= cv.subrange(0, i as int));
            match &choices[i] {
                Some(a) => {
                    artwork.push(a.copy());
                    assert(arts_view(artwork@) =~= arts_view(before).push(a@));
                },
                None => {
                    if artwork.len() > 0 {
                        artwork.pop();
                        assert(arts_view(artwork@) =~= arts_view(before).drop_last());
                    }
                },
            }
            i = i + 1;
        }
        assert(cv.subrange(0, choices@.len() as int) =~= cv);
        match self {
            MetanoteEditorPage::Empty => {},
            MetanoteEditorPage::Viewing { rows: _, metadata } => {
                metadata.art = Some(artwork);
            },
        }
    }

    /// Saves the view: each selected track, in selection order, gets its
    /// resolved record written to its file. A failed write does not stop
    /// the others; each result stands at its track's position. A track
    /// whose write succeeded holds its resolved record afterwards, any
    /// other keeps its record; the view stays as it is.
    pub fn write_metadata<T: MetadataWriteCapable>(&mut self, metadata_agent: &T) -> (r: Vec<Result<(), TagError>>)
        requires
            *old(self) is Viewing,
        ensures
            *final(self) is Viewing,
            final(self).edit_view() == old(self).edit_view(),
            r@.len() == old(self).selection().len(),
            final(self).selection() == saved_rows(
                old(self).selection(),
                old(self).edit_view().unwrap(),
                r@,
            ),
    {
        match self {
            MetanoteEditorPage::Empty => Vec::new(),
            MetanoteEditorPage::Viewing { rows, metadata } => {
                let ghost old_rows = rows_view(rows@);
                let ghost view = metadata@;
                let mut results: Vec<Result<(), TagError>> = Vec::new();
                let mut saved: Vec<MetanoteRow> = Vec::new();
                let mut i: usize = 0;
                while i < rows.len()
                    invariant
                        i <= rows@.len(),
                        old_rows == rows_view(rows@),
                        view == metadata@,
                        results@.len() == i,
                        saved@.len() == i,
                        forall|j: int|
                            0 <= j < i ==> (#[trigger] saved@[j])@ == saved_rows(
                                old_rows,
                                view,
                                results@,
                            )[j],
                    decreases rows@.len() - i,
                {
                    let row = &rows[i];
                    let resolved = row.metadata.resolve(metadata);
                    let result = metadata_agent.write_metadata(row.path.as_str(), &resolved);
                    let next = match result {
                        Ok(_) => MetanoteRow { path: row.path.clone(), metadata: resolved },
                        Err(_) => MetanoteRow { path: row.path.clone(), metadata: row.metadata.copy() },
                    };
                    results.push(result);
                    saved.push(next);
                    i = i + 1;
                }
                assert(rows_view(saved@) =~= saved_rows(old_rows, view, results@));
                *rows = saved;
                results
            },
        }
    }
}

} // verus!
