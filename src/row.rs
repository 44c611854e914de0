//! One track of the list: the file's path and the record read from it.

use vstd::prelude::*;

use crate::agent::{MetadataReadCapable, MetadataWriteCapable};
use crate::error::TagError;
use crate::metadata::{resolve_spec, MetadataContainer, MetadataView};

verus! {

/// A track: where its file is, and the tags last read from or written to it.
#[derive(Clone, Debug, PartialEq, Eq)]
pub struct MetanoteRow {
    pub path: String,
    pub metadata: MetadataContainer,
}

/// What a track holds, by value.
pub ghost struct RowView {
    pub path: Seq<char>,
    pub metadata: MetadataView,
}

impl View for MetanoteRow {
    type V = RowView;

    open spec fn view(&self) -> RowView {
        RowView { path: self.path@, metadata: self.metadata@ }
    }
}

pub open spec fn rows_view(rows: Seq<MetanoteRow>) -> Seq<RowView> {
    rows.map_values(|r: MetanoteRow| r@)
}

pub open spec fn unknown_text() -> Seq<char> {
    seq!['U', 'n', 'k', 'n', 'o', 'w', 'n']
}

pub open spec fn or_unknown(t: Option<Seq<char>>) -> Seq<char> {
    match t {
        Some(s) => s,
        None => unknown_text(),
    }
}

/// The line that names a track: "artist - title", with "Unknown" for an
/// absent field.
pub open spec fn row_title(m: MetadataView) -> Seq<char> {
    or_unknown(m.artist) + seq![' ', '-', ' '] + or_unknown(m.title)
}

/// The tracks that a list of reads gives: one for each read that succeeded,
/// in order; a path whose read failed gives none.
pub open spec fn loaded_rows(
    paths: Seq<Seq<char>>,
    reads: Seq<Result<MetadataView, TagError>>,
) -> Seq<RowView>
    recommends
        paths.len() == reads.len(),
    decreases reads.len(),
{
    if reads.len() == 0 || paths.len() == 0 {
        Seq::empty()
    } else {
        let prev = loaded_rows(paths.drop_last(), reads.drop_last());
        match reads.last() {
            Ok(m) => prev.push(RowView { path: paths.last(), metadata: m }),
            Err(_) => prev,
        }
    }
}

pub open spec fn read_view(r: Result<MetadataContainer, TagError>) -> Result<MetadataView, TagError> {
    match r {
        Ok(m) => Ok(m@),
        Err(e) => Err(e),
    }
}

pub open spec fn paths_view(paths: Seq<String>) -> Seq<Seq<char>> {
    paths.map_values(|p: String| p@)
}

fn append_text(out: &mut String, t: &Option<String>)
    ensures
        final(out)@ == old(out)@ + or_unknown(crate::metadata::text_view(*t)),
{
    match t {
        Some(s) => out.append(s.as_str()),
        None => {
            proof {
                reveal_strlit("Unknown");
            }
            out.append("Unknown");
            assert(final(out)@ =~= old(out)@ + unknown_text());
        },
    }
}

impl MetanoteRow {
    /// Reads the track at `path`. What the reader returns is not known
    /// here: a track that is made has that path.
    pub fn new<T: MetadataReadCapable>(path: &str, metadata_agent: &T) -> (r: Result<Self, TagError>)
        ensures
            r matches Ok(row) ==> row.path@ == path@,
    {
        match metadata_agent.metadata(path) {
            Ok(metadata) => Ok(MetanoteRow { path: path.to_owned(), metadata }),
            Err(e) => Err(e),
        }
    }

    /// The line that names a track in the list.
    pub fn title_from_metadata(metadata: &MetadataContainer) -> (r: String)
        ensures
            r@ == row_title(metadata@),
    {
        let mut out = String::new();
        append_text(&mut out, &metadata.artist);
        proof {
            reveal_strlit(" - ");
        }
        out.append(" - ");
        append_text(&mut out, &metadata.title);
        assert(out@ =~= row_title(metadata@));
        out
    }

    /// Applies an edited view to this track's record: fields that the view
    /// marks "keep" stay as they are, the others take the view's value.
    pub fn replace_metadata(&mut self, metadata: &MetadataContainer)
        ensures
            final(self).path == old(self).path,
            final(self).metadata@ == resolve_spec(old(self).metadata@, metadata@),
    {
        self.metadata = self.metadata.resolve(metadata);
    }

    /// Writes the record that this track holds to its file.
    pub fn write_metadata<T: MetadataWriteCapable>(&self, metadata_agent: &T) -> (r: Result<(), TagError>) {
        metadata_agent.write_metadata(self.path.as_str(), &self.metadata)
    }

    /// The tracks that reading `paths` gave, where `reads[i]` is what the
    /// read of `paths[i]` returned: a failed read leaves its path out.
    pub fn collect_rows(paths: &Vec<String>, reads: &Vec<Result<MetadataContainer, TagError>>) -> (r: Vec<Self>)
        requires
            paths@.len() == reads@.len(),
        ensures
            rows_view(r@) == loaded_rows(paths_view(paths@), reads_view(reads@)),
    {
        let ghost rv = reads_view(reads@);
        let ghost pv = paths_view(paths@);
        let mut rows: Vec<Self> = Vec::new();
        let mut i: usize = 0;
        while i < paths.len()
            invariant
                paths@.len() == reads@.len(),
                i <= paths@.len(),
                rv == reads_view(reads@),
                pv == paths_view(paths@),
                rows_view(rows@) == loaded_rows(pv.subrange(0, i as int), rv.subrange(0, i as int)),
            decreases paths@.len() - i,
        {
            let ghost before = rows@;
            assert(pv.subrange(0, i + 1).drop_last() =~= pv.subrange(0, i as int));
            assert(rv.subrange(0, i + 1).drop_last() =~= rv.subrange(0, i as int));
            match &reads[i] {
                Ok(m) => {
                    rows.push(MetanoteRow { path: paths[i].clone(), metadata: m.copy() });
                    assert(rows_view(rows@) =~= rows_view(before).push(rows@.last()@));
                },
                Err(_) => {},
            }
            i = i + 1;
        }
        assert(pv.subrange(0, paths@.len() as int) =~= pv);
        assert(rv.subrange(0, paths@.len() as int) =~= rv);
        rows
    }
}

pub open spec fn reads_view(reads: Seq<Result<MetadataContainer, TagError>>) -> Seq<Result<MetadataView, TagError>> {
    reads.map_values(|x: Result<MetadataContainer, TagError>| read_view(x))
}

/// Reads every path in turn and keeps the tracks whose read succeeded, in
/// order. A path that fails to read never becomes a track; the reads
/// themselves are the reader's.
pub fn add_tracks<T: MetadataReadCapable>(paths: &Vec<String>, metadata_agent: &T) -> (r: Vec<MetanoteRow>)
    ensures
        exists|reads: Seq<Result<MetadataView, TagError>>|
            reads.len() == paths@.len() && #[trigger] loaded_rows(paths_view(paths@), reads) == rows_view(r@),
{
    let mut reads: Vec<Result<MetadataContainer, TagError>> = Vec::new();
    let mut i: usize = 0;
    while i < paths.len()
        invariant
            i <= paths@.len(),
            reads@.len() == i,
        decreases paths@.len() - i,
    {
        reads.push(metadata_agent.metadata(paths[i].as_str()));
        i = i + 1;
    }
    let rows = MetanoteRow::collect_rows(paths, &reads);
    assert(reads_view(reads@).len() == paths@.len());
    rows
}


pub open spec fn audio_word() -> Seq<char> {
    seq!['a', 'u', 'd', 'i', 'o']
}

/// Whether a content type names an audio file: it holds "audio" somewhere.
pub open spec fn is_audio_spec(content_type: Seq<char>) -> bool {
    exists|k: int|
        0 <= k && k + 5 <= content_type.len() && #[trigger] content_type.subrange(k, k + 5)
            == audio_word()
}

/// Whether a file of this content type belongs in the track list.
pub fn is_audio_content_type(content_type: &str) -> (r: bool)
    ensures
        r == is_audio_spec(content_type@),
{
    proof {
        reveal_strlit("audio");
    }
    let word = String::from_str("audio");
    assert(word@ =~= audio_word());
    let n = content_type.unicode_len();
    if n < 5 {
        return false;
    }
    let mut k: usize = 0;
    while k <= n - 5
        invariant
            n == content_type@.len(),
            n >= 5,
            k <= n - 4,
            word@ == audio_word(),
            forall|j: int| 0 <= j < k ==> #[trigger] content_type@.subrange(j, j + 5) != audio_word(),
        decreases n - k,
    {
        let part = String::from_str(content_type.substring_char(k, k + 5));
        if part == word {
            return true;
        }
        k = k + 1;
    }
    false
}

} // verus!
