use vstd::prelude::*;

verus! {

/// The token that stands in a text field of a consolidated view whose
/// records disagree on that field.
pub open spec fn keep_text() -> Seq<char> {
    seq!['<', 'K', 'e', 'e', 'p', '>']
}

/// The integer that stands in a numeric field of a consolidated view whose
/// records disagree on that field.
pub const KEEP_NUMBER: i32 = -1;

/// Returns the text token that marks a field as "differs; left untouched".
pub fn keep_text_value() -> (r: String)
    ensures
        r@ == keep_text(),
{
    proof {
        reveal_strlit("<Keep>");
    }
    String::from_str("<Keep>")
}

/// The text fields of a record.
#[derive(Clone, Copy, Debug, PartialEq, Eq, Structural)]
pub enum TextField {
    Title,
    Artist,
    AlbumArtist,
    Album,
    Genre,
    Year,
    Composer,
    Comment,
    Copyright,
}

/// The numeric fields of a record.
#[derive(Clone, Copy, Debug, PartialEq, Eq, Structural)]
pub enum NumberField {
    TrackNumber,
    TrackTotal,
    DiscNumber,
    DiscTotal,
}

/// One embedded image.
#[derive(Clone, Debug, PartialEq, Eq)]
pub struct Art {
    pub description: Option<String>,
    pub mime_type: String,
    pub data: Vec<u8>,
}

/// What an image holds, by value.
pub ghost struct ArtView {
    pub description: Option<Seq<char>>,
    pub mime_type: Seq<char>,
    pub data: Seq<u8>,
}

pub open spec fn text_view(t: Option<String>) -> Option<Seq<char>> {
    match t {
        Some(s) => Some(s@),
        None => None,
    }
}

impl View for Art {
    type V = ArtView;

    open spec fn view(&self) -> ArtView {
        ArtView { description: text_view(self.description), mime_type: self.mime_type@, data: self.data@ }
    }
}

pub open spec fn arts_view(arts: Seq<Art>) -> Seq<ArtView> {
    arts.map_values(|a: Art| a@)
}

pub open spec fn art_list_view(art: Option<Vec<Art>>) -> Option<Seq<ArtView>> {
    match art {
        Some(v) => Some(arts_view(v@)),
        None => None,
    }
}

/// The tags of one audio file. The same type carries a consolidated view of
/// several files, where a field may hold the "keep" token instead.
#[derive(Clone, Debug, PartialEq, Eq)]
pub struct MetadataContainer {
    pub title: Option<String>,
    pub artist: Option<String>,
    pub album_artist: Option<String>,
    pub album: Option<String>,
    pub track_number: Option<i32>,
    pub track_total: Option<i32>,
    pub genre: Option<String>,
    pub year: Option<String>,
    pub disc_number: Option<i32>,
    pub disc_total: Option<i32>,
    pub composer: Option<String>,
    pub comment: Option<String>,
    pub copyright: Option<String>,
    pub art: Option<Vec<Art>>,
}

/// What a record holds, by value.
pub ghost struct MetadataView {
    pub title: Option<Seq<char>>,
    pub artist: Option<Seq<char>>,
    pub album_artist: Option<Seq<char>>,
    pub album: Option<Seq<char>>,
    pub track_number: Option<i32>,
    pub track_total: Option<i32>,
    pub genre: Option<Seq<char>>,
    pub year: Option<Seq<char>>,
    pub disc_number: Option<i32>,
    pub disc_total: Option<i32>,
    pub composer: Option<Seq<char>>,
    pub comment: Option<Seq<char>>,
    pub copyright: Option<Seq<char>>,
    pub art: Option<Seq<ArtView>>,
}

impl View for MetadataContainer {
    type V = MetadataView;

    open spec fn view(&self) -> MetadataView {
        MetadataView {
            title: text_view(self.title),
            artist: text_view(self.artist),
            album_artist: text_view(self.album_artist),
            album: text_view(self.album),
            track_number: self.track_number,
            track_total: self.track_total,
            genre: text_view(self.genre),
            year: text_view(self.year),
            disc_number: self.disc_number,
            disc_total: self.disc_total,
            composer: text_view(self.composer),
            comment: text_view(self.comment),
            copyright: text_view(self.copyright),
            art: art_list_view(self.art),
        }
    }
}

pub open spec fn text_of(m: MetadataView, f: TextField) -> Option<Seq<char>> {
    match f {
        TextField::Title => m.title,
        TextField::Artist => m.artist,
        TextField::AlbumArtist => m.album_artist,
        TextField::Album => m.album,
        TextField::Genre => m.genre,
        TextField::Year => m.year,
        TextField::Composer => m.composer,
        TextField::Comment => m.comment,
        TextField::Copyright => m.copyright,
    }
}

pub open spec fn number_of(m: MetadataView, f: NumberField) -> Option<i32> {
    match f {
        NumberField::TrackNumber => m.track_number,
        NumberField::TrackTotal => m.track_total,
        NumberField::DiscNumber => m.disc_number,
        NumberField::DiscTotal => m.disc_total,
    }
}

/// The value that all of `vals` share, or `sentinel` where two of them differ.
pub open spec fn agreed<T>(vals: Seq<T>, sentinel: T) -> T {
    if forall|i: int| 0 <= i < vals.len() ==> #[trigger] vals[i] == vals[0] {
        vals[0]
    } else {
        sentinel
    }
}

pub open spec fn merged_text(recs: Seq<MetadataView>, f: TextField) -> Option<Seq<char>> {
    agreed(recs.map_values(|r: MetadataView| text_of(r, f)), Some(keep_text()))
}

pub open spec fn merged_number(recs: Seq<MetadataView>, f: NumberField) -> Option<i32> {
    agreed(recs.map_values(|r: MetadataView| number_of(r, f)), Some(KEEP_NUMBER))
}

pub open spec fn merged_art(recs: Seq<MetadataView>) -> Option<Seq<ArtView>> {
    agreed(recs.map_values(|r: MetadataView| r.art), None)
}

/// The consolidated view of `recs`: each field keeps the value that all
/// records share and is marked "keep" where two records differ; artwork that
/// differs is left absent.
pub open spec fn merge_spec(recs: Seq<MetadataView>) -> MetadataView {
    MetadataView {
        title: merged_text(recs, TextField::Title),
        artist: merged_text(recs, TextField::Artist),
        album_artist: merged_text(recs, TextField::AlbumArtist),
        album: merged_text(recs, TextField::Album),
        track_number: merged_number(recs, NumberField::TrackNumber),
        track_total: merged_number(recs, NumberField::TrackTotal),
        genre: merged_text(recs, TextField::Genre),
        year: merged_text(recs, TextField::Year),
        disc_number: merged_number(recs, NumberField::DiscNumber),
        disc_total: merged_number(recs, NumberField::DiscTotal),
        composer: merged_text(recs, TextField::Composer),
        comment: merged_text(recs, TextField::Comment),
        copyright: merged_text(recs, TextField::Copyright),
        art: merged_art(recs),
    }
}

pub open spec fn records_view(recs: Seq<MetadataContainer>) -> Seq<MetadataView> {
    recs.map_values(|r: MetadataContainer| r@)
}

/// Copies an optional text by value.
pub fn copy_text(t: &Option<String>) -> (r: Option<String>)
    ensures
        text_view(r) == text_view(*t),
{
    match t {
        Some(s) => Some(s.clone()),
        None => None,
    }
}

/// Compares two optional texts by value.
pub fn text_eq(a: &Option<String>, b: &Option<String>) -> (r: bool)
    ensures
        r == (text_view(*a) == text_view(*b)),
{
    match (a, b) {
        (Some(x), Some(y)) => *x == *y,
        (None, None) => true,
        _ => false,
    }
}

fn bytes_eq(a: &Vec<u8>, b: &Vec<u8>) -> (r: bool)
    ensures
        r == (a@ == b@),
{
    if a.len() != b.len() {
        return false;
    }
    let mut i: usize = 0;
    while i < a.len()
        invariant
            a@.len() == b@.len(),
            i <= a@.len(),
            forall|j: int| 0 <= j < i ==> a@[j] == b@[j],
        decreases a@.len() - i,
    {
        if a[i] != b[i] {
            return false;
        }
        i = i + 1;
    }
    assert(a@ =~= b@);
    true
}

impl Art {
    /// Compares two images by value.
    pub fn same_as(&self, other: &Art) -> (r: bool)
        ensures
            r == (self@ == other@),
    {
        text_eq(&self.description, &other.description) && self.mime_type == other.mime_type
            && bytes_eq(&self.data, &other.data)
    }

    /// Copies an image by value.
    pub fn copy(&self) -> (r: Art)
        ensures
            r@ == self@,
    {
        let mut data: Vec<u8> = Vec::new();
        let mut i: usize = 0;
        while i < self.data.len()
            invariant
                i <= self.data@.len(),
                data@ == self.data@.subrange(0, i as int),
            decreases self.data@.len() - i,
        {
            data.push(self.data[i]);
            i = i + 1;
        }
        assert(data@ =~= self.data@);
        Art { description: copy_text(&self.description), mime_type: self.mime_type.clone(), data }
    }
}


pub open spec fn with_text(m: MetadataView, f: TextField, v: Option<Seq<char>>) -> MetadataView {
    match f {
        TextField::Title => MetadataView { title: v, ..m },
        TextField::Artist => MetadataView { artist: v, ..m },
        TextField::AlbumArtist => MetadataView { album_artist: v, ..m },
        TextField::Album => MetadataView { album: v, ..m },
        TextField::Genre => MetadataView { genre: v, ..m },
        TextField::Year => MetadataView { year: v, ..m },
        TextField::Composer => MetadataView { composer: v, ..m },
        TextField::Comment => MetadataView { comment: v, ..m },
        TextField::Copyright => MetadataView { copyright: v, ..m },
    }
}

pub open spec fn with_number(m: MetadataView, f: NumberField, v: Option<i32>) -> MetadataView {
    match f {
        NumberField::TrackNumber => MetadataView { track_number: v, ..m },
        NumberField::TrackTotal => MetadataView { track_total: v, ..m },
        NumberField::DiscNumber => MetadataView { disc_number: v, ..m },
        NumberField::DiscTotal => MetadataView { disc_total: v, ..m },
    }
}

/// Compares two optional image lists by value.
pub fn art_list_eq(a: &Option<Vec<Art>>, b: &Option<Vec<Art>>) -> (r: bool)
    ensures
        r == (art_list_view(*a) == art_list_view(*b)),
{
    match (a, b) {
        (Some(x), Some(y)) => {
            if x.len() != y.len() {
                assert(arts_view(x@).len() != arts_view(y@).len());
                assert(art_list_view(*a) != art_list_view(*b));
                return false;
            }
            let mut i: usize = 0;
            while i < x.len()
                invariant
                    x@.len() == y@.len(),
                    i <= x@.len(),
                    art_list_view(*a) == Some(arts_view(x@)),
                    art_list_view(*b) == Some(arts_view(y@)),
                    forall|j: int| 0 <= j < i ==> (#[trigger] x@[j])@ == y@[j]@,
                decreases x@.len() - i,
            {
                if !x[i].same_as(&y[i]) {
                    assert(arts_view(x@)[i as int] != arts_view(y@)[i as int]);
                    return false;
                }
                i = i + 1;
            }
            assert(arts_view(x@) =~= arts_view(y@));
            true
        },
        (None, None) => true,
        _ => false,
    }
}

/// Copies an optional image list by value.
pub fn copy_art_list(a: &Option<Vec<Art>>) -> (r: Option<Vec<Art>>)
    ensures
        art_list_view(r) == art_list_view(*a),
{
    match a {
        Some(x) => {
            let mut out: Vec<Art> = Vec::new();
            let mut i: usize = 0;
            while i < x.len()
                invariant
                    i <= x@.len(),
                    out@.len() == i,
                    forall|j: int| 0 <= j < i ==> (#[trigger] out@[j])@ == x@[j]@,
                decreases x@.len() - i,
            {
                out.push(x[i].copy());
                i = i + 1;
            }
            assert(arts_view(out@) =~= arts_view(x@));
            Some(out)
        },
        None => None,
    }
}

impl Default for MetadataContainer {
    /// A record with every field absent.
    fn default() -> (r: Self)
        ensures
            r@ == empty_view(),
    {
        MetadataContainer {
            title: None,
            artist: None,
            album_artist: None,
            album: None,
            track_number: None,
            track_total: None,
            genre: None,
            year: None,
            disc_number: None,
            disc_total: None,
            composer: None,
            comment: None,
            copyright: None,
            art: None,
        }
    }
}

pub open spec fn empty_view() -> MetadataView {
    MetadataView {
        title: None,
        artist: None,
        album_artist: None,
        album: None,
        track_number: None,
        track_total: None,
        genre: None,
        year: None,
        disc_number: None,
        disc_total: None,
        composer: None,
        comment: None,
        copyright: None,
        art: None,
    }
}

impl MetadataContainer {
    /// The value of a text field.
    pub fn text(&self, f: TextField) -> (r: &Option<String>)
        ensures
            text_view(*r) == text_of(self@, f),
    {
        match f {
            TextField::Title => &self.title,
            TextField::Artist => &self.artist,
            TextField::AlbumArtist => &self.album_artist,
            TextField::Album => &self.album,
            TextField::Genre => &self.genre,
            TextField::Year => &self.year,
            TextField::Composer => &self.composer,
            TextField::Comment => &self.comment,
            TextField::Copyright => &self.copyright,
        }
    }

    /// The value of a numeric field.
    pub fn number(&self, f: NumberField) -> (r: Option<i32>)
        ensures
            r == number_of(self@, f),
    {
        match f {
            NumberField::TrackNumber => self.track_number,
            NumberField::TrackTotal => self.track_total,
            NumberField::DiscNumber => self.disc_number,
            NumberField::DiscTotal => self.disc_total,
        }
    }

    /// Replaces the value of a text field.
    pub fn set_text(&mut self, f: TextField, v: Option<String>)
        ensures
            final(self)@ == with_text(old(self)@, f, text_view(v)),
    {
        match f {
            TextField::Title => self.title = v,
            TextField::Artist => self.artist = v,
            TextField::AlbumArtist => self.album_artist = v,
            TextField::Album => self.album = v,
            TextField::Genre => self.genre = v,
            TextField::Year => self.year = v,
            TextField::Composer => self.composer = v,
            TextField::Comment => self.comment = v,
            TextField::Copyright => self.copyright = v,
        }
    }

    /// Replaces the value of a numeric field.
    pub fn set_number(&mut self, f: NumberField, v: Option<i32>)
        ensures
            final(self)@ == with_number(old(self)@, f, v),
    {
        match f {
            NumberField::TrackNumber => self.track_number = v,
            NumberField::TrackTotal => self.track_total = v,
            NumberField::DiscNumber => self.disc_number = v,
            NumberField::DiscTotal => self.disc_total = v,
        }
    }

    /// Copies a record by value.
    pub fn copy(&self) -> (r: Self)
        ensures
            r@ == self@,
    {
        MetadataContainer {
            title: copy_text(&self.title),
            artist: copy_text(&self.artist),
            album_artist: copy_text(&self.album_artist),
            album: copy_text(&self.album),
            track_number: self.track_number,
            track_total: self.track_total,
            genre: copy_text(&self.genre),
            year: copy_text(&self.year),
            disc_number: self.disc_number,
            disc_total: self.disc_total,
            composer: copy_text(&self.composer),
            comment: copy_text(&self.comment),
            copyright: copy_text(&self.copyright),
            art: copy_art_list(&self.art),
        }
    }

    fn merged_text_of(containers: &[Self], f: TextField) -> (r: Option<String>)
        requires
            containers@.len() > 0,
        ensures
            text_view(r) == merged_text(records_view(containers@), f),
    {
        let ghost vals = records_view(containers@).map_values(|r: MetadataView| text_of(r, f));
        let first = containers[0].text(f);
        let mut i: usize = 1;
        while i < containers.len()
            invariant
                containers@.len() > 0,
                1 <= i <= containers@.len(),
                vals == records_view(containers@).map_values(|r: MetadataView| text_of(r, f)),
                text_view(*first) == vals[0],
                forall|j: int| 0 <= j < i ==> #[trigger] vals[j] == vals[0],
            decreases containers@.len() - i,
        {
            if !text_eq(containers[i].text(f), first) {
                assert(vals[i as int] != vals[0]);
                return Some(keep_text_value());
            }
            i = i + 1;
        }
        copy_text(first)
    }

    fn merged_number_of(containers: &[Self], f: NumberField) -> (r: Option<i32>)
        requires
            containers@.len() > 0,
        ensures
            r == merged_number(records_view(containers@), f),
    {
        let ghost vals = records_view(containers@).map_values(|r: MetadataView| number_of(r, f));
        let first = containers[0].number(f);
        let mut i: usize = 1;
        while i < containers.len()
            invariant
                containers@.len() > 0,
                1 <= i <= containers@.len(),
                vals == records_view(containers@).map_values(|r: MetadataView| number_of(r, f)),
                first == vals[0],
                forall|j: int| 0 <= j < i ==> #[trigger] vals[j] == vals[0],
            decreases containers@.len() - i,
        {
            if containers[i].number(f) != first {
                assert(vals[i as int] != vals[0]);
                return Some(KEEP_NUMBER);
            }
            i = i + 1;
        }
        first
    }

    fn merged_art_of(containers: &[Self]) -> (r: Option<Vec<Art>>)
        requires
            containers@.len() > 0,
        ensures
            art_list_view(r) == merged_art(records_view(containers@)),
    {
        let ghost vals = records_view(containers@).map_values(|r: MetadataView| r.art);
        let first = &containers[0].art;
        let mut i: usize = 1;
        while i < containers.len()
            invariant
                containers@.len() > 0,
                1 <= i <= containers@.len(),
                vals == records_view(containers@).map_values(|r: MetadataView| r.art),
                art_list_view(*first) == vals[0],
                forall|j: int| 0 <= j < i ==> #[trigger] vals[j] == vals[0],
            decreases containers@.len() - i,
        {
            if !art_list_eq(&containers[i].art, first) {
                assert(vals[i as int] != vals[0]);
                return None;
            }
            i = i + 1;
        }
        copy_art_list(first)
    }

    /// Folds a non-empty selection of records into one consolidated view.
    /// A field that all records share keeps that value; one on which two
    /// records differ holds the "keep" token (text) or `KEEP_NUMBER`
    /// (numbers); artwork on which two records differ is left absent.
    pub fn merge(containers: &[Self]) -> (r: Self)
        requires
            containers@.len() > 0,
        ensures
            r@ == merge_spec(records_view(containers@)),
    {
        MetadataContainer {
            title: Self::merged_text_of(containers, TextField::Title),
            artist: Self::merged_text_of(containers, TextField::Artist),
            album_artist: Self::merged_text_of(containers, TextField::AlbumArtist),
            album: Self::merged_text_of(containers, TextField::Album),
            track_number: Self::merged_number_of(containers, NumberField::TrackNumber),
            track_total: Self::merged_number_of(containers, NumberField::TrackTotal),
            genre: Self::merged_text_of(containers, TextField::Genre),
            year: Self::merged_text_of(containers, TextField::Year),
            disc_number: Self::merged_number_of(containers, NumberField::DiscNumber),
            disc_total: Self::merged_number_of(containers, NumberField::DiscTotal),
            composer: Self::merged_text_of(containers, TextField::Composer),
            comment: Self::merged_text_of(containers, TextField::Comment),
            copyright: Self::merged_text_of(containers, TextField::Copyright),
            art: Self::merged_art_of(containers),
        }
    }
}


/// A text field after write-back: the record's own value where the view
/// holds the "keep" token, the view's value otherwise.
pub open spec fn resolved_text(orig: Option<Seq<char>>, edited: Option<Seq<char>>) -> Option<Seq<char>> {
    if edited == Some(keep_text()) {
        orig
    } else {
        edited
    }
}

/// A numeric field after write-back: the record's own value where the view
/// holds `KEEP_NUMBER`, the view's value otherwise.
pub open spec fn resolved_number(orig: Option<i32>, edited: Option<i32>) -> Option<i32> {
    if edited == Some(KEEP_NUMBER) {
        orig
    } else {
        edited
    }
}

/// The record that `orig` becomes when the edited view `edited` is saved:
/// every scalar field follows `resolved_text` / `resolved_number`, and the
/// artwork is always the view's.
pub open spec fn resolve_spec(orig: MetadataView, edited: MetadataView) -> MetadataView {
    MetadataView {
        title: resolved_text(orig.title, edited.title),
        artist: resolved_text(orig.artist, edited.artist),
        album_artist: resolved_text(orig.album_artist, edited.album_artist),
        album: resolved_text(orig.album, edited.album),
        track_number: resolved_number(orig.track_number, edited.track_number),
        track_total: resolved_number(orig.track_total, edited.track_total),
        genre: resolved_text(orig.genre, edited.genre),
        year: resolved_text(orig.year, edited.year),
        disc_number: resolved_number(orig.disc_number, edited.disc_number),
        disc_total: resolved_number(orig.disc_total, edited.disc_total),
        composer: resolved_text(orig.composer, edited.composer),
        comment: resolved_text(orig.comment, edited.comment),
        copyright: resolved_text(orig.copyright, edited.copyright),
        art: edited.art,
    }
}

/// Whether an optional text is the "keep" token.
pub fn is_keep_text(t: &Option<String>) -> (r: bool)
    ensures
        r == (text_view(*t) == Some(keep_text())),
{
    match t {
        Some(s) => *s == keep_text_value(),
        None => false,
    }
}

fn replace_tag(current: &Option<String>, new: &Option<String>) -> (r: Option<String>)
    ensures
        text_view(r) == resolved_text(text_view(*current), text_view(*new)),
{
    if is_keep_text(new) {
        copy_text(current)
    } else {
        copy_text(new)
    }
}

fn replace_num_tag(current: Option<i32>, new: Option<i32>) -> (r: Option<i32>)
    ensures
        r == resolved_number(current, new),
{
    match new {
        Some(n) if n == KEEP_NUMBER => current,
        _ => new,
    }
}

impl MetadataContainer {
    /// The record to persist for `self` once the view `edited` is saved:
    /// fields of the view that hold the "keep" marker keep this record's
    /// value, all others take the view's value, and artwork is the view's.
    pub fn resolve(&self, edited: &Self) -> (r: Self)
        ensures
            r@ == resolve_spec(self@, edited@),
    {
        MetadataContainer {
            title: replace_tag(&self.title, &edited.title),
            artist: replace_tag(&self.artist, &edited.artist),
            album_artist: replace_tag(&self.album_artist, &edited.album_artist),
            album: replace_tag(&self.album, &edited.album),
            track_number: replace_num_tag(self.track_number, edited.track_number),
            track_total: replace_num_tag(self.track_total, edited.track_total),
            genre: replace_tag(&self.genre, &edited.genre),
            year: replace_tag(&self.year, &edited.year),
            disc_number: replace_num_tag(self.disc_number, edited.disc_number),
            disc_total: replace_num_tag(self.disc_total, edited.disc_total),
            composer: replace_tag(&self.composer, &edited.composer),
            comment: replace_tag(&self.comment, &edited.comment),
            copyright: replace_tag(&self.copyright, &edited.copyright),
            art: copy_art_list(&edited.art),
        }
    }
}


/// The MIME type that `mime_guess` registers first for a path's extension,
/// or `text/plain` where it knows none.
pub uninterp spec fn mime_type_of(path: Seq<char>) -> Seq<char>;

/// Relies on `mime_guess::from_path` and `MimeGuess::first_or_text_plain`:
/// the guess looks at the path's extension alone, so the result is a
/// function of the path.
#[verifier::external_body]
fn guess_mime_type(path: &str) -> (r: String)
    ensures
        r@ == mime_type_of(path@),
{
    mime_guess::from_path(path).first_or_text_plain().essence_str().to_string()
}

impl Art {
    /// The image read from the file at `path`, whose bytes are `data`: no
    /// description, and the MIME type guessed from the path's extension.
    pub fn from_path(path: &str, data: Vec<u8>) -> (r: Art)
        ensures
            r.description is None,
            r.mime_type@ == mime_type_of(path@),
            r.data@ == data@,
    {
        Art { description: None, mime_type: guess_mime_type(path), data }
    }
}

} // verus!
