use vstd::prelude::*;

use crate::metadata::{
    agreed, keep_text, merge_spec, number_of, resolve_spec, resolved_number, resolved_text,
    text_of, ArtView, MetadataView, NumberField, TextField, KEEP_NUMBER,
};

verus! {

proof fn lemma_text_of_resolve(orig: MetadataView, edited: MetadataView, f: TextField)
    ensures
        text_of(resolve_spec(orig, edited), f) == resolved_text(text_of(orig, f), text_of(edited, f)),
{
}

proof fn lemma_number_of_resolve(orig: MetadataView, edited: MetadataView, f: NumberField)
    ensures
        number_of(resolve_spec(orig, edited), f) == resolved_number(
            number_of(orig, f),
            number_of(edited, f),
        ),
{
}

proof fn lemma_text_of_merge(recs: Seq<MetadataView>, f: TextField)
    ensures
        text_of(merge_spec(recs), f) == agreed(
            recs.map_values(|r: MetadataView| text_of(r, f)),
            Some(keep_text()),
        ),
{
}

proof fn lemma_number_of_merge(recs: Seq<MetadataView>, f: NumberField)
    ensures
        number_of(merge_spec(recs), f) == agreed(
            recs.map_values(|r: MetadataView| number_of(r, f)),
            Some(KEEP_NUMBER),
        ),
{
}

/// Merging a single record gives that record back, field for field,
/// artwork included.
pub proof fn lemma_merge_single(r: MetadataView)
    ensures
        merge_spec(seq![r]) == r,
{
    let recs = seq![r];
    assert forall|f: TextField| #[trigger] text_of(merge_spec(recs), f) == text_of(r, f) by {
        lemma_text_of_merge(recs, f);
        let vals = recs.map_values(|x: MetadataView| text_of(x, f));
        assert(vals[0] == text_of(r, f));
    }
    assert forall|f: NumberField| #[trigger] number_of(merge_spec(recs), f) == number_of(r, f) by {
        lemma_number_of_merge(recs, f);
        let vals = recs.map_values(|x: MetadataView| number_of(x, f));
        assert(vals[0] == number_of(r, f));
    }
    let arts = recs.map_values(|x: MetadataView| x.art);
    assert(arts[0] == r.art);
    assert(text_of(merge_spec(recs), TextField::Title) == text_of(r, TextField::Title));
    assert(text_of(merge_spec(recs), TextField::Artist) == text_of(r, TextField::Artist));
    assert(text_of(merge_spec(recs), TextField::AlbumArtist) == text_of(r, TextField::AlbumArtist));
    assert(text_of(merge_spec(recs), TextField::Album) == text_of(r, TextField::Album));
    assert(text_of(merge_spec(recs), TextField::Genre) == text_of(r, TextField::Genre));
    assert(text_of(merge_spec(recs), TextField::Year) == text_of(r, TextField::Year));
    assert(text_of(merge_spec(recs), TextField::Composer) == text_of(r, TextField::Composer));
    assert(text_of(merge_spec(recs), TextField::Comment) == text_of(r, TextField::Comment));
    assert(text_of(merge_spec(recs), TextField::Copyright) == text_of(r, TextField::Copyright));
    assert(number_of(merge_spec(recs), NumberField::TrackNumber) == number_of(r, NumberField::TrackNumber));
    assert(number_of(merge_spec(recs), NumberField::TrackTotal) == number_of(r, NumberField::TrackTotal));
    assert(number_of(merge_spec(recs), NumberField::DiscNumber) == number_of(r, NumberField::DiscNumber));
    assert(number_of(merge_spec(recs), NumberField::DiscTotal) == number_of(r, NumberField::DiscTotal));
}

/// A text field on which every record of a selection agrees keeps that
/// value in the merged view (the all-absent case included).
pub proof fn lemma_merge_keeps_shared_text(
    recs: Seq<MetadataView>,
    f: TextField,
    v: Option<Seq<char>>,
)
    requires
        recs.len() > 0,
        forall|i: int| 0 <= i < recs.len() ==> text_of(#[trigger] recs[i], f) == v,
    ensures
        text_of(merge_spec(recs), f) == v,
{
    lemma_text_of_merge(recs, f);
    let vals = recs.map_values(|x: MetadataView| text_of(x, f));
    assert(vals[0] == v);
    assert(forall|i: int| 0 <= i < vals.len() ==> #[trigger] vals[i] == text_of(recs[i], f));
}

/// A numeric field on which every record of a selection agrees keeps that
/// value in the merged view (the all-absent case included).
pub proof fn lemma_merge_keeps_shared_number(
    recs: Seq<MetadataView>,
    f: NumberField,
    v: Option<i32>,
)
    requires
        recs.len() > 0,
        forall|i: int| 0 <= i < recs.len() ==> number_of(#[trigger] recs[i], f) == v,
    ensures
        number_of(merge_spec(recs), f) == v,
{
    lemma_number_of_merge(recs, f);
    let vals = recs.map_values(|x: MetadataView| number_of(x, f));
    assert(vals[0] == v);
    assert(forall|i: int| 0 <= i < vals.len() ==> #[trigger] vals[i] == number_of(recs[i], f));
}

/// Artwork on which every record of a selection agrees stays in the merged
/// view (the all-absent case included).
pub proof fn lemma_merge_keeps_shared_art(recs: Seq<MetadataView>, v: Option<Seq<ArtView>>)
    requires
        recs.len() > 0,
        forall|i: int| 0 <= i < recs.len() ==> (#[trigger] recs[i]).art == v,
    ensures
        merge_spec(recs).art == v,
{
    let vals = recs.map_values(|x: MetadataView| x.art);
    assert(vals[0] == v);
    assert(forall|i: int| 0 <= i < vals.len() ==> #[trigger] vals[i] == recs[i].art);
}

/// A text field on which two records of a selection differ holds the
/// "keep" token in the merged view.
pub proof fn lemma_merge_marks_text_conflict(recs: Seq<MetadataView>, f: TextField, i: int, j: int)
    requires
        0 <= i < recs.len(),
        0 <= j < recs.len(),
        text_of(recs[i], f) != text_of(recs[j], f),
    ensures
        text_of(merge_spec(recs), f) == Some(keep_text()),
{
    lemma_text_of_merge(recs, f);
    let vals = recs.map_values(|x: MetadataView| text_of(x, f));
    assert(vals[i] != vals[j]);
}

/// A numeric field on which two records of a selection differ holds
/// `KEEP_NUMBER` in the merged view.
pub proof fn lemma_merge_marks_number_conflict(
    recs: Seq<MetadataView>,
    f: NumberField,
    i: int,
    j: int,
)
    requires
        0 <= i < recs.len(),
        0 <= j < recs.len(),
        number_of(recs[i], f) != number_of(recs[j], f),
    ensures
        number_of(merge_spec(recs), f) == Some(KEEP_NUMBER),
{
    lemma_number_of_merge(recs, f);
    let vals = recs.map_values(|x: MetadataView| number_of(x, f));
    assert(vals[i] != vals[j]);
}

/// Artwork on which two records of a selection differ is absent from the
/// merged view.
pub proof fn lemma_merge_drops_art_conflict(recs: Seq<MetadataView>, i: int, j: int)
    requires
        0 <= i < recs.len(),
        0 <= j < recs.len(),
        recs[i].art != recs[j].art,
    ensures
        merge_spec(recs).art == None::<Seq<ArtView>>,
{
    let vals = recs.map_values(|x: MetadataView| x.art);
    assert(vals[i] != vals[j]);
}

proof fn lemma_agreed_same_values<T>(a: Seq<T>, b: Seq<T>, s: T)
    requires
        a.len() > 0,
        b.len() > 0,
        forall|x: T| a.contains(x) <==> b.contains(x),
    ensures
        agreed(a, s) == agreed(b, s),
{
    assert(a.contains(a[0]));
    assert(b.contains(b[0]));
    if forall|i: int| 0 <= i < a.len() ==> #[trigger] a[i] == a[0] {
        assert forall|j: int| 0 <= j < b.len() implies #[trigger] b[j] == a[0] by {
            assert(b.contains(b[j]));
        }
    } else {
        let i = choose|i: int| 0 <= i < a.len() && #[trigger] a[i] != a[0];
        assert(a.contains(a[i]));
        let p = choose|p: int| 0 <= p < b.len() && b[p] == a[i];
        let q = choose|q: int| 0 <= q < b.len() && b[q] == a[0];
        assert(b[p] != b[0] || b[q] != b[0]);
    }
}

proof fn lemma_mapped_same_values<T>(a: Seq<MetadataView>, b: Seq<MetadataView>, g: spec_fn(MetadataView) -> T)
    requires
        forall|x: MetadataView| a.contains(x) <==> b.contains(x),
    ensures
        forall|y: T| a.map_values(g).contains(y) <==> b.map_values(g).contains(y),
{
    assert forall|y: T| a.map_values(g).contains(y) implies b.map_values(g).contains(y) by {
        let i = choose|i: int| 0 <= i < a.map_values(g).len() && a.map_values(g)[i] == y;
        assert(a.contains(a[i]));
        let j = choose|j: int| 0 <= j < b.len() && b[j] == a[i];
        assert(b.map_values(g)[j] == y);
    }
    assert forall|y: T| b.map_values(g).contains(y) implies a.map_values(g).contains(y) by {
        let i = choose|i: int| 0 <= i < b.map_values(g).len() && b.map_values(g)[i] == y;
        assert(b.contains(b[i]));
        let j = choose|j: int| 0 <= j < a.len() && a[j] == b[i];
        assert(a.map_values(g)[j] == y);
    }
}

/// Merging depends only on which records are selected, not on their order
/// or on how often each one appears.
pub proof fn lemma_merge_order_independent(a: Seq<MetadataView>, b: Seq<MetadataView>)
    requires
        a.len() > 0,
        b.len() > 0,
        forall|x: MetadataView| a.contains(x) <==> b.contains(x),
    ensures
        merge_spec(a) == merge_spec(b),
{
    assert forall|f: TextField| #[trigger] text_of(merge_spec(a), f) == text_of(merge_spec(b), f) by {
        let g = |r: MetadataView| text_of(r, f);
        lemma_mapped_same_values(a, b, g);
        lemma_agreed_same_values(a.map_values(g), b.map_values(g), Some(keep_text()));
        lemma_text_of_merge(a, f);
        lemma_text_of_merge(b, f);
    }
    assert forall|f: NumberField| #[trigger] number_of(merge_spec(a), f) == number_of(merge_spec(b), f) by {
        let g = |r: MetadataView| number_of(r, f);
        lemma_mapped_same_values(a, b, g);
        lemma_agreed_same_values(a.map_values(g), b.map_values(g), Some(KEEP_NUMBER));
        lemma_number_of_merge(a, f);
        lemma_number_of_merge(b, f);
    }
    let g = |r: MetadataView| r.art;
    lemma_mapped_same_values(a, b, g);
    lemma_agreed_same_values(a.map_values(g), b.map_values(g), None);
    assert(text_of(merge_spec(a), TextField::Title) == text_of(merge_spec(b), TextField::Title));
    assert(text_of(merge_spec(a), TextField::Artist) == text_of(merge_spec(b), TextField::Artist));
    assert(text_of(merge_spec(a), TextField::AlbumArtist) == text_of(merge_spec(b), TextField::AlbumArtist));
    assert(text_of(merge_spec(a), TextField::Album) == text_of(merge_spec(b), TextField::Album));
    assert(text_of(merge_spec(a), TextField::Genre) == text_of(merge_spec(b), TextField::Genre));
    assert(text_of(merge_spec(a), TextField::Year) == text_of(merge_spec(b), TextField::Year));
    assert(text_of(merge_spec(a), TextField::Composer) == text_of(merge_spec(b), TextField::Composer));
    assert(text_of(merge_spec(a), TextField::Comment) == text_of(merge_spec(b), TextField::Comment));
    assert(text_of(merge_spec(a), TextField::Copyright) == text_of(merge_spec(b), TextField::Copyright));
    assert(number_of(merge_spec(a), NumberField::TrackNumber) == number_of(merge_spec(b), NumberField::TrackNumber));
    assert(number_of(merge_spec(a), NumberField::TrackTotal) == number_of(merge_spec(b), NumberField::TrackTotal));
    assert(number_of(merge_spec(a), NumberField::DiscNumber) == number_of(merge_spec(b), NumberField::DiscNumber));
    assert(number_of(merge_spec(a), NumberField::DiscTotal) == number_of(merge_spec(b), NumberField::DiscTotal));
}

/// Saving the merged view of a selection unedited gives every record back
/// unchanged, provided the records agree on their artwork (artwork that
/// differs is absent from the view, and artwork is always overwritten).
pub proof fn lemma_unedited_save_is_identity(recs: Seq<MetadataView>, k: int)
    requires
        0 <= k < recs.len(),
        forall|i: int| 0 <= i < recs.len() ==> (#[trigger] recs[i]).art == recs[k].art,
    ensures
        resolve_spec(recs[k], merge_spec(recs)) == recs[k],
{
    let m = merge_spec(recs);
    let r = recs[k];
    assert forall|f: TextField| #[trigger] text_of(resolve_spec(r, m), f) == text_of(r, f) by {
        lemma_text_of_resolve(r, m, f);
        lemma_text_of_merge(recs, f);
        let vals = recs.map_values(|x: MetadataView| text_of(x, f));
        assert(vals[k] == text_of(r, f));
    }
    assert forall|f: NumberField| #[trigger] number_of(resolve_spec(r, m), f) == number_of(r, f) by {
        lemma_number_of_resolve(r, m, f);
        lemma_number_of_merge(recs, f);
        let vals = recs.map_values(|x: MetadataView| number_of(x, f));
        assert(vals[k] == number_of(r, f));
    }
    lemma_merge_keeps_shared_art(recs, r.art);
    assert(text_of(resolve_spec(r, m), TextField::Title) == text_of(r, TextField::Title));
    assert(text_of(resolve_spec(r, m), TextField::Artist) == text_of(r, TextField::Artist));
    assert(text_of(resolve_spec(r, m), TextField::AlbumArtist) == text_of(r, TextField::AlbumArtist));
    assert(text_of(resolve_spec(r, m), TextField::Album) == text_of(r, TextField::Album));
    assert(text_of(resolve_spec(r, m), TextField::Genre) == text_of(r, TextField::Genre));
    assert(text_of(resolve_spec(r, m), TextField::Year) == text_of(r, TextField::Year));
    assert(text_of(resolve_spec(r, m), TextField::Composer) == text_of(r, TextField::Composer));
    assert(text_of(resolve_spec(r, m), TextField::Comment) == text_of(r, TextField::Comment));
    assert(text_of(resolve_spec(r, m), TextField::Copyright) == text_of(r, TextField::Copyright));
    assert(number_of(resolve_spec(r, m), NumberField::TrackNumber) == number_of(r, NumberField::TrackNumber));
    assert(number_of(resolve_spec(r, m), NumberField::TrackTotal) == number_of(r, NumberField::TrackTotal));
    assert(number_of(resolve_spec(r, m), NumberField::DiscNumber) == number_of(r, NumberField::DiscNumber));
    assert(number_of(resolve_spec(r, m), NumberField::DiscTotal) == number_of(r, NumberField::DiscTotal));
}

/// A text field set in the view to anything but the "keep" token is written
/// to every record as it stands.
pub proof fn lemma_edited_text_is_broadcast(orig: MetadataView, edited: MetadataView, f: TextField)
    requires
        text_of(edited, f) != Some(keep_text()),
    ensures
        text_of(resolve_spec(orig, edited), f) == text_of(edited, f),
{
    lemma_text_of_resolve(orig, edited, f);
}

/// A numeric field set in the view to anything but `KEEP_NUMBER` is written
/// to every record as it stands.
pub proof fn lemma_edited_number_is_broadcast(
    orig: MetadataView,
    edited: MetadataView,
    f: NumberField,
)
    requires
        number_of(edited, f) != Some(KEEP_NUMBER),
    ensures
        number_of(resolve_spec(orig, edited), f) == number_of(edited, f),
{
    lemma_number_of_resolve(orig, edited, f);
}

/// Saving a view writes its artwork to every record, whatever artwork the
/// record had.
pub proof fn lemma_art_always_overwrites(orig: MetadataView, edited: MetadataView)
    ensures
        resolve_spec(orig, edited).art == edited.art,
{
}

} // verus!
