//! How a field of the consolidated view is shown in a text entry, and how
//! what the user left in the entry is read back.

use vstd::prelude::*;

use crate::decimal::{decimal, format_i32, lemma_parse_decimal, parse_i32, parse_i32_spec};
use crate::error::TagError;
use crate::metadata::{copy_text, is_keep_text, keep_text, keep_text_value, text_view, KEEP_NUMBER};

verus! {

/// A text entry: the text typed in it, and the greyed hint shown while it is
/// empty. A hint marks a field whose records differ.
#[derive(Clone, Debug, PartialEq, Eq)]
pub struct EntryState {
    pub text: String,
    pub placeholder: Option<String>,
}

/// What an entry holds, by value.
pub ghost struct EntryView {
    pub text: Seq<char>,
    pub placeholder: Option<Seq<char>>,
}

impl View for EntryState {
    type V = EntryView;

    open spec fn view(&self) -> EntryView {
        EntryView { text: self.text@, placeholder: text_view(self.placeholder) }
    }
}

/// The entry for a text field: the "keep" token becomes an empty entry with
/// the token as its hint, an absent value an empty entry, any other value
/// the entry's text.
pub open spec fn text_entry_spec(v: Option<Seq<char>>) -> EntryView {
    match v {
        Some(s) => if s == keep_text() {
            EntryView { text: Seq::empty(), placeholder: Some(s) }
        } else {
            EntryView { text: s, placeholder: None }
        },
        None => EntryView { text: Seq::empty(), placeholder: None },
    }
}

/// The entry for a numeric field: `KEEP_NUMBER` becomes an empty entry with
/// the "keep" token as its hint, an absent value an empty entry, any other
/// value its decimal form.
pub open spec fn number_entry_spec(v: Option<i32>) -> EntryView {
    match v {
        Some(n) => if n == KEEP_NUMBER {
            EntryView { text: Seq::empty(), placeholder: Some(keep_text()) }
        } else {
            EntryView { text: decimal(n as int), placeholder: None }
        },
        None => EntryView { text: Seq::empty(), placeholder: None },
    }
}

/// The text field that an entry stands for: its hint where it is empty and
/// has one, its text where that is not empty, and absent otherwise.
pub open spec fn text_from_entry_spec(e: EntryView) -> Option<Seq<char>> {
    if e.placeholder.is_some() && e.text.len() == 0 {
        e.placeholder
    } else if e.text.len() > 0 {
        Some(e.text)
    } else {
        None
    }
}

/// The numeric field that an entry stands for: `KEEP_NUMBER` where it is
/// empty and has a hint, the parse of its text where that is not empty
/// (`None` where it does not parse), and absent otherwise.
pub open spec fn number_from_entry_spec(e: EntryView) -> Option<Option<i32>> {
    if e.placeholder.is_some() && e.text.len() == 0 {
        Some(Some(KEEP_NUMBER))
    } else if e.text.len() > 0 {
        match parse_i32_spec(e.text) {
            Some(n) => Some(Some(n)),
            None => None,
        }
    } else {
        Some(None)
    }
}

/// Shows a text field in an entry.
pub fn entry_for_text(v: &Option<String>) -> (r: EntryState)
    ensures
        r@ == text_entry_spec(text_view(*v)),
{
    match v {
        Some(s) => if is_keep_text(v) {
            EntryState { text: String::new(), placeholder: Some(s.clone()) }
        } else {
            EntryState { text: s.clone(), placeholder: None }
        },
        None => EntryState { text: String::new(), placeholder: None },
    }
}

/// Shows a numeric field in an entry.
pub fn entry_for_number(v: Option<i32>) -> (r: EntryState)
    ensures
        r@ == number_entry_spec(v),
{
    match v {
        Some(n) => if n == KEEP_NUMBER {
            EntryState { text: String::new(), placeholder: Some(keep_text_value()) }
        } else {
            EntryState { text: format_i32(n), placeholder: None }
        },
        None => EntryState { text: String::new(), placeholder: None },
    }
}

/// Reads a text field back from an entry.
pub fn text_from_entry(e: &EntryState) -> (r: Option<String>)
    ensures
        text_view(r) == text_from_entry_spec(e@),
{
    let empty = e.text.as_str().unicode_len() == 0;
    if e.placeholder.is_some() && empty {
        copy_text(&e.placeholder)
    } else if !empty {
        Some(e.text.clone())
    } else {
        None
    }
}

/// Reads a numeric field back from an entry; text that is not an `i32`
/// gives `ParseError`.
pub fn number_from_entry(e: &EntryState) -> (r: Result<Option<i32>, TagError>)
    ensures
        number_from_entry_spec(e@) matches Some(v) ==> r == Ok::<Option<i32>, TagError>(v),
        number_from_entry_spec(e@) is None ==> r == Err::<Option<i32>, TagError>(TagError::ParseError),
{
    let empty = e.text.as_str().unicode_len() == 0;
    if e.placeholder.is_some() && empty {
        Ok(Some(KEEP_NUMBER))
    } else if !empty {
        match parse_i32(e.text.as_str()) {
            Some(n) => Ok(Some(n)),
            None => Err(TagError::ParseError),
        }
    } else {
        Ok(None)
    }
}

/// Showing a text field in an entry and reading it back gives the field's
/// value, except a present but empty text, which reads back as absent.
pub proof fn lemma_text_entry_round_trip(v: Option<Seq<char>>)
    requires
        v != Some(Seq::<char>::empty()),
    ensures
        text_from_entry_spec(text_entry_spec(v)) == v,
{
    if let Some(s) = v {
        if s.len() == 0 {
            assert(s =~= Seq::<char>::empty());
        }
    }
}

/// Showing a numeric field in an entry and reading it back gives the
/// field's value.
pub proof fn lemma_number_entry_round_trip(v: Option<i32>)
    ensures
        number_from_entry_spec(number_entry_spec(v)) == Some(v),
{
    if let Some(n) = v {
        if n != KEEP_NUMBER {
            lemma_parse_decimal(n);
            crate::decimal::lemma_decimal_nonempty(n as int);
        }
    }
}

} // verus!
