//! The two preferences that outlive a session: an access token and the
//! default description of a pull request.
//!
//! A `PreferenceRecord` holds what is stored. The rules by which an answer
//! replaces a stored value are spec functions here; the functions that apply
//! them stand with the other entry points of the library.
use crate::text::{is_blank, lemma_trimmed_twice, trimmed};
use vstd::prelude::*;
use vstd::string::*;

verus! {

/// What a record holds, as plain values. A value that was never written is
/// absent.
pub struct RecordView {
    pub token: Option<Seq<char>>,
    pub description: Option<Seq<char>>,
}

/// Why a preference could not be read.
#[derive(Clone, Copy, Debug, PartialEq, Eq, Structural)]
pub enum StoreError {
    /// The preference was never written.
    NotFound,
}

/// The record in which nothing was written yet.
pub open spec fn empty_store() -> RecordView {
    RecordView { token: None, description: None }
}

/// Whether an answer holds a value to store: it is present and not blank.
pub open spec fn holds_value(input: Option<Seq<char>>) -> bool {
    match input {
        Some(s) => !is_blank(s),
        None => false,
    }
}

/// What reading a preference gives: its value, or `NotFound` where it was
/// never written.
pub open spec fn fetched(value: Option<Seq<char>>) -> Result<Seq<char>, StoreError> {
    match value {
        Some(s) => Ok(s),
        None => Err(StoreError::NotFound),
    }
}

/// Whether the answer `input` replaces the token: whenever it holds a value.
pub open spec fn token_written(input: Option<Seq<char>>) -> bool {
    holds_value(input)
}

/// The record after the answer `input` to the question for a token: the
/// trimmed answer replaces the token, or nothing changes.
pub open spec fn after_token(store: RecordView, input: Option<Seq<char>>) -> RecordView {
    if token_written(input) {
        RecordView { token: Some(trimmed(input->0)), ..store }
    } else {
        store
    }
}

/// The description that an editor starts from: the stored one, or the empty
/// text.
pub open spec fn current_description(store: RecordView) -> Seq<char> {
    match store.description {
        Some(s) => s,
        None => Seq::empty(),
    }
}

/// Whether the answer `input` replaces the description: it holds a value,
/// and that value, trimmed, differs from the stored one.
pub open spec fn description_written(store: RecordView, input: Option<Seq<char>>) -> bool {
    holds_value(input) && trimmed(input->0) != current_description(store)
}

/// The record after the answer `input` to the question for a description: the
/// trimmed answer replaces the description, or nothing changes.
pub open spec fn after_description(store: RecordView, input: Option<Seq<char>>) -> RecordView {
    if description_written(store, input) {
        RecordView { description: Some(trimmed(input->0)), ..store }
    } else {
        store
    }
}

/// What a file that was found stands for: its text, or an absent value where
/// the file is missing or empty.
pub open spec fn stored(found: Option<Seq<char>>) -> Option<Seq<char>> {
    match found {
        Some(s) if s.len() > 0 => Some(s),
        _ => None,
    }
}

/// An absent or empty answer writes no token and leaves the record as it was.
pub proof fn lemma_empty_token_keeps_store(store: RecordView, input: Option<Seq<char>>)
    requires
        input matches Some(s) ==> s.len() == 0,
    ensures
        !token_written(input),
        after_token(store, input) == store,
{
}

/// A stored token is read back trimmed, whatever was stored before.
pub proof fn lemma_token_last_write_wins(store: RecordView, input: Option<Seq<char>>)
    requires
        holds_value(input),
    ensures
        fetched(after_token(store, input).token) == Ok::<Seq<char>, StoreError>(
            trimmed(input->0),
        ),
        after_token(store, input).description == store.description,
        after_token(after_token(store, input), input) == after_token(store, input),
{
    lemma_trimmed_twice(input->0);
}

/// A description that holds a value and differs, once trimmed, from the
/// stored one is written by the first of two equal answers and not by the
/// second, and is then read back trimmed.
pub proof fn lemma_description_written_once(store: RecordView, text: Seq<char>)
    requires
        !is_blank(text),
        store.description != Some(trimmed(text)),
    ensures
        description_written(store, Some(text)),
        !description_written(after_description(store, Some(text)), Some(text)),
        fetched(
            after_description(
                after_description(store, Some(text)),
                Some(text),
            ).description,
        ) == Ok::<Seq<char>, StoreError>(trimmed(text)),
        after_description(store, Some(text)).token == store.token,
{
}

/// A description without white space at either end, which holds a value and
/// differs from the stored one, is read back as it was given.
pub proof fn lemma_description_read_back(store: RecordView, text: Seq<char>)
    requires
        text.len() > 0,
        trimmed(text) == text,
        store.description != Some(text),
    ensures
        description_written(store, Some(text)),
        !description_written(after_description(store, Some(text)), Some(text)),
        fetched(
            after_description(
                after_description(store, Some(text)),
                Some(text),
            ).description,
        ) == Ok::<Seq<char>, StoreError>(text),
{
    lemma_description_written_once(store, text);
}

/// A description that is already stored, with or without white space around
/// it in the answer, is not written again.
pub proof fn lemma_same_description_not_written(store: RecordView, text: Seq<char>)
    requires
        store.description == Some(trimmed(text)),
    ensures
        !description_written(store, Some(text)),
        after_description(store, Some(text)) == store,
{
}

/// A file that is missing and a file that is empty are both read as
/// `NotFound`; any other file is read as its text.
pub proof fn lemma_empty_file_not_found(found: Option<Seq<char>>)
    ensures
        (found is None || found->0.len() == 0) ==> fetched(stored(found)) == Err::<
            Seq<char>,
            StoreError,
        >(StoreError::NotFound),
        found is Some && found->0.len() > 0 ==> fetched(stored(found)) == Ok::<
            Seq<char>,
            StoreError,
        >(found->0),
{
}

/// Nothing can be read from a record in which nothing was written.
pub proof fn lemma_empty_store_not_found()
    ensures
        fetched(empty_store().token) == Err::<Seq<char>, StoreError>(StoreError::NotFound),
        fetched(empty_store().description) == Err::<Seq<char>, StoreError>(
            StoreError::NotFound,
        ),
{
}

/// The stored preferences. Each value is absent until it is first written,
/// and a write replaces it whole.
#[derive(Clone, Debug)]
pub struct PreferenceRecord {
    token: Option<String>,
    description: Option<String>,
}

impl View for PreferenceRecord {
    type V = RecordView;

    closed spec fn view(&self) -> RecordView {
        RecordView {
            token: match self.token {
                Some(s) => Some(s@),
                None => None,
            },
            description: match self.description {
                Some(s) => Some(s@),
                None => None,
            },
        }
    }
}

impl PreferenceRecord {
    /// A value that is there is never the empty text.
    pub open spec fn wf(&self) -> bool {
        &&& self@.token matches Some(token) ==> token.len() > 0
        &&& self@.description matches Some(text) ==> text.len() > 0
    }

    /// The record in which nothing was written yet.
    pub fn new() -> (r: PreferenceRecord)
        ensures
            r@ == empty_store(),
            r.wf(),
    {
        PreferenceRecord { token: None, description: None }
    }

    /// The record of what was found in storage. A file that is missing and a
    /// file that is empty both stand for a value that was never written.
    pub fn load(token: Option<String>, description: Option<String>) -> (r: PreferenceRecord)
        ensures
            r@.token == stored(
                match token {
                    Some(s) => Some(s@),
                    None => None,
                },
            ),
            r@.description == stored(
                match description {
                    Some(s) => Some(s@),
                    None => None,
                },
            ),
            r.wf(),
    {
        let token = match token {
            Some(s) => if s.as_str().unicode_len() == 0 {
                None
            } else {
                Some(s)
            },
            None => None,
        };
        let description = match description {
            Some(s) => if s.as_str().unicode_len() == 0 {
                None
            } else {
                Some(s)
            },
            None => None,
        };
        PreferenceRecord { token, description }
    }

    /// The stored token, if one was written.
    pub fn token(&self) -> (r: Option<&str>)
        ensures
            r is Some <==> self@.token is Some,
            r matches Some(s) ==> self@.token == Some(s@),
    {
        match &self.token {
            Some(s) => Some(s.as_str()),
            None => None,
        }
    }

    /// The stored description, if one was written.
    pub fn description(&self) -> (r: Option<&str>)
        ensures
            r is Some <==> self@.description is Some,
            r matches Some(s) ==> self@.description == Some(s@),
    {
        match &self.description {
            Some(s) => Some(s.as_str()),
            None => None,
        }
    }

    /// Replaces the token.
    pub(crate) fn put_token(&mut self, value: String)
        ensures
            final(self)@ == (RecordView { token: Some(value@), ..old(self)@ }),
    {
        self.token = Some(value);
    }

    /// Replaces the description.
    pub(crate) fn put_description(&mut self, value: String)
        ensures
            final(self)@ == (RecordView { description: Some(value@), ..old(self)@ }),
    {
        self.description = Some(value);
    }
}

} // verus!
