//! What can go wrong, and how it is told to the user.

use vstd::prelude::*;

verus! {

/// A lookup or a submission that got no usable answer. Each kind carries the
/// cause as text.
#[derive(Debug, PartialEq, Eq)]
pub enum FetchError {
    /// The service was not reached, or the connection broke.
    Network(String),
    /// The answer came, and was not of the expected shape.
    Decode(String),
}

pub enum FetchErrorView {
    Network(Seq<char>),
    Decode(Seq<char>),
}

impl View for FetchError {
    type V = FetchErrorView;

    open spec fn view(&self) -> FetchErrorView {
        match self {
            FetchError::Network(cause) => FetchErrorView::Network(cause@),
            FetchError::Decode(cause) => FetchErrorView::Decode(cause@),
        }
    }
}

impl FetchErrorView {
    pub open spec fn cause(self) -> Seq<char> {
        match self {
            FetchErrorView::Network(cause) => cause,
            FetchErrorView::Decode(cause) => cause,
        }
    }
}

impl FetchError {
    /// The cause, as text.
    pub fn cause(&self) -> (text: &String)
        ensures
            text@ == self@.cause(),
    {
        match self {
            FetchError::Network(cause) => cause,
            FetchError::Decode(cause) => cause,
        }
    }

    /// A copy of the error.
    pub fn duplicate(&self) -> (copy: FetchError)
        ensures
            copy@ == self@,
    {
        match self {
            FetchError::Network(cause) => FetchError::Network(cause.clone()),
            FetchError::Decode(cause) => FetchError::Decode(cause.clone()),
        }
    }
}

/// Why no note was made.
#[derive(Debug, PartialEq, Eq)]
pub enum SynthesisError {
    /// The dictionary lookup failed.
    Dictionary(FetchError),
    /// The dictionary answered, with no entry.
    EmptyResult,
    /// A kanji lookup failed: the first one in the word's order that did.
    Character(FetchError),
    /// The picture could not be written; the cause as text.
    Picture(String),
}

pub enum SynthesisErrorView {
    Dictionary(FetchErrorView),
    EmptyResult,
    Character(FetchErrorView),
    Picture(Seq<char>),
}

impl View for SynthesisError {
    type V = SynthesisErrorView;

    open spec fn view(&self) -> SynthesisErrorView {
        match self {
            SynthesisError::Dictionary(e) => SynthesisErrorView::Dictionary(e@),
            SynthesisError::EmptyResult => SynthesisErrorView::EmptyResult,
            SynthesisError::Character(e) => SynthesisErrorView::Character(e@),
            SynthesisError::Picture(cause) => SynthesisErrorView::Picture(cause@),
        }
    }
}

impl SynthesisErrorView {
    /// The line shown to the user.
    pub open spec fn message(self) -> Seq<char> {
        match self {
            SynthesisErrorView::Dictionary(e) => "Error when calling jisho: "@ + e.cause(),
            SynthesisErrorView::EmptyResult =>
                "No data found for the requested input. Try again with something else"@,
            SynthesisErrorView::Character(e) => "Error when calling kanjiapi: "@ + e.cause(),
            SynthesisErrorView::Picture(cause) => "Error happened when saving picture: "@ + cause
                + "\n"@,
        }
    }
}

impl SynthesisError {
    /// The line shown to the user: the stage that failed, then the cause.
    pub fn message(&self) -> (text: String)
        ensures
            text@ == self@.message(),
    {
        match self {
            SynthesisError::Dictionary(e) => {
                let mut text = String::from_str("Error when calling jisho: ");
                text.append(e.cause().as_str());
                text
            },
            SynthesisError::EmptyResult => String::from_str(
                "No data found for the requested input. Try again with something else",
            ),
            SynthesisError::Character(e) => {
                let mut text = String::from_str("Error when calling kanjiapi: ");
                text.append(e.cause().as_str());
                text
            },
            SynthesisError::Picture(cause) => {
                let mut text = String::from_str("Error happened when saving picture: ");
                text.append(cause.as_str());
                text.append("\n");
                text
            },
        }
    }
}

/// Why a note was not stored.
#[derive(Debug, PartialEq, Eq)]
pub enum SubmitError {
    /// The card database was not reached.
    Network(String),
    /// Its answer was not of the expected shape.
    Decode(String),
    /// It answered, and refused the request; its reason as text.
    RemoteRejection(String),
}

pub enum SubmitErrorView {
    Network(Seq<char>),
    Decode(Seq<char>),
    RemoteRejection(Seq<char>),
}

impl View for SubmitError {
    type V = SubmitErrorView;

    open spec fn view(&self) -> SubmitErrorView {
        match self {
            SubmitError::Network(cause) => SubmitErrorView::Network(cause@),
            SubmitError::Decode(cause) => SubmitErrorView::Decode(cause@),
            SubmitError::RemoteRejection(reason) => SubmitErrorView::RemoteRejection(reason@),
        }
    }
}

impl SubmitErrorView {
    /// The line shown to the user.
    pub open spec fn message(self) -> Seq<char> {
        match self {
            SubmitErrorView::Network(cause) => cause,
            SubmitErrorView::Decode(cause) => cause,
            SubmitErrorView::RemoteRejection(reason) => "Anki refused the note: "@ + reason,
        }
    }
}

impl SubmitError {
    /// The line shown to the user.
    pub fn message(&self) -> (text: String)
        ensures
            text@ == self@.message(),
    {
        match self {
            SubmitError::Network(cause) => cause.clone(),
            SubmitError::Decode(cause) => cause.clone(),
            SubmitError::RemoteRejection(reason) => {
                let mut text = String::from_str("Anki refused the note: ");
                text.append(reason.as_str());
                text
            },
        }
    }
}

} // verus!
