//! The two encodings of credentials and presentations, and values that are
//! in either of them.

use crate::model::{Credential, CredentialView};
use crate::presentation::{
    Presentation, PresentationView, W3CCredential, W3CCredentialView, W3CPresentation,
    W3CPresentationView,
};
use crate::registry::Record;
use vstd::prelude::*;

verus! {

/// What the credential library reported when it could not do what it was
/// asked, in its own words.
#[derive(Debug)]
pub struct TestError(String);

impl View for TestError {
    type V = Seq<char>;

    closed spec fn view(&self) -> Seq<char> {
        self.0@
    }
}

impl TestError {
    /// The error that says `message`.
    pub fn new(message: String) -> (error: Self)
        ensures
            error@ == message@,
    {
        TestError(message)
    }

    /// What the error says.
    pub fn message(&self) -> (message: &String)
        ensures
            message@ == self@,
    {
        &self.0
    }
}

/// The encoding in which a credential is issued.
#[derive(Debug, Clone, PartialEq, Eq)]
pub enum CredentialFormat {
    Legacy,
    W3C,
}

/// A credential in either encoding.
#[derive(Debug)]
pub enum Credentials {
    Legacy(Credential),
    W3C(W3CCredential),
}

/// The model of `Credentials` that contracts speak of.
pub enum CredentialsView {
    Legacy(CredentialView),
    W3C(W3CCredentialView),
}

impl View for Credentials {
    type V = CredentialsView;

    open spec fn view(&self) -> CredentialsView {
        match self {
            Credentials::Legacy(credential) => CredentialsView::Legacy(credential@),
            Credentials::W3C(credential) => CredentialsView::W3C(credential@),
        }
    }
}

/// The encoding in which a presentation is made.
#[derive(Debug, Clone, PartialEq, Eq)]
pub enum PresentationFormat {
    Legacy,
    W3C,
}

/// A presentation in either encoding.
#[derive(Debug)]
pub enum Presentations {
    Legacy(Presentation),
    W3C(W3CPresentation),
}

/// The model of `Presentations` that contracts speak of.
pub enum PresentationsView {
    Legacy(PresentationView),
    W3C(W3CPresentationView),
}

impl View for Presentations {
    type V = PresentationsView;

    open spec fn view(&self) -> PresentationsView {
        match self {
            Presentations::Legacy(presentation) => PresentationsView::Legacy(presentation@),
            Presentations::W3C(presentation) => PresentationsView::W3C(presentation@),
        }
    }
}

impl Credentials {
    /// The credential, which is in the legacy encoding.
    pub fn legacy(&self) -> (credential: &Credential)
        requires
            self is Legacy,
        ensures
            self@ == CredentialsView::Legacy(credential@),
    {
        match self {
            Credentials::Legacy(credential) => credential,
            Credentials::W3C(_) => vstd::pervasive::unreached(),
        }
    }

    /// The credential, which is in the W3C encoding.
    pub fn w3c(&self) -> (credential: &W3CCredential)
        requires
            self is W3C,
        ensures
            self@ == CredentialsView::W3C(credential@),
    {
        match self {
            Credentials::W3C(credential) => credential,
            Credentials::Legacy(_) => vstd::pervasive::unreached(),
        }
    }
}

impl Presentations {
    /// The presentation, which is in the legacy encoding.
    pub fn legacy(&self) -> (presentation: &Presentation)
        requires
            self is Legacy,
        ensures
            self@ == PresentationsView::Legacy(presentation@),
    {
        match self {
            Presentations::Legacy(presentation) => presentation,
            Presentations::W3C(_) => vstd::pervasive::unreached(),
        }
    }

    /// The presentation, which is in the W3C encoding.
    pub fn w3c(&self) -> (presentation: &W3CPresentation)
        requires
            self is W3C,
        ensures
            self@ == PresentationsView::W3C(presentation@),
    {
        match self {
            Presentations::W3C(presentation) => presentation,
            Presentations::Legacy(_) => vstd::pervasive::unreached(),
        }
    }
}

} // verus!
