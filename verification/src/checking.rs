//! Checking what a presentation shows against what was expected of it.

use crate::attribute::{value_text, CredentialAttributeValue, CredentialAttributeValueView};
use crate::formats::{Presentations, PresentationsView};
use crate::presentation::{Presentation, PresentationView, W3CCredentialView, W3CPresentation};
use vstd::prelude::*;
use vstd::string::StringExecFns;

verus! {

/// What a presentation is expected to show for one referent of the request.
#[derive(Debug)]
pub enum ExpectedAttributeValue {
    RevealedAttribute(CredentialAttributeValue),
    UnrevealedAttribute(u32),
    GroupedAttribute(CredentialAttributeValue),
    Predicate,
}

/// The model of `ExpectedAttributeValue` that contracts speak of.
pub enum ExpectedAttributeValueView {
    RevealedAttribute(CredentialAttributeValueView),
    UnrevealedAttribute(u32),
    GroupedAttribute(CredentialAttributeValueView),
    Predicate,
}

impl View for ExpectedAttributeValue {
    type V = ExpectedAttributeValueView;

    open spec fn view(&self) -> ExpectedAttributeValueView {
        match self {
            ExpectedAttributeValue::RevealedAttribute(value) => {
                ExpectedAttributeValueView::RevealedAttribute(value@)
            },
            ExpectedAttributeValue::UnrevealedAttribute(index) => {
                ExpectedAttributeValueView::UnrevealedAttribute(*index)
            },
            ExpectedAttributeValue::GroupedAttribute(value) => {
                ExpectedAttributeValueView::GroupedAttribute(value@)
            },
            ExpectedAttributeValue::Predicate => ExpectedAttributeValueView::Predicate,
        }
    }
}

/// One referent of a request, the attribute it is about, and what a
/// presentation is expected to show for it.
#[derive(Debug)]
pub struct PresentedAttribute<'a> {
    pub referent: &'a str,
    pub name: &'a str,
    pub expected: ExpectedAttributeValue,
}

/// The model of `PresentedAttribute` that contracts speak of.
pub struct PresentedAttributeView {
    pub referent: Seq<char>,
    pub name: Seq<char>,
    pub expected: ExpectedAttributeValueView,
}

impl<'a> View for PresentedAttribute<'a> {
    type V = PresentedAttributeView;

    open spec fn view(&self) -> PresentedAttributeView {
        PresentedAttributeView {
            referent: self.referent@,
            name: self.name@,
            expected: self.expected@,
        }
    }
}

/// `text` with every letter in lower case, as `str::to_lowercase` of the
/// standard library gives it.
pub uninterp spec fn lowercased(text: Seq<char>) -> Seq<char>;

/// Calls `str::to_lowercase` of the standard library. Nothing is proved of
/// the call: the contract gives its result the name `lowercased`, which
/// rests on the call computing the same text for the same text every time.
#[verifier::external_body]
fn lowercase(text: &str) -> (lowered: String)
    ensures
        lowered@ == lowercased(text@),
{
    text.to_lowercase()
}

/// The value that the first of `credentials` to carry the attribute `name`
/// carries for it, if any of them carries it.
pub open spec fn first_value(credentials: Seq<W3CCredentialView>, name: Seq<char>) -> Option<
    CredentialAttributeValueView,
>
    decreases credentials.len(),
{
    if credentials.len() == 0 {
        None
    } else if credentials[0].credential_subject.contains_key(name) {
        Some(credentials[0].credential_subject[name])
    } else {
        first_value(credentials.drop_first(), name)
    }
}

/// Whether a legacy presentation shows what `attribute` expects: a revealed
/// attribute under the referent with the expected value as its raw text; or
/// a revealed group under the referent in which the attribute, by its name,
/// has the expected value as its raw text; or a hidden attribute under the
/// referent that is backed by the expected sub-proof; or a predicate under
/// the referent.
pub open spec fn legacy_shows(presentation: PresentationView, attribute: PresentedAttributeView) -> bool {
    let proof_ = presentation.requested_proof;
    match attribute.expected {
        ExpectedAttributeValueView::RevealedAttribute(expected) => {
            &&& proof_.revealed_attrs.contains_key(attribute.referent)
            &&& proof_.revealed_attrs[attribute.referent].raw == value_text(expected)
        },
        ExpectedAttributeValueView::GroupedAttribute(expected) => {
            &&& proof_.revealed_attr_groups.contains_key(attribute.referent)
            &&& proof_.revealed_attr_groups[attribute.referent].values.contains_key(attribute.name)
            &&& proof_.revealed_attr_groups[attribute.referent].values[attribute.name].raw
                == value_text(expected)
        },
        ExpectedAttributeValueView::UnrevealedAttribute(index) => {
            &&& proof_.unrevealed_attrs.contains_key(attribute.referent)
            &&& proof_.unrevealed_attrs[attribute.referent] == index
        },
        ExpectedAttributeValueView::Predicate => proof_.predicates.contains_key(
            attribute.referent,
        ),
    }
}

/// Whether the credentials of a W3C presentation show `expected` for the
/// attribute that they carry under `name`. A revealed attribute, alone or
/// in a group, must have the expected value in the first credential that
/// carries it; a predicate must be carried by some credential; of a hidden
/// attribute nothing is asked.
pub open spec fn w3c_shows_under(
    credentials: Seq<W3CCredentialView>,
    name: Seq<char>,
    expected: ExpectedAttributeValueView,
) -> bool {
    let carried = first_value(credentials, name);
    match expected {
        ExpectedAttributeValueView::RevealedAttribute(expected) => carried == Some(expected),
        ExpectedAttributeValueView::GroupedAttribute(expected) => carried == Some(expected),
        ExpectedAttributeValueView::UnrevealedAttribute(_) => true,
        ExpectedAttributeValueView::Predicate => carried is Some,
    }
}

/// Whether the credentials of a W3C presentation show what `attribute`
/// expects: the attribute is looked up by its name in lower case.
pub open spec fn w3c_shows(
    credentials: Seq<W3CCredentialView>,
    attribute: PresentedAttributeView,
) -> bool {
    w3c_shows_under(credentials, lowercased(attribute.name), attribute.expected)
}

/// Whether `presentation` shows what `attribute` expects.
pub open spec fn shows(presentation: PresentationsView, attribute: PresentedAttributeView) -> bool {
    match presentation {
        PresentationsView::Legacy(presentation) => legacy_shows(presentation, attribute),
        PresentationsView::W3C(presentation) => w3c_shows(
            presentation.verifiable_credential,
            attribute,
        ),
    }
}

/// Whether the legacy presentation `presentation` shows what `attribute` expects.
pub fn check_legacy(presentation: &Presentation, attribute: &PresentedAttribute) -> (shown: bool)
    ensures
        shown == legacy_shows(presentation@, attribute@),
{
    let referent = String::from_str(attribute.referent);
    match &attribute.expected {
        ExpectedAttributeValue::RevealedAttribute(expected) => {
            match presentation.requested_proof.revealed_attrs.get(&referent) {
                Some(revealed) => expected.to_text() == revealed.raw,
                None => false,
            }
        },
        ExpectedAttributeValue::GroupedAttribute(expected) => {
            match presentation.requested_proof.revealed_attr_groups.get(&referent) {
                Some(group) => {
                    let name = String::from_str(attribute.name);
                    match group.values.get(&name) {
                        Some(value) => expected.to_text() == value.raw,
                        None => false,
                    }
                },
                None => false,
            }
        },
        ExpectedAttributeValue::UnrevealedAttribute(index) => {
            match presentation.requested_proof.unrevealed_attrs.get(&referent) {
                Some(hidden) => *index == hidden.sub_proof_index,
                None => false,
            }
        },
        ExpectedAttributeValue::Predicate => {
            presentation.requested_proof.predicates.contains_key(&referent)
        },
    }
}

/// The value that the first credential of `presentation` to carry the
/// attribute `name` carries for it.
fn find_value<'p>(presentation: &'p W3CPresentation, name: &String) -> (found: Option<
    &'p CredentialAttributeValue,
>)
    ensures
        match found {
            Some(value) => first_value(presentation@.verifiable_credential, name@) == Some(
                value@,
            ),
            None => first_value(presentation@.verifiable_credential, name@) is None,
        },
{
    let ghost all = presentation@.verifiable_credential;
    let mut i: usize = 0;
    assert(all.subrange(0, all.len() as int) =~= all);
    while i < presentation.verifiable_credential.len()
        invariant
            i <= presentation.verifiable_credential@.len(),
            all == presentation@.verifiable_credential,
            first_value(all, name@) == first_value(
                all.subrange(i as int, all.len() as int),
                name@,
            ),
        decreases presentation.verifiable_credential@.len() - i,
    {
        let ghost rest = all.subrange(i as int, all.len() as int);
        assert(rest[0] == presentation.verifiable_credential@[i as int]@);
        assert(rest.drop_first() =~= all.subrange(i + 1, all.len() as int));
        match presentation.verifiable_credential[i].credential_subject.get(name) {
            Some(value) => {
                return Some(value);
            },
            None => {},
        }
        i = i + 1;
    }
    None
}

/// Whether the W3C presentation `presentation` shows `expected` for the
/// attribute that its credentials carry under `name`.
pub fn check_w3c_under(
    presentation: &W3CPresentation,
    name: &String,
    expected: &ExpectedAttributeValue,
) -> (shown: bool)
    ensures
        shown == w3c_shows_under(presentation@.verifiable_credential, name@, expected@),
{
    match expected {
        ExpectedAttributeValue::RevealedAttribute(expected) => {
            match find_value(presentation, name) {
                Some(value) => expected.same(value),
                None => false,
            }
        },
        ExpectedAttributeValue::GroupedAttribute(expected) => {
            match find_value(presentation, name) {
                Some(value) => expected.same(value),
                None => false,
            }
        },
        ExpectedAttributeValue::UnrevealedAttribute(_) => true,
        ExpectedAttributeValue::Predicate => find_value(presentation, name).is_some(),
    }
}

/// Whether the W3C presentation `presentation` shows what `attribute` expects.
pub fn check_w3c(presentation: &W3CPresentation, attribute: &PresentedAttribute) -> (shown: bool)
    ensures
        shown == w3c_shows(presentation@.verifiable_credential, attribute@),
{
    let name = lowercase(attribute.name);
    check_w3c_under(presentation, &name, &attribute.expected)
}

/// Whether `presentation` shows what `attribute` expects.
pub fn check(presentation: &Presentations, attribute: &PresentedAttribute) -> (shown: bool)
    ensures
        shown == shows(presentation@, attribute@),
{
    match presentation {
        Presentations::Legacy(presentation) => check_legacy(presentation, attribute),
        Presentations::W3C(presentation) => check_w3c(presentation, attribute),
    }
}

} // verus!
