//! What becomes of one verification request: the identifier is resolved, the
//! claims are signed into a token, and the token is handed over for
//! notification.

use vstd::prelude::*;
use crate::config::Keys;
use crate::directory::{
    entries_view, resolution, DirectoryEntry, LookupError, LookupErrorView, Person, PersonView,
    Resolution,
};
use crate::token::{claims_of, encode_token, issuable, token_of};

verus! {

/// The domain that identifiers receive their mail under.
pub const MAIL_DOMAIN: &'static str = "@eid.utexas.edu";

/// The head of the filter that finds an identifier's record.
pub const FILTER_HEAD: &'static str = "uid=";

/// A request to verify one identifier, as it is read from the queue.
#[derive(Debug, Clone, PartialEq, Eq)]
pub struct VerificationRequest {
    pub eid: String,
}

/// What is handed over for notification: whom to write to, by which name to
/// address them, and the token to send.
#[derive(Debug, Clone, PartialEq, Eq)]
pub struct Notification {
    pub address: String,
    pub name: String,
    pub token: String,
}

/// The mathematical content of a [`Notification`].
pub struct NotificationView {
    pub address: Seq<char>,
    pub name: Seq<char>,
    pub token: Seq<char>,
}

impl View for Notification {
    type V = NotificationView;

    open spec fn view(&self) -> NotificationView {
        NotificationView { address: self.address@, name: self.name@, token: self.token@ }
    }
}

/// What became of one request.
#[derive(Debug, Clone, PartialEq, Eq)]
pub enum RequestOutcome {
    /// A token was issued and is to be sent.
    Notify(Notification),
    /// The identifier could not be resolved. This ends the request, not the
    /// batch.
    Rejected(LookupError),
    /// The person was found, but no token could be issued for the claims.
    Unissued,
}

/// The address that the notification for `eid` goes to.
pub open spec fn address_of(eid: Seq<char>) -> Seq<char> {
    eid + MAIL_DOMAIN@
}

/// The filter that finds the record of `eid`.
pub open spec fn filter_of(eid: Seq<char>) -> Seq<char> {
    FILTER_HEAD@ + eid
}

/// The mathematical content of a [`RequestOutcome`].
pub enum OutcomeView {
    Notify(NotificationView),
    Rejected(LookupErrorView),
    Unissued,
}

impl View for RequestOutcome {
    type V = OutcomeView;

    open spec fn view(&self) -> OutcomeView {
        match self {
            RequestOutcome::Notify(notification) => OutcomeView::Notify(notification@),
            RequestOutcome::Rejected(error) => OutcomeView::Rejected(error@),
            RequestOutcome::Unissued => OutcomeView::Unissued,
        }
    }
}

/// The notification that carries `token` to the person with identifier `eid`:
/// it goes to the identifier's address and addresses the person by name.
pub open spec fn notified(person: PersonView, eid: Seq<char>, token: Seq<char>) -> NotificationView {
    NotificationView { address: address_of(eid), name: person.name, token }
}

/// What issuing for a resolved person comes to: the notification that
/// carries the person's token, wherever a token is owed for the claims.
pub open spec fn issuing_of(person: PersonView, eid: Seq<char>, shared_key: Seq<u8>) -> OutcomeView {
    if issuable(person.claims, shared_key) {
        OutcomeView::Notify(notified(person, eid, token_of(person.claims, shared_key)))
    } else {
        OutcomeView::Unissued
    }
}

/// What a request for `eid` comes to, given the records that the search
/// gave: a rejection with the lookup's error where the lookup fails, else
/// what issuing for the person found comes to.
pub open spec fn verification_of(
    entries: Seq<Seq<(Seq<char>, Seq<Seq<char>>)>>,
    eid: Seq<char>,
    encryption_key: Seq<u8>,
    shared_key: Seq<u8>,
) -> OutcomeView {
    match resolution(entries, eid, encryption_key) {
        Resolution::Found(person) => issuing_of(person, eid, shared_key),
        Resolution::Missing(field) => OutcomeView::Rejected(
            LookupErrorView::MissingDirectoryInfo(field),
        ),
        Resolution::Unknown => OutcomeView::Rejected(LookupErrorView::NotFound),
    }
}

/// The address that the notification for `eid` goes to.
pub fn mail_address(eid: &str) -> (address: String)
    ensures
        address@ == address_of(eid@),
{
    let mut address = String::from_str(eid);
    address.append(MAIL_DOMAIN);
    address
}

/// The filter that finds the record of `eid`.
pub fn search_filter(eid: &str) -> (filter: String)
    ensures
        filter@ == filter_of(eid@),
{
    let mut filter = String::from_str(FILTER_HEAD);
    filter.append(eid);
    filter
}

/// Issues the token for a resolved person and turns it into the notification
/// to send; `Unissued` exactly where no token is owed for the claims. The
/// token of a notification redeems to the person's claims under the same key.
pub fn notification_for(person: Person, eid: &str, shared_key: &[u8]) -> (outcome: RequestOutcome)
    ensures
        outcome@ == issuing_of(person@, eid@, shared_key@),
        outcome matches RequestOutcome::Notify(notification) ==> claims_of(
            notification.token@,
            shared_key@,
        ) == Some(person@.claims),
{
    let token = encode_token(&person.claims, shared_key);
    notification_from(person, eid, token)
}

/// Says what became of issuing a token for a resolved person: with a token,
/// the notification that carries it; without one, `Unissued`.
pub fn notification_from(person: Person, eid: &str, token: Option<String>) -> (outcome:
    RequestOutcome)
    ensures
        outcome@ == match token {
            Some(token) => OutcomeView::Notify(notified(person@, eid@, token@)),
            None => OutcomeView::Unissued,
        },
{
    match token {
        Some(token) => RequestOutcome::Notify(
            Notification { address: mail_address(eid), name: person.name, token },
        ),
        None => RequestOutcome::Unissued,
    }
}

/// Handles one request, given the records that the directory search for its
/// identifier gave. The outcome is a function of the records, the identifier
/// and the keys, so a request that is delivered again comes to the same; and
/// the token of a notification redeems to the claims of the person found.
pub fn request_verification(entries: &[DirectoryEntry], req: &VerificationRequest, keys: &Keys) -> (outcome:
    RequestOutcome)
    ensures
        outcome@ == verification_of(
            entries_view(entries@),
            req.eid@,
            keys@.encryption_key,
            keys@.shared_key,
        ),
        outcome matches RequestOutcome::Notify(notification) ==> resolution(
            entries_view(entries@),
            req.eid@,
            keys@.encryption_key,
        ) matches Resolution::Found(person) && claims_of(notification.token@, keys@.shared_key)
            == Some(person.claims),
{
    match Person::lookup(entries, req.eid.as_str(), keys) {
        Ok(person) => notification_for(person, req.eid.as_str(), keys.shared_key()),
        Err(error) => RequestOutcome::Rejected(error),
    }
}

} // verus!
