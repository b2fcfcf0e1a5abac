//! Resolving an identifier against the records that a directory search gave.
//!
//! The search itself is made by the caller. A record is a bag of named
//! attributes, each with a list of values. The lookup picks the record that
//! belongs to the identifier and either resolves every field that the claims
//! need or names the first one that is missing; nothing of the bag leaks into
//! the claims otherwise.

use vstd::prelude::*;
use vstd::utf8::encode_utf8;
use crate::cipher::{ciphertext_of, encipher, MAX_PLAINTEXT_LEN};
use crate::config::Keys;
use crate::token::{tags_view, ClaimsView, VerifiedClaims};

verus! {

/// Where the directory is searched.
pub const SEARCH_BASE: &'static str = "dc=directory,dc=utexas,dc=edu";

/// The attribute that holds a person's identifier.
pub const EID_ATTRIBUTE: &'static str = "utexasEduPersonEid";

/// The attribute that holds a person's majors.
pub const MAJOR_ATTRIBUTE: &'static str = "utexasEduPersonMajor";

/// The attribute that holds a person's schools.
pub const SCHOOL_ATTRIBUTE: &'static str = "utexasEduPersonSchool";

/// The attribute that holds a person's affiliations.
pub const AFFILIATION_ATTRIBUTE: &'static str = "utexasEduPersonPubAffiliation";

/// The attribute that holds a person's name.
pub const NAME_ATTRIBUTE: &'static str = "displayName";

/// The attribute that holds a person's mail address.
pub const MAIL_ATTRIBUTE: &'static str = "mail";

/// One named attribute of a directory record.
#[derive(Debug, Clone, PartialEq, Eq)]
pub struct Attribute {
    pub name: String,
    pub values: Vec<String>,
}

/// One record of a search result. Where a name occurs twice, the first
/// attribute counts.
#[derive(Debug, Clone, PartialEq, Eq)]
pub struct DirectoryEntry {
    pub attrs: Vec<Attribute>,
}

/// The attributes of a record as pairs of name and values.
pub open spec fn attrs_view(attrs: Seq<Attribute>) -> Seq<(Seq<char>, Seq<Seq<char>>)> {
    Seq::new(attrs.len(), |i: int| (attrs[i].name@, tags_view(attrs[i].values@)))
}

impl View for DirectoryEntry {
    type V = Seq<(Seq<char>, Seq<Seq<char>>)>;

    open spec fn view(&self) -> Seq<(Seq<char>, Seq<Seq<char>>)> {
        attrs_view(self.attrs@)
    }
}

/// The records of a search result, in order.
pub open spec fn entries_view(entries: Seq<DirectoryEntry>) -> Seq<
    Seq<(Seq<char>, Seq<Seq<char>>)>,
> {
    Seq::new(entries.len(), |i: int| entries[i]@)
}

/// A person as the directory knows them.
#[derive(Debug, Clone, PartialEq, Eq)]
pub struct Person {
    pub claims: VerifiedClaims,
    pub name: String,
    pub email: Option<String>,
}

/// The mathematical content of a [`Person`].
pub struct PersonView {
    pub claims: ClaimsView,
    pub name: Seq<char>,
    pub email: Option<Seq<char>>,
}

impl View for Person {
    type V = PersonView;

    open spec fn view(&self) -> PersonView {
        PersonView {
            claims: self.claims@,
            name: self.name@,
            email: match self.email {
                Some(address) => Some(address@),
                None => None,
            },
        }
    }
}

/// Why an identifier could not be resolved.
#[derive(Debug, Clone, PartialEq, Eq)]
pub enum LookupError {
    /// The record lacks the named field.
    MissingDirectoryInfo(&'static str),
    /// No record belongs to the identifier.
    NotFound,
    /// The directory could not be reached or refused the search; the text is
    /// what the transport reported.
    LdapError(String),
}

/// The mathematical content of a [`LookupError`].
pub enum LookupErrorView {
    MissingDirectoryInfo(Seq<char>),
    NotFound,
    LdapError(Seq<char>),
}

impl View for LookupError {
    type V = LookupErrorView;

    open spec fn view(&self) -> LookupErrorView {
        match self {
            LookupError::MissingDirectoryInfo(field) => LookupErrorView::MissingDirectoryInfo(
                field@,
            ),
            LookupError::NotFound => LookupErrorView::NotFound,
            LookupError::LdapError(text) => LookupErrorView::LdapError(text@),
        }
    }
}

/// The values of the first attribute called `name`.
pub open spec fn values_of(attrs: Seq<(Seq<char>, Seq<Seq<char>>)>, name: Seq<char>) -> Option<
    Seq<Seq<char>>,
>
    decreases attrs.len(),
{
    if attrs.len() == 0 {
        None
    } else if attrs.first().0 == name {
        Some(attrs.first().1)
    } else {
        values_of(attrs.drop_first(), name)
    }
}

/// The first value of the first attribute called `name`.
pub open spec fn first_value(attrs: Seq<(Seq<char>, Seq<Seq<char>>)>, name: Seq<char>) -> Option<
    Seq<char>,
> {
    match values_of(attrs, name) {
        Some(values) => if values.len() > 0 {
            Some(values[0])
        } else {
            None
        },
        None => None,
    }
}

/// Whether a record belongs to `eid`: its identifier attribute starts with
/// that very value.
pub open spec fn belongs_to(attrs: Seq<(Seq<char>, Seq<Seq<char>>)>, eid: Seq<char>) -> bool {
    first_value(attrs, EID_ATTRIBUTE@) == Some(eid)
}

/// The position of the first record that belongs to `eid`.
pub open spec fn position_of(entries: Seq<Seq<(Seq<char>, Seq<Seq<char>>)>>, eid: Seq<char>) -> Option<
    int,
>
    decreases entries.len(),
{
    if entries.len() == 0 {
        None
    } else if belongs_to(entries.first(), eid) {
        Some(0)
    } else {
        match position_of(entries.drop_first(), eid) {
            Some(at) => Some(at + 1),
            None => None,
        }
    }
}

/// The first field that the claims need and the record lacks, by the name
/// under which it is reported.
pub open spec fn missing_field(attrs: Seq<(Seq<char>, Seq<Seq<char>>)>) -> Option<Seq<char>> {
    if values_of(attrs, MAJOR_ATTRIBUTE@) is None {
        Some("major"@)
    } else if values_of(attrs, SCHOOL_ATTRIBUTE@) is None {
        Some("school"@)
    } else if values_of(attrs, AFFILIATION_ATTRIBUTE@) is None {
        Some("affiliation"@)
    } else if first_value(attrs, NAME_ATTRIBUTE@) is None {
        Some("name"@)
    } else {
        None
    }
}

/// The person that a complete record of `eid` describes, with the identifier
/// encrypted under `key`.
pub open spec fn person_of(
    attrs: Seq<(Seq<char>, Seq<Seq<char>>)>,
    eid: Seq<char>,
    key: Seq<u8>,
) -> PersonView {
    PersonView {
        claims: ClaimsView {
            encrypted_eid: ciphertext_of(encode_utf8(eid), key),
            major: values_of(attrs, MAJOR_ATTRIBUTE@)->0,
            school: values_of(attrs, SCHOOL_ATTRIBUTE@)->0,
            affiliation: values_of(attrs, AFFILIATION_ATTRIBUTE@)->0,
        },
        name: first_value(attrs, NAME_ATTRIBUTE@)->0,
        email: first_value(attrs, MAIL_ATTRIBUTE@),
    }
}

/// Whether an identifier is short enough to be encrypted.
pub open spec fn encryptable(eid: Seq<char>) -> bool {
    encode_utf8(eid).len() <= MAX_PLAINTEXT_LEN
}

/// What a lookup comes to.
pub enum Resolution {
    /// A complete record belongs to the identifier.
    Found(PersonView),
    /// The record that belongs to the identifier lacks this field.
    Missing(Seq<char>),
    /// No record belongs to the identifier.
    Unknown,
}

/// What looking `eid` up in `entries` comes to: the person of the first
/// record that belongs to the identifier, or the first field which that
/// record lacks. An identifier too long to be encrypted belongs to nobody.
pub open spec fn resolution(
    entries: Seq<Seq<(Seq<char>, Seq<Seq<char>>)>>,
    eid: Seq<char>,
    key: Seq<u8>,
) -> Resolution {
    if !encryptable(eid) {
        Resolution::Unknown
    } else {
        match position_of(entries, eid) {
            None => Resolution::Unknown,
            Some(at) => match missing_field(entries[at]) {
                Some(field) => Resolution::Missing(field),
                None => Resolution::Found(person_of(entries[at], eid, key)),
            },
        }
    }
}

/// Whether the result of a lookup says what `resolution` says.
pub open spec fn agrees(r: Result<Person, LookupError>, resolution: Resolution) -> bool {
    match r {
        Ok(person) => resolution == Resolution::Found(person@),
        Err(LookupError::NotFound) => resolution == Resolution::Unknown,
        Err(LookupError::MissingDirectoryInfo(field)) => resolution == Resolution::Missing(field@),
        Err(LookupError::LdapError(_)) => false,
    }
}

/// A copy of a list of texts.
pub fn copy_texts(texts: &Vec<String>) -> (copy: Vec<String>)
    ensures
        tags_view(copy@) == tags_view(texts@),
{
    let mut copy: Vec<String> = Vec::new();
    let mut i: usize = 0;
    while i < texts.len()
        invariant
            i <= texts.len(),
            copy@.len() == i,
            forall|j: int| 0 <= j < i ==> copy@[j]@ == texts@[j]@,
        decreases texts.len() - i,
    {
        copy.push(texts[i].clone());
        i += 1;
    }
    copy
}

impl DirectoryEntry {
    /// The values of the first attribute called `name`.
    pub fn values(&self, name: &str) -> (values: Option<&Vec<String>>)
        ensures
            match values {
                Some(found) => values_of(self@, name@) == Some(tags_view(found@)),
                None => values_of(self@, name@) is None,
            },
    {
        let wanted = String::from_str(name);
        let mut i: usize = 0;
        assert(self@.skip(0) == self@);
        while i < self.attrs.len()
            invariant
                i <= self.attrs.len(),
                wanted@ == name@,
                values_of(self@, name@) == values_of(self@.skip(i as int), name@),
            decreases self.attrs.len() - i,
        {
            assert(self@.skip(i as int).drop_first() == self@.skip(i + 1));
            if self.attrs[i].name == wanted {
                return Some(&self.attrs[i].values);
            }
            i += 1;
        }
        None
    }

    /// The first value of the first attribute called `name`.
    pub fn first(&self, name: &str) -> (value: Option<&String>)
        ensures
            match value {
                Some(found) => first_value(self@, name@) == Some(found@),
                None => first_value(self@, name@) is None,
            },
    {
        match self.values(name) {
            Some(values) => if values.len() > 0 {
                Some(&values[0])
            } else {
                None
            },
            None => None,
        }
    }

    /// Whether the record belongs to `eid`.
    pub fn belongs_to(&self, eid: &String) -> (r: bool)
        ensures
            r == belongs_to(self@, eid@),
    {
        match self.first(EID_ATTRIBUTE) {
            Some(value) => *value == *eid,
            None => false,
        }
    }
}

/// Finds the first record that belongs to `eid`.
pub fn find_entry<'a>(entries: &'a [DirectoryEntry], eid: &str) -> (found: Option<
    &'a DirectoryEntry,
>)
    ensures
        match found {
            Some(entry) => position_of(entries_view(entries@), eid@) matches Some(at) && 0 <= at
                < entries@.len() && entries@[at]@ == entry@,
            None => position_of(entries_view(entries@), eid@) is None,
        },
{
    let wanted = String::from_str(eid);
    let ghost all = entries_view(entries@);
    let mut i: usize = 0;
    assert(all.skip(0) == all);
    while i < entries.len()
        invariant
            i <= entries.len(),
            wanted@ == eid@,
            all == entries_view(entries@),
            position_of(all, eid@) == match position_of(all.skip(i as int), eid@) {
                Some(at) => Some(at + i),
                None => None,
            },
        decreases entries.len() - i,
    {
        assert(all.skip(i as int).drop_first() == all.skip(i + 1));
        if entries[i].belongs_to(&wanted) {
            return Some(&entries[i]);
        }
        i += 1;
    }
    None
}

impl Person {
    /// Resolves `eid` against the records of a directory search.
    ///
    /// The person comes from the first record that belongs to the identifier;
    /// the claims carry the identifier only in encrypted form. Without such a
    /// record, or for an identifier too long to be encrypted, the lookup ends
    /// in `NotFound`; where the record lacks a field that is needed, it names
    /// the first one.
    pub fn lookup(entries: &[DirectoryEntry], eid: &str, keys: &Keys) -> (r: Result<
        Person,
        LookupError,
    >)
        ensures
            agrees(r, resolution(entries_view(entries@), eid@, keys@.encryption_key)),
    {
        let plain = eid.as_bytes();
        if plain.len() as u64 > MAX_PLAINTEXT_LEN {
            return Err(LookupError::NotFound);
        }
        let entry = match find_entry(entries, eid) {
            Some(entry) => entry,
            None => { return Err(LookupError::NotFound); },
        };
        let encrypted_eid = encipher(plain, keys.encryption_key());
        let major = match entry.values(MAJOR_ATTRIBUTE) {
            Some(values) => copy_texts(values),
            None => { return Err(LookupError::MissingDirectoryInfo("major")); },
        };
        let school = match entry.values(SCHOOL_ATTRIBUTE) {
            Some(values) => copy_texts(values),
            None => { return Err(LookupError::MissingDirectoryInfo("school")); },
        };
        let affiliation = match entry.values(AFFILIATION_ATTRIBUTE) {
            Some(values) => copy_texts(values),
            None => { return Err(LookupError::MissingDirectoryInfo("affiliation")); },
        };
        let name = match entry.first(NAME_ATTRIBUTE) {
            Some(value) => value.clone(),
            None => { return Err(LookupError::MissingDirectoryInfo("name")); },
        };
        let email = match entry.first(MAIL_ATTRIBUTE) {
            Some(value) => Some(value.clone()),
            None => None,
        };
        Ok(Person { claims: VerifiedClaims { encrypted_eid, major, school, affiliation }, name, email })
    }
}

} // verus!
