use vstd::prelude::*;
use core::cmp::Ordering;
use vstd::std_specs::cmp::{PartialEqSpec, PartialOrdSpec};
use crate::text::{compare_text, lemma_text_cmp_antisymmetric, lemma_text_cmp_equal, same_text, text_cmp};

verus! {

/// The ID of a [`Directory`](crate::directory::Directory).
#[derive(Debug, Clone, Eq, Ord, Hash)]
pub struct DirectoryId(String);

impl View for DirectoryId {
    type V = Seq<char>;

    closed spec fn view(&self) -> Seq<char> {
        self.0@
    }
}

impl DirectoryId {
    /// The text of the ID.
    pub fn as_str(&self) -> (r: &str)
        ensures
            r@ == self@,
    {
        self.0.as_str()
    }

    /// The text of the ID, as an owned string.
    pub fn to_string(&self) -> (r: String)
        ensures
            r@ == self@,
    {
        self.0.clone()
    }
}

impl From<String> for DirectoryId {
    fn from(value: String) -> (r: Self)
        ensures
            r@ == value@,
    {
        DirectoryId(value)
    }
}

impl vstd::std_specs::convert::FromSpecImpl<String> for DirectoryId {
    open spec fn obeys_from_spec() -> bool {
        true
    }

    closed spec fn from_spec(v: String) -> Self {
        DirectoryId(v)
    }
}

impl<'a> From<&'a str> for DirectoryId {
    fn from(value: &'a str) -> (r: Self)
        ensures
            r@ == value@,
    {
        DirectoryId(value.to_owned())
    }
}

impl<'a> vstd::std_specs::convert::FromSpecImpl<&'a str> for DirectoryId {
    open spec fn obeys_from_spec() -> bool {
        false
    }

    closed spec fn from_spec(v: &'a str) -> Self {
        vstd::pervasive::arbitrary()
    }
}

impl DirectoryId {
    /// Builds an ID from its text.
    pub fn new(value: &str) -> (r: Self)
        ensures
            r@ == value@,
    {
        DirectoryId(value.to_owned())
    }

    /// Builds an ID from an owned text.
    pub fn from_string(value: String) -> (r: Self)
        ensures
            r@ == value@,
    {
        DirectoryId(value)
    }
}

impl PartialEq for DirectoryId {
    fn eq(&self, other: &DirectoryId) -> (r: bool) {
        same_text(self.0.as_str(), other.0.as_str())
    }
}

impl vstd::std_specs::cmp::PartialEqSpecImpl for DirectoryId {
    open spec fn obeys_eq_spec() -> bool {
        true
    }

    open spec fn eq_spec(&self, other: &DirectoryId) -> bool {
        self@ == other@
    }
}

impl PartialOrd for DirectoryId {
    fn partial_cmp(&self, other: &DirectoryId) -> (r: Option<Ordering>) {
        Some(compare_text(self.0.as_str(), other.0.as_str()))
    }
}

impl vstd::std_specs::cmp::PartialOrdSpecImpl for DirectoryId {
    open spec fn obeys_partial_cmp_spec() -> bool {
        true
    }

    open spec fn partial_cmp_spec(&self, other: &DirectoryId) -> Option<Ordering> {
        Some(text_cmp(self@, other@))
    }
}


/// Identifier equality and order: two directory IDs are equal exactly when
/// their texts are, they order as their texts do, the order says `Equal`
/// exactly when they are equal, and swapping the two reverses it.
pub proof fn lemma_directory_id_order(a: DirectoryId, b: DirectoryId)
    ensures
        a.eq_spec(&b) <==> (a@ == b@),
        a.partial_cmp_spec(&b) == Some(text_cmp(a@, b@)),
        (a.partial_cmp_spec(&b) == Some(Ordering::Equal)) <==> a.eq_spec(&b),
        (a.partial_cmp_spec(&b) == Some(Ordering::Less)) <==> (b.partial_cmp_spec(&a) == Some(
            Ordering::Greater,
        )),
{
    lemma_text_cmp_equal(a@, b@);
    lemma_text_cmp_antisymmetric(a@, b@);
}

/// The ID of an organization.
#[derive(Debug, Clone, Eq, Ord, Hash)]
pub struct OrganizationId(String);

impl View for OrganizationId {
    type V = Seq<char>;

    closed spec fn view(&self) -> Seq<char> {
        self.0@
    }
}

impl OrganizationId {
    /// The text of the ID.
    pub fn as_str(&self) -> (r: &str)
        ensures
            r@ == self@,
    {
        self.0.as_str()
    }

    /// The text of the ID, as an owned string.
    pub fn to_string(&self) -> (r: String)
        ensures
            r@ == self@,
    {
        self.0.clone()
    }
}

impl From<String> for OrganizationId {
    fn from(value: String) -> (r: Self)
        ensures
            r@ == value@,
    {
        OrganizationId(value)
    }
}

impl vstd::std_specs::convert::FromSpecImpl<String> for OrganizationId {
    open spec fn obeys_from_spec() -> bool {
        true
    }

    closed spec fn from_spec(v: String) -> Self {
        OrganizationId(v)
    }
}

impl<'a> From<&'a str> for OrganizationId {
    fn from(value: &'a str) -> (r: Self)
        ensures
            r@ == value@,
    {
        OrganizationId(value.to_owned())
    }
}

impl<'a> vstd::std_specs::convert::FromSpecImpl<&'a str> for OrganizationId {
    open spec fn obeys_from_spec() -> bool {
        false
    }

    closed spec fn from_spec(v: &'a str) -> Self {
        vstd::pervasive::arbitrary()
    }
}

impl OrganizationId {
    /// Builds an ID from its text.
    pub fn new(value: &str) -> (r: Self)
        ensures
            r@ == value@,
    {
        OrganizationId(value.to_owned())
    }

    /// Builds an ID from an owned text.
    pub fn from_string(value: String) -> (r: Self)
        ensures
            r@ == value@,
    {
        OrganizationId(value)
    }
}

impl PartialEq for OrganizationId {
    fn eq(&self, other: &OrganizationId) -> (r: bool) {
        same_text(self.0.as_str(), other.0.as_str())
    }
}

impl vstd::std_specs::cmp::PartialEqSpecImpl for OrganizationId {
    open spec fn obeys_eq_spec() -> bool {
        true
    }

    open spec fn eq_spec(&self, other: &OrganizationId) -> bool {
        self@ == other@
    }
}

impl PartialOrd for OrganizationId {
    fn partial_cmp(&self, other: &OrganizationId) -> (r: Option<Ordering>) {
        Some(compare_text(self.0.as_str(), other.0.as_str()))
    }
}

impl vstd::std_specs::cmp::PartialOrdSpecImpl for OrganizationId {
    open spec fn obeys_partial_cmp_spec() -> bool {
        true
    }

    open spec fn partial_cmp_spec(&self, other: &OrganizationId) -> Option<Ordering> {
        Some(text_cmp(self@, other@))
    }
}


/// Identifier equality and order: two organization IDs are equal exactly when
/// their texts are, they order as their texts do, the order says `Equal`
/// exactly when they are equal, and swapping the two reverses it.
pub proof fn lemma_organization_id_order(a: OrganizationId, b: OrganizationId)
    ensures
        a.eq_spec(&b) <==> (a@ == b@),
        a.partial_cmp_spec(&b) == Some(text_cmp(a@, b@)),
        (a.partial_cmp_spec(&b) == Some(Ordering::Equal)) <==> a.eq_spec(&b),
        (a.partial_cmp_spec(&b) == Some(Ordering::Less)) <==> (b.partial_cmp_spec(&a) == Some(
            Ordering::Greater,
        )),
{
    lemma_text_cmp_equal(a@, b@);
    lemma_text_cmp_antisymmetric(a@, b@);
}

/// The ID of a single-sign-on [`Connection`](crate::sso::Connection).
#[derive(Debug, Clone, Eq, Ord, Hash)]
pub struct ConnectionId(String);

impl View for ConnectionId {
    type V = Seq<char>;

    closed spec fn view(&self) -> Seq<char> {
        self.0@
    }
}

impl ConnectionId {
    /// The text of the ID.
    pub fn as_str(&self) -> (r: &str)
        ensures
            r@ == self@,
    {
        self.0.as_str()
    }

    /// The text of the ID, as an owned string.
    pub fn to_string(&self) -> (r: String)
        ensures
            r@ == self@,
    {
        self.0.clone()
    }
}

impl From<String> for ConnectionId {
    fn from(value: String) -> (r: Self)
        ensures
            r@ == value@,
    {
        ConnectionId(value)
    }
}

impl vstd::std_specs::convert::FromSpecImpl<String> for ConnectionId {
    open spec fn obeys_from_spec() -> bool {
        true
    }

    closed spec fn from_spec(v: String) -> Self {
        ConnectionId(v)
    }
}

impl<'a> From<&'a str> for ConnectionId {
    fn from(value: &'a str) -> (r: Self)
        ensures
            r@ == value@,
    {
        ConnectionId(value.to_owned())
    }
}

impl<'a> vstd::std_specs::convert::FromSpecImpl<&'a str> for ConnectionId {
    open spec fn obeys_from_spec() -> bool {
        false
    }

    closed spec fn from_spec(v: &'a str) -> Self {
        vstd::pervasive::arbitrary()
    }
}

impl ConnectionId {
    /// Builds an ID from its text.
    pub fn new(value: &str) -> (r: Self)
        ensures
            r@ == value@,
    {
        ConnectionId(value.to_owned())
    }

    /// Builds an ID from an owned text.
    pub fn from_string(value: String) -> (r: Self)
        ensures
            r@ == value@,
    {
        ConnectionId(value)
    }
}

impl PartialEq for ConnectionId {
    fn eq(&self, other: &ConnectionId) -> (r: bool) {
        same_text(self.0.as_str(), other.0.as_str())
    }
}

impl vstd::std_specs::cmp::PartialEqSpecImpl for ConnectionId {
    open spec fn obeys_eq_spec() -> bool {
        true
    }

    open spec fn eq_spec(&self, other: &ConnectionId) -> bool {
        self@ == other@
    }
}

impl PartialOrd for ConnectionId {
    fn partial_cmp(&self, other: &ConnectionId) -> (r: Option<Ordering>) {
        Some(compare_text(self.0.as_str(), other.0.as_str()))
    }
}

impl vstd::std_specs::cmp::PartialOrdSpecImpl for ConnectionId {
    open spec fn obeys_partial_cmp_spec() -> bool {
        true
    }

    open spec fn partial_cmp_spec(&self, other: &ConnectionId) -> Option<Ordering> {
        Some(text_cmp(self@, other@))
    }
}


/// Identifier equality and order: two connection IDs are equal exactly when
/// their texts are, they order as their texts do, the order says `Equal`
/// exactly when they are equal, and swapping the two reverses it.
pub proof fn lemma_connection_id_order(a: ConnectionId, b: ConnectionId)
    ensures
        a.eq_spec(&b) <==> (a@ == b@),
        a.partial_cmp_spec(&b) == Some(text_cmp(a@, b@)),
        (a.partial_cmp_spec(&b) == Some(Ordering::Equal)) <==> a.eq_spec(&b),
        (a.partial_cmp_spec(&b) == Some(Ordering::Less)) <==> (b.partial_cmp_spec(&a) == Some(
            Ordering::Greater,
        )),
{
    lemma_text_cmp_equal(a@, b@);
    lemma_text_cmp_antisymmetric(a@, b@);
}

} // verus!
