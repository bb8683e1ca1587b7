use vstd::prelude::*;
use crate::directory::{copy_text, organization_text, text_of};
use crate::error::{DecodeError, WorkOsError, WorkOsResult, handle_unauthorized_or_generic_error, status_error};
use crate::ids::{ConnectionId, OrganizationId};
use crate::open_enum::{KnownOrUnknown, WireEnum, lemma_open_enum_round_trip};
use crate::request::{Method, Request, get_request};
use crate::text::{lemma_texts_differ, same_text};
use crate::timestamp::{Timestamps, TimestampsError, lemma_timestamp_round_trip};

verus! {

/// The state of a [`Connection`].
#[derive(Debug, Clone, Copy, PartialEq, Eq, Structural)]
pub enum ConnectionState {
    /// The connection is active.
    Active,
    /// The connection is inactive.
    Inactive,
    /// The connection is a draft.
    Draft,
    /// The connection is being validated.
    Validating,
}

impl WireEnum for ConnectionState {
    open spec fn spec_decode(s: Seq<char>) -> Option<Self> {
        if s == "active"@ {
            Some(ConnectionState::Active)
        } else if s == "inactive"@ {
            Some(ConnectionState::Inactive)
        } else if s == "draft"@ {
            Some(ConnectionState::Draft)
        } else if s == "validating"@ {
            Some(ConnectionState::Validating)
        } else {
            None
        }
    }

    open spec fn spec_name(&self) -> Seq<char> {
        match self {
            ConnectionState::Active => "active"@,
            ConnectionState::Inactive => "inactive"@,
            ConnectionState::Draft => "draft"@,
            ConnectionState::Validating => "validating"@,
        }
    }

    proof fn lemma_name_decodes(k: Self) {
        match k {
            ConnectionState::Active => {
                reveal_strlit("active");
            },
            ConnectionState::Inactive => {
                reveal_strlit("inactive");
                reveal_strlit("active");
                lemma_texts_differ("inactive"@, "active"@, 0);
            },
            ConnectionState::Draft => {
                reveal_strlit("draft");
                reveal_strlit("active");
                lemma_texts_differ("draft"@, "active"@, 0);
                reveal_strlit("inactive");
                lemma_texts_differ("draft"@, "inactive"@, 0);
            },
            ConnectionState::Validating => {
                reveal_strlit("validating");
                reveal_strlit("active");
                lemma_texts_differ("validating"@, "active"@, 0);
                reveal_strlit("inactive");
                lemma_texts_differ("validating"@, "inactive"@, 0);
                reveal_strlit("draft");
                lemma_texts_differ("validating"@, "draft"@, 0);
            },
        }
    }

    fn decode(s: &str) -> (r: Option<Self>) {
        if same_text(s, "active") {
            Some(ConnectionState::Active)
        } else if same_text(s, "inactive") {
            Some(ConnectionState::Inactive)
        } else if same_text(s, "draft") {
            Some(ConnectionState::Draft)
        } else if same_text(s, "validating") {
            Some(ConnectionState::Validating)
        } else {
            None
        }
    }

    fn name(&self) -> (r: &'static str) {
        match self {
            ConnectionState::Active => "active",
            ConnectionState::Inactive => "inactive",
            ConnectionState::Draft => "draft",
            ConnectionState::Validating => "validating",
        }
    }
}

/// The identity provider and protocol of a [`Connection`].
#[derive(Debug, Clone, Copy, PartialEq, Eq, Structural)]
pub enum ConnectionType {
    /// AD FS SAML.
    AdfsSaml,
    /// Azure AD SAML.
    AzureSaml,
    /// Generic OpenID Connect.
    GenericOidc,
    /// Generic SAML.
    GenericSaml,
    /// Google OAuth.
    GoogleOAuth,
    /// Google SAML.
    GoogleSaml,
    /// JumpCloud SAML.
    JumpCloudSaml,
    /// Magic Link.
    MagicLink,
    /// Microsoft OAuth.
    MicrosoftOAuth,
    /// Okta SAML.
    OktaSaml,
    /// OneLogin SAML.
    OneLoginSaml,
    /// PingFederate SAML.
    PingFederateSaml,
    /// PingOne SAML.
    PingOneSaml,
}

impl WireEnum for ConnectionType {
    open spec fn spec_decode(s: Seq<char>) -> Option<Self> {
        if s == "ADFSSAML"@ {
            Some(ConnectionType::AdfsSaml)
        } else if s == "AzureSAML"@ {
            Some(ConnectionType::AzureSaml)
        } else if s == "GenericOIDC"@ {
            Some(ConnectionType::GenericOidc)
        } else if s == "GenericSAML"@ {
            Some(ConnectionType::GenericSaml)
        } else if s == "GoogleOAuth"@ {
            Some(ConnectionType::GoogleOAuth)
        } else if s == "GoogleSAML"@ {
            Some(ConnectionType::GoogleSaml)
        } else if s == "JumpCloudSAML"@ {
            Some(ConnectionType::JumpCloudSaml)
        } else if s == "MagicLink"@ {
            Some(ConnectionType::MagicLink)
        } else if s == "MicrosoftOAuth"@ {
            Some(ConnectionType::MicrosoftOAuth)
        } else if s == "OktaSAML"@ {
            Some(ConnectionType::OktaSaml)
        } else if s == "OneLoginSAML"@ {
            Some(ConnectionType::OneLoginSaml)
        } else if s == "PingFederateSAML"@ {
            Some(ConnectionType::PingFederateSaml)
        } else if s == "PingOneSAML"@ {
            Some(ConnectionType::PingOneSaml)
        } else {
            None
        }
    }

    open spec fn spec_name(&self) -> Seq<char> {
        match self {
            ConnectionType::AdfsSaml => "ADFSSAML"@,
            ConnectionType::AzureSaml => "AzureSAML"@,
            ConnectionType::GenericOidc => "GenericOIDC"@,
            ConnectionType::GenericSaml => "GenericSAML"@,
            ConnectionType::GoogleOAuth => "GoogleOAuth"@,
            ConnectionType::GoogleSaml => "GoogleSAML"@,
            ConnectionType::JumpCloudSaml => "JumpCloudSAML"@,
            ConnectionType::MagicLink => "MagicLink"@,
            ConnectionType::MicrosoftOAuth => "MicrosoftOAuth"@,
            ConnectionType::OktaSaml => "OktaSAML"@,
            ConnectionType::OneLoginSaml => "OneLoginSAML"@,
            ConnectionType::PingFederateSaml => "PingFederateSAML"@,
            ConnectionType::PingOneSaml => "PingOneSAML"@,
        }
    }

    proof fn lemma_name_decodes(k: Self) {
        match k {
            ConnectionType::AdfsSaml => {
                reveal_strlit("ADFSSAML");
            },
            ConnectionType::AzureSaml => {
                reveal_strlit("AzureSAML");
                reveal_strlit("ADFSSAML");
                lemma_texts_differ("AzureSAML"@, "ADFSSAML"@, 0);
            },
            ConnectionType::GenericOidc => {
                reveal_strlit("GenericOIDC");
                reveal_strlit("ADFSSAML");
                lemma_texts_differ("GenericOIDC"@, "ADFSSAML"@, 0);
                reveal_strlit("AzureSAML");
                lemma_texts_differ("GenericOIDC"@, "AzureSAML"@, 0);
            },
            ConnectionType::GenericSaml => {
                reveal_strlit("GenericSAML");
                reveal_strlit("ADFSSAML");
                lemma_texts_differ("GenericSAML"@, "ADFSSAML"@, 0);
                reveal_strlit("AzureSAML");
                lemma_texts_differ("GenericSAML"@, "AzureSAML"@, 0);
                reveal_strlit("GenericOIDC");
                lemma_texts_differ("GenericSAML"@, "GenericOIDC"@, 7);
            },
            ConnectionType::GoogleOAuth => {
                reveal_strlit("GoogleOAuth");
                reveal_strlit("ADFSSAML");
                lemma_texts_differ("GoogleOAuth"@, "ADFSSAML"@, 0);
                reveal_strlit("AzureSAML");
                lemma_texts_differ("GoogleOAuth"@, "AzureSAML"@, 0);
                reveal_strlit("GenericOIDC");
                lemma_texts_differ("GoogleOAuth"@, "GenericOIDC"@, 1);
                reveal_strlit("GenericSAML");
                lemma_texts_differ("GoogleOAuth"@, "GenericSAML"@, 1);
            },
            ConnectionType::GoogleSaml => {
                reveal_strlit("GoogleSAML");
                reveal_strlit("ADFSSAML");
                lemma_texts_differ("GoogleSAML"@, "ADFSSAML"@, 0);
                reveal_strlit("AzureSAML");
                lemma_texts_differ("GoogleSAML"@, "AzureSAML"@, 0);
                reveal_strlit("GenericOIDC");
                lemma_texts_differ("GoogleSAML"@, "GenericOIDC"@, 0);
                reveal_strlit("GenericSAML");
                lemma_texts_differ("GoogleSAML"@, "GenericSAML"@, 0);
                reveal_strlit("GoogleOAuth");
                lemma_texts_differ("GoogleSAML"@, "GoogleOAuth"@, 0);
            },
            ConnectionType::JumpCloudSaml => {
                reveal_strlit("JumpCloudSAML");
                reveal_strlit("ADFSSAML");
                lemma_texts_differ("JumpCloudSAML"@, "ADFSSAML"@, 0);
                reveal_strlit("AzureSAML");
                lemma_texts_differ("JumpCloudSAML"@, "AzureSAML"@, 0);
                reveal_strlit("GenericOIDC");
                lemma_texts_differ("JumpCloudSAML"@, "GenericOIDC"@, 0);
                reveal_strlit("GenericSAML");
                lemma_texts_differ("JumpCloudSAML"@, "GenericSAML"@, 0);
                reveal_strlit("GoogleOAuth");
                lemma_texts_differ("JumpCloudSAML"@, "GoogleOAuth"@, 0);
                reveal_strlit("GoogleSAML");
                lemma_texts_differ("JumpCloudSAML"@, "GoogleSAML"@, 0);
            },
            ConnectionType::MagicLink => {
                reveal_strlit("MagicLink");
                reveal_strlit("ADFSSAML");
                lemma_texts_differ("MagicLink"@, "ADFSSAML"@, 0);
                reveal_strlit("AzureSAML");
                lemma_texts_differ("MagicLink"@, "AzureSAML"@, 0);
                reveal_strlit("GenericOIDC");
                lemma_texts_differ("MagicLink"@, "GenericOIDC"@, 0);
                reveal_strlit("GenericSAML");
                lemma_texts_differ("MagicLink"@, "GenericSAML"@, 0);
                reveal_strlit("GoogleOAuth");
                lemma_texts_differ("MagicLink"@, "GoogleOAuth"@, 0);
                reveal_strlit("GoogleSAML");
                lemma_texts_differ("MagicLink"@, "GoogleSAML"@, 0);
                reveal_strlit("JumpCloudSAML");
                lemma_texts_differ("MagicLink"@, "JumpCloudSAML"@, 0);
            },
            ConnectionType::MicrosoftOAuth => {
                reveal_strlit("MicrosoftOAuth");
                reveal_strlit("ADFSSAML");
                lemma_texts_differ("MicrosoftOAuth"@, "ADFSSAML"@, 0);
                reveal_strlit("AzureSAML");
                lemma_texts_differ("MicrosoftOAuth"@, "AzureSAML"@, 0);
                reveal_strlit("GenericOIDC");
                lemma_texts_differ("MicrosoftOAuth"@, "GenericOIDC"@, 0);
                reveal_strlit("GenericSAML");
                lemma_texts_differ("MicrosoftOAuth"@, "GenericSAML"@, 0);
                reveal_strlit("GoogleOAuth");
                lemma_texts_differ("MicrosoftOAuth"@, "GoogleOAuth"@, 0);
                reveal_strlit("GoogleSAML");
                lemma_texts_differ("MicrosoftOAuth"@, "GoogleSAML"@, 0);
                reveal_strlit("JumpCloudSAML");
                lemma_texts_differ("MicrosoftOAuth"@, "JumpCloudSAML"@, 0);
                reveal_strlit("MagicLink");
                lemma_texts_differ("MicrosoftOAuth"@, "MagicLink"@, 0);
            },
            ConnectionType::OktaSaml => {
                reveal_strlit("OktaSAML");
                reveal_strlit("ADFSSAML");
                lemma_texts_differ("OktaSAML"@, "ADFSSAML"@, 0);
                reveal_strlit("AzureSAML");
                lemma_texts_differ("OktaSAML"@, "AzureSAML"@, 0);
                reveal_strlit("GenericOIDC");
                lemma_texts_differ("OktaSAML"@, "GenericOIDC"@, 0);
                reveal_strlit("GenericSAML");
                lemma_texts_differ("OktaSAML"@, "GenericSAML"@, 0);
                reveal_strlit("GoogleOAuth");
                lemma_texts_differ("OktaSAML"@, "GoogleOAuth"@, 0);
                reveal_strlit("GoogleSAML");
                lemma_texts_differ("OktaSAML"@, "GoogleSAML"@, 0);
                reveal_strlit("JumpCloudSAML");
                lemma_texts_differ("OktaSAML"@, "JumpCloudSAML"@, 0);
                reveal_strlit("MagicLink");
                lemma_texts_differ("OktaSAML"@, "MagicLink"@, 0);
                reveal_strlit("MicrosoftOAuth");
                lemma_texts_differ("OktaSAML"@, "MicrosoftOAuth"@, 0);
            },
            ConnectionType::OneLoginSaml => {
                reveal_strlit("OneLoginSAML");
                reveal_strlit("ADFSSAML");
                lemma_texts_differ("OneLoginSAML"@, "ADFSSAML"@, 0);
                reveal_strlit("AzureSAML");
                lemma_texts_differ("OneLoginSAML"@, "AzureSAML"@, 0);
                reveal_strlit("GenericOIDC");
                lemma_texts_differ("OneLoginSAML"@, "GenericOIDC"@, 0);
                reveal_strlit("GenericSAML");
                lemma_texts_differ("OneLoginSAML"@, "GenericSAML"@, 0);
                reveal_strlit("GoogleOAuth");
                lemma_texts_differ("OneLoginSAML"@, "GoogleOAuth"@, 0);
                reveal_strlit("GoogleSAML");
                lemma_texts_differ("OneLoginSAML"@, "GoogleSAML"@, 0);
                reveal_strlit("JumpCloudSAML");
                lemma_texts_differ("OneLoginSAML"@, "JumpCloudSAML"@, 0);
                reveal_strlit("MagicLink");
                lemma_texts_differ("OneLoginSAML"@, "MagicLink"@, 0);
                reveal_strlit("MicrosoftOAuth");
                lemma_texts_differ("OneLoginSAML"@, "MicrosoftOAuth"@, 0);
                reveal_strlit("OktaSAML");
                lemma_texts_differ("OneLoginSAML"@, "OktaSAML"@, 0);
            },
            ConnectionType::PingFederateSaml => {
                reveal_strlit("PingFederateSAML");
                reveal_strlit("ADFSSAML");
                lemma_texts_differ("PingFederateSAML"@, "ADFSSAML"@, 0);
                reveal_strlit("AzureSAML");
                lemma_texts_differ("PingFederateSAML"@, "AzureSAML"@, 0);
                reveal_strlit("GenericOIDC");
                lemma_texts_differ("PingFederateSAML"@, "GenericOIDC"@, 0);
                reveal_strlit("GenericSAML");
                lemma_texts_differ("PingFederateSAML"@, "GenericSAML"@, 0);
                reveal_strlit("GoogleOAuth");
                lemma_texts_differ("PingFederateSAML"@, "GoogleOAuth"@, 0);
                reveal_strlit("GoogleSAML");
                lemma_texts_differ("PingFederateSAML"@, "GoogleSAML"@, 0);
                reveal_strlit("JumpCloudSAML");
                lemma_texts_differ("PingFederateSAML"@, "JumpCloudSAML"@, 0);
                reveal_strlit("MagicLink");
                lemma_texts_differ("PingFederateSAML"@, "MagicLink"@, 0);
                reveal_strlit("MicrosoftOAuth");
                lemma_texts_differ("PingFederateSAML"@, "MicrosoftOAuth"@, 0);
                reveal_strlit("OktaSAML");
                lemma_texts_differ("PingFederateSAML"@, "OktaSAML"@, 0);
                reveal_strlit("OneLoginSAML");
                lemma_texts_differ("PingFederateSAML"@, "OneLoginSAML"@, 0);
            },
            ConnectionType::PingOneSaml => {
                reveal_strlit("PingOneSAML");
                reveal_strlit("ADFSSAML");
                lemma_texts_differ("PingOneSAML"@, "ADFSSAML"@, 0);
                reveal_strlit("AzureSAML");
                lemma_texts_differ("PingOneSAML"@, "AzureSAML"@, 0);
                reveal_strlit("GenericOIDC");
                lemma_texts_differ("PingOneSAML"@, "GenericOIDC"@, 0);
                reveal_strlit("GenericSAML");
                lemma_texts_differ("PingOneSAML"@, "GenericSAML"@, 0);
                reveal_strlit("GoogleOAuth");
                lemma_texts_differ("PingOneSAML"@, "GoogleOAuth"@, 0);
                reveal_strlit("GoogleSAML");
                lemma_texts_differ("PingOneSAML"@, "GoogleSAML"@, 0);
                reveal_strlit("JumpCloudSAML");
                lemma_texts_differ("PingOneSAML"@, "JumpCloudSAML"@, 0);
                reveal_strlit("MagicLink");
                lemma_texts_differ("PingOneSAML"@, "MagicLink"@, 0);
                reveal_strlit("MicrosoftOAuth");
                lemma_texts_differ("PingOneSAML"@, "MicrosoftOAuth"@, 0);
                reveal_strlit("OktaSAML");
                lemma_texts_differ("PingOneSAML"@, "OktaSAML"@, 0);
                reveal_strlit("OneLoginSAML");
                lemma_texts_differ("PingOneSAML"@, "OneLoginSAML"@, 0);
                reveal_strlit("PingFederateSAML");
                lemma_texts_differ("PingOneSAML"@, "PingFederateSAML"@, 0);
            },
        }
    }

    fn decode(s: &str) -> (r: Option<Self>) {
        if same_text(s, "ADFSSAML") {
            Some(ConnectionType::AdfsSaml)
        } else if same_text(s, "AzureSAML") {
            Some(ConnectionType::AzureSaml)
        } else if same_text(s, "GenericOIDC") {
            Some(ConnectionType::GenericOidc)
        } else if same_text(s, "GenericSAML") {
            Some(ConnectionType::GenericSaml)
        } else if same_text(s, "GoogleOAuth") {
            Some(ConnectionType::GoogleOAuth)
        } else if same_text(s, "GoogleSAML") {
            Some(ConnectionType::GoogleSaml)
        } else if same_text(s, "JumpCloudSAML") {
            Some(ConnectionType::JumpCloudSaml)
        } else if same_text(s, "MagicLink") {
            Some(ConnectionType::MagicLink)
        } else if same_text(s, "MicrosoftOAuth") {
            Some(ConnectionType::MicrosoftOAuth)
        } else if same_text(s, "OktaSAML") {
            Some(ConnectionType::OktaSaml)
        } else if same_text(s, "OneLoginSAML") {
            Some(ConnectionType::OneLoginSaml)
        } else if same_text(s, "PingFederateSAML") {
            Some(ConnectionType::PingFederateSaml)
        } else if same_text(s, "PingOneSAML") {
            Some(ConnectionType::PingOneSaml)
        } else {
            None
        }
    }

    fn name(&self) -> (r: &'static str) {
        match self {
            ConnectionType::AdfsSaml => "ADFSSAML",
            ConnectionType::AzureSaml => "AzureSAML",
            ConnectionType::GenericOidc => "GenericOIDC",
            ConnectionType::GenericSaml => "GenericSAML",
            ConnectionType::GoogleOAuth => "GoogleOAuth",
            ConnectionType::GoogleSaml => "GoogleSAML",
            ConnectionType::JumpCloudSaml => "JumpCloudSAML",
            ConnectionType::MagicLink => "MagicLink",
            ConnectionType::MicrosoftOAuth => "MicrosoftOAuth",
            ConnectionType::OktaSaml => "OktaSAML",
            ConnectionType::OneLoginSaml => "OneLoginSAML",
            ConnectionType::PingFederateSaml => "PingFederateSAML",
            ConnectionType::PingOneSaml => "PingOneSAML",
        }
    }
}

/// [`Connection`] as it stands on the wire: every field as the text the API
/// sends, before any of it is read.
#[derive(Debug, Clone, PartialEq, Eq)]
pub struct ConnectionFields {
    pub id: String,
    pub organization_id: Option<String>,
    pub connection_type: String,
    pub state: String,
    pub name: String,
    pub created_at: String,
    pub updated_at: String,
}

/// A single-sign-on connection resource.
#[derive(Debug, Clone, PartialEq, Eq)]
pub struct Connection {
    /// The ID of the connection.
    pub id: ConnectionId,
    /// The ID of the organization the connection belongs to, if any.
    pub organization_id: Option<OrganizationId>,
    /// The identity provider and protocol of the connection.
    pub connection_type: KnownOrUnknown<ConnectionType, String>,
    /// The state of the connection.
    pub state: KnownOrUnknown<ConnectionState, String>,
    /// The name of the connection.
    pub name: String,
    /// When the connection was created and last updated.
    pub timestamps: Timestamps,
}

impl Connection {
    /// A record that reading can give: open enumerations hold no unknown text
    /// that names a variant, and both instants are valid.
    pub open spec fn wf(&self) -> bool {
        self.connection_type.wf() && self.state.wf() && self.timestamps.wf()
    }

    /// The two records agree field for field, texts compared by their characters.
    pub open spec fn same_record(&self, other: &Connection) -> bool {
        &&& self.id@ == other.id@
        &&& organization_text(self.organization_id) == organization_text(other.organization_id)
        &&& self.connection_type.same_value(&other.connection_type)
        &&& self.state.same_value(&other.state)
        &&& self.name@ == other.name@
        &&& self.timestamps == other.timestamps
    }

    /// `d` is what reading the wire fields `f` gives, once its instants read
    /// as `timestamps`.
    pub open spec fn read_as(f: ConnectionFields, timestamps: Timestamps, d: Connection) -> bool {
        &&& d.id@ == f.id@
        &&& organization_text(d.organization_id) == text_of(f.organization_id)
        &&& KnownOrUnknown::<ConnectionType, String>::decodes_to(f.connection_type@, d.connection_type)
        &&& KnownOrUnknown::<ConnectionState, String>::decodes_to(f.state@, d.state)
        &&& d.name@ == f.name@
        &&& d.timestamps == timestamps
    }

    /// What reading the wire fields `f` gives: it fails only on an instant
    /// that cannot be read; an unrecognized type or state is kept as unknown.
    pub open spec fn reads(f: ConnectionFields, r: Result<Connection, TimestampsError>) -> bool {
        match Timestamps::spec_parse(f.created_at@, f.updated_at@) {
            Err(e) => r == Err::<Connection, TimestampsError>(e),
            Ok(t) => r is Ok && Self::read_as(f, t, r->Ok_0),
        }
    }

    /// `f` holds the wire text of every field of the record.
    pub open spec fn writes(&self, f: ConnectionFields) -> bool {
        &&& f.id@ == self.id@
        &&& text_of(f.organization_id) == organization_text(self.organization_id)
        &&& f.connection_type@ == self.connection_type.wire_text()
        &&& f.state@ == self.state.wire_text()
        &&& f.name@ == self.name@
        &&& f.created_at@ == self.timestamps.created_at.spec_text()
        &&& f.updated_at@ == self.timestamps.updated_at.spec_text()
    }

    /// Reads a connection from its wire fields.
    pub fn from_fields(f: &ConnectionFields) -> (r: Result<Connection, TimestampsError>)
        ensures
            Self::reads(*f, r),
            r is Ok ==> r->Ok_0.wf(),
    {
        let timestamps = match Timestamps::parse(f.created_at.as_str(), f.updated_at.as_str()) {
            Ok(t) => t,
            Err(e) => return Err(e),
        };
        let organization_id = match &f.organization_id {
            Some(o) => Some(OrganizationId::new(o.as_str())),
            None => None,
        };
        Ok(Connection {
            id: ConnectionId::new(f.id.as_str()),
            organization_id,
            connection_type: KnownOrUnknown::from_wire(f.connection_type.as_str()),
            state: KnownOrUnknown::from_wire(f.state.as_str()),
            name: f.name.clone(),
            timestamps,
        })
    }

    /// Writes the connection as wire fields.
    pub fn to_fields(&self) -> (r: ConnectionFields)
        ensures
            self.writes(r),
    {
        let organization_id = match &self.organization_id {
            Some(o) => Some(o.to_string()),
            None => None,
        };
        ConnectionFields {
            id: self.id.to_string(),
            organization_id,
            connection_type: self.connection_type.to_wire(),
            state: self.state.to_wire(),
            name: self.name.clone(),
            created_at: self.timestamps.created_at.to_text(),
            updated_at: self.timestamps.updated_at.to_text(),
        }
    }
}

/// Connection round trip: reading back the wire fields that a record reading
/// can give writes yields a record equal to it, field for field.
pub proof fn lemma_connection_round_trip(
    d: Connection,
    f: ConnectionFields,
    r: Result<Connection, TimestampsError>,
)
    requires
        d.wf(),
        d.writes(f),
        Connection::reads(f, r),
    ensures
        r is Ok,
        r->Ok_0.same_record(&d),
{
    lemma_timestamp_round_trip(d.timestamps.created_at);
    lemma_timestamp_round_trip(d.timestamps.updated_at);
    lemma_open_enum_round_trip(d.connection_type);
    lemma_open_enum_round_trip(d.state);
}

/// An error proper to retrieving a connection. Retrieval has no failure
/// beyond the shared kinds of [`WorkOsError`]: the one variant is reserved,
/// and [`get_connection_response`] never gives it.
#[derive(Debug, Clone, Copy, PartialEq, Eq, Structural)]
pub enum GetConnectionError {
    Reserved,
}

impl From<GetConnectionError> for WorkOsError<GetConnectionError> {
    fn from(err: GetConnectionError) -> (r: Self) {
        WorkOsError::Operation(err)
    }
}

impl vstd::std_specs::convert::FromSpecImpl<GetConnectionError> for WorkOsError<GetConnectionError> {
    open spec fn obeys_from_spec() -> bool {
        true
    }

    open spec fn from_spec(v: GetConnectionError) -> Self {
        WorkOsError::Operation(v)
    }
}

/// The request that retrieves a connection by its ID:
/// `GET /connections/{id}` with the API key as bearer credential.
pub fn get_connection_request(api_key: &str, connection_id: &str) -> (r: Request)
    ensures
        r.method == Method::Get,
        r.path@ == "/connections/"@ + connection_id@,
        r.authorization@ == "Bearer "@ + api_key@,
{
    get_request("/connections/", connection_id, api_key)
}

/// What the response to [`get_connection_request`] gives, from its status,
/// the message of its body read as an error envelope (if it is one), and
/// its body read as the wire fields of a connection (or why it is not).
pub open spec fn get_connection_outcome(
    status: u16,
    error_message: Option<String>,
    body: Result<ConnectionFields, String>,
    r: WorkOsResult<Connection, GetConnectionError>,
) -> bool {
    match status_error::<GetConnectionError>(status, error_message) {
        Some(e) => r == Err::<Connection, WorkOsError<GetConnectionError>>(e),
        None => match body {
            Err(m) => r == Err::<Connection, WorkOsError<GetConnectionError>>(
                WorkOsError::Decode(DecodeError::Body(m)),
            ),
            Ok(f) => match Timestamps::spec_parse(f.created_at@, f.updated_at@) {
                Err(e) => r == Err::<Connection, WorkOsError<GetConnectionError>>(
                    WorkOsError::Decode(DecodeError::Timestamps(e)),
                ),
                Ok(t) => r is Ok && Connection::read_as(f, t, r->Ok_0),
            },
        },
    }
}

/// Turns the response to [`get_connection_request`] into a connection or an
/// error: 401 first, whatever the body; then any other status outside 2xx;
/// then the body read as a connection.
pub fn get_connection_response(
    status: u16,
    error_message: Option<String>,
    body: Result<ConnectionFields, String>,
) -> (r: WorkOsResult<Connection, GetConnectionError>)
    ensures
        get_connection_outcome(status, error_message, body, r),
        status == 401 ==> r == Err::<Connection, WorkOsError<GetConnectionError>>(
            WorkOsError::Unauthorized,
        ),
        r is Ok ==> r->Ok_0.wf(),
        !(r is Err && r->Err_0 is Operation),
{
    match handle_unauthorized_or_generic_error::<GetConnectionError>(status, error_message) {
        Err(e) => Err(e),
        Ok(()) => match body {
            Err(m) => Err(WorkOsError::Decode(DecodeError::Body(m))),
            Ok(f) => match Connection::from_fields(&f) {
                Ok(d) => Ok(d),
                Err(e) => Err(WorkOsError::Decode(DecodeError::Timestamps(e))),
            },
        },
    }
}

} // verus!
