use vstd::prelude::*;
use crate::ids::{DirectoryId, OrganizationId};
use crate::open_enum::{KnownOrUnknown, WireEnum, lemma_open_enum_round_trip};
use crate::text::{lemma_texts_differ, same_text};
use crate::timestamp::{Timestamps, TimestampsError, lemma_timestamp_round_trip};

verus! {

/// The state of a [`Directory`]. The names `unlinked` and `linked` are
/// historical aliases of `inactive` and `active`.
#[derive(Debug, Clone, Copy, PartialEq, Eq, Structural)]
pub enum DirectoryState {
    /// The directory is inactive.
    Inactive,
    /// The directory is being validated.
    Validating,
    /// The directory is active.
    Active,
    /// The directory encountered an issue with invalid credentials.
    InvalidCredentials,
    /// The directory is being deleted.
    Deleting,
}

impl WireEnum for DirectoryState {
    open spec fn spec_decode(s: Seq<char>) -> Option<Self> {
        if s == "inactive"@ || s == "unlinked"@ {
            Some(DirectoryState::Inactive)
        } else if s == "validating"@ {
            Some(DirectoryState::Validating)
        } else if s == "active"@ || s == "linked"@ {
            Some(DirectoryState::Active)
        } else if s == "invalid_credentials"@ {
            Some(DirectoryState::InvalidCredentials)
        } else if s == "deleting"@ {
            Some(DirectoryState::Deleting)
        } else {
            None
        }
    }

    open spec fn spec_name(&self) -> Seq<char> {
        match self {
            DirectoryState::Inactive => "inactive"@,
            DirectoryState::Validating => "validating"@,
            DirectoryState::Active => "active"@,
            DirectoryState::InvalidCredentials => "invalid_credentials"@,
            DirectoryState::Deleting => "deleting"@,
        }
    }

    proof fn lemma_name_decodes(k: Self) {
        match k {
            DirectoryState::Inactive => {
                reveal_strlit("inactive");
            },
            DirectoryState::Validating => {
                reveal_strlit("validating");
                reveal_strlit("inactive");
                lemma_texts_differ("validating"@, "inactive"@, 0);
                reveal_strlit("unlinked");
                lemma_texts_differ("validating"@, "unlinked"@, 0);
            },
            DirectoryState::Active => {
                reveal_strlit("active");
                reveal_strlit("inactive");
                lemma_texts_differ("active"@, "inactive"@, 0);
                reveal_strlit("unlinked");
                lemma_texts_differ("active"@, "unlinked"@, 0);
                reveal_strlit("validating");
                lemma_texts_differ("active"@, "validating"@, 0);
            },
            DirectoryState::InvalidCredentials => {
                reveal_strlit("invalid_credentials");
                reveal_strlit("inactive");
                lemma_texts_differ("invalid_credentials"@, "inactive"@, 0);
                reveal_strlit("unlinked");
                lemma_texts_differ("invalid_credentials"@, "unlinked"@, 0);
                reveal_strlit("validating");
                lemma_texts_differ("invalid_credentials"@, "validating"@, 0);
                reveal_strlit("active");
                lemma_texts_differ("invalid_credentials"@, "active"@, 0);
                reveal_strlit("linked");
                lemma_texts_differ("invalid_credentials"@, "linked"@, 0);
            },
            DirectoryState::Deleting => {
                reveal_strlit("deleting");
                reveal_strlit("inactive");
                lemma_texts_differ("deleting"@, "inactive"@, 0);
                reveal_strlit("unlinked");
                lemma_texts_differ("deleting"@, "unlinked"@, 0);
                reveal_strlit("validating");
                lemma_texts_differ("deleting"@, "validating"@, 0);
                reveal_strlit("active");
                lemma_texts_differ("deleting"@, "active"@, 0);
                reveal_strlit("linked");
                lemma_texts_differ("deleting"@, "linked"@, 0);
                reveal_strlit("invalid_credentials");
                lemma_texts_differ("deleting"@, "invalid_credentials"@, 0);
            },
        }
    }

    fn decode(s: &str) -> (r: Option<Self>) {
        if same_text(s, "inactive") || same_text(s, "unlinked") {
            Some(DirectoryState::Inactive)
        } else if same_text(s, "validating") {
            Some(DirectoryState::Validating)
        } else if same_text(s, "active") || same_text(s, "linked") {
            Some(DirectoryState::Active)
        } else if same_text(s, "invalid_credentials") {
            Some(DirectoryState::InvalidCredentials)
        } else if same_text(s, "deleting") {
            Some(DirectoryState::Deleting)
        } else {
            None
        }
    }

    fn name(&self) -> (r: &'static str) {
        match self {
            DirectoryState::Inactive => "inactive",
            DirectoryState::Validating => "validating",
            DirectoryState::Active => "active",
            DirectoryState::InvalidCredentials => "invalid_credentials",
            DirectoryState::Deleting => "deleting",
        }
    }
}

/// The provider behind a [`Directory`].
#[derive(Debug, Clone, Copy, PartialEq, Eq, Structural)]
pub enum DirectoryType {
    /// Azure AD SCIM v2.0.
    AzureScimV2,
    /// BambooHR.
    BambooHr,
    /// Breathe HR.
    BreatheHr,
    /// Cezanne HR.
    CezanneHr,
    /// CyberArk SCIM v2.0.
    CyberArkScimV2,
    /// Fourth HR.
    FourthHr,
    /// Generic SCIM v2.0.
    GenericScimV2,
    /// Google Workspace.
    GoogleWorkspace,
    /// HiBob.
    HiBob,
    /// JumpCloud SCIM v2.0.
    JumpCloudScimV2,
    /// Okta SCIM v2.0.
    OktaScimV2,
    /// OneLogin SCIM v2.0.
    OneLoginScimV2,
    /// People HR.
    PeopleHr,
    /// Personio.
    Personio,
    /// PingFederate SCIM v2.0.
    PingFederateScimV2,
    /// Rippling SCIM v2.0.
    RipplingScimV2,
    /// SFTP.
    Sftp,
    /// SFTP Workday.
    SftpWorkday,
    /// Workday.
    Workday,
}

impl WireEnum for DirectoryType {
    open spec fn spec_decode(s: Seq<char>) -> Option<Self> {
        if s == "azure scim v2.0"@ {
            Some(DirectoryType::AzureScimV2)
        } else if s == "bamboohr"@ {
            Some(DirectoryType::BambooHr)
        } else if s == "breathe hr"@ {
            Some(DirectoryType::BreatheHr)
        } else if s == "cezanne hr"@ {
            Some(DirectoryType::CezanneHr)
        } else if s == "cyberark scim v2.0"@ {
            Some(DirectoryType::CyberArkScimV2)
        } else if s == "fourth hr"@ {
            Some(DirectoryType::FourthHr)
        } else if s == "generic scim v2.0"@ {
            Some(DirectoryType::GenericScimV2)
        } else if s == "gsuite directory"@ {
            Some(DirectoryType::GoogleWorkspace)
        } else if s == "hibob"@ {
            Some(DirectoryType::HiBob)
        } else if s == "jump cloud scim v2.0"@ {
            Some(DirectoryType::JumpCloudScimV2)
        } else if s == "okta scim v2.0"@ {
            Some(DirectoryType::OktaScimV2)
        } else if s == "onelogin scim v2.0"@ {
            Some(DirectoryType::OneLoginScimV2)
        } else if s == "people hr"@ {
            Some(DirectoryType::PeopleHr)
        } else if s == "personio"@ {
            Some(DirectoryType::Personio)
        } else if s == "pingfederate scim v2.0"@ {
            Some(DirectoryType::PingFederateScimV2)
        } else if s == "rippling scim v2.0"@ {
            Some(DirectoryType::RipplingScimV2)
        } else if s == "sftp"@ {
            Some(DirectoryType::Sftp)
        } else if s == "sftp workday"@ {
            Some(DirectoryType::SftpWorkday)
        } else if s == "workday"@ {
            Some(DirectoryType::Workday)
        } else {
            None
        }
    }

    open spec fn spec_name(&self) -> Seq<char> {
        match self {
            DirectoryType::AzureScimV2 => "azure scim v2.0"@,
            DirectoryType::BambooHr => "bamboohr"@,
            DirectoryType::BreatheHr => "breathe hr"@,
            DirectoryType::CezanneHr => "cezanne hr"@,
            DirectoryType::CyberArkScimV2 => "cyberark scim v2.0"@,
            DirectoryType::FourthHr => "fourth hr"@,
            DirectoryType::GenericScimV2 => "generic scim v2.0"@,
            DirectoryType::GoogleWorkspace => "gsuite directory"@,
            DirectoryType::HiBob => "hibob"@,
            DirectoryType::JumpCloudScimV2 => "jump cloud scim v2.0"@,
            DirectoryType::OktaScimV2 => "okta scim v2.0"@,
            DirectoryType::OneLoginScimV2 => "onelogin scim v2.0"@,
            DirectoryType::PeopleHr => "people hr"@,
            DirectoryType::Personio => "personio"@,
            DirectoryType::PingFederateScimV2 => "pingfederate scim v2.0"@,
            DirectoryType::RipplingScimV2 => "rippling scim v2.0"@,
            DirectoryType::Sftp => "sftp"@,
            DirectoryType::SftpWorkday => "sftp workday"@,
            DirectoryType::Workday => "workday"@,
        }
    }

    proof fn lemma_name_decodes(k: Self) {
        match k {
            DirectoryType::AzureScimV2 => {
                reveal_strlit("azure scim v2.0");
            },
            DirectoryType::BambooHr => {
                reveal_strlit("bamboohr");
                reveal_strlit("azure scim v2.0");
                lemma_texts_differ("bamboohr"@, "azure scim v2.0"@, 0);
            },
            DirectoryType::BreatheHr => {
                reveal_strlit("breathe hr");
                reveal_strlit("azure scim v2.0");
                lemma_texts_differ("breathe hr"@, "azure scim v2.0"@, 0);
                reveal_strlit("bamboohr");
                lemma_texts_differ("breathe hr"@, "bamboohr"@, 0);
            },
            DirectoryType::CezanneHr => {
                reveal_strlit("cezanne hr");
                reveal_strlit("azure scim v2.0");
                lemma_texts_differ("cezanne hr"@, "azure scim v2.0"@, 0);
                reveal_strlit("bamboohr");
                lemma_texts_differ("cezanne hr"@, "bamboohr"@, 0);
                reveal_strlit("breathe hr");
                lemma_texts_differ("cezanne hr"@, "breathe hr"@, 0);
            },
            DirectoryType::CyberArkScimV2 => {
                reveal_strlit("cyberark scim v2.0");
                reveal_strlit("azure scim v2.0");
                lemma_texts_differ("cyberark scim v2.0"@, "azure scim v2.0"@, 0);
                reveal_strlit("bamboohr");
                lemma_texts_differ("cyberark scim v2.0"@, "bamboohr"@, 0);
                reveal_strlit("breathe hr");
                lemma_texts_differ("cyberark scim v2.0"@, "breathe hr"@, 0);
                reveal_strlit("cezanne hr");
                lemma_texts_differ("cyberark scim v2.0"@, "cezanne hr"@, 0);
            },
            DirectoryType::FourthHr => {
                reveal_strlit("fourth hr");
                reveal_strlit("azure scim v2.0");
                lemma_texts_differ("fourth hr"@, "azure scim v2.0"@, 0);
                reveal_strlit("bamboohr");
                lemma_texts_differ("fourth hr"@, "bamboohr"@, 0);
                reveal_strlit("breathe hr");
                lemma_texts_differ("fourth hr"@, "breathe hr"@, 0);
                reveal_strlit("cezanne hr");
                lemma_texts_differ("fourth hr"@, "cezanne hr"@, 0);
                reveal_strlit("cyberark scim v2.0");
                lemma_texts_differ("fourth hr"@, "cyberark scim v2.0"@, 0);
            },
            DirectoryType::GenericScimV2 => {
                reveal_strlit("generic scim v2.0");
                reveal_strlit("azure scim v2.0");
                lemma_texts_differ("generic scim v2.0"@, "azure scim v2.0"@, 0);
                reveal_strlit("bamboohr");
                lemma_texts_differ("generic scim v2.0"@, "bamboohr"@, 0);
                reveal_strlit("breathe hr");
                lemma_texts_differ("generic scim v2.0"@, "breathe hr"@, 0);
                reveal_strlit("cezanne hr");
                lemma_texts_differ("generic scim v2.0"@, "cezanne hr"@, 0);
                reveal_strlit("cyberark scim v2.0");
                lemma_texts_differ("generic scim v2.0"@, "cyberark scim v2.0"@, 0);
                reveal_strlit("fourth hr");
                lemma_texts_differ("generic scim v2.0"@, "fourth hr"@, 0);
            },
            DirectoryType::GoogleWorkspace => {
                reveal_strlit("gsuite directory");
                reveal_strlit("azure scim v2.0");
                lemma_texts_differ("gsuite directory"@, "azure scim v2.0"@, 0);
                reveal_strlit("bamboohr");
                lemma_texts_differ("gsuite directory"@, "bamboohr"@, 0);
                reveal_strlit("breathe hr");
                lemma_texts_differ("gsuite directory"@, "breathe hr"@, 0);
                reveal_strlit("cezanne hr");
                lemma_texts_differ("gsuite directory"@, "cezanne hr"@, 0);
                reveal_strlit("cyberark scim v2.0");
                lemma_texts_differ("gsuite directory"@, "cyberark scim v2.0"@, 0);
                reveal_strlit("fourth hr");
                lemma_texts_differ("gsuite directory"@, "fourth hr"@, 0);
                reveal_strlit("generic scim v2.0");
                lemma_texts_differ("gsuite directory"@, "generic scim v2.0"@, 0);
            },
            DirectoryType::HiBob => {
                reveal_strlit("hibob");
                reveal_strlit("azure scim v2.0");
                lemma_texts_differ("hibob"@, "azure scim v2.0"@, 0);
                reveal_strlit("bamboohr");
                lemma_texts_differ("hibob"@, "bamboohr"@, 0);
                reveal_strlit("breathe hr");
                lemma_texts_differ("hibob"@, "breathe hr"@, 0);
                reveal_strlit("cezanne hr");
                lemma_texts_differ("hibob"@, "cezanne hr"@, 0);
                reveal_strlit("cyberark scim v2.0");
                lemma_texts_differ("hibob"@, "cyberark scim v2.0"@, 0);
                reveal_strlit("fourth hr");
                lemma_texts_differ("hibob"@, "fourth hr"@, 0);
                reveal_strlit("generic scim v2.0");
                lemma_texts_differ("hibob"@, "generic scim v2.0"@, 0);
                reveal_strlit("gsuite directory");
                lemma_texts_differ("hibob"@, "gsuite directory"@, 0);
            },
            DirectoryType::JumpCloudScimV2 => {
                reveal_strlit("jump cloud scim v2.0");
                reveal_strlit("azure scim v2.0");
                lemma_texts_differ("jump cloud scim v2.0"@, "azure scim v2.0"@, 0);
                reveal_strlit("bamboohr");
                lemma_texts_differ("jump cloud scim v2.0"@, "bamboohr"@, 0);
                reveal_strlit("breathe hr");
                lemma_texts_differ("jump cloud scim v2.0"@, "breathe hr"@, 0);
                reveal_strlit("cezanne hr");
                lemma_texts_differ("jump cloud scim v2.0"@, "cezanne hr"@, 0);
                reveal_strlit("cyberark scim v2.0");
                lemma_texts_differ("jump cloud scim v2.0"@, "cyberark scim v2.0"@, 0);
                reveal_strlit("fourth hr");
                lemma_texts_differ("jump cloud scim v2.0"@, "fourth hr"@, 0);
                reveal_strlit("generic scim v2.0");
                lemma_texts_differ("jump cloud scim v2.0"@, "generic scim v2.0"@, 0);
                reveal_strlit("gsuite directory");
                lemma_texts_differ("jump cloud scim v2.0"@, "gsuite directory"@, 0);
                reveal_strlit("hibob");
                lemma_texts_differ("jump cloud scim v2.0"@, "hibob"@, 0);
            },
            DirectoryType::OktaScimV2 => {
                reveal_strlit("okta scim v2.0");
                reveal_strlit("azure scim v2.0");
                lemma_texts_differ("okta scim v2.0"@, "azure scim v2.0"@, 0);
                reveal_strlit("bamboohr");
                lemma_texts_differ("okta scim v2.0"@, "bamboohr"@, 0);
                reveal_strlit("breathe hr");
                lemma_texts_differ("okta scim v2.0"@, "breathe hr"@, 0);
                reveal_strlit("cezanne hr");
                lemma_texts_differ("okta scim v2.0"@, "cezanne hr"@, 0);
                reveal_strlit("cyberark scim v2.0");
                lemma_texts_differ("okta scim v2.0"@, "cyberark scim v2.0"@, 0);
                reveal_strlit("fourth hr");
                lemma_texts_differ("okta scim v2.0"@, "fourth hr"@, 0);
                reveal_strlit("generic scim v2.0");
                lemma_texts_differ("okta scim v2.0"@, "generic scim v2.0"@, 0);
                reveal_strlit("gsuite directory");
                lemma_texts_differ("okta scim v2.0"@, "gsuite directory"@, 0);
                reveal_strlit("hibob");
                lemma_texts_differ("okta scim v2.0"@, "hibob"@, 0);
                reveal_strlit("jump cloud scim v2.0");
                lemma_texts_differ("okta scim v2.0"@, "jump cloud scim v2.0"@, 0);
            },
            DirectoryType::OneLoginScimV2 => {
                reveal_strlit("onelogin scim v2.0");
                reveal_strlit("azure scim v2.0");
                lemma_texts_differ("onelogin scim v2.0"@, "azure scim v2.0"@, 0);
                reveal_strlit("bamboohr");
                lemma_texts_differ("onelogin scim v2.0"@, "bamboohr"@, 0);
                reveal_strlit("breathe hr");
                lemma_texts_differ("onelogin scim v2.0"@, "breathe hr"@, 0);
                reveal_strlit("cezanne hr");
                lemma_texts_differ("onelogin scim v2.0"@, "cezanne hr"@, 0);
                reveal_strlit("cyberark scim v2.0");
                lemma_texts_differ("onelogin scim v2.0"@, "cyberark scim v2.0"@, 0);
                reveal_strlit("fourth hr");
                lemma_texts_differ("onelogin scim v2.0"@, "fourth hr"@, 0);
                reveal_strlit("generic scim v2.0");
                lemma_texts_differ("onelogin scim v2.0"@, "generic scim v2.0"@, 0);
                reveal_strlit("gsuite directory");
                lemma_texts_differ("onelogin scim v2.0"@, "gsuite directory"@, 0);
                reveal_strlit("hibob");
                lemma_texts_differ("onelogin scim v2.0"@, "hibob"@, 0);
                reveal_strlit("jump cloud scim v2.0");
                lemma_texts_differ("onelogin scim v2.0"@, "jump cloud scim v2.0"@, 0);
                reveal_strlit("okta scim v2.0");
                lemma_texts_differ("onelogin scim v2.0"@, "okta scim v2.0"@, 0);
            },
            DirectoryType::PeopleHr => {
                reveal_strlit("people hr");
                reveal_strlit("azure scim v2.0");
                lemma_texts_differ("people hr"@, "azure scim v2.0"@, 0);
                reveal_strlit("bamboohr");
                lemma_texts_differ("people hr"@, "bamboohr"@, 0);
                reveal_strlit("breathe hr");
                lemma_texts_differ("people hr"@, "breathe hr"@, 0);
                reveal_strlit("cezanne hr");
                lemma_texts_differ("people hr"@, "cezanne hr"@, 0);
                reveal_strlit("cyberark scim v2.0");
                lemma_texts_differ("people hr"@, "cyberark scim v2.0"@, 0);
                reveal_strlit("fourth hr");
                lemma_texts_differ("people hr"@, "fourth hr"@, 0);
                reveal_strlit("generic scim v2.0");
                lemma_texts_differ("people hr"@, "generic scim v2.0"@, 0);
                reveal_strlit("gsuite directory");
                lemma_texts_differ("people hr"@, "gsuite directory"@, 0);
                reveal_strlit("hibob");
                lemma_texts_differ("people hr"@, "hibob"@, 0);
                reveal_strlit("jump cloud scim v2.0");
                lemma_texts_differ("people hr"@, "jump cloud scim v2.0"@, 0);
                reveal_strlit("okta scim v2.0");
                lemma_texts_differ("people hr"@, "okta scim v2.0"@, 0);
                reveal_strlit("onelogin scim v2.0");
                lemma_texts_differ("people hr"@, "onelogin scim v2.0"@, 0);
            },
            DirectoryType::Personio => {
                reveal_strlit("personio");
                reveal_strlit("azure scim v2.0");
                lemma_texts_differ("personio"@, "azure scim v2.0"@, 0);
                reveal_strlit("bamboohr");
                lemma_texts_differ("personio"@, "bamboohr"@, 0);
                reveal_strlit("breathe hr");
                lemma_texts_differ("personio"@, "breathe hr"@, 0);
                reveal_strlit("cezanne hr");
                lemma_texts_differ("personio"@, "cezanne hr"@, 0);
                reveal_strlit("cyberark scim v2.0");
                lemma_texts_differ("personio"@, "cyberark scim v2.0"@, 0);
                reveal_strlit("fourth hr");
                lemma_texts_differ("personio"@, "fourth hr"@, 0);
                reveal_strlit("generic scim v2.0");
                lemma_texts_differ("personio"@, "generic scim v2.0"@, 0);
                reveal_strlit("gsuite directory");
                lemma_texts_differ("personio"@, "gsuite directory"@, 0);
                reveal_strlit("hibob");
                lemma_texts_differ("personio"@, "hibob"@, 0);
                reveal_strlit("jump cloud scim v2.0");
                lemma_texts_differ("personio"@, "jump cloud scim v2.0"@, 0);
                reveal_strlit("okta scim v2.0");
                lemma_texts_differ("personio"@, "okta scim v2.0"@, 0);
                reveal_strlit("onelogin scim v2.0");
                lemma_texts_differ("personio"@, "onelogin scim v2.0"@, 0);
                reveal_strlit("people hr");
                lemma_texts_differ("personio"@, "people hr"@, 0);
            },
            DirectoryType::PingFederateScimV2 => {
                reveal_strlit("pingfederate scim v2.0");
                reveal_strlit("azure scim v2.0");
                lemma_texts_differ("pingfederate scim v2.0"@, "azure scim v2.0"@, 0);
                reveal_strlit("bamboohr");
                lemma_texts_differ("pingfederate scim v2.0"@, "bamboohr"@, 0);
                reveal_strlit("breathe hr");
                lemma_texts_differ("pingfederate scim v2.0"@, "breathe hr"@, 0);
                reveal_strlit("cezanne hr");
                lemma_texts_differ("pingfederate scim v2.0"@, "cezanne hr"@, 0);
                reveal_strlit("cyberark scim v2.0");
                lemma_texts_differ("pingfederate scim v2.0"@, "cyberark scim v2.0"@, 0);
                reveal_strlit("fourth hr");
                lemma_texts_differ("pingfederate scim v2.0"@, "fourth hr"@, 0);
                reveal_strlit("generic scim v2.0");
                lemma_texts_differ("pingfederate scim v2.0"@, "generic scim v2.0"@, 0);
                reveal_strlit("gsuite directory");
                lemma_texts_differ("pingfederate scim v2.0"@, "gsuite directory"@, 0);
                reveal_strlit("hibob");
                lemma_texts_differ("pingfederate scim v2.0"@, "hibob"@, 0);
                reveal_strlit("jump cloud scim v2.0");
                lemma_texts_differ("pingfederate scim v2.0"@, "jump cloud scim v2.0"@, 0);
                reveal_strlit("okta scim v2.0");
                lemma_texts_differ("pingfederate scim v2.0"@, "okta scim v2.0"@, 0);
                reveal_strlit("onelogin scim v2.0");
                lemma_texts_differ("pingfederate scim v2.0"@, "onelogin scim v2.0"@, 0);
                reveal_strlit("people hr");
                lemma_texts_differ("pingfederate scim v2.0"@, "people hr"@, 0);
                reveal_strlit("personio");
                lemma_texts_differ("pingfederate scim v2.0"@, "personio"@, 0);
            },
            DirectoryType::RipplingScimV2 => {
                reveal_strlit("rippling scim v2.0");
                reveal_strlit("azure scim v2.0");
                lemma_texts_differ("rippling scim v2.0"@, "azure scim v2.0"@, 0);
                reveal_strlit("bamboohr");
                lemma_texts_differ("rippling scim v2.0"@, "bamboohr"@, 0);
                reveal_strlit("breathe hr");
                lemma_texts_differ("rippling scim v2.0"@, "breathe hr"@, 0);
                reveal_strlit("cezanne hr");
                lemma_texts_differ("rippling scim v2.0"@, "cezanne hr"@, 0);
                reveal_strlit("cyberark scim v2.0");
                lemma_texts_differ("rippling scim v2.0"@, "cyberark scim v2.0"@, 0);
                reveal_strlit("fourth hr");
                lemma_texts_differ("rippling scim v2.0"@, "fourth hr"@, 0);
                reveal_strlit("generic scim v2.0");
                lemma_texts_differ("rippling scim v2.0"@, "generic scim v2.0"@, 0);
                reveal_strlit("gsuite directory");
                lemma_texts_differ("rippling scim v2.0"@, "gsuite directory"@, 0);
                reveal_strlit("hibob");
                lemma_texts_differ("rippling scim v2.0"@, "hibob"@, 0);
                reveal_strlit("jump cloud scim v2.0");
                lemma_texts_differ("rippling scim v2.0"@, "jump cloud scim v2.0"@, 0);
                reveal_strlit("okta scim v2.0");
                lemma_texts_differ("rippling scim v2.0"@, "okta scim v2.0"@, 0);
                reveal_strlit("onelogin scim v2.0");
                lemma_texts_differ("rippling scim v2.0"@, "onelogin scim v2.0"@, 0);
                reveal_strlit("people hr");
                lemma_texts_differ("rippling scim v2.0"@, "people hr"@, 0);
                reveal_strlit("personio");
                lemma_texts_differ("rippling scim v2.0"@, "personio"@, 0);
                reveal_strlit("pingfederate scim v2.0");
                lemma_texts_differ("rippling scim v2.0"@, "pingfederate scim v2.0"@, 0);
            },
            DirectoryType::Sftp => {
                reveal_strlit("sftp");
                reveal_strlit("azure scim v2.0");
                lemma_texts_differ("sftp"@, "azure scim v2.0"@, 0);
                reveal_strlit("bamboohr");
                lemma_texts_differ("sftp"@, "bamboohr"@, 0);
                reveal_strlit("breathe hr");
                lemma_texts_differ("sftp"@, "breathe hr"@, 0);
                reveal_strlit("cezanne hr");
                lemma_texts_differ("sftp"@, "cezanne hr"@, 0);
                reveal_strlit("cyberark scim v2.0");
                lemma_texts_differ("sftp"@, "cyberark scim v2.0"@, 0);
                reveal_strlit("fourth hr");
                lemma_texts_differ("sftp"@, "fourth hr"@, 0);
                reveal_strlit("generic scim v2.0");
                lemma_texts_differ("sftp"@, "generic scim v2.0"@, 0);
                reveal_strlit("gsuite directory");
                lemma_texts_differ("sftp"@, "gsuite directory"@, 0);
                reveal_strlit("hibob");
                lemma_texts_differ("sftp"@, "hibob"@, 0);
                reveal_strlit("jump cloud scim v2.0");
                lemma_texts_differ("sftp"@, "jump cloud scim v2.0"@, 0);
                reveal_strlit("okta scim v2.0");
                lemma_texts_differ("sftp"@, "okta scim v2.0"@, 0);
                reveal_strlit("onelogin scim v2.0");
                lemma_texts_differ("sftp"@, "onelogin scim v2.0"@, 0);
                reveal_strlit("people hr");
                lemma_texts_differ("sftp"@, "people hr"@, 0);
                reveal_strlit("personio");
                lemma_texts_differ("sftp"@, "personio"@, 0);
                reveal_strlit("pingfederate scim v2.0");
                lemma_texts_differ("sftp"@, "pingfederate scim v2.0"@, 0);
                reveal_strlit("rippling scim v2.0");
                lemma_texts_differ("sftp"@, "rippling scim v2.0"@, 0);
            },
            DirectoryType::SftpWorkday => {
                reveal_strlit("sftp workday");
                reveal_strlit("azure scim v2.0");
                lemma_texts_differ("sftp workday"@, "azure scim v2.0"@, 0);
                reveal_strlit("bamboohr");
                lemma_texts_differ("sftp workday"@, "bamboohr"@, 0);
                reveal_strlit("breathe hr");
                lemma_texts_differ("sftp workday"@, "breathe hr"@, 0);
                reveal_strlit("cezanne hr");
                lemma_texts_differ("sftp workday"@, "cezanne hr"@, 0);
                reveal_strlit("cyberark scim v2.0");
                lemma_texts_differ("sftp workday"@, "cyberark scim v2.0"@, 0);
                reveal_strlit("fourth hr");
                lemma_texts_differ("sftp workday"@, "fourth hr"@, 0);
                reveal_strlit("generic scim v2.0");
                lemma_texts_differ("sftp workday"@, "generic scim v2.0"@, 0);
                reveal_strlit("gsuite directory");
                lemma_texts_differ("sftp workday"@, "gsuite directory"@, 0);
                reveal_strlit("hibob");
                lemma_texts_differ("sftp workday"@, "hibob"@, 0);
                reveal_strlit("jump cloud scim v2.0");
                lemma_texts_differ("sftp workday"@, "jump cloud scim v2.0"@, 0);
                reveal_strlit("okta scim v2.0");
                lemma_texts_differ("sftp workday"@, "okta scim v2.0"@, 0);
                reveal_strlit("onelogin scim v2.0");
                lemma_texts_differ("sftp workday"@, "onelogin scim v2.0"@, 0);
                reveal_strlit("people hr");
                lemma_texts_differ("sftp workday"@, "people hr"@, 0);
                reveal_strlit("personio");
                lemma_texts_differ("sftp workday"@, "personio"@, 0);
                reveal_strlit("pingfederate scim v2.0");
                lemma_texts_differ("sftp workday"@, "pingfederate scim v2.0"@, 0);
                reveal_strlit("rippling scim v2.0");
                lemma_texts_differ("sftp workday"@, "rippling scim v2.0"@, 0);
                reveal_strlit("sftp");
                lemma_texts_differ("sftp workday"@, "sftp"@, 0);
            },
            DirectoryType::Workday => {
                reveal_strlit("workday");
                reveal_strlit("azure scim v2.0");
                lemma_texts_differ("workday"@, "azure scim v2.0"@, 0);
                reveal_strlit("bamboohr");
                lemma_texts_differ("workday"@, "bamboohr"@, 0);
                reveal_strlit("breathe hr");
                lemma_texts_differ("workday"@, "breathe hr"@, 0);
                reveal_strlit("cezanne hr");
                lemma_texts_differ("workday"@, "cezanne hr"@, 0);
                reveal_strlit("cyberark scim v2.0");
                lemma_texts_differ("workday"@, "cyberark scim v2.0"@, 0);
                reveal_strlit("fourth hr");
                lemma_texts_differ("workday"@, "fourth hr"@, 0);
                reveal_strlit("generic scim v2.0");
                lemma_texts_differ("workday"@, "generic scim v2.0"@, 0);
                reveal_strlit("gsuite directory");
                lemma_texts_differ("workday"@, "gsuite directory"@, 0);
                reveal_strlit("hibob");
                lemma_texts_differ("workday"@, "hibob"@, 0);
                reveal_strlit("jump cloud scim v2.0");
                lemma_texts_differ("workday"@, "jump cloud scim v2.0"@, 0);
                reveal_strlit("okta scim v2.0");
                lemma_texts_differ("workday"@, "okta scim v2.0"@, 0);
                reveal_strlit("onelogin scim v2.0");
                lemma_texts_differ("workday"@, "onelogin scim v2.0"@, 0);
                reveal_strlit("people hr");
                lemma_texts_differ("workday"@, "people hr"@, 0);
                reveal_strlit("personio");
                lemma_texts_differ("workday"@, "personio"@, 0);
                reveal_strlit("pingfederate scim v2.0");
                lemma_texts_differ("workday"@, "pingfederate scim v2.0"@, 0);
                reveal_strlit("rippling scim v2.0");
                lemma_texts_differ("workday"@, "rippling scim v2.0"@, 0);
                reveal_strlit("sftp");
                lemma_texts_differ("workday"@, "sftp"@, 0);
                reveal_strlit("sftp workday");
                lemma_texts_differ("workday"@, "sftp workday"@, 0);
            },
        }
    }

    fn decode(s: &str) -> (r: Option<Self>) {
        if same_text(s, "azure scim v2.0") {
            Some(DirectoryType::AzureScimV2)
        } else if same_text(s, "bamboohr") {
            Some(DirectoryType::BambooHr)
        } else if same_text(s, "breathe hr") {
            Some(DirectoryType::BreatheHr)
        } else if same_text(s, "cezanne hr") {
            Some(DirectoryType::CezanneHr)
        } else if same_text(s, "cyberark scim v2.0") {
            Some(DirectoryType::CyberArkScimV2)
        } else if same_text(s, "fourth hr") {
            Some(DirectoryType::FourthHr)
        } else if same_text(s, "generic scim v2.0") {
            Some(DirectoryType::GenericScimV2)
        } else if same_text(s, "gsuite directory") {
            Some(DirectoryType::GoogleWorkspace)
        } else if same_text(s, "hibob") {
            Some(DirectoryType::HiBob)
        } else if same_text(s, "jump cloud scim v2.0") {
            Some(DirectoryType::JumpCloudScimV2)
        } else if same_text(s, "okta scim v2.0") {
            Some(DirectoryType::OktaScimV2)
        } else if same_text(s, "onelogin scim v2.0") {
            Some(DirectoryType::OneLoginScimV2)
        } else if same_text(s, "people hr") {
            Some(DirectoryType::PeopleHr)
        } else if same_text(s, "personio") {
            Some(DirectoryType::Personio)
        } else if same_text(s, "pingfederate scim v2.0") {
            Some(DirectoryType::PingFederateScimV2)
        } else if same_text(s, "rippling scim v2.0") {
            Some(DirectoryType::RipplingScimV2)
        } else if same_text(s, "sftp") {
            Some(DirectoryType::Sftp)
        } else if same_text(s, "sftp workday") {
            Some(DirectoryType::SftpWorkday)
        } else if same_text(s, "workday") {
            Some(DirectoryType::Workday)
        } else {
            None
        }
    }

    fn name(&self) -> (r: &'static str) {
        match self {
            DirectoryType::AzureScimV2 => "azure scim v2.0",
            DirectoryType::BambooHr => "bamboohr",
            DirectoryType::BreatheHr => "breathe hr",
            DirectoryType::CezanneHr => "cezanne hr",
            DirectoryType::CyberArkScimV2 => "cyberark scim v2.0",
            DirectoryType::FourthHr => "fourth hr",
            DirectoryType::GenericScimV2 => "generic scim v2.0",
            DirectoryType::GoogleWorkspace => "gsuite directory",
            DirectoryType::HiBob => "hibob",
            DirectoryType::JumpCloudScimV2 => "jump cloud scim v2.0",
            DirectoryType::OktaScimV2 => "okta scim v2.0",
            DirectoryType::OneLoginScimV2 => "onelogin scim v2.0",
            DirectoryType::PeopleHr => "people hr",
            DirectoryType::Personio => "personio",
            DirectoryType::PingFederateScimV2 => "pingfederate scim v2.0",
            DirectoryType::RipplingScimV2 => "rippling scim v2.0",
            DirectoryType::Sftp => "sftp",
            DirectoryType::SftpWorkday => "sftp workday",
            DirectoryType::Workday => "workday",
        }
    }
}

/// [`Directory`] as it stands on the wire: every field as the text the API
/// sends, before any of it is read.
#[derive(Debug, Clone, PartialEq, Eq)]
pub struct DirectoryFields {
    pub id: String,
    pub organization_id: Option<String>,
    pub directory_type: String,
    pub state: String,
    pub name: String,
    pub domain: Option<String>,
    pub created_at: String,
    pub updated_at: String,
}

/// A directory resource of the directory-sync API.
#[derive(Debug, Clone, PartialEq, Eq)]
pub struct Directory {
    /// The ID of the directory.
    pub id: DirectoryId,
    /// The ID of the organization the directory belongs to, if any.
    pub organization_id: Option<OrganizationId>,
    /// The type of the directory.
    pub directory_type: KnownOrUnknown<DirectoryType, String>,
    /// The state of the directory.
    pub state: KnownOrUnknown<DirectoryState, String>,
    /// The name of the directory.
    pub name: String,
    /// The URL associated with an Enterprise Client.
    pub domain: Option<String>,
    /// When the directory was created and last updated.
    pub timestamps: Timestamps,
}

/// The characters of an optional text.
pub open spec fn text_of(o: Option<String>) -> Option<Seq<char>> {
    match o {
        Some(s) => Some(s@),
        None => None,
    }
}

/// The characters of an optional organization ID.
pub open spec fn organization_text(o: Option<OrganizationId>) -> Option<Seq<char>> {
    match o {
        Some(id) => Some(id@),
        None => None,
    }
}

pub(crate) fn copy_text(o: &Option<String>) -> (r: Option<String>)
    ensures
        text_of(r) == text_of(*o),
{
    match o {
        Some(s) => Some(s.clone()),
        None => None,
    }
}

impl Directory {
    /// A record that reading can give: open enumerations hold no unknown text
    /// that names a variant, and both instants are valid.
    pub open spec fn wf(&self) -> bool {
        self.directory_type.wf() && self.state.wf() && self.timestamps.wf()
    }

    /// The two records agree field for field, texts compared by their characters.
    pub open spec fn same_record(&self, other: &Directory) -> bool {
        &&& self.id@ == other.id@
        &&& organization_text(self.organization_id) == organization_text(other.organization_id)
        &&& self.directory_type.same_value(&other.directory_type)
        &&& self.state.same_value(&other.state)
        &&& self.name@ == other.name@
        &&& text_of(self.domain) == text_of(other.domain)
        &&& self.timestamps == other.timestamps
    }

    /// `d` is what reading the wire fields `f` gives, once its instants read
    /// as `timestamps`.
    pub open spec fn read_as(f: DirectoryFields, timestamps: Timestamps, d: Directory) -> bool {
        &&& d.id@ == f.id@
        &&& organization_text(d.organization_id) == text_of(f.organization_id)
        &&& KnownOrUnknown::<DirectoryType, String>::decodes_to(f.directory_type@, d.directory_type)
        &&& KnownOrUnknown::<DirectoryState, String>::decodes_to(f.state@, d.state)
        &&& d.name@ == f.name@
        &&& text_of(d.domain) == text_of(f.domain)
        &&& d.timestamps == timestamps
    }

    /// What reading the wire fields `f` gives: it fails only on an instant
    /// that cannot be read; an unrecognized type or state is kept as unknown.
    pub open spec fn reads(f: DirectoryFields, r: Result<Directory, TimestampsError>) -> bool {
        match Timestamps::spec_parse(f.created_at@, f.updated_at@) {
            Err(e) => r == Err::<Directory, TimestampsError>(e),
            Ok(t) => r is Ok && Self::read_as(f, t, r->Ok_0),
        }
    }

    /// `f` holds the wire text of every field of the record.
    pub open spec fn writes(&self, f: DirectoryFields) -> bool {
        &&& f.id@ == self.id@
        &&& text_of(f.organization_id) == organization_text(self.organization_id)
        &&& f.directory_type@ == self.directory_type.wire_text()
        &&& f.state@ == self.state.wire_text()
        &&& f.name@ == self.name@
        &&& text_of(f.domain) == text_of(self.domain)
        &&& f.created_at@ == self.timestamps.created_at.spec_text()
        &&& f.updated_at@ == self.timestamps.updated_at.spec_text()
    }

    /// Reads a directory from its wire fields.
    pub fn from_fields(f: &DirectoryFields) -> (r: Result<Directory, TimestampsError>)
        ensures
            Self::reads(*f, r),
            r is Ok ==> r->Ok_0.wf(),
    {
        let timestamps = match Timestamps::parse(f.created_at.as_str(), f.updated_at.as_str()) {
            Ok(t) => t,
            Err(e) => return Err(e),
        };
        let organization_id = match &f.organization_id {
            Some(o) => Some(OrganizationId::new(o.as_str())),
            None => None,
        };
        Ok(Directory {
            id: DirectoryId::new(f.id.as_str()),
            organization_id,
            directory_type: KnownOrUnknown::from_wire(f.directory_type.as_str()),
            state: KnownOrUnknown::from_wire(f.state.as_str()),
            name: f.name.clone(),
            domain: copy_text(&f.domain),
            timestamps,
        })
    }

    /// Writes the directory as wire fields.
    pub fn to_fields(&self) -> (r: DirectoryFields)
        ensures
            self.writes(r),
    {
        let organization_id = match &self.organization_id {
            Some(o) => Some(o.to_string()),
            None => None,
        };
        DirectoryFields {
            id: self.id.to_string(),
            organization_id,
            directory_type: self.directory_type.to_wire(),
            state: self.state.to_wire(),
            name: self.name.clone(),
            domain: copy_text(&self.domain),
            created_at: self.timestamps.created_at.to_text(),
            updated_at: self.timestamps.updated_at.to_text(),
        }
    }
}

/// Directory round trip: reading back the wire fields that a record reading
/// can give writes yields a record equal to it, field for field.
pub proof fn lemma_directory_round_trip(
    d: Directory,
    f: DirectoryFields,
    r: Result<Directory, TimestampsError>,
)
    requires
        d.wf(),
        d.writes(f),
        Directory::reads(f, r),
    ensures
        r is Ok,
        r->Ok_0.same_record(&d),
{
    lemma_timestamp_round_trip(d.timestamps.created_at);
    lemma_timestamp_round_trip(d.timestamps.updated_at);
    lemma_open_enum_round_trip(d.directory_type);
    lemma_open_enum_round_trip(d.state);
}

/// Alias equivalence: a historical alias and the current name of a state
/// read as the same recognized variant.
pub proof fn lemma_state_aliases(s: Seq<char>, v: KnownOrUnknown<DirectoryState, String>)
    requires
        KnownOrUnknown::<DirectoryState, String>::decodes_to(s, v),
    ensures
        (s == "inactive"@ || s == "unlinked"@) ==> v == KnownOrUnknown::<DirectoryState, String>::Known(
            DirectoryState::Inactive,
        ),
        (s == "active"@ || s == "linked"@) ==> v == KnownOrUnknown::<DirectoryState, String>::Known(
            DirectoryState::Active,
        ),
{
    reveal_strlit("linked");
    reveal_strlit("active");
    reveal_strlit("inactive");
    reveal_strlit("unlinked");
    reveal_strlit("validating");
    lemma_texts_differ("linked"@, "inactive"@, 0);
    lemma_texts_differ("linked"@, "unlinked"@, 0);
    lemma_texts_differ("linked"@, "validating"@, 0);
    lemma_texts_differ("active"@, "inactive"@, 0);
    lemma_texts_differ("active"@, "unlinked"@, 0);
    lemma_texts_differ("active"@, "validating"@, 0);
}

} // verus!
