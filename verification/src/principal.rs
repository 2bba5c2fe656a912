use vstd::prelude::*;
use crate::error::{DurableStoreError, or_corrupt};
use crate::text::text_eq;

verus! {

/// Kind of principal that owns, joins or acts on stored records.
#[derive(Clone, Copy, PartialEq, Eq, Debug, Structural)]
pub enum PrincipalKind {
    Person,
    Device,
    ServiceAccount,
    AiAgent,
    Bot,
    Organization,
    Automation,
    ExternalPlatform,
}

/// The text stored for a principal kind.
pub open spec fn principal_kind_text(value: PrincipalKind) -> Seq<char> {
    match value {
        PrincipalKind::Person => "person"@,
        PrincipalKind::Device => "device"@,
        PrincipalKind::ServiceAccount => "service_account"@,
        PrincipalKind::AiAgent => "ai_agent"@,
        PrincipalKind::Bot => "bot"@,
        PrincipalKind::Organization => "organization"@,
        PrincipalKind::Automation => "automation"@,
        PrincipalKind::ExternalPlatform => "external_platform"@,
    }
}

/// The principal kind that a stored text names, if any.
pub open spec fn principal_kind_from_text(text: Seq<char>) -> Option<PrincipalKind> {
    if text == "person"@ {
        Some(PrincipalKind::Person)
    } else if text == "device"@ {
        Some(PrincipalKind::Device)
    } else if text == "service_account"@ {
        Some(PrincipalKind::ServiceAccount)
    } else if text == "ai_agent"@ {
        Some(PrincipalKind::AiAgent)
    } else if text == "bot"@ {
        Some(PrincipalKind::Bot)
    } else if text == "organization"@ {
        Some(PrincipalKind::Organization)
    } else if text == "automation"@ {
        Some(PrincipalKind::Automation)
    } else if text == "external_platform"@ {
        Some(PrincipalKind::ExternalPlatform)
    } else {
        None
    }
}

/// The text stored for a principal kind.
pub fn principal_kind_name(value: PrincipalKind) -> (r: &'static str)
    ensures
        r@ == principal_kind_text(value),
{
    match value {
        PrincipalKind::Person => "person",
        PrincipalKind::Device => "device",
        PrincipalKind::ServiceAccount => "service_account",
        PrincipalKind::AiAgent => "ai_agent",
        PrincipalKind::Bot => "bot",
        PrincipalKind::Organization => "organization",
        PrincipalKind::Automation => "automation",
        PrincipalKind::ExternalPlatform => "external_platform",
    }
}

/// Reads a stored principal kind; unrecognised text is corrupt.
pub fn parse_principal_kind(value: &str) -> (r: Result<PrincipalKind, DurableStoreError>)
    ensures
        r == or_corrupt(principal_kind_from_text(value@)),
{
    if text_eq(value, "person") {
        Ok(PrincipalKind::Person)
    } else if text_eq(value, "device") {
        Ok(PrincipalKind::Device)
    } else if text_eq(value, "service_account") {
        Ok(PrincipalKind::ServiceAccount)
    } else if text_eq(value, "ai_agent") {
        Ok(PrincipalKind::AiAgent)
    } else if text_eq(value, "bot") {
        Ok(PrincipalKind::Bot)
    } else if text_eq(value, "organization") {
        Ok(PrincipalKind::Organization)
    } else if text_eq(value, "automation") {
        Ok(PrincipalKind::Automation)
    } else if text_eq(value, "external_platform") {
        Ok(PrincipalKind::ExternalPlatform)
    } else {
        Err(DurableStoreError::Corrupt)
    }
}

/// Every principal kind reads back unchanged from the text stored for it.
pub proof fn lemma_principal_kind_text_round_trip(value: PrincipalKind)
    ensures
        principal_kind_from_text(principal_kind_text(value)) == Some(value),
{
    reveal_strlit("person");
    reveal_strlit("device");
    reveal_strlit("service_account");
    reveal_strlit("ai_agent");
    reveal_strlit("bot");
    reveal_strlit("organization");
    reveal_strlit("automation");
    reveal_strlit("external_platform");
    match value {
        PrincipalKind::Person => {
        },
        PrincipalKind::Device => {
            assert("device"@[0] != "person"@[0]);
        },
        PrincipalKind::ServiceAccount => {
            assert("service_account"@.len() != "person"@.len());
            assert("service_account"@.len() != "device"@.len());
        },
        PrincipalKind::AiAgent => {
            assert("ai_agent"@.len() != "person"@.len());
            assert("ai_agent"@.len() != "device"@.len());
            assert("ai_agent"@.len() != "service_account"@.len());
        },
        PrincipalKind::Bot => {
            assert("bot"@.len() != "person"@.len());
            assert("bot"@.len() != "device"@.len());
            assert("bot"@.len() != "service_account"@.len());
            assert("bot"@.len() != "ai_agent"@.len());
        },
        PrincipalKind::Organization => {
            assert("organization"@.len() != "person"@.len());
            assert("organization"@.len() != "device"@.len());
            assert("organization"@.len() != "service_account"@.len());
            assert("organization"@.len() != "ai_agent"@.len());
            assert("organization"@.len() != "bot"@.len());
        },
        PrincipalKind::Automation => {
            assert("automation"@.len() != "person"@.len());
            assert("automation"@.len() != "device"@.len());
            assert("automation"@.len() != "service_account"@.len());
            assert("automation"@.len() != "ai_agent"@.len());
            assert("automation"@.len() != "bot"@.len());
            assert("automation"@.len() != "organization"@.len());
        },
        PrincipalKind::ExternalPlatform => {
            assert("external_platform"@.len() != "person"@.len());
            assert("external_platform"@.len() != "device"@.len());
            assert("external_platform"@.len() != "service_account"@.len());
            assert("external_platform"@.len() != "ai_agent"@.len());
            assert("external_platform"@.len() != "bot"@.len());
            assert("external_platform"@.len() != "organization"@.len());
            assert("external_platform"@.len() != "automation"@.len());
        },
    }
}

/// Kind of actor recorded on a journal event.
#[derive(Clone, Copy, PartialEq, Eq, Debug, Structural)]
pub enum ActorKind {
    Person,
    AiAgent,
    Bot,
    Organization,
    System,
}

/// The text stored for an actor kind.
pub open spec fn actor_kind_text(value: ActorKind) -> Seq<char> {
    match value {
        ActorKind::Person => "person"@,
        ActorKind::AiAgent => "ai_agent"@,
        ActorKind::Bot => "bot"@,
        ActorKind::Organization => "organization"@,
        ActorKind::System => "system"@,
    }
}

/// The text stored for an actor kind.
pub fn actor_kind_name(kind: ActorKind) -> (r: &'static str)
    ensures
        r@ == actor_kind_text(kind),
{
    match kind {
        ActorKind::Person => "person",
        ActorKind::AiAgent => "ai_agent",
        ActorKind::Bot => "bot",
        ActorKind::Organization => "organization",
        ActorKind::System => "system",
    }
}

/// A principal: an identifier together with its kind.
#[derive(Clone, Debug)]
pub struct PrincipalRef {
    pub principal_id: String,
    pub kind: PrincipalKind,
}

/// The mathematical content of a [`PrincipalRef`].
pub struct PrincipalView {
    pub principal_id: Seq<char>,
    pub kind: PrincipalKind,
}

impl View for PrincipalRef {
    type V = PrincipalView;

    open spec fn view(&self) -> PrincipalView {
        PrincipalView { principal_id: self.principal_id@, kind: self.kind }
    }
}

/// Whether two principals are the same: same identifier and same kind.
pub fn same_principal(a: &PrincipalRef, b: &PrincipalRef) -> (r: bool)
    ensures
        r == (a@ == b@),
{
    a.kind == b.kind && a.principal_id == b.principal_id
}

} // verus!
