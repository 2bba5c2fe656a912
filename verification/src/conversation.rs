use vstd::prelude::*;
use crate::error::{DurableStoreError, or_corrupt};
use crate::text::text_eq;

verus! {

/// Kind of conversation a call or group belongs to.
#[derive(Clone, Copy, PartialEq, Eq, Debug, Structural)]
pub enum ConversationKind {
    Direct,
    PrivateGroup,
    PublicGroup,
    /// Any other kind of conversation; no call or group column stores it.
    Other,
}

/// Whether a conversation kind is one of the group kinds.
pub open spec fn spec_is_group_kind(kind: ConversationKind) -> bool {
    kind == ConversationKind::PrivateGroup || kind == ConversationKind::PublicGroup
}

/// Whether a conversation kind is one of the group kinds.
pub fn is_group_kind(kind: ConversationKind) -> (r: bool)
    ensures
        r == spec_is_group_kind(kind),
{
    match kind {
        ConversationKind::PrivateGroup | ConversationKind::PublicGroup => true,
        _ => false,
    }
}

/// The text stored for a call conversation kind.
pub open spec fn call_conversation_kind_text(value: ConversationKind) -> Seq<char> {
    match value {
        ConversationKind::Direct => "direct"@,
        ConversationKind::PrivateGroup => "private_group"@,
        ConversationKind::PublicGroup => "public_group"@,
        _ => "invalid"@,
    }
}

/// The call conversation kind that a stored text names, if any.
pub open spec fn call_conversation_kind_from_text(text: Seq<char>) -> Option<ConversationKind> {
    if text == "direct"@ {
        Some(ConversationKind::Direct)
    } else if text == "private_group"@ {
        Some(ConversationKind::PrivateGroup)
    } else if text == "public_group"@ {
        Some(ConversationKind::PublicGroup)
    } else {
        None
    }
}

/// The text stored for a call conversation kind.
pub fn call_conversation_kind_name(value: ConversationKind) -> (r: &'static str)
    ensures
        r@ == call_conversation_kind_text(value),
{
    match value {
        ConversationKind::Direct => "direct",
        ConversationKind::PrivateGroup => "private_group",
        ConversationKind::PublicGroup => "public_group",
        _ => "invalid",
    }
}

/// Reads a stored call conversation kind; unrecognised text is corrupt.
pub fn parse_call_conversation_kind(value: &str) -> (r: Result<ConversationKind, DurableStoreError>)
    ensures
        r == or_corrupt(call_conversation_kind_from_text(value@)),
{
    if text_eq(value, "direct") {
        Ok(ConversationKind::Direct)
    } else if text_eq(value, "private_group") {
        Ok(ConversationKind::PrivateGroup)
    } else if text_eq(value, "public_group") {
        Ok(ConversationKind::PublicGroup)
    } else {
        Err(DurableStoreError::Corrupt)
    }
}

/// Every call conversation kind reads back unchanged from the text stored for it.
pub proof fn lemma_call_conversation_kind_text_round_trip(value: ConversationKind)
    requires
        value == ConversationKind::Direct || value == ConversationKind::PrivateGroup || value == ConversationKind::PublicGroup,
    ensures
        call_conversation_kind_from_text(call_conversation_kind_text(value)) == Some(value),
{
    reveal_strlit("direct");
    reveal_strlit("private_group");
    reveal_strlit("public_group");
    reveal_strlit("invalid");
    match value {
        ConversationKind::Direct => {
        },
        ConversationKind::PrivateGroup => {
            assert("private_group"@.len() != "direct"@.len());
        },
        ConversationKind::PublicGroup => {
            assert("public_group"@.len() != "direct"@.len());
            assert("public_group"@.len() != "private_group"@.len());
        },
        _ => {},
    }
}

/// The text stored for a group conversation kind.
pub open spec fn group_conversation_kind_text(value: ConversationKind) -> Seq<char> {
    match value {
        ConversationKind::PrivateGroup => "private_group"@,
        ConversationKind::PublicGroup => "public_group"@,
        _ => "invalid"@,
    }
}

/// The group conversation kind that a stored text names, if any.
pub open spec fn group_conversation_kind_from_text(text: Seq<char>) -> Option<ConversationKind> {
    if text == "private_group"@ {
        Some(ConversationKind::PrivateGroup)
    } else if text == "public_group"@ {
        Some(ConversationKind::PublicGroup)
    } else {
        None
    }
}

/// The text stored for a group conversation kind.
pub fn conversation_kind_name(value: ConversationKind) -> (r: &'static str)
    ensures
        r@ == group_conversation_kind_text(value),
{
    match value {
        ConversationKind::PrivateGroup => "private_group",
        ConversationKind::PublicGroup => "public_group",
        _ => "invalid",
    }
}

/// Reads a stored group conversation kind; unrecognised text is corrupt.
pub fn parse_conversation_kind(value: &str) -> (r: Result<ConversationKind, DurableStoreError>)
    ensures
        r == or_corrupt(group_conversation_kind_from_text(value@)),
{
    if text_eq(value, "private_group") {
        Ok(ConversationKind::PrivateGroup)
    } else if text_eq(value, "public_group") {
        Ok(ConversationKind::PublicGroup)
    } else {
        Err(DurableStoreError::Corrupt)
    }
}

/// Every group conversation kind reads back unchanged from the text stored for it.
pub proof fn lemma_group_conversation_kind_text_round_trip(value: ConversationKind)
    requires
        value == ConversationKind::PrivateGroup || value == ConversationKind::PublicGroup,
    ensures
        group_conversation_kind_from_text(group_conversation_kind_text(value)) == Some(value),
{
    reveal_strlit("private_group");
    reveal_strlit("public_group");
    reveal_strlit("invalid");
    match value {
        ConversationKind::PrivateGroup => {
        },
        ConversationKind::PublicGroup => {
            assert("public_group"@.len() != "private_group"@.len());
        },
        _ => {},
    }
}

} // verus!
