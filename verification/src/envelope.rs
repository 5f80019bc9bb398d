//! The inbound interaction envelope, modelled as plain values: the request
//! subtype, an optional payload (command invocation, UI-component
//! activation, or form submission), and optional guild-member info. The
//! transport deserializes the platform's JSON into this shape after
//! authentication has passed.
use vstd::prelude::*;

verus! {

/// The request subtype.
#[derive(Clone, Copy, Debug, PartialEq, Eq, Structural)]
pub enum InteractionKind {
    /// A keepalive request: answered with an empty success response.
    Ping,
    /// A slash-command invocation.
    ApplicationCommand,
    /// A UI-component activation (button, select menu).
    MessageComponent,
    /// A form submission.
    ModalSubmit,
    /// Anything else: auto-acknowledged, no business logic invoked.
    Other,
}

/// The value of one command option.
#[derive(Clone, Debug)]
pub enum OptionValue {
    /// Free-form text.
    Text(String),
    /// A channel identifier.
    Channel(u64),
    /// A kind this application's commands never declare.
    Unsupported,
}

/// One named option of a command invocation.
#[derive(Clone, Debug)]
pub struct CommandOption {
    pub name: String,
    pub value: OptionValue,
}

/// The payload of a UI-component activation.
#[derive(Clone, Debug)]
pub struct ComponentData {
    /// The opaque custom-id string carrying the RPC routing.
    pub custom_id: String,
    /// The users picked in a user-select menu, if any.
    pub selected_users: Vec<u64>,
}

/// One submitted field of a modal form.
#[derive(Clone, Debug)]
pub struct ModalField {
    pub name: String,
    pub value: String,
}

/// The payload of a form submission.
#[derive(Clone, Debug)]
pub struct ModalData {
    /// The opaque custom-id string carrying the RPC routing.
    pub custom_id: String,
    /// The submitted fields, in form order.
    pub fields: Vec<ModalField>,
}

/// The payload of an interaction, a sum over the three real subtypes.
#[derive(Clone, Debug)]
pub enum InteractionData {
    Command(Vec<CommandOption>),
    Component(ComponentData),
    Modal(ModalData),
}

/// Guild-member info, reduced to what the handlers read: the user's
/// identifier, which the platform may omit.
#[derive(Clone, Copy, Debug, PartialEq, Eq, Structural)]
pub struct Member {
    pub user: Option<u64>,
}

/// One inbound interaction.
#[derive(Clone, Debug)]
pub struct Interaction {
    pub kind: InteractionKind,
    pub data: Option<InteractionData>,
    pub member: Option<Member>,
}

/// The custom-id string a payload carries, if its subtype has one.
pub open spec fn payload_custom_id(d: InteractionData) -> Option<Seq<char>> {
    match d {
        InteractionData::Command(_) => None,
        InteractionData::Component(c) => Some(c.custom_id@),
        InteractionData::Modal(m) => Some(m.custom_id@),
    }
}

} // verus!
