//! A message-relay and interaction-dispatch library for a chat platform:
//! a ticket store mapping private channels to staff threads, a relay state
//! machine that mirrors messages and self-heals stale state, a
//! colon-delimited custom-id RPC codec with typed argument decoding, and an
//! ed25519-signed request authenticator.
pub mod auth;
pub mod envelope;
pub mod extract;
pub mod idcodec;
pub mod interact;
pub mod relay;
pub mod respond;
pub mod rpc;
pub mod store;

pub use auth::{authenticate, Authenticated, RequestError, VerifyKey};
pub use extract::{CidArgs, ExtractMember, ExtractMemberError, FromCidArgsRejection, FromCommandOptions, SlashCommand, SlashCommandRejection, UserSelectMenu};
pub use idcodec::{db_to_id, id_to_db};
pub use interact::{handle_interaction, InteractError, ModmailFormModal, SetupCommand};
pub use respond::{ErrorReport, InteractionResponse, ModalResponse};
pub use rpc::{encode_rpc, get_custom_id_rpc, parse_u64, u64_to_dec, CidArg, FromCidArgs, FromCidArgsError, NoNameInRpc};
pub use store::{ChannelMessage, CounterpartedMessage, TicketChannels, TicketStore};
