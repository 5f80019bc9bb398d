//! Interaction handlers and router: the setup command posts a persistent
//! message with a report button and a user picker; activating either returns
//! a modal form; submitting the form posts a structured report embed into
//! the configured destination channel. The router dispatches on the request
//! subtype and converts handler results into response envelopes; sends are
//! handed back to the caller as a message plan, with the follow-up response
//! decided by `finish_interaction` from the send's outcome.
use vstd::prelude::*;

use crate::auth::Authenticated;
use crate::envelope::CommandOption;
use crate::envelope::Interaction;
use crate::envelope::InteractionData;
use crate::envelope::InteractionKind;
use crate::envelope::Member;
use crate::envelope::ModalField;
use crate::envelope::OptionValue;
use crate::envelope::payload_custom_id;
use crate::extract::FromCommandOptions;
use crate::extract::UserSelectMenu;
use crate::extract::extract_cid_args;
use crate::extract::extract_member;
use crate::extract::extract_slash_command;
use crate::extract::extract_user_select;
use crate::rpc::encode_rpc;
use crate::rpc::spec_split;
use crate::rpc::valid_u64_text;
use crate::rpc::spec_encode;
use crate::rpc::spec_u64_dec;
use crate::rpc::u64_to_dec;
use crate::relay::ApiError;
use crate::respond::ActionRow;
use crate::respond::Button;
use crate::respond::ButtonStyle;
use crate::respond::Describe;
use crate::respond::Embed;
use crate::respond::EmbedField;
use crate::respond::InteractionResponse;
use crate::respond::ErrorReport;
use crate::respond::ModalResponse;
use crate::respond::ResponseKind;
use crate::respond::error_response;
use crate::respond::ephemeral_text_response;
use crate::respond::pong_response;
use crate::respond::RowItem;
use crate::respond::SelectMenu;
use crate::respond::TextInput;
use crate::respond::TextInputStyle;

verus! {

/// The value of the first text option with this name: the payload's
/// free-form option list is read first-match-wins, and an option of the
/// wrong kind does not coerce.
pub open spec fn opt_text(opts: Seq<CommandOption>, name: Seq<char>) -> Option<Seq<char>>
    decreases opts.len(),
{
    if opts.len() == 0 {
        None
    } else if opts[0].name@ == name {
        match opts[0].value {
            OptionValue::Text(s) => Some(s@),
            _ => None,
        }
    } else {
        opt_text(opts.drop_first(), name)
    }
}

/// The value of the first channel option with this name.
pub open spec fn opt_channel(opts: Seq<CommandOption>, name: Seq<char>) -> Option<u64>
    decreases opts.len(),
{
    if opts.len() == 0 {
        None
    } else if opts[0].name@ == name {
        match opts[0].value {
            OptionValue::Channel(c) => Some(c),
            _ => None,
        }
    } else {
        opt_channel(opts.drop_first(), name)
    }
}

/// Find the first text option with this name.
fn find_text(opts: &Vec<CommandOption>, name: &String) -> (r: Option<String>)
    ensures
        r is Some <==> opt_text(opts@, name@) is Some,
        r matches Some(s) ==> opt_text(opts@, name@) == Some(s@),
{
    let n = opts.len();
    let mut i: usize = 0;
    proof {
        assert(opts@.skip(0int) =~= opts@);
    }
    while i < n
        invariant
            0 <= i <= n,
            n == opts@.len(),
            opt_text(opts@, name@) == opt_text(opts@.skip(i as int), name@),
        decreases n - i,
    {
        proof {
            assert(opts@.skip(i as int)[0] == opts@[i as int]);
            assert(opts@.skip(i as int).drop_first() =~= opts@.skip(i as int + 1));
        }
        if opts[i].name == *name {
            return match &opts[i].value {
                OptionValue::Text(s) => Some(s.clone()),
                _ => None,
            };
        }
        i += 1;
    }
    proof {
        assert(opts@.skip(n as int) =~= Seq::<CommandOption>::empty());
    }
    None
}

/// Find the first channel option with this name.
fn find_channel(opts: &Vec<CommandOption>, name: &String) -> (r: Option<u64>)
    ensures
        r == opt_channel(opts@, name@),
{
    let n = opts.len();
    let mut i: usize = 0;
    proof {
        assert(opts@.skip(0int) =~= opts@);
    }
    while i < n
        invariant
            0 <= i <= n,
            n == opts@.len(),
            opt_channel(opts@, name@) == opt_channel(opts@.skip(i as int), name@),
        decreases n - i,
    {
        proof {
            assert(opts@.skip(i as int)[0] == opts@[i as int]);
            assert(opts@.skip(i as int).drop_first() =~= opts@.skip(i as int + 1));
        }
        if opts[i].name == *name {
            return match &opts[i].value {
                OptionValue::Channel(c) => Some(*c),
                _ => None,
            };
        }
        i += 1;
    }
    proof {
        assert(opts@.skip(n as int) =~= Seq::<CommandOption>::empty());
    }
    None
}

/// The setup command: posts the persistent report-entry message. The field
/// constraints are the shape's own: the message text 1 to 2000 characters,
/// the select placeholder 1 to 45, the button label 1 to 32, and the two
/// channels required.
pub struct SetupCommand {
    /// The message to send.
    pub message: String,
    /// Placeholder for the user select menu.
    pub select_placeholder: String,
    /// The text to put on the button.
    pub button_msg: String,
    /// The channel to send the message in.
    pub button_channel: u64,
    /// The channel to create the report threads in.
    pub modmail_channel: u64,
}

impl SetupCommand {
    /// The permission gate declared on the command's registration:
    /// administrators only, as the platform's permission bit.
    pub fn permissions() -> (r: u64)
        ensures
            r == 8,
    {
        8
    }
}

impl FromCommandOptions for SetupCommand {
    open spec fn coerces(opts: Seq<CommandOption>) -> bool {
        &&& (opt_text(opts, "message"@) matches Some(m) && 1 <= m.len() <= 2000)
        &&& (opt_text(opts, "select_placeholder"@) matches Some(p) && 1 <= p.len() <= 45)
        &&& (opt_text(opts, "button_msg"@) matches Some(b) && 1 <= b.len() <= 32)
        &&& opt_channel(opts, "button_channel"@) is Some
        &&& opt_channel(opts, "modmail_channel"@) is Some
    }

    open spec fn coerces_to(opts: Seq<CommandOption>, v: &Self) -> bool {
        &&& opt_text(opts, "message"@) == Some(v.message@)
        &&& opt_text(opts, "select_placeholder"@) == Some(v.select_placeholder@)
        &&& opt_text(opts, "button_msg"@) == Some(v.button_msg@)
        &&& opt_channel(opts, "button_channel"@) == Some(v.button_channel)
        &&& opt_channel(opts, "modmail_channel"@) == Some(v.modmail_channel)
    }

    fn from_options(opts: &Vec<CommandOption>) -> (r: Option<Self>) {
        let message = match find_text(opts, &"message".to_owned()) {
            Some(s) => s,
            None => {
                return None;
            },
        };
        let ml = message.as_str().unicode_len();
        if ml < 1 || ml > 2000 {
            return None;
        }
        let select_placeholder = match find_text(opts, &"select_placeholder".to_owned()) {
            Some(s) => s,
            None => {
                return None;
            },
        };
        let pl = select_placeholder.as_str().unicode_len();
        if pl < 1 || pl > 45 {
            return None;
        }
        let button_msg = match find_text(opts, &"button_msg".to_owned()) {
            Some(s) => s,
            None => {
                return None;
            },
        };
        let bl = button_msg.as_str().unicode_len();
        if bl < 1 || bl > 32 {
            return None;
        }
        let button_channel = match find_channel(opts, &"button_channel".to_owned()) {
            Some(c) => c,
            None => {
                return None;
            },
        };
        let modmail_channel = match find_channel(opts, &"modmail_channel".to_owned()) {
            Some(c) => c,
            None => {
                return None;
            },
        };
        Some(SetupCommand { message, select_placeholder, button_msg, button_channel, modmail_channel })
    }
}

/// The value of the first submitted modal field with this name.
pub open spec fn field_val(fields: Seq<ModalField>, name: Seq<char>) -> Option<Seq<char>>
    decreases fields.len(),
{
    if fields.len() == 0 {
        None
    } else if fields[0].name@ == name {
        Some(fields[0].value@)
    } else {
        field_val(fields.drop_first(), name)
    }
}

/// Find the first submitted modal field with this name.
fn find_field(fields: &Vec<ModalField>, name: &String) -> (r: Option<String>)
    ensures
        r is Some <==> field_val(fields@, name@) is Some,
        r matches Some(s) ==> field_val(fields@, name@) == Some(s@),
{
    let n = fields.len();
    let mut i: usize = 0;
    proof {
        assert(fields@.skip(0int) =~= fields@);
    }
    while i < n
        invariant
            0 <= i <= n,
            n == fields@.len(),
            field_val(fields@, name@) == field_val(fields@.skip(i as int), name@),
        decreases n - i,
    {
        proof {
            assert(fields@.skip(i as int)[0] == fields@[i as int]);
            assert(fields@.skip(i as int).drop_first() =~= fields@.skip(i as int + 1));
        }
        if fields[i].name == *name {
            return Some(fields[i].value.clone());
        }
        i += 1;
    }
    proof {
        assert(fields@.skip(n as int) =~= Seq::<ModalField>::empty());
    }
    None
}

/// The report form's submitted values.
pub struct ModmailFormModal {
    pub user: String,
    pub message_link: String,
    pub channel: String,
    pub reason: String,
}

impl ModmailFormModal {
    /// Whether a submitted field list carries all four form fields.
    pub open spec fn shape_ok(fields: Seq<ModalField>) -> bool {
        &&& field_val(fields, "user"@) is Some
        &&& field_val(fields, "message_link"@) is Some
        &&& field_val(fields, "channel"@) is Some
        &&& field_val(fields, "reason"@) is Some
    }

    /// The form read off a submitted field list.
    pub open spec fn shape_of(fields: Seq<ModalField>, v: &Self) -> bool {
        &&& field_val(fields, "user"@) == Some(v.user@)
        &&& field_val(fields, "message_link"@) == Some(v.message_link@)
        &&& field_val(fields, "channel"@) == Some(v.channel@)
        &&& field_val(fields, "reason"@) == Some(v.reason@)
    }

    /// Read the form out of a modal submission's field list.
    pub fn from_fields(fields: &Vec<ModalField>) -> (r: Option<Self>)
        ensures
            r is Some <==> Self::shape_ok(fields@),
            r matches Some(v) ==> Self::shape_of(fields@, &v),
    {
        let user = match find_field(fields, &"user".to_owned()) {
            Some(s) => s,
            None => {
                return None;
            },
        };
        let message_link = match find_field(fields, &"message_link".to_owned()) {
            Some(s) => s,
            None => {
                return None;
            },
        };
        let channel = match find_field(fields, &"channel".to_owned()) {
            Some(s) => s,
            None => {
                return None;
            },
        };
        let reason = match find_field(fields, &"reason".to_owned()) {
            Some(s) => s,
            None => {
                return None;
            },
        };
        Some(ModmailFormModal { user, message_link, channel, reason })
    }
}

/// A handler failure surfaced to the invoking user.
#[derive(Clone, Copy, Debug, PartialEq, Eq, Structural)]
pub enum InteractError {
    /// An outbound platform call failed.
    Http(ApiError),
    /// The platform did not send a user where one was required.
    NoUser,
}

impl Describe for InteractError {
    open spec fn description(&self) -> Seq<char> {
        match self {
            InteractError::Http(_) => "HTTP error"@,
            InteractError::NoUser => "Discord did not send a user where they were required to"@,
        }
    }

    fn describe(&self) -> (r: String) {
        match self {
            InteractError::Http(_) => "HTTP error".to_owned(),
            InteractError::NoUser => {
                "Discord did not send a user where they were required to".to_owned()
            },
        }
    }
}

/// The row is a single text input with exactly this custom-id, label,
/// placeholder, required flag and style.
pub open spec fn is_text_input_row(
    row: ActionRow,
    id: Seq<char>,
    label: Seq<char>,
    placeholder: Seq<char>,
    required: bool,
    style: TextInputStyle,
) -> bool {
    row.items@.len() == 1 && (row.items@[0] matches RowItem::TextInput(t) && t.custom_id@ == id
        && t.label@ == label && (t.placeholder matches Some(p) && p@ == placeholder)
        && t.required == required && t.style == style)
}

/// The form's "user" input, the same whenever it appears.
pub open spec fn is_user_input_row(row: ActionRow) -> bool {
    is_text_input_row(
        row,
        "user"@,
        "Username or ID of the user you wish to report"@,
        "e.g. wumpus or 302094807046684672"@,
        true,
        TextInputStyle::Short,
    )
}

/// The form's "channel" input, the same in both forms.
pub open spec fn is_channel_input_row(row: ActionRow) -> bool {
    is_text_input_row(
        row,
        "channel"@,
        "Channel name"@,
        "e.g. #minecraft"@,
        true,
        TextInputStyle::Short,
    )
}

/// The form's optional "message_link" input, the same in both forms.
pub open spec fn is_message_link_input_row(row: ActionRow) -> bool {
    is_text_input_row(
        row,
        "message_link"@,
        "Message link"@,
        "e.g. https://discord.com/channels/302094807046684672/768594508287311882/768594834231132222"@,
        false,
        TextInputStyle::Paragraph,
    )
}

/// The form's "reason" input, the same in both forms.
pub open spec fn is_reason_input_row(row: ActionRow) -> bool {
    is_text_input_row(
        row,
        "reason"@,
        "Reason for reporting (what happened, in detail)"@,
        "e.g. User is being overly rude"@,
        true,
        TextInputStyle::Paragraph,
    )
}

/// One field of the report embed.
pub open spec fn is_embed_field(f: EmbedField, name: Seq<char>, value: Seq<char>, inline: bool) -> bool {
    f.name@ == name && f.value@ == value && f.inline == inline
}

/// Build one single-input action row.
fn text_input_row(input: TextInput) -> (row: ActionRow)
    ensures
        row.items@.len() == 1,
        row.items@[0] == RowItem::TextInput(input),
{
    let mut items: Vec<RowItem> = Vec::new();
    items.push(RowItem::TextInput(input));
    ActionRow { items }
}

/// Component activation on the report button or user picker: return the
/// modal form. When a user was already picked, the form drops its "user"
/// field and threads the picked user through the modal's custom-id; the
/// custom-id always threads the destination channel through.
pub fn msg_component(target_channel: u64, usm: Option<UserSelectMenu>) -> (r: Result<
    ModalResponse,
    InteractError,
>)
    ensures
        usm matches Some(u) && u.0@.len() == 0 ==> r == Err::<ModalResponse, InteractError>(
            InteractError::NoUser,
        ),
        usm is None ==> (r matches Ok(m) && m.title@ == "ModMail Form"@ && m.custom_id@
            == spec_encode("form_submit"@, seq![spec_u64_dec(target_channel)])
            && m.components@.len() == 4 && is_user_input_row(m.components@[0])
            && is_channel_input_row(m.components@[1]) && is_message_link_input_row(
            m.components@[2],
        ) && is_reason_input_row(m.components@[3])),
        usm matches Some(u) ==> (u.0@.len() > 0 ==> (r matches Ok(m) && m.title@
            == "ModMail Form"@ && m.custom_id@ == spec_encode(
            "form_submit"@,
            seq![spec_u64_dec(target_channel), spec_u64_dec(u.0@[0])],
        ) && m.components@.len() == 3 && is_channel_input_row(m.components@[0])
            && is_message_link_input_row(m.components@[1]) && is_reason_input_row(
            m.components@[2],
        ))),
{
    let channel_input = TextInput {
        custom_id: "channel".to_owned(),
        label: "Channel name".to_owned(),
        min_length: None,
        max_length: Some(128),
        placeholder: Some("e.g. #minecraft".to_owned()),
        required: true,
        style: TextInputStyle::Short,
        value: None,
    };
    let message_link_input = TextInput {
        custom_id: "message_link".to_owned(),
        label: "Message link".to_owned(),
        min_length: None,
        max_length: Some(128),
        placeholder: Some(
            "e.g. https://discord.com/channels/302094807046684672/768594508287311882/768594834231132222".to_owned(),
        ),
        required: false,
        style: TextInputStyle::Paragraph,
        value: None,
    };
    let reason_input = TextInput {
        custom_id: "reason".to_owned(),
        label: "Reason for reporting (what happened, in detail)".to_owned(),
        min_length: None,
        max_length: Some(128),
        placeholder: Some("e.g. User is being overly rude".to_owned()),
        required: true,
        style: TextInputStyle::Paragraph,
        value: None,
    };
    let title = "ModMail Form".to_owned();
    match usm {
        Some(u) => {
            if u.0.len() == 0 {
                return Err(InteractError::NoUser);
            }
            let user_id = u.0[0];
            let mut args: Vec<String> = Vec::new();
            args.push(u64_to_dec(target_channel));
            args.push(u64_to_dec(user_id));
            proof {
                assert(args.deep_view() =~= seq![
                    spec_u64_dec(target_channel),
                    spec_u64_dec(u.0@[0]),
                ]);
            }
            let custom_id = encode_rpc("form_submit", &args);
            let mut components: Vec<ActionRow> = Vec::new();
            components.push(text_input_row(channel_input));
            components.push(text_input_row(message_link_input));
            components.push(text_input_row(reason_input));
            Ok(ModalResponse { title, custom_id, components })
        },
        None => {
            let user_input = TextInput {
                custom_id: "user".to_owned(),
                label: "Username or ID of the user you wish to report".to_owned(),
                min_length: None,
                max_length: Some(1000),
                placeholder: Some("e.g. wumpus or 302094807046684672".to_owned()),
                required: true,
                style: TextInputStyle::Short,
                value: None,
            };
            let mut args: Vec<String> = Vec::new();
            args.push(u64_to_dec(target_channel));
            proof {
                assert(args.deep_view() =~= seq![spec_u64_dec(target_channel)]);
            }
            let custom_id = encode_rpc("form_submit", &args);
            let mut components: Vec<ActionRow> = Vec::new();
            components.push(text_input_row(user_input));
            components.push(text_input_row(channel_input));
            components.push(text_input_row(message_link_input));
            components.push(text_input_row(reason_input));
            Ok(ModalResponse { title, custom_id, components })
        },
    }
}

/// A message the caller sends to a channel on the library's behalf.
pub struct MessagePlan {
    pub channel: u64,
    pub content: Option<String>,
    pub embeds: Vec<Embed>,
    pub rows: Vec<ActionRow>,
    pub suppress_mentions: bool,
}

/// The setup command: plan the persistent report-entry message for the
/// configured channel, with the user picker and the report button, each
/// carrying an encoded custom-id referencing the destination channel.
pub fn app_command(cmd: SetupCommand) -> (plan: MessagePlan)
    ensures
        plan.channel == cmd.button_channel,
        plan.content is None,
        !plan.suppress_mentions,
        plan.embeds@.len() == 1 && (plan.embeds@[0].description matches Some(d) && d@
            == cmd.message@) && plan.embeds@[0].fields@.len() == 0,
        plan.rows@.len() == 2,
        plan.rows@[0].items@.len() == 1 && (plan.rows@[0].items@[0] matches RowItem::SelectMenu(sm)
            && sm.custom_id@ == spec_encode(
            "open_form_user"@,
            seq![spec_u64_dec(cmd.modmail_channel)],
        ) && (sm.placeholder matches Some(p) && p@ == cmd.select_placeholder@)),
        plan.rows@[1].items@.len() == 1 && (plan.rows@[1].items@[0] matches RowItem::Button(b) && (
        b.custom_id matches Some(ci) && ci@ == spec_encode(
            "open_form"@,
            seq![spec_u64_dec(cmd.modmail_channel)],
        )) && (b.label matches Some(l) && l@ == cmd.button_msg@) && b.style == ButtonStyle::Success
            && b.url is None && !b.disabled),
{
    let embed = Embed { description: Some(cmd.message), fields: Vec::new() };
    let mut args: Vec<String> = Vec::new();
    args.push(u64_to_dec(cmd.modmail_channel));
    proof {
        assert(args.deep_view() =~= seq![spec_u64_dec(cmd.modmail_channel)]);
    }
    let select = SelectMenu {
        custom_id: encode_rpc("open_form_user", &args),
        placeholder: Some(cmd.select_placeholder),
    };
    let button = Button {
        custom_id: Some(encode_rpc("open_form", &args)),
        label: Some(cmd.button_msg),
        url: None,
        style: ButtonStyle::Success,
        disabled: false,
    };
    let mut select_items: Vec<RowItem> = Vec::new();
    select_items.push(RowItem::SelectMenu(select));
    let mut button_items: Vec<RowItem> = Vec::new();
    button_items.push(RowItem::Button(button));
    let mut rows: Vec<ActionRow> = Vec::new();
    rows.push(ActionRow { items: select_items });
    rows.push(ActionRow { items: button_items });
    let mut embeds: Vec<Embed> = Vec::new();
    embeds.push(embed);
    MessagePlan {
        channel: cmd.button_channel,
        content: None,
        embeds,
        rows,
        suppress_mentions: false,
    }
}

/// Modal submission: compose the report embed from the submitted fields and
/// plan its delivery into the destination channel, mentioning nobody.
pub fn modal_submit(member: &Member, modal: ModmailFormModal, target_channel: u64) -> (r: Result<
    MessagePlan,
    InteractError,
>)
    ensures
        member.user is None ==> r == Err::<MessagePlan, InteractError>(InteractError::NoUser),
        member.user matches Some(uid) ==> (r matches Ok(plan) && plan.channel == target_channel
            && (plan.content matches Some(c) && c@ == "Report from <@"@ + spec_u64_dec(uid) + ">"@)
            && plan.suppress_mentions && plan.rows@.len() == 0 && plan.embeds@.len() == 1
            && plan.embeds@[0].description is None && plan.embeds@[0].fields@.len() == 4
            && is_embed_field(plan.embeds@[0].fields@[0], "User"@, modal.user@, true)
            && is_embed_field(plan.embeds@[0].fields@[1], "Channel"@, modal.channel@, true)
            && is_embed_field(
            plan.embeds@[0].fields@[2],
            "Message link"@,
            modal.message_link@,
            false,
        ) && is_embed_field(plan.embeds@[0].fields@[3], "Reason"@, modal.reason@, false)),
{
    let uid = match &member.user {
        None => {
            return Err(InteractError::NoUser);
        },
        Some(uid) => *uid,
    };
    let mut fields: Vec<EmbedField> = Vec::new();
    fields.push(EmbedField { name: "User".to_owned(), value: modal.user, inline: true });
    fields.push(EmbedField { name: "Channel".to_owned(), value: modal.channel, inline: true });
    fields.push(
        EmbedField { name: "Message link".to_owned(), value: modal.message_link, inline: false },
    );
    fields.push(EmbedField { name: "Reason".to_owned(), value: modal.reason, inline: false });
    let embed = Embed { description: None, fields };
    let mut embeds: Vec<Embed> = Vec::new();
    embeds.push(embed);
    let mut content: String = "Report from <@".to_owned();
    content.append(u64_to_dec(uid).as_str());
    content.append(">");
    proof {
        reveal_strlit(">");
        assert(content@ == "Report from <@"@ + spec_u64_dec(uid) + ">"@);
    }
    Ok(
        MessagePlan {
            channel: target_channel,
            content: Some(content),
            embeds,
            rows: Vec::new(),
            suppress_mentions: true,
        },
    )
}

/// Which acknowledgement a pending send resolves to.
#[derive(Clone, Copy, Debug, PartialEq, Eq, Structural)]
pub enum PendingResponse {
    /// The setup command's "Creating button message" acknowledgement.
    SetupAck,
    /// The report form's thank-you acknowledgement.
    ModalAck,
}

/// What the router asks the caller to do for one interaction.
pub enum InteractionStep {
    /// Answer with this response; no outside work is needed.
    Respond(InteractionResponse),
    /// Send the planned message, then answer with the response that
    /// `finish_interaction` decides from the send's outcome.
    SendThenRespond { plan: MessagePlan, cont: PendingResponse },
}

/// The step answers immediately with an ephemeral error embed holding this
/// description and nothing else: no content, no components, no embed
/// fields — nothing beyond the description is exposed.
pub open spec fn is_error_embed_step(step: &InteractionStep, desc: Seq<char>) -> bool {
    step matches InteractionStep::Respond(r) && r.kind == ResponseKind::ChannelMessageWithSource
        && (r.data matches Some(d) && d.ephemeral && d.embeds@.len() == 1 && (
    d.embeds@[0].description matches Some(s) && s@ == desc) && d.embeds@[0].fields@.len() == 0
        && d.content is None && d.components@.len() == 0)
}

/// The step answers immediately with a modal of this many input rows.
pub open spec fn is_modal_step(step: &InteractionStep, n_rows: int) -> bool {
    step matches InteractionStep::Respond(r) && r.kind == ResponseKind::Modal && (
    r.data matches Some(d) && d.components@.len() == n_rows)
}

/// The arguments a custom-id string decodes to.
pub open spec fn cid_args_of(cid: Seq<char>) -> Seq<Seq<char>> {
    spec_split(cid).drop_first()
}

/// The custom-id string decodes to exactly one argument that parses as an
/// unsigned 64-bit channel identifier.
pub open spec fn cid_one_channel(cid: Seq<char>) -> bool {
    cid.len() > 0 && cid_args_of(cid).len() == 1 && valid_u64_text(cid_args_of(cid)[0])
}

/// Route one authenticated interaction: dispatch on the request subtype,
/// run that handler's extractors in order, and convert the handler's result
/// into a response or a pending send. An unrecognized or keepalive subtype
/// is auto-acknowledged with an empty success response; every extractor
/// rejection becomes an ephemeral error embed for the invoking user.
pub fn handle_interaction(auth: &Authenticated, req: &Interaction) -> (step: InteractionStep)
    ensures
        req.kind == InteractionKind::Ping || req.kind == InteractionKind::Other ==> (
        step matches InteractionStep::Respond(r) && r.kind == ResponseKind::Pong && r.data is None),
        req.kind == InteractionKind::ApplicationCommand ==> {
            &&& req.data is None ==> is_error_embed_step(&step, "No interaction data"@)
            &&& (req.data matches Some(d) ==> {
                &&& !(d is Command) ==> is_error_embed_step(&step, "Wrong type of interaction data"@)
                &&& (d matches InteractionData::Command(opts) ==> {
                    &&& !SetupCommand::coerces(opts@) ==> is_error_embed_step(
                        &step,
                        "Arguments could not be parsed"@,
                    )
                    &&& (SetupCommand::coerces(opts@) ==> (
                    step matches InteractionStep::SendThenRespond { plan, cont } && cont
                        == PendingResponse::SetupAck && opt_channel(opts@, "button_channel"@)
                        == Some(plan.channel) && plan.embeds@.len() == 1 && (
                    plan.embeds@[0].description matches Some(dd) && opt_text(opts@, "message"@)
                        == Some(dd@)) && plan.rows@.len() == 2 && (opt_channel(
                        opts@,
                        "modmail_channel"@,
                    ) matches Some(mc) && (plan.rows@[0].items@[0] matches RowItem::SelectMenu(sm)
                        && sm.custom_id@ == spec_encode("open_form_user"@, seq![spec_u64_dec(mc)]))
                        && (plan.rows@[1].items@[0] matches RowItem::Button(b) && (
                    b.custom_id matches Some(ci) && ci@ == spec_encode(
                        "open_form"@,
                        seq![spec_u64_dec(mc)],
                    ))))))
                })
            })
        },
        req.kind == InteractionKind::MessageComponent ==> {
            &&& req.data is None ==> is_error_embed_step(&step, "No interaction data"@)
            &&& (req.data matches Some(d) ==> {
                &&& d is Command ==> is_error_embed_step(&step, "Wrong type of interaction data"@)
                &&& (payload_custom_id(d) matches Some(cid) ==> {
                    &&& cid.len() == 0 ==> is_error_embed_step(&step, "No name in data"@)
                    &&& cid.len() > 0 && !cid_one_channel(cid) ==> is_error_embed_step(
                        &step,
                        "Arguments could not be parsed"@,
                    )
                    &&& (cid_one_channel(cid) ==> {
                        &&& (d matches InteractionData::Component(c) ==> {
                            &&& c.selected_users@.len() == 0 ==> (is_modal_step(&step, 4) && (
                            step matches InteractionStep::Respond(r) ==> (r.data matches Some(dd)
                                ==> (dd.custom_id matches Some(ci) && (exists|tc: u64|
                                tc as int == crate::rpc::dec_value(cid_args_of(cid)[0]) && ci@
                                    == spec_encode(
                                    "form_submit"@,
                                    #[trigger] seq![spec_u64_dec(tc)],
                                ))))))
                            &&& c.selected_users@.len() > 0 ==> (is_modal_step(&step, 3) && (
                            step matches InteractionStep::Respond(r) ==> (r.data matches Some(dd)
                                ==> (dd.custom_id matches Some(ci) && (exists|tc: u64|
                                tc as int == crate::rpc::dec_value(cid_args_of(cid)[0]) && ci@
                                    == spec_encode(
                                    "form_submit"@,
                                    #[trigger] seq![
                                        spec_u64_dec(tc),
                                        spec_u64_dec(c.selected_users@[0]),
                                    ],
                                ))))))
                        })
                        &&& !(d is Component) ==> (is_modal_step(&step, 4) && (
                        step matches InteractionStep::Respond(r) ==> (r.data matches Some(dd) ==> (
                        dd.custom_id matches Some(ci) && (exists|tc: u64|
                            tc as int == crate::rpc::dec_value(cid_args_of(cid)[0]) && ci@
                                == spec_encode(
                                "form_submit"@,
                                #[trigger] seq![spec_u64_dec(tc)],
                            ))))))
                    })
                })
            })
        },
        req.kind == InteractionKind::ModalSubmit ==> {
            &&& req.member is None ==> is_error_embed_step(
                &step,
                "Discord did not send a member on this interaction"@,
            )
            &&& (req.member matches Some(mem) ==> {
                &&& req.data is None ==> is_error_embed_step(&step, "No interaction data"@)
                &&& (req.data matches Some(d) ==> {
                    &&& !(d is Modal) ==> is_error_embed_step(
                        &step,
                        "Wrong type of interaction data"@,
                    )
                    &&& (d matches InteractionData::Modal(md) ==> {
                        &&& !ModmailFormModal::shape_ok(md.fields@) ==> is_error_embed_step(
                            &step,
                            "Arguments could not be parsed"@,
                        )
                        &&& (ModmailFormModal::shape_ok(md.fields@) ==> {
                            &&& md.custom_id@.len() == 0 ==> is_error_embed_step(
                                &step,
                                "No name in data"@,
                            )
                            &&& md.custom_id@.len() > 0 && !cid_one_channel(md.custom_id@)
                                ==> is_error_embed_step(&step, "Arguments could not be parsed"@)
                            &&& (cid_one_channel(md.custom_id@) ==> {
                                &&& mem.user is None ==> is_error_embed_step(
                                    &step,
                                    "Discord did not send a user where they were required to"@,
                                )
                                &&& (mem.user matches Some(uid) ==> (
                                step matches InteractionStep::SendThenRespond { plan, cont } && cont
                                    == PendingResponse::ModalAck && plan.suppress_mentions
                                    && plan.embeds@.len() == 1 && plan.embeds@[0].fields@.len() == 4
                                    && plan.channel as int == crate::rpc::dec_value(
                                    cid_args_of(md.custom_id@)[0],
                                ) && (plan.content matches Some(c) && c@ == "Report from <@"@
                                    + spec_u64_dec(uid) + ">"@) && field_val(md.fields@, "user"@)
                                    == Some(plan.embeds@[0].fields@[0].value@) && field_val(
                                    md.fields@,
                                    "channel"@,
                                ) == Some(plan.embeds@[0].fields@[1].value@) && field_val(
                                    md.fields@,
                                    "message_link"@,
                                ) == Some(plan.embeds@[0].fields@[2].value@) && field_val(
                                    md.fields@,
                                    "reason"@,
                                ) == Some(plan.embeds@[0].fields@[3].value@)))
                            })
                        })
                    })
                })
            })
        },
{
    match req.kind {
        InteractionKind::Ping => InteractionStep::Respond(pong_response()),
        InteractionKind::Other => InteractionStep::Respond(pong_response()),
        InteractionKind::ApplicationCommand => {
            match extract_slash_command::<SetupCommand>(req) {
                Err(e) => InteractionStep::Respond(ErrorReport(e).into_response()),
                Ok(cmd) => InteractionStep::SendThenRespond {
                    plan: app_command(cmd.0),
                    cont: PendingResponse::SetupAck,
                },
            }
        },
        InteractionKind::MessageComponent => {
            let target = match extract_cid_args::<(u64,)>(req) {
                Err(e) => {
                    return InteractionStep::Respond(ErrorReport(e).into_response());
                },
                Ok(c) => (c.0).0,
            };
            let usm = extract_user_select(req);
            match msg_component(target, usm) {
                Err(e) => InteractionStep::Respond(ErrorReport(e).into_response()),
                Ok(m) => InteractionStep::Respond(m.into_response()),
            }
        },
        InteractionKind::ModalSubmit => {
            let mem = match extract_member(req) {
                Err(e) => {
                    return InteractionStep::Respond(ErrorReport(e).into_response());
                },
                Ok(m) => m.0,
            };
            let md = match &req.data {
                None => {
                    return InteractionStep::Respond(
                        error_response("No interaction data".to_owned()),
                    );
                },
                Some(InteractionData::Modal(md)) => md,
                Some(_) => {
                    return InteractionStep::Respond(
                        error_response("Wrong type of interaction data".to_owned()),
                    );
                },
            };
            let modal = match ModmailFormModal::from_fields(&md.fields) {
                None => {
                    return InteractionStep::Respond(
                        error_response("Arguments could not be parsed".to_owned()),
                    );
                },
                Some(m) => m,
            };
            let target = match extract_cid_args::<(u64,)>(req) {
                Err(e) => {
                    return InteractionStep::Respond(ErrorReport(e).into_response());
                },
                Ok(c) => (c.0).0,
            };
            match modal_submit(&mem, modal, target) {
                Err(e) => InteractionStep::Respond(ErrorReport(e).into_response()),
                Ok(plan) => InteractionStep::SendThenRespond {
                    plan,
                    cont: PendingResponse::ModalAck,
                },
            }
        },
    }
}

/// Decide the response for a pending send from the send's outcome: a
/// failure becomes the ephemeral error embed; a success becomes the
/// acknowledgement the pending handler owes.
pub fn finish_interaction(cont: PendingResponse, send: Result<(), ApiError>) -> (r: InteractionResponse)
    ensures
        send matches Err(e) ==> r.kind == ResponseKind::ChannelMessageWithSource && (
        r.data matches Some(d) && d.ephemeral && d.embeds@.len() == 1 && (
        d.embeds@[0].description matches Some(s) && s@ == "HTTP error"@)
            && d.embeds@[0].fields@.len() == 0 && d.content is None && d.components@.len() == 0),
        send is Ok && cont == PendingResponse::SetupAck ==> r.kind
            == ResponseKind::ChannelMessageWithSource && (r.data matches Some(d) && d.ephemeral && (
        d.content matches Some(c) && c@ == "Creating button message"@)),
        send is Ok && cont == PendingResponse::ModalAck ==> r.kind
            == ResponseKind::ChannelMessageWithSource && (r.data matches Some(d) && d.ephemeral && (
        d.content matches Some(c) && c@
            == "Thanks for making a report. A moderator will handle it as soon as possible."@)),
{
    match send {
        Err(e) => ErrorReport(InteractError::Http(e)).into_response(),
        Ok(_) => {
            match cont {
                PendingResponse::SetupAck => {
                    ephemeral_text_response("Creating button message".to_owned())
                },
                PendingResponse::ModalAck => {
                    ephemeral_text_response(
                        "Thanks for making a report. A moderator will handle it as soon as possible.".to_owned(),
                    )
                },
            }
        },
    }
}

} // verus!
