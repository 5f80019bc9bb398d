//! The response envelope returned to the platform for one interaction, and
//! the UI component model carried inside it: action rows holding buttons,
//! user-select menus and text inputs.
use vstd::prelude::*;

verus! {

/// The kind of response envelope.
#[derive(Clone, Copy, Debug, PartialEq, Eq, Structural)]
pub enum ResponseKind {
    /// Acknowledgement of a keepalive request.
    Pong,
    /// An immediate message shown in the channel.
    ChannelMessageWithSource,
    /// A modal form presented to the invoking user.
    Modal,
}

/// One labelled field of an embed.
#[derive(Clone, Debug)]
pub struct EmbedField {
    pub name: String,
    pub value: String,
    pub inline: bool,
}

/// A rich-content block attached to a message.
#[derive(Clone, Debug)]
pub struct Embed {
    pub description: Option<String>,
    pub fields: Vec<EmbedField>,
}

/// The visual style of a button.
#[derive(Clone, Copy, Debug, PartialEq, Eq, Structural)]
pub enum ButtonStyle {
    Primary,
    Success,
    Link,
}

/// A button. A link button carries a URL; the other styles carry a
/// custom-id string.
#[derive(Clone, Debug)]
pub struct Button {
    pub custom_id: Option<String>,
    pub label: Option<String>,
    pub url: Option<String>,
    pub style: ButtonStyle,
    pub disabled: bool,
}

/// A user-select menu.
#[derive(Clone, Debug)]
pub struct SelectMenu {
    pub custom_id: String,
    pub placeholder: Option<String>,
}

/// The visual style of a text input.
#[derive(Clone, Copy, Debug, PartialEq, Eq, Structural)]
pub enum TextInputStyle {
    Short,
    Paragraph,
}

/// One text input of a modal form.
#[derive(Clone, Debug)]
pub struct TextInput {
    pub custom_id: String,
    pub label: String,
    pub min_length: Option<u32>,
    pub max_length: Option<u32>,
    pub placeholder: Option<String>,
    pub required: bool,
    pub style: TextInputStyle,
    pub value: Option<String>,
}

/// One component inside an action row.
#[derive(Clone, Debug)]
pub enum RowItem {
    Button(Button),
    SelectMenu(SelectMenu),
    TextInput(TextInput),
}

/// One row of components. The platform caps a row at five items.
#[derive(Clone, Debug)]
pub struct ActionRow {
    pub items: Vec<RowItem>,
}

/// The payload of a response envelope.
#[derive(Clone, Debug)]
pub struct ResponseData {
    pub content: Option<String>,
    pub embeds: Vec<Embed>,
    pub components: Vec<ActionRow>,
    pub ephemeral: bool,
    pub title: Option<String>,
    pub custom_id: Option<String>,
    pub suppress_mentions: bool,
}

impl ResponseData {
    /// A payload with nothing set.
    pub fn empty() -> (r: Self)
        ensures
            r.content is None,
            r.embeds@ == Seq::<Embed>::empty(),
            r.components@ == Seq::<ActionRow>::empty(),
            !r.ephemeral,
            r.title is None,
            r.custom_id is None,
            !r.suppress_mentions,
    {
        ResponseData {
            content: None,
            embeds: Vec::new(),
            components: Vec::new(),
            ephemeral: false,
            title: None,
            custom_id: None,
            suppress_mentions: false,
        }
    }
}

/// A response envelope.
#[derive(Clone, Debug)]
pub struct InteractionResponse {
    pub kind: ResponseKind,
    pub data: Option<ResponseData>,
}

/// The empty success acknowledgement for a keepalive request.
pub fn pong_response() -> (r: InteractionResponse)
    ensures
        r.kind == ResponseKind::Pong,
        r.data is None,
{
    InteractionResponse { kind: ResponseKind::Pong, data: None }
}

/// An error reported back to the invoking user alone: an ephemeral message
/// holding one embed whose description is the failure text. No internal
/// detail beyond the description is exposed.
pub fn error_response(description: String) -> (r: InteractionResponse)
    ensures
        r.kind == ResponseKind::ChannelMessageWithSource,
        r.data matches Some(d) && d.ephemeral && d.embeds@.len() == 1 && (
        d.embeds@[0].description matches Some(s) && s@ == description@) && d.embeds@[0].fields@.len()
            == 0 && d.content is None && d.components@.len() == 0,
{
    let embed = Embed { description: Some(description), fields: Vec::new() };
    let mut data = ResponseData::empty();
    let mut embeds: Vec<Embed> = Vec::new();
    embeds.push(embed);
    data.embeds = embeds;
    data.ephemeral = true;
    InteractionResponse { kind: ResponseKind::ChannelMessageWithSource, data: Some(data) }
}

/// An ephemeral plain-text acknowledgement to the invoking user.
pub fn ephemeral_text_response(content: String) -> (r: InteractionResponse)
    ensures
        r.kind == ResponseKind::ChannelMessageWithSource,
        r.data matches Some(d) && d.ephemeral && (d.content matches Some(c) && c@ == content@)
            && d.embeds@.len() == 0 && d.components@.len() == 0,
{
    let mut data = ResponseData::empty();
    data.content = Some(content);
    data.ephemeral = true;
    InteractionResponse { kind: ResponseKind::ChannelMessageWithSource, data: Some(data) }
}

/// A modal-presentation response: a title, an identifier string carrying
/// the routing custom-id, and the ordered list of input fields.
#[derive(Clone, Debug)]
pub struct ModalResponse {
    pub title: String,
    pub custom_id: String,
    pub components: Vec<ActionRow>,
}

impl ModalResponse {
    /// Wrap the modal in a response envelope.
    pub fn into_response(self) -> (r: InteractionResponse)
        ensures
            r.kind == ResponseKind::Modal,
            r.data matches Some(d) && (d.title matches Some(t) && t@ == self.title@) && (
            d.custom_id matches Some(c) && c@ == self.custom_id@) && d.components
                == self.components,
    {
        let mut data = ResponseData::empty();
        data.title = Some(self.title);
        data.custom_id = Some(self.custom_id);
        data.components = self.components;
        InteractionResponse { kind: ResponseKind::Modal, data: Some(data) }
    }
}

/// A value that can describe itself to the invoking user in one short line.
pub trait Describe {
    /// The description text.
    spec fn description(&self) -> Seq<char>;

    /// Produce the description.
    fn describe(&self) -> (r: String)
        ensures
            r@ == self.description(),
    ;
}

/// An error surfaced to the invoking user as an ephemeral embed. Nothing of
/// the error beyond its description string reaches the response.
pub struct ErrorReport<T: Describe>(pub T);

impl<T: Describe> ErrorReport<T> {
    /// Convert the error into the user-visible response envelope: one embed
    /// holding the description and nothing else — no content, no
    /// components, no embed fields.
    pub fn into_response(&self) -> (r: InteractionResponse)
        ensures
            r.kind == ResponseKind::ChannelMessageWithSource,
            r.data matches Some(d) && d.ephemeral && d.embeds@.len() == 1 && (
            d.embeds@[0].description matches Some(s) && s@ == self.0.description())
                && d.embeds@[0].fields@.len() == 0 && d.content is None && d.components@.len()
                == 0,
    {
        error_response(self.0.describe())
    }
}

} // verus!
