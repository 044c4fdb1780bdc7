//! What a command sends back to the channel: a plain message, a reply to the
//! author, or an embed card, with the mathematical view of each.

use vstd::prelude::*;
use vstd::string::*;

verus! {

/// Colour of cards that report a refusal or a failure.
pub const COLOUR_ERROR: u32 = 0xf38ba8;
/// Colour of cards that report success.
pub const COLOUR_SUCCESS: u32 = 0xa6e3a1;
/// Colour of cards that report something suspicious.
pub const COLOUR_CAUTION: u32 = 0xf9e2af;
/// Colour of informational cards.
pub const COLOUR_INFO: u32 = 0x89dceb;

/// One name/value field of a card.
pub struct Field {
    pub name: String,
    pub value: String,
    pub inline: bool,
}

/// An embed card. Every card the bot sends also carries the time it was sent.
pub struct Embed {
    pub colour: u32,
    pub title: String,
    pub description: Option<String>,
    pub url: Option<String>,
    pub thumbnail: Option<String>,
    pub fields: Vec<Field>,
    pub footer: Option<String>,
}

/// What a command sends: `Answer` replies to the author's message, `Say`
/// posts a plain message in the channel, `Card` posts an embed.
pub enum Reply {
    Answer(String),
    Say(String),
    Card(Embed),
}

/// The view of a [`Field`].
pub struct FieldView {
    pub name: Seq<char>,
    pub value: Seq<char>,
    pub inline: bool,
}

/// The view of an [`Embed`].
pub struct EmbedView {
    pub colour: u32,
    pub title: Seq<char>,
    pub description: Option<Seq<char>>,
    pub url: Option<Seq<char>>,
    pub thumbnail: Option<Seq<char>>,
    pub fields: Seq<FieldView>,
    pub footer: Option<Seq<char>>,
}

/// The view of a [`Reply`].
pub enum ReplyView {
    Answer(Seq<char>),
    Say(Seq<char>),
    Card(EmbedView),
}

impl View for Field {
    type V = FieldView;

    open spec fn view(&self) -> FieldView {
        FieldView { name: self.name@, value: self.value@, inline: self.inline }
    }
}

impl View for Embed {
    type V = EmbedView;

    open spec fn view(&self) -> EmbedView {
        EmbedView {
            colour: self.colour,
            title: self.title@,
            description: self.description.deep_view(),
            url: self.url.deep_view(),
            thumbnail: self.thumbnail.deep_view(),
            fields: fields_view(self.fields@),
            footer: self.footer.deep_view(),
        }
    }
}

impl View for Reply {
    type V = ReplyView;

    open spec fn view(&self) -> ReplyView {
        match self {
            Reply::Answer(s) => ReplyView::Answer(s@),
            Reply::Say(s) => ReplyView::Say(s@),
            Reply::Card(e) => ReplyView::Card(e@),
        }
    }
}

/// A card with a colour and a title and nothing else.
pub open spec fn card(colour: u32, title: Seq<char>) -> EmbedView {
    EmbedView {
        colour,
        title,
        description: None,
        url: None,
        thumbnail: None,
        fields: Seq::empty(),
        footer: None,
    }
}

/// A card that reports a refusal or failure with the given title.
pub open spec fn warning(title: Seq<char>) -> EmbedView {
    card(COLOUR_ERROR, title)
}

/// A card that reports success with the given title.
pub open spec fn success(title: Seq<char>) -> EmbedView {
    card(COLOUR_SUCCESS, title)
}

/// The view of a field.
pub open spec fn field_view(name: Seq<char>, value: Seq<char>, inline: bool) -> FieldView {
    FieldView { name, value, inline }
}

/// Builds a card with a colour and a title.
pub fn new_card(colour: u32, title: String) -> (e: Embed)
    ensures
        e@ == card(colour, title@),
{
    let e = Embed {
        colour,
        title,
        description: None,
        url: None,
        thumbnail: None,
        fields: Vec::new(),
        footer: None,
    };
    assert(e@.fields =~= Seq::<FieldView>::empty());
    e
}

/// Builds a card that reports a refusal or failure.
pub fn warning_card(title: &str) -> (e: Embed)
    ensures
        e@ == warning(title@),
{
    new_card(COLOUR_ERROR, String::from_str(title))
}

/// Builds a card that reports success.
pub fn success_card(title: &str) -> (e: Embed)
    ensures
        e@ == success(title@),
{
    new_card(COLOUR_SUCCESS, String::from_str(title))
}

/// Builds a field.
pub fn new_field(name: &str, value: String, inline: bool) -> (f: Field)
    ensures
        f@ == field_view(name@, value@, inline),
{
    Field { name: String::from_str(name), value, inline }
}


/// The views of a list of fields.
pub open spec fn fields_view(fields: Seq<Field>) -> Seq<FieldView> {
    fields.map_values(|f: Field| f@)
}

/// Appends a field to a list of fields.
pub fn push_field(fields: &mut Vec<Field>, name: &str, value: String, inline: bool)
    ensures
        fields_view(final(fields)@) == fields_view(old(fields)@).push(
            field_view(name@, value@, inline),
        ),
{
    let f = new_field(name, value, inline);
    fields.push(f);
    assert(fields_view(fields@) =~= fields_view(old(fields)@).push(
        field_view(name@, value@, inline),
    ));
}

} // verus!
