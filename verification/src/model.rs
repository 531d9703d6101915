//! The values that pass through the mirror, each with its mathematical view.
//!
//! Executable types hold `String` and `Vec`; their views hold `Seq`. The type
//! parameter `E` stands for a rich block that the source already attached to a
//! message. The mirror never looks inside one: it only carries it across.

use vstd::prelude::*;
use vstd::string::*;

verus! {

/// A colour as its red, green and blue parts.
#[derive(Clone, Copy, Debug, PartialEq, Eq, Structural)]
pub struct Colour {
    pub r: u8,
    pub g: u8,
    pub b: u8,
}

/// The colour that every synthesized block carries.
pub open spec fn neutral_colour() -> Colour {
    Colour { r: 47, g: 49, b: 54 }
}

impl Colour {
    /// The neutral colour.
    pub fn neutral() -> (c: Colour)
        ensures
            c == neutral_colour(),
    {
        Colour { r: 47, g: 49, b: 54 }
    }
}

/// Whether a message answers another one.
#[derive(Clone, Copy, Debug, PartialEq, Eq, Structural)]
pub enum MessageKind {
    Normal,
    Reply,
}

/// Why a message could not be transformed.
#[derive(Clone, Copy, Debug, PartialEq, Eq, Structural)]
pub enum TransformError {
    /// An attachment declares no content type.
    MissingContentType,
    /// A sticker has no image that could be shown.
    UnresolvableSticker,
    /// The message is a reply, and the message it answers is not at hand.
    MissingReplyReference,
}

/// What an error says of itself in a notice.
pub open spec fn error_text(e: TransformError) -> Seq<char> {
    match e {
        TransformError::MissingContentType => "no content type"@,
        TransformError::UnresolvableSticker => "could not get sticker url"@,
        TransformError::MissingReplyReference => "referenced message not found"@,
    }
}

impl TransformError {
    /// The error in words.
    pub fn message(&self) -> (text: String)
        ensures
            text@ == error_text(*self),
    {
        match self {
            TransformError::MissingContentType => String::from_str("no content type"),
            TransformError::UnresolvableSticker => String::from_str("could not get sticker url"),
            TransformError::MissingReplyReference => String::from_str(
                "referenced message not found",
            ),
        }
    }
}

/// View of an optional string.
pub open spec fn opt_text(o: Option<String>) -> Option<Seq<char>> {
    match o {
        Some(s) => Some(s@),
        None => None,
    }
}

/// Who wrote a message.
#[derive(Clone, Debug, PartialEq, Eq)]
pub struct Author {
    pub name: String,
    pub bot: bool,
    pub avatar: String,
}

pub struct AuthorView {
    pub name: Seq<char>,
    pub bot: bool,
    pub avatar: Seq<char>,
}

impl View for Author {
    type V = AuthorView;

    open spec fn view(&self) -> AuthorView {
        AuthorView { name: self.name@, bot: self.bot, avatar: self.avatar@ }
    }
}

/// A file attached to a message. The content type may be undeclared.
#[derive(Clone, Debug, PartialEq, Eq)]
pub struct Attachment {
    pub url: String,
    pub content_type: Option<String>,
}

pub struct AttachmentView {
    pub url: Seq<char>,
    pub content_type: Option<Seq<char>>,
}

impl View for Attachment {
    type V = AttachmentView;

    open spec fn view(&self) -> AttachmentView {
        AttachmentView { url: self.url@, content_type: opt_text(self.content_type) }
    }
}

/// A sticker on a message. `image_url` is absent when no image can be shown
/// for it.
#[derive(Clone, Debug, PartialEq, Eq)]
pub struct StickerItem {
    pub name: String,
    pub image_url: Option<String>,
}

pub struct StickerItemView {
    pub name: Seq<char>,
    pub image_url: Option<Seq<char>>,
}

impl View for StickerItem {
    type V = StickerItemView;

    open spec fn view(&self) -> StickerItemView {
        StickerItemView { name: self.name@, image_url: opt_text(self.image_url) }
    }
}

/// The message that a reply answers, as far as the mirror reads it.
#[derive(Clone, Debug, PartialEq, Eq)]
pub struct Referenced {
    pub author: Author,
    pub content: String,
}

pub struct ReferencedView {
    pub author: AuthorView,
    pub content: Seq<char>,
}

impl View for Referenced {
    type V = ReferencedView;

    open spec fn view(&self) -> ReferencedView {
        ReferencedView { author: self.author@, content: self.content@ }
    }
}

/// View of an optional referenced message.
pub open spec fn opt_referenced(o: Option<Referenced>) -> Option<ReferencedView> {
    match o {
        Some(r) => Some(r@),
        None => None,
    }
}

/// Views of a run of attachments, in order.
pub open spec fn attachment_views(v: Seq<Attachment>) -> Seq<AttachmentView> {
    v.map_values(|a: Attachment| a@)
}

/// Views of a run of stickers, in order.
pub open spec fn sticker_views(v: Seq<StickerItem>) -> Seq<StickerItemView> {
    v.map_values(|s: StickerItem| s@)
}

/// A message as it arrives from the source.
#[derive(Clone, Debug, PartialEq, Eq)]
pub struct InboundMessage<E> {
    pub id: u64,
    pub channel: u64,
    pub author: Author,
    pub content: String,
    pub embeds: Vec<E>,
    pub attachments: Vec<Attachment>,
    pub stickers: Vec<StickerItem>,
    pub kind: MessageKind,
    pub referenced: Option<Referenced>,
}

pub struct InboundMessageView<E> {
    pub id: u64,
    pub channel: u64,
    pub author: AuthorView,
    pub content: Seq<char>,
    pub embeds: Seq<E>,
    pub attachments: Seq<AttachmentView>,
    pub stickers: Seq<StickerItemView>,
    pub kind: MessageKind,
    pub referenced: Option<ReferencedView>,
}

impl<E> View for InboundMessage<E> {
    type V = InboundMessageView<E>;

    open spec fn view(&self) -> InboundMessageView<E> {
        InboundMessageView {
            id: self.id,
            channel: self.channel,
            author: self.author@,
            content: self.content@,
            embeds: self.embeds@,
            attachments: attachment_views(self.attachments@),
            stickers: sticker_views(self.stickers@),
            kind: self.kind,
            referenced: opt_referenced(self.referenced),
        }
    }
}

/// A block that the mirror builds itself.
#[derive(Clone, Debug, PartialEq, Eq)]
pub struct Card {
    pub title: String,
    pub image: Option<String>,
    pub description: Option<String>,
    pub colour: Option<Colour>,
}

pub struct CardView {
    pub title: Seq<char>,
    pub image: Option<Seq<char>>,
    pub description: Option<Seq<char>>,
    pub colour: Option<Colour>,
}

impl View for Card {
    type V = CardView;

    open spec fn view(&self) -> CardView {
        CardView {
            title: self.title@,
            image: opt_text(self.image),
            description: opt_text(self.description),
            colour: self.colour,
        }
    }
}

/// One rich block of an outbound message: either carried over from the
/// source untouched, or built by the mirror.
#[derive(Clone, Debug, PartialEq, Eq)]
pub enum VisualBlock<E> {
    PassThrough(E),
    Synthesized(Card),
}

pub enum VisualBlockView<E> {
    PassThrough(E),
    Synthesized(CardView),
}

impl<E> View for VisualBlock<E> {
    type V = VisualBlockView<E>;

    open spec fn view(&self) -> VisualBlockView<E> {
        match self {
            VisualBlock::PassThrough(e) => VisualBlockView::PassThrough(*e),
            VisualBlock::Synthesized(c) => VisualBlockView::Synthesized(c@),
        }
    }
}

/// Views of a run of blocks, in order.
pub open spec fn block_views<E>(v: Seq<VisualBlock<E>>) -> Seq<VisualBlockView<E>> {
    v.map_values(|b: VisualBlock<E>| b@)
}

/// What is sent to the destination for one message.
#[derive(Clone, Debug, PartialEq, Eq)]
pub struct OutboundPayload<E> {
    pub content: String,
    pub display_name: String,
    pub avatar_url: String,
    pub blocks: Vec<VisualBlock<E>>,
}

pub struct OutboundPayloadView<E> {
    pub content: Seq<char>,
    pub display_name: Seq<char>,
    pub avatar_url: Seq<char>,
    pub blocks: Seq<VisualBlockView<E>>,
}

impl<E> View for OutboundPayload<E> {
    type V = OutboundPayloadView<E>;

    open spec fn view(&self) -> OutboundPayloadView<E> {
        OutboundPayloadView {
            content: self.content@,
            display_name: self.display_name@,
            avatar_url: self.avatar_url@,
            blocks: block_views(self.blocks@),
        }
    }
}

} // verus!
