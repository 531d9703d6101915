//! From an inbound message to the payload that mirrors it.
//!
//! The spec functions of this module say what the payload is; the executable
//! functions compute it and are proved against them. A message is transformed
//! as a whole or not at all: the first step that cannot be done decides the
//! error, and nothing is produced.

use vstd::prelude::*;
use vstd::string::*;
use crate::model::{
    neutral_colour, Attachment, AttachmentView, Author, AuthorView, Card, CardView, Colour,
    InboundMessage, InboundMessageView, MessageKind, OutboundPayload, OutboundPayloadView,
    Referenced, ReferencedView, StickerItem, StickerItemView, TransformError, VisualBlock,
    VisualBlockView, attachment_views, block_views, opt_referenced, sticker_views,
};
use crate::text::{join_lines, joined_lines, starts_with, text_views};

verus! {

/// An attachment whose declared content type begins with `image`.
pub open spec fn is_image(a: AttachmentView) -> bool {
    a.content_type matches Some(t) && "image"@.is_prefix_of(t)
}

/// The block that shows an image attachment.
pub open spec fn image_card(url: Seq<char>) -> CardView {
    CardView {
        title: "image"@,
        image: Some(url),
        description: None,
        colour: Some(neutral_colour()),
    }
}

/// The title of a sticker's block: the name between backticks, then the word
/// `sticker`.
pub open spec fn sticker_title(name: Seq<char>) -> Seq<char> {
    "`"@ + name + "` sticker"@
}

/// The block that shows a sticker.
pub open spec fn sticker_card(s: StickerItemView) -> CardView {
    CardView {
        title: sticker_title(s.name),
        image: s.image_url,
        description: None,
        colour: Some(neutral_colour()),
    }
}

/// The one block that lists the links of all attachments that are no images.
pub open spec fn files_card(links: Seq<Seq<char>>) -> CardView {
    CardView {
        title: "attachments"@,
        image: None,
        description: Some(joined_lines(links)),
        colour: Some(neutral_colour()),
    }
}

/// Every attachment declares a content type.
pub open spec fn all_typed(atts: Seq<AttachmentView>) -> bool {
    forall|i: int| 0 <= i < atts.len() ==> (#[trigger] atts[i]).content_type is Some
}

/// Every sticker has an image.
pub open spec fn all_resolvable(stickers: Seq<StickerItemView>) -> bool {
    forall|i: int| 0 <= i < stickers.len() ==> (#[trigger] stickers[i]).image_url is Some
}

/// The image attachments, in the attachments' order.
pub open spec fn images(atts: Seq<AttachmentView>) -> Seq<AttachmentView> {
    atts.filter(|a: AttachmentView| is_image(a))
}

/// The attachments that are no images, in the attachments' order.
pub open spec fn plain_files(atts: Seq<AttachmentView>) -> Seq<AttachmentView> {
    atts.filter(|a: AttachmentView| !is_image(a))
}

/// The blocks of the image attachments, one each, in the attachments' order.
pub open spec fn image_cards(atts: Seq<AttachmentView>) -> Seq<CardView> {
    images(atts).map_values(|a: AttachmentView| image_card(a.url))
}

/// The links of the attachments that are no images, in the attachments' order.
pub open spec fn file_links(atts: Seq<AttachmentView>) -> Seq<Seq<char>> {
    plain_files(atts).map_values(|a: AttachmentView| a.url)
}

/// The blocks of the stickers, one each, in the stickers' order.
pub open spec fn sticker_cards(stickers: Seq<StickerItemView>) -> Seq<CardView> {
    stickers.map_values(|s: StickerItemView| sticker_card(s))
}

/// The list of plain links as blocks: none where there is no link, else one.
pub open spec fn files_cards(links: Seq<Seq<char>>) -> Seq<CardView> {
    if links.len() == 0 {
        Seq::empty()
    } else {
        seq![files_card(links)]
    }
}

/// Source blocks as blocks of the payload.
pub open spec fn carried<E>(embeds: Seq<E>) -> Seq<VisualBlockView<E>> {
    embeds.map_values(|e: E| VisualBlockView::PassThrough(e))
}

/// Built blocks as blocks of the payload.
pub open spec fn built<E>(cards: Seq<CardView>) -> Seq<VisualBlockView<E>> {
    cards.map_values(|c: CardView| VisualBlockView::Synthesized(c))
}

/// All blocks of the payload: the source's own first, then the images, the
/// stickers, and last the list of plain links.
pub open spec fn payload_blocks<E>(m: InboundMessageView<E>) -> Seq<VisualBlockView<E>> {
    carried(m.embeds) + built(image_cards(m.attachments)) + built(sticker_cards(m.stickers))
        + built(files_cards(file_links(m.attachments)))
}

/// The author's name, marked where the author is a bot.
pub open spec fn base_name(a: AuthorView) -> Seq<char> {
    if a.bot {
        a.name + " [BOT]"@
    } else {
        a.name
    }
}

/// What a reply adds to the name: whom it answers.
pub open spec fn reply_suffix(answered: Seq<char>) -> Seq<char> {
    " (in reply to "@ + answered + ")"@
}

/// The name under which the mirrored message is shown.
pub open spec fn shown_name(
    author: AuthorView,
    kind: MessageKind,
    referenced: Option<ReferencedView>,
) -> Result<Seq<char>, TransformError> {
    match kind {
        MessageKind::Normal => Ok(base_name(author)),
        MessageKind::Reply => match referenced {
            Some(r) => Ok(base_name(author) + reply_suffix(r.author.name)),
            None => Err(TransformError::MissingReplyReference),
        },
    }
}

/// The payload that mirrors a message, or the reason why there is none.
pub open spec fn transformed<E>(m: InboundMessageView<E>) -> Result<
    OutboundPayloadView<E>,
    TransformError,
> {
    if !all_typed(m.attachments) {
        Err(TransformError::MissingContentType)
    } else if !all_resolvable(m.stickers) {
        Err(TransformError::UnresolvableSticker)
    } else {
        match shown_name(m.author, m.kind, m.referenced) {
            Err(e) => Err(e),
            Ok(name) => Ok(
                OutboundPayloadView {
                    content: m.content,
                    display_name: name,
                    avatar_url: m.author.avatar,
                    blocks: payload_blocks(m),
                },
            ),
        }
    }
}

/// View of a transformation's outcome.
pub open spec fn outcome_view<E>(r: Result<OutboundPayload<E>, TransformError>) -> Result<
    OutboundPayloadView<E>,
    TransformError,
> {
    match r {
        Ok(p) => Ok(p@),
        Err(e) => Err(e),
    }
}

proof fn lemma_image_cards_push(atts: Seq<AttachmentView>, a: AttachmentView)
    ensures
        image_cards(atts.push(a)) == if is_image(a) {
            image_cards(atts).push(image_card(a.url))
        } else {
            image_cards(atts)
        },
{
    let pred = |x: AttachmentView| is_image(x);
    atts.lemma_filter_push(a, pred);
    if is_image(a) {
        assert(image_cards(atts.push(a)) =~= image_cards(atts).push(image_card(a.url)));
    }
}

proof fn lemma_file_links_push(atts: Seq<AttachmentView>, a: AttachmentView)
    ensures
        file_links(atts.push(a)) == if is_image(a) {
            file_links(atts)
        } else {
            file_links(atts).push(a.url)
        },
{
    let pred = |x: AttachmentView| !is_image(x);
    atts.lemma_filter_push(a, pred);
    if !is_image(a) {
        assert(file_links(atts.push(a)) =~= file_links(atts).push(a.url));
    }
}

/// Whether a declared content type is that of an image.
pub fn is_image_type(content_type: &str) -> (b: bool)
    ensures
        b == "image"@.is_prefix_of(content_type@),
{
    starts_with(content_type, "image")
}

/// The block for an image attachment at `url`.
pub fn make_image_card(url: String) -> (c: Card)
    ensures
        c@ == image_card(url@),
{
    Card {
        title: String::from_str("image"),
        image: Some(url),
        description: None,
        colour: Some(Colour::neutral()),
    }
}

/// The block for a sticker called `name` whose image is at `url`.
pub fn make_sticker_card(name: &str, url: String) -> (c: Card)
    ensures
        c@ == sticker_card(StickerItemView { name: name@, image_url: Some(url@) }),
{
    let mut title = String::from_str("`");
    title.append(name);
    title.append("` sticker");
    Card {
        title,
        image: Some(url),
        description: None,
        colour: Some(Colour::neutral()),
    }
}

/// The block that lists `links`, one per line.
pub fn make_files_card(links: &Vec<String>) -> (c: Card)
    ensures
        c@ == files_card(text_views(links@)),
{
    Card {
        title: String::from_str("attachments"),
        image: None,
        description: Some(join_lines(links)),
        colour: Some(Colour::neutral()),
    }
}

/// Turns the source's own blocks into blocks of the payload, unchanged and in
/// order.
pub fn carry_over<E>(embeds: Vec<E>) -> (blocks: Vec<VisualBlock<E>>)
    ensures
        block_views(blocks@) == carried(embeds@),
{
    let mut blocks: Vec<VisualBlock<E>> = Vec::new();
    let ghost all = embeds@;
    for e in it: embeds
        invariant
            it.seq() == all,
            block_views(blocks@) == carried(all.take(it.index() as int)),
    {
        proof {
            assert(all.take(it.index() + 1) =~= all.take(it.index() as int).push(e));
        }
        let ghost before = blocks@;
        blocks.push(VisualBlock::PassThrough(e));
        proof {
            assert(block_views(blocks@) =~= block_views(before).push(
                VisualBlockView::PassThrough(e),
            ));
            assert(carried(all.take(it.index() as int).push(e)) =~= carried(
                all.take(it.index() as int),
            ).push(VisualBlockView::PassThrough(e)));
        }
    }
    proof {
        assert(all.take(all.len() as int) =~= all);
    }
    blocks
}

/// Sorts the attachments into images and plain files.
///
/// Each image adds one block to `blocks`; each other attachment adds its link
/// to the list that is returned beside the blocks. An attachment without a
/// content type fails the whole message.
pub fn classify_attachments<E>(attachments: Vec<Attachment>, blocks: Vec<VisualBlock<E>>) -> (r:
    Result<(Vec<VisualBlock<E>>, Vec<String>), TransformError>)
    ensures
        match r {
            Ok((out, links)) => {
                &&& all_typed(attachment_views(attachments@))
                &&& block_views(out@) == block_views(blocks@) + built(
                    image_cards(attachment_views(attachments@)),
                )
                &&& text_views(links@) == file_links(attachment_views(attachments@))
            },
            Err(e) => {
                &&& e == TransformError::MissingContentType
                &&& !all_typed(attachment_views(attachments@))
            },
        },
{
    let ghost all = attachment_views(attachments@);
    let ghost start = block_views(blocks@);
    let mut out = blocks;
    let mut links: Vec<String> = Vec::new();
    proof {
        assert(all.take(0) =~= Seq::<AttachmentView>::empty());
        assert(image_cards(all.take(0)) =~= Seq::<CardView>::empty());
        assert(file_links(all.take(0)) =~= Seq::<Seq<char>>::empty());
        assert(block_views(out@) =~= start + built::<E>(image_cards(all.take(0))));
        assert(text_views(links@) =~= file_links(all.take(0)));
    }
    for attachment in it: attachments
        invariant
            all == attachment_views(it.seq()),
            all_typed(all.take(it.index() as int)),
            block_views(out@) == start + built(image_cards(all.take(it.index() as int))),
            text_views(links@) == file_links(all.take(it.index() as int)),
    {
        let ghost i = it.index() as int;
        let ghost a = attachment@;
        let ghost seen = all.take(i);
        proof {
            assert(all[i] == a);
            assert(all.take(i + 1) =~= seen.push(a));
            lemma_image_cards_push(seen, a);
            lemma_file_links_push(seen, a);
        }
        let Attachment { url, content_type } = attachment;
        match content_type {
            None => {
                return Err(TransformError::MissingContentType);
            },
            Some(declared) => {
                if is_image_type(declared.as_str()) {
                    let ghost before = out@;
                    out.push(VisualBlock::Synthesized(make_image_card(url)));
                    proof {
                        assert(block_views(out@) =~= block_views(before).push(
                            VisualBlockView::Synthesized(image_card(a.url)),
                        ));
                        assert(built::<E>(image_cards(seen).push(image_card(a.url))) =~= built::<
                            E,
                        >(image_cards(seen)).push(VisualBlockView::Synthesized(image_card(a.url))));
                    }
                } else {
                    let ghost before = links@;
                    links.push(url);
                    proof {
                        assert(text_views(links@) =~= text_views(before).push(a.url));
                    }
                }
            },
        }
        proof {
            assert forall|j: int| 0 <= j < seen.push(a).len() implies (#[trigger] seen.push(
                a,
            )[j]).content_type is Some by {
                if j < i {
                    assert(seen[j].content_type is Some);
                }
            }
        }
    }
    proof {
        assert(all.take(all.len() as int) =~= all);
    }
    Ok((out, links))
}

/// Adds one block for each sticker, in order. A sticker without an image fails
/// the whole message.
pub fn append_stickers<E>(stickers: Vec<StickerItem>, blocks: Vec<VisualBlock<E>>) -> (r: Result<
    Vec<VisualBlock<E>>,
    TransformError,
>)
    ensures
        match r {
            Ok(out) => {
                &&& all_resolvable(sticker_views(stickers@))
                &&& block_views(out@) == block_views(blocks@) + built(
                    sticker_cards(sticker_views(stickers@)),
                )
            },
            Err(e) => {
                &&& e == TransformError::UnresolvableSticker
                &&& !all_resolvable(sticker_views(stickers@))
            },
        },
{
    let ghost all = sticker_views(stickers@);
    let ghost start = block_views(blocks@);
    let mut out = blocks;
    proof {
        assert(block_views(out@) =~= start + built::<E>(sticker_cards(all.take(0))));
    }
    for sticker in it: stickers
        invariant
            all == sticker_views(it.seq()),
            all_resolvable(all.take(it.index() as int)),
            block_views(out@) == start + built(sticker_cards(all.take(it.index() as int))),
    {
        let ghost i = it.index() as int;
        let ghost s = sticker@;
        let ghost seen = all.take(i);
        proof {
            assert(all[i] == s);
            assert(all.take(i + 1) =~= seen.push(s));
        }
        let StickerItem { name, image_url } = sticker;
        match image_url {
            None => {
                return Err(TransformError::UnresolvableSticker);
            },
            Some(url) => {
                let ghost before = out@;
                out.push(VisualBlock::Synthesized(make_sticker_card(name.as_str(), url)));
                proof {
                    assert(block_views(out@) =~= block_views(before).push(
                        VisualBlockView::Synthesized(sticker_card(s)),
                    ));
                    assert(built::<E>(sticker_cards(seen.push(s))) =~= built::<E>(
                        sticker_cards(seen),
                    ).push(VisualBlockView::Synthesized(sticker_card(s))));
                }
            },
        }
        proof {
            assert forall|j: int| 0 <= j < seen.push(s).len() implies (#[trigger] seen.push(
                s,
            )[j]).image_url is Some by {
                if j < i {
                    assert(seen[j].image_url is Some);
                }
            }
        }
    }
    proof {
        assert(all.take(all.len() as int) =~= all);
    }
    Ok(out)
}

/// Adds the block that lists the plain links, if there is any link.
pub fn append_files<E>(links: Vec<String>, blocks: Vec<VisualBlock<E>>) -> (out: Vec<
    VisualBlock<E>,
>)
    ensures
        block_views(out@) == block_views(blocks@) + built(files_cards(text_views(links@))),
{
    let mut out = blocks;
    if links.len() > 0 {
        let ghost before = out@;
        out.push(VisualBlock::Synthesized(make_files_card(&links)));
        proof {
            assert(block_views(out@) =~= block_views(before) + built::<E>(
                seq![files_card(text_views(links@))],
            ));
        }
    } else {
        proof {
            assert(block_views(out@) =~= block_views(out@) + built::<E>(Seq::<CardView>::empty()));
        }
    }
    out
}

/// Computes the name under which the mirrored message is shown: the author's
/// name, then ` [BOT]` for a bot, then, for a reply, whom it answers. A reply
/// whose answered message is not at hand fails the whole message.
pub fn display_name(author: &Author, kind: MessageKind, referenced: &Option<Referenced>) -> (r:
    Result<String, TransformError>)
    ensures
        match r {
            Ok(name) => shown_name(author@, kind, opt_referenced(*referenced)) == Ok::<
                Seq<char>,
                TransformError,
            >(name@),
            Err(e) => shown_name(author@, kind, opt_referenced(*referenced)) == Err::<
                Seq<char>,
                TransformError,
            >(e),
        },
{
    let mut name = author.name.clone();
    if author.bot {
        name.append(" [BOT]");
    }
    match kind {
        MessageKind::Normal => Ok(name),
        MessageKind::Reply => match referenced {
            None => Err(TransformError::MissingReplyReference),
            Some(answered) => {
                name.append(" (in reply to ");
                name.append(answered.author.name.as_str());
                name.append(")");
                proof {
                    assert(name@ =~= base_name(author@) + reply_suffix(answered.author.name@));
                }
                Ok(name)
            },
        },
    }
}

/// Transforms an inbound message into the payload that mirrors it.
///
/// The payload keeps the text and the avatar, shows the computed name, and
/// holds the source's own blocks followed by one block per image attachment,
/// one per sticker, and one that lists the links of all other attachments.
/// Fails, with nothing produced, on the first of: an attachment without a
/// content type, a sticker without an image, a reply without its reference.
pub fn transform<E>(msg: InboundMessage<E>) -> (r: Result<OutboundPayload<E>, TransformError>)
    ensures
        outcome_view(r) == transformed(msg@),
{
    let ghost m = msg@;
    let InboundMessage {
        id: _,
        channel: _,
        author,
        content,
        embeds,
        attachments,
        stickers,
        kind,
        referenced,
    } = msg;
    let blocks = carry_over(embeds);
    let (blocks, links) = match classify_attachments(attachments, blocks) {
        Ok(pair) => pair,
        Err(e) => {
            return Err(e);
        },
    };
    let blocks = match append_stickers(stickers, blocks) {
        Ok(blocks) => blocks,
        Err(e) => {
            return Err(e);
        },
    };
    let blocks = append_files(links, blocks);
    let display_name = match display_name(&author, kind, &referenced) {
        Ok(name) => name,
        Err(e) => {
            return Err(e);
        },
    };
    let payload = OutboundPayload { content, display_name, avatar_url: author.avatar, blocks };
    proof {
        assert(payload@.blocks =~= payload_blocks(m));
    }
    Ok(payload)
}

} // verus!
