//! What holds of every transformation, proved from the definitions in
//! `transform`.

use vstd::prelude::*;
use crate::model::{
    neutral_colour, AttachmentView, CardView, InboundMessageView, MessageKind,
    OutboundPayloadView, TransformError, VisualBlockView,
};
use crate::text::joined_lines;
use crate::transform::{
    all_resolvable, all_typed, base_name, built, carried, file_links, files_cards, image_card,
    image_cards, images, is_image, payload_blocks, plain_files, shown_name, sticker_cards,
    transformed,
};

verus! {

/// A message without attachments and stickers that is no reply is mirrored as
/// it stands: the name is the author's, with ` [BOT]` behind it exactly for a
/// bot, the text is unchanged, and the blocks are the source's own, unchanged.
pub proof fn lemma_plain_message<E>(m: InboundMessageView<E>)
    requires
        m.attachments.len() == 0,
        m.stickers.len() == 0,
        m.kind != MessageKind::Reply,
    ensures
        transformed(m) matches Ok(p) && {
            &&& p.display_name == if m.author.bot {
                m.author.name + " [BOT]"@
            } else {
                m.author.name
            }
            &&& p.content == m.content
            &&& p.avatar_url == m.author.avatar
            &&& p.blocks.len() == m.embeds.len()
            &&& forall|i: int|
                0 <= i < m.embeds.len() ==> #[trigger] p.blocks[i] == VisualBlockView::PassThrough(
                    m.embeds[i],
                )
        },
{
    assert(images(m.attachments) =~= Seq::<AttachmentView>::empty());
    assert(plain_files(m.attachments) =~= Seq::<AttachmentView>::empty());
    assert(payload_blocks(m) =~= carried(m.embeds));
}

/// The payload's blocks begin with the source's own blocks, unchanged and in
/// order, whatever else the message holds.
pub proof fn lemma_source_blocks_first<E>(m: InboundMessageView<E>, i: int)
    requires
        transformed(m) is Ok,
        0 <= i < m.embeds.len(),
    ensures
        transformed(m)->Ok_0.blocks[i] == VisualBlockView::PassThrough(m.embeds[i]),
{
}

/// In a payload the source's own blocks come first and the built ones after
/// them, and every built block carries the neutral colour.
pub proof fn lemma_built_blocks_follow<E>(m: InboundMessageView<E>, i: int)
    requires
        transformed(m) is Ok,
        0 <= i < transformed(m)->Ok_0.blocks.len(),
    ensures
        ({
            let block = transformed(m)->Ok_0.blocks[i];
            &&& i < m.embeds.len() <==> block is PassThrough
            &&& i >= m.embeds.len() <==> block is Synthesized
            &&& block is Synthesized ==> block->Synthesized_0.colour == Some(neutral_colour())
        }),
{
    let image_run = built::<E>(image_cards(m.attachments));
    let sticker_run = built::<E>(sticker_cards(m.stickers));
    let file_run = built::<E>(files_cards(file_links(m.attachments)));
    let blocks = transformed(m)->Ok_0.blocks;
    assert(blocks == carried(m.embeds) + image_run + sticker_run + file_run);
    let e = m.embeds.len() as int;
    if i < e {
    } else if i < e + image_run.len() {
        assert(blocks[i] == image_run[i - e]);
    } else if i < e + image_run.len() + sticker_run.len() {
        assert(blocks[i] == sticker_run[i - e - image_run.len()]);
    } else {
        assert(blocks[i] == file_run[i - e - image_run.len() - sticker_run.len()]);
    }
}

/// The number of blocks in a payload: the source's own, one for each image
/// attachment, one for each sticker, and one more exactly if some attachment
/// is no image. So an attachment that is no image gets no block of its own.
pub proof fn lemma_block_count<E>(m: InboundMessageView<E>)
    requires
        transformed(m) is Ok,
    ensures
        transformed(m)->Ok_0.blocks.len() == m.embeds.len() + images(m.attachments).len()
            + m.stickers.len() + (if plain_files(m.attachments).len() > 0 {
            1int
        } else {
            0int
        }),
        images(m.attachments).len() + plain_files(m.attachments).len() == m.attachments.len(),
{
    lemma_split_len(m.attachments);
}

proof fn lemma_split_len(atts: Seq<AttachmentView>)
    ensures
        images(atts).len() + plain_files(atts).len() == atts.len(),
    decreases atts.len(),
{
    if atts.len() == 0 {
        assert(images(atts) =~= Seq::<AttachmentView>::empty());
        assert(plain_files(atts) =~= Seq::<AttachmentView>::empty());
    } else {
        let front = atts.drop_last();
        let a = atts.last();
        lemma_split_len(front);
        assert(atts =~= front.push(a));
        front.lemma_filter_push(a, |x: AttachmentView| is_image(x));
        front.lemma_filter_push(a, |x: AttachmentView| !is_image(x));
    }
}

proof fn lemma_images_take(atts: Seq<AttachmentView>, i: int)
    requires
        0 <= i < atts.len(),
    ensures
        images(atts.take(i)).len() <= images(atts).len(),
        is_image(atts[i]) ==> images(atts.take(i)).len() < images(atts).len() && images(
            atts,
        )[images(atts.take(i)).len() as int] == atts[i],
        forall|k: int|
            0 <= k < images(atts.take(i)).len() ==> images(atts.take(i))[k] == images(atts)[k],
{
    let pred = |x: AttachmentView| is_image(x);
    let head = atts.take(i);
    let rest = atts.skip(i);
    assert(atts =~= head + rest);
    Seq::filter_distributes_over_add(head, rest, pred);
    assert(images(atts) == images(head) + images(rest));
    if is_image(atts[i]) {
        let tail = rest.skip(1);
        assert(rest =~= seq![atts[i]] + tail);
        Seq::filter_distributes_over_add(seq![atts[i]], tail, pred);
        assert(seq![atts[i]] =~= Seq::<AttachmentView>::empty().push(atts[i]));
        Seq::<AttachmentView>::empty().lemma_filter_push(atts[i], pred);
        assert(Seq::<AttachmentView>::empty().filter(pred) =~= Seq::<AttachmentView>::empty());
        assert(images(seq![atts[i]]) =~= seq![atts[i]]);
        assert(images(rest)[0] == atts[i]);
    }
}

/// Each attachment whose content type begins with `image` has exactly one
/// block: titled `image`, showing the attachment's URL, in the neutral colour.
/// The blocks of the images stand right behind the source's own, as many as
/// there are images and in the attachments' order, so that the block of
/// attachment `i` is found by counting the images before it.
pub proof fn lemma_image_block<E>(m: InboundMessageView<E>, i: int)
    requires
        transformed(m) is Ok,
        0 <= i < m.attachments.len(),
        is_image(m.attachments[i]),
    ensures
        ({
            let at = (m.embeds.len() + images(m.attachments.take(i)).len()) as int;
            &&& at < m.embeds.len() + images(m.attachments).len()
            &&& transformed(m)->Ok_0.blocks[at] == VisualBlockView::<E>::Synthesized(
                CardView {
                    title: "image"@,
                    image: Some(m.attachments[i].url),
                    description: None,
                    colour: Some(neutral_colour()),
                },
            )
        }),
{
    lemma_images_take(m.attachments, i);
}

/// Two image attachments never share a block: the block of the later one
/// stands behind the block of the earlier one.
pub proof fn lemma_image_blocks_ascend(atts: Seq<AttachmentView>, i: int, j: int)
    requires
        0 <= i < j < atts.len(),
        is_image(atts[i]),
    ensures
        images(atts.take(i)).len() < images(atts.take(j)).len(),
{
    let upto = atts.take(j);
    assert(upto.take(i) =~= atts.take(i));
    assert(upto[i] == atts[i]);
    lemma_images_take(upto, i);
}

/// Each block in the run of image blocks belongs to an image attachment:
/// block `k` of the run shows the URL of the `k`-th image among the
/// attachments.
pub proof fn lemma_image_run<E>(m: InboundMessageView<E>, k: int)
    requires
        transformed(m) is Ok,
        0 <= k < images(m.attachments).len(),
    ensures
        is_image(images(m.attachments)[k]),
        m.attachments.contains(images(m.attachments)[k]),
        transformed(m)->Ok_0.blocks[m.embeds.len() + k] == VisualBlockView::<E>::Synthesized(
            image_card(images(m.attachments)[k].url),
        ),
{
    let pred = |x: AttachmentView| is_image(x);
    m.attachments.lemma_filter_pred(pred, k);
    assert(images(m.attachments).contains(images(m.attachments)[k]));
    m.attachments.lemma_filter_contains_rev(pred, images(m.attachments)[k]);
}

/// Where at least one attachment is no image, the payload's last block is
/// titled `attachments` and lists the URLs of all such attachments, one per
/// line, in the attachments' order. It is the only block for them.
pub proof fn lemma_files_block<E>(m: InboundMessageView<E>)
    requires
        transformed(m) is Ok,
        plain_files(m.attachments).len() > 0,
    ensures
        transformed(m)->Ok_0.blocks.last() == VisualBlockView::<E>::Synthesized(
            CardView {
                title: "attachments"@,
                image: None,
                description: Some(
                    joined_lines(
                        plain_files(m.attachments).map_values(|a: AttachmentView| a.url),
                    ),
                ),
                colour: Some(neutral_colour()),
            },
        ),
        transformed(m)->Ok_0.blocks.len() == m.embeds.len() + images(m.attachments).len()
            + m.stickers.len() + 1,
{
}

/// Where every attachment is an image, no block lists plain links: the
/// payload ends with the stickers' blocks.
pub proof fn lemma_no_files_block<E>(m: InboundMessageView<E>)
    requires
        transformed(m) is Ok,
        plain_files(m.attachments).len() == 0,
    ensures
        transformed(m)->Ok_0.blocks == carried(m.embeds) + built(image_cards(m.attachments))
            + built(sticker_cards(m.stickers)),
{
    assert(payload_blocks(m) =~= carried(m.embeds) + built(image_cards(m.attachments)) + built(
        sticker_cards(m.stickers),
    ));
}

/// An attachment that is no image is one of those that the list names.
pub proof fn lemma_plain_file_listed(atts: Seq<AttachmentView>, i: int)
    requires
        0 <= i < atts.len(),
        !is_image(atts[i]),
    ensures
        plain_files(atts).contains(atts[i]),
        file_links(atts).contains(atts[i].url),
{
    let pred = |x: AttachmentView| !is_image(x);
    atts.lemma_filter_contains(pred, i);
    let j = choose|j: int| 0 <= j < plain_files(atts).len() && plain_files(atts)[j] == atts[i];
    assert(file_links(atts)[j] == atts[i].url);
}

/// A message with an attachment that declares no content type is not
/// transformed: the outcome is `MissingContentType`, and no payload.
pub proof fn lemma_untyped_attachment_fails<E>(m: InboundMessageView<E>, i: int)
    requires
        0 <= i < m.attachments.len(),
        m.attachments[i].content_type is None,
    ensures
        transformed(m) == Err::<OutboundPayloadView<E>, TransformError>(
            TransformError::MissingContentType,
        ),
{
}

/// What becomes of a message depends on what it holds and on nothing else:
/// two messages that hold the same are transformed alike, so that a message
/// that fails once fails the same way whenever it is transformed again.
pub proof fn lemma_same_message_same_outcome<E>(a: InboundMessageView<E>, b: InboundMessageView<E>)
    requires
        a.author == b.author,
        a.content == b.content,
        a.embeds == b.embeds,
        a.attachments == b.attachments,
        a.stickers == b.stickers,
        a.kind == b.kind,
        a.referenced == b.referenced,
    ensures
        transformed(a) == transformed(b),
{
}

/// A reply whose answered message is at hand, if it is transformed at all, is
/// shown under a name that ends with ` (in reply to X)`, X being the name of
/// the answered message's author; before that stands the author's own name,
/// marked for a bot.
pub proof fn lemma_reply_name<E>(m: InboundMessageView<E>)
    requires
        m.kind == MessageKind::Reply,
        m.referenced is Some,
    ensures
        shown_name(m.author, m.kind, m.referenced) == Ok::<Seq<char>, TransformError>(
            base_name(m.author) + " (in reply to "@ + m.referenced->Some_0.author.name + ")"@,
        ),
        transformed(m) matches Ok(p) ==> {
            &&& p.display_name == base_name(m.author) + " (in reply to "@
                + m.referenced->Some_0.author.name + ")"@
            &&& (" (in reply to "@ + m.referenced->Some_0.author.name + ")"@).is_suffix_of(
                p.display_name,
            )
        },
        all_typed(m.attachments) && all_resolvable(m.stickers) ==> transformed(m) is Ok,
{
    let who = m.referenced->Some_0.author.name;
    let suffix = " (in reply to "@ + who + ")"@;
    let whole = base_name(m.author) + suffix;
    assert(whole =~= base_name(m.author) + " (in reply to "@ + who + ")"@);
    assert(whole.subrange(whole.len() - suffix.len(), whole.len() as int) =~= suffix);
}

/// A reply whose answered message is not at hand is not transformed: where
/// no attachment and no sticker has failed before, the outcome is
/// `MissingReplyReference`.
pub proof fn lemma_reply_without_reference_fails<E>(m: InboundMessageView<E>)
    requires
        m.kind == MessageKind::Reply,
        m.referenced is None,
        all_typed(m.attachments),
        all_resolvable(m.stickers),
    ensures
        transformed(m) == Err::<OutboundPayloadView<E>, TransformError>(
            TransformError::MissingReplyReference,
        ),
{
}

/// A reply whose answered message is not at hand is never transformed,
/// whatever else the message holds.
pub proof fn lemma_reply_without_reference_gives_nothing<E>(m: InboundMessageView<E>)
    requires
        m.kind == MessageKind::Reply,
        m.referenced is None,
    ensures
        transformed(m) is Err,
{
}

/// A message with a sticker that has no image is not transformed: where no
/// attachment has failed before, the outcome is `UnresolvableSticker`.
pub proof fn lemma_unresolvable_sticker_fails<E>(m: InboundMessageView<E>, j: int)
    requires
        all_typed(m.attachments),
        0 <= j < m.stickers.len(),
        m.stickers[j].image_url is None,
    ensures
        transformed(m) == Err::<OutboundPayloadView<E>, TransformError>(
            TransformError::UnresolvableSticker,
        ),
{
}

/// In a payload each sticker has one block, behind those of the images and
/// in the stickers' order: titled with the sticker's name between backticks
/// and the word `sticker`, showing the sticker's image, in the neutral colour.
pub proof fn lemma_sticker_block<E>(m: InboundMessageView<E>, j: int)
    requires
        transformed(m) is Ok,
        0 <= j < m.stickers.len(),
    ensures
        m.stickers[j].image_url is Some,
        transformed(m)->Ok_0.blocks[m.embeds.len() + images(m.attachments).len() + j]
            == VisualBlockView::<E>::Synthesized(
            CardView {
                title: "`"@ + m.stickers[j].name + "` sticker"@,
                image: Some(m.stickers[j].image_url->Some_0),
                description: None,
                colour: Some(neutral_colour()),
            },
        ),
{
}

/// A message is transformed exactly if every attachment declares a content
/// type, every sticker has an image, and a reply has its reference.
pub proof fn lemma_success_condition<E>(m: InboundMessageView<E>)
    ensures
        transformed(m) is Ok <==> {
            &&& all_typed(m.attachments)
            &&& all_resolvable(m.stickers)
            &&& (m.kind == MessageKind::Reply ==> m.referenced is Some)
        },
{
}

} // verus!
