use chat_mirror::mirror::{notice, on_message, trace, Delivery, Mirror, Step};
use chat_mirror::model::{
    Attachment, Author, Card, Colour, InboundMessage, MessageKind, OutboundPayload, StickerItem,
    VisualBlock,
};
use chat_mirror::routes::RouteTable;

fn message(id: u64, channel: u64, name: &str, content: &str) -> InboundMessage<u32> {
    InboundMessage {
        id,
        channel,
        author: Author { name: name.to_string(), bot: false, avatar: "http://a/1.png".to_string() },
        content: content.to_string(),
        embeds: Vec::new(),
        attachments: Vec::new(),
        stickers: Vec::new(),
        kind: MessageKind::Normal,
        referenced: None,
    }
}

#[test]
fn message_from_unrouted_channel_is_dropped() {
    let routes = RouteTable::from_pairs(vec![(10u64, "hook-a")]);
    assert!(on_message(&routes, message(1, 11, "alice", "hi")).is_none());
    let empty: RouteTable<&str> = RouteTable::new();
    assert!(on_message(&empty, message(1, 10, "alice", "hi")).is_none());
}

#[test]
fn unrouted_channel_is_dropped_even_if_the_message_could_not_be_transformed() {
    let routes = RouteTable::from_pairs(vec![(10u64, "hook-a")]);
    let mut msg = message(1, 11, "alice", "hi");
    msg.attachments.push(Attachment { url: "http://x/a".to_string(), content_type: None });
    assert!(on_message(&routes, msg).is_none());
}

#[test]
fn message_from_routed_channel_is_sent_to_its_destination() {
    let routes = RouteTable::from_pairs(vec![(10u64, "hook-a"), (20, "hook-b")]);
    let mut msg = message(5, 20, "alice", "hi");
    msg.attachments.push(Attachment {
        url: "http://x/img.png".to_string(),
        content_type: Some("image/png".to_string()),
    });
    let routed = on_message(&routes, msg).unwrap();
    assert_eq!(*routed.handle, "hook-b");
    assert_eq!(routed.trace, "plagiarizing message #5 in channel #20 from alice");
    assert_eq!(routed.mirror, Mirror::Sending { id: 5, author: "alice".to_string() });
    assert_eq!(
        routed.step,
        Step::Send(OutboundPayload {
            content: "hi".to_string(),
            display_name: "alice".to_string(),
            avatar_url: "http://a/1.png".to_string(),
            blocks: vec![VisualBlock::Synthesized(Card {
                title: "image".to_string(),
                image: Some("http://x/img.png".to_string()),
                description: None,
                colour: Some(Colour { r: 47, g: 49, b: 54 }),
            })],
        })
    );
}

#[test]
fn failed_transformation_asks_for_a_notice() {
    let routes = RouteTable::from_pairs(vec![(10u64, "hook-a")]);
    let mut msg = message(42, 10, "alice", "hi");
    msg.attachments.push(Attachment { url: "http://x/a".to_string(), content_type: None });
    let routed = on_message(&routes, msg).unwrap();
    assert_eq!(*routed.handle, "hook-a");
    assert_eq!(routed.trace, "plagiarizing message #42 in channel #10 from alice");
    assert_eq!(routed.mirror, Mirror::Notifying);
    assert_eq!(
        routed.step,
        Step::Notify("failed to plagiarize message #42 from alice (no content type)".to_string())
    );
}

#[test]
fn each_transformation_error_is_named_in_its_notice() {
    let mut msg = message(7, 10, "bob", "");
    msg.stickers.push(StickerItem { name: "odd".to_string(), image_url: None });
    let (state, step) = Mirror::open(msg);
    assert_eq!(state, Mirror::Notifying);
    assert_eq!(
        step,
        Step::Notify("failed to plagiarize message #7 from bob (could not get sticker url)".to_string())
    );
    let mut msg = message(8, 10, "bob", "");
    msg.kind = MessageKind::Reply;
    let (state, step) = Mirror::open(msg);
    assert_eq!(state, Mirror::Notifying);
    assert_eq!(
        step,
        Step::Notify(
            "failed to plagiarize message #8 from bob (referenced message not found)".to_string()
        )
    );
}

#[test]
fn delivered_payload_ends_the_handling() {
    let (state, _) = Mirror::open(message(1, 10, "alice", "hi"));
    let (state, step): (Mirror, Step<u32>) = state.advance(Delivery::Delivered);
    assert_eq!(state, Mirror::Finished);
    assert_eq!(step, Step::Finish);
}

#[test]
fn failed_payload_asks_for_a_notice_once() {
    let (state, first) = Mirror::open(message(12345678901234567890, 10, "alice", "hi"));
    assert!(matches!(first, Step::Send(_)));
    let (state, step): (Mirror, Step<u32>) =
        state.advance(Delivery::Failed("HTTP 429: rate limited".to_string()));
    assert_eq!(state, Mirror::Notifying);
    assert_eq!(
        step,
        Step::Notify(
            "failed to plagiarize message #12345678901234567890 from alice (HTTP 429: rate limited)"
                .to_string()
        )
    );
    let (state, step): (Mirror, Step<u32>) =
        state.advance(Delivery::Failed("HTTP 429: rate limited".to_string()));
    assert_eq!(state, Mirror::Finished);
    assert_eq!(step, Step::Finish);
}

#[test]
fn notice_is_not_followed_up_whatever_became_of_it() {
    let (state, step): (Mirror, Step<u32>) = Mirror::Notifying.advance(Delivery::Delivered);
    assert_eq!((state, step), (Mirror::Finished, Step::Finish));
    let (state, step): (Mirror, Step<u32>) =
        Mirror::Notifying.advance(Delivery::Failed("down".to_string()));
    assert_eq!((state, step), (Mirror::Finished, Step::Finish));
}

#[test]
fn finished_stays_finished() {
    let (state, step): (Mirror, Step<u32>) = Mirror::Finished.advance(Delivery::Delivered);
    assert_eq!((state, step), (Mirror::Finished, Step::Finish));
    let (state, step): (Mirror, Step<u32>) =
        Mirror::Finished.advance(Delivery::Failed("late".to_string()));
    assert_eq!((state, step), (Mirror::Finished, Step::Finish));
}

#[test]
fn notice_names_message_author_and_reason() {
    assert_eq!(notice(0, "", ""), "failed to plagiarize message #0 from  ()");
    assert_eq!(
        notice(1029, "alice", "no content type"),
        "failed to plagiarize message #1029 from alice (no content type)"
    );
    assert_eq!(
        notice(u64::MAX, "b (o) b", "a\nb"),
        "failed to plagiarize message #18446744073709551615 from b (o) b (a\nb)"
    );
}

#[test]
fn trace_names_message_channel_and_author() {
    assert_eq!(trace(0, 0, ""), "plagiarizing message #0 in channel #0 from ");
    assert_eq!(
        trace(1029, 77, "alice"),
        "plagiarizing message #1029 in channel #77 from alice"
    );
}
