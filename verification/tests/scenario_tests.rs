//! End-to-end runs of the moderation workflow against a recording stub
//! gateway.

use modrelay::cached_pic::{CachedPic, CachedPicRepo};
use modrelay::error::{HandlerError, RelayError};
use modrelay::dispatch::{
    has_caption, plan_callback, reply_for, review_card_text, route_message, MessageRoute,
    PublishPlan, ReplyAction,
};
use modrelay::keyboard::build_keyboard;
use modrelay::offered_post::{OfferedPost, OfferedPostRepo};
use modrelay::pic::{Pic, PicRepo};
use modrelay::pic_utils::{get_pic, GetPicResult};
use modrelay::user::ftm_title;

/// What the stub gateway was asked to do, in order.
#[derive(Debug, PartialEq)]
enum GatewayCall {
    ForwardToReview { origin_chat: i64, origin_message: i32 },
    PostReviewCard { text: String, button_tags: Vec<Vec<String>> },
    SendPhoto { chat: i64, caption: Option<String> },
    RawClipToSubmitter { chat: i64, reply_to: i32, file_name: String },
    CachedClipToSubmitter { chat: i64, reply_to: i32, file_id: String },
    TextToSubmitter { chat: i64, reply_to: i32, text: String },
    Delete { chat: i64, message: i32 },
}

#[derive(Default)]
struct StubGateway {
    calls: Vec<GatewayCall>,
}

/// Drives one response-clip delivery the way the decision handler does:
/// looks for a cached handle first, transfers raw bytes only on a cache
/// miss, and confirms the issued handle back into the cache.
fn deliver_clip(
    gateway: &mut StubGateway,
    pics: &PicRepo,
    cache: &mut CachedPicRepo,
    is_accept: bool,
    entropy: u64,
    chat: i64,
    reply_to: i32,
    issued_handle: &str,
) {
    match reply_for(is_accept, get_pic(is_accept, entropy, cache, pics)) {
        ReplyAction::Text(text) => {
            gateway.calls.push(GatewayCall::TextToSubmitter { chat, reply_to, text });
        }
        ReplyAction::SendRaw { file_name, data: _ } => {
            gateway.calls.push(GatewayCall::RawClipToSubmitter {
                chat,
                reply_to,
                file_name: file_name.clone(),
            });
            cache
                .save_cached_pic(CachedPic::new(file_name, issued_handle.to_string()))
                .unwrap();
        }
        ReplyAction::SendCached { file_id } => {
            gateway.calls.push(GatewayCall::CachedClipToSubmitter { chat, reply_to, file_id });
        }
    }
}

#[test]
fn second_delivery_uses_cached_handle() {
    let mut gateway = StubGateway::default();
    let mut pics = PicRepo::new();
    let mut cache = CachedPicRepo::new();
    pics.save_pic(Pic::new("clip.gif".to_string(), true, b"bytes".to_vec())).unwrap();

    deliver_clip(&mut gateway, &pics, &mut cache, true, 3, 100, 5, "handle-1");
    deliver_clip(&mut gateway, &pics, &mut cache, true, 3, 100, 6, "handle-2");

    let raw_count = gateway
        .calls
        .iter()
        .filter(|c| matches!(c, GatewayCall::RawClipToSubmitter { .. }))
        .count();
    assert_eq!(raw_count, 1);
    assert_eq!(
        gateway.calls[1],
        GatewayCall::CachedClipToSubmitter {
            chat: 100,
            reply_to: 6,
            file_id: "handle-1".to_string()
        }
    );
}

#[test]
fn silent_decline_deletes_but_never_replies() {
    let mut gateway = StubGateway::default();
    let mut pics = PicRepo::new();
    let mut cache = CachedPicRepo::new();
    pics.save_pic(Pic::new("clip.gif".to_string(), false, b"bytes".to_vec())).unwrap();
    let mut ledger = OfferedPostRepo::new();
    ledger.save_offered_post(OfferedPost::new(100, 5, 900, 42, Some(41))).unwrap();

    let plan = plan_callback("decline-silent", false, None, Some("hello"), 0).unwrap();
    assert!(matches!(plan.publish, PublishPlan::NoPublish));
    if let Some(is_accept) = plan.reply_category {
        let post = ledger.get_offered_post(900, 42).unwrap();
        deliver_clip(
            &mut gateway,
            &pics,
            &mut cache,
            is_accept,
            0,
            post.chat_id,
            post.message_id,
            "handle-1",
        );
    }
    if plan.delete_review_messages {
        gateway.calls.push(GatewayCall::Delete { chat: 900, message: 41 });
        gateway.calls.push(GatewayCall::Delete { chat: 900, message: 42 });
    }

    let to_submitter = gateway
        .calls
        .iter()
        .filter(|c| {
            matches!(
                c,
                GatewayCall::TextToSubmitter { .. }
                    | GatewayCall::RawClipToSubmitter { .. }
                    | GatewayCall::CachedClipToSubmitter { .. }
            )
        })
        .count();
    assert_eq!(to_submitter, 0);
    assert_eq!(
        gateway.calls,
        vec![
            GatewayCall::Delete { chat: 900, message: 41 },
            GatewayCall::Delete { chat: 900, message: 42 },
        ]
    );
}

#[test]
fn photo_submission_accepted_end_to_end() {
    let mut gateway = StubGateway::default();
    let mut pics = PicRepo::new();
    let mut cache = CachedPicRepo::new();
    pics.save_pic(Pic::new("cheer.gif".to_string(), true, b"cheer-bytes".to_vec())).unwrap();
    let mut ledger = OfferedPostRepo::new();

    // A user in chat 100 sends message 5: a photo captioned "hello".
    let origin_chat: i64 = 100;
    let origin_message: i32 = 5;
    let review_chat: i64 = 900;
    let caption = Some("hello");
    assert_eq!(route_message(origin_chat, review_chat, None), MessageRoute::Submission);

    // The dispatcher forwards the photo and posts the review card.
    gateway.calls.push(GatewayCall::ForwardToReview { origin_chat, origin_message });
    let forwarded_copy: i32 = 41;
    let captioned = has_caption(caption, 0);
    assert!(captioned);
    let keyboard = build_keyboard(captioned, false);
    let tags: Vec<Vec<String>> = keyboard
        .rows
        .iter()
        .map(|row| row.iter().map(|b| b.tag.clone()).collect())
        .collect();
    assert_eq!(
        tags,
        vec![
            vec!["accept".to_string(), "accept-without-caption".to_string()],
            vec!["decline".to_string()],
        ]
    );
    gateway.calls.push(GatewayCall::PostReviewCard {
        text: review_card_text(&ftm_title(Some("sam"), "Sam", None)),
        button_tags: tags,
    });
    let review_card: i32 = 42;
    ledger
        .save_offered_post(OfferedPost::new(
            origin_chat,
            origin_message,
            review_chat,
            review_card,
            Some(forwarded_copy),
        ))
        .unwrap();

    // An admin presses Accept on the review card.
    let plan = plan_callback("accept", true, Some("image/png"), caption, 0).unwrap();
    let channel: i64 = 777;
    match &plan.publish {
        PublishPlan::TryTyped { kind: _, caption } => {
            gateway.calls.push(GatewayCall::SendPhoto { chat: channel, caption: caption.clone() });
        }
        other => panic!("expected a typed send, got {:?}", other),
    }
    let post = ledger.get_offered_post(review_chat, review_card).unwrap();
    assert_eq!(post.chat_id, origin_chat);
    assert_eq!(post.message_id, origin_message);
    if let Some(is_accept) = plan.reply_category {
        deliver_clip(
            &mut gateway,
            &pics,
            &mut cache,
            is_accept,
            9,
            post.chat_id,
            post.message_id,
            "handle-1",
        );
    }
    if plan.delete_review_messages {
        gateway.calls.push(GatewayCall::Delete { chat: review_chat, message: forwarded_copy });
        gateway.calls.push(GatewayCall::Delete { chat: review_chat, message: review_card });
    }

    assert_eq!(
        gateway.calls,
        vec![
            GatewayCall::ForwardToReview { origin_chat: 100, origin_message: 5 },
            GatewayCall::PostReviewCard {
                text: "From: <@sam> Sam\nWe going to shitpost it?".to_string(),
                button_tags: vec![
                    vec!["accept".to_string(), "accept-without-caption".to_string()],
                    vec!["decline".to_string()],
                ],
            },
            GatewayCall::SendPhoto { chat: 777, caption: Some("hello".to_string()) },
            GatewayCall::RawClipToSubmitter {
                chat: 100,
                reply_to: 5,
                file_name: "cheer.gif".to_string()
            },
            GatewayCall::Delete { chat: 900, message: 41 },
            GatewayCall::Delete { chat: 900, message: 42 },
        ]
    );
}

#[test]
fn decision_on_secondary_review_message_resolves_same_submission() {
    let mut ledger = OfferedPostRepo::new();
    ledger.save_offered_post(OfferedPost::new(100, 5, 900, 42, Some(41))).unwrap();
    let by_card = ledger.get_offered_post(900, 42).unwrap();
    let by_secondary = ledger.get_offered_post(900, 41).unwrap();
    assert_eq!(by_card, by_secondary);
}

#[test]
fn errors_in_the_relay_taxonomy() {
    let pics = PicRepo::new();
    assert_eq!(pics.get_random_pic(true, 0).unwrap_err(), RelayError::EmptyCategory);
    assert_eq!(pics.get_pic("x", true).unwrap_err(), RelayError::NotFound);
    let e = HandlerError::new("Data not found".to_string());
    assert_eq!(e.message, "Data not found");
    assert_eq!(HandlerError::from_str("Data not found"), e);
    let g = GetPicResult::FileId("h".to_string());
    assert!(matches!(g, GetPicResult::FileId(ref f) if f == "h"));
}
