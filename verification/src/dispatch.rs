//! The moderation dispatcher's decisions: how an incoming message is routed,
//! what a review card says, and what a pressed decision button makes the
//! relay do.

use vstd::prelude::*;

use crate::mime::{classify_attachment, spec_classify, AttachmentKind};
use crate::pic_utils::GetPicResult;
use crate::text::{spec_starts_with, str_starts_with};

verus! {

use vstd::string::StringExecFns;

/// The decision a pressed review button carries, prefix-matched from its
/// payload.
#[derive(Clone, Copy, Debug, PartialEq, Eq, Structural)]
pub enum DecisionTag {
    Accept,
    AcceptWithoutCaption,
    Decline,
    DeclineSilent,
}

/// Where an incoming message is routed: to the admin command router, dropped
/// (a command outside the admin chat), or offered for review.
#[derive(Clone, Copy, Debug, PartialEq, Eq, Structural)]
pub enum MessageRoute {
    AdminCommand,
    Ignore,
    Submission,
}

/// The publish step a decision asks for: nothing, a typed re-send of the
/// attachment (falling back to an untyped copy when the bytes cannot be
/// fetched), or an untyped copy outright.
#[derive(Debug)]
pub enum PublishPlan {
    NoPublish,
    TryTyped { kind: AttachmentKind, caption: Option<String> },
    CopyOnly { strip_caption: bool },
}

/// Everything a decision event asks of the gateway: the publish step, the
/// response-clip reply owed to the submitter (`Some(is_accept)` selects the
/// category, `None` keeps silent), and the cleanup deletes.
#[derive(Debug)]
pub struct CallbackPlan {
    pub publish: PublishPlan,
    pub reply_category: Option<bool>,
    pub delete_review_messages: bool,
}

/// The tag a button payload resolves to: the longest of the four known
/// decision words the payload begins with, if any.
pub open spec fn spec_parse_tag(d: Seq<char>) -> Option<DecisionTag> {
    if spec_starts_with(d, "accept-without-caption"@) {
        Some(DecisionTag::AcceptWithoutCaption)
    } else if spec_starts_with(d, "accept"@) {
        Some(DecisionTag::Accept)
    } else if spec_starts_with(d, "decline-silent"@) {
        Some(DecisionTag::DeclineSilent)
    } else if spec_starts_with(d, "decline"@) {
        Some(DecisionTag::Decline)
    } else {
        None
    }
}

/// Whether the tag publishes the submission.
pub open spec fn spec_is_accept(t: DecisionTag) -> bool {
    t == DecisionTag::Accept || t == DecisionTag::AcceptWithoutCaption
}

/// Whether a message counts as captioned: a non-empty caption text or any
/// caption entity.
pub open spec fn spec_has_caption(caption: Option<Seq<char>>, entity_count: int) -> bool {
    (match caption {
        Some(c) => c.len() > 0,
        None => false,
    }) || entity_count > 0
}

/// Whether the published copy keeps the original caption: only when one is
/// there and the tag does not ask for suppression.
pub open spec fn spec_keep_caption(t: DecisionTag, has_cap: bool) -> bool {
    has_cap && t != DecisionTag::AcceptWithoutCaption
}

/// Resolves a button payload to its decision tag; an unknown payload is no
/// decision at all.
pub fn parse_decision_tag(data: &str) -> (r: Option<DecisionTag>)
    ensures
        r == spec_parse_tag(data@),
{
    if str_starts_with(data, "accept-without-caption") {
        Some(DecisionTag::AcceptWithoutCaption)
    } else if str_starts_with(data, "accept") {
        Some(DecisionTag::Accept)
    } else if str_starts_with(data, "decline-silent") {
        Some(DecisionTag::DeclineSilent)
    } else if str_starts_with(data, "decline") {
        Some(DecisionTag::Decline)
    } else {
        None
    }
}

/// Whether the tag publishes the submission.
pub fn is_accept_tag(t: DecisionTag) -> (r: bool)
    ensures
        r == spec_is_accept(t),
{
    match t {
        DecisionTag::Accept => true,
        DecisionTag::AcceptWithoutCaption => true,
        _ => false,
    }
}

/// Whether a message counts as captioned.
pub fn has_caption(caption: Option<&str>, caption_entity_count: usize) -> (r: bool)
    ensures
        r == spec_has_caption(
            match caption {
                Some(c) => Some(c@),
                None => None,
            },
            caption_entity_count as int,
        ),
{
    (match caption {
        Some(c) => !c.is_empty(),
        None => false,
    }) || caption_entity_count > 0
}

/// Where an incoming message goes: everything in the admin chat is a
/// command, a slash-command anywhere else is dropped, and the rest is
/// offered for review.
pub open spec fn spec_route(chat_id: i64, admin_chat_id: i64, text: Option<Seq<char>>) -> MessageRoute {
    if chat_id == admin_chat_id {
        MessageRoute::AdminCommand
    } else if match text {
        Some(t) => spec_starts_with(t, "/"@),
        None => false,
    } {
        MessageRoute::Ignore
    } else {
        MessageRoute::Submission
    }
}

/// Routes an incoming message.
pub fn route_message(chat_id: i64, admin_chat_id: i64, text: Option<&str>) -> (r: MessageRoute)
    ensures
        r == spec_route(
            chat_id,
            admin_chat_id,
            match text {
                Some(t) => Some(t@),
                None => None,
            },
        ),
{
    if chat_id == admin_chat_id {
        MessageRoute::AdminCommand
    } else {
        let is_command = match text {
            Some(t) => str_starts_with(t, "/"),
            None => false,
        };
        if is_command {
            MessageRoute::Ignore
        } else {
            MessageRoute::Submission
        }
    }
}

/// The text of a review card for a submission attributed to `title`.
pub fn review_card_text(title: &str) -> (r: String)
    ensures
        r@ == "From: "@ + title@ + "\nWe going to shitpost it?"@,
{
    let mut text = String::from_str("From: ");
    text.append(title);
    text.append("\nWe going to shitpost it?");
    text
}

/// The caption the typed re-send carries, when one is kept.
pub open spec fn caption_kept(
    c: Option<String>,
    tag: DecisionTag,
    caption: Option<Seq<char>>,
    has_cap: bool,
) -> bool {
    if spec_keep_caption(tag, has_cap) && caption is Some {
        c is Some && c->0@ == caption->0
    } else {
        c is None
    }
}

/// What a correct plan for a decision event holds.
pub open spec fn plan_matches(
    plan: CallbackPlan,
    tag: DecisionTag,
    has_document: bool,
    mime: Option<Seq<char>>,
    caption: Option<Seq<char>>,
    entity_count: int,
) -> bool {
    let has_cap = spec_has_caption(caption, entity_count);
    &&& plan.delete_review_messages
    &&& plan.reply_category == (if tag == DecisionTag::DeclineSilent {
        Option::<bool>::None
    } else {
        Some(spec_is_accept(tag))
    })
    &&& if !spec_is_accept(tag) {
        plan.publish is NoPublish
    } else if has_document && spec_classify(mime) != AttachmentKind::Other {
        match plan.publish {
            PublishPlan::TryTyped { kind, caption: c } => kind == spec_classify(mime)
                && caption_kept(c, tag, caption, has_cap),
            _ => false,
        }
    } else {
        plan.publish == (PublishPlan::CopyOnly {
            strip_caption: tag == DecisionTag::AcceptWithoutCaption && has_cap,
        })
    }
}

/// Turns a decision button press into the steps the relay performs. An
/// unknown payload is ignored: no publish, no reply, no cleanup. A
/// `decline-silent` decision keeps the submitter unnotified but still asks
/// for the cleanup deletes; an `accept-without-caption` decision publishes
/// with the caption left off even where the original had one.
pub fn plan_callback(
    data: &str,
    has_document: bool,
    mime_type: Option<&str>,
    caption: Option<&str>,
    caption_entity_count: usize,
) -> (r: Option<CallbackPlan>)
    ensures
        match spec_parse_tag(data@) {
            None => r is None,
            Some(tag) => r is Some && plan_matches(
                r->0,
                tag,
                has_document,
                match mime_type {
                    Some(m) => Some(m@),
                    None => None,
                },
                match caption {
                    Some(c) => Some(c@),
                    None => None,
                },
                caption_entity_count as int,
            ),
        },
{
    let tag = match parse_decision_tag(data) {
        Some(t) => t,
        None => {
            return None;
        },
    };
    let has_cap = has_caption(caption, caption_entity_count);
    let publish: PublishPlan = if !is_accept_tag(tag) {
        PublishPlan::NoPublish
    } else {
        let kind = match mime_type {
            Some(m) => {
                if has_document {
                    classify_attachment(Some(m))
                } else {
                    AttachmentKind::Other
                }
            },
            None => AttachmentKind::Other,
        };
        if has_document && !matches!(kind, AttachmentKind::Other) {
            let kept: Option<String> = if has_cap && !matches!(
                tag,
                DecisionTag::AcceptWithoutCaption,
            ) {
                match caption {
                    Some(c) => Some(c.to_owned()),
                    None => None,
                }
            } else {
                None
            };
            PublishPlan::TryTyped { kind, caption: kept }
        } else {
            PublishPlan::CopyOnly {
                strip_caption: matches!(tag, DecisionTag::AcceptWithoutCaption) && has_cap,
            }
        }
    };
    let reply_category = if matches!(tag, DecisionTag::DeclineSilent) {
        None
    } else {
        Some(is_accept_tag(tag))
    };
    Some(CallbackPlan { publish, reply_category, delete_review_messages: true })
}

/// Law: a decline-silent decision publishes nothing and sends the submitter
/// no reply, yet still asks for the cleanup deletes.
pub proof fn lemma_silent_decline_is_quiet(
    plan: CallbackPlan,
    has_document: bool,
    mime: Option<Seq<char>>,
    caption: Option<Seq<char>>,
    entity_count: int,
)
    requires
        plan_matches(plan, DecisionTag::DeclineSilent, has_document, mime, caption, entity_count),
    ensures
        plan.publish is NoPublish,
        plan.reply_category is None,
        plan.delete_review_messages,
{
}

/// Law: an accept-without-caption decision on a captioned text-only
/// submission republishes it as a copy with the caption stripped, though
/// the original had one.
pub proof fn lemma_accept_without_caption_strips(
    plan: CallbackPlan,
    caption: Option<Seq<char>>,
    entity_count: int,
)
    requires
        plan_matches(
            plan,
            DecisionTag::AcceptWithoutCaption,
            false,
            None,
            caption,
            entity_count,
        ),
        spec_has_caption(caption, entity_count),
    ensures
        plan.publish == (PublishPlan::CopyOnly { strip_caption: true }),
        plan.reply_category == Some(true),
{
}

/// Whether the untyped-copy fallback strips the caption afterwards: only an
/// `accept-without-caption` decision on a captioned original asks for it.
pub fn copy_strips_caption(tag: DecisionTag, origin_has_caption: bool) -> (r: bool)
    ensures
        r == (tag == DecisionTag::AcceptWithoutCaption && origin_has_caption),
{
    matches!(tag, DecisionTag::AcceptWithoutCaption) && origin_has_caption
}

/// The upload name a typed re-send files the bytes under.
pub fn upload_file_name(kind: AttachmentKind) -> (r: &'static str)
    requires
        kind != AttachmentKind::Other,
    ensures
        kind == AttachmentKind::Image ==> r@ == "image.png"@,
        kind == AttachmentKind::Animation ==> r@ == "image.gif"@,
        kind == AttachmentKind::Video ==> r@ == "image.mp4"@,
{
    match kind {
        AttachmentKind::Image => "image.png",
        AttachmentKind::Animation => "image.gif",
        AttachmentKind::Video => "image.mp4",
        AttachmentKind::Other => "image.png",
    }
}

/// The reply sent to the submitter once the decision is made: the drawn
/// clip, delivered by handle or raw bytes, or the canned line for the
/// decision when the category holds no clip.
#[derive(Debug)]
pub enum ReplyAction {
    Text(String),
    SendRaw { file_name: String, data: Vec<u8> },
    SendCached { file_id: String },
}

/// Chooses the reply to the submitter from the drawn clip.
pub fn reply_for(is_accept: bool, pic: Option<GetPicResult>) -> (r: ReplyAction)
    ensures
        match pic {
            None => match r {
                ReplyAction::Text(t) => t@ == (if is_accept {
                    "🎉 Post is published."@
                } else {
                    "🚧 Post was rejected. Send me something cooler."@
                }),
                _ => false,
            },
            Some(GetPicResult::Raw(name, data)) => r == (ReplyAction::SendRaw {
                file_name: name,
                data,
            }),
            Some(GetPicResult::FileId(f)) => r == (ReplyAction::SendCached { file_id: f }),
        },
{
    match pic {
        None => {
            if is_accept {
                ReplyAction::Text(String::from_str("🎉 Post is published."))
            } else {
                ReplyAction::Text(String::from_str("🚧 Post was rejected. Send me something cooler."))
            }
        },
        Some(GetPicResult::Raw(file_name, data)) => ReplyAction::SendRaw { file_name, data },
        Some(GetPicResult::FileId(file_id)) => ReplyAction::SendCached { file_id },
    }
}

} // verus!
