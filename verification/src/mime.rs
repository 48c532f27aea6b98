//! Classification of an attachment's declared content type into the small
//! closed set the publisher distinguishes.

use vstd::prelude::*;

use crate::text::str_eq;

verus! {

/// The attachment kinds the publisher can re-send in a typed way, plus a
/// fallback for everything unclassified.
#[derive(Clone, Copy, Debug, PartialEq, Eq, Structural)]
pub enum AttachmentKind {
    Image,
    Animation,
    Video,
    Other,
}

pub open spec fn spec_is_image(m: Seq<char>) -> bool {
    m == "image/jpeg"@ || m == "image/png"@ || m == "image/webp"@
}

pub open spec fn spec_is_animate(m: Seq<char>) -> bool {
    m == "image/gif"@
}

pub open spec fn spec_is_video(m: Seq<char>) -> bool {
    m == "video/quicktime"@ || m == "video/mp4"@
}

/// The kind an attachment with content type `m` is handled as: the first of
/// image / animation / video whose list names `m`, else the opaque fallback.
pub open spec fn spec_classify(m: Option<Seq<char>>) -> AttachmentKind {
    match m {
        Some(s) => if spec_is_image(s) {
            AttachmentKind::Image
        } else if spec_is_animate(s) {
            AttachmentKind::Animation
        } else if spec_is_video(s) {
            AttachmentKind::Video
        } else {
            AttachmentKind::Other
        },
        None => AttachmentKind::Other,
    }
}

/// Whether the content type names a still image.
pub fn is_image(mime: &str) -> (r: bool)
    ensures
        r == spec_is_image(mime@),
{
    str_eq(mime, "image/jpeg") || str_eq(mime, "image/png") || str_eq(mime, "image/webp")
}

/// Whether the content type names an animated image.
pub fn is_animate(mime: &str) -> (r: bool)
    ensures
        r == spec_is_animate(mime@),
{
    str_eq(mime, "image/gif")
}

/// Whether the content type names a video.
pub fn is_video(mime: &str) -> (r: bool)
    ensures
        r == spec_is_video(mime@),
{
    str_eq(mime, "video/quicktime") || str_eq(mime, "video/mp4")
}

/// Classifies a declared content type; an attachment without one is opaque.
pub fn classify_attachment(mime: Option<&str>) -> (r: AttachmentKind)
    ensures
        r == spec_classify(match mime {
            Some(m) => Some(m@),
            None => None,
        }),
{
    match mime {
        Some(m) => {
            if is_image(m) {
                AttachmentKind::Image
            } else if is_animate(m) {
                AttachmentKind::Animation
            } else if is_video(m) {
                AttachmentKind::Video
            } else {
                AttachmentKind::Other
            }
        },
        None => AttachmentKind::Other,
    }
}

} // verus!
