//! The decision-button rows attached to a review card.

use vstd::prelude::*;

verus! {

use vstd::string::StringExecFns;

/// One inline button: the label shown and the decision tag its press sends
/// back.
#[derive(Debug)]
pub struct Button {
    pub label: String,
    pub tag: String,
}

/// The button rows of a review card.
#[derive(Debug)]
pub struct Keyboard {
    pub rows: Vec<Vec<Button>>,
}

pub open spec fn is_accept_button(b: &Button) -> bool {
    b.label@ == "✅ Accept"@ && b.tag@ == "accept"@
}

pub open spec fn is_decline_button(b: &Button) -> bool {
    b.label@ == "❌ Decline"@ && b.tag@ == "decline"@
}

pub open spec fn is_silent_decline_button(b: &Button) -> bool {
    b.label@ == "🗿 Silent decline"@ && b.tag@ == "decline-silent"@
}

pub open spec fn is_without_caption_button(b: &Button) -> bool {
    b.label@ == "☢️ Without text"@ && b.tag@ == "accept-without-caption"@
}

fn button(label: &str, tag: &str) -> (r: Button)
    ensures
        r.label@ == label@,
        r.tag@ == tag@,
{
    Button { label: String::from_str(label), tag: String::from_str(tag) }
}

/// Builds the decision keyboard for a submission, shaped by the message:
/// a text-only message gets Accept / Decline and a Silent-decline row, a
/// captioned media message gets Accept / Accept-without-caption and a
/// Decline row, and uncaptioned media gets Accept / Decline.
pub fn build_keyboard(has_caption: bool, only_text: bool) -> (r: Keyboard)
    ensures
        only_text ==> r.rows@.len() == 2 && r.rows@[0]@.len() == 2 && r.rows@[1]@.len() == 1
            && is_accept_button(&r.rows@[0]@[0]) && is_decline_button(&r.rows@[0]@[1])
            && is_silent_decline_button(&r.rows@[1]@[0]),
        !only_text && has_caption ==> r.rows@.len() == 2 && r.rows@[0]@.len() == 2
            && r.rows@[1]@.len() == 1 && is_accept_button(&r.rows@[0]@[0])
            && is_without_caption_button(&r.rows@[0]@[1]) && is_decline_button(&r.rows@[1]@[0]),
        !only_text && !has_caption ==> r.rows@.len() == 1 && r.rows@[0]@.len() == 2
            && is_accept_button(&r.rows@[0]@[0]) && is_decline_button(&r.rows@[0]@[1]),
{
    let accept_button = button("✅ Accept", "accept");
    let decline_button = button("❌ Decline", "decline");
    let mut rows: Vec<Vec<Button>> = Vec::new();
    if only_text {
        let silent_decline_button = button("🗿 Silent decline", "decline-silent");
        let mut row0: Vec<Button> = Vec::new();
        row0.push(accept_button);
        row0.push(decline_button);
        let mut row1: Vec<Button> = Vec::new();
        row1.push(silent_decline_button);
        rows.push(row0);
        rows.push(row1);
    } else if has_caption {
        let without_caption_button = button("☢️ Without text", "accept-without-caption");
        let mut row0: Vec<Button> = Vec::new();
        row0.push(accept_button);
        row0.push(without_caption_button);
        let mut row1: Vec<Button> = Vec::new();
        row1.push(decline_button);
        rows.push(row0);
        rows.push(row1);
    } else {
        let mut row0: Vec<Button> = Vec::new();
        row0.push(accept_button);
        row0.push(decline_button);
        rows.push(row0);
    }
    Keyboard { rows }
}

} // verus!
