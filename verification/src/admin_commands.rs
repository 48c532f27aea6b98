//! The admin command router: the fixed command grammars, and the handlers
//! that manage the media store and message submitters.
//!
//! The grammars mirror the patterns `/get (A|D) (.+)`, `/add (A|D)`,
//! `/rm (A|D) (.+)` and `/msg (.+)`: a match is searched anywhere in the
//! text, the leftmost one wins, and `.` never crosses a line break.

use vstd::prelude::*;

use crate::offered_post::{find_entry, OfferedPostRepo};
use crate::pic::{has_pic, pic_matches, Pic, PicRepo};
use crate::text::{clone_bytes, spec_starts_with, str_starts_with};

verus! {

use vstd::string::StrSliceExecFns;
use vstd::string::StringExecFns;

/// The position of the first line break at or after `j`, or the end of the
/// text.
pub open spec fn eol_from(s: Seq<char>, j: int) -> int
    decreases s.len() - j,
{
    if j < 0 || j >= s.len() {
        s.len() as int
    } else if s[j] == '\n' {
        j
    } else {
        eol_from(s, j + 1)
    }
}

/// Whether the literal `lit` stands at position `i` of `s`.
pub open spec fn lit_at(s: Seq<char>, lit: Seq<char>, i: int) -> bool {
    0 <= i && i + lit.len() <= s.len() && s.subrange(i, i + lit.len()) == lit
}

/// A match of `lit (A|D) (.+)` at position `i`: the literal, a category
/// flag, a space, and at least one more character on the same line.
pub open spec fn flag_name_match_at(s: Seq<char>, lit: Seq<char>, i: int) -> bool {
    &&& lit_at(s, lit, i)
    &&& i + lit.len() + 2 < s.len()
    &&& (s[i + lit.len()] == 'A' || s[i + lit.len()] == 'D')
    &&& s[i + lit.len() + 1] == ' '
    &&& s[i + lit.len() + 2] != '\n'
}

/// The first position at or after `i` where `lit (A|D) (.+)` matches.
pub open spec fn first_flag_name_match(s: Seq<char>, lit: Seq<char>, i: int) -> Option<int>
    decreases s.len() - i,
{
    if i < 0 || i + lit.len() + 2 >= s.len() {
        None
    } else if flag_name_match_at(s, lit, i) {
        Some(i)
    } else {
        first_flag_name_match(s, lit, i + 1)
    }
}

/// The captures of the leftmost `lit (A|D) (.+)` match: whether the flag
/// was `A`, and the name running to the end of the line.
pub open spec fn spec_flag_name_args(s: Seq<char>, lit: Seq<char>) -> Option<(bool, Seq<char>)> {
    match first_flag_name_match(s, lit, 0) {
        None => None,
        Some(i) => Some(
            (
                s[i + lit.len()] == 'A',
                s.subrange(i + lit.len() + 2, eol_from(s, i + lit.len() + 2)),
            ),
        ),
    }
}

/// A match of `lit (A|D)` at position `i`.
pub open spec fn flag_match_at(s: Seq<char>, lit: Seq<char>, i: int) -> bool {
    &&& lit_at(s, lit, i)
    &&& i + lit.len() < s.len()
    &&& (s[i + lit.len()] == 'A' || s[i + lit.len()] == 'D')
}

/// The first position at or after `i` where `lit (A|D)` matches.
pub open spec fn first_flag_match(s: Seq<char>, lit: Seq<char>, i: int) -> Option<int>
    decreases s.len() - i,
{
    if i < 0 || i + lit.len() >= s.len() {
        None
    } else if flag_match_at(s, lit, i) {
        Some(i)
    } else {
        first_flag_match(s, lit, i + 1)
    }
}

/// The capture of the leftmost `lit (A|D)` match: whether the flag was `A`.
pub open spec fn spec_flag_args(s: Seq<char>, lit: Seq<char>) -> Option<bool> {
    match first_flag_match(s, lit, 0) {
        None => None,
        Some(i) => Some(s[i + lit.len()] == 'A'),
    }
}

/// A match of `lit (.+)` at position `i`.
pub open spec fn rest_match_at(s: Seq<char>, lit: Seq<char>, i: int) -> bool {
    &&& lit_at(s, lit, i)
    &&& i + lit.len() < s.len()
    &&& s[i + lit.len()] != '\n'
}

/// The first position at or after `i` where `lit (.+)` matches.
pub open spec fn first_rest_match(s: Seq<char>, lit: Seq<char>, i: int) -> Option<int>
    decreases s.len() - i,
{
    if i < 0 || i + lit.len() >= s.len() {
        None
    } else if rest_match_at(s, lit, i) {
        Some(i)
    } else {
        first_rest_match(s, lit, i + 1)
    }
}

/// The capture of the leftmost `lit (.+)` match: the text running to the
/// end of the line.
pub open spec fn spec_rest_args(s: Seq<char>, lit: Seq<char>) -> Option<Seq<char>> {
    match first_rest_match(s, lit, 0) {
        None => None,
        Some(i) => Some(s.subrange(i + lit.len(), eol_from(s, i + lit.len()))),
    }
}

/// Whether `lit` stands at position `i` of `text`.
fn lit_matches_at(text: &str, lit: &str, i: usize) -> (r: bool)
    requires
        i + lit@.len() <= text@.len(),
    ensures
        r == lit_at(text@, lit@, i as int),
{
    let n = text.unicode_len();
    let litn = lit.unicode_len();
    let mut m: usize = 0;
    while m < litn
        invariant
            n == text@.len(),
            litn == lit@.len(),
            i + litn <= n,
            m <= litn,
            forall|k: int| 0 <= k < m ==> text@[i + k] == lit@[k],
        decreases litn - m,
    {
        if text.get_char(i + m) != lit.get_char(m) {
            assert(text@.subrange(i as int, i + litn) != lit@) by {
                assert(text@.subrange(i as int, i + litn)[m as int] != lit@[m as int]);
            }
            return false;
        }
        m += 1;
    }
    proof {
        assert(text@.subrange(i as int, i + litn) =~= lit@);
    }
    true
}

/// The position of the first line break at or after `from`, or the text's
/// end.
fn find_eol(text: &str, from: usize) -> (r: usize)
    requires
        from <= text@.len(),
    ensures
        r == eol_from(text@, from as int),
        from <= r <= text@.len(),
{
    let n = text.unicode_len();
    let mut j = from;
    while j < n
        invariant
            n == text@.len(),
            from <= j <= n,
            eol_from(text@, from as int) == eol_from(text@, j as int),
        decreases n - j,
    {
        if text.get_char(j) == '\n' {
            return j;
        }
        j += 1;
    }
    n
}

/// Finds the leftmost `lit (A|D) (.+)` match and extracts its captures.
fn find_flag_name_args(text: &str, lit: &str) -> (r: Option<(bool, String)>)
    requires
        lit@.len() <= 16,
    ensures
        match (r, spec_flag_name_args(text@, lit@)) {
            (None, None) => true,
            (Some(got), Some(want)) => got.0 == want.0 && got.1@ == want.1,
            _ => false,
        },
{
    let n = text.unicode_len();
    let litn = lit.unicode_len();
    let mut i: usize = 0;
    while litn + 3 <= n - i && i < n
        invariant
            n == text@.len(),
            litn == lit@.len(),
            litn <= 16,
            i <= n,
            first_flag_name_match(text@, lit@, 0) == first_flag_name_match(text@, lit@, i as int),
        decreases n - i,
    {
        if lit_matches_at(text, lit, i) {
            let flag = text.get_char(i + litn);
            if (flag == 'A' || flag == 'D') && text.get_char(i + litn + 1) == ' ' && text.get_char(
                i + litn + 2,
            ) != '\n' {
                let start = i + litn + 2;
                let end = find_eol(text, start);
                let name = text.substring_char(start, end).to_owned();
                return Some((flag == 'A', name));
            }
        }
        i += 1;
    }
    None
}

/// Finds the leftmost `lit (A|D)` match and extracts the category flag.
fn find_flag_args(text: &str, lit: &str) -> (r: Option<bool>)
    requires
        lit@.len() <= 16,
    ensures
        r == spec_flag_args(text@, lit@),
{
    let n = text.unicode_len();
    let litn = lit.unicode_len();
    let mut i: usize = 0;
    while litn + 1 <= n - i && i < n
        invariant
            n == text@.len(),
            litn == lit@.len(),
            litn <= 16,
            i <= n,
            first_flag_match(text@, lit@, 0) == first_flag_match(text@, lit@, i as int),
        decreases n - i,
    {
        if lit_matches_at(text, lit, i) {
            let flag = text.get_char(i + litn);
            if flag == 'A' || flag == 'D' {
                return Some(flag == 'A');
            }
        }
        i += 1;
    }
    None
}

/// Finds the leftmost `lit (.+)` match and extracts the rest of the line.
fn find_rest_args(text: &str, lit: &str) -> (r: Option<String>)
    requires
        lit@.len() <= 16,
    ensures
        match (r, spec_rest_args(text@, lit@)) {
            (None, None) => true,
            (Some(got), Some(want)) => got@ == want,
            _ => false,
        },
{
    let n = text.unicode_len();
    let litn = lit.unicode_len();
    let mut i: usize = 0;
    while litn + 1 <= n - i && i < n
        invariant
            n == text@.len(),
            litn == lit@.len(),
            litn <= 16,
            i <= n,
            first_rest_match(text@, lit@, 0) == first_rest_match(text@, lit@, i as int),
        decreases n - i,
    {
        if lit_matches_at(text, lit, i) {
            if text.get_char(i + litn) != '\n' {
                let start = i + litn;
                let end = find_eol(text, start);
                let rest = text.substring_char(start, end).to_owned();
                return Some(rest);
            }
        }
        i += 1;
    }
    None
}

/// The captures of `/get (A|D) (.+)`.
pub fn parse_get_args(text: &str) -> (r: Option<(bool, String)>)
    ensures
        match (r, spec_flag_name_args(text@, "/get "@)) {
            (None, None) => true,
            (Some(got), Some(want)) => got.0 == want.0 && got.1@ == want.1,
            _ => false,
        },
{
    proof {
        reveal_strlit("/get ");
    }
    find_flag_name_args(text, "/get ")
}

/// The captures of `/rm (A|D) (.+)`.
pub fn parse_rm_args(text: &str) -> (r: Option<(bool, String)>)
    ensures
        match (r, spec_flag_name_args(text@, "/rm "@)) {
            (None, None) => true,
            (Some(got), Some(want)) => got.0 == want.0 && got.1@ == want.1,
            _ => false,
        },
{
    proof {
        reveal_strlit("/rm ");
    }
    find_flag_name_args(text, "/rm ")
}

/// The capture of `/add (A|D)`.
pub fn parse_add_args(text: &str) -> (r: Option<bool>)
    ensures
        r == spec_flag_args(text@, "/add "@),
{
    proof {
        reveal_strlit("/add ");
    }
    find_flag_args(text, "/add ")
}

/// The capture of `/msg (.+)`.
pub fn parse_msg_args(text: &str) -> (r: Option<String>)
    ensures
        match (r, spec_rest_args(text@, "/msg "@)) {
            (None, None) => true,
            (Some(got), Some(want)) => got@ == want,
            _ => false,
        },
{
    proof {
        reveal_strlit("/msg ");
    }
    find_rest_args(text, "/msg ")
}

/// The admin verb a command text is routed to, by prefix, first match
/// winning.
#[derive(Clone, Copy, Debug, PartialEq, Eq, Structural)]
pub enum AdminCommandKind {
    Version,
    Help,
    List,
    Add,
    Get,
    Rm,
    Msg,
    Unrecognized,
}

/// The verb the command text begins with.
pub open spec fn spec_route_admin(s: Seq<char>) -> AdminCommandKind {
    if spec_starts_with(s, "/version"@) {
        AdminCommandKind::Version
    } else if spec_starts_with(s, "/help"@) {
        AdminCommandKind::Help
    } else if spec_starts_with(s, "/list"@) {
        AdminCommandKind::List
    } else if spec_starts_with(s, "/add"@) {
        AdminCommandKind::Add
    } else if spec_starts_with(s, "/get"@) {
        AdminCommandKind::Get
    } else if spec_starts_with(s, "/rm"@) {
        AdminCommandKind::Rm
    } else if spec_starts_with(s, "/msg"@) {
        AdminCommandKind::Msg
    } else {
        AdminCommandKind::Unrecognized
    }
}

/// Routes an admin-chat text to its command verb.
pub fn route_admin_command(text: &str) -> (r: AdminCommandKind)
    ensures
        r == spec_route_admin(text@),
{
    if str_starts_with(text, "/version") {
        AdminCommandKind::Version
    } else if str_starts_with(text, "/help") {
        AdminCommandKind::Help
    } else if str_starts_with(text, "/list") {
        AdminCommandKind::List
    } else if str_starts_with(text, "/add") {
        AdminCommandKind::Add
    } else if str_starts_with(text, "/get") {
        AdminCommandKind::Get
    } else if str_starts_with(text, "/rm") {
        AdminCommandKind::Rm
    } else if str_starts_with(text, "/msg") {
        AdminCommandKind::Msg
    } else {
        AdminCommandKind::Unrecognized
    }
}

/// The reply to `/help`.
pub fn help_text() -> (r: String)
    ensures
        r@
            == "Bot support next commands:\n- /version - get current version.\n- /list - get all pics from database with mark of accept/decline.\n- /get {A/D} <file_name (from /list)> - get pic.\n- /add {A/D} - add pic.\n- /rm {A/D} <file_name (from /list)> - remove pic."@,
{
    String::from_str(
        "Bot support next commands:\n- /version - get current version.\n- /list - get all pics from database with mark of accept/decline.\n- /get {A/D} <file_name (from /list)> - get pic.\n- /add {A/D} - add pic.\n- /rm {A/D} <file_name (from /list)> - remove pic.",
    )
}

/// One line of the `/list` reply: the category mark and the blob's name.
pub open spec fn spec_pic_line(p: Pic) -> Seq<char> {
    "  - "@ + (if p.for_accept {
        "A"@
    } else {
        "D"@
    }) + " | "@ + p.file_name@
}

/// The `/list` body: one line per stored blob, in store order.
pub open spec fn spec_pic_list(s: Seq<Pic>) -> Seq<char>
    decreases s.len(),
{
    if s.len() == 0 {
        Seq::empty()
    } else if s.len() == 1 {
        spec_pic_line(s[0])
    } else {
        spec_pic_list(s.drop_last()) + "\n"@ + spec_pic_line(s.last())
    }
}

/// The reply to `/list`: the stored blobs with their accept/decline marks,
/// or the canned line for an empty store.
pub fn list_text(pic_repo: &PicRepo) -> (r: String)
    ensures
        r@ == (if pic_repo@.len() == 0 {
            "Pic list is empty "@
        } else {
            "Pic list:\n"@ + spec_pic_list(pic_repo@)
        }),
{
    let pics = pic_repo.get_all_pics();
    let n = pics.len();
    if n == 0 {
        return String::from_str("Pic list is empty ");
    }
    let mut acc = String::from_str("Pic list:\n");
    let mut i: usize = 0;
    while i < n
        invariant
            pics@ == pic_repo@,
            n == pic_repo@.len(),
            1 <= n,
            i <= n,
            i == 0 ==> acc@ == "Pic list:\n"@,
            1 <= i ==> acc@ == "Pic list:\n"@ + spec_pic_list(pic_repo@.take(i as int)),
        decreases n - i,
    {
        proof {
            assert(pic_repo@.take(i + 1).drop_last() =~= pic_repo@.take(i as int));
            assert(pic_repo@.take(i + 1).last() == pic_repo@[i as int]);
            assert(pic_repo@.take(1)[0] == pic_repo@[0]);
        }
        if i > 0 {
            acc.append("\n");
        }
        acc.append("  - ");
        if pics[i].for_accept {
            acc.append("A");
        } else {
            acc.append("D");
        }
        acc.append(" | ");
        acc.append(pics[i].file_name.as_str());
        proof {
            if i == 0 {
                assert(acc@ =~= "Pic list:\n"@ + spec_pic_list(pic_repo@.take(1)));
            } else {
                assert(acc@ =~= "Pic list:\n"@ + spec_pic_list(pic_repo@.take(i + 1)));
            }
        }
        i += 1;
    }
    proof {
        assert(pic_repo@.take(n as int) =~= pic_repo@);
    }
    acc
}

/// Handles `/rm (A|D) (.+)`: a malformed command is answered with the usage
/// hint and mutates nothing; otherwise the named blob is removed, or its
/// absence reported.
pub fn delete(pic_repo: &mut PicRepo, text: &str) -> (r: String)
    requires
        old(pic_repo).wf(),
    ensures
        final(pic_repo).wf(),
        match spec_flag_name_args(text@, "/rm "@) {
            None => final(pic_repo)@ == old(pic_repo)@ && r@
                == "Invalid parameters for Rm command. See /help"@,
            Some(args) => if has_pic(old(pic_repo)@, args.1, args.0) {
                exists|i: int|
                    0 <= i < old(pic_repo)@.len() && pic_matches(old(pic_repo)@[i], args.1, args.0)
                        && final(pic_repo)@ == old(pic_repo)@.remove(i) && r@
                        == "Delete successful."@
            } else {
                final(pic_repo)@ == old(pic_repo)@ && r@
                    == "Image with this filename and mark does not exist."@
            },
        },
{
    match parse_rm_args(text) {
        None => String::from_str("Invalid parameters for Rm command. See /help"),
        Some((for_accept, file_name)) => {
            match pic_repo.delete_pic(file_name.as_str(), for_accept) {
                Ok(()) => String::from_str("Delete successful."),
                Err(_) => String::from_str("Image with this filename and mark does not exist."),
            }
        },
    }
}

/// A reply of the admin router: a text line, or a stored blob delivered as
/// an animation.
#[derive(Debug)]
pub enum AdminReply {
    Text(String),
    Animation { file_name: String, data: Vec<u8> },
}

/// Handles `/get (A|D) (.+)`: a malformed command is answered with the
/// usage hint; otherwise the named blob is delivered, or its absence
/// reported.
pub fn get(pic_repo: &PicRepo, text: &str) -> (r: AdminReply)
    ensures
        match spec_flag_name_args(text@, "/get "@) {
            None => match r {
                AdminReply::Text(t) => t@ == "Invalid parameters for Get command. See /help"@,
                _ => false,
            },
            Some(args) => if has_pic(pic_repo@, args.1, args.0) {
                match r {
                    AdminReply::Animation { file_name, data } => exists|i: int|
                        0 <= i < pic_repo@.len() && pic_matches(pic_repo@[i], args.1, args.0)
                            && file_name@ == pic_repo@[i].file_name@ && data@
                            == pic_repo@[i].data@,
                    _ => false,
                }
            } else {
                match r {
                    AdminReply::Text(t) => t@ == "Pic with this name and mark not found. See /list"@,
                    _ => false,
                }
            },
        },
{
    match parse_get_args(text) {
        None => AdminReply::Text(String::from_str("Invalid parameters for Get command. See /help")),
        Some((for_accept, file_name)) => {
            match pic_repo.get_pic(file_name.as_str(), for_accept) {
                Ok(pic) => AdminReply::Animation {
                    file_name: pic.file_name.clone(),
                    data: clone_bytes(&pic.data),
                },
                Err(_) => AdminReply::Text(
                    String::from_str("Pic with this name and mark not found. See /list"),
                ),
            }
        },
    }
}

/// What an `/add` command does before any bytes are fetched: answer a
/// usage or missing-attachment hint, or go download the attached animation
/// for the parsed category.
#[derive(Debug)]
pub enum AddStep {
    Reply(String),
    Download { for_accept: bool },
}

/// Validates `/add (A|D)` and the presence of an attached animation.
pub fn add_precheck(text: &str, has_animation: bool) -> (r: AddStep)
    ensures
        match spec_flag_args(text@, "/add "@) {
            None => match r {
                AddStep::Reply(t) => t@ == "Invalid parameters for Add command. See /help"@,
                _ => false,
            },
            Some(for_accept) => if has_animation {
                r == (AddStep::Download { for_accept })
            } else {
                match r {
                    AddStep::Reply(t) => t@ == "Attach animation to command. See /help"@,
                    _ => false,
                }
            },
        },
{
    match parse_add_args(text) {
        None => AddStep::Reply(String::from_str("Invalid parameters for Add command. See /help")),
        Some(for_accept) => {
            if has_animation {
                AddStep::Download { for_accept }
            } else {
                AddStep::Reply(String::from_str("Attach animation to command. See /help"))
            }
        },
    }
}

/// Finishes an `/add`: a failed download is reported and mutates nothing;
/// otherwise the bytes are stored under the animation's name (or the
/// stock name when it has none), refusing to overwrite an existing
/// `(name, category)` pair.
pub fn finish_add(
    pic_repo: &mut PicRepo,
    for_accept: bool,
    file_name: Option<&str>,
    data: Option<Vec<u8>>,
) -> (r: String)
    requires
        old(pic_repo).wf(),
    ensures
        final(pic_repo).wf(),
        match data {
            None => final(pic_repo)@ == old(pic_repo)@ && r@ == "Download error."@,
            Some(d) => {
                let name = match file_name {
                    Some(f) => f@,
                    None => "file.gif"@,
                };
                if has_pic(old(pic_repo)@, name, for_accept) {
                    final(pic_repo)@ == old(pic_repo)@ && r@
                        == "Pic with this name and mark already exists."@
                } else {
                    final(pic_repo)@.len() == old(pic_repo)@.len() + 1
                        && final(pic_repo)@.drop_last() == old(pic_repo)@
                        && final(pic_repo)@.last().file_name@ == name
                        && final(pic_repo)@.last().for_accept == for_accept
                        && final(pic_repo)@.last().data@ == d@
                        && r@ == "Add successful."@
                }
            },
        },
{
    let data = match data {
        Some(d) => d,
        None => {
            return String::from_str("Download error.");
        },
    };
    let name = match file_name {
        Some(f) => f.to_owned(),
        None => String::from_str("file.gif"),
    };
    let pic = Pic::new(name, for_accept, data);
    match pic_repo.save_pic(pic) {
        Ok(()) => {
            proof {
                assert(pic_repo@.drop_last() =~= old(pic_repo)@);
            }
            String::from_str("Add successful.")
        },
        Err(_) => String::from_str("Pic with this name and mark already exists."),
    }
}

/// What a `/msg` command resolves to: a reply back into the admin chat, or
/// the prefixed text sent to the submitter, threaded on their original
/// message.
#[derive(Debug)]
pub enum MsgStep {
    Reply(String),
    Send { chat_id: i64, message_id: i32, text: String },
}

/// Handles `/msg (.+)`: validates the grammar, requires the command to
/// answer a review card, resolves that card through the ledger, and
/// addresses the prefixed text to the original submitter.
pub fn send_msg(
    offered_post_repo: &OfferedPostRepo,
    msg_prefix: &str,
    text: &str,
    reply_to: Option<(i64, i32)>,
) -> (r: MsgStep)
    ensures
        match spec_rest_args(text@, "/msg "@) {
            None => match r {
                MsgStep::Reply(t) => t@ == "Invalid parameters for Msg command. See /help"@,
                _ => false,
            },
            Some(captured) => match reply_to {
                None => match r {
                    MsgStep::Reply(t) => t@ == "Reply message not found."@,
                    _ => false,
                },
                Some((chat, mid)) => match find_entry(offered_post_repo@, chat, mid) {
                    None => match r {
                        MsgStep::Reply(t) => t@ == "Offered post not found."@,
                        _ => false,
                    },
                    Some(post) => match r {
                        MsgStep::Send { chat_id, message_id, text: t } => chat_id == post.chat_id
                            && message_id == post.message_id && t@ == msg_prefix@ + captured,
                        _ => false,
                    },
                },
            },
        },
{
    let msg = match parse_msg_args(text) {
        Some(m) => m,
        None => {
            return MsgStep::Reply(
                String::from_str("Invalid parameters for Msg command. See /help"),
            );
        },
    };
    let (chat, mid) = match reply_to {
        Some(pair) => pair,
        None => {
            return MsgStep::Reply(String::from_str("Reply message not found."));
        },
    };
    let post = match offered_post_repo.get_offered_post(chat, mid) {
        Ok(p) => p,
        Err(_) => {
            return MsgStep::Reply(String::from_str("Offered post not found."));
        },
    };
    let mut out = String::from_str(msg_prefix);
    out.append(msg.as_str());
    MsgStep::Send { chat_id: post.chat_id, message_id: post.message_id, text: out }
}

} // verus!
