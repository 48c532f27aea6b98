//! The attribution line shown for a submitting user.

use vstd::prelude::*;

verus! {

use vstd::string::StrSliceExecFns;
use vstd::string::StringExecFns;

/// The username part of the attribution: `<@name>` when a username is set,
/// empty otherwise.
pub open spec fn spec_username_part(username: Option<&str>) -> Seq<char> {
    match username {
        Some(u) => "<@"@ + u@ + ">"@,
        None => Seq::empty(),
    }
}

/// `acc` extended by the word `w`: empty words are skipped, and a space
/// separates two non-empty parts.
pub open spec fn spec_join_word(acc: Seq<char>, w: Seq<char>) -> Seq<char> {
    if w.len() == 0 {
        acc
    } else if acc.len() == 0 {
        w
    } else {
        acc + " "@ + w
    }
}

/// The full attribution line: the non-empty ones among username part, first
/// name and last name, joined by single spaces.
pub open spec fn spec_title(username: Option<&str>, first_name: &str, last_name: Option<
    &str,
>) -> Seq<char> {
    spec_join_word(
        spec_join_word(spec_username_part(username), first_name@),
        match last_name {
            Some(l) => l@,
            None => Seq::<char>::empty(),
        },
    )
}

fn push_word(acc: &mut String, w: &str)
    ensures
        final(acc)@ == spec_join_word(old(acc)@, w@),
{
    if w.is_empty() {
        return ;
    }
    if !acc.as_str().is_empty() {
        acc.append(" ");
    }
    acc.append(w);
}

/// Formats the attribution line for a user: `<@username> first last`, with
/// absent or empty parts left out.
pub fn ftm_title(username: Option<&str>, first_name: &str, last_name: Option<&str>) -> (r: String)
    ensures
        r@ == spec_title(username, first_name, last_name),
{
    let mut title = String::new();
    match username {
        Some(u) => {
            let mut part = String::new();
            part.append("<@");
            part.append(u);
            part.append(">");
            proof {
                assert(part@ =~= spec_username_part(username));
            }
            push_word(&mut title, part.as_str());
        },
        None => {},
    }
    push_word(&mut title, first_name);
    match last_name {
        Some(l) => push_word(&mut title, l),
        None => {},
    }
    title
}

} // verus!
