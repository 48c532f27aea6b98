//! The pending-submission ledger: which end-user message each review card
//! stands for.

use vstd::prelude::*;

use crate::error::RelayError;

verus! {

/// One ledger entry: the end-user's original message, the review card posted
/// for it, and an optional secondary review-chat message that resolves to the
/// same submission.
#[derive(Clone, Copy, Debug, PartialEq, Eq)]
pub struct OfferedPost {
    pub chat_id: i64,
    pub message_id: i32,
    pub admin_chat_id: i64,
    pub admin_chat_message_id: i32,
    pub admin_chat_additional_message_id: Option<i32>,
}

impl OfferedPost {
    pub fn new(
        chat_id: i64,
        message_id: i32,
        admin_chat_id: i64,
        admin_chat_message_id: i32,
        admin_chat_additional_message_id: Option<i32>,
    ) -> (r: Self)
        ensures
            r == (OfferedPost {
                chat_id,
                message_id,
                admin_chat_id,
                admin_chat_message_id,
                admin_chat_additional_message_id,
            }),
    {
        Self {
            chat_id,
            message_id,
            admin_chat_id,
            admin_chat_message_id,
            admin_chat_additional_message_id,
        }
    }
}

/// Whether `p` answers a lookup for the review-chat message `(chat, mid)`:
/// the primary review message id matches, or the secondary one does.
pub open spec fn entry_matches(p: OfferedPost, chat: i64, mid: i32) -> bool {
    p.admin_chat_id == chat && (p.admin_chat_message_id == mid
        || p.admin_chat_additional_message_id == Some(mid))
}

/// Whether some entry of `s` answers a lookup for `(chat, mid)`.
pub open spec fn has_entry(s: Seq<OfferedPost>, chat: i64, mid: i32) -> bool {
    exists|i: int| 0 <= i < s.len() && entry_matches(s[i], chat, mid)
}

/// Whether some entry of `s` has `(chat, mid)` as its primary review key.
pub open spec fn has_primary(s: Seq<OfferedPost>, chat: i64, mid: i32) -> bool {
    exists|i: int|
        0 <= i < s.len() && s[i].admin_chat_id == chat && s[i].admin_chat_message_id == mid
}

/// The first entry of `s` answering a lookup for `(chat, mid)`, if any.
pub open spec fn find_entry(s: Seq<OfferedPost>, chat: i64, mid: i32) -> Option<OfferedPost>
    decreases s.len(),
{
    if s.len() == 0 {
        None
    } else if entry_matches(s[0], chat, mid) {
        Some(s[0])
    } else {
        find_entry(s.drop_first(), chat, mid)
    }
}

/// The ledger store. The primary review key is unique across entries.
pub struct OfferedPostRepo {
    posts: Vec<OfferedPost>,
}

impl View for OfferedPostRepo {
    type V = Seq<OfferedPost>;

    closed spec fn view(&self) -> Seq<OfferedPost> {
        self.posts@
    }
}

impl OfferedPostRepo {
    /// The ledger invariant: `(admin_chat_id, admin_chat_message_id)` is
    /// unique.
    pub open spec fn wf(&self) -> bool {
        forall|i: int, j: int|
            0 <= i < j < self@.len() ==> !(self@[i].admin_chat_id == self@[j].admin_chat_id
                && self@[i].admin_chat_message_id == self@[j].admin_chat_message_id)
    }

    pub fn new() -> (r: Self)
        ensures
            r@ == Seq::<OfferedPost>::empty(),
            r.wf(),
    {
        Self { posts: Vec::new() }
    }

    /// Records a new entry. Fails with `PersistenceError`, leaving the
    /// ledger unchanged, exactly when the primary review key is already
    /// taken; duplicate origins are allowed.
    pub fn save_offered_post(&mut self, offered_post: OfferedPost) -> (r: Result<(), RelayError>)
        requires
            old(self).wf(),
        ensures
            final(self).wf(),
            match r {
                Ok(()) => !has_primary(
                    old(self)@,
                    offered_post.admin_chat_id,
                    offered_post.admin_chat_message_id,
                ) && final(self)@ == old(self)@.push(offered_post),
                Err(e) => e == RelayError::PersistenceError && has_primary(
                    old(self)@,
                    offered_post.admin_chat_id,
                    offered_post.admin_chat_message_id,
                ) && final(self)@ == old(self)@,
            },
    {
        let n = self.posts.len();
        let mut i: usize = 0;
        while i < n
            invariant
                self@ == old(self)@,
                old(self).wf(),
                n == self@.len(),
                i <= n,
                forall|j: int|
                    0 <= j < i ==> !(self@[j].admin_chat_id == offered_post.admin_chat_id
                        && self@[j].admin_chat_message_id == offered_post.admin_chat_message_id),
            decreases n - i,
        {
            if self.posts[i].admin_chat_id == offered_post.admin_chat_id
                && self.posts[i].admin_chat_message_id == offered_post.admin_chat_message_id {
                return Err(RelayError::PersistenceError);
            }
            i += 1;
        }
        self.posts.push(offered_post);
        Ok(())
    }

    /// Resolves a review-chat message to its ledger entry, matching the
    /// primary or the secondary review message id. Fails with `NotFound`
    /// exactly when no entry matches. Repeated lookups succeed alike: the
    /// ledger is not changed.
    pub fn get_offered_post(&self, admin_chat_id: i64, admin_chat_message_id: i32) -> (r: Result<
        OfferedPost,
        RelayError,
    >)
        ensures
            match r {
                Ok(p) => find_entry(self@, admin_chat_id, admin_chat_message_id) == Some(p),
                Err(e) => e == RelayError::NotFound && find_entry(
                    self@,
                    admin_chat_id,
                    admin_chat_message_id,
                ) is None,
            },
    {
        let n = self.posts.len();
        let mut i: usize = 0;
        proof {
            assert(self@.skip(0) =~= self@);
        }
        while i < n
            invariant
                n == self@.len(),
                i <= n,
                find_entry(self@, admin_chat_id, admin_chat_message_id) == find_entry(
                    self@.skip(i as int),
                    admin_chat_id,
                    admin_chat_message_id,
                ),
            decreases n - i,
        {
            proof {
                assert(self@.skip(i as int)[0] == self@[i as int]);
                assert(self@.skip(i as int).drop_first() =~= self@.skip(i + 1));
            }
            let p = self.posts[i];
            if p.admin_chat_id == admin_chat_id && (p.admin_chat_message_id == admin_chat_message_id
                || match p.admin_chat_additional_message_id {
                Some(mid) => mid == admin_chat_message_id,
                None => false,
            }) {
                return Ok(p);
            }
            i += 1;
        }
        proof {
            assert(self@.skip(n as int) =~= Seq::<OfferedPost>::empty());
        }
        Err(RelayError::NotFound)
    }
}

/// No element of `s` answers a lookup for `(chat, mid)`, stated entrywise.
pub open spec fn no_match(s: Seq<OfferedPost>, chat: i64, mid: i32) -> bool {
    forall|i: int| 0 <= i < s.len() ==> !entry_matches(s[i], chat, mid)
}

proof fn lemma_find_after_push(s: Seq<OfferedPost>, post: OfferedPost, chat: i64, mid: i32)
    requires
        no_match(s, chat, mid),
        entry_matches(post, chat, mid),
    ensures
        find_entry(s.push(post), chat, mid) == Some(post),
    decreases s.len(),
{
    if s.len() == 0 {
        assert(s.push(post)[0] == post);
    } else {
        assert(s.push(post)[0] == s[0]);
        assert(s.push(post).drop_first() =~= s.drop_first().push(post));
        assert(no_match(s.drop_first(), chat, mid)) by {
            assert(forall|i: int|
                0 <= i < s.drop_first().len() ==> s.drop_first()[i] == s[i + 1]);
        }
        lemma_find_after_push(s.drop_first(), post, chat, mid);
    }
}

/// Law: recording a submission and then resolving its review card by the
/// primary review message id returns that very entry, origin fields intact —
/// provided no earlier entry already answers that review key.
pub proof fn lemma_record_then_find(s: Seq<OfferedPost>, post: OfferedPost)
    requires
        no_match(s, post.admin_chat_id, post.admin_chat_message_id),
    ensures
        find_entry(s.push(post), post.admin_chat_id, post.admin_chat_message_id) == Some(post),
{
    lemma_find_after_push(s, post, post.admin_chat_id, post.admin_chat_message_id);
}

/// Law: when the recorded entry carries a secondary review message id, a
/// lookup by that id succeeds as well and returns the same entry — provided
/// no earlier entry already answers that review key.
pub proof fn lemma_record_then_find_secondary(s: Seq<OfferedPost>, post: OfferedPost, sid: i32)
    requires
        post.admin_chat_additional_message_id == Some(sid),
        no_match(s, post.admin_chat_id, sid),
    ensures
        find_entry(s.push(post), post.admin_chat_id, sid) == Some(post),
{
    lemma_find_after_push(s, post, post.admin_chat_id, sid);
}

} // verus!
