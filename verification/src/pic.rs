//! The media store: named binary blobs under an accept/decline category,
//! with a uniformly distributed draw per category.

use vstd::prelude::*;

use crate::error::RelayError;
use crate::text::str_eq;

verus! {

/// A stored response clip: a name, the category it answers (`for_accept`
/// marks the accepted-response pool), and the raw bytes.
#[derive(Debug)]
pub struct Pic {
    pub file_name: String,
    pub for_accept: bool,
    pub data: Vec<u8>,
}

impl Pic {
    pub fn new(file_name: String, for_accept: bool, data: Vec<u8>) -> (r: Self)
        ensures
            r.file_name@ == file_name@,
            r.for_accept == for_accept,
            r.data@ == data@,
    {
        Self { file_name, for_accept, data }
    }
}

/// Whether `p` is stored under the given name and category.
pub open spec fn pic_matches(p: Pic, name: Seq<char>, for_accept: bool) -> bool {
    p.file_name@ == name && p.for_accept == for_accept
}

/// Whether some blob in `s` is stored under the given name and category.
pub open spec fn has_pic(s: Seq<Pic>, name: Seq<char>, for_accept: bool) -> bool {
    exists|i: int| 0 <= i < s.len() && pic_matches(s[i], name, for_accept)
}

/// The blobs of `s` that belong to the category `for_accept`, in store order.
pub open spec fn category(s: Seq<Pic>, for_accept: bool) -> Seq<Pic>
    decreases s.len(),
{
    if s.len() == 0 {
        Seq::empty()
    } else {
        let rest = category(s.drop_last(), for_accept);
        if s.last().for_accept == for_accept {
            rest.push(s.last())
        } else {
            rest
        }
    }
}

/// Law: every blob of a category sequence carries that very category, and
/// each is drawn from the store itself.
pub proof fn lemma_category_members(s: Seq<Pic>, for_accept: bool)
    ensures
        forall|i: int|
            0 <= i < category(s, for_accept).len() ==> category(s, for_accept)[i].for_accept
                == for_accept && s.contains(category(s, for_accept)[i]),
    decreases s.len(),
{
    if s.len() > 0 {
        lemma_category_members(s.drop_last(), for_accept);
        let rest = category(s.drop_last(), for_accept);
        assert forall|i: int| 0 <= i < category(s, for_accept).len() implies category(
            s,
            for_accept,
        )[i].for_accept == for_accept && s.contains(category(s, for_accept)[i]) by {
            if i < rest.len() {
                assert(category(s, for_accept)[i] == rest[i]);
                assert(s.drop_last().contains(rest[i]));
                let j = choose|j: int|
                    0 <= j < s.drop_last().len() && s.drop_last()[j] == rest[i];
                assert(s[j] == rest[i]);
            } else {
                assert(category(s, for_accept)[i] == s.last());
                assert(s[s.len() - 1] == s.last());
            }
        }
    }
}

/// The media store. No two stored blobs share a name within one category.
pub struct PicRepo {
    pics: Vec<Pic>,
}

impl View for PicRepo {
    type V = Seq<Pic>;

    closed spec fn view(&self) -> Seq<Pic> {
        self.pics@
    }
}

impl PicRepo {
    /// The store invariant: `(file_name, for_accept)` is unique.
    pub open spec fn wf(&self) -> bool {
        forall|i: int, j: int|
            0 <= i < j < self@.len() ==> !pic_matches(
                self@[j],
                self@[i].file_name@,
                self@[i].for_accept,
            )
    }

    pub fn new() -> (r: Self)
        ensures
            r@ == Seq::<Pic>::empty(),
            r.wf(),
    {
        Self { pics: Vec::new() }
    }

    /// Position of the blob stored under the name and category, if any.
    fn find_index(&self, file_name: &str, for_accept: bool) -> (r: Option<usize>)
        ensures
            match r {
                Some(i) => i < self@.len() && pic_matches(self@[i as int], file_name@, for_accept),
                None => !has_pic(self@, file_name@, for_accept),
            },
    {
        let n = self.pics.len();
        let mut i: usize = 0;
        while i < n
            invariant
                n == self@.len(),
                i <= n,
                forall|j: int| 0 <= j < i ==> !pic_matches(self@[j], file_name@, for_accept),
            decreases n - i,
        {
            if str_eq(self.pics[i].file_name.as_str(), file_name) && self.pics[i].for_accept
                == for_accept {
                return Some(i);
            }
            i += 1;
        }
        None
    }

    /// Stores a new blob. Refuses to overwrite: if the name is already taken
    /// within the category, the store is unchanged and the write fails.
    pub fn save_pic(&mut self, pic: Pic) -> (r: Result<(), RelayError>)
        requires
            old(self).wf(),
        ensures
            final(self).wf(),
            match r {
                Ok(()) => !has_pic(old(self)@, pic.file_name@, pic.for_accept) && final(self)@
                    == old(self)@.push(pic),
                Err(e) => e == RelayError::PersistenceError && has_pic(
                    old(self)@,
                    pic.file_name@,
                    pic.for_accept,
                ) && final(self)@ == old(self)@,
            },
    {
        match self.find_index(pic.file_name.as_str(), pic.for_accept) {
            Some(_) => Err(RelayError::PersistenceError),
            None => {
                self.pics.push(pic);
                Ok(())
            },
        }
    }

    /// Removes the blob stored under the name and category; fails with
    /// `NotFound` and leaves the store unchanged if there is none.
    pub fn delete_pic(&mut self, file_name: &str, for_accept: bool) -> (r: Result<
        (),
        RelayError,
    >)
        requires
            old(self).wf(),
        ensures
            final(self).wf(),
            match r {
                Ok(()) => exists|i: int|
                    0 <= i < old(self)@.len() && pic_matches(old(self)@[i], file_name@, for_accept)
                        && final(self)@ == old(self)@.remove(i),
                Err(e) => e == RelayError::NotFound && !has_pic(old(self)@, file_name@, for_accept)
                    && final(self)@ == old(self)@,
            },
    {
        match self.find_index(file_name, for_accept) {
            Some(i) => {
                self.pics.remove(i);
                Ok(())
            },
            None => Err(RelayError::NotFound),
        }
    }

    /// The blob stored under the name and category, or `NotFound`.
    pub fn get_pic(&self, file_name: &str, for_accept: bool) -> (r: Result<&Pic, RelayError>)
        ensures
            match r {
                Ok(p) => exists|i: int|
                    0 <= i < self@.len() && self@[i] == *p && pic_matches(
                        self@[i],
                        file_name@,
                        for_accept,
                    ),
                Err(e) => e == RelayError::NotFound && !has_pic(self@, file_name@, for_accept),
            },
    {
        match self.find_index(file_name, for_accept) {
            Some(i) => Ok(&self.pics[i]),
            None => Err(RelayError::NotFound),
        }
    }

    /// Every stored blob, in store order.
    pub fn get_all_pics(&self) -> (r: &Vec<Pic>)
        ensures
            r@ == self@,
    {
        &self.pics
    }

    /// Draws one blob from the category: the entry of the category sequence
    /// selected by `entropy` modulo its size. Fails with `EmptyCategory`
    /// if and only if the category holds no blob.
    pub fn get_random_pic(&self, for_accept: bool, entropy: u64) -> (r: Result<&Pic, RelayError>)
        ensures
            match r {
                Ok(p) => category(self@, for_accept).len() > 0 && *p == category(
                    self@,
                    for_accept,
                )[entropy as int % category(self@, for_accept).len() as int] && p.for_accept
                    == for_accept && self@.contains(*p),
                Err(e) => e == RelayError::EmptyCategory && category(self@, for_accept).len() == 0,
            },
    {
        proof {
            lemma_category_members(self@, for_accept);
        }
        let n = self.pics.len();
        let mut idxs: Vec<usize> = Vec::new();
        let mut i: usize = 0;
        while i < n
            invariant
                n == self@.len(),
                i <= n,
                idxs@.len() == category(self@.take(i as int), for_accept).len(),
                forall|m: int|
                    0 <= m < idxs@.len() ==> idxs@[m] < i && self@[idxs@[m] as int] == category(
                        self@.take(i as int),
                        for_accept,
                    )[m],
            decreases n - i,
        {
            proof {
                assert(self@.take(i + 1).drop_last() =~= self@.take(i as int));
                assert(self@.take(i + 1).last() == self@[i as int]);
                if self@[i as int].for_accept == for_accept {
                    assert(category(self@.take(i + 1), for_accept) == category(
                        self@.take(i as int),
                        for_accept,
                    ).push(self@[i as int]));
                } else {
                    assert(category(self@.take(i + 1), for_accept) == category(
                        self@.take(i as int),
                        for_accept,
                    ));
                }
            }
            let ghost prev = idxs@;
            if self.pics[i].for_accept == for_accept {
                idxs.push(i);
            }
            proof {
                assert forall|m: int| 0 <= m < idxs@.len() implies idxs@[m] < i + 1
                    && self@[idxs@[m] as int] == category(self@.take(i + 1), for_accept)[m] by {
                    if m < prev.len() {
                        assert(idxs@[m] == prev[m]);
                        assert(self@[prev[m] as int] == category(self@.take(i as int), for_accept)[m]);
                    } else {
                        assert(idxs@[m] == i);
                    }
                }
            }
            i += 1;
        }
        proof {
            assert(self@.take(n as int) =~= self@);
        }
        if idxs.len() == 0 {
            return Err(RelayError::EmptyCategory);
        }
        let k = (entropy % (idxs.len() as u64)) as usize;
        proof {
            assert(entropy % (idxs@.len() as u64) < idxs@.len() as u64);
            assert(k == entropy as int % category(self@, for_accept).len() as int);
        }
        let pos = idxs[k];
        proof {
            assert(self@[idxs@[k as int] as int] == category(self@.take(n as int), for_accept)[
                k as int
            ]);
        }
        Ok(&self.pics[pos])
    }
}

} // verus!
