//! The delivery cache: maps a media name to the remote file handle issued by
//! the gateway the first time the blob was uploaded.

use vstd::prelude::*;

use crate::error::RelayError;
use crate::text::str_eq;

verus! {

/// A cached delivery: the media name and the remote-issued file handle.
#[derive(Debug)]
pub struct CachedPic {
    pub image_name: String,
    pub image_file_id: String,
}

impl CachedPic {
    pub fn new(image_name: String, image_file_id: String) -> (r: Self)
        ensures
            r.image_name@ == image_name@,
            r.image_file_id@ == image_file_id@,
    {
        Self { image_name, image_file_id }
    }
}

/// Whether some entry of `s` caches a handle for `name`.
pub open spec fn has_cached(s: Seq<CachedPic>, name: Seq<char>) -> bool {
    exists|i: int| 0 <= i < s.len() && s[i].image_name@ == name
}

/// The cache store. At most one handle is kept per media name.
pub struct CachedPicRepo {
    entries: Vec<CachedPic>,
}

impl View for CachedPicRepo {
    type V = Seq<CachedPic>;

    closed spec fn view(&self) -> Seq<CachedPic> {
        self.entries@
    }
}

impl CachedPicRepo {
    /// The cache invariant: one entry per media name.
    pub open spec fn wf(&self) -> bool {
        forall|i: int, j: int|
            0 <= i < j < self@.len() ==> self@[i].image_name@ != self@[j].image_name@
    }

    pub fn new() -> (r: Self)
        ensures
            r@ == Seq::<CachedPic>::empty(),
            r.wf(),
    {
        Self { entries: Vec::new() }
    }

    /// Position of the entry cached under `image_name`, if any.
    fn find_index(&self, image_name: &str) -> (r: Option<usize>)
        ensures
            match r {
                Some(i) => i < self@.len() && self@[i as int].image_name@ == image_name@,
                None => !has_cached(self@, image_name@),
            },
    {
        let n = self.entries.len();
        let mut i: usize = 0;
        while i < n
            invariant
                n == self@.len(),
                i <= n,
                forall|j: int| 0 <= j < i ==> self@[j].image_name@ != image_name@,
            decreases n - i,
        {
            if str_eq(self.entries[i].image_name.as_str(), image_name) {
                return Some(i);
            }
            i += 1;
        }
        None
    }

    /// Records the handle issued for a delivered blob. A handle is written
    /// once: if the name is already cached, the write fails and the cache is
    /// unchanged.
    pub fn save_cached_pic(&mut self, cached_pic: CachedPic) -> (r: Result<(), RelayError>)
        requires
            old(self).wf(),
        ensures
            final(self).wf(),
            match r {
                Ok(()) => !has_cached(old(self)@, cached_pic.image_name@) && final(self)@ == old(
                    self,
                )@.push(cached_pic),
                Err(e) => e == RelayError::PersistenceError && has_cached(
                    old(self)@,
                    cached_pic.image_name@,
                ) && final(self)@ == old(self)@,
            },
    {
        match self.find_index(cached_pic.image_name.as_str()) {
            Some(_) => Err(RelayError::PersistenceError),
            None => {
                self.entries.push(cached_pic);
                Ok(())
            },
        }
    }

    /// The entry cached under `image_name`, or `NotFound`.
    pub fn get_cached_pic(&self, image_name: &str) -> (r: Result<&CachedPic, RelayError>)
        ensures
            match r {
                Ok(c) => exists|i: int|
                    0 <= i < self@.len() && self@[i] == *c && self@[i].image_name@ == image_name@,
                Err(e) => e == RelayError::NotFound && !has_cached(self@, image_name@),
            },
    {
        match self.find_index(image_name) {
            Some(i) => Ok(&self.entries[i]),
            None => Err(RelayError::NotFound),
        }
    }
}

} // verus!
