//! Drawing a response clip for a decision: a random blob of the category,
//! delivered by cached handle when one is known, by raw bytes otherwise.

use vstd::prelude::*;

use crate::cached_pic::{has_cached, CachedPic, CachedPicRepo};
use crate::pic::{category, Pic, PicRepo};
use crate::text::{clone_bytes, clone_string};

verus! {

/// How a drawn response clip is to be delivered: by raw bytes under its
/// name, or by the remote file handle cached for it.
#[derive(Debug)]
pub enum GetPicResult {
    Raw(String, Vec<u8>),
    FileId(String),
}

/// The blob the draw selects: the entry of the category sequence picked by
/// `entropy` modulo its size.
pub open spec fn drawn_pic(pics: Seq<Pic>, is_accept: bool, entropy: u64) -> Pic {
    category(pics, is_accept)[entropy as int % category(pics, is_accept).len() as int]
}

/// Draws one response clip for the decision category. Yields nothing exactly
/// when the category is empty; otherwise the drawn blob's cached handle if
/// one is known, else its name and raw bytes.
pub fn get_pic(
    is_accept: bool,
    entropy: u64,
    cached_pic_repo: &CachedPicRepo,
    pic_repo: &PicRepo,
) -> (r: Option<GetPicResult>)
    ensures
        match r {
            None => category(pic_repo@, is_accept).len() == 0,
            Some(GetPicResult::FileId(f)) => category(pic_repo@, is_accept).len() > 0 && exists|
                i: int,
            |
                0 <= i < cached_pic_repo@.len() && cached_pic_repo@[i].image_name@ == drawn_pic(
                    pic_repo@,
                    is_accept,
                    entropy,
                ).file_name@ && f@ == cached_pic_repo@[i].image_file_id@,
            Some(GetPicResult::Raw(name, data)) => category(pic_repo@, is_accept).len() > 0
                && name@ == drawn_pic(pic_repo@, is_accept, entropy).file_name@ && data@
                == drawn_pic(pic_repo@, is_accept, entropy).data@ && !has_cached(
                cached_pic_repo@,
                drawn_pic(pic_repo@, is_accept, entropy).file_name@,
            ),
        },
{
    match pic_repo.get_random_pic(is_accept, entropy) {
        Ok(pic) => {
            match cached_pic_repo.get_cached_pic(pic.file_name.as_str()) {
                Ok(cached) => Some(GetPicResult::FileId(clone_string(&cached.image_file_id))),
                Err(_) => Some(
                    GetPicResult::Raw(clone_string(&pic.file_name), clone_bytes(&pic.data)),
                ),
            }
        },
        Err(_) => None,
    }
}

/// Law: confirming a first delivery writes the issued handle, and from then
/// on the name resolves to that handle alone — every cache entry for the
/// name is the confirmed one.
pub proof fn lemma_second_delivery_uses_cache(cache: Seq<CachedPic>, entry: CachedPic)
    requires
        !has_cached(cache, entry.image_name@),
    ensures
        has_cached(cache.push(entry), entry.image_name@),
        forall|i: int|
            0 <= i < cache.push(entry).len() && cache.push(entry)[i].image_name@
                == entry.image_name@ ==> cache.push(entry)[i] == entry,
{
    assert(cache.push(entry)[cache.len() as int] == entry);
    assert forall|i: int|
        0 <= i < cache.push(entry).len() && cache.push(entry)[i].image_name@
            == entry.image_name@ implies cache.push(entry)[i] == entry by {
        if i < cache.len() {
            assert(cache.push(entry)[i] == cache[i]);
        }
    }
}

} // verus!
