use vstd::prelude::*;

verus! {

/// The header that a SymCache parser reads from bytes: `None` where the bytes hold
/// no readable SymCache header, otherwise whether the header carries the latest
/// format revision, and the numeric code of the architecture it names.
pub uninterp spec fn symcache_header(data: Seq<u8>) -> Option<(bool, u32)>;

/// Relies on symbolic's `SymCache::parse`, read through `is_latest` and `arch`. The
/// header is read from the bytes alone, and bytes too short for it fail to parse.
#[verifier::external_body]
pub(crate) fn read_header(data: &[u8]) -> (r: Option<(bool, u32)>)
    ensures
        r == symcache_header(data@),
        data@.len() == 0 ==> r is None,
{
    symbolic::symcache::SymCache::parse(data).ok().map(|c| (c.is_latest(), c.arch() as u32))
}

} // verus!
