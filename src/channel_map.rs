//! The channel-to-session map, held in fnv's hash map.

use fnv::FnvHashMap;
use vstd::prelude::*;

verus! {

#[verifier::external_type_specification]
#[verifier::external_body]
pub struct ExFnvHasher(fnv::FnvHasher);

#[verifier::external_type_specification]
#[verifier::external_body]
#[verifier::reject_recursive_types(H)]
pub struct ExBuildHasherDefault<H>(std::hash::BuildHasherDefault<H>);

/// The channels a map holds, each with the index of its session.
pub uninterp spec fn channel_map_contents(m: FnvHashMap<String, usize>) -> Map<Seq<char>, usize>;

/// Relies on `Default` for `FnvHashMap`: a new map holds no entry.
#[verifier::external_body]
pub(crate) fn empty_channel_map() -> (r: FnvHashMap<String, usize>)
    ensures
        channel_map_contents(r).dom() == Set::<Seq<char>>::empty(),
{
    FnvHashMap::default()
}

/// Relies on `HashMap::get` over fnv's hasher: the entry stored under an equal string.
#[verifier::external_body]
pub(crate) fn channel_map_get(m: &FnvHashMap<String, usize>, channel: &str) -> (r: Option<usize>)
    ensures
        r == (if channel_map_contents(*m).contains_key(channel@) {
            Some(channel_map_contents(*m)[channel@])
        } else {
            None::<usize>
        }),
{
    m.get(channel).copied()
}

/// Relies on `HashMap::insert` over fnv's hasher: the key now maps to the value,
/// replacing any earlier entry for an equal string, and no other entry changes.
#[verifier::external_body]
pub(crate) fn channel_map_insert(m: &mut FnvHashMap<String, usize>, channel: String, session: usize)
    ensures
        channel_map_contents(*final(m)) == channel_map_contents(*old(m)).insert(channel@, session),
{
    m.insert(channel, session);
}

} // verus!
