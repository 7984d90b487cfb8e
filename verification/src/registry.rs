//! A process-wide registry of per-song shared state.
//!
//! Instances share one transpose amount per numeric song id. This module
//! holds the registry's data logic: looking an entry up or adding one, and
//! storing a freshly loaded transpose table. The surrounding runtime - the
//! static cell, the lock around insertion, the atomic the real-time path
//! reads, and the file watcher that triggers a reload - lives outside the
//! library and only calls in with plain values.

use vstd::prelude::*;

verus! {

/// One registry entry: a numeric song id and the transpose amount shared by
/// every instance keyed to it.
#[derive(Debug, Clone, Copy, PartialEq, Eq, Structural)]
pub struct Shared {
    pub id: i32,
    pub transpose: i8,
}

impl Shared {
    pub fn id(&self) -> (r: i32)
        ensures
            r == self.id,
    {
        self.id
    }

    /// The shared transpose amount.
    pub fn amount(&self) -> (r: i8)
        ensures
            r == self.transpose,
    {
        self.transpose
    }
}

/// Return the entry at position `id`, or append a fresh one (amount zero)
/// carrying that id when the registry is still too short.
pub fn find_or_add(vec: &mut Vec<Shared>, id: i32) -> (r: Shared)
    requires
        0 <= id,
    ensures
        if id < old(vec)@.len() {
            final(vec)@ == old(vec)@ && r == old(vec)@[id as int]
        } else {
            final(vec)@ == old(vec)@.push(Shared { id, transpose: 0 }) && r == (Shared {
                id,
                transpose: 0,
            })
        },
{
    if (id as usize) < vec.len() {
        vec[id as usize]
    } else {
        let shared = Shared { id, transpose: 0 };
        vec.push(shared);
        shared
    }
}

/// The number of table entries actually stored: the table is capped at
/// i32::MAX entries so that every position fits an id.
pub open spec fn capped(map: Seq<i8>) -> int {
    if map.len() > 0x7fff_ffff {
        0x7fff_ffff
    } else {
        map.len() as int
    }
}

/// The registry after storing `map`: existing entries keep their id and take
/// the value at their position (zero where the table is shorter), and new
/// entries are appended for the remaining positions, id equal to position.
pub open spec fn updated_registry(pre: Seq<Shared>, map: Seq<i8>, post: Seq<Shared>) -> bool {
    let cap = capped(map);
    &&& post.len() == if pre.len() >= cap {
        pre.len() as int
    } else {
        cap
    }
    &&& (forall|i: int|
        0 <= i < pre.len() ==> (#[trigger] post[i]).id == pre[i].id && post[i].transpose == (
        if i < cap {
            map[i]
        } else {
            0i8
        }))
    &&& (forall|i: int|
        pre.len() <= i < cap ==> #[trigger] post[i] == (Shared {
            id: i as i32,
            transpose: map[i],
        }))
}

/// Store a freshly loaded transpose table in the registry.
#[verifier::loop_isolation(false)]
pub fn update_transpose(vec: &mut Vec<Shared>, map: Vec<i8>)
    ensures
        updated_registry(old(vec)@, map@, final(vec)@),
{
    let cap: usize = if map.len() > 0x7fff_ffff {
        0x7fff_ffff
    } else {
        map.len()
    };
    let mut i: usize = 0;
    while i < vec.len()
        invariant
            i <= vec@.len(),
            vec@.len() == old(vec)@.len(),
            forall|j: int| i as int <= j < vec@.len() ==> vec@[j] == old(vec)@[j],
            forall|j: int|
                0 <= j < i as int ==> (#[trigger] vec@[j]).id == old(vec)@[j].id
                    && vec@[j].transpose == (
                if j < cap as int {
                    map@[j]
                } else {
                    0i8
                }),
        decreases vec@.len() - i,
    {
        vec[i].transpose = if i < cap {
            map[i]
        } else {
            0
        };
        i += 1;
    }
    let mut j: usize = vec.len();
    while j < cap
        invariant
            vec@.len() == j as int,
            old(vec)@.len() <= j as int,
            old(vec)@.len() < capped(map@) ==> j as int <= capped(map@),
            old(vec)@.len() >= capped(map@) ==> j as int == old(vec)@.len(),
            forall|k: int|
                0 <= k < old(vec)@.len() ==> (#[trigger] vec@[k]).id == old(vec)@[k].id
                    && vec@[k].transpose == (
                if k < cap as int {
                    map@[k]
                } else {
                    0i8
                }),
            forall|k: int|
                old(vec)@.len() <= k < j as int ==> #[trigger] vec@[k] == (Shared {
                    id: k as i32,
                    transpose: map@[k],
                }),
        decreases cap - j,
    {
        vec.push(Shared { id: j as i32, transpose: map[j] });
        j += 1;
    }
}

/// What `toml::from_str` yields for a transpose table in a given document
/// text: a function of the text alone.
pub uninterp spec fn toml_transpose_table(text: Seq<char>) -> Option<Seq<i8>>;

/// Relies on toml::from_str: parses the text as a TOML document and
/// deserializes a list of 8-bit transpose amounts; the outcome depends on
/// the text alone.
#[verifier::external_body]
fn parse_transpose_table(text: &str) -> (r: Option<Vec<i8>>)
    ensures
        (r is Some) == (toml_transpose_table(text@) is Some),
        (r matches Some(v) ==> toml_transpose_table(text@) == Some(v@)),
{
    toml::from_str(text).ok()
}

/// Reload the registry from the text of the transpose file: parse it and,
/// when it holds a valid table, store it. Returns whether anything was
/// stored; on a text that does not parse the registry is untouched.
pub fn update_transpose_from_text(vec: &mut Vec<Shared>, text: &str) -> (r: bool)
    ensures
        (toml_transpose_table(text@) matches Some(m) ==> r && updated_registry(
            old(vec)@,
            m,
            final(vec)@,
        )),
        (toml_transpose_table(text@) is None ==> !r && final(vec)@ == old(vec)@),
{
    match parse_transpose_table(text) {
        Some(m) => {
            update_transpose(vec, m);
            true
        },
        None => false,
    }
}

} // verus!
