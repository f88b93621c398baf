//! Saved hosts and command snippets: collections of items found by their id.

use crate::request::ConnectionDetails;
use crate::session_id::{format_uuid, is_random_id, random_uuid, uuid_text};
use vstd::prelude::*;
use vstd::string::StringExecFns;

verus! {

/// A stored command.
#[derive(Debug, Clone, PartialEq, Eq)]
pub struct Snippet {
    pub id: String,
    pub name: String,
    pub command: String,
}

/// A stored connection profile.
#[derive(Debug, Clone, PartialEq, Eq)]
pub struct SavedHost {
    pub id: String,
    pub name: String,
    pub group: Option<String>,
    pub details: ConnectionDetails,
}

/// Why a change to a stored collection was turned down.
#[derive(Debug, Clone, Copy, PartialEq, Eq, Structural)]
pub enum StoreError {
    /// No host with the id of the updated host is stored.
    HostNotFound,
}

impl StoreError {
    /// The message shown to the caller.
    pub open spec fn message_text(self) -> Seq<char> {
        "Host to update not found"@
    }

    /// The message shown to the caller.
    pub fn message(&self) -> (s: String)
        ensures
            s@ == self.message_text(),
    {
        String::from_str("Host to update not found")
    }
}

/// An item that is found by its id.
pub trait Keyed: Sized {
    /// The id of the item.
    spec fn key(&self) -> Seq<char>;

    /// Whether the item has the given id.
    fn has_key(&self, id: &String) -> (b: bool)
        ensures
            b == (self.key() == id@),
    ;
}

impl Keyed for Snippet {
    open spec fn key(&self) -> Seq<char> {
        self.id@
    }

    fn has_key(&self, id: &String) -> (b: bool) {
        self.id == *id
    }
}

impl Keyed for SavedHost {
    open spec fn key(&self) -> Seq<char> {
        self.id@
    }

    fn has_key(&self, id: &String) -> (b: bool) {
        self.id == *id
    }
}

/// The position of the first item with the given id, or the length of the
/// sequence where it holds none.
pub open spec fn first_index<T: Keyed>(items: Seq<T>, id: Seq<char>) -> int
    decreases items.len(),
{
    if items.len() == 0 {
        0
    } else if items[0].key() == id {
        0
    } else {
        1 + first_index(items.drop_first(), id)
    }
}

/// The sequence after saving an item: it replaces the first item with its id,
/// or is added at the end where there is none.
pub open spec fn saved<T: Keyed>(items: Seq<T>, item: T) -> Seq<T> {
    let p = first_index(items, item.key());
    if p < items.len() {
        items.update(p, item)
    } else {
        items.push(item)
    }
}

/// The sequence without the items of the given id.
pub open spec fn without<T: Keyed>(items: Seq<T>, id: Seq<char>) -> Seq<T> {
    items.filter(|x: T| x.key() != id)
}

/// A position before which no item has the id, and which holds one that has
/// it or is the end, is the first index of the id.
proof fn lemma_first_index<T: Keyed>(items: Seq<T>, id: Seq<char>, p: int)
    requires
        0 <= p <= items.len(),
        forall|k: int| 0 <= k < p ==> (#[trigger] items[k]).key() != id,
        p < items.len() ==> items[p].key() == id,
    ensures
        first_index(items, id) == p,
    decreases p,
{
    if p > 0 {
        let rest = items.drop_first();
        assert forall|k: int| 0 <= k < p - 1 implies (#[trigger] rest[k]).key() != id by {
            assert(rest[k] == items[k + 1]);
        }
        lemma_first_index(rest, id, p - 1);
    }
}

/// Finds the first item with the given id.
fn find<T: Keyed>(items: &Vec<T>, id: &String) -> (p: usize)
    ensures
        p == first_index(items@, id@),
        p <= items@.len(),
{
    let mut p: usize = 0;
    while p < items.len() && !items[p].has_key(id)
        invariant
            p <= items@.len(),
            forall|k: int| 0 <= k < p ==> (#[trigger] items@[k]).key() != id@,
        decreases items@.len() - p,
    {
        p = p + 1;
    }
    proof {
        lemma_first_index(items@, id@, p as int);
    }
    p
}

/// Puts an item in the place of the first one with its id, or at the end.
fn save<T: Keyed>(items: &mut Vec<T>, item: T, id: &String)
    requires
        id@ == item.key(),
    ensures
        final(items)@ == saved(old(items)@, item),
{
    let p: usize = find(items, id);
    if p < items.len() {
        items[p] = item;
    } else {
        items.push(item);
    }
}

/// Removes every item with the given id, keeping the order of the others.
fn delete<T: Keyed>(items: &mut Vec<T>, id: &String)
    ensures
        final(items)@ == without(old(items)@, id@),
{
    let ghost all = items@;
    let ghost keep = |x: T| x.key() != id@;
    let mut i: usize = 0;
    assert(Seq::<T>::empty().filter(keep) =~= Seq::<T>::empty()) by {
        reveal(Seq::filter);
    }
    while i < items.len()
        invariant
            i <= items@.len() <= all.len(),
            keep == |x: T| x.key() != id@,
            items@.take(i as int) == all.take(all.len() - items@.len() + i).filter(keep),
            items@.skip(i as int) == all.skip(all.len() - items@.len() + i),
        decreases items@.len() - i,
    {
        let ghost at = all.len() - items@.len() + i;
        proof {
            assert(items@[i as int] == all[at]) by {
                assert(items@.skip(i as int)[0] == all.skip(at)[0]);
            }
            assert(all.take(at + 1) =~= all.take(at).push(all[at]));
            all.take(at).lemma_filter_push(all[at], keep);
            assert(all.skip(at).drop_first() =~= all.skip(at + 1));
        }
        if items[i].has_key(id) {
            let _ = items.remove(i);
        } else {
            i = i + 1;
        }
    }
    assert(all.take(all.len() as int) =~= all);
}

/// Saves a snippet: it replaces the stored snippet with the same id, or is
/// added at the end where none has that id.
pub fn save_snippet(snippets: &mut Vec<Snippet>, snippet: Snippet)
    ensures
        final(snippets)@ == saved(old(snippets)@, snippet),
{
    let id = snippet.id.clone();
    save(snippets, snippet, &id);
}

/// Removes every snippet with the given id.
pub fn delete_snippet(snippets: &mut Vec<Snippet>, snippet_id: &String)
    ensures
        final(snippets)@ == without(old(snippets)@, snippet_id@),
{
    delete(snippets, snippet_id);
}

/// Stores a new host under a new random id, at the end, and returns the id.
pub fn save_new_host(
    hosts: &mut Vec<SavedHost>,
    name: String,
    group: Option<String>,
    details: ConnectionDetails,
) -> (id: String)
    ensures
        exists|n: u128| is_random_id(n) && id@ == uuid_text(n),
        final(hosts)@.len() == old(hosts)@.len() + 1,
        final(hosts)@.drop_last() == old(hosts)@,
        final(hosts)@.last().id@ == id@,
        final(hosts)@.last().name == name,
        final(hosts)@.last().group == group,
        final(hosts)@.last().details == details,
{
    let n: u128 = random_uuid();
    let id = format_uuid(n);
    let host = SavedHost { id: id.clone(), name, group, details };
    hosts.push(host);
    id
}

/// Replaces the stored host that has the id of `updated`.
///
/// Fails, and changes nothing, exactly when no stored host has that id.
pub fn update_host(hosts: &mut Vec<SavedHost>, updated: SavedHost) -> (r: Result<(), StoreError>)
    ensures
        r is Ok <==> first_index(old(hosts)@, updated.key()) < old(hosts)@.len(),
        r is Ok ==> final(hosts)@ == old(hosts)@.update(
            first_index(old(hosts)@, updated.key()),
            updated,
        ),
        r is Err ==> final(hosts)@ == old(hosts)@,
{
    let id = updated.id.clone();
    let p: usize = find(hosts, &id);
    if p < hosts.len() {
        hosts[p] = updated;
        Ok(())
    } else {
        Err(StoreError::HostNotFound)
    }
}

/// Removes every host with the given id.
pub fn delete_host(hosts: &mut Vec<SavedHost>, host_id: &String)
    ensures
        final(hosts)@ == without(old(hosts)@, host_id@),
{
    delete(hosts, host_id);
}

} // verus!
