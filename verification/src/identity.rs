//! Actor identities and the registry of actor tags.

use vstd::prelude::*;
use crate::text::{copy_text, same_text};
use vstd::std_specs::cmp::PartialEqSpec;

verus! {

/// An actor's address as plain values.
pub struct ActorIdView {
    pub tag: Seq<char>,
    pub path: Seq<char>,
}

/// The address of an actor within one namespace and database: the tag of
/// its logical type and a path chosen by the application, such as
/// `/workers/3`.
#[derive(Debug)]
pub struct ActorId {
    pub tag: String,
    pub path: String,
}

impl View for ActorId {
    type V = ActorIdView;

    open spec fn view(&self) -> ActorIdView {
        ActorIdView { tag: self.tag@, path: self.path@ }
    }
}

impl ActorId {
    /// The id of the actor of type `tag` at `path`.
    pub fn of(tag: &str, path: &str) -> (id: ActorId)
        ensures
            id@.tag == tag@,
            id@.path == path@,
    {
        ActorId { tag: tag.to_owned(), path: path.to_owned() }
    }

    /// The tag of the actor's type.
    pub fn tag(&self) -> (tag: &String)
        ensures
            tag@ == self@.tag,
    {
        &self.tag
    }

    /// The actor's path.
    pub fn path(&self) -> (path: &String)
        ensures
            path@ == self@.path,
    {
        &self.path
    }
}

impl Clone for ActorId {
    fn clone(&self) -> (id: ActorId)
        ensures
            id@ == self@,
    {
        ActorId { tag: copy_text(&self.tag), path: copy_text(&self.path) }
    }
}

impl PartialEq for ActorId {
    fn eq(&self, other: &ActorId) -> (same: bool) {
        self.tag == other.tag && self.path == other.path
    }
}

impl Eq for ActorId {

}

impl vstd::std_specs::cmp::PartialEqSpecImpl for ActorId {
    open spec fn obeys_eq_spec() -> bool {
        true
    }

    /// Two ids are equal if and only if both the tags and the paths are.
    open spec fn eq_spec(&self, other: &ActorId) -> bool {
        self.tag@ == other.tag@ && self.path@ == other.path@
    }
}

/// Two ids are equal exactly when they address the same actor: `==` on ids
/// is equality of their views.
pub proof fn lemma_equal_ids_have_equal_views(left: ActorId, right: ActorId)
    ensures
        left.eq_spec(&right) <==> left@ == right@,
{
}

/// The tags of the actor types that this process knows, in the order in
/// which they were registered. The position of a tag is its slot: the
/// program keeps what it needs to build an actor of that type under the
/// same number.
pub struct ActorTagRegistry {
    tags: Vec<String>,
}

/// The texts of a list of strings.
pub open spec fn texts_of(tags: Seq<String>) -> Seq<Seq<char>> {
    tags.map_values(|tag: String| tag@)
}

/// Whether no text occurs twice.
pub open spec fn all_distinct(tags: Seq<Seq<char>>) -> bool {
    forall|i: int, j: int| 0 <= i < j < tags.len() ==> tags[i] != tags[j]
}

impl View for ActorTagRegistry {
    type V = Seq<Seq<char>>;

    closed spec fn view(&self) -> Seq<Seq<char>> {
        texts_of(self.tags@)
    }
}

impl ActorTagRegistry {
    /// Whether no tag is registered twice. Every registry made by `new` and
    /// filled by `register` is well formed.
    pub closed spec fn wf(&self) -> bool {
        all_distinct(self@)
    }

    /// In a well-formed registry no tag occurs twice.
    pub proof fn lemma_distinct(&self)
        requires
            self.wf(),
        ensures
            all_distinct(self@),
    {
    }

    /// A registry without tags.
    pub fn new() -> (registry: ActorTagRegistry)
        ensures
            registry.wf(),
            registry@ == Seq::<Seq<char>>::empty(),
    {
        let registry = ActorTagRegistry { tags: Vec::new() };
        assert(registry@ =~= Seq::<Seq<char>>::empty());
        registry
    }

    /// The number of registered tags.
    pub fn len(&self) -> (n: usize)
        ensures
            n == self@.len(),
    {
        self.tags.len()
    }

    /// The slot of `tag`, if it is registered.
    pub fn slot_of(&self, tag: &str) -> (slot: Option<usize>)
        ensures
            match slot {
                Some(at) => at < self@.len() && self@[at as int] == tag@,
                None => !self@.contains(tag@),
            },
    {
        let mut at: usize = 0;
        while at < self.tags.len()
            invariant
                at <= self.tags.len(),
                forall|i: int| 0 <= i < at ==> texts_of(self.tags@)[i] != tag@,
            decreases self.tags.len() - at,
        {
            if same_text(self.tags[at].as_str(), tag) {
                return Some(at);
            }
            at = at + 1;
        }
        None
    }

    /// Whether `tag` is registered.
    pub fn contains(&self, tag: &str) -> (known: bool)
        ensures
            known == self@.contains(tag@),
    {
        self.slot_of(tag).is_some()
    }

    /// Registers `tag` and returns its slot. A tag that is already
    /// registered keeps its slot, and the registry stays as it is.
    pub fn register(&mut self, tag: &str) -> (slot: usize)
        requires
            old(self).wf(),
        ensures
            final(self).wf(),
            old(self)@.contains(tag@) ==> final(self)@ == old(self)@,
            !old(self)@.contains(tag@) ==> final(self)@ == old(self)@.push(tag@),
            slot < final(self)@.len(),
            final(self)@[slot as int] == tag@,
    {
        match self.slot_of(tag) {
            Some(at) => at,
            None => {
                let ghost before = self@;
                let slot = self.tags.len();
                self.tags.push(tag.to_owned());
                assert(self@ =~= before.push(tag@));
                slot
            },
        }
    }
}

} // verus!
