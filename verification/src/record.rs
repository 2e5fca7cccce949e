//! Type tags and the tagged records that the slot array stores.

use vstd::prelude::*;

verus! {

/// The identity of a payload type: one stable value per type, process-wide.
#[derive(Debug, Copy, Clone, PartialEq, Eq, Structural)]
pub struct TypeTag {
    pub raw: u64,
}

/// Hands out type tags, one per payload type registered, so that no two
/// payload types ever share a tag.
pub struct TagRegistry {
    next: u64,
}

impl TagRegistry {
    /// How many tags were handed out.
    pub closed spec fn issued(self) -> nat {
        self.next as nat
    }

    /// Whether `tag` was handed out by this registry.
    pub open spec fn has_issued(self, tag: TypeTag) -> bool {
        tag.raw < self.issued()
    }

    /// A registry that has handed out nothing.
    pub fn new() -> (r: Self)
        ensures
            r.issued() == 0,
    {
        Self { next: 0 }
    }

    /// A tag for one more payload type: one that no earlier registration
    /// got. `None`, with nothing changed, once the tags have run out.
    pub fn register(&mut self) -> (r: Option<TypeTag>)
        ensures
            old(self).issued() < u64::MAX ==> r == Some(TypeTag { raw: old(self).issued() as u64 })
                && final(self).issued() == old(self).issued() + 1,
            old(self).issued() >= u64::MAX ==> r.is_none() && final(self).issued() == old(
                self,
            ).issued(),
    {
        if self.next == u64::MAX {
            return None;
        }
        let tag = TypeTag { raw: self.next };
        self.next = self.next + 1;
        Some(tag)
    }
}

/// A tag just registered was handed out to nobody before, and every tag
/// handed out before stays handed out: tags of different registrations
/// differ.
pub proof fn lemma_registered_tags_differ(before: TagRegistry, after: TagRegistry, tag: TypeTag)
    requires
        before.issued() < u64::MAX,
        tag == (TypeTag { raw: before.issued() as u64 }),
        after.issued() == before.issued() + 1,
    ensures
        !before.has_issued(tag),
        after.has_issued(tag),
        forall|earlier: TypeTag|
            before.has_issued(earlier) ==> earlier != tag && after.has_issued(earlier),
{
}

/// Why an operation on a queue was refused.
#[derive(Debug, Copy, Clone, PartialEq, Eq, Structural)]
pub enum QueueError {
    /// Every slot is taken; the event is dropped.
    QueueFull,
    /// A record carries the tag of another payload type.
    TypeMismatch,
}

/// A tagged address into tick-scoped memory. It owns nothing: the memory
/// behind `elem` belongs to the arena and is gone when the arena resets.
#[derive(Debug, Copy, Clone, PartialEq, Eq, Structural)]
pub struct TypedBumpPtr {
    id: TypeTag,
    elem: usize,
}

impl TypedBumpPtr {
    /// The tag this record was built with.
    pub closed spec fn tag(self) -> TypeTag {
        self.id
    }

    /// The address this record was built with.
    pub closed spec fn address(self) -> usize {
        self.elem
    }

    /// A record is its tag and its address and nothing more.
    pub proof fn lemma_same_tag_and_address(a: Self, b: Self)
        requires
            a.tag() == b.tag(),
            a.address() == b.address(),
        ensures
            a == b,
    {
    }

    /// A record of the payload at address `elem`, of the type that `id`
    /// identifies.
    pub fn new(id: TypeTag, elem: usize) -> (r: Self)
        ensures
            r.tag() == id,
            r.address() == elem,
    {
        Self { id, elem }
    }

    /// The identity of the payload's type.
    pub fn id(&self) -> (r: TypeTag)
        ensures
            r == self.tag(),
    {
        self.id
    }

    /// The payload's address in the arena.
    pub fn elem(&self) -> (r: usize)
        ensures
            r == self.address(),
    {
        self.elem
    }

    /// The checked cast: the address, if the record carries `expected`.
    pub fn resolve(&self, expected: TypeTag) -> (r: Result<usize, QueueError>)
        ensures
            self.tag() == expected ==> r == Ok::<usize, QueueError>(self.address()),
            self.tag() != expected ==> r == Err::<usize, QueueError>(QueueError::TypeMismatch),
    {
        if self.id == expected {
            Ok(self.elem)
        } else {
            Err(QueueError::TypeMismatch)
        }
    }
}

} // verus!
