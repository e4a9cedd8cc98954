//! The set of document identifiers that a search leaves out, and its transport
//! as URL-safe text.

use crate::bitmap::{
    bitmap_contains, bitmap_insert, bitmap_members, bitmap_new, bitmap_regular, bitmap_serialize,
    bitmap_stream, bitmap_values, stream_parse, stream_values, strictly_ascending,
};
use crate::urlsafe::{urlsafe_bytes, urlsafe_decode, urlsafe_encode, urlsafe_text};
use roaring::RoaringBitmap;
use vstd::prelude::*;

verus! {

/// Why a text does not stand for an exclusion set.
#[derive(Clone, Copy, Debug, PartialEq, Eq, Structural)]
pub enum DecodeError {
    /// The text is not URL-safe base64.
    InvalidBase64,
    /// The bytes behind the text are not a well-formed bitmap stream.
    InvalidBitmap,
}

/// A finite set of 32-bit document identifiers, held as a compressed bitmap.
#[derive(Debug)]
pub struct ExclusionSet {
    bits: RoaringBitmap,
}

impl View for ExclusionSet {
    type V = Set<u32>;

    closed spec fn view(&self) -> Set<u32> {
        bitmap_members(self.bits)
    }
}

/// The members of a set in ascending order.
pub open spec fn ascending(members: Set<u32>) -> Seq<u32> {
    choose|ids: Seq<u32>| strictly_ascending(ids) && ids.to_set() == members
}

/// The text that carries a set with the given members.
pub open spec fn encoded(members: Set<u32>) -> Seq<char> {
    urlsafe_text(bitmap_stream(members))
}

/// The set that a text carries, or the stage at which reading it fails. A stream
/// whose values do not come in ascending order is not well formed.
pub open spec fn decoded(text: Seq<char>) -> Result<Set<u32>, DecodeError> {
    match urlsafe_bytes(text) {
        None => Err(DecodeError::InvalidBase64),
        Some(bytes) => match stream_values(bytes) {
            None => Err(DecodeError::InvalidBitmap),
            Some(ids) => if strictly_ascending(ids) {
                Ok(ids.to_set())
            } else {
                Err(DecodeError::InvalidBitmap)
            },
        },
    }
}

/// Two ascending sequences with the same elements are the same sequence.
pub proof fn lemma_ascending_unique(a: Seq<u32>, b: Seq<u32>)
    requires
        strictly_ascending(a),
        strictly_ascending(b),
        a.to_set() =~= b.to_set(),
    ensures
        a == b,
    decreases a.len(),
{
    if a.len() == 0 {
        if b.len() > 0 {
            assert(b.to_set().contains(b[0]));
            assert(a.contains(b[0]));
        }
        assert(a =~= b);
    } else {
        let top = a.last();
        assert(a.to_set().contains(top));
        assert(b.contains(top));
        assert(b.len() > 0);
        let other = b.last();
        assert(b.to_set().contains(other));
        assert(a.contains(other));
        // Each last element is the greatest of its sequence and occurs in the other.
        assert(top == other);
        let a0 = a.drop_last();
        let b0 = b.drop_last();
        assert forall|v: u32| a0.to_set().contains(v) <==> b0.to_set().contains(v) by {
            if a0.contains(v) {
                let i = choose|i: int| 0 <= i < a0.len() && a0[i] == v;
                assert(a[i] == v);
                assert(v < top);
                assert(a.to_set().contains(v));
                assert(b.contains(v));
                let j = choose|j: int| 0 <= j < b.len() && b[j] == v;
                assert(j < b.len() - 1);
                assert(b0[j] == v);
            }
            if b0.contains(v) {
                let j = choose|j: int| 0 <= j < b0.len() && b0[j] == v;
                assert(b[j] == v);
                assert(v < other);
                assert(b.to_set().contains(v));
                assert(a.contains(v));
                let i = choose|i: int| 0 <= i < a.len() && a[i] == v;
                assert(i < a.len() - 1);
                assert(a0[i] == v);
            }
        }
        lemma_ascending_unique(a0, b0);
        assert(a =~= a0.push(top));
        assert(b =~= b0.push(other));
    }
}

/// An ascending sequence is the ascending order of its own elements.
pub proof fn lemma_ascending_of(ids: Seq<u32>)
    requires
        strictly_ascending(ids),
    ensures
        ascending(ids.to_set()) == ids,
{
    let chosen = ascending(ids.to_set());
    assert(strictly_ascending(chosen) && chosen.to_set() == ids.to_set());
    lemma_ascending_unique(chosen, ids);
}

impl ExclusionSet {
    #[verifier::type_invariant]
    spec fn regular(&self) -> bool {
        bitmap_regular(self.bits)
    }

    /// The set without members.
    pub fn new() -> (set: ExclusionSet)
        ensures
            set@ == Set::<u32>::empty(),
    {
        ExclusionSet { bits: bitmap_new() }
    }

    /// The set of the given identifiers, in whatever order and however often
    /// they are listed.
    pub fn from_ids(ids: &[u32]) -> (set: ExclusionSet)
        ensures
            set@ == ids@.to_set(),
    {
        let mut bits = bitmap_new();
        let mut i: usize = 0;
        while i < ids.len()
            invariant
                i <= ids.len(),
                bitmap_regular(bits),
                bitmap_members(bits) == ids@.take(i as int).to_set(),
            decreases ids.len() - i,
        {
            bitmap_insert(&mut bits, ids[i]);
            proof {
                ids@.take(i as int).lemma_push_to_set_commute(ids@[i as int]);
                assert(ids@.take(i + 1) =~= ids@.take(i as int).push(ids@[i as int]));
            }
            i += 1;
        }
        proof {
            assert(ids@.take(i as int) =~= ids@);
        }
        ExclusionSet { bits }
    }

    /// The set of the given identifiers where they are listed in ascending order,
    /// each once; `None` where they are not.
    pub fn from_ascending(ids: &[u32]) -> (set: Option<ExclusionSet>)
        ensures
            strictly_ascending(ids@) <==> set is Some,
            set matches Some(s) ==> s@ == ids@.to_set(),
    {
        if ids.len() == 0 {
            return Some(ExclusionSet::from_ids(ids));
        }
        let mut i: usize = 1;
        while i < ids.len()
            invariant
                1 <= i <= ids.len(),
                strictly_ascending(ids@.take(i as int)),
            decreases ids.len() - i,
        {
            if ids[i - 1] >= ids[i] {
                return None;
            }
            proof {
                let seen = ids@.take(i as int);
                let next = ids@.take(i + 1);
                assert forall|a: int, b: int| 0 <= a < b < next.len() implies next[a] < next[b] by {
                    if b < i {
                        assert(seen[a] < seen[b]);
                    } else if a < i - 1 {
                        assert(seen[a] < seen[i - 1]);
                    }
                }
            }
            i += 1;
        }
        proof {
            assert(ids@.take(i as int) =~= ids@);
        }
        Some(ExclusionSet::from_ids(ids))
    }

    /// Adds `id`, and tells whether it was absent before.
    pub fn insert(&mut self, id: u32) -> (fresh: bool)
        ensures
            final(self)@ == old(self)@.insert(id),
            fresh == !old(self)@.contains(id),
    {
        // The bitmap is moved out and back whole: the invariant is that of the
        // struct, which is never seen with a bitmap in the middle of a change.
        let mut taken = ExclusionSet::new();
        std::mem::swap(self, &mut taken);
        proof {
            use_type_invariant(&taken);
        }
        let mut bits = taken.bits;
        let fresh = bitmap_insert(&mut bits, id);
        *self = ExclusionSet { bits };
        fresh
    }

    /// Whether `id` is a member.
    pub fn contains(&self, id: u32) -> (held: bool)
        ensures
            held == self@.contains(id),
    {
        proof {
            use_type_invariant(self);
        }
        bitmap_contains(&self.bits, id)
    }

    /// The members in ascending order, each once.
    pub fn ids(&self) -> (ids: Vec<u32>)
        ensures
            ids@ == ascending(self@),
            strictly_ascending(ids@),
            ids@.to_set() == self@,
    {
        proof {
            use_type_invariant(self);
        }
        let ids = bitmap_values(&self.bits);
        proof {
            lemma_ascending_of(ids@);
        }
        ids
    }

    /// The text that carries this set: its bitmap stream in URL-safe base64.
    /// The text depends on the members alone, and [`ExclusionSet::decode`]
    /// reads the same members back from it.
    pub fn encode(&self) -> (text: String)
        ensures
            text@ == encoded(self@),
            decoded(text@) == Ok::<Set<u32>, DecodeError>(self@),
    {
        proof {
            use_type_invariant(self);
        }
        let bytes = bitmap_serialize(&self.bits);
        urlsafe_encode(bytes.as_slice())
    }

    /// Reads a set from the text that carries it. Padding at the end of the text
    /// may be present or absent.
    pub fn decode(text: &str) -> (set: Result<ExclusionSet, DecodeError>)
        ensures
            match set {
                Ok(s) => decoded(text@) == Ok::<Set<u32>, DecodeError>(s@),
                Err(e) => decoded(text@) == Err::<Set<u32>, DecodeError>(e),
            },
    {
        let bytes = match urlsafe_decode(text) {
            Ok(bytes) => bytes,
            Err(_) => return Err(DecodeError::InvalidBase64),
        };
        let ids = match stream_parse(bytes.as_slice()) {
            Ok(ids) => ids,
            Err(_) => return Err(DecodeError::InvalidBitmap),
        };
        match ExclusionSet::from_ascending(ids.as_slice()) {
            Some(set) => Ok(set),
            None => Err(DecodeError::InvalidBitmap),
        }
    }
}

/// Sets with the same members are carried by the same text, however each was
/// built.
pub proof fn lemma_encoding_by_membership(a: Set<u32>, b: Set<u32>)
    requires
        forall|id: u32| a.contains(id) <==> b.contains(id),
    ensures
        encoded(a) == encoded(b),
{
    assert(a =~= b);
}

} // verus!
