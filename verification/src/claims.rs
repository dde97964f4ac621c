//! The claims map: the plaintext payload of one encrypted key file, a flat
//! association of claim names to claim values.

use vstd::prelude::*;

verus! {

/// One claim value. Envelope decryption yields JSON; the store itself only
/// ever writes string-valued claims, so any other JSON value is kept
/// opaquely as `Other` and rejected when a key is rebuilt.
pub enum ClaimValue {
    Text(String),
    Other,
}

/// The view of a claim value: the text, or nothing for a non-string value.
pub open spec fn claim_view(v: ClaimValue) -> Option<Seq<char>> {
    match v {
        ClaimValue::Text(s) => Some(s@),
        ClaimValue::Other => None,
    }
}

/// A claims map, kept as the list of its entries. A later entry of the same
/// name shadows an earlier one, as it would when the entries are poured
/// into a JSON object.
pub struct Claims {
    pub entries: Vec<(String, ClaimValue)>,
}

/// The value bound to `key`, with the last entry of that name winning.
pub open spec fn lookup(entries: Seq<(String, ClaimValue)>, key: Seq<char>) -> Option<ClaimValue>
    decreases entries.len(),
{
    if entries.len() == 0 {
        None
    } else if entries.last().0@ == key {
        Some(entries.last().1)
    } else {
        lookup(entries.drop_last(), key)
    }
}

/// Whether every entry holds a string value.
pub open spec fn all_text(entries: Seq<(String, ClaimValue)>) -> bool {
    forall|i: int| 0 <= i < entries.len() ==> (#[trigger] entries[i].1) matches ClaimValue::Text(_)
}

impl Claims {
    /// The mathematical content of a claims map: claim names to claim
    /// views, entry order forgotten.
    pub open spec fn as_map(self) -> Map<Seq<char>, Option<Seq<char>>> {
        Map::new(
            |k: Seq<char>| lookup(self.entries@, k) is Some,
            |k: Seq<char>| claim_view(lookup(self.entries@, k).unwrap()),
        )
    }

    /// An empty claims map.
    pub fn new() -> (r: Claims)
        ensures
            r.entries@.len() == 0,
    {
        Claims { entries: Vec::new() }
    }

    /// The value of the claim of the given name, if any.
    pub fn claim(&self, key: &String) -> (r: Option<&ClaimValue>)
        ensures
            match r {
                Some(v) => lookup(self.entries@, key@) == Some(*v),
                None => lookup(self.entries@, key@) is None,
            },
    {
        let n = self.entries.len();
        let mut i: usize = n;
        proof {
            assert(self.entries@.take(n as int) =~= self.entries@);
        }
        while i > 0
            invariant
                i <= self.entries@.len(),
                lookup(self.entries@, key@) == lookup(self.entries@.take(i as int), key@),
            decreases i,
        {
            i = i - 1;
            proof {
                let sub = self.entries@.take(i as int + 1);
                assert(sub.last() == self.entries@[i as int]);
                assert(sub.drop_last() =~= self.entries@.take(i as int));
            }
            if self.entries[i].0.eq(key) {
                return Some(&self.entries[i].1);
            }
        }
        assert(self.entries@.take(0) =~= Seq::<(String, ClaimValue)>::empty());
        None
    }
}

impl View for Claims {
    type V = Map<Seq<char>, Option<Seq<char>>>;

    open spec fn view(&self) -> Self::V {
        self.as_map()
    }
}

} // verus!
