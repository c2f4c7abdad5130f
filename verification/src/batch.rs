use vstd::prelude::*;
use crate::addr::Addr;

verus! {

/// A batch of freshly fetched account snapshots keyed by address: the input
/// of an update cycle. An address absent from the batch is "not fetched",
/// which is different from an account fetched with empty data.
pub struct AccountBatch {
    pub entries: Vec<(Addr, Vec<u8>)>,
}

/// First-match lookup among (address, data) snapshots.
pub open spec fn lookup(s: Seq<(Addr, Vec<u8>)>, key: Seq<u8>) -> Option<Seq<u8>>
    decreases s.len(),
{
    if s.len() == 0 {
        None
    } else if s[0].0@ == key {
        Some(s[0].1@)
    } else {
        lookup(s.subrange(1, s.len() as int), key)
    }
}

impl AccountBatch {
    /// The batch holds a snapshot under this address.
    pub open spec fn contains_addr(&self, key: Seq<u8>) -> bool {
        lookup(self.entries@, key) is Some
    }

    /// The snapshot bytes the batch holds under this address.
    pub open spec fn data_at(&self, key: Seq<u8>) -> Seq<u8> {
        lookup(self.entries@, key)->Some_0
    }

    pub fn new() -> (b: AccountBatch)
        ensures
            b.entries@.len() == 0,
    {
        AccountBatch { entries: Vec::new() }
    }

    pub fn insert(&mut self, key: Addr, data: Vec<u8>)
        ensures
            final(self).entries@ == old(self).entries@.push((key, data)),
    {
        self.entries.push((key, data));
    }

    pub fn get(&self, key: &Addr) -> (r: Option<&Vec<u8>>)
        ensures
            (match r {
                Some(d) => lookup(self.entries@, key@) == Some(d@),
                None => lookup(self.entries@, key@) is None,
            }),
    {
        let n = self.entries.len();
        proof {
            assert(self.entries@.subrange(0, n as int) =~= self.entries@);
        }
        let mut i: usize = 0;
        while i < n
            invariant
                0 <= i <= n,
                n == self.entries@.len(),
                lookup(self.entries@, key@) == lookup(
                    self.entries@.subrange(i as int, n as int),
                    key@,
                ),
            decreases n - i,
        {
            let hit = self.entries[i].0 == *key;
            proof {
                assert(self.entries@.subrange(i as int, n as int)[0] == self.entries@[i as int]);
            }
            if hit {
                return Some(&self.entries[i].1);
            }
            proof {
                assert(self.entries@.subrange(i as int, n as int).subrange(
                    1,
                    (n - i) as int,
                ) =~= self.entries@.subrange(i as int + 1, n as int));
            }
            i += 1;
        }
        proof {
            assert(self.entries@.subrange(n as int, n as int).len() == 0);
        }
        None
    }
}

} // verus!
