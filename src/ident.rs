//! System, neighbor and LSP identifiers: fixed-width byte strings that nest.

use vstd::prelude::*;

verus! {

/// Six bytes that name a node.
#[derive(Debug, Clone, Copy, Default, PartialEq, Eq, PartialOrd, Ord, Hash)]
pub struct IsisSysId {
    pub id: [u8; 6],
}

/// A system ID followed by a pseudonode byte (zero for a real node).
#[derive(Debug, Clone, Copy, Default, PartialEq, Eq, PartialOrd, Ord, Hash)]
pub struct IsisNeighborId {
    pub id: [u8; 7],
}

/// A neighbor ID followed by a fragment number.
#[derive(Debug, Clone, Copy, Default, PartialEq, Eq, PartialOrd, Ord, Hash)]
pub struct IsisLspId {
    pub id: [u8; 8],
}

impl IsisNeighborId {
    pub fn sys_id(&self) -> (r: IsisSysId)
        ensures
            r.id@ == self.id@.subrange(0, 6),
    {
        let r = IsisSysId { id: [self.id[0], self.id[1], self.id[2], self.id[3], self.id[4], self.id[5]] };
        assert(r.id@ =~= self.id@.subrange(0, 6));
        r
    }

    pub fn pseudo_id(&self) -> (r: u8)
        ensures
            r == self.id@[6],
    {
        self.id[6]
    }
}

impl IsisLspId {
    pub fn new(sys_id: IsisSysId, pseudo_id: u8, fragment_id: u8) -> (r: Self)
        ensures
            r.id@ == sys_id.id@ + seq![pseudo_id, fragment_id],
    {
        let r = IsisLspId {
            id: [
                sys_id.id[0],
                sys_id.id[1],
                sys_id.id[2],
                sys_id.id[3],
                sys_id.id[4],
                sys_id.id[5],
                pseudo_id,
                fragment_id,
            ],
        };
        assert(r.id@ =~= sys_id.id@ + seq![pseudo_id, fragment_id]);
        r
    }

    pub fn sys_id(&self) -> (r: IsisSysId)
        ensures
            r.id@ == self.id@.subrange(0, 6),
    {
        let r = IsisSysId { id: [self.id[0], self.id[1], self.id[2], self.id[3], self.id[4], self.id[5]] };
        assert(r.id@ =~= self.id@.subrange(0, 6));
        r
    }

    pub fn neighbor_id(&self) -> (r: IsisNeighborId)
        ensures
            r.id@ == self.id@.subrange(0, 7),
    {
        let r = IsisNeighborId {
            id: [self.id[0], self.id[1], self.id[2], self.id[3], self.id[4], self.id[5], self.id[6]],
        };
        assert(r.id@ =~= self.id@.subrange(0, 7));
        r
    }

    pub fn pseudo_id(&self) -> (r: u8)
        ensures
            r == self.id@[6],
    {
        self.id[6]
    }

    pub fn fragment_id(&self) -> (r: u8)
        ensures
            r == self.id@[7],
    {
        self.id[7]
    }
}

/// Copies six bytes of `s` from `i` into a system ID.
pub fn sys_id_at(s: &[u8], i: usize) -> (r: IsisSysId)
    requires
        i + 6 <= s@.len(),
    ensures
        r.id@ == s@.subrange(i as int, i + 6),
{
    let r = IsisSysId { id: [s[i], s[i + 1], s[i + 2], s[i + 3], s[i + 4], s[i + 5]] };
    assert(r.id@ =~= s@.subrange(i as int, i + 6));
    r
}

/// Copies seven bytes of `s` from `i` into a neighbor ID.
pub fn neighbor_id_at(s: &[u8], i: usize) -> (r: IsisNeighborId)
    requires
        i + 7 <= s@.len(),
    ensures
        r.id@ == s@.subrange(i as int, i + 7),
{
    let r = IsisNeighborId { id: [s[i], s[i + 1], s[i + 2], s[i + 3], s[i + 4], s[i + 5], s[i + 6]] };
    assert(r.id@ =~= s@.subrange(i as int, i + 7));
    r
}

/// Copies eight bytes of `s` from `i` into an LSP ID.
pub fn lsp_id_at(s: &[u8], i: usize) -> (r: IsisLspId)
    requires
        i + 8 <= s@.len(),
    ensures
        r.id@ == s@.subrange(i as int, i + 8),
{
    let r = IsisLspId {
        id: [s[i], s[i + 1], s[i + 2], s[i + 3], s[i + 4], s[i + 5], s[i + 6], s[i + 7]],
    };
    assert(r.id@ =~= s@.subrange(i as int, i + 8));
    r
}

/// Copies four bytes of `s` from `i` into an IPv4 address.
pub fn ipv4_at(s: &[u8], i: usize) -> (r: [u8; 4])
    requires
        i + 4 <= s@.len(),
    ensures
        r@ == s@.subrange(i as int, i + 4),
{
    let r = [s[i], s[i + 1], s[i + 2], s[i + 3]];
    assert(r@ =~= s@.subrange(i as int, i + 4));
    r
}

/// Copies sixteen bytes of `s` from `i` into an IPv6 address.
pub fn ipv6_at(s: &[u8], i: usize) -> (r: [u8; 16])
    requires
        i + 16 <= s@.len(),
    ensures
        r@ == s@.subrange(i as int, i + 16),
{
    let mut r = [0u8; 16];
    let mut k: usize = 0;
    let n = s.len();
    while k < 16
        invariant
            k <= 16,
            n as nat == s@.len(),
            i + 16 <= s@.len(),
            r@.len() == 16,
            forall|j: int| 0 <= j < k ==> r@[j] == s@[i + j],
        decreases 16 - k,
    {
        r[k] = s[i + k];
        k = k + 1;
    }
    assert(r@ =~= s@.subrange(i as int, i + 16));
    r
}

} // verus!
