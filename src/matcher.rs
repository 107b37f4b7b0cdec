//! Selection of USB peripherals by their (vendor-id, product-id) pair.
use vstd::prelude::*;

verus! {

/// A USB peripheral's identity: its (vendor-id, product-id) pair, or `None`
/// where its descriptor could not be read.
pub type UsbIds = Option<(u16, u16)>;

/// A peripheral is allowed when its descriptor was read and its pair is on the
/// allow-list.
pub open spec fn is_allowed(ids: UsbIds, allow: Seq<(u16, u16)>) -> bool {
    match ids {
        Some(p) => allow.contains(p),
        None => false,
    }
}

/// The allowed peripherals of `cands`, in the order of `cands`.
pub open spec fn allowed_devices<D>(cands: Seq<(D, UsbIds)>, allow: Seq<(u16, u16)>) -> Seq<D>
    decreases cands.len(),
{
    if cands.len() == 0 {
        Seq::empty()
    } else {
        let rest = allowed_devices(cands.drop_last(), allow);
        if is_allowed(cands.last().1, allow) {
            rest.push(cands.last().0)
        } else {
            rest
        }
    }
}

/// Whether the pair `(vendor, product)` is on the allow-list.
pub fn is_on_allow_list(ids: (u16, u16), allow: &[(u16, u16)]) -> (r: bool)
    ensures
        r == allow@.contains(ids),
{
    let mut j: usize = 0;
    while j < allow.len()
        invariant
            j <= allow@.len(),
            forall|k: int| 0 <= k < j ==> allow@[k] != ids,
        decreases allow@.len() - j,
    {
        if allow[j].0 == ids.0 && allow[j].1 == ids.1 {
            assert(allow@[j as int] == ids);
            return true;
        }
        j += 1;
    }
    false
}

/// Keeps the peripherals whose (vendor-id, product-id) pair is on the
/// allow-list, in enumeration order. A peripheral whose descriptor could not be
/// read (`None`) is left out.
pub fn filter_by_ids<D>(cands: Vec<(D, UsbIds)>, allow: &[(u16, u16)]) -> (r: Vec<D>)
    ensures
        r@ == allowed_devices(cands@, allow@),
{
    let ghost all = cands@;
    let total = cands.len();
    let mut rest = cands;
    let mut out: Vec<D> = Vec::new();
    let mut i: usize = 0;
    while rest.len() > 0
        invariant
            i <= all.len(),
            all.len() == total,
            rest@ == all.subrange(i as int, all.len() as int),
            out@ == allowed_devices(all.subrange(0, i as int), allow@),
        decreases rest@.len(),
    {
        assert(i < all.len());
        let (d, ids) = rest.remove(0);
        assert(all.subrange(0, i + 1).drop_last() =~= all.subrange(0, i as int));
        let keep = match ids {
            Some(p) => is_on_allow_list(p, allow),
            None => false,
        };
        if keep {
            out.push(d);
        }
        i += 1;
        assert(rest@ =~= all.subrange(i as int, all.len() as int));
    }
    assert(all.subrange(0, i as int) =~= all);
    out
}

} // verus!
