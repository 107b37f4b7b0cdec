//! Discovery of the single mass-storage root device that an allowed vendor
//! presents in the persistent by-identity block-device namespace.
use crate::error::FwUpdateError;
use crate::resolver::extract_one_device;
use vstd::prelude::*;

verus! {

/// The views of a sequence of strings.
pub open spec fn views(v: Seq<String>) -> Seq<Seq<char>> {
    v.map_values(|s: String| s@)
}

/// The views of a sequence of string slices.
pub open spec fn views_str(v: Seq<&str>) -> Seq<Seq<char>> {
    v.map_values(|s: &str| s@)
}

/// Whether `p` is a prefix of `s`.
pub open spec fn has_prefix(s: Seq<char>, p: Seq<char>) -> bool {
    p.len() <= s.len() && s.subrange(0, p.len() as int) == p
}

/// The name prefix of an allowed vendor in the namespace: `usb-<vendor>_`.
pub open spec fn vendor_prefix(vendor: Seq<char>) -> Seq<char> {
    "usb-"@ + vendor + "_"@
}

/// Whether the entry `name` starts with the prefix of one of `vendors`.
pub open spec fn is_vendor_entry(name: Seq<char>, vendors: Seq<Seq<char>>) -> bool {
    exists|k: int| 0 <= k < vendors.len() && has_prefix(name, #[trigger] vendor_prefix(vendors[k]))
}

/// The entries of `names` that belong to one of `vendors`, in listing order.
pub open spec fn vendor_entries(names: Seq<Seq<char>>, vendors: Seq<Seq<char>>) -> Seq<Seq<char>> {
    names.filter(|n: Seq<char>| is_vendor_entry(n, vendors))
}

/// Relies on `str::starts_with`: true exactly when `prefix` is a prefix of `s`.
#[verifier::external_body]
fn starts_with(s: &str, prefix: &str) -> (r: bool)
    ensures
        r == has_prefix(s@, prefix@),
{
    s.starts_with(prefix)
}

/// The name prefix `usb-<vendor>_` of each allowed vendor, in order.
pub fn target_prefixes(allowed_vendors: &[&str]) -> (r: Vec<String>)
    ensures
        r@.len() == allowed_vendors@.len(),
        forall|k: int| 0 <= k < r@.len() ==> #[trigger] r@[k]@ == vendor_prefix(allowed_vendors@[k]@),
{
    let mut out: Vec<String> = Vec::new();
    let mut i: usize = 0;
    while i < allowed_vendors.len()
        invariant
            i <= allowed_vendors@.len(),
            out@.len() == i,
            forall|k: int| 0 <= k < i ==> #[trigger] out@[k]@ == vendor_prefix(allowed_vendors@[k]@),
        decreases allowed_vendors@.len() - i,
    {
        let p = String::from_str("usb-").concat(allowed_vendors[i]).concat("_");
        out.push(p);
        i += 1;
    }
    out
}

/// Whether `name` starts with one of `prefixes`.
fn starts_with_any(name: &str, prefixes: &Vec<String>) -> (r: bool)
    ensures
        r == exists|k: int| 0 <= k < prefixes@.len() && has_prefix(name@, #[trigger] prefixes@[k]@),
{
    let mut j: usize = 0;
    while j < prefixes.len()
        invariant
            j <= prefixes@.len(),
            forall|k: int| 0 <= k < j ==> !has_prefix(name@, #[trigger] prefixes@[k]@),
        decreases prefixes@.len() - j,
    {
        if starts_with(name, prefixes[j].as_str()) {
            return true;
        }
        j += 1;
    }
    false
}

/// The entries of `names` whose name starts with `usb-<vendor>_` for one of
/// `allowed_vendors`, each once, in listing order.
pub fn vendor_matches(names: &Vec<String>, allowed_vendors: &[&str]) -> (r: Vec<String>)
    ensures
        views(r@) == vendor_entries(views(names@), views_str(allowed_vendors@)),
{
    let prefixes = target_prefixes(allowed_vendors);
    let ghost vs = views_str(allowed_vendors@);
    let ghost all = views(names@);
    let mut out: Vec<String> = Vec::new();
    let mut i: usize = 0;
    while i < names.len()
        invariant
            i <= names@.len(),
            all == views(names@),
            prefixes@.len() == vs.len(),
            forall|k: int| 0 <= k < prefixes@.len() ==> #[trigger] prefixes@[k]@ == vendor_prefix(vs[k]),
            views(out@) == vendor_entries(all.subrange(0, i as int), vs),
        decreases names@.len() - i,
    {
        let keep = starts_with_any(names[i].as_str(), &prefixes);
        assert(all.subrange(0, i + 1).drop_last() =~= all.subrange(0, i as int));
        assert(keep == is_vendor_entry(all[i as int], vs)) by {
            if keep {
                let k = choose|k: int| 0 <= k < prefixes@.len() && has_prefix(names@[i as int]@, #[trigger] prefixes@[k]@);
                assert(has_prefix(all[i as int], vendor_prefix(vs[k])));
            }
            if is_vendor_entry(all[i as int], vs) {
                let k = choose|k: int| 0 <= k < vs.len() && has_prefix(all[i as int], #[trigger] vendor_prefix(vs[k]));
                assert(has_prefix(names@[i as int]@, prefixes@[k]@));
            }
        }
        let ghost before = out@;
        proof {
            reveal(Seq::filter);
            let s1 = all.subrange(0, i + 1);
            assert(s1.drop_last() =~= all.subrange(0, i as int));
            assert(s1.last() == all[i as int]);
            assert(vendor_entries(s1, vs) == if keep {
                vendor_entries(all.subrange(0, i as int), vs).push(all[i as int])
            } else {
                vendor_entries(all.subrange(0, i as int), vs)
            });
        }
        if keep {
            out.push(names[i].clone());
            assert(views(out@) =~= views(before).push(all[i as int]));
        }
        i += 1;
        assert(views(out@) == vendor_entries(all.subrange(0, i as int), vs));
    }
    assert(all.subrange(0, i as int) =~= all);
    out
}

/// Whether `name` is a root device among `names`: no other entry of `names`
/// is a prefix of it. A partition entry `X-part1` extends its root `X`.
pub open spec fn is_root(name: Seq<char>, names: Seq<Seq<char>>) -> bool {
    forall|k: int| 0 <= k < names.len() ==> !(has_prefix(name, #[trigger] names[k]) && names[k] != name)
}

/// The root devices of `names`, in listing order.
pub open spec fn root_devices(names: Seq<Seq<char>>) -> Seq<Seq<char>> {
    names.filter(|n: Seq<char>| is_root(n, names))
}

/// What resolving the listing `names` against `vendors` gives: the one root
/// device of an allowed vendor, or why there is not exactly one.
pub open spec fn msd_resolution(
    names: Seq<Seq<char>>,
    vendors: Seq<Seq<char>>,
) -> Result<Seq<char>, FwUpdateError> {
    let roots = root_devices(vendor_entries(names, vendors));
    if roots.len() == 1 {
        Ok(roots[0])
    } else if roots.len() == 0 {
        Err(FwUpdateError::NoMsdDevices)
    } else {
        Err(FwUpdateError::MultipleDevicesFound(roots.len() as usize))
    }
}

/// Whether `name` is a root device among `names`.
fn is_root_entry(name: &String, names: &Vec<String>) -> (r: bool)
    ensures
        r == is_root(name@, views(names@)),
{
    let mut j: usize = 0;
    while j < names.len()
        invariant
            j <= names@.len(),
            forall|k: int|
                0 <= k < j ==> !(has_prefix(name@, #[trigger] names@[k]@) && names@[k]@ != name@),
        decreases names@.len() - j,
    {
        if starts_with(name.as_str(), names[j].as_str()) && !(names[j] == *name) {
            assert(views(names@)[j as int] == names@[j as int]@);
            return false;
        }
        j += 1;
    }
    proof {
        assert forall|k: int| 0 <= k < views(names@).len() implies !(has_prefix(
            name@,
            #[trigger] views(names@)[k],
        ) && views(names@)[k] != name@) by {
            assert(views(names@)[k] == names@[k]@);
        }
    }
    true
}

/// Drops every entry that another entry is a prefix of, which collapses each
/// family `X`, `X-part1`, `X-part2`, ... into `X`. The order of the listing is
/// kept.
pub fn exclude_partitions(names: &Vec<String>) -> (r: Vec<String>)
    ensures
        views(r@) == root_devices(views(names@)),
{
    let ghost all = views(names@);
    let mut out: Vec<String> = Vec::new();
    let mut i: usize = 0;
    while i < names.len()
        invariant
            i <= names@.len(),
            all == views(names@),
            views(out@) == all.subrange(0, i as int).filter(|n: Seq<char>| is_root(n, all)),
        decreases names@.len() - i,
    {
        let keep = is_root_entry(&names[i], names);
        let ghost before = out@;
        proof {
            reveal(Seq::filter);
            let s1 = all.subrange(0, i + 1);
            assert(s1.drop_last() =~= all.subrange(0, i as int));
            assert(s1.last() == all[i as int]);
        }
        if keep {
            out.push(names[i].clone());
            assert(views(out@) =~= views(before).push(all[i as int]));
        }
        i += 1;
    }
    assert(all.subrange(0, i as int) =~= all);
    out
}

/// Resolves the listing `names` of the by-identity namespace to the name of
/// the one root device of an allowed vendor. None is `NoMsdDevices`; several
/// are `MultipleDevicesFound` with their count.
pub fn select_root_device(
    names: &Vec<String>,
    allowed_vendors: &[&str],
) -> (r: Result<String, FwUpdateError>)
    ensures
        match msd_resolution(views(names@), views_str(allowed_vendors@)) {
            Ok(n) => r is Ok && r->Ok_0@ == n,
            Err(e) => r == Err::<String, FwUpdateError>(e),
        },
{
    let matches = vendor_matches(names, allowed_vendors);
    let roots = exclude_partitions(&matches);
    match extract_one_device(roots.as_slice()) {
        Ok(d) => Ok(d.clone()),
        Err(FwUpdateError::NoDevices) => Err(FwUpdateError::NoMsdDevices),
        Err(e) => Err(e),
    }
}

/// The directory of the persistent by-identity block-device namespace.
pub const BY_ID_DIR: &'static str = "/dev/disk/by-id";

/// The path of the entry `name` of the namespace.
pub open spec fn entry_path(name: Seq<char>) -> Seq<char> {
    BY_ID_DIR@ + "/"@ + name
}

/// Resolves a listing of the by-identity namespace to the path of the one root
/// device of an allowed vendor, which the caller then canonicalizes. A listing
/// that could not be read is reported as `IoError`, apart from finding no
/// device.
pub fn locate_root_device(
    listing: Result<Vec<String>, std::io::Error>,
    allowed_vendors: &[&str],
) -> (r: Result<String, FwUpdateError>)
    ensures
        match listing {
            Err(e) => r == Err::<String, FwUpdateError>(FwUpdateError::IoError(e)),
            Ok(names) => match msd_resolution(views(names@), views_str(allowed_vendors@)) {
                Ok(n) => r is Ok && r->Ok_0@ == entry_path(n),
                Err(e) => r == Err::<String, FwUpdateError>(e),
            },
        },
{
    match listing {
        Err(e) => Err(FwUpdateError::IoError(e)),
        Ok(names) => {
            let name = select_root_device(&names, allowed_vendors)?;
            Ok(String::from_str(BY_ID_DIR).concat("/").concat(name.as_str()))
        },
    }
}

/// An entry survives partition exclusion exactly when it is listed and is a
/// root device of the listing.
proof fn lemma_root_devices_contains(names: Seq<Seq<char>>, x: Seq<char>)
    ensures
        root_devices(names).contains(x) <==> names.contains(x) && is_root(x, names),
{
    broadcast use vstd::seq_lib::group_filter_ensures;

    let pred = |n: Seq<char>| is_root(n, names);
    if root_devices(names).contains(x) {
        names.lemma_filter_contains_rev(pred, x);
        let i = choose|i: int| 0 <= i < root_devices(names).len() && root_devices(names)[i] == x;
        names.lemma_filter_pred(pred, i);
    }
    if names.contains(x) && is_root(x, names) {
        let i = choose|i: int| 0 <= i < names.len() && names[i] == x;
        names.lemma_filter_contains(pred, i);
    }
}

/// Partition exclusion depends on the set of listed names alone, not on their
/// order: two listings with the same names keep the same root devices.
pub proof fn lemma_roots_order_independent(a: Seq<Seq<char>>, b: Seq<Seq<char>>)
    requires
        a.to_set() == b.to_set(),
    ensures
        root_devices(a).to_set() == root_devices(b).to_set(),
{
    assert forall|x: Seq<char>| #[trigger] a.contains(x) <==> b.contains(x) by {
        assert(a.to_set().contains(x) == a.contains(x));
        assert(b.to_set().contains(x) == b.contains(x));
    }
    assert forall|x: Seq<char>| is_root(x, a) <==> is_root(x, b) by {
        if is_root(x, a) && !is_root(x, b) {
            let k = choose|k: int| 0 <= k < b.len() && (has_prefix(x, #[trigger] b[k]) && b[k] != x);
            assert(b.contains(b[k]));
            assert(a.contains(b[k]));
            let j = choose|j: int| 0 <= j < a.len() && a[j] == b[k];
            assert(!(has_prefix(x, a[j]) && a[j] != x));
        }
        if is_root(x, b) && !is_root(x, a) {
            let k = choose|k: int| 0 <= k < a.len() && (has_prefix(x, #[trigger] a[k]) && a[k] != x);
            assert(a.contains(a[k]));
            assert(b.contains(a[k]));
            let j = choose|j: int| 0 <= j < b.len() && b[j] == a[k];
            assert(!(has_prefix(x, b[j]) && b[j] != x));
        }
    }
    assert forall|x: Seq<char>| #[trigger] root_devices(a).to_set().contains(x)
        <==> root_devices(b).to_set().contains(x) by {
        lemma_root_devices_contains(a, x);
        lemma_root_devices_contains(b, x);
    }
    assert(root_devices(a).to_set() =~= root_devices(b).to_set());
}

/// A listing with no entry of an allowed vendor, an empty one among them,
/// resolves to `NoMsdDevices`.
pub proof fn lemma_no_vendor_entry(names: Seq<Seq<char>>, vendors: Seq<Seq<char>>)
    requires
        forall|i: int| 0 <= i < names.len() ==> !is_vendor_entry(#[trigger] names[i], vendors),
    ensures
        msd_resolution(names, vendors) == Err::<Seq<char>, FwUpdateError>(FwUpdateError::NoMsdDevices),
{
    broadcast use vstd::seq_lib::group_filter_ensures;

    let pred = |n: Seq<char>| is_vendor_entry(n, vendors);
    let m = vendor_entries(names, vendors);
    if m.len() > 0 {
        names.lemma_filter_pred(pred, 0);
        assert(m.contains(m[0]));
        names.lemma_filter_contains_rev(pred, m[0]);
    }
    assert(m.len() == 0);
    reveal(Seq::filter);
    assert(root_devices(m).len() == 0);
}

/// Resolution depends on the names listed and the vendors allowed alone: two
/// resolutions against an unchanged namespace give the same result.
pub proof fn lemma_resolution_idempotent(
    a: Seq<String>,
    b: Seq<String>,
    va: Seq<&str>,
    vb: Seq<&str>,
)
    requires
        views(a) == views(b),
        views_str(va) == views_str(vb),
    ensures
        msd_resolution(views(a), views_str(va)) == msd_resolution(views(b), views_str(vb)),
{
}

} // verus!
