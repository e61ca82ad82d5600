//! Picking the device to serve among those that a scan has found.

use vstd::prelude::*;

verus! {

/// A device that advertises `local_name` is the one named `wanted`: it
/// advertises a name, and the name is `wanted`.
pub open spec fn advertises(local_name: Option<String>, wanted: Seq<char>) -> bool {
    local_name matches Some(name) && name@ == wanted
}

/// Whether a device that advertises `local_name` is the one named `wanted`. A
/// device without a name is never the wanted one.
pub fn is_wanted(local_name: &Option<String>, wanted: &String) -> (yes: bool)
    ensures
        yes == advertises(*local_name, wanted@),
{
    match local_name {
        Some(name) => *name == *wanted,
        None => false,
    }
}

/// The index of the first device, among those found in this order, that
/// advertises the name `wanted`, or `None` where no device does.
pub fn find_device(names: &Vec<Option<String>>, wanted: &String) -> (found: Option<usize>)
    ensures
        match found {
            Some(index) => {
                &&& index < names.len()
                &&& advertises(names[index as int], wanted@)
                &&& forall|k: int| 0 <= k < index ==> !advertises(#[trigger] names[k], wanted@)
            },
            None => forall|k: int| 0 <= k < names.len() ==> !advertises(#[trigger] names[k], wanted@),
        },
{
    let n = names.len();
    let mut i: usize = 0;
    while i < n
        invariant
            n == names.len(),
            i <= n,
            forall|k: int| 0 <= k < i ==> !advertises(#[trigger] names[k], wanted@),
        decreases n - i,
    {
        if is_wanted(&names[i], wanted) {
            return Some(i);
        }
        i += 1;
    }
    None
}

} // verus!
