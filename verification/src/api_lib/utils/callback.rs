//! The table of callbacks that wait for the completion of a command.

use std::collections::HashMap;
use std::hash::Hash;
use vstd::prelude::*;
use vstd::std_specs::hash::obeys_key_model;

verus! {

/// Takes the callback that waits for `command_handle` out of `map`: once
/// taken, it is not there any more. `None` where no callback waits for the
/// command; the table is then left as it is.
pub fn get_cb<H: Eq + Hash, T>(command_handle: H, map: &mut HashMap<H, T>) -> (cb: Option<T>)
    ensures
        obeys_key_model::<H>() ==> final(map)@ == old(map)@.remove(command_handle),
        obeys_key_model::<H>() ==> cb == if old(map)@.contains_key(command_handle) {
            Some(old(map)@[command_handle])
        } else {
            None
        },
{
    let cb = map.remove(&command_handle);
    assert(obeys_key_model::<H>() ==> final(map)@ =~= old(map)@.remove(command_handle));
    cb
}

/// Registers `cb` to wait for `command_handle`, in place of any callback that
/// waited for it before.
pub fn set_cb<H: Eq + Hash, T>(command_handle: H, cb: T, map: &mut HashMap<H, T>)
    ensures
        obeys_key_model::<H>() ==> final(map)@ == old(map)@.insert(command_handle, cb),
{
    map.insert(command_handle, cb);
}

} // verus!
