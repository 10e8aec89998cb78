//! Checking a set of host callbacks before a remote backend is built on it.
//!
//! A remote backend reaches its host through thirteen named callbacks. All
//! of them must be there, and must be functions, before the first
//! filesystem call is made.

use vstd::prelude::*;
use vstd::string::*;

verus! {

/// How many callbacks a remote backend needs.
pub const CALLBACK_COUNT: usize = 13;

/// What was found under a callback's name.
#[derive(Debug, Clone, Copy, PartialEq, Eq, Structural)]
pub enum Slot {
    /// The property could not be read at all.
    Missing,
    /// Something is there, but it cannot be called.
    NotFunction,
    /// A function.
    Function,
}

/// The name of the callback at position `index`, in the order in which they
/// are checked.
pub open spec fn name_text(index: int) -> Seq<char> {
    if index == 0 {
        "fs_read_file"@
    } else if index == 1 {
        "fs_write_file"@
    } else if index == 2 {
        "fs_metadata"@
    } else if index == 3 {
        "fs_read_dir"@
    } else if index == 4 {
        "fs_create_dir"@
    } else if index == 5 {
        "fs_remove_dir"@
    } else if index == 6 {
        "fs_remove_file"@
    } else if index == 7 {
        "fs_rename"@
    } else if index == 8 {
        "fs_open"@
    } else if index == 9 {
        "fs_handle_read"@
    } else if index == 10 {
        "fs_handle_write"@
    } else if index == 11 {
        "fs_handle_seek"@
    } else {
        "fs_handle_close"@
    }
}

/// The complaint about the callback `name`, given what was found under it.
pub open spec fn complaint(name: Seq<char>, found: Slot) -> Seq<char> {
    if found == Slot::Missing {
        "missing callback: "@ + name
    } else {
        "callback '"@ + name + "' is not a function"@
    }
}

/// `index` is the first position whose slot does not hold a function.
pub open spec fn first_unusable(slots: Seq<Slot>, index: int) -> bool {
    &&& 0 <= index < slots.len()
    &&& slots[index] != Slot::Function
    &&& forall|earlier: int| 0 <= earlier < index ==> slots[earlier] == Slot::Function
}

/// Every slot holds a function.
pub open spec fn all_usable(slots: Seq<Slot>) -> bool {
    forall|i: int| 0 <= i < slots.len() ==> slots[i] == Slot::Function
}

/// The name of the callback at position `index`, if there is such a position.
pub fn callback_name(index: usize) -> (r: Option<&'static str>)
    ensures
        match r {
            Some(name) => index < CALLBACK_COUNT && name@ == name_text(index as int),
            None => index >= CALLBACK_COUNT,
        },
{
    if index >= CALLBACK_COUNT {
        return None;
    }
    Some(nth_name(index))
}

/// The name of the callback at position `index`; the last name for every
/// position past the end.
fn nth_name(index: usize) -> (r: &'static str)
    ensures
        r@ == name_text(index as int),
{
    if index == 0 {
        "fs_read_file"
    } else if index == 1 {
        "fs_write_file"
    } else if index == 2 {
        "fs_metadata"
    } else if index == 3 {
        "fs_read_dir"
    } else if index == 4 {
        "fs_create_dir"
    } else if index == 5 {
        "fs_remove_dir"
    } else if index == 6 {
        "fs_remove_file"
    } else if index == 7 {
        "fs_rename"
    } else if index == 8 {
        "fs_open"
    } else if index == 9 {
        "fs_handle_read"
    } else if index == 10 {
        "fs_handle_write"
    } else if index == 11 {
        "fs_handle_seek"
    } else {
        "fs_handle_close"
    }
}

/// Accepts a function under `name`, and complains about anything else.
pub fn check_callback(name: &str, found: Slot) -> (r: Result<(), String>)
    ensures
        match r {
            Ok(_) => found == Slot::Function,
            Err(message) => found != Slot::Function && message@ == complaint(name@, found),
        },
{
    match found {
        Slot::Function => Ok(()),
        Slot::Missing => {
            let mut message = String::from_str("missing callback: ");
            message.append(name);
            Err(message)
        },
        Slot::NotFunction => {
            let mut message = String::from_str("callback '");
            message.append(name);
            message.append("' is not a function");
            Err(message)
        },
    }
}

/// Checks all callbacks in order. Succeeds when every one is a function;
/// otherwise fails with the complaint about the first that is not.
pub fn check_callbacks(slots: &[Slot; 13]) -> (r: Result<(), String>)
    ensures
        match r {
            Ok(_) => all_usable(slots@),
            Err(message) => exists|index: int|
                #![trigger first_unusable(slots@, index)]
                first_unusable(slots@, index) && message@ == complaint(
                    name_text(index),
                    slots@[index],
                ),
        },
{
    let mut i: usize = 0;
    while i < 13
        invariant
            0 <= i <= 13,
            slots@.len() == 13,
            forall|k: int| 0 <= k < i ==> slots@[k] == Slot::Function,
        decreases 13 - i,
    {
        match check_callback(nth_name(i), slots[i]) {
            Ok(_) => {},
            Err(message) => {
                assert(first_unusable(slots@, i as int));
                return Err(message);
            },
        }
        i += 1;
    }
    Ok(())
}

} // verus!
