//! The decision rule of the input relay: which keys are forwarded to the
//! engine. The relay itself runs outside the engine, blocking on key reads;
//! it never touches the grid or the body.

use vstd::prelude::*;

use crate::engine::Key;

verus! {

/// Whether the relay recognizes a key at all: the four arrows and escape.
pub open spec fn spec_recognized(k: Key) -> bool {
    k != Key::Other
}

/// The relay's per-key decision: a recognized key that differs from the last
/// forwarded one is forwarded and becomes the new "last forwarded" value;
/// everything else is dropped. The de-duplication keeps a held-down key from
/// flooding the channel.
pub fn relay_decide(last: Key, key: Key) -> (r: Option<Key>)
    ensures
        r == if spec_recognized(key) && key != last {
            Some(key)
        } else {
            None::<Key>
        },
{
    if key != Key::Other && key != last {
        Some(key)
    } else {
        None
    }
}

} // verus!
