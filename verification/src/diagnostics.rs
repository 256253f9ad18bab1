use vstd::prelude::*;

use crate::text::same_text;

verus! {

/// Publishes the engine's state through `store` when it differs from the
/// last state published (`previous`), and remembers it when `store` reports
/// that it was written. An unchanged state is not written again: `store` is
/// only owed a call, and may only be called, for a changed state.
pub fn publish<F: FnOnce(&str) -> bool>(state: &str, previous: &mut String, store: F)
    requires
        state@ != old(previous)@ ==> store.requires((state,)),
    ensures
        state@ == old(previous)@ ==> final(previous)@ == old(previous)@,
        state@ != old(previous)@ ==> exists|written: bool|
            {
                &&& #[trigger] store.ensures((state,), written)
                &&& final(previous)@ == if written {
                    state@
                } else {
                    old(previous)@
                }
            },
{
    if same_text(state, previous.as_str()) {
        return;
    }
    let written = store(state);
    if written {
        *previous = state.to_owned();
    }
}

} // verus!
