use vstd::prelude::*;

verus! {

/// Whether the tracked accessory is attached.
#[derive(Debug, Clone, Copy, PartialEq, Eq, Structural)]
pub enum DeviceState {
    Added,
    Removed,
}

/// The state that results from folding one observation into the running
/// state: an empty state adopts the observation, an equal one is kept, and a
/// different one is replaced.
pub open spec fn merge(existing: Option<DeviceState>, observed: DeviceState) -> Option<
    DeviceState,
> {
    match existing {
        None => Some(observed),
        Some(held) => if held == observed {
            existing
        } else {
            Some(observed)
        },
    }
}

/// Folds `new_state` into `last_state`.
pub fn update_if_not_yet(last_state: &mut Option<DeviceState>, new_state: DeviceState)
    ensures
        *final(last_state) == merge(*old(last_state), new_state),
{
    match *last_state {
        None => {
            *last_state = Some(new_state);
        },
        Some(DeviceState::Added) => {
            if new_state == DeviceState::Removed {
                *last_state = Some(new_state);
            }
        },
        Some(DeviceState::Removed) => {
            if new_state == DeviceState::Added {
                *last_state = Some(new_state);
            }
        },
    }
}

/// An observation of the state that is held already changes nothing.
pub proof fn lemma_merge_same(s: DeviceState)
    ensures
        merge(Some(s), s) == Some(s),
{
}

/// Whatever was held, the last observation is what is held afterwards.
pub proof fn lemma_merge_last_wins(existing: Option<DeviceState>, observed: DeviceState)
    ensures
        merge(existing, observed) == Some(observed),
{
}

} // verus!
