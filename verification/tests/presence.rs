use zenbook_duo::presence::{update_if_not_yet, DeviceState};

#[test]
fn update_sets_from_none() {
    let mut state: Option<DeviceState> = None;
    update_if_not_yet(&mut state, DeviceState::Added);
    assert_eq!(state, Some(DeviceState::Added));
}

#[test]
fn update_ignores_same_state_added() {
    let mut state = Some(DeviceState::Added);
    update_if_not_yet(&mut state, DeviceState::Added);
    assert_eq!(state, Some(DeviceState::Added));
}

#[test]
fn update_ignores_same_state_removed() {
    let mut state = Some(DeviceState::Removed);
    update_if_not_yet(&mut state, DeviceState::Removed);
    assert_eq!(state, Some(DeviceState::Removed));
}

#[test]
fn update_switches_added_to_removed() {
    let mut state = Some(DeviceState::Added);
    update_if_not_yet(&mut state, DeviceState::Removed);
    assert_eq!(state, Some(DeviceState::Removed));
}

#[test]
fn update_switches_removed_to_added() {
    let mut state = Some(DeviceState::Removed);
    update_if_not_yet(&mut state, DeviceState::Added);
    assert_eq!(state, Some(DeviceState::Added));
}

#[test]
fn update_sets_removed_from_none() {
    let mut state: Option<DeviceState> = None;
    update_if_not_yet(&mut state, DeviceState::Removed);
    assert_eq!(state, Some(DeviceState::Removed));
}

#[test]
fn update_twice_is_update_once() {
    for s in [DeviceState::Added, DeviceState::Removed] {
        for start in [None, Some(DeviceState::Added), Some(DeviceState::Removed)] {
            let mut once = start;
            update_if_not_yet(&mut once, s);
            let mut twice = once;
            update_if_not_yet(&mut twice, s);
            assert_eq!(once, Some(s));
            assert_eq!(twice, Some(s));
        }
    }
}
