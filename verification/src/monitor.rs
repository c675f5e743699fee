use crate::config::{Config, DeviceConfig};
use crate::devpath::lemma_extension_lies_below;
use crate::layout::{layout_for, Layout};
use crate::matcher::{
    is_device_duo_keyboard, is_it_duo_keyboard, matches_identity, recognized_path, Device, Event,
    EventType,
};
use crate::presence::{merge, update_if_not_yet, DeviceState};
use crate::text::text_of;
use vstd::prelude::*;

verus! {

/// The presence as last observed, and as last handed on for a change of
/// layout.
#[derive(Debug, Clone, Copy, PartialEq, Eq, Structural)]
pub struct PresenceRecord {
    pub current: Option<DeviceState>,
    pub last_dispatched: Option<DeviceState>,
}

/// A change of presence that is due to be handed on.
#[derive(Debug, Clone, Copy, PartialEq, Eq, Structural)]
pub struct Transition {
    pub current: Option<DeviceState>,
    pub before: Option<DeviceState>,
}

/// The state of the event loop: the presence record, and the path of the
/// accessory while it is attached.
#[derive(Debug, Clone)]
pub struct Monitor {
    pub record: PresenceRecord,
    pub keyboard_devpath: Option<String>,
}

/// A monitor's state as plain values.
pub struct MonitorView {
    pub current: Option<DeviceState>,
    pub last_dispatched: Option<DeviceState>,
    pub devpath: Option<Seq<char>>,
}

impl View for Monitor {
    type V = MonitorView;

    open spec fn view(&self) -> MonitorView {
        MonitorView {
            current: self.record.current,
            last_dispatched: self.record.last_dispatched,
            devpath: text_of(self.keyboard_devpath),
        }
    }
}

/// What an enumeration of the bus says of the accessory: attached, at the
/// path of the first device that matches, or else removed.
pub open spec fn initial_state(devices: Seq<Device>, config: DeviceConfig) -> (
    Option<DeviceState>,
    Option<Seq<char>>,
)
    decreases devices.len(),
{
    if devices.len() == 0 {
        (Some(DeviceState::Removed), None)
    } else if matches_identity(devices.first().properties@, config) {
        (Some(DeviceState::Added), Some(devices.first().devpath@))
    } else {
        initial_state(devices.drop_first(), config)
    }
}

/// The state after one event. An event that is not recognized as the
/// accessory's changes nothing. A recognized addition makes its path the
/// one that is followed, a recognized removal ends the following, and each is merged
/// into the current presence. Other events change nothing.
pub open spec fn after_event(s: MonitorView, event: Event, config: DeviceConfig) -> MonitorView {
    match recognized_path(event, s.devpath, config) {
        None => s,
        Some(path) => match event.event_type {
            EventType::Add => MonitorView {
                current: merge(s.current, DeviceState::Added),
                devpath: Some(path),
                ..s
            },
            EventType::Remove => MonitorView {
                current: merge(s.current, DeviceState::Removed),
                devpath: None,
                ..s
            },
            _ => s,
        },
    }
}

/// The state after a batch of events, taken in the order of their delivery.
pub open spec fn after_batch(
    s: MonitorView,
    events: Seq<Event>,
    config: DeviceConfig,
) -> MonitorView
    decreases events.len(),
{
    if events.len() == 0 {
        s
    } else {
        after_event(after_batch(s, events.drop_last(), config), events.last(), config)
    }
}

/// The change that a record holds back: its two states, where they differ.
pub open spec fn pending_transition(record: PresenceRecord) -> Option<Transition> {
    if record.current != record.last_dispatched {
        Some(Transition { current: record.current, before: record.last_dispatched })
    } else {
        None
    }
}

/// Looks for the accessory among the devices that an enumeration gave.
pub fn check_initial_state(devices: &Vec<Device>, config: &Config) -> (found: (
    Option<DeviceState>,
    Option<String>,
))
    ensures
        (found.0, text_of(found.1)) == initial_state(devices@, config.device),
{
    let mut i: usize = 0;
    proof {
        assert(devices@.subrange(0, devices.len() as int) =~= devices@);
    }
    while i < devices.len()
        invariant
            i <= devices.len(),
            initial_state(devices@, config.device) == initial_state(
                devices@.subrange(i as int, devices.len() as int),
                config.device,
            ),
        decreases devices.len() - i,
    {
        if is_device_duo_keyboard(&devices[i], &config.device) {
            return (Some(DeviceState::Added), Some(devices[i].devpath.clone()));
        }
        proof {
            assert(devices@.subrange(i as int, devices.len() as int).drop_first()
                =~= devices@.subrange(i as int + 1, devices.len() as int));
        }
        i += 1;
    }
    (Some(DeviceState::Removed), None)
}

impl Monitor {
    /// The state at startup: the presence that the enumeration shows, with
    /// nothing handed on yet, so that this presence is pending.
    pub fn start(devices: &Vec<Device>, config: &Config) -> (monitor: Monitor)
        ensures
            monitor@.current == initial_state(devices@, config.device).0,
            monitor@.devpath == initial_state(devices@, config.device).1,
            monitor@.last_dispatched is None,
            pending_transition(monitor.record) == Some(
                Transition { current: monitor.record.current, before: None },
            ),
    {
        proof {
            lemma_initial_state_known(devices@, config.device);
        }
        let (current, keyboard_devpath) = check_initial_state(devices, config);
        Monitor { record: PresenceRecord { current, last_dispatched: None }, keyboard_devpath }
    }

    /// Takes one event of the bus into the state.
    pub fn observe(&mut self, event: &Event, config: &DeviceConfig)
        ensures
            final(self)@ == after_event(old(self)@, *event, *config),
    {
        match is_it_duo_keyboard(event, &self.keyboard_devpath, config) {
            Some(devpath) => match event.event_type {
                EventType::Add => {
                    self.keyboard_devpath = Some(devpath);
                    update_if_not_yet(&mut self.record.current, DeviceState::Added);
                },
                EventType::Remove => {
                    self.keyboard_devpath = None;
                    update_if_not_yet(&mut self.record.current, DeviceState::Removed);
                },
                _ => {},
            },
            None => {},
        }
    }

    /// Takes a whole batch of events into the state, in their order.
    pub fn drain(&mut self, events: &Vec<Event>, config: &DeviceConfig)
        ensures
            final(self)@ == after_batch(old(self)@, events@, *config),
    {
        let mut i: usize = 0;
        while i < events.len()
            invariant
                i <= events.len(),
                self@ == after_batch(old(self)@, events@.take(i as int), *config),
            decreases events.len() - i,
        {
            proof {
                assert(events@.take(i as int + 1).drop_last() =~= events@.take(i as int));
            }
            self.observe(&events[i], config);
            i += 1;
        }
        proof {
            assert(events@.take(events.len() as int) =~= events@);
        }
    }

    /// The change of presence that has not been handed on yet, if any.
    pub fn pending(&self) -> (transition: Option<Transition>)
        ensures
            transition == pending_transition(self.record),
    {
        if self.record.current != self.record.last_dispatched {
            Some(Transition { current: self.record.current, before: self.record.last_dispatched })
        } else {
            None
        }
    }

    /// Records that the current presence has been handed on, whether or not
    /// the change of layout succeeded. Nothing is pending afterwards.
    pub fn mark_dispatched(&mut self)
        ensures
            final(self).record.current == old(self).record.current,
            final(self).record.last_dispatched == old(self).record.current,
            final(self).keyboard_devpath == old(self).keyboard_devpath,
            pending_transition(final(self).record) is None,
    {
        self.record.last_dispatched = self.record.current;
    }
}

/// An enumeration always settles the presence, and names a path exactly
/// when the accessory is attached.
pub proof fn lemma_initial_state_known(devices: Seq<Device>, config: DeviceConfig)
    ensures
        initial_state(devices, config).0 is Some,
        initial_state(devices, config).0 == Some(DeviceState::Added) <==> initial_state(
            devices,
            config,
        ).1 is Some,
    decreases devices.len(),
{
    if devices.len() > 0 && !matches_identity(devices.first().properties@, config) {
        lemma_initial_state_known(devices.drop_first(), config);
    }
}

/// A batch never touches what was last handed on: only a dispatch does.
pub proof fn lemma_batch_keeps_last_dispatched(
    s: MonitorView,
    events: Seq<Event>,
    config: DeviceConfig,
)
    ensures
        after_batch(s, events, config).last_dispatched == s.last_dispatched,
    decreases events.len(),
{
    if events.len() > 0 {
        lemma_batch_keeps_last_dispatched(s, events.drop_last(), config);
    }
}

/// Once the presence is known it stays known, whatever the events.
pub proof fn lemma_batch_keeps_presence_known(
    s: MonitorView,
    events: Seq<Event>,
    config: DeviceConfig,
)
    requires
        s.current is Some,
    ensures
        after_batch(s, events, config).current is Some,
    decreases events.len(),
{
    if events.len() > 0 {
        lemma_batch_keeps_presence_known(s, events.drop_last(), config);
    }
}

/// Events taken in two batches leave the state that they leave when taken
/// in one.
pub proof fn lemma_batch_in_two_parts(
    s: MonitorView,
    first: Seq<Event>,
    second: Seq<Event>,
    config: DeviceConfig,
)
    ensures
        after_batch(s, first + second, config) == after_batch(
            after_batch(s, first, config),
            second,
            config,
        ),
    decreases second.len(),
{
    if second.len() == 0 {
        assert(first + second =~= first);
    } else {
        lemma_batch_in_two_parts(s, first, second.drop_last(), config);
        assert((first + second).drop_last() =~= first + second.drop_last());
        assert((first + second).last() == second.last());
    }
}

/// The last recognized addition or removal of a batch decides the presence
/// after it, whatever came before.
pub proof fn lemma_last_event_decides(s: MonitorView, events: Seq<Event>, config: DeviceConfig)
    requires
        events.len() > 0,
        recognized_path(
            events.last(),
            after_batch(s, events.drop_last(), config).devpath,
            config,
        ) is Some,
    ensures
        events.last().event_type == EventType::Add ==> after_batch(s, events, config).current
            == Some(DeviceState::Added),
        events.last().event_type == EventType::Remove ==> after_batch(s, events, config).current
            == Some(DeviceState::Removed),
{
}

/// While a path is followed, the removal of anything below it is taken for
/// the accessory's removal, whatever properties the event carries: the
/// presence becomes removed and no path is followed any more.
pub proof fn lemma_removal_below_is_recognized(
    s: MonitorView,
    event: Event,
    rest: Seq<char>,
    config: DeviceConfig,
)
    requires
        s.devpath is Some,
        event.event_type == EventType::Remove,
        event.device.devpath@ == s.devpath.unwrap() + seq!['/'] + rest,
    ensures
        recognized_path(event, s.devpath, config) == s.devpath,
        after_event(s, event, config).current == Some(DeviceState::Removed),
        after_event(s, event, config).devpath is None,
        after_event(s, event, config).last_dispatched == s.last_dispatched,
{
    lemma_extension_lies_below(s.devpath.unwrap(), rest);
}

/// A pending change to a known presence always has its layout: the single
/// one when the accessory is there, the dual one when it is not. So the
/// presence found at startup, with nothing handed on before, is applied.
pub proof fn lemma_pending_change_has_layout(record: PresenceRecord)
    requires
        record.current is Some,
        pending_transition(record) is Some,
    ensures
        record.current == Some(DeviceState::Added) ==> layout_for(
            pending_transition(record).unwrap().current,
            pending_transition(record).unwrap().before,
        ) == Some(Layout::Single),
        record.current == Some(DeviceState::Removed) ==> layout_for(
            pending_transition(record).unwrap().current,
            pending_transition(record).unwrap().before,
        ) == Some(Layout::Dual),
{
}

} // verus!
