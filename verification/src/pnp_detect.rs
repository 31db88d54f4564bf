//! Detection of arriving and departing USB devices. One detector is told of
//! each arrival and departure; the other is told only that something
//! changed and compares device lists. Both hand what they find to a
//! callback and collect its answers.

use vstd::prelude::*;

use crate::configuration::SwitchDirection;
use crate::text::texts_of;
use crate::usb::{device_id, device_id_spec, UsbCallback, UsbIds};
use crate::usb_devices::{arrived, departed, listed, DeviceSet, EnumerationError};

verus! {

/// The answers of the callback to the arrival of each of `ids`, in order,
/// those left out that ask for nothing.
pub open spec fn added_answers<C: UsbCallback>(callback: C, ids: Seq<Seq<char>>) -> Seq<
    SwitchDirection,
>
    decreases ids.len(),
{
    if ids.len() == 0 {
        Seq::empty()
    } else {
        let before = added_answers(callback, ids.drop_last());
        match callback.on_added(ids.last()) {
            Some(direction) => before.push(direction),
            None => before,
        }
    }
}

/// The answers of the callback to the departure of each of `ids`, in order,
/// those left out that ask for nothing.
pub open spec fn removed_answers<C: UsbCallback>(callback: C, ids: Seq<Seq<char>>) -> Seq<
    SwitchDirection,
>
    decreases ids.len(),
{
    if ids.len() == 0 {
        Seq::empty()
    } else {
        let before = removed_answers(callback, ids.drop_last());
        match callback.on_removed(ids.last()) {
            Some(direction) => before.push(direction),
            None => before,
        }
    }
}

/// A detector that is told of each device that arrives or leaves.
pub struct PnPDetectLibusb<C: UsbCallback> {
    callback: C,
}

impl<C: UsbCallback> PnPDetectLibusb<C> {
    /// The callback of the detector.
    pub closed spec fn callback(&self) -> C {
        self.callback
    }

    /// A detector that reports to `callback`.
    pub fn new(callback: C) -> (detector: Box<Self>)
        ensures
            detector.callback() == callback,
    {
        Box::new(PnPDetectLibusb { callback })
    }

    /// The callback of the detector.
    pub fn handler(&self) -> (callback: &C)
        ensures
            *callback == self.callback(),
    {
        &self.callback
    }

    /// A device arrived; `device` is its descriptor, `None` if it could not
    /// be read. The arrival is reported under the identifier of the device,
    /// and the answer of the callback is returned. An arrival without
    /// descriptor is dropped.
    pub fn device_arrived(&self, device: &Option<UsbIds>) -> (answer: Option<SwitchDirection>)
        ensures
            answer == match *device {
                Some(ids) => self.callback().on_added(device_id_spec(ids)),
                None => None,
            },
    {
        match device_id(device) {
            Some(id) => self.callback.device_added(id.as_str()),
            None => None,
        }
    }

    /// A device left; `device` is its descriptor, `None` if it could not be
    /// read. The departure is reported under the identifier of the device,
    /// and the answer of the callback is returned. A departure without
    /// descriptor is dropped.
    pub fn device_left(&self, device: &Option<UsbIds>) -> (answer: Option<SwitchDirection>)
        ensures
            answer == match *device {
                Some(ids) => self.callback().on_removed(device_id_spec(ids)),
                None => None,
            },
    {
        match device_id(device) {
            Some(id) => self.callback.device_removed(id.as_str()),
            None => None,
        }
    }
    /// Takes the watching of device events from one state to the next and
    /// says what is to be done then. Watching begins only where the system
    /// gives notice of device changes and registering for it succeeds; a
    /// failure of either is final. Once watching has begun, an error while
    /// events are handled does not end it.
    pub fn detect(&self, state: Watch, event: WatchEvent) -> (r: (Watch, WatchStep))
        ensures
            r.0 == watch_next(state, event),
            r.1 == watch_step(r.0),
    {
        let next = match (state, event) {
            (Watch::Starting, WatchEvent::Support(true)) => Watch::Registering,
            (Watch::Starting, WatchEvent::Support(false)) => Watch::Failed(
                StartupError::HotplugUnsupported,
            ),
            (Watch::Registering, WatchEvent::Registered(true)) => Watch::Watching,
            (Watch::Registering, WatchEvent::Registered(false)) => Watch::Failed(
                StartupError::RegistrationFailed,
            ),
            (state, _) => state,
        };
        let step = match next {
            Watch::Starting => WatchStep::CheckSupport,
            Watch::Registering => WatchStep::Register,
            Watch::Watching => WatchStep::HandleEvents,
            Watch::Failed(error) => WatchStep::Stop(error),
        };
        (next, step)
    }
}

/// Where the watching of device events stands.
#[derive(Clone, Copy, Debug, PartialEq, Eq, Structural)]
pub enum Watch {
    /// Nothing is known yet.
    Starting,
    /// Notifications are supported; registration is under way.
    Registering,
    /// Registered: events are handled as they come.
    Watching,
    /// Watching could not begin.
    Failed(StartupError),
}

/// Why watching could not begin.
#[derive(Clone, Copy, Debug, PartialEq, Eq, Structural)]
pub enum StartupError {
    /// The system gives no notice of arriving and departing devices.
    HotplugUnsupported,
    /// Registering for such notice failed.
    RegistrationFailed,
}

/// What came of a step of watching.
#[derive(Clone, Copy, Debug, PartialEq, Eq, Structural)]
pub enum WatchEvent {
    /// Whether the system gives notice of arriving and departing devices.
    Support(bool),
    /// Whether registering succeeded.
    Registered(bool),
    /// Events were waited for and handled; whether that went well.
    Handled(bool),
}

/// What the watcher is to do next.
#[derive(Clone, Copy, Debug, PartialEq, Eq, Structural)]
pub enum WatchStep {
    /// Ask whether the system gives notice of device changes.
    CheckSupport,
    /// Register for such notice.
    Register,
    /// Wait for events and handle them.
    HandleEvents,
    /// Stop with this error.
    Stop(StartupError),
}

/// What a watcher in the given state is to do.
pub open spec fn watch_step(state: Watch) -> WatchStep {
    match state {
        Watch::Starting => WatchStep::CheckSupport,
        Watch::Registering => WatchStep::Register,
        Watch::Watching => WatchStep::HandleEvents,
        Watch::Failed(error) => WatchStep::Stop(error),
    }
}

/// The state of a watcher after an event. Watching begins only where
/// notifications are supported and registering succeeds; else it fails.
/// Once it has begun, nothing ends it: an error while events are handled
/// is passed over. An event out of turn changes nothing.
pub open spec fn watch_next(state: Watch, event: WatchEvent) -> Watch {
    match (state, event) {
        (Watch::Starting, WatchEvent::Support(true)) => Watch::Registering,
        (Watch::Starting, WatchEvent::Support(false)) => Watch::Failed(
            StartupError::HotplugUnsupported,
        ),
        (Watch::Registering, WatchEvent::Registered(true)) => Watch::Watching,
        (Watch::Registering, WatchEvent::Registered(false)) => Watch::Failed(
            StartupError::RegistrationFailed,
        ),
        _ => state,
    }
}

/// Failures at startup are final, and nothing but a failure at startup
/// stops a watcher: once it watches, it goes on watching whatever happens
/// while events are handled.
pub proof fn lemma_watching_never_ends(state: Watch, event: WatchEvent)
    ensures
        state == Watch::Watching ==> watch_next(state, event) == Watch::Watching && watch_step(
            watch_next(state, event),
        ) == WatchStep::HandleEvents,
        state is Failed ==> watch_next(state, event) == state,
        watch_next(state, event) is Failed ==> state is Failed || event == WatchEvent::Support(
            false,
        ) || event == WatchEvent::Registered(false),
{
}

/// The messages that the window of the polling detector tells apart.
#[derive(Clone, Copy, Debug, PartialEq, Eq, Structural)]
pub enum WindowMessage {
    /// The window was created: keep the state of the detector with it.
    Create,
    /// The window was destroyed: end the message loop.
    Destroy,
    /// The devices of the system changed: compare device lists.
    DeviceChange,
    /// Any other message: leave it to the system.
    Other,
}

/// The number of the message that tells of the creation of a window.
pub const WM_CREATE: u32 = 0x0001;

/// The number of the message that tells of the destruction of a window.
pub const WM_DESTROY: u32 = 0x0002;

/// The number of the message that tells of a change of devices.
pub const WM_DEVICECHANGE: u32 = 0x0219;

/// A detector that is told only that the devices changed, and finds out
/// what changed by comparing the new device list with the last one.
pub struct PnPDetectWindows<C: UsbCallback> {
    callback: C,
    current_devices: DeviceSet,
}

impl<C: UsbCallback> PnPDetectWindows<C> {
    /// The callback of the detector.
    pub closed spec fn callback(&self) -> C {
        self.callback
    }

    /// The identifiers of the last device list.
    pub closed spec fn inventory(&self) -> Set<Seq<char>> {
        self.current_devices@
    }

    /// A detector that reports to `callback` and starts from the given
    /// device list. Without a first device list there is nothing to compare
    /// later lists with: where the list could not be had, no detector is
    /// made and the error of the listing is returned.
    pub fn new(callback: C, listing: Result<Vec<Option<UsbIds>>, EnumerationError>) -> (r: Result<
        Self,
        EnumerationError,
    >)
        ensures
            match listing {
                Ok(devices) => r matches Ok(detector) && detector.callback() == callback
                    && detector.inventory() == listed(devices@),
                Err(error) => r matches Err(e) && e == error,
            },
    {
        match listing {
            Ok(devices) => Ok(
                PnPDetectWindows { callback, current_devices: DeviceSet::from_listing(&devices) },
            ),
            Err(error) => Err(error),
        }
    }

    /// The callback of the detector.
    pub fn handler(&self) -> (callback: &C)
        ensures
            *callback == self.callback(),
    {
        &self.callback
    }

    /// Whether the message loop goes on after a message was fetched with
    /// the given result: it ends when the result is zero, which tells that
    /// the window is gone.
    pub fn detect(&self, fetched: i32) -> (go_on: bool)
        ensures
            go_on == (fetched != 0),
    {
        fetched != 0
    }

    /// Tells the messages apart that the window of the detector gets.
    pub fn window_proc(msg: u32) -> (message: WindowMessage)
        ensures
            msg == WM_CREATE ==> message == WindowMessage::Create,
            msg == WM_DESTROY ==> message == WindowMessage::Destroy,
            msg == WM_DEVICECHANGE ==> message == WindowMessage::DeviceChange,
            msg != WM_CREATE && msg != WM_DESTROY && msg != WM_DEVICECHANGE ==> message
                == WindowMessage::Other,
    {
        if msg == WM_CREATE {
            WindowMessage::Create
        } else if msg == WM_DESTROY {
            WindowMessage::Destroy
        } else if msg == WM_DEVICECHANGE {
            WindowMessage::DeviceChange
        } else {
            WindowMessage::Other
        }
    }

    /// The devices changed; `listing` is the new device list. Every device
    /// that arrived is reported to the callback, then every device that
    /// left, each once, and the answers are returned in that order. In which
    /// order the arrivals are reported among themselves is not fixed, nor
    /// the departures. The new list then takes the place of the last one.
    /// Where the list could not be had, nothing is reported and the last
    /// list stays.
    pub fn handle_hotplug_event(
        &mut self,
        listing: Result<Vec<Option<UsbIds>>, EnumerationError>,
    ) -> (answers: Vec<SwitchDirection>)
        ensures
            final(self).callback() == old(self).callback(),
            match listing {
                Ok(devices) => {
                    &&& final(self).inventory() == listed(devices@)
                    &&& exists|added: Seq<Seq<char>>, removed: Seq<Seq<char>>|
                        {
                            &&& added.no_duplicates()
                            &&& removed.no_duplicates()
                            &&& added.to_set() == arrived(old(self).inventory(), listed(devices@))
                            &&& removed.to_set() == departed(
                                old(self).inventory(),
                                listed(devices@),
                            )
                            &&& answers@ == #[trigger] added_answers(old(self).callback(), added)
                                + #[trigger] removed_answers(old(self).callback(), removed)
                        }
                },
                Err(_) => answers@ == Seq::<SwitchDirection>::empty() && final(self).inventory()
                    == old(self).inventory(),
            },
    {
        let mut answers: Vec<SwitchDirection> = Vec::new();
        let devices = match listing {
            Ok(devices) => devices,
            Err(_) => {
                return answers;
            },
        };
        let new_devices = DeviceSet::from_listing(&devices);
        let added = new_devices.difference(&self.current_devices).ids();
        let removed = self.current_devices.difference(&new_devices).ids();
        let ghost added_ids = texts_of(added@);
        let ghost removed_ids = texts_of(removed@);
        let mut i: usize = 0;
        while i < added.len()
            invariant
                i <= added.len(),
                added_ids == texts_of(added@),
                answers@ == added_answers(self.callback, added_ids.take(i as int)),
            decreases added.len() - i,
        {
            assert(added_ids.take(i + 1).drop_last() =~= added_ids.take(i as int));
            match self.callback.device_added(added[i].as_str()) {
                Some(direction) => {
                    answers.push(direction);
                },
                None => {},
            }
            i += 1;
        }
        assert(added_ids.take(i as int) =~= added_ids);
        let ghost first = answers@;
        let mut j: usize = 0;
        while j < removed.len()
            invariant
                j <= removed.len(),
                removed_ids == texts_of(removed@),
                answers@ == first + removed_answers(self.callback, removed_ids.take(j as int)),
            decreases removed.len() - j,
        {
            assert(removed_ids.take(j + 1).drop_last() =~= removed_ids.take(j as int));
            match self.callback.device_removed(removed[j].as_str()) {
                Some(direction) => {
                    answers.push(direction);
                },
                None => {},
            }
            j += 1;
        }
        assert(removed_ids.take(j as int) =~= removed_ids);
        self.current_devices = new_devices;
        assert(answers@ == added_answers(old(self).callback(), added_ids) + removed_answers(
            old(self).callback(),
            removed_ids,
        ));
        answers
    }
}

} // verus!
