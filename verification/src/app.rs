//! The application: which device it watches, and what it does when that
//! device comes or goes.

use vstd::prelude::*;

use crate::configuration::{Configuration, SwitchDirection};
use crate::display_control::Platform;
use crate::pnp_detect::{added_answers, removed_answers, PnPDetectLibusb};
use crate::session::{switch, SessionView, Stage, SwitchSession};
use crate::text::same_text;
use crate::usb::UsbCallback;
use crate::usb_devices::DeviceSet;

verus! {

/// The application: its settings and the platform it runs on.
pub struct App {
    config: Configuration,
    platform: Platform,
}

impl App {
    /// The settings of the application.
    pub closed spec fn settings(&self) -> Configuration {
        self.config
    }

    /// The platform of the application.
    pub closed spec fn system(&self) -> Platform {
        self.platform
    }

    /// The identifier of the watched device.
    pub open spec fn monitored(&self) -> Seq<char> {
        self.settings().usb_device@
    }

    /// The first stage of a switch in the given direction: the displays are
    /// woken before a switch on connect, and listed at once before a switch
    /// on disconnect.
    pub open spec fn first_stage(direction: SwitchDirection) -> Stage {
        match direction {
            SwitchDirection::Connect => Stage::Waking,
            SwitchDirection::Disconnect => Stage::Listing,
        }
    }

    /// The application with the given settings on the given platform.
    pub fn new(config: Configuration, platform: Platform) -> (app: App)
        ensures
            app.settings() == config,
            app.system() == platform,
    {
        App { config, platform }
    }

    /// The settings of the application.
    pub fn config(&self) -> (config: &Configuration)
        ensures
            *config == self.settings(),
    {
        &self.config
    }

    /// The platform of the application.
    pub fn platform(&self) -> (platform: Platform)
        ensures
            platform == self.system(),
    {
        self.platform
    }

    /// Hands the application to a detector of device arrivals and
    /// departures, as the callback that answers them.
    pub fn run(self) -> (detector: Box<PnPDetectLibusb<App>>)
        ensures
            detector.callback() == self,
    {
        PnPDetectLibusb::new(self)
    }

    /// What to do when the devices `changed` moved in the given direction:
    /// nothing unless the watched device is among them; else a switch in
    /// that direction, which on connect begins with waking the displays.
    pub fn on_transition(&self, direction: SwitchDirection, changed: &DeviceSet) -> (session:
        Option<SwitchSession<'_>>)
        ensures
            !changed@.contains(self.monitored()) ==> session is None,
            changed@.contains(self.monitored()) ==> session is Some && session.unwrap()@ == (
            SessionView {
                config: self.settings(),
                direction,
                platform: self.system(),
                stage: Self::first_stage(direction),
                position: 0,
                tasks: Seq::empty(),
            }),
    {
        if !changed.contains(self.config.usb_device.as_str()) {
            return None;
        }
        Some(self.begin(direction))
    }

    /// A switch in the given direction, which on connect begins with waking
    /// the displays.
    pub fn begin(&self, direction: SwitchDirection) -> (session: SwitchSession<'_>)
        ensures
            session@ == (SessionView {
                config: self.settings(),
                direction,
                platform: self.system(),
                stage: Self::first_stage(direction),
                position: 0,
                tasks: Seq::empty(),
            }),
            session@.wf(),
    {
        match direction {
            SwitchDirection::Connect => SwitchSession::waking(
                &self.config,
                direction,
                self.platform,
            ),
            SwitchDirection::Disconnect => switch(&self.config, direction, self.platform),
        }
    }
}

impl UsbCallback for App {
    /// The arrival of the watched device asks for a switch on connect; the
    /// arrival of any other device asks for nothing.
    open spec fn on_added(&self, device_id: Seq<char>) -> Option<SwitchDirection> {
        if device_id == self.monitored() {
            Some(SwitchDirection::Connect)
        } else {
            None
        }
    }

    /// The departure of the watched device asks for a switch on disconnect;
    /// the departure of any other device asks for nothing.
    open spec fn on_removed(&self, device_id: Seq<char>) -> Option<SwitchDirection> {
        if device_id == self.monitored() {
            Some(SwitchDirection::Disconnect)
        } else {
            None
        }
    }

    fn device_added(&self, device_id: &str) -> (answer: Option<SwitchDirection>) {
        if same_text(device_id, self.config.usb_device.as_str()) {
            Some(SwitchDirection::Connect)
        } else {
            None
        }
    }

    fn device_removed(&self, device_id: &str) -> (answer: Option<SwitchDirection>) {
        if same_text(device_id, self.config.usb_device.as_str()) {
            Some(SwitchDirection::Disconnect)
        } else {
            None
        }
    }
}

/// An element stands in a sequence exactly if it stands before the last
/// place or at it, and in a sequence without duplicates not at both.
proof fn lemma_last_or_before(ids: Seq<Seq<char>>, id: Seq<char>)
    requires
        ids.len() > 0,
    ensures
        ids.contains(id) <==> ids.drop_last().contains(id) || ids.last() == id,
        ids.no_duplicates() ==> !(ids.drop_last().contains(id) && ids.last() == id),
{
    let before = ids.drop_last();
    if before.contains(id) {
        let k = choose|k: int| 0 <= k < before.len() && before[k] == id;
        assert(ids[k] == id);
    }
    if ids.contains(id) {
        let k = choose|k: int| 0 <= k < ids.len() && ids[k] == id;
        if k < before.len() {
            assert(before[k] == id);
        }
    }
    assert(ids[ids.len() - 1] == ids.last());
}

/// Among arrivals that name no device twice, the application answers only
/// that of the watched device, once.
pub proof fn lemma_added_answers(app: App, ids: Seq<Seq<char>>)
    requires
        ids.no_duplicates(),
    ensures
        added_answers(app, ids) == if ids.contains(app.monitored()) {
            seq![SwitchDirection::Connect]
        } else {
            Seq::<SwitchDirection>::empty()
        },
    decreases ids.len(),
{
    if ids.len() > 0 {
        lemma_added_answers(app, ids.drop_last());
        lemma_last_or_before(ids, app.monitored());
    }
}

/// Among departures that name no device twice, the application answers
/// only that of the watched device, once.
pub proof fn lemma_removed_answers(app: App, ids: Seq<Seq<char>>)
    requires
        ids.no_duplicates(),
    ensures
        removed_answers(app, ids) == if ids.contains(app.monitored()) {
            seq![SwitchDirection::Disconnect]
        } else {
            Seq::<SwitchDirection>::empty()
        },
    decreases ids.len(),
{
    if ids.len() > 0 {
        lemma_removed_answers(app, ids.drop_last());
        lemma_last_or_before(ids, app.monitored());
    }
}

/// One change of the device list asks for at most one switch. If the
/// watched device arrived, it is a switch on connect; if it left, a switch
/// on disconnect; if it did neither, nothing is asked for. It cannot do
/// both, as no device both arrives and leaves.
pub proof fn lemma_one_transition(app: App, added: Seq<Seq<char>>, removed: Seq<Seq<char>>)
    requires
        added.no_duplicates(),
        removed.no_duplicates(),
        added.to_set().disjoint(removed.to_set()),
    ensures
        added_answers(app, added) + removed_answers(app, removed) == if added.contains(
            app.monitored(),
        ) {
            seq![SwitchDirection::Connect]
        } else if removed.contains(app.monitored()) {
            seq![SwitchDirection::Disconnect]
        } else {
            Seq::<SwitchDirection>::empty()
        },
{
    lemma_added_answers(app, added);
    lemma_removed_answers(app, removed);
    if added.contains(app.monitored()) {
        assert(added.to_set().contains(app.monitored()));
    }
}

} // verus!
