//! What to do for each monitor when the watched device comes or goes: the
//! inputs and commands set for all monitors, and those set for single ones.

use vstd::prelude::*;

use crate::input_source::InputSource;
use crate::text::{chars_of, contains, found_in, lowercase_of, to_lowercase};

verus! {

/// Which way the watched device moved.
#[derive(Clone, Copy, Debug, PartialEq, Eq, Structural)]
pub enum SwitchDirection {
    Connect,
    Disconnect,
}

/// The input to switch to and the command to run, for each direction.
#[derive(Debug)]
pub struct InputSources {
    pub on_usb_connect: Option<InputSource>,
    pub on_usb_disconnect: Option<InputSource>,
    pub on_usb_connect_execute: Option<String>,
    pub on_usb_disconnect_execute: Option<String>,
}

/// The settings of the monitors whose identity holds `monitor_id`.
#[derive(Debug)]
pub struct PerMonitorConfiguration {
    pub monitor_id: String,
    pub input_sources: InputSources,
}

/// The watched device, the settings for all monitors, and the settings for
/// single monitors, in the order in which they are tried.
#[derive(Debug)]
pub struct Configuration {
    pub usb_device: String,
    pub default_input_sources: InputSources,
    pub monitors: Vec<PerMonitorConfiguration>,
}

/// `InputSources` with its texts as character sequences.
pub struct InputSourcesView {
    pub on_usb_connect: Option<InputSource>,
    pub on_usb_disconnect: Option<InputSource>,
    pub on_usb_connect_execute: Option<Seq<char>>,
    pub on_usb_disconnect_execute: Option<Seq<char>>,
}

/// The text of an optional string.
pub open spec fn text_of(s: Option<String>) -> Option<Seq<char>> {
    match s {
        Some(text) => Some(text@),
        None => None,
    }
}

/// A copy of an optional string.
pub fn copy_of(s: &Option<String>) -> (copy: Option<String>)
    ensures
        text_of(copy) == text_of(*s),
{
    match s {
        Some(text) => Some(text.clone()),
        None => None,
    }
}

impl View for InputSources {
    type V = InputSourcesView;

    open spec fn view(&self) -> InputSourcesView {
        InputSourcesView {
            on_usb_connect: self.on_usb_connect,
            on_usb_disconnect: self.on_usb_disconnect,
            on_usb_connect_execute: text_of(self.on_usb_connect_execute),
            on_usb_disconnect_execute: text_of(self.on_usb_disconnect_execute),
        }
    }
}

impl InputSourcesView {
    /// The input set for the direction.
    pub open spec fn source(self, direction: SwitchDirection) -> Option<InputSource> {
        match direction {
            SwitchDirection::Connect => self.on_usb_connect,
            SwitchDirection::Disconnect => self.on_usb_disconnect,
        }
    }

    /// The command set for the direction.
    pub open spec fn execute_command(self, direction: SwitchDirection) -> Option<Seq<char>> {
        match direction {
            SwitchDirection::Connect => self.on_usb_connect_execute,
            SwitchDirection::Disconnect => self.on_usb_disconnect_execute,
        }
    }

    /// These settings over the settings for all monitors: an input that is
    /// not set here is taken from `default`; a command is not.
    pub open spec fn merge(self, default: InputSourcesView) -> InputSourcesView {
        InputSourcesView {
            on_usb_connect: if self.on_usb_connect is Some {
                self.on_usb_connect
            } else {
                default.on_usb_connect
            },
            on_usb_disconnect: if self.on_usb_disconnect is Some {
                self.on_usb_disconnect
            } else {
                default.on_usb_disconnect
            },
            on_usb_connect_execute: self.on_usb_connect_execute,
            on_usb_disconnect_execute: self.on_usb_disconnect_execute,
        }
    }

    /// The settings of a monitor that has none of its own: the inputs set
    /// for all monitors, and no command.
    pub open spec fn inputs_only(self) -> InputSourcesView {
        InputSourcesView {
            on_usb_connect: self.on_usb_connect,
            on_usb_disconnect: self.on_usb_disconnect,
            on_usb_connect_execute: None,
            on_usb_disconnect_execute: None,
        }
    }
}

impl InputSources {
    /// The input to switch to in the given direction, if one is set.
    pub fn source(&self, direction: SwitchDirection) -> (input: Option<InputSource>)
        ensures
            input == self@.source(direction),
    {
        match direction {
            SwitchDirection::Connect => self.on_usb_connect,
            SwitchDirection::Disconnect => self.on_usb_disconnect,
        }
    }

    /// The command to run in the given direction, if one is set.
    pub fn execute_command(&self, direction: SwitchDirection) -> (command: Option<&str>)
        ensures
            match command {
                Some(text) => self@.execute_command(direction) == Some(text@),
                None => self@.execute_command(direction) is None,
            },
    {
        let configured = match direction {
            SwitchDirection::Connect => &self.on_usb_connect_execute,
            SwitchDirection::Disconnect => &self.on_usb_disconnect_execute,
        };
        match configured {
            Some(text) => Some(text.as_str()),
            None => None,
        }
    }

    /// These settings over the settings for all monitors: an input that is
    /// not set here is taken from `default`. Commands are not taken from
    /// `default`: the command for all monitors runs once, not once for each.
    pub fn merge(&self, default: &InputSources) -> (merged: InputSources)
        ensures
            merged@ == self@.merge(default@),
    {
        InputSources {
            on_usb_connect: if self.on_usb_connect.is_some() {
                self.on_usb_connect
            } else {
                default.on_usb_connect
            },
            on_usb_disconnect: if self.on_usb_disconnect.is_some() {
                self.on_usb_disconnect
            } else {
                default.on_usb_disconnect
            },
            on_usb_connect_execute: copy_of(&self.on_usb_connect_execute),
            on_usb_disconnect_execute: copy_of(&self.on_usb_disconnect_execute),
        }
    }
}

/// Whether settings made for `pattern` apply to the monitor `monitor_id`,
/// both given in lower case: the identity holds the pattern somewhere.
pub open spec fn lowercase_matches(pattern: Seq<char>, monitor_id: Seq<char>) -> bool {
    contains(monitor_id, pattern)
}

/// Whether the settings of `monitor` apply to the monitor `monitor_id`: the
/// identity holds the pattern, the case of letters aside.
pub open spec fn monitor_matches(monitor: PerMonitorConfiguration, monitor_id: Seq<char>) -> bool {
    lowercase_matches(lowercase_of(monitor.monitor_id@), lowercase_of(monitor_id))
}

/// The settings of the first of `monitors` that apply to `monitor_id`.
pub open spec fn first_match(monitors: Seq<PerMonitorConfiguration>, monitor_id: Seq<char>)
    -> Option<InputSourcesView>
    decreases monitors.len(),
{
    if monitors.len() == 0 {
        None
    } else if monitor_matches(monitors[0], monitor_id) {
        Some(monitors[0].input_sources@)
    } else {
        first_match(monitors.drop_first(), monitor_id)
    }
}

/// Whether the lower-case identity `monitor_id` holds the lower-case pattern
/// `pattern`.
pub fn matches_lowercase(pattern: &str, monitor_id: &str) -> (found: bool)
    ensures
        found == lowercase_matches(pattern@, monitor_id@),
{
    found_in(&chars_of(monitor_id), &chars_of(pattern))
}

impl PerMonitorConfiguration {
    /// Whether these settings apply to the monitor `monitor_id`: both texts
    /// are put in lower case, and the identity has to hold the pattern.
    pub fn matches(&self, monitor_id: &str) -> (found: bool)
        ensures
            found == monitor_matches(*self, monitor_id@),
    {
        let pattern = to_lowercase(self.monitor_id.as_str());
        let identity = to_lowercase(monitor_id);
        matches_lowercase(pattern.as_str(), identity.as_str())
    }
}

impl Configuration {
    /// The settings that hold for the monitor `monitor_id`. Where settings
    /// for single monitors apply, the first of them counts, and inputs it
    /// leaves open come from the settings for all monitors. Where none
    /// apply, the inputs are those for all monitors. The command for all
    /// monitors is never part of the result.
    pub open spec fn resolve(self, monitor_id: Seq<char>) -> InputSourcesView {
        match first_match(self.monitors@, monitor_id) {
            Some(own) => own.merge(self.default_input_sources@),
            None => self.default_input_sources@.inputs_only(),
        }
    }

    /// A configuration that watches `usb_device`, whose identifier is put in
    /// lower case, as device identifiers are.
    pub fn new(
        usb_device: &str,
        default_input_sources: InputSources,
        monitors: Vec<PerMonitorConfiguration>,
    ) -> (config: Configuration)
        ensures
            config.usb_device@ == lowercase_of(usb_device@),
            config.default_input_sources == default_input_sources,
            config.monitors == monitors,
    {
        Configuration { usb_device: to_lowercase(usb_device), default_input_sources, monitors }
    }

    /// The settings that hold for the monitor `monitor_id`.
    pub fn configuration_for_monitor(&self, monitor_id: &str) -> (sources: InputSources)
        ensures
            sources@ == self.resolve(monitor_id@),
    {
        let mut i: usize = 0;
        assert(self.monitors@.skip(0) =~= self.monitors@);
        while i < self.monitors.len()
            invariant
                i <= self.monitors.len(),
                first_match(self.monitors@, monitor_id@) == first_match(
                    self.monitors@.skip(i as int),
                    monitor_id@,
                ),
            decreases self.monitors.len() - i,
        {
            assert(self.monitors@.skip(i as int).drop_first() =~= self.monitors@.skip(i + 1));
            if self.monitors[i].matches(monitor_id) {
                return self.monitors[i].input_sources.merge(&self.default_input_sources);
            }
            i += 1;
        }
        InputSources {
            on_usb_connect: self.default_input_sources.on_usb_connect,
            on_usb_disconnect: self.default_input_sources.on_usb_disconnect,
            on_usb_connect_execute: None,
            on_usb_disconnect_execute: None,
        }
    }
}

/// What the settings for one monitor decide, they decide: an input set
/// there wins over the one for all monitors, an input left open there is
/// the one for all monitors, and a monitor to which no settings apply gets
/// the inputs for all monitors.
pub proof fn lemma_precedence(
    config: Configuration,
    monitor_id: Seq<char>,
    direction: SwitchDirection,
)
    ensures
        match first_match(config.monitors@, monitor_id) {
            Some(own) => {
                &&& own.source(direction) is Some ==> config.resolve(monitor_id).source(direction)
                    == own.source(direction)
                &&& own.source(direction) is None ==> config.resolve(monitor_id).source(direction)
                    == config.default_input_sources@.source(direction)
                &&& config.resolve(monitor_id).execute_command(direction) == own.execute_command(
                    direction,
                )
            },
            None => {
                &&& config.resolve(monitor_id).source(direction)
                    == config.default_input_sources@.source(direction)
                &&& config.resolve(monitor_id).execute_command(direction) is None
            },
        },
{
}

} // verus!
