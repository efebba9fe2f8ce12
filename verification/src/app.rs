//! Application view state and the control decisions the user can trigger.
//!
//! The sampling core never sees user input: these types only decide what the
//! renderer shows and when the process should stop. The terminal event loop
//! translates raw key events into [`KeyCommand`] values and hands them to
//! [`handle_key_event`].

use crate::data::PortInfo;
use vstd::prelude::*;

verus! {

/// What the main area of the display shows.
#[derive(PartialEq, Eq, Clone, Copy, Structural)]
pub enum ViewMode {
    /// Latest instantaneous speeds as numbers.
    Table,
    /// Oscilloscope-style history charts.
    Chart,
}

/// A user control signal, already decoded from the terminal's raw key event.
#[derive(Debug, PartialEq, Eq, Clone, Copy, Structural)]
pub enum KeyCommand {
    Quit,
    ToggleView,
    ScrollUp,
    ScrollDown,
    /// Any key that is not bound to anything.
    Ignore,
}

/// Why no engine could be started for the operator's request.
#[derive(Debug, PartialEq, Eq, Clone, Copy, Structural)]
pub enum SelectError {
    /// Discovery found no physical RDMA or Ethernet interface at all.
    NoPortsFound,
    /// Interfaces were named explicitly, but none of them exists.
    NoneSelected,
}

/// The view state: quit flag, display mode, version string for the footer,
/// and the scroll offset of the port list.
pub struct App {
    pub should_quit: bool,
    pub view_mode: ViewMode,
    pub version: String,
    pub scroll_offset: usize,
}

impl App {
    /// A fresh application: running, in chart mode, scrolled to the top.
    pub fn new(version: String) -> (app: Self)
        ensures
            !app.should_quit,
            app.view_mode == ViewMode::Chart,
            app.version == version,
            app.scroll_offset == 0,
    {
        Self { should_quit: false, view_mode: ViewMode::Chart, version, scroll_offset: 0 }
    }

    /// Switch between the table and the chart view.
    pub fn toggle_view_mode(&mut self)
        ensures
            old(self).view_mode == ViewMode::Table ==> final(self).view_mode == ViewMode::Chart,
            old(self).view_mode == ViewMode::Chart ==> final(self).view_mode == ViewMode::Table,
            final(self).should_quit == old(self).should_quit,
            final(self).version == old(self).version,
            final(self).scroll_offset == old(self).scroll_offset,
    {
        self.view_mode = match self.view_mode {
            ViewMode::Table => ViewMode::Chart,
            ViewMode::Chart => ViewMode::Table,
        };
    }

    /// Ask the event loop to stop.
    pub fn quit(&mut self)
        ensures
            *final(self) == (Self { should_quit: true, ..*old(self) }),
    {
        self.should_quit = true;
    }

    /// Scroll one step up, stopping at the top.
    pub fn on_up(&mut self)
        ensures
            old(self).scroll_offset > 0 ==> *final(self) == (Self {
                scroll_offset: (old(self).scroll_offset - 1) as usize,
                ..*old(self)
            }),
            old(self).scroll_offset == 0 ==> *final(self) == *old(self),
    {
        if self.scroll_offset > 0 {
            self.scroll_offset = self.scroll_offset - 1;
        }
    }

    /// Scroll one step down, saturating at the largest offset.
    pub fn on_down(&mut self)
        ensures
            old(self).scroll_offset < usize::MAX ==> *final(self) == (Self {
                scroll_offset: (old(self).scroll_offset + 1) as usize,
                ..*old(self)
            }),
            old(self).scroll_offset == usize::MAX ==> *final(self) == *old(self),
    {
        if self.scroll_offset < usize::MAX {
            self.scroll_offset = self.scroll_offset + 1;
        }
    }
}

/// Apply one decoded key to the application state: `q`/escape quits, tab
/// toggles the view, the arrow keys scroll, everything else does nothing.
pub fn handle_key_event(key: KeyCommand, app: &mut App)
    ensures
        key == KeyCommand::Quit ==> *final(app) == (App { should_quit: true, ..*old(app) }),
        key == KeyCommand::ToggleView ==> final(app).should_quit == old(app).should_quit
            && final(app).version == old(app).version && final(app).scroll_offset == old(
            app,
        ).scroll_offset && final(app).view_mode != old(app).view_mode,
        key == KeyCommand::ScrollUp && old(app).scroll_offset > 0 ==> *final(app) == (App {
            scroll_offset: (old(app).scroll_offset - 1) as usize,
            ..*old(app)
        }),
        key == KeyCommand::ScrollUp && old(app).scroll_offset == 0 ==> *final(app) == *old(app),
        key == KeyCommand::ScrollDown && old(app).scroll_offset < usize::MAX ==> *final(app)
            == (App { scroll_offset: (old(app).scroll_offset + 1) as usize, ..*old(app) }),
        key == KeyCommand::ScrollDown && old(app).scroll_offset == usize::MAX ==> *final(app)
            == *old(app),
        key == KeyCommand::Ignore ==> *final(app) == *old(app),
{
    match key {
        KeyCommand::Quit => app.quit(),
        KeyCommand::ToggleView => app.toggle_view_mode(),
        KeyCommand::ScrollUp => app.on_up(),
        KeyCommand::ScrollDown => app.on_down(),
        KeyCommand::Ignore => (),
    }
}

/// The operator's port selection, as plain values: monitor everything, or
/// only the interfaces named on the command line.
pub struct Args {
    /// Monitor all discovered ports.
    pub all: bool,
    /// Monitor only the ports with these display names.
    pub interfaces: Option<Vec<String>>,
    /// Accepted for compatibility; per-queue monitoring is not done at
    /// millisecond cadence, so this changes nothing in the core.
    pub monitor_queues: bool,
}

/// Whether one of the requested names matches this port's display name.
pub open spec fn name_requested(p: PortInfo, names: Seq<String>) -> bool {
    exists|i: int| 0 <= i < names.len() && names[i]@ == p.name@
}

/// The discovered ports that the request keeps, in discovery order.
pub open spec fn requested_ports(ports: Seq<PortInfo>, names: Seq<String>) -> Seq<PortInfo>
    decreases ports.len(),
{
    if ports.len() == 0 {
        Seq::empty()
    } else if name_requested(ports[0], names) {
        seq![ports[0]] + requested_ports(ports.skip(1), names)
    } else {
        requested_ports(ports.skip(1), names)
    }
}

/// Whether `name` occurs, by character content, among `names`.
fn name_in(names: &Vec<String>, name: &String) -> (r: bool)
    ensures
        r == exists|i: int| 0 <= i < names@.len() && names@[i]@ == name@,
{
    let mut i: usize = 0;
    while i < names.len()
        invariant
            i <= names@.len(),
            forall|j: int| 0 <= j < i ==> names@[j]@ != name@,
        decreases names@.len() - i,
    {
        if names[i] == *name {
            return true;
        }
        i = i + 1;
    }
    false
}

/// Decide which discovered ports to monitor. An empty discovery result is an
/// error; selecting all keeps every port; an explicit name list keeps the
/// ports it names, in discovery order, and it is an error if it keeps none.
pub fn select_ports(ports: Vec<PortInfo>, all: bool, interfaces: &Option<Vec<String>>) -> (r:
    Result<Vec<PortInfo>, SelectError>)
    requires
        all || interfaces is Some,
    ensures
        ports@.len() == 0 ==> r == Err::<Vec<PortInfo>, SelectError>(SelectError::NoPortsFound),
        ports@.len() > 0 && all ==> (r is Ok && r.unwrap()@ == ports@),
        (ports@.len() > 0 && !all && requested_ports(ports@, interfaces.unwrap()@).len() == 0)
            ==> r == Err::<Vec<PortInfo>, SelectError>(SelectError::NoneSelected),
        (ports@.len() > 0 && !all && requested_ports(ports@, interfaces.unwrap()@).len() > 0)
            ==> (r is Ok && r.unwrap()@ == requested_ports(ports@, interfaces.unwrap()@)),
{
    if ports.len() == 0 {
        return Err(SelectError::NoPortsFound);
    }
    if all {
        return Ok(ports);
    }
    let names = match interfaces {
        Some(names) => names,
        None => {
            return Err(SelectError::NoneSelected);  // unreachable under the precondition
        },
    };
    let ghost all_ports = ports@;
    let mut rest = ports;
    let mut kept: Vec<PortInfo> = Vec::new();
    proof {
        assert(kept@ + requested_ports(rest@, names@) =~= requested_ports(all_ports, names@));
    }
    while rest.len() > 0
        invariant
            kept@ + requested_ports(rest@, names@) =~= requested_ports(all_ports, names@),
        decreases rest@.len(),
    {
        let ghost rest_before = rest@;
        let p = rest.remove(0);
        proof {
            assert(rest@ =~= rest_before.skip(1));
        }
        if name_in(names, &p.name) {
            kept.push(p);
            proof {
                assert(kept@ + requested_ports(rest@, names@) =~= requested_ports(
                    all_ports,
                    names@,
                ));
            }
        } else {
            proof {
                assert(!name_requested(p, names@));
            }
        }
    }
    proof {
        assert(kept@ =~= requested_ports(all_ports, names@));
    }
    if kept.len() == 0 {
        Err(SelectError::NoneSelected)
    } else {
        Ok(kept)
    }
}

} // verus!
