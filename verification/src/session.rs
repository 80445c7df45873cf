//! Protocol session logic: discovered globals, startup options, filter
//! selection, the handler table, and the routing of incoming events.

use vstd::prelude::*;
use vstd::string::StringExecFns;
use std::collections::HashMap;
use crate::tags::{decoded, view_masks};
use crate::text::{tags_text, view_tags_text, orphan_text, render_tags, render_view_tags,
    orphan_message};

verus! {

/// Startup options, fixed for the life of the session.
pub struct Config {
    /// Seat-name filter: a seat is selected only if its advertised name equals
    /// this string; the empty string selects every seat.
    pub seat_filter: String,
    /// Monitor filter: the zero-based discovery index of the single output to
    /// subscribe to; `None` selects every output.
    pub monitor: Option<usize>,
    /// Print the focused-tags line of subscribed outputs.
    pub show_tags: bool,
    /// Print the focused view title of subscribed seats.
    pub show_title: bool,
    /// Print the per-view tags line of subscribed outputs.
    pub show_view_tags: bool,
}

/// The one terminal protocol failure: the compositor does not advertise the
/// status-manager global.
#[derive(Clone, Copy, Debug, PartialEq, Eq, Structural)]
pub enum Error {
    ProtocolUnsupported,
}

impl Error {
    /// The user-visible report for this failure.
    pub fn message(&self) -> (m: String)
        ensures
            m@ == ("Compositor doesn't implement river_status_unstable_v1")@,
    {
        String::from_str("Compositor doesn't implement river_status_unstable_v1")
    }
}

/// The global objects collected by the discovery handshake, in advertisement
/// order.  The collections only ever grow.
pub struct Globals {
    pub seats: Vec<u32>,
    pub outputs: Vec<u32>,
    pub status_manager: Option<u32>,
}

impl Globals {
    pub fn new() -> (g: Globals)
        ensures
            g.seats@ == Seq::<u32>::empty(),
            g.outputs@ == Seq::<u32>::empty(),
            g.status_manager is None,
    {
        Globals { seats: Vec::new(), outputs: Vec::new(), status_manager: None }
    }

    /// Records an advertised seat; earlier entries are kept in place.
    pub fn advertise_seat(&mut self, seat: u32)
        ensures
            final(self).seats@ == old(self).seats@.push(seat),
            final(self).outputs@ == old(self).outputs@,
            final(self).status_manager == old(self).status_manager,
    {
        self.seats.push(seat);
    }

    /// Records an advertised output; earlier entries are kept in place.
    pub fn advertise_output(&mut self, output: u32)
        ensures
            final(self).outputs@ == old(self).outputs@.push(output),
            final(self).seats@ == old(self).seats@,
            final(self).status_manager == old(self).status_manager,
    {
        self.outputs.push(output);
    }

    /// Records the advertised status-manager singleton.
    pub fn advertise_status_manager(&mut self, manager: u32)
        ensures
            final(self).status_manager == Some(manager),
            final(self).seats@ == old(self).seats@,
            final(self).outputs@ == old(self).outputs@,
    {
        self.status_manager = Some(manager);
    }

    /// The status-manager handle, or the terminal failure if none was
    /// advertised by the time binding is attempted.
    pub fn require_status_manager(&self) -> (r: Result<u32, Error>)
        ensures
            match self.status_manager {
                Some(manager) => r == Ok::<u32, Error>(manager),
                None => r == Err::<u32, Error>(Error::ProtocolUnsupported),
            },
    {
        match self.status_manager {
            Some(manager) => Ok(manager),
            None => Err(Error::ProtocolUnsupported),
        }
    }
}

/// Whether the monitor filter selects the output at a discovery index.
pub open spec fn output_selected(monitor: Option<usize>, index: int) -> bool {
    match monitor {
        Some(m) => index == m as int,
        None => true,
    }
}

/// Decides whether the output at `index` (in discovery order) is selected by
/// the monitor filter.
pub fn is_output_selected(monitor: &Option<usize>, index: usize) -> (r: bool)
    ensures
        r == output_selected(*monitor, index as int),
{
    match monitor {
        Some(m) => *m == index,
        None => true,
    }
}

/// Whether a seat name passes the seat filter: an empty filter admits every
/// seat, otherwise the names must be equal, exactly and case-sensitively.
pub open spec fn seat_matches(filter: Seq<char>, name: Seq<char>) -> bool {
    filter.len() == 0 || filter == name
}

/// Decides whether a seat's advertised name passes the seat filter.
pub fn seat_name_matches(filter: &String, name: &String) -> (r: bool)
    ensures
        r == seat_matches(filter@, name@),
{
    filter.as_str().is_empty() || filter.eq(name)
}

/// Law: with no monitor filter every output index is selected; with a filter
/// index at or beyond the number of discovered outputs, none is.
pub proof fn lemma_monitor_filter(count: int, m: usize)
    ensures
        forall|i: int| #[trigger] output_selected(None, i),
        count <= m as int ==> forall|i: int|
            0 <= i < count ==> !#[trigger] output_selected(Some(m), i),
{
}

/// The handler installed for one protocol object.
#[derive(Clone, Copy, Debug)]
pub enum Handler {
    /// A seat handle: watches name events to finish the lazy seat selection
    /// of the status object it owns.
    SeatMain { status: u32 },
    /// A seat status subscription whose events print.
    SeatStatus,
    /// An output status subscription whose events print.
    OutputStatus,
    /// An object whose events are accepted and ignored.
    Noop,
}

/// The payload of an incoming event, as handed over by the transport.
#[allow(inconsistent_fields)]
pub enum EventBody {
    /// Focused-tags change of an output: a single bitmask.
    FocusedTags { tags: u32 },
    /// Per-view tags change of an output: packed 4-byte little-endian groups.
    ViewTags { tags: Vec<u8> },
    /// Name advertisement of a seat.
    Name { name: String },
    /// Focused-view change of a seat: the view's title.
    FocusedView { title: String },
    /// Any other event of a bound object.
    Other,
}

/// What the caller must do after an event was routed.
#[derive(Debug)]
pub enum Action {
    /// Nothing to do.
    Nothing,
    /// Write this line, followed by a newline, to standard output.
    Print { line: String },
    /// Terminate the process with this report: the event reached an object
    /// with no installed handler.
    Fatal { message: String },
}

/// The handler table after an event was routed: a matching seat-name event
/// settles the seat's lazy selection by swapping its status object's handler;
/// every other event leaves the table unchanged.
pub open spec fn step_table(
    t: Map<u32, Handler>,
    filter: Seq<char>,
    object: u32,
    body: EventBody,
) -> Map<u32, Handler> {
    if t.contains_key(object) {
        match t[object] {
            Handler::SeatMain { status } => match body {
                EventBody::Name { name } => if seat_matches(filter, name@) {
                    t.insert(status, Handler::SeatStatus)
                } else {
                    t.insert(status, Handler::Noop)
                },
                _ => t,
            },
            _ => t,
        }
    } else {
        t
    }
}

/// The line an event prints, if any: titles for live seat subscriptions,
/// decoded tag lines for live output subscriptions, each gated by its
/// display option.
pub open spec fn step_print(
    t: Map<u32, Handler>,
    c: Config,
    object: u32,
    body: EventBody,
) -> Option<Seq<char>> {
    if !t.contains_key(object) {
        None
    } else {
        match t[object] {
            Handler::SeatStatus => match body {
                EventBody::FocusedView { title } => if c.show_title {
                    Some(title@)
                } else {
                    None
                },
                _ => None,
            },
            Handler::OutputStatus => match body {
                EventBody::FocusedTags { tags } => if c.show_tags {
                    Some(tags_text(decoded(tags)))
                } else {
                    None
                },
                EventBody::ViewTags { tags } => if c.show_view_tags {
                    Some(view_tags_text(view_masks(tags@)))
                } else {
                    None
                },
                _ => None,
            },
            _ => None,
        }
    }
}

/// A live protocol session: the startup options and the handler table that
/// routes every incoming event.
pub struct Session {
    pub config: Config,
    pub table: HashMap<u32, Handler>,
}

impl Session {
    pub fn new(config: Config) -> (s: Session)
        ensures
            s.config == config,
            s.table@ == Map::<u32, Handler>::empty(),
    {
        Session { config, table: HashMap::new() }
    }

    /// Binds one discovered seat: the seat handle watches for its name, which
    /// settles the lazy seat selection.  With an empty filter every seat is
    /// selected, so its status subscription starts live; with a filter the
    /// subscription stays quiet until the seat's name is seen to match.
    pub fn bind_seat(&mut self, seat: u32, seat_status: u32)
        ensures
            final(self).config == old(self).config,
            final(self).table@ == old(self).table@.insert(
                seat,
                Handler::SeatMain { status: seat_status },
            ).insert(
                seat_status,
                if old(self).config.seat_filter@.len() == 0 {
                    Handler::SeatStatus
                } else {
                    Handler::Noop
                },
            ),
    {
        self.table.insert(seat, Handler::SeatMain { status: seat_status });
        if self.config.seat_filter.as_str().is_empty() {
            self.table.insert(seat_status, Handler::SeatStatus);
        } else {
            self.table.insert(seat_status, Handler::Noop);
        }
    }

    /// Binds one discovered output.  `output_status` carries the id of its
    /// status subscription if the monitor filter selected the output; an
    /// unselected output only gets a no-op handler on its own handle.
    pub fn bind_output(&mut self, output: u32, output_status: Option<u32>)
        ensures
            final(self).config == old(self).config,
            final(self).table@ == match output_status {
                Some(status) => old(self).table@.insert(output, Handler::Noop).insert(
                    status,
                    Handler::OutputStatus,
                ),
                None => old(self).table@.insert(output, Handler::Noop),
            },
    {
        self.table.insert(output, Handler::Noop);
        match output_status {
            Some(status) => {
                self.table.insert(status, Handler::OutputStatus);
            },
            None => {},
        }
    }

    /// Routes one incoming event to the handler installed for its object.
    /// An event for an object with no installed handler is fatal and reports
    /// the interface name, object id, and event name; every other event at
    /// most prints one line and settles pending seat selections.
    pub fn dispatch(
        &mut self,
        interface: &String,
        object: u32,
        event_name: &String,
        body: EventBody,
    ) -> (a: Action)
        requires
            body matches EventBody::ViewTags { tags } ==> tags@.len() % 4 == 0,
        ensures
            final(self).config == old(self).config,
            final(self).table@ == step_table(
                old(self).table@,
                old(self).config.seat_filter@,
                object,
                body,
            ),
            !old(self).table@.contains_key(object) ==> (a matches Action::Fatal { message }
                && message@ == orphan_text(interface@, object as nat, event_name@)),
            old(self).table@.contains_key(object) ==> match step_print(
                old(self).table@,
                old(self).config,
                object,
                body,
            ) {
                Some(l) => a matches Action::Print { line } && line@ == l,
                None => a is Nothing,
            },
    {
        let current: Option<Handler> = match self.table.get(&object) {
            Some(h) => Some(*h),
            None => None,
        };
        match current {
            None => Action::Fatal { message: orphan_message(interface, object, event_name) },
            Some(Handler::SeatMain { status }) => {
                match body {
                    EventBody::Name { name } => {
                        if seat_name_matches(&self.config.seat_filter, &name) {
                            self.table.insert(status, Handler::SeatStatus);
                        } else {
                            self.table.insert(status, Handler::Noop);
                        }
                        Action::Nothing
                    },
                    _ => Action::Nothing,
                }
            },
            Some(Handler::SeatStatus) => {
                match body {
                    EventBody::FocusedView { title } => {
                        if self.config.show_title {
                            Action::Print { line: title }
                        } else {
                            Action::Nothing
                        }
                    },
                    _ => Action::Nothing,
                }
            },
            Some(Handler::OutputStatus) => {
                match body {
                    EventBody::FocusedTags { tags } => {
                        if self.config.show_tags {
                            Action::Print { line: render_tags(tags) }
                        } else {
                            Action::Nothing
                        }
                    },
                    EventBody::ViewTags { tags } => {
                        if self.config.show_view_tags {
                            Action::Print { line: render_view_tags(&tags) }
                        } else {
                            Action::Nothing
                        }
                    },
                    _ => Action::Nothing,
                }
            },
            Some(Handler::Noop) => Action::Nothing,
        }
    }
}

} // verus!
