//! The clipboard and the primary selection: who owns them, and who is asked for their contents.

use vstd::prelude::*;
use crate::world::Handle;

verus! {

/// Which of the two selections is meant.
#[derive(Clone, Copy, Debug, PartialEq, Eq, Structural)]
pub enum SourceKind {
    Clipboard,
    Primary,
}

/// What the two selections differ in.
pub trait SelectionType: Sized {
    /// Which selection it is.
    spec fn source_kind() -> SourceKind;

    /// Which selection it is.
    fn kind() -> (kind: SourceKind)
        ensures
            kind == Self::source_kind(),
    ;
}

/// The selection that copying fills.
pub struct Clipboard;

/// The selection that marking text fills.
pub struct Primary;

impl SelectionType for Clipboard {
    open spec fn source_kind() -> SourceKind {
        SourceKind::Clipboard
    }

    fn kind() -> (kind: SourceKind) {
        SourceKind::Clipboard
    }
}

impl SelectionType for Primary {
    open spec fn source_kind() -> SourceKind {
        SourceKind::Primary
    }

    fn kind() -> (kind: SourceKind) {
        SourceKind::Primary
    }
}

/// A source that the compositor was given: by the core protocol, which needs an input serial, or by
/// the data control protocol, which does not. The latter has to wait for a seat.
#[derive(Clone, Copy, Debug, PartialEq, Eq, Structural)]
pub enum SelectionSource {
    Core(u64),
    Control { source: u64, published: bool },
}

/// A selection that a Wayland client owns.
#[derive(Debug)]
pub struct ForeignSelection {
    pub offer: u64,
    pub mime_types: Vec<String>,
}

/// Who owns a selection.
#[derive(Debug)]
pub enum SelectionData {
    /// An X11 client, whose data are found by key.
    X11 { inner: SelectionSource, data: u64 },
    Foreign(ForeignSelection),
}

/// What is known of one selection.
#[derive(Debug)]
pub struct SelectionState {
    /// The core protocol's device, once there is a seat.
    pub device: Option<u64>,
    pub source: Option<SelectionData>,
    /// What was offered last, until it is taken up.
    pub offer: Option<SelectionOffer>,
}

/// What is known of the data control protocol.
#[derive(Clone, Copy, Debug, PartialEq, Eq, Structural)]
pub struct DataControlState {
    /// The device, once there is a seat.
    pub device: Option<Handle>,
}

/// What is known of the selections that the compositor supports.
#[derive(Debug)]
pub struct SelectionStates {
    pub clipboard: Option<SelectionState>,
    pub primary: Option<SelectionState>,
    pub control: Option<DataControlState>,
}

/// A request for the contents of a source.
#[derive(Debug)]
pub struct SelectionRequest {
    pub source: u64,
    pub mime_type: String,
    pub pipe: u64,
}

/// A selection that a Wayland client offers.
#[derive(Debug)]
pub struct SelectionOffer {
    pub offer: u64,
    pub alive: bool,
    pub mime_types: Vec<String>,
}

/// What happened to one selection since the last time.
#[derive(Debug)]
pub struct SelectionEvents {
    /// A new offer. It replaces the one before.
    pub offer: Option<SelectionOffer>,
    /// Whether what was offered before no longer stands.
    pub withdrawn: bool,
    pub requests: Vec<SelectionRequest>,
    pub cancelled: Vec<u64>,
}

/// What happened to the data control sources of one selection since the last time.
#[derive(Debug)]
pub struct ControlSourceEvents {
    pub requests: Vec<SelectionRequest>,
    pub cancelled: Vec<u64>,
}

/// Contents that an X11 client is to write to a pipe.
#[derive(Debug)]
pub struct SelectionWrite {
    pub data: u64,
    pub mime_type: String,
    pub pipe: u64,
}

/// What is to be done about what happened to a selection.
#[derive(Debug)]
pub struct SelectionActions {
    pub writes: Vec<SelectionWrite>,
    /// A data control source that is to be destroyed.
    pub destroyed: Option<u64>,
}

/// The sources that wait for a device and are to be set on a new one.
#[derive(Clone, Copy, Debug, PartialEq, Eq, Structural)]
pub struct SeatSelections {
    pub clipboard: Option<u64>,
    pub primary: Option<u64>,
}

/// How a selection of an X11 client is to be announced.
#[derive(Clone, Copy, Debug, PartialEq, Eq, Structural)]
pub enum SourcePlan {
    /// The compositor does not support the selection.
    Unsupported,
    /// A core source, set with an input serial.
    Core { device: u64, serial: u32 },
    /// A data control source, set on the device if there is one.
    Control { on: Option<u64> },
    /// A core source that cannot be set.
    Retained,
}

/// Contents to write, as the protocol sees them.
pub struct WriteView {
    pub data: u64,
    pub mime_type: Seq<char>,
    pub pipe: u64,
}

impl View for SelectionWrite {
    type V = WriteView;

    open spec fn view(&self) -> WriteView {
        WriteView { data: self.data, mime_type: self.mime_type@, pipe: self.pipe }
    }
}

/// What all writes are, as the protocol sees them.
pub open spec fn write_views(writes: Seq<SelectionWrite>) -> Seq<WriteView> {
    writes.map_values(|w: SelectionWrite| w@)
}

/// The writes that requests for one source call for, in their order.
pub open spec fn served(requests: Seq<SelectionRequest>, source: u64, data: u64) -> Seq<WriteView>
    decreases requests.len(),
{
    if requests.len() == 0 {
        Seq::empty()
    } else {
        let before = served(requests.drop_last(), source, data);
        let last = requests.last();
        if last.source == source {
            before.push(WriteView { data, mime_type: last.mime_type@, pipe: last.pipe })
        } else {
            before
        }
    }
}

impl SelectionData {
    /// The core source, if there is one.
    pub open spec fn core_source(self) -> Option<u64> {
        match self {
            SelectionData::X11 { inner: SelectionSource::Core(source), .. } => Some(source),
            _ => None,
        }
    }

    /// The data control source, if there is one.
    pub open spec fn control_source(self) -> Option<u64> {
        match self {
            SelectionData::X11 { inner: SelectionSource::Control { source, .. }, .. } => Some(
                source,
            ),
            _ => None,
        }
    }

    /// The source that is still to be set on a device.
    pub open spec fn unpublished(self) -> Option<u64> {
        match self {
            SelectionData::X11 {
                inner: SelectionSource::Control { source, published: false },
                ..
            } => Some(source),
            _ => None,
        }
    }

    /// The same with its source set on a device.
    pub open spec fn now_published(self) -> SelectionData {
        match self {
            SelectionData::X11 { inner: SelectionSource::Control { source, .. }, data } =>
                SelectionData::X11 {
                inner: SelectionSource::Control { source, published: true },
                data,
            },
            other => other,
        }
    }
}

/// The core source of a selection, if there is one.
pub open spec fn core_of(source: Option<SelectionData>) -> Option<u64> {
    match source {
        Some(data) => data.core_source(),
        None => None,
    }
}

/// The data control source of a selection, if there is one.
pub open spec fn control_of(source: Option<SelectionData>) -> Option<u64> {
    match source {
        Some(data) => data.control_source(),
        None => None,
    }
}

/// Whether the current source of a selection has been cancelled.
pub open spec fn is_cancelled(
    source: Option<SelectionData>,
    events: SelectionEvents,
    control: ControlSourceEvents,
) -> bool {
    ||| core_of(source) matches Some(id) && events.cancelled@.contains(id)
    ||| control_of(source) matches Some(id) && control.cancelled@.contains(id)
}

/// The offer that can be taken up. An offer of the clipboard has to be alive still.
pub open spec fn usable_offer(kind: SourceKind, offer: Option<SelectionOffer>) -> Option<
    SelectionOffer,
> {
    match offer {
        Some(offer) if kind == SourceKind::Primary || offer.alive => Some(offer),
        _ => None,
    }
}

/// Whether a selection still has the owner that it had.
pub open spec fn owner_stays(
    source: Option<SelectionData>,
    events: SelectionEvents,
    control: ControlSourceEvents,
) -> bool {
    source is Some && !is_cancelled(source, events, control)
}

/// What is offered after what happened: the newest offer that has not been withdrawn.
pub open spec fn offered(kept: Option<SelectionOffer>, events: SelectionEvents) -> Option<
    SelectionOffer,
> {
    if events.offer is Some {
        events.offer
    } else if events.withdrawn {
        None
    } else {
        kept
    }
}

/// Who owns a selection whose offer is taken up.
pub open spec fn taken_up(kind: SourceKind, offer: Option<SelectionOffer>) -> Option<SelectionData> {
    match usable_offer(kind, offer) {
        Some(offer) => Some(
            SelectionData::Foreign(
                ForeignSelection { offer: offer.offer, mime_types: offer.mime_types },
            ),
        ),
        None => None,
    }
}

impl SelectionState {
    /// What becomes of a selection by what happened to it. Its owner keeps it until the source is
    /// cancelled, and what is offered meanwhile is kept; without an owner it goes to whoever
    /// offers it.
    pub open spec fn after(
        self,
        kind: SourceKind,
        events: SelectionEvents,
        control: ControlSourceEvents,
    ) -> SelectionState {
        if owner_stays(self.source, events, control) {
            SelectionState { offer: offered(self.offer, events), ..self }
        } else {
            SelectionState {
                source: taken_up(kind, offered(self.offer, events)),
                offer: None,
                ..self
            }
        }
    }

    /// What becomes of a selection by all that happened to it.
    pub open spec fn after_all(
        self,
        kind: SourceKind,
        batches: Seq<(SelectionEvents, ControlSourceEvents)>,
    ) -> SelectionState
        decreases batches.len(),
    {
        if batches.len() == 0 {
            self
        } else {
            self.after_all(kind, batches.drop_last()).after(
                kind,
                batches.last().0,
                batches.last().1,
            )
        }
    }
}

/// The writes that what happened to a selection calls for.
pub open spec fn writes_for(
    source: Option<SelectionData>,
    events: SelectionEvents,
    control: ControlSourceEvents,
) -> Seq<WriteView> {
    match source {
        Some(SelectionData::X11 { inner: SelectionSource::Core(id), data }) => served(
            events.requests@,
            id,
            data,
        ),
        Some(SelectionData::X11 { inner: SelectionSource::Control { source: id, .. }, data }) =>
            served(control.requests@, id, data),
        _ => Seq::empty(),
    }
}

impl SelectionStates {
    /// What is known of one selection.
    pub open spec fn at(self, kind: SourceKind) -> Option<SelectionState> {
        match kind {
            SourceKind::Clipboard => self.clipboard,
            SourceKind::Primary => self.primary,
        }
    }

    /// The same with one selection replaced.
    pub open spec fn with(self, kind: SourceKind, state: Option<SelectionState>) -> SelectionStates {
        match kind {
            SourceKind::Clipboard => SelectionStates { clipboard: state, ..self },
            SourceKind::Primary => SelectionStates { primary: state, ..self },
        }
    }

    /// What is known before there is a seat.
    pub fn new(clipboard: bool, primary: bool, control: bool) -> (states: SelectionStates)
        ensures
            states.clipboard == (if clipboard {
                Some(SelectionState { device: None, source: None, offer: None })
            } else {
                None
            }),
            states.primary == (if primary {
                Some(SelectionState { device: None, source: None, offer: None })
            } else {
                None
            }),
            states.control == (if control {
                Some(DataControlState { device: None })
            } else {
                None
            }),
    {
        SelectionStates {
            clipboard: if clipboard {
                Some(SelectionState { device: None, source: None, offer: None })
            } else {
                None
            },
            primary: if primary {
                Some(SelectionState { device: None, source: None, offer: None })
            } else {
                None
            },
            control: if control {
                Some(DataControlState { device: None })
            } else {
                None
            },
        }
    }

    /// Takes the state of one selection out.
    fn take_state(&mut self, kind: SourceKind) -> (state: Option<SelectionState>)
        ensures
            state == old(self).at(kind),
            *final(self) == old(self).with(kind, None),
    {
        match kind {
            SourceKind::Clipboard => self.clipboard.take(),
            SourceKind::Primary => self.primary.take(),
        }
    }

    /// Puts the state of one selection in.
    fn put_state(&mut self, kind: SourceKind, state: SelectionState)
        ensures
            *final(self) == old(self).with(kind, Some(state)),
    {
        match kind {
            SourceKind::Clipboard => {
                self.clipboard = Some(state);
            },
            SourceKind::Primary => {
                self.primary = Some(state);
            },
        }
    }
}

/// Whether a list has an id.
fn has_id(ids: &Vec<u64>, id: u64) -> (r: bool)
    ensures
        r == ids@.contains(id),
{
    let mut i: usize = 0;
    while i < ids.len()
        invariant
            i <= ids@.len(),
            forall|k: int| 0 <= k < i ==> ids@[k] != id,
        decreases ids.len() - i,
    {
        if ids[i] == id {
            assert(ids@[i as int] == id);
            return true;
        }
        i += 1;
    }
    false
}

/// The writes that requests for one source call for.
fn serve(requests: &Vec<SelectionRequest>, source: u64, data: u64) -> (writes: Vec<SelectionWrite>)
    ensures
        write_views(writes@) == served(requests@, source, data),
{
    let mut writes: Vec<SelectionWrite> = Vec::new();
    let mut i: usize = 0;
    assert(write_views(writes@) =~= served(requests@.take(0), source, data));
    while i < requests.len()
        invariant
            i <= requests@.len(),
            write_views(writes@) == served(requests@.take(i as int), source, data),
        decreases requests.len() - i,
    {
        let ghost so_far = writes@;
        let request = &requests[i];
        if request.source == source {
            writes.push(
                SelectionWrite { data, mime_type: request.mime_type.clone(), pipe: request.pipe },
            );
        }
        proof {
            assert(requests@.take(i as int + 1).drop_last() =~= requests@.take(i as int));
            assert(requests@.take(i as int + 1).last() == requests@[i as int]);
            assert(write_views(writes@) =~= served(requests@.take(i as int + 1), source, data));
        }
        i += 1;
    }
    assert(requests@.take(i as int) =~= requests@);
    writes
}

impl SelectionState {
    /// Deals with what happened to a selection.
    fn handle(
        self,
        kind: SourceKind,
        events: SelectionEvents,
        control: ControlSourceEvents,
    ) -> (r: (SelectionState, SelectionActions))
        ensures
            r.0 == self.after(kind, events, control),
            write_views(r.1.writes@) == writes_for(self.source, events, control),
            r.1.destroyed == (if is_cancelled(self.source, events, control) {
                control_of(self.source)
            } else {
                None
            }),
    {
        let mut source = self.source;
        let mut writes: Vec<SelectionWrite> = Vec::new();
        let mut destroyed: Option<u64> = None;
        let mut cancelled = false;
        assert(write_views(writes@) =~= Seq::<WriteView>::empty());
        if let Some(SelectionData::X11 { inner, data }) = &source {
            match *inner {
                SelectionSource::Core(id) => {
                    writes = serve(&events.requests, id, *data);
                    cancelled = has_id(&events.cancelled, id);
                },
                SelectionSource::Control { source: id, .. } => {
                    writes = serve(&control.requests, id, *data);
                    if has_id(&control.cancelled, id) {
                        cancelled = true;
                        destroyed = Some(id);
                    }
                },
            }
        }
        if cancelled {
            source = None;
        }
        let mut offer = self.offer;
        if events.offer.is_some() {
            offer = events.offer;
        } else if events.withdrawn {
            offer = None;
        }
        if source.is_none() {
            if let Some(offer) = offer {
                let usable = match kind {
                    SourceKind::Clipboard => offer.alive,
                    SourceKind::Primary => true,
                };
                if usable {
                    source = Some(
                        SelectionData::Foreign(
                            ForeignSelection { offer: offer.offer, mime_types: offer.mime_types },
                        ),
                    );
                }
            }
            offer = None;
        }
        (
            SelectionState { device: self.device, source, offer },
            SelectionActions { writes, destroyed },
        )
    }

    /// Marks a source that waits for a device as set. Returns it.
    fn publish(self) -> (r: (SelectionState, Option<u64>))
        ensures
            r.1 == (match self.source {
                Some(data) => data.unpublished(),
                None => None,
            }),
            r.0 == (SelectionState {
                source: match self.source {
                    Some(data) => Some(data.now_published()),
                    None => None,
                },
                ..self
            }),
    {
        match self.source {
            Some(
                SelectionData::X11 { inner: SelectionSource::Control { source, published }, data },
            ) => {
                let waiting = if published {
                    None
                } else {
                    Some(source)
                };
                (
                    SelectionState {
                        device: self.device,
                        source: Some(
                            SelectionData::X11 {
                                inner: SelectionSource::Control { source, published: true },
                                data,
                            },
                        ),
                        offer: self.offer,
                    },
                    waiting,
                )
            },
            other => (
                SelectionState { device: self.device, source: other, offer: self.offer },
                None,
            ),
        }
    }
}

/// The source of a selection that waits for a device.
pub open spec fn waiting(state: Option<SelectionState>) -> Option<u64> {
    match state {
        Some(SelectionState { source: Some(data), .. }) => data.unpublished(),
        _ => None,
    }
}

/// What becomes of a selection when a seat appears.
pub open spec fn seated(state: Option<SelectionState>, device: u64, control: bool) -> Option<
    SelectionState,
> {
    match state {
        Some(state) => Some(
            SelectionState {
                device: Some(device),
                source: match state.source {
                    Some(data) if control => Some(data.now_published()),
                    source => source,
                },
                ..state
            },
        ),
        None => None,
    }
}

impl SelectionStates {
    /// Takes note of the devices of a new seat. Returns the sources to set on its data control
    /// device.
    pub fn seat_created(
        &mut self,
        clipboard_device: u64,
        primary_device: u64,
        control_device: Handle,
    ) -> (publish: SeatSelections)
        ensures
            ({
                let control = old(self).control is Some;
                &&& final(self).clipboard == seated(old(self).clipboard, clipboard_device, control)
                &&& final(self).primary == seated(old(self).primary, primary_device, control)
                &&& final(self).control == (if control {
                    Some(DataControlState { device: Some(control_device) })
                } else {
                    None
                })
                &&& publish == (if control {
                    SeatSelections {
                        clipboard: waiting(old(self).clipboard),
                        primary: waiting(old(self).primary),
                    }
                } else {
                    SeatSelections { clipboard: None, primary: None }
                })
            }),
    {
        if let Some(state) = self.clipboard.take() {
            self.clipboard = Some(
                SelectionState { device: Some(clipboard_device), ..state },
            );
        }
        if let Some(state) = self.primary.take() {
            self.primary = Some(
                SelectionState { device: Some(primary_device), ..state },
            );
        }
        let mut publish = SeatSelections { clipboard: None, primary: None };
        if self.control.is_none() {
            return publish;
        }
        if let Some(state) = self.clipboard.take() {
            let (state, source) = state.publish();
            publish.clipboard = source;
            self.clipboard = Some(state);
        }
        if let Some(state) = self.primary.take() {
            let (state, source) = state.publish();
            publish.primary = source;
            self.primary = Some(state);
        }
        self.control = Some(DataControlState { device: Some(control_device) });
        publish
    }

    /// Deals with what happened to one selection.
    pub fn handle_selection_events<T: SelectionType>(
        &mut self,
        events: SelectionEvents,
        control: ControlSourceEvents,
    ) -> (actions: SelectionActions)
        ensures
            match old(self).at(T::source_kind()) {
                Some(state) => {
                    &&& *final(self) == old(self).with(
                        T::source_kind(),
                        Some(state.after(T::source_kind(), events, control)),
                    )
                    &&& write_views(actions.writes@) == writes_for(state.source, events, control)
                    &&& actions.destroyed == (if is_cancelled(state.source, events, control) {
                        control_of(state.source)
                    } else {
                        None
                    })
                },
                None => *final(self) == *old(self) && actions.writes@.len() == 0
                    && actions.destroyed is None,
            },
    {
        let kind = T::kind();
        match self.take_state(kind) {
            Some(state) => {
                let (state, actions) = state.handle(kind, events, control);
                self.put_state(kind, state);
                actions
            },
            None => SelectionActions { writes: Vec::new(), destroyed: None },
        }
    }

    /// How a selection of an X11 client is to be announced. With an input serial the seat's device
    /// must be known.
    pub fn plan_source<T: SelectionType>(&self, serial: Option<u32>) -> (plan: SourcePlan)
        requires
            serial is Some ==> (self.at(T::source_kind()) matches Some(state)
                ==> state.device is Some),
        ensures
            plan == (match (self.at(T::source_kind()), serial, self.control) {
                (None, _, _) => SourcePlan::Unsupported,
                (Some(state), Some(serial), _) => SourcePlan::Core {
                    device: state.device->0,
                    serial,
                },
                (Some(_), None, Some(control)) => SourcePlan::Control {
                    on: match control.device {
                        Some(device) if device.alive => Some(device.id),
                        _ => None,
                    },
                },
                (Some(_), None, None) => SourcePlan::Retained,
            }),
    {
        let device = match T::kind() {
            SourceKind::Clipboard => match &self.clipboard {
                Some(state) => state.device,
                None => return SourcePlan::Unsupported,
            },
            SourceKind::Primary => match &self.primary {
                Some(state) => state.device,
                None => return SourcePlan::Unsupported,
            },
        };
        if let (Some(serial), Some(device)) = (serial, device) {
            return SourcePlan::Core { device, serial };
        }
        match self.control {
            Some(control) => SourcePlan::Control {
                on: match control.device {
                    Some(device) => if device.alive {
                        Some(device.id)
                    } else {
                        None
                    },
                    None => None,
                },
            },
            None => SourcePlan::Retained,
        }
    }

    /// Makes an X11 client the owner of a selection. Returns the data control source that is to
    /// be destroyed for it.
    pub fn set_selection_source<T: SelectionType>(&mut self, inner: SelectionSource, data: u64) -> (
    destroyed: Option<u64>)
        ensures
            match old(self).at(T::source_kind()) {
                Some(state) => {
                    &&& *final(self) == old(self).with(
                        T::source_kind(),
                        Some(
                            SelectionState {
                                source: Some(SelectionData::X11 { inner, data }),
                                ..state
                            },
                        ),
                    )
                    &&& destroyed == control_of(state.source)
                },
                None => *final(self) == *old(self) && destroyed is None,
            },
    {
        let kind = T::kind();
        match self.take_state(kind) {
            Some(state) => {
                let destroyed = match &state.source {
                    Some(SelectionData::X11 { inner, .. }) => match *inner {
                        SelectionSource::Control { source, .. } => Some(source),
                        SelectionSource::Core(_) => None,
                    },
                    _ => None,
                };
                self.put_state(
                    kind,
                    SelectionState {
                        device: state.device,
                        source: Some(SelectionData::X11 { inner, data }),
                        offer: state.offer,
                    },
                );
                destroyed
            },
            None => None,
        }
    }

    /// Takes a selection that a Wayland client owns, for an X11 client to be told of.
    pub fn new_selection<T: SelectionType>(&mut self) -> (selection: Option<ForeignSelection>)
        ensures
            match old(self).at(T::source_kind()) {
                Some(SelectionState {
                    source: Some(SelectionData::Foreign(foreign)),
                    device,
                    offer,
                }) => {
                    &&& selection == Some(foreign)
                    &&& *final(self) == old(self).with(
                        T::source_kind(),
                        Some(SelectionState { source: None, device, offer }),
                    )
                },
                _ => selection is None && *final(self) == *old(self),
            },
    {
        let kind = T::kind();
        match self.take_state(kind) {
            Some(state) => match state.source {
                Some(SelectionData::Foreign(foreign)) => {
                    self.put_state(
                        kind,
                        SelectionState { device: state.device, source: None, offer: state.offer },
                    );
                    Some(foreign)
                },
                source => {
                    self.put_state(
                        kind,
                        SelectionState { device: state.device, source, offer: state.offer },
                    );
                    None
                },
            },
            None => None,
        }
    }
}

/// Once an X11 client owns a selection, no offer takes it away: only the cancellation of its own
/// source does.
pub proof fn law_ownership_ends_by_cancellation(
    kind: SourceKind,
    state: SelectionState,
    inner: SelectionSource,
    data: u64,
    events: SelectionEvents,
    control: ControlSourceEvents,
)
    requires
        state.source == Some(SelectionData::X11 { inner, data }),
    ensures
        ({
            let id = match inner {
                SelectionSource::Core(id) => id,
                SelectionSource::Control { source, .. } => source,
            };
            let cancelled = match inner {
                SelectionSource::Core(_) => events.cancelled@.contains(id),
                SelectionSource::Control { .. } => control.cancelled@.contains(id),
            };
            (state.after(kind, events, control).source == state.source) <==> !cancelled
        }),
{
}

/// An offer that comes while a selection has an owner is not lost: where nothing newer is offered
/// and it is not withdrawn, it is kept however often something else happens, and taken up as soon
/// as the owner's source is cancelled or has been handed out.
pub proof fn law_an_offer_waits_for_its_turn(
    kind: SourceKind,
    state: SelectionState,
    batches: Seq<(SelectionEvents, ControlSourceEvents)>,
    events: SelectionEvents,
    control: ControlSourceEvents,
)
    requires
        state.source is Some,
        forall|k: int|
            0 <= k < batches.len() ==> (#[trigger] batches[k]).0.offer is None
                && !batches[k].0.withdrawn && !is_cancelled(
                state.source,
                batches[k].0,
                batches[k].1,
            ),
        events.offer is None,
        !events.withdrawn,
    ensures
        state.after_all(kind, batches) == state,
        is_cancelled(state.source, events, control) ==> state.after_all(kind, batches).after(
            kind,
            events,
            control,
        ) == (SelectionState { source: taken_up(kind, state.offer), offer: None, ..state }),
        (SelectionState { source: None, ..state.after_all(kind, batches) }).after(
            kind,
            events,
            control,
        ) == (SelectionState { source: taken_up(kind, state.offer), offer: None, ..state }),
    decreases batches.len(),
{
    if batches.len() > 0 {
        let earlier = batches.drop_last();
        assert forall|k: int| 0 <= k < earlier.len() implies (#[trigger] earlier[k]).0.offer is None
            && !earlier[k].0.withdrawn && !is_cancelled(
            state.source,
            earlier[k].0,
            earlier[k].1,
        ) by {
            assert(earlier[k] == batches[k]);
        }
        law_an_offer_waits_for_its_turn(kind, state, earlier, events, control);
        assert(batches.last() == batches[batches.len() - 1]);
    }
}

/// A source is set on a data control device once: of two seats in a row, the second finds none
/// waiting.
pub proof fn law_sources_are_published_once(state: Option<SelectionState>, device: u64)
    ensures
        waiting(seated(state, device, true)) is None,
{
}

/// The contents of a selection are only asked of its owner: every write is one of a request for
/// its source.
pub proof fn law_only_the_owner_is_asked(
    requests: Seq<SelectionRequest>,
    source: u64,
    data: u64,
    k: int,
)
    requires
        0 <= k < served(requests, source, data).len(),
    ensures
        served(requests, source, data)[k].data == data,
        exists|j: int|
            0 <= j < requests.len() && (#[trigger] requests[j]).source == source
                && requests[j].pipe == served(requests, source, data)[k].pipe
                && requests[j].mime_type@ == served(requests, source, data)[k].mime_type,
    decreases requests.len(),
{
    let before = served(requests.drop_last(), source, data);
    if k < before.len() {
        law_only_the_owner_is_asked(requests.drop_last(), source, data, k);
        let j = choose|j: int|
            0 <= j < requests.len() - 1 && (#[trigger] requests.drop_last()[j]).source == source
                && requests.drop_last()[j].pipe == before[k].pipe
                && requests.drop_last()[j].mime_type@ == before[k].mime_type;
        assert(requests[j] == requests.drop_last()[j]);
    } else {
        assert(requests[requests.len() - 1] == requests.last());
    }
}

/// The newest offer counts: it replaces the one before, which otherwise stays until it is withdrawn.
pub proof fn law_newest_offer_counts(kept: Option<SelectionOffer>, events: SelectionEvents)
    ensures
        events.offer is Some ==> offered(kept, events) == events.offer,
        events.offer is None && events.withdrawn ==> offered(kept, events) is None,
        events.offer is None && !events.withdrawn ==> offered(kept, events) == kept,
{
}

/// A selection that is taken up is the one that was offered, with all that it comes as. A clipboard
/// offer that is gone is not taken up.
pub proof fn law_offer_is_taken_up_whole(kind: SourceKind, offer: SelectionOffer)
    ensures
        kind == SourceKind::Primary || offer.alive ==> (taken_up(kind, Some(offer)) matches Some(
            SelectionData::Foreign(foreign),
        ) && foreign.offer == offer.offer && foreign.mime_types == offer.mime_types),
        kind == SourceKind::Clipboard && !offer.alive ==> taken_up(kind, Some(offer)) is None,
        taken_up(kind, None) is None,
{
}

/// Without an owner a selection goes to whoever offers it, and the offer is then used up; its device
/// stays whatever happens.
pub proof fn law_free_selection_goes_to_the_offer(
    kind: SourceKind,
    state: SelectionState,
    events: SelectionEvents,
    control: ControlSourceEvents,
)
    requires
        state.source is None,
    ensures
        ({
            let after = state.after(kind, events, control);
            &&& after.device == state.device
            &&& after.offer is None
            &&& (events.offer matches Some(offer) && (kind == SourceKind::Primary || offer.alive))
                ==> (after.source matches Some(SelectionData::Foreign(foreign)) && foreign.offer
                == events.offer->0.offer)
            &&& events.offer is None && (events.withdrawn || state.offer is None)
                ==> after.source is None
        }),
{
}

/// Requests are answered from the source that they name: a core source by the core protocol's, a
/// data control source by that one's, and a selection of another client by nobody.
pub proof fn law_who_answers_requests(
    source: Option<SelectionData>,
    events: SelectionEvents,
    control: ControlSourceEvents,
)
    ensures
        source is None ==> writes_for(source, events, control).len() == 0,
        source matches Some(SelectionData::Foreign(_)) ==> writes_for(
            source,
            events,
            control,
        ).len() == 0,
        source matches Some(SelectionData::X11 { inner: SelectionSource::Core(id), data })
            ==> writes_for(source, events, control) == served(events.requests@, id, data),
        source matches Some(SelectionData::X11 {
            inner: SelectionSource::Control { source: id, .. },
            data,
        }) ==> writes_for(source, events, control) == served(control.requests@, id, data),
{
}

/// Every request for the owner's source is served, in its order, with the kind of contents that it
/// asks for.
pub proof fn law_every_request_is_served(
    requests: Seq<SelectionRequest>,
    source: u64,
    data: u64,
    j: int,
)
    requires
        0 <= j < requests.len(),
        requests[j].source == source,
    ensures
        exists|k: int|
            0 <= k < served(requests, source, data).len() && (#[trigger] served(
                requests,
                source,
                data,
            )[k]).pipe == requests[j].pipe && served(requests, source, data)[k].mime_type
                == requests[j].mime_type@ && served(requests, source, data)[k].data == data,
    decreases requests.len(),
{
    let all = served(requests, source, data);
    let before = served(requests.drop_last(), source, data);
    if j == requests.len() - 1 {
        assert(all[all.len() - 1].pipe == requests[j].pipe);
    } else {
        law_every_request_is_served(requests.drop_last(), source, data, j);
        assert(requests.drop_last()[j] == requests[j]);
        let k = choose|k: int|
            0 <= k < before.len() && (#[trigger] before[k]).pipe == requests[j].pipe
                && before[k].mime_type == requests[j].mime_type@ && before[k].data == data;
        assert(all[k] == before[k]);
    }
}

/// A seat gives each selection its device and lets go of nothing; a source that waited is published
/// where the data control protocol is there, and waits on where it is not.
pub proof fn law_seat_brings_devices(state: SelectionState, device: u64, control: bool)
    ensures
        ({
            let after = seated(Some(state), device, control);
            &&& after is Some
            &&& after->0.device == Some(device)
            &&& after->0.offer == state.offer
            &&& !control ==> after->0.source == state.source
            &&& control ==> waiting(after) is None
            &&& after->0.source is Some == state.source is Some
            &&& (state.source matches Some(SelectionData::X11 {
                inner: SelectionSource::Control { source, published: false },
                ..
            })) ==> waiting(Some(state)) is Some
            &&& (state.source matches Some(SelectionData::Foreign(_))) ==> after->0.source
                == state.source && waiting(Some(state)) is None
        }),
        seated(None, device, control) is None,
{
}

} // verus!
