//! The tray worker: turns menu commands and the passing of time into calls
//! on the application and the events the tray shows.

use vstd::prelude::*;

use crate::config::TrayLanguagePreference;
use crate::error::{rairstream_error_text, RairstreamError};
use crate::model::SpeakerDevice;
use crate::text::push_str;
use crate::tray::{
    after_stop_streaming, phase_streams, reconnect_delay, reconnect_delay_secs, tray_receiver_label, TrayI18n,
    TrayPhase, TrayReceiverEntry, TrayRuntimeState, TraySnapshot, TrayText,
};

verus! {

/// What the tray menu asks the worker to do.
#[derive(Debug, Clone, PartialEq, Eq)]
pub enum TrayCommand {
    RefreshDevices,
    SetReceiverSelected { receiver_id: String, selected: bool },
    RequestPairingPin { receiver_id: String },
    SubmitPairingPin { receiver_id: String, pin: String },
    CancelPairingPrompt,
    ForgetPairing { receiver_id: String },
    StartStreaming,
    StopStreaming,
    SetAutoReconnect { enabled: bool },
    SetLanguage { language: TrayLanguagePreference },
    Quit,
}

/// What the worker asks the tray to show or do.
#[derive(Debug, Clone, PartialEq, Eq)]
pub enum TrayEvent {
    SnapshotUpdated(TraySnapshot),
    PromptForPin { receiver_id: String, display_name: String },
    Info(String),
    Error(String),
    ExitRequested,
}

/// The application as the tray worker uses it: the receivers and settings,
/// pairing, and the capture sessions it starts and stops.
pub trait TrayFacade {
    /// A running capture-and-stream session.
    type Session;

    fn tray_receivers(&self) -> Vec<TrayReceiverEntry>;

    fn tray_language(&self) -> TrayLanguagePreference;

    fn auto_reconnect(&self) -> bool;

    /// The operating system's locale tag, if it has one.
    fn system_locale(&self) -> Option<String>;

    fn discover(&mut self) -> Result<(), RairstreamError>;

    fn set_tray_selected_receiver_ids(&mut self, receiver_ids: Vec<String>) -> Result<(), RairstreamError>;

    /// Asks the receiver to show a PIN, and gives the receiver.
    fn request_pairing_pin_display(&mut self, receiver_id: &str) -> Result<SpeakerDevice, RairstreamError>;

    fn pair(&mut self, receiver_id: &str, pin: &str) -> Result<TrayReceiverEntry, RairstreamError>;

    fn paired_forget(&mut self, receiver_id: &str) -> Result<TrayReceiverEntry, RairstreamError>;

    fn play_capture(&mut self, receiver_ids: &Vec<String>) -> Result<Self::Session, RairstreamError>;

    fn stop_capture(&mut self, session: Self::Session) -> Result<(), RairstreamError>;

    /// The error that ended a session's stream, if one did.
    fn transport_error(&self, session: &Self::Session) -> Option<RairstreamError>;

    fn set_tray_language(&mut self, language: TrayLanguagePreference) -> Result<(), RairstreamError>;

    fn set_auto_reconnect(&mut self, enabled: bool) -> Result<(), RairstreamError>;
}

/// The tray worker: the application, the tray's phase, the running session
/// and when the next reconnection attempt is due (milliseconds on the
/// caller's clock).
pub struct TrayWorker<F: TrayFacade> {
    pub facade: F,
    pub runtime: TrayRuntimeState,
    pub active_session: Option<F::Session>,
    pub reconnect_due: Option<u64>,
}

// ---------------------------------------------------------------------------
// Receiver selection

/// The ids of the selected receivers, in order.
pub open spec fn selected_ids(receivers: Seq<TrayReceiverEntry>) -> Seq<Seq<char>>
    decreases receivers.len(),
{
    if receivers.len() == 0 {
        Seq::empty()
    } else if receivers.last().is_selected {
        selected_ids(receivers.drop_last()).push(receivers.last().receiver_id@)
    } else {
        selected_ids(receivers.drop_last())
    }
}

/// The texts of a list of strings.
pub open spec fn string_views(s: Seq<String>) -> Seq<Seq<char>> {
    s.map_values(|x: String| x@)
}

/// `ids` without any occurrence of `id`.
pub open spec fn without_id(ids: Seq<Seq<char>>, id: Seq<char>) -> Seq<Seq<char>>
    decreases ids.len(),
{
    if ids.len() == 0 {
        ids
    } else if ids.last() == id {
        without_id(ids.drop_last(), id)
    } else {
        without_id(ids.drop_last(), id).push(ids.last())
    }
}

/// The ids of the selected receivers, in order.
pub fn selected_receiver_ids(receivers: &Vec<TrayReceiverEntry>) -> (r: Vec<String>)
    ensures
        string_views(r@) == selected_ids(receivers@),
{
    let mut ids: Vec<String> = Vec::new();
    let mut i: usize = 0;
    while i < receivers.len()
        invariant
            i <= receivers@.len(),
            string_views(ids@) == selected_ids(receivers@.take(i as int)),
        decreases receivers@.len() - i,
    {
        assert(receivers@.take(i + 1 as int).drop_last() =~= receivers@.take(i as int));
        if receivers[i].is_selected {
            ids.push(receivers[i].receiver_id.clone());
        }
        assert(string_views(ids@) =~= selected_ids(receivers@.take(i + 1 as int)));
        i = i + 1;
    }
    assert(receivers@.take(receivers@.len() as int) =~= receivers@);
    ids
}

/// The selection after ticking (`selected`) or unticking `receiver_id`:
/// a ticked id is added at the end unless it is there already; an unticked
/// one is removed.
pub fn updated_selection(selected_ids: Vec<String>, receiver_id: &str, selected: bool) -> (r: Vec<String>)
    ensures
        selected && string_views(selected_ids@).contains(receiver_id@) ==> string_views(r@) == string_views(
            selected_ids@,
        ),
        selected && !string_views(selected_ids@).contains(receiver_id@) ==> string_views(r@) == string_views(
            selected_ids@,
        ).push(receiver_id@),
        !selected ==> string_views(r@) == without_id(string_views(selected_ids@), receiver_id@),
{
    let ghost views = string_views(selected_ids@);
    let mut out: Vec<String> = Vec::new();
    let mut found = false;
    let mut i: usize = 0;
    while i < selected_ids.len()
        invariant
            i <= selected_ids@.len(),
            views == string_views(selected_ids@),
            found <==> views.take(i as int).contains(receiver_id@),
            selected ==> string_views(out@) == views.take(i as int),
            !selected ==> string_views(out@) == without_id(views.take(i as int), receiver_id@),
        decreases selected_ids@.len() - i,
    {
        let same = crate::text::str_eq(selected_ids[i].as_str(), receiver_id);
        assert(views.take(i + 1 as int).drop_last() =~= views.take(i as int));
        assert(views.take(i + 1 as int) =~= views.take(i as int).push(views[i as int]));
        assert(views[i as int] == selected_ids@[i as int]@);
        assert(views.take(i + 1 as int).contains(receiver_id@) <==> (views.take(i as int).contains(receiver_id@)
            || views[i as int] == receiver_id@)) by {
            if views.take(i + 1 as int).contains(receiver_id@) {
                let j = choose|j: int| 0 <= j < i + 1 && #[trigger] views.take(i + 1 as int)[j] == receiver_id@;
                if j < i {
                    assert(views.take(i as int)[j] == receiver_id@);
                }
            }
            if views.take(i as int).contains(receiver_id@) {
                let j = choose|j: int| 0 <= j < i && #[trigger] views.take(i as int)[j] == receiver_id@;
                assert(views.take(i + 1 as int)[j] == receiver_id@);
            }
            if views[i as int] == receiver_id@ {
                assert(views.take(i + 1 as int)[i as int] == receiver_id@);
            }
        }
        if same {
            found = true;
        }
        if selected || !same {
            out.push(selected_ids[i].clone());
        }
        assert(string_views(out@) =~= (if selected {
            views.take(i + 1 as int)
        } else {
            without_id(views.take(i + 1 as int), receiver_id@)
        }));
        i = i + 1;
    }
    assert(views.take(selected_ids@.len() as int) =~= views);
    if selected && !found {
        out.push(String::from_str(receiver_id));
        assert(string_views(out@) =~= views.push(receiver_id@));
    }
    out
}

// ---------------------------------------------------------------------------
// Events

/// Whether every snapshot among `events` shows `phase`.
pub open spec fn snapshots_show(events: Seq<TrayEvent>, phase: TrayPhase) -> bool {
    forall|i: int| 0 <= i < events.len() ==> (#[trigger] events[i] matches TrayEvent::SnapshotUpdated(s) ==> same_phase(phase, s.phase))
}

/// Whether two phases are the same: the same variant with the same ids.
pub open spec fn same_phase(a: TrayPhase, b: TrayPhase) -> bool {
    match (a, b) {
        (TrayPhase::Idle, TrayPhase::Idle) => true,
        (TrayPhase::WaitingForPin { receiver_id: x }, TrayPhase::WaitingForPin { receiver_id: y }) => x@ == y@,
        (TrayPhase::Streaming { receiver_ids: x }, TrayPhase::Streaming { receiver_ids: y }) => string_views(x@)
            == string_views(y@),
        (
            TrayPhase::Reconnecting { receiver_ids: x, attempt: n },
            TrayPhase::Reconnecting { receiver_ids: y, attempt: m },
        ) => string_views(x@) == string_views(y@) && n == m,
        _ => false,
    }
}

/// A single snapshot.
pub open spec fn only_snapshot(events: Seq<TrayEvent>) -> bool {
    events.len() == 1 && events[0] is SnapshotUpdated
}

/// An error, then a snapshot.
pub open spec fn error_then_snapshot(events: Seq<TrayEvent>) -> bool {
    events.len() == 2 && events[0] is Error && events[1] is SnapshotUpdated
}

/// Whether the events carry a snapshot for the menu.
pub open spec fn carries_snapshot(events: Seq<TrayEvent>) -> bool {
    exists|i: int| 0 <= i < events.len() && #[trigger] events[i] is SnapshotUpdated
}

/// Whether the events carry exactly one snapshot, at `i`.
pub open spec fn only_snapshot_at(events: Seq<TrayEvent>, i: int) -> bool {
    &&& 0 <= i < events.len()
    &&& events[i] is SnapshotUpdated
    &&& forall|j: int| 0 <= j < events.len() && j != i ==> !(#[trigger] events[j] is SnapshotUpdated)
}

/// Whether the events carry exactly one snapshot.
pub open spec fn one_snapshot(events: Seq<TrayEvent>) -> bool {
    exists|i: int| #[trigger] only_snapshot_at(events, i)
}

/// Whether any of the events asks the tray to leave.
pub open spec fn asks_exit(events: Seq<TrayEvent>) -> bool {
    exists|j: int| 0 <= j < events.len() && #[trigger] events[j] is ExitRequested
}

/// A message, then a snapshot.
pub open spec fn info_then_snapshot(events: Seq<TrayEvent>) -> bool {
    events.len() == 2 && events[0] is Info && events[1] is SnapshotUpdated
}

/// The events of a stop: an error if stopping the session failed, a
/// snapshot, and a request to leave when `exit` holds.
pub open spec fn stop_events(events: Seq<TrayEvent>, exit: bool) -> bool {
    let n: int = if exit { 1 } else { 0 };
    &&& events.len() == 1 + n || (events.len() == 2 + n && events[0] is Error)
    &&& events[events.len() - 1 - n] is SnapshotUpdated
    &&& exit ==> events[events.len() - 1] is ExitRequested
}

/// The phase after leaving a PIN prompt.
pub open spec fn phase_after_cancel(p: TrayPhase) -> TrayPhase {
    if p is WaitingForPin {
        TrayPhase::Idle
    } else {
        p
    }
}

/// A copy of a phase.
fn copy_phase(p: &TrayPhase) -> (r: TrayPhase)
    ensures
        same_phase(*p, r),
{
    match p {
        TrayPhase::Idle => TrayPhase::Idle,
        TrayPhase::WaitingForPin { receiver_id } => TrayPhase::WaitingForPin { receiver_id: receiver_id.clone() },
        TrayPhase::Streaming { receiver_ids } => {
            let ids = copy_ids(receiver_ids);
            TrayPhase::Streaming { receiver_ids: ids }
        },
        TrayPhase::Reconnecting { receiver_ids, attempt } => {
            let ids = copy_ids(receiver_ids);
            TrayPhase::Reconnecting { receiver_ids: ids, attempt: *attempt }
        },
    }
}

/// A copy of a list of ids.
fn copy_ids(ids: &Vec<String>) -> (r: Vec<String>)
    ensures
        r@ == ids@,
{
    let mut out: Vec<String> = Vec::new();
    let mut i: usize = 0;
    while i < ids.len()
        invariant
            i <= ids@.len(),
            out@ == ids@.take(i as int),
        decreases ids@.len() - i,
    {
        out.push(ids[i].clone());
        assert(out@ =~= ids@.take(i + 1 as int));
        i = i + 1;
    }
    assert(ids@.take(ids@.len() as int) =~= ids@);
    out
}

/// The text of an error that ended a stream, with the error from stopping
/// its session if that failed too.
pub fn transport_failure(error: RairstreamError, stop_error: Option<RairstreamError>) -> (r: RairstreamError)
    ensures
        stop_error is None ==> r == error,
        stop_error matches Some(s) ==> r matches RairstreamError::Playback { message } && message@
            == rairstream_error_text(error) + "; cleanup failed: "@ + rairstream_error_text(s),
{
    match stop_error {
        None => error,
        Some(stop) => {
            let mut message = error.describe();
            push_str(&mut message, "; cleanup failed: ");
            let stop_text = stop.describe();
            push_str(&mut message, stop_text.as_str());
            RairstreamError::Playback { message }
        },
    }
}

/// The answers a command gives are one of a few shapes: a snapshot alone;
/// an error, a message or a PIN prompt next to one snapshot; a stop with
/// an optional error first and an optional exit request last; or an exit
/// request alone. Each shape is read here for its snapshot and its exit
/// request.
proof fn lemma_event_shape(events: Seq<TrayEvent>)
    ensures
        only_snapshot(events) || error_then_snapshot(events) || info_then_snapshot(events) ==> one_snapshot(
            events,
        ) && carries_snapshot(events) && !asks_exit(events),
        events.len() == 2 && events[0] is SnapshotUpdated && events[1] is PromptForPin ==> one_snapshot(events)
            && carries_snapshot(events) && !asks_exit(events),
        stop_events(events, false) ==> one_snapshot(events) && carries_snapshot(events) && !asks_exit(events),
        stop_events(events, true) ==> one_snapshot(events) && carries_snapshot(events) && events.last() is ExitRequested,
        events.len() == 1 && events[0] is ExitRequested ==> events.last() is ExitRequested,
{
    if only_snapshot(events) {
        assert(only_snapshot_at(events, 0));
        assert(events[0] is SnapshotUpdated);
    }
    if error_then_snapshot(events) || info_then_snapshot(events) {
        assert(only_snapshot_at(events, 1));
        assert(events[1] is SnapshotUpdated);
    }
    if events.len() == 2 && events[0] is SnapshotUpdated && events[1] is PromptForPin {
        assert(only_snapshot_at(events, 0));
        assert(events[0] is SnapshotUpdated);
    }
    if stop_events(events, false) {
        assert(only_snapshot_at(events, events.len() - 1));
        assert(events[events.len() - 1] is SnapshotUpdated);
    }
    if stop_events(events, true) {
        assert(only_snapshot_at(events, events.len() - 2));
        assert(events[events.len() - 2] is SnapshotUpdated);
    }
}

impl<F: TrayFacade> TrayWorker<F> {
    /// A worker over `facade`, idle.
    pub fn new(facade: F) -> (r: Self)
        ensures
            r.runtime.phase == TrayPhase::Idle,
            !r.runtime.exit_after_stop,
            r.active_session is None,
            r.reconnect_due is None,
    {
        TrayWorker {
            facade,
            runtime: TrayRuntimeState { phase: TrayPhase::Idle, exit_after_stop: false },
            active_session: None,
            reconnect_due: None,
        }
    }

    /// What the tray shows now: the phase, the receivers and the settings.
    pub fn snapshot(&self) -> (r: TraySnapshot)
        ensures
            same_phase(self.runtime.phase, r.phase),
    {
        TraySnapshot {
            phase: copy_phase(&self.runtime.phase),
            receivers: self.facade.tray_receivers(),
            language: self.facade.tray_language(),
            auto_reconnect: self.facade.auto_reconnect(),
        }
    }

    fn snapshot_event(&self) -> (r: TrayEvent)
        ensures
            r matches TrayEvent::SnapshotUpdated(s) && same_phase(self.runtime.phase, s.phase),
    {
        TrayEvent::SnapshotUpdated(self.snapshot())
    }

    fn i18n(&self) -> (r: TrayI18n) {
        let system_locale = self.facade.system_locale();
        let locale_tag = match &system_locale {
            Some(tag) => Some(tag.as_str()),
            None => None,
        };
        TrayI18n::with_system_locale(self.facade.tray_language(), locale_tag)
    }

    fn error_event(error: RairstreamError) -> (r: TrayEvent)
        ensures
            r matches TrayEvent::Error(text) && text@ == rairstream_error_text(error),
    {
        TrayEvent::Error(error.describe())
    }

    /// A snapshot after a settings change, after the error if it failed.
    fn finish_config_write(&self, result: Result<(), RairstreamError>) -> (r: Vec<TrayEvent>)
        ensures
            result is Ok ==> only_snapshot(r@),
            result is Err ==> error_then_snapshot(r@),
            snapshots_show(r@, self.runtime.phase),
    {
        let mut events: Vec<TrayEvent> = Vec::new();
        if let Err(error) = result {
            events.push(Self::error_event(error));
        }
        events.push(self.snapshot_event());
        events
    }
}

// ---------------------------------------------------------------------------
// What a command or a poll does to the worker

/// Whether the worker's phase, session and reconnection time are as before.
pub open spec fn keeps_state<F: TrayFacade>(a: TrayWorker<F>, b: TrayWorker<F>) -> bool {
    &&& b.runtime == a.runtime
    &&& b.active_session == a.active_session
    &&& b.reconnect_due == a.reconnect_due
}

/// A stop: the session stopped, no reconnection pending, the tray idle,
/// and the stop's events, with a request to leave when `exit` holds or a
/// quit was waiting for the stop.
pub open spec fn stopped<F: TrayFacade>(a: TrayWorker<F>, b: TrayWorker<F>, events: Seq<TrayEvent>, exit: bool) -> bool {
    &&& b.runtime == after_stop_streaming(a.runtime).0
    &&& b.active_session is None
    &&& b.reconnect_due is None
    &&& stop_events(events, exit || a.runtime.exit_after_stop)
    &&& a.active_session is None ==> events.len() == (if exit || a.runtime.exit_after_stop { 2int } else { 1int })
}

/// The next try number, stopping at the largest one.
pub open spec fn next_attempt(attempt: u32) -> u32 {
    if attempt < u32::MAX {
        (attempt + 1) as u32
    } else {
        attempt
    }
}

/// When try number `attempt` is due, `now` being the current time in
/// milliseconds, stopping at the largest time.
pub open spec fn due_time(now: u64, attempt: u32) -> u64 {
    if now + 1000 * reconnect_delay_secs(attempt) <= u64::MAX {
        (now + 1000 * reconnect_delay_secs(attempt)) as u64
    } else {
        u64::MAX
    }
}

/// A poll with no stream error: nothing happens unless a reconnection is
/// due. A due one in the reconnecting phase rediscovers and tries again:
/// on success it streams to the same receivers, otherwise it waits for the
/// next try. A due one in another phase is dropped.
pub open spec fn reconnect_polled<F: TrayFacade>(
    a: TrayWorker<F>,
    b: TrayWorker<F>,
    events: Seq<TrayEvent>,
    now: u64,
) -> bool {
    match a.reconnect_due {
        None => events.len() == 0 && keeps_state(a, b),
        Some(due) => if now < due {
            events.len() == 0 && keeps_state(a, b)
        } else {
            match a.runtime.phase {
                TrayPhase::Reconnecting { receiver_ids, attempt } => {
                    &&& only_snapshot(events)
                    &&& ({
                        ||| {
                            &&& b.runtime.phase matches TrayPhase::Streaming { receiver_ids: ids }
                            &&& string_views(ids@) == string_views(receiver_ids@)
                            &&& !b.runtime.exit_after_stop
                            &&& b.active_session is Some
                            &&& b.reconnect_due is None
                        }
                        ||| {
                            &&& b.runtime.phase matches TrayPhase::Reconnecting { receiver_ids: ids, attempt: n }
                            &&& string_views(ids@) == string_views(receiver_ids@)
                            &&& n == next_attempt(attempt)
                            &&& !b.runtime.exit_after_stop
                            &&& b.active_session == a.active_session
                            &&& b.reconnect_due == Some(due_time(now, next_attempt(attempt)))
                        }
                    })
                },
                _ => {
                    &&& events.len() == 0
                    &&& b.runtime == a.runtime
                    &&& b.active_session == a.active_session
                    &&& b.reconnect_due is None
                },
            }
        },
    }
}

/// A stream that failed: its session is stopped and the error shown. While
/// streaming to some receivers, with reconnection on, the first try is due
/// now; otherwise the tray goes idle (and leaves if a quit was waiting).
pub open spec fn transport_failed<F: TrayFacade>(
    a: TrayWorker<F>,
    b: TrayWorker<F>,
    events: Seq<TrayEvent>,
    now: u64,
) -> bool {
    let streaming_somewhere = a.runtime.phase matches TrayPhase::Streaming { receiver_ids } && receiver_ids.len() > 0;
    &&& b.active_session is None
    &&& events.len() >= 2
    &&& events[0] is Error
    &&& events[1] is SnapshotUpdated
    &&& ({
        ||| {
            &&& streaming_somewhere
            &&& b.runtime.phase matches TrayPhase::Reconnecting { receiver_ids: ids, attempt: n }
            &&& string_views(ids@) == string_views(a.runtime.phase->Streaming_receiver_ids@)
            &&& n == 1
            &&& !b.runtime.exit_after_stop
            &&& b.reconnect_due == Some(now)
            &&& events.len() == 2
        }
        ||| {
            &&& b.runtime == after_stop_streaming(a.runtime).0
            &&& b.reconnect_due == a.reconnect_due
            &&& events.len() == (if a.runtime.exit_after_stop { 3int } else { 2int })
            &&& a.runtime.exit_after_stop ==> events[2] is ExitRequested
        }
    })
}

/// A PIN prompt: the tray waits for the PIN of the receiver it prompts
/// for, or shows why the receiver could not show a PIN.
pub open spec fn pin_prompted<F: TrayFacade>(a: TrayWorker<F>, b: TrayWorker<F>, events: Seq<TrayEvent>) -> bool {
    ||| {
        &&& events.len() == 2
        &&& events[0] is SnapshotUpdated
        &&& events[1] is PromptForPin
        &&& b.runtime.phase matches TrayPhase::WaitingForPin { receiver_id: w }
        &&& w@ == events[1]->PromptForPin_receiver_id@
        &&& b.runtime.exit_after_stop == a.runtime.exit_after_stop
        &&& b.active_session == a.active_session
        &&& b.reconnect_due == a.reconnect_due
    }
    ||| error_then_snapshot(events) && keeps_state(a, b)
}

/// A start: the tray streams to the selected receivers (there is at least
/// one), or shows why it could not.
pub open spec fn streaming_started<F: TrayFacade>(a: TrayWorker<F>, b: TrayWorker<F>, events: Seq<TrayEvent>) -> bool {
    ||| {
        &&& only_snapshot(events)
        &&& b.runtime.phase matches TrayPhase::Streaming { receiver_ids }
        &&& receiver_ids.len() > 0
        &&& !b.runtime.exit_after_stop
        &&& b.active_session is Some
        &&& b.reconnect_due is None
    }
    ||| error_then_snapshot(events) && keeps_state(a, b)
}

impl<F: TrayFacade> TrayWorker<F> {
    /// Carries out a menu command and gives the events for the tray.
    pub fn handle_command(&mut self, command: TrayCommand) -> (r: Vec<TrayEvent>)
        ensures
            snapshots_show(r@, final(self).runtime.phase),
            // Every command but a quit without a stream is answered with
            // exactly one snapshot of the new state.
            !(command is Quit && !phase_streams(old(self).runtime.phase)) ==> carries_snapshot(r@) && one_snapshot(
                r@,
            ),
            // Only a quit, or a stop that finishes an earlier quit, asks the
            // tray to leave; a quit always does, last.
            asks_exit(r@) ==> command is Quit || old(self).runtime.exit_after_stop,
            command is Quit ==> r@.len() > 0 && r@.last() is ExitRequested,
            match command {
                TrayCommand::RefreshDevices
                | TrayCommand::SetReceiverSelected { .. }
                | TrayCommand::SetAutoReconnect { .. }
                | TrayCommand::SetLanguage { .. } => keeps_state(*old(self), *final(self)) && (only_snapshot(r@)
                    || error_then_snapshot(r@)),
                TrayCommand::RequestPairingPin { .. } => pin_prompted(*old(self), *final(self), r@),
                TrayCommand::SubmitPairingPin { .. } => {
                    &&& final(self).runtime.phase == phase_after_cancel(old(self).runtime.phase)
                    &&& final(self).runtime.exit_after_stop == old(self).runtime.exit_after_stop
                    &&& final(self).active_session == old(self).active_session
                    &&& final(self).reconnect_due == old(self).reconnect_due
                    &&& info_then_snapshot(r@) || error_then_snapshot(r@)
                },
                TrayCommand::CancelPairingPrompt => {
                    &&& final(self).runtime.phase == phase_after_cancel(old(self).runtime.phase)
                    &&& final(self).runtime.exit_after_stop == old(self).runtime.exit_after_stop
                    &&& final(self).active_session == old(self).active_session
                    &&& final(self).reconnect_due == old(self).reconnect_due
                    &&& only_snapshot(r@)
                },
                TrayCommand::ForgetPairing { .. } => keeps_state(*old(self), *final(self)) && (info_then_snapshot(r@)
                    || error_then_snapshot(r@)),
                TrayCommand::StartStreaming => streaming_started(*old(self), *final(self), r@),
                TrayCommand::StopStreaming => stopped(*old(self), *final(self), r@, false),
                TrayCommand::Quit => if phase_streams(old(self).runtime.phase) {
                    stopped(*old(self), *final(self), r@, true)
                } else {
                    r@.len() == 1 && r@[0] is ExitRequested && keeps_state(*old(self), *final(self))
                },
            },
    {
        let r = match command {
            TrayCommand::RefreshDevices => self.refresh_devices(),
            TrayCommand::SetReceiverSelected { receiver_id, selected } => self.set_receiver_selected(
                receiver_id.as_str(),
                selected,
            ),
            TrayCommand::RequestPairingPin { receiver_id } => self.request_pairing_pin_display(receiver_id.as_str()),
            TrayCommand::SubmitPairingPin { receiver_id, pin } => self.submit_pairing_pin(
                receiver_id.as_str(),
                pin.as_str(),
            ),
            TrayCommand::CancelPairingPrompt => {
                self.runtime.cancel_waiting_for_pin();
                let mut events: Vec<TrayEvent> = Vec::new();
                events.push(self.snapshot_event());
                events
            },
            TrayCommand::ForgetPairing { receiver_id } => self.forget_pairing(receiver_id.as_str()),
            TrayCommand::StartStreaming => self.start_streaming(),
            TrayCommand::StopStreaming => self.stop_active_session(false),
            TrayCommand::SetAutoReconnect { enabled } => {
                let result = self.facade.set_auto_reconnect(enabled);
                self.finish_config_write(result)
            },
            TrayCommand::SetLanguage { language } => {
                let result = self.facade.set_tray_language(language);
                self.finish_config_write(result)
            },
            TrayCommand::Quit => self.quit(),
        };
        proof {
            lemma_event_shape(r@);
        }
        r
    }

    /// Checks the running stream and any reconnection that is due; `now` is
    /// the current time in milliseconds on the caller's clock.
    pub fn poll(&mut self, now: u64) -> (r: Vec<TrayEvent>)
        ensures
            snapshots_show(r@, final(self).runtime.phase),
            old(self).active_session is None ==> reconnect_polled(*old(self), *final(self), r@, now),
            old(self).active_session is Some ==> transport_failed(*old(self), *final(self), r@, now)
                || reconnect_polled(*old(self), *final(self), r@, now),
    {
        let error = match &self.active_session {
            Some(session) => self.facade.transport_error(session),
            None => None,
        };
        if let Some(error) = error {
            return self.handle_transport_error(error, now);
        }
        self.poll_reconnect(now)
    }

    fn refresh_devices(&mut self) -> (r: Vec<TrayEvent>)
        ensures
            keeps_state(*old(self), *final(self)),
            only_snapshot(r@) || error_then_snapshot(r@),
            snapshots_show(r@, final(self).runtime.phase),
    {
        let mut events: Vec<TrayEvent> = Vec::new();
        if let Err(error) = self.facade.discover() {
            events.push(Self::error_event(error));
        }
        events.push(self.snapshot_event());
        events
    }

    fn set_receiver_selected(&mut self, receiver_id: &str, selected: bool) -> (r: Vec<TrayEvent>)
        ensures
            keeps_state(*old(self), *final(self)),
            only_snapshot(r@) || error_then_snapshot(r@),
            snapshots_show(r@, final(self).runtime.phase),
    {
        let receivers = self.facade.tray_receivers();
        let ids = selected_receiver_ids(&receivers);
        let ids = updated_selection(ids, receiver_id, selected);
        let result = self.facade.set_tray_selected_receiver_ids(ids);
        self.finish_config_write(result)
    }

    fn request_pairing_pin_display(&mut self, receiver_id: &str) -> (r: Vec<TrayEvent>)
        ensures
            snapshots_show(r@, final(self).runtime.phase),
            pin_prompted(*old(self), *final(self), r@),
    {
        match self.facade.request_pairing_pin_display(receiver_id) {
            Ok(receiver) => {
                self.runtime.begin_waiting_for_pin(receiver.id.as_str());
                let mut events: Vec<TrayEvent> = Vec::new();
                events.push(self.snapshot_event());
                events.push(TrayEvent::PromptForPin { receiver_id: receiver.id, display_name: receiver.name });
                events
            },
            Err(error) => {
                let mut events: Vec<TrayEvent> = Vec::new();
                events.push(Self::error_event(error));
                events.push(self.snapshot_event());
                events
            },
        }
    }

    fn submit_pairing_pin(&mut self, receiver_id: &str, pin: &str) -> (r: Vec<TrayEvent>)
        ensures
            final(self).runtime.phase == phase_after_cancel(old(self).runtime.phase),
            final(self).runtime.exit_after_stop == old(self).runtime.exit_after_stop,
            final(self).active_session == old(self).active_session,
            final(self).reconnect_due == old(self).reconnect_due,
            info_then_snapshot(r@) || error_then_snapshot(r@),
            snapshots_show(r@, final(self).runtime.phase),
    {
        self.runtime.cancel_waiting_for_pin();
        let mut events: Vec<TrayEvent> = Vec::new();
        match self.facade.pair(receiver_id, pin) {
            Ok(entry) => {
                let label = tray_receiver_label(&entry);
                events.push(TrayEvent::Info(self.i18n().saved_pairing_for(label.as_str())));
            },
            Err(error) => {
                events.push(Self::error_event(error));
            },
        }
        events.push(self.snapshot_event());
        events
    }

    fn forget_pairing(&mut self, receiver_id: &str) -> (r: Vec<TrayEvent>)
        ensures
            keeps_state(*old(self), *final(self)),
            info_then_snapshot(r@) || error_then_snapshot(r@),
            snapshots_show(r@, final(self).runtime.phase),
    {
        let mut events: Vec<TrayEvent> = Vec::new();
        match self.facade.paired_forget(receiver_id) {
            Ok(entry) => {
                let label = tray_receiver_label(&entry);
                events.push(TrayEvent::Info(self.i18n().removed_pairing_for(label.as_str())));
            },
            Err(error) => {
                events.push(Self::error_event(error));
            },
        }
        events.push(self.snapshot_event());
        events
    }

    fn start_streaming(&mut self) -> (r: Vec<TrayEvent>)
        ensures
            snapshots_show(r@, final(self).runtime.phase),
            streaming_started(*old(self), *final(self), r@),
    {
        let receivers = self.facade.tray_receivers();
        let ids = selected_receiver_ids(&receivers);
        let mut events: Vec<TrayEvent> = Vec::new();
        if ids.len() == 0 {
            let text = self.i18n().text(TrayText::SelectPlaybackTarget);
            events.push(TrayEvent::Error(String::from_str(text)));
            events.push(self.snapshot_event());
            return events;
        }
        match self.facade.play_capture(&ids) {
            Ok(session) => {
                self.active_session = Some(session);
                self.reconnect_due = None;
                self.runtime.start_streaming(ids);
                events.push(self.snapshot_event());
            },
            Err(error) => {
                events.push(Self::error_event(error));
                events.push(self.snapshot_event());
            },
        }
        events
    }

    fn quit(&mut self) -> (r: Vec<TrayEvent>)
        ensures
            snapshots_show(r@, final(self).runtime.phase),
            phase_streams(old(self).runtime.phase) ==> stopped(*old(self), *final(self), r@, true),
            !phase_streams(old(self).runtime.phase) ==> r@.len() == 1 && r@[0] is ExitRequested && keeps_state(
                *old(self),
                *final(self),
            ),
    {
        match self.runtime.request_quit() {
            crate::tray::QuitAction::ExitNow => {
                let mut events: Vec<TrayEvent> = Vec::new();
                events.push(TrayEvent::ExitRequested);
                events
            },
            crate::tray::QuitAction::StopStreamingFirst => self.stop_active_session(true),
        }
    }

    fn stop_active_session(&mut self, exit_after_stop: bool) -> (r: Vec<TrayEvent>)
        ensures
            snapshots_show(r@, final(self).runtime.phase),
            stopped(*old(self), *final(self), r@, exit_after_stop),
    {
        let mut events: Vec<TrayEvent> = Vec::new();
        self.reconnect_due = None;
        if let Some(session) = self.active_session.take() {
            if let Err(error) = self.facade.stop_capture(session) {
                events.push(Self::error_event(error));
            }
        }
        let should_exit = self.runtime.stop_streaming();
        events.push(self.snapshot_event());
        if exit_after_stop || should_exit {
            events.push(TrayEvent::ExitRequested);
        }
        events
    }

    fn handle_transport_error(&mut self, error: RairstreamError, now: u64) -> (r: Vec<TrayEvent>)
        ensures
            snapshots_show(r@, final(self).runtime.phase),
            transport_failed(*old(self), *final(self), r@, now),
    {
        let receiver_ids = match &self.runtime.phase {
            TrayPhase::Streaming { receiver_ids } => copy_ids(receiver_ids),
            _ => Vec::new(),
        };
        let stop_error = match self.active_session.take() {
            Some(session) => match self.facade.stop_capture(session) {
                Ok(()) => None,
                Err(stop_error) => Some(stop_error),
            },
            None => None,
        };
        let error = transport_failure(error, stop_error);
        let mut events: Vec<TrayEvent> = Vec::new();
        if self.facade.auto_reconnect() && receiver_ids.len() > 0 {
            self.runtime.begin_reconnecting(receiver_ids, 1);
            self.reconnect_due = Some(now);
            events.push(Self::error_event(error));
            events.push(self.snapshot_event());
            return events;
        }
        let should_exit = self.runtime.stop_streaming();
        events.push(Self::error_event(error));
        events.push(self.snapshot_event());
        if should_exit {
            events.push(TrayEvent::ExitRequested);
        }
        events
    }

    fn poll_reconnect(&mut self, now: u64) -> (r: Vec<TrayEvent>)
        ensures
            snapshots_show(r@, final(self).runtime.phase),
            reconnect_polled(*old(self), *final(self), r@, now),
    {
        let due = match self.reconnect_due {
            Some(due) => due,
            None => {
                return Vec::new();
            },
        };
        if now < due {
            return Vec::new();
        }
        let (receiver_ids, attempt) = match &self.runtime.phase {
            TrayPhase::Reconnecting { receiver_ids, attempt } => (copy_ids(receiver_ids), *attempt),
            _ => {
                self.reconnect_due = None;
                return Vec::new();
            },
        };
        let _ = self.facade.discover();
        let mut events: Vec<TrayEvent> = Vec::new();
        match self.facade.play_capture(&receiver_ids) {
            Ok(session) => {
                self.active_session = Some(session);
                self.reconnect_due = None;
                self.runtime.start_streaming(receiver_ids);
            },
            Err(_) => {
                let next = if attempt < u32::MAX {
                    attempt + 1
                } else {
                    attempt
                };
                let delay_ms = reconnect_delay(next) * 1000;
                let next_due = if now <= u64::MAX - delay_ms {
                    now + delay_ms
                } else {
                    u64::MAX
                };
                self.runtime.begin_reconnecting(receiver_ids, next);
                self.reconnect_due = Some(next_due);
            },
        }
        events.push(self.snapshot_event());
        events
    }
}

} // verus!
