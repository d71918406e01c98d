use rairstream::config::TrayLanguagePreference;
use rairstream::error::RairstreamError;
use rairstream::model::{AirPlayGeneration, DeviceSupport, ReceiverKind, SpeakerDevice};
use rairstream::tray::{TrayPhase, TrayReceiverEntry};
use rairstream::worker::{
    selected_receiver_ids, transport_failure, updated_selection, TrayCommand, TrayEvent, TrayFacade, TrayWorker,
};

/// An application stand-in that records what the worker asks of it.
struct StubFacade {
    receivers: Vec<TrayReceiverEntry>,
    language: TrayLanguagePreference,
    auto_reconnect: bool,
    discover_fails: bool,
    play_failures_left: u32,
    next_session: u32,
    stopped_sessions: Vec<u32>,
    stream_error: Option<RairstreamError>,
    selections: Vec<Vec<String>>,
}

fn entry(id: &str, name: &str, selected: bool, paired: bool) -> TrayReceiverEntry {
    TrayReceiverEntry {
        receiver_id: id.to_string(),
        display_name: Some(name.to_string()),
        host: String::from("192.168.1.10"),
        is_selected: selected,
        is_paired: paired,
    }
}

fn stub(receivers: Vec<TrayReceiverEntry>) -> StubFacade {
    StubFacade {
        receivers,
        language: TrayLanguagePreference::EnUs,
        auto_reconnect: true,
        discover_fails: false,
        play_failures_left: 0,
        next_session: 1,
        stopped_sessions: Vec::new(),
        stream_error: None,
        selections: Vec::new(),
    }
}

fn failure(message: &str) -> RairstreamError {
    RairstreamError::Playback { message: message.to_string() }
}

impl TrayFacade for StubFacade {
    type Session = u32;

    fn tray_receivers(&self) -> Vec<TrayReceiverEntry> {
        self.receivers.clone()
    }

    fn tray_language(&self) -> TrayLanguagePreference {
        self.language
    }

    fn auto_reconnect(&self) -> bool {
        self.auto_reconnect
    }

    fn system_locale(&self) -> Option<String> {
        None
    }

    fn discover(&mut self) -> Result<(), RairstreamError> {
        if self.discover_fails {
            Err(failure("discovery failed"))
        } else {
            Ok(())
        }
    }

    fn set_tray_selected_receiver_ids(&mut self, receiver_ids: Vec<String>) -> Result<(), RairstreamError> {
        for receiver in &mut self.receivers {
            receiver.is_selected = receiver_ids.contains(&receiver.receiver_id);
        }
        self.selections.push(receiver_ids);
        Ok(())
    }

    fn request_pairing_pin_display(&mut self, receiver_id: &str) -> Result<SpeakerDevice, RairstreamError> {
        match self.receivers.iter().find(|r| r.receiver_id == receiver_id) {
            Some(receiver) => Ok(SpeakerDevice {
                id: receiver.receiver_id.clone(),
                name: receiver.display_name.clone().unwrap_or_default(),
                host: receiver.host.clone(),
                port: 7000,
                generation: AirPlayGeneration::AirPlay2,
                pairing_id: None,
                receiver_public_key: None,
                receiver_kind: ReceiverKind::ModernAirPlayAuth,
                support: DeviceSupport::Supported,
            }),
            None => Err(RairstreamError::InvalidConfiguration { message: format!("unknown {receiver_id}") }),
        }
    }

    fn pair(&mut self, receiver_id: &str, _pin: &str) -> Result<TrayReceiverEntry, RairstreamError> {
        let receiver = self.receivers.iter_mut().find(|r| r.receiver_id == receiver_id).unwrap();
        receiver.is_paired = true;
        Ok(receiver.clone())
    }

    fn paired_forget(&mut self, receiver_id: &str) -> Result<TrayReceiverEntry, RairstreamError> {
        let receiver = self.receivers.iter_mut().find(|r| r.receiver_id == receiver_id).unwrap();
        receiver.is_paired = false;
        Ok(receiver.clone())
    }

    fn play_capture(&mut self, _receiver_ids: &Vec<String>) -> Result<u32, RairstreamError> {
        if self.play_failures_left > 0 {
            self.play_failures_left -= 1;
            return Err(failure("receiver unreachable"));
        }
        self.next_session += 1;
        Ok(self.next_session)
    }

    fn stop_capture(&mut self, session: u32) -> Result<(), RairstreamError> {
        self.stopped_sessions.push(session);
        Ok(())
    }

    fn transport_error(&self, _session: &u32) -> Option<RairstreamError> {
        self.stream_error.clone()
    }

    fn set_tray_language(&mut self, language: TrayLanguagePreference) -> Result<(), RairstreamError> {
        self.language = language;
        Ok(())
    }

    fn set_auto_reconnect(&mut self, enabled: bool) -> Result<(), RairstreamError> {
        self.auto_reconnect = enabled;
        Ok(())
    }
}

fn snapshot_phase(event: &TrayEvent) -> TrayPhase {
    match event {
        TrayEvent::SnapshotUpdated(snapshot) => snapshot.phase.clone(),
        other => panic!("expected a snapshot, got {other:?}"),
    }
}

#[test]
fn worker_updates_selected_receivers_and_emits_snapshot() {
    let mut worker = TrayWorker::new(stub(vec![entry("living-room", "Living Room", false, false)]));

    let events = worker.handle_command(TrayCommand::SetReceiverSelected {
        receiver_id: String::from("living-room"),
        selected: true,
    });

    assert!(matches!(
        &events[..],
        [TrayEvent::SnapshotUpdated(snapshot)] if snapshot.receivers[0].is_selected
    ));
    assert_eq!(worker.facade.selections, vec![vec![String::from("living-room")]]);

    let events = worker.handle_command(TrayCommand::SetReceiverSelected {
        receiver_id: String::from("living-room"),
        selected: false,
    });
    assert!(matches!(
        &events[..],
        [TrayEvent::SnapshotUpdated(snapshot)] if !snapshot.receivers[0].is_selected
    ));
    assert_eq!(worker.facade.selections[1], Vec::<String>::new());
}

#[test]
fn worker_refresh_preserves_cached_snapshot_after_discovery_failure() {
    let mut facade = stub(vec![entry("kitchen", "Kitchen", false, false)]);
    facade.discover_fails = true;
    let mut worker = TrayWorker::new(facade);

    let events = worker.handle_command(TrayCommand::RefreshDevices);

    assert!(matches!(
        &events[..],
        [TrayEvent::Error(_), TrayEvent::SnapshotUpdated(snapshot)]
            if snapshot.receivers.len() == 1 && snapshot.receivers[0].receiver_id == "kitchen"
    ));
}

#[test]
fn worker_forget_pairing_emits_info_and_snapshot() {
    let mut worker = TrayWorker::new(stub(vec![entry("office", "Office", false, true)]));

    let events = worker.handle_command(TrayCommand::ForgetPairing { receiver_id: String::from("office") });

    assert!(matches!(
        &events[..],
        [TrayEvent::Info(_), TrayEvent::SnapshotUpdated(snapshot)] if !snapshot.receivers[0].is_paired
    ));
}

#[test]
fn worker_requests_pin_and_enters_waiting_state() {
    let mut worker = TrayWorker::new(stub(vec![entry("living-room", "Living Room", false, false)]));

    let events = worker.handle_command(TrayCommand::RequestPairingPin { receiver_id: String::from("living-room") });

    assert_eq!(events.len(), 2);
    assert_eq!(snapshot_phase(&events[0]), TrayPhase::WaitingForPin { receiver_id: String::from("living-room") });
    assert_eq!(
        events[1],
        TrayEvent::PromptForPin { receiver_id: String::from("living-room"), display_name: String::from("Living Room") }
    );

    let events = worker.handle_command(TrayCommand::SubmitPairingPin {
        receiver_id: String::from("living-room"),
        pin: String::from("1234"),
    });
    assert_eq!(events.len(), 2);
    assert_eq!(events[0], TrayEvent::Info(String::from("saved pairing for Living Room")));
    assert_eq!(snapshot_phase(&events[1]), TrayPhase::Idle);
}

#[test]
fn worker_pin_request_for_an_unknown_receiver_reports_the_error() {
    let mut worker = TrayWorker::new(stub(Vec::new()));

    let events = worker.handle_command(TrayCommand::RequestPairingPin { receiver_id: String::from("nowhere") });

    assert!(matches!(&events[..], [TrayEvent::Error(_), TrayEvent::SnapshotUpdated(_)]));
    assert_eq!(snapshot_phase(&events[1]), TrayPhase::Idle);
    let events = worker.handle_command(TrayCommand::CancelPairingPrompt);
    assert_eq!(events.len(), 1);
    assert_eq!(snapshot_phase(&events[0]), TrayPhase::Idle);
}

#[test]
fn worker_needs_a_selected_target_to_stream() {
    let mut worker = TrayWorker::new(stub(vec![entry("den", "Den", false, false)]));

    let events = worker.handle_command(TrayCommand::StartStreaming);

    assert_eq!(events[0], TrayEvent::Error(String::from("select at least one playback target")));
    assert_eq!(snapshot_phase(&events[1]), TrayPhase::Idle);
    assert!(worker.active_session.is_none());
}

#[test]
fn worker_quit_while_streaming_stops_first_then_exits() {
    let mut worker = TrayWorker::new(stub(vec![entry("den", "Den", true, false)]));
    let events = worker.handle_command(TrayCommand::StartStreaming);
    assert_eq!(snapshot_phase(&events[0]), TrayPhase::Streaming { receiver_ids: vec![String::from("den")] });
    let session = worker.active_session.unwrap();

    let events = worker.handle_command(TrayCommand::Quit);

    assert_eq!(events.len(), 2);
    assert_eq!(snapshot_phase(&events[0]), TrayPhase::Idle);
    assert_eq!(events[1], TrayEvent::ExitRequested);
    assert_eq!(worker.facade.stopped_sessions, vec![session]);
    assert!(worker.active_session.is_none());

    let events = worker.handle_command(TrayCommand::Quit);
    assert_eq!(events, vec![TrayEvent::ExitRequested]);
}

#[test]
fn worker_stop_streaming_goes_idle_without_exiting() {
    let mut worker = TrayWorker::new(stub(vec![entry("den", "Den", true, false)]));
    worker.handle_command(TrayCommand::StartStreaming);

    let events = worker.handle_command(TrayCommand::StopStreaming);

    assert_eq!(events.len(), 1);
    assert_eq!(snapshot_phase(&events[0]), TrayPhase::Idle);
}

#[test]
fn worker_reconnects_with_capped_backoff_after_a_stream_error() {
    let mut worker = TrayWorker::new(stub(vec![entry("den", "Den", true, false)]));
    worker.handle_command(TrayCommand::StartStreaming);
    assert!(worker.poll(1_000).is_empty());

    worker.facade.stream_error = Some(failure("connection reset"));
    worker.facade.play_failures_left = 1;
    let events = worker.poll(10_000);
    assert_eq!(events[0], TrayEvent::Error(String::from("播放失败: connection reset")));
    assert_eq!(
        snapshot_phase(&events[1]),
        TrayPhase::Reconnecting { receiver_ids: vec![String::from("den")], attempt: 1 }
    );
    assert_eq!(worker.reconnect_due, Some(10_000));
    assert!(worker.active_session.is_none());
    worker.facade.stream_error = None;

    let events = worker.poll(10_000);
    assert_eq!(
        snapshot_phase(&events[0]),
        TrayPhase::Reconnecting { receiver_ids: vec![String::from("den")], attempt: 2 }
    );
    assert_eq!(worker.reconnect_due, Some(12_000));

    assert!(worker.poll(11_999).is_empty());
    let events = worker.poll(12_000);
    assert_eq!(snapshot_phase(&events[0]), TrayPhase::Streaming { receiver_ids: vec![String::from("den")] });
    assert_eq!(worker.reconnect_due, None);
    assert!(worker.active_session.is_some());
}

#[test]
fn worker_without_auto_reconnect_goes_idle_after_a_stream_error() {
    let mut facade = stub(vec![entry("den", "Den", true, false)]);
    facade.auto_reconnect = false;
    let mut worker = TrayWorker::new(facade);
    worker.handle_command(TrayCommand::StartStreaming);
    worker.facade.stream_error = Some(failure("connection reset"));

    let events = worker.poll(5);

    assert_eq!(events.len(), 2);
    assert_eq!(snapshot_phase(&events[1]), TrayPhase::Idle);
    assert_eq!(worker.reconnect_due, None);
}

#[test]
fn worker_settings_changes_emit_a_snapshot() {
    let mut worker = TrayWorker::new(stub(Vec::new()));

    let events = worker.handle_command(TrayCommand::SetLanguage { language: TrayLanguagePreference::ZhCn });
    assert!(matches!(
        &events[..],
        [TrayEvent::SnapshotUpdated(snapshot)] if snapshot.language == TrayLanguagePreference::ZhCn
    ));
    let events = worker.handle_command(TrayCommand::SetAutoReconnect { enabled: false });
    assert!(matches!(&events[..], [TrayEvent::SnapshotUpdated(snapshot)] if !snapshot.auto_reconnect));
}

#[test]
fn selection_helpers_keep_order_and_drop_duplicates() {
    let receivers = vec![entry("a", "A", true, false), entry("b", "B", false, false), entry("c", "C", true, false)];
    assert_eq!(selected_receiver_ids(&receivers), vec![String::from("a"), String::from("c")]);

    let ids = vec![String::from("a"), String::from("c")];
    assert_eq!(updated_selection(ids.clone(), "c", true), ids);
    assert_eq!(
        updated_selection(ids.clone(), "b", true),
        vec![String::from("a"), String::from("c"), String::from("b")]
    );
    assert_eq!(
        updated_selection(vec![String::from("a"), String::from("c"), String::from("a")], "a", false),
        vec![String::from("c")]
    );
}

#[test]
fn transport_failure_names_a_failed_cleanup() {
    let error = transport_failure(failure("reset"), Some(failure("stuck")));
    assert_eq!(error, RairstreamError::Playback { message: String::from("播放失败: reset; cleanup failed: 播放失败: stuck") });
    assert_eq!(transport_failure(failure("reset"), None), failure("reset"));
}
