use cedar_display::guidance::describe;
use cedar_display::guidance::DrawState;
use cedar_display::guidance::GuidanceMemory;
use cedar_display::telemetry::CedarResponse;
use cedar_display::telemetry::ResponseStatus;
use cedar_display::telemetry::ServerMode;
use cedar_display::telemetry::ServerState;

fn snapshot(mode: ServerMode, slewing: bool, solved: bool) -> ServerState {
    ServerState {
        server_mode: mode,
        is_alt_az: false,
        has_slew_request: slewing,
        rotation_target_distance: 1500,
        tilt_target_distance: -2500,
        target_angle: 45000,
        has_solution: solved,
    }
}

fn success(s: ServerState) -> CedarResponse {
    CedarResponse { status: ResponseStatus::Success, server_state: Some(s) }
}

#[test]
fn stale_memory_advances_phase_by_nine() {
    let active = snapshot(ServerMode::Operating, true, false);
    let idle = snapshot(ServerMode::Operating, false, false);

    let mut mem = GuidanceMemory::new();
    let r1 = mem.advance(&success(active));
    assert_eq!(r1, DrawState::Operating(active, None));

    let r2 = mem.advance(&success(idle));
    assert_eq!(r2, DrawState::Operating(active, Some(0)));

    let r3 = mem.advance(&success(idle));
    assert_eq!(r3, DrawState::Operating(active, Some(9)));
    assert_eq!(mem.stale_animation_phase, 18);
}

#[test]
fn stale_phase_wraps_at_full_circle() {
    let active = snapshot(ServerMode::Operating, true, false);
    let idle = snapshot(ServerMode::Operating, false, false);

    let mut mem = GuidanceMemory::new();
    mem.advance(&success(active));
    for _ in 0..39 {
        mem.advance(&success(idle));
    }
    assert_eq!(mem.stale_animation_phase, 351);
    let r = mem.advance(&success(idle));
    assert_eq!(r, DrawState::Operating(active, Some(351)));
    assert_eq!(mem.stale_animation_phase, 0);
}

#[test]
fn fresh_solution_clears_memory_before_stale_fallback() {
    let active = snapshot(ServerMode::Operating, true, false);
    let solved = snapshot(ServerMode::Operating, false, true);

    let mut mem = GuidanceMemory::new();
    mem.advance(&success(active));
    let r = mem.advance(&success(solved));
    assert_eq!(r, DrawState::Message("No Target".to_string()));
    assert!(mem.last_active_snapshot.is_none());
}

#[test]
fn non_success_outcomes_show_message_and_keep_memory() {
    let active = snapshot(ServerMode::Operating, true, false);
    let mut mem = GuidanceMemory::new();
    mem.advance(&success(active));

    for status in [
        ResponseStatus::Disconnected,
        ResponseStatus::RpcFailed,
        ResponseStatus::NoState,
    ] {
        let r = mem.advance(&CedarResponse { status, server_state: None });
        assert!(matches!(r, DrawState::Message(_)));
        assert_eq!(mem.last_active_snapshot, Some(active));
        assert_eq!(mem.stale_animation_phase, 0);
    }
}

#[test]
fn status_labels_are_distinct() {
    assert_eq!(describe(ResponseStatus::Disconnected), "Disconnected");
    assert_eq!(describe(ResponseStatus::RpcFailed), "RpcFailed");
    assert_eq!(describe(ResponseStatus::NoState), "NoState");
}

#[test]
fn disconnection_message_text() {
    let mut mem = GuidanceMemory::new();
    let r = mem.advance(&CedarResponse {
        status: ResponseStatus::Disconnected,
        server_state: None,
    });
    assert_eq!(r, DrawState::Message("Disconnected".to_string()));
}

#[test]
fn calibrating_and_setup_messages() {
    let mut mem = GuidanceMemory::new();

    let r = mem.advance(&success(snapshot(ServerMode::Calibrating, false, false)));
    assert_eq!(r, DrawState::Message("Calibrating".to_string()));

    let r = mem.advance(&success(snapshot(ServerMode::Setup, false, false)));
    assert_eq!(r, DrawState::Message("Setup Mode".to_string()));

    let r = mem.advance(&success(snapshot(ServerMode::Unknown, false, false)));
    assert_eq!(r, DrawState::Message("Setup Mode".to_string()));
}

#[test]
fn no_target_without_remembered_slew() {
    let idle = snapshot(ServerMode::Operating, false, false);
    let mut mem = GuidanceMemory::new();
    let r = mem.advance(&success(idle));
    assert_eq!(r, DrawState::Message("No Target".to_string()));
    assert_eq!(mem.stale_animation_phase, 0);
}

#[test]
fn non_operating_modes_do_not_store_slew() {
    let mut mem = GuidanceMemory::new();
    mem.advance(&success(snapshot(ServerMode::Calibrating, true, false)));
    assert!(mem.last_active_snapshot.is_none());
    mem.advance(&success(snapshot(ServerMode::Setup, true, false)));
    assert!(mem.last_active_snapshot.is_none());
}
