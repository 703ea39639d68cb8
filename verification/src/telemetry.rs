//! Telemetry classification: maps one raw frame received from the remote
//! guidance server to a domain snapshot, or to a classified failure.
//!
//! The transport itself (connecting, issuing the RPC) lives outside the
//! library; everything here is a pure function of the received frame.

use vstd::prelude::*;

verus! {

/// Outcome classification of one telemetry poll.
#[derive(Debug, Clone, Copy, PartialEq, Eq, Structural)]
pub enum ResponseStatus {
    /// A frame was received and carried a result.
    Success,
    /// No connection to the server could be established.
    Disconnected,
    /// The server was reachable but the call itself failed.
    RpcFailed,
    /// The server answered, but had no result available yet.
    NoState,
}

/// Mode the remote guidance server reports itself to be in.
#[derive(Debug, Clone, Copy, PartialEq, Eq, Structural)]
pub enum ServerMode {
    Unknown,
    Setup,
    Calibrating,
    Operating,
}

/// Wire value of the server's operating-mode enum meaning "setup".
pub const OPERATING_MODE_SETUP: i32 = 0;

/// Wire value of the server's operating-mode enum meaning "operate".
pub const OPERATING_MODE_OPERATE: i32 = 1;

/// Wire value of the server's mount-type enum meaning "alt-azimuth".
pub const MOUNT_TYPE_ALT_AZ: i32 = 1;

/// Angular and positional quantities are carried as integers in
/// thousandths of a unit (milli-degrees for angles), so that all of the
/// guidance logic is exact integer arithmetic.
pub type Milli = i64;

/// The slew-request portion of a raw frame, already reduced to plain values.
#[derive(Debug, Clone, Copy, PartialEq, Eq, Structural)]
pub struct WireSlew {
    /// Distance to the target along the rotation axis, in milli-units.
    pub offset_rotation_axis: Option<Milli>,
    /// Distance to the target along the tilt axis, in milli-units.
    pub offset_tilt_axis: Option<Milli>,
    /// Absolute target bearing in milli-degrees; 0 means "up" on screen,
    /// 90 000 means "left" (the server's own convention).
    pub target_angle: Option<Milli>,
}

/// One raw frame from the remote server, reduced to the plain values the
/// guidance pipeline reads.
#[derive(Debug, Clone, Copy, PartialEq, Eq, Structural)]
pub struct WireFrame {
    /// Whether the frame carries a result at all.
    pub has_result: Option<bool>,
    /// Whether the server is currently calibrating.
    pub calibrating: bool,
    /// The server's operating-mode enum, if present.
    pub operating_mode: Option<i32>,
    /// The server's mount-type enum, if present.
    pub mount_type: Option<i32>,
    /// The active slew request, if any.
    pub slew_request: Option<WireSlew>,
    /// Whether the frame carries a plate solution.
    pub has_plate_solution: bool,
}

/// One poll's worth of mapped telemetry.
#[derive(Debug, Clone, Copy, PartialEq, Eq, Structural)]
pub struct ServerState {
    pub server_mode: ServerMode,
    /// True if the mount is alt-azimuth, false if equatorial.
    pub is_alt_az: bool,
    /// Whether the server currently has an active slew target.
    pub has_slew_request: bool,
    /// Distance to the target along the rotation axis, milli-units.
    pub rotation_target_distance: Milli,
    /// Distance to the target along the tilt axis, milli-units.
    pub tilt_target_distance: Milli,
    /// Absolute target bearing, milli-degrees, wire convention (0 = up).
    pub target_angle: Milli,
    /// Whether the server currently holds a valid plate solution.
    pub has_solution: bool,
}

/// Result of one telemetry fetch: a classified status, with the mapped
/// snapshot present exactly when the status is `Success`.
#[derive(Debug, Clone, Copy, PartialEq, Eq, Structural)]
pub struct CedarResponse {
    pub status: ResponseStatus,
    pub server_state: Option<ServerState>,
}

/// Mode derived from a frame: the calibrating flag takes precedence over
/// the operating-mode enum; an absent or unrecognized enum means Unknown.
pub open spec fn spec_mode_of(frame: WireFrame) -> ServerMode {
    if frame.calibrating {
        ServerMode::Calibrating
    } else if frame.operating_mode == Some(OPERATING_MODE_SETUP) {
        ServerMode::Setup
    } else if frame.operating_mode == Some(OPERATING_MODE_OPERATE) {
        ServerMode::Operating
    } else {
        ServerMode::Unknown
    }
}

/// Snapshot mapped from a frame that carries a result: absent mount type
/// defaults to equatorial; an absent slew request defaults the offsets and
/// angle to zero.
pub open spec fn spec_snapshot_of(frame: WireFrame) -> ServerState {
    ServerState {
        server_mode: spec_mode_of(frame),
        is_alt_az: frame.mount_type == Some(MOUNT_TYPE_ALT_AZ),
        has_slew_request: frame.slew_request is Some,
        rotation_target_distance: match frame.slew_request {
            Some(slew) => match slew.offset_rotation_axis {
                Some(v) => v,
                None => 0,
            },
            None => 0,
        },
        tilt_target_distance: match frame.slew_request {
            Some(slew) => match slew.offset_tilt_axis {
                Some(v) => v,
                None => 0,
            },
            None => 0,
        },
        target_angle: match frame.slew_request {
            Some(slew) => match slew.target_angle {
                Some(v) => v,
                None => 0,
            },
            None => 0,
        },
        has_solution: frame.has_plate_solution,
    }
}

/// Full classification of a received frame: a frame without a result is
/// `NoState`; otherwise the mapped snapshot is returned as `Success`.
pub open spec fn spec_classify(frame: WireFrame) -> CedarResponse {
    if frame.has_result != Some(true) {
        CedarResponse { status: ResponseStatus::NoState, server_state: None }
    } else {
        CedarResponse {
            status: ResponseStatus::Success,
            server_state: Some(spec_snapshot_of(frame)),
        }
    }
}

/// Maps a received frame to the poll outcome. This is the computational
/// half of the telemetry client; transport failures are classified by the
/// caller as `Disconnected` or `RpcFailed` without consulting any frame.
pub fn classify_frame(frame: &WireFrame) -> (r: CedarResponse)
    ensures
        r == spec_classify(*frame),
{
    if frame.has_result != Some(true) {
        return CedarResponse { status: ResponseStatus::NoState, server_state: None };
    }

    let server_mode = if frame.calibrating {
        ServerMode::Calibrating
    } else if frame.operating_mode == Some(OPERATING_MODE_SETUP) {
        ServerMode::Setup
    } else if frame.operating_mode == Some(OPERATING_MODE_OPERATE) {
        ServerMode::Operating
    } else {
        ServerMode::Unknown
    };

    let is_alt_az = frame.mount_type == Some(MOUNT_TYPE_ALT_AZ);

    let mut has_slew_request = false;
    let mut rotation_dist: Milli = 0;
    let mut tilt_dist: Milli = 0;
    let mut target_angle: Milli = 0;

    match &frame.slew_request {
        Some(slew) => {
            has_slew_request = true;
            rotation_dist = match slew.offset_rotation_axis {
                Some(v) => v,
                None => 0,
            };
            tilt_dist = match slew.offset_tilt_axis {
                Some(v) => v,
                None => 0,
            };
            target_angle = match slew.target_angle {
                Some(v) => v,
                None => 0,
            };
        },
        None => {},
    }

    let state = ServerState {
        server_mode,
        is_alt_az,
        has_slew_request,
        rotation_target_distance: rotation_dist,
        tilt_target_distance: tilt_dist,
        target_angle,
        has_solution: frame.has_plate_solution,
    };

    CedarResponse { status: ResponseStatus::Success, server_state: Some(state) }
}

/// Law: whenever the calibrating flag is set, the derived mode is
/// Calibrating, regardless of every other field of the frame.
pub proof fn lemma_calibrating_takes_precedence(frame: WireFrame)
    requires
        frame.calibrating,
    ensures
        spec_mode_of(frame) == ServerMode::Calibrating,
{
}

/// Law: with the calibrating flag clear, the operating-mode enum alone
/// decides the derived mode, and an absent enum yields Unknown.
pub proof fn lemma_mode_mapping(frame: WireFrame)
    requires
        !frame.calibrating,
    ensures
        frame.operating_mode == Some(OPERATING_MODE_OPERATE) ==> spec_mode_of(frame)
            == ServerMode::Operating,
        frame.operating_mode == Some(OPERATING_MODE_SETUP) ==> spec_mode_of(frame)
            == ServerMode::Setup,
        frame.operating_mode is None ==> spec_mode_of(frame) == ServerMode::Unknown,
{
}

} // verus!
