//! Per-device logic: the logical-to-external input remap, the external-to-
//! hardware image position map, the shared error-handling policy, and the
//! device task's lifecycle state machine.
//!
//! The surrounding program owns the transport, the timers and the host
//! connection; it feeds each outcome into these functions and performs the
//! sink events and shutdown calls they hand back.

use vstd::prelude::*;
use crate::error::{DeviceError, spec_is_content_error, is_content_error};
use crate::mappings::{CandidateDevice, DEVICE_TYPE, ROW_COUNT, COL_COUNT, ENCODER_COUNT};
use crate::registry::Registry;

verus! {

/// External (host-side) position of the top-left input-only key.
pub const N1_UI_POS_TOP_LEFT: u8 = 0;

/// External position of the top-middle input-only key.
pub const N1_UI_POS_TOP_MIDDLE: u8 = 1;

/// External position of the top-right encoder spot (input-only).
pub const N1_UI_POS_TOP_RIGHT_ENCODER: u8 = 2;

/// External positions of the three secondary display segments.
pub const N1_UI_POS_LCD_LEFT: u8 = 3;
pub const N1_UI_POS_LCD_MIDDLE: u8 = 4;
pub const N1_UI_POS_LCD_RIGHT: u8 = 5;

/// External grid range that maps onto the hardware key slots.
pub const N1_UI_GRID_START: u8 = 6;
pub const N1_UI_GRID_END: u8 = 20;

/// Logical indices of the two top physical keys in decoded input.
pub const N1_LOGICAL_TOP_LEFT: u8 = 15;
pub const N1_LOGICAL_TOP_RIGHT: u8 = 16;

/// Hardware image-slot range for the standard keys.
pub const N1_HW_KEY_START: u8 = 0;
pub const N1_HW_KEY_END: u8 = 14;

/// Hardware image-slot range for the secondary display segments.
pub const N1_HW_SEGMENT_START: u8 = 15;
pub const N1_HW_SEGMENT_END: u8 = 17;

/// Seconds between keepalive probes.
pub const KEEPALIVE_INTERVAL_SECS: u64 = 10;

/// The input-direction remap: decoded logical key index to external key
/// index. The display-key block shifts up by the grid offset; the two top
/// keys go to their two dedicated external slots; everything else is
/// unmapped and dropped.
pub open spec fn spec_map_input_key(key: u8) -> Option<u8> {
    if key <= 14 {
        Some((key + N1_UI_GRID_START) as u8)
    } else if key == N1_LOGICAL_TOP_LEFT {
        Some(N1_UI_POS_TOP_LEFT)
    } else if key == N1_LOGICAL_TOP_RIGHT {
        Some(N1_UI_POS_TOP_MIDDLE)
    } else {
        None
    }
}

/// Remaps one decoded logical key index to the external index the host
/// uses; unmapped keys yield nothing and are dropped silently.
pub fn map_input_key_to_ui(key: u8) -> (r: Option<u8>)
    ensures
        r == spec_map_input_key(key),
{
    match key {
        0..=14 => Some(key + N1_UI_GRID_START),
        N1_LOGICAL_TOP_LEFT => Some(N1_UI_POS_TOP_LEFT),
        N1_LOGICAL_TOP_RIGHT => Some(N1_UI_POS_TOP_MIDDLE),
        _ => None,
    }
}

/// The image-direction map: external position to hardware image slot.
/// The three input-only top positions map to no slot at all (a silent
/// no-op); the three segment positions map to the three fixed segment
/// slots; the grid range maps down by the grid offset onto the key slots;
/// everything else is a malformed request.
pub open spec fn spec_map_image_position(position: u8) -> Result<Option<u8>, DeviceError> {
    if position == N1_UI_POS_TOP_LEFT || position == N1_UI_POS_TOP_MIDDLE || position
        == N1_UI_POS_TOP_RIGHT_ENCODER {
        Ok(None)
    } else if position == N1_UI_POS_LCD_LEFT {
        Ok(Some(N1_HW_SEGMENT_START))
    } else if position == N1_UI_POS_LCD_MIDDLE {
        Ok(Some((N1_HW_SEGMENT_START + 1) as u8))
    } else if position == N1_UI_POS_LCD_RIGHT {
        Ok(Some(N1_HW_SEGMENT_END))
    } else if N1_UI_GRID_START <= position <= N1_UI_GRID_END {
        Ok(Some((position - N1_UI_GRID_START) as u8))
    } else {
        Err(DeviceError::BadData)
    }
}

/// Maps an external position to the hardware image slot an image write or
/// clear should land on; `None` marks an input-only position whose request
/// is silently skipped.
pub fn map_key_image_position_to_hw(position: u8) -> (r: Result<Option<u8>, DeviceError>)
    ensures
        r == spec_map_image_position(position),
{
    let mapped: u8 = match position {
        N1_UI_POS_TOP_LEFT | N1_UI_POS_TOP_MIDDLE | N1_UI_POS_TOP_RIGHT_ENCODER => {
            return Ok(None);
        },
        N1_UI_POS_LCD_LEFT => {
            return Ok(Some(15));
        },
        N1_UI_POS_LCD_MIDDLE => {
            return Ok(Some(16));
        },
        N1_UI_POS_LCD_RIGHT => {
            return Ok(Some(17));
        },
        N1_UI_GRID_START..=N1_UI_GRID_END => position - N1_UI_GRID_START,
        _ => {
            return Err(DeviceError::BadData);
        },
    };

    if N1_HW_KEY_START <= mapped && mapped <= N1_HW_KEY_END {
        Ok(Some(mapped))
    } else {
        Err(DeviceError::BadData)
    }
}

/// The image-position map is total and shaped as announced: the three
/// input-only positions are silent no-ops, the three segment positions hit
/// their three distinct fixed slots, and the grid range lands bijectively
/// on the standard key-slot range via the fixed offset; everything outside
/// is a malformed request.
pub proof fn lemma_image_position_map_shape()
    ensures
        forall|p: u8| p <= 2 ==> spec_map_image_position(p) == Ok::<Option<u8>, DeviceError>(None),
        spec_map_image_position(N1_UI_POS_LCD_LEFT) == Ok::<Option<u8>, DeviceError>(Some(15u8)),
        spec_map_image_position(N1_UI_POS_LCD_MIDDLE) == Ok::<Option<u8>, DeviceError>(
            Some(16u8),
        ),
        spec_map_image_position(N1_UI_POS_LCD_RIGHT) == Ok::<Option<u8>, DeviceError>(Some(17u8)),
        forall|p: u8|
            N1_UI_GRID_START <= p <= N1_UI_GRID_END ==> spec_map_image_position(p) == Ok::<
                Option<u8>,
                DeviceError,
            >(Some((p - N1_UI_GRID_START) as u8)),
        // injective on the grid range
        forall|p1: u8, p2: u8|
            N1_UI_GRID_START <= p1 <= N1_UI_GRID_END && N1_UI_GRID_START <= p2 <= N1_UI_GRID_END
                && p1 != p2 ==> spec_map_image_position(p1) != spec_map_image_position(p2),
        // onto the whole standard key-slot range
        forall|hw: u8|
            N1_HW_KEY_START <= hw <= N1_HW_KEY_END ==> spec_map_image_position(
                (hw + N1_UI_GRID_START) as u8,
            ) == Ok::<Option<u8>, DeviceError>(Some(hw)),
        forall|p: u8|
            p > N1_UI_GRID_END ==> spec_map_image_position(p) == Err::<
                Option<u8>,
                DeviceError,
            >(DeviceError::BadData),
{
}

/// Shared error policy, the single point of truth for device removal:
/// returns true when the device task should continue, false when the error
/// was fatal and cleanup was performed.
///
/// Content-level errors are recoverable: the task continues and no state
/// moves. Everything else is fatal for the device: it must be deregistered
/// from the sink, its cancellation signal is fired, and its registry entry
/// is removed. Invoking it again on the same id afterwards changes nothing.
pub fn handle_error(reg: &mut Registry, id: &String, err: &DeviceError) -> (r: bool)
    requires
        old(reg).wf(),
    ensures
        final(reg).wf(),
        r == spec_is_content_error(*err),
        spec_is_content_error(*err) ==> final(reg).devices@ == old(reg).devices@ && final(reg).signals@ == old(reg).signals@,
        !spec_is_content_error(*err) ==> {
            &&& !final(reg).has_device(id@)
            &&& forall|x: Seq<char>|
                x != id@ ==> #[trigger] final(reg).has_device(x) == old(reg).has_device(x)
            &&& forall|x: Seq<char>| #[trigger]
                final(reg).has_signal(x) == old(reg).has_signal(x)
            &&& forall|x: Seq<char>| #[trigger]
                final(reg).signal_fired(x) == (old(reg).signal_fired(x) || (x == id@ && old(reg).has_signal(x)))
            &&& (!old(reg).has_device(id@) && (old(reg).signal_fired(id@) || !old(reg).has_signal(id@)) ==> final(reg).devices@ == old(reg).devices@ && final(reg).signals@
                == old(reg).signals@)
        },
{
    if is_content_error(err) {
        return true;
    }
    reg.fire_signal(id);
    reg.remove_device(id);
    false
}

/// Lifecycle phase of one device task.
#[derive(Debug, Clone, Copy, PartialEq, Eq, Structural)]
pub enum TaskPhase {
    Connecting,
    Initializing,
    Registered,
    Running,
    ShuttingDown,
    Terminated,
}

/// One decoded state transition handed up by the transport reader.
#[derive(Debug, Clone, Copy, PartialEq, Eq, Structural)]
pub enum StateUpdate {
    ButtonDown(u8),
    ButtonUp(u8),
    EncoderDown(u8),
    EncoderUp(u8),
    EncoderTwist(u8, i8),
}

/// One call owed to the external event sink.
#[derive(Debug, Clone, PartialEq)]
pub enum SinkEvent {
    RegisterDevice { id: String, name: String, rows: u8, cols: u8, encoders: u8, device_type: u8 },
    DeregisterDevice { id: String },
    KeyDown { id: String, key: u8 },
    KeyUp { id: String, key: u8 },
    EncoderDown { id: String, encoder: u8 },
    EncoderUp { id: String, encoder: u8 },
    EncoderChange { id: String, encoder: u8, delta: i16 },
}

/// One device task: the candidate it owns and the phase it is in.
#[derive(Debug, Clone)]
pub struct DeviceTask {
    pub candidate: CandidateDevice,
    pub phase: TaskPhase,
}

impl DeviceTask {
    /// A freshly spawned task starts connecting.
    pub fn start(candidate: CandidateDevice) -> (t: DeviceTask)
        ensures
            t.phase is Connecting,
            t.candidate == candidate,
    {
        DeviceTask { candidate, phase: TaskPhase::Connecting }
    }

    /// The transport session outcome. Success moves on to initialization;
    /// failure runs the shared error policy and ends the task without it
    /// ever being registered.
    pub fn on_connect_result(&mut self, reg: &mut Registry, err: Option<&DeviceError>)
        requires
            old(self).phase is Connecting,
            old(reg).wf(),
        ensures
            final(reg).wf(),
            final(self).candidate == old(self).candidate,
            err is None ==> final(self).phase is Initializing && final(reg).devices@ == old(reg).devices@ && final(reg).signals@ == old(reg).signals@,
            err is Some ==> final(self).phase is Terminated,
            (err matches Some(e) && spec_is_content_error(*e)) ==> final(reg).devices@ == old(reg).devices@ && final(reg).signals@ == old(reg).signals@,
            (err matches Some(e) && !spec_is_content_error(*e)) ==> !final(reg).has_device(
                old(self).candidate.id@,
            ),
    {
        match err {
            None => {
                self.phase = TaskPhase::Initializing;
            },
            Some(e) => {
                handle_error(reg, &self.candidate.id, e);
                self.phase = TaskPhase::Terminated;
            },
        }
    }

    /// The initialization outcome. Success registers the device: it is
    /// announced to the sink with its model's geometry and inserted into
    /// the registry. Failure surfaces as a connection failure.
    pub fn on_init_result(&mut self, reg: &mut Registry, err: Option<&DeviceError>) -> (ev: Option<
        SinkEvent,
    >)
        requires
            old(self).phase is Initializing,
            old(reg).wf(),
        ensures
            final(reg).wf(),
            final(self).candidate == old(self).candidate,
            err is None ==> {
                &&& final(self).phase is Registered
                &&& final(reg).has_device(old(self).candidate.id@)
                &&& forall|x: Seq<char>| #[trigger]
                    final(reg).has_device(x) == (old(reg).has_device(x) || x == old(self).candidate.id@)
                &&& final(reg).signals@ == old(reg).signals@
                &&& (ev matches Some(SinkEvent::RegisterDevice {
                    id,
                    name,
                    rows,
                    cols,
                    encoders,
                    device_type,
                }) && id@ == old(self).candidate.id@ && name@ == old(self).candidate.kind.spec_human_name() && rows == ROW_COUNT && cols == COL_COUNT
                    && encoders == ENCODER_COUNT && device_type == DEVICE_TYPE)
            },
            err is Some ==> final(self).phase is Terminated && ev is None,
            (err matches Some(e) && spec_is_content_error(*e)) ==> final(reg).devices@ == old(reg).devices@ && final(reg).signals@ == old(reg).signals@,
            (err matches Some(e) && !spec_is_content_error(*e)) ==> !final(reg).has_device(
                old(self).candidate.id@,
            ),
    {
        match err {
            None => {
                self.phase = TaskPhase::Registered;
                reg.insert_device(&self.candidate.id);
                Some(
                    SinkEvent::RegisterDevice {
                        id: self.candidate.id.clone(),
                        name: self.candidate.kind.human_name(),
                        rows: self.candidate.kind.row_count() as u8,
                        cols: self.candidate.kind.col_count() as u8,
                        encoders: self.candidate.kind.encoder_count() as u8,
                        device_type: self.candidate.kind.device_type(),
                    },
                )
            },
            Some(e) => {
                handle_error(reg, &self.candidate.id, e);
                self.phase = TaskPhase::Terminated;
                None
            },
        }
    }

    /// A registered task enters the running race: event loop, keepalive
    /// loop and cancellation wait.
    pub fn enter_running(&mut self)
        requires
            old(self).phase is Registered,
        ensures
            final(self).phase is Running,
            final(self).candidate == old(self).candidate,
    {
        self.phase = TaskPhase::Running;
    }

    /// Routes one decoded update to the sink: key transitions go through
    /// the input remap (unmapped keys are dropped silently); encoder
    /// transitions pass through unchanged.
    pub fn on_reader_update(&self, update: &StateUpdate) -> (ev: Option<SinkEvent>)
        requires
            self.phase is Running,
        ensures
            match *update {
                StateUpdate::ButtonDown(key) => match spec_map_input_key(key) {
                    Some(mapped) => ev matches Some(SinkEvent::KeyDown { id, key: k }) && id@
                        == self.candidate.id@ && k == mapped,
                    None => ev is None,
                },
                StateUpdate::ButtonUp(key) => match spec_map_input_key(key) {
                    Some(mapped) => ev matches Some(SinkEvent::KeyUp { id, key: k }) && id@
                        == self.candidate.id@ && k == mapped,
                    None => ev is None,
                },
                StateUpdate::EncoderDown(e) => ev matches Some(SinkEvent::EncoderDown {
                    id,
                    encoder,
                }) && id@ == self.candidate.id@ && encoder == e,
                StateUpdate::EncoderUp(e) => ev matches Some(SinkEvent::EncoderUp {
                    id,
                    encoder,
                }) && id@ == self.candidate.id@ && encoder == e,
                StateUpdate::EncoderTwist(e, v) => ev matches Some(SinkEvent::EncoderChange {
                    id,
                    encoder,
                    delta,
                }) && id@ == self.candidate.id@ && encoder == e && delta == v as i16,
            },
    {
        match update {
            StateUpdate::ButtonDown(key) => match map_input_key_to_ui(*key) {
                Some(mapped) => Some(
                    SinkEvent::KeyDown { id: self.candidate.id.clone(), key: mapped },
                ),
                None => None,
            },
            StateUpdate::ButtonUp(key) => match map_input_key_to_ui(*key) {
                Some(mapped) => Some(
                    SinkEvent::KeyUp { id: self.candidate.id.clone(), key: mapped },
                ),
                None => None,
            },
            StateUpdate::EncoderDown(e) => Some(
                SinkEvent::EncoderDown { id: self.candidate.id.clone(), encoder: *e },
            ),
            StateUpdate::EncoderUp(e) => Some(
                SinkEvent::EncoderUp { id: self.candidate.id.clone(), encoder: *e },
            ),
            StateUpdate::EncoderTwist(e, v) => Some(
                SinkEvent::EncoderChange {
                    id: self.candidate.id.clone(),
                    encoder: *e,
                    delta: *v as i16,
                },
            ),
        }
    }

    /// A read failure in the event loop: the shared policy decides whether
    /// the loop keeps reading or the task shuts down.
    pub fn on_reader_error(&mut self, reg: &mut Registry, err: &DeviceError) -> (r: bool)
        requires
            old(self).phase is Running,
            old(reg).wf(),
        ensures
            final(reg).wf(),
            final(self).candidate == old(self).candidate,
            r == spec_is_content_error(*err),
            spec_is_content_error(*err) ==> final(self).phase is Running && final(reg).devices@
                == old(reg).devices@ && final(reg).signals@ == old(reg).signals@,
            !spec_is_content_error(*err) ==> final(self).phase is ShuttingDown && !final(reg).has_device(old(self).candidate.id@),
    {
        let r = handle_error(reg, &self.candidate.id, err);
        if !r {
            self.phase = TaskPhase::ShuttingDown;
        }
        r
    }

    /// One keepalive turn: a probe is sent only while the device is still
    /// registered; once its entry is gone the keepalive loop ends and the
    /// task shuts down.
    pub fn on_keepalive_check(&mut self, reg: &Registry) -> (send: bool)
        requires
            old(self).phase is Running,
            reg.wf(),
        ensures
            final(self).candidate == old(self).candidate,
            send == reg.has_device(old(self).candidate.id@),
            send ==> final(self).phase is Running,
            !send ==> final(self).phase is ShuttingDown,
    {
        if reg.contains_device(&self.candidate.id) {
            true
        } else {
            self.phase = TaskPhase::ShuttingDown;
            false
        }
    }

    /// A keepalive probe failure: the shared policy decides whether the
    /// loop continues or the task shuts down.
    pub fn on_keepalive_error(&mut self, reg: &mut Registry, err: &DeviceError) -> (r: bool)
        requires
            old(self).phase is Running,
            old(reg).wf(),
        ensures
            final(reg).wf(),
            final(self).candidate == old(self).candidate,
            r == spec_is_content_error(*err),
            spec_is_content_error(*err) ==> final(self).phase is Running && final(reg).devices@
                == old(reg).devices@ && final(reg).signals@ == old(reg).signals@,
            !spec_is_content_error(*err) ==> final(self).phase is ShuttingDown && !final(reg).has_device(old(self).candidate.id@),
    {
        let r = handle_error(reg, &self.candidate.id, err);
        if !r {
            self.phase = TaskPhase::ShuttingDown;
        }
        r
    }

    /// The task's cancellation signal fired: leave the running race and
    /// shut down.
    pub fn on_cancelled(&mut self)
        requires
            old(self).phase is Running,
        ensures
            final(self).phase is ShuttingDown,
            final(self).candidate == old(self).candidate,
    {
        self.phase = TaskPhase::ShuttingDown;
    }

    /// Whether the best-effort device shutdown call is owed: only while the
    /// registry still holds the device's entry.
    pub fn wants_shutdown_call(&self, reg: &Registry) -> (r: bool)
        requires
            self.phase is ShuttingDown,
            reg.wf(),
        ensures
            r == reg.has_device(self.candidate.id@),
    {
        reg.contains_device(&self.candidate.id)
    }

    /// Shutdown finished: the task exits and touches nothing further.
    pub fn on_shutdown_complete(&mut self)
        requires
            old(self).phase is ShuttingDown,
        ensures
            final(self).phase is Terminated,
            final(self).candidate == old(self).candidate,
    {
        self.phase = TaskPhase::Terminated;
    }
}

} // verus!
