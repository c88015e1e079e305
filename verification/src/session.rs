//! The streaming encoder sink: a session that owns the (modelled)
//! external process handle, spawns it lazily on the first frame, forwards
//! each frame's bytes in call order, and tears the process down exactly
//! once, gracefully on `finish` or forcefully on destruction.
//!
//! The session is a pure state machine. Every operation returns an action
//! plan — the exact, ordered process-level steps the unverified driver
//! must perform — so the lifecycle policy itself is verified here.

use vstd::prelude::*;
use crate::codec::{select_codec, spec_detect, spec_opt_name, spec_select_codec, HardwareProbe};
use crate::frame::Frame;
use crate::invocation::EncoderInvocation;
use crate::EncodeError;

verus! {

/// The bounded grace period of a graceful shutdown, in seconds.
pub const GRACE_TIMEOUT_SECS: u64 = 10;

/// One process-level step of a shutdown or follow-up plan, to be
/// performed by the driver in plan order.
#[derive(Clone, Copy, Debug, PartialEq, Eq, Structural)]
pub enum Action {
    /// Close the process's input channel, signalling end-of-stream.
    CloseStdin,
    /// Wait up to the given number of seconds for natural exit, then
    /// hand the outcome to `shutdown_followup`.
    WaitWithTimeout(u64),
    /// Terminate the process immediately.
    Kill,
    /// Wait for reclamation of the terminated process, so that no
    /// zombie is left behind.
    Reap,
    /// Log that encoding completed successfully.
    LogSuccess,
    /// Drain the remaining diagnostic output and report the encoding
    /// failure.
    ReportFailure,
    /// Log a warning that the grace period elapsed.
    WarnTimeout,
    /// Log the system error from the failed wait.
    LogWaitError,
    /// Log a warning that the session is cleaned up without `finish`.
    WarnUnfinished,
}

/// What the bounded wait of a graceful shutdown observed.
#[derive(Clone, Copy, Debug, PartialEq, Eq, Structural)]
pub enum WaitOutcome {
    /// The process exited within the grace period; `success` is whether
    /// its exit status was zero.
    Exited { success: bool },
    /// The grace period elapsed with the process still running.
    TimedOut,
    /// The wait system call itself failed.
    WaitFailed,
}

/// What one successful `encode` call asks the driver to do: spawn the
/// process first if an invocation is present, then write the bytes to
/// the process's input channel and flush.
#[derive(Debug)]
pub struct EncodeStep {
    /// The invocation to spawn, present exactly when this call is the
    /// first frame of the session.
    pub spawn: Option<EncoderInvocation>,
    /// The frame's raw pixel bytes, to be written in call order.
    pub bytes: Vec<u8>,
}

/// Whether an `encode` call spawns the process.
pub open spec fn spec_spawns(was_spawned: bool, has_data: bool) -> bool {
    has_data && !was_spawned
}

/// Whether the process handle is present after an `encode` call.
pub open spec fn spec_post_spawned(was_spawned: bool, has_data: bool) -> bool {
    was_spawned || has_data
}

/// The effective width at spawn time: the explicit override if one was
/// configured, else the first frame's own width.
pub open spec fn spec_eff_width(resolution: Option<(u32, u32)>, frame_width: u32) -> u32 {
    match resolution {
        Some(r) => r.0,
        None => frame_width,
    }
}

/// The effective height at spawn time: the explicit override if one was
/// configured, else the first frame's own height.
pub open spec fn spec_eff_height(resolution: Option<(u32, u32)>, frame_height: u32) -> u32 {
    match resolution {
        Some(r) => r.1,
        None => frame_height,
    }
}

/// The graceful shutdown plan: close the input channel first (many
/// encoders need the end-of-stream to finalize the container), then wait
/// up to the grace period.
pub open spec fn spec_graceful_plan() -> Seq<Action> {
    seq![Action::CloseStdin, Action::WaitWithTimeout(GRACE_TIMEOUT_SECS)]
}

/// The forceful shutdown plan: close the input channel, terminate
/// immediately, and reap.
pub open spec fn spec_forced_plan() -> Seq<Action> {
    seq![Action::CloseStdin, Action::Kill, Action::Reap]
}

/// The destruction-hook plan: warn, then shut down forcefully.
pub open spec fn spec_drop_plan() -> Seq<Action> {
    seq![Action::WarnUnfinished, Action::CloseStdin, Action::Kill, Action::Reap]
}

/// The follow-up plan after the bounded wait of a graceful shutdown.
pub open spec fn spec_followup(outcome: WaitOutcome) -> Seq<Action> {
    match outcome {
        WaitOutcome::Exited { success } => if success {
            seq![Action::LogSuccess]
        } else {
            seq![Action::ReportFailure]
        },
        WaitOutcome::TimedOut => seq![Action::WarnTimeout, Action::Kill, Action::Reap],
        WaitOutcome::WaitFailed => seq![Action::LogWaitError, Action::Kill],
    }
}

/// Whether the destruction hook has cleanup to do: only an unfinished
/// session with a live process is cleaned up implicitly.
pub open spec fn drop_cleanup_needed(finished: bool, spawned: bool) -> bool {
    !finished && spawned
}

/// Whether the process handle is present after the first `n` of the
/// given frames have been encoded, starting from `init`: the fold of the
/// per-call transition that `encode` ensures.
pub open spec fn spawned_after(init: bool, frames: Seq<Frame>, n: int) -> bool
    decreases n,
{
    if n <= 0 {
        init
    } else {
        spec_post_spawned(spawned_after(init, frames, n - 1), frames[n - 1].data is Some)
    }
}

/// Whether the `encode` call on frame `i` spawns the process, starting
/// from `init`.
pub open spec fn spawns_at(init: bool, frames: Seq<Frame>, i: int) -> bool {
    spec_spawns(spawned_after(init, frames, i), frames[i].data is Some)
}

proof fn lemma_spawned_after_first(frames: Seq<Frame>, n: int)
    requires
        1 <= n,
        frames[0].data is Some,
    ensures
        spawned_after(false, frames, n),
    decreases n,
{
    if n > 1 {
        lemma_spawned_after_first(frames, n - 1);
    }
}

/// For every sequence of frames that all carry pixel data, a fresh
/// session spawns the process exactly once: on the first `encode` call
/// and on no later one. When no explicit resolution is configured, that
/// spawn uses the first frame's own dimensions.
pub proof fn lemma_spawn_exactly_once(frames: Seq<Frame>)
    requires
        frames.len() >= 1,
        forall|i: int| 0 <= i < frames.len() ==> (#[trigger] frames[i]).data is Some,
    ensures
        spawns_at(false, frames, 0),
        forall|i: int| 1 <= i < frames.len() ==> !spawns_at(false, frames, i),
        spec_eff_width(None, frames[0].width) == frames[0].width,
        spec_eff_height(None, frames[0].height) == frames[0].height,
{
    assert forall|i: int| 1 <= i < frames.len() implies !spawns_at(false, frames, i) by {
        lemma_spawned_after_first(frames, i);
    }
}

/// An explicitly configured resolution wins: spawn uses it regardless of
/// the first frame's actual dimensions.
pub proof fn lemma_explicit_resolution_wins(
    width: u32,
    height: u32,
    frame_width: u32,
    frame_height: u32,
)
    ensures
        spec_eff_width(Some((width, height)), frame_width) == width,
        spec_eff_height(Some((width, height)), frame_height) == height,
{
}

/// `finish` followed by destruction never triggers the implicit-cleanup
/// path: a finished session is never cleaned up by the destruction hook,
/// so the shutdown logic runs exactly once per session.
pub proof fn lemma_finish_then_drop(s: Mp4FfmpegCliPipeEncoder)
    requires
        s.is_finished(),
    ensures
        !drop_cleanup_needed(s.is_finished(), s.spawned()),
{
}

/// Destruction without `finish` triggers the forceful protocol exactly
/// once: the hook has work to do precisely for an unfinished session
/// with a live process, its plan never waits for natural exit, it ends
/// in the forced protocol, and once the handle is taken no second
/// cleanup runs.
pub proof fn lemma_drop_without_finish(finished: bool)
    requires
        !finished,
    ensures
        drop_cleanup_needed(finished, true),
        !drop_cleanup_needed(finished, false),
        forall|i: int|
            0 <= i < spec_drop_plan().len() ==> !((#[trigger] spec_drop_plan()[i])
                is WaitWithTimeout),
        spec_drop_plan().subrange(1, 4) == spec_forced_plan(),
{
    assert(spec_drop_plan().subrange(1, 4) =~= spec_forced_plan());
    assert forall|i: int|
        0 <= i < spec_drop_plan().len() implies !((#[trigger] spec_drop_plan()[i])
        is WaitWithTimeout) by {
        if i == 0 {
            assert(spec_drop_plan()[i] == Action::WarnUnfinished);
        } else if i == 1 {
            assert(spec_drop_plan()[i] == Action::CloseStdin);
        } else if i == 2 {
            assert(spec_drop_plan()[i] == Action::Kill);
        } else {
            assert(spec_drop_plan()[i] == Action::Reap);
        }
    }
}

/// A graceful shutdown that exceeds the grace period ends in forced
/// termination followed by a reap, so no zombie process is left.
pub proof fn lemma_timeout_reaps()
    ensures
        spec_followup(WaitOutcome::TimedOut).len() == 3,
        spec_followup(WaitOutcome::TimedOut)[1] == Action::Kill,
        spec_followup(WaitOutcome::TimedOut)[2] == Action::Reap,
{
}

/// An encoder session that streams raw RGBA frames to an external
/// `ffmpeg` process for real-time MP4 encoding.
pub struct Mp4FfmpegCliPipeEncoder {
    /// Whether the external process has been spawned (the model of the
    /// optional process handle).
    process_present: bool,
    /// Output file path.
    path: String,
    /// Input framerate, frames per second.
    framerate: u32,
    /// Quality factor (lower means higher quality, codec-dependent).
    crf: u32,
    /// Speed/quality preset name.
    preset: String,
    /// Explicit hardware encoder preference, if any.
    hardware_encoder: Option<String>,
    /// Explicit resolution override, if any.
    resolution: Option<(u32, u32)>,
    /// Whether `finish` was called.
    finished: bool,
}

impl Mp4FfmpegCliPipeEncoder {
    /// Whether the external process has been spawned.
    pub closed spec fn spawned(self) -> bool {
        self.process_present
    }

    /// Whether `finish` was called.
    pub closed spec fn is_finished(self) -> bool {
        self.finished
    }

    /// The configured output path.
    pub closed spec fn path_cfg(self) -> Seq<char> {
        self.path@
    }

    /// The configured framerate.
    pub closed spec fn framerate_cfg(self) -> u32 {
        self.framerate
    }

    /// The configured quality factor.
    pub closed spec fn crf_cfg(self) -> u32 {
        self.crf
    }

    /// The configured preset name.
    pub closed spec fn preset_cfg(self) -> Seq<char> {
        self.preset@
    }

    /// The configured hardware encoder preference.
    pub closed spec fn hw_cfg(self) -> Option<Seq<char>> {
        spec_opt_name(self.hardware_encoder)
    }

    /// The configured resolution override.
    pub closed spec fn resolution_cfg(self) -> Option<(u32, u32)> {
        self.resolution
    }

    /// The two sessions hold the same configuration.
    pub open spec fn same_config(a: Self, b: Self) -> bool {
        &&& a.path_cfg() == b.path_cfg()
        &&& a.framerate_cfg() == b.framerate_cfg()
        &&& a.crf_cfg() == b.crf_cfg()
        &&& a.preset_cfg() == b.preset_cfg()
        &&& a.hw_cfg() == b.hw_cfg()
        &&& a.resolution_cfg() == b.resolution_cfg()
    }

    /// Creates a session that will write the MP4 to the given path. No
    /// process is spawned yet; configuration starts at the defaults.
    pub fn new(path: String) -> (r: Result<Self, EncodeError>)
        ensures
            r matches Ok(s) ==> {
                &&& s.path_cfg() == path@
                &&& s.framerate_cfg() == 60
                &&& s.crf_cfg() == 23
                &&& s.preset_cfg() == "fast"@
                &&& s.hw_cfg() is None
                &&& s.resolution_cfg() is None
                &&& !s.spawned()
                &&& !s.is_finished()
            },
            r is Ok,
    {
        Ok(
            Mp4FfmpegCliPipeEncoder {
                process_present: false,
                path,
                framerate: 60,
                crf: 23,
                preset: "fast".to_owned(),
                hardware_encoder: None,
                resolution: None,
                finished: false,
            },
        )
    }

    /// Sets the framerate of the video. Only callable before the first
    /// frame.
    pub fn with_framerate(self, framerate: u32) -> (r: Self)
        requires
            !self.spawned(),
        ensures
            r.framerate_cfg() == framerate,
            r.path_cfg() == self.path_cfg(),
            r.crf_cfg() == self.crf_cfg(),
            r.preset_cfg() == self.preset_cfg(),
            r.hw_cfg() == self.hw_cfg(),
            r.resolution_cfg() == self.resolution_cfg(),
            r.spawned() == self.spawned(),
            r.is_finished() == self.is_finished(),
    {
        Mp4FfmpegCliPipeEncoder { framerate, ..self }
    }

    /// Sets the quality factor (constant rate factor) of the video.
    /// Only callable before the first frame.
    pub fn with_crf(self, crf: u32) -> (r: Self)
        requires
            !self.spawned(),
        ensures
            r.crf_cfg() == crf,
            r.path_cfg() == self.path_cfg(),
            r.framerate_cfg() == self.framerate_cfg(),
            r.preset_cfg() == self.preset_cfg(),
            r.hw_cfg() == self.hw_cfg(),
            r.resolution_cfg() == self.resolution_cfg(),
            r.spawned() == self.spawned(),
            r.is_finished() == self.is_finished(),
    {
        Mp4FfmpegCliPipeEncoder { crf, ..self }
    }

    /// Sets the speed/quality preset of the video. Only callable before
    /// the first frame.
    pub fn with_preset(self, preset: String) -> (r: Self)
        requires
            !self.spawned(),
        ensures
            r.preset_cfg() == preset@,
            r.path_cfg() == self.path_cfg(),
            r.framerate_cfg() == self.framerate_cfg(),
            r.crf_cfg() == self.crf_cfg(),
            r.hw_cfg() == self.hw_cfg(),
            r.resolution_cfg() == self.resolution_cfg(),
            r.spawned() == self.spawned(),
            r.is_finished() == self.is_finished(),
    {
        Mp4FfmpegCliPipeEncoder { preset, ..self }
    }

    /// Sets an explicit hardware encoder preference (for example
    /// `h264_nvenc`). Only callable before the first frame.
    pub fn with_hardware_encoder(self, encoder: String) -> (r: Self)
        requires
            !self.spawned(),
        ensures
            r.hw_cfg() matches Some(c) && c == encoder@,
            r.path_cfg() == self.path_cfg(),
            r.framerate_cfg() == self.framerate_cfg(),
            r.crf_cfg() == self.crf_cfg(),
            r.preset_cfg() == self.preset_cfg(),
            r.resolution_cfg() == self.resolution_cfg(),
            r.spawned() == self.spawned(),
            r.is_finished() == self.is_finished(),
    {
        Mp4FfmpegCliPipeEncoder { hardware_encoder: Some(encoder), ..self }
    }

    /// Explicitly sets the video resolution; if not set, the resolution
    /// is taken from the first frame. Only callable before the first
    /// frame.
    pub fn with_resolution(self, width: u32, height: u32) -> (r: Self)
        requires
            !self.spawned(),
        ensures
            r.resolution_cfg() matches Some(p) && p == (width, height),
            r.path_cfg() == self.path_cfg(),
            r.framerate_cfg() == self.framerate_cfg(),
            r.crf_cfg() == self.crf_cfg(),
            r.preset_cfg() == self.preset_cfg(),
            r.hw_cfg() == self.hw_cfg(),
            r.spawned() == self.spawned(),
            r.is_finished() == self.is_finished(),
    {
        Mp4FfmpegCliPipeEncoder { resolution: Some((width, height)), ..self }
    }

    /// Picks the hardware encoder from the advertised-capability probe,
    /// in the fixed priority order: NVENC, then Quick Sync, then VAAPI,
    /// then VideoToolbox; `None` when no candidate is advertised.
    pub fn detect_hardware_encoder(probe: &HardwareProbe) -> (r: Option<String>)
        ensures
            spec_opt_name(r) == spec_detect(*probe),
    {
        if probe.nvenc {
            Some("h264_nvenc".to_owned())
        } else if probe.qsv {
            Some("h264_qsv".to_owned())
        } else if probe.vaapi {
            Some("h264_vaapi".to_owned())
        } else if probe.videotoolbox {
            Some("h264_videotoolbox".to_owned())
        } else {
            None
        }
    }

    /// Whether the external process has been spawned.
    pub fn is_spawned(&self) -> (r: bool)
        ensures
            r == self.spawned(),
    {
        self.process_present
    }

    /// Whether the next `encode` call would consult the hardware
    /// capability detection: no process yet and no explicit preference.
    pub fn needs_detection(&self) -> (r: bool)
        ensures
            r == (!self.spawned() && self.hw_cfg() is None),
    {
        !self.process_present && self.hardware_encoder.is_none()
    }

    /// Encodes one frame: on the first frame the returned step carries
    /// the invocation to spawn; every step carries the frame's raw bytes
    /// to write, in call order. `detected` is the hardware capability
    /// detection result, consulted only when this call spawns and no
    /// explicit preference is configured. Fails, with the session
    /// unchanged, exactly when the frame carries no pixel data.
    pub fn encode(&mut self, frame: &Frame, detected: Option<String>) -> (r: Result<
        EncodeStep,
        EncodeError,
    >)
        requires
            !old(self).is_finished(),
        ensures
            Self::same_config(*final(self), *old(self)),
            !final(self).is_finished(),
            r is Ok <==> frame.data is Some,
            r matches Err(e) ==> e is NoPixelData && final(self).spawned() == old(self).spawned(),
            final(self).spawned() == spec_post_spawned(old(self).spawned(), frame.data is Some),
            r matches Ok(step) ==> {
                &&& step.bytes@ == frame.data->Some_0@
                &&& (step.spawn is Some <==> spec_spawns(old(self).spawned(), frame.data is Some))
                &&& (step.spawn matches Some(inv) ==> {
                    &&& inv.width == spec_eff_width(old(self).resolution_cfg(), frame.width)
                    &&& inv.height == spec_eff_height(old(self).resolution_cfg(), frame.height)
                    &&& inv.framerate == old(self).framerate_cfg()
                    &&& inv.crf == old(self).crf_cfg()
                    &&& inv.preset@ == old(self).preset_cfg()
                    &&& inv.path@ == old(self).path_cfg()
                    &&& inv.codec@ == spec_select_codec(
                        old(self).hw_cfg(),
                        spec_opt_name(detected),
                    )
                })
            },
    {
        let bytes: Vec<u8> = match frame.raw_bytes() {
            Ok(b) => b.clone(),
            Err(e) => {
                return Err(e);
            },
        };
        proof {
            assert(bytes@ =~= frame.data->Some_0@);
        }
        let spawn: Option<EncoderInvocation> = if !self.process_present {
            let width = match self.resolution {
                Some(r) => r.0,
                None => frame.width,
            };
            let height = match self.resolution {
                Some(r) => r.1,
                None => frame.height,
            };
            let codec = select_codec(&self.hardware_encoder, &detected);
            self.process_present = true;
            Some(
                EncoderInvocation {
                    width,
                    height,
                    framerate: self.framerate,
                    codec,
                    preset: self.preset.clone(),
                    crf: self.crf,
                    path: self.path.clone(),
                },
            )
        } else {
            None
        };
        Ok(EncodeStep { spawn, bytes })
    }

    /// The shared shutdown routine: a no-op when the process handle is
    /// already absent, else it takes the handle and returns the plan of
    /// the chosen protocol, closing the input channel first in either.
    fn shutdown(&mut self, graceful: bool) -> (r: Option<Vec<Action>>)
        ensures
            Self::same_config(*final(self), *old(self)),
            final(self).is_finished() == old(self).is_finished(),
            !final(self).spawned(),
            r is Some <==> old(self).spawned(),
            r matches Some(p) ==> p@ == if graceful {
                spec_graceful_plan()
            } else {
                spec_forced_plan()
            },
    {
        if !self.process_present {
            return None;
        }
        self.process_present = false;
        let mut plan: Vec<Action> = Vec::new();
        plan.push(Action::CloseStdin);
        if graceful {
            plan.push(Action::WaitWithTimeout(GRACE_TIMEOUT_SECS));
            proof {
                assert(plan@ =~= spec_graceful_plan());
            }
        } else {
            plan.push(Action::Kill);
            plan.push(Action::Reap);
            proof {
                assert(plan@ =~= spec_forced_plan());
            }
        }
        Some(plan)
    }

    /// Finishes the session: marks it finished and shuts the process
    /// down gracefully. The returned plan is empty when no process was
    /// ever spawned.
    pub fn finish(&mut self) -> (r: Vec<Action>)
        ensures
            Self::same_config(*final(self), *old(self)),
            final(self).is_finished(),
            !final(self).spawned(),
            old(self).spawned() ==> r@ == spec_graceful_plan(),
            !old(self).spawned() ==> r@ == Seq::<Action>::empty(),
    {
        self.finished = true;
        match self.shutdown(true) {
            Some(plan) => plan,
            None => {
                let plan: Vec<Action> = Vec::new();
                proof {
                    assert(plan@ =~= Seq::<Action>::empty());
                }
                plan
            },
        }
    }

    /// The destruction hook: the guaranteed last-chance cleanup. Returns
    /// a plan exactly when the session was neither finished nor already
    /// torn down — the forceful protocol, preceded by a warning — so the
    /// shutdown logic runs at most once per session.
    pub fn cleanup_on_drop(&mut self) -> (r: Option<Vec<Action>>)
        ensures
            Self::same_config(*final(self), *old(self)),
            final(self).is_finished() == old(self).is_finished(),
            !final(self).spawned(),
            r is Some <==> drop_cleanup_needed(old(self).is_finished(), old(self).spawned()),
            r matches Some(p) ==> p@ == spec_drop_plan(),
    {
        if self.finished || !self.process_present {
            self.process_present = false;
            return None;
        }
        let mut plan: Vec<Action> = Vec::new();
        plan.push(Action::WarnUnfinished);
        match self.shutdown(false) {
            Some(mut forced) => {
                plan.append(&mut forced);
                proof {
                    assert(plan@ =~= spec_drop_plan());
                }
                Some(plan)
            },
            None => None,
        }
    }

    /// The follow-up after the bounded wait of a graceful shutdown:
    /// success is logged; a failure status is drained and reported; a
    /// timeout is escalated to forced termination and a reap, so no
    /// zombie process is left; a failed wait is answered with a
    /// defensive termination.
    pub fn shutdown_followup(outcome: WaitOutcome) -> (r: Vec<Action>)
        ensures
            r@ == spec_followup(outcome),
    {
        let mut plan: Vec<Action> = Vec::new();
        match outcome {
            WaitOutcome::Exited { success } => {
                if success {
                    plan.push(Action::LogSuccess);
                } else {
                    plan.push(Action::ReportFailure);
                }
            },
            WaitOutcome::TimedOut => {
                plan.push(Action::WarnTimeout);
                plan.push(Action::Kill);
                plan.push(Action::Reap);
            },
            WaitOutcome::WaitFailed => {
                plan.push(Action::LogWaitError);
                plan.push(Action::Kill);
            },
        }
        proof {
            assert(plan@ =~= spec_followup(outcome));
        }
        plan
    }
}

} // verus!
