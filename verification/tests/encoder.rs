use mp4_pipe::codec::{bytes_contain, select_codec, HardwareProbe};
use mp4_pipe::frame::Frame;
use mp4_pipe::invocation::{quality_args, resolution_arg, EncoderInvocation};
use mp4_pipe::numfmt::u32_decimal;
use mp4_pipe::session::{Action, Mp4FfmpegCliPipeEncoder, WaitOutcome, GRACE_TIMEOUT_SECS};
use mp4_pipe::EncodeError;

fn solid_frame(width: u32, height: u32, rgba: [u8; 4]) -> Frame {
    let pixels = (width * height) as usize;
    let mut data = Vec::with_capacity(pixels * 4);
    for _ in 0..pixels {
        data.extend_from_slice(&rgba);
    }
    Frame {
        width,
        height,
        data: Some(data),
    }
}

fn probe(nvenc: bool, qsv: bool, vaapi: bool, videotoolbox: bool) -> HardwareProbe {
    HardwareProbe {
        nvenc,
        qsv,
        vaapi,
        videotoolbox,
    }
}

#[test]
fn defaults_three_frames_then_finish() {
    // Construct for "out.mp4" with defaults, encode three 64x64 RGBA
    // frames of distinct solid colors, finish: one spawn, three writes
    // of 64*64*4 bytes in call order, stdin closed before the wait, and
    // a success log on zero exit status.
    let mut sink = Mp4FfmpegCliPipeEncoder::new("out.mp4".to_string()).unwrap();
    let colors = [[255, 0, 0, 255], [0, 255, 0, 255], [0, 0, 255, 255]];
    let mut spawns = 0;
    for (n, color) in colors.iter().enumerate() {
        let frame = solid_frame(64, 64, *color);
        let step = sink.encode(&frame, None).unwrap();
        if n == 0 {
            let inv = step.spawn.as_ref().expect("first frame must spawn");
            assert_eq!(inv.width, 64);
            assert_eq!(inv.height, 64);
            assert_eq!(inv.framerate, 60);
            assert_eq!(inv.crf, 23);
            assert_eq!(inv.preset, "fast");
            assert_eq!(inv.codec, "libx264");
            assert_eq!(inv.path, "out.mp4");
        } else {
            assert!(step.spawn.is_none());
        }
        if step.spawn.is_some() {
            spawns += 1;
        }
        assert_eq!(step.bytes.len(), 64 * 64 * 4);
        assert_eq!(step.bytes, frame.data.clone().unwrap());
    }
    assert_eq!(spawns, 1);
    let plan = sink.finish();
    assert_eq!(
        plan,
        vec![Action::CloseStdin, Action::WaitWithTimeout(GRACE_TIMEOUT_SECS)]
    );
    assert_eq!(GRACE_TIMEOUT_SECS, 10);
    let followup =
        Mp4FfmpegCliPipeEncoder::shutdown_followup(WaitOutcome::Exited { success: true });
    assert_eq!(followup, vec![Action::LogSuccess]);
}

#[test]
fn full_argument_list_for_defaults() {
    let mut sink = Mp4FfmpegCliPipeEncoder::new("out.mp4".to_string()).unwrap();
    let frame = solid_frame(64, 64, [1, 2, 3, 4]);
    let step = sink.encode(&frame, None).unwrap();
    let inv = step.spawn.unwrap();
    let args = inv.args();
    let expected = vec![
        "-y",
        "-f",
        "rawvideo",
        "-pix_fmt",
        "rgba",
        "-s",
        "64x64",
        "-r",
        "60",
        "-i",
        "pipe:0",
        "-c:v",
        "libx264",
        "-pix_fmt",
        "yuv420p",
        "-preset",
        "fast",
        "-crf",
        "23",
        "out.mp4",
    ];
    assert_eq!(args, expected);
}

#[test]
fn explicit_resolution_overrides_frame_dimensions() {
    let mut sink = Mp4FfmpegCliPipeEncoder::new("out.mp4".to_string())
        .unwrap()
        .with_resolution(1920, 1080);
    let frame = solid_frame(64, 64, [9, 9, 9, 9]);
    let step = sink.encode(&frame, None).unwrap();
    let inv = step.spawn.unwrap();
    assert_eq!(inv.width, 1920);
    assert_eq!(inv.height, 1080);
    let args = inv.args();
    assert!(args.contains(&"1920x1080".to_string()));
}

#[test]
fn builders_configure_the_invocation() {
    let mut sink = Mp4FfmpegCliPipeEncoder::new("clip.mp4".to_string())
        .unwrap()
        .with_framerate(30)
        .with_crf(18)
        .with_preset("slow".to_string());
    let frame = solid_frame(8, 8, [0, 0, 0, 0]);
    let step = sink.encode(&frame, None).unwrap();
    let inv = step.spawn.unwrap();
    assert_eq!(inv.framerate, 30);
    assert_eq!(inv.crf, 18);
    assert_eq!(inv.preset, "slow");
    assert_eq!(inv.path, "clip.mp4");
}

#[test]
fn finish_then_drop_never_cleans_up_again() {
    let mut sink = Mp4FfmpegCliPipeEncoder::new("out.mp4".to_string()).unwrap();
    let frame = solid_frame(4, 4, [7, 7, 7, 7]);
    sink.encode(&frame, None).unwrap();
    let plan = sink.finish();
    assert_eq!(plan[0], Action::CloseStdin);
    assert!(sink.cleanup_on_drop().is_none());
    assert!(sink.cleanup_on_drop().is_none());
}

#[test]
fn finish_without_any_frame_is_a_no_op() {
    let mut sink = Mp4FfmpegCliPipeEncoder::new("out.mp4".to_string()).unwrap();
    let plan = sink.finish();
    assert!(plan.is_empty());
    assert!(sink.cleanup_on_drop().is_none());
}

#[test]
fn drop_without_finish_forces_termination_once() {
    // One successful frame, then the sink is dropped without finish:
    // a warning, forced termination and a reap, and only once.
    let mut sink = Mp4FfmpegCliPipeEncoder::new("out.mp4".to_string()).unwrap();
    let frame = solid_frame(16, 16, [1, 1, 1, 1]);
    sink.encode(&frame, None).unwrap();
    let plan = sink.cleanup_on_drop().expect("unfinished session must clean up");
    assert_eq!(
        plan,
        vec![
            Action::WarnUnfinished,
            Action::CloseStdin,
            Action::Kill,
            Action::Reap,
        ]
    );
    assert!(!plan.contains(&Action::WaitWithTimeout(GRACE_TIMEOUT_SECS)));
    assert!(sink.cleanup_on_drop().is_none());
}

#[test]
fn drop_without_spawn_cleans_up_nothing() {
    let mut sink = Mp4FfmpegCliPipeEncoder::new("out.mp4".to_string()).unwrap();
    assert!(sink.cleanup_on_drop().is_none());
}

#[test]
fn shutdown_followup_covers_every_outcome() {
    assert_eq!(
        Mp4FfmpegCliPipeEncoder::shutdown_followup(WaitOutcome::Exited { success: true }),
        vec![Action::LogSuccess]
    );
    assert_eq!(
        Mp4FfmpegCliPipeEncoder::shutdown_followup(WaitOutcome::Exited { success: false }),
        vec![Action::ReportFailure]
    );
    // The grace period elapsed: forced termination and a reaped process.
    assert_eq!(
        Mp4FfmpegCliPipeEncoder::shutdown_followup(WaitOutcome::TimedOut),
        vec![Action::WarnTimeout, Action::Kill, Action::Reap]
    );
    assert_eq!(
        Mp4FfmpegCliPipeEncoder::shutdown_followup(WaitOutcome::WaitFailed),
        vec![Action::LogWaitError, Action::Kill]
    );
}

#[test]
fn frame_without_data_errors_before_spawn() {
    let mut sink = Mp4FfmpegCliPipeEncoder::new("out.mp4".to_string()).unwrap();
    let empty = Frame {
        width: 64,
        height: 64,
        data: None,
    };
    let err = sink.encode(&empty, None).unwrap_err();
    assert!(matches!(err, EncodeError::NoPixelData));
    assert!(!sink.is_spawned());
    // A later frame with data still spawns: nothing partial happened.
    let frame = solid_frame(64, 64, [5, 5, 5, 5]);
    let step = sink.encode(&frame, None).unwrap();
    assert!(step.spawn.is_some());
}

#[test]
fn frame_without_data_after_spawn_errors_without_write() {
    let mut sink = Mp4FfmpegCliPipeEncoder::new("out.mp4".to_string()).unwrap();
    let frame = solid_frame(64, 64, [5, 5, 5, 5]);
    sink.encode(&frame, None).unwrap();
    let empty = Frame {
        width: 64,
        height: 64,
        data: None,
    };
    let err = sink.encode(&empty, None).unwrap_err();
    assert!(matches!(err, EncodeError::NoPixelData));
    assert!(sink.is_spawned());
}

#[test]
fn detection_follows_the_fixed_probe_order() {
    let detect = Mp4FfmpegCliPipeEncoder::detect_hardware_encoder;
    assert_eq!(
        detect(&probe(true, true, true, true)),
        Some("h264_nvenc".to_string())
    );
    assert_eq!(
        detect(&probe(false, true, true, true)),
        Some("h264_qsv".to_string())
    );
    assert_eq!(
        detect(&probe(false, false, true, true)),
        Some("h264_vaapi".to_string())
    );
    assert_eq!(
        detect(&probe(false, false, false, true)),
        Some("h264_videotoolbox".to_string())
    );
    assert_eq!(detect(&probe(false, false, false, false)), None);
}

#[test]
fn explicit_preference_beats_detection() {
    let explicit = Some("h264_qsv".to_string());
    let detected = Some("h264_nvenc".to_string());
    assert_eq!(select_codec(&explicit, &detected), "h264_qsv");
    assert_eq!(select_codec(&None, &detected), "h264_nvenc");
    assert_eq!(select_codec(&None, &None), "libx264");
}

#[test]
fn explicit_preference_reaches_the_invocation() {
    let mut sink = Mp4FfmpegCliPipeEncoder::new("out.mp4".to_string())
        .unwrap()
        .with_hardware_encoder("h264_nvenc".to_string());
    let frame = solid_frame(32, 32, [1, 2, 3, 4]);
    let step = sink
        .encode(&frame, Some("h264_vaapi".to_string()))
        .unwrap();
    let inv = step.spawn.unwrap();
    assert_eq!(inv.codec, "h264_nvenc");
}

#[test]
fn quality_arguments_per_codec() {
    let fast = "fast".to_string();
    let q = |codec: &str| quality_args(&codec.to_string(), &fast, 23);
    assert_eq!(q("h264_nvenc"), vec!["-preset", "fast", "-cq", "23"]);
    assert_eq!(
        q("h264_qsv"),
        vec!["-preset", "fast", "-global_quality", "23"]
    );
    assert_eq!(
        q("h264_vaapi"),
        vec!["-vaapi_device", "/dev/dri/renderD128", "-qp", "23"]
    );
    assert_eq!(q("h264_videotoolbox"), vec!["-q:v", "23"]);
    assert_eq!(q("libx264"), vec!["-preset", "fast", "-crf", "23"]);
    // An unrecognized codec name falls back to the software pair.
    assert_eq!(q("h264_mystery"), vec!["-preset", "fast", "-crf", "23"]);
}

#[test]
fn hardware_codec_argument_lists() {
    let inv = EncoderInvocation {
        width: 128,
        height: 72,
        framerate: 24,
        codec: "h264_videotoolbox".to_string(),
        preset: "fast".to_string(),
        crf: 30,
        path: "tv.mp4".to_string(),
    };
    let args = inv.args();
    let expected = vec![
        "-y", "-f", "rawvideo", "-pix_fmt", "rgba", "-s", "128x72", "-r", "24", "-i", "pipe:0",
        "-c:v", "h264_videotoolbox", "-pix_fmt", "yuv420p", "-q:v", "30", "tv.mp4",
    ];
    assert_eq!(args, expected);
}

#[test]
fn decimal_rendering() {
    assert_eq!(u32_decimal(0), "0");
    assert_eq!(u32_decimal(7), "7");
    assert_eq!(u32_decimal(10), "10");
    assert_eq!(u32_decimal(23), "23");
    assert_eq!(u32_decimal(60), "60");
    assert_eq!(u32_decimal(4294967295), "4294967295");
    assert_eq!(resolution_arg(1920, 1080), "1920x1080");
    assert_eq!(resolution_arg(0, 0), "0x0");
}

#[test]
fn capability_listing_containment() {
    let listing = b"V..... libx264  H.264 / AVC\nV..... h264_nvenc  NVIDIA NVENC".to_vec();
    assert!(bytes_contain(&listing, &b"h264_nvenc".to_vec()));
    assert!(bytes_contain(&listing, &b"libx264".to_vec()));
    assert!(!bytes_contain(&listing, &b"h264_qsv".to_vec()));
    assert!(bytes_contain(&listing, &Vec::new()));
    assert!(!bytes_contain(&b"ab".to_vec(), &b"abc".to_vec()));
    assert!(bytes_contain(&b"aaab".to_vec(), &b"aab".to_vec()));
}

#[test]
fn state_queries_track_the_lifecycle() {
    let mut sink = Mp4FfmpegCliPipeEncoder::new("out.mp4".to_string()).unwrap();
    assert!(!sink.is_spawned());
    assert!(sink.needs_detection());
    let mut preferring = Mp4FfmpegCliPipeEncoder::new("out.mp4".to_string())
        .unwrap()
        .with_hardware_encoder("h264_nvenc".to_string());
    assert!(!preferring.needs_detection());
    let frame = solid_frame(2, 2, [0, 1, 2, 3]);
    sink.encode(&frame, None).unwrap();
    assert!(sink.is_spawned());
    assert!(!sink.needs_detection());
    preferring.encode(&frame, None).unwrap();
    assert!(preferring.is_spawned());
}

#[test]
fn error_envelope_variants() {
    let spawn = EncodeError::Spawn(mp4_pipe::SpawnError {
        detail: "No such file or directory".to_string(),
    });
    assert!(matches!(spawn, EncodeError::Spawn(_)));
    let io = EncodeError::Io(mp4_pipe::IoError {
        detail: "Broken pipe".to_string(),
    });
    assert!(matches!(io, EncodeError::Io(_)));
}
