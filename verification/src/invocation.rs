//! The derived, immutable argument set of one encoder process invocation,
//! computed once at spawn time, and its rendering as the exact `ffmpeg`
//! command line: raw fixed-size RGBA input on the standard input channel,
//! codec selection, a codec-dependent quality-argument pair, and the
//! output path as the trailing argument.

use vstd::prelude::*;
use vstd::string::StringExecFns;
use crate::numfmt::{spec_decimal, u32_decimal};

verus! {

/// The full argument set for one spawn of the external encoder.
/// Computed once, from the session configuration plus the effective
/// resolution; never recomputed after spawn.
#[derive(Debug)]
pub struct EncoderInvocation {
    /// Effective input width in pixels.
    pub width: u32,
    /// Effective input height in pixels.
    pub height: u32,
    /// Input framerate, frames per second.
    pub framerate: u32,
    /// The selected codec name, handed to `-c:v`.
    pub codec: String,
    /// The speed/quality preset name.
    pub preset: String,
    /// The quality factor (lower means higher quality, codec-dependent).
    pub crf: u32,
    /// The output file path, the trailing positional argument.
    pub path: String,
}

/// The `<width>x<height>` resolution argument.
pub open spec fn spec_resolution_arg(w: u32, h: u32) -> Seq<char> {
    spec_decimal(w as nat) + seq!['x'] + spec_decimal(h as nat)
}

/// The codec-dependent quality-argument pair: a closed lookup table, one
/// entry per supported hardware codec, with the software (`libx264`)
/// entry for every other codec name.
pub open spec fn spec_quality_args(codec: Seq<char>, preset: Seq<char>, crf: u32) -> Seq<Seq<char>> {
    if codec == "h264_nvenc"@ {
        seq!["-preset"@, preset, "-cq"@, spec_decimal(crf as nat)]
    } else if codec == "h264_qsv"@ {
        seq!["-preset"@, preset, "-global_quality"@, spec_decimal(crf as nat)]
    } else if codec == "h264_vaapi"@ {
        seq!["-vaapi_device"@, "/dev/dri/renderD128"@, "-qp"@, spec_decimal(crf as nat)]
    } else if codec == "h264_videotoolbox"@ {
        seq!["-q:v"@, spec_decimal(crf as nat)]
    } else {
        seq!["-preset"@, preset, "-crf"@, spec_decimal(crf as nat)]
    }
}

/// Quality-argument construction is a pure function of codec identity,
/// quality factor and preset, and an unrecognized codec name produces
/// exactly the software fallback's argument pair.
pub proof fn lemma_quality_args_fallback(codec: Seq<char>, preset: Seq<char>, crf: u32)
    requires
        codec != "h264_nvenc"@,
        codec != "h264_qsv"@,
        codec != "h264_vaapi"@,
        codec != "h264_videotoolbox"@,
    ensures
        spec_quality_args(codec, preset, crf) == spec_quality_args("libx264"@, preset, crf),
        spec_quality_args(codec, preset, crf) == seq![
            "-preset"@,
            preset,
            "-crf"@,
            spec_decimal(crf as nat),
        ],
{
    reveal_strlit("libx264");
    reveal_strlit("h264_nvenc");
    reveal_strlit("h264_qsv");
    reveal_strlit("h264_vaapi");
    reveal_strlit("h264_videotoolbox");
    assert("libx264"@.len() == 7);
    assert("h264_nvenc"@.len() == 10);
    assert("h264_qsv"@.len() == 8);
    assert("h264_vaapi"@.len() == 10);
    assert("h264_videotoolbox"@.len() == 17);
}

/// The whole argument list of one invocation: overwrite flag, raw-video
/// input declaration (pixel format, resolution, framerate, standard
/// input as source), codec selection, output pixel format, the quality
/// arguments, and the output path last.
pub open spec fn spec_invocation_args(inv: EncoderInvocation) -> Seq<Seq<char>> {
    seq![
        "-y"@,
        "-f"@,
        "rawvideo"@,
        "-pix_fmt"@,
        "rgba"@,
        "-s"@,
        spec_resolution_arg(inv.width, inv.height),
        "-r"@,
        spec_decimal(inv.framerate as nat),
        "-i"@,
        "pipe:0"@,
        "-c:v"@,
        inv.codec@,
        "-pix_fmt"@,
        "yuv420p"@,
    ] + spec_quality_args(inv.codec@, inv.preset@, inv.crf) + seq![inv.path@]
}

/// Renders the `<width>x<height>` resolution argument.
pub fn resolution_arg(w: u32, h: u32) -> (r: String)
    ensures
        r@ == spec_resolution_arg(w, h),
{
    let mut s = u32_decimal(w);
    s.append("x");
    let hs = u32_decimal(h);
    s.append(hs.as_str());
    proof {
        reveal_strlit("x");
        assert(s@ =~= spec_resolution_arg(w, h));
    }
    s
}

/// Builds the codec-dependent quality-argument pair.
pub fn quality_args(codec: &String, preset: &String, crf: u32) -> (r: Vec<String>)
    ensures
        r.deep_view() == spec_quality_args(codec@, preset@, crf),
{
    let nvenc: String = "h264_nvenc".to_owned();
    let qsv: String = "h264_qsv".to_owned();
    let vaapi: String = "h264_vaapi".to_owned();
    let videotoolbox: String = "h264_videotoolbox".to_owned();
    let mut r: Vec<String> = Vec::new();
    if *codec == nvenc {
        r.push("-preset".to_owned());
        r.push(preset.clone());
        r.push("-cq".to_owned());
        r.push(u32_decimal(crf));
    } else if *codec == qsv {
        r.push("-preset".to_owned());
        r.push(preset.clone());
        r.push("-global_quality".to_owned());
        r.push(u32_decimal(crf));
    } else if *codec == vaapi {
        r.push("-vaapi_device".to_owned());
        r.push("/dev/dri/renderD128".to_owned());
        r.push("-qp".to_owned());
        r.push(u32_decimal(crf));
    } else if *codec == videotoolbox {
        r.push("-q:v".to_owned());
        r.push(u32_decimal(crf));
    } else {
        r.push("-preset".to_owned());
        r.push(preset.clone());
        r.push("-crf".to_owned());
        r.push(u32_decimal(crf));
    }
    proof {
        assert(r.deep_view() =~= spec_quality_args(codec@, preset@, crf));
    }
    r
}

impl EncoderInvocation {
    /// Renders this invocation as the exact argument list handed to the
    /// external encoder executable.
    pub fn args(&self) -> (r: Vec<String>)
        ensures
            r.deep_view() == spec_invocation_args(*self),
    {
        let mut r: Vec<String> = Vec::new();
        r.push("-y".to_owned());
        r.push("-f".to_owned());
        r.push("rawvideo".to_owned());
        r.push("-pix_fmt".to_owned());
        r.push("rgba".to_owned());
        r.push("-s".to_owned());
        r.push(resolution_arg(self.width, self.height));
        r.push("-r".to_owned());
        r.push(u32_decimal(self.framerate));
        r.push("-i".to_owned());
        r.push("pipe:0".to_owned());
        r.push("-c:v".to_owned());
        r.push(self.codec.clone());
        r.push("-pix_fmt".to_owned());
        r.push("yuv420p".to_owned());
        let mut q = quality_args(&self.codec, &self.preset, self.crf);
        r.append(&mut q);
        r.push(self.path.clone());
        proof {
            assert(r.deep_view() =~= spec_invocation_args(*self));
        }
        r
    }
}

} // verus!
