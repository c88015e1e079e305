//! Codec selection policy: explicit hardware preference first, then the
//! auto-detected hardware capability in a fixed probe order, then the
//! universally-available software codec. Also the textual capability
//! test: whether a candidate codec name appears in the executable's
//! advertised encoder listing.

use vstd::prelude::*;

verus! {

/// Which hardware encoder candidates the executable advertises, one flag
/// per candidate, gathered by the unverified driver from a
/// capability-listing invocation of the executable.
#[derive(Clone, Copy, Debug)]
pub struct HardwareProbe {
    /// NVIDIA NVENC (`h264_nvenc`) is advertised.
    pub nvenc: bool,
    /// Intel Quick Sync Video (`h264_qsv`) is advertised.
    pub qsv: bool,
    /// VAAPI (`h264_vaapi`) is advertised.
    pub vaapi: bool,
    /// VideoToolbox (`h264_videotoolbox`) is advertised.
    pub videotoolbox: bool,
}

/// The first advertised candidate in the fixed probe order:
/// NVENC, then Quick Sync, then VAAPI, then VideoToolbox.
pub open spec fn spec_detect(p: HardwareProbe) -> Option<Seq<char>> {
    if p.nvenc {
        Some("h264_nvenc"@)
    } else if p.qsv {
        Some("h264_qsv"@)
    } else if p.vaapi {
        Some("h264_vaapi"@)
    } else if p.videotoolbox {
        Some("h264_videotoolbox"@)
    } else {
        None
    }
}

/// The view of an optional codec name.
pub open spec fn spec_opt_name(o: Option<String>) -> Option<Seq<char>> {
    match o {
        Some(s) => Some(s@),
        None => None,
    }
}

/// The effective codec: the explicit preference if one was configured,
/// else the detected hardware capability, else the software fallback.
pub open spec fn spec_select_codec(explicit: Option<Seq<char>>, detected: Option<Seq<char>>) -> Seq<char> {
    if explicit is Some {
        explicit->Some_0
    } else if detected is Some {
        detected->Some_0
    } else {
        "libx264"@
    }
}

/// Resolves the effective codec name from the configured preference and
/// the detection result.
pub fn select_codec(explicit: &Option<String>, detected: &Option<String>) -> (r: String)
    ensures
        r@ == spec_select_codec(spec_opt_name(*explicit), spec_opt_name(*detected)),
{
    match explicit {
        Some(c) => c.clone(),
        None => match detected {
            Some(c) => c.clone(),
            None => "libx264".to_owned(),
        },
    }
}

/// Codec selection priority is deterministic: an explicit hardware
/// preference wins; else the first advertised candidate in the fixed
/// probe order (NVENC, then Quick Sync, then VAAPI, then VideoToolbox);
/// else the software fallback.
pub proof fn lemma_codec_priority(explicit: Option<Seq<char>>, probe: HardwareProbe)
    ensures
        explicit matches Some(c) ==> spec_select_codec(explicit, spec_detect(probe)) == c,
        explicit is None && probe.nvenc ==> spec_select_codec(explicit, spec_detect(probe))
            == "h264_nvenc"@,
        explicit is None && !probe.nvenc && probe.qsv ==> spec_select_codec(
            explicit,
            spec_detect(probe),
        ) == "h264_qsv"@,
        explicit is None && !probe.nvenc && !probe.qsv && probe.vaapi ==> spec_select_codec(
            explicit,
            spec_detect(probe),
        ) == "h264_vaapi"@,
        explicit is None && !probe.nvenc && !probe.qsv && !probe.vaapi && probe.videotoolbox
            ==> spec_select_codec(explicit, spec_detect(probe)) == "h264_videotoolbox"@,
        explicit is None && !probe.nvenc && !probe.qsv && !probe.vaapi && !probe.videotoolbox
            ==> spec_select_codec(explicit, spec_detect(probe)) == "libx264"@,
{
}

/// `needle` occurs contiguously somewhere in `haystack`.
pub open spec fn spec_contains(haystack: Seq<u8>, needle: Seq<u8>) -> bool {
    exists|i: int|
        0 <= i && i + needle.len() <= haystack.len() && #[trigger] haystack.subrange(
            i,
            i + needle.len() as int,
        ) == needle
}

/// Whether `needle` occurs as a contiguous byte run in `haystack`: the
/// textual capability test applied to a captured encoder listing.
pub fn bytes_contain(haystack: &Vec<u8>, needle: &Vec<u8>) -> (r: bool)
    ensures
        r == spec_contains(haystack@, needle@),
{
    if needle.len() == 0 {
        proof {
            assert(haystack@.subrange(0, 0 + needle@.len() as int) =~= needle@);
        }
        return true;
    }
    if needle.len() > haystack.len() {
        return false;
    }
    let last: usize = haystack.len() - needle.len();
    let mut i: usize = 0;
    while i <= last
        invariant
            1 <= needle.len() <= haystack.len(),
            last == haystack.len() - needle.len(),
            0 <= i <= last + 1,
            forall|j: int|
                0 <= j < i ==> #[trigger] haystack@.subrange(j, j + needle.len() as int)
                    != needle@,
        decreases last + 1 - i,
    {
        let mut k: usize = 0;
        while k < needle.len() && haystack[i + k] == needle[k]
            invariant
                1 <= needle.len() <= haystack.len(),
                i + needle.len() <= haystack.len(),
                0 <= k <= needle.len(),
                forall|t: int| 0 <= t < k ==> haystack@[i + t] == #[trigger] needle@[t],
            decreases needle.len() - k,
        {
            k = k + 1;
        }
        if k == needle.len() {
            proof {
                assert(haystack@.subrange(i as int, i + needle.len() as int) =~= needle@);
            }
            return true;
        }
        proof {
            assert(haystack@.subrange(i as int, i + needle.len() as int)[k as int] == haystack@[i
                + k]);
            assert(haystack@.subrange(i as int, i + needle.len() as int) != needle@);
        }
        i = i + 1;
    }
    proof {
        assert forall|j: int|
            0 <= j && j + needle@.len() <= haystack@.len() implies #[trigger] haystack@.subrange(
            j,
            j + needle@.len() as int,
        ) != needle@ by {
            assert(j < i);
        }
    }
    false
}

} // verus!
