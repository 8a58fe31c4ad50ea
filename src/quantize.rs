use vstd::prelude::*;
use crate::config::limit_of;

verus! {

/// `v` limited to `[-limit, limit]`.
pub open spec fn clamp_to(v: int, limit: int) -> int {
    if v > limit {
        limit
    } else if v < -limit {
        -limit
    } else {
        v
    }
}

/// All channels of a planar block hold the same number of frames.
pub open spec fn is_rectangular<T>(planar: Seq<Vec<T>>) -> bool {
    &&& planar.len() >= 1
    &&& forall|c: int| 0 <= c < planar.len() ==> #[trigger] planar[c]@.len() == planar[0]@.len()
}

/// Frame-major interleaving of a planar block: every channel of frame `k`
/// before frame `k + 1`.
pub open spec fn is_interleaving_of(out: Seq<i16>, planar: Seq<Vec<i32>>, limit: int) -> bool {
    &&& out.len() == planar[0]@.len() * planar.len()
    &&& forall|k: int, c: int|
        0 <= k < planar[0]@.len() && 0 <= c < planar.len() ==> #[trigger] out[k * planar.len() + c]
            == clamp_to(#[trigger] planar[c]@[k] as int, limit)
}

/// Whatever the input, a sample quantized against the limit that a headroom
/// of `headroom_permille` thousandths gives lies within that fraction of full
/// scale: `|q| <= headroom * 32767`.
pub proof fn lemma_quantized_within_headroom(v: int, headroom_permille: int)
    requires
        0 <= headroom_permille <= 1000,
    ensures
        -headroom_permille * 32767 <= 1000 * clamp_to(v, limit_of(headroom_permille))
            <= headroom_permille * 32767,
{
    let l = limit_of(headroom_permille);
    assert(0 <= 1000 * l <= headroom_permille * 32767) by (nonlinear_arith)
        requires
            l == headroom_permille * 32767 / 1000,
            0 <= headroom_permille,
    ;
}

proof fn lemma_frame_index(j: int, k: int, c: int, channels: int)
    requires
        0 <= j < k,
        0 <= c < channels,
    ensures
        0 <= j * channels + c < k * channels,
{
    assert(0 <= j * channels + c < k * channels) by (nonlinear_arith)
        requires
            0 <= j < k,
            0 <= c < channels,
    ;
}

/// Turns one scaled sample (already multiplied by the headroom factor and by
/// full scale, and truncated toward zero) into 16-bit PCM within
/// `[-limit, limit]`.
pub fn quantize_sample(scaled: i32, limit: i16) -> (r: i16)
    requires
        0 <= limit,
    ensures
        r as int == clamp_to(scaled as int, limit as int),
        -limit <= r <= limit,
{
    if scaled > limit as i32 {
        limit
    } else if scaled < -(limit as i32) {
        -limit
    } else {
        scaled as i16
    }
}

/// Quantizes a planar block and interleaves it frame by frame.
pub fn quantize_block(planar: &Vec<Vec<i32>>, limit: i16) -> (r: Vec<i16>)
    requires
        0 <= limit,
        is_rectangular(planar@),
        planar@[0]@.len() * planar@.len() <= usize::MAX,
    ensures
        is_interleaving_of(r@, planar@, limit as int),
        forall|i: int| 0 <= i < r@.len() ==> -limit <= #[trigger] r@[i] <= limit,
{
    let channels = planar.len();
    let frames = planar[0].len();
    let mut out: Vec<i16> = Vec::with_capacity(frames * channels);
    let mut k: usize = 0;
    while k < frames
        invariant
            channels == planar@.len(),
            frames == planar@[0]@.len(),
            is_rectangular(planar@),
            0 <= limit,
            k <= frames,
            frames * channels <= usize::MAX,
            out@.len() == k * channels,
            forall|j: int, c: int|
                0 <= j < k && 0 <= c < channels ==> #[trigger] out@[j * channels + c]
                    == clamp_to(#[trigger] planar@[c]@[j] as int, limit as int),
            forall|i: int| 0 <= i < out@.len() ==> -limit <= #[trigger] out@[i] <= limit,
        decreases frames - k,
    {
        let mut c: usize = 0;
        while c < channels
            invariant
                channels == planar@.len(),
                frames == planar@[0]@.len(),
                is_rectangular(planar@),
                0 <= limit,
                k < frames,
                c <= channels,
                frames * channels <= usize::MAX,
                out@.len() == k * channels + c,
                forall|j: int, c2: int|
                    0 <= j < k && 0 <= c2 < channels ==> #[trigger] out@[j * channels + c2]
                        == clamp_to(#[trigger] planar@[c2]@[j] as int, limit as int),
                forall|c2: int|
                    0 <= c2 < c ==> #[trigger] out@[k * channels + c2] == clamp_to(
                        planar@[c2]@[k as int] as int,
                        limit as int,
                    ),
                forall|i: int| 0 <= i < out@.len() ==> -limit <= #[trigger] out@[i] <= limit,
            decreases channels - c,
        {
            proof {
                assert(planar@[c as int]@.len() == frames);
                assert((k + 1) * channels <= frames * channels) by (nonlinear_arith)
                    requires
                        k < frames,
                ;
            }
            let q = quantize_sample(planar[c][k], limit);
            let ghost prev = out@;
            out.push(q);
            proof {
                assert forall|j: int, c2: int|
                    0 <= j < k && 0 <= c2 < channels implies #[trigger] out@[j * channels + c2]
                    == clamp_to(#[trigger] planar@[c2]@[j] as int, limit as int) by {
                    lemma_frame_index(j, k as int, c2, channels as int);
                    assert(out@[j * channels + c2] == prev[j * channels + c2]);
                }
            }
            c = c + 1;
        }
        proof {
            assert forall|j: int, c2: int|
                0 <= j < k + 1 && 0 <= c2 < channels implies #[trigger] out@[j * channels + c2]
                == clamp_to(#[trigger] planar@[c2]@[j] as int, limit as int) by {
                if j < k {
                } else {
                    assert(j == k);
                }
            }
            assert((k + 1) * channels == k * channels + channels) by (nonlinear_arith);
        }
        k = k + 1;
    }
    out
}

} // verus!
