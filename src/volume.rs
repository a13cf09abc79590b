use vstd::prelude::*;

verus! {

/// Native level of a silent channel on the audio server's scale.
pub const NATIVE_MUTED: u32 = 0;

/// Native level that the audio server calls 100%.
pub const NATIVE_NORMAL: u32 = 0x10000;

/// Highest percentage a volume may reach through arithmetic (amplification).
pub const MAX_PERCENT: i32 = 150;

/// Highest percentage that decoding a native level ever reports.
pub const MAX_DECODED_PERCENT: i32 = 100;

/// `p` limited to `[0, 150]`.
pub open spec fn clamp_spec(p: int) -> int {
    if p < 0 {
        0
    } else if p > MAX_PERCENT {
        MAX_PERCENT as int
    } else {
        p
    }
}

/// Percentage of a native level, truncated toward zero.
pub open spec fn truncated_percent(raw: int) -> int {
    (raw - NATIVE_MUTED) * 100 / (NATIVE_NORMAL - NATIVE_MUTED)
}

/// Rounding of a truncated percentage to a multiple of five, floor-based.
pub open spec fn round_to_five(p: int) -> int {
    (p + 2) / 5 * 5
}

/// The percentage reported for a native level.
pub open spec fn from_native_spec(raw: int) -> int {
    let r = clamp_spec(round_to_five(truncated_percent(raw)));
    if r > MAX_DECODED_PERCENT {
        MAX_DECODED_PERCENT as int
    } else {
        r
    }
}

/// The native level written for a percentage, truncated and kept within `u32`.
pub open spec fn to_native_spec(p: int) -> int {
    let raw = NATIVE_MUTED + p * (NATIVE_NORMAL - NATIVE_MUTED) / 100;
    if raw < 0 {
        0
    } else if raw > u32::MAX {
        u32::MAX as int
    } else {
        raw
    }
}

/// Largest element of `s`, or the muted level when `s` is empty.
pub open spec fn peak_spec(s: Seq<u32>) -> int
    decreases s.len(),
{
    if s.len() == 0 {
        NATIVE_MUTED as int
    } else {
        let rest = peak_spec(s.drop_last());
        if s.last() > rest {
            s.last() as int
        } else {
            rest
        }
    }
}

/// A volume as a percentage of the audio server's normal level.
#[derive(Clone, Copy, Debug, PartialEq, Eq, Structural)]
pub struct DashiVolume(pub i32);

impl DashiVolume {
    /// The percentage held.
    pub open spec fn percent(self) -> int {
        self.0 as int
    }

    /// Within `[0, 150]`, the range every constructor but the bare tuple keeps.
    pub open spec fn wf(self) -> bool {
        0 <= self.0 <= MAX_PERCENT
    }

    /// The value limited to `[0, 150]`.
    pub fn clamp(self) -> (r: DashiVolume)
        ensures
            r.wf(),
            r.percent() == clamp_spec(self.percent()),
    {
        if self.0 < 0 {
            DashiVolume(0)
        } else if self.0 > MAX_PERCENT {
            DashiVolume(MAX_PERCENT)
        } else {
            self
        }
    }

    /// A volume from a user-supplied percentage, limited to `[0, 150]`.
    pub fn from_percent(n: u32) -> (r: DashiVolume)
        ensures
            r.wf(),
            r.percent() == clamp_spec(n as int),
    {
        if n > MAX_PERCENT as u32 {
            DashiVolume(MAX_PERCENT)
        } else {
            DashiVolume(n as i32)
        }
    }

    /// Saturating sum, limited to `[0, 150]`.
    pub fn add(self, rhs: DashiVolume) -> (r: DashiVolume)
        ensures
            r.wf(),
            r.percent() == clamp_spec(self.percent() + rhs.percent()),
    {
        let sum: i64 = self.0 as i64 + rhs.0 as i64;
        DashiVolume(clamp_wide(sum))
    }

    /// Saturating difference, limited to `[0, 150]`.
    pub fn sub(self, rhs: DashiVolume) -> (r: DashiVolume)
        ensures
            r.wf(),
            r.percent() == clamp_spec(self.percent() - rhs.percent()),
    {
        let diff: i64 = self.0 as i64 - rhs.0 as i64;
        DashiVolume(clamp_wide(diff))
    }

    /// Decodes a native level: truncated percentage, rounded to a multiple of
    /// five by `(p + 2) / 5 * 5`, never above 100.
    pub fn from_native(raw: u32) -> (r: DashiVolume)
        ensures
            r.wf(),
            r.percent() == from_native_spec(raw as int),
            0 <= r.percent() <= MAX_DECODED_PERCENT,
            r.percent() % 5 == 0,
    {
        let range: u64 = (NATIVE_NORMAL - NATIVE_MUTED) as u64;
        let scaled: u64 = (raw as u64 - NATIVE_MUTED as u64) * 100;
        let p: u64 = scaled / range;
        assert(p <= scaled) by (nonlinear_arith)
            requires
                p == scaled / range,
                range == 0x10000,
        ;
        let rounded: u64 = (p + 2) / 5 * 5;
        let r: i32 = if rounded > MAX_DECODED_PERCENT as u64 {
            MAX_DECODED_PERCENT
        } else {
            rounded as i32
        };
        DashiVolume(r)
    }

    /// Encodes the percentage on the native scale, truncating.
    pub fn to_native(&self) -> (r: u32)
        ensures
            r == to_native_spec(self.percent()),
    {
        let range: i64 = (NATIVE_NORMAL - NATIVE_MUTED) as i64;
        assert(range == 0x10000);
        let scaled: i64 = self.0 as i64 * range / 100;
        let raw: i64 = NATIVE_MUTED as i64 + scaled;
        if raw < 0 {
            0
        } else if raw > u32::MAX as i64 {
            u32::MAX
        } else {
            raw as u32
        }
    }

    /// Overwrites every channel with this volume's native level.
    pub fn set(&self, channels: &mut Vec<u32>)
        ensures
            final(channels)@.len() == old(channels)@.len(),
            forall|i: int|
                0 <= i < final(channels)@.len() ==> final(channels)@[i] == to_native_spec(
                    self.percent(),
                ),
    {
        let level = self.to_native();
        let n = channels.len();
        let mut i: usize = 0;
        while i < n
            invariant
                channels@.len() == n,
                i <= n,
                forall|j: int| 0 <= j < i ==> channels@[j] == level,
            decreases n - i,
        {
            channels.set(i, level);
            i = i + 1;
        }
    }
}

fn clamp_wide(p: i64) -> (r: i32)
    ensures
        r == clamp_spec(p as int),
{
    if p < 0 {
        0
    } else if p > MAX_PERCENT as i64 {
        MAX_PERCENT
    } else {
        p as i32
    }
}

/// The loudest channel of a set, or the muted level for an empty set.
pub fn channel_peak(channels: &Vec<u32>) -> (r: u32)
    ensures
        r == peak_spec(channels@),
{
    let mut best: u32 = NATIVE_MUTED;
    let mut i: usize = 0;
    while i < channels.len()
        invariant
            i <= channels@.len(),
            best == peak_spec(channels@.subrange(0, i as int)),
        decreases channels@.len() - i,
    {
        proof {
            let s = channels@.subrange(0, i as int + 1);
            assert(s.drop_last() =~= channels@.subrange(0, i as int));
            assert(s.last() == channels@[i as int]);
        }
        if channels[i] > best {
            best = channels[i];
        }
        i = i + 1;
    }
    assert(channels@.subrange(0, channels@.len() as int) =~= channels@);
    best
}

/// The percentage reported for a channel set: its loudest channel, decoded.
pub fn channels_percent(channels: &Vec<u32>) -> (r: DashiVolume)
    ensures
        r.percent() == from_native_spec(peak_spec(channels@)),
{
    DashiVolume::from_native(channel_peak(channels))
}

/// Levels within `[0, normal]` whose truncated percentage lies two above a
/// multiple of five and which sit more than a fortieth of the normal level
/// above that multiple: there the floor-based rounding moves them further
/// than half a step.
pub open spec fn rounds_past_half_step(raw: int) -> bool {
    let p = truncated_percent(raw);
    p % 5 == 2 && 100 * raw > (p - 2) * NATIVE_NORMAL + 100 * (NATIVE_NORMAL / 40)
}

/// Decoding a native level and encoding the result again lands within half of
/// a five-point step (a fortieth of the normal level) of the starting level,
/// for every level in `[0, normal]` that the floor-based rounding does not
/// carry past half a step.
pub proof fn lemma_native_round_trip(raw: u32)
    requires
        raw <= NATIVE_NORMAL,
        !rounds_past_half_step(raw as int),
    ensures
        40 * (to_native_spec(from_native_spec(raw as int)) - raw) <= NATIVE_NORMAL,
        40 * (raw - to_native_spec(from_native_spec(raw as int))) <= NATIVE_NORMAL,
{
    let n = NATIVE_NORMAL as int;
    let r = raw as int;
    let p = truncated_percent(r);
    assert(p == r * 100 / n);
    assert(p * n <= r * 100 < (p + 1) * n) by (nonlinear_arith)
        requires
            p == r * 100 / n,
            n == 0x10000,
            r >= 0,
    ;
    assert(0 <= p <= 100) by (nonlinear_arith)
        requires
            p * n <= r * 100,
            r * 100 < (p + 1) * n,
            r <= n,
            n == 0x10000,
            r >= 0,
    ;
    let v = from_native_spec(r);
    assert(v == round_to_five(p));
    let back = v * n / 100;
    assert(100 * back <= v * n < 100 * back + 100) by (nonlinear_arith)
        requires
            back == v * n / 100,
            n == 0x10000,
    ;
    assert(0 <= back <= n);
    assert(to_native_spec(v) == back);
}

/// A multiple of five within `[0, 100]`, encoded on the native scale and
/// decoded again, reads back exactly: setting such a level and then querying
/// it reports the level that was set.
pub proof fn lemma_grid_round_trip(n: int)
    requires
        0 <= n <= MAX_DECODED_PERCENT,
        n % 5 == 0,
    ensures
        from_native_spec(to_native_spec(n)) == n,
{
    let big = NATIVE_NORMAL as int;
    let raw = n * big / 100;
    assert(100 * raw <= n * big < 100 * raw + 100) by (nonlinear_arith)
        requires
            raw == n * big / 100,
            big == 0x10000,
    ;
    assert(0 <= raw <= big);
    assert(to_native_spec(n) == raw);
    let p = raw * 100 / big;
    assert(p * big <= raw * 100 < (p + 1) * big) by (nonlinear_arith)
        requires
            p == raw * 100 / big,
            big == 0x10000,
            raw >= 0,
    ;
    assert(n - 1 <= p <= n) by (nonlinear_arith)
        requires
            p * big <= raw * 100,
            raw * 100 < (p + 1) * big,
            100 * raw <= n * big,
            n * big < 100 * raw + 100,
            big == 0x10000,
    ;
}

} // verus!
