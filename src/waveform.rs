//! The timing of the two transmitter programs: the burst generator, which
//! drives the carrier on each trigger, and the control encoder, which
//! triggers bursts in the NEC pattern of a frame word.

use vstd::prelude::*;

verus! {

/// The NEC carrier frequency, in hertz.
pub const CARRIER_HZ: u64 = 38222;

/// Clock ticks of the burst generator per carrier cycle (its loop body).
pub const TICKS_PER_CARRIER_CYCLE: u64 = 4;

/// Carrier cycles in one burst, about one timing unit.
pub const CYCLES_PER_BURST: u32 = 21;

/// The NEC timing unit, in nanoseconds.
pub const TIMING_UNIT_NS: u64 = 562500;

/// Clock ticks of the control encoder per timing unit.
pub const TICKS_PER_UNIT: u64 = 2;

/// Nanoseconds per second.
pub const NS_PER_S: u64 = 1000000000;

/// Fractional bits of a clock divider.
pub const DIVIDER_FRACTION_BITS: u64 = 8;

/// Bursts in the sync mark.
pub const SYNC_BURSTS: usize = 16;

/// Control ticks from the last sync burst to the burst that opens the first
/// data bit: the burst itself and the sync space.
pub const SYNC_SPACE_TICKS: u32 = 18;

/// Control ticks from one burst to the next for a zero bit.
pub const ZERO_BIT_TICKS: u32 = 4;

/// Control ticks from one burst to the next for a one bit.
pub const ONE_BIT_TICKS: u32 = 8;

/// Control ticks from one sync burst to the next.
pub const SYNC_BURST_TICKS: u32 = 2;

/// `num / den` rounded to the nearest integer, halves rounded up.
pub open spec fn nearest(num: nat, den: nat) -> nat {
    (2 * num + den) / (2 * den)
}

/// The burst generator's clock divider for system clock `sys_hz`, as a
/// fixed-point number with eight fractional bits:
/// `sys_hz / (CARRIER_HZ * TICKS_PER_CARRIER_CYCLE)`.
pub open spec fn carrier_divider_spec(sys_hz: nat) -> nat {
    nearest((sys_hz * 256) as nat, (CARRIER_HZ * TICKS_PER_CARRIER_CYCLE) as nat)
}

/// The control encoder's clock divider for system clock `sys_hz`, as a
/// fixed-point number with eight fractional bits: `sys_hz` over two ticks
/// per timing unit.
pub open spec fn control_divider_spec(sys_hz: nat) -> nat {
    nearest((sys_hz * TIMING_UNIT_NS * 256) as nat, (TICKS_PER_UNIT * NS_PER_S) as nat)
}

fn nearest_of(num: u64, den: u64) -> (r: u64)
    requires
        0 < den,
        num <= u64::MAX / 4,
        den <= u64::MAX / 4,
    ensures
        r == nearest(num as nat, den as nat),
{
    (2 * num + den) / (2 * den)
}

/// The burst generator's clock divider, in raw fixed-point bits, for the
/// system clock frequency `sys_hz` read at start.
pub fn carrier_clock_divider(sys_hz: u32) -> (r: u32)
    ensures
        r == carrier_divider_spec(sys_hz as nat),
{
    let num = (sys_hz as u64) << DIVIDER_FRACTION_BITS;
    assert(num == sys_hz * 256) by (bit_vector)
        requires
            num == (sys_hz as u64) << 8u64,
    ;
    let r = nearest_of(num, CARRIER_HZ * TICKS_PER_CARRIER_CYCLE);
    assert(r <= u32::MAX) by (nonlinear_arith)
        requires
            r as int == (2 * (num as int) + 152888) / 305776,
            num <= 0x1_0000_0000 * 256,
    ;
    r as u32
}

/// The control encoder's clock divider, in raw fixed-point bits, for the
/// system clock frequency `sys_hz` read at start.
pub fn control_clock_divider(sys_hz: u32) -> (r: u32)
    ensures
        r == control_divider_spec(sys_hz as nat),
{
    let num = ((sys_hz as u64) * TIMING_UNIT_NS) << DIVIDER_FRACTION_BITS;
    let m = (sys_hz as u64) * TIMING_UNIT_NS;
    assert(m <= 0x1_0000_0000 * 562500) by (nonlinear_arith)
        requires
            m == sys_hz * 562500,
            sys_hz <= 0xffff_ffff,
    ;
    assert(num == m * 256) by (bit_vector)
        requires
            num == m << 8u64,
            m <= 0x1_0000_0000 * 562500,
    ;
    let r = nearest_of(num, TICKS_PER_UNIT * NS_PER_S);
    assert(r <= u32::MAX) by (nonlinear_arith)
        requires
            r as int == (2 * (num as int) + 2000000000) / 4000000000,
            num <= 0x1_0000_0000 * 562500 * 256,
    ;
    r as u32
}

/// Whether bit `i` of `word` is set.
pub open spec fn bit_of(word: u32, i: int) -> bool {
    (word >> (i as u32)) & 1 == 1
}

/// The control ticks from each burst trigger to the next for one frame: the
/// sync mark of sixteen bursts back to back, the sync space, then for each
/// of the thirty-two bits, least significant first, a short gap for a zero
/// and a long one for a one.
pub open spec fn trigger_gaps_spec(word: u32) -> Seq<u32> {
    Seq::new((SYNC_BURSTS - 1) as nat, |i: int| SYNC_BURST_TICKS).push(SYNC_SPACE_TICKS) + Seq::new(
        32,
        |i: int|
            if bit_of(word, i) {
                ONE_BIT_TICKS
            } else {
                ZERO_BIT_TICKS
            },
    )
}

/// The gaps, in control ticks, between the bursts that the control encoder
/// triggers for `word`.
pub fn trigger_gaps(word: u32) -> (r: Vec<u32>)
    ensures
        r@ == trigger_gaps_spec(word),
{
    let mut r: Vec<u32> = Vec::new();
    let mut k: usize = 0;
    while k < SYNC_BURSTS - 1
        invariant
            k <= SYNC_BURSTS - 1,
            r@ =~= Seq::new(k as nat, |i: int| SYNC_BURST_TICKS),
        decreases SYNC_BURSTS - 1 - k,
    {
        r.push(SYNC_BURST_TICKS);
        k = k + 1;
    }
    r.push(SYNC_SPACE_TICKS);
    let ghost head = r@;
    let mut i: u32 = 0;
    while i < 32
        invariant
            i <= 32,
            head == Seq::new((SYNC_BURSTS - 1) as nat, |i: int| SYNC_BURST_TICKS).push(
                SYNC_SPACE_TICKS,
            ),
            r@ =~= head + Seq::new(
                i as nat,
                |j: int|
                    if bit_of(word, j) {
                        ONE_BIT_TICKS
                    } else {
                        ZERO_BIT_TICKS
                    },
            ),
        decreases 32 - i,
    {
        if (word >> i) & 1 == 1 {
            r.push(ONE_BIT_TICKS);
        } else {
            r.push(ZERO_BIT_TICKS);
        }
        i = i + 1;
    }
    r
}

/// The level of the output pin at each tick of the burst generator during
/// one burst of `cycles` carrier cycles: high for the first tick of each
/// cycle, low for the other three.
pub open spec fn burst_levels_spec(cycles: nat) -> Seq<bool> {
    Seq::new(cycles * 4, |t: int| t % 4 == 0)
}

/// The output levels, tick by tick, of one burst of `cycles` carrier cycles.
pub fn burst_levels(cycles: u32) -> (r: Vec<bool>)
    requires
        cycles as nat * 4 <= usize::MAX,
    ensures
        r@ == burst_levels_spec(cycles as nat),
{
    let mut r: Vec<bool> = Vec::new();
    let mut c: u32 = 0;
    while c < cycles
        invariant
            c <= cycles,
            cycles as nat * 4 <= usize::MAX,
            r@ =~= Seq::new(c as nat * 4, |t: int| t % 4 == 0),
        decreases cycles - c,
    {
        r.push(true);
        r.push(false);
        r.push(false);
        r.push(false);
        c = c + 1;
    }
    r
}

} // verus!
