use pico_ir::waveform::{burst_levels, carrier_clock_divider, control_clock_divider, trigger_gaps};

#[test]
fn clock_dividers_at_125_mhz() {
    assert_eq!(carrier_clock_divider(125_000_000), 209304);
    assert_eq!(control_clock_divider(125_000_000), 9_000_000);
}

#[test]
fn clock_dividers_follow_the_system_clock() {
    assert_eq!(control_clock_divider(200_000_000), 14_400_000);
    assert_eq!(carrier_clock_divider(0), 0);
    assert!(carrier_clock_divider(u32::MAX) > 0);
}

#[test]
fn trigger_gaps_of_a_frame() {
    let g = trigger_gaps(0x88772385);
    assert_eq!(g.len(), 48);
    assert!(g[..15].iter().all(|&t| t == 2));
    assert_eq!(g[15], 18);
    let bits: Vec<u32> = vec![
        8, 4, 8, 4, 4, 4, 4, 8, 8, 8, 4, 4, 4, 8, 4, 4, 8, 8, 8, 4, 8, 8, 8, 4, 4, 4, 4, 8, 4, 4,
        4, 8,
    ];
    assert_eq!(&g[16..], &bits[..]);
}

#[test]
fn burst_levels_of_one_burst() {
    let l = burst_levels(21);
    assert_eq!(l.len(), 84);
    assert_eq!(&l[..8], &[true, false, false, false, true, false, false, false]);
    assert_eq!(l.iter().filter(|&&x| x).count(), 21);
    assert!(burst_levels(0).is_empty());
}
