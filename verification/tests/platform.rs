use actor_core::EspRand;
use actor_core::task::to_ticks;

#[test]
fn two_entropy_words_widen_high_word_first() {
    assert_eq!(
        EspRand::next_u64_from(0x1234_5678, 0x9abc_def0),
        0x1234_5678_9abc_def0
    );
    assert_eq!(EspRand::next_u64_from(1, 2), 0x1_0000_0002);
    assert_eq!(EspRand::next_u64_from(0, 0xffff_ffff), 0xffff_ffff);
    assert_eq!(
        EspRand::next_u64_from(0xffff_ffff, 0),
        0xffff_ffff_0000_0000
    );
}

#[test]
fn ticks_scale_by_the_platform_tick_rate() {
    assert_eq!(to_ticks(1000, 100), 100);
    assert_eq!(to_ticks(500, 1000), 500);
    assert_eq!(to_ticks(50, 100), 5);
}

#[test]
fn sub_tick_durations_round_down_to_zero() {
    assert_eq!(to_ticks(3, 100), 0);
    assert_eq!(to_ticks(9, 100), 0);
    assert_eq!(to_ticks(10, 100), 1);
}

#[test]
fn tick_counts_truncate_to_the_32_bit_tick_type() {
    // 50_000_000_000 ms at 100 Hz is 5_000_000_000 ticks, which wraps the
    // 32-bit tick type to 705_032_704.
    assert_eq!(to_ticks(50_000_000_000, 100), 705_032_704);
}
