use synth_host::clock::BeatClock;
use synth_host::rhythm::Rhythm;

#[test]
fn controller() {
    // The clock starts disabled and never fires until it is enabled;
    // enabling rewinds it so the first fired position is (0, 0).
    let mut clock = BeatClock::new();
    assert_eq!(clock.tick(0), None);
    clock.set_enabled(true, 0);
    assert_eq!(clock.tick(0), Some((0, 0)));
}

#[test]
fn eight_ticks_per_second_at_120_bpm() {
    // tempo=120bpm, rhythm 4x4: period = 60/(120*4) = 0.125s, so a loop
    // sampling every 10ms fires exactly 8 beat-ticks in one second.
    let mut clock = BeatClock::new();
    clock.set_rhythm(Rhythm { num_beats: 4, num_divs: 4 }, 0);
    clock.set_tempo_bpm(120);
    clock.set_enabled(true, 0);

    let mut fires = 0;
    let mut now: i64 = 0;
    while now < 1_000_000 {
        if clock.tick(now).is_some() {
            fires += 1;
        }
        now += 10_000;
    }
    assert_eq!(fires, 8);
}

#[test]
fn position_stays_inside_the_rhythm() {
    // Whatever mix of ticks, resets and rhythm changes runs, the position
    // never escapes the rhythm.
    let mut clock = BeatClock::new();
    clock.set_enabled(true, 0);
    let mut now: i64 = 0;
    for step in 0..2000u32 {
        now += 997 * (1 + (step % 7)) as i64;
        if step == 300 {
            clock.set_rhythm(Rhythm { num_beats: 3, num_divs: 5 }, now);
        }
        if step == 700 {
            clock.set_rhythm(Rhythm { num_beats: 1, num_divs: 1 }, now);
        }
        if step == 900 {
            clock.set_tempo_bpm(480);
        }
        if step == 1200 {
            clock.reset(now);
        }
        clock.tick(now);
        assert!(clock.current_beat < clock.rhythm.num_beats);
        assert!(clock.current_div < clock.rhythm.num_divs);
    }
}

#[test]
fn fired_positions_walk_the_grid_in_order() {
    let mut clock = BeatClock::new();
    clock.set_rhythm(Rhythm { num_beats: 2, num_divs: 2 }, 0);
    clock.set_tempo_bpm(60);
    clock.set_enabled(true, 0);
    // period = 60/(60*2) = 0.5s
    let mut fired = Vec::new();
    let mut now: i64 = 0;
    while now <= 2_000_000 {
        if let Some(pos) = clock.tick(now) {
            fired.push(pos);
        }
        now += 100_000;
    }
    assert_eq!(fired, vec![(0, 0), (0, 1), (1, 0), (1, 1), (0, 0)]);
}

#[test]
fn accumulated_fire_times_do_not_drift() {
    // The fire time advances by exactly one period per fire even when the
    // polling is late, so timing errors do not accumulate.
    let mut clock = BeatClock::new();
    clock.set_tempo_bpm(120);
    clock.set_rhythm(Rhythm { num_beats: 4, num_divs: 4 }, 0);
    clock.set_enabled(true, 0);
    assert!(clock.tick(40_000).is_some());
    // Fires credited at 0us; the next is due at 125000us, not 165000us.
    assert_eq!(clock.tick(124_000), None);
    assert!(clock.tick(126_000).is_some());
}
