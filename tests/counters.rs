use sonora::comfort_noise::{advance_seed, comfort_noise_phases, NoiseEstimateSchedule};
use sonora::echo_remover_metrics::MetricsSchedule;
use sonora::settings_queue::SettingsQueue;
use sonora::subband_erle::{
    accumulation_complete, advance_accumulation, decay_onset_hold, register_onset_update,
    BLOCKS_FOR_ONSET_DETECTION,
};

#[test]
fn seed_follows_the_linear_congruential_step() {
    assert_eq!(advance_seed(42), 2_900_899);
    assert_eq!(advance_seed(2_900_899), 646_213_768);
    assert!(advance_seed(u32::MAX) < 0x8000_0000);
}

#[test]
fn phases_are_drawn_from_the_seed() {
    let mut seed: u32 = 42;
    let phases = comfort_noise_phases(&mut seed, 4);
    assert_eq!(phases, vec![(0, 8), (9, 17), (0, 8), (17, 25)]);
    assert_eq!(seed, 1_171_637_142);

    let mut seed: u32 = 42;
    let bins = comfort_noise_phases(&mut seed, 63);
    assert_eq!(bins.len(), 63);
    assert_eq!(seed, 1_592_292_237);
    assert!(bins.iter().all(|&(s, c)| s < 32 && c == (s + 8) % 32));
}

#[test]
fn initial_noise_estimate_serves_for_its_window() {
    let mut schedule = NoiseEstimateSchedule::new();
    let mut noise_updates = 0;
    let mut initial_updates = 0;
    let mut discarded_at = 0;
    for block in 1..=1200 {
        let step = schedule.advance();
        if step.update_noise {
            noise_updates += 1;
        }
        if step.update_initial {
            initial_updates += 1;
        }
        if step.initial_discarded {
            discarded_at = block;
        }
    }
    assert_eq!(initial_updates, 999);
    assert_eq!(discarded_at, 1000);
    assert!(!schedule.initial_active());
    assert_eq!(noise_updates, 1200 - 51);
}

#[test]
fn accumulation_completes_every_sixth_block() {
    let mut points: i32 = 0;
    let mut completions = Vec::new();
    for block in 1..=18 {
        let restart = advance_accumulation(&mut points);
        assert_eq!(restart, block > 1 && (block - 1) % 6 == 0);
        if accumulation_complete(points) {
            completions.push(block);
        }
    }
    assert_eq!(completions, vec![6, 12, 18]);
}

#[test]
fn onset_hold_counts_down_and_rearms() {
    let mut coming_onset = true;
    let mut hold: i32 = 0;
    assert!(register_onset_update(&mut coming_onset, &mut hold));
    assert!(!coming_onset);
    assert_eq!(hold, BLOCKS_FOR_ONSET_DETECTION);
    assert!(!register_onset_update(&mut coming_onset, &mut hold));

    let mut decaying_blocks = 0;
    for _ in 0..250 {
        if decay_onset_hold(&mut hold, &mut coming_onset) {
            decaying_blocks += 1;
        }
    }
    assert_eq!(decaying_blocks, 151);
    assert_eq!(hold, 0);
    assert!(coming_onset);
}

#[test]
fn metrics_report_every_ten_seconds() {
    let mut schedule = MetricsSchedule::new();
    let mut collected = 0;
    let mut reports = Vec::new();
    for block in 1..=5000 {
        let step = schedule.advance();
        if step.collect {
            collected += 1;
        }
        if step.reported {
            reports.push(block);
        }
    }
    assert_eq!(collected, 2 * 2497);
    assert_eq!(reports, vec![2500, 5000]);
}

#[test]
fn settings_queue_is_bounded_fifo() {
    let mut q: SettingsQueue<i32> = SettingsQueue::new(2);
    assert!(q.push(1));
    assert!(q.push(2));
    assert!(!q.push(3));
    assert_eq!(q.len(), 2);
    assert_eq!(q.drain(), vec![1, 2]);
    assert_eq!(q.len(), 0);
    assert!(q.push(4));
    assert_eq!(q.drain(), vec![4]);
    let mut none: SettingsQueue<i32> = SettingsQueue::new(0);
    assert!(!none.push(1));
    assert_eq!(none.drain(), Vec::<i32>::new());
}
