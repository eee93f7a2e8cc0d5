use squish::target::{shortfall_warning, TargetDecision, TargetSearch, MAX_ATTEMPTS};

/// Runs a search over the given attempt sizes; returns the settings of each attempt made and
/// the final decision.
fn simulate(target_kb: u32, quality: u8, lens: &[u64]) -> (Vec<(u8, u8)>, TargetDecision, Option<usize>) {
    let mut s = TargetSearch::new(target_kb, quality);
    let mut tried = Vec::new();
    let mut kept = None;
    for (i, len) in lens.iter().enumerate() {
        tried.push((s.quality, s.scale_pct));
        match s.step(*len) {
            TargetDecision::Retry { next, keep } => {
                if keep {
                    kept = Some(i);
                }
                s = next;
            }
            TargetDecision::GiveUp { keep, best_len } => {
                if keep {
                    kept = Some(i);
                }
                return (tried, TargetDecision::GiveUp { keep, best_len }, kept);
            }
            TargetDecision::Accept => return (tried, TargetDecision::Accept, Some(i)),
        }
    }
    panic!("search did not end");
}

#[test]
fn fitting_attempt_is_accepted_at_once() {
    let s = TargetSearch::new(100, 82);
    assert_eq!(s.target_len(), 102400);
    assert_eq!(s.step(102400), TargetDecision::Accept);
    assert_eq!(s.step(0), TargetDecision::Accept);
}

#[test]
fn quality_drops_before_scale() {
    let s = TargetSearch::new(100, 82);
    match s.step(102401) {
        TargetDecision::Retry { next, keep } => {
            assert!(keep);
            assert_eq!(next.quality, 74);
            assert_eq!(next.scale_pct, 100);
            assert_eq!(next.attempts, 1);
            assert_eq!(next.best_len, Some(102401));
        }
        other => panic!("unexpected {:?}", other),
    }
}

#[test]
fn search_gives_up_after_ten_attempts() {
    let lens = vec![500_000u64; 20];
    let (tried, end, kept) = simulate(100, 82, &lens);
    assert_eq!(tried.len(), MAX_ATTEMPTS as usize);
    assert_eq!(
        tried,
        vec![(82, 100), (74, 100), (66, 100), (58, 100), (50, 100), (42, 100), (35, 100), (35, 88), (35, 76), (35, 64)]
    );
    assert_eq!(end, TargetDecision::GiveUp { keep: true, best_len: 500_000 });
    assert_eq!(kept, Some(9));
}

#[test]
fn low_quality_goes_straight_to_scaling_and_stops_at_the_floor() {
    let lens = vec![500_000u64; 20];
    let (tried, end, _) = simulate(100, 30, &lens);
    assert_eq!(tried, vec![(30, 100), (30, 88), (30, 76), (30, 64), (30, 52), (30, 40)]);
    assert_eq!(end, TargetDecision::GiveUp { keep: true, best_len: 500_000 });
}

#[test]
fn quality_never_drops_below_the_floor() {
    let lens = vec![500_000u64; 20];
    let (tried, _, _) = simulate(1, 40, &lens);
    assert_eq!(tried[0], (40, 100));
    assert_eq!(tried[1], (35, 100));
    assert_eq!(tried[2], (35, 88));
}

#[test]
fn a_later_attempt_that_fits_is_accepted() {
    let lens = vec![300_000u64, 200_000, 90_000, 10];
    let (tried, end, kept) = simulate(100, 82, &lens);
    assert_eq!(tried.len(), 3);
    assert_eq!(end, TargetDecision::Accept);
    assert_eq!(kept, Some(2));
}

#[test]
fn smallest_attempt_is_reported() {
    let lens = vec![300_000u64, 200_000, 250_000, 260_000, 270_000, 280_000, 290_000, 300_000, 310_000, 320_000];
    let (_, end, kept) = simulate(100, 82, &lens);
    assert_eq!(end, TargetDecision::GiveUp { keep: false, best_len: 200_000 });
    assert_eq!(kept, Some(1));
}

#[test]
fn ties_keep_the_later_attempt() {
    let lens = vec![300_000u64; 10];
    let (_, end, kept) = simulate(100, 82, &lens);
    assert_eq!(end, TargetDecision::GiveUp { keep: true, best_len: 300_000 });
    assert_eq!(kept, Some(9));
}

#[test]
fn shortfall_message() {
    assert_eq!(shortfall_warning(100, 150 * 1024 + 5), "Could not reach 100 KB. Best result: 150 KB.");
    assert_eq!(shortfall_warning(0, 1023), "Could not reach 0 KB. Best result: 0 KB.");
}
