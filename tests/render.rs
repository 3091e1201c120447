use raytracer::band::{band_of, Band};
use raytracer::render::{all_finished, should_refresh, Phase, RenderError, RenderSession, Step};

#[test]
fn bands_split_full_hd_evenly() {
    assert_eq!(band_of(1920, 8, 0), Band { start: 0, end: 240 });
    assert_eq!(band_of(1920, 8, 3), Band { start: 720, end: 960 });
    assert_eq!(band_of(1920, 8, 7), Band { start: 1680, end: 1920 });
}

#[test]
fn bands_cover_uneven_width_once() {
    let width: usize = 10;
    let workers: usize = 3;
    let mut owners = vec![0usize; width];
    let mut next = 0usize;
    for t in 0..workers {
        let b = band_of(width, workers, t);
        assert_eq!(b.start, next);
        for c in b.start..b.end {
            owners[c] += 1;
        }
        next = b.end;
    }
    assert_eq!(next, width);
    assert!(owners.iter().all(|&n| n == 1));
    assert_eq!(band_of(10, 3, 0), Band { start: 0, end: 3 });
    assert_eq!(band_of(10, 3, 1), Band { start: 3, end: 6 });
    assert_eq!(band_of(10, 3, 2), Band { start: 6, end: 10 });
}

#[test]
fn more_workers_than_columns_gives_empty_bands() {
    let b = band_of(2, 4, 0);
    assert_eq!(b.start, b.end);
    assert_eq!(band_of(2, 4, 3), Band { start: 1, end: 2 });
}

#[test]
fn refresh_cadence() {
    assert!(!should_refresh(0));
    assert!(should_refresh(1));
    assert!(!should_refresh(2));
    assert!(!should_refresh(9));
    assert!(should_refresh(10));
    assert!(!should_refresh(11));
    assert!(should_refresh(20));
    assert!(should_refresh(u64::MAX - 5));
}

#[test]
fn all_finished_checks_every_worker() {
    assert!(all_finished(&vec![]));
    assert!(all_finished(&vec![true, true, true]));
    assert!(!all_finished(&vec![true, false, true]));
    assert!(!all_finished(&vec![false]));
}

#[test]
fn session_runs_one_pass() {
    let mut s = RenderSession::new(16, 9, 4);
    assert_eq!(s.phase(), Phase::Idle);
    assert_eq!(s.sample_count(), 0);
    assert_eq!(s.display_divisor(), Err(RenderError::NotReady));
    assert_eq!(s.tick(false), Step::Dispatch);
    assert_eq!(s.phase(), Phase::InFlight);
    assert_eq!(s.tick(false), Step::Wait);
    assert_eq!(s.phase(), Phase::InFlight);
    assert_eq!(s.tick(true), Step::Collect);
    assert_eq!(s.phase(), Phase::Collecting);
    assert_eq!(s.tick(true), Step::Wait);
    assert_eq!(s.finish_pass(false), Ok(true));
    assert_eq!(s.phase(), Phase::Idle);
    assert_eq!(s.sample_count(), 1);
    assert_eq!(s.display_divisor(), Ok(1));
    assert_eq!((s.width(), s.height(), s.workers()), (16, 9, 4));
}

#[test]
fn session_refreshes_every_tenth_pass() {
    let mut s = RenderSession::new(8, 8, 2);
    let mut refreshed = vec![];
    for _ in 0..20 {
        assert_eq!(s.tick(false), Step::Dispatch);
        assert_eq!(s.tick(true), Step::Collect);
        if s.finish_pass(false) == Ok(true) {
            refreshed.push(s.sample_count());
        }
    }
    assert_eq!(refreshed, vec![1, 10, 20]);
    assert_eq!(s.display_divisor(), Ok(20));
}

#[test]
fn failed_worker_discards_the_pass() {
    let mut s = RenderSession::new(8, 8, 2);
    assert_eq!(s.tick(false), Step::Dispatch);
    assert_eq!(s.tick(true), Step::Collect);
    assert_eq!(s.finish_pass(true), Err(RenderError::RenderWorkerFailed));
    assert_eq!(s.phase(), Phase::Idle);
    assert_eq!(s.sample_count(), 0);
    assert_eq!(s.display_divisor(), Err(RenderError::NotReady));
}

#[test]
fn session_band_matches_band_of() {
    let s = RenderSession::new(1920, 1080, 8);
    assert_eq!(s.band(5), Band { start: 1200, end: 1440 });
}

#[test]
fn one_pass_writes_every_slot_once_in_any_worker_order() {
    let s = RenderSession::new(7, 5, 3);
    let (w, h) = (s.width(), s.height());
    for order in [[0usize, 1, 2], [2, 1, 0], [1, 2, 0]] {
        let mut sums = vec![0u32; w * h];
        for t in order {
            let b = s.band(t);
            for i in b.start..b.end {
                for j in 0..h {
                    sums[raytracer::pixels::slot_of(w, h, i, j)] += 1;
                }
            }
        }
        assert!(sums.iter().all(|&n| n == 1));
    }
}
