use hom3init::entropy::{parse_entropy_avail, EntropyAction, EntropyGate, ENTROPY_MIN_AVAIL, ENTROPY_PAUSE_MS, ENTROPY_POLLS};

const SAMPLES: &[&str] = &[
    "", " ", "0", "256", "256\n", "  256  ", "\t\n 4096\r\n", "+256", "++256", "-0", "-1", "+",
    "0000256", "4294967295", "4294967296", "99999999999999999999", "25 6", "abc", "12a",
    "\u{a0}300\u{3000}", "\u{2028}17\u{85}", "\u{200b}5", "\u{663}", "3.5", "1e3", "\u{feff}7",
];

#[test]
fn parse_matches_std_trim_parse() {
    for s in SAMPLES {
        assert_eq!(parse_entropy_avail(s), s.trim().parse::<u32>().ok(), "input {:?}", s);
    }
}

#[test]
fn parse_exact_values() {
    assert_eq!(parse_entropy_avail("256\n"), Some(256));
    assert_eq!(parse_entropy_avail("+4294967295"), Some(u32::MAX));
    assert_eq!(parse_entropy_avail("4294967296"), None);
    assert_eq!(parse_entropy_avail(""), None);
}

fn run(hwrng: bool, readings: &dyn Fn(u32) -> Option<String>) -> (EntropyAction, u32, u32) {
    run_with(&|_| hwrng, readings)
}

fn run_with(hwrng: &dyn Fn(u32) -> bool, readings: &dyn Fn(u32) -> Option<String>) -> (EntropyAction, u32, u32) {
    let mut g = EntropyGate::new();
    let mut action = g.pending();
    let mut reads = 0;
    let mut sleeps = 0;
    loop {
        match action {
            EntropyAction::ReadPool => {
                let r = readings(reads);
                let h = hwrng(reads);
                reads += 1;
                action = g.on_read(h, r.as_deref());
            }
            EntropyAction::Sleep(ms) => {
                assert_eq!(ms, ENTROPY_PAUSE_MS);
                sleeps += 1;
                action = g.on_slept();
            }
            done => return (done, reads, sleeps),
        }
    }
}

#[test]
fn ready_at_once_when_seeded() {
    assert_eq!(run(true, &|_| Some("3000\n".to_string())), (EntropyAction::Ready(3000), 1, 0));
}

#[test]
fn ready_after_pool_fills() {
    let r = run(true, &|i| Some(if i < 4 { "100".to_string() } else { "256".to_string() }));
    assert_eq!(r, (EntropyAction::Ready(256), 5, 4));
}

#[test]
fn not_ready_without_hwrng_after_sixty_polls() {
    let r = run(false, &|_| Some("4096".to_string()));
    assert_eq!(r, (EntropyAction::NotReady, 60, 60));
    assert_eq!(ENTROPY_POLLS, 60);
}

#[test]
fn unreadable_pool_fails_closed() {
    assert_eq!(run(true, &|_| None), (EntropyAction::NotReady, 60, 60));
    assert_eq!(run(true, &|_| Some("garbage".to_string())).0, EntropyAction::NotReady);
}

#[test]
fn threshold_is_256() {
    assert_eq!(ENTROPY_MIN_AVAIL, 256);
    assert_eq!(run(true, &|_| Some("255".to_string())).0, EntropyAction::NotReady);
    assert_eq!(run(true, &|i| if i == 59 { Some("256".to_string()) } else { None }), (EntropyAction::Ready(256), 60, 59));
}

#[test]
fn stray_events_keep_entropy_state() {
    let mut g = EntropyGate::new();
    assert_eq!(g.on_slept(), EntropyAction::ReadPool);
    assert_eq!(g.on_read(true, Some("1")), EntropyAction::Sleep(500));
    assert_eq!(g.on_read(true, Some("999")), EntropyAction::Sleep(500));
    assert_eq!(g.pending(), EntropyAction::Sleep(500));
    assert_eq!(g.on_slept(), EntropyAction::ReadPool);
}

#[test]
fn hwrng_appearing_during_the_wait_makes_ready() {
    let r = run_with(&|i| i >= 1, &|_| Some("300\n".to_string()));
    assert_eq!(r, (EntropyAction::Ready(300), 2, 1));
}

#[test]
fn hwrng_vanishing_blocks_readiness() {
    let r = run_with(&|i| i == 0, &|i| Some(if i == 0 { "10" } else { "4000" }.to_string()));
    assert_eq!(r, (EntropyAction::NotReady, 60, 60));
}
