use tonic_h3::cache_state::{CacheState, CacheStep};

#[test]
fn cache_makes_then_reuses_then_remakes_when_broken() {
    let mut c: CacheState<u32> = CacheState::new();
    assert_eq!(c.step(), CacheStep::StartMaking);
    c.start_making();
    assert_eq!(c.step(), CacheStep::PollMaking);
    assert_eq!(c.made::<&str>(Ok(7)), Ok(()));
    assert_eq!(c.step(), CacheStep::CheckCached);
    assert_eq!(c.cached(), Some(&7));
    assert!(c.keep_if_usable(false));
    assert_eq!(c.cached(), Some(&7));
    assert!(!c.keep_if_usable(true));
    assert_eq!(c.cached(), None);
    assert_eq!(c.step(), CacheStep::StartMaking);
}

#[test]
fn failed_make_returns_to_idle_and_reports() {
    let mut c: CacheState<u32> = CacheState::new();
    c.start_making();
    assert_eq!(c.made(Err("connect refused")), Err("connect refused"));
    assert_eq!(c.step(), CacheStep::StartMaking);
    assert_eq!(c.cached(), None);
}
