use waspinput::shm::{
    version_bytes, MemoryManager, OpenError, OpenRendezvous, RetryDecision, IMAGE_DATA_SIZE,
    OPEN_POLL_INTERVAL_MS,
};

#[test]
fn create_map_defaults() {
    let m = MemoryManager::create_map();
    assert!(m.is_mapped());
    assert_eq!(m.get_mouse_position(), (-1, -1));
    assert_eq!(m.get_dimensions(), (-1, -1));
    assert_eq!(m.region.flag, 1);
    assert_eq!(m.region.version, version_bytes());
    assert_eq!(m.image().len(), IMAGE_DATA_SIZE);
    assert_eq!(m.overlay().len(), IMAGE_DATA_SIZE);
    assert!(m.image().iter().all(|&b| b == 0));
}

#[test]
fn dimension_accessor_roundtrip() {
    // End-to-end: create a region, write 800 x 600, read it back exactly.
    let mut m = MemoryManager::create_map();
    m.set_dimensions(800, 600);
    assert_eq!(m.get_dimensions(), (800, 600));
}

#[test]
fn mouse_position_roundtrip() {
    let mut m = MemoryManager::create_map();
    m.set_mouse_position(123, 456);
    assert_eq!(m.get_mouse_position(), (123, 456));
    // Dimensions are untouched by a mouse write.
    assert_eq!(m.get_dimensions(), (-1, -1));
}

#[test]
fn open_map_accepts_matching_region() {
    let m = MemoryManager::create_map();
    let opened = MemoryManager::open_map(m.region);
    assert!(opened.is_ok());
    assert!(opened.unwrap().is_mapped());
}

#[test]
fn open_map_rejects_version_mismatch_single_byte() {
    // A version tag that differs by even one byte must fail, deterministically.
    for i in 0..7 {
        let creator = MemoryManager::create_map();
        let mut region = creator.region;
        region.version[i] ^= 0x01;
        let opened = MemoryManager::open_map(region);
        assert_eq!(opened.err(), Some(OpenError::VersionMismatch));
    }
}

#[test]
fn open_map_rejects_uninitialized_region() {
    let creator = MemoryManager::create_map();
    let mut region = creator.region;
    region.flag = 0;
    let opened = MemoryManager::open_map(region);
    assert_eq!(opened.err(), Some(OpenError::NotInitialized));
}

#[test]
fn close_map_is_idempotent() {
    let mut m = MemoryManager::create_map();
    m.close_map();
    assert!(!m.is_mapped());
    m.close_map();
    assert!(!m.is_mapped());
}

#[test]
fn clear_overlay_zeroes_buffer() {
    let mut m = MemoryManager::create_map();
    m.overlay_mut()[0] = 7;
    m.overlay_mut()[IMAGE_DATA_SIZE - 1] = 9;
    m.clear_overlay();
    assert_eq!(m.overlay()[0], 0);
    assert_eq!(m.overlay()[IMAGE_DATA_SIZE - 1], 0);
}

#[test]
fn open_rendezvous_fails_within_deadline() {
    // Against a mapping that never appears, a 1000 ms budget gives up after
    // exactly 10 poll sleeps: total sleep time never passes T + one poll.
    let mut r = OpenRendezvous::new(1000);
    let mut sleeps: u64 = 0;
    let mut slept_ms: u64 = 0;
    loop {
        match r.on_attempt_failed() {
            RetryDecision::Sleep { ms } => {
                assert_eq!(ms, OPEN_POLL_INTERVAL_MS);
                sleeps += 1;
                slept_ms += ms;
                assert!(sleeps < 1000, "retry loop must give up");
            }
            RetryDecision::GiveUp => break,
        }
    }
    assert_eq!(sleeps, 10);
    assert_eq!(slept_ms, 1000);
    assert!(slept_ms <= 1000 + OPEN_POLL_INTERVAL_MS);
    assert_eq!(r.elapsed_ms(), 1000);
}

#[test]
fn open_rendezvous_zero_timeout_gives_up_at_once() {
    let mut r = OpenRendezvous::new(0);
    assert_eq!(r.on_attempt_failed(), RetryDecision::GiveUp);
    assert_eq!(r.elapsed_ms(), 0);
}
