//! Model of the named shared-memory channel between the injected client and
//! the automation host: a fixed-layout region holding a liveness flag, a
//! build-version tag, the last known mouse position, the last captured frame
//! dimensions, and two fixed-capacity BGRA pixel buffers (frame and overlay).
//!
//! The region is created once by the client and opened — attached, not
//! created — by the host, which retries on a fixed poll interval until a
//! bounded timeout elapses.

use vstd::prelude::*;

verus! {

/// Capacity in bytes of each of the two pixel buffers; enough for a
/// 2880 x 2880 frame at 4 bytes per pixel.
pub const IMAGE_DATA_SIZE: usize = 33177602;

/// Length in bytes of the build-version tag stored in the region.
pub const VERSION_LEN: usize = 7;

/// The build-version tag this crate writes on create and demands on open.
pub open spec fn version_tag() -> Seq<u8> {
    seq![98u8, 52u8, 52u8, 49u8, 97u8, 101u8, 56u8]
}

/// The executable form of [`version_tag`].
pub fn version_bytes() -> (v: Vec<u8>)
    ensures
        v@ == version_tag(),
{
    let mut v: Vec<u8> = Vec::with_capacity(VERSION_LEN);
    v.push(98u8);
    v.push(52u8);
    v.push(52u8);
    v.push(49u8);
    v.push(97u8);
    v.push(101u8);
    v.push(56u8);
    proof {
        assert(v@ =~= version_tag());
    }
    v
}

/// A buffer of `len` zero bytes.
pub fn zero_buffer(len: usize) -> (v: Vec<u8>)
    ensures
        v@.len() == len,
        forall|j: int| 0 <= j < len ==> v@[j] == 0u8,
{
    let mut v: Vec<u8> = Vec::with_capacity(len);
    let mut i: usize = 0;
    while i < len
        invariant
            i <= len,
            v@.len() == i,
            forall|j: int| 0 <= j < i ==> v@[j] == 0u8,
        decreases len - i,
    {
        v.push(0u8);
        i = i + 1;
    }
    v
}

/// Byte-exact comparison of two version tags.
pub fn version_matches(a: &Vec<u8>, b: &Vec<u8>) -> (r: bool)
    ensures
        r <==> a@ == b@,
{
    if a.len() != b.len() {
        return false;
    }
    let n = a.len();
    let mut i: usize = 0;
    while i < n
        invariant
            i <= n,
            a@.len() == n,
            b@.len() == n,
            forall|j: int| 0 <= j < i ==> a@[j] == b@[j],
        decreases n - i,
    {
        if a[i] != b[i] {
            return false;
        }
        i = i + 1;
    }
    proof {
        assert(a@ =~= b@);
    }
    true
}

/// The fixed-layout contents of the mapped region.
pub struct SharedMemory {
    /// Liveness sentinel: 1 once the creator has initialized the region.
    pub flag: u8,
    /// Build identifier; producer and consumer must match byte for byte.
    pub version: Vec<u8>,
    /// Last known cursor x in client coordinates; -1 means unknown.
    pub mouse_x: i32,
    /// Last known cursor y in client coordinates; -1 means unknown.
    pub mouse_y: i32,
    /// Width of the last captured frame; -1 means not yet captured.
    pub width: i32,
    /// Height of the last captured frame; -1 means not yet captured.
    pub height: i32,
    /// BGRA frame buffer; only the first `width * height * 4` bytes of a
    /// captured frame are meaningful.
    pub img: Vec<u8>,
    /// BGRA overlay buffer the host may paint into.
    pub overlay: Vec<u8>,
}

impl SharedMemory {
    /// The region always has its fixed layout: both pixel buffers at full
    /// capacity and a version tag of the fixed length.
    pub open spec fn wf(self) -> bool {
        &&& self.version.len() == VERSION_LEN
        &&& self.img.len() == IMAGE_DATA_SIZE
        &&& self.overlay.len() == IMAGE_DATA_SIZE
    }
}

/// Why an open of the region was refused.
#[derive(Clone, Copy, Debug, PartialEq, Eq, Structural)]
pub enum OpenError {
    /// The region exists but its liveness flag is not set.
    NotInitialized,
    /// The stored version tag differs from this build's tag.
    VersionMismatch,
}

/// Owner of one attachment to the shared region.
///
/// `attached` models whether a view of the mapping is currently held; after
/// `close_map` the stale `region` value is never read again because every
/// accessor demands attachment.
pub struct MemoryManager {
    pub attached: bool,
    pub region: SharedMemory,
}

impl MemoryManager {
    /// A view of the mapping is held and the region has its fixed layout.
    pub open spec fn spec_attached(self) -> bool {
        &&& self.attached
        &&& self.region.wf()
    }

    /// The region is attached and its liveness flag reports initialization.
    pub open spec fn spec_mapped(self) -> bool {
        &&& self.spec_attached()
        &&& self.region.flag == 1
    }

    /// Creates the region and writes its initial contents: flag set,
    /// version tag stored, mouse and dimensions at their -1 sentinels,
    /// both pixel buffers zeroed.
    pub fn create_map() -> (m: MemoryManager)
        ensures
            m.spec_mapped(),
            m.region.version@ == version_tag(),
            m.region.mouse_x == -1,
            m.region.mouse_y == -1,
            m.region.width == -1,
            m.region.height == -1,
            forall|j: int| 0 <= j < IMAGE_DATA_SIZE ==> m.region.img@[j] == 0u8,
            forall|j: int| 0 <= j < IMAGE_DATA_SIZE ==> m.region.overlay@[j] == 0u8,
    {
        let region = SharedMemory {
            flag: 1,
            version: version_bytes(),
            mouse_x: -1,
            mouse_y: -1,
            width: -1,
            height: -1,
            img: zero_buffer(IMAGE_DATA_SIZE),
            overlay: zero_buffer(IMAGE_DATA_SIZE),
        };
        MemoryManager { attached: true, region }
    }

    /// Attaches to an existing region: refuses one whose liveness flag is
    /// unset, and refuses one whose stored version tag differs — by even a
    /// single byte — from this build's tag.
    pub fn open_map(region: SharedMemory) -> (r: Result<MemoryManager, OpenError>)
        requires
            region.wf(),
        ensures
            r is Ok <==> region.flag == 1 && region.version@ == version_tag(),
            r == Err::<MemoryManager, OpenError>(OpenError::NotInitialized) <==> region.flag != 1,
            r == Err::<MemoryManager, OpenError>(OpenError::VersionMismatch) <==> (region.flag
                == 1 && region.version@ != version_tag()),
            r matches Ok(m) ==> m.spec_mapped() && m.region == region,
    {
        if region.flag != 1 {
            return Err(OpenError::NotInitialized);
        }
        let expected = version_bytes();
        if !version_matches(&region.version, &expected) {
            return Err(OpenError::VersionMismatch);
        }
        Ok(MemoryManager { attached: true, region })
    }

    /// Detaches from the region; safe to call again once detached.
    pub fn close_map(&mut self)
        ensures
            !final(self).attached,
            final(self).region == old(self).region,
    {
        self.attached = false;
    }

    /// True when a view is held and the region's liveness flag is set.
    pub fn is_mapped(&self) -> (r: bool)
        ensures
            r <==> (self.attached && self.region.flag == 1),
    {
        self.attached && self.region.flag == 1
    }

    /// Reads the stored mouse position; (-1, -1) means unknown.
    pub fn get_mouse_position(&self) -> (r: (i32, i32))
        requires
            self.spec_attached(),
        ensures
            r == (self.region.mouse_x, self.region.mouse_y),
    {
        (self.region.mouse_x, self.region.mouse_y)
    }

    /// Stores the mouse position; nothing else in the region changes.
    pub fn set_mouse_position(&mut self, x: i32, y: i32)
        requires
            old(self).spec_attached(),
        ensures
            final(self).spec_attached(),
            final(self).region == (SharedMemory { mouse_x: x, mouse_y: y, ..old(self).region }),
            final(self).attached == old(self).attached,
    {
        self.region.mouse_x = x;
        self.region.mouse_y = y;
    }

    /// Reads the stored frame dimensions; (-1, -1) means not yet captured.
    pub fn get_dimensions(&self) -> (r: (i32, i32))
        requires
            self.spec_attached(),
        ensures
            r == (self.region.width, self.region.height),
    {
        (self.region.width, self.region.height)
    }

    /// Stores the frame dimensions; nothing else in the region changes.
    pub fn set_dimensions(&mut self, width: i32, height: i32)
        requires
            old(self).spec_attached(),
        ensures
            final(self).spec_attached(),
            final(self).region == (SharedMemory { width, height, ..old(self).region }),
            final(self).attached == old(self).attached,
    {
        self.region.width = width;
        self.region.height = height;
    }

    /// Read access to the frame buffer.
    pub fn image(&self) -> (r: &Vec<u8>)
        requires
            self.spec_attached(),
        ensures
            r == &self.region.img,
    {
        &self.region.img
    }

    /// Read access to the overlay buffer.
    pub fn overlay(&self) -> (r: &Vec<u8>)
        requires
            self.spec_attached(),
        ensures
            r == &self.region.overlay,
    {
        &self.region.overlay
    }

    /// Write access to the frame buffer; the rest of the region is unchanged.
    pub fn image_mut(&mut self) -> (r: &mut Vec<u8>)
        requires
            old(self).spec_attached(),
        ensures
            *r == old(self).region.img,
            final(self).region == (SharedMemory { img: *final(r), ..old(self).region }),
            final(self).attached == old(self).attached,
    {
        &mut self.region.img
    }

    /// Write access to the overlay buffer; the rest of the region is
    /// unchanged.
    pub fn overlay_mut(&mut self) -> (r: &mut Vec<u8>)
        requires
            old(self).spec_attached(),
        ensures
            *r == old(self).region.overlay,
            final(self).region == (SharedMemory { overlay: *final(r), ..old(self).region }),
            final(self).attached == old(self).attached,
    {
        &mut self.region.overlay
    }

    /// Zeroes the overlay buffer; everything else is unchanged.
    pub fn clear_overlay(&mut self)
        requires
            old(self).spec_attached(),
        ensures
            final(self).spec_attached(),
            final(self).attached == old(self).attached,
            final(self).region == (SharedMemory {
                overlay: final(self).region.overlay,
                ..old(self).region
            }),
            final(self).region.overlay@.len() == IMAGE_DATA_SIZE,
            forall|j: int|
                0 <= j < IMAGE_DATA_SIZE ==> final(self).region.overlay@[j] == 0u8,
    {
        let zeroed = zero_buffer(IMAGE_DATA_SIZE);
        self.region.overlay = zeroed;
    }
}

/// Whether a stored mouse position is usable: the relay reads the position
/// the hook stored to avoid redundant system queries, and falls back to a
/// query exactly when either coordinate is still at its -1 sentinel.
pub fn mouse_position_known(p: (i32, i32)) -> (r: bool)
    ensures
        r <==> (p.0 != -1 && p.1 != -1),
{
    p.0 != -1 && p.1 != -1
}

/// Poll interval of the bounded open-retry loop, in milliseconds.
pub const OPEN_POLL_INTERVAL_MS: u64 = 100;

/// What the open-retry loop should do after one failed attach attempt.
#[derive(Clone, Copy, Debug, PartialEq, Eq, Structural)]
pub enum RetryDecision {
    /// Sleep this many milliseconds, then attempt again.
    Sleep { ms: u64 },
    /// The deadline has passed: fail the open.
    GiveUp,
}

/// The bounded-retry policy of `open`: the host may ask for the mapping
/// before the client has created it, so attachment is retried on a fixed
/// poll interval until the timeout elapses — a rendezvous, not a lookup.
pub struct OpenRendezvous {
    /// Total time budget in milliseconds.
    pub timeout_ms: u64,
    /// Number of polls slept so far.
    pub polls: u64,
}

impl OpenRendezvous {
    /// Elapsed sleep time in milliseconds.
    pub open spec fn spec_elapsed(self) -> int {
        self.polls * OPEN_POLL_INTERVAL_MS
    }

    /// The elapsed time never passes the deadline by more than one poll
    /// interval, and the arithmetic below stays in range.
    pub open spec fn wf(self) -> bool {
        &&& self.spec_elapsed() <= self.timeout_ms + OPEN_POLL_INTERVAL_MS
        &&& self.timeout_ms <= u64::MAX - OPEN_POLL_INTERVAL_MS
    }

    /// Starts a rendezvous with the given time budget.
    pub fn new(timeout_ms: u64) -> (r: OpenRendezvous)
        requires
            timeout_ms <= u64::MAX - OPEN_POLL_INTERVAL_MS,
        ensures
            r.wf(),
            r.timeout_ms == timeout_ms,
            r.polls == 0,
    {
        OpenRendezvous { timeout_ms, polls: 0 }
    }

    /// Elapsed sleep time in milliseconds.
    pub fn elapsed_ms(&self) -> (r: u64)
        requires
            self.wf(),
        ensures
            r == self.spec_elapsed(),
    {
        self.polls * OPEN_POLL_INTERVAL_MS
    }

    /// Decides, after one failed attach attempt, whether to keep waiting.
    /// Gives up exactly when the elapsed time has reached the timeout;
    /// otherwise directs one more poll-interval sleep.
    pub fn on_attempt_failed(&mut self) -> (d: RetryDecision)
        requires
            old(self).wf(),
        ensures
            final(self).wf(),
            final(self).timeout_ms == old(self).timeout_ms,
            d == RetryDecision::GiveUp <==> old(self).spec_elapsed() >= old(self).timeout_ms,
            d is GiveUp ==> *final(self) == *old(self),
            d matches RetryDecision::Sleep { ms } ==> ms == OPEN_POLL_INTERVAL_MS
                && final(self).polls == old(self).polls + 1,
    {
        let elapsed = self.polls * OPEN_POLL_INTERVAL_MS;
        if elapsed >= self.timeout_ms {
            RetryDecision::GiveUp
        } else {
            self.polls = self.polls + 1;
            RetryDecision::Sleep { ms: OPEN_POLL_INTERVAL_MS }
        }
    }
}

/// Law: a bounded-timeout open never blocks past its deadline.  In every
/// reachable retry state the total time slept is at most the timeout plus
/// one poll interval, so an open against a mapping that never appears fails
/// within `timeout + OPEN_POLL_INTERVAL_MS` milliseconds.
pub proof fn lemma_open_timeout_bounded(s: OpenRendezvous)
    requires
        s.wf(),
    ensures
        s.spec_elapsed() <= s.timeout_ms + OPEN_POLL_INTERVAL_MS,
        s.polls * OPEN_POLL_INTERVAL_MS <= s.timeout_ms + OPEN_POLL_INTERVAL_MS,
{
}

} // verus!
