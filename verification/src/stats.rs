//! What the performance panel reports about the frame loop and the graphics device.
//!
//! Everything here describes the emulator, not the emulated machine: how fast it is
//! managing to run, and whether it keeps up. Measuring time is the frontend's
//! business — it reads the clock and hands the durations in, in nanoseconds — and
//! turning counts into rates and percentages is floating-point arithmetic that the
//! frontend does too. Here are the counters and the descriptions the panel shows.
//!
//! # What "late" means here
//!
//! No frame is ever skipped: every frame the PPU completes gets drawn. A frame is late
//! when the whole cycle overran the 16.74 ms budget, leaving nothing to sleep away.
use vstd::prelude::*;
use vstd::string::{StrSliceExecFns, StringExecFns};

verus! {

/// Where one frame's time went, in nanoseconds.
#[derive(Debug, Clone, Copy, PartialEq, Eq, Structural)]
pub struct FrameTiming {
    /// Running the CPU until the PPU finishes a frame, plus draining audio.
    pub emulate: u64,
    /// Scaling the framebuffer and drawing the overlay.
    pub render: u64,
    /// The deliberate pacing sleep: the budget left over after the work, given back
    /// to the OS on purpose. A *large* value here is health, not a problem — it is
    /// the headroom.
    pub sleep: u64,
    /// The whole cycle, including the sleep and anything spent blocked.
    pub total: u64,
}

impl FrameTiming {
    /// Time that is neither work nor the deliberate sleep.
    ///
    /// This is the figure worth watching: it is the frame blocked on something
    /// outside this program, which under vsync means the compositor holding on to the
    /// swapchain. The pacing sleep is excluded precisely because it is intentional.
    ///
    /// Saturating because the phases and the total are sampled from different clocks
    /// in different callbacks; rounding can leave the sum a hair above the total.
    pub fn blocked(&self) -> (r: u64)
        ensures
            r == if self.emulate + self.render + self.sleep <= self.total {
                self.total - self.emulate - self.render - self.sleep
            } else {
                0
            },
    {
        self.total.saturating_sub(self.emulate).saturating_sub(self.render).saturating_sub(
            self.sleep,
        )
    }
}

/// What sort of device the adapter turned out to be.
///
/// The distinction that earns this its own type is the last one: `Software` means there
/// is no GPU in the picture at all and a CPU rasteriser is drawing every pixel.
#[derive(Debug, Clone, Copy, PartialEq, Eq, Structural)]
pub enum GpuKind {
    Discrete,
    Integrated,
    /// Paravirtualised — a guest's view of a host GPU, so hardware underneath.
    Virtual,
    /// A CPU rasteriser: llvmpipe or lavapipe on Linux, WARP on Windows.
    Software,
    /// The adapter declined to say.
    Unknown,
}

impl GpuKind {
    /// Whether a GPU is doing the work.
    ///
    /// `None` when the adapter would not say, which is worth keeping distinct from a
    /// confident "no": reporting software rendering because a driver was reticent would
    /// send someone chasing a problem they do not have.
    pub fn accelerated(self) -> (r: Option<bool>)
        ensures
            r == match self {
                GpuKind::Software => Some(false),
                GpuKind::Unknown => None,
                _ => Some(true),
            },
    {
        match self {
            GpuKind::Discrete | GpuKind::Integrated | GpuKind::Virtual => Some(true),
            GpuKind::Software => Some(false),
            GpuKind::Unknown => None,
        }
    }

    /// How to name it in the panel.
    pub fn label(self) -> (r: &'static str)
        ensures
            r@ == match self {
                GpuKind::Discrete => "discrete GPU"@,
                GpuKind::Integrated => "integrated GPU"@,
                GpuKind::Virtual => "virtual GPU"@,
                GpuKind::Software => "software (CPU)"@,
                GpuKind::Unknown => "unknown"@,
            },
    {
        match self {
            GpuKind::Discrete => "discrete GPU",
            GpuKind::Integrated => "integrated GPU",
            GpuKind::Virtual => "virtual GPU",
            GpuKind::Software => "software (CPU)",
            GpuKind::Unknown => "unknown",
        }
    }
}

/// Which device is drawing the frames, and through which driver.
///
/// Read once from the graphics adapter when the surface is created — an adapter cannot
/// change under a live surface, so there is nothing to poll per frame.
#[derive(Debug, Clone)]
pub struct GpuInfo {
    /// The adapter's own name for itself, e.g. "NVIDIA GeForce RTX 3070 Ti Laptop GPU".
    pub device: String,
    /// Whether real graphics hardware is involved, and of what sort.
    pub kind: GpuKind,
    /// The graphics API chosen to talk to the device through.
    pub backend: &'static str,
    /// Driver name and version, as the adapter reports them.
    pub driver: String,
}

/// Whether a character has Unicode's `White_Space` property, which is what
/// `char::is_whitespace` tests.
pub open spec fn is_white_space(c: char) -> bool {
    let n = c as u32;
    ||| 0x09 <= n <= 0x0D
    ||| n == 0x20
    ||| n == 0x85
    ||| n == 0xA0
    ||| n == 0x1680
    ||| 0x2000 <= n <= 0x200A
    ||| n == 0x2028
    ||| n == 0x2029
    ||| n == 0x202F
    ||| n == 0x205F
    ||| n == 0x3000
}

/// `text` without its leading white space.
pub open spec fn trimmed_start(text: Seq<char>) -> Seq<char>
    decreases text.len(),
{
    if text.len() > 0 && is_white_space(text[0]) {
        trimmed_start(text.drop_first())
    } else {
        text
    }
}

/// `text` without its trailing white space.
pub open spec fn trimmed_end(text: Seq<char>) -> Seq<char>
    decreases text.len(),
{
    if text.len() > 0 && is_white_space(text.last()) {
        trimmed_end(text.drop_last())
    } else {
        text
    }
}

/// `text` with leading and trailing white space removed, as `str::trim` gives it.
pub open spec fn trimmed(text: Seq<char>) -> Seq<char> {
    trimmed_end(trimmed_start(text))
}

/// Whether a character is white space, as [`is_white_space`] defines it.
fn white_space(c: char) -> (r: bool)
    ensures
        r == is_white_space(c),
{
    let n = c as u32;
    (0x09 <= n && n <= 0x0D) || n == 0x20 || n == 0x85 || n == 0xA0 || n == 0x1680 || (0x2000
        <= n && n <= 0x200A) || n == 0x2028 || n == 0x2029 || n == 0x202F || n == 0x205F || n
        == 0x3000
}

proof fn lemma_trimmed_start(text: Seq<char>, start: int)
    requires
        0 <= start <= text.len(),
        forall|j: int| 0 <= j < start ==> is_white_space(#[trigger] text[j]),
        start == text.len() || !is_white_space(text[start]),
    ensures
        trimmed_start(text) == text.subrange(start, text.len() as int),
    decreases start,
{
    if start == 0 {
        assert(text.subrange(0, text.len() as int) =~= text);
    } else {
        let rest = text.drop_first();
        assert forall|j: int| 0 <= j < start - 1 implies is_white_space(#[trigger] rest[j]) by {
            assert(rest[j] == text[j + 1]);
        }
        assert(is_white_space(text[0]));
        if start < text.len() {
            assert(rest[start - 1] == text[start]);
        }
        lemma_trimmed_start(rest, start - 1);
        assert(rest.subrange(start - 1, rest.len() as int) =~= text.subrange(start, text.len() as int));
    }
}

proof fn lemma_trimmed_end(text: Seq<char>, end: int)
    requires
        0 <= end <= text.len(),
        forall|j: int| end <= j < text.len() ==> is_white_space(#[trigger] text[j]),
        end == 0 || !is_white_space(text[end - 1]),
    ensures
        trimmed_end(text) == text.subrange(0, end),
    decreases text.len() - end,
{
    if end == text.len() {
        assert(text.subrange(0, end) =~= text);
    } else {
        let rest = text.drop_last();
        assert forall|j: int| end <= j < rest.len() implies is_white_space(#[trigger] rest[j]) by {
            assert(rest[j] == text[j]);
        }
        assert(is_white_space(text.last()));
        if end > 0 {
            assert(rest[end - 1] == text[end - 1]);
        }
        lemma_trimmed_end(rest, end);
        assert(rest.subrange(0, end) =~= text.subrange(0, end));
    }
}

/// `text` without its leading and trailing white space, as `str::trim` gives it.
fn trim(text: &str) -> (r: String)
    ensures
        r@ == trimmed(text@),
{
    let len = text.unicode_len();
    let mut start: usize = 0;
    while start < len && white_space(text.get_char(start))
        invariant
            len == text@.len(),
            start <= len,
            forall|j: int| 0 <= j < start ==> is_white_space(#[trigger] text@[j]),
        decreases len - start,
    {
        start = start + 1;
    }
    proof {
        lemma_trimmed_start(text@, start as int);
    }
    let ghost rest = text@.subrange(start as int, len as int);
    let mut end: usize = len;
    while end > start && white_space(text.get_char(end - 1))
        invariant
            len == text@.len(),
            start <= end <= len,
            rest == text@.subrange(start as int, len as int),
            forall|j: int| end <= j < len ==> is_white_space(#[trigger] text@[j]),
        decreases end - start,
    {
        end = end - 1;
    }
    proof {
        assert forall|j: int| end - start <= j < rest.len() implies is_white_space(#[trigger] rest[j]) by {
            assert(rest[j] == text@[j + start]);
        }
        if end > start {
            assert(rest[end - start - 1] == text@[end - 1]);
        }
        lemma_trimmed_end(rest, end - start);
        assert(rest.subrange(0, end - start) =~= text@.subrange(start as int, end as int));
    }
    String::from_str(text.substring_char(start, end))
}

/// How a driver's name and version read together.
pub open spec fn driver_text(name: Seq<char>, version: Seq<char>) -> Seq<char> {
    let name = trimmed(name);
    let version = trimmed(version);
    if name.len() == 0 && version.len() == 0 {
        "unknown"@
    } else if name.len() == 0 {
        version
    } else if version.len() == 0 {
        name
    } else {
        name + " "@ + version
    }
}

/// Joins a driver's name and version, tolerating either being missing.
///
/// Which of the two an adapter fills in is entirely up to it: Mesa sets both ("radv",
/// "Mesa 25.2.1"), NVIDIA's proprietary driver reports its version in `driver_info`, and
/// some report neither. Formatting them with a fixed separator leaves a stray space or a
/// bare version number on display, so the empty cases are handled explicitly.
pub fn join_driver(name: &str, version: &str) -> (r: String)
    ensures
        r@ == driver_text(name@, version@),
{
    let name = trim(name);
    let version = trim(version);
    if name.as_str().unicode_len() == 0 && version.as_str().unicode_len() == 0 {
        String::from_str("unknown")
    } else if name.as_str().unicode_len() == 0 {
        version
    } else if version.as_str().unicode_len() == 0 {
        name
    } else {
        name.concat(" ").concat(version.as_str())
    }
}


/// How long to gather frames before the frontend recomputes the rate: half a second.
/// A rate computed over a single frame is pure noise.
pub const SAMPLE_WINDOW_NANOS: u64 = 500_000_000;

/// A graphics device type, as the adapter reports it.
#[derive(Debug, Clone, Copy, PartialEq, Eq, Structural)]
pub enum DeviceType {
    Other,
    IntegratedGpu,
    DiscreteGpu,
    VirtualGpu,
    Cpu,
}

/// The graphics API an adapter is driven through.
#[derive(Debug, Clone, Copy, PartialEq, Eq, Structural)]
pub enum Backend {
    Noop,
    Vulkan,
    Metal,
    Dx12,
    Gl,
    BrowserWebGpu,
}

/// A graphics adapter's self-description: the plain data the panel reads from it.
#[derive(Debug, Clone)]
pub struct AdapterInfo {
    pub name: String,
    pub device_type: DeviceType,
    pub driver: String,
    pub driver_info: String,
    pub backend: Backend,
}

/// What kind of device an adapter type is.
pub open spec fn kind_of(device_type: DeviceType) -> GpuKind {
    match device_type {
        DeviceType::DiscreteGpu => GpuKind::Discrete,
        DeviceType::IntegratedGpu => GpuKind::Integrated,
        DeviceType::VirtualGpu => GpuKind::Virtual,
        DeviceType::Cpu => GpuKind::Software,
        DeviceType::Other => GpuKind::Unknown,
    }
}

/// A backend's name, for a person to read.
pub open spec fn backend_name(backend: Backend) -> Seq<char> {
    match backend {
        Backend::Vulkan => "Vulkan"@,
        Backend::Metal => "Metal"@,
        Backend::Dx12 => "Direct3D 12"@,
        Backend::Gl => "OpenGL"@,
        Backend::BrowserWebGpu => "WebGPU"@,
        Backend::Noop => "none"@,
    }
}

impl GpuInfo {
    /// Reads the facts out of an adapter's self-description.
    pub fn from_adapter_info(info: &AdapterInfo) -> (r: GpuInfo)
        ensures
            r.device@ == info.name@,
            r.kind == kind_of(info.device_type),
            r.backend@ == backend_name(info.backend),
            r.driver@ == driver_text(info.driver@, info.driver_info@),
    {
        let kind = match info.device_type {
            DeviceType::DiscreteGpu => GpuKind::Discrete,
            DeviceType::IntegratedGpu => GpuKind::Integrated,
            DeviceType::VirtualGpu => GpuKind::Virtual,
            DeviceType::Cpu => GpuKind::Software,
            DeviceType::Other => GpuKind::Unknown,
        };
        let backend = match info.backend {
            Backend::Vulkan => "Vulkan",
            Backend::Metal => "Metal",
            Backend::Dx12 => "Direct3D 12",
            Backend::Gl => "OpenGL",
            Backend::BrowserWebGpu => "WebGPU",
            Backend::Noop => "none",
        };
        GpuInfo {
            device: info.name.clone(),
            kind,
            backend,
            driver: join_driver(info.driver.as_str(), info.driver_info.as_str()),
        }
    }
}

/// Rolling performance counters for the frame loop.
///
/// Emulation and rendering happen in different callbacks, so each phase is recorded
/// as it happens and held until the frame closes.
pub struct FrameStats {
    /// Frames completed since the current sampling window opened.
    pub frames_in_window: u32,
    /// Where the last frame's time went.
    pub timing: FrameTiming,
    /// Emulation time for the frame in progress.
    pub pending_emulate: u64,
    /// Render time for the frame in progress, summed over its redraws.
    pub pending_render: u64,
    /// The pacing sleep for the frame in progress.
    pub pending_sleep: u64,
    /// Frames whose total overran the frame budget.
    pub late_frames: u64,
    /// Frames run in total, so the late count can be read as a proportion.
    pub total_frames: u64,
    /// What is drawing the frames; `None` until the surface exists.
    pub gpu: Option<GpuInfo>,
}

impl FrameStats {
    /// Nothing counted, no device known yet.
    pub fn new() -> (r: Self)
        ensures
            r.frames_in_window == 0 && r.pending_emulate == 0 && r.pending_render == 0
                && r.pending_sleep == 0 && r.late_frames == 0 && r.total_frames == 0,
            r.timing == (FrameTiming { emulate: 0, render: 0, sleep: 0, total: 0 }),
            r.gpu is None,
    {
        FrameStats {
            frames_in_window: 0,
            timing: FrameTiming { emulate: 0, render: 0, sleep: 0, total: 0 },
            pending_emulate: 0,
            pending_render: 0,
            pending_sleep: 0,
            late_frames: 0,
            total_frames: 0,
            gpu: None,
        }
    }

    /// Records what the surface ended up rendering on, once that is known.
    pub fn set_gpu(&mut self, gpu: GpuInfo)
        ensures
            *final(self) == (FrameStats { gpu: Some(gpu), ..*old(self) }),
    {
        self.gpu = Some(gpu);
    }

    /// What is drawing the frames, or `None` before the surface exists.
    pub fn gpu(&self) -> (r: Option<&GpuInfo>)
        ensures
            match self.gpu {
                Some(g) => r matches Some(x) && *x == g,
                None => r is None,
            },
    {
        match &self.gpu {
            Some(g) => Some(g),
            None => None,
        }
    }

    /// Records how long emulating this frame took.
    pub fn emulated(&mut self, elapsed: u64)
        ensures
            *final(self) == (FrameStats { pending_emulate: elapsed, ..*old(self) }),
    {
        self.pending_emulate = elapsed;
    }

    /// Records how long drawing took. Accumulates: more than one redraw can happen
    /// between frames, and every one of them belongs to this frame.
    pub fn rendered(&mut self, elapsed: u64)
        requires
            old(self).pending_render + elapsed <= u64::MAX,
        ensures
            *final(self) == (FrameStats {
                pending_render: (old(self).pending_render + elapsed) as u64,
                ..*old(self)
            }),
    {
        self.pending_render = self.pending_render + elapsed;
    }

    /// Records how long the frame slept waiting for its deadline.
    pub fn slept(&mut self, elapsed: u64)
        ensures
            *final(self) == (FrameStats { pending_sleep: elapsed, ..*old(self) }),
    {
        self.pending_sleep = elapsed;
    }

    /// Closes out a frame, given its deadline-to-deadline total: the recorded phases
    /// become the frame's timing and start again from zero.
    pub fn frame_completed(&mut self, total: u64)
        requires
            old(self).total_frames < u64::MAX,
            old(self).frames_in_window < u32::MAX,
        ensures
            *final(self) == (FrameStats {
                timing: FrameTiming {
                    emulate: old(self).pending_emulate,
                    render: old(self).pending_render,
                    sleep: old(self).pending_sleep,
                    total,
                },
                pending_emulate: 0,
                pending_render: 0,
                pending_sleep: 0,
                total_frames: (old(self).total_frames + 1) as u64,
                frames_in_window: (old(self).frames_in_window + 1) as u32,
                ..*old(self)
            }),
    {
        self.timing = FrameTiming {
            emulate: self.pending_emulate,
            render: self.pending_render,
            sleep: self.pending_sleep,
            total,
        };
        self.pending_emulate = 0;
        self.pending_render = 0;
        self.pending_sleep = 0;
        self.total_frames = self.total_frames + 1;
        self.frames_in_window = self.frames_in_window + 1;
    }

    /// Given how long the current sampling window has been open, closes it once it has
    /// run for [`SAMPLE_WINDOW_NANOS`], handing back the frames it counted so the
    /// frontend can turn them into a rate and restart its clock.
    pub fn sample_window(&mut self, elapsed: u64) -> (r: Option<u32>)
        ensures
            elapsed >= SAMPLE_WINDOW_NANOS ==> r == Some(old(self).frames_in_window)
                && *final(self) == (FrameStats { frames_in_window: 0, ..*old(self) }),
            elapsed < SAMPLE_WINDOW_NANOS ==> r is None && *final(self) == *old(self),
    {
        if elapsed >= SAMPLE_WINDOW_NANOS {
            let frames = self.frames_in_window;
            self.frames_in_window = 0;
            Some(frames)
        } else {
            None
        }
    }

    /// Records that a frame missed its deadline.
    pub fn frame_was_late(&mut self)
        requires
            old(self).late_frames < u64::MAX,
        ensures
            *final(self) == (FrameStats { late_frames: (old(self).late_frames + 1) as u64, ..*old(self) }),
    {
        self.late_frames = self.late_frames + 1;
    }

    pub fn timing(&self) -> (r: FrameTiming)
        ensures
            r == self.timing,
    {
        self.timing
    }

    pub fn late_frames(&self) -> (r: u64)
        ensures
            r == self.late_frames,
    {
        self.late_frames
    }

    pub fn total_frames(&self) -> (r: u64)
        ensures
            r == self.total_frames,
    {
        self.total_frames
    }
}

} // verus!
