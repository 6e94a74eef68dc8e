use vstd::prelude::*;

verus! {

/// How swapchain images are presented (vsync behaviour): the present modes
/// that vulkano 0.35 offers. Its shared-presentable-image modes are not yet
/// available there, so no surface reports them.
#[derive(Clone, Copy, Debug, PartialEq, Eq, Structural)]
pub enum PresentMode {
    Immediate,
    Mailbox,
    Fifo,
    FifoRelaxed,
}

/// Whether the frame rate is left free or capped.
#[derive(Clone, Copy, Debug, PartialEq, Eq, Structural)]
pub enum FramerateMode {
    Unlimited,
    Capped,
}

/// Whether the render resolution is a fixed preset or follows the window.
#[derive(Clone, Copy, Debug, PartialEq, Eq, Structural)]
pub enum ResolutionMode {
    Fixed,
    FitWindow,
}

/// Presentation and frame-rate mode.
#[derive(Clone, Copy, Debug)]
pub struct FramerateConfig {
    pub present_mode: PresentMode,
    pub mode: FramerateMode,
}

/// The resolution the scene is rendered at, before scaling.
#[derive(Clone, Copy, Debug)]
pub struct ResolutionConfig {
    pub mode: ResolutionMode,
    /// The resolution in use.
    pub target_res: [u32; 2],
    /// The preset chosen for `Fixed` mode.
    pub fixed_res: [u32; 2],
}

/// The render settings that the renderer reads each frame.
#[derive(Clone, Copy, Debug)]
pub struct RenderConfig {
    pub framerate: FramerateConfig,
    pub resolution: ResolutionConfig,
}

/// Number of fixed-resolution presets.
pub const PRESET_COUNT: usize = 5;

/// The fixed-resolution presets, in ascending order.
pub open spec fn preset_spec(i: int) -> (u32, u32) {
    if i == 0 {
        (16, 9)
    } else if i == 1 {
        (160, 90)
    } else if i == 2 {
        (320, 180)
    } else if i == 3 {
        (1920, 1080)
    } else {
        (2560, 1440)
    }
}

/// The fixed-resolution preset with index `i`.
pub fn preset(i: usize) -> (res: [u32; 2])
    requires
        i < PRESET_COUNT,
    ensures
        res@ == seq![preset_spec(i as int).0, preset_spec(i as int).1],
{
    let res = if i == 0 {
        [16, 9]
    } else if i == 1 {
        [160, 90]
    } else if i == 2 {
        [320, 180]
    } else if i == 3 {
        [1920, 1080]
    } else {
        [2560, 1440]
    };
    assert(res@ =~= seq![preset_spec(i as int).0, preset_spec(i as int).1]);
    res
}

/// The resolution pair held by a two-element array view.
pub open spec fn pair(r: Seq<u32>) -> (u32, u32) {
    (r[0], r[1])
}

/// The preset index whose resolution is `res`, or 0 when none is.
pub open spec fn preset_index_spec(res: (u32, u32)) -> int {
    if exists|i: int| 0 <= i < PRESET_COUNT && preset_spec(i) == res {
        choose|i: int| 0 <= i < PRESET_COUNT && preset_spec(i) == res
    } else {
        0
    }
}

/// Whether `mode` is among `supported`.
pub fn supports(supported: &[PresentMode], mode: PresentMode) -> (res: bool)
    ensures
        res == supported@.contains(mode),
{
    let mut i: usize = 0;
    while i < supported.len()
        invariant
            0 <= i <= supported.len(),
            forall|j: int| 0 <= j < i ==> supported@[j] != mode,
        decreases supported.len() - i,
    {
        if supported[i] == mode {
            assert(supported@[i as int] == mode);
            return true;
        }
        i = i + 1;
    }
    false
}

/// The present mode chosen in place of `current` when the surface supports
/// only `supported`: `current` itself if supported, else the nearest
/// alternative (Immediate and Mailbox stand in for each other), else Fifo,
/// which every surface supports.
pub open spec fn fallback_spec(current: PresentMode, supported: Seq<PresentMode>) -> PresentMode {
    if supported.contains(current) {
        current
    } else {
        match current {
            PresentMode::Immediate => if supported.contains(PresentMode::Mailbox) {
                PresentMode::Mailbox
            } else {
                PresentMode::Fifo
            },
            PresentMode::Mailbox => if supported.contains(PresentMode::Immediate) {
                PresentMode::Immediate
            } else {
                PresentMode::Fifo
            },
            PresentMode::Fifo => PresentMode::Fifo,
            PresentMode::FifoRelaxed => if supported.contains(PresentMode::FifoRelaxed) {
                PresentMode::FifoRelaxed
            } else {
                PresentMode::Fifo
            },
        }
    }
}

/// The mode that stands in for `mode`: Immediate and Mailbox for each other,
/// FifoRelaxed for itself, Fifo for itself.
pub open spec fn stand_in(mode: PresentMode) -> PresentMode {
    match mode {
        PresentMode::Immediate => PresentMode::Mailbox,
        PresentMode::Mailbox => PresentMode::Immediate,
        PresentMode::Fifo => PresentMode::Fifo,
        PresentMode::FifoRelaxed => PresentMode::FifoRelaxed,
    }
}

/// The stand-in for `mode` when `supported` offers it, else Fifo.
pub open spec fn alternative_or_fifo(mode: PresentMode, supported: Seq<PresentMode>) -> PresentMode {
    if supported.contains(stand_in(mode)) {
        stand_in(mode)
    } else {
        PresentMode::Fifo
    }
}

impl FramerateConfig {
    /// Fifo presentation, unlimited frame rate.
    pub fn default() -> (res: Self)
        ensures
            res.present_mode == PresentMode::Fifo,
            res.mode == FramerateMode::Unlimited,
    {
        FramerateConfig { present_mode: PresentMode::Fifo, mode: FramerateMode::Unlimited }
    }
}

impl ResolutionConfig {
    /// Fixed mode at 1920x1080.
    pub fn default() -> (res: Self)
        ensures
            res.mode == ResolutionMode::Fixed,
            res.target_res@ == seq![1920u32, 1080u32],
            res.fixed_res@ == seq![1920u32, 1080u32],
    {
        let res = ResolutionConfig {
            mode: ResolutionMode::Fixed,
            target_res: [1920, 1080],
            fixed_res: [1920, 1080],
        };
        assert(res.target_res@ =~= seq![1920u32, 1080u32]);
        assert(res.fixed_res@ =~= seq![1920u32, 1080u32]);
        res
    }
}

impl RenderConfig {
    /// Fifo presentation, unlimited frame rate, fixed 1920x1080.
    pub fn default() -> (res: Self)
        ensures
            res.framerate.present_mode == PresentMode::Fifo,
            res.framerate.mode == FramerateMode::Unlimited,
            res.resolution.mode == ResolutionMode::Fixed,
            res.resolution.target_res@ == seq![1920u32, 1080u32],
            res.resolution.fixed_res@ == seq![1920u32, 1080u32],
    {
        RenderConfig { framerate: FramerateConfig::default(), resolution: ResolutionConfig::default() }
    }

    /// Follows a window resize: the resolution becomes `size` in `FitWindow`
    /// mode and stays as it is in `Fixed` mode.
    pub fn window_resized(&mut self, size: [u32; 2])
        ensures
            old(self).resolution.mode == ResolutionMode::FitWindow ==> final(self).resolution.target_res
                == size,
            old(self).resolution.mode == ResolutionMode::Fixed ==> final(self).resolution.target_res
                == old(self).resolution.target_res,
            final(self).resolution.mode == old(self).resolution.mode,
            final(self).resolution.fixed_res == old(self).resolution.fixed_res,
            final(self).framerate == old(self).framerate,
    {
        if self.resolution.mode == ResolutionMode::FitWindow {
            self.set_resolution(size);
        }
    }

    /// Sets the resolution in use; nothing else changes.
    pub fn set_resolution(&mut self, resolution: [u32; 2])
        ensures
            final(self).resolution.target_res == resolution,
            final(self).resolution.mode == old(self).resolution.mode,
            final(self).resolution.fixed_res == old(self).resolution.fixed_res,
            final(self).framerate == old(self).framerate,
    {
        self.resolution.target_res = resolution;
    }

    /// The present mode in use.
    pub fn present_mode(&self) -> (res: PresentMode)
        ensures
            res == self.framerate.present_mode,
    {
        self.framerate.present_mode
    }

    /// Replaces the present mode by one that `supported` offers, as
    /// `fallback_spec` says; nothing else changes.
    pub fn fallback_present_mode(&mut self, supported: &[PresentMode])
        ensures
            final(self).framerate.present_mode == fallback_spec(
                old(self).framerate.present_mode,
                supported@,
            ),
            supported@.contains(old(self).framerate.present_mode)
                ==> final(self).framerate.present_mode == old(self).framerate.present_mode,
            !supported@.contains(old(self).framerate.present_mode)
                ==> final(self).framerate.present_mode == alternative_or_fifo(
                old(self).framerate.present_mode,
                supported@,
            ),
            final(self).framerate.mode == old(self).framerate.mode,
            final(self).resolution == old(self).resolution,
    {
        if supports(supported, self.framerate.present_mode) {
            return ;
        }
        self.framerate.present_mode = match self.framerate.present_mode {
            PresentMode::Immediate => {
                if supports(supported, PresentMode::Mailbox) {
                    PresentMode::Mailbox
                } else {
                    PresentMode::Fifo
                }
            },
            PresentMode::Mailbox => {
                if supports(supported, PresentMode::Immediate) {
                    PresentMode::Immediate
                } else {
                    PresentMode::Fifo
                }
            },
            PresentMode::Fifo => PresentMode::Fifo,
            PresentMode::FifoRelaxed => {
                if supports(supported, PresentMode::FifoRelaxed) {
                    PresentMode::FifoRelaxed
                } else {
                    PresentMode::Fifo
                }
            },
        }
    }

    /// Picks a present mode from the settings; returns whether it changed,
    /// in which case the swapchain must be recreated.
    pub fn select_present_mode(&mut self, mode: PresentMode) -> (changed: bool)
        ensures
            final(self).framerate.present_mode == mode,
            final(self).framerate.mode == old(self).framerate.mode,
            final(self).resolution == old(self).resolution,
            changed == (old(self).framerate.present_mode != mode),
    {
        let prev = self.framerate.present_mode;
        self.framerate.present_mode = mode;
        prev != mode
    }

    /// Picks the frame-rate mode from the settings.
    pub fn select_framerate_mode(&mut self, mode: FramerateMode)
        ensures
            final(self).framerate.mode == mode,
            final(self).framerate.present_mode == old(self).framerate.present_mode,
            final(self).resolution == old(self).resolution,
    {
        self.framerate.mode = mode;
    }

    /// Switches to `FitWindow` mode, rendering at the window's size.
    pub fn select_fit_window(&mut self, window_size: [u32; 2])
        ensures
            final(self).resolution.mode == ResolutionMode::FitWindow,
            final(self).resolution.target_res == window_size,
            final(self).resolution.fixed_res == old(self).resolution.fixed_res,
            final(self).framerate == old(self).framerate,
    {
        self.resolution.mode = ResolutionMode::FitWindow;
        self.resolution.target_res = window_size;
    }

    /// Switches to `Fixed` mode, rendering at the chosen preset.
    pub fn select_fixed(&mut self)
        ensures
            final(self).resolution.mode == ResolutionMode::Fixed,
            final(self).resolution.target_res == old(self).resolution.fixed_res,
            final(self).resolution.fixed_res == old(self).resolution.fixed_res,
            final(self).framerate == old(self).framerate,
    {
        self.resolution.mode = ResolutionMode::Fixed;
        self.resolution.target_res = self.resolution.fixed_res;
    }

    /// The index of the preset equal to the fixed resolution, or 0 when the
    /// fixed resolution is no preset.
    pub fn fixed_preset_index(&self) -> (res: usize)
        ensures
            res == preset_index_spec(pair(self.resolution.fixed_res@)),
            res < PRESET_COUNT,
    {
        let fixed = self.resolution.fixed_res;
        let mut i: usize = 0;
        while i < PRESET_COUNT
            invariant
                0 <= i <= PRESET_COUNT,
                fixed == self.resolution.fixed_res,
                forall|j: int| 0 <= j < i ==> preset_spec(j) != pair(fixed@),
            decreases PRESET_COUNT - i,
        {
            let p = preset(i);
            if p[0] == fixed[0] && p[1] == fixed[1] {
                proof {
                    assert(preset_spec(i as int) == pair(fixed@));
                    assert forall|j: int| 0 <= j < PRESET_COUNT && preset_spec(j) == pair(fixed@)
                        implies j == i by {
                        if j != i {
                            assert(preset_spec(j) != preset_spec(i as int));
                        }
                    }
                }
                return i;
            }
            i = i + 1;
        }
        0
    }

    /// Chooses preset `index` as the fixed resolution; in `Fixed` mode it
    /// also becomes the resolution in use.
    pub fn choose_preset(&mut self, index: usize)
        requires
            index < PRESET_COUNT,
        ensures
            pair(final(self).resolution.fixed_res@) == preset_spec(index as int),
            final(self).resolution.mode == old(self).resolution.mode,
            old(self).resolution.mode == ResolutionMode::Fixed ==> final(self).resolution.target_res
                == final(self).resolution.fixed_res,
            old(self).resolution.mode == ResolutionMode::FitWindow ==> final(self).resolution.target_res
                == old(self).resolution.target_res,
            final(self).framerate == old(self).framerate,
    {
        self.resolution.fixed_res = preset(index);
        if self.resolution.mode == ResolutionMode::Fixed {
            self.resolution.target_res = self.resolution.fixed_res;
        }
    }
}

/// The fallback present mode is one the surface supports, or Fifo, which
/// every surface supports; a supported mode is kept; and falling back twice
/// gives what falling back once gives.
pub proof fn law_fallback_sound(current: PresentMode, supported: Seq<PresentMode>)
    ensures
        supported.contains(fallback_spec(current, supported)) || fallback_spec(current, supported)
            == PresentMode::Fifo,
        supported.contains(current) ==> fallback_spec(current, supported) == current,
        supported.contains(PresentMode::Fifo) ==> supported.contains(
            fallback_spec(current, supported),
        ),
        fallback_spec(fallback_spec(current, supported), supported) == fallback_spec(
            current,
            supported,
        ),
{
}

/// The preset index names a preset, and choosing the preset of that index
/// when the fixed resolution is a preset gives the same fixed resolution.
pub proof fn law_preset_index_round_trip(res: (u32, u32))
    ensures
        0 <= preset_index_spec(res) < PRESET_COUNT,
        (exists|i: int| 0 <= i < PRESET_COUNT && preset_spec(i) == res) ==> preset_spec(
            preset_index_spec(res),
        ) == res,
{
}

/// An unsupported Immediate falls back to Mailbox whenever the surface
/// offers Mailbox, and an unsupported Mailbox to Immediate whenever it offers
/// Immediate, whatever else it offers; without that stand-in, and for an
/// unsupported FifoRelaxed, the fallback is Fifo.
pub proof fn law_fallback_stand_ins(supported: Seq<PresentMode>)
    ensures
        !supported.contains(PresentMode::Immediate) && supported.contains(PresentMode::Mailbox)
            ==> fallback_spec(PresentMode::Immediate, supported) == PresentMode::Mailbox,
        !supported.contains(PresentMode::Immediate) && !supported.contains(PresentMode::Mailbox)
            ==> fallback_spec(PresentMode::Immediate, supported) == PresentMode::Fifo,
        !supported.contains(PresentMode::Mailbox) && supported.contains(PresentMode::Immediate)
            ==> fallback_spec(PresentMode::Mailbox, supported) == PresentMode::Immediate,
        !supported.contains(PresentMode::Mailbox) && !supported.contains(PresentMode::Immediate)
            ==> fallback_spec(PresentMode::Mailbox, supported) == PresentMode::Fifo,
        !supported.contains(PresentMode::FifoRelaxed) ==> fallback_spec(
            PresentMode::FifoRelaxed,
            supported,
        ) == PresentMode::Fifo,
        fallback_spec(PresentMode::Fifo, supported) == PresentMode::Fifo,
{
}

/// The presets are distinct and ascend in both width and height, from
/// 16x9 to 2560x1440.
pub proof fn law_presets_ascend(i: int, j: int)
    requires
        0 <= i < j < PRESET_COUNT,
    ensures
        preset_spec(i).0 < preset_spec(j).0,
        preset_spec(i).1 < preset_spec(j).1,
        preset_spec(0) == (16u32, 9u32),
        preset_spec(PRESET_COUNT - 1) == (2560u32, 1440u32),
{
}

} // verus!
