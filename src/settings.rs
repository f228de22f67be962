use vstd::prelude::*;

verus! {

/// The window size that a requested `(width, height)` becomes: the default
/// when neither is given (zero), both as given when both are, and otherwise
/// the given one rounded down to a multiple of the screen's own dimension with
/// the other at the screen's 2:1 ratio.
pub open spec fn fixed_size(width: u32, height: u32) -> (u32, u32) {
    if width == 0 && height == 0 {
        (640, 320)
    } else if width != 0 && height != 0 {
        (width, height)
    } else if height == 0 {
        let w = (width - width % 64) as u32;
        (w, (w / 2) as u32)
    } else {
        let h = (height - height % 32) as u32;
        ((h * 2) as u32, h)
    }
}

/// Whether `fixed_size` can compute its result in 32 bits: a height given
/// alone must leave room for doubling it.
pub open spec fn size_fits(width: u32, height: u32) -> bool {
    width == 0 && height != 0 ==> (height - height % 32) * 2 <= u32::MAX
}

/// How the host runs the machine: the program file, the window, the two
/// clock rates, the colours, the keyboard layout and whether to beep.
pub struct ChipSettings {
    rom: String,
    size: (u32, u32),
    cpu_rate: u64,
    timers_rate: u64,
    colors: (u32, u32),
    swap_yz: bool,
    beep: bool,
}

impl ChipSettings {
    pub closed spec fn spec_rom(&self) -> Seq<char> {
        self.rom@
    }

    pub closed spec fn spec_size(&self) -> (u32, u32) {
        self.size
    }

    pub closed spec fn spec_cpu_rate(&self) -> u64 {
        self.cpu_rate
    }

    pub closed spec fn spec_timers_rate(&self) -> u64 {
        self.timers_rate
    }

    pub closed spec fn spec_colors(&self) -> (u32, u32) {
        self.colors
    }

    pub closed spec fn spec_swap_yz(&self) -> bool {
        self.swap_yz
    }

    pub closed spec fn spec_beep(&self) -> bool {
        self.beep
    }

    /// Settings with the window size completed as `fixed_size` says; the
    /// other values are kept as given.
    pub fn new(
        rom: String,
        size: (u32, u32),
        cpu_rate: u64,
        timers_rate: u64,
        colors: (u32, u32),
        swap_yz: bool,
        beep: bool,
    ) -> (r: ChipSettings)
        requires
            size_fits(size.0, size.1),
        ensures
            r.spec_rom() == rom@,
            r.spec_size() == fixed_size(size.0, size.1),
            r.spec_cpu_rate() == cpu_rate,
            r.spec_timers_rate() == timers_rate,
            r.spec_colors() == colors,
            r.spec_swap_yz() == swap_yz,
            r.spec_beep() == beep,
    {
        let size = ChipSettings::fix_size(size);
        let colors = ChipSettings::fix_colors(colors.0, colors.1);
        ChipSettings { rom, size, cpu_rate, timers_rate, colors, swap_yz, beep }
    }

    /// Completes a requested window size (see `fixed_size`).
    pub fn fix_size(size: (u32, u32)) -> (r: (u32, u32))
        requires
            size_fits(size.0, size.1),
        ensures
            r == fixed_size(size.0, size.1),
    {
        let (width, height) = size;
        if width == 0 && height == 0 {
            (640, 320)
        } else if width != 0 && height != 0 {
            (width, height)
        } else if height == 0 {
            let width = width - width % 64;
            (width, width / 2)
        } else {
            let height = height - height % 32;
            (height * 2, height)
        }
    }

    /// The foreground and background colours, kept as given (equal colours
    /// are allowed, though nothing will show).
    pub fn fix_colors(fg_color: u32, bg_color: u32) -> (r: (u32, u32))
        ensures
            r == (fg_color, bg_color),
    {
        (fg_color, bg_color)
    }

    pub fn rom(&self) -> (r: &String)
        ensures
            r@ == self.spec_rom(),
    {
        &self.rom
    }

    pub fn size(&self) -> (r: (u32, u32))
        ensures
            r == self.spec_size(),
    {
        self.size
    }

    pub fn cpu_rate(&self) -> (r: u64)
        ensures
            r == self.spec_cpu_rate(),
    {
        self.cpu_rate
    }

    pub fn timers_rate(&self) -> (r: u64)
        ensures
            r == self.spec_timers_rate(),
    {
        self.timers_rate
    }

    pub fn colors(&self) -> (r: (u32, u32))
        ensures
            r == self.spec_colors(),
    {
        self.colors
    }

    pub fn swap_yz(&self) -> (r: bool)
        ensures
            r == self.spec_swap_yz(),
    {
        self.swap_yz
    }

    pub fn beep(&self) -> (r: bool)
        ensures
            r == self.spec_beep(),
    {
        self.beep
    }
}

} // verus!
