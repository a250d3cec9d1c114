use vstd::prelude::*;
use crate::mode_line::ModeLineDescr;

verus! {

/// CPU cycles in one scan line.
pub const SCAN_LINE_CYCLES: usize = 114;

/// Scan lines of a PAL frame.
pub const PAL_SCAN_LINES: usize = 312;

/// Scan lines of an NTSC frame.
pub const NTSC_SCAN_LINES: usize = 262;

/// Scan lines run per frame.
pub const MAX_SCAN_LINES: usize = NTSC_SCAN_LINES;

/// First scan line of the vertical blank; the vertical blank interrupt comes here.
pub const VBLANK_SCAN_LINE: usize = 248;

/// Scan line at which ANTIC reads the first line of the display list.
pub const FIRST_MODE_LINE: usize = 8;

/// Value of the display list interrupt scan line before any mode line asked for one.
pub const NO_DLI_SCAN_LINE: usize = 0xffff;

/// Cycles at the start of a scan line during which an interrupt line is driven.
pub const INTERRUPT_CYCLES: usize = 2;

/// What the CPU's interrupt lines receive in one cycle. The flag is the level
/// the line is driven to: raised on the first cycle of the scan line, lowered
/// on the second. `Dli` and `Vbi` also latch the matching ANTIC status bit.
#[derive(Clone, Copy, Debug, PartialEq, Eq, Structural)]
pub enum Interrupt {
    Idle,
    Irq(bool),
    Dli(bool),
    Vbi(bool),
}

/// The display schedule of one frame: whether the vertical blank has begun,
/// the scan line at which ANTIC reads the next display list line, and the
/// scan line that raises a display list interrupt.
#[derive(Clone, Copy, Debug)]
pub struct FrameState {
    pub vblank: bool,
    pub next_scan_line: usize,
    pub dli_scan_line: usize,
}

/// The interrupt of one cycle: on the first two cycles of scan line 0 the
/// keyboard IRQ when a key was just pressed; otherwise, on the first two
/// cycles of the display list interrupt line, a DLI, else on those of the
/// vertical blank line, a VBI. The line is raised on cycle 0 and lowered on
/// cycle 1.
pub open spec fn spec_interrupt(
    dli_scan_line: usize,
    scan_line: usize,
    cycle: usize,
    key_just_pressed: bool,
) -> Interrupt {
    if cycle >= INTERRUPT_CYCLES {
        Interrupt::Idle
    } else if scan_line == 0 {
        if key_just_pressed {
            Interrupt::Irq(cycle == 0)
        } else {
            Interrupt::Idle
        }
    } else if scan_line == dli_scan_line {
        Interrupt::Dli(cycle == 0)
    } else if scan_line == VBLANK_SCAN_LINE {
        Interrupt::Vbi(cycle == 0)
    } else {
        Interrupt::Idle
    }
}

impl FrameState {
    /// The next display list line is never read before the first display
    /// scan line, so the scan line before it always exists.
    pub open spec fn wf(&self) -> bool {
        self.next_scan_line >= FIRST_MODE_LINE
    }

    /// The schedule at the start of a frame.
    pub fn new() -> (res: Self)
        ensures
            res.wf(),
            !res.vblank,
            res.next_scan_line == FIRST_MODE_LINE,
            res.dli_scan_line == NO_DLI_SCAN_LINE,
    {
        FrameState { vblank: false, next_scan_line: FIRST_MODE_LINE, dli_scan_line: NO_DLI_SCAN_LINE }
    }

    /// Enters a scan line: the vertical blank begins at its first scan line
    /// and, once begun, lasts to the end of the frame. Returns whether ANTIC
    /// reads the next display list line here: outside the vertical blank, at
    /// the scan line it was scheduled for.
    pub fn begin_scan_line(&mut self, scan_line: usize) -> (fetch: bool)
        ensures
            final(self).vblank == (old(self).vblank || scan_line >= VBLANK_SCAN_LINE),
            final(self).next_scan_line == old(self).next_scan_line,
            final(self).dli_scan_line == old(self).dli_scan_line,
            fetch == (!final(self).vblank && old(self).next_scan_line == scan_line),
    {
        self.vblank = self.vblank || scan_line >= VBLANK_SCAN_LINE;
        !self.vblank && self.next_scan_line == scan_line
    }

    /// Takes what ANTIC read at the scheduled scan line. No line means the
    /// display list ended, and the vertical blank begins. A line schedules the
    /// next read after its height in scan lines and, when it asks for a display
    /// list interrupt, moves that interrupt to its last scan line.
    pub fn apply_mode_line(&mut self, scan_line: usize, mode_line: Option<&ModeLineDescr>)
        requires
            old(self).wf(),
            old(self).next_scan_line == scan_line,
            mode_line matches Some(m) ==> scan_line + m.height <= usize::MAX,
        ensures
            final(self).wf(),
            match mode_line {
                None => {
                    &&& final(self).vblank
                    &&& final(self).next_scan_line == old(self).next_scan_line
                    &&& final(self).dli_scan_line == old(self).dli_scan_line
                },
                Some(m) => {
                    &&& final(self).vblank == old(self).vblank
                    &&& final(self).next_scan_line == scan_line + m.height
                    &&& final(self).dli_scan_line == if m.dli {
                        (scan_line + m.height - 1) as usize
                    } else {
                        old(self).dli_scan_line
                    }
                },
            },
    {
        match mode_line {
            Some(m) => {
                self.next_scan_line = scan_line + m.height;
                if m.dli {
                    self.dli_scan_line = self.next_scan_line - 1;
                }
            },
            None => {
                self.vblank = true;
            },
        }
    }

    /// The interrupt that a cycle of a scan line drives.
    pub fn interrupt(&self, scan_line: usize, cycle: usize, key_just_pressed: bool) -> (res:
        Interrupt)
        ensures
            res == spec_interrupt(self.dli_scan_line, scan_line, cycle, key_just_pressed),
            res is Vbi ==> scan_line == VBLANK_SCAN_LINE && cycle < INTERRUPT_CYCLES,
            res is Dli ==> scan_line == self.dli_scan_line && scan_line != 0 && cycle
                < INTERRUPT_CYCLES,
            res is Irq ==> scan_line == 0 && key_just_pressed && cycle < INTERRUPT_CYCLES,
            scan_line != 0 && scan_line != self.dli_scan_line && scan_line != VBLANK_SCAN_LINE
                ==> res == Interrupt::Idle,
    {
        if cycle >= INTERRUPT_CYCLES {
            Interrupt::Idle
        } else if scan_line == 0 {
            if key_just_pressed {
                Interrupt::Irq(cycle == 0)
            } else {
                Interrupt::Idle
            }
        } else if scan_line == self.dli_scan_line {
            Interrupt::Dli(cycle == 0)
        } else if scan_line == VBLANK_SCAN_LINE {
            Interrupt::Vbi(cycle == 0)
        } else {
            Interrupt::Idle
        }
    }
}

/// An interrupt is a pulse: whatever line the first cycle of a scan line
/// raises, the second cycle lowers, and no later cycle drives any line.
pub proof fn lemma_interrupt_pulse(
    dli_scan_line: usize,
    scan_line: usize,
    cycle: usize,
    key_just_pressed: bool,
)
    ensures
        match spec_interrupt(dli_scan_line, scan_line, 0, key_just_pressed) {
            Interrupt::Idle => spec_interrupt(dli_scan_line, scan_line, 1, key_just_pressed)
                == Interrupt::Idle,
            Interrupt::Irq(level) => level && spec_interrupt(
                dli_scan_line,
                scan_line,
                1,
                key_just_pressed,
            ) == Interrupt::Irq(false),
            Interrupt::Dli(level) => level && spec_interrupt(
                dli_scan_line,
                scan_line,
                1,
                key_just_pressed,
            ) == Interrupt::Dli(false),
            Interrupt::Vbi(level) => level && spec_interrupt(
                dli_scan_line,
                scan_line,
                1,
                key_just_pressed,
            ) == Interrupt::Vbi(false),
        },
        cycle >= INTERRUPT_CYCLES ==> spec_interrupt(
            dli_scan_line,
            scan_line,
            cycle,
            key_just_pressed,
        ) == Interrupt::Idle,
{
}

/// Each interrupt belongs to one scan line: the VBI to the first vertical
/// blank line (248) alone, the DLI to the display list interrupt line alone,
/// the keyboard IRQ to scan line 0 after a key press; every other scan line
/// drives nothing, in any cycle.
pub proof fn lemma_interrupt_lines(
    dli_scan_line: usize,
    scan_line: usize,
    cycle: usize,
    key_just_pressed: bool,
)
    ensures
        spec_interrupt(dli_scan_line, scan_line, cycle, key_just_pressed) is Vbi ==> scan_line
            == VBLANK_SCAN_LINE && cycle < INTERRUPT_CYCLES,
        spec_interrupt(dli_scan_line, scan_line, cycle, key_just_pressed) is Dli ==> scan_line
            == dli_scan_line && scan_line != 0 && cycle < INTERRUPT_CYCLES,
        spec_interrupt(dli_scan_line, scan_line, cycle, key_just_pressed) is Irq ==> scan_line
            == 0 && key_just_pressed && cycle < INTERRUPT_CYCLES,
        scan_line != 0 && scan_line != dli_scan_line && scan_line != VBLANK_SCAN_LINE
            ==> spec_interrupt(dli_scan_line, scan_line, cycle, key_just_pressed)
            == Interrupt::Idle,
{
}

/// Over a whole frame, a scan line other than 248 never drives a VBI, and,
/// for a display list interrupt line that is not 0, a scan line other than it
/// never drives a DLI: each is driven on exactly one scan line of the frame.
pub proof fn lemma_interrupt_once_per_frame(dli_scan_line: usize, key_just_pressed: bool)
    ensures
        forall|scan_line: usize, cycle: usize|
            scan_line != VBLANK_SCAN_LINE ==> !(#[trigger] spec_interrupt(
                dli_scan_line,
                scan_line,
                cycle,
                key_just_pressed,
            ) is Vbi),
        forall|scan_line: usize, cycle: usize|
            scan_line != dli_scan_line ==> !(#[trigger] spec_interrupt(
                dli_scan_line,
                scan_line,
                cycle,
                key_just_pressed,
            ) is Dli),
        dli_scan_line != VBLANK_SCAN_LINE ==> spec_interrupt(
            dli_scan_line,
            VBLANK_SCAN_LINE,
            0,
            key_just_pressed,
        ) == Interrupt::Vbi(true),
        dli_scan_line != 0 ==> spec_interrupt(dli_scan_line, dli_scan_line, 0, key_just_pressed)
            == Interrupt::Dli(true),
{
}

/// The keyboard interrupt comes only on scan line 0, and there it takes the
/// place of any display list interrupt; a display list interrupt scheduled on
/// the first vertical blank line takes the place of the vertical blank
/// interrupt.
pub proof fn lemma_interrupt_priority(
    dli_scan_line: usize,
    scan_line: usize,
    cycle: usize,
    key_just_pressed: bool,
)
    requires
        cycle < INTERRUPT_CYCLES,
    ensures
        spec_interrupt(dli_scan_line, scan_line, cycle, key_just_pressed) is Irq <==> (scan_line
            == 0 && key_just_pressed),
        scan_line != 0 && scan_line == dli_scan_line ==> spec_interrupt(
            dli_scan_line,
            scan_line,
            cycle,
            key_just_pressed,
        ) is Dli,
        scan_line == VBLANK_SCAN_LINE && dli_scan_line != VBLANK_SCAN_LINE ==> spec_interrupt(
            dli_scan_line,
            scan_line,
            cycle,
            key_just_pressed,
        ) is Vbi,
{
}

} // verus!
