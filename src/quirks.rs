use vstd::prelude::*;

verus! {

/// Behavioural switches that tell the CHIP-8 variants apart.
#[derive(Debug, Clone, Copy, PartialEq, Eq, Structural)]
pub struct Quirks {
    /// `AND`, `OR` and `XOR` clear `VF`.
    pub vf_reset: bool,
    /// Block loads and stores advance `I` past the registers they touched.
    pub memory: bool,
    /// A draw consumes the rest of the current timer tick.
    pub display_wait: bool,
    /// Sprite pixels past an edge wrap around instead of being clipped.
    pub sprite_wrapping: bool,
    /// Stored but not read by the interpreter.
    pub hires_draw_flag: bool,
    /// Shifts act on `Vx` in place instead of copying `Vy` first.
    pub shifting: bool,
    /// `JP Vx, addr` adds `Vx` instead of `V0`.
    pub jumping: bool,
}

impl Quirks {
    /// Builds a quirk set from its seven flags; `clipping` sets `sprite_wrapping`.
    pub fn new(
        vf_reset: bool,
        memory: bool,
        display_wait: bool,
        clipping: bool,
        hires_draw_flag: bool,
        shifting: bool,
        jumping: bool,
    ) -> (q: Quirks)
        ensures
            q == (Quirks {
                vf_reset,
                memory,
                display_wait,
                sprite_wrapping: clipping,
                hires_draw_flag,
                shifting,
                jumping,
            }),
    {
        Quirks {
            vf_reset,
            memory,
            display_wait,
            sprite_wrapping: clipping,
            hires_draw_flag,
            shifting,
            jumping,
        }
    }

    pub open spec fn spec_chip8() -> Quirks {
        Quirks {
            vf_reset: true,
            memory: true,
            display_wait: true,
            sprite_wrapping: false,
            hires_draw_flag: false,
            shifting: false,
            jumping: false,
        }
    }

    pub open spec fn spec_superchip() -> Quirks {
        Quirks {
            vf_reset: false,
            memory: false,
            display_wait: false,
            sprite_wrapping: false,
            hires_draw_flag: true,
            shifting: true,
            jumping: true,
        }
    }

    pub open spec fn spec_xochip() -> Quirks {
        Quirks {
            vf_reset: false,
            memory: true,
            display_wait: false,
            sprite_wrapping: true,
            hires_draw_flag: false,
            shifting: false,
            jumping: false,
        }
    }

    /// The COSMAC VIP interpreter's behaviour.
    pub fn chip8() -> (q: Quirks)
        ensures
            q == Quirks::spec_chip8(),
    {
        Quirks {
            vf_reset: true,
            memory: true,
            display_wait: true,
            sprite_wrapping: false,
            hires_draw_flag: false,
            shifting: false,
            jumping: false,
        }
    }

    /// The SUPER-CHIP behaviour.
    pub fn superchip() -> (q: Quirks)
        ensures
            q == Quirks::spec_superchip(),
    {
        Quirks {
            vf_reset: false,
            memory: false,
            display_wait: false,
            sprite_wrapping: false,
            hires_draw_flag: true,
            shifting: true,
            jumping: true,
        }
    }

    /// The XO-CHIP behaviour.
    pub fn xochip() -> (q: Quirks)
        ensures
            q == Quirks::spec_xochip(),
    {
        Quirks {
            vf_reset: false,
            memory: true,
            display_wait: false,
            sprite_wrapping: true,
            hires_draw_flag: false,
            shifting: false,
            jumping: false,
        }
    }
}

impl Default for Quirks {
    fn default() -> (q: Quirks)
        ensures
            q == Quirks::spec_chip8(),
    {
        Quirks::chip8()
    }
}

} // verus!
