use vstd::prelude::*;

use crate::bank::{built, guarded, validated, Command2Selection, GuardError};
use crate::command::{command_model, Command};
use crate::fields::{
    clamp_field, clamped, AdaptiveBrightness, Backlight, BitsPerPixel, BrightnessControl,
    ColorOrder, DataEnable, DataPolarity, DisplayDimming, EnablePolarity, EndPixelFormat,
    Enhancement, EnhancementMode, GammaCurve, GammaOPBias, HsyncActive, Inversion, LEDPolarity,
    PWMPolarity, PixelPinout, ScanDirection, SourceOPInput, SourceOPOutput, SunlightReadable,
    TearingEffect, VoltageAVCL, VoltageAVDD, VsyncActive,
};
use crate::panel::Mode;

verus! {

/// What the register set knows of one register: its opcode, and the Command2
/// bank it needs (`None` for a general register).
#[derive(Clone, Copy, Debug, PartialEq, Eq, Structural)]
pub struct RegisterDescriptor {
    pub opcode: u8,
    pub required_bank: Option<Command2Selection>,
}

/// General registers, addressable whatever Command2 bank is selected.
#[derive(Clone, Copy, Debug, PartialEq, Eq, Structural)]
pub enum CommandsGeneral {
    /// No-op
    NOP,
    /// Software Reset
    SWRESET,
    /// Read Display ID
    RDDID,
    /// Read Number of Errors on DSI
    RDNUMED,
    /// Read the first pixel of Red Color
    RDRED,
    /// Read the first pixel of Green Color
    RDGREEN,
    /// Read the first pixel of Blue Color
    RDBLUE,
    /// Read Display Power Mode
    RDDPM,
    /// Read Display MADCTL
    RDDMADCTL,
    /// Read Display Pixel Format
    RDDCOLMOD,
    /// Read Display Image Mode
    RDDIM,
    /// Read Display Signal Mode
    RDDSM,
    /// Read Display Self-Diagnostic Result
    RDDSDR,
    /// Sleep in
    SLPIN,
    /// Sleep Out
    SLPOUT,
    /// Partial Display Mode On
    PTLON,
    /// Normal Display Mode On
    NORON,
    /// Display Inversion Off
    INVOFF,
    /// Display Inversion On
    INVON,
    /// All Pixel Off
    ALLPOFF,
    /// All Pixel ON
    ALLPON,
    /// Gamma Set
    GAMSET,
    /// Display Off
    DISPOFF,
    /// Display On
    DISPON,
    /// Tearing Effect Line OFF
    TEOFF,
    /// Tearing Effect Line ON
    TEON,
    /// Display data access control
    MADCTL,
    /// Idle Mode Off
    IDMOFF,
    /// Idle Mode On
    IDMON,
    /// Interface Pixel Format
    COLMOD,
    /// Get Scan Line
    GSL,
    /// Write Display Brightness
    WRDISBV,
    /// Read Display Brightness Value
    RDDISBV,
    /// Write CTRL Display
    WRCTRLD,
    /// Read CTRL Value Display
    RDCTRLD,
    /// Write Content Adaptive Brightness Control and Color Enhancement
    WRCACE,
    /// Read Content Adaptive Brightness Control
    RDCABC,
    /// Write CABC Minimum Brightness
    WRCABCMB,
    /// Read CABC Minimum Brightness
    RDCABCMB,
    /// Read Automatic Brightness Control Self-Diagnostic Result
    RDABCSDR,
    /// Read Black/White Low Bits
    RDBWLB,
    /// Read Bkx
    RDBkx,
    /// Read Bky
    RDBky,
    /// Read Wx
    RDWx,
    /// Read Wy
    RDWy,
    /// Read Red/Green Low Bits
    RDRGLB,
    /// Read Rx
    RDRx,
    /// Read Ry
    RDRy,
    /// Read Gx
    RDGx,
    /// Read Gy
    RDGy,
    /// Read Blue/A Color Low Bits
    RDBALB,
    /// Read Bx
    RDBx,
    /// Set Command2 mode for BK Register
    CND2BKxSEL,
}

impl CommandsGeneral {
    pub open spec fn spec_opcode(self) -> u8 {
        match self {
            CommandsGeneral::NOP => 0x00,
            CommandsGeneral::SWRESET => 0x01,
            CommandsGeneral::RDDID => 0x04,
            CommandsGeneral::RDNUMED => 0x05,
            CommandsGeneral::RDRED => 0x06,
            CommandsGeneral::RDGREEN => 0x07,
            CommandsGeneral::RDBLUE => 0x08,
            CommandsGeneral::RDDPM => 0x0A,
            CommandsGeneral::RDDMADCTL => 0x0B,
            CommandsGeneral::RDDCOLMOD => 0x0C,
            CommandsGeneral::RDDIM => 0x0D,
            CommandsGeneral::RDDSM => 0x0E,
            CommandsGeneral::RDDSDR => 0x0F,
            CommandsGeneral::SLPIN => 0x10,
            CommandsGeneral::SLPOUT => 0x11,
            CommandsGeneral::PTLON => 0x12,
            CommandsGeneral::NORON => 0x13,
            CommandsGeneral::INVOFF => 0x20,
            CommandsGeneral::INVON => 0x21,
            CommandsGeneral::ALLPOFF => 0x22,
            CommandsGeneral::ALLPON => 0x23,
            CommandsGeneral::GAMSET => 0x26,
            CommandsGeneral::DISPOFF => 0x28,
            CommandsGeneral::DISPON => 0x29,
            CommandsGeneral::TEOFF => 0x34,
            CommandsGeneral::TEON => 0x35,
            CommandsGeneral::MADCTL => 0x36,
            CommandsGeneral::IDMOFF => 0x38,
            CommandsGeneral::IDMON => 0x39,
            CommandsGeneral::COLMOD => 0x3A,
            CommandsGeneral::GSL => 0x45,
            CommandsGeneral::WRDISBV => 0x51,
            CommandsGeneral::RDDISBV => 0x52,
            CommandsGeneral::WRCTRLD => 0x53,
            CommandsGeneral::RDCTRLD => 0x54,
            CommandsGeneral::WRCACE => 0x55,
            CommandsGeneral::RDCABC => 0x56,
            CommandsGeneral::WRCABCMB => 0x5E,
            CommandsGeneral::RDCABCMB => 0x5F,
            CommandsGeneral::RDABCSDR => 0x68,
            CommandsGeneral::RDBWLB => 0x70,
            CommandsGeneral::RDBkx => 0x71,
            CommandsGeneral::RDBky => 0x72,
            CommandsGeneral::RDWx => 0x73,
            CommandsGeneral::RDWy => 0x74,
            CommandsGeneral::RDRGLB => 0x75,
            CommandsGeneral::RDRx => 0x76,
            CommandsGeneral::RDRy => 0x77,
            CommandsGeneral::RDGx => 0x78,
            CommandsGeneral::RDGy => 0x79,
            CommandsGeneral::RDBALB => 0x7A,
            CommandsGeneral::RDBx => 0x7B,
            CommandsGeneral::CND2BKxSEL => 0xFF,
        }
    }

    /// The register's one-byte opcode.
    #[verifier::when_used_as_spec(spec_opcode)]
    pub fn opcode(self) -> (r: u8)
        ensures
            r == self.spec_opcode(),
    {
        match self {
            CommandsGeneral::NOP => 0x00,
            CommandsGeneral::SWRESET => 0x01,
            CommandsGeneral::RDDID => 0x04,
            CommandsGeneral::RDNUMED => 0x05,
            CommandsGeneral::RDRED => 0x06,
            CommandsGeneral::RDGREEN => 0x07,
            CommandsGeneral::RDBLUE => 0x08,
            CommandsGeneral::RDDPM => 0x0A,
            CommandsGeneral::RDDMADCTL => 0x0B,
            CommandsGeneral::RDDCOLMOD => 0x0C,
            CommandsGeneral::RDDIM => 0x0D,
            CommandsGeneral::RDDSM => 0x0E,
            CommandsGeneral::RDDSDR => 0x0F,
            CommandsGeneral::SLPIN => 0x10,
            CommandsGeneral::SLPOUT => 0x11,
            CommandsGeneral::PTLON => 0x12,
            CommandsGeneral::NORON => 0x13,
            CommandsGeneral::INVOFF => 0x20,
            CommandsGeneral::INVON => 0x21,
            CommandsGeneral::ALLPOFF => 0x22,
            CommandsGeneral::ALLPON => 0x23,
            CommandsGeneral::GAMSET => 0x26,
            CommandsGeneral::DISPOFF => 0x28,
            CommandsGeneral::DISPON => 0x29,
            CommandsGeneral::TEOFF => 0x34,
            CommandsGeneral::TEON => 0x35,
            CommandsGeneral::MADCTL => 0x36,
            CommandsGeneral::IDMOFF => 0x38,
            CommandsGeneral::IDMON => 0x39,
            CommandsGeneral::COLMOD => 0x3A,
            CommandsGeneral::GSL => 0x45,
            CommandsGeneral::WRDISBV => 0x51,
            CommandsGeneral::RDDISBV => 0x52,
            CommandsGeneral::WRCTRLD => 0x53,
            CommandsGeneral::RDCTRLD => 0x54,
            CommandsGeneral::WRCACE => 0x55,
            CommandsGeneral::RDCABC => 0x56,
            CommandsGeneral::WRCABCMB => 0x5E,
            CommandsGeneral::RDCABCMB => 0x5F,
            CommandsGeneral::RDABCSDR => 0x68,
            CommandsGeneral::RDBWLB => 0x70,
            CommandsGeneral::RDBkx => 0x71,
            CommandsGeneral::RDBky => 0x72,
            CommandsGeneral::RDWx => 0x73,
            CommandsGeneral::RDWy => 0x74,
            CommandsGeneral::RDRGLB => 0x75,
            CommandsGeneral::RDRx => 0x76,
            CommandsGeneral::RDRy => 0x77,
            CommandsGeneral::RDGx => 0x78,
            CommandsGeneral::RDGy => 0x79,
            CommandsGeneral::RDBALB => 0x7A,
            CommandsGeneral::RDBx => 0x7B,
            CommandsGeneral::CND2BKxSEL => 0xFF,
        }
    }

    /// The register's opcode and the bank it needs.
    pub fn descriptor(self) -> (r: RegisterDescriptor)
        ensures
            r == (RegisterDescriptor { opcode: self.opcode(), required_bank: None }),
    {
        RegisterDescriptor { opcode: self.opcode(), required_bank: None }
    }
}

/// Registers of Command2 bank 0; their opcodes mean other registers outside that bank.
#[derive(Clone, Copy, Debug, PartialEq, Eq, Structural)]
pub enum BK0Command2 {
    /// Positive Voltage Gamma Control
    PVGAMCTRL,
    /// Negative Voltage Gamma Control
    NVGAMCTRL,
    /// Digital Gamma Enable
    DGMEN,
    /// Digital Gamma Look-up Table for Red
    DGMLUTR,
    /// Digital Gamma Look-up Table for Blue
    DGMLUTB,
    /// PWM CLK select
    PWMCLKSEL,
    /// Display Line Setting
    LNESET,
    /// Porch Control
    PORCTRL,
    /// Inversion selection & Frame Rate Control
    INVSET,
    /// RGB control
    RGBCTRL,
    /// Partial Mode Control
    PARCTRL,
    /// X-direction Control
    SDIR,
    /// Pseudo-Dot inversion diving setting
    PDOSET,
    /// Color Control
    COLCTRL,
    /// Sunlight Readable Enhancement
    SRECTRL,
    /// Noise Reduce Control
    NRCTRL,
    /// Sharpness Control
    SECTRL,
    /// Color Calibration Control
    CCCTRL,
    /// Skin Tone Preservation CONTROL
    SKCTRL,
}

impl BK0Command2 {
    pub open spec fn spec_opcode(self) -> u8 {
        match self {
            BK0Command2::PVGAMCTRL => 0xB0,
            BK0Command2::NVGAMCTRL => 0xB1,
            BK0Command2::DGMEN => 0xB8,
            BK0Command2::DGMLUTR => 0xB9,
            BK0Command2::DGMLUTB => 0xBA,
            BK0Command2::PWMCLKSEL => 0xBC,
            BK0Command2::LNESET => 0xC0,
            BK0Command2::PORCTRL => 0xC1,
            BK0Command2::INVSET => 0xC2,
            BK0Command2::RGBCTRL => 0xC3,
            BK0Command2::PARCTRL => 0xC5,
            BK0Command2::SDIR => 0xC7,
            BK0Command2::PDOSET => 0xC8,
            BK0Command2::COLCTRL => 0xCD,
            BK0Command2::SRECTRL => 0xE0,
            BK0Command2::NRCTRL => 0xE1,
            BK0Command2::SECTRL => 0xE2,
            BK0Command2::CCCTRL => 0xE3,
            BK0Command2::SKCTRL => 0xE4,
        }
    }

    /// The register's one-byte opcode.
    #[verifier::when_used_as_spec(spec_opcode)]
    pub fn opcode(self) -> (r: u8)
        ensures
            r == self.spec_opcode(),
    {
        match self {
            BK0Command2::PVGAMCTRL => 0xB0,
            BK0Command2::NVGAMCTRL => 0xB1,
            BK0Command2::DGMEN => 0xB8,
            BK0Command2::DGMLUTR => 0xB9,
            BK0Command2::DGMLUTB => 0xBA,
            BK0Command2::PWMCLKSEL => 0xBC,
            BK0Command2::LNESET => 0xC0,
            BK0Command2::PORCTRL => 0xC1,
            BK0Command2::INVSET => 0xC2,
            BK0Command2::RGBCTRL => 0xC3,
            BK0Command2::PARCTRL => 0xC5,
            BK0Command2::SDIR => 0xC7,
            BK0Command2::PDOSET => 0xC8,
            BK0Command2::COLCTRL => 0xCD,
            BK0Command2::SRECTRL => 0xE0,
            BK0Command2::NRCTRL => 0xE1,
            BK0Command2::SECTRL => 0xE2,
            BK0Command2::CCCTRL => 0xE3,
            BK0Command2::SKCTRL => 0xE4,
        }
    }

    /// The register's opcode and the bank it needs.
    pub fn descriptor(self) -> (r: RegisterDescriptor)
        ensures
            r == (RegisterDescriptor { opcode: self.opcode(), required_bank: Some(Command2Selection::BK0) }),
    {
        RegisterDescriptor { opcode: self.opcode(), required_bank: Some(Command2Selection::BK0) }
    }
}

/// Registers of Command2 bank 1; their opcodes mean other registers outside that bank.
#[derive(Clone, Copy, Debug, PartialEq, Eq, Structural)]
pub enum BK1Command2 {
    /// Vop Amplitude setting
    VRHS,
    /// VCOM amplitude setting
    VCOMS,
    /// VGH Voltage setting
    VGHSS,
    /// TEST Command Setting
    TESTCMD,
    /// VGL Voltage setting
    VGLS,
    /// Power Control 1
    PWCTRL1,
    /// Power Control 2
    PWCTRL2,
    /// Power pumping clk selection 1
    PCLKS1,
    /// Power pumping clk selection 3
    PCLKS3,
    /// Source pre_drive timing set1
    SPD1,
    /// Source pre_drive timing set2
    SPD2,
    /// MIPI Setting 1
    MIPISET1,
    /// MIPI Setting 2
    MIPISET2,
    /// MIPI Setting 3
    MIPISET3,
    /// MIPI Setting 4
    MIPISET4,
}

impl BK1Command2 {
    pub open spec fn spec_opcode(self) -> u8 {
        match self {
            BK1Command2::VRHS => 0xB0,
            BK1Command2::VCOMS => 0xB1,
            BK1Command2::VGHSS => 0xB2,
            BK1Command2::TESTCMD => 0xB3,
            BK1Command2::VGLS => 0xB5,
            BK1Command2::PWCTRL1 => 0xB7,
            BK1Command2::PWCTRL2 => 0xB8,
            BK1Command2::PCLKS1 => 0xBA,
            BK1Command2::PCLKS3 => 0xBC,
            BK1Command2::SPD1 => 0xC1,
            BK1Command2::SPD2 => 0xC2,
            BK1Command2::MIPISET1 => 0xD0,
            BK1Command2::MIPISET2 => 0xD1,
            BK1Command2::MIPISET3 => 0xD2,
            BK1Command2::MIPISET4 => 0xD3,
        }
    }

    /// The register's one-byte opcode.
    #[verifier::when_used_as_spec(spec_opcode)]
    pub fn opcode(self) -> (r: u8)
        ensures
            r == self.spec_opcode(),
    {
        match self {
            BK1Command2::VRHS => 0xB0,
            BK1Command2::VCOMS => 0xB1,
            BK1Command2::VGHSS => 0xB2,
            BK1Command2::TESTCMD => 0xB3,
            BK1Command2::VGLS => 0xB5,
            BK1Command2::PWCTRL1 => 0xB7,
            BK1Command2::PWCTRL2 => 0xB8,
            BK1Command2::PCLKS1 => 0xBA,
            BK1Command2::PCLKS3 => 0xBC,
            BK1Command2::SPD1 => 0xC1,
            BK1Command2::SPD2 => 0xC2,
            BK1Command2::MIPISET1 => 0xD0,
            BK1Command2::MIPISET2 => 0xD1,
            BK1Command2::MIPISET3 => 0xD2,
            BK1Command2::MIPISET4 => 0xD3,
        }
    }

    /// The register's opcode and the bank it needs.
    pub fn descriptor(self) -> (r: RegisterDescriptor)
        ensures
            r == (RegisterDescriptor { opcode: self.opcode(), required_bank: Some(Command2Selection::BK1) }),
    {
        RegisterDescriptor { opcode: self.opcode(), required_bank: Some(Command2Selection::BK1) }
    }
}

impl CommandsGeneral {
    /// # NO OPERATION
    ///
    /// This command is "empty". It has no effect on the display, but it can be
    /// used to terminate parameter write commands.
    pub fn no_operation() -> (r: Result<Command, GuardError>)
        ensures
            built(r, command_model(Self::NOP.opcode(), seq![])),
    {
        Ok(Command::new(Self::NOP.opcode()))
    }

    /// # SOFTWARE RESET
    ///
    /// The display module performs a software reset. Registers are written with
    /// the default "reset" values.
    ///
    ///   - Frame buffer contents are unaffected by this command
    ///   - After a SWRESET command, sleep at least 5ms before the next command
    ///   - If the display is sleeping when a SWRESET is sent, the sleep
    ///     duration should be at least 120ms before sending the next command.
    ///   - SWRESET cannot be sent during SLPOUT
    ///   - (MIPI ONLY) Send a shutdown packet before SWRESET
    pub fn software_reset() -> (r: Result<Command, GuardError>)
        ensures
            built(r, command_model(Self::SWRESET.opcode(), seq![])),
    {
        Ok(Command::new(Self::SWRESET.opcode()))
    }

    /// # SLEEP IN
    ///
    /// This command causes the display module to enter a minimum power state.
    /// The buck converter, display oscilator, and panel scanning are all shut
    /// down.
    ///
    /// The control interface, display data, and registers remain active.
    ///
    /// The driver may send PCLK, HS, and CS information after SLPIN, and this
    /// data will be valid for the next two frames if Normal Mode is active.
    ///
    /// Dimming will not work when changing from sleep out to sleep in.
    ///
    /// Normally, sleep state can be read with RDDST, but MISO must be connected.
    pub fn sleep_mode_on() -> (r: Result<Command, GuardError>)
        ensures
            built(r, command_model(Self::SLPIN.opcode(), seq![])),
    {
        Ok(Command::new(Self::SLPIN.opcode()))
    }

    /// # SLEEP OUT
    ///
    /// This command turns off the minimum power state set by SLPIN.
    ///
    /// The driver may send PCLK, HS, and CS information before SLPOUT, and this
    /// data will be valid for the two frames before the command if Normal Mode
    /// is active.
    pub fn sleep_mode_off() -> (r: Result<Command, GuardError>)
        ensures
            built(r, command_model(Self::SLPOUT.opcode(), seq![])),
    {
        Ok(Command::new(Self::SLPOUT.opcode()))
    }

    /// # PARTIAL MODE ON
    ///
    /// This command turns on Partial Mode. See PARTIAL AREA (30h) command.
    pub fn partial_mode_on() -> (r: Result<Command, GuardError>)
        ensures
            built(r, command_model(Self::PTLON.opcode(), seq![])),
    {
        Ok(Command::new(Self::PTLON.opcode()))
    }

    /// # NORMAL MODE ON (DEFAULT)
    ///
    /// This command turns on Normal Mode and turns off Partial Mode.
    pub fn normal_mode_on() -> (r: Result<Command, GuardError>)
        ensures
            built(r, command_model(Self::NORON.opcode(), seq![])),
    {
        Ok(Command::new(Self::NORON.opcode()))
    }

    /// # DISPLAY INVERSION OFF (DEFAULT)
    ///
    /// This command restores normal pixel values.
    pub fn invert_display_off() -> (r: Result<Command, GuardError>)
        ensures
            built(r, command_model(Self::INVOFF.opcode(), seq![])),
    {
        Ok(Command::new(Self::INVOFF.opcode()))
    }

    /// # DISPLAY INVERSION ON
    ///
    /// This command inverts the display (white becomes black, red becomes blue).
    pub fn invert_display_on() -> (r: Result<Command, GuardError>)
        ensures
            built(r, command_model(Self::INVON.opcode(), seq![])),
    {
        Ok(Command::new(Self::INVON.opcode()))
    }

    /// # ALL PIXELS OFF (BLACK)
    ///
    /// This command sets all pixel values to black.
    ///
    /// ALLPOFF may be used in Sleep Mode, Normal Mode, or Partial Mode.
    pub fn all_pixels_off() -> (r: Result<Command, GuardError>)
        ensures
            built(r, command_model(Self::ALLPOFF.opcode(), seq![])),
    {
        Ok(Command::new(Self::ALLPOFF.opcode()))
    }

    /// # ALL PIXELS ON (WHITE)
    ///
    /// This command sets all pixel values to white.
    ///
    /// ALLPOFF may be used in Sleep Mode, Normal Mode, or Partial Mode.
    pub fn all_pixels_on() -> (r: Result<Command, GuardError>)
        ensures
            built(r, command_model(Self::ALLPON.opcode(), seq![])),
    {
        Ok(Command::new(Self::ALLPON.opcode()))
    }

    /// # GAMMA CURVE SELECT
    ///
    /// This command selects a predefined gamma curve from one of four values.
    ///
    /// WARNING: It's not clear from the Sitronix documentation what any values
    /// are aside from 01.
    ///
    ///|   D7   |   D6   |   D5   |   D4   |   D3   |   D2   |   D1   |   D0   |
    ///|   --   |   --   |   --   |   --   |   --   |         GC[3:0]          |
    pub fn gamma_curve_select(gc: GammaCurve) -> (r: Result<Command, GuardError>)
        ensures
            built(r, command_model(Self::GAMSET.opcode(), seq![gc.bits()])),
    {
        Ok(Command::new(Self::GAMSET.opcode()).arg(gc.bits()))
    }

    /// # DISPLAY OFF (DEFAULT?)
    ///
    /// This command is used to enter Display Off Mode. In this mode, display
    /// data is disabled and all pixels are blanked.
    ///
    /// NOTE: It's possible that this is the default value.
    pub fn display_off() -> (r: Result<Command, GuardError>)
        ensures
            built(r, command_model(Self::DISPOFF.opcode(), seq![])),
    {
        Ok(Command::new(Self::DISPOFF.opcode()))
    }

    /// # DISPLAY ON
    ///
    /// WARNING: I have no idea how this behaves. The Sitronix docs monkey copied
    /// and pasted the description for DISPOFF. At a guess, it should turn the
    /// display back on.
    pub fn display_on() -> (r: Result<Command, GuardError>)
        ensures
            built(r, command_model(Self::DISPON.opcode(), seq![])),
    {
        Ok(Command::new(Self::DISPON.opcode()))
    }

    /// # TEARING EFFECT LINE OFF
    ///
    /// This command is used to turn off the display module's Tearing Effect
    /// output signal (vsync?) on the TE signal line (active low).
    pub fn tearing_effect_off() -> (r: Result<Command, GuardError>)
        ensures
            built(r, command_model(Self::TEOFF.opcode(), seq![])),
    {
        Ok(Command::new(Self::TEOFF.opcode()))
    }

    /// # TEARING EFFECT LINE ON
    ///
    /// This command is used to turn on the display module's Tearing Effect
    /// output signal line.
    ///
    ///|   D7   |   D6   |   D5   |   D4   |   D3   |   D2   |   D1   |   D0   |
    ///|   --   |   --   |   --   |   --   |   --   |   --   |   --   |   TE   |
    pub fn tearing_effect_on(te: TearingEffect) -> (r: Result<Command, GuardError>)
        ensures
            built(r, command_model(Self::TEON.opcode(), seq![te.bits()])),
    {
        Ok(Command::new(Self::TEON.opcode()).arg(te.bits()))
    }

    /// # DISPLAY DATA ACCESS CONTROL
    /// * `ml` - Scan direction
    /// * `co` - Colour order
    ///|   D7   |   D6   |   D5   |   D4   |   D3   |   D2   |   D1   |   D0   |
    ///|   --   |   --   |   --   |   ML   |   CO   |   --   |   --   |   --   |
    pub fn display_data_control(
        ml: ScanDirection,
        co: ColorOrder,
    ) -> (r: Result<Command, GuardError>)
        ensures
            built(r, command_model(Self::MADCTL.opcode(), seq![ml.bits() | co.bits()])),
    {
        Ok(Command::new(Self::MADCTL.opcode()).arg(ml.bits() | co.bits()))
    }

    /// # IDLE MODE OFF
    ///
    /// Turns off Idle Mode. Display is capable of its full 16.7 million color
    /// palette
    pub fn idle_mode_off() -> (r: Result<Command, GuardError>)
        ensures
            built(r, command_model(Self::IDMOFF.opcode(), seq![])),
    {
        Ok(Command::new(Self::IDMOFF.opcode()))
    }

    /// # IDLE MODE ON
    ///
    /// Turns on Idle Mode. In idle mode the color palette is significantly
    /// reduced. The MSB of each color will be rounded up or down, creating a
    /// palette limited to 8 colors.
    pub fn idle_mode_on() -> (r: Result<Command, GuardError>)
        ensures
            built(r, command_model(Self::IDMON.opcode(), seq![])),
    {
        Ok(Command::new(Self::IDMON.opcode()))
    }

    /// # SET INTERFACE PIXEL FORMAT
    ///
    /// Defines the format for RGB pixel data.
    ///
    ///|   D7   |   D6   |   D5   |   D4   |   D3   |   D2   |   D1   |   D0   |
    ///|   --   |          BPP[2:0]        |   --   |   --   |   --   |   --   |
    pub fn set_color_mode(bpp: BitsPerPixel) -> (r: Result<Command, GuardError>)
        ensures
            built(r, command_model(Self::COLMOD.opcode(), seq![bpp.bits()])),
    {
        Ok(Command::new(Self::COLMOD.opcode()).arg(bpp.bits()))
    }

    /// # WRDISBV
    ///
    /// Change the display brightness to an 8-bit value.
    ///
    /// 0x00: Lowest brightness
    /// 0xFF: Hightest brightness
    ///
    ///|   D7   |   D6   |   D5   |   D4   |   D3   |   D2   |   D1   |   D0   |
    ///|                     Display Brightness Value [7:0]                    |
    pub fn set_display_brightness(dbv: u8) -> (r: Result<Command, GuardError>)
        ensures
            built(r, command_model(Self::WRDISBV.opcode(), seq![dbv])),
    {
        Ok(Command::new(Self::WRDISBV.opcode()).arg(dbv))
    }

    /// # WRITE CTRL DISPLAY
    ///
    /// This command changes more general behavior of the brightness controls.
    ///
    /// `bctrl` Brightness control on or off
    /// `dd` Display dimming (only affects manual brightness settings)
    /// `bl` Backlight control on or off
    ///
    ///|   D7   |   D6   |   D5   |   D4   |   D3   |   D2   |   D1   |   D0   |
    ///|   --   |   --   |  BCTRL |   --   |   DD   |   BL   |   --   |   --   |
    pub fn configure_brightness(
        bctrl: BrightnessControl,
        dd: DisplayDimming,
        bl: Backlight,
    ) -> (r: Result<Command, GuardError>)
        ensures
            built(
                r,
                command_model(Self::WRCTRLD.opcode(), seq![bctrl.bits() | dd.bits() | bl.bits()]),
            ),
    {
        Ok(Command::new(Self::WRCTRLD.opcode()).arg(bctrl.bits() | dd.bits() | bl.bits()))
    }

    /// # WRITE CONTENT ADAPTIVE BRIGHTNESS CONTROL AND COLOR ENHANCEMENT
    ///
    /// Set parameters for content-based adaptive brightness control, set
    /// different color enhancement modes.
    ///
    /// `ce` Color enhancement on or off:
    /// `cemd` Color enhancement mode
    /// `cabc` Adaptive brightness control
    ///
    ///|   D7   |   D6   |   D5   |   D4   |   D3   |   D2   |   D1   |   D0   |
    ///|   CE   |   --   |    CEMD[1:0]    |   --   |   --   |    CABC[1:0]    |
    pub fn configure_color_enhancement(
        ce: Enhancement,
        cemd: EnhancementMode,
        cabc: AdaptiveBrightness,
    ) -> (r: Result<Command, GuardError>)
        ensures
            built(
                r,
                command_model(Self::WRCACE.opcode(), seq![ce.bits() | cemd.bits() | cabc.bits()]),
            ),
    {
        Ok(Command::new(Self::WRCACE.opcode()).arg(ce.bits() | cemd.bits() | cabc.bits()))
    }

    ///
    /// WRITE CABC MINIMUM BRIGHTNESS
    ///
    /// Sets the minimum brightness value to be used for CABC (see WRCACE).
    ///
    /// `mbv` Minimum Brightness Value
    ///
    ///|   D7   |   D6   |   D5   |   D4   |   D3   |   D2   |   D1   |   D0   |
    ///|                     Minimum Brightness Value [7:0]                    |
    pub fn set_minimum_brightness(mbv: u8) -> (r: Result<Command, GuardError>)
        ensures
            built(r, command_model(Self::WRCABCMB.opcode(), seq![mbv])),
    {
        Ok(Command::new(Self::WRCABCMB.opcode()).arg(mbv))
    }

    /// # READ DISPLAY PIXEL FORMAT
    pub fn read_display_pixel_format() -> (r: Result<Command, GuardError>)
        ensures
            built(r, command_model(Self::RDDCOLMOD.opcode(), seq![])),
    {
        Ok(Command::new(Self::RDDCOLMOD.opcode()))
    }

    /// # READ DISPLAY SELF-DIAGNOSTIC RESULT
    pub fn read_self_diagnostics() -> (r: Result<Command, GuardError>)
        ensures
            built(r, command_model(Self::RDDSDR.opcode(), seq![])),
    {
        Ok(Command::new(Self::RDDSDR.opcode()))
    }

    /// # SET COMMAND2 MODE
    ///
    /// The registers of BK0 and BK1 share one opcode range, so an opcode means
    /// a different register in each bank. This command selects the bank (or
    /// turns Command2 off). It is itself a general command and is always built.
    /// Once it has been sent, record the new selection in the caller's mirror
    /// with `confirm_switch`; the guarded builders check that mirror.
    pub fn set_command_2(set: Command2Selection) -> (r: Result<Command, GuardError>)
        ensures
            built(
                r,
                command_model(Self::CND2BKxSEL.opcode(), seq![0x77u8, 0x01u8, 0x00u8, 0x00u8, set.bits()]),
            ),
    {
        Ok(Command::new(Self::CND2BKxSEL.opcode()).args(&[0x77, 0x01, 0x00, 0x00, set.bits()]))
    }
}


impl BK0Command2 {
    /// The bank guard for BK0 registers: builds the command only while BK0 is
    /// selected, and returns `WrongBank` otherwise without building anything.
    pub fn validate<F: Fn() -> Command>(cmd2: &Command2Selection, build_command: F) -> (r: Result<
        Command,
        GuardError,
    >)
        requires
            build_command.requires(()),
        ensures
            validated(*cmd2, Some(Command2Selection::BK0), build_command, r),
    {
        crate::bank::validate(cmd2, Some(Command2Selection::BK0), build_command)
    }

    /// # POSITIVE GAMMA CONTROL
    ///
    /// The gamma table is passed through byte for byte.
    pub fn positive_gamma_control(cmd2: &Command2Selection, parameters: &[u8]) -> (r: Result<
        Command,
        GuardError,
    >)
        ensures
            guarded(
                *cmd2,
                Command2Selection::BK0,
                r,
                command_model(Self::PVGAMCTRL.opcode(), parameters@),
            ),
    {
        Self::validate(
            cmd2,
            (|| -> (c: Command)
                ensures
                    c@ == command_model(BK0Command2::PVGAMCTRL.opcode(), parameters@),
                { Command::new(BK0Command2::PVGAMCTRL.opcode()).args(parameters) }),
        )
    }

    /// # NEGATIVE GAMMA CONTROL
    ///
    /// The gamma table is passed through byte for byte.
    pub fn negative_gamma_control(cmd2: &Command2Selection, parameters: &[u8]) -> (r: Result<
        Command,
        GuardError,
    >)
        ensures
            guarded(
                *cmd2,
                Command2Selection::BK0,
                r,
                command_model(Self::NVGAMCTRL.opcode(), parameters@),
            ),
    {
        Self::validate(
            cmd2,
            (|| -> (c: Command)
                ensures
                    c@ == command_model(BK0Command2::NVGAMCTRL.opcode(), parameters@),
                { Command::new(BK0Command2::NVGAMCTRL.opcode()).args(parameters) }),
        )
    }

    /// # DISPLAY LINE SETTING
    ///
    /// The first parameter byte holds the `lde_en` flag and the line count
    /// together; the second holds the line count's fine step.
    pub fn display_line_setting(
        cmd2: &Command2Selection,
        lde_en: u8,
        line: u8,
        line_delta: u8,
    ) -> (r: Result<Command, GuardError>)
        ensures
            guarded(
                *cmd2,
                Command2Selection::BK0,
                r,
                command_model(Self::LNESET.opcode(), seq![lde_en | line, line_delta]),
            ),
    {
        Self::validate(
            cmd2,
            (|| -> (c: Command)
                ensures
                    c@ == command_model(BK0Command2::LNESET.opcode(), seq![lde_en | line, line_delta]),
                {
                    let c = Command::new(BK0Command2::LNESET.opcode()).arg(lde_en | line).arg(line_delta);
                    assert(c.parameters@ =~= seq![lde_en | line, line_delta]);
                    c
                }),
        )
    }

    /// # PORCH CONTROL
    ///
    /// Sends the lines from the end of vertical sync to the end of the frame,
    /// then the lines from the end of the visible area to the start of sync.
    pub fn porch_control(cmd2: &Command2Selection, mode: &Mode) -> (r: Result<Command, GuardError>)
        requires
            mode.vertical_porches_fit(),
        ensures
            guarded(
                *cmd2,
                Command2Selection::BK0,
                r,
                command_model(
                    Self::PORCTRL.opcode(),
                    seq![
                        (mode.vtotal - mode.vsync_end) as u8,
                        (mode.vsync_start - mode.vdisplay) as u8,
                    ],
                ),
            ),
    {
        let front_porch = (mode.vtotal - mode.vsync_end) as u8;
        let back_porch = (mode.vsync_start - mode.vdisplay) as u8;
        Self::validate(
            cmd2,
            (|| -> (c: Command)
                ensures
                    c@ == command_model(BK0Command2::PORCTRL.opcode(), seq![front_porch, back_porch]),
                {
                    let c = Command::new(BK0Command2::PORCTRL.opcode()).arg(front_porch).arg(back_porch);
                    assert(c.parameters@ =~= seq![front_porch, back_porch]);
                    c
                }),
        )
    }

    /// # INVERSION SELECT
    /// * `nlinv` - the type of inversion
    /// * `rtni` - minimum number of pclk in each line
    pub fn inversion_select(cmd2: &Command2Selection, nlinv: Inversion, rtni: u8) -> (r: Result<
        Command,
        GuardError,
    >)
        ensures
            guarded(
                *cmd2,
                Command2Selection::BK0,
                r,
                command_model(Self::INVSET.opcode(), seq![0x30u8 | nlinv.bits(), rtni]),
            ),
    {
        Self::validate(
            cmd2,
            (|| -> (c: Command)
                ensures
                    c@ == command_model(BK0Command2::INVSET.opcode(), seq![0x30u8 | nlinv.bits(), rtni]),
                {
                    let c = Command::new(BK0Command2::INVSET.opcode()).arg(0x30 | nlinv.bits()).arg(rtni);
                    assert(c.parameters@ =~= seq![0x30u8 | nlinv.bits(), rtni]);
                    c
                }),
        )
    }

    /// # RGB CONTROL
    /// * `dehv` - RGB DE mode or HV mode
    /// * `vsp` - signal polarity of the VSYNC pin
    /// * `hsp` - signal polarity of the HSYNC pin
    /// * `dp` - DOTCLK edge on which data is taken
    /// * `ep` - signal polarity of the ENABLE pin
    ///
    /// The second and third bytes are the horizontal back porch (pixels from
    /// the end of sync to the end of the line) and the lines from the end of
    /// the visible area to the start of vertical sync.
    ///
    ///|   D7   |   D6   |   D5   |   D4   |   D3   |   D2   |   D1   |   D0   |
    ///|  DEHV  |   --   |   --   |   --   |   VSP  |   HSP  |   DP   |   EP   |
    ///|                                  HBP                                  |
    ///|                                  VBP                                  |
    pub fn rgb_control(
        cmd2: &Command2Selection,
        dehv: DataEnable,
        vsp: VsyncActive,
        hsp: HsyncActive,
        dp: DataPolarity,
        ep: EnablePolarity,
        mode: &Mode,
    ) -> (r: Result<Command, GuardError>)
        requires
            mode.horizontal_back_porch_fits(),
            mode.vdisplay <= mode.vsync_start,
            mode.vsync_start - mode.vdisplay <= 0xFF,
        ensures
            guarded(
                *cmd2,
                Command2Selection::BK0,
                r,
                command_model(
                    Self::RGBCTRL.opcode(),
                    seq![
                        dehv.bits() | vsp.bits() | hsp.bits() | dp.bits() | ep.bits(),
                        (mode.htotal - mode.hsync_end) as u8,
                        (mode.vsync_start - mode.vdisplay) as u8,
                    ],
                ),
            ),
    {
        let hbp = (mode.htotal - mode.hsync_end) as u8;
        let vbp = (mode.vsync_start - mode.vdisplay) as u8;
        let flags = dehv.bits() | vsp.bits() | hsp.bits() | dp.bits() | ep.bits();
        Self::validate(
            cmd2,
            (|| -> (c: Command)
                ensures
                    c@ == command_model(BK0Command2::RGBCTRL.opcode(), seq![flags, hbp, vbp]),
                {
                    let c = Command::new(BK0Command2::RGBCTRL.opcode()).arg(flags).arg(hbp).arg(vbp);
                    assert(c.parameters@ =~= seq![flags, hbp, vbp]);
                    c
                }),
        )
    }

    /// # COLOR CONTROL
    /// * `pwm` - LEDPWM polarity
    /// * `led` - LED_ON polarity
    /// * `mdt` - RGB pixel format argument for 262K colours
    /// * `epf` - end of pixel format for 65K and 262K modes
    ///
    ///|   D7   |   D6   |   D5   |   D4   |   D3   |   D2   |   D1   |   D0   |
    ///|   --   |   --   |   PWM  |   LED  |   MDT  |            EPF           |
    pub fn color_control(
        cmd2: &Command2Selection,
        pwm: PWMPolarity,
        led: LEDPolarity,
        mdt: PixelPinout,
        epf: EndPixelFormat,
    ) -> (r: Result<Command, GuardError>)
        ensures
            guarded(
                *cmd2,
                Command2Selection::BK0,
                r,
                command_model(
                    Self::COLCTRL.opcode(),
                    seq![pwm.bits() | led.bits() | mdt.bits() | epf.bits()],
                ),
            ),
    {
        let flags = pwm.bits() | led.bits() | mdt.bits() | epf.bits();
        Self::validate(
            cmd2,
            (|| -> (c: Command)
                ensures
                    c@ == command_model(BK0Command2::COLCTRL.opcode(), seq![flags]),
                { Command::new(BK0Command2::COLCTRL.opcode()).arg(flags) }),
        )
    }

    /// # CONFIGURE SUNLIGHT READABLE ENHANCEMENT MODE
    ///
    /// `sre_alpha` is a four-bit strength; a larger value is clamped to 0x0F.
    /// The byte is written to register 0xE2 (`SECTRL`).
    ///
    ///|   D7   |   D6   |   D5   |   D4   |   D3   |   D2   |   D1   |   D0   |
    ///|   --   |   --   |   --   |   SRE  |          SRE_alpha[3:0]           |
    pub fn configure_sunlight_ehancement(
        cmd2: &Command2Selection,
        sre: SunlightReadable,
        sre_alpha: u8,
    ) -> (r: Result<Command, GuardError>)
        ensures
            guarded(
                *cmd2,
                Command2Selection::BK0,
                r,
                command_model(Self::SECTRL.opcode(), seq![sre.bits() | clamped(sre_alpha, 0x0F)]),
            ),
    {
        let alpha = clamp_field(sre_alpha, 0x0F);
        Self::validate(
            cmd2,
            (|| -> (c: Command)
                ensures
                    c@ == command_model(BK0Command2::SECTRL.opcode(), seq![sre.bits() | alpha]),
                { Command::new(BK0Command2::SECTRL.opcode()).arg(sre.bits() | alpha) }),
        )
    }
}

impl BK1Command2 {
    /// The bank guard for BK1 registers: builds the command only while BK1 is
    /// selected, and returns `WrongBank` otherwise without building anything.
    pub fn validate<F: Fn() -> Command>(cmd2: &Command2Selection, build_command: F) -> (r: Result<
        Command,
        GuardError,
    >)
        requires
            build_command.requires(()),
        ensures
            validated(*cmd2, Some(Command2Selection::BK1), build_command, r),
    {
        crate::bank::validate(cmd2, Some(Command2Selection::BK1), build_command)
    }

    /// # VOP AMPLITUDE SETTING
    pub fn set_vop_amplitude(cmd2: &Command2Selection, vrha: u8) -> (r: Result<Command, GuardError>)
        ensures
            guarded(*cmd2, Command2Selection::BK1, r, command_model(Self::VRHS.opcode(), seq![vrha])),
    {
        Self::validate(
            cmd2,
            (|| -> (c: Command)
                ensures
                    c@ == command_model(BK1Command2::VRHS.opcode(), seq![vrha]),
                { Command::new(BK1Command2::VRHS.opcode()).arg(vrha) }),
        )
    }

    /// # VCOM AMPLITUDE SETTING
    pub fn set_vcom_amplitude(
        cmd2: &Command2Selection,
        vcom: u8,
    ) -> (r: Result<Command, GuardError>)
        ensures
            guarded(*cmd2, Command2Selection::BK1, r, command_model(Self::VCOMS.opcode(), seq![vcom])),
    {
        Self::validate(
            cmd2,
            (|| -> (c: Command)
                ensures
                    c@ == command_model(BK1Command2::VCOMS.opcode(), seq![vcom]),
                { Command::new(BK1Command2::VCOMS.opcode()).arg(vcom) }),
        )
    }

    /// # VGH VOLTAGE SETTING
    pub fn set_vgh_voltage(cmd2: &Command2Selection, vgh: u8) -> (r: Result<Command, GuardError>)
        ensures
            guarded(*cmd2, Command2Selection::BK1, r, command_model(Self::VGHSS.opcode(), seq![vgh])),
    {
        Self::validate(
            cmd2,
            (|| -> (c: Command)
                ensures
                    c@ == command_model(BK1Command2::VGHSS.opcode(), seq![vgh]),
                { Command::new(BK1Command2::VGHSS.opcode()).arg(vgh) }),
        )
    }

    /// # TEST COMMAND SETTING
    pub fn test_command_setting(cmd2: &Command2Selection) -> (r: Result<Command, GuardError>)
        ensures
            guarded(
                *cmd2,
                Command2Selection::BK1,
                r,
                command_model(Self::TESTCMD.opcode(), seq![0x80u8]),
            ),
    {
        Self::validate(
            cmd2,
            (|| -> (c: Command)
                ensures
                    c@ == command_model(BK1Command2::TESTCMD.opcode(), seq![0x80u8]),
                { Command::new(BK1Command2::TESTCMD.opcode()).arg(0x80) }),
        )
    }

    /// # VGL VOLTAGE SETTING
    ///
    /// Bit 6 of the parameter is always set.
    pub fn set_vgl_voltage(cmd2: &Command2Selection, vgls: u8) -> (r: Result<Command, GuardError>)
        ensures
            guarded(
                *cmd2,
                Command2Selection::BK1,
                r,
                command_model(Self::VGLS.opcode(), seq![0x40u8 | vgls]),
            ),
    {
        Self::validate(
            cmd2,
            (|| -> (c: Command)
                ensures
                    c@ == command_model(BK1Command2::VGLS.opcode(), seq![0x40u8 | vgls]),
                { Command::new(BK1Command2::VGLS.opcode()).arg(0x40 | vgls) }),
        )
    }

    /// # POWER CONTROL 1
    /// * `ap` - gamma OP bias current
    /// * `apis` - source OP input bias current
    /// * `apos` - source OP output bias current
    pub fn power_control_one(
        cmd2: &Command2Selection,
        ap: GammaOPBias,
        apis: SourceOPInput,
        apos: SourceOPOutput,
    ) -> (r: Result<Command, GuardError>)
        ensures
            guarded(
                *cmd2,
                Command2Selection::BK1,
                r,
                command_model(Self::PWCTRL1.opcode(), seq![ap.bits() | apis.bits() | apos.bits()]),
            ),
    {
        let flags = ap.bits() | apis.bits() | apos.bits();
        Self::validate(
            cmd2,
            (|| -> (c: Command)
                ensures
                    c@ == command_model(BK1Command2::PWCTRL1.opcode(), seq![flags]),
                { Command::new(BK1Command2::PWCTRL1.opcode()).arg(flags) }),
        )
    }

    /// # POWER CONTROL 2
    /// * `avdd` - AVDD voltage level
    /// * `avcl` - AVCL voltage level
    pub fn power_control_two(cmd2: &Command2Selection, avdd: VoltageAVDD, avcl: VoltageAVCL) -> (r:
        Result<Command, GuardError>)
        ensures
            guarded(
                *cmd2,
                Command2Selection::BK1,
                r,
                command_model(Self::PWCTRL2.opcode(), seq![avdd.bits() | avcl.bits()]),
            ),
    {
        let flags = avdd.bits() | avcl.bits();
        Self::validate(
            cmd2,
            (|| -> (c: Command)
                ensures
                    c@ == command_model(BK1Command2::PWCTRL2.opcode(), seq![flags]),
                { Command::new(BK1Command2::PWCTRL2.opcode()).arg(flags) }),
        )
    }

    /// # SET SOURCE PRE DRIVE TIMING CONTROL
    /// T2D [3:0]: source pre_drive timing setting (GND to VDD).
    /// Adjust range: 0 ~ 3 uS, 1 step is 0.2 uS.
    ///|   D7   |   D6   |   D5   |   D4   |   D3   |   D2   |   D1   |   D0   |
    ///|   --   |    1   |    1   |    1   |                T2D                |
    ///
    /// T2D is a four-bit field; a larger value is clamped to 0x0F, so the
    /// fixed bits are never overwritten.
    pub fn set_pre_drive_timing_one(cmd2: &Command2Selection, t2d: u8) -> (r: Result<
        Command,
        GuardError,
    >)
        ensures
            guarded(
                *cmd2,
                Command2Selection::BK1,
                r,
                command_model(Self::SPD1.opcode(), seq![0x70u8 | clamped(t2d, 0x0F)]),
            ),
    {
        let timing = clamp_field(t2d, 0x0F);
        Self::validate(
            cmd2,
            (|| -> (c: Command)
                ensures
                    c@ == command_model(BK1Command2::SPD1.opcode(), seq![0x70u8 | timing]),
                { Command::new(BK1Command2::SPD1.opcode()).arg(0x70 | timing) }),
        )
    }

    /// # SET SOURCE PRE DRIVE TIMING CONTROL 2
    /// Same parameter as SPD1, clamped to 0x0F in the same way.
    pub fn set_pre_drive_timing_two(cmd2: &Command2Selection, t2d: u8) -> (r: Result<
        Command,
        GuardError,
    >)
        ensures
            guarded(
                *cmd2,
                Command2Selection::BK1,
                r,
                command_model(Self::SPD2.opcode(), seq![0x70u8 | clamped(t2d, 0x0F)]),
            ),
    {
        let timing = clamp_field(t2d, 0x0F);
        Self::validate(
            cmd2,
            (|| -> (c: Command)
                ensures
                    c@ == command_model(BK1Command2::SPD2.opcode(), seq![0x70u8 | timing]),
                { Command::new(BK1Command2::SPD2.opcode()).arg(0x70 | timing) }),
        )
    }
}

} // verus!
