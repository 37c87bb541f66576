//! Power-up sequence after the Linux kernel's driver for this chip.

use vstd::prelude::*;

use crate::bank::{confirm_switch, Command2Selection};
use crate::fields::{
    BitsPerPixel, ColorOrder, DataEnable, DataPolarity, EnablePolarity, GammaOPBias, HsyncActive,
    Inversion, ScanDirection, SourceOPInput, SourceOPOutput, TearingEffect, VoltageAVCL,
    VoltageAVDD, VsyncActive,
};
use crate::instructions::{BK0Command2, BK1Command2, CommandsGeneral};
use crate::panel::Mode;
use crate::step::{push_built, push_raw, push_sleep, send_step, steps_view, Step, StepModel};

verus! {

/// Software reset and sleep out, each followed by the wait the chip needs.
pub open spec fn wake_model() -> Seq<StepModel> {
    seq![
        send_step(0x01, seq![]),
        StepModel::Sleep(10),
        send_step(0x11, seq![]),
        StepModel::Sleep(300),
    ]
}

/// Command2 bank 0: gamma tables, line count, porches, inversion and RGB
/// interface control.
pub open spec fn bank0_model(mode: Mode) -> Seq<StepModel> {
    seq![
        send_step(0xFF, seq![0x77u8, 0x01, 0x00, 0x00, 0x10]),
        send_step(
            0xB0,
            seq![
                0x00u8, 0x0E, 0x15, 0x0F, 0x11, 0x08, 0x08, 0x08, 0x08, 0x23, 0x04, 0x13, 0x12,
                0x2B, 0x34, 0x1F,
            ],
        ),
        send_step(
            0xB1,
            seq![
                0x00u8, 0x0E, 0x95, 0x0F, 0x13, 0x07, 0x09, 0x08, 0x08, 0x22, 0x04, 0x10, 0x0E,
                0x2C, 0x34, 0x1F,
            ],
        ),
        send_step(0xC0, seq![0xE9u8, 0x02]),
        send_step(
            0xC1,
            seq![
                (mode.vtotal - mode.vsync_end) as u8, (mode.vsync_start - mode.vdisplay) as u8,
            ],
        ),
        send_step(0xC2, seq![0x37u8, 0xFF]),
        send_step(
            0xC3,
            seq![
                0x00u8, (mode.htotal - mode.hsync_end) as u8,
                (mode.vsync_start - mode.vdisplay) as u8,
            ],
        ),
    ]
}

/// Command2 bank 1: voltages, power control and source pre-drive timing.
pub open spec fn bank1_model() -> Seq<StepModel> {
    seq![
        send_step(0xFF, seq![0x77u8, 0x01, 0x00, 0x00, 0x11]),
        send_step(0xB0, seq![0x45u8]),
        send_step(0xB1, seq![0x13u8]),
        send_step(0xB2, seq![0x07u8]),
        send_step(0xB3, seq![0x80u8]),
        send_step(0xB5, seq![0x47u8]),
        send_step(0xB7, seq![0x84u8]),
        send_step(0xB8, seq![0x20u8]),
        send_step(0xC1, seq![0x73u8]),
        send_step(0xC2, seq![0x73u8]),
    ]
}

/// Register values from the chip vendor's sample code, as the Linux MIPI
/// driver for this chip sends them, verbatim and while bank 1 is selected.
/// What they set is not documented.
pub open spec fn vendor_model() -> Seq<StepModel> {
    seq![
        send_step(0xE0, seq![0x00u8, 0x00, 0x02]),
        send_step(0xE1, seq![0x0Bu8, 0x00, 0x0D, 0x00, 0x0C, 0x00, 0x0E, 0x00, 0x00, 0x44, 0x44]),
        send_step(
            0xE2,
            seq![
                0x33u8, 0x33, 0x44, 0x44, 0x64, 0x00, 0x66, 0x00, 0x65, 0x00, 0x67, 0x00, 0x00,
            ],
        ),
        send_step(0xE3, seq![0x00u8, 0x00, 0x33, 0x33]),
        send_step(0xE4, seq![0x44u8, 0x44]),
        send_step(
            0xE5,
            seq![
                0x0Cu8, 0x78, 0x3C, 0xA0, 0x0E, 0x78, 0x3C, 0xA0, 0x10, 0x78, 0x3C, 0xA0, 0x12,
                0x78, 0x3C, 0xA0,
            ],
        ),
        send_step(0xE6, seq![0x00u8, 0x00, 0x33, 0x33]),
        send_step(0xE7, seq![0x44u8, 0x44]),
        send_step(
            0xE8,
            seq![
                0x0Du8, 0x78, 0x3C, 0xA0, 0x0F, 0x78, 0x3C, 0xA0, 0x11, 0x78, 0x3C, 0xA0, 0x13,
                0x78, 0x3C, 0xA0,
            ],
        ),
        send_step(0xEB, seq![0x02u8, 0x02, 0x39, 0x39, 0xEE, 0x44, 0x00]),
        send_step(0xEC, seq![0x00u8, 0x00]),
        send_step(
            0xED,
            seq![
                0xFFu8, 0xF1, 0x04, 0x56, 0x72, 0x3F, 0xFF, 0xFF, 0xFF, 0xFF, 0xF3, 0x27, 0x65,
                0x40, 0x1F, 0xFF,
            ],
        ),
    ]
}

/// Command2 off, then the pixel format, scan order, tearing effect output
/// and display on, followed by a wait for the panel to settle.
pub open spec fn display_on_model() -> Seq<StepModel> {
    seq![
        send_step(0xFF, seq![0x77u8, 0x01, 0x00, 0x00, 0x00]),
        send_step(0x3A, seq![0x60u8]),
        send_step(0x36, seq![0x00u8]),
        send_step(0x35, seq![0x01u8]),
        send_step(0x29, seq![]),
        StepModel::Sleep(200),
    ]
}

/// The whole power-up sequence for the given timing, with the bytes that each
/// command puts on the bus.
pub open spec fn init_model(mode: Mode) -> Seq<StepModel> {
    wake_model()
        + bank0_model(mode)
        + bank1_model()
        + vendor_model()
        + display_on_model()
}

/// Builds the power-up sequence that the Linux kernel's driver uses. The
/// Command2 bank is tracked as the sequence goes, so every banked register is
/// built in its own bank and no command is left out.
pub fn init_steps(mode: &Mode) -> (r: Vec<Step>)
    requires
        mode.vertical_porches_fit(),
        mode.horizontal_back_porch_fits(),
    ensures
        steps_view(r@) == init_model(*mode),
{
    let mut steps: Vec<Step> = Vec::new();
    let mut cmd2 = Command2Selection::Disabled;
    push_wake(&mut steps);
    push_bank0(&mut steps, &mut cmd2, mode);
    push_bank1(&mut steps, &mut cmd2);
    push_vendor(&mut steps);
    push_display_on(&mut steps, &mut cmd2);
    assert(steps_view(steps@) =~= init_model(*mode));
    steps
}

/// Appends the steps of `wake_model` to `steps`.
fn push_wake(steps: &mut Vec<Step>)
    ensures
        steps_view(final(steps)@) == steps_view(old(steps)@) + wake_model(),
{
    let ghost start = steps_view(steps@);
    push_built(steps, CommandsGeneral::software_reset());
    push_sleep(steps, 10);
    push_built(steps, CommandsGeneral::sleep_mode_off());
    push_sleep(steps, 300);
    assert(steps_view(steps@) =~~= start + wake_model());
}

/// Appends the steps of `bank0_model` to `steps`, keeping the bank
/// mirror `cmd2` in step with the switches it sends.
fn push_bank0(steps: &mut Vec<Step>, cmd2: &mut Command2Selection, mode: &Mode)
    requires
        mode.vertical_porches_fit(),
        mode.horizontal_back_porch_fits(),
    ensures
        steps_view(final(steps)@) == steps_view(old(steps)@) + bank0_model(*mode),
        *final(cmd2) == Command2Selection::BK0,
{
    let ghost start = steps_view(steps@);
    proof {
        assert(0x80u8 | 0x69u8 == 0xE9u8
            && 0x30u8 | 0x07u8 == 0x37u8
            && 0x00u8 | 0x00u8 | 0x00u8 | 0x00u8 | 0x00u8 == 0x00u8) by (bit_vector);
    }
    push_built(steps, CommandsGeneral::set_command_2(Command2Selection::BK0));
    confirm_switch(cmd2, Command2Selection::BK0);
    push_built(
        steps,
        BK0Command2::positive_gamma_control(
            cmd2,
            &[
                0x00, 0x0E, 0x15, 0x0F, 0x11, 0x08, 0x08, 0x08, 0x08, 0x23, 0x04, 0x13, 0x12, 0x2B,
                0x34, 0x1F,
            ],
        ),
    );
    push_built(
        steps,
        BK0Command2::negative_gamma_control(
            cmd2,
            &[
                0x00, 0x0E, 0x95, 0x0F, 0x13, 0x07, 0x09, 0x08, 0x08, 0x22, 0x04, 0x10, 0x0E, 0x2C,
                0x34, 0x1F,
            ],
        ),
    );
    push_built(steps, BK0Command2::display_line_setting(cmd2, 0x80, 0x69, 0x02));
    push_built(steps, BK0Command2::porch_control(cmd2, mode));
    push_built(steps, BK0Command2::inversion_select(cmd2, Inversion::Column, 0xFF));
    push_built(steps, BK0Command2::rgb_control(
        cmd2,
        DataEnable::DE,
        VsyncActive::Low,
        HsyncActive::Low,
        DataPolarity::Rising,
        EnablePolarity::Low,
        mode,
    ));
    assert(steps_view(steps@) =~~= start + bank0_model(*mode));
}

/// Appends the steps of `bank1_model` to `steps`, keeping the bank
/// mirror `cmd2` in step with the switches it sends.
fn push_bank1(steps: &mut Vec<Step>, cmd2: &mut Command2Selection)
    ensures
        steps_view(final(steps)@) == steps_view(old(steps)@) + bank1_model(),
        *final(cmd2) == Command2Selection::BK1,
{
    let ghost start = steps_view(steps@);
    proof {
        assert(0x40u8 | 0x07u8 == 0x47u8
            && 0x80u8 | 0x04u8 | 0x00u8 == 0x84u8
            && 0x20u8 | 0x00u8 == 0x20u8
            && 0x70u8 | 0x03u8 == 0x73u8) by (bit_vector);
    }
    push_built(steps, CommandsGeneral::set_command_2(Command2Selection::BK1));
    confirm_switch(cmd2, Command2Selection::BK1);
    push_built(steps, BK1Command2::set_vop_amplitude(cmd2, 0x45));
    push_built(steps, BK1Command2::set_vcom_amplitude(cmd2, 0x13));
    push_built(steps, BK1Command2::set_vgh_voltage(cmd2, 0x07));
    push_built(steps, BK1Command2::test_command_setting(cmd2));
    push_built(steps, BK1Command2::set_vgl_voltage(cmd2, 0x07));
    push_built(steps, BK1Command2::power_control_one(
        cmd2,
        GammaOPBias::Middle,
        SourceOPInput::Min,
        SourceOPOutput::Off,
    ));
    push_built(
        steps,
        BK1Command2::power_control_two(cmd2, VoltageAVDD::Pos6_6, VoltageAVCL::Neg4_4),
    );
    push_built(steps, BK1Command2::set_pre_drive_timing_one(cmd2, 0x03));
    push_built(steps, BK1Command2::set_pre_drive_timing_two(cmd2, 0x03));
    assert(steps_view(steps@) =~~= start + bank1_model());
}

/// Appends the steps of `vendor_model` to `steps`.
fn push_vendor(steps: &mut Vec<Step>)
    ensures
        steps_view(final(steps)@) == steps_view(old(steps)@) + vendor_model(),
{
    let ghost start = steps_view(steps@);
    push_raw(steps, 0xE0, &[0x00, 0x00, 0x02]);
    push_raw(steps, 0xE1, &[0x0B, 0x00, 0x0D, 0x00, 0x0C, 0x00, 0x0E, 0x00, 0x00, 0x44, 0x44]);
    push_raw(
        steps,
        0xE2,
        &[
            0x33, 0x33, 0x44, 0x44, 0x64, 0x00, 0x66, 0x00, 0x65, 0x00, 0x67, 0x00, 0x00,
        ],
    );
    push_raw(steps, 0xE3, &[0x00, 0x00, 0x33, 0x33]);
    push_raw(steps, 0xE4, &[0x44, 0x44]);
    push_raw(
        steps,
        0xE5,
        &[
            0x0C, 0x78, 0x3C, 0xA0, 0x0E, 0x78, 0x3C, 0xA0, 0x10, 0x78, 0x3C, 0xA0, 0x12, 0x78,
            0x3C, 0xA0,
        ],
    );
    push_raw(steps, 0xE6, &[0x00, 0x00, 0x33, 0x33]);
    push_raw(steps, 0xE7, &[0x44, 0x44]);
    push_raw(
        steps,
        0xE8,
        &[
            0x0D, 0x78, 0x3C, 0xA0, 0x0F, 0x78, 0x3C, 0xA0, 0x11, 0x78, 0x3C, 0xA0, 0x13, 0x78,
            0x3C, 0xA0,
        ],
    );
    push_raw(steps, 0xEB, &[0x02, 0x02, 0x39, 0x39, 0xEE, 0x44, 0x00]);
    push_raw(steps, 0xEC, &[0x00, 0x00]);
    push_raw(
        steps,
        0xED,
        &[
            0xFF, 0xF1, 0x04, 0x56, 0x72, 0x3F, 0xFF, 0xFF, 0xFF, 0xFF, 0xF3, 0x27, 0x65, 0x40,
            0x1F, 0xFF,
        ],
    );
    assert(steps_view(steps@) =~~= start + vendor_model());
}

/// Appends the steps of `display_on_model` to `steps`, keeping the bank
/// mirror `cmd2` in step with the switches it sends.
fn push_display_on(steps: &mut Vec<Step>, cmd2: &mut Command2Selection)
    ensures
        steps_view(final(steps)@) == steps_view(old(steps)@) + display_on_model(),
        *final(cmd2) == Command2Selection::Disabled,
{
    let ghost start = steps_view(steps@);
    proof {
        assert(0x00u8 | 0x00u8 == 0x00u8) by (bit_vector);
    }
    push_built(steps, CommandsGeneral::set_command_2(Command2Selection::Disabled));
    confirm_switch(cmd2, Command2Selection::Disabled);
    push_built(steps, CommandsGeneral::set_color_mode(BitsPerPixel::Rgb666));
    push_built(
        steps,
        CommandsGeneral::display_data_control(ScanDirection::Normal, ColorOrder::Rgb),
    );
    push_built(steps, CommandsGeneral::tearing_effect_on(TearingEffect::VHBlank));
    push_built(steps, CommandsGeneral::display_on());
    push_sleep(steps, 200);
    assert(steps_view(steps@) =~~= start + display_on_model());
}

} // verus!
