//! Power-up sequence of the TDO 480x480 panel.

use vstd::prelude::*;

use crate::bank::{confirm_switch, Command2Selection};
use crate::command::Command;
use crate::fields::{
    BitsPerPixel, ColorOrder, EndPixelFormat, GammaOPBias, Inversion, LEDPolarity, PWMPolarity,
    PixelPinout, ScanDirection, SourceOPInput, SourceOPOutput, VoltageAVCL, VoltageAVDD,
};
use crate::instructions::{BK0Command2, BK1Command2, CommandsGeneral};
use crate::panel::Mode;
use crate::step::{push_built, push_raw, push_sleep, send_step, steps_view, Step, StepModel};

verus! {

/// Command2 bank 0: line count, porches, inversion, colour control and gamma tables.
pub open spec fn bank0_model(mode: Mode) -> Seq<StepModel> {
    seq![
        send_step(0xFF, seq![0x77u8, 0x01, 0x00, 0x00, 0x10]),
        send_step(0xC0, seq![0x3Bu8, 0x00]),
        send_step(
            0xC1,
            seq![
                (mode.vtotal - mode.vsync_end) as u8, (mode.vsync_start - mode.vdisplay) as u8,
            ],
        ),
        send_step(0xC2, seq![0x30u8, 0x02]),
        send_step(0xCC, seq![0x10u8]),
        send_step(0xCD, seq![0x08u8]),
        send_step(
            0xB0,
            seq![
                0x02u8, 0x13, 0x1B, 0x0D, 0x10, 0x05, 0x08, 0x07, 0x07, 0x24, 0x04, 0x11, 0x0E,
                0x2C, 0x33, 0x1D,
            ],
        ),
        send_step(
            0xB1,
            seq![
                0xB1u8, 0x05, 0x13, 0x1B, 0x0D, 0x11, 0x05, 0x08, 0x07, 0x07, 0x24, 0x04, 0x11,
                0x0E, 0x2C, 0x33, 0x1D,
            ],
        ),
    ]
}

/// Command2 bank 1: voltages, power control and source pre-drive timing.
pub open spec fn bank1_model() -> Seq<StepModel> {
    seq![
        send_step(0xFF, seq![0x77u8, 0x01, 0x00, 0x00, 0x11]),
        send_step(0xB0, seq![0x5Du8]),
        send_step(0xB1, seq![0x43u8]),
        send_step(0xB2, seq![0x81u8]),
        send_step(0xB3, seq![0x80u8]),
        send_step(0xB5, seq![0x43u8]),
        send_step(0xB7, seq![0x85u8]),
        send_step(0xB8, seq![0x20u8]),
        send_step(0xC1, seq![0x78u8]),
        send_step(0xC2, seq![0x78u8]),
    ]
}

/// Register values from the panel vendor's reference code, sent verbatim
/// while bank 1 is selected. What they set is not documented.
pub open spec fn vendor_model() -> Seq<StepModel> {
    seq![
        send_step(0xD0, seq![0x88u8]),
        send_step(0xE0, seq![0x00u8, 0x00, 0x02]),
        send_step(0xE1, seq![0x03u8, 0xA0, 0x00, 0x00, 0x04, 0xA0, 0x00, 0x00, 0x00, 0x20, 0x20]),
        send_step(
            0xE2,
            seq![
                0x00u8, 0x00, 0x00, 0x00, 0x00, 0x00, 0x00, 0x00, 0x00, 0x00, 0x00, 0x00, 0x00,
            ],
        ),
        send_step(0xE3, seq![0x00u8, 0x00, 0x11, 0x00]),
        send_step(0xE4, seq![0x22u8, 0x00]),
        send_step(
            0xE5,
            seq![
                0x05u8, 0xEC, 0xA0, 0xA0, 0x07, 0xEE, 0xA0, 0xA0, 0x00, 0x00, 0x00, 0x00, 0x00,
                0x00, 0x00, 0x00,
            ],
        ),
        send_step(0xE6, seq![0x00u8, 0x00, 0x11, 0x00]),
        send_step(0xE7, seq![0x22u8, 0x00]),
        send_step(
            0xE8,
            seq![
                0x06u8, 0xED, 0xA0, 0xA0, 0x08, 0xEF, 0xA0, 0xA0, 0x00, 0x00, 0x00, 0x00, 0x00,
                0x00, 0x00, 0x00,
            ],
        ),
        send_step(0xEB, seq![0x00u8, 0x00, 0x40, 0x40, 0x00, 0x00, 0x00]),
        send_step(
            0xED,
            seq![
                0xFFu8, 0xFF, 0xFF, 0xBA, 0x0A, 0xBF, 0x45, 0xFF, 0xFF, 0x54, 0xFB, 0xA0, 0xAB,
                0xFF, 0xFF, 0xFF,
            ],
        ),
        send_step(0xEF, seq![0x10u8, 0x0D, 0x04, 0x08, 0x3F, 0x1F]),
    ]
}

/// Bank 1 selected once more, for one further vendor value.
pub open spec fn bank1_again_model() -> Seq<StepModel> {
    seq![
        send_step(0xFF, seq![0x77u8, 0x01, 0x00, 0x00, 0x11]),
        send_step(0xEF, seq![0x08u8]),
    ]
}

/// Command2 off, then sleep out, display on and the pixel format.
pub open spec fn display_on_model() -> Seq<StepModel> {
    seq![
        send_step(0xFF, seq![0x77u8, 0x01, 0x00, 0x00, 0x00]),
        send_step(0x11, seq![]),
        StepModel::Sleep(120),
        send_step(0x29, seq![]),
        send_step(0x36, seq![0x00u8]),
        send_step(0x3A, seq![0x60u8]),
    ]
}

/// The whole power-up sequence of the TDO panel for the given timing, with
/// the bytes that each command puts on the bus.
pub open spec fn init_model(mode: Mode) -> Seq<StepModel> {
    bank0_model(mode)
        + bank1_model()
        + vendor_model()
        + bank1_again_model()
        + display_on_model()
}

/// Builds the power-up sequence of the TDO panel. The Command2 bank is
/// tracked as the sequence goes, so every banked register is built in its
/// own bank and no command is left out.
pub fn init_steps(mode: &Mode) -> (r: Vec<Step>)
    requires
        mode.vertical_porches_fit(),
    ensures
        steps_view(r@) == init_model(*mode),
{
    let mut steps: Vec<Step> = Vec::new();
    let mut cmd2 = Command2Selection::Disabled;
    push_bank0(&mut steps, &mut cmd2, mode);
    push_bank1(&mut steps, &mut cmd2);
    push_vendor(&mut steps);
    push_bank1_again(&mut steps, &mut cmd2);
    push_display_on(&mut steps, &mut cmd2);
    assert(steps_view(steps@) =~= init_model(*mode));
    steps
}

/// Appends the steps of `bank0_model` to `steps`, keeping the bank
/// mirror `cmd2` in step with the switches it sends.
fn push_bank0(steps: &mut Vec<Step>, cmd2: &mut Command2Selection, mode: &Mode)
    requires
        mode.vertical_porches_fit(),
    ensures
        steps_view(final(steps)@) == steps_view(old(steps)@) + bank0_model(*mode),
        *final(cmd2) == Command2Selection::BK0,
{
    let ghost start = steps_view(steps@);
    proof {
        assert(0x3Bu8 | 0x00u8 == 0x3Bu8
            && 0x30u8 | 0x00u8 == 0x30u8
            && 0x00u8 | 0x00u8 | 0x08u8 | 0x00u8 == 0x08u8) by (bit_vector);
    }
    push_built(steps, CommandsGeneral::set_command_2(Command2Selection::BK0));
    confirm_switch(cmd2, Command2Selection::BK0);
    push_built(steps, BK0Command2::display_line_setting(cmd2, 0x3B, 0x00, 0x00));
    push_built(steps, BK0Command2::porch_control(cmd2, mode));
    push_built(steps, BK0Command2::inversion_select(cmd2, Inversion::OneDot, 0x02));
    push_built(steps, Ok(Command::new(0xCC).arg(0x10)));
    push_built(steps, BK0Command2::color_control(
        cmd2,
        PWMPolarity::Low,
        LEDPolarity::Low,
        PixelPinout::Condensed,
        EndPixelFormat::SelfMSB,
    ));
    push_built(
        steps,
        BK0Command2::positive_gamma_control(
            cmd2,
            &[
                0x02, 0x13, 0x1B, 0x0D, 0x10, 0x05, 0x08, 0x07, 0x07, 0x24, 0x04, 0x11, 0x0E, 0x2C,
                0x33, 0x1D,
            ],
        ),
    );
    push_built(
        steps,
        BK0Command2::negative_gamma_control(
            cmd2,
            &[
                0xB1, 0x05, 0x13, 0x1B, 0x0D, 0x11, 0x05, 0x08, 0x07, 0x07, 0x24, 0x04, 0x11, 0x0E,
                0x2C, 0x33, 0x1D,
            ],
        ),
    );
    assert(steps_view(steps@) =~~= start + bank0_model(*mode));
}

/// Appends the steps of `bank1_model` to `steps`, keeping the bank
/// mirror `cmd2` in step with the switches it sends.
fn push_bank1(steps: &mut Vec<Step>, cmd2: &mut Command2Selection)
    ensures
        steps_view(final(steps)@) == steps_view(old(steps)@) + bank1_model(),
        *final(cmd2) == Command2Selection::BK1,
{
    let ghost start = steps_view(steps@);
    proof {
        assert(0x40u8 | 0x43u8 == 0x43u8
            && 0x80u8 | 0x04u8 | 0x01u8 == 0x85u8
            && 0x20u8 | 0x00u8 == 0x20u8
            && 0x70u8 | 0x08u8 == 0x78u8) by (bit_vector);
    }
    push_built(steps, CommandsGeneral::set_command_2(Command2Selection::BK1));
    confirm_switch(cmd2, Command2Selection::BK1);
    push_built(steps, BK1Command2::set_vop_amplitude(cmd2, 0x5D));
    push_built(steps, BK1Command2::set_vcom_amplitude(cmd2, 0x43));
    push_built(steps, BK1Command2::set_vgh_voltage(cmd2, 0x81));
    push_built(steps, BK1Command2::test_command_setting(cmd2));
    push_built(steps, BK1Command2::set_vgl_voltage(cmd2, 0x43));
    push_built(steps, BK1Command2::power_control_one(
        cmd2,
        GammaOPBias::Middle,
        SourceOPInput::Min,
        SourceOPOutput::Min,
    ));
    push_built(
        steps,
        BK1Command2::power_control_two(cmd2, VoltageAVDD::Pos6_6, VoltageAVCL::Neg4_4),
    );
    push_built(steps, BK1Command2::set_pre_drive_timing_one(cmd2, 0x08));
    push_built(steps, BK1Command2::set_pre_drive_timing_two(cmd2, 0x08));
    assert(steps_view(steps@) =~~= start + bank1_model());
}

/// Appends the steps of `vendor_model` to `steps`.
fn push_vendor(steps: &mut Vec<Step>)
    ensures
        steps_view(final(steps)@) == steps_view(old(steps)@) + vendor_model(),
{
    let ghost start = steps_view(steps@);
    push_built(steps, Ok(Command::new(0xD0).arg(0x88)));
    push_raw(steps, 0xE0, &[0x00, 0x00, 0x02]);
    push_raw(steps, 0xE1, &[0x03, 0xA0, 0x00, 0x00, 0x04, 0xA0, 0x00, 0x00, 0x00, 0x20, 0x20]);
    push_raw(
        steps,
        0xE2,
        &[
            0x00, 0x00, 0x00, 0x00, 0x00, 0x00, 0x00, 0x00, 0x00, 0x00, 0x00, 0x00, 0x00,
        ],
    );
    push_raw(steps, 0xE3, &[0x00, 0x00, 0x11, 0x00]);
    push_raw(steps, 0xE4, &[0x22, 0x00]);
    push_raw(
        steps,
        0xE5,
        &[
            0x05, 0xEC, 0xA0, 0xA0, 0x07, 0xEE, 0xA0, 0xA0, 0x00, 0x00, 0x00, 0x00, 0x00, 0x00,
            0x00, 0x00,
        ],
    );
    push_raw(steps, 0xE6, &[0x00, 0x00, 0x11, 0x00]);
    push_raw(steps, 0xE7, &[0x22, 0x00]);
    push_raw(
        steps,
        0xE8,
        &[
            0x06, 0xED, 0xA0, 0xA0, 0x08, 0xEF, 0xA0, 0xA0, 0x00, 0x00, 0x00, 0x00, 0x00, 0x00,
            0x00, 0x00,
        ],
    );
    push_raw(steps, 0xEB, &[0x00, 0x00, 0x40, 0x40, 0x00, 0x00, 0x00]);
    push_raw(
        steps,
        0xED,
        &[
            0xFF, 0xFF, 0xFF, 0xBA, 0x0A, 0xBF, 0x45, 0xFF, 0xFF, 0x54, 0xFB, 0xA0, 0xAB, 0xFF,
            0xFF, 0xFF,
        ],
    );
    push_raw(steps, 0xEF, &[0x10, 0x0D, 0x04, 0x08, 0x3F, 0x1F]);
    assert(steps_view(steps@) =~~= start + vendor_model());
}

/// Appends the steps of `bank1_again_model` to `steps`, keeping the bank
/// mirror `cmd2` in step with the switches it sends.
fn push_bank1_again(steps: &mut Vec<Step>, cmd2: &mut Command2Selection)
    ensures
        steps_view(final(steps)@) == steps_view(old(steps)@) + bank1_again_model(),
        *final(cmd2) == Command2Selection::BK1,
{
    let ghost start = steps_view(steps@);
    push_built(steps, CommandsGeneral::set_command_2(Command2Selection::BK1));
    confirm_switch(cmd2, Command2Selection::BK1);
    push_built(steps, Ok(Command::new(0xEF).arg(0x08)));
    assert(steps_view(steps@) =~~= start + bank1_again_model());
}

/// Appends the steps of `display_on_model` to `steps`, keeping the bank
/// mirror `cmd2` in step with the switches it sends.
fn push_display_on(steps: &mut Vec<Step>, cmd2: &mut Command2Selection)
    ensures
        steps_view(final(steps)@) == steps_view(old(steps)@) + display_on_model(),
        *final(cmd2) == Command2Selection::Disabled,
{
    let ghost start = steps_view(steps@);
    proof {
        assert(0x00u8 | 0x00u8 == 0x00u8) by (bit_vector);
    }
    push_built(steps, CommandsGeneral::set_command_2(Command2Selection::Disabled));
    confirm_switch(cmd2, Command2Selection::Disabled);
    push_built(steps, CommandsGeneral::sleep_mode_off());
    push_sleep(steps, 120);
    push_built(steps, CommandsGeneral::display_on());
    push_built(
        steps,
        CommandsGeneral::display_data_control(ScanDirection::Normal, ColorOrder::Rgb),
    );
    push_built(steps, CommandsGeneral::set_color_mode(BitsPerPixel::Rgb666));
    assert(steps_view(steps@) =~~= start + display_on_model());
}

} // verus!
