use st7701s::fields::{
    AdaptiveBrightness, Backlight, BitsPerPixel, BrightnessControl, ColorOrder, DataEnable,
    DataPolarity, DisplayDimming, EnablePolarity, EndPixelFormat, Enhancement, EnhancementMode,
    GammaCurve, GammaOPBias, HsyncActive, Inversion, LEDPolarity, PWMPolarity, PixelPinout,
    ScanDirection, SourceOPInput, SourceOPOutput, SunlightReadable, TearingEffect, VoltageAVCL,
    VoltageAVDD, VsyncActive,
};
use st7701s::{BK0Command2, BK1Command2, Command, Command2Selection, CommandsGeneral, Mode};

fn parts(c: Command) -> (u8, Vec<u8>) {
    (c.address, c.parameters)
}

#[test]
fn general_commands_without_parameters() {
    let cases = [
        (CommandsGeneral::no_operation(), 0x00),
        (CommandsGeneral::software_reset(), 0x01),
        (CommandsGeneral::sleep_mode_on(), 0x10),
        (CommandsGeneral::sleep_mode_off(), 0x11),
        (CommandsGeneral::partial_mode_on(), 0x12),
        (CommandsGeneral::normal_mode_on(), 0x13),
        (CommandsGeneral::invert_display_off(), 0x20),
        (CommandsGeneral::invert_display_on(), 0x21),
        (CommandsGeneral::all_pixels_off(), 0x22),
        (CommandsGeneral::all_pixels_on(), 0x23),
        (CommandsGeneral::display_off(), 0x28),
        (CommandsGeneral::display_on(), 0x29),
        (CommandsGeneral::tearing_effect_off(), 0x34),
        (CommandsGeneral::idle_mode_off(), 0x38),
        (CommandsGeneral::idle_mode_on(), 0x39),
        (CommandsGeneral::read_display_pixel_format(), 0x0C),
        (CommandsGeneral::read_self_diagnostics(), 0x0F),
    ];
    for (r, opcode) in cases {
        assert_eq!(parts(r.unwrap()), (opcode, vec![]));
    }
}

#[test]
fn general_commands_with_fields() {
    assert_eq!(parts(CommandsGeneral::gamma_curve_select(GammaCurve::Three).unwrap()), (0x26, vec![0x04]));
    assert_eq!(parts(CommandsGeneral::tearing_effect_on(TearingEffect::VHBlank).unwrap()), (0x35, vec![0x01]));
    assert_eq!(
        parts(CommandsGeneral::display_data_control(ScanDirection::Reverse, ColorOrder::Bgr).unwrap()),
        (0x36, vec![0x18])
    );
    assert_eq!(
        parts(CommandsGeneral::display_data_control(ScanDirection::Normal, ColorOrder::Rgb).unwrap()),
        (0x36, vec![0x00])
    );
    assert_eq!(parts(CommandsGeneral::set_color_mode(BitsPerPixel::Rgb888).unwrap()), (0x3A, vec![0x70]));
    assert_eq!(parts(CommandsGeneral::set_display_brightness(0xA5).unwrap()), (0x51, vec![0xA5]));
    assert_eq!(
        parts(
            CommandsGeneral::configure_brightness(
                BrightnessControl::On,
                DisplayDimming::On,
                Backlight::On
            )
            .unwrap()
        ),
        (0x53, vec![0x2C])
    );
    assert_eq!(
        parts(
            CommandsGeneral::configure_color_enhancement(
                Enhancement::On,
                EnhancementMode::High,
                AdaptiveBrightness::MovingImage
            )
            .unwrap()
        ),
        (0x55, vec![0xB3])
    );
    assert_eq!(parts(CommandsGeneral::set_minimum_brightness(0x10).unwrap()), (0x5E, vec![0x10]));
}

#[test]
fn bk0_commands() {
    let b = Command2Selection::BK0;
    assert_eq!(parts(BK0Command2::negative_gamma_control(&b, &[9, 8, 7]).unwrap()), (0xB1, vec![9, 8, 7]));
    assert_eq!(parts(BK0Command2::display_line_setting(&b, 0x80, 0x69, 0x02).unwrap()), (0xC0, vec![0xE9, 0x02]));
    assert_eq!(parts(BK0Command2::inversion_select(&b, Inversion::Column, 0xFF).unwrap()), (0xC2, vec![0x37, 0xFF]));
    assert_eq!(
        parts(
            BK0Command2::color_control(
                &b,
                PWMPolarity::High,
                LEDPolarity::High,
                PixelPinout::Condensed,
                EndPixelFormat::One
            )
            .unwrap()
        ),
        (0xCD, vec![0x3D])
    );
}

#[test]
fn porch_control_from_mode() {
    let b = Command2Selection::BK0;
    let mode = Mode::tdo_mode();
    assert_eq!(parts(BK0Command2::porch_control(&b, &mode).unwrap()), (0xC1, vec![10, 16]));
    let mode = Mode::default_mode();
    assert_eq!(parts(BK0Command2::porch_control(&b, &mode).unwrap()), (0xC1, vec![4, 18]));
}

#[test]
fn rgb_control_from_mode() {
    let b = Command2Selection::BK0;
    let mode = Mode::tdo_mode();
    let c = BK0Command2::rgb_control(
        &b,
        DataEnable::HV,
        VsyncActive::High,
        HsyncActive::High,
        DataPolarity::Falling,
        EnablePolarity::High,
        &mode,
    )
    .unwrap();
    assert_eq!(parts(c), (0xC3, vec![0x8F, 18, 16]));
    let c = BK0Command2::rgb_control(
        &b,
        DataEnable::DE,
        VsyncActive::Low,
        HsyncActive::Low,
        DataPolarity::Rising,
        EnablePolarity::Low,
        &Mode::default_mode(),
    )
    .unwrap();
    assert_eq!(parts(c), (0xC3, vec![0x00, 12, 18]));
}

#[test]
fn sunlight_alpha_is_clamped() {
    let b = Command2Selection::BK0;
    let over = BK0Command2::configure_sunlight_ehancement(&b, SunlightReadable::Off, 0x1F).unwrap();
    assert_eq!(parts(over), (0xE2, vec![0x0F]));
    let within = BK0Command2::configure_sunlight_ehancement(&b, SunlightReadable::Off, 0x05).unwrap();
    assert_eq!(parts(within), (0xE2, vec![0x05]));
    let on = BK0Command2::configure_sunlight_ehancement(&b, SunlightReadable::On, 0x1F).unwrap();
    assert_eq!(parts(on), (0xE2, vec![0x1F]));
}

#[test]
fn bk1_commands() {
    let b = Command2Selection::BK1;
    assert_eq!(parts(BK1Command2::set_vop_amplitude(&b, 0x45).unwrap()), (0xB0, vec![0x45]));
    assert_eq!(parts(BK1Command2::set_vcom_amplitude(&b, 0x13).unwrap()), (0xB1, vec![0x13]));
    assert_eq!(parts(BK1Command2::set_vgh_voltage(&b, 0x07).unwrap()), (0xB2, vec![0x07]));
    assert_eq!(parts(BK1Command2::test_command_setting(&b).unwrap()), (0xB3, vec![0x80]));
    assert_eq!(parts(BK1Command2::set_vgl_voltage(&b, 0x07).unwrap()), (0xB5, vec![0x47]));
    assert_eq!(
        parts(
            BK1Command2::power_control_one(&b, GammaOPBias::Max, SourceOPInput::Max, SourceOPOutput::Max)
                .unwrap()
        ),
        (0xB7, vec![0xCF])
    );
    assert_eq!(
        parts(BK1Command2::power_control_two(&b, VoltageAVDD::Pos6_8, VoltageAVCL::Neg5_0).unwrap()),
        (0xB8, vec![0x33])
    );
    assert_eq!(parts(BK1Command2::set_pre_drive_timing_one(&b, 0x08).unwrap()), (0xC1, vec![0x78]));
    assert_eq!(parts(BK1Command2::set_pre_drive_timing_two(&b, 0x03).unwrap()), (0xC2, vec![0x73]));
}

#[test]
fn register_descriptors() {
    let d = CommandsGeneral::MADCTL.descriptor();
    assert_eq!(d.opcode, 0x36);
    assert_eq!(d.required_bank, None);
    let d = BK0Command2::SECTRL.descriptor();
    assert_eq!(d.opcode, 0xE2);
    assert_eq!(d.required_bank, Some(Command2Selection::BK0));
    let d = BK1Command2::VRHS.descriptor();
    assert_eq!(d.opcode, 0xB0);
    assert_eq!(d.required_bank, Some(Command2Selection::BK1));
    assert_eq!(CommandsGeneral::CND2BKxSEL.opcode(), 0xFF);
}

#[test]
fn panel_modes() {
    let m = Mode::cvt_mode();
    assert_eq!((m.htotal, m.vtotal, m.clock), (592, 497, 17000));
    let m = Mode::cvt_rb_mode();
    assert_eq!((m.hdisplay, m.htotal, m.vtotal), (640, 560, 501));
}

#[test]
fn pre_drive_timing_is_clamped() {
    let b = Command2Selection::BK1;
    assert_eq!(parts(BK1Command2::set_pre_drive_timing_one(&b, 0x10).unwrap()), (0xC1, vec![0x7F]));
    assert_eq!(parts(BK1Command2::set_pre_drive_timing_one(&b, 0x80).unwrap()), (0xC1, vec![0x7F]));
    assert_eq!(parts(BK1Command2::set_pre_drive_timing_one(&b, 0x0F).unwrap()), (0xC1, vec![0x7F]));
    assert_eq!(parts(BK1Command2::set_pre_drive_timing_two(&b, 0xFF).unwrap()), (0xC2, vec![0x7F]));
    assert_eq!(parts(BK1Command2::set_pre_drive_timing_two(&b, 0x05).unwrap()), (0xC2, vec![0x75]));
}

#[test]
fn rgb_control_ignores_the_vertical_back_porch() {
    let b = Command2Selection::BK0;
    let mut mode = Mode::tdo_mode();
    mode.vtotal = mode.vsync_end + 1000;
    let c = BK0Command2::rgb_control(
        &b,
        DataEnable::DE,
        VsyncActive::High,
        HsyncActive::Low,
        DataPolarity::Falling,
        EnablePolarity::Low,
        &mode,
    )
    .unwrap();
    assert_eq!(parts(c), (0xC3, vec![0x0A, 18, 16]));
}
