use std::cell::Cell;

use st7701s::fields::{
    GammaOPBias, SourceOPInput, SourceOPOutput, SunlightReadable, VoltageAVCL, VoltageAVDD,
};
use st7701s::{
    confirm_switch, validate, BK0Command2, BK1Command2, Command, Command2Selection,
    CommandsGeneral, GuardError,
};

const ALL_BANKS: [Command2Selection; 3] =
    [Command2Selection::Disabled, Command2Selection::BK0, Command2Selection::BK1];

fn sample() -> Command {
    Command { address: 0x36, parameters: vec![0x10] }
}

#[test]
fn general_register_validates_in_every_bank() {
    for bank in ALL_BANKS {
        let calls = Cell::new(0u32);
        let r = validate(&bank, None, || {
            calls.set(calls.get() + 1);
            sample()
        });
        let c = r.expect("general registers are always built");
        assert_eq!(c.address, 0x36);
        assert_eq!(c.parameters, vec![0x10]);
        assert_eq!(calls.get(), 1);
    }
}

#[test]
fn general_builders_succeed_in_every_bank() {
    for _bank in ALL_BANKS {
        let c = CommandsGeneral::display_on().unwrap();
        assert_eq!(c.address, 0x29);
        assert!(c.parameters.is_empty());
    }
}

#[test]
fn banked_register_validates_only_in_its_bank() {
    for required in [Command2Selection::BK0, Command2Selection::BK1] {
        for current in ALL_BANKS {
            let calls = Cell::new(0u32);
            let r = validate(&current, Some(required), || {
                calls.set(calls.get() + 1);
                sample()
            });
            if current == required {
                assert_eq!(r.unwrap().parameters, vec![0x10]);
                assert_eq!(calls.get(), 1);
            } else {
                assert_eq!(r.unwrap_err(), GuardError::WrongBank);
                assert_eq!(calls.get(), 0);
            }
        }
    }
}

#[test]
fn bank_validators_do_not_build_on_mismatch() {
    let calls = Cell::new(0u32);
    let build = || {
        calls.set(calls.get() + 1);
        sample()
    };
    assert_eq!(
        BK0Command2::validate(&Command2Selection::BK1, build).unwrap_err(),
        GuardError::WrongBank
    );
    assert_eq!(
        BK1Command2::validate(&Command2Selection::Disabled, build).unwrap_err(),
        GuardError::WrongBank
    );
    assert_eq!(calls.get(), 0);
    assert!(BK0Command2::validate(&Command2Selection::BK0, build).is_ok());
    assert!(BK1Command2::validate(&Command2Selection::BK1, build).is_ok());
    assert_eq!(calls.get(), 2);
}

#[test]
fn bk0_builders_refuse_other_banks() {
    for bank in [Command2Selection::Disabled, Command2Selection::BK1] {
        assert_eq!(
            BK0Command2::positive_gamma_control(&bank, &[1, 2, 3]).unwrap_err(),
            GuardError::WrongBank
        );
        assert_eq!(
            BK0Command2::configure_sunlight_ehancement(&bank, SunlightReadable::On, 3)
                .unwrap_err(),
            GuardError::WrongBank
        );
    }
}

#[test]
fn bk1_builders_refuse_other_banks() {
    for bank in [Command2Selection::Disabled, Command2Selection::BK0] {
        assert_eq!(BK1Command2::set_vop_amplitude(&bank, 0x45).unwrap_err(), GuardError::WrongBank);
        assert_eq!(
            BK1Command2::power_control_one(
                &bank,
                GammaOPBias::Middle,
                SourceOPInput::Min,
                SourceOPOutput::Off
            )
            .unwrap_err(),
            GuardError::WrongBank
        );
        assert_eq!(
            BK1Command2::power_control_two(&bank, VoltageAVDD::Pos6_6, VoltageAVCL::Neg4_4)
                .unwrap_err(),
            GuardError::WrongBank
        );
    }
}

#[test]
fn bank_switch_round_trip() {
    let mut cmd2 = Command2Selection::Disabled;
    let switch = CommandsGeneral::set_command_2(Command2Selection::BK0).unwrap();
    assert_eq!(switch.address, 0xFF);
    assert_eq!(switch.parameters, vec![0x77, 0x01, 0x00, 0x00, 0x10]);
    confirm_switch(&mut cmd2, Command2Selection::BK0);
    assert_eq!(cmd2, Command2Selection::BK0);

    let c = BK0Command2::positive_gamma_control(&cmd2, &[0x02, 0x13]).unwrap();
    assert_eq!(c.address, 0xB0);
    assert_eq!(c.parameters, vec![0x02, 0x13]);

    let off = CommandsGeneral::set_command_2(Command2Selection::Disabled).unwrap();
    assert_eq!(off.parameters, vec![0x77, 0x01, 0x00, 0x00, 0x00]);
    confirm_switch(&mut cmd2, Command2Selection::Disabled);
    assert_eq!(
        BK0Command2::positive_gamma_control(&cmd2, &[0x02, 0x13]).unwrap_err(),
        GuardError::WrongBank
    );
}

#[test]
fn validate_twice_gives_identical_commands() {
    let build = || Command { address: 0xC0, parameters: vec![0x3B, 0x00] };
    for bank in ALL_BANKS {
        let a = validate(&bank, Some(Command2Selection::BK0), build);
        let b = validate(&bank, Some(Command2Selection::BK0), build);
        assert_eq!(a, b);
        if bank == Command2Selection::BK0 {
            assert_eq!(a.unwrap(), Command { address: 0xC0, parameters: vec![0x3B, 0x00] });
        }
    }
}

#[test]
fn set_command_2_selectors() {
    let bk1 = CommandsGeneral::set_command_2(Command2Selection::BK1).unwrap();
    assert_eq!(bk1.address, 0xFF);
    assert_eq!(bk1.parameters, vec![0x77, 0x01, 0x00, 0x00, 0x11]);
    assert_eq!(Command2Selection::BK0.bits(), 0x10);
}
