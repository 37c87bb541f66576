use vstd::prelude::*;

use crate::command::{Command, CommandModel};

verus! {

/// The Command2 bank selection: which extended register set, if any, the
/// shared opcode range currently addresses.
///
/// A value of this type is the caller's mirror of the chip's state. The chip
/// cannot be read back, so the mirror stays correct only when every bank
/// switch command that is built is also sent, and the mirror is updated right
/// after the switch is sent.
#[derive(Clone, Copy, Debug, PartialEq, Eq, Structural)]
pub enum Command2Selection {
    /// Command2 off: only the general command set is addressed.
    Disabled,
    /// Bank 0 of Command2.
    BK0,
    /// Bank 1 of Command2.
    BK1,
}

impl Command2Selection {
    pub open spec fn spec_bits(self) -> u8 {
        match self {
            Command2Selection::Disabled => 0x00,
            Command2Selection::BK0 => 0x10,
            Command2Selection::BK1 => 0x11,
        }
    }

    /// The selector byte that the bank switch command carries for this bank.
    #[verifier::when_used_as_spec(spec_bits)]
    pub fn bits(self) -> (r: u8)
        ensures
            r == self.spec_bits(),
    {
        match self {
            Command2Selection::Disabled => 0x00,
            Command2Selection::BK0 => 0x10,
            Command2Selection::BK1 => 0x11,
        }
    }
}

/// Why a command was not built.
#[derive(Clone, Copy, Debug, PartialEq, Eq, Structural)]
pub enum GuardError {
    /// The register belongs to a Command2 bank other than the selected one.
    WrongBank,
}

/// Whether a register that needs `required` may be built while `current` is
/// selected: general registers (`None`) always, banked ones only in their own
/// bank.
pub open spec fn permitted(
    current: Command2Selection,
    required: Option<Command2Selection>,
) -> bool {
    match required {
        None => true,
        Some(bank) => bank == current,
    }
}

/// What `validate` returns: the builder's command where the bank permits it,
/// `WrongBank` otherwise.
pub open spec fn validated<F: Fn() -> Command>(
    current: Command2Selection,
    required: Option<Command2Selection>,
    build_command: F,
    r: Result<Command, GuardError>,
) -> bool {
    if permitted(current, required) {
        r is Ok && build_command.ensures((), r->Ok_0)
    } else {
        r == Err::<Command, GuardError>(GuardError::WrongBank)
    }
}

/// A command that was built, with the given model.
pub open spec fn built(r: Result<Command, GuardError>, expected: CommandModel) -> bool {
    r is Ok && r->Ok_0@ == expected
}

/// The outcome of building a register of bank `required` while `current` is
/// selected: the expected command in that bank, `WrongBank` in any other.
pub open spec fn guarded(
    current: Command2Selection,
    required: Command2Selection,
    r: Result<Command, GuardError>,
    expected: CommandModel,
) -> bool {
    if current == required {
        built(r, expected)
    } else {
        r == Err::<Command, GuardError>(GuardError::WrongBank)
    }
}

/// Two outcomes that carry equal commands, or the same error.
pub open spec fn same_outcome(
    a: Result<Command, GuardError>,
    b: Result<Command, GuardError>,
) -> bool {
    match (a, b) {
        (Ok(x), Ok(y)) => x@ == y@,
        (Err(x), Err(y)) => x == y,
        _ => false,
    }
}

/// A builder that, called twice, gives equal commands.
pub open spec fn deterministic<F: Fn() -> Command>(build_command: F) -> bool {
    forall|x: Command, y: Command|
        build_command.ensures((), x) && build_command.ensures((), y) ==> x@ == y@
}

/// The bank guard. Calls `build_command` and returns its command when a
/// register that needs `required` may be built in `current`; otherwise returns
/// `WrongBank` without calling it. It does not change the selection.
pub fn validate<F: Fn() -> Command>(
    current: &Command2Selection,
    required: Option<Command2Selection>,
    build_command: F,
) -> (r: Result<Command, GuardError>)
    requires
        build_command.requires(()),
    ensures
        validated(*current, required, build_command, r),
{
    let allowed = match required {
        None => true,
        Some(bank) => bank == *current,
    };
    if allowed {
        Ok(build_command())
    } else {
        Err(GuardError::WrongBank)
    }
}

/// The mirrored selection once a bank switch to `target` has been sent.
/// Every transition is allowed, and each lands exactly on its target.
pub open spec fn after_switch(
    current: Command2Selection,
    target: Command2Selection,
) -> Command2Selection {
    target
}

/// Records in the mirror that a bank switch to `target` has been sent.
pub fn confirm_switch(current: &mut Command2Selection, target: Command2Selection)
    ensures
        *final(current) == after_switch(*old(current), target),
{
    *current = target;
}

/// A general register may be built whatever bank is selected; a banked one
/// exactly when its own bank is selected.
pub proof fn lemma_permitted(current: Command2Selection, bank: Command2Selection)
    ensures
        permitted(current, None),
        permitted(current, Some(bank)) <==> current == bank,
{
}

/// Validating twice with the same selection and a builder without side
/// effects gives the same outcome both times.
pub proof fn lemma_validate_idempotent<F: Fn() -> Command>(
    current: Command2Selection,
    required: Option<Command2Selection>,
    build_command: F,
    first: Result<Command, GuardError>,
    second: Result<Command, GuardError>,
)
    requires
        deterministic(build_command),
        validated(current, required, build_command, first),
        validated(current, required, build_command, second),
    ensures
        same_outcome(first, second),
{
}

/// Starting with Command2 off and switching to `bank`, a register of that
/// bank is built; switching Command2 off again, the same register is refused
/// with `WrongBank`.
pub proof fn lemma_bank_round_trip(
    bank: Command2Selection,
    expected: CommandModel,
    first: Result<Command, GuardError>,
    second: Result<Command, GuardError>,
)
    requires
        bank != Command2Selection::Disabled,
        guarded(after_switch(Command2Selection::Disabled, bank), bank, first, expected),
        guarded(
            after_switch(
                after_switch(Command2Selection::Disabled, bank),
                Command2Selection::Disabled,
            ),
            bank,
            second,
            expected,
        ),
    ensures
        built(first, expected),
        second == Err::<Command, GuardError>(GuardError::WrongBank),
{
}

} // verus!
