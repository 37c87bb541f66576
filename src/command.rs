use vstd::prelude::*;

verus! {

/// The mathematical value of a command: its opcode and its ordered parameter
/// bytes.
pub ghost struct CommandModel {
    pub address: u8,
    pub parameters: Seq<u8>,
}

/// A register command: one opcode followed by parameter bytes, sent in order.
///
/// On the 3-wire bus each byte travels with a D/CX control bit: low for the
/// opcode (the address phase), high for each parameter (the data phase).
#[derive(Clone, Debug)]
pub struct Command {
    pub address: u8,
    pub parameters: Vec<u8>,
}

impl View for Command {
    type V = CommandModel;

    open spec fn view(&self) -> CommandModel {
        CommandModel { address: self.address, parameters: self.parameters@ }
    }
}

/// Commands are equal when their opcodes and parameter sequences are.
impl PartialEq for Command {
    fn eq(&self, other: &Command) -> (r: bool) {
        if self.address != other.address || self.parameters.len() != other.parameters.len() {
            return false;
        }
        let mut i: usize = 0;
        while i < self.parameters.len()
            invariant
                i <= self.parameters@.len(),
                self.parameters@.len() == other.parameters@.len(),
                forall|j: int| 0 <= j < i ==> self.parameters@[j] == other.parameters@[j],
            decreases self.parameters@.len() - i,
        {
            if self.parameters[i] != other.parameters[i] {
                return false;
            }
            i = i + 1;
        }
        assert(self.parameters@ =~= other.parameters@);
        true
    }
}

impl vstd::std_specs::cmp::PartialEqSpecImpl for Command {
    open spec fn obeys_eq_spec() -> bool {
        true
    }

    open spec fn eq_spec(&self, other: &Command) -> bool {
        self@ == other@
    }
}

/// The model of a command with the given opcode and parameters.
pub open spec fn command_model(address: u8, parameters: Seq<u8>) -> CommandModel {
    CommandModel { address, parameters }
}

/// The bus words of a command: the opcode with control byte 0x00 (address
/// phase), then each parameter, in order, with control byte 0x01 (data phase).
pub open spec fn words_of(c: CommandModel) -> Seq<Seq<u8>> {
    seq![seq![c.address, 0x00u8]] + c.parameters.map_values(|p: u8| seq![p, 0x01u8])
}

/// The contents of a sequence of two-byte words.
pub open spec fn word_values(words: Seq<[u8; 2]>) -> Seq<Seq<u8>> {
    words.map_values(|w: [u8; 2]| w@)
}

impl Command {
    /// A command with the given opcode and no parameters.
    pub fn new(address: u8) -> (r: Command)
        ensures
            r@ == command_model(address, seq![]),
    {
        Command { address, parameters: Vec::new() }
    }

    /// Appends one parameter byte after those already present.
    pub fn arg(self, arg: u8) -> (r: Command)
        ensures
            r@ == command_model(self.address, self.parameters@.push(arg)),
    {
        let mut c = self;
        c.parameters.push(arg);
        c
    }

    /// Appends the given parameter bytes, in order, after those already present.
    pub fn args(self, args: &[u8]) -> (r: Command)
        ensures
            r@ == command_model(self.address, self.parameters@ + args@),
    {
        let mut c = self;
        let mut i: usize = 0;
        while i < args.len()
            invariant
                i <= args@.len(),
                c.address == self.address,
                c.parameters@ == self.parameters@ + args@.subrange(0, i as int),
            decreases args@.len() - i,
        {
            c.parameters.push(args[i]);
            i = i + 1;
        }
        assert(args@.subrange(0, args@.len() as int) =~= args@);
        c
    }

    /// The address-phase word: the opcode with the control byte low.
    pub fn serialize_address(&self) -> (r: [u8; 2])
        ensures
            r@ == seq![self.address, 0x00u8],
    {
        [self.address, 0x00]
    }

    /// The data-phase word for one parameter byte: the byte with the control
    /// byte high.
    pub fn serialize_parameter(parameter: u8) -> (r: [u8; 2])
        ensures
            r@ == seq![parameter, 0x01u8],
    {
        [parameter, 0x01]
    }

    /// Every bus word of the command, in the order the chip expects them.
    pub fn to_words(&self) -> (r: Vec<[u8; 2]>)
        ensures
            word_values(r@) == words_of(self@),
    {
        let mut words: Vec<[u8; 2]> = Vec::new();
        words.push(self.serialize_address());
        let mut i: usize = 0;
        while i < self.parameters.len()
            invariant
                i <= self.parameters@.len(),
                word_values(words@) == seq![seq![self.address, 0x00u8]]
                    + self.parameters@.subrange(0, i as int).map_values(|p: u8| seq![p, 0x01u8]),
            decreases self.parameters@.len() - i,
        {
            let w = Command::serialize_parameter(self.parameters[i]);
            proof {
                let before = words@;
                let data = |p: u8| seq![p, 0x01u8];
                assert(word_values(before.push(w)) =~= word_values(before).push(w@));
                assert(self.parameters@.subrange(0, i + 1).map_values(data)
                    =~= self.parameters@.subrange(0, i as int).map_values(data).push(
                    seq![self.parameters@[i as int], 0x01u8],
                ));
            }
            words.push(w);
            i = i + 1;
        }
        assert(self.parameters@.subrange(0, self.parameters@.len() as int) =~= self.parameters@);
        words
    }
}

} // verus!
