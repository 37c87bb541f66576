use vstd::prelude::*;

verus! {

/// Bitwise OR of the given field patterns, folded in order from zero.
pub open spec fn combined(fields: Seq<u8>) -> u8
    decreases fields.len(),
{
    if fields.len() == 0 {
        0
    } else {
        combined(fields.drop_last()) | fields.last()
    }
}

/// Sum of the given bytes as an integer.
pub open spec fn byte_sum(fields: Seq<u8>) -> int
    decreases fields.len(),
{
    if fields.len() == 0 {
        0
    } else {
        byte_sum(fields.drop_last()) + fields.last()
    }
}

/// No two of the given field patterns share a set bit.
pub open spec fn pairwise_disjoint(fields: Seq<u8>) -> bool {
    forall|i: int, j: int|
        0 <= i < fields.len() && 0 <= j < fields.len() && i != j ==> #[trigger] fields[i]
            & #[trigger] fields[j] == 0
}

/// A numeric field value limited to its largest representable value.
pub open spec fn clamped(value: u8, max: u8) -> u8 {
    if value > max {
        max
    } else {
        value
    }
}

/// Packs several field patterns into one parameter byte by folding them with
/// bitwise OR, in the order given.
pub fn combine(fields: &[u8]) -> (r: u8)
    ensures
        r == combined(fields@),
{
    let mut acc: u8 = 0;
    let mut i: usize = 0;
    while i < fields.len()
        invariant
            i <= fields@.len(),
            acc == combined(fields@.subrange(0, i as int)),
        decreases fields@.len() - i,
    {
        proof {
            let next = fields@.subrange(0, i + 1);
            assert(next.drop_last() =~= fields@.subrange(0, i as int));
        }
        acc = acc | fields[i];
        i = i + 1;
    }
    assert(fields@.subrange(0, fields@.len() as int) =~= fields@);
    acc
}

/// Limits a numeric field to `max`: a larger value becomes `max`, any other is
/// kept. Over-range values are tolerated by the chip, so this is no error.
pub fn clamp_field(value: u8, max: u8) -> (r: u8)
    ensures
        r == clamped(value, max),
{
    if value > max {
        max
    } else {
        value
    }
}

/// A byte that shares no bit with any of the given fields shares none with
/// their combination.
proof fn lemma_combined_disjoint_from(fields: Seq<u8>, other: u8)
    requires
        forall|i: int| 0 <= i < fields.len() ==> #[trigger] fields[i] & other == 0,
    ensures
        combined(fields) & other == 0,
    decreases fields.len(),
{
    if fields.len() > 0 {
        let rest = fields.drop_last();
        assert forall|i: int| 0 <= i < rest.len() implies #[trigger] rest[i] & other == 0 by {
            assert(rest[i] == fields[i]);
        }
        lemma_combined_disjoint_from(rest, other);
        let x = combined(rest);
        let y = fields.last();
        assert(x & other == 0 && y & other == 0 ==> (x | y) & other == 0) by (bit_vector);
    } else {
        assert(0u8 & other == 0) by (bit_vector);
    }
}

/// Combining fields whose bit patterns are pairwise disjoint loses no
/// information: the combined byte equals the sum of the fields, and each
/// field's bits can be read back from it unchanged.
pub proof fn lemma_combine_disjoint_is_lossless(fields: Seq<u8>)
    requires
        pairwise_disjoint(fields),
    ensures
        combined(fields) as int == byte_sum(fields),
        forall|i: int| 0 <= i < fields.len() ==> combined(fields) & #[trigger] fields[i] == fields[i],
    decreases fields.len(),
{
    if fields.len() > 0 {
        let rest = fields.drop_last();
        let y = fields.last();
        assert(pairwise_disjoint(rest)) by {
            assert forall|i: int, j: int|
                0 <= i < rest.len() && 0 <= j < rest.len() && i != j implies #[trigger] rest[i]
                & #[trigger] rest[j] == 0 by {
                assert(rest[i] == fields[i] && rest[j] == fields[j]);
            }
        }
        lemma_combine_disjoint_is_lossless(rest);
        assert forall|i: int| 0 <= i < rest.len() implies #[trigger] rest[i] & y == 0 by {
            assert(rest[i] == fields[i] && y == fields[fields.len() - 1]);
        }
        lemma_combined_disjoint_from(rest, y);
        let x = combined(rest);
        assert(x & y == 0 ==> (x as u16) + (y as u16) == ((x | y) as u16)) by (bit_vector);
        assert forall|i: int| 0 <= i < fields.len() implies combined(fields) & #[trigger] fields[i]
            == fields[i] by {
            let f = fields[i];
            if i < rest.len() {
                assert(rest[i] == f);
                assert(x & f == f ==> (x | y) & f == f) by (bit_vector);
            } else {
                assert((x | y) & y == y) by (bit_vector);
            }
        }
    }
}

/// The bit pattern lies inside the bit range `range`.
pub open spec fn within(bits: u8, range: u8) -> bool {
    bits & !range == 0
}

proof fn lemma_disjoint_ranges(a: u8, range_a: u8, b: u8, range_b: u8)
    requires
        within(a, range_a),
        within(b, range_b),
        range_a & range_b == 0,
    ensures
        a & b == 0,
{
    assert(a & !range_a == 0 && b & !range_b == 0 && range_a & range_b == 0 ==> a & b == 0)
        by (bit_vector);
}

/// The fields that share a parameter byte occupy disjoint bit ranges, for
/// every register that packs several fields into one byte: combining them
/// with bitwise OR loses nothing (see `lemma_combine_disjoint_is_lossless`).
/// Fixed bits that a register sets beside a field are disjoint from it too.
pub proof fn lemma_register_fields_disjoint()
    ensures
        forall|x: ScanDirection, y: ColorOrder|
            #[trigger] x.spec_bits() & #[trigger] y.spec_bits() == 0,
        forall|x: BrightnessControl, y: DisplayDimming|
            #[trigger] x.spec_bits() & #[trigger] y.spec_bits() == 0,
        forall|x: BrightnessControl, y: Backlight|
            #[trigger] x.spec_bits() & #[trigger] y.spec_bits() == 0,
        forall|x: DisplayDimming, y: Backlight|
            #[trigger] x.spec_bits() & #[trigger] y.spec_bits() == 0,
        forall|x: Enhancement, y: EnhancementMode|
            #[trigger] x.spec_bits() & #[trigger] y.spec_bits() == 0,
        forall|x: Enhancement, y: AdaptiveBrightness|
            #[trigger] x.spec_bits() & #[trigger] y.spec_bits() == 0,
        forall|x: EnhancementMode, y: AdaptiveBrightness|
            #[trigger] x.spec_bits() & #[trigger] y.spec_bits() == 0,
        forall|x: DataEnable, y: VsyncActive|
            #[trigger] x.spec_bits() & #[trigger] y.spec_bits() == 0,
        forall|x: DataEnable, y: HsyncActive|
            #[trigger] x.spec_bits() & #[trigger] y.spec_bits() == 0,
        forall|x: DataEnable, y: DataPolarity|
            #[trigger] x.spec_bits() & #[trigger] y.spec_bits() == 0,
        forall|x: DataEnable, y: EnablePolarity|
            #[trigger] x.spec_bits() & #[trigger] y.spec_bits() == 0,
        forall|x: VsyncActive, y: HsyncActive|
            #[trigger] x.spec_bits() & #[trigger] y.spec_bits() == 0,
        forall|x: VsyncActive, y: DataPolarity|
            #[trigger] x.spec_bits() & #[trigger] y.spec_bits() == 0,
        forall|x: VsyncActive, y: EnablePolarity|
            #[trigger] x.spec_bits() & #[trigger] y.spec_bits() == 0,
        forall|x: HsyncActive, y: DataPolarity|
            #[trigger] x.spec_bits() & #[trigger] y.spec_bits() == 0,
        forall|x: HsyncActive, y: EnablePolarity|
            #[trigger] x.spec_bits() & #[trigger] y.spec_bits() == 0,
        forall|x: DataPolarity, y: EnablePolarity|
            #[trigger] x.spec_bits() & #[trigger] y.spec_bits() == 0,
        forall|x: PWMPolarity, y: LEDPolarity|
            #[trigger] x.spec_bits() & #[trigger] y.spec_bits() == 0,
        forall|x: PWMPolarity, y: PixelPinout|
            #[trigger] x.spec_bits() & #[trigger] y.spec_bits() == 0,
        forall|x: PWMPolarity, y: EndPixelFormat|
            #[trigger] x.spec_bits() & #[trigger] y.spec_bits() == 0,
        forall|x: LEDPolarity, y: PixelPinout|
            #[trigger] x.spec_bits() & #[trigger] y.spec_bits() == 0,
        forall|x: LEDPolarity, y: EndPixelFormat|
            #[trigger] x.spec_bits() & #[trigger] y.spec_bits() == 0,
        forall|x: PixelPinout, y: EndPixelFormat|
            #[trigger] x.spec_bits() & #[trigger] y.spec_bits() == 0,
        forall|x: GammaOPBias, y: SourceOPInput|
            #[trigger] x.spec_bits() & #[trigger] y.spec_bits() == 0,
        forall|x: GammaOPBias, y: SourceOPOutput|
            #[trigger] x.spec_bits() & #[trigger] y.spec_bits() == 0,
        forall|x: SourceOPInput, y: SourceOPOutput|
            #[trigger] x.spec_bits() & #[trigger] y.spec_bits() == 0,
        forall|x: VoltageAVDD, y: VoltageAVCL|
            #[trigger] x.spec_bits() & #[trigger] y.spec_bits() == 0,
        forall|x: Inversion| 0x30u8 & #[trigger] x.spec_bits() == 0,
        forall|t: u8| 0x70u8 & #[trigger] clamped(t, 0x0F) == 0,
        forall|x: SunlightReadable, alpha: u8|
            #[trigger] x.spec_bits() & #[trigger] clamped(alpha, 0x0F) == 0,
{
    assert(0x00u8 & !0x01u8 == 0
        && 0x00u8 & !0x02u8 == 0
        && 0x00u8 & !0x03u8 == 0
        && 0x00u8 & !0x04u8 == 0
        && 0x00u8 & !0x07u8 == 0
        && 0x00u8 & !0x08u8 == 0
        && 0x00u8 & !0x0Cu8 == 0
        && 0x00u8 & !0x10u8 == 0
        && 0x00u8 & !0x20u8 == 0
        && 0x00u8 & !0x30u8 == 0
        && 0x00u8 & !0x80u8 == 0
        && 0x00u8 & !0xC0u8 == 0
        && 0x01u8 & !0x01u8 == 0
        && 0x01u8 & !0x03u8 == 0
        && 0x01u8 & !0x07u8 == 0
        && 0x02u8 & !0x02u8 == 0
        && 0x02u8 & !0x03u8 == 0
        && 0x02u8 & !0x07u8 == 0
        && 0x02u8 & 0x01u8 == 0
        && 0x03u8 & !0x03u8 == 0
        && 0x04u8 & !0x04u8 == 0
        && 0x04u8 & !0x07u8 == 0
        && 0x04u8 & !0x0Cu8 == 0
        && 0x04u8 & 0x01u8 == 0
        && 0x04u8 & 0x02u8 == 0
        && 0x05u8 & !0x07u8 == 0
        && 0x07u8 & !0x07u8 == 0
        && 0x08u8 & !0x08u8 == 0
        && 0x08u8 & !0x0Cu8 == 0
        && 0x08u8 & 0x01u8 == 0
        && 0x08u8 & 0x02u8 == 0
        && 0x08u8 & 0x04u8 == 0
        && 0x08u8 & 0x07u8 == 0
        && 0x0Cu8 & !0x0Cu8 == 0
        && 0x0Cu8 & 0x03u8 == 0
        && 0x10u8 & !0x10u8 == 0
        && 0x10u8 & !0x30u8 == 0
        && 0x10u8 & 0x07u8 == 0
        && 0x10u8 & 0x08u8 == 0
        && 0x10u8 & 0x0Fu8 == 0
        && 0x20u8 & !0x20u8 == 0
        && 0x20u8 & !0x30u8 == 0
        && 0x20u8 & 0x04u8 == 0
        && 0x20u8 & 0x07u8 == 0
        && 0x20u8 & 0x08u8 == 0
        && 0x20u8 & 0x10u8 == 0
        && 0x30u8 & !0x30u8 == 0
        && 0x30u8 & 0x03u8 == 0
        && 0x30u8 & 0x07u8 == 0
        && 0x40u8 & !0xC0u8 == 0
        && 0x80u8 & !0x80u8 == 0
        && 0x80u8 & !0xC0u8 == 0
        && 0x80u8 & 0x01u8 == 0
        && 0x80u8 & 0x02u8 == 0
        && 0x80u8 & 0x03u8 == 0
        && 0x80u8 & 0x04u8 == 0
        && 0x80u8 & 0x08u8 == 0
        && 0x80u8 & 0x30u8 == 0
        && 0xC0u8 & !0xC0u8 == 0
        && 0xC0u8 & 0x03u8 == 0
        && 0xC0u8 & 0x0Cu8 == 0) by (bit_vector);
    assert forall|x: ScanDirection, y: ColorOrder|
        #[trigger] x.spec_bits() & #[trigger] y.spec_bits() == 0 by {
        lemma_disjoint_ranges(x.spec_bits(), 0x10, y.spec_bits(), 0x08);
    }
    assert forall|x: BrightnessControl, y: DisplayDimming|
        #[trigger] x.spec_bits() & #[trigger] y.spec_bits() == 0 by {
        lemma_disjoint_ranges(x.spec_bits(), 0x20, y.spec_bits(), 0x08);
    }
    assert forall|x: BrightnessControl, y: Backlight|
        #[trigger] x.spec_bits() & #[trigger] y.spec_bits() == 0 by {
        lemma_disjoint_ranges(x.spec_bits(), 0x20, y.spec_bits(), 0x04);
    }
    assert forall|x: DisplayDimming, y: Backlight|
        #[trigger] x.spec_bits() & #[trigger] y.spec_bits() == 0 by {
        lemma_disjoint_ranges(x.spec_bits(), 0x08, y.spec_bits(), 0x04);
    }
    assert forall|x: Enhancement, y: EnhancementMode|
        #[trigger] x.spec_bits() & #[trigger] y.spec_bits() == 0 by {
        lemma_disjoint_ranges(x.spec_bits(), 0x80, y.spec_bits(), 0x30);
    }
    assert forall|x: Enhancement, y: AdaptiveBrightness|
        #[trigger] x.spec_bits() & #[trigger] y.spec_bits() == 0 by {
        lemma_disjoint_ranges(x.spec_bits(), 0x80, y.spec_bits(), 0x03);
    }
    assert forall|x: EnhancementMode, y: AdaptiveBrightness|
        #[trigger] x.spec_bits() & #[trigger] y.spec_bits() == 0 by {
        lemma_disjoint_ranges(x.spec_bits(), 0x30, y.spec_bits(), 0x03);
    }
    assert forall|x: DataEnable, y: VsyncActive|
        #[trigger] x.spec_bits() & #[trigger] y.spec_bits() == 0 by {
        lemma_disjoint_ranges(x.spec_bits(), 0x80, y.spec_bits(), 0x08);
    }
    assert forall|x: DataEnable, y: HsyncActive|
        #[trigger] x.spec_bits() & #[trigger] y.spec_bits() == 0 by {
        lemma_disjoint_ranges(x.spec_bits(), 0x80, y.spec_bits(), 0x04);
    }
    assert forall|x: DataEnable, y: DataPolarity|
        #[trigger] x.spec_bits() & #[trigger] y.spec_bits() == 0 by {
        lemma_disjoint_ranges(x.spec_bits(), 0x80, y.spec_bits(), 0x02);
    }
    assert forall|x: DataEnable, y: EnablePolarity|
        #[trigger] x.spec_bits() & #[trigger] y.spec_bits() == 0 by {
        lemma_disjoint_ranges(x.spec_bits(), 0x80, y.spec_bits(), 0x01);
    }
    assert forall|x: VsyncActive, y: HsyncActive|
        #[trigger] x.spec_bits() & #[trigger] y.spec_bits() == 0 by {
        lemma_disjoint_ranges(x.spec_bits(), 0x08, y.spec_bits(), 0x04);
    }
    assert forall|x: VsyncActive, y: DataPolarity|
        #[trigger] x.spec_bits() & #[trigger] y.spec_bits() == 0 by {
        lemma_disjoint_ranges(x.spec_bits(), 0x08, y.spec_bits(), 0x02);
    }
    assert forall|x: VsyncActive, y: EnablePolarity|
        #[trigger] x.spec_bits() & #[trigger] y.spec_bits() == 0 by {
        lemma_disjoint_ranges(x.spec_bits(), 0x08, y.spec_bits(), 0x01);
    }
    assert forall|x: HsyncActive, y: DataPolarity|
        #[trigger] x.spec_bits() & #[trigger] y.spec_bits() == 0 by {
        lemma_disjoint_ranges(x.spec_bits(), 0x04, y.spec_bits(), 0x02);
    }
    assert forall|x: HsyncActive, y: EnablePolarity|
        #[trigger] x.spec_bits() & #[trigger] y.spec_bits() == 0 by {
        lemma_disjoint_ranges(x.spec_bits(), 0x04, y.spec_bits(), 0x01);
    }
    assert forall|x: DataPolarity, y: EnablePolarity|
        #[trigger] x.spec_bits() & #[trigger] y.spec_bits() == 0 by {
        lemma_disjoint_ranges(x.spec_bits(), 0x02, y.spec_bits(), 0x01);
    }
    assert forall|x: PWMPolarity, y: LEDPolarity|
        #[trigger] x.spec_bits() & #[trigger] y.spec_bits() == 0 by {
        lemma_disjoint_ranges(x.spec_bits(), 0x20, y.spec_bits(), 0x10);
    }
    assert forall|x: PWMPolarity, y: PixelPinout|
        #[trigger] x.spec_bits() & #[trigger] y.spec_bits() == 0 by {
        lemma_disjoint_ranges(x.spec_bits(), 0x20, y.spec_bits(), 0x08);
    }
    assert forall|x: PWMPolarity, y: EndPixelFormat|
        #[trigger] x.spec_bits() & #[trigger] y.spec_bits() == 0 by {
        lemma_disjoint_ranges(x.spec_bits(), 0x20, y.spec_bits(), 0x07);
    }
    assert forall|x: LEDPolarity, y: PixelPinout|
        #[trigger] x.spec_bits() & #[trigger] y.spec_bits() == 0 by {
        lemma_disjoint_ranges(x.spec_bits(), 0x10, y.spec_bits(), 0x08);
    }
    assert forall|x: LEDPolarity, y: EndPixelFormat|
        #[trigger] x.spec_bits() & #[trigger] y.spec_bits() == 0 by {
        lemma_disjoint_ranges(x.spec_bits(), 0x10, y.spec_bits(), 0x07);
    }
    assert forall|x: PixelPinout, y: EndPixelFormat|
        #[trigger] x.spec_bits() & #[trigger] y.spec_bits() == 0 by {
        lemma_disjoint_ranges(x.spec_bits(), 0x08, y.spec_bits(), 0x07);
    }
    assert forall|x: GammaOPBias, y: SourceOPInput|
        #[trigger] x.spec_bits() & #[trigger] y.spec_bits() == 0 by {
        lemma_disjoint_ranges(x.spec_bits(), 0xC0, y.spec_bits(), 0x0C);
    }
    assert forall|x: GammaOPBias, y: SourceOPOutput|
        #[trigger] x.spec_bits() & #[trigger] y.spec_bits() == 0 by {
        lemma_disjoint_ranges(x.spec_bits(), 0xC0, y.spec_bits(), 0x03);
    }
    assert forall|x: SourceOPInput, y: SourceOPOutput|
        #[trigger] x.spec_bits() & #[trigger] y.spec_bits() == 0 by {
        lemma_disjoint_ranges(x.spec_bits(), 0x0C, y.spec_bits(), 0x03);
    }
    assert forall|x: VoltageAVDD, y: VoltageAVCL|
        #[trigger] x.spec_bits() & #[trigger] y.spec_bits() == 0 by {
        lemma_disjoint_ranges(x.spec_bits(), 0x30, y.spec_bits(), 0x03);
    }
    assert forall|x: Inversion| 0x30u8 & #[trigger] x.spec_bits() == 0 by {
        lemma_disjoint_ranges(0x30, 0x30, x.spec_bits(), 0x07);
    }
    assert forall|t: u8| 0x70u8 & #[trigger] clamped(t, 0x0F) == 0 by {
        let a = clamped(t, 0x0F);
        assert(a <= 0x0F ==> 0x70u8 & a == 0) by (bit_vector);
    }
    assert forall|x: SunlightReadable, alpha: u8|
        #[trigger] x.spec_bits() & #[trigger] clamped(alpha, 0x0F) == 0 by {
        let a = clamped(alpha, 0x0F);
        assert(a <= 0x0F ==> a & !0x0Fu8 == 0) by (bit_vector);
        lemma_disjoint_ranges(x.spec_bits(), 0x10, a, 0x0F);
    }
}

/// Predefined gamma curve selection (GAMSET).
#[derive(Clone, Copy, Debug, PartialEq, Eq, Structural)]
pub enum GammaCurve {
    /// Gamma curve 1 (G=2.2)
    One,
    /// Reserved
    Two,
    /// Reserved
    Three,
    /// Reserved
    Four,
}

impl GammaCurve {
    pub open spec fn spec_bits(self) -> u8 {
        match self {
            GammaCurve::One => 0x01,
            GammaCurve::Two => 0x02,
            GammaCurve::Three => 0x04,
            GammaCurve::Four => 0x08,
        }
    }

    /// The pre-shifted bit pattern of this value within its parameter byte.
    #[verifier::when_used_as_spec(spec_bits)]
    pub fn bits(self) -> (r: u8)
        ensures
            r == self.spec_bits(),
    {
        match self {
            GammaCurve::One => 0x01,
            GammaCurve::Two => 0x02,
            GammaCurve::Three => 0x04,
            GammaCurve::Four => 0x08,
        }
    }
}

/// Tearing effect output mode (TEON).
#[derive(Clone, Copy, Debug, PartialEq, Eq, Structural)]
pub enum TearingEffect {
    /// V-blanking only
    VBlank,
    /// V-blanking and H-blanking
    VHBlank,
}

impl TearingEffect {
    pub open spec fn spec_bits(self) -> u8 {
        match self {
            TearingEffect::VBlank => 0x00,
            TearingEffect::VHBlank => 0x01,
        }
    }

    /// The pre-shifted bit pattern of this value within its parameter byte.
    #[verifier::when_used_as_spec(spec_bits)]
    pub fn bits(self) -> (r: u8)
        ensures
            r == self.spec_bits(),
    {
        match self {
            TearingEffect::VBlank => 0x00,
            TearingEffect::VHBlank => 0x01,
        }
    }
}

/// RGB interface mode: DE or HV (RGBCTRL bit 7).
#[derive(Clone, Copy, Debug, PartialEq, Eq, Structural)]
pub enum DataEnable {
    DE,
    HV,
}

impl DataEnable {
    pub open spec fn spec_bits(self) -> u8 {
        match self {
            DataEnable::DE => 0x00,
            DataEnable::HV => 0x80,
        }
    }

    /// The pre-shifted bit pattern of this value within its parameter byte.
    #[verifier::when_used_as_spec(spec_bits)]
    pub fn bits(self) -> (r: u8)
        ensures
            r == self.spec_bits(),
    {
        match self {
            DataEnable::DE => 0x00,
            DataEnable::HV => 0x80,
        }
    }
}

/// VSYNC pin polarity (RGBCTRL bit 3).
#[derive(Clone, Copy, Debug, PartialEq, Eq, Structural)]
pub enum VsyncActive {
    Low,
    High,
}

impl VsyncActive {
    pub open spec fn spec_bits(self) -> u8 {
        match self {
            VsyncActive::Low => 0x00,
            VsyncActive::High => 0x08,
        }
    }

    /// The pre-shifted bit pattern of this value within its parameter byte.
    #[verifier::when_used_as_spec(spec_bits)]
    pub fn bits(self) -> (r: u8)
        ensures
            r == self.spec_bits(),
    {
        match self {
            VsyncActive::Low => 0x00,
            VsyncActive::High => 0x08,
        }
    }
}

/// HSYNC pin polarity (RGBCTRL bit 2).
#[derive(Clone, Copy, Debug, PartialEq, Eq, Structural)]
pub enum HsyncActive {
    Low,
    High,
}

impl HsyncActive {
    pub open spec fn spec_bits(self) -> u8 {
        match self {
            HsyncActive::Low => 0x00,
            HsyncActive::High => 0x04,
        }
    }

    /// The pre-shifted bit pattern of this value within its parameter byte.
    #[verifier::when_used_as_spec(spec_bits)]
    pub fn bits(self) -> (r: u8)
        ensures
            r == self.spec_bits(),
    {
        match self {
            HsyncActive::Low => 0x00,
            HsyncActive::High => 0x04,
        }
    }
}

/// DOTCLK edge on which data is sampled (RGBCTRL bit 1).
#[derive(Clone, Copy, Debug, PartialEq, Eq, Structural)]
pub enum DataPolarity {
    Rising,
    Falling,
}

impl DataPolarity {
    pub open spec fn spec_bits(self) -> u8 {
        match self {
            DataPolarity::Rising => 0x00,
            DataPolarity::Falling => 0x02,
        }
    }

    /// The pre-shifted bit pattern of this value within its parameter byte.
    #[verifier::when_used_as_spec(spec_bits)]
    pub fn bits(self) -> (r: u8)
        ensures
            r == self.spec_bits(),
    {
        match self {
            DataPolarity::Rising => 0x00,
            DataPolarity::Falling => 0x02,
        }
    }
}

/// ENABLE pin polarity (RGBCTRL bit 0).
#[derive(Clone, Copy, Debug, PartialEq, Eq, Structural)]
pub enum EnablePolarity {
    Low,
    High,
}

impl EnablePolarity {
    pub open spec fn spec_bits(self) -> u8 {
        match self {
            EnablePolarity::Low => 0x00,
            EnablePolarity::High => 0x01,
        }
    }

    /// The pre-shifted bit pattern of this value within its parameter byte.
    #[verifier::when_used_as_spec(spec_bits)]
    pub fn bits(self) -> (r: u8)
        ensures
            r == self.spec_bits(),
    {
        match self {
            EnablePolarity::Low => 0x00,
            EnablePolarity::High => 0x01,
        }
    }
}

/// LEDPWM polarity (COLCTRL bit 5).
#[derive(Clone, Copy, Debug, PartialEq, Eq, Structural)]
pub enum PWMPolarity {
    Low,
    High,
}

impl PWMPolarity {
    pub open spec fn spec_bits(self) -> u8 {
        match self {
            PWMPolarity::Low => 0x00,
            PWMPolarity::High => 0x20,
        }
    }

    /// The pre-shifted bit pattern of this value within its parameter byte.
    #[verifier::when_used_as_spec(spec_bits)]
    pub fn bits(self) -> (r: u8)
        ensures
            r == self.spec_bits(),
    {
        match self {
            PWMPolarity::Low => 0x00,
            PWMPolarity::High => 0x20,
        }
    }
}

/// LED_ON polarity (COLCTRL bit 4).
#[derive(Clone, Copy, Debug, PartialEq, Eq, Structural)]
pub enum LEDPolarity {
    Low,
    High,
}

impl LEDPolarity {
    pub open spec fn spec_bits(self) -> u8 {
        match self {
            LEDPolarity::Low => 0x00,
            LEDPolarity::High => 0x10,
        }
    }

    /// The pre-shifted bit pattern of this value within its parameter byte.
    #[verifier::when_used_as_spec(spec_bits)]
    pub fn bits(self) -> (r: u8)
        ensures
            r == self.spec_bits(),
    {
        match self {
            LEDPolarity::Low => 0x00,
            LEDPolarity::High => 0x10,
        }
    }
}

/// RGB pixel format argument for 262K colours (COLCTRL bit 3).
#[derive(Clone, Copy, Debug, PartialEq, Eq, Structural)]
pub enum PixelPinout {
    Normal,
    Condensed,
}

impl PixelPinout {
    pub open spec fn spec_bits(self) -> u8 {
        match self {
            PixelPinout::Normal => 0x00,
            PixelPinout::Condensed => 0x08,
        }
    }

    /// The pre-shifted bit pattern of this value within its parameter byte.
    #[verifier::when_used_as_spec(spec_bits)]
    pub fn bits(self) -> (r: u8)
        ensures
            r == self.spec_bits(),
    {
        match self {
            PixelPinout::Normal => 0x00,
            PixelPinout::Condensed => 0x08,
        }
    }
}

/// End of pixel format for 65K and 262K modes (COLCTRL bits 2..0).
#[derive(Clone, Copy, Debug, PartialEq, Eq, Structural)]
pub enum EndPixelFormat {
    /// Copy own MSB
    SelfMSB,
    /// Copy green MSB
    GreenMSB,
    /// Copy own LSB
    SelfLSB,
    /// Fixed 0
    Zero,
    /// Fixed 1
    One,
}

impl EndPixelFormat {
    pub open spec fn spec_bits(self) -> u8 {
        match self {
            EndPixelFormat::SelfMSB => 0x00,
            EndPixelFormat::GreenMSB => 0x01,
            EndPixelFormat::SelfLSB => 0x02,
            EndPixelFormat::Zero => 0x04,
            EndPixelFormat::One => 0x05,
        }
    }

    /// The pre-shifted bit pattern of this value within its parameter byte.
    #[verifier::when_used_as_spec(spec_bits)]
    pub fn bits(self) -> (r: u8)
        ensures
            r == self.spec_bits(),
    {
        match self {
            EndPixelFormat::SelfMSB => 0x00,
            EndPixelFormat::GreenMSB => 0x01,
            EndPixelFormat::SelfLSB => 0x02,
            EndPixelFormat::Zero => 0x04,
            EndPixelFormat::One => 0x05,
        }
    }
}

/// Vertical scan direction (MADCTL bit 4).
#[derive(Clone, Copy, Debug, PartialEq, Eq, Structural)]
pub enum ScanDirection {
    Normal,
    Reverse,
}

impl ScanDirection {
    pub open spec fn spec_bits(self) -> u8 {
        match self {
            ScanDirection::Normal => 0x00,
            ScanDirection::Reverse => 0x10,
        }
    }

    /// The pre-shifted bit pattern of this value within its parameter byte.
    #[verifier::when_used_as_spec(spec_bits)]
    pub fn bits(self) -> (r: u8)
        ensures
            r == self.spec_bits(),
    {
        match self {
            ScanDirection::Normal => 0x00,
            ScanDirection::Reverse => 0x10,
        }
    }
}

/// RGB or BGR colour order (MADCTL bit 3).
#[derive(Clone, Copy, Debug, PartialEq, Eq, Structural)]
pub enum ColorOrder {
    /// RGB mode
    Rgb,
    /// BGR mode
    Bgr,
}

impl ColorOrder {
    pub open spec fn spec_bits(self) -> u8 {
        match self {
            ColorOrder::Rgb => 0x00,
            ColorOrder::Bgr => 0x08,
        }
    }

    /// The pre-shifted bit pattern of this value within its parameter byte.
    #[verifier::when_used_as_spec(spec_bits)]
    pub fn bits(self) -> (r: u8)
        ensures
            r == self.spec_bits(),
    {
        match self {
            ColorOrder::Rgb => 0x00,
            ColorOrder::Bgr => 0x08,
        }
    }
}

/// Interface pixel format (COLMOD bits 6..4).
#[derive(Clone, Copy, Debug, PartialEq, Eq, Structural)]
pub enum BitsPerPixel {
    /// 16 bits per pixel (RGB565)
    Rgb565,
    /// 18 bits per pixel (RGB666)
    Rgb666,
    /// 24 bits per pixel (RGB888)
    Rgb888,
}

impl BitsPerPixel {
    pub open spec fn spec_bits(self) -> u8 {
        match self {
            BitsPerPixel::Rgb565 => 0x50,
            BitsPerPixel::Rgb666 => 0x60,
            BitsPerPixel::Rgb888 => 0x70,
        }
    }

    /// The pre-shifted bit pattern of this value within its parameter byte.
    #[verifier::when_used_as_spec(spec_bits)]
    pub fn bits(self) -> (r: u8)
        ensures
            r == self.spec_bits(),
    {
        match self {
            BitsPerPixel::Rgb565 => 0x50,
            BitsPerPixel::Rgb666 => 0x60,
            BitsPerPixel::Rgb888 => 0x70,
        }
    }
}

/// Brightness control block (WRCTRLD bit 5).
#[derive(Clone, Copy, Debug, PartialEq, Eq, Structural)]
pub enum BrightnessControl {
    /// Ignore the display brightness value and soft-set it to 0x00
    Off,
    /// Use the display brightness value normally
    On,
}

impl BrightnessControl {
    pub open spec fn spec_bits(self) -> u8 {
        match self {
            BrightnessControl::Off => 0x00,
            BrightnessControl::On => 0x20,
        }
    }

    /// The pre-shifted bit pattern of this value within its parameter byte.
    #[verifier::when_used_as_spec(spec_bits)]
    pub fn bits(self) -> (r: u8)
        ensures
            r == self.spec_bits(),
    {
        match self {
            BrightnessControl::Off => 0x00,
            BrightnessControl::On => 0x20,
        }
    }
}

/// Display dimming (WRCTRLD bit 3).
#[derive(Clone, Copy, Debug, PartialEq, Eq, Structural)]
pub enum DisplayDimming {
    Off,
    On,
}

impl DisplayDimming {
    pub open spec fn spec_bits(self) -> u8 {
        match self {
            DisplayDimming::Off => 0x00,
            DisplayDimming::On => 0x08,
        }
    }

    /// The pre-shifted bit pattern of this value within its parameter byte.
    #[verifier::when_used_as_spec(spec_bits)]
    pub fn bits(self) -> (r: u8)
        ensures
            r == self.spec_bits(),
    {
        match self {
            DisplayDimming::Off => 0x00,
            DisplayDimming::On => 0x08,
        }
    }
}

/// Backlight circuit (WRCTRLD bit 2).
#[derive(Clone, Copy, Debug, PartialEq, Eq, Structural)]
pub enum Backlight {
    /// Disable the backlight circuit; control lines must be low
    Off,
    /// Enable the backlight circuit
    On,
}

impl Backlight {
    pub open spec fn spec_bits(self) -> u8 {
        match self {
            Backlight::Off => 0x00,
            Backlight::On => 0x04,
        }
    }

    /// The pre-shifted bit pattern of this value within its parameter byte.
    #[verifier::when_used_as_spec(spec_bits)]
    pub fn bits(self) -> (r: u8)
        ensures
            r == self.spec_bits(),
    {
        match self {
            Backlight::Off => 0x00,
            Backlight::On => 0x04,
        }
    }
}

/// Colour enhancement (WRCACE bit 7).
#[derive(Clone, Copy, Debug, PartialEq, Eq, Structural)]
pub enum Enhancement {
    /// Disable colour enhancement
    Off,
    /// Enable colour enhancement
    On,
}

impl Enhancement {
    pub open spec fn spec_bits(self) -> u8 {
        match self {
            Enhancement::Off => 0x00,
            Enhancement::On => 0x80,
        }
    }

    /// The pre-shifted bit pattern of this value within its parameter byte.
    #[verifier::when_used_as_spec(spec_bits)]
    pub fn bits(self) -> (r: u8)
        ensures
            r == self.spec_bits(),
    {
        match self {
            Enhancement::Off => 0x00,
            Enhancement::On => 0x80,
        }
    }
}

/// Colour enhancement level (WRCACE bits 5..4).
#[derive(Clone, Copy, Debug, PartialEq, Eq, Structural)]
pub enum EnhancementMode {
    Low,
    Medium,
    High,
}

impl EnhancementMode {
    pub open spec fn spec_bits(self) -> u8 {
        match self {
            EnhancementMode::Low => 0x00,
            EnhancementMode::Medium => 0x10,
            EnhancementMode::High => 0x30,
        }
    }

    /// The pre-shifted bit pattern of this value within its parameter byte.
    #[verifier::when_used_as_spec(spec_bits)]
    pub fn bits(self) -> (r: u8)
        ensures
            r == self.spec_bits(),
    {
        match self {
            EnhancementMode::Low => 0x00,
            EnhancementMode::Medium => 0x10,
            EnhancementMode::High => 0x30,
        }
    }
}

/// Content adaptive brightness control mode (WRCACE bits 1..0).
#[derive(Clone, Copy, Debug, PartialEq, Eq, Structural)]
pub enum AdaptiveBrightness {
    /// Off
    Off,
    /// User interface mode
    UserInterface,
    /// Still picture mode
    StillPicture,
    /// Moving image mode
    MovingImage,
}

impl AdaptiveBrightness {
    pub open spec fn spec_bits(self) -> u8 {
        match self {
            AdaptiveBrightness::Off => 0x00,
            AdaptiveBrightness::UserInterface => 0x01,
            AdaptiveBrightness::StillPicture => 0x02,
            AdaptiveBrightness::MovingImage => 0x03,
        }
    }

    /// The pre-shifted bit pattern of this value within its parameter byte.
    #[verifier::when_used_as_spec(spec_bits)]
    pub fn bits(self) -> (r: u8)
        ensures
            r == self.spec_bits(),
    {
        match self {
            AdaptiveBrightness::Off => 0x00,
            AdaptiveBrightness::UserInterface => 0x01,
            AdaptiveBrightness::StillPicture => 0x02,
            AdaptiveBrightness::MovingImage => 0x03,
        }
    }
}

/// Inversion type (INVSET bits 2..0).
#[derive(Clone, Copy, Debug, PartialEq, Eq, Structural)]
pub enum Inversion {
    OneDot,
    TwoDot,
    Column,
}

impl Inversion {
    pub open spec fn spec_bits(self) -> u8 {
        match self {
            Inversion::OneDot => 0x00,
            Inversion::TwoDot => 0x01,
            Inversion::Column => 0x07,
        }
    }

    /// The pre-shifted bit pattern of this value within its parameter byte.
    #[verifier::when_used_as_spec(spec_bits)]
    pub fn bits(self) -> (r: u8)
        ensures
            r == self.spec_bits(),
    {
        match self {
            Inversion::OneDot => 0x00,
            Inversion::TwoDot => 0x01,
            Inversion::Column => 0x07,
        }
    }
}

/// Gamma OP bias current (PWCTRL1 bits 7..6).
#[derive(Clone, Copy, Debug, PartialEq, Eq, Structural)]
pub enum GammaOPBias {
    Off,
    Min,
    Middle,
    Max,
}

impl GammaOPBias {
    pub open spec fn spec_bits(self) -> u8 {
        match self {
            GammaOPBias::Off => 0x00,
            GammaOPBias::Min => 0x40,
            GammaOPBias::Middle => 0x80,
            GammaOPBias::Max => 0xC0,
        }
    }

    /// The pre-shifted bit pattern of this value within its parameter byte.
    #[verifier::when_used_as_spec(spec_bits)]
    pub fn bits(self) -> (r: u8)
        ensures
            r == self.spec_bits(),
    {
        match self {
            GammaOPBias::Off => 0x00,
            GammaOPBias::Min => 0x40,
            GammaOPBias::Middle => 0x80,
            GammaOPBias::Max => 0xC0,
        }
    }
}

/// Source OP input bias current (PWCTRL1 bits 3..2).
#[derive(Clone, Copy, Debug, PartialEq, Eq, Structural)]
pub enum SourceOPInput {
    Off,
    Min,
    Middle,
    Max,
}

impl SourceOPInput {
    pub open spec fn spec_bits(self) -> u8 {
        match self {
            SourceOPInput::Off => 0x00,
            SourceOPInput::Min => 0x04,
            SourceOPInput::Middle => 0x08,
            SourceOPInput::Max => 0x0C,
        }
    }

    /// The pre-shifted bit pattern of this value within its parameter byte.
    #[verifier::when_used_as_spec(spec_bits)]
    pub fn bits(self) -> (r: u8)
        ensures
            r == self.spec_bits(),
    {
        match self {
            SourceOPInput::Off => 0x00,
            SourceOPInput::Min => 0x04,
            SourceOPInput::Middle => 0x08,
            SourceOPInput::Max => 0x0C,
        }
    }
}

/// Source OP output bias current (PWCTRL1 bits 1..0).
#[derive(Clone, Copy, Debug, PartialEq, Eq, Structural)]
pub enum SourceOPOutput {
    Off,
    Min,
    Middle,
    Max,
}

impl SourceOPOutput {
    pub open spec fn spec_bits(self) -> u8 {
        match self {
            SourceOPOutput::Off => 0x00,
            SourceOPOutput::Min => 0x01,
            SourceOPOutput::Middle => 0x02,
            SourceOPOutput::Max => 0x03,
        }
    }

    /// The pre-shifted bit pattern of this value within its parameter byte.
    #[verifier::when_used_as_spec(spec_bits)]
    pub fn bits(self) -> (r: u8)
        ensures
            r == self.spec_bits(),
    {
        match self {
            SourceOPOutput::Off => 0x00,
            SourceOPOutput::Min => 0x01,
            SourceOPOutput::Middle => 0x02,
            SourceOPOutput::Max => 0x03,
        }
    }
}

/// AVDD voltage level (PWCTRL2 bits 5..4).
#[derive(Clone, Copy, Debug, PartialEq, Eq, Structural)]
pub enum VoltageAVDD {
    /// +6.2 V
    Pos6_2,
    /// +6.4 V
    Pos6_4,
    /// +6.6 V
    Pos6_6,
    /// +6.8 V
    Pos6_8,
}

impl VoltageAVDD {
    pub open spec fn spec_bits(self) -> u8 {
        match self {
            VoltageAVDD::Pos6_2 => 0x00,
            VoltageAVDD::Pos6_4 => 0x10,
            VoltageAVDD::Pos6_6 => 0x20,
            VoltageAVDD::Pos6_8 => 0x30,
        }
    }

    /// The pre-shifted bit pattern of this value within its parameter byte.
    #[verifier::when_used_as_spec(spec_bits)]
    pub fn bits(self) -> (r: u8)
        ensures
            r == self.spec_bits(),
    {
        match self {
            VoltageAVDD::Pos6_2 => 0x00,
            VoltageAVDD::Pos6_4 => 0x10,
            VoltageAVDD::Pos6_6 => 0x20,
            VoltageAVDD::Pos6_8 => 0x30,
        }
    }
}

/// AVCL voltage level (PWCTRL2 bits 1..0).
#[derive(Clone, Copy, Debug, PartialEq, Eq, Structural)]
pub enum VoltageAVCL {
    /// -4.4 V
    Neg4_4,
    /// -4.6 V
    Neg4_6,
    /// -4.8 V
    Neg4_8,
    /// -5.0 V
    Neg5_0,
}

impl VoltageAVCL {
    pub open spec fn spec_bits(self) -> u8 {
        match self {
            VoltageAVCL::Neg4_4 => 0x00,
            VoltageAVCL::Neg4_6 => 0x01,
            VoltageAVCL::Neg4_8 => 0x02,
            VoltageAVCL::Neg5_0 => 0x03,
        }
    }

    /// The pre-shifted bit pattern of this value within its parameter byte.
    #[verifier::when_used_as_spec(spec_bits)]
    pub fn bits(self) -> (r: u8)
        ensures
            r == self.spec_bits(),
    {
        match self {
            VoltageAVCL::Neg4_4 => 0x00,
            VoltageAVCL::Neg4_6 => 0x01,
            VoltageAVCL::Neg4_8 => 0x02,
            VoltageAVCL::Neg5_0 => 0x03,
        }
    }
}

/// Sunlight readable enhancement (SECTRL bit 4).
#[derive(Clone, Copy, Debug, PartialEq, Eq, Structural)]
pub enum SunlightReadable {
    /// Sunlight readable mode off (default)
    Off,
    /// Sunlight readable mode on
    On,
}

impl SunlightReadable {
    pub open spec fn spec_bits(self) -> u8 {
        match self {
            SunlightReadable::Off => 0x00,
            SunlightReadable::On => 0x10,
        }
    }

    /// The pre-shifted bit pattern of this value within its parameter byte.
    #[verifier::when_used_as_spec(spec_bits)]
    pub fn bits(self) -> (r: u8)
        ensures
            r == self.spec_bits(),
    {
        match self {
            SunlightReadable::Off => 0x00,
            SunlightReadable::On => 0x10,
        }
    }
}

} // verus!
