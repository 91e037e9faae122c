//! CNTID, the Counter Identification Register.

use vstd::prelude::*;

verus! {

/// Counter Identification Register. Read-only for a driver.
#[derive(Clone, Copy, Debug, PartialEq, Eq, Structural)]
pub struct CntId(pub u32);

impl View for CntId {
    type V = u32;

    open spec fn view(&self) -> u32 {
        self.0
    }
}

impl CntId {
    /// The bits of the register word that hold the counter scaling field.
    pub const CNTSC_MASK: u32 = 0xf;

    /// The value of the counter scaling field that says "implemented".
    pub const CNTSC_IMPLEMENTED: u32 = 0x1;

    /// The raw register word.
    #[verifier::allow_in_spec]
    pub fn bits(&self) -> u32
        returns
            self.0,
    {
        self.0
    }

    /// The value with exactly the given raw word.
    #[verifier::allow_in_spec]
    pub fn from_bits_retain(bits: u32) -> CntId
        returns
            CntId(bits),
    {
        CntId(bits)
    }

    /// Whether counter scaling is implemented: the low four bits of the
    /// word are exactly `0b0001`.
    #[verifier::allow_in_spec]
    pub fn scaling_implemented(&self) -> bool
        returns
            self.0 & 0xf == 0x1,
    {
        self.0 & CntId::CNTSC_MASK == CntId::CNTSC_IMPLEMENTED
    }

    /// Counter scaling is implemented exactly where the register word leaves
    /// the remainder 1 when divided by 16: of the sixteen values of the low
    /// four bits one says yes, and the bits above them have no say.
    pub proof fn lemma_scaling_implemented(value: CntId)
        ensures
            value.scaling_implemented() <==> value@ % 16 == 1,
    {
        let word = value.0;
        assert((word & 0xf == 0x1) <==> word % 16 == 1) by (bit_vector);
    }
}

} // verus!
