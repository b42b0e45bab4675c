use crate::error::TransferError;
use vstd::prelude::*;

verus! {

/// The number that eight bytes stand for, least significant byte first.
pub open spec fn le_u64(s: Seq<u8>) -> int
    recommends
        s.len() == 8,
{
    s[0] + s[1] * 0x100 + s[2] * 0x1_0000 + s[3] * 0x100_0000 + s[4] * 0x1_0000_0000 + s[5]
        * 0x100_0000_0000 + s[6] * 0x1_0000_0000_0000 + s[7] * 0x100_0000_0000_0000
}

/// The arguments of the one instruction: the amount to transfer.
#[derive(Clone, Copy, Debug, PartialEq, Eq, Structural)]
pub struct InstructionArgs {
    pub amount: u64,
}

impl InstructionArgs {
    /// Decodes the instruction bytes: exactly eight bytes, the amount as a
    /// little-endian unsigned integer. Any other length is refused.
    pub fn try_from_slice(data: &[u8]) -> (r: Result<InstructionArgs, TransferError>)
        ensures
            data@.len() == 8 ==> (r matches Ok(args) && args.amount == le_u64(data@)),
            data@.len() != 8 ==> (r matches Err(TransferError::MalformedInput)),
    {
        if data.len() != 8 {
            return Err(TransferError::MalformedInput);
        }
        let b0: u64 = data[0] as u64;
        let b1: u64 = data[1] as u64;
        let b2: u64 = data[2] as u64;
        let b3: u64 = data[3] as u64;
        let b4: u64 = data[4] as u64;
        let b5: u64 = data[5] as u64;
        let b6: u64 = data[6] as u64;
        let b7: u64 = data[7] as u64;
        let amount: u64 = b0 + b1 * 0x100 + b2 * 0x1_0000 + b3 * 0x100_0000 + b4 * 0x1_0000_0000
            + b5 * 0x100_0000_0000 + b6 * 0x1_0000_0000_0000 + b7 * 0x100_0000_0000_0000;
        Ok(InstructionArgs { amount })
    }

    /// Encodes the arguments as the eight bytes that `try_from_slice` reads.
    pub fn to_bytes(&self) -> (bytes: Vec<u8>)
        ensures
            bytes@.len() == 8,
            le_u64(bytes@) == self.amount,
    {
        let q0: u64 = self.amount;
        let q1: u64 = q0 / 0x100;
        let q2: u64 = q1 / 0x100;
        let q3: u64 = q2 / 0x100;
        let q4: u64 = q3 / 0x100;
        let q5: u64 = q4 / 0x100;
        let q6: u64 = q5 / 0x100;
        let q7: u64 = q6 / 0x100;
        let mut bytes: Vec<u8> = Vec::new();
        bytes.push((q0 % 0x100) as u8);
        bytes.push((q1 % 0x100) as u8);
        bytes.push((q2 % 0x100) as u8);
        bytes.push((q3 % 0x100) as u8);
        bytes.push((q4 % 0x100) as u8);
        bytes.push((q5 % 0x100) as u8);
        bytes.push((q6 % 0x100) as u8);
        bytes.push(q7 as u8);
        bytes
    }
}

/// Two eight-byte buffers that stand for the same number are the same
/// buffer: an amount has one encoding only.
pub proof fn lemma_le_u64_injective(a: Seq<u8>, b: Seq<u8>)
    requires
        a.len() == 8,
        b.len() == 8,
        le_u64(a) == le_u64(b),
    ensures
        a == b,
{
    let a7: int = a[7] as int;
    let b7: int = b[7] as int;
    let a6: int = a[6] + 0x100 * a7;
    let b6: int = b[6] + 0x100 * b7;
    let a5: int = a[5] + 0x100 * a6;
    let b5: int = b[5] + 0x100 * b6;
    let a4: int = a[4] + 0x100 * a5;
    let b4: int = b[4] + 0x100 * b5;
    let a3: int = a[3] + 0x100 * a4;
    let b3: int = b[3] + 0x100 * b4;
    let a2: int = a[2] + 0x100 * a3;
    let b2: int = b[2] + 0x100 * b3;
    let a1: int = a[1] + 0x100 * a2;
    let b1: int = b[1] + 0x100 * b2;
    assert(le_u64(a) == a[0] + 0x100 * a1);
    assert(le_u64(b) == b[0] + 0x100 * b1);
    assert(a1 == b1 && a[0] == b[0]);
    assert(a2 == b2 && a[1] == b[1]);
    assert(a3 == b3 && a[2] == b[2]);
    assert(a4 == b4 && a[3] == b[3]);
    assert(a5 == b5 && a[4] == b[4]);
    assert(a6 == b6 && a[5] == b[5]);
    assert(a7 == b7 && a[6] == b[6]);
    assert(a =~= b);
}

} // verus!
