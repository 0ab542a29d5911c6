use vstd::prelude::*;

verus! {

/// Whether a byte sequence begins with the WebAssembly module preamble:
/// the magic bytes `\0asm` followed by binary version 1 in little-endian
/// order. This is the rule by which the model engine accepts a binary;
/// every well-formed module starts this way, so anything the rule rejects
/// no engine would parse.
pub open spec fn valid_preamble(bytes: Seq<u8>) -> bool {
    &&& bytes.len() >= 8
    &&& bytes[0] == 0x00u8
    &&& bytes[1] == 0x61u8
    &&& bytes[2] == 0x73u8
    &&& bytes[3] == 0x6du8
    &&& bytes[4] == 0x01u8
    &&& bytes[5] == 0x00u8
    &&& bytes[6] == 0x00u8
    &&& bytes[7] == 0x00u8
}

/// The validation gate: reports whether the engine accepts `bytes` as a
/// module, without acquiring or holding any resource. Invalid input is a
/// normal `false` result, never an error.
pub fn validate(bytes: &[u8]) -> (r: bool)
    ensures
        r == valid_preamble(bytes@),
{
    if bytes.len() < 8 {
        return false;
    }
    bytes[0] == 0x00 && bytes[1] == 0x61 && bytes[2] == 0x73 && bytes[3] == 0x6d
        && bytes[4] == 0x01 && bytes[5] == 0x00 && bytes[6] == 0x00 && bytes[7] == 0x00
}

} // verus!
