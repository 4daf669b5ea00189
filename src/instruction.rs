//! The instruction payload: one bump byte, then the account size as an 8-byte
//! little-endian integer, as borsh lays out the two fields.
use vstd::prelude::*;
use vstd::slice::slice_subrange;

use crate::error::CreateError;

verus! {

/// Number of bytes that an encoded instruction occupies.
pub const INSTRUCTION_LEN: usize = 9;

/// The unsigned value of `b`, read least significant byte first.
pub open spec fn le_value(b: Seq<u8>) -> nat
    decreases b.len(),
{
    if b.len() == 0 {
        0
    } else {
        b[0] as nat + 256 * le_value(b.drop_first())
    }
}

/// The request to create the derived account.
#[derive(Debug, Clone, Copy, PartialEq, Eq, Structural)]
pub struct CreateAccountInstruction {
    /// The bump seed that makes the derived address fall off the curve.
    pub new_account_bump_seed: u8,
    /// Number of data bytes to allocate for the new account.
    pub space: u64,
}

/// What a byte payload decodes to: `None` when it is shorter than the layout;
/// bytes past the layout are ignored.
pub open spec fn decode_spec(b: Seq<u8>) -> Option<CreateAccountInstruction> {
    if b.len() < INSTRUCTION_LEN {
        None
    } else {
        Some(
            CreateAccountInstruction {
                new_account_bump_seed: b[0],
                space: le_value(b.subrange(1, 9)) as u64,
            },
        )
    }
}

/// `b` is exactly the encoding of `ins`.
pub open spec fn is_encoding_of(ins: CreateAccountInstruction, b: Seq<u8>) -> bool {
    &&& b.len() == INSTRUCTION_LEN
    &&& b[0] == ins.new_account_bump_seed
    &&& le_value(b.subrange(1, 9)) == ins.space as nat
}

/// Relies on borsh's `BorshDeserialize` impl for `u64`: it reads the first eight
/// bytes as a little-endian integer and fails when fewer than eight remain.
#[verifier::external_body]
fn read_u64_le(bytes: &[u8]) -> (r: Option<u64>)
    ensures
        r is Some <==> bytes@.len() >= 8,
        r is Some ==> r->0 as nat == le_value(bytes@.subrange(0, 8)),
{
    let mut rest: &[u8] = bytes;
    <u64 as borsh::BorshDeserialize>::deserialize(&mut rest).ok()
}

/// Relies on `borsh::to_vec` for a `u64`: the value's eight bytes, least
/// significant first, written into a `Vec`, which cannot fail.
#[verifier::external_body]
fn write_u64_le(v: u64) -> (r: Vec<u8>)
    ensures
        r@.len() == 8,
        le_value(r@) == v as nat,
{
    borsh::to_vec(&v).unwrap_or_default()
}

impl CreateAccountInstruction {
    /// Decodes the payload: the bump byte, then the size. Trailing bytes are
    /// ignored; a payload shorter than nine bytes is malformed.
    pub fn decode(data: &[u8]) -> (r: Result<CreateAccountInstruction, CreateError>)
        ensures
            r == match decode_spec(data@) {
                Some(ins) => Ok::<CreateAccountInstruction, CreateError>(ins),
                None => Err(CreateError::MalformedRequest),
            },
    {
        if data.len() < INSTRUCTION_LEN {
            return Err(CreateError::MalformedRequest);
        }
        let bump = data[0];
        let size_bytes = slice_subrange(data, 1, INSTRUCTION_LEN);
        match read_u64_le(size_bytes) {
            Some(space) => {
                assert(size_bytes@.subrange(0, 8) =~= data@.subrange(1, 9));
                Ok(CreateAccountInstruction { new_account_bump_seed: bump, space })
            },
            None => Err(CreateError::MalformedRequest),
        }
    }

    /// Encodes the instruction into its nine-byte layout.
    pub fn encode(&self) -> (r: Vec<u8>)
        ensures
            is_encoding_of(*self, r@),
    {
        let mut out: Vec<u8> = Vec::new();
        out.push(self.new_account_bump_seed);
        let mut size_bytes = write_u64_le(self.space);
        let ghost size_seq = size_bytes@;
        out.append(&mut size_bytes);
        assert(out@.subrange(1, 9) =~= size_seq);
        out
    }
}

/// Two byte strings of one length with the same little-endian value are equal.
pub proof fn lemma_le_value_injective(a: Seq<u8>, b: Seq<u8>)
    requires
        a.len() == b.len(),
        le_value(a) == le_value(b),
    ensures
        a == b,
    decreases a.len(),
{
    if a.len() > 0 {
        let ra = le_value(a.drop_first());
        let rb = le_value(b.drop_first());
        let a0 = a[0] as int;
        let b0 = b[0] as int;
        assert(a0 == b0 && ra == rb) by (nonlinear_arith)
            requires
                a0 + 256 * ra == b0 + 256 * rb,
                0 <= a0 < 256,
                0 <= b0 < 256,
                ra >= 0,
                rb >= 0,
        ;
        lemma_le_value_injective(a.drop_first(), b.drop_first());
        assert(a =~= b) by {
            assert forall|i: int| 0 <= i < a.len() implies a[i] == b[i] by {
                if i > 0 {
                    assert(a[i] == a.drop_first()[i - 1]);
                    assert(b[i] == b.drop_first()[i - 1]);
                }
            }
        }
    }
}

/// Decoding an encoding gives back the instruction that was encoded.
pub proof fn lemma_decode_of_encoding(ins: CreateAccountInstruction, b: Seq<u8>)
    requires
        is_encoding_of(ins, b),
    ensures
        decode_spec(b) == Some(ins),
{
}

/// Encoding what a payload decodes to gives back the payload's first nine
/// bytes: the bump and the size are recovered exactly.
pub proof fn lemma_encoding_of_decode(b: Seq<u8>, e: Seq<u8>)
    requires
        decode_spec(b) is Some,
        is_encoding_of(decode_spec(b)->0, e),
    ensures
        e == b.subrange(0, 9),
{
    let ins = decode_spec(b)->0;
    assert(le_value(b.subrange(1, 9)) == ins.space as nat) by {
        lemma_le_value_bound_8(b.subrange(1, 9));
    }
    lemma_le_value_injective(e.subrange(1, 9), b.subrange(1, 9));
    assert forall|i: int| 0 <= i < 9 implies e[i] == b.subrange(0, 9)[i] by {
        if i > 0 {
            assert(e[i] == e.subrange(1, 9)[i - 1]);
            assert(b[i] == b.subrange(1, 9)[i - 1]);
        }
    }
    assert(e =~= b.subrange(0, 9));
}

/// Eight bytes hold a value below 2^64.
proof fn lemma_le_value_bound_8(b: Seq<u8>)
    requires
        b.len() == 8,
    ensures
        le_value(b) <= u64::MAX,
{
    lemma_le_value_bound(b);
    reveal_with_fuel(pow256, 9);
    assert(pow256(8) == 0x1_0000_0000_0000_0000);
}

/// 256 raised to `n`.
pub open spec fn pow256(n: nat) -> nat
    decreases n,
{
    if n == 0 {
        1
    } else {
        256 * pow256((n - 1) as nat)
    }
}

/// A string of `n` bytes holds a value below 256^n.
proof fn lemma_le_value_bound(b: Seq<u8>)
    ensures
        le_value(b) < pow256(b.len()),
    decreases b.len(),
{
    if b.len() > 0 {
        lemma_le_value_bound(b.drop_first());
        let r = le_value(b.drop_first());
        let p = pow256((b.len() - 1) as nat);
        let b0 = b[0] as nat;
        assert(b0 + 256 * r < 256 * p) by (nonlinear_arith)
            requires
                r < p,
                b0 < 256,
        ;
    }
}

} // verus!
