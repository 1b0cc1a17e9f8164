use vstd::prelude::*;

use vstd::bytes::spec_u64_from_le_bytes;
use vstd::bytes::u64_from_le_bytes;
use vstd::slice::slice_index_get;
use vstd::slice::slice_subrange;

use crate::errors::TokenError;
use crate::identity::Identity;

verus! {

/// A decoded request: the closed set of operations this program performs.
/// The first byte of a request buffer selects the operation; the remaining
/// bytes are its operand payload.
#[derive(Clone, Copy, Debug)]
pub enum Operation {
    Transfer { amount: u64 },
    Mint { amount: u64 },
    Burn { amount: u64 },
    Initialize { admin: Identity, max_supply: u64 },
}

/// The mathematical content of a decoded request.
#[verifier::ext_equal]
pub enum OperationView {
    Transfer { amount: u64 },
    Mint { amount: u64 },
    Burn { amount: u64 },
    Initialize { admin: Seq<u8>, max_supply: u64 },
}

impl View for Operation {
    type V = OperationView;

    open spec fn view(&self) -> OperationView {
        match *self {
            Operation::Transfer { amount } => OperationView::Transfer { amount },
            Operation::Mint { amount } => OperationView::Mint { amount },
            Operation::Burn { amount } => OperationView::Burn { amount },
            Operation::Initialize { admin, max_supply } => OperationView::Initialize {
                admin: admin@,
                max_supply,
            },
        }
    }
}

/// An amount operand is exactly eight bytes, read as a little-endian
/// unsigned 64-bit integer; any other length is rejected.
pub open spec fn spec_decode_amount(payload: Seq<u8>) -> Result<u64, TokenError> {
    if payload.len() != 8 {
        Err(TokenError::InvalidAmount)
    } else {
        Ok(spec_u64_from_le_bytes(payload))
    }
}

/// What the request decoder yields on a byte buffer: opcode 0 is Transfer
/// (whose amount must be nonzero), 1 is Mint, 2 is Burn, 3 is Initialize
/// (32 bytes of admin identity, then a little-endian supply cap); an empty
/// buffer, any other opcode, or a short Initialize payload is invalid.
pub open spec fn spec_decode_request(data: Seq<u8>) -> Result<OperationView, TokenError> {
    if data.len() < 1 {
        Err(TokenError::InvalidRequest)
    } else {
        let payload = data.subrange(1, data.len() as int);
        if data[0] == 0 {
            match spec_decode_amount(payload) {
                Err(e) => Err(e),
                Ok(amount) => if amount == 0 {
                    Err(TokenError::InvalidAmount)
                } else {
                    Ok(OperationView::Transfer { amount })
                },
            }
        } else if data[0] == 1 {
            match spec_decode_amount(payload) {
                Err(e) => Err(e),
                Ok(amount) => Ok(OperationView::Mint { amount }),
            }
        } else if data[0] == 2 {
            match spec_decode_amount(payload) {
                Err(e) => Err(e),
                Ok(amount) => Ok(OperationView::Burn { amount }),
            }
        } else if data[0] == 3 {
            if payload.len() < 40 {
                Err(TokenError::InvalidRequest)
            } else {
                Ok(OperationView::Initialize {
                    admin: payload.subrange(0, 32),
                    max_supply: spec_u64_from_le_bytes(payload.subrange(32, 40)),
                })
            }
        } else {
            Err(TokenError::InvalidRequest)
        }
    }
}

/// A decoded Transfer always carries a nonzero amount: zero-value
/// transfers are rejected at the decoder, before any account or the
/// ledger is consulted.
pub proof fn lemma_decoded_transfer_nonzero(data: Seq<u8>, amount: u64)
    requires
        spec_decode_request(data) == Ok::<OperationView, TokenError>(
            OperationView::Transfer { amount },
        ),
    ensures
        amount != 0,
{
}

/// Decodes a fixed-width amount operand.
pub fn decode_amount(payload: &[u8]) -> (r: Result<u64, TokenError>)
    ensures
        r == spec_decode_amount(payload@),
{
    if payload.len() != 8 {
        return Err(TokenError::InvalidAmount);
    }
    Ok(u64_from_le_bytes(payload))
}

/// Parses a raw request buffer into a typed operation, with strict length
/// checks on every operand.
pub fn decode_request(data: &Vec<u8>) -> (r: Result<Operation, TokenError>)
    ensures
        (match r {
            Ok(op) => spec_decode_request(data@) == Ok::<OperationView, TokenError>(op@),
            Err(e) => spec_decode_request(data@) == Err::<OperationView, TokenError>(e),
        }),
{
    if data.len() < 1 {
        return Err(TokenError::InvalidRequest);
    }
    let opcode = data[0];
    let payload: &[u8] = slice_subrange(data.as_slice(), 1, data.len());
    if opcode == 0 {
        match decode_amount(payload) {
            Err(e) => Err(e),
            Ok(amount) => {
                if amount == 0 {
                    Err(TokenError::InvalidAmount)
                } else {
                    Ok(Operation::Transfer { amount })
                }
            },
        }
    } else if opcode == 1 {
        match decode_amount(payload) {
            Err(e) => Err(e),
            Ok(amount) => Ok(Operation::Mint { amount }),
        }
    } else if opcode == 2 {
        match decode_amount(payload) {
            Err(e) => Err(e),
            Ok(amount) => Ok(Operation::Burn { amount }),
        }
    } else if opcode == 3 {
        if payload.len() < 40 {
            return Err(TokenError::InvalidRequest);
        }
        let mut admin_bytes: [u8; 32] = [0; 32];
        let mut i: usize = 0;
        while i < 32
            invariant
                0 <= i <= 32,
                payload@.len() >= 40,
                forall|j: int| 0 <= j < i ==> admin_bytes@[j] == payload@[j],
            decreases 32 - i,
        {
            admin_bytes[i] = *slice_index_get(payload, i);
            i += 1;
        }
        let max_supply = u64_from_le_bytes(slice_subrange(payload, 32, 40));
        let op = Operation::Initialize { admin: Identity::new(admin_bytes), max_supply };
        proof {
            assert(admin_bytes@ =~= payload@.subrange(0, 32));
        }
        Ok(op)
    } else {
        Err(TokenError::InvalidRequest)
    }
}

} // verus!
