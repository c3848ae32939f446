//! Wallet key text: a base58 secret of 32 or 64 bytes, widened to the 64-byte keypair layout.
use vstd::prelude::*;

verus! {

/// Byte length of a keypair (secret half, then public half).
pub const KEYPAIR_LEN: usize = 64;

/// Byte length of a secret key alone.
pub const SECRET_LEN: usize = 32;

/// The bytes that the base58 text `s` spells, if it is valid base58.
pub uninterp spec fn base58_decoded(s: Seq<char>) -> Option<Seq<u8>>;

/// Relies on `bs58::decode(..).into_vec()`: the result depends on the text alone.
#[verifier::external_body]
fn decode_base58(s: &str) -> (r: Option<Vec<u8>>)
    ensures
        match r {
            Some(v) => base58_decoded(s@) == Some(v@),
            None => base58_decoded(s@) is None,
        },
{
    bs58::decode(s).into_vec().ok()
}

/// Why key text was refused.
#[derive(PartialEq, Eq, Structural, Clone, Copy, Debug)]
pub enum KeyError {
    /// Not base58.
    InvalidFormat,
    /// Decoded to this many bytes, neither 32 nor 64.
    InvalidLength(usize),
}

/// The 64-byte keypair layout of decoded key bytes: 64 bytes are kept, 32 bytes fill the
/// secret half and leave the public half zero.
pub open spec fn widened(b: Seq<u8>) -> Seq<u8> {
    if b.len() == KEYPAIR_LEN {
        b
    } else {
        b + Seq::new(SECRET_LEN as nat, |i: int| 0u8)
    }
}

/// Keypair bytes from decoded key bytes.
pub fn widen_key_bytes(bytes: &Vec<u8>) -> (r: Result<[u8; 64], KeyError>)
    ensures
        bytes@.len() != KEYPAIR_LEN && bytes@.len() != SECRET_LEN ==> r == Err::<[u8; 64], KeyError>(
            KeyError::InvalidLength(bytes@.len() as usize),
        ),
        bytes@.len() == KEYPAIR_LEN || bytes@.len() == SECRET_LEN ==> (r matches Ok(k) && k@
            == widened(bytes@)),
{
    let n = bytes.len();
    if n != KEYPAIR_LEN && n != SECRET_LEN {
        return Err(KeyError::InvalidLength(n));
    }
    let mut out: [u8; 64] = [0u8; 64];
    let mut i: usize = 0;
    while i < n
        invariant
            n == bytes@.len(),
            n == KEYPAIR_LEN || n == SECRET_LEN,
            i <= n,
            out@.len() == KEYPAIR_LEN,
            forall|j: int| 0 <= j < i ==> out@[j] == bytes@[j],
            forall|j: int| i <= j < KEYPAIR_LEN ==> out@[j] == 0u8,
        decreases n - i,
    {
        out.set(i, bytes[i]);
        i = i + 1;
    }
    assert(out@ == widened(bytes@));
    Ok(out)
}

/// Keypair bytes from base58 key text.
pub fn keypair_bytes_from_base58(private_key: &str) -> (r: Result<[u8; 64], KeyError>)
    ensures
        base58_decoded(private_key@) is None ==> r == Err::<[u8; 64], KeyError>(
            KeyError::InvalidFormat,
        ),
        base58_decoded(private_key@) matches Some(b) ==> {
            &&& b.len() != KEYPAIR_LEN && b.len() != SECRET_LEN ==> r == Err::<[u8; 64], KeyError>(
                KeyError::InvalidLength(b.len() as usize),
            )
            &&& b.len() == KEYPAIR_LEN || b.len() == SECRET_LEN ==> (r matches Ok(k) && k@ == widened(b))
        },
{
    match decode_base58(private_key) {
        None => Err(KeyError::InvalidFormat),
        Some(bytes) => widen_key_bytes(&bytes),
    }
}

} // verus!
