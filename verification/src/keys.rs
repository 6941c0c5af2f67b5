use vstd::prelude::*;
use vstd::string::StringSliceAdditionalSpecFns;

use crate::hex_codec::{hex_decode, hex_decoding, HexError};

verus! {

/// A schnorrkel (sr25519) secret key, used for VRF leader election.
#[verifier::external_type_specification]
#[verifier::external_body]
pub struct ExSchnorrkelSecretKey(schnorrkel::SecretKey);

/// The order of the ristretto255 group, which bounds canonical scalars.
pub open spec fn ristretto_group_order() -> int {
    7237005577332262213973186563042994240857116359379907606001950938285454250989int
}

/// The unsigned little-endian integer that `bytes` encode.
pub open spec fn le_value(bytes: Seq<u8>) -> int
    decreases bytes.len(),
{
    if bytes.len() == 0 {
        0
    } else {
        bytes[0] + 256 * le_value(bytes.drop_first())
    }
}

/// Whether `bytes` are a schnorrkel secret key: 64 bytes whose first 32 are a
/// canonical scalar (below the group order) and whose last 32 are the nonce.
pub open spec fn is_vrf_secret(bytes: Seq<u8>) -> bool {
    &&& bytes.len() == 64
    &&& le_value(bytes.subrange(0, 32)) < ristretto_group_order()
}

/// The public key (32 compressed ristretto bytes) of the schnorrkel secret
/// key with bytes `secret`.
pub uninterp spec fn vrf_public_of(secret: Seq<u8>) -> Seq<u8>;

/// A schnorrkel secret key, as VRF secret of a validator. Its view is the 64
/// bytes it was made from; only `VrfKey::from_bytes` makes one.
pub struct VrfKey {
    key: schnorrkel::SecretKey,
    bytes: Ghost<Seq<u8>>,
}

impl View for VrfKey {
    type V = Seq<u8>;

    closed spec fn view(&self) -> Seq<u8> {
        self.bytes@
    }
}

impl VrfKey {
    /// Calls `schnorrkel::SecretKey::from_bytes`; claims that it accepts
    /// exactly 64 bytes whose first 32 encode (little-endian) a scalar below
    /// the group order, as its source checks, and that the key it returns is
    /// the one made from those bytes.
    #[verifier::external_body]
    pub(crate) fn from_bytes(bytes: &[u8]) -> (res: Option<VrfKey>)
        ensures
            res is Some <==> is_vrf_secret(bytes@),
            res matches Some(k) ==> k@ == bytes@,
    {
        match schnorrkel::SecretKey::from_bytes(bytes) {
            Ok(key) => Some(VrfKey { key, bytes: Ghost(bytes@) }),
            Err(_) => None,
        }
    }

    /// Calls `schnorrkel::SecretKey::to_bytes`; claims that it gives back the
    /// bytes the key was made from (the scalar is canonical, so it is kept as
    /// read, and the nonce is copied).
    #[verifier::external_body]
    pub(crate) fn to_bytes(&self) -> (res: Vec<u8>)
        ensures
            res@ == self@,
    {
        self.key.to_bytes().to_vec()
    }

    /// Calls `schnorrkel::SecretKey::to_public` and `PublicKey::to_bytes`;
    /// claims that the result is `vrf_public_of` the key's bytes, a function
    /// of those bytes alone.
    #[verifier::external_body]
    pub(crate) fn public_key(&self) -> (res: Vec<u8>)
        ensures
            res@ == vrf_public_of(self@),
    {
        self.key.to_public().to_bytes().to_vec()
    }

    /// The schnorrkel key itself, to hand to the consensus engine.
    pub fn into_secret_key(self) -> schnorrkel::SecretKey {
        self.key
    }
}

/// Why validator key material was refused.
#[derive(Clone, Copy, Debug, PartialEq, Eq, Structural)]
pub enum KeyLoadError {
    /// A key given in hex is not valid hex.
    Hex(HexError),
    /// The VRF secret is not a 64-byte schnorrkel secret key.
    InvalidVrfKey,
}

impl KeyLoadError {
    /// Whether this is the error for a refused VRF secret.
    pub fn is_invalid_vrf_key(&self) -> (res: bool)
        ensures
            res == (*self == KeyLoadError::InvalidVrfKey),
    {
        match self {
            KeyLoadError::InvalidVrfKey => true,
            _ => false,
        }
    }
}

/// A VRF secret key together with the bytes it was read from.
pub struct VrfSecret {
    pub bytes: Vec<u8>,
    pub key: VrfKey,
}

/// What reading a VRF secret from the hex text with bytes `text` gives:
/// the hex error, or the decoded bytes when they are a schnorrkel secret,
/// else the VRF key error.
pub open spec fn vrf_secret_reading(text: Seq<u8>) -> Result<Seq<u8>, KeyLoadError> {
    match hex_decoding(text) {
        Err(e) => Err(KeyLoadError::Hex(e)),
        Ok(bytes) => if is_vrf_secret(bytes) {
            Ok(bytes)
        } else {
            Err(KeyLoadError::InvalidVrfKey)
        },
    }
}

/// Reads the VRF secret key of a validator from its hex text.
pub fn parse_vrf_secret(hex_text: &str) -> (res: Result<VrfSecret, KeyLoadError>)
    ensures
        match res {
            Ok(secret) => {
                &&& vrf_secret_reading(hex_text.spec_bytes()) == Ok::<Seq<u8>, KeyLoadError>(
                    secret.bytes@,
                )
                &&& secret.key@ == secret.bytes@
            },
            Err(e) => vrf_secret_reading(hex_text.spec_bytes()) == Err::<Seq<u8>, KeyLoadError>(
                e,
            ),
        },
{
    let bytes = match hex_decode(hex_text) {
        Ok(b) => b,
        Err(e) => {
            return Err(KeyLoadError::Hex(e));
        },
    };
    match VrfKey::from_bytes(bytes.as_slice()) {
        Some(key) => Ok(VrfSecret { bytes, key }),
        None => Err(KeyLoadError::InvalidVrfKey),
    }
}

/// Reads the signing public key stored (in hex) in a keystore.
pub fn decode_keystore_public_key(hex_text: &str) -> (res: Result<Vec<u8>, KeyLoadError>)
    ensures
        match res {
            Ok(v) => hex_decoding(hex_text.spec_bytes()) == Ok::<Seq<u8>, HexError>(v@),
            Err(e) => exists|h: HexError|
                hex_decoding(hex_text.spec_bytes()) == Err::<Seq<u8>, HexError>(h) && e
                    == KeyLoadError::Hex(h),
        },
{
    match hex_decode(hex_text) {
        Ok(v) => Ok(v),
        Err(e) => Err(KeyLoadError::Hex(e)),
    }
}

} // verus!
