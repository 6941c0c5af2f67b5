use vstd::prelude::*;

use crate::text::{is_plain_component, joined_path, path_join};

verus! {

/// The error `libp2p` reports for key bytes it cannot decode.
#[verifier::external_type_specification]
#[verifier::external_body]
pub struct ExDecodingError(libp2p::identity::DecodingError);

/// The text form (base58 of the identity multihash) of the libp2p `PeerId`
/// of the ed25519 key pair whose 32-byte secret is `secret`.
pub uninterp spec fn peer_id_text(secret: Seq<u8>) -> Seq<char>;

/// Calls `libp2p::identity::ed25519::SecretKey::try_from_bytes`; claims that
/// it succeeds exactly on 32 bytes and then keeps those bytes as the secret.
#[verifier::external_body]
fn ed25519_secret_from_bytes(bytes: Vec<u8>) -> (res: Result<Vec<u8>, libp2p::identity::DecodingError>)
    ensures
        res is Ok <==> bytes@.len() == 32,
        res matches Ok(secret) ==> secret@ == bytes@,
{
    let mut bytes = bytes;
    let secret = libp2p::identity::ed25519::SecretKey::try_from_bytes(&mut bytes)?;
    Ok(secret.as_ref().to_vec())
}

/// Calls `libp2p::identity::ed25519::Keypair::generate`; claims only that the
/// secret of the fresh key pair has 32 bytes (which bytes is chance).
#[verifier::external_body]
pub(crate) fn ed25519_generate_secret() -> (res: Vec<u8>)
    ensures
        res@.len() == 32,
{
    libp2p::identity::ed25519::Keypair::generate().secret().as_ref().to_vec()
}

/// Calls `libp2p::PeerId::from` on the public key of the ed25519 key pair made
/// from the 32-byte `secret`, and formats it; claims that the text is
/// `peer_id_text(secret)`, a function of the secret alone.
#[verifier::external_body]
pub(crate) fn peer_id_of(secret: &Vec<u8>) -> (res: String)
    requires
        secret@.len() == 32,
    ensures
        res@ == peer_id_text(secret@),
{
    let mut bytes = secret.clone();
    let sk = libp2p::identity::ed25519::SecretKey::try_from_bytes(&mut bytes).unwrap();
    let kp = libp2p::identity::Keypair::from(libp2p::identity::ed25519::Keypair::from(sk));
    libp2p::PeerId::from(kp.public()).to_string()
}

/// Where the P2P secret of a node came from.
#[derive(Clone, Copy, Debug, PartialEq, Eq, Structural)]
pub enum P2pKeyOrigin {
    /// Read from the key file in the data directory.
    Loaded,
    /// Freshly generated; the caller is to store it in the key file.
    Generated,
}

/// The P2P identity of a node: its ed25519 secret and its peer id.
#[derive(Debug)]
pub struct P2pIdentity {
    pub secret: Vec<u8>,
    pub peer_id: String,
    pub origin: P2pKeyOrigin,
}

/// Why a stored P2P key was refused.
#[derive(Debug)]
pub enum P2pKeyError {
    /// The key file does not hold a 32-byte ed25519 secret.
    Corrupt(libp2p::identity::DecodingError),
}

/// The peer id that a node derives from the stored key file contents
/// `stored`, or `None` when those contents are refused.
pub open spec fn peer_id_from_stored(stored: Seq<u8>) -> Option<Seq<char>> {
    if stored.len() == 32 {
        Some(peer_id_text(stored))
    } else {
        None
    }
}

/// The P2P identity of a node from the contents of its key file, if one
/// exists: the stored 32 bytes are the secret; any other length is refused
/// as corrupt. Without a key file a new secret is generated.
pub fn resolve_p2p_identity(stored: Option<Vec<u8>>) -> (res: Result<P2pIdentity, P2pKeyError>)
    ensures
        match stored {
            Some(bytes) => match res {
                Ok(id) => {
                    &&& bytes@.len() == 32
                    &&& id.secret@ == bytes@
                    &&& id.origin == P2pKeyOrigin::Loaded
                    &&& Some(id.peer_id@) == peer_id_from_stored(bytes@)
                },
                Err(_) => peer_id_from_stored(bytes@) is None,
            },
            None => match res {
                Ok(id) => {
                    &&& id.secret@.len() == 32
                    &&& id.origin == P2pKeyOrigin::Generated
                    &&& id.peer_id@ == peer_id_text(id.secret@)
                },
                Err(_) => false,
            },
        },
{
    match stored {
        Some(bytes) => match ed25519_secret_from_bytes(bytes) {
            Ok(secret) => {
                let peer_id = peer_id_of(&secret);
                Ok(P2pIdentity { secret, peer_id, origin: P2pKeyOrigin::Loaded })
            },
            Err(e) => Err(P2pKeyError::Corrupt(e)),
        },
        None => {
            let secret = ed25519_generate_secret();
            let peer_id = peer_id_of(&secret);
            Ok(P2pIdentity { secret, peer_id, origin: P2pKeyOrigin::Generated })
        },
    }
}

/// The path of the P2P key file in the data directory `dir`.
pub open spec fn p2p_key_path_spec(dir: Seq<char>) -> Seq<char> {
    joined_path(dir, "p2p_keypair"@)
}

/// The path of the P2P key file in the data directory `data_dir`.
pub fn p2p_key_path(data_dir: &str) -> (res: String)
    ensures
        res@ == p2p_key_path_spec(data_dir@),
{
    let name = "p2p_keypair";
    proof {
        reveal_strlit("p2p_keypair");
    }
    assert(is_plain_component(name@));
    path_join(data_dir, name)
}

} // verus!
