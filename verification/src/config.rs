use vstd::prelude::*;

use crate::text::concat2;

verus! {

/// Number of validators that bootstrap generates when none is given.
pub fn default_num_validators() -> (res: usize)
    ensures
        res == 6,
{
    6
}

/// P2P listening port of a node when none is given.
pub fn default_p2p_port() -> (res: u16)
    ensures
        res == 9000,
{
    9000
}

/// Path of the genesis file when none is given.
pub fn default_genesis_path() -> (res: String)
    ensures
        res@ == "genesis.json"@,
{
    String::from_str("genesis.json")
}

/// Data directory of a node when none is given.
pub fn default_data_dir() -> (res: String)
    ensures
        res@ == "./node_data"@,
{
    String::from_str("./node_data")
}

/// Password of the keystores that bootstrap writes.
pub fn dev_keystore_password() -> (res: String)
    ensures
        res@ == "dev-password"@,
{
    String::from_str("dev-password")
}

/// What one run of the binary does.
#[derive(Clone, Copy, Debug, PartialEq, Eq, Structural)]
pub enum RunMode {
    /// Print the node's peer id and exit.
    PrintPeerId,
    /// Generate genesis and validator keys and exit.
    Bootstrap,
    /// Run a sequencer node.
    Node,
}

/// The mode of a run: printing the peer id takes precedence over bootstrap,
/// which takes precedence over running a node.
pub fn select_mode(get_peer_id: bool, bootstrap: bool) -> (res: RunMode)
    ensures
        res == (if get_peer_id {
            RunMode::PrintPeerId
        } else if bootstrap {
            RunMode::Bootstrap
        } else {
            RunMode::Node
        }),
{
    if get_peer_id {
        RunMode::PrintPeerId
    } else if bootstrap {
        RunMode::Bootstrap
    } else {
        RunMode::Node
    }
}

/// Where the VRF secret key of a validator comes from.
#[derive(Clone, Debug, PartialEq, Eq)]
pub enum VrfKeySource {
    /// Given in hex on the command line or in the environment.
    Given(String),
    /// To be read (as hex text) from the file at this path.
    File(String),
}

/// Where the keystore password comes from.
#[derive(Clone, Debug, PartialEq, Eq)]
pub enum PasswordSource {
    /// Given on the command line or in the environment.
    Given(String),
    /// To be asked for at the terminal.
    Prompt,
}

/// Where each piece of a validator's key material comes from.
#[derive(Clone, Debug)]
pub struct KeySources {
    pub keystore_path: String,
    pub vrf: VrfKeySource,
    pub password: PasswordSource,
}

/// Why the key material of a validator cannot be located.
#[derive(Clone, Copy, Debug, PartialEq, Eq, Structural)]
pub enum KeySourceError {
    /// No keystore path was given.
    MissingKeystorePath,
}

/// The path of the VRF secret key file in the data directory `dir`.
pub open spec fn vrf_key_path_spec(dir: Seq<char>) -> Seq<char> {
    dir + "/vrf_private_key"@
}

/// The path of the VRF secret key file in the data directory `data_dir`.
pub fn vrf_key_path(data_dir: &str) -> (res: String)
    ensures
        res@ == vrf_key_path_spec(data_dir@),
{
    concat2(data_dir, "/vrf_private_key")
}

/// Locates a validator's key material: the keystore path must be given; the
/// VRF key is the one given, else the file in the data directory; the
/// password is the one given, else it is asked for.
pub fn resolve_key_sources(
    keystore_path: Option<String>,
    vrf_priv_key: Option<String>,
    password: Option<String>,
    data_dir: &str,
) -> (res: Result<KeySources, KeySourceError>)
    ensures
        match keystore_path {
            None => res == Err::<KeySources, KeySourceError>(KeySourceError::MissingKeystorePath),
            Some(path) => match res {
                Err(_) => false,
                Ok(src) => {
                    &&& src.keystore_path@ == path@
                    &&& match vrf_priv_key {
                        Some(k) => src.vrf matches VrfKeySource::Given(g) && g@ == k@,
                        None => src.vrf matches VrfKeySource::File(f) && f@ == vrf_key_path_spec(
                            data_dir@,
                        ),
                    }
                    &&& match password {
                        Some(p) => src.password matches PasswordSource::Given(g) && g@ == p@,
                        None => src.password is Prompt,
                    }
                },
            },
        },
{
    let keystore_path = match keystore_path {
        Some(p) => p,
        None => {
            return Err(KeySourceError::MissingKeystorePath);
        },
    };
    let vrf = match vrf_priv_key {
        Some(k) => VrfKeySource::Given(k),
        None => VrfKeySource::File(vrf_key_path(data_dir)),
    };
    let password = match password {
        Some(p) => PasswordSource::Given(p),
        None => PasswordSource::Prompt,
    };
    Ok(KeySources { keystore_path, vrf, password })
}

} // verus!
