use vstd::prelude::*;

use crate::config::{vrf_key_path, vrf_key_path_spec};
use crate::hex_codec::{hex_encode, hex_encoding};
use crate::identity::{ed25519_generate_secret, p2p_key_path, p2p_key_path_spec, peer_id_of, peer_id_text};
use crate::keys::{is_vrf_secret, vrf_public_of, VrfKey};
use crate::text::{concat2, decimal, push_decimal};

verus! {

/// The first P2P port handed out by bootstrap; validator `i` gets this plus `i`.
pub open spec fn base_port() -> nat {
    9000
}

/// The largest number of validators whose ports all fit in a `u16`.
pub open spec fn max_validators() -> nat {
    56536
}

/// The P2P port of validator `index` (counting from zero).
pub fn node_port(index: usize) -> (res: u16)
    requires
        index < max_validators(),
    ensures
        res == base_port() + index,
{
    9000u16 + (index as u16)
}

/// The multiaddress under which a local node with `port` and `peer_id` is reached.
pub open spec fn multiaddr_spec(port: nat, peer_id: Seq<char>) -> Seq<char> {
    "/ip4/127.0.0.1/tcp/"@ + decimal(port) + "/p2p/"@ + peer_id
}

/// The multiaddress under which a local node with `port` and `peer_id` is reached.
pub fn node_multiaddr(port: u16, peer_id: &str) -> (res: String)
    ensures
        res@ == multiaddr_spec(port as nat, peer_id@),
{
    let mut s = String::from_str("/ip4/127.0.0.1/tcp/");
    push_decimal(&mut s, port as u64);
    s.append("/p2p/");
    s.append(peer_id);
    assert(s@ =~= multiaddr_spec(port as nat, peer_id@));
    s
}

/// The directory of validator `index` under the data directory `data_dir`.
pub open spec fn node_dir_spec(data_dir: Seq<char>, index: nat) -> Seq<char> {
    data_dir + "/node-"@ + decimal(index)
}

/// The directory of validator `index` under the data directory `data_dir`.
pub fn node_dir(data_dir: &str, index: usize) -> (res: String)
    ensures
        res@ == node_dir_spec(data_dir@, index as nat),
{
    let mut s = concat2(data_dir, "/node-");
    push_decimal(&mut s, index as u64);
    assert(s@ =~= node_dir_spec(data_dir@, index as nat));
    s
}

/// The path of the keystore in the node directory `dir`.
pub open spec fn keystore_path_spec(dir: Seq<char>) -> Seq<char> {
    dir + "/keystore.json"@
}

/// The path of the keystore in the node directory `dir`.
pub fn keystore_path(dir: &str) -> (res: String)
    ensures
        res@ == keystore_path_spec(dir@),
{
    concat2(dir, "/keystore.json")
}

/// The text of an account address: `0x` and the lower-case hex of its bytes.
pub open spec fn address_text_spec(address: Seq<u8>) -> Seq<char> {
    "0x"@ + hex_encoding(address)
}

/// The text of an account address: `0x` and the lower-case hex of its bytes.
pub fn address_text(address: &[u8]) -> (res: String)
    ensures
        res@ == address_text_spec(address@),
{
    let h = hex_encode(address);
    concat2("0x", h.as_str())
}

/// The key material of one validator, as the key generator produced it.
#[derive(Clone, Debug)]
pub struct ValidatorKeyMaterial {
    /// Public key of the signing key pair.
    pub signing_public_key: Vec<u8>,
    /// Private key of the signing key pair.
    pub signing_private_key: Vec<u8>,
    /// Account address derived from the signing public key.
    pub address: Vec<u8>,
    /// Secret key of the VRF key pair (its public key is derived from it).
    pub vrf_secret_key: Vec<u8>,
}

/// One account of the genesis file, keyed by its address text.
#[derive(Clone, Debug)]
pub struct GenesisAccountEntry {
    pub address: String,
    pub public_key: String,
    pub vrf_public_key: String,
    pub network_identity: String,
}

/// What a genesis account says: public key, VRF public key, network identity.
pub type AccountView = (Seq<char>, Seq<char>, Seq<char>);

/// What the genesis account `e` says.
pub open spec fn account_view(e: GenesisAccountEntry) -> AccountView {
    (e.public_key@, e.vrf_public_key@, e.network_identity@)
}

/// The accounts of a genesis file from its entries in the order they were
/// written: a later entry for an address replaces an earlier one.
pub open spec fn accounts_map(entries: Seq<GenesisAccountEntry>) -> Map<Seq<char>, AccountView>
    decreases entries.len(),
{
    if entries.len() == 0 {
        Map::empty()
    } else {
        accounts_map(entries.drop_last()).insert(
            entries.last().address@,
            account_view(entries.last()),
        )
    }
}

/// Whether no two entries have the same address text.
pub open spec fn addresses_distinct(entries: Seq<GenesisAccountEntry>) -> bool {
    forall|i: int, j: int|
        0 <= i < entries.len() && 0 <= j < entries.len() && i != j ==> #[trigger] entries[i].address@
            != #[trigger] entries[j].address@
}

/// The account that genesis lists for validator `index` whose P2P secret is
/// `p2p_secret`: its public keys in hex and the multiaddress of its node.
pub open spec fn validator_account(
    v: ValidatorKeyMaterial,
    index: nat,
    p2p_secret: Seq<u8>,
) -> AccountView {
    (
        hex_encoding(v.signing_public_key@),
        hex_encoding(vrf_public_of(v.vrf_secret_key@)),
        multiaddr_spec(base_port() + index, peer_id_text(p2p_secret)),
    )
}

/// The accounts of the first `k` validators, with P2P secrets `p2p_secrets`,
/// each inserted under its address text in turn.
pub open spec fn planned_accounts(
    validators: Seq<ValidatorKeyMaterial>,
    p2p_secrets: Seq<Seq<u8>>,
    k: nat,
) -> Map<Seq<char>, AccountView>
    decreases k,
{
    if k == 0 {
        Map::empty()
    } else {
        planned_accounts(validators, p2p_secrets, (k - 1) as nat).insert(
            address_text_spec(validators[k - 1].address@),
            validator_account(validators[k - 1], (k - 1) as nat, p2p_secrets[k - 1]),
        )
    }
}

/// The contents of the genesis file that bootstrap writes.
#[derive(Clone, Debug)]
pub struct GenesisPlan {
    pub genesis_time: u64,
    pub chain_id: String,
    pub sub_committee_size: usize,
    pub proposer_timeout_ms: u64,
    pub accounts: Vec<GenesisAccountEntry>,
}

/// The files that bootstrap writes for one node, and its P2P identity.
#[derive(Clone, Debug)]
pub struct NodeFiles {
    pub dir: String,
    pub port: u16,
    pub p2p_key_path: String,
    pub p2p_secret: Vec<u8>,
    pub peer_id: String,
    pub keystore_path: String,
    pub vrf_key_path: String,
    pub vrf_key_hex: String,
    pub vrf_public_key: Vec<u8>,
}

/// Everything that bootstrap writes: the genesis file and the node files.
#[derive(Clone, Debug)]
pub struct BootstrapPlan {
    pub genesis: GenesisPlan,
    pub nodes: Vec<NodeFiles>,
}

/// The byte views of the secrets `secrets`, in order.
pub open spec fn secret_views(secrets: Seq<Vec<u8>>) -> Seq<Seq<u8>> {
    Seq::new(secrets.len(), |i: int| secrets[i]@)
}

/// Whether `n` is the node of validator `index` with VRF secret `vrf_secret`
/// and P2P secret `p2p_secret` under the data directory `data_dir`.
pub open spec fn node_files_valid(
    n: NodeFiles,
    data_dir: Seq<char>,
    index: nat,
    vrf_secret: Seq<u8>,
    p2p_secret: Seq<u8>,
) -> bool {
    &&& n.dir@ == node_dir_spec(data_dir, index)
    &&& n.port == base_port() + index
    &&& n.p2p_key_path@ == p2p_key_path_spec(n.dir@)
    &&& n.p2p_secret@ == p2p_secret
    &&& p2p_secret.len() == 32
    &&& n.peer_id@ == peer_id_text(p2p_secret)
    &&& n.keystore_path@ == keystore_path_spec(n.dir@)
    &&& n.vrf_key_path@ == vrf_key_path_spec(n.dir@)
    &&& n.vrf_key_hex@ == hex_encoding(vrf_secret)
    &&& n.vrf_public_key@ == vrf_public_of(vrf_secret)
}

/// Whether `plan` is what bootstrap plans for `validators`, with P2P secrets
/// `p2p_secrets`, under `data_dir`.
pub open spec fn is_bootstrap_plan(
    plan: BootstrapPlan,
    data_dir: Seq<char>,
    validators: Seq<ValidatorKeyMaterial>,
    p2p_secrets: Seq<Seq<u8>>,
) -> bool {
    &&& plan.nodes@.len() == validators.len()
    &&& forall|i: int|
        0 <= i < validators.len() ==> node_files_valid(
            #[trigger] plan.nodes@[i],
            data_dir,
            i as nat,
            validators[i].vrf_secret_key@,
            p2p_secrets[i],
        )
    &&& addresses_distinct(plan.genesis.accounts@)
    &&& accounts_map(plan.genesis.accounts@) == planned_accounts(
        validators,
        p2p_secrets,
        validators.len(),
    )
}

/// Entries that differ from `entries` only where `entry` replaced the entry
/// of its address, or at the end where it was added.
proof fn lemma_accounts_map_update(entries: Seq<GenesisAccountEntry>, j: int, e: GenesisAccountEntry)
    requires
        addresses_distinct(entries),
        0 <= j < entries.len(),
        entries[j].address@ == e.address@,
    ensures
        accounts_map(entries.update(j, e)) == accounts_map(entries).insert(
            e.address@,
            account_view(e),
        ),
    decreases entries.len(),
{
    let u = entries.update(j, e);
    if j == entries.len() - 1 {
        assert(u.drop_last() =~= entries.drop_last());
        assert(accounts_map(u) =~= accounts_map(entries).insert(e.address@, account_view(e)));
    } else {
        let d = entries.drop_last();
        assert(u.drop_last() =~= d.update(j, e));
        assert(addresses_distinct(d));
        lemma_accounts_map_update(d, j, e);
        assert(entries.last().address@ != e.address@) by {
            assert(entries[entries.len() - 1].address@ != entries[j].address@);
        }
        assert(accounts_map(u) =~= accounts_map(entries).insert(e.address@, account_view(e)));
    }
}

/// Adds the account `entry`, replacing the entry with the same address.
fn upsert_account(accounts: &mut Vec<GenesisAccountEntry>, entry: GenesisAccountEntry)
    requires
        addresses_distinct(old(accounts)@),
    ensures
        addresses_distinct(final(accounts)@),
        accounts_map(final(accounts)@) == accounts_map(old(accounts)@).insert(
            entry.address@,
            account_view(entry),
        ),
{
    let n = accounts.len();
    let mut j: usize = 0;
    while j < n
        invariant
            n == accounts@.len(),
            accounts@ == old(accounts)@,
            addresses_distinct(accounts@),
            0 <= j <= n,
            forall|k: int| 0 <= k < j ==> #[trigger] accounts@[k].address@ != entry.address@,
        decreases n - j,
    {
        if accounts[j].address == entry.address {
            proof {
                lemma_accounts_map_update(accounts@, j as int, entry);
            }
            let ghost before = accounts@;
            accounts.set(j, entry);
            assert(accounts@ == before.update(j as int, entry));
            return;
        }
        j = j + 1;
    }
    let ghost before = accounts@;
    accounts.push(entry);
    assert(accounts@.drop_last() =~= before);
}

/// Byte `k` (counting from the least significant) of `j`.
pub open spec fn le_byte(j: u64, k: int) -> u8 {
    (j >> ((8 * k) as u64)) as u8
}

/// The secret numbered `j` made from the draw `s`: its first 8 bytes hold
/// `j` (least significant first), the others are those of `s`. Used only
/// when a draw repeats an earlier secret.
pub open spec fn numbered_secret(s: Seq<u8>, j: u64) -> Seq<u8> {
    Seq::new(s.len(), |k: int| if k < 8 { le_byte(j, k) } else { s[k] })
}

/// Whether `c` equals one of `secrets`.
pub open spec fn secret_taken(secrets: Seq<Vec<u8>>, c: Seq<u8>) -> bool {
    exists|i: int| 0 <= i < secrets.len() && (#[trigger] secrets[i])@ == c
}

/// Whether no two of `secrets` are equal.
pub open spec fn secrets_distinct(secrets: Seq<Vec<u8>>) -> bool {
    forall|i: int, j: int|
        0 <= i < secrets.len() && 0 <= j < secrets.len() && i != j ==> (#[trigger] secrets[i])@
            != (#[trigger] secrets[j])@
}

/// Numbers with the same 8 bytes are equal.
proof fn lemma_le_bytes_injective(a: u64, b: u64)
    requires
        forall|k: int| 0 <= k < 8 ==> le_byte(a, k) == le_byte(b, k),
    ensures
        a == b,
{
    assert(le_byte(a, 0) == le_byte(b, 0));
    assert(le_byte(a, 1) == le_byte(b, 1));
    assert(le_byte(a, 2) == le_byte(b, 2));
    assert(le_byte(a, 3) == le_byte(b, 3));
    assert(le_byte(a, 4) == le_byte(b, 4));
    assert(le_byte(a, 5) == le_byte(b, 5));
    assert(le_byte(a, 6) == le_byte(b, 6));
    assert(le_byte(a, 7) == le_byte(b, 7));
    assert(a == b) by (bit_vector)
        requires
            (a >> 0u64) as u8 == (b >> 0u64) as u8,
            (a >> 8u64) as u8 == (b >> 8u64) as u8,
            (a >> 16u64) as u8 == (b >> 16u64) as u8,
            (a >> 24u64) as u8 == (b >> 24u64) as u8,
            (a >> 32u64) as u8 == (b >> 32u64) as u8,
            (a >> 40u64) as u8 == (b >> 40u64) as u8,
            (a >> 48u64) as u8 == (b >> 48u64) as u8,
            (a >> 56u64) as u8 == (b >> 56u64) as u8,
    ;
}

/// If the first `m` numbered secrets made from `s` are all taken, there are
/// at least `m` secrets.
proof fn lemma_taken_numbered_secrets(s: Seq<u8>, secrets: Seq<Vec<u8>>, m: u64)
    requires
        s.len() == 32,
        forall|j: u64| j < m ==> secret_taken(secrets, #[trigger] numbered_secret(s, j)),
    ensures
        m <= secrets.len(),
{
    let xs = vstd::set_lib::set_int_range(0, m as int);
    vstd::set_lib::lemma_int_range(0, m as int);
    let f = |j: int| numbered_secret(s, j as u64);
    assert(vstd::relations::injective_on(f, xs)) by {
        assert forall|a: int, b: int|
            xs.contains(a) && xs.contains(b) && #[trigger] f(a) == #[trigger] f(b) implies a == b by {
            assert forall|k: int| 0 <= k < 8 implies #[trigger] le_byte(a as u64, k) == le_byte(b as u64, k) by {
                assert(f(a)[k] == f(b)[k]);
            }
            lemma_le_bytes_injective(a as u64, b as u64);
        }
    }
    let ys = xs.map(f);
    vstd::set_lib::lemma_map_size(xs, ys, f);
    let views = Seq::new(secrets.len(), |i: int| secrets[i]@);
    assert(ys.subset_of(views.to_set())) by {
        assert forall|c: Seq<u8>| ys.contains(c) implies views.to_set().contains(c) by {
            let j = choose|j: int| xs.contains(j) && f(j) == c;
            assert(secret_taken(secrets, numbered_secret(s, j as u64)));
            let i = choose|i: int| 0 <= i < secrets.len() && (#[trigger] secrets[i])@ == numbered_secret(s, j as u64);
            assert(views[i] == c);
        }
    }
    views.lemma_cardinality_of_set();
    vstd::set_lib::lemma_len_subset(ys, views.to_set());
}

/// Whether two byte strings are equal.
fn bytes_equal(a: &Vec<u8>, b: &Vec<u8>) -> (res: bool)
    ensures
        res == (a@ == b@),
{
    if a.len() != b.len() {
        return false;
    }
    let mut k: usize = 0;
    while k < a.len()
        invariant
            a@.len() == b@.len(),
            0 <= k <= a@.len(),
            forall|t: int| 0 <= t < k ==> a@[t] == b@[t],
        decreases a@.len() - k,
    {
        if a[k] != b[k] {
            return false;
        }
        k = k + 1;
    }
    assert(a@ =~= b@);
    true
}

/// Whether `c` equals one of `secrets`.
fn is_taken(secrets: &Vec<Vec<u8>>, c: &Vec<u8>) -> (res: bool)
    ensures
        res == secret_taken(secrets@, c@),
{
    let mut i: usize = 0;
    while i < secrets.len()
        invariant
            0 <= i <= secrets@.len(),
            forall|t: int| 0 <= t < i ==> (#[trigger] secrets@[t])@ != c@,
        decreases secrets@.len() - i,
    {
        if bytes_equal(&secrets[i], c) {
            return true;
        }
        i = i + 1;
    }
    false
}

/// The secret numbered `j` made from the 32-byte draw `s`.
fn numbered(s: &Vec<u8>, j: u64) -> (res: Vec<u8>)
    requires
        s@.len() == 32,
    ensures
        res@ == numbered_secret(s@, j),
{
    let mut c = s.clone();
    let mut k: usize = 0;
    while k < 8
        invariant
            c@.len() == 32,
            0 <= k <= 8,
            forall|t: int| 0 <= t < k ==> c@[t] == le_byte(j, t),
            forall|t: int| k <= t < 32 ==> c@[t] == s@[t],
        decreases 8 - k,
    {
        c.set(k, (j >> ((8 * k) as u64)) as u8);
        k = k + 1;
    }
    assert(c@ =~= numbered_secret(s@, j));
    c
}

/// A 32-byte secret that is none of `secrets`: the fresh draw `s` itself
/// unless it repeats one of them, else the first numbered secret made from
/// `s` that is free.
fn unused_secret(secrets: &Vec<Vec<u8>>, s: Vec<u8>) -> (res: Vec<u8>)
    requires
        s@.len() == 32,
        secrets@.len() < u64::MAX,
    ensures
        res@.len() == 32,
        !secret_taken(secrets@, res@),
        !secret_taken(secrets@, s@) ==> res@ == s@,
{
    if !is_taken(secrets, &s) {
        return s;
    }
    let n: u64 = secrets.len() as u64;
    let mut j: u64 = 0;
    loop
        invariant
            s@.len() == 32,
            n == secrets@.len(),
            n < u64::MAX,
            secret_taken(secrets@, s@),
            j <= n,
            forall|t: u64| t < j ==> secret_taken(secrets@, #[trigger] numbered_secret(s@, t)),
        decreases n - j,
    {
        let c = numbered(&s, j);
        if !is_taken(secrets, &c) {
            return c;
        }
        proof {
            assert forall|t: u64| t < j + 1 implies secret_taken(secrets@, #[trigger] numbered_secret(s@, t)) by {
                if t == j {
                    assert(c@ == numbered_secret(s@, j));
                }
            }
            lemma_taken_numbered_secrets(s@, secrets@, (j + 1) as u64);
        }
        j = j + 1;
    }
}

/// Draws a fresh P2P secret for each of `count` nodes; no two nodes get the
/// same secret (a draw that repeats an earlier one, which chance all but
/// rules out, is replaced by a free secret made from it).
pub fn generate_p2p_secrets(count: usize) -> (res: Vec<Vec<u8>>)
    ensures
        res@.len() == count,
        forall|i: int| 0 <= i < count ==> (#[trigger] res@[i])@.len() == 32,
        secrets_distinct(res@),
{
    let mut secrets: Vec<Vec<u8>> = Vec::new();
    let mut i: usize = 0;
    while i < count
        invariant
            0 <= i <= count,
            secrets@.len() == i,
            forall|k: int| 0 <= k < i ==> (#[trigger] secrets@[k])@.len() == 32,
            secrets_distinct(secrets@),
        decreases count - i,
    {
        let drawn = ed25519_generate_secret();
        assert(secrets@.len() < u64::MAX);
        let s = unused_secret(&secrets, drawn);
        let ghost before = secrets@;
        secrets.push(s);
        assert forall|a: int, b: int|
            0 <= a < secrets@.len() && 0 <= b < secrets@.len() && a != b implies (#[trigger] secrets@[a])@
                != (#[trigger] secrets@[b])@ by {
            if a == i as int {
                assert(before[b] == secrets@[b]);
                if before[b]@ == s@ {
                    assert(secret_taken(before, s@));
                }
            } else if b == i as int {
                assert(before[a] == secrets@[a]);
                if before[a]@ == s@ {
                    assert(secret_taken(before, s@));
                }
            } else {
                assert(before[a] == secrets@[a]);
                assert(before[b] == secrets@[b]);
            }
        }
        i = i + 1;
    }
    secrets
}

/// Whether every validator's VRF secret is a schnorrkel secret key (as the
/// bytes of a generated key always are).
pub open spec fn vrf_secrets_valid(validators: Seq<ValidatorKeyMaterial>) -> bool {
    forall|i: int| 0 <= i < validators.len() ==> is_vrf_secret(#[trigger] validators[i].vrf_secret_key@)
}

/// Plans what bootstrap writes for `validators` under `data_dir`, node `i`
/// getting the P2P secret `p2p_secrets[i]`: port `9000 + i`, its node
/// directory `data_dir/node-i` with the P2P key file, keystore and VRF key
/// (in hex); the genesis file lists each validator under its address text
/// with its public keys in hex (the VRF one derived from its VRF secret) and
/// its multiaddress, chain `evice-sequencer-v1`, a committee of all
/// validators and a proposer timeout of 3000 ms.
pub fn plan_bootstrap(
    genesis_time: u64,
    data_dir: &str,
    validators: &Vec<ValidatorKeyMaterial>,
    p2p_secrets: &Vec<Vec<u8>>,
) -> (plan: BootstrapPlan)
    requires
        validators@.len() <= max_validators(),
        p2p_secrets@.len() == validators@.len(),
        forall|i: int| 0 <= i < p2p_secrets@.len() ==> (#[trigger] p2p_secrets@[i])@.len() == 32,
        vrf_secrets_valid(validators@),
    ensures
        is_bootstrap_plan(plan, data_dir@, validators@, secret_views(p2p_secrets@)),
        plan.genesis.genesis_time == genesis_time,
        plan.genesis.chain_id@ == "evice-sequencer-v1"@,
        plan.genesis.sub_committee_size == validators@.len(),
        plan.genesis.proposer_timeout_ms == 3000,
{
    let n = validators.len();
    let ghost secrets = secret_views(p2p_secrets@);
    let mut accounts: Vec<GenesisAccountEntry> = Vec::new();
    let mut nodes: Vec<NodeFiles> = Vec::new();
    let mut i: usize = 0;
    while i < n
        invariant
            n == validators@.len(),
            n == p2p_secrets@.len(),
            n <= max_validators(),
            secrets == secret_views(p2p_secrets@),
            forall|k: int| 0 <= k < n ==> (#[trigger] p2p_secrets@[k])@.len() == 32,
            vrf_secrets_valid(validators@),
            0 <= i <= n,
            nodes@.len() == i,
            forall|k: int|
                0 <= k < i ==> node_files_valid(
                    #[trigger] nodes@[k],
                    data_dir@,
                    k as nat,
                    validators@[k].vrf_secret_key@,
                    secrets[k],
                ),
            addresses_distinct(accounts@),
            accounts_map(accounts@) == planned_accounts(validators@, secrets, i as nat),
        decreases n - i,
    {
        let v = &validators[i];
        let secret = p2p_secrets[i].clone();
        assert(secret@ == secrets[i as int]);
        assert(is_vrf_secret(validators@[i as int].vrf_secret_key@));
        let vrf_public_key = match VrfKey::from_bytes(v.vrf_secret_key.as_slice()) {
            Some(k) => k.public_key(),
            None => {
                assert(false);
                Vec::new()
            },
        };
        let peer_id = peer_id_of(&secret);
        let port = node_port(i);
        let entry = GenesisAccountEntry {
            address: address_text(v.address.as_slice()),
            public_key: hex_encode(v.signing_public_key.as_slice()),
            vrf_public_key: hex_encode(vrf_public_key.as_slice()),
            network_identity: node_multiaddr(port, peer_id.as_str()),
        };
        let dir = node_dir(data_dir, i);
        let files = NodeFiles {
            p2p_key_path: p2p_key_path(dir.as_str()),
            keystore_path: keystore_path(dir.as_str()),
            vrf_key_path: vrf_key_path(dir.as_str()),
            vrf_key_hex: hex_encode(v.vrf_secret_key.as_slice()),
            dir,
            port,
            p2p_secret: secret,
            peer_id,
            vrf_public_key,
        };
        upsert_account(&mut accounts, entry);
        nodes.push(files);
        i = i + 1;
    }
    let genesis = GenesisPlan {
        genesis_time,
        chain_id: String::from_str("evice-sequencer-v1"),
        sub_committee_size: n,
        proposer_timeout_ms: 3000,
        accounts,
    };
    BootstrapPlan { genesis, nodes }
}

/// The lines that bootstrap prints about validator `index` (counting from
/// zero; it is shown counting from one).
pub open spec fn validator_report_spec(index: nat, v: ValidatorKeyMaterial, node: NodeFiles) -> Seq<Seq<char>> {
    seq![
        "\n─── Validator "@ + decimal(index + 1) + " ───"@,
        "  Address:         0x"@ + hex_encoding(v.address@),
        "  Signing PubKey:  0x"@ + hex_encoding(v.signing_public_key@),
        "  Signing PrivKey: 0x"@ + hex_encoding(v.signing_private_key@),
        "  VRF PubKey:      0x"@ + hex_encoding(node.vrf_public_key@),
        "  VRF PrivKey:     0x"@ + hex_encoding(v.vrf_secret_key@),
        "  P2P PeerId:      "@ + node.peer_id@,
        "  P2P Port:        "@ + decimal(base_port() + index),
    ]
}

/// The lines that bootstrap prints about validator `index` whose node is
/// `node`: its number, address, keys in hex and P2P identity.
pub fn validator_report(index: usize, v: &ValidatorKeyMaterial, node: &NodeFiles) -> (res: Vec<String>)
    requires
        index < max_validators(),
    ensures
        res@.len() == 8,
        forall|k: int| 0 <= k < 8 ==> #[trigger] res@[k]@ == validator_report_spec(index as nat, *v, *node)[k],
{
    let mut lines: Vec<String> = Vec::new();
    let mut title = String::from_str("\n─── Validator ");
    push_decimal(&mut title, (index + 1) as u64);
    title.append(" ───");
    lines.push(title);
    lines.push(concat2("  Address:         0x", hex_encode(v.address.as_slice()).as_str()));
    lines.push(concat2("  Signing PubKey:  0x", hex_encode(v.signing_public_key.as_slice()).as_str()));
    lines.push(concat2("  Signing PrivKey: 0x", hex_encode(v.signing_private_key.as_slice()).as_str()));
    lines.push(concat2("  VRF PubKey:      0x", hex_encode(node.vrf_public_key.as_slice()).as_str()));
    lines.push(concat2("  VRF PrivKey:     0x", hex_encode(v.vrf_secret_key.as_slice()).as_str()));
    lines.push(concat2("  P2P PeerId:      ", node.peer_id.as_str()));
    let mut port_line = String::from_str("  P2P Port:        ");
    push_decimal(&mut port_line, (9000 + index) as u64);
    lines.push(port_line);
    let ghost spec_lines = validator_report_spec(index as nat, *v, *node);
    assert(lines@[0]@ =~= spec_lines[0]);
    assert(lines@[7]@ =~= spec_lines[7]);
    lines
}

} // verus!
