use vstd::prelude::*;
use vstd::string::StringSliceAdditionalSpecFns;

use crate::bootstrap::{
    accounts_map, is_bootstrap_plan, address_text_spec, base_port, keystore_path_spec,
    multiaddr_spec, node_dir_spec, node_files_valid, planned_accounts, validator_account,
    vrf_secrets_valid, secret_views, secrets_distinct, validator_report_spec, BootstrapPlan,
    NodeFiles, ValidatorKeyMaterial,
};
use crate::config::vrf_key_path_spec;
use crate::hex_codec::{
    ascii_bytes, hex_decoding, hex_digit, hex_encoding, law_hex_decoding_ignores_case,
    lemma_hex_digit_value, lemma_hex_round_trip, lemma_hex_text_round_trip, upper_hex_letters,
    HexError,
};
use crate::identity::{p2p_key_path_spec, peer_id_from_stored, peer_id_text};
use crate::keys::{is_vrf_secret, vrf_public_of, vrf_secret_reading, KeyLoadError};
use crate::text::{decimal, decimal_value, digit_char, is_digit_char, lemma_decimal_reads_back};

verus! {

/// The VRF key that bootstrap writes (as hex) is read back by a node as the
/// same secret bytes, accepted exactly when they are a schnorrkel secret.
pub proof fn law_vrf_key_file_round_trip(text: &str, secret: Seq<u8>)
    requires
        text@ == hex_encoding(secret),
    ensures
        vrf_secret_reading(text.spec_bytes()) == (if is_vrf_secret(secret) {
            Ok::<Seq<u8>, KeyLoadError>(secret)
        } else {
            Err::<Seq<u8>, KeyLoadError>(KeyLoadError::InvalidVrfKey)
        }),
{
    lemma_hex_round_trip(text, secret);
}

/// A freshly generated P2P identity, once stored and read back, gives the
/// same peer id.
pub proof fn law_generated_identity_reloads(secret: Seq<u8>, peer_id: Seq<char>)
    requires
        secret.len() == 32,
        peer_id == peer_id_text(secret),
    ensures
        peer_id_from_stored(secret) == Some(peer_id),
{
}

/// Distinct validators get distinct P2P ports.
pub proof fn law_ports_distinct(plan: BootstrapPlan, data_dir: Seq<char>, validators: Seq<ValidatorKeyMaterial>, p2p_secrets: Seq<Seq<u8>>, i: int, j: int)
    requires
        is_bootstrap_plan(plan, data_dir, validators, p2p_secrets),
        0 <= i < validators.len(),
        0 <= j < validators.len(),
        i != j,
    ensures
        plan.nodes@[i].port != plan.nodes@[j].port,
{
    assert(node_files_valid(plan.nodes@[i], data_dir, i as nat, validators[i].vrf_secret_key@, p2p_secrets[i]));
    assert(node_files_valid(plan.nodes@[j], data_dir, j as nat, validators[j].vrf_secret_key@, p2p_secrets[j]));
}

proof fn lemma_decimal_nonempty(n: nat)
    ensures
        decimal(n).len() >= 1,
        n >= 10 ==> decimal(n).len() >= 2,
    decreases n,
{
    if n >= 10 {
        lemma_decimal_nonempty(n / 10);
    }
}

/// Different numbers have different decimal representations.
pub proof fn lemma_decimal_injective(a: nat, b: nat)
    requires
        decimal(a) == decimal(b),
    ensures
        a == b,
    decreases a,
{
    lemma_decimal_nonempty(a);
    lemma_decimal_nonempty(b);
    if a < 10 && b < 10 {
        assert(decimal(a)[0] == digit_char(a));
        assert(decimal(b)[0] == digit_char(b));
    } else if a >= 10 && b >= 10 {
        let da = decimal(a / 10);
        let db = decimal(b / 10);
        assert(decimal(a) == da.push(digit_char(a % 10)));
        assert(decimal(b) == db.push(digit_char(b % 10)));
        assert(da =~= decimal(a).drop_last());
        assert(db =~= decimal(b).drop_last());
        assert(decimal(a).last() == digit_char(a % 10));
        assert(decimal(b).last() == digit_char(b % 10));
        lemma_decimal_injective(a / 10, b / 10);
    }
}

/// Distinct validators get distinct node directories, so no node's key files
/// overwrite another's.
pub proof fn law_node_dirs_distinct(plan: BootstrapPlan, data_dir: Seq<char>, validators: Seq<ValidatorKeyMaterial>, p2p_secrets: Seq<Seq<u8>>, i: int, j: int)
    requires
        is_bootstrap_plan(plan, data_dir, validators, p2p_secrets),
        0 <= i < validators.len(),
        0 <= j < validators.len(),
        i != j,
    ensures
        plan.nodes@[i].dir@ != plan.nodes@[j].dir@,
{
    assert(node_files_valid(plan.nodes@[i], data_dir, i as nat, validators[i].vrf_secret_key@, p2p_secrets[i]));
    assert(node_files_valid(plan.nodes@[j], data_dir, j as nat, validators[j].vrf_secret_key@, p2p_secrets[j]));
    if plan.nodes@[i].dir@ == plan.nodes@[j].dir@ {
        let p = data_dir + "/node-"@;
        let di = decimal(i as nat);
        let dj = decimal(j as nat);
        assert(node_dir_spec(data_dir, i as nat) == p + di);
        assert(node_dir_spec(data_dir, j as nat) == p + dj);
        assert(di =~= (p + di).subrange(p.len() as int, (p + di).len() as int));
        assert(dj =~= (p + dj).subrange(p.len() as int, (p + dj).len() as int));
        lemma_decimal_injective(i as nat, j as nat);
    }
}

/// A node started with the directory that bootstrap made for it as its data
/// directory finds there the P2P key file and the VRF key file bootstrap wrote.
pub proof fn law_node_reads_bootstrap_files(plan: BootstrapPlan, data_dir: Seq<char>, validators: Seq<ValidatorKeyMaterial>, p2p_secrets: Seq<Seq<u8>>, i: int)
    requires
        is_bootstrap_plan(plan, data_dir, validators, p2p_secrets),
        0 <= i < validators.len(),
    ensures
        p2p_key_path_spec(plan.nodes@[i].dir@) == plan.nodes@[i].p2p_key_path@,
        vrf_key_path_spec(plan.nodes@[i].dir@) == plan.nodes@[i].vrf_key_path@,
        keystore_path_spec(plan.nodes@[i].dir@) == plan.nodes@[i].keystore_path@,
        plan.nodes@[i].dir@ == node_dir_spec(data_dir, i as nat),
{
    assert(node_files_valid(plan.nodes@[i], data_dir, i as nat, validators[i].vrf_secret_key@, p2p_secrets[i]));
}

/// The hex text of bytes determines the bytes.
proof fn lemma_hex_encoding_injective(a: Seq<u8>, b: Seq<u8>)
    requires
        hex_encoding(a) == hex_encoding(b),
    ensures
        a == b,
{
    assert(hex_encoding(a).len() == 2 * a.len());
    assert(hex_encoding(b).len() == 2 * b.len());
    assert forall|k: int| 0 <= k < a.len() implies a[k] == b[k] by {
        assert((2 * k) / 2 == k && (2 * k) % 2 == 0);
        assert((2 * k + 1) / 2 == k && (2 * k + 1) % 2 == 1);
        let hi_a = a[k] as int / 16;
        let lo_a = a[k] as int % 16;
        let hi_b = b[k] as int / 16;
        let lo_b = b[k] as int % 16;
        assert(hex_encoding(a)[2 * k] == hex_digit(hi_a));
        assert(hex_encoding(b)[2 * k] == hex_digit(hi_b));
        assert(hex_encoding(a)[2 * k + 1] == hex_digit(lo_a));
        assert(hex_encoding(b)[2 * k + 1] == hex_digit(lo_b));
        lemma_hex_digit_value(hi_a);
        lemma_hex_digit_value(lo_a);
        lemma_hex_digit_value(hi_b);
        lemma_hex_digit_value(lo_b);
        assert(hi_a == hi_b);
        assert(lo_a == lo_b);
        assert(a[k] as int == hi_a * 16 + lo_a);
        assert(b[k] as int == hi_b * 16 + lo_b);
    }
    assert(a =~= b);
}

/// Lookup in the planned accounts when no other validator shares the address.
proof fn lemma_planned_accounts_lookup(
    validators: Seq<ValidatorKeyMaterial>,
    p2p_secrets: Seq<Seq<u8>>,
    k: nat,
    i: int,
)
    requires
        0 <= i < k <= validators.len(),
        forall|a: int, b: int|
            0 <= a < validators.len() && 0 <= b < validators.len() && a != b ==> #[trigger] validators[a].address@
                != #[trigger] validators[b].address@,
    ensures
        planned_accounts(validators, p2p_secrets, k).contains_key(address_text_spec(validators[i].address@)),
        planned_accounts(validators, p2p_secrets, k)[address_text_spec(validators[i].address@)]
            == validator_account(validators[i], i as nat, p2p_secrets[i]),
    decreases k,
{
    if i < k - 1 {
        lemma_planned_accounts_lookup(validators, p2p_secrets, (k - 1) as nat, i);
        let last = (k - 1) as int;
        if address_text_spec(validators[last].address@) == address_text_spec(validators[i].address@) {
            reveal_strlit("0x");
            let hl = hex_encoding(validators[last].address@);
            let hi = hex_encoding(validators[i].address@);
            assert(hl =~= address_text_spec(validators[last].address@).subrange(2, ("0x"@ + hl).len() as int));
            assert(hi =~= address_text_spec(validators[i].address@).subrange(2, ("0x"@ + hi).len() as int));
            lemma_hex_encoding_injective(validators[last].address@, validators[i].address@);
        }
    }
}

/// The genesis account of each validator (when no two validators share an
/// address) announces the multiaddress with the validator's port and the very
/// peer id that its node derives from the P2P key file bootstrap wrote for it.
pub proof fn law_genesis_announces_node_identity(
    plan: BootstrapPlan,
    data_dir: Seq<char>,
    validators: Seq<ValidatorKeyMaterial>,
    p2p_secrets: Seq<Seq<u8>>,
    i: int,
)
    requires
        is_bootstrap_plan(plan, data_dir, validators, p2p_secrets),
        0 <= i < validators.len(),
        forall|a: int, b: int|
            0 <= a < validators.len() && 0 <= b < validators.len() && a != b ==> #[trigger] validators[a].address@
                != #[trigger] validators[b].address@,
    ensures
        peer_id_from_stored(plan.nodes@[i].p2p_secret@) == Some(plan.nodes@[i].peer_id@),
        accounts_map(plan.genesis.accounts@).contains_key(address_text_spec(validators[i].address@)),
        accounts_map(plan.genesis.accounts@)[address_text_spec(validators[i].address@)] == (
            hex_encoding(validators[i].signing_public_key@),
            hex_encoding(plan.nodes@[i].vrf_public_key@),
            multiaddr_spec(base_port() + i as nat, plan.nodes@[i].peer_id@),
        ),
{
    assert(node_files_valid(plan.nodes@[i], data_dir, i as nat, validators[i].vrf_secret_key@, p2p_secrets[i]));
    lemma_planned_accounts_lookup(validators, p2p_secrets, validators.len(), i);
}

/// The VRF key file that bootstrap writes for node `i` reads back (when no
/// two validators share an address) as exactly the validator's VRF secret,
/// and the public key of that secret is the one its genesis account lists.
pub proof fn law_vrf_key_file_matches_genesis(
    plan: BootstrapPlan,
    data_dir: Seq<char>,
    validators: Seq<ValidatorKeyMaterial>,
    p2p_secrets: Seq<Seq<u8>>,
    i: int,
    text: &str,
)
    requires
        is_bootstrap_plan(plan, data_dir, validators, p2p_secrets),
        vrf_secrets_valid(validators),
        0 <= i < validators.len(),
        forall|a: int, b: int|
            0 <= a < validators.len() && 0 <= b < validators.len() && a != b ==> #[trigger] validators[a].address@
                != #[trigger] validators[b].address@,
        text@ == plan.nodes@[i].vrf_key_hex@,
    ensures
        vrf_secret_reading(text.spec_bytes()) == Ok::<Seq<u8>, KeyLoadError>(
            validators[i].vrf_secret_key@,
        ),
        accounts_map(plan.genesis.accounts@)[address_text_spec(validators[i].address@)].1
            == hex_encoding(vrf_public_of(validators[i].vrf_secret_key@)),
{
    assert(node_files_valid(plan.nodes@[i], data_dir, i as nat, validators[i].vrf_secret_key@, p2p_secrets[i]));
    assert(is_vrf_secret(validators[i].vrf_secret_key@));
    law_vrf_key_file_round_trip(text, validators[i].vrf_secret_key@);
    lemma_planned_accounts_lookup(validators, p2p_secrets, validators.len(), i);
}

/// A node's multiaddress is its loopback TCP address followed by its peer
/// id: it begins with `/ip4/127.0.0.1/tcp/`, the digits after that denote
/// the port, and it ends with `/p2p/` and the peer id, whatever the port.
pub proof fn law_multiaddr_parts(port: nat, peer_id: Seq<char>)
    ensures
        ({
            let m = multiaddr_spec(port, peer_id);
            let end = m.len() - peer_id.len() - 5;
            &&& 19 < end
            &&& m.subrange(0, 19) == "/ip4/127.0.0.1/tcp/"@
            &&& m.subrange(end, m.len() as int) == "/p2p/"@ + peer_id
            &&& forall|i: int| 19 <= i < end ==> is_digit_char(#[trigger] m[i])
            &&& decimal_value(m.subrange(19, end)) == port
        }),
{
    reveal_strlit("/ip4/127.0.0.1/tcp/");
    reveal_strlit("/p2p/");
    lemma_decimal_reads_back(port);
    let pre = "/ip4/127.0.0.1/tcp/"@;
    let d = decimal(port);
    let m = multiaddr_spec(port, peer_id);
    let end = m.len() - peer_id.len() - 5;
    assert(m =~= pre + d + "/p2p/"@ + peer_id);
    assert(m.subrange(0, 19) =~= pre);
    assert(m.subrange(end, m.len() as int) =~= "/p2p/"@ + peer_id);
    assert(m.subrange(19, end) =~= d);
    assert forall|i: int| 19 <= i < end implies is_digit_char(#[trigger] m[i]) by {
        assert(m[i] == d[i - 19]);
    }
}

/// The network identity that genesis lists for each validator (when no two
/// share an address) ends with `/p2p/` and the peer id that its node derives
/// from the P2P key file bootstrap wrote for it.
pub proof fn law_genesis_identity_ends_with_node_peer_id(
    plan: BootstrapPlan,
    data_dir: Seq<char>,
    validators: Seq<ValidatorKeyMaterial>,
    p2p_secrets: Seq<Seq<u8>>,
    i: int,
)
    requires
        is_bootstrap_plan(plan, data_dir, validators, p2p_secrets),
        0 <= i < validators.len(),
        forall|a: int, b: int|
            0 <= a < validators.len() && 0 <= b < validators.len() && a != b ==> #[trigger] validators[a].address@
                != #[trigger] validators[b].address@,
    ensures
        ({
            let m = accounts_map(plan.genesis.accounts@)[address_text_spec(validators[i].address@)].2;
            peer_id_from_stored(plan.nodes@[i].p2p_secret@) matches Some(pid) && m.len() >= pid.len()
                + 5 && m.subrange(m.len() - pid.len() - 5, m.len() as int) == "/p2p/"@ + pid
        }),
{
    law_genesis_announces_node_identity(plan, data_dir, validators, p2p_secrets, i);
    law_multiaddr_parts(base_port() + i as nat, plan.nodes@[i].peer_id@);
}

/// Reading a VRF secret depends only on the bytes its hex text denotes: when
/// the text decodes, those bytes are the secret if they are a schnorrkel
/// secret key and are refused otherwise; when it does not, the hex error is
/// reported.
pub proof fn law_vrf_reading_uses_decoded_bytes(text: Seq<u8>)
    ensures
        hex_decoding(text) matches Ok(b) ==> vrf_secret_reading(text) == (if is_vrf_secret(b) {
            Ok::<Seq<u8>, KeyLoadError>(b)
        } else {
            Err::<Seq<u8>, KeyLoadError>(KeyLoadError::InvalidVrfKey)
        }),
        hex_decoding(text) matches Err(e) ==> vrf_secret_reading(text) == Err::<Seq<u8>, KeyLoadError>(
            KeyLoadError::Hex(e),
        ),
{
}

/// A VRF secret written with upper-case hex digits reads the same as with
/// lower-case ones.
pub proof fn law_vrf_reading_ignores_case(text: Seq<u8>)
    ensures
        vrf_secret_reading(upper_hex_letters(text)) == vrf_secret_reading(text),
{
    law_hex_decoding_ignores_case(text);
}

/// Nodes of a bootstrap given pairwise distinct P2P secrets (as
/// `generate_p2p_secrets` draws them) get pairwise distinct secrets.
pub proof fn law_bootstrap_p2p_secrets_distinct(
    plan: BootstrapPlan,
    data_dir: Seq<char>,
    validators: Seq<ValidatorKeyMaterial>,
    secrets: Seq<Vec<u8>>,
    i: int,
    j: int,
)
    requires
        is_bootstrap_plan(plan, data_dir, validators, secret_views(secrets)),
        secrets_distinct(secrets),
        secrets.len() == validators.len(),
        0 <= i < validators.len(),
        0 <= j < validators.len(),
        i != j,
    ensures
        plan.nodes@[i].p2p_secret@ != plan.nodes@[j].p2p_secret@,
{
    assert(node_files_valid(plan.nodes@[i], data_dir, i as nat, validators[i].vrf_secret_key@, secret_views(secrets)[i]));
    assert(node_files_valid(plan.nodes@[j], data_dir, j as nat, validators[j].vrf_secret_key@, secret_views(secrets)[j]));
    assert(secrets[i]@ != secrets[j]@);
}

/// The address line of a validator's report shows the full address, as the
/// text under which genesis lists the validator: its hex digits decode to
/// all the bytes of the address.
pub proof fn law_report_shows_full_address(index: nat, v: ValidatorKeyMaterial, node: NodeFiles)
    ensures
        validator_report_spec(index, v, node)[1] == "  Address:         "@ + address_text_spec(v.address@),
        ({
            let line = validator_report_spec(index, v, node)[1];
            hex_decoding(ascii_bytes(line.subrange(21, line.len() as int))) == Ok::<Seq<u8>, HexError>(
                v.address@,
            )
        }),
{
    reveal_strlit("  Address:         0x");
    reveal_strlit("  Address:         ");
    reveal_strlit("0x");
    let line = validator_report_spec(index, v, node)[1];
    assert(line =~= "  Address:         "@ + address_text_spec(v.address@));
    assert(line.subrange(21, line.len() as int) =~= hex_encoding(v.address@));
    lemma_hex_text_round_trip(v.address@);
}

} // verus!
