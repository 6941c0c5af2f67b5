# e-sequencer-node

The node binary of an Evice sequencer, split into a verified core and a thin
shell.

- `src/` is the library, verified with Verus:
  - `hex_codec` – hex text of key material (over the `hex` crate), with the
    decode-after-encode round trip proved;
  - `identity` – the node's libp2p ed25519 identity: loading the key file,
    generating a key, the peer id, the key file path;
  - `keys` – the VRF (schnorrkel) secret key, whose view is the bytes it was
    made from, reading it from hex, and the keystore public key;
  - `config` – defaults, run mode, where a validator's key material comes from;
  - `bootstrap` – what bootstrap writes: genesis accounts, per-node
    directories, ports, multiaddresses, the printed key report;
  - `node` – startup and shutdown decisions of a running node;
  - `laws` – properties that span several functions, proved;
  - `text` – decimal formatting and path joining.
- `app/` holds `main`, the command line, files, terminal, the async runtime
  and the consensus engine and P2P layer of the `evice_sequencer` library.
- `tests/` runs the library on concrete values.
