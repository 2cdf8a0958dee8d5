# signal_setup

Registers a Signal account without a smartphone and links Signal Desktop to
it.

The library in `src/` is written in Verus and proved: the protobuf encoding
of the provisioning messages, the provisioning cipher's framing, the parsing
of `sgnl://linkdevice` URIs, the registration, linking, username and relay
flows as state machines (each step maps a state and a reply to the next
request or the outcome), the bookkeeping of saved accounts, Signal Desktop
profile naming, the offline demo backend, the QR-decoding attempt order and
the setup wizard's state machine. Cryptographic primitives, base64 and the
random number generator come from their crates through small trusted
wrappers in `src/crypto.rs`.

`app/` is the command-line front end: HTTPS with a pinned certificate,
files and keyring, launching Signal Desktop, and the Signal Protocol work
done by Signal's own libraries (identity key pairs, sessions, the profile key
commitment and the encrypted profile fields). `tests/` exercise the library.

Modules:

- `proto`: protobuf wire encoding of `ProvisionMessage`, `ProvisionEnvelope`
  and the sync message.
- `crypto`: base64, UUID parsing, X25519/HKDF/AES-CBC/HMAC wrappers, the
  provisioning cipher, password generation.
- `uri`, `pem`, `text`: device URIs, PEM certificates, decimal text.
- `http`, `register`, `link`, `username`, `relays`: the network flows.
- `types`, `persistence`, `desktop`, `demo`, `qr`, `wizard`: accounts,
  saved state, Desktop profiles, demo backend, QR attempts, the wizard.
