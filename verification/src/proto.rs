//! Protobuf wire encoding of the messages exchanged while linking a device.
//!
//! Every message here uses proto2 `optional` fields: a present field is
//! written as its key followed by its payload, an absent field is not written
//! at all, and fields appear in ascending tag order.

use vstd::prelude::*;
use vstd::utf8::encode_utf8;

verus! {

/// Base-128 little-endian varint encoding of `v`.
pub open spec fn varint_spec(v: nat) -> Seq<u8>
    decreases v,
{
    if v < 128 {
        seq![v as u8]
    } else {
        seq![(v % 128 + 128) as u8] + varint_spec(v / 128)
    }
}

/// A varint is at least one byte and at most one byte more than its value.
pub proof fn lemma_varint_len_bound(v: nat)
    ensures
        1 <= varint_spec(v).len() <= v + 1,
    decreases v,
{
    if v >= 128 {
        lemma_varint_len_bound(v / 128);
    }
}

/// The number that varint bytes stand for: seven bits per byte, least
/// significant group first.
pub open spec fn varint_value(b: Seq<u8>) -> nat
    decreases b.len(),
{
    if b.len() == 0 {
        0
    } else {
        (b[0] % 128) as nat + 128 * varint_value(b.drop_first())
    }
}

/// A varint reads back as the number it encodes: every byte but the last
/// has its high bit set, the last has it clear, and the seven-bit groups,
/// least significant first, make up the number.
pub proof fn lemma_varint_decodes(v: nat)
    ensures
        varint_value(varint_spec(v)) == v,
        varint_spec(v).len() >= 1,
        varint_spec(v).last() < 128,
        forall|i: int| 0 <= i < varint_spec(v).len() - 1 ==> varint_spec(v)[i] >= 128,
    decreases v,
{
    if v >= 128 {
        lemma_varint_decodes(v / 128);
        let rest = varint_spec(v / 128);
        let b = varint_spec(v);
        assert(b == seq![(v % 128 + 128) as u8] + rest);
        assert(b.drop_first() =~= rest);
        assert(b[0] % 128 == v % 128);
        assert(v == v % 128 + 128 * (v / 128)) by (nonlinear_arith);
        assert forall|i: int| 0 <= i < b.len() - 1 implies b[i] >= 128 by {
            if i > 0 {
                assert(b[i] == rest[i - 1]);
            }
        }
        assert(varint_value(b) == (b[0] % 128) as nat + 128 * varint_value(rest));
    } else {
        let b = varint_spec(v);
        assert(b.drop_first() =~= Seq::<u8>::empty());
        assert(varint_value(b.drop_first()) == 0);
        assert(varint_value(b) == (b[0] % 128) as nat);
    }
}

/// The key of a field: its tag shifted left by three bits, ored with the wire type.
pub open spec fn key_spec(tag: nat, wire: nat) -> Seq<u8> {
    varint_spec(tag * 8 + wire)
}

/// Appends the varint encoding of `v` to `out`.
pub fn encode_varint(v: u64, out: &mut Vec<u8>)
    ensures
        final(out)@ == old(out)@ + varint_spec(v as nat),
{
    let mut x: u64 = v;
    while x >= 128
        invariant
            out@ + varint_spec(x as nat) == old(out)@ + varint_spec(v as nat),
        decreases x,
    {
        let ghost before = out@;
        out.push((x % 128 + 128) as u8);
        assert(before + varint_spec(x as nat) == out@ + varint_spec((x / 128) as nat));
        x = x / 128;
    }
    out.push(x as u8);
}

/// A length-delimited field: key with wire type 2, payload length, payload.
pub open spec fn len_delimited_spec(tag: nat, data: Seq<u8>) -> Seq<u8> {
    key_spec(tag, 2) + varint_spec(data.len()) + data
}

/// An optional `bytes` field.
pub open spec fn opt_bytes_spec(tag: nat, o: Option<Seq<u8>>) -> Seq<u8> {
    match o {
        Some(d) => len_delimited_spec(tag, d),
        None => Seq::empty(),
    }
}

/// An optional `string` field: its UTF-8 bytes, length-delimited.
pub open spec fn opt_string_spec(tag: nat, o: Option<Seq<char>>) -> Seq<u8> {
    match o {
        Some(s) => len_delimited_spec(tag, encode_utf8(s)),
        None => Seq::empty(),
    }
}

/// An optional `bool` field: wire type 0, value 1 or 0.
pub open spec fn opt_bool_spec(tag: nat, o: Option<bool>) -> Seq<u8> {
    match o {
        Some(b) => key_spec(tag, 0) + varint_spec(if b { 1 } else { 0 }),
        None => Seq::empty(),
    }
}

/// An optional `uint32` field: wire type 0, the value as a varint.
pub open spec fn opt_uint32_spec(tag: nat, o: Option<u32>) -> Seq<u8> {
    match o {
        Some(v) => key_spec(tag, 0) + varint_spec(v as nat),
        None => Seq::empty(),
    }
}

/// Appends `data` to `out`.
pub fn append_bytes(out: &mut Vec<u8>, data: &[u8])
    ensures
        final(out)@ == old(out)@ + data@,
{
    let mut i: usize = 0;
    while i < data.len()
        invariant
            i <= data@.len(),
            out@ == old(out)@ + data@.subrange(0, i as int),
        decreases data@.len() - i,
    {
        out.push(data[i]);
        assert(data@.subrange(0, i + 1) == data@.subrange(0, i as int).push(data@[i as int]));
        i = i + 1;
    }
    assert(data@.subrange(0, data@.len() as int) == data@);
}

/// Appends the key of field `tag` with wire type `wire`.
pub fn encode_key(tag: u32, wire: u32, out: &mut Vec<u8>)
    requires
        wire < 8,
    ensures
        final(out)@ == old(out)@ + key_spec(tag as nat, wire as nat),
{
    let k: u64 = (tag as u64) * 8 + (wire as u64);
    encode_varint(k, out);
}

/// Appends a length-delimited field holding `data`.
pub fn encode_len_delimited(tag: u32, data: &[u8], out: &mut Vec<u8>)
    ensures
        final(out)@ == old(out)@ + len_delimited_spec(tag as nat, data@),
{
    encode_key(tag, 2, out);
    encode_varint(data.len() as u64, out);
    append_bytes(out, data);
    assert(final(out)@ == old(out)@ + len_delimited_spec(tag as nat, data@));
}

/// Appends an optional `bytes` field.
pub fn encode_opt_bytes(tag: u32, o: &Option<Vec<u8>>, out: &mut Vec<u8>)
    ensures
        final(out)@ == old(out)@ + opt_bytes_spec(tag as nat, o.deep_view()),
{
    match o {
        Some(d) => encode_len_delimited(tag, d.as_slice(), out),
        None => {
            assert(out@ == old(out)@ + Seq::<u8>::empty());
        },
    }
}

/// Appends an optional `string` field.
pub fn encode_opt_string(tag: u32, o: &Option<String>, out: &mut Vec<u8>)
    ensures
        final(out)@ == old(out)@ + opt_string_spec(tag as nat, o.deep_view()),
{
    match o {
        Some(s) => encode_len_delimited(tag, s.as_str().as_bytes(), out),
        None => {
            assert(out@ == old(out)@ + Seq::<u8>::empty());
        },
    }
}

/// Appends an optional `bool` field.
pub fn encode_opt_bool(tag: u32, o: Option<bool>, out: &mut Vec<u8>)
    ensures
        final(out)@ == old(out)@ + opt_bool_spec(tag as nat, o),
{
    match o {
        Some(b) => {
            encode_key(tag, 0, out);
            encode_varint(if b { 1 } else { 0 }, out);
            assert(final(out)@ == old(out)@ + opt_bool_spec(tag as nat, o));
        },
        None => {
            assert(out@ == old(out)@ + Seq::<u8>::empty());
        },
    }
}

/// Appends an optional `uint32` field.
pub fn encode_opt_uint32(tag: u32, o: Option<u32>, out: &mut Vec<u8>)
    ensures
        final(out)@ == old(out)@ + opt_uint32_spec(tag as nat, o),
{
    match o {
        Some(v) => {
            encode_key(tag, 0, out);
            encode_varint(v as u64, out);
            assert(final(out)@ == old(out)@ + opt_uint32_spec(tag as nat, o));
        },
        None => {
            assert(out@ == old(out)@ + Seq::<u8>::empty());
        },
    }
}

/// Signal's provisioning message, sent by a primary device to a secondary
/// device. Field numbers follow `Provisioning.proto`.
pub struct ProvisionMessage {
    pub aci_identity_key_public: Option<Vec<u8>>,
    pub aci_identity_key_private: Option<Vec<u8>>,
    pub number: Option<String>,
    pub provisioning_code: Option<String>,
    pub user_agent: Option<String>,
    pub profile_key: Option<Vec<u8>>,
    pub read_receipts: Option<bool>,
    pub aci: Option<String>,
    pub provisioning_version: Option<u32>,
    pub pni: Option<String>,
    pub pni_identity_key_public: Option<Vec<u8>>,
    pub pni_identity_key_private: Option<Vec<u8>>,
    /// Deprecated by Signal, but Signal Desktop refuses to finish linking
    /// without it.
    pub master_key: Option<Vec<u8>>,
    pub aci_binary: Option<Vec<u8>>,
    pub pni_binary: Option<Vec<u8>>,
}

/// Wire bytes of a `ProvisionMessage`.
pub open spec fn provision_message_bytes(m: &ProvisionMessage) -> Seq<u8> {
    opt_bytes_spec(1, m.aci_identity_key_public.deep_view())
        + opt_bytes_spec(2, m.aci_identity_key_private.deep_view())
        + opt_string_spec(3, m.number.deep_view())
        + opt_string_spec(4, m.provisioning_code.deep_view())
        + opt_string_spec(5, m.user_agent.deep_view())
        + opt_bytes_spec(6, m.profile_key.deep_view())
        + opt_bool_spec(7, m.read_receipts)
        + opt_string_spec(8, m.aci.deep_view())
        + opt_uint32_spec(9, m.provisioning_version)
        + opt_string_spec(10, m.pni.deep_view())
        + opt_bytes_spec(11, m.pni_identity_key_public.deep_view())
        + opt_bytes_spec(12, m.pni_identity_key_private.deep_view())
        + opt_bytes_spec(13, m.master_key.deep_view())
        + opt_bytes_spec(17, m.aci_binary.deep_view())
        + opt_bytes_spec(18, m.pni_binary.deep_view())
}

impl ProvisionMessage {
    /// Encodes the message to its wire bytes.
    pub fn encode_to_vec(&self) -> (r: Vec<u8>)
        ensures
            r@ == provision_message_bytes(self),
    {
        let mut out: Vec<u8> = Vec::new();
        encode_opt_bytes(1, &self.aci_identity_key_public, &mut out);
        encode_opt_bytes(2, &self.aci_identity_key_private, &mut out);
        encode_opt_string(3, &self.number, &mut out);
        encode_opt_string(4, &self.provisioning_code, &mut out);
        encode_opt_string(5, &self.user_agent, &mut out);
        encode_opt_bytes(6, &self.profile_key, &mut out);
        encode_opt_bool(7, self.read_receipts, &mut out);
        encode_opt_string(8, &self.aci, &mut out);
        encode_opt_uint32(9, self.provisioning_version, &mut out);
        encode_opt_string(10, &self.pni, &mut out);
        encode_opt_bytes(11, &self.pni_identity_key_public, &mut out);
        encode_opt_bytes(12, &self.pni_identity_key_private, &mut out);
        encode_opt_bytes(13, &self.master_key, &mut out);
        encode_opt_bytes(17, &self.aci_binary, &mut out);
        encode_opt_bytes(18, &self.pni_binary, &mut out);
        out
    }
}

/// Envelope wrapping an encrypted `ProvisionMessage`.
pub struct ProvisionEnvelope {
    pub public_key: Option<Vec<u8>>,
    pub body: Option<Vec<u8>>,
}

/// Wire bytes of a `ProvisionEnvelope`.
pub open spec fn provision_envelope_bytes(e: &ProvisionEnvelope) -> Seq<u8> {
    opt_bytes_spec(1, e.public_key.deep_view()) + opt_bytes_spec(2, e.body.deep_view())
}

impl ProvisionEnvelope {
    /// Encodes the envelope to its wire bytes.
    pub fn encode_to_vec(&self) -> (r: Vec<u8>)
        ensures
            r@ == provision_envelope_bytes(self),
    {
        let mut out: Vec<u8> = Vec::new();
        encode_opt_bytes(1, &self.public_key, &mut out);
        encode_opt_bytes(2, &self.body, &mut out);
        out
    }
}

/// `SyncMessage.Contacts`; `is_complete = true` tells the linked device that
/// every contact has been sent (there are none).
pub struct SyncContactsProto {
    pub is_complete: Option<bool>,
}

/// An empty `SyncMessage.Blocked` list.
pub struct SyncBlockedProto {}

/// A minimal `SyncMessage`.
pub struct SyncMsgProto {
    pub contacts: Option<SyncContactsProto>,
    pub blocked: Option<SyncBlockedProto>,
}

/// The plaintext `Content` wrapper that is encrypted with the Signal Protocol.
pub struct ContentProto {
    pub sync_message: Option<SyncMsgProto>,
}

pub open spec fn sync_contacts_bytes(c: &SyncContactsProto) -> Seq<u8> {
    opt_bool_spec(6, c.is_complete)
}

pub open spec fn sync_msg_bytes(m: &SyncMsgProto) -> Seq<u8> {
    (match m.contacts {
        Some(c) => len_delimited_spec(1, sync_contacts_bytes(&c)),
        None => Seq::empty(),
    }) + (match m.blocked {
        Some(b) => len_delimited_spec(4, Seq::empty()),
        None => Seq::empty(),
    })
}

pub open spec fn content_bytes(c: &ContentProto) -> Seq<u8> {
    match c.sync_message {
        Some(m) => len_delimited_spec(2, sync_msg_bytes(&m)),
        None => Seq::empty(),
    }
}

impl SyncContactsProto {
    pub fn encode_to_vec(&self) -> (r: Vec<u8>)
        ensures
            r@ == sync_contacts_bytes(self),
    {
        let mut out: Vec<u8> = Vec::new();
        encode_opt_bool(6, self.is_complete, &mut out);
        out
    }
}

impl SyncMsgProto {
    pub fn encode_to_vec(&self) -> (r: Vec<u8>)
        ensures
            r@ == sync_msg_bytes(self),
    {
        let mut out: Vec<u8> = Vec::new();
        match &self.contacts {
            Some(c) => {
                let inner = c.encode_to_vec();
                encode_len_delimited(1, inner.as_slice(), &mut out);
            },
            None => {},
        }
        let ghost mid = out@;
        match &self.blocked {
            Some(_) => {
                let inner: Vec<u8> = Vec::new();
                encode_len_delimited(4, inner.as_slice(), &mut out);
            },
            None => {
                assert(out@ == mid + Seq::<u8>::empty());
            },
        }
        out
    }
}

impl ContentProto {
    pub fn encode_to_vec(&self) -> (r: Vec<u8>)
        ensures
            r@ == content_bytes(self),
    {
        let mut out: Vec<u8> = Vec::new();
        match &self.sync_message {
            Some(m) => {
                let inner = m.encode_to_vec();
                encode_len_delimited(2, inner.as_slice(), &mut out);
            },
            None => {},
        }
        out
    }
}

/// The sync payload sent to a freshly linked device: contacts complete and an
/// empty blocked list, so that it leaves its "syncing" screen.
pub fn linked_device_sync_content() -> (r: ContentProto)
    ensures
        r.sync_message == Some(
            SyncMsgProto {
                contacts: Some(SyncContactsProto { is_complete: Some(true) }),
                blocked: Some(SyncBlockedProto {}),
            },
        ),
{
    ContentProto {
        sync_message: Some(
            SyncMsgProto {
                contacts: Some(SyncContactsProto { is_complete: Some(true) }),
                blocked: Some(SyncBlockedProto {}),
            },
        ),
    }
}

/// The wire bytes of the sync payload for a freshly linked device.
pub open spec fn sync_plaintext_spec() -> Seq<u8> {
    seq![0x12u8, 0x06u8, 0x0au8, 0x02u8, 0x30u8, 0x01u8, 0x22u8, 0x00u8]
}

/// Encodes `linked_device_sync_content()`.
pub fn sync_plaintext() -> (r: Vec<u8>)
    ensures
        r@ == sync_plaintext_spec(),
{
    let c = linked_device_sync_content();
    let r = c.encode_to_vec();
    proof {
        assert(varint_spec(48) == seq![48u8]);
        assert(varint_spec(1) == seq![1u8]);
        assert(varint_spec(10) == seq![10u8]);
        assert(varint_spec(2) == seq![2u8]);
        assert(varint_spec(34) == seq![34u8]);
        assert(varint_spec(0) == seq![0u8]);
        assert(varint_spec(18) == seq![18u8]);
        assert(varint_spec(6) == seq![6u8]);
        let contacts = sync_contacts_bytes(&SyncContactsProto { is_complete: Some(true) });
        assert(contacts == seq![0x30u8, 0x01u8]);
        let m = sync_msg_bytes(&SyncMsgProto {
            contacts: Some(SyncContactsProto { is_complete: Some(true) }),
            blocked: Some(SyncBlockedProto {}),
        });
        assert(m == seq![0x0au8, 0x02u8, 0x30u8, 0x01u8, 0x22u8, 0x00u8]);
        assert(r@ == sync_plaintext_spec());
    }
    r
}

/// An optional length-delimited payload written after the literal key
/// bytes `key`: key, payload length, payload; nothing when absent.
pub open spec fn keyed(key: Seq<u8>, o: Option<Seq<u8>>) -> Seq<u8> {
    match o {
        Some(d) => key + varint_spec(d.len()) + d,
        None => Seq::empty(),
    }
}

/// The UTF-8 bytes of an optional text.
pub open spec fn utf8_of(o: Option<Seq<char>>) -> Option<Seq<u8>> {
    match o {
        Some(t) => Some(encode_utf8(t)),
        None => None,
    }
}

/// A `ProvisionMessage` is written field by field in the order and under
/// the field numbers of `Provisioning.proto`, spelled out here as key
/// bytes: identity keys 1 and 2 (0x0a, 0x12), number 3 (0x1a),
/// provisioning code 4 (0x22), user agent 5 (0x2a), profile key 6 (0x32),
/// read receipts 7 as a varint (0x38), ACI 8 (0x42), provisioning version
/// 9 as a varint (0x48), PNI 10 (0x52), PNI identity keys 11 and 12 (0x5a,
/// 0x62), master key 13 (0x6a), ACI and PNI binary 17 and 18 (0x8a 0x01,
/// 0x92 0x01).
pub proof fn lemma_provision_message_field_numbers(m: ProvisionMessage)
    ensures
        provision_message_bytes(&m) == keyed(seq![0x0au8], m.aci_identity_key_public.deep_view()) + keyed(
            seq![0x12u8],
            m.aci_identity_key_private.deep_view(),
        ) + keyed(seq![0x1au8], utf8_of(m.number.deep_view())) + keyed(
            seq![0x22u8],
            utf8_of(m.provisioning_code.deep_view()),
        ) + keyed(seq![0x2au8], utf8_of(m.user_agent.deep_view())) + keyed(seq![0x32u8], m.profile_key.deep_view())
            + match m.read_receipts {
            Some(b) => seq![0x38u8, if b {
                1u8
            } else {
                0u8
            }],
            None => Seq::<u8>::empty(),
        } + keyed(seq![0x42u8], utf8_of(m.aci.deep_view())) + match m.provisioning_version {
            Some(v) => seq![0x48u8] + varint_spec(v as nat),
            None => Seq::<u8>::empty(),
        } + keyed(seq![0x52u8], utf8_of(m.pni.deep_view())) + keyed(
            seq![0x5au8],
            m.pni_identity_key_public.deep_view(),
        ) + keyed(seq![0x62u8], m.pni_identity_key_private.deep_view()) + keyed(
            seq![0x6au8],
            m.master_key.deep_view(),
        ) + keyed(seq![0x8au8, 0x01u8], m.aci_binary.deep_view()) + keyed(
            seq![0x92u8, 0x01u8],
            m.pni_binary.deep_view(),
        ),
{
    lemma_bytes_field(1, seq![0x0au8], m.aci_identity_key_public.deep_view());
    lemma_bytes_field(2, seq![0x12u8], m.aci_identity_key_private.deep_view());
    lemma_string_field(3, seq![0x1au8], m.number.deep_view());
    lemma_string_field(4, seq![0x22u8], m.provisioning_code.deep_view());
    lemma_string_field(5, seq![0x2au8], m.user_agent.deep_view());
    lemma_bytes_field(6, seq![0x32u8], m.profile_key.deep_view());
    assert(varint_spec(56) == seq![0x38u8]);
    assert(varint_spec(1) == seq![1u8]);
    assert(varint_spec(0) == seq![0u8]);
    assert(opt_bool_spec(7, m.read_receipts) == match m.read_receipts {
        Some(b) => seq![0x38u8, if b {
            1u8
        } else {
            0u8
        }],
        None => Seq::<u8>::empty(),
    }) by {
        if let Some(b) = m.read_receipts {
            assert(key_spec(7, 0) + varint_spec(if b { 1 } else { 0 }) =~= seq![0x38u8, if b {
                1u8
            } else {
                0u8
            }]);
        }
    }
    lemma_string_field(8, seq![0x42u8], m.aci.deep_view());
    assert(varint_spec(72) == seq![0x48u8]);
    assert(opt_uint32_spec(9, m.provisioning_version) == match m.provisioning_version {
        Some(v) => seq![0x48u8] + varint_spec(v as nat),
        None => Seq::<u8>::empty(),
    });
    lemma_string_field(10, seq![0x52u8], m.pni.deep_view());
    lemma_bytes_field(11, seq![0x5au8], m.pni_identity_key_public.deep_view());
    lemma_bytes_field(12, seq![0x62u8], m.pni_identity_key_private.deep_view());
    lemma_bytes_field(13, seq![0x6au8], m.master_key.deep_view());
    lemma_bytes_field(17, seq![0x8au8, 0x01u8], m.aci_binary.deep_view());
    lemma_bytes_field(18, seq![0x92u8, 0x01u8], m.pni_binary.deep_view());
}

proof fn lemma_key_bytes(tag: nat, key: Seq<u8>)
    requires
        1 <= tag <= 18,
        key == (if tag < 16 {
            seq![(tag * 8 + 2) as u8]
        } else {
            seq![(tag * 8 + 2) as u8, 0x01u8]
        }),
    ensures
        key_spec(tag, 2) == key,
{
    reveal_with_fuel(varint_spec, 3);
    if tag >= 16 {
        assert(varint_spec((tag * 8 + 2) / 128) == seq![0x01u8]);
        assert(key_spec(tag, 2) =~= key);
    }
}

proof fn lemma_bytes_field(tag: nat, key: Seq<u8>, o: Option<Seq<u8>>)
    requires
        1 <= tag <= 18,
        key == (if tag < 16 {
            seq![(tag * 8 + 2) as u8]
        } else {
            seq![(tag * 8 + 2) as u8, 0x01u8]
        }),
    ensures
        opt_bytes_spec(tag, o) == keyed(key, o),
{
    lemma_key_bytes(tag, key);
}

proof fn lemma_string_field(tag: nat, key: Seq<u8>, o: Option<Seq<char>>)
    requires
        1 <= tag <= 18,
        key == (if tag < 16 {
            seq![(tag * 8 + 2) as u8]
        } else {
            seq![(tag * 8 + 2) as u8, 0x01u8]
        }),
    ensures
        opt_string_spec(tag, o) == keyed(key, utf8_of(o)),
{
    lemma_key_bytes(tag, key);
}

/// A `ProvisionEnvelope` is its public key under field 1 (key 0x0a) and
/// its body under field 2 (key 0x12).
pub proof fn lemma_provision_envelope_field_numbers(e: ProvisionEnvelope)
    ensures
        provision_envelope_bytes(&e) == keyed(seq![0x0au8], e.public_key.deep_view()) + keyed(
            seq![0x12u8],
            e.body.deep_view(),
        ),
{
    lemma_bytes_field(1, seq![0x0au8], e.public_key.deep_view());
    lemma_bytes_field(2, seq![0x12u8], e.body.deep_view());
}

} // verus!
