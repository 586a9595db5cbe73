//! Wallets, ECDSA signatures, and the signing of L1 and user-signed
//! actions.
use vstd::prelude::*;
use crate::utils::opt_string_view;
use alloy::signers::SignerSync;
use vstd::utf8::encode_utf8;
use crate::error::HyperliquidError;
use crate::signature::eip712::{
    domain_separator, eip712_digest, get_hyperliquid_domain, get_l1_domain, keccak256,
    keccak256_digest, spec_eip712_signing_hash, zero_address, Eip712,
};
use crate::types::signature::Eip712Signature;
use crate::utils::hex::{format_hex_numeral, hex_lower, hex_numeral, parse_address_bytes, parse_hex_address};
use crate::utils::{append_bytes, be_bytes, bytes_eq, u64_to_be_bytes};

verus! {

/// A recoverable ECDSA signature: the 32-byte big-endian scalars `r` and `s`
/// and the parity `v` of the nonce point.
#[derive(Debug, Clone)]
pub struct Signature {
    pub r: Vec<u8>,
    pub s: Vec<u8>,
    pub v: bool,
}

impl Signature {
    /// `r` and `s` are 32 bytes long.
    pub open spec fn well_formed(&self) -> bool {
        self.r@.len() == 32 && self.s@.len() == 32
    }
}

/// The address recovered from a signature `(r, s, v)` over a 32-byte prehash,
/// as computed by `alloy::primitives::Signature::recover_address_from_prehash`,
/// or `None` where recovery fails.
pub uninterp spec fn ecrecover_address(r: Seq<u8>, s: Seq<u8>, v: bool, prehash: Seq<u8>) -> Option<Seq<u8>>;

/// The big-endian unsigned value of a byte string.
pub open spec fn be_value(b: Seq<u8>) -> nat
    decreases b.len(),
{
    if b.len() == 0 {
        0
    } else {
        be_value(b.drop_last()) * 256 + (b.last() as nat)
    }
}

/// The order of the secp256k1 group.
pub open spec fn secp256k1_order() -> nat {
    0xFFFFFFFF_FFFFFFFF_FFFFFFFF_FFFFFFFE_BAAEDCE6_AF48A03B_BFD25E8C_D0364141nat
}

/// Whether bytes are a secp256k1 secret key: 24 to 32 bytes (shorter ones
/// are zero-padded on the left) whose big-endian value is a non-zero scalar
/// below the group order.
pub open spec fn is_valid_secret_key(key: Seq<u8>) -> bool {
    &&& 24 <= key.len() <= 32
    &&& 0 < be_value(key) < secp256k1_order()
}

/// The Ethereum address of the key pair of a secret key, as computed by
/// `PrivateKeySigner::address` on the signer made from that key.
pub uninterp spec fn secret_key_address(key: Seq<u8>) -> Seq<u8>;

/// The recoverable signature `(r, s, v)` of a 32-byte prehash under a secret
/// key, as computed by `SignerSync::sign_hash_sync` of `PrivateKeySigner`
/// (deterministic RFC 6979 nonces), or `None` where signing fails.
pub uninterp spec fn ecdsa_sign_prehash(key: Seq<u8>, prehash: Seq<u8>) -> Option<(Seq<u8>, Seq<u8>, bool)>;

/// Calls `PrivateKeySigner::from_slice` and reports whether it accepts the
/// bytes. Trusted: it accepts exactly the secret keys stated above (the
/// slice length check and the scalar range check of `SecretKey::from_slice`).
#[verifier::external_body]
fn secret_key_is_valid(key: &[u8]) -> (ok: bool)
    ensures
        ok == is_valid_secret_key(key@),
{
    alloy::signers::local::PrivateKeySigner::from_slice(key).is_ok()
}

/// Calls `PrivateKeySigner::address` on the signer made from a valid secret key.
/// Trusted: the address is the named function of the key and has 20 bytes.
#[verifier::external_body]
fn address_of_secret_key(key: &[u8]) -> (a: Vec<u8>)
    requires
        is_valid_secret_key(key@),
    ensures
        a@ == secret_key_address(key@),
        a@.len() == 20,
{
    alloy::signers::local::PrivateKeySigner::from_slice(key).unwrap().address().to_vec()
}

/// Calls `SignerSync::sign_hash_sync` of the signer made from a valid secret
/// key on a 32-byte hash. Trusted: the outcome is the named signing function
/// of the key and the hash, and `r` and `s` are 32 bytes long.
#[verifier::external_body]
fn sign_prehash(key: &[u8], hash: &[u8]) -> (res: Result<Signature, alloy::signers::Error>)
    requires
        is_valid_secret_key(key@),
        hash@.len() == 32,
    ensures
        match res {
            Ok(sig) => sig.well_formed() && ecdsa_sign_prehash(key@, hash@) == Some(
                (sig.r@, sig.s@, sig.v),
            ),
            Err(_) => ecdsa_sign_prehash(key@, hash@) is None,
        },
{
    let signer = alloy::signers::local::PrivateKeySigner::from_slice(key).unwrap();
    match signer.sign_hash_sync(&alloy::primitives::B256::from_slice(hash)) {
        Ok(sig) => Ok(Signature {
            r: sig.r().to_be_bytes::<32>().to_vec(),
            s: sig.s().to_be_bytes::<32>().to_vec(),
            v: sig.v(),
        }),
        Err(e) => Err(e),
    }
}

/// A wallet: the secret key of a secp256k1 key pair.
pub struct Wallet {
    key: Vec<u8>,
}

impl Wallet {
    #[verifier::type_invariant]
    spec fn inv(&self) -> bool {
        is_valid_secret_key(self.key@)
    }

    /// The secret key.
    pub closed spec fn secret(&self) -> Seq<u8> {
        self.key@
    }

    /// The wallet of a secret key, or `None` when the bytes are not a valid key.
    pub fn from_bytes(key: &[u8]) -> (w: Option<Wallet>)
        ensures
            match w {
                Some(w) => is_valid_secret_key(key@) && w.secret() == key@,
                None => !is_valid_secret_key(key@),
            },
    {
        if secret_key_is_valid(key) {
            let mut v: Vec<u8> = Vec::new();
            append_bytes(&mut v, key);
            Some(Wallet { key: v })
        } else {
            None
        }
    }

    /// The wallet's address.
    pub fn address(&self) -> (a: Vec<u8>)
        ensures
            a@ == secret_key_address(self.secret()),
            a@.len() == 20,
    {
        proof {
            use_type_invariant(self);
        }
        address_of_secret_key(self.key.as_slice())
    }

    /// Signs a 32-byte hash.
    pub fn sign_hash(&self, hash: &[u8]) -> (res: Result<Signature, alloy::signers::Error>)
        requires
            hash@.len() == 32,
        ensures
            match res {
                Ok(sig) => sig.well_formed() && ecdsa_sign_prehash(self.secret(), hash@) == Some(
                    (sig.r@, sig.s@, sig.v),
                ),
                Err(_) => ecdsa_sign_prehash(self.secret(), hash@) is None,
            },
    {
        proof {
            use_type_invariant(self);
        }
        sign_prehash(self.key.as_slice(), hash)
    }
}

impl Clone for Wallet {
    fn clone(&self) -> (w: Wallet)
        ensures
            w.secret() == self.secret(),
    {
        proof {
            use_type_invariant(self);
        }
        let mut key: Vec<u8> = Vec::new();
        append_bytes(&mut key, self.key.as_slice());
        Wallet { key }
    }
}

/// Calls `alloy::primitives::Signature::recover_address_from_prehash`.
/// Trusted: the result is the named recovery function of the signature and
/// the hash, and a recovered address has 20 bytes.
#[verifier::external_body]
fn recover_address(sig: &Signature, hash: &[u8]) -> (res: Result<Vec<u8>, alloy::primitives::SignatureError>)
    requires
        sig.well_formed(),
        hash@.len() == 32,
    ensures
        match res {
            Ok(a) => ecrecover_address(sig.r@, sig.s@, sig.v, hash@) == Some(a@) && a@.len() == 20,
            Err(_) => ecrecover_address(sig.r@, sig.s@, sig.v, hash@) is None,
        },
{
    let sig = alloy::primitives::Signature::new(
        alloy::primitives::U256::from_be_slice(&sig.r),
        alloy::primitives::U256::from_be_slice(&sig.s),
        sig.v,
    );
    match sig.recover_address_from_prehash(&alloy::primitives::B256::from_slice(hash)) {
        Ok(a) => Ok(a.to_vec()),
        Err(e) => Err(e),
    }
}

/// Returns 27/28 for the ECDSA signature `v` field based on the parity bit.
pub fn sig_v_from_bool(v: bool) -> (out: u8)
    ensures
        out == (if v { 28u8 } else { 27u8 }),
{
    if v {
        28
    } else {
        27
    }
}

impl Eip712Signature {
    /// The wire form of a signature: `r` and `s` as `0x`-prefixed lowercase
    /// hexadecimal numerals without leading zeros, and `v` as 27 or 28.
    pub fn from_signature(sig: &Signature) -> (out: Eip712Signature)
        requires
            sig.well_formed(),
        ensures
            out.r@ == "0x"@ + hex_numeral(sig.r@),
            out.s@ == "0x"@ + hex_numeral(sig.s@),
            out.v == (if sig.v { 28u8 } else { 27u8 }),
    {
        Eip712Signature {
            r: format_hex_numeral(sig.r.as_slice()),
            s: format_hex_numeral(sig.s.as_slice()),
            v: sig_v_from_bool(sig.v),
        }
    }
}

/// The bytes of the vault field of an action hash: `None` when no vault is
/// given, `Some(Some(addr))` for a well-formed `0x`-prefixed 40-digit hex
/// address, `Some(None)` when the given address is malformed.
pub open spec fn spec_vault_address_bytes(vault_address: Option<Seq<char>>) -> Option<Option<Seq<u8>>> {
    match vault_address {
        None => None,
        Some(s) => Some(parse_hex_address(encode_utf8(s))),
    }
}

/// The bytes hashed into an L1 action's connection id: the msgpack encoding of
/// the action, the 8-byte big-endian nonce, `0x01` and the 20 address bytes of
/// the vault (or `0x00` without one), then `0x00` and the 8-byte big-endian
/// expiry when one is given.
pub open spec fn spec_action_hash_preimage(
    action_msgpack: Seq<u8>,
    vault: Option<Seq<u8>>,
    nonce: u64,
    expires_after: Option<u64>,
) -> Seq<u8> {
    action_msgpack + be_bytes(nonce as nat, 8) + (match vault {
        Some(addr) => seq![1u8] + addr,
        None => seq![0u8],
    }) + (match expires_after {
        Some(e) => seq![0u8] + be_bytes(e as nat, 8),
        None => Seq::<u8>::empty(),
    })
}

/// The action hash frames its fields unambiguously: for one action
/// encoding, equal preimages come from equal nonces, vaults and expiries.
pub proof fn lemma_action_preimage_injective(
    action_msgpack: Seq<u8>,
    vault1: Option<Seq<u8>>,
    nonce1: u64,
    expires1: Option<u64>,
    vault2: Option<Seq<u8>>,
    nonce2: u64,
    expires2: Option<u64>,
)
    requires
        vault1 matches Some(a) ==> a.len() == 20,
        vault2 matches Some(a) ==> a.len() == 20,
        spec_action_hash_preimage(action_msgpack, vault1, nonce1, expires1) == spec_action_hash_preimage(
            action_msgpack,
            vault2,
            nonce2,
            expires2,
        ),
    ensures
        nonce1 == nonce2,
        vault1 == vault2,
        expires1 == expires2,
{
    let m = action_msgpack;
    let p1 = spec_action_hash_preimage(m, vault1, nonce1, expires1);
    let p2 = spec_action_hash_preimage(m, vault2, nonce2, expires2);
    crate::utils::lemma_be_bytes_len(nonce1 as nat, 8);
    crate::utils::lemma_be_bytes_len(nonce2 as nat, 8);
    let vb1 = match vault1 {
        Some(a) => seq![1u8] + a,
        None => seq![0u8],
    };
    let vb2 = match vault2 {
        Some(a) => seq![1u8] + a,
        None => seq![0u8],
    };
    let eb1 = match expires1 {
        Some(e) => seq![0u8] + be_bytes(e as nat, 8),
        None => Seq::<u8>::empty(),
    };
    let eb2 = match expires2 {
        Some(e) => seq![0u8] + be_bytes(e as nat, 8),
        None => Seq::<u8>::empty(),
    };
    if let Some(e) = expires1 {
        crate::utils::lemma_be_bytes_len(e as nat, 8);
    }
    if let Some(e) = expires2 {
        crate::utils::lemma_be_bytes_len(e as nat, 8);
    }
    assert(p1 == m + be_bytes(nonce1 as nat, 8) + vb1 + eb1);
    assert(p2 == m + be_bytes(nonce2 as nat, 8) + vb2 + eb2);
    let k = m.len() as int;
    assert(vb1.len() + eb1.len() == vb2.len() + eb2.len());
    assert(vb1.len() == vb2.len() && eb1.len() == eb2.len());
    assert(p1.subrange(k, k + 8) =~= be_bytes(nonce1 as nat, 8));
    assert(p2.subrange(k, k + 8) =~= be_bytes(nonce2 as nat, 8));
    crate::utils::lemma_u64_be_bytes_injective(nonce1, nonce2);
    let j = k + 8;
    assert(p1.subrange(j, j + vb1.len()) =~= vb1);
    assert(p2.subrange(j, j + vb2.len()) =~= vb2);
    match (vault1, vault2) {
        (Some(a), Some(b)) => {
            assert(a =~= vb1.subrange(1, 21));
            assert(b =~= vb2.subrange(1, 21));
        },
        _ => {},
    }
    let l = j + vb1.len();
    assert(p1.subrange(l, l + eb1.len()) =~= eb1);
    assert(p2.subrange(l, l + eb2.len()) =~= eb2);
    match (expires1, expires2) {
        (Some(e1), Some(e2)) => {
            assert(be_bytes(e1 as nat, 8) =~= eb1.subrange(1, 9));
            assert(be_bytes(e2 as nat, 8) =~= eb2.subrange(1, 9));
            crate::utils::lemma_u64_be_bytes_injective(e1, e2);
        },
        _ => {},
    }
}

/// The connection id of an L1 action: the Keccak-256 hash of its preimage.
pub open spec fn spec_action_hash(
    action_msgpack: Seq<u8>,
    vault: Option<Seq<u8>>,
    nonce: u64,
    expires_after: Option<u64>,
) -> Seq<u8> {
    keccak256_digest(spec_action_hash_preimage(action_msgpack, vault, nonce, expires_after))
}

/// A vault written as `0x` and the lowercase hexadecimal digits of its 20
/// bytes is accepted, and those bytes are what the action hash takes.
pub proof fn lemma_hex_vault_is_accepted(b: Seq<u8>)
    requires
        b.len() == 20,
    ensures
        spec_vault_address_bytes(Some("0x"@ + hex_lower(b))) == Some(Some(b)),
{
    crate::utils::hex::lemma_address_hex_round_trip(b);
}

/// The error reported for a malformed vault address.
pub open spec fn is_invalid_vault_error(e: HyperliquidError) -> bool {
    e matches HyperliquidError::InvalidRequestParameter { method, parameter, .. }
        && method@ == "action_hash"@ && parameter@ == "vault_address"@
}

/// Resolves the optional vault address into its 20 bytes.
fn vault_address_bytes(vault_address: &Option<String>) -> (res: Result<Option<Vec<u8>>, HyperliquidError>)
    ensures
        match res {
            Ok(None) => vault_address is None,
            Ok(Some(b)) => spec_vault_address_bytes(opt_string_view(*vault_address)) == Some(Some(b@)),
            Err(e) => spec_vault_address_bytes(opt_string_view(*vault_address)) == Some(None::<Seq<u8>>)
                && is_invalid_vault_error(e),
        },
{
    match vault_address {
        None => Ok(None),
        Some(addr) => match parse_address_bytes(addr.as_str().as_bytes()) {
            Some(b) => Ok(Some(b)),
            None => Err(
                HyperliquidError::InvalidRequestParameter {
                    method: String::from_str("action_hash"),
                    parameter: String::from_str("vault_address"),
                    reason: String::from_str("expected 0x followed by 40 hexadecimal digits"),
                },
            ),
        },
    }
}

/// The bytes whose Keccak-256 hash is the connection id of an L1 action.
pub fn action_hash_preimage(
    action_msgpack: &[u8],
    vault: &Option<Vec<u8>>,
    nonce: u64,
    expires_after: Option<u64>,
) -> (out: Vec<u8>)
    ensures
        out@ == spec_action_hash_preimage(
            action_msgpack@,
            match vault {
                Some(v) => Some(v@),
                None => None,
            },
            nonce,
            expires_after,
        ),
{
    let mut data: Vec<u8> = Vec::new();
    append_bytes(&mut data, action_msgpack);
    let nonce_bytes = u64_to_be_bytes(nonce, 8);
    append_bytes(&mut data, nonce_bytes.as_slice());
    let ghost after_nonce = data@;
    match vault {
        Some(addr) => {
            data.push(0x01);
            append_bytes(&mut data, addr.as_slice());
            assert(data@ == after_nonce + (seq![1u8] + addr@));
        },
        None => {
            data.push(0x00);
            assert(data@ == after_nonce + seq![0u8]);
        },
    }
    let ghost after_vault = data@;
    match expires_after {
        Some(e) => {
            data.push(0x00);
            let expiry = u64_to_be_bytes(e, 8);
            append_bytes(&mut data, expiry.as_slice());
            assert(data@ == after_vault + (seq![0u8] + be_bytes(e as nat, 8)));
        },
        None => {
            assert(data@ == after_vault + Seq::<u8>::empty());
        },
    }
    data
}

/// Computes the Hyperliquid L1 action hash: the Keccak-256 hash of the
/// msgpack-serialized action, the 8-byte big-endian nonce, a vault flag byte
/// (`0x01` followed by the 20-byte vault address, or `0x00`), and, when an
/// expiry is given, `0x00` followed by its 8-byte big-endian value. A vault
/// address that is not `0x` followed by 40 hexadecimal digits is rejected.
pub fn action_hash(
    action_msgpack: &[u8],
    vault_address: Option<String>,
    nonce: u64,
    expires_after: Option<u64>,
) -> (res: Result<Vec<u8>, HyperliquidError>)
    ensures
        match spec_vault_address_bytes(opt_string_view(vault_address)) {
            Some(None) => (res matches Err(e) && is_invalid_vault_error(e)),
            Some(Some(b)) => (res matches Ok(h) && h@ == spec_action_hash(action_msgpack@, Some(b), nonce, expires_after)),
            None => (res matches Ok(h) && h@ == spec_action_hash(action_msgpack@, None, nonce, expires_after)),
        },
        res matches Ok(h) ==> h@.len() == 32,
{
    let vault = vault_address_bytes(&vault_address)?;
    let data = action_hash_preimage(action_msgpack, &vault, nonce, expires_after);
    Ok(keccak256(data.as_slice()))
}

/// The EIP-712 `hashStruct` of the phantom agent `Agent(string source,bytes32 connectionId)`.
pub open spec fn spec_agent_struct_hash(source: Seq<char>, connection_id: Seq<u8>) -> Seq<u8> {
    keccak256_digest(
        keccak256_digest(encode_utf8("Agent(string source,bytes32 connectionId)"@))
            + keccak256_digest(encode_utf8(source)) + connection_id,
    )
}

/// The source of a phantom agent: `"a"` on mainnet, `"b"` otherwise.
pub open spec fn spec_agent_source(is_mainnet: bool) -> Seq<char> {
    if is_mainnet {
        "a"@
    } else {
        "b"@
    }
}

/// The digest signed for an L1 action with the given connection id.
pub open spec fn spec_l1_signing_hash(connection_id: Seq<u8>, is_mainnet: bool) -> Seq<u8> {
    spec_eip712_signing_hash(
        ("Exchange"@, "1"@, 1337u64, zero_address()),
        spec_agent_struct_hash(spec_agent_source(is_mainnet), connection_id),
    )
}

/// Hashes the phantom agent `{source, connectionId}`.
pub fn agent_struct_hash(source: &str, connection_id: &[u8]) -> (h: Vec<u8>)
    requires
        connection_id@.len() == 32,
    ensures
        h@ == spec_agent_struct_hash(source@, connection_id@),
        h@.len() == 32,
{
    let type_hash = keccak256("Agent(string source,bytes32 connectionId)".as_bytes());
    let source_hash = keccak256(source.as_bytes());
    let mut data: Vec<u8> = Vec::new();
    append_bytes(&mut data, type_hash.as_slice());
    append_bytes(&mut data, source_hash.as_slice());
    append_bytes(&mut data, connection_id);
    keccak256(data.as_slice())
}

/// The digest signed for an L1 action.
pub fn l1_signing_hash(connection_id: &[u8], is_mainnet: bool) -> (h: Vec<u8>)
    requires
        connection_id@.len() == 32,
    ensures
        h@ == spec_l1_signing_hash(connection_id@, is_mainnet),
        h@.len() == 32,
{
    let source = if is_mainnet {
        "a"
    } else {
        "b"
    };
    let struct_hash = agent_struct_hash(source, connection_id);
    let domain = get_l1_domain();
    let separator = domain_separator(&domain);
    eip712_digest(separator.as_slice(), struct_hash.as_slice())
}

/// The signer's message for a signature that does not recover to the signer.
fn recovery_mismatch_message(recovered: &[u8], expected: &[u8]) -> (msg: String)
    requires
        recovered@.len() == 20,
        expected@.len() == 20,
    ensures
        msg@ == "Signature verification failed: recovered "@ + ("0x"@ + hex_lower(recovered@)) + " but expected "@
            + ("0x"@ + hex_lower(expected@)),
{
    let mut msg = String::from_str("Signature verification failed: recovered ");
    let r = crate::utils::hex::format_hex_bytes(recovered);
    msg.append(r.as_str());
    msg.append(" but expected ");
    let e = crate::utils::hex::format_hex_bytes(expected);
    msg.append(e.as_str());
    msg
}

/// The outcome of signing a digest and checking the signature against the
/// signer: the signature when it recovers to the wallet's address.
pub open spec fn spec_checked_signature(secret: Seq<u8>, digest: Seq<u8>) -> Option<(Seq<u8>, Seq<u8>, bool)> {
    match ecdsa_sign_prehash(secret, digest) {
        Some(sig) => if ecrecover_address(sig.0, sig.1, sig.2, digest) == Some(secret_key_address(secret)) {
            Some(sig)
        } else {
            None
        },
        None => None,
    }
}

/// A checked signature is the wallet's signature of the digest, and it
/// recovers to the wallet's address.
pub proof fn lemma_checked_signature_recovers(secret: Seq<u8>, digest: Seq<u8>)
    ensures
        spec_checked_signature(secret, digest) matches Some(sig) ==> ecdsa_sign_prehash(secret, digest) == Some(
            sig,
        ) && ecrecover_address(sig.0, sig.1, sig.2, digest) == Some(secret_key_address(secret)),
{
}

/// Signs a digest and checks that the signature recovers to the signer's address.
fn sign_and_check(wallet: &Wallet, digest: &[u8]) -> (res: Result<Signature, HyperliquidError>)
    requires
        digest@.len() == 32,
    ensures
        match res {
            Ok(sig) => sig.well_formed() && spec_checked_signature(wallet.secret(), digest@) == Some(
                (sig.r@, sig.s@, sig.v),
            ),
            Err(e) => spec_checked_signature(wallet.secret(), digest@) is None && (e is AlloySignError
                || e is SignatureError || e is SignatureFailure),
        },
{
    let sig = match wallet.sign_hash(digest) {
        Ok(sig) => sig,
        Err(e) => return Err(HyperliquidError::AlloySignError(e)),
    };
    let recovered = match recover_address(&sig, digest) {
        Ok(a) => a,
        Err(e) => return Err(HyperliquidError::SignatureError(e)),
    };
    let expected = wallet.address();
    if !bytes_eq(recovered.as_slice(), expected.as_slice()) {
        return Err(
            HyperliquidError::SignatureFailure(
                recovery_mismatch_message(recovered.as_slice(), expected.as_slice()),
            ),
        );
    }
    Ok(sig)
}

/// Signs an L1 action given its msgpack encoding: the connection id is the
/// action hash, the phantom agent's source is `"a"` on mainnet and `"b"`
/// otherwise, and the digest is taken under the `Exchange` domain (version 1,
/// chain 1337). The signature is checked to recover to the wallet's address.
pub fn sign_l1_action(
    wallet: &Wallet,
    action_msgpack: &[u8],
    vault_address: Option<String>,
    nonce: u64,
    expires_after: Option<u64>,
    is_mainnet: bool,
) -> (res: Result<Signature, HyperliquidError>)
    ensures
        spec_vault_address_bytes(opt_string_view(vault_address)) == Some(None::<Seq<u8>>)
            ==> (res matches Err(e) && is_invalid_vault_error(e)),
        spec_vault_address_bytes(opt_string_view(vault_address)) != Some(None::<Seq<u8>>) ==> match res {
            Ok(sig) => sig.well_formed() && spec_checked_signature(
                wallet.secret(),
                spec_l1_signing_hash(
                    spec_action_hash(
                        action_msgpack@,
                        match spec_vault_address_bytes(opt_string_view(vault_address)) {
                            Some(v) => v,
                            None => None,
                        },
                        nonce,
                        expires_after,
                    ),
                    is_mainnet,
                ),
            ) == Some((sig.r@, sig.s@, sig.v)),
            Err(e) => spec_checked_signature(
                wallet.secret(),
                spec_l1_signing_hash(
                    spec_action_hash(
                        action_msgpack@,
                        match spec_vault_address_bytes(opt_string_view(vault_address)) {
                            Some(v) => v,
                            None => None,
                        },
                        nonce,
                        expires_after,
                    ),
                    is_mainnet,
                ),
            ) is None && (e is AlloySignError || e is SignatureError || e is SignatureFailure),
        },
{
    let connection_id = action_hash(action_msgpack, vault_address, nonce, expires_after)?;
    let digest = l1_signing_hash(connection_id.as_slice(), is_mainnet);
    sign_and_check(wallet, digest.as_slice())
}

/// Signs typed data using the wallet's private key.
pub fn sign_typed_data<T: Eip712>(
    payload: &T,
    wallet: &Wallet,
) -> (res: Result<Signature, HyperliquidError>)
    ensures
        match res {
            Ok(sig) => sig.well_formed() && ecdsa_sign_prehash(
                wallet.secret(),
                spec_eip712_signing_hash(payload.spec_domain(), payload.spec_struct_hash()),
            ) == Some((sig.r@, sig.s@, sig.v)),
            Err(e) => e is SignatureFailure && ecdsa_sign_prehash(
                wallet.secret(),
                spec_eip712_signing_hash(payload.spec_domain(), payload.spec_struct_hash()),
            ) is None,
        },
{
    let digest = payload.eip712_signing_hash();
    match wallet.sign_hash(digest.as_slice()) {
        Ok(sig) => Ok(sig),
        Err(e) => Err(HyperliquidError::SignatureFailure(e.to_string())),
    }
}

/// Signs a user-signed action under the `HyperliquidSignTransaction` domain
/// on chain `0x66eee`, whatever the network, and returns its wire form.
pub fn sign_user_signed_action<T: Eip712>(
    wallet: &Wallet,
    action: &T,
    _is_mainnet: bool,
) -> (res: Result<Eip712Signature, HyperliquidError>)
    ensures
        match ecdsa_sign_prehash(
            wallet.secret(),
            spec_eip712_signing_hash(("HyperliquidSignTransaction"@, "1"@, 0x66eeeu64, zero_address()), action.spec_struct_hash()),
        ) {
            Some(sig) => (res matches Ok(out) && out.r@ == "0x"@ + hex_numeral(sig.0) && out.s@ == "0x"@
                + hex_numeral(sig.1) && out.v == (if sig.2 { 28u8 } else { 27u8 })),
            None => (res matches Err(e) && e is AlloySignError),
        },
{
    let signature_chain_id = 0x66eeeu64;
    let domain = get_hyperliquid_domain(signature_chain_id);
    let separator = domain_separator(&domain);
    let struct_hash = action.struct_hash();
    let signing_hash = eip712_digest(separator.as_slice(), struct_hash.as_slice());
    match wallet.sign_hash(signing_hash.as_slice()) {
        Ok(sig) => Ok(Eip712Signature::from_signature(&sig)),
        Err(e) => Err(HyperliquidError::AlloySignError(e)),
    }
}

} // verus!
