//! EIP-712 typed-data hashing: Keccak-256, signing domains and digests.
use vstd::prelude::*;
use vstd::utf8::encode_utf8;
use crate::utils::abi_word;

verus! {

/// The Keccak-256 digest of a byte string, as computed by `alloy::primitives::keccak256`.
pub uninterp spec fn keccak256_digest(data: Seq<u8>) -> Seq<u8>;

/// Calls `alloy::primitives::keccak256`. Trusted: the digest is the named
/// function of the input bytes and, being a `B256`, is 32 bytes long.
#[verifier::external_body]
pub(crate) fn keccak256(data: &[u8]) -> (digest: Vec<u8>)
    ensures
        digest@ == keccak256_digest(data@),
        digest@.len() == 32,
{
    alloy::primitives::keccak256(data).to_vec()
}

/// The zero address: twenty zero bytes.
pub open spec fn zero_address() -> Seq<u8> {
    Seq::new(20, |i: int| 0u8)
}

/// An address as a 32-byte ABI word: twelve zero bytes, then its twenty bytes.
pub open spec fn address_word(address: Seq<u8>) -> Seq<u8> {
    Seq::new(12, |i: int| 0u8) + address
}

/// An EIP-712 signing domain with a name, a version, a chain id and a
/// verifying contract; it has no salt.
pub struct Eip712Domain {
    pub name: String,
    pub version: String,
    pub chain_id: u64,
    pub verifying_contract: [u8; 20],
}

impl View for Eip712Domain {
    type V = (Seq<char>, Seq<char>, u64, Seq<u8>);

    open spec fn view(&self) -> Self::V {
        (self.name@, self.version@, self.chain_id, self.verifying_contract@)
    }
}

/// The EIP-712 `hashStruct` of the domain `{name, version, chainId,
/// verifyingContract}`: the Keccak-256 hash of the hash of its type string,
/// the hashes of the UTF-8 name and version, the chain id as a 32-byte word
/// and the verifying contract as an address word.
pub open spec fn eip712_domain_separator(
    name: Seq<char>,
    version: Seq<char>,
    chain_id: u64,
    verifying_contract: Seq<u8>,
) -> Seq<u8> {
    keccak256_digest(
        keccak256_digest(encode_utf8("EIP712Domain(string name,string version,uint256 chainId,address verifyingContract)"@))
            + keccak256_digest(encode_utf8(name)) + keccak256_digest(encode_utf8(version)) + abi_word(
            chain_id as nat,
        ) + address_word(verifying_contract),
    )
}

/// The domain separator of a domain given by its view.
pub open spec fn spec_domain_separator(d: (Seq<char>, Seq<char>, u64, Seq<u8>)) -> Seq<u8> {
    eip712_domain_separator(d.0, d.1, d.2, d.3)
}

/// Calls `alloy::sol_types::Eip712Domain::hash_struct` on the domain with the
/// given name, version, chain id and verifying contract, and no salt.
/// Trusted: the separator is the `hashStruct` stated above (the type string
/// lists exactly the four fields given) and is 32 bytes long.
#[verifier::external_body]
pub(crate) fn domain_separator(domain: &Eip712Domain) -> (separator: Vec<u8>)
    ensures
        separator@ == eip712_domain_separator(
            domain.name@,
            domain.version@,
            domain.chain_id,
            domain.verifying_contract@,
        ),
        separator@.len() == 32,
{
    let d = alloy::sol_types::Eip712Domain::new(
        Some(domain.name.clone().into()),
        Some(domain.version.clone().into()),
        Some(alloy::primitives::U256::from(domain.chain_id)),
        Some(alloy::primitives::Address::new(domain.verifying_contract)),
        None,
    );
    d.hash_struct().to_vec()
}

/// The zero address.
fn zero_address_bytes() -> (a: [u8; 20])
    ensures
        a@ == zero_address(),
{
    let a: [u8; 20] = [0, 0, 0, 0, 0, 0, 0, 0, 0, 0, 0, 0, 0, 0, 0, 0, 0, 0, 0, 0];
    assert(a@ =~= zero_address());
    a
}

/// The domain used to sign L1 actions; its verifying contract is the zero
/// address.
pub fn get_l1_domain() -> (d: Eip712Domain)
    ensures
        d@ == ("Exchange"@, "1"@, 1337u64, zero_address()),
{
    Eip712Domain {
        name: String::from_str("Exchange"),
        version: String::from_str("1"),
        chain_id: 1337,
        verifying_contract: zero_address_bytes(),
    }
}

/// Creates the EIP-712 domain for Hyperliquid user-signed transactions; its
/// verifying contract is the zero address.
pub fn get_hyperliquid_domain(chain_id: u64) -> (d: Eip712Domain)
    ensures
        d@ == ("HyperliquidSignTransaction"@, "1"@, chain_id, zero_address()),
{
    Eip712Domain {
        name: String::from_str("HyperliquidSignTransaction"),
        version: String::from_str("1"),
        chain_id,
        verifying_contract: zero_address_bytes(),
    }
}

/// The bytes hashed to obtain an EIP-712 signing digest: `0x19 0x01 ‖ domainSeparator ‖ hashStruct`.
pub open spec fn eip712_digest_preimage(separator: Seq<u8>, struct_hash: Seq<u8>) -> Seq<u8> {
    seq![0x19u8, 0x01u8] + separator + struct_hash
}

/// The EIP-712 signing digest of a struct hash under a domain.
pub open spec fn spec_eip712_signing_hash(domain: (Seq<char>, Seq<char>, u64, Seq<u8>), struct_hash: Seq<u8>) -> Seq<u8> {
    keccak256_digest(eip712_digest_preimage(spec_domain_separator(domain), struct_hash))
}

/// Hashes `0x19 0x01 ‖ separator ‖ struct_hash`.
pub fn eip712_digest(separator: &[u8], struct_hash: &[u8]) -> (digest: Vec<u8>)
    requires
        separator@.len() == 32,
        struct_hash@.len() == 32,
    ensures
        digest@ == keccak256_digest(eip712_digest_preimage(separator@, struct_hash@)),
        digest@.len() == 32,
{
    let mut input: Vec<u8> = Vec::new();
    input.push(0x19);
    input.push(0x01);
    crate::utils::append_bytes(&mut input, separator);
    crate::utils::append_bytes(&mut input, struct_hash);
    assert(input@ == eip712_digest_preimage(separator@, struct_hash@));
    keccak256(input.as_slice())
}

/// A value that is signed as an EIP-712 typed structure.
pub trait Eip712 {
    /// The view of the signing domain.
    spec fn spec_domain(&self) -> (Seq<char>, Seq<char>, u64, Seq<u8>);

    /// The EIP-712 `hashStruct` of the value.
    spec fn spec_struct_hash(&self) -> Seq<u8>;

    fn domain(&self) -> (d: Eip712Domain)
        ensures
            d@ == self.spec_domain(),
    ;

    fn struct_hash(&self) -> (h: Vec<u8>)
        ensures
            h@ == self.spec_struct_hash(),
            h@.len() == 32,
    ;

    /// The digest that is signed: `keccak256(0x19 0x01 ‖ domainSeparator ‖ hashStruct)`.
    fn eip712_signing_hash(&self) -> (h: Vec<u8>)
        ensures
            h@ == spec_eip712_signing_hash(self.spec_domain(), self.spec_struct_hash()),
            h@.len() == 32,
    {
        let d = self.domain();
        let separator = domain_separator(&d);
        let sh = self.struct_hash();
        eip712_digest(separator.as_slice(), sh.as_slice())
    }
}

} // verus!
