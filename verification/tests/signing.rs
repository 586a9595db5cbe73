use alloy::primitives::{keccak256, Address, B256, U256};
use alloy::signers::local::PrivateKeySigner;
use alloy::signers::SignerSync;
use alloy::sol_types::SolValue;
use rhyperliquid::api::exchange::ExchangeApi;
use rhyperliquid::api::request_util::{JsonScalar, JsonValue};
use rhyperliquid::client::HyperliquidClient;
use rhyperliquid::error::HyperliquidError;
use rhyperliquid::signature::eip712::{eip712_digest, get_hyperliquid_domain, get_l1_domain, Eip712};
use rhyperliquid::signature::sign::{
    action_hash, action_hash_preimage, agent_struct_hash, l1_signing_hash, sig_v_from_bool, sign_l1_action,
    sign_typed_data, sign_user_signed_action, Wallet,
};
use rhyperliquid::types::chain::NetworkType;
use rhyperliquid::types::exchange::order::{
    ApproveAgentAction, ApproveBuilderFeeAction, SendAssetAction, UsdClassTransferAction, UsdSendAction,
    WithdrawAction,
};
use std::borrow::Cow;

const KEY: [u8; 32] = [7u8; 32];

fn wallet() -> Wallet {
    Wallet::from_bytes(&KEY).unwrap()
}

fn signer() -> PrivateKeySigner {
    PrivateKeySigner::from_slice(&KEY).unwrap()
}

fn domain_hash(name: &'static str, chain_id: u64) -> B256 {
    alloy::sol_types::Eip712Domain::new(
        Some(Cow::Borrowed(name)),
        Some(Cow::Borrowed("1")),
        Some(U256::from(chain_id)),
        Some(Address::ZERO),
        None,
    )
    .hash_struct()
}

fn digest(domain: B256, struct_hash: B256) -> B256 {
    let mut input = vec![0x19u8, 0x01];
    input.extend_from_slice(domain.as_slice());
    input.extend_from_slice(struct_hash.as_slice());
    keccak256(&input)
}

fn reference_action_hash(msgpack: &[u8], vault: Option<[u8; 20]>, nonce: u64, expires: Option<u64>) -> B256 {
    let mut data = msgpack.to_vec();
    data.extend_from_slice(&nonce.to_be_bytes());
    match vault {
        Some(v) => {
            data.push(1);
            data.extend_from_slice(&v);
        }
        None => data.push(0),
    }
    if let Some(e) = expires {
        data.push(0);
        data.extend_from_slice(&e.to_be_bytes());
    }
    keccak256(&data)
}

fn reference_l1_digest(connection_id: B256, is_mainnet: bool) -> B256 {
    let source = if is_mainnet { "a" } else { "b" };
    let mut data = keccak256("Agent(string source,bytes32 connectionId)".as_bytes()).to_vec();
    data.extend_from_slice(keccak256(source.as_bytes()).as_slice());
    data.extend_from_slice(connection_id.as_slice());
    digest(domain_hash("Exchange", 1337), keccak256(&data))
}

#[test]
fn v_is_27_or_28() {
    assert_eq!(sig_v_from_bool(false), 27);
    assert_eq!(sig_v_from_bool(true), 28);
}

#[test]
fn wallet_rejects_invalid_keys_and_knows_its_address() {
    assert!(Wallet::from_bytes(&[0u8; 32]).is_none());
    assert!(Wallet::from_bytes(&[1u8; 8]).is_none());
    assert_eq!(Wallet::from_bytes(&[1u8; 31]).is_some(), PrivateKeySigner::from_slice(&[1u8; 31]).is_ok());
    assert_eq!(wallet().address(), signer().address().to_vec());
}

#[test]
fn action_hash_layout() {
    let msgpack = [0x81u8, 0xa4, b't', b'y', b'p', b'e', 0xa4, b'n', b'o', b'o', b'p'];
    let pre = action_hash_preimage(&msgpack, &None, 0x0102030405060708, None);
    let mut expected = msgpack.to_vec();
    expected.extend_from_slice(&[1, 2, 3, 4, 5, 6, 7, 8, 0]);
    assert_eq!(pre, expected);
    let pre = action_hash_preimage(&msgpack, &Some(vec![0xaa; 20]), 1, Some(2));
    let mut expected = msgpack.to_vec();
    expected.extend_from_slice(&[0, 0, 0, 0, 0, 0, 0, 1, 1]);
    expected.extend_from_slice(&[0xaa; 20]);
    expected.extend_from_slice(&[0, 0, 0, 0, 0, 0, 0, 0, 2]);
    assert_eq!(pre, expected);

    let h = action_hash(&msgpack, None, 99, Some(5)).unwrap();
    assert_eq!(h, reference_action_hash(&msgpack, None, 99, Some(5)).to_vec());
    let vault = "0x000000000000000000000000000000000000dEaD".to_string();
    let mut vb = [0u8; 20];
    vb[18] = 0xde;
    vb[19] = 0xad;
    let h = action_hash(&msgpack, Some(vault), 99, None).unwrap();
    assert_eq!(h, reference_action_hash(&msgpack, Some(vb), 99, None).to_vec());
}

#[test]
fn malformed_vault_is_rejected() {
    let e = action_hash(&[0x90], Some("0x1234".to_string()), 1, None).unwrap_err();
    assert!(matches!(e, HyperliquidError::InvalidRequestParameter { method, parameter, .. }
        if method == "action_hash" && parameter == "vault_address"));
    let e = sign_l1_action(&wallet(), &[0x90], Some("vault".to_string()), 1, None, false).unwrap_err();
    assert!(matches!(e, HyperliquidError::InvalidRequestParameter { .. }));
}

#[test]
fn domains_match_alloy() {
    let l1 = get_l1_domain();
    assert_eq!(l1.name, "Exchange");
    assert_eq!(l1.version, "1");
    assert_eq!(l1.chain_id, 1337);
    assert_eq!(l1.verifying_contract, [0u8; 20]);
    let d = get_hyperliquid_domain(421614);
    assert_eq!(d.name, "HyperliquidSignTransaction");
    assert_eq!(d.chain_id, 421614);
    let sep = domain_hash("Exchange", 1337);
    let sh = [5u8; 32];
    assert_eq!(eip712_digest(sep.as_slice(), &sh), digest(sep, B256::from(sh)).to_vec());
}

#[test]
fn l1_digest_matches_reference() {
    let conn = [9u8; 32];
    for mainnet in [true, false] {
        assert_eq!(
            l1_signing_hash(&conn, mainnet),
            reference_l1_digest(B256::from(conn), mainnet).to_vec()
        );
    }
    let mut data = keccak256("Agent(string source,bytes32 connectionId)".as_bytes()).to_vec();
    data.extend_from_slice(keccak256(b"a").as_slice());
    data.extend_from_slice(&conn);
    assert_eq!(agent_struct_hash("a", &conn), keccak256(&data).to_vec());
}

#[test]
fn l1_signature_matches_alloy_and_recovers() {
    let msgpack = [0x81u8, 0xa1, b'a', 0x01];
    for mainnet in [true, false] {
        let sig = sign_l1_action(&wallet(), &msgpack, None, 1700000000000, Some(1700000060000), mainnet).unwrap();
        let d = reference_l1_digest(reference_action_hash(&msgpack, None, 1700000000000, Some(1700000060000)), mainnet);
        let expected = signer().sign_hash_sync(&d).unwrap();
        assert_eq!(sig.r, expected.r().to_be_bytes::<32>().to_vec());
        assert_eq!(sig.s, expected.s().to_be_bytes::<32>().to_vec());
        assert_eq!(sig.v, expected.v());
        assert_eq!(expected.recover_address_from_prehash(&d).unwrap(), signer().address());
    }
}

fn usd_send() -> UsdSendAction {
    UsdSendAction {
        type_: "usdSend".to_string(),
        hyperliquid_chain: "Testnet".to_string(),
        signature_chain_id: 421614,
        destination: "0x0D1d9635D0640821d15e323ac8AdADfA9c111414".to_string(),
        amount: "1".to_string(),
        time: 1700000000000,
    }
}

fn h(s: &str) -> Vec<u8> {
    keccak256(s.as_bytes()).to_vec()
}

fn word(x: u64) -> Vec<u8> {
    U256::from(x).to_be_bytes::<32>().to_vec()
}

#[test]
fn usd_send_struct_hash_matches_reference() {
    let a = usd_send();
    let mut data = h("HyperliquidTransaction:UsdSend(string hyperliquidChain,string destination,string amount,uint64 time)");
    data.extend(h("Testnet"));
    data.extend(h(&a.destination));
    data.extend(h("1"));
    data.extend(word(1700000000000));
    assert_eq!(a.struct_hash(), keccak256(&data).to_vec());
    let expected = digest(domain_hash("HyperliquidSignTransaction", 421614), keccak256(&data));
    assert_eq!(a.eip712_signing_hash(), expected.to_vec());
    let sig = sign_typed_data(&a, &wallet()).unwrap();
    let reference = signer().sign_hash_sync(&expected).unwrap();
    assert_eq!(sig.r, reference.r().to_be_bytes::<32>().to_vec());
    assert_eq!(sig.v, reference.v());
}

#[test]
fn other_user_signed_struct_hashes() {
    let t = UsdClassTransferAction {
        type_: "usdClassTransfer".to_string(),
        hyperliquid_chain: "Mainnet".to_string(),
        signature_chain_id: 42161,
        amount: "2.5".to_string(),
        to_perp: true,
        nonce: 7,
    };
    let mut data = h("HyperliquidTransaction:UsdClassTransfer(string hyperliquidChain,string amount,bool toPerp,uint64 nonce)");
    data.extend(h("Mainnet"));
    data.extend(h("2.5"));
    data.extend(word(1));
    data.extend(word(7));
    assert_eq!(t.struct_hash(), keccak256(&data).to_vec());

    let w = WithdrawAction {
        type_: "withdraw3".to_string(),
        hyperliquid_chain: "Mainnet".to_string(),
        signature_chain_id: 42161,
        amount: "3".to_string(),
        time: 9,
        destination: "0xabc".to_string(),
    };
    let mut data = h("HyperliquidTransaction:Withdraw(string hyperliquidChain,string destination,string amount,uint64 time)");
    data.extend(h("Mainnet"));
    data.extend(h("0xabc"));
    data.extend(h("3"));
    data.extend(word(9));
    assert_eq!(w.struct_hash(), keccak256(&data).to_vec());

    let s = SendAssetAction {
        type_: "sendAsset".to_string(),
        hyperliquid_chain: "Testnet".to_string(),
        signature_chain_id: 421614,
        destination: "d".to_string(),
        source_dex: "s".to_string(),
        destination_dex: "t".to_string(),
        token: "USDC".to_string(),
        amount: "1".to_string(),
        from_sub_account: String::new(),
        nonce: 3,
    };
    let mut data = h("HyperliquidTransaction:SendAsset(string hyperliquidChain,string destination,string sourceDex,string destinationDex,string token,string amount,string fromSubAccount,uint64 nonce)");
    for x in ["Testnet", "d", "s", "t", "USDC", "1", ""] {
        data.extend(h(x));
    }
    data.extend(word(3));
    assert_eq!(s.struct_hash(), keccak256(&data).to_vec());
}

#[test]
fn approvals_hash_the_address_as_a_dynamic_string() {
    let a = ApproveBuilderFeeAction {
        type_: "approveBuilderFee".to_string(),
        hyperliquid_chain: "Testnet".to_string(),
        signature_chain_id: 421614,
        max_fee_rate: "0.001%".to_string(),
        builder: "0xeCe9Aa540e6dA813aF0356342E45167A67F54962".to_string(),
        nonce: 11,
    };
    let items = (
        keccak256("HyperliquidTransaction:ApproveBuilderFee(string hyperliquidChain,string maxFeeRate,address builder,uint64 nonce)"),
        keccak256("Testnet"),
        keccak256("0.001%"),
        a.builder.clone(),
        11u64,
    );
    assert_eq!(a.struct_hash(), keccak256(items.abi_encode()).to_vec());

    let g = ApproveAgentAction {
        type_: "approveAgent".to_string(),
        hyperliquid_chain: "Testnet".to_string(),
        signature_chain_id: 421614,
        agent_address: "0x01".to_string(),
        agent_name: None,
        nonce: 2,
    };
    let items = (
        keccak256("HyperliquidTransaction:ApproveAgent(string hyperliquidChain,address agentAddress,string agentName,uint64 nonce)"),
        keccak256("Testnet"),
        "0x01".to_string(),
        keccak256(""),
        2u64,
    );
    assert_eq!(g.struct_hash(), keccak256(items.abi_encode()).to_vec());
    let named = ApproveAgentAction { agent_name: Some("bot".to_string()), ..g };
    let items = (
        keccak256("HyperliquidTransaction:ApproveAgent(string hyperliquidChain,address agentAddress,string agentName,uint64 nonce)"),
        keccak256("Testnet"),
        "0x01".to_string(),
        keccak256("bot"),
        2u64,
    );
    assert_eq!(named.struct_hash(), keccak256(items.abi_encode()).to_vec());
}

#[test]
fn user_signed_actions_use_the_arbitrum_domain() {
    let a = usd_send();
    let out = sign_user_signed_action(&wallet(), &a, true).unwrap();
    let mut data = h("HyperliquidTransaction:UsdSend(string hyperliquidChain,string destination,string amount,uint64 time)");
    data.extend(h("Testnet"));
    data.extend(h(&a.destination));
    data.extend(h("1"));
    data.extend(word(1700000000000));
    let d = digest(domain_hash("HyperliquidSignTransaction", 0x66eee), keccak256(&data));
    let reference = signer().sign_hash_sync(&d).unwrap();
    assert_eq!(out.r, format!("0x{:x}", reference.r()));
    assert_eq!(out.s, format!("0x{:x}", reference.s()));
    assert_eq!(out.v, if reference.v() { 28 } else { 27 });
}

#[test]
fn exchange_requests_need_a_signer() {
    let client = HyperliquidClient::new(NetworkType::Testnet, "u".to_string(), None, None);
    let api = ExchangeApi::new(&client);
    assert!(matches!(api.schedule_cancel(None, None, None, 1), Err(HyperliquidError::SignerRequired)));
    assert!(matches!(api.core_usdc_transfer([1u8; 20], "1".to_string(), 2, 3), Err(HyperliquidError::SignerRequired)));
}

#[test]
fn l1_request_is_signed_over_the_encoded_action() {
    let client = HyperliquidClient::new(NetworkType::Mainnet, "u".to_string(), None, Some(wallet()));
    let api = client.exchange();
    let pending = api.update_leverage(3, true, 10, None, Some(1700000060000), 1700000000000).unwrap();
    assert_eq!(pending.action.type_, "updateLeverage");
    assert_eq!(pending.action.leverage, 10);
    assert!(pending.is_mainnet);
    let msgpack = [0x84u8, 0x01, 0x02];
    let req = pending.sign(&msgpack).unwrap();
    let d = reference_l1_digest(reference_action_hash(&msgpack, None, 1700000000000, Some(1700000060000)), true);
    let reference = signer().sign_hash_sync(&d).unwrap();
    assert_eq!(req.signature.r, format!("0x{:x}", reference.r()));
    assert_eq!(req.signature.s, format!("0x{:x}", reference.s()));
    assert_eq!(req.signature.v, if reference.v() { 28 } else { 27 });
    assert_eq!(req.nonce, 1700000000000);
    assert_eq!(req.expires_after, Some(1700000060000));
    assert!(req.vault_address.is_none());
}

#[test]
fn l1_actions_are_signed_for_the_network_and_vault_transfers_hash_the_vault() {
    let client = HyperliquidClient::new(NetworkType::Mainnet, "u".to_string(), None, Some(wallet()));
    let api = client.exchange();
    let p = api.bulk_cancel_orders(vec![], Some("0x000000000000000000000000000000000000dEaD".to_string()), None, 5).unwrap();
    assert!(p.is_mainnet);
    assert_eq!(p.vault_address.as_deref(), Some("0x000000000000000000000000000000000000dEaD"));
    let v = api.deposit_or_withdraw_from_a_vault("0x000000000000000000000000000000000000dEaD".to_string(), true, 5, None, 6).unwrap();
    assert!(v.vault_address.is_none());
    assert_eq!(v.signing_vault.as_deref(), Some("0x000000000000000000000000000000000000dEaD"));
    let req = v.sign(&[0x90]).unwrap();
    let mut vb = [0u8; 20];
    vb[18] = 0xde;
    vb[19] = 0xad;
    let d = reference_l1_digest(reference_action_hash(&[0x90], Some(vb), 6, None), true);
    let reference = signer().sign_hash_sync(&d).unwrap();
    assert_eq!(req.signature.r, format!("0x{:x}", reference.r()));
    assert!(req.vault_address.is_none());
    let a = api.approve_an_api_wallet("0x01".to_string(), None, 1).unwrap();
    assert_eq!(a.action.type_, "approveAgent");
}

#[test]
fn user_signed_transfer_uses_the_network_and_checksummed_destination() {
    let client = HyperliquidClient::new(NetworkType::Testnet, "u".to_string(), None, Some(wallet()));
    let api = client.exchange();
    let dest = [0xabu8; 20];
    let req = api.core_usdc_transfer(dest, "12.5".to_string(), 1700000000000, 1700000000001).unwrap();
    assert_eq!(req.action.hyperliquid_chain, "Testnet");
    assert_eq!(req.action.signature_chain_id, 421614);
    assert_eq!(req.action.destination, Address::from(dest).to_string());
    assert_eq!(req.nonce, 1700000000001);
    let mut data = h("HyperliquidTransaction:UsdSend(string hyperliquidChain,string destination,string amount,uint64 time)");
    data.extend(h("Testnet"));
    data.extend(h(&Address::from(dest).to_string()));
    data.extend(h("12.5"));
    data.extend(word(1700000000000));
    let d = digest(domain_hash("HyperliquidSignTransaction", 421614), keccak256(&data));
    let reference = signer().sign_hash_sync(&d).unwrap();
    assert_eq!(req.signature.r, format!("0x{:x}", reference.r()));
    let w = api.initiate_withdrawal_request("1".to_string(), 5, dest, 6).unwrap();
    assert_eq!(w.action.destination, Address::from(dest).to_string());
    let s = api.send_asset(dest, "".to_string(), "spot".to_string(), "USDC".to_string(), "1".to_string(), None, 8).unwrap();
    assert_eq!(s.action.from_sub_account, "");
    assert_eq!(s.action.source_dex, "");
    assert_eq!(s.action.destination_dex, "spot");
    assert_eq!(s.action.destination, Address::from(dest).to_string());
}

#[test]
fn dex_abstraction_names_the_signer() {
    let client = HyperliquidClient::new(NetworkType::Testnet, "u".to_string(), None, Some(wallet()));
    let p = client.exchange().enable_hip3_dex_abstraction(4).unwrap();
    assert_eq!(p.action.user, signer().address().to_string());
    assert!(p.action.enabled);
}

#[test]
fn domain_separator_is_the_stated_hash_struct() {
    for (name, chain) in [("Exchange", 1337u64), ("HyperliquidSignTransaction", 0x66eee)] {
        let mut data = h("EIP712Domain(string name,string version,uint256 chainId,address verifyingContract)");
        data.extend(h(name));
        data.extend(h("1"));
        data.extend(word(chain));
        data.extend(word(0));
        assert_eq!(keccak256(&data), domain_hash(name, chain));
    }
}

#[test]
fn checksummed_forms_are_valid_addresses() {
    for bytes in [[0u8; 20], [0xffu8; 20], [0x5au8; 20]] {
        let text = Address::from(bytes).to_string();
        assert!(rhyperliquid::chain::is_valid_hyperliquid_address(&text));
        assert_eq!(rhyperliquid::utils::hex::parse_address_bytes(text.as_bytes()), Some(bytes.to_vec()));
    }
}

#[test]
fn secret_keys_are_nonzero_scalars_below_the_order() {
    let order: [u8; 32] = [
        0xFF, 0xFF, 0xFF, 0xFF, 0xFF, 0xFF, 0xFF, 0xFF, 0xFF, 0xFF, 0xFF, 0xFF, 0xFF, 0xFF, 0xFF, 0xFE,
        0xBA, 0xAE, 0xDC, 0xE6, 0xAF, 0x48, 0xA0, 0x3B, 0xBF, 0xD2, 0x5E, 0x8C, 0xD0, 0x36, 0x41, 0x41,
    ];
    assert!(Wallet::from_bytes(&order).is_none());
    let mut below = order;
    below[31] = 0x40;
    assert!(Wallet::from_bytes(&below).is_some());
    assert!(Wallet::from_bytes(&[0xffu8; 32]).is_none());
    assert!(Wallet::from_bytes(&[1u8; 24]).is_some());
    assert!(Wallet::from_bytes(&[1u8; 23]).is_none());
    assert!(Wallet::from_bytes(&[1u8; 33]).is_none());
    for key in [&order[..], &below[..], &[1u8; 24][..], &[1u8; 23][..]] {
        assert_eq!(Wallet::from_bytes(key).is_some(), PrivateKeySigner::from_slice(key).is_ok());
    }
}

#[test]
fn preimages_of_different_requests_differ() {
    let m = [0x90u8];
    let a = action_hash_preimage(&m, &None, 1, Some(2));
    let b = action_hash_preimage(&m, &None, 1, None);
    let c = action_hash_preimage(&m, &Some(vec![0u8; 20]), 1, None);
    let d = action_hash_preimage(&m, &None, 2, Some(2));
    let e = action_hash_preimage(&m, &None, 1, Some(3));
    let all = [a, b, c, d, e];
    for i in 0..all.len() {
        for j in 0..all.len() {
            assert_eq!(all[i] == all[j], i == j);
        }
    }
}

#[test]
fn isolated_margin_is_added_or_removed() {
    let client = HyperliquidClient::new(NetworkType::Mainnet, "u".to_string(), None, Some(wallet()));
    let api = client.exchange();
    let add = api.update_isolated_margin(2, true, 5_000_000, None, None, 1).unwrap();
    assert_eq!(add.action.type_, "updateIsolatedMargin");
    assert_eq!(add.action.ntli, 5_000_000);
    let remove = api.update_isolated_margin(2, false, -5_000_000, None, None, 1).unwrap();
    assert_eq!(remove.action.ntli, -5_000_000);
    assert!(!remove.action.is_buy);
}

fn field_names(fields: &[(String, JsonValue)]) -> Vec<&str> {
    fields.iter().map(|(k, _)| k.as_str()).collect()
}

#[test]
fn request_body_fields_follow_the_action() {
    let client = HyperliquidClient::new(NetworkType::Mainnet, "u".to_string(), None, Some(wallet()));
    let api = client.exchange();
    let req = api.update_leverage(3, true, 10, None, Some(1700000060000), 1700000000000).unwrap().sign(&[0x90]).unwrap();
    let o = req.payload_fields();
    assert_eq!(field_names(&o.fields), vec!["nonce", "signature", "expiresAfter"]);
    assert!(matches!(o.fields[0].1, JsonValue::Number(1700000000000)));
    assert!(matches!(o.fields[2].1, JsonValue::Number(1700000060000)));
    match &o.fields[1].1 {
        JsonValue::Object(sig) => {
            assert_eq!(sig.len(), 3);
            assert_eq!(sig[0].0, "r");
            assert!(matches!(&sig[0].1, JsonScalar::Str(r) if *r == req.signature.r));
            assert_eq!(sig[1].0, "s");
            assert!(matches!(&sig[1].1, JsonScalar::Str(s) if *s == req.signature.s));
            assert_eq!(sig[2].0, "v");
            assert!(matches!(sig[2].1, JsonScalar::Number(v) if v == req.signature.v as u64));
        }
        _ => panic!("signature is not an object"),
    }
    let vault = "0x000000000000000000000000000000000000dEaD".to_string();
    let req = api.bulk_cancel_orders(vec![], Some(vault.clone()), None, 5).unwrap().sign(&[0x90]).unwrap();
    let o = req.payload_fields();
    assert_eq!(field_names(&o.fields), vec!["nonce", "signature", "vaultAddress"]);
    assert!(matches!(&o.fields[2].1, JsonValue::Str(v) if *v == vault));
}
