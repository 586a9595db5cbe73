//! The exchange endpoint, used to interact with and trade on the Hyperliquid
//! chain.
//!
//! Many of the requests take an asset index: for perpetuals the index in the
//! universe of the metadata, for spot assets 10000 plus the index in the spot
//! metadata universe.
//!
//! Subaccounts and vaults have no private keys: the master account signs and
//! the vault address names the subaccount or vault. Some actions take an
//! optional expiry after which they are rejected; user-signed actions do not.
//!
//! L1 actions are signed over the msgpack encoding of the action: a method
//! gives the action and its signing parameters, and [`PendingL1Action::sign`]
//! takes the encoding and gives the signed request.
use vstd::prelude::*;
use crate::utils::opt_string_view;
use crate::chain::{checksum_address, spec_checksum_address};
use crate::client::HyperliquidClient;
use crate::error::HyperliquidError;
use crate::signature::eip712::{spec_eip712_signing_hash, Eip712};
use crate::signature::sign::{
    ecdsa_sign_prehash, ecrecover_address, is_invalid_vault_error, sign_l1_action, sign_typed_data,
    secret_key_address, spec_action_hash, spec_checked_signature, spec_l1_signing_hash, spec_vault_address_bytes, Wallet,
};
use crate::types::chain::NetworkType;
use crate::types::exchange::order::{
    AgentEnableDexAbstractionAction, ApproveAgentAction, ApproveBuilderFeeAction, BatchModifyAction,
    Builder, CDepositAction, CWithdrawAction, CancelAction, CancelRequest, Grouping, ModifyAction,
    ModifyRequest, NoopAction, OrderAction, OrderRequest, ReserveRequestWeightAction,
    ScheduleCancelAction, SendAssetAction, TokenDelegateAction, TwapCancelAction, TwapOrderAction,
    TwapRequest, UpdateIsolatedMarginAction, UpdateLeverageAction, UsdClassTransferAction,
    UsdSendAction, UserDexAbstractionAction, ValidatorL1StreamAction, VaultTransferAction,
    WithdrawAction,
};
use crate::types::exchange::order::{
    send_asset_struct_hash, usd_class_transfer_struct_hash, usd_send_struct_hash, user_signed_domain,
};
use crate::types::signature::Eip712Signature;
use crate::api::request_util::{scalar_fields_view, JsonObject, JsonScalar, JsonScalarV, JsonValue, JsonValueV};
use crate::utils::hex::hex_numeral;

verus! {

/// The wire form of a signature `(r, s, v)`: `r` and `s` as `0x`-prefixed
/// hexadecimal numerals, `v` as 27 or 28.
pub open spec fn spec_wire_signature(sig: (Seq<u8>, Seq<u8>, bool), out: Eip712Signature) -> bool {
    &&& out.r@ == "0x"@ + hex_numeral(sig.0)
    &&& out.s@ == "0x"@ + hex_numeral(sig.1)
    &&& out.v == (if sig.2 { 28u8 } else { 27u8 })
}

/// A given text, or the empty string.
pub open spec fn text_or_empty(o: Option<String>) -> Seq<char> {
    match o {
        Some(s) => s@,
        None => Seq::empty(),
    }
}

/// A given text is kept as it is, and none is the empty text: a sub-account
/// that is given is the one sent and signed, and without one the master
/// account's empty name is.
pub proof fn lemma_text_or_empty_keeps_the_text(o: Option<String>)
    ensures
        o matches Some(t) ==> text_or_empty(o) == t@,
        o is None ==> text_or_empty(o).len() == 0,
{
}

/// An asset sent from a given sub-account is signed as sent from that
/// sub-account: the struct hash signed is the one whose `fromSubAccount` is
/// the sub-account's own text.
pub proof fn lemma_send_asset_signs_the_sub_account(
    chain: Seq<char>,
    destination: Seq<char>,
    source_dex: Seq<char>,
    destination_dex: Seq<char>,
    token: Seq<char>,
    amount: Seq<char>,
    sub_account: String,
    nonce: u64,
)
    ensures
        send_asset_struct_hash(
            chain,
            destination,
            source_dex,
            destination_dex,
            token,
            amount,
            text_or_empty(Some(sub_account)),
            nonce,
        ) == send_asset_struct_hash(chain, destination, source_dex, destination_dex, token, amount, sub_account@, nonce),
{
}

/// The vault bytes hashed into the connection id: none without a vault, the
/// parsed address with one.
pub open spec fn hashed_vault(vault: Option<Seq<char>>) -> Option<Seq<u8>> {
    match spec_vault_address_bytes(vault) {
        Some(v) => v,
        None => None,
    }
}

/// The checked signature of an L1 action given its msgpack encoding.
pub open spec fn spec_l1_signature(
    secret: Seq<u8>,
    action_msgpack: Seq<u8>,
    vault: Option<Seq<char>>,
    nonce: u64,
    expires_after: Option<u64>,
    is_mainnet: bool,
) -> Option<(Seq<u8>, Seq<u8>, bool)> {
    spec_checked_signature(
        secret,
        spec_l1_signing_hash(
            spec_action_hash(action_msgpack, hashed_vault(vault), nonce, expires_after),
            is_mainnet,
        ),
    )
}

/// The signature of an L1 request recovers, from the digest of its action,
/// nonce, vault, expiry and network, to the address of the signing wallet.
pub proof fn lemma_l1_signature_recovers(
    secret: Seq<u8>,
    action_msgpack: Seq<u8>,
    vault: Option<Seq<char>>,
    nonce: u64,
    expires_after: Option<u64>,
    is_mainnet: bool,
)
    ensures
        spec_l1_signature(secret, action_msgpack, vault, nonce, expires_after, is_mainnet) matches Some(sig)
            ==> ecrecover_address(
            sig.0,
            sig.1,
            sig.2,
            spec_l1_signing_hash(spec_action_hash(action_msgpack, hashed_vault(vault), nonce, expires_after), is_mainnet),
        ) == Some(secret_key_address(secret)),
{
}

/// A signed request to the exchange endpoint: the action, its nonce and
/// signature, and the vault and expiry sent along with it.
#[derive(Debug, Clone)]
pub struct ExchangeRequest<A> {
    pub action: A,
    pub nonce: u64,
    pub signature: Eip712Signature,
    pub vault_address: Option<String>,
    pub expires_after: Option<u64>,
}

impl<A> ExchangeRequest<A> {
    /// The fields of the request body that follow the action: the nonce, the
    /// signature as `{"r", "s", "v"}`, then `vaultAddress` and `expiresAfter`,
    /// each only when the request carries it.
    pub fn payload_fields(&self) -> (o: JsonObject)
        ensures
            o@ == ({
                let base = seq![
                    ("nonce"@, JsonValueV::Number(self.nonce)),
                    (
                        "signature"@,
                        JsonValueV::Object(
                            seq![
                                ("r"@, JsonScalarV::Str(self.signature.r@)),
                                ("s"@, JsonScalarV::Str(self.signature.s@)),
                                ("v"@, JsonScalarV::Number(self.signature.v as u64)),
                            ],
                        ),
                    ),
                ];
                let with_vault = match self.vault_address {
                    Some(v) => base.push(("vaultAddress"@, JsonValueV::Str(v@))),
                    None => base,
                };
                match self.expires_after {
                    Some(e) => with_vault.push(("expiresAfter"@, JsonValueV::Number(e))),
                    None => with_vault,
                }
            }),
    {
        let mut o = JsonObject::new();
        o.push_number("nonce", self.nonce);
        let mut sig: Vec<(String, JsonScalar)> = Vec::new();
        sig.push((String::from_str("r"), JsonScalar::Str(self.signature.r.clone())));
        sig.push((String::from_str("s"), JsonScalar::Str(self.signature.s.clone())));
        sig.push((String::from_str("v"), JsonScalar::Number(self.signature.v as u64)));
        assert(scalar_fields_view(sig@) =~= seq![
            ("r"@, JsonScalarV::Str(self.signature.r@)),
            ("s"@, JsonScalarV::Str(self.signature.s@)),
            ("v"@, JsonScalarV::Number(self.signature.v as u64)),
        ]);
        o.push("signature", JsonValue::Object(sig));
        match &self.vault_address {
            Some(v) => o.push_str("vaultAddress", v.as_str()),
            None => {},
        }
        match self.expires_after {
            Some(e) => o.push_number("expiresAfter", e),
            None => {},
        }
        o
    }
}

/// An L1 action with everything its signature depends on but the msgpack
/// encoding of the action.
pub struct PendingL1Action<'a, A> {
    pub action: A,
    pub wallet: &'a Wallet,
    pub nonce: u64,
    /// The vault hashed into the connection id.
    pub signing_vault: Option<String>,
    /// The vault sent with the request.
    pub vault_address: Option<String>,
    pub expires_after: Option<u64>,
    pub is_mainnet: bool,
}

impl<'a, A> PendingL1Action<'a, A> {
    /// Whether the action and its parameters are the given ones.
    pub open spec fn is(
        &self,
        secret: Seq<u8>,
        action: A,
        nonce: u64,
        signing_vault: Option<Seq<char>>,
        vault_address: Option<Seq<char>>,
        expires_after: Option<u64>,
        is_mainnet: bool,
    ) -> bool {
        &&& self.wallet.secret() == secret
        &&& self.action == action
        &&& self.nonce == nonce
        &&& opt_string_view(self.signing_vault) == signing_vault
        &&& opt_string_view(self.vault_address) == vault_address
        &&& self.expires_after == expires_after
        &&& self.is_mainnet == is_mainnet
    }

    /// Signs the action given its msgpack encoding (named fields). A
    /// malformed signing vault is rejected; a signature that does not recover
    /// to the wallet's address is an error.
    pub fn sign(self, action_msgpack: &[u8]) -> (res: Result<ExchangeRequest<A>, HyperliquidError>)
        ensures
            spec_vault_address_bytes(opt_string_view(self.signing_vault)) == Some(None::<Seq<u8>>) ==> (
            res matches Err(e) && is_invalid_vault_error(e)),
            spec_vault_address_bytes(opt_string_view(self.signing_vault)) != Some(None::<Seq<u8>>) ==> match spec_l1_signature(
                self.wallet.secret(),
                action_msgpack@,
                opt_string_view(self.signing_vault),
                self.nonce,
                self.expires_after,
                self.is_mainnet,
            ) {
                Some(sig) => res matches Ok(r) && r.action == self.action && r.nonce == self.nonce
                    && spec_wire_signature(sig, r.signature) && opt_string_view(r.vault_address)
                    == opt_string_view(self.vault_address) && r.expires_after == self.expires_after,
                None => res matches Err(e) && (e is AlloySignError || e is SignatureError
                    || e is SignatureFailure),
            },
    {
        let sig = sign_l1_action(
            self.wallet,
            action_msgpack,
            self.signing_vault,
            self.nonce,
            self.expires_after,
            self.is_mainnet,
        )?;
        Ok(
            ExchangeRequest {
                action: self.action,
                nonce: self.nonce,
                signature: Eip712Signature::from_signature(&sig),
                vault_address: self.vault_address,
                expires_after: self.expires_after,
            },
        )
    }
}

/// The outcome of signing a user-signed action under a domain and with a
/// struct hash: the signed request when signing succeeds, a signing failure
/// otherwise.
pub open spec fn user_signed_outcome<A>(
    secret: Seq<u8>,
    domain: (Seq<char>, Seq<char>, u64, Seq<u8>),
    struct_hash: Seq<u8>,
    nonce: u64,
    res: Result<ExchangeRequest<A>, HyperliquidError>,
) -> bool {
    match ecdsa_sign_prehash(secret, spec_eip712_signing_hash(domain, struct_hash)) {
        Some(sig) => res matches Ok(r) && r.nonce == nonce && spec_wire_signature(sig, r.signature)
            && r.vault_address is None && r.expires_after is None,
        None => res matches Err(e) && e is SignatureFailure,
    }
}

/// The exchange endpoint of a client.
pub struct ExchangeApi<'client> {
    client: &'client HyperliquidClient,
}

impl<'client> ExchangeApi<'client> {
    /// The client the requests belong to.
    pub closed spec fn client(&self) -> &'client HyperliquidClient {
        self.client
    }

    pub fn new(client: &'client HyperliquidClient) -> (api: Self)
        ensures
            api.client() == client,
    {
        ExchangeApi { client }
    }

    /// The secret key of the client's wallet.
    pub open spec fn secret(&self) -> Seq<u8> {
        self.client()@.wallet->0
    }

    /// The network name and signature chain id of the client's network.
    pub open spec fn chain(&self) -> (Seq<char>, u64) {
        (self.client()@.network.spec_hyperliquid_chain(), self.client()@.network.spec_signature_chain_id())
    }

    /// An L1 action signed by the client's wallet, which must be present.
    fn pending<A>(
        &self,
        action: A,
        nonce: u64,
        signing_vault: Option<String>,
        vault_address: Option<String>,
        expires_after: Option<u64>,
        is_mainnet: bool,
    ) -> (res: Result<PendingL1Action<'client, A>, HyperliquidError>)
        ensures
            self.client()@.wallet is None ==> res matches Err(HyperliquidError::SignerRequired),
            self.client()@.wallet is Some ==> (res matches Ok(p) && p.is(
                self.secret(),
                action,
                nonce,
                opt_string_view(signing_vault),
                opt_string_view(vault_address),
                expires_after,
                is_mainnet,
            )),
    {
        let client: &'client HyperliquidClient = self.client;
        match client.signer() {
            None => Err(HyperliquidError::SignerRequired),
            Some(wallet) => Ok(
                PendingL1Action {
                    action,
                    wallet,
                    nonce,
                    signing_vault,
                    vault_address,
                    expires_after,
                    is_mainnet,
                },
            ),
        }
    }

    /// The network fields of user-signed actions.
    fn chain_fields(&self) -> (r: (String, u64))
        ensures
            (r.0@, r.1) == self.chain(),
    {
        let network: NetworkType = self.client.network_type();
        (network.hyperliquid_chain(), network.signature_chain_id())
    }

    /// Signs a user-signed action with the client's wallet, which must be present.
    fn user_signed<A: Eip712>(&self, action: A, nonce: u64) -> (res: Result<ExchangeRequest<A>, HyperliquidError>)
        ensures
            self.client()@.wallet is None ==> res matches Err(HyperliquidError::SignerRequired),
            self.client()@.wallet is Some ==> user_signed_outcome(
                self.secret(),
                action.spec_domain(),
                action.spec_struct_hash(),
                nonce,
                res,
            ),
            res matches Ok(r) ==> r.action == action,
    {
        let client: &'client HyperliquidClient = self.client;
        let wallet = match client.signer() {
            None => return Err(HyperliquidError::SignerRequired),
            Some(w) => w,
        };
        let sig = sign_typed_data(&action, wallet)?;
        Ok(
            ExchangeRequest {
                action,
                nonce,
                signature: Eip712Signature::from_signature(&sig),
                vault_address: None,
                expires_after: None,
            },
        )
    }

    /// Places one order.
    pub fn place_order(
        &self,
        order: OrderRequest,
        grouping: Grouping,
        builder: Option<Builder>,
        vault_address: Option<String>,
        expires_after: Option<u64>,
        nonce: u64,
    ) -> (res: Result<PendingL1Action<'client, OrderAction>, HyperliquidError>)
        ensures
            self.client()@.wallet is None ==> res matches Err(HyperliquidError::SignerRequired),
            self.client()@.wallet is Some ==> (res matches Ok(p) && p.action.type_@ == "order"@
                && p.action.orders@ == seq![order] && p.action.grouping == grouping && p.action.builder
                == builder && p.is(
                self.secret(),
                p.action,
                nonce,
                opt_string_view(vault_address),
                opt_string_view(vault_address),
                expires_after,
                self.client()@.network == NetworkType::Mainnet,
            )),
    {
        let orders = vec![order];
        self.bulk_orders(orders, grouping, builder, vault_address, expires_after, nonce)
    }

    /// Places several orders. Limit orders carry a time-in-force: `Alo`
    /// (post only), `Ioc` (unfilled part canceled) or `Gtc`.
    pub fn bulk_orders(
        &self,
        orders: Vec<OrderRequest>,
        grouping: Grouping,
        builder: Option<Builder>,
        vault_address: Option<String>,
        expires_after: Option<u64>,
        nonce: u64,
    ) -> (res: Result<PendingL1Action<'client, OrderAction>, HyperliquidError>)
        ensures
            self.client()@.wallet is None ==> res matches Err(HyperliquidError::SignerRequired),
            self.client()@.wallet is Some ==> (res matches Ok(p) && p.action.type_@ == "order"@
                && p.action.orders == orders && p.action.grouping == grouping && p.action.builder
                == builder && p.is(
                self.secret(),
                p.action,
                nonce,
                opt_string_view(vault_address),
                opt_string_view(vault_address),
                expires_after,
                self.client()@.network == NetworkType::Mainnet,
            )),
    {
        let action = OrderAction { type_: String::from_str("order"), orders, grouping, builder };
        let signing_vault = vault_address.clone();
        self.pending(action, nonce, signing_vault, vault_address, expires_after, self.client.is_mainnet())
    }

    /// Cancels one order.
    pub fn cancel_order(
        &self,
        cancel: CancelRequest,
        vault_address: Option<String>,
        expires_after: Option<u64>,
        nonce: u64,
    ) -> (res: Result<PendingL1Action<'client, CancelAction>, HyperliquidError>)
        ensures
            self.client()@.wallet is None ==> res matches Err(HyperliquidError::SignerRequired),
            self.client()@.wallet is Some ==> (res matches Ok(p) && p.action.type_@ == "cancel"@
                && p.action.cancels@ == seq![cancel] && p.is(
                self.secret(),
                p.action,
                nonce,
                opt_string_view(vault_address),
                opt_string_view(vault_address),
                expires_after,
                self.client()@.network == NetworkType::Mainnet,
            )),
    {
        let cancels = vec![cancel];
        self.bulk_cancel_orders(cancels, vault_address, expires_after, nonce)
    }

    /// Cancels several orders, each given by asset index and order id.
    pub fn bulk_cancel_orders(
        &self,
        cancels: Vec<CancelRequest>,
        vault_address: Option<String>,
        expires_after: Option<u64>,
        nonce: u64,
    ) -> (res: Result<PendingL1Action<'client, CancelAction>, HyperliquidError>)
        ensures
            self.client()@.wallet is None ==> res matches Err(HyperliquidError::SignerRequired),
            self.client()@.wallet is Some ==> (res matches Ok(p) && p.action.type_@ == "cancel"@
                && p.action.cancels == cancels && p.is(
                self.secret(),
                p.action,
                nonce,
                opt_string_view(vault_address),
                opt_string_view(vault_address),
                expires_after,
                self.client()@.network == NetworkType::Mainnet,
            )),
    {
        let action = CancelAction { type_: String::from_str("cancel"), cancels };
        let signing_vault = vault_address.clone();
        self.pending(action, nonce, signing_vault, vault_address, expires_after, self.client.is_mainnet())
    }

    /// Schedules a cancel-all at a future time (a dead man's switch); without
    /// a time, removes the scheduled one.
    pub fn schedule_cancel(
        &self,
        time: Option<u64>,
        vault_address: Option<String>,
        expires_after: Option<u64>,
        nonce: u64,
    ) -> (res: Result<PendingL1Action<'client, ScheduleCancelAction>, HyperliquidError>)
        ensures
            self.client()@.wallet is None ==> res matches Err(HyperliquidError::SignerRequired),
            self.client()@.wallet is Some ==> (res matches Ok(p) && p.action.type_@ == "scheduleCancel"@
                && p.action.time == time && p.is(
                self.secret(),
                p.action,
                nonce,
                opt_string_view(vault_address),
                opt_string_view(vault_address),
                expires_after,
                self.client()@.network == NetworkType::Mainnet,
            )),
    {
        let action = ScheduleCancelAction { type_: String::from_str("scheduleCancel"), time };
        let signing_vault = vault_address.clone();
        let is_mainnet = self.client.is_mainnet();
        self.pending(action, nonce, signing_vault, vault_address, expires_after, is_mainnet)
    }

    /// Modifies an existing order.
    pub fn modify_an_order(
        &self,
        request: ModifyRequest,
        vault_address: Option<String>,
        expires_after: Option<u64>,
        nonce: u64,
    ) -> (res: Result<PendingL1Action<'client, ModifyAction>, HyperliquidError>)
        ensures
            self.client()@.wallet is None ==> res matches Err(HyperliquidError::SignerRequired),
            self.client()@.wallet is Some ==> (res matches Ok(p) && p.action.type_@ == "modify"@
                && p.action.oid == request.oid && p.action.order == request.order && p.is(
                self.secret(),
                p.action,
                nonce,
                opt_string_view(vault_address),
                opt_string_view(vault_address),
                expires_after,
                self.client()@.network == NetworkType::Mainnet,
            )),
    {
        let action = ModifyAction { type_: String::from_str("modify"), oid: request.oid, order: request.order };
        let signing_vault = vault_address.clone();
        let is_mainnet = self.client.is_mainnet();
        self.pending(action, nonce, signing_vault, vault_address, expires_after, is_mainnet)
    }

    /// Modifies several orders in one request.
    pub fn modify_multiple_orders(
        &self,
        requests: Vec<ModifyRequest>,
        vault_address: Option<String>,
        expires_after: Option<u64>,
        nonce: u64,
    ) -> (res: Result<PendingL1Action<'client, BatchModifyAction>, HyperliquidError>)
        ensures
            self.client()@.wallet is None ==> res matches Err(HyperliquidError::SignerRequired),
            self.client()@.wallet is Some ==> (res matches Ok(p) && p.action.type_@ == "batchModify"@
                && p.action.modifies == requests && p.is(
                self.secret(),
                p.action,
                nonce,
                opt_string_view(vault_address),
                opt_string_view(vault_address),
                expires_after,
                self.client()@.network == NetworkType::Mainnet,
            )),
    {
        let action = BatchModifyAction { type_: String::from_str("batchModify"), modifies: requests };
        let signing_vault = vault_address.clone();
        let is_mainnet = self.client.is_mainnet();
        self.pending(action, nonce, signing_vault, vault_address, expires_after, is_mainnet)
    }

    /// Adds or removes margin of an isolated position. `ntli` is the amount
    /// with 6 decimals, signed: adding `k` is sent as `k`, removing `k` as `-k`.
    pub fn update_isolated_margin(
        &self,
        asset: u32,
        is_buy: bool,
        ntli: i64,
        vault_address: Option<String>,
        expires_after: Option<u64>,
        nonce: u64,
    ) -> (res: Result<PendingL1Action<'client, UpdateIsolatedMarginAction>, HyperliquidError>)
        ensures
            self.client()@.wallet is None ==> res matches Err(HyperliquidError::SignerRequired),
            self.client()@.wallet is Some ==> (res matches Ok(p) && p.action.type_@ == "updateIsolatedMargin"@
                && p.action.asset == asset && p.action.is_buy == is_buy && p.action.ntli == ntli && p.is(
                self.secret(),
                p.action,
                nonce,
                opt_string_view(vault_address),
                opt_string_view(vault_address),
                expires_after,
                self.client()@.network == NetworkType::Mainnet,
            )),
    {
        let action = UpdateIsolatedMarginAction {
            type_: String::from_str("updateIsolatedMargin"),
            asset,
            is_buy,
            ntli,
        };
        let signing_vault = vault_address.clone();
        let is_mainnet = self.client.is_mainnet();
        self.pending(action, nonce, signing_vault, vault_address, expires_after, is_mainnet)
    }

    /// Updates the cross or isolated leverage of an asset.
    pub fn update_leverage(
        &self,
        asset: u32,
        is_cross: bool,
        leverage: u32,
        vault_address: Option<String>,
        expires_after: Option<u64>,
        nonce: u64,
    ) -> (res: Result<PendingL1Action<'client, UpdateLeverageAction>, HyperliquidError>)
        ensures
            self.client()@.wallet is None ==> res matches Err(HyperliquidError::SignerRequired),
            self.client()@.wallet is Some ==> (res matches Ok(p) && p.action.type_@ == "updateLeverage"@
                && p.action.asset == asset && p.action.is_cross == is_cross && p.action.leverage
                == leverage && p.is(
                self.secret(),
                p.action,
                nonce,
                opt_string_view(vault_address),
                opt_string_view(vault_address),
                expires_after,
                self.client()@.network == NetworkType::Mainnet,
            )),
    {
        let action = UpdateLeverageAction {
            type_: String::from_str("updateLeverage"),
            asset,
            is_cross,
            leverage,
        };
        let signing_vault = vault_address.clone();
        let is_mainnet = self.client.is_mainnet();
        self.pending(action, nonce, signing_vault, vault_address, expires_after, is_mainnet)
    }

    /// Sends USDC to another address on the L1, without the EVM bridge.
    pub fn core_usdc_transfer(
        &self,
        destination: [u8; 20],
        amount: String,
        time: u64,
        nonce: u64,
    ) -> (res: Result<ExchangeRequest<UsdSendAction>, HyperliquidError>)
        ensures
            self.client()@.wallet is None ==> res matches Err(HyperliquidError::SignerRequired),
            self.client()@.wallet is Some ==> user_signed_outcome(
                self.secret(),
                user_signed_domain(self.chain().1),
                usd_send_struct_hash(self.chain().0, spec_checksum_address(destination@), amount@, time),
                nonce,
                res,
            ),
            res matches Ok(r) ==> r.action.type_@ == "usdSend"@ && r.action.hyperliquid_chain@ == self.chain().0
                && r.action.signature_chain_id == self.chain().1 && r.action.destination@
                == spec_checksum_address(destination@) && r.action.amount == amount && r.action.time == time,
    {
        let (hyperliquid_chain, signature_chain_id) = self.chain_fields();
        let action = UsdSendAction {
            type_: String::from_str("usdSend"),
            hyperliquid_chain,
            signature_chain_id,
            destination: checksum_address(destination.as_slice()),
            amount,
            time,
        };
        self.user_signed(action, nonce)
    }

    /// Initiates a withdrawal to the Arbitrum bridge; it is signed as an L1 action.
    pub fn initiate_withdrawal_request(
        &self,
        amount: String,
        time: u64,
        destination: [u8; 20],
        nonce: u64,
    ) -> (res: Result<PendingL1Action<'client, WithdrawAction>, HyperliquidError>)
        ensures
            self.client()@.wallet is None ==> res matches Err(HyperliquidError::SignerRequired),
            self.client()@.wallet is Some ==> (res matches Ok(p) && p.action.type_@ == "withdraw3"@
                && p.action.hyperliquid_chain@ == self.chain().0 && p.action.signature_chain_id
                == self.chain().1 && p.action.amount == amount && p.action.time == time
                && p.action.destination@ == spec_checksum_address(destination@) && p.is(
                self.secret(),
                p.action,
                nonce,
                None,
                None,
                None,
                self.client()@.network == NetworkType::Mainnet,
            )),
    {
        let (hyperliquid_chain, signature_chain_id) = self.chain_fields();
        let action = WithdrawAction {
            type_: String::from_str("withdraw3"),
            hyperliquid_chain,
            signature_chain_id,
            amount,
            time,
            destination: checksum_address(destination.as_slice()),
        };
        self.pending(action, nonce, None, None, None, self.client.is_mainnet())
    }

    /// Transfers USDC between the spot and perp wallets (`to_perp`: spot to perp).
    pub fn transfer_to_or_from_spot_account_to_or_from_perp_account(
        &self,
        amount: String,
        to_perp: bool,
        nonce: u64,
    ) -> (res: Result<ExchangeRequest<UsdClassTransferAction>, HyperliquidError>)
        ensures
            self.client()@.wallet is None ==> res matches Err(HyperliquidError::SignerRequired),
            self.client()@.wallet is Some ==> user_signed_outcome(
                self.secret(),
                user_signed_domain(self.chain().1),
                usd_class_transfer_struct_hash(self.chain().0, amount@, to_perp, nonce),
                nonce,
                res,
            ),
            res matches Ok(r) ==> r.action.type_@ == "usdClassTransfer"@ && r.action.hyperliquid_chain@
                == self.chain().0 && r.action.signature_chain_id == self.chain().1 && r.action.amount
                == amount && r.action.to_perp == to_perp && r.action.nonce == nonce,
    {
        let (hyperliquid_chain, signature_chain_id) = self.chain_fields();
        let action = UsdClassTransferAction {
            type_: String::from_str("usdClassTransfer"),
            hyperliquid_chain,
            signature_chain_id,
            amount,
            to_perp,
            nonce,
        };
        self.user_signed(action, nonce)
    }

    /// Transfers tokens between perp dexs, spot balances, users and
    /// sub-accounts. A dex is named by its name: `""` for the default USDC
    /// perp dex, `"spot"` for spot. Without a sub-account the empty string
    /// is sent.
    pub fn send_asset(
        &self,
        destination: [u8; 20],
        source_dex: String,
        destination_dex: String,
        token: String,
        amount: String,
        from_sub_account: Option<String>,
        nonce: u64,
    ) -> (res: Result<ExchangeRequest<SendAssetAction>, HyperliquidError>)
        ensures
            self.client()@.wallet is None ==> res matches Err(HyperliquidError::SignerRequired),
            self.client()@.wallet is Some ==> user_signed_outcome(
                self.secret(),
                user_signed_domain(self.chain().1),
                send_asset_struct_hash(
                    self.chain().0,
                    spec_checksum_address(destination@),
                    source_dex@,
                    destination_dex@,
                    token@,
                    amount@,
                    text_or_empty(from_sub_account),
                    nonce,
                ),
                nonce,
                res,
            ),
            res matches Ok(r) ==> r.action.type_@ == "sendAsset"@ && r.action.hyperliquid_chain@ == self.chain().0
                && r.action.signature_chain_id == self.chain().1 && r.action.destination@
                == spec_checksum_address(destination@) && r.action.source_dex == source_dex
                && r.action.destination_dex == destination_dex && r.action.token
                == token && r.action.amount == amount && r.action.from_sub_account@ == text_or_empty(
                from_sub_account,
            ) && r.action.nonce == nonce,
            res matches Ok(r) ==> match from_sub_account {
                Some(sub) => r.action.from_sub_account@ == sub@,
                None => r.action.from_sub_account@.len() == 0,
            },
    {
        let (hyperliquid_chain, signature_chain_id) = self.chain_fields();
        let from_sub_account_param = match from_sub_account {
            Some(s) => s,
            None => String::new(),
        };
        let action = SendAssetAction {
            type_: String::from_str("sendAsset"),
            hyperliquid_chain,
            signature_chain_id,
            destination: checksum_address(destination.as_slice()),
            source_dex,
            destination_dex,
            token,
            amount,
            from_sub_account: from_sub_account_param,
            nonce,
        };
        self.user_signed(action, nonce)
    }

    /// Deposits native tokens from the spot account into staking.
    pub fn deposit_into_staking(&self, wei: u64, nonce: u64) -> (res: Result<
        PendingL1Action<'client, CDepositAction>,
        HyperliquidError,
    >)
        ensures
            self.client()@.wallet is None ==> res matches Err(HyperliquidError::SignerRequired),
            self.client()@.wallet is Some ==> (res matches Ok(p) && p.action.type_@ == "cDeposit"@
                && p.action.hyperliquid_chain@ == self.chain().0 && p.action.signature_chain_id
                == self.chain().1 && p.action.wei == wei && p.action.nonce == nonce && p.is(
                self.secret(),
                p.action,
                nonce,
                None,
                None,
                None,
                self.client()@.network == NetworkType::Mainnet,
            )),
    {
        let (hyperliquid_chain, signature_chain_id) = self.chain_fields();
        let action = CDepositAction {
            type_: String::from_str("cDeposit"),
            hyperliquid_chain,
            signature_chain_id,
            wei,
            nonce,
        };
        self.pending(action, nonce, None, None, None, self.client.is_mainnet())
    }

    /// Withdraws native tokens from staking into the spot account.
    pub fn withdraw_from_staking(&self, wei: u64, nonce: u64) -> (res: Result<
        PendingL1Action<'client, CWithdrawAction>,
        HyperliquidError,
    >)
        ensures
            self.client()@.wallet is None ==> res matches Err(HyperliquidError::SignerRequired),
            self.client()@.wallet is Some ==> (res matches Ok(p) && p.action.type_@ == "cWithdraw"@
                && p.action.hyperliquid_chain@ == self.chain().0 && p.action.signature_chain_id
                == self.chain().1 && p.action.wei == wei && p.action.nonce == nonce && p.is(
                self.secret(),
                p.action,
                nonce,
                None,
                None,
                None,
                self.client()@.network == NetworkType::Mainnet,
            )),
    {
        let (hyperliquid_chain, signature_chain_id) = self.chain_fields();
        let action = CWithdrawAction {
            type_: String::from_str("cWithdraw"),
            hyperliquid_chain,
            signature_chain_id,
            wei,
            nonce,
        };
        self.pending(action, nonce, None, None, None, self.client.is_mainnet())
    }

    /// Delegates native tokens to, or undelegates them from, a validator.
    pub fn delegate_or_undelegate_from_validator(
        &self,
        validator: String,
        is_undelegate: bool,
        wei: u64,
        nonce: u64,
    ) -> (res: Result<PendingL1Action<'client, TokenDelegateAction>, HyperliquidError>)
        ensures
            self.client()@.wallet is None ==> res matches Err(HyperliquidError::SignerRequired),
            self.client()@.wallet is Some ==> (res matches Ok(p) && p.action.type_@ == "tokenDelegate"@
                && p.action.hyperliquid_chain@ == self.chain().0 && p.action.signature_chain_id
                == self.chain().1 && p.action.validator == validator && p.action.is_undelegate
                == is_undelegate && p.action.wei == wei && p.action.nonce == nonce && p.is(
                self.secret(),
                p.action,
                nonce,
                None,
                None,
                None,
                self.client()@.network == NetworkType::Mainnet,
            )),
    {
        let (hyperliquid_chain, signature_chain_id) = self.chain_fields();
        let action = TokenDelegateAction {
            type_: String::from_str("tokenDelegate"),
            hyperliquid_chain,
            signature_chain_id,
            validator,
            is_undelegate,
            wei,
            nonce,
        };
        self.pending(action, nonce, None, None, None, self.client.is_mainnet())
    }

    /// Deposits into or withdraws from a vault. The vault is hashed into the
    /// signature but not sent as the request's vault.
    pub fn deposit_or_withdraw_from_a_vault(
        &self,
        vault_address: String,
        is_deposit: bool,
        usd_amount: u64,
        expires_after: Option<u64>,
        nonce: u64,
    ) -> (res: Result<PendingL1Action<'client, VaultTransferAction>, HyperliquidError>)
        ensures
            self.client()@.wallet is None ==> res matches Err(HyperliquidError::SignerRequired),
            self.client()@.wallet is Some ==> (res matches Ok(p) && p.action.type_@ == "vaultTransfer"@
                && p.action.vault_address@ == vault_address@ && p.action.is_deposit == is_deposit
                && p.action.usd == usd_amount && p.is(
                self.secret(),
                p.action,
                nonce,
                Some(vault_address@),
                None,
                expires_after,
                self.client()@.network == NetworkType::Mainnet,
            )),
    {
        let action = VaultTransferAction {
            type_: String::from_str("vaultTransfer"),
            vault_address: vault_address.clone(),
            is_deposit,
            usd: usd_amount,
        };
        self.pending(action, nonce, Some(vault_address), None, expires_after, self.client.is_mainnet())
    }

    /// Approves an API (agent) wallet to trade for this account: one unnamed
    /// wallet and up to three named ones per account.
    pub fn approve_an_api_wallet(
        &self,
        agent_address: String,
        agent_name: Option<String>,
        nonce: u64,
    ) -> (res: Result<PendingL1Action<'client, ApproveAgentAction>, HyperliquidError>)
        ensures
            self.client()@.wallet is None ==> res matches Err(HyperliquidError::SignerRequired),
            self.client()@.wallet is Some ==> (res matches Ok(p) && p.action.type_@ == "approveAgent"@
                && p.action.hyperliquid_chain@ == self.chain().0 && p.action.signature_chain_id
                == self.chain().1 && p.action.agent_address == agent_address && p.action.agent_name
                == agent_name && p.action.nonce == nonce && p.is(
                self.secret(),
                p.action,
                nonce,
                None,
                None,
                None,
                self.client()@.network == NetworkType::Mainnet,
            )),
    {
        let (hyperliquid_chain, signature_chain_id) = self.chain_fields();
        let action = ApproveAgentAction {
            type_: String::from_str("approveAgent"),
            hyperliquid_chain,
            signature_chain_id,
            agent_address,
            agent_name,
            nonce,
        };
        self.pending(action, nonce, None, None, None, self.client.is_mainnet())
    }

    /// Approves a maximum fee rate (a percent string such as `0.001%`) for a builder.
    pub fn approve_a_builder_fee(
        &self,
        max_fee_rate: String,
        builder: String,
        nonce: u64,
    ) -> (res: Result<PendingL1Action<'client, ApproveBuilderFeeAction>, HyperliquidError>)
        ensures
            self.client()@.wallet is None ==> res matches Err(HyperliquidError::SignerRequired),
            self.client()@.wallet is Some ==> (res matches Ok(p) && p.action.type_@ == "approveBuilderFee"@
                && p.action.hyperliquid_chain@ == self.chain().0 && p.action.signature_chain_id
                == self.chain().1 && p.action.max_fee_rate == max_fee_rate && p.action.builder == builder
                && p.action.nonce == nonce && p.is(
                self.secret(),
                p.action,
                nonce,
                None,
                None,
                None,
                self.client()@.network == NetworkType::Mainnet,
            )),
    {
        let (hyperliquid_chain, signature_chain_id) = self.chain_fields();
        let action = ApproveBuilderFeeAction {
            type_: String::from_str("approveBuilderFee"),
            hyperliquid_chain,
            signature_chain_id,
            max_fee_rate,
            builder,
            nonce,
        };
        self.pending(action, nonce, None, None, None, self.client.is_mainnet())
    }

    /// Places a TWAP order, executed in slices over the given minutes.
    pub fn place_twap_order(
        &self,
        request: TwapRequest,
        vault_address: Option<String>,
        expires_after: Option<u64>,
        nonce: u64,
    ) -> (res: Result<PendingL1Action<'client, TwapOrderAction>, HyperliquidError>)
        ensures
            self.client()@.wallet is None ==> res matches Err(HyperliquidError::SignerRequired),
            self.client()@.wallet is Some ==> (res matches Ok(p) && p.action.type_@ == "twapOrder"@
                && p.action.twap == request && p.is(
                self.secret(),
                p.action,
                nonce,
                opt_string_view(vault_address),
                opt_string_view(vault_address),
                expires_after,
                self.client()@.network == NetworkType::Mainnet,
            )),
    {
        let action = TwapOrderAction { type_: String::from_str("twapOrder"), twap: request };
        let signing_vault = vault_address.clone();
        let is_mainnet = self.client.is_mainnet();
        self.pending(action, nonce, signing_vault, vault_address, expires_after, is_mainnet)
    }

    /// Cancels an active TWAP order.
    pub fn cancel_twap_order(
        &self,
        asset: usize,
        twap_id: u32,
        vault_address: Option<String>,
        expires_after: Option<u64>,
        nonce: u64,
    ) -> (res: Result<PendingL1Action<'client, TwapCancelAction>, HyperliquidError>)
        ensures
            self.client()@.wallet is None ==> res matches Err(HyperliquidError::SignerRequired),
            self.client()@.wallet is Some ==> (res matches Ok(p) && p.action.type_@ == "twapCancel"@
                && p.action.a == asset && p.action.t == twap_id && p.is(
                self.secret(),
                p.action,
                nonce,
                opt_string_view(vault_address),
                opt_string_view(vault_address),
                expires_after,
                self.client()@.network == NetworkType::Mainnet,
            )),
    {
        let action = TwapCancelAction { type_: String::from_str("twapCancel"), a: asset, t: twap_id };
        let signing_vault = vault_address.clone();
        let is_mainnet = self.client.is_mainnet();
        self.pending(action, nonce, signing_vault, vault_address, expires_after, is_mainnet)
    }

    /// Reserves additional actions (0.0005 USDC each, paid from the perps balance).
    pub fn reserve_additional_actions(&self, weight: u32, expires_after: Option<u64>, nonce: u64) -> (res: Result<
        PendingL1Action<'client, ReserveRequestWeightAction>,
        HyperliquidError,
    >)
        ensures
            self.client()@.wallet is None ==> res matches Err(HyperliquidError::SignerRequired),
            self.client()@.wallet is Some ==> (res matches Ok(p) && p.action.type_@ == "reserveRequestWeight"@
                && p.action.weight == weight && p.is(
                self.secret(),
                p.action,
                nonce,
                None,
                None,
                expires_after,
                self.client()@.network == NetworkType::Mainnet,
            )),
    {
        let action = ReserveRequestWeightAction { type_: String::from_str("reserveRequestWeight"), weight };
        let is_mainnet = self.client.is_mainnet();
        self.pending(action, nonce, None, None, expires_after, is_mainnet)
    }

    /// Marks the nonce as used without doing anything else, which cancels
    /// in-flight orders that carry it.
    pub fn invalidate_pending_nonce_noop(&self, expires_after: Option<u64>, nonce: u64) -> (res: Result<
        PendingL1Action<'client, NoopAction>,
        HyperliquidError,
    >)
        ensures
            self.client()@.wallet is None ==> res matches Err(HyperliquidError::SignerRequired),
            self.client()@.wallet is Some ==> (res matches Ok(p) && p.action.type_@ == "noop"@ && p.is(
                self.secret(),
                p.action,
                nonce,
                None,
                None,
                expires_after,
                self.client()@.network == NetworkType::Mainnet,
            )),
    {
        let action = NoopAction { type_: String::from_str("noop") };
        let is_mainnet = self.client.is_mainnet();
        self.pending(action, nonce, None, None, expires_after, is_mainnet)
    }

    /// Enables HIP-3 dex abstraction for the signer's own address.
    pub fn enable_hip3_dex_abstraction(&self, nonce: u64) -> (res: Result<
        PendingL1Action<'client, UserDexAbstractionAction>,
        HyperliquidError,
    >)
        ensures
            self.client()@.wallet is None ==> res matches Err(HyperliquidError::SignerRequired),
            self.client()@.wallet is Some ==> (res matches Ok(p) && p.action.type_@ == "userDexAbstraction"@
                && p.action.hyperliquid_chain@ == self.chain().0 && p.action.signature_chain_id
                == self.chain().1 && p.action.user@ == spec_checksum_address(
                secret_key_address(self.secret()),
            ) && p.action.enabled && p.action.nonce == nonce && p.is(
                self.secret(),
                p.action,
                nonce,
                None,
                None,
                None,
                self.client()@.network == NetworkType::Mainnet,
            )),
    {
        let client: &'client HyperliquidClient = self.client;
        let user = match client.signer() {
            None => return Err(HyperliquidError::SignerRequired),
            Some(w) => {
                let address = w.address();
                checksum_address(address.as_slice())
            },
        };
        let (hyperliquid_chain, signature_chain_id) = self.chain_fields();
        let action = UserDexAbstractionAction {
            type_: String::from_str("userDexAbstraction"),
            hyperliquid_chain,
            signature_chain_id,
            user,
            enabled: true,
            nonce,
        };
        self.pending(action, nonce, None, None, None, self.client.is_mainnet())
    }

    /// Enables HIP-3 dex abstraction from an agent; only changes an unset value.
    pub fn enable_hip3_dex_abstraction_agent(&self, nonce: u64) -> (res: Result<
        PendingL1Action<'client, AgentEnableDexAbstractionAction>,
        HyperliquidError,
    >)
        ensures
            self.client()@.wallet is None ==> res matches Err(HyperliquidError::SignerRequired),
            self.client()@.wallet is Some ==> (res matches Ok(p) && p.action.type_@ == "agentEnableDexAbstraction"@
                && p.is(
                self.secret(),
                p.action,
                nonce,
                None,
                None,
                None,
                self.client()@.network == NetworkType::Mainnet,
            )),
    {
        let action = AgentEnableDexAbstractionAction { type_: String::from_str("agentEnableDexAbstraction") };
        self.pending(action, nonce, None, None, None, self.client.is_mainnet())
    }

    /// A validator's vote on the risk-free rate of an aligned quote asset
    /// (a decimal string such as `0.04`).
    pub fn validator_vote_on_risk_free_rate_for_aligned_quote_asset(
        &self,
        risk_free_rate: String,
        nonce: u64,
    ) -> (res: Result<PendingL1Action<'client, ValidatorL1StreamAction>, HyperliquidError>)
        ensures
            self.client()@.wallet is None ==> res matches Err(HyperliquidError::SignerRequired),
            self.client()@.wallet is Some ==> (res matches Ok(p) && p.action.type_@ == "validatorL1Stream"@
                && p.action.risk_free_rate == risk_free_rate && p.is(
                self.secret(),
                p.action,
                nonce,
                None,
                None,
                None,
                self.client()@.network == NetworkType::Mainnet,
            )),
    {
        let action = ValidatorL1StreamAction { type_: String::from_str("validatorL1Stream"), risk_free_rate };
        self.pending(action, nonce, None, None, None, self.client.is_mainnet())
    }
}

} // verus!
