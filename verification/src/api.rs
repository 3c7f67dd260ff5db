//! Plain-value model of the remote service's requests and responses.
//!
//! The remote client itself is an excluded collaborator: every operation is an
//! independent fallible asynchronous call.  The registry only routes these values,
//! so each type here carries, as plain values, exactly what the client-facing code
//! reads; the caller converts between these and the wire types when it spawns a
//! call.

use vstd::prelude::*;

verus! {

/// Continuation token for paged payment listings.
#[derive(Debug, PartialEq)]
pub struct PageToken {
    pub token: String,
    pub index: u64,
}

impl Clone for PageToken {
    fn clone(&self) -> (r: Self)
        ensures
            r == *self,
    {
        PageToken { token: self.token.clone(), index: self.index }
    }
}

#[derive(Debug, Clone, PartialEq)]
pub struct BestBlock {
    pub block_hash: String,
    pub height: u32,
}

#[derive(Debug, Clone, PartialEq)]
pub struct GetNodeInfoResponse {
    pub node_id: String,
    pub current_best_block: Option<BestBlock>,
    pub latest_lightning_wallet_sync_timestamp: Option<u64>,
    pub latest_onchain_wallet_sync_timestamp: Option<u64>,
    pub latest_fee_rate_cache_update_timestamp: Option<u64>,
    pub latest_rgs_snapshot_timestamp: Option<u64>,
    pub latest_node_announcement_broadcast_timestamp: Option<u64>,
}

/// One balance still to be swept back to the wallet after a channel closure.
#[derive(Debug, Clone, PartialEq)]
pub enum PendingSweepBalance {
    PendingBroadcast { amount_satoshis: u64 },
    BroadcastAwaitingConfirmation { latest_spending_txid: String, amount_satoshis: u64 },
    AwaitingThresholdConfirmations { confirmation_height: u32, amount_satoshis: u64 },
}

#[derive(Debug, Clone, PartialEq)]
pub struct GetBalancesResponse {
    pub total_onchain_balance_sats: u64,
    pub spendable_onchain_balance_sats: u64,
    pub total_anchor_channels_reserve_sats: u64,
    pub total_lightning_balance_sats: u64,
    pub pending_balances_from_channel_closures: Vec<PendingSweepBalance>,
}

#[derive(Debug, Clone, PartialEq)]
pub struct Channel {
    pub channel_id: String,
    pub user_channel_id: String,
    pub counterparty_node_id: String,
    pub channel_value_sats: u64,
    pub outbound_capacity_msat: u64,
    pub inbound_capacity_msat: u64,
    pub is_channel_ready: bool,
    pub is_usable: bool,
}

#[derive(Debug, Clone, PartialEq)]
pub struct ListChannelsResponse {
    pub channels: Vec<Channel>,
}

#[derive(Debug, Clone, PartialEq)]
pub enum PaymentKind {
    Onchain { txid: String },
    Bolt11,
    Bolt11Jit,
    Bolt12Offer,
    Bolt12Refund,
    Spontaneous,
}

#[derive(Debug, Clone, PartialEq)]
pub struct Payment {
    pub id: String,
    pub kind: Option<PaymentKind>,
    pub amount_msat: Option<u64>,
    pub fee_paid_msat: Option<u64>,
    /// 0 is inbound, 1 is outbound.
    pub direction: i32,
    /// 0 is pending, 1 is succeeded, 2 is failed.
    pub status: i32,
    pub latest_update_timestamp: u64,
}

#[derive(Debug, Clone, PartialEq)]
pub struct ListPaymentsResponse {
    pub payments: Vec<Payment>,
    pub next_page_token: Option<PageToken>,
}

#[derive(Debug, Clone, PartialEq)]
pub struct ListPaymentsRequest {
    pub page_token: Option<PageToken>,
}

#[derive(Debug, Clone, PartialEq)]
pub struct OnchainReceiveResponse {
    pub address: String,
}

#[derive(Debug, Clone, PartialEq)]
pub struct OnchainSendRequest {
    pub address: String,
    pub amount_sats: Option<u64>,
    pub send_all: Option<bool>,
    pub fee_rate_sat_per_vb: Option<u64>,
}

#[derive(Debug, Clone, PartialEq)]
pub struct OnchainSendResponse {
    pub txid: String,
}

#[derive(Debug, Clone, PartialEq)]
pub struct Bolt11ReceiveRequest {
    /// A direct description for the invoice, when one was given.
    pub description: Option<String>,
    pub amount_msat: Option<u64>,
    pub expiry_secs: u32,
}

#[derive(Debug, Clone, PartialEq)]
pub struct Bolt11ReceiveResponse {
    pub invoice: String,
}

#[derive(Debug, Clone, PartialEq)]
pub struct Bolt11SendRequest {
    pub invoice: String,
    pub amount_msat: Option<u64>,
}

#[derive(Debug, Clone, PartialEq)]
pub struct Bolt11SendResponse {
    pub payment_id: String,
}

#[derive(Debug, Clone, PartialEq)]
pub struct Bolt12ReceiveRequest {
    pub description: String,
    pub amount_msat: Option<u64>,
    pub expiry_secs: Option<u32>,
    pub quantity: Option<u64>,
}

#[derive(Debug, Clone, PartialEq)]
pub struct Bolt12ReceiveResponse {
    pub offer: String,
}

#[derive(Debug, Clone, PartialEq)]
pub struct Bolt12SendRequest {
    pub offer: String,
    pub amount_msat: Option<u64>,
    pub quantity: Option<u64>,
    pub payer_note: Option<String>,
}

#[derive(Debug, Clone, PartialEq)]
pub struct Bolt12SendResponse {
    pub payment_id: String,
}

/// Optional channel settings attached to opening or updating a channel.
#[derive(Debug, Clone, PartialEq)]
pub struct ChannelConfig {
    pub forwarding_fee_proportional_millionths: Option<u32>,
    pub forwarding_fee_base_msat: Option<u32>,
    pub cltv_expiry_delta: Option<u32>,
}

#[derive(Debug, Clone, PartialEq)]
pub struct OpenChannelRequest {
    pub node_pubkey: String,
    pub address: String,
    pub channel_amount_sats: u64,
    pub push_to_counterparty_msat: Option<u64>,
    pub channel_config: Option<ChannelConfig>,
    pub announce_channel: bool,
}

#[derive(Debug, Clone, PartialEq)]
pub struct OpenChannelResponse {
    pub user_channel_id: String,
}

#[derive(Debug, Clone, PartialEq)]
pub struct CloseChannelRequest {
    pub user_channel_id: String,
    pub counterparty_node_id: String,
}

#[derive(Debug, Clone, PartialEq)]
pub struct CloseChannelResponse {}

#[derive(Debug, Clone, PartialEq)]
pub struct ForceCloseChannelRequest {
    pub user_channel_id: String,
    pub counterparty_node_id: String,
    pub force_close_reason: Option<String>,
}

#[derive(Debug, Clone, PartialEq)]
pub struct ForceCloseChannelResponse {}

#[derive(Debug, Clone, PartialEq)]
pub struct SpliceInRequest {
    pub user_channel_id: String,
    pub counterparty_node_id: String,
    pub splice_amount_sats: u64,
}

#[derive(Debug, Clone, PartialEq)]
pub struct SpliceInResponse {}

#[derive(Debug, Clone, PartialEq)]
pub struct SpliceOutRequest {
    pub user_channel_id: String,
    pub counterparty_node_id: String,
    pub address: Option<String>,
    pub splice_amount_sats: u64,
}

#[derive(Debug, Clone, PartialEq)]
pub struct SpliceOutResponse {
    pub address: String,
}

#[derive(Debug, Clone, PartialEq)]
pub struct UpdateChannelConfigRequest {
    pub user_channel_id: String,
    pub counterparty_node_id: String,
    pub channel_config: ChannelConfig,
}

#[derive(Debug, Clone, PartialEq)]
pub struct UpdateChannelConfigResponse {}

#[derive(Debug, Clone, PartialEq)]
pub struct ConnectPeerRequest {
    pub node_pubkey: String,
    pub address: String,
    pub persist: bool,
}

#[derive(Debug, Clone, PartialEq)]
pub struct ConnectPeerResponse {}

/// What the caller needs to build the remote client: trimmed server URL, the API
/// key, and the path of the TLS certificate to read.
#[derive(Debug, Clone, PartialEq)]
pub struct ConnectRequest {
    pub server_url: String,
    pub api_key: String,
    pub tls_cert_path: String,
}

} // verus!
