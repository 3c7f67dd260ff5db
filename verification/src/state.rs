//! Application state: connection settings, cached responses, form state, the
//! operation registry's slots, and the last status message.
//!
//! The registry (`AsyncTasks`) holds one slot per operation key; a non-empty slot
//! means at most one unit of work for that key is outstanding.  Each slot owns the
//! handle of its in-flight call until the drain step clears it.  The ghost spawn
//! counters record how many calls were ever launched per key, so single-flight can
//! be stated and proved.

use vstd::prelude::*;
use crate::api::{GetNodeInfoResponse, GetBalancesResponse, ListChannelsResponse,
    ListPaymentsResponse, OnchainReceiveResponse, OnchainSendResponse, Bolt11ReceiveResponse,
    Bolt11SendResponse, Bolt12ReceiveResponse, Bolt12SendResponse, OpenChannelResponse,
    CloseChannelResponse, ForceCloseChannelResponse, SpliceInResponse, SpliceOutResponse,
    UpdateChannelConfigResponse, ConnectPeerResponse, PageToken};
use crate::config::{ChainSourceConfig, ChainSourceType};
use crate::task::ChannelTaskHandle;

verus! {

#[derive(Clone, PartialEq)]
pub enum ConnectionStatus {
    Disconnected,
    Connected,
    Error(String),
}

impl Default for ConnectionStatus {
    fn default() -> (r: Self)
        ensures
            r == ConnectionStatus::Disconnected,
    {
        ConnectionStatus::Disconnected
    }
}

#[derive(Clone, Copy, PartialEq)]
pub enum ActiveTab {
    NodeInfo,
    Balances,
    Channels,
    Payments,
    Lightning,
    Onchain,
}

impl Default for ActiveTab {
    fn default() -> (r: Self)
        ensures
            r == ActiveTab::NodeInfo,
    {
        ActiveTab::NodeInfo
    }
}

#[derive(Clone, Copy, PartialEq)]
pub enum LightningTab {
    Bolt11Send,
    Bolt11Receive,
    Bolt12Send,
    Bolt12Receive,
}

impl Default for LightningTab {
    fn default() -> (r: Self)
        ensures
            r == LightningTab::Bolt11Send,
    {
        LightningTab::Bolt11Send
    }
}

#[derive(Clone, Copy, PartialEq)]
pub enum OnchainTab {
    Send,
    Receive,
    History,
}

impl Default for OnchainTab {
    fn default() -> (r: Self)
        ensures
            r == OnchainTab::Send,
    {
        OnchainTab::Send
    }
}

/// Whether a string holds nothing.
pub open spec fn blank(s: String) -> bool {
    s@.len() == 0
}

#[derive(Clone)]
pub struct OpenChannelForm {
    pub node_pubkey: String,
    pub address: String,
    pub channel_amount_sats: String,
    pub push_to_counterparty_msat: String,
    pub announce_channel: bool,
    pub forwarding_fee_proportional_millionths: String,
    pub forwarding_fee_base_msat: String,
    pub cltv_expiry_delta: String,
}

impl OpenChannelForm {
    pub open spec fn is_cleared(self) -> bool {
        &&& blank(self.node_pubkey)
        &&& blank(self.address)
        &&& blank(self.channel_amount_sats)
        &&& blank(self.push_to_counterparty_msat)
        &&& !self.announce_channel
        &&& blank(self.forwarding_fee_proportional_millionths)
        &&& blank(self.forwarding_fee_base_msat)
        &&& blank(self.cltv_expiry_delta)
    }
}

impl Default for OpenChannelForm {
    fn default() -> (r: Self)
        ensures
            r.is_cleared(),
    {
        OpenChannelForm {
            node_pubkey: String::new(),
            address: String::new(),
            channel_amount_sats: String::new(),
            push_to_counterparty_msat: String::new(),
            announce_channel: false,
            forwarding_fee_proportional_millionths: String::new(),
            forwarding_fee_base_msat: String::new(),
            cltv_expiry_delta: String::new(),
        }
    }
}

#[derive(Clone)]
pub struct Bolt11ReceiveForm {
    pub amount_msat: String,
    pub description: String,
    pub expiry_secs: String,
}

impl Bolt11ReceiveForm {
    pub open spec fn is_cleared(self) -> bool {
        blank(self.amount_msat) && blank(self.description) && blank(self.expiry_secs)
    }
}

impl Default for Bolt11ReceiveForm {
    fn default() -> (r: Self)
        ensures
            r.is_cleared(),
    {
        Bolt11ReceiveForm {
            amount_msat: String::new(),
            description: String::new(),
            expiry_secs: String::new(),
        }
    }
}

#[derive(Clone)]
pub struct Bolt11SendForm {
    pub invoice: String,
    pub amount_msat: String,
}

impl Bolt11SendForm {
    pub open spec fn is_cleared(self) -> bool {
        blank(self.invoice) && blank(self.amount_msat)
    }
}

impl Default for Bolt11SendForm {
    fn default() -> (r: Self)
        ensures
            r.is_cleared(),
    {
        Bolt11SendForm { invoice: String::new(), amount_msat: String::new() }
    }
}

#[derive(Clone)]
pub struct Bolt12ReceiveForm {
    pub description: String,
    pub amount_msat: String,
    pub expiry_secs: String,
    pub quantity: String,
}

impl Bolt12ReceiveForm {
    pub open spec fn is_cleared(self) -> bool {
        &&& blank(self.description)
        &&& blank(self.amount_msat)
        &&& blank(self.expiry_secs)
        &&& blank(self.quantity)
    }
}

impl Default for Bolt12ReceiveForm {
    fn default() -> (r: Self)
        ensures
            r.is_cleared(),
    {
        Bolt12ReceiveForm {
            description: String::new(),
            amount_msat: String::new(),
            expiry_secs: String::new(),
            quantity: String::new(),
        }
    }
}

#[derive(Clone)]
pub struct Bolt12SendForm {
    pub offer: String,
    pub amount_msat: String,
    pub quantity: String,
    pub payer_note: String,
}

impl Bolt12SendForm {
    pub open spec fn is_cleared(self) -> bool {
        &&& blank(self.offer)
        &&& blank(self.amount_msat)
        &&& blank(self.quantity)
        &&& blank(self.payer_note)
    }
}

impl Default for Bolt12SendForm {
    fn default() -> (r: Self)
        ensures
            r.is_cleared(),
    {
        Bolt12SendForm {
            offer: String::new(),
            amount_msat: String::new(),
            quantity: String::new(),
            payer_note: String::new(),
        }
    }
}

#[derive(Clone)]
pub struct OnchainSendForm {
    pub address: String,
    pub amount_sats: String,
    pub send_all: bool,
    pub fee_rate_sat_per_vb: String,
}

impl OnchainSendForm {
    pub open spec fn is_cleared(self) -> bool {
        &&& blank(self.address)
        &&& blank(self.amount_sats)
        &&& !self.send_all
        &&& blank(self.fee_rate_sat_per_vb)
    }
}

impl Default for OnchainSendForm {
    fn default() -> (r: Self)
        ensures
            r.is_cleared(),
    {
        OnchainSendForm {
            address: String::new(),
            amount_sats: String::new(),
            send_all: false,
            fee_rate_sat_per_vb: String::new(),
        }
    }
}

#[derive(Clone)]
pub struct SpliceForm {
    pub user_channel_id: String,
    pub counterparty_node_id: String,
    pub splice_amount_sats: String,
    pub address: String,
}

impl SpliceForm {
    pub open spec fn is_cleared(self) -> bool {
        &&& blank(self.user_channel_id)
        &&& blank(self.counterparty_node_id)
        &&& blank(self.splice_amount_sats)
        &&& blank(self.address)
    }
}

impl Default for SpliceForm {
    fn default() -> (r: Self)
        ensures
            r.is_cleared(),
    {
        SpliceForm {
            user_channel_id: String::new(),
            counterparty_node_id: String::new(),
            splice_amount_sats: String::new(),
            address: String::new(),
        }
    }
}

#[derive(Clone)]
pub struct UpdateChannelConfigForm {
    pub user_channel_id: String,
    pub counterparty_node_id: String,
    pub forwarding_fee_proportional_millionths: String,
    pub forwarding_fee_base_msat: String,
    pub cltv_expiry_delta: String,
}

impl UpdateChannelConfigForm {
    pub open spec fn is_cleared(self) -> bool {
        &&& blank(self.user_channel_id)
        &&& blank(self.counterparty_node_id)
        &&& blank(self.forwarding_fee_proportional_millionths)
        &&& blank(self.forwarding_fee_base_msat)
        &&& blank(self.cltv_expiry_delta)
    }
}

impl Default for UpdateChannelConfigForm {
    fn default() -> (r: Self)
        ensures
            r.is_cleared(),
    {
        UpdateChannelConfigForm {
            user_channel_id: String::new(),
            counterparty_node_id: String::new(),
            forwarding_fee_proportional_millionths: String::new(),
            forwarding_fee_base_msat: String::new(),
            cltv_expiry_delta: String::new(),
        }
    }
}

#[derive(Clone)]
pub struct CloseChannelForm {
    pub user_channel_id: String,
    pub counterparty_node_id: String,
    pub force_close_reason: String,
}

impl CloseChannelForm {
    pub open spec fn is_cleared(self) -> bool {
        &&& blank(self.user_channel_id)
        &&& blank(self.counterparty_node_id)
        &&& blank(self.force_close_reason)
    }
}

impl Default for CloseChannelForm {
    fn default() -> (r: Self)
        ensures
            r.is_cleared(),
    {
        CloseChannelForm {
            user_channel_id: String::new(),
            counterparty_node_id: String::new(),
            force_close_reason: String::new(),
        }
    }
}

#[derive(Clone)]
pub struct ConnectPeerForm {
    pub node_pubkey: String,
    pub address: String,
    pub persist: bool,
}

impl ConnectPeerForm {
    pub open spec fn is_cleared(self) -> bool {
        blank(self.node_pubkey) && blank(self.address) && !self.persist
    }
}

impl Default for ConnectPeerForm {
    fn default() -> (r: Self)
        ensures
            r.is_cleared(),
    {
        ConnectPeerForm { node_pubkey: String::new(), address: String::new(), persist: false }
    }
}

/// Editable chain source configuration.
#[derive(Clone)]
pub struct ChainSourceForm {
    pub source_type: ChainSourceType,
    pub btc_rpc_address: String,
    pub btc_rpc_user: String,
    pub btc_rpc_password: String,
    pub server_url: String,
}

impl ChainSourceForm {
    pub open spec fn is_cleared(self) -> bool {
        &&& self.source_type == ChainSourceType::NoSource
        &&& blank(self.btc_rpc_address)
        &&& blank(self.btc_rpc_user)
        &&& blank(self.btc_rpc_password)
        &&& blank(self.server_url)
    }

    /// The form faithfully shows the given configuration.
    pub open spec fn reflects(self, config: ChainSourceConfig) -> bool {
        match config {
            ChainSourceConfig::NoSource => self.is_cleared(),
            ChainSourceConfig::Bitcoind { rpc_address, rpc_user, rpc_password } => {
                &&& self.source_type == ChainSourceType::Bitcoind
                &&& self.btc_rpc_address == rpc_address
                &&& self.btc_rpc_user == rpc_user
                &&& self.btc_rpc_password == rpc_password
                &&& blank(self.server_url)
            },
            ChainSourceConfig::Electrum { server_url } => {
                &&& self.source_type == ChainSourceType::Electrum
                &&& self.server_url == server_url
                &&& blank(self.btc_rpc_address)
                &&& blank(self.btc_rpc_user)
                &&& blank(self.btc_rpc_password)
            },
            ChainSourceConfig::Esplora { server_url } => {
                &&& self.source_type == ChainSourceType::Esplora
                &&& self.server_url == server_url
                &&& blank(self.btc_rpc_address)
                &&& blank(self.btc_rpc_user)
                &&& blank(self.btc_rpc_password)
            },
        }
    }

    /// The configuration this form stands for.
    pub open spec fn config_of(self) -> ChainSourceConfig {
        match self.source_type {
            ChainSourceType::NoSource => ChainSourceConfig::NoSource,
            ChainSourceType::Bitcoind => ChainSourceConfig::Bitcoind {
                rpc_address: self.btc_rpc_address,
                rpc_user: self.btc_rpc_user,
                rpc_password: self.btc_rpc_password,
            },
            ChainSourceType::Electrum => ChainSourceConfig::Electrum {
                server_url: self.server_url,
            },
            ChainSourceType::Esplora => ChainSourceConfig::Esplora {
                server_url: self.server_url,
            },
        }
    }

    pub fn from_config(config: &ChainSourceConfig) -> (r: Self)
        ensures
            r.reflects(*config),
    {
        match config {
            ChainSourceConfig::NoSource => Self::default(),
            ChainSourceConfig::Bitcoind { rpc_address, rpc_user, rpc_password } => ChainSourceForm {
                source_type: ChainSourceType::Bitcoind,
                btc_rpc_address: rpc_address.clone(),
                btc_rpc_user: rpc_user.clone(),
                btc_rpc_password: rpc_password.clone(),
                server_url: String::new(),
            },
            ChainSourceConfig::Electrum { server_url } => ChainSourceForm {
                source_type: ChainSourceType::Electrum,
                btc_rpc_address: String::new(),
                btc_rpc_user: String::new(),
                btc_rpc_password: String::new(),
                server_url: server_url.clone(),
            },
            ChainSourceConfig::Esplora { server_url } => ChainSourceForm {
                source_type: ChainSourceType::Esplora,
                btc_rpc_address: String::new(),
                btc_rpc_user: String::new(),
                btc_rpc_password: String::new(),
                server_url: server_url.clone(),
            },
        }
    }

    pub fn to_config(&self) -> (r: ChainSourceConfig)
        ensures
            r == self.config_of(),
    {
        match self.source_type {
            ChainSourceType::NoSource => ChainSourceConfig::NoSource,
            ChainSourceType::Bitcoind => ChainSourceConfig::Bitcoind {
                rpc_address: self.btc_rpc_address.clone(),
                rpc_user: self.btc_rpc_user.clone(),
                rpc_password: self.btc_rpc_password.clone(),
            },
            ChainSourceType::Electrum => ChainSourceConfig::Electrum {
                server_url: self.server_url.clone(),
            },
            ChainSourceType::Esplora => ChainSourceConfig::Esplora {
                server_url: self.server_url.clone(),
            },
        }
    }
}

impl Default for ChainSourceForm {
    fn default() -> (r: Self)
        ensures
            r.is_cleared(),
    {
        ChainSourceForm {
            source_type: ChainSourceType::NoSource,
            btc_rpc_address: String::new(),
            btc_rpc_user: String::new(),
            btc_rpc_password: String::new(),
            server_url: String::new(),
        }
    }
}

/// Editing a form and reading it back gives the configuration the form showed:
/// the round trip through the editable form loses nothing.
pub proof fn lemma_chain_source_round_trip(f: ChainSourceForm, c: ChainSourceConfig)
    requires
        f.reflects(c),
    ensures
        f.config_of() == c,
{
}

#[derive(Clone)]
pub struct Forms {
    pub open_channel: OpenChannelForm,
    pub bolt11_receive: Bolt11ReceiveForm,
    pub bolt11_send: Bolt11SendForm,
    pub bolt12_receive: Bolt12ReceiveForm,
    pub bolt12_send: Bolt12SendForm,
    pub onchain_send: OnchainSendForm,
    pub splice_in: SpliceForm,
    pub splice_out: SpliceForm,
    pub update_channel_config: UpdateChannelConfigForm,
    pub close_channel: CloseChannelForm,
    pub connect_peer: ConnectPeerForm,
    pub chain_source: ChainSourceForm,
}

impl Default for Forms {
    fn default() -> (r: Self)
        ensures
            r.open_channel.is_cleared(),
            r.bolt11_receive.is_cleared(),
            r.bolt11_send.is_cleared(),
            r.bolt12_receive.is_cleared(),
            r.bolt12_send.is_cleared(),
            r.onchain_send.is_cleared(),
            r.splice_in.is_cleared(),
            r.splice_out.is_cleared(),
            r.update_channel_config.is_cleared(),
            r.close_channel.is_cleared(),
            r.connect_peer.is_cleared(),
            r.chain_source.is_cleared(),
    {
        Forms {
            open_channel: OpenChannelForm::default(),
            bolt11_receive: Bolt11ReceiveForm::default(),
            bolt11_send: Bolt11SendForm::default(),
            bolt12_receive: Bolt12ReceiveForm::default(),
            bolt12_send: Bolt12SendForm::default(),
            onchain_send: OnchainSendForm::default(),
            splice_in: SpliceForm::default(),
            splice_out: SpliceForm::default(),
            update_channel_config: UpdateChannelConfigForm::default(),
            close_channel: CloseChannelForm::default(),
            connect_peer: ConnectPeerForm::default(),
            chain_source: ChainSourceForm::default(),
        }
    }
}

/// The uniform "last status" surface: the most recent success or failure message.
pub struct StatusMessage {
    pub text: String,
    pub is_error: bool,
}

impl StatusMessage {
    pub fn success(text: String) -> (r: Self)
        ensures
            r.text == text,
            !r.is_error,
    {
        StatusMessage { text, is_error: false }
    }

    pub fn error(text: String) -> (r: Self)
        ensures
            r.text == text,
            r.is_error,
    {
        StatusMessage { text, is_error: true }
    }
}

/// The closed, fixed set of operation keys: one per distinct remote call.
#[derive(Debug, Clone, Copy, PartialEq, Eq, Structural)]
pub enum OpKey {
    NodeInfo,
    Balances,
    Channels,
    Payments,
    OnchainReceive,
    OnchainSend,
    Bolt11Receive,
    Bolt11Send,
    Bolt12Receive,
    Bolt12Send,
    OpenChannel,
    CloseChannel,
    ForceCloseChannel,
    SpliceIn,
    SpliceOut,
    UpdateChannelConfig,
    ConnectPeer,
}

/// The operation registry: one slot per operation key, each holding at most one
/// outstanding handle.  The ghost `spawned` map counts, per key, how many units of
/// work were ever launched.
pub struct AsyncTasks {
    pub node_info: Option<ChannelTaskHandle<GetNodeInfoResponse>>,
    pub balances: Option<ChannelTaskHandle<GetBalancesResponse>>,
    pub channels: Option<ChannelTaskHandle<ListChannelsResponse>>,
    pub payments: Option<ChannelTaskHandle<ListPaymentsResponse>>,
    pub onchain_receive: Option<ChannelTaskHandle<OnchainReceiveResponse>>,
    pub onchain_send: Option<ChannelTaskHandle<OnchainSendResponse>>,
    pub bolt11_receive: Option<ChannelTaskHandle<Bolt11ReceiveResponse>>,
    pub bolt11_send: Option<ChannelTaskHandle<Bolt11SendResponse>>,
    pub bolt12_receive: Option<ChannelTaskHandle<Bolt12ReceiveResponse>>,
    pub bolt12_send: Option<ChannelTaskHandle<Bolt12SendResponse>>,
    pub open_channel: Option<ChannelTaskHandle<OpenChannelResponse>>,
    pub close_channel: Option<ChannelTaskHandle<CloseChannelResponse>>,
    pub force_close_channel: Option<ChannelTaskHandle<ForceCloseChannelResponse>>,
    pub splice_in: Option<ChannelTaskHandle<SpliceInResponse>>,
    pub splice_out: Option<ChannelTaskHandle<SpliceOutResponse>>,
    pub update_channel_config: Option<ChannelTaskHandle<UpdateChannelConfigResponse>>,
    pub connect_peer: Option<ChannelTaskHandle<ConnectPeerResponse>>,
    pub spawned: Ghost<Map<OpKey, int>>,
}

impl AsyncTasks {
    /// Whether the slot of the given key is occupied.
    pub open spec fn occupied(self, k: OpKey) -> bool {
        match k {
            OpKey::NodeInfo => self.node_info is Some,
            OpKey::Balances => self.balances is Some,
            OpKey::Channels => self.channels is Some,
            OpKey::Payments => self.payments is Some,
            OpKey::OnchainReceive => self.onchain_receive is Some,
            OpKey::OnchainSend => self.onchain_send is Some,
            OpKey::Bolt11Receive => self.bolt11_receive is Some,
            OpKey::Bolt11Send => self.bolt11_send is Some,
            OpKey::Bolt12Receive => self.bolt12_receive is Some,
            OpKey::Bolt12Send => self.bolt12_send is Some,
            OpKey::OpenChannel => self.open_channel is Some,
            OpKey::CloseChannel => self.close_channel is Some,
            OpKey::ForceCloseChannel => self.force_close_channel is Some,
            OpKey::SpliceIn => self.splice_in is Some,
            OpKey::SpliceOut => self.splice_out is Some,
            OpKey::UpdateChannelConfig => self.update_channel_config is Some,
            OpKey::ConnectPeer => self.connect_peer is Some,
        }
    }

    /// How many units of work were ever launched for the given key.
    pub open spec fn spawns(self, k: OpKey) -> int {
        self.spawned@[k]
    }

    /// Every stored handle still owes its outcome: nothing in a slot has been
    /// drained already.
    pub open spec fn wf(self) -> bool {
        &&& (self.node_info matches Some(h) ==> !h.delivered())
        &&& (self.balances matches Some(h) ==> !h.delivered())
        &&& (self.channels matches Some(h) ==> !h.delivered())
        &&& (self.payments matches Some(h) ==> !h.delivered())
        &&& (self.onchain_receive matches Some(h) ==> !h.delivered())
        &&& (self.onchain_send matches Some(h) ==> !h.delivered())
        &&& (self.bolt11_receive matches Some(h) ==> !h.delivered())
        &&& (self.bolt11_send matches Some(h) ==> !h.delivered())
        &&& (self.bolt12_receive matches Some(h) ==> !h.delivered())
        &&& (self.bolt12_send matches Some(h) ==> !h.delivered())
        &&& (self.open_channel matches Some(h) ==> !h.delivered())
        &&& (self.close_channel matches Some(h) ==> !h.delivered())
        &&& (self.force_close_channel matches Some(h) ==> !h.delivered())
        &&& (self.splice_in matches Some(h) ==> !h.delivered())
        &&& (self.splice_out matches Some(h) ==> !h.delivered())
        &&& (self.update_channel_config matches Some(h) ==> !h.delivered())
        &&& (self.connect_peer matches Some(h) ==> !h.delivered())
    }

    /// Whether any slot is occupied, as a plain disjunction.
    pub open spec fn any_occupied(self) -> bool {
        ||| self.node_info is Some
        ||| self.balances is Some
        ||| self.channels is Some
        ||| self.payments is Some
        ||| self.onchain_receive is Some
        ||| self.onchain_send is Some
        ||| self.bolt11_receive is Some
        ||| self.bolt11_send is Some
        ||| self.bolt12_receive is Some
        ||| self.bolt12_send is Some
        ||| self.open_channel is Some
        ||| self.close_channel is Some
        ||| self.force_close_channel is Some
        ||| self.splice_in is Some
        ||| self.splice_out is Some
        ||| self.update_channel_config is Some
        ||| self.connect_peer is Some
    }

    /// Every slot but the given key's holds the same handle in both registries.
    pub open spec fn slots_eq_except(self, other: Self, k: OpKey) -> bool {
        &&& (k != OpKey::NodeInfo ==> self.node_info == other.node_info)
        &&& (k != OpKey::Balances ==> self.balances == other.balances)
        &&& (k != OpKey::Channels ==> self.channels == other.channels)
        &&& (k != OpKey::Payments ==> self.payments == other.payments)
        &&& (k != OpKey::OnchainReceive ==> self.onchain_receive == other.onchain_receive)
        &&& (k != OpKey::OnchainSend ==> self.onchain_send == other.onchain_send)
        &&& (k != OpKey::Bolt11Receive ==> self.bolt11_receive == other.bolt11_receive)
        &&& (k != OpKey::Bolt11Send ==> self.bolt11_send == other.bolt11_send)
        &&& (k != OpKey::Bolt12Receive ==> self.bolt12_receive == other.bolt12_receive)
        &&& (k != OpKey::Bolt12Send ==> self.bolt12_send == other.bolt12_send)
        &&& (k != OpKey::OpenChannel ==> self.open_channel == other.open_channel)
        &&& (k != OpKey::CloseChannel ==> self.close_channel == other.close_channel)
        &&& (k != OpKey::ForceCloseChannel ==> self.force_close_channel
            == other.force_close_channel)
        &&& (k != OpKey::SpliceIn ==> self.splice_in == other.splice_in)
        &&& (k != OpKey::SpliceOut ==> self.splice_out == other.splice_out)
        &&& (k != OpKey::UpdateChannelConfig ==> self.update_channel_config
            == other.update_channel_config)
        &&& (k != OpKey::ConnectPeer ==> self.connect_peer == other.connect_peer)
    }

    /// Check whether any task is outstanding; drives the redraw-scheduling policy.
    pub fn any_pending(&self) -> (r: bool)
        ensures
            r == self.any_occupied(),
    {
        self.node_info.is_some() || self.balances.is_some() || self.channels.is_some()
            || self.payments.is_some() || self.onchain_receive.is_some()
            || self.onchain_send.is_some() || self.bolt11_receive.is_some()
            || self.bolt11_send.is_some() || self.bolt12_receive.is_some()
            || self.bolt12_send.is_some() || self.open_channel.is_some()
            || self.close_channel.is_some() || self.force_close_channel.is_some()
            || self.splice_in.is_some() || self.splice_out.is_some()
            || self.update_channel_config.is_some() || self.connect_peer.is_some()
    }
}

impl Default for AsyncTasks {
    fn default() -> (r: Self)
        ensures
            forall|k: OpKey| !r.occupied(k),
            forall|k: OpKey| r.spawns(k) == 0,
            r.wf(),
            !r.any_occupied(),
    {
        let r = AsyncTasks {
            node_info: None,
            balances: None,
            channels: None,
            payments: None,
            onchain_receive: None,
            onchain_send: None,
            bolt11_receive: None,
            bolt11_send: None,
            bolt12_receive: None,
            bolt12_send: None,
            open_channel: None,
            close_channel: None,
            force_close_channel: None,
            splice_in: None,
            splice_out: None,
            update_channel_config: None,
            connect_peer: None,
            spawned: Ghost(Map::total(|k: OpKey| 0int)),
        };
        proof {
            assert forall|k: OpKey| !r.occupied(k) && r.spawns(k) == 0 by {
                assert(r.spawned@[k] == 0);
            }
        }
        r
    }
}

/// Whether any slot is occupied, stated with a quantifier: the plain disjunction
/// `any_occupied` says exactly that some key's slot is occupied.
pub proof fn lemma_any_occupied_exists(t: AsyncTasks)
    ensures
        t.any_occupied() <==> exists|k: OpKey| t.occupied(k),
{
    if t.any_occupied() {
        if t.node_info is Some {
            assert(t.occupied(OpKey::NodeInfo));
        } else if t.balances is Some {
            assert(t.occupied(OpKey::Balances));
        } else if t.channels is Some {
            assert(t.occupied(OpKey::Channels));
        } else if t.payments is Some {
            assert(t.occupied(OpKey::Payments));
        } else if t.onchain_receive is Some {
            assert(t.occupied(OpKey::OnchainReceive));
        } else if t.onchain_send is Some {
            assert(t.occupied(OpKey::OnchainSend));
        } else if t.bolt11_receive is Some {
            assert(t.occupied(OpKey::Bolt11Receive));
        } else if t.bolt11_send is Some {
            assert(t.occupied(OpKey::Bolt11Send));
        } else if t.bolt12_receive is Some {
            assert(t.occupied(OpKey::Bolt12Receive));
        } else if t.bolt12_send is Some {
            assert(t.occupied(OpKey::Bolt12Send));
        } else if t.open_channel is Some {
            assert(t.occupied(OpKey::OpenChannel));
        } else if t.close_channel is Some {
            assert(t.occupied(OpKey::CloseChannel));
        } else if t.force_close_channel is Some {
            assert(t.occupied(OpKey::ForceCloseChannel));
        } else if t.splice_in is Some {
            assert(t.occupied(OpKey::SpliceIn));
        } else if t.splice_out is Some {
            assert(t.occupied(OpKey::SpliceOut));
        } else if t.update_channel_config is Some {
            assert(t.occupied(OpKey::UpdateChannelConfig));
        } else {
            assert(t.occupied(OpKey::ConnectPeer));
        }
    }
}


/// What one slot looks like from outside: whether it is occupied, and how many
/// units of work were ever launched for its key.
pub struct SlotObs {
    pub occupied: bool,
    pub spawns: int,
}

/// One event at a slot: a trigger decision (`fired` says whether it asked for a
/// launch; `gate` collects the conditions besides the guard, such as a held client
/// and valid form input), the installation of a freshly launched handle, or one
/// drain observation that either leaves the slot alone or clears a completed one.
pub enum SlotStep {
    Trigger { gate: bool, fired: bool },
    Install,
    Drain { cleared: bool },
}

/// The slot's transition relation: the state machine each operation key follows.
/// Every trigger, install and drain of this crate ensures one of these steps for
/// the key it touches.
pub open spec fn slot_next(pre: SlotObs, step: SlotStep, post: SlotObs) -> bool {
    match step {
        SlotStep::Trigger { gate, fired } => post == pre && fired == (gate && !pre.occupied),
        SlotStep::Install => !pre.occupied && post.occupied && post.spawns == pre.spawns + 1,
        SlotStep::Drain { cleared } => {
            &&& post.spawns == pre.spawns
            &&& if cleared {
                pre.occupied && !post.occupied
            } else {
                post == pre
            }
        },
    }
}

/// The abstract view of one key's slot in a registry.
pub open spec fn slot_obs(t: AsyncTasks, k: OpKey) -> SlotObs {
    SlotObs { occupied: t.occupied(k), spawns: t.spawns(k) }
}

pub struct AppState {
    // Connection settings
    pub server_url: String,
    pub api_key: String,
    pub tls_cert_path: String,
    pub connection_status: ConnectionStatus,
    /// Whether a remote client is held by the caller; the client itself is the
    /// excluded collaborator and lives outside this crate.
    pub has_client: bool,
    // Config info (from a loaded config file)
    pub config_file_path: Option<String>,
    pub network: String,
    pub chain_source: ChainSourceConfig,
    // Navigation
    pub active_tab: ActiveTab,
    // Cached API responses
    pub node_info: Option<GetNodeInfoResponse>,
    pub balances: Option<GetBalancesResponse>,
    pub channels: Option<ListChannelsResponse>,
    pub payments: Option<ListPaymentsResponse>,
    pub payments_page_token: Option<PageToken>,
    // Operation results
    pub onchain_address: Option<String>,
    pub generated_invoice: Option<String>,
    pub generated_offer: Option<String>,
    pub last_payment_id: Option<String>,
    pub last_txid: Option<String>,
    pub last_channel_id: Option<String>,
    // Async tasks
    pub tasks: AsyncTasks,
    // Form state
    pub forms: Forms,
    // UI state
    pub status_message: Option<StatusMessage>,
    pub show_open_channel_dialog: bool,
    pub show_close_channel_dialog: bool,
    pub show_splice_in_dialog: bool,
    pub show_splice_out_dialog: bool,
    pub show_update_config_dialog: bool,
    pub show_connect_peer_dialog: bool,
    pub show_load_config_dialog: bool,
    pub config_paste_text: String,
    pub lightning_tab: LightningTab,
    pub onchain_tab: OnchainTab,
}

impl AppState {
    /// The registry's well-formedness: no stored handle has been drained.
    pub open spec fn wf(self) -> bool {
        self.tasks.wf()
    }
}

/// The connection settings and loaded configuration agree.
pub open spec fn same_connection(a: AppState, b: AppState) -> bool {
    &&& a.server_url == b.server_url
    &&& a.api_key == b.api_key
    &&& a.tls_cert_path == b.tls_cert_path
    &&& a.connection_status == b.connection_status
    &&& a.has_client == b.has_client
    &&& a.config_file_path == b.config_file_path
    &&& a.network == b.network
    &&& a.chain_source == b.chain_source
}

/// The navigation state agrees.
pub open spec fn same_nav(a: AppState, b: AppState) -> bool {
    &&& a.active_tab == b.active_tab
    &&& a.lightning_tab == b.lightning_tab
    &&& a.onchain_tab == b.onchain_tab
}

/// The cached API responses agree.
pub open spec fn same_caches(a: AppState, b: AppState) -> bool {
    &&& a.node_info == b.node_info
    &&& a.balances == b.balances
    &&& a.channels == b.channels
    &&& a.payments == b.payments
    &&& a.payments_page_token == b.payments_page_token
}

/// The remembered operation results agree.
pub open spec fn same_results(a: AppState, b: AppState) -> bool {
    &&& a.onchain_address == b.onchain_address
    &&& a.generated_invoice == b.generated_invoice
    &&& a.generated_offer == b.generated_offer
    &&& a.last_payment_id == b.last_payment_id
    &&& a.last_txid == b.last_txid
    &&& a.last_channel_id == b.last_channel_id
}

/// The dialog flags and the paste buffer agree.
pub open spec fn same_dialogs(a: AppState, b: AppState) -> bool {
    &&& a.show_open_channel_dialog == b.show_open_channel_dialog
    &&& a.show_close_channel_dialog == b.show_close_channel_dialog
    &&& a.show_splice_in_dialog == b.show_splice_in_dialog
    &&& a.show_splice_out_dialog == b.show_splice_out_dialog
    &&& a.show_update_config_dialog == b.show_update_config_dialog
    &&& a.show_connect_peer_dialog == b.show_connect_peer_dialog
    &&& a.show_load_config_dialog == b.show_load_config_dialog
    &&& a.config_paste_text == b.config_paste_text
}

/// Everything agrees but, possibly, the status message.
pub open spec fn eq_except_status(a: AppState, b: AppState) -> bool {
    &&& same_connection(a, b)
    &&& same_nav(a, b)
    &&& same_caches(a, b)
    &&& same_results(a, b)
    &&& same_dialogs(a, b)
    &&& a.tasks == b.tasks
    &&& a.forms == b.forms
}

impl Default for AppState {
    fn default() -> (r: Self)
        ensures
            r.server_url@ == "localhost:3002"@,
            blank(r.api_key),
            blank(r.tls_cert_path),
            r.connection_status == ConnectionStatus::Disconnected,
            !r.has_client,
            r.config_file_path is None,
            blank(r.network),
            r.chain_source == ChainSourceConfig::NoSource,
            r.active_tab == ActiveTab::NodeInfo,
            r.node_info is None,
            r.balances is None,
            r.channels is None,
            r.payments is None,
            r.payments_page_token is None,
            r.onchain_address is None,
            r.generated_invoice is None,
            r.generated_offer is None,
            r.last_payment_id is None,
            r.last_txid is None,
            r.last_channel_id is None,
            forall|k: OpKey| !r.tasks.occupied(k),
            forall|k: OpKey| r.tasks.spawns(k) == 0,
            r.wf(),
            r.forms.onchain_send.is_cleared(),
            r.forms.open_channel.is_cleared(),
            r.status_message is None,
            !r.show_open_channel_dialog,
            !r.show_close_channel_dialog,
            !r.show_splice_in_dialog,
            !r.show_splice_out_dialog,
            !r.show_update_config_dialog,
            !r.show_connect_peer_dialog,
            !r.show_load_config_dialog,
            blank(r.config_paste_text),
            r.lightning_tab == LightningTab::Bolt11Send,
            r.onchain_tab == OnchainTab::Send,
    {
        AppState {
            server_url: "localhost:3002".to_owned(),
            api_key: String::new(),
            tls_cert_path: String::new(),
            connection_status: ConnectionStatus::default(),
            has_client: false,
            config_file_path: None,
            network: String::new(),
            chain_source: ChainSourceConfig::default(),
            active_tab: ActiveTab::default(),
            node_info: None,
            balances: None,
            channels: None,
            payments: None,
            payments_page_token: None,
            onchain_address: None,
            generated_invoice: None,
            generated_offer: None,
            last_payment_id: None,
            last_txid: None,
            last_channel_id: None,
            tasks: AsyncTasks::default(),
            forms: Forms::default(),
            status_message: None,
            show_open_channel_dialog: false,
            show_close_channel_dialog: false,
            show_splice_in_dialog: false,
            show_splice_out_dialog: false,
            show_update_config_dialog: false,
            show_connect_peer_dialog: false,
            show_load_config_dialog: false,
            config_paste_text: String::new(),
            lightning_tab: LightningTab::default(),
            onchain_tab: OnchainTab::default(),
        }
    }
}

} // verus!
