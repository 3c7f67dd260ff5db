//! The operation registry's behaviour: trigger decisions, handle installation,
//! and the once-per-tick drain.
//!
//! Spawning itself needs an execution substrate (a worker pool or a cooperative
//! event loop), which lives with the caller.  The protocol per operation key is:
//! call the trigger; when it hands back a request, launch the matching remote call
//! on whatever substrate is available and install the resulting handle.  Once per
//! redraw tick, call `poll_tasks`: it drains every completed slot into application
//! state and reports whether work is still pending, so the caller can schedule
//! another poll soon.

use vstd::prelude::*;
use crate::api::{Bolt11ReceiveRequest, Bolt11ReceiveResponse, Bolt11SendRequest,
    Bolt11SendResponse, Bolt12ReceiveRequest, Bolt12ReceiveResponse, Bolt12SendRequest,
    Bolt12SendResponse, ChannelConfig, CloseChannelRequest, CloseChannelResponse,
    ConnectPeerRequest, ConnectPeerResponse, ConnectRequest, ForceCloseChannelRequest,
    ForceCloseChannelResponse, GetBalancesResponse, GetNodeInfoResponse, ListChannelsResponse,
    ListPaymentsRequest, ListPaymentsResponse, OnchainReceiveResponse, OnchainSendRequest,
    OnchainSendResponse, OpenChannelRequest, OpenChannelResponse, SpliceInRequest,
    SpliceInResponse, SpliceOutRequest, SpliceOutResponse, UpdateChannelConfigRequest,
    UpdateChannelConfigResponse};
use crate::state::{AppState, AsyncTasks, Bolt11SendForm, Bolt12SendForm, ChainSourceForm,
    CloseChannelForm, ConnectPeerForm, ConnectionStatus, Forms, OnchainSendForm, OpKey,
    OpenChannelForm, SpliceForm, StatusMessage, UpdateChannelConfigForm,
    eq_except_status, same_caches, same_dialogs, same_nav, same_results, slot_next, slot_obs,
    SlotStep};
use crate::task::ChannelTaskHandle;
use crate::text::{message, parse_u32, parse_u32_spec, parse_u64, parse_u64_spec, trim_of,
    trim_to_string};
use crate::config::GuiConfig;

verus! {

/// What polling one slot showed: an empty slot, work still outstanding, or the
/// outcome of a completed call, with the slot already cleared.
enum SlotPoll<T> {
    Idle,
    Busy,
    Done(Result<T, String>),
}

/// Poll one slot.  An occupied slot whose work is still outstanding stays exactly
/// as it was; a completed outcome clears the slot and is handed out, exactly once.
fn poll_slot<T>(slot: &mut Option<ChannelTaskHandle<T>>) -> (r: SlotPoll<T>)
    requires
        (*old(slot)) matches Some(h) ==> !h.delivered(),
    ensures
        r is Idle <==> (*old(slot)) is None,
        r is Idle ==> (*final(slot)) is None,
        r is Busy ==> *final(slot) == *old(slot),
        r is Done ==> (*final(slot)) is None,
        (*final(slot)) matches Some(h) ==> !h.delivered(),
{
    let cur = slot.take();
    match cur {
        None => SlotPoll::Idle,
        Some(mut h) => match h.try_take() {
            None => {
                *slot = Some(h);
                SlotPoll::Busy
            },
            Some(res) => SlotPoll::Done(res),
        },
    }
}

/// Optional channel settings from three already-trimmed form fields; nothing when
/// no field parses.
pub fn build_channel_config(fee_prop: &str, fee_base: &str, cltv: &str) -> (r: Option<
    ChannelConfig,
>)
    ensures
        r == channel_config_spec(fee_prop@, fee_base@, cltv@),
{
    let fee_prop = parse_u32(fee_prop);
    let fee_base = parse_u32(fee_base);
    let cltv = parse_u32(cltv);

    if fee_prop.is_none() && fee_base.is_none() && cltv.is_none() {
        return None;
    }

    Some(ChannelConfig {
        forwarding_fee_proportional_millionths: fee_prop,
        forwarding_fee_base_msat: fee_base,
        cltv_expiry_delta: cltv,
    })
}


/// A drain pass can only keep or clear slots, never fill or swap them, and never
/// launches work: every kept handle is the one that was there, and the spawn
/// counters are untouched.
pub open spec fn tasks_drained(pre: AsyncTasks, post: AsyncTasks) -> bool {
    &&& (post.node_info is Some ==> post.node_info == pre.node_info)
    &&& (post.balances is Some ==> post.balances == pre.balances)
    &&& (post.channels is Some ==> post.channels == pre.channels)
    &&& (post.payments is Some ==> post.payments == pre.payments)
    &&& (post.onchain_receive is Some ==> post.onchain_receive == pre.onchain_receive)
    &&& (post.onchain_send is Some ==> post.onchain_send == pre.onchain_send)
    &&& (post.bolt11_receive is Some ==> post.bolt11_receive == pre.bolt11_receive)
    &&& (post.bolt11_send is Some ==> post.bolt11_send == pre.bolt11_send)
    &&& (post.bolt12_receive is Some ==> post.bolt12_receive == pre.bolt12_receive)
    &&& (post.bolt12_send is Some ==> post.bolt12_send == pre.bolt12_send)
    &&& (post.open_channel is Some ==> post.open_channel == pre.open_channel)
    &&& (post.close_channel is Some ==> post.close_channel == pre.close_channel)
    &&& (post.force_close_channel is Some ==> post.force_close_channel
        == pre.force_close_channel)
    &&& (post.splice_in is Some ==> post.splice_in == pre.splice_in)
    &&& (post.splice_out is Some ==> post.splice_out == pre.splice_out)
    &&& (post.update_channel_config is Some ==> post.update_channel_config
        == pre.update_channel_config)
    &&& (post.connect_peer is Some ==> post.connect_peer == pre.connect_peer)
    &&& post.spawned == pre.spawned
}

/// What `tasks_drained` says per key: occupancy only shrinks and spawn counts are
/// exactly as they were.
pub proof fn lemma_tasks_drained(pre: AsyncTasks, post: AsyncTasks)
    requires
        tasks_drained(pre, post),
    ensures
        forall|k: OpKey| #[trigger] post.occupied(k) ==> pre.occupied(k),
        forall|k: OpKey| #[trigger] post.spawns(k) == pre.spawns(k),
{
}

/// Draining is transitive: two passes in a row still only keep or clear.
pub proof fn lemma_tasks_drained_trans(a: AsyncTasks, b: AsyncTasks, c: AsyncTasks)
    requires
        tasks_drained(a, b),
        tasks_drained(b, c),
    ensures
        tasks_drained(a, c),
{
}

/// A failed operation clears its slot before this is applied, and then only
/// replaces the status message with the failure's text: nothing else of the
/// application state changes, whichever operation failed.
pub open spec fn failure_applied(pre: AppState, e: String, post: AppState) -> bool {
    &&& eq_except_status(post, pre)
    &&& post.status_message matches Some(m) && m.is_error && m.text == e
}

pub open spec fn node_info_applied(
    pre: AppState,
    res: Result<GetNodeInfoResponse, String>,
    post: AppState,
) -> bool {
    match res {
        Ok(v) => post == (AppState { node_info: Some(v), ..pre }),
        Err(e) => failure_applied(pre, e, post),
    }
}

pub open spec fn balances_applied(
    pre: AppState,
    res: Result<GetBalancesResponse, String>,
    post: AppState,
) -> bool {
    match res {
        Ok(v) => post == (AppState { balances: Some(v), ..pre }),
        Err(e) => failure_applied(pre, e, post),
    }
}

pub open spec fn channels_applied(
    pre: AppState,
    res: Result<ListChannelsResponse, String>,
    post: AppState,
) -> bool {
    match res {
        Ok(v) => post == (AppState { channels: Some(v), ..pre }),
        Err(e) => failure_applied(pre, e, post),
    }
}

pub open spec fn payments_applied(
    pre: AppState,
    res: Result<ListPaymentsResponse, String>,
    post: AppState,
) -> bool {
    match res {
        Ok(v) => post == (AppState {
            payments_page_token: v.next_page_token,
            payments: Some(v),
            ..pre
        }),
        Err(e) => failure_applied(pre, e, post),
    }
}

pub open spec fn onchain_receive_applied(
    pre: AppState,
    res: Result<OnchainReceiveResponse, String>,
    post: AppState,
) -> bool {
    match res {
        Ok(v) => {
            &&& post == (AppState {
                onchain_address: Some(v.address),
                status_message: post.status_message,
                ..pre
            })
            &&& post.status_message matches Some(m) && !m.is_error && m.text@
                == "Address generated"@
        },
        Err(e) => failure_applied(pre, e, post),
    }
}

pub open spec fn onchain_send_applied(
    pre: AppState,
    res: Result<OnchainSendResponse, String>,
    post: AppState,
) -> bool {
    match res {
        Ok(v) => {
            &&& post == (AppState {
                last_txid: Some(v.txid),
                status_message: post.status_message,
                forms: post.forms,
                ..pre
            })
            &&& post.status_message matches Some(m) && !m.is_error && m.text@ == "Sent! TXID: "@
                + v.txid@
            &&& post.forms == (Forms { onchain_send: post.forms.onchain_send, ..pre.forms })
            &&& post.forms.onchain_send.is_cleared()
        },
        Err(e) => failure_applied(pre, e, post),
    }
}

pub open spec fn bolt11_receive_applied(
    pre: AppState,
    res: Result<Bolt11ReceiveResponse, String>,
    post: AppState,
) -> bool {
    match res {
        Ok(v) => {
            &&& post == (AppState {
                generated_invoice: Some(v.invoice),
                status_message: post.status_message,
                ..pre
            })
            &&& post.status_message matches Some(m) && !m.is_error && m.text@
                == "Invoice generated"@
        },
        Err(e) => failure_applied(pre, e, post),
    }
}

pub open spec fn bolt11_send_applied(
    pre: AppState,
    res: Result<Bolt11SendResponse, String>,
    post: AppState,
) -> bool {
    match res {
        Ok(v) => {
            &&& post == (AppState {
                last_payment_id: Some(v.payment_id),
                status_message: post.status_message,
                forms: post.forms,
                ..pre
            })
            &&& post.status_message matches Some(m) && !m.is_error && m.text@
                == "Payment sent! ID: "@ + v.payment_id@
            &&& post.forms == (Forms { bolt11_send: post.forms.bolt11_send, ..pre.forms })
            &&& post.forms.bolt11_send.is_cleared()
        },
        Err(e) => failure_applied(pre, e, post),
    }
}

pub open spec fn bolt12_receive_applied(
    pre: AppState,
    res: Result<Bolt12ReceiveResponse, String>,
    post: AppState,
) -> bool {
    match res {
        Ok(v) => {
            &&& post == (AppState {
                generated_offer: Some(v.offer),
                status_message: post.status_message,
                ..pre
            })
            &&& post.status_message matches Some(m) && !m.is_error && m.text@ == "Offer generated"@
        },
        Err(e) => failure_applied(pre, e, post),
    }
}

pub open spec fn bolt12_send_applied(
    pre: AppState,
    res: Result<Bolt12SendResponse, String>,
    post: AppState,
) -> bool {
    match res {
        Ok(v) => {
            &&& post == (AppState {
                last_payment_id: Some(v.payment_id),
                status_message: post.status_message,
                forms: post.forms,
                ..pre
            })
            &&& post.status_message matches Some(m) && !m.is_error && m.text@
                == "Payment sent! ID: "@ + v.payment_id@
            &&& post.forms == (Forms { bolt12_send: post.forms.bolt12_send, ..pre.forms })
            &&& post.forms.bolt12_send.is_cleared()
        },
        Err(e) => failure_applied(pre, e, post),
    }
}

pub open spec fn open_channel_applied(
    pre: AppState,
    res: Result<OpenChannelResponse, String>,
    post: AppState,
) -> bool {
    match res {
        Ok(v) => {
            &&& post == (AppState {
                last_channel_id: Some(v.user_channel_id),
                status_message: post.status_message,
                forms: post.forms,
                show_open_channel_dialog: false,
                ..pre
            })
            &&& post.status_message matches Some(m) && !m.is_error && m.text@
                == "Channel opened! ID: "@ + v.user_channel_id@
            &&& post.forms == (Forms { open_channel: post.forms.open_channel, ..pre.forms })
            &&& post.forms.open_channel.is_cleared()
        },
        Err(e) => failure_applied(pre, e, post),
    }
}

pub open spec fn close_channel_applied(
    pre: AppState,
    res: Result<CloseChannelResponse, String>,
    post: AppState,
) -> bool {
    match res {
        Ok(_) => {
            &&& post == (AppState {
                status_message: post.status_message,
                forms: post.forms,
                show_close_channel_dialog: false,
                ..pre
            })
            &&& post.status_message matches Some(m) && !m.is_error && m.text@
                == "Channel close initiated"@
            &&& post.forms == (Forms { close_channel: post.forms.close_channel, ..pre.forms })
            &&& post.forms.close_channel.is_cleared()
        },
        Err(e) => failure_applied(pre, e, post),
    }
}

pub open spec fn force_close_channel_applied(
    pre: AppState,
    res: Result<ForceCloseChannelResponse, String>,
    post: AppState,
) -> bool {
    match res {
        Ok(_) => {
            &&& post == (AppState {
                status_message: post.status_message,
                forms: post.forms,
                show_close_channel_dialog: false,
                ..pre
            })
            &&& post.status_message matches Some(m) && !m.is_error && m.text@
                == "Force close initiated"@
            &&& post.forms == (Forms { close_channel: post.forms.close_channel, ..pre.forms })
            &&& post.forms.close_channel.is_cleared()
        },
        Err(e) => failure_applied(pre, e, post),
    }
}

pub open spec fn splice_in_applied(
    pre: AppState,
    res: Result<SpliceInResponse, String>,
    post: AppState,
) -> bool {
    match res {
        Ok(_) => {
            &&& post == (AppState {
                status_message: post.status_message,
                forms: post.forms,
                show_splice_in_dialog: false,
                ..pre
            })
            &&& post.status_message matches Some(m) && !m.is_error && m.text@
                == "Splice-in initiated"@
            &&& post.forms == (Forms { splice_in: post.forms.splice_in, ..pre.forms })
            &&& post.forms.splice_in.is_cleared()
        },
        Err(e) => failure_applied(pre, e, post),
    }
}

pub open spec fn splice_out_applied(
    pre: AppState,
    res: Result<SpliceOutResponse, String>,
    post: AppState,
) -> bool {
    match res {
        Ok(v) => {
            &&& post == (AppState {
                status_message: post.status_message,
                forms: post.forms,
                show_splice_out_dialog: false,
                ..pre
            })
            &&& post.status_message matches Some(m) && !m.is_error && m.text@
                == "Splice-out initiated to "@ + v.address@
            &&& post.forms == (Forms { splice_out: post.forms.splice_out, ..pre.forms })
            &&& post.forms.splice_out.is_cleared()
        },
        Err(e) => failure_applied(pre, e, post),
    }
}

pub open spec fn update_channel_config_applied(
    pre: AppState,
    res: Result<UpdateChannelConfigResponse, String>,
    post: AppState,
) -> bool {
    match res {
        Ok(_) => {
            &&& post == (AppState {
                status_message: post.status_message,
                forms: post.forms,
                show_update_config_dialog: false,
                ..pre
            })
            &&& post.status_message matches Some(m) && !m.is_error && m.text@
                == "Channel config updated"@
            &&& post.forms == (Forms {
                update_channel_config: post.forms.update_channel_config,
                ..pre.forms
            })
            &&& post.forms.update_channel_config.is_cleared()
        },
        Err(e) => failure_applied(pre, e, post),
    }
}

pub open spec fn connect_peer_applied(
    pre: AppState,
    res: Result<ConnectPeerResponse, String>,
    post: AppState,
) -> bool {
    match res {
        Ok(_) => {
            &&& post == (AppState {
                status_message: post.status_message,
                forms: post.forms,
                show_connect_peer_dialog: false,
                ..pre
            })
            &&& post.status_message matches Some(m) && !m.is_error && m.text@
                == "Peer connected successfully"@
            &&& post.forms == (Forms { connect_peer: post.forms.connect_peer, ..pre.forms })
            &&& post.forms.connect_peer.is_cleared()
        },
        Err(e) => failure_applied(pre, e, post),
    }
}

/// What a drain pass reports: whether work is still outstanding (schedule another
/// poll soon), and whether the channel list should be re-fetched now because a
/// channel-changing operation succeeded and the channels slot was free.
pub struct PollOutcome {
    pub pending: bool,
    pub spawn_channels_fetch: bool,
}

/// Which of the initial fetches to launch after a successful connect.
pub struct InitialFetches {
    pub node_info: bool,
    pub balances: bool,
    pub channels: bool,
}

impl AppState {
    /// Trigger the node-info fetch: fire only when a client is held and the slot
    /// is free.  The decision changes nothing; a `true` asks the caller to launch
    /// the call and install the handle.
    pub fn fetch_node_info(&mut self) -> (r: bool)
        ensures
            *final(self) == *old(self),
            r == (old(self).has_client && !old(self).tasks.occupied(OpKey::NodeInfo)),
            slot_next(
                slot_obs(old(self).tasks, OpKey::NodeInfo),
                SlotStep::Trigger { gate: old(self).has_client, fired: r },
                slot_obs(final(self).tasks, OpKey::NodeInfo),
            ),
    {
        if self.tasks.node_info.is_some() {
            return false;
        }
        self.has_client
    }

    /// Trigger the balances fetch; as `fetch_node_info`, for its own slot.
    pub fn fetch_balances(&mut self) -> (r: bool)
        ensures
            *final(self) == *old(self),
            r == (old(self).has_client && !old(self).tasks.occupied(OpKey::Balances)),
            slot_next(
                slot_obs(old(self).tasks, OpKey::Balances),
                SlotStep::Trigger { gate: old(self).has_client, fired: r },
                slot_obs(final(self).tasks, OpKey::Balances),
            ),
    {
        if self.tasks.balances.is_some() {
            return false;
        }
        self.has_client
    }

    /// Trigger the channel-list fetch; as `fetch_node_info`, for its own slot.
    pub fn fetch_channels(&mut self) -> (r: bool)
        ensures
            *final(self) == *old(self),
            r == (old(self).has_client && !old(self).tasks.occupied(OpKey::Channels)),
            slot_next(
                slot_obs(old(self).tasks, OpKey::Channels),
                SlotStep::Trigger { gate: old(self).has_client, fired: r },
                slot_obs(final(self).tasks, OpKey::Channels),
            ),
    {
        if self.tasks.channels.is_some() {
            return false;
        }
        self.has_client
    }

    /// Trigger the payments fetch: the request carries the current page token, so
    /// a follow-up fetch continues where the last page ended.
    pub fn fetch_payments(&mut self) -> (r: Option<ListPaymentsRequest>)
        ensures
            *final(self) == *old(self),
            r is Some <==> (old(self).has_client && !old(self).tasks.occupied(OpKey::Payments)),
            r matches Some(req) ==> req.page_token == old(self).payments_page_token,
            slot_next(
                slot_obs(old(self).tasks, OpKey::Payments),
                SlotStep::Trigger { gate: old(self).has_client, fired: r is Some },
                slot_obs(final(self).tasks, OpKey::Payments),
            ),
    {
        if self.tasks.payments.is_some() {
            return None;
        }
        if self.has_client {
            let page_token = match &self.payments_page_token {
                Some(t) => Some(t.clone()),
                None => None,
            };
            Some(ListPaymentsRequest { page_token })
        } else {
            None
        }
    }

    /// Trigger generating a fresh on-chain receive address.
    pub fn generate_onchain_address(&mut self) -> (r: bool)
        ensures
            *final(self) == *old(self),
            r == (old(self).has_client && !old(self).tasks.occupied(OpKey::OnchainReceive)),
            slot_next(
                slot_obs(old(self).tasks, OpKey::OnchainReceive),
                SlotStep::Trigger { gate: old(self).has_client, fired: r },
                slot_obs(final(self).tasks, OpKey::OnchainReceive),
            ),
    {
        if self.tasks.onchain_receive.is_some() {
            return false;
        }
        self.has_client
    }

    /// Trigger an on-chain send from the form.  The address is required; a blank
    /// one sets the status message and fires nothing.
    pub fn send_onchain(&mut self) -> (r: Option<OnchainSendRequest>)
        ensures
            final(self).tasks == old(self).tasks,
            r is Some <==> (old(self).has_client && !old(self).tasks.occupied(OpKey::OnchainSend)
                && trim_of(old(self).forms.onchain_send.address@).len() > 0),
            (!(old(self).has_client && !old(self).tasks.occupied(OpKey::OnchainSend))) ==> *final(self) == *old(self),
            (old(self).has_client && !old(self).tasks.occupied(OpKey::OnchainSend) && trim_of(
                old(self).forms.onchain_send.address@,
            ).len() == 0) ==> {
                &&& eq_except_status(*final(self), *old(self))
                &&& final(self).status_message matches Some(m) && m.is_error && m.text@
                    == "Address is required"@
            },
            r matches Some(req) ==> {
                &&& *final(self) == *old(self)
                &&& req.address@ == trim_of(old(self).forms.onchain_send.address@)
                &&& req.amount_sats == parse_u64_spec(
                    trim_of(old(self).forms.onchain_send.amount_sats@),
                )
                &&& req.send_all == if old(self).forms.onchain_send.send_all {
                    Some(true)
                } else {
                    None::<bool>
                }
                &&& req.fee_rate_sat_per_vb == parse_u64_spec(
                    trim_of(old(self).forms.onchain_send.fee_rate_sat_per_vb@),
                )
            },
            slot_next(
                slot_obs(old(self).tasks, OpKey::OnchainSend),
                SlotStep::Trigger { gate: old(self).has_client && trim_of(old(self).forms.onchain_send.address@).len() > 0, fired: r is Some },
                slot_obs(final(self).tasks, OpKey::OnchainSend),
            ),
    {
        if self.tasks.onchain_send.is_some() {
            return None;
        }
        if !self.has_client {
            return None;
        }
        let address = trim_to_string(self.forms.onchain_send.address.as_str());
        let amount_sats = parse_u64(
            trim_to_string(self.forms.onchain_send.amount_sats.as_str()).as_str(),
        );
        let send_all = if self.forms.onchain_send.send_all {
            Some(true)
        } else {
            None
        };
        let fee_rate = parse_u64(
            trim_to_string(self.forms.onchain_send.fee_rate_sat_per_vb.as_str()).as_str(),
        );

        if address.as_str().is_empty() {
            self.status_message = Some(StatusMessage::error("Address is required".to_owned()));
            return None;
        }

        Some(OnchainSendRequest { address, amount_sats, send_all, fee_rate_sat_per_vb: fee_rate })
    }

    /// Trigger generating a BOLT11 invoice from the form.  A blank expiry falls
    /// back to one day; a blank description sends none.
    pub fn generate_bolt11_invoice(&mut self) -> (r: Option<Bolt11ReceiveRequest>)
        ensures
            *final(self) == *old(self),
            r is Some <==> (old(self).has_client && !old(self).tasks.occupied(
                OpKey::Bolt11Receive,
            )),
            r matches Some(req) ==> {
                &&& req.amount_msat == parse_u64_spec(
                    trim_of(old(self).forms.bolt11_receive.amount_msat@),
                )
                &&& (trim_of(old(self).forms.bolt11_receive.description@).len() > 0 ==> (
                req.description matches Some(d) && d@ == trim_of(
                    old(self).forms.bolt11_receive.description@,
                )))
                &&& (trim_of(old(self).forms.bolt11_receive.description@).len() == 0
                    ==> req.description is None)
                &&& req.expiry_secs == match parse_u32_spec(
                    trim_of(old(self).forms.bolt11_receive.expiry_secs@),
                ) {
                    Some(v) => v,
                    None => 86400u32,
                }
            },
            slot_next(
                slot_obs(old(self).tasks, OpKey::Bolt11Receive),
                SlotStep::Trigger { gate: old(self).has_client, fired: r is Some },
                slot_obs(final(self).tasks, OpKey::Bolt11Receive),
            ),
    {
        if self.tasks.bolt11_receive.is_some() {
            return None;
        }
        if !self.has_client {
            return None;
        }
        let amount_msat = parse_u64(
            trim_to_string(self.forms.bolt11_receive.amount_msat.as_str()).as_str(),
        );
        let description = trim_to_string(self.forms.bolt11_receive.description.as_str());
        let expiry_secs = parse_u32(
            trim_to_string(self.forms.bolt11_receive.expiry_secs.as_str()).as_str(),
        ).unwrap_or(86400);

        let description = if !description.as_str().is_empty() {
            Some(description)
        } else {
            None
        };

        Some(Bolt11ReceiveRequest { description, amount_msat, expiry_secs })
    }

    /// Trigger paying a BOLT11 invoice from the form.  The invoice is required; a
    /// blank one sets the status message and fires nothing.
    pub fn send_bolt11(&mut self) -> (r: Option<Bolt11SendRequest>)
        ensures
            final(self).tasks == old(self).tasks,
            r is Some <==> (old(self).has_client && !old(self).tasks.occupied(OpKey::Bolt11Send)
                && trim_of(old(self).forms.bolt11_send.invoice@).len() > 0),
            (!(old(self).has_client && !old(self).tasks.occupied(OpKey::Bolt11Send))) ==> *final(self) == *old(self),
            (old(self).has_client && !old(self).tasks.occupied(OpKey::Bolt11Send) && trim_of(
                old(self).forms.bolt11_send.invoice@,
            ).len() == 0) ==> {
                &&& eq_except_status(*final(self), *old(self))
                &&& final(self).status_message matches Some(m) && m.is_error && m.text@
                    == "Invoice is required"@
            },
            r matches Some(req) ==> {
                &&& *final(self) == *old(self)
                &&& req.invoice@ == trim_of(old(self).forms.bolt11_send.invoice@)
                &&& req.amount_msat == parse_u64_spec(
                    trim_of(old(self).forms.bolt11_send.amount_msat@),
                )
            },
            slot_next(
                slot_obs(old(self).tasks, OpKey::Bolt11Send),
                SlotStep::Trigger { gate: old(self).has_client && trim_of(old(self).forms.bolt11_send.invoice@).len() > 0, fired: r is Some },
                slot_obs(final(self).tasks, OpKey::Bolt11Send),
            ),
    {
        if self.tasks.bolt11_send.is_some() {
            return None;
        }
        if !self.has_client {
            return None;
        }
        let invoice = trim_to_string(self.forms.bolt11_send.invoice.as_str());
        let amount_msat = parse_u64(
            trim_to_string(self.forms.bolt11_send.amount_msat.as_str()).as_str(),
        );

        if invoice.as_str().is_empty() {
            self.status_message = Some(StatusMessage::error("Invoice is required".to_owned()));
            return None;
        }

        Some(Bolt11SendRequest { invoice, amount_msat })
    }

    /// Trigger generating a BOLT12 offer from the form.  The description is
    /// required; a blank one sets the status message and fires nothing.
    pub fn generate_bolt12_offer(&mut self) -> (r: Option<Bolt12ReceiveRequest>)
        ensures
            final(self).tasks == old(self).tasks,
            r is Some <==> (old(self).has_client && !old(self).tasks.occupied(
                OpKey::Bolt12Receive,
            ) && trim_of(old(self).forms.bolt12_receive.description@).len() > 0),
            (!(old(self).has_client && !old(self).tasks.occupied(OpKey::Bolt12Receive))) ==> *final(self) == *old(self),
            (old(self).has_client && !old(self).tasks.occupied(OpKey::Bolt12Receive) && trim_of(
                old(self).forms.bolt12_receive.description@,
            ).len() == 0) ==> {
                &&& eq_except_status(*final(self), *old(self))
                &&& final(self).status_message matches Some(m) && m.is_error && m.text@
                    == "Description is required"@
            },
            r matches Some(req) ==> {
                &&& *final(self) == *old(self)
                &&& req.description@ == trim_of(old(self).forms.bolt12_receive.description@)
                &&& req.amount_msat == parse_u64_spec(
                    trim_of(old(self).forms.bolt12_receive.amount_msat@),
                )
                &&& req.expiry_secs == parse_u32_spec(
                    trim_of(old(self).forms.bolt12_receive.expiry_secs@),
                )
                &&& req.quantity == parse_u64_spec(
                    trim_of(old(self).forms.bolt12_receive.quantity@),
                )
            },
            slot_next(
                slot_obs(old(self).tasks, OpKey::Bolt12Receive),
                SlotStep::Trigger { gate: old(self).has_client && trim_of(old(self).forms.bolt12_receive.description@).len() > 0, fired: r is Some },
                slot_obs(final(self).tasks, OpKey::Bolt12Receive),
            ),
    {
        if self.tasks.bolt12_receive.is_some() {
            return None;
        }
        if !self.has_client {
            return None;
        }
        let description = trim_to_string(self.forms.bolt12_receive.description.as_str());
        let amount_msat = parse_u64(
            trim_to_string(self.forms.bolt12_receive.amount_msat.as_str()).as_str(),
        );
        let expiry_secs = parse_u32(
            trim_to_string(self.forms.bolt12_receive.expiry_secs.as_str()).as_str(),
        );
        let quantity = parse_u64(
            trim_to_string(self.forms.bolt12_receive.quantity.as_str()).as_str(),
        );

        if description.as_str().is_empty() {
            self.status_message = Some(StatusMessage::error("Description is required".to_owned()));
            return None;
        }

        Some(Bolt12ReceiveRequest { description, amount_msat, expiry_secs, quantity })
    }

    /// Trigger paying a BOLT12 offer from the form.  The offer is required; a
    /// blank one sets the status message and fires nothing.
    pub fn send_bolt12(&mut self) -> (r: Option<Bolt12SendRequest>)
        ensures
            final(self).tasks == old(self).tasks,
            r is Some <==> (old(self).has_client && !old(self).tasks.occupied(OpKey::Bolt12Send)
                && trim_of(old(self).forms.bolt12_send.offer@).len() > 0),
            (!(old(self).has_client && !old(self).tasks.occupied(OpKey::Bolt12Send))) ==> *final(self) == *old(self),
            (old(self).has_client && !old(self).tasks.occupied(OpKey::Bolt12Send) && trim_of(
                old(self).forms.bolt12_send.offer@,
            ).len() == 0) ==> {
                &&& eq_except_status(*final(self), *old(self))
                &&& final(self).status_message matches Some(m) && m.is_error && m.text@
                    == "Offer is required"@
            },
            r matches Some(req) ==> {
                &&& *final(self) == *old(self)
                &&& req.offer@ == trim_of(old(self).forms.bolt12_send.offer@)
                &&& req.amount_msat == parse_u64_spec(
                    trim_of(old(self).forms.bolt12_send.amount_msat@),
                )
                &&& req.quantity == parse_u64_spec(trim_of(old(self).forms.bolt12_send.quantity@))
                &&& (trim_of(old(self).forms.bolt12_send.payer_note@).len() > 0 ==> (
                req.payer_note matches Some(n) && n@ == trim_of(
                    old(self).forms.bolt12_send.payer_note@,
                )))
                &&& (trim_of(old(self).forms.bolt12_send.payer_note@).len() == 0
                    ==> req.payer_note is None)
            },
            slot_next(
                slot_obs(old(self).tasks, OpKey::Bolt12Send),
                SlotStep::Trigger { gate: old(self).has_client && trim_of(old(self).forms.bolt12_send.offer@).len() > 0, fired: r is Some },
                slot_obs(final(self).tasks, OpKey::Bolt12Send),
            ),
    {
        if self.tasks.bolt12_send.is_some() {
            return None;
        }
        if !self.has_client {
            return None;
        }
        let offer = trim_to_string(self.forms.bolt12_send.offer.as_str());
        let amount_msat = parse_u64(
            trim_to_string(self.forms.bolt12_send.amount_msat.as_str()).as_str(),
        );
        let quantity = parse_u64(trim_to_string(self.forms.bolt12_send.quantity.as_str()).as_str());
        let payer_note_trimmed = trim_to_string(self.forms.bolt12_send.payer_note.as_str());
        let payer_note = if payer_note_trimmed.as_str().is_empty() {
            None
        } else {
            Some(payer_note_trimmed)
        };

        if offer.as_str().is_empty() {
            self.status_message = Some(StatusMessage::error("Offer is required".to_owned()));
            return None;
        }

        Some(Bolt12SendRequest { offer, amount_msat, quantity, payer_note })
    }

    /// Trigger opening a channel from the form.  The channel amount must parse and
    /// the node pubkey and address must be present, checked in that order; a
    /// failed check sets the status message and fires nothing.
    pub fn open_channel(&mut self) -> (r: Option<OpenChannelRequest>)
        ensures
            final(self).tasks == old(self).tasks,
            r is Some <==> (old(self).has_client && !old(self).tasks.occupied(OpKey::OpenChannel)
                && parse_u64_spec(trim_of(old(self).forms.open_channel.channel_amount_sats@))
                is Some && trim_of(old(self).forms.open_channel.node_pubkey@).len() > 0 && trim_of(
                old(self).forms.open_channel.address@,
            ).len() > 0),
            (!(old(self).has_client && !old(self).tasks.occupied(OpKey::OpenChannel))) ==> *final(self) == *old(self),
            (old(self).has_client && !old(self).tasks.occupied(OpKey::OpenChannel)
                && parse_u64_spec(trim_of(old(self).forms.open_channel.channel_amount_sats@))
                is None) ==> {
                &&& eq_except_status(*final(self), *old(self))
                &&& final(self).status_message matches Some(m) && m.is_error && m.text@
                    == "Invalid channel amount"@
            },
            (old(self).has_client && !old(self).tasks.occupied(OpKey::OpenChannel)
                && parse_u64_spec(trim_of(old(self).forms.open_channel.channel_amount_sats@))
                is Some && (trim_of(old(self).forms.open_channel.node_pubkey@).len() == 0
                || trim_of(old(self).forms.open_channel.address@).len() == 0)) ==> {
                &&& eq_except_status(*final(self), *old(self))
                &&& final(self).status_message matches Some(m) && m.is_error && m.text@
                    == "Node pubkey and address are required"@
            },
            r matches Some(req) ==> {
                &&& *final(self) == *old(self)
                &&& req.node_pubkey@ == trim_of(old(self).forms.open_channel.node_pubkey@)
                &&& req.address@ == trim_of(old(self).forms.open_channel.address@)
                &&& Some(req.channel_amount_sats) == parse_u64_spec(
                    trim_of(old(self).forms.open_channel.channel_amount_sats@),
                )
                &&& req.push_to_counterparty_msat == parse_u64_spec(
                    trim_of(old(self).forms.open_channel.push_to_counterparty_msat@),
                )
                &&& req.announce_channel == old(self).forms.open_channel.announce_channel
                &&& req.channel_config == channel_config_spec(
                    trim_of(old(self).forms.open_channel.forwarding_fee_proportional_millionths@),
                    trim_of(old(self).forms.open_channel.forwarding_fee_base_msat@),
                    trim_of(old(self).forms.open_channel.cltv_expiry_delta@),
                )
            },
            slot_next(
                slot_obs(old(self).tasks, OpKey::OpenChannel),
                SlotStep::Trigger { gate: old(self).has_client && parse_u64_spec(trim_of(old(self).forms.open_channel.channel_amount_sats@)) is Some && trim_of(old(self).forms.open_channel.node_pubkey@).len() > 0 && trim_of(old(self).forms.open_channel.address@).len() > 0, fired: r is Some },
                slot_obs(final(self).tasks, OpKey::OpenChannel),
            ),
    {
        if self.tasks.open_channel.is_some() {
            return None;
        }
        if !self.has_client {
            return None;
        }
        let node_pubkey = trim_to_string(self.forms.open_channel.node_pubkey.as_str());
        let address = trim_to_string(self.forms.open_channel.address.as_str());
        let channel_amount_sats = match parse_u64(
            trim_to_string(self.forms.open_channel.channel_amount_sats.as_str()).as_str(),
        ) {
            Some(v) => v,
            None => {
                self.status_message = Some(
                    StatusMessage::error("Invalid channel amount".to_owned()),
                );
                return None;
            },
        };
        let push_to_counterparty_msat = parse_u64(
            trim_to_string(self.forms.open_channel.push_to_counterparty_msat.as_str()).as_str(),
        );
        let announce_channel = self.forms.open_channel.announce_channel;

        let channel_config = build_channel_config(
            trim_to_string(
                self.forms.open_channel.forwarding_fee_proportional_millionths.as_str(),
            ).as_str(),
            trim_to_string(self.forms.open_channel.forwarding_fee_base_msat.as_str()).as_str(),
            trim_to_string(self.forms.open_channel.cltv_expiry_delta.as_str()).as_str(),
        );

        if node_pubkey.as_str().is_empty() || address.as_str().is_empty() {
            self.status_message = Some(
                StatusMessage::error("Node pubkey and address are required".to_owned()),
            );
            return None;
        }

        Some(OpenChannelRequest {
            node_pubkey,
            address,
            channel_amount_sats,
            push_to_counterparty_msat,
            channel_config,
            announce_channel,
        })
    }

    /// Trigger a cooperative channel close from the form.  Both identifiers are
    /// required; a blank one sets the status message and fires nothing.
    pub fn close_channel(&mut self) -> (r: Option<CloseChannelRequest>)
        ensures
            final(self).tasks == old(self).tasks,
            r is Some <==> (old(self).has_client && !old(self).tasks.occupied(OpKey::CloseChannel)
                && trim_of(old(self).forms.close_channel.user_channel_id@).len() > 0 && trim_of(
                old(self).forms.close_channel.counterparty_node_id@,
            ).len() > 0),
            (!(old(self).has_client && !old(self).tasks.occupied(OpKey::CloseChannel))) ==> *final(self) == *old(self),
            (old(self).has_client && !old(self).tasks.occupied(OpKey::CloseChannel) && (trim_of(
                old(self).forms.close_channel.user_channel_id@,
            ).len() == 0 || trim_of(old(self).forms.close_channel.counterparty_node_id@).len()
                == 0)) ==> {
                &&& eq_except_status(*final(self), *old(self))
                &&& final(self).status_message matches Some(m) && m.is_error && m.text@
                    == "Channel ID and counterparty node ID are required"@
            },
            r matches Some(req) ==> {
                &&& *final(self) == *old(self)
                &&& req.user_channel_id@ == trim_of(old(self).forms.close_channel.user_channel_id@)
                &&& req.counterparty_node_id@ == trim_of(
                    old(self).forms.close_channel.counterparty_node_id@,
                )
            },
            slot_next(
                slot_obs(old(self).tasks, OpKey::CloseChannel),
                SlotStep::Trigger { gate: old(self).has_client && trim_of(old(self).forms.close_channel.user_channel_id@).len() > 0 && trim_of(old(self).forms.close_channel.counterparty_node_id@).len() > 0, fired: r is Some },
                slot_obs(final(self).tasks, OpKey::CloseChannel),
            ),
    {
        if self.tasks.close_channel.is_some() {
            return None;
        }
        if !self.has_client {
            return None;
        }
        let user_channel_id = trim_to_string(self.forms.close_channel.user_channel_id.as_str());
        let counterparty_node_id = trim_to_string(
            self.forms.close_channel.counterparty_node_id.as_str(),
        );

        if user_channel_id.as_str().is_empty() || counterparty_node_id.as_str().is_empty() {
            self.status_message = Some(
                StatusMessage::error("Channel ID and counterparty node ID are required".to_owned()),
            );
            return None;
        }

        Some(CloseChannelRequest { user_channel_id, counterparty_node_id })
    }

    /// Trigger a forced channel close from the form; as `close_channel`, with an
    /// optional reason.
    pub fn force_close_channel(&mut self) -> (r: Option<ForceCloseChannelRequest>)
        ensures
            final(self).tasks == old(self).tasks,
            r is Some <==> (old(self).has_client && !old(self).tasks.occupied(
                OpKey::ForceCloseChannel,
            ) && trim_of(old(self).forms.close_channel.user_channel_id@).len() > 0 && trim_of(
                old(self).forms.close_channel.counterparty_node_id@,
            ).len() > 0),
            (!(old(self).has_client && !old(self).tasks.occupied(OpKey::ForceCloseChannel)))
                ==> *final(self) == *old(self),
            (old(self).has_client && !old(self).tasks.occupied(OpKey::ForceCloseChannel) && (
            trim_of(old(self).forms.close_channel.user_channel_id@).len() == 0 || trim_of(
                old(self).forms.close_channel.counterparty_node_id@,
            ).len() == 0)) ==> {
                &&& eq_except_status(*final(self), *old(self))
                &&& final(self).status_message matches Some(m) && m.is_error && m.text@
                    == "Channel ID and counterparty node ID are required"@
            },
            r matches Some(req) ==> {
                &&& *final(self) == *old(self)
                &&& req.user_channel_id@ == trim_of(old(self).forms.close_channel.user_channel_id@)
                &&& req.counterparty_node_id@ == trim_of(
                    old(self).forms.close_channel.counterparty_node_id@,
                )
                &&& (trim_of(old(self).forms.close_channel.force_close_reason@).len() > 0 ==> (
                req.force_close_reason matches Some(x) && x@ == trim_of(
                    old(self).forms.close_channel.force_close_reason@,
                )))
                &&& (trim_of(old(self).forms.close_channel.force_close_reason@).len() == 0
                    ==> req.force_close_reason is None)
            },
            slot_next(
                slot_obs(old(self).tasks, OpKey::ForceCloseChannel),
                SlotStep::Trigger { gate: old(self).has_client && trim_of(old(self).forms.close_channel.user_channel_id@).len() > 0 && trim_of(old(self).forms.close_channel.counterparty_node_id@).len() > 0, fired: r is Some },
                slot_obs(final(self).tasks, OpKey::ForceCloseChannel),
            ),
    {
        if self.tasks.force_close_channel.is_some() {
            return None;
        }
        if !self.has_client {
            return None;
        }
        let user_channel_id = trim_to_string(self.forms.close_channel.user_channel_id.as_str());
        let counterparty_node_id = trim_to_string(
            self.forms.close_channel.counterparty_node_id.as_str(),
        );
        let reason_trimmed = trim_to_string(self.forms.close_channel.force_close_reason.as_str());
        let force_close_reason = if reason_trimmed.as_str().is_empty() {
            None
        } else {
            Some(reason_trimmed)
        };

        if user_channel_id.as_str().is_empty() || counterparty_node_id.as_str().is_empty() {
            self.status_message = Some(
                StatusMessage::error("Channel ID and counterparty node ID are required".to_owned()),
            );
            return None;
        }

        Some(ForceCloseChannelRequest { user_channel_id, counterparty_node_id, force_close_reason })
    }

    /// Trigger a splice-in from the form.  The amount must parse and both
    /// identifiers must be present, checked in that order.
    pub fn splice_in(&mut self) -> (r: Option<SpliceInRequest>)
        ensures
            final(self).tasks == old(self).tasks,
            r is Some <==> (old(self).has_client && !old(self).tasks.occupied(OpKey::SpliceIn)
                && parse_u64_spec(trim_of(old(self).forms.splice_in.splice_amount_sats@)) is Some
                && trim_of(old(self).forms.splice_in.user_channel_id@).len() > 0 && trim_of(
                old(self).forms.splice_in.counterparty_node_id@,
            ).len() > 0),
            (!(old(self).has_client && !old(self).tasks.occupied(OpKey::SpliceIn))) ==> *final(self)
                == *old(self),
            (old(self).has_client && !old(self).tasks.occupied(OpKey::SpliceIn) && parse_u64_spec(
                trim_of(old(self).forms.splice_in.splice_amount_sats@),
            ) is None) ==> {
                &&& eq_except_status(*final(self), *old(self))
                &&& final(self).status_message matches Some(m) && m.is_error && m.text@
                    == "Invalid splice amount"@
            },
            (old(self).has_client && !old(self).tasks.occupied(OpKey::SpliceIn) && parse_u64_spec(
                trim_of(old(self).forms.splice_in.splice_amount_sats@),
            ) is Some && (trim_of(old(self).forms.splice_in.user_channel_id@).len() == 0 || trim_of(
                old(self).forms.splice_in.counterparty_node_id@,
            ).len() == 0)) ==> {
                &&& eq_except_status(*final(self), *old(self))
                &&& final(self).status_message matches Some(m) && m.is_error && m.text@
                    == "Channel ID and counterparty node ID are required"@
            },
            r matches Some(req) ==> {
                &&& *final(self) == *old(self)
                &&& req.user_channel_id@ == trim_of(old(self).forms.splice_in.user_channel_id@)
                &&& req.counterparty_node_id@ == trim_of(
                    old(self).forms.splice_in.counterparty_node_id@,
                )
                &&& Some(req.splice_amount_sats) == parse_u64_spec(
                    trim_of(old(self).forms.splice_in.splice_amount_sats@),
                )
            },
            slot_next(
                slot_obs(old(self).tasks, OpKey::SpliceIn),
                SlotStep::Trigger { gate: old(self).has_client && parse_u64_spec(trim_of(old(self).forms.splice_in.splice_amount_sats@)) is Some && trim_of(old(self).forms.splice_in.user_channel_id@).len() > 0 && trim_of(old(self).forms.splice_in.counterparty_node_id@).len() > 0, fired: r is Some },
                slot_obs(final(self).tasks, OpKey::SpliceIn),
            ),
    {
        if self.tasks.splice_in.is_some() {
            return None;
        }
        if !self.has_client {
            return None;
        }
        let user_channel_id = trim_to_string(self.forms.splice_in.user_channel_id.as_str());
        let counterparty_node_id = trim_to_string(
            self.forms.splice_in.counterparty_node_id.as_str(),
        );
        let splice_amount_sats = match parse_u64(
            trim_to_string(self.forms.splice_in.splice_amount_sats.as_str()).as_str(),
        ) {
            Some(v) => v,
            None => {
                self.status_message = Some(StatusMessage::error("Invalid splice amount".to_owned()));
                return None;
            },
        };

        if user_channel_id.as_str().is_empty() || counterparty_node_id.as_str().is_empty() {
            self.status_message = Some(
                StatusMessage::error("Channel ID and counterparty node ID are required".to_owned()),
            );
            return None;
        }

        Some(SpliceInRequest { user_channel_id, counterparty_node_id, splice_amount_sats })
    }

    /// Trigger a splice-out from the form; as `splice_in`, with an optional
    /// destination address.
    pub fn splice_out(&mut self) -> (r: Option<SpliceOutRequest>)
        ensures
            final(self).tasks == old(self).tasks,
            r is Some <==> (old(self).has_client && !old(self).tasks.occupied(OpKey::SpliceOut)
                && parse_u64_spec(trim_of(old(self).forms.splice_out.splice_amount_sats@)) is Some
                && trim_of(old(self).forms.splice_out.user_channel_id@).len() > 0 && trim_of(
                old(self).forms.splice_out.counterparty_node_id@,
            ).len() > 0),
            (!(old(self).has_client && !old(self).tasks.occupied(OpKey::SpliceOut))) ==> *final(self) == *old(self),
            (old(self).has_client && !old(self).tasks.occupied(OpKey::SpliceOut) && parse_u64_spec(
                trim_of(old(self).forms.splice_out.splice_amount_sats@),
            ) is None) ==> {
                &&& eq_except_status(*final(self), *old(self))
                &&& final(self).status_message matches Some(m) && m.is_error && m.text@
                    == "Invalid splice amount"@
            },
            (old(self).has_client && !old(self).tasks.occupied(OpKey::SpliceOut) && parse_u64_spec(
                trim_of(old(self).forms.splice_out.splice_amount_sats@),
            ) is Some && (trim_of(old(self).forms.splice_out.user_channel_id@).len() == 0
                || trim_of(old(self).forms.splice_out.counterparty_node_id@).len() == 0)) ==> {
                &&& eq_except_status(*final(self), *old(self))
                &&& final(self).status_message matches Some(m) && m.is_error && m.text@
                    == "Channel ID and counterparty node ID are required"@
            },
            r matches Some(req) ==> {
                &&& *final(self) == *old(self)
                &&& req.user_channel_id@ == trim_of(old(self).forms.splice_out.user_channel_id@)
                &&& req.counterparty_node_id@ == trim_of(
                    old(self).forms.splice_out.counterparty_node_id@,
                )
                &&& Some(req.splice_amount_sats) == parse_u64_spec(
                    trim_of(old(self).forms.splice_out.splice_amount_sats@),
                )
                &&& (trim_of(old(self).forms.splice_out.address@).len() > 0 ==> (
                req.address matches Some(a) && a@ == trim_of(old(self).forms.splice_out.address@)))
                &&& (trim_of(old(self).forms.splice_out.address@).len() == 0
                    ==> req.address is None)
            },
            slot_next(
                slot_obs(old(self).tasks, OpKey::SpliceOut),
                SlotStep::Trigger { gate: old(self).has_client && parse_u64_spec(trim_of(old(self).forms.splice_out.splice_amount_sats@)) is Some && trim_of(old(self).forms.splice_out.user_channel_id@).len() > 0 && trim_of(old(self).forms.splice_out.counterparty_node_id@).len() > 0, fired: r is Some },
                slot_obs(final(self).tasks, OpKey::SpliceOut),
            ),
    {
        if self.tasks.splice_out.is_some() {
            return None;
        }
        if !self.has_client {
            return None;
        }
        let user_channel_id = trim_to_string(self.forms.splice_out.user_channel_id.as_str());
        let counterparty_node_id = trim_to_string(
            self.forms.splice_out.counterparty_node_id.as_str(),
        );
        let splice_amount_sats = match parse_u64(
            trim_to_string(self.forms.splice_out.splice_amount_sats.as_str()).as_str(),
        ) {
            Some(v) => v,
            None => {
                self.status_message = Some(StatusMessage::error("Invalid splice amount".to_owned()));
                return None;
            },
        };
        let address_trimmed = trim_to_string(self.forms.splice_out.address.as_str());
        let address = if address_trimmed.as_str().is_empty() {
            None
        } else {
            Some(address_trimmed)
        };

        if user_channel_id.as_str().is_empty() || counterparty_node_id.as_str().is_empty() {
            self.status_message = Some(
                StatusMessage::error("Channel ID and counterparty node ID are required".to_owned()),
            );
            return None;
        }

        Some(SpliceOutRequest { user_channel_id, counterparty_node_id, address, splice_amount_sats })
    }

    /// Trigger updating a channel's configuration from the form.  Both
    /// identifiers are required; the three config fields each apply when they
    /// parse.
    pub fn update_channel_config(&mut self) -> (r: Option<UpdateChannelConfigRequest>)
        ensures
            final(self).tasks == old(self).tasks,
            r is Some <==> (old(self).has_client && !old(self).tasks.occupied(
                OpKey::UpdateChannelConfig,
            ) && trim_of(old(self).forms.update_channel_config.user_channel_id@).len() > 0
                && trim_of(old(self).forms.update_channel_config.counterparty_node_id@).len() > 0),
            (!(old(self).has_client && !old(self).tasks.occupied(OpKey::UpdateChannelConfig)))
                ==> *final(self) == *old(self),
            (old(self).has_client && !old(self).tasks.occupied(OpKey::UpdateChannelConfig) && (
            trim_of(old(self).forms.update_channel_config.user_channel_id@).len() == 0 || trim_of(
                old(self).forms.update_channel_config.counterparty_node_id@,
            ).len() == 0)) ==> {
                &&& eq_except_status(*final(self), *old(self))
                &&& final(self).status_message matches Some(m) && m.is_error && m.text@
                    == "Channel ID and counterparty node ID are required"@
            },
            r matches Some(req) ==> {
                &&& *final(self) == *old(self)
                &&& req.user_channel_id@ == trim_of(
                    old(self).forms.update_channel_config.user_channel_id@,
                )
                &&& req.counterparty_node_id@ == trim_of(
                    old(self).forms.update_channel_config.counterparty_node_id@,
                )
                &&& req.channel_config == (ChannelConfig {
                    forwarding_fee_proportional_millionths: parse_u32_spec(
                        trim_of(
                            old(
                                self,
                            ).forms.update_channel_config.forwarding_fee_proportional_millionths@,
                        ),
                    ),
                    forwarding_fee_base_msat: parse_u32_spec(
                        trim_of(old(self).forms.update_channel_config.forwarding_fee_base_msat@),
                    ),
                    cltv_expiry_delta: parse_u32_spec(
                        trim_of(old(self).forms.update_channel_config.cltv_expiry_delta@),
                    ),
                })
            },
            slot_next(
                slot_obs(old(self).tasks, OpKey::UpdateChannelConfig),
                SlotStep::Trigger { gate: old(self).has_client && trim_of(old(self).forms.update_channel_config.user_channel_id@).len() > 0 && trim_of(old(self).forms.update_channel_config.counterparty_node_id@).len() > 0, fired: r is Some },
                slot_obs(final(self).tasks, OpKey::UpdateChannelConfig),
            ),
    {
        if self.tasks.update_channel_config.is_some() {
            return None;
        }
        if !self.has_client {
            return None;
        }
        let user_channel_id = trim_to_string(
            self.forms.update_channel_config.user_channel_id.as_str(),
        );
        let counterparty_node_id = trim_to_string(
            self.forms.update_channel_config.counterparty_node_id.as_str(),
        );

        let channel_config = ChannelConfig {
            forwarding_fee_proportional_millionths: parse_u32(
                trim_to_string(
                    self.forms.update_channel_config.forwarding_fee_proportional_millionths.as_str(),
                ).as_str(),
            ),
            forwarding_fee_base_msat: parse_u32(
                trim_to_string(
                    self.forms.update_channel_config.forwarding_fee_base_msat.as_str(),
                ).as_str(),
            ),
            cltv_expiry_delta: parse_u32(
                trim_to_string(self.forms.update_channel_config.cltv_expiry_delta.as_str()).as_str(),
            ),
        };

        if user_channel_id.as_str().is_empty() || counterparty_node_id.as_str().is_empty() {
            self.status_message = Some(
                StatusMessage::error("Channel ID and counterparty node ID are required".to_owned()),
            );
            return None;
        }

        Some(UpdateChannelConfigRequest { user_channel_id, counterparty_node_id, channel_config })
    }

    /// Trigger connecting to a peer from the form.  Both the node pubkey and the
    /// address are required.
    pub fn connect_peer(&mut self) -> (r: Option<ConnectPeerRequest>)
        ensures
            final(self).tasks == old(self).tasks,
            r is Some <==> (old(self).has_client && !old(self).tasks.occupied(OpKey::ConnectPeer)
                && trim_of(old(self).forms.connect_peer.node_pubkey@).len() > 0 && trim_of(
                old(self).forms.connect_peer.address@,
            ).len() > 0),
            (!(old(self).has_client && !old(self).tasks.occupied(OpKey::ConnectPeer))) ==> *final(self) == *old(self),
            (old(self).has_client && !old(self).tasks.occupied(OpKey::ConnectPeer) && (trim_of(
                old(self).forms.connect_peer.node_pubkey@,
            ).len() == 0 || trim_of(old(self).forms.connect_peer.address@).len() == 0)) ==> {
                &&& eq_except_status(*final(self), *old(self))
                &&& final(self).status_message matches Some(m) && m.is_error && m.text@
                    == "Node pubkey and address are required"@
            },
            r matches Some(req) ==> {
                &&& *final(self) == *old(self)
                &&& req.node_pubkey@ == trim_of(old(self).forms.connect_peer.node_pubkey@)
                &&& req.address@ == trim_of(old(self).forms.connect_peer.address@)
                &&& req.persist == old(self).forms.connect_peer.persist
            },
            slot_next(
                slot_obs(old(self).tasks, OpKey::ConnectPeer),
                SlotStep::Trigger { gate: old(self).has_client && trim_of(old(self).forms.connect_peer.node_pubkey@).len() > 0 && trim_of(old(self).forms.connect_peer.address@).len() > 0, fired: r is Some },
                slot_obs(final(self).tasks, OpKey::ConnectPeer),
            ),
    {
        if self.tasks.connect_peer.is_some() {
            return None;
        }
        if !self.has_client {
            return None;
        }
        let node_pubkey = trim_to_string(self.forms.connect_peer.node_pubkey.as_str());
        let address = trim_to_string(self.forms.connect_peer.address.as_str());
        let persist = self.forms.connect_peer.persist;

        if node_pubkey.as_str().is_empty() || address.as_str().is_empty() {
            self.status_message = Some(
                StatusMessage::error("Node pubkey and address are required".to_owned()),
            );
            return None;
        }

        Some(ConnectPeerRequest { node_pubkey, address, persist })
    }

    /// Install the handle of a freshly launched node-info fetch into its slot, counting one
    /// spawn.  The slot must be free: this is the single-flight guard's other half.
    pub fn install_node_info(&mut self, h: ChannelTaskHandle<GetNodeInfoResponse>)
        requires
            old(self).wf(),
            !old(self).tasks.occupied(OpKey::NodeInfo),
            !h.delivered(),
        ensures
            final(self).wf(),
            final(self).tasks.node_info == Some(h),
            final(self).tasks.occupied(OpKey::NodeInfo),
            final(self).tasks.slots_eq_except(old(self).tasks, OpKey::NodeInfo),
            final(self).tasks.spawns(OpKey::NodeInfo) == old(self).tasks.spawns(OpKey::NodeInfo) + 1,
            forall|j: OpKey| j != OpKey::NodeInfo ==> final(self).tasks.spawns(j) == old(
                self,
            ).tasks.spawns(j),
            *final(self) == (AppState { tasks: final(self).tasks, ..*old(self) }),
            slot_next(
                slot_obs(old(self).tasks, OpKey::NodeInfo),
                SlotStep::Install,
                slot_obs(final(self).tasks, OpKey::NodeInfo),
            ),
    {
        self.tasks.node_info = Some(h);
        self.tasks.spawned = Ghost(
            self.tasks.spawned@.insert(OpKey::NodeInfo, self.tasks.spawned@[OpKey::NodeInfo] + 1),
        );
    }

    /// Install the handle of a freshly launched balances fetch into its slot, counting one
    /// spawn.  The slot must be free: this is the single-flight guard's other half.
    pub fn install_balances(&mut self, h: ChannelTaskHandle<GetBalancesResponse>)
        requires
            old(self).wf(),
            !old(self).tasks.occupied(OpKey::Balances),
            !h.delivered(),
        ensures
            final(self).wf(),
            final(self).tasks.balances == Some(h),
            final(self).tasks.occupied(OpKey::Balances),
            final(self).tasks.slots_eq_except(old(self).tasks, OpKey::Balances),
            final(self).tasks.spawns(OpKey::Balances) == old(self).tasks.spawns(OpKey::Balances) + 1,
            forall|j: OpKey| j != OpKey::Balances ==> final(self).tasks.spawns(j) == old(
                self,
            ).tasks.spawns(j),
            *final(self) == (AppState { tasks: final(self).tasks, ..*old(self) }),
            slot_next(
                slot_obs(old(self).tasks, OpKey::Balances),
                SlotStep::Install,
                slot_obs(final(self).tasks, OpKey::Balances),
            ),
    {
        self.tasks.balances = Some(h);
        self.tasks.spawned = Ghost(
            self.tasks.spawned@.insert(OpKey::Balances, self.tasks.spawned@[OpKey::Balances] + 1),
        );
    }

    /// Install the handle of a freshly launched channel-list fetch into its slot, counting one
    /// spawn.  The slot must be free: this is the single-flight guard's other half.
    pub fn install_channels(&mut self, h: ChannelTaskHandle<ListChannelsResponse>)
        requires
            old(self).wf(),
            !old(self).tasks.occupied(OpKey::Channels),
            !h.delivered(),
        ensures
            final(self).wf(),
            final(self).tasks.channels == Some(h),
            final(self).tasks.occupied(OpKey::Channels),
            final(self).tasks.slots_eq_except(old(self).tasks, OpKey::Channels),
            final(self).tasks.spawns(OpKey::Channels) == old(self).tasks.spawns(OpKey::Channels) + 1,
            forall|j: OpKey| j != OpKey::Channels ==> final(self).tasks.spawns(j) == old(
                self,
            ).tasks.spawns(j),
            *final(self) == (AppState { tasks: final(self).tasks, ..*old(self) }),
            slot_next(
                slot_obs(old(self).tasks, OpKey::Channels),
                SlotStep::Install,
                slot_obs(final(self).tasks, OpKey::Channels),
            ),
    {
        self.tasks.channels = Some(h);
        self.tasks.spawned = Ghost(
            self.tasks.spawned@.insert(OpKey::Channels, self.tasks.spawned@[OpKey::Channels] + 1),
        );
    }

    /// Install the handle of a freshly launched payments fetch into its slot, counting one
    /// spawn.  The slot must be free: this is the single-flight guard's other half.
    pub fn install_payments(&mut self, h: ChannelTaskHandle<ListPaymentsResponse>)
        requires
            old(self).wf(),
            !old(self).tasks.occupied(OpKey::Payments),
            !h.delivered(),
        ensures
            final(self).wf(),
            final(self).tasks.payments == Some(h),
            final(self).tasks.occupied(OpKey::Payments),
            final(self).tasks.slots_eq_except(old(self).tasks, OpKey::Payments),
            final(self).tasks.spawns(OpKey::Payments) == old(self).tasks.spawns(OpKey::Payments) + 1,
            forall|j: OpKey| j != OpKey::Payments ==> final(self).tasks.spawns(j) == old(
                self,
            ).tasks.spawns(j),
            *final(self) == (AppState { tasks: final(self).tasks, ..*old(self) }),
            slot_next(
                slot_obs(old(self).tasks, OpKey::Payments),
                SlotStep::Install,
                slot_obs(final(self).tasks, OpKey::Payments),
            ),
    {
        self.tasks.payments = Some(h);
        self.tasks.spawned = Ghost(
            self.tasks.spawned@.insert(OpKey::Payments, self.tasks.spawned@[OpKey::Payments] + 1),
        );
    }

    /// Install the handle of a freshly launched address generation into its slot, counting one
    /// spawn.  The slot must be free: this is the single-flight guard's other half.
    pub fn install_onchain_receive(&mut self, h: ChannelTaskHandle<OnchainReceiveResponse>)
        requires
            old(self).wf(),
            !old(self).tasks.occupied(OpKey::OnchainReceive),
            !h.delivered(),
        ensures
            final(self).wf(),
            final(self).tasks.onchain_receive == Some(h),
            final(self).tasks.occupied(OpKey::OnchainReceive),
            final(self).tasks.slots_eq_except(old(self).tasks, OpKey::OnchainReceive),
            final(self).tasks.spawns(OpKey::OnchainReceive) == old(self).tasks.spawns(OpKey::OnchainReceive) + 1,
            forall|j: OpKey| j != OpKey::OnchainReceive ==> final(self).tasks.spawns(j) == old(
                self,
            ).tasks.spawns(j),
            *final(self) == (AppState { tasks: final(self).tasks, ..*old(self) }),
            slot_next(
                slot_obs(old(self).tasks, OpKey::OnchainReceive),
                SlotStep::Install,
                slot_obs(final(self).tasks, OpKey::OnchainReceive),
            ),
    {
        self.tasks.onchain_receive = Some(h);
        self.tasks.spawned = Ghost(
            self.tasks.spawned@.insert(OpKey::OnchainReceive, self.tasks.spawned@[OpKey::OnchainReceive] + 1),
        );
    }

    /// Install the handle of a freshly launched on-chain send into its slot, counting one
    /// spawn.  The slot must be free: this is the single-flight guard's other half.
    pub fn install_onchain_send(&mut self, h: ChannelTaskHandle<OnchainSendResponse>)
        requires
            old(self).wf(),
            !old(self).tasks.occupied(OpKey::OnchainSend),
            !h.delivered(),
        ensures
            final(self).wf(),
            final(self).tasks.onchain_send == Some(h),
            final(self).tasks.occupied(OpKey::OnchainSend),
            final(self).tasks.slots_eq_except(old(self).tasks, OpKey::OnchainSend),
            final(self).tasks.spawns(OpKey::OnchainSend) == old(self).tasks.spawns(OpKey::OnchainSend) + 1,
            forall|j: OpKey| j != OpKey::OnchainSend ==> final(self).tasks.spawns(j) == old(
                self,
            ).tasks.spawns(j),
            *final(self) == (AppState { tasks: final(self).tasks, ..*old(self) }),
            slot_next(
                slot_obs(old(self).tasks, OpKey::OnchainSend),
                SlotStep::Install,
                slot_obs(final(self).tasks, OpKey::OnchainSend),
            ),
    {
        self.tasks.onchain_send = Some(h);
        self.tasks.spawned = Ghost(
            self.tasks.spawned@.insert(OpKey::OnchainSend, self.tasks.spawned@[OpKey::OnchainSend] + 1),
        );
    }

    /// Install the handle of a freshly launched invoice generation into its slot, counting one
    /// spawn.  The slot must be free: this is the single-flight guard's other half.
    pub fn install_bolt11_receive(&mut self, h: ChannelTaskHandle<Bolt11ReceiveResponse>)
        requires
            old(self).wf(),
            !old(self).tasks.occupied(OpKey::Bolt11Receive),
            !h.delivered(),
        ensures
            final(self).wf(),
            final(self).tasks.bolt11_receive == Some(h),
            final(self).tasks.occupied(OpKey::Bolt11Receive),
            final(self).tasks.slots_eq_except(old(self).tasks, OpKey::Bolt11Receive),
            final(self).tasks.spawns(OpKey::Bolt11Receive) == old(self).tasks.spawns(OpKey::Bolt11Receive) + 1,
            forall|j: OpKey| j != OpKey::Bolt11Receive ==> final(self).tasks.spawns(j) == old(
                self,
            ).tasks.spawns(j),
            *final(self) == (AppState { tasks: final(self).tasks, ..*old(self) }),
            slot_next(
                slot_obs(old(self).tasks, OpKey::Bolt11Receive),
                SlotStep::Install,
                slot_obs(final(self).tasks, OpKey::Bolt11Receive),
            ),
    {
        self.tasks.bolt11_receive = Some(h);
        self.tasks.spawned = Ghost(
            self.tasks.spawned@.insert(OpKey::Bolt11Receive, self.tasks.spawned@[OpKey::Bolt11Receive] + 1),
        );
    }

    /// Install the handle of a freshly launched invoice payment into its slot, counting one
    /// spawn.  The slot must be free: this is the single-flight guard's other half.
    pub fn install_bolt11_send(&mut self, h: ChannelTaskHandle<Bolt11SendResponse>)
        requires
            old(self).wf(),
            !old(self).tasks.occupied(OpKey::Bolt11Send),
            !h.delivered(),
        ensures
            final(self).wf(),
            final(self).tasks.bolt11_send == Some(h),
            final(self).tasks.occupied(OpKey::Bolt11Send),
            final(self).tasks.slots_eq_except(old(self).tasks, OpKey::Bolt11Send),
            final(self).tasks.spawns(OpKey::Bolt11Send) == old(self).tasks.spawns(OpKey::Bolt11Send) + 1,
            forall|j: OpKey| j != OpKey::Bolt11Send ==> final(self).tasks.spawns(j) == old(
                self,
            ).tasks.spawns(j),
            *final(self) == (AppState { tasks: final(self).tasks, ..*old(self) }),
            slot_next(
                slot_obs(old(self).tasks, OpKey::Bolt11Send),
                SlotStep::Install,
                slot_obs(final(self).tasks, OpKey::Bolt11Send),
            ),
    {
        self.tasks.bolt11_send = Some(h);
        self.tasks.spawned = Ghost(
            self.tasks.spawned@.insert(OpKey::Bolt11Send, self.tasks.spawned@[OpKey::Bolt11Send] + 1),
        );
    }

    /// Install the handle of a freshly launched offer generation into its slot, counting one
    /// spawn.  The slot must be free: this is the single-flight guard's other half.
    pub fn install_bolt12_receive(&mut self, h: ChannelTaskHandle<Bolt12ReceiveResponse>)
        requires
            old(self).wf(),
            !old(self).tasks.occupied(OpKey::Bolt12Receive),
            !h.delivered(),
        ensures
            final(self).wf(),
            final(self).tasks.bolt12_receive == Some(h),
            final(self).tasks.occupied(OpKey::Bolt12Receive),
            final(self).tasks.slots_eq_except(old(self).tasks, OpKey::Bolt12Receive),
            final(self).tasks.spawns(OpKey::Bolt12Receive) == old(self).tasks.spawns(OpKey::Bolt12Receive) + 1,
            forall|j: OpKey| j != OpKey::Bolt12Receive ==> final(self).tasks.spawns(j) == old(
                self,
            ).tasks.spawns(j),
            *final(self) == (AppState { tasks: final(self).tasks, ..*old(self) }),
            slot_next(
                slot_obs(old(self).tasks, OpKey::Bolt12Receive),
                SlotStep::Install,
                slot_obs(final(self).tasks, OpKey::Bolt12Receive),
            ),
    {
        self.tasks.bolt12_receive = Some(h);
        self.tasks.spawned = Ghost(
            self.tasks.spawned@.insert(OpKey::Bolt12Receive, self.tasks.spawned@[OpKey::Bolt12Receive] + 1),
        );
    }

    /// Install the handle of a freshly launched offer payment into its slot, counting one
    /// spawn.  The slot must be free: this is the single-flight guard's other half.
    pub fn install_bolt12_send(&mut self, h: ChannelTaskHandle<Bolt12SendResponse>)
        requires
            old(self).wf(),
            !old(self).tasks.occupied(OpKey::Bolt12Send),
            !h.delivered(),
        ensures
            final(self).wf(),
            final(self).tasks.bolt12_send == Some(h),
            final(self).tasks.occupied(OpKey::Bolt12Send),
            final(self).tasks.slots_eq_except(old(self).tasks, OpKey::Bolt12Send),
            final(self).tasks.spawns(OpKey::Bolt12Send) == old(self).tasks.spawns(OpKey::Bolt12Send) + 1,
            forall|j: OpKey| j != OpKey::Bolt12Send ==> final(self).tasks.spawns(j) == old(
                self,
            ).tasks.spawns(j),
            *final(self) == (AppState { tasks: final(self).tasks, ..*old(self) }),
            slot_next(
                slot_obs(old(self).tasks, OpKey::Bolt12Send),
                SlotStep::Install,
                slot_obs(final(self).tasks, OpKey::Bolt12Send),
            ),
    {
        self.tasks.bolt12_send = Some(h);
        self.tasks.spawned = Ghost(
            self.tasks.spawned@.insert(OpKey::Bolt12Send, self.tasks.spawned@[OpKey::Bolt12Send] + 1),
        );
    }

    /// Install the handle of a freshly launched channel open into its slot, counting one
    /// spawn.  The slot must be free: this is the single-flight guard's other half.
    pub fn install_open_channel(&mut self, h: ChannelTaskHandle<OpenChannelResponse>)
        requires
            old(self).wf(),
            !old(self).tasks.occupied(OpKey::OpenChannel),
            !h.delivered(),
        ensures
            final(self).wf(),
            final(self).tasks.open_channel == Some(h),
            final(self).tasks.occupied(OpKey::OpenChannel),
            final(self).tasks.slots_eq_except(old(self).tasks, OpKey::OpenChannel),
            final(self).tasks.spawns(OpKey::OpenChannel) == old(self).tasks.spawns(OpKey::OpenChannel) + 1,
            forall|j: OpKey| j != OpKey::OpenChannel ==> final(self).tasks.spawns(j) == old(
                self,
            ).tasks.spawns(j),
            *final(self) == (AppState { tasks: final(self).tasks, ..*old(self) }),
            slot_next(
                slot_obs(old(self).tasks, OpKey::OpenChannel),
                SlotStep::Install,
                slot_obs(final(self).tasks, OpKey::OpenChannel),
            ),
    {
        self.tasks.open_channel = Some(h);
        self.tasks.spawned = Ghost(
            self.tasks.spawned@.insert(OpKey::OpenChannel, self.tasks.spawned@[OpKey::OpenChannel] + 1),
        );
    }

    /// Install the handle of a freshly launched channel close into its slot, counting one
    /// spawn.  The slot must be free: this is the single-flight guard's other half.
    pub fn install_close_channel(&mut self, h: ChannelTaskHandle<CloseChannelResponse>)
        requires
            old(self).wf(),
            !old(self).tasks.occupied(OpKey::CloseChannel),
            !h.delivered(),
        ensures
            final(self).wf(),
            final(self).tasks.close_channel == Some(h),
            final(self).tasks.occupied(OpKey::CloseChannel),
            final(self).tasks.slots_eq_except(old(self).tasks, OpKey::CloseChannel),
            final(self).tasks.spawns(OpKey::CloseChannel) == old(self).tasks.spawns(OpKey::CloseChannel) + 1,
            forall|j: OpKey| j != OpKey::CloseChannel ==> final(self).tasks.spawns(j) == old(
                self,
            ).tasks.spawns(j),
            *final(self) == (AppState { tasks: final(self).tasks, ..*old(self) }),
            slot_next(
                slot_obs(old(self).tasks, OpKey::CloseChannel),
                SlotStep::Install,
                slot_obs(final(self).tasks, OpKey::CloseChannel),
            ),
    {
        self.tasks.close_channel = Some(h);
        self.tasks.spawned = Ghost(
            self.tasks.spawned@.insert(OpKey::CloseChannel, self.tasks.spawned@[OpKey::CloseChannel] + 1),
        );
    }

    /// Install the handle of a freshly launched forced channel close into its slot, counting one
    /// spawn.  The slot must be free: this is the single-flight guard's other half.
    pub fn install_force_close_channel(&mut self, h: ChannelTaskHandle<ForceCloseChannelResponse>)
        requires
            old(self).wf(),
            !old(self).tasks.occupied(OpKey::ForceCloseChannel),
            !h.delivered(),
        ensures
            final(self).wf(),
            final(self).tasks.force_close_channel == Some(h),
            final(self).tasks.occupied(OpKey::ForceCloseChannel),
            final(self).tasks.slots_eq_except(old(self).tasks, OpKey::ForceCloseChannel),
            final(self).tasks.spawns(OpKey::ForceCloseChannel) == old(self).tasks.spawns(OpKey::ForceCloseChannel) + 1,
            forall|j: OpKey| j != OpKey::ForceCloseChannel ==> final(self).tasks.spawns(j) == old(
                self,
            ).tasks.spawns(j),
            *final(self) == (AppState { tasks: final(self).tasks, ..*old(self) }),
            slot_next(
                slot_obs(old(self).tasks, OpKey::ForceCloseChannel),
                SlotStep::Install,
                slot_obs(final(self).tasks, OpKey::ForceCloseChannel),
            ),
    {
        self.tasks.force_close_channel = Some(h);
        self.tasks.spawned = Ghost(
            self.tasks.spawned@.insert(OpKey::ForceCloseChannel, self.tasks.spawned@[OpKey::ForceCloseChannel] + 1),
        );
    }

    /// Install the handle of a freshly launched splice-in into its slot, counting one
    /// spawn.  The slot must be free: this is the single-flight guard's other half.
    pub fn install_splice_in(&mut self, h: ChannelTaskHandle<SpliceInResponse>)
        requires
            old(self).wf(),
            !old(self).tasks.occupied(OpKey::SpliceIn),
            !h.delivered(),
        ensures
            final(self).wf(),
            final(self).tasks.splice_in == Some(h),
            final(self).tasks.occupied(OpKey::SpliceIn),
            final(self).tasks.slots_eq_except(old(self).tasks, OpKey::SpliceIn),
            final(self).tasks.spawns(OpKey::SpliceIn) == old(self).tasks.spawns(OpKey::SpliceIn) + 1,
            forall|j: OpKey| j != OpKey::SpliceIn ==> final(self).tasks.spawns(j) == old(
                self,
            ).tasks.spawns(j),
            *final(self) == (AppState { tasks: final(self).tasks, ..*old(self) }),
            slot_next(
                slot_obs(old(self).tasks, OpKey::SpliceIn),
                SlotStep::Install,
                slot_obs(final(self).tasks, OpKey::SpliceIn),
            ),
    {
        self.tasks.splice_in = Some(h);
        self.tasks.spawned = Ghost(
            self.tasks.spawned@.insert(OpKey::SpliceIn, self.tasks.spawned@[OpKey::SpliceIn] + 1),
        );
    }

    /// Install the handle of a freshly launched splice-out into its slot, counting one
    /// spawn.  The slot must be free: this is the single-flight guard's other half.
    pub fn install_splice_out(&mut self, h: ChannelTaskHandle<SpliceOutResponse>)
        requires
            old(self).wf(),
            !old(self).tasks.occupied(OpKey::SpliceOut),
            !h.delivered(),
        ensures
            final(self).wf(),
            final(self).tasks.splice_out == Some(h),
            final(self).tasks.occupied(OpKey::SpliceOut),
            final(self).tasks.slots_eq_except(old(self).tasks, OpKey::SpliceOut),
            final(self).tasks.spawns(OpKey::SpliceOut) == old(self).tasks.spawns(OpKey::SpliceOut) + 1,
            forall|j: OpKey| j != OpKey::SpliceOut ==> final(self).tasks.spawns(j) == old(
                self,
            ).tasks.spawns(j),
            *final(self) == (AppState { tasks: final(self).tasks, ..*old(self) }),
            slot_next(
                slot_obs(old(self).tasks, OpKey::SpliceOut),
                SlotStep::Install,
                slot_obs(final(self).tasks, OpKey::SpliceOut),
            ),
    {
        self.tasks.splice_out = Some(h);
        self.tasks.spawned = Ghost(
            self.tasks.spawned@.insert(OpKey::SpliceOut, self.tasks.spawned@[OpKey::SpliceOut] + 1),
        );
    }

    /// Install the handle of a freshly launched channel-config update into its slot, counting one
    /// spawn.  The slot must be free: this is the single-flight guard's other half.
    pub fn install_update_channel_config(&mut self, h: ChannelTaskHandle<UpdateChannelConfigResponse>)
        requires
            old(self).wf(),
            !old(self).tasks.occupied(OpKey::UpdateChannelConfig),
            !h.delivered(),
        ensures
            final(self).wf(),
            final(self).tasks.update_channel_config == Some(h),
            final(self).tasks.occupied(OpKey::UpdateChannelConfig),
            final(self).tasks.slots_eq_except(old(self).tasks, OpKey::UpdateChannelConfig),
            final(self).tasks.spawns(OpKey::UpdateChannelConfig) == old(self).tasks.spawns(OpKey::UpdateChannelConfig) + 1,
            forall|j: OpKey| j != OpKey::UpdateChannelConfig ==> final(self).tasks.spawns(j) == old(
                self,
            ).tasks.spawns(j),
            *final(self) == (AppState { tasks: final(self).tasks, ..*old(self) }),
            slot_next(
                slot_obs(old(self).tasks, OpKey::UpdateChannelConfig),
                SlotStep::Install,
                slot_obs(final(self).tasks, OpKey::UpdateChannelConfig),
            ),
    {
        self.tasks.update_channel_config = Some(h);
        self.tasks.spawned = Ghost(
            self.tasks.spawned@.insert(OpKey::UpdateChannelConfig, self.tasks.spawned@[OpKey::UpdateChannelConfig] + 1),
        );
    }

    /// Install the handle of a freshly launched peer connection into its slot, counting one
    /// spawn.  The slot must be free: this is the single-flight guard's other half.
    pub fn install_connect_peer(&mut self, h: ChannelTaskHandle<ConnectPeerResponse>)
        requires
            old(self).wf(),
            !old(self).tasks.occupied(OpKey::ConnectPeer),
            !h.delivered(),
        ensures
            final(self).wf(),
            final(self).tasks.connect_peer == Some(h),
            final(self).tasks.occupied(OpKey::ConnectPeer),
            final(self).tasks.slots_eq_except(old(self).tasks, OpKey::ConnectPeer),
            final(self).tasks.spawns(OpKey::ConnectPeer) == old(self).tasks.spawns(OpKey::ConnectPeer) + 1,
            forall|j: OpKey| j != OpKey::ConnectPeer ==> final(self).tasks.spawns(j) == old(
                self,
            ).tasks.spawns(j),
            *final(self) == (AppState { tasks: final(self).tasks, ..*old(self) }),
            slot_next(
                slot_obs(old(self).tasks, OpKey::ConnectPeer),
                SlotStep::Install,
                slot_obs(final(self).tasks, OpKey::ConnectPeer),
            ),
    {
        self.tasks.connect_peer = Some(h);
        self.tasks.spawned = Ghost(
            self.tasks.spawned@.insert(OpKey::ConnectPeer, self.tasks.spawned@[OpKey::ConnectPeer] + 1),
        );
    }

    /// Route a drained node-info outcome: cache the response, or surface the error.
    pub fn apply_node_info_outcome(&mut self, res: Result<GetNodeInfoResponse, String>)
        ensures
            node_info_applied(*old(self), res, *final(self)),
    {
        match res {
            Ok(v) => {
                self.node_info = Some(v);
            },
            Err(e) => {
                self.status_message = Some(StatusMessage::error(e));
            },
        }
    }

    /// Route a drained balances outcome: cache the response, or surface the error.
    pub fn apply_balances_outcome(&mut self, res: Result<GetBalancesResponse, String>)
        ensures
            balances_applied(*old(self), res, *final(self)),
    {
        match res {
            Ok(v) => {
                self.balances = Some(v);
            },
            Err(e) => {
                self.status_message = Some(StatusMessage::error(e));
            },
        }
    }

    /// Route a drained channel-list outcome: cache the response, or surface the
    /// error.
    pub fn apply_channels_outcome(&mut self, res: Result<ListChannelsResponse, String>)
        ensures
            channels_applied(*old(self), res, *final(self)),
    {
        match res {
            Ok(v) => {
                self.channels = Some(v);
            },
            Err(e) => {
                self.status_message = Some(StatusMessage::error(e));
            },
        }
    }

    /// Route a drained payments outcome: remember the next page token and cache the
    /// page, or surface the error.
    pub fn apply_payments_outcome(&mut self, res: Result<ListPaymentsResponse, String>)
        ensures
            payments_applied(*old(self), res, *final(self)),
    {
        match res {
            Ok(v) => {
                self.payments_page_token = match &v.next_page_token {
                    Some(t) => Some(t.clone()),
                    None => None,
                };
                self.payments = Some(v);
            },
            Err(e) => {
                self.status_message = Some(StatusMessage::error(e));
            },
        }
    }

    /// Route a drained address-generation outcome: remember the address and report
    /// success, or surface the error.
    pub fn apply_onchain_receive_outcome(&mut self, res: Result<OnchainReceiveResponse, String>)
        ensures
            onchain_receive_applied(*old(self), res, *final(self)),
    {
        match res {
            Ok(v) => {
                self.onchain_address = Some(v.address);
                self.status_message = Some(StatusMessage::success("Address generated".to_owned()));
            },
            Err(e) => {
                self.status_message = Some(StatusMessage::error(e));
            },
        }
    }

    /// Route a drained on-chain send outcome: remember the transaction id, report
    /// it, and clear the form; or surface the error.
    pub fn apply_onchain_send_outcome(&mut self, res: Result<OnchainSendResponse, String>)
        ensures
            onchain_send_applied(*old(self), res, *final(self)),
    {
        match res {
            Ok(v) => {
                self.last_txid = Some(v.txid.clone());
                self.status_message = Some(
                    StatusMessage::success(message("Sent! TXID: ", v.txid.as_str())),
                );
                self.forms.onchain_send = OnchainSendForm::default();
            },
            Err(e) => {
                self.status_message = Some(StatusMessage::error(e));
            },
        }
    }

    /// Route a drained invoice-generation outcome: remember the invoice and report
    /// success, or surface the error.
    pub fn apply_bolt11_receive_outcome(&mut self, res: Result<Bolt11ReceiveResponse, String>)
        ensures
            bolt11_receive_applied(*old(self), res, *final(self)),
    {
        match res {
            Ok(v) => {
                self.generated_invoice = Some(v.invoice);
                self.status_message = Some(StatusMessage::success("Invoice generated".to_owned()));
            },
            Err(e) => {
                self.status_message = Some(StatusMessage::error(e));
            },
        }
    }

    /// Route a drained invoice-payment outcome: remember the payment id, report it,
    /// and clear the form; or surface the error.
    pub fn apply_bolt11_send_outcome(&mut self, res: Result<Bolt11SendResponse, String>)
        ensures
            bolt11_send_applied(*old(self), res, *final(self)),
    {
        match res {
            Ok(v) => {
                self.last_payment_id = Some(v.payment_id.clone());
                self.status_message = Some(
                    StatusMessage::success(message("Payment sent! ID: ", v.payment_id.as_str())),
                );
                self.forms.bolt11_send = Bolt11SendForm::default();
            },
            Err(e) => {
                self.status_message = Some(StatusMessage::error(e));
            },
        }
    }

    /// Route a drained offer-generation outcome: remember the offer and report
    /// success, or surface the error.
    pub fn apply_bolt12_receive_outcome(&mut self, res: Result<Bolt12ReceiveResponse, String>)
        ensures
            bolt12_receive_applied(*old(self), res, *final(self)),
    {
        match res {
            Ok(v) => {
                self.generated_offer = Some(v.offer);
                self.status_message = Some(StatusMessage::success("Offer generated".to_owned()));
            },
            Err(e) => {
                self.status_message = Some(StatusMessage::error(e));
            },
        }
    }

    /// Route a drained offer-payment outcome: remember the payment id, report it,
    /// and clear the form; or surface the error.
    pub fn apply_bolt12_send_outcome(&mut self, res: Result<Bolt12SendResponse, String>)
        ensures
            bolt12_send_applied(*old(self), res, *final(self)),
    {
        match res {
            Ok(v) => {
                self.last_payment_id = Some(v.payment_id.clone());
                self.status_message = Some(
                    StatusMessage::success(message("Payment sent! ID: ", v.payment_id.as_str())),
                );
                self.forms.bolt12_send = Bolt12SendForm::default();
            },
            Err(e) => {
                self.status_message = Some(StatusMessage::error(e));
            },
        }
    }

    /// Route a drained channel-open outcome: remember the channel id, report it,
    /// clear the form and close the dialog; or surface the error.  A success asks
    /// for a channel-list re-fetch.
    pub fn apply_open_channel_outcome(&mut self, res: Result<OpenChannelResponse, String>) -> (refetch: bool)
        ensures
            open_channel_applied(*old(self), res, *final(self)),
            refetch == res is Ok,
    {
        match res {
            Ok(v) => {
                self.last_channel_id = Some(v.user_channel_id.clone());
                self.status_message = Some(
                    StatusMessage::success(
                        message("Channel opened! ID: ", v.user_channel_id.as_str()),
                    ),
                );
                self.forms.open_channel = OpenChannelForm::default();
                self.show_open_channel_dialog = false;
                true
            },
            Err(e) => {
                self.status_message = Some(StatusMessage::error(e));
                false
            },
        }
    }

    /// Route a drained channel-close outcome; a success asks for a channel-list
    /// re-fetch.
    pub fn apply_close_channel_outcome(&mut self, res: Result<CloseChannelResponse, String>) -> (refetch: bool)
        ensures
            close_channel_applied(*old(self), res, *final(self)),
            refetch == res is Ok,
    {
        match res {
            Ok(_) => {
                self.status_message = Some(
                    StatusMessage::success("Channel close initiated".to_owned()),
                );
                self.forms.close_channel = CloseChannelForm::default();
                self.show_close_channel_dialog = false;
                true
            },
            Err(e) => {
                self.status_message = Some(StatusMessage::error(e));
                false
            },
        }
    }

    /// Route a drained forced-close outcome; a success asks for a channel-list
    /// re-fetch.
    pub fn apply_force_close_channel_outcome(
        &mut self,
        res: Result<ForceCloseChannelResponse, String>,
    ) -> (refetch: bool)
        ensures
            force_close_channel_applied(*old(self), res, *final(self)),
            refetch == res is Ok,
    {
        match res {
            Ok(_) => {
                self.status_message = Some(
                    StatusMessage::success("Force close initiated".to_owned()),
                );
                self.forms.close_channel = CloseChannelForm::default();
                self.show_close_channel_dialog = false;
                true
            },
            Err(e) => {
                self.status_message = Some(StatusMessage::error(e));
                false
            },
        }
    }

    /// Route a drained splice-in outcome; a success asks for a channel-list
    /// re-fetch.
    pub fn apply_splice_in_outcome(&mut self, res: Result<SpliceInResponse, String>) -> (refetch: bool)
        ensures
            splice_in_applied(*old(self), res, *final(self)),
            refetch == res is Ok,
    {
        match res {
            Ok(_) => {
                self.status_message = Some(
                    StatusMessage::success("Splice-in initiated".to_owned()),
                );
                self.forms.splice_in = SpliceForm::default();
                self.show_splice_in_dialog = false;
                true
            },
            Err(e) => {
                self.status_message = Some(StatusMessage::error(e));
                false
            },
        }
    }

    /// Route a drained splice-out outcome; a success reports the destination and
    /// asks for a channel-list re-fetch.
    pub fn apply_splice_out_outcome(&mut self, res: Result<SpliceOutResponse, String>) -> (refetch: bool)
        ensures
            splice_out_applied(*old(self), res, *final(self)),
            refetch == res is Ok,
    {
        match res {
            Ok(v) => {
                self.status_message = Some(
                    StatusMessage::success(message("Splice-out initiated to ", v.address.as_str())),
                );
                self.forms.splice_out = SpliceForm::default();
                self.show_splice_out_dialog = false;
                true
            },
            Err(e) => {
                self.status_message = Some(StatusMessage::error(e));
                false
            },
        }
    }

    /// Route a drained channel-config update outcome; a success asks for a
    /// channel-list re-fetch.
    pub fn apply_update_channel_config_outcome(
        &mut self,
        res: Result<UpdateChannelConfigResponse, String>,
    ) -> (refetch: bool)
        ensures
            update_channel_config_applied(*old(self), res, *final(self)),
            refetch == res is Ok,
    {
        match res {
            Ok(_) => {
                self.status_message = Some(
                    StatusMessage::success("Channel config updated".to_owned()),
                );
                self.forms.update_channel_config = UpdateChannelConfigForm::default();
                self.show_update_config_dialog = false;
                true
            },
            Err(e) => {
                self.status_message = Some(StatusMessage::error(e));
                false
            },
        }
    }

    /// Route a drained peer-connection outcome.
    pub fn apply_connect_peer_outcome(&mut self, res: Result<ConnectPeerResponse, String>)
        ensures
            connect_peer_applied(*old(self), res, *final(self)),
    {
        match res {
            Ok(_) => {
                self.status_message = Some(
                    StatusMessage::success("Peer connected successfully".to_owned()),
                );
                self.forms.connect_peer = ConnectPeerForm::default();
                self.show_connect_peer_dialog = false;
            },
            Err(e) => {
                self.status_message = Some(StatusMessage::error(e));
            },
        }
    }


    /// Drain one tick's worth of the node_info slot: poll it, route a completed
    /// outcome, and say whether work is still outstanding there.
    fn drain_node_info(&mut self)
        requires
            old(self).wf(),
        ensures
            final(self).wf(),
            tasks_drained(old(self).tasks, final(self).tasks),
    {
        match poll_slot(&mut self.tasks.node_info) {
            SlotPoll::Idle => {},
            SlotPoll::Busy => {},
            SlotPoll::Done(res) => {
                self.apply_node_info_outcome(res);
            },
        }
    }

    /// Drain one tick's worth of the balances slot: poll it, route a completed
    /// outcome, and say whether work is still outstanding there.
    fn drain_balances(&mut self)
        requires
            old(self).wf(),
        ensures
            final(self).wf(),
            tasks_drained(old(self).tasks, final(self).tasks),
    {
        match poll_slot(&mut self.tasks.balances) {
            SlotPoll::Idle => {},
            SlotPoll::Busy => {},
            SlotPoll::Done(res) => {
                self.apply_balances_outcome(res);
            },
        }
    }

    /// Drain one tick's worth of the channels slot: poll it, route a completed
    /// outcome, and say whether work is still outstanding there.
    fn drain_channels(&mut self)
        requires
            old(self).wf(),
        ensures
            final(self).wf(),
            tasks_drained(old(self).tasks, final(self).tasks),
    {
        match poll_slot(&mut self.tasks.channels) {
            SlotPoll::Idle => {},
            SlotPoll::Busy => {},
            SlotPoll::Done(res) => {
                self.apply_channels_outcome(res);
            },
        }
    }

    /// Drain one tick's worth of the payments slot: poll it, route a completed
    /// outcome, and say whether work is still outstanding there.
    fn drain_payments(&mut self)
        requires
            old(self).wf(),
        ensures
            final(self).wf(),
            tasks_drained(old(self).tasks, final(self).tasks),
    {
        match poll_slot(&mut self.tasks.payments) {
            SlotPoll::Idle => {},
            SlotPoll::Busy => {},
            SlotPoll::Done(res) => {
                self.apply_payments_outcome(res);
            },
        }
    }

    /// Drain one tick's worth of the onchain_receive slot: poll it, route a completed
    /// outcome, and say whether work is still outstanding there.
    fn drain_onchain_receive(&mut self)
        requires
            old(self).wf(),
        ensures
            final(self).wf(),
            tasks_drained(old(self).tasks, final(self).tasks),
    {
        match poll_slot(&mut self.tasks.onchain_receive) {
            SlotPoll::Idle => {},
            SlotPoll::Busy => {},
            SlotPoll::Done(res) => {
                self.apply_onchain_receive_outcome(res);
            },
        }
    }

    /// Drain one tick's worth of the onchain_send slot: poll it, route a completed
    /// outcome, and say whether work is still outstanding there.
    fn drain_onchain_send(&mut self)
        requires
            old(self).wf(),
        ensures
            final(self).wf(),
            tasks_drained(old(self).tasks, final(self).tasks),
    {
        match poll_slot(&mut self.tasks.onchain_send) {
            SlotPoll::Idle => {},
            SlotPoll::Busy => {},
            SlotPoll::Done(res) => {
                self.apply_onchain_send_outcome(res);
            },
        }
    }

    /// Drain one tick's worth of the bolt11_receive slot: poll it, route a completed
    /// outcome, and say whether work is still outstanding there.
    fn drain_bolt11_receive(&mut self)
        requires
            old(self).wf(),
        ensures
            final(self).wf(),
            tasks_drained(old(self).tasks, final(self).tasks),
    {
        match poll_slot(&mut self.tasks.bolt11_receive) {
            SlotPoll::Idle => {},
            SlotPoll::Busy => {},
            SlotPoll::Done(res) => {
                self.apply_bolt11_receive_outcome(res);
            },
        }
    }

    /// Drain one tick's worth of the bolt11_send slot: poll it, route a completed
    /// outcome, and say whether work is still outstanding there.
    fn drain_bolt11_send(&mut self)
        requires
            old(self).wf(),
        ensures
            final(self).wf(),
            tasks_drained(old(self).tasks, final(self).tasks),
    {
        match poll_slot(&mut self.tasks.bolt11_send) {
            SlotPoll::Idle => {},
            SlotPoll::Busy => {},
            SlotPoll::Done(res) => {
                self.apply_bolt11_send_outcome(res);
            },
        }
    }

    /// Drain one tick's worth of the bolt12_receive slot: poll it, route a completed
    /// outcome, and say whether work is still outstanding there.
    fn drain_bolt12_receive(&mut self)
        requires
            old(self).wf(),
        ensures
            final(self).wf(),
            tasks_drained(old(self).tasks, final(self).tasks),
    {
        match poll_slot(&mut self.tasks.bolt12_receive) {
            SlotPoll::Idle => {},
            SlotPoll::Busy => {},
            SlotPoll::Done(res) => {
                self.apply_bolt12_receive_outcome(res);
            },
        }
    }

    /// Drain one tick's worth of the bolt12_send slot: poll it, route a completed
    /// outcome, and say whether work is still outstanding there.
    fn drain_bolt12_send(&mut self)
        requires
            old(self).wf(),
        ensures
            final(self).wf(),
            tasks_drained(old(self).tasks, final(self).tasks),
    {
        match poll_slot(&mut self.tasks.bolt12_send) {
            SlotPoll::Idle => {},
            SlotPoll::Busy => {},
            SlotPoll::Done(res) => {
                self.apply_bolt12_send_outcome(res);
            },
        }
    }

    /// Drain one tick's worth of the connect_peer slot: poll it, route a completed
    /// outcome, and say whether work is still outstanding there.
    fn drain_connect_peer(&mut self)
        requires
            old(self).wf(),
        ensures
            final(self).wf(),
            tasks_drained(old(self).tasks, final(self).tasks),
    {
        match poll_slot(&mut self.tasks.connect_peer) {
            SlotPoll::Idle => {},
            SlotPoll::Busy => {},
            SlotPoll::Done(res) => {
                self.apply_connect_peer_outcome(res);
            },
        }
    }

    /// Drain one tick's worth of the open_channel slot; a drained success additionally
    /// asks for a channel-list re-fetch.
    fn drain_open_channel(&mut self) -> (refetch: bool)
        requires
            old(self).wf(),
        ensures
            final(self).wf(),
            tasks_drained(old(self).tasks, final(self).tasks),
    {
        match poll_slot(&mut self.tasks.open_channel) {
            SlotPoll::Idle => false,
            SlotPoll::Busy => false,
            SlotPoll::Done(res) => self.apply_open_channel_outcome(res),
        }
    }

    /// Drain one tick's worth of the close_channel slot; a drained success additionally
    /// asks for a channel-list re-fetch.
    fn drain_close_channel(&mut self) -> (refetch: bool)
        requires
            old(self).wf(),
        ensures
            final(self).wf(),
            tasks_drained(old(self).tasks, final(self).tasks),
    {
        match poll_slot(&mut self.tasks.close_channel) {
            SlotPoll::Idle => false,
            SlotPoll::Busy => false,
            SlotPoll::Done(res) => self.apply_close_channel_outcome(res),
        }
    }

    /// Drain one tick's worth of the force_close_channel slot; a drained success additionally
    /// asks for a channel-list re-fetch.
    fn drain_force_close_channel(&mut self) -> (refetch: bool)
        requires
            old(self).wf(),
        ensures
            final(self).wf(),
            tasks_drained(old(self).tasks, final(self).tasks),
    {
        match poll_slot(&mut self.tasks.force_close_channel) {
            SlotPoll::Idle => false,
            SlotPoll::Busy => false,
            SlotPoll::Done(res) => self.apply_force_close_channel_outcome(res),
        }
    }

    /// Drain one tick's worth of the splice_in slot; a drained success additionally
    /// asks for a channel-list re-fetch.
    fn drain_splice_in(&mut self) -> (refetch: bool)
        requires
            old(self).wf(),
        ensures
            final(self).wf(),
            tasks_drained(old(self).tasks, final(self).tasks),
    {
        match poll_slot(&mut self.tasks.splice_in) {
            SlotPoll::Idle => false,
            SlotPoll::Busy => false,
            SlotPoll::Done(res) => self.apply_splice_in_outcome(res),
        }
    }

    /// Drain one tick's worth of the splice_out slot; a drained success additionally
    /// asks for a channel-list re-fetch.
    fn drain_splice_out(&mut self) -> (refetch: bool)
        requires
            old(self).wf(),
        ensures
            final(self).wf(),
            tasks_drained(old(self).tasks, final(self).tasks),
    {
        match poll_slot(&mut self.tasks.splice_out) {
            SlotPoll::Idle => false,
            SlotPoll::Busy => false,
            SlotPoll::Done(res) => self.apply_splice_out_outcome(res),
        }
    }

    /// Drain one tick's worth of the update_channel_config slot; a drained success additionally
    /// asks for a channel-list re-fetch.
    fn drain_update_channel_config(&mut self) -> (refetch: bool)
        requires
            old(self).wf(),
        ensures
            final(self).wf(),
            tasks_drained(old(self).tasks, final(self).tasks),
    {
        match poll_slot(&mut self.tasks.update_channel_config) {
            SlotPoll::Idle => false,
            SlotPoll::Busy => false,
            SlotPoll::Done(res) => self.apply_update_channel_config_outcome(res),
        }
    }

    /// The once-per-tick drain: poll every occupied slot; leave outstanding work in
    /// place, route every completed outcome into application state, and say whether
    /// another poll should be scheduled soon.  A successful channel-changing
    /// operation asks, through the usual trigger and its single-flight guard, for a
    /// channel-list re-fetch.  Draining never launches work by itself: every spawn
    /// count is exactly as it was.
    pub fn poll_tasks(&mut self) -> (r: PollOutcome)
        requires
            old(self).wf(),
        ensures
            final(self).wf(),
            r.pending == final(self).tasks.any_occupied(),
            tasks_drained(old(self).tasks, final(self).tasks),
            r.spawn_channels_fetch ==> final(self).has_client && final(self).tasks.channels
                is None,
    {
        let ghost t0 = self.tasks;
        let ghost mut tp = self.tasks;
        let mut refetch = false;

        self.drain_node_info();
        proof {
            lemma_tasks_drained_trans(t0, tp, self.tasks);
            tp = self.tasks;
        }
        self.drain_balances();
        proof {
            lemma_tasks_drained_trans(t0, tp, self.tasks);
            tp = self.tasks;
        }
        self.drain_channels();
        proof {
            lemma_tasks_drained_trans(t0, tp, self.tasks);
            tp = self.tasks;
        }
        self.drain_payments();
        proof {
            lemma_tasks_drained_trans(t0, tp, self.tasks);
            tp = self.tasks;
        }
        self.drain_onchain_receive();
        proof {
            lemma_tasks_drained_trans(t0, tp, self.tasks);
            tp = self.tasks;
        }
        self.drain_onchain_send();
        proof {
            lemma_tasks_drained_trans(t0, tp, self.tasks);
            tp = self.tasks;
        }
        self.drain_bolt11_receive();
        proof {
            lemma_tasks_drained_trans(t0, tp, self.tasks);
            tp = self.tasks;
        }
        self.drain_bolt11_send();
        proof {
            lemma_tasks_drained_trans(t0, tp, self.tasks);
            tp = self.tasks;
        }
        self.drain_bolt12_receive();
        proof {
            lemma_tasks_drained_trans(t0, tp, self.tasks);
            tp = self.tasks;
        }
        self.drain_bolt12_send();
        proof {
            lemma_tasks_drained_trans(t0, tp, self.tasks);
            tp = self.tasks;
        }
        if self.drain_open_channel() {
            refetch = true;
        }
        proof {
            lemma_tasks_drained_trans(t0, tp, self.tasks);
            tp = self.tasks;
        }
        if self.drain_close_channel() {
            refetch = true;
        }
        proof {
            lemma_tasks_drained_trans(t0, tp, self.tasks);
            tp = self.tasks;
        }
        if self.drain_force_close_channel() {
            refetch = true;
        }
        proof {
            lemma_tasks_drained_trans(t0, tp, self.tasks);
            tp = self.tasks;
        }
        if self.drain_splice_in() {
            refetch = true;
        }
        proof {
            lemma_tasks_drained_trans(t0, tp, self.tasks);
            tp = self.tasks;
        }
        if self.drain_splice_out() {
            refetch = true;
        }
        proof {
            lemma_tasks_drained_trans(t0, tp, self.tasks);
            tp = self.tasks;
        }
        if self.drain_update_channel_config() {
            refetch = true;
        }
        proof {
            lemma_tasks_drained_trans(t0, tp, self.tasks);
            tp = self.tasks;
        }
        self.drain_connect_peer();
        proof {
            lemma_tasks_drained_trans(t0, tp, self.tasks);
            tp = self.tasks;
        }

        let pending = self.tasks.any_pending();
        let spawn_channels_fetch = if refetch {
            self.fetch_channels()
        } else {
            false
        };

        PollOutcome { pending, spawn_channels_fetch }
    }

    /// Decide whether a connection can be attempted: the URL, API key and TLS
    /// certificate path must all be present.  A blank field sets the status message
    /// and hands back nothing; otherwise the caller reads the certificate, builds
    /// the client and reports through `complete_connect`.
    pub fn connect(&mut self) -> (r: Option<ConnectRequest>)
        ensures
            final(self).tasks == old(self).tasks,
            r is Some <==> (trim_of(old(self).server_url@).len() > 0 && old(self).api_key@.len()
                > 0 && trim_of(old(self).tls_cert_path@).len() > 0),
            r matches Some(req) ==> {
                &&& *final(self) == *old(self)
                &&& req.server_url@ == trim_of(old(self).server_url@)
                &&& req.api_key == old(self).api_key
                &&& req.tls_cert_path@ == trim_of(old(self).tls_cert_path@)
            },
            r is None ==> {
                &&& eq_except_status(*final(self), *old(self))
                &&& final(self).status_message matches Some(m) && m.is_error && m.text@
                    == "Please fill in all connection fields"@
            },
    {
        let url = trim_to_string(self.server_url.as_str());
        let api_key = self.api_key.clone();
        let cert_path = trim_to_string(self.tls_cert_path.as_str());

        if url.as_str().is_empty() || api_key.as_str().is_empty() || cert_path.as_str().is_empty() {
            self.status_message = Some(
                StatusMessage::error("Please fill in all connection fields".to_owned()),
            );
            return None;
        }

        Some(ConnectRequest { server_url: url, api_key, tls_cert_path: cert_path })
    }

    /// Record the result of the caller's connection attempt.  On success the
    /// client is held, the status says so, and the three initial fetches are
    /// decided through their usual single-flight triggers; on failure the error is
    /// surfaced and nothing is fetched.
    pub fn complete_connect(&mut self, result: Result<(), String>) -> (r: InitialFetches)
        requires
            old(self).wf(),
        ensures
            final(self).wf(),
            final(self).tasks == old(self).tasks,
            final(self).forms == old(self).forms,
            same_nav(*final(self), *old(self)),
            same_caches(*final(self), *old(self)),
            same_results(*final(self), *old(self)),
            same_dialogs(*final(self), *old(self)),
            final(self).server_url == old(self).server_url,
            final(self).api_key == old(self).api_key,
            final(self).tls_cert_path == old(self).tls_cert_path,
            final(self).config_file_path == old(self).config_file_path,
            final(self).network == old(self).network,
            final(self).chain_source == old(self).chain_source,
            result is Ok ==> {
                &&& final(self).has_client
                &&& final(self).connection_status == ConnectionStatus::Connected
                &&& final(self).status_message matches Some(m) && !m.is_error && m.text@
                    == "Connected"@
                &&& r.node_info == !old(self).tasks.occupied(OpKey::NodeInfo)
                &&& r.balances == !old(self).tasks.occupied(OpKey::Balances)
                &&& r.channels == !old(self).tasks.occupied(OpKey::Channels)
            },
            result matches Err(e) ==> {
                &&& final(self).has_client == old(self).has_client
                &&& final(self).connection_status == ConnectionStatus::Error(e)
                &&& final(self).status_message matches Some(m) && m.is_error && m.text == e
                &&& !r.node_info && !r.balances && !r.channels
            },
    {
        match result {
            Ok(_) => {
                self.has_client = true;
                self.connection_status = ConnectionStatus::Connected;
                self.status_message = Some(StatusMessage::success("Connected".to_owned()));
                let node_info = self.fetch_node_info();
                let balances = self.fetch_balances();
                let channels = self.fetch_channels();
                InitialFetches { node_info, balances, channels }
            },
            Err(e) => {
                self.connection_status = ConnectionStatus::Error(e.clone());
                self.status_message = Some(StatusMessage::error(e));
                InitialFetches { node_info: false, balances: false, channels: false }
            },
        }
    }

    /// Drop the client and the cached responses; outstanding slots are kept, and
    /// their late outcomes are drained as usual.
    pub fn disconnect(&mut self)
        ensures
            !final(self).has_client,
            final(self).connection_status == ConnectionStatus::Disconnected,
            final(self).node_info is None,
            final(self).balances is None,
            final(self).channels is None,
            final(self).payments is None,
            final(self).status_message matches Some(m) && !m.is_error && m.text@
                == "Disconnected"@,
            final(self).payments_page_token == old(self).payments_page_token,
            final(self).tasks == old(self).tasks,
            final(self).forms == old(self).forms,
            same_nav(*final(self), *old(self)),
            same_results(*final(self), *old(self)),
            same_dialogs(*final(self), *old(self)),
            final(self).server_url == old(self).server_url,
            final(self).api_key == old(self).api_key,
            final(self).tls_cert_path == old(self).tls_cert_path,
            final(self).config_file_path == old(self).config_file_path,
            final(self).network == old(self).network,
            final(self).chain_source == old(self).chain_source,
    {
        self.has_client = false;
        self.connection_status = ConnectionStatus::Disconnected;
        self.node_info = None;
        self.balances = None;
        self.channels = None;
        self.payments = None;
        self.status_message = Some(StatusMessage::success("Disconnected".to_owned()));
    }

    /// Take over the settings of a loaded configuration: connection fields, the
    /// network, the chain source and its editable form.  With a path, remember
    /// where the file lives and report it; without one, report the well-known file
    /// name that was searched for.
    pub fn apply_loaded_config(&mut self, cfg: GuiConfig, path: Option<String>)
        ensures
            final(self).server_url == cfg.server_url,
            final(self).api_key == cfg.api_key,
            final(self).tls_cert_path == cfg.tls_cert_path,
            final(self).network == cfg.network,
            final(self).chain_source == cfg.chain_source,
            final(self).forms.chain_source.reflects(cfg.chain_source),
            final(self).forms == (Forms {
                chain_source: final(self).forms.chain_source,
                ..old(self).forms
            }),
            path matches Some(p) ==> {
                &&& final(self).config_file_path == Some(p)
                &&& final(self).status_message matches Some(m) && !m.is_error && m.text@
                    == "Config loaded from "@ + p@
            },
            path is None ==> {
                &&& final(self).config_file_path == old(self).config_file_path
                &&& final(self).status_message matches Some(m) && !m.is_error && m.text@
                    == "Config loaded from ldk-server-config.toml"@
            },
            final(self).connection_status == old(self).connection_status,
            final(self).has_client == old(self).has_client,
            same_nav(*final(self), *old(self)),
            same_caches(*final(self), *old(self)),
            same_results(*final(self), *old(self)),
            same_dialogs(*final(self), *old(self)),
            final(self).tasks == old(self).tasks,
    {
        self.server_url = cfg.server_url;
        self.api_key = cfg.api_key;
        self.tls_cert_path = cfg.tls_cert_path;
        self.network = cfg.network;
        self.forms.chain_source = ChainSourceForm::from_config(&cfg.chain_source);
        self.chain_source = cfg.chain_source;
        match path {
            Some(p) => {
                self.status_message = Some(
                    StatusMessage::success(message("Config loaded from ", p.as_str())),
                );
                self.config_file_path = Some(p);
            },
            None => {
                self.status_message = Some(
                    StatusMessage::success("Config loaded from ldk-server-config.toml".to_owned()),
                );
            },
        }
    }
}

/// The channel settings three form fields stand for, when any of them parses.
pub open spec fn channel_config_spec(p: Seq<char>, b: Seq<char>, c: Seq<char>) -> Option<
    ChannelConfig,
> {
    if parse_u32_spec(p) is Some || parse_u32_spec(b) is Some || parse_u32_spec(c) is Some {
        Some(ChannelConfig {
            forwarding_fee_proportional_millionths: parse_u32_spec(p),
            forwarding_fee_base_msat: parse_u32_spec(b),
            cltv_expiry_delta: parse_u32_spec(c),
        })
    } else {
        None
    }
}

} // verus!
