//! The dispatcher and the single-flight registry, driven through real channels:
//! triggers, installs, the per-tick drain, and the status surface.

use std::sync::mpsc::channel;

use ldk_server_gui::api::{
    GetBalancesResponse, ListChannelsResponse, ListPaymentsResponse, OnchainSendResponse,
    OpenChannelResponse, PageToken,
};
use ldk_server_gui::state::AppState;
use ldk_server_gui::task::ChannelTaskHandle;

fn connected_state() -> AppState {
    let mut st = AppState::default();
    st.has_client = true;
    st
}

fn balances_response() -> GetBalancesResponse {
    GetBalancesResponse {
        total_onchain_balance_sats: 5000,
        spendable_onchain_balance_sats: 4000,
        total_anchor_channels_reserve_sats: 0,
        total_lightning_balance_sats: 1000,
        pending_balances_from_channel_closures: vec![],
    }
}

#[test]
fn single_flight_two_triggers_one_spawn() {
    let mut st = connected_state();
    let mut spawned = 0;

    // First trigger fires; the call is launched and its handle installed.
    assert!(st.fetch_balances());
    let (tx, rx) = channel();
    spawned += 1;
    st.install_balances(ChannelTaskHandle::from_receiver(rx));

    // Second trigger before any drain is silently dropped: no second call.
    assert!(!st.fetch_balances());

    // The outcome arrives and a drain clears the slot.
    tx.send(Ok(balances_response())).unwrap();
    let tick = st.poll_tasks();
    assert!(!tick.pending);
    assert_eq!(st.balances.as_ref().unwrap().total_onchain_balance_sats, 5000);

    // Two triggers separated by a completed drain: a second call is launched.
    assert!(st.fetch_balances());
    let (_tx2, rx2) = channel();
    spawned += 1;
    st.install_balances(ChannelTaskHandle::from_receiver(rx2));

    assert_eq!(spawned, 2);
}

#[test]
fn exactly_once_delivery() {
    let (tx, rx) = channel::<Result<GetBalancesResponse, String>>();
    let mut handle = ChannelTaskHandle::from_receiver(rx);

    // While the work is outstanding, polling yields nothing, any number of times.
    assert!(handle.try_take().is_none());
    assert!(handle.try_take().is_none());

    // Once the outcome is published, polling yields it exactly once.
    tx.send(Ok(balances_response())).unwrap();
    let outcome = handle.try_take();
    assert!(outcome.is_some());
    assert!(outcome.unwrap().is_ok());
}

#[test]
fn slot_reuse_after_drain() {
    let mut st = connected_state();

    assert!(st.fetch_balances());
    let (tx, rx) = channel();
    st.install_balances(ChannelTaskHandle::from_receiver(rx));
    assert!(!st.fetch_balances());

    tx.send(Ok(balances_response())).unwrap();
    st.poll_tasks();

    // The guard is not permanently latched: the slot is free again.
    assert!(st.fetch_balances());
}

#[test]
fn error_isolation_between_keys() {
    let mut st = connected_state();

    // Two operations outstanding on different keys.
    assert!(st.fetch_balances());
    let (tx_bal, rx_bal) = channel();
    st.install_balances(ChannelTaskHandle::from_receiver(rx_bal));

    assert!(st.fetch_channels());
    let (tx_chan, rx_chan) = channel::<Result<ListChannelsResponse, String>>();
    st.install_channels(ChannelTaskHandle::from_receiver(rx_chan));

    // The balances call fails; the channels call is still outstanding.
    tx_bal.send(Err("boom".to_string())).unwrap();
    let tick = st.poll_tasks();
    assert!(tick.pending);
    let msg = st.status_message.as_ref().unwrap();
    assert!(msg.is_error);
    assert_eq!(msg.text, "boom");
    assert!(st.balances.is_none());
    // The channels slot was neither cleared nor corrupted: its trigger declines.
    assert!(!st.fetch_channels());

    // The channels call then completes normally.
    tx_chan.send(Ok(ListChannelsResponse { channels: vec![] })).unwrap();
    let tick = st.poll_tasks();
    assert!(!tick.pending);
    assert!(st.channels.is_some());
}

#[test]
fn pending_signal_tracks_occupancy() {
    let mut st = connected_state();

    // Nothing outstanding: no more polling needed.
    assert!(!st.poll_tasks().pending);
    assert!(!st.tasks.any_pending());

    assert!(st.fetch_balances());
    let (tx, rx) = channel();
    st.install_balances(ChannelTaskHandle::from_receiver(rx));
    assert!(st.tasks.any_pending());

    // Work outstanding and not finished: schedule another poll soon.
    assert!(st.poll_tasks().pending);

    tx.send(Ok(balances_response())).unwrap();
    assert!(!st.poll_tasks().pending);
    assert!(!st.tasks.any_pending());
}

#[test]
fn open_channel_success_clears_and_refetches() {
    let mut st = connected_state();
    st.forms.open_channel.node_pubkey = "02abc".to_string();
    st.forms.open_channel.address = "1.2.3.4:9735".to_string();
    st.forms.open_channel.channel_amount_sats = "100000".to_string();
    st.show_open_channel_dialog = true;

    let req = st.open_channel().unwrap();
    assert_eq!(req.node_pubkey, "02abc");
    assert_eq!(req.address, "1.2.3.4:9735");
    assert_eq!(req.channel_amount_sats, 100000);
    assert!(req.channel_config.is_none());

    let (tx, rx) = channel::<Result<OpenChannelResponse, String>>();
    st.install_open_channel(ChannelTaskHandle::from_receiver(rx));
    tx.send(Ok(OpenChannelResponse { user_channel_id: "chan-1".to_string() })).unwrap();

    let tick = st.poll_tasks();
    // The slot cleared, the success handler ran, and a dependent re-fetch of the
    // channel list was issued.
    assert!(tick.spawn_channels_fetch);
    assert_eq!(st.last_channel_id.as_deref(), Some("chan-1"));
    let msg = st.status_message.as_ref().unwrap();
    assert!(!msg.is_error);
    assert_eq!(msg.text, "Channel opened! ID: chan-1");
    assert!(st.forms.open_channel.node_pubkey.is_empty());
    assert!(!st.show_open_channel_dialog);

    // The handler fired exactly once: another drain pass does nothing further.
    st.status_message = None;
    let tick = st.poll_tasks();
    assert!(!tick.spawn_channels_fetch);
    assert!(st.status_message.is_none());
    assert_eq!(st.last_channel_id.as_deref(), Some("chan-1"));
}

#[test]
fn onchain_send_failure_reports_exact_message() {
    let mut st = connected_state();
    st.forms.onchain_send.address = "bc1qexample".to_string();

    let req = st.send_onchain().unwrap();
    assert_eq!(req.address, "bc1qexample");

    let (tx, rx) = channel::<Result<OnchainSendResponse, String>>();
    st.install_onchain_send(ChannelTaskHandle::from_receiver(rx));
    tx.send(Err("insufficient funds".to_string())).unwrap();

    let tick = st.poll_tasks();
    assert!(!tick.pending);
    // The slot cleared, no success handler ran, and the status surface holds
    // exactly the failure text.
    let msg = st.status_message.as_ref().unwrap();
    assert!(msg.is_error);
    assert_eq!(msg.text, "insufficient funds");
    assert!(st.last_txid.is_none());
    // A failure does not clear the form.
    assert_eq!(st.forms.onchain_send.address, "bc1qexample");
    // The slot is free again.
    assert!(st.send_onchain().is_some());
}

#[test]
fn onchain_send_success_message_and_form_reset() {
    let mut st = connected_state();
    st.forms.onchain_send.address = "bc1qexample".to_string();
    st.forms.onchain_send.amount_sats = "1234".to_string();

    let req = st.send_onchain().unwrap();
    assert_eq!(req.amount_sats, Some(1234));
    assert_eq!(req.send_all, None);

    let (tx, rx) = channel::<Result<OnchainSendResponse, String>>();
    st.install_onchain_send(ChannelTaskHandle::from_receiver(rx));
    tx.send(Ok(OnchainSendResponse { txid: "deadbeef".to_string() })).unwrap();
    st.poll_tasks();

    assert_eq!(st.last_txid.as_deref(), Some("deadbeef"));
    let msg = st.status_message.as_ref().unwrap();
    assert!(!msg.is_error);
    assert_eq!(msg.text, "Sent! TXID: deadbeef");
    assert!(st.forms.onchain_send.address.is_empty());
    assert!(st.forms.onchain_send.amount_sats.is_empty());
}

#[test]
fn trigger_without_client_is_silent() {
    let mut st = AppState::default();
    st.forms.onchain_send.address = "bc1qexample".to_string();
    assert!(!st.fetch_balances());
    assert!(st.send_onchain().is_none());
    assert!(st.status_message.is_none());
}

#[test]
fn send_onchain_requires_address() {
    let mut st = connected_state();
    assert!(st.send_onchain().is_none());
    let msg = st.status_message.as_ref().unwrap();
    assert!(msg.is_error);
    assert_eq!(msg.text, "Address is required");
}

#[test]
fn open_channel_rejects_bad_amount() {
    let mut st = connected_state();
    st.forms.open_channel.node_pubkey = "02abc".to_string();
    st.forms.open_channel.address = "1.2.3.4:9735".to_string();
    st.forms.open_channel.channel_amount_sats = "lots".to_string();
    assert!(st.open_channel().is_none());
    let msg = st.status_message.as_ref().unwrap();
    assert!(msg.is_error);
    assert_eq!(msg.text, "Invalid channel amount");
}

#[test]
fn open_channel_requires_pubkey_and_address() {
    let mut st = connected_state();
    st.forms.open_channel.channel_amount_sats = "1000".to_string();
    assert!(st.open_channel().is_none());
    let msg = st.status_message.as_ref().unwrap();
    assert!(msg.is_error);
    assert_eq!(msg.text, "Node pubkey and address are required");
}

#[test]
fn trigger_trims_form_input() {
    let mut st = connected_state();
    st.forms.onchain_send.address = "  bc1qpadded  ".to_string();
    let req = st.send_onchain().unwrap();
    assert_eq!(req.address, "bc1qpadded");
}

#[test]
fn close_channel_requires_identifiers() {
    let mut st = connected_state();
    st.forms.close_channel.user_channel_id = "uc-1".to_string();
    assert!(st.close_channel().is_none());
    let msg = st.status_message.as_ref().unwrap();
    assert!(msg.is_error);
    assert_eq!(msg.text, "Channel ID and counterparty node ID are required");

    st.forms.close_channel.counterparty_node_id = "02def".to_string();
    let req = st.close_channel().unwrap();
    assert_eq!(req.user_channel_id, "uc-1");
    assert_eq!(req.counterparty_node_id, "02def");
}

#[test]
fn bolt11_invoice_defaults() {
    let mut st = connected_state();
    st.forms.bolt11_receive.amount_msat = "2500".to_string();
    let req = st.generate_bolt11_invoice().unwrap();
    assert_eq!(req.amount_msat, Some(2500));
    assert_eq!(req.description, None);
    // A blank expiry falls back to one day.
    assert_eq!(req.expiry_secs, 86400);

    // A second trigger while the first was not installed still fires: nothing was
    // installed, so the slot stayed free.
    st.forms.bolt11_receive.description = "coffee".to_string();
    st.forms.bolt11_receive.expiry_secs = "600".to_string();
    let req = st.generate_bolt11_invoice().unwrap();
    assert_eq!(req.description.as_deref(), Some("coffee"));
    assert_eq!(req.expiry_secs, 600);
}

#[test]
fn send_bolt11_requires_invoice() {
    let mut st = connected_state();
    assert!(st.send_bolt11().is_none());
    assert_eq!(st.status_message.as_ref().unwrap().text, "Invoice is required");
}

#[test]
fn bolt12_offer_requires_description() {
    let mut st = connected_state();
    assert!(st.generate_bolt12_offer().is_none());
    assert_eq!(st.status_message.as_ref().unwrap().text, "Description is required");
}

#[test]
fn send_bolt12_requires_offer() {
    let mut st = connected_state();
    assert!(st.send_bolt12().is_none());
    assert_eq!(st.status_message.as_ref().unwrap().text, "Offer is required");
}

#[test]
fn splice_in_checks_amount_first() {
    let mut st = connected_state();
    st.forms.splice_in.splice_amount_sats = "nope".to_string();
    assert!(st.splice_in().is_none());
    assert_eq!(st.status_message.as_ref().unwrap().text, "Invalid splice amount");

    st.forms.splice_in.splice_amount_sats = "5000".to_string();
    assert!(st.splice_in().is_none());
    assert_eq!(
        st.status_message.as_ref().unwrap().text,
        "Channel ID and counterparty node ID are required"
    );

    st.forms.splice_in.user_channel_id = "uc-1".to_string();
    st.forms.splice_in.counterparty_node_id = "02def".to_string();
    let req = st.splice_in().unwrap();
    assert_eq!(req.splice_amount_sats, 5000);
}

#[test]
fn connect_peer_builds_request() {
    let mut st = connected_state();
    st.forms.connect_peer.node_pubkey = "02aaa".to_string();
    st.forms.connect_peer.address = "9.9.9.9:9735".to_string();
    st.forms.connect_peer.persist = true;
    let req = st.connect_peer().unwrap();
    assert_eq!(req.node_pubkey, "02aaa");
    assert_eq!(req.address, "9.9.9.9:9735");
    assert!(req.persist);
}

#[test]
fn connect_validates_fields() {
    let mut st = AppState::default();
    // Defaults: URL present, key and certificate path blank.
    assert!(st.connect().is_none());
    let msg = st.status_message.as_ref().unwrap();
    assert!(msg.is_error);
    assert_eq!(msg.text, "Please fill in all connection fields");

    st.api_key = "abcd".to_string();
    st.tls_cert_path = " /tmp/tls.crt ".to_string();
    st.server_url = " localhost:3002 ".to_string();
    let req = st.connect().unwrap();
    assert_eq!(req.server_url, "localhost:3002");
    assert_eq!(req.api_key, "abcd");
    assert_eq!(req.tls_cert_path, "/tmp/tls.crt");
}

#[test]
fn complete_connect_success_starts_fetches() {
    let mut st = AppState::default();
    let fetches = st.complete_connect(Ok(()));
    assert!(st.has_client);
    assert_eq!(st.status_message.as_ref().unwrap().text, "Connected");
    assert!(fetches.node_info && fetches.balances && fetches.channels);
}

#[test]
fn complete_connect_failure_reports_error() {
    let mut st = AppState::default();
    let fetches = st.complete_connect(Err("no route".to_string()));
    assert!(!st.has_client);
    let msg = st.status_message.as_ref().unwrap();
    assert!(msg.is_error);
    assert_eq!(msg.text, "no route");
    assert!(!fetches.node_info && !fetches.balances && !fetches.channels);
}

#[test]
fn disconnect_clears_caches() {
    let mut st = connected_state();
    st.balances = Some(balances_response());
    st.disconnect();
    assert!(!st.has_client);
    assert!(st.balances.is_none());
    assert!(st.node_info.is_none());
    assert_eq!(st.status_message.as_ref().unwrap().text, "Disconnected");
}

#[test]
fn payments_drain_remembers_page_token() {
    let mut st = connected_state();
    let req = st.fetch_payments().unwrap();
    assert!(req.page_token.is_none());

    let (tx, rx) = channel::<Result<ListPaymentsResponse, String>>();
    st.install_payments(ChannelTaskHandle::from_receiver(rx));
    tx.send(Ok(ListPaymentsResponse {
        payments: vec![],
        next_page_token: Some(PageToken { token: "t1".to_string(), index: 7 }),
    }))
    .unwrap();
    st.poll_tasks();

    let req = st.fetch_payments().unwrap();
    let token = req.page_token.unwrap();
    assert_eq!(token.token, "t1");
    assert_eq!(token.index, 7);
}

#[test]
fn later_status_overwrites_earlier() {
    let mut st = connected_state();

    assert!(st.fetch_balances());
    let (tx_bal, rx_bal) = channel();
    st.install_balances(ChannelTaskHandle::from_receiver(rx_bal));
    assert!(st.fetch_node_info());
    let (tx_ni, rx_ni) = channel::<Result<ldk_server_gui::api::GetNodeInfoResponse, String>>();
    st.install_node_info(ChannelTaskHandle::from_receiver(rx_ni));

    tx_ni.send(Err("first failure".to_string())).unwrap();
    st.poll_tasks();
    assert_eq!(st.status_message.as_ref().unwrap().text, "first failure");

    // Only the most recent message is kept; older ones are not retained.
    tx_bal.send(Err("second failure".to_string())).unwrap();
    st.poll_tasks();
    assert_eq!(st.status_message.as_ref().unwrap().text, "second failure");
}

#[test]
fn disconnect_keeps_outstanding_slots() {
    let mut st = connected_state();

    assert!(st.fetch_balances());
    let (tx, rx) = channel();
    st.install_balances(ChannelTaskHandle::from_receiver(rx));

    // Disconnecting drops the caches but not the outstanding work: its late
    // outcome is drained as usual.
    st.disconnect();
    assert!(st.tasks.any_pending());

    tx.send(Ok(balances_response())).unwrap();
    assert!(!st.poll_tasks().pending);
    assert!(st.balances.is_some());
}
