//! The payments under way: what was sent where, what failed, and when to try again.

use crate::json::{
    bare_text, get_bare_text, get_member, is_plain, json_text, law_bare_text_of_plain_string, member,
    quoted,
};
use crate::keys::payment_hash_text;
use crate::params::copy_numbers;
use crate::route::{copy_bytes, copy_path, path_view, HopView, RouteHop};
use crate::scid::{
    cl_to_int_checked, law_text_round_trip, lemma_scid_text_plain, scid_text, scid_value,
};
use crate::text::{hex_digit, hex_text, is_digit};
use vstd::hash_map::StringHashMap;
use vstd::prelude::*;
use vstd::string::*;

verus! {

/// How many times a payment is tried again.
pub const MAX_RETRIES: u8 = 8;

/// A payment that may have to be tried again.
#[derive(Debug)]
pub struct Payment {
    /// The invoice.
    pub bolt11: String,
    /// What is to arrive, in millisatoshi.
    pub total_amount: u64,
    /// The channels over which the payment has failed.
    pub failed_channels: Vec<u64>,
    /// When the payment was made, in milliseconds since the epoch.
    pub created_at: u128,
    /// How often the payment has failed.
    pub retry_count: u8,
    /// The group that joins all parts and tries of the payment.
    pub groupid: u64,
    /// The secret that the payee asks for.
    pub payment_secret: Vec<u8>,
}

/// What a `Payment` holds.
#[verifier::ext_equal]
pub struct PaymentView {
    pub bolt11: Seq<char>,
    pub total_amount: u64,
    pub failed_channels: Seq<u64>,
    pub created_at: u128,
    pub retry_count: u8,
    pub groupid: u64,
    pub payment_secret: Seq<u8>,
}

impl View for Payment {
    type V = PaymentView;

    open spec fn view(&self) -> PaymentView {
        PaymentView {
            bolt11: self.bolt11@,
            total_amount: self.total_amount,
            failed_channels: self.failed_channels@,
            created_at: self.created_at,
            retry_count: self.retry_count,
            groupid: self.groupid,
            payment_secret: self.payment_secret@,
        }
    }
}

/// What the plugin remembers of its payments.
#[verifier::ext_equal]
pub struct StateView {
    /// The payments, by invoice.
    pub payments: Map<Seq<char>, PaymentView>,
    /// The parts that were sent, by the id that the node gave to each.
    pub send_pay_routes: Map<Seq<char>, SentView>,
    /// The channels that probes are to avoid.
    pub failed_channels: Seq<u64>,
}

/// A part that was sent: its path, and when it was handed to the node, in milliseconds since the
/// epoch.
struct SentPart {
    path: Vec<RouteHop>,
    sent_at: u128,
}

/// What is remembered of a part that was sent.
#[verifier::ext_equal]
pub struct SentView {
    pub path: Seq<HopView>,
    pub sent_at: u128,
}

impl View for SentPart {
    type V = SentView;

    closed spec fn view(&self) -> SentView {
        SentView { path: path_view(self.path@), sent_at: self.sent_at }
    }
}

/// The payments that the plugin has under way.
pub struct PlugState {
    payments: StringHashMap<Payment>,
    send_pay_routes: StringHashMap<SentPart>,
    failed_channels: Vec<u64>,
}

impl View for PlugState {
    type V = StateView;

    closed spec fn view(&self) -> StateView {
        StateView {
            payments: self.payments@.map_values(|p: Payment| p@),
            send_pay_routes: self.send_pay_routes@.map_values(|p: SentPart| p@),
            failed_channels: self.failed_channels@,
        }
    }
}

/// A notification that a part of a payment has failed, as the texts of its members.
#[derive(Debug)]
pub struct FailureNotice {
    /// The id that the node gave to the part.
    pub id: String,
    /// The hash of the payment.
    pub payment_hash: String,
    /// The channel at which the part failed.
    pub erring_channel: String,
    /// The invoice.
    pub bolt11: String,
}

/// What a `FailureNotice` holds.
#[verifier::ext_equal]
pub struct NoticeView {
    pub id: Seq<char>,
    pub payment_hash: Seq<char>,
    pub erring_channel: Seq<char>,
    pub bolt11: Seq<char>,
}

impl View for FailureNotice {
    type V = NoticeView;

    open spec fn view(&self) -> NoticeView {
        NoticeView {
            id: self.id@,
            payment_hash: self.payment_hash@,
            erring_channel: self.erring_channel@,
            bolt11: self.bolt11@,
        }
    }
}

/// What a failure is about.
#[derive(Debug)]
pub enum FailureVerdict {
    /// The part was not sent by this plugin.
    NotOurs,
    /// The part was a probe, which is not tried again. Its path had so many hops, and it was sent at
    /// this time.
    Probe { route_len: usize, sent_at: u128 },
    /// The part belongs to the payment of an invoice. It went along this path, and this channel
    /// failed; no channel is given where the node named none.
    Failed { bolt11: String, path: Vec<RouteHop>, channel: Option<u64> },
}

/// What a `FailureVerdict` says.
#[verifier::ext_equal]
pub enum VerdictView {
    NotOurs,
    Probe { route_len: nat, sent_at: u128 },
    Failed { bolt11: Seq<char>, path: Seq<HopView>, channel: Option<u64> },
}

impl View for FailureVerdict {
    type V = VerdictView;

    open spec fn view(&self) -> VerdictView {
        match self {
            FailureVerdict::NotOurs => VerdictView::NotOurs,
            FailureVerdict::Probe { route_len, sent_at } => VerdictView::Probe {
                route_len: *route_len as nat,
                sent_at: *sent_at,
            },
            FailureVerdict::Failed { bolt11, path, channel } => VerdictView::Failed {
                bolt11: bolt11@,
                path: path_view(path@),
                channel: *channel,
            },
        }
    }
}

/// What is done about a failed payment.
#[derive(Debug)]
pub enum RetryDecision {
    /// It has failed too often.
    GiveUp { retries: u8 },
    /// It is tried again.
    Retry { payment: Payment },
}

/// A payment that has just been made.
pub open spec fn fresh_payment(
    bolt11: Seq<char>,
    total_amount: u64,
    created_at: u128,
    groupid: u64,
    payment_secret: Seq<u8>,
) -> PaymentView {
    PaymentView {
        bolt11,
        total_amount,
        failed_channels: Seq::empty(),
        created_at,
        retry_count: 0,
        groupid,
        payment_secret,
    }
}

/// A payment after it has failed once more.
pub open spec fn after_failure(p: PaymentView, channel: u64) -> PaymentView {
    PaymentView {
        failed_channels: p.failed_channels.push(channel),
        retry_count: (p.retry_count + 1) as u8,
        ..p
    }
}

/// A payment after it has failed at each of these channels in turn.
pub open spec fn after_failures(p: PaymentView, channels: Seq<u64>) -> PaymentView
    decreases channels.len(),
{
    if channels.len() == 0 {
        p
    } else {
        after_failure(after_failures(p, channels.drop_last()), channels.last())
    }
}

/// Whether a payment that has just failed is tried again.
pub open spec fn may_retry(p: PaymentView) -> bool {
    p.retry_count <= MAX_RETRIES
}

/// The state with a payment filed under its invoice.
pub open spec fn with_payment(s: StateView, p: PaymentView) -> StateView {
    StateView { payments: s.payments.insert(p.bolt11, p), ..s }
}

/// The state with a part that was sent along a path at some time filed under its id.
pub open spec fn with_sent(
    s: StateView,
    id: Seq<char>,
    path: Seq<HopView>,
    sent_at: u128,
) -> StateView {
    StateView { send_pay_routes: s.send_pay_routes.insert(id, SentView { path, sent_at }), ..s }
}

/// The state after the payment of an invoice has failed at a channel.
pub open spec fn with_failure(s: StateView, bolt11: Seq<char>, channel: u64) -> StateView {
    StateView {
        payments: s.payments.insert(bolt11, after_failure(s.payments[bolt11], channel)),
        ..s
    }
}

/// The state before any payment.
pub open spec fn empty_state() -> StateView {
    StateView {
        payments: Map::empty(),
        send_pay_routes: Map::empty(),
        failed_channels: Seq::empty(),
    }
}

/// What can happen to the state.
pub enum Change {
    /// A payment is about to be sent.
    Begun {
        bolt11: Seq<char>,
        total_amount: u64,
        created_at: u128,
        groupid: u64,
        payment_secret: Seq<u8>,
    },
    /// The node has accepted a part.
    Sent { id: Seq<char>, path: Seq<HopView>, sent_at: u128 },
    /// The payment of an invoice has failed at a channel.
    Failed { bolt11: Seq<char>, channel: u64 },
}

/// Whether a change can happen: only a known payment fails, and its failures can still be counted.
pub open spec fn can_happen(s: StateView, change: Change) -> bool {
    match change {
        Change::Failed { bolt11, .. } => s.payments.contains_key(bolt11)
            && s.payments[bolt11].retry_count < u8::MAX,
        _ => true,
    }
}

/// The state after a change.
pub open spec fn changed(s: StateView, change: Change) -> StateView {
    match change {
        Change::Begun { bolt11, total_amount, created_at, groupid, payment_secret } => with_payment(
            s,
            fresh_payment(bolt11, total_amount, created_at, groupid, payment_secret),
        ),
        Change::Sent { id, path, sent_at } => with_sent(s, id, path, sent_at),
        Change::Failed { bolt11, channel } => with_failure(s, bolt11, channel),
    }
}

/// The state that a run of changes leads to.
pub open spec fn state_after(changes: Seq<Change>) -> StateView
    decreases changes.len(),
{
    if changes.len() == 0 {
        empty_state()
    } else {
        changed(state_after(changes.drop_last()), changes.last())
    }
}

/// Whether a run of changes can happen.
pub open spec fn run_can_happen(changes: Seq<Change>) -> bool
    decreases changes.len(),
{
    changes.len() == 0 || (run_can_happen(changes.drop_last()) && can_happen(
        state_after(changes.drop_last()),
        changes.last(),
    ))
}

/// Whether every payment is filed under its own invoice, and has failed as often as it lists failed
/// channels.
pub open spec fn records_agree(s: StateView) -> bool {
    forall|bolt11: Seq<char>| #[trigger]
        s.payments.contains_key(bolt11) ==> s.payments[bolt11].bolt11 == bolt11
            && s.payments[bolt11].failed_channels.len() == s.payments[bolt11].retry_count
}

/// The path that a part was sent along.
pub open spec fn path_of(s: StateView, id: Seq<char>) -> Option<Seq<HopView>> {
    if s.send_pay_routes.contains_key(id) {
        Some(s.send_pay_routes[id].path)
    } else {
        None
    }
}

/// What a failure is about.
pub open spec fn verdict_of(s: StateView, notice: NoticeView, probe_hash: Seq<char>) -> VerdictView {
    match path_of(s, notice.id) {
        None => VerdictView::NotOurs,
        Some(path) => if notice.payment_hash == probe_hash {
            VerdictView::Probe {
                route_len: path.len(),
                sent_at: s.send_pay_routes[notice.id].sent_at,
            }
        } else {
            VerdictView::Failed {
                bolt11: notice.bolt11,
                path,
                channel: scid_value(notice.erring_channel),
            }
        },
    }
}

/// The text of a member of the notification that a part has failed.
pub open spec fn failure_field(text: Seq<char>, key: Seq<char>) -> Seq<char> {
    bare_text(member(member(member(Some(text), "sendpay_failure"@), "data"@), key))
}

/// The notification of a failure that a JSON text denotes.
pub open spec fn notice_in(text: Seq<char>) -> NoticeView {
    NoticeView {
        id: failure_field(text, "id"@),
        payment_hash: failure_field(text, "payment_hash"@),
        erring_channel: failure_field(text, "erring_channel"@),
        bolt11: failure_field(text, "bolt11"@),
    }
}

/// The id in the notification that a part has arrived.
pub open spec fn success_id(text: Seq<char>) -> Seq<char> {
    bare_text(member(member(Some(text), "sendpay_success"@), "id"@))
}

/// The id in the answer of the node to a part that was sent.
pub open spec fn sent_id_in(text: Seq<char>) -> Seq<char> {
    bare_text(member(member(Some(text), "result"@), "id"@))
}

/// After some failures a payment counts them all and lists the channels in the order in which
/// they failed, and nothing else about it has changed.
pub proof fn law_failures_add_up(p: PaymentView, channels: Seq<u64>)
    requires
        p.retry_count + channels.len() <= u8::MAX,
    ensures
        after_failures(p, channels) == (PaymentView {
            failed_channels: p.failed_channels + channels,
            retry_count: (p.retry_count + channels.len()) as u8,
            ..p
        }),
    decreases channels.len(),
{
    if channels.len() == 0 {
        assert(p.failed_channels + channels =~= p.failed_channels);
    } else {
        law_failures_add_up(p, channels.drop_last());
        assert((p.failed_channels + channels.drop_last()).push(channels.last())
            =~= p.failed_channels + channels);
    }
}

/// A fresh payment is tried again after each of its first eight failures, and never after that.
pub proof fn law_retries_are_bounded(
    bolt11: Seq<char>,
    total_amount: u64,
    created_at: u128,
    groupid: u64,
    payment_secret: Seq<u8>,
    channels: Seq<u64>,
)
    requires
        channels.len() <= u8::MAX,
    ensures
        may_retry(
            after_failures(
                fresh_payment(bolt11, total_amount, created_at, groupid, payment_secret),
                channels,
            ),
        ) <==> channels.len() <= 8,
{
    law_failures_add_up(
        fresh_payment(bolt11, total_amount, created_at, groupid, payment_secret),
        channels,
    );
}

/// Whatever happens, every payment is filed under its own invoice, and has failed as often as it
/// lists failed channels.
pub proof fn law_records_agree(changes: Seq<Change>)
    requires
        run_can_happen(changes),
    ensures
        records_agree(state_after(changes)),
    decreases changes.len(),
{
    if changes.len() > 0 {
        law_records_agree(changes.drop_last());
        let s = state_after(changes.drop_last());
        match changes.last() {
            Change::Failed { bolt11, channel } => {
                assert(s.payments.contains_key(bolt11));
            },
            _ => {},
        }
    }
}

/// The path of a part that was sent is found again under its id, and no other path is lost.
pub proof fn law_sent_path_is_found(
    s: StateView,
    id: Seq<char>,
    path: Seq<HopView>,
    sent_at: u128,
    other: Seq<char>,
)
    ensures
        path_of(with_sent(s, id, path, sent_at), id) == Some(path),
        other != id ==> path_of(with_sent(s, id, path, sent_at), other) == path_of(s, other),
        with_sent(s, id, path, sent_at).payments == s.payments,
{
}

/// A failure changes the payment of its invoice and nothing else.
pub proof fn law_failure_is_local(s: StateView, bolt11: Seq<char>, channel: u64, other: Seq<char>)
    requires
        s.payments.contains_key(bolt11),
        other != bolt11,
    ensures
        with_failure(s, bolt11, channel).payments.dom() == s.payments.dom(),
        with_failure(s, bolt11, channel).payments[other] == s.payments[other],
        with_failure(s, bolt11, channel).payments[bolt11] == after_failure(
            s.payments[bolt11],
            channel,
        ),
        with_failure(s, bolt11, channel).send_pay_routes == s.send_pay_routes,
{
    assert(with_failure(s, bolt11, channel).payments.dom() =~= s.payments.dom());
}

/// A failed probe is never taken for a failed payment.
pub proof fn law_probe_is_not_retried(s: StateView, notice: NoticeView)
    ensures
        !(verdict_of(s, notice, notice.payment_hash) is Failed),
{
}

/// A part that was not sent by this plugin is left alone, whatever else the notification says.
pub proof fn law_foreign_part_is_ignored(s: StateView, notice: NoticeView, probe_hash: Seq<char>)
    requires
        !s.send_pay_routes.contains_key(notice.id),
    ensures
        verdict_of(s, notice, probe_hash) is NotOurs,
{
}

/// Once the node has accepted a part, the notification of an arrival that names the id from the
/// answer of the node credits the path of that part.
pub proof fn law_arrival_credits_the_path_sent(
    s: StateView,
    answer: Seq<char>,
    path: Seq<HopView>,
    sent_at: u128,
    arrival: Seq<char>,
)
    requires
        member(member(Some(arrival), "sendpay_success"@), "id"@) == member(
            member(Some(answer), "result"@),
            "id"@,
        ),
    ensures
        path_of(with_sent(s, sent_id_in(answer), path, sent_at), success_id(arrival)) == Some(
            path,
        ),
{
}

/// Once the node has accepted a part, the notification of a failure that names the id from the
/// answer of the node is about the path of that part, and never taken for somebody else's. The time
/// that is given for a probe is that at which the part was sent.
pub proof fn law_failure_blames_the_path_sent(
    s: StateView,
    answer: Seq<char>,
    path: Seq<HopView>,
    sent_at: u128,
    failure: Seq<char>,
    probe_hash: Seq<char>,
)
    requires
        member(member(member(Some(failure), "sendpay_failure"@), "data"@), "id"@) == member(
            member(Some(answer), "result"@),
            "id"@,
        ),
    ensures
        match verdict_of(
            with_sent(s, sent_id_in(answer), path, sent_at),
            notice_in(failure),
            probe_hash,
        ) {
            VerdictView::NotOurs => false,
            VerdictView::Probe { route_len, sent_at: t } => route_len == path.len() && t
                == sent_at,
            VerdictView::Failed { path: blamed, .. } => blamed == path,
        },
{
}

/// A failure whose payment hash is the JSON string of the hash that probes carry is that of a
/// probe, and is not tried again.
pub proof fn law_probe_hash_is_recognised(s: StateView, failure: Seq<char>, hash: Seq<u8>)
    requires
        member(member(member(Some(failure), "sendpay_failure"@), "data"@), "payment_hash"@) == Some(
            quoted(hex_text(hash)),
        ),
    ensures
        notice_in(failure).payment_hash == hex_text(hash),
        !(verdict_of(s, notice_in(failure), hex_text(hash)) is Failed),
{
    let t = hex_text(hash);
    assert forall|i: int| 0 <= i < t.len() implies (#[trigger] t[i]) as int >= 0x20 && t[i] != '"'
        && t[i] != '\\' by {
        lemma_hex_digit_plain(hash[i / 2]);
    }
    law_bare_text_of_plain_string(t);
}

/// A notification of a failure is read from its members id, payment_hash, erring_channel and bolt11,
/// and that of an arrival, like the answer to a part, from its member id.
pub proof fn law_notices_are_read_from_their_members(text: Seq<char>)
    ensures
        ({
            let data = member(member(Some(text), "sendpay_failure"@), "data"@);
            &&& notice_in(text).id == bare_text(member(data, "id"@))
            &&& notice_in(text).payment_hash == bare_text(member(data, "payment_hash"@))
            &&& notice_in(text).erring_channel == bare_text(member(data, "erring_channel"@))
            &&& notice_in(text).bolt11 == bare_text(member(data, "bolt11"@))
        }),
        success_id(text) == bare_text(member(member(Some(text), "sendpay_success"@), "id"@)),
        sent_id_in(text) == bare_text(member(member(Some(text), "result"@), "id"@)),
{
}

/// A failure is somebody else's exactly where its id is not that of a part that was sent, and a
/// probe's exactly where it is and the hash is that of the probes. A probe is told with the length of
/// its path and the time at which it was sent; any other failure with the path that was sent, the
/// invoice that the notification names, and the channel that it names, if it names one.
pub proof fn law_what_a_failure_is_about(s: StateView, notice: NoticeView, probe_hash: Seq<char>)
    ensures
        verdict_of(s, notice, probe_hash) is NotOurs <==> !s.send_pay_routes.dom().contains(
            notice.id,
        ),
        verdict_of(s, notice, probe_hash) is Probe <==> s.send_pay_routes.dom().contains(notice.id)
            && notice.payment_hash == probe_hash,
        verdict_of(s, notice, probe_hash) matches VerdictView::Probe { route_len, sent_at } ==> {
            &&& route_len == s.send_pay_routes[notice.id].path.len()
            &&& sent_at == s.send_pay_routes[notice.id].sent_at
        },
        verdict_of(s, notice, probe_hash) matches VerdictView::Failed { bolt11, path, channel } ==> {
            &&& bolt11 == notice.bolt11
            &&& path == s.send_pay_routes[notice.id].path
            &&& channel is None <==> scid_value(notice.erring_channel) is None
            &&& forall|c: u64| #[trigger] scid_text(c) == notice.erring_channel ==> channel == Some(c)
            &&& channel == scid_value(notice.erring_channel)
        },
{
    assert forall|c: u64| #[trigger] scid_text(c) == notice.erring_channel implies scid_value(
        notice.erring_channel,
    ) == Some(c) by {
        law_text_round_trip(c);
    }
}

/// Where the failed part is one that was sent and no probe, the channel that is blamed is the one
/// that the node names, whatever the path, and the payment is that of the invoice that the node
/// names.
pub proof fn law_channel_named_by_the_node_is_blamed(
    s: StateView,
    failure: Seq<char>,
    probe_hash: Seq<char>,
    channel: u64,
    bolt11: Seq<char>,
)
    requires
        s.send_pay_routes.contains_key(
            bare_text(
                member(member(member(Some(failure), "sendpay_failure"@), "data"@), "id"@),
            ),
        ),
        bare_text(
            member(member(member(Some(failure), "sendpay_failure"@), "data"@), "payment_hash"@),
        ) != probe_hash,
        member(member(member(Some(failure), "sendpay_failure"@), "data"@), "erring_channel"@)
            == Some(quoted(scid_text(channel))),
        member(member(member(Some(failure), "sendpay_failure"@), "data"@), "bolt11"@) == Some(
            quoted(bolt11),
        ),
        is_plain(bolt11),
    ensures
        verdict_of(s, notice_in(failure), probe_hash) matches VerdictView::Failed {
            bolt11: b,
            channel: c,
            ..
        } && c == Some(channel) && b == bolt11,
{
    let t = scid_text(channel);
    lemma_scid_text_plain(channel);
    assert forall|i: int| 0 <= i < t.len() implies (#[trigger] t[i]) as int >= 0x20 && t[i] != '"'
        && t[i] != '\\' by {
        assert(is_digit(t[i]) || t[i] == 'x');
    }
    law_bare_text_of_plain_string(t);
    law_bare_text_of_plain_string(bolt11);
    law_text_round_trip(channel);
}

/// A fresh payment has not failed yet and holds just what it is made of; one more failure counts one
/// more, adds its channel at the end, and changes nothing else.
pub proof fn law_payment_holds_what_it_is_made_of(
    bolt11: Seq<char>,
    total_amount: u64,
    created_at: u128,
    groupid: u64,
    payment_secret: Seq<u8>,
    p: PaymentView,
    channel: u64,
)
    requires
        p.retry_count < 255,
    ensures
        ({
            let f = fresh_payment(bolt11, total_amount, created_at, groupid, payment_secret);
            &&& f.bolt11 == bolt11 && f.total_amount == total_amount && f.created_at == created_at
            &&& f.groupid == groupid && f.payment_secret == payment_secret
            &&& f.retry_count == 0 && f.failed_channels.len() == 0
        }),
        ({
            let a = after_failure(p, channel);
            &&& a.bolt11 == p.bolt11 && a.total_amount == p.total_amount
            &&& a.created_at == p.created_at && a.groupid == p.groupid
            &&& a.payment_secret == p.payment_secret
            &&& a.retry_count == p.retry_count + 1
            &&& a.failed_channels.len() == p.failed_channels.len() + 1
            &&& a.failed_channels[p.failed_channels.len() as int] == channel
            &&& a.failed_channels.take(p.failed_channels.len() as int) == p.failed_channels
        }),
        may_retry(p) <==> p.retry_count <= 8,
{
    let a = after_failure(p, channel);
    assert(a.failed_channels.take(p.failed_channels.len() as int) =~= p.failed_channels);
}

/// A payment that is filed is found under its invoice, in place of one that was there before, and
/// nothing else changes. A part that is filed keeps its path and its time, and changes no payment and
/// none of the channels that probes avoid; nor does a failure change the latter.
pub proof fn law_filing_changes_one_entry(
    s: StateView,
    p: PaymentView,
    id: Seq<char>,
    path: Seq<HopView>,
    sent_at: u128,
    channel: u64,
    other: Seq<char>,
)
    ensures
        with_payment(s, p).payments.contains_key(p.bolt11),
        with_payment(s, p).payments[p.bolt11] == p,
        other != p.bolt11 ==> with_payment(s, p).payments.contains_key(other)
            == s.payments.contains_key(other) && (s.payments.contains_key(other) ==> with_payment(
            s,
            p,
        ).payments[other] == s.payments[other]),
        with_payment(s, p).send_pay_routes == s.send_pay_routes,
        with_payment(s, p).failed_channels == s.failed_channels,
        with_sent(s, id, path, sent_at).send_pay_routes.contains_key(id),
        with_sent(s, id, path, sent_at).send_pay_routes[id].path == path,
        with_sent(s, id, path, sent_at).send_pay_routes[id].sent_at == sent_at,
        other != id ==> with_sent(s, id, path, sent_at).send_pay_routes.contains_key(other)
            == s.send_pay_routes.contains_key(other) && (s.send_pay_routes.contains_key(other)
            ==> with_sent(s, id, path, sent_at).send_pay_routes[other] == s.send_pay_routes[other]),
        with_sent(s, id, path, sent_at).payments == s.payments,
        with_sent(s, id, path, sent_at).failed_channels == s.failed_channels,
        with_failure(s, id, channel).failed_channels == s.failed_channels,
        with_failure(s, id, channel).send_pay_routes == s.send_pay_routes,
        path_of(s, id) is Some <==> s.send_pay_routes.contains_key(id),
        path_of(s, id) is Some ==> path_of(s, id)->0 == s.send_pay_routes[id].path,
        empty_state().payments.dom().len() == 0,
        empty_state().send_pay_routes.dom().len() == 0,
        empty_state().failed_channels.len() == 0,
{
}

/// What is held of a payment, a notification or a verdict is each of its fields, as they are.
pub proof fn law_views_show_payments_as_they_are(
    p: Payment,
    n: FailureNotice,
    route_len: usize,
    sent_at: u128,
    bolt11: String,
    path: Vec<RouteHop>,
    channel: Option<u64>,
)
    ensures
        p@.bolt11 == p.bolt11@ && p@.total_amount == p.total_amount,
        p@.failed_channels == p.failed_channels@ && p@.created_at == p.created_at,
        p@.retry_count == p.retry_count && p@.groupid == p.groupid,
        p@.payment_secret == p.payment_secret@,
        n@.id == n.id@ && n@.payment_hash == n.payment_hash@,
        n@.erring_channel == n.erring_channel@ && n@.bolt11 == n.bolt11@,
        FailureVerdict::NotOurs@ == VerdictView::NotOurs,
        (FailureVerdict::Probe { route_len, sent_at })@ == (VerdictView::Probe {
            route_len: route_len as nat,
            sent_at,
        }),
        (FailureVerdict::Failed { bolt11, path, channel })@ == (VerdictView::Failed {
            bolt11: bolt11@,
            path: path_view(path@),
            channel,
        }),
{
}

proof fn lemma_hex_digit_plain(b: u8)
    ensures
        hex_digit(b as int / 16) as int >= '0' as int,
        hex_digit(b as int % 16) as int >= '0' as int,
        hex_digit(b as int / 16) as int <= 'f' as int && hex_digit(b as int / 16) != '\\',
        hex_digit(b as int % 16) as int <= 'f' as int && hex_digit(b as int % 16) != '\\',
{
}

fn copy_payment(p: &Payment) -> (r: Payment)
    ensures
        r@ == p@,
{
    Payment {
        bolt11: p.bolt11.clone(),
        total_amount: p.total_amount,
        failed_channels: copy_numbers(&p.failed_channels),
        created_at: p.created_at,
        retry_count: p.retry_count,
        groupid: p.groupid,
        payment_secret: copy_bytes(&p.payment_secret),
    }
}

fn failure_field_text(v: &serde_json::Value, key: &str) -> (r: String)
    ensures
        r@ == failure_field(json_text(*v), key@),
{
    let failure = get_member(Some(v), "sendpay_failure");
    let data = get_member(failure, "data");
    get_bare_text(get_member(data, key))
}

/// Reads the notification that a part has failed.
pub fn failure_notice(v: &serde_json::Value) -> (r: FailureNotice)
    ensures
        r@ == notice_in(json_text(*v)),
{
    FailureNotice {
        id: failure_field_text(v, "id"),
        payment_hash: failure_field_text(v, "payment_hash"),
        erring_channel: failure_field_text(v, "erring_channel"),
        bolt11: failure_field_text(v, "bolt11"),
    }
}

/// Reads the id from the answer of the node to a part that was sent.
pub fn sent_id(v: &serde_json::Value) -> (r: String)
    ensures
        r@ == sent_id_in(json_text(*v)),
{
    let result = get_member(Some(v), "result");
    get_bare_text(get_member(result, "id"))
}

impl PlugState {
    /// No payments yet.
    pub fn new() -> (r: Self)
        ensures
            r@ == empty_state(),
    {
        let r = PlugState {
            payments: StringHashMap::new(),
            send_pay_routes: StringHashMap::new(),
            failed_channels: Vec::new(),
        };
        assert(r@.payments =~= Map::<Seq<char>, PaymentView>::empty());
        assert(r@.send_pay_routes =~= Map::<Seq<char>, SentView>::empty());
        assert(r@.failed_channels =~= Seq::<u64>::empty());
        r
    }

    /// The channels that probes are to avoid.
    pub fn failed_channels(&self) -> (r: Vec<u64>)
        ensures
            r@ == self@.failed_channels,
    {
        copy_numbers(&self.failed_channels)
    }

    /// Files a payment that is about to be sent under its invoice.
    pub fn record_payment(
        &mut self,
        bolt11: &str,
        total_amount: u64,
        created_at: u128,
        groupid: u64,
        payment_secret: &Vec<u8>,
    )
        ensures
            final(self)@ == with_payment(
                old(self)@,
                fresh_payment(bolt11@, total_amount, created_at, groupid, payment_secret@),
            ),
    {
        let payment = Payment {
            bolt11: bolt11.to_owned(),
            total_amount,
            failed_channels: Vec::new(),
            created_at,
            retry_count: 0,
            groupid,
            payment_secret: copy_bytes(payment_secret),
        };
        let ghost p = payment@;
        self.payments.insert(bolt11.to_owned(), payment);
        proof {
            assert(p =~= fresh_payment(
                bolt11@,
                total_amount,
                created_at,
                groupid,
                payment_secret@,
            ));
            assert(self@.payments =~= old(self)@.payments.insert(bolt11@, p));
            assert(self@.send_pay_routes =~= old(self)@.send_pay_routes);
        }
    }

    /// Files a part that the node has accepted, with its path and the time at which it was sent,
    /// under the id that the node gave to it.
    pub fn record_sent(&mut self, id: String, path: &Vec<RouteHop>, sent_at: u128)
        ensures
            final(self)@ == with_sent(old(self)@, id@, path_view(path@), sent_at),
    {
        let part = SentPart { path: copy_path(path), sent_at };
        let ghost p = part@;
        self.send_pay_routes.insert(id, part);
        proof {
            assert(p =~= SentView { path: path_view(path@), sent_at });
            assert(self@.send_pay_routes =~= old(self)@.send_pay_routes.insert(id@, p));
            assert(self@.payments =~= old(self)@.payments);
        }
    }

    /// Files a part under the id in the answer of the node to that part.
    pub fn record_answer(
        &mut self,
        answer: &serde_json::Value,
        path: &Vec<RouteHop>,
        sent_at: u128,
    )
        ensures
            final(self)@ == with_sent(
                old(self)@,
                sent_id_in(json_text(*answer)),
                path_view(path@),
                sent_at,
            ),
    {
        let id = sent_id(answer);
        self.record_sent(id, path, sent_at);
    }

    /// The path that a part was sent along, nothing for a part that is not known.
    pub fn sent_path(&self, id: &str) -> (r: Option<Vec<RouteHop>>)
        ensures
            match r {
                Some(path) => path_of(self@, id@) == Some(path_view(path@)),
                None => path_of(self@, id@) is None,
            },
    {
        match self.send_pay_routes.get(id) {
            Some(part) => Some(copy_path(&part.path)),
            None => None,
        }
    }

    /// The path to be credited for the notification that a part has arrived; nothing for a part
    /// that was not sent by this plugin.
    pub fn success(&self, v: &serde_json::Value) -> (r: Option<Vec<RouteHop>>)
        ensures
            match r {
                Some(path) => path_of(self@, success_id(json_text(*v))) == Some(path_view(path@)),
                None => path_of(self@, success_id(json_text(*v))) is None,
            },
    {
        let success = get_member(Some(v), "sendpay_success");
        let id = get_bare_text(get_member(success, "id"));
        self.sent_path(id.as_str())
    }

    /// What a failure is about. Parts that carry the hash of the probes are probes.
    pub fn classify_failure(&self, notice: &FailureNotice, probe_hash: &String) -> (r: FailureVerdict)
        ensures
            r@ == verdict_of(self@, notice@, probe_hash@),
            r matches FailureVerdict::Failed { bolt11, path, channel } ==> channel == scid_value(
                notice.erring_channel@,
            ) && bolt11@ == notice.bolt11@,
    {
        match self.send_pay_routes.get(notice.id.as_str()) {
            None => FailureVerdict::NotOurs,
            Some(part) => {
                if notice.payment_hash == *probe_hash {
                    FailureVerdict::Probe { route_len: part.path.len(), sent_at: part.sent_at }
                } else {
                    FailureVerdict::Failed {
                        bolt11: notice.bolt11.clone(),
                        path: copy_path(&part.path),
                        channel: cl_to_int_checked(notice.erring_channel.as_str()),
                    }
                }
            },
        }
    }

    /// What the notification that a part has failed is about.
    pub fn retry(&self, v: &serde_json::Value, random_pay_hash: &Vec<u8>) -> (r: FailureVerdict)
        requires
            random_pay_hash@.len() == 32,
        ensures
            r@ == verdict_of(self@, notice_in(json_text(*v)), hex_text(random_pay_hash@)),
    {
        let notice = failure_notice(v);
        let probe_hash = payment_hash_text(random_pay_hash);
        self.classify_failure(&notice, &probe_hash)
    }

    /// How often the payment of an invoice has failed, nothing where there is no such payment.
    pub fn retry_count(&self, bolt11: &str) -> (r: Option<u8>)
        ensures
            match r {
                Some(count) => self@.payments.contains_key(bolt11@) && count
                    == self@.payments[bolt11@].retry_count,
                None => !self@.payments.contains_key(bolt11@),
            },
    {
        match self.payments.get(bolt11) {
            Some(payment) => Some(payment.retry_count),
            None => None,
        }
    }

    /// Adds a failed channel to the payment of an invoice, and decides whether the payment is
    /// tried again.
    pub fn record_failure(&mut self, bolt11: &str, channel: u64) -> (r: RetryDecision)
        requires
            old(self)@.payments.contains_key(bolt11@),
            old(self)@.payments[bolt11@].retry_count < u8::MAX,
        ensures
            final(self)@ == with_failure(old(self)@, bolt11@, channel),
            match r {
                RetryDecision::Retry { payment } => payment@ == final(self)@.payments[bolt11@]
                    && may_retry(payment@) && payment.retry_count <= 8 && payment.retry_count
                    == old(self)@.payments[bolt11@].retry_count + 1 && payment.failed_channels@
                    == old(self)@.payments[bolt11@].failed_channels.push(channel),
                RetryDecision::GiveUp { retries } => retries
                    == final(self)@.payments[bolt11@].retry_count && !may_retry(
                    final(self)@.payments[bolt11@],
                ) && retries > 8 && retries == old(self)@.payments[bolt11@].retry_count + 1,
            },
    {
        let mut failed = copy_payment(self.payments.get(bolt11).unwrap());
        failed.failed_channels.push(channel);
        failed.retry_count = failed.retry_count + 1;
        let again = copy_payment(&failed);
        let ghost p = failed@;
        self.payments.insert(bolt11.to_owned(), failed);
        proof {
            assert(p =~= after_failure(old(self)@.payments[bolt11@], channel));
            assert(self@.payments =~= old(self)@.payments.insert(bolt11@, p));
            assert(self@.send_pay_routes =~= old(self)@.send_pay_routes);
        }
        if again.retry_count > MAX_RETRIES {
            RetryDecision::GiveUp { retries: again.retry_count }
        } else {
            RetryDecision::Retry { payment: again }
        }
    }
}

} // verus!
