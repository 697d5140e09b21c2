//! Sending: finding the largest amount that can be sent, and the steps of a payment.
use vstd::prelude::*;
use crate::failure::{
    Stage, failure, failure_text, law_failures_say_what_failed_and_why, sanitize_epicbox_error,
    sanitized,
};
use crate::json::{
    JsonTree, json_array, json_object, json_set, json_str, json_text, member, trees,
};
use crate::reply::{ok, success_tree};
use crate::request::{
    EpicRequest, SendAmount, SendOrder, given, order_of, order_view, sends_max,
};
use crate::text::{decimal, law_decimal_notation, opt_view, to_decimal};

verus! {

/// How long a payment may take to be delivered, in seconds.
pub const EPICBOX_SEND_TIMEOUT_SECS: u64 = 25;

/// How often the fee of the largest amount is estimated at most.
pub const MAX_FEE_ESTIMATES: u64 = 6;

/// The state of the search for the largest amount that can be sent.
pub struct Search {
    /// What can be spent.
    pub spendable: u64,
    /// The fee that is assumed.
    pub fee: u64,
    /// The amount found so far.
    pub amount: u64,
    /// How many estimates there have been.
    pub rounds: u64,
    /// Whether the last estimate was the fee assumed.
    pub settled: bool,
}

/// What the search for the largest amount asks for or comes to.
#[derive(Clone, Copy, Debug, PartialEq, Eq, Structural)]
pub enum MaxStep {
    /// The fee of this amount is to be estimated.
    Estimate(u64),
    /// This amount is to be sent.
    Send(u64),
    /// What can be spent does not cover the fee.
    Short { required: u64, available: u64 },
    /// The fee leaves nothing to be sent.
    Nothing,
}

/// What is left of an amount without the fee; nothing if the fee is more.
pub open spec fn left_of(spendable: u64, fee: u64) -> u64 {
    if spendable >= fee {
        (spendable - fee) as u64
    } else {
        0
    }
}

impl Search {
    /// The search keeps to its books: before any estimate there is no amount, and behind each
    /// the amount is what the fee assumed leaves of what can be spent.
    pub open spec fn wf(self) -> bool {
        &&& self.rounds <= MAX_FEE_ESTIMATES
        &&& self.rounds == 0 ==> self.amount == 0 && !self.settled
        &&& self.rounds > 0 ==> self.amount == left_of(self.spendable, self.fee)
        &&& self.settled ==> self.amount > 0
    }

    /// Whether there are no more estimates to be made.
    pub open spec fn is_over(self) -> bool {
        self.settled || self.rounds == MAX_FEE_ESTIMATES
    }

    /// What the search asks for or comes to.
    pub open spec fn step_of(self) -> MaxStep {
        if self.is_over() {
            if self.amount == 0 {
                MaxStep::Nothing
            } else {
                MaxStep::Send(self.amount)
            }
        } else if self.spendable <= self.fee {
            MaxStep::Short { required: self.fee, available: self.spendable }
        } else {
            MaxStep::Estimate((self.spendable - self.fee) as u64)
        }
    }

    /// The search behind an estimate.
    pub open spec fn behind(self, estimate: u64) -> Search {
        if estimate == self.fee {
            Search {
                amount: left_of(self.spendable, self.fee),
                rounds: (self.rounds + 1) as u64,
                settled: true,
                ..self
            }
        } else {
            Search {
                fee: estimate,
                amount: left_of(self.spendable, estimate),
                rounds: (self.rounds + 1) as u64,
                ..self
            }
        }
    }
}

/// The search at its start, with the fee that is assumed first.
pub open spec fn search_start(spendable: u64, fee: u64) -> Search {
    Search { spendable, fee, amount: 0, rounds: 0, settled: false }
}

/// The search for the largest amount that can be sent: a fee is assumed, the wallet estimates
/// the fee of what is left without it, and that is the fee assumed next, until both agree or
/// there have been enough estimates.
pub struct MaxSend {
    spendable: u64,
    fee: u64,
    amount: u64,
    rounds: u64,
    settled: bool,
}

impl View for MaxSend {
    type V = Search;

    closed spec fn view(&self) -> Search {
        Search {
            spendable: self.spendable,
            fee: self.fee,
            amount: self.amount,
            rounds: self.rounds,
            settled: self.settled,
        }
    }
}

impl MaxSend {
    #[verifier::type_invariant]
    spec fn keeps_to_its_books(self) -> bool {
        self@.wf()
    }

    /// The search at its start, with the fee that is assumed first.
    pub fn start(spendable: u64, fee: u64) -> (r: MaxSend)
        ensures
            r@ == search_start(spendable, fee),
    {
        MaxSend { spendable, fee, amount: 0, rounds: 0, settled: false }
    }

    /// What the search asks for or comes to.
    pub fn step(&self) -> (r: MaxStep)
        ensures
            r == self@.step_of(),
    {
        if self.settled || self.rounds == MAX_FEE_ESTIMATES {
            if self.amount == 0 {
                MaxStep::Nothing
            } else {
                MaxStep::Send(self.amount)
            }
        } else if self.spendable <= self.fee {
            MaxStep::Short { required: self.fee, available: self.spendable }
        } else {
            MaxStep::Estimate(self.spendable - self.fee)
        }
    }

    /// The search behind the estimate that it asked for.
    pub fn take_estimate(self, estimate: u64) -> (r: MaxSend)
        requires
            self@.step_of() is Estimate,
        ensures
            r@ == self@.behind(estimate),
    {
        proof {
            use_type_invariant(&self);
        }
        let rounds: u64 = self.rounds + 1;
        if estimate == self.fee {
            let amount: u64 = self.spendable - self.fee;
            MaxSend { amount, rounds, settled: true, ..self }
        } else {
            let amount: u64 = self.spendable.saturating_sub(estimate);
            MaxSend { fee: estimate, amount, rounds, ..self }
        }
    }
}

/// The search behind a list of estimates, as far as it asks for them.
pub open spec fn behind_all(search: Search, estimates: Seq<u64>) -> Search
    decreases estimates.len(),
{
    if estimates.len() == 0 || !(search.step_of() is Estimate) {
        search
    } else {
        behind_all(search.behind(estimates[0]), estimates.drop_first())
    }
}

/// The search comes to an end within six estimates, whatever they are.
pub proof fn law_search_ends(search: Search, estimates: Seq<u64>)
    requires
        search.wf(),
        estimates.len() >= MAX_FEE_ESTIMATES - search.rounds,
    ensures
        !(behind_all(search, estimates).step_of() is Estimate),
        behind_all(search, estimates).wf(),
    decreases estimates.len(),
{
    if search.step_of() is Estimate {
        law_search_ends(search.behind(estimates[0]), estimates.drop_first());
    }
}

/// Every step of the search keeps to its books, and what can be spent stays what it is.
proof fn lemma_behind_all(search: Search, estimates: Seq<u64>)
    requires
        search.wf(),
    ensures
        behind_all(search, estimates).wf(),
        behind_all(search, estimates).spendable == search.spendable,
    decreases estimates.len(),
{
    if estimates.len() > 0 && search.step_of() is Estimate {
        lemma_behind_all(search.behind(estimates[0]), estimates.drop_first());
    }
}

/// The largest amount and its fee are together what can be spent, to the last unit, whatever the
/// estimates were; and there is something to be sent.
pub proof fn law_max_send_spends_everything(spendable: u64, fee: u64, estimates: Seq<u64>)
    ensures
        ({
            let end = behind_all(search_start(spendable, fee), estimates);
            end.step_of() matches MaxStep::Send(amount) ==> 0 < amount && amount + end.fee
                == spendable
        }),
{
    lemma_behind_all(search_start(spendable, fee), estimates);
}

/// An estimate that agrees with the fee assumed ends the search, with what that fee leaves.
pub proof fn law_agreeing_estimate_settles(search: Search)
    requires
        search.wf(),
        search.step_of() is Estimate,
    ensures
        search.behind(search.fee).step_of() == MaxStep::Send(
            (search.spendable - search.fee) as u64,
        ),
{
}

/// The error text where what can be spent does not cover the fee, with both as they are written.
pub open spec fn refusal_text(required: Seq<char>, available: Seq<char>) -> Seq<char> {
    "Epic transaction create: Not enough funds. Required: "@ + required + ", Available: "@
        + available
}

/// The error text where what can be spent does not cover the fee, with both as they are written.
pub fn not_enough_funds(required: &str, available: &str) -> (r: String)
    ensures
        r@ == refusal_text(required@, available@),
{
    "Epic transaction create: Not enough funds. Required: ".to_owned().concat(required).concat(
        ", Available: ",
    ).concat(available)
}

/// The error text where the fee leaves nothing to be sent.
pub fn nothing_after_fee() -> (r: String)
    ensures
        r@ == "Epic transaction create: Not enough funds after fee"@,
{
    "Epic transaction create: Not enough funds after fee".to_owned()
}

/// The state of finding out the amount of a payment, by what is to be done next.
pub enum Funding {
    /// The amount is to be read from this text.
    Read(String),
    /// The wallet is to be asked what can be spent, and the fee to start from is to be found.
    Ask,
    /// The fee of the amount that this search asks about is to be estimated.
    Estimate(MaxSend),
    /// What can be spent does not cover the fee, and both are to be written out.
    Refuse { required: u64, available: u64 },
    /// The amount is found.
    Found(u64),
    /// A step failed, with this error text.
    Failed(String),
}

/// What a search comes to, or asks for, is what is to be done next.
pub open spec fn settles(search: Search, next: Funding) -> bool {
    match search.step_of() {
        MaxStep::Estimate(_) => next is Estimate && next->Estimate_0@ == search,
        MaxStep::Send(amount) => next == Funding::Found(amount),
        MaxStep::Short { required, available } => next == (Funding::Refuse {
            required,
            available,
        }),
        MaxStep::Nothing => next is Failed && next->Failed_0@
            == "Epic transaction create: Not enough funds after fee"@,
    }
}

/// The first thing to do for an order: its amount is read, or the wallet is asked what there is
/// to be sent.
pub open spec fn funds(order: SendOrder, next: Funding) -> bool {
    match order.amount {
        SendAmount::Text(text) => next is Read && next->Read_0@ == text@,
        SendAmount::Max => next == Funding::Ask,
    }
}

/// What follows from what the wallet read as the amount.
pub open spec fn reads(parsed: Result<u64, String>, next: Funding) -> bool {
    match parsed {
        Ok(amount) => next == Funding::Found(amount),
        Err(detail) => next is Failed && next->Failed_0@ == failure_text(Stage::Amount, detail@),
    }
}

/// What follows from what can be spent and the fee to start from.
pub open spec fn begins(
    spendable: Result<u64, String>,
    fee: Result<u64, String>,
    next: Funding,
) -> bool {
    match spendable {
        Ok(available) => match fee {
            Ok(first) => settles(search_start(available, first), next),
            Err(message) => next is Failed && next->Failed_0@ == message@,
        },
        Err(detail) => next is Failed && next->Failed_0@ == failure_text(
            Stage::BalanceRefresh,
            detail@,
        ),
    }
}

/// What follows from the estimate that a search asked for.
pub open spec fn goes_on(search: Search, estimate: Result<u64, String>, next: Funding) -> bool {
    match estimate {
        Ok(fee) => settles(search.behind(fee), next),
        Err(detail) => next is Failed && next->Failed_0@ == failure_text(
            Stage::MaxFeeEstimate,
            detail@,
        ),
    }
}

impl Funding {
    /// A search that is under way asks for an estimate.
    pub open spec fn wf(self) -> bool {
        self matches Funding::Estimate(search) ==> search@.step_of() is Estimate
    }

    /// The first thing to do for an order.
    pub fn start(order: &SendOrder) -> (r: Funding)
        ensures
            r.wf(),
            funds(*order, r),
    {
        match &order.amount {
            SendAmount::Text(text) => Funding::Read(text.clone()),
            SendAmount::Max => Funding::Ask,
        }
    }

    /// What follows from what the wallet read as the amount.
    pub fn read(parsed: Result<u64, String>) -> (r: Funding)
        ensures
            r.wf(),
            reads(parsed, r),
    {
        match parsed {
            Ok(amount) => Funding::Found(amount),
            Err(detail) => Funding::Failed(failure(Stage::Amount, detail.as_str())),
        }
    }

    /// What follows from what a search comes to or asks for.
    fn settle(search: MaxSend) -> (r: Funding)
        ensures
            r.wf(),
            settles(search@, r),
    {
        match search.step() {
            MaxStep::Estimate(_) => Funding::Estimate(search),
            MaxStep::Send(amount) => Funding::Found(amount),
            MaxStep::Short { required, available } => Funding::Refuse { required, available },
            MaxStep::Nothing => Funding::Failed(nothing_after_fee()),
        }
    }

    /// What follows from what can be spent and the fee to start from. The error text of the fee
    /// is ready as it is, and comes second.
    pub fn asked(spendable: Result<u64, String>, fee: Result<u64, String>) -> (r: Funding)
        ensures
            r.wf(),
            begins(spendable, fee, r),
    {
        match spendable {
            Ok(available) => match fee {
                Ok(first) => Funding::settle(MaxSend::start(available, first)),
                Err(message) => Funding::Failed(message),
            },
            Err(detail) => Funding::Failed(failure(Stage::BalanceRefresh, detail.as_str())),
        }
    }

    /// What follows from the estimate that a search asked for.
    pub fn estimated(search: MaxSend, estimate: Result<u64, String>) -> (r: Funding)
        requires
            search@.step_of() is Estimate,
        ensures
            r.wf(),
            goes_on(search@, estimate, r),
    {
        match estimate {
            Ok(fee) => Funding::settle(search.take_estimate(fee)),
            Err(detail) => Funding::Failed(failure(Stage::MaxFeeEstimate, detail.as_str())),
        }
    }

    /// What follows from a refusal, with both amounts as they are written.
    pub fn refused(required: &str, available: &str) -> (r: Funding)
        ensures
            r is Failed,
            r->Failed_0@ == refusal_text(required@, available@),
    {
        Funding::Failed(not_enough_funds(required, available))
    }
}

/// The amount of an ordinary payment is the one in the request, whatever fee the request names:
/// it is read from the same text, and found or refused at once, without asking for a fee.
pub proof fn law_ordinary_payment_ignores_the_fee(
    req: EpicRequest,
    fee: Option<String>,
    order: SendOrder,
    start: Funding,
    parsed: Result<u64, String>,
    next: Funding,
)
    requires
        !sends_max(req),
        order_of(EpicRequest { fee, ..req }) == Ok::<_, Seq<char>>(order_view(order)),
        funds(order, start),
        reads(parsed, next),
    ensures
        start is Read,
        given(req.amount) == Some(start->Read_0@),
        parsed is Ok ==> next == Funding::Found(parsed->Ok_0),
        parsed is Err ==> next is Failed,
{
}

/// Sending everything asks the wallet what there is to be sent, whatever amount the request
/// names.
pub proof fn law_sending_everything_reads_no_amount(
    req: EpicRequest,
    amount: Option<String>,
    order: SendOrder,
    start: Funding,
)
    requires
        sends_max(req),
        order_of(EpicRequest { amount, ..req }) == Ok::<_, Seq<char>>(order_view(order)),
        funds(order, start),
    ensures
        start == Funding::Ask,
{
}

/// What the wallet is told to make a transaction of.
pub struct TxOrder {
    pub amount: u64,
    pub minimum_confirmations: u64,
    pub max_outputs: u32,
    pub num_change_outputs: u32,
    pub selection_strategy_is_use_all: bool,
    pub message: Option<String>,
    /// Set if only the fee is to be estimated.
    pub estimate_only: Option<bool>,
}

/// `order` tells the wallet to make a transaction of an amount, or to estimate its fee.
pub open spec fn orders(
    order: TxOrder,
    amount: int,
    memo: Option<Seq<char>>,
    estimate: bool,
) -> bool {
    &&& order.amount == amount
    &&& order.minimum_confirmations == 1
    &&& order.max_outputs == 500
    &&& order.num_change_outputs == 1
    &&& !order.selection_strategy_is_use_all
    &&& opt_view(order.message) == memo
    &&& order.estimate_only == if estimate {
        Some(true)
    } else {
        None
    }
}

/// What the wallet is told to make a transaction of, or to estimate the fee of.
fn tx_order(amount: u64, memo: &Option<String>, estimate: bool) -> (r: TxOrder)
    ensures
        orders(r, amount as int, opt_view(*memo), estimate),
{
    TxOrder {
        amount,
        minimum_confirmations: 1,
        max_outputs: 500,
        num_change_outputs: 1,
        selection_strategy_is_use_all: false,
        message: match memo {
            Some(text) => Some(text.clone()),
            None => None,
        },
        estimate_only: if estimate {
            Some(true)
        } else {
            None
        },
    }
}

/// What the wallet is told to estimate the fee of, where a search asks for an estimate: what the
/// fee assumed leaves of what can be spent.
pub fn estimate_order(search: &MaxSend, memo: &Option<String>) -> (r: TxOrder)
    requires
        search@.step_of() is Estimate,
    ensures
        orders(r, search@.spendable - search@.fee, opt_view(*memo), true),
{
    tx_order(search.spendable - search.fee, memo, true)
}

/// What the wallet is told to make the transaction of a payment of.
pub fn payment_order(amount: u64, memo: &Option<String>) -> (r: TxOrder)
    ensures
        orders(r, amount as int, opt_view(*memo), false),
{
    tx_order(amount, memo, false)
}

/// The error text of a payment that could not be delivered: whether the time was up decides.
pub open spec fn delivery_failure_text(timed_out: bool, detail: Seq<char>) -> Seq<char> {
    if timed_out {
        "Epicbox send timeout after "@ + decimal(EPICBOX_SEND_TIMEOUT_SECS as nat) + "s"@
    } else {
        failure_text(Stage::EpicboxSend, sanitized(detail))
    }
}

/// The error text of a payment that could not be delivered.
pub fn delivery_failure(timed_out: bool, detail: &str) -> (r: String)
    ensures
        r@ == delivery_failure_text(timed_out, detail@),
{
    if timed_out {
        "Epicbox send timeout after ".to_owned().concat(
            to_decimal(EPICBOX_SEND_TIMEOUT_SECS).as_str(),
        ).concat("s")
    } else {
        failure(Stage::EpicboxSend, sanitize_epicbox_error(detail).as_str())
    }
}

/// The state of a payment, by what is to be done next.
pub enum SendJob {
    /// The transaction is to be made.
    Create,
    /// It is to be delivered.
    Deliver,
    /// The outputs that it spends are to be locked.
    Lock,
    /// The wallet's address is to be looked up for the reply.
    Address,
    /// The reply is to be given.
    Reply,
    /// A step failed, with this error text.
    Failed(String),
}

/// One step of a payment: where `job` goes when what it asks for ends in `outcome`, and the time
/// for the delivery was or was not up.
pub open spec fn send_step(
    job: SendJob,
    outcome: Result<(), String>,
    timed_out: bool,
    next: SendJob,
) -> bool {
    match outcome {
        Ok(_) => match job {
            SendJob::Create => next == SendJob::Deliver,
            SendJob::Deliver => next == SendJob::Lock,
            SendJob::Lock => next == SendJob::Address,
            SendJob::Address => next == SendJob::Reply,
            SendJob::Reply => next == job,
            SendJob::Failed(_) => next == job,
        },
        Err(detail) => match job {
            SendJob::Create => next is Failed && next->Failed_0@ == failure_text(
                Stage::TransactionCreate,
                detail@,
            ),
            SendJob::Deliver => next is Failed && next->Failed_0@ == delivery_failure_text(
                timed_out,
                detail@,
            ),
            SendJob::Lock => next is Failed && next->Failed_0@ == failure_text(
                Stage::OutputLock,
                detail@,
            ),
            // The error text of the address is ready as it is.
            SendJob::Address => next is Failed && next->Failed_0@ == detail@,
            SendJob::Reply => next == job,
            SendJob::Failed(_) => next == job,
        },
    }
}

impl SendJob {
    /// A payment at its start.
    pub fn start() -> (r: SendJob)
        ensures
            r == SendJob::Create,
    {
        SendJob::Create
    }

    /// Where the payment goes when the thing to do ended in `outcome`.
    pub fn advance(self, outcome: Result<(), String>, timed_out: bool) -> (next: SendJob)
        ensures
            send_step(self, outcome, timed_out, next),
    {
        match outcome {
            Ok(_) => match self {
                SendJob::Create => SendJob::Deliver,
                SendJob::Deliver => SendJob::Lock,
                SendJob::Lock => SendJob::Address,
                SendJob::Address => SendJob::Reply,
                SendJob::Reply => SendJob::Reply,
                SendJob::Failed(message) => SendJob::Failed(message),
            },
            Err(detail) => match self {
                SendJob::Create => SendJob::Failed(
                    failure(Stage::TransactionCreate, detail.as_str()),
                ),
                SendJob::Deliver => SendJob::Failed(delivery_failure(timed_out, detail.as_str())),
                SendJob::Lock => SendJob::Failed(failure(Stage::OutputLock, detail.as_str())),
                SendJob::Address => SendJob::Failed(detail),
                SendJob::Reply => SendJob::Reply,
                SendJob::Failed(message) => SendJob::Failed(message),
            },
        }
    }
}

/// How many steps a payment can still take.
pub open spec fn steps_left(job: SendJob) -> nat {
    match job {
        SendJob::Create => 4,
        SendJob::Deliver => 3,
        SendJob::Lock => 2,
        SendJob::Address => 1,
        SendJob::Reply => 0,
        SendJob::Failed(_) => 0,
    }
}

/// A payment comes to an end, whatever its steps end in.
pub proof fn law_payment_ends(
    job: SendJob,
    outcome: Result<(), String>,
    timed_out: bool,
    next: SendJob,
)
    requires
        send_step(job, outcome, timed_out, next),
        !(job is Reply),
        !(job is Failed),
    ensures
        steps_left(next) < steps_left(job),
{
}

/// Outputs are locked only for a payment that was made and delivered.
pub proof fn law_outputs_are_locked_behind_delivery(
    making: SendJob,
    made: Result<(), String>,
    made_late: bool,
    delivering: SendJob,
    delivered: Result<(), String>,
    late: bool,
    locking: SendJob,
)
    requires
        send_step(making, made, made_late, delivering),
        send_step(delivering, delivered, late, locking),
        locking is Lock,
    ensures
        made is Ok,
        delivered is Ok,
        making is Create,
        delivering is Deliver,
{
}

/// The payload for a payment that was sent.
pub open spec fn sent_tree(
    address: Seq<char>,
    txid: Seq<char>,
    amount: Seq<char>,
    fee: Seq<char>,
) -> JsonTree {
    JsonTree::Object(
        Map::<Seq<char>, JsonTree>::empty()
            .insert("code"@, JsonTree::Text("epic-native-epicbox-sent"@))
            .insert("address"@, JsonTree::Text(address))
            .insert("txid"@, JsonTree::Text(txid))
            .insert("amount"@, JsonTree::Text(amount))
            .insert("fee"@, JsonTree::Text(fee))
            .insert("balance"@, JsonTree::Text("0"@))
            .insert("spendable"@, JsonTree::Text("0"@))
            .insert("transactions"@, JsonTree::Array(Seq::empty())),
    )
}

/// The reply to a request to send, with the amount and the fee as they are written.
pub fn send_reply(address: &str, txid: &str, amount: &str, fee: &str) -> (reply: String)
    ensures
        reply@ == json_text(success_tree(sent_tree(address@, txid@, amount@, fee@))),
        !reply@.contains('\0'),
{
    let none: Vec<serde_json::Value> = Vec::new();
    assert(trees(none@) =~= Seq::<JsonTree>::empty());
    let mut payload = json_object();
    json_set(&mut payload, "code", json_str("epic-native-epicbox-sent"));
    json_set(&mut payload, "address", json_str(address));
    json_set(&mut payload, "txid", json_str(txid));
    json_set(&mut payload, "amount", json_str(amount));
    json_set(&mut payload, "fee", json_str(fee));
    json_set(&mut payload, "balance", json_str("0"));
    json_set(&mut payload, "spendable", json_str("0"));
    json_set(&mut payload, "transactions", json_array(none));
    ok(payload)
}

/// A search starts by asking for the fee of what the fee assumed leaves, to the last unit; and
/// where that leaves nothing it ends at once, saying what is required and what there is.
pub proof fn law_search_asks_about_all_that_is_left(spendable: u64, fee: u64)
    ensures
        ({
            let step = search_start(spendable, fee).step_of();
            &&& spendable > fee ==> step is Estimate && step->Estimate_0 + fee == spendable
            &&& spendable <= fee ==> step == (MaxStep::Short {
                required: fee,
                available: spendable,
            })
        }),
{
}

/// An estimate is the fee that is assumed next. If it is the one assumed before, the search is
/// over; else it asks about what the new fee leaves, until there have been six estimates; and
/// then what the last one leaves is sent.
pub proof fn law_estimates_are_assumed_next(search: Search, estimate: u64)
    requires
        search.wf(),
        search.step_of() is Estimate,
    ensures
        ({
            let next = search.behind(estimate);
            let step = next.step_of();
            let agreed = estimate == search.fee;
            &&& next.wf()
            &&& next.spendable == search.spendable
            &&& next.fee == estimate
            &&& next.rounds == search.rounds + 1
            &&& agreed ==> step is Send && step->Send_0 + estimate == search.spendable
            &&& !agreed && search.rounds < 5 && estimate < search.spendable ==> step is Estimate
                && step->Estimate_0 + estimate == search.spendable
            &&& !agreed && search.rounds < 5 && estimate >= search.spendable ==> step == (
            MaxStep::Short { required: estimate, available: search.spendable })
            &&& !agreed && search.rounds == 5 && estimate < search.spendable ==> step is Send
                && step->Send_0 + estimate == search.spendable
            &&& !agreed && search.rounds == 5 && estimate >= search.spendable ==> step is Nothing
            &&& search.rounds <= 5
        }),
{
}

/// What a search comes to is what is done: the amount found is the one sent, a refusal names what
/// is required and what there is, and a search that goes on is the same search.
pub proof fn law_findings_are_acted_on(search: Search, next: Funding)
    requires
        settles(search, next),
    ensures
        search.step_of() matches MaxStep::Send(amount) ==> next == Funding::Found(amount),
        search.step_of() matches MaxStep::Short { required, available } ==> next is Refuse
            && next->required == required && next->available == available,
        search.step_of() is Estimate ==> next is Estimate && next->Estimate_0@ == search,
        search.step_of() is Nothing ==> next is Failed && next->Failed_0@
            == "Epic transaction create: Not enough funds after fee"@,
{
}

/// Sending everything starts from what can be spent and the fee to start from; money that cannot
/// be asked after is reported before a fee that cannot be read, and what does not cover the fee is
/// refused.
pub proof fn law_sending_everything_starts_from_what_there_is(
    spendable: Result<u64, String>,
    fee: Result<u64, String>,
    next: Funding,
)
    requires
        call_ensures(Funding::asked, (spendable, fee), next),
    ensures
        spendable matches Err(detail) ==> next is Failed && next->Failed_0@
            == "Epic balance refresh: "@ + detail@,
        spendable is Ok ==> (fee matches Err(message) ==> next is Failed && next->Failed_0@
            == message@),
        spendable matches Ok(available) ==> (fee matches Ok(first) ==> {
            &&& available <= first ==> next is Refuse && next->required == first
                && next->available == available
            &&& available > first ==> next is Estimate && next->Estimate_0@.spendable == available
                && next->Estimate_0@.fee == first && next->Estimate_0@.rounds == 0
        }),
{
    if let Err(detail) = spendable {
        law_failures_say_what_failed_and_why(detail@);
    }
}

/// An estimate moves the search on, and an estimate that fails ends it, with an error text that
/// says why.
pub proof fn law_estimates_move_the_search_on(
    search: MaxSend,
    estimate: Result<u64, String>,
    next: Funding,
)
    requires
        search@.wf(),
        search@.step_of() is Estimate,
        call_ensures(Funding::estimated, (search, estimate), next),
    ensures
        estimate matches Err(detail) ==> next is Failed && next->Failed_0@
            == "Epic max fee estimate: "@ + detail@,
        estimate matches Ok(fee) ==> (fee == search@.fee ==> next is Found && next->Found_0 + fee
            == search@.spendable),
        next matches Funding::Found(amount) ==> estimate is Ok && amount > 0 && amount
            + estimate->Ok_0 == search@.spendable,
{
    if let Err(detail) = estimate {
        law_failures_say_what_failed_and_why(detail@);
    }
}

/// An amount that could be read is the one sent, whatever it is; one that could not be read ends
/// the payment, with an error text that says why.
pub proof fn law_amounts_are_sent_as_read(parsed: Result<u64, String>, next: Funding)
    requires
        call_ensures(Funding::read, (parsed,), next),
    ensures
        parsed matches Ok(amount) ==> next == Funding::Found(amount),
        parsed matches Err(detail) ==> next is Failed && next->Failed_0@ == "Epic amount: "@
            + detail@,
{
    if let Err(detail) = parsed {
        law_failures_say_what_failed_and_why(detail@);
    }
}

/// The wallet is told the amount and the memo as they are, and the same of everything else for an
/// estimate and for a payment; only an estimate is marked as one.
pub proof fn law_estimates_and_payments_are_ordered_alike(
    estimate: TxOrder,
    payment: TxOrder,
    search: MaxSend,
    amount: u64,
    memo: Option<String>,
)
    requires
        call_ensures(estimate_order, (&search, &memo), estimate),
        call_ensures(payment_order, (amount, &memo), payment),
    ensures
        estimate.amount + search@.fee == search@.spendable && payment.amount == amount,
        opt_view(estimate.message) == opt_view(memo) && opt_view(payment.message) == opt_view(memo),
        estimate.estimate_only == Some(true) && payment.estimate_only is None,
        estimate.minimum_confirmations == 1 && payment.minimum_confirmations == 1,
        estimate.max_outputs == 500 && payment.max_outputs == 500,
        estimate.num_change_outputs == 1 && payment.num_change_outputs == 1,
        !estimate.selection_strategy_is_use_all && !payment.selection_strategy_is_use_all,
{
}

/// A delivery that fails behind its time says so, whatever the error was; one that fails in time
/// says why, to the letter, unless the server cannot be reached.
pub proof fn law_late_deliveries_say_so(detail: Seq<char>, other: Seq<char>)
    ensures
        delivery_failure_text(true, detail) == "Epicbox send timeout after 25s"@,
        delivery_failure_text(true, detail) == delivery_failure_text(true, other),
        delivery_failure_text(false, detail) == "Epicbox send: "@ + sanitized(detail),
{
    law_failures_say_what_failed_and_why(sanitized(detail));
    law_decimal_notation(2, 5);
    law_decimal_notation(0, 2);
    reveal_strlit("Epicbox send timeout after ");
    reveal_strlit("s");
    reveal_strlit("Epicbox send timeout after 25s");
    let number = decimal(25);
    assert(number.len() == 2);
    assert(number.drop_last()[0] == number[0]);
    assert(delivery_failure_text(true, detail) =~= "Epicbox send timeout after 25s"@);
}

/// A payment whose steps succeed goes through them all: it is made, delivered, its outputs are
/// locked, and the reply is given behind the address.
pub proof fn law_payments_go_through_all_their_steps(
    late: bool,
    delivering: SendJob,
    locking: SendJob,
    looking: SendJob,
    replying: SendJob,
)
    requires
        call_ensures(SendJob::advance, (SendJob::Create, Ok(()), late), delivering),
        call_ensures(SendJob::advance, (delivering, Ok(()), late), locking),
        call_ensures(SendJob::advance, (locking, Ok(()), late), looking),
        call_ensures(SendJob::advance, (looking, Ok(()), late), replying),
    ensures
        delivering is Deliver,
        locking is Lock,
        looking is Address,
        replying is Reply,
{
}

/// A step that fails ends a payment, with an error text that says which it was and why; an end is
/// never undone.
pub proof fn law_failed_steps_end_a_payment(
    job: SendJob,
    detail: String,
    late: bool,
    next: SendJob,
    ended: SendJob,
    outcome: Result<(), String>,
    after: SendJob,
)
    requires
        call_ensures(SendJob::advance, (job, Err(detail), late), next),
        ended is Reply || ended is Failed,
        call_ensures(SendJob::advance, (ended, outcome, late), after),
    ensures
        job is Create ==> next is Failed && next->Failed_0@ == "Epic transaction create: "@
            + detail@,
        job is Deliver && late ==> next is Failed && next->Failed_0@
            == "Epicbox send timeout after 25s"@,
        job is Deliver && !late ==> next is Failed && next->Failed_0@ == "Epicbox send: "@
            + sanitized(detail@),
        job is Lock ==> next is Failed && next->Failed_0@ == "Epic output lock: "@ + detail@,
        job is Address ==> next is Failed && next->Failed_0@ == detail@,
        after == ended,
{
    law_failures_say_what_failed_and_why(detail@);
    law_late_deliveries_say_so(detail@, detail@);
}

/// A refusal shows both amounts as they are written, what is required first.
pub proof fn law_refusals_show_both_amounts(required: Seq<char>, available: Seq<char>)
    ensures
        refusal_text(required, available)
            == "Epic transaction create: Not enough funds. Required: "@ + (required
            + ", Available: "@ + available),
{
    assert(refusal_text(required, available)
        =~= "Epic transaction create: Not enough funds. Required: "@ + (required + ", Available: "@
        + available));
}

/// The reply to a payment shows what was sent, each thing under its name.
pub proof fn law_replies_show_what_was_sent(
    address: Seq<char>,
    txid: Seq<char>,
    amount: Seq<char>,
    fee: Seq<char>,
)
    ensures
        ({
            let document = sent_tree(address, txid, amount, fee);
            &&& member(document, "code"@) == Some(JsonTree::Text("epic-native-epicbox-sent"@))
            &&& member(document, "address"@) == Some(JsonTree::Text(address))
            &&& member(document, "txid"@) == Some(JsonTree::Text(txid))
            &&& member(document, "amount"@) == Some(JsonTree::Text(amount))
            &&& member(document, "fee"@) == Some(JsonTree::Text(fee))
            &&& member(document, "balance"@) == Some(JsonTree::Text("0"@))
            &&& member(document, "spendable"@) == Some(JsonTree::Text("0"@))
            &&& member(document, "transactions"@) == Some(JsonTree::Array(Seq::empty()))
        }),
{
    reveal_strlit("code");
    reveal_strlit("address");
    reveal_strlit("txid");
    reveal_strlit("amount");
    reveal_strlit("fee");
    reveal_strlit("balance");
    reveal_strlit("spendable");
    reveal_strlit("transactions");
    assert("code"@.len() == 4 && "address"@.len() == 7 && "txid"@.len() == 4);
    assert("amount"@.len() == 6 && "fee"@.len() == 3 && "balance"@.len() == 7);
    assert("spendable"@.len() == 9 && "transactions"@.len() == 12);
    assert("code"@[0] == 'c' && "txid"@[0] == 't');
    assert("address"@[0] == 'a' && "balance"@[0] == 'b');
}

} // verus!
