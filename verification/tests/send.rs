use altbase_epic::request::{SendAmount, SendOrder};
use altbase_epic::send::{
    delivery_failure, estimate_order, not_enough_funds, nothing_after_fee, payment_order,
    send_reply, Funding, MaxSend, MaxStep, SendJob,
};

/// Runs a search against a wallet that estimates fees by `estimate`.
fn search(spendable: u64, fee: u64, estimate: fn(u64) -> u64) -> (MaxStep, u64) {
    let mut search = MaxSend::start(spendable, fee);
    let mut asked = 0;
    loop {
        match search.step() {
            MaxStep::Estimate(candidate) => {
                asked += 1;
                search = search.take_estimate(estimate(candidate));
            }
            step => return (step, asked),
        }
    }
}

#[test]
fn an_agreeing_estimate_ends_the_search() {
    assert_eq!(search(100, 10, |_| 10), (MaxStep::Send(90), 1));
    assert_eq!(search(100, 10, |_| 4), (MaxStep::Send(96), 2));
}

#[test]
fn a_search_without_agreement_ends_after_six_estimates() {
    let (step, asked) = search(1000, 10, |amount| if amount % 2 == 0 { 11 } else { 20 });
    assert_eq!(asked, 6);
    assert_eq!(step, MaxStep::Send(980));
}

#[test]
fn fees_that_leave_nothing_are_refused() {
    assert_eq!(search(10, 10, |_| 1), (MaxStep::Short { required: 10, available: 10 }, 0));
    assert_eq!(search(0, 1, |_| 1), (MaxStep::Short { required: 1, available: 0 }, 0));
    assert_eq!(search(100, 10, |_| 100), (MaxStep::Short { required: 100, available: 100 }, 1));
    let mut search = MaxSend::start(100, 1);
    for fee in [2, 3, 4, 5, 6, 100] {
        assert!(matches!(search.step(), MaxStep::Estimate(_)));
        search = search.take_estimate(fee);
    }
    assert_eq!(search.step(), MaxStep::Nothing);
}

#[test]
fn refusals_have_their_words() {
    assert_eq!(
        not_enough_funds("0.01", "0.001"),
        "Epic transaction create: Not enough funds. Required: 0.01, Available: 0.001"
    );
    assert_eq!(nothing_after_fee(), "Epic transaction create: Not enough funds after fee");
}

#[test]
fn orders_to_the_wallet() {
    let order = payment_order(5, &Some("memo".to_string()));
    assert_eq!(order.amount, 5);
    assert_eq!(order.minimum_confirmations, 1);
    assert_eq!(order.max_outputs, 500);
    assert_eq!(order.num_change_outputs, 1);
    assert!(!order.selection_strategy_is_use_all);
    assert_eq!(order.message, Some("memo".to_string()));
    assert_eq!(order.estimate_only, None);
    let order = estimate_order(&MaxSend::start(100, 10), &None);
    assert_eq!(order.amount, 90);
    assert_eq!(order.minimum_confirmations, 1);
    assert_eq!(order.max_outputs, 500);
    assert_eq!(order.num_change_outputs, 1);
    assert!(!order.selection_strategy_is_use_all);
    assert_eq!(order.message, None);
    assert_eq!(order.estimate_only, Some(true));
}

#[test]
fn delivery_fails_late_or_with_an_error() {
    assert_eq!(delivery_failure(true, "x"), "Epicbox send timeout after 25s");
    assert_eq!(delivery_failure(false, "x"), "Epicbox send: x");
    assert_eq!(
        delivery_failure(false, "native-tls"),
        "Epicbox send: Epicbox server is not reachable. Please try again in a moment."
    );
}

#[test]
fn payments_run_in_order() {
    let mut job = SendJob::start();
    let mut steps = Vec::new();
    loop {
        steps.push(match job {
            SendJob::Create => "create",
            SendJob::Deliver => "deliver",
            SendJob::Lock => "lock",
            SendJob::Address => "address",
            SendJob::Reply => break,
            SendJob::Failed(_) => panic!("failed"),
        });
        job = job.advance(Ok(()), false);
    }
    assert_eq!(steps, vec!["create", "deliver", "lock", "address"]);
}

#[test]
fn failed_steps_end_a_payment() {
    let failed = |job: SendJob, late: bool| match job.advance(Err("why".to_string()), late) {
        SendJob::Failed(message) => message,
        _ => panic!("not failed"),
    };
    assert_eq!(failed(SendJob::Create, true), "Epic transaction create: why");
    assert_eq!(failed(SendJob::Deliver, false), "Epicbox send: why");
    assert_eq!(failed(SendJob::Deliver, true), "Epicbox send timeout after 25s");
    assert_eq!(failed(SendJob::Lock, false), "Epic output lock: why");
    assert_eq!(failed(SendJob::Address, false), "why");
    assert_eq!(failed(SendJob::Failed("first".to_string()), false), "first");
}

#[test]
fn a_payment_is_reported() {
    assert_eq!(
        send_reply("me", "id-1", "1.5", "0.01"),
        "{\"address\":\"me\",\"amount\":\"1.5\",\"balance\":\"0\",\
         \"code\":\"epic-native-epicbox-sent\",\"fee\":\"0.01\",\"ok\":true,\"spendable\":\"0\",\
         \"transactions\":[],\"txid\":\"id-1\"}"
    );
}

fn failure_of(funding: Funding) -> String {
    match funding {
        Funding::Failed(message) => message,
        _ => panic!("not failed"),
    }
}

#[test]
fn an_amount_in_a_text_is_read() {
    let order =
        SendOrder { to: "a".to_string(), amount: SendAmount::Text("1.5".to_string()) };
    assert!(matches!(Funding::start(&order), Funding::Read(text) if text == "1.5"));
    assert!(matches!(Funding::read(Ok(7)), Funding::Found(7)));
    assert!(matches!(Funding::read(Ok(0)), Funding::Found(0)));
    assert_eq!(failure_of(Funding::read(Err("why".to_string()))), "Epic amount: why");
}

#[test]
fn the_largest_amount_is_searched_for() {
    let order = SendOrder { to: "a".to_string(), amount: SendAmount::Max };
    assert!(matches!(Funding::start(&order), Funding::Ask));
    let funding = Funding::asked(Ok(100), Ok(10));
    let Funding::Estimate(search) = funding else { panic!("no estimate") };
    assert_eq!(search.step(), MaxStep::Estimate(90));
    let Funding::Estimate(search) = Funding::estimated(search, Ok(12)) else {
        panic!("no estimate")
    };
    assert_eq!(search.step(), MaxStep::Estimate(88));
    assert!(matches!(Funding::estimated(search, Ok(12)), Funding::Found(88)));
}

#[test]
fn searches_fail_with_their_words() {
    let why = || Err("why".to_string());
    assert_eq!(failure_of(Funding::asked(why(), Ok(1))), "Epic balance refresh: why");
    assert_eq!(failure_of(Funding::asked(why(), why())), "Epic balance refresh: why");
    assert_eq!(failure_of(Funding::asked(Ok(1), why())), "why");
    let search = MaxSend::start(100, 10);
    assert_eq!(failure_of(Funding::estimated(search, why())), "Epic max fee estimate: why");
    assert!(matches!(
        Funding::asked(Ok(5), Ok(10)),
        Funding::Refuse { required: 10, available: 5 }
    ));
    assert_eq!(
        failure_of(Funding::refused("0.1", "0.05")),
        "Epic transaction create: Not enough funds. Required: 0.1, Available: 0.05"
    );
    let mut funding = Funding::asked(Ok(100), Ok(1));
    for fee in [2, 3, 4, 5, 6, 100] {
        let Funding::Estimate(search) = funding else { panic!("no estimate") };
        funding = Funding::estimated(search, Ok(fee));
    }
    assert_eq!(failure_of(funding), "Epic transaction create: Not enough funds after fee");
}
