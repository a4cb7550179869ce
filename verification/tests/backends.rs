use bullpen::lightning::alby::{payment_body, payment_preimage, preimage_from, AlbyClient};
use bullpen::lightning::error::{check_reply, check_status, BackendReply, PaymentError};
use bullpen::lightning::json::JsonField;
use bullpen::lightning::lnbits::LNBitsClient;
use bullpen::lightning::model::{HttpMethod, PayInvoiceResult};
use bullpen::lightning::strike::{state_from, text_from, QuoteRequest, StrikeClient};
use bullpen::lightning::wallet::{RestBackend, Transport, Wallet};
use bullpen::lightning::model::HttpCall;
use bullpen::lightning::Lightning;
use std::cell::RefCell;
use bullpen::lightning::{
    format_as_uuid_string, on_execution, AlbyLightning, AlbyLightningSettings, ClnLightningSettings, LightningType,
    LnbitsLightning, LnbitsLightningSettings, LndLightningSettings, PaymentAction, StrikeLightning,
    StrikeLightningSettings, StrikePayment,
};

const INVOICE: &str = "lnbc100p1psj9jhxdqud3jxktt5w46x7unfv9kz6mn0v3jsnp4q0d3p2sfluzdx45tqcsh2pu5qc7lgq0xs578ngs6s0s68ua4h7cvspp5q6rmq35js88zp5dvwrv9m459tnk2zunwj5jalqtyxqulh0l5gflssp5nf55ny5gcrfl30xuhzj3nphgj27rstekmr9fw3ny5989s300gyus9qyysgqcqpcrzjqw2sxwe993h5pcm4dxzpvttgza8zhkqxpgffcrf5v25nwpr3cmfg7z54kuqq8rgqqqqqqqq2qqqqq9qq9qrzjqd0ylaqclj9424x9m8h2vcukcgnm6s56xfgu3j78zyqzhgs4hlpzvznlugqq9vsqqqqqqqlgqqqqqeqq9qrzjqwldmj9dha74df76zhx6l9we0vjdquygcdt3kssupehe64g6yyp5yz5rhuqqwccqqyqqqqlgqqqqjcqq9qrzjqf9e58aguqr0rcun0ajlvmzq3ek63cw2w282gv3z5uupmuwvgjtq2z55qsqqg6qqqyqqqrtnqqqzq3cqygrzjqvphmsywntrrhqjcraumvc4y6r8v4z5v593trte429v4hredj7ms5z52usqq9ngqqqqqqqlgqqqqqqgq9qrzjq2v0vp62g49p7569ev48cmulecsxe59lvaw3wlxm7r982zxa9zzj7z5l0cqqxusqqyqqqqlgqqqqqzsqygarl9fh38s0gyuxjjgux34w75dnc6xp2l35j7es3jd4ugt3lu0xzre26yg5m7ke54n2d5sym4xcmxtl8238xxvw5h5h5j5r6drg6k6zcqj0fcwg";
const HASH: &str = "0687b0469281ce20d1ac70d85dd6855ceca1726e9525df81643039fbbff4427f";

fn answer(status: u16, body: String) -> BackendReply {
    BackendReply::Response { status, body }
}

#[test]
fn network_failure_is_a_transport_error() {
    match check_reply(BackendReply::Unreachable("dns".to_string())) {
        Err(PaymentError::Transport(detail)) => assert_eq!(detail, "dns"),
        other => panic!("unexpected outcome: {:?}", other),
    }
    assert_eq!(check_reply(answer(201, "b".to_string())).unwrap(), "b");
    assert!(matches!(check_reply(answer(401, "b".to_string())), Err(PaymentError::Unauthorized)));
    let backend = StrikeLightning::new("key".to_string());
    let (state, _) = backend.begin_payment(INVOICE);
    let (state, action) = backend.on_reply(state, BackendReply::Unreachable("timeout".to_string()));
    assert!(matches!(state, StrikePayment::Finished));
    match action {
        PaymentAction::Failed(PaymentError::Transport(detail)) => assert_eq!(detail, "timeout"),
        other => panic!("unexpected action: {:?}", other),
    }
    let (_, action) = backend.on_reply(state, BackendReply::Unreachable("timeout".to_string()));
    assert!(matches!(action, PaymentAction::Failed(PaymentError::NotCompleted)));
}

#[test]
fn status_decides_the_failure() {
    assert_eq!(check_status(200, "ok".to_string()).unwrap(), "ok");
    assert_eq!(check_status(299, "ok".to_string()).unwrap(), "ok");
    assert!(matches!(check_status(401, "x".to_string()), Err(PaymentError::Unauthorized)));
    assert!(matches!(check_status(404, "x".to_string()), Err(PaymentError::NotFound)));
    match check_status(500, "boom".to_string()) {
        Err(PaymentError::RemoteRejected(detail)) => assert_eq!(detail, "boom"),
        other => panic!("unexpected outcome: {:?}", other),
    }
    assert!(matches!(check_status(199, "x".to_string()), Err(PaymentError::RemoteRejected(_))));
    assert!(matches!(check_status(300, "x".to_string()), Err(PaymentError::RemoteRejected(_))));
    assert!(matches!(check_status(402, "x".to_string()), Err(PaymentError::RemoteRejected(_))));
}

#[test]
fn hash_is_written_in_lower_case_hex() {
    let proof = vec![7u8; 32];
    assert_eq!(PayInvoiceResult::settled(&vec![1, 2, 3, 15, 16], proof.clone()).unwrap().payment_hash().as_str(), "0102030f10");
    assert_eq!(PayInvoiceResult::settled(&vec![0xab, 0xcd, 0xef], proof.clone()).unwrap().payment_hash().as_str(), "abcdef");
    assert_eq!(PayInvoiceResult::settled(&vec![], proof.clone()).unwrap().payment_hash().as_str(), "");
    assert_eq!(PayInvoiceResult::settled(&vec![1], proof.clone()).unwrap().into_preimage(), proof);
}

#[test]
fn rest_backends_report_the_invoice_hash() {
    let alby = AlbyLightning::new("k".to_string());
    let body = format!("{{\"payment_preimage\":\"{}\"}}", "cd".repeat(32));
    let paid = alby.pay_invoice_result(INVOICE, answer(200, body.clone())).unwrap();
    assert_eq!(paid.payment_hash().as_str(), HASH);
    assert_eq!(paid.preimage().clone(), vec![0xcd; 32]);
    assert!(matches!(alby.pay_invoice_result("nonsense", answer(200, body)), Err(PaymentError::InvalidInvoice)));
    assert!(matches!(
        alby.pay_invoice_result(INVOICE, answer(401, String::new())),
        Err(PaymentError::Unauthorized)
    ));
    assert!(matches!(
        alby.pay_invoice_result(INVOICE, BackendReply::Unreachable("dns".to_string())),
        Err(PaymentError::Transport(_))
    ));
    let lnbits = LnbitsLightning::new("a".to_string(), "https://lnbits.example".to_string());
    let call = lnbits.client.pay_invoice_request("lnbc1");
    assert_eq!(call.method, HttpMethod::Post);
    assert_eq!(call.endpoint, "api/v1/payments");
    assert_eq!(call.body, "{\"out\":true,\"bolt11\":\"lnbc1\"}");
    let proof = format!("{{\"payment_hash\":\"{}\",\"preimage\":\"{}\"}}", HASH, "0a".repeat(32));
    let paid = lnbits.pay_invoice_result(INVOICE, answer(201, proof.clone())).unwrap();
    assert_eq!(paid.payment_hash().as_str(), HASH);
    assert_eq!(paid.preimage().clone(), vec![0x0a; 32]);
    assert_eq!(lnbits.client.payment_preimage(answer(200, proof.clone())).unwrap(), vec![0x0a; 32]);
    assert!(matches!(
        lnbits.pay_invoice_result(INVOICE, answer(201, "{}".to_string())),
        Err(PaymentError::InvalidResponse(_))
    ));
    assert!(matches!(
        lnbits.pay_invoice_result(INVOICE, answer(201, "{\"preimage\":\"0a0b\"}".to_string())),
        Err(PaymentError::InvalidPreimage)
    ));
    assert!(matches!(
        lnbits.pay_invoice_result(INVOICE, answer(404, proof.clone())),
        Err(PaymentError::NotFound)
    ));
    assert!(matches!(
        lnbits.pay_invoice_result(INVOICE, BackendReply::Unreachable("dns".to_string())),
        Err(PaymentError::Transport(_))
    ));
    assert!(matches!(lnbits.pay_invoice_result("x", answer(201, proof)), Err(PaymentError::InvalidInvoice)));
    assert!(matches!(
        alby.pay_invoice_result(INVOICE, answer(200, "{\"payment_preimage\":\"0a0b\"}".to_string())),
        Err(PaymentError::InvalidPreimage)
    ));
    assert!(matches!(PayInvoiceResult::settled(&vec![0xaa], vec![1, 2]), Err(PaymentError::InvalidPreimage)));
    assert!(matches!(PayInvoiceResult::settled(&vec![0xaa], vec![]), Err(PaymentError::InvalidPreimage)));
    assert!(matches!(PayInvoiceResult::settled(&vec![0xaa], vec![0; 33]), Err(PaymentError::InvalidPreimage)));
}

#[test]
fn uuid_grouping() {
    let bytes: Vec<u8> = (0u8..16).collect();
    assert_eq!(format_as_uuid_string(&bytes), "00010203-0405-0607-0809-0a0b0c0d0e0f");
    let ten: Vec<u8> = vec![0xff; 10];
    assert_eq!(format_as_uuid_string(&ten), "ffffffff-ffff-ffff-ffff-");
}

#[test]
fn alby_payment_call_and_reply() {
    let client = AlbyClient::new("key");
    assert_eq!(client.api_key, "key");
    assert_eq!(client.alby_url, "https://api.getalby.com");
    let call = client.pay_invoice_request("lnbc1");
    assert_eq!(call.method, HttpMethod::Post);
    assert_eq!(call.endpoint, "payments/bolt11");
    assert_eq!(call.body, "{\"invoice\":\"lnbc1\"}");
    assert_eq!(payment_body("a\\b\n"), "{\"invoice\":\"a\\\\b\\n\"}");
    let hex = "00".repeat(31) + "Ff";
    let mut expected = vec![0u8; 32];
    expected[31] = 0xff;
    assert_eq!(payment_preimage(200, format!("{{\"payment_preimage\":\"{}\"}}", hex)).unwrap(), expected);
    assert!(matches!(payment_preimage(404, String::new()), Err(PaymentError::NotFound)));
    assert!(matches!(
        payment_preimage(200, "{\"payment_preimage\":5}".to_string()),
        Err(PaymentError::InvalidResponse(_))
    ));
}

#[test]
fn preimage_from_a_looked_up_field() {
    assert_eq!(preimage_from("b".to_string(), JsonField::Text("ab".repeat(32))).unwrap(), vec![0xab; 32]);
    assert!(matches!(
        preimage_from("b".to_string(), JsonField::Text("ab".repeat(31))),
        Err(PaymentError::InvalidPreimage)
    ));
    assert!(matches!(
        preimage_from("b".to_string(), JsonField::Text("abc".to_string())),
        Err(PaymentError::InvalidPreimage)
    ));
    match preimage_from("body".to_string(), JsonField::Absent) {
        Err(PaymentError::InvalidResponse(detail)) => assert_eq!(detail, "body"),
        other => panic!("unexpected outcome: {:?}", other),
    }
    assert!(matches!(
        preimage_from("body".to_string(), JsonField::Invalid),
        Err(PaymentError::InvalidResponse(_))
    ));
}

#[test]
fn strike_calls() {
    let client = StrikeClient::new("key");
    assert_eq!(client.api_key, "key");
    assert_eq!(client.strike_url, "https://api.strike.me");
    let call = client.payment_quote_request("lnbc1");
    assert_eq!(call.method, HttpMethod::Post);
    assert_eq!(call.endpoint, "v1/payment-quotes/lightning");
    assert_eq!(call.body, "{\"lnInvoice\":\"lnbc1\",\"sourceCurrency\":\"BTC\"}");
    let call = client.execute_quote_request("q-1");
    assert_eq!(call.method, HttpMethod::Patch);
    assert_eq!(call.endpoint, "v1/payment-quotes/q-1/execute");
    assert_eq!(call.body, "{}");
    let call = client.invoice_state_request("abc");
    assert_eq!(call.method, HttpMethod::Get);
    assert_eq!(call.endpoint, "v1/invoices/abc");
    assert_eq!(call.body, "");
}

#[test]
fn strike_replies() {
    let client = StrikeClient::new("key");
    assert_eq!(client.payment_quote_id(200, "{\"paymentQuoteId\":\"q-1\"}".to_string()).unwrap(), "q-1");
    assert!(matches!(
        client.payment_quote_id(200, "{\"other\":1}".to_string()),
        Err(PaymentError::InvalidResponse(_))
    ));
    assert!(matches!(client.payment_quote_id(401, "{}".to_string()), Err(PaymentError::Unauthorized)));
    assert!(client.execution_completed(200, "{\"state\":\"COMPLETED\"}".to_string()).unwrap());
    assert!(!client.execution_completed(200, "{\"state\":\"PENDING\"}".to_string()).unwrap());
    assert!(!client.execution_completed(200, "{}".to_string()).unwrap());
    assert!(matches!(
        client.execution_completed(200, "oops".to_string()),
        Err(PaymentError::InvalidResponse(_))
    ));
    assert!(client.is_invoice_paid(200, "{\"state\":\"PAID\"}".to_string()).unwrap());
    assert!(!client.is_invoice_paid(200, "{\"state\":\"UNPAID\"}".to_string()).unwrap());
    assert!(matches!(client.is_invoice_paid(404, "{}".to_string()), Err(PaymentError::NotFound)));
    assert_eq!(client.strike_quote_invoice(200, "{\"lnInvoice\":\"lnbc1\"}".to_string()).unwrap(), "lnbc1");
}

#[test]
fn strike_fields_after_lookup() {
    assert_eq!(text_from("b".to_string(), JsonField::Text("t".to_string())).unwrap(), "t");
    assert!(matches!(text_from("b".to_string(), JsonField::Absent), Err(PaymentError::InvalidResponse(_))));
    assert!(state_from("b".to_string(), JsonField::Text("PAID".to_string()), "PAID").unwrap());
    assert!(!state_from("b".to_string(), JsonField::Text("paid".to_string()), "PAID").unwrap());
    assert!(!state_from("b".to_string(), JsonField::Absent, "PAID").unwrap());
    assert!(matches!(
        state_from("b".to_string(), JsonField::Invalid, "PAID"),
        Err(PaymentError::InvalidResponse(_))
    ));
}

#[test]
fn strike_description_hash() {
    assert_eq!(
        StrikeClient::description_hash("AB-cd-01"),
        Some(format!("{}abcd01", "0".repeat(58)))
    );
    assert_eq!(StrikeClient::description_hash("").unwrap(), "0".repeat(64));
    assert_eq!(StrikeClient::description_hash("abc"), None);
    assert_eq!(StrikeClient::description_hash("zz"), None);
    let long = "ab".repeat(40);
    assert_eq!(StrikeClient::description_hash(&long), Some(long.clone()));
    let client = StrikeClient::new("key");
    let call = client.create_strike_quote_request("ab-cd").unwrap();
    assert_eq!(call.endpoint, "v1/invoices/ab-cd/quote");
    assert_eq!(call.body, format!("{{\"descriptionHash\":\"{}abcd\"}}", "0".repeat(60)));
    assert!(client.create_strike_quote_request("xyz").is_none());
    let request = QuoteRequest::for_invoice("AB-cd").unwrap();
    assert_eq!(request.description_hash, format!("{}abcd", "0".repeat(60)));
    assert_eq!(request.body(), format!("{{\"descriptionHash\":\"{}abcd\"}}", "0".repeat(60)));
    assert!(QuoteRequest::for_invoice("a").is_none());
}

#[test]
fn strike_payment_completes_in_two_steps() {
    let backend = StrikeLightning::new("key".to_string());
    let (state, action) = backend.begin_payment(INVOICE);
    match action {
        PaymentAction::Call(call) => {
            assert_eq!(call.endpoint, "v1/payment-quotes/lightning");
            assert_eq!(call.body, format!("{{\"lnInvoice\":\"{}\",\"sourceCurrency\":\"BTC\"}}", INVOICE));
        }
        other => panic!("unexpected action: {:?}", other),
    }
    let (state, action) = backend.on_reply(state, answer(200, "{\"paymentQuoteId\":\"q-7\"}".to_string()));
    match action {
        PaymentAction::Call(call) => {
            assert_eq!(call.method, HttpMethod::Patch);
            assert_eq!(call.endpoint, "v1/payment-quotes/q-7/execute");
        }
        other => panic!("unexpected action: {:?}", other),
    }
    let reply = format!("{{\"state\":\"COMPLETED\",\"preimage\":\"{}\"}}", "Ab".repeat(32));
    let (state, action) = backend.on_reply(state, answer(200, reply));
    assert!(matches!(state, StrikePayment::Finished));
    match action {
        PaymentAction::Paid(result) => {
            assert_eq!(result.payment_hash().as_str(), HASH);
            assert_eq!(result.preimage().clone(), vec![0xab; 32]);
        }
        other => panic!("unexpected action: {:?}", other),
    }
}

#[test]
fn strike_payment_that_does_not_complete_fails() {
    let backend = StrikeLightning::new("key".to_string());
    let (state, _) = backend.begin_payment(INVOICE);
    let (state, _) = backend.on_reply(state, answer(200, "{\"paymentQuoteId\":\"q-7\"}".to_string()));
    let proof = "cd".repeat(32);
    let reply = format!("{{\"state\":\"FAILED\",\"preimage\":\"{}\"}}", proof);
    let (state, action) = backend.on_reply(state, answer(200, reply));
    assert!(matches!(action, PaymentAction::Failed(PaymentError::NotCompleted)));
    let reply = format!("{{\"state\":\"COMPLETED\",\"preimage\":\"{}\"}}", proof);
    let (_, action) = backend.on_reply(state, answer(200, reply));
    assert!(matches!(action, PaymentAction::Failed(PaymentError::NotCompleted)));
}

#[test]
fn strike_payment_without_a_preimage_is_not_paid() {
    let backend = StrikeLightning::new("key".to_string());
    for (reply, invalid_preimage) in [
        ("{\"state\":\"COMPLETED\"}".to_string(), false),
        ("{\"state\":\"COMPLETED\",\"preimage\":7}".to_string(), false),
        ("{\"state\":\"COMPLETED\",\"preimage\":\"abcd\"}".to_string(), true),
        (format!("{{\"state\":\"COMPLETED\",\"preimage\":\"{}\"}}", "zz".repeat(32)), true),
        (format!("{{\"state\":\"COMPLETED\",\"preimage\":\"{}\"}}", "ab".repeat(33)), true),
    ] {
        let (state, _) = backend.begin_payment(INVOICE);
        let (state, _) = backend.on_reply(state, answer(200, "{\"paymentQuoteId\":\"q-7\"}".to_string()));
        let (state, action) = backend.on_reply(state, answer(200, reply));
        assert!(matches!(state, StrikePayment::Finished));
        if invalid_preimage {
            assert!(matches!(action, PaymentAction::Failed(PaymentError::InvalidPreimage)));
        } else {
            assert!(matches!(action, PaymentAction::Failed(PaymentError::InvalidResponse(_))));
        }
    }
}

#[test]
fn execution_reply_after_lookup() {
    let hash = || "aa".to_string();
    let text = |t: &str| JsonField::Text(t.to_string());
    match on_execution(hash(), "b".to_string(), text("COMPLETED"), text(&"01".repeat(32))) {
        PaymentAction::Paid(paid) => {
            assert_eq!(paid.payment_hash().as_str(), "aa");
            assert_eq!(paid.preimage().clone(), vec![1u8; 32]);
        }
        other => panic!("unexpected action: {:?}", other),
    }
    assert!(matches!(
        on_execution(hash(), "b".to_string(), text("PENDING"), text(&"01".repeat(32))),
        PaymentAction::Failed(PaymentError::NotCompleted)
    ));
    assert!(matches!(
        on_execution(hash(), "b".to_string(), JsonField::Absent, text(&"01".repeat(32))),
        PaymentAction::Failed(PaymentError::NotCompleted)
    ));
    assert!(matches!(
        on_execution(hash(), "b".to_string(), JsonField::Invalid, JsonField::Invalid),
        PaymentAction::Failed(PaymentError::InvalidResponse(_))
    ));
    assert!(matches!(
        on_execution(hash(), "b".to_string(), text("COMPLETED"), JsonField::Absent),
        PaymentAction::Failed(PaymentError::InvalidResponse(_))
    ));
    assert!(matches!(
        on_execution(hash(), "b".to_string(), text("COMPLETED"), text("01")),
        PaymentAction::Failed(PaymentError::InvalidPreimage)
    ));
}

#[test]
fn strike_payment_failures() {
    let backend = StrikeLightning::new("key".to_string());
    let (state, action) = backend.begin_payment("nonsense");
    assert!(matches!(state, StrikePayment::Finished));
    assert!(matches!(action, PaymentAction::Failed(PaymentError::InvalidInvoice)));
    let (state, _) = backend.begin_payment(INVOICE);
    let (state, action) = backend.on_reply(state, answer(401, "denied".to_string()));
    assert!(matches!(state, StrikePayment::Finished));
    assert!(matches!(action, PaymentAction::Failed(PaymentError::Unauthorized)));
    let (state, _) = backend.begin_payment(INVOICE);
    let (state, _) = backend.on_reply(state, answer(200, "{\"paymentQuoteId\":\"q\"}".to_string()));
    let (_, action) = backend.on_reply(state, answer(503, "down".to_string()));
    match action {
        PaymentAction::Failed(PaymentError::RemoteRejected(detail)) => assert_eq!(detail, "down"),
        other => panic!("unexpected action: {:?}", other),
    }
}

#[test]
fn settings_and_backends() {
    let lnbits = LnbitsLightningSettings::new("admin", "https://lnbits.example");
    assert_eq!(lnbits.admin_key.as_deref(), Some("admin"));
    assert_eq!(lnbits.url.as_deref(), Some("https://lnbits.example"));
    assert_eq!(lnbits.describe(), "admin_key: admin, url: https://lnbits.example");
    let alby = AlbyLightningSettings::new("k");
    assert_eq!(alby.api_key.as_deref(), Some("k"));
    assert_eq!(alby.describe(), "api_key: k");
    let strike = StrikeLightningSettings::new("s");
    assert_eq!(strike.describe(), "api_key: s");
    let lnd = LndLightningSettings {
        grpc_host: Some("https://localhost:10009/".to_string()),
        tls_cert_path: Some("/tls.cert".to_string()),
        macaroon_path: Some("/admin.macaroon".to_string()),
    };
    assert_eq!(
        lnd.describe(),
        "grpc_host: https://localhost:10009/, tls_cert_path: /tls.cert, macaroon_path: /admin.macaroon"
    );
    let cln = ClnLightningSettings { rpc_path: Some("/rpc".to_string()) };
    assert_eq!(cln.describe(), "rpc_path: /rpc");
    assert_eq!(LightningType::Lnbits(lnbits).describe(), "Lnbits: admin_key: admin, url: https://lnbits.example");
    assert_eq!(LightningType::Alby(alby).describe(), "Alby: api_key: k");
    assert_eq!(LightningType::Strike(strike).describe(), "Strike: api_key: s");
    assert_eq!(LightningType::Cln(cln).describe(), "Cln: rpc_path: /rpc");
    assert!(LightningType::Lnd(lnd).describe().starts_with("Lnd: grpc_host: "));
    assert_eq!(AlbyLightning::new("a".to_string()).client.api_key, "a");
    assert_eq!(StrikeLightning::new("b".to_string()).client.api_key, "b");
    let backend = LnbitsLightning::new("c".to_string(), "u".to_string());
    assert_eq!(backend.client.admin_key, "c");
    assert_eq!(backend.client.lnbits_url, "u");
    assert_eq!(LNBitsClient::new("x", "y").lnbits_url, "y");
}

/// A transport that answers the calls it gets with the replies it was given, in turn, and keeps
/// what it was asked.
struct Scripted {
    replies: RefCell<Vec<BackendReply>>,
    calls: RefCell<Vec<(HttpMethod, String, String)>>,
}

impl Scripted {
    fn new(mut replies: Vec<BackendReply>) -> Scripted {
        replies.reverse();
        Scripted { replies: RefCell::new(replies), calls: RefCell::new(vec![]) }
    }
}

impl Transport for Scripted {
    fn send(&self, call: &HttpCall) -> BackendReply {
        self.calls.borrow_mut().push((call.method, call.endpoint.clone(), call.body.clone()));
        self.replies.borrow_mut().pop().unwrap_or(BackendReply::Unreachable("no reply".to_string()))
    }
}

fn wallet(backend: RestBackend, replies: Vec<BackendReply>) -> Wallet<Scripted> {
    Wallet { backend, transport: Scripted::new(replies) }
}

#[test]
fn strike_wallet_quotes_once_then_executes_once() {
    let completed = format!("{{\"state\":\"COMPLETED\",\"preimage\":\"{}\"}}", "5a".repeat(32));
    let w = wallet(
        RestBackend::Strike(StrikeLightning::new("k".to_string())),
        vec![answer(200, "{\"paymentQuoteId\":\"q-9\"}".to_string()), answer(200, completed)],
    );
    let paid = w.pay_invoice(INVOICE.to_string()).unwrap();
    assert_eq!(paid.payment_hash().as_str(), HASH);
    assert_eq!(paid.preimage(), &vec![0x5a; 32]);
    let calls = w.transport.calls.borrow();
    assert_eq!(calls.len(), 2);
    assert_eq!(calls[0].0, HttpMethod::Post);
    assert_eq!(calls[0].1, "v1/payment-quotes/lightning");
    assert_eq!(calls[0].2, format!("{{\"lnInvoice\":\"{}\",\"sourceCurrency\":\"BTC\"}}", INVOICE));
    assert_eq!(calls[1].0, HttpMethod::Patch);
    assert_eq!(calls[1].1, "v1/payment-quotes/q-9/execute");
}

#[test]
fn strike_wallet_stops_at_the_first_failure() {
    let w = wallet(RestBackend::Strike(StrikeLightning::new("k".to_string())), vec![answer(401, String::new())]);
    assert!(matches!(w.pay_invoice(INVOICE.to_string()), Err(PaymentError::Unauthorized)));
    assert_eq!(w.transport.calls.borrow().len(), 1);
    let w = wallet(
        RestBackend::Strike(StrikeLightning::new("k".to_string())),
        vec![answer(200, "{\"paymentQuoteId\":\"q\"}".to_string()), answer(200, "{\"state\":\"PENDING\"}".to_string())],
    );
    assert!(matches!(w.pay_invoice(INVOICE.to_string()), Err(PaymentError::NotCompleted)));
    assert_eq!(w.transport.calls.borrow().len(), 2);
    let w = wallet(
        RestBackend::Strike(StrikeLightning::new("k".to_string())),
        vec![answer(200, "{\"paymentQuoteId\":\"q\"}".to_string()), answer(200, "{\"state\":\"COMPLETED\"}".to_string())],
    );
    assert!(matches!(w.pay_invoice(INVOICE.to_string()), Err(PaymentError::InvalidResponse(_))));
}

#[test]
fn wallets_send_nothing_for_an_invoice_that_does_not_decode() {
    for backend in [
        RestBackend::Strike(StrikeLightning::new("k".to_string())),
        RestBackend::Alby(AlbyLightning::new("k".to_string())),
        RestBackend::Lnbits(LnbitsLightning::new("k".to_string(), "https://lnbits.example".to_string())),
    ] {
        let w = wallet(backend, vec![answer(200, "{}".to_string())]);
        assert!(matches!(w.pay_invoice("nonsense".to_string()), Err(PaymentError::InvalidInvoice)));
        assert!(w.transport.calls.borrow().is_empty());
    }
}

#[test]
fn one_call_wallets_pay_with_one_call() {
    let body = format!("{{\"payment_preimage\":\"{}\"}}", "11".repeat(32));
    let w = wallet(RestBackend::Alby(AlbyLightning::new("k".to_string())), vec![answer(200, body)]);
    let paid = w.pay_invoice(INVOICE.to_string()).unwrap();
    assert_eq!(paid.payment_hash().as_str(), HASH);
    assert_eq!(paid.into_preimage(), vec![0x11; 32]);
    assert_eq!(w.transport.calls.borrow().len(), 1);
    assert_eq!(w.transport.calls.borrow()[0].1, "payments/bolt11");
    let body = format!("{{\"preimage\":\"{}\"}}", "22".repeat(32));
    let w = wallet(
        RestBackend::Lnbits(LnbitsLightning::new("k".to_string(), "u".to_string())),
        vec![answer(201, body)],
    );
    let paid = w.pay_invoice(INVOICE.to_string()).unwrap();
    assert_eq!(paid.into_preimage(), vec![0x22; 32]);
    assert_eq!(w.transport.calls.borrow().len(), 1);
    assert_eq!(w.transport.calls.borrow()[0].1, "api/v1/payments");
    let w = wallet(RestBackend::Alby(AlbyLightning::new("k".to_string())), vec![]);
    assert!(matches!(w.pay_invoice(INVOICE.to_string()), Err(PaymentError::Transport(_))));
    let alby = AlbyLightning::new("k".to_string());
    assert_eq!(alby.begin_payment(INVOICE).unwrap().endpoint, "payments/bolt11");
    assert!(matches!(alby.begin_payment("x"), Err(PaymentError::InvalidInvoice)));
}
