use std::str::FromStr;

use candy_gate::issue::complete_invoice;
use candy_gate::issue::invoice_from_hash;
use candy_gate::issue::prepare_invoice;
use candy_gate::issue::select_gateway;
use candy_gate::issue::Gateway;
use candy_gate::issue::InvoiceRequest;
use candy_gate::issue::IssueError;
use candy_gate::issue::MAX_DESCRIPTION_BYTES;
use candy_gate::operation::resolve;
use candy_gate::operation::CorrelationKey;
use candy_gate::operation::OperationRecord;
use candy_gate::operation::OperationVariant;
use candy_gate::operation::ValidatedOperation;

const SAMPLE_INVOICE: &str = "lnbc100p1psj9jhxdqud3jxktt5w46x7unfv9kz6mn0v3jsnp4q0d3p2sfluzdx45tqcs\
h2pu5qc7lgq0xs578ngs6s0s68ua4h7cvspp5q6rmq35js88zp5dvwrv9m459tnk2zunwj5jalqtyxqulh0l\
5gflssp5nf55ny5gcrfl30xuhzj3nphgj27rstekmr9fw3ny5989s300gyus9qyysgqcqpcrzjqw2sxwe993\
h5pcm4dxzpvttgza8zhkqxpgffcrf5v25nwpr3cmfg7z54kuqq8rgqqqqqqqq2qqqqq9qq9qrzjqd0ylaqcl\
j9424x9m8h2vcukcgnm6s56xfgu3j78zyqzhgs4hlpzvznlugqq9vsqqqqqqqlgqqqqqeqq9qrzjqwldmj9d\
ha74df76zhx6l9we0vjdquygcdt3kssupehe64g6yyp5yz5rhuqqwccqqyqqqqlgqqqqjcqq9qrzjqf9e58a\
guqr0rcun0ajlvmzq3ek63cw2w282gv3z5uupmuwvgjtq2z55qsqqg6qqqyqqqrtnqqqzq3cqygrzjqvphms\
ywntrrhqjcraumvc4y6r8v4z5v593trte429v4hredj7ms5z52usqq9ngqqqqqqqlgqqqqqqgq9qrzjq2v0v\
p62g49p7569ev48cmulecsxe59lvaw3wlxm7r982zxa9zzj7z5l0cqqxusqqyqqqqlgqqqqqzsqygarl9fh3\
8s0gyuxjjgux34w75dnc6xp2l35j7es3jd4ugt3lu0xzre26yg5m7ke54n2d5sym4xcmxtl8238xxvw5h5h5\
j5r6drg6k6zcqj0fcwg";

fn gateway(id: &str) -> Gateway {
    Gateway { id: id.to_string() }
}

fn sample_hash() -> [u8; 32] {
    let invoice = lightning_invoice::Bolt11Invoice::from_str(SAMPLE_INVOICE).unwrap();
    *AsRef::<[u8; 32]>::as_ref(invoice.payment_hash())
}

fn request() -> InvoiceRequest {
    prepare_invoice(42_000, "candy", &vec![gateway("gw-a")]).unwrap()
}

#[test]
fn no_gateway_is_reported() {
    assert_eq!(select_gateway(&Vec::new()), Err(IssueError::NoGatewayAvailable));
    assert_eq!(
        prepare_invoice(1, "candy", &Vec::new()),
        Err(IssueError::NoGatewayAvailable)
    );
}

#[test]
fn first_gateway_is_selected() {
    let available = vec![gateway("gw-a"), gateway("gw-b"), gateway("gw-c")];
    assert_eq!(select_gateway(&available), Ok(gateway("gw-a")));
}

#[test]
fn gateway_is_checked_before_description() {
    let long = "x".repeat(MAX_DESCRIPTION_BYTES + 1);
    assert_eq!(prepare_invoice(1, &long, &Vec::new()), Err(IssueError::NoGatewayAvailable));
}

#[test]
fn description_at_the_limit_is_accepted() {
    let exact = "x".repeat(MAX_DESCRIPTION_BYTES);
    let req = prepare_invoice(5, &exact, &vec![gateway("gw")]).unwrap();
    assert_eq!(req.description, exact);
    assert_eq!(req.amount_msats, 5);
    assert_eq!(req.gateway, gateway("gw"));
}

#[test]
fn description_over_the_limit_is_invalid() {
    let long = "x".repeat(MAX_DESCRIPTION_BYTES + 1);
    assert_eq!(
        prepare_invoice(5, &long, &vec![gateway("gw")]),
        Err(IssueError::InvalidDescription)
    );
}

#[test]
fn description_limit_counts_bytes_not_characters() {
    let wide = "\u{e9}".repeat(320);
    assert_eq!(wide.chars().count(), 320);
    assert_eq!(
        prepare_invoice(5, &wide, &vec![gateway("gw")]),
        Err(IssueError::InvalidDescription)
    );
    let fits = "\u{e9}".repeat(319);
    assert!(prepare_invoice(5, &fits, &vec![gateway("gw")]).is_ok());
}

#[test]
fn backend_failure_is_passed_through() {
    assert_eq!(
        complete_invoice(request(), Err("federation unreachable".to_string())),
        Err(IssueError::Backend { detail: "federation unreachable".to_string() })
    );
}

#[test]
fn unparsable_invoice_is_malformed() {
    assert_eq!(
        complete_invoice(request(), Ok("lnbc-not-an-invoice".to_string())),
        Err(IssueError::MalformedInvoice)
    );
    assert_eq!(
        invoice_from_hash(request(), "anything".to_string(), None),
        Err(IssueError::MalformedInvoice)
    );
}

#[test]
fn invoice_key_is_its_payment_hash() {
    let inv = complete_invoice(request(), Ok(SAMPLE_INVOICE.to_string())).unwrap();
    let hash = sample_hash();
    assert_eq!(inv.key, CorrelationKey::from_payment_hash(hash));
    assert_ne!(inv.key.bytes, [0u8; 32]);
    assert_eq!(inv.amount_msats, 42_000);
    assert_eq!(inv.description, "candy");
    assert_eq!(inv.gateway, gateway("gw-a"));
    assert_eq!(inv.encoded, SAMPLE_INVOICE);
}

#[test]
fn invoice_from_hash_keeps_the_request() {
    let inv = invoice_from_hash(request(), "encoded".to_string(), Some([9u8; 32])).unwrap();
    assert_eq!(inv.key.bytes, [9u8; 32]);
    assert_eq!(inv.amount_msats, 42_000);
    assert_eq!(inv.encoded, "encoded");
}

#[test]
fn issued_invoice_resolves() {
    let inv = complete_invoice(request(), Ok(SAMPLE_INVOICE.to_string())).unwrap();
    let registered = Some(OperationRecord { kind: "ln".to_string(), variant: OperationVariant::Receive });
    assert_eq!(resolve(inv.key, &registered), Ok(ValidatedOperation { key: inv.key }));
}
