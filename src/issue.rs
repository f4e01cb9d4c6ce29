//! Invoice issuance: gateway selection, request validation, and the
//! completion of an invoice from what the backend created.

use vstd::prelude::*;
use vstd::string::StringSliceAdditionalSpecFns;
use crate::operation::CorrelationKey;
use crate::operation::OperationRecord;
use crate::operation::ResolveError;
use crate::operation::ValidatedOperation;
use crate::operation::payment_kind;
use crate::operation::resolution_of;

verus! {

/// The longest description, in UTF-8 bytes, that an invoice can carry.
pub const MAX_DESCRIPTION_BYTES: usize = 639;

/// A routing gateway reported by the backend, by its identifier.
#[derive(Debug, PartialEq, Eq)]
pub struct Gateway {
    pub id: String,
}

impl Clone for Gateway {
    fn clone(&self) -> (r: Self)
        ensures
            r == *self,
    {
        Gateway { id: self.id.clone() }
    }
}

/// Why no invoice was issued.
#[derive(Debug, PartialEq, Eq)]
pub enum IssueError {
    /// The backend reports no gateway.
    NoGatewayAvailable,
    /// The description is longer than an invoice can carry.
    InvalidDescription,
    /// The backend failed to create the invoice; its message is kept.
    Backend { detail: String },
    /// The backend returned an invoice that does not parse.
    MalformedInvoice,
}

/// A validated request, ready to hand to the backend.
#[derive(Debug, PartialEq, Eq)]
pub struct InvoiceRequest {
    pub amount_msats: u64,
    pub description: String,
    pub gateway: Gateway,
}

/// An issued invoice: what was asked for, the gateway it is bound to, the key
/// under which its payment is tracked, and its encoded form.
#[derive(Debug, PartialEq, Eq)]
pub struct Invoice {
    pub amount_msats: u64,
    pub description: String,
    pub gateway: Gateway,
    pub key: CorrelationKey,
    pub encoded: String,
}

/// The payment hash that the encoded invoice `encoded` carries, or `None` when
/// it is no valid invoice.
pub uninterp spec fn payment_hash_of(encoded: Seq<char>) -> Option<Seq<u8>>;

/// Whether `description` fits in an invoice.
pub open spec fn description_fits(description: &str) -> bool {
    description.spec_bytes().len() <= MAX_DESCRIPTION_BYTES
}

/// Relies on `lightning_invoice::Description::new`: it accepts a description
/// exactly when it is at most 639 bytes long.
#[verifier::external_body]
fn description_accepted(description: &str) -> (r: bool)
    ensures
        r == description_fits(description),
{
    lightning_invoice::Description::new(description.to_owned()).is_ok()
}

/// Relies on parsing a `lightning_invoice::Bolt11Invoice` and reading its
/// `payment_hash`: the result depends on the text alone.
#[verifier::external_body]
fn bolt11_payment_hash(encoded: &str) -> (r: Option<[u8; 32]>)
    ensures
        match r {
            Some(h) => payment_hash_of(encoded@) == Some(h@),
            None => payment_hash_of(encoded@) is None,
        },
{
    match encoded.parse::<lightning_invoice::Bolt11Invoice>() {
        Ok(invoice) => Some(*AsRef::<[u8; 32]>::as_ref(invoice.payment_hash())),
        Err(_) => None,
    }
}

/// Picks the first gateway that the backend reports.
pub fn select_gateway(available: &Vec<Gateway>) -> (r: Result<Gateway, IssueError>)
    ensures
        available@.len() == 0 ==> r == Err::<Gateway, IssueError>(IssueError::NoGatewayAvailable),
        available@.len() > 0 ==> r == Ok::<Gateway, IssueError>(available@[0]),
{
    if available.len() == 0 {
        Err(IssueError::NoGatewayAvailable)
    } else {
        Ok(available[0].clone())
    }
}

/// `req` asks for `amount_msats` with `description` through `gateway`.
pub open spec fn requests(
    req: InvoiceRequest,
    amount_msats: u64,
    description: Seq<char>,
    gateway: Gateway,
) -> bool {
    &&& req.amount_msats == amount_msats
    &&& req.description@ == description
    &&& req.gateway == gateway
}

/// `inv` is the invoice for `req` that the backend encoded as `encoded`,
/// whose payment hash is `hash`.
pub open spec fn issued_for(inv: Invoice, req: InvoiceRequest, encoded: Seq<char>, hash: Seq<u8>) -> bool {
    &&& inv.amount_msats == req.amount_msats
    &&& inv.description == req.description
    &&& inv.gateway == req.gateway
    &&& inv.key.bytes@ == hash
    &&& inv.encoded@ == encoded
}

/// Validates a request for an invoice of `amount_msats` with `description`,
/// bound to the first gateway in `available`.
pub fn prepare_invoice(amount_msats: u64, description: &str, available: &Vec<Gateway>) -> (r: Result<
    InvoiceRequest,
    IssueError,
>)
    requires
        amount_msats > 0,
    ensures
        available@.len() == 0 ==> r == Err::<InvoiceRequest, IssueError>(
            IssueError::NoGatewayAvailable,
        ),
        available@.len() > 0 && !description_fits(description) ==> r == Err::<
            InvoiceRequest,
            IssueError,
        >(IssueError::InvalidDescription),
        available@.len() > 0 && description_fits(description) ==> (r matches Ok(req) && requests(
            req,
            amount_msats,
            description@,
            available@[0],
        )),
{
    let gateway = match select_gateway(available) {
        Ok(g) => g,
        Err(e) => return Err(e),
    };
    if !description_accepted(description) {
        return Err(IssueError::InvalidDescription);
    }
    Ok(InvoiceRequest { amount_msats, description: description.to_owned(), gateway })
}

/// Builds the invoice for `req` from the encoded invoice that the backend
/// created and the payment hash read from it (`None` when it did not parse).
pub fn invoice_from_hash(req: InvoiceRequest, encoded: String, hash: Option<[u8; 32]>) -> (r: Result<
    Invoice,
    IssueError,
>)
    ensures
        hash is None ==> r == Err::<Invoice, IssueError>(IssueError::MalformedInvoice),
        hash matches Some(h) ==> (r matches Ok(inv) && issued_for(inv, req, encoded@, h@)),
{
    match hash {
        None => Err(IssueError::MalformedInvoice),
        Some(h) => Ok(
            Invoice {
                amount_msats: req.amount_msats,
                description: req.description,
                gateway: req.gateway,
                key: CorrelationKey::from_payment_hash(h),
                encoded,
            },
        ),
    }
}

/// Completes issuance from the backend's answer to `req`: the encoded invoice
/// it created, or its error message, which is passed through.
pub fn complete_invoice(req: InvoiceRequest, created: Result<String, String>) -> (r: Result<
    Invoice,
    IssueError,
>)
    ensures
        match created {
            Err(detail) => r == Err::<Invoice, IssueError>(IssueError::Backend { detail }),
            Ok(encoded) => match payment_hash_of(encoded@) {
                None => r == Err::<Invoice, IssueError>(IssueError::MalformedInvoice),
                Some(h) => r matches Ok(inv) && issued_for(inv, req, encoded@, h),
            },
        },
{
    match created {
        Err(detail) => Err(IssueError::Backend { detail }),
        Ok(encoded) => {
            let hash = bolt11_payment_hash(encoded.as_str());
            invoice_from_hash(req, encoded, hash)
        },
    }
}

/// An invoice issued for a request resolves: the record that the backend
/// registers for it, an incoming payment of the payment module, validates
/// under the invoice's key.
pub proof fn lemma_issued_invoice_resolves(
    inv: Invoice,
    req: InvoiceRequest,
    encoded: Seq<char>,
    hash: Seq<u8>,
    registered: OperationRecord,
)
    requires
        issued_for(inv, req, encoded, hash),
        registered.kind@ == payment_kind(),
        registered.variant is Receive,
    ensures
        resolution_of(inv.key, Some(registered)) == Ok::<ValidatedOperation, ResolveError>(
            ValidatedOperation { key: inv.key },
        ),
        inv.key.bytes@ == hash,
{
}

} // verus!
