//! Use the Invoicing API to create, send, and manage invoices.
//!
//! Reference: <https://developer.paypal.com/docs/api/invoicing/v2/>

use vstd::prelude::*;

verus! {

use vstd::string::StringExecFns;
use crate::data::orders::InvoiceNumber;
use crate::endpoint::{Endpoint, Method};
use crate::invoice::{CancelReason, Invoice, InvoiceList, InvoicePayload, SendInvoicePayload};
use crate::querystr::{join_pairs, spec_join_pairs, spec_pair_views};
use crate::spec_bool_str;
use crate::strutil::{path_join, path_join3};
use crate::Query;

/// Generates the next invoice number that is available to the merchant.
///
/// The next invoice number uses the prefix and suffix from the last invoice
/// number and increments the number by one.
#[derive(Debug, Clone)]
pub struct GenerateInvoiceNumber {
    /// The invoice number. If you omit this value, the default is the
    /// auto-incremented number from the last number.
    pub invoice_number: Option<InvoiceNumber>,
}

impl GenerateInvoiceNumber {
    /// New constructor.
    pub fn new(invoice_number: Option<InvoiceNumber>) -> (r: Self)
        ensures
            r.invoice_number == invoice_number,
    {
        Self { invoice_number }
    }
}


impl Endpoint for GenerateInvoiceNumber {
    type Query = ();

    type Body = Option<InvoiceNumber>;

    type Response = InvoiceNumber;

    open spec fn spec_path(&self) -> Seq<char> {
        "/v2/invoicing/generate-next-invoice-number"@
    }

    open spec fn spec_method(&self) -> Method {
        Method::Post
    }

    open spec fn spec_query_string(&self) -> Option<Seq<char>> {
        None
    }

    open spec fn spec_query(&self) -> Option<()> {
        None
    }

    open spec fn spec_body(&self) -> Option<Option<InvoiceNumber>> {
        Some(self.invoice_number)
    }

    fn relative_path(&self) -> (r: String) {
        proof {
            reveal_strlit("/v2/invoicing/generate-next-invoice-number");
        }
        String::from_str("/v2/invoicing/generate-next-invoice-number")
    }

    fn method(&self) -> (r: Method) {
        Method::Post
    }

    fn query_string(&self) -> (r: Option<String>) {
        None
    }

    fn query<'a>(&'a self) -> (r: Option<&'a ()>) {
        None
    }

    fn body<'a>(&'a self) -> (r: Option<&'a Option<InvoiceNumber>>) {
        Some(&self.invoice_number)
    }
}

/// Creates a draft invoice. To move the invoice from a draft to payable
/// state, you must send the invoice. The invoice object must include an items
/// array.
#[derive(Debug, Clone)]
pub struct CreateDraftInvoice {
    /// The invoice details.
    pub invoice: InvoicePayload,
}

impl CreateDraftInvoice {
    /// New constructor.
    pub fn new(invoice: InvoicePayload) -> (r: Self)
        ensures
            r.invoice == invoice,
    {
        Self { invoice }
    }
}


impl Endpoint for CreateDraftInvoice {
    type Query = ();

    type Body = InvoicePayload;

    type Response = Invoice;

    open spec fn spec_path(&self) -> Seq<char> {
        "/v2/invoicing/invoices"@
    }

    open spec fn spec_method(&self) -> Method {
        Method::Post
    }

    open spec fn spec_query_string(&self) -> Option<Seq<char>> {
        None
    }

    open spec fn spec_query(&self) -> Option<()> {
        None
    }

    open spec fn spec_body(&self) -> Option<InvoicePayload> {
        Some(self.invoice)
    }

    fn relative_path(&self) -> (r: String) {
        proof {
            reveal_strlit("/v2/invoicing/invoices");
        }
        String::from_str("/v2/invoicing/invoices")
    }

    fn method(&self) -> (r: Method) {
        Method::Post
    }

    fn query_string(&self) -> (r: Option<String>) {
        None
    }

    fn query<'a>(&'a self) -> (r: Option<&'a ()>) {
        None
    }

    fn body<'a>(&'a self) -> (r: Option<&'a InvoicePayload>) {
        Some(&self.invoice)
    }
}

/// Shows details for an invoice, by ID.
#[derive(Debug, Clone)]
pub struct GetInvoice {
    /// The invoice id.
    pub invoice_id: String,
}

impl GetInvoice {
    /// New constructor.
    pub fn new(invoice_id: &str) -> (r: Self)
        ensures
            r.invoice_id@ == invoice_id@,
    {
        Self { invoice_id: invoice_id.to_owned() }
    }
}


impl Endpoint for GetInvoice {
    type Query = ();

    type Body = ();

    type Response = Invoice;

    open spec fn spec_path(&self) -> Seq<char> {
        "/v2/invoicing/invoices/"@ + self.invoice_id@
    }

    open spec fn spec_method(&self) -> Method {
        Method::Get
    }

    open spec fn spec_query_string(&self) -> Option<Seq<char>> {
        None
    }

    open spec fn spec_query(&self) -> Option<()> {
        None
    }

    open spec fn spec_body(&self) -> Option<()> {
        None
    }

    fn relative_path(&self) -> (r: String) {
        proof {
            reveal_strlit("/v2/invoicing/invoices/");
        }
        path_join("/v2/invoicing/invoices/", self.invoice_id.as_str())
    }

    fn method(&self) -> (r: Method) {
        Method::Get
    }

    fn query_string(&self) -> (r: Option<String>) {
        None
    }

    fn query<'a>(&'a self) -> (r: Option<&'a ()>) {
        None
    }

    fn body<'a>(&'a self) -> (r: Option<&'a ()>) {
        None
    }
}

/// Lists invoices. To filter the invoices that appear in the response, you
/// can specify one or more optional query parameters. Page size has the
/// following limits: [1, 100].
#[derive(Debug, Clone)]
pub struct ListInvoices {
    /// The endpoint query.
    pub query: Query,
}

impl ListInvoices {
    /// New constructor.
    pub fn new(query: Query) -> (r: Self)
        ensures
            r.query == query,
    {
        Self { query }
    }
}


impl Endpoint for ListInvoices {
    type Query = Query;

    type Body = ();

    type Response = InvoiceList;

    open spec fn spec_path(&self) -> Seq<char> {
        "/v2/invoicing/invoices"@
    }

    open spec fn spec_method(&self) -> Method {
        Method::Get
    }

    open spec fn spec_query_string(&self) -> Option<Seq<char>> {
        Some(self.query.spec_query_string())
    }

    open spec fn spec_query(&self) -> Option<Query> {
        Some(self.query)
    }

    open spec fn spec_body(&self) -> Option<()> {
        None
    }

    fn relative_path(&self) -> (r: String) {
        proof {
            reveal_strlit("/v2/invoicing/invoices");
        }
        String::from_str("/v2/invoicing/invoices")
    }

    fn method(&self) -> (r: Method) {
        Method::Get
    }

    fn query_string(&self) -> (r: Option<String>) {
        Some(self.query.to_query_string())
    }

    fn query<'a>(&'a self) -> (r: Option<&'a Query>) {
        Some(&self.query)
    }

    fn body<'a>(&'a self) -> (r: Option<&'a ()>) {
        None
    }
}

/// Deletes a draft or scheduled invoice, by ID. Deletes invoices in the
/// draft or scheduled state only. For invoices that have already been sent,
/// you can cancel the invoice.
#[derive(Debug, Clone)]
pub struct DeleteInvoice {
    /// The invoice id.
    pub invoice_id: String,
}

impl DeleteInvoice {
    /// New constructor.
    pub fn new(invoice_id: &str) -> (r: Self)
        ensures
            r.invoice_id@ == invoice_id@,
    {
        Self { invoice_id: invoice_id.to_owned() }
    }
}


impl Endpoint for DeleteInvoice {
    type Query = Query;

    type Body = ();

    type Response = ();

    open spec fn spec_path(&self) -> Seq<char> {
        "/v2/invoicing/invoices/"@ + self.invoice_id@
    }

    open spec fn spec_method(&self) -> Method {
        Method::Delete
    }

    open spec fn spec_query_string(&self) -> Option<Seq<char>> {
        None
    }

    open spec fn spec_query(&self) -> Option<Query> {
        None
    }

    open spec fn spec_body(&self) -> Option<()> {
        None
    }

    fn relative_path(&self) -> (r: String) {
        proof {
            reveal_strlit("/v2/invoicing/invoices/");
        }
        path_join("/v2/invoicing/invoices/", self.invoice_id.as_str())
    }

    fn method(&self) -> (r: Method) {
        Method::Delete
    }

    fn query_string(&self) -> (r: Option<String>) {
        None
    }

    fn query<'a>(&'a self) -> (r: Option<&'a Query>) {
        None
    }

    fn body<'a>(&'a self) -> (r: Option<&'a ()>) {
        None
    }
}

/// The update invoice query.
#[derive(Debug, Clone)]
pub struct UpdateInvoiceQuery {
    /// Indicates whether to send the invoice update notification to the
    /// recipient.
    pub send_to_recipient: bool,
    /// Indicates whether to send the invoice update notification to the
    /// merchant.
    pub send_to_invoicer: bool,
}

impl UpdateInvoiceQuery {
    /// The serialized query string of this query: both flags, in order.
    pub open spec fn spec_query_string(self) -> Seq<char> {
        spec_join_pairs(
            seq![
                ("send_to_recipient"@, spec_bool_str(self.send_to_recipient)),
                ("send_to_invoicer"@, spec_bool_str(self.send_to_invoicer)),
            ],
        )
    }

    /// Serializes the query, exactly as
    /// [`UpdateInvoiceQuery::spec_query_string`] says.
    pub fn to_query_string(&self) -> (r: String)
        ensures
            r@ == self.spec_query_string(),
    {
        let mut ps: Vec<(String, String)> = Vec::new();
        let rv = if self.send_to_recipient {
            String::from_str("true")
        } else {
            String::from_str("false")
        };
        ps.push((String::from_str("send_to_recipient"), rv));
        let iv = if self.send_to_invoicer {
            String::from_str("true")
        } else {
            String::from_str("false")
        };
        ps.push((String::from_str("send_to_invoicer"), iv));
        proof {
            assert(spec_pair_views(ps@) =~= seq![
                ("send_to_recipient"@, spec_bool_str(self.send_to_recipient)),
                ("send_to_invoicer"@, spec_bool_str(self.send_to_invoicer)),
            ]);
        }
        join_pairs(&ps)
    }
}

/// Fully updates an invoice, by ID. The JSON request body must include a
/// complete invoice object. This call does not support partial updates.
#[derive(Debug, Clone)]
pub struct UpdateInvoice {
    /// The updated invoice object.
    pub invoice: Invoice,
    /// The update invoice query.
    pub query: UpdateInvoiceQuery,
}

impl UpdateInvoice {
    /// New constructor.
    pub fn new(invoice: Invoice, query: UpdateInvoiceQuery) -> (r: Self)
        ensures
            r.invoice == invoice,
            r.query == query,
    {
        Self { invoice, query }
    }
}


impl Endpoint for UpdateInvoice {
    type Query = UpdateInvoiceQuery;

    type Body = Invoice;

    type Response = Invoice;

    open spec fn spec_path(&self) -> Seq<char> {
        "/v2/invoicing/invoices/"@ + self.invoice.id@
    }

    open spec fn spec_method(&self) -> Method {
        Method::Put
    }

    open spec fn spec_query_string(&self) -> Option<Seq<char>> {
        Some(self.query.spec_query_string())
    }

    open spec fn spec_query(&self) -> Option<UpdateInvoiceQuery> {
        Some(self.query)
    }

    open spec fn spec_body(&self) -> Option<Invoice> {
        Some(self.invoice)
    }

    fn relative_path(&self) -> (r: String) {
        proof {
            reveal_strlit("/v2/invoicing/invoices/");
        }
        path_join("/v2/invoicing/invoices/", self.invoice.id.as_str())
    }

    fn method(&self) -> (r: Method) {
        Method::Put
    }

    fn query_string(&self) -> (r: Option<String>) {
        Some(self.query.to_query_string())
    }

    fn query<'a>(&'a self) -> (r: Option<&'a UpdateInvoiceQuery>) {
        Some(&self.query)
    }

    fn body<'a>(&'a self) -> (r: Option<&'a Invoice>) {
        Some(&self.invoice)
    }
}

/// Cancels a sent invoice, by ID, and, optionally, sends a notification
/// about the cancellation to the payer, merchant, and CC: emails.
#[derive(Debug, Clone)]
pub struct CancelInvoice {
    /// The invoice id.
    pub invoice_id: String,
    /// The reason of the cancellation.
    pub reason: CancelReason,
}

impl CancelInvoice {
    /// New constructor.
    pub fn new(invoice_id: &str, reason: CancelReason) -> (r: Self)
        ensures
            r.invoice_id@ == invoice_id@,
            r.reason == reason,
    {
        Self { invoice_id: invoice_id.to_owned(), reason }
    }
}


impl Endpoint for CancelInvoice {
    type Query = ();

    type Body = CancelReason;

    type Response = ();

    open spec fn spec_path(&self) -> Seq<char> {
        "/v2/invoicing/invoices/"@ + self.invoice_id@ + "/cancel"@
    }

    open spec fn spec_method(&self) -> Method {
        Method::Post
    }

    open spec fn spec_query_string(&self) -> Option<Seq<char>> {
        None
    }

    open spec fn spec_query(&self) -> Option<()> {
        None
    }

    open spec fn spec_body(&self) -> Option<CancelReason> {
        Some(self.reason)
    }

    fn relative_path(&self) -> (r: String) {
        proof {
            reveal_strlit("/v2/invoicing/invoices/");
        }
        path_join3("/v2/invoicing/invoices/", self.invoice_id.as_str(), "/cancel")
    }

    fn method(&self) -> (r: Method) {
        Method::Post
    }

    fn query_string(&self) -> (r: Option<String>) {
        None
    }

    fn query<'a>(&'a self) -> (r: Option<&'a ()>) {
        None
    }

    fn body<'a>(&'a self) -> (r: Option<&'a CancelReason>) {
        Some(&self.reason)
    }
}

/// Sends or schedules an invoice, by ID, to be sent to a customer.
#[derive(Debug, Clone)]
pub struct SendInvoice {
    /// The invoice id.
    pub invoice_id: String,
    /// The payload.
    pub payload: SendInvoicePayload,
}

impl SendInvoice {
    /// New constructor.
    pub fn new(invoice_id: &str, payload: SendInvoicePayload) -> (r: Self)
        ensures
            r.invoice_id@ == invoice_id@,
            r.payload == payload,
    {
        Self { invoice_id: invoice_id.to_owned(), payload }
    }
}


impl Endpoint for SendInvoice {
    type Query = ();

    type Body = SendInvoicePayload;

    type Response = ();

    open spec fn spec_path(&self) -> Seq<char> {
        "/v2/invoicing/invoices/"@ + self.invoice_id@ + "/send"@
    }

    open spec fn spec_method(&self) -> Method {
        Method::Post
    }

    open spec fn spec_query_string(&self) -> Option<Seq<char>> {
        None
    }

    open spec fn spec_query(&self) -> Option<()> {
        None
    }

    open spec fn spec_body(&self) -> Option<SendInvoicePayload> {
        Some(self.payload)
    }

    fn relative_path(&self) -> (r: String) {
        proof {
            reveal_strlit("/v2/invoicing/invoices/");
        }
        path_join3("/v2/invoicing/invoices/", self.invoice_id.as_str(), "/send")
    }

    fn method(&self) -> (r: Method) {
        Method::Post
    }

    fn query_string(&self) -> (r: Option<String>) {
        None
    }

    fn query<'a>(&'a self) -> (r: Option<&'a ()>) {
        None
    }

    fn body<'a>(&'a self) -> (r: Option<&'a SendInvoicePayload>) {
        Some(&self.payload)
    }
}

} // verus!
