//! Use the Invoicing API to create, send, and manage invoices.
//! When you send an invoice to a customer, the invoice moves from draft to
//! payable state; PayPal then emails the customer a link to the invoice.
//!
//! Reference: <https://developer.paypal.com/docs/api/invoicing/v2/>

use vstd::prelude::*;

verus! {

use vstd::string::StringExecFns;
use crate::data::common::{Address, Currency, LinkDescription, Money, PhoneType};
use crate::json::{
    get_arr_of, get_obj, get_opt_arr_of, get_opt_obj, spec_arr_decodable, spec_arr_matches,
    spec_obj_decodable, spec_obj_get, spec_obj_matches, spec_opt_arr_decodable,
    spec_opt_arr_matches, spec_opt_obj_decodable, spec_opt_obj_matches, FromJson, Json,
};
use crate::strutil::str_eq;

/// QR pay action.
pub const QR_ACTION_PAY: &'static str = "pay";

/// QR details action.
pub const QR_ACTION_DETAILS: &'static str = "details";

/// A PayPal file reference.
#[derive(Debug, Clone)]
pub struct FileReference {
    /// The ID of the referenced file.
    pub id: String,
    /// The reference URL for the file.
    pub reference_url: String,
    /// The content type.
    pub content_type: String,
    /// The date and time when the file was created, as RFC 3339 text.
    pub create_time: String,
    /// The size of the file, in bytes.
    pub size: String,
}

impl FromJson for FileReference {
    /// A PayPal file reference.
    open spec fn spec_decodable(j: Json) -> bool {
        &&& j.spec_field_string("id"@) is Some
        &&& j.spec_field_string("reference_url"@) is Some
        &&& j.spec_field_string("content_type"@) is Some
        &&& j.spec_field_string("create_time"@) is Some
        &&& j.spec_field_string("size"@) is Some
    }

    open spec fn spec_matches(self, j: Json) -> bool {
        &&& Some(self.id) == j.spec_field_string("id"@)
        &&& Some(self.reference_url) == j.spec_field_string("reference_url"@)
        &&& Some(self.content_type) == j.spec_field_string("content_type"@)
        &&& Some(self.create_time) == j.spec_field_string("create_time"@)
        &&& Some(self.size) == j.spec_field_string("size"@)
    }

    fn from_json(j: &Json) -> (r: Option<FileReference>)
        ensures
            match r {
                Some(v) => Self::spec_decodable(*j) && v.spec_matches(*j),
                None => !Self::spec_decodable(*j),
            },
    {
        let id = match j.get_str("id") {
            Some(v) => v,
            None => {
                return None;
            },
        };
        let reference_url = match j.get_str("reference_url") {
            Some(v) => v,
            None => {
                return None;
            },
        };
        let content_type = match j.get_str("content_type") {
            Some(v) => v,
            None => {
                return None;
            },
        };
        let create_time = match j.get_str("create_time") {
            Some(v) => v,
            None => {
                return None;
            },
        };
        let size = match j.get_str("size") {
            Some(v) => v,
            None => {
                return None;
            },
        };
        Some(FileReference { id, reference_url, content_type, create_time, size })
    }
}

/// The payment term type.
#[derive(Debug, Clone, Copy, PartialEq, Eq)]
pub enum PaymentTermType {
    /// The payment for the invoice is due upon receipt of the invoice.
    DueOnReceipt,
    /// The payment for the invoice is due on the date specified in the invoice.
    DueOnDateSpecified,
    /// The payment for the invoice is due in 10 days.
    Net10,
    /// The payment for the invoice is due in 15 days.
    Net15,
    /// The payment for the invoice is due in 30 days.
    Net30,
    /// The payment for the invoice is due in 45 days.
    Net45,
    /// The payment for the invoice is due in 60 days.
    Net60,
    /// The payment for the invoice is due in 90 days.
    Net90,
    /// The invoice has no payment due date.
    NoDueDate,
}

impl PaymentTermType {
    /// The wire name of this value.
    pub open spec fn spec_code(self) -> Seq<char> {
        match self {
            PaymentTermType::DueOnReceipt => "DUE_ON_RECEIPT"@,
            PaymentTermType::DueOnDateSpecified => "DUE_ON_DATE_SPECIFIED"@,
            PaymentTermType::Net10 => "NET_10"@,
            PaymentTermType::Net15 => "NET_15"@,
            PaymentTermType::Net30 => "NET_30"@,
            PaymentTermType::Net45 => "NET_45"@,
            PaymentTermType::Net60 => "NET_60"@,
            PaymentTermType::Net90 => "NET_90"@,
            PaymentTermType::NoDueDate => "NO_DUE_DATE"@,
        }
    }

    /// The value a wire name names, if any.
    pub open spec fn spec_from_code(s: Seq<char>) -> Option<PaymentTermType> {
        if s == "DUE_ON_RECEIPT"@ {
            Some(PaymentTermType::DueOnReceipt)
        } else if s == "DUE_ON_DATE_SPECIFIED"@ {
            Some(PaymentTermType::DueOnDateSpecified)
        } else if s == "NET_10"@ {
            Some(PaymentTermType::Net10)
        } else if s == "NET_15"@ {
            Some(PaymentTermType::Net15)
        } else if s == "NET_30"@ {
            Some(PaymentTermType::Net30)
        } else if s == "NET_45"@ {
            Some(PaymentTermType::Net45)
        } else if s == "NET_60"@ {
            Some(PaymentTermType::Net60)
        } else if s == "NET_90"@ {
            Some(PaymentTermType::Net90)
        } else if s == "NO_DUE_DATE"@ {
            Some(PaymentTermType::NoDueDate)
        } else {
            None
        }
    }

    /// Renders the wire name of this value.
    pub fn to_string(&self) -> (r: String)
        ensures
            r@ == self.spec_code(),
    {
        match self {
            PaymentTermType::DueOnReceipt => String::from_str("DUE_ON_RECEIPT"),
            PaymentTermType::DueOnDateSpecified => String::from_str("DUE_ON_DATE_SPECIFIED"),
            PaymentTermType::Net10 => String::from_str("NET_10"),
            PaymentTermType::Net15 => String::from_str("NET_15"),
            PaymentTermType::Net30 => String::from_str("NET_30"),
            PaymentTermType::Net45 => String::from_str("NET_45"),
            PaymentTermType::Net60 => String::from_str("NET_60"),
            PaymentTermType::Net90 => String::from_str("NET_90"),
            PaymentTermType::NoDueDate => String::from_str("NO_DUE_DATE"),
        }
    }

    /// Parses a wire name.
    pub fn from_code(s: &str) -> (r: Option<PaymentTermType>)
        ensures
            r == Self::spec_from_code(s@),
    {
        if str_eq(s, "DUE_ON_RECEIPT") {
            Some(PaymentTermType::DueOnReceipt)
        } else if str_eq(s, "DUE_ON_DATE_SPECIFIED") {
            Some(PaymentTermType::DueOnDateSpecified)
        } else if str_eq(s, "NET_10") {
            Some(PaymentTermType::Net10)
        } else if str_eq(s, "NET_15") {
            Some(PaymentTermType::Net15)
        } else if str_eq(s, "NET_30") {
            Some(PaymentTermType::Net30)
        } else if str_eq(s, "NET_45") {
            Some(PaymentTermType::Net45)
        } else if str_eq(s, "NET_60") {
            Some(PaymentTermType::Net60)
        } else if str_eq(s, "NET_90") {
            Some(PaymentTermType::Net90)
        } else if str_eq(s, "NO_DUE_DATE") {
            Some(PaymentTermType::NoDueDate)
        } else {
            None
        }
    }
}

impl FromJson for PaymentTermType {
    /// A string naming one of the values.
    open spec fn spec_decodable(j: Json) -> bool {
        match j {
            Json::Str(s) => Self::spec_from_code(s@) is Some,
            _ => false,
        }
    }

    open spec fn spec_matches(self, j: Json) -> bool {
        match j {
            Json::Str(s) => Self::spec_from_code(s@) == Some(self),
            _ => false,
        }
    }

    fn from_json(j: &Json) -> (r: Option<PaymentTermType>)
        ensures
            match r {
                Some(v) => Self::spec_decodable(*j) && v.spec_matches(*j),
                None => !Self::spec_decodable(*j),
            },
    {
        match j {
            Json::Str(s) => PaymentTermType::from_code(s.as_str()),
            _ => None,
        }
    }
}

/// The payment due date for the invoice.
#[derive(Debug, Clone)]
pub struct PaymentTerm {
    /// The payment term.
    pub term_type: PaymentTermType,
    /// The date when the invoice payment is due, as YYYY-MM-DD text.
    pub due_date: Option<String>,
}

impl FromJson for PaymentTerm {
    /// The payment due date for the invoice.
    open spec fn spec_decodable(j: Json) -> bool {
        &&& spec_obj_decodable::<PaymentTermType>(j, "term_type"@)
        &&& j.spec_field_opt_string("due_date"@) is Some
    }

    open spec fn spec_matches(self, j: Json) -> bool {
        &&& spec_obj_matches(self.term_type, j, "term_type"@)
        &&& Some(self.due_date) == j.spec_field_opt_string("due_date"@)
    }

    fn from_json(j: &Json) -> (r: Option<PaymentTerm>)
        ensures
            match r {
                Some(v) => Self::spec_decodable(*j) && v.spec_matches(*j),
                None => !Self::spec_decodable(*j),
            },
    {
        let term_type = match get_obj::<PaymentTermType>(j, "term_type") {
            Some(v) => v,
            None => {
                return None;
            },
        };
        let due_date = match j.get_opt_str("due_date") {
            Some(v) => v,
            None => {
                return None;
            },
        };
        Some(PaymentTerm { term_type, due_date })
    }
}

/// The flow variation.
#[derive(Debug, Clone, Copy, PartialEq, Eq)]
pub enum FlowType {
    /// The invoice sent to multiple recipients.
    MultipleRecipientsGroup,
    /// The invoice sent as a batch.
    Batch,
    /// The regular invoice sent to a single recipient.
    RegularSingle,
}

impl FlowType {
    /// The wire name of this value.
    pub open spec fn spec_code(self) -> Seq<char> {
        match self {
            FlowType::MultipleRecipientsGroup => "MULTIPLE_RECIPIENTS_GROUP"@,
            FlowType::Batch => "BATCH"@,
            FlowType::RegularSingle => "REGULAR_SINGLE"@,
        }
    }

    /// The value a wire name names, if any.
    pub open spec fn spec_from_code(s: Seq<char>) -> Option<FlowType> {
        if s == "MULTIPLE_RECIPIENTS_GROUP"@ {
            Some(FlowType::MultipleRecipientsGroup)
        } else if s == "BATCH"@ {
            Some(FlowType::Batch)
        } else if s == "REGULAR_SINGLE"@ {
            Some(FlowType::RegularSingle)
        } else {
            None
        }
    }

    /// Renders the wire name of this value.
    pub fn to_string(&self) -> (r: String)
        ensures
            r@ == self.spec_code(),
    {
        match self {
            FlowType::MultipleRecipientsGroup => String::from_str("MULTIPLE_RECIPIENTS_GROUP"),
            FlowType::Batch => String::from_str("BATCH"),
            FlowType::RegularSingle => String::from_str("REGULAR_SINGLE"),
        }
    }

    /// Parses a wire name.
    pub fn from_code(s: &str) -> (r: Option<FlowType>)
        ensures
            r == Self::spec_from_code(s@),
    {
        if str_eq(s, "MULTIPLE_RECIPIENTS_GROUP") {
            Some(FlowType::MultipleRecipientsGroup)
        } else if str_eq(s, "BATCH") {
            Some(FlowType::Batch)
        } else if str_eq(s, "REGULAR_SINGLE") {
            Some(FlowType::RegularSingle)
        } else {
            None
        }
    }
}

impl FromJson for FlowType {
    /// A string naming one of the values.
    open spec fn spec_decodable(j: Json) -> bool {
        match j {
            Json::Str(s) => Self::spec_from_code(s@) is Some,
            _ => false,
        }
    }

    open spec fn spec_matches(self, j: Json) -> bool {
        match j {
            Json::Str(s) => Self::spec_from_code(s@) == Some(self),
            _ => false,
        }
    }

    fn from_json(j: &Json) -> (r: Option<FlowType>)
        ensures
            match r {
                Some(v) => Self::spec_decodable(*j) && v.spec_matches(*j),
                None => !Self::spec_decodable(*j),
            },
    {
        match j {
            Json::Str(s) => FlowType::from_code(s.as_str()),
            _ => None,
        }
    }
}

/// Metadata about a resource.
#[derive(Debug, Clone)]
pub struct Metadata {
    /// The date and time when the resource was created, as RFC 3339 text.
    pub create_time: Option<String>,
    /// The email address of the account that created the resource.
    pub created_by: Option<String>,
    /// The date and time when the resource was last edited, as RFC 3339 text.
    pub last_update_time: Option<String>,
    /// The account that last edited the resource.
    pub last_updated_by: Option<String>,
    /// The date and time when the resource was canceled, as RFC 3339 text.
    pub cancel_time: Option<String>,
    /// The actor who canceled the resource.
    pub cancelled_by: Option<String>,
    /// The date and time when the resource was first sent, as RFC 3339 text.
    pub first_sent_time: Option<String>,
    /// The date and time when the resource was last sent, as RFC 3339 text.
    pub last_sent_time: Option<String>,
    /// The email address of the account that last sent the resource.
    pub last_sent_by: Option<String>,
    /// The flow variation that created this invoice.
    pub created_by_flow: Option<FlowType>,
    /// The URL for the invoice payer view hosted on paypal.com.
    pub recipient_view_url: Option<String>,
    /// The URL for the invoice merchant view hosted on paypal.com.
    pub invoicer_view_url: Option<String>,
}

impl FromJson for Metadata {
    /// Metadata about a resource.
    open spec fn spec_decodable(j: Json) -> bool {
        &&& j.spec_field_opt_string("create_time"@) is Some
        &&& j.spec_field_opt_string("created_by"@) is Some
        &&& j.spec_field_opt_string("last_update_time"@) is Some
        &&& j.spec_field_opt_string("last_updated_by"@) is Some
        &&& j.spec_field_opt_string("cancel_time"@) is Some
        &&& j.spec_field_opt_string("cancelled_by"@) is Some
        &&& j.spec_field_opt_string("first_sent_time"@) is Some
        &&& j.spec_field_opt_string("last_sent_time"@) is Some
        &&& j.spec_field_opt_string("last_sent_by"@) is Some
        &&& spec_opt_obj_decodable::<FlowType>(j, "created_by_flow"@)
        &&& j.spec_field_opt_string("recipient_view_url"@) is Some
        &&& j.spec_field_opt_string("invoicer_view_url"@) is Some
    }

    open spec fn spec_matches(self, j: Json) -> bool {
        &&& Some(self.create_time) == j.spec_field_opt_string("create_time"@)
        &&& Some(self.created_by) == j.spec_field_opt_string("created_by"@)
        &&& Some(self.last_update_time) == j.spec_field_opt_string("last_update_time"@)
        &&& Some(self.last_updated_by) == j.spec_field_opt_string("last_updated_by"@)
        &&& Some(self.cancel_time) == j.spec_field_opt_string("cancel_time"@)
        &&& Some(self.cancelled_by) == j.spec_field_opt_string("cancelled_by"@)
        &&& Some(self.first_sent_time) == j.spec_field_opt_string("first_sent_time"@)
        &&& Some(self.last_sent_time) == j.spec_field_opt_string("last_sent_time"@)
        &&& Some(self.last_sent_by) == j.spec_field_opt_string("last_sent_by"@)
        &&& spec_opt_obj_matches(self.created_by_flow, j, "created_by_flow"@)
        &&& Some(self.recipient_view_url) == j.spec_field_opt_string("recipient_view_url"@)
        &&& Some(self.invoicer_view_url) == j.spec_field_opt_string("invoicer_view_url"@)
    }

    fn from_json(j: &Json) -> (r: Option<Metadata>)
        ensures
            match r {
                Some(v) => Self::spec_decodable(*j) && v.spec_matches(*j),
                None => !Self::spec_decodable(*j),
            },
    {
        let create_time = match j.get_opt_str("create_time") {
            Some(v) => v,
            None => {
                return None;
            },
        };
        let created_by = match j.get_opt_str("created_by") {
            Some(v) => v,
            None => {
                return None;
            },
        };
        let last_update_time = match j.get_opt_str("last_update_time") {
            Some(v) => v,
            None => {
                return None;
            },
        };
        let last_updated_by = match j.get_opt_str("last_updated_by") {
            Some(v) => v,
            None => {
                return None;
            },
        };
        let cancel_time = match j.get_opt_str("cancel_time") {
            Some(v) => v,
            None => {
                return None;
            },
        };
        let cancelled_by = match j.get_opt_str("cancelled_by") {
            Some(v) => v,
            None => {
                return None;
            },
        };
        let first_sent_time = match j.get_opt_str("first_sent_time") {
            Some(v) => v,
            None => {
                return None;
            },
        };
        let last_sent_time = match j.get_opt_str("last_sent_time") {
            Some(v) => v,
            None => {
                return None;
            },
        };
        let last_sent_by = match j.get_opt_str("last_sent_by") {
            Some(v) => v,
            None => {
                return None;
            },
        };
        let created_by_flow = match get_opt_obj::<FlowType>(j, "created_by_flow") {
            Some(v) => v,
            None => {
                return None;
            },
        };
        let recipient_view_url = match j.get_opt_str("recipient_view_url") {
            Some(v) => v,
            None => {
                return None;
            },
        };
        let invoicer_view_url = match j.get_opt_str("invoicer_view_url") {
            Some(v) => v,
            None => {
                return None;
            },
        };
        Some(Metadata { create_time, created_by, last_update_time, last_updated_by, cancel_time, cancelled_by, first_sent_time, last_sent_time, last_sent_by, created_by_flow, recipient_view_url, invoicer_view_url })
    }
}

/// The details of the invoice: the invoice number, date, payment terms, and audit metadata.
#[derive(Debug, Clone)]
pub struct InvoiceDetail {
    /// The reference data, such as a post office (PO) number.
    pub reference: Option<String>,
    /// The three-character ISO-4217 currency code that identifies the currency.
    pub currency_code: Currency,
    /// A note to the invoice recipient.
    pub note: Option<String>,
    /// The general terms of the invoice.
    pub terms_and_conditions: Option<String>,
    /// A private bookkeeping memo for the user.
    pub memo: Option<String>,
    /// An array of PayPal IDs for the files that are attached to an invoice.
    pub attachments: Option<Vec<FileReference>>,
    /// The invoice number.
    pub invoice_number: Option<String>,
    /// The invoice date as specified by the sender, as YYYY-MM-DD text.
    pub invoice_date: Option<String>,
    /// The payment due date for the invoice.
    pub payment_term: Option<PaymentTerm>,
    /// The audit metadata.
    pub metadata: Option<Metadata>,
}

impl FromJson for InvoiceDetail {
    /// The details of the invoice: the invoice number, date, payment terms, and audit metadata.
    open spec fn spec_decodable(j: Json) -> bool {
        &&& j.spec_field_opt_string("reference"@) is Some
        &&& spec_obj_decodable::<Currency>(j, "currency_code"@)
        &&& j.spec_field_opt_string("note"@) is Some
        &&& j.spec_field_opt_string("terms_and_conditions"@) is Some
        &&& j.spec_field_opt_string("memo"@) is Some
        &&& spec_opt_arr_decodable::<FileReference>(j, "attachments"@)
        &&& j.spec_field_opt_string("invoice_number"@) is Some
        &&& j.spec_field_opt_string("invoice_date"@) is Some
        &&& spec_opt_obj_decodable::<PaymentTerm>(j, "payment_term"@)
        &&& spec_opt_obj_decodable::<Metadata>(j, "metadata"@)
    }

    open spec fn spec_matches(self, j: Json) -> bool {
        &&& Some(self.reference) == j.spec_field_opt_string("reference"@)
        &&& spec_obj_matches(self.currency_code, j, "currency_code"@)
        &&& Some(self.note) == j.spec_field_opt_string("note"@)
        &&& Some(self.terms_and_conditions) == j.spec_field_opt_string("terms_and_conditions"@)
        &&& Some(self.memo) == j.spec_field_opt_string("memo"@)
        &&& spec_opt_arr_matches(
            match self.attachments {
                Some(v) => Some(v@),
                None => None,
            },
            j,
            "attachments"@,
        )
        &&& Some(self.invoice_number) == j.spec_field_opt_string("invoice_number"@)
        &&& Some(self.invoice_date) == j.spec_field_opt_string("invoice_date"@)
        &&& spec_opt_obj_matches(self.payment_term, j, "payment_term"@)
        &&& spec_opt_obj_matches(self.metadata, j, "metadata"@)
    }

    fn from_json(j: &Json) -> (r: Option<InvoiceDetail>)
        ensures
            match r {
                Some(v) => Self::spec_decodable(*j) && v.spec_matches(*j),
                None => !Self::spec_decodable(*j),
            },
    {
        let reference = match j.get_opt_str("reference") {
            Some(v) => v,
            None => {
                return None;
            },
        };
        let currency_code = match get_obj::<Currency>(j, "currency_code") {
            Some(v) => v,
            None => {
                return None;
            },
        };
        let note = match j.get_opt_str("note") {
            Some(v) => v,
            None => {
                return None;
            },
        };
        let terms_and_conditions = match j.get_opt_str("terms_and_conditions") {
            Some(v) => v,
            None => {
                return None;
            },
        };
        let memo = match j.get_opt_str("memo") {
            Some(v) => v,
            None => {
                return None;
            },
        };
        let attachments = match get_opt_arr_of::<FileReference>(j, "attachments") {
            Some(v) => v,
            None => {
                return None;
            },
        };
        let invoice_number = match j.get_opt_str("invoice_number") {
            Some(v) => v,
            None => {
                return None;
            },
        };
        let invoice_date = match j.get_opt_str("invoice_date") {
            Some(v) => v,
            None => {
                return None;
            },
        };
        let payment_term = match get_opt_obj::<PaymentTerm>(j, "payment_term") {
            Some(v) => v,
            None => {
                return None;
            },
        };
        let metadata = match get_opt_obj::<Metadata>(j, "metadata") {
            Some(v) => v,
            None => {
                return None;
            },
        };
        Some(InvoiceDetail { reference, currency_code, note, terms_and_conditions, memo, attachments, invoice_number, invoice_date, payment_term, metadata })
    }
}

/// A name to be used as recipient.
#[derive(Debug, Clone)]
pub struct Name {
    /// The prefix, or title, to the party's name.
    pub prefix: Option<String>,
    /// When the party is a person, the party's given, or first, name.
    pub given_name: Option<String>,
    /// When the party is a person, the party's surname or family name.
    pub surname: Option<String>,
    /// When the party is a person, the party's middle name.
    pub middle_name: Option<String>,
    /// The suffix for the party's name.
    pub suffix: Option<String>,
    /// DEPRECATED. The party's alternate name.
    pub alternate_full_name: Option<String>,
    /// When the party is a person, the party's full name.
    pub full_name: Option<String>,
}

impl FromJson for Name {
    /// A name to be used as recipient.
    open spec fn spec_decodable(j: Json) -> bool {
        &&& j.spec_field_opt_string("prefix"@) is Some
        &&& j.spec_field_opt_string("given_name"@) is Some
        &&& j.spec_field_opt_string("surname"@) is Some
        &&& j.spec_field_opt_string("middle_name"@) is Some
        &&& j.spec_field_opt_string("suffix"@) is Some
        &&& j.spec_field_opt_string("alternate_full_name"@) is Some
        &&& j.spec_field_opt_string("full_name"@) is Some
    }

    open spec fn spec_matches(self, j: Json) -> bool {
        &&& Some(self.prefix) == j.spec_field_opt_string("prefix"@)
        &&& Some(self.given_name) == j.spec_field_opt_string("given_name"@)
        &&& Some(self.surname) == j.spec_field_opt_string("surname"@)
        &&& Some(self.middle_name) == j.spec_field_opt_string("middle_name"@)
        &&& Some(self.suffix) == j.spec_field_opt_string("suffix"@)
        &&& Some(self.alternate_full_name) == j.spec_field_opt_string("alternate_full_name"@)
        &&& Some(self.full_name) == j.spec_field_opt_string("full_name"@)
    }

    fn from_json(j: &Json) -> (r: Option<Name>)
        ensures
            match r {
                Some(v) => Self::spec_decodable(*j) && v.spec_matches(*j),
                None => !Self::spec_decodable(*j),
            },
    {
        let prefix = match j.get_opt_str("prefix") {
            Some(v) => v,
            None => {
                return None;
            },
        };
        let given_name = match j.get_opt_str("given_name") {
            Some(v) => v,
            None => {
                return None;
            },
        };
        let surname = match j.get_opt_str("surname") {
            Some(v) => v,
            None => {
                return None;
            },
        };
        let middle_name = match j.get_opt_str("middle_name") {
            Some(v) => v,
            None => {
                return None;
            },
        };
        let suffix = match j.get_opt_str("suffix") {
            Some(v) => v,
            None => {
                return None;
            },
        };
        let alternate_full_name = match j.get_opt_str("alternate_full_name") {
            Some(v) => v,
            None => {
                return None;
            },
        };
        let full_name = match j.get_opt_str("full_name") {
            Some(v) => v,
            None => {
                return None;
            },
        };
        Some(Name { prefix, given_name, surname, middle_name, suffix, alternate_full_name, full_name })
    }
}

/// Phone information.
#[derive(Debug, Clone)]
pub struct PhoneDetail {
    /// The country calling code (CC), in its canonical international E.164 numbering plan format.
    pub country_code: String,
    /// The national number, in its canonical international E.164 numbering plan format.
    pub national_number: String,
    /// The extension number.
    pub extension_number: Option<String>,
    /// The phone type.
    pub phone_type: Option<PhoneType>,
}

impl FromJson for PhoneDetail {
    /// Phone information.
    open spec fn spec_decodable(j: Json) -> bool {
        &&& j.spec_field_string("country_code"@) is Some
        &&& j.spec_field_string("national_number"@) is Some
        &&& j.spec_field_opt_string("extension_number"@) is Some
        &&& spec_opt_obj_decodable::<PhoneType>(j, "phone_type"@)
    }

    open spec fn spec_matches(self, j: Json) -> bool {
        &&& Some(self.country_code) == j.spec_field_string("country_code"@)
        &&& Some(self.national_number) == j.spec_field_string("national_number"@)
        &&& Some(self.extension_number) == j.spec_field_opt_string("extension_number"@)
        &&& spec_opt_obj_matches(self.phone_type, j, "phone_type"@)
    }

    fn from_json(j: &Json) -> (r: Option<PhoneDetail>)
        ensures
            match r {
                Some(v) => Self::spec_decodable(*j) && v.spec_matches(*j),
                None => !Self::spec_decodable(*j),
            },
    {
        let country_code = match j.get_str("country_code") {
            Some(v) => v,
            None => {
                return None;
            },
        };
        let national_number = match j.get_str("national_number") {
            Some(v) => v,
            None => {
                return None;
            },
        };
        let extension_number = match j.get_opt_str("extension_number") {
            Some(v) => v,
            None => {
                return None;
            },
        };
        let phone_type = match get_opt_obj::<PhoneType>(j, "phone_type") {
            Some(v) => v,
            None => {
                return None;
            },
        };
        Some(PhoneDetail { country_code, national_number, extension_number, phone_type })
    }
}

/// The invoicer information.
#[derive(Debug, Clone)]
pub struct InvoicerInfo {
    /// Required. The business name of the party.
    pub business_name: String,
    /// The first and last name of the recipient.
    pub name: Option<Name>,
    /// The invoicer email address, which must be listed in the user's PayPal profile.
    pub email_address: Option<String>,
    /// An array of the invoicer's phone numbers.
    pub phones: Option<Vec<PhoneDetail>>,
    /// The invoicer's website.
    pub website: Option<String>,
    /// The invoicer's tax ID.
    pub tax_id: Option<String>,
    /// Any additional information, such as business hours.
    pub additional_notes: Option<String>,
    /// The full URL to an external logo image.
    pub logo_url: Option<String>,
}

impl FromJson for InvoicerInfo {
    /// The invoicer information.
    open spec fn spec_decodable(j: Json) -> bool {
        &&& j.spec_field_string("business_name"@) is Some
        &&& spec_opt_obj_decodable::<Name>(j, "name"@)
        &&& j.spec_field_opt_string("email_address"@) is Some
        &&& spec_opt_arr_decodable::<PhoneDetail>(j, "phones"@)
        &&& j.spec_field_opt_string("website"@) is Some
        &&& j.spec_field_opt_string("tax_id"@) is Some
        &&& j.spec_field_opt_string("additional_notes"@) is Some
        &&& j.spec_field_opt_string("logo_url"@) is Some
    }

    open spec fn spec_matches(self, j: Json) -> bool {
        &&& Some(self.business_name) == j.spec_field_string("business_name"@)
        &&& spec_opt_obj_matches(self.name, j, "name"@)
        &&& Some(self.email_address) == j.spec_field_opt_string("email_address"@)
        &&& spec_opt_arr_matches(
            match self.phones {
                Some(v) => Some(v@),
                None => None,
            },
            j,
            "phones"@,
        )
        &&& Some(self.website) == j.spec_field_opt_string("website"@)
        &&& Some(self.tax_id) == j.spec_field_opt_string("tax_id"@)
        &&& Some(self.additional_notes) == j.spec_field_opt_string("additional_notes"@)
        &&& Some(self.logo_url) == j.spec_field_opt_string("logo_url"@)
    }

    fn from_json(j: &Json) -> (r: Option<InvoicerInfo>)
        ensures
            match r {
                Some(v) => Self::spec_decodable(*j) && v.spec_matches(*j),
                None => !Self::spec_decodable(*j),
            },
    {
        let business_name = match j.get_str("business_name") {
            Some(v) => v,
            None => {
                return None;
            },
        };
        let name = match get_opt_obj::<Name>(j, "name") {
            Some(v) => v,
            None => {
                return None;
            },
        };
        let email_address = match j.get_opt_str("email_address") {
            Some(v) => v,
            None => {
                return None;
            },
        };
        let phones = match get_opt_arr_of::<PhoneDetail>(j, "phones") {
            Some(v) => v,
            None => {
                return None;
            },
        };
        let website = match j.get_opt_str("website") {
            Some(v) => v,
            None => {
                return None;
            },
        };
        let tax_id = match j.get_opt_str("tax_id") {
            Some(v) => v,
            None => {
                return None;
            },
        };
        let additional_notes = match j.get_opt_str("additional_notes") {
            Some(v) => v,
            None => {
                return None;
            },
        };
        let logo_url = match j.get_opt_str("logo_url") {
            Some(v) => v,
            None => {
                return None;
            },
        };
        Some(InvoicerInfo { business_name, name, email_address, phones, website, tax_id, additional_notes, logo_url })
    }
}

/// Billing information.
#[derive(Debug, Clone)]
pub struct BillingInfo {
    /// Required. The business name of the party.
    pub business_name: String,
    /// The first and last name of the recipient.
    pub name: Option<Name>,
    /// The address of the recipient.
    pub address: Option<Address>,
    /// The invoice recipient email address.
    pub email_address: Option<String>,
    /// The invoice recipient's phone numbers.
    pub phones: Option<Vec<PhoneDetail>>,
    /// Any additional information about the recipient.
    pub additional_info: Option<String>,
    /// The language in which to show the invoice recipient's email message.
    pub language: Option<String>,
}

impl FromJson for BillingInfo {
    /// Billing information.
    open spec fn spec_decodable(j: Json) -> bool {
        &&& j.spec_field_string("business_name"@) is Some
        &&& spec_opt_obj_decodable::<Name>(j, "name"@)
        &&& spec_opt_obj_decodable::<Address>(j, "address"@)
        &&& j.spec_field_opt_string("email_address"@) is Some
        &&& spec_opt_arr_decodable::<PhoneDetail>(j, "phones"@)
        &&& j.spec_field_opt_string("additional_info"@) is Some
        &&& j.spec_field_opt_string("language"@) is Some
    }

    open spec fn spec_matches(self, j: Json) -> bool {
        &&& Some(self.business_name) == j.spec_field_string("business_name"@)
        &&& spec_opt_obj_matches(self.name, j, "name"@)
        &&& spec_opt_obj_matches(self.address, j, "address"@)
        &&& Some(self.email_address) == j.spec_field_opt_string("email_address"@)
        &&& spec_opt_arr_matches(
            match self.phones {
                Some(v) => Some(v@),
                None => None,
            },
            j,
            "phones"@,
        )
        &&& Some(self.additional_info) == j.spec_field_opt_string("additional_info"@)
        &&& Some(self.language) == j.spec_field_opt_string("language"@)
    }

    fn from_json(j: &Json) -> (r: Option<BillingInfo>)
        ensures
            match r {
                Some(v) => Self::spec_decodable(*j) && v.spec_matches(*j),
                None => !Self::spec_decodable(*j),
            },
    {
        let business_name = match j.get_str("business_name") {
            Some(v) => v,
            None => {
                return None;
            },
        };
        let name = match get_opt_obj::<Name>(j, "name") {
            Some(v) => v,
            None => {
                return None;
            },
        };
        let address = match get_opt_obj::<Address>(j, "address") {
            Some(v) => v,
            None => {
                return None;
            },
        };
        let email_address = match j.get_opt_str("email_address") {
            Some(v) => v,
            None => {
                return None;
            },
        };
        let phones = match get_opt_arr_of::<PhoneDetail>(j, "phones") {
            Some(v) => v,
            None => {
                return None;
            },
        };
        let additional_info = match j.get_opt_str("additional_info") {
            Some(v) => v,
            None => {
                return None;
            },
        };
        let language = match j.get_opt_str("language") {
            Some(v) => v,
            None => {
                return None;
            },
        };
        Some(BillingInfo { business_name, name, address, email_address, phones, additional_info, language })
    }
}

/// Contact information.
#[derive(Debug, Clone)]
pub struct ContactInformation {
    /// Required. The business name of the party.
    pub business_name: String,
    /// The first and last name of the recipient.
    pub name: Option<Name>,
    /// The address of the recipient.
    pub address: Option<Address>,
}

impl FromJson for ContactInformation {
    /// Contact information.
    open spec fn spec_decodable(j: Json) -> bool {
        &&& j.spec_field_string("business_name"@) is Some
        &&& spec_opt_obj_decodable::<Name>(j, "name"@)
        &&& spec_opt_obj_decodable::<Address>(j, "address"@)
    }

    open spec fn spec_matches(self, j: Json) -> bool {
        &&& Some(self.business_name) == j.spec_field_string("business_name"@)
        &&& spec_opt_obj_matches(self.name, j, "name"@)
        &&& spec_opt_obj_matches(self.address, j, "address"@)
    }

    fn from_json(j: &Json) -> (r: Option<ContactInformation>)
        ensures
            match r {
                Some(v) => Self::spec_decodable(*j) && v.spec_matches(*j),
                None => !Self::spec_decodable(*j),
            },
    {
        let business_name = match j.get_str("business_name") {
            Some(v) => v,
            None => {
                return None;
            },
        };
        let name = match get_opt_obj::<Name>(j, "name") {
            Some(v) => v,
            None => {
                return None;
            },
        };
        let address = match get_opt_obj::<Address>(j, "address") {
            Some(v) => v,
            None => {
                return None;
            },
        };
        Some(ContactInformation { business_name, name, address })
    }
}

/// Recipient information.
#[derive(Debug, Clone)]
pub struct RecipientInfo {
    /// The billing information for the invoice recipient.
    pub billing_info: Option<BillingInfo>,
    /// The recipient's shipping information.
    pub shipping_info: Option<ContactInformation>,
}

impl FromJson for RecipientInfo {
    /// Recipient information.
    open spec fn spec_decodable(j: Json) -> bool {
        &&& spec_opt_obj_decodable::<BillingInfo>(j, "billing_info"@)
        &&& spec_opt_obj_decodable::<ContactInformation>(j, "shipping_info"@)
    }

    open spec fn spec_matches(self, j: Json) -> bool {
        &&& spec_opt_obj_matches(self.billing_info, j, "billing_info"@)
        &&& spec_opt_obj_matches(self.shipping_info, j, "shipping_info"@)
    }

    fn from_json(j: &Json) -> (r: Option<RecipientInfo>)
        ensures
            match r {
                Some(v) => Self::spec_decodable(*j) && v.spec_matches(*j),
                None => !Self::spec_decodable(*j),
            },
    {
        let billing_info = match get_opt_obj::<BillingInfo>(j, "billing_info") {
            Some(v) => v,
            None => {
                return None;
            },
        };
        let shipping_info = match get_opt_obj::<ContactInformation>(j, "shipping_info") {
            Some(v) => v,
            None => {
                return None;
            },
        };
        Some(RecipientInfo { billing_info, shipping_info })
    }
}

/// Tax information.
#[derive(Debug, Clone)]
pub struct Tax {
    /// The name of the tax applied on the invoice items.
    pub name: String,
    /// The tax rate. Value is from 0 to 100.
    pub percent: String,
    /// The calculated tax amount. The tax amount is added to the item total.
    pub amount: Option<Money>,
}

impl FromJson for Tax {
    /// Tax information.
    open spec fn spec_decodable(j: Json) -> bool {
        &&& j.spec_field_string("name"@) is Some
        &&& j.spec_field_string("percent"@) is Some
        &&& spec_opt_obj_decodable::<Money>(j, "amount"@)
    }

    open spec fn spec_matches(self, j: Json) -> bool {
        &&& Some(self.name) == j.spec_field_string("name"@)
        &&& Some(self.percent) == j.spec_field_string("percent"@)
        &&& spec_opt_obj_matches(self.amount, j, "amount"@)
    }

    fn from_json(j: &Json) -> (r: Option<Tax>)
        ensures
            match r {
                Some(v) => Self::spec_decodable(*j) && v.spec_matches(*j),
                None => !Self::spec_decodable(*j),
            },
    {
        let name = match j.get_str("name") {
            Some(v) => v,
            None => {
                return None;
            },
        };
        let percent = match j.get_str("percent") {
            Some(v) => v,
            None => {
                return None;
            },
        };
        let amount = match get_opt_obj::<Money>(j, "amount") {
            Some(v) => v,
            None => {
                return None;
            },
        };
        Some(Tax { name, percent, amount })
    }
}

/// Discount information.
#[derive(Debug, Clone)]
pub struct Discount {
    /// The discount as a percentage value. Value is from 0 to 100.
    pub percent: Option<String>,
    /// The invoice level discount amount. Value is from 0 to 1000000.
    pub amount: Option<String>,
}

impl FromJson for Discount {
    /// Discount information.
    open spec fn spec_decodable(j: Json) -> bool {
        &&& j.spec_field_opt_string("percent"@) is Some
        &&& j.spec_field_opt_string("amount"@) is Some
    }

    open spec fn spec_matches(self, j: Json) -> bool {
        &&& Some(self.percent) == j.spec_field_opt_string("percent"@)
        &&& Some(self.amount) == j.spec_field_opt_string("amount"@)
    }

    fn from_json(j: &Json) -> (r: Option<Discount>)
        ensures
            match r {
                Some(v) => Self::spec_decodable(*j) && v.spec_matches(*j),
                None => !Self::spec_decodable(*j),
            },
    {
        let percent = match j.get_opt_str("percent") {
            Some(v) => v,
            None => {
                return None;
            },
        };
        let amount = match j.get_opt_str("amount") {
            Some(v) => v,
            None => {
                return None;
            },
        };
        Some(Discount { percent, amount })
    }
}

/// The unit of measure for the invoiced item.
#[derive(Debug, Clone, Copy, PartialEq, Eq)]
pub enum UnitOfMeasure {
    /// The unit of measure is quantity, typically used for physical goods.
    Quantity,
    /// The unit of measure is hours, typically used for services.
    Hours,
    /// The unit of measure is amount, typically used when only an amount is required.
    Amount,
}

impl UnitOfMeasure {
    /// The wire name of this value.
    pub open spec fn spec_code(self) -> Seq<char> {
        match self {
            UnitOfMeasure::Quantity => "QUANTITY"@,
            UnitOfMeasure::Hours => "HOURS"@,
            UnitOfMeasure::Amount => "AMOUNT"@,
        }
    }

    /// The value a wire name names, if any.
    pub open spec fn spec_from_code(s: Seq<char>) -> Option<UnitOfMeasure> {
        if s == "QUANTITY"@ {
            Some(UnitOfMeasure::Quantity)
        } else if s == "HOURS"@ {
            Some(UnitOfMeasure::Hours)
        } else if s == "AMOUNT"@ {
            Some(UnitOfMeasure::Amount)
        } else {
            None
        }
    }

    /// Renders the wire name of this value.
    pub fn to_string(&self) -> (r: String)
        ensures
            r@ == self.spec_code(),
    {
        match self {
            UnitOfMeasure::Quantity => String::from_str("QUANTITY"),
            UnitOfMeasure::Hours => String::from_str("HOURS"),
            UnitOfMeasure::Amount => String::from_str("AMOUNT"),
        }
    }

    /// Parses a wire name.
    pub fn from_code(s: &str) -> (r: Option<UnitOfMeasure>)
        ensures
            r == Self::spec_from_code(s@),
    {
        if str_eq(s, "QUANTITY") {
            Some(UnitOfMeasure::Quantity)
        } else if str_eq(s, "HOURS") {
            Some(UnitOfMeasure::Hours)
        } else if str_eq(s, "AMOUNT") {
            Some(UnitOfMeasure::Amount)
        } else {
            None
        }
    }
}

impl FromJson for UnitOfMeasure {
    /// A string naming one of the values.
    open spec fn spec_decodable(j: Json) -> bool {
        match j {
            Json::Str(s) => Self::spec_from_code(s@) is Some,
            _ => false,
        }
    }

    open spec fn spec_matches(self, j: Json) -> bool {
        match j {
            Json::Str(s) => Self::spec_from_code(s@) == Some(self),
            _ => false,
        }
    }

    fn from_json(j: &Json) -> (r: Option<UnitOfMeasure>)
        ensures
            match r {
                Some(v) => Self::spec_decodable(*j) && v.spec_matches(*j),
                None => !Self::spec_decodable(*j),
            },
    {
        match j {
            Json::Str(s) => UnitOfMeasure::from_code(s.as_str()),
            _ => None,
        }
    }
}

/// Item information.
#[derive(Debug, Clone)]
pub struct Item {
    /// The ID of the invoice line item. Read only.
    pub id: Option<String>,
    /// The item name for the invoice line item.
    pub name: String,
    /// The item description for the invoice line item.
    pub description: Option<String>,
    /// The quantity of the item that the invoicer provides to the payer.
    pub quantity: String,
    /// The unit price of the item. This does not include tax and discount.
    pub unit_amount: Money,
    /// The tax associated with the item. The tax amount is added to the item total.
    pub tax: Option<Tax>,
    /// The date when the item or service was provided, as RFC 3339 text.
    pub item_date: Option<String>,
    /// Discount as a percent or amount at invoice level.
    pub discount: Option<Discount>,
    /// The unit of measure for the invoiced item.
    pub unit_of_measure: Option<UnitOfMeasure>,
}

impl FromJson for Item {
    /// Item information.
    open spec fn spec_decodable(j: Json) -> bool {
        &&& j.spec_field_opt_string("id"@) is Some
        &&& j.spec_field_string("name"@) is Some
        &&& j.spec_field_opt_string("description"@) is Some
        &&& j.spec_field_string("quantity"@) is Some
        &&& spec_obj_decodable::<Money>(j, "unit_amount"@)
        &&& spec_opt_obj_decodable::<Tax>(j, "tax"@)
        &&& j.spec_field_opt_string("item_date"@) is Some
        &&& spec_opt_obj_decodable::<Discount>(j, "discount"@)
        &&& spec_opt_obj_decodable::<UnitOfMeasure>(j, "unit_of_measure"@)
    }

    open spec fn spec_matches(self, j: Json) -> bool {
        &&& Some(self.id) == j.spec_field_opt_string("id"@)
        &&& Some(self.name) == j.spec_field_string("name"@)
        &&& Some(self.description) == j.spec_field_opt_string("description"@)
        &&& Some(self.quantity) == j.spec_field_string("quantity"@)
        &&& spec_obj_matches(self.unit_amount, j, "unit_amount"@)
        &&& spec_opt_obj_matches(self.tax, j, "tax"@)
        &&& Some(self.item_date) == j.spec_field_opt_string("item_date"@)
        &&& spec_opt_obj_matches(self.discount, j, "discount"@)
        &&& spec_opt_obj_matches(self.unit_of_measure, j, "unit_of_measure"@)
    }

    fn from_json(j: &Json) -> (r: Option<Item>)
        ensures
            match r {
                Some(v) => Self::spec_decodable(*j) && v.spec_matches(*j),
                None => !Self::spec_decodable(*j),
            },
    {
        let id = match j.get_opt_str("id") {
            Some(v) => v,
            None => {
                return None;
            },
        };
        let name = match j.get_str("name") {
            Some(v) => v,
            None => {
                return None;
            },
        };
        let description = match j.get_opt_str("description") {
            Some(v) => v,
            None => {
                return None;
            },
        };
        let quantity = match j.get_str("quantity") {
            Some(v) => v,
            None => {
                return None;
            },
        };
        let unit_amount = match get_obj::<Money>(j, "unit_amount") {
            Some(v) => v,
            None => {
                return None;
            },
        };
        let tax = match get_opt_obj::<Tax>(j, "tax") {
            Some(v) => v,
            None => {
                return None;
            },
        };
        let item_date = match j.get_opt_str("item_date") {
            Some(v) => v,
            None => {
                return None;
            },
        };
        let discount = match get_opt_obj::<Discount>(j, "discount") {
            Some(v) => v,
            None => {
                return None;
            },
        };
        let unit_of_measure = match get_opt_obj::<UnitOfMeasure>(j, "unit_of_measure") {
            Some(v) => v,
            None => {
                return None;
            },
        };
        Some(Item { id, name, description, quantity, unit_amount, tax, item_date, discount, unit_of_measure })
    }
}

/// The partial payment details.
#[derive(Debug, Clone)]
pub struct PartialPayment {
    /// Indicates whether the invoice allows a partial payment.
    pub allow_partial_payment: Option<bool>,
    /// The minimum amount allowed for a partial payment.
    pub minimum_amount_due: Option<Money>,
}

impl FromJson for PartialPayment {
    /// The partial payment details.
    open spec fn spec_decodable(j: Json) -> bool {
        &&& j.spec_field_opt_bool("allow_partial_payment"@) is Some
        &&& spec_opt_obj_decodable::<Money>(j, "minimum_amount_due"@)
    }

    open spec fn spec_matches(self, j: Json) -> bool {
        &&& Some(self.allow_partial_payment) == j.spec_field_opt_bool("allow_partial_payment"@)
        &&& spec_opt_obj_matches(self.minimum_amount_due, j, "minimum_amount_due"@)
    }

    fn from_json(j: &Json) -> (r: Option<PartialPayment>)
        ensures
            match r {
                Some(v) => Self::spec_decodable(*j) && v.spec_matches(*j),
                None => !Self::spec_decodable(*j),
            },
    {
        let allow_partial_payment = match j.get_opt_bool("allow_partial_payment") {
            Some(v) => v,
            None => {
                return None;
            },
        };
        let minimum_amount_due = match get_opt_obj::<Money>(j, "minimum_amount_due") {
            Some(v) => v,
            None => {
                return None;
            },
        };
        Some(PartialPayment { allow_partial_payment, minimum_amount_due })
    }
}

/// The invoice configuration details: partial payment, tip, and tax calculated after discount.
#[derive(Debug, Clone)]
pub struct Configuration {
    /// Indicates whether the tax is calculated before or after a discount.
    pub tax_calculated_after_discount: Option<bool>,
    /// Indicates whether the unit price includes tax.
    pub tax_inclusive: Option<bool>,
    /// Indicates whether the invoice enables the customer to enter a tip amount during payment.
    pub allow_tip: Option<bool>,
    /// The partial payment details.
    pub partial_payment: Option<PartialPayment>,
    /// The template ID. The template determines the layout of the invoice.
    pub template_id: Option<String>,
}

impl FromJson for Configuration {
    /// The invoice configuration details: partial payment, tip, and tax calculated after discount.
    open spec fn spec_decodable(j: Json) -> bool {
        &&& j.spec_field_opt_bool("tax_calculated_after_discount"@) is Some
        &&& j.spec_field_opt_bool("tax_inclusive"@) is Some
        &&& j.spec_field_opt_bool("allow_tip"@) is Some
        &&& spec_opt_obj_decodable::<PartialPayment>(j, "partial_payment"@)
        &&& j.spec_field_opt_string("template_id"@) is Some
    }

    open spec fn spec_matches(self, j: Json) -> bool {
        &&& Some(self.tax_calculated_after_discount) == j.spec_field_opt_bool("tax_calculated_after_discount"@)
        &&& Some(self.tax_inclusive) == j.spec_field_opt_bool("tax_inclusive"@)
        &&& Some(self.allow_tip) == j.spec_field_opt_bool("allow_tip"@)
        &&& spec_opt_obj_matches(self.partial_payment, j, "partial_payment"@)
        &&& Some(self.template_id) == j.spec_field_opt_string("template_id"@)
    }

    fn from_json(j: &Json) -> (r: Option<Configuration>)
        ensures
            match r {
                Some(v) => Self::spec_decodable(*j) && v.spec_matches(*j),
                None => !Self::spec_decodable(*j),
            },
    {
        let tax_calculated_after_discount = match j.get_opt_bool("tax_calculated_after_discount") {
            Some(v) => v,
            None => {
                return None;
            },
        };
        let tax_inclusive = match j.get_opt_bool("tax_inclusive") {
            Some(v) => v,
            None => {
                return None;
            },
        };
        let allow_tip = match j.get_opt_bool("allow_tip") {
            Some(v) => v,
            None => {
                return None;
            },
        };
        let partial_payment = match get_opt_obj::<PartialPayment>(j, "partial_payment") {
            Some(v) => v,
            None => {
                return None;
            },
        };
        let template_id = match j.get_opt_str("template_id") {
            Some(v) => v,
            None => {
                return None;
            },
        };
        Some(Configuration { tax_calculated_after_discount, tax_inclusive, allow_tip, partial_payment, template_id })
    }
}

/// The discount.
#[derive(Debug, Clone)]
pub struct AggregatedDiscount {
    /// The discount as a percent or amount at invoice level.
    pub invoice_discount: Option<Discount>,
    /// The discount as a percent or amount at item level.
    pub item_discount: Option<Money>,
}

impl FromJson for AggregatedDiscount {
    /// The discount.
    open spec fn spec_decodable(j: Json) -> bool {
        &&& spec_opt_obj_decodable::<Discount>(j, "invoice_discount"@)
        &&& spec_opt_obj_decodable::<Money>(j, "item_discount"@)
    }

    open spec fn spec_matches(self, j: Json) -> bool {
        &&& spec_opt_obj_matches(self.invoice_discount, j, "invoice_discount"@)
        &&& spec_opt_obj_matches(self.item_discount, j, "item_discount"@)
    }

    fn from_json(j: &Json) -> (r: Option<AggregatedDiscount>)
        ensures
            match r {
                Some(v) => Self::spec_decodable(*j) && v.spec_matches(*j),
                None => !Self::spec_decodable(*j),
            },
    {
        let invoice_discount = match get_opt_obj::<Discount>(j, "invoice_discount") {
            Some(v) => v,
            None => {
                return None;
            },
        };
        let item_discount = match get_opt_obj::<Money>(j, "item_discount") {
            Some(v) => v,
            None => {
                return None;
            },
        };
        Some(AggregatedDiscount { invoice_discount, item_discount })
    }
}

/// The shipping fee.
#[derive(Debug, Clone)]
pub struct ShippingCost {
    /// The shipping amount. Value is from 0 to 1000000.
    pub amount: Option<Money>,
    /// The tax associated with the shipping.
    pub tax: Option<Tax>,
}

impl FromJson for ShippingCost {
    /// The shipping fee.
    open spec fn spec_decodable(j: Json) -> bool {
        &&& spec_opt_obj_decodable::<Money>(j, "amount"@)
        &&& spec_opt_obj_decodable::<Tax>(j, "tax"@)
    }

    open spec fn spec_matches(self, j: Json) -> bool {
        &&& spec_opt_obj_matches(self.amount, j, "amount"@)
        &&& spec_opt_obj_matches(self.tax, j, "tax"@)
    }

    fn from_json(j: &Json) -> (r: Option<ShippingCost>)
        ensures
            match r {
                Some(v) => Self::spec_decodable(*j) && v.spec_matches(*j),
                None => !Self::spec_decodable(*j),
            },
    {
        let amount = match get_opt_obj::<Money>(j, "amount") {
            Some(v) => v,
            None => {
                return None;
            },
        };
        let tax = match get_opt_obj::<Tax>(j, "tax") {
            Some(v) => v,
            None => {
                return None;
            },
        };
        Some(ShippingCost { amount, tax })
    }
}

/// The custom amount to apply to an invoice.
#[derive(Debug, Clone)]
pub struct CustomAmount {
    /// The label to the custom amount of the invoice.
    pub label: String,
    /// The custom amount value. Value is from -1000000 to 1000000.
    pub amount: Option<Money>,
}

impl FromJson for CustomAmount {
    /// The custom amount to apply to an invoice.
    open spec fn spec_decodable(j: Json) -> bool {
        &&& j.spec_field_string("label"@) is Some
        &&& spec_opt_obj_decodable::<Money>(j, "amount"@)
    }

    open spec fn spec_matches(self, j: Json) -> bool {
        &&& Some(self.label) == j.spec_field_string("label"@)
        &&& spec_opt_obj_matches(self.amount, j, "amount"@)
    }

    fn from_json(j: &Json) -> (r: Option<CustomAmount>)
        ensures
            match r {
                Some(v) => Self::spec_decodable(*j) && v.spec_matches(*j),
                None => !Self::spec_decodable(*j),
            },
    {
        let label = match j.get_str("label") {
            Some(v) => v,
            None => {
                return None;
            },
        };
        let amount = match get_opt_obj::<Money>(j, "amount") {
            Some(v) => v,
            None => {
                return None;
            },
        };
        Some(CustomAmount { label, amount })
    }
}

/// The breakdown of the amount: total item amount, total tax amount, custom amount, shipping and discounts, if any.
#[derive(Debug, Clone)]
pub struct Breakdown {
    /// The subtotal for all items.
    pub item_total: Option<Money>,
    /// The discount can be at the item or invoice level, or both.
    pub discount: Option<AggregatedDiscount>,
    /// The aggregated amount of the item and shipping taxes.
    pub tax_total: Option<Money>,
    /// The shipping fee for all items, including tax on shipping.
    pub shipping: Option<ShippingCost>,
    /// The custom amount to apply to an invoice.
    pub custom: Option<CustomAmount>,
}

impl FromJson for Breakdown {
    /// The breakdown of the amount: total item amount, total tax amount, custom amount, shipping and discounts, if any.
    open spec fn spec_decodable(j: Json) -> bool {
        &&& spec_opt_obj_decodable::<Money>(j, "item_total"@)
        &&& spec_opt_obj_decodable::<AggregatedDiscount>(j, "discount"@)
        &&& spec_opt_obj_decodable::<Money>(j, "tax_total"@)
        &&& spec_opt_obj_decodable::<ShippingCost>(j, "shipping"@)
        &&& spec_opt_obj_decodable::<CustomAmount>(j, "custom"@)
    }

    open spec fn spec_matches(self, j: Json) -> bool {
        &&& spec_opt_obj_matches(self.item_total, j, "item_total"@)
        &&& spec_opt_obj_matches(self.discount, j, "discount"@)
        &&& spec_opt_obj_matches(self.tax_total, j, "tax_total"@)
        &&& spec_opt_obj_matches(self.shipping, j, "shipping"@)
        &&& spec_opt_obj_matches(self.custom, j, "custom"@)
    }

    fn from_json(j: &Json) -> (r: Option<Breakdown>)
        ensures
            match r {
                Some(v) => Self::spec_decodable(*j) && v.spec_matches(*j),
                None => !Self::spec_decodable(*j),
            },
    {
        let item_total = match get_opt_obj::<Money>(j, "item_total") {
            Some(v) => v,
            None => {
                return None;
            },
        };
        let discount = match get_opt_obj::<AggregatedDiscount>(j, "discount") {
            Some(v) => v,
            None => {
                return None;
            },
        };
        let tax_total = match get_opt_obj::<Money>(j, "tax_total") {
            Some(v) => v,
            None => {
                return None;
            },
        };
        let shipping = match get_opt_obj::<ShippingCost>(j, "shipping") {
            Some(v) => v,
            None => {
                return None;
            },
        };
        let custom = match get_opt_obj::<CustomAmount>(j, "custom") {
            Some(v) => v,
            None => {
                return None;
            },
        };
        Some(Breakdown { item_total, discount, tax_total, shipping, custom })
    }
}

/// Represents an amount of money.
#[derive(Debug, Clone)]
pub struct Amount {
    /// The three-character ISO-4217 currency code that identifies the currency.
    pub currency_code: Currency,
    /// The value: an integer for currencies that are not typically fractional, a decimal fraction otherwise.
    pub value: String,
    /// The breakdown of the amount.
    pub breakdown: Option<Breakdown>,
}

impl FromJson for Amount {
    /// Represents an amount of money.
    open spec fn spec_decodable(j: Json) -> bool {
        &&& spec_obj_decodable::<Currency>(j, "currency_code"@)
        &&& j.spec_field_string("value"@) is Some
        &&& spec_opt_obj_decodable::<Breakdown>(j, "breakdown"@)
    }

    open spec fn spec_matches(self, j: Json) -> bool {
        &&& spec_obj_matches(self.currency_code, j, "currency_code"@)
        &&& Some(self.value) == j.spec_field_string("value"@)
        &&& spec_opt_obj_matches(self.breakdown, j, "breakdown"@)
    }

    fn from_json(j: &Json) -> (r: Option<Amount>)
        ensures
            match r {
                Some(v) => Self::spec_decodable(*j) && v.spec_matches(*j),
                None => !Self::spec_decodable(*j),
            },
    {
        let currency_code = match get_obj::<Currency>(j, "currency_code") {
            Some(v) => v,
            None => {
                return None;
            },
        };
        let value = match j.get_str("value") {
            Some(v) => v,
            None => {
                return None;
            },
        };
        let breakdown = match get_opt_obj::<Breakdown>(j, "breakdown") {
            Some(v) => v,
            None => {
                return None;
            },
        };
        Some(Amount { currency_code, value, breakdown })
    }
}

impl Amount {
    /// Creates a new amount with the required values.
    pub fn new(currency_code: Currency, value: &str) -> (r: Self)
        ensures
            r.currency_code == currency_code,
            r.value@ == value@,
            r.breakdown is None,
    {
        Amount { currency_code, value: value.to_owned(), breakdown: None }
    }
}

/// The payment type in an invoicing flow.
#[derive(Debug, Clone, Copy, PartialEq, Eq)]
pub enum PaymentType {
    /// The payment type is PayPal.
    Paypal,
    /// The payment type is an external cash or a check payment.
    External,
}

impl PaymentType {
    /// The wire name of this value.
    pub open spec fn spec_code(self) -> Seq<char> {
        match self {
            PaymentType::Paypal => "PAYPAL"@,
            PaymentType::External => "EXTERNAL"@,
        }
    }

    /// The value a wire name names, if any.
    pub open spec fn spec_from_code(s: Seq<char>) -> Option<PaymentType> {
        if s == "PAYPAL"@ {
            Some(PaymentType::Paypal)
        } else if s == "EXTERNAL"@ {
            Some(PaymentType::External)
        } else {
            None
        }
    }

    /// Renders the wire name of this value.
    pub fn to_string(&self) -> (r: String)
        ensures
            r@ == self.spec_code(),
    {
        match self {
            PaymentType::Paypal => String::from_str("PAYPAL"),
            PaymentType::External => String::from_str("EXTERNAL"),
        }
    }

    /// Parses a wire name.
    pub fn from_code(s: &str) -> (r: Option<PaymentType>)
        ensures
            r == Self::spec_from_code(s@),
    {
        if str_eq(s, "PAYPAL") {
            Some(PaymentType::Paypal)
        } else if str_eq(s, "EXTERNAL") {
            Some(PaymentType::External)
        } else {
            None
        }
    }
}

impl FromJson for PaymentType {
    /// A string naming one of the values.
    open spec fn spec_decodable(j: Json) -> bool {
        match j {
            Json::Str(s) => Self::spec_from_code(s@) is Some,
            _ => false,
        }
    }

    open spec fn spec_matches(self, j: Json) -> bool {
        match j {
            Json::Str(s) => Self::spec_from_code(s@) == Some(self),
            _ => false,
        }
    }

    fn from_json(j: &Json) -> (r: Option<PaymentType>)
        ensures
            match r {
                Some(v) => Self::spec_decodable(*j) && v.spec_matches(*j),
                None => !Self::spec_decodable(*j),
            },
    {
        match j {
            Json::Str(s) => PaymentType::from_code(s.as_str()),
            _ => None,
        }
    }
}

/// The payment mode or method through which the invoicer can accept the payment.
#[derive(Debug, Clone, Copy, PartialEq, Eq)]
pub enum PaymentMethod {
    /// Payments can be received through bank transfers.
    BankTransfer,
    /// Payments can be received as cash.
    Cash,
    /// Payments can be received as check.
    Check,
    /// Payments can be received through credit card payments.
    CreditCard,
    /// Payments can be received through debit card payments.
    DebitCard,
    /// Payments can be received through PayPal payments.
    Paypal,
    /// Payments can be received through wire transfer.
    WireTransfer,
    /// Payments can be received through other modes.
    Other,
}

impl PaymentMethod {
    /// The wire name of this value.
    pub open spec fn spec_code(self) -> Seq<char> {
        match self {
            PaymentMethod::BankTransfer => "BANK_TRANSFER"@,
            PaymentMethod::Cash => "CASH"@,
            PaymentMethod::Check => "CHECK"@,
            PaymentMethod::CreditCard => "CREDIT_CARD"@,
            PaymentMethod::DebitCard => "DEBIT_CARD"@,
            PaymentMethod::Paypal => "PAYPAL"@,
            PaymentMethod::WireTransfer => "WIRE_TRANSFER"@,
            PaymentMethod::Other => "OTHER"@,
        }
    }

    /// The value a wire name names, if any.
    pub open spec fn spec_from_code(s: Seq<char>) -> Option<PaymentMethod> {
        if s == "BANK_TRANSFER"@ {
            Some(PaymentMethod::BankTransfer)
        } else if s == "CASH"@ {
            Some(PaymentMethod::Cash)
        } else if s == "CHECK"@ {
            Some(PaymentMethod::Check)
        } else if s == "CREDIT_CARD"@ {
            Some(PaymentMethod::CreditCard)
        } else if s == "DEBIT_CARD"@ {
            Some(PaymentMethod::DebitCard)
        } else if s == "PAYPAL"@ {
            Some(PaymentMethod::Paypal)
        } else if s == "WIRE_TRANSFER"@ {
            Some(PaymentMethod::WireTransfer)
        } else if s == "OTHER"@ {
            Some(PaymentMethod::Other)
        } else {
            None
        }
    }

    /// Renders the wire name of this value.
    pub fn to_string(&self) -> (r: String)
        ensures
            r@ == self.spec_code(),
    {
        match self {
            PaymentMethod::BankTransfer => String::from_str("BANK_TRANSFER"),
            PaymentMethod::Cash => String::from_str("CASH"),
            PaymentMethod::Check => String::from_str("CHECK"),
            PaymentMethod::CreditCard => String::from_str("CREDIT_CARD"),
            PaymentMethod::DebitCard => String::from_str("DEBIT_CARD"),
            PaymentMethod::Paypal => String::from_str("PAYPAL"),
            PaymentMethod::WireTransfer => String::from_str("WIRE_TRANSFER"),
            PaymentMethod::Other => String::from_str("OTHER"),
        }
    }

    /// Parses a wire name.
    pub fn from_code(s: &str) -> (r: Option<PaymentMethod>)
        ensures
            r == Self::spec_from_code(s@),
    {
        if str_eq(s, "BANK_TRANSFER") {
            Some(PaymentMethod::BankTransfer)
        } else if str_eq(s, "CASH") {
            Some(PaymentMethod::Cash)
        } else if str_eq(s, "CHECK") {
            Some(PaymentMethod::Check)
        } else if str_eq(s, "CREDIT_CARD") {
            Some(PaymentMethod::CreditCard)
        } else if str_eq(s, "DEBIT_CARD") {
            Some(PaymentMethod::DebitCard)
        } else if str_eq(s, "PAYPAL") {
            Some(PaymentMethod::Paypal)
        } else if str_eq(s, "WIRE_TRANSFER") {
            Some(PaymentMethod::WireTransfer)
        } else if str_eq(s, "OTHER") {
            Some(PaymentMethod::Other)
        } else {
            None
        }
    }
}

impl FromJson for PaymentMethod {
    /// A string naming one of the values.
    open spec fn spec_decodable(j: Json) -> bool {
        match j {
            Json::Str(s) => Self::spec_from_code(s@) is Some,
            _ => false,
        }
    }

    open spec fn spec_matches(self, j: Json) -> bool {
        match j {
            Json::Str(s) => Self::spec_from_code(s@) == Some(self),
            _ => false,
        }
    }

    fn from_json(j: &Json) -> (r: Option<PaymentMethod>)
        ensures
            match r {
                Some(v) => Self::spec_decodable(*j) && v.spec_matches(*j),
                None => !Self::spec_decodable(*j),
            },
    {
        match j {
            Json::Str(s) => PaymentMethod::from_code(s.as_str()),
            _ => None,
        }
    }
}

impl Default for PaymentMethod {
    /// The default value.
    fn default() -> (r: Self)
        ensures
            r == PaymentMethod::Paypal,
    {
        PaymentMethod::Paypal
    }
}

/// Payment detail.
#[derive(Debug, Clone)]
pub struct PaymentDetail {
    /// The payment type in an invoicing flow, PayPal or an external cash or check payment.
    pub payment_type: Option<PaymentType>,
    /// The ID for a PayPal payment transaction. Required for the PAYPAL payment type.
    pub payment_id: Option<String>,
    /// The date when the invoice was paid, as RFC 3339 text.
    pub payment_date: Option<String>,
    /// The payment mode or method through which the invoicer can accept the payment.
    pub method: PaymentMethod,
    /// A note associated with an external cash or check payment.
    pub note: Option<String>,
    /// The payment amount to record against the invoice.
    pub amount: Option<Money>,
    /// The recipient's shipping information.
    pub shipping_info: Option<ContactInformation>,
}

impl FromJson for PaymentDetail {
    /// Payment detail.
    open spec fn spec_decodable(j: Json) -> bool {
        &&& spec_opt_obj_decodable::<PaymentType>(j, "type"@)
        &&& j.spec_field_opt_string("payment_id"@) is Some
        &&& j.spec_field_opt_string("payment_date"@) is Some
        &&& spec_obj_decodable::<PaymentMethod>(j, "method"@)
        &&& j.spec_field_opt_string("note"@) is Some
        &&& spec_opt_obj_decodable::<Money>(j, "amount"@)
        &&& spec_opt_obj_decodable::<ContactInformation>(j, "shipping_info"@)
    }

    open spec fn spec_matches(self, j: Json) -> bool {
        &&& spec_opt_obj_matches(self.payment_type, j, "type"@)
        &&& Some(self.payment_id) == j.spec_field_opt_string("payment_id"@)
        &&& Some(self.payment_date) == j.spec_field_opt_string("payment_date"@)
        &&& spec_obj_matches(self.method, j, "method"@)
        &&& Some(self.note) == j.spec_field_opt_string("note"@)
        &&& spec_opt_obj_matches(self.amount, j, "amount"@)
        &&& spec_opt_obj_matches(self.shipping_info, j, "shipping_info"@)
    }

    fn from_json(j: &Json) -> (r: Option<PaymentDetail>)
        ensures
            match r {
                Some(v) => Self::spec_decodable(*j) && v.spec_matches(*j),
                None => !Self::spec_decodable(*j),
            },
    {
        let payment_type = match get_opt_obj::<PaymentType>(j, "type") {
            Some(v) => v,
            None => {
                return None;
            },
        };
        let payment_id = match j.get_opt_str("payment_id") {
            Some(v) => v,
            None => {
                return None;
            },
        };
        let payment_date = match j.get_opt_str("payment_date") {
            Some(v) => v,
            None => {
                return None;
            },
        };
        let method = match get_obj::<PaymentMethod>(j, "method") {
            Some(v) => v,
            None => {
                return None;
            },
        };
        let note = match j.get_opt_str("note") {
            Some(v) => v,
            None => {
                return None;
            },
        };
        let amount = match get_opt_obj::<Money>(j, "amount") {
            Some(v) => v,
            None => {
                return None;
            },
        };
        let shipping_info = match get_opt_obj::<ContactInformation>(j, "shipping_info") {
            Some(v) => v,
            None => {
                return None;
            },
        };
        Some(PaymentDetail { payment_type, payment_id, payment_date, method, note, amount, shipping_info })
    }
}

/// Payments registered against the invoice.
#[derive(Debug, Clone)]
pub struct Payments {
    /// The aggregated payment amounts against this invoice. Read only.
    pub paid_amount: Option<Money>,
    /// An array of payment details for the invoice. Read only.
    pub transactions: Option<Vec<PaymentDetail>>,
}

impl FromJson for Payments {
    /// Payments registered against the invoice.
    open spec fn spec_decodable(j: Json) -> bool {
        &&& spec_opt_obj_decodable::<Money>(j, "paid_amount"@)
        &&& spec_opt_arr_decodable::<PaymentDetail>(j, "transactions"@)
    }

    open spec fn spec_matches(self, j: Json) -> bool {
        &&& spec_opt_obj_matches(self.paid_amount, j, "paid_amount"@)
        &&& spec_opt_arr_matches(
            match self.transactions {
                Some(v) => Some(v@),
                None => None,
            },
            j,
            "transactions"@,
        )
    }

    fn from_json(j: &Json) -> (r: Option<Payments>)
        ensures
            match r {
                Some(v) => Self::spec_decodable(*j) && v.spec_matches(*j),
                None => !Self::spec_decodable(*j),
            },
    {
        let paid_amount = match get_opt_obj::<Money>(j, "paid_amount") {
            Some(v) => v,
            None => {
                return None;
            },
        };
        let transactions = match get_opt_arr_of::<PaymentDetail>(j, "transactions") {
            Some(v) => v,
            None => {
                return None;
            },
        };
        Some(Payments { paid_amount, transactions })
    }
}

/// Refund details.
#[derive(Debug, Clone)]
pub struct RefundDetail {
    /// Indicates whether the refund was paid through PayPal or externally in the invoicing flow.
    pub refund_type: Option<PaymentType>,
    /// The ID for a PayPal payment transaction. Required for the PAYPAL payment type.
    pub refund_id: Option<String>,
    /// The date when the invoice was refunded, as RFC 3339 text.
    pub refund_date: Option<String>,
    /// The amount to record as refunded.
    pub amount: Option<Money>,
    /// The payment mode or method through which the invoicer can accept the payments.
    pub method: PaymentMethod,
}

impl FromJson for RefundDetail {
    /// Refund details.
    open spec fn spec_decodable(j: Json) -> bool {
        &&& spec_opt_obj_decodable::<PaymentType>(j, "type"@)
        &&& j.spec_field_opt_string("refund_id"@) is Some
        &&& j.spec_field_opt_string("refund_date"@) is Some
        &&& spec_opt_obj_decodable::<Money>(j, "amount"@)
        &&& spec_obj_decodable::<PaymentMethod>(j, "method"@)
    }

    open spec fn spec_matches(self, j: Json) -> bool {
        &&& spec_opt_obj_matches(self.refund_type, j, "type"@)
        &&& Some(self.refund_id) == j.spec_field_opt_string("refund_id"@)
        &&& Some(self.refund_date) == j.spec_field_opt_string("refund_date"@)
        &&& spec_opt_obj_matches(self.amount, j, "amount"@)
        &&& spec_obj_matches(self.method, j, "method"@)
    }

    fn from_json(j: &Json) -> (r: Option<RefundDetail>)
        ensures
            match r {
                Some(v) => Self::spec_decodable(*j) && v.spec_matches(*j),
                None => !Self::spec_decodable(*j),
            },
    {
        let refund_type = match get_opt_obj::<PaymentType>(j, "type") {
            Some(v) => v,
            None => {
                return None;
            },
        };
        let refund_id = match j.get_opt_str("refund_id") {
            Some(v) => v,
            None => {
                return None;
            },
        };
        let refund_date = match j.get_opt_str("refund_date") {
            Some(v) => v,
            None => {
                return None;
            },
        };
        let amount = match get_opt_obj::<Money>(j, "amount") {
            Some(v) => v,
            None => {
                return None;
            },
        };
        let method = match get_obj::<PaymentMethod>(j, "method") {
            Some(v) => v,
            None => {
                return None;
            },
        };
        Some(RefundDetail { refund_type, refund_id, refund_date, amount, method })
    }
}

/// List of refunds.
#[derive(Debug, Clone)]
pub struct Refunds {
    /// The aggregated refund amounts. Read only.
    pub refund_amount: Option<Money>,
    /// An array of refund details for the invoice. Read only.
    pub transactions: Option<Vec<RefundDetail>>,
}

impl FromJson for Refunds {
    /// List of refunds.
    open spec fn spec_decodable(j: Json) -> bool {
        &&& spec_opt_obj_decodable::<Money>(j, "refund_amount"@)
        &&& spec_opt_arr_decodable::<RefundDetail>(j, "transactions"@)
    }

    open spec fn spec_matches(self, j: Json) -> bool {
        &&& spec_opt_obj_matches(self.refund_amount, j, "refund_amount"@)
        &&& spec_opt_arr_matches(
            match self.transactions {
                Some(v) => Some(v@),
                None => None,
            },
            j,
            "transactions"@,
        )
    }

    fn from_json(j: &Json) -> (r: Option<Refunds>)
        ensures
            match r {
                Some(v) => Self::spec_decodable(*j) && v.spec_matches(*j),
                None => !Self::spec_decodable(*j),
            },
    {
        let refund_amount = match get_opt_obj::<Money>(j, "refund_amount") {
            Some(v) => v,
            None => {
                return None;
            },
        };
        let transactions = match get_opt_arr_of::<RefundDetail>(j, "transactions") {
            Some(v) => v,
            None => {
                return None;
            },
        };
        Some(Refunds { refund_amount, transactions })
    }
}

/// The status of the invoice.
#[derive(Debug, Clone, Copy, PartialEq, Eq)]
pub enum Status {
    /// The invoice is in draft state. It is not yet sent to the payer.
    Draft,
    /// The invoice has been sent to the payer. The payment is awaited from the payer.
    Sent,
    /// The invoice is scheduled on a future date. It is not yet sent to the payer.
    Scheduled,
    /// The payer has paid for the invoice.
    Paid,
    /// The invoice is marked as paid by the invoicer.
    MarkedAsPaid,
    /// The invoice has been cancelled by the invoicer.
    Cancelled,
    /// The invoice has been refunded by the invoicer.
    Refunded,
    /// The payer has partially paid for the invoice.
    PartiallyPaid,
    /// The invoice has been partially refunded by the invoicer.
    PartiallyRefunded,
    /// The invoice is marked as refunded by the invoicer.
    MarkedAsRefunded,
    /// The invoicer is yet to receive the payment from the payer for the invoice.
    Unpaid,
    /// The invoicer is yet to receive the payment for the invoice. It is under pending review.
    PaymentPending,
}

impl Status {
    /// The wire name of this value.
    pub open spec fn spec_code(self) -> Seq<char> {
        match self {
            Status::Draft => "DRAFT"@,
            Status::Sent => "SENT"@,
            Status::Scheduled => "SCHEDULED"@,
            Status::Paid => "PAID"@,
            Status::MarkedAsPaid => "MARKED_AS_PAID"@,
            Status::Cancelled => "CANCELLED"@,
            Status::Refunded => "REFUNDED"@,
            Status::PartiallyPaid => "PARTIALLY_PAID"@,
            Status::PartiallyRefunded => "PARTIALLY_REFUNDED"@,
            Status::MarkedAsRefunded => "MARKED_AS_REFUNDED"@,
            Status::Unpaid => "UNPAID"@,
            Status::PaymentPending => "PAYMENT_PENDING"@,
        }
    }

    /// The value a wire name names, if any.
    pub open spec fn spec_from_code(s: Seq<char>) -> Option<Status> {
        if s == "DRAFT"@ {
            Some(Status::Draft)
        } else if s == "SENT"@ {
            Some(Status::Sent)
        } else if s == "SCHEDULED"@ {
            Some(Status::Scheduled)
        } else if s == "PAID"@ {
            Some(Status::Paid)
        } else if s == "MARKED_AS_PAID"@ {
            Some(Status::MarkedAsPaid)
        } else if s == "CANCELLED"@ {
            Some(Status::Cancelled)
        } else if s == "REFUNDED"@ {
            Some(Status::Refunded)
        } else if s == "PARTIALLY_PAID"@ {
            Some(Status::PartiallyPaid)
        } else if s == "PARTIALLY_REFUNDED"@ {
            Some(Status::PartiallyRefunded)
        } else if s == "MARKED_AS_REFUNDED"@ {
            Some(Status::MarkedAsRefunded)
        } else if s == "UNPAID"@ {
            Some(Status::Unpaid)
        } else if s == "PAYMENT_PENDING"@ {
            Some(Status::PaymentPending)
        } else {
            None
        }
    }

    /// Renders the wire name of this value.
    pub fn to_string(&self) -> (r: String)
        ensures
            r@ == self.spec_code(),
    {
        match self {
            Status::Draft => String::from_str("DRAFT"),
            Status::Sent => String::from_str("SENT"),
            Status::Scheduled => String::from_str("SCHEDULED"),
            Status::Paid => String::from_str("PAID"),
            Status::MarkedAsPaid => String::from_str("MARKED_AS_PAID"),
            Status::Cancelled => String::from_str("CANCELLED"),
            Status::Refunded => String::from_str("REFUNDED"),
            Status::PartiallyPaid => String::from_str("PARTIALLY_PAID"),
            Status::PartiallyRefunded => String::from_str("PARTIALLY_REFUNDED"),
            Status::MarkedAsRefunded => String::from_str("MARKED_AS_REFUNDED"),
            Status::Unpaid => String::from_str("UNPAID"),
            Status::PaymentPending => String::from_str("PAYMENT_PENDING"),
        }
    }

    /// Parses a wire name.
    pub fn from_code(s: &str) -> (r: Option<Status>)
        ensures
            r == Self::spec_from_code(s@),
    {
        if str_eq(s, "DRAFT") {
            Some(Status::Draft)
        } else if str_eq(s, "SENT") {
            Some(Status::Sent)
        } else if str_eq(s, "SCHEDULED") {
            Some(Status::Scheduled)
        } else if str_eq(s, "PAID") {
            Some(Status::Paid)
        } else if str_eq(s, "MARKED_AS_PAID") {
            Some(Status::MarkedAsPaid)
        } else if str_eq(s, "CANCELLED") {
            Some(Status::Cancelled)
        } else if str_eq(s, "REFUNDED") {
            Some(Status::Refunded)
        } else if str_eq(s, "PARTIALLY_PAID") {
            Some(Status::PartiallyPaid)
        } else if str_eq(s, "PARTIALLY_REFUNDED") {
            Some(Status::PartiallyRefunded)
        } else if str_eq(s, "MARKED_AS_REFUNDED") {
            Some(Status::MarkedAsRefunded)
        } else if str_eq(s, "UNPAID") {
            Some(Status::Unpaid)
        } else if str_eq(s, "PAYMENT_PENDING") {
            Some(Status::PaymentPending)
        } else {
            None
        }
    }
}

impl FromJson for Status {
    /// A string naming one of the values.
    open spec fn spec_decodable(j: Json) -> bool {
        match j {
            Json::Str(s) => Self::spec_from_code(s@) is Some,
            _ => false,
        }
    }

    open spec fn spec_matches(self, j: Json) -> bool {
        match j {
            Json::Str(s) => Self::spec_from_code(s@) == Some(self),
            _ => false,
        }
    }

    fn from_json(j: &Json) -> (r: Option<Status>)
        ensures
            match r {
                Some(v) => Self::spec_decodable(*j) && v.spec_matches(*j),
                None => !Self::spec_decodable(*j),
            },
    {
        match j {
            Json::Str(s) => Status::from_code(s.as_str()),
            _ => None,
        }
    }
}

/// An invoice payload.
#[derive(Debug, Clone)]
pub struct InvoicePayload {
    /// The details of the invoice.
    pub detail: InvoiceDetail,
    /// The invoicer information.
    pub invoicer: Option<InvoicerInfo>,
    /// The billing and shipping information.
    pub primary_recipient: Option<Vec<RecipientInfo>>,
    /// An array of one or more CC: emails to which notifications are sent.
    pub additional_recipients: Option<Vec<String>>,
    /// An array of invoice line item information.
    pub items: Vec<Item>,
    /// The invoice configuration details.
    pub configuration: Option<Configuration>,
    /// The invoice amount summary of item total, discount, tax total and shipping.
    pub amount: Option<Amount>,
    /// List of payments registered against the invoice.
    pub payments: Option<Payments>,
    /// List of refunds against this invoice.
    pub refunds: Option<Refunds>,
}

/// An invoice, as returned by the Invoicing API.
#[derive(Debug, Clone)]
pub struct Invoice {
    /// The ID of the invoice.
    pub id: String,
    /// The parent ID to an invoice that defines the group invoice to which the invoice is related.
    pub parent_id: Option<String>,
    /// The status of the invoice.
    pub status: Status,
    /// The details of the invoice.
    pub detail: InvoiceDetail,
    /// The invoicer information.
    pub invoicer: Option<InvoicerInfo>,
    /// The billing and shipping information.
    pub primary_recipients: Option<Vec<RecipientInfo>>,
    /// An array of one or more CC: emails to which notifications are sent.
    pub additional_recipients: Option<Vec<String>>,
    /// An array of invoice line item information.
    pub items: Option<Vec<Item>>,
    /// The invoice configuration details.
    pub configuration: Option<Configuration>,
    /// The invoice amount summary of item total, discount, tax total and shipping.
    pub amount: Amount,
    /// The due amount, which is the balance amount outstanding after payments.
    pub due_amount: Option<Money>,
    /// The amount paid by the payer as gratuity to the invoicer.
    pub gratuity: Option<Money>,
    /// List of payments registered against the invoice.
    pub payments: Option<Payments>,
    /// List of refunds against this invoice.
    pub refunds: Option<Refunds>,
    /// An array of request-related HATEOAS links.
    pub links: Option<Vec<LinkDescription>>,
}

impl FromJson for Invoice {
    /// An invoice, as returned by the Invoicing API.
    open spec fn spec_decodable(j: Json) -> bool {
        &&& j.spec_field_string("id"@) is Some
        &&& j.spec_field_opt_string("parent_id"@) is Some
        &&& spec_obj_decodable::<Status>(j, "status"@)
        &&& spec_obj_decodable::<InvoiceDetail>(j, "detail"@)
        &&& spec_opt_obj_decodable::<InvoicerInfo>(j, "invoicer"@)
        &&& spec_opt_arr_decodable::<RecipientInfo>(j, "primary_recipients"@)
        &&& spec_opt_arr_decodable::<String>(j, "additional_recipients"@)
        &&& spec_opt_arr_decodable::<Item>(j, "items"@)
        &&& spec_opt_obj_decodable::<Configuration>(j, "configuration"@)
        &&& spec_obj_decodable::<Amount>(j, "amount"@)
        &&& spec_opt_obj_decodable::<Money>(j, "due_amount"@)
        &&& spec_opt_obj_decodable::<Money>(j, "gratuity"@)
        &&& spec_opt_obj_decodable::<Payments>(j, "payments"@)
        &&& spec_opt_obj_decodable::<Refunds>(j, "refunds"@)
        &&& spec_opt_arr_decodable::<LinkDescription>(j, "links"@)
    }

    open spec fn spec_matches(self, j: Json) -> bool {
        &&& Some(self.id) == j.spec_field_string("id"@)
        &&& Some(self.parent_id) == j.spec_field_opt_string("parent_id"@)
        &&& spec_obj_matches(self.status, j, "status"@)
        &&& spec_obj_matches(self.detail, j, "detail"@)
        &&& spec_opt_obj_matches(self.invoicer, j, "invoicer"@)
        &&& spec_opt_arr_matches(
            match self.primary_recipients {
                Some(v) => Some(v@),
                None => None,
            },
            j,
            "primary_recipients"@,
        )
        &&& spec_opt_arr_matches(
            match self.additional_recipients {
                Some(v) => Some(v@),
                None => None,
            },
            j,
            "additional_recipients"@,
        )
        &&& spec_opt_arr_matches(
            match self.items {
                Some(v) => Some(v@),
                None => None,
            },
            j,
            "items"@,
        )
        &&& spec_opt_obj_matches(self.configuration, j, "configuration"@)
        &&& spec_obj_matches(self.amount, j, "amount"@)
        &&& spec_opt_obj_matches(self.due_amount, j, "due_amount"@)
        &&& spec_opt_obj_matches(self.gratuity, j, "gratuity"@)
        &&& spec_opt_obj_matches(self.payments, j, "payments"@)
        &&& spec_opt_obj_matches(self.refunds, j, "refunds"@)
        &&& spec_opt_arr_matches(
            match self.links {
                Some(v) => Some(v@),
                None => None,
            },
            j,
            "links"@,
        )
    }

    fn from_json(j: &Json) -> (r: Option<Invoice>)
        ensures
            match r {
                Some(v) => Self::spec_decodable(*j) && v.spec_matches(*j),
                None => !Self::spec_decodable(*j),
            },
    {
        let id = match j.get_str("id") {
            Some(v) => v,
            None => {
                return None;
            },
        };
        let parent_id = match j.get_opt_str("parent_id") {
            Some(v) => v,
            None => {
                return None;
            },
        };
        let status = match get_obj::<Status>(j, "status") {
            Some(v) => v,
            None => {
                return None;
            },
        };
        let detail = match get_obj::<InvoiceDetail>(j, "detail") {
            Some(v) => v,
            None => {
                return None;
            },
        };
        let invoicer = match get_opt_obj::<InvoicerInfo>(j, "invoicer") {
            Some(v) => v,
            None => {
                return None;
            },
        };
        let primary_recipients = match get_opt_arr_of::<RecipientInfo>(j, "primary_recipients") {
            Some(v) => v,
            None => {
                return None;
            },
        };
        let additional_recipients = match get_opt_arr_of::<String>(j, "additional_recipients") {
            Some(v) => v,
            None => {
                return None;
            },
        };
        let items = match get_opt_arr_of::<Item>(j, "items") {
            Some(v) => v,
            None => {
                return None;
            },
        };
        let configuration = match get_opt_obj::<Configuration>(j, "configuration") {
            Some(v) => v,
            None => {
                return None;
            },
        };
        let amount = match get_obj::<Amount>(j, "amount") {
            Some(v) => v,
            None => {
                return None;
            },
        };
        let due_amount = match get_opt_obj::<Money>(j, "due_amount") {
            Some(v) => v,
            None => {
                return None;
            },
        };
        let gratuity = match get_opt_obj::<Money>(j, "gratuity") {
            Some(v) => v,
            None => {
                return None;
            },
        };
        let payments = match get_opt_obj::<Payments>(j, "payments") {
            Some(v) => v,
            None => {
                return None;
            },
        };
        let refunds = match get_opt_obj::<Refunds>(j, "refunds") {
            Some(v) => v,
            None => {
                return None;
            },
        };
        let links = match get_opt_arr_of::<LinkDescription>(j, "links") {
            Some(v) => v,
            None => {
                return None;
            },
        };
        Some(Invoice { id, parent_id, status, detail, invoicer, primary_recipients, additional_recipients, items, configuration, amount, due_amount, gratuity, payments, refunds, links })
    }
}

/// An invoice list.
#[derive(Debug, Clone)]
pub struct InvoiceList {
    /// Total items.
    pub total_items: i32,
    /// Total pages.
    pub total_pages: i32,
    /// The invoices.
    pub items: Vec<Invoice>,
    /// HATEOAS links.
    pub links: Vec<LinkDescription>,
}

impl FromJson for InvoiceList {
    /// An invoice list.
    open spec fn spec_decodable(j: Json) -> bool {
        &&& match j.spec_field_int("total_items"@) {
            Some(n) => i32::MIN <= n <= i32::MAX,
            None => false,
        }
        &&& match j.spec_field_int("total_pages"@) {
            Some(n) => i32::MIN <= n <= i32::MAX,
            None => false,
        }
        &&& spec_arr_decodable::<Invoice>(j, "items"@)
        &&& spec_arr_decodable::<LinkDescription>(j, "links"@)
    }

    open spec fn spec_matches(self, j: Json) -> bool {
        &&& match j.spec_field_int("total_items"@) {
            Some(n) => self.total_items == n as i32,
            None => false,
        }
        &&& match j.spec_field_int("total_pages"@) {
            Some(n) => self.total_pages == n as i32,
            None => false,
        }
        &&& spec_arr_matches(self.items@, j, "items"@)
        &&& spec_arr_matches(self.links@, j, "links"@)
    }

    fn from_json(j: &Json) -> (r: Option<InvoiceList>)
        ensures
            match r {
                Some(v) => Self::spec_decodable(*j) && v.spec_matches(*j),
                None => !Self::spec_decodable(*j),
            },
    {
        let total_items_wide = match j.get_i64("total_items") {
            Some(n) => n,
            None => {
                return None;
            },
        };
        if total_items_wide < i32::MIN as i64 || total_items_wide > i32::MAX as i64 {
            return None;
        }
        let total_items: i32 = total_items_wide as i32;
        let total_pages_wide = match j.get_i64("total_pages") {
            Some(n) => n,
            None => {
                return None;
            },
        };
        if total_pages_wide < i32::MIN as i64 || total_pages_wide > i32::MAX as i64 {
            return None;
        }
        let total_pages: i32 = total_pages_wide as i32;
        let items = match get_arr_of::<Invoice>(j, "items") {
            Some(v) => v,
            None => {
                return None;
            },
        };
        let links = match get_arr_of::<LinkDescription>(j, "links") {
            Some(v) => v,
            None => {
                return None;
            },
        };
        Some(InvoiceList { total_items, total_pages, items, links })
    }
}

/// Cancel invoice reason.
#[derive(Debug, Clone)]
pub struct CancelReason {
    /// The subject of the email that is sent as a notification to the recipient.
    pub subject: Option<String>,
    /// A note to the payer.
    pub note: Option<String>,
    /// Indicates whether to send a copy of the email to the merchant.
    pub send_to_invoicer: Option<bool>,
    /// Indicates whether to send a copy of the email to the recipient.
    pub send_to_recipient: Option<bool>,
    /// An array of one or more CC: emails to which notifications are sent.
    pub additional_recipients: Option<Vec<String>>,
}

/// The options used when sending or scheduling an invoice.
#[derive(Debug, Clone)]
pub struct SendInvoicePayload {
    /// The subject of the email that is sent as a notification to the recipient.
    pub subject: Option<String>,
    /// A note to the payer.
    pub note: Option<String>,
    /// Indicates whether to send a copy of the email to the merchant.
    pub send_to_invoicer: Option<bool>,
    /// Indicates whether to send a copy of the email to the recipient.
    pub send_to_recipient: Option<bool>,
    /// An array of one or more CC: emails to which notifications are sent.
    pub additional_recipients: Option<Vec<String>>,
}

/// QR creation parameters.
#[derive(Debug, Clone)]
pub struct QRCodeParams {
    /// The width, in pixels, of the QR code image. Value is from 150 to 500.
    pub width: i32,
    /// The height, in pixels, of the QR code image. Value is from 150 to 500.
    pub height: i32,
    /// The type of URL for which to generate a QR code. Valid values are pay and details.
    pub action: Option<String>,
}

impl QRCodeParams {
    /// The JSON body of the QR-code request: the width and height as whole
    /// numbers, and the action exactly when one is set.
    pub fn to_json(&self) -> (r: Json)
        ensures
            r is Obj,
            r.spec_field_int("width"@) == Some(self.width as i64),
            r.spec_field_int("height"@) == Some(self.height as i64),
            r.spec_field_opt_string("action"@) == Some(self.action),
    {
        let mut fields: Vec<(String, Json)> = Vec::new();
        fields.push((String::from_str("width"), Json::Int(self.width as i64)));
        fields.push((String::from_str("height"), Json::Int(self.height as i64)));
        match &self.action {
            Some(a) => {
                fields.push((String::from_str("action"), Json::Str(a.clone())));
            },
            None => {},
        }
        proof {
            reveal_strlit("width");
            reveal_strlit("height");
            reveal_strlit("action");
            assert(("width"@).len() == 5 && ("height"@).len() == 6 && ("action"@).len() == 6);
            assert("width"@ != "height"@);
            assert("width"@ != "action"@);
            assert(("height"@)[0] != ("action"@)[0]);
            assert("height"@ != "action"@);
        }
        let ghost fv = fields@;
        let r = Json::Obj(fields);
        proof {
            assert(spec_obj_get(fv, "width"@) == Some(fv[0].1));
            assert(spec_obj_get(fv, "height"@) == spec_obj_get(fv.drop_first(), "height"@));
            assert(fv.drop_first()[0] == fv[1]);
            assert(spec_obj_get(fv.drop_first(), "height"@) == Some(fv[1].1));
            assert(spec_obj_get(fv, "action"@) == spec_obj_get(fv.drop_first(), "action"@));
            assert(spec_obj_get(fv.drop_first(), "action"@) == spec_obj_get(
                fv.drop_first().drop_first(),
                "action"@,
            ));
            if self.action is Some {
                assert(fv.drop_first().drop_first()[0] == fv[2]);
                assert(spec_obj_get(fv.drop_first().drop_first(), "action"@) == Some(fv[2].1));
            } else {
                assert(fv.drop_first().drop_first().len() == 0);
            }
        }
        r
    }
}

/// Used to record a payment.
#[derive(Debug, Clone)]
pub struct RecordPaymentPayload {
    /// The ID for the payment transaction.
    pub payment_id: Option<String>,
    /// The date when the payment was made, as RFC 3339 text.
    pub payment_date: Option<String>,
    /// The payment mode or method.
    pub method: PaymentMethod,
    /// A note associated with the payment.
    pub note: Option<String>,
    /// The payment amount to record against the invoice.
    pub amount: Amount,
    /// The recipient's shipping information.
    pub shipping_info: Option<ContactInformation>,
}

} // verus!
