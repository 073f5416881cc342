//! On the wire: the envelope, and the table of the bodies it carries.

use vstd::prelude::*;
use crate::text::same;

verus! {

#[derive(Clone, Debug)]
pub struct GovTalkRoot {
    pub message: GovTalkMessage
}

#[derive(Clone, Debug)]
pub struct GovTalkMessage {
    pub envelope_version: String,
    pub header: GovTalkHeader,
    pub details: GovTalkDetails,
    pub body: Option<GovTalkBody>,
}

#[derive(Clone, Debug)]
pub struct GovTalkHeader {
    pub message_details: GovTalkMessageDetails,
    pub sender_details: Option<GovTalkSenderDetails>,
}

#[derive(Clone, Debug)]
pub struct GovTalkMessageDetails {
    /// Min length: 4
    /// Max length: 32
    pub class: String,
    pub qualifier: GovTalkQualifier,
    pub function: Option<GovTalkFunction>,
    /// Max length: 32
    /// Regex: `[0-9][A-F]{0,32}`
    pub transaction_id: Option<String>,
    /// Max length: 32
    /// Regex: `[0-9][A-F]{0,32}`
    pub audit_id: Option<String>,
    /// Max length: 32
    /// Regex: `[0-9][A-F]{0,32}`
    pub correlation_id: Option<String>,
    pub response_endpoint: Option<GovTalkResponseEndpoint>,
    pub transformation: Option<GovTalkTransformation>,
    pub gateway_test: Option<i32>,
    pub gateway_timestamp: Option<crate::time::Timestamp>,
}

#[derive(Clone, Debug)]
pub struct GovTalkResponseEndpoint {
    pub value: String,
    pub poll_interval: u32,
}

/// The poll interval, in seconds, of a response endpoint that names none.
pub fn poll_interval_default() -> (r: u32)
    ensures
        r == 2,
{
    2
}

#[derive(Clone, Debug)]
pub struct GovTalkSenderDetails {
    pub id_authentication: Option<GovTalkIDAuthentication>,
    /// Max length: 129
    /// Min length: 3
    pub email_address: Option<String>,
}

#[derive(Clone, Debug)]
pub struct GovTalkIDAuthentication {
    pub sender_id: Option<String>,
    pub authentication: Vec<GovTalkAuthentication>,
}

#[derive(Clone, Debug)]
pub struct GovTalkAuthentication {
    pub method: GovTalkAuthenticationMethod,
    pub role: Option<String>,
    pub value: String,
}

#[derive(Clone, Debug)]
pub struct GovTalkDetails {
    pub keys: Option<GovTalkKeys>,
    pub target_details: Option<GovTalkTargetDetails>,
    pub gateway_validation: Option<GovTalkGatewayValidation>,
    pub channel_routing: Vec<GovTalkChannelRouting>,
    pub errors: Option<GovTalkErrors>,
}

#[derive(Clone, Debug)]
pub struct GovTalkKeys {
    pub keys: Vec<GovTalkKey>
}

#[derive(Clone, Debug)]
pub struct GovTalkKey {
    pub key: String,
    pub key_type: String,
}

#[derive(Clone, Debug)]
pub struct GovTalkTargetDetails {
    pub organisations: Vec<String>
}

#[derive(Clone, Debug)]
pub struct GovTalkGatewayValidation {
    pub processed: GovTalkProcessed,
    pub result: GovTalkResult,
}

#[derive(Clone, Debug)]
pub struct GovTalkChannelRouting {
    pub channel: GovTalkChannel,
    pub ids: Option<GovTalkChannelID>,
    pub timestamp: Option<crate::time::Timestamp>,
}

#[derive(Clone, Debug)]
pub struct GovTalkChannel {
    pub id: GovTalkChannelIDSelect,
    pub product: Option<String>,
    pub version: Option<String>,
}

#[derive(Clone, Debug)]
pub enum GovTalkChannelIDSelect {
    Uri(String),
    Name(String)
}

#[derive(Clone, Debug)]
pub struct GovTalkChannelID {
    pub id: String,
    pub id_type: String,
}

#[derive(Clone, Debug)]
pub struct GovTalkErrors {
    pub errors: Vec<GovTalkError>
}

#[derive(Clone, Debug)]
pub struct GovTalkError {
    pub raised_by: String,
    pub number: Option<i32>,
    pub error_type: GovTalkErrorType,
    pub text: Vec<String>,
    pub location: Vec<Option<String>>,
}

#[derive(Clone, Copy, Debug, PartialEq, Eq, Structural)]
pub enum GovTalkErrorType {
    Fatal,
    Recoverable,
    Business,
    Warning
}

#[derive(Clone, Copy, Debug, PartialEq, Eq, Structural)]
pub enum GovTalkQualifier {
    Request,
    Acknowledgement,
    Response,
    Poll,
    Error
}

#[derive(Clone, Copy, Debug, PartialEq, Eq, Structural)]
pub enum GovTalkFunction {
    List,
    Read,
    Delete,
    Add,
    Submit
}

#[derive(Clone, Copy, Debug, PartialEq, Eq, Structural)]
pub enum GovTalkTransformation {
    Xml,
    Html,
    Text,
}

#[derive(Clone, Copy, Debug, PartialEq, Eq, Structural)]
pub enum GovTalkAuthenticationMethod {
    Clear,
    CHMD5,
    W3CSigned,
}

#[derive(Clone, Copy, Debug, PartialEq, Eq, Structural)]
pub enum GovTalkProcessed {
    No,
    Yes,
}

#[derive(Clone, Copy, Debug, PartialEq, Eq, Structural)]
pub enum GovTalkResult {
    Pass,
    Fail,
}

#[derive(Clone, Debug)]
pub enum GovTalkBody {
    CompanyDataRequest(super::company_data::CompanyDataRequest),
    CompanyData(Box<super::company_data::CompanyData>),
    MembersDataRequest(super::members_data::MembersDataRequest),
    MembersData(super::members_data::MembersData),
    PaymentPeriodsRequest(super::payment_periods::PaymentPeriodsRequest),
    PaymentPeriods(super::payment_periods::PaymentPeriods),
    GetERemindersRequest(super::e_reminders::GetERemindersRequest),
    SetERemindersRequest(super::e_reminders::SetERemindersRequest),
    EReminders(super::e_reminders::EReminders),
    GetStatusAck {},
    Status {},
    GetSubmissionStatus(super::submission_status::GetSubmissionStatus),
    SubmissionStatus(super::submission_status::SubmissionStatus),
    GetDocument(super::document::GetDocument),
    Document(super::document::Document),
    ChargeSearch(super::charge_search::ChargeSearch),
    Charges(super::charge_search::Charges),
    FormSubmission(Box<super::form_submission::FormSubmission>),
}

/// The namespace of the envelope and of what the registry sends back in it.
pub const ENVELOPE_NAMESPACE: &'static str = "http://www.govtalk.gov.uk/CM/envelope";

/// The namespace of the registry's own schemas.
pub const XMLGW_NAMESPACE: &'static str = "http://xmlgw.companieshouse.gov.uk";

/// The namespace of a form submission.
pub const HEADER_NAMESPACE: &'static str = "http://xmlgw.companieshouse.gov.uk/Header";

/// Which way a body travels.
#[derive(Clone, Copy, Debug, PartialEq, Eq, Structural)]
pub enum Direction {
    /// From the presenter to the registry.
    Request,
    /// From the registry to the presenter.
    Response,
}

/// The kinds of body that an envelope can carry, one for each variant of [`GovTalkBody`].
#[derive(Clone, Copy, Debug, PartialEq, Eq, Structural)]
pub enum BodyKind {
    CompanyDataRequest,
    CompanyData,
    MembersDataRequest,
    MembersData,
    PaymentPeriodsRequest,
    PaymentPeriods,
    GetERemindersRequest,
    SetERemindersRequest,
    EReminders,
    GetStatusAck,
    Status,
    GetSubmissionStatus,
    SubmissionStatus,
    GetDocument,
    Document,
    ChargeSearch,
    Charges,
    FormSubmission,
}

impl BodyKind {
    /// The namespace of the body's element on the wire.
    pub open spec fn spec_namespace(self) -> Seq<char> {
        match self {
            BodyKind::CompanyDataRequest => XMLGW_NAMESPACE@,
            BodyKind::CompanyData => ENVELOPE_NAMESPACE@,
            BodyKind::MembersDataRequest => ENVELOPE_NAMESPACE@,
            BodyKind::MembersData => ENVELOPE_NAMESPACE@,
            BodyKind::PaymentPeriodsRequest => XMLGW_NAMESPACE@,
            BodyKind::PaymentPeriods => ENVELOPE_NAMESPACE@,
            BodyKind::GetERemindersRequest => ENVELOPE_NAMESPACE@,
            BodyKind::SetERemindersRequest => ENVELOPE_NAMESPACE@,
            BodyKind::EReminders => ENVELOPE_NAMESPACE@,
            BodyKind::GetStatusAck => XMLGW_NAMESPACE@,
            BodyKind::Status => ENVELOPE_NAMESPACE@,
            BodyKind::GetSubmissionStatus => XMLGW_NAMESPACE@,
            BodyKind::SubmissionStatus => ENVELOPE_NAMESPACE@,
            BodyKind::GetDocument => XMLGW_NAMESPACE@,
            BodyKind::Document => ENVELOPE_NAMESPACE@,
            BodyKind::ChargeSearch => XMLGW_NAMESPACE@,
            BodyKind::Charges => XMLGW_NAMESPACE@,
            BodyKind::FormSubmission => HEADER_NAMESPACE@,
        }
    }

    /// The local name of the body's element on the wire.
    pub open spec fn spec_element(self) -> Seq<char> {
        match self {
            BodyKind::CompanyDataRequest => "CompanyDataRequest"@,
            BodyKind::CompanyData => "CompanyData"@,
            BodyKind::MembersDataRequest => "MembersRegisterDataRequest"@,
            BodyKind::MembersData => "MembersRegisterData"@,
            BodyKind::PaymentPeriodsRequest => "PaymentPeriodsRequest"@,
            BodyKind::PaymentPeriods => "PaymentPeriods"@,
            BodyKind::GetERemindersRequest => "GetERemindersRequest"@,
            BodyKind::SetERemindersRequest => "SetERemindersRequest"@,
            BodyKind::EReminders => "EReminders"@,
            BodyKind::GetStatusAck => "StatusAck"@,
            BodyKind::Status => "status"@,
            BodyKind::GetSubmissionStatus => "GetSubmissionStatus"@,
            BodyKind::SubmissionStatus => "SubmissionStatus"@,
            BodyKind::GetDocument => "GetDocument"@,
            BodyKind::Document => "Document"@,
            BodyKind::ChargeSearch => "ChargeSearch"@,
            BodyKind::Charges => "Charges"@,
            BodyKind::FormSubmission => "FormSubmission"@,
        }
    }

    /// The kind whose element has this namespace and this local name, if there is one.
    pub open spec fn spec_from_tag(namespace: Seq<char>, element: Seq<char>) -> Option<BodyKind> {
        if element == "CompanyDataRequest"@ && namespace == XMLGW_NAMESPACE@ {
            Some(BodyKind::CompanyDataRequest)
        } else if element == "CompanyData"@ && namespace == ENVELOPE_NAMESPACE@ {
            Some(BodyKind::CompanyData)
        } else if element == "MembersRegisterDataRequest"@ && namespace == ENVELOPE_NAMESPACE@ {
            Some(BodyKind::MembersDataRequest)
        } else if element == "MembersRegisterData"@ && namespace == ENVELOPE_NAMESPACE@ {
            Some(BodyKind::MembersData)
        } else if element == "PaymentPeriodsRequest"@ && namespace == XMLGW_NAMESPACE@ {
            Some(BodyKind::PaymentPeriodsRequest)
        } else if element == "PaymentPeriods"@ && namespace == ENVELOPE_NAMESPACE@ {
            Some(BodyKind::PaymentPeriods)
        } else if element == "GetERemindersRequest"@ && namespace == ENVELOPE_NAMESPACE@ {
            Some(BodyKind::GetERemindersRequest)
        } else if element == "SetERemindersRequest"@ && namespace == ENVELOPE_NAMESPACE@ {
            Some(BodyKind::SetERemindersRequest)
        } else if element == "EReminders"@ && namespace == ENVELOPE_NAMESPACE@ {
            Some(BodyKind::EReminders)
        } else if element == "StatusAck"@ && namespace == XMLGW_NAMESPACE@ {
            Some(BodyKind::GetStatusAck)
        } else if element == "status"@ && namespace == ENVELOPE_NAMESPACE@ {
            Some(BodyKind::Status)
        } else if element == "GetSubmissionStatus"@ && namespace == XMLGW_NAMESPACE@ {
            Some(BodyKind::GetSubmissionStatus)
        } else if element == "SubmissionStatus"@ && namespace == ENVELOPE_NAMESPACE@ {
            Some(BodyKind::SubmissionStatus)
        } else if element == "GetDocument"@ && namespace == XMLGW_NAMESPACE@ {
            Some(BodyKind::GetDocument)
        } else if element == "Document"@ && namespace == ENVELOPE_NAMESPACE@ {
            Some(BodyKind::Document)
        } else if element == "ChargeSearch"@ && namespace == XMLGW_NAMESPACE@ {
            Some(BodyKind::ChargeSearch)
        } else if element == "Charges"@ && namespace == XMLGW_NAMESPACE@ {
            Some(BodyKind::Charges)
        } else if element == "FormSubmission"@ && namespace == HEADER_NAMESPACE@ {
            Some(BodyKind::FormSubmission)
        } else {
            None
        }
    }

    /// The namespace of the body's element on the wire.
    pub fn namespace(self) -> (r: &'static str)
        ensures
            r@ == self.spec_namespace(),
    {
        match self {
            BodyKind::CompanyDataRequest => XMLGW_NAMESPACE,
            BodyKind::CompanyData => ENVELOPE_NAMESPACE,
            BodyKind::MembersDataRequest => ENVELOPE_NAMESPACE,
            BodyKind::MembersData => ENVELOPE_NAMESPACE,
            BodyKind::PaymentPeriodsRequest => XMLGW_NAMESPACE,
            BodyKind::PaymentPeriods => ENVELOPE_NAMESPACE,
            BodyKind::GetERemindersRequest => ENVELOPE_NAMESPACE,
            BodyKind::SetERemindersRequest => ENVELOPE_NAMESPACE,
            BodyKind::EReminders => ENVELOPE_NAMESPACE,
            BodyKind::GetStatusAck => XMLGW_NAMESPACE,
            BodyKind::Status => ENVELOPE_NAMESPACE,
            BodyKind::GetSubmissionStatus => XMLGW_NAMESPACE,
            BodyKind::SubmissionStatus => ENVELOPE_NAMESPACE,
            BodyKind::GetDocument => XMLGW_NAMESPACE,
            BodyKind::Document => ENVELOPE_NAMESPACE,
            BodyKind::ChargeSearch => XMLGW_NAMESPACE,
            BodyKind::Charges => XMLGW_NAMESPACE,
            BodyKind::FormSubmission => HEADER_NAMESPACE,
        }
    }

    /// The local name of the body's element on the wire.
    pub fn element(self) -> (r: &'static str)
        ensures
            r@ == self.spec_element(),
    {
        match self {
            BodyKind::CompanyDataRequest => "CompanyDataRequest",
            BodyKind::CompanyData => "CompanyData",
            BodyKind::MembersDataRequest => "MembersRegisterDataRequest",
            BodyKind::MembersData => "MembersRegisterData",
            BodyKind::PaymentPeriodsRequest => "PaymentPeriodsRequest",
            BodyKind::PaymentPeriods => "PaymentPeriods",
            BodyKind::GetERemindersRequest => "GetERemindersRequest",
            BodyKind::SetERemindersRequest => "SetERemindersRequest",
            BodyKind::EReminders => "EReminders",
            BodyKind::GetStatusAck => "StatusAck",
            BodyKind::Status => "status",
            BodyKind::GetSubmissionStatus => "GetSubmissionStatus",
            BodyKind::SubmissionStatus => "SubmissionStatus",
            BodyKind::GetDocument => "GetDocument",
            BodyKind::Document => "Document",
            BodyKind::ChargeSearch => "ChargeSearch",
            BodyKind::Charges => "Charges",
            BodyKind::FormSubmission => "FormSubmission",
        }
    }

    /// Where the schema of the body's namespace is found, for the kinds that say so on the wire.
    pub fn schema_location(self) -> (r: Option<&'static str>)
        ensures
            match r {
                Some(location) => self.spec_schema_location() == Some(location@),
                None => self.spec_schema_location() is None,
            },
            r is Some <==> self.direction() == Direction::Request,
    {
        match self {
            BodyKind::CompanyDataRequest => Some("http://xmlgw.companieshouse.gov.uk/v1-0/schema/CompanyData-v3-4.xsd"),
            BodyKind::CompanyData => None,
            BodyKind::MembersDataRequest => {
                Some("http://xmlgw.companieshouse.gov.uk/v1-0/schema/MembersRegisterData-v1-0.xsd")
            },
            BodyKind::MembersData => None,
            BodyKind::PaymentPeriodsRequest => {
                Some("http://xmlgw.companieshouse.gov.uk/v1-0/schema/PaymentPeriods-v1-0.xsd")
            },
            BodyKind::PaymentPeriods => None,
            BodyKind::GetERemindersRequest => {
                Some("http://xmlgw.companieshouse.gov.uk/v1-0/schema/EReminders-v1-0.xsd")
            },
            BodyKind::SetERemindersRequest => {
                Some("http://xmlgw.companieshouse.gov.uk/v1-0/schema/EReminders-v1-0.xsd")
            },
            BodyKind::EReminders => None,
            BodyKind::GetStatusAck => {
                Some("http://xmlgw.companieshouse.gov.uk/v1-0/schema/forms/GetStatusAck-v1-1.xsd")
            },
            BodyKind::Status => None,
            BodyKind::GetSubmissionStatus => {
                Some("http://xmlgw.companieshouse.gov.uk/v1-0/schema/forms/GetSubmissionStatus-v2-9.xsd")
            },
            BodyKind::SubmissionStatus => None,
            BodyKind::GetDocument => Some("http://xmlgw.companieshouse.gov.uk/v1-0/schema/forms/GetDocument-v1-1.xsd"),
            BodyKind::Document => None,
            BodyKind::ChargeSearch => Some("http://xmlgw.companieshouse.gov.uk/v1-0/schema/ChargeSearch-v2-8.xsd"),
            BodyKind::Charges => None,
            BodyKind::FormSubmission => {
                Some("http://xmlgw.companieshouse.gov.uk/v1-0/schema/forms/FormSubmission-v2-11.xsd")
            },
        }
    }

    /// Where the schema of the body's namespace is found: every kind that
    /// travels to the registry names the schema of its request, and no kind
    /// that comes back names one.
    pub open spec fn spec_schema_location(self) -> Option<Seq<char>> {
        match self {
            BodyKind::CompanyDataRequest => {
                Some("http://xmlgw.companieshouse.gov.uk/v1-0/schema/CompanyData-v3-4.xsd"@)
            },
            BodyKind::CompanyData => None,
            BodyKind::MembersDataRequest => {
                Some("http://xmlgw.companieshouse.gov.uk/v1-0/schema/MembersRegisterData-v1-0.xsd"@)
            },
            BodyKind::MembersData => None,
            BodyKind::PaymentPeriodsRequest => {
                Some("http://xmlgw.companieshouse.gov.uk/v1-0/schema/PaymentPeriods-v1-0.xsd"@)
            },
            BodyKind::PaymentPeriods => None,
            BodyKind::GetERemindersRequest => {
                Some("http://xmlgw.companieshouse.gov.uk/v1-0/schema/EReminders-v1-0.xsd"@)
            },
            BodyKind::SetERemindersRequest => {
                Some("http://xmlgw.companieshouse.gov.uk/v1-0/schema/EReminders-v1-0.xsd"@)
            },
            BodyKind::EReminders => None,
            BodyKind::GetStatusAck => {
                Some("http://xmlgw.companieshouse.gov.uk/v1-0/schema/forms/GetStatusAck-v1-1.xsd"@)
            },
            BodyKind::Status => None,
            BodyKind::GetSubmissionStatus => {
                Some("http://xmlgw.companieshouse.gov.uk/v1-0/schema/forms/GetSubmissionStatus-v2-9.xsd"@)
            },
            BodyKind::SubmissionStatus => None,
            BodyKind::GetDocument => Some("http://xmlgw.companieshouse.gov.uk/v1-0/schema/forms/GetDocument-v1-1.xsd"@),
            BodyKind::Document => None,
            BodyKind::ChargeSearch => Some("http://xmlgw.companieshouse.gov.uk/v1-0/schema/ChargeSearch-v2-8.xsd"@),
            BodyKind::Charges => None,
            BodyKind::FormSubmission => {
                Some("http://xmlgw.companieshouse.gov.uk/v1-0/schema/forms/FormSubmission-v2-11.xsd"@)
            },
        }
    }

    /// Which way a body of this kind travels.
    pub open spec fn spec_direction(self) -> Direction {
        match self {
            BodyKind::CompanyDataRequest => Direction::Request,
            BodyKind::CompanyData => Direction::Response,
            BodyKind::MembersDataRequest => Direction::Request,
            BodyKind::MembersData => Direction::Response,
            BodyKind::PaymentPeriodsRequest => Direction::Request,
            BodyKind::PaymentPeriods => Direction::Response,
            BodyKind::GetERemindersRequest => Direction::Request,
            BodyKind::SetERemindersRequest => Direction::Request,
            BodyKind::EReminders => Direction::Response,
            BodyKind::GetStatusAck => Direction::Request,
            BodyKind::Status => Direction::Response,
            BodyKind::GetSubmissionStatus => Direction::Request,
            BodyKind::SubmissionStatus => Direction::Response,
            BodyKind::GetDocument => Direction::Request,
            BodyKind::Document => Direction::Response,
            BodyKind::ChargeSearch => Direction::Request,
            BodyKind::Charges => Direction::Response,
            BodyKind::FormSubmission => Direction::Request,
        }
    }

    /// Which way a body of this kind travels.
    #[verifier::when_used_as_spec(spec_direction)]
    pub fn direction(self) -> (r: Direction)
        ensures
            r == self.spec_direction(),
    {
        match self {
            BodyKind::CompanyDataRequest => Direction::Request,
            BodyKind::CompanyData => Direction::Response,
            BodyKind::MembersDataRequest => Direction::Request,
            BodyKind::MembersData => Direction::Response,
            BodyKind::PaymentPeriodsRequest => Direction::Request,
            BodyKind::PaymentPeriods => Direction::Response,
            BodyKind::GetERemindersRequest => Direction::Request,
            BodyKind::SetERemindersRequest => Direction::Request,
            BodyKind::EReminders => Direction::Response,
            BodyKind::GetStatusAck => Direction::Request,
            BodyKind::Status => Direction::Response,
            BodyKind::GetSubmissionStatus => Direction::Request,
            BodyKind::SubmissionStatus => Direction::Response,
            BodyKind::GetDocument => Direction::Request,
            BodyKind::Document => Direction::Response,
            BodyKind::ChargeSearch => Direction::Request,
            BodyKind::Charges => Direction::Response,
            BodyKind::FormSubmission => Direction::Request,
        }
    }

    /// The kind whose element has this namespace and this local name, if there is one.
    pub fn from_tag(namespace: &str, element: &str) -> (r: Option<BodyKind>)
        ensures
            r == Self::spec_from_tag(namespace@, element@),
    {
        if same(element, "CompanyDataRequest") && same(namespace, XMLGW_NAMESPACE) {
            Some(BodyKind::CompanyDataRequest)
        } else if same(element, "CompanyData") && same(namespace, ENVELOPE_NAMESPACE) {
            Some(BodyKind::CompanyData)
        } else if same(element, "MembersRegisterDataRequest") && same(namespace, ENVELOPE_NAMESPACE) {
            Some(BodyKind::MembersDataRequest)
        } else if same(element, "MembersRegisterData") && same(namespace, ENVELOPE_NAMESPACE) {
            Some(BodyKind::MembersData)
        } else if same(element, "PaymentPeriodsRequest") && same(namespace, XMLGW_NAMESPACE) {
            Some(BodyKind::PaymentPeriodsRequest)
        } else if same(element, "PaymentPeriods") && same(namespace, ENVELOPE_NAMESPACE) {
            Some(BodyKind::PaymentPeriods)
        } else if same(element, "GetERemindersRequest") && same(namespace, ENVELOPE_NAMESPACE) {
            Some(BodyKind::GetERemindersRequest)
        } else if same(element, "SetERemindersRequest") && same(namespace, ENVELOPE_NAMESPACE) {
            Some(BodyKind::SetERemindersRequest)
        } else if same(element, "EReminders") && same(namespace, ENVELOPE_NAMESPACE) {
            Some(BodyKind::EReminders)
        } else if same(element, "StatusAck") && same(namespace, XMLGW_NAMESPACE) {
            Some(BodyKind::GetStatusAck)
        } else if same(element, "status") && same(namespace, ENVELOPE_NAMESPACE) {
            Some(BodyKind::Status)
        } else if same(element, "GetSubmissionStatus") && same(namespace, XMLGW_NAMESPACE) {
            Some(BodyKind::GetSubmissionStatus)
        } else if same(element, "SubmissionStatus") && same(namespace, ENVELOPE_NAMESPACE) {
            Some(BodyKind::SubmissionStatus)
        } else if same(element, "GetDocument") && same(namespace, XMLGW_NAMESPACE) {
            Some(BodyKind::GetDocument)
        } else if same(element, "Document") && same(namespace, ENVELOPE_NAMESPACE) {
            Some(BodyKind::Document)
        } else if same(element, "ChargeSearch") && same(namespace, XMLGW_NAMESPACE) {
            Some(BodyKind::ChargeSearch)
        } else if same(element, "Charges") && same(namespace, XMLGW_NAMESPACE) {
            Some(BodyKind::Charges)
        } else if same(element, "FormSubmission") && same(namespace, HEADER_NAMESPACE) {
            Some(BodyKind::FormSubmission)
        } else {
            None
        }
    }
}

impl GovTalkBody {
    /// The kind of this body.
    pub open spec fn spec_kind(&self) -> BodyKind {
        match self {
            GovTalkBody::CompanyDataRequest(_) => BodyKind::CompanyDataRequest,
            GovTalkBody::CompanyData(_) => BodyKind::CompanyData,
            GovTalkBody::MembersDataRequest(_) => BodyKind::MembersDataRequest,
            GovTalkBody::MembersData(_) => BodyKind::MembersData,
            GovTalkBody::PaymentPeriodsRequest(_) => BodyKind::PaymentPeriodsRequest,
            GovTalkBody::PaymentPeriods(_) => BodyKind::PaymentPeriods,
            GovTalkBody::GetERemindersRequest(_) => BodyKind::GetERemindersRequest,
            GovTalkBody::SetERemindersRequest(_) => BodyKind::SetERemindersRequest,
            GovTalkBody::EReminders(_) => BodyKind::EReminders,
            GovTalkBody::GetStatusAck {  } => BodyKind::GetStatusAck,
            GovTalkBody::Status {  } => BodyKind::Status,
            GovTalkBody::GetSubmissionStatus(_) => BodyKind::GetSubmissionStatus,
            GovTalkBody::SubmissionStatus(_) => BodyKind::SubmissionStatus,
            GovTalkBody::GetDocument(_) => BodyKind::GetDocument,
            GovTalkBody::Document(_) => BodyKind::Document,
            GovTalkBody::ChargeSearch(_) => BodyKind::ChargeSearch,
            GovTalkBody::Charges(_) => BodyKind::Charges,
            GovTalkBody::FormSubmission(_) => BodyKind::FormSubmission,
        }
    }

    /// The kind of this body.
    #[verifier::when_used_as_spec(spec_kind)]
    pub fn kind(&self) -> (r: BodyKind)
        ensures
            r == self.spec_kind(),
    {
        match self {
            GovTalkBody::CompanyDataRequest(_) => BodyKind::CompanyDataRequest,
            GovTalkBody::CompanyData(_) => BodyKind::CompanyData,
            GovTalkBody::MembersDataRequest(_) => BodyKind::MembersDataRequest,
            GovTalkBody::MembersData(_) => BodyKind::MembersData,
            GovTalkBody::PaymentPeriodsRequest(_) => BodyKind::PaymentPeriodsRequest,
            GovTalkBody::PaymentPeriods(_) => BodyKind::PaymentPeriods,
            GovTalkBody::GetERemindersRequest(_) => BodyKind::GetERemindersRequest,
            GovTalkBody::SetERemindersRequest(_) => BodyKind::SetERemindersRequest,
            GovTalkBody::EReminders(_) => BodyKind::EReminders,
            GovTalkBody::GetStatusAck {  } => BodyKind::GetStatusAck,
            GovTalkBody::Status {  } => BodyKind::Status,
            GovTalkBody::GetSubmissionStatus(_) => BodyKind::GetSubmissionStatus,
            GovTalkBody::SubmissionStatus(_) => BodyKind::SubmissionStatus,
            GovTalkBody::GetDocument(_) => BodyKind::GetDocument,
            GovTalkBody::Document(_) => BodyKind::Document,
            GovTalkBody::ChargeSearch(_) => BodyKind::ChargeSearch,
            GovTalkBody::Charges(_) => BodyKind::Charges,
            GovTalkBody::FormSubmission(_) => BodyKind::FormSubmission,
        }
    }
}

/// Looking a kind's namespace and element name up gives the kind back: no
/// two kinds share a name, so writing and reading go by one and the same table.
pub proof fn law_tag_round_trip(kind: BodyKind)
    ensures
        BodyKind::spec_from_tag(kind.spec_namespace(), kind.spec_element()) == Some(kind),
{
    reveal_strlit("CompanyDataRequest");
    assert("CompanyDataRequest"@.len() == 18 && "CompanyDataRequest"@[0] == 'C');
    reveal_strlit("CompanyData");
    assert("CompanyData"@.len() == 11 && "CompanyData"@[0] == 'C');
    reveal_strlit("MembersRegisterDataRequest");
    assert("MembersRegisterDataRequest"@.len() == 26 && "MembersRegisterDataRequest"@[0] == 'M');
    reveal_strlit("MembersRegisterData");
    assert("MembersRegisterData"@.len() == 19 && "MembersRegisterData"@[0] == 'M');
    reveal_strlit("PaymentPeriodsRequest");
    assert("PaymentPeriodsRequest"@.len() == 21 && "PaymentPeriodsRequest"@[0] == 'P');
    reveal_strlit("PaymentPeriods");
    assert("PaymentPeriods"@.len() == 14 && "PaymentPeriods"@[0] == 'P');
    reveal_strlit("GetERemindersRequest");
    assert("GetERemindersRequest"@.len() == 20 && "GetERemindersRequest"@[0] == 'G');
    reveal_strlit("SetERemindersRequest");
    assert("SetERemindersRequest"@.len() == 20 && "SetERemindersRequest"@[0] == 'S');
    reveal_strlit("EReminders");
    assert("EReminders"@.len() == 10 && "EReminders"@[0] == 'E');
    reveal_strlit("StatusAck");
    assert("StatusAck"@.len() == 9 && "StatusAck"@[0] == 'S');
    reveal_strlit("status");
    assert("status"@.len() == 6 && "status"@[0] == 's');
    reveal_strlit("GetSubmissionStatus");
    assert("GetSubmissionStatus"@.len() == 19 && "GetSubmissionStatus"@[0] == 'G');
    reveal_strlit("SubmissionStatus");
    assert("SubmissionStatus"@.len() == 16 && "SubmissionStatus"@[0] == 'S');
    reveal_strlit("GetDocument");
    assert("GetDocument"@.len() == 11 && "GetDocument"@[0] == 'G');
    reveal_strlit("Document");
    assert("Document"@.len() == 8 && "Document"@[0] == 'D');
    reveal_strlit("ChargeSearch");
    assert("ChargeSearch"@.len() == 12 && "ChargeSearch"@[0] == 'C');
    reveal_strlit("Charges");
    assert("Charges"@.len() == 7 && "Charges"@[0] == 'C');
    reveal_strlit("FormSubmission");
    assert("FormSubmission"@.len() == 14 && "FormSubmission"@[0] == 'F');
}

/// A name that is looked up with success is the name of the kind found.
pub proof fn law_tag_lookup_is_exact(namespace: Seq<char>, element: Seq<char>)
    ensures
        BodyKind::spec_from_tag(namespace, element) matches Some(kind) ==> kind.spec_namespace()
            == namespace && kind.spec_element() == element,
{
}

} // verus!
