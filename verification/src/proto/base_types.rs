//! On the wire: the parts that many messages share: addresses, names, officers, capital.

use vstd::prelude::*;

verus! {

#[derive(Clone, Copy, Debug, PartialEq, Eq, Structural)]
pub enum CompanyType {
    EW,
    SC,
    NI,
    R,
    OC,
    SO,
    NC
}

impl CompanyType {
    /// The prefix that a company of this type carries in front of its number.
    pub open spec fn prefix(self) -> Seq<char> {
        match self {
            Self::EW => ""@,
            Self::SC => "SC"@,
            Self::NI => "NI"@,
            Self::R => "R"@,
            Self::OC => "OC"@,
            Self::SO => "SO"@,
            Self::NC => "NC"@,
        }
    }

    pub fn to_string(&self) -> (r: String)
        ensures
            r@ == self.prefix(),
    {
        match self {
            Self::EW => "".to_owned(),
            Self::SC => "SC".to_owned(),
            Self::NI => "NI".to_owned(),
            Self::R => "R".to_owned(),
            Self::OC => "OC".to_owned(),
            Self::SO => "SO".to_owned(),
            Self::NC => "NC".to_owned(),
        }
    }
}

#[derive(Clone, Copy, Debug, PartialEq, Eq, Structural)]
pub enum RecordType {
    Members,
    Directors,
    DirectorsServiceContracts,
    DirectorsIndemnities,
    Secretaries,
    ResolutionsAndMeetings,
    DebentureHolders,
    RegisterOfChargesEnglandWalesAndNorthernIreland,
    RegisterOfChargesScotland,
    OwnSharePurchaseContracts,
    OwnShareCapital,
    InvestigationReports,
    RegisterOfInterests,
    LLPMembers,
    PersonsOfSignificantControl,
}

#[derive(Clone, Copy, Debug, PartialEq, Eq, Structural)]
pub enum RegisterType {
    Directors,
    DirectorsUsualResidentialAddress,
    Secretaries,
    Members,
    LLPMembers,
    LLPMembersUsualResidentialAddress,
    PersonsOfSignificantControl,
}

#[derive(Clone, Debug)]
pub struct PartialDOBType {
    pub month: u32,
    pub year: u64
}

#[derive(Clone, Debug)]
pub struct SICCodes {
    /// Min length 4; max length 5; pattern \[0-9\]*
    pub codes: Vec<String>,
}

#[derive(Clone, Debug)]
pub struct UKAddress {
    pub premise: String,
    pub street: Option<String>,
    pub thoroughfare: Option<String>,
    pub post_town: String,
    pub county: Option<String>,
    pub country: UKCountry,
    pub postcode: Option<String>,
    pub care_of_name: Option<String>,
    pub po_box: Option<String>
}

#[derive(Clone, Copy, Debug, PartialEq, Eq, Structural)]
pub enum UKCountry {
    England,
    Wales,
    Scotland,
    NorthernIreland,
    GreatBritain,
    Undefined
}

#[derive(Clone, Debug)]
pub struct BaseAddress {
    pub premise: String,
    pub street: Option<String>,
    pub thoroughfare: Option<String>,
    pub post_town: String,
    pub county: Option<String>,
    pub country: Option<AddressCountry>,
    pub postcode: Option<String>,
}

#[derive(Clone, Debug)]
pub struct CompanyAddress {
    pub base_address: BaseAddress,
    pub care_of_name: Option<String>,
    pub po_box: Option<String>
}

#[derive(Clone, Debug)]
pub enum AddressCountry {
    Country(AddressCountryType),
    OtherCountry(String)
}

#[derive(Clone, Copy, Debug, PartialEq, Eq, Structural)]
pub enum AddressCountryType {
    England,
    Wales,
    Scotland,
    NorthernIreland,
    GreatBritain,
    UnitedStatesOfAmerica,
    Ireland,
    Germany,
    France,
    Italy,
    Spain,
    Portugal,
    Netherlands,
    Poland,
    Belgium,
    Norway,
    Sweden,
    Denmark,
    Australia,
    NewZealand,
    Canada,
    SouthAfrica,
    Austria,
    Croatia,
    Cyprus,
    Czechia,
    Estonia,
    Hungary,
    Greece,
    Lithuania,
}

#[derive(Clone, Debug)]
pub struct StatementOfCapital {
    pub capital: Vec<Capital>
}

#[derive(Clone, Debug)]
pub struct Capital {
    pub total_amount_unpaid: crate::decimal::Decimal,
    pub total_issued_shares: crate::decimal::Decimal,
    pub share_currency: String,
    pub total_aggregate_value: crate::decimal::Decimal,
    pub shares: Vec<Share>
}

#[derive(Clone, Debug)]
pub struct Share {
    pub share_class: String,
    pub particulars: String,
    pub num_shares: crate::decimal::Decimal,
    pub aggregate_value: crate::decimal::Decimal,
}

#[derive(Clone, Debug)]
pub enum StocksOrSharesHeld {
    SharesHeld(SharesHeld),
    StocksHeld(StocksHeld)
}

#[derive(Clone, Debug)]
pub struct Shares {
    pub num_shares: crate::decimal::Decimal,
    pub share_class: String,
    pub share_reference: Option<String>,
}

#[derive(Clone, Debug)]
pub struct SharesHeld {
    pub shares: Shares,
    pub paid_up: crate::decimal::Decimal,
}

#[derive(Clone, Debug)]
pub struct StocksHeld {
    pub stock_class: String,
    pub amount_held: crate::decimal::Decimal,
    pub currency: Option<String>,
}

#[derive(Clone, Debug)]
pub struct CompanyMember {
    pub member_class: Option<String>,
    pub name: CompanyMemberName,
    pub address: BaseAddress
}

#[derive(Clone, Debug)]
pub enum CompanyMemberName {
    CorporateName(String),
    Person(Person)
}

#[derive(Clone, Debug)]
pub struct Person {
    pub surname: String,
    pub forename: String,
}

#[derive(Clone, Debug)]
pub struct PersonReturnType {
    pub title: Option<String>,
    pub forenames: Vec<String>,
    pub surname: String,
}

#[derive(Clone, Debug)]
pub struct PersonType {
    pub title: Option<String>,
    pub surname: String,
    pub forename: Option<String>,
    pub other_forenames: Option<String>,
}

#[derive(Clone, Debug)]
pub struct PersonType2 {
    pub title: Option<String>,
    pub forename: Option<String>,
    pub other_forenames: Option<String>,
    pub surname: String,
}

#[derive(Clone, Debug)]
pub struct ServiceAddressType {
    pub same_as_registered_office: bool,
    pub address: Option<Box<CompanyAddress>>
}

#[derive(Clone, Debug)]
pub struct ResidentialAddressType {
    pub same_as_service_address: bool,
    pub address: Option<ResidentialBaseAddress>
}

#[derive(Clone, Debug)]
pub struct ResidentialBaseAddress {
    pub address: BaseAddress,
    pub secure_address: Option<bool>
}

#[derive(Clone, Debug)]
pub struct DirectorPersonType<P> {
    pub person: P,
    pub service_address: ServiceAddressType,
    pub date_of_birth: crate::time::Date,
    pub nationality: String,
    pub occupation: String,
    pub country_of_residence: Option<String>,
    pub previous_names: Vec<PreviousNameType>,
    pub residential_address: ResidentialAddressType
}

#[derive(Clone, Debug)]
pub struct SecretaryPersonType<P> {
    pub person: P,
    pub service_address: ServiceAddressType,
    pub previous_names: Vec<PreviousNameType>,
}

#[derive(Clone, Debug)]
pub struct MemberPersonType<P> {
    pub person: P,
    pub service_address: ServiceAddressType,
    pub date_of_birth: crate::time::Date,
    pub country_of_residence: Option<String>,
    pub previous_names: Vec<PreviousNameType>,
    pub residential_address: ResidentialAddressType
}

#[derive(Clone, Debug)]
pub struct PreviousNameType {
    pub forename: Option<String>,
    pub surname: String,
}

#[derive(Clone, Debug)]
pub struct CorporateOfficerType {
    pub corporate_name: String,
    pub address: CompanyAddress,
    pub company_identification: Option<CompanyIdentification>,
}

#[derive(Clone, Debug)]
pub enum CompanyIdentification {
    UK {
        registration_number: String,
    },
    NonUK {
        place_registered: Option<String>,
        registration_number: Option<String>,
        governing_law: String,
        legal_form: String,
    }
}

#[derive(Clone, Debug)]
pub struct CorporateOfficerAppointmentType {
    pub name: Option<Person>,
    pub corporate_officer: CorporateOfficerType,
}

#[derive(Clone, Debug)]
pub enum DirectorAppointmentType {
    Person(Box<DirectorPersonType<PersonType2>>),
    Corporate(Box<CorporateOfficerAppointmentType>)
}

#[derive(Clone, Debug)]
pub enum SecretaryAppointmentType {
    Person(SecretaryPersonType<PersonType2>),
    Corporate(Box<CorporateOfficerAppointmentType>)
}

#[derive(Clone, Debug)]
pub enum MemberAppointmentTypeInner {
    Person(Box<MemberPersonType<PersonType2>>),
    Corporate(Box<CorporateOfficerAppointmentType>)
}

#[derive(Clone, Debug)]
pub struct MemberAppointmentType {
    pub designated: bool,
    pub inner: MemberAppointmentTypeInner
}

#[derive(Clone, Debug)]
pub struct Allotment {
    pub share_class: String,
    pub num_shares: crate::decimal::Decimal,
    pub amount_paid_due_per_share: crate::decimal::Decimal,
    pub amount_unpaid_per_share: crate::decimal::Decimal,
    pub share_currency: String,
    pub share_value: crate::decimal::Decimal,
    pub share_reference: Option<String>
}

#[derive(Clone, Debug)]
pub struct PersonalAttribute {
    pub personal_attribute: PersonalAttributeType,
    pub personal_data: String
}

#[derive(Clone, Copy, Debug, PartialEq, Eq, Structural)]
pub enum PersonalAttributeType {
    BirthTown,
    Telephone,
    NationalInsurance,
    PassportNumber,
    MothersMaiden,
    FathersForename
}

} // verus!
