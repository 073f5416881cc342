//! How addresses, names and the other shared parts of a request are checked
//! and turned into what goes on the wire, and how what comes back is turned
//! into a reply.

use vstd::prelude::*;
use vstd::string::*;
use crate::ch_ewf_grpc;
use crate::error::ServiceError;
use crate::outside::{
    alpha2_by_alpha3, alpha2_by_id, alpha2_of_alpha2, alpha2_of_alpha3, alpha2_of_id,
    country_by_alpha2, lookup_alpha2,
};
use crate::proto;
use crate::rules::{
    first_rejection, invalid_argument, lemma_first_rejection, non_empty, optional, optional_ok, optional_text,
    or_empty, rejected, required_text, text_ok, text_or_empty,
};
use crate::text::{parse_u32, parsed_u32, same};

verus! {

/// The country of a United Kingdom address as the reply names it.
pub open spec fn spec_uk_country_message(
    country: proto::base_types::UKCountry,
) -> ch_ewf_grpc::base_types::UkAddressCountry {
    match country {
        proto::base_types::UKCountry::England => ch_ewf_grpc::base_types::UkAddressCountry::England,
        proto::base_types::UKCountry::Scotland => ch_ewf_grpc::base_types::UkAddressCountry::Scotland,
        proto::base_types::UKCountry::Wales => ch_ewf_grpc::base_types::UkAddressCountry::Wales,
        proto::base_types::UKCountry::NorthernIreland => ch_ewf_grpc::base_types::UkAddressCountry::NorthernIreland,
        proto::base_types::UKCountry::Undefined => ch_ewf_grpc::base_types::UkAddressCountry::Undefined,
        proto::base_types::UKCountry::GreatBritain => ch_ewf_grpc::base_types::UkAddressCountry::Uk,
    }
}

/// The country of a United Kingdom address as the wire names it; undefined where the request names none.
pub open spec fn spec_uk_country(
    country: Option<ch_ewf_grpc::base_types::UkAddressCountry>,
) -> proto::base_types::UKCountry {
    match country {
        Some(ch_ewf_grpc::base_types::UkAddressCountry::England) => proto::base_types::UKCountry::England,
        Some(ch_ewf_grpc::base_types::UkAddressCountry::Scotland) => proto::base_types::UKCountry::Scotland,
        Some(ch_ewf_grpc::base_types::UkAddressCountry::Wales) => proto::base_types::UKCountry::Wales,
        Some(ch_ewf_grpc::base_types::UkAddressCountry::NorthernIreland) => {
            proto::base_types::UKCountry::NorthernIreland
        },
        Some(ch_ewf_grpc::base_types::UkAddressCountry::Uk) => proto::base_types::UKCountry::GreatBritain,
        _ => proto::base_types::UKCountry::Undefined,
    }
}

impl ch_ewf_grpc::base_types::UkAddress {
    /// Whether `self` is the reply for the address `addr`: every part as it
    /// came, a missing part as an empty text.
    pub open spec fn is_from(self, addr: proto::base_types::UKAddress) -> bool {
        &&& self.premise == addr.premise
        &&& self.street@ == text_or_empty(addr.street)
        &&& self.thoroughfare@ == text_or_empty(addr.thoroughfare)
        &&& self.post_town == addr.post_town
        &&& self.county@ == text_or_empty(addr.county)
        &&& self.country == Some(spec_uk_country_message(addr.country))
        &&& self.postcode@ == text_or_empty(addr.postcode)
        &&& self.care_of_name@ == text_or_empty(addr.care_of_name)
        &&& self.po_box@ == text_or_empty(addr.po_box)
    }

    pub fn from(addr: proto::base_types::UKAddress) -> (r: Self)
        ensures
            r.is_from(addr),
    {
        ch_ewf_grpc::base_types::UkAddress {
            premise: addr.premise,
            street: or_empty(addr.street),
            thoroughfare: or_empty(addr.thoroughfare),
            post_town: addr.post_town,
            county: or_empty(addr.county),
            country: Some(
                match addr.country {
                    proto::base_types::UKCountry::England => ch_ewf_grpc::base_types::UkAddressCountry::England,
                    proto::base_types::UKCountry::Scotland => ch_ewf_grpc::base_types::UkAddressCountry::Scotland,
                    proto::base_types::UKCountry::Wales => ch_ewf_grpc::base_types::UkAddressCountry::Wales,
                    proto::base_types::UKCountry::NorthernIreland => {
                        ch_ewf_grpc::base_types::UkAddressCountry::NorthernIreland
                    },
                    proto::base_types::UKCountry::Undefined => ch_ewf_grpc::base_types::UkAddressCountry::Undefined,
                    proto::base_types::UKCountry::GreatBritain => ch_ewf_grpc::base_types::UkAddressCountry::Uk,
                },
            ),
            postcode: or_empty(addr.postcode),
            care_of_name: or_empty(addr.care_of_name),
            po_box: or_empty(addr.po_box),
        }
    }
}

impl proto::base_types::UKAddress {
    /// Why the address `a` is refused, if it is: the first of its parts, in
    /// this order, that is missing though required or longer than allowed.
    pub open spec fn rejection(a: ch_ewf_grpc::base_types::UkAddress) -> Option<Seq<char>> {
        if !text_ok(a.premise@, 50) {
            Some("Invalid premise"@)
        } else if !text_ok(a.post_town@, 50) {
            Some("Invalid post town"@)
        } else if !optional_ok(a.street@, 50) {
            Some("Invalid street"@)
        } else if !optional_ok(a.thoroughfare@, 50) {
            Some("Invalid thoroughfare"@)
        } else if !optional_ok(a.county@, 50) {
            Some("Invalid county"@)
        } else if !optional_ok(a.postcode@, 15) {
            Some("Invalid postcode"@)
        } else if !optional_ok(a.care_of_name@, 100) {
            Some("Invalid care of name"@)
        } else if !optional_ok(a.po_box@, 10) {
            Some("Invalid PO box"@)
        } else {
            None
        }
    }

    /// The address `a` as it goes on the wire: an empty part is left out.
    pub open spec fn accepted(a: ch_ewf_grpc::base_types::UkAddress) -> Self {
        proto::base_types::UKAddress {
            premise: a.premise,
            street: optional(a.street),
            thoroughfare: optional(a.thoroughfare),
            post_town: a.post_town,
            county: optional(a.county),
            postcode: optional(a.postcode),
            country: spec_uk_country(a.country),
            care_of_name: optional(a.care_of_name),
            po_box: optional(a.po_box),
        }
    }

    /// Whether `self` is what `a` goes on the wire as.
    pub open spec fn is_accepted(self, a: ch_ewf_grpc::base_types::UkAddress) -> bool {
        self == Self::accepted(a)
    }

    pub fn try_from(a: ch_ewf_grpc::base_types::UkAddress) -> (r: Result<Self, ServiceError>)
        ensures
            match Self::rejection(a) {
                Some(message) => rejected(r, message),
                None => r == Ok::<Self, ServiceError>(Self::accepted(a)),
            },
    {
        if !required_text(a.premise.as_str(), 50) {
            return invalid_argument("Invalid premise");
        }
        if !required_text(a.post_town.as_str(), 50) {
            return invalid_argument("Invalid post town");
        }
        if !optional_text(a.street.as_str(), 50) {
            return invalid_argument("Invalid street");
        }
        if !optional_text(a.thoroughfare.as_str(), 50) {
            return invalid_argument("Invalid thoroughfare");
        }
        if !optional_text(a.county.as_str(), 50) {
            return invalid_argument("Invalid county");
        }
        if !optional_text(a.postcode.as_str(), 15) {
            return invalid_argument("Invalid postcode");
        }
        if !optional_text(a.care_of_name.as_str(), 100) {
            return invalid_argument("Invalid care of name");
        }
        if !optional_text(a.po_box.as_str(), 10) {
            return invalid_argument("Invalid PO box");
        }
        Ok(
            proto::base_types::UKAddress {
                premise: a.premise,
                street: non_empty(a.street),
                thoroughfare: non_empty(a.thoroughfare),
                post_town: a.post_town,
                county: non_empty(a.county),
                postcode: non_empty(a.postcode),
                country: match a.country {
                    Some(ch_ewf_grpc::base_types::UkAddressCountry::England) => proto::base_types::UKCountry::England,
                    Some(ch_ewf_grpc::base_types::UkAddressCountry::Scotland) => proto::base_types::UKCountry::Scotland,
                    Some(ch_ewf_grpc::base_types::UkAddressCountry::Wales) => proto::base_types::UKCountry::Wales,
                    Some(ch_ewf_grpc::base_types::UkAddressCountry::NorthernIreland) => {
                        proto::base_types::UKCountry::NorthernIreland
                    },
                    Some(ch_ewf_grpc::base_types::UkAddressCountry::Uk) => proto::base_types::UKCountry::GreatBritain,
                    _ => proto::base_types::UKCountry::Undefined,
                },
                care_of_name: non_empty(a.care_of_name),
                po_box: non_empty(a.po_box),
            },
        )
    }
}

/// The three-letter code of a country that the wire has a name for; nothing
/// for the four nations of the United Kingdom, which have none.
pub open spec fn spec_known_alpha3(country: proto::base_types::AddressCountryType) -> Option<Seq<char>> {
    match country {
        proto::base_types::AddressCountryType::England => None,
        proto::base_types::AddressCountryType::Scotland => None,
        proto::base_types::AddressCountryType::Wales => None,
        proto::base_types::AddressCountryType::NorthernIreland => None,
        proto::base_types::AddressCountryType::GreatBritain => Some("GBR"@),
        proto::base_types::AddressCountryType::UnitedStatesOfAmerica => Some("USA"@),
        proto::base_types::AddressCountryType::Ireland => Some("IRL"@),
        proto::base_types::AddressCountryType::Germany => Some("DEU"@),
        proto::base_types::AddressCountryType::France => Some("FRA"@),
        proto::base_types::AddressCountryType::Italy => Some("ITA"@),
        proto::base_types::AddressCountryType::Spain => Some("ESP"@),
        proto::base_types::AddressCountryType::Portugal => Some("PRT"@),
        proto::base_types::AddressCountryType::Netherlands => Some("NLD"@),
        proto::base_types::AddressCountryType::Poland => Some("POL"@),
        proto::base_types::AddressCountryType::Belgium => Some("BEL"@),
        proto::base_types::AddressCountryType::Norway => Some("NOR"@),
        proto::base_types::AddressCountryType::Sweden => Some("SWE"@),
        proto::base_types::AddressCountryType::Denmark => Some("DNK"@),
        proto::base_types::AddressCountryType::Australia => Some("AUS"@),
        proto::base_types::AddressCountryType::NewZealand => Some("NZL"@),
        proto::base_types::AddressCountryType::Canada => Some("CAN"@),
        proto::base_types::AddressCountryType::SouthAfrica => Some("ZAF"@),
        proto::base_types::AddressCountryType::Austria => Some("AUT"@),
        proto::base_types::AddressCountryType::Croatia => Some("HRV"@),
        proto::base_types::AddressCountryType::Cyprus => Some("CYP"@),
        proto::base_types::AddressCountryType::Czechia => Some("CZE"@),
        proto::base_types::AddressCountryType::Estonia => Some("EST"@),
        proto::base_types::AddressCountryType::Hungary => Some("HUN"@),
        proto::base_types::AddressCountryType::Greece => Some("GRC"@),
        proto::base_types::AddressCountryType::Lithuania => Some("LTU"@),
    }
}

/// The three-letter code of a country that the wire has a name for.
pub fn known_alpha3(country: proto::base_types::AddressCountryType) -> (r: Option<&'static str>)
    ensures
        match r {
            Some(code) => spec_known_alpha3(country) == Some(code@),
            None => spec_known_alpha3(country) is None,
        },
{
    match country {
        proto::base_types::AddressCountryType::England => None,
        proto::base_types::AddressCountryType::Scotland => None,
        proto::base_types::AddressCountryType::Wales => None,
        proto::base_types::AddressCountryType::NorthernIreland => None,
        proto::base_types::AddressCountryType::GreatBritain => Some("GBR"),
        proto::base_types::AddressCountryType::UnitedStatesOfAmerica => Some("USA"),
        proto::base_types::AddressCountryType::Ireland => Some("IRL"),
        proto::base_types::AddressCountryType::Germany => Some("DEU"),
        proto::base_types::AddressCountryType::France => Some("FRA"),
        proto::base_types::AddressCountryType::Italy => Some("ITA"),
        proto::base_types::AddressCountryType::Spain => Some("ESP"),
        proto::base_types::AddressCountryType::Portugal => Some("PRT"),
        proto::base_types::AddressCountryType::Netherlands => Some("NLD"),
        proto::base_types::AddressCountryType::Poland => Some("POL"),
        proto::base_types::AddressCountryType::Belgium => Some("BEL"),
        proto::base_types::AddressCountryType::Norway => Some("NOR"),
        proto::base_types::AddressCountryType::Sweden => Some("SWE"),
        proto::base_types::AddressCountryType::Denmark => Some("DNK"),
        proto::base_types::AddressCountryType::Australia => Some("AUS"),
        proto::base_types::AddressCountryType::NewZealand => Some("NZL"),
        proto::base_types::AddressCountryType::Canada => Some("CAN"),
        proto::base_types::AddressCountryType::SouthAfrica => Some("ZAF"),
        proto::base_types::AddressCountryType::Austria => Some("AUT"),
        proto::base_types::AddressCountryType::Croatia => Some("HRV"),
        proto::base_types::AddressCountryType::Cyprus => Some("CYP"),
        proto::base_types::AddressCountryType::Czechia => Some("CZE"),
        proto::base_types::AddressCountryType::Estonia => Some("EST"),
        proto::base_types::AddressCountryType::Hungary => Some("HUN"),
        proto::base_types::AddressCountryType::Greece => Some("GRC"),
        proto::base_types::AddressCountryType::Lithuania => Some("LTU"),
    }
}

/// The code by which a reply names a country that the wire has a name for:
/// the four nations of the United Kingdom by their subdivision codes, every
/// other as a country given by its three-letter code is named in a reply.
pub open spec fn spec_country_code(country: proto::base_types::AddressCountryType) -> Seq<char> {
    match country {
        proto::base_types::AddressCountryType::England => "GB-ENG"@,
        proto::base_types::AddressCountryType::Scotland => "GB-SCO"@,
        proto::base_types::AddressCountryType::Wales => "GB-WLS"@,
        proto::base_types::AddressCountryType::NorthernIreland => "GB-NIR"@,
        _ => match spec_known_alpha3(country) {
            Some(code) => spec_other_country_code(code),
            None => Seq::empty(),
        },
    }
}

/// The code by which a reply names a country that the wire has a name for.
pub fn country_code(country: proto::base_types::AddressCountryType) -> (r: String)
    ensures
        r@ == spec_country_code(country),
{
    match country {
        proto::base_types::AddressCountryType::England => "GB-ENG".to_owned(),
        proto::base_types::AddressCountryType::Scotland => "GB-SCO".to_owned(),
        proto::base_types::AddressCountryType::Wales => "GB-WLS".to_owned(),
        proto::base_types::AddressCountryType::NorthernIreland => "GB-NIR".to_owned(),
        _ => match known_alpha3(country) {
            Some(code) => other_country_code(code.to_owned()),
            None => String::new(),
        },
    }
}

/// The country that the wire has a name for, by its three-letter code.
pub open spec fn spec_known_country(alpha3: Seq<char>) -> Option<proto::base_types::AddressCountryType> {
    if alpha3 == "GBR"@ {
        Some(proto::base_types::AddressCountryType::GreatBritain)
    } else if alpha3 == "USA"@ {
        Some(proto::base_types::AddressCountryType::UnitedStatesOfAmerica)
    } else if alpha3 == "IRL"@ {
        Some(proto::base_types::AddressCountryType::Ireland)
    } else if alpha3 == "DEU"@ {
        Some(proto::base_types::AddressCountryType::Germany)
    } else if alpha3 == "FRA"@ {
        Some(proto::base_types::AddressCountryType::France)
    } else if alpha3 == "ITA"@ {
        Some(proto::base_types::AddressCountryType::Italy)
    } else if alpha3 == "ESP"@ {
        Some(proto::base_types::AddressCountryType::Spain)
    } else if alpha3 == "PRT"@ {
        Some(proto::base_types::AddressCountryType::Portugal)
    } else if alpha3 == "NLD"@ {
        Some(proto::base_types::AddressCountryType::Netherlands)
    } else if alpha3 == "POL"@ {
        Some(proto::base_types::AddressCountryType::Poland)
    } else if alpha3 == "BEL"@ {
        Some(proto::base_types::AddressCountryType::Belgium)
    } else if alpha3 == "NOR"@ {
        Some(proto::base_types::AddressCountryType::Norway)
    } else if alpha3 == "SWE"@ {
        Some(proto::base_types::AddressCountryType::Sweden)
    } else if alpha3 == "DNK"@ {
        Some(proto::base_types::AddressCountryType::Denmark)
    } else if alpha3 == "AUS"@ {
        Some(proto::base_types::AddressCountryType::Australia)
    } else if alpha3 == "NZL"@ {
        Some(proto::base_types::AddressCountryType::NewZealand)
    } else if alpha3 == "CAN"@ {
        Some(proto::base_types::AddressCountryType::Canada)
    } else if alpha3 == "ZAF"@ {
        Some(proto::base_types::AddressCountryType::SouthAfrica)
    } else if alpha3 == "AUT"@ {
        Some(proto::base_types::AddressCountryType::Austria)
    } else if alpha3 == "HRV"@ {
        Some(proto::base_types::AddressCountryType::Croatia)
    } else if alpha3 == "CYP"@ {
        Some(proto::base_types::AddressCountryType::Cyprus)
    } else if alpha3 == "CZE"@ {
        Some(proto::base_types::AddressCountryType::Czechia)
    } else if alpha3 == "EST"@ {
        Some(proto::base_types::AddressCountryType::Estonia)
    } else if alpha3 == "HUN"@ {
        Some(proto::base_types::AddressCountryType::Hungary)
    } else if alpha3 == "GRC"@ {
        Some(proto::base_types::AddressCountryType::Greece)
    } else if alpha3 == "LTU"@ {
        Some(proto::base_types::AddressCountryType::Lithuania)
    } else {
        None
    }
}

/// The country that the wire has a name for, by its three-letter code.
pub fn known_country(alpha3: &str) -> (r: Option<proto::base_types::AddressCountryType>)
    ensures
        r == spec_known_country(alpha3@),
{
    if same(alpha3, "GBR") {
        Some(proto::base_types::AddressCountryType::GreatBritain)
    } else if same(alpha3, "USA") {
        Some(proto::base_types::AddressCountryType::UnitedStatesOfAmerica)
    } else if same(alpha3, "IRL") {
        Some(proto::base_types::AddressCountryType::Ireland)
    } else if same(alpha3, "DEU") {
        Some(proto::base_types::AddressCountryType::Germany)
    } else if same(alpha3, "FRA") {
        Some(proto::base_types::AddressCountryType::France)
    } else if same(alpha3, "ITA") {
        Some(proto::base_types::AddressCountryType::Italy)
    } else if same(alpha3, "ESP") {
        Some(proto::base_types::AddressCountryType::Spain)
    } else if same(alpha3, "PRT") {
        Some(proto::base_types::AddressCountryType::Portugal)
    } else if same(alpha3, "NLD") {
        Some(proto::base_types::AddressCountryType::Netherlands)
    } else if same(alpha3, "POL") {
        Some(proto::base_types::AddressCountryType::Poland)
    } else if same(alpha3, "BEL") {
        Some(proto::base_types::AddressCountryType::Belgium)
    } else if same(alpha3, "NOR") {
        Some(proto::base_types::AddressCountryType::Norway)
    } else if same(alpha3, "SWE") {
        Some(proto::base_types::AddressCountryType::Sweden)
    } else if same(alpha3, "DNK") {
        Some(proto::base_types::AddressCountryType::Denmark)
    } else if same(alpha3, "AUS") {
        Some(proto::base_types::AddressCountryType::Australia)
    } else if same(alpha3, "NZL") {
        Some(proto::base_types::AddressCountryType::NewZealand)
    } else if same(alpha3, "CAN") {
        Some(proto::base_types::AddressCountryType::Canada)
    } else if same(alpha3, "ZAF") {
        Some(proto::base_types::AddressCountryType::SouthAfrica)
    } else if same(alpha3, "AUT") {
        Some(proto::base_types::AddressCountryType::Austria)
    } else if same(alpha3, "HRV") {
        Some(proto::base_types::AddressCountryType::Croatia)
    } else if same(alpha3, "CYP") {
        Some(proto::base_types::AddressCountryType::Cyprus)
    } else if same(alpha3, "CZE") {
        Some(proto::base_types::AddressCountryType::Czechia)
    } else if same(alpha3, "EST") {
        Some(proto::base_types::AddressCountryType::Estonia)
    } else if same(alpha3, "HUN") {
        Some(proto::base_types::AddressCountryType::Hungary)
    } else if same(alpha3, "GRC") {
        Some(proto::base_types::AddressCountryType::Greece)
    } else if same(alpha3, "LTU") {
        Some(proto::base_types::AddressCountryType::Lithuania)
    } else {
        None
    }
}

/// The code by which a reply names a country that the wire gives as free
/// text: the two-letter code of the country that the text names as a
/// three-letter code, or else as a two-letter code, or else as a number;
/// the text itself where it names none.
pub open spec fn spec_other_country_code(text: Seq<char>) -> Seq<char> {
    match alpha2_of_alpha3(text) {
        Some(code) => code,
        None => match alpha2_of_alpha2(text) {
            Some(code) => code,
            None => match parsed_u32(text) {
                Some(id) => match alpha2_of_id(id) {
                    Some(code) => code,
                    None => text,
                },
                None => text,
            },
        },
    }
}

/// The code by which a reply names a country that the wire gives as free text.
pub fn other_country_code(text: String) -> (r: String)
    ensures
        r@ == spec_other_country_code(text@),
{
    match alpha2_by_alpha3(text.as_str()) {
        Some(code) => code,
        None => match lookup_alpha2(text.as_str()) {
            Ok(found) => found.0,
            Err(_) => match parse_u32(text.as_str()) {
                Some(id) => match alpha2_by_id(id) {
                    Some(code) => code,
                    None => text,
                },
                None => text,
            },
        },
    }
}

/// The country of an address as a reply names it; empty where the address names none.
pub open spec fn spec_country_message(country: Option<proto::base_types::AddressCountry>) -> Seq<char> {
    match country {
        None => Seq::empty(),
        Some(proto::base_types::AddressCountry::Country(c)) => spec_country_code(c),
        Some(proto::base_types::AddressCountry::OtherCountry(text)) => spec_other_country_code(text@),
    }
}

impl ch_ewf_grpc::base_types::BaseAddress {
    /// Whether `self` is the reply for the address `addr`.
    pub open spec fn is_from(self, addr: proto::base_types::BaseAddress) -> bool {
        &&& self.premise == addr.premise
        &&& self.street@ == text_or_empty(addr.street)
        &&& self.thoroughfare@ == text_or_empty(addr.thoroughfare)
        &&& self.post_town == addr.post_town
        &&& self.county@ == text_or_empty(addr.county)
        &&& self.country@ == spec_country_message(addr.country)
        &&& self.postcode@ == text_or_empty(addr.postcode)
    }

    pub fn from(addr: proto::base_types::BaseAddress) -> (r: Self)
        ensures
            r.is_from(addr),
    {
        ch_ewf_grpc::base_types::BaseAddress {
            premise: addr.premise,
            street: or_empty(addr.street),
            thoroughfare: or_empty(addr.thoroughfare),
            post_town: addr.post_town,
            county: or_empty(addr.county),
            country: match addr.country {
                None => String::new(),
                Some(proto::base_types::AddressCountry::Country(c)) => country_code(c),
                Some(proto::base_types::AddressCountry::OtherCountry(c)) => other_country_code(c),
            },
            postcode: or_empty(addr.postcode),
        }
    }
}

/// Whether `country` is what the country code `code` of a request goes on
/// the wire as: the four nations of the United Kingdom by their subdivision
/// codes, every other by the two-letter code of a country, as one of the
/// countries that the wire has a name for or else by its three-letter code.
pub open spec fn is_country_of(country: proto::base_types::AddressCountry, code: Seq<char>) -> bool {
    if code == "GB-ENG"@ {
        country == proto::base_types::AddressCountry::Country(proto::base_types::AddressCountryType::England)
    } else if code == "GB-SCO"@ {
        country == proto::base_types::AddressCountry::Country(proto::base_types::AddressCountryType::Scotland)
    } else if code == "GB-WLS"@ {
        country == proto::base_types::AddressCountry::Country(proto::base_types::AddressCountryType::Wales)
    } else if code == "GB-NIR"@ {
        country == proto::base_types::AddressCountry::Country(
            proto::base_types::AddressCountryType::NorthernIreland,
        )
    } else {
        match country_by_alpha2(code) {
            Ok(found) => match spec_known_country(found.1) {
                Some(known) => country == proto::base_types::AddressCountry::Country(known),
                None => country matches proto::base_types::AddressCountry::OtherCountry(text) && text@ == found.1,
            },
            Err(_) => false,
        }
    }
}

/// Why the country code `code` of a request is refused, if it is: it is
/// none of the four subdivision codes and names no country.
pub open spec fn country_rejection(code: Seq<char>) -> Option<Seq<char>> {
    if code.len() == 0 || code == "GB-ENG"@ || code == "GB-SCO"@ || code == "GB-WLS"@ || code == "GB-NIR"@ {
        None
    } else {
        match country_by_alpha2(code) {
            Ok(_) => None,
            Err(reason) => Some("Invalid country code: "@ + reason),
        }
    }
}

/// Reads the country code of a request; nothing where it is empty.
pub fn country_of(code: String) -> (r: Result<Option<proto::base_types::AddressCountry>, ServiceError>)
    ensures
        match country_rejection(code@) {
            Some(message) => rejected(r, message),
            None => r matches Ok(country) && (if code@.len() == 0 {
                country is None
            } else {
                country matches Some(c) && is_country_of(c, code@)
            }),
        },
{
    if code.as_str().is_empty() {
        return Ok(None);
    }
    if same(code.as_str(), "GB-ENG") {
        return Ok(Some(proto::base_types::AddressCountry::Country(proto::base_types::AddressCountryType::England)));
    }
    if same(code.as_str(), "GB-SCO") {
        return Ok(Some(proto::base_types::AddressCountry::Country(proto::base_types::AddressCountryType::Scotland)));
    }
    if same(code.as_str(), "GB-WLS") {
        return Ok(Some(proto::base_types::AddressCountry::Country(proto::base_types::AddressCountryType::Wales)));
    }
    if same(code.as_str(), "GB-NIR") {
        return Ok(
            Some(proto::base_types::AddressCountry::Country(proto::base_types::AddressCountryType::NorthernIreland)),
        );
    }
    match lookup_alpha2(code.as_str()) {
        Ok(found) => match known_country(found.1.as_str()) {
            Some(known) => Ok(Some(proto::base_types::AddressCountry::Country(known))),
            None => Ok(Some(proto::base_types::AddressCountry::OtherCountry(found.1))),
        },
        Err(reason) => {
            let mut message = "Invalid country code: ".to_owned();
            message.append(reason.as_str());
            invalid_argument(message.as_str())
        },
    }
}

impl proto::base_types::BaseAddress {
    /// Why the address `a` is refused, if it is: the first of its parts, in
    /// this order, that is missing though required, longer than allowed, or
    /// no country.
    pub open spec fn rejection(a: ch_ewf_grpc::base_types::BaseAddress) -> Option<Seq<char>> {
        if !text_ok(a.premise@, 50) {
            Some("Invalid premise"@)
        } else if !text_ok(a.post_town@, 50) {
            Some("Invalid post town"@)
        } else if !optional_ok(a.street@, 50) {
            Some("Invalid street"@)
        } else if !optional_ok(a.thoroughfare@, 50) {
            Some("Invalid thoroughfare"@)
        } else if !optional_ok(a.county@, 50) {
            Some("Invalid county"@)
        } else if !optional_ok(a.postcode@, 15) {
            Some("Invalid postcode"@)
        } else {
            country_rejection(a.country@)
        }
    }

    /// Whether `self` is the address `a` as it goes on the wire: an empty
    /// part is left out and the country is read from its code.
    pub open spec fn is_accepted(self, a: ch_ewf_grpc::base_types::BaseAddress) -> bool {
        &&& self.premise == a.premise
        &&& self.street == optional(a.street)
        &&& self.thoroughfare == optional(a.thoroughfare)
        &&& self.post_town == a.post_town
        &&& self.county == optional(a.county)
        &&& self.postcode == optional(a.postcode)
        &&& if a.country@.len() == 0 {
            self.country is None
        } else {
            self.country matches Some(c) && is_country_of(c, a.country@)
        }
    }

    pub fn try_from(a: ch_ewf_grpc::base_types::BaseAddress) -> (r: Result<Self, ServiceError>)
        ensures
            match Self::rejection(a) {
                Some(message) => rejected(r, message),
                None => r matches Ok(v) && v.is_accepted(a),
            },
    {
        if !required_text(a.premise.as_str(), 50) {
            return invalid_argument("Invalid premise");
        }
        if !required_text(a.post_town.as_str(), 50) {
            return invalid_argument("Invalid post town");
        }
        if !optional_text(a.street.as_str(), 50) {
            return invalid_argument("Invalid street");
        }
        if !optional_text(a.thoroughfare.as_str(), 50) {
            return invalid_argument("Invalid thoroughfare");
        }
        if !optional_text(a.county.as_str(), 50) {
            return invalid_argument("Invalid county");
        }
        if !optional_text(a.postcode.as_str(), 15) {
            return invalid_argument("Invalid postcode");
        }
        let country = country_of(a.country)?;
        Ok(
            proto::base_types::BaseAddress {
                premise: a.premise,
                street: non_empty(a.street),
                thoroughfare: non_empty(a.thoroughfare),
                post_town: a.post_town,
                county: non_empty(a.county),
                postcode: non_empty(a.postcode),
                country,
            },
        )
    }
}

impl ch_ewf_grpc::base_types::CompanyAddress {
    /// Whether `self` is the reply for the address `addr`.
    pub open spec fn is_from(self, addr: proto::base_types::CompanyAddress) -> bool {
        &&& self.base_address matches Some(base)
        &&& base.is_from(addr.base_address)
        &&& self.care_of_name@ == text_or_empty(addr.care_of_name)
        &&& self.po_box@ == text_or_empty(addr.po_box)
    }

    pub fn from(addr: proto::base_types::CompanyAddress) -> (r: Self)
        ensures
            r.is_from(addr),
    {
        ch_ewf_grpc::base_types::CompanyAddress {
            base_address: Some(ch_ewf_grpc::base_types::BaseAddress::from(addr.base_address)),
            care_of_name: or_empty(addr.care_of_name),
            po_box: or_empty(addr.po_box),
        }
    }
}

impl proto::base_types::CompanyAddress {
    /// Why the address `value` is refused, if it is.
    pub open spec fn rejection(value: ch_ewf_grpc::base_types::CompanyAddress) -> Option<Seq<char>> {
        match value.base_address {
            None => Some("Base address required"@),
            Some(a) => match proto::base_types::BaseAddress::rejection(a) {
                Some(message) => Some(message),
                None => if !optional_ok(value.care_of_name@, 100) {
                    Some("Invalid care of name"@)
                } else if !optional_ok(value.po_box@, 10) {
                    Some("Invalid PO box"@)
                } else {
                    None
                },
            },
        }
    }

    /// Whether `self` is the address `value` as it goes on the wire.
    pub open spec fn is_accepted(self, value: ch_ewf_grpc::base_types::CompanyAddress) -> bool {
        &&& value.base_address matches Some(a)
        &&& self.base_address.is_accepted(a)
        &&& self.care_of_name == optional(value.care_of_name)
        &&& self.po_box == optional(value.po_box)
    }

    pub fn try_from(value: ch_ewf_grpc::base_types::CompanyAddress) -> (r: Result<Self, ServiceError>)
        ensures
            match Self::rejection(value) {
                Some(message) => rejected(r, message),
                None => r matches Ok(v) && v.is_accepted(value),
            },
    {
        let base_address = match value.base_address {
            Some(a) => proto::base_types::BaseAddress::try_from(a)?,
            None => {
                return invalid_argument("Base address required");
            },
        };
        if !optional_text(value.care_of_name.as_str(), 100) {
            return invalid_argument("Invalid care of name");
        }
        if !optional_text(value.po_box.as_str(), 10) {
            return invalid_argument("Invalid PO box");
        }
        Ok(
            proto::base_types::CompanyAddress {
                base_address,
                care_of_name: non_empty(value.care_of_name),
                po_box: non_empty(value.po_box),
            },
        )
    }
}

impl proto::base_types::CompanyIdentification {
    /// Why the identification `value` is refused, if it is.
    pub open spec fn rejection(value: ch_ewf_grpc::base_types::CompanyIdentification) -> Option<Seq<char>> {
        match value.company_identification {
            Some(ch_ewf_grpc::base_types::CompanyIdentificationValue::UkRegistrationNumber(n)) => if !text_ok(
                n@,
                20,
            ) {
                Some("Invalid company registration number"@)
            } else {
                None
            },
            Some(ch_ewf_grpc::base_types::CompanyIdentificationValue::NonUk(n)) => if !text_ok(
                n.governing_law@,
                50,
            ) {
                Some("Invalid company governing law"@)
            } else if !text_ok(n.legal_form@, 50) {
                Some("Invalid company legal form"@)
            } else if !optional_ok(n.place_registered@, 50) {
                Some("Invalid company place registered"@)
            } else if !optional_ok(n.registration_number@, 20) {
                Some("Invalid company registration number"@)
            } else {
                None
            },
            None => Some("Company identification required number"@),
        }
    }

    /// The identification as it goes on the wire.
    pub open spec fn accepted(value: ch_ewf_grpc::base_types::CompanyIdentification) -> Self {
        match value.company_identification {
            Some(ch_ewf_grpc::base_types::CompanyIdentificationValue::NonUk(n)) => proto::base_types::CompanyIdentification::NonUK {
                place_registered: optional(n.place_registered),
                registration_number: optional(n.registration_number),
                governing_law: n.governing_law,
                legal_form: n.legal_form,
            },
            Some(ch_ewf_grpc::base_types::CompanyIdentificationValue::UkRegistrationNumber(n)) => proto::base_types::CompanyIdentification::UK {
                registration_number: n,
            },
            None => arbitrary(),
        }
    }

    /// Whether `self` is what `value` goes on the wire as.
    pub open spec fn is_accepted(self, value: ch_ewf_grpc::base_types::CompanyIdentification) -> bool {
        self == Self::accepted(value)
    }

    pub fn try_from(value: ch_ewf_grpc::base_types::CompanyIdentification) -> (r: Result<Self, ServiceError>)
        ensures
            match Self::rejection(value) {
                Some(message) => rejected(r, message),
                None => r == Ok::<Self, ServiceError>(Self::accepted(value)),
            },
    {
        match value.company_identification {
            Some(ch_ewf_grpc::base_types::CompanyIdentificationValue::UkRegistrationNumber(n)) => {
                if !required_text(n.as_str(), 20) {
                    return invalid_argument("Invalid company registration number");
                }
                Ok(proto::base_types::CompanyIdentification::UK { registration_number: n })
            },
            Some(ch_ewf_grpc::base_types::CompanyIdentificationValue::NonUk(n)) => {
                if !required_text(n.governing_law.as_str(), 50) {
                    return invalid_argument("Invalid company governing law");
                }
                if !required_text(n.legal_form.as_str(), 50) {
                    return invalid_argument("Invalid company legal form");
                }
                if !optional_text(n.place_registered.as_str(), 50) {
                    return invalid_argument("Invalid company place registered");
                }
                if !optional_text(n.registration_number.as_str(), 20) {
                    return invalid_argument("Invalid company registration number");
                }
                Ok(
                    proto::base_types::CompanyIdentification::NonUK {
                        place_registered: non_empty(n.place_registered),
                        registration_number: non_empty(n.registration_number),
                        governing_law: n.governing_law,
                        legal_form: n.legal_form,
                    },
                )
            },
            None => invalid_argument("Company identification required number"),
        }
    }
}

impl ch_ewf_grpc::base_types::CorporateOfficer {
    /// Whether `self` is the reply for the corporate officer `officer`.
    pub open spec fn is_from(self, officer: proto::base_types::CorporateOfficerType) -> bool {
        &&& self.corporate_name == officer.corporate_name
        &&& self.address matches Some(address)
        &&& address.is_from(officer.address)
        &&& self.company_identification matches Some(identification)
        &&& match officer.company_identification {
            None => identification.company_identification is None,
            Some(proto::base_types::CompanyIdentification::UK { registration_number }) =>
                identification.company_identification == Some(
                    ch_ewf_grpc::base_types::CompanyIdentificationValue::UkRegistrationNumber(
                        registration_number,
                    ),
                ),
            Some(
                proto::base_types::CompanyIdentification::NonUK {
                    place_registered,
                    registration_number,
                    governing_law,
                    legal_form,
                },
            ) => {
                &&& identification.company_identification matches Some(
                    ch_ewf_grpc::base_types::CompanyIdentificationValue::NonUk(n),
                )
                &&& n.place_registered@ == text_or_empty(place_registered)
                &&& n.registration_number@ == text_or_empty(registration_number)
                &&& n.governing_law == governing_law
                &&& n.legal_form == legal_form
            },
        }
    }

    pub fn from(officer: proto::base_types::CorporateOfficerType) -> (r: Self)
        ensures
            r.is_from(officer),
    {
        ch_ewf_grpc::base_types::CorporateOfficer {
            corporate_name: officer.corporate_name,
            address: Some(ch_ewf_grpc::base_types::CompanyAddress::from(officer.address)),
            company_identification: Some(
                ch_ewf_grpc::base_types::CompanyIdentification {
                    company_identification: match officer.company_identification {
                        None => None,
                        Some(proto::base_types::CompanyIdentification::UK { registration_number }) => Some(
                            ch_ewf_grpc::base_types::CompanyIdentificationValue::UkRegistrationNumber(
                                registration_number,
                            ),
                        ),
                        Some(
                            proto::base_types::CompanyIdentification::NonUK {
                                place_registered,
                                registration_number,
                                governing_law,
                                legal_form,
                            },
                        ) => Some(
                            ch_ewf_grpc::base_types::CompanyIdentificationValue::NonUk(
                                ch_ewf_grpc::base_types::NonUkCompanyIdentification {
                                    place_registered: or_empty(place_registered),
                                    registration_number: or_empty(registration_number),
                                    governing_law,
                                    legal_form,
                                },
                            ),
                        ),
                    },
                },
            ),
        }
    }
}

impl proto::base_types::CorporateOfficerType {
    /// Why the corporate officer `value` is refused, if it is.
    pub open spec fn rejection(value: ch_ewf_grpc::base_types::CorporateOfficer) -> Option<Seq<char>> {
        if !text_ok(value.corporate_name@, 160) {
            Some("Invalid corporate name"@)
        } else {
            match value.address {
                None => Some("Address required"@),
                Some(a) => match proto::base_types::CompanyAddress::rejection(a) {
                    Some(message) => Some(message),
                    None => match value.company_identification {
                        None => Some("Company identification required"@),
                        Some(i) => proto::base_types::CompanyIdentification::rejection(i),
                    },
                },
            }
        }
    }

    /// Whether `self` is the corporate officer `value` as it goes on the wire.
    pub open spec fn is_accepted(self, value: ch_ewf_grpc::base_types::CorporateOfficer) -> bool {
        &&& self.corporate_name == value.corporate_name
        &&& value.address matches Some(a)
        &&& self.address.is_accepted(a)
        &&& value.company_identification matches Some(i)
        &&& self.company_identification == Some(proto::base_types::CompanyIdentification::accepted(i))
    }

    pub fn try_from(value: ch_ewf_grpc::base_types::CorporateOfficer) -> (r: Result<Self, ServiceError>)
        ensures
            match Self::rejection(value) {
                Some(message) => rejected(r, message),
                None => r matches Ok(v) && v.is_accepted(value),
            },
    {
        if !required_text(value.corporate_name.as_str(), 160) {
            return invalid_argument("Invalid corporate name");
        }
        let address = match value.address {
            Some(a) => proto::base_types::CompanyAddress::try_from(a)?,
            None => {
                return invalid_argument("Address required");
            },
        };
        let company_identification = match value.company_identification {
            Some(i) => proto::base_types::CompanyIdentification::try_from(i)?,
            None => {
                return invalid_argument("Company identification required");
            },
        };
        Ok(
            proto::base_types::CorporateOfficerType {
                corporate_name: value.corporate_name,
                address,
                company_identification: Some(company_identification),
            },
        )
    }
}

/// The forenames of `person` as a reply lists them: the forename and the
/// other forenames where both are there, the forename alone where it alone
/// is there, none otherwise.
pub open spec fn spec_forenames(forename: Option<String>, other_forenames: Option<String>) -> Seq<String> {
    match (forename, other_forenames) {
        (Some(f), None) => seq![f],
        (Some(f), Some(of)) => seq![f, of],
        _ => Seq::empty(),
    }
}

impl ch_ewf_grpc::base_types::PersonName {
    /// Whether `self` is the reply for the name `person`.
    pub open spec fn is_from(self, person: proto::base_types::PersonType) -> bool {
        &&& self.title@ == text_or_empty(person.title)
        &&& self.forenames@ == spec_forenames(person.forename, person.other_forenames)
        &&& self.surname == person.surname
    }

    /// Whether `self` is the reply for the name `person`.
    pub open spec fn is_from_return_type(self, person: proto::base_types::PersonReturnType) -> bool {
        &&& self.title@ == text_or_empty(person.title)
        &&& self.forenames == person.forenames
        &&& self.surname == person.surname
    }

    pub fn from(person: proto::base_types::PersonType) -> (r: Self)
        ensures
            r.is_from(person),
    {
        let forenames = match (person.forename, person.other_forenames) {
            (Some(f), None) => vec![f],
            (Some(f), Some(of)) => vec![f, of],
            _ => vec![],
        };
        assert(forenames@ =~= spec_forenames(person.forename, person.other_forenames));
        ch_ewf_grpc::base_types::PersonName { title: or_empty(person.title), forenames, surname: person.surname }
    }

    pub fn from_return_type(person: proto::base_types::PersonReturnType) -> (r: Self)
        ensures
            r.is_from_return_type(person),
    {
        ch_ewf_grpc::base_types::PersonName {
            title: or_empty(person.title),
            forenames: person.forenames,
            surname: person.surname,
        }
    }
}

/// The forenames after the first, joined with a blank between them.
pub open spec fn other_forenames_text(value: ch_ewf_grpc::base_types::PersonName) -> Seq<char> {
    crate::text::joined(crate::text::views(value.forenames@.drop_first()), " "@)
}

/// Why the name `value` is refused, if it is: the surname is missing or too
/// long, or the title, the first forename or the other forenames together
/// are too long.
pub open spec fn person_name_rejection(value: ch_ewf_grpc::base_types::PersonName) -> Option<Seq<char>> {
    if !text_ok(value.surname@, 160) {
        Some("Invalid surname"@)
    } else if !optional_ok(value.title@, 50) {
        Some("Invalid title"@)
    } else if value.forenames@.len() > 0 && crate::text::byte_len(value.forenames@[0]@) > 50 {
        Some("Invalid forename"@)
    } else if value.forenames@.len() > 1 && crate::text::byte_len(other_forenames_text(value)) > 50 {
        Some("Invalid forename"@)
    } else {
        None
    }
}

/// The parts of a name as they go on the wire.
pub struct PersonNameParts {
    pub title: Option<String>,
    pub forename: Option<String>,
    pub other_forenames: Option<String>,
    pub surname: String,
}

impl PersonNameParts {
    /// Whether `self` holds the parts of the name `value`: the title unless
    /// empty, the first forename, and the other forenames joined with blanks.
    pub open spec fn is_accepted(self, value: ch_ewf_grpc::base_types::PersonName) -> bool {
        &&& self.title == optional(value.title)
        &&& self.forename == (if value.forenames@.len() == 0 {
            None
        } else {
            Some(value.forenames@[0])
        })
        &&& if value.forenames@.len() <= 1 {
            self.other_forenames is None
        } else {
            self.other_forenames matches Some(others) && others@ == other_forenames_text(value)
        }
        &&& self.surname == value.surname
    }

    /// Checks a name and takes it apart.
    pub fn try_from(value: ch_ewf_grpc::base_types::PersonName) -> (r: Result<Self, ServiceError>)
        ensures
            match person_name_rejection(value) {
                Some(message) => rejected(r, message),
                None => r matches Ok(v) && v.is_accepted(value),
            },
    {
        if !required_text(value.surname.as_str(), 160) {
            return invalid_argument("Invalid surname");
        }
        if !optional_text(value.title.as_str(), 50) {
            return invalid_argument("Invalid title");
        }
        let mut forenames = value.forenames;
        let forename = if forenames.len() == 0 {
            None
        } else {
            let forename = forenames.remove(0);
            if crate::text::len(forename.as_str()) > 50 {
                return invalid_argument("Invalid forename");
            }
            Some(forename)
        };
        let other_forenames = if forenames.len() == 0 {
            None
        } else {
            let other_forename = crate::text::join(&forenames, " ");
            if crate::text::len(other_forename.as_str()) > 50 {
                return invalid_argument("Invalid forename");
            }
            Some(other_forename)
        };
        Ok(PersonNameParts { title: non_empty(value.title), forename, other_forenames, surname: value.surname })
    }
}

impl proto::base_types::PersonType {
    /// Why the name `value` is refused, if it is.
    pub open spec fn rejection(value: ch_ewf_grpc::base_types::PersonName) -> Option<Seq<char>> {
        person_name_rejection(value)
    }

    /// Whether `self` is the name `value` as it goes on the wire.
    pub open spec fn is_accepted(self, value: ch_ewf_grpc::base_types::PersonName) -> bool {
        (PersonNameParts {
            title: self.title,
            forename: self.forename,
            other_forenames: self.other_forenames,
            surname: self.surname,
        }).is_accepted(value)
    }

    pub fn try_from(value: ch_ewf_grpc::base_types::PersonName) -> (r: Result<Self, ServiceError>)
        ensures
            match Self::rejection(value) {
                Some(message) => rejected(r, message),
                None => r matches Ok(v) && v.is_accepted(value),
            },
    {
        let parts = PersonNameParts::try_from(value)?;
        Ok(
            proto::base_types::PersonType {
                title: parts.title,
                forename: parts.forename,
                other_forenames: parts.other_forenames,
                surname: parts.surname,
            },
        )
    }
}

impl proto::base_types::PersonType2 {
    /// Why the name `value` is refused, if it is.
    pub open spec fn rejection(value: ch_ewf_grpc::base_types::PersonName) -> Option<Seq<char>> {
        person_name_rejection(value)
    }

    /// Whether `self` is the name `value` as it goes on the wire.
    pub open spec fn is_accepted(self, value: ch_ewf_grpc::base_types::PersonName) -> bool {
        (PersonNameParts {
            title: self.title,
            forename: self.forename,
            other_forenames: self.other_forenames,
            surname: self.surname,
        }).is_accepted(value)
    }

    pub fn try_from(value: ch_ewf_grpc::base_types::PersonName) -> (r: Result<Self, ServiceError>)
        ensures
            match Self::rejection(value) {
                Some(message) => rejected(r, message),
                None => r matches Ok(v) && v.is_accepted(value),
            },
    {
        let parts = PersonNameParts::try_from(value)?;
        Ok(
            proto::base_types::PersonType2 {
                title: parts.title,
                forename: parts.forename,
                other_forenames: parts.other_forenames,
                surname: parts.surname,
            },
        )
    }
}

impl proto::base_types::Person {
    /// Why the person `value` is refused, if it is.
    pub open spec fn rejection(value: ch_ewf_grpc::base_types::Person) -> Option<Seq<char>> {
        if !text_ok(value.forename@, 50) {
            Some("Invalid forename"@)
        } else if !text_ok(value.surname@, 50) {
            Some("Invalid surname"@)
        } else {
            None
        }
    }

    /// Whether `self` is the person `value` as it goes on the wire.
    pub open spec fn is_accepted(self, value: ch_ewf_grpc::base_types::Person) -> bool {
        self == (proto::base_types::Person { forename: value.forename, surname: value.surname })
    }

    pub fn try_from(value: ch_ewf_grpc::base_types::Person) -> (r: Result<Self, ServiceError>)
        ensures
            match Self::rejection(value) {
                Some(message) => rejected(r, message),
                None => r == Ok::<Self, ServiceError>(
                    proto::base_types::Person { forename: value.forename, surname: value.surname },
                ),
            },
    {
        if !required_text(value.forename.as_str(), 50) {
            return invalid_argument("Invalid forename");
        }
        if !required_text(value.surname.as_str(), 50) {
            return invalid_argument("Invalid surname");
        }
        Ok(proto::base_types::Person { forename: value.forename, surname: value.surname })
    }
}

impl proto::officer_resignation::PersonChange {
    /// Why the person `value` is refused, if it is.
    pub open spec fn rejection(value: ch_ewf_grpc::officer_resignation::Person) -> Option<Seq<char>> {
        match value.person {
            None => Some("Person name required"@),
            Some(p) => match person_name_rejection(p) {
                Some(message) => Some(message),
                None => if value.date_of_birth is None {
                    Some("Date of birth required"@)
                } else {
                    None
                },
            },
        }
    }

    /// Whether `self` is the person `value` as it goes on the wire.
    pub open spec fn is_accepted(self, value: ch_ewf_grpc::officer_resignation::Person) -> bool {
        &&& value.person matches Some(p)
        &&& self.person.is_accepted(p)
        &&& value.date_of_birth == Some(self.dob)
    }

    pub fn try_from(value: ch_ewf_grpc::officer_resignation::Person) -> (r: Result<Self, ServiceError>)
        ensures
            match Self::rejection(value) {
                Some(message) => rejected(r, message),
                None => r matches Ok(v) && v.is_accepted(value),
            },
    {
        let person = match value.person {
            Some(p) => proto::base_types::PersonType::try_from(p)?,
            None => {
                return invalid_argument("Person name required");
            },
        };
        let dob = match value.date_of_birth {
            Some(d) => d,
            None => {
                return invalid_argument("Date of birth required");
            },
        };
        Ok(proto::officer_resignation::PersonChange { person, dob })
    }
}

impl ch_ewf_grpc::base_types::ServiceAddress {
    /// Whether `self` is the reply for the service address `addr`: the
    /// address where one is given, else whether it is the registered office's.
    pub open spec fn is_from(self, addr: proto::base_types::ServiceAddressType) -> bool {
        match addr.address {
            Some(address) => self.value matches Some(ch_ewf_grpc::base_types::ServiceAddressValue::Address(a))
                && a.is_from(*address),
            None => self.value == Some(
                ch_ewf_grpc::base_types::ServiceAddressValue::SameAsRegisteredOffice(
                    addr.same_as_registered_office,
                ),
            ),
        }
    }

    pub fn from(addr: proto::base_types::ServiceAddressType) -> (r: Self)
        ensures
            r.is_from(addr),
    {
        ch_ewf_grpc::base_types::ServiceAddress {
            value: match addr.address {
                Some(address) => Some(
                    ch_ewf_grpc::base_types::ServiceAddressValue::Address(
                        ch_ewf_grpc::base_types::CompanyAddress::from(*address),
                    ),
                ),
                None => Some(
                    ch_ewf_grpc::base_types::ServiceAddressValue::SameAsRegisteredOffice(
                        addr.same_as_registered_office,
                    ),
                ),
            },
        }
    }
}

impl proto::base_types::ServiceAddressType {
    /// Why the service address `value` is refused, if it is.
    pub open spec fn rejection(value: ch_ewf_grpc::base_types::ServiceAddress) -> Option<Seq<char>> {
        match value.value {
            Some(ch_ewf_grpc::base_types::ServiceAddressValue::SameAsRegisteredOffice(s)) => if !s {
                Some("Same as registered office must be true"@)
            } else {
                None
            },
            Some(ch_ewf_grpc::base_types::ServiceAddressValue::Address(a)) => proto::base_types::CompanyAddress::rejection(
                a,
            ),
            None => Some("Service address value required"@),
        }
    }

    /// Whether `self` is the service address `value` as it goes on the wire.
    pub open spec fn is_accepted(self, value: ch_ewf_grpc::base_types::ServiceAddress) -> bool {
        match value.value {
            Some(ch_ewf_grpc::base_types::ServiceAddressValue::Address(a)) => {
                &&& !self.same_as_registered_office
                &&& self.address matches Some(address)
                &&& address.is_accepted(a)
            },
            _ => self.same_as_registered_office && self.address is None,
        }
    }

    pub fn try_from(value: ch_ewf_grpc::base_types::ServiceAddress) -> (r: Result<Self, ServiceError>)
        ensures
            match Self::rejection(value) {
                Some(message) => rejected(r, message),
                None => r matches Ok(v) && v.is_accepted(value),
            },
    {
        match value.value {
            Some(ch_ewf_grpc::base_types::ServiceAddressValue::SameAsRegisteredOffice(s)) => {
                if !s {
                    return invalid_argument("Same as registered office must be true");
                }
                Ok(proto::base_types::ServiceAddressType { same_as_registered_office: true, address: None })
            },
            Some(ch_ewf_grpc::base_types::ServiceAddressValue::Address(a)) => {
                let address = proto::base_types::CompanyAddress::try_from(a)?;
                Ok(
                    proto::base_types::ServiceAddressType {
                        same_as_registered_office: false,
                        address: Some(Box::new(address)),
                    },
                )
            },
            None => invalid_argument("Service address value required"),
        }
    }
}

impl ch_ewf_grpc::base_types::ResidentialAddressAddress {
    /// Whether `self` is the reply for the residential address `addr`.
    pub open spec fn is_from(self, addr: proto::base_types::ResidentialBaseAddress) -> bool {
        &&& self.address matches Some(a)
        &&& a.is_from(addr.address)
        &&& self.secure_address == addr.secure_address
    }

    pub fn from(addr: proto::base_types::ResidentialBaseAddress) -> (r: Self)
        ensures
            r.is_from(addr),
    {
        ch_ewf_grpc::base_types::ResidentialAddressAddress {
            address: Some(ch_ewf_grpc::base_types::BaseAddress::from(addr.address)),
            secure_address: addr.secure_address,
        }
    }
}

impl ch_ewf_grpc::base_types::ResidentialAddress {
    /// Whether `self` is the reply for the residential address `addr`: the
    /// address where one is given, else whether it is the service address.
    pub open spec fn is_from(self, addr: proto::base_types::ResidentialAddressType) -> bool {
        match addr.address {
            Some(address) => self.value matches Some(
                ch_ewf_grpc::base_types::ResidentialAddressValue::Address(a),
            ) && a.is_from(address),
            None => self.value == Some(
                ch_ewf_grpc::base_types::ResidentialAddressValue::SameAsServiceAddress(
                    addr.same_as_service_address,
                ),
            ),
        }
    }

    pub fn from(addr: proto::base_types::ResidentialAddressType) -> (r: Self)
        ensures
            r.is_from(addr),
    {
        ch_ewf_grpc::base_types::ResidentialAddress {
            value: match addr.address {
                Some(address) => Some(
                    ch_ewf_grpc::base_types::ResidentialAddressValue::Address(
                        ch_ewf_grpc::base_types::ResidentialAddressAddress::from(address),
                    ),
                ),
                None => Some(
                    ch_ewf_grpc::base_types::ResidentialAddressValue::SameAsServiceAddress(
                        addr.same_as_service_address,
                    ),
                ),
            },
        }
    }
}

impl proto::base_types::ResidentialAddressType {
    /// Why the residential address `value` is refused, if it is.
    pub open spec fn rejection(value: ch_ewf_grpc::base_types::ResidentialAddress) -> Option<Seq<char>> {
        match value.value {
            Some(ch_ewf_grpc::base_types::ResidentialAddressValue::SameAsServiceAddress(s)) => if !s {
                Some("Same as service address must be true"@)
            } else {
                None
            },
            Some(ch_ewf_grpc::base_types::ResidentialAddressValue::Address(a)) => match a.address {
                Some(base) => proto::base_types::BaseAddress::rejection(base),
                None => Some("Base address required"@),
            },
            None => Some("Residential address value required"@),
        }
    }

    /// Whether `self` is the residential address `value` as it goes on the wire.
    pub open spec fn is_accepted(self, value: ch_ewf_grpc::base_types::ResidentialAddress) -> bool {
        match value.value {
            Some(ch_ewf_grpc::base_types::ResidentialAddressValue::Address(a)) => {
                &&& !self.same_as_service_address
                &&& self.address matches Some(address)
                &&& a.address matches Some(base)
                &&& address.address.is_accepted(base)
                &&& address.secure_address == a.secure_address
            },
            _ => self.same_as_service_address && self.address is None,
        }
    }

    pub fn try_from(value: ch_ewf_grpc::base_types::ResidentialAddress) -> (r: Result<Self, ServiceError>)
        ensures
            match Self::rejection(value) {
                Some(message) => rejected(r, message),
                None => r matches Ok(v) && v.is_accepted(value),
            },
    {
        match value.value {
            Some(ch_ewf_grpc::base_types::ResidentialAddressValue::SameAsServiceAddress(s)) => {
                if !s {
                    return invalid_argument("Same as service address must be true");
                }
                Ok(proto::base_types::ResidentialAddressType { same_as_service_address: true, address: None })
            },
            Some(ch_ewf_grpc::base_types::ResidentialAddressValue::Address(a)) => {
                let address = match a.address {
                    Some(base) => proto::base_types::BaseAddress::try_from(base)?,
                    None => {
                        return invalid_argument("Base address required");
                    },
                };
                Ok(
                    proto::base_types::ResidentialAddressType {
                        same_as_service_address: false,
                        address: Some(
                            proto::base_types::ResidentialBaseAddress { address, secure_address: a.secure_address },
                        ),
                    },
                )
            },
            None => invalid_argument("Residential address value required"),
        }
    }
}

impl ch_ewf_grpc::base_types::PreviousName {
    /// Whether `self` is the reply for the previous name `n`.
    pub open spec fn is_from(self, n: proto::base_types::PreviousNameType) -> bool {
        self.forename@ == text_or_empty(n.forename) && self.surname == n.surname
    }

    pub fn from(n: proto::base_types::PreviousNameType) -> (r: Self)
        ensures
            r.is_from(n),
    {
        ch_ewf_grpc::base_types::PreviousName { forename: or_empty(n.forename), surname: n.surname }
    }
}

impl proto::base_types::PreviousNameType {
    /// Why the previous name `value` is refused, if it is.
    pub open spec fn rejection(value: ch_ewf_grpc::base_types::PreviousName) -> Option<Seq<char>> {
        if !text_ok(value.surname@, 50) {
            Some("Invalid surname"@)
        } else if !optional_ok(value.forename@, 50) {
            Some("Invalid forename"@)
        } else {
            None
        }
    }

    /// Whether `self` is the previous name `value` as it goes on the wire.
    pub open spec fn is_accepted(self, value: ch_ewf_grpc::base_types::PreviousName) -> bool {
        self == (proto::base_types::PreviousNameType { forename: optional(value.forename), surname: value.surname })
    }

    pub fn try_from(value: ch_ewf_grpc::base_types::PreviousName) -> (r: Result<Self, ServiceError>)
        ensures
            match Self::rejection(value) {
                Some(message) => rejected(r, message),
                None => r == Ok::<Self, ServiceError>(
                    proto::base_types::PreviousNameType {
                        forename: optional(value.forename),
                        surname: value.surname,
                    },
                ),
            },
    {
        if !required_text(value.surname.as_str(), 50) {
            return invalid_argument("Invalid surname");
        }
        if !optional_text(value.forename.as_str(), 50) {
            return invalid_argument("Invalid forename");
        }
        Ok(proto::base_types::PreviousNameType { forename: non_empty(value.forename), surname: value.surname })
    }
}

impl proto::base_types::PersonalAttribute {
    /// The kind of a personal attribute as the wire names it.
    pub open spec fn kind(
        kind: ch_ewf_grpc::base_types::PersonalAttributeType,
    ) -> proto::base_types::PersonalAttributeType {
        match kind {
            ch_ewf_grpc::base_types::PersonalAttributeType::BirthTown => {
                proto::base_types::PersonalAttributeType::BirthTown
            },
            ch_ewf_grpc::base_types::PersonalAttributeType::Telephone => {
                proto::base_types::PersonalAttributeType::Telephone
            },
            ch_ewf_grpc::base_types::PersonalAttributeType::NationalInsurance => {
                proto::base_types::PersonalAttributeType::NationalInsurance
            },
            ch_ewf_grpc::base_types::PersonalAttributeType::PassportNumber => {
                proto::base_types::PersonalAttributeType::PassportNumber
            },
            ch_ewf_grpc::base_types::PersonalAttributeType::MothersMaiden => {
                proto::base_types::PersonalAttributeType::MothersMaiden
            },
            ch_ewf_grpc::base_types::PersonalAttributeType::FathersForename => {
                proto::base_types::PersonalAttributeType::FathersForename
            },
        }
    }

    /// Why the personal attribute `a` is refused, if it is: its data is not
    /// three bytes long, or its kind is not named.
    pub open spec fn rejection(a: ch_ewf_grpc::base_types::PersonalAttribute) -> Option<Seq<char>> {
        if crate::text::byte_len(a.personal_data@) != 3 {
            Some("Invalid personal data length"@)
        } else if a.personal_attribute is None {
            Some("Personal attribute type required"@)
        } else {
            None
        }
    }

    /// Whether `self` is the personal attribute `a` as it goes on the wire.
    pub open spec fn is_accepted(self, a: ch_ewf_grpc::base_types::PersonalAttribute) -> bool {
        &&& a.personal_attribute matches Some(kind)
        &&& self.personal_attribute == Self::kind(kind)
        &&& self.personal_data == a.personal_data
    }

    pub fn try_from(a: ch_ewf_grpc::base_types::PersonalAttribute) -> (r: Result<Self, ServiceError>)
        ensures
            match Self::rejection(a) {
                Some(message) => rejected(r, message),
                None => r matches Ok(v) && v.is_accepted(a),
            },
    {
        if crate::text::len(a.personal_data.as_str()) != 3 {
            return invalid_argument("Invalid personal data length");
        }
        let personal_attribute = match a.personal_attribute {
            Some(ch_ewf_grpc::base_types::PersonalAttributeType::BirthTown) => {
                proto::base_types::PersonalAttributeType::BirthTown
            },
            Some(ch_ewf_grpc::base_types::PersonalAttributeType::Telephone) => {
                proto::base_types::PersonalAttributeType::Telephone
            },
            Some(ch_ewf_grpc::base_types::PersonalAttributeType::NationalInsurance) => {
                proto::base_types::PersonalAttributeType::NationalInsurance
            },
            Some(ch_ewf_grpc::base_types::PersonalAttributeType::PassportNumber) => {
                proto::base_types::PersonalAttributeType::PassportNumber
            },
            Some(ch_ewf_grpc::base_types::PersonalAttributeType::MothersMaiden) => {
                proto::base_types::PersonalAttributeType::MothersMaiden
            },
            Some(ch_ewf_grpc::base_types::PersonalAttributeType::FathersForename) => {
                proto::base_types::PersonalAttributeType::FathersForename
            },
            None => {
                return invalid_argument("Personal attribute type required");
            },
        };
        Ok(proto::base_types::PersonalAttribute { personal_attribute, personal_data: a.personal_data })
    }
}

impl ch_ewf_grpc::base_types::Share {
    /// The reply for the class of share `s`.
    pub open spec fn from_spec(s: proto::base_types::Share) -> Self {
        ch_ewf_grpc::base_types::Share {
            share_class: s.share_class,
            num_shares: s.num_shares,
            aggregate_nominal_value: s.aggregate_value,
            prescribed_particulars: s.particulars,
        }
    }

    pub fn from(s: proto::base_types::Share) -> (r: Self)
        ensures
            r == Self::from_spec(s),
    {
        ch_ewf_grpc::base_types::Share {
            share_class: s.share_class,
            num_shares: s.num_shares,
            aggregate_nominal_value: s.aggregate_value,
            prescribed_particulars: s.particulars,
        }
    }
}

impl ch_ewf_grpc::base_types::Capital {
    /// Whether `self` is the reply for the capital `c`.
    pub open spec fn is_from(self, c: proto::base_types::Capital) -> bool {
        &&& self.currency == c.share_currency
        &&& self.total_aggregate_nominal_value == c.total_aggregate_value
        &&& self.total_number_of_shares_issued == c.total_issued_shares
        &&& self.total_amount_unpaid == c.total_amount_unpaid
        &&& self.shares@ == c.shares@.map_values(|s: proto::base_types::Share| ch_ewf_grpc::base_types::Share::from_spec(s))
    }

    pub fn from(c: proto::base_types::Capital) -> (r: Self)
        ensures
            r.is_from(c),
    {
        let mut shares: Vec<ch_ewf_grpc::base_types::Share> = Vec::new();
        let ghost all = c.shares@;
        for s in it: c.shares
            invariant
                it.seq() == all,
                shares@.len() == it.index(),
                forall|j: int|
                    0 <= j < it.index() ==> shares@[j] == ch_ewf_grpc::base_types::Share::from_spec(all[j]),
        {
            shares.push(ch_ewf_grpc::base_types::Share::from(s));
        }
        assert(shares@ =~= all.map_values(
            |s: proto::base_types::Share| ch_ewf_grpc::base_types::Share::from_spec(s),
        ));
        ch_ewf_grpc::base_types::Capital {
            currency: c.share_currency,
            total_aggregate_nominal_value: c.total_aggregate_value,
            total_number_of_shares_issued: c.total_issued_shares,
            total_amount_unpaid: c.total_amount_unpaid,
            shares,
        }
    }
}

impl proto::base_types::Share {
    /// Why the class of share `s` is refused, if it is.
    pub open spec fn rejection(s: ch_ewf_grpc::base_types::Share) -> Option<Seq<char>> {
        if !text_ok(s.share_class@, 50) {
            Some("Invalid share class"@)
        } else if !text_ok(s.prescribed_particulars@, 400) {
            Some("Invalid prescribed particulars"@)
        } else if !s.num_shares.spec_in_range(crate::decimal::MAX_AMOUNT_MICROS) {
            Some("Invalid number of shares"@)
        } else if !s.aggregate_nominal_value.spec_in_range(crate::decimal::MAX_AMOUNT_MICROS) {
            Some("Invalid aggregate nominal value"@)
        } else {
            None
        }
    }

    /// `rejection` as a function.
    pub open spec fn rejection_fn() -> spec_fn(ch_ewf_grpc::base_types::Share) -> Option<Seq<char>> {
        |s: ch_ewf_grpc::base_types::Share| Self::rejection(s)
    }

    /// The class of share `s` as it goes on the wire.
    pub open spec fn accepted(s: ch_ewf_grpc::base_types::Share) -> Self {
        proto::base_types::Share {
            share_class: s.share_class,
            num_shares: s.num_shares,
            aggregate_value: s.aggregate_nominal_value,
            particulars: s.prescribed_particulars,
        }
    }

    /// Whether `self` is the class of share `s` as it goes on the wire.
    pub open spec fn is_accepted(self, s: ch_ewf_grpc::base_types::Share) -> bool {
        self == Self::accepted(s)
    }

    pub fn try_from(s: ch_ewf_grpc::base_types::Share) -> (r: Result<Self, ServiceError>)
        ensures
            match Self::rejection(s) {
                Some(message) => rejected(r, message),
                None => r matches Ok(v) && v.is_accepted(s),
            },
    {
        if !required_text(s.share_class.as_str(), 50) {
            return invalid_argument("Invalid share class");
        }
        if !required_text(s.prescribed_particulars.as_str(), 400) {
            return invalid_argument("Invalid prescribed particulars");
        }
        if !s.num_shares.in_range(crate::decimal::MAX_AMOUNT_MICROS) {
            return invalid_argument("Invalid number of shares");
        }
        if !s.aggregate_nominal_value.in_range(crate::decimal::MAX_AMOUNT_MICROS) {
            return invalid_argument("Invalid aggregate nominal value");
        }
        Ok(
            proto::base_types::Share {
                share_class: s.share_class,
                num_shares: s.num_shares,
                aggregate_value: s.aggregate_nominal_value,
                particulars: s.prescribed_particulars,
            },
        )
    }

    /// Whether `list` holds the items of `items`, each as it goes on the wire, in order.
    pub open spec fn are_accepted(list: Seq<Self>, items: Seq<ch_ewf_grpc::base_types::Share>) -> bool {
        list.len() == items.len() && forall|i: int| 0 <= i < list.len() ==> (#[trigger] list[i]).is_accepted(items[i])
    }

    /// Checks the items in order and stops at the first that is refused.
    pub fn try_from_all(items: Vec<ch_ewf_grpc::base_types::Share>) -> (r: Result<Vec<Self>, ServiceError>)
        ensures
            match crate::rules::first_rejection(items@, Self::rejection_fn()) {
                Some(message) => rejected(r, message),
                None => r matches Ok(list) && Self::are_accepted(list@, items@),
            },
    {
        let mut list: Vec<Self> = Vec::new();
        let ghost all = items@;
        for item in it: items
            invariant
                it.seq() == all,
                list@.len() == it.index(),
                forall|j: int| 0 <= j < it.index() ==> (Self::rejection_fn())(#[trigger] all[j]) is None,
                forall|j: int| 0 <= j < it.index() ==> (#[trigger] list@[j]).is_accepted(all[j]),
        {
            proof {
                crate::rules::lemma_first_rejection(all, Self::rejection_fn(), it.index() as int);
            }
            let v = Self::try_from(item)?;
            list.push(v);
        }
        proof {
            crate::rules::lemma_first_rejection(all, Self::rejection_fn(), all.len() as int);
        }
        Ok(list)
    }
}

impl proto::base_types::Capital {
    /// Why the capital `c` is refused, if it is.
    pub open spec fn rejection(c: ch_ewf_grpc::base_types::Capital) -> Option<Seq<char>> {
        if crate::text::byte_len(c.currency@) != 3 {
            Some("Invalid currency code"@)
        } else if !c.total_aggregate_nominal_value.spec_in_range(crate::decimal::MAX_TOTAL_MICROS) {
            Some("Invalid total aggregate nominal value"@)
        } else if !c.total_number_of_shares_issued.spec_in_range(crate::decimal::MAX_TOTAL_MICROS) {
            Some("Invalid number of shares issued"@)
        } else if !c.total_amount_unpaid.spec_in_range(crate::decimal::MAX_TOTAL_MICROS) {
            Some("Invalid total amount unpaid"@)
        } else {
            crate::rules::first_rejection(c.shares@, proto::base_types::Share::rejection_fn())
        }
    }

    /// Whether `self` is the capital `c` as it goes on the wire.
    pub open spec fn is_accepted(self, c: ch_ewf_grpc::base_types::Capital) -> bool {
        &&& self.share_currency == c.currency
        &&& self.total_aggregate_value == c.total_aggregate_nominal_value
        &&& self.total_issued_shares == c.total_number_of_shares_issued
        &&& self.total_amount_unpaid == c.total_amount_unpaid
        &&& proto::base_types::Share::are_accepted(self.shares@, c.shares@)
    }

    pub fn try_from(c: ch_ewf_grpc::base_types::Capital) -> (r: Result<Self, ServiceError>)
        ensures
            match Self::rejection(c) {
                Some(message) => rejected(r, message),
                None => r matches Ok(v) && v.is_accepted(c),
            },
    {
        if crate::text::len(c.currency.as_str()) != 3 {
            return invalid_argument("Invalid currency code");
        }
        if !c.total_aggregate_nominal_value.in_range(crate::decimal::MAX_TOTAL_MICROS) {
            return invalid_argument("Invalid total aggregate nominal value");
        }
        if !c.total_number_of_shares_issued.in_range(crate::decimal::MAX_TOTAL_MICROS) {
            return invalid_argument("Invalid number of shares issued");
        }
        if !c.total_amount_unpaid.in_range(crate::decimal::MAX_TOTAL_MICROS) {
            return invalid_argument("Invalid total amount unpaid");
        }
        let shares = proto::base_types::Share::try_from_all(c.shares)?;
        Ok(
            proto::base_types::Capital {
                share_currency: c.currency,
                total_aggregate_value: c.total_aggregate_nominal_value,
                total_issued_shares: c.total_number_of_shares_issued,
                total_amount_unpaid: c.total_amount_unpaid,
                shares,
            },
        )
    }
}

impl proto::base_types::PreviousNameType {
    /// `rejection` as a function.
    pub open spec fn rejection_fn() -> spec_fn(ch_ewf_grpc::base_types::PreviousName) -> Option<Seq<char>> {
        |value: ch_ewf_grpc::base_types::PreviousName| Self::rejection(value)
    }

    /// Whether `list` holds the items of `items`, each as it goes on the wire, in order.
    pub open spec fn are_accepted(list: Seq<Self>, items: Seq<ch_ewf_grpc::base_types::PreviousName>) -> bool {
        list.len() == items.len() && forall|i: int|
            0 <= i < list.len() ==> (#[trigger] list[i]).is_accepted(items[i])
    }

    /// Checks the items in order and stops at the first that is refused.
    pub fn try_from_all(items: Vec<ch_ewf_grpc::base_types::PreviousName>) -> (r: Result<Vec<Self>, ServiceError>)
        ensures
            match first_rejection(items@, Self::rejection_fn()) {
                Some(message) => rejected(r, message),
                None => r matches Ok(list) && Self::are_accepted(list@, items@),
            },
    {
        let mut list: Vec<Self> = Vec::new();
        let ghost all = items@;
        for item in it: items
            invariant
                it.seq() == all,
                list@.len() == it.index(),
                forall|j: int| 0 <= j < it.index() ==> (Self::rejection_fn())(#[trigger] all[j]) is None,
                forall|j: int| 0 <= j < it.index() ==> (#[trigger] list@[j]).is_accepted(all[j]),
        {
            proof {
                lemma_first_rejection(all, Self::rejection_fn(), it.index() as int);
            }
            let v = Self::try_from(item)?;
            list.push(v);
        }
        proof {
            lemma_first_rejection(all, Self::rejection_fn(), all.len() as int);
        }
        Ok(list)
    }
}

impl proto::base_types::PersonalAttribute {
    /// `rejection` as a function.
    pub open spec fn rejection_fn() -> spec_fn(ch_ewf_grpc::base_types::PersonalAttribute) -> Option<Seq<char>> {
        |a: ch_ewf_grpc::base_types::PersonalAttribute| Self::rejection(a)
    }

    /// Whether `list` holds the items of `items`, each as it goes on the wire, in order.
    pub open spec fn are_accepted(list: Seq<Self>, items: Seq<ch_ewf_grpc::base_types::PersonalAttribute>) -> bool {
        list.len() == items.len() && forall|i: int|
            0 <= i < list.len() ==> (#[trigger] list[i]).is_accepted(items[i])
    }

    /// Checks the items in order and stops at the first that is refused.
    pub fn try_from_all(items: Vec<ch_ewf_grpc::base_types::PersonalAttribute>) -> (r: Result<Vec<Self>, ServiceError>)
        ensures
            match first_rejection(items@, Self::rejection_fn()) {
                Some(message) => rejected(r, message),
                None => r matches Ok(list) && Self::are_accepted(list@, items@),
            },
    {
        let mut list: Vec<Self> = Vec::new();
        let ghost all = items@;
        for item in it: items
            invariant
                it.seq() == all,
                list@.len() == it.index(),
                forall|j: int| 0 <= j < it.index() ==> (Self::rejection_fn())(#[trigger] all[j]) is None,
                forall|j: int| 0 <= j < it.index() ==> (#[trigger] list@[j]).is_accepted(all[j]),
        {
            proof {
                lemma_first_rejection(all, Self::rejection_fn(), it.index() as int);
            }
            let v = Self::try_from(item)?;
            list.push(v);
        }
        proof {
            lemma_first_rejection(all, Self::rejection_fn(), all.len() as int);
        }
        Ok(list)
    }
}

impl proto::base_types::Capital {
    /// `rejection` as a function.
    pub open spec fn rejection_fn() -> spec_fn(ch_ewf_grpc::base_types::Capital) -> Option<Seq<char>> {
        |c: ch_ewf_grpc::base_types::Capital| Self::rejection(c)
    }

    /// Whether `list` holds the items of `items`, each as it goes on the wire, in order.
    pub open spec fn are_accepted(list: Seq<Self>, items: Seq<ch_ewf_grpc::base_types::Capital>) -> bool {
        list.len() == items.len() && forall|i: int|
            0 <= i < list.len() ==> (#[trigger] list[i]).is_accepted(items[i])
    }

    /// Checks the items in order and stops at the first that is refused.
    pub fn try_from_all(items: Vec<ch_ewf_grpc::base_types::Capital>) -> (r: Result<Vec<Self>, ServiceError>)
        ensures
            match first_rejection(items@, Self::rejection_fn()) {
                Some(message) => rejected(r, message),
                None => r matches Ok(list) && Self::are_accepted(list@, items@),
            },
    {
        let mut list: Vec<Self> = Vec::new();
        let ghost all = items@;
        for item in it: items
            invariant
                it.seq() == all,
                list@.len() == it.index(),
                forall|j: int| 0 <= j < it.index() ==> (Self::rejection_fn())(#[trigger] all[j]) is None,
                forall|j: int| 0 <= j < it.index() ==> (#[trigger] list@[j]).is_accepted(all[j]),
        {
            proof {
                lemma_first_rejection(all, Self::rejection_fn(), it.index() as int);
            }
            let v = Self::try_from(item)?;
            list.push(v);
        }
        proof {
            lemma_first_rejection(all, Self::rejection_fn(), all.len() as int);
        }
        Ok(list)
    }
}

} // verus!
