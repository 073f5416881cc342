use ch_ewf::base_types::{
    country_code, country_of, known_alpha3, known_country, other_country_code, PersonNameParts,
};
use ch_ewf::ch_ewf_grpc::base_types::{
    BaseAddress, Capital, CompanyAddress, CompanyIdentification, CompanyIdentificationValue, CorporateOfficer,
    NonUkCompanyIdentification, Person, PersonName, PersonalAttribute, PersonalAttributeType, PreviousName,
    ResidentialAddress, ResidentialAddressAddress, ResidentialAddressValue, ServiceAddress, ServiceAddressValue,
    Share, UkAddress, UkAddressCountry,
};
use ch_ewf::decimal::{Decimal, MAX_AMOUNT_MICROS, MAX_TOTAL_MICROS};
use ch_ewf::error::{ErrorCode, ServiceError};
use ch_ewf::proto::base_types as wire;
use ch_ewf::rules::{all_numeric, all_within, named, non_empty, optional_text, or_empty, required_text};

fn uk_address() -> UkAddress {
    UkAddress {
        premise: "1".to_string(),
        street: "High Street".to_string(),
        thoroughfare: String::new(),
        post_town: "Cardiff".to_string(),
        county: String::new(),
        country: Some(UkAddressCountry::Wales),
        postcode: "CF14 3UZ".to_string(),
        care_of_name: String::new(),
        po_box: String::new(),
    }
}

fn base_address(country: &str) -> BaseAddress {
    BaseAddress {
        premise: "1".to_string(),
        street: "High Street".to_string(),
        thoroughfare: String::new(),
        post_town: "Cardiff".to_string(),
        county: String::new(),
        country: country.to_string(),
        postcode: "CF14 3UZ".to_string(),
    }
}

fn refused<T: std::fmt::Debug>(r: Result<T, ServiceError>, message: &str) {
    let e = r.unwrap_err();
    assert_eq!(e.code, ErrorCode::InvalidArgument);
    assert_eq!(e.message, message);
}

#[test]
fn text_rules() {
    assert!(required_text("a", 1));
    assert!(!required_text("", 1));
    assert!(!required_text("ab", 1));
    assert!(!required_text("é", 1));
    assert!(required_text("é", 2));
    assert!(optional_text("", 0));
    assert!(optional_text("abc", 3));
    assert!(!optional_text("abcd", 3));
    assert_eq!(non_empty(String::new()), None);
    assert_eq!(non_empty("x".to_string()), Some("x".to_string()));
    assert_eq!(or_empty(None), "");
    assert_eq!(or_empty(Some("x".to_string())), "x");
    assert!(all_within(&vec!["ab".to_string(), "c".to_string()], 2));
    assert!(!all_within(&vec!["ab".to_string(), "cde".to_string()], 2));
    assert!(all_within(&vec![], 0));
    assert!(all_numeric("0123"));
    assert!(all_numeric(""));
    assert!(!all_numeric("12a4"));
    assert!(!all_numeric("12.4"));
}

#[test]
fn named_values_are_taken_out() {
    assert_eq!(named(vec![Some(1u8), Some(2)], "bad").unwrap(), vec![1, 2]);
    assert_eq!(named(Vec::<Option<u8>>::new(), "bad").unwrap(), Vec::<u8>::new());
    refused(named(vec![Some(1u8), None, Some(3)], "Invalid nature of control"), "Invalid nature of control");
}

#[test]
fn uk_address_is_accepted_with_empty_parts_left_out() {
    let a = wire::UKAddress::try_from(uk_address()).unwrap();
    assert_eq!(a.premise, "1");
    assert_eq!(a.street, Some("High Street".to_string()));
    assert_eq!(a.thoroughfare, None);
    assert_eq!(a.post_town, "Cardiff");
    assert_eq!(a.county, None);
    assert_eq!(a.country, wire::UKCountry::Wales);
    assert_eq!(a.postcode, Some("CF14 3UZ".to_string()));
    assert_eq!(a.care_of_name, None);
    assert_eq!(a.po_box, None);
}

#[test]
fn uk_address_countries() {
    for (given, expected) in [
        (Some(UkAddressCountry::England), wire::UKCountry::England),
        (Some(UkAddressCountry::Scotland), wire::UKCountry::Scotland),
        (Some(UkAddressCountry::Wales), wire::UKCountry::Wales),
        (Some(UkAddressCountry::NorthernIreland), wire::UKCountry::NorthernIreland),
        (Some(UkAddressCountry::Uk), wire::UKCountry::GreatBritain),
        (Some(UkAddressCountry::Undefined), wire::UKCountry::Undefined),
        (None, wire::UKCountry::Undefined),
    ] {
        let mut a = uk_address();
        a.country = given;
        assert_eq!(wire::UKAddress::try_from(a).unwrap().country, expected);
    }
}

#[test]
fn uk_address_refusals_come_in_order() {
    let mut a = uk_address();
    a.premise = String::new();
    a.post_town = String::new();
    refused(wire::UKAddress::try_from(a), "Invalid premise");
    let mut a = uk_address();
    a.premise = "x".repeat(51);
    refused(wire::UKAddress::try_from(a), "Invalid premise");
    let mut a = uk_address();
    a.premise = "x".repeat(50);
    assert!(wire::UKAddress::try_from(a).is_ok());
    let mut a = uk_address();
    a.post_town = String::new();
    a.street = "x".repeat(51);
    refused(wire::UKAddress::try_from(a), "Invalid post town");
    let mut a = uk_address();
    a.street = "x".repeat(51);
    a.thoroughfare = "x".repeat(51);
    refused(wire::UKAddress::try_from(a), "Invalid street");
    let mut a = uk_address();
    a.thoroughfare = "x".repeat(51);
    refused(wire::UKAddress::try_from(a), "Invalid thoroughfare");
    let mut a = uk_address();
    a.county = "x".repeat(51);
    refused(wire::UKAddress::try_from(a), "Invalid county");
    let mut a = uk_address();
    a.postcode = "x".repeat(16);
    refused(wire::UKAddress::try_from(a), "Invalid postcode");
    let mut a = uk_address();
    a.care_of_name = "x".repeat(101);
    a.po_box = "x".repeat(11);
    refused(wire::UKAddress::try_from(a), "Invalid care of name");
    let mut a = uk_address();
    a.po_box = "x".repeat(11);
    refused(wire::UKAddress::try_from(a), "Invalid PO box");
}

#[test]
fn uk_address_reply_fills_missing_parts_with_empty_text() {
    let a = wire::UKAddress::try_from(uk_address()).unwrap();
    let back = UkAddress::from(a);
    assert_eq!(format!("{:?}", back), format!("{:?}", uk_address()));
    let mut a = wire::UKAddress::try_from(uk_address()).unwrap();
    a.country = wire::UKCountry::GreatBritain;
    assert_eq!(UkAddress::from(a).country, Some(UkAddressCountry::Uk));
}

#[test]
fn countries_are_read_from_their_codes() {
    assert!(country_of(String::new()).unwrap().is_none());
    for (code, expected) in [
        ("GB-ENG", wire::AddressCountryType::England),
        ("GB-SCO", wire::AddressCountryType::Scotland),
        ("GB-WLS", wire::AddressCountryType::Wales),
        ("GB-NIR", wire::AddressCountryType::NorthernIreland),
        ("GB", wire::AddressCountryType::GreatBritain),
        ("gb", wire::AddressCountryType::GreatBritain),
        ("US", wire::AddressCountryType::UnitedStatesOfAmerica),
        ("ie", wire::AddressCountryType::Ireland),
        ("DE", wire::AddressCountryType::Germany),
        ("FR", wire::AddressCountryType::France),
        ("LT", wire::AddressCountryType::Lithuania),
        ("NZ", wire::AddressCountryType::NewZealand),
        ("ZA", wire::AddressCountryType::SouthAfrica),
    ] {
        match country_of(code.to_string()).unwrap() {
            Some(wire::AddressCountry::Country(c)) => assert_eq!(c, expected, "{}", code),
            other => panic!("unexpected country {:?} for {}", other, code),
        }
    }
    match country_of("JP".to_string()).unwrap() {
        Some(wire::AddressCountry::OtherCountry(c)) => assert_eq!(c, "JPN"),
        other => panic!("unexpected country {:?}", other),
    }
    match country_of("ch".to_string()).unwrap() {
        Some(wire::AddressCountry::OtherCountry(c)) => assert_eq!(c, "CHE"),
        other => panic!("unexpected country {:?}", other),
    }
}

#[test]
fn unknown_country_codes_are_refused() {
    for code in ["XX", "GBR", "gb-eng", "England", "1"] {
        let e = country_of(code.to_string()).unwrap_err();
        assert_eq!(e.code, ErrorCode::InvalidArgument);
        assert!(e.message.starts_with("Invalid country code: "), "{}", e.message);
        assert!(e.message.len() > "Invalid country code: ".len());
    }
    refused(
        wire::BaseAddress::try_from(base_address("XX")),
        &country_of("XX".to_string()).unwrap_err().message,
    );
}

#[test]
fn known_countries_by_three_letter_code() {
    assert_eq!(known_country("GBR"), Some(wire::AddressCountryType::GreatBritain));
    assert_eq!(known_country("USA"), Some(wire::AddressCountryType::UnitedStatesOfAmerica));
    assert_eq!(known_country("GRC"), Some(wire::AddressCountryType::Greece));
    assert_eq!(known_country("JPN"), None);
    assert_eq!(known_country("gbr"), None);
    assert_eq!(known_country(""), None);
}

#[test]
fn countries_are_named_by_code_in_replies() {
    assert_eq!(country_code(wire::AddressCountryType::England), "GB-ENG");
    assert_eq!(country_code(wire::AddressCountryType::NorthernIreland), "GB-NIR");
    assert_eq!(country_code(wire::AddressCountryType::GreatBritain), "GB");
    assert_eq!(country_code(wire::AddressCountryType::UnitedStatesOfAmerica), "US");
    assert_eq!(country_code(wire::AddressCountryType::Czechia), "CZ");
    assert_eq!(other_country_code("JPN".to_string()), "JP");
    assert_eq!(other_country_code("jpn".to_string()), "JP");
    assert_eq!(other_country_code("jp".to_string()), "JP");
    assert_eq!(other_country_code("392".to_string()), "JP");
    assert_eq!(other_country_code("Atlantis".to_string()), "Atlantis");
    assert_eq!(other_country_code("99999".to_string()), "99999");
    assert_eq!(other_country_code(String::new()), "");
}

#[test]
fn every_known_country_goes_out_and_comes_back() {
    for code in ["GB-ENG", "GB-SCO", "GB-WLS", "GB-NIR", "GB", "US", "IE", "DE", "FR", "IT", "ES", "PT", "NL", "PL", "BE",
        "NO", "SE", "DK", "AU", "NZ", "CA", "ZA", "AT", "HR", "CY", "CZ", "EE", "HU", "GR", "LT", "JP", ""]
    {
        let accepted = wire::BaseAddress::try_from(base_address(code)).unwrap();
        let back = BaseAddress::from(accepted);
        assert_eq!(back.country, code);
        assert_eq!(format!("{:?}", back), format!("{:?}", base_address(code)));
    }
}

#[test]
fn base_address_refusals() {
    let mut a = base_address("GB");
    a.premise = String::new();
    refused(wire::BaseAddress::try_from(a), "Invalid premise");
    let mut a = base_address("XX");
    a.postcode = "x".repeat(16);
    refused(wire::BaseAddress::try_from(a), "Invalid postcode");
}

#[test]
fn company_address_needs_a_base_address() {
    let a = CompanyAddress { base_address: None, care_of_name: "x".repeat(200), po_box: String::new() };
    refused(wire::CompanyAddress::try_from(a), "Base address required");
    let a = CompanyAddress {
        base_address: Some(base_address("GB")),
        care_of_name: "x".repeat(101),
        po_box: String::new(),
    };
    refused(wire::CompanyAddress::try_from(a), "Invalid care of name");
    let a = CompanyAddress { base_address: Some(base_address("GB")), care_of_name: String::new(), po_box: "x".repeat(11) };
    refused(wire::CompanyAddress::try_from(a), "Invalid PO box");
    let a = CompanyAddress {
        base_address: Some(base_address("GB")),
        care_of_name: "Jo".to_string(),
        po_box: String::new(),
    };
    let accepted = wire::CompanyAddress::try_from(a.clone()).unwrap();
    assert_eq!(accepted.care_of_name, Some("Jo".to_string()));
    assert_eq!(accepted.po_box, None);
    assert_eq!(format!("{:?}", CompanyAddress::from(accepted)), format!("{:?}", a));
}

#[test]
fn company_identification_rules() {
    let none = CompanyIdentification { company_identification: None };
    refused(wire::CompanyIdentification::try_from(none), "Company identification required number");
    let uk = |n: &str| CompanyIdentification {
        company_identification: Some(CompanyIdentificationValue::UkRegistrationNumber(n.to_string())),
    };
    refused(wire::CompanyIdentification::try_from(uk("")), "Invalid company registration number");
    refused(wire::CompanyIdentification::try_from(uk(&"1".repeat(21))), "Invalid company registration number");
    match wire::CompanyIdentification::try_from(uk("01234567")).unwrap() {
        wire::CompanyIdentification::UK { registration_number } => assert_eq!(registration_number, "01234567"),
        other => panic!("unexpected identification {:?}", other),
    }
    let non_uk = |law: &str, form: &str, place: &str, number: &str| CompanyIdentification {
        company_identification: Some(CompanyIdentificationValue::NonUk(NonUkCompanyIdentification {
            place_registered: place.to_string(),
            registration_number: number.to_string(),
            governing_law: law.to_string(),
            legal_form: form.to_string(),
        })),
    };
    refused(wire::CompanyIdentification::try_from(non_uk("", "", "", "")), "Invalid company governing law");
    refused(wire::CompanyIdentification::try_from(non_uk("law", "", "", "")), "Invalid company legal form");
    refused(
        wire::CompanyIdentification::try_from(non_uk("law", "form", &"p".repeat(51), "")),
        "Invalid company place registered",
    );
    refused(
        wire::CompanyIdentification::try_from(non_uk("law", "form", "", &"1".repeat(21))),
        "Invalid company registration number",
    );
    match wire::CompanyIdentification::try_from(non_uk("law", "form", "", "7")).unwrap() {
        wire::CompanyIdentification::NonUK { place_registered, registration_number, governing_law, legal_form } => {
            assert_eq!(place_registered, None);
            assert_eq!(registration_number, Some("7".to_string()));
            assert_eq!(governing_law, "law");
            assert_eq!(legal_form, "form");
        }
        other => panic!("unexpected identification {:?}", other),
    }
}

#[test]
fn corporate_officer_rules() {
    let officer = |name: &str| CorporateOfficer {
        corporate_name: name.to_string(),
        address: Some(CompanyAddress {
            base_address: Some(base_address("GB")),
            care_of_name: String::new(),
            po_box: String::new(),
        }),
        company_identification: Some(CompanyIdentification {
            company_identification: Some(CompanyIdentificationValue::UkRegistrationNumber("01234567".to_string())),
        }),
    };
    refused(wire::CorporateOfficerType::try_from(officer("")), "Invalid corporate name");
    let mut o = officer("ACME LTD");
    o.address = None;
    refused(wire::CorporateOfficerType::try_from(o), "Address required");
    let mut o = officer("ACME LTD");
    o.company_identification = None;
    refused(wire::CorporateOfficerType::try_from(o), "Company identification required");
    let accepted = wire::CorporateOfficerType::try_from(officer("ACME LTD")).unwrap();
    assert_eq!(accepted.corporate_name, "ACME LTD");
    assert_eq!(format!("{:?}", CorporateOfficer::from(accepted)), format!("{:?}", officer("ACME LTD")));
}

#[test]
fn person_names_are_taken_apart() {
    let name = |title: &str, forenames: Vec<&str>, surname: &str| PersonName {
        title: title.to_string(),
        forenames: forenames.into_iter().map(|f| f.to_string()).collect(),
        surname: surname.to_string(),
    };
    let parts = PersonNameParts::try_from(name("Dr", vec!["Ada", "Mary", "Jane"], "Lovelace")).unwrap();
    assert_eq!(parts.title, Some("Dr".to_string()));
    assert_eq!(parts.forename, Some("Ada".to_string()));
    assert_eq!(parts.other_forenames, Some("Mary Jane".to_string()));
    assert_eq!(parts.surname, "Lovelace");
    let p = wire::PersonType::try_from(name("", vec!["Ada"], "Lovelace")).unwrap();
    assert_eq!(p.title, None);
    assert_eq!(p.forename, Some("Ada".to_string()));
    assert_eq!(p.other_forenames, None);
    let p = wire::PersonType2::try_from(name("", vec![], "Lovelace")).unwrap();
    assert_eq!(p.forename, None);
    assert_eq!(p.other_forenames, None);
    assert_eq!(p.surname, "Lovelace");
    let p = wire::PersonType::try_from(name("", vec![""], "Lovelace")).unwrap();
    assert_eq!(p.forename, Some(String::new()));
    refused(wire::PersonType::try_from(name("", vec![], "")), "Invalid surname");
    refused(wire::PersonType::try_from(name("", vec![], &"s".repeat(161))), "Invalid surname");
    refused(wire::PersonType::try_from(name(&"t".repeat(51), vec![], "L")), "Invalid title");
    refused(wire::PersonType2::try_from(name("", vec![&"f".repeat(51)], "L")), "Invalid forename");
    refused(
        wire::PersonType2::try_from(name("", vec!["A", &"b".repeat(25), &"c".repeat(25)], "L")),
        "Invalid forename",
    );
    assert!(wire::PersonType2::try_from(name("", vec!["A", &"b".repeat(25), &"c".repeat(24)], "L")).is_ok());
}

#[test]
fn person_names_in_replies() {
    let p = wire::PersonType {
        title: None,
        surname: "Lovelace".to_string(),
        forename: Some("Ada".to_string()),
        other_forenames: Some("Mary Jane".to_string()),
    };
    let n = PersonName::from(p);
    assert_eq!(n.title, "");
    assert_eq!(n.forenames, vec!["Ada".to_string(), "Mary Jane".to_string()]);
    assert_eq!(n.surname, "Lovelace");
    let p = wire::PersonType { title: None, surname: "L".to_string(), forename: None, other_forenames: Some("x".to_string()) };
    assert!(PersonName::from(p).forenames.is_empty());
    let p = wire::PersonType { title: Some("Dr".to_string()), surname: "L".to_string(), forename: Some("A".to_string()), other_forenames: None };
    let n = PersonName::from(p);
    assert_eq!(n.title, "Dr");
    assert_eq!(n.forenames, vec!["A".to_string()]);
    let r = wire::PersonReturnType { title: None, forenames: vec!["A".to_string(), "B".to_string()], surname: "L".to_string() };
    assert_eq!(PersonName::from_return_type(r).forenames, vec!["A".to_string(), "B".to_string()]);
}

#[test]
fn person_rules() {
    let person = |f: &str, s: &str| Person { forename: f.to_string(), surname: s.to_string() };
    refused(wire::Person::try_from(person("", "")), "Invalid forename");
    refused(wire::Person::try_from(person("A", "")), "Invalid surname");
    refused(wire::Person::try_from(person("A", &"s".repeat(51))), "Invalid surname");
    let p = wire::Person::try_from(person("Ada", "Lovelace")).unwrap();
    assert_eq!(p.forename, "Ada");
    assert_eq!(p.surname, "Lovelace");
}

#[test]
fn service_and_residential_addresses() {
    refused(wire::ServiceAddressType::try_from(ServiceAddress { value: None }), "Service address value required");
    refused(
        wire::ServiceAddressType::try_from(ServiceAddress { value: Some(ServiceAddressValue::SameAsRegisteredOffice(false)) }),
        "Same as registered office must be true",
    );
    let same = wire::ServiceAddressType::try_from(ServiceAddress {
        value: Some(ServiceAddressValue::SameAsRegisteredOffice(true)),
    })
    .unwrap();
    assert!(same.same_as_registered_office);
    assert!(same.address.is_none());
    let given = ServiceAddress {
        value: Some(ServiceAddressValue::Address(CompanyAddress {
            base_address: Some(base_address("GB-WLS")),
            care_of_name: String::new(),
            po_box: String::new(),
        })),
    };
    let accepted = wire::ServiceAddressType::try_from(given.clone()).unwrap();
    assert!(!accepted.same_as_registered_office);
    assert!(accepted.address.is_some());
    assert_eq!(format!("{:?}", ServiceAddress::from(accepted)), format!("{:?}", given));
    assert_eq!(
        format!("{:?}", ServiceAddress::from(same)),
        format!("{:?}", ServiceAddress { value: Some(ServiceAddressValue::SameAsRegisteredOffice(true)) })
    );

    refused(
        wire::ResidentialAddressType::try_from(ResidentialAddress { value: None }),
        "Residential address value required",
    );
    refused(
        wire::ResidentialAddressType::try_from(ResidentialAddress {
            value: Some(ResidentialAddressValue::SameAsServiceAddress(false)),
        }),
        "Same as service address must be true",
    );
    refused(
        wire::ResidentialAddressType::try_from(ResidentialAddress {
            value: Some(ResidentialAddressValue::Address(ResidentialAddressAddress { address: None, secure_address: None })),
        }),
        "Base address required",
    );
    let given = ResidentialAddress {
        value: Some(ResidentialAddressValue::Address(ResidentialAddressAddress {
            address: Some(base_address("FR")),
            secure_address: Some(true),
        })),
    };
    let accepted = wire::ResidentialAddressType::try_from(given.clone()).unwrap();
    assert!(!accepted.same_as_service_address);
    assert_eq!(accepted.address.as_ref().unwrap().secure_address, Some(true));
    assert_eq!(format!("{:?}", ResidentialAddress::from(accepted)), format!("{:?}", given));
}

#[test]
fn previous_names() {
    let name = |f: &str, s: &str| PreviousName { forename: f.to_string(), surname: s.to_string() };
    refused(wire::PreviousNameType::try_from(name("", "")), "Invalid surname");
    refused(wire::PreviousNameType::try_from(name(&"f".repeat(51), "S")), "Invalid forename");
    let n = wire::PreviousNameType::try_from(name("", "Smith")).unwrap();
    assert_eq!(n.forename, None);
    assert_eq!(n.surname, "Smith");
    assert_eq!(PreviousName::from(n).forename, "");
    let list = wire::PreviousNameType::try_from_all(vec![name("A", "B"), name("", "C")]).unwrap();
    assert_eq!(list.len(), 2);
    assert_eq!(list[1].surname, "C");
    refused(
        wire::PreviousNameType::try_from_all(vec![name("A", "B"), name(&"f".repeat(51), "C"), name("", "")]),
        "Invalid forename",
    );
    assert!(wire::PreviousNameType::try_from_all(vec![]).unwrap().is_empty());
}

#[test]
fn capital_rules() {
    let share = |class: &str, n: i128| Share {
        share_class: class.to_string(),
        num_shares: Decimal { micros: n },
        aggregate_nominal_value: Decimal { micros: 1000000 },
        prescribed_particulars: "One vote each".to_string(),
    };
    let capital = |currency: &str, shares: Vec<Share>| Capital {
        currency: currency.to_string(),
        total_aggregate_nominal_value: Decimal { micros: 100000000 },
        total_number_of_shares_issued: Decimal { micros: 100000000 },
        total_amount_unpaid: Decimal { micros: 0 },
        shares,
    };
    refused(wire::Capital::try_from(capital("GBPX", vec![])), "Invalid currency code");
    refused(wire::Capital::try_from(capital("", vec![])), "Invalid currency code");
    let mut c = capital("GBP", vec![]);
    c.total_aggregate_nominal_value = Decimal { micros: -1 };
    refused(wire::Capital::try_from(c), "Invalid total aggregate nominal value");
    let mut c = capital("GBP", vec![]);
    c.total_number_of_shares_issued = Decimal { micros: MAX_TOTAL_MICROS + 1 };
    refused(wire::Capital::try_from(c), "Invalid number of shares issued");
    let mut c = capital("GBP", vec![]);
    c.total_amount_unpaid = Decimal { micros: -1 };
    refused(wire::Capital::try_from(c), "Invalid total amount unpaid");
    let mut c = capital("GBP", vec![]);
    c.total_amount_unpaid = Decimal { micros: MAX_TOTAL_MICROS };
    assert!(wire::Capital::try_from(c).is_ok());
    refused(wire::Capital::try_from(capital("GBP", vec![share("A", 1), share("", 1)])), "Invalid share class");
    refused(
        wire::Capital::try_from(capital("GBP", vec![share("A", MAX_AMOUNT_MICROS + 1)])),
        "Invalid number of shares",
    );
    let mut s = share("A", 1);
    s.prescribed_particulars = String::new();
    refused(wire::Capital::try_from(capital("GBP", vec![s])), "Invalid prescribed particulars");
    let mut s = share("A", 1);
    s.aggregate_nominal_value = Decimal { micros: -5 };
    refused(wire::Capital::try_from(capital("GBP", vec![s])), "Invalid aggregate nominal value");
    let given = capital("GBP", vec![share("A", 5), share("B", MAX_AMOUNT_MICROS)]);
    let accepted = wire::Capital::try_from(given.clone()).unwrap();
    assert_eq!(accepted.share_currency, "GBP");
    assert_eq!(accepted.shares.len(), 2);
    assert_eq!(accepted.shares[1].share_class, "B");
    assert_eq!(accepted.shares[1].num_shares, Decimal { micros: MAX_AMOUNT_MICROS });
    assert_eq!(accepted.shares[0].particulars, "One vote each");
    assert_eq!(format!("{:?}", Capital::from(accepted)), format!("{:?}", given));
}

#[test]
fn decimal_ranges() {
    assert!(Decimal { micros: 0 }.in_range(0));
    assert!(!Decimal { micros: -1 }.in_range(10));
    assert!(Decimal { micros: 10 }.in_range(10));
    assert!(!Decimal { micros: 11 }.in_range(10));
    assert_eq!(MAX_AMOUNT_MICROS, 999_999_999_999_999_999_999);
    assert_eq!(MAX_TOTAL_MICROS, 99_999_999_999_999_999_999_999_999);
}

#[test]
fn personal_attributes() {
    let attribute = |kind: Option<PersonalAttributeType>, data: &str| PersonalAttribute {
        personal_attribute: kind,
        personal_data: data.to_string(),
    };
    refused(
        wire::PersonalAttribute::try_from(attribute(Some(PersonalAttributeType::BirthTown), "CARD")),
        "Invalid personal data length",
    );
    refused(wire::PersonalAttribute::try_from(attribute(None, "CAR")), "Personal attribute type required");
    for (given, expected) in [
        (PersonalAttributeType::BirthTown, wire::PersonalAttributeType::BirthTown),
        (PersonalAttributeType::Telephone, wire::PersonalAttributeType::Telephone),
        (PersonalAttributeType::NationalInsurance, wire::PersonalAttributeType::NationalInsurance),
        (PersonalAttributeType::PassportNumber, wire::PersonalAttributeType::PassportNumber),
        (PersonalAttributeType::MothersMaiden, wire::PersonalAttributeType::MothersMaiden),
        (PersonalAttributeType::FathersForename, wire::PersonalAttributeType::FathersForename),
    ] {
        let a = wire::PersonalAttribute::try_from(attribute(Some(given), "CAR")).unwrap();
        assert_eq!(a.personal_attribute, expected);
        assert_eq!(a.personal_data, "CAR");
    }
}

#[test]
fn numeric_country_codes_are_read_as_decimal_numbers() {
    assert_eq!(other_country_code("+392".to_string()), "JP");
    assert_eq!(other_country_code("0392".to_string()), "JP");
    assert_eq!(other_country_code("826".to_string()), "GB");
    assert_eq!(other_country_code("-392".to_string()), "-392");
    assert_eq!(other_country_code("++392".to_string()), "++392");
    assert_eq!(other_country_code("+".to_string()), "+");
    assert_eq!(other_country_code(" 392".to_string()), " 392");
    assert_eq!(other_country_code("392 ".to_string()), "392 ");
    assert_eq!(other_country_code("4294967296".to_string()), "4294967296");
    assert_eq!(other_country_code("٣٩٢".to_string()), "٣٩٢");
}

#[test]
fn countries_that_the_wire_names_have_a_three_letter_code() {
    assert_eq!(known_alpha3(wire::AddressCountryType::England), None);
    assert_eq!(known_alpha3(wire::AddressCountryType::Scotland), None);
    assert_eq!(known_alpha3(wire::AddressCountryType::Wales), None);
    assert_eq!(known_alpha3(wire::AddressCountryType::NorthernIreland), None);
    assert_eq!(known_alpha3(wire::AddressCountryType::GreatBritain), Some("GBR"));
    assert_eq!(known_alpha3(wire::AddressCountryType::Germany), Some("DEU"));
    assert_eq!(known_alpha3(wire::AddressCountryType::SouthAfrica), Some("ZAF"));
    for (country, code) in [
        (wire::AddressCountryType::GreatBritain, "GB"),
        (wire::AddressCountryType::UnitedStatesOfAmerica, "US"),
        (wire::AddressCountryType::Ireland, "IE"),
        (wire::AddressCountryType::Germany, "DE"),
        (wire::AddressCountryType::France, "FR"),
        (wire::AddressCountryType::Italy, "IT"),
        (wire::AddressCountryType::Spain, "ES"),
        (wire::AddressCountryType::Portugal, "PT"),
        (wire::AddressCountryType::Netherlands, "NL"),
        (wire::AddressCountryType::Poland, "PL"),
        (wire::AddressCountryType::Belgium, "BE"),
        (wire::AddressCountryType::Norway, "NO"),
        (wire::AddressCountryType::Sweden, "SE"),
        (wire::AddressCountryType::Denmark, "DK"),
        (wire::AddressCountryType::Australia, "AU"),
        (wire::AddressCountryType::NewZealand, "NZ"),
        (wire::AddressCountryType::Canada, "CA"),
        (wire::AddressCountryType::SouthAfrica, "ZA"),
        (wire::AddressCountryType::Austria, "AT"),
        (wire::AddressCountryType::Croatia, "HR"),
        (wire::AddressCountryType::Cyprus, "CY"),
        (wire::AddressCountryType::Czechia, "CZ"),
        (wire::AddressCountryType::Estonia, "EE"),
        (wire::AddressCountryType::Hungary, "HU"),
        (wire::AddressCountryType::Greece, "GR"),
        (wire::AddressCountryType::Lithuania, "LT"),
    ] {
        assert_eq!(country_code(country), code);
        assert_eq!(known_country(known_alpha3(country).unwrap()), Some(country));
    }
}
