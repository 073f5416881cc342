//! The forms about charges, and the documents that come with a form: how
//! each is checked and put together.

use vstd::prelude::*;
use vstd::string::*;
use crate::ch_ewf_grpc;
use crate::error::ServiceError;
use crate::grpc::submission::FormRequest;
use crate::grpc::CHFillingService;
use crate::outside::{base64_encode, base64_encoding};
use crate::proto;
use crate::rules::{
    all_within, spec_all_within, first_rejection, invalid_argument, named, non_empty, optional, optional_ok,
    optional_text, rejected, required_text, text_ok, unless, Checks,
};
use crate::text::{byte_len, len};

verus! {

/// The kind of a document's content as the wire names it.
pub open spec fn spec_content_type(c: ch_ewf_grpc::base_types::ContentType) -> proto::form_submission::ContentType {
    match c {
        ch_ewf_grpc::base_types::ContentType::Pdf => proto::form_submission::ContentType::Pdf,
        ch_ewf_grpc::base_types::ContentType::Pcl => proto::form_submission::ContentType::Pcl,
    }
}

impl proto::form_submission::Document {
    /// Why the document `d` is refused, if it is: the name of its file is
    /// too long, or the kind of its content is not named.
    pub open spec fn rejection(d: ch_ewf_grpc::base_types::Document) -> Option<Seq<char>> {
        unless(optional_ok(d.filename@, 32), "Invalid filename"@).otherwise(
            unless(d.content_type is Some, "Content type required"@),
        )
    }

    /// Why a document that may be left out is refused, if it is.
    pub open spec fn optional_rejection(d: Option<ch_ewf_grpc::base_types::Document>) -> Option<Seq<char>> {
        match d {
            Some(d) => Self::rejection(d),
            None => None,
        }
    }

    /// Whether `self` is the document `d` as it goes on the wire under the
    /// category `category`: its content in Base64.
    pub open spec fn is_accepted(
        self,
        d: ch_ewf_grpc::base_types::Document,
        category: proto::form_submission::Category,
    ) -> bool {
        &&& self.data@ == base64_encoding(d.data@)
        &&& self.date == d.date
        &&& self.filename == optional(d.filename)
        &&& d.content_type matches Some(c)
        &&& self.content_type == spec_content_type(c)
        &&& self.category == category
    }

    pub fn try_from(d: &ch_ewf_grpc::base_types::Document, category: proto::form_submission::Category) -> (r: Result<
        Self,
        ServiceError,
    >)
        ensures
            match Self::rejection(*d) {
                Some(message) => rejected(r, message),
                None => r matches Ok(v) && v.is_accepted(*d, category),
            },
    {
        if !optional_text(d.filename.as_str(), 32) {
            return invalid_argument("Invalid filename");
        }
        let content_type = match d.content_type {
            Some(ch_ewf_grpc::base_types::ContentType::Pdf) => proto::form_submission::ContentType::Pdf,
            Some(ch_ewf_grpc::base_types::ContentType::Pcl) => proto::form_submission::ContentType::Pcl,
            None => {
                return invalid_argument("Content type required");
            },
        };
        Ok(
            proto::form_submission::Document {
                data: base64_encode(d.data.as_slice()),
                date: d.date,
                filename: non_empty(d.filename.clone()),
                content_type,
                category,
            },
        )
    }
}

/// The documents `before` followed by the document `d` under `category`, where there is one.
pub open spec fn with_document(
    documents: Seq<proto::form_submission::Document>,
    before: Seq<proto::form_submission::Document>,
    d: Option<ch_ewf_grpc::base_types::Document>,
    category: proto::form_submission::Category,
) -> bool {
    match d {
        Some(d) => documents.len() == before.len() + 1 && documents.drop_last() == before
            && documents.last().is_accepted(d, category),
        None => documents == before,
    }
}

/// Adds the document `d` to `documents` under `category`, where there is one.
pub fn add_document(
    documents: Vec<proto::form_submission::Document>,
    d: &Option<ch_ewf_grpc::base_types::Document>,
    category: proto::form_submission::Category,
) -> (r: Result<Vec<proto::form_submission::Document>, ServiceError>)
    ensures
        match proto::form_submission::Document::optional_rejection(*d) {
            Some(message) => rejected(r, message),
            None => r matches Ok(list) && with_document(list@, documents@, *d, category),
        },
{
    let mut list = documents;
    match d {
        Some(d) => {
            let document = proto::form_submission::Document::try_from(d, category)?;
            list.push(document);
            assert(list@.drop_last() =~= documents@);
        },
        None => {},
    }
    Ok(list)
}

impl proto::charge_registration::ChargeRegistration {
    /// Why the form `msg` is refused once its documents are checked, if it is: for the first
    /// check, in order, that it fails.
    pub open spec fn rejection(msg: ch_ewf_grpc::charge_registration::ChargeRegistration) -> Option<Seq<char>> {
        unless(msg.creation_date is Some, "Creation date required"@)
            .otherwise(unless(spec_all_within(msg.persons_entitled@, 256), "Invalid person entitled"@))
            .otherwise(unless(optional_ok(msg.charge_description@, 3500), "Invalid charge description"@))
            .otherwise(first_rejection(msg.personal_attributes@, proto::base_types::PersonalAttribute::rejection_fn()))
    }

    /// Whether `self` is the form `msg` as it goes on the wire, its documents apart.
    pub open spec fn is_accepted(self, msg: ch_ewf_grpc::charge_registration::ChargeRegistration) -> bool {
        &&& msg.creation_date == Some(self.creation_date)
        &&& self.property_acquired_date == msg.property_acquired_date
        &&& self.persons_entitled.chargee_names == msg.persons_entitled
        &&& self.persons_entitled.additional_chargees == msg.additional_persons_entitled
        &&& self.charge_description == optional(msg.charge_description)
        &&& self.fixed_charge == msg.fixed_charge
        &&& self.floating_charge == msg.floating_charge
        &&& self.negative_pledge == msg.negative_pledge
        &&& self.bare_trustee == msg.bare_trustee
        &&& self.deed_certification_statement == msg.deed_certification_statement
        &&& self.deed_certified_by == msg.deed_certified_by
        &&& proto::base_types::PersonalAttribute::are_accepted(self.authentication@, msg.personal_attributes@)
    }

    pub fn try_from(msg: ch_ewf_grpc::charge_registration::ChargeRegistration) -> (r: Result<Self, ServiceError>)
        ensures
            match Self::rejection(msg) {
                Some(message) => rejected(r, message),
                None => r matches Ok(v) && v.is_accepted(msg),
            },
    {
        let creation_date = match msg.creation_date {
            Some(d) => d,
            None => {
                return invalid_argument("Creation date required");
            },
        };
        if !all_within(&msg.persons_entitled, 256) {
            return invalid_argument("Invalid person entitled");
        }
        if !optional_text(msg.charge_description.as_str(), 3500) {
            return invalid_argument("Invalid charge description");
        }
        let authentication = proto::base_types::PersonalAttribute::try_from_all(msg.personal_attributes)?;
        Ok(
            proto::charge_registration::ChargeRegistration {
                creation_date,
                property_acquired_date: msg.property_acquired_date,
                persons_entitled: proto::charge_registration::PersonsEntitled {
                    chargee_names: msg.persons_entitled,
                    additional_chargees: msg.additional_persons_entitled,
                },
                charge_description: non_empty(msg.charge_description),
                fixed_charge: msg.fixed_charge,
                floating_charge: msg.floating_charge,
                negative_pledge: msg.negative_pledge,
                bare_trustee: msg.bare_trustee,
                deed_certification_statement: msg.deed_certification_statement,
                deed_certified_by: msg.deed_certified_by,
                authentication,
            },
        )
    }
}

/// Why a registration of a charge is refused, if it is: for what it says
/// before its documents, for its documents, or for the rest.
pub open spec fn charge_registration_rejection(msg: ch_ewf_grpc::charge_registration::ChargeRegistration) -> Option<
    Seq<char>,
> {
    unless(1 <= msg.persons_entitled@.len() <= 4, "Invalid number of persons entitled"@)
        .otherwise(unless(text_ok(msg.deed_certification_statement@, 500), "Invalid deed certification statement"@))
        .otherwise(unless(text_ok(msg.deed_certified_by@, 256), "Invalid deed certified by"@))
        .otherwise(unless(msg.personal_attributes@.len() == 3, "Invalid number of personal attributes"@))
        .otherwise(
            match msg.deed {
                Some(d) => proto::form_submission::Document::rejection(d),
                None => Some("Deed document required"@),
            },
        )
        .otherwise(proto::form_submission::Document::optional_rejection(msg.deed_supplemental))
        .otherwise(proto::charge_registration::ChargeRegistration::rejection(msg))
}

impl CHFillingService {
    /// Checks the registration of a charge and puts the form together with
    /// its documents: the deed, and the supplemental deed where there is one.
    pub fn charge_registration(msg: ch_ewf_grpc::charge_registration::ChargeRegistration) -> (r: Result<
        FormRequest,
        ServiceError,
    >)
        ensures
            match charge_registration_rejection(msg) {
                Some(message) => rejected(r, message),
                None => {
                    &&& r matches Ok(request)
                    &&& request.form_submission == msg.form_submission
                    &&& request.submission_class@ == "ChargeRegistration"@
                    &&& request.form_type@ == "ChargeRegistration"@
                    &&& request.form matches proto::form_submission::Form::ChargeRegistration(form)
                    &&& form.is_accepted(msg)
                    &&& msg.deed matches Some(deed)
                    &&& request.documents@.len() >= 1
                    &&& request.documents@[0].is_accepted(deed, proto::form_submission::Category::Deed)
                    &&& with_document(
                        request.documents@,
                        request.documents@.take(1),
                        msg.deed_supplemental,
                        proto::form_submission::Category::DeedSupplemental,
                    )
                },
            },
    {
        let mut msg = msg;
        if msg.persons_entitled.len() == 0 || msg.persons_entitled.len() > 4 {
            return invalid_argument("Invalid number of persons entitled");
        }
        if !required_text(msg.deed_certification_statement.as_str(), 500) {
            return invalid_argument("Invalid deed certification statement");
        }
        if !required_text(msg.deed_certified_by.as_str(), 256) {
            return invalid_argument("Invalid deed certified by");
        }
        if msg.personal_attributes.len() != 3 {
            return invalid_argument("Invalid number of personal attributes");
        }
        let deed = match &msg.deed {
            Some(d) => proto::form_submission::Document::try_from(d, proto::form_submission::Category::Deed)?,
            None => {
                return invalid_argument("Deed document required");
            },
        };
        let mut first: Vec<proto::form_submission::Document> = Vec::new();
        first.push(deed);
        let documents = add_document(
            first,
            &msg.deed_supplemental,
            proto::form_submission::Category::DeedSupplemental,
        )?;
        assert(documents@.take(1) =~= first@);
        assert(documents@[0] == first@[0]);
        let form_submission = msg.form_submission.take();
        let form = proto::charge_registration::ChargeRegistration::try_from(msg)?;
        Ok(
            FormRequest {
                form_submission,
                submission_class: "ChargeRegistration".to_owned(),
                form_type: "ChargeRegistration".to_owned(),
                form: proto::form_submission::Form::ChargeRegistration(form),
                documents,
            },
        )
    }
}

impl proto::charge_update::ExistingChargeKey {
    /// Why the key of the charge `c` is refused, if it is: for the first check, in order, that it fails.
    pub open spec fn rejection(c: ch_ewf_grpc::charge_update::ExistingChargeKey) -> Option<Seq<char>> {
        unless(c.creation_date is Some, "Creation date required"@)
    }

    /// Whether `self` is the key of the charge `c` as it goes on the wire.
    pub open spec fn is_accepted(self, c: ch_ewf_grpc::charge_update::ExistingChargeKey) -> bool {
        &&& self.existing_charge_key == Some(c.existing_charge_key)
        &&& c.creation_date == Some(self.creation_date)
        &&& self.instrument_description == c.instrument_description
        &&& self.short_particulars == c.short_particulars
    }

    pub fn try_from(c: ch_ewf_grpc::charge_update::ExistingChargeKey) -> (r: Result<Self, ServiceError>)
        ensures
            match Self::rejection(c) {
                Some(message) => rejected(r, message),
                None => r matches Ok(v) && v.is_accepted(c),
            },
    {
        let creation_date = match c.creation_date {
            Some(d) => d,
            None => {
                return invalid_argument("Creation date required");
            },
        };
        Ok(
            proto::charge_update::ExistingChargeKey {
                existing_charge_key: Some(c.existing_charge_key),
                creation_date,
                instrument_description: c.instrument_description,
                short_particulars: c.short_particulars,
            },
        )
    }
}

impl proto::charge_update::ChargeID {
    /// Why the charge `id` is refused, if it is: it holds none of its kinds, or the one it holds is refused.
    pub open spec fn rejection(id: Option<ch_ewf_grpc::charge_update::ChargeId>) -> Option<Seq<char>> {
        match id {
            Some(ch_ewf_grpc::charge_update::ChargeId::ChargeCode(c)) => {
                unless(12 <= byte_len(c@) <= 16, "Invalid charge code"@)
            },
            Some(ch_ewf_grpc::charge_update::ChargeId::ExistingChargeKey(c)) => {
                proto::charge_update::ExistingChargeKey::rejection(c)
            },
            None => Some("Charge ID required"@),
        }
    }

    /// Whether `self` is the charge `id` as it goes on the wire.
    pub open spec fn is_accepted(self, id: Option<ch_ewf_grpc::charge_update::ChargeId>) -> bool {
        match id {
            Some(ch_ewf_grpc::charge_update::ChargeId::ChargeCode(c)) => {
                self == proto::charge_update::ChargeID::ChargeCode(c)
            },
            Some(ch_ewf_grpc::charge_update::ChargeId::ExistingChargeKey(c)) => {
                self matches proto::charge_update::ChargeID::ExistingChargeKey(got) && got.is_accepted(c)
            },
            None => false,
        }
    }

    pub fn try_from(id: Option<ch_ewf_grpc::charge_update::ChargeId>) -> (r: Result<Self, ServiceError>)
        ensures
            match Self::rejection(id) {
                Some(message) => rejected(r, message),
                None => r matches Ok(v) && v.is_accepted(id),
            },
    {
        match id {
            Some(ch_ewf_grpc::charge_update::ChargeId::ChargeCode(c)) => {
                if len(c.as_str()) < 12 || len(c.as_str()) > 16 {
                    return invalid_argument("Invalid charge code");
                }
                Ok(proto::charge_update::ChargeID::ChargeCode(c))
            },
            Some(ch_ewf_grpc::charge_update::ChargeId::ExistingChargeKey(c)) => {
                Ok(
                    proto::charge_update::ChargeID::ExistingChargeKey(
                        proto::charge_update::ExistingChargeKey::try_from(c)?,
                    ),
                )
            },
            None => invalid_argument("Charge ID required"),
        }
    }
}

impl proto::charge_update::PartCeaseOrRelease {
    /// Why the part that ceases or is released `s` is refused, if it is: for the first check, in order, that it fails.
    pub open spec fn rejection(s: ch_ewf_grpc::charge_update::PartCeaseOrRelease) -> Option<Seq<char>> {
        unless(s.cease_or_release is Some, "Invalid charge cease or release"@)
    }

    /// Whether `self` is the part that ceases or is released `s` as it goes on the wire.
    pub open spec fn is_accepted(self, s: ch_ewf_grpc::charge_update::PartCeaseOrRelease) -> bool {
        &&& s.cease_or_release == Some(self.cease_or_release)
        &&& self.assets_description == s.assets_description
    }

    pub fn try_from(s: ch_ewf_grpc::charge_update::PartCeaseOrRelease) -> (r: Result<Self, ServiceError>)
        ensures
            match Self::rejection(s) {
                Some(message) => rejected(r, message),
                None => r matches Ok(v) && v.is_accepted(s),
            },
    {
        let cease_or_release = match s.cease_or_release {
            Some(d) => d,
            None => {
                return invalid_argument("Invalid charge cease or release");
            },
        };
        Ok(
            proto::charge_update::PartCeaseOrRelease {
                cease_or_release,
                assets_description: s.assets_description,
            },
        )
    }
}

impl proto::charge_update::Update {
    /// Why the update `update` is refused, if it is: it holds none of its kinds, or the one it holds is refused.
    pub open spec fn rejection(update: Option<ch_ewf_grpc::charge_update::Update>) -> Option<Seq<char>> {
        match update {
            Some(ch_ewf_grpc::charge_update::Update::Satisfaction(s)) => {
                unless(s is Some, "Invalid charge satisfaction"@)
            },
            Some(ch_ewf_grpc::charge_update::Update::FullCeaseOrRelease(s)) => {
                unless(s is Some, "Invalid charge cease or release"@)
            },
            Some(ch_ewf_grpc::charge_update::Update::PartCeaseOrRelease(s)) => {
                proto::charge_update::PartCeaseOrRelease::rejection(s)
            },
            None => Some("Charge update required"@),
        }
    }

    /// Whether `self` is the update `update` as it goes on the wire.
    pub open spec fn is_accepted(self, update: Option<ch_ewf_grpc::charge_update::Update>) -> bool {
        match update {
            Some(ch_ewf_grpc::charge_update::Update::Satisfaction(s)) => {
                s == Some(self->Satisfaction_0) && self is Satisfaction
            },
            Some(ch_ewf_grpc::charge_update::Update::FullCeaseOrRelease(s)) => {
                s == Some(self->AllCeaseOrRelease_0) && self is AllCeaseOrRelease
            },
            Some(ch_ewf_grpc::charge_update::Update::PartCeaseOrRelease(s)) => {
                self matches proto::charge_update::Update::PartCeaseOrRelease(got) && got.is_accepted(s)
            },
            None => false,
        }
    }

    pub fn try_from(update: Option<ch_ewf_grpc::charge_update::Update>) -> (r: Result<Self, ServiceError>)
        ensures
            match Self::rejection(update) {
                Some(message) => rejected(r, message),
                None => r matches Ok(v) && v.is_accepted(update),
            },
    {
        match update {
            Some(ch_ewf_grpc::charge_update::Update::Satisfaction(s)) => {
                match s {
                    Some(value) => Ok(proto::charge_update::Update::Satisfaction(value)),
                    None => invalid_argument("Invalid charge satisfaction"),
                }
            },
            Some(ch_ewf_grpc::charge_update::Update::FullCeaseOrRelease(s)) => {
                match s {
                    Some(value) => Ok(proto::charge_update::Update::AllCeaseOrRelease(value)),
                    None => invalid_argument("Invalid charge cease or release"),
                }
            },
            Some(ch_ewf_grpc::charge_update::Update::PartCeaseOrRelease(s)) => {
                Ok(
                    proto::charge_update::Update::PartCeaseOrRelease(
                        proto::charge_update::PartCeaseOrRelease::try_from(s)?,
                    ),
                )
            },
            None => invalid_argument("Charge update required"),
        }
    }
}

impl proto::charge_update::ChargeUpdate {
    /// Why the form `msg` is refused, if it is: for the first check, in order, that it fails.
    pub open spec fn rejection(msg: ch_ewf_grpc::charge_update::ChargeUpdate) -> Option<Seq<char>> {
        unless(text_ok(msg.person_delivering_name@, 160), "Invalid person delivering name"@)
            .otherwise(unless(text_ok(msg.person_interest_in_charge@, 100), "Invalid person interest in charge"@))
            .otherwise(proto::charge_update::ChargeID::rejection(msg.charge_id))
            .otherwise(proto::charge_update::Update::rejection(msg.update))
            .otherwise(
                match msg.person_delivering_address {
                    Some(address) => proto::base_types::CompanyAddress::rejection(address),
                    None => Some("Person delivering address required"@),
                },
            )
    }

    /// Whether `self` is the form `msg` as it goes on the wire.
    pub open spec fn is_accepted(self, msg: ch_ewf_grpc::charge_update::ChargeUpdate) -> bool {
        &&& self.person_delivering.name == msg.person_delivering_name
        &&& self.person_delivering.interest_in_charge == msg.person_interest_in_charge
        &&& self.charge_id.is_accepted(msg.charge_id)
        &&& self.update.is_accepted(msg.update)
        &&& msg.person_delivering_address matches Some(address)
        &&& self.person_delivering.address.is_accepted(address)
    }

    pub fn try_from(msg: ch_ewf_grpc::charge_update::ChargeUpdate) -> (r: Result<Self, ServiceError>)
        ensures
            match Self::rejection(msg) {
                Some(message) => rejected(r, message),
                None => r matches Ok(v) && v.is_accepted(msg),
            },
    {
        if !required_text(msg.person_delivering_name.as_str(), 160) {
            return invalid_argument("Invalid person delivering name");
        }
        if !required_text(msg.person_interest_in_charge.as_str(), 100) {
            return invalid_argument("Invalid person interest in charge");
        }
        let charge_id = proto::charge_update::ChargeID::try_from(msg.charge_id)?;
        let update = proto::charge_update::Update::try_from(msg.update)?;
        let address = match msg.person_delivering_address {
            Some(address) => proto::base_types::CompanyAddress::try_from(address)?,
            None => {
                return invalid_argument("Person delivering address required");
            },
        };
        Ok(
            proto::charge_update::ChargeUpdate {
                charge_id,
                update,
                person_delivering: proto::charge_update::PersonDelivering {
                    name: msg.person_delivering_name,
                    address,
                    interest_in_charge: msg.person_interest_in_charge,
                },
            },
        )
    }
}

impl CHFillingService {
    /// Checks an update of a charge and puts the form together.
    pub fn charge_update(msg: ch_ewf_grpc::charge_update::ChargeUpdate) -> (r: Result<FormRequest, ServiceError>)
        ensures
            match proto::charge_update::ChargeUpdate::rejection(msg) {
                Some(message) => rejected(r, message),
                None => {
                    &&& r matches Ok(request)
                    &&& request.is_for(msg.form_submission, "ChargeUpdate"@, "ChargeUpdate"@)
                    &&& request.form matches proto::form_submission::Form::ChargeUpdate(form)
                    &&& form.is_accepted(msg)
                },
            },
    {
        let mut msg = msg;
        let form_submission = msg.form_submission.take();
        let form = proto::charge_update::ChargeUpdate::try_from(msg)?;
        Ok(
            FormRequest {
                form_submission,
                submission_class: "ChargeUpdate".to_owned(),
                form_type: "ChargeUpdate".to_owned(),
                form: proto::form_submission::Form::ChargeUpdate(form),
                documents: Vec::new(),
            },
        )
    }
}

} // verus!
