//! A small client library for sending SMS messages through a cloud
//! notification service's publish API.
//!
//! The library owns the local half of a `send` call: it checks that the
//! required credential values are present, renders the delivery-configuration
//! attributes (sender identifier, maximum price, delivery class), and builds
//! the publish request. The network half — constructing the SDK client and
//! performing the publish RPC — belongs to the surrounding application.

use vstd::prelude::*;

mod credentials;
mod price;
mod request;

pub use credentials::Credential;
pub use credentials::Error;
pub use credentials::get_aws_region;
pub use credentials::verify_credentials;
pub use price::MaxPrice;
pub use price::spec_digits;
pub use price::spec_price_string;
pub use request::MessageAttribute;
pub use request::PublishRequest;
pub use request::attr_pairs;
pub use request::attr_value;
pub use request::has_attr;

verus! {

/// How the carrier should treat a message.
#[derive(Clone, Copy, Debug, PartialEq, Eq, Structural)]
pub enum SmsType {
    /// Non-critical messages, such as marketing messages; delivery is
    /// optimized for the lowest cost.
    Promotional,
    /// Critical messages that support customer transactions, such as
    /// one-time passcodes; delivery is optimized for reliability.
    Transactional,
}

impl SmsType {
    /// The wire string that names this delivery class.
    pub open spec fn spec_value(&self) -> Seq<char> {
        match *self {
            SmsType::Promotional => "Promotional"@,
            SmsType::Transactional => "Transactional"@,
        }
    }

    /// Render the delivery class as the attribute string the service expects.
    pub fn value(&self) -> (r: String)
        ensures
            r@ == self.spec_value(),
    {
        match self {
            SmsType::Promotional => String::from_str("Promotional"),
            SmsType::Transactional => String::from_str("Transactional"),
        }
    }
}

/// The configuration of an SMS client: delivery class, sender identifier,
/// and spending ceiling. A value is immutable per send and may be reused
/// across calls; each call performs its own credential check and request
/// build, so no state persists between calls.
#[derive(Debug)]
pub struct SMS {
    pub sms_type: SmsType,
    pub sender_id: String,
    pub max_price: MaxPrice,
}

impl Default for SMS {
    /// The default configuration: transactional delivery, no sender
    /// identifier, a ceiling of one hundredth of the currency unit.
    fn default() -> (r: Self)
        ensures
            r.sms_type == SmsType::Transactional,
            r.sender_id@ == Seq::<char>::empty(),
            r.max_price.hundredths == 1,
    {
        SMS { sms_type: SmsType::Transactional, sender_id: String::new(), max_price: MaxPrice { hundredths: 1 } }
    }
}

impl SMS {
    /// The attribute pairs a send with this configuration puts on the wire:
    /// the sender identifier only when one is configured, then the spending
    /// ceiling and the delivery class, always.
    pub open spec fn spec_attr_pairs(&self) -> Seq<(Seq<char>, Seq<char>)> {
        let fixed = seq![
            ("AWS.SNS.SMS.MaxPrice"@, self.max_price.spec_string()),
            ("AWS.SNS.SMS.SMSType"@, self.sms_type.spec_value()),
        ];
        if self.sender_id@.len() == 0 {
            fixed
        } else {
            seq![("AWS.SNS.SMS.SenderID"@, self.sender_id@)] + fixed
        }
    }

    /// Build the publish request for `message` and `phone_number` under this
    /// configuration. The attribute mapping is a pure function of the
    /// configuration, every attribute value is string-typed, and the message
    /// and number pass through unchanged.
    pub fn build_request(&self, message: String, phone_number: String) -> (r: PublishRequest)
        ensures
            r.message@ == message@,
            r.phone_number@ == phone_number@,
            attr_pairs(r.attributes@) == self.spec_attr_pairs(),
            forall|i: int|
                0 <= i < r.attributes@.len() ==> (#[trigger] r.attributes@[i]).data_type@
                    == "String"@,
    {
        let mut attrs: Vec<MessageAttribute> = Vec::new();

        if !self.sender_id.as_str().is_empty() {
            attrs.push(
                MessageAttribute {
                    name: String::from_str("AWS.SNS.SMS.SenderID"),
                    data_type: String::from_str("String"),
                    value: self.sender_id.clone(),
                },
            );
        }

        attrs.push(
            MessageAttribute {
                name: String::from_str("AWS.SNS.SMS.MaxPrice"),
                data_type: String::from_str("String"),
                value: self.max_price.render(),
            },
        );

        attrs.push(
            MessageAttribute {
                name: String::from_str("AWS.SNS.SMS.SMSType"),
                data_type: String::from_str("String"),
                value: self.sms_type.value(),
            },
        );

        proof {
            assert(attr_pairs(attrs@) =~= self.spec_attr_pairs());
        }
        PublishRequest { message, phone_number, attributes: attrs }
    }

    /// The local half of a send: check the credential values, build the
    /// request, and resolve the region name. The key check comes first, so
    /// a missing key is reported even when the region is also missing; the
    /// region is checked on its own afterwards. On success the request and
    /// the region name are handed back for the surrounding application to
    /// publish with.
    pub fn prepare(
        &self,
        message: String,
        phone_number: String,
        access_key: &Option<String>,
        secret_key: &Option<String>,
        region: Option<String>,
    ) -> (r: Result<(PublishRequest, String), Error>)
        ensures
            access_key is Some && secret_key is None ==> r == Err::<(PublishRequest, String), Error>(
                Error::MissingCredential(Credential::AwsSecretAccessKey),
            ),
            access_key is None && secret_key is Some ==> r == Err::<(PublishRequest, String), Error>(
                Error::MissingCredential(Credential::AwsAccessKeyId),
            ),
            access_key is None && secret_key is None ==> r == Err::<(PublishRequest, String), Error>(
                Error::MissingCredential(Credential::All),
            ),
            access_key is Some && secret_key is Some && region is None ==> r == Err::<
                (PublishRequest, String),
                Error,
            >(Error::MissingCredential(Credential::AwsRegion)),
            access_key is Some && secret_key is Some && region is Some ==> r is Ok && {
                let (req, region_name) = r->Ok_0;
                &&& req.message@ == message@
                &&& req.phone_number@ == phone_number@
                &&& attr_pairs(req.attributes@) == self.spec_attr_pairs()
                &&& forall|i: int|
                    0 <= i < req.attributes@.len() ==> (#[trigger] req.attributes@[i]).data_type@
                        == "String"@
                &&& region_name@ == region->Some_0@
            },
    {
        match verify_credentials(access_key, secret_key) {
            Ok(()) => {},
            Err(e) => {
                return Err(e);
            },
        }

        let request = self.build_request(message, phone_number);

        match get_aws_region(region) {
            Ok(region_name) => Ok((request, region_name)),
            Err(e) => Err(e),
        }
    }
}

/// The three attribute names are pairwise distinct.
proof fn lemma_attr_names_distinct()
    ensures
        "AWS.SNS.SMS.SenderID"@ != "AWS.SNS.SMS.MaxPrice"@,
        "AWS.SNS.SMS.SenderID"@ != "AWS.SNS.SMS.SMSType"@,
        "AWS.SNS.SMS.MaxPrice"@ != "AWS.SNS.SMS.SMSType"@,
{
    reveal_strlit("AWS.SNS.SMS.SenderID");
    reveal_strlit("AWS.SNS.SMS.MaxPrice");
    reveal_strlit("AWS.SNS.SMS.SMSType");
    assert("AWS.SNS.SMS.SenderID"@.len() == 20);
    assert("AWS.SNS.SMS.MaxPrice"@.len() == 20);
    assert("AWS.SNS.SMS.SMSType"@.len() == 19);
    assert("AWS.SNS.SMS.SenderID"@[12] == 'S');
    assert("AWS.SNS.SMS.MaxPrice"@[12] == 'M');
}

/// The sender identifier appears in the outgoing mapping exactly when one is
/// configured, and then carries exactly the configured value.
pub proof fn lemma_sender_id_attribute(s: SMS)
    ensures
        s.sender_id@.len() == 0 ==> !has_attr(s.spec_attr_pairs(), "AWS.SNS.SMS.SenderID"@),
        s.sender_id@.len() > 0 ==> attr_value(s.spec_attr_pairs(), "AWS.SNS.SMS.SenderID"@)
            == Some(s.sender_id@),
{
    lemma_attr_names_distinct();
    let name = "AWS.SNS.SMS.SenderID"@;
    let pairs = s.spec_attr_pairs();
    if s.sender_id@.len() == 0 {
        let rest = pairs.drop_first();
        let rest2 = rest.drop_first();
        assert(pairs[0].0 == "AWS.SNS.SMS.MaxPrice"@);
        assert(rest[0].0 == "AWS.SNS.SMS.SMSType"@);
        assert(rest2.len() == 0);
        assert(attr_value(rest2, name) is None);
        assert(attr_value(rest, name) is None);
        assert(attr_value(pairs, name) is None);
    } else {
        assert(pairs[0].0 == name);
        assert(attr_value(pairs, name) == Some(s.sender_id@));
    }
}

/// The spending-ceiling attribute is always present, and its value is the
/// decimal rendering of the configured ceiling, whatever the delivery class
/// and sender identifier.
pub proof fn lemma_max_price_attribute(s: SMS)
    ensures
        attr_value(s.spec_attr_pairs(), "AWS.SNS.SMS.MaxPrice"@) == Some(
            s.max_price.spec_string(),
        ),
{
    lemma_attr_names_distinct();
    let name = "AWS.SNS.SMS.MaxPrice"@;
    let pairs = s.spec_attr_pairs();
    if s.sender_id@.len() == 0 {
        assert(pairs[0].0 == name);
        assert(attr_value(pairs, name) == Some(s.max_price.spec_string()));
    } else {
        let rest = pairs.drop_first();
        assert(pairs[0].0 == "AWS.SNS.SMS.SenderID"@);
        assert(rest[0].0 == name);
        assert(attr_value(rest, name) == Some(s.max_price.spec_string()));
        assert(attr_value(pairs, name) == Some(s.max_price.spec_string()));
    }
}

/// The delivery-class attribute is always present, and its value is exactly
/// the wire string of the configured class.
pub proof fn lemma_sms_type_attribute(s: SMS)
    ensures
        attr_value(s.spec_attr_pairs(), "AWS.SNS.SMS.SMSType"@) == Some(s.sms_type.spec_value()),
{
    lemma_attr_names_distinct();
    let name = "AWS.SNS.SMS.SMSType"@;
    let pairs = s.spec_attr_pairs();
    if s.sender_id@.len() == 0 {
        let rest = pairs.drop_first();
        assert(pairs[0].0 == "AWS.SNS.SMS.MaxPrice"@);
        assert(rest[0].0 == name);
        assert(attr_value(rest, name) == Some(s.sms_type.spec_value()));
        assert(attr_value(pairs, name) == Some(s.sms_type.spec_value()));
    } else {
        let rest = pairs.drop_first();
        let rest2 = rest.drop_first();
        assert(pairs[0].0 == "AWS.SNS.SMS.SenderID"@);
        assert(rest[0].0 == "AWS.SNS.SMS.MaxPrice"@);
        assert(rest2[0].0 == name);
        assert(attr_value(rest2, name) == Some(s.sms_type.spec_value()));
        assert(attr_value(rest, name) == Some(s.sms_type.spec_value()));
        assert(attr_value(pairs, name) == Some(s.sms_type.spec_value()));
    }
}

/// Request construction is deterministic: two configurations that agree on
/// delivery class, sender identifier, and spending ceiling put the same
/// attribute pairs on the wire, so two sends with identical inputs build
/// structurally identical requests.
pub proof fn lemma_attr_pairs_deterministic(a: SMS, b: SMS)
    requires
        a.sms_type == b.sms_type,
        a.sender_id@ == b.sender_id@,
        a.max_price == b.max_price,
    ensures
        a.spec_attr_pairs() == b.spec_attr_pairs(),
{
    assert(a.spec_attr_pairs() =~= b.spec_attr_pairs());
}

} // verus!
