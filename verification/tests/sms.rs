use sns_sms::Credential;
use sns_sms::Error;
use sns_sms::MaxPrice;
use sns_sms::MessageAttribute;
use sns_sms::PublishRequest;
use sns_sms::SMS;
use sns_sms::SmsType;
use sns_sms::get_aws_region;
use sns_sms::verify_credentials;

fn dummy(value: &str) -> Option<String> {
    Some(value.to_string())
}

fn attr_of<'a>(request: &'a PublishRequest, name: &str) -> Option<&'a MessageAttribute> {
    request.attributes.iter().find(|a| a.name == name)
}

#[test]
fn it_works() {
    assert_eq!(2 + 2, 4);
}

#[test]
fn sms_type_values() {
    assert_eq!(SmsType::Promotional.value(), "Promotional");
    assert_eq!(SmsType::Transactional.value(), "Transactional");
}

#[test]
fn default_configuration() {
    let sms = SMS::default();
    assert_eq!(sms.sms_type, SmsType::Transactional);
    assert_eq!(sms.sender_id, "");
    assert_eq!(sms.max_price, MaxPrice { hundredths: 1 });
}

#[test]
fn max_price_rendering() {
    assert_eq!(MaxPrice { hundredths: 1 }.render(), "0.01");
    assert_eq!(MaxPrice { hundredths: 50 }.render(), "0.5");
    assert_eq!(MaxPrice { hundredths: 0 }.render(), "0");
    assert_eq!(MaxPrice { hundredths: 100 }.render(), "1");
    assert_eq!(MaxPrice { hundredths: 275 }.render(), "2.75");
    assert_eq!(MaxPrice { hundredths: 300 }.render(), "3");
    assert_eq!(MaxPrice { hundredths: 1234 }.render(), "12.34");
    assert_eq!(MaxPrice { hundredths: 107 }.render(), "1.07");
}

#[test]
fn credential_tiebreak_table() {
    assert_eq!(verify_credentials(&dummy("ak"), &dummy("sk")), Ok(()));
    assert_eq!(
        verify_credentials(&dummy("ak"), &None),
        Err(Error::MissingCredential(Credential::AwsSecretAccessKey))
    );
    assert_eq!(
        verify_credentials(&None, &dummy("sk")),
        Err(Error::MissingCredential(Credential::AwsAccessKeyId))
    );
    assert_eq!(
        verify_credentials(&None, &None),
        Err(Error::MissingCredential(Credential::All))
    );
}

#[test]
fn region_checked_separately() {
    assert_eq!(get_aws_region(dummy("us-east-1")), Ok("us-east-1".to_string()));
    assert_eq!(
        get_aws_region(None),
        Err(Error::MissingCredential(Credential::AwsRegion))
    );

    // Both keys present, region absent: the region error is reported.
    let sms = SMS::default();
    let r = sms.prepare("hi".to_string(), "15551234567".to_string(), &dummy("ak"), &dummy("sk"), None);
    assert_eq!(r, Err(Error::MissingCredential(Credential::AwsRegion)));

    // A missing key wins over the missing region.
    let r = sms.prepare("hi".to_string(), "15551234567".to_string(), &dummy("ak"), &None, None);
    assert_eq!(r, Err(Error::MissingCredential(Credential::AwsSecretAccessKey)));
}

#[test]
fn no_environment_fails_with_all() {
    let sms = SMS::default();
    let r = sms.prepare("hello".to_string(), "15551234567".to_string(), &None, &None, None);
    assert_eq!(r, Err(Error::MissingCredential(Credential::All)));
}

#[test]
fn default_send_scenario() {
    let sms = SMS::default();
    let r = sms
        .prepare(
            "hello".to_string(),
            "15551234567".to_string(),
            &dummy("ak"),
            &dummy("sk"),
            dummy("us-east-1"),
        )
        .unwrap();
    let (request, region) = r;
    assert_eq!(region, "us-east-1");
    assert_eq!(request.message, "hello");
    assert_eq!(request.phone_number, "15551234567");
    assert_eq!(request.attributes.len(), 2);
    assert!(attr_of(&request, "AWS.SNS.SMS.SenderID").is_none());
    let price = attr_of(&request, "AWS.SNS.SMS.MaxPrice").unwrap();
    assert_eq!(price.value, "0.01");
    assert_eq!(price.data_type, "String");
    let class = attr_of(&request, "AWS.SNS.SMS.SMSType").unwrap();
    assert_eq!(class.value, "Transactional");
    assert_eq!(class.data_type, "String");
}

#[test]
fn explicit_sender_id_scenario() {
    let sms = SMS {
        sms_type: SmsType::Promotional,
        sender_id: "MYBRAND".to_string(),
        max_price: MaxPrice { hundredths: 1 },
    };
    let request = sms.build_request("hello".to_string(), "15551234567".to_string());
    assert_eq!(request.attributes.len(), 3);
    let sender = attr_of(&request, "AWS.SNS.SMS.SenderID").unwrap();
    assert_eq!(sender.value, "MYBRAND");
    assert_eq!(sender.data_type, "String");
    assert!(attr_of(&request, "AWS.SNS.SMS.MaxPrice").is_some());
    let class = attr_of(&request, "AWS.SNS.SMS.SMSType").unwrap();
    assert_eq!(class.value, "Promotional");
}

#[test]
fn empty_sender_id_omits_attribute() {
    let with_empty = SMS {
        sms_type: SmsType::Promotional,
        sender_id: String::new(),
        max_price: MaxPrice { hundredths: 42 },
    };
    let request = with_empty.build_request("m".to_string(), "n".to_string());
    assert!(attr_of(&request, "AWS.SNS.SMS.SenderID").is_none());
    assert_eq!(request.attributes.len(), 2);
}

#[test]
fn identical_inputs_build_identical_requests() {
    let sms = SMS {
        sms_type: SmsType::Transactional,
        sender_id: "MYBRAND".to_string(),
        max_price: MaxPrice { hundredths: 35 },
    };
    let first = sms.build_request("hello".to_string(), "15551234567".to_string());
    let second = sms.build_request("hello".to_string(), "15551234567".to_string());
    assert_eq!(first, second);

    let third = sms
        .prepare(
            "hello".to_string(),
            "15551234567".to_string(),
            &dummy("ak"),
            &dummy("sk"),
            dummy("eu-west-2"),
        )
        .unwrap();
    let fourth = sms
        .prepare(
            "hello".to_string(),
            "15551234567".to_string(),
            &dummy("ak"),
            &dummy("sk"),
            dummy("eu-west-2"),
        )
        .unwrap();
    assert_eq!(third, fourth);
}

#[test]
fn error_messages_name_the_missing_value() {
    assert_eq!(
        Error::MissingCredential(Credential::AwsRegion).message(),
        "AWS_REGION env var is required."
    );
    assert_eq!(
        Error::MissingCredential(Credential::AwsAccessKeyId).message(),
        "AWS_ACCESS_KEY_ID env var is required."
    );
    assert_eq!(
        Error::MissingCredential(Credential::AwsSecretAccessKey).message(),
        "AWS_SECRET_ACCESS_KEY env var is required."
    );
    assert_eq!(
        Error::MissingCredential(Credential::All).message(),
        "AWS_SECRET_ACCESS_KEY, AWS_REGION, AWS_ACCESS_KEY_ID env var is required."
    );
}
