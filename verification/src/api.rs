use vstd::prelude::*;

use crate::client::Client;
use crate::decimal::spec_decimal;
use crate::decimal::u32_to_decimal;
use crate::error::{Error, ErrorKind};
use crate::types::spec_country_prefix;
use crate::types::MobileNumber;

verus! {

/// The caller's request: a validated mobile number and the OTP to send.
#[derive(Debug)]
pub struct SmsInput {
    pub mobile: MobileNumber,
    pub otp: u32,
}

/// The provider-specific payload, sent as the query parameters of the GET
/// request.
#[derive(Debug, Clone)]
pub struct SmsData {
    pub sender: String,
    pub template_id: String,
    pub mobile: String,
    pub authkey: String,
    pub extra_param: String,
}

/// The JSON-encoded template parameter carrying the OTP.
pub open spec fn spec_extra_param(otp: u32) -> Seq<char> {
    "{\"OTP\": \""@ + spec_decimal(otp as nat) + "\"}"@
}

/// Sends OTP messages through a `Client`'s configuration.
pub struct Handler<'client> {
    client: &'client Client,
}

impl<'client> Handler<'client> {
    /// The configuration this handler sends through.
    pub closed spec fn spec_client(&self) -> Client {
        *self.client
    }

    pub fn new(client: &'client Client) -> (r: Self)
        ensures
            r.spec_client() == *client,
    {
        Self { client }
    }

    /// Validate the OTP and assemble the provider payload. Succeeds exactly
    /// when the OTP's decimal form has six digits; the payload then carries
    /// the configured sender, template id and auth key, the mobile number
    /// with the country prefix put in front of its stored form once more,
    /// and the OTP as a JSON parameter string.
    pub fn build_otp_request(&self, data: &SmsInput) -> (r: Result<SmsData, Error>)
        ensures
            spec_decimal(data.otp as nat).len() == 6 <==> r is Ok,
            r matches Ok(p) ==> {
                &&& p.sender == self.spec_client().sender
                &&& p.template_id == self.spec_client().template_id
                &&& p.authkey == self.spec_client().auth_key
                &&& p.mobile@ == spec_country_prefix() + data.mobile@
                &&& p.extra_param@ == spec_extra_param(data.otp)
            },
            r matches Err(e) ==> e.kind == ErrorKind::InvalidData && e.message@
                == "OTP must be 6 digits"@,
    {
        let otp = u32_to_decimal(data.otp);
        if otp.as_str().unicode_len() != 6 {
            return Err(Error::new("OTP must be 6 digits", ErrorKind::InvalidData));
        }
        let mut mobile = String::from_str("+91");
        let stored = data.mobile.to_string();
        mobile.append(stored.as_str());
        let mut extra_param = String::from_str("{\"OTP\": \"");
        extra_param.append(otp.as_str());
        extra_param.append("\"}");
        Ok(
            SmsData {
                sender: self.client.sender.clone(),
                template_id: self.client.template_id.clone(),
                mobile,
                authkey: self.client.auth_key.clone(),
                extra_param,
            },
        )
    }
}

} // verus!
