//! The fixed identification the transport attaches to every outbound
//! request: three headers and the base URL relative paths resolve against.

use vstd::prelude::*;

verus! {

/// The client's own name, as sent to the service.
pub fn client_name() -> (r: &'static str)
    ensures
        r@ == "clockodo-cli"@,
{
    "clockodo-cli"
}

/// The contact address sent along with the client's name.
pub fn client_email() -> (r: &'static str)
    ensures
        r@ == "clockodo-cli@zrtx.de"@,
{
    "clockodo-cli@zrtx.de"
}

/// The base URL every request path is resolved against.
pub fn api_url() -> (r: &'static str)
    ensures
        r@ == "https://my.clockodo.com"@,
{
    "https://my.clockodo.com"
}

/// The header naming the external application.
pub fn external_application_header() -> (r: &'static str)
    ensures
        r@ == "X-Clockodo-External-Application"@,
{
    "X-Clockodo-External-Application"
}

/// The header carrying the API user.
pub fn api_user_header() -> (r: &'static str)
    ensures
        r@ == "X-ClockodoApiUser"@,
{
    "X-ClockodoApiUser"
}

/// The header carrying the API key.
pub fn api_key_header() -> (r: &'static str)
    ensures
        r@ == "X-ClockodoApiKey"@,
{
    "X-ClockodoApiKey"
}

/// The external-application header's value: name and contact, separated
/// by a semicolon.
pub fn external_application_value() -> (r: String)
    ensures
        r@ == "clockodo-cli"@ + ";"@ + "clockodo-cli@zrtx.de"@,
{
    let mut s = String::from_str(client_name());
    s.append(";");
    s.append(client_email());
    s
}

/// The user-agent value: the name with the contact in parentheses.
pub fn user_agent_value() -> (r: String)
    ensures
        r@ == "clockodo-cli"@ + " ("@ + "clockodo-cli@zrtx.de"@ + ")"@,
{
    let mut s = String::from_str(client_name());
    s.append(" (");
    s.append(client_email());
    s.append(")");
    s
}

} // verus!
