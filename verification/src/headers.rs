//! Device descriptions drawn from the user agent of a request.

use std::borrow::Cow;
use std::sync::Arc;
use uaparser::{Parser, UserAgentParser};
use vstd::prelude::*;
use vstd::string::StringExecFns;

verus! {

/// `uaparser::UserAgentParser`, the compiled rules that user agents are
/// matched against. Carried as an opaque value.
#[verifier::external_type_specification]
#[verifier::external_body]
pub struct ExUserAgentParser(uaparser::UserAgentParser);

/// What a parser reads out of a user agent: the device, the operating
/// system with its version, and the family of the browser.
#[derive(Debug, PartialEq, Eq)]
pub struct ClientInfo {
    pub device_family: String,
    pub device_brand: Option<String>,
    pub device_model: Option<String>,
    pub os_family: String,
    pub os_major: Option<String>,
    pub os_minor: Option<String>,
    pub os_patch: Option<String>,
    pub user_agent_family: String,
}

/// The text of a `ClientInfo`.
pub struct ClientInfoView {
    pub device_family: Seq<char>,
    pub device_brand: Option<Seq<char>>,
    pub device_model: Option<Seq<char>>,
    pub os_family: Seq<char>,
    pub os_major: Option<Seq<char>>,
    pub os_minor: Option<Seq<char>>,
    pub os_patch: Option<Seq<char>>,
    pub user_agent_family: Seq<char>,
}

/// The text of an optional string.
pub open spec fn text_of(field: Option<String>) -> Option<Seq<char>> {
    match field {
        Some(text) => Some(text@),
        None => None,
    }
}

impl View for ClientInfo {
    type V = ClientInfoView;

    open spec fn view(&self) -> ClientInfoView {
        ClientInfoView {
            device_family: self.device_family@,
            device_brand: text_of(self.device_brand),
            device_model: text_of(self.device_model),
            os_family: self.os_family@,
            os_major: text_of(self.os_major),
            os_minor: text_of(self.os_minor),
            os_patch: text_of(self.os_patch),
            user_agent_family: self.user_agent_family@,
        }
    }
}

/// A login from a device, as it is recorded for a user.
#[derive(Debug, PartialEq, Eq)]
pub struct DeviceLoginEvent {
    pub user_id: i64,
    pub ip_address: String,
    pub model: Option<String>,
    pub family: String,
    pub brand: Option<String>,
    pub os_family: String,
    pub browser: String,
    pub event_type: String,
}

/// `uaparser::Error`, which tells why a set of rules could not be turned
/// into a parser. Carried as an opaque value.
#[verifier::external_type_specification]
#[verifier::external_body]
pub struct ExParserError(uaparser::Error);

/// Why no description of a device could be had.
#[derive(Clone, Copy, Debug, PartialEq, Eq, Structural)]
pub enum HeadersError {
    /// The rules could not be read or compiled.
    ParserCreationFailed,
}

/// The parser that `UserAgentParserBuilder::build_from_bytes` makes of the
/// rules in `rules`, with every part of the parser switched on; `None` where
/// it refuses them.
pub uninterp spec fn built_parser(rules: Seq<u8>) -> Option<UserAgentParser>;

/// Calls `UserAgentParser::builder` and `build_from_bytes` on the result,
/// which reads `rules` as YAML and compiles the expressions in it. Whether
/// that succeeds, and with which parser, is a function of the bytes alone;
/// the contract gives it its name and claims nothing else of it.
#[verifier::external_body]
fn build_parser(rules: &[u8]) -> (built: Result<UserAgentParser, uaparser::Error>)
    ensures
        match built {
            Ok(parser) => built_parser(rules@) == Some(parser),
            Err(_) => built_parser(rules@).is_none(),
        },
{
    UserAgentParser::builder().build_from_bytes(rules)
}

/// What `UserAgentParser::parse` reads out of `user_agent` under the rules
/// of `parser`.
pub uninterp spec fn parsed_client(parser: UserAgentParser, user_agent: Seq<char>) -> ClientInfoView;

/// Calls `uaparser::Parser::parse` on `parser` and copies the fields of the
/// `Client` that it returns. The result is a function of the parser's rules
/// and of the text alone; the contract gives it its name and claims nothing
/// else of it.
#[verifier::external_body]
fn parse_client(parser: &UserAgentParser, user_agent: &str) -> (client: ClientInfo)
    ensures
        client@ == parsed_client(*parser, user_agent@),
{
    let client = parser.parse(user_agent);
    ClientInfo {
        device_family: client.device.family.into_owned(),
        device_brand: client.device.brand.map(Cow::into_owned),
        device_model: client.device.model.map(Cow::into_owned),
        os_family: client.os.family.into_owned(),
        os_major: client.os.major.map(Cow::into_owned),
        os_minor: client.os.minor.map(Cow::into_owned),
        os_patch: client.os.patch.map(Cow::into_owned),
        user_agent_family: client.user_agent.family.into_owned(),
    }
}

/// The version of the operating system as it is printed: the major number,
/// then the minor one behind a dot if both are known, then the patch level
/// behind another dot if all three are known. Empty without a major number.
pub open spec fn os_version(client: ClientInfoView) -> Seq<char> {
    match client.os_major {
        None => Seq::empty(),
        Some(major) => match client.os_minor {
            None => major,
            Some(minor) => match client.os_patch {
                None => major + "."@ + minor,
                Some(patch) => major + "."@ + minor + "."@ + patch,
            },
        },
    }
}

/// The model of the device as it is printed.
pub open spec fn device_model(client: ClientInfoView) -> Seq<char> {
    match client.device_model {
        Some(model) => model,
        None => "unknown model"@,
    }
}

/// The description of a device: its model, then the operating system with
/// its version, then the browser.
pub open spec fn device_description(client: ClientInfoView) -> Seq<char> {
    device_model(client) + ", OS: "@ + client.os_family + " "@ + os_version(client) + ", "@
        + client.user_agent_family
}

/// What `parse_user_agent` yields: nothing for an empty user agent, else
/// what the parser reads out of it.
pub open spec fn parsed_user_agent(parser: UserAgentParser, user_agent: Seq<char>) -> Option<
    ClientInfoView,
> {
    if user_agent.len() == 0 {
        None
    } else {
        Some(parsed_client(parser, user_agent))
    }
}

/// Whether `event` is the record of a login by `user_id` from `ip_address`
/// on the device that `client` describes.
pub open spec fn is_login_event_of(
    event: DeviceLoginEvent,
    user_id: i64,
    ip_address: String,
    event_type: String,
    client: ClientInfoView,
) -> bool {
    &&& event.user_id == user_id
    &&& event.ip_address == ip_address
    &&& event.event_type == event_type
    &&& text_of(event.model) == client.device_model
    &&& event.family@ == client.device_family
    &&& text_of(event.brand) == client.device_brand
    &&& event.os_family@ == client.os_family
    &&& event.browser@ == client.user_agent_family
}

fn clone_text(field: &Option<String>) -> (copy: Option<String>)
    ensures
        copy == *field,
{
    match field {
        Some(text) => Some(text.clone()),
        None => None,
    }
}

/// Makes a parser of the rules in `rules`, which hold the expressions for
/// devices, operating systems and browsers as YAML.
pub fn create_user_agent_parser(rules: &[u8]) -> (created: Result<
    Arc<UserAgentParser>,
    HeadersError,
>)
    ensures
        match created {
            Ok(parser) => built_parser(rules@) == Some(*parser),
            Err(error) => built_parser(rules@).is_none() && error
                == HeadersError::ParserCreationFailed,
        },
{
    match build_parser(rules) {
        Ok(parser) => Ok(Arc::new(parser)),
        Err(_) => Err(HeadersError::ParserCreationFailed),
    }
}

/// Parses `user_agent`, unless it is empty.
pub fn parse_user_agent(user_parser: &Arc<UserAgentParser>, user_agent: &str) -> (client: Option<
    ClientInfo,
>)
    ensures
        match client {
            Some(info) => parsed_user_agent(**user_parser, user_agent@) == Some(info@),
            None => parsed_user_agent(**user_parser, user_agent@).is_none(),
        },
{
    if user_agent.is_empty() {
        None
    } else {
        Some(parse_client(&**user_parser, user_agent))
    }
}

/// Describes the device that sent `user_agent`, unless the user agent is
/// empty.
pub fn get_device_info(user_agent_parser: &Arc<UserAgentParser>, user_agent: &str) -> (info:
    Option<String>)
    ensures
        match info {
            Some(text) => parsed_user_agent(**user_agent_parser, user_agent@).is_some()
                && text@ == device_description(
                parsed_user_agent(**user_agent_parser, user_agent@).unwrap(),
            ),
            None => parsed_user_agent(**user_agent_parser, user_agent@).is_none(),
        },
{
    match parse_user_agent(user_agent_parser, user_agent) {
        Some(client) => Some(get_user_agent_device(&client)),
        None => None,
    }
}

/// Describes the device of `user_agent_client`; the empty text stands for
/// no client.
pub fn get_device_type(user_agent_client: Option<ClientInfo>) -> (text: String)
    ensures
        text@ == match user_agent_client {
            Some(client) => device_description(client@),
            None => Seq::<char>::empty(),
        },
{
    match user_agent_client {
        Some(client) => get_user_agent_device(&client),
        None => String::new(),
    }
}

/// Describes the device of `user_agent_client` in one line.
pub fn get_user_agent_device(user_agent_client: &ClientInfo) -> (text: String)
    ensures
        text@ == device_description(user_agent_client@),
{
    let device_type: &str = match &user_agent_client.device_model {
        Some(model) => model.as_str(),
        None => "unknown model",
    };

    let mut device_version = String::new();
    if let Some(major) = &user_agent_client.os_major {
        device_version.append(major.as_str());

        if let Some(minor) = &user_agent_client.os_minor {
            device_version.append(".");
            device_version.append(minor.as_str());

            if let Some(patch) = &user_agent_client.os_patch {
                device_version.append(".");
                device_version.append(patch.as_str());
            }
        }
    }
    assert(device_version@ =~= os_version(user_agent_client@));

    let mut text = String::from_str(device_type);
    text.append(", OS: ");
    text.append(user_agent_client.os_family.as_str());
    text.append(" ");
    text.append(device_version.as_str());
    text.append(", ");
    text.append(user_agent_client.user_agent_family.as_str());
    assert(text@ =~= device_description(user_agent_client@));
    text
}

/// The record of a login by `user_id`, if the client is known.
pub fn get_device_login_event(
    user_id: i64,
    ip_address: String,
    event_type: String,
    user_agent_client: Option<ClientInfo>,
) -> (event: Option<DeviceLoginEvent>)
    ensures
        match user_agent_client {
            Some(client) => event.is_some() && is_login_event_of(
                event.unwrap(),
                user_id,
                ip_address,
                event_type,
                client@,
            ),
            None => event.is_none(),
        },
{
    match user_agent_client {
        Some(client) => Some(
            get_user_agent_device_login_data(user_id, ip_address, event_type, &client),
        ),
        None => None,
    }
}

/// The record of a login by `user_id` from `ip_address` on the device that
/// `user_agent_client` describes.
pub fn get_user_agent_device_login_data(
    user_id: i64,
    ip_address: String,
    event_type: String,
    user_agent_client: &ClientInfo,
) -> (event: DeviceLoginEvent)
    ensures
        is_login_event_of(event, user_id, ip_address, event_type, user_agent_client@),
{
    let model = clone_text(&user_agent_client.device_model);
    let brand = clone_text(&user_agent_client.device_brand);
    let family = user_agent_client.device_family.clone();
    let os_family = user_agent_client.os_family.clone();
    let browser = user_agent_client.user_agent_family.clone();

    DeviceLoginEvent { user_id, ip_address, model, family, brand, os_family, browser, event_type }
}

/// The login to check against the devices that a user has logged in from:
/// none for a user without an id or a client that is not known.
pub fn device_login_to_check(
    user_id: Option<i64>,
    ip_address: String,
    event_type: String,
    agent: Option<ClientInfo>,
) -> (event: Option<DeviceLoginEvent>)
    ensures
        match (user_id, agent) {
            (Some(id), Some(client)) => event.is_some() && is_login_event_of(
                event.unwrap(),
                id,
                ip_address,
                event_type,
                client@,
            ),
            _ => event.is_none(),
        },
{
    match user_id {
        Some(id) => get_device_login_event(id, ip_address, event_type, agent),
        None => None,
    }
}

} // verus!
