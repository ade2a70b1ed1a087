//! What a command asks permission for, as a route that roles are matched
//! against.

use crate::error::SimpleError;
use crate::text::str_eq;
use serenity::framework::standard::Args;
use serenity::framework::standard::Delimiter;
use vstd::prelude::*;
use vstd::string::*;
use vstd::utf8::*;

pub mod rbac;

verus! {

/// What every command starts with.
pub const CMD_PREFIX: &'static str = "~";

/// A permission, by the route that stands for it.
pub trait RbacPermission {
    /// The route of the permission.
    spec fn spec_rbac(&self) -> Seq<char>;

    /// The route of the permission.
    fn rbac(&self) -> (route: String)
        ensures
            route@ == self.spec_rbac(),
    ;
}

/// The text that tells the user how the command `command` is written.
pub open spec fn spec_usage(command: Seq<char>) -> Seq<char> {
    "Syntax: ~"@ + command + " <instance>."@
}

/// The number of bytes before the name of the server in a message that
/// calls `command`: the prefix, the command and one separator.
pub open spec fn spec_name_offset(command: Seq<char>) -> int {
    (encode_utf8(command).len() + 2) as int
}

/// The name of the server in the message `content` that calls `command`:
/// what follows the prefix, the command and one more byte, where anything
/// follows them.
pub open spec fn spec_server_name(content: Seq<char>, command: Seq<char>) -> Option<Seq<char>> {
    let bytes = encode_utf8(content);
    let offset = spec_name_offset(command);
    if offset < bytes.len() && is_char_boundary(bytes, offset) {
        Some(decode_utf8(bytes.subrange(offset, bytes.len() as int)))
    } else {
        None
    }
}

/// Reads the name of the server from the message `content` that calls
/// `command`. Where no name follows the command, the error tells the user
/// how the command is written.
pub fn server_name<'a>(content: &'a str, command: &str) -> (r: Result<&'a str, SimpleError>)
    ensures
        match spec_server_name(content@, command@) {
            Some(name) => r matches Ok(found) && found@ == name,
            None => r matches Err(SimpleError::UsageError(text)) && text@ == spec_usage(command@),
        },
{
    let command_len = command.as_bytes().len();
    let content_len = content.as_bytes().len();
    let offset = match command_len.checked_add(2) {
        Some(offset) => offset,
        None => content_len,
    };
    if offset < content_len && content.is_char_boundary(offset) {
        let (_, name) = content.split_at(offset);
        proof {
            encode_utf8_decode_utf8(name@);
        }
        Ok(name)
    } else {
        let mut text = String::from_str("Syntax: ~");
        text.append(command);
        text.append(" <instance>.");
        Err(SimpleError::UsageError(text))
    }
}

/// The permission to ask whether the bot is there.
#[derive(Debug)]
pub struct PingPermission;

/// The permission to start the server that is named.
#[derive(Debug)]
pub struct StartPermission(pub String);

/// The permission to stop the server that is named.
#[derive(Debug)]
pub struct StopPermission(pub String);

/// The permission to tie a voice client to one's account.
#[derive(Debug)]
pub struct ConnectPermission;

/// The permission to untie it.
#[derive(Debug)]
pub struct DisconnectPermission;

impl RbacPermission for PingPermission {
    open spec fn spec_rbac(&self) -> Seq<char> {
        "/ping"@
    }

    fn rbac(&self) -> (route: String) {
        String::from_str("/ping")
    }
}

impl RbacPermission for ConnectPermission {
    open spec fn spec_rbac(&self) -> Seq<char> {
        "/ts/connect"@
    }

    fn rbac(&self) -> (route: String) {
        String::from_str("/ts/connect")
    }
}

impl RbacPermission for DisconnectPermission {
    open spec fn spec_rbac(&self) -> Seq<char> {
        "/ts/disconnect"@
    }

    fn rbac(&self) -> (route: String) {
        String::from_str("/ts/disconnect")
    }
}

impl StartPermission {
    /// The permission that the message `content` asks for, a call of
    /// `start`.
    pub fn from_message(content: &str) -> (r: Result<StartPermission, SimpleError>)
        ensures
            match spec_server_name(content@, "start"@) {
                Some(name) => r matches Ok(p) && p.0@ == name,
                None => r matches Err(SimpleError::UsageError(text)) && text@ == spec_usage(
                    "start"@,
                ),
            },
    {
        match server_name(content, "start") {
            Ok(name) => Ok(StartPermission(String::from_str(name))),
            Err(e) => Err(e),
        }
    }
}

impl StopPermission {
    /// The permission that the message `content` asks for, a call of
    /// `stop`.
    pub fn from_message(content: &str) -> (r: Result<StopPermission, SimpleError>)
        ensures
            match spec_server_name(content@, "stop"@) {
                Some(name) => r matches Ok(p) && p.0@ == name,
                None => r matches Err(SimpleError::UsageError(text)) && text@ == spec_usage(
                    "stop"@,
                ),
            },
    {
        match server_name(content, "stop") {
            Ok(name) => Ok(StopPermission(String::from_str(name))),
            Err(e) => Err(e),
        }
    }
}

impl RbacPermission for StartPermission {
    open spec fn spec_rbac(&self) -> Seq<char> {
        "/"@ + self.0@ + "/start"@
    }

    fn rbac(&self) -> (route: String) {
        let mut route = String::from_str("/");
        route.append(self.0.as_str());
        route.append("/start");
        route
    }
}

impl RbacPermission for StopPermission {
    open spec fn spec_rbac(&self) -> Seq<char> {
        "/"@ + self.0@ + "/stop"@
    }

    fn rbac(&self) -> (route: String) {
        let mut route = String::from_str("/");
        route.append(self.0.as_str());
        route.append("/stop");
        route
    }
}

/// The second of the words of `content` that blanks part, as the chat
/// framework tells the arguments of a message apart; nothing where there is
/// none.
pub uninterp spec fn second_argument(content: Seq<char>) -> Option<Seq<char>>;

/// `serenity::framework::standard::Args::new` with a single blank as
/// delimiter, then `Args::advance` and `Args::single`: the argument after
/// the first, which depends on the message alone.
#[verifier::external_body]
fn second_word(content: &str) -> (word: Option<String>)
    ensures
        word matches Some(w) ==> second_argument(content@) == Some(w@),
        word is None ==> second_argument(content@) is None,
{
    Args::new(content, &[Delimiter::Single(' ')]).advance().single::<String>().ok()
}

/// The route of the permission that the command `cmd_name` asks for in the
/// message `content`, once the second word of the message is known to be
/// `second`: nothing for a command that nobody may run; an error where the
/// message lacks what the command needs.
pub open spec fn spec_command_route(
    cmd_name: Seq<char>,
    content: Seq<char>,
    second: Option<Seq<char>>,
) -> Result<Option<Seq<char>>, Seq<char>> {
    if cmd_name == "ping"@ {
        Ok(Some("/ping"@))
    } else if cmd_name == "start"@ {
        match spec_server_name(content, "start"@) {
            Some(name) => Ok(Some("/"@ + name + "/start"@)),
            None => Err(spec_usage("start"@)),
        }
    } else if cmd_name == "stop"@ {
        match spec_server_name(content, "stop"@) {
            Some(name) => Ok(Some("/"@ + name + "/stop"@)),
            None => Err(spec_usage("stop"@)),
        }
    } else if cmd_name == "ts"@ {
        if second == Some("connect"@) {
            Ok(Some("/ts/connect"@))
        } else if second == Some("disconnect"@) {
            Ok(Some("/ts/disconnect"@))
        } else {
            Ok(None)
        }
    } else {
        Ok(None)
    }
}

/// Whether `r` is the route, or the error, that `expected` describes.
pub open spec fn is_route(
    r: Result<Option<String>, SimpleError>,
    expected: Result<Option<Seq<char>>, Seq<char>>,
) -> bool {
    match expected {
        Ok(Some(route)) => r matches Ok(Some(found)) && found@ == route,
        Ok(None) => r matches Ok(None),
        Err(text) => r matches Err(SimpleError::UsageError(found)) && found@ == text,
    }
}

/// Decides which route the sub-command `second` of `ts` asks permission for.
pub fn ts_route(second: Option<String>) -> (r: Option<String>)
    ensures
        match second {
            Some(word) => if word@ == "connect"@ {
                r matches Some(route) && route@ == "/ts/connect"@
            } else if word@ == "disconnect"@ {
                r matches Some(route) && route@ == "/ts/disconnect"@
            } else {
                r is None
            },
            None => r is None,
        },
{
    match second {
        Some(word) => {
            if str_eq(word.as_str(), "connect") {
                Some(ConnectPermission.rbac())
            } else if str_eq(word.as_str(), "disconnect") {
                Some(DisconnectPermission.rbac())
            } else {
                None
            }
        },
        None => None,
    }
}

/// Decides which route the command `cmd_name` asks permission for in the
/// message `content`. A command that is not known, and a `ts` without a
/// known sub-command, has no route: nobody may run it. A `start` or `stop`
/// without the name of a server is a mistake of the user.
pub fn command_route(cmd_name: &str, content: &str) -> (r: Result<Option<String>, SimpleError>)
    ensures
        is_route(r, spec_command_route(cmd_name@, content@, second_argument(content@))),
{
    if str_eq(cmd_name, "ping") {
        Ok(Some(PingPermission.rbac()))
    } else if str_eq(cmd_name, "start") {
        match StartPermission::from_message(content) {
            Ok(permission) => Ok(Some(permission.rbac())),
            Err(e) => Err(e),
        }
    } else if str_eq(cmd_name, "stop") {
        match StopPermission::from_message(content) {
            Ok(permission) => Ok(Some(permission.rbac())),
            Err(e) => Err(e),
        }
    } else if str_eq(cmd_name, "ts") {
        Ok(ts_route(second_word(content)))
    } else {
        Ok(None)
    }
}

} // verus!
