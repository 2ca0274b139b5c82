//! Invocations of the external `safe` tool: the exact argument vectors for
//! each operation, and the interpretation of a finished command's exit status
//! and captured output. Spawning and output capture are the caller's outside
//! work; every decision about them is made here.

use vstd::prelude::*;
use vstd::utf8::{decode_utf8, valid_utf8};

use crate::networks::{parse_networks, sp_parse_networks, NetworkPrinter};
use crate::text::{contains_seq, str_contains, utf8_str};

verus! {

pub open spec fn networks_list_args_spec() -> Seq<Seq<char>> {
    seq!["networks"@, "--json"@]
}

pub open spec fn add_network_args_spec(name: Seq<char>, path: Seq<char>) -> Seq<Seq<char>> {
    seq!["networks"@, "add"@, name, path]
}

pub open spec fn switch_network_args_spec(name: Seq<char>) -> Seq<Seq<char>> {
    seq!["networks"@, "switch"@, name]
}

pub open spec fn remove_network_args_spec(name: Seq<char>) -> Seq<Seq<char>> {
    seq!["networks"@, "remove"@, name]
}

pub open spec fn put_files_args_spec(path: Seq<char>) -> Seq<Seq<char>> {
    seq!["networks"@, "files"@, "put"@, path]
}

pub open spec fn get_files_args_spec(url: Seq<char>, dst: Seq<char>) -> Seq<Seq<char>> {
    seq!["networks"@, "files"@, "get"@, url, dst]
}

/// Arguments that list the known networks as JSON.
pub fn networks_list_args() -> (v: Vec<String>)
    ensures
        v.deep_view() == networks_list_args_spec(),
{
    let mut v: Vec<String> = Vec::new();
    v.push("networks".to_owned());
    v.push("--json".to_owned());
    proof {
        assert(v.deep_view() =~= networks_list_args_spec());
    }
    v
}

/// Arguments that register a network under a name, from a network-map path.
pub fn add_network_args(name: &str, path: &str) -> (v: Vec<String>)
    ensures
        v.deep_view() == add_network_args_spec(name@, path@),
{
    let mut v: Vec<String> = Vec::new();
    v.push("networks".to_owned());
    v.push("add".to_owned());
    v.push(name.to_owned());
    v.push(path.to_owned());
    proof {
        assert(v.deep_view() =~= add_network_args_spec(name@, path@));
    }
    v
}

/// Arguments that make the named network the current one.
pub fn switch_network_args(name: &str) -> (v: Vec<String>)
    ensures
        v.deep_view() == switch_network_args_spec(name@),
{
    let mut v: Vec<String> = Vec::new();
    v.push("networks".to_owned());
    v.push("switch".to_owned());
    v.push(name.to_owned());
    proof {
        assert(v.deep_view() =~= switch_network_args_spec(name@));
    }
    v
}

/// Arguments that forget the named network.
pub fn remove_network_args(name: &str) -> (v: Vec<String>)
    ensures
        v.deep_view() == remove_network_args_spec(name@),
{
    let mut v: Vec<String> = Vec::new();
    v.push("networks".to_owned());
    v.push("remove".to_owned());
    v.push(name.to_owned());
    proof {
        assert(v.deep_view() =~= remove_network_args_spec(name@));
    }
    v
}

/// Arguments that upload the file at the given path.
pub fn put_files_args(path: &str) -> (v: Vec<String>)
    ensures
        v.deep_view() == put_files_args_spec(path@),
{
    let mut v: Vec<String> = Vec::new();
    v.push("networks".to_owned());
    v.push("files".to_owned());
    v.push("put".to_owned());
    v.push(path.to_owned());
    proof {
        assert(v.deep_view() =~= put_files_args_spec(path@));
    }
    v
}

/// Arguments that download the file behind a URL into a destination.
pub fn get_files_args(url: &str, dst: &str) -> (v: Vec<String>)
    ensures
        v.deep_view() == get_files_args_spec(url@, dst@),
{
    let mut v: Vec<String> = Vec::new();
    v.push("networks".to_owned());
    v.push("files".to_owned());
    v.push("get".to_owned());
    v.push(url.to_owned());
    v.push(dst.to_owned());
    proof {
        assert(v.deep_view() =~= get_files_args_spec(url@, dst@));
    }
    v
}

/// The marker the tool prints when it does not know a network of the
/// requested name.
pub open spec fn no_such_network_marker() -> Seq<char> {
    "with name"@
}

/// Every way a finished `safe` invocation is turned down.
#[derive(Debug)]
pub enum CmdError {
    /// Listing the networks exited non-zero.
    FetchFailed,
    /// Adding a network exited non-zero.
    AddFailed,
    /// Switching exited non-zero without naming a missing network.
    SwitchFailed,
    /// Switching failed because no network has this name.
    NoSuchNetworkSwitch { name: String },
    /// Removing exited non-zero without naming a missing network.
    RemoveFailed,
    /// Removing failed because no network has this name.
    NoSuchNetworkRemove { name: String },
    /// Uploading a file exited non-zero.
    PutFailed,
    /// Downloading a file exited non-zero.
    GetFailed,
    /// The captured output was not valid UTF-8.
    NotUtf8,
    /// The networks listing was not the expected JSON.
    ParseFailed,
}

impl CmdError {
    /// The display text of this error, as the footer shows it.
    pub fn message(&self) -> (m: String)
        ensures
            self is FetchFailed ==> m@ == "Error: failed to fetch networks"@,
            self is AddFailed ==> m@ == "Error: failed to add network"@,
            self is SwitchFailed ==> m@ == "Error: failed to switch network"@,
            self matches CmdError::NoSuchNetworkSwitch { name } ==> m@
                == "Error: failed to switch network. No network with name "@ + name@ + " found!"@,
            self is RemoveFailed ==> m@ == "Error: failed to remove network"@,
            self matches CmdError::NoSuchNetworkRemove { name } ==> m@
                == "Error: failed to remove network. No network with name "@ + name@ + " found!"@,
            self is PutFailed ==> m@ == "Error: failed to put file"@,
            self is GetFailed ==> m@ == "Error: failed to put file"@,
            self is NotUtf8 ==> m@ == "Error: output was not valid UTF-8"@,
            self is ParseFailed ==> m@ == "Error: failed to parse the networks listing"@,
    {
        match self {
            CmdError::FetchFailed => "Error: failed to fetch networks".to_owned(),
            CmdError::AddFailed => "Error: failed to add network".to_owned(),
            CmdError::SwitchFailed => "Error: failed to switch network".to_owned(),
            CmdError::NoSuchNetworkSwitch { name } => "Error: failed to switch network. No network with name ".to_owned().concat(name.as_str()).concat(" found!"),
            CmdError::RemoveFailed => "Error: failed to remove network".to_owned(),
            CmdError::NoSuchNetworkRemove { name } => "Error: failed to remove network. No network with name ".to_owned().concat(name.as_str()).concat(" found!"),
            CmdError::PutFailed => "Error: failed to put file".to_owned(),
            CmdError::GetFailed => "Error: failed to put file".to_owned(),
            CmdError::NotUtf8 => "Error: output was not valid UTF-8".to_owned(),
            CmdError::ParseFailed => "Error: failed to parse the networks listing".to_owned(),
        }
    }
}

/// Interpret the exit of `safe networks --json`: a failed exit is turned
/// down as such; otherwise the captured standard output is decoded and
/// parsed as the network listing, in input order.
pub fn interpret_networks_output(success: bool, stdout: &[u8]) -> (r: Result<
    Vec<NetworkPrinter>,
    CmdError,
>)
    ensures
        !success ==> (r matches Err(e) && e is FetchFailed),
        success && !valid_utf8(stdout@) ==> (r matches Err(e) && e is NotUtf8),
        success && valid_utf8(stdout@) && sp_parse_networks(decode_utf8(stdout@)) is None ==> (r
            matches Err(e) && e is ParseFailed),
        success && valid_utf8(stdout@) ==> (sp_parse_networks(decode_utf8(stdout@)) matches Some(
            recs,
        ) ==> (r matches Ok(v) && v.deep_view() == recs)),
    {
    if !success {
        return Err(CmdError::FetchFailed);
    }
    match utf8_str(stdout) {
        None => Err(CmdError::NotUtf8),
        Some(s) => {
            match parse_networks(s) {
                Ok(v) => Ok(v),
                Err(_) => Err(CmdError::ParseFailed),
            }
        },
    }
}

/// Interpret the exit of `safe networks add`: the exit status alone decides.
pub fn interpret_add_output(success: bool) -> (r: Result<(), CmdError>)
    ensures
        success ==> r is Ok,
        !success ==> (r matches Err(e) && e is AddFailed),
{
    if success {
        Ok(())
    } else {
        Err(CmdError::AddFailed)
    }
}

/// Interpret the exit of `safe networks switch`: success is success; on
/// failure the captured standard error decides whether the name was unknown.
pub fn interpret_switch_output(success: bool, stderr: &[u8], name: &str) -> (r: Result<
    (),
    CmdError,
>)
    ensures
        success ==> r is Ok,
        !success && !valid_utf8(stderr@) ==> (r matches Err(e) && e is NotUtf8),
        !success && valid_utf8(stderr@) && contains_seq(
            decode_utf8(stderr@),
            no_such_network_marker(),
        ) ==> (r matches Err(e) && e matches CmdError::NoSuchNetworkSwitch { name: n } && n@
            == name@),
        !success && valid_utf8(stderr@) && !contains_seq(
            decode_utf8(stderr@),
            no_such_network_marker(),
        ) ==> (r matches Err(e) && e is SwitchFailed),
    {
    if success {
        return Ok(());
    }
    match utf8_str(stderr) {
        None => Err(CmdError::NotUtf8),
        Some(s) => {
            if str_contains(s, "with name") {
                Err(CmdError::NoSuchNetworkSwitch { name: name.to_owned() })
            } else {
                Err(CmdError::SwitchFailed)
            }
        },
    }
}

/// Interpret the exit of `safe networks remove`. The captured standard
/// output is decoded and scanned for the missing-name marker before the exit
/// status is consulted: the tool reports an unknown name on its standard
/// output, with a zero exit.
pub fn interpret_remove_output(success: bool, stdout: &[u8], name: &str) -> (r: Result<
    (),
    CmdError,
>)
    ensures
        !valid_utf8(stdout@) ==> (r matches Err(e) && e is NotUtf8),
        valid_utf8(stdout@) && contains_seq(decode_utf8(stdout@), no_such_network_marker()) ==> (r
            matches Err(e) && e matches CmdError::NoSuchNetworkRemove { name: n } && n@ == name@),
        valid_utf8(stdout@) && !contains_seq(decode_utf8(stdout@), no_such_network_marker())
            && !success ==> (r matches Err(e) && e is RemoveFailed),
        valid_utf8(stdout@) && !contains_seq(decode_utf8(stdout@), no_such_network_marker())
            && success ==> r is Ok,
    {
    match utf8_str(stdout) {
        None => Err(CmdError::NotUtf8),
        Some(s) => {
            if str_contains(s, "with name") {
                Err(CmdError::NoSuchNetworkRemove { name: name.to_owned() })
            } else if !success {
                Err(CmdError::RemoveFailed)
            } else {
                Ok(())
            }
        },
    }
}

/// Interpret the exit of `safe networks files put`: on success the captured
/// standard output is handed back for display.
pub fn interpret_put_output(success: bool, stdout: &[u8]) -> (r: Result<String, CmdError>)
    ensures
        !success ==> (r matches Err(e) && e is PutFailed),
        success && !valid_utf8(stdout@) ==> (r matches Err(e) && e is NotUtf8),
        success && valid_utf8(stdout@) ==> (r matches Ok(out) && out@ == decode_utf8(stdout@)),
    {
    if !success {
        return Err(CmdError::PutFailed);
    }
    match utf8_str(stdout) {
        None => Err(CmdError::NotUtf8),
        Some(s) => Ok(s.to_owned()),
    }
}

/// Interpret the exit of `safe networks files get`: the exit status alone
/// decides. A failed download is reported with the same wording as a failed
/// upload.
pub fn interpret_get_output(success: bool) -> (r: Result<(), CmdError>)
    ensures
        success ==> r is Ok,
        !success ==> (r matches Err(e) && e is GetFailed),
{
    if success {
        Ok(())
    } else {
        Err(CmdError::GetFailed)
    }
}

} // verus!
