//! The input forms of the front-end: each holds its text fields and error
//! flags, validates them on submit (an empty field is refused and its flag
//! set), and hands out the argument vector for the accepted operation.
//! Rendering and the command run are the caller's.

use vstd::prelude::*;

use crate::launcher::{
    add_network_args, add_network_args_spec, get_files_args, get_files_args_spec, put_files_args,
    put_files_args_spec,
};
use crate::status::StatusMessage;

verus! {

/// The add-network dialog: a network name and a network-map path.
pub struct AddNetworkForm {
    pub name: String,
    pub path: String,
    pub name_error: bool,
    pub path_error: bool,
}

impl AddNetworkForm {
    /// An empty form with no errors shown.
    pub fn new() -> (f: AddNetworkForm)
        ensures
            f.name@.len() == 0,
            f.path@.len() == 0,
            !f.name_error,
            !f.path_error,
    {
        AddNetworkForm {
            name: String::new(),
            path: String::new(),
            name_error: false,
            path_error: false,
        }
    }

    /// Validate and submit: both fields must be present; each error flag
    /// shows exactly whether its field is empty. On acceptance the arguments
    /// of the add invocation are handed out; the fields stay for the dialog.
    pub fn submit(&mut self) -> (r: Option<Vec<String>>)
        ensures
            final(self).name == old(self).name,
            final(self).path == old(self).path,
            final(self).name_error == (old(self).name@.len() == 0),
            final(self).path_error == (old(self).path@.len() == 0),
            r is Some <==> (old(self).name@.len() > 0 && old(self).path@.len() > 0),
            r matches Some(args) ==> args.deep_view() == add_network_args_spec(
                old(self).name@,
                old(self).path@,
            ),
    {
        self.name_error = self.name.as_str().is_empty();
        self.path_error = self.path.as_str().is_empty();
        if !self.name_error && !self.path_error {
            Some(add_network_args(self.name.as_str(), self.path.as_str()))
        } else {
            None
        }
    }

    /// Clear the form after the tool accepted the addition.
    pub fn clear(&mut self)
        ensures
            final(self).name@.len() == 0,
            final(self).path@.len() == 0,
            !final(self).name_error,
            !final(self).path_error,
    {
        self.name = String::new();
        self.path = String::new();
        self.name_error = false;
        self.path_error = false;
    }
}

/// A dialog asking for one network name, as switching and removing do.
pub struct NameForm {
    pub name: String,
    pub name_error: bool,
}

impl NameForm {
    /// An empty form with no error shown.
    pub fn new() -> (f: NameForm)
        ensures
            f.name@.len() == 0,
            !f.name_error,
    {
        NameForm { name: String::new(), name_error: false }
    }

    /// Validate and submit: the name must be present; the error flag shows
    /// exactly whether it is empty. On acceptance the name is handed out.
    pub fn submit(&mut self) -> (r: Option<String>)
        ensures
            final(self).name == old(self).name,
            final(self).name_error == (old(self).name@.len() == 0),
            r is Some <==> old(self).name@.len() > 0,
            r matches Some(nm) ==> nm@ == old(self).name@,
    {
        self.name_error = self.name.as_str().is_empty();
        if !self.name_error {
            Some(self.name.clone())
        } else {
            None
        }
    }

    /// Clear the form after the tool accepted the operation.
    pub fn clear(&mut self)
        ensures
            final(self).name@.len() == 0,
            final(self).name_error == old(self).name_error,
    {
        self.name = String::new();
    }
}

/// The upload pane: the path of the file to put.
pub struct PutForm {
    pub path: String,
    pub path_error: bool,
}

impl PutForm {
    /// An empty form with no error shown.
    pub fn new() -> (f: PutForm)
        ensures
            f.path@.len() == 0,
            !f.path_error,
    {
        PutForm { path: String::new(), path_error: false }
    }

    /// Validate and submit: the path must be present. On acceptance the
    /// arguments of the put invocation are handed out.
    pub fn submit(&mut self) -> (r: Option<Vec<String>>)
        ensures
            final(self).path == old(self).path,
            final(self).path_error == (old(self).path@.len() == 0),
            r is Some <==> old(self).path@.len() > 0,
            r matches Some(args) ==> args.deep_view() == put_files_args_spec(old(self).path@),
    {
        self.path_error = self.path.as_str().is_empty();
        if !self.path_error {
            Some(put_files_args(self.path.as_str()))
        } else {
            None
        }
    }

    /// Clear the path after a finished upload.
    pub fn clear(&mut self)
        ensures
            final(self).path@.len() == 0,
            final(self).path_error == old(self).path_error,
    {
        self.path = String::new();
    }
}

/// The download pane: a URL to fetch and a destination, which starts as the
/// working directory and is not validated.
pub struct GetForm {
    pub url: String,
    pub dst: String,
    pub url_error: bool,
}

impl GetForm {
    /// An empty URL, the destination ".", no error shown.
    pub fn new() -> (f: GetForm)
        ensures
            f.url@.len() == 0,
            f.dst@ == "."@,
            !f.url_error,
    {
        GetForm { url: String::new(), dst: ".".to_owned(), url_error: false }
    }

    /// Validate and submit: the URL must be present. On acceptance the
    /// arguments of the get invocation are handed out.
    pub fn submit(&mut self) -> (r: Option<Vec<String>>)
        ensures
            final(self).url == old(self).url,
            final(self).dst == old(self).dst,
            final(self).url_error == (old(self).url@.len() == 0),
            r is Some <==> old(self).url@.len() > 0,
            r matches Some(args) ==> args.deep_view() == get_files_args_spec(
                old(self).url@,
                old(self).dst@,
            ),
    {
        self.url_error = self.url.as_str().is_empty();
        if !self.url_error {
            Some(get_files_args(self.url.as_str(), self.dst.as_str()))
        } else {
            None
        }
    }

    /// Clear the URL after a finished download; the destination stays.
    pub fn clear(&mut self)
        ensures
            final(self).url@.len() == 0,
            final(self).dst == old(self).dst,
            final(self).url_error == old(self).url_error,
    {
        self.url = String::new();
    }
}

/// The footer text after a network was added.
pub fn status_added(name: &str) -> (m: StatusMessage)
    ensures
        m.text@ == "Success: Added a network with name "@ + name@,
        !m.is_error,
{
    StatusMessage { text: "Success: Added a network with name ".to_owned().concat(name), is_error: false }
}

/// The footer text after the current network was switched.
pub fn status_switched(name: &str) -> (m: StatusMessage)
    ensures
        m.text@ == "Success: Switched to network: "@ + name@,
        !m.is_error,
{
    StatusMessage { text: "Success: Switched to network: ".to_owned().concat(name), is_error: false }
}

/// The footer text after a network was removed.
pub fn status_removed(name: &str) -> (m: StatusMessage)
    ensures
        m.text@ == "Success: Removed network: "@ + name@,
        !m.is_error,
{
    StatusMessage { text: "Success: Removed network: ".to_owned().concat(name), is_error: false }
}

/// The footer text after a finished upload.
pub fn status_put_ok() -> (m: StatusMessage)
    ensures
        m.text@ == "Successfully added file to the network"@,
        !m.is_error,
{
    StatusMessage { text: "Successfully added file to the network".to_owned(), is_error: false }
}

/// The footer text after a finished download.
pub fn status_get_ok() -> (m: StatusMessage)
    ensures
        m.text@ == "Successfully retrieved files from the network"@,
        !m.is_error,
{
    StatusMessage {
        text: "Successfully retrieved files from the network".to_owned(),
        is_error: false,
    }
}

} // verus!
