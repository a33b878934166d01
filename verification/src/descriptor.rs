//! The command descriptor: an immutable description of how to invoke
//! the child process.

use vstd::prelude::*;
use vstd::string::StringExecFns;
use crate::error::{Error, ErrorKind};

verus! {

/// The transport protocol of a remote endpoint.
#[derive(Clone, Copy, PartialEq, Eq, Structural, Debug)]
pub enum TransportProtocol {
    Udp,
    Tcp,
}

/// One remote endpoint the child process may connect to.
pub struct RemoteEndpoint {
    pub host: String,
    pub protocol: TransportProtocol,
}

/// The mathematical view of a remote endpoint.
pub struct RemoteEndpointView {
    pub host: Seq<char>,
    pub protocol: TransportProtocol,
}

impl View for RemoteEndpoint {
    type V = RemoteEndpointView;

    open spec fn view(&self) -> RemoteEndpointView {
        RemoteEndpointView { host: self.host@, protocol: self.protocol }
    }
}

/// How to invoke the child process: the executable, its configuration
/// file, the remote endpoints it shall reach, and whether its console
/// output is to be forwarded.  Immutable once constructed.
pub struct CommandDescriptor {
    executable_path: String,
    config_file_path: String,
    remote_endpoints: Vec<RemoteEndpoint>,
    forward_output: bool,
}

/// The mathematical view of a command descriptor.
pub struct CommandDescriptorView {
    pub executable_path: Seq<char>,
    pub config_file_path: Seq<char>,
    pub remote_endpoints: Seq<RemoteEndpointView>,
    pub forward_output: bool,
}

impl CommandDescriptorView {
    /// A descriptor is well formed when it names at least one remote
    /// endpoint.
    pub open spec fn wf(&self) -> bool {
        self.remote_endpoints.len() > 0
    }
}

impl View for CommandDescriptor {
    type V = CommandDescriptorView;

    closed spec fn view(&self) -> CommandDescriptorView {
        CommandDescriptorView {
            executable_path: self.executable_path@,
            config_file_path: self.config_file_path@,
            remote_endpoints: self.remote_endpoints@.map_values(|e: RemoteEndpoint| e@),
            forward_output: self.forward_output,
        }
    }
}

impl CommandDescriptor {
    /// Validates and builds a descriptor.  A descriptor without remote
    /// endpoints is refused.
    pub fn new(
        executable_path: String,
        config_file_path: String,
        remote_endpoints: Vec<RemoteEndpoint>,
        forward_output: bool,
    ) -> (r: Result<CommandDescriptor, Error>)
        ensures
            remote_endpoints@.len() == 0 ==> (r matches Err(e)
                && e.kind == ErrorKind::InvalidDescriptor
                && e.message@ == "a command descriptor needs at least one remote endpoint"@
                && e.cause is None && e.backtrace is None),
            remote_endpoints@.len() > 0 ==> (r matches Ok(d)
                && d@.executable_path == executable_path@
                && d@.config_file_path == config_file_path@
                && d@.remote_endpoints == remote_endpoints@.map_values(|e: RemoteEndpoint| e@)
                && d@.forward_output == forward_output
                && d@.wf()),
    {
        if remote_endpoints.len() == 0 {
            Err(Error::new(
                ErrorKind::InvalidDescriptor,
                String::from_str("a command descriptor needs at least one remote endpoint"),
            ))
        } else {
            Ok(CommandDescriptor {
                executable_path,
                config_file_path,
                remote_endpoints,
                forward_output,
            })
        }
    }

    /// The path of the executable to launch.
    pub fn executable_path(&self) -> (p: &String)
        ensures
            p@ == self@.executable_path,
    {
        &self.executable_path
    }

    /// The path of the configuration file handed to the child.
    pub fn config_file_path(&self) -> (p: &String)
        ensures
            p@ == self@.config_file_path,
    {
        &self.config_file_path
    }

    /// The remote endpoints the child shall reach.
    pub fn remote_endpoints(&self) -> (r: &Vec<RemoteEndpoint>)
        ensures
            r@.map_values(|e: RemoteEndpoint| e@) == self@.remote_endpoints,
    {
        &self.remote_endpoints
    }

    /// Whether the child's console output is to be forwarded.
    pub fn forward_output(&self) -> (b: bool)
        ensures
            b == self@.forward_output,
    {
        self.forward_output
    }
}

} // verus!
