//! The service target: the pod behind the jump host that a session is
//! forwarded to, and the remote command that reaches it.

use vstd::prelude::*;

verus! {

/// A pod, identified by the type of service it runs and the version deployed.
#[derive(Debug, PartialEq, Eq)]
pub struct ServiceTarget {
    pub service_type: String,
    pub version: String,
}

/// The mathematical value of a [`ServiceTarget`].
pub struct ServiceTargetView {
    pub service_type: Seq<char>,
    pub version: Seq<char>,
}

impl View for ServiceTarget {
    type V = ServiceTargetView;

    open spec fn view(&self) -> ServiceTargetView {
        ServiceTargetView { service_type: self.service_type@, version: self.version@ }
    }
}

impl ServiceTargetView {
    /// The pod's name: service type and version, joined by a hyphen.
    pub open spec fn pod_name(self) -> Seq<char> {
        self.service_type + "-"@ + self.version
    }

    /// The command that the jump host runs to enter the pod.
    pub open spec fn inner_command(self) -> Seq<char> {
        "ssh-pods "@ + self.service_type + "-"@ + self.version
    }
}

impl ServiceTarget {
    /// The pod that runs `version` of the service `service_type`.
    pub fn new(service_type: String, version: String) -> (target: ServiceTarget)
        ensures
            target.service_type == service_type,
            target.version == version,
    {
        ServiceTarget { service_type, version }
    }

    /// Builds the pod's name.
    pub fn pod_name(&self) -> (name: String)
        ensures
            name@ == self@.pod_name(),
    {
        let mut name = self.service_type.clone();
        name.append("-");
        name.append(self.version.as_str());
        name
    }

    /// Builds the command that the jump host runs to enter the pod.
    pub fn inner_command(&self) -> (command: String)
        ensures
            command@ == "ssh-pods "@ + self.service_type@ + "-"@ + self.version@,
    {
        let mut command = String::from_str("ssh-pods ");
        command.append(self.service_type.as_str());
        command.append("-");
        command.append(self.version.as_str());
        command
    }
}

} // verus!
