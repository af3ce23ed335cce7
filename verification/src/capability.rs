//! Capabilities that tasks require and environments grant.
use vstd::prelude::*;
use vstd::string::*;

use crate::duplicate::Duplicate;
use crate::text::{chars_of, concat3, lowercase, part_lowercase, text_eq, text_of};

verus! {

/// A capability that a task can require.
#[derive(Clone, Copy, Debug, PartialEq, Eq, Structural)]
pub enum Capability {
    Command,
    RootlessPodman,
    ContainerdNerdctl,
    SourceGit,
    SourceFilesystem,
    Network,
    HostFilesystem,
    Secrets,
    InboundPorts,
    ArbitrarySyscalls,
    VfsArtifacts,
    WindowsCommandDev,
    ArtifactTransfer,
}

impl View for Capability {
    type V = Capability;

    open spec fn view(&self) -> Capability {
        *self
    }
}

impl Duplicate for Capability {
    fn duplicate(&self) -> (r: Self) {
        *self
    }
}

/// The capability that a word in lower case names, if it names one.
pub open spec fn capability_named(word: Seq<char>) -> Option<Capability> {
    if word == "command"@ {
        Some(Capability::Command)
    } else if word == "rootless_podman"@ {
        Some(Capability::RootlessPodman)
    } else if word == "containerd_nerdctl"@ {
        Some(Capability::ContainerdNerdctl)
    } else if word == "source_git"@ {
        Some(Capability::SourceGit)
    } else if word == "source_filesystem"@ {
        Some(Capability::SourceFilesystem)
    } else if word == "network"@ {
        Some(Capability::Network)
    } else if word == "host_filesystem"@ {
        Some(Capability::HostFilesystem)
    } else if word == "secrets"@ {
        Some(Capability::Secrets)
    } else if word == "inbound_ports"@ {
        Some(Capability::InboundPorts)
    } else if word == "arbitrary_syscalls"@ {
        Some(Capability::ArbitrarySyscalls)
    } else if word == "vfs_artifacts"@ {
        Some(Capability::VfsArtifacts)
    } else if word == "windows_command_dev"@ {
        Some(Capability::WindowsCommandDev)
    } else if word == "artifact_transfer"@ {
        Some(Capability::ArtifactTransfer)
    } else {
        None
    }
}

/// Why a word in lower case names no capability.
pub open spec fn capability_refusal(word: Seq<char>) -> Seq<char> {
    if word == "workflow_compiler"@ || word == "workflow.compile"@ {
        "workflow compilation is a release-owned system task, not a user capability"@
    } else {
        "unknown task capability `"@ + word + "`"@
    }
}

/// The capability that a word names, whatever its case.
pub open spec fn capability_of(word: Seq<char>) -> Result<Capability, Seq<char>> {
    match capability_named(lowercase(word)) {
        Some(capability) => Ok(capability),
        None => Err(capability_refusal(lowercase(word))),
    }
}

/// The capability that a word names, whatever its case.
pub fn capability_from_descriptor(capability: &str) -> (r: Result<Capability, String>)
    ensures
        match capability_of(capability@) {
            Ok(found) => r == Ok::<Capability, String>(found),
            Err(reason) => r matches Err(text) && text@ == reason,
        },
{
    let small: Vec<char> = part_lowercase(&chars_of(capability));
    let lower: String = text_of(&small);
    let word: &str = lower.as_str();
    if text_eq(word, "command") {
        Ok(Capability::Command)
    } else if text_eq(word, "rootless_podman") {
        Ok(Capability::RootlessPodman)
    } else if text_eq(word, "containerd_nerdctl") {
        Ok(Capability::ContainerdNerdctl)
    } else if text_eq(word, "source_git") {
        Ok(Capability::SourceGit)
    } else if text_eq(word, "source_filesystem") {
        Ok(Capability::SourceFilesystem)
    } else if text_eq(word, "network") {
        Ok(Capability::Network)
    } else if text_eq(word, "host_filesystem") {
        Ok(Capability::HostFilesystem)
    } else if text_eq(word, "secrets") {
        Ok(Capability::Secrets)
    } else if text_eq(word, "inbound_ports") {
        Ok(Capability::InboundPorts)
    } else if text_eq(word, "arbitrary_syscalls") {
        Ok(Capability::ArbitrarySyscalls)
    } else if text_eq(word, "vfs_artifacts") {
        Ok(Capability::VfsArtifacts)
    } else if text_eq(word, "windows_command_dev") {
        Ok(Capability::WindowsCommandDev)
    } else if text_eq(word, "artifact_transfer") {
        Ok(Capability::ArtifactTransfer)
    } else if text_eq(word, "workflow_compiler") || text_eq(word, "workflow.compile") {
        Err(
            "workflow compilation is a release-owned system task, not a user capability".to_owned(),
        )
    } else {
        Err(concat3("unknown task capability `", word, "`"))
    }
}

/// A set of capabilities.
#[derive(Clone, Copy, Debug, PartialEq, Eq, Structural)]
pub struct Capabilities {
    pub command: bool,
    pub rootless_podman: bool,
    pub containerd_nerdctl: bool,
    pub source_git: bool,
    pub source_filesystem: bool,
    pub network: bool,
    pub host_filesystem: bool,
    pub secrets: bool,
    pub inbound_ports: bool,
    pub arbitrary_syscalls: bool,
    pub vfs_artifacts: bool,
    pub windows_command_dev: bool,
    pub artifact_transfer: bool,
}

impl View for Capabilities {
    type V = Capabilities;

    open spec fn view(&self) -> Capabilities {
        *self
    }
}

impl Duplicate for Capabilities {
    fn duplicate(&self) -> (r: Self) {
        *self
    }
}

fn either(a: bool, b: bool) -> (r: bool)
    ensures
        r == (a || b),
{
    a || b
}

impl Capabilities {
    /// Whether the set holds a capability.
    pub open spec fn holds(self, capability: Capability) -> bool {
        match capability {
            Capability::Command => self.command,
            Capability::RootlessPodman => self.rootless_podman,
            Capability::ContainerdNerdctl => self.containerd_nerdctl,
            Capability::SourceGit => self.source_git,
            Capability::SourceFilesystem => self.source_filesystem,
            Capability::Network => self.network,
            Capability::HostFilesystem => self.host_filesystem,
            Capability::Secrets => self.secrets,
            Capability::InboundPorts => self.inbound_ports,
            Capability::ArbitrarySyscalls => self.arbitrary_syscalls,
            Capability::VfsArtifacts => self.vfs_artifacts,
            Capability::WindowsCommandDev => self.windows_command_dev,
            Capability::ArtifactTransfer => self.artifact_transfer,
        }
    }

    /// The set without capabilities.
    pub open spec fn empty() -> Capabilities {
        Capabilities {
            command: false,
            rootless_podman: false,
            containerd_nerdctl: false,
            source_git: false,
            source_filesystem: false,
            network: false,
            host_filesystem: false,
            secrets: false,
            inbound_ports: false,
            arbitrary_syscalls: false,
            vfs_artifacts: false,
            windows_command_dev: false,
            artifact_transfer: false,
        }
    }

    /// The set without capabilities.
    pub fn none() -> (r: Self)
        ensures
            r == Self::empty(),
    {
        Capabilities {
            command: false,
            rootless_podman: false,
            containerd_nerdctl: false,
            source_git: false,
            source_filesystem: false,
            network: false,
            host_filesystem: false,
            secrets: false,
            inbound_ports: false,
            arbitrary_syscalls: false,
            vfs_artifacts: false,
            windows_command_dev: false,
            artifact_transfer: false,
        }
    }

    /// Whether the set holds a capability.
    pub fn contains(&self, capability: Capability) -> (r: bool)
        ensures
            r == self.holds(capability),
    {
        match capability {
            Capability::Command => self.command,
            Capability::RootlessPodman => self.rootless_podman,
            Capability::ContainerdNerdctl => self.containerd_nerdctl,
            Capability::SourceGit => self.source_git,
            Capability::SourceFilesystem => self.source_filesystem,
            Capability::Network => self.network,
            Capability::HostFilesystem => self.host_filesystem,
            Capability::Secrets => self.secrets,
            Capability::InboundPorts => self.inbound_ports,
            Capability::ArbitrarySyscalls => self.arbitrary_syscalls,
            Capability::VfsArtifacts => self.vfs_artifacts,
            Capability::WindowsCommandDev => self.windows_command_dev,
            Capability::ArtifactTransfer => self.artifact_transfer,
        }
    }

    /// Whether the set holds no capability.
    pub open spec fn lacks_all(self) -> bool {
        forall|c: Capability| !#[trigger] self.holds(c)
    }

    /// Whether the set holds no capability.
    pub fn is_empty(&self) -> (r: bool)
        ensures
            r == self.lacks_all(),
    {
        let r: bool = !self.command && !self.rootless_podman && !self.containerd_nerdctl && !self.source_git && !self.source_filesystem && !self.network && !self.host_filesystem && !self.secrets && !self.inbound_ports && !self.arbitrary_syscalls && !self.vfs_artifacts && !self.windows_command_dev && !self.artifact_transfer;
        proof {
            if !r {
                if self.command {
                    assert(self.holds(Capability::Command));
                }
                if self.rootless_podman {
                    assert(self.holds(Capability::RootlessPodman));
                }
                if self.containerd_nerdctl {
                    assert(self.holds(Capability::ContainerdNerdctl));
                }
                if self.source_git {
                    assert(self.holds(Capability::SourceGit));
                }
                if self.source_filesystem {
                    assert(self.holds(Capability::SourceFilesystem));
                }
                if self.network {
                    assert(self.holds(Capability::Network));
                }
                if self.host_filesystem {
                    assert(self.holds(Capability::HostFilesystem));
                }
                if self.secrets {
                    assert(self.holds(Capability::Secrets));
                }
                if self.inbound_ports {
                    assert(self.holds(Capability::InboundPorts));
                }
                if self.arbitrary_syscalls {
                    assert(self.holds(Capability::ArbitrarySyscalls));
                }
                if self.vfs_artifacts {
                    assert(self.holds(Capability::VfsArtifacts));
                }
                if self.windows_command_dev {
                    assert(self.holds(Capability::WindowsCommandDev));
                }
                if self.artifact_transfer {
                    assert(self.holds(Capability::ArtifactTransfer));
                }
            }
        }
        r
    }

    /// The set and a capability.
    pub open spec fn with(self, capability: Capability) -> Capabilities {
        match capability {
            Capability::Command => Capabilities { command: true, ..self },
            Capability::RootlessPodman => Capabilities { rootless_podman: true, ..self },
            Capability::ContainerdNerdctl => Capabilities { containerd_nerdctl: true, ..self },
            Capability::SourceGit => Capabilities { source_git: true, ..self },
            Capability::SourceFilesystem => Capabilities { source_filesystem: true, ..self },
            Capability::Network => Capabilities { network: true, ..self },
            Capability::HostFilesystem => Capabilities { host_filesystem: true, ..self },
            Capability::Secrets => Capabilities { secrets: true, ..self },
            Capability::InboundPorts => Capabilities { inbound_ports: true, ..self },
            Capability::ArbitrarySyscalls => Capabilities { arbitrary_syscalls: true, ..self },
            Capability::VfsArtifacts => Capabilities { vfs_artifacts: true, ..self },
            Capability::WindowsCommandDev => Capabilities { windows_command_dev: true, ..self },
            Capability::ArtifactTransfer => Capabilities { artifact_transfer: true, ..self },
        }
    }

    /// The set and a capability.
    pub fn including(self, capability: Capability) -> (r: Capabilities)
        ensures
            r == self.with(capability),
    {
        match capability {
            Capability::Command => Capabilities { command: true, ..self },
            Capability::RootlessPodman => Capabilities { rootless_podman: true, ..self },
            Capability::ContainerdNerdctl => Capabilities { containerd_nerdctl: true, ..self },
            Capability::SourceGit => Capabilities { source_git: true, ..self },
            Capability::SourceFilesystem => Capabilities { source_filesystem: true, ..self },
            Capability::Network => Capabilities { network: true, ..self },
            Capability::HostFilesystem => Capabilities { host_filesystem: true, ..self },
            Capability::Secrets => Capabilities { secrets: true, ..self },
            Capability::InboundPorts => Capabilities { inbound_ports: true, ..self },
            Capability::ArbitrarySyscalls => Capabilities { arbitrary_syscalls: true, ..self },
            Capability::VfsArtifacts => Capabilities { vfs_artifacts: true, ..self },
            Capability::WindowsCommandDev => Capabilities { windows_command_dev: true, ..self },
            Capability::ArtifactTransfer => Capabilities { artifact_transfer: true, ..self },
        }
    }

    /// The capabilities of two sets.
    pub open spec fn joined(self, other: Capabilities) -> Capabilities {
        Capabilities {
            command: self.command || other.command,
            rootless_podman: self.rootless_podman || other.rootless_podman,
            containerd_nerdctl: self.containerd_nerdctl || other.containerd_nerdctl,
            source_git: self.source_git || other.source_git,
            source_filesystem: self.source_filesystem || other.source_filesystem,
            network: self.network || other.network,
            host_filesystem: self.host_filesystem || other.host_filesystem,
            secrets: self.secrets || other.secrets,
            inbound_ports: self.inbound_ports || other.inbound_ports,
            arbitrary_syscalls: self.arbitrary_syscalls || other.arbitrary_syscalls,
            vfs_artifacts: self.vfs_artifacts || other.vfs_artifacts,
            windows_command_dev: self.windows_command_dev || other.windows_command_dev,
            artifact_transfer: self.artifact_transfer || other.artifact_transfer,
        }
    }

    /// The capabilities of two sets.
    pub fn union(&self, other: &Capabilities) -> (r: Capabilities)
        ensures
            r == self.joined(*other),
    {
        Capabilities {
            command: either(self.command, other.command),
            rootless_podman: either(self.rootless_podman, other.rootless_podman),
            containerd_nerdctl: either(self.containerd_nerdctl, other.containerd_nerdctl),
            source_git: either(self.source_git, other.source_git),
            source_filesystem: either(self.source_filesystem, other.source_filesystem),
            network: either(self.network, other.network),
            host_filesystem: either(self.host_filesystem, other.host_filesystem),
            secrets: either(self.secrets, other.secrets),
            inbound_ports: either(self.inbound_ports, other.inbound_ports),
            arbitrary_syscalls: either(self.arbitrary_syscalls, other.arbitrary_syscalls),
            vfs_artifacts: either(self.vfs_artifacts, other.vfs_artifacts),
            windows_command_dev: either(self.windows_command_dev, other.windows_command_dev),
            artifact_transfer: either(self.artifact_transfer, other.artifact_transfer),
        }
    }
}

} // verus!
