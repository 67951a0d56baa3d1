//! The commands that change the installed service.

use vstd::prelude::*;

verus! {

/// A command on the installed service.
#[derive(Debug, Clone, Copy, PartialEq, Eq, Structural)]
pub enum ServiceCommand {
    Install,
    Uninstall,
    Reinstall,
    ForceReinstall,
    /// Installs over a service that is there but stopped, which starts it.
    StartInstalled,
}

impl ServiceCommand {
    /// What the command is called in messages.
    pub open spec fn label_wording(self) -> Seq<char> {
        match self {
            ServiceCommand::Install => "install service"@,
            ServiceCommand::Uninstall => "uninstall service"@,
            ServiceCommand::Reinstall => "reinstall service"@,
            ServiceCommand::ForceReinstall => "force reinstall service"@,
            ServiceCommand::StartInstalled => "start installed service"@,
        }
    }

    /// The name of the command in messages.
    pub fn label(&self) -> (r: &'static str)
        ensures
            r@ == self.label_wording(),
    {
        match self {
            ServiceCommand::Install => "install service",
            ServiceCommand::Uninstall => "uninstall service",
            ServiceCommand::Reinstall => "reinstall service",
            ServiceCommand::ForceReinstall => "force reinstall service",
            ServiceCommand::StartInstalled => "start installed service",
        }
    }
}

} // verus!
