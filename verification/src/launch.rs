//! The command line under which the game is started.

use crate::decimal::{decimal, decimal_text};
use crate::settings::{GameSettings, GameSettingsView};
use vstd::prelude::*;
use vstd::string::*;

verus! {

/// The invocation of the runtime for `settings`: the runtime's path, the
/// memory limit in megabytes, the client's archive, and the window's width
/// and height.
pub open spec fn launch_command_line(settings: GameSettingsView) -> Seq<char> {
    settings.runtime_path + " -Xmx"@ + decimal(settings.allocated_memory_mb as nat)
        + "M -jar minecraft.jar --width "@ + decimal(settings.resolution.width as nat)
        + " --height "@ + decimal(settings.resolution.height as nat)
}

/// Builds the command line that starts the game under `settings`.
pub fn launch_command(settings: &GameSettings) -> (command: String)
    ensures
        command@ == launch_command_line(settings@),
{
    let mut command = settings.runtime_path.clone();
    command.append(" -Xmx");
    command.append(decimal_text(settings.allocated_memory_mb).as_str());
    command.append("M -jar minecraft.jar --width ");
    command.append(decimal_text(settings.resolution.width).as_str());
    command.append(" --height ");
    command.append(decimal_text(settings.resolution.height).as_str());
    command
}

} // verus!
