use vstd::prelude::*;
use crate::setup::{gamemode_command, setup_gamemode_cmd, Distro, DistroView};

verus! {

/// A step of setup: what is to be done next. Each step is carried out by the program, which
/// then reports its outcome to `next_setup_step`.
#[derive(Debug, Clone, Copy, PartialEq, Eq, Structural)]
pub enum SetupStep {
    /// Look for `wine` on the `PATH`; the outcome is whether it was found.
    CheckWine,
    /// Show the installation commands and ask whether to run them; the outcome is the answer.
    AskInstallWine,
    /// Run the distribution's installation commands.
    InstallWine,
    /// Create the Wine prefix and run `wineboot` in it.
    CreatePrefix,
    /// Install the winetricks components into the prefix.
    InstallComponents,
    /// Look for `gamemoderun` on the `PATH`; the outcome is whether it was found.
    CheckGameMode,
    /// Ask whether to install GameMode; the outcome is the answer.
    AskInstallGameMode,
    /// Run the distribution's GameMode installation command.
    InstallGameMode,
    /// Download and install DXVK; the outcome is whether it succeeded.
    InstallDxvk,
    /// Download and install vkd3d-proton; the outcome is whether it succeeded.
    InstallVkd3d,
    /// Download Vortex.
    DownloadVortex,
    /// Register the `vortex://` URI scheme.
    RegisterUri,
    /// Run the diagnosis.
    RunDoctor,
    /// Save the configuration.
    SaveConfig,
    /// Setup is over.
    Finished,
}

/// The step that follows `step` with the given outcome on the distribution `d`.
/// Installing Wine and GameMode happens only after a yes; a failed DXVK or vkd3d-proton
/// installation does not stop setup; GameMode is offered only where it is missing and the
/// distribution has a command for it.
pub open spec fn setup_next(step: SetupStep, outcome: bool, d: DistroView) -> SetupStep {
    match step {
        SetupStep::CheckWine => if outcome {
            SetupStep::CreatePrefix
        } else {
            SetupStep::AskInstallWine
        },
        SetupStep::AskInstallWine => if outcome {
            SetupStep::InstallWine
        } else {
            SetupStep::CreatePrefix
        },
        SetupStep::InstallWine => SetupStep::CreatePrefix,
        SetupStep::CreatePrefix => SetupStep::InstallComponents,
        SetupStep::InstallComponents => SetupStep::CheckGameMode,
        SetupStep::CheckGameMode => if !outcome && setup_gamemode_cmd(d) is Some {
            SetupStep::AskInstallGameMode
        } else {
            SetupStep::InstallDxvk
        },
        SetupStep::AskInstallGameMode => if outcome {
            SetupStep::InstallGameMode
        } else {
            SetupStep::InstallDxvk
        },
        SetupStep::InstallGameMode => SetupStep::InstallDxvk,
        SetupStep::InstallDxvk => SetupStep::InstallVkd3d,
        SetupStep::InstallVkd3d => SetupStep::DownloadVortex,
        SetupStep::DownloadVortex => SetupStep::RegisterUri,
        SetupStep::RegisterUri => SetupStep::RunDoctor,
        SetupStep::RunDoctor => SetupStep::SaveConfig,
        SetupStep::SaveConfig => SetupStep::Finished,
        SetupStep::Finished => SetupStep::Finished,
    }
}

/// The step that follows `step`, given its outcome (what was found, answered, or whether it
/// succeeded), on the distribution `distro`.
pub fn next_setup_step(step: SetupStep, outcome: bool, distro: &Distro) -> (res: SetupStep)
    ensures
        res == setup_next(step, outcome, distro@),
{
    match step {
        SetupStep::CheckWine => if outcome {
            SetupStep::CreatePrefix
        } else {
            SetupStep::AskInstallWine
        },
        SetupStep::AskInstallWine => if outcome {
            SetupStep::InstallWine
        } else {
            SetupStep::CreatePrefix
        },
        SetupStep::InstallWine => SetupStep::CreatePrefix,
        SetupStep::CreatePrefix => SetupStep::InstallComponents,
        SetupStep::InstallComponents => SetupStep::CheckGameMode,
        SetupStep::CheckGameMode => {
            let offered = gamemode_command(distro).is_some();
            if !outcome && offered {
                SetupStep::AskInstallGameMode
            } else {
                SetupStep::InstallDxvk
            }
        },
        SetupStep::AskInstallGameMode => if outcome {
            SetupStep::InstallGameMode
        } else {
            SetupStep::InstallDxvk
        },
        SetupStep::InstallGameMode => SetupStep::InstallDxvk,
        SetupStep::InstallDxvk => SetupStep::InstallVkd3d,
        SetupStep::InstallVkd3d => SetupStep::DownloadVortex,
        SetupStep::DownloadVortex => SetupStep::RegisterUri,
        SetupStep::RegisterUri => SetupStep::RunDoctor,
        SetupStep::RunDoctor => SetupStep::SaveConfig,
        SetupStep::SaveConfig => SetupStep::Finished,
        SetupStep::Finished => SetupStep::Finished,
    }
}

/// The position of a step in the order of setup.
pub open spec fn step_rank(s: SetupStep) -> nat {
    match s {
        SetupStep::CheckWine => 0,
        SetupStep::AskInstallWine => 1,
        SetupStep::InstallWine => 2,
        SetupStep::CreatePrefix => 3,
        SetupStep::InstallComponents => 4,
        SetupStep::CheckGameMode => 5,
        SetupStep::AskInstallGameMode => 6,
        SetupStep::InstallGameMode => 7,
        SetupStep::InstallDxvk => 8,
        SetupStep::InstallVkd3d => 9,
        SetupStep::DownloadVortex => 10,
        SetupStep::RegisterUri => 11,
        SetupStep::RunDoctor => 12,
        SetupStep::SaveConfig => 13,
        SetupStep::Finished => 14,
    }
}

/// The steps that every setup goes through, whatever is found or answered.
pub open spec fn is_mandatory(s: SetupStep) -> bool {
    s == SetupStep::CheckWine || s == SetupStep::CreatePrefix || s == SetupStep::InstallComponents
        || s == SetupStep::CheckGameMode || s == SetupStep::InstallDxvk || s
        == SetupStep::InstallVkd3d || s == SetupStep::DownloadVortex || s == SetupStep::RegisterUri
        || s == SetupStep::RunDoctor || s == SetupStep::SaveConfig
}

/// Setup only moves forward, and never past a step that every setup goes through: each step
/// until the end is followed by a later one, and no step before a mandatory one is followed
/// by a step after it. So every run visits the mandatory steps in order and ends.
pub proof fn lemma_setup_order(step: SetupStep, outcome: bool, d: DistroView, m: SetupStep)
    requires
        is_mandatory(m),
    ensures
        step != SetupStep::Finished ==> step_rank(step) < step_rank(setup_next(step, outcome, d)),
        step_rank(step) < step_rank(m) ==> step_rank(setup_next(step, outcome, d)) <= step_rank(m),
{
}

/// Wine and GameMode are installed only after the user said yes, and a failed DXVK or
/// vkd3d-proton installation does not stop setup.
pub proof fn lemma_setup_consent(step: SetupStep, outcome: bool, d: DistroView)
    ensures
        setup_next(step, outcome, d) == SetupStep::InstallWine ==> step == SetupStep::AskInstallWine
            && outcome,
        setup_next(step, outcome, d) == SetupStep::InstallGameMode ==> step
            == SetupStep::AskInstallGameMode && outcome,
        setup_next(SetupStep::InstallDxvk, false, d) == SetupStep::InstallVkd3d,
        setup_next(SetupStep::InstallVkd3d, false, d) == SetupStep::DownloadVortex,
{
}

} // verus!
