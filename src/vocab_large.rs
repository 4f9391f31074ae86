//! The larger vocabularies of the format.
use vstd::prelude::*;

verus! {

/// Names of behaviors that malware exhibits.
#[derive(Debug, Clone, Copy, PartialEq, Eq, Hash, Structural)]
pub enum Behavior {
    AccessPremiumService,
    AutonomousRemoteInfection,
    BlockSecurityWebsites,
    CaptureCameraInput,
    CaptureFileSystemData,
    CaptureKeyboardInput,
    CaptureMicrophoneInput,
    CaptureMouseInput,
    CaptureNetworkTraffic,
    CaptureScreen,
    CheckForPayload,
    CheckLanguage,
    DetectDebugging,
    DetectEmulator,
    DetectSandboxEnvironment,
    DetectVmEnvironment,
    EncryptFiles,
    PersistAfterSystemReboot,
    RemoveTracesOfInfection,
}

impl Behavior {
    /// The wire name of each variant.
    pub open spec fn wire_name(self) -> Seq<char> {
        match self {
            Behavior::AccessPremiumService => "access-premium-service"@,
            Behavior::AutonomousRemoteInfection => "autonomous-remote-infection"@,
            Behavior::BlockSecurityWebsites => "block-security-websites"@,
            Behavior::CaptureCameraInput => "capture-camera-input"@,
            Behavior::CaptureFileSystemData => "capture-file-system-data"@,
            Behavior::CaptureKeyboardInput => "capture-keyboard-input"@,
            Behavior::CaptureMicrophoneInput => "capture-microphone-input"@,
            Behavior::CaptureMouseInput => "capture-mouse-input"@,
            Behavior::CaptureNetworkTraffic => "capture-network-traffic"@,
            Behavior::CaptureScreen => "capture-screen"@,
            Behavior::CheckForPayload => "check-for-payload"@,
            Behavior::CheckLanguage => "check-language"@,
            Behavior::DetectDebugging => "detect-debugging"@,
            Behavior::DetectEmulator => "detect-emulator"@,
            Behavior::DetectSandboxEnvironment => "detect-sandbox-environment"@,
            Behavior::DetectVmEnvironment => "detect-vm-environment"@,
            Behavior::EncryptFiles => "encrypt-files"@,
            Behavior::PersistAfterSystemReboot => "persist-after-system-reboot"@,
            Behavior::RemoveTracesOfInfection => "remove-traces-of-infection"@,
        }
    }

    /// The wire name of the variant.
    pub fn as_str(&self) -> (r: &'static str)
        ensures
            r@ == self.wire_name(),
    {
        match self {
            Behavior::AccessPremiumService => "access-premium-service",
            Behavior::AutonomousRemoteInfection => "autonomous-remote-infection",
            Behavior::BlockSecurityWebsites => "block-security-websites",
            Behavior::CaptureCameraInput => "capture-camera-input",
            Behavior::CaptureFileSystemData => "capture-file-system-data",
            Behavior::CaptureKeyboardInput => "capture-keyboard-input",
            Behavior::CaptureMicrophoneInput => "capture-microphone-input",
            Behavior::CaptureMouseInput => "capture-mouse-input",
            Behavior::CaptureNetworkTraffic => "capture-network-traffic",
            Behavior::CaptureScreen => "capture-screen",
            Behavior::CheckForPayload => "check-for-payload",
            Behavior::CheckLanguage => "check-language",
            Behavior::DetectDebugging => "detect-debugging",
            Behavior::DetectEmulator => "detect-emulator",
            Behavior::DetectSandboxEnvironment => "detect-sandbox-environment",
            Behavior::DetectVmEnvironment => "detect-vm-environment",
            Behavior::EncryptFiles => "encrypt-files",
            Behavior::PersistAfterSystemReboot => "persist-after-system-reboot",
            Behavior::RemoveTracesOfInfection => "remove-traces-of-infection",
        }
    }
}

} // verus!
