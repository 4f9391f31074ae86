//! The fixed vocabularies of the format: closed sets of names, one wire
//! name for each.
use vstd::prelude::*;

verus! {

/// What an analysis concluded about an entity.
#[derive(Debug, Clone, Copy, PartialEq, Eq, Hash, Structural)]
pub enum AnalysisConclusionType {
    /// The entity is benign.
    Benign,
    /// The entity is malicious.
    Malicious,
    /// The entity is suspicious.
    Suspicious,
    /// No conclusion could be reached.
    Indeterminate,
}

/// Properties of an analysis environment.
#[derive(Debug, Clone, Copy, PartialEq, Eq, Hash, Structural)]
pub enum AnalysisEnvironment {
    /// The operating system.
    OperatingSystem,
    /// The host virtual machine.
    HostVm,
    /// Installed software.
    InstalledSoftware,
}

/// Kinds of malware analysis.
#[derive(Debug, Clone, Copy, PartialEq, Eq, Hash, Structural)]
pub enum AnalysisType {
    /// Static analysis.
    Static,
    /// Dynamic analysis.
    Dynamic,
    /// Static and dynamic analysis together.
    Combination,
}

/// Levels of confidence.
#[derive(Debug, Clone, Copy, PartialEq, Eq, Hash, Structural)]
pub enum ConfidenceMeasure {
    /// Low confidence.
    Low,
    /// Medium confidence.
    Medium,
    /// High confidence.
    High,
    /// No confidence (wire name `none`).
    NoConfidence,
    /// Confidence unknown.
    Unknown,
}

/// Processor architectures.
#[derive(Debug, Clone, Copy, PartialEq, Eq, Hash, Structural)]
pub enum ProcessorArchitecture {
    /// 32-bit x86.
    X86,
    /// x86-64 (AMD64).
    X8664,
    /// Intel IA-64.
    Ia64,
    /// PowerPC.
    PowerPc,
    /// ARM.
    Arm,
    /// Alpha.
    Alpha,
    /// SPARC.
    Sparc,
    /// MIPS.
    Mips,
}

/// Ways in which a binary is obfuscated.
#[derive(Debug, Clone, Copy, PartialEq, Eq, Hash, Structural)]
pub enum ObfuscationMethod {
    Packing,
    CodeEncryption,
    DeadCodeInsertion,
    EntryPointObfuscation,
    ImportAddressTableObfuscation,
    InterleavingCode,
    SymbolicObfuscation,
    StringObfuscation,
    SubroutineReordering,
    CodeTransposition,
    InstructionSubstitution,
    RegisterReassignment,
}

/// How malware is delivered to its victims.
#[derive(Debug, Clone, Copy, PartialEq, Eq, Hash, Structural)]
pub enum DeliveryVector {
    ActiveAttacker,
    AutoExecutingMedia,
    Downloader,
    Dropper,
    EmailAttachment,
    ExploitKitLandingPage,
    FakeWebsite,
    JanitorAttack,
    MaliciousIframes,
    Malvertising,
    MediaBaiting,
    Pharming,
    Phishing,
    TrojanizedLink,
    TrojanizedSoftware,
    UsbCableSyncing,
    WateringHole,
}

impl DeliveryVector {
    /// The wire name of each variant.
    pub open spec fn wire_name(self) -> Seq<char> {
        match self {
            DeliveryVector::ActiveAttacker => "active-attacker"@,
            DeliveryVector::AutoExecutingMedia => "auto-executing-media"@,
            DeliveryVector::Downloader => "downloader"@,
            DeliveryVector::Dropper => "dropper"@,
            DeliveryVector::EmailAttachment => "email-attachment"@,
            DeliveryVector::ExploitKitLandingPage => "exploit-kit-landing-page"@,
            DeliveryVector::FakeWebsite => "fake-website"@,
            DeliveryVector::JanitorAttack => "janitor-attack"@,
            DeliveryVector::MaliciousIframes => "malicious-iframes"@,
            DeliveryVector::Malvertising => "malvertising"@,
            DeliveryVector::MediaBaiting => "media-baiting"@,
            DeliveryVector::Pharming => "pharming"@,
            DeliveryVector::Phishing => "phishing"@,
            DeliveryVector::TrojanizedLink => "trojanized-link"@,
            DeliveryVector::TrojanizedSoftware => "trojanized-software"@,
            DeliveryVector::UsbCableSyncing => "usb-cable-syncing"@,
            DeliveryVector::WateringHole => "watering-hole"@,
        }
    }

    /// The wire name of the variant.
    pub fn as_ref(&self) -> (r: &'static str)
        ensures
            r@ == self.wire_name(),
    {
        match self {
            DeliveryVector::ActiveAttacker => "active-attacker",
            DeliveryVector::AutoExecutingMedia => "auto-executing-media",
            DeliveryVector::Downloader => "downloader",
            DeliveryVector::Dropper => "dropper",
            DeliveryVector::EmailAttachment => "email-attachment",
            DeliveryVector::ExploitKitLandingPage => "exploit-kit-landing-page",
            DeliveryVector::FakeWebsite => "fake-website",
            DeliveryVector::JanitorAttack => "janitor-attack",
            DeliveryVector::MaliciousIframes => "malicious-iframes",
            DeliveryVector::Malvertising => "malvertising",
            DeliveryVector::MediaBaiting => "media-baiting",
            DeliveryVector::Pharming => "pharming",
            DeliveryVector::Phishing => "phishing",
            DeliveryVector::TrojanizedLink => "trojanized-link",
            DeliveryVector::TrojanizedSoftware => "trojanized-software",
            DeliveryVector::UsbCableSyncing => "usb-cable-syncing",
            DeliveryVector::WateringHole => "watering-hole",
        }
    }
}

/// Common labels of malware.
#[derive(Debug, Clone, Copy, PartialEq, Eq, Hash, Structural)]
pub enum MalwareLabel {
    Adware,
    Appender,
    Backdoor,
    BootSectorVirus,
    Bot,
    CavityFiller,
    Clicker,
    CompanionVirus,
    DataDiddler,
    Downloader,
    DropperFile,
    FileInfectorVirus,
    ForkBomb,
    Greyware,
    Implant,
    Infector,
    JokeProgram,
    Keylogger,
    KleptographicWorm,
    MacroVirus,
    MassMailer,
    MetamorphicVirus,
    MidInfector,
    MobileCode,
    MultipartiteVirus,
    ParentalControl,
    PasswordStealer,
    PolymorphicVirus,
    PremiumDialerOrSmser,
    Prepender,
    Ransomware,
    RogueAntiMalware,
    Rootkit,
    Scareware,
    SecurityAssessmentTool,
    Shellcode,
    SpaghettiPacker,
    Spyware,
    Trackware,
    TrojanHorse,
    Virus,
    WebBug,
    Wiper,
    Worm,
}

impl MalwareLabel {
    /// The wire name of each variant.
    pub open spec fn wire_name(self) -> Seq<char> {
        match self {
            MalwareLabel::Adware => "adware"@,
            MalwareLabel::Appender => "appender"@,
            MalwareLabel::Backdoor => "backdoor"@,
            MalwareLabel::BootSectorVirus => "boot-sector-virus"@,
            MalwareLabel::Bot => "bot"@,
            MalwareLabel::CavityFiller => "cavity-filler"@,
            MalwareLabel::Clicker => "clicker"@,
            MalwareLabel::CompanionVirus => "companion-virus"@,
            MalwareLabel::DataDiddler => "data-diddler"@,
            MalwareLabel::Downloader => "downloader"@,
            MalwareLabel::DropperFile => "dropper-file"@,
            MalwareLabel::FileInfectorVirus => "file-infector-virus"@,
            MalwareLabel::ForkBomb => "fork-bomb"@,
            MalwareLabel::Greyware => "greyware"@,
            MalwareLabel::Implant => "implant"@,
            MalwareLabel::Infector => "infector"@,
            MalwareLabel::JokeProgram => "joke-program"@,
            MalwareLabel::Keylogger => "keylogger"@,
            MalwareLabel::KleptographicWorm => "kleptographic-worm"@,
            MalwareLabel::MacroVirus => "macro-virus"@,
            MalwareLabel::MassMailer => "mass-mailer"@,
            MalwareLabel::MetamorphicVirus => "metamorphic-virus"@,
            MalwareLabel::MidInfector => "mid-infector"@,
            MalwareLabel::MobileCode => "mobile-code"@,
            MalwareLabel::MultipartiteVirus => "multipartite-virus"@,
            MalwareLabel::ParentalControl => "parental-control"@,
            MalwareLabel::PasswordStealer => "password-stealer"@,
            MalwareLabel::PolymorphicVirus => "polymorphic-virus"@,
            MalwareLabel::PremiumDialerOrSmser => "premium-dialer-or-smser"@,
            MalwareLabel::Prepender => "prepender"@,
            MalwareLabel::Ransomware => "ransomware"@,
            MalwareLabel::RogueAntiMalware => "rogue-anti-malware"@,
            MalwareLabel::Rootkit => "rootkit"@,
            MalwareLabel::Scareware => "scareware"@,
            MalwareLabel::SecurityAssessmentTool => "security-assessment-tool"@,
            MalwareLabel::Shellcode => "shellcode"@,
            MalwareLabel::SpaghettiPacker => "spaghetti-packer"@,
            MalwareLabel::Spyware => "spyware"@,
            MalwareLabel::Trackware => "trackware"@,
            MalwareLabel::TrojanHorse => "trojan-horse"@,
            MalwareLabel::Virus => "virus"@,
            MalwareLabel::WebBug => "web-bug"@,
            MalwareLabel::Wiper => "wiper"@,
            MalwareLabel::Worm => "worm"@,
        }
    }

    /// The wire name of the variant.
    pub fn as_ref(&self) -> (r: &'static str)
        ensures
            r@ == self.wire_name(),
    {
        match self {
            MalwareLabel::Adware => "adware",
            MalwareLabel::Appender => "appender",
            MalwareLabel::Backdoor => "backdoor",
            MalwareLabel::BootSectorVirus => "boot-sector-virus",
            MalwareLabel::Bot => "bot",
            MalwareLabel::CavityFiller => "cavity-filler",
            MalwareLabel::Clicker => "clicker",
            MalwareLabel::CompanionVirus => "companion-virus",
            MalwareLabel::DataDiddler => "data-diddler",
            MalwareLabel::Downloader => "downloader",
            MalwareLabel::DropperFile => "dropper-file",
            MalwareLabel::FileInfectorVirus => "file-infector-virus",
            MalwareLabel::ForkBomb => "fork-bomb",
            MalwareLabel::Greyware => "greyware",
            MalwareLabel::Implant => "implant",
            MalwareLabel::Infector => "infector",
            MalwareLabel::JokeProgram => "joke-program",
            MalwareLabel::Keylogger => "keylogger",
            MalwareLabel::KleptographicWorm => "kleptographic-worm",
            MalwareLabel::MacroVirus => "macro-virus",
            MalwareLabel::MassMailer => "mass-mailer",
            MalwareLabel::MetamorphicVirus => "metamorphic-virus",
            MalwareLabel::MidInfector => "mid-infector",
            MalwareLabel::MobileCode => "mobile-code",
            MalwareLabel::MultipartiteVirus => "multipartite-virus",
            MalwareLabel::ParentalControl => "parental-control",
            MalwareLabel::PasswordStealer => "password-stealer",
            MalwareLabel::PolymorphicVirus => "polymorphic-virus",
            MalwareLabel::PremiumDialerOrSmser => "premium-dialer-or-smser",
            MalwareLabel::Prepender => "prepender",
            MalwareLabel::Ransomware => "ransomware",
            MalwareLabel::RogueAntiMalware => "rogue-anti-malware",
            MalwareLabel::Rootkit => "rootkit",
            MalwareLabel::Scareware => "scareware",
            MalwareLabel::SecurityAssessmentTool => "security-assessment-tool",
            MalwareLabel::Shellcode => "shellcode",
            MalwareLabel::SpaghettiPacker => "spaghetti-packer",
            MalwareLabel::Spyware => "spyware",
            MalwareLabel::Trackware => "trackware",
            MalwareLabel::TrojanHorse => "trojan-horse",
            MalwareLabel::Virus => "virus",
            MalwareLabel::WebBug => "web-bug",
            MalwareLabel::Wiper => "wiper",
            MalwareLabel::Worm => "worm",
        }
    }
}

/// How the entities that a collection groups are associated.
#[derive(Debug, Clone, Copy, PartialEq, Eq, Hash, Structural)]
pub enum EntityAssociation {
    FileSystemEntities,
    NetworkEntities,
    ProcessEntities,
    MemoryEntities,
    IpcEntities,
    DeviceEntities,
    RegistryEntities,
    ServiceEntities,
    PotentialIndicators,
    SameMalwareFamily,
    ClusteredTogether,
    ObservedTogether,
    PartOfIntrusionSet,
    SameMalwareToolkit,
}

} // verus!
