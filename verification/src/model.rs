//! The planner's vocabulary: actions, categories, GPU vendors, Secure Boot
//! states and the errors that planning can end in.
use vstd::prelude::*;
use crate::sets::{ActionSet, GpuVendorSet, StringSet};

verus! {

/// The oldest Fedora release that the planner supports.
pub const MIN_SUPPORTED_FEDORA: u16 = 40;

/// Why a system or a request cannot be planned for.
#[derive(Clone, Copy, Debug, PartialEq, Eq, Structural)]
pub enum PlannerError {
    /// The system is not Fedora, or its release is unknown.
    NonFedora,
    /// The Fedora release (the value held) is older than `MIN_SUPPORTED_FEDORA`,
    /// or a request was made for another release than the running one.
    UnsupportedFedora(u16),
    /// The system is an rpm-ostree (Atomic) variant.
    AtomicSystem,
    /// `dnf` is not available.
    MissingDnf,
    /// No internet connection was found.
    Offline,
    /// The action is not offered on this system.
    UnavailableAction(ActionId),
}

/// The state of UEFI Secure Boot as reported by `mokutil`.
#[derive(Clone, Copy, Debug, PartialEq, Eq, Structural, Hash)]
pub enum SecureBootState {
    Enabled,
    Disabled,
    Unknown,
}

impl Default for SecureBootState {
    fn default() -> (r: Self)
        ensures
            r == SecureBootState::Unknown,
    {
        SecureBootState::Unknown
    }
}

/// The maker of a display controller.
#[derive(Clone, Copy, Debug, PartialEq, Eq, Structural, PartialOrd, Ord, Hash)]
pub enum GpuVendor {
    Nvidia,
    Amd,
    Intel,
    Other,
}

/// The group under which an action is shown.
#[derive(Clone, Copy, Debug, PartialEq, Eq, Structural, Hash)]
pub enum ActionCategory {
    FedoraSetup,
    ExtraApps,
    NerdFonts,
    WebBrowsers,
    DevDatabase,
    OfficeProductivity,
    MediaCreative,
    UtilitiesTools,
    Kde,
}

/// Every change the planner knows how to make, in the order in which a set of
/// them is carried out.
#[derive(Clone, Copy, Debug, PartialEq, Eq, Structural, PartialOrd, Ord, Hash)]
pub enum ActionId {
    SystemUpdate,
    RpmFusionFree,
    RpmFusionNonfree,
    CiscoOpenh264Repo,
    Openh264Packages,
    MultimediaCodecs,
    NvidiaDriver,
    AmdAcceleration,
    IntelAcceleration,
    Flathub,
    Ghostty,
    Zed,
    Vlc,
    ZshDefault,
    Starship,
    FontFiraCode,
    FontZedMono,
    FontJetBrainsMono,
    FontHack,
    FontMeslo,
    FontCaskaydiaCove,
    FontSourceCodePro,
    FontUbuntuMono,
    FontRobotoMono,
    FontIosevka,
    FlatpakChrome,
    FlatpakFirefox,
    FlatpakBrave,
    FlatpakZed,
    FlatpakPodmanDesktop,
    FlatpakDbeaver,
    FlatpakPostman,
    FlatpakOnlyOffice,
    FlatpakObsidian,
    FlatpakBitwarden,
    FlatpakVlc,
    FlatpakObsStudio,
    FlatpakGimp,
    FlatpakKdenlive,
    FlatpakLocalSend,
    FlatpakFlameshot,
    FlatpakFlatseal,
    FlatpakBottles,
}

/// How many distinct actions there are.
pub const ACTION_COUNT: usize = 43;

impl ActionId {
    /// The position of the action in declaration order.
    pub open spec fn ordinal(self) -> int {
        match self {
            ActionId::SystemUpdate => 0,
            ActionId::RpmFusionFree => 1,
            ActionId::RpmFusionNonfree => 2,
            ActionId::CiscoOpenh264Repo => 3,
            ActionId::Openh264Packages => 4,
            ActionId::MultimediaCodecs => 5,
            ActionId::NvidiaDriver => 6,
            ActionId::AmdAcceleration => 7,
            ActionId::IntelAcceleration => 8,
            ActionId::Flathub => 9,
            ActionId::Ghostty => 10,
            ActionId::Zed => 11,
            ActionId::Vlc => 12,
            ActionId::ZshDefault => 13,
            ActionId::Starship => 14,
            ActionId::FontFiraCode => 15,
            ActionId::FontZedMono => 16,
            ActionId::FontJetBrainsMono => 17,
            ActionId::FontHack => 18,
            ActionId::FontMeslo => 19,
            ActionId::FontCaskaydiaCove => 20,
            ActionId::FontSourceCodePro => 21,
            ActionId::FontUbuntuMono => 22,
            ActionId::FontRobotoMono => 23,
            ActionId::FontIosevka => 24,
            ActionId::FlatpakChrome => 25,
            ActionId::FlatpakFirefox => 26,
            ActionId::FlatpakBrave => 27,
            ActionId::FlatpakZed => 28,
            ActionId::FlatpakPodmanDesktop => 29,
            ActionId::FlatpakDbeaver => 30,
            ActionId::FlatpakPostman => 31,
            ActionId::FlatpakOnlyOffice => 32,
            ActionId::FlatpakObsidian => 33,
            ActionId::FlatpakBitwarden => 34,
            ActionId::FlatpakVlc => 35,
            ActionId::FlatpakObsStudio => 36,
            ActionId::FlatpakGimp => 37,
            ActionId::FlatpakKdenlive => 38,
            ActionId::FlatpakLocalSend => 39,
            ActionId::FlatpakFlameshot => 40,
            ActionId::FlatpakFlatseal => 41,
            ActionId::FlatpakBottles => 42,
        }
    }

    /// The position of the action in declaration order.
    pub fn index(self) -> (r: usize)
        ensures
            r == self.ordinal(),
    {
        match self {
            ActionId::SystemUpdate => 0,
            ActionId::RpmFusionFree => 1,
            ActionId::RpmFusionNonfree => 2,
            ActionId::CiscoOpenh264Repo => 3,
            ActionId::Openh264Packages => 4,
            ActionId::MultimediaCodecs => 5,
            ActionId::NvidiaDriver => 6,
            ActionId::AmdAcceleration => 7,
            ActionId::IntelAcceleration => 8,
            ActionId::Flathub => 9,
            ActionId::Ghostty => 10,
            ActionId::Zed => 11,
            ActionId::Vlc => 12,
            ActionId::ZshDefault => 13,
            ActionId::Starship => 14,
            ActionId::FontFiraCode => 15,
            ActionId::FontZedMono => 16,
            ActionId::FontJetBrainsMono => 17,
            ActionId::FontHack => 18,
            ActionId::FontMeslo => 19,
            ActionId::FontCaskaydiaCove => 20,
            ActionId::FontSourceCodePro => 21,
            ActionId::FontUbuntuMono => 22,
            ActionId::FontRobotoMono => 23,
            ActionId::FontIosevka => 24,
            ActionId::FlatpakChrome => 25,
            ActionId::FlatpakFirefox => 26,
            ActionId::FlatpakBrave => 27,
            ActionId::FlatpakZed => 28,
            ActionId::FlatpakPodmanDesktop => 29,
            ActionId::FlatpakDbeaver => 30,
            ActionId::FlatpakPostman => 31,
            ActionId::FlatpakOnlyOffice => 32,
            ActionId::FlatpakObsidian => 33,
            ActionId::FlatpakBitwarden => 34,
            ActionId::FlatpakVlc => 35,
            ActionId::FlatpakObsStudio => 36,
            ActionId::FlatpakGimp => 37,
            ActionId::FlatpakKdenlive => 38,
            ActionId::FlatpakLocalSend => 39,
            ActionId::FlatpakFlameshot => 40,
            ActionId::FlatpakFlatseal => 41,
            ActionId::FlatpakBottles => 42,
        }
    }

    /// The action at a position in declaration order.
    pub fn from_index(i: usize) -> (a: ActionId)
        requires
            i < ACTION_COUNT,
        ensures
            a == action_at(i as int),
            a.ordinal() == i,
    {
        if i == 0 {
            ActionId::SystemUpdate
        } else if i == 1 {
            ActionId::RpmFusionFree
        } else if i == 2 {
            ActionId::RpmFusionNonfree
        } else if i == 3 {
            ActionId::CiscoOpenh264Repo
        } else if i == 4 {
            ActionId::Openh264Packages
        } else if i == 5 {
            ActionId::MultimediaCodecs
        } else if i == 6 {
            ActionId::NvidiaDriver
        } else if i == 7 {
            ActionId::AmdAcceleration
        } else if i == 8 {
            ActionId::IntelAcceleration
        } else if i == 9 {
            ActionId::Flathub
        } else if i == 10 {
            ActionId::Ghostty
        } else if i == 11 {
            ActionId::Zed
        } else if i == 12 {
            ActionId::Vlc
        } else if i == 13 {
            ActionId::ZshDefault
        } else if i == 14 {
            ActionId::Starship
        } else if i == 15 {
            ActionId::FontFiraCode
        } else if i == 16 {
            ActionId::FontZedMono
        } else if i == 17 {
            ActionId::FontJetBrainsMono
        } else if i == 18 {
            ActionId::FontHack
        } else if i == 19 {
            ActionId::FontMeslo
        } else if i == 20 {
            ActionId::FontCaskaydiaCove
        } else if i == 21 {
            ActionId::FontSourceCodePro
        } else if i == 22 {
            ActionId::FontUbuntuMono
        } else if i == 23 {
            ActionId::FontRobotoMono
        } else if i == 24 {
            ActionId::FontIosevka
        } else if i == 25 {
            ActionId::FlatpakChrome
        } else if i == 26 {
            ActionId::FlatpakFirefox
        } else if i == 27 {
            ActionId::FlatpakBrave
        } else if i == 28 {
            ActionId::FlatpakZed
        } else if i == 29 {
            ActionId::FlatpakPodmanDesktop
        } else if i == 30 {
            ActionId::FlatpakDbeaver
        } else if i == 31 {
            ActionId::FlatpakPostman
        } else if i == 32 {
            ActionId::FlatpakOnlyOffice
        } else if i == 33 {
            ActionId::FlatpakObsidian
        } else if i == 34 {
            ActionId::FlatpakBitwarden
        } else if i == 35 {
            ActionId::FlatpakVlc
        } else if i == 36 {
            ActionId::FlatpakObsStudio
        } else if i == 37 {
            ActionId::FlatpakGimp
        } else if i == 38 {
            ActionId::FlatpakKdenlive
        } else if i == 39 {
            ActionId::FlatpakLocalSend
        } else if i == 40 {
            ActionId::FlatpakFlameshot
        } else if i == 41 {
            ActionId::FlatpakFlatseal
        } else {
            ActionId::FlatpakBottles
        }
    }
}

/// The action at a position in declaration order; `SystemUpdate` outside the range.
pub open spec fn action_at(i: int) -> ActionId {
    if i == 0 {
        ActionId::SystemUpdate
    } else if i == 1 {
        ActionId::RpmFusionFree
    } else if i == 2 {
        ActionId::RpmFusionNonfree
    } else if i == 3 {
        ActionId::CiscoOpenh264Repo
    } else if i == 4 {
        ActionId::Openh264Packages
    } else if i == 5 {
        ActionId::MultimediaCodecs
    } else if i == 6 {
        ActionId::NvidiaDriver
    } else if i == 7 {
        ActionId::AmdAcceleration
    } else if i == 8 {
        ActionId::IntelAcceleration
    } else if i == 9 {
        ActionId::Flathub
    } else if i == 10 {
        ActionId::Ghostty
    } else if i == 11 {
        ActionId::Zed
    } else if i == 12 {
        ActionId::Vlc
    } else if i == 13 {
        ActionId::ZshDefault
    } else if i == 14 {
        ActionId::Starship
    } else if i == 15 {
        ActionId::FontFiraCode
    } else if i == 16 {
        ActionId::FontZedMono
    } else if i == 17 {
        ActionId::FontJetBrainsMono
    } else if i == 18 {
        ActionId::FontHack
    } else if i == 19 {
        ActionId::FontMeslo
    } else if i == 20 {
        ActionId::FontCaskaydiaCove
    } else if i == 21 {
        ActionId::FontSourceCodePro
    } else if i == 22 {
        ActionId::FontUbuntuMono
    } else if i == 23 {
        ActionId::FontRobotoMono
    } else if i == 24 {
        ActionId::FontIosevka
    } else if i == 25 {
        ActionId::FlatpakChrome
    } else if i == 26 {
        ActionId::FlatpakFirefox
    } else if i == 27 {
        ActionId::FlatpakBrave
    } else if i == 28 {
        ActionId::FlatpakZed
    } else if i == 29 {
        ActionId::FlatpakPodmanDesktop
    } else if i == 30 {
        ActionId::FlatpakDbeaver
    } else if i == 31 {
        ActionId::FlatpakPostman
    } else if i == 32 {
        ActionId::FlatpakOnlyOffice
    } else if i == 33 {
        ActionId::FlatpakObsidian
    } else if i == 34 {
        ActionId::FlatpakBitwarden
    } else if i == 35 {
        ActionId::FlatpakVlc
    } else if i == 36 {
        ActionId::FlatpakObsStudio
    } else if i == 37 {
        ActionId::FlatpakGimp
    } else if i == 38 {
        ActionId::FlatpakKdenlive
    } else if i == 39 {
        ActionId::FlatpakLocalSend
    } else if i == 40 {
        ActionId::FlatpakFlameshot
    } else if i == 41 {
        ActionId::FlatpakFlatseal
    } else if i == 42 {
        ActionId::FlatpakBottles
    } else {
        ActionId::SystemUpdate
    }
}
/// What was found out about the system.
#[derive(Clone, Debug)]
pub struct SystemInfo {
    pub os_id: String,
    pub os_name: String,
    pub fedora_version: Option<u16>,
    pub arch: String,
    pub is_atomic: bool,
    pub has_dnf: bool,
    pub has_internet: bool,
    pub secure_boot: SecureBootState,
    pub gpu_vendors: GpuVendorSet,
    pub installed_packages: StringSet,
    pub enabled_repos: StringSet,
    pub flatpak_remotes: StringSet,
    pub flatpak_apps: StringSet,
}

impl Default for SystemInfo {
    /// A system of which nothing is known.
    fn default() -> (r: Self)
        ensures
            r.os_id@ == Seq::<char>::empty(),
            r.os_name@ == Seq::<char>::empty(),
            r.fedora_version is None,
            r.arch@ == Seq::<char>::empty(),
            !r.is_atomic,
            !r.has_dnf,
            !r.has_internet,
            r.secure_boot == SecureBootState::Unknown,
            r.gpu_vendors@ == Set::<GpuVendor>::empty(),
            r.installed_packages@ == Set::<Seq<char>>::empty(),
            r.enabled_repos@ == Set::<Seq<char>>::empty(),
            r.flatpak_remotes@ == Set::<Seq<char>>::empty(),
            r.flatpak_apps@ == Set::<Seq<char>>::empty(),
    {
        SystemInfo {
            os_id: String::new(),
            os_name: String::new(),
            fedora_version: None,
            arch: String::new(),
            is_atomic: false,
            has_dnf: false,
            has_internet: false,
            secure_boot: SecureBootState::Unknown,
            gpu_vendors: GpuVendorSet::new(),
            installed_packages: StringSet::new(),
            enabled_repos: StringSet::new(),
            flatpak_remotes: StringSet::new(),
            flatpak_apps: StringSet::new(),
        }
    }
}

/// What was found out about the user's home and session, which decides some
/// actions beside `SystemInfo`.
#[derive(Clone, Debug)]
pub struct HostState {
    /// The user that per-user installers run as, if one is known.
    pub target_user: Option<String>,
    /// The home directory given for that user, if one was given.
    pub target_home: Option<String>,
    /// Whether Zed is installed in the home directory.
    pub zed_installed: bool,
    /// Whether Starship is installed, configured and hooked into bash and zsh.
    pub starship_configured: bool,
    /// Whether the user's login shell is zsh.
    pub zsh_is_default: bool,
    /// The Nerd Font actions whose font directory exists.
    pub installed_fonts: ActionSet,
}

/// Positions and actions correspond one to one.
pub proof fn lemma_ordinal_roundtrip(a: ActionId, i: int)
    ensures
        0 <= a.ordinal() < ACTION_COUNT,
        action_at(a.ordinal()) == a,
        0 <= i < ACTION_COUNT ==> action_at(i).ordinal() == i,
{
}

} // verus!
