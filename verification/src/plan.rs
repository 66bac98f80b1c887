//! The plan: which actions a system is offered, with their texts and whether
//! each is already done or selected by default.
use vstd::prelude::*;
use crate::command::CommandView;
use crate::commands::{action_commands, flatpak_app, flatpak_app_id, has_gpu, installed, repo_on};
use crate::model::{ActionCategory, ActionId, GpuVendor, HostState, PlannerError, SecureBootState, SystemInfo, MIN_SUPPORTED_FEDORA};

verus! {

#[verifier::external_type_specification]
#[verifier::external_body]
pub struct ExUuid(uuid::Uuid);

/// `uuid::Uuid::new_v4`: a fresh random (version 4) identifier. The value
/// comes from the operating system's random source, so nothing is stated of
/// it; the crate panics if that source fails.
#[verifier::external_body]
fn new_plan_id() -> uuid::Uuid {
    uuid::Uuid::new_v4()
}

/// Whether the system can be planned for, and its Fedora release if so.
pub open spec fn supported_version(info: SystemInfo) -> Result<u16, PlannerError> {
    if info.os_id@ != "fedora"@ {
        Err(PlannerError::NonFedora)
    } else if info.is_atomic {
        Err(PlannerError::AtomicSystem)
    } else if !info.has_dnf {
        Err(PlannerError::MissingDnf)
    } else if !info.has_internet {
        Err(PlannerError::Offline)
    } else {
        match info.fedora_version {
            None => Err(PlannerError::NonFedora),
            Some(v) => if v < MIN_SUPPORTED_FEDORA {
                Err(PlannerError::UnsupportedFedora(v))
            } else {
                Ok(v)
            },
        }
    }
}

impl SystemInfo {
    /// The Fedora release, when the system is a supported, mutable Fedora
    /// with dnf and a network connection; else the first reason why not, in
    /// the order: not Fedora, Atomic, no dnf, offline, unknown or too old
    /// release.
    pub fn validate_supported(&self) -> (r: Result<u16, PlannerError>)
        ensures
            r == supported_version(*self),
    {
        let fedora = String::from_str("fedora");
        if !(self.os_id == fedora) {
            return Err(PlannerError::NonFedora);
        }
        if self.is_atomic {
            return Err(PlannerError::AtomicSystem);
        }
        if !self.has_dnf {
            return Err(PlannerError::MissingDnf);
        }
        if !self.has_internet {
            return Err(PlannerError::Offline);
        }
        let version = match self.fedora_version {
            Some(v) => v,
            None => {
                return Err(PlannerError::NonFedora);
            },
        };
        if version < MIN_SUPPORTED_FEDORA {
            return Err(PlannerError::UnsupportedFedora(version));
        }
        Ok(version)
    }
}

/// One entry of a plan.
#[derive(Clone, Debug)]
pub struct Action {
    pub id: ActionId,
    pub category: ActionCategory,
    pub title: String,
    pub description: String,
    pub recommended: bool,
    pub selected_by_default: bool,
    pub already_complete: bool,
    pub warning: Option<String>,
}

/// An action as values: id, category, title, description, recommended,
/// selected by default, already complete, warning.
pub type ActionView = (ActionId, ActionCategory, Seq<char>, Seq<char>, bool, bool, bool, Option<Seq<char>>);

impl View for Action {
    type V = ActionView;

    open spec fn view(&self) -> ActionView {
        (
            self.id,
            self.category,
            self.title@,
            self.description@,
            self.recommended,
            self.selected_by_default,
            self.already_complete,
            match self.warning {
                Some(w) => Some(w@),
                None => None,
            },
        )
    }
}

/// The actions offered to a system, with a fresh identifier.
#[derive(Debug)]
pub struct Plan {
    pub plan_id: uuid::Uuid,
    pub fedora_version: u16,
    pub actions: Vec<Action>,
}

/// The views of a list of actions.
pub open spec fn action_views(s: Seq<Action>) -> Seq<ActionView> {
    s.map_values(|a: Action| a@)
}

/// The group under which an action is shown.
pub open spec fn category_of(a: ActionId) -> ActionCategory {
    match a {
        ActionId::RpmFusionFree => ActionCategory::FedoraSetup,
        ActionId::RpmFusionNonfree => ActionCategory::FedoraSetup,
        ActionId::CiscoOpenh264Repo => ActionCategory::FedoraSetup,
        ActionId::Openh264Packages => ActionCategory::FedoraSetup,
        ActionId::MultimediaCodecs => ActionCategory::FedoraSetup,
        ActionId::NvidiaDriver => ActionCategory::FedoraSetup,
        ActionId::AmdAcceleration => ActionCategory::FedoraSetup,
        ActionId::IntelAcceleration => ActionCategory::FedoraSetup,
        ActionId::Flathub => ActionCategory::FedoraSetup,
        ActionId::Ghostty => ActionCategory::ExtraApps,
        ActionId::Zed => ActionCategory::ExtraApps,
        ActionId::Vlc => ActionCategory::ExtraApps,
        ActionId::ZshDefault => ActionCategory::ExtraApps,
        ActionId::Starship => ActionCategory::ExtraApps,
        ActionId::FlatpakChrome => ActionCategory::WebBrowsers,
        ActionId::FlatpakFirefox => ActionCategory::WebBrowsers,
        ActionId::FlatpakBrave => ActionCategory::WebBrowsers,
        ActionId::FlatpakZed => ActionCategory::DevDatabase,
        ActionId::FlatpakPodmanDesktop => ActionCategory::DevDatabase,
        ActionId::FlatpakDbeaver => ActionCategory::DevDatabase,
        ActionId::FlatpakPostman => ActionCategory::DevDatabase,
        ActionId::FlatpakOnlyOffice => ActionCategory::OfficeProductivity,
        ActionId::FlatpakObsidian => ActionCategory::OfficeProductivity,
        ActionId::FlatpakBitwarden => ActionCategory::OfficeProductivity,
        ActionId::FlatpakVlc => ActionCategory::MediaCreative,
        ActionId::FlatpakObsStudio => ActionCategory::MediaCreative,
        ActionId::FlatpakGimp => ActionCategory::MediaCreative,
        ActionId::FlatpakKdenlive => ActionCategory::MediaCreative,
        ActionId::FlatpakLocalSend => ActionCategory::UtilitiesTools,
        ActionId::FlatpakFlameshot => ActionCategory::UtilitiesTools,
        ActionId::FlatpakFlatseal => ActionCategory::UtilitiesTools,
        ActionId::FlatpakBottles => ActionCategory::UtilitiesTools,
        ActionId::SystemUpdate => ActionCategory::FedoraSetup,
        _ => ActionCategory::NerdFonts,
    }
}

/// The group under which an action is shown.
pub fn action_category(a: ActionId) -> (r: ActionCategory)
    ensures
        r == category_of(a),
{
    match a {
        ActionId::RpmFusionFree => ActionCategory::FedoraSetup,
        ActionId::RpmFusionNonfree => ActionCategory::FedoraSetup,
        ActionId::CiscoOpenh264Repo => ActionCategory::FedoraSetup,
        ActionId::Openh264Packages => ActionCategory::FedoraSetup,
        ActionId::MultimediaCodecs => ActionCategory::FedoraSetup,
        ActionId::NvidiaDriver => ActionCategory::FedoraSetup,
        ActionId::AmdAcceleration => ActionCategory::FedoraSetup,
        ActionId::IntelAcceleration => ActionCategory::FedoraSetup,
        ActionId::Flathub => ActionCategory::FedoraSetup,
        ActionId::Ghostty => ActionCategory::ExtraApps,
        ActionId::Zed => ActionCategory::ExtraApps,
        ActionId::Vlc => ActionCategory::ExtraApps,
        ActionId::ZshDefault => ActionCategory::ExtraApps,
        ActionId::Starship => ActionCategory::ExtraApps,
        ActionId::FlatpakChrome => ActionCategory::WebBrowsers,
        ActionId::FlatpakFirefox => ActionCategory::WebBrowsers,
        ActionId::FlatpakBrave => ActionCategory::WebBrowsers,
        ActionId::FlatpakZed => ActionCategory::DevDatabase,
        ActionId::FlatpakPodmanDesktop => ActionCategory::DevDatabase,
        ActionId::FlatpakDbeaver => ActionCategory::DevDatabase,
        ActionId::FlatpakPostman => ActionCategory::DevDatabase,
        ActionId::FlatpakOnlyOffice => ActionCategory::OfficeProductivity,
        ActionId::FlatpakObsidian => ActionCategory::OfficeProductivity,
        ActionId::FlatpakBitwarden => ActionCategory::OfficeProductivity,
        ActionId::FlatpakVlc => ActionCategory::MediaCreative,
        ActionId::FlatpakObsStudio => ActionCategory::MediaCreative,
        ActionId::FlatpakGimp => ActionCategory::MediaCreative,
        ActionId::FlatpakKdenlive => ActionCategory::MediaCreative,
        ActionId::FlatpakLocalSend => ActionCategory::UtilitiesTools,
        ActionId::FlatpakFlameshot => ActionCategory::UtilitiesTools,
        ActionId::FlatpakFlatseal => ActionCategory::UtilitiesTools,
        ActionId::FlatpakBottles => ActionCategory::UtilitiesTools,
        ActionId::SystemUpdate => ActionCategory::FedoraSetup,
        _ => ActionCategory::NerdFonts,
    }
}

/// The title shown for an action.
pub open spec fn title_of(a: ActionId) -> Seq<char> {
    match a {
        ActionId::RpmFusionFree => "RPM Fusion Free"@,
        ActionId::RpmFusionNonfree => "RPM Fusion Nonfree"@,
        ActionId::CiscoOpenh264Repo => "Cisco OpenH264 repository"@,
        ActionId::Openh264Packages => "OpenH264 packages"@,
        ActionId::MultimediaCodecs => "Multimedia codecs"@,
        ActionId::NvidiaDriver => "NVIDIA driver"@,
        ActionId::AmdAcceleration => "AMD media acceleration"@,
        ActionId::IntelAcceleration => "Intel media acceleration"@,
        ActionId::Flathub => "Flathub"@,
        ActionId::Ghostty => "Ghostty terminal"@,
        ActionId::Zed => "Zed editor"@,
        ActionId::Vlc => "VLC media player"@,
        ActionId::ZshDefault => "Zsh as default shell"@,
        ActionId::Starship => "Starship prompt"@,
        ActionId::FlatpakChrome => "Google Chrome"@,
        ActionId::FlatpakFirefox => "Firefox (Flatpak)"@,
        ActionId::FlatpakBrave => "Brave Browser"@,
        ActionId::FlatpakZed => "Zed IDE (Flatpak)"@,
        ActionId::FlatpakPodmanDesktop => "Podman Desktop"@,
        ActionId::FlatpakDbeaver => "DBeaver Community"@,
        ActionId::FlatpakPostman => "Postman"@,
        ActionId::FlatpakOnlyOffice => "OnlyOffice"@,
        ActionId::FlatpakObsidian => "Obsidian"@,
        ActionId::FlatpakBitwarden => "Bitwarden (Flatpak)"@,
        ActionId::FlatpakVlc => "VLC Media Player (Flatpak)"@,
        ActionId::FlatpakObsStudio => "OBS Studio"@,
        ActionId::FlatpakGimp => "GIMP (Flatpak)"@,
        ActionId::FlatpakKdenlive => "Kdenlive (Flatpak)"@,
        ActionId::FlatpakLocalSend => "LocalSend"@,
        ActionId::FlatpakFlameshot => "Flameshot (Flatpak)"@,
        ActionId::FlatpakFlatseal => "Flatseal"@,
        ActionId::FlatpakBottles => "Bottles"@,
        ActionId::FontFiraCode => "FiraCode"@,
        ActionId::FontZedMono => "ZedMono"@,
        ActionId::FontJetBrainsMono => "JetBrainsMono"@,
        ActionId::FontHack => "Hack"@,
        ActionId::FontMeslo => "Meslo"@,
        ActionId::FontCaskaydiaCove => "CaskaydiaCove"@,
        ActionId::FontSourceCodePro => "SourceCodePro"@,
        ActionId::FontUbuntuMono => "UbuntuMono"@,
        ActionId::FontRobotoMono => "RobotoMono"@,
        ActionId::FontIosevka => "Iosevka"@,
        ActionId::SystemUpdate => "System update"@,
    }
}

/// The title shown for an action.
pub fn action_title(a: ActionId) -> (r: &'static str)
    ensures
        r@ == title_of(a),
{
    match a {
        ActionId::RpmFusionFree => "RPM Fusion Free",
        ActionId::RpmFusionNonfree => "RPM Fusion Nonfree",
        ActionId::CiscoOpenh264Repo => "Cisco OpenH264 repository",
        ActionId::Openh264Packages => "OpenH264 packages",
        ActionId::MultimediaCodecs => "Multimedia codecs",
        ActionId::NvidiaDriver => "NVIDIA driver",
        ActionId::AmdAcceleration => "AMD media acceleration",
        ActionId::IntelAcceleration => "Intel media acceleration",
        ActionId::Flathub => "Flathub",
        ActionId::Ghostty => "Ghostty terminal",
        ActionId::Zed => "Zed editor",
        ActionId::Vlc => "VLC media player",
        ActionId::ZshDefault => "Zsh as default shell",
        ActionId::Starship => "Starship prompt",
        ActionId::FlatpakChrome => "Google Chrome",
        ActionId::FlatpakFirefox => "Firefox (Flatpak)",
        ActionId::FlatpakBrave => "Brave Browser",
        ActionId::FlatpakZed => "Zed IDE (Flatpak)",
        ActionId::FlatpakPodmanDesktop => "Podman Desktop",
        ActionId::FlatpakDbeaver => "DBeaver Community",
        ActionId::FlatpakPostman => "Postman",
        ActionId::FlatpakOnlyOffice => "OnlyOffice",
        ActionId::FlatpakObsidian => "Obsidian",
        ActionId::FlatpakBitwarden => "Bitwarden (Flatpak)",
        ActionId::FlatpakVlc => "VLC Media Player (Flatpak)",
        ActionId::FlatpakObsStudio => "OBS Studio",
        ActionId::FlatpakGimp => "GIMP (Flatpak)",
        ActionId::FlatpakKdenlive => "Kdenlive (Flatpak)",
        ActionId::FlatpakLocalSend => "LocalSend",
        ActionId::FlatpakFlameshot => "Flameshot (Flatpak)",
        ActionId::FlatpakFlatseal => "Flatseal",
        ActionId::FlatpakBottles => "Bottles",
        ActionId::FontFiraCode => "FiraCode",
        ActionId::FontZedMono => "ZedMono",
        ActionId::FontJetBrainsMono => "JetBrainsMono",
        ActionId::FontHack => "Hack",
        ActionId::FontMeslo => "Meslo",
        ActionId::FontCaskaydiaCove => "CaskaydiaCove",
        ActionId::FontSourceCodePro => "SourceCodePro",
        ActionId::FontUbuntuMono => "UbuntuMono",
        ActionId::FontRobotoMono => "RobotoMono",
        ActionId::FontIosevka => "Iosevka",
        ActionId::SystemUpdate => "System update",
    }
}

/// The description shown for an action.
pub open spec fn description_of(a: ActionId) -> Seq<char> {
    match a {
        ActionId::RpmFusionFree => "Enable the RPM Fusion Free repository for Fedora-compatible packages."@,
        ActionId::RpmFusionNonfree => "Enable the RPM Fusion Nonfree repository for codecs and vendor drivers."@,
        ActionId::CiscoOpenh264Repo => "Enable Fedora's Cisco OpenH264 repository."@,
        ActionId::Openh264Packages => "Install GStreamer and Firefox OpenH264 integration packages."@,
        ActionId::MultimediaCodecs => "Install RPM Fusion multimedia packages and replace ffmpeg-free when needed."@,
        ActionId::NvidiaDriver => "Install RPM Fusion NVIDIA akmod driver and CUDA support package."@,
        ActionId::AmdAcceleration => "Install RPM Fusion Mesa VA-API and VDPAU freeworld drivers."@,
        ActionId::IntelAcceleration => "Install Intel media driver packages when available."@,
        ActionId::Flathub => "Install Flatpak if needed and add the Flathub remote."@,
        ActionId::Ghostty => "Enable the scottames/ghostty COPR repository and install Ghostty."@,
        ActionId::Zed => "Install Zed for the current user using the official zed.dev install script."@,
        ActionId::Vlc => "Install VLC. This usually requires RPM Fusion to be enabled first."@,
        ActionId::ZshDefault => "Install zsh and set it as the default shell for the current user."@,
        ActionId::Starship => "Install Starship, enable it for bash and zsh, and apply the Catppuccin Powerline preset."@,
        ActionId::FlatpakChrome => "Install Google Chrome web browser."@,
        ActionId::FlatpakFirefox => "Install Mozilla Firefox web browser."@,
        ActionId::FlatpakBrave => "Install Brave web browser."@,
        ActionId::FlatpakZed => "Install Zed developer IDE."@,
        ActionId::FlatpakPodmanDesktop => "Install Podman Desktop container tool."@,
        ActionId::FlatpakDbeaver => "Install DBeaver Community database manager."@,
        ActionId::FlatpakPostman => "Install Postman API platform client."@,
        ActionId::FlatpakOnlyOffice => "Install OnlyOffice desktop editors."@,
        ActionId::FlatpakObsidian => "Install Obsidian knowledge base app."@,
        ActionId::FlatpakBitwarden => "Install Bitwarden password manager desktop client."@,
        ActionId::FlatpakVlc => "Install VLC media player."@,
        ActionId::FlatpakObsStudio => "Install OBS Studio for live streaming and recording."@,
        ActionId::FlatpakGimp => "Install GNU Image Manipulation Program."@,
        ActionId::FlatpakKdenlive => "Install Kdenlive video editor."@,
        ActionId::FlatpakLocalSend => "Install LocalSend file sharing tool."@,
        ActionId::FlatpakFlameshot => "Install Flameshot screenshot tool."@,
        ActionId::FlatpakFlatseal => "Install Flatseal Flatpak permission manager."@,
        ActionId::FlatpakBottles => "Install Bottles for running Windows software."@,
        ActionId::SystemUpdate => "Upgrade all installed packages."@,
        _ => "Install the "@ + title_of(a) + " Nerd Font from the Nerd Fonts v3.4.0 release."@,
    }
}

/// The fixed description of an action that is not a font.
fn fixed_description(a: ActionId) -> (r: Option<&'static str>)
    ensures
        match r {
            Some(d) => description_of(a) == d@,
            None => description_of(a) == "Install the "@ + title_of(a) + " Nerd Font from the Nerd Fonts v3.4.0 release."@,
        },
{
    match a {
        ActionId::RpmFusionFree => Some("Enable the RPM Fusion Free repository for Fedora-compatible packages."),
        ActionId::RpmFusionNonfree => Some("Enable the RPM Fusion Nonfree repository for codecs and vendor drivers."),
        ActionId::CiscoOpenh264Repo => Some("Enable Fedora's Cisco OpenH264 repository."),
        ActionId::Openh264Packages => Some("Install GStreamer and Firefox OpenH264 integration packages."),
        ActionId::MultimediaCodecs => Some("Install RPM Fusion multimedia packages and replace ffmpeg-free when needed."),
        ActionId::NvidiaDriver => Some("Install RPM Fusion NVIDIA akmod driver and CUDA support package."),
        ActionId::AmdAcceleration => Some("Install RPM Fusion Mesa VA-API and VDPAU freeworld drivers."),
        ActionId::IntelAcceleration => Some("Install Intel media driver packages when available."),
        ActionId::Flathub => Some("Install Flatpak if needed and add the Flathub remote."),
        ActionId::Ghostty => Some("Enable the scottames/ghostty COPR repository and install Ghostty."),
        ActionId::Zed => Some("Install Zed for the current user using the official zed.dev install script."),
        ActionId::Vlc => Some("Install VLC. This usually requires RPM Fusion to be enabled first."),
        ActionId::ZshDefault => Some("Install zsh and set it as the default shell for the current user."),
        ActionId::Starship => Some("Install Starship, enable it for bash and zsh, and apply the Catppuccin Powerline preset."),
        ActionId::FlatpakChrome => Some("Install Google Chrome web browser."),
        ActionId::FlatpakFirefox => Some("Install Mozilla Firefox web browser."),
        ActionId::FlatpakBrave => Some("Install Brave web browser."),
        ActionId::FlatpakZed => Some("Install Zed developer IDE."),
        ActionId::FlatpakPodmanDesktop => Some("Install Podman Desktop container tool."),
        ActionId::FlatpakDbeaver => Some("Install DBeaver Community database manager."),
        ActionId::FlatpakPostman => Some("Install Postman API platform client."),
        ActionId::FlatpakOnlyOffice => Some("Install OnlyOffice desktop editors."),
        ActionId::FlatpakObsidian => Some("Install Obsidian knowledge base app."),
        ActionId::FlatpakBitwarden => Some("Install Bitwarden password manager desktop client."),
        ActionId::FlatpakVlc => Some("Install VLC media player."),
        ActionId::FlatpakObsStudio => Some("Install OBS Studio for live streaming and recording."),
        ActionId::FlatpakGimp => Some("Install GNU Image Manipulation Program."),
        ActionId::FlatpakKdenlive => Some("Install Kdenlive video editor."),
        ActionId::FlatpakLocalSend => Some("Install LocalSend file sharing tool."),
        ActionId::FlatpakFlameshot => Some("Install Flameshot screenshot tool."),
        ActionId::FlatpakFlatseal => Some("Install Flatseal Flatpak permission manager."),
        ActionId::FlatpakBottles => Some("Install Bottles for running Windows software."),
        ActionId::SystemUpdate => Some("Upgrade all installed packages."),
        _ => None,
    }
}

/// The description shown for an action.
pub fn action_description(a: ActionId) -> (r: String)
    ensures
        r@ == description_of(a),
{
    match fixed_description(a) {
        Some(d) => String::from_str(d),
        None => {
            let mut r = String::from_str("Install the ");
            r.append(action_title(a));
            r.append(" Nerd Font from the Nerd Fonts v3.4.0 release.");
            r
        },
    }
}

/// Whether an action is recommended: the Fedora setup actions are.
pub open spec fn recommended_of(a: ActionId) -> bool {
    category_of(a) == ActionCategory::FedoraSetup && a != ActionId::SystemUpdate
}

/// The warning shown for an action, if any.
pub open spec fn warning_of(a: ActionId, info: SystemInfo) -> Option<Seq<char>> {
    match a {
        ActionId::NvidiaDriver => if info.secure_boot == SecureBootState::Enabled {
            Some("Secure Boot is enabled. NVIDIA kernel modules may require MOK enrollment and a reboot before they load."@)
        } else {
            None
        },
        ActionId::Ghostty => Some("This enables a third-party COPR repository."@),
        ActionId::Zed => Some("This runs the official installer from zed.dev as your user."@),
        ActionId::ZshDefault => Some("You may need to log out and back in for the default shell change to apply."@),
        ActionId::Starship => Some("This runs the official installer from starship.rs."@),
        _ => None,
    }
}

/// The warning shown for an action, if any.
fn action_warning(a: ActionId, info: &SystemInfo) -> (r: Option<String>)
    ensures
        match r {
            Some(w) => warning_of(a, *info) == Some(w@),
            None => warning_of(a, *info) is None,
        },
{
    match a {
        ActionId::NvidiaDriver => if info.secure_boot == SecureBootState::Enabled {
            Some(String::from_str("Secure Boot is enabled. NVIDIA kernel modules may require MOK enrollment and a reboot before they load."))
        } else {
            None
        },
        ActionId::Ghostty => Some(String::from_str("This enables a third-party COPR repository.")),
        ActionId::Zed => Some(String::from_str("This runs the official installer from zed.dev as your user.")),
        ActionId::ZshDefault => Some(String::from_str("You may need to log out and back in for the default shell change to apply.")),
        ActionId::Starship => Some(String::from_str("This runs the official installer from starship.rs.")),
        _ => None,
    }
}

/// Whether the goal of an action is already reached on the system.
pub open spec fn complete_of(a: ActionId, info: SystemInfo, host: HostState) -> bool {
    match a {
        ActionId::SystemUpdate => false,
        ActionId::RpmFusionFree => repo_on(info, "rpmfusion-free"),
        ActionId::RpmFusionNonfree => repo_on(info, "rpmfusion-nonfree"),
        ActionId::CiscoOpenh264Repo => repo_on(info, "fedora-cisco-openh264"),
        ActionId::Openh264Packages => installed(info, "gstreamer1-plugin-openh264") && installed(info, "mozilla-openh264"),
        ActionId::MultimediaCodecs => installed(info, "ffmpeg") && installed(info, "gstreamer1-plugins-ugly"),
        ActionId::NvidiaDriver => installed(info, "akmod-nvidia"),
        ActionId::AmdAcceleration => installed(info, "mesa-va-drivers-freeworld") && installed(info, "mesa-vdpau-drivers-freeworld"),
        ActionId::IntelAcceleration => installed(info, "intel-media-driver"),
        ActionId::Flathub => info.flatpak_remotes@.contains("flathub"@),
        ActionId::Ghostty => installed(info, "ghostty"),
        ActionId::Zed => host.zed_installed,
        ActionId::Vlc => installed(info, "vlc"),
        ActionId::ZshDefault => host.zsh_is_default,
        ActionId::Starship => host.starship_configured,
        _ => match flatpak_app(a) {
            Some(app) => info.flatpak_apps@.contains(app),
            None => host.installed_fonts@.contains(a),
        },
    }
}

/// Whether an action is ticked when the plan is shown: the recommended
/// actions that are not yet done, except the NVIDIA driver while Secure Boot
/// is enabled.
pub open spec fn selected_of(a: ActionId, info: SystemInfo, host: HostState) -> bool {
    if a == ActionId::NvidiaDriver {
        info.secure_boot != SecureBootState::Enabled && !installed(info, "akmod-nvidia")
    } else {
        recommended_of(a) && !complete_of(a, info, host)
    }
}

/// Whether the goal of an action is already reached on the system.
fn action_complete(a: ActionId, info: &SystemInfo, host: &HostState) -> (r: bool)
    ensures
        r == complete_of(a, *info, *host),
{
    match a {
        ActionId::SystemUpdate => false,
        ActionId::RpmFusionFree => info.enabled_repos.contains("rpmfusion-free"),
        ActionId::RpmFusionNonfree => info.enabled_repos.contains("rpmfusion-nonfree"),
        ActionId::CiscoOpenh264Repo => info.enabled_repos.contains("fedora-cisco-openh264"),
        ActionId::Openh264Packages => info.installed_packages.contains("gstreamer1-plugin-openh264")
            && info.installed_packages.contains("mozilla-openh264"),
        ActionId::MultimediaCodecs => info.installed_packages.contains("ffmpeg")
            && info.installed_packages.contains("gstreamer1-plugins-ugly"),
        ActionId::NvidiaDriver => info.installed_packages.contains("akmod-nvidia"),
        ActionId::AmdAcceleration => info.installed_packages.contains("mesa-va-drivers-freeworld")
            && info.installed_packages.contains("mesa-vdpau-drivers-freeworld"),
        ActionId::IntelAcceleration => info.installed_packages.contains("intel-media-driver"),
        ActionId::Flathub => info.flatpak_remotes.contains("flathub"),
        ActionId::Ghostty => info.installed_packages.contains("ghostty"),
        ActionId::Zed => host.zed_installed,
        ActionId::Vlc => info.installed_packages.contains("vlc"),
        ActionId::ZshDefault => host.zsh_is_default,
        ActionId::Starship => host.starship_configured,
        _ => match flatpak_app_id(a) {
            Some(app) => info.flatpak_apps.contains(app),
            None => host.installed_fonts.contains(a),
        },
    }
}

/// An action as it appears in the plan for the system.
pub open spec fn action_entry(a: ActionId, info: SystemInfo, host: HostState) -> ActionView {
    (
        a,
        category_of(a),
        title_of(a),
        description_of(a),
        recommended_of(a),
        selected_of(a, info, host),
        complete_of(a, info, host),
        warning_of(a, info),
    )
}

/// An action as it appears in the plan for the system.
fn make_action(a: ActionId, info: &SystemInfo, host: &HostState) -> (r: Action)
    ensures
        r@ == action_entry(a, *info, *host),
{
    let complete = action_complete(a, info, host);
    let category = action_category(a);
    let recommended = category == ActionCategory::FedoraSetup && a != ActionId::SystemUpdate;
    let selected = if a == ActionId::NvidiaDriver {
        info.secure_boot != SecureBootState::Enabled && !info.installed_packages.contains("akmod-nvidia")
    } else {
        recommended && !complete
    };
    let warning = action_warning(a, info);
    let r = Action {
        id: a,
        category,
        title: String::from_str(action_title(a)),
        description: action_description(a),
        recommended,
        selected_by_default: selected,
        already_complete: complete,
        warning,
    };
    proof {
        assert(r@.7 == warning_of(a, *info));
    }
    r
}

/// The actions offered to a system, in the order shown: the repository and
/// codec actions, the driver action of each GPU vendor found, Flathub, the
/// extra tools, the Flatpak applications, then the Nerd Fonts.
pub open spec fn plan_ids(info: SystemInfo) -> Seq<ActionId> {
    core_ids()
        + (if has_gpu(info, GpuVendor::Nvidia) { seq![ActionId::NvidiaDriver] } else { seq![] })
        + (if has_gpu(info, GpuVendor::Amd) { seq![ActionId::AmdAcceleration] } else { seq![] })
        + (if has_gpu(info, GpuVendor::Intel) { seq![ActionId::IntelAcceleration] } else { seq![] })
        + extra_ids()
        + font_ids()
}

/// The repository and codec actions.
pub open spec fn core_ids() -> Seq<ActionId> {
    seq![ActionId::RpmFusionFree, ActionId::RpmFusionNonfree, ActionId::CiscoOpenh264Repo, ActionId::Openh264Packages, ActionId::MultimediaCodecs]
}

/// Flathub, the extra tools and the Flatpak applications.
pub open spec fn extra_ids() -> Seq<ActionId> {
    seq![ActionId::Flathub, ActionId::Ghostty, ActionId::Zed, ActionId::Vlc, ActionId::ZshDefault, ActionId::Starship, ActionId::FlatpakChrome, ActionId::FlatpakFirefox, ActionId::FlatpakBrave, ActionId::FlatpakZed, ActionId::FlatpakPodmanDesktop, ActionId::FlatpakDbeaver, ActionId::FlatpakPostman, ActionId::FlatpakOnlyOffice, ActionId::FlatpakObsidian, ActionId::FlatpakBitwarden, ActionId::FlatpakVlc, ActionId::FlatpakObsStudio, ActionId::FlatpakGimp, ActionId::FlatpakKdenlive, ActionId::FlatpakLocalSend, ActionId::FlatpakFlameshot, ActionId::FlatpakFlatseal, ActionId::FlatpakBottles]
}

/// The Nerd Font actions.
pub open spec fn font_ids() -> Seq<ActionId> {
    seq![ActionId::FontFiraCode, ActionId::FontZedMono, ActionId::FontJetBrainsMono, ActionId::FontHack, ActionId::FontMeslo, ActionId::FontCaskaydiaCove, ActionId::FontSourceCodePro, ActionId::FontUbuntuMono, ActionId::FontRobotoMono, ActionId::FontIosevka]
}

/// The entries of the plan for a system.
pub open spec fn plan_entries(info: SystemInfo, host: HostState) -> Seq<ActionView> {
    plan_ids(info).map_values(|a: ActionId| action_entry(a, info, host))
}

/// The actions offered to a system, in the order shown.
pub(crate) fn plan_action_ids(info: &SystemInfo) -> (r: Vec<ActionId>)
    ensures
        r@ == plan_ids(*info),
{
    let mut ids: Vec<ActionId> = vec![ActionId::RpmFusionFree, ActionId::RpmFusionNonfree, ActionId::CiscoOpenh264Repo, ActionId::Openh264Packages, ActionId::MultimediaCodecs];
    let ghost start = ids@;
    if info.gpu_vendors.contains(GpuVendor::Nvidia) {
        ids.push(ActionId::NvidiaDriver);
    }
    let ghost a = ids@;
    if info.gpu_vendors.contains(GpuVendor::Amd) {
        ids.push(ActionId::AmdAcceleration);
    }
    let ghost b = ids@;
    if info.gpu_vendors.contains(GpuVendor::Intel) {
        ids.push(ActionId::IntelAcceleration);
    }
    let ghost c = ids@;
    let mut rest: Vec<ActionId> = vec![ActionId::Flathub, ActionId::Ghostty, ActionId::Zed, ActionId::Vlc, ActionId::ZshDefault, ActionId::Starship, ActionId::FlatpakChrome, ActionId::FlatpakFirefox, ActionId::FlatpakBrave, ActionId::FlatpakZed, ActionId::FlatpakPodmanDesktop, ActionId::FlatpakDbeaver, ActionId::FlatpakPostman, ActionId::FlatpakOnlyOffice, ActionId::FlatpakObsidian, ActionId::FlatpakBitwarden, ActionId::FlatpakVlc, ActionId::FlatpakObsStudio, ActionId::FlatpakGimp, ActionId::FlatpakKdenlive, ActionId::FlatpakLocalSend, ActionId::FlatpakFlameshot, ActionId::FlatpakFlatseal, ActionId::FlatpakBottles, ActionId::FontFiraCode, ActionId::FontZedMono, ActionId::FontJetBrainsMono, ActionId::FontHack, ActionId::FontMeslo, ActionId::FontCaskaydiaCove, ActionId::FontSourceCodePro, ActionId::FontUbuntuMono, ActionId::FontRobotoMono, ActionId::FontIosevka];
    ids.append(&mut rest);
    proof {
        assert(ids@ =~= plan_ids(*info));
    }
    ids
}

/// The entries of the plan for a system, in the order shown.
pub fn plan_actions(info: &SystemInfo, host: &HostState) -> (r: Vec<Action>)
    ensures
        action_views(r@) == plan_entries(*info, *host),
{
    let ids = plan_action_ids(info);
    let mut actions: Vec<Action> = Vec::new();
    let mut i: usize = 0;
    while i < ids.len()
        invariant
            i <= ids@.len(),
            ids@ == plan_ids(*info),
            actions@.len() == i,
            forall|j: int| 0 <= j < i ==> #[trigger] actions@[j]@ == action_entry(ids@[j], *info, *host),
        decreases ids@.len() - i,
    {
        actions.push(make_action(ids[i], info, host));
        i = i + 1;
    }
    proof {
        assert(action_views(actions@) =~= plan_entries(*info, *host));
    }
    actions
}

/// The plan for a supported system: its Fedora release and the actions
/// offered, under a fresh identifier; else why the system is not supported.
pub fn build_plan(info: &SystemInfo, host: &HostState) -> (r: Result<Plan, PlannerError>)
    ensures
        match r {
            Ok(plan) => supported_version(*info) == Ok::<u16, PlannerError>(plan.fedora_version)
                && action_views(plan.actions@) == plan_entries(*info, *host),
            Err(e) => supported_version(*info) == Err::<u16, PlannerError>(e),
        },
{
    let version = match info.validate_supported() {
        Ok(v) => v,
        Err(e) => {
            return Err(e);
        },
    };
    let actions = plan_actions(info, host);
    Ok(Plan { plan_id: new_plan_id(), fedora_version: version, actions })
}

/// An action that is already done is never ticked by default.
pub proof fn lemma_selected_actions_are_not_complete(a: ActionId, info: SystemInfo, host: HostState)
    ensures
        selected_of(a, info, host) ==> !complete_of(a, info, host),
{
}

/// Exactly the Fedora setup actions are recommended.
pub proof fn lemma_recommended_are_fedora_setup(a: ActionId)
    requires
        a != ActionId::SystemUpdate,
    ensures
        recommended_of(a) <==> category_of(a) == ActionCategory::FedoraSetup,
{
}

/// The NVIDIA driver carries a warning exactly when Secure Boot is enabled.
pub proof fn lemma_nvidia_warning_follows_secure_boot(info: SystemInfo)
    ensures
        (warning_of(ActionId::NvidiaDriver, info) is Some) <==> info.secure_boot == SecureBootState::Enabled,
{
}

/// Whether the ordinals of `s` strictly increase.
pub open spec fn rising(s: Seq<ActionId>) -> bool {
    forall|i: int, j: int| 0 <= i < j < s.len() ==> #[trigger] s[i].ordinal() < #[trigger] s[j].ordinal()
}

/// Whether every ordinal of `s` lies in `lo..=hi`.
pub open spec fn ordinals_within(s: Seq<ActionId>, lo: int, hi: int) -> bool {
    forall|i: int| 0 <= i < s.len() ==> lo <= #[trigger] s[i].ordinal() <= hi
}

/// Whether no ordinal of `s` lies in `lo..=hi`.
pub open spec fn ordinals_outside(s: Seq<ActionId>, lo: int, hi: int) -> bool {
    forall|i: int| 0 <= i < s.len() ==> !(lo <= #[trigger] s[i].ordinal() <= hi)
}

proof fn lemma_rising_by_steps(s: Seq<ActionId>)
    requires
        forall|i: int| 0 <= i < s.len() - 1 ==> #[trigger] s[i].ordinal() < s[i + 1].ordinal(),
    ensures
        rising(s),
    decreases s.len(),
{
    if s.len() > 1 {
        let t = s.drop_last();
        assert forall|i: int| 0 <= i < t.len() - 1 implies #[trigger] t[i].ordinal() < t[i + 1].ordinal() by {
            assert(s[i].ordinal() < s[i + 1].ordinal());
        }
        lemma_rising_by_steps(t);
        assert forall|i: int, j: int| 0 <= i < j < s.len() implies #[trigger] s[i].ordinal() < #[trigger] s[j].ordinal() by {
            if j < s.len() - 1 {
                assert(t[i].ordinal() < t[j].ordinal());
            } else if i < j - 1 {
                assert(t[i].ordinal() < t[j - 1].ordinal());
                assert(s[j - 1].ordinal() < s[j].ordinal());
            } else {
                assert(s[i].ordinal() < s[i + 1].ordinal());
            }
        }
    }
}

proof fn lemma_rising_concat(a: Seq<ActionId>, b: Seq<ActionId>, lo: int, mid: int, hi: int)
    requires
        rising(a),
        rising(b),
        ordinals_within(a, lo, mid),
        ordinals_within(b, mid + 1, hi),
        lo <= mid < hi,
    ensures
        rising(a + b),
        ordinals_within(a + b, lo, hi),
{
    let c = a + b;
    assert forall|i: int, j: int| 0 <= i < j < c.len() implies #[trigger] c[i].ordinal() < #[trigger] c[j].ordinal() by {
        if j < a.len() {
            assert(a[i].ordinal() < a[j].ordinal());
        } else if i >= a.len() {
            assert(b[i - a.len()].ordinal() < b[j - a.len()].ordinal());
        } else {
            assert(a[i].ordinal() <= mid);
            assert(b[j - a.len()].ordinal() >= mid + 1);
        }
    }
    assert forall|i: int| 0 <= i < c.len() implies lo <= #[trigger] c[i].ordinal() <= hi by {
        if i < a.len() {
            assert(a[i].ordinal() <= mid);
        } else {
            assert(b[i - a.len()].ordinal() >= mid + 1);
        }
    }
}

proof fn lemma_rising_no_duplicates(s: Seq<ActionId>)
    requires
        rising(s),
    ensures
        s.no_duplicates(),
{
    assert forall|i: int, j: int| 0 <= i < s.len() && 0 <= j < s.len() && i != j implies s[i] != s[j] by {
        if i < j {
            assert(s[i].ordinal() < s[j].ordinal());
        } else {
            assert(s[j].ordinal() < s[i].ordinal());
        }
    }
}

/// A plan lists no action twice.
pub proof fn lemma_plan_has_no_duplicates(info: SystemInfo)
    ensures
        plan_ids(info).no_duplicates(),
{
    let n: Seq<ActionId> = if has_gpu(info, GpuVendor::Nvidia) { seq![ActionId::NvidiaDriver] } else { seq![] };
    let m: Seq<ActionId> = if has_gpu(info, GpuVendor::Amd) { seq![ActionId::AmdAcceleration] } else { seq![] };
    let k: Seq<ActionId> = if has_gpu(info, GpuVendor::Intel) { seq![ActionId::IntelAcceleration] } else { seq![] };
    lemma_rising_by_steps(core_ids());
    lemma_rising_by_steps(n);
    lemma_rising_by_steps(m);
    lemma_rising_by_steps(k);
    lemma_rising_by_steps(extra_ids());
    lemma_rising_by_steps(font_ids());
    assert(ordinals_within(core_ids(), 1, 5));
    assert(ordinals_within(n, 6, 6));
    assert(ordinals_within(m, 7, 7));
    assert(ordinals_within(k, 8, 8));
    assert(ordinals_within(extra_ids(), 9, 42));
    assert(ordinals_outside(extra_ids(), 15, 24));
    assert(ordinals_within(font_ids(), 15, 24));
    lemma_rising_concat(core_ids(), n, 1, 5, 6);
    lemma_rising_concat(core_ids() + n, m, 1, 6, 7);
    lemma_rising_concat(core_ids() + n + m, k, 1, 7, 8);
    let head = core_ids() + n + m + k;
    lemma_rising_concat(head, extra_ids(), 1, 8, 42);
    let body = head + extra_ids();
    assert forall|i: int| 0 <= i < body.len() implies !(15 <= #[trigger] body[i].ordinal() <= 24) by {
        if i < head.len() {
            assert(head[i].ordinal() <= 8);
        } else {
            assert(body[i] == extra_ids()[i - head.len()]);
        }
    }
    lemma_rising_no_duplicates(body);
    lemma_rising_no_duplicates(font_ids());
    assert forall|i: int, j: int| 0 <= i < body.len() && 0 <= j < font_ids().len() implies body[i] != font_ids()[j] by {
        assert(15 <= font_ids()[j].ordinal() <= 24);
    }
    vstd::seq_lib::lemma_no_dup_in_concat(body, font_ids());
    assert(plan_ids(info) =~= body + font_ids());
}

/// The actions whose commands are skipped once their goal is reached.
pub open spec fn skipped_when_complete(a: ActionId) -> bool {
    ||| a == ActionId::RpmFusionFree
    ||| a == ActionId::RpmFusionNonfree
    ||| a == ActionId::CiscoOpenh264Repo
    ||| a == ActionId::Openh264Packages
    ||| a == ActionId::NvidiaDriver
    ||| a == ActionId::AmdAcceleration
    ||| a == ActionId::IntelAcceleration
    ||| a == ActionId::Ghostty
    ||| a == ActionId::Zed
    ||| a == ActionId::Vlc
    ||| a == ActionId::ZshDefault
    ||| a == ActionId::Starship
}

/// What a plan shows as done needs no command: for every action that checks
/// its goal before it runs, a complete action plans no command, and an
/// incomplete one plans some command or is refused.
pub proof fn lemma_complete_actions_need_no_commands(a: ActionId, version: u16, info: SystemInfo, host: HostState)
    requires
        skipped_when_complete(a),
    ensures
        complete_of(a, info, host) ==> action_commands(a, version, info, host) == Ok::<Seq<CommandView>, PlannerError>(
            Seq::empty(),
        ),
        !complete_of(a, info, host) ==> match action_commands(a, version, info, host) {
            Ok(cs) => cs.len() > 0,
            Err(e) => e == PlannerError::UnavailableAction(a),
        },
{
    if a == ActionId::Zed || a == ActionId::Starship {
        assert(crate::commands::user_shell_cmds(host, "Install Zed"@, crate::commands::ZED_INSTALL_SCRIPT@).len() == 1);
    }
}

/// A mutable Fedora system with dnf and a network connection is accepted on
/// every release from `MIN_SUPPORTED_FEDORA` on, and refused as an unsupported
/// release only below it; any refusal for a release names the system's
/// release, and that release is below `MIN_SUPPORTED_FEDORA`.
pub proof fn lemma_supported_releases(info: SystemInfo, v: u16)
    ensures
        info.os_id@ == "fedora"@ && !info.is_atomic && info.has_dnf && info.has_internet
            && info.fedora_version == Some(v) ==> (v >= MIN_SUPPORTED_FEDORA <==> supported_version(info)
            == Ok::<u16, PlannerError>(v)) && (v < MIN_SUPPORTED_FEDORA <==> supported_version(info) == Err::<
            u16,
            PlannerError,
        >(PlannerError::UnsupportedFedora(v))),
        supported_version(info) == Err::<u16, PlannerError>(PlannerError::UnsupportedFedora(v)) ==> info.fedora_version
            == Some(v) && v < MIN_SUPPORTED_FEDORA,
        supported_version(info) == Ok::<u16, PlannerError>(v) ==> info.fedora_version == Some(v)
            && v >= MIN_SUPPORTED_FEDORA,
{
}

/// Every plan lists Flathub; its entry counts as done exactly when the
/// system's Flatpak remotes include `flathub`, whatever packages are
/// installed, and it is ticked exactly when it is not done.
pub proof fn lemma_flathub_done_means_remote(info: SystemInfo, host: HostState)
    ensures
        exists|i: int| 0 <= i < plan_entries(info, host).len() && (#[trigger] plan_entries(info, host)[i]).0 == ActionId::Flathub,
        forall|i: int|
            0 <= i < plan_entries(info, host).len() && (#[trigger] plan_entries(info, host)[i]).0 == ActionId::Flathub
                ==> {
                &&& plan_entries(info, host)[i].6 == info.flatpak_remotes@.contains("flathub"@)
                &&& plan_entries(info, host)[i].5 == !info.flatpak_remotes@.contains("flathub"@)
            },
{
    let ids = plan_ids(info);
    let e = plan_entries(info, host);
    let at = core_ids().len() + (if has_gpu(info, GpuVendor::Nvidia) { 1int } else { 0 }) + (if has_gpu(
        info,
        GpuVendor::Amd,
    ) { 1int } else { 0 }) + (if has_gpu(info, GpuVendor::Intel) { 1int } else { 0 });
    assert(ids[at] == extra_ids()[0]);
    assert(e[at].0 == ActionId::Flathub);
}

} // verus!
