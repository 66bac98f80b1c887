//! The commands that carry out each action.
use vstd::prelude::*;
use crate::command::{command_of, CommandSpec, CommandView};
use crate::model::{ActionId, GpuVendor, HostState, PlannerError, SystemInfo};
use crate::text::{concat, decimal, escape_single_quotes, push_decimal, push_escaped};

verus! {

/// The views of a list of commands.
pub open spec fn views(cs: Seq<CommandSpec>) -> Seq<CommandView> {
    cs.map_values(|c: CommandSpec| c@)
}

/// Pushing a command pushes its view.
pub proof fn lemma_views_push(cs: Seq<CommandSpec>, c: CommandSpec)
    ensures
        views(cs.push(c)) == views(cs).push(c@),
{
    assert(views(cs.push(c)) =~= views(cs).push(c@));
}

/// Appending commands appends their views.
pub proof fn lemma_views_add(a: Seq<CommandSpec>, b: Seq<CommandSpec>)
    ensures
        views(a + b) == views(a) + views(b),
{
    assert(views(a + b) =~= views(a) + views(b));
}

/// Whether the package is installed.
pub open spec fn installed(info: SystemInfo, package: &str) -> bool {
    info.installed_packages@.contains(package@)
}

/// Whether the repository is enabled.
pub open spec fn repo_on(info: SystemInfo, repo: &str) -> bool {
    info.enabled_repos@.contains(repo@)
}

/// Whether a display controller of the vendor was found.
pub open spec fn has_gpu(info: SystemInfo, v: GpuVendor) -> bool {
    info.gpu_vendors@.contains(v)
}

/// Whether every package in `packages` is installed.
pub open spec fn all_installed(info: SystemInfo, packages: Seq<&str>) -> bool {
    forall|i: int| 0 <= i < packages.len() ==> #[trigger] info.installed_packages@.contains(packages[i]@)
}

/// Whether the repository is enabled.
fn repo_enabled(info: &SystemInfo, repo: &str) -> (r: bool)
    ensures
        r == repo_on(*info, repo),
{
    info.enabled_repos.contains(repo)
}

/// Whether every package in `packages` is installed.
fn packages_installed(info: &SystemInfo, packages: &[&str]) -> (r: bool)
    ensures
        r == all_installed(*info, packages@),
{
    let mut i: usize = 0;
    while i < packages.len()
        invariant
            i <= packages@.len(),
            forall|j: int| 0 <= j < i ==> #[trigger] info.installed_packages@.contains(packages@[j]@),
        decreases packages@.len() - i,
    {
        if !info.installed_packages.contains(packages[i]) {
            return false;
        }
        i = i + 1;
    }
    true
}

/// The address of the RPM Fusion release package of `kind` ("free" or
/// "nonfree") for a Fedora release.
pub open spec fn rpmfusion_url(kind: Seq<char>, version: u16) -> Seq<char> {
    "https://mirrors.rpmfusion.org/"@ + kind + "/fedora/rpmfusion-"@ + kind + "-release-"@
        + decimal(version as nat) + ".noarch.rpm"@
}

/// The address of the RPM Fusion release package of `kind` ("free" or
/// "nonfree") for a Fedora release.
pub fn rpmfusion_release_url(kind: &str, version: u16) -> (r: String)
    ensures
        r@ == rpmfusion_url(kind@, version),
{
    let mut r = String::from_str("https://mirrors.rpmfusion.org/");
    r.append(kind);
    r.append("/fedora/rpmfusion-");
    r.append(kind);
    r.append("-release-");
    push_decimal(&mut r, version as u64);
    r.append(".noarch.rpm");
    r
}

/// The command that enables Fedora's Cisco OpenH264 repository: the
/// `--enable` form of `config-manager` up to Fedora 40, `setopt` after it.
pub open spec fn openh264_cmd(version: u16) -> CommandView {
    if version <= 40 {
        command_of("dnf", seq!["config-manager", "--enable", "fedora-cisco-openh264"])
    } else {
        command_of("dnf", seq!["config-manager", "setopt", "fedora-cisco-openh264.enabled=1"])
    }
}

/// The command that enables Fedora's Cisco OpenH264 repository.
pub fn openh264_command(version: u16) -> (r: CommandSpec)
    ensures
        r@ == openh264_cmd(version),
{
    if version <= 40 {
        CommandSpec::new("dnf", &["config-manager", "--enable", "fedora-cisco-openh264"])
    } else {
        CommandSpec::new("dnf", &["config-manager", "setopt", "fedora-cisco-openh264.enabled=1"])
    }
}

/// The address of the Flathub repository description.
pub const FLATHUB_REPO_URL: &'static str = "https://dl.flathub.org/repo/flathub.flatpakrepo";

/// The command that adds the Flathub remote system-wide.
pub open spec fn flathub_add_cmd() -> CommandView {
    command_of("flatpak", seq!["remote-add", "--system", "--if-not-exists", "flathub", FLATHUB_REPO_URL])
}

/// The command that enables the Flathub remote system-wide.
pub open spec fn flathub_enable_cmd() -> CommandView {
    command_of("flatpak", seq!["remote-modify", "--system", "--enable", "flathub"])
}

/// The command that installs Flatpak itself.
pub open spec fn flatpak_pkg_cmd() -> CommandView {
    command_of("dnf", seq!["install", "-y", "flatpak"])
}

/// The commands that install a Flathub application: Flatpak and the remote
/// first where they are missing.
pub open spec fn flatpak_install_cmds(app_id: Seq<char>, info: SystemInfo) -> Seq<CommandView> {
    let setup = if !info.flatpak_remotes@.contains("flathub"@) {
        (if !installed(info, "flatpak") { seq![flatpak_pkg_cmd()] } else { seq![] }) + seq![flathub_add_cmd()]
    } else {
        seq![]
    };
    setup + seq![flathub_enable_cmd(), ("flatpak"@, seq!["install"@, "-y"@, "flathub"@, app_id])]
}

/// The commands that install a Flathub application.
fn flatpak_install_commands(app_id: &str, info: &SystemInfo) -> (r: Vec<CommandSpec>)
    ensures
        views(r@) == flatpak_install_cmds(app_id@, *info),
{
    let mut commands: Vec<CommandSpec> = Vec::new();
    if !info.flatpak_remotes.contains("flathub") {
        if !info.installed_packages.contains("flatpak") {
            let c = CommandSpec::new("dnf", &["install", "-y", "flatpak"]);
            proof { lemma_views_push(commands@, c); }
            commands.push(c);
        }
        let c = CommandSpec::new("flatpak", &["remote-add", "--system", "--if-not-exists", "flathub", FLATHUB_REPO_URL]);
        proof { lemma_views_push(commands@, c); }
        commands.push(c);
    }
    let ghost setup = views(commands@);
    let c = CommandSpec::new("flatpak", &["remote-modify", "--system", "--enable", "flathub"]);
    proof { lemma_views_push(commands@, c); }
    commands.push(c);
    let c = CommandSpec::new("flatpak", &["install", "-y", "flathub", app_id]);
    proof {
        lemma_views_push(commands@, c);
        assert(c@ =~~= ("flatpak"@, seq!["install"@, "-y"@, "flathub"@, app_id@]));
    }
    commands.push(c);
    proof {
        assert(views(commands@) =~~= flatpak_install_cmds(app_id@, *info));
    }
    commands
}

/// The home directory that per-user installers are given: the one in `host`
/// where it is not empty, else `/home/<user>`.
pub open spec fn target_home_of(host: HostState, user: Seq<char>) -> Seq<char> {
    match host.target_home {
        Some(h) => if h@.len() > 0 { h@ } else { "/home/"@ + user },
        None => "/home/"@ + user,
    }
}

/// The commands that run `script` through a login shell as the target user,
/// with `HOME` set; without a target user, a command that fails with a message
/// naming `label`.
pub open spec fn user_shell_cmds(host: HostState, label: Seq<char>, script: Seq<char>) -> Seq<CommandView> {
    match host.target_user {
        None => seq![(
            "sh"@,
            seq!["-c"@, "echo 'No target user was provided for "@ + label + "' >&2; exit 1"@],
        )],
        Some(user) => seq![(
            "runuser"@,
            seq![
                "-u"@,
                user@,
                "--"@,
                "sh"@,
                "-lc"@,
                "export HOME='"@ + escape_single_quotes(target_home_of(host, user@)) + "'; "@ + script,
            ],
        )],
    }
}

/// The commands that run `script` through a login shell as the target user.
fn user_shell_commands(host: &HostState, label: &str, script: &str) -> (r: Vec<CommandSpec>)
    ensures
        views(r@) == user_shell_cmds(*host, label@, script@),
{
    match &host.target_user {
        None => {
            let mut message = String::from_str("echo 'No target user was provided for ");
            message.append(label);
            message.append("' >&2; exit 1");
            let r = vec![CommandSpec { program: String::from_str("sh"), args: vec![String::from_str("-c"), message] }];
            proof { assert(views(r@) =~~= user_shell_cmds(*host, label@, script@)); }
            r
        },
        Some(user) => {
            let mut home = String::new();
            let mut given = false;
            match &host.target_home {
                Some(h) => {
                    if !h.as_str().is_empty() {
                        home = h.clone();
                        given = true;
                    }
                },
                None => {},
            }
            if !given {
                home = concat("/home/", user.as_str());
            }
            proof { assert(home@ == target_home_of(*host, user@)); }
            let mut inner = String::from_str("export HOME='");
            push_escaped(&mut inner, home.as_str());
            inner.append("'; ");
            inner.append(script);
            let r = vec![CommandSpec {
                program: String::from_str("runuser"),
                args: vec![
                    String::from_str("-u"),
                    user.clone(),
                    String::from_str("--"),
                    String::from_str("sh"),
                    String::from_str("-lc"),
                    inner,
                ],
            }];
            proof { assert(views(r@) =~~= user_shell_cmds(*host, label@, script@)); }
            r
        },
    }
}

/// The Flathub application installed by a Flatpak action.
pub open spec fn flatpak_app(a: ActionId) -> Option<Seq<char>> {
    match a {
        ActionId::FlatpakChrome => Some("com.google.Chrome"@),
        ActionId::FlatpakFirefox => Some("org.mozilla.firefox"@),
        ActionId::FlatpakBrave => Some("com.brave.Browser"@),
        ActionId::FlatpakZed => Some("dev.zed.Zed"@),
        ActionId::FlatpakPodmanDesktop => Some("io.podman_desktop.PodmanDesktop"@),
        ActionId::FlatpakDbeaver => Some("io.dbeaver.DBeaverCommunity"@),
        ActionId::FlatpakPostman => Some("com.getpostman.Postman"@),
        ActionId::FlatpakOnlyOffice => Some("org.onlyoffice.desktopeditors"@),
        ActionId::FlatpakObsidian => Some("md.obsidian.Obsidian"@),
        ActionId::FlatpakBitwarden => Some("com.bitwarden.desktop"@),
        ActionId::FlatpakVlc => Some("org.videolan.VLC"@),
        ActionId::FlatpakObsStudio => Some("com.obsproject.Studio"@),
        ActionId::FlatpakGimp => Some("org.gimp.GIMP"@),
        ActionId::FlatpakKdenlive => Some("org.kde.kdenlive"@),
        ActionId::FlatpakLocalSend => Some("org.localsend.localsend_app"@),
        ActionId::FlatpakFlameshot => Some("org.flameshot.Flameshot"@),
        ActionId::FlatpakFlatseal => Some("com.github.tchx84.Flatseal"@),
        ActionId::FlatpakBottles => Some("com.usebottles.bottles"@),
        _ => None,
    }
}

/// The Flathub application installed by a Flatpak action.
pub fn flatpak_app_id(a: ActionId) -> (r: Option<&'static str>)
    ensures
        match r {
            Some(s) => flatpak_app(a) == Some(s@),
            None => flatpak_app(a) is None,
        },
{
    match a {
        ActionId::FlatpakChrome => Some("com.google.Chrome"),
        ActionId::FlatpakFirefox => Some("org.mozilla.firefox"),
        ActionId::FlatpakBrave => Some("com.brave.Browser"),
        ActionId::FlatpakZed => Some("dev.zed.Zed"),
        ActionId::FlatpakPodmanDesktop => Some("io.podman_desktop.PodmanDesktop"),
        ActionId::FlatpakDbeaver => Some("io.dbeaver.DBeaverCommunity"),
        ActionId::FlatpakPostman => Some("com.getpostman.Postman"),
        ActionId::FlatpakOnlyOffice => Some("org.onlyoffice.desktopeditors"),
        ActionId::FlatpakObsidian => Some("md.obsidian.Obsidian"),
        ActionId::FlatpakBitwarden => Some("com.bitwarden.desktop"),
        ActionId::FlatpakVlc => Some("org.videolan.VLC"),
        ActionId::FlatpakObsStudio => Some("com.obsproject.Studio"),
        ActionId::FlatpakGimp => Some("org.gimp.GIMP"),
        ActionId::FlatpakKdenlive => Some("org.kde.kdenlive"),
        ActionId::FlatpakLocalSend => Some("org.localsend.localsend_app"),
        ActionId::FlatpakFlameshot => Some("org.flameshot.Flameshot"),
        ActionId::FlatpakFlatseal => Some("com.github.tchx84.Flatseal"),
        ActionId::FlatpakBottles => Some("com.usebottles.bottles"),
        _ => None,
    }
}

/// A Nerd Font that can be installed system-wide.
#[derive(Clone, Copy, Debug)]
pub struct NerdFont {
    pub id: ActionId,
    pub title: &'static str,
    pub asset_slug: &'static str,
    pub url: &'static str,
}

/// A Nerd Font as text: its action, title, asset name and download address.
pub type NerdFontView = (ActionId, Seq<char>, Seq<char>, Seq<char>);

impl View for NerdFont {
    type V = NerdFontView;

    open spec fn view(&self) -> NerdFontView {
        (self.id, self.title@, self.asset_slug@, self.url@)
    }
}

/// The Nerd Fonts on offer, in the order in which they are shown.
pub open spec fn nerd_font_table() -> Seq<NerdFontView> {
    seq![
        (ActionId::FontFiraCode, "FiraCode"@, "FiraCode"@, "https://github.com/ryanoasis/nerd-fonts/releases/download/v3.4.0/FiraCode.zip"@),
        (ActionId::FontZedMono, "ZedMono"@, "ZedMono"@, "https://github.com/ryanoasis/nerd-fonts/releases/download/v3.4.0/ZedMono.zip"@),
        (ActionId::FontJetBrainsMono, "JetBrainsMono"@, "JetBrainsMono"@, "https://github.com/ryanoasis/nerd-fonts/releases/download/v3.4.0/JetBrainsMono.zip"@),
        (ActionId::FontHack, "Hack"@, "Hack"@, "https://github.com/ryanoasis/nerd-fonts/releases/download/v3.4.0/Hack.zip"@),
        (ActionId::FontMeslo, "Meslo"@, "Meslo"@, "https://github.com/ryanoasis/nerd-fonts/releases/download/v3.4.0/Meslo.zip"@),
        (ActionId::FontCaskaydiaCove, "CaskaydiaCove"@, "CaskaydiaCove"@, "https://github.com/ryanoasis/nerd-fonts/releases/download/v3.4.0/CaskaydiaCove.zip"@),
        (ActionId::FontSourceCodePro, "SourceCodePro"@, "SourceCodePro"@, "https://github.com/ryanoasis/nerd-fonts/releases/download/v3.4.0/SourceCodePro.zip"@),
        (ActionId::FontUbuntuMono, "UbuntuMono"@, "UbuntuMono"@, "https://github.com/ryanoasis/nerd-fonts/releases/download/v3.4.0/UbuntuMono.zip"@),
        (ActionId::FontRobotoMono, "RobotoMono"@, "RobotoMono"@, "https://github.com/ryanoasis/nerd-fonts/releases/download/v3.4.0/RobotoMono.zip"@),
        (ActionId::FontIosevka, "Iosevka"@, "Iosevka"@, "https://github.com/ryanoasis/nerd-fonts/releases/download/v3.4.0/Iosevka.zip"@),
    ]
}

/// The Nerd Font installed by an action, if it is a font action.
pub open spec fn nerd_font_of(a: ActionId) -> Option<NerdFontView> {
    match a {
        ActionId::FontFiraCode => Some(nerd_font_table()[0]),
        ActionId::FontZedMono => Some(nerd_font_table()[1]),
        ActionId::FontJetBrainsMono => Some(nerd_font_table()[2]),
        ActionId::FontHack => Some(nerd_font_table()[3]),
        ActionId::FontMeslo => Some(nerd_font_table()[4]),
        ActionId::FontCaskaydiaCove => Some(nerd_font_table()[5]),
        ActionId::FontSourceCodePro => Some(nerd_font_table()[6]),
        ActionId::FontUbuntuMono => Some(nerd_font_table()[7]),
        ActionId::FontRobotoMono => Some(nerd_font_table()[8]),
        ActionId::FontIosevka => Some(nerd_font_table()[9]),
        _ => None,
    }
}

/// The Nerd Fonts on offer, in the order in which they are shown.
pub fn nerd_fonts() -> (r: Vec<NerdFont>)
    ensures
        r@.map_values(|f: NerdFont| f@) == nerd_font_table(),
{
    let r = vec![
        NerdFont { id: ActionId::FontFiraCode, title: "FiraCode", asset_slug: "FiraCode", url: "https://github.com/ryanoasis/nerd-fonts/releases/download/v3.4.0/FiraCode.zip" },
        NerdFont { id: ActionId::FontZedMono, title: "ZedMono", asset_slug: "ZedMono", url: "https://github.com/ryanoasis/nerd-fonts/releases/download/v3.4.0/ZedMono.zip" },
        NerdFont { id: ActionId::FontJetBrainsMono, title: "JetBrainsMono", asset_slug: "JetBrainsMono", url: "https://github.com/ryanoasis/nerd-fonts/releases/download/v3.4.0/JetBrainsMono.zip" },
        NerdFont { id: ActionId::FontHack, title: "Hack", asset_slug: "Hack", url: "https://github.com/ryanoasis/nerd-fonts/releases/download/v3.4.0/Hack.zip" },
        NerdFont { id: ActionId::FontMeslo, title: "Meslo", asset_slug: "Meslo", url: "https://github.com/ryanoasis/nerd-fonts/releases/download/v3.4.0/Meslo.zip" },
        NerdFont { id: ActionId::FontCaskaydiaCove, title: "CaskaydiaCove", asset_slug: "CaskaydiaCove", url: "https://github.com/ryanoasis/nerd-fonts/releases/download/v3.4.0/CaskaydiaCove.zip" },
        NerdFont { id: ActionId::FontSourceCodePro, title: "SourceCodePro", asset_slug: "SourceCodePro", url: "https://github.com/ryanoasis/nerd-fonts/releases/download/v3.4.0/SourceCodePro.zip" },
        NerdFont { id: ActionId::FontUbuntuMono, title: "UbuntuMono", asset_slug: "UbuntuMono", url: "https://github.com/ryanoasis/nerd-fonts/releases/download/v3.4.0/UbuntuMono.zip" },
        NerdFont { id: ActionId::FontRobotoMono, title: "RobotoMono", asset_slug: "RobotoMono", url: "https://github.com/ryanoasis/nerd-fonts/releases/download/v3.4.0/RobotoMono.zip" },
        NerdFont { id: ActionId::FontIosevka, title: "Iosevka", asset_slug: "Iosevka", url: "https://github.com/ryanoasis/nerd-fonts/releases/download/v3.4.0/Iosevka.zip" },
    ];
    proof {
        assert(r@.map_values(|f: NerdFont| f@) =~= nerd_font_table());
    }
    r
}

/// The Nerd Font installed by an action, if it is a font action.
fn nerd_font(a: ActionId) -> (r: Option<NerdFont>)
    ensures
        match r {
            Some(f) => nerd_font_of(a) == Some(f@),
            None => nerd_font_of(a) is None,
        },
{
    match a {
        ActionId::FontFiraCode => Some(NerdFont { id: ActionId::FontFiraCode, title: "FiraCode", asset_slug: "FiraCode", url: "https://github.com/ryanoasis/nerd-fonts/releases/download/v3.4.0/FiraCode.zip" }),
        ActionId::FontZedMono => Some(NerdFont { id: ActionId::FontZedMono, title: "ZedMono", asset_slug: "ZedMono", url: "https://github.com/ryanoasis/nerd-fonts/releases/download/v3.4.0/ZedMono.zip" }),
        ActionId::FontJetBrainsMono => Some(NerdFont { id: ActionId::FontJetBrainsMono, title: "JetBrainsMono", asset_slug: "JetBrainsMono", url: "https://github.com/ryanoasis/nerd-fonts/releases/download/v3.4.0/JetBrainsMono.zip" }),
        ActionId::FontHack => Some(NerdFont { id: ActionId::FontHack, title: "Hack", asset_slug: "Hack", url: "https://github.com/ryanoasis/nerd-fonts/releases/download/v3.4.0/Hack.zip" }),
        ActionId::FontMeslo => Some(NerdFont { id: ActionId::FontMeslo, title: "Meslo", asset_slug: "Meslo", url: "https://github.com/ryanoasis/nerd-fonts/releases/download/v3.4.0/Meslo.zip" }),
        ActionId::FontCaskaydiaCove => Some(NerdFont { id: ActionId::FontCaskaydiaCove, title: "CaskaydiaCove", asset_slug: "CaskaydiaCove", url: "https://github.com/ryanoasis/nerd-fonts/releases/download/v3.4.0/CaskaydiaCove.zip" }),
        ActionId::FontSourceCodePro => Some(NerdFont { id: ActionId::FontSourceCodePro, title: "SourceCodePro", asset_slug: "SourceCodePro", url: "https://github.com/ryanoasis/nerd-fonts/releases/download/v3.4.0/SourceCodePro.zip" }),
        ActionId::FontUbuntuMono => Some(NerdFont { id: ActionId::FontUbuntuMono, title: "UbuntuMono", asset_slug: "UbuntuMono", url: "https://github.com/ryanoasis/nerd-fonts/releases/download/v3.4.0/UbuntuMono.zip" }),
        ActionId::FontRobotoMono => Some(NerdFont { id: ActionId::FontRobotoMono, title: "RobotoMono", asset_slug: "RobotoMono", url: "https://github.com/ryanoasis/nerd-fonts/releases/download/v3.4.0/RobotoMono.zip" }),
        ActionId::FontIosevka => Some(NerdFont { id: ActionId::FontIosevka, title: "Iosevka", asset_slug: "Iosevka", url: "https://github.com/ryanoasis/nerd-fonts/releases/download/v3.4.0/Iosevka.zip" }),
        _ => None,
    }
}

/// The shell command that makes zsh the target user's login shell.
pub const ZSH_CHSH_SCRIPT: &'static str = r#"user="${POSTORA_TARGET_USER:-${SUDO_USER:-}}"; if [ -n "$user" ]; then chsh -s /usr/bin/zsh "$user"; else echo "No target user was provided for chsh" >&2; exit 1; fi"#;

/// The shell command that installs the Starship binary.
pub const STARSHIP_INSTALL_SCRIPT: &'static str = "curl -sS https://starship.rs/install.sh | sh -s -- -y";

/// The shell script, run as the target user, that applies the Catppuccin
/// Powerline preset and hooks Starship into bash and zsh.
pub const STARSHIP_CONFIG_SCRIPT: &'static str = r##"mkdir -p "$HOME/.config"; /usr/local/bin/starship preset catppuccin-powerline -o "$HOME/.config/starship.toml"; touch "$HOME/.bashrc" "$HOME/.zshrc"; grep -q "starship init bash" "$HOME/.bashrc" 2>/dev/null || echo 'eval "$(starship init bash)"' >> "$HOME/.bashrc"; grep -q "starship init zsh" "$HOME/.zshrc" 2>/dev/null || echo 'eval "$(starship init zsh)"' >> "$HOME/.zshrc""##;

/// The shell script, run as the target user, that installs Zed.
pub const ZED_INSTALL_SCRIPT: &'static str = "curl -f https://zed.dev/install.sh | sh";

/// The command that refreshes package metadata once repositories changed.
pub open spec fn refresh_cmd() -> CommandView {
    command_of("dnf", seq!["update", "-y", "--refresh"])
}

/// The commands that download a Nerd Font release archive and unpack it into
/// the system font directory.
pub open spec fn font_cmds(f: NerdFontView) -> Seq<CommandView> {
    let dest = font_dir(f);
    let archive = "/tmp/postora-"@ + f.2 + ".zip"@;
    seq![
        command_of("dnf", seq!["install", "-y", "curl", "unzip", "fontconfig"]),
        ("curl"@, seq!["-fL"@, "-o"@, archive, f.3]),
        ("install"@, seq!["-d"@, "-m"@, "0755"@, dest]),
        ("unzip"@, seq!["-o"@, archive, "-d"@, dest]),
        ("fc-cache"@, seq!["-f"@, dest]),
    ]
}

/// The commands for the multimedia codecs: the full ffmpeg (swapped in for
/// ffmpeg-free where that is installed) unless it is there, then the
/// multimedia group update.
pub open spec fn multimedia_cmds(info: SystemInfo) -> Seq<CommandView> {
    let ffmpeg = if !installed(info, "ffmpeg") {
        if installed(info, "ffmpeg-free") {
            seq![command_of("dnf", seq!["swap", "-y", "ffmpeg-free", "ffmpeg", "--allowerasing"])]
        } else {
            seq![command_of("dnf", seq!["install", "-y", "ffmpeg", "--allowerasing"])]
        }
    } else {
        seq![]
    };
    ffmpeg + seq![command_of(
        "dnf",
        seq![
            "update",
            "-y",
            "@multimedia",
            "--setopt=install_weak_deps=False",
            "--exclude=PackageKit-gstreamer-plugin",
        ],
    )]
}

/// The commands for the Flathub action: Flatpak where it is missing, then the
/// remote added and enabled.
pub open spec fn flathub_cmds(info: SystemInfo) -> Seq<CommandView> {
    (if !installed(info, "flatpak") { seq![flatpak_pkg_cmd()] } else { seq![] })
        + seq![flathub_add_cmd(), flathub_enable_cmd()]
}

/// The commands for the zsh action: zsh where it is missing, then the login
/// shell change.
pub open spec fn zsh_cmds(info: SystemInfo) -> Seq<CommandView> {
    (if !installed(info, "zsh") { seq![command_of("dnf", seq!["install", "-y", "zsh"])] } else { seq![] })
        + seq![command_of("sh", seq!["-c", ZSH_CHSH_SCRIPT])]
}

/// The commands that carry out `a` on a system, or the error when `a` needs a
/// GPU that the system lacks. Where the action's goal is already reached the
/// list is empty, except for the codec, Flathub, Flatpak and font actions,
/// which always run.
pub open spec fn action_commands(a: ActionId, version: u16, info: SystemInfo, host: HostState) -> Result<
    Seq<CommandView>,
    PlannerError,
> {
    match a {
        ActionId::RpmFusionFree => Ok(
            if !repo_on(info, "rpmfusion-free") {
                seq![("dnf"@, seq!["install"@, "-y"@, rpmfusion_url("free"@, version)])]
            } else {
                seq![]
            },
        ),
        ActionId::RpmFusionNonfree => Ok(
            if !repo_on(info, "rpmfusion-nonfree") {
                seq![("dnf"@, seq!["install"@, "-y"@, rpmfusion_url("nonfree"@, version)])]
            } else {
                seq![]
            },
        ),
        ActionId::CiscoOpenh264Repo => Ok(
            if !repo_on(info, "fedora-cisco-openh264") { seq![openh264_cmd(version)] } else { seq![] },
        ),
        ActionId::Openh264Packages => Ok(
            if !(installed(info, "gstreamer1-plugin-openh264") && installed(info, "mozilla-openh264")) {
                seq![command_of("dnf", seq!["install", "-y", "gstreamer1-plugin-openh264", "mozilla-openh264"])]
            } else {
                seq![]
            },
        ),
        ActionId::MultimediaCodecs => Ok(multimedia_cmds(info)),
        ActionId::NvidiaDriver => if installed(info, "akmod-nvidia") {
            Ok(seq![])
        } else if !has_gpu(info, GpuVendor::Nvidia) {
            Err(PlannerError::UnavailableAction(a))
        } else {
            Ok(seq![command_of("dnf", seq!["install", "-y", "akmod-nvidia", "xorg-x11-drv-nvidia-cuda"])])
        },
        ActionId::AmdAcceleration => if installed(info, "mesa-va-drivers-freeworld") && installed(
            info,
            "mesa-vdpau-drivers-freeworld",
        ) {
            Ok(seq![])
        } else if !has_gpu(info, GpuVendor::Amd) {
            Err(PlannerError::UnavailableAction(a))
        } else {
            Ok(seq![command_of("dnf", seq!["install", "-y", "mesa-va-drivers-freeworld", "mesa-vdpau-drivers-freeworld"])])
        },
        ActionId::IntelAcceleration => if installed(info, "intel-media-driver") {
            Ok(seq![])
        } else if !has_gpu(info, GpuVendor::Intel) {
            Err(PlannerError::UnavailableAction(a))
        } else {
            Ok(seq![command_of("dnf", seq!["install", "-y", "intel-media-driver", "libva-intel-driver"])])
        },
        ActionId::Flathub => Ok(flathub_cmds(info)),
        ActionId::Ghostty => Ok(
            if !installed(info, "ghostty") {
                seq![
                    command_of("dnf", seq!["install", "-y", "dnf-plugins-core"]),
                    command_of("dnf", seq!["copr", "enable", "-y", "scottames/ghostty"]),
                    command_of("dnf", seq!["install", "-y", "ghostty"]),
                ]
            } else {
                seq![]
            },
        ),
        ActionId::Zed => Ok(
            if !host.zed_installed { user_shell_cmds(host, "Install Zed"@, ZED_INSTALL_SCRIPT@) } else { seq![] },
        ),
        ActionId::Vlc => Ok(
            if !installed(info, "vlc") { seq![command_of("dnf", seq!["install", "-y", "vlc"])] } else { seq![] },
        ),
        ActionId::ZshDefault => Ok(if !host.zsh_is_default { zsh_cmds(info) } else { seq![] }),
        ActionId::Starship => Ok(
            if !host.starship_configured {
                seq![command_of("sh", seq!["-c", STARSHIP_INSTALL_SCRIPT])] + user_shell_cmds(
                    host,
                    "Configure Starship"@,
                    STARSHIP_CONFIG_SCRIPT@,
                )
            } else {
                seq![]
            },
        ),
        _ => match flatpak_app(a) {
            Some(app) => Ok(flatpak_install_cmds(app, info)),
            None => match nerd_font_of(a) {
                Some(f) => Ok(font_cmds(f)),
                None => Ok(seq![]),
            },
        },
    }
}

/// The directory that a Nerd Font is unpacked into.
pub open spec fn font_dir(f: NerdFontView) -> Seq<char> {
    "/usr/local/share/fonts/postora/"@ + f.2
}

/// The directory that a Nerd Font is unpacked into; the font counts as
/// installed when it exists.
pub fn font_directory(font: &NerdFont) -> (r: String)
    ensures
        r@ == font_dir(font@),
{
    concat("/usr/local/share/fonts/postora/", font.asset_slug)
}

/// The commands that download and unpack a Nerd Font.
fn font_commands(font: NerdFont) -> (r: Vec<CommandSpec>)
    ensures
        views(r@) == font_cmds(font@),
{
    let destination = font_directory(&font);
    let mut archive = concat("/tmp/postora-", font.asset_slug);
    archive.append(".zip");
    let r = vec![
        CommandSpec::new("dnf", &["install", "-y", "curl", "unzip", "fontconfig"]),
        CommandSpec::new("curl", &["-fL", "-o", archive.as_str(), font.url]),
        CommandSpec::new("install", &["-d", "-m", "0755", destination.as_str()]),
        CommandSpec::new("unzip", &["-o", archive.as_str(), "-d", destination.as_str()]),
        CommandSpec::new("fc-cache", &["-f", destination.as_str()]),
    ];
    proof {
        assert(views(r@) =~~= font_cmds(font@));
    }
    r
}

/// The commands for the multimedia codecs.
fn multimedia_commands(info: &SystemInfo) -> (r: Vec<CommandSpec>)
    ensures
        views(r@) == multimedia_cmds(*info),
{
    let mut commands: Vec<CommandSpec> = Vec::new();
    if !info.installed_packages.contains("ffmpeg") {
        if info.installed_packages.contains("ffmpeg-free") {
            commands.push(CommandSpec::new("dnf", &["swap", "-y", "ffmpeg-free", "ffmpeg", "--allowerasing"]));
        } else {
            commands.push(CommandSpec::new("dnf", &["install", "-y", "ffmpeg", "--allowerasing"]));
        }
    }
    let c = CommandSpec::new(
        "dnf",
        &["update", "-y", "@multimedia", "--setopt=install_weak_deps=False", "--exclude=PackageKit-gstreamer-plugin"],
    );
    proof { lemma_views_push(commands@, c); }
    commands.push(c);
    proof {
        assert(views(commands@) =~~= multimedia_cmds(*info));
    }
    commands
}

/// The commands for the Flathub action.
fn flathub_commands(info: &SystemInfo) -> (r: Vec<CommandSpec>)
    ensures
        views(r@) == flathub_cmds(*info),
{
    let mut commands: Vec<CommandSpec> = Vec::new();
    if !info.installed_packages.contains("flatpak") {
        commands.push(CommandSpec::new("dnf", &["install", "-y", "flatpak"]));
    }
    let c = CommandSpec::new("flatpak", &["remote-add", "--system", "--if-not-exists", "flathub", FLATHUB_REPO_URL]);
    proof { lemma_views_push(commands@, c); }
    commands.push(c);
    let c = CommandSpec::new("flatpak", &["remote-modify", "--system", "--enable", "flathub"]);
    proof { lemma_views_push(commands@, c); }
    commands.push(c);
    proof {
        assert(views(commands@) =~~= flathub_cmds(*info));
    }
    commands
}

/// The commands for the zsh action.
fn zsh_commands(info: &SystemInfo) -> (r: Vec<CommandSpec>)
    ensures
        views(r@) == zsh_cmds(*info),
{
    let mut commands: Vec<CommandSpec> = Vec::new();
    if !info.installed_packages.contains("zsh") {
        commands.push(CommandSpec::new("dnf", &["install", "-y", "zsh"]));
    }
    let c = CommandSpec::new("sh", &["-c", ZSH_CHSH_SCRIPT]);
    proof { lemma_views_push(commands@, c); }
    commands.push(c);
    proof {
        assert(views(commands@) =~~= zsh_cmds(*info));
    }
    commands
}

/// The commands that carry out `action` on the system described by `info` and
/// `host`, for Fedora `version`; `UnavailableAction` for a GPU action whose
/// packages are missing on a system without that GPU.
pub fn commands_for_action(action: ActionId, version: u16, info: &SystemInfo, host: &HostState) -> (r: Result<
    Vec<CommandSpec>,
    PlannerError,
>)
    ensures
        match r {
            Ok(cs) => action_commands(action, version, *info, *host) == Ok::<Seq<CommandView>, PlannerError>(views(cs@)),
            Err(e) => action_commands(action, version, *info, *host) == Err::<Seq<CommandView>, PlannerError>(e),
        },
{
    let mut commands: Vec<CommandSpec> = Vec::new();
    match action {
        ActionId::RpmFusionFree => {
            if !repo_enabled(info, "rpmfusion-free") {
                let url = rpmfusion_release_url("free", version);
                commands.push(CommandSpec { program: String::from_str("dnf"), args: vec![String::from_str("install"), String::from_str("-y"), url] });
                proof { assert(views(commands@) =~~= seq![("dnf"@, seq!["install"@, "-y"@, rpmfusion_url("free"@, version)])]); }
            }
        },
        ActionId::RpmFusionNonfree => {
            if !repo_enabled(info, "rpmfusion-nonfree") {
                let url = rpmfusion_release_url("nonfree", version);
                commands.push(CommandSpec { program: String::from_str("dnf"), args: vec![String::from_str("install"), String::from_str("-y"), url] });
                proof { assert(views(commands@) =~~= seq![("dnf"@, seq!["install"@, "-y"@, rpmfusion_url("nonfree"@, version)])]); }
            }
        },
        ActionId::CiscoOpenh264Repo => {
            if !repo_enabled(info, "fedora-cisco-openh264") {
                commands.push(openh264_command(version));
                proof { assert(views(commands@) =~~= seq![openh264_cmd(version)]); }
            }
        },
        ActionId::Openh264Packages => {
            if !packages_installed(info, &["gstreamer1-plugin-openh264", "mozilla-openh264"]) {
                commands.push(CommandSpec::new("dnf", &["install", "-y", "gstreamer1-plugin-openh264", "mozilla-openh264"]));
                proof { assert(views(commands@) =~~= seq![command_of("dnf", seq!["install", "-y", "gstreamer1-plugin-openh264", "mozilla-openh264"])]); }
            }
        },
        ActionId::MultimediaCodecs => {
            commands = multimedia_commands(info);
        },
        ActionId::NvidiaDriver => {
            if !info.installed_packages.contains("akmod-nvidia") {
                if !info.gpu_vendors.contains(GpuVendor::Nvidia) {
                    return Err(PlannerError::UnavailableAction(action));
                }
                commands.push(CommandSpec::new("dnf", &["install", "-y", "akmod-nvidia", "xorg-x11-drv-nvidia-cuda"]));
                proof { assert(views(commands@) =~~= seq![command_of("dnf", seq!["install", "-y", "akmod-nvidia", "xorg-x11-drv-nvidia-cuda"])]); }
            }
        },
        ActionId::AmdAcceleration => {
            if !packages_installed(info, &["mesa-va-drivers-freeworld", "mesa-vdpau-drivers-freeworld"]) {
                if !info.gpu_vendors.contains(GpuVendor::Amd) {
                    return Err(PlannerError::UnavailableAction(action));
                }
                commands.push(CommandSpec::new("dnf", &["install", "-y", "mesa-va-drivers-freeworld", "mesa-vdpau-drivers-freeworld"]));
                proof { assert(views(commands@) =~~= seq![command_of("dnf", seq!["install", "-y", "mesa-va-drivers-freeworld", "mesa-vdpau-drivers-freeworld"])]); }
            }
        },
        ActionId::IntelAcceleration => {
            if !info.installed_packages.contains("intel-media-driver") {
                if !info.gpu_vendors.contains(GpuVendor::Intel) {
                    return Err(PlannerError::UnavailableAction(action));
                }
                commands.push(CommandSpec::new("dnf", &["install", "-y", "intel-media-driver", "libva-intel-driver"]));
                proof { assert(views(commands@) =~~= seq![command_of("dnf", seq!["install", "-y", "intel-media-driver", "libva-intel-driver"])]); }
            }
        },
        ActionId::Flathub => {
            commands = flathub_commands(info);
        },
        ActionId::Ghostty => {
            if !info.installed_packages.contains("ghostty") {
                commands.push(CommandSpec::new("dnf", &["install", "-y", "dnf-plugins-core"]));
                commands.push(CommandSpec::new("dnf", &["copr", "enable", "-y", "scottames/ghostty"]));
                commands.push(CommandSpec::new("dnf", &["install", "-y", "ghostty"]));
                proof {
                    assert(views(commands@) =~~= seq![
                        command_of("dnf", seq!["install", "-y", "dnf-plugins-core"]),
                        command_of("dnf", seq!["copr", "enable", "-y", "scottames/ghostty"]),
                        command_of("dnf", seq!["install", "-y", "ghostty"]),
                    ]);
                }
            }
        },
        ActionId::Zed => {
            if !host.zed_installed {
                commands = user_shell_commands(host, "Install Zed", ZED_INSTALL_SCRIPT);
            }
        },
        ActionId::Vlc => {
            if !info.installed_packages.contains("vlc") {
                commands.push(CommandSpec::new("dnf", &["install", "-y", "vlc"]));
                proof { assert(views(commands@) =~~= seq![command_of("dnf", seq!["install", "-y", "vlc"])]); }
            }
        },
        ActionId::ZshDefault => {
            if !host.zsh_is_default {
                commands = zsh_commands(info);
            }
        },
        ActionId::Starship => {
            if !host.starship_configured {
                commands.push(CommandSpec::new("sh", &["-c", STARSHIP_INSTALL_SCRIPT]));
                proof { assert(views(commands@) =~~= seq![command_of("sh", seq!["-c", STARSHIP_INSTALL_SCRIPT])]); }
                let mut more = user_shell_commands(host, "Configure Starship", STARSHIP_CONFIG_SCRIPT);
                proof { lemma_views_add(commands@, more@); }
                commands.append(&mut more);
            }
        },
        _ => {
            match flatpak_app_id(action) {
                Some(app) => {
                    commands = flatpak_install_commands(app, info);
                },
                None => {
                    match nerd_font(action) {
                        Some(font) => {
                            commands = font_commands(font);
                        },
                        None => {},
                    }
                },
            }
        },
    }
    proof {
        assert(views(Seq::<CommandSpec>::empty()) =~= Seq::<CommandView>::empty());
    }
    Ok(commands)
}

/// While the RPM Fusion Nonfree repository is not enabled, its action is one
/// `dnf install -y` of the nonfree release package of the Fedora release, from
/// the nonfree tree of the RPM Fusion mirrors; where the Free repository is
/// not enabled either, that is not the command planned for Free.
pub proof fn lemma_nonfree_installs_nonfree_release(version: u16, info: SystemInfo, host: HostState)
    requires
        !repo_on(info, "rpmfusion-nonfree"),
    ensures
        action_commands(ActionId::RpmFusionNonfree, version, info, host) == Ok::<Seq<CommandView>, PlannerError>(
            seq![
                (
                    "dnf"@,
                    seq![
                        "install"@,
                        "-y"@,
                        "https://mirrors.rpmfusion.org/nonfree/fedora/rpmfusion-nonfree-release-"@ + decimal(
                            version as nat,
                        ) + ".noarch.rpm"@,
                    ],
                ),
            ],
        ),
        !repo_on(info, "rpmfusion-free") ==> action_commands(ActionId::RpmFusionNonfree, version, info, host)
            != action_commands(ActionId::RpmFusionFree, version, info, host),
{
    reveal_strlit("https://mirrors.rpmfusion.org/nonfree/fedora/rpmfusion-nonfree-release-");
    reveal_strlit("https://mirrors.rpmfusion.org/");
    reveal_strlit("/fedora/rpmfusion-");
    reveal_strlit("-release-");
    reveal_strlit("nonfree");
    reveal_strlit("free");
    let d = decimal(version as nat);
    let nonfree = rpmfusion_url("nonfree"@, version);
    let expected = "https://mirrors.rpmfusion.org/nonfree/fedora/rpmfusion-nonfree-release-"@ + d + ".noarch.rpm"@;
    assert("https://mirrors.rpmfusion.org/"@ + "nonfree"@ + "/fedora/rpmfusion-"@ + "nonfree"@ + "-release-"@
        =~= "https://mirrors.rpmfusion.org/nonfree/fedora/rpmfusion-nonfree-release-"@);
    assert(nonfree =~= expected);
    let free = rpmfusion_url("free"@, version);
    assert(nonfree[30] == 'n');
    assert(free[30] == 'f');
    if !repo_on(info, "rpmfusion-free") {
        let cn = action_commands(ActionId::RpmFusionNonfree, version, info, host)->Ok_0;
        let cf = action_commands(ActionId::RpmFusionFree, version, info, host)->Ok_0;
        assert(cn[0].1[2] != cf[0].1[2]);
    }
}

/// While ghostty is not installed, its action enables the scottames/ghostty
/// COPR repository before it installs ghostty (after dnf-plugins-core, which
/// provides `dnf copr`); once installed, it plans nothing.
pub proof fn lemma_ghostty_enables_its_copr(version: u16, info: SystemInfo, host: HostState)
    ensures
        installed(info, "ghostty") ==> action_commands(ActionId::Ghostty, version, info, host) == Ok::<
            Seq<CommandView>,
            PlannerError,
        >(seq![]),
        !installed(info, "ghostty") ==> (action_commands(ActionId::Ghostty, version, info, host) matches Ok(cs)
            && cs[0] == ("dnf"@, seq!["install"@, "-y"@, "dnf-plugins-core"@]) && exists|i: int, j: int|
            0 <= i < j < cs.len() && #[trigger] cs[i] == ("dnf"@, seq!["copr"@, "enable"@, "-y"@, "scottames/ghostty"@])
                && #[trigger] cs[j] == ("dnf"@, seq!["install"@, "-y"@, "ghostty"@])),
{
    if !installed(info, "ghostty") {
        let cs = action_commands(ActionId::Ghostty, version, info, host)->Ok_0;
        assert(cs[1].1 =~= seq!["copr"@, "enable"@, "-y"@, "scottames/ghostty"@]);
        assert(cs[2].1 =~= seq!["install"@, "-y"@, "ghostty"@]);
        assert(cs[0].1 =~= seq!["install"@, "-y"@, "dnf-plugins-core"@]);
        assert(cs[1] == ("dnf"@, seq!["copr"@, "enable"@, "-y"@, "scottames/ghostty"@]));
        assert(cs[2] == ("dnf"@, seq!["install"@, "-y"@, "ghostty"@]));
    }
}

} // verus!
