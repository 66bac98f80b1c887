use postora_planner::{
    build_plan, commands_for_action, commands_for_request, openh264_command, ActionId, ActionSet, ApplyRequest,
    CommandSpec, GpuVendor, GpuVendorSet, HostState, PlannerError, SecureBootState, StringSet, SystemInfo,
};
use uuid::Uuid;

fn base_info(version: u16) -> SystemInfo {
    SystemInfo {
        os_id: "fedora".into(),
        os_name: "Fedora Linux".into(),
        fedora_version: Some(version),
        arch: "x86_64".into(),
        is_atomic: false,
        has_dnf: true,
        has_internet: true,
        secure_boot: SecureBootState::Disabled,
        gpu_vendors: GpuVendorSet::new(),
        installed_packages: StringSet::new(),
        enabled_repos: StringSet::new(),
        flatpak_remotes: StringSet::new(),
        flatpak_apps: StringSet::new(),
    }
}

fn base_host() -> HostState {
    HostState {
        target_user: Some("testuser".into()),
        target_home: Some("/home/testuser".into()),
        zed_installed: false,
        starship_configured: false,
        zsh_is_default: false,
        installed_fonts: ActionSet::new(),
    }
}

#[test]
fn openh264_uses_legacy_enable_on_fedora_40() {
    assert_eq!(
        openh264_command(40),
        CommandSpec::new("dnf", &["config-manager", "--enable", "fedora-cisco-openh264"])
    );
}

#[test]
fn openh264_uses_setopt_on_fedora_41_and_newer() {
    for version in [41, 42, 43, 44] {
        assert_eq!(
            openh264_command(version),
            CommandSpec::new("dnf", &["config-manager", "setopt", "fedora-cisco-openh264.enabled=1"])
        );
    }
}

#[test]
fn gpu_vendor_mapping_handles_common_ids_and_lspci() {
    assert_eq!(GpuVendor::from_pci_vendor_id("0x10de"), GpuVendor::Nvidia);
    assert_eq!(GpuVendor::from_pci_vendor_id("1002"), GpuVendor::Amd);
    assert_eq!(GpuVendor::from_pci_vendor_id("8086"), GpuVendor::Intel);
    assert_eq!(
        GpuVendor::from_lspci_line("01:00.0 VGA compatible controller: NVIDIA Corporation AD104"),
        Some(GpuVendor::Nvidia)
    );
}

#[test]
fn rpm_ostree_detection_blocks_mutation() {
    let mut info = base_info(42);
    info.is_atomic = true;
    assert!(matches!(build_plan(&info, &base_host()), Err(PlannerError::AtomicSystem)));
}

#[test]
fn completed_repos_are_not_reinstalled() {
    let mut info = base_info(42);
    info.enabled_repos.insert("rpmfusion-free".into());
    let commands = commands_for_action(ActionId::RpmFusionFree, 42, &info, &base_host()).unwrap();
    assert!(commands.is_empty());
}

#[test]
fn planner_snapshots_cover_supported_versions() {
    for version in [40, 41, 42, 43, 44] {
        let info = base_info(version);
        let commands = commands_for_action(ActionId::CiscoOpenh264Repo, version, &info, &base_host()).unwrap();
        assert_eq!(commands.len(), 1);
        assert_eq!(commands[0], openh264_command(version));
    }
}

fn request(selected: &[ActionId], version: u16, run_update: bool) -> ApplyRequest {
    ApplyRequest {
        plan_id: Uuid::new_v4(),
        selected_actions: ActionSet::from_slice(selected),
        uninstall_actions: ActionSet::new(),
        detected_fedora_version: version,
        detected_gpu_vendors: GpuVendorSet::new(),
        target_user: Some("testuser".into()),
        target_home: Some("/home/testuser".into()),
        run_update,
    }
}

#[test]
fn dnf_update_is_inserted_after_repos() {
    let info = base_info(42);
    let request = request(&[ActionId::RpmFusionFree, ActionId::Flathub], 42, false);
    let commands = commands_for_request(&request, &info, &base_host()).unwrap();
    let rendered = commands.iter().map(|(_, command)| command.display()).collect::<Vec<_>>();

    assert_eq!(rendered.len(), 5);
    assert!(rendered[0].contains("mirrors.rpmfusion.org"));
    assert_eq!(rendered[1], "dnf update -y --refresh");
    assert!(rendered[2].contains("dnf install -y flatpak"));
    assert!(rendered[3].contains("flatpak remote-add"));
    assert_eq!(rendered[4], "flatpak remote-modify --system --enable flathub");
}

#[test]
fn command_planner_snapshots_for_fedora_40_to_44() {
    for version in [40, 41, 42, 43, 44] {
        let mut info = base_info(version);
        info.gpu_vendors.extend(&[GpuVendor::Intel, GpuVendor::Amd]);
        info.installed_packages.insert("ffmpeg-free".into());
        let host = base_host();
        let plan = build_plan(&info, &host).unwrap();
        let ids: Vec<ActionId> = plan.actions.iter().map(|action| action.id).collect();
        let mut request = request(&ids, version, false);
        request.plan_id = plan.plan_id;
        request.detected_gpu_vendors = info.gpu_vendors;
        let commands = commands_for_request(&request, &info, &host).unwrap();
        let rendered = commands.iter().map(|(_, command)| command.display()).collect::<Vec<_>>();
        assert!(rendered
            .iter()
            .any(|cmd| cmd.contains(&format!("rpmfusion-free-release-{version}.noarch.rpm"))));
        assert!(rendered
            .iter()
            .any(|cmd| cmd.contains("flatpak remote-add --system --if-not-exists")));
        assert!(rendered.iter().any(|cmd| cmd.contains("dnf swap -y ffmpeg-free ffmpeg")));
    }
}

#[test]
fn unavailable_gpu_action_is_rejected() {
    let info = base_info(42);
    let request = request(&[ActionId::NvidiaDriver], 42, false);
    assert!(matches!(
        commands_for_request(&request, &info, &base_host()),
        Err(PlannerError::UnavailableAction(ActionId::NvidiaDriver))
    ));
}

#[test]
fn helper_planning_refuses_non_fedora_systems() {
    let mut info = base_info(42);
    info.os_id = "ubuntu".into();
    let request = request(&[ActionId::Flathub], 42, false);
    assert!(matches!(commands_for_request(&request, &info, &base_host()), Err(PlannerError::NonFedora)));
}

#[test]
fn system_update_planned_correctly() {
    let info = base_info(42);
    let request = request(&[], 0, true);
    let commands = commands_for_request(&request, &info, &base_host()).unwrap();
    assert_eq!(commands.len(), 1);
    assert_eq!(commands[0].0, ActionId::SystemUpdate);
    assert_eq!(commands[0].1.display(), "dnf upgrade -y --refresh");
}

fn display_all(commands: &[CommandSpec]) -> Vec<String> {
    commands.iter().map(|c| c.display()).collect()
}

#[test]
fn validation_reports_each_reason_in_order() {
    let mut info = base_info(42);
    assert_eq!(info.validate_supported(), Ok(42));
    info.fedora_version = Some(40);
    assert_eq!(info.validate_supported(), Ok(40));
    info.fedora_version = Some(39);
    assert_eq!(info.validate_supported(), Err(PlannerError::UnsupportedFedora(39)));
    info.fedora_version = None;
    assert_eq!(info.validate_supported(), Err(PlannerError::NonFedora));
    info.has_internet = false;
    assert_eq!(info.validate_supported(), Err(PlannerError::Offline));
    info.has_dnf = false;
    assert_eq!(info.validate_supported(), Err(PlannerError::MissingDnf));
    info.is_atomic = true;
    assert_eq!(info.validate_supported(), Err(PlannerError::AtomicSystem));
    info.os_id = "Fedora".into();
    assert_eq!(info.validate_supported(), Err(PlannerError::NonFedora));
}

#[test]
fn rpmfusion_url_names_kind_and_release() {
    assert_eq!(
        postora_planner::rpmfusion_release_url("free", 42),
        "https://mirrors.rpmfusion.org/free/fedora/rpmfusion-free-release-42.noarch.rpm"
    );
    assert_eq!(
        postora_planner::rpmfusion_release_url("nonfree", 100),
        "https://mirrors.rpmfusion.org/nonfree/fedora/rpmfusion-nonfree-release-100.noarch.rpm"
    );
    assert_eq!(
        postora_planner::rpmfusion_release_url("free", 7),
        "https://mirrors.rpmfusion.org/free/fedora/rpmfusion-free-release-7.noarch.rpm"
    );
}

#[test]
fn command_display_joins_with_spaces() {
    assert_eq!(CommandSpec::new("dnf", &["install", "-y", "vlc"]).display(), "dnf install -y vlc");
    assert_eq!(CommandSpec::new("true", &[]).display(), "true");
    assert_ne!(CommandSpec::new("dnf", &["a"]), CommandSpec::new("dnf", &["a", "b"]));
}

#[test]
fn gpu_actions_need_their_gpu() {
    let mut info = base_info(42);
    let host = base_host();
    assert_eq!(
        commands_for_action(ActionId::AmdAcceleration, 42, &info, &host),
        Err(PlannerError::UnavailableAction(ActionId::AmdAcceleration))
    );
    info.gpu_vendors.insert(GpuVendor::Nvidia);
    let commands = commands_for_action(ActionId::NvidiaDriver, 42, &info, &host).unwrap();
    assert_eq!(display_all(&commands), vec!["dnf install -y akmod-nvidia xorg-x11-drv-nvidia-cuda"]);
    info.installed_packages.insert("akmod-nvidia".into());
    assert!(commands_for_action(ActionId::NvidiaDriver, 42, &info, &host).unwrap().is_empty());
    let mut no_gpu = base_info(42);
    no_gpu.installed_packages.insert("intel-media-driver".into());
    assert!(commands_for_action(ActionId::IntelAcceleration, 42, &no_gpu, &host).unwrap().is_empty());
}

#[test]
fn multimedia_and_flathub_commands_follow_what_is_installed() {
    let mut info = base_info(42);
    let host = base_host();
    let commands = commands_for_action(ActionId::MultimediaCodecs, 42, &info, &host).unwrap();
    assert_eq!(
        display_all(&commands),
        vec![
            "dnf install -y ffmpeg --allowerasing",
            "dnf update -y @multimedia --setopt=install_weak_deps=False --exclude=PackageKit-gstreamer-plugin",
        ]
    );
    info.installed_packages.insert("ffmpeg".into());
    info.installed_packages.insert("flatpak".into());
    let commands = commands_for_action(ActionId::MultimediaCodecs, 42, &info, &host).unwrap();
    assert_eq!(commands.len(), 1);
    let commands = commands_for_action(ActionId::Flathub, 42, &info, &host).unwrap();
    assert_eq!(
        display_all(&commands),
        vec![
            "flatpak remote-add --system --if-not-exists flathub https://dl.flathub.org/repo/flathub.flatpakrepo",
            "flatpak remote-modify --system --enable flathub",
        ]
    );
}

#[test]
fn flatpak_apps_install_from_flathub() {
    let mut info = base_info(42);
    let host = base_host();
    let commands = commands_for_action(ActionId::FlatpakGimp, 42, &info, &host).unwrap();
    assert_eq!(
        display_all(&commands),
        vec![
            "dnf install -y flatpak",
            "flatpak remote-add --system --if-not-exists flathub https://dl.flathub.org/repo/flathub.flatpakrepo",
            "flatpak remote-modify --system --enable flathub",
            "flatpak install -y flathub org.gimp.GIMP",
        ]
    );
    info.flatpak_remotes.insert("flathub".into());
    let commands = commands_for_action(ActionId::FlatpakGimp, 42, &info, &host).unwrap();
    assert_eq!(
        display_all(&commands),
        vec!["flatpak remote-modify --system --enable flathub", "flatpak install -y flathub org.gimp.GIMP"]
    );
}

#[test]
fn font_actions_download_and_unpack() {
    let info = base_info(42);
    let commands = commands_for_action(ActionId::FontHack, 42, &info, &base_host()).unwrap();
    assert_eq!(
        display_all(&commands),
        vec![
            "dnf install -y curl unzip fontconfig",
            "curl -fL -o /tmp/postora-Hack.zip https://github.com/ryanoasis/nerd-fonts/releases/download/v3.4.0/Hack.zip",
            "install -d -m 0755 /usr/local/share/fonts/postora/Hack",
            "unzip -o /tmp/postora-Hack.zip -d /usr/local/share/fonts/postora/Hack",
            "fc-cache -f /usr/local/share/fonts/postora/Hack",
        ]
    );
    let fonts = postora_planner::nerd_fonts();
    assert_eq!(fonts.len(), 10);
    assert_eq!(fonts[0].id, ActionId::FontFiraCode);
    assert_eq!(postora_planner::font_directory(&fonts[9]), "/usr/local/share/fonts/postora/Iosevka");
}

#[test]
fn per_user_installers_run_as_the_target_user() {
    let info = base_info(42);
    let mut host = base_host();
    host.target_home = Some("/home/o'brien".into());
    let commands = commands_for_action(ActionId::Zed, 42, &info, &host).unwrap();
    assert_eq!(commands.len(), 1);
    assert_eq!(commands[0].program, "runuser");
    assert_eq!(
        commands[0].args,
        vec![
            "-u".to_string(),
            "testuser".into(),
            "--".into(),
            "sh".into(),
            "-lc".into(),
            "export HOME='/home/o'\\''brien'; curl -f https://zed.dev/install.sh | sh".into(),
        ]
    );
    host.target_home = Some(String::new());
    let commands = commands_for_action(ActionId::Zed, 42, &info, &host).unwrap();
    assert!(commands[0].args[5].starts_with("export HOME='/home/testuser'; "));
    host.target_user = None;
    let commands = commands_for_action(ActionId::Zed, 42, &info, &host).unwrap();
    assert_eq!(
        display_all(&commands),
        vec!["sh -c echo 'No target user was provided for Install Zed' >&2; exit 1"]
    );
    host.zed_installed = true;
    assert!(commands_for_action(ActionId::Zed, 42, &info, &host).unwrap().is_empty());
}

#[test]
fn starship_and_zsh_commands() {
    let mut info = base_info(42);
    let host = base_host();
    let commands = commands_for_action(ActionId::Starship, 42, &info, &host).unwrap();
    assert_eq!(commands.len(), 2);
    assert_eq!(commands[0].display(), "sh -c curl -sS https://starship.rs/install.sh | sh -s -- -y");
    assert_eq!(commands[1].program, "runuser");
    let commands = commands_for_action(ActionId::ZshDefault, 42, &info, &host).unwrap();
    assert_eq!(commands.len(), 2);
    assert_eq!(commands[0].display(), "dnf install -y zsh");
    info.installed_packages.insert("zsh".into());
    let commands = commands_for_action(ActionId::ZshDefault, 42, &info, &host).unwrap();
    assert_eq!(commands.len(), 1);
    assert_eq!(commands[0].program, "sh");
    assert!(commands_for_action(ActionId::SystemUpdate, 42, &info, &host).unwrap().is_empty());
}

#[test]
fn plan_lists_gpu_actions_only_for_present_gpus() {
    let mut info = base_info(42);
    let host = base_host();
    let plan = build_plan(&info, &host).unwrap();
    assert_eq!(plan.fedora_version, 42);
    assert_eq!(plan.actions.len(), 39);
    assert!(plan.actions.iter().all(|a| a.id != ActionId::NvidiaDriver));
    assert_eq!(plan.plan_id.get_version_num(), 4);
    info.gpu_vendors.insert(GpuVendor::Nvidia);
    info.secure_boot = SecureBootState::Enabled;
    let plan = build_plan(&info, &host).unwrap();
    assert_eq!(plan.actions.len(), 40);
    let nvidia = plan.actions.iter().find(|a| a.id == ActionId::NvidiaDriver).unwrap();
    assert!(!nvidia.selected_by_default);
    assert!(nvidia.warning.as_deref().unwrap().starts_with("Secure Boot is enabled."));
    assert_eq!(plan.actions[5].id, ActionId::NvidiaDriver);
    let ids: Vec<ActionId> = plan.actions.iter().map(|a| a.id).collect();
    let unique: std::collections::BTreeSet<ActionId> = ids.iter().copied().collect();
    assert_eq!(unique.len(), ids.len());
    assert_eq!(ids[ids.len() - 1], ActionId::FontIosevka);
}

#[test]
fn plan_marks_done_actions_and_never_selects_them() {
    let mut info = base_info(42);
    info.enabled_repos.insert("rpmfusion-free".into());
    info.flatpak_apps.insert("org.gimp.GIMP".into());
    let mut host = base_host();
    host.installed_fonts.insert(ActionId::FontHack);
    let plan = build_plan(&info, &host).unwrap();
    let find = |id: ActionId| plan.actions.iter().find(|a| a.id == id).unwrap();
    assert!(find(ActionId::RpmFusionFree).already_complete);
    assert!(!find(ActionId::RpmFusionFree).selected_by_default);
    assert!(find(ActionId::RpmFusionNonfree).selected_by_default);
    assert!(find(ActionId::FlatpakGimp).already_complete);
    assert!(find(ActionId::FontHack).already_complete);
    assert_eq!(
        find(ActionId::FontHack).description,
        "Install the Hack Nerd Font from the Nerd Fonts v3.4.0 release."
    );
    assert_eq!(find(ActionId::Ghostty).warning.as_deref(), Some("This enables a third-party COPR repository."));
    assert!(plan.actions.iter().all(|a| !(a.selected_by_default && a.already_complete)));
}

#[test]
fn request_for_another_release_is_refused_unless_upgrading() {
    let info = base_info(42);
    let r = request(&[ActionId::Vlc], 41, false);
    assert_eq!(
        commands_for_request(&r, &info, &base_host()).unwrap_err(),
        PlannerError::UnsupportedFedora(41)
    );
    let r = request(&[ActionId::Vlc], 41, true);
    assert!(commands_for_request(&r, &info, &base_host()).is_ok());
    let r = request(&[ActionId::SystemUpdate], 42, false);
    assert_eq!(
        commands_for_request(&r, &info, &base_host()).unwrap_err(),
        PlannerError::UnavailableAction(ActionId::SystemUpdate)
    );
}

#[test]
fn refresh_follows_the_last_repository_in_action_order() {
    let info = base_info(42);
    let r = request(&[ActionId::Vlc, ActionId::CiscoOpenh264Repo, ActionId::RpmFusionNonfree], 42, true);
    let commands = commands_for_request(&r, &info, &base_host()).unwrap();
    let tags: Vec<ActionId> = commands.iter().map(|(a, _)| *a).collect();
    assert_eq!(
        tags,
        vec![
            ActionId::SystemUpdate,
            ActionId::RpmFusionNonfree,
            ActionId::CiscoOpenh264Repo,
            ActionId::CiscoOpenh264Repo,
            ActionId::Vlc,
        ]
    );
    assert_eq!(commands[0].1.display(), "dnf upgrade -y --refresh");
    assert_eq!(commands[3].1.display(), "dnf update -y --refresh");
    assert_eq!(commands[4].1.display(), "dnf install -y vlc");
    let r = request(&[ActionId::Vlc], 42, false);
    let commands = commands_for_request(&r, &info, &base_host()).unwrap();
    assert_eq!(commands.len(), 1);
}

#[test]
fn action_sets_walk_in_declaration_order() {
    let mut set = ActionSet::from_slice(&[ActionId::FlatpakBottles, ActionId::Zed, ActionId::RpmFusionFree]);
    assert_eq!(set.to_vec(), vec![ActionId::RpmFusionFree, ActionId::Zed, ActionId::FlatpakBottles]);
    assert!(!set.insert(ActionId::Zed));
    assert!(set.remove(ActionId::Zed));
    assert!(!set.contains(ActionId::Zed));
    assert!(!set.is_empty());
    assert!(ActionSet::new().is_empty());
    assert_eq!(ActionId::from_index(ActionId::FontMeslo.index()), ActionId::FontMeslo);
    let vendors = GpuVendorSet::from_slice(&[GpuVendor::Other, GpuVendor::Nvidia, GpuVendor::Other]);
    assert_eq!(vendors.to_vec(), vec![GpuVendor::Nvidia, GpuVendor::Other]);
    let mut names = StringSet::from_slice(&["a", "b"]);
    assert!(!names.insert("a".into()));
    assert!(names.contains("b"));
    assert!(!names.contains("c"));
}
