use postora_planner::detect::{
    detect_gpu_vendors, detect_secure_boot, enabled_repos, flatpak_apps, flatpak_remotes, installed_packages,
    os_release_entries, os_release_value,
};
use postora_planner::display::{
    action_status_label, action_subtitle, can_uninstall, format_system_subtitle, format_system_title,
    line_reports_change, needs_restart,
};
use postora_planner::host::{
    current_home_dir, current_user_name, default_shell_is_zsh, login_shell_is_zsh, passwd_entry,
    starship_configured,
};
use postora_planner::{
    detect_system, Action, ActionCategory, ActionId, ActionSet, GpuVendor, GpuVendorSet, SecureBootState, StringSet,
    SystemInfo, SystemProbe,
};

const PASSWD: &str = "root:x:0:0:root:/root:/bin/bash\nalice:x:1000:1000:Alice:/home/alice:/usr/bin/zsh\nbob:x:1001:1001::/home/bob:/bin/bash\n";

fn info(version: Option<u16>) -> SystemInfo {
    SystemInfo {
        os_id: "fedora".into(),
        os_name: "Fedora Linux".into(),
        fedora_version: version,
        arch: "x86_64".into(),
        is_atomic: false,
        has_dnf: true,
        has_internet: true,
        secure_boot: SecureBootState::Enabled,
        gpu_vendors: GpuVendorSet::new(),
        installed_packages: StringSet::new(),
        enabled_repos: StringSet::new(),
        flatpak_remotes: StringSet::new(),
        flatpak_apps: StringSet::new(),
    }
}

fn action(id: ActionId, category: ActionCategory, warning: Option<&str>) -> Action {
    Action {
        id,
        category,
        title: "Title".into(),
        description: "Does a thing.".into(),
        recommended: false,
        selected_by_default: false,
        already_complete: false,
        warning: warning.map(String::from),
    }
}

#[test]
fn secure_boot_state_follows_mokutil() {
    assert_eq!(detect_secure_boot(Some("SecureBoot enabled\n")), SecureBootState::Enabled);
    assert_eq!(detect_secure_boot(Some("SecureBoot DISABLED\n")), SecureBootState::Disabled);
    assert_eq!(detect_secure_boot(Some("EFI variables are not supported")), SecureBootState::Unknown);
    assert_eq!(detect_secure_boot(None), SecureBootState::Unknown);
}

#[test]
fn package_lists_are_trimmed_and_skip_blank_lines() {
    let packages = installed_packages("bash\n  vim-enhanced \n\nkernel\r\n");
    assert!(packages.contains("bash"));
    assert!(packages.contains("vim-enhanced"));
    assert!(packages.contains("kernel"));
    assert!(!packages.contains(""));
    assert!(!packages.contains("  vim-enhanced "));
    assert!(!installed_packages("").contains("bash"));
}

#[test]
fn flatpak_lists_leave_out_their_header() {
    let remotes = flatpak_remotes("Name\nflathub\n  fedora  \n");
    assert!(remotes.contains("flathub"));
    assert!(remotes.contains("fedora"));
    assert!(!remotes.contains("Name"));
    let apps = flatpak_apps("Application\norg.mozilla.firefox\n\n");
    assert!(apps.contains("org.mozilla.firefox"));
    assert!(!apps.contains("Application"));
    assert!(!apps.contains(""));
}

#[test]
fn enabled_repos_take_first_words_of_both_outputs() {
    let repos = enabled_repos(
        "fedora\nupdates\n",
        "repo id            repo name\nrpmfusion-free     RPM Fusion for Fedora - Free\nID x\n",
    );
    assert!(repos.contains("fedora"));
    assert!(repos.contains("updates"));
    assert!(repos.contains("rpmfusion-free"));
    assert!(!repos.contains("repo"));
    assert!(!repos.contains("ID"));
    assert!(!repos.contains("RPM"));
    let none = enabled_repos("", "");
    assert!(!none.contains("fedora"));
}

#[test]
fn gpu_vendors_come_from_sysfs_ids_first() {
    let vendors = detect_gpu_vendors(
        &vec!["0x10de\n".to_string(), " 0X8086 ".to_string()],
        "01:00.0 VGA compatible controller: Advanced Micro Devices",
    );
    assert!(vendors.contains(GpuVendor::Nvidia));
    assert!(vendors.contains(GpuVendor::Intel));
    assert!(!vendors.contains(GpuVendor::Amd));
    let other = detect_gpu_vendors(&vec!["0xabcd".to_string()], "01:00.0 3D controller: NVIDIA");
    assert_eq!(other.to_vec(), vec![GpuVendor::Other]);
}

#[test]
fn gpu_vendors_fall_back_to_lspci() {
    let lspci = "00:02.0 Display controller: Intel UHD 620\n01:00.0 3D controller: NVIDIA Corporation\n00:1f.3 Audio device: Intel\n";
    let vendors = detect_gpu_vendors(&Vec::new(), lspci);
    assert_eq!(vendors.to_vec(), vec![GpuVendor::Nvidia, GpuVendor::Intel]);
    assert!(detect_gpu_vendors(&Vec::new(), "").is_empty());
    // "ati" is looked for before "intel", and "compatible" holds it.
    assert_eq!(
        GpuVendor::from_lspci_line("00:02.0 VGA compatible controller: Intel UHD 620"),
        Some(GpuVendor::Amd)
    );
    assert_eq!(GpuVendor::from_lspci_line("00:1f.3 Audio device: Intel"), None);
}

#[test]
fn os_release_values_are_unquoted_and_last_one_wins() {
    let entries = os_release_entries("NAME=\"Fedora Linux\"\nID=fedora\nVERSION_ID=42\n# comment\nID=other\n");
    assert_eq!(entries.len(), 4);
    assert_eq!(entries[0], ("NAME".to_string(), "Fedora Linux".to_string()));
    assert_eq!(os_release_value(&entries, "ID"), Some("other".to_string()));
    assert_eq!(os_release_value(&entries, "NAME"), Some("Fedora Linux".to_string()));
    assert_eq!(os_release_value(&entries, "VERSION_ID"), Some("42".to_string()));
    assert_eq!(os_release_value(&entries, "MISSING"), None);
    let split = os_release_entries("PRETTY=a=b\n");
    assert_eq!(split[0], ("PRETTY".to_string(), "a=b".to_string()));
}

fn probe() -> SystemProbe {
    SystemProbe {
        os_release: "NAME=\"Fedora Linux\"\nID=fedora\nVERSION_ID=41\n".into(),
        rpm_fedora: Some(" 42\n".into()),
        uname_machine: "x86_64\n".into(),
        rpm_ostree_present: false,
        ostree_booted: true,
        dnf_present: true,
        mirrors_reachable: false,
        mirrors_pingable: true,
        mokutil_output: Some("SecureBoot disabled\n".into()),
        drm_vendor_ids: vec!["0x1002\n".into()],
        lspci_output: String::new(),
        rpm_packages: "bash\nkernel\n".into(),
        dnf_repoquery: "fedora\n".into(),
        dnf_repolist: "repo id   repo name\nupdates   Fedora Updates\n".into(),
        flatpak_remotes: "Name\nflathub\n".into(),
        flatpak_apps: "Application\norg.gimp.GIMP\n".into(),
    }
}

#[test]
fn system_description_combines_the_probe() {
    let system = detect_system(&probe());
    assert_eq!(system.os_id, "fedora");
    assert_eq!(system.os_name, "Fedora Linux");
    assert_eq!(system.fedora_version, Some(42));
    assert_eq!(system.arch, "x86_64");
    assert!(system.is_atomic);
    assert!(system.has_dnf);
    assert!(system.has_internet);
    assert_eq!(system.secure_boot, SecureBootState::Disabled);
    assert_eq!(system.gpu_vendors.to_vec(), vec![GpuVendor::Amd]);
    assert!(system.installed_packages.contains("kernel"));
    assert!(system.enabled_repos.contains("fedora"));
    assert!(system.enabled_repos.contains("updates"));
    assert!(system.flatpak_remotes.contains("flathub"));
    assert!(system.flatpak_apps.contains("org.gimp.GIMP"));
}

#[test]
fn fedora_release_falls_back_to_version_id() {
    let mut p = probe();
    p.rpm_fedora = Some("%fedora\n".into());
    assert_eq!(detect_system(&p).fedora_version, Some(41));
    p.rpm_fedora = None;
    assert_eq!(detect_system(&p).fedora_version, Some(41));
    p.rpm_fedora = Some("70000".into());
    assert_eq!(detect_system(&p).fedora_version, Some(41));
    p.rpm_fedora = Some("+43".into());
    assert_eq!(detect_system(&p).fedora_version, Some(43));
    p.rpm_fedora = None;
    p.os_release = "NAME=Fedora\nVERSION_ID=\"40\"\n".into();
    assert_eq!(detect_system(&p).fedora_version, Some(40));
    p.os_release = "ID=fedora\n".into();
    let system = detect_system(&p);
    assert_eq!(system.fedora_version, None);
    assert_eq!(system.os_name, "fedora");
    p.os_release = String::new();
    assert_eq!(detect_system(&p).os_id, "");
}

#[test]
fn target_user_is_the_first_nonempty_variable() {
    assert_eq!(current_user_name(Some("bob"), Some("alice"), None), Some("bob".to_string()));
    assert_eq!(current_user_name(Some(""), Some("alice"), Some("root")), Some("alice".to_string()));
    assert_eq!(current_user_name(None, Some(""), Some("root")), Some("root".to_string()));
    assert_eq!(current_user_name(None, None, Some("")), None);
}

#[test]
fn target_home_prefers_the_override() {
    assert_eq!(current_home_dir(Some("/home/alice"), Some("/root")), "/home/alice");
    assert_eq!(current_home_dir(None, Some("/root")), "/root");
    assert_eq!(current_home_dir(None, None), "/");
}

#[test]
fn starship_needs_binary_config_and_both_hooks() {
    let bashrc = "alias ll='ls -l'\neval \"$(starship init bash)\"\n";
    let zshrc = "eval \"$(starship init zsh)\"\n";
    assert!(starship_configured(true, true, Some(bashrc), Some(zshrc)));
    assert!(!starship_configured(false, true, Some(bashrc), Some(zshrc)));
    assert!(!starship_configured(true, false, Some(bashrc), Some(zshrc)));
    assert!(!starship_configured(true, true, Some(bashrc), None));
    assert!(!starship_configured(true, true, Some(zshrc), Some(zshrc)));
}

#[test]
fn passwd_entry_matches_the_whole_user_field() {
    assert_eq!(
        passwd_entry(PASSWD, "alice"),
        Some("alice:x:1000:1000:Alice:/home/alice:/usr/bin/zsh".to_string())
    );
    assert_eq!(passwd_entry(PASSWD, "ali"), None);
    assert_eq!(passwd_entry(PASSWD, "carol"), None);
}

#[test]
fn login_shell_is_the_seventh_field() {
    assert!(login_shell_is_zsh("alice:x:1000:1000:Alice:/home/alice:/usr/bin/zsh"));
    assert!(!login_shell_is_zsh("bob:x:1001:1001::/home/bob:/bin/bash"));
    assert!(!login_shell_is_zsh("alice:x:1000:1000:/usr/bin/zsh"));
    assert!(!login_shell_is_zsh("alice:x:1000:1000:Alice:/home/alice:/usr/bin/zsh\n"));
}

#[test]
fn default_shell_uses_getent_then_passwd() {
    assert!(default_shell_is_zsh(Some("alice:x:1000:1000:Alice:/home/alice:/bin/zsh"), None, "alice"));
    assert!(default_shell_is_zsh(None, Some(PASSWD), "alice"));
    assert!(!default_shell_is_zsh(None, Some(PASSWD), "bob"));
    assert!(!default_shell_is_zsh(None, Some(PASSWD), "carol"));
    assert!(!default_shell_is_zsh(None, None, "alice"));
}

#[test]
fn status_labels_follow_category() {
    assert_eq!(action_status_label(&action(ActionId::Flathub, ActionCategory::FedoraSetup, None)), "Enabled");
    assert_eq!(action_status_label(&action(ActionId::ZshDefault, ActionCategory::ExtraApps, None)), "Configured");
    assert_eq!(action_status_label(&action(ActionId::Starship, ActionCategory::ExtraApps, None)), "Configured");
    assert_eq!(action_status_label(&action(ActionId::Zed, ActionCategory::ExtraApps, None)), "Installed");
    assert_eq!(action_status_label(&action(ActionId::FontHack, ActionCategory::NerdFonts, None)), "Installed");
}

#[test]
fn subtitles_show_status_or_description_and_warning() {
    let warned = action(ActionId::NvidiaDriver, ActionCategory::FedoraSetup, Some("Reboot needed."));
    assert_eq!(action_subtitle(&warned, false), "Does a thing. Reboot needed.");
    assert_eq!(action_subtitle(&warned, true), "Enabled");
    let plain = action(ActionId::Vlc, ActionCategory::ExtraApps, None);
    assert_eq!(action_subtitle(&plain, false), "Does a thing.");
    assert!(can_uninstall(&plain));
    assert!(!can_uninstall(&warned));
    assert!(!can_uninstall(&action(ActionId::ZshDefault, ActionCategory::ExtraApps, None)));
}

#[test]
fn system_title_and_subtitle() {
    let mut system = info(Some(42));
    assert_eq!(format_system_title(&system), "Fedora Linux 42 (x86_64)");
    assert_eq!(format_system_subtitle(&system), "GPU: unknown | Secure Boot: enabled");
    system.gpu_vendors = GpuVendorSet::from_slice(&[GpuVendor::Intel, GpuVendor::Nvidia]);
    system.secure_boot = SecureBootState::Unknown;
    assert_eq!(format_system_subtitle(&system), "GPU: {Nvidia, Intel} | Secure Boot: unknown");
    system.gpu_vendors = GpuVendorSet::from_slice(&[GpuVendor::Amd]);
    system.secure_boot = SecureBootState::Disabled;
    assert_eq!(format_system_subtitle(&system), "GPU: {Amd} | Secure Boot: disabled");
    assert_eq!(format_system_title(&info(None)), "Fedora Linux unknown (x86_64)");
}

#[test]
fn change_lines_and_restart() {
    assert!(line_reports_change("Upgrading: kernel-6.9"));
    assert!(line_reports_change("  INSTALLED: vlc"));
    assert!(line_reports_change("Installing dependencies"));
    assert!(!line_reports_change("Nothing to do."));
    let mut applied = ActionSet::new();
    assert!(needs_restart(true, true, &applied));
    assert!(!needs_restart(true, false, &applied));
    assert!(!needs_restart(false, true, &applied));
    applied.insert(ActionId::Vlc);
    assert!(!needs_restart(false, false, &applied));
    applied.insert(ActionId::ZshDefault);
    assert!(needs_restart(false, false, &applied));
}
