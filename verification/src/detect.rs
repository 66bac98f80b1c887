//! Reading what system tools printed: GPU vendors, Secure Boot, package,
//! repository and Flatpak lists, os-release entries and release numbers.
use vstd::prelude::*;
use crate::model::{GpuVendor, SecureBootState, SystemInfo};
use crate::sets::{GpuVendorSet, StringSet};
use crate::text::{
    ascii_lower, char_views, chars_of, contains_chars, contains_text, eq_ignore_ascii_case, find_char, first_word,
    first_word_of, index_of, lines, lines_of, lowered, parse_u16, parse_u16_chars, same_ignoring_ascii_case,
    string_from_chars, trim, trim_quotes, trimmed, unquoted,
};

verus! {

/// The vendor that a PCI vendor id (as in sysfs, with or without `0x`, any
/// case, surrounding whitespace ignored) stands for.
pub open spec fn vendor_of_pci_id(raw: Seq<char>) -> GpuVendor {
    let id = ascii_lower(trim(raw));
    if id == "0x10de"@ || id == "10de"@ {
        GpuVendor::Nvidia
    } else if id == "0x1002"@ || id == "1002"@ || id == "0x1022"@ || id == "1022"@ {
        GpuVendor::Amd
    } else if id == "0x8086"@ || id == "8086"@ {
        GpuVendor::Intel
    } else {
        GpuVendor::Other
    }
}

/// The vendor of the display controller that a line of `lspci` describes,
/// when the line describes one (it names VGA, 3D controller or display).
pub open spec fn vendor_of_lspci_line(line: Seq<char>) -> Option<GpuVendor> {
    let lower = ascii_lower(line);
    if !(contains_text(lower, "vga"@) || contains_text(lower, "3d controller"@) || contains_text(lower, "display"@)) {
        None
    } else if contains_text(lower, "nvidia"@) {
        Some(GpuVendor::Nvidia)
    } else if contains_text(lower, "amd"@) || contains_text(lower, "ati"@) || contains_text(
        lower,
        "advanced micro devices"@,
    ) {
        Some(GpuVendor::Amd)
    } else if contains_text(lower, "intel"@) {
        Some(GpuVendor::Intel)
    } else {
        Some(GpuVendor::Other)
    }
}

impl GpuVendor {
    /// The vendor that a PCI vendor id stands for.
    pub fn from_pci_vendor_id(raw: &str) -> (r: GpuVendor)
        ensures
            r == vendor_of_pci_id(raw@),
    {
        let chars = chars_of(raw);
        let t = trimmed(&chars);
        let l = lowered(&t);
        let id = string_from_chars(&l);
        if id == String::from_str("0x10de") || id == String::from_str("10de") {
            GpuVendor::Nvidia
        } else if id == String::from_str("0x1002") || id == String::from_str("1002") || id == String::from_str(
            "0x1022",
        ) || id == String::from_str("1022") {
            GpuVendor::Amd
        } else if id == String::from_str("0x8086") || id == String::from_str("8086") {
            GpuVendor::Intel
        } else {
            GpuVendor::Other
        }
    }

    /// The vendor of the display controller that a line of `lspci`
    /// describes, when it describes one.
    pub fn from_lspci_line(line: &str) -> (r: Option<GpuVendor>)
        ensures
            r == vendor_of_lspci_line(line@),
    {
        let chars = chars_of(line);
        let lower = lowered(&chars);
        if !(contains_chars(&lower, "vga") || contains_chars(&lower, "3d controller") || contains_chars(
            &lower,
            "display",
        )) {
            return None;
        }
        if contains_chars(&lower, "nvidia") {
            Some(GpuVendor::Nvidia)
        } else if contains_chars(&lower, "amd") || contains_chars(&lower, "ati") || contains_chars(
            &lower,
            "advanced micro devices",
        ) {
            Some(GpuVendor::Amd)
        } else if contains_chars(&lower, "intel") {
            Some(GpuVendor::Intel)
        } else {
            Some(GpuVendor::Other)
        }
    }
}

/// The Secure Boot state that `mokutil --sb-state` reported: unknown when it
/// did not run or said neither "enabled" nor "disabled" (in any case).
pub open spec fn secure_boot_of(output: Option<Seq<char>>) -> SecureBootState {
    match output {
        None => SecureBootState::Unknown,
        Some(text) => if contains_text(ascii_lower(text), "enabled"@) {
            SecureBootState::Enabled
        } else if contains_text(ascii_lower(text), "disabled"@) {
            SecureBootState::Disabled
        } else {
            SecureBootState::Unknown
        },
    }
}

/// The Secure Boot state that the output of `mokutil --sb-state` reports,
/// `None` when the command did not succeed.
pub fn detect_secure_boot(output: Option<&str>) -> (r: SecureBootState)
    ensures
        r == secure_boot_of(
            match output {
                Some(t) => Some(t@),
                None => None,
            },
        ),
{
    match output {
        None => SecureBootState::Unknown,
        Some(text) => {
            let chars = chars_of(text);
            let lower = lowered(&chars);
            if contains_chars(&lower, "enabled") {
                SecureBootState::Enabled
            } else if contains_chars(&lower, "disabled") {
                SecureBootState::Disabled
            } else {
                SecureBootState::Unknown
            }
        },
    }
}

/// The names that the first `n` lines of `text` list, one per line: each line
/// trimmed, empty lines and the column header left out.
pub open spec fn listed_names_upto(text: Seq<char>, header: Seq<char>, n: int) -> Set<Seq<char>> {
    Set::new(
        |name: Seq<char>|
            name.len() > 0 && name != header && exists|j: int| 0 <= j < n && #[trigger] trim(lines(text)[j]) == name,
    )
}

/// The names that `text` lists, one per line: each line trimmed, empty lines
/// and the column header left out.
pub open spec fn listed_names(text: Seq<char>, header: Seq<char>) -> Set<Seq<char>> {
    listed_names_upto(text, header, lines(text).len() as int)
}

/// The names that `text` lists, one per line.
fn names_from_lines(text: &str, header: &str) -> (r: StringSet)
    ensures
        r@ == listed_names(text@, header@),
{
    let chars = chars_of(text);
    let ls = lines_of(&chars);
    let head = String::from_str(header);
    let mut set = StringSet::new();
    let mut i: usize = 0;
    proof {
        assert(set@ =~= listed_names_upto(text@, header@, 0));
    }
    while i < ls.len()
        invariant
            i <= ls@.len(),
            chars@ == text@,
            head@ == header@,
            char_views(ls@) == lines(text@),
            set@ == listed_names_upto(text@, header@, i as int),
        decreases ls@.len() - i,
    {
        let t = trimmed(&ls[i]);
        proof {
            assert(ls@[i as int]@ == lines(text@)[i as int]);
        }
        let name = string_from_chars(&t);
        if t.len() > 0 && !(name == head) {
            set.insert(name);
            proof {
                assert(set@ =~= listed_names_upto(text@, header@, i + 1));
            }
        } else {
            proof {
                assert(set@ =~= listed_names_upto(text@, header@, i + 1));
            }
        }
        i = i + 1;
    }
    set
}

/// The installed packages that `rpm -qa --qf '%{NAME}\n'` printed (nothing
/// when it failed).
pub fn installed_packages(rpm_output: &str) -> (r: StringSet)
    ensures
        r@ == listed_names(rpm_output@, Seq::empty()),
{
    let r = names_from_lines(rpm_output, "");
    proof {
        reveal_strlit("");
    }
    r
}

/// The Flatpak remotes that `flatpak remotes --columns=name` printed.
pub fn flatpak_remotes(output: &str) -> (r: StringSet)
    ensures
        r@ == listed_names(output@, "Name"@),
{
    names_from_lines(output, "Name")
}

/// The Flatpak applications that `flatpak list --columns=application` printed.
pub fn flatpak_apps(output: &str) -> (r: StringSet)
    ensures
        r@ == listed_names(output@, "Application"@),
{
    names_from_lines(output, "Application")
}

/// Whether a word is a repository id rather than a column header.
pub open spec fn repo_word(w: Seq<char>) -> bool {
    !eq_ignore_ascii_case(w, "repo"@) && !eq_ignore_ascii_case(w, "id"@)
}

/// The repository ids that the first `n` lines of `text` start with, column
/// headers left out.
pub open spec fn repo_ids_upto(text: Seq<char>, n: int) -> Set<Seq<char>> {
    Set::new(
        |w: Seq<char>|
            repo_word(w) && exists|j: int| 0 <= j < n && #[trigger] first_word(lines(text)[j]) == Some(w),
    )
}

/// The repository ids that the lines of `text` start with, column headers
/// left out.
pub open spec fn repo_ids(text: Seq<char>) -> Set<Seq<char>> {
    repo_ids_upto(text, lines(text).len() as int)
}

/// Adds the repository ids that the lines of `text` start with.
fn add_repo_ids(set: &mut StringSet, text: &str)
    ensures
        final(set)@ == old(set)@.union(repo_ids(text@)),
{
    let chars = chars_of(text);
    let ls = lines_of(&chars);
    let mut i: usize = 0;
    proof {
        assert(old(set)@.union(repo_ids_upto(text@, 0)) =~= old(set)@);
    }
    while i < ls.len()
        invariant
            i <= ls@.len(),
            chars@ == text@,
            char_views(ls@) == lines(text@),
            set@ == old(set)@.union(repo_ids_upto(text@, i as int)),
        decreases ls@.len() - i,
    {
        proof {
            assert(ls@[i as int]@ == lines(text@)[i as int]);
        }
        match first_word_of(&ls[i]) {
            Some(w) => {
                if !same_ignoring_ascii_case(&w, "repo") && !same_ignoring_ascii_case(&w, "id") {
                    set.insert(string_from_chars(&w));
                }
            },
            None => {},
        }
        proof {
            assert(set@ =~= old(set)@.union(repo_ids_upto(text@, i + 1)));
        }
        i = i + 1;
    }
}

/// The enabled repositories that `dnf repoquery` and `dnf repolist --enabled`
/// printed (nothing for a command that failed).
pub fn enabled_repos(repoquery_output: &str, repolist_output: &str) -> (r: StringSet)
    ensures
        r@ == repo_ids(repoquery_output@).union(repo_ids(repolist_output@)),
{
    let mut set = StringSet::new();
    add_repo_ids(&mut set, repoquery_output);
    add_repo_ids(&mut set, repolist_output);
    proof {
        assert(set@ =~= repo_ids(repoquery_output@).union(repo_ids(repolist_output@)));
    }
    set
}

/// The display controller vendors among the lines of `lspci` output.
pub open spec fn lspci_vendors(text: Seq<char>) -> Set<GpuVendor> {
    Set::new(
        |v: GpuVendor|
            exists|j: int| 0 <= j < lines(text).len() && #[trigger] vendor_of_lspci_line(lines(text)[j]) == Some(v),
    )
}

/// The GPU vendors of the system: those of the PCI vendor ids read from
/// sysfs, or, when none could be read, those that `lspci` lists.
pub open spec fn gpu_vendors_of(vendor_ids: Seq<Seq<char>>, lspci: Seq<char>) -> Set<GpuVendor> {
    if vendor_ids.len() > 0 {
        vendor_ids.map_values(|id: Seq<char>| vendor_of_pci_id(id)).to_set()
    } else {
        lspci_vendors(lspci)
    }
}

/// The views of a list of strings.
pub open spec fn string_views(v: Seq<String>) -> Seq<Seq<char>> {
    v.map_values(|s: String| s@)
}

/// The GPU vendors of the system: those of the PCI vendor ids read from
/// sysfs, or, when none could be read, those that the output of `lspci` lists.
pub fn detect_gpu_vendors(vendor_ids: &Vec<String>, lspci_output: &str) -> (r: GpuVendorSet)
    ensures
        r@ == gpu_vendors_of(string_views(vendor_ids@), lspci_output@),
{
    let mut vendors = GpuVendorSet::new();
    let ghost ids = string_views(vendor_ids@);
    let mut i: usize = 0;
    while i < vendor_ids.len()
        invariant
            i <= vendor_ids@.len(),
            ids == string_views(vendor_ids@),
            vendors@ == ids.take(i as int).map_values(|id: Seq<char>| vendor_of_pci_id(id)).to_set(),
        decreases vendor_ids@.len() - i,
    {
        let v = GpuVendor::from_pci_vendor_id(vendor_ids[i].as_str());
        vendors.insert(v);
        proof {
            let f = |id: Seq<char>| vendor_of_pci_id(id);
            assert(ids.take(i + 1).map_values(f) =~= ids.take(i as int).map_values(f).push(v));
            ids.take(i as int).map_values(f).lemma_push_to_set_commute(v);
        }
        i = i + 1;
    }
    proof {
        let f = |id: Seq<char>| vendor_of_pci_id(id);
        assert(ids.take(ids.len() as int) =~= ids);
        if ids.len() == 0 {
            assert(ids.map_values(f).to_set() =~= Set::<GpuVendor>::empty());
        } else {
            assert(ids.map_values(f)[0] == vendor_of_pci_id(ids[0]));
            assert(ids.map_values(f).contains(vendor_of_pci_id(ids[0])));
        }
    }
    if vendors.is_empty() {
        let chars = chars_of(lspci_output);
        let ls = lines_of(&chars);
        let mut j: usize = 0;
        proof {
            if ids.len() > 0 {
                assert(vendors@.contains(vendor_of_pci_id(ids[0])));
            }
            assert(vendors@ =~= Set::<GpuVendor>::empty());
        }
        while j < ls.len()
            invariant
                j <= ls@.len(),
                ids.len() == 0,
                chars@ == lspci_output@,
                char_views(ls@) == lines(lspci_output@),
                forall|v: GpuVendor| #[trigger] vendors@.contains(v) <==> exists|k: int|
                    0 <= k < j && #[trigger] vendor_of_lspci_line(lines(lspci_output@)[k]) == Some(v),
            decreases ls@.len() - j,
        {
            let line = string_from_chars(&ls[j]);
            proof {
                assert(ls@[j as int]@ == lines(lspci_output@)[j as int]);
            }
            match GpuVendor::from_lspci_line(line.as_str()) {
                Some(v) => {
                    vendors.insert(v);
                },
                None => {},
            }
            j = j + 1;
        }
        proof {
            assert(vendors@ =~= lspci_vendors(lspci_output@));
        }
    }
    vendors
}

/// The key and value of an os-release line `KEY=value`: split at the first
/// `=`, the value without surrounding double quotes.
pub open spec fn os_release_pair(line: Seq<char>) -> Option<(Seq<char>, Seq<char>)> {
    let i = index_of(line, '=');
    if i < 0 {
        None
    } else {
        Some((line.take(i), trim_quotes(line.subrange(i + 1, line.len() as int))))
    }
}

/// The key/value pairs of the first `n` lines of `ls`, in order.
pub open spec fn os_release_pairs_upto(ls: Seq<Seq<char>>, n: int) -> Seq<(Seq<char>, Seq<char>)>
    decreases n,
{
    if n <= 0 {
        Seq::empty()
    } else {
        os_release_pairs_upto(ls, n - 1) + match os_release_pair(ls[n - 1]) {
            Some(p) => seq![p],
            None => Seq::empty(),
        }
    }
}

/// The key/value pairs of an os-release file, in order.
pub open spec fn os_release_pairs(text: Seq<char>) -> Seq<(Seq<char>, Seq<char>)> {
    os_release_pairs_upto(lines(text), lines(text).len() as int)
}

/// The value of the last pair with key `key`.
pub open spec fn lookup(pairs: Seq<(Seq<char>, Seq<char>)>, key: Seq<char>) -> Option<Seq<char>>
    decreases pairs.len(),
{
    if pairs.len() == 0 {
        None
    } else if pairs.last().0 == key {
        Some(pairs.last().1)
    } else {
        lookup(pairs.drop_last(), key)
    }
}

/// The views of a list of string pairs.
pub open spec fn pair_views(v: Seq<(String, String)>) -> Seq<(Seq<char>, Seq<char>)> {
    v.map_values(|p: (String, String)| (p.0@, p.1@))
}

/// The key/value pairs of an os-release file, in order.
pub fn os_release_entries(text: &str) -> (r: Vec<(String, String)>)
    ensures
        pair_views(r@) == os_release_pairs(text@),
{
    let chars = chars_of(text);
    let ls = lines_of(&chars);
    let mut out: Vec<(String, String)> = Vec::new();
    let mut i: usize = 0;
    while i < ls.len()
        invariant
            i <= ls@.len(),
            chars@ == text@,
            char_views(ls@) == lines(text@),
            pair_views(out@) == os_release_pairs_upto(lines(text@), i as int),
        decreases ls@.len() - i,
    {
        let line = &ls[i];
        proof {
            assert(line@ == lines(text@)[i as int]);
        }
        let ghost before = pair_views(out@);
        match find_char(line, '=') {
            Some(k) => {
                let mut key: Vec<char> = Vec::new();
                let mut j: usize = 0;
                while j < k
                    invariant
                        j <= k < line@.len(),
                        key@ == line@.take(j as int),
                    decreases k - j,
                {
                    key.push(line[j]);
                    proof {
                        assert(line@.take(j + 1) =~= line@.take(j as int).push(line@[j as int]));
                    }
                    j = j + 1;
                }
                let value = unquoted(line, k + 1);
                out.push((string_from_chars(&key), string_from_chars(&value)));
                proof {
                    assert(pair_views(out@) =~= before.push((line@.take(k as int), trim_quotes(line@.subrange(k + 1, line@.len() as int)))));
                }
            },
            None => {
                proof {
                    assert(pair_views(out@) =~= before + Seq::<(Seq<char>, Seq<char>)>::empty());
                }
            },
        }
        proof {
            assert(pair_views(out@) =~= os_release_pairs_upto(lines(text@), i + 1));
        }
        i = i + 1;
    }
    out
}

/// The value that an os-release file gives `key` (its last line for the key).
pub fn os_release_value(entries: &Vec<(String, String)>, key: &str) -> (r: Option<String>)
    ensures
        match r {
            Some(v) => lookup(pair_views(entries@), key@) == Some(v@),
            None => lookup(pair_views(entries@), key@) is None,
        },
{
    let wanted = String::from_str(key);
    let mut i = entries.len();
    let ghost all = pair_views(entries@);
    proof {
        assert(all.take(i as int) =~= all);
    }
    while i > 0
        invariant
            i <= entries@.len(),
            all == pair_views(entries@),
            wanted@ == key@,
            lookup(all, key@) == lookup(all.take(i as int), key@),
        decreases i,
    {
        proof {
            assert(all.take(i as int).drop_last() =~= all.take(i - 1));
            assert(all.take(i as int).last() == (entries@[i - 1].0@, entries@[i - 1].1@));
        }
        if entries[i - 1].0 == wanted {
            return Some(entries[i - 1].1.clone());
        }
        i = i - 1;
    }
    None
}

/// What the system tools and files reported, from which `detect_system`
/// builds the system description. A command that failed is an empty text
/// (or `None` where noted).
#[derive(Clone, Debug, Default)]
pub struct SystemProbe {
    /// The contents of `/etc/os-release`.
    pub os_release: String,
    /// The output of `rpm -E %fedora`, when it succeeded.
    pub rpm_fedora: Option<String>,
    /// The output of `uname -m`.
    pub uname_machine: String,
    /// Whether `rpm-ostree` is on the path.
    pub rpm_ostree_present: bool,
    /// Whether `/run/ostree-booted` exists.
    pub ostree_booted: bool,
    /// Whether `dnf` is on the path.
    pub dnf_present: bool,
    /// Whether the Fedora mirror list answered an HTTP request.
    pub mirrors_reachable: bool,
    /// Whether the Fedora mirror host answered a ping.
    pub mirrors_pingable: bool,
    /// The output of `mokutil --sb-state`, when it succeeded.
    pub mokutil_output: Option<String>,
    /// The PCI vendor ids read from `/sys/class/drm/*/device/vendor`.
    pub drm_vendor_ids: Vec<String>,
    /// The output of `lspci`.
    pub lspci_output: String,
    /// The output of `rpm -qa --qf '%{NAME}\n'`.
    pub rpm_packages: String,
    /// The output of `dnf repoquery --repoid '*' --qf '%{repoid}' fedora-release`.
    pub dnf_repoquery: String,
    /// The output of `dnf repolist --enabled`.
    pub dnf_repolist: String,
    /// The output of `flatpak remotes --columns=name`.
    pub flatpak_remotes: String,
    /// The output of `flatpak list --columns=application`.
    pub flatpak_apps: String,
}

/// The Fedora release: the number that `rpm -E %fedora` printed, else the
/// `VERSION_ID` of os-release.
pub open spec fn fedora_version_of(rpm_fedora: Option<Seq<char>>, os_release: Seq<char>) -> Option<u16> {
    let from_rpm = match rpm_fedora {
        Some(out) => parse_u16(trim(out)),
        None => None,
    };
    match from_rpm {
        Some(v) => Some(v),
        None => match lookup(os_release_pairs(os_release), "VERSION_ID"@) {
            Some(v) => parse_u16(v),
            None => None,
        },
    }
}

/// The description of the system that the probe reports.
pub fn detect_system(probe: &SystemProbe) -> (r: SystemInfo)
    ensures
        r.os_id@ == match lookup(os_release_pairs(probe.os_release@), "ID"@) {
            Some(v) => v,
            None => Seq::empty(),
        },
        r.os_name@ == match lookup(os_release_pairs(probe.os_release@), "NAME"@) {
            Some(v) => v,
            None => r.os_id@,
        },
        r.fedora_version == fedora_version_of(
            match probe.rpm_fedora {
                Some(t) => Some(t@),
                None => None,
            },
            probe.os_release@,
        ),
        r.arch@ == trim(probe.uname_machine@),
        r.is_atomic == (probe.rpm_ostree_present || probe.ostree_booted),
        r.has_dnf == probe.dnf_present,
        r.has_internet == (probe.mirrors_reachable || probe.mirrors_pingable),
        r.secure_boot == secure_boot_of(
            match probe.mokutil_output {
                Some(t) => Some(t@),
                None => None,
            },
        ),
        r.gpu_vendors@ == gpu_vendors_of(string_views(probe.drm_vendor_ids@), probe.lspci_output@),
        r.installed_packages@ == listed_names(probe.rpm_packages@, Seq::empty()),
        r.enabled_repos@ == repo_ids(probe.dnf_repoquery@).union(repo_ids(probe.dnf_repolist@)),
        r.flatpak_remotes@ == listed_names(probe.flatpak_remotes@, "Name"@),
        r.flatpak_apps@ == listed_names(probe.flatpak_apps@, "Application"@),
{
    let entries = os_release_entries(probe.os_release.as_str());
    let os_id = match os_release_value(&entries, "ID") {
        Some(v) => v,
        None => String::new(),
    };
    let os_name = match os_release_value(&entries, "NAME") {
        Some(v) => v,
        None => os_id.clone(),
    };
    let from_rpm = match &probe.rpm_fedora {
        Some(out) => {
            let chars = chars_of(out.as_str());
            let t = trimmed(&chars);
            parse_u16_chars(&t)
        },
        None => None,
    };
    let fedora_version = match from_rpm {
        Some(v) => Some(v),
        None => match os_release_value(&entries, "VERSION_ID") {
            Some(v) => {
                let chars = chars_of(v.as_str());
                parse_u16_chars(&chars)
            },
            None => None,
        },
    };
    let machine = chars_of(probe.uname_machine.as_str());
    let arch = string_from_chars(&trimmed(&machine));
    let secure_boot = match &probe.mokutil_output {
        Some(out) => detect_secure_boot(Some(out.as_str())),
        None => detect_secure_boot(None),
    };
    SystemInfo {
        os_id,
        os_name,
        fedora_version,
        arch,
        is_atomic: probe.rpm_ostree_present || probe.ostree_booted,
        has_dnf: probe.dnf_present,
        has_internet: probe.mirrors_reachable || probe.mirrors_pingable,
        secure_boot,
        gpu_vendors: detect_gpu_vendors(&probe.drm_vendor_ids, probe.lspci_output.as_str()),
        installed_packages: installed_packages(probe.rpm_packages.as_str()),
        enabled_repos: enabled_repos(probe.dnf_repoquery.as_str(), probe.dnf_repolist.as_str()),
        flatpak_remotes: flatpak_remotes(probe.flatpak_remotes.as_str()),
        flatpak_apps: flatpak_apps(probe.flatpak_apps.as_str()),
    }
}

} // verus!
