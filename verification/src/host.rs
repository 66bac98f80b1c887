//! Decisions about the user's session: who the target user is, where their
//! home is, whether their login shell is zsh and whether Starship is set up.
use vstd::prelude::*;
use crate::text::{
    char_views, chars_of, contains_chars, contains_text, ends_with, ends_with_str, lines, lines_of, split_chars,
    split_on, string_from_chars,
};

verus! {

/// The first of the candidates that is given and not empty.
pub open spec fn first_nonempty(a: Option<Seq<char>>, b: Option<Seq<char>>, c: Option<Seq<char>>) -> Option<Seq<char>> {
    if a is Some && a->0.len() > 0 {
        a
    } else if b is Some && b->0.len() > 0 {
        b
    } else if c is Some && c->0.len() > 0 {
        c
    } else {
        None
    }
}

/// The view of an optional string slice.
pub open spec fn opt_view(o: Option<&str>) -> Option<Seq<char>> {
    match o {
        Some(s) => Some(s@),
        None => None,
    }
}

/// The view of an optional string.
pub open spec fn opt_string_view(o: Option<String>) -> Option<Seq<char>> {
    match o {
        Some(s) => Some(s@),
        None => None,
    }
}

/// Whether an optional string slice is given and not empty.
fn given(o: Option<&str>) -> (r: bool)
    ensures
        r == (opt_view(o) is Some && opt_view(o)->0.len() > 0),
{
    match o {
        Some(s) => !s.is_empty(),
        None => false,
    }
}

/// The user that per-user installers run as: the first non-empty of
/// `POSTORA_TARGET_USER`, `USER` and `SUDO_USER`.
pub fn current_user_name(
    postora_target_user: Option<&str>,
    user: Option<&str>,
    sudo_user: Option<&str>,
) -> (r: Option<String>)
    ensures
        opt_string_view(r) == first_nonempty(opt_view(postora_target_user), opt_view(user), opt_view(sudo_user)),
{
    if given(postora_target_user) {
        Some(String::from_str(postora_target_user.unwrap()))
    } else if given(user) {
        Some(String::from_str(user.unwrap()))
    } else if given(sudo_user) {
        Some(String::from_str(sudo_user.unwrap()))
    } else {
        None
    }
}

/// The home directory whose installations are checked: `POSTORA_TARGET_HOME`
/// when set, else `HOME` when set, else `/`.
pub fn current_home_dir(postora_target_home: Option<&str>, home: Option<&str>) -> (r: String)
    ensures
        r@ == match postora_target_home {
            Some(h) => h@,
            None => match home {
                Some(h) => h@,
                None => "/"@,
            },
        },
{
    match postora_target_home {
        Some(h) => String::from_str(h),
        None => match home {
            Some(h) => String::from_str(h),
            None => String::from_str("/"),
        },
    }
}

/// The line that hooks Starship into bash.
pub const STARSHIP_BASH_HOOK: &'static str = r#"eval "$(starship init bash)""#;

/// The line that hooks Starship into zsh.
pub const STARSHIP_ZSH_HOOK: &'static str = r#"eval "$(starship init zsh)""#;

/// Whether a file that could be read holds `needle`.
pub open spec fn file_holds(content: Option<Seq<char>>, needle: Seq<char>) -> bool {
    match content {
        Some(t) => contains_text(t, needle),
        None => false,
    }
}

/// Whether a file that could be read holds `needle`.
fn file_contains(content: Option<&str>, needle: &str) -> (r: bool)
    ensures
        r == file_holds(opt_view(content), needle@),
{
    match content {
        Some(t) => {
            let chars = chars_of(t);
            contains_chars(&chars, needle)
        },
        None => false,
    }
}

/// Whether Starship is set up: a Starship binary was found, its configuration
/// exists, and both `.bashrc` and `.zshrc` (their contents, where readable)
/// hold its hook.
pub fn starship_configured(
    binary_found: bool,
    config_found: bool,
    bashrc: Option<&str>,
    zshrc: Option<&str>,
) -> (r: bool)
    ensures
        r == (binary_found && config_found && file_holds(opt_view(bashrc), STARSHIP_BASH_HOOK@) && file_holds(
            opt_view(zshrc),
            STARSHIP_ZSH_HOOK@,
        )),
{
    let configured_bash = file_contains(bashrc, STARSHIP_BASH_HOOK);
    let configured_zsh = file_contains(zshrc, STARSHIP_ZSH_HOOK);
    binary_found && config_found && configured_bash && configured_zsh
}

/// The first line of `ls`, from position `i` on, whose first `:`-separated
/// field is `user`.
pub open spec fn passwd_line_from(ls: Seq<Seq<char>>, user: Seq<char>, i: int) -> Option<Seq<char>>
    decreases ls.len() - i,
{
    if i < 0 || i >= ls.len() {
        None
    } else if split_on(ls[i], ':')[0] == user {
        Some(ls[i])
    } else {
        passwd_line_from(ls, user, i + 1)
    }
}

/// The entry of `user` in a passwd file: its first line whose first field is
/// the user name.
pub open spec fn passwd_entry_of(passwd: Seq<char>, user: Seq<char>) -> Option<Seq<char>> {
    passwd_line_from(lines(passwd), user, 0)
}

/// Whether a passwd entry names a zsh login shell: its seventh field ends
/// with `/zsh`.
pub open spec fn shell_is_zsh(entry: Seq<char>) -> bool {
    split_on(entry, ':').len() > 6 && ends_with(split_on(entry, ':')[6], "/zsh"@)
}

/// The entry of `user` in the text of a passwd file.
pub fn passwd_entry(passwd: &str, user: &str) -> (r: Option<String>)
    ensures
        opt_string_view(r) == passwd_entry_of(passwd@, user@),
{
    let chars = chars_of(passwd);
    let ls = lines_of(&chars);
    let wanted = String::from_str(user);
    let mut i: usize = 0;
    while i < ls.len()
        invariant
            i <= ls@.len(),
            chars@ == passwd@,
            wanted@ == user@,
            char_views(ls@) == lines(passwd@),
            passwd_entry_of(passwd@, user@) == passwd_line_from(lines(passwd@), user@, i as int),
        decreases ls@.len() - i,
    {
        let fields = split_chars(&ls[i], ':');
        proof {
            assert(ls@[i as int]@ == lines(passwd@)[i as int]);
            crate::text::lemma_split_on_nonempty(ls@[i as int]@, ':');
        }
        let first = string_from_chars(&fields[0]);
        if first == wanted {
            return Some(string_from_chars(&ls[i]));
        }
        i = i + 1;
    }
    None
}

/// Whether a passwd entry names a zsh login shell.
pub fn login_shell_is_zsh(entry: &str) -> (r: bool)
    ensures
        r == shell_is_zsh(entry@),
{
    let chars = chars_of(entry);
    let fields = split_chars(&chars, ':');
    if fields.len() > 6 {
        proof {
            assert(fields@[6]@ == split_on(entry@, ':')[6]);
        }
        ends_with_str(&fields[6], "/zsh")
    } else {
        false
    }
}

/// Whether the target user's login shell is zsh, from their passwd entry:
/// the one `getent passwd` printed, else the one in the passwd file.
pub open spec fn default_shell_zsh(getent_entry: Option<Seq<char>>, passwd: Option<Seq<char>>, user: Seq<char>) -> bool {
    let entry = match getent_entry {
        Some(e) => Some(e),
        None => match passwd {
            Some(p) => passwd_entry_of(p, user),
            None => None,
        },
    };
    match entry {
        Some(e) => shell_is_zsh(e),
        None => false,
    }
}

/// Whether the target user's login shell is zsh, given what `getent passwd
/// <user>` printed (when it succeeded) and else the passwd file (when it
/// could be read).
pub fn default_shell_is_zsh(getent_entry: Option<&str>, passwd: Option<&str>, user: &str) -> (r: bool)
    ensures
        r == default_shell_zsh(opt_view(getent_entry), opt_view(passwd), user@),
{
    match getent_entry {
        Some(e) => login_shell_is_zsh(e),
        None => match passwd {
            Some(p) => match passwd_entry(p, user) {
                Some(e) => login_shell_is_zsh(e.as_str()),
                None => false,
            },
            None => false,
        },
    }
}

} // verus!
