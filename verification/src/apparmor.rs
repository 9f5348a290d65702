//! The AppArmor side of the FUSE security profile: which profile name a
//! container references, how the dev-only escape hatch is read, and the
//! security options handed to the container engine.
use vstd::prelude::*;

use crate::text::{ascii_lower, equal_ignoring_ascii_case, str_equal, str_equal_ignoring_ascii_case};

verus! {

/// Name of the AppArmor profile that permits FUSE mounts (fuse-overlayfs).
pub const FUSE_PROFILE_NAME: &'static str = "celestia-cherino-fuse";

/// Deprecated plana-era profile name, still accepted when it is the only one
/// installed on the host (see [`pick_profile_name`]).
pub const LEGACY_FUSE_PROFILE_NAME: &'static str = "celestia-plana-fuse";

/// Directory the host installs AppArmor profiles into.
pub const APPARMOR_PROFILE_DIR: &'static str = "/etc/apparmor.d";

/// Dev-mode escape hatch: set `CHERINO_APPARMOR_UNCONFINED=1` to fall back to
/// `apparmor=unconfined`.
pub const UNCONFINED_ENV: &'static str = "CHERINO_APPARMOR_UNCONFINED";

/// Deprecated plana-era name of the escape hatch variable, still read.
pub const LEGACY_UNCONFINED_ENV: &'static str = "PLANA_APPARMOR_UNCONFINED";

/// The profile name to reference given which profile files the host has.
pub open spec fn chosen_profile_name(new_installed: bool, legacy_installed: bool) -> Seq<char> {
    if !new_installed && legacy_installed {
        LEGACY_FUSE_PROFILE_NAME@
    } else {
        FUSE_PROFILE_NAME@
    }
}

/// Pure decision for the profile-name compat pick: the canonical name wins
/// whenever its file is installed, the legacy name is used only when it is
/// the only one installed, and with neither installed the canonical name is
/// used (fail closed: the engine then reports the missing profile).
pub fn pick_profile_name(new_installed: bool, legacy_installed: bool) -> (name: &'static str)
    ensures
        name@ == chosen_profile_name(new_installed, legacy_installed),
{
    if new_installed {
        return FUSE_PROFILE_NAME;
    }
    if legacy_installed {
        return LEGACY_FUSE_PROFILE_NAME;
    }
    FUSE_PROFILE_NAME
}


/// Where a profile named `name` is installed on the host.
pub open spec fn profile_path(name: Seq<char>) -> Seq<char> {
    APPARMOR_PROFILE_DIR@ + "/"@ + name
}

/// The path of the profile file named `name` under [`APPARMOR_PROFILE_DIR`].
pub fn profile_install_path(name: &str) -> (path: String)
    ensures
        path@ == profile_path(name@),
{
    let mut path = String::from_str(APPARMOR_PROFILE_DIR);
    path.append("/");
    path.append(name);
    path
}

/// The characters of an optional string.
pub open spec fn optional_chars(value: Option<&str>) -> Option<Seq<char>> {
    match value {
        Some(v) => Some(v@),
        None => None,
    }
}

/// A value of the escape hatch enables it when it is `true` in any ASCII
/// case, or exactly `1`.
pub open spec fn is_truthy(value: Seq<char>) -> bool {
    equal_ignoring_ascii_case(value, "true"@) || value == "1"@
}

/// Whether a value read for the escape hatch enables it: only `true` (in any
/// ASCII case) and `1` do; everything else, and no value, leaves it off.
pub fn unconfined_from_value(value: Option<&str>) -> (unconfined: bool)
    ensures
        unconfined == match optional_chars(value) {
            Some(v) => is_truthy(v),
            None => false,
        },
{
    match value {
        Some(v) => str_equal_ignoring_ascii_case(v, "true") || str_equal(v, "1"),
        None => false,
    }
}

/// The value of the escape hatch that is in force: the current variable's
/// when it is set (even to the empty string), else the legacy variable's when
/// that one is set to something non-empty, else none.
pub open spec fn effective_unconfined_value(
    primary: Option<Seq<char>>,
    legacy: Option<Seq<char>>,
) -> Option<Seq<char>> {
    match primary {
        Some(p) => Some(p),
        None => match legacy {
            Some(l) => if l.len() > 0 { Some(l) } else { None },
            None => None,
        },
    }
}

/// Picks the escape hatch value in force from the values read for
/// [`UNCONFINED_ENV`] (`primary`) and [`LEGACY_UNCONFINED_ENV`] (`legacy`).
pub fn select_unconfined_value<'a>(primary: Option<&'a str>, legacy: Option<&'a str>) -> (value:
    Option<&'a str>)
    ensures
        optional_chars(value) == effective_unconfined_value(
            optional_chars(primary),
            optional_chars(legacy),
        ),
{
    match primary {
        Some(p) => Some(p),
        None => match legacy {
            Some(l) => if l.unicode_len() > 0 { Some(l) } else { None },
            None => None,
        },
    }
}

/// Whether the value in force came from the deprecated variable name, which
/// deserves a deprecation warning.
pub fn legacy_unconfined_used(primary: Option<&str>, legacy: Option<&str>) -> (used: bool)
    ensures
        used == (primary is None && effective_unconfined_value(
            optional_chars(primary),
            optional_chars(legacy),
        ) is Some),
{
    match primary {
        Some(_) => false,
        None => match legacy {
            Some(l) => l.unicode_len() > 0,
            None => false,
        },
    }
}

/// Whether the escape hatch is enabled, given the values read for the
/// current and the legacy variable.
pub fn unconfined_from_env_values(primary: Option<&str>, legacy: Option<&str>) -> (unconfined:
    bool)
    ensures
        unconfined == match effective_unconfined_value(
            optional_chars(primary),
            optional_chars(legacy),
        ) {
            Some(v) => is_truthy(v),
            None => false,
        },
{
    let value = select_unconfined_value(primary, legacy);
    unconfined_from_value(value)
}

/// The security options for FUSE-capable containers: `no-new-privileges`
/// always, then either `apparmor=unconfined` (escape hatch) or the named
/// profile.
pub open spec fn security_opts(unconfined: bool, profile_name: Seq<char>) -> Seq<Seq<char>> {
    seq![
        "no-new-privileges:true"@,
        if unconfined {
            "apparmor=unconfined"@
        } else {
            "apparmor="@ + profile_name
        },
    ]
}

/// The views of a vector of strings.
pub open spec fn string_views(v: Seq<String>) -> Seq<Seq<char>> {
    v.map_values(|s: String| s@)
}

/// Security opts for FUSE-capable containers, with the escape hatch state and
/// the installed profile name given.
pub fn fuse_security_opts_with_unconfined(unconfined: bool, profile_name: &str) -> (opts: Vec<
    String,
>)
    ensures
        string_views(opts@) == security_opts(unconfined, profile_name@),
{
    let mut opts: Vec<String> = Vec::new();
    opts.push(String::from_str("no-new-privileges:true"));
    if unconfined {
        opts.push(String::from_str("apparmor=unconfined"));
    } else {
        let mut named = String::from_str("apparmor=");
        named.append(profile_name);
        opts.push(named);
    }
    assert(string_views(opts@) =~= security_opts(unconfined, profile_name@));
    opts
}

/// The security options always keep `no-new-privileges`, and contain
/// `apparmor=unconfined` exactly when the escape hatch is enabled (for any
/// profile name other than `unconfined` itself).
pub proof fn unconfined_option_exactly_when_enabled(unconfined: bool, profile_name: Seq<char>)
    requires
        profile_name != "unconfined"@,
    ensures
        security_opts(unconfined, profile_name).contains("no-new-privileges:true"@),
        security_opts(unconfined, profile_name).contains("apparmor=unconfined"@) == unconfined,
{
    let opts = security_opts(unconfined, profile_name);
    assert(opts[0] == "no-new-privileges:true"@);
    reveal_strlit("no-new-privileges:true");
    reveal_strlit("apparmor=unconfined");
    reveal_strlit("apparmor=");
    reveal_strlit("unconfined");
    assert("no-new-privileges:true"@[0] != "apparmor=unconfined"@[0]);
    if unconfined {
        assert(opts[1] == "apparmor=unconfined"@);
    } else {
        let named = "apparmor="@ + profile_name;
        if named == "apparmor=unconfined"@ {
            assert(named.subrange(9, named.len() as int) =~= profile_name);
            assert("apparmor=unconfined"@.subrange(9, 19) =~= "unconfined"@);
        }
        assert(named != "apparmor=unconfined"@);
        assert(!opts.contains("apparmor=unconfined"@)) by {
            if opts.contains("apparmor=unconfined"@) {
                let k = choose|k: int| 0 <= k < opts.len() && opts[k] == "apparmor=unconfined"@;
                assert(k == 0 || k == 1);
            }
        }
    }
}

/// Fail closed: without the escape hatch the options always name an AppArmor
/// profile (the canonical one unless only the legacy one is installed) and
/// never fall back to `apparmor=unconfined`, whatever the host has installed.
pub proof fn confined_without_escape_hatch(new_installed: bool, legacy_installed: bool)
    ensures
        security_opts(false, chosen_profile_name(new_installed, legacy_installed)).contains(
            "apparmor="@ + chosen_profile_name(new_installed, legacy_installed),
        ),
        !security_opts(false, chosen_profile_name(new_installed, legacy_installed)).contains(
            "apparmor=unconfined"@,
        ),
        security_opts(false, chosen_profile_name(new_installed, legacy_installed)).contains(
            "no-new-privileges:true"@,
        ),
{
    let name = chosen_profile_name(new_installed, legacy_installed);
    reveal_strlit("celestia-cherino-fuse");
    reveal_strlit("celestia-plana-fuse");
    reveal_strlit("unconfined");
    assert(name.len() != "unconfined"@.len());
    unconfined_option_exactly_when_enabled(false, name);
    assert(security_opts(false, name)[1] == "apparmor="@ + name);
}

/// The canonical profile `celestia-cherino-fuse` is used whenever it is
/// installed, and also when neither profile is; the legacy
/// `celestia-plana-fuse` only when it alone is installed.
pub proof fn profile_name_prefers_canonical(new_installed: bool, legacy_installed: bool)
    ensures
        chosen_profile_name(new_installed, legacy_installed) == if !new_installed
            && legacy_installed {
            "celestia-plana-fuse"@
        } else {
            "celestia-cherino-fuse"@
        },
{
}

/// Whether a value enables the escape hatch does not depend on the ASCII
/// case of its letters, and only `1` and the four letters of `true` do.
pub proof fn truthiness_ignores_ascii_case(value: Seq<char>)
    ensures
        is_truthy(value) == is_truthy(value.map_values(|c: char| ascii_lower(c))),
        is_truthy(value) == (value == "1"@ || value.map_values(|c: char| ascii_lower(c))
            == "true"@),
{
    reveal_strlit("true");
    reveal_strlit("1");
    let lowered = value.map_values(|c: char| ascii_lower(c));
    assert forall|i: int| 0 <= i < "true"@.len() implies ascii_lower(#[trigger] "true"@[i])
        == "true"@[i] by {}
    if equal_ignoring_ascii_case(value, "true"@) {
        assert(lowered =~= "true"@);
        assert(equal_ignoring_ascii_case(lowered, "true"@)) by {
            assert forall|i: int| 0 <= i < lowered.len() implies ascii_lower(#[trigger] lowered[i])
                == ascii_lower("true"@[i]) by {}
        }
    }
    if equal_ignoring_ascii_case(lowered, "true"@) {
        assert forall|i: int| 0 <= i < value.len() implies ascii_lower(#[trigger] value[i])
            == ascii_lower("true"@[i]) by {
            assert(lowered[i] == ascii_lower(value[i]));
        }
        assert(lowered =~= "true"@);
    }
    if value == "1"@ {
        assert(lowered =~= "1"@);
    }
    if lowered == "1"@ {
        assert(value.len() == 1);
        assert(lowered[0] == ascii_lower(value[0]));
        assert(lowered[0] == "1"@[0]);
        assert(ascii_lower(value[0]) == '1');
        assert(value[0] == '1');
        assert(value =~= "1"@);
    }
    if lowered == "true"@ {
        assert forall|i: int| 0 <= i < value.len() implies ascii_lower(#[trigger] value[i])
            == ascii_lower("true"@[i]) by {
            assert(lowered[i] == ascii_lower(value[i]));
        }
    }
}

/// The current variable, once set (even to the empty string), decides alone;
/// the legacy variable counts only when the current one is unset and the
/// legacy value is non-empty.
pub proof fn current_variable_takes_precedence(
    primary: Option<Seq<char>>,
    legacy: Option<Seq<char>>,
)
    ensures
        primary matches Some(p) ==> effective_unconfined_value(primary, legacy) == Some(p),
        primary is None ==> effective_unconfined_value(primary, legacy) == (if legacy matches Some(
            l,
        ) && l.len() > 0 {
            legacy
        } else {
            None
        }),
{
}

} // verus!
