use vstd::prelude::*;

use vstd::string::StringExecFns;

verus! {

/// The directory an environment override or a home fallback yields: the
/// override where it is set, else the fallback appended to the home
/// directory, else nothing.
pub open spec fn dir_of(env_value: Option<String>, home: Option<String>, fallback: Seq<char>) -> Option<
    Seq<char>,
> {
    match env_value {
        Option::Some(v) => Option::Some(v@),
        Option::None => match home {
            Option::Some(h) => Option::Some(h@ + fallback),
            Option::None => Option::<Seq<char>>::None,
        },
    }
}

fn env_or_default(env_value: Option<String>, home: Option<String>, fallback: &str) -> (r: Option<
    String,
>)
    ensures
        match dir_of(env_value, home, fallback@) {
            Option::Some(s) => r matches Option::Some(p) && p@ == s,
            Option::None => r is None,
        },
{
    match env_value {
        Option::Some(v) => Option::Some(v),
        Option::None => match home {
            Option::Some(h) => Option::Some(h.concat(fallback)),
            Option::None => Option::None,
        },
    }
}

/// The configuration directory: the dedicated environment override where
/// set, else the conventional directory under home, else nothing.  The
/// caller supplies the two environment values.
pub fn config_dir(env_value: Option<String>, home: Option<String>) -> (r: Option<String>)
    ensures
        match dir_of(env_value, home, "/.config"@) {
            Option::Some(s) => r matches Option::Some(p) && p@ == s,
            Option::None => r is None,
        },
{
    env_or_default(env_value, home, "/.config")
}

/// The cache directory: the dedicated environment override where set,
/// else the conventional directory under home, else nothing.  The caller
/// supplies the two environment values.
pub fn cache_dir(env_value: Option<String>, home: Option<String>) -> (r: Option<String>)
    ensures
        match dir_of(env_value, home, "/.cache"@) {
            Option::Some(s) => r matches Option::Some(p) && p@ == s,
            Option::None => r is None,
        },
{
    env_or_default(env_value, home, "/.cache")
}

/// The display protocol the session runs on.
#[derive(Clone, Copy, Debug, PartialEq, Eq, Structural)]
pub enum Platform {
    /// A Wayland session.
    Wayland,
    /// An X window system session.
    X11,
    /// Neither could be told.
    Unknown,
}

/// A character sequence with ASCII upper-case letters folded to lower
/// case.
pub open spec fn lower_chars(s: Seq<char>) -> Seq<char> {
    s.map_values(|c: char| crate::anchor::lower_char(c))
}

/// Whether two texts agree up to ASCII case.
fn eq_ignore_ascii_case(s: &str, t: &str) -> (r: bool)
    ensures
        r == (lower_chars(s@) == lower_chars(t@)),
{
    let n = s.unicode_len();
    if n != t.unicode_len() {
        proof {
            assert(lower_chars(s@).len() != lower_chars(t@).len());
        }
        return false;
    }
    let mut i: usize = 0;
    while i < n
        invariant
            i <= n,
            n == s@.len(),
            n == t@.len(),
            forall|j: int|
                0 <= j < i ==> crate::anchor::lower_char(s@[j]) == crate::anchor::lower_char(
                    t@[j],
                ),
        decreases n - i,
    {
        let a = s.get_char(i);
        let b = t.get_char(i);
        let la: char = if a >= 'A' && a <= 'Z' {
            ((a as u8) + 32) as char
        } else {
            a
        };
        let lb: char = if b >= 'A' && b <= 'Z' {
            ((b as u8) + 32) as char
        } else {
            b
        };
        if la != lb {
            proof {
                assert(crate::anchor::lower_char(s@[i as int]) != crate::anchor::lower_char(
                    t@[i as int],
                ));
                assert(lower_chars(s@)[i as int] != lower_chars(t@)[i as int]);
            }
            return false;
        }
        i = i + 1;
    }
    proof {
        assert(lower_chars(s@) =~= lower_chars(t@));
    }
    true
}

/// The platform a session's environment names: the session-type variable
/// decides where it names one of the two protocols, case aside; else a
/// set Wayland display wins over a set X display; else nothing is known.
pub open spec fn platform_of(
    session_type: Option<String>,
    wayland_display: bool,
    display: bool,
) -> Platform {
    if session_type matches Option::Some(s) && lower_chars(s@) == "wayland"@ {
        Platform::Wayland
    } else if session_type matches Option::Some(s) && lower_chars(s@) == "x11"@ {
        Platform::X11
    } else if wayland_display {
        Platform::Wayland
    } else if display {
        Platform::X11
    } else {
        Platform::Unknown
    }
}

/// Decide the display protocol from the session's environment: the value
/// of the session-type variable, and whether the Wayland and X display
/// variables are set.
pub fn platform(session_type: Option<String>, wayland_display: bool, display: bool) -> (r:
    Platform)
    ensures
        r == platform_of(session_type, wayland_display, display),
{
    proof {
        reveal_strlit("wayland");
        reveal_strlit("x11");
    }
    if let Option::Some(s) = &session_type {
        if eq_ignore_ascii_case(s.as_str(), "wayland") {
            proof {
                assert(lower_chars("wayland"@) =~= "wayland"@);
            }
            return Platform::Wayland;
        }
        if eq_ignore_ascii_case(s.as_str(), "x11") {
            proof {
                assert(lower_chars("x11"@) =~= "x11"@);
                assert(lower_chars("wayland"@) =~= "wayland"@);
            }
            return Platform::X11;
        }
        proof {
            assert(lower_chars("wayland"@) =~= "wayland"@);
            assert(lower_chars("x11"@) =~= "x11"@);
        }
    }
    if wayland_display {
        Platform::Wayland
    } else if display {
        Platform::X11
    } else {
        Platform::Unknown
    }
}

/// Whether the session runs on Wayland, from the same environment values.
pub fn is_wayland(session_type: Option<String>, wayland_display: bool, display: bool) -> (r: bool)
    ensures
        r == (platform_of(session_type, wayland_display, display) is Wayland),
{
    let p = platform(session_type, wayland_display, display);
    p == Platform::Wayland
}

/// Whether the session runs on the X window system, from the same
/// environment values.
pub fn is_x11(session_type: Option<String>, wayland_display: bool, display: bool) -> (r: bool)
    ensures
        r == (platform_of(session_type, wayland_display, display) is X11),
{
    let p = platform(session_type, wayland_display, display);
    p == Platform::X11
}

} // verus!
