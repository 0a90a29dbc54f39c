//! Which desktop the Linux guest logs into, chosen by the host per boot.
//!
//! The golden image carries its desktops side by side, and the host writes a
//! session name into QEMU's `fw_cfg` that a oneshot unit in the guest puts in
//! the display manager's autologin configuration before it starts.

use vstd::prelude::*;

use crate::fmt::{debug_quoted, debug_str};
use crate::text::{
    chars_of, eq_ic, join, join_spec, lemma_lines_of_end, lemma_skip_zero, lines_spec, next_line,
    owned, slice_eq_ic, starts_with_spec, str_eq, string_of, trim, trim_bounds, trim_spec,
    vec_starts_with, views,
};

verus! {

/// The `fw_cfg` key the host writes and the guest reads.
pub const FW_CFG_NAME: &'static str = "opt/sunlit/desktop";

/// A desktop the Linux golden image can log into.
#[derive(Debug, Clone, Copy, PartialEq, Eq, Structural)]
pub enum Desktop {
    Kde,
    Gnome,
    Xfce,
    Cinnamon,
    Sway,
    I3,
}

/// Which display server a session runs on.
#[derive(Debug, Clone, Copy, PartialEq, Eq, Structural)]
pub enum SessionType {
    X11,
    Wayland,
}

pub open spec fn all_desktops() -> Seq<Desktop> {
    seq![
        Desktop::Kde,
        Desktop::Gnome,
        Desktop::Xfce,
        Desktop::Cinnamon,
        Desktop::Sway,
        Desktop::I3,
    ]
}

pub open spec fn desktop_flag(d: Desktop) -> Seq<char> {
    match d {
        Desktop::Kde => "kde"@,
        Desktop::Gnome => "gnome"@,
        Desktop::Xfce => "xfce"@,
        Desktop::Cinnamon => "cinnamon"@,
        Desktop::Sway => "sway"@,
        Desktop::I3 => "i3"@,
    }
}

/// The `.desktop` basename the display manager wants for this desktop on that
/// display server, where the image has one.
pub open spec fn session_spec(d: Desktop, t: SessionType) -> Option<Seq<char>> {
    match (d, t) {
        (Desktop::Kde, SessionType::X11) => Some("plasmax11"@),
        (Desktop::Gnome, SessionType::X11) => Some("gnome-xorg"@),
        (Desktop::Xfce, SessionType::X11) => Some("xfce"@),
        (Desktop::Cinnamon, SessionType::X11) => Some("cinnamon"@),
        (Desktop::Kde, SessionType::Wayland) => Some("plasma"@),
        (Desktop::Gnome, SessionType::Wayland) => Some("gnome-wayland"@),
        (Desktop::Sway, SessionType::Wayland) => Some("sway"@),
        (Desktop::I3, SessionType::X11) => Some("i3"@),
        _ => None,
    }
}

pub open spec fn current_desktop_spec(d: Desktop) -> Seq<char> {
    match d {
        Desktop::Kde => "KDE"@,
        Desktop::Gnome => "GNOME"@,
        Desktop::Xfce => "XFCE"@,
        Desktop::Cinnamon => "X-Cinnamon"@,
        Desktop::Sway => "sway"@,
        Desktop::I3 => "i3"@,
    }
}

pub open spec fn desktop_label(d: Desktop) -> Seq<char> {
    match d {
        Desktop::Kde => "KDE Plasma (X11)"@,
        Desktop::Gnome => "GNOME (Xorg)"@,
        Desktop::Xfce => "XFCE"@,
        Desktop::Cinnamon => "Cinnamon"@,
        Desktop::Sway => "sway (Wayland)"@,
        Desktop::I3 => "i3 (X11)"@,
    }
}

pub open spec fn default_session_type_spec(d: Desktop) -> SessionType {
    if session_spec(d, SessionType::X11).is_some() {
        SessionType::X11
    } else {
        SessionType::Wayland
    }
}

pub open spec fn parse_desktop_spec(s: Seq<char>) -> Option<Desktop> {
    let t = trim_spec(s);
    if t == "kde"@ {
        Some(Desktop::Kde)
    } else if t == "gnome"@ {
        Some(Desktop::Gnome)
    } else if t == "xfce"@ {
        Some(Desktop::Xfce)
    } else if t == "cinnamon"@ {
        Some(Desktop::Cinnamon)
    } else if t == "sway"@ {
        Some(Desktop::Sway)
    } else if t == "i3"@ {
        Some(Desktop::I3)
    } else {
        None
    }
}

impl Desktop {
    /// All six, in the order the docs and the reports list them.
    pub fn all() -> (r: Vec<Desktop>)
        ensures
            r@ == all_desktops(),
    {
        let mut v = Vec::new();
        v.push(Desktop::Kde);
        v.push(Desktop::Gnome);
        v.push(Desktop::Xfce);
        v.push(Desktop::Cinnamon);
        v.push(Desktop::Sway);
        v.push(Desktop::I3);
        assert(v@ =~= all_desktops());
        v
    }

    /// What `--desktop` is spelled as, and what the run record stores.
    pub fn flag(self) -> (r: &'static str)
        ensures
            r@ == desktop_flag(self),
    {
        match self {
            Desktop::Kde => "kde",
            Desktop::Gnome => "gnome",
            Desktop::Xfce => "xfce",
            Desktop::Cinnamon => "cinnamon",
            Desktop::Sway => "sway",
            Desktop::I3 => "i3",
        }
    }

    /// The session basename for this desktop on that display server, or `None`
    /// where the image has no such session.
    pub fn session(self, session_type: SessionType) -> (r: Option<&'static str>)
        ensures
            match session_spec(self, session_type) {
                Some(n) => r matches Some(x) && x@ == n,
                None => r is None,
            },
    {
        match (self, session_type) {
            (Desktop::Kde, SessionType::X11) => Some("plasmax11"),
            (Desktop::Gnome, SessionType::X11) => Some("gnome-xorg"),
            (Desktop::Xfce, SessionType::X11) => Some("xfce"),
            (Desktop::Cinnamon, SessionType::X11) => Some("cinnamon"),
            (Desktop::Kde, SessionType::Wayland) => Some("plasma"),
            (Desktop::Gnome, SessionType::Wayland) => Some("gnome-wayland"),
            (Desktop::Sway, SessionType::Wayland) => Some("sway"),
            (Desktop::I3, SessionType::X11) => Some("i3"),
            _ => None,
        }
    }

    /// The session type a boot gets when `--session-type` names none.
    pub fn default_session_type(self) -> (r: SessionType)
        ensures
            r == default_session_type_spec(self),
    {
        if self.session(SessionType::X11).is_some() {
            SessionType::X11
        } else {
            SessionType::Wayland
        }
    }

    /// What `XDG_CURRENT_DESKTOP` names this desktop as inside its session.
    pub fn current_desktop(self) -> (r: &'static str)
        ensures
            r@ == current_desktop_spec(self),
    {
        match self {
            Desktop::Kde => "KDE",
            Desktop::Gnome => "GNOME",
            Desktop::Xfce => "XFCE",
            Desktop::Cinnamon => "X-Cinnamon",
            Desktop::Sway => "sway",
            Desktop::I3 => "i3",
        }
    }

    /// The name a report calls this by.
    pub fn label(self) -> (r: &'static str)
        ensures
            r@ == desktop_label(self),
    {
        match self {
            Desktop::Kde => "KDE Plasma (X11)",
            Desktop::Gnome => "GNOME (Xorg)",
            Desktop::Xfce => "XFCE",
            Desktop::Cinnamon => "Cinnamon",
            Desktop::Sway => "sway (Wayland)",
            Desktop::I3 => "i3 (X11)",
        }
    }

    /// Read one back out of a run record, which stores [`Self::flag`].
    pub fn parse(value: &str) -> (r: Option<Desktop>)
        ensures
            r == parse_desktop_spec(value@),
    {
        let t = trim(value);
        let t = t.as_str();
        if str_eq(t, "kde") {
            Some(Desktop::Kde)
        } else if str_eq(t, "gnome") {
            Some(Desktop::Gnome)
        } else if str_eq(t, "xfce") {
            Some(Desktop::Xfce)
        } else if str_eq(t, "cinnamon") {
            Some(Desktop::Cinnamon)
        } else if str_eq(t, "sway") {
            Some(Desktop::Sway)
        } else if str_eq(t, "i3") {
            Some(Desktop::I3)
        } else {
            None
        }
    }
}

pub open spec fn session_type_flag(t: SessionType) -> Seq<char> {
    match t {
        SessionType::X11 => "x11"@,
        SessionType::Wayland => "wayland"@,
    }
}

pub open spec fn parse_session_type_spec(s: Seq<char>) -> Option<SessionType> {
    let t = trim_spec(s);
    if t == "x11"@ {
        Some(SessionType::X11)
    } else if t == "wayland"@ {
        Some(SessionType::Wayland)
    } else {
        None
    }
}

impl SessionType {
    pub fn all() -> (r: Vec<SessionType>)
        ensures
            r@ == seq![SessionType::X11, SessionType::Wayland],
    {
        let mut v = Vec::new();
        v.push(SessionType::X11);
        v.push(SessionType::Wayland);
        v
    }

    /// What `--session-type` is spelled as, what the run record stores, and
    /// what `XDG_SESSION_TYPE` holds inside such a session.
    pub fn flag(self) -> (r: &'static str)
        ensures
            r@ == session_type_flag(self),
    {
        match self {
            SessionType::X11 => "x11",
            SessionType::Wayland => "wayland",
        }
    }

    pub fn parse(value: &str) -> (r: Option<SessionType>)
        ensures
            r == parse_session_type_spec(value@),
    {
        let t = trim(value);
        if str_eq(t.as_str(), "x11") {
            Some(SessionType::X11)
        } else if str_eq(t.as_str(), "wayland") {
            Some(SessionType::Wayland)
        } else {
            None
        }
    }
}

/// A desktop on a display server, which is what one boot logs into. Only a pair
/// the image has a session for can be made.
#[derive(Debug, Clone, Copy, PartialEq, Eq, Structural)]
pub struct Login {
    desktop: Desktop,
    session_type: SessionType,
}

/// The desktops that have a session of this type, as `--desktop` flags.
pub open spec fn offered_flags(t: SessionType) -> Seq<Seq<char>> {
    all_desktops().filter(|d: Desktop| session_spec(d, t).is_some()).map_values(
        |d: Desktop| "--desktop "@ + desktop_flag(d),
    )
}

pub open spec fn refusal_reason(d: Desktop, t: SessionType) -> Seq<char> {
    if d == Desktop::Xfce || d == Desktop::Cinnamon {
        desktop_flag(d) + "'s "@ + session_type_flag(t) + " session is experimental in Debian 13"@
    } else {
        desktop_flag(d) + " has no "@ + session_type_flag(t) + " session"@
    }
}

/// What `Login::new` says about a pair the image has no session for.
pub open spec fn login_refusal(d: Desktop, t: SessionType) -> Seq<char> {
    "--desktop "@ + desktop_flag(d) + " --session-type "@ + session_type_flag(t)
        + " asks for a session this image does not offer: "@ + refusal_reason(d, t) + ". "@
        + join_spec(offered_flags(t), ", "@) + " have one, and "@ + desktop_flag(d)
        + " runs with --session-type "@ + session_type_flag(default_session_type_spec(d))
}

pub open spec fn login_label(d: Desktop, t: SessionType) -> Seq<char> {
    match (d, t) {
        (_, SessionType::X11) => desktop_label(d),
        (Desktop::Kde, SessionType::Wayland) => "KDE Plasma (Wayland)"@,
        (Desktop::Gnome, SessionType::Wayland) => "GNOME (Wayland)"@,
        (Desktop::Xfce, SessionType::Wayland) => "XFCE (Wayland)"@,
        (Desktop::Cinnamon, SessionType::Wayland) => "Cinnamon (Wayland)"@,
        (Desktop::Sway, SessionType::Wayland) => desktop_label(Desktop::Sway),
        (Desktop::I3, SessionType::Wayland) => "i3 (Wayland)"@,
    }
}

/// The value of `key` in a `KEY=value` file: the first line that starts with
/// the key and an `=`, trimmed, or nothing.
pub open spec fn env_value(lines: Seq<Seq<char>>, key: Seq<char>) -> Seq<char>
    decreases lines.len(),
{
    if lines.len() == 0 {
        Seq::empty()
    } else if starts_with_spec(lines[0], key.push('=')) {
        trim_spec(lines[0].skip(key.len() as int + 1))
    } else {
        env_value(lines.drop_first(), key)
    }
}

/// `s[i..j]` is one of the pieces `s.split(c)` yields.
pub open spec fn is_piece(s: Seq<char>, c: char, i: int, j: int) -> bool {
    &&& 0 <= i <= j <= s.len()
    &&& (i == 0 || s[i - 1] == c)
    &&& (j == s.len() || s[j] == c)
    &&& forall|k: int| i <= k < j ==> s[k] != c
}

/// Some `c`-separated piece of `s` is `w`, ignoring ASCII case.
pub open spec fn some_piece_ic(s: Seq<char>, c: char, w: Seq<char>) -> bool {
    exists|i: int, j: int| is_piece(s, c, i, j) && eq_ic(s.subrange(i, j), w)
}

/// How the refusal shows an observed value: quoted, or `nothing`.
pub open spec fn shown(v: Seq<char>) -> Seq<char> {
    if v.len() == 0 {
        "nothing"@
    } else {
        debug_quoted(v)
    }
}

pub open spec fn session_mismatch(
    d: Desktop,
    t: SessionType,
    observed_desktop: Seq<char>,
    observed_type: Seq<char>,
) -> Seq<char> {
    "the guest was asked for "@ + login_label(d, t) + " (XDG_CURRENT_DESKTOP "@ + debug_quoted(
        current_desktop_spec(d),
    ) + ", XDG_SESSION_TYPE "@ + debug_quoted(session_type_flag(t))
        + ") and its session reports XDG_CURRENT_DESKTOP "@ + shown(observed_desktop)
        + ", XDG_SESSION_TYPE "@ + shown(observed_type)
        + ". The selector falls back to Plasma on X11 for a name it does not accept, and sddm takes the X11 session when a name exists in both session directories; `journalctl -b -u sunlit-e2e-desktop` in the guest says which name it was handed"@
}

impl Login {
    #[verifier::type_invariant]
    spec fn has_session(self) -> bool {
        session_spec(self.desktop, self.session_type).is_some()
    }

    pub closed spec fn desktop_spec(self) -> Desktop {
        self.desktop
    }

    pub closed spec fn session_type_spec(self) -> SessionType {
        self.session_type
    }

    /// What a Linux guest logs into when the host names nothing.
    pub fn image_default() -> (r: Login)
        ensures
            r.desktop_spec() == Desktop::Kde,
            r.session_type_spec() == SessionType::X11,
    {
        Login { desktop: Desktop::Kde, session_type: SessionType::X11 }
    }

    /// The pair, or the refusal that names what would work instead.
    pub fn new(desktop: Desktop, session_type: SessionType) -> (r: Result<Login, String>)
        ensures
            session_spec(desktop, session_type).is_some() ==> (r matches Ok(l) && l.desktop_spec()
                == desktop && l.session_type_spec() == session_type),
            session_spec(desktop, session_type).is_none() ==> (r matches Err(e) && e@
                == login_refusal(desktop, session_type)),
    {
        if desktop.session(session_type).is_some() {
            return Ok(Login { desktop, session_type });
        }
        let offered = offered(session_type);
        let runs_on = desktop.default_session_type();
        let mut why = owned(desktop.flag());
        match desktop {
            Desktop::Xfce | Desktop::Cinnamon => {
                why.append("'s ");
                why.append(session_type.flag());
                why.append(" session is experimental in Debian 13");
            },
            _ => {
                why.append(" has no ");
                why.append(session_type.flag());
                why.append(" session");
            },
        }
        let mut e = owned("--desktop ");
        e.append(desktop.flag());
        e.append(" --session-type ");
        e.append(session_type.flag());
        e.append(" asks for a session this image does not offer: ");
        e.append(why.as_str());
        e.append(". ");
        e.append(join(&offered, ", ").as_str());
        e.append(" have one, and ");
        e.append(desktop.flag());
        e.append(" runs with --session-type ");
        e.append(runs_on.flag());
        Err(e)
    }

    pub fn desktop(self) -> (r: Desktop)
        ensures
            r == self.desktop_spec(),
    {
        self.desktop
    }

    pub fn session_type(self) -> (r: SessionType)
        ensures
            r == self.session_type_spec(),
    {
        self.session_type
    }

    /// The session basename the guest is handed.
    pub fn session(self) -> (r: &'static str)
        ensures
            session_spec(self.desktop_spec(), self.session_type_spec()) == Some(r@),
    {
        proof {
            use_type_invariant(self);
        }
        match self.desktop.session(self.session_type) {
            Some(s) => s,
            None => "plasmax11",
        }
    }

    /// The name a report calls this by.
    pub fn label(self) -> (r: &'static str)
        ensures
            r@ == login_label(self.desktop_spec(), self.session_type_spec()),
    {
        match (self.desktop, self.session_type) {
            (desktop, SessionType::X11) => desktop.label(),
            (Desktop::Kde, SessionType::Wayland) => "KDE Plasma (Wayland)",
            (Desktop::Gnome, SessionType::Wayland) => "GNOME (Wayland)",
            (Desktop::Xfce, SessionType::Wayland) => "XFCE (Wayland)",
            (Desktop::Cinnamon, SessionType::Wayland) => "Cinnamon (Wayland)",
            (Desktop::Sway, SessionType::Wayland) => Desktop::Sway.label(),
            (Desktop::I3, SessionType::Wayland) => "i3 (Wayland)",
        }
    }

    /// Read one back out of a run record's two fields. A record with no
    /// session type is an X11 one.
    pub fn from_record(desktop: Option<&str>, session_type: Option<&str>) -> (r: Option<Login>)
        ensures
            match from_record_spec(
                match desktop {
                    Some(d) => Some(d@),
                    None => None,
                },
                match session_type {
                    Some(t) => Some(t@),
                    None => None,
                },
            ) {
                Some((d, t)) => r matches Some(l) && l.desktop_spec() == d && l.session_type_spec()
                    == t,
                None => r is None,
            },
    {
        let desktop = match desktop {
            Some(d) => match Desktop::parse(d) {
                Some(d) => d,
                None => return None,
            },
            None => return None,
        };
        let session_type = match session_type {
            None => SessionType::X11,
            Some(value) => match SessionType::parse(value) {
                Some(t) => t,
                None => return None,
            },
        };
        match Login::new(desktop, session_type) {
            Ok(l) => Some(l),
            Err(_) => None,
        }
    }

    /// Whether the `session.env` a guest's session wrote describes this login,
    /// and if not, a refusal that names both.
    pub fn check_session_env(self, session_env: &str) -> (r: Result<(), String>)
        ensures
            ({
                let lines = lines_spec(session_env@);
                let observed_type = env_value(lines, "XDG_SESSION_TYPE"@);
                let observed_desktop = env_value(lines, "XDG_CURRENT_DESKTOP"@);
                if observed_type == session_type_flag(self.session_type_spec()) && some_piece_ic(
                    observed_desktop,
                    ':',
                    current_desktop_spec(self.desktop_spec()),
                ) {
                    r is Ok
                } else {
                    r matches Err(e) && e@ == session_mismatch(
                        self.desktop_spec(),
                        self.session_type_spec(),
                        observed_desktop,
                        observed_type,
                    )
                }
            }),
    {
        let observed_type = env_lookup(session_env, "XDG_SESSION_TYPE");
        let observed_desktop = env_lookup(session_env, "XDG_CURRENT_DESKTOP");
        let wanted = chars_of(self.desktop.current_desktop());
        let desktop_matches = any_piece_ic(&chars_of(observed_desktop.as_str()), ':', &wanted);
        if str_eq(observed_type.as_str(), self.session_type.flag()) && desktop_matches {
            return Ok(());
        }
        let mut e = owned("the guest was asked for ");
        e.append(self.label());
        e.append(" (XDG_CURRENT_DESKTOP ");
        e.append(debug_str(self.desktop.current_desktop()).as_str());
        e.append(", XDG_SESSION_TYPE ");
        e.append(debug_str(self.session_type.flag()).as_str());
        e.append(") and its session reports XDG_CURRENT_DESKTOP ");
        e.append(show(observed_desktop.as_str()).as_str());
        e.append(", XDG_SESSION_TYPE ");
        e.append(show(observed_type.as_str()).as_str());
        e.append(
            ". The selector falls back to Plasma on X11 for a name it does not accept, and sddm takes the X11 session when a name exists in both session directories; `journalctl -b -u sunlit-e2e-desktop` in the guest says which name it was handed",
        );
        Err(e)
    }
}

pub open spec fn from_record_spec(desktop: Option<Seq<char>>, session_type: Option<Seq<char>>) -> Option<
    (Desktop, SessionType),
> {
    match desktop {
        None => None,
        Some(d) => match parse_desktop_spec(d) {
            None => None,
            Some(d) => {
                let t = match session_type {
                    None => Some(SessionType::X11),
                    Some(v) => parse_session_type_spec(v),
                };
                match t {
                    None => None,
                    Some(t) => if session_spec(d, t).is_some() {
                        Some((d, t))
                    } else {
                        None
                    },
                }
            },
        },
    }
}

fn show(v: &str) -> (r: String)
    ensures
        r@ == shown(v@),
{
    let c = chars_of(v);
    if c.len() == 0 {
        owned("nothing")
    } else {
        debug_str(v)
    }
}

/// The desktops with a session of this type, as `--desktop` flags.
fn offered(t: SessionType) -> (r: Vec<String>)
    ensures
        views(r@) == offered_flags(t),
{
    let all = Desktop::all();
    let mut out: Vec<String> = Vec::new();
    let mut i: usize = 0;
    while i < all.len()
        invariant
            all@ == all_desktops(),
            i <= all.len(),
            views(out@) == all_desktops().take(i as int).filter(
                |d: Desktop| session_spec(d, t).is_some(),
            ).map_values(|d: Desktop| "--desktop "@ + desktop_flag(d)),
        decreases all.len() - i,
    {
        let d = all[i];
        let ghost pred = |d: Desktop| session_spec(d, t).is_some();
        let ghost before = all_desktops().take(i as int).filter(pred);
        proof {
            assert(all_desktops().take(i + 1).drop_last() == all_desktops().take(i as int));
            reveal(Seq::filter);
        }
        if d.session(t).is_some() {
            let mut s = owned("--desktop ");
            s.append(d.flag());
            let ghost ov = out@;
            out.push(s);
            proof {
                let f = |d: Desktop| "--desktop "@ + desktop_flag(d);
                assert(all_desktops().take(i + 1).filter(pred) == before.push(d));
                assert(views(out@) =~= views(ov).push(s@));
                assert(before.push(d).map_values(f) =~= before.map_values(f).push(f(d)));
            }
        } else {
            proof {
                assert(all_desktops().take(i + 1).filter(pred) == before);
            }
        }
        i = i + 1;
    }
    assert(all_desktops().take(6) == all_desktops());
    out
}

/// The value of `key` in a `KEY=value` text, as `env_value` reads it.
fn env_lookup(text: &str, key: &str) -> (r: String)
    ensures
        r@ == env_value(lines_spec(text@), key@),
{
    let v = chars_of(text);
    let mut prefix = chars_of(key);
    prefix.push('=');
    let ghost want = key@.push('=');
    proof {
        lemma_skip_zero(v@);
    }
    let mut pos: usize = 0;
    while pos < v.len()
        invariant
            v@ == text@,
            pos <= v.len(),
            prefix@ == want,
            want == key@.push('='),
            env_value(lines_spec(text@), key@) == env_value(lines_spec(v@.skip(pos as int)), key@),
        decreases v.len() - pos,
    {
        let (end, next) = next_line(&v, pos);
        let ghost line = v@.subrange(pos as int, end as int);
        let ghost rest = lines_spec(v@.skip(next as int));
        proof {
            assert((seq![line] + rest)[0] == line);
            assert((seq![line] + rest).drop_first() =~= rest);
        }
        if vec_starts_with(&v, pos, end, &prefix) {
            let (lo, hi) = trim_bounds(&v, pos + prefix.len(), end);
            proof {
                assert(line.skip(key@.len() as int + 1) == v@.subrange(pos + prefix.len(), end as int));
            }
            return string_of(&v, lo, hi);
        }
        pos = next;
    }
    proof {
        lemma_lines_of_end(v@);
    }
    String::new()
}

/// Whether some `c`-separated piece of `v` equals `w`, ignoring ASCII case.
fn any_piece_ic(v: &Vec<char>, c: char, w: &Vec<char>) -> (r: bool)
    ensures
        r == some_piece_ic(v@, c, w@),
{
    let ghost s = v@;
    let mut pos: usize = 0;
    loop
        invariant
            s == v@,
            pos <= v.len(),
            pos == 0 || v@[pos - 1] == c,
            forall|i: int, j: int| is_piece(s, c, i, j) && i < pos ==> !eq_ic(s.subrange(i, j), w@),
        decreases v.len() - pos,
    {
        let end = match crate::text::find_char(v, pos, v.len(), c) {
            Some(e) => e,
            None => v.len(),
        };
        proof {
            assert(is_piece(s, c, pos as int, end as int));
            assert forall|i: int, j: int| is_piece(s, c, i, j) && pos <= i <= end implies (i
                == pos && j == end) || i == end + 1 by {
                if pos < i && i <= end {
                    assert(s[i - 1] == c);
                }
                if i == pos {
                    if j < end {
                        assert(s[j] == c);
                    }
                    if j > end {
                        assert(s[end as int] == c);
                    }
                }
            }
            assert(w@.subrange(0, w.len() as int) == w@);
        }
        if slice_eq_ic(v, pos, end, w, 0, w.len()) {
            return true;
        }
        if end == v.len() {
            proof {
                assert forall|i: int, j: int| is_piece(s, c, i, j) implies !eq_ic(
                    s.subrange(i, j),
                    w@,
                ) by {
                    if i >= pos {
                        assert(i <= end);
                    }
                }
            }
            return false;
        }
        pos = end + 1;
    }
}

/// The `-fw_cfg` argument that tells a guest which session to log into.
pub fn fw_cfg_args(login: Login) -> (r: Vec<String>)
    ensures
        views(r@) == seq![
            "-fw_cfg"@,
            "name="@ + FW_CFG_NAME@ + ",string="@ + session_spec(
                login.desktop_spec(),
                login.session_type_spec(),
            ).unwrap(),
        ],
{
    let mut v = Vec::new();
    v.push(owned("-fw_cfg"));
    let mut a = owned("name=");
    a.append(FW_CFG_NAME);
    a.append(",string=");
    a.append(login.session());
    v.push(a);
    assert(views(v@) =~= seq![
        "-fw_cfg"@,
        "name="@ + FW_CFG_NAME@ + ",string="@ + session_spec(
            login.desktop_spec(),
            login.session_type_spec(),
        ).unwrap(),
    ]);
    v
}

/// A record reads back as the login it was written from: the desktop's flag
/// with the session type's, or, for an X11 login, with no session type at
/// all, which is how a boot records one.
pub proof fn lemma_record_reads_back(d: Desktop, t: SessionType)
    requires
        session_spec(d, t).is_some(),
    ensures
        from_record_spec(Some(desktop_flag(d)), Some(session_type_flag(t))) == Some((d, t)),
        t == SessionType::X11 ==> from_record_spec(Some(desktop_flag(d)), None) == Some((d, t)),
{
    reveal_strlit("kde");
    reveal_strlit("gnome");
    reveal_strlit("xfce");
    reveal_strlit("cinnamon");
    reveal_strlit("sway");
    reveal_strlit("i3");
    reveal_strlit("x11");
    reveal_strlit("wayland");
}

/// Every pair the image accepts has a session of its own and a label of its
/// own: two different logins are never handed the same session, nor reported
/// under the same name.
pub proof fn lemma_accepted_logins_are_told_apart(d1: Desktop, t1: SessionType, d2: Desktop, t2: SessionType)
    requires
        session_spec(d1, t1).is_some(),
        session_spec(d2, t2).is_some(),
        d1 != d2 || t1 != t2,
    ensures
        session_spec(d1, t1) != session_spec(d2, t2),
        login_label(d1, t1) != login_label(d2, t2),
{
    reveal_strlit("plasmax11");
    reveal_strlit("gnome-xorg");
    reveal_strlit("xfce");
    reveal_strlit("cinnamon");
    reveal_strlit("plasma");
    reveal_strlit("gnome-wayland");
    reveal_strlit("sway");
    reveal_strlit("i3");
    reveal_strlit("KDE Plasma (X11)");
    reveal_strlit("GNOME (Xorg)");
    reveal_strlit("XFCE");
    reveal_strlit("Cinnamon");
    reveal_strlit("sway (Wayland)");
    reveal_strlit("i3 (X11)");
    reveal_strlit("KDE Plasma (Wayland)");
    reveal_strlit("GNOME (Wayland)");
    reveal_strlit("XFCE (Wayland)");
    reveal_strlit("Cinnamon (Wayland)");
    reveal_strlit("i3 (Wayland)");
    let a = session_spec(d1, t1).unwrap();
    let b = session_spec(d2, t2).unwrap();
    if a == b {
        assert(a.len() == b.len() && a[0] == b[0]);
        assert(false);
    }
    let x = login_label(d1, t1);
    let y = login_label(d2, t2);
    if x == y {
        assert(x.len() == y.len() && x[0] == y[0]);
        assert(false);
    }
}

} // verus!
