//! What a guest needs before a person is handed the keys to it: a launcher
//! that starts the app the way the guest has to start it, and somewhere
//! obvious to click, on each kind of guest.
//!
//! Everything here is text: the scripts, the entries, the commands that carry
//! them into the guest, and the reading of what the guest answered.

use vstd::prelude::*;

use crate::guest::artifacts::{shell_quote, shell_quote_spec, GuestPaths};
use crate::provider::target::{ProviderKind, Target};
use crate::provider::{GUEST_ROOT_LINUX, GUEST_ROOT_WINDOWS};
use crate::runner::{base64, base64_decode, lemma_base64_decodes_back, encode_command, encode_text, ps_quote, ps_quote_spec, utf16le, CommandOutput};
use crate::text::{contains, contains_spec, trim, trim_spec};

verus! {

/// The backend the Windows guest's app has to be told to use: its display
/// adapter offers no OpenGL, so the software renderer is the one that starts.
pub const WINDOWS_SLINT_BACKEND: &'static str = "winit-software";

/// The launcher's name inside the guest, beside the staged binaries.
pub const LAUNCHER: &'static str = "run-app.cmd";

/// What the desktop shortcuts are called.
pub const APP_SHORTCUT: &'static str = "Sunlit Earth.lnk";

pub const FOLDER_SHORTCUT: &'static str = "sunlit-e2e.lnk";

/// What the app is called wherever a person is offered it.
pub const ENTRY_NAME: &'static str = "Sunlit Earth";

/// The Linux launcher's name.
pub const LINUX_LAUNCHER: &'static str = "run-app.sh";

/// Where the app's own output goes when nobody started it from a terminal.
pub const LINUX_LAUNCHER_LOG: &'static str = "run-app.log";

/// The desktop entries' file names, the same in the menu and on the desktop.
pub const APP_ENTRY: &'static str = "sunlit-earth.desktop";

pub const FOLDER_ENTRY: &'static str = "sunlit-e2e.desktop";

/// What the install script prints once it is through.
pub const LINUX_HANDOVER_READY: &'static str = "HANDOVER=ready";

/// What the enhanced-session script prints once it is through.
pub const ENHANCED_READY: &'static str = "ENHANCED=ready";

pub open spec fn launcher_path_spec() -> Seq<char> {
    (GUEST_ROOT_WINDOWS@)
        + "\\"@
        + (LAUNCHER@)
}

/// Where the launcher is written inside the guest.
pub fn launcher_path() -> (r: String)
    ensures
        r@ == launcher_path_spec(),
{
    let mut r = String::new();
    r.append(GUEST_ROOT_WINDOWS);
    r.append("\\");
    r.append(LAUNCHER);
    r
}

pub open spec fn launcher_script_spec(paths: GuestPaths) -> Seq<char> {
    "@echo off\r\nrem Written by `cargo xtask vm up`. This guest is a throwaway overlay,\r\nrem so an edit here lasts until it is taken down.\r\nsetlocal\r\nrem This guest's display adapter offers no OpenGL and Windows ships no\r\nrem software implementation of it, so Slint's default renderer cannot\r\nrem start and the app exits before its window appears.\r\nset SLINT_BACKEND="@
        + (WINDOWS_SLINT_BACKEND@)
        + "\r\n"@
        + (match paths.textures { Some(d) => "set SUNLIT_EARTH_TEXTURES="@ + d@ + "\r\n"@, None => Seq::<char>::empty() })
        + "if not exist \""@
        + (paths.app@)
        + "\" goto :missing\r\n\""@
        + (paths.app@)
        + "\" %*\r\nset code=%ERRORLEVEL%\r\nif not \"%code%\"==\"0\" (\r\n  echo.\r\n  echo the app exited with %code%\r\n  pause\r\n)\r\nexit /b %code%\r\n\r\n:missing\r\necho "@
        + (paths.app@)
        + " is not here.\r\necho `cargo xtask vm up windows` on the host copies the binaries in.\r\npause\r\nexit /b 1\r\n"@
}

/// The batch file that starts the app the way this guest has to: with the
/// backend set, the textures named when they were staged, the exit code kept
/// and a failure held open long enough to be read.
pub fn launcher_script(paths: &GuestPaths) -> (r: String)
    ensures
        r@ == launcher_script_spec(*paths),
{
    let mut r = String::new();
    r.append("@echo off\r\nrem Written by `cargo xtask vm up`. This guest is a throwaway overlay,\r\nrem so an edit here lasts until it is taken down.\r\nsetlocal\r\nrem This guest's display adapter offers no OpenGL and Windows ships no\r\nrem software implementation of it, so Slint's default renderer cannot\r\nrem start and the app exits before its window appears.\r\nset SLINT_BACKEND=");
    r.append(WINDOWS_SLINT_BACKEND);
    r.append("\r\n");
    match &paths.textures { Some(d) => { r.append("set SUNLIT_EARTH_TEXTURES="); r.append(d.as_str()); r.append("\r\n"); }, None => {} }
    r.append("if not exist \"");
    r.append(paths.app.as_str());
    r.append("\" goto :missing\r\n\"");
    r.append(paths.app.as_str());
    r.append("\" %*\r\nset code=%ERRORLEVEL%\r\nif not \"%code%\"==\"0\" (\r\n  echo.\r\n  echo the app exited with %code%\r\n  pause\r\n)\r\nexit /b %code%\r\n\r\n:missing\r\necho ");
    r.append(paths.app.as_str());
    r.append(" is not here.\r\necho `cargo xtask vm up windows` on the host copies the binaries in.\r\npause\r\nexit /b 1\r\n");
    r
}

pub open spec fn shortcut_script_spec(paths: GuestPaths) -> Seq<char> {
    "$ErrorActionPreference = 'Stop'\n$desktop = [Environment]::GetFolderPath('Desktop')\n$shell = New-Object -ComObject WScript.Shell\n$app = $shell.CreateShortcut((Join-Path $desktop "@
        + (ps_quote_spec(APP_SHORTCUT@))
        + "))\n$app.TargetPath = "@
        + (ps_quote_spec(launcher_path_spec()))
        + "\n$app.WorkingDirectory = "@
        + (ps_quote_spec(GUEST_ROOT_WINDOWS@))
        + "\n$app.IconLocation = "@
        + (ps_quote_spec(paths.app@ + ",0"@))
        + "\n$app.Description = 'Start sunlit earth with the environment this guest needs'\n$app.Save()\n$folder = $shell.CreateShortcut((Join-Path $desktop "@
        + (ps_quote_spec(FOLDER_SHORTCUT@))
        + "))\n$folder.TargetPath = "@
        + (ps_quote_spec(GUEST_ROOT_WINDOWS@))
        + "\n$folder.Description = 'The binaries, fixtures and results this run staged'\n$folder.Save()\nWrite-Output 'shortcuts written'\n"@
}

/// The `PowerShell` that puts both shortcuts on the console user's desktop:
/// the app one pointing at the launcher with the app's icon, the folder one at
/// the guest's root.
pub fn shortcut_script(paths: &GuestPaths) -> (r: String)
    ensures
        r@ == shortcut_script_spec(*paths),
{
    let mut r = String::new();
    r.append("$ErrorActionPreference = 'Stop'\n$desktop = [Environment]::GetFolderPath('Desktop')\n$shell = New-Object -ComObject WScript.Shell\n$app = $shell.CreateShortcut((Join-Path $desktop ");
    { let q = ps_quote(APP_SHORTCUT); r.append(q.as_str()); }
    r.append("))\n$app.TargetPath = ");
    { let p = launcher_path(); let q = ps_quote(p.as_str()); r.append(q.as_str()); }
    r.append("\n$app.WorkingDirectory = ");
    { let q = ps_quote(GUEST_ROOT_WINDOWS); r.append(q.as_str()); }
    r.append("\n$app.IconLocation = ");
    { let mut i = crate::text::owned(paths.app.as_str()); i.append(",0"); let q = ps_quote(i.as_str()); r.append(q.as_str()); }
    r.append("\n$app.Description = 'Start sunlit earth with the environment this guest needs'\n$app.Save()\n$folder = $shell.CreateShortcut((Join-Path $desktop ");
    { let q = ps_quote(FOLDER_SHORTCUT); r.append(q.as_str()); }
    r.append("))\n$folder.TargetPath = ");
    { let q = ps_quote(GUEST_ROOT_WINDOWS); r.append(q.as_str()); }
    r.append("\n$folder.Description = 'The binaries, fixtures and results this run staged'\n$folder.Save()\nWrite-Output 'shortcuts written'\n");
    r
}

pub open spec fn powershell_command_spec(script: Seq<char>) -> Seq<char> {
    "powershell.exe -NoProfile -NonInteractive -EncodedCommand "@
        + (base64(utf16le(script)))
}

/// What PowerShell runs is the script: the token after `-EncodedCommand`
/// decodes, by RFC 4648, to the script's UTF-16LE bytes.
pub proof fn lemma_the_encoded_command_is_the_script(script: Seq<char>)
    ensures
        exists|token: Seq<char>|
            powershell_command_spec(script) == "powershell.exe -NoProfile -NonInteractive -EncodedCommand "@ + token
                && #[trigger] base64_decode(token) == utf16le(script),
{
    lemma_base64_decodes_back(utf16le(script));
    let token = base64(utf16le(script));
    assert(base64_decode(token) == utf16le(script));
}

/// The command that runs a script in a Windows guest as one base64 token,
/// which nothing on the way has to escape.
pub fn powershell_command(script: &str) -> (r: String)
    ensures
        r@ == powershell_command_spec(script@),
{
    let mut r = String::new();
    r.append("powershell.exe -NoProfile -NonInteractive -EncodedCommand ");
    { let e = encode_command(script); r.append(e.as_str()); }
    r
}

pub open spec fn linux_launcher_path_spec() -> Seq<char> {
    (GUEST_ROOT_LINUX@)
        + "/"@
        + (LINUX_LAUNCHER@)
}

/// Where the Linux launcher is written: beside the binaries, in the root.
pub fn linux_launcher_path() -> (r: String)
    ensures
        r@ == linux_launcher_path_spec(),
{
    let mut r = String::new();
    r.append(GUEST_ROOT_LINUX);
    r.append("/");
    r.append(LINUX_LAUNCHER);
    r
}

pub open spec fn linux_launcher_log_spec() -> Seq<char> {
    (GUEST_ROOT_LINUX@)
        + "/"@
        + (LINUX_LAUNCHER_LOG@)
}

/// Where the Linux launcher's output goes when there is no terminal.
pub fn linux_launcher_log() -> (r: String)
    ensures
        r@ == linux_launcher_log_spec(),
{
    let mut r = String::new();
    r.append(GUEST_ROOT_LINUX);
    r.append("/");
    r.append(LINUX_LAUNCHER_LOG);
    r
}

pub open spec fn linux_launcher_script_spec(paths: GuestPaths) -> Seq<char> {
    "#!/usr/bin/env bash\n# Written by `cargo xtask vm up`. This guest is a throwaway overlay,\n# so an edit here lasts until it is taken down.\nset -u\napp="@
        + (shell_quote_spec(paths.app@))
        + "\n# Started from a desktop entry there is no terminal for anything below\n# to print to, so it all goes to the log instead. Started from a shell\n# the terminal is the better place, and a log would hide it there.\nif [ ! -t 1 ]; then\n  exec >>"@
        + (shell_quote_spec(linux_launcher_log_spec()))
        + " 2>&1\nfi\nif [ ! -x \"${app}\" ]; then\n  echo \"${app} is not here.\"\n  echo 'cargo xtask vm up linux on the host copies the binaries in.'\n  exit 1\nfi\n"@
        + (match paths.textures { Some(d) => "export SUNLIT_EARTH_TEXTURES="@ + shell_quote_spec(d@) + "\n"@, None => Seq::<char>::empty() })
        + "exec \"${app}\" \"$@\"\n"@
}

/// The shell script that starts the app in a Linux guest: no backend to set,
/// the textures named when they were staged, the output logged when there is
/// no terminal, and a sentence when the binaries are not there.
pub fn linux_launcher_script(paths: &GuestPaths) -> (r: String)
    ensures
        r@ == linux_launcher_script_spec(*paths),
{
    let mut r = String::new();
    r.append("#!/usr/bin/env bash\n# Written by `cargo xtask vm up`. This guest is a throwaway overlay,\n# so an edit here lasts until it is taken down.\nset -u\napp=");
    { let q = shell_quote(paths.app.as_str()); r.append(q.as_str()); }
    r.append("\n# Started from a desktop entry there is no terminal for anything below\n# to print to, so it all goes to the log instead. Started from a shell\n# the terminal is the better place, and a log would hide it there.\nif [ ! -t 1 ]; then\n  exec >>");
    { let l = linux_launcher_log(); let q = shell_quote(l.as_str()); r.append(q.as_str()); }
    r.append(" 2>&1\nfi\nif [ ! -x \"${app}\" ]; then\n  echo \"${app} is not here.\"\n  echo 'cargo xtask vm up linux on the host copies the binaries in.'\n  exit 1\nfi\n");
    match &paths.textures { Some(d) => { r.append("export SUNLIT_EARTH_TEXTURES="); let q = shell_quote(d.as_str()); r.append(q.as_str()); r.append("\n"); }, None => {} }
    r.append("exec \"${app}\" \"$@\"\n");
    r
}

pub open spec fn app_entry_spec() -> Seq<char> {
    "[Desktop Entry]\nType=Application\nVersion=1.0\nName="@
        + (ENTRY_NAME@)
        + "\nComment=Start sunlit earth with what this boot staged in the guest\nExec="@
        + (linux_launcher_path_spec())
        + "\nPath="@
        + (GUEST_ROOT_LINUX@)
        + "\nIcon=applications-graphics\nTerminal=false\nCategories=Graphics;\n"@
}

/// The desktop entry that starts the app, through the launcher, by an
/// absolute path.
pub fn app_entry() -> (r: String)
    ensures
        r@ == app_entry_spec(),
{
    let mut r = String::new();
    r.append("[Desktop Entry]\nType=Application\nVersion=1.0\nName=");
    r.append(ENTRY_NAME);
    r.append("\nComment=Start sunlit earth with what this boot staged in the guest\nExec=");
    { let p = linux_launcher_path(); r.append(p.as_str()); }
    r.append("\nPath=");
    r.append(GUEST_ROOT_LINUX);
    r.append("\nIcon=applications-graphics\nTerminal=false\nCategories=Graphics;\n");
    r
}

pub open spec fn folder_entry_spec() -> Seq<char> {
    "[Desktop Entry]\nType=Application\nVersion=1.0\nName=sunlit-e2e\nComment=The binaries, fixtures and results this run staged\nExec=xdg-open "@
        + (GUEST_ROOT_LINUX@)
        + "\nIcon=folder\nTerminal=false\nCategories=Utility;\n"@
}

/// The desktop entry that opens the guest's root in a file manager, through
/// `xdg-open`, named as the folder entry's file is without its extension.
pub fn folder_entry() -> (r: String)
    ensures
        r@ == folder_entry_spec(),
{
    let mut r = String::new();
    r.append("[Desktop Entry]\nType=Application\nVersion=1.0\nName=sunlit-e2e\nComment=The binaries, fixtures and results this run staged\nExec=xdg-open ");
    r.append(GUEST_ROOT_LINUX);
    r.append("\nIcon=folder\nTerminal=false\nCategories=Utility;\n");
    r
}

pub open spec fn linux_install_script_spec(paths: GuestPaths) -> Seq<char> {
    "#!/usr/bin/env bash\nset -eu\n# The blessing below is written by the session's own metadata daemon,\n# over the session bus a process started from outside the session does\n# not have. The guest writes that environment out at logon for exactly\n# this class of process, and the job runner sources the same file.\nif [ -f "@
        + (shell_quote_spec(GUEST_ROOT_LINUX@ + "/session.env"@))
        + " ]; then\n  set -a\n  . "@
        + (shell_quote_spec(GUEST_ROOT_LINUX@ + "/session.env"@))
        + "\n  set +a\nfi\nlauncher="@
        + (shell_quote_spec(linux_launcher_path_spec()))
        + "\napps=\"${HOME}/.local/share/applications\"\ndesktop=\"$(xdg-user-dir DESKTOP 2>/dev/null || true)\"\nif [ -z \"${desktop}\" ] || [ \"${desktop}\" = \"${HOME}\" ]; then\n  desktop=\"${HOME}/Desktop\"\nfi\nmkdir -p \"${apps}\" \"${desktop}\"\n\ncat > \"${launcher}\" <<'SUNLIT_LAUNCHER_EOF'\n"@
        + (linux_launcher_script_spec(paths))
        + "SUNLIT_LAUNCHER_EOF\nchmod 0755 \"${launcher}\"\n\ncat > \"${apps}/"@
        + (APP_ENTRY@)
        + "\" <<'SUNLIT_APP_EOF'\n"@
        + (app_entry_spec())
        + "SUNLIT_APP_EOF\n\ncat > \"${apps}/"@
        + (FOLDER_ENTRY@)
        + "\" <<'SUNLIT_FOLDER_EOF'\n"@
        + (folder_entry_spec())
        + "SUNLIT_FOLDER_EOF\n\n# The executable bit is the whole blessing for two of the three\n# desktops that draw icons: measured in the guest, Plasma and Nemo both\n# run an executable entry without asking. xfdesktop is the one that\n# does not: it calls the desktop an insecure location whatever the mode\n# bits say, and wants its own mark, which is the file's sha256 under the\n# name below. That is exactly what its \"Mark As Secure And Launch\"\n# button writes, so writing it here is that dialog answered in advance.\n# Every other desktop ignores the attribute, and a guest with no\n# metadata daemon to write it is no reason to fail the hand-over.\nfor entry in "@
        + (APP_ENTRY@)
        + " "@
        + (FOLDER_ENTRY@)
        + "; do\n  chmod 0755 \"${apps}/${entry}\"\n  cp -f \"${apps}/${entry}\" \"${desktop}/${entry}\"\n  chmod 0755 \"${desktop}/${entry}\"\n  gio set -t string \"${desktop}/${entry}\" metadata::xfce-exe-checksum \"$(sha256sum \"${desktop}/${entry}\" | cut -d' ' -f1)\" >/dev/null 2>&1 || true\ndone\n\nupdate-desktop-database \"${apps}\" >/dev/null 2>&1 || true\nprintf '%s\\n' '"@
        + (LINUX_HANDOVER_READY@)
        + "'\n"@
}

/// The script that puts the launcher and both entries where the desktop
/// finds them, as the console session's own account, marking each entry the
/// way each desktop asks for, and printing a marker once it is through.
pub fn linux_install_script(paths: &GuestPaths) -> (r: String)
    ensures
        r@ == linux_install_script_spec(*paths),
{
    let mut r = String::new();
    r.append("#!/usr/bin/env bash\nset -eu\n# The blessing below is written by the session's own metadata daemon,\n# over the session bus a process started from outside the session does\n# not have. The guest writes that environment out at logon for exactly\n# this class of process, and the job runner sources the same file.\nif [ -f ");
    { let mut e = crate::text::owned(GUEST_ROOT_LINUX); e.append("/session.env"); let q = shell_quote(e.as_str()); r.append(q.as_str()); }
    r.append(" ]; then\n  set -a\n  . ");
    { let mut e = crate::text::owned(GUEST_ROOT_LINUX); e.append("/session.env"); let q = shell_quote(e.as_str()); r.append(q.as_str()); }
    r.append("\n  set +a\nfi\nlauncher=");
    { let p = linux_launcher_path(); let q = shell_quote(p.as_str()); r.append(q.as_str()); }
    r.append("\napps=\"${HOME}/.local/share/applications\"\ndesktop=\"$(xdg-user-dir DESKTOP 2>/dev/null || true)\"\nif [ -z \"${desktop}\" ] || [ \"${desktop}\" = \"${HOME}\" ]; then\n  desktop=\"${HOME}/Desktop\"\nfi\nmkdir -p \"${apps}\" \"${desktop}\"\n\ncat > \"${launcher}\" <<'SUNLIT_LAUNCHER_EOF'\n");
    { let s = linux_launcher_script(paths); r.append(s.as_str()); }
    r.append("SUNLIT_LAUNCHER_EOF\nchmod 0755 \"${launcher}\"\n\ncat > \"${apps}/");
    r.append(APP_ENTRY);
    r.append("\" <<'SUNLIT_APP_EOF'\n");
    { let s = app_entry(); r.append(s.as_str()); }
    r.append("SUNLIT_APP_EOF\n\ncat > \"${apps}/");
    r.append(FOLDER_ENTRY);
    r.append("\" <<'SUNLIT_FOLDER_EOF'\n");
    { let s = folder_entry(); r.append(s.as_str()); }
    r.append("SUNLIT_FOLDER_EOF\n\n# The executable bit is the whole blessing for two of the three\n# desktops that draw icons: measured in the guest, Plasma and Nemo both\n# run an executable entry without asking. xfdesktop is the one that\n# does not: it calls the desktop an insecure location whatever the mode\n# bits say, and wants its own mark, which is the file's sha256 under the\n# name below. That is exactly what its \"Mark As Secure And Launch\"\n# button writes, so writing it here is that dialog answered in advance.\n# Every other desktop ignores the attribute, and a guest with no\n# metadata daemon to write it is no reason to fail the hand-over.\nfor entry in ");
    r.append(APP_ENTRY);
    r.append(" ");
    r.append(FOLDER_ENTRY);
    r.append("; do\n  chmod 0755 \"${apps}/${entry}\"\n  cp -f \"${apps}/${entry}\" \"${desktop}/${entry}\"\n  chmod 0755 \"${desktop}/${entry}\"\n  gio set -t string \"${desktop}/${entry}\" metadata::xfce-exe-checksum \"$(sha256sum \"${desktop}/${entry}\" | cut -d' ' -f1)\" >/dev/null 2>&1 || true\ndone\n\nupdate-desktop-database \"${apps}\" >/dev/null 2>&1 || true\nprintf '%s\\n' '");
    r.append(LINUX_HANDOVER_READY);
    r.append("'\n");
    r
}

pub open spec fn bash_command_spec(script: Seq<char>) -> Seq<char> {
    "printf %s '"@
        + (base64(vstd::utf8::encode_utf8(script)))
        + "' | base64 -d | bash -s"@
}

/// The command that runs a script in a Linux guest as one base64 token.
pub fn bash_command(script: &str) -> (r: String)
    ensures
        r@ == bash_command_spec(script@),
{
    let mut r = String::new();
    r.append("printf %s '");
    { let e = encode_text(script); r.append(e.as_str()); }
    r.append("' | base64 -d | bash -s");
    r
}

pub open spec fn enhanced_session_script_spec(user: Seq<char>) -> Seq<char> {
    "$ErrorActionPreference = 'Stop'\nSet-LocalUser -Name "@
        + (ps_quote_spec(user))
        + " -Password (New-Object System.Security.SecureString)\nNew-ItemProperty -Path 'HKLM:\\SYSTEM\\CurrentControlSet\\Control\\Lsa' -Name 'LimitBlankPasswordUse' -PropertyType DWord -Value 0 -Force | Out-Null\nSet-Service -Name 'TermService' -StartupType Manual\nStart-Service -Name 'TermService'\nWrite-Output '"@
        + (ENHANCED_READY@)
        + "'\n"@
}

/// What a Windows guest needs before `vmconnect` can open an enhanced session
/// into it without a password typed: the account's password blanked, the
/// policy that confines blank passwords to the console lifted, and Remote
/// Desktop Services started.
pub fn enhanced_session_script(user: &str) -> (r: String)
    ensures
        r@ == enhanced_session_script_spec(user@),
{
    let mut r = String::new();
    r.append("$ErrorActionPreference = 'Stop'\nSet-LocalUser -Name ");
    { let q = ps_quote(user); r.append(q.as_str()); }
    r.append(" -Password (New-Object System.Security.SecureString)\nNew-ItemProperty -Path 'HKLM:\\SYSTEM\\CurrentControlSet\\Control\\Lsa' -Name 'LimitBlankPasswordUse' -PropertyType DWord -Value 0 -Force | Out-Null\nSet-Service -Name 'TermService' -StartupType Manual\nStart-Service -Name 'TermService'\nWrite-Output '");
    r.append(ENHANCED_READY);
    r.append("'\n");
    r
}

/// Whether a guest has an enhanced session to offer at all: only a Windows
/// guest under `Hyper-V`, since it is `vmconnect`'s feature.
pub fn offers_enhanced_session(kind: ProviderKind, target: Target) -> (r: bool)
    ensures
        r == (target == Target::Windows && kind == ProviderKind::HyperV),
{
    target == Target::Windows && kind == ProviderKind::HyperV
}

pub open spec fn handover_refusal(stdout: Seq<char>, stderr: Seq<char>) -> Seq<char> {
    "the guest would not take the launcher and the desktop entries: "@ + trim_spec(stdout) + trim_spec(stderr)
}

/// What the Linux install script's run came to: through only where it printed
/// its marker, whatever its exit code says.
pub fn linux_handover_outcome(out: &CommandOutput) -> (r: Result<(), String>)
    ensures
        match r {
            Ok(()) => contains_spec(out.stdout@, LINUX_HANDOVER_READY@),
            Err(e) => !contains_spec(out.stdout@, LINUX_HANDOVER_READY@) && e@ == handover_refusal(
                out.stdout@,
                out.stderr@,
            ),
        },
{
    if contains(out.stdout.as_str(), LINUX_HANDOVER_READY) {
        return Ok(());
    }
    let mut e = crate::text::owned("the guest would not take the launcher and the desktop entries: ");
    let a = trim(out.stdout.as_str());
    let b = trim(out.stderr.as_str());
    e.append(a.as_str());
    e.append(b.as_str());
    Err(e)
}

pub open spec fn shortcuts_refusal(stderr: Seq<char>) -> Seq<char> {
    "the guest would not write the desktop shortcuts: "@ + trim_spec(stderr)
}

/// What the shortcut script's run came to: through where it exited zero.
pub fn shortcuts_outcome(out: &CommandOutput) -> (r: Result<(), String>)
    ensures
        match r {
            Ok(()) => out.code == Some(0i32),
            Err(e) => out.code != Some(0i32) && e@ == shortcuts_refusal(out.stderr@),
        },
{
    if out.success() {
        return Ok(());
    }
    let mut e = crate::text::owned("the guest would not write the desktop shortcuts: ");
    let b = trim(out.stderr.as_str());
    e.append(b.as_str());
    Err(e)
}

pub open spec fn enhanced_refusal(stdout: Seq<char>, stderr: Seq<char>) -> Seq<char> {
    "the guest would not make an enhanced session possible: "@ + trim_spec(stdout) + trim_spec(stderr)
}

/// What the enhanced-session script's run came to: the guest offers one only
/// where the script printed its marker.
pub fn enhanced_outcome(out: &CommandOutput) -> (r: Result<bool, String>)
    ensures
        match r {
            Ok(b) => b && contains_spec(out.stdout@, ENHANCED_READY@),
            Err(e) => !contains_spec(out.stdout@, ENHANCED_READY@) && e@ == enhanced_refusal(
                out.stdout@,
                out.stderr@,
            ),
        },
{
    if contains(out.stdout.as_str(), ENHANCED_READY) {
        return Ok(true);
    }
    let mut e = crate::text::owned("the guest would not make an enhanced session possible: ");
    let a = trim(out.stdout.as_str());
    let b = trim(out.stderr.as_str());
    e.append(a.as_str());
    e.append(b.as_str());
    Err(e)
}

} // verus!
