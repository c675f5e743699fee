use crate::config::{join, joined, Config, DeviceConfig};
use crate::layout::strings;
use crate::text::{
    chars_of, contains, contains_text, eq_ignore_case, is_text, same_ignoring_case, trim, trimmed,
};
use vstd::prelude::*;
use vstd::string::*;

verus! {

/// What the checks before an installation come to.
#[derive(Debug, Clone, Copy, PartialEq, Eq, Structural)]
pub enum Requirements {
    /// Nothing stands against the installation.
    Met,
    /// The system's release is not the supported one, and the user has not
    /// been asked yet whether to go on.
    Unconfirmed,
    /// The user was asked and did not say yes.
    Declined,
    /// The desktop is not the one that the display tool belongs to.
    WrongDesktop,
}

/// One command of the installation, and whether the installation stops when
/// it fails.
#[derive(Debug, Clone)]
pub struct InstallCommand {
    pub program: String,
    pub args: Vec<String>,
    pub must_succeed: bool,
}

/// The upper-case form of a text, as the standard library's `str::to_uppercase`
/// gives it.
pub uninterp spec fn uppercased(s: Seq<char>) -> Seq<char>;

/// Calls `str::to_uppercase`, which maps each character by Unicode's rules
/// for upper case and depends on nothing but the text.
#[verifier::external_body]
fn to_uppercase(s: &str) -> (out: String)
    ensures
        out@ == uppercased(s@),
{
    s.to_uppercase()
}

/// An answer that says yes: the letter `y`, in either case, with white
/// space around it at most.
pub open spec fn is_yes(answer: Seq<char>) -> bool {
    same_ignoring_case(trimmed(answer), "y"@)
}

/// The release description names the supported release.
pub open spec fn is_supported(os_release: Seq<char>) -> bool {
    contains_text(os_release, "Fedora Linux 43"@)
}

/// The session is a GNOME session: the desktop's name says so where there is
/// a name, and else the shell's being installed.
pub open spec fn is_gnome(desktop: Seq<char>, shell_installed: bool) -> bool {
    if desktop.len() > 0 {
        contains_text(uppercased(desktop), "GNOME"@)
    } else {
        shell_installed
    }
}

/// The outcome of the checks. A release description that could be read and
/// does not name the supported release needs the user's yes; after that, or
/// without it, the desktop decides.
pub open spec fn requirements(
    os_release: Option<Seq<char>>,
    answer: Option<Seq<char>>,
    desktop: Seq<char>,
    shell_installed: bool,
) -> Requirements {
    if os_release is Some && !is_supported(os_release.unwrap()) && answer is None {
        Requirements::Unconfirmed
    } else if os_release is Some && !is_supported(os_release.unwrap()) && !is_yes(
        answer.unwrap(),
    ) {
        Requirements::Declined
    } else if !is_gnome(desktop, shell_installed) {
        Requirements::WrongDesktop
    } else {
        Requirements::Met
    }
}

/// The text of an optional string slice.
pub open spec fn slice_text(s: Option<&str>) -> Option<Seq<char>> {
    match s {
        Some(t) => Some(t@),
        None => None,
    }
}

/// Whether the user's answer says yes.
pub fn is_affirmative(answer: &str) -> (r: bool)
    ensures
        r == is_yes(answer@),
{
    let given = trim(&chars_of(answer));
    let yes = chars_of("y");
    eq_ignore_case(&given, &yes)
}

/// Whether the release description names the supported release.
pub fn is_supported_release(os_release: &str) -> (r: bool)
    ensures
        r == is_supported(os_release@),
{
    contains(&chars_of(os_release), &chars_of("Fedora Linux 43"))
}

/// Whether the session is a GNOME session.
pub fn is_gnome_session(desktop: &str, shell_installed: bool) -> (r: bool)
    ensures
        r == is_gnome(desktop@, shell_installed),
{
    if !desktop.is_empty() {
        let upper = to_uppercase(desktop);
        contains(&chars_of(upper.as_str()), &chars_of("GNOME"))
    } else {
        shell_installed
    }
}

/// Decides whether the installation may go on, from the release description
/// where it could be read, the user's answer where one was asked for, the
/// desktop's name and whether the shell is installed.
pub fn check_requirements(
    os_release: Option<&str>,
    answer: Option<&str>,
    desktop: &str,
    shell_installed: bool,
) -> (r: Requirements)
    ensures
        r == requirements(slice_text(os_release), slice_text(answer), desktop@, shell_installed),
{
    if let Some(release) = os_release {
        if !is_supported_release(release) {
            match answer {
                None => {
                    return Requirements::Unconfirmed;
                },
                Some(given) => {
                    if !is_affirmative(given) {
                        return Requirements::Declined;
                    }
                },
            }
        }
    }
    if is_gnome_session(desktop, shell_installed) {
        Requirements::Met
    } else {
        Requirements::WrongDesktop
    }
}

/// Whether the installer runs for the administrator, which the user is
/// warned of: the user's name is `root`, or the session came through sudo.
pub fn runs_as_root(user: &str, sudo_user_set: bool) -> (r: bool)
    ensures
        r == (user@ == "root"@ || sudo_user_set),
{
    is_text(&chars_of(user), "root") || sudo_user_set
}

/// The configuration that the installer writes: the chosen scale, and the
/// identity of the accessory.
pub fn installed_config(scale: String) -> (config: Config)
    ensures
        config.scale@ == scale@,
        config.device.vendor_id@ == "0b05"@,
        config.device.product_id@ == "1bf2"@,
{
    Config {
        scale,
        device: DeviceConfig { vendor_id: "0b05".to_owned(), product_id: "1bf2".to_owned() },
    }
}

/// The service unit that runs the program at `exec`.
pub open spec fn service_unit_text(exec: Seq<char>) -> Seq<char> {
    "[Unit]\nDescription=Zenbook Duo User Handler\nAfter=graphical-session.target\n\n[Service]\nExecStart="@
        + exec
        + "\nRestart=always\nRestartSec=5\nEnvironment=XDG_CURRENT_DESKTOP=GNOME\n\n[Install]\nWantedBy=default.target\n"@
}

/// The text of the service unit that runs the program at `exec`.
pub fn service_unit(exec: &str) -> (unit: String)
    ensures
        unit@ == service_unit_text(exec@),
{
    let mut unit =
        "[Unit]\nDescription=Zenbook Duo User Handler\nAfter=graphical-session.target\n\n[Service]\nExecStart=".to_owned();
    unit.append(exec);
    unit.append(
        "\nRestart=always\nRestartSec=5\nEnvironment=XDG_CURRENT_DESKTOP=GNOME\n\n[Install]\nWantedBy=default.target\n",
    );
    unit
}

/// The service unit's file, for a user whose configuration directory is
/// `config_dir`.
pub open spec fn service_file_in(config_dir: Seq<char>) -> Seq<char> {
    joined(joined(joined(config_dir, "systemd"@), "user"@), "zenbook-duo.service"@)
}

/// The path of the service unit's file under `config_dir`.
pub fn service_file(config_dir: String) -> (path: String)
    ensures
        path@ == service_file_in(config_dir@),
{
    join(join(join(config_dir, "systemd"), "user"), "zenbook-duo.service")
}

/// The commands that put the program `exe` in its place: a copy beside the
/// place, which must succeed, a change of mode, which need not, and a move
/// over the place, which must.
pub open spec fn placement_of(exe: Seq<char>) -> Seq<(Seq<char>, Seq<Seq<char>>, bool)> {
    seq![
        ("sudo"@, seq!["cp"@, exe, "/usr/local/bin/zenbook-duo.new"@], true),
        ("sudo"@, seq!["chmod"@, "+x"@, "/usr/local/bin/zenbook-duo.new"@], false),
        (
            "sudo"@,
            seq!["mv"@, "-f"@, "/usr/local/bin/zenbook-duo.new"@, "/usr/local/bin/zenbook-duo"@],
            true,
        ),
    ]
}

/// The commands that make the service known and start it; neither stops the
/// installation when it fails.
pub open spec fn activation() -> Seq<(Seq<char>, Seq<Seq<char>>, bool)> {
    seq![
        ("systemctl"@, seq!["--user"@, "daemon-reload"@], false),
        ("systemctl"@, seq!["--user"@, "enable"@, "--now"@, "zenbook-duo.service"@], false),
    ]
}

/// A list of commands as plain values.
pub open spec fn commands_view(commands: Seq<InstallCommand>) -> Seq<
    (Seq<char>, Seq<Seq<char>>, bool),
> {
    Seq::new(
        commands.len(),
        |i: int| (commands[i].program@, strings(commands[i].args@), commands[i].must_succeed),
    )
}

/// The commands that put the program `exe` in its place, in their order.
pub fn placement_commands(exe: &str) -> (commands: Vec<InstallCommand>)
    ensures
        commands_view(commands@) == placement_of(exe@),
{
    let mut copy: Vec<String> = Vec::new();
    copy.push("cp".to_owned());
    copy.push(exe.to_owned());
    copy.push("/usr/local/bin/zenbook-duo.new".to_owned());
    let mut mode: Vec<String> = Vec::new();
    mode.push("chmod".to_owned());
    mode.push("+x".to_owned());
    mode.push("/usr/local/bin/zenbook-duo.new".to_owned());
    let mut place: Vec<String> = Vec::new();
    place.push("mv".to_owned());
    place.push("-f".to_owned());
    place.push("/usr/local/bin/zenbook-duo.new".to_owned());
    place.push("/usr/local/bin/zenbook-duo".to_owned());
    proof {
        assert(strings(copy@) =~= seq!["cp"@, exe@, "/usr/local/bin/zenbook-duo.new"@]);
        assert(strings(mode@) =~= seq!["chmod"@, "+x"@, "/usr/local/bin/zenbook-duo.new"@]);
        assert(strings(place@) =~= seq![
            "mv"@,
            "-f"@,
            "/usr/local/bin/zenbook-duo.new"@,
            "/usr/local/bin/zenbook-duo"@,
        ]);
    }
    let mut commands: Vec<InstallCommand> = Vec::new();
    commands.push(InstallCommand { program: "sudo".to_owned(), args: copy, must_succeed: true });
    commands.push(InstallCommand { program: "sudo".to_owned(), args: mode, must_succeed: false });
    commands.push(InstallCommand { program: "sudo".to_owned(), args: place, must_succeed: true });
    proof {
        assert(commands_view(commands@) =~= placement_of(exe@));
    }
    commands
}

/// The commands that make the service known and start it, in their order.
pub fn activation_commands() -> (commands: Vec<InstallCommand>)
    ensures
        commands_view(commands@) == activation(),
{
    let mut reload: Vec<String> = Vec::new();
    reload.push("--user".to_owned());
    reload.push("daemon-reload".to_owned());
    let mut enable: Vec<String> = Vec::new();
    enable.push("--user".to_owned());
    enable.push("enable".to_owned());
    enable.push("--now".to_owned());
    enable.push("zenbook-duo.service".to_owned());
    proof {
        assert(strings(reload@) =~= seq!["--user"@, "daemon-reload"@]);
        assert(strings(enable@) =~= seq![
            "--user"@,
            "enable"@,
            "--now"@,
            "zenbook-duo.service"@,
        ]);
    }
    let mut commands: Vec<InstallCommand> = Vec::new();
    commands.push(
        InstallCommand { program: "systemctl".to_owned(), args: reload, must_succeed: false },
    );
    commands.push(
        InstallCommand { program: "systemctl".to_owned(), args: enable, must_succeed: false },
    );
    proof {
        assert(commands_view(commands@) =~= activation());
    }
    commands
}

} // verus!
