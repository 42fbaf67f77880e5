//! Commands to spawn, on the host or inside the guest, and the configuration
//! that names the guest and where its files are staged.
use vstd::prelude::*;

verus! {

/// How a spawned program's standard output and error are connected.
#[derive(Clone, Copy, Debug, PartialEq, Eq, Structural)]
pub enum IoMode {
    /// Both are discarded.
    Silent,
    /// Both are inherited from this process.
    Inherit,
    /// Standard output is captured as text.
    Capture,
}

/// What came of carrying out one requested action.
#[derive(Clone, Copy, Debug, PartialEq, Eq, Structural)]
pub enum Outcome {
    /// The program exited with status zero, the file exists, the directory was made.
    Success,
    /// The program exited with another status, or the file is absent.
    Failure,
    /// The action could not be carried out at all (the program did not start).
    Fault,
}

/// A program to spawn: its argument vector, program first, and its output mode.
pub struct Command {
    pub argv: Vec<String>,
    pub mode: IoMode,
}

/// The texts of a vector of strings.
pub open spec fn texts(v: Seq<String>) -> Seq<Seq<char>> {
    v.map_values(|s: String| s@)
}

impl View for Command {
    type V = (Seq<Seq<char>>, IoMode);

    open spec fn view(&self) -> (Seq<Seq<char>>, IoMode) {
        (texts(self.argv@), self.mode)
    }
}

/// Everything an invocation needs to know of its surroundings, fixed at startup.
pub struct Config {
    /// The identity of the guest instance.
    pub distro_name: String,
    /// Where the guest's root filesystem archive is downloaded from.
    pub rootfs_url: String,
    /// The directory that stages the archive and the guest's root.
    pub distro_dir: String,
    /// The host's path separator.
    pub separator: String,
}

/// The arguments that select the guest and run a program in it.
pub open spec fn guest_prefix(cfg: &Config) -> Seq<Seq<char>> {
    seq!["wsl"@, "-d"@, cfg.distro_name@, "-e"@]
}

/// `base` and `part` joined by `sep`.
pub open spec fn joined(base: Seq<char>, sep: Seq<char>, part: Seq<char>) -> Seq<char> {
    base + sep + part
}

/// Where the guest's root filesystem is instantiated.
pub open spec fn root_path(cfg: &Config) -> Seq<char> {
    joined(cfg.distro_dir@, cfg.separator@, "root"@)
}

/// Where the downloaded root filesystem archive is kept.
pub open spec fn archive_path(cfg: &Config) -> Seq<char> {
    joined(cfg.distro_dir@, cfg.separator@, "rootfs.tar.gz"@)
}

/// The staging directory of the guest `name` under the home directory `home`.
pub open spec fn distro_dir_of(home: Seq<char>, sep: Seq<char>, name: Seq<char>) -> Seq<char> {
    joined(joined(home, sep, "wsl-distros"@), sep, name)
}

/// `base` and `part` joined by the separator `sep`.
pub fn join_path(base: &str, sep: &str, part: &str) -> (r: String)
    ensures
        r@ == joined(base@, sep@, part@),
{
    let mut r = String::from_str(base);
    r.append(sep);
    r.append(part);
    r
}

/// The staging directory of the guest `name`: `wsl-distros/<name>` under `home`.
pub fn distro_dir_path(home: &str, sep: &str, name: &str) -> (r: String)
    ensures
        r@ == distro_dir_of(home@, sep@, name@),
{
    let parent = join_path(home, sep, "wsl-distros");
    join_path(parent.as_str(), sep, name)
}

/// Relies on dirs::home_dir: the current user's home directory, when the
/// platform can tell it. What it returns depends on the environment.
#[verifier::external_body]
fn home_dir() -> (r: Option<String>) {
    match dirs::home_dir() {
        Some(p) => Some(p.to_string_lossy().into_owned()),
        None => None,
    }
}

/// The name the guest instance is registered under.
pub fn default_distro_name() -> (r: String)
    ensures
        r@ == "custom-docker-host"@,
{
    String::from_str("custom-docker-host")
}

/// The root filesystem image the guest is created from.
pub fn default_rootfs_url() -> (r: String)
    ensures
        r@
            == "https://cloud-images.ubuntu.com/wsl/jammy/current/ubuntu-jammy-wsl-amd64-wsl.rootfs.tar.gz"@,
{
    String::from_str(
        "https://cloud-images.ubuntu.com/wsl/jammy/current/ubuntu-jammy-wsl-amd64-wsl.rootfs.tar.gz",
    )
}

impl Config {
    /// The standard guest, staged under the home directory `home`.
    pub fn new(home: &str, sep: &str) -> (r: Config)
        ensures
            r.distro_name@ == "custom-docker-host"@,
            r.rootfs_url@
                == "https://cloud-images.ubuntu.com/wsl/jammy/current/ubuntu-jammy-wsl-amd64-wsl.rootfs.tar.gz"@,
            r.distro_dir@ == distro_dir_of(home@, sep@, "custom-docker-host"@),
            r.separator@ == sep@,
    {
        let distro_name = default_distro_name();
        let distro_dir = distro_dir_path(home, sep, distro_name.as_str());
        Config {
            distro_name,
            rootfs_url: default_rootfs_url(),
            distro_dir,
            separator: String::from_str(sep),
        }
    }

    /// The standard guest under the current user's home directory; `None` when
    /// the platform cannot tell that directory.
    pub fn from_home(sep: &str) -> (r: Option<Config>)
        ensures
            r matches Some(c) ==> {
                &&& c.distro_name@ == "custom-docker-host"@
                &&& c.rootfs_url@
                    == "https://cloud-images.ubuntu.com/wsl/jammy/current/ubuntu-jammy-wsl-amd64-wsl.rootfs.tar.gz"@
                &&& c.separator@ == sep@
                &&& exists|home: Seq<char>|
                    c.distro_dir@ == #[trigger] distro_dir_of(home, sep@, "custom-docker-host"@)
            },
    {
        match home_dir() {
            Some(h) => Some(Config::new(h.as_str(), sep)),
            None => None,
        }
    }
}

/// Strings with the texts of `parts`, in order.
pub fn to_strings(parts: &[&str]) -> (r: Vec<String>)
    ensures
        texts(r@) == parts@.map_values(|p: &str| p@),
{
    let mut r: Vec<String> = Vec::new();
    let mut i: usize = 0;
    while i < parts.len()
        invariant
            i <= parts@.len(),
            r@.len() == i,
            forall|j: int| 0 <= j < i ==> #[trigger] r@[j]@ == parts@[j]@,
        decreases parts@.len() - i,
    {
        r.push(String::from_str(parts[i]));
        i = i + 1;
    }
    assert(texts(r@) =~= parts@.map_values(|p: &str| p@));
    r
}

/// Copies of `args`, in order.
pub fn clone_strings(args: &Vec<String>) -> (r: Vec<String>)
    ensures
        texts(r@) == texts(args@),
{
    let mut r: Vec<String> = Vec::new();
    let mut i: usize = 0;
    while i < args.len()
        invariant
            i <= args@.len(),
            r@.len() == i,
            forall|j: int| 0 <= j < i ==> #[trigger] r@[j]@ == args@[j]@,
        decreases args@.len() - i,
    {
        r.push(String::from_str(args[i].as_str()));
        i = i + 1;
    }
    assert(texts(r@) =~= texts(args@));
    r
}

/// `prefix` followed by `args`.
pub fn prefixed(prefix: Vec<String>, args: &Vec<String>) -> (r: Vec<String>)
    ensures
        texts(r@) == texts(prefix@) + texts(args@),
{
    let mut r = prefix;
    let mut rest = clone_strings(args);
    proof {
        assert(texts(r@) + texts(rest@) =~= texts(r@ + rest@));
    }
    r.append(&mut rest);
    r
}

/// A command that runs `args` inside the guest, with output discarded when `silent`,
/// inherited otherwise.
pub fn run_in_wsl(cfg: &Config, args: &Vec<String>, silent: bool) -> (r: Command)
    ensures
        r@.0 == guest_prefix(cfg) + texts(args@),
        r@.1 == (if silent { IoMode::Silent } else { IoMode::Inherit }),
{
    let prefix = guest_prefix_strings(cfg);
    let argv = prefixed(prefix, args);
    Command { argv, mode: if silent { IoMode::Silent } else { IoMode::Inherit } }
}

/// A command that runs `args` inside the guest and captures its standard output.
pub fn output_in_wsl(cfg: &Config, args: &Vec<String>) -> (r: Command)
    ensures
        r@.0 == guest_prefix(cfg) + texts(args@),
        r@.1 == IoMode::Capture,
{
    let prefix = guest_prefix_strings(cfg);
    let argv = prefixed(prefix, args);
    Command { argv, mode: IoMode::Capture }
}

fn guest_prefix_strings(cfg: &Config) -> (r: Vec<String>)
    ensures
        texts(r@) == guest_prefix(cfg),
{
    let mut r: Vec<String> = Vec::new();
    r.push(String::from_str("wsl"));
    r.push(String::from_str("-d"));
    r.push(String::from_str(cfg.distro_name.as_str()));
    r.push(String::from_str("-e"));
    assert(texts(r@) =~= guest_prefix(cfg));
    r
}

} // verus!
