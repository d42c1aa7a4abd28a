//! Saved settings of the command line tool, and how they meet the settings
//! of the current run.
use vstd::prelude::*;
use vstd::string::StrSliceExecFns;
use vstd::string::StringExecFns;

use super::console::{chars_of, contains, holds};

verus! {

/// Settings of a flash-and-run session.
pub struct BlriConfig {
    /// Target triple of the build.
    pub target: Option<String>,
    /// Whether the build is a release build.
    pub release: bool,
    /// Package to build.
    pub package: Option<String>,
    /// Path of the binary, made from target, package and release.
    pub binary_path: Option<String>,
    /// Serial port.
    pub port: Option<String>,
    /// Serial baud rate.
    pub baudrate: u32,
    /// Whether to reset the device after flashing.
    pub reset: bool,
    /// Whether to open a serial console after flashing.
    pub console: bool,
}

impl Default for BlriConfig {
    fn default() -> (r: Self)
        ensures
            r.target is None && r.package is None && r.binary_path is None && r.port is None,
            !r.release && !r.reset && !r.console,
            r.baudrate == 2000000,
    {
        Self {
            target: None,
            release: false,
            package: None,
            binary_path: None,
            port: None,
            baudrate: 2000000,
            reset: false,
            console: false,
        }
    }
}

/// A setting of the current run that differs from the saved one.
#[derive(Clone, Copy, Debug, PartialEq, Eq, Structural)]
pub enum ConfigField {
    Port,
    Baudrate,
    Target,
    Release,
    Package,
    Reset,
    Console,
}

/// Whether an optional saved text differs from a text of the current run.
pub open spec fn text_differs(saved: Option<String>, current: Seq<char>) -> bool {
    match saved {
        Some(s) => s@ != current,
        None => true,
    }
}

/// The settings of the current run that differ from the saved ones, in
/// the order port, baud rate, target, release, package, reset, console. A
/// target or package that the run does not give does not differ.
pub open spec fn conflicts_spec(
    saved: BlriConfig,
    port: Seq<char>,
    baudrate: u32,
    target: Option<Seq<char>>,
    release: bool,
    package: Option<Seq<char>>,
    reset: bool,
    console: bool,
) -> Seq<ConfigField> {
    let s0 = Seq::<ConfigField>::empty();
    let s1 = if text_differs(saved.port, port) { s0.push(ConfigField::Port) } else { s0 };
    let s2 = if saved.baudrate != baudrate { s1.push(ConfigField::Baudrate) } else { s1 };
    let s3 = match target {
        Some(t) => if text_differs(saved.target, t) { s2.push(ConfigField::Target) } else { s2 },
        None => s2,
    };
    let s4 = if saved.release != release { s3.push(ConfigField::Release) } else { s3 };
    let s5 = match package {
        Some(p) => if text_differs(saved.package, p) { s4.push(ConfigField::Package) } else { s4 },
        None => s4,
    };
    let s6 = if saved.reset != reset { s5.push(ConfigField::Reset) } else { s5 };
    if saved.console != console { s6.push(ConfigField::Console) } else { s6 }
}

/// The view of an optional text.
pub open spec fn opt_view(t: Option<String>) -> Option<Seq<char>> {
    match t {
        Some(s) => Some(s@),
        None => None,
    }
}

/// Whether an optional saved text differs from `current`.
fn differs(saved: &Option<String>, current: &String) -> (r: bool)
    ensures
        r == text_differs(*saved, current@),
{
    match saved {
        Some(s) => !(*s == *current),
        None => true,
    }
}

impl BlriConfig {
    /// Whether target, package and port are all set.
    pub fn is_complete(&self) -> (r: bool)
        ensures
            r == (self.target is Some && self.package is Some && self.port is Some),
    {
        self.target.is_some() && self.package.is_some() && self.port.is_some()
    }

    /// The settings of the current run that differ from the saved ones.
    pub fn configuration_conflicts(
        &self,
        port: &str,
        baudrate: u32,
        target: &Option<String>,
        release: bool,
        package: &Option<String>,
        reset: bool,
        console: bool,
    ) -> (r: Vec<ConfigField>)
        ensures
            r@ == conflicts_spec(*self, port@, baudrate, opt_view(*target), release, opt_view(*package), reset, console),
    {
        let mut conflicts: Vec<ConfigField> = Vec::new();
        let port_string = String::from_str(port);
        if differs(&self.port, &port_string) {
            conflicts.push(ConfigField::Port);
        }
        if self.baudrate != baudrate {
            conflicts.push(ConfigField::Baudrate);
        }
        if let Some(new_target) = target {
            if differs(&self.target, new_target) {
                conflicts.push(ConfigField::Target);
            }
        }
        if self.release != release {
            conflicts.push(ConfigField::Release);
        }
        if let Some(new_package) = package {
            if differs(&self.package, new_package) {
                conflicts.push(ConfigField::Package);
            }
        }
        if self.reset != reset {
            conflicts.push(ConfigField::Reset);
        }
        if self.console != console {
            conflicts.push(ConfigField::Console);
        }
        conflicts
    }

    /// Replaces the saved settings by those of the current run. The binary
    /// path is left as it was; it is made again when the settings are saved.
    pub fn update_from_run(
        &mut self,
        port: &str,
        baudrate: u32,
        target: Option<String>,
        release: bool,
        package: Option<String>,
        reset: bool,
        console: bool,
    )
        ensures
            final(self).port matches Some(p) && p@ == port@,
            final(self).baudrate == baudrate,
            final(self).target == target,
            final(self).release == release,
            final(self).package == package,
            final(self).reset == reset,
            final(self).console == console,
            final(self).binary_path == old(self).binary_path,
    {
        self.port = Some(String::from_str(port));
        self.baudrate = baudrate;
        self.target = target;
        self.release = release;
        self.package = package;
        self.reset = reset;
        self.console = console;
    }

    /// The port, baud rate, reset and console settings that a run uses:
    /// those of the run when `use_current`, else the saved ones, with the
    /// run's port when no port is saved.
    pub fn settings_for_run(&self, use_current: bool, port: &String, baudrate: u32, reset: bool, console: bool) -> (r: (
        String,
        u32,
        bool,
        bool,
    ))
        ensures
            r.0@ == (if use_current || self.port is None {
                port@
            } else {
                self.port.unwrap()@
            }),
            r.1 == (if use_current { baudrate } else { self.baudrate }),
            r.2 == (if use_current { reset } else { self.reset }),
            r.3 == (if use_current { console } else { self.console }),
    {
        if use_current {
            (port.clone(), baudrate, reset, console)
        } else {
            let chosen_port = match &self.port {
                Some(saved) => saved.clone(),
                None => port.clone(),
            };
            (chosen_port, self.baudrate, self.reset, self.console)
        }
    }
}

/// Which settings a run uses, once the conflicts are known: with no
/// conflict, those of the run, not to be saved yet; with conflicts, those
/// of the run and to be saved when the user chooses them
/// (`use_current`), else the saved ones. Returns (use the run's settings,
/// save them after the run).
pub fn conflict_outcome(has_conflicts: bool, use_current: bool) -> (r: (bool, bool))
    ensures
        !has_conflicts ==> r == (true, false),
        has_conflicts && use_current ==> r == (true, true),
        has_conflicts && !use_current ==> r == (false, false),
{
    if !has_conflicts {
        (true, false)
    } else if use_current {
        (true, true)
    } else {
        (false, false)
    }
}

/// Path of the binary of `package` built for `target`: under
/// `target/<target>/<release|debug>/`, relative to the workspace, or to
/// its `blri` directory when `in_blri_dir`.
pub fn binary_path_for(target: &str, release: bool, package: &str, in_blri_dir: bool) -> (r: String)
    ensures
        r@ == (if in_blri_dir { "../target/"@ } else { "target/"@ }) + target@ + "/"@ + (if release {
            "release"@
        } else {
            "debug"@
        }) + "/"@ + package@,
{
    let mut path = if in_blri_dir {
        String::from_str("../target/")
    } else {
        String::from_str("target/")
    };
    path.append(target);
    path.append("/");
    if release {
        path.append("release");
    } else {
        path.append("debug");
    }
    path.append("/");
    path.append(package);
    path
}

/// The characters of `target`, the directory under which cargo puts the
/// builds.
pub open spec fn target_dir_name() -> Seq<char> {
    seq!['t', 'a', 'r', 'g', 'e', 't']
}

/// The characters that name a bare-metal target triple.
pub open spec fn bare_metal_marker() -> Seq<char> {
    seq!['-', 'u', 'n', 'k', 'n', 'o', 'w', 'n', '-', 'n', 'o', 'n', 'e', '-', 'e', 'l', 'f']
}

/// The characters of `/release/`.
pub open spec fn release_dir_marker() -> Seq<char> {
    seq!['/', 'r', 'e', 'l', 'e', 'a', 's', 'e', '/']
}

/// Whether `a..b` is one of the parts of `p` between slashes.
pub open spec fn is_segment(p: Seq<char>, a: int, b: int) -> bool {
    &&& 0 <= a <= b <= p.len()
    &&& (a == 0 || p[a - 1] == '/')
    &&& (b == p.len() || p[b] == '/')
    &&& forall|k: int| a <= k < b ==> p[k] != '/'
}

/// Whether the part of `p` at `a..b` follows a part `target` and names a
/// bare-metal target triple.
pub open spec fn target_segment(p: Seq<char>, a: int, b: int) -> bool {
    &&& is_segment(p, a, b)
    &&& a >= 7
    &&& p.subrange(a - 7, a - 1) == target_dir_name()
    &&& (a == 7 || p[a - 8] == '/')
    &&& holds(p.subrange(a, b), bare_metal_marker())
}

/// Whether `p` ends a part at `e` that reads `target`.
pub open spec fn ends_target_part(p: Seq<char>, e: int) -> bool {
    e >= 6 && p.subrange(e - 6, e) == target_dir_name() && (e == 6 || p[e - 7] == '/')
}

/// The target triple in the path of a built binary: the last part that
/// follows a part `target` and holds `-unknown-none-elf`, or `None`.
pub fn build_target_in_path(path: &str) -> (r: Option<String>)
    ensures
        match r {
            None => forall|a: int, b: int| !#[trigger] target_segment(path@, a, b),
            Some(t) => exists|a: int, b: int|
                {
                    &&& #[trigger] target_segment(path@, a, b)
                    &&& t@ == path@.subrange(a, b)
                    &&& forall|a2: int, b2: int| #[trigger] target_segment(path@, a2, b2) ==> a2 <= a
                },
        },
{
    let cs = chars_of(path);
    let ghost p = path@;
    let n: usize = cs.len();
    let marker: [char; 17] = ['-', 'u', 'n', 'k', 'n', 'o', 'w', 'n', '-', 'n', 'o', 'n', 'e', '-', 'e', 'l', 'f'];
    assert(marker@ =~= bare_metal_marker());
    let mut best: Option<(usize, usize)> = None;
    let mut start: usize = 0;
    let mut prev_is_target: bool = false;
    loop
        invariant_except_break
            match best {
                None => forall|a: int, b: int| #[trigger] target_segment(p, a, b) ==> a >= start,
                Some((x, y)) => {
                    &&& target_segment(p, x as int, y as int)
                    &&& x < start
                    &&& forall|a: int, b: int| #[trigger] target_segment(p, a, b) && a < start ==> a <= x
                },
            },
        invariant
            cs@ == p,
            n == p.len(),
            marker@ == bare_metal_marker(),
            start <= n,
            start == 0 || p[start - 1] == '/',
            prev_is_target == (start > 0 && ends_target_part(p, start - 1)),
        ensures
            match best {
                None => forall|a: int, b: int| !#[trigger] target_segment(p, a, b),
                Some((x, y)) => {
                    &&& target_segment(p, x as int, y as int)
                    &&& forall|a: int, b: int| #[trigger] target_segment(p, a, b) ==> a <= x
                },
            },
        decreases n - start,
    {
        let mut j: usize = start;
        while j < n && cs[j] != '/'
            invariant
                cs@ == p,
                n == p.len(),
                start <= j <= n,
                forall|k: int| start <= k < j ==> p[k] != '/',
            decreases n - j,
        {
            j = j + 1;
        }
        assert(is_segment(p, start as int, j as int));
        // No part starts strictly inside this one.
        assert forall|a: int, b: int| #[trigger] is_segment(p, a, b) && start < a <= j implies false by {
            assert(p[a - 1] == '/');
        }
        let is_target_now: bool = prev_is_target && contains(&vstd::slice::slice_to_vec(&cs.as_slice()[start..j]), &marker);
        proof {
            assert(cs@.subrange(start as int, j as int) =~= p.subrange(start as int, j as int));
            if prev_is_target {
                assert(start >= 7);
            }
            assert(is_target_now == target_segment(p, start as int, j as int));
        }
        if is_target_now {
            best = Some((start, j));
        }
        let here_target: bool = j - start == 6 && cs[start] == 't' && cs[start + 1] == 'a' && cs[start + 2] == 'r'
            && cs[start + 3] == 'g' && cs[start + 4] == 'e' && cs[start + 5] == 't';
        proof {
            if here_target {
                assert(p.subrange(j - 6, j as int) =~= target_dir_name());
            }
            if ends_target_part(p, j as int) {
                assert(p.subrange(j - 6, j as int)[0] == 't');
                if j - 6 < start {
                    assert(p.subrange(j - 6, j as int)[start - 1 - (j - 6)] == p[start - 1]);
                }
                if j - 6 > start {
                    assert(p[j - 7] != '/');
                }
                assert(j - start == 6);
                assert(p.subrange(j - 6, j as int)[1] == 'a');
                assert(p.subrange(j - 6, j as int)[2] == 'r');
                assert(p.subrange(j - 6, j as int)[3] == 'g');
                assert(p.subrange(j - 6, j as int)[4] == 'e');
                assert(p.subrange(j - 6, j as int)[5] == 't');
            }
            assert(here_target == ends_target_part(p, j as int));
        }
        if j == n {
            assert forall|a: int, b: int| #[trigger] target_segment(p, a, b) implies a <= start && (best matches Some(
                (x, y),
            ) ==> a <= x) by {
                assert(is_segment(p, a, b));
            }
            break;
        }
        assert forall|a: int, b: int| #[trigger] target_segment(p, a, b) && a < j + 1 implies a <= start by {
            assert(is_segment(p, a, b));
        }
        start = j + 1;
        prev_is_target = here_target;
    }
    match best {
        None => None,
        Some((x, y)) => Some(path.substring_char(x, y).to_owned()),
    }
}

/// Whether the path of a built binary goes through a `release` directory
/// (it holds `/release/`).
pub fn release_in_path(path: &str) -> (r: bool)
    ensures
        r == holds(path@, release_dir_marker()),
{
    let cs = chars_of(path);
    let marker: [char; 9] = ['/', 'r', 'e', 'l', 'e', 'a', 's', 'e', '/'];
    assert(marker@ =~= release_dir_marker());
    contains(&cs, &marker)
}

} // verus!
