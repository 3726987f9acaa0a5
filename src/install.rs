use vstd::prelude::*;
use vstd::string::*;

use crate::cli::{parsed, Command, install_flag};
use crate::paths::{join_path, joined};
use crate::text::trimmed;

verus! {

/// The mirror repository that holds one branch per package.
pub const MIRROR_URL: &'static str = "https://github.com/archlinux/aur.git";

/// The program that fetches a package.
pub const FETCH_PROGRAM: &'static str = "git";

/// The program that builds and installs a fetched package.
pub const BUILD_PROGRAM: &'static str = "makepkg";

/// The argument of the build program: sync the dependencies and install.
pub const BUILD_FLAGS: &'static str = "-si";

/// The arguments of the fetch program for the package `name`: a shallow clone
/// of the one branch named `name` into a directory named `name`.
pub open spec fn fetch_args_of(name: Seq<char>) -> Seq<Seq<char>> {
    seq!["clone"@, "--branch"@, name, "--single-branch"@, MIRROR_URL@, name]
}

/// The fetch for the package `name`, written out as one command line.
pub open spec fn fetch_line_of(name: Seq<char>) -> Seq<char> {
    "git clone --branch "@ + name + " --single-branch "@ + MIRROR_URL@ + " "@ + name
}

/// The arguments that the fetch program is given for the package `name`.
pub fn fetch_args(name: &str) -> (r: Vec<String>)
    ensures
        r.deep_view() == fetch_args_of(name@),
{
    let r = vec![
        String::from_str("clone"),
        String::from_str("--branch"),
        String::from_str(name),
        String::from_str("--single-branch"),
        String::from_str(MIRROR_URL),
        String::from_str(name),
    ];
    assert(r.deep_view() =~= fetch_args_of(name@));
    r
}

/// The fetch for the package `name` as one line, for display.
pub fn fetch_command_line(name: &str) -> (r: String)
    ensures
        r@ == fetch_line_of(name@),
{
    let mut r = String::from_str("git clone --branch ");
    r.append(name);
    r.append(" --single-branch ");
    r.append(MIRROR_URL);
    r.append(" ");
    r.append(name);
    r
}

/// A step of the install flow. Each step but the last two is an action that
/// the caller performs and then reports on with `Install::advance`.
#[derive(Debug, Clone, Copy, PartialEq, Eq)]
pub enum InstallStep {
    /// Create the cache root with its missing ancestors; reports whether that
    /// succeeded.
    CreateRoot,
    /// Run the fetch program in the cache root; reports whether it could be
    /// started (its exit status is not looked at).
    Fetch,
    /// Warn that the fetch could not be started; reports nothing of use.
    ReportFetchFailure,
    /// Look for the package directory; reports whether it exists.
    CheckPackageDir,
    /// Run the build program in the package directory; reports whether it
    /// could be started and waited on.
    Build,
    /// The flow is over and succeeded.
    Finish,
    /// The flow is over and failed.
    Fail,
}

/// The step that follows `step` when the caller reports `ok`.
pub open spec fn install_next(step: InstallStep, ok: bool) -> InstallStep {
    match step {
        InstallStep::CreateRoot => if ok {
            InstallStep::Fetch
        } else {
            InstallStep::Fail
        },
        InstallStep::Fetch => if ok {
            InstallStep::CheckPackageDir
        } else {
            InstallStep::ReportFetchFailure
        },
        InstallStep::ReportFetchFailure => InstallStep::CheckPackageDir,
        InstallStep::CheckPackageDir => if ok {
            InstallStep::Build
        } else {
            InstallStep::Finish
        },
        InstallStep::Build => if ok {
            InstallStep::Finish
        } else {
            InstallStep::Fail
        },
        InstallStep::Finish => InstallStep::Finish,
        InstallStep::Fail => InstallStep::Fail,
    }
}

/// The steps that follow `step`, one for each report in `reports`.
pub open spec fn install_trace(step: InstallStep, reports: Seq<bool>) -> Seq<InstallStep>
    decreases reports.len(),
{
    if reports.len() == 0 {
        Seq::empty()
    } else {
        let s = install_next(step, reports[0]);
        seq![s] + install_trace(s, reports.drop_first())
    }
}

/// The step that follows `step` when the caller reports `ok`.
pub fn next_install_step(step: InstallStep, ok: bool) -> (r: InstallStep)
    ensures
        r == install_next(step, ok),
{
    match step {
        InstallStep::CreateRoot => if ok {
            InstallStep::Fetch
        } else {
            InstallStep::Fail
        },
        InstallStep::Fetch => if ok {
            InstallStep::CheckPackageDir
        } else {
            InstallStep::ReportFetchFailure
        },
        InstallStep::ReportFetchFailure => InstallStep::CheckPackageDir,
        InstallStep::CheckPackageDir => if ok {
            InstallStep::Build
        } else {
            InstallStep::Finish
        },
        InstallStep::Build => if ok {
            InstallStep::Finish
        } else {
            InstallStep::Fail
        },
        InstallStep::Finish => InstallStep::Finish,
        InstallStep::Fail => InstallStep::Fail,
    }
}

/// The install flow of one package.
pub struct Install {
    /// The cache root, where the fetch runs.
    pub root: String,
    /// The package name.
    pub package: String,
    /// The package directory, where the build runs.
    pub package_dir: String,
    /// The arguments of the fetch program.
    pub fetch_args: Vec<String>,
    /// The fetch as one line, for display.
    pub fetch_line: String,
    /// Where the flow stands.
    pub step: InstallStep,
}

impl Install {
    /// The directory and the arguments agree with the cache root and the
    /// package name.
    pub open spec fn wf(&self) -> bool {
        &&& self.package_dir@ == joined(self.root@, self.package@)
        &&& self.fetch_args.deep_view() == fetch_args_of(self.package@)
        &&& self.fetch_line@ == fetch_line_of(self.package@)
    }

    /// The flow for the package `package` under the cache root `root`, at its
    /// first step.
    pub fn new(root: &str, package: &str) -> (r: Install)
        ensures
            r.wf(),
            r.root@ == root@,
            r.package@ == package@,
            r.step == InstallStep::CreateRoot,
    {
        Install {
            root: String::from_str(root),
            package: String::from_str(package),
            package_dir: join_path(root, package),
            fetch_args: fetch_args(package),
            fetch_line: fetch_command_line(package),
            step: InstallStep::CreateRoot,
        }
    }

    /// Takes the report `ok` on the current step and moves to the next one.
    pub fn advance(&mut self, ok: bool)
        requires
            old(self).wf(),
        ensures
            final(self).wf(),
            final(self).root == old(self).root,
            final(self).package == old(self).package,
            final(self).package_dir == old(self).package_dir,
            final(self).fetch_args == old(self).fetch_args,
            final(self).fetch_line == old(self).fetch_line,
            final(self).step == install_next(old(self).step, ok),
    {
        self.step = next_install_step(self.step, ok);
    }

    /// Whether the flow is over.
    pub fn is_over(&self) -> (r: bool)
        ensures
            r == (self.step == InstallStep::Finish || self.step == InstallStep::Fail),
    {
        match self.step {
            InstallStep::Finish | InstallStep::Fail => true,
            _ => false,
        }
    }
}

/// Once over, the flow stays over with the same outcome and builds nothing.
pub proof fn lemma_install_end_is_final(step: InstallStep, reports: Seq<bool>)
    requires
        step == InstallStep::Finish || step == InstallStep::Fail,
    ensures
        install_trace(step, reports).len() == reports.len(),
        forall|i: int| 0 <= i < reports.len() ==> #[trigger] install_trace(step, reports)[i] == step,
    decreases reports.len(),
{
    if reports.len() > 0 {
        lemma_install_end_is_final(step, reports.drop_first());
        let rest = install_trace(step, reports.drop_first());
        let t = install_trace(step, reports);
        assert(t == seq![step] + rest);
        assert forall|i: int| 0 <= i < reports.len() implies #[trigger] t[i] == step by {
            if i > 0 {
                assert(t[i] == rest[i - 1]);
            }
        }
    }
}

/// The package name that an install command carries is the trimmed second
/// argument, and it is what both the fetch (the branch and the destination)
/// and the package directory are made of.
pub proof fn lemma_install_uses_trimmed_name(args: Seq<Seq<char>>, c: Command, root: Seq<char>)
    requires
        args.len() == 2,
        args[0] == install_flag(),
        parsed(args, c),
    ensures
        c is Install,
        c->Install_0@ == trimmed(args[1]),
        fetch_args_of(c->Install_0@)[2] == trimmed(args[1]),
        fetch_args_of(c->Install_0@)[5] == trimmed(args[1]),
        joined(root, c->Install_0@) == joined(root, trimmed(args[1])),
{
}

/// When no package directory is found after the fetch, whatever became of the
/// fetch, the flow ends in success and never builds.
pub proof fn lemma_missing_dir_ends_without_build(fetch_started: bool, reports: Seq<bool>)
    ensures
        ({
            let after_fetch = install_next(InstallStep::Fetch, fetch_started);
            let check = if fetch_started {
                after_fetch
            } else {
                install_next(after_fetch, true)
            };
            &&& check == InstallStep::CheckPackageDir
            &&& install_next(check, false) == InstallStep::Finish
            &&& forall|i: int|
                0 <= i < reports.len() ==> #[trigger] install_trace(
                    InstallStep::Finish,
                    reports,
                )[i] != InstallStep::Build
        }),
{
    lemma_install_end_is_final(InstallStep::Finish, reports);
}

/// When the package directory exists, the next step is the build, and it runs
/// in that directory, the package name under the cache root.
pub proof fn lemma_present_dir_builds_there(inst: Install)
    requires
        inst.wf(),
        inst.step == InstallStep::CheckPackageDir,
    ensures
        install_next(inst.step, true) == InstallStep::Build,
        inst.package_dir@ == joined(inst.root@, inst.package@),
{
}

} // verus!
