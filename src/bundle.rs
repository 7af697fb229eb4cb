use vstd::prelude::*;

use crate::error::FruitError;
use crate::options::{install_path, opt_view, InstallDir};
use crate::paths::{is_under, join, join_path, lemma_join_under};
use crate::plist::info_text;
use crate::trampoline::{strings_view, Trampoline, TrampolineView};

verus! {

/// One step of writing a bundle to disk and launching it. The host performs
/// the steps in order and stops at the first that fails, except that a failed
/// `RemoveDirAll` is ignored.
#[derive(Debug, Clone, PartialEq, Eq)]
pub enum BundleStep {
    /// Remove this directory and everything in it, if it exists.
    RemoveDirAll(String),
    /// Create this directory and any missing parents.
    CreateDirAll(String),
    /// Copy file `from` to path `to`.
    Copy { from: String, to: String },
    /// Create (or truncate) file `path` and write `contents` to it.
    WriteFile { path: String, contents: String },
    /// Launch the bundle at this path as a new process.
    Launch(String),
}

/// A `BundleStep` as mathematical values.
pub enum StepView {
    RemoveDirAll(Seq<char>),
    CreateDirAll(Seq<char>),
    Copy { from: Seq<char>, to: Seq<char> },
    WriteFile { path: Seq<char>, contents: Seq<char> },
    Launch(Seq<char>),
}

impl View for BundleStep {
    type V = StepView;

    open spec fn view(&self) -> StepView {
        match self {
            BundleStep::RemoveDirAll(p) => StepView::RemoveDirAll(p@),
            BundleStep::CreateDirAll(p) => StepView::CreateDirAll(p@),
            BundleStep::Copy { from, to } => StepView::Copy { from: from@, to: to@ },
            BundleStep::WriteFile { path, contents } => StepView::WriteFile {
                path: path@,
                contents: contents@,
            },
            BundleStep::Launch(p) => StepView::Launch(p@),
        }
    }
}

/// The view of a list of steps.
pub open spec fn steps_view(v: Seq<BundleStep>) -> Seq<StepView> {
    v.map_values(|s: BundleStep| s@)
}

/// The path that a step creates or writes, if it writes anything.
pub open spec fn written_path(s: StepView) -> Option<Seq<char>> {
    match s {
        StepView::CreateDirAll(p) => Some(p),
        StepView::Copy { from, to } => Some(to),
        StepView::WriteFile { path, contents } => Some(path),
        _ => None,
    }
}

/// `<install>/<name>.app`
pub open spec fn bundle_dir(install: Seq<char>, name: Seq<char>) -> Seq<char> {
    join(install, name + ".app"@)
}

/// `<bundle>/Contents`
pub open spec fn contents_dir(bundle: Seq<char>) -> Seq<char> {
    join(bundle, "Contents"@)
}

/// `<bundle>/Contents/MacOS`
pub open spec fn macos_dir(bundle: Seq<char>) -> Seq<char> {
    join(contents_dir(bundle), "MacOS"@)
}

/// `<bundle>/Contents/Resources`
pub open spec fn resources_dir(bundle: Seq<char>) -> Seq<char> {
    join(contents_dir(bundle), "Resources"@)
}

/// `<bundle>/Contents/Info.plist`
pub open spec fn plist_path(bundle: Seq<char>) -> Seq<char> {
    join(contents_dir(bundle), "Info.plist"@)
}

/// The final component of a path, as `std::path::Path::file_name` gives it.
pub uninterp spec fn file_name_of(path: Seq<char>) -> Option<Seq<char>>;

/// Relies on `std::path::Path::file_name`: the final component of the path,
/// or nothing when the path ends in `..` or has no components. The input is a
/// `str`, so the component is valid UTF-8 and converts back.
#[verifier::external_body]
fn file_name(path: &str) -> (r: Option<String>)
    ensures
        match file_name_of(path@) {
            Some(n) => r is Some && r->Some_0@ == n,
            None => r is None,
        },
{
    match std::path::Path::new(path).file_name() {
        Some(n) => match n.to_str() {
            Some(s) => Some(s.to_owned()),
            None => None,
        },
        None => None,
    }
}

/// Copies of the resources that have a file name into `dir`, flattened to
/// that file name; resources without one are skipped.
pub open spec fn resource_copies(rs: Seq<Seq<char>>, dir: Seq<char>) -> Seq<StepView>
    decreases rs.len(),
{
    if rs.len() == 0 {
        Seq::empty()
    } else {
        let prev = resource_copies(rs.drop_last(), dir);
        match file_name_of(rs.last()) {
            Some(n) => prev.push(StepView::Copy { from: rs.last(), to: join(dir, n) }),
            None => prev,
        }
    }
}

/// The steps that install the bundle described by `t` into `install` from
/// the executable at `current_exe`, then launch it.
pub open spec fn bundle_steps(t: TrampolineView, install: Seq<char>, current_exe: Seq<char>) -> Seq<
    StepView,
> {
    let b = bundle_dir(install, t.name);
    seq![
        StepView::RemoveDirAll(b),
        StepView::CreateDirAll(macos_dir(b)),
        StepView::CreateDirAll(resources_dir(b)),
        StepView::Copy { from: current_exe, to: join(macos_dir(b), t.exe) },
    ] + resource_copies(t.resources, resources_dir(b)) + seq![
        StepView::WriteFile { path: plist_path(b), contents: info_text(t) },
        StepView::Launch(b),
    ]
}

/// Whether a main-bundle identifier shows that the process runs from a bundle.
pub open spec fn is_bundled_ident(ident: Option<Seq<char>>) -> bool {
    ident is Some && ident->Some_0.len() > 0
}

fn push_step(out: &mut Vec<BundleStep>, s: BundleStep)
    ensures
        steps_view(final(out)@) == steps_view(old(out)@).push(s@),
{
    let ghost v = s@;
    out.push(s);
    proof {
        assert(steps_view(out@) =~= steps_view(old(out)@).push(v));
    }
}

/// Each resource copy comes from a resource that has a file name and lands
/// in `dir` under that name; each such resource is copied.
proof fn lemma_resource_copies(rs: Seq<Seq<char>>, dir: Seq<char>)
    ensures
        forall|i: int|
            #![trigger resource_copies(rs, dir)[i]]
            0 <= i < resource_copies(rs, dir).len() ==> exists|j: int|
                0 <= j < rs.len() && #[trigger] file_name_of(rs[j]) is Some
                    && resource_copies(rs, dir)[i] == (StepView::Copy {
                    from: rs[j],
                    to: join(dir, file_name_of(rs[j])->Some_0),
                }),
        forall|j: int|
            0 <= j < rs.len() && #[trigger] file_name_of(rs[j]) is Some ==> resource_copies(
                rs,
                dir,
            ).contains(StepView::Copy { from: rs[j], to: join(dir, file_name_of(rs[j])->Some_0) }),
    decreases rs.len(),
{
    if rs.len() > 0 {
        let init = rs.drop_last();
        lemma_resource_copies(init, dir);
        let prev = resource_copies(init, dir);
        let cur = resource_copies(rs, dir);
        assert forall|i: int| #![trigger cur[i]] 0 <= i < cur.len() implies exists|j: int|
            0 <= j < rs.len() && #[trigger] file_name_of(rs[j]) is Some && cur[i] == (StepView::Copy {
                from: rs[j],
                to: join(dir, file_name_of(rs[j])->Some_0),
            }) by {
            if i < prev.len() {
                let j = choose|j: int|
                    0 <= j < init.len() && #[trigger] file_name_of(init[j]) is Some && prev[i] == (
                    StepView::Copy { from: init[j], to: join(dir, file_name_of(init[j])->Some_0) });
                assert(rs[j] == init[j]);
            } else {
                assert(rs[rs.len() - 1] == rs.last());
            }
        }
        assert forall|j: int| 0 <= j < rs.len() && #[trigger] file_name_of(rs[j]) is Some implies cur.contains(
            StepView::Copy { from: rs[j], to: join(dir, file_name_of(rs[j])->Some_0) },
        ) by {
            let c = StepView::Copy { from: rs[j], to: join(dir, file_name_of(rs[j])->Some_0) };
            if j < init.len() {
                assert(init[j] == rs[j]);
                assert(file_name_of(init[j]) is Some);
                let k = choose|k: int| 0 <= k < prev.len() && prev[k] == c;
                assert(cur[k] == c);
            } else {
                assert(cur[cur.len() - 1] == c);
            }
        }
    }
}

/// Installing creates exactly two directories, `Contents/MacOS` and
/// `Contents/Resources`; writes one file, `Contents/Info.plist`; and copies
/// the running executable into `Contents/MacOS` under the configured name,
/// the only copy made there. Every other copy goes into `Contents/Resources`.
pub proof fn lemma_bundle_layout(t: TrampolineView, install: Seq<char>, current_exe: Seq<char>)
    requires
        t.name.len() > 0,
        t.exe.len() > 0,
        t.ident.len() > 0,
    ensures
        bundle_steps(t, install, current_exe).contains(
            StepView::CreateDirAll(macos_dir(bundle_dir(install, t.name))),
        ),
        bundle_steps(t, install, current_exe).contains(
            StepView::CreateDirAll(resources_dir(bundle_dir(install, t.name))),
        ),
        bundle_steps(t, install, current_exe).contains(
            StepView::Copy {
                from: current_exe,
                to: join(macos_dir(bundle_dir(install, t.name)), t.exe),
            },
        ),
        bundle_steps(t, install, current_exe).contains(
            StepView::WriteFile {
                path: plist_path(bundle_dir(install, t.name)),
                contents: info_text(t),
            },
        ),
        forall|i: int|
            0 <= i < bundle_steps(t, install, current_exe).len() ==> match #[trigger] bundle_steps(
                t,
                install,
                current_exe,
            )[i] {
                StepView::CreateDirAll(p) => p == macos_dir(bundle_dir(install, t.name)) || p
                    == resources_dir(bundle_dir(install, t.name)),
                StepView::WriteFile { path, contents } => path == plist_path(
                    bundle_dir(install, t.name),
                ) && contents == info_text(t),
                StepView::Copy { from, to } => (from == current_exe && to == join(
                    macos_dir(bundle_dir(install, t.name)),
                    t.exe,
                )) || exists|n: Seq<char>| to == join(resources_dir(bundle_dir(install, t.name)), n),
                _ => true,
            },
{
    let b = bundle_dir(install, t.name);
    let s = bundle_steps(t, install, current_exe);
    let rc = resource_copies(t.resources, resources_dir(b));
    lemma_resource_copies(t.resources, resources_dir(b));
    assert(s[1] == StepView::CreateDirAll(macos_dir(b)));
    assert(s[2] == StepView::CreateDirAll(resources_dir(b)));
    assert(s[3] == (StepView::Copy { from: current_exe, to: join(macos_dir(b), t.exe) }));
    assert(s[4 + rc.len() as int] == (StepView::WriteFile { path: plist_path(b), contents: info_text(t) }));
    assert forall|i: int| 0 <= i < s.len() implies match #[trigger] s[i] {
        StepView::CreateDirAll(p) => p == macos_dir(b) || p == resources_dir(b),
        StepView::WriteFile { path, contents } => path == plist_path(b) && contents == info_text(t),
        StepView::Copy { from, to } => (from == current_exe && to == join(macos_dir(b), t.exe))
            || exists|n: Seq<char>| to == join(resources_dir(b), n),
        _ => true,
    } by {
        if 4 <= i < 4 + rc.len() {
            assert(s[i] == rc[i - 4]);
            let j = choose|j: int|
                0 <= j < t.resources.len() && #[trigger] file_name_of(t.resources[j]) is Some
                    && rc[i - 4] == (StepView::Copy {
                    from: t.resources[j],
                    to: join(resources_dir(b), file_name_of(t.resources[j])->Some_0),
                });
            let n = file_name_of(t.resources[j])->Some_0;
            assert(s[i] matches StepView::Copy { from, to } && to == join(resources_dir(b), n));
        }
    }
}

/// Installing again over an earlier install keeps nothing of it: the first
/// step removes the whole bundle directory, every later step writes only
/// inside that directory, and the resources copied are exactly those of the
/// current description that have a file name.
pub proof fn lemma_reinstall_leaves_no_residue(
    t: TrampolineView,
    install: Seq<char>,
    current_exe: Seq<char>,
)
    ensures
        bundle_steps(t, install, current_exe)[0] == StepView::RemoveDirAll(
            bundle_dir(install, t.name),
        ),
        forall|i: int|
            0 < i < bundle_steps(t, install, current_exe).len() && (#[trigger] written_path(
                bundle_steps(t, install, current_exe)[i],
            )) is Some ==> is_under(
                written_path(bundle_steps(t, install, current_exe)[i])->Some_0,
                bundle_dir(install, t.name),
            ),
        forall|i: int|
            4 <= i < bundle_steps(t, install, current_exe).len() && (#[trigger] bundle_steps(
                t,
                install,
                current_exe,
            )[i]) is Copy ==> exists|j: int|
                0 <= j < t.resources.len() && #[trigger] file_name_of(t.resources[j]) is Some
                    && bundle_steps(t, install, current_exe)[i] == (StepView::Copy {
                    from: t.resources[j],
                    to: join(resources_dir(bundle_dir(install, t.name)), file_name_of(t.resources[j])->Some_0),
                }),
        forall|j: int|
            0 <= j < t.resources.len() && #[trigger] file_name_of(t.resources[j]) is Some
                ==> bundle_steps(t, install, current_exe).contains(
                StepView::Copy {
                    from: t.resources[j],
                    to: join(resources_dir(bundle_dir(install, t.name)), file_name_of(t.resources[j])->Some_0),
                },
            ),
{
    let b = bundle_dir(install, t.name);
    let s = bundle_steps(t, install, current_exe);
    let rd = resources_dir(b);
    let rc = resource_copies(t.resources, rd);
    lemma_resource_copies(t.resources, rd);
    lemma_join_under(b, "Contents"@, "MacOS"@);
    lemma_join_under(b, "Contents"@, "Resources"@);
    lemma_join_under(b, "Contents"@, "Info.plist"@);
    lemma_join_under(contents_dir(b), "MacOS"@, t.exe);
    lemma_join_under(b, "Contents"@, join("MacOS"@, t.exe));
    assert forall|i: int| 0 < i < s.len() && (#[trigger] written_path(s[i])) is Some implies is_under(
        written_path(s[i])->Some_0,
        b,
    ) by {
        if 4 <= i < 4 + rc.len() {
            assert(s[i] == rc[i - 4]);
            let j = choose|j: int|
                0 <= j < t.resources.len() && #[trigger] file_name_of(t.resources[j]) is Some
                    && rc[i - 4] == (StepView::Copy {
                    from: t.resources[j],
                    to: join(rd, file_name_of(t.resources[j])->Some_0),
                });
            let n = file_name_of(t.resources[j])->Some_0;
            lemma_join_under(contents_dir(b), "Resources"@, n);
            lemma_join_under(b, "Contents"@, join("Resources"@, n));
        }
    }
    assert forall|i: int| 4 <= i < s.len() && (#[trigger] s[i]) is Copy implies exists|j: int|
        0 <= j < t.resources.len() && #[trigger] file_name_of(t.resources[j]) is Some && s[i] == (
        StepView::Copy { from: t.resources[j], to: join(rd, file_name_of(t.resources[j])->Some_0) }) by {
        assert(i < 4 + rc.len());
        assert(s[i] == rc[i - 4]);
    }
    assert forall|j: int| 0 <= j < t.resources.len() && #[trigger] file_name_of(t.resources[j]) is Some
        implies s.contains(
        StepView::Copy { from: t.resources[j], to: join(rd, file_name_of(t.resources[j])->Some_0) },
    ) by {
        let c = StepView::Copy { from: t.resources[j], to: join(rd, file_name_of(t.resources[j])->Some_0) };
        let k = choose|k: int| 0 <= k < rc.len() && rc[k] == c;
        assert(s[4 + k] == c);
    }
}

impl Trampoline {
    /// Whether the process runs from a bundle, given the identifier of its
    /// main bundle as the host reports it: it does when there is a non-empty
    /// identifier.
    pub fn is_bundled(bundle_ident: Option<&str>) -> (r: bool)
        ensures
            r == is_bundled_ident(opt_view(bundle_ident)),
    {
        match bundle_ident {
            Some(s) => !s.is_empty(),
            None => false,
        }
    }

    /// The steps that install this bundle into directory `install_dir`,
    /// copying the executable found at `current_exe`, and then launch it:
    /// clear the old bundle, create `Contents/MacOS` and `Contents/Resources`,
    /// copy the executable and each resource, write `Info.plist`, launch.
    pub fn bundle_plan(&self, install_dir: &str, current_exe: &str) -> (r: Vec<BundleStep>)
        ensures
            steps_view(r@) == bundle_steps(self@, install_dir@, current_exe@),
    {
        let mut app_name = self.name_ref().clone();
        app_name.append(".app");
        let bundle = join_path(install_dir, app_name.as_str());
        let contents = join_path(bundle.as_str(), "Contents");
        let macos = join_path(contents.as_str(), "MacOS");
        let resources = join_path(contents.as_str(), "Resources");
        let plist = join_path(contents.as_str(), "Info.plist");
        let exe_dst = join_path(macos.as_str(), self.exe_ref().as_str());
        let mut out: Vec<BundleStep> = Vec::new();
        push_step(&mut out, BundleStep::RemoveDirAll(bundle.clone()));
        push_step(&mut out, BundleStep::CreateDirAll(macos));
        push_step(&mut out, BundleStep::CreateDirAll(resources.clone()));
        push_step(&mut out, BundleStep::Copy { from: current_exe.to_owned(), to: exe_dst });
        let ghost head = steps_view(out@);
        let files = self.resources_ref();
        let ghost rs = strings_view(files@);
        let mut i: usize = 0;
        while i < files.len()
            invariant
                0 <= i <= files.len(),
                rs == strings_view(files@),
                rs == self@.resources,
                resources@ == resources_dir(bundle_dir(install_dir@, self@.name)),
                steps_view(out@) == head + resource_copies(rs.subrange(0, i as int), resources@),
            decreases files.len() - i,
        {
            let ghost prev = steps_view(out@);
            proof {
                assert(rs.subrange(0, i + 1).drop_last() =~= rs.subrange(0, i as int));
                assert(rs.subrange(0, i + 1).last() == rs[i as int]);
            }
            match file_name(files[i].as_str()) {
                Some(n) => {
                    let to = join_path(resources.as_str(), n.as_str());
                    push_step(&mut out, BundleStep::Copy { from: files[i].clone(), to });
                    proof {
                        assert(head + resource_copies(rs.subrange(0, i + 1), resources@) =~= prev.push(
                            StepView::Copy { from: rs[i as int], to: to@ },
                        ));
                    }
                },
                None => {},
            }
            i = i + 1;
        }
        proof {
            assert(rs.subrange(0, i as int) =~= rs);
        }
        push_step(&mut out, BundleStep::WriteFile { path: plist, contents: self.info_plist() });
        push_step(&mut out, BundleStep::Launch(bundle));
        proof {
            assert(steps_view(out@) =~= bundle_steps(self@, install_dir@, current_exe@));
        }
        out
    }

    /// Decides what the trampoline does. `bundle_ident` is the identifier of
    /// the process's main bundle as the host reports it; `temp_dir` and
    /// `home_dir` resolve `dir`, whose custom path the caller has already
    /// made canonical; `current_exe` is the path of the running executable.
    ///
    /// Already bundled: `Ok(None)`, and the program goes on. Otherwise
    /// `Ok(Some(steps))`: the host performs the steps, which end by launching
    /// the new bundle, and then exits with status 0. An install directory that
    /// cannot be resolved is a general error.
    pub fn self_bundle(
        &self,
        bundle_ident: Option<&str>,
        dir: &InstallDir,
        temp_dir: &str,
        home_dir: Option<&str>,
        current_exe: &str,
    ) -> (r: Result<Option<Vec<BundleStep>>, FruitError>)
        ensures
            is_bundled_ident(opt_view(bundle_ident)) ==> r is Ok && r->Ok_0 is None,
            !is_bundled_ident(opt_view(bundle_ident)) ==> match install_path(
                *dir,
                temp_dir@,
                opt_view(home_dir),
            ) {
                Some(p) => r is Ok && r->Ok_0 is Some && steps_view(r->Ok_0->Some_0@)
                    == bundle_steps(self@, p, current_exe@),
                None => r is Err && r->Err_0 is GeneralError,
            },
    {
        if Self::is_bundled(bundle_ident) {
            return Ok(None);
        }
        match dir.resolve(temp_dir, home_dir) {
            Ok(install) => Ok(Some(self.bundle_plan(install.as_str(), current_exe))),
            Err(e) => Err(e),
        }
    }
}

} // verus!
