//! Per-installation state: the directories derived from the target
//! directory, the resolved interpreter version and platform tag, and the
//! file locations the phases read and write.

use vstd::prelude::*;

use crate::config::{python_tag, python_version_for_major};
use crate::error::ProvisionError;
use crate::requirements::{requirements_filename, spec_requirements_filename};
use crate::text::{ends_with_char, str_ends_with_char};

verus! {

/// `part` below the directory `base`, with one separator between them.
pub open spec fn spec_join(base: Seq<char>, part: Seq<char>) -> Seq<char> {
    if ends_with_char(base, '/') || ends_with_char(base, '\\') {
        base + part
    } else {
        base + seq!['/'] + part
    }
}

pub fn join_path(base: &str, part: &str) -> (r: String)
    ensures
        r@ == spec_join(base@, part@),
{
    let mut r = String::from_str(base);
    if !str_ends_with_char(base, '/') && !str_ends_with_char(base, '\\') {
        r.append("/");
        proof {
            reveal_strlit("/");
        }
    }
    r.append(part);
    r
}

/// The path made of `base` and the components of `parts`, in order.
pub open spec fn spec_join_all(base: Seq<char>, parts: Seq<Seq<char>>) -> Seq<char>
    decreases parts.len(),
{
    if parts.len() == 0 {
        base
    } else {
        spec_join(spec_join_all(base, parts.drop_last()), parts.last())
    }
}

fn join_all(base: &str, parts: &Vec<&str>) -> (r: String)
    ensures
        r@ == spec_join_all(base@, parts@.map_values(|p: &str| p@)),
{
    let ghost views = parts@.map_values(|p: &str| p@);
    let mut r = String::from_str(base);
    let mut i: usize = 0;
    while i < parts.len()
        invariant
            i <= parts.len(),
            views == parts@.map_values(|p: &str| p@),
            r@ == spec_join_all(base@, views.take(i as int)),
        decreases parts.len() - i,
    {
        assert(views.take(i + 1).drop_last() =~= views.take(i as int));
        r = join_path(r.as_str(), parts[i]);
        i = i + 1;
    }
    assert(views.take(parts.len() as int) =~= views);
    r
}

/// Mutable run state of one installation.
pub struct Installer {
    target_dir: String,
    venv_dir: String,
    cached_packages_dir: String,
    data_dir: String,
    python_version: String,
    platform_tag: Option<String>,
}

/// The virtual environment's directory below the target directory.
pub open spec fn venv_dir_of(target: Seq<char>) -> Seq<char> {
    spec_join(target, "venv"@)
}

/// The package cache's directory below the target directory.
pub open spec fn cache_dir_of(target: Seq<char>) -> Seq<char> {
    spec_join(target, "packages"@)
}

/// The installer-data directory, holding the pinned requirement lists.
pub open spec fn data_dir_of(target: Seq<char>) -> Seq<char> {
    spec_join(target, "tgba"@)
}

impl Installer {
    pub closed spec fn spec_target_dir(&self) -> Seq<char> {
        self.target_dir@
    }

    pub closed spec fn spec_venv_dir(&self) -> Seq<char> {
        self.venv_dir@
    }

    pub closed spec fn spec_cache_dir(&self) -> Seq<char> {
        self.cached_packages_dir@
    }

    pub closed spec fn spec_data_dir(&self) -> Seq<char> {
        self.data_dir@
    }

    pub closed spec fn spec_python_version(&self) -> Seq<char> {
        self.python_version@
    }

    pub closed spec fn spec_platform_tag(&self) -> Option<Seq<char>> {
        match self.platform_tag {
            Some(t) => Some(t@),
            None => None,
        }
    }

    /// The directories all derive from the target directory.
    pub open spec fn wf(&self) -> bool {
        &&& self.spec_venv_dir() == venv_dir_of(self.spec_target_dir())
        &&& self.spec_cache_dir() == cache_dir_of(self.spec_target_dir())
        &&& self.spec_data_dir() == data_dir_of(self.spec_target_dir())
    }

    /// A new installation into `target_dir`, with no platform resolved yet.
    pub fn new(target_dir: &str) -> (r: Installer)
        ensures
            r.wf(),
            r.spec_target_dir() == target_dir@,
            r.spec_python_version() == Seq::<char>::empty(),
            r.spec_platform_tag() is None,
    {
        Installer {
            target_dir: String::from_str(target_dir),
            venv_dir: join_path(target_dir, "venv"),
            cached_packages_dir: join_path(target_dir, "packages"),
            data_dir: join_path(target_dir, "tgba"),
            python_version: String::new(),
            platform_tag: None,
        }
    }

    /// Records the platform: the interpreter version tag for the host's OS
    /// major version, and the platform tag.
    pub fn set_platform_info(&mut self, os_major: u32, platform_tag: &str)
        requires
            old(self).wf(),
        ensures
            final(self).wf(),
            final(self).spec_target_dir() == old(self).spec_target_dir(),
            final(self).spec_python_version() == python_tag(os_major),
            final(self).spec_platform_tag() == Some(platform_tag@),
    {
        self.python_version = python_version_for_major(os_major);
        self.platform_tag = Some(String::from_str(platform_tag));
    }

    pub fn target_dir(&self) -> (r: &str)
        ensures
            r@ == self.spec_target_dir(),
    {
        self.target_dir.as_str()
    }

    pub fn venv_dir(&self) -> (r: &str)
        ensures
            r@ == self.spec_venv_dir(),
    {
        self.venv_dir.as_str()
    }

    pub fn cached_packages_dir(&self) -> (r: &str)
        ensures
            r@ == self.spec_cache_dir(),
    {
        self.cached_packages_dir.as_str()
    }

    pub fn tgba_dir(&self) -> (r: &str)
        ensures
            r@ == self.spec_data_dir(),
    {
        self.data_dir.as_str()
    }

    pub fn python_version(&self) -> (r: &str)
        ensures
            r@ == self.spec_python_version(),
    {
        self.python_version.as_str()
    }

    /// The pinned requirements list for the resolved interpreter version and
    /// platform tag, in the installer-data directory; `None` before the
    /// platform is known.
    pub fn requirements_path(&self) -> (r: Option<String>)
        ensures
            match self.spec_platform_tag() {
                Some(tag) => r is Some && r->Some_0@ == spec_join(
                    self.spec_data_dir(),
                    spec_requirements_filename(self.spec_python_version(), tag),
                ),
                None => r is None,
            },
    {
        match &self.platform_tag {
            Some(tag) => {
                let name = requirements_filename(self.python_version.as_str(), tag.as_str());
                Some(join_path(self.data_dir.as_str(), name.as_str()))
            },
            None => None,
        }
    }

    /// The activation script whose prompt is patched.
    pub fn activate_script_path(&self) -> (r: String)
        ensures
            r@ == spec_join_all(self.spec_venv_dir(), seq!["Scripts"@, "activate.bat"@]),
    {
        let parts: Vec<&str> = vec!["Scripts", "activate.bat"];
        assert(parts@.map_values(|p: &str| p@) =~= seq!["Scripts"@, "activate.bat"@]);
        join_all(self.venv_dir.as_str(), &parts)
    }

    /// matplotlib's configuration file whose fonts are patched.
    pub fn matplotlibrc_path(&self) -> (r: String)
        ensures
            r@ == spec_join_all(
                self.spec_venv_dir(),
                seq!["Lib"@, "site-packages"@, "matplotlib"@, "mpl-data"@, "matplotlibrc"@],
            ),
    {
        let parts: Vec<&str> = vec!["Lib", "site-packages", "matplotlib", "mpl-data", "matplotlibrc"];
        assert(parts@.map_values(|p: &str| p@) =~= seq![
            "Lib"@,
            "site-packages"@,
            "matplotlib"@,
            "mpl-data"@,
            "matplotlibrc"@,
        ]);
        join_all(self.venv_dir.as_str(), &parts)
    }

    /// The JupyterLab configuration directory.
    pub fn labconfig_dir(&self) -> (r: String)
        ensures
            r@ == spec_join_all(self.spec_venv_dir(), seq!["etc"@, "jupyter"@, "labconfig"@]),
    {
        let parts: Vec<&str> = vec!["etc", "jupyter", "labconfig"];
        assert(parts@.map_values(|p: &str| p@) =~= seq!["etc"@, "jupyter"@, "labconfig"@]);
        join_all(self.venv_dir.as_str(), &parts)
    }

    /// The JupyterLab page configuration file.
    pub fn labconfig_path(&self) -> (r: String)
        ensures
            r@ == spec_join(
                spec_join_all(self.spec_venv_dir(), seq!["etc"@, "jupyter"@, "labconfig"@]),
                "page_config.json"@,
            ),
    {
        let dir = self.labconfig_dir();
        join_path(dir.as_str(), "page_config.json")
    }

    /// The environment's interpreter.
    pub fn venv_python_path(&self) -> (r: String)
        ensures
            r@ == spec_join_all(self.spec_venv_dir(), seq!["Scripts"@, "python.exe"@]),
    {
        let parts: Vec<&str> = vec!["Scripts", "python.exe"];
        assert(parts@.map_values(|p: &str| p@) =~= seq!["Scripts"@, "python.exe"@]);
        join_all(self.venv_dir.as_str(), &parts)
    }

    /// The package manager's arguments to fetch one requirement's artifact,
    /// without its dependencies, from the index at `index_url` into the
    /// package cache.
    pub fn download_args(&self, requirement: &str, index_url: &str) -> (r: Vec<String>)
        ensures
            r.deep_view() == seq![
                "-m"@,
                "pip"@,
                "download"@,
                "--no-deps"@,
                "--dest"@,
                self.spec_cache_dir(),
                "--index-url"@,
                index_url@,
                requirement@,
            ],
    {
        let mut r: Vec<String> = Vec::new();
        r.push(String::from_str("-m"));
        r.push(String::from_str("pip"));
        r.push(String::from_str("download"));
        r.push(String::from_str("--no-deps"));
        r.push(String::from_str("--dest"));
        r.push(self.cached_packages_dir.clone());
        r.push(String::from_str("--index-url"));
        r.push(String::from_str(index_url));
        r.push(String::from_str(requirement));
        assert(r.deep_view() =~= seq![
            "-m"@,
            "pip"@,
            "download"@,
            "--no-deps"@,
            "--dest"@,
            self.spec_cache_dir(),
            "--index-url"@,
            index_url@,
            requirement@,
        ]);
        r
    }

    /// The package manager's arguments for an offline install: no index, the
    /// cache directory as the only source of files, and the requirements
    /// file as the manifest.
    pub fn offline_install_args(&self, requirements_path: &str) -> (r: Vec<String>)
        ensures
            r.deep_view() == seq![
                "-m"@,
                "pip"@,
                "install"@,
                "--no-index"@,
                "--find-links"@,
                self.spec_cache_dir(),
                "-r"@,
                requirements_path@,
            ],
    {
        let mut r: Vec<String> = Vec::new();
        r.push(String::from_str("-m"));
        r.push(String::from_str("pip"));
        r.push(String::from_str("install"));
        r.push(String::from_str("--no-index"));
        r.push(String::from_str("--find-links"));
        r.push(self.cached_packages_dir.clone());
        r.push(String::from_str("-r"));
        r.push(String::from_str(requirements_path));
        assert(r.deep_view() =~= seq![
            "-m"@,
            "pip"@,
            "install"@,
            "--no-index"@,
            "--find-links"@,
            self.spec_cache_dir(),
            "-r"@,
            requirements_path@,
        ]);
        r
    }
}

/// The outcome of the offline install from the package manager's exit
/// status: success, or `Install` carrying both output streams verbatim.
pub fn offline_install_outcome(success: bool, stdout: String, stderr: String) -> (r: Result<(), ProvisionError>)
    ensures
        success ==> r is Ok,
        !success ==> (r matches Err(ProvisionError::Install { stdout: o, stderr: e }) && o@
            == stdout@ && e@ == stderr@),
{
    if success {
        Ok(())
    } else {
        Err(ProvisionError::Install { stdout, stderr })
    }
}

} // verus!
