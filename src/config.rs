//! Static provisioning policy: pip version, interpreter distributions and
//! package-index mirrors.

use vstd::prelude::*;

use crate::error::ProvisionError;
use crate::requirements::{canonical_name, Requirement};
use crate::text::{ends_with_char, str_ends_with_char};

verus! {

/// A package index endpoint.
pub struct PyPIMirror {
    name: String,
    url: String,
}

/// The index URL of a package below a mirror base: the base, a path
/// separator unless the base already ends in one, the name, and a closing
/// separator.
pub open spec fn spec_package_url(base: Seq<char>, name: Seq<char>) -> Seq<char> {
    if ends_with_char(base, '/') {
        base + name + seq!['/']
    } else {
        base + seq!['/'] + name + seq!['/']
    }
}

/// Joining a package name below a base without a trailing separator gives
/// the same URL as below the same base with one: the separator is normalized
/// and never doubled.
pub proof fn lemma_package_url_slash_normalized(base: Seq<char>, name: Seq<char>)
    requires
        !ends_with_char(base, '/'),
    ensures
        spec_package_url(base, name) == spec_package_url(base.push('/'), name),
        spec_package_url(base, name) == base + seq!['/'] + name + seq!['/'],
{
    assert(base.push('/') =~= base + seq!['/']);
    assert(ends_with_char(base.push('/'), '/'));
}

impl PyPIMirror {
    /// The index page of a requirement on this mirror: the base URL joined
    /// with the requirement's canonical package name.
    pub fn requirement_url(&self, requirement: &Requirement) -> (r: String)
        ensures
            r@ == spec_package_url(self.spec_url(), canonical_name(requirement.spec_name())),
    {
        let name = requirement.canonical_name();
        self.package_url(name.as_str())
    }

    /// The mirror's display name.
    pub closed spec fn spec_name(&self) -> Seq<char> {
        self.name@
    }

    /// The mirror's base URL.
    pub closed spec fn spec_url(&self) -> Seq<char> {
        self.url@
    }

    pub fn new(name: &str, url: &str) -> (r: PyPIMirror)
        ensures
            r.spec_name() == name@,
            r.spec_url() == url@,
    {
        PyPIMirror { name: String::from_str(name), url: String::from_str(url) }
    }

    pub fn name(&self) -> (r: &str)
        ensures
            r@ == self.spec_name(),
    {
        self.name.as_str()
    }

    pub fn url(&self) -> (r: &str)
        ensures
            r@ == self.spec_url(),
    {
        self.url.as_str()
    }

    pub fn package_url(&self, name: &str) -> (r: String)
        ensures
            r@ == spec_package_url(self.spec_url(), name@),
    {
        let mut r = self.url.clone();
        if !str_ends_with_char(self.url.as_str(), '/') {
            r.append("/");
        }
        r.append(name);
        r.append("/");
        proof {
            reveal_strlit("/");
        }
        r
    }
}

/// A downloadable interpreter build.
pub struct CPythonDistSource {
    python_version: String,
    version: String,
    url: String,
    checksum: String,
}

impl CPythonDistSource {
    /// The interpreter version tag, such as `3.11`.
    pub closed spec fn spec_python_version(&self) -> Seq<char> {
        self.python_version@
    }

    /// The full semantic version.
    pub closed spec fn spec_version(&self) -> Seq<char> {
        self.version@
    }

    pub closed spec fn spec_url(&self) -> Seq<char> {
        self.url@
    }

    pub closed spec fn spec_checksum(&self) -> Seq<char> {
        self.checksum@
    }

    pub fn new(python_version: &str, version: &str, url: &str, checksum: &str) -> (r: CPythonDistSource)
        ensures
            r.spec_python_version() == python_version@,
            r.spec_version() == version@,
            r.spec_url() == url@,
            r.spec_checksum() == checksum@,
    {
        CPythonDistSource {
            python_version: String::from_str(python_version),
            version: String::from_str(version),
            url: String::from_str(url),
            checksum: String::from_str(checksum),
        }
    }

    pub fn python_version(&self) -> (r: &str)
        ensures
            r@ == self.spec_python_version(),
    {
        self.python_version.as_str()
    }

    pub fn cpython_version(&self) -> (r: &str)
        ensures
            r@ == self.spec_version(),
    {
        self.version.as_str()
    }

    pub fn url(&self) -> (r: &str)
        ensures
            r@ == self.spec_url(),
    {
        self.url.as_str()
    }

    pub fn checksum(&self) -> (r: &str)
        ensures
            r@ == self.spec_checksum(),
    {
        self.checksum.as_str()
    }
}

/// The interpreter version tag supported on a host OS major version: hosts
/// newer than major version 7 get `3.11`, the others `3.8`.
pub open spec fn python_tag(os_major: u32) -> Seq<char> {
    if os_major > 7 {
        "3.11"@
    } else {
        "3.8"@
    }
}

pub fn python_version_for_major(os_major: u32) -> (r: String)
    ensures
        r@ == python_tag(os_major),
{
    if os_major > 7 {
        String::from_str("3.11")
    } else {
        String::from_str("3.8")
    }
}

/// The index of the first source in `sources` for the version tag, if any.
pub open spec fn first_source_with(sources: Seq<CPythonDistSource>, tag: Seq<char>, i: int) -> bool {
    &&& 0 <= i < sources.len()
    &&& sources[i].spec_python_version() == tag
    &&& forall|j: int| 0 <= j < i ==> (#[trigger] sources[j]).spec_python_version() != tag
}

/// How many sources in `sources` carry the version tag.
pub open spec fn count_with_tag(sources: Seq<CPythonDistSource>, tag: Seq<char>) -> nat
    decreases sources.len(),
{
    if sources.len() == 0 {
        0
    } else {
        count_with_tag(sources.drop_last(), tag) + if sources.last().spec_python_version() == tag {
            1nat
        } else {
            0nat
        }
    }
}

/// Every supported interpreter version tag has exactly one source.
pub open spec fn one_source_per_tag(sources: Seq<CPythonDistSource>) -> bool {
    count_with_tag(sources, "3.11"@) == 1 && count_with_tag(sources, "3.8"@) == 1
}

fn count_sources(sources: &Vec<CPythonDistSource>, tag: &String) -> (r: usize)
    ensures
        r == count_with_tag(sources@, tag@),
{
    let mut count: usize = 0;
    let mut i: usize = 0;
    while i < sources.len()
        invariant
            i <= sources.len(),
            count == count_with_tag(sources@.take(i as int), tag@),
            count <= i,
        decreases sources.len() - i,
    {
        assert(sources@.take(i + 1).drop_last() =~= sources@.take(i as int));
        if sources[i].python_version == *tag {
            count = count + 1;
        }
        i = i + 1;
    }
    assert(sources@.take(sources.len() as int) =~= sources@);
    count
}

/// Static provisioning policy.
pub struct Config {
    pip_version: String,
    pypi: Vec<PyPIMirror>,
    cpython: Vec<CPythonDistSource>,
}

impl Config {
    pub closed spec fn spec_pip_version(&self) -> Seq<char> {
        self.pip_version@
    }

    /// The package-index mirrors, in the order they are tried.
    pub closed spec fn spec_mirrors(&self) -> Seq<PyPIMirror> {
        self.pypi@
    }

    /// The interpreter distributions, in configured order.
    pub closed spec fn spec_sources(&self) -> Seq<CPythonDistSource> {
        self.cpython@
    }

    pub fn new(pip_version: String, pypi: Vec<PyPIMirror>, cpython: Vec<CPythonDistSource>) -> (r: Config)
        ensures
            r.spec_pip_version() == pip_version@,
            r.spec_mirrors() == pypi@,
            r.spec_sources() == cpython@,
    {
        Config { pip_version, pypi, cpython }
    }

    /// Checks that each supported interpreter version tag has exactly one
    /// distribution source; otherwise a configuration error naming the
    /// first tag that does not.
    pub fn validate(&self) -> (r: Result<(), ProvisionError>)
        ensures
            r is Ok <==> one_source_per_tag(self.spec_sources()),
            r is Err ==> r->Err_0 is Config,
    {
        let n311 = count_sources(&self.cpython, &String::from_str("3.11"));
        if n311 != 1 {
            return Err(ProvisionError::Config(
                String::from_str("expected exactly one distribution for Python 3.11"),
            ));
        }
        let n38 = count_sources(&self.cpython, &String::from_str("3.8"));
        if n38 != 1 {
            return Err(ProvisionError::Config(
                String::from_str("expected exactly one distribution for Python 3.8"),
            ));
        }
        Ok(())
    }

    pub fn pip_version(&self) -> (r: &str)
        ensures
            r@ == self.spec_pip_version(),
    {
        self.pip_version.as_str()
    }

    /// The interpreter distribution for a host whose OS major version is
    /// `os_major`: the first configured source with the matching version
    /// tag, or `NotFound` with that tag when none has it.
    pub fn get_cpytion_source(&self, os_major: u32) -> (r: Result<&CPythonDistSource, ProvisionError>)
        ensures
            match r {
                Ok(dist) => exists|i: int|
                    first_source_with(self.spec_sources(), python_tag(os_major), i)
                        && self.spec_sources()[i] == *dist,
                Err(ProvisionError::NotFound(tag)) => {
                    &&& tag@ == python_tag(os_major)
                    &&& forall|i: int|
                        0 <= i < self.spec_sources().len() ==> (#[trigger] self.spec_sources()[i]).spec_python_version()
                            != python_tag(os_major)
                },
                Err(_) => false,
            },
    {
        let tag = python_version_for_major(os_major);
        let mut i: usize = 0;
        while i < self.cpython.len()
            invariant
                i <= self.cpython.len(),
                tag@ == python_tag(os_major),
                forall|j: int|
                    0 <= j < i ==> (#[trigger] self.cpython@[j]).spec_python_version() != tag@,
            decreases self.cpython.len() - i,
        {
            if self.cpython[i].python_version == tag {
                assert(first_source_with(self.spec_sources(), python_tag(os_major), i as int)
                    && self.spec_sources()[i as int] == self.cpython[i as int]);
                return Ok(&self.cpython[i]);
            }
            i = i + 1;
        }
        Err(ProvisionError::NotFound(tag))
    }

    pub fn get_cpython_sources(&self) -> (r: &[CPythonDistSource])
        ensures
            r@ == self.spec_sources(),
    {
        self.cpython.as_slice()
    }

    pub fn get_pypi_mirrors(&self) -> (r: &[PyPIMirror])
        ensures
            r@ == self.spec_mirrors(),
    {
        self.pypi.as_slice()
    }
}

} // verus!
