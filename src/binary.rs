use vstd::prelude::*;
use crate::supervisor::StartError;

verus! {

/// Processor architectures a backend binary is built for.
#[derive(Clone, Copy, Debug, PartialEq, Eq, Structural)]
pub enum Arch {
    Aarch64,
    X86_64,
}

/// Operating systems a backend binary is built for.
#[derive(Clone, Copy, Debug, PartialEq, Eq, Structural)]
pub enum TargetOs {
    MacOs,
    Windows,
}

/// Directories the host knows the location of.
#[derive(Clone, Copy, Debug, PartialEq, Eq, Structural)]
pub enum BaseDir {
    /// The directory of the host's own executable.
    Executable,
    /// The directory of the host's bundled resources.
    Resources,
}

/// A place where the backend binary may stand: a path under a base directory.
pub struct Candidate {
    pub base: BaseDir,
    pub parts: Vec<String>,
}

pub open spec fn arch_text(arch: Arch) -> Seq<char> {
    match arch {
        Arch::Aarch64 => "aarch64"@,
        Arch::X86_64 => "x86_64"@,
    }
}

pub open spec fn os_suffix(os: TargetOs) -> Seq<char> {
    match os {
        TargetOs::MacOs => "-apple-darwin"@,
        TargetOs::Windows => "-pc-windows-msvc.exe"@,
    }
}

/// `backend-{arch}-{os triple}`, with `.exe` on Windows.
pub open spec fn binary_name(arch: Arch, os: TargetOs) -> Seq<char> {
    "backend-"@ + arch_text(arch) + os_suffix(os)
}

/// The places searched for the binary, in order: the executable's directory
/// under the plain name, then the resources' `binaries` directory and the
/// resources' root under the qualified name.
pub open spec fn candidates_model(name: Seq<char>) -> Seq<(BaseDir, Seq<Seq<char>>)> {
    seq![
        (BaseDir::Executable, seq!["backend"@]),
        (BaseDir::Resources, seq!["binaries"@, name]),
        (BaseDir::Resources, seq![name]),
    ]
}

pub open spec fn strings_view(v: Seq<String>) -> Seq<Seq<char>> {
    v.map_values(|s: String| s@)
}

pub open spec fn candidate_view(c: Candidate) -> (BaseDir, Seq<Seq<char>>) {
    (c.base, strings_view(c.parts@))
}

/// The index of the first `true` in `exists`, if any.
pub open spec fn first_true(exists: Seq<bool>) -> Option<int> {
    if exists.contains(true) {
        Some(choose|i: int| 0 <= i < exists.len() && exists[i] && forall|j: int| 0 <= j < i ==> !exists[j])
    } else {
        None
    }
}

/// The file name of the backend binary built for `arch` and `os`.
pub fn sidecar_binary_name(arch: Arch, os: TargetOs) -> (r: String)
    ensures
        r@ == binary_name(arch, os),
{
    let mut r = "backend-".to_owned();
    match arch {
        Arch::Aarch64 => r.append("aarch64"),
        Arch::X86_64 => r.append("x86_64"),
    }
    match os {
        TargetOs::MacOs => r.append("-apple-darwin"),
        TargetOs::Windows => r.append("-pc-windows-msvc.exe"),
    }
    r
}

/// The places to search for the binary named `name`, in order.
pub fn binary_candidates(name: &String) -> (r: Vec<Candidate>)
    ensures
        r@.map_values(|c: Candidate| candidate_view(c)) == candidates_model(name@),
{
    let r = vec![
        Candidate { base: BaseDir::Executable, parts: vec!["backend".to_owned()] },
        Candidate { base: BaseDir::Resources, parts: vec!["binaries".to_owned(), name.clone()] },
        Candidate { base: BaseDir::Resources, parts: vec![name.clone()] },
    ];
    assert(strings_view(r@[0].parts@) =~= seq!["backend"@]);
    assert(strings_view(r@[1].parts@) =~= seq!["binaries"@, name@]);
    assert(strings_view(r@[2].parts@) =~= seq![name@]);
    assert(r@.map_values(|c: Candidate| candidate_view(c)) =~= candidates_model(name@));
    r
}

/// Picks the first checked path that exists; when none does, the error
/// lists every checked path.
pub fn choose_binary(checked: Vec<String>, exists: &[bool]) -> (r: Result<String, StartError>)
    requires
        checked@.len() == exists@.len(),
    ensures
        match first_true(exists@) {
            Some(i) => r is Ok && r->Ok_0@ == checked@[i]@,
            None => r == Err::<String, StartError>(StartError::BinaryNotFound(checked)),
        },
{
    let mut i: usize = 0;
    while i < exists.len()
        invariant
            checked@.len() == exists@.len(),
            i <= exists@.len(),
            forall|j: int| 0 <= j < i ==> !exists@[j],
        decreases exists@.len() - i,
    {
        if exists[i] {
            let found = checked[i].clone();
            proof {
                assert(exists@.contains(true)) by {
                    assert(exists@[i as int]);
                }
                let k = first_true(exists@)->0;
                assert(k == i as int) by {
                    if k < i {
                    } else if k > i {
                    }
                }
            }
            return Ok(found);
        }
        i = i + 1;
    }
    assert(!exists@.contains(true));
    Err(StartError::BinaryNotFound(checked))
}

} // verus!
