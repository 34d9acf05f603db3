//! Path and environment computation for the two external binaries. The
//! locator is pure: it computes every path from a base directory, the
//! platform, and the facts a caller probed from disk; searching the
//! disk itself is the caller's task.

use vstd::prelude::*;
use vstd::string::StringSliceAdditionalSpecFns;
use vstd::string::StrSliceExecFns;
use crate::text::append_all;

verus! {

/// The platforms the pipeline runs on.
#[derive(Clone, Copy, PartialEq, Eq, Structural, Debug)]
pub enum Platform {
    MacOSArm64,
    MacOSX64,
    WindowsX64,
    WindowsArm64,
}

impl Platform {
    pub open spec fn spec_suffix(self) -> Seq<char> {
        match self {
            Platform::MacOSArm64 => "macos-arm64"@,
            Platform::MacOSX64 => "macos-x64"@,
            Platform::WindowsX64 => "windows-x64"@,
            Platform::WindowsArm64 => "windows-arm64"@,
        }
    }

    pub open spec fn spec_suffix_bytes(self) -> Seq<u8> {
        match self {
            Platform::MacOSArm64 => "macos-arm64".spec_bytes(),
            Platform::MacOSX64 => "macos-x64".spec_bytes(),
            Platform::WindowsX64 => "windows-x64".spec_bytes(),
            Platform::WindowsArm64 => "windows-arm64".spec_bytes(),
        }
    }

    /// True on the Windows platforms.
    pub open spec fn spec_is_windows(self) -> bool {
        self == Platform::WindowsX64 || self == Platform::WindowsArm64
    }

    pub fn is_windows(&self) -> (r: bool)
        ensures
            r == self.spec_is_windows(),
    {
        matches!(self, Platform::WindowsX64 | Platform::WindowsArm64)
    }

    /// The platform's path separator byte.
    pub open spec fn spec_sep(self) -> u8 {
        if self.spec_is_windows() {
            92
        } else {
            47
        }
    }

    pub fn sep(&self) -> (r: u8)
        ensures
            r == self.spec_sep(),
    {
        if self.is_windows() {
            92
        } else {
            47
        }
    }

    /// The platform's search-path separator byte.
    pub open spec fn spec_list_sep(self) -> u8 {
        if self.spec_is_windows() {
            59
        } else {
            58
        }
    }

    pub fn list_sep(&self) -> (r: u8)
        ensures
            r == self.spec_list_sep(),
    {
        if self.is_windows() {
            59
        } else {
            58
        }
    }
}

/// Whether, and in which layout, a bundled interpreter was found on
/// disk; the caller probes and reports it.
#[derive(Clone, Copy, PartialEq, Eq, Structural, Debug)]
pub enum BundledInterpreter {
    /// A standalone interpreter directory.
    Standalone,
    /// A framework-layout interpreter.
    Framework,
    /// None bundled; the system interpreter serves.
    Absent,
}

/// `base` with `part` joined by the platform separator.
pub open spec fn spec_join(p: Platform, base: Seq<u8>, part: Seq<u8>) -> Seq<u8> {
    base + seq![p.spec_sep()] + part
}

/// Joins one path component onto `base` with the platform separator.
pub fn join_path(p: Platform, base: &[u8], part: &str) -> (r: Vec<u8>)
    ensures
        r@ == spec_join(p, base@, part.spec_bytes()),
{
    let mut out: Vec<u8> = Vec::new();
    append_all(&mut out, base);
    out.push(p.sep());
    append_all(&mut out, part.as_bytes());
    proof {
        assert(out@ =~= spec_join(p, base@, part.spec_bytes()));
    }
    out
}

/// Computes the paths and environment the two external binaries need,
/// from a base dependency directory, the platform, and the probed
/// interpreter layout.
#[derive(Debug)]
pub struct DependencyLocator {
    /// The dependency directory every path hangs under.
    pub base_path: Vec<u8>,
    /// The platform the paths are built for.
    pub platform: Platform,
    /// The interpreter layout probed on disk.
    pub bundled_interpreter: BundledInterpreter,
}

impl DependencyLocator {
    /// A locator over the given facts.
    pub fn new(base_path: Vec<u8>, platform: Platform, bundled_interpreter: BundledInterpreter) -> (r:
        Self)
        ensures
            r.base_path@ == base_path@,
            r.platform == platform,
            r.bundled_interpreter == bundled_interpreter,
    {
        DependencyLocator { base_path, platform, bundled_interpreter }
    }

    /// The platform's directory suffix.
    pub fn platform_suffix(&self) -> (r: &'static str)
        ensures
            r@ == self.platform.spec_suffix(),
    {
        match self.platform {
            Platform::MacOSArm64 => "macos-arm64",
            Platform::MacOSX64 => "macos-x64",
            Platform::WindowsX64 => "windows-x64",
            Platform::WindowsArm64 => "windows-arm64",
        }
    }

    /// The platform-specific dependency directory.
    pub open spec fn spec_platform_dir(self) -> Seq<u8> {
        spec_join(self.platform, self.base_path@, self.platform.spec_suffix_bytes())
    }

    /// The platform-specific dependency directory.
    pub fn platform_dir(&self) -> (r: Vec<u8>)
        ensures
            r@ == self.spec_platform_dir(),
    {
        let suffix = match self.platform {
            Platform::MacOSArm64 => "macos-arm64",
            Platform::MacOSX64 => "macos-x64",
            Platform::WindowsX64 => "windows-x64",
            Platform::WindowsArm64 => "windows-arm64",
        };
        join_path(self.platform, self.base_path.as_slice(), suffix)
    }

    /// The frame engine binary paths to try, in order; the system
    /// search path is the caller's last resort.
    pub open spec fn spec_vspipe_candidates(self) -> Seq<Seq<u8>> {
        let vs_dir = spec_join(self.platform, self.spec_platform_dir(), "vapoursynth".spec_bytes());
        if self.platform.spec_is_windows() {
            seq![
                spec_join(self.platform, vs_dir, "VSPipe.exe".spec_bytes()),
                spec_join(self.platform, vs_dir, "vspipe.exe".spec_bytes()),
            ]
        } else {
            seq![spec_join(self.platform, vs_dir, "vspipe".spec_bytes())]
        }
    }

    /// The frame engine binary paths to try, in order.
    pub fn vspipe_candidates(&self) -> (r: Vec<Vec<u8>>)
        ensures
            crate::pipeline_executor::views_of(r@) == self.spec_vspipe_candidates(),
    {
        let dir = self.platform_dir();
        let vs_dir = join_path(self.platform, dir.as_slice(), "vapoursynth");
        let mut out: Vec<Vec<u8>> = Vec::new();
        if self.platform.is_windows() {
            out.push(join_path(self.platform, vs_dir.as_slice(), "VSPipe.exe"));
            out.push(join_path(self.platform, vs_dir.as_slice(), "vspipe.exe"));
        } else {
            out.push(join_path(self.platform, vs_dir.as_slice(), "vspipe"));
        }
        proof {
            assert(crate::pipeline_executor::views_of(out@) =~= self.spec_vspipe_candidates());
        }
        out
    }

    /// The encoder binary's bundled path; the system search path is the
    /// caller's last resort.
    pub open spec fn spec_ffmpeg_candidate(self) -> Seq<u8> {
        let dir = spec_join(self.platform, self.spec_platform_dir(), "ffmpeg".spec_bytes());
        if self.platform.spec_is_windows() {
            spec_join(self.platform, dir, "ffmpeg.exe".spec_bytes())
        } else {
            spec_join(self.platform, dir, "ffmpeg".spec_bytes())
        }
    }

    /// The encoder binary's bundled path.
    pub fn ffmpeg_candidate(&self) -> (r: Vec<u8>)
        ensures
            r@ == self.spec_ffmpeg_candidate(),
    {
        let dir = self.platform_dir();
        let fdir = join_path(self.platform, dir.as_slice(), "ffmpeg");
        if self.platform.is_windows() {
            join_path(self.platform, fdir.as_slice(), "ffmpeg.exe")
        } else {
            join_path(self.platform, fdir.as_slice(), "ffmpeg")
        }
    }

    /// The interpreter's home directory: on Windows the scripting host
    /// directory; elsewhere the probed bundled interpreter, when one
    /// exists.
    pub open spec fn spec_python_home(self) -> Option<Seq<u8>> {
        if self.platform.spec_is_windows() {
            Some(spec_join(self.platform, self.spec_platform_dir(), "vapoursynth".spec_bytes()))
        } else {
            let python_dir = spec_join(self.platform, self.spec_platform_dir(), "python".spec_bytes());
            match self.bundled_interpreter {
                BundledInterpreter::Standalone => Some(python_dir),
                BundledInterpreter::Framework => Some(
                    spec_join(
                        self.platform,
                        spec_join(
                            self.platform,
                            spec_join(self.platform, python_dir, "Python.framework".spec_bytes()),
                            "Versions".spec_bytes(),
                        ),
                        "Current".spec_bytes(),
                    ),
                ),
                BundledInterpreter::Absent => None,
            }
        }
    }

    /// The interpreter's home directory, as `spec_python_home`
    /// describes.
    pub fn python_home(&self) -> (r: Option<Vec<u8>>)
        ensures
            match (r, self.spec_python_home()) {
                (Some(v), Some(s)) => v@ == s,
                (None, None) => true,
                _ => false,
            },
    {
        let dir = self.platform_dir();
        if self.platform.is_windows() {
            Some(join_path(self.platform, dir.as_slice(), "vapoursynth"))
        } else {
            let python_dir = join_path(self.platform, dir.as_slice(), "python");
            match self.bundled_interpreter {
                BundledInterpreter::Standalone => Some(python_dir),
                BundledInterpreter::Framework => {
                    let a = join_path(self.platform, python_dir.as_slice(), "Python.framework");
                    let b = join_path(self.platform, a.as_slice(), "Versions");
                    Some(join_path(self.platform, b.as_slice(), "Current"))
                },
                BundledInterpreter::Absent => None,
            }
        }
    }

    /// The interpreter's module search path: the bundled package
    /// directory, and the bundled interpreter's own package directories
    /// when one exists; on Windows the host's package directory alone.
    pub open spec fn spec_python_path(self) -> Seq<u8> {
        if self.platform.spec_is_windows() {
            spec_join(
                self.platform,
                spec_join(
                    self.platform,
                    spec_join(self.platform, self.spec_platform_dir(), "vapoursynth".spec_bytes()),
                    "Lib".spec_bytes(),
                ),
                "site-packages".spec_bytes(),
            )
        } else {
            let packages = spec_join(
                self.platform,
                self.spec_platform_dir(),
                "python-packages".spec_bytes(),
            );
            match self.spec_python_home() {
                Some(home) => {
                    let lib = spec_join(self.platform, home, "lib".spec_bytes());
                    packages + seq![self.platform.spec_list_sep()] + spec_join(
                        self.platform,
                        spec_join(self.platform, lib, "python3.12".spec_bytes()),
                        "site-packages".spec_bytes(),
                    ) + seq![self.platform.spec_list_sep()] + spec_join(
                        self.platform,
                        spec_join(self.platform, lib, "python3.14".spec_bytes()),
                        "site-packages".spec_bytes(),
                    ) + seq![self.platform.spec_list_sep()] + spec_join(
                        self.platform,
                        spec_join(self.platform, lib, "python3.11".spec_bytes()),
                        "site-packages".spec_bytes(),
                    )
                },
                None => packages,
            }
        }
    }

    /// The interpreter's module search path, as `spec_python_path`
    /// describes.
    pub fn python_path(&self) -> (r: Vec<u8>)
        ensures
            r@ == self.spec_python_path(),
    {
        let dir = self.platform_dir();
        if self.platform.is_windows() {
            let a = join_path(self.platform, dir.as_slice(), "vapoursynth");
            let b = join_path(self.platform, a.as_slice(), "Lib");
            join_path(self.platform, b.as_slice(), "site-packages")
        } else {
            let packages = join_path(self.platform, dir.as_slice(), "python-packages");
            match self.python_home() {
                Some(home) => {
                    let lib = join_path(self.platform, home.as_slice(), "lib");
                    let p12 = join_path(self.platform, lib.as_slice(), "python3.12");
                    let p14 = join_path(self.platform, lib.as_slice(), "python3.14");
                    let p11 = join_path(self.platform, lib.as_slice(), "python3.11");
                    let mut out = packages;
                    out.push(self.platform.list_sep());
                    let mut part = join_path(self.platform, p12.as_slice(), "site-packages");
                    out.append(&mut part);
                    out.push(self.platform.list_sep());
                    let mut part = join_path(self.platform, p14.as_slice(), "site-packages");
                    out.append(&mut part);
                    out.push(self.platform.list_sep());
                    let mut part = join_path(self.platform, p11.as_slice(), "site-packages");
                    out.append(&mut part);
                    proof {
                        assert(out@ =~= self.spec_python_path());
                    }
                    out
                },
                None => packages,
            }
        }
    }

    /// The plugin search directory of the frame engine.
    pub open spec fn spec_vapoursynth_plugin_path(self) -> Seq<u8> {
        let vs_dir = spec_join(self.platform, self.spec_platform_dir(), "vapoursynth".spec_bytes());
        if self.platform.spec_is_windows() {
            spec_join(self.platform, vs_dir, "vs-plugins".spec_bytes())
        } else {
            spec_join(self.platform, vs_dir, "plugins".spec_bytes())
        }
    }

    /// The plugin search directory of the frame engine.
    pub fn vapoursynth_plugin_path(&self) -> (r: Vec<u8>)
        ensures
            r@ == self.spec_vapoursynth_plugin_path(),
    {
        let dir = self.platform_dir();
        let vs_dir = join_path(self.platform, dir.as_slice(), "vapoursynth");
        if self.platform.is_windows() {
            join_path(self.platform, vs_dir.as_slice(), "vs-plugins")
        } else {
            join_path(self.platform, vs_dir.as_slice(), "plugins")
        }
    }

    /// The resource-weights file of the neural interpolator.
    pub open spec fn spec_nnedi3cl_weights_path(self) -> Seq<u8> {
        if self.platform.spec_is_windows() {
            spec_join(
                self.platform,
                self.spec_vapoursynth_plugin_path(),
                "nnedi3_weights.bin".spec_bytes(),
            )
        } else {
            spec_join(
                self.platform,
                spec_join(
                    self.platform,
                    spec_join(self.platform, self.spec_platform_dir(), "resources".spec_bytes()),
                    "NNEDI3CL".spec_bytes(),
                ),
                "nnedi3_weights.bin".spec_bytes(),
            )
        }
    }

    /// The resource-weights file of the neural interpolator.
    pub fn nnedi3cl_weights_path(&self) -> (r: Vec<u8>)
        ensures
            r@ == self.spec_nnedi3cl_weights_path(),
    {
        if self.platform.is_windows() {
            let p = self.vapoursynth_plugin_path();
            join_path(self.platform, p.as_slice(), "nnedi3_weights.bin")
        } else {
            let dir = self.platform_dir();
            let a = join_path(self.platform, dir.as_slice(), "resources");
            let b = join_path(self.platform, a.as_slice(), "NNEDI3CL");
            join_path(self.platform, b.as_slice(), "nnedi3_weights.bin")
        }
    }

    /// The binary directories for the executable search path: the
    /// encoder's and the frame engine's, and the bundled interpreter's
    /// when one exists.
    pub open spec fn spec_bin_path(self) -> Seq<u8> {
        let base = spec_join(self.platform, self.spec_platform_dir(), "ffmpeg".spec_bytes()) + seq![
            self.platform.spec_list_sep(),
        ] + spec_join(self.platform, self.spec_platform_dir(), "vapoursynth".spec_bytes());
        if self.platform.spec_is_windows() {
            base
        } else {
            match self.spec_python_home() {
                Some(home) => base + seq![self.platform.spec_list_sep()] + spec_join(
                    self.platform,
                    home,
                    "bin".spec_bytes(),
                ),
                None => base,
            }
        }
    }

    /// The binary directories for the executable search path.
    pub fn bin_path(&self) -> (r: Vec<u8>)
        ensures
            r@ == self.spec_bin_path(),
    {
        let dir = self.platform_dir();
        let mut out = join_path(self.platform, dir.as_slice(), "ffmpeg");
        out.push(self.platform.list_sep());
        let mut vs = join_path(self.platform, dir.as_slice(), "vapoursynth");
        out.append(&mut vs);
        if !self.platform.is_windows() {
            match self.python_home() {
                Some(home) => {
                    out.push(self.platform.list_sep());
                    let mut bin = join_path(self.platform, home.as_slice(), "bin");
                    out.append(&mut bin);
                },
                None => {},
            }
        }
        proof {
            assert(out@ =~= self.spec_bin_path());
        }
        out
    }

    /// The environment the two binaries run under: the interpreter
    /// variables, the plugin and weights paths, and the executable
    /// search path with the bundled directories first. On the
    /// non-Windows platforms the library search path comes last, with
    /// any existing value appended.
    pub open spec fn spec_environment(
        self,
        existing_path: Seq<u8>,
        existing_dyld: Seq<u8>,
    ) -> Seq<(Seq<u8>, Seq<u8>)> {
        let base = seq![
            ("PYTHONNOUSERSITE".spec_bytes(), "1".spec_bytes()),
        ] + (match self.spec_python_home() {
            Some(home) => seq![("PYTHONHOME".spec_bytes(), home)],
            None => Seq::empty(),
        }) + seq![
            ("PYTHONPATH".spec_bytes(), self.spec_python_path()),
            ("VAPOURSYNTH_PLUGIN_PATH".spec_bytes(), self.spec_vapoursynth_plugin_path()),
            ("NNEDI3CL_WEIGHTS_PATH".spec_bytes(), self.spec_nnedi3cl_weights_path()),
            (
                "PATH".spec_bytes(),
                self.spec_bin_path() + seq![self.platform.spec_list_sep()] + existing_path,
            ),
        ];
        if self.platform.spec_is_windows() {
            base
        } else {
            let vs_lib = spec_join(self.platform, self.spec_platform_dir(), "vapoursynth".spec_bytes());
            let python_lib = spec_join(
                self.platform,
                spec_join(self.platform, self.spec_platform_dir(), "python".spec_bytes()),
                "lib".spec_bytes(),
            );
            let dyld = if existing_dyld.len() == 0 {
                vs_lib + seq![58u8] + python_lib
            } else {
                vs_lib + seq![58u8] + python_lib + seq![58u8] + existing_dyld
            };
            base + seq![("DYLD_LIBRARY_PATH".spec_bytes(), dyld)]
        }
    }

    /// Builds the environment entries, as `spec_environment` describes.
    /// The caller supplies the existing search-path values.
    #[verifier::rlimit(100)]
    pub fn build_environment(&self, existing_path: &[u8], existing_dyld: &[u8]) -> (r: Vec<
        (Vec<u8>, Vec<u8>),
    >)
        ensures
            env_views(r@) == self.spec_environment(existing_path@, existing_dyld@),
    {
        let mut out: Vec<(Vec<u8>, Vec<u8>)> = Vec::new();
        push_env(&mut out, "PYTHONNOUSERSITE", StrSliceExecFns::as_bytes_vec("1"));
        match self.python_home() {
            Some(home) => {
                push_env(&mut out, "PYTHONHOME", home);
            },
            None => {},
        }
        push_env(&mut out, "PYTHONPATH", self.python_path());
        push_env(&mut out, "VAPOURSYNTH_PLUGIN_PATH", self.vapoursynth_plugin_path());
        push_env(&mut out, "NNEDI3CL_WEIGHTS_PATH", self.nnedi3cl_weights_path());
        let mut path = self.bin_path();
        path.push(self.platform.list_sep());
        append_all(&mut path, existing_path);
        push_env(&mut out, "PATH", path);
        if !self.platform.is_windows() {
            let dir = self.platform_dir();
            let vs_lib = join_path(self.platform, dir.as_slice(), "vapoursynth");
            let py = join_path(self.platform, dir.as_slice(), "python");
            let python_lib = join_path(self.platform, py.as_slice(), "lib");
            let mut dyld = vs_lib;
            dyld.push(58u8);
            let mut pl = python_lib;
            dyld.append(&mut pl);
            if existing_dyld.len() != 0 {
                dyld.push(58u8);
                append_all(&mut dyld, existing_dyld);
            }
            push_env(&mut out, "DYLD_LIBRARY_PATH", dyld);
        }
        proof {
            assert(env_views(out@) =~~= self.spec_environment(existing_path@, existing_dyld@));
        }
        out
    }
}

/// The byte contents of a sequence of environment entries.
pub open spec fn env_views(a: Seq<(Vec<u8>, Vec<u8>)>) -> Seq<(Seq<u8>, Seq<u8>)> {
    Seq::new(a.len(), |i: int| (a[i].0@, a[i].1@))
}

/// Appends one environment entry.
fn push_env(out: &mut Vec<(Vec<u8>, Vec<u8>)>, key: &str, value: Vec<u8>)
    ensures
        env_views(final(out)@) == env_views(old(out)@) + seq![(key.spec_bytes(), value@)],
{
    let ghost vv = value@;
    out.push((StrSliceExecFns::as_bytes_vec(key), value));
    proof {
        assert(env_views(out@) =~= env_views(old(out)@) + seq![(key.spec_bytes(), vv)]);
    }
}

} // verus!
