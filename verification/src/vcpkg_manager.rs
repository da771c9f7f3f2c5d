//! Where the package manager lives, and what it is asked for.

use vstd::prelude::*;
use crate::orchestrator::extraction::{find_archive, newest_archive, DirEntry};
use crate::package::{listing_satisfies, satisfies, views_of, PackageRequirement};
use crate::paths::{join, join_path};
use crate::text::contains;
use vstd::utf8::encode_utf8;

verus! {

/// The kind of machine the tool is installed on.
#[derive(Clone, Copy, Debug, PartialEq, Eq)]
pub enum Platform {
    /// Windows, where the tool is `vcpkg.exe` and is built by a batch file.
    Windows,
    /// macOS.
    MacOs,
    /// Linux, and every other system.
    Linux,
}

/// The name of the package that is installed.
pub const PACKAGE: &'static str = "ffmpeg";

/// The directory of the tool, below the base directory.
pub const TOOL_DIR: &'static str = "vcpkg";

/// The directory of the tool's downloads, below its root.
pub const DOWNLOADS_DIR: &'static str = "downloads";

/// The directory of the source tree, below the base directory.
pub const TREE_DIR: &'static str = "ffmpeg";

/// The directory into which the archive is unpacked first, below the base
/// directory.
pub const STAGING_DIR: &'static str = ".ffmpeg_temp";

/// The file name of the tool's executable on `platform`.
pub open spec fn executable_name(platform: Platform) -> Seq<char> {
    match platform {
        Platform::Windows => "vcpkg.exe"@,
        Platform::MacOs => "vcpkg"@,
        Platform::Linux => "vcpkg"@,
    }
}

/// The triplet for which packages are built on `platform`.
pub open spec fn triplet_of(platform: Platform) -> Seq<char> {
    match platform {
        Platform::Windows => "x64-windows-static"@,
        Platform::MacOs => "x64-osx"@,
        Platform::Linux => "x64-linux"@,
    }
}

/// The file name of the script that builds the tool on `platform`.
pub open spec fn bootstrap_script_name(platform: Platform) -> Seq<char> {
    match platform {
        Platform::Windows => "bootstrap-vcpkg.bat"@,
        Platform::MacOs => "bootstrap-vcpkg.sh"@,
        Platform::Linux => "bootstrap-vcpkg.sh"@,
    }
}

/// The install target: the tool's root, its executable and its triplet,
/// all fixed by the base directory and the platform.
pub struct VcpkgManager {
    base_dir: String,
    platform: Platform,
    vcpkg_root: String,
    vcpkg_exe: String,
    triplet: String,
}

impl VcpkgManager {
    /// The root is the tool's directory below the base, the executable is
    /// the platform's file name below the root, and the triplet is the
    /// platform's.
    #[verifier::type_invariant]
    pub closed spec fn wf(self) -> bool {
        &&& self.vcpkg_root@ == join_path(self.base_dir@, TOOL_DIR@)
        &&& self.vcpkg_exe@ == join_path(self.vcpkg_root@, executable_name(self.platform))
        &&& self.triplet@ == triplet_of(self.platform)
    }

    /// The base directory.
    pub closed spec fn base(self) -> Seq<char> {
        self.base_dir@
    }

    /// The platform.
    pub closed spec fn platform(self) -> Platform {
        self.platform
    }

    /// The tool's root directory.
    pub open spec fn root(self) -> Seq<char> {
        join_path(self.base(), TOOL_DIR@)
    }

    /// The path of the tool's executable.
    pub open spec fn exe(self) -> Seq<char> {
        join_path(self.root(), executable_name(self.platform()))
    }

    /// The path at which the source tree ends up.
    pub open spec fn tree(self) -> Seq<char> {
        join_path(self.base(), TREE_DIR@)
    }

    /// The install target below `base_dir` for `platform`.
    pub fn new(base_dir: &str, platform: Platform) -> (r: VcpkgManager)
        ensures
            r.base() == base_dir@,
            r.platform() == platform,
    {
        let vcpkg_root = join(base_dir, TOOL_DIR);
        let (exe_name, triplet) = match platform {
            Platform::Windows => ("vcpkg.exe", "x64-windows-static"),
            Platform::MacOs => ("vcpkg", "x64-osx"),
            Platform::Linux => ("vcpkg", "x64-linux"),
        };
        let vcpkg_exe = join(vcpkg_root.as_str(), exe_name);
        VcpkgManager {
            base_dir: base_dir.to_owned(),
            platform,
            vcpkg_root,
            vcpkg_exe,
            triplet: triplet.to_owned(),
        }
    }

    /// The platform for which the target was made.
    pub fn get_platform(&self) -> (r: Platform)
        ensures
            r == self.platform(),
    {
        self.platform
    }

    /// The triplet for which packages are built.
    pub fn get_triplet(&self) -> (r: &str)
        ensures
            r@ == triplet_of(self.platform()),
    {
        proof {
            use_type_invariant(self);
        }
        self.triplet.as_str()
    }

    /// The tool's root directory.
    pub fn get_vcpkg_root(&self) -> (r: &str)
        ensures
            r@ == self.root(),
    {
        proof {
            use_type_invariant(self);
        }
        self.vcpkg_root.as_str()
    }

    /// The path of the tool's executable: the platform's file name below
    /// the root.
    pub fn get_vcpkg_exe(&self) -> (r: &str)
        ensures
            r@ == self.exe(),
            r@ == join_path(self.root(), executable_name(self.platform())),
    {
        proof {
            use_type_invariant(self);
        }
        self.vcpkg_exe.as_str()
    }

    /// The directory below which everything is laid out, and in which the
    /// source tree ends up.
    pub fn get_output_dir(&self) -> (r: &str)
        ensures
            r@ == self.base(),
    {
        self.base_dir.as_str()
    }

    /// The path of the script that builds the tool.
    pub fn bootstrap_script(&self) -> (r: String)
        ensures
            r@ == join_path(self.root(), bootstrap_script_name(self.platform())),
    {
        let name = match self.platform {
            Platform::Windows => "bootstrap-vcpkg.bat",
            Platform::MacOs => "bootstrap-vcpkg.sh",
            Platform::Linux => "bootstrap-vcpkg.sh",
        };
        join(self.get_vcpkg_root(), name)
    }

    /// The directory of the tool's downloads.
    pub fn downloads_dir(&self) -> (r: String)
        ensures
            r@ == join_path(self.root(), DOWNLOADS_DIR@),
    {
        join(self.get_vcpkg_root(), DOWNLOADS_DIR)
    }

    /// The directory into which the archive is unpacked first.
    pub fn staging_dir(&self) -> (r: String)
        ensures
            r@ == join_path(self.base(), STAGING_DIR@),
    {
        join(self.get_output_dir(), STAGING_DIR)
    }

    /// The path at which the source tree ends up.
    pub fn tree_dir(&self) -> (r: String)
        ensures
            r@ == self.tree(),
    {
        join(self.get_output_dir(), TREE_DIR)
    }

    /// The path of the source tree, where the driver found a directory
    /// there; `None` where it found none.
    pub fn is_ffmpeg_extracted(&self, found_dir: bool) -> (r: Option<String>)
        ensures
            r is Some <==> found_dir,
            r matches Some(p) ==> p@ == self.tree(),
    {
        if found_dir {
            Some(self.tree_dir())
        } else {
            None
        }
    }

    /// The mirrors from which the tool is cloned, in the order in which
    /// they are tried.
    pub fn mirrors() -> (r: Vec<String>)
        ensures
            r@.len() == 3,
            r@[0]@ == "https://github.com/Microsoft/vcpkg.git"@,
            r@[1]@ == "https://gitee.com/mirrors/vcpkg.git"@,
            r@[2]@ == "https://github.com.cnpmjs.org/Microsoft/vcpkg.git"@,
    {
        let mut out: Vec<String> = Vec::new();
        out.push("https://github.com/Microsoft/vcpkg.git".to_owned());
        out.push("https://gitee.com/mirrors/vcpkg.git".to_owned());
        out.push("https://github.com.cnpmjs.org/Microsoft/vcpkg.git".to_owned());
        out
    }

    /// The arguments for the version-control client that clone `url`
    /// shallowly into the tool's root.
    pub fn clone_arguments(&self, url: &str) -> (r: Vec<String>)
        ensures
            r@.len() == 5,
            r@[0]@ == "clone"@,
            r@[1]@ == "--depth"@,
            r@[2]@ == "1"@,
            r@[3]@ == url@,
            r@[4]@ == self.root(),
    {
        let mut out: Vec<String> = Vec::new();
        out.push("clone".to_owned());
        out.push("--depth".to_owned());
        out.push("1".to_owned());
        out.push(url.to_owned());
        out.push(self.get_vcpkg_root().to_owned());
        out
    }

    /// The arguments with which the version-control client tells its
    /// version: the probe that shows whether it can be run.
    pub fn git_check_arguments() -> (r: Vec<String>)
        ensures
            r@.len() == 1,
            r@[0]@ == "--version"@,
    {
        let mut out: Vec<String> = Vec::new();
        out.push("--version".to_owned());
        out
    }

    /// The features the package must be built with.
    pub fn required_features() -> (r: Vec<String>)
        ensures
            r@.len() == 3,
            r@[0]@ == "x264"@,
            r@[1]@ == "x265"@,
            r@[2]@ == "vpx"@,
    {
        let mut out: Vec<String> = Vec::new();
        out.push("x264".to_owned());
        out.push("x265".to_owned());
        out.push("vpx".to_owned());
        out
    }

    /// What has to be installed: the package with its required features,
    /// for this target's triplet.
    pub fn requirement(&self) -> (r: PackageRequirement)
        ensures
            r.name@ == PACKAGE@,
            r.triplet@ == triplet_of(self.platform()),
            r.features@.len() == 3,
            r.features@[0]@ == "x264"@,
            r.features@[1]@ == "x265"@,
            r.features@[2]@ == "vpx"@,
    {
        PackageRequirement {
            name: PACKAGE.to_owned(),
            features: Self::required_features(),
            triplet: self.get_triplet().to_owned(),
        }
    }

    /// Tells whether `listing`, what the tool printed when asked to list
    /// the package, shows it installed for this target's triplet with every
    /// feature of `features`.
    ///
    /// The names are looked for as plain text. A listing that does not name
    /// this triplet gives `false`, whatever features it names.
    pub fn is_ffmpeg_with_features(&self, listing: &[u8], features: &Vec<String>) -> (r: bool)
        ensures
            r == listing_satisfies(
                listing@,
                PACKAGE@,
                triplet_of(self.platform()),
                views_of(features@),
            ),
            !contains(listing@, encode_utf8(triplet_of(self.platform()))) ==> !r,
    {
        satisfies(listing, PACKAGE, self.get_triplet(), features)
    }

    /// The path of the archive of the sources: the newest of the downloads
    /// that are named like one. `None` where none is.
    pub fn find_ffmpeg_archive(&self, downloads: &Vec<DirEntry>) -> (r: Option<String>)
        ensures
            r is Some <==> newest_archive(downloads@) is Some,
            r matches Some(p) ==> p@ == join_path(
                join_path(self.root(), DOWNLOADS_DIR@),
                downloads@[newest_archive(downloads@)->0].name@,
            ),
    {
        match find_archive(downloads) {
            Some(i) => {
                let dir = self.downloads_dir();
                Some(join(dir.as_str(), downloads[i].name.as_str()))
            },
            None => None,
        }
    }
}

} // verus!
