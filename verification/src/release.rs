//! Where a release of the database comes from, and where its parts go.

use crate::paths::{cockroachdb_bin_path, join_path, path_in};
use crate::text::{same_text, trim, trimmed};
use vstd::prelude::*;
use vstd::string::*;

verus! {

/// The operating systems for which there are binaries.
#[derive(Clone, Copy, Debug, PartialEq, Eq, Structural)]
pub enum Os {
    Illumos,
    Linux,
    Mac,
}

impl Os {
    /// The name of the operating system in the names of checksums.
    pub open spec fn env_text(self) -> Seq<char> {
        match self {
            Os::Illumos => "ILLUMOS"@,
            Os::Linux => "LINUX"@,
            Os::Mac => "DARWIN"@,
        }
    }

    /// The key of the checksum of the binary.
    pub open spec fn checksum_key_text(self) -> Seq<char> {
        "CIDL_SHA256_"@ + self.env_text()
    }

    /// The server that has the binaries.
    pub open spec fn url_base_text(self) -> Seq<char> {
        match self {
            Os::Illumos => "https://oxide-cockroachdb-build.s3.us-west-2.amazonaws.com"@,
            _ => "https://binaries.cockroachdb.com"@,
        }
    }

    /// The ending of the name of an archive.
    pub open spec fn suffix_text(self) -> Seq<char> {
        match self {
            Os::Illumos => "tar.gz"@,
            _ => "tgz"@,
        }
    }

    /// The part of the name of an archive that tells the platform.
    pub open spec fn build_text(self) -> Seq<char> {
        match self {
            Os::Illumos => "illumos"@,
            Os::Linux => "linux-amd64"@,
            Os::Mac => "darwin-10.9-amd64"@,
        }
    }

    /// The name of the operating system in the names of checksums.
    pub fn env_name(&self) -> (r: &'static str)
        ensures
            r@ == self.env_text(),
    {
        match self {
            Os::Illumos => "ILLUMOS",
            Os::Linux => "LINUX",
            Os::Mac => "DARWIN",
        }
    }

    /// The key of the checksum of the binary.
    pub fn checksum_key(&self) -> (r: String)
        ensures
            r@ == self.checksum_key_text(),
    {
        "CIDL_SHA256_".to_owned().concat(self.env_name())
    }
}

/// The operating system with the given name; the error is a text.
pub open spec fn os_named(name: Seq<char>) -> Result<Os, Seq<char>> {
    if name == "linux"@ {
        Ok(Os::Linux)
    } else if name == "macos"@ {
        Ok(Os::Mac)
    } else if name == "solaris"@ || name == "illumos"@ {
        Ok(Os::Illumos)
    } else {
        Err("OS not supported: "@ + name)
    }
}

/// Finds the operating system with the given name.
pub fn os_name(name: &str) -> (r: Result<Os, String>)
    ensures
        (match r {
            Ok(os) => Ok(os),
            Err(text) => Err(text@),
        }) == os_named(name@),
{
    if same_text(name, "linux") {
        Ok(Os::Linux)
    } else if same_text(name, "macos") {
        Ok(Os::Mac)
    } else if same_text(name, "solaris") || same_text(name, "illumos") {
        Ok(Os::Illumos)
    } else {
        Err("OS not supported: ".to_owned().concat(name))
    }
}

/// The path that `camino::Utf8Path::with_file_name` makes.
pub uninterp spec fn sibling_of(path: Seq<char>, file_name: Seq<char>) -> Seq<char>;

/// Whether `r` is right for a path that names a file in a directory: the other file
/// lies in the same directory. Directories that are written with a `/` or with
/// `/.` at their end are left out.
pub open spec fn lies_beside(path: Seq<char>, file_name: Seq<char>, r: Seq<char>) -> bool {
    forall|dir: Seq<char>, last: Seq<char>|
        path == #[trigger] path_in(dir, last) && dir.len() > 0 && dir.last() != '/'
            && !"/."@.is_suffix_of(dir) && last.len() > 0 && !last.contains('/') && last != "."@
            && last != ".."@ && file_name.len() > 0 && file_name[0] != '/' ==> r == path_in(
            dir,
            file_name,
        )
}

/// Replaces the last component of a path with `camino::Utf8Path::with_file_name`.
///
/// Not proved: that on Unix the result is one fixed path for each path and file
/// name, and that for a path which names a file in a directory it lies in the
/// same directory. Other paths are not spoken of.
#[verifier::external_body]
fn sibling_path(path: &str, file_name: &str) -> (r: String)
    ensures
        r@ == sibling_of(path@, file_name@),
        lies_beside(path@, file_name@, r@),
{
    camino::Utf8Path::new(path).with_file_name(file_name).into_string()
}

/// What to copy out of an unpacked archive.
#[derive(Debug, PartialEq, Eq)]
pub enum CopyPlan {
    /// A directory with all that is in it.
    Directory { from: String, to: String },
    /// One file.
    File { from: String, to: String },
}

/// What to copy, by the paths.
pub enum CopyPlanView {
    Directory { from: Seq<char>, to: Seq<char> },
    File { from: Seq<char>, to: Seq<char> },
}

impl View for CopyPlan {
    type V = CopyPlanView;

    open spec fn view(&self) -> CopyPlanView {
        match self {
            CopyPlan::Directory { from, to } => CopyPlanView::Directory { from: from@, to: to@ },
            CopyPlan::File { from, to } => CopyPlanView::File { from: from@, to: to@ },
        }
    }
}

/// A release of the database for one platform, and the paths that it is brought to.
#[derive(Debug, PartialEq, Eq)]
pub struct Release {
    /// Where archives are put and unpacked.
    pub download_dir: String,
    /// Where the database ends up.
    pub destination_dir: String,
    /// Where the binary ends up.
    pub binary_dir: String,
    /// The binary.
    pub binary: String,
    /// The URL of the archive.
    pub tarball_url: String,
    /// The archive.
    pub tarball_path: String,
    /// What to copy once the archive is unpacked.
    pub copy: CopyPlan,
}

/// A release, by its texts.
pub struct ReleaseView {
    pub download_dir: Seq<char>,
    pub destination_dir: Seq<char>,
    pub binary_dir: Seq<char>,
    pub binary: Seq<char>,
    pub tarball_url: Seq<char>,
    pub tarball_path: Seq<char>,
    pub copy: CopyPlanView,
}

impl View for Release {
    type V = ReleaseView;

    open spec fn view(&self) -> ReleaseView {
        ReleaseView {
            download_dir: self.download_dir@,
            destination_dir: self.destination_dir@,
            binary_dir: self.binary_dir@,
            binary: self.binary@,
            tarball_url: self.tarball_url@,
            tarball_path: self.tarball_path@,
            copy: self.copy@,
        }
    }
}

/// The name of the directory of a version.
pub open spec fn version_directory_of(version: Seq<char>) -> Seq<char> {
    "cockroach-"@ + trimmed(version)
}

/// The name of the archive of a version, without its ending.
pub open spec fn tarball_name_of(os: Os, version: Seq<char>) -> Seq<char> {
    version_directory_of(version) + "."@ + os.build_text()
}

/// The name of the archive of a version.
pub open spec fn tarball_filename_of(os: Os, version: Seq<char>) -> Seq<char> {
    tarball_name_of(os, version) + "."@ + os.suffix_text()
}

/// The release with the given version, brought to the directory `out_dir`.
pub open spec fn release_of(os: Os, version: Seq<char>, out_dir: Seq<char>) -> ReleaseView {
    let download_dir = path_in(out_dir, "downloads"@);
    let destination_dir = path_in(out_dir, "cockroachdb"@);
    let tarball_path = path_in(download_dir, tarball_filename_of(os, version));
    let binary = path_in(destination_dir, "bin/cockroach"@);
    ReleaseView {
        download_dir,
        destination_dir,
        binary_dir: path_in(destination_dir, "bin"@),
        binary,
        tarball_url: os.url_base_text() + "/"@ + tarball_filename_of(os, version),
        tarball_path,
        copy: match os {
            Os::Illumos => CopyPlanView::Directory {
                from: sibling_of(tarball_path, version_directory_of(version)),
                to: destination_dir,
            },
            _ => CopyPlanView::File {
                from: path_in(
                    sibling_of(tarball_path, tarball_name_of(os, version)),
                    "cockroach"@,
                ),
                to: binary,
            },
        },
    }
}

/// What to copy of a release whose version is a plain file name: it is found where
/// archives are unpacked.
pub open spec fn copied_from_download(
    os: Os,
    version: Seq<char>,
    out_dir: Seq<char>,
) -> CopyPlanView {
    let download_dir = path_in(out_dir, "downloads"@);
    let release = release_of(os, version, out_dir);
    match os {
        Os::Illumos => CopyPlanView::Directory {
            from: path_in(download_dir, version_directory_of(version)),
            to: release.destination_dir,
        },
        _ => CopyPlanView::File {
            from: path_in(path_in(download_dir, tarball_name_of(os, version)), "cockroach"@),
            to: release.binary,
        },
    }
}

/// The name of an archive is a plain file name if the version is.
proof fn lemma_plain_archive(os: Os, version: Seq<char>, out_dir: Seq<char>)
    requires
        !trimmed(version).contains('/'),
    ensures
        ({
            let dir = path_in(out_dir, "downloads"@);
            let last = tarball_filename_of(os, version);
            &&& dir.len() > 0 && dir.last() != '/' && !"/."@.is_suffix_of(dir)
            &&& last.len() > 0 && !last.contains('/') && last != "."@ && last != ".."@
        }),
{
    reveal_strlit("downloads");
    reveal_strlit("/.");
    reveal_strlit(".");
    reveal_strlit("..");
    reveal_strlit("cockroach-");
    reveal_strlit("illumos");
    reveal_strlit("linux-amd64");
    reveal_strlit("darwin-10.9-amd64");
    reveal_strlit("tar.gz");
    reveal_strlit("tgz");
    let dir = path_in(out_dir, "downloads"@);
    assert(dir.last() == 's');
    assert("/."@.last() == '.');
    let version_dir = version_directory_of(version);
    assert(!version_dir.contains('/')) by {
        if version_dir.contains('/') {
            let i = choose|i: int| 0 <= i < version_dir.len() && version_dir[i] == '/';
            assert(i >= 10 && trimmed(version)[i - 10] == '/');
        }
    }
    let last = tarball_filename_of(os, version);
    let ending = "."@ + os.build_text() + "."@ + os.suffix_text();
    assert(last =~= version_dir + ending);
    assert(!ending.contains('/'));
    assert(!last.contains('/')) by {
        if last.contains('/') {
            let i = choose|i: int| 0 <= i < last.len() && last[i] == '/';
            if i < version_dir.len() {
                assert(version_dir[i] == '/');
            } else {
                assert(ending[i - version_dir.len()] == '/');
            }
        }
    }
    assert(last[0] == 'c');
}

/// Makes the plan to bring the release with the given version to the directory
/// `out_dir`.
pub fn plan_release(os: Os, version: &str, out_dir: &str) -> (r: Release)
    ensures
        r@ == release_of(os, version@, out_dir@),
        !trimmed(version@).contains('/') ==> r@.copy == copied_from_download(
            os,
            version@,
            out_dir@,
        ),
{
    proof {
        reveal_strlit("downloads");
        reveal_strlit("cockroachdb");
        reveal_strlit("bin");
        reveal_strlit("bin/cockroach");
        reveal_strlit("cockroach");
        reveal_strlit("cockroach-");
    }
    let (url_base, suffix) = match os {
        Os::Illumos => (
            "https://oxide-cockroachdb-build.s3.us-west-2.amazonaws.com",
            "tar.gz",
        ),
        Os::Linux | Os::Mac => ("https://binaries.cockroachdb.com", "tgz"),
    };
    let build = match os {
        Os::Illumos => "illumos",
        Os::Linux => "linux-amd64",
        Os::Mac => "darwin-10.9-amd64",
    };
    let download_dir = join_path(out_dir, "downloads");
    let destination_dir = join_path(out_dir, "cockroachdb");
    let version_directory = "cockroach-".to_owned().concat(trim(version));
    let tarball_name = version_directory.clone().concat(".").concat(build);
    let tarball_filename = tarball_name.clone().concat(".").concat(suffix);
    let tarball_url = url_base.to_owned().concat("/").concat(tarball_filename.as_str());
    assert(tarball_filename@[0] == 'c');
    let tarball_path = join_path(download_dir.as_str(), tarball_filename.as_str());
    let binary_dir = join_path(destination_dir.as_str(), "bin");
    let binary = join_path(destination_dir.as_str(), "bin/cockroach");
    proof {
        if !trimmed(version@).contains('/') {
            lemma_plain_archive(os, version@, out_dir@);
            assert(tarball_path@ == path_in(download_dir@, tarball_filename@));
            assert(version_directory@[0] == 'c' && tarball_name@[0] == 'c');
        }
    }
    let copy = match os {
        Os::Illumos => CopyPlan::Directory {
            from: sibling_path(tarball_path.as_str(), version_directory.as_str()),
            to: destination_dir.clone(),
        },
        Os::Linux | Os::Mac => {
            let unpacked = sibling_path(tarball_path.as_str(), tarball_name.as_str());
            CopyPlan::File { from: join_path(unpacked.as_str(), "cockroach"), to: binary.clone() }
        },
    };
    Release {
        download_dir,
        destination_dir,
        binary_dir,
        binary,
        tarball_url,
        tarball_path,
        copy,
    }
}

/// The binary is brought to where the harness looks for it.
pub proof fn law_binary_is_found(os: Os, version: Seq<char>, out_dir: Seq<char>)
    ensures
        release_of(os, version, out_dir).binary == cockroachdb_bin_path(out_dir),
{
    reveal_strlit("cockroachdb");
    reveal_strlit("bin/cockroach");
    reveal_strlit("cockroachdb/bin");
    reveal_strlit("cockroach");
    assert(release_of(os, version, out_dir).binary =~= cockroachdb_bin_path(out_dir));
}

/// There are binaries for systems with four names, two of which mean the same; any
/// other name is refused, and named in the error.
pub proof fn law_os_names(name: Seq<char>)
    ensures
        os_named("linux"@) == Ok::<Os, Seq<char>>(Os::Linux),
        os_named("macos"@) == Ok::<Os, Seq<char>>(Os::Mac),
        os_named("solaris"@) == Ok::<Os, Seq<char>>(Os::Illumos),
        os_named("illumos"@) == Ok::<Os, Seq<char>>(Os::Illumos),
        name != "linux"@ && name != "macos"@ && name != "solaris"@ && name != "illumos"@
            ==> os_named(name) == Err::<Os, Seq<char>>("OS not supported: "@ + name),
{
    reveal_strlit("linux");
    reveal_strlit("macos");
    reveal_strlit("solaris");
    reveal_strlit("illumos");
    assert("linux"@[0] == 'l' && "macos"@[0] == 'm' && "solaris"@[0] == 's' && "illumos"@[0]
        == 'i');
}

/// The checksum of each system has a key of its own.
pub proof fn law_checksum_keys()
    ensures
        Os::Illumos.env_text() == "ILLUMOS"@,
        Os::Linux.env_text() == "LINUX"@,
        Os::Mac.env_text() == "DARWIN"@,
        Os::Illumos.checksum_key_text() == "CIDL_SHA256_ILLUMOS"@,
        Os::Linux.checksum_key_text() == "CIDL_SHA256_LINUX"@,
        Os::Mac.checksum_key_text() == "CIDL_SHA256_DARWIN"@,
{
    reveal_strlit("ILLUMOS");
    reveal_strlit("LINUX");
    reveal_strlit("DARWIN");
    reveal_strlit("CIDL_SHA256_");
    reveal_strlit("CIDL_SHA256_ILLUMOS");
    reveal_strlit("CIDL_SHA256_LINUX");
    reveal_strlit("CIDL_SHA256_DARWIN");
    assert(Os::Illumos.checksum_key_text() =~= "CIDL_SHA256_ILLUMOS"@);
    assert(Os::Linux.checksum_key_text() =~= "CIDL_SHA256_LINUX"@);
    assert(Os::Mac.checksum_key_text() =~= "CIDL_SHA256_DARWIN"@);
}

/// The archive of a version is named after the version, whatever that is, and the
/// system.
pub proof fn law_archive_names(version: Seq<char>)
    ensures
        tarball_filename_of(Os::Illumos, version) == "cockroach-"@ + trimmed(version)
            + ".illumos.tar.gz"@,
        tarball_filename_of(Os::Linux, version) == "cockroach-"@ + trimmed(version)
            + ".linux-amd64.tgz"@,
        tarball_filename_of(Os::Mac, version) == "cockroach-"@ + trimmed(version)
            + ".darwin-10.9-amd64.tgz"@,
        tarball_name_of(Os::Linux, version) == "cockroach-"@ + trimmed(version) + ".linux-amd64"@,
        tarball_name_of(Os::Mac, version) == "cockroach-"@ + trimmed(version)
            + ".darwin-10.9-amd64"@,
        version_directory_of(version) == "cockroach-"@ + trimmed(version),
{
    reveal_strlit(".");
    reveal_strlit("illumos");
    reveal_strlit("linux-amd64");
    reveal_strlit("darwin-10.9-amd64");
    reveal_strlit("tar.gz");
    reveal_strlit("tgz");
    reveal_strlit(".illumos.tar.gz");
    reveal_strlit(".linux-amd64.tgz");
    reveal_strlit(".darwin-10.9-amd64.tgz");
    reveal_strlit(".linux-amd64");
    reveal_strlit(".darwin-10.9-amd64");
    let name = "cockroach-"@ + trimmed(version);
    assert(tarball_filename_of(Os::Illumos, version) =~= name + ".illumos.tar.gz"@);
    assert(tarball_filename_of(Os::Linux, version) =~= name + ".linux-amd64.tgz"@);
    assert(tarball_filename_of(Os::Mac, version) =~= name + ".darwin-10.9-amd64.tgz"@);
    assert(tarball_name_of(Os::Linux, version) =~= name + ".linux-amd64"@);
    assert(tarball_name_of(Os::Mac, version) =~= name + ".darwin-10.9-amd64"@);
}

/// The archive comes from the server of its system under its name, and goes to the
/// download directory under its name. The binary goes to `cockroachdb/bin`: as part of
/// a directory on illumos, and alone elsewhere.
pub proof fn law_release(os: Os, version: Seq<char>, out_dir: Seq<char>)
    ensures
        ({
            let release = release_of(os, version, out_dir);
            let archive = tarball_filename_of(os, version);
            &&& release.download_dir == path_in(out_dir, "downloads"@)
            &&& release.destination_dir == path_in(out_dir, "cockroachdb"@)
            &&& release.binary_dir == path_in(path_in(out_dir, "cockroachdb"@), "bin"@)
            &&& release.binary == path_in(release.binary_dir, "cockroach"@)
            &&& release.tarball_path == path_in(release.download_dir, archive)
            &&& os == Os::Illumos ==> release.tarball_url
                == "https://oxide-cockroachdb-build.s3.us-west-2.amazonaws.com/"@ + archive
            &&& os != Os::Illumos ==> release.tarball_url == "https://binaries.cockroachdb.com/"@
                + archive
            &&& os == Os::Illumos ==> release.copy == (CopyPlanView::Directory {
                from: sibling_of(release.tarball_path, version_directory_of(version)),
                to: release.destination_dir,
            })
            &&& os != Os::Illumos ==> release.copy == (CopyPlanView::File {
                from: path_in(
                    sibling_of(release.tarball_path, tarball_name_of(os, version)),
                    "cockroach"@,
                ),
                to: release.binary,
            })
        }),
{
    reveal_strlit("bin");
    reveal_strlit("cockroach");
    reveal_strlit("bin/cockroach");
    reveal_strlit("/");
    reveal_strlit("https://oxide-cockroachdb-build.s3.us-west-2.amazonaws.com/");
    reveal_strlit("https://oxide-cockroachdb-build.s3.us-west-2.amazonaws.com");
    reveal_strlit("https://binaries.cockroachdb.com/");
    reveal_strlit("https://binaries.cockroachdb.com");
    let release = release_of(os, version, out_dir);
    let archive = tarball_filename_of(os, version);
    assert(release.binary =~= path_in(release.binary_dir, "cockroach"@));
    assert("https://oxide-cockroachdb-build.s3.us-west-2.amazonaws.com/"@
        =~= "https://oxide-cockroachdb-build.s3.us-west-2.amazonaws.com"@ + "/"@);
    assert("https://binaries.cockroachdb.com/"@ =~= "https://binaries.cockroachdb.com"@ + "/"@);
}

/// What is copied of a version that is a plain file name lies in the download
/// directory, under the name that the archive has there without its ending, and goes to
/// where the release says.
pub proof fn law_copied_from_download(os: Os, version: Seq<char>, out_dir: Seq<char>)
    ensures
        copied_from_download(Os::Illumos, version, out_dir) == (CopyPlanView::Directory {
            from: path_in(path_in(out_dir, "downloads"@), "cockroach-"@ + trimmed(version)),
            to: path_in(out_dir, "cockroachdb"@),
        }),
        os != Os::Illumos ==> copied_from_download(os, version, out_dir) == (CopyPlanView::File {
            from: path_in(
                path_in(path_in(out_dir, "downloads"@), tarball_name_of(os, version)),
                "cockroach"@,
            ),
            to: cockroachdb_bin_path(out_dir),
        }),
{
    law_binary_is_found(os, version, out_dir);
}

/// What is said of a release by its view is said of the release.
pub proof fn law_release_view(release: Release)
    ensures
        release@.download_dir == release.download_dir@,
        release@.destination_dir == release.destination_dir@,
        release@.binary_dir == release.binary_dir@,
        release@.binary == release.binary@,
        release@.tarball_url == release.tarball_url@,
        release@.tarball_path == release.tarball_path@,
        match release.copy {
            CopyPlan::Directory { from, to } => release@.copy == (CopyPlanView::Directory {
                from: from@,
                to: to@,
            }),
            CopyPlan::File { from, to } => release@.copy == (CopyPlanView::File {
                from: from@,
                to: to@,
            }),
        },
{
}

} // verus!
