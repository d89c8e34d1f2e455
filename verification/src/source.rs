//! Ruby source trees, and the decision core of downloading them: where the
//! archive lives, whether an existing archive or source tree is reused, and
//! whether the archive is kept afterwards.  The adapter that owns the
//! network and the filesystem gathers the evidence, asks for the plan, and
//! carries it out.

use vstd::prelude::*;

use crate::builder::RubyBuilder;
use crate::version::{spec_render, Version, VersionView};

verus! {

/// A path to Ruby's source code.
#[derive(Clone, Debug)]
pub struct RubySrc {
    dir: String,
}

impl RubySrc {
    /// The directory this source tree lives in.
    pub closed spec fn spec_dir(&self) -> Seq<char> {
        self.dir@
    }

    /// Creates a new instance targeting `dir`.
    pub fn new(dir: &str) -> (r: Self)
        ensures
            r.spec_dir() == dir@,
    {
        RubySrc { dir: String::from_str(dir) }
    }

    /// Returns a downloader for `version` that unpacks under `parent`.
    pub fn downloader(version: Version, parent: &str) -> (r: RubySrcDownloader)
        ensures
            r@ == (DownloaderView {
                version: version@,
                dst_dir: parent@,
                ignore_existing_dir: false,
                ignore_cache: false,
                cache: false,
                cache_dir: None,
            }),
    {
        RubySrcDownloader::new(version, parent)
    }

    /// Returns the directory path.
    pub fn as_path(&self) -> (r: &str)
        ensures
            r@ == self.spec_dir(),
    {
        self.dir.as_str()
    }

    /// Converts `self` into its directory path.
    pub fn into_path(self) -> (r: String)
        ensures
            r@ == self.spec_dir(),
    {
        self.dir
    }

    /// Converts `self` into an owned directory path.
    pub fn into_path_buf(self) -> (r: String)
        ensures
            r@ == self.spec_dir(),
    {
        self.dir
    }

    /// Creates a builder that builds this source tree into `out_dir` for
    /// `target`; `target_msvc` says whether the vendor toolchain drives it.
    pub fn builder(&self, out_dir: String, target: &str, target_msvc: bool) -> (r: RubyBuilder)
        ensures
            r.src_dir@ == self.spec_dir(),
            r.out_dir == out_dir,
            r.ruby_target@ == crate::builder::spec_ruby_target(target@),
            r.target_msvc == target_msvc,
            !r.force_autoconf && !r.force_configure && !r.force_make,
            r.autoconf_args@ =~= Seq::<String>::empty(),
            r.configure_args@ =~= Seq::<String>::empty(),
            r.make_args@ =~= Seq::<String>::empty(),
    {
        RubyBuilder::new(self.dir.clone(), out_dir, target, target_msvc)
    }
}

/// The settings of one download, as plain values.
pub struct DownloaderView {
    /// The version to fetch.
    pub version: VersionView,
    /// The directory the sources unpack under.
    pub dst_dir: Seq<char>,
    /// Overwrite an existing sources directory.
    pub ignore_existing_dir: bool,
    /// Re-fetch even when a cached archive exists.
    pub ignore_cache: bool,
    /// Keep the archive in a cache directory.
    pub cache: bool,
    /// The cache directory to use instead of the system default.
    pub cache_dir: Option<Seq<char>>,
}

/// Downloads and unpacks Ruby's source code: the configuration record and
/// the planning; the adapter performs the network and filesystem work.
#[derive(Debug)]
pub struct RubySrcDownloader {
    version: Version,
    dst_dir: String,
    ignore_existing_dir: bool,
    ignore_cache: bool,
    cache: bool,
    cache_dir: Option<String>,
}

impl View for RubySrcDownloader {
    type V = DownloaderView;

    closed spec fn view(&self) -> DownloaderView {
        DownloaderView {
            version: self.version@,
            dst_dir: self.dst_dir@,
            ignore_existing_dir: self.ignore_existing_dir,
            ignore_cache: self.ignore_cache,
            cache: self.cache,
            cache_dir: match self.cache_dir {
                Some(d) => Some(d@),
                None => None,
            },
        }
    }
}

/// The error returned when downloading the sources fails.
#[derive(Debug)]
pub enum RubySrcDownloadError {
    /// No cache directory could be found for the current user.
    MissingCache,
    /// Failed to open an existing archive; the payload describes why.
    OpenArchive(String),
    /// Failed to create a directory for the archive.
    CreateArchiveDir(String),
    /// Failed to create a file for the archive.
    CreateArchive(String),
    /// Failed to fetch the archive.
    RequestArchive(String),
    /// Failed to unpack the archive.
    UnpackArchive(String),
    /// Failed to create the destination directory.
    CreateDstDir(String),
}

/// How one download proceeds.
#[derive(Debug)]
pub enum DownloadAction {
    /// The sources directory already exists and is kept: reuse it.
    UseExisting(String),
    /// Fetch or reuse the archive per the plan, and unpack it.
    Fetch(DownloadPlan),
}

/// Where the archive lives and how it is treated.
#[derive(Debug)]
pub struct DownloadPlan {
    /// The sources directory the archive unpacks to.
    pub src_dir: String,
    /// The directory holding the archive file.
    pub archive_dir: String,
    /// The archive file itself.
    pub archive_path: String,
    /// Fetch even when the archive file already exists.
    pub ignore_existing_archive: bool,
    /// Keep the archive afterwards; otherwise it is removed on every exit
    /// path once the download ends, successful or not.
    pub keep_archive: bool,
}

impl RubySrcDownloader {
    /// Creates a downloader for `version` that unpacks under `dst_dir`.
    pub fn new(version: Version, dst_dir: &str) -> (r: Self)
        ensures
            r@ == (DownloaderView {
                version: version@,
                dst_dir: dst_dir@,
                ignore_existing_dir: false,
                ignore_cache: false,
                cache: false,
                cache_dir: None,
            }),
    {
        RubySrcDownloader {
            version,
            dst_dir: String::from_str(dst_dir),
            ignore_existing_dir: false,
            ignore_cache: false,
            cache: false,
            cache_dir: None,
        }
    }

    /// Overwrite the sources directory in `dst_dir` if it already exists.
    pub fn ignore_existing_dir(self) -> (r: Self)
        ensures
            r@ == (DownloaderView { ignore_existing_dir: true, ..self@ }),
    {
        RubySrcDownloader { ignore_existing_dir: true, ..self }
    }

    /// Forces the download even if a cached download exists.
    pub fn ignore_cache(self) -> (r: Self)
        ensures
            r@ == (DownloaderView { ignore_cache: true, ..self@ }),
    {
        RubySrcDownloader { ignore_cache: true, ..self }
    }

    /// Sets whether to cache the downloaded archive in a default directory;
    /// a previously cached download is reused.
    pub fn cache(self) -> (r: Self)
        ensures
            r@ == (DownloaderView { cache: true, ..self@ }),
    {
        RubySrcDownloader { cache: true, ..self }
    }

    /// Sets the directory to use for caching the downloaded archive, and
    /// turns caching on.
    pub fn cache_dir(self, path: &str) -> (r: Self)
        ensures
            r@ == (DownloaderView { cache: true, cache_dir: Some(path@), ..self@ }),
    {
        let with_dir = RubySrcDownloader { cache_dir: Some(String::from_str(path)), ..self };
        with_dir.cache()
    }

    /// The name of the directory the archive unpacks to.
    pub open spec fn spec_src_name(v: VersionView) -> Seq<char> {
        "ruby-"@ + spec_render(v)
    }

    /// The version this downloader fetches.
    pub fn version(&self) -> (r: &Version)
        ensures
            r@ == self@.version,
    {
        &self.version
    }

    /// The directory the sources of this version unpack to.
    pub fn src_path(&self) -> (r: String)
        ensures
            r@ == self@.dst_dir + seq!['/'] + Self::spec_src_name(self@.version),
    {
        let mut src_dir = self.dst_dir.clone();
        src_dir.append("/ruby-");
        let rendered = self.version.render();
        src_dir.append(rendered.as_str());
        proof {
            reveal_strlit("/ruby-");
            reveal_strlit("ruby-");
            assert(src_dir@ =~= self@.dst_dir + seq!['/'] + Self::spec_src_name(self@.version));
        }
        src_dir
    }

    /// Decides how the download proceeds, from the settings and the evidence
    /// the adapter gathered: whether the sources directory already exists,
    /// the system cache directory if one is known, and the temporary
    /// directory.  An existing sources directory is reused unless
    /// overwriting was requested; a cached archive lives in the chosen or
    /// the system cache directory, and caching with no directory available
    /// at all is refused; an uncached archive lives under the temporary
    /// directory, is always fetched anew, and is not kept.
    pub fn plan(
        &self,
        src_dir_exists: bool,
        system_cache_dir: Option<&str>,
        temp_dir: &str,
    ) -> (r: Result<DownloadAction, RubySrcDownloadError>)
        ensures
            ({
                let v = self@;
                let src_dir = v.dst_dir + seq!['/'] + Self::spec_src_name(v.version);
                let archive_name = "ruby-"@ + spec_render(v.version) + ".tar.bz2"@;
                match r {
                    Ok(DownloadAction::UseExisting(d)) => src_dir_exists && !v.ignore_existing_dir
                        && d@ == src_dir,
                    Ok(DownloadAction::Fetch(p)) => (!src_dir_exists || v.ignore_existing_dir)
                        && p.src_dir@ == src_dir && p.keep_archive == v.cache && p.archive_path@
                        == p.archive_dir@ + seq!['/'] + archive_name && (if v.cache {
                        &&& (match v.cache_dir {
                            Some(cd) => p.archive_dir@ == cd,
                            None => system_cache_dir matches Some(sc) && p.archive_dir@ == sc@
                                + "/aloxide"@,
                        })
                        &&& p.ignore_existing_archive == v.ignore_cache
                    } else {
                        &&& p.archive_dir@ == temp_dir@ + "/aloxide"@
                        &&& p.ignore_existing_archive
                    }),
                    Err(e) => e matches RubySrcDownloadError::MissingCache && v.cache
                        && v.cache_dir is None && system_cache_dir is None,
                }
            }),
    {
        let archive_name = self.version.archive_name();
        let src_dir = self.src_path();
        if src_dir_exists && !self.ignore_existing_dir {
            return Ok(DownloadAction::UseExisting(src_dir));
        }
        let (archive_dir, ignore_existing_archive): (String, bool) = if self.cache {
            let dir = match &self.cache_dir {
                Some(cd) => cd.clone(),
                None => match system_cache_dir {
                    Some(sc) => String::from_str(sc).concat("/aloxide"),
                    None => {
                        return Err(RubySrcDownloadError::MissingCache);
                    },
                },
            };
            (dir, self.ignore_cache)
        } else {
            (String::from_str(temp_dir).concat("/aloxide"), true)
        };
        let mut archive_path = archive_dir.clone();
        archive_path.append("/");
        archive_path.append(archive_name.as_str());
        proof {
            reveal_strlit("/");
            assert(archive_path@ =~= archive_dir@ + seq!['/'] + ("ruby-"@ + spec_render(
                self@.version,
            ) + ".tar.bz2"@));
        }
        Ok(
            DownloadAction::Fetch(
                DownloadPlan {
                    src_dir,
                    archive_dir,
                    archive_path,
                    ignore_existing_archive,
                    keep_archive: self.cache,
                },
            ),
        )
    }
}

} // verus!
