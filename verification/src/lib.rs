//! Download-planning, build-orchestration and link-flag translation for an
//! embedded Ruby runtime.
//!
//! The crate models the decision logic of a Ruby build pipeline: parsing and
//! ordering Ruby version identifiers, deciding which build stages must run
//! from filesystem evidence, classifying archive entries, and translating the
//! runtime's reported linker flags into structured link directives.  All I/O
//! (process spawning, downloading, unpacking) is left to a thin adapter layer
//! that feeds plain values into the functions here.

use vstd::prelude::*;

pub mod archive;
pub mod builder;
pub mod link;
pub mod source;
pub mod text;
pub mod version;

verus! {

/// The captured result of running an external tool: whether it exited
/// successfully, and the bytes it wrote to its standard streams.
#[derive(Debug)]
pub struct ExecOutput {
    /// Whether the process exited with a success status.
    pub success: bool,
    /// Captured standard output.
    pub stdout: Vec<u8>,
    /// Captured standard error.
    pub stderr: Vec<u8>,
}

/// The error returned when running `ruby` fails.
#[derive(Debug)]
pub enum RubyExecError {
    /// Spawning the tool failed at the OS level; the payload describes why.
    ExecFail(String),
    /// The tool ran but exited with a failure status.
    RunFail(ExecOutput),
    /// The output of the tool is not encoded as UTF-8.
    Utf8Error(Vec<u8>),
}

/// Relies on `String::from_utf8`: it succeeds exactly on valid UTF-8 input,
/// returning its decoding, and its error hands the input bytes back
/// unchanged.
#[verifier::external_body]
pub(crate) fn utf8_vec_to_string(bytes: Vec<u8>) -> (r: Result<String, Vec<u8>>)
    ensures
        match r {
            Ok(s) => vstd::utf8::valid_utf8(bytes@) && s@ == vstd::utf8::decode_utf8(bytes@),
            Err(b) => !vstd::utf8::valid_utf8(bytes@) && b@ == bytes@,
        },
{
    match String::from_utf8(bytes) {
        Ok(s) => Ok(s),
        Err(e) => Err(e.into_bytes()),
    }
}

/// Interprets one captured tool run: a successful exit yields the standard
/// output decoded as UTF-8, a failing exit is reported with the whole
/// captured output, and undecodable output is reported with its bytes.
pub fn process_output(output: ExecOutput) -> (r: Result<String, RubyExecError>)
    ensures
        match r {
            Ok(s) => output.success && vstd::utf8::valid_utf8(output.stdout@) && s@
                == vstd::utf8::decode_utf8(output.stdout@),
            Err(e) => match e {
                RubyExecError::RunFail(o) => !output.success && o == output,
                RubyExecError::Utf8Error(b) => output.success && !vstd::utf8::valid_utf8(
                    output.stdout@,
                ) && b@ == output.stdout@,
                RubyExecError::ExecFail(_) => false,
            },
        },
{
    if output.success {
        match utf8_vec_to_string(output.stdout) {
            Ok(s) => Ok(s),
            Err(b) => Err(RubyExecError::Utf8Error(b)),
        }
    } else {
        Err(RubyExecError::RunFail(output))
    }
}

/// The value a configuration store reports for a key: the value of its first
/// entry for that key, and the empty string when no entry carries it — just
/// as the runtime itself prints nothing for an unknown key.
pub open spec fn spec_lookup(store: Seq<(Seq<char>, Seq<char>)>, key: Seq<char>) -> Seq<char>
    decreases store.len(),
{
    if store.len() == 0 {
        Seq::empty()
    } else if store[0].0 == key {
        store[0].1
    } else {
        spec_lookup(store.drop_first(), key)
    }
}

/// The introspection script that makes the runtime print one of its own
/// configuration values.
pub fn config_script(key: &str) -> (r: String)
    ensures
        r@ == "print RbConfig::CONFIG['"@ + key@ + "']"@,
{
    let mut out = String::from_str("print RbConfig::CONFIG['");
    out.append(key);
    out.append("']");
    out
}

/// An existing Ruby installation: its version, its installed locations, and
/// a snapshot of its build-time configuration store, loaded by the adapter
/// that queried the runtime.
#[derive(Debug)]
pub struct Ruby {
    version: version::Version,
    out_dir: String,
    lib_dir: String,
    bin_path: String,
    config: Vec<(String, String)>,
}

impl Ruby {
    /// The version of this installation.
    pub closed spec fn spec_version(&self) -> version::VersionView {
        self.version@
    }

    /// The directory of Ruby's installed files.
    pub closed spec fn spec_out_dir(&self) -> Seq<char> {
        self.out_dir@
    }

    /// The directory where Ruby's library lives.
    pub closed spec fn spec_lib_dir(&self) -> Seq<char> {
        self.lib_dir@
    }

    /// The path of the `ruby` executable.
    pub closed spec fn spec_bin_path(&self) -> Seq<char> {
        self.bin_path@
    }

    /// The configuration store, as key/value character sequences in load
    /// order.
    pub closed spec fn spec_config(&self) -> Seq<(Seq<char>, Seq<char>)> {
        self.config.deep_view()
    }

    /// Creates a new instance without doing anything: the library directory
    /// and the executable path hang off `out_dir`, and the configuration
    /// store starts empty.
    pub fn new(version: version::Version, out_dir: String) -> (r: Ruby)
        ensures
            r.spec_version() == version@,
            r.spec_out_dir() == out_dir@,
            r.spec_lib_dir() == out_dir@ + "/lib"@,
            r.spec_bin_path() == out_dir@ + "/bin/ruby"@,
            r.spec_config() =~= Seq::<(Seq<char>, Seq<char>)>::empty(),
    {
        let lib_dir = out_dir.clone().concat("/lib");
        let bin_path = out_dir.clone().concat("/bin/ruby");
        Ruby { version, out_dir, lib_dir, bin_path, config: Vec::new() }
    }

    /// Returns a `RubySrc` instance for downloading and building Ruby
    /// sources at `path`.
    pub fn src(path: &str) -> (r: source::RubySrc)
        ensures
            r.spec_dir() == path@,
    {
        source::RubySrc::new(path)
    }

    /// Attaches the runtime's configuration store: key/value pairs in query
    /// order, the first entry for a key winning.
    pub fn with_config(self, config: Vec<(String, String)>) -> (r: Ruby)
        ensures
            r.spec_version() == self.spec_version(),
            r.spec_out_dir() == self.spec_out_dir(),
            r.spec_lib_dir() == self.spec_lib_dir(),
            r.spec_bin_path() == self.spec_bin_path(),
            r.spec_config() == config.deep_view(),
    {
        Ruby { config, ..self }
    }

    /// Returns the Ruby version.
    pub fn version(&self) -> (r: &version::Version)
        ensures
            r@ == self.spec_version(),
    {
        &self.version
    }

    /// The directory of Ruby's installed files.
    pub fn out_dir(&self) -> (r: &str)
        ensures
            r@ == self.spec_out_dir(),
    {
        self.out_dir.as_str()
    }

    /// The directory where Ruby's library lives.
    pub fn lib_dir(&self) -> (r: &str)
        ensures
            r@ == self.spec_lib_dir(),
    {
        self.lib_dir.as_str()
    }

    /// The path of the `ruby` executable.
    pub fn bin_path(&self) -> (r: &str)
        ensures
            r@ == self.spec_bin_path(),
    {
        self.bin_path.as_str()
    }

    /// Returns the configuration value for `key`: the stored value, or the
    /// empty string for a key the store does not carry.
    pub fn get_config(&self, key: &str) -> (r: Result<String, RubyExecError>)
        ensures
            r matches Ok(v) && v@ == spec_lookup(self.spec_config(), key@),
    {
        let n = self.config.len();
        proof {
            assert(self.spec_config().skip(0) =~= self.spec_config());
        }
        let mut i: usize = 0;
        while i < n
            invariant
                n == self.config.len(),
                0 <= i <= n,
                spec_lookup(self.spec_config(), key@) == spec_lookup(
                    self.spec_config().skip(i as int),
                    key@,
                ),
            decreases n - i,
        {
            proof {
                assert(self.spec_config().skip(i as int)[0] == self.spec_config()[i as int]);
                assert(self.spec_config().skip(i as int).drop_first() =~= self.spec_config().skip(
                    i + 1,
                ));
            }
            if crate::text::str_eq(self.config[i].0.as_str(), key) {
                return Ok(self.config[i].1.clone());
            }
            i += 1;
        }
        proof {
            assert(self.spec_config().skip(n as int) =~= Seq::<(Seq<char>, Seq<char>)>::empty());
        }
        Ok(String::new())
    }

    /// Returns the directory holding the runtime's header trees.
    pub fn include_dir(&self) -> (r: Result<String, RubyExecError>)
        ensures
            r matches Ok(v) && v@ == spec_lookup(self.spec_config(), "includedir"@),
    {
        self.get_config("includedir")
    }

    /// Returns the directory containing the Ruby library's main header
    /// files.
    pub fn header_dir(&self) -> (r: Result<String, RubyExecError>)
        ensures
            r matches Ok(v) && v@ == spec_lookup(self.spec_config(), "rubyhdrdir"@),
    {
        self.get_config("rubyhdrdir")
    }

    /// Returns the directory containing the Ruby library's
    /// architecture-specific header files.
    pub fn arch_header_dir(&self) -> (r: Result<String, RubyExecError>)
        ensures
            r matches Ok(v) && v@ == spec_lookup(self.spec_config(), "rubyarchhdrdir"@),
    {
        self.get_config("rubyarchhdrdir")
    }

    /// Returns the name of the Ruby library, with `-static` appended when
    /// the static variant is wanted.
    pub fn lib_name(&self, static_lib: bool) -> (r: Result<String, RubyExecError>)
        ensures
            r matches Ok(v) && v@ == spec_lookup(self.spec_config(), "RUBY_SO_NAME"@) + (
            if static_lib {
                "-static"@
            } else {
                Seq::<char>::empty()
            }),
    {
        let mut name = match self.get_config("RUBY_SO_NAME") {
            Ok(v) => v,
            Err(_) => {
                proof {
                    assert(false);
                }
                String::new()
            },
        };
        if static_lib {
            name.append("-static");
        }
        proof {
            if !static_lib {
                assert(name@ =~= spec_lookup(self.spec_config(), "RUBY_SO_NAME"@)
                    + Seq::<char>::empty());
            }
        }
        Ok(name)
    }

    /// Returns the value of `RbConfig::CONFIG['LIBRUBYARG']`.
    pub fn lib_args(&self) -> (r: Result<String, RubyExecError>)
        ensures
            r matches Ok(v) && v@ == spec_lookup(self.spec_config(), "LIBRUBYARG"@),
    {
        self.get_config("LIBRUBYARG")
    }

    /// Returns the value of `RbConfig::CONFIG['LIBS']`.
    pub fn libs(&self) -> (r: Result<String, RubyExecError>)
        ensures
            r matches Ok(v) && v@ == spec_lookup(self.spec_config(), "LIBS"@),
    {
        self.get_config("LIBS")
    }

    /// Returns the value of `RbConfig::CONFIG['MAINLIBS']`.
    pub fn main_libs(&self) -> (r: Result<String, RubyExecError>)
        ensures
            r matches Ok(v) && v@ == spec_lookup(self.spec_config(), "MAINLIBS"@),
    {
        self.get_config("MAINLIBS")
    }

    /// Returns the value of `RbConfig::CONFIG['SOLIBS']`: the shared-object
    /// libraries the runtime depends on.
    pub fn so_libs(&self) -> (r: Result<String, RubyExecError>)
        ensures
            r matches Ok(v) && v@ == spec_lookup(self.spec_config(), "SOLIBS"@),
    {
        self.get_config("SOLIBS")
    }

    /// The auxiliary libraries that are dynamically linked in every case:
    /// the main program's set when linking statically, the embedding set
    /// otherwise.
    pub fn aux_libs(&self, static_lib: bool) -> (r: Result<String, RubyExecError>)
        ensures
            r matches Ok(v) && v@ == spec_lookup(
                self.spec_config(),
                if static_lib {
                    "MAINLIBS"@
                } else {
                    "LIBS"@
                },
            ),
    {
        if static_lib {
            self.main_libs()
        } else {
            self.libs()
        }
    }

    /// Translates this runtime's link configuration into directives: first
    /// the library search path, and after it exactly what
    /// [`link::spec_translate`] yields for the configured strings.
    pub fn link(&self, static_lib: bool) -> (r: Result<Vec<link::LinkDirective>, link::RubyLinkError>)
        ensures
            ({
                let cfg = self.spec_config();
                let target = spec_lookup(cfg, "target"@);
                let msvc = text::contains_seq(target, "msvc"@) || text::contains_seq(
                    target,
                    "mswin"@,
                );
                let args = spec_lookup(
                    cfg,
                    if static_lib {
                        "LIBRUBYARG_STATIC"@
                    } else {
                        "LIBRUBYARG_SHARED"@
                    },
                );
                let so = spec_lookup(cfg, "SOLIBS"@);
                let aux = spec_lookup(
                    cfg,
                    if static_lib {
                        "MAINLIBS"@
                    } else {
                        "LIBS"@
                    },
                );
                let ruby_lib = spec_lookup(cfg, "RUBY_SO_NAME"@) + (if static_lib {
                    "-static"@
                } else {
                    Seq::<char>::empty()
                });
                match r {
                    Ok(ds) => link::spec_translate(static_lib, msvc, ruby_lib, args, so, aux)
                        matches Ok(tail) && ds.deep_view() == seq![
                        link::DirectiveView::SearchPath(
                            link::SearchPathKind::Native,
                            self.spec_lib_dir(),
                        ),
                    ] + tail,
                    Err(e) => link::spec_translate(static_lib, msvc, ruby_lib, args, so, aux)
                        == Err::<Seq<link::DirectiveView>, link::LinkErrView>(e@),
                }
            }),
    {
        let target = self.unwrap_config("target");
        let msvc = text::contains_str(target.as_str(), "msvc") || text::contains_str(
            target.as_str(),
            "mswin",
        );
        let args = if static_lib {
            self.unwrap_config("LIBRUBYARG_STATIC")
        } else {
            self.unwrap_config("LIBRUBYARG_SHARED")
        };
        let so = self.unwrap_config("SOLIBS");
        let aux = if static_lib {
            self.unwrap_config("MAINLIBS")
        } else {
            self.unwrap_config("LIBS")
        };
        let ruby_lib = match self.lib_name(static_lib) {
            Ok(v) => v,
            Err(_) => {
                proof {
                    assert(false);
                }
                String::new()
            },
        };
        match link::translate_link_args(
            static_lib,
            msvc,
            ruby_lib.as_str(),
            args.as_str(),
            so.as_str(),
            aux.as_str(),
        ) {
            Ok(mut tail) => {
                let mut out: Vec<link::LinkDirective> = Vec::new();
                out.push(
                    link::LinkDirective::SearchPath(
                        link::SearchPathKind::Native,
                        self.lib_dir.clone(),
                    ),
                );
                let ghost tail_view = tail.deep_view();
                out.append(&mut tail);
                proof {
                    assert(out.deep_view() =~= seq![
                        link::DirectiveView::SearchPath(
                            link::SearchPathKind::Native,
                            self.spec_lib_dir(),
                        ),
                    ] + tail_view);
                }
                Ok(out)
            },
            Err(e) => Err(e),
        }
    }

    /// The stored configuration value for `key`.
    fn unwrap_config(&self, key: &str) -> (r: String)
        ensures
            r@ == spec_lookup(self.spec_config(), key@),
    {
        match self.get_config(key) {
            Ok(v) => v,
            Err(_) => {
                proof {
                    assert(false);
                }
                String::new()
            },
        }
    }
}

} // verus!
