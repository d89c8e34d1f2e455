//! Translation of the Ruby runtime's reported linker-argument strings into
//! structured link directives: the runtime's own library, the libraries it
//! already links dynamically, and the flags of the primary link-argument
//! string, deduplicated and classified.

use vstd::prelude::*;

use crate::text::{
    all_whitespace, all_ws, str_eq, tokenize, ws_tokens,
};
use crate::RubyExecError;

verus! {

/// Where a search path points.
#[derive(Clone, Copy, Debug, PartialEq, Eq, Structural)]
pub enum SearchPathKind {
    /// A directory searched for native libraries.
    Native,
    /// A directory searched for frameworks.
    Framework,
}

/// One structured instruction for the embedding build system's linker.
#[derive(Clone, Debug)]
pub enum LinkDirective {
    /// Link the named library statically.
    StaticLibrary(String),
    /// Link the named library dynamically.
    DynamicLibrary(String),
    /// Link the named framework.
    Framework(String),
    /// Search the given directory; emitted before the libraries needing it.
    SearchPath(SearchPathKind, String),
}

/// The mathematical value of a [`LinkDirective`].
pub enum DirectiveView {
    /// Link the named library statically.
    StaticLibrary(Seq<char>),
    /// Link the named library dynamically.
    DynamicLibrary(Seq<char>),
    /// Link the named framework.
    Framework(Seq<char>),
    /// Search the given directory.
    SearchPath(SearchPathKind, Seq<char>),
}

impl View for LinkDirective {
    type V = DirectiveView;

    open spec fn view(&self) -> DirectiveView {
        match self {
            LinkDirective::StaticLibrary(s) => DirectiveView::StaticLibrary(s@),
            LinkDirective::DynamicLibrary(s) => DirectiveView::DynamicLibrary(s@),
            LinkDirective::Framework(s) => DirectiveView::Framework(s@),
            LinkDirective::SearchPath(k, s) => DirectiveView::SearchPath(*k, s@),
        }
    }
}

impl DeepView for LinkDirective {
    type V = DirectiveView;

    open spec fn deep_view(&self) -> DirectiveView {
        self.view()
    }
}

/// The error returned when linking to the Ruby library and its dependencies
/// fails.
#[derive(Debug)]
pub enum RubyLinkError {
    /// Failed to execute the `ruby` binary.
    Exec(RubyExecError),
    /// One or more flags provided by `ruby` have no rules to handle them.
    UnknownFlags(String),
    /// A `-framework` flag was found with no argument.
    MissingFramework(String),
    /// Libraries for the type of linking could not be found.
    MissingLibs {
        /// Whether linking to Ruby statically.
        static_lib: bool,
    },
    /// An environment variable required for linking is missing.
    MissingEnvVar(String),
    /// An I/O error occurred; the payload describes it.
    Io(String),
}

/// The mathematical value of a [`RubyLinkError`].
pub enum LinkErrView {
    /// Failed to execute the `ruby` binary.
    Exec,
    /// A flag with no rule to handle it, with the whole argument string.
    UnknownFlags(Seq<char>),
    /// A `-framework` flag with no argument, with the whole argument string.
    MissingFramework(Seq<char>),
    /// No libraries for the requested kind of linking.
    MissingLibs(bool),
    /// A missing environment variable, by name.
    MissingEnvVar(Seq<char>),
    /// An I/O error.
    Io,
}

impl View for RubyLinkError {
    type V = LinkErrView;

    open spec fn view(&self) -> LinkErrView {
        match self {
            RubyLinkError::Exec(_) => LinkErrView::Exec,
            RubyLinkError::UnknownFlags(s) => LinkErrView::UnknownFlags(s@),
            RubyLinkError::MissingFramework(s) => LinkErrView::MissingFramework(s@),
            RubyLinkError::MissingLibs { static_lib } => LinkErrView::MissingLibs(*static_lib),
            RubyLinkError::MissingEnvVar(s) => LinkErrView::MissingEnvVar(s@),
            RubyLinkError::Io(_) => LinkErrView::Io,
        }
    }
}

/// The library name carried by one dependency token: POSIX-style tokens drop
/// a two-character `-l` prefix, MSVC-style tokens drop a four-character
/// `.lib` suffix; a token too short for its affix yields the empty name.
pub open spec fn spec_lib_name(msvc: bool, tok: Seq<char>) -> Seq<char> {
    if msvc {
        if tok.len() >= 4 {
            tok.subrange(0, tok.len() - 4)
        } else {
            Seq::empty()
        }
    } else {
        if tok.len() >= 2 {
            tok.subrange(2, tok.len() as int)
        } else {
            Seq::empty()
        }
    }
}

/// Folds the library names of `toks` into `acc`, keeping first occurrences
/// and their order and dropping repeats.
pub open spec fn spec_add_names(acc: Seq<Seq<char>>, toks: Seq<Seq<char>>, msvc: bool) -> Seq<
    Seq<char>,
>
    decreases toks.len(),
{
    if toks.len() == 0 {
        acc
    } else {
        let n = spec_lib_name(msvc, toks[0]);
        let acc2 = if acc.contains(n) {
            acc
        } else {
            acc.push(n)
        };
        spec_add_names(acc2, toks.drop_first(), msvc)
    }
}

/// The placeholder the runtime reports when a dependency set is absent.
pub open spec fn nil_token() -> Seq<char> {
    seq!['n', 'i', 'l']
}

/// The literal flag that names a framework in the following token.
pub open spec fn framework_flag() -> Seq<char> {
    seq!['-', 'f', 'r', 'a', 'm', 'e', 'w', 'o', 'r', 'k']
}

/// The directives read off the primary link-argument tokens: `-l` names a
/// dynamic library unless already covered, `-L` and `-F` name search paths,
/// `-W`-flags pass through silently, `-framework` consumes the next token,
/// and anything else is a malformed-configuration error carrying the whole
/// argument string.
pub open spec fn spec_args_dirs(
    toks: Seq<Seq<char>>,
    ruby_lib: Seq<char>,
    seen: Seq<Seq<char>>,
    args: Seq<char>,
) -> Result<Seq<DirectiveView>, LinkErrView>
    decreases toks.len(),
{
    if toks.len() == 0 {
        Ok(Seq::empty())
    } else {
        let t = toks[0];
        if t.len() < 2 {
            Err(LinkErrView::UnknownFlags(args))
        } else if t[0] == '-' && t[1] == 'l' {
            let val = t.subrange(2, t.len() as int);
            match spec_args_dirs(toks.drop_first(), ruby_lib, seen, args) {
                Ok(ds) => if val == ruby_lib || seen.contains(val) {
                    Ok(ds)
                } else {
                    Ok(seq![DirectiveView::DynamicLibrary(val)] + ds)
                },
                Err(e) => Err(e),
            }
        } else if t[0] == '-' && t[1] == 'L' {
            let val = t.subrange(2, t.len() as int);
            match spec_args_dirs(toks.drop_first(), ruby_lib, seen, args) {
                Ok(ds) => Ok(seq![DirectiveView::SearchPath(SearchPathKind::Native, val)] + ds),
                Err(e) => Err(e),
            }
        } else if t[0] == '-' && t[1] == 'F' {
            let val = t.subrange(2, t.len() as int);
            match spec_args_dirs(toks.drop_first(), ruby_lib, seen, args) {
                Ok(ds) => Ok(seq![DirectiveView::SearchPath(SearchPathKind::Framework, val)] + ds),
                Err(e) => Err(e),
            }
        } else if t[0] == '-' && t[1] == 'W' {
            spec_args_dirs(toks.drop_first(), ruby_lib, seen, args)
        } else if t == framework_flag() {
            if toks.len() == 1 {
                Err(LinkErrView::MissingFramework(args))
            } else {
                match spec_args_dirs(toks.skip(2), ruby_lib, seen, args) {
                    Ok(ds) => Ok(seq![DirectiveView::Framework(toks[1])] + ds),
                    Err(e) => Err(e),
                }
            }
        } else {
            Err(LinkErrView::UnknownFlags(args))
        }
    }
}

/// What translating one link configuration yields.  A whitespace-only
/// primary string is refused.  Otherwise the output starts with the
/// runtime's own library, static or dynamic as requested, followed by every
/// already-linked dependency as a dynamic library, in first-occurrence
/// order over the auxiliary set and the shared-object set; on MSVC-style
/// platforms the primary string is not parsed further, and otherwise its
/// token directives follow.
pub open spec fn spec_translate(
    static_lib: bool,
    msvc: bool,
    ruby_lib: Seq<char>,
    args: Seq<char>,
    so_libs: Seq<char>,
    aux_libs: Seq<char>,
) -> Result<Seq<DirectiveView>, LinkErrView> {
    if all_ws(args) {
        Err(LinkErrView::MissingLibs(static_lib))
    } else {
        let aux = if aux_libs == nil_token() {
            Seq::<char>::empty()
        } else {
            aux_libs
        };
        let seen = spec_add_names(
            spec_add_names(Seq::empty(), ws_tokens(aux), msvc),
            ws_tokens(so_libs),
            msvc,
        );
        let head = if static_lib {
            DirectiveView::StaticLibrary(ruby_lib)
        } else {
            DirectiveView::DynamicLibrary(ruby_lib)
        };
        let dyns = dyn_directives(seen);
        if msvc {
            Ok(seq![head] + dyns)
        } else {
            match spec_args_dirs(ws_tokens(args), ruby_lib, seen, args) {
                Ok(ds) => Ok(seq![head] + dyns + ds),
                Err(e) => Err(e),
            }
        }
    }
}

/// Every name of `names`, as a dynamic-library directive, in order.
pub open spec fn dyn_directives(names: Seq<Seq<char>>) -> Seq<DirectiveView> {
    names.map_values(|n: Seq<char>| DirectiveView::DynamicLibrary(n))
}

/// An all-whitespace (in particular, empty) primary link-argument string is
/// always refused as `MissingLibs`, whatever the other inputs.
pub proof fn lemma_empty_args_refused(
    static_lib: bool,
    msvc: bool,
    ruby_lib: Seq<char>,
    args: Seq<char>,
    so_libs: Seq<char>,
    aux_libs: Seq<char>,
)
    requires
        all_ws(args),
    ensures
        spec_translate(static_lib, msvc, ruby_lib, args, so_libs, aux_libs) == Err::<
            Seq<DirectiveView>,
            LinkErrView,
        >(LinkErrView::MissingLibs(static_lib)),
{
}

/// The library name carried by one dependency token.
fn lib_name_of(msvc: bool, tok: &str) -> (r: String)
    ensures
        r@ == spec_lib_name(msvc, tok@),
{
    let len = tok.unicode_len();
    let r = if msvc {
        if len >= 4 {
            String::from_str(tok.substring_char(0, len - 4))
        } else {
            String::new()
        }
    } else {
        if len >= 2 {
            String::from_str(tok.substring_char(2, len))
        } else {
            String::new()
        }
    };
    proof {
        assert(r@ =~= spec_lib_name(msvc, tok@));
    }
    r
}

/// Whether `x` is among `names`.
fn names_contain(names: &Vec<String>, x: &str) -> (r: bool)
    ensures
        r == names.deep_view().contains(x@),
{
    let mut i: usize = 0;
    let n = names.len();
    while i < n
        invariant
            n == names.len(),
            0 <= i <= n,
            forall|j: int| 0 <= j < i ==> names.deep_view()[j] != x@,
        decreases n - i,
    {
        if str_eq(names[i].as_str(), x) {
            proof {
                assert(names.deep_view()[i as int] == x@);
            }
            return true;
        }
        i += 1;
    }
    proof {
        assert(!names.deep_view().contains(x@));
    }
    false
}

/// Folds the library names of `toks` into `seen`, keeping first occurrences.
fn add_names(seen: &mut Vec<String>, toks: &Vec<String>, msvc: bool)
    ensures
        final(seen).deep_view() == spec_add_names(old(seen).deep_view(), toks.deep_view(), msvc),
{
    let n = toks.len();
    proof {
        assert(toks.deep_view().skip(0) =~= toks.deep_view());
    }
    let mut i: usize = 0;
    while i < n
        invariant
            n == toks.len(),
            0 <= i <= n,
            spec_add_names(old(seen).deep_view(), toks.deep_view(), msvc) == spec_add_names(
                seen.deep_view(),
                toks.deep_view().skip(i as int),
                msvc,
            ),
        decreases n - i,
    {
        let ghost pre_seen = seen.deep_view();
        let name = lib_name_of(msvc, toks[i].as_str());
        proof {
            assert(toks.deep_view().skip(i as int)[0] == toks.deep_view()[i as int]);
            assert(toks.deep_view()[i as int] == toks@[i as int]@);
        }
        if !names_contain(seen, name.as_str()) {
            seen.push(name);
            proof {
                assert(seen.deep_view() =~= pre_seen.push(spec_lib_name(msvc, toks@[i as int]@)));
            }
        }
        proof {
            assert(toks.deep_view().skip(i as int).drop_first() =~= toks.deep_view().skip(i + 1));
        }
        i += 1;
    }
    proof {
        assert(toks.deep_view().skip(n as int) =~= Seq::<Seq<char>>::empty());
    }
}

/// Translates one link configuration into its directive sequence, exactly as
/// [`spec_translate`] describes: `ruby_lib` is the runtime's own library
/// name, `args` the primary link-argument string selected by
/// `static_lib`, `so_libs` the runtime's shared-object dependencies and
/// `aux_libs` its auxiliary, always-dynamic dependencies.
pub fn translate_link_args(
    static_lib: bool,
    msvc: bool,
    ruby_lib: &str,
    args: &str,
    so_libs: &str,
    aux_libs: &str,
) -> (r: Result<Vec<LinkDirective>, RubyLinkError>)
    ensures
        match r {
            Ok(ds) => spec_translate(static_lib, msvc, ruby_lib@, args@, so_libs@, aux_libs@)
                == Ok::<Seq<DirectiveView>, LinkErrView>(ds.deep_view()),
            Err(e) => spec_translate(static_lib, msvc, ruby_lib@, args@, so_libs@, aux_libs@)
                == Err::<Seq<DirectiveView>, LinkErrView>(e@),
        },
{
    if all_whitespace(args) {
        return Err(RubyLinkError::MissingLibs { static_lib });
    }
    let aux_is_nil = str_eq(aux_libs, "nil");
    proof {
        reveal_strlit("nil");
        assert("nil"@ =~= nil_token());
    }
    let aux_tokens = if aux_is_nil {
        Vec::<String>::new()
    } else {
        tokenize(aux_libs)
    };
    proof {
        let aux = if aux_libs@ == nil_token() {
            Seq::<char>::empty()
        } else {
            aux_libs@
        };
        if aux_is_nil {
            assert(ws_tokens(Seq::<char>::empty()) =~= Seq::<Seq<char>>::empty());
            assert(aux_tokens.deep_view() =~= Seq::<Seq<char>>::empty());
        }
        assert(aux_tokens.deep_view() == ws_tokens(aux));
    }
    let so_tokens = tokenize(so_libs);

    let mut seen: Vec<String> = Vec::new();
    proof {
        assert(seen.deep_view() =~= Seq::<Seq<char>>::empty());
    }
    add_names(&mut seen, &aux_tokens, msvc);
    add_names(&mut seen, &so_tokens, msvc);
    let ghost seen_names = seen.deep_view();

    let mut out: Vec<LinkDirective> = Vec::new();
    if static_lib {
        out.push(LinkDirective::StaticLibrary(String::from_str(ruby_lib)));
    } else {
        out.push(LinkDirective::DynamicLibrary(String::from_str(ruby_lib)));
    }
    let ghost head = if static_lib {
        DirectiveView::StaticLibrary(ruby_lib@)
    } else {
        DirectiveView::DynamicLibrary(ruby_lib@)
    };
    let mut k: usize = 0;
    let n_seen = seen.len();
    while k < n_seen
        invariant
            n_seen == seen.len(),
            seen.deep_view() == seen_names,
            0 <= k <= n_seen,
            out.deep_view() =~= seq![head] + dyn_directives(seen_names.subrange(0, k as int)),
        decreases n_seen - k,
    {
        let ghost pre_out = out.deep_view();
        out.push(LinkDirective::DynamicLibrary(seen[k].clone()));
        proof {
            assert(out.deep_view() =~= pre_out.push(
                DirectiveView::DynamicLibrary(seen_names[k as int]),
            ));
            assert(dyn_directives(seen_names.subrange(0, k + 1)) =~= dyn_directives(
                seen_names.subrange(0, k as int),
            ).push(DirectiveView::DynamicLibrary(seen_names[k as int])));
        }
        k += 1;
    }
    let ghost dyns = dyn_directives(seen_names);
    proof {
        assert(seen_names.subrange(0, n_seen as int) =~= seen_names);
        assert(out.deep_view() =~= seq![head] + dyns);
    }
    if msvc {
        return Ok(out);
    }

    let arg_tokens = tokenize(args);
    let n_toks = arg_tokens.len();
    let ghost toks = arg_tokens.deep_view();
    proof {
        assert(toks.skip(0) =~= toks);
    }
    let ghost base = out.deep_view();
    let mut i: usize = 0;
    while i < n_toks
        invariant
            !msvc,
            n_toks == arg_tokens.len(),
            arg_tokens.deep_view() == toks,
            seen.deep_view() == seen_names,
            0 <= i <= n_toks,
            spec_translate(static_lib, false, ruby_lib@, args@, so_libs@, aux_libs@) == match
                spec_args_dirs(toks.skip(i as int), ruby_lib@, seen_names, args@) {
                Ok(ds) => Ok::<Seq<DirectiveView>, LinkErrView>(out.deep_view() + ds),
                Err(e) => Err::<Seq<DirectiveView>, LinkErrView>(e),
            },
        decreases n_toks - i,
    {
        let tok = arg_tokens[i].as_str();
        let tok_len = tok.unicode_len();
        proof {
            assert(toks.skip(i as int)[0] == toks[i as int]);
            assert(toks[i as int] == arg_tokens@[i as int]@);
        }
        if tok_len < 2 {
            return Err(RubyLinkError::UnknownFlags(String::from_str(args)));
        }
        let c0 = tok.get_char(0);
        let c1 = tok.get_char(1);
        let ghost remaining = toks.skip(i as int);
        proof {
            assert(remaining.drop_first() =~= toks.skip(i + 1));
        }
        if c0 == '-' && c1 == 'l' {
            let val = tok.substring_char(2, tok_len);
            let is_seen = str_eq(val, ruby_lib) || names_contain(&seen, val);
            if !is_seen {
                let ghost pre_out = out.deep_view();
                out.push(LinkDirective::DynamicLibrary(String::from_str(val)));
                proof {
                    assert(out.deep_view() =~= pre_out + seq![
                        DirectiveView::DynamicLibrary(val@),
                    ]);
                    assert forall|ds: Seq<DirectiveView>|
                        true implies pre_out + (seq![DirectiveView::DynamicLibrary(val@)] + ds)
                        =~= out.deep_view() + ds by {}
                }
            }
            i += 1;
        } else if c0 == '-' && c1 == 'L' {
            let val = tok.substring_char(2, tok_len);
            let ghost pre_out = out.deep_view();
            out.push(
                LinkDirective::SearchPath(SearchPathKind::Native, String::from_str(val)),
            );
            proof {
                assert(out.deep_view() =~= pre_out + seq![
                    DirectiveView::SearchPath(SearchPathKind::Native, val@),
                ]);
                assert forall|ds: Seq<DirectiveView>|
                    true implies pre_out + (seq![
                    DirectiveView::SearchPath(SearchPathKind::Native, val@),
                ] + ds) =~= out.deep_view() + ds by {}
            }
            i += 1;
        } else if c0 == '-' && c1 == 'F' {
            let val = tok.substring_char(2, tok_len);
            let ghost pre_out = out.deep_view();
            out.push(
                LinkDirective::SearchPath(SearchPathKind::Framework, String::from_str(val)),
            );
            proof {
                assert(out.deep_view() =~= pre_out + seq![
                    DirectiveView::SearchPath(SearchPathKind::Framework, val@),
                ]);
                assert forall|ds: Seq<DirectiveView>|
                    true implies pre_out + (seq![
                    DirectiveView::SearchPath(SearchPathKind::Framework, val@),
                ] + ds) =~= out.deep_view() + ds by {}
            }
            i += 1;
        } else if c0 == '-' && c1 == 'W' {
            i += 1;
        } else if str_eq(tok, "-framework") {
            proof {
                reveal_strlit("-framework");
                assert("-framework"@ =~= framework_flag());
            }
            if i + 1 >= n_toks {
                return Err(RubyLinkError::MissingFramework(String::from_str(args)));
            }
            let fw = arg_tokens[i + 1].clone();
            let ghost pre_out = out.deep_view();
            out.push(LinkDirective::Framework(fw));
            proof {
                assert(toks[i + 1] == arg_tokens@[i + 1]@);
                assert(remaining[1] == toks[i + 1]);
                assert(remaining.skip(2) =~= toks.skip(i + 2));
                assert(out.deep_view() =~= pre_out + seq![
                    DirectiveView::Framework(toks[i + 1]),
                ]);
                assert forall|ds: Seq<DirectiveView>|
                    true implies pre_out + (seq![DirectiveView::Framework(toks[i + 1])] + ds)
                    =~= out.deep_view() + ds by {}
            }
            i += 2;
        } else {
            proof {
                reveal_strlit("-framework");
                assert("-framework"@ =~= framework_flag());
            }
            return Err(RubyLinkError::UnknownFlags(String::from_str(args)));
        }
    }
    proof {
        assert(toks.skip(n_toks as int) =~= Seq::<Seq<char>>::empty());
        assert(out.deep_view() + Seq::<DirectiveView>::empty() =~= out.deep_view());
    }
    Ok(out)
}

} // verus!
