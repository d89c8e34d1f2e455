//! Ruby version identifiers: the parsing grammar, the pre-release-aware
//! ordering, the canonical rendering, and the archive name and download URL
//! derived from a version.

use core::cmp::Ordering;
use vstd::prelude::*;

use crate::text::{
    absent, find, find_char, lemma_digits_absent, lemma_find_char_at, lemma_find_char_concat,
    lemma_find_char_none, lemma_nat_digits_are_digits, lemma_parse_u16_of_digits, lex_cmp,
    nat_digits, parse_u16, push_u16, spec_parse_u16, str_eq, str_lex_cmp, NumError,
};

verus! {

/// A simple Ruby version.
#[derive(Clone, Debug)]
pub struct Version {
    /// `X.y.z`.
    pub major: u16,
    /// `x.Y.z`.
    pub minor: u16,
    /// `x.y.Z`.
    pub teeny: u16,
    /// The pre-release identifier for `self`.
    pub pre: Option<String>,
}

/// The mathematical value of a [`Version`].
#[verifier::ext_equal]
pub struct VersionView {
    /// `X.y.z`.
    pub major: u16,
    /// `x.Y.z`.
    pub minor: u16,
    /// `x.y.Z`.
    pub teeny: u16,
    /// The pre-release tag, as a character sequence.
    pub pre: Option<Seq<char>>,
}

impl View for Version {
    type V = VersionView;

    open spec fn view(&self) -> VersionView {
        VersionView {
            major: self.major,
            minor: self.minor,
            teeny: self.teeny,
            pre: match self.pre {
                Some(p) => Some(p@),
                None => None,
            },
        }
    }
}

/// The error returned when parsing a string into a `Version` fails.
#[derive(Clone, Copy, Debug, PartialEq, Eq, Structural)]
pub enum VersionParseError {
    /// 'x.Y' missing.
    MinorMissing,
    /// 'x.y.Z' missing.
    TeenyMissing,
    /// Invalid 'X.y.z'.
    MajorInt(NumError),
    /// Invalid 'x.Y.z'.
    MinorInt(NumError),
    /// Invalid 'x.y.Z'.
    TeenyInt(NumError),
    /// The input was not valid UTF-8 text.
    Utf8,
    /// The input could not be read as Unicode text at all.
    InvalidUnicode,
}

/// Splits `s` at the first occurrence of `c`: the part before it, and, when
/// `c` occurs, the part after it.
pub open spec fn split_on(s: Seq<char>, c: char) -> (Seq<char>, Option<Seq<char>>) {
    match find_char(s, c) {
        Some(i) => (s.subrange(0, i), Some(s.subrange(i + 1, s.len() as int))),
        None => (s, None),
    }
}

/// The version grammar.  An optional pre-release tag is split off at the
/// first `'-'`; the remainder must consist of one to three numeric segments
/// separated by `'.'`.  Missing segments default to zero unless the chosen
/// strictness requires them.
pub open spec fn spec_parse_version(require_minor: bool, require_teeny: bool, s: Seq<char>) -> Result<
    VersionView,
    VersionParseError,
> {
    let (num, pre) = split_on(s, '-');
    let (first, after_first) = split_on(num, '.');
    match after_first {
        None => {
            if require_minor {
                Err(VersionParseError::MinorMissing)
            } else {
                match spec_parse_u16(first) {
                    Ok(major) => Ok(VersionView { major, minor: 0, teeny: 0, pre }),
                    Err(e) => Err(VersionParseError::MajorInt(e)),
                }
            }
        },
        Some(rest) => {
            match spec_parse_u16(first) {
                Err(e) => Err(VersionParseError::MajorInt(e)),
                Ok(major) => {
                    let (second, after_second) = split_on(rest, '.');
                    match after_second {
                        None => {
                            if require_teeny {
                                Err(VersionParseError::TeenyMissing)
                            } else {
                                match spec_parse_u16(second) {
                                    Ok(minor) => Ok(VersionView { major, minor, teeny: 0, pre }),
                                    Err(e) => Err(VersionParseError::MinorInt(e)),
                                }
                            }
                        },
                        Some(third) => {
                            match spec_parse_u16(second) {
                                Err(e) => Err(VersionParseError::MinorInt(e)),
                                Ok(minor) => {
                                    match spec_parse_u16(third) {
                                        Ok(teeny) => Ok(
                                            VersionView { major, minor, teeny, pre },
                                        ),
                                        Err(e) => Err(VersionParseError::TeenyInt(e)),
                                    }
                                },
                            }
                        },
                    }
                },
            }
        },
    }
}

/// The canonical rendering `major.minor.teeny[-pre]`.
pub open spec fn spec_render(v: VersionView) -> Seq<char> {
    nat_digits(v.major as int) + seq!['.'] + nat_digits(v.minor as int) + seq!['.'] + nat_digits(
        v.teeny as int,
    ) + match v.pre {
        Some(p) => seq!['-'] + p,
        None => Seq::<char>::empty(),
    }
}

/// A `Version` parser that can be configured to varying levels of strictness.
#[derive(Clone, Copy, Debug)]
pub struct VersionParser {
    require_minor: bool,
    require_teeny: bool,
}

impl VersionParser {
    /// Which segments this parser requires.
    pub closed spec fn strictness(&self) -> (bool, bool) {
        (self.require_minor, self.require_teeny)
    }

    /// Creates a new instance with optional minor and teeny versions.
    pub fn new() -> (r: Self)
        ensures
            r.strictness() == (false, false),
    {
        VersionParser { require_minor: false, require_teeny: false }
    }

    /// Sets `self` to require `x.y`.
    pub fn require_minor(&mut self)
        ensures
            final(self).strictness() == (true, old(self).strictness().1),
    {
        self.require_minor = true;
    }

    /// Sets `self` to require `x.y.z`.
    pub fn require_all(&mut self)
        ensures
            final(self).strictness() == (true, true),
    {
        self.require_minor = true;
        self.require_teeny = true;
    }

    /// Convert `s` into a `Version` based on the rules defined on `self`:
    /// exactly the grammar of [`spec_parse_version`].
    pub fn parse(&self, s: &str) -> (r: Result<Version, VersionParseError>)
        ensures
            match r {
                Ok(v) => spec_parse_version(self.strictness().0, self.strictness().1, s@) == Ok::<
                    VersionView,
                    VersionParseError,
                >(v@),
                Err(e) => spec_parse_version(self.strictness().0, self.strictness().1, s@) == Err::<
                    VersionView,
                    VersionParseError,
                >(e),
            },
    {
        let len = s.unicode_len();
        let (num, pre): (&str, Option<&str>) = match find(s, '-') {
            Some(i) => (s.substring_char(0, i), Some(s.substring_char(i + 1, len))),
            None => (s, None),
        };
        let num_len = num.unicode_len();
        let (first, after_first): (&str, Option<&str>) = match find(num, '.') {
            Some(i) => (num.substring_char(0, i), Some(num.substring_char(i + 1, num_len))),
            None => (num, None),
        };
        let ghost pre_view: Option<Seq<char>> = match pre {
            Some(p) => Some(p@),
            None => None,
        };
        match after_first {
            None => {
                if self.require_minor {
                    return Err(VersionParseError::MinorMissing);
                }
                match parse_u16(first) {
                    Ok(major) => Ok(
                        Version { major, minor: 0, teeny: 0, pre: Self::own_pre(pre) },
                    ),
                    Err(e) => Err(VersionParseError::MajorInt(e)),
                }
            },
            Some(rest) => {
                let major = match parse_u16(first) {
                    Ok(major) => major,
                    Err(e) => {
                        return Err(VersionParseError::MajorInt(e));
                    },
                };
                let rest_len = rest.unicode_len();
                let (second, after_second): (&str, Option<&str>) = match find(rest, '.') {
                    Some(i) => (rest.substring_char(0, i), Some(rest.substring_char(i + 1, rest_len))),
                    None => (rest, None),
                };
                match after_second {
                    None => {
                        if self.require_teeny {
                            return Err(VersionParseError::TeenyMissing);
                        }
                        match parse_u16(second) {
                            Ok(minor) => Ok(
                                Version { major, minor, teeny: 0, pre: Self::own_pre(pre) },
                            ),
                            Err(e) => Err(VersionParseError::MinorInt(e)),
                        }
                    },
                    Some(third) => {
                        match parse_u16(second) {
                            Err(e) => Err(VersionParseError::MinorInt(e)),
                            Ok(minor) => {
                                match parse_u16(third) {
                                    Ok(teeny) => Ok(
                                        Version { major, minor, teeny, pre: Self::own_pre(pre) },
                                    ),
                                    Err(e) => Err(VersionParseError::TeenyInt(e)),
                                }
                            },
                        }
                    },
                }
            },
        }
    }

    /// Turns a borrowed pre-release tag into an owned one.
    fn own_pre(pre: Option<&str>) -> (r: Option<String>)
        ensures
            match r {
                Some(p) => pre is Some && p@ == pre->0@,
                None => pre is None,
            },
    {
        match pre {
            Some(p) => Some(String::from_str(p)),
            None => None,
        }
    }
}

impl Version {
    /// Creates a new instance from `major`, `minor`, and `teeny`.
    pub fn new(major: u16, minor: u16, teeny: u16) -> (r: Self)
        ensures
            r@ == (VersionView { major, minor, teeny, pre: None }),
    {
        Version { major, minor, teeny, pre: None }
    }

    /// Creates a new instance from `major`, `minor`, `teeny`, and `pre`.
    pub fn with_pre(major: u16, minor: u16, teeny: u16, pre: &str) -> (r: Self)
        ensures
            r@ == (VersionView { major, minor, teeny, pre: Some(pre@) }),
    {
        Version { major, minor, teeny, pre: Some(String::from_str(pre)) }
    }

    /// Returns the pre-release identifier string for `self`.
    pub fn pre(&self) -> (r: Option<&str>)
        ensures
            match r {
                Some(p) => self@.pre == Some(p@),
                None => self@.pre is None,
            },
    {
        match &self.pre {
            Some(p) => Some(p.as_str()),
            None => None,
        }
    }

    /// Returns a parser that can be used to construct a `Version` out of a
    /// string through various configurations.
    pub fn parser() -> (r: VersionParser)
        ensures
            r.strictness() == (false, false),
    {
        VersionParser::new()
    }

    /// Renders `self` canonically as `major.minor.teeny[-pre]`.
    pub fn render(&self) -> (r: String)
        ensures
            r@ == spec_render(self@),
    {
        let mut out = String::new();
        push_u16(&mut out, self.major);
        out.append(".");
        push_u16(&mut out, self.minor);
        out.append(".");
        push_u16(&mut out, self.teeny);
        match &self.pre {
            Some(p) => {
                out.append("-");
                out.append(p.as_str());
            },
            None => {},
        }
        proof {
            reveal_strlit(".");
            reveal_strlit("-");
            assert("."@ =~= seq!['.']);
            assert("-"@ =~= seq!['-']);
            assert(out@ =~= spec_render(self@));
        }
        out
    }

    /// Returns the name of the archive file corresponding to `self`.
    pub fn archive_name(&self) -> (r: String)
        ensures
            r@ == "ruby-"@ + spec_render(self@) + ".tar.bz2"@,
    {
        let mut out = String::from_str("ruby-");
        let rendered = self.render();
        out.append(rendered.as_str());
        out.append(".tar.bz2");
        out
    }

    /// Returns an HTTPS URL for `self`: the `major.minor` directory, and the
    /// archive named after the full version.
    pub fn url(&self) -> (r: String)
        ensures
            r@ == "https://cache.ruby-lang.org/pub/ruby/"@ + nat_digits(self@.major as int)
                + seq!['.'] + nat_digits(self@.minor as int) + "/ruby-"@ + spec_render(self@)
                + ".tar.bz2"@,
    {
        let mut out = String::from_str("https://cache.ruby-lang.org/pub/ruby/");
        push_u16(&mut out, self.major);
        out.append(".");
        push_u16(&mut out, self.minor);
        out.append("/ruby-");
        let rendered = self.render();
        out.append(rendered.as_str());
        out.append(".tar.bz2");
        proof {
            reveal_strlit(".");
            assert("."@ =~= seq!['.']);
            assert(out@ =~= "https://cache.ruby-lang.org/pub/ruby/"@ + nat_digits(
                self@.major as int,
            ) + seq!['.'] + nat_digits(self@.minor as int) + "/ruby-"@ + spec_render(self@)
                + ".tar.bz2"@);
        }
        out
    }

    /// Compares `self` with `other` under the version ordering.
    pub fn compare(&self, other: &Version) -> (r: Ordering)
        ensures
            r == spec_cmp(self@, other@),
    {
        if self.major != other.major {
            return if self.major < other.major {
                Ordering::Less
            } else {
                Ordering::Greater
            };
        }
        if self.minor != other.minor {
            return if self.minor < other.minor {
                Ordering::Less
            } else {
                Ordering::Greater
            };
        }
        if self.teeny != other.teeny {
            return if self.teeny < other.teeny {
                Ordering::Less
            } else {
                Ordering::Greater
            };
        }
        match (&self.pre, &other.pre) {
            (None, None) => Ordering::Equal,
            (None, Some(_)) => Ordering::Greater,
            (Some(_), None) => Ordering::Less,
            (Some(a), Some(b)) => {
                let a_rc = starts_rc(a.as_str());
                let b_rc = starts_rc(b.as_str());
                if a_rc == b_rc {
                    str_lex_cmp(a.as_str(), b.as_str())
                } else if a_rc {
                    Ordering::Greater
                } else {
                    Ordering::Less
                }
            },
        }
    }
}

/// Whether a pre-release tag begins with the reserved token `"rc"`.
pub open spec fn spec_starts_rc(p: Seq<char>) -> bool {
    p.len() >= 2 && p[0] == 'r' && p[1] == 'c'
}

/// Whether `p` begins with the reserved token `"rc"`.
fn starts_rc(p: &str) -> (r: bool)
    ensures
        r == spec_starts_rc(p@),
{
    p.unicode_len() >= 2 && p.get_char(0) == 'r' && p.get_char(1) == 'c'
}

/// The version ordering: the numeric triple compares first, a release
/// outranks any pre-release of the same triple, an `"rc"` pre-release
/// outranks any other pre-release, and otherwise tags compare
/// lexicographically.
pub open spec fn spec_cmp(a: VersionView, b: VersionView) -> Ordering {
    if a.major != b.major {
        if a.major < b.major {
            Ordering::Less
        } else {
            Ordering::Greater
        }
    } else if a.minor != b.minor {
        if a.minor < b.minor {
            Ordering::Less
        } else {
            Ordering::Greater
        }
    } else if a.teeny != b.teeny {
        if a.teeny < b.teeny {
            Ordering::Less
        } else {
            Ordering::Greater
        }
    } else {
        match (a.pre, b.pre) {
            (None, None) => Ordering::Equal,
            (None, Some(_)) => Ordering::Greater,
            (Some(_), None) => Ordering::Less,
            (Some(x), Some(y)) => if spec_starts_rc(x) == spec_starts_rc(y) {
                lex_cmp(x, y)
            } else if spec_starts_rc(x) {
                Ordering::Greater
            } else {
                Ordering::Less
            },
        }
    }
}

impl PartialEq for Version {
    fn eq(&self, other: &Self) -> (r: bool) {
        let fields_eq = self.major == other.major && self.minor == other.minor && self.teeny
            == other.teeny;
        let pre_eq = match (&self.pre, &other.pre) {
            (None, None) => true,
            (Some(a), Some(b)) => str_eq(a.as_str(), b.as_str()),
            _ => false,
        };
        let r = fields_eq && pre_eq;
        proof {
            if r {
                assert(self@ =~= other@);
            }
        }
        r
    }
}

impl vstd::std_specs::cmp::PartialEqSpecImpl for Version {
    open spec fn obeys_eq_spec() -> bool {
        true
    }

    open spec fn eq_spec(&self, other: &Self) -> bool {
        self@ == other@
    }
}

impl PartialOrd for Version {
    fn partial_cmp(&self, other: &Self) -> (r: Option<Ordering>) {
        Some(self.compare(other))
    }
}

impl vstd::std_specs::cmp::PartialOrdSpecImpl for Version {
    open spec fn obeys_partial_cmp_spec() -> bool {
        true
    }

    open spec fn partial_cmp_spec(&self, other: &Self) -> Option<Ordering> {
        Some(spec_cmp(self@, other@))
    }
}

/// At an equal numeric triple, a release compares greater than any
/// pre-release, whatever its tag.
pub proof fn lemma_release_outranks_prerelease(a: VersionView, b: VersionView)
    requires
        a.major == b.major,
        a.minor == b.minor,
        a.teeny == b.teeny,
        a.pre is None,
        b.pre is Some,
    ensures
        spec_cmp(a, b) == Ordering::Greater,
        spec_cmp(b, a) == Ordering::Less,
{
}

/// At an equal numeric triple, a pre-release whose tag begins with `"rc"`
/// compares greater than one whose tag does not.
pub proof fn lemma_rc_outranks_other_prerelease(a: VersionView, b: VersionView)
    requires
        a.major == b.major,
        a.minor == b.minor,
        a.teeny == b.teeny,
        a.pre matches Some(x) && spec_starts_rc(x),
        b.pre matches Some(y) && !spec_starts_rc(y),
    ensures
        spec_cmp(a, b) == Ordering::Greater,
        spec_cmp(b, a) == Ordering::Less,
{
}

/// Failed to get a Ruby version from a `ruby` executable.
#[derive(Debug)]
pub enum RubyVersionError {
    /// Failed to run `ruby` or to read its output.
    Exec(crate::RubyExecError),
    /// Failed to parse the Ruby version as a `Version`.
    Parse(VersionParseError),
}

impl Version {
    /// Interprets the captured output of asking a `ruby` binary for its
    /// self-reported version: a successful run's output must decode as UTF-8
    /// and parse under the strictest grammar.
    pub fn from_output(output: crate::ExecOutput) -> (r: Result<Version, RubyVersionError>)
        ensures
            match r {
                Ok(v) => output.success && vstd::utf8::valid_utf8(output.stdout@)
                    && spec_parse_version(
                    true,
                    true,
                    vstd::utf8::decode_utf8(output.stdout@),
                ) == Ok::<VersionView, VersionParseError>(v@),
                Err(RubyVersionError::Parse(pe)) => output.success && vstd::utf8::valid_utf8(
                    output.stdout@,
                ) && spec_parse_version(true, true, vstd::utf8::decode_utf8(output.stdout@))
                    == Err::<VersionView, VersionParseError>(pe),
                Err(RubyVersionError::Exec(e)) => match e {
                    crate::RubyExecError::RunFail(o) => !output.success && o == output,
                    crate::RubyExecError::Utf8Error(b) => output.success
                        && !vstd::utf8::valid_utf8(output.stdout@) && b@ == output.stdout@,
                    crate::RubyExecError::ExecFail(_) => false,
                },
            },
    {
        let text = match crate::process_output(output) {
            Ok(s) => s,
            Err(e) => {
                return Err(RubyVersionError::Exec(e));
            },
        };
        let mut parser = VersionParser::new();
        parser.require_all();
        match parser.parse(text.as_str()) {
            Ok(v) => Ok(v),
            Err(e) => Err(RubyVersionError::Parse(e)),
        }
    }
}

/// Parsing undoes rendering: under the strictest grammar, the canonical
/// rendering of any version parses back to that version.
#[verifier::rlimit(60)]
pub proof fn lemma_parse_render_roundtrip(v: VersionView)
    ensures
        spec_parse_version(true, true, spec_render(v)) == Ok::<VersionView, VersionParseError>(v),
{
    let dmaj = nat_digits(v.major as int);
    let dmin = nat_digits(v.minor as int);
    let dtee = nat_digits(v.teeny as int);
    lemma_nat_digits_are_digits(v.major as int);
    lemma_nat_digits_are_digits(v.minor as int);
    lemma_nat_digits_are_digits(v.teeny as int);
    lemma_parse_u16_of_digits(v.major);
    lemma_parse_u16_of_digits(v.minor);
    lemma_parse_u16_of_digits(v.teeny);
    let dot = seq!['.'];
    let core = dmaj + dot + dmin + dot + dtee;
    let s = spec_render(v);

    lemma_digits_absent(dmaj, '-');
    lemma_digits_absent(dmin, '-');
    lemma_digits_absent(dtee, '-');
    assert(absent(dot, '-'));
    crate::text::lemma_absent_concat(dmaj, dot, '-');
    crate::text::lemma_absent_concat(dmaj + dot, dmin, '-');
    crate::text::lemma_absent_concat(dmaj + dot + dmin, dot, '-');
    crate::text::lemma_absent_concat(dmaj + dot + dmin + dot, dtee, '-');

    // The first '-' in the rendering, if any, sits exactly after the triple.
    let num: Seq<char> = split_on(s, '-').0;
    match v.pre {
        None => {
            assert(s =~= core);
            lemma_find_char_none(s, '-');
            assert(num == s);
        },
        Some(p) => {
            let tail = seq!['-'] + p;
            assert(s =~= core + tail);
            lemma_find_char_at(tail, '-', 0);
            lemma_find_char_concat(core, tail, '-');
            assert(find_char(s, '-') == Some(core.len() as int));
            assert(s.subrange(0, core.len() as int) =~= core);
            assert(s.subrange(core.len() as int + 1, s.len() as int) =~= p);
        },
    }
    assert(num =~= core);

    // The first '.' ends the major digits.
    lemma_digits_absent(dmaj, '.');
    let rest1 = dot + dmin + dot + dtee;
    assert(core =~= dmaj + rest1);
    lemma_find_char_at(rest1, '.', 0);
    lemma_find_char_concat(dmaj, rest1, '.');
    assert(find_char(num, '.') == Some(dmaj.len() as int));
    assert(num.subrange(0, dmaj.len() as int) =~= dmaj);
    let rest2 = num.subrange(dmaj.len() as int + 1, num.len() as int);
    assert(rest2 =~= dmin + dot + dtee);

    // The second '.' ends the minor digits.
    lemma_digits_absent(dmin, '.');
    let rest3 = dot + dtee;
    assert(rest2 =~= dmin + rest3);
    lemma_find_char_at(rest3, '.', 0);
    lemma_find_char_concat(dmin, rest3, '.');
    assert(find_char(rest2, '.') == Some(dmin.len() as int));
    assert(rest2.subrange(0, dmin.len() as int) =~= dmin);
    assert(rest2.subrange(dmin.len() as int + 1, rest2.len() as int) =~= dtee);

    assert(spec_parse_version(true, true, s) == Ok::<VersionView, VersionParseError>(
        VersionView { major: v.major, minor: v.minor, teeny: v.teeny, pre: v.pre },
    ));
    assert((VersionView { major: v.major, minor: v.minor, teeny: v.teeny, pre: v.pre }) =~= v);
}

} // verus!
