//! Paths as they cross the permission boundary.
//!
//! Three representations meet here:
//! - [`LegacyAppPathString`]: the native path text carried by the v2 wire format;
//! - [`PathUri`]: the canonical form, which also records the host the path belongs
//!   to and the path convention it is written in;
//! - [`AbsolutePathBuf`]: an absolute path on the local host.
//!
//! Conversions between them fail closed: a path that belongs to another host, or
//! that is written in another convention than the local one, is never turned into
//! a local path.
use vstd::prelude::*;

verus! {

/// The syntax in which a path is written.
#[derive(Clone, Copy, Debug, PartialEq, Eq, Structural)]
pub enum PathConvention {
    /// `/`-separated paths, absolute when they start with `/`.
    Posix,
    /// Drive-letter (`C:\`) or UNC (`\\server\share`) paths; `\` and `/` both separate.
    Windows,
}

/// The operating system the library runs on.
#[derive(Clone, Copy, Debug, PartialEq, Eq, Structural)]
pub enum Platform {
    MacOs,
    Linux,
    Windows,
    Other,
}

impl Platform {
    pub open spec fn spec_path_convention(self) -> PathConvention {
        if self == Platform::Windows {
            PathConvention::Windows
        } else {
            PathConvention::Posix
        }
    }

    /// The native path convention of the platform.
    #[verifier::when_used_as_spec(spec_path_convention)]
    pub fn path_convention(self) -> (c: PathConvention)
        ensures
            c == self.spec_path_convention(),
    {
        match self {
            Platform::Windows => PathConvention::Windows,
            _ => PathConvention::Posix,
        }
    }
}

/// Whether `ch` separates path components under convention `c`.
pub open spec fn is_separator(c: PathConvention, ch: char) -> bool {
    ch == '/' || (c == PathConvention::Windows && ch == '\\')
}

pub open spec fn is_ascii_letter(ch: char) -> bool {
    ('a' <= ch && ch <= 'z') || ('A' <= ch && ch <= 'Z')
}

/// Whether the text `s` is an absolute path under convention `c`.
pub open spec fn is_absolute(c: PathConvention, s: Seq<char>) -> bool {
    match c {
        PathConvention::Posix => s.len() > 0 && s[0] == '/',
        PathConvention::Windows => {
            ||| (s.len() >= 3 && is_ascii_letter(s[0]) && s[1] == ':' && is_separator(c, s[2]))
            ||| (s.len() >= 2 && s[0] == '\\' && s[1] == '\\')
        },
    }
}

/// Whether two path characters name the same thing under convention `c`: under Windows
/// both separators are alike and ASCII letters compare without case; under POSIX only
/// equal characters match.
pub open spec fn chars_match(c: PathConvention, a: char, b: char) -> bool {
    ||| a == b
    ||| (c == PathConvention::Windows && is_separator(c, a) && is_separator(c, b))
    ||| (c == PathConvention::Windows && 'A' <= a && a <= 'Z' && b as int == a as int + 32)
    ||| (c == PathConvention::Windows && 'A' <= b && b <= 'Z' && a as int == b as int + 32)
}

/// Whether the path text `p` lies within the directory `base`: it starts with `base`,
/// character by character as [`chars_match`] compares them, and either ends there or
/// continues past a component separator; a trailing separator of `base` is not needed
/// in `p`.
pub open spec fn path_within(c: PathConvention, base: Seq<char>, p: Seq<char>) -> bool {
    ||| {
        &&& base.len() <= p.len()
        &&& forall|j: int| 0 <= j < base.len() ==> chars_match(c, #[trigger] p[j], base[j])
        &&& {
            ||| p.len() == base.len()
            ||| (base.len() > 0 && is_separator(c, base[base.len() - 1]))
            ||| is_separator(c, p[base.len() as int])
        }
    }
    ||| {
        &&& base.len() == p.len() + 1
        &&& is_separator(c, base[base.len() - 1])
        &&& forall|j: int| 0 <= j < p.len() ==> chars_match(c, #[trigger] p[j], base[j])
    }
}

fn chars_match_exec(c: PathConvention, a: char, b: char) -> (r: bool)
    ensures
        r == chars_match(c, a, b),
{
    if a == b {
        return true;
    }
    match c {
        PathConvention::Posix => false,
        PathConvention::Windows => {
            let an = a as u32;
            let bn = b as u32;
            (char_is_separator(c, a) && char_is_separator(c, b))
                || ('A' <= a && a <= 'Z' && bn == an + 32)
                || ('A' <= b && b <= 'Z' && an == bn + 32)
        },
    }
}

fn char_is_separator(c: PathConvention, ch: char) -> (r: bool)
    ensures
        r == is_separator(c, ch),
{
    ch == '/' || (c == PathConvention::Windows && ch == '\\')
}

fn char_is_ascii_letter(ch: char) -> (r: bool)
    ensures
        r == is_ascii_letter(ch),
{
    ('a' <= ch && ch <= 'z') || ('A' <= ch && ch <= 'Z')
}

/// Decides [`is_absolute`] on a string.
pub fn text_is_absolute(c: PathConvention, s: &str) -> (r: bool)
    ensures
        r == is_absolute(c, s@),
{
    let n = s.unicode_len();
    match c {
        PathConvention::Posix => n > 0 && s.get_char(0) == '/',
        PathConvention::Windows => {
            if n >= 3 && char_is_ascii_letter(s.get_char(0)) && s.get_char(1) == ':'
                && char_is_separator(c, s.get_char(2)) {
                true
            } else {
                n >= 2 && s.get_char(0) == '\\' && s.get_char(1) == '\\'
            }
        },
    }
}

/// Decides [`path_within`] on strings.
pub fn text_is_within(c: PathConvention, base: &str, p: &str) -> (r: bool)
    ensures
        r == path_within(c, base@, p@),
{
    let blen = base.unicode_len();
    let plen = p.unicode_len();
    if plen < blen && blen - plen == 1 && char_is_separator(c, base.get_char(plen)) {
        let mut k: usize = 0;
        while k < plen
            invariant
                blen == base@.len(),
                plen == p@.len(),
                blen == plen + 1,
                k <= plen,
                forall|j: int| 0 <= j < k ==> chars_match(c, #[trigger] p@[j], base@[j]),
            decreases plen - k,
        {
            if !chars_match_exec(c, p.get_char(k), base.get_char(k)) {
                return false;
            }
            k = k + 1;
        }
        return true;
    }
    if blen > plen {
        return false;
    }
    let mut i: usize = 0;
    while i < blen
        invariant
            blen == base@.len(),
            plen == p@.len(),
            blen <= plen,
            i <= blen,
            forall|j: int| 0 <= j < i ==> chars_match(c, #[trigger] p@[j], base@[j]),
        decreases blen - i,
    {
        if !chars_match_exec(c, p.get_char(i), base.get_char(i)) {
            return false;
        }
        i = i + 1;
    }
    if plen == blen {
        true
    } else if blen > 0 && char_is_separator(c, base.get_char(blen - 1)) {
        true
    } else {
        char_is_separator(c, p.get_char(blen))
    }
}

/// A path in the native text form used by the v2 wire format.
#[derive(Clone, Debug, PartialEq, Eq)]
pub struct LegacyAppPathString {
    pub value: String,
}

/// Why a path could not be carried across the boundary.
#[derive(Clone, Copy, Debug, PartialEq, Eq, Structural)]
pub enum PathConversionError {
    /// The text is not an absolute path under the requested convention.
    NotAbsolute,
    /// The path belongs to another host.
    ForeignHost,
    /// The path is written in another convention than the requested one.
    ForeignConvention,
}

/// Why a path could not be projected onto the local host.
#[derive(Clone, Copy, Debug, PartialEq, Eq, Structural)]
pub enum ForeignPathError {
    /// The path belongs to another host.
    ForeignHost,
    /// The path is written in another convention than the local one.
    ForeignConvention,
}

/// A path that records the host it belongs to (`None`: the local host) and the
/// convention it is written in.
#[derive(Clone, Debug, PartialEq, Eq)]
pub struct PathUri {
    pub host: Option<String>,
    pub convention: PathConvention,
    pub path: String,
}

/// An absolute path on the local host.
#[derive(Clone, Debug, PartialEq, Eq)]
pub struct AbsolutePathBuf {
    pub convention: PathConvention,
    pub path: String,
}

impl LegacyAppPathString {
    pub fn new(value: String) -> (r: Self)
        ensures
            r.value == value,
    {
        LegacyAppPathString { value }
    }

    /// The path text, as a string.
    pub fn into_string(self) -> (r: String)
        ensures
            r == self.value,
    {
        self.value
    }

    pub fn as_str(&self) -> (r: &str)
        ensures
            r@ == self.value@,
    {
        self.value.as_str()
    }

    /// The result of reading this text as a path under convention `c`.
    pub open spec fn spec_to_path_uri(self, c: PathConvention) -> Result<PathUri, PathConversionError> {
        if is_absolute(c, self.value@) {
            Ok(PathUri { host: None, convention: c, path: self.value })
        } else {
            Err(PathConversionError::NotAbsolute)
        }
    }

    /// Reads this text as a path of the local host under convention `c`; fails unless
    /// the text is absolute under `c`.
    pub fn to_path_uri(self, c: PathConvention) -> (r: Result<PathUri, PathConversionError>)
        ensures
            r == self.spec_to_path_uri(c),
    {
        if text_is_absolute(c, self.value.as_str()) {
            Ok(PathUri { host: None, convention: c, path: self.value })
        } else {
            Err(PathConversionError::NotAbsolute)
        }
    }

    /// The result of writing `uri` as native text under convention `c`.
    pub open spec fn spec_from_path_uri(uri: PathUri, c: PathConvention) -> Result<
        LegacyAppPathString,
        PathConversionError,
    > {
        if uri.host is Some {
            Err(PathConversionError::ForeignHost)
        } else if uri.convention != c {
            Err(PathConversionError::ForeignConvention)
        } else {
            Ok(LegacyAppPathString { value: uri.path })
        }
    }

    /// Writes `uri` as native text under convention `c`; fails for a path of another
    /// host or of another convention.
    pub fn from_path_uri(uri: &PathUri, c: PathConvention) -> (r: Result<
        LegacyAppPathString,
        PathConversionError,
    >)
        ensures
            r == Self::spec_from_path_uri(*uri, c),
    {
        if uri.host.is_some() {
            Err(PathConversionError::ForeignHost)
        } else if uri.convention != c {
            Err(PathConversionError::ForeignConvention)
        } else {
            Ok(LegacyAppPathString { value: uri.path.clone() })
        }
    }
}

impl PathUri {
    /// A path uri holds an absolute path of its convention.
    pub open spec fn well_formed(self) -> bool {
        is_absolute(self.convention, self.path@)
    }

    /// Whether this path can be projected onto a host whose convention is `native`.
    pub open spec fn is_local(self, native: PathConvention) -> bool {
        self.host is None && self.convention == native
    }

    /// A path uri, when `path` is absolute under `convention`.
    pub fn new(host: Option<String>, convention: PathConvention, path: String) -> (r: Option<
        PathUri,
    >)
        ensures
            r is Some <==> is_absolute(convention, path@),
            r matches Some(u) ==> u == (PathUri { host, convention, path }),
    {
        if text_is_absolute(convention, path.as_str()) {
            Some(PathUri { host, convention, path })
        } else {
            None
        }
    }

    pub open spec fn spec_project_to_localhost(self, native: PathConvention) -> Result<
        AbsolutePathBuf,
        ForeignPathError,
    > {
        if self.host is Some {
            Err(ForeignPathError::ForeignHost)
        } else if self.convention != native {
            Err(ForeignPathError::ForeignConvention)
        } else {
            Ok(AbsolutePathBuf { convention: native, path: self.path })
        }
    }

    /// The local absolute path this uri names, on a host whose convention is `native`;
    /// fails closed for a path of another host or another convention.
    pub fn project_to_localhost(&self, native: PathConvention) -> (r: Result<
        AbsolutePathBuf,
        ForeignPathError,
    >)
        ensures
            r == self.spec_project_to_localhost(native),
            r is Ok <==> self.is_local(native),
            self.well_formed() && r is Ok ==> r->Ok_0.well_formed(),
    {
        if self.host.is_some() {
            Err(ForeignPathError::ForeignHost)
        } else if self.convention != native {
            Err(ForeignPathError::ForeignConvention)
        } else {
            Ok(AbsolutePathBuf { convention: native, path: self.path.clone() })
        }
    }
}

impl PathUri {
    pub fn copy(&self) -> (r: PathUri)
        ensures
            r == *self,
    {
        let host = match &self.host {
            Some(h) => Some(h.clone()),
            None => None,
        };
        PathUri { host, convention: self.convention, path: self.path.clone() }
    }
}

impl AbsolutePathBuf {
    /// An absolute path buffer holds an absolute path of its convention.
    pub open spec fn well_formed(self) -> bool {
        is_absolute(self.convention, self.path@)
    }

    /// An absolute path buffer, when `path` is absolute under `convention`.
    pub fn from_absolute_path(path: String, convention: PathConvention) -> (r: Option<
        AbsolutePathBuf,
    >)
        ensures
            r is Some <==> is_absolute(convention, path@),
            r matches Some(p) ==> p == (AbsolutePathBuf { convention, path }),
    {
        if text_is_absolute(convention, path.as_str()) {
            Some(AbsolutePathBuf { convention, path })
        } else {
            None
        }
    }

    pub open spec fn spec_starts_with(self, base: AbsolutePathBuf) -> bool {
        self.convention == base.convention && path_within(self.convention, base.path@, self.path@)
    }

    /// Whether this path lies within the directory `base`.
    pub fn starts_with(&self, base: &AbsolutePathBuf) -> (r: bool)
        ensures
            r == self.spec_starts_with(*base),
    {
        self.convention == base.convention && text_is_within(
            self.convention,
            base.path.as_str(),
            self.path.as_str(),
        )
    }

    pub fn copy(&self) -> (r: AbsolutePathBuf)
        ensures
            r == *self,
    {
        AbsolutePathBuf { convention: self.convention, path: self.path.clone() }
    }
}

/// Reading native text as a path and writing it back gives the same text.
pub proof fn lemma_legacy_path_round_trip(p: LegacyAppPathString, c: PathConvention)
    requires
        p.spec_to_path_uri(c) is Ok,
    ensures
        LegacyAppPathString::spec_from_path_uri(p.spec_to_path_uri(c)->Ok_0, c) == Ok::<
            LegacyAppPathString,
            PathConversionError,
        >(p),
{
}

/// Writing a well-formed local path as native text and reading it back gives the same path.
pub proof fn lemma_path_uri_round_trip(u: PathUri, c: PathConvention)
    requires
        u.well_formed(),
        LegacyAppPathString::spec_from_path_uri(u, c) is Ok,
    ensures
        LegacyAppPathString::spec_from_path_uri(u, c)->Ok_0.spec_to_path_uri(c) == Ok::<
            PathUri,
            PathConversionError,
        >(u),
{
}

/// A path of another host, or written in another convention, never becomes native text.
pub proof fn lemma_foreign_paths_fail_closed(u: PathUri, c: PathConvention)
    ensures
        LegacyAppPathString::spec_from_path_uri(u, c) is Ok <==> u.is_local(c),
        u.spec_project_to_localhost(c) is Ok <==> u.is_local(c),
{
}

/// Every path lies within itself.
pub proof fn lemma_starts_with_itself(p: AbsolutePathBuf)
    ensures
        p.spec_starts_with(p),
{
}

/// A path that continues a directory past a separator lies within it.
pub proof fn lemma_starts_with_child(base: AbsolutePathBuf, p: AbsolutePathBuf, rest: Seq<char>)
    requires
        p.convention == base.convention,
        p.path@ == base.path@ + seq!['/'] + rest,
    ensures
        p.spec_starts_with(base),
{
    assert forall|j: int| 0 <= j < base.path@.len() implies chars_match(
        p.convention,
        #[trigger] p.path@[j],
        base.path@[j],
    ) by {
        assert(p.path@[j] == base.path@[j]);
    }
    assert(p.path@[base.path@.len() as int] == '/');
}

/// Under POSIX, a path that differs from a directory at a character of the directory's
/// text, and is at least as long, does not lie within it; paths of different conventions
/// never lie within one another.
pub proof fn lemma_starts_with_mismatch(base: AbsolutePathBuf, p: AbsolutePathBuf, j: int)
    requires
        base.convention == PathConvention::Posix,
        base.path@.len() <= p.path@.len(),
        0 <= j < base.path@.len(),
        p.path@[j] != base.path@[j],
    ensures
        !p.spec_starts_with(base),
{
}

/// Paths of different conventions never lie within one another.
pub proof fn lemma_starts_with_needs_same_convention(base: AbsolutePathBuf, p: AbsolutePathBuf)
    requires
        base.convention != p.convention,
    ensures
        !p.spec_starts_with(base),
{
}

/// Under Windows, ASCII letters match their other case and the two separators match each
/// other; under POSIX a character matches only itself.
pub proof fn lemma_chars_match_rules(a: char, b: char)
    ensures
        chars_match(PathConvention::Windows, 'A', 'a'),
        chars_match(PathConvention::Windows, 'z', 'Z'),
        chars_match(PathConvention::Windows, '/', '\\'),
        chars_match(PathConvention::Posix, a, b) <==> a == b,
        chars_match(PathConvention::Windows, a, a),
{
}

/// Reading native text succeeds exactly for absolute text, giving a path of the local
/// host in the requested convention that holds the same text.
pub proof fn lemma_to_path_uri_result(p: LegacyAppPathString, c: PathConvention)
    ensures
        p.spec_to_path_uri(c) is Ok <==> is_absolute(c, p.value@),
        p.spec_to_path_uri(c) matches Ok(u) ==> u.host is None && u.convention == c && u.path
            == p.value,
        !is_absolute(c, p.value@) ==> p.spec_to_path_uri(c) == Err::<PathUri, PathConversionError>(
            PathConversionError::NotAbsolute,
        ),
{
}

/// A path that continues a directory's text without a separator at the boundary (as
/// `/ab` continues `/a`) does not lie within it.
pub proof fn lemma_starts_with_needs_boundary(base: AbsolutePathBuf, p: AbsolutePathBuf)
    requires
        p.convention == base.convention,
        base.path@.len() > 0,
        !is_separator(base.convention, base.path@.last()),
        p.path@.len() > base.path@.len(),
        !is_separator(base.convention, p.path@[base.path@.len() as int]),
    ensures
        !p.spec_starts_with(base),
{
}

/// POSIX paths are absolute exactly when they start with `/`; Windows paths when they
/// start with a drive letter, `:` and a separator, or with `\\`.
pub proof fn lemma_absolute_characterized(s: Seq<char>)
    ensures
        is_absolute(PathConvention::Posix, s) <==> (s.len() > 0 && s[0] == '/'),
        s.len() >= 3 && s[0] == 'C' && s[1] == ':' && s[2] == '\\' ==> is_absolute(
            PathConvention::Windows,
            s,
        ),
        s.len() >= 2 && s[0] == '\\' && s[1] == '\\' ==> is_absolute(PathConvention::Windows, s),
        s.len() > 0 && s[0] != '/' ==> !is_absolute(PathConvention::Posix, s),
        s.len() > 0 && s[0] == '/' ==> !is_absolute(PathConvention::Windows, s),
{
}

} // verus!
