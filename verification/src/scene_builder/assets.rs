use vstd::prelude::*;


verus! {

/// How URL parsing of an asset reference failed.
#[derive(Clone, Copy, Debug, PartialEq, Eq, Structural)]
pub enum UrlFailure {
    /// The text has no scheme: it is a relative reference.
    RelativeWithoutBase,
    /// Any other parse error.
    Invalid,
}

/// Why an asset reference could not be turned into a path.
#[derive(Clone, Copy, Debug, PartialEq, Eq, Structural)]
pub enum AssetError {
    /// The reference is not a valid URL (and not a relative reference).
    InvalidUri,
    /// The reference names a host; only local assets are supported.
    HostNotSupported,
}

/// What URL parsing makes of `uri`: its scheme, whether it has a host,
/// and its path; or why parsing failed.
pub uninterp spec fn parsed_url(uri: Seq<char>) -> Result<(Seq<char>, bool, Seq<char>), UrlFailure>;

/// Parses `uri` as a URL and returns its scheme, whether it has a host,
/// and its path.
///
/// Calls `url::Url::parse`, then `scheme`, `has_host` and `path` on the
/// result; a `RelativeUrlWithoutBase` error is told apart from all other
/// errors. What the parse yields is named by `parsed_url` and not stated
/// further.
#[verifier::external_body]
fn parse_url(uri: &str) -> (r: Result<(String, bool, String), UrlFailure>)
    ensures
        match r {
            Ok((scheme, has_host, path)) => parsed_url(uri@) == Ok::<(Seq<char>, bool, Seq<char>), UrlFailure>((scheme@, has_host, path@)),
            Err(e) => parsed_url(uri@) == Err::<(Seq<char>, bool, Seq<char>), UrlFailure>(e),
        },
{
    match url::Url::parse(uri) {
        Ok(u) => Ok((u.scheme().to_string(), u.has_host(), u.path().to_string())),
        Err(url::ParseError::RelativeUrlWithoutBase) => Err(UrlFailure::RelativeWithoutBase),
        Err(_) => Err(UrlFailure::Invalid),
    }
}

/// `rel` appended to the path `base` as a further component: an absolute
/// `rel` replaces `base`; otherwise a separator is put between them unless
/// `base` is empty or already ends with one.
pub open spec fn path_join(base: Seq<char>, rel: Seq<char>) -> Seq<char> {
    if rel.len() > 0 && rel[0] == '/' {
        rel
    } else if base.len() == 0 || base.last() == '/' {
        base + rel
    } else {
        base + seq!['/'] + rel
    }
}

/// `p` without its leading separators.
pub open spec fn strip_root(p: Seq<char>) -> Seq<char>
    decreases p.len(),
{
    if p.len() > 0 && p[0] == '/' {
        strip_root(p.drop_first())
    } else {
        p
    }
}

/// The path an asset reference resolves to, given what URL parsing made
/// of it: a relative reference is taken relative to the project
/// directory; a URL with scheme `assets` is looked up under the assets
/// directory and any other scheme under the project directory, its path
/// being taken relative to that directory; a URL with a host is refused.
pub open spec fn resolve_uri(
    assets_dir: Seq<char>,
    project_dir: Seq<char>,
    uri: Seq<char>,
    parsed: Result<(Seq<char>, bool, Seq<char>), UrlFailure>,
) -> Result<Seq<char>, AssetError> {
    match parsed {
        Err(UrlFailure::RelativeWithoutBase) => Ok(path_join(project_dir, uri)),
        Err(UrlFailure::Invalid) => Err(AssetError::InvalidUri),
        Ok((scheme, has_host, path)) => {
            if has_host {
                Err(AssetError::HostNotSupported)
            } else {
                let base = if scheme == seq!['a', 's', 's', 'e', 't', 's'] {
                    assets_dir
                } else {
                    project_dir
                };
                Ok(path_join(base, strip_root(path)))
            }
        },
    }
}

/// Resolves asset references to file paths, relative to an assets
/// directory and a project directory.
pub struct AssetsManager {
    assets_dir: String,
    project_dir: String,
}

impl AssetsManager {
    pub closed spec fn spec_assets_dir(&self) -> Seq<char> {
        self.assets_dir@
    }

    pub closed spec fn spec_project_dir(&self) -> Seq<char> {
        self.project_dir@
    }

    /// A manager for the given assets and project directories.
    pub fn new(assets_dir: &str, project_dir: &str) -> (m: Self)
        ensures
            m.spec_assets_dir() == assets_dir@,
            m.spec_project_dir() == project_dir@,
    {
        AssetsManager { assets_dir: assets_dir.to_owned(), project_dir: project_dir.to_owned() }
    }

    /// The path that `uri` refers to, given the outcome of parsing `uri`
    /// as a URL.
    pub fn resolve_parsed(&self, uri: &str, parsed: Result<(String, bool, String), UrlFailure>) -> (r: Result<
        String,
        AssetError,
    >)
        ensures
            match r {
                Ok(p) => resolve_uri(self.spec_assets_dir(), self.spec_project_dir(), uri@, parsed_view(parsed)) == Ok::<Seq<char>, AssetError>(p@),
                Err(e) => resolve_uri(self.spec_assets_dir(), self.spec_project_dir(), uri@, parsed_view(parsed)) == Err::<Seq<char>, AssetError>(e),
            },
    {
        match parsed {
            Err(UrlFailure::RelativeWithoutBase) => Ok(join_path(self.project_dir.as_str(), uri)),
            Err(UrlFailure::Invalid) => Err(AssetError::InvalidUri),
            Ok((scheme, has_host, path)) => {
                let assets = is_assets_scheme(scheme.as_str());
                if has_host {
                    return Err(AssetError::HostNotSupported);
                }
                let base = if assets {
                    self.assets_dir.as_str()
                } else {
                    self.project_dir.as_str()
                };
                let rel = strip_leading_separators(path.as_str());
                Ok(join_path(base, rel))
            },
        }
    }

    /// The path that the asset reference `uri` refers to.
    pub fn load_path(&self, uri: &str) -> (r: Result<String, AssetError>)
        ensures
            match r {
                Ok(p) => resolve_uri(self.spec_assets_dir(), self.spec_project_dir(), uri@, parsed_url(uri@)) == Ok::<Seq<char>, AssetError>(p@),
                Err(e) => resolve_uri(self.spec_assets_dir(), self.spec_project_dir(), uri@, parsed_url(uri@)) == Err::<Seq<char>, AssetError>(e),
            },
    {
        let parsed = parse_url(uri);
        self.resolve_parsed(uri, parsed)
    }
}

/// The parse outcome with its strings taken by their views.
pub open spec fn parsed_view(parsed: Result<(String, bool, String), UrlFailure>) -> Result<(Seq<char>, bool, Seq<char>), UrlFailure> {
    match parsed {
        Ok((s, h, p)) => Ok((s@, h, p@)),
        Err(e) => Err(e),
    }
}

fn is_assets_scheme(s: &str) -> (b: bool)
    ensures
        b == (s@ == seq!['a', 's', 's', 'e', 't', 's']),
{
    let expected = "assets";
    proof {
        reveal_strlit("assets");
    }
    let n = s.unicode_len();
    if n != 6 {
        assert(s@.len() != seq!['a', 's', 's', 'e', 't', 's'].len());
        return false;
    }
    let mut i: usize = 0;
    while i < 6
        invariant
            i <= 6,
            s@.len() == 6,
            expected@ == seq!['a', 's', 's', 'e', 't', 's'],
            forall|j: int| 0 <= j < i ==> s@[j] == expected@[j],
        decreases 6 - i,
    {
        if s.get_char(i) != expected.get_char(i) {
            assert(s@[i as int] != seq!['a', 's', 's', 'e', 't', 's'][i as int]);
            return false;
        }
        i = i + 1;
    }
    assert(s@ =~= seq!['a', 's', 's', 'e', 't', 's']);
    true
}

fn strip_leading_separators(p: &str) -> (r: &str)
    ensures
        r@ == strip_root(p@),
{
    let n = p.unicode_len();
    let mut i: usize = 0;
    assert(p@.subrange(0, n as int) =~= p@);
    while i < n && p.get_char(i) == '/'
        invariant
            i <= n == p@.len(),
            strip_root(p@) == strip_root(p@.subrange(i as int, n as int)),
        decreases n - i,
    {
        assert(p@.subrange(i as int, n as int).drop_first() =~= p@.subrange(i + 1, n as int));
        i = i + 1;
    }
    let r = p.substring_char(i, n);
    r
}

fn join_path(base: &str, rel: &str) -> (r: String)
    ensures
        r@ == path_join(base@, rel@),
{
    let mut out = String::new();
    let rel_len = rel.unicode_len();
    if rel_len > 0 && rel.get_char(0) == '/' {
        out.append(rel);
        assert(out@ =~= rel@);
        return out;
    }
    out.append(base);
    let base_len = base.unicode_len();
    if base_len != 0 && base.get_char(base_len - 1) != '/' {
        out.append("/");
        proof {
            reveal_strlit("/");
        }
    }
    out.append(rel);
    assert(out@ =~= path_join(base@, rel@));
    out
}

} // verus!
