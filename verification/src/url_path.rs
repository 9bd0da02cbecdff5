use vstd::prelude::*;
use vstd::string::StrSliceExecFns;
use vstd::string::StringExecFns;
use crate::text::to_chars;
use url::ParseError;

verus! {

/// Why a text is not accepted as an absolute URL: the kinds of `url::ParseError`, and
/// `Other` for a kind added to it later.
#[derive(Debug, Clone, Copy, PartialEq, Eq, Structural)]
pub enum UrlParseError {
    EmptyHost,
    IdnaError,
    InvalidPort,
    InvalidIpv4Address,
    InvalidIpv6Address,
    InvalidDomainCharacter,
    RelativeUrlWithoutBase,
    RelativeUrlWithCannotBeABaseBase,
    SetHostOnCannotBeABaseUrl,
    Overflow,
    Other,
}

/// The texts of the paths.
pub open spec fn path_texts(paths: Seq<String>) -> Seq<Seq<char>> {
    paths.map_values(|p: String| p@)
}

/// What `url::Url::parse` makes of the text: the parsed URL's serialization, or the kind of
/// error.
pub uninterp spec fn url_parse_outcome(text: Seq<char>) -> Result<Seq<char>, UrlParseError>;

/// The serialization of the URL that `url::Url::parse` makes of `text`, after
/// `url::Url::set_path` with each of `paths` in turn.
pub uninterp spec fn url_text_after(text: Seq<char>, paths: Seq<Seq<char>>) -> Seq<char>;

/// The path (`url::Url::path`) of the URL that `url::Url::parse` makes of `text`, after
/// `url::Url::set_path` with each of `paths` in turn.
pub uninterp spec fn url_path_after(text: Seq<char>, paths: Seq<Seq<char>>) -> Seq<char>;

/// The serialization of the URL that `url::Url::parse` makes of `text`, where it accepts it.
pub open spec fn parsed_text(text: Seq<char>) -> Seq<char> {
    match url_parse_outcome(text) {
        Ok(s) => s,
        Err(_) => Seq::empty(),
    }
}

/// The largest length of a URL's text, in bytes, that `url::Url` holds.
pub open spec fn url_byte_limit() -> int {
    u32::MAX as int
}

/// Whether setting `path` on a URL whose parsed text was `parsed` stays within that limit:
/// the text before and after the path is what the parse wrote, at most four bytes for each of
/// its characters, and the path takes at most twelve bytes for each of its characters (three
/// for each percent-encoded byte).
pub open spec fn set_path_fits(parsed: Seq<char>, path: Seq<char>) -> bool {
    4 * parsed.len() + 12 * path.len() + 8 <= url_byte_limit()
}

/// Whether `url::Url::parse` accepts `text`, and each of `paths` can then be set in turn within
/// that limit.
pub open spec fn set_paths_fit(text: Seq<char>, paths: Seq<Seq<char>>) -> bool {
    &&& url_parse_outcome(text) is Ok
    &&& forall|i: int| 0 <= i < paths.len() ==> set_path_fits(parsed_text(text), #[trigger] paths[i])
}

/// Wraps `url::Url::parse`, handing back the parsed URL's serialization (`String::from`) or the
/// kind of error. With no path set, the URL's text is that serialization.
#[verifier::external_body]
fn parse_url_text(text: &str) -> (r: Result<String, UrlParseError>)
    ensures
        match r {
            Ok(s) => url_parse_outcome(text@) == Ok::<Seq<char>, UrlParseError>(s@)
                && url_text_after(text@, Seq::empty()) == s@,
            Err(e) => url_parse_outcome(text@) == Err::<Seq<char>, UrlParseError>(e),
        },
{
    match url::Url::parse(text) {
        Ok(url) => Ok(String::from(url)),
        Err(ParseError::EmptyHost) => Err(UrlParseError::EmptyHost),
        Err(ParseError::IdnaError) => Err(UrlParseError::IdnaError),
        Err(ParseError::InvalidPort) => Err(UrlParseError::InvalidPort),
        Err(ParseError::InvalidIpv4Address) => Err(UrlParseError::InvalidIpv4Address),
        Err(ParseError::InvalidIpv6Address) => Err(UrlParseError::InvalidIpv6Address),
        Err(ParseError::InvalidDomainCharacter) => Err(UrlParseError::InvalidDomainCharacter),
        Err(ParseError::RelativeUrlWithoutBase) => Err(UrlParseError::RelativeUrlWithoutBase),
        Err(ParseError::RelativeUrlWithCannotBeABaseBase) => Err(UrlParseError::RelativeUrlWithCannotBeABaseBase),
        Err(ParseError::SetHostOnCannotBeABaseUrl) => Err(UrlParseError::SetHostOnCannotBeABaseUrl),
        Err(ParseError::Overflow) => Err(UrlParseError::Overflow),
        Err(_) => Err(UrlParseError::Other),
    }
}

/// Wraps `url::Url::path` on the URL that `url::Url::parse` makes of `text`, after
/// `url::Url::set_path` with each of `paths` in turn. The path is a slice of the URL's text.
/// `set_path` panics past `u32::MAX` bytes, which `set_paths_fit` rules out.
#[verifier::external_body]
fn url_path_text(text: &str, paths: &[String]) -> (r: String)
    requires
        set_paths_fit(text@, path_texts(paths@)),
    ensures
        r@ == url_path_after(text@, path_texts(paths@)),
        r@.len() <= url_text_after(text@, path_texts(paths@)).len(),
{
    match url::Url::parse(text) {
        Ok(mut url) => {
            for path in paths {
                url.set_path(path);
            }
            url.path().to_owned()
        },
        Err(_) => String::new(),
    }
}

/// Wraps `url::Url::set_path`, applied with each of `paths` in turn to the URL that
/// `url::Url::parse` makes of `text`, handing back the URL's text (`String::from`). `set_path`
/// keeps the text before the path and after it (query and fragment) as the parse wrote it,
/// and writes the new path with each byte at most percent-encoded, and a slash or an escape in
/// front; so the text is at most the parsed text and twelve characters for each character of
/// the last path, and three more. `set_path` panics past `u32::MAX` bytes, which
/// `set_paths_fit` rules out.
#[verifier::external_body]
fn url_text(text: &str, paths: &[String]) -> (r: String)
    requires
        set_paths_fit(text@, path_texts(paths@)),
        paths@.len() > 0,
    ensures
        r@ == url_text_after(text@, path_texts(paths@)),
        r@.len() <= parsed_text(text@).len() + 12 * paths@.last()@.len() + 3,
{
    match url::Url::parse(text) {
        Ok(mut url) => {
            for path in paths {
                url.set_path(path);
            }
            String::from(url)
        },
        Err(_) => String::new(),
    }
}

/// A copy of each string.
fn clone_strings(v: &Vec<String>) -> (r: Vec<String>)
    ensures
        r@ == v@,
{
    let mut r: Vec<String> = Vec::new();
    for i in 0..v.len()
        invariant
            r@ == v@.take(i as int),
    {
        assert(v@.take(i + 1) =~= v@.take(i as int).push(v@[i as int]));
        r.push(v[i].clone());
    }
    assert(v@.take(v@.len() as int) =~= v@);
    r
}

/// An absolute URL: what `url::Url::parse` makes of a text, with paths set on it in turn by
/// `url::Url::set_path`, and the URL's text.
#[derive(Debug)]
pub struct Url {
    source: String,
    paths: Vec<String>,
    serialization: String,
}

impl View for Url {
    type V = Seq<char>;

    /// The URL's text.
    closed spec fn view(&self) -> Seq<char> {
        self.serialization@
    }
}

impl Url {
    /// The text that was parsed.
    pub closed spec fn source(&self) -> Seq<char> {
        self.source@
    }

    /// The paths set since, in order.
    pub closed spec fn paths(&self) -> Seq<Seq<char>> {
        path_texts(self.paths@)
    }

    #[verifier::type_invariant]
    closed spec fn inv(self) -> bool {
        &&& set_paths_fit(self.source@, path_texts(self.paths@))
        &&& self.serialization@ == url_text_after(self.source@, path_texts(self.paths@))
    }

    /// Parses an absolute URL, as `url::Url::parse` does.
    pub fn parse(input: &str) -> (r: Result<Url, UrlParseError>)
        ensures
            match url_parse_outcome(input@) {
                Ok(s) => r matches Ok(u) && u@ == s && u.source() == input@ && u.paths() == Seq::<Seq<char>>::empty(),
                Err(e) => r == Err::<Url, UrlParseError>(e),
            },
    {
        match parse_url_text(input) {
            Ok(serialization) => {
                let paths: Vec<String> = Vec::new();
                assert(path_texts(paths@) =~= Seq::<Seq<char>>::empty());
                Ok(Url { source: input.to_owned(), paths, serialization })
            },
            Err(e) => Err(e),
        }
    }

    /// The URL's text.
    pub fn as_str(&self) -> (r: &str)
        ensures
            r@ == self@,
            self@ == url_text_after(self.source(), self.paths()),
            set_paths_fit(self.source(), self.paths()),
    {
        proof {
            use_type_invariant(self);
        }
        self.serialization.as_str()
    }

    /// The text that was parsed.
    pub fn source_text(&self) -> (r: &str)
        ensures
            r@ == self.source(),
    {
        self.source.as_str()
    }

    /// The URL's path.
    pub fn path(&self) -> (r: String)
        ensures
            r@ == url_path_after(self.source(), self.paths()),
            r@.len() <= self@.len(),
    {
        proof {
            use_type_invariant(self);
        }
        url_path_text(self.source.as_str(), self.paths.as_slice())
    }

    /// Replaces the URL's path.
    pub fn set_path(&mut self, path: &str)
        requires
            set_path_fits(parsed_text(old(self).source()), path@),
        ensures
            final(self).source() == old(self).source(),
            final(self).paths() == old(self).paths().push(path@),
            final(self)@ == url_text_after(old(self).source(), old(self).paths().push(path@)),
            final(self)@.len() <= parsed_text(old(self).source()).len() + 12 * path@.len() + 3,
    {
        proof {
            use_type_invariant(&*self);
        }
        let source = self.source.clone();
        let mut paths = clone_strings(&self.paths);
        let ghost before = paths@;
        paths.push(path.to_owned());
        proof {
            assert(path_texts(paths@) =~= path_texts(before).push(path@));
            assert(paths@.last()@ == path@);
            let ps = path_texts(paths@);
            assert forall|i: int| 0 <= i < ps.len() implies set_path_fits(parsed_text(source@), #[trigger] ps[i]) by {
                if i < ps.len() - 1 {
                    assert(ps[i] == path_texts(before)[i]);
                }
            }
        }
        let serialization = url_text(source.as_str(), paths.as_slice());
        *self = Url { source, paths, serialization };
    }
}

impl Clone for Url {
    fn clone(&self) -> (r: Self)
        ensures
            r@ == self@,
            r.source() == self.source(),
            r.paths() == self.paths(),
    {
        proof {
            use_type_invariant(self);
        }
        Url { source: self.source.clone(), paths: clone_strings(&self.paths), serialization: self.serialization.clone() }
    }
}

/// `p` without its trailing slashes (`str::trim_end_matches('/')`).
pub open spec fn trim_end_slashes(p: Seq<char>) -> Seq<char>
    decreases p.len(),
{
    if p.len() > 0 && p.last() == '/' {
        trim_end_slashes(p.drop_last())
    } else {
        p
    }
}

/// Appends one segment to a path: nothing for an empty segment, else a slash unless the path
/// already ends with one, then the segment.
pub open spec fn push_segment(path: Seq<char>, seg: Seq<char>) -> Seq<char> {
    if seg.len() == 0 {
        path
    } else if path.len() == 0 || path.last() != '/' {
        path + seq!['/'] + seg
    } else {
        path + seg
    }
}

/// Appends the segments in order.
pub open spec fn push_segments(path: Seq<char>, segs: Seq<Seq<char>>) -> Seq<char>
    decreases segs.len(),
{
    if segs.len() == 0 {
        path
    } else {
        push_segments(push_segment(path, segs[0]), segs.drop_first())
    }
}

/// The path with the segments appended after its trailing slashes are dropped; `/` when
/// nothing is left.
pub open spec fn appended_path(base: Seq<char>, segs: Seq<Seq<char>>) -> Seq<char> {
    let p = push_segments(trim_end_slashes(base), segs);
    if p.len() == 0 {
        seq!['/']
    } else {
        p
    }
}

/// The path with one segment joined after its trailing slashes are dropped, with exactly one
/// slash between them.
pub open spec fn joined_path(base: Seq<char>, seg: Seq<char>) -> Seq<char> {
    let t = trim_end_slashes(base);
    if t.len() == 0 || t.last() != '/' {
        t + seq!['/'] + seg
    } else {
        t + seg
    }
}

/// The number of characters of `v` before its trailing slashes.
fn trimmed_len(v: &Vec<char>) -> (k: usize)
    ensures
        k <= v@.len(),
        v@.subrange(0, k as int) == trim_end_slashes(v@),
{
    let mut k = v.len();
    assert(v@.subrange(0, k as int) =~= v@);
    while k > 0 && v[k - 1] == '/'
        invariant
            k <= v@.len(),
            trim_end_slashes(v@) == trim_end_slashes(v@.subrange(0, k as int)),
        decreases k,
    {
        assert(v@.subrange(0, k as int).drop_last() =~= v@.subrange(0, k - 1));
        k = k - 1;
    }
    k
}

proof fn lemma_trim_end_slashes_shape(p: Seq<char>)
    ensures
        trim_end_slashes(p).len() == 0 || trim_end_slashes(p).last() != '/',
    decreases p.len(),
{
    if p.len() > 0 && p.last() == '/' {
        lemma_trim_end_slashes_shape(p.drop_last());
    }
}

proof fn lemma_push_segments_push(path: Seq<char>, segs: Seq<Seq<char>>, x: Seq<char>)
    ensures
        push_segments(path, segs.push(x)) == push_segment(push_segments(path, segs), x),
    decreases segs.len(),
{
    if segs.len() == 0 {
        assert(segs.push(x).drop_first() =~= Seq::<Seq<char>>::empty());
        assert(segs.push(x)[0] == x);
        assert(push_segments(push_segment(path, x), Seq::<Seq<char>>::empty()) == push_segment(path, x));
        assert(push_segments(path, segs) == path);
    } else {
        assert(segs.push(x).drop_first() =~= segs.drop_first().push(x));
        assert(segs.push(x)[0] == segs[0]);
        lemma_push_segments_push(push_segment(path, segs[0]), segs.drop_first(), x);
    }
}

/// The characters that appending the segments can add: each segment and one slash before it.
pub open spec fn segments_len(segs: Seq<Seq<char>>) -> int
    decreases segs.len(),
{
    if segs.len() == 0 {
        0
    } else {
        segs[0].len() + 1 + segments_len(segs.drop_first())
    }
}

proof fn lemma_trim_end_slashes_len(p: Seq<char>)
    ensures
        trim_end_slashes(p).len() <= p.len(),
    decreases p.len(),
{
    if p.len() > 0 && p.last() == '/' {
        lemma_trim_end_slashes_len(p.drop_last());
    }
}

proof fn lemma_push_segments_len(path: Seq<char>, segs: Seq<Seq<char>>)
    ensures
        push_segments(path, segs).len() <= path.len() + segments_len(segs),
    decreases segs.len(),
{
    if segs.len() > 0 {
        lemma_push_segments_len(push_segment(path, segs[0]), segs.drop_first());
    }
}

/// The appended path is at most the base path, the segments with a slash each, and one
/// character more.
pub proof fn lemma_appended_path_len(base: Seq<char>, segs: Seq<Seq<char>>)
    ensures
        appended_path(base, segs).len() <= base.len() + segments_len(segs) + 1,
{
    lemma_trim_end_slashes_len(base);
    lemma_push_segments_len(trim_end_slashes(base), segs);
}

/// The joined path is at most the base path, one slash and the segment.
pub proof fn lemma_joined_path_len(base: Seq<char>, seg: Seq<char>)
    ensures
        joined_path(base, seg).len() <= base.len() + 1 + seg.len(),
{
    lemma_trim_end_slashes_len(base);
}

/// The path `base` with `segments` appended: trailing slashes of `base` dropped, one slash
/// before each non-empty segment unless the path already ends with one, and `/` for an empty
/// result.
pub fn appended_path_text(base: &str, segments: &[&str]) -> (r: String)
    ensures
        r@ == appended_path(base@, segments@.map_values(|s: &str| s@)),
{
    let ghost segs = segments@.map_values(|s: &str| s@);
    let v = to_chars(base);
    let k = trimmed_len(&v);
    let mut path = base.substring_char(0, k).to_owned();
    proof {
        lemma_trim_end_slashes_shape(base@);
    }
    let mut empty = k == 0;
    let mut ends_with_slash = false;
    let slash = "/";
    proof {
        reveal_strlit("/");
    }
    let n = segments.len();
    assert(segs.take(0) =~= Seq::<Seq<char>>::empty());
    for i in 0..n
        invariant
            n == segments@.len() == segs.len(),
            segs == segments@.map_values(|s: &str| s@),
            slash@ == seq!['/'],
            path@ == push_segments(trim_end_slashes(base@), segs.take(i as int)),
            empty == (path@.len() == 0),
            ends_with_slash == (path@.len() > 0 && path@.last() == '/'),
    {
        let seg = segments[i];
        let sv = to_chars(seg);
        proof {
            lemma_push_segments_push(trim_end_slashes(base@), segs.take(i as int), segs[i as int]);
            assert(segs.take(i as int).push(segs[i as int]) =~= segs.take(i + 1));
            assert(segs[i as int] == seg@);
        }
        if sv.len() > 0 {
            if empty || !ends_with_slash {
                path.append(slash);
            }
            path.append(seg);
            empty = false;
            ends_with_slash = sv[sv.len() - 1] == '/';
        }
    }
    assert(segs.take(n as int) =~= segs);
    if empty {
        slash.to_owned()
    } else {
        path
    }
}

/// The path `base` with `segment` joined after its trailing slashes, with one slash between.
pub fn joined_path_text(base: &str, segment: &str) -> (r: String)
    ensures
        r@ == joined_path(base@, segment@),
{
    let v = to_chars(base);
    let k = trimmed_len(&v);
    let mut path = base.substring_char(0, k).to_owned();
    let slash = "/";
    proof {
        reveal_strlit("/");
    }
    if k == 0 || v[k - 1] != '/' {
        path.append(slash);
    }
    path.append(segment);
    path
}

/// Trailing slashes of the base path make no difference to the appended path.
pub proof fn law_appended_path_ignores_trailing_slash(base: Seq<char>, segs: Seq<Seq<char>>)
    ensures
        appended_path(base.push('/'), segs) == appended_path(base, segs),
{
    assert(base.push('/').drop_last() =~= base);
}

/// Joining a segment always puts exactly one slash between the base path, stripped of its
/// trailing slashes, and the segment.
pub proof fn law_joined_path_shape(base: Seq<char>, seg: Seq<char>)
    ensures
        joined_path(base, seg) == trim_end_slashes(base) + seq!['/'] + seg,
{
    lemma_trim_end_slashes_shape(base);
}

}
