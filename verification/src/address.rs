//! Addresses of copy endpoints: a local path or a remote URL, with the
//! queries that decide how a destination is named.

use http_io::url::{Path, Scheme, Url};
use vstd::prelude::*;
use vstd::string::StrSliceExecFns;
use vstd::utf8::is_ascii_chars;

verus! {

/// The URL of `http_io`: its fields are public, so they are visible here.
#[verifier::external_type_specification]
pub struct ExUrl(Url);

/// The scheme of a URL, as `http_io` has it.
#[verifier::external_type_specification]
pub struct ExScheme(Scheme);

/// The path of a URL, as `http_io` has it. Its fields are private: what it
/// holds is spoken of through `path_components` and `path_trailing_slash`.
#[verifier::external_type_specification]
#[verifier::external_body]
pub struct ExPath(Path);

/// The segments that a URL path holds, in order.
pub uninterp spec fn path_components(path: Path) -> Seq<Seq<char>>;

/// Whether a URL path ends in a separator.
pub uninterp spec fn path_trailing_slash(path: Path) -> bool;

/// What parsing a text as a URL gives: the URL, or nothing where the text
/// is no absolute URL.
pub uninterp spec fn parsed_url(text: Seq<char>) -> Option<Url>;

/// The text that a URL is written as.
pub uninterp spec fn url_text(url: Url) -> Seq<char>;

/// The final component of a local path, where it has one, by the path
/// syntax of the platform that the library is built for.
pub uninterp spec fn local_file_name(path: Seq<char>) -> Option<Seq<char>>;

/// A local path extended by one component, by the path syntax of the
/// platform that the library is built for.
pub uninterp spec fn local_join(path: Seq<char>, component: Seq<char>) -> Seq<char>;

/// Parses with `Url::from_str` of `http_io`. The parser reads nothing but
/// the text, so the outcome is a function of the text; the error's detail
/// is dropped. The parser cuts the text at byte offsets in two places and
/// stops where such a cut falls inside a character: `parsable` leaves those
/// texts out.
#[verifier::external_body]
fn parse_url(text: &str) -> (r: Option<Url>)
    requires
        parsable(text@),
    ensures
        r == parsed_url(text@),
{
    text.parse::<Url>().ok()
}

/// Formats with the `Display` impl of `http_io`'s `Url`, which reads
/// nothing but the URL.
#[verifier::external_body]
fn format_url(url: &Url) -> (r: String)
    ensures
        r@ == url_text(*url),
{
    url.to_string()
}

/// Calls `Path::trailing_slash` of `http_io`, which returns the stored flag.
#[verifier::external_body]
fn trailing_slash(path: &Path) -> (r: bool)
    ensures
        r == path_trailing_slash(*path),
{
    path.trailing_slash()
}

/// Calls `Path::components` of `http_io`, which walks the stored segments
/// in order, and hands each out as a `String`.
#[verifier::external_body]
fn components(path: &Path) -> (r: Vec<String>)
    ensures
        r.len() == path_components(*path).len(),
        forall|i: int| 0 <= i < r.len() ==> (#[trigger] r[i])@ == path_components(*path)[i],
{
    path.components().map(|c| c.to_string()).collect()
}

/// Calls `Path::push` of `http_io`: the segment is added behind the others
/// and the trailing separator is cleared.
#[verifier::external_body]
fn push_component(path: &mut Path, component: &str)
    ensures
        path_components(*final(path)) == path_components(*old(path)).push(component@),
        !path_trailing_slash(*final(path)),
{
    path.push(component)
}

/// Calls `std::path::Path::file_name`: the final component of the path, or
/// nothing where the path ends in the root or in `..`. The path is valid
/// UTF-8, so the name is handed out unchanged.
#[verifier::external_body]
fn file_name(path: &str) -> (r: Option<String>)
    ensures
        r is Some == local_file_name(path@) is Some,
        r matches Some(name) ==> local_file_name(path@) == Some(name@),
{
    std::path::Path::new(path).file_name().map(|name| name.to_string_lossy().into_owned())
}

/// Calls `std::path::PathBuf::push`, which extends the path by the
/// component, or replaces it where the component is absolute.
#[verifier::external_body]
fn push_local(path: &mut String, component: &str)
    ensures
        final(path)@ == local_join(old(path)@, component@),
{
    let mut buf = std::path::PathBuf::from(path.as_str());
    buf.push(component);
    *path = buf.to_string_lossy().into_owned();
}

/// Calls `std::path::Path::is_dir`, which asks the file system: nothing is
/// known of the answer beforehand.
#[verifier::external_body]
fn local_is_dir(path: &str) -> (r: bool) {
    std::path::Path::new(path).is_dir()
}

/// The name given to a remote resource whose URL names a directory.
pub const FALLBACK_NAME: &'static str = "index.html";

/// One end of a copy.
#[derive(Debug)]
pub enum Location {
    /// A resource reached over the network.
    Remote(Url),
    /// A path on the local file system.
    Local(String),
}

/// The marks at which the URL parser divides a text.
#[derive(Clone, Copy, Debug, PartialEq, Eq, Structural)]
pub enum Mark {
    /// The colon that ends the scheme.
    SchemeEnd,
    /// The `@` that ends the user information.
    UserEnd,
    /// The first of `/`, `?`, `#` and `:`, which ends the host.
    HostEnd,
}

impl Mark {
    /// Whether `c` is this mark.
    pub open spec fn matches(self, c: char) -> bool {
        match self {
            Mark::SchemeEnd => c == ':',
            Mark::UserEnd => c == '@',
            Mark::HostEnd => c == '/' || c == '?' || c == '#' || c == ':',
        }
    }

    /// Whether `c` is this mark.
    pub fn is(self, c: char) -> (r: bool)
        ensures
            r == self.matches(c),
    {
        match self {
            Mark::SchemeEnd => c == ':',
            Mark::UserEnd => c == '@',
            Mark::HostEnd => c == '/' || c == '?' || c == '#' || c == ':',
        }
    }
}

/// Where the first `mark` stands in `text` at or behind `from`, or the
/// length of the text where there is none.
pub open spec fn first_mark(text: Seq<char>, from: int, mark: Mark) -> int
    decreases text.len() - from,
{
    if from >= text.len() {
        text.len() as int
    } else if mark.matches(text[from]) {
        from
    } else {
        first_mark(text, from + 1, mark)
    }
}

/// Whether `c` takes one byte in UTF-8.
pub open spec fn is_narrow(c: char) -> bool {
    c <= '\u{7f}'
}

/// Whether `c` takes three bytes or more in UTF-8.
pub open spec fn is_wide(c: char) -> bool {
    c > '\u{7ff}'
}

/// Whether the third byte behind the colon at `colon` ends a character, or
/// lies at or beyond the end of the text. The parser cuts there to look for
/// `://`.
pub open spec fn cut_behind_colon_is_clean(text: Seq<char>, colon: int) -> bool {
    colon + 1 < text.len() ==> {
        &&& !is_wide(text[colon + 1])
        &&& (is_narrow(text[colon + 1]) && colon + 2 < text.len() ==> is_narrow(text[colon + 2]))
    }
}

/// Where the host ends in a text that starts with a scheme and `://`, the
/// colon of which stands at `colon`: behind the user information, where
/// there is any, at the first mark that ends a host.
pub open spec fn host_end(text: Seq<char>, colon: int) -> int {
    let start = colon + 3;
    let at = first_mark(text, start, Mark::UserEnd);
    let host = if at < text.len() {
        at + 1
    } else {
        start
    };
    first_mark(text, host, Mark::HostEnd)
}

/// Whether the URL parser can be given the text. It cannot where it would
/// cut a character in two: behind the first colon, or in what follows the
/// host (port, path, query and fragment), which it takes byte by byte.
/// Every text that the parser reads as a URL is parsable; a text that is
/// not makes the parser stop or, in the part behind the host, may be
/// refused by it first.
pub open spec fn parsable(text: Seq<char>) -> bool {
    let colon = first_mark(text, 0, Mark::SchemeEnd);
    if colon >= text.len() {
        true
    } else if !cut_behind_colon_is_clean(text, colon) {
        false
    } else if !(colon + 2 < text.len() && text[colon + 1] == '/' && text[colon + 2] == '/') {
        true
    } else {
        is_ascii_chars(text.skip(host_end(text, colon)))
    }
}

/// The URL that a text stands for, if any: what the parser makes of it,
/// where the parser can be given it.
pub open spec fn read_as_url(text: Seq<char>) -> Option<Url> {
    if parsable(text) {
        parsed_url(text)
    } else {
        None
    }
}

/// The first mark stands between the place where the search began and the
/// end of the text, and no mark stands before it.
pub proof fn lemma_first_mark(text: Seq<char>, from: int, mark: Mark)
    requires
        0 <= from <= text.len(),
    ensures
        from <= first_mark(text, from, mark) <= text.len(),
        first_mark(text, from, mark) < text.len() ==> mark.matches(
            text[first_mark(text, from, mark)],
        ),
        forall|i: int| from <= i < first_mark(text, from, mark) ==> !mark.matches(#[trigger] text[i]),
    decreases text.len() - from,
{
    if from < text.len() && !mark.matches(text[from]) {
        lemma_first_mark(text, from + 1, mark);
    }
}

/// A text of ASCII characters alone is parsable: every byte of it is a
/// character.
pub proof fn lemma_ascii_is_parsable(text: Seq<char>)
    requires
        is_ascii_chars(text),
    ensures
        parsable(text),
{
    let colon = first_mark(text, 0, Mark::SchemeEnd);
    lemma_first_mark(text, 0, Mark::SchemeEnd);
    if colon + 2 < text.len() {
        let start = colon + 3;
        let at = first_mark(text, start, Mark::UserEnd);
        lemma_first_mark(text, start, Mark::UserEnd);
        let host = if at < text.len() {
            at + 1
        } else {
            start
        };
        lemma_first_mark(text, host, Mark::HostEnd);
    }
}

/// Finds the first `mark` in `text` at or behind `from`, where `length` is
/// the number of characters of the text.
fn find_mark(text: &str, length: usize, from: usize, mark: Mark) -> (r: usize)
    requires
        length == text@.len(),
        from <= length,
    ensures
        r == first_mark(text@, from as int, mark),
        from <= r <= length,
{
    let mut i: usize = from;
    while i < length
        invariant
            length == text@.len(),
            from <= i <= length,
            first_mark(text@, from as int, mark) == first_mark(text@, i as int, mark),
        decreases length - i,
    {
        if mark.is(text.get_char(i)) {
            return i;
        }
        i += 1;
    }
    i
}

/// Whether every character of `text` from `from` on is an ASCII character,
/// where `length` is the number of characters of the text.
fn is_ascii_from(text: &str, length: usize, from: usize) -> (r: bool)
    requires
        length == text@.len(),
        from <= length,
    ensures
        r == is_ascii_chars(text@.skip(from as int)),
{
    let mut i: usize = from;
    while i < length
        invariant
            length == text@.len(),
            from <= i <= length,
            forall|j: int| from <= j < i ==> '\0' <= #[trigger] text@[j] <= '\u{7f}',
        decreases length - i,
    {
        let c = text.get_char(i);
        if c > '\u{7f}' {
            proof {
                assert(text@.skip(from as int)[i - from] == c);
            }
            return false;
        }
        i += 1;
    }
    proof {
        let rest = text@.skip(from as int);
        assert forall|j: int| 0 <= j < rest.len() implies '\0' <= #[trigger] rest[j] <= '\u{7f}' by {
            assert(rest[j] == text@[from + j]);
        }
    }
    true
}

/// Whether the URL parser can be given the text. ASCII text is passed at
/// once; any other is walked character by character, up to the mark that
/// each step looks for.
pub fn is_parsable(text: &str) -> (r: bool)
    ensures
        r == parsable(text@),
{
    if text.is_ascii() {
        proof {
            lemma_ascii_is_parsable(text@);
        }
        return true;
    }
    let length = text.unicode_len();
    let colon = find_mark(text, length, 0, Mark::SchemeEnd);
    if colon >= length {
        return true;
    }
    let behind = length - colon - 1;
    if behind > 0 {
        let next = text.get_char(colon + 1);
        if next > '\u{7ff}' {
            return false;
        }
        if next <= '\u{7f}' && behind > 1 && text.get_char(colon + 2) > '\u{7f}' {
            return false;
        }
    }
    if !(behind > 1 && text.get_char(colon + 1) == '/' && text.get_char(colon + 2) == '/') {
        return true;
    }
    let start = colon + 3;
    let at = find_mark(text, length, start, Mark::UserEnd);
    let host = if at < length {
        at + 1
    } else {
        start
    };
    let tail = find_mark(text, length, host, Mark::HostEnd);
    is_ascii_from(text, length, tail)
}

/// Whether a remote path names a directory: it ends in a separator, or it
/// has no segment at all.
pub open spec fn remote_is_dir(path: Path) -> bool {
    path_trailing_slash(path) || path_components(path).len() == 0
}

/// The name of the resource behind a remote path: its last segment, or the
/// fallback name where the path names a directory.
pub open spec fn remote_name(path: Path) -> Seq<char> {
    if remote_is_dir(path) {
        FALLBACK_NAME@
    } else {
        path_components(path).last()
    }
}

impl Location {
    /// Whether the location can be asked for its name: a local path must
    /// have a final component.
    pub open spec fn has_name(self) -> bool {
        match self {
            Location::Remote(_) => true,
            Location::Local(path) => local_file_name(path@) is Some,
        }
    }

    /// The name under which the resource at this location is stored.
    pub open spec fn name_spec(self) -> Seq<char>
        recommends
            self.has_name(),
    {
        match self {
            Location::Remote(url) => remote_name(url.path),
            Location::Local(path) => local_file_name(path@).unwrap(),
        }
    }

    /// Whether the location is `before` with `component` appended.
    pub open spec fn is_extension_of(self, before: Location, component: Seq<char>) -> bool {
        match (before, self) {
            (Location::Remote(old_url), Location::Remote(url)) => {
                &&& url == Url { path: url.path, ..old_url }
                &&& path_components(url.path) == path_components(old_url.path).push(component)
                &&& !path_trailing_slash(url.path)
            },
            (Location::Local(old_path), Location::Local(path)) => path@ == local_join(
                old_path@,
                component,
            ),
            _ => false,
        }
    }

    /// The location as a user writes it.
    pub open spec fn text(self) -> Seq<char> {
        match self {
            Location::Remote(url) => url_text(url),
            Location::Local(path) => path@,
        }
    }

    /// Whether the location is what `text` is read as: the remote URL that
    /// the text stands for, or, where it stands for none, the local path
    /// that the text spells.
    pub open spec fn is_reading_of(self, text: Seq<char>) -> bool {
        match read_as_url(text) {
            Some(url) => self == Location::Remote(url),
            None => self matches Location::Local(path) && path@ == text,
        }
    }

    /// The location that a text is read as, given what the URL parser made
    /// of it: the URL where it made one, the text as a local path where it
    /// made none.
    pub fn from_parsed(text: &str, url: Option<Url>) -> (r: Location)
        ensures
            match url {
                Some(url) => r == Location::Remote(url),
                None => r matches Location::Local(path) && path@ == text@,
            },
    {
        match url {
            Some(url) => Location::Remote(url),
            None => Location::Local(text.to_owned()),
        }
    }

    /// Reads a location from text: a remote URL where the text stands for
    /// one, a local path otherwise. Every text is accepted.
    pub fn parse(text: &str) -> (r: Location)
        ensures
            r.is_reading_of(text@),
    {
        let url = if is_parsable(text) {
            parse_url(text)
        } else {
            None
        };
        Location::from_parsed(text, url)
    }

    /// Whether the location names a directory. For a local path the file
    /// system decides; for a remote one the shape of the URL's path does.
    pub fn is_dir(&self) -> (r: bool)
        ensures
            self matches Location::Remote(url) ==> r == remote_is_dir(url.path),
    {
        match self {
            Location::Local(path) => local_is_dir(path.as_str()),
            Location::Remote(url) => {
                trailing_slash(&url.path) || components(&url.path).len() == 0
            },
        }
    }

    /// Appends one component to the location.
    pub fn push(&mut self, component: &str)
        ensures
            final(self).is_extension_of(*old(self), component@),
    {
        match self {
            Location::Local(path) => push_local(path, component),
            Location::Remote(url) => push_component(&mut url.path, component),
        }
    }

    /// Whether `name` may be called.
    pub fn can_be_named(&self) -> (r: bool)
        ensures
            r == self.has_name(),
    {
        match self {
            Location::Local(path) => file_name(path.as_str()).is_some(),
            Location::Remote(_) => true,
        }
    }

    /// The name of the resource: the final component of a local path, the
    /// last segment of a remote one, or the fallback name where the remote
    /// path names a directory.
    pub fn name(&self) -> (r: String)
        requires
            self.has_name(),
        ensures
            r@ == self.name_spec(),
    {
        match self {
            Location::Local(path) => file_name(path.as_str()).unwrap(),
            Location::Remote(url) => {
                let mut segments = components(&url.path);
                if trailing_slash(&url.path) {
                    FALLBACK_NAME.to_owned()
                } else {
                    match segments.pop() {
                        Some(last) => last,
                        None => FALLBACK_NAME.to_owned(),
                    }
                }
            },
        }
    }

    /// The name of the resource, or nothing where a local path has no final
    /// component.
    pub fn checked_name(&self) -> (r: Option<String>)
        ensures
            r is Some == self.has_name(),
            r matches Some(name) ==> name@ == self.name_spec(),
    {
        if self.can_be_named() {
            Some(self.name())
        } else {
            None
        }
    }

    /// The location written out, as it is shown to a user.
    pub fn to_text(&self) -> (r: String)
        ensures
            r@ == self.text(),
    {
        match self {
            Location::Local(path) => path.clone(),
            Location::Remote(url) => format_url(url),
        }
    }
}

/// A remote location whose path has no segment, or ends in a separator,
/// names a directory, and the resource behind it is given the fallback
/// name. This covers `scheme://host`, `scheme://host/` and
/// `scheme://host/dir/` alike.
pub proof fn lemma_remote_directory_has_fallback_name(url: Url)
    requires
        path_components(url.path).len() == 0 || path_trailing_slash(url.path),
    ensures
        remote_is_dir(url.path),
        Location::Remote(url).has_name(),
        Location::Remote(url).name_spec() == FALLBACK_NAME@,
{
}

/// A remote location whose path has a segment and does not end in a
/// separator names no directory, and the resource behind it is named by
/// the last segment.
pub proof fn lemma_remote_file_has_last_segment_as_name(url: Url)
    requires
        path_components(url.path).len() > 0,
        !path_trailing_slash(url.path),
    ensures
        !remote_is_dir(url.path),
        Location::Remote(url).has_name(),
        Location::Remote(url).name_spec() == path_components(url.path).last(),
{
}

/// A remote location to which a component was appended names no directory
/// any more: it names the resource that the component names, on the same
/// host as before.
pub proof fn lemma_extended_remote_is_named_by_component(
    before: Location,
    after: Location,
    component: Seq<char>,
)
    requires
        before is Remote,
        after.is_extension_of(before, component),
    ensures
        after matches Location::Remote(url) && !remote_is_dir(url.path),
        after.name_spec() == component,
        after->Remote_0.authority == before->Remote_0.authority,
        after->Remote_0.scheme == before->Remote_0.scheme,
        after->Remote_0.port == before->Remote_0.port,
{
    let old_path = before->Remote_0.path;
    assert(path_components(old_path).push(component).last() == component);
}

impl std::str::FromStr for Location {
    type Err = std::convert::Infallible;

    /// Reads a location as `Location::parse` does. No text is refused.
    fn from_str(text: &str) -> (r: Result<Location, std::convert::Infallible>)
        ensures
            r matches Ok(location) && location.is_reading_of(text@),
    {
        Ok(Location::parse(text))
    }
}

} // verus!
