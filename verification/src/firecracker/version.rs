//! The version of the Firecracker binary.
use crate::decimal::{decimal_text, is_ascii_digit};
use crate::text::{chars_of, split_lines, split_words, string_of, strip_leading};
use vstd::prelude::*;

verus! {

/// A semantic version.
#[derive(Debug, PartialEq, Eq)]
pub struct Version {
    pub major: u64,
    pub minor: u64,
    pub patch: u64,
    pub pre: String,
    pub build: String,
}

/// Major, minor and patch number of the oldest Firecracker release that is supported.
pub const MIN_FIRECRACKER_MAJOR: u64 = 1;

pub const MIN_FIRECRACKER_MINOR: u64 = 14;

pub const MIN_FIRECRACKER_PATCH: u64 = 1;

impl View for Version {
    type V = (u64, u64, u64, Seq<char>, Seq<char>);

    open spec fn view(&self) -> (u64, u64, u64, Seq<char>, Seq<char>) {
        (self.major, self.minor, self.patch, self.pre@, self.build@)
    }
}

/// `sep` and `s`, or nothing if `s` is empty.
pub open spec fn suffix(sep: Seq<char>, s: Seq<char>) -> Seq<char> {
    if s.len() == 0 {
        Seq::empty()
    } else {
        sep + s
    }
}

/// A version as it is written: `1.14.1`, `1.15.0-rc.1`, `1.15.0+build`.
pub open spec fn semver_text(version: (u64, u64, u64, Seq<char>, Seq<char>)) -> Seq<char> {
    crate::decimal::decimal(version.0 as nat) + "."@ + crate::decimal::decimal(version.1 as nat)
        + "."@ + crate::decimal::decimal(version.2 as nat) + suffix("-"@, version.3) + suffix(
        "+"@,
        version.4,
    )
}

impl Version {
    /// The release with these numbers.
    pub fn new(major: u64, minor: u64, patch: u64) -> (r: Version)
        ensures
            r@ == (major, minor, patch, Seq::<char>::empty(), Seq::<char>::empty()),
    {
        Version { major, minor, patch, pre: String::new(), build: String::new() }
    }

    /// The version as it is written.
    pub fn to_text(&self) -> (r: String)
        ensures
            r@ == semver_text(self@),
    {
        let mut s = decimal_text(self.major);
        s.append(".");
        s.append(decimal_text(self.minor).as_str());
        s.append(".");
        s.append(decimal_text(self.patch).as_str());
        append_suffix(&mut s, "-", self.pre.as_str());
        append_suffix(&mut s, "+", self.build.as_str());
        s
    }
}

/// Appends `sep` and `part`, unless `part` is empty.
fn append_suffix(s: &mut String, sep: &str, part: &str)
    ensures
        final(s)@ == old(s)@ + suffix(sep@, part@),
{
    let chars = chars_of(part);
    if chars.len() > 0 {
        let ghost before = s@;
        s.append(sep);
        s.append(part);
        proof {
            assert(before + sep@ + part@ =~= before + (sep@ + part@));
        }
    } else {
        proof {
            assert(s@ + suffix(sep@, part@) =~= s@);
        }
    }
}

/// What `semver::Version::parse` makes of a text: major, minor and patch number,
/// pre-release and build metadata of the version that it writes, if it writes one.
pub uninterp spec fn semver_of(text: Seq<char>) -> Option<
    (u64, u64, u64, Seq<char>, Seq<char>),
>;

/// `semver::Version::parse` reads a semantic version, or fails; the result depends on the
/// text alone.
#[verifier::external_body]
fn parse_semver(text: &str) -> (r: Option<Version>)
    ensures
        match r {
            Some(version) => semver_of(text@) == Some(version@),
            None => semver_of(text@) is None,
        },
{
    semver::Version::parse(text).ok().map(|v| Version {
        major: v.major,
        minor: v.minor,
        patch: v.patch,
        pre: v.pre.as_str().to_string(),
        build: v.build.as_str().to_string(),
    })
}

/// Whether a version comes before the release `major.minor.patch`: its numbers are smaller,
/// or they are the same and it is a pre-release. Build metadata never puts a version before
/// the release.
pub open spec fn before_release(
    version: (u64, u64, u64, Seq<char>, Seq<char>),
    major: u64,
    minor: u64,
    patch: u64,
) -> bool {
    ||| version.0 < major
    ||| version.0 == major && version.1 < minor
    ||| version.0 == major && version.1 == minor && version.2 < patch
    ||| version.0 == major && version.1 == minor && version.2 == patch && version.3.len() > 0
}

impl Version {
    /// Whether the version comes before the release `major.minor.patch`.
    pub fn is_before_release(&self, major: u64, minor: u64, patch: u64) -> (r: bool)
        ensures
            r == before_release(self@, major, minor, patch),
    {
        if self.major != major {
            self.major < major
        } else if self.minor != minor {
            self.minor < minor
        } else if self.patch != patch {
            self.patch < patch
        } else {
            chars_of(self.pre.as_str()).len() > 0
        }
    }
}

/// Why a version was not accepted.
#[derive(Debug)]
pub enum VersionError {
    /// There was no output at all.
    Empty,
    /// The first line, which holds nothing that looks like a version.
    NoVersion(String),
    /// What looks like a version is none.
    Unparsable,
    /// The version, which is below the minimum.
    TooOld(String),
}

impl VersionError {
    /// What is reported.
    pub open spec fn text(self) -> Seq<char> {
        match self {
            VersionError::Empty => "Version output was empty"@,
            VersionError::NoVersion(line) => "No version number found in output: "@ + line@,
            VersionError::Unparsable => "Failed to parse Firecracker version string"@,
            VersionError::TooOld(version) => "Firecracker version "@ + version@
                + " is too old. Minimum required: 1.14.1"@,
        }
    }

    /// What is reported.
    pub fn message(&self) -> (r: String)
        ensures
            r@ == self.text(),
    {
        match self {
            VersionError::Empty => "Version output was empty".to_string(),
            VersionError::NoVersion(line) => {
                let mut msg = "No version number found in output: ".to_string();
                msg.append(line.as_str());
                msg
            },
            VersionError::Unparsable => "Failed to parse Firecracker version string".to_string(),
            VersionError::TooOld(version) => {
                let mut msg = "Firecracker version ".to_string();
                msg.append(version.as_str());
                msg.append(" is too old. Minimum required: 1.14.1");
                msg
            },
        }
    }
}

/// Whether a word looks like a version: it starts with `v` or a digit.
pub open spec fn like_version(word: Seq<char>) -> bool {
    word.len() > 0 && (word[0] == 'v' || crate::decimal::is_digit(word[0]))
}

/// The first of the words that looks like a version.
pub open spec fn first_version(words: Seq<Seq<char>>) -> Option<Seq<char>>
    decreases words.len(),
{
    if words.len() == 0 {
        None
    } else if like_version(words[0]) {
        Some(words[0])
    } else {
        first_version(words.skip(1))
    }
}

/// The version as it stands in the output: the first word of the first line that looks like
/// one, without any leading `v`.
pub open spec fn version_text(output: Seq<char>) -> Option<Seq<char>> {
    let lines = crate::text::lines(output);
    if lines.len() == 0 {
        None
    } else {
        match first_version(crate::text::words(lines[0])) {
            Some(word) => Some(crate::text::without_leading(word, 'v')),
            None => None,
        }
    }
}

/// Finds the version in the output of `firecracker --version`, such as
/// `Firecracker v1.14.1`. Lines behind the first may hold exit messages and timestamps.
pub fn find_version(version_output: &str) -> (r: Result<String, VersionError>)
    ensures
        match r {
            Ok(text) => version_text(version_output@) == Some(text@),
            Err(e) => {
                &&& version_text(version_output@) is None
                &&& match e {
                    VersionError::Empty => crate::text::lines(version_output@).len() == 0,
                    VersionError::NoVersion(line) => crate::text::lines(version_output@).len() > 0
                        && line@ == crate::text::lines(version_output@)[0],
                    _ => false,
                }
            },
        },
{
    let chars = chars_of(version_output);
    let lines = split_lines(&chars);
    let ghost all = crate::text::views(lines@);
    if lines.len() == 0 {
        return Err(VersionError::Empty);
    }
    proof {
        assert(all[0] == lines@[0]@);
    }
    let words = split_words(&lines[0]);
    let ghost parts = crate::text::views(words@);
    let mut i: usize = 0;
    proof {
        assert(parts.skip(0) =~= parts);
    }
    while i < words.len()
        invariant
            i <= words@.len(),
            lines@.len() > 0,
            all == crate::text::lines(version_output@),
            all.len() > 0,
            all[0] == lines@[0]@,
            parts == crate::text::views(words@),
            parts == crate::text::words(all[0]),
            first_version(parts.skip(i as int)) == first_version(parts),
        decreases words@.len() - i,
    {
        proof {
            assert(parts.skip(i as int)[0] == words@[i as int]@);
            assert(parts.skip(i as int).skip(1) =~= parts.skip(i + 1));
        }
        let word = &words[i];
        if word.len() > 0 && (word[0] == 'v' || is_ascii_digit(word[0])) {
            return Ok(string_of(&strip_leading(word, 'v')));
        }
        i += 1;
    }
    Err(VersionError::NoVersion(string_of(&lines[0])))
}

/// Whether a version is one that is supported.
pub open spec fn supported(version: (u64, u64, u64, Seq<char>, Seq<char>)) -> bool {
    !before_release(
        version,
        MIN_FIRECRACKER_MAJOR,
        MIN_FIRECRACKER_MINOR,
        MIN_FIRECRACKER_PATCH,
    )
}

/// Accepts a version that was read, unless it is below the minimum.
pub fn require_minimum(version: Option<Version>) -> (r: Result<Version, VersionError>)
    ensures
        match version {
            None => r matches Err(VersionError::Unparsable),
            Some(v) => if supported(v@) {
                r == Ok::<Version, VersionError>(v)
            } else {
                r matches Err(VersionError::TooOld(text)) && text@ == semver_text(v@)
            },
        },
{
    match version {
        None => Err(VersionError::Unparsable),
        Some(version) => if version.is_before_release(
            MIN_FIRECRACKER_MAJOR,
            MIN_FIRECRACKER_MINOR,
            MIN_FIRECRACKER_PATCH,
        ) {
            Err(VersionError::TooOld(version.to_text()))
        } else {
            Ok(version)
        },
    }
}

/// The version that the output names, if it names one that is supported.
pub open spec fn accepted_version(output: Seq<char>) -> Option<
    (u64, u64, u64, Seq<char>, Seq<char>),
> {
    match version_text(output) {
        Some(text) => match semver_of(text) {
            Some(version) => if supported(version) {
                Some(version)
            } else {
                None
            },
            None => None,
        },
        None => None,
    }
}

/// Parses Firecracker version output and validates it meets minimum requirements.
///
/// Fails if no version can be found or parsed, or if it is below the minimum.
pub fn parse_and_validate_version(version_output: &str) -> (r: Result<Version, VersionError>)
    ensures
        match r {
            Ok(version) => accepted_version(version_output@) == Some(version@),
            Err(e) => {
                &&& accepted_version(version_output@) is None
                &&& match version_text(version_output@) {
                    None => {
                        ||| e is Empty && crate::text::lines(version_output@).len() == 0
                        ||| e matches VersionError::NoVersion(line) && crate::text::lines(
                            version_output@,
                        ).len() > 0 && line@ == crate::text::lines(version_output@)[0]
                    },
                    Some(text) => match semver_of(text) {
                        None => e is Unparsable,
                        Some(v) => e matches VersionError::TooOld(shown) && shown@ == semver_text(
                            v,
                        ),
                    },
                }
            },
        },
{
    let text = match find_version(version_output) {
        Ok(text) => text,
        Err(e) => return Err(e),
    };
    require_minimum(parse_semver(text.as_str()))
}

/// Whether a version is at least 1.14.1: its numbers are greater, one after the other, or they
/// are the same and it is no pre-release.
pub proof fn minimum_is_1_14_1(v: Version, r: Result<Version, VersionError>)
    requires
        call_ensures(require_minimum, (Some(v),), r),
    ensures
        r is Ok <==> {
            ||| v.major > 1
            ||| v.major == 1 && v.minor > 14
            ||| v.major == 1 && v.minor == 14 && v.patch > 1
            ||| v.major == 1 && v.minor == 14 && v.patch == 1 && v.pre@.len() == 0
        },
        r matches Ok(accepted) ==> accepted == v,
        r is Err ==> r->Err_0 is TooOld,
        v@ == (v.major, v.minor, v.patch, v.pre@, v.build@),
{
}

/// A version comes before a release by its numbers, or as a pre-release of it; build metadata
/// do not count. What comes before a release comes before every later one.
pub proof fn releases_are_ordered(
    v: Version,
    major: u64,
    minor: u64,
    patch: u64,
    r: bool,
    later: u64,
    s: bool,
)
    requires
        call_ensures(Version::is_before_release, (&v, major, minor, patch), r),
        call_ensures(Version::is_before_release, (&v, major, minor, later), s),
        patch <= later,
    ensures
        v.major != major ==> r == (v.major < major),
        v.major == major && v.minor != minor ==> r == (v.minor < minor),
        v.major == major && v.minor == minor && v.patch != patch ==> r == (v.patch < patch),
        v.major == major && v.minor == minor && v.patch == patch ==> r == (v.pre@.len() > 0),
        r ==> s,
{
}

/// A version is written as its three numbers between dots, with what marks a pre-release and
/// the build behind them.
pub proof fn versions_are_written(v: Version, r: String, plain: Version)
    requires
        call_ensures(Version::to_text, (&v,), r),
        call_ensures(Version::new, (v.major, v.minor, v.patch), plain),
    ensures
        v.pre@.len() == 0 && v.build@.len() == 0 ==> crate::text::fields(r@, '.') == seq![
            crate::decimal::decimal(v.major as nat),
            crate::decimal::decimal(v.minor as nat),
            crate::decimal::decimal(v.patch as nat),
        ],
        forall|s: String|
            #[trigger] call_ensures(Version::to_text, (&plain,), s) ==> s@.is_prefix_of(r@)
                && r@.len() == s@.len() + (if v.pre@.len() == 0 {
                0
            } else {
                v.pre@.len() + 1
            }) + (if v.build@.len() == 0 {
                0
            } else {
                v.build@.len() + 1
            }),
        v.build@.len() > 0 ==> ("+"@ + v.build@).is_suffix_of(r@),
        v.build@.len() == 0 && v.pre@.len() > 0 ==> ("-"@ + v.pre@).is_suffix_of(r@),
        plain.major == v.major && plain.minor == v.minor && plain.patch == v.patch,
        plain.pre@.len() == 0 && plain.build@.len() == 0,
{
    reveal_strlit(".");
    reveal_strlit("-");
    reveal_strlit("+");
    let (a, b, c) = (
        crate::decimal::decimal(v.major as nat),
        crate::decimal::decimal(v.minor as nat),
        crate::decimal::decimal(v.patch as nat),
    );
    let dot = seq!['.'];
    let front = a + dot + b + dot + c;
    assert("."@ =~= dot);
    assert(front =~= r@.subrange(0, front.len() as int));
    if v.pre@.len() == 0 && v.build@.len() == 0 {
        no_dot(v.major as nat);
        no_dot(v.minor as nat);
        no_dot(v.patch as nat);
        assert(r@ =~= a + dot + (b + dot + c));
        crate::text::first_field(a, '.', b + dot + c);
        crate::text::first_field(b, '.', c);
        crate::text::first_field(c, '.', Seq::empty());
        assert(crate::text::fields(r@, '.') =~= seq![a, b, c]);
    }
    if v.build@.len() > 0 {
        let tail = "+"@ + v.build@;
        assert(tail =~= r@.subrange(r@.len() - tail.len(), r@.len() as int));
    } else if v.pre@.len() > 0 {
        let tail = "-"@ + v.pre@;
        assert(tail =~= r@.subrange(r@.len() - tail.len(), r@.len() as int));
    }
    assert forall|s: String| #[trigger]
        call_ensures(Version::to_text, (&plain,), s) implies s@.is_prefix_of(r@) && r@.len()
        == s@.len() + (if v.pre@.len() == 0 {
        0
    } else {
        v.pre@.len() + 1
    }) + (if v.build@.len() == 0 {
        0
    } else {
        v.build@.len() + 1
    }) by {
        assert(s@ =~= front);
        assert(s@ =~= r@.subrange(0, s@.len() as int));
    }
}

/// A written number holds no dot.
proof fn no_dot(n: nat)
    ensures
        !crate::decimal::decimal(n).contains('.'),
{
    let s = crate::decimal::decimal(n);
    crate::decimal::decimal_digits(n);
    assert forall|i: int| 0 <= i < s.len() implies s[i] != '.' by {
        assert(crate::decimal::is_digit(s[i]));
    }
}

/// The version is the first word of the first line that begins with `v` or a digit, without
/// the `v`s in front of it, whatever the other words and lines are.
pub proof fn first_version_is_found(
    front: Seq<Seq<char>>,
    vs: Seq<char>,
    text: Seq<char>,
    back: Seq<Seq<char>>,
    output: &str,
    r: Result<String, VersionError>,
)
    requires
        crate::text::lines(output@).len() > 0,
        crate::text::words(crate::text::lines(output@)[0]) == front + seq![vs + text] + back,
        forall|i: int|
            0 <= i < front.len() ==> (#[trigger] front[i]).len() == 0 || (front[i][0] != 'v' && !(48
                <= front[i][0] as int <= 57)),
        forall|i: int| 0 <= i < vs.len() ==> #[trigger] vs[i] == 'v',
        vs.len() > 0 || (text.len() > 0 && 48 <= text[0] as int <= 57),
        text.len() == 0 || text[0] != 'v',
        call_ensures(find_version, (output,), r),
    ensures
        r matches Ok(found) && found@ == text,
{
    let word = vs + text;
    first_version_skips(front, word, back);
    assert(like_version(word)) by {
        if vs.len() > 0 {
            assert(word[0] == vs[0]);
        } else {
            assert(word[0] == text[0]);
        }
    }
    crate::text::without_leading_takes_all(vs, text, 'v');
}

/// Words that do not look like a version are passed over.
proof fn first_version_skips(front: Seq<Seq<char>>, word: Seq<char>, back: Seq<Seq<char>>)
    requires
        forall|i: int|
            0 <= i < front.len() ==> (#[trigger] front[i]).len() == 0 || (front[i][0] != 'v' && !(48
                <= front[i][0] as int <= 57)),
        like_version(word),
    ensures
        first_version(front + seq![word] + back) == Some(word),
    decreases front.len(),
{
    let all = front + seq![word] + back;
    if front.len() == 0 {
        assert(all[0] == word);
    } else {
        assert(all[0] == front[0]);
        assert(!like_version(front[0]));
        assert(all.skip(1) =~= front.skip(1) + seq![word] + back);
        assert forall|i: int| 0 <= i < front.skip(1).len() implies (
        #[trigger] front.skip(1)[i]).len() == 0 || (front.skip(1)[i][0] != 'v' && !(48
            <= front.skip(1)[i][0] as int <= 57)) by {
            assert(front.skip(1)[i] == front[i + 1]);
        }
        first_version_skips(front.skip(1), word, back);
    }
}

/// An output is accepted exactly if a version is found in it, can be read, and is at least the
/// minimum; the version that was read is then given.
pub proof fn found_version_is_judged(
    output: &str,
    found: Result<String, VersionError>,
    r: Result<Version, VersionError>,
)
    requires
        call_ensures(find_version, (output,), found),
        call_ensures(parse_and_validate_version, (output,), r),
    ensures
        found is Err ==> r is Err,
        found matches Ok(text) ==> match semver_of(text@) {
            None => r matches Err(VersionError::Unparsable),
            Some(v) => if v.0 > 1 || (v.0 == 1 && (v.1 > 14 || (v.1 == 14 && (v.2 > 1 || (v.2 == 1
                && v.3.len() == 0))))) {
                r matches Ok(version) && version.major == v.0 && version.minor == v.1
                    && version.patch == v.2 && version.pre@ == v.3 && version.build@ == v.4
            } else {
                r matches Err(VersionError::TooOld(_))
            },
        },
{
}

/// What is reported of an output that was not accepted.
pub proof fn version_errors_are_told(e: VersionError, r: String)
    requires
        call_ensures(VersionError::message, (&e,), r),
    ensures
        r@ == match e {
            VersionError::Empty => "Version output was empty"@,
            VersionError::NoVersion(line) => "No version number found in output: "@ + line@,
            VersionError::Unparsable => "Failed to parse Firecracker version string"@,
            VersionError::TooOld(version) => "Firecracker version "@ + version@
                + " is too old. Minimum required: 1.14.1"@,
        },
{
}

/// An output without lines is empty; one whose first line has no word that begins with `v` or a
/// digit names no version, and the line is quoted.
pub proof fn missing_versions_are_told(output: &str, r: Result<String, VersionError>)
    requires
        call_ensures(find_version, (output,), r),
    ensures
        crate::text::lines(output@).len() == 0 ==> r matches Err(VersionError::Empty),
        crate::text::lines(output@).len() > 0 && (forall|i: int|
            0 <= i < crate::text::words(crate::text::lines(output@)[0]).len() ==> ({
                let word = #[trigger] crate::text::words(crate::text::lines(output@)[0])[i];
                word.len() == 0 || (word[0] != 'v' && !(48 <= word[0] as int <= 57))
            })) ==> (r matches Err(VersionError::NoVersion(line)) && line@ == crate::text::lines(
            output@,
        )[0]),
{
    if crate::text::lines(output@).len() > 0 {
        let words = crate::text::words(crate::text::lines(output@)[0]);
        if forall|i: int|
            0 <= i < words.len() ==> ({
                let word = #[trigger] words[i];
                word.len() == 0 || (word[0] != 'v' && !(48 <= word[0] as int <= 57))
            }) {
            no_version_among(words);
        }
    }
}

/// Where no word looks like a version there is none.
proof fn no_version_among(words: Seq<Seq<char>>)
    requires
        forall|i: int|
            0 <= i < words.len() ==> ({
                let word = #[trigger] words[i];
                word.len() == 0 || (word[0] != 'v' && !(48 <= word[0] as int <= 57))
            }),
    ensures
        first_version(words) is None,
    decreases words.len(),
{
    if words.len() > 0 {
        assert(!like_version(words[0])) by {
            let word = words[0];
            assert(word.len() == 0 || (word[0] != 'v' && !(48 <= word[0] as int <= 57)));
        }
        assert forall|i: int| 0 <= i < words.skip(1).len() implies ({
            let word = #[trigger] words.skip(1)[i];
            word.len() == 0 || (word[0] != 'v' && !(48 <= word[0] as int <= 57))
        }) by {
            assert(words.skip(1)[i] == words[i + 1]);
        }
        no_version_among(words.skip(1));
    }
}

/// A version is written as its release, then the pre-release behind `-`, then the build behind
/// `+`, each only if there is one.
pub proof fn marks_follow_the_release(v: Version, r: String, plain: Version, release: String)
    requires
        call_ensures(Version::to_text, (&v,), r),
        call_ensures(Version::new, (v.major, v.minor, v.patch), plain),
        call_ensures(Version::to_text, (&plain,), release),
    ensures
        r@ == release@ + (if v.pre@.len() == 0 {
            Seq::empty()
        } else {
            seq!['-'] + v.pre@
        }) + (if v.build@.len() == 0 {
            Seq::empty()
        } else {
            seq!['+'] + v.build@
        }),
{
    reveal_strlit("-");
    reveal_strlit("+");
    assert("-"@ =~= seq!['-']);
    assert("+"@ =~= seq!['+']);
    assert(r@ =~= release@ + (if v.pre@.len() == 0 {
        Seq::empty()
    } else {
        seq!['-'] + v.pre@
    }) + (if v.build@.len() == 0 {
        Seq::empty()
    } else {
        seq!['+'] + v.build@
    }));
}

/// A version that is too old is told as it is written; what cannot be read as a version is told
/// as such; and an output without a version is told as it was found.
pub proof fn refused_versions_are_told(
    v: Version,
    text: String,
    r: Result<Version, VersionError>,
    unread: Result<Version, VersionError>,
    output: &str,
    found: Result<String, VersionError>,
    judged: Result<Version, VersionError>,
)
    requires
        call_ensures(Version::to_text, (&v,), text),
        call_ensures(require_minimum, (Some(v),), r),
        call_ensures(require_minimum, (None::<Version>,), unread),
        call_ensures(find_version, (output,), found),
        call_ensures(parse_and_validate_version, (output,), judged),
    ensures
        r is Err ==> (r->Err_0 matches VersionError::TooOld(told) && told@ == text@),
        unread matches Err(VersionError::Unparsable),
        found matches Err(VersionError::Empty) ==> judged matches Err(VersionError::Empty),
        found matches Err(VersionError::NoVersion(line)) ==> (judged matches Err(
            VersionError::NoVersion(told),
        ) && told@ == line@),
        found matches Ok(word) && semver_of(word@) == Some(v@) ==> (judged matches Err(
            VersionError::TooOld(told),
        ) ==> told@ == text@),
{
}

} // verus!
