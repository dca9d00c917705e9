use vstd::prelude::*;
use vstd::string::{StringExecFns, StringSliceAdditionalSpecFns};
use vstd::utf8::{decode_utf8, encode_utf8, is_char_boundary, valid_utf8};

verus! {

/// The earliest instant, in milliseconds since the Unix epoch, that chrono can
/// represent: the first millisecond of January 1 of year -262143.
pub const MIN_TIMESTAMP_MS: i64 = -8334601228800000;

/// The last instant, in milliseconds since the Unix epoch, that chrono can
/// represent: the last millisecond of December 31 of year 262142.
pub const MAX_TIMESTAMP_MS: i64 = 8210266876799999;

/// How many bytes of a commit identifier a build line shows at most.
pub const SHORT_SHA_LEN: usize = 7;

/// The RFC 3339 text, in UTC, of the instant `ms` milliseconds after the Unix epoch.
pub uninterp spec fn rfc3339_utc(ms: int) -> Seq<char>;

/// Relies on chrono's `DateTime::<Utc>::from_timestamp_millis`, which gives `None`
/// exactly when the instant lies outside the dates chrono represents, and on
/// `DateTime::to_rfc3339`, which writes the instant out as text.
#[verifier::external_body]
fn utc_rfc3339_from_millis(ms: i64) -> (r: Option<String>)
    ensures
        r is Some <==> MIN_TIMESTAMP_MS <= ms <= MAX_TIMESTAMP_MS,
        r matches Some(s) ==> s@ == rfc3339_utc(ms as int),
{
    chrono::DateTime::<chrono::Utc>::from_timestamp_millis(ms).map(|dt| dt.to_rfc3339())
}

/// The time text of a build line: the build instant, or the Unix epoch where the
/// timestamp lies outside the representable dates.
pub open spec fn build_time_text(ms: int) -> Seq<char> {
    if MIN_TIMESTAMP_MS <= ms <= MAX_TIMESTAMP_MS {
        rfc3339_utc(ms)
    } else {
        rfc3339_utc(0)
    }
}

/// The last character boundary of the UTF-8 bytes `b` at or before byte `i`.
pub open spec fn boundary_at_or_before(b: Seq<u8>, i: int) -> int
    decreases i,
{
    if i <= 0 {
        0
    } else if is_char_boundary(b, i) {
        i
    } else {
        boundary_at_or_before(b, i - 1)
    }
}

/// The UTF-8 bytes of the shortened form of a commit identifier whose bytes are
/// `b`: its first seven bytes when it is longer. Where byte seven falls inside a
/// character, the cut moves back to that character's start, so that whole
/// characters are kept.
pub open spec fn short_sha_bytes(b: Seq<u8>) -> Seq<u8> {
    if b.len() > SHORT_SHA_LEN {
        b.subrange(0, boundary_at_or_before(b, SHORT_SHA_LEN as int))
    } else {
        b
    }
}

/// The shortened form of a commit identifier, as characters.
pub open spec fn short_sha(sha: Seq<char>) -> Seq<char> {
    decode_utf8(short_sha_bytes(encode_utf8(sha)))
}

/// Build information captured when the program was compiled.
#[derive(Debug, Clone)]
pub struct BuildInfo {
    /// Hostname where the binary was built
    pub build_host: String,
    /// Commit identifier of the build
    pub commit_sha: String,
    /// Build timestamp in milliseconds since the Unix epoch
    pub build_timestamp_ms: i64,
}

impl BuildInfo {
    /// The build line with `time` as its time text:
    /// `Build: <short sha> @ <host> (<time>)`.
    pub open spec fn line_with_time(self, time: Seq<char>) -> Seq<char> {
        "Build: "@ + short_sha(self.commit_sha@) + " @ "@ + self.build_host@ + " ("@ + time + ")"@
    }

    /// The build line of this build information.
    pub open spec fn line(self) -> Seq<char> {
        self.line_with_time(build_time_text(self.build_timestamp_ms as int))
    }

    pub fn new(build_host: String, commit_sha: String, build_timestamp_ms: i64) -> (r: Self)
        ensures
            r.build_host == build_host,
            r.commit_sha == commit_sha,
            r.build_timestamp_ms == build_timestamp_ms,
    {
        BuildInfo { build_host, commit_sha, build_timestamp_ms }
    }

    /// The shortened commit identifier shown in the build line.
    pub fn short_sha(&self) -> (r: String)
        ensures
            encode_utf8(r@) == short_sha_bytes(encode_utf8(self.commit_sha@)),
            r@ == short_sha(self.commit_sha@),
    {
        broadcast use vstd::utf8::group_utf8_lib;

        let sha = self.commit_sha.as_str();
        let ghost b = encode_utf8(sha@);
        assert(valid_utf8(b));
        assert(sha.spec_bytes() == b);
        let n = sha.as_bytes().len();
        if n <= SHORT_SHA_LEN {
            let r = String::from_str(sha);
            assert(b.len() <= SHORT_SHA_LEN);
            assert(decode_utf8(b) == sha@);
            return r;
        }
        let mut cut: usize = SHORT_SHA_LEN;
        while !sha.is_char_boundary(cut)
            invariant
                cut <= SHORT_SHA_LEN,
                b.len() > SHORT_SHA_LEN,
                valid_utf8(b),
                sha.spec_bytes() == b,
                boundary_at_or_before(b, cut as int) == boundary_at_or_before(
                    b,
                    SHORT_SHA_LEN as int,
                ),
            decreases cut,
        {
            assert(is_char_boundary(b, 0));
            cut = cut - 1;
        }
        let (head, _tail) = sha.split_at(cut);
        let r = String::from_str(head);
        proof {
            assert(encode_utf8(r@) =~= b.subrange(0, cut as int));
        }
        r
    }

    /// The build line, with `time` standing for the build instant.
    pub fn format_with_time(&self, time: &str) -> (r: String)
        ensures
            r@ == self.line_with_time(time@),
    {
        let mut out = String::from_str("Build: ");
        let sha = self.short_sha();
        out.append(sha.as_str());
        out.append(" @ ");
        out.append(self.build_host.as_str());
        out.append(" (");
        out.append(time);
        out.append(")");
        out
    }

    /// The build line: `Build: <short sha> @ <host> (<RFC 3339 time in UTC>)`.
    ///
    /// A timestamp outside the dates chrono represents shows as the Unix epoch.
    pub fn to_string(&self) -> (r: String)
        ensures
            r@ == self.line(),
    {
        let time = match utc_rfc3339_from_millis(self.build_timestamp_ms) {
            Some(t) => t,
            None => match utc_rfc3339_from_millis(0) {
                Some(t) => t,
                None => String::new(),
            },
        };
        self.format_with_time(time.as_str())
    }
}

/// Version information of a program.
#[derive(Debug, Clone)]
pub struct Version {
    /// Semantic version number (e.g., "0.1.0")
    pub version: String,
    /// Copyright notice
    pub copyright: String,
    /// License name (e.g., "MIT", "Apache-2.0")
    pub license_name: String,
    /// URL of the license text
    pub license_url: String,
    /// Build information
    pub build_info: BuildInfo,
}

impl Version {
    /// The version text with `build` as its last line:
    /// `Version: <version>`, the copyright, `<license name> License: <url>`, then `build`.
    pub open spec fn text_with_build(self, build: Seq<char>) -> Seq<char> {
        "Version: "@ + self.version@ + "\n"@ + self.copyright@ + "\n"@ + self.license_name@
            + " License: "@ + self.license_url@ + "\n"@ + build
    }

    /// The full version text.
    pub open spec fn text(self) -> Seq<char> {
        self.text_with_build(self.build_info.line())
    }

    pub fn new(
        version: String,
        copyright: String,
        license_name: String,
        license_url: String,
        build_info: BuildInfo,
    ) -> (r: Self)
        ensures
            r.version == version,
            r.copyright == copyright,
            r.license_name == license_name,
            r.license_url == license_url,
            r.build_info == build_info,
    {
        Version { version, copyright, license_name, license_url, build_info }
    }

    /// The version text, with `build` as its last line.
    pub fn format_with_build(&self, build: &str) -> (r: String)
        ensures
            r@ == self.text_with_build(build@),
    {
        let mut out = String::from_str("Version: ");
        out.append(self.version.as_str());
        out.append("\n");
        out.append(self.copyright.as_str());
        out.append("\n");
        out.append(self.license_name.as_str());
        out.append(" License: ");
        out.append(self.license_url.as_str());
        out.append("\n");
        out.append(build);
        out
    }

    /// The version text: four lines, the last of them the build line.
    pub fn to_string(&self) -> (r: String)
        ensures
            r@ == self.text(),
    {
        let build = self.build_info.to_string();
        self.format_with_build(build.as_str())
    }
}

} // verus!
