//! Self-update checks: the GitHub token, release tags as semantic versions,
//! whether a release is newer, its assets, and the SHA-256 checksum a
//! release publishes for its binary.

use vstd::prelude::*;
use sha2::Digest;
use crate::config::Config;
use crate::text::{
    chars_of, concat, lemma_contains_concat, lemma_no_whitespace_no_newline, lemma_split_on_join,
    lemma_split_on_single, lemma_ws_tokens_space, lemma_ws_tokens_word, no_whitespace, push_char,
    split_chars, split_on, split_whitespace, str_eq, string_of, string_of_range, views, ws_tokens,
};

verus! {

/// What `Sha256::digest` returns for the given bytes.
pub uninterp spec fn spec_sha256(data: Seq<u8>) -> Seq<u8>;

/// sha2 `Sha256::digest`: the digest is named `spec_sha256` of the input
/// bytes, and holds 32 bytes (SHA-256's output size).
#[verifier::external_body]
fn sha256(data: &[u8]) -> (r: Vec<u8>)
    ensures
        r@ == spec_sha256(data@),
        r@.len() == 32,
{
    sha2::Sha256::digest(data).to_vec()
}

/// Lowercase hexadecimal digit for `d < 16`.
pub open spec fn hex_digit(d: nat) -> char {
    if d < 10 {
        ((d + 48) as u8) as char
    } else {
        ((d - 10 + 97) as u8) as char
    }
}

/// Lowercase hexadecimal, two digits per byte (`{:x}` of a digest).
pub open spec fn hex_lower(bytes: Seq<u8>) -> Seq<char>
    decreases bytes.len(),
{
    if bytes.len() == 0 {
        Seq::<char>::empty()
    } else {
        let b = bytes.last();
        hex_lower(bytes.drop_last()).push(hex_digit((b / 16) as nat)).push(hex_digit((b % 16) as nat))
    }
}

fn hex_char(d: u8) -> (c: char)
    requires
        d < 16,
    ensures
        c == hex_digit(d as nat),
{
    if d < 10 {
        (d + 48) as char
    } else {
        (d - 10 + 97) as char
    }
}

/// Writes bytes as lowercase hexadecimal.
pub fn to_hex_lower(bytes: &Vec<u8>) -> (r: String)
    ensures
        r@ == hex_lower(bytes@),
{
    let mut r = String::new();
    let mut i: usize = 0;
    assert(bytes@.take(0) =~= Seq::<u8>::empty());
    while i < bytes.len()
        invariant
            i <= bytes.len(),
            r@ == hex_lower(bytes@.take(i as int)),
        decreases bytes.len() - i,
    {
        let b = bytes[i];
        assert(bytes@.take(i + 1).drop_last() =~= bytes@.take(i as int));
        push_char(&mut r, hex_char(b / 16));
        push_char(&mut r, hex_char(b % 16));
        i += 1;
    }
    assert(bytes@.take(bytes@.len() as int) =~= bytes@);
    r
}

/// The lines of `s` (`str::lines`): split at `\n`, a `\r` before a `\n`
/// dropped, and no empty last line after a final `\n`.
pub open spec fn lines_of(s: Seq<char>) -> Seq<Seq<char>> {
    let p = split_on(s, '\n');
    let q = if s.len() == 0 || s.last() == '\n' {
        p.drop_last()
    } else {
        p
    };
    Seq::new(
        q.len(),
        |i: int|
            if i < p.len() - 1 && q[i].len() > 0 && q[i].last() == '\r' {
                q[i].drop_last()
            } else {
                q[i]
            },
    )
}

/// `s` ends with `t`.
pub open spec fn has_suffix(s: Seq<char>, t: Seq<char>) -> bool {
    t.len() <= s.len() && s.skip(s.len() - t.len()) == t
}

/// The first line of `lines` ending with `filename`, if any.
pub open spec fn first_ending_with(lines: Seq<Seq<char>>, filename: Seq<char>) -> Option<Seq<char>>
    decreases lines.len(),
{
    if lines.len() == 0 {
        None
    } else if has_suffix(lines[0], filename) {
        Some(lines[0])
    } else {
        first_ending_with(lines.drop_first(), filename)
    }
}

/// The hash a checksums file lists for `filename`: the first word of the
/// first line that ends with `filename`.
pub open spec fn listed_hash(checksums: Seq<char>, filename: Seq<char>) -> Option<Seq<char>> {
    match first_ending_with(lines_of(checksums), filename) {
        Some(line) => if ws_tokens(line).len() > 0 {
            Some(ws_tokens(line)[0])
        } else {
            None
        },
        None => None,
    }
}

/// Why a release could not be used.
#[derive(Debug)]
pub enum UpgradeError {
    /// The tag is not a semantic version.
    InvalidVersionTag { tag: String },
    /// The checksums file lists no hash for the file.
    NoChecksum { filename: String },
    /// The file's hash differs from the listed one.
    ChecksumMismatch { filename: String, expected: String, actual: String },
    /// No GitHub token is configured (or it is empty).
    NoGithubToken,
    /// The running program's own version is not a semantic version.
    InvalidCurrentVersion { version: String },
    /// The release has no asset of this name.
    MissingAsset { name: String },
    /// The release's binary or checksum asset (`asset` says which) has no
    /// download URL.
    MissingAssetUrl { asset: String },
}

impl UpgradeError {
    /// The text shown to the user for this error.
    pub open spec fn spec_message(&self) -> Seq<char> {
        match self {
            UpgradeError::InvalidVersionTag { tag } => "Invalid version tag: "@ + tag@,
            UpgradeError::NoChecksum { filename } => "No checksum found for "@ + filename@,
            UpgradeError::ChecksumMismatch { filename, expected, actual } => "Checksum mismatch for "@
                + filename@ + ":\n  expected: "@ + expected@ + "\n  actual:   "@ + actual@,
            UpgradeError::NoGithubToken => "No GitHub token configured. Run the install script or add github_token to ~/.config/os/config.toml"@,
            UpgradeError::InvalidCurrentVersion { .. } => "Failed to parse current version"@,
            UpgradeError::MissingAsset { name } => "No "@ + name@ + " asset in release"@,
            UpgradeError::MissingAssetUrl { asset } => "No URL for "@ + asset@ + " asset"@,
        }
    }

    /// The text shown to the user for this error (see `spec_message`).
    pub fn message(&self) -> (r: String)
        ensures
            r@ == self.spec_message(),
    {
        match self {
            UpgradeError::InvalidVersionTag { tag } => concat("Invalid version tag: ", tag.as_str()),
            UpgradeError::NoChecksum { filename } => concat("No checksum found for ", filename.as_str()),
            UpgradeError::ChecksumMismatch { filename, expected, actual } => {
                let mut r = concat("Checksum mismatch for ", filename.as_str());
                r.append(":\n  expected: ");
                r.append(expected.as_str());
                r.append("\n  actual:   ");
                r.append(actual.as_str());
                r
            },
            UpgradeError::NoGithubToken => String::from_str(
                "No GitHub token configured. Run the install script or add github_token to ~/.config/os/config.toml",
            ),
            UpgradeError::InvalidCurrentVersion { .. } => String::from_str("Failed to parse current version"),
            UpgradeError::MissingAsset { name } => {
                let mut r = concat("No ", name.as_str());
                r.append(" asset in release");
                r
            },
            UpgradeError::MissingAssetUrl { asset } => {
                let mut r = concat("No URL for ", asset.as_str());
                r.append(" asset");
                r
            },
        }
    }
}

fn lines_of_exec(s: &str) -> (r: Vec<Vec<char>>)
    ensures
        views(r@) == lines_of(s@),
{
    let v = chars_of(s);
    let mut p = split_chars(&v, '\n');
    let ghost pv = views(p@);
    let n = p.len();
    if v.len() == 0 || v[v.len() - 1] == '\n' {
        p.pop();
    }
    let ghost qv = views(p@);
    assert(qv =~= (if s@.len() == 0 || s@.last() == '\n' { pv.drop_last() } else { pv }));
    let mut r: Vec<Vec<char>> = Vec::new();
    let mut i: usize = 0;
    while i < p.len()
        invariant
            i <= p.len(),
            n == pv.len(),
            qv == views(p@),
            p.len() <= n,
            pv == split_on(s@, '\n'),
            qv == (if s@.len() == 0 || s@.last() == '\n' { pv.drop_last() } else { pv }),
            r.len() == i,
            forall|k: int| 0 <= k < i ==> #[trigger] r@[k]@ == (if k < pv.len() - 1 && qv[k].len() > 0 && qv[k].last() == '\r' {
                qv[k].drop_last()
            } else {
                qv[k]
            }),
        decreases p.len() - i,
    {
        let line = &p[i];
        assert(qv[i as int] == line@);
        if i + 1 < n && line.len() > 0 && line[line.len() - 1] == '\r' {
            let cut = string_of_range(line, 0, line.len() - 1);
            let cv = chars_of(cut.as_str());
            assert(cv@ =~= line@.drop_last());
            r.push(cv);
        } else {
            let cv = chars_of(string_of(line).as_str());
            r.push(cv);
        }
        i += 1;
    }
    assert(views(r@) =~= lines_of(s@));
    r
}

fn ends_with(v: &Vec<char>, t: &Vec<char>) -> (r: bool)
    ensures
        r == has_suffix(v@, t@),
{
    if t.len() > v.len() {
        return false;
    }
    let off = v.len() - t.len();
    let mut k: usize = 0;
    while k < t.len()
        invariant
            off + t.len() == v.len(),
            k <= t.len(),
            forall|m: int| 0 <= m < k ==> v@[off + m] == t@[m],
        decreases t.len() - k,
    {
        if v[off + k] != t[k] {
            assert(v@.skip(off as int)[k as int] != t@[k as int]);
            return false;
        }
        k += 1;
    }
    assert(v@.skip(off as int) =~= t@);
    true
}

/// The hash listed for `filename` in a checksums file
/// (`<hash>  <filename>` lines).
pub fn find_listed_hash(checksums: &str, filename: &str) -> (r: Option<String>)
    ensures
        match r {
            Some(h) => listed_hash(checksums@, filename@) == Some(h@),
            None => listed_hash(checksums@, filename@) is None,
        },
{
    let lines = lines_of_exec(checksums);
    let name = chars_of(filename);
    let mut i: usize = 0;
    assert(views(lines@).skip(0) =~= views(lines@));
    while i < lines.len()
        invariant
            i <= lines.len(),
            name@ == filename@,
            views(lines@) == lines_of(checksums@),
            first_ending_with(views(lines@), filename@) == first_ending_with(views(lines@).skip(i as int), filename@),
        decreases lines.len() - i,
    {
        let ghost rest = views(lines@).skip(i as int);
        assert(rest[0] == lines@[i as int]@);
        assert(rest.drop_first() =~= views(lines@).skip(i + 1));
        if ends_with(&lines[i], &name) {
            assert(first_ending_with(rest, filename@) == Some(rest[0]));
            assert(lines_of(checksums@) == views(lines@));
            assert(first_ending_with(lines_of(checksums@), filename@) == Some(lines@[i as int]@));
            let words = split_whitespace(&lines[i]);
            if words.len() > 0 {
                assert(views(words@)[0] == words@[0]@);
                return Some(string_of(&words[0]));
            } else {
                return None;
            }
        }
        i += 1;
    }
    None
}

/// The outcome of checking a file against a checksums file: `Ok` exactly
/// when a hash is listed for `filename` and it equals the lowercase hex
/// SHA-256 of the bytes.
pub open spec fn checksum_ok(file_bytes: Seq<u8>, checksums: Seq<char>, filename: Seq<char>) -> bool {
    listed_hash(checksums, filename) == Some(hex_lower(spec_sha256(file_bytes)))
}

/// Verifies the SHA-256 checksum of `file_bytes` against a checksums file
/// whose lines read `<hash>  <filename>`.
pub fn verify_checksum(file_bytes: &[u8], checksums_content: &str, filename: &str) -> (r: Result<(), UpgradeError>)
    ensures
        r is Ok <==> checksum_ok(file_bytes@, checksums_content@, filename@),
        r matches Err(UpgradeError::NoChecksum { filename: f }) ==> f@ == filename@
            && listed_hash(checksums_content@, filename@) is None,
        r matches Err(UpgradeError::ChecksumMismatch { filename: f, expected, actual }) ==> f@ == filename@
            && listed_hash(checksums_content@, filename@) == Some(expected@)
            && actual@ == hex_lower(spec_sha256(file_bytes@)) && expected@ != actual@,
        r is Err ==> (r matches Err(UpgradeError::NoChecksum { .. }) || r matches Err(UpgradeError::ChecksumMismatch { .. })),
{
    let expected = match find_listed_hash(checksums_content, filename) {
        Some(h) => h,
        None => {
            return Err(UpgradeError::NoChecksum { filename: String::from_str(filename) });
        },
    };
    let digest = sha256(file_bytes);
    let actual = to_hex_lower(&digest);
    if !str_eq(actual.as_str(), expected.as_str()) {
        return Err(
            UpgradeError::ChecksumMismatch { filename: String::from_str(filename), expected, actual },
        );
    }
    Ok(())
}

/// A semantic version as plain values: the numeric core, then the
/// pre-release and build-metadata identifiers (empty when absent).
#[derive(Debug, PartialEq, Eq)]
pub struct SemVer {
    pub major: u64,
    pub minor: u64,
    pub patch: u64,
    pub pre: String,
    pub build: String,
}

impl SemVer {
    pub open spec fn spec_parts(&self) -> (u64, u64, u64, Seq<char>, Seq<char>) {
        (self.major, self.minor, self.patch, self.pre@, self.build@)
    }
}

/// What semver's `Version::parse` gives for a text: `None` when it fails,
/// otherwise the version's major, minor, patch, pre-release and build parts.
pub uninterp spec fn spec_semver_parse(text: Seq<char>) -> Option<(u64, u64, u64, Seq<char>, Seq<char>)>;

/// The parts of an optional version.
pub open spec fn opt_semver_parts(v: Option<SemVer>) -> Option<(u64, u64, u64, Seq<char>, Seq<char>)> {
    match v {
        Some(x) => Some(x.spec_parts()),
        None => None,
    }
}

/// semver `Version::parse`: the outcome is named `spec_semver_parse` of the
/// text (the SemVer 2.0 grammar itself is not stated); a parsed version is
/// handed back field by field.
#[verifier::external_body]
fn semver_parse(text: &str) -> (r: Option<SemVer>)
    ensures
        opt_semver_parts(r) == spec_semver_parse(text@),
{
    match semver::Version::parse(text) {
        Ok(v) => Some(SemVer {
            major: v.major,
            minor: v.minor,
            patch: v.patch,
            pre: v.pre.as_str().to_string(),
            build: v.build.as_str().to_string(),
        }),
        Err(_) => None,
    }
}

/// `tag` without one leading `v`.
pub open spec fn strip_v(tag: Seq<char>) -> Seq<char> {
    if tag.len() > 0 && tag[0] == 'v' {
        tag.drop_first()
    } else {
        tag
    }
}

/// Parses a release tag such as `v0.1.0` (or `0.1.0`) as a semantic version.
pub fn parse_version_tag(tag: &str) -> (r: Result<SemVer, UpgradeError>)
    ensures
        match r {
            Ok(v) => spec_semver_parse(strip_v(tag@)) == Some(v.spec_parts()),
            Err(e) => spec_semver_parse(strip_v(tag@)) is None
                && (e matches UpgradeError::InvalidVersionTag { tag: t } && t@ == tag@),
        },
{
    let v = chars_of(tag);
    let stripped = if v.len() > 0 && v[0] == 'v' {
        string_of_range(&v, 1, v.len())
    } else {
        String::from_str(tag)
    };
    assert(v@.len() > 0 ==> v@.subrange(1, v@.len() as int) =~= v@.drop_first());
    match semver_parse(stripped.as_str()) {
        Some(ver) => Ok(ver),
        None => Err(UpgradeError::InvalidVersionTag { tag: String::from_str(tag) }),
    }
}


/// The GitHub token to fetch releases with: the configured one, when it is
/// not empty.
pub fn github_token(config: &Config) -> (r: Result<String, UpgradeError>)
    ensures
        match config.github_token {
            Some(t) => if t@.len() > 0 {
                r matches Ok(x) && x@ == t@
            } else {
                r matches Err(UpgradeError::NoGithubToken)
            },
            None => r matches Err(UpgradeError::NoGithubToken),
        },
{
    match config.upgrade_token() {
        Some(t) => Ok(String::from_str(t)),
        None => Err(UpgradeError::NoGithubToken),
    }
}

/// The parts of a version that semver's parser produced from some text.
pub open spec fn parsed_parts(v: (u64, u64, u64, Seq<char>, Seq<char>)) -> bool {
    exists|t: Seq<char>| spec_semver_parse(t) == Some(v)
}

/// What semver's `Version > Version` answers for two versions given by
/// their parts.
pub uninterp spec fn spec_semver_gt(a: (u64, u64, u64, Seq<char>, Seq<char>), b: (u64, u64, u64, Seq<char>, Seq<char>)) -> bool;

/// What semver's precedence says of `a > b` for two versions given by their
/// parts, as far as it is stated here: the numeric core decides first
/// (major, then minor, then patch); with equal cores a release is above any
/// pre-release of it; a version is never above itself. How two pre-releases,
/// or two build metadata, of one core compare is left to `spec_semver_gt`.
pub open spec fn core_precedence(
    a: (u64, u64, u64, Seq<char>, Seq<char>),
    b: (u64, u64, u64, Seq<char>, Seq<char>),
    gt: bool,
) -> bool {
    let same_core = a.0 == b.0 && a.1 == b.1 && a.2 == b.2;
    &&& a.0 != b.0 ==> gt == (a.0 > b.0)
    &&& a.0 == b.0 && a.1 != b.1 ==> gt == (a.1 > b.1)
    &&& a.0 == b.0 && a.1 == b.1 && a.2 != b.2 ==> gt == (a.2 > b.2)
    &&& same_core && a.3.len() == 0 && b.3.len() > 0 ==> gt
    &&& same_core && a.3.len() > 0 && b.3.len() == 0 ==> !gt
    &&& a == b ==> !gt
}

/// semver's precedence (`>` on `Version`, whose derived order compares
/// major, minor, patch, pre-release, then build metadata): the answer is
/// named `spec_semver_gt` of the two versions' parts and meets
/// `core_precedence`; how two non-empty pre-release (or build) texts of one
/// core compare is not stated. The versions are rebuilt from their parts,
/// which is why only parts that semver's parser produced are accepted.
#[verifier::external_body]
fn semver_gt(a: &SemVer, b: &SemVer) -> (r: bool)
    requires
        parsed_parts(a.spec_parts()),
        parsed_parts(b.spec_parts()),
    ensures
        r == spec_semver_gt(a.spec_parts(), b.spec_parts()),
        core_precedence(a.spec_parts(), b.spec_parts(), r),
{
    let pa = semver::Prerelease::new(a.pre.as_str()).unwrap();
    let ba = semver::BuildMetadata::new(a.build.as_str()).unwrap();
    let pb = semver::Prerelease::new(b.pre.as_str()).unwrap();
    let bb = semver::BuildMetadata::new(b.build.as_str()).unwrap();
    let va = semver::Version { major: a.major, minor: a.minor, patch: a.patch, pre: pa, build: ba };
    let vb = semver::Version { major: b.major, minor: b.minor, patch: b.patch, pre: pb, build: bb };
    va > vb
}

/// Whether a release is newer than the running program.
#[derive(Debug)]
pub enum ReleaseCheck {
    /// The latest release is not newer than the running version.
    UpToDate { current: SemVer },
    /// The latest release is newer.
    Newer { current: SemVer, latest: SemVer },
}

/// Compares the running version (plain `x.y.z`) with the latest release
/// tag (`vx.y.z` or `x.y.z`).
pub fn check_release(current_version: &str, latest_tag: &str) -> (r: Result<ReleaseCheck, UpgradeError>)
    ensures
        match r {
            Ok(ReleaseCheck::UpToDate { current }) => {
                &&& spec_semver_parse(current_version@) == Some(current.spec_parts())
                &&& spec_semver_parse(strip_v(latest_tag@)) matches Some(l)
                &&& !spec_semver_gt(l, current.spec_parts())
                &&& core_precedence(l, current.spec_parts(), false)
            },
            Ok(ReleaseCheck::Newer { current, latest }) => {
                &&& spec_semver_parse(current_version@) == Some(current.spec_parts())
                &&& spec_semver_parse(strip_v(latest_tag@)) == Some(latest.spec_parts())
                &&& spec_semver_gt(latest.spec_parts(), current.spec_parts())
                &&& core_precedence(latest.spec_parts(), current.spec_parts(), true)
            },
            Err(UpgradeError::InvalidCurrentVersion { version }) => version@ == current_version@
                && spec_semver_parse(current_version@) is None,
            Err(UpgradeError::InvalidVersionTag { tag }) => tag@ == latest_tag@
                && spec_semver_parse(current_version@) is Some
                && spec_semver_parse(strip_v(latest_tag@)) is None,
            Err(_) => false,
        },
{
    let current = match semver_parse(current_version) {
        Some(v) => v,
        None => {
            return Err(UpgradeError::InvalidCurrentVersion { version: String::from_str(current_version) });
        },
    };
    let latest = parse_version_tag(latest_tag)?;
    proof {
        assert(spec_semver_parse(current_version@) == Some(current.spec_parts()));
        assert(spec_semver_parse(strip_v(latest_tag@)) == Some(latest.spec_parts()));
    }
    if semver_gt(&latest, &current) {
        Ok(ReleaseCheck::Newer { current, latest })
    } else {
        Ok(ReleaseCheck::UpToDate { current })
    }
}

/// An asset of a release, as listed by the release API.
#[derive(Debug, Clone)]
pub struct ReleaseAsset {
    pub name: Option<String>,
    pub url: Option<String>,
}

/// The first asset with this name.
pub open spec fn first_asset_named(assets: Seq<ReleaseAsset>, name: Seq<char>) -> Option<ReleaseAsset>
    decreases assets.len(),
{
    if assets.len() == 0 {
        None
    } else if assets[0].name matches Some(n) && n@ == name {
        Some(assets[0])
    } else {
        first_asset_named(assets.drop_first(), name)
    }
}

/// The first asset with this name, or `MissingAsset` when there is none.
pub fn find_asset<'a>(assets: &'a Vec<ReleaseAsset>, name: &str) -> (r: Result<&'a ReleaseAsset, UpgradeError>)
    ensures
        match first_asset_named(assets@, name@) {
            Some(a) => r matches Ok(x) && *x == a,
            None => r matches Err(UpgradeError::MissingAsset { name: n }) && n@ == name@,
        },
{
    let mut i: usize = 0;
    assert(assets@.skip(0) =~= assets@);
    while i < assets.len()
        invariant
            i <= assets.len(),
            first_asset_named(assets@, name@) == first_asset_named(assets@.skip(i as int), name@),
        decreases assets.len() - i,
    {
        let a = &assets[i];
        assert(assets@.skip(i as int)[0] == *a);
        let hit = match &a.name {
            Some(n) => str_eq(n.as_str(), name),
            None => false,
        };
        if hit {
            return Ok(a);
        }
        assert(assets@.skip(i as int).drop_first() =~= assets@.skip(i + 1));
        i += 1;
    }
    Err(UpgradeError::MissingAsset { name: String::from_str(name) })
}

/// The download URLs of a release's binary and of its checksums file, each
/// the URL of the first asset with that name. The checks come in this
/// order: the binary asset is there, the checksums asset is there, the
/// binary has a URL, the checksums file has a URL.
pub fn release_urls(assets: &Vec<ReleaseAsset>, binary_name: &str, checksums_name: &str) -> (r: Result<
    (String, String),
    UpgradeError,
>)
    ensures
        match (first_asset_named(assets@, binary_name@), first_asset_named(assets@, checksums_name@)) {
            (None, _) => r matches Err(UpgradeError::MissingAsset { name: n }) && n@ == binary_name@,
            (Some(_), None) => r matches Err(UpgradeError::MissingAsset { name: n }) && n@ == checksums_name@,
            (Some(b), Some(c)) => match (b.url, c.url) {
                (None, _) => r matches Err(UpgradeError::MissingAssetUrl { asset: k }) && k@ == "binary"@,
                (Some(_), None) => r matches Err(UpgradeError::MissingAssetUrl { asset: k }) && k@
                    == "checksum"@,
                (Some(bu), Some(cu)) => r matches Ok((x, y)) && x@ == bu@ && y@ == cu@,
            },
        },
{
    let binary = match find_asset(assets, binary_name) {
        Ok(a) => a,
        Err(e) => return Err(e),
    };
    let sums = match find_asset(assets, checksums_name) {
        Ok(a) => a,
        Err(e) => return Err(e),
    };
    let binary_url = match &binary.url {
        Some(u) => u.clone(),
        None => return Err(UpgradeError::MissingAssetUrl { asset: String::from_str("binary") }),
    };
    let sums_url = match &sums.url {
        Some(u) => u.clone(),
        None => return Err(UpgradeError::MissingAssetUrl { asset: String::from_str("checksum") }),
    };
    Ok((binary_url, sums_url))
}


/// A release tag reads the same with or without its leading `v`: `v0.1.0`
/// and `0.1.0` stand for the same version.
pub proof fn lemma_tag_prefix(t: Seq<char>)
    requires
        t.len() == 0 || t[0] != 'v',
    ensures
        strip_v(seq!['v'] + t) == t,
        strip_v(t) == t,
        spec_semver_parse(strip_v(seq!['v'] + t)) == spec_semver_parse(strip_v(t)),
{
    assert((seq!['v'] + t).drop_first() =~= t);
}


/// A checksums file lists back what was written into it: for a hash and a
/// file name without whitespace, the listing `<hash>  <name>` (ending in a
/// line break) gives that hash for that name, and it verifies the bytes
/// whose digest the hash is.
pub proof fn lemma_listing_gives_hash(hash: Seq<char>, name: Seq<char>, bytes: Seq<u8>)
    requires
        hash.len() > 0,
        no_whitespace(hash),
        name.len() > 0,
        no_whitespace(name),
    ensures
        listed_hash(hash + seq![' ', ' '] + name + seq!['\n'], name) == Some(hash),
        hash == hex_lower(spec_sha256(bytes)) ==> checksum_ok(bytes, hash + seq![' ', ' '] + name + seq!['\n'], name),
{
    let p1 = hash.push(' ');
    let p2 = p1.push(' ');
    let line = p2 + name;
    let listing = line + seq!['\n'];
    assert(hash + seq![' ', ' '] + name + seq!['\n'] =~= listing);

    // the words of the line
    assert(Seq::<char>::empty() + hash =~= hash);
    lemma_ws_tokens_word(Seq::<char>::empty(), hash);
    lemma_ws_tokens_space(hash, ' ');
    lemma_ws_tokens_space(p1, ' ');
    lemma_ws_tokens_word(p2, name);
    assert(ws_tokens(line) =~= seq![hash, name]);

    // the listing's one line
    lemma_no_whitespace_no_newline(hash);
    lemma_no_whitespace_no_newline(name);
    lemma_contains_concat(hash, seq![' '], '\n');
    lemma_contains_concat(p1, seq![' '], '\n');
    lemma_contains_concat(p2, name, '\n');
    assert(hash.push(' ') =~= hash + seq![' ']);
    assert(p1.push(' ') =~= p1 + seq![' ']);
    assert(!seq![' '].contains('\n'));
    assert(listing =~= line + seq!['\n'] + Seq::<char>::empty());
    lemma_split_on_join(line, Seq::<char>::empty(), '\n');
    lemma_split_on_single(line, '\n');
    let parts = split_on(listing, '\n');
    assert(parts =~= seq![line, Seq::<char>::empty()]);
    assert(line.last() == name.last());
    assert(name.last() == name[name.len() - 1]);
    assert(lines_of(listing) =~= seq![line]);

    // the line ends with the name
    assert(line.skip(line.len() - name.len()) =~= name);
    assert(first_ending_with(seq![line], name) == Some(line));
}

} // verus!
