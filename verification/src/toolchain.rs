//! Choosing, checking and naming the portable Node.js distribution and the
//! messages about missing tools.
use crate::ports::lossy_text;
use crate::text::{
    chars_of, copy_str, ends_with, ends_with_exec, eq_ignore_case, is_ascii_hex, is_ws,
    is_ws_char, lines, lines_exec, lower, push_char, push_str, starts_with, starts_with_exec,
    str_eq, string_of_range, trim, trim_exec, views,
};
use vstd::prelude::*;

verus! {

broadcast use vstd::string::group_string_axioms;

/// How a Node.js archive is packed.
#[derive(Debug, Clone, Copy, PartialEq, Eq, Structural)]
pub enum ArchiveFormat {
    TarGz,
    Zip,
}

/// The Node.js release archive of one platform.
#[derive(Debug, Clone, Copy)]
pub struct NodeArchive {
    pub target: &'static str,
    pub extension: &'static str,
    pub format: ArchiveFormat,
}

/// Target, extension and format of the archive published for `os`/`arch`.
pub open spec fn node_archive_spec(os: Seq<char>, arch: Seq<char>) -> Option<
    (Seq<char>, Seq<char>, ArchiveFormat),
> {
    if os == "linux"@ && arch == "x86_64"@ {
        Some(("linux-x64"@, ".tar.gz"@, ArchiveFormat::TarGz))
    } else if os == "linux"@ && arch == "aarch64"@ {
        Some(("linux-arm64"@, ".tar.gz"@, ArchiveFormat::TarGz))
    } else if os == "macos"@ && arch == "x86_64"@ {
        Some(("darwin-x64"@, ".tar.gz"@, ArchiveFormat::TarGz))
    } else if os == "macos"@ && arch == "aarch64"@ {
        Some(("darwin-arm64"@, ".tar.gz"@, ArchiveFormat::TarGz))
    } else if os == "windows"@ && arch == "x86_64"@ {
        Some(("win-x64"@, ".zip"@, ArchiveFormat::Zip))
    } else if os == "windows"@ && arch == "aarch64"@ {
        Some(("win-arm64"@, ".zip"@, ArchiveFormat::Zip))
    } else {
        None
    }
}

pub open spec fn unsupported_platform_msg(os: Seq<char>, arch: Seq<char>) -> Seq<char> {
    "automatic npm bootstrap is not supported on "@ + os + "/"@ + arch
        + "; install Node.js 24 LTS from https://nodejs.org/download"@
}

fn archive(target: &'static str, extension: &'static str, format: ArchiveFormat) -> (r: NodeArchive)
    ensures
        r.target == target,
        r.extension == extension,
        r.format == format,
{
    NodeArchive { target, extension, format }
}

/// The archive to download on `os`/`arch`, or the reason there is none.
pub fn node_archive(os: &str, arch: &str) -> (r: Result<NodeArchive, String>)
    ensures
        match node_archive_spec(os@, arch@) {
            Some(a) => r matches Ok(n) && n.target@ == a.0 && n.extension@ == a.1 && n.format
                == a.2,
            None => r matches Err(m) && m@ == unsupported_platform_msg(os@, arch@),
        },
{
    let linux = str_eq(os, "linux");
    let macos = str_eq(os, "macos");
    let windows = str_eq(os, "windows");
    let x64 = str_eq(arch, "x86_64");
    let arm = str_eq(arch, "aarch64");
    if linux && x64 {
        Ok(archive("linux-x64", ".tar.gz", ArchiveFormat::TarGz))
    } else if linux && arm {
        Ok(archive("linux-arm64", ".tar.gz", ArchiveFormat::TarGz))
    } else if macos && x64 {
        Ok(archive("darwin-x64", ".tar.gz", ArchiveFormat::TarGz))
    } else if macos && arm {
        Ok(archive("darwin-arm64", ".tar.gz", ArchiveFormat::TarGz))
    } else if windows && x64 {
        Ok(archive("win-x64", ".zip", ArchiveFormat::Zip))
    } else if windows && arm {
        Ok(archive("win-arm64", ".zip", ArchiveFormat::Zip))
    } else {
        let mut m = copy_str("automatic npm bootstrap is not supported on ");
        push_str(&mut m, os);
        push_str(&mut m, "/");
        push_str(&mut m, arch);
        push_str(&mut m, "; install Node.js 24 LTS from https://nodejs.org/download");
        Err(m)
    }
}

/// `str::split_whitespace`, with the words accumulated left to right.
pub open spec fn words_acc(s: Seq<char>, i: int, cur: Seq<char>) -> Seq<Seq<char>>
    decreases s.len() - i,
{
    let done = if cur.len() == 0 {
        Seq::<Seq<char>>::empty()
    } else {
        seq![cur]
    };
    if i >= s.len() || i < 0 {
        done
    } else if is_ws(s[i]) {
        done + words_acc(s, i + 1, Seq::empty())
    } else {
        words_acc(s, i + 1, cur.push(s[i]))
    }
}

/// `str::split_whitespace`: the maximal runs of non-whitespace characters.
pub open spec fn words(s: Seq<char>) -> Seq<Seq<char>> {
    words_acc(s, 0, Seq::empty())
}

fn words_exec(s: &str) -> (r: Vec<String>)
    ensures
        views(r@) == words(s@),
{
    let cs = chars_of(s);
    let mut out: Vec<String> = Vec::new();
    let mut from: usize = 0;
    let mut i: usize = 0;
    assert(cs@.subrange(0, 0) =~= Seq::<char>::empty());
    assert(views(out@) + words(s@) =~= words(s@));
    while i < cs.len()
        invariant
            from <= i <= cs.len(),
            cs@ == s@,
            views(out@) + words_acc(s@, i as int, cs@.subrange(from as int, i as int)) == words(
                s@,
            ),
        decreases cs.len() - i,
    {
        let ghost cur = cs@.subrange(from as int, i as int);
        if is_ws_char(cs[i]) {
            if from < i {
                let w = string_of_range(&cs, from, i);
                proof {
                    assert(views(out@.push(w)) =~= views(out@).push(w@));
                    assert(views(out@).push(w@) + words_acc(s@, i + 1, Seq::empty()) =~= views(
                        out@,
                    ) + (seq![cur] + words_acc(s@, i + 1, Seq::empty())));
                }
                out.push(w);
            } else {
                assert(cur =~= Seq::<char>::empty());
                assert(views(out@) + words_acc(s@, i + 1, Seq::empty()) =~= views(out@) + (
                Seq::<Seq<char>>::empty() + words_acc(s@, i + 1, Seq::empty())));
            }
            i = i + 1;
            from = i;
            assert(cs@.subrange(from as int, i as int) =~= Seq::<char>::empty());
        } else {
            assert(cs@.subrange(from as int, i + 1) =~= cur.push(cs@[i as int]));
            i = i + 1;
        }
    }
    let ghost cur = cs@.subrange(from as int, i as int);
    if from < i {
        let w = string_of_range(&cs, from, i);
        proof {
            assert(views(out@.push(w)) =~= views(out@).push(w@));
            assert(views(out@).push(w@) =~= views(out@) + seq![cur]);
        }
        out.push(w);
    } else {
        assert(cur =~= Seq::<char>::empty());
        assert(views(out@) =~= views(out@) + Seq::<Seq<char>>::empty());
    }
    out
}

pub open spec fn all_hex(s: Seq<char>) -> bool {
    forall|i: int| 0 <= i < s.len() ==> is_ascii_hex(#[trigger] s[i])
}

/// Whether a manifest line names the archive: exactly a 64-digit hex hash
/// and a `node-v…-<target><extension>` file name.
pub open spec fn manifest_line_matches(line: Seq<char>, target: Seq<char>, ext: Seq<char>) -> bool {
    let ws = words(line);
    &&& ws.len() == 2
    &&& starts_with(ws[1], "node-v"@)
    &&& ends_with(ws[1], "-"@ + target + ext)
    &&& ws[0].len() == 64
    &&& all_hex(ws[0])
}

/// Hash and file name of the first manifest line that names the archive.
pub open spec fn select_lines(ls: Seq<Seq<char>>, target: Seq<char>, ext: Seq<char>) -> Option<
    (Seq<char>, Seq<char>),
>
    decreases ls.len(),
{
    if ls.len() == 0 {
        None
    } else if manifest_line_matches(ls[0], target, ext) {
        Some((words(ls[0])[0], words(ls[0])[1]))
    } else {
        select_lines(ls.drop_first(), target, ext)
    }
}

pub open spec fn select_archive_spec(manifest: Seq<char>, target: Seq<char>, ext: Seq<char>) -> Option<
    (Seq<char>, Seq<char>),
> {
    select_lines(lines(manifest), target, ext)
}

fn all_hex_exec(s: &str) -> (r: bool)
    ensures
        r == all_hex(s@),
{
    let cs = chars_of(s);
    let mut i: usize = 0;
    while i < cs.len()
        invariant
            i <= cs.len(),
            cs@ == s@,
            forall|j: int| 0 <= j < i ==> is_ascii_hex(#[trigger] s@[j]),
        decreases cs.len() - i,
    {
        let c = cs[i];
        if !(('0' <= c && c <= '9') || ('a' <= c && c <= 'f') || ('A' <= c && c <= 'F')) {
            assert(!is_ascii_hex(s@[i as int]));
            return false;
        }
        i = i + 1;
    }
    true
}

fn line_matches(line: &str, target: &str, ext: &str) -> (r: Option<(String, String)>)
    ensures
        match r {
            Some(p) => manifest_line_matches(line@, target@, ext@) && p.0@ == words(line@)[0]
                && p.1@ == words(line@)[1],
            None => !manifest_line_matches(line@, target@, ext@),
        },
{
    let ws = words_exec(line);
    if ws.len() != 2 {
        return None;
    }
    let hash = &ws[0];
    let name = &ws[1];
    let mut suffix = copy_str("-");
    push_str(&mut suffix, target);
    push_str(&mut suffix, ext);
    let n = chars_of(name.as_str());
    let pre = chars_of("node-v");
    let suf = chars_of(suffix.as_str());
    let h = chars_of(hash.as_str());
    if starts_with_exec(&n, &pre) && ends_with_exec(&n, &suf) && h.len() == 64 && all_hex_exec(
        hash.as_str(),
    ) {
        Some((copy_str(hash.as_str()), copy_str(name.as_str())))
    } else {
        None
    }
}

/// The hash and file name of the archive in a `SHASUMS256.txt` manifest.
pub fn select_archive_from_manifest(manifest: &str, archive: NodeArchive) -> (r: Option<
    (String, String),
>)
    ensures
        match select_archive_spec(manifest@, archive.target@, archive.extension@) {
            Some(p) => r matches Some(q) && q.0@ == p.0 && q.1@ == p.1,
            None => r is None,
        },
{
    let ls = lines_exec(manifest);
    let mut i: usize = 0;
    assert(views(ls@).skip(0) =~= views(ls@));
    while i < ls.len()
        invariant
            i <= ls.len(),
            select_lines(views(ls@), archive.target@, archive.extension@) == select_lines(
                views(ls@).skip(i as int),
                archive.target@,
                archive.extension@,
            ),
            views(ls@) == lines(manifest@),
        decreases ls.len() - i,
    {
        let ghost rest = views(ls@).skip(i as int);
        assert(rest[0] == ls@[i as int]@);
        match line_matches(ls[i].as_str(), archive.target, archive.extension) {
            Some(p) => {
                return Some(p);
            },
            None => {
                assert(rest.drop_first() =~= views(ls@).skip(i + 1));
                i = i + 1;
            },
        }
    }
    assert(views(ls@).skip(i as int) =~= Seq::<Seq<char>>::empty());
    None
}

pub open spec fn has_separator(s: Seq<char>) -> bool {
    exists|i: int| 0 <= i < s.len() && (s[i] == '/' || s[i] == '\\')
}

/// The directory that an archive named `filename` unpacks to.
pub open spec fn archive_top_level_spec(filename: Seq<char>, ext: Seq<char>) -> Option<Seq<char>> {
    if ends_with(filename, ext) {
        let name = filename.take(filename.len() - ext.len());
        if name.len() > 0 && !has_separator(name) {
            Some(name)
        } else {
            None
        }
    } else {
        None
    }
}

/// The top-level directory of an archive: its file name without the
/// extension, when that is a single non-empty path component.
pub fn archive_top_level(filename: &str, extension: &str) -> (r: Option<String>)
    ensures
        match archive_top_level_spec(filename@, extension@) {
            Some(n) => r matches Some(s) && s@ == n,
            None => r is None,
        },
{
    let f = chars_of(filename);
    let e = chars_of(extension);
    if !ends_with_exec(&f, &e) {
        return None;
    }
    let end = f.len() - e.len();
    if end == 0 {
        assert(filename@.take(end as int).len() == 0);
        return None;
    }
    let mut i: usize = 0;
    while i < end
        invariant
            i <= end <= f.len(),
            f@ == filename@,
            e@ == extension@,
            ends_with(filename@, extension@),
            end == f.len() - e.len(),
            forall|j: int| 0 <= j < i ==> f@[j] != '/' && f@[j] != '\\',
        decreases end - i,
    {
        if f[i] == '/' || f[i] == '\\' {
            assert(filename@.take(end as int)[i as int] == f@[i as int]);
            assert(has_separator(filename@.take(end as int)));
            return None;
        }
        i = i + 1;
    }
    Some(string_of_range(&f, 0, end))
}

pub open spec fn tool_guidance(program: Seq<char>) -> Seq<char> {
    if program == "dotnet"@ {
        "Install the .NET SDK version required by the project's global.json from https://dotnet.microsoft.com/download, then restart Banna"@
    } else if program == "npm"@ {
        "Banna could not use or bootstrap Node.js 24 LTS; check network access to https://nodejs.org and BANNA_TOOLCHAIN_DIR permissions"@
    } else if program == "abp"@ {
        "Banna could not use or install the latest Volo.Abp.Cli; verify the .NET SDK and NuGet connectivity"@
    } else {
        "Install the required executable and make sure it is available on PATH"@
    }
}

pub open spec fn missing_tool_msg(program: Seq<char>) -> Seq<char> {
    "required tool '"@ + program + "' was not found on PATH. "@ + tool_guidance(program)
}

/// The error for a tool that is neither on `PATH` nor installable, with
/// guidance for the known tools.
pub fn missing_tool_error(program: &str) -> (r: String)
    ensures
        r@ == missing_tool_msg(program@),
{
    let guidance = if str_eq(program, "dotnet") {
        "Install the .NET SDK version required by the project's global.json from https://dotnet.microsoft.com/download, then restart Banna"
    } else if str_eq(program, "npm") {
        "Banna could not use or bootstrap Node.js 24 LTS; check network access to https://nodejs.org and BANNA_TOOLCHAIN_DIR permissions"
    } else if str_eq(program, "abp") {
        "Banna could not use or install the latest Volo.Abp.Cli; verify the .NET SDK and NuGet connectivity"
    } else {
        "Install the required executable and make sure it is available on PATH"
    };
    let mut m = copy_str("required tool '");
    push_str(&mut m, program);
    push_str(&mut m, "' was not found on PATH. ");
    push_str(&mut m, guidance);
    m
}

pub open spec fn command_diagnostic_spec(stdout: Seq<u8>, stderr: Seq<u8>) -> Seq<char> {
    if trim(lossy_text(stderr)).len() != 0 {
        trim(lossy_text(stderr))
    } else {
        trim(lossy_text(stdout))
    }
}

/// The trimmed standard error of a failed installer, or its trimmed
/// standard output where the error stream is blank.
pub fn command_diagnostic(stdout: &[u8], stderr: &[u8]) -> (r: String)
    ensures
        r@ == command_diagnostic_spec(stdout@, stderr@),
{
    let e = trim_exec(crate::ports::lossy_string(stderr).as_str());
    if !e.as_str().is_empty() {
        e
    } else {
        trim_exec(crate::ports::lossy_string(stdout).as_str())
    }
}

/// The SHA-256 digest of `bytes` as `sha2::Sha256` computes it.
pub uninterp spec fn sha256_spec(bytes: Seq<u8>) -> Seq<u8>;

/// `sha2::Sha256::digest`. The digest is named; its length, the hash's
/// 32-byte output size, is stated.
#[verifier::external_body]
fn sha256_digest(bytes: &[u8]) -> (r: Vec<u8>)
    ensures
        r@ == sha256_spec(bytes@),
        r@.len() == 32,
{
    <sha2::Sha256 as sha2::Digest>::digest(bytes).to_vec()
}

pub open spec fn hex_digit(n: int) -> char {
    if n < 10 {
        (48 + n) as char
    } else {
        (87 + n) as char
    }
}

/// Lowercase hexadecimal, two digits per byte.
pub open spec fn hex_spec(bytes: Seq<u8>) -> Seq<char>
    decreases bytes.len(),
{
    if bytes.len() == 0 {
        Seq::empty()
    } else {
        hex_spec(bytes.drop_last()) + seq![
            hex_digit(bytes.last() as int / 16),
            hex_digit(bytes.last() as int % 16),
        ]
    }
}

fn hex_digit_exec(n: u8) -> (r: char)
    requires
        n < 16,
    ensures
        r == hex_digit(n as int),
{
    if n < 10 {
        (48u8 + n) as char
    } else {
        (87u8 + n) as char
    }
}

/// Lowercase hexadecimal of `bytes`.
pub fn hex_lower(bytes: &[u8]) -> (r: String)
    ensures
        r@ == hex_spec(bytes@),
{
    let mut out = String::new();
    let mut i: usize = 0;
    while i < bytes.len()
        invariant
            i <= bytes.len(),
            out@ == hex_spec(bytes@.take(i as int)),
        decreases bytes.len() - i,
    {
        let b = bytes[i];
        push_char(&mut out, hex_digit_exec(b / 16));
        push_char(&mut out, hex_digit_exec(b % 16));
        proof {
            assert(bytes@.take(i + 1).drop_last() =~= bytes@.take(i as int));
        }
        i = i + 1;
    }
    assert(bytes@.take(bytes.len() as int) =~= bytes@);
    out
}

/// The SHA-256 checksum of `bytes`, as lowercase hexadecimal.
pub fn sha256_hex(bytes: &[u8]) -> (r: String)
    ensures
        r@ == hex_spec(sha256_spec(bytes@)),
{
    let d = sha256_digest(bytes);
    hex_lower(d.as_slice())
}

/// Largest portable Node.js download accepted, in bytes.
pub const NODE_DOWNLOAD_LIMIT: u64 = 209715200;

pub open spec fn checksum_mismatch_msg(filename: Seq<char>, expected: Seq<char>, actual: Seq<char>) -> Seq<
    char,
> {
    "portable Node.js checksum mismatch for "@ + filename + ": expected "@ + expected + ", got "@
        + actual
}

pub open spec fn download_too_large_msg() -> Seq<char> {
    "portable Node.js download exceeded the 200 MiB safety limit"@
}

/// Accepts a downloaded archive only when it is within the size limit and
/// its checksum equals, ignoring ASCII case, the one the manifest lists.
pub fn verify_download(archive: &[u8], expected_hash: &str, filename: &str) -> (r: Result<(), String>)
    ensures
        archive@.len() > NODE_DOWNLOAD_LIMIT ==> (r matches Err(m) && m@ == download_too_large_msg()),
        archive@.len() <= NODE_DOWNLOAD_LIMIT ==> {
            let actual = hex_spec(sha256_spec(archive@));
            if lower(actual) == lower(expected_hash@) {
                r is Ok
            } else {
                (r matches Err(m) && m@ == checksum_mismatch_msg(filename@, expected_hash@, actual))
            }
        },
{
    if archive.len() as u64 > NODE_DOWNLOAD_LIMIT {
        return Err(copy_str("portable Node.js download exceeded the 200 MiB safety limit"));
    }
    let actual = sha256_hex(archive);
    if eq_ignore_case(actual.as_str(), expected_hash) {
        Ok(())
    } else {
        let mut m = copy_str("portable Node.js checksum mismatch for ");
        push_str(&mut m, filename);
        push_str(&mut m, ": expected ");
        push_str(&mut m, expected_hash);
        push_str(&mut m, ", got ");
        push_str(&mut m, actual.as_str());
        Err(m)
    }
}

/// The version that a Node.js directory name such as `node-v24.1.0-linux-x64`
/// carries, or `LTS` where it carries none.
pub open spec fn node_version_label(top_level: Seq<char>) -> Seq<char> {
    if starts_with(top_level, "node-"@) {
        crate::text::split(top_level.skip(5), '-')[0]
    } else {
        "LTS"@
    }
}

pub open spec fn portable_node_notice_spec(top_level: Seq<char>, os: Seq<char>, arch: Seq<char>) -> Seq<
    char,
> {
    "npm was not found; downloaded and verified portable Node.js "@ + node_version_label(top_level)
        + " for "@ + os + "/"@ + arch + " into Banna's private tool cache"@
}

/// The notice shown after portable Node.js was installed.
pub fn portable_node_notice(top_level: &str, os: &str, arch: &str) -> (r: String)
    ensures
        r@ == portable_node_notice_spec(top_level@, os@, arch@),
{
    let t = chars_of(top_level);
    let p = chars_of("node-");
    proof {
        reveal_strlit("node-");
    }
    let mut m = copy_str("npm was not found; downloaded and verified portable Node.js ");
    if starts_with_exec(&t, &p) {
        let rest = string_of_range(&t, 5, t.len());
        let parts = crate::text::split_exec(rest.as_str(), '-');
        proof {
            crate::text::lemma_split_acc_nonempty(rest@, '-', 0, Seq::empty());
        }
        assert(rest@ =~= top_level@.skip(5));
        push_str(&mut m, parts[0].as_str());
    } else {
        push_str(&mut m, "LTS");
    }
    push_str(&mut m, " for ");
    push_str(&mut m, os);
    push_str(&mut m, "/");
    push_str(&mut m, arch);
    push_str(&mut m, " into Banna's private tool cache");
    m
}

} // verus!
