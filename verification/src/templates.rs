//! The generator's embedded inputs: template files and project scaffolds,
//! looked up by `/`-separated relative path.
use crate::text::{
    chars_of, contains, copy_str, ends_with, ends_with_exec, push_char, push_str, starts_with,
    starts_with_exec, str_eq, string_of_range, views,
};
use vstd::prelude::*;

verus! {

broadcast use vstd::string::group_string_axioms;

/// A set of embedded files, in the order in which they are listed.
pub struct EmbeddedFiles {
    pub files: Vec<(String, Vec<u8>)>,
}

impl View for EmbeddedFiles {
    type V = Seq<(Seq<char>, Seq<u8>)>;

    open spec fn view(&self) -> Seq<(Seq<char>, Seq<u8>)> {
        self.files@.map_values(|e: (String, Vec<u8>)| (e.0@, e.1@))
    }
}

pub open spec fn paths_of(files: Seq<(Seq<char>, Seq<u8>)>) -> Seq<Seq<char>> {
    files.map_values(|e: (Seq<char>, Seq<u8>)| e.0)
}

/// Contents of the first file stored under `path`.
pub open spec fn file_at(files: Seq<(Seq<char>, Seq<u8>)>, path: Seq<char>) -> Option<Seq<u8>>
    decreases files.len(),
{
    if files.len() == 0 {
        None
    } else if files[0].0 == path {
        Some(files[0].1)
    } else {
        file_at(files.drop_first(), path)
    }
}

/// `rel` with every backslash turned into a slash.
pub open spec fn normalize_path(rel: Seq<char>) -> Seq<char> {
    rel.map_values(|c: char| if c == '\\' { '/' } else { c })
}

/// A directory prefix that ends with a slash.
pub open spec fn dir_prefix(prefix: Seq<char>) -> Seq<char> {
    if ends_with(prefix, "/"@) {
        prefix
    } else {
        prefix + "/"@
    }
}

/// A template directly inside the directory `norm`.
pub open spec fn is_direct_template(p: Seq<char>, norm: Seq<char>) -> bool {
    starts_with(p, norm) && ends_with(p, ".tpl"@) && !contains(p.skip(norm.len() as int), "/"@)
}

/// A template anywhere below the directory `norm`.
pub open spec fn is_nested_template(p: Seq<char>, norm: Seq<char>) -> bool {
    starts_with(p, norm) && ends_with(p, ".tpl"@)
}

pub open spec fn direct_templates(files: Seq<(Seq<char>, Seq<u8>)>, prefix: Seq<char>) -> Seq<Seq<char>> {
    paths_of(files).filter(|p: Seq<char>| is_direct_template(p, dir_prefix(prefix)))
}

pub open spec fn nested_templates(files: Seq<(Seq<char>, Seq<u8>)>, prefix: Seq<char>) -> Seq<Seq<char>> {
    paths_of(files).filter(|p: Seq<char>| is_nested_template(p, dir_prefix(prefix)))
}

pub open spec fn files_below(files: Seq<(Seq<char>, Seq<u8>)>, prefix: Seq<char>) -> Seq<Seq<char>> {
    paths_of(files).filter(|p: Seq<char>| starts_with(p, dir_prefix(prefix)))
}

/// What `String::from_utf8` makes of `bytes`: the decoded text, or, where
/// they are not valid UTF-8, the text its error displays (which names the
/// offending sequence by its index and length, and so depends on the bytes
/// alone).
pub uninterp spec fn utf8_decode(bytes: Seq<u8>) -> Result<Seq<char>, Seq<char>>;

pub open spec fn ascii_text(bytes: Seq<u8>) -> Seq<char> {
    crate::ports::ascii_chars(bytes)
}

/// The UTF-8 encoding of one character.
pub open spec fn utf8_char(c: char) -> Seq<u8> {
    let n = c as int;
    if n < 0x80 {
        seq![n as u8]
    } else if n < 0x800 {
        seq![(0xC0 + n / 64) as u8, (0x80 + n % 64) as u8]
    } else if n < 0x10000 {
        seq![(0xE0 + n / 4096) as u8, (0x80 + (n / 64) % 64) as u8, (0x80 + n % 64) as u8]
    } else {
        seq![
            (0xF0 + n / 262144) as u8,
            (0x80 + (n / 4096) % 64) as u8,
            (0x80 + (n / 64) % 64) as u8,
            (0x80 + n % 64) as u8,
        ]
    }
}

/// The UTF-8 encoding of a text.
pub open spec fn utf8_encode(s: Seq<char>) -> Seq<u8>
    decreases s.len(),
{
    if s.len() == 0 {
        Seq::empty()
    } else {
        utf8_encode(s.drop_last()) + utf8_char(s.last())
    }
}

/// `String::from_utf8`. Its result is named; the contract states the
/// documented facts that the decoded string holds exactly the given bytes
/// (a `String` is their UTF-8 encoding), and that ASCII bytes are valid and
/// decode to the same characters. On invalid bytes the error is the
/// `Display` text of `FromUtf8Error`, which the same name gives.
#[verifier::external_body]
fn decode_utf8(bytes: &[u8]) -> (r: Result<String, String>)
    ensures
        match utf8_decode(bytes@) {
            Ok(text) => r matches Ok(s) && s@ == text,
            Err(e) => r matches Err(m) && m@ == e,
        },
        r matches Ok(s) ==> utf8_encode(s@) == bytes@,
        crate::ports::all_ascii(bytes@) ==> r is Ok,
        r matches Ok(s) ==> (crate::ports::all_ascii(bytes@) ==> s@ == ascii_text(bytes@)),
{
    match String::from_utf8(bytes.to_vec()) {
        Ok(s) => Ok(s),
        Err(e) => Err(format!("{e}")),
    }
}

fn normalize_path_exec(rel: &str) -> (r: String)
    ensures
        r@ == normalize_path(rel@),
{
    let cs = chars_of(rel);
    let mut out = String::new();
    let mut i: usize = 0;
    while i < cs.len()
        invariant
            i <= cs.len(),
            cs@ == rel@,
            out@ == normalize_path(rel@).take(i as int),
        decreases cs.len() - i,
    {
        let c = cs[i];
        push_char(&mut out, if c == '\\' { '/' } else { c });
        i = i + 1;
        assert(out@ =~= normalize_path(rel@).take(i as int));
    }
    assert(normalize_path(rel@).take(cs.len() as int) =~= normalize_path(rel@));
    out
}

fn dir_prefix_exec(prefix: &str) -> (r: String)
    ensures
        r@ == dir_prefix(prefix@),
{
    let p = chars_of(prefix);
    let slash = chars_of("/");
    if ends_with_exec(&p, &slash) {
        copy_str(prefix)
    } else {
        let mut r = copy_str(prefix);
        push_str(&mut r, "/");
        r
    }
}

impl EmbeddedFiles {
    fn find(&self, path: &str) -> (r: Option<usize>)
        ensures
            match r {
                Some(i) => i < self.files@.len() && file_at(self@, path@) == Some(
                    self.files@[i as int].1@,
                ),
                None => file_at(self@, path@) is None,
            },
    {
        let mut i: usize = 0;
        assert(self@.skip(0) =~= self@);
        while i < self.files.len()
            invariant
                i <= self.files@.len(),
                file_at(self@, path@) == file_at(self@.skip(i as int), path@),
            decreases self.files.len() - i,
        {
            let ghost rest = self@.skip(i as int);
            assert(rest[0] == self@[i as int]);
            if str_eq(self.files[i].0.as_str(), path) {
                return Some(i);
            }
            assert(rest.drop_first() =~= self@.skip(i + 1));
            i = i + 1;
        }
        assert(self@.skip(i as int).len() == 0);
        None
    }
}

pub open spec fn missing_template_msg(path: Seq<char>) -> Seq<char> {
    "embedded template not found: "@ + path
}

pub open spec fn missing_project_file_msg(path: Seq<char>) -> Seq<char> {
    "embedded project file not found: "@ + path
}

/// The text of the template stored under `rel`, with backslashes read as
/// slashes.
pub fn read_tpl_text(templates: &EmbeddedFiles, rel: &str) -> (r: Result<String, String>)
    ensures
        match file_at(templates@, normalize_path(rel@)) {
            Some(bytes) => match utf8_decode(bytes) {
                Ok(text) => r matches Ok(s) && s@ == text,
                Err(e) => r matches Err(m) && m@ == e,
            },
            None => r matches Err(m) && m@ == missing_template_msg(normalize_path(rel@)),
        },
        r matches Ok(s) ==> file_at(templates@, normalize_path(rel@)) == Some(utf8_encode(s@)),
{
    let path = normalize_path_exec(rel);
    match templates.find(path.as_str()) {
        Some(i) => {
            assert(templates.files@[i as int].1@ == templates.files[i as int].1@);
            decode_utf8(templates.files[i].1.as_slice())
        },
        None => {
            let mut m = copy_str("embedded template not found: ");
            push_str(&mut m, path.as_str());
            Err(m)
        },
    }
}

/// The bytes of the project file stored under `rel`, with backslashes read
/// as slashes.
pub fn read_project_file(projects: &EmbeddedFiles, rel: &str) -> (r: Result<Vec<u8>, String>)
    ensures
        match file_at(projects@, normalize_path(rel@)) {
            Some(bytes) => r matches Ok(b) && b@ == bytes,
            None => r matches Err(m) && m@ == missing_project_file_msg(normalize_path(rel@)),
        },
{
    let path = normalize_path_exec(rel);
    match projects.find(path.as_str()) {
        Some(i) => Ok(projects.files[i].1.clone()),
        None => {
            let mut m = copy_str("embedded project file not found: ");
            push_str(&mut m, path.as_str());
            Err(m)
        },
    }
}

/// Which of the three listings a walk makes.
enum Walk {
    Direct,
    Nested,
    Below,
}

spec fn walk_pred(w: Walk, norm: Seq<char>) -> spec_fn(Seq<char>) -> bool {
    match w {
        Walk::Direct => |p: Seq<char>| is_direct_template(p, norm),
        Walk::Nested => |p: Seq<char>| is_nested_template(p, norm),
        Walk::Below => |p: Seq<char>| starts_with(p, norm),
    }
}

fn walk_keeps(w: &Walk, p: &str, norm: &str) -> (r: bool)
    ensures
        r == walk_pred(*w, norm@)(p@),
{
    let pc = chars_of(p);
    let nc = chars_of(norm);
    let tpl = chars_of(".tpl");
    let below = starts_with_exec(&pc, &nc);
    match w {
        Walk::Below => below,
        Walk::Nested => below && ends_with_exec(&pc, &tpl),
        Walk::Direct => {
            if !(below && ends_with_exec(&pc, &tpl)) {
                return false;
            }
            let rest = string_of_range(&pc, nc.len(), pc.len());
            assert(rest@ =~= p@.skip(norm@.len() as int));
            let rc = chars_of(rest.as_str());
            let slash = chars_of("/");
            !crate::text::contains_exec(&rc, &slash)
        },
    }
}

fn walk(files: &EmbeddedFiles, prefix: &str, w: Walk) -> (r: Vec<String>)
    ensures
        views(r@) == paths_of(files@).filter(walk_pred(w, dir_prefix(prefix@))),
{
    let norm = dir_prefix_exec(prefix);
    let ghost pred = walk_pred(w, dir_prefix(prefix@));
    let ghost ps = paths_of(files@);
    let mut out: Vec<String> = Vec::new();
    let mut i: usize = 0;
    proof {
        reveal(Seq::filter);
        assert(ps.take(0).filter(pred) =~= Seq::<Seq<char>>::empty());
    }
    while i < files.files.len()
        invariant
            i <= files.files@.len(),
            ps == paths_of(files@),
            norm@ == dir_prefix(prefix@),
            pred == walk_pred(w, dir_prefix(prefix@)),
            views(out@) == ps.take(i as int).filter(pred),
        decreases files.files.len() - i,
    {
        let p = files.files[i].0.as_str();
        assert(ps[i as int] == p@);
        assert(ps.take(i + 1).drop_last() =~= ps.take(i as int));
        let ghost before = views(out@);
        let keep = walk_keeps(&w, p, norm.as_str());
        assert(ps.take(i + 1).last() == p@);
        reveal(Seq::filter);
        assert(ps.take(i + 1).filter(pred) == if pred(p@) {
            ps.take(i as int).filter(pred).push(p@)
        } else {
            ps.take(i as int).filter(pred)
        });
        if keep {
            let c = copy_str(p);
            out.push(c);
            assert(views(out@) =~= before.push(c@));
        }
        i = i + 1;
    }
    assert(ps.take(files.files.len() as int) =~= ps);
    out
}

/// The templates directly inside the directory `prefix`.
pub fn embedded_walk(templates: &EmbeddedFiles, prefix: &str) -> (r: Vec<String>)
    ensures
        views(r@) == direct_templates(templates@, prefix@),
{
    let r = walk(templates, prefix, Walk::Direct);
    assert(walk_pred(Walk::Direct, dir_prefix(prefix@)) =~= (|p: Seq<char>|
        is_direct_template(p, dir_prefix(prefix@))));
    r
}

/// The templates anywhere below the directory `prefix`.
pub fn embedded_walk_recursive(templates: &EmbeddedFiles, prefix: &str) -> (r: Vec<String>)
    ensures
        views(r@) == nested_templates(templates@, prefix@),
{
    let r = walk(templates, prefix, Walk::Nested);
    assert(walk_pred(Walk::Nested, dir_prefix(prefix@)) =~= (|p: Seq<char>|
        is_nested_template(p, dir_prefix(prefix@))));
    r
}

/// The project files anywhere below the directory `prefix`.
pub fn embedded_projects_walk(projects: &EmbeddedFiles, prefix: &str) -> (r: Vec<String>)
    ensures
        views(r@) == files_below(projects@, prefix@),
{
    let r = walk(projects, prefix, Walk::Below);
    assert(walk_pred(Walk::Below, dir_prefix(prefix@)) =~= (|p: Seq<char>|
        starts_with(p, dir_prefix(prefix@))));
    r
}

/// Law: reading a path twice over (with its backslashes already turned into
/// slashes) finds the same file: normalising is idempotent.
pub proof fn lemma_normalize_idempotent(rel: Seq<char>)
    ensures
        normalize_path(normalize_path(rel)) == normalize_path(rel),
{
    assert(normalize_path(normalize_path(rel)) =~= normalize_path(rel));
}

/// Law: a walk below `prefix` lists every template that the walk directly
/// inside `prefix` lists.
pub proof fn lemma_walks_nest(files: Seq<(Seq<char>, Seq<u8>)>, prefix: Seq<char>)
    ensures
        forall|p: Seq<char>| direct_templates(files, prefix).contains(p) ==> nested_templates(files, prefix).contains(p),
{
    let ps = paths_of(files);
    let norm = dir_prefix(prefix);
    let d = |p: Seq<char>| is_direct_template(p, norm);
    let n = |p: Seq<char>| is_nested_template(p, norm);
    assert forall|p: Seq<char>| direct_templates(files, prefix).contains(p) implies nested_templates(files, prefix).contains(p) by {
        #[allow(deprecated)]
        ps.filter_lemma(d);
        let j = choose|j: int| 0 <= j < ps.filter(d).len() && ps.filter(d)[j] == p;
        assert(d(ps.filter(d)[j]));
        ps.lemma_filter_contains_rev(d, p);
        let k = choose|k: int| 0 <= k < ps.len() && ps[k] == p;
        ps.lemma_filter_contains(n, k);
    }
}

/// Law: a prefix without a trailing slash names the same directory as the
/// prefix with one, so every walk lists the same files either way.
pub proof fn lemma_walk_trailing_slash(files: Seq<(Seq<char>, Seq<u8>)>, prefix: Seq<char>)
    requires
        !ends_with(prefix, "/"@),
    ensures
        direct_templates(files, prefix + "/"@) == direct_templates(files, prefix),
        nested_templates(files, prefix + "/"@) == nested_templates(files, prefix),
        files_below(files, prefix + "/"@) == files_below(files, prefix),
{
    reveal_strlit("/");
    let q = prefix + "/"@;
    assert(q.skip(q.len() - 1) =~= "/"@);
    assert(dir_prefix(q) == dir_prefix(prefix));
    assert((|p: Seq<char>| is_direct_template(p, dir_prefix(q))) =~= (|p: Seq<char>| is_direct_template(p, dir_prefix(prefix))));
    assert((|p: Seq<char>| is_nested_template(p, dir_prefix(q))) =~= (|p: Seq<char>| is_nested_template(p, dir_prefix(prefix))));
    assert((|p: Seq<char>| starts_with(p, dir_prefix(q))) =~= (|p: Seq<char>| starts_with(p, dir_prefix(prefix))));
}

} // verus!
