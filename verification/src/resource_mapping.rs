//! Entries added to the blocks of `abp.resourcemapping.js`.
use crate::merge::toolbars::{ws_run, ws_run_exec};
use crate::text::{
    chars_of, contains, copy_str, join, join_exec, lines, lines_exec, push_str, str_contains, views,
};
use vstd::prelude::*;

verus! {

/// How often `c` occurs in `l`.
pub open spec fn count_char(l: Seq<char>, c: char) -> int
    decreases l.len(),
{
    if l.len() == 0 {
        0
    } else {
        count_char(l.drop_last(), c) + if l.last() == c {
            1int
        } else {
            0int
        }
    }
}

/// The first line at or after `j` where the braces counted from the block's
/// first line balance, `opens` and `closes` counted so far.
pub open spec fn block_end(ls: Seq<Seq<char>>, j: int, opens: int, closes: int) -> Option<int>
    decreases ls.len() - j,
{
    if j < 0 || j >= ls.len() {
        None
    } else {
        let o = opens + count_char(ls[j], '{');
        let c = closes + count_char(ls[j], '}');
        if o == c {
            Some(j)
        } else {
            block_end(ls, j + 1, o, c)
        }
    }
}

proof fn lemma_block_end_range(ls: Seq<Seq<char>>, j: int, opens: int, closes: int)
    ensures
        block_end(ls, j, opens, closes) matches Some(e) ==> j <= e < ls.len(),
    decreases ls.len() - j,
{
    if 0 <= j < ls.len() {
        let o = opens + count_char(ls[j], '{');
        let c = closes + count_char(ls[j], '}');
        if o != c {
            lemma_block_end_range(ls, j + 1, o, c);
        }
    }
}

/// The first line that names `block` followed by a colon.
pub open spec fn first_line_with(ls: Seq<Seq<char>>, needle: Seq<char>, j: int) -> Option<int>
    decreases ls.len() - j,
{
    if j < 0 || j >= ls.len() {
        None
    } else if contains(ls[j], needle) {
        Some(j)
    } else {
        first_line_with(ls, needle, j + 1)
    }
}

/// Whether one of the lines `from..=to` holds `entry`.
pub open spec fn holds_entry(ls: Seq<Seq<char>>, from: int, to: int, entry: Seq<char>) -> bool {
    exists|k: int| from <= k <= to && 0 <= k < ls.len() && contains(#[trigger] ls[k], entry)
}

/// The lines after each missing entry of `es` is added before the block's
/// last line, with that line's new index and whether one was added.
pub open spec fn entries_fold(
    ls: Seq<Seq<char>>,
    start: int,
    end: int,
    es: Seq<Seq<char>>,
    indent: Seq<char>,
) -> (Seq<Seq<char>>, int, bool)
    decreases es.len(),
{
    if es.len() == 0 {
        (ls, end, false)
    } else {
        let prev = entries_fold(ls, start, end, es.drop_last(), indent);
        if holds_entry(prev.0, start, prev.1, es.last()) {
            prev
        } else {
            (prev.0.insert(prev.1, indent + es.last()), prev.1 + 1, true)
        }
    }
}

/// `content` with each entry of `es` that its block `block` lacks added as
/// a line before the block's closing line, indented one level deeper than
/// the block's first line; unchanged when the block is not found or all
/// entries are there.
pub open spec fn js_block_spec(content: Seq<char>, block: Seq<char>, es: Seq<Seq<char>>) -> (Seq<char>, bool) {
    let ls = lines(content);
    match first_line_with(ls, block + ":"@, 0) {
        None => (content, false),
        Some(start) => match block_end(ls, start, 0, 0) {
            None => (content, false),
            Some(end) => if end <= start {
                (content, false)
            } else {
                let f = entries_fold(ls, start, end, es, ws_run(ls[start], 0) + "  "@);
                if f.2 {
                    (join(f.0, "\n"@), true)
                } else {
                    (content, false)
                }
            },
        },
    }
}

fn count_char_exec(l: &str, c: char) -> (r: usize)
    ensures
        r == count_char(l@, c),
        r <= l@.len(),
{
    let cs = chars_of(l);
    let mut n: usize = 0;
    let mut i: usize = 0;
    while i < cs.len()
        invariant
            i <= cs@.len(),
            cs@ == l@,
            n == count_char(cs@.take(i as int), c),
            n <= i,
        decreases cs.len() - i,
    {
        assert(cs@.take(i + 1).drop_last() =~= cs@.take(i as int));
        if cs[i] == c {
            n = n + 1;
        }
        i = i + 1;
    }
    assert(cs@.take(cs@.len() as int) =~= cs@);
    n
}

fn holds_entry_exec(ls: &Vec<String>, from: usize, to: usize, entry: &str) -> (r: bool)
    requires
        from <= to < ls@.len(),
    ensures
        r == holds_entry(views(ls@), from as int, to as int, entry@),
{
    let ghost lv = views(ls@);
    let n = ls.len();
    let mut k = from;
    while k <= to
        invariant
            from <= k <= to + 1,
            to < n,
            n == ls@.len(),
            lv == views(ls@),
            forall|j: int| from <= j < k ==> !contains(#[trigger] lv[j], entry@),
        decreases to + 1 - k,
    {
        if str_contains(ls[k].as_str(), entry) {
            assert(contains(lv[k as int], entry@));
            return true;
        }
        k = k + 1;
    }
    false
}

/// Adds the entries `es` that block `block` of `content` lacks.
pub fn insert_into_js_block(content: &str, block: &str, es: &Vec<String>) -> (r: (String, bool))
    ensures
        (r.0@, r.1) == js_block_spec(content@, block@, views(es@)),
{
    let ls = lines_exec(content);
    let ghost lv = views(ls@);
    let mut target = copy_str(block);
    push_str(&mut target, ":");
    // The first line that names the block.
    let mut s: usize = 0;
    assert(first_line_with(lv, target@, 0) == first_line_with(lv, target@, 0));
    while s < ls.len() && !str_contains(ls[s].as_str(), target.as_str())
        invariant
            s <= ls@.len(),
            lv == views(ls@),
            first_line_with(lv, target@, 0) == first_line_with(lv, target@, s as int),
        decreases ls.len() - s,
    {
        s = s + 1;
    }
    if s >= ls.len() {
        return (copy_str(content), false);
    }
    let start = s;
    // Where its braces balance.
    let mut j = start;
    let mut opens: u128 = 0;
    let mut closes: u128 = 0;
    let mut end: Option<usize> = None;
    while end.is_none() && j < ls.len()
        invariant
            start <= j <= ls@.len(),
            start < ls@.len(),
            lv == views(ls@),
            end matches Some(e) ==> block_end(lv, start as int, 0, 0) == Some(e as int),
            end is None ==> block_end(lv, start as int, 0, 0) == block_end(lv, j as int, opens as int, closes as int),
            opens <= (j - start) * 0xffff_ffff_ffff_ffffu128,
            closes <= (j - start) * 0xffff_ffff_ffff_ffffu128,
        decreases ls.len() - j,
    {
        let o = count_char_exec(ls[j].as_str(), '{');
        let c = count_char_exec(ls[j].as_str(), '}');
        proof {
            assert((j - start) * 0xffff_ffff_ffff_ffffu128 + 0xffff_ffff_ffff_ffffu128 == (j + 1 - start)
                * 0xffff_ffff_ffff_ffffu128) by (nonlinear_arith);
            assert((j + 1 - start) * 0xffff_ffff_ffff_ffffu128 <= 0xffff_ffff_ffff_ffffu128 * 0xffff_ffff_ffff_ffffu128)
                by (nonlinear_arith)
                requires
                    j + 1 - start <= 0xffff_ffff_ffff_ffff,
            ;
        }
        opens = opens + o as u128;
        closes = closes + c as u128;
        if opens == closes {
            end = Some(j);
        }
        j = j + 1;
    }
    let end0 = match end {
        Some(e) => e,
        None => {
            return (copy_str(content), false);
        },
    };
    if end0 <= start {
        return (copy_str(content), false);
    }
    proof {
        lemma_block_end_range(lv, start as int, 0, 0);
    }
    let indent0 = ws_run_exec(&chars_of(ls[start].as_str()), 0);
    let mut indent = indent0;
    push_str(&mut indent, "  ");
    let mut cur: Vec<String> = ls;
    let mut e = end0;
    let mut changed = false;
    let ghost ev = views(es@);
    let mut i: usize = 0;
    assert(ev.take(0) =~= Seq::<Seq<char>>::empty());
    while i < es.len()
        invariant
            i <= es@.len(),
            ev == views(es@),
            start < e < cur@.len(),
            (views(cur@), e as int, changed) == entries_fold(lv, start as int, end0 as int, ev.take(i as int), indent@),
        decreases es.len() - i,
    {
        proof {
            assert(ev.take(i + 1).drop_last() =~= ev.take(i as int));
            assert(ev.take(i + 1).last() == ev[i as int]);
        }
        if !holds_entry_exec(&cur, start, e, es[i].as_str()) {
            let mut line = copy_str(indent.as_str());
            push_str(&mut line, es[i].as_str());
            let ghost before = views(cur@);
            let ghost lvv = line@;
            let n = cur.len();
            cur.insert(e, line);
            assert(views(cur@) =~= before.insert(e as int, lvv));
            e = e + 1;
            changed = true;
        }
        i = i + 1;
    }
    assert(ev.take(es@.len() as int) =~= ev);
    if !changed {
        return (copy_str(content), false);
    }
    (join_exec(&cur, "\n"), true)
}

/// `abp.resourcemapping.js` with the Vue aliases and mappings.
pub open spec fn vue_resource_spec(content: Seq<char>) -> (Seq<char>, bool) {
    let a = js_block_spec(
        content,
        "aliases"@,
        seq!["\"@node_modules\": \"./node_modules\","@, "\"@libs\": \"./wwwroot/libs\","@],
    );
    let m = js_block_spec(
        a.0,
        "mappings"@,
        seq![
            "\"@node_modules/vue/dist/**/*\": \"@libs/vue/\","@,
            "\"@node_modules/vue-select/dist/**/*\": \"@libs/vue-select/\","@,
        ],
    );
    (m.0, a.1 || m.1)
}

/// Adds the Vue aliases and library mappings to `abp.resourcemapping.js`.
pub fn vue_resource_mapping_text(content: &str) -> (r: (String, bool))
    ensures
        (r.0@, r.1) == vue_resource_spec(content@),
{
    let mut aliases: Vec<String> = Vec::new();
    aliases.push(copy_str("\"@node_modules\": \"./node_modules\","));
    aliases.push(copy_str("\"@libs\": \"./wwwroot/libs\","));
    assert(views(aliases@) =~= seq!["\"@node_modules\": \"./node_modules\","@, "\"@libs\": \"./wwwroot/libs\","@]);
    let (a, changed_aliases) = insert_into_js_block(content, "aliases", &aliases);
    let mut mappings: Vec<String> = Vec::new();
    mappings.push(copy_str("\"@node_modules/vue/dist/**/*\": \"@libs/vue/\","));
    mappings.push(copy_str("\"@node_modules/vue-select/dist/**/*\": \"@libs/vue-select/\","));
    assert(views(mappings@) =~= seq![
        "\"@node_modules/vue/dist/**/*\": \"@libs/vue/\","@,
        "\"@node_modules/vue-select/dist/**/*\": \"@libs/vue-select/\","@,
    ]);
    let (m, changed_mappings) = insert_into_js_block(a.as_str(), "mappings", &mappings);
    (m, changed_aliases || changed_mappings)
}

} // verus!
