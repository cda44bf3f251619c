use vstd::prelude::*;
use crate::workflow::seq_view;
use crate::text::{
    chars_of, cut, line_ranges, lines, ltrim, ltrim_index, push_char, push_range, ranges_within,
    range_starts_with, rtrim, rtrim_index, starts_with, string_from_range, string_of, trim, lemma_trim_empty,
    lemma_trim_idempotent, push_str,
};

verus! {

/// The opening and closing mark of a fenced code block.
pub open spec fn fence() -> Seq<char> {
    seq!['`', '`', '`']
}

/// A line that opens or closes a fenced block.
pub open spec fn is_fence_line(l: Seq<char>) -> bool {
    starts_with(ltrim(l), fence())
}

/// Index of the first fence line at or after `j`, or `ls.len()`.
pub open spec fn close_index(ls: Seq<Seq<char>>, j: int) -> int
    decreases ls.len() - j,
{
    if j >= ls.len() {
        ls.len() as int
    } else if is_fence_line(ls[j]) {
        j
    } else {
        close_index(ls, j + 1)
    }
}

pub proof fn lemma_close_index_bounds(ls: Seq<Seq<char>>, j: int)
    requires
        0 <= j,
    ensures
        j <= ls.len() ==> j <= close_index(ls, j) <= ls.len(),
        j > ls.len() ==> close_index(ls, j) == ls.len(),
    decreases ls.len() - j,
{
    if j < ls.len() && !is_fence_line(ls[j]) {
        lemma_close_index_bounds(ls, j + 1);
    }
}

/// Number of lines that hold something besides whitespace.
pub open spec fn nonblank_count(ls: Seq<Seq<char>>) -> nat
    decreases ls.len(),
{
    if ls.len() == 0 {
        0
    } else {
        nonblank_count(ls.drop_last()) + if trim(ls.last()).len() > 0 {
            1nat
        } else {
            0nat
        }
    }
}

/// The lines joined with `\n` between them.
pub open spec fn join_lines(ls: Seq<Seq<char>>) -> Seq<char>
    decreases ls.len(),
{
    if ls.len() == 0 {
        seq![]
    } else if ls.len() == 1 {
        ls[0]
    } else {
        join_lines(ls.drop_last()) + seq!['\n'] + ls.last()
    }
}

/// The language tag given to a block whose fence names none.
pub open spec fn unknown_language() -> Seq<char> {
    "unknown"@
}

/// The fenced blocks found from line `i` on: each block opens with a line
/// whose left-trimmed text starts with three backticks (the rest of that
/// line, trimmed, is its language), runs to the next such line, and is
/// kept when at least two of its lines are not blank. A block that is
/// never closed ends the scan.
pub open spec fn blocks_from(ls: Seq<Seq<char>>, i: int) -> Seq<(Seq<char>, Seq<char>)>
    decreases ls.len() - i,
{
    if i < 0 || i >= ls.len() {
        seq![]
    } else if is_fence_line(ls[i]) {
        let lang = trim(ltrim(ls[i]).skip(3));
        let j = close_index(ls, i + 1);
        proof {
            lemma_close_index_bounds(ls, i + 1);
        }
        if j >= ls.len() {
            seq![]
        } else {
            let body = ls.subrange(i + 1, j);
            let rest = blocks_from(ls, j + 1);
            if nonblank_count(body) >= 2 {
                seq![
                    (join_lines(body), if lang.len() == 0 {
                        unknown_language()
                    } else {
                        lang
                    }),
                ] + rest
            } else {
                rest
            }
        }
    } else {
        blocks_from(ls, i + 1)
    }
}

/// The (code, language) pairs of the fenced code blocks of `content`.
pub open spec fn code_blocks_of(content: Seq<char>) -> Seq<(Seq<char>, Seq<char>)> {
    blocks_from(lines(content), 0)
}

/// View of a list of string pairs.
pub open spec fn pairs_view(ps: Seq<(String, String)>) -> Seq<(Seq<char>, Seq<char>)> {
    ps.map_values(|p: (String, String)| (p.0@, p.1@))
}

fn is_fence_at(v: &Vec<char>, rs: &Vec<(usize, usize)>, k: usize, fence_v: &Vec<char>) -> (r: bool)
    requires
        k < rs.len(),
        ranges_within(v@, rs@),
        fence_v@ == fence(),
    ensures
        r == is_fence_line(cut(v@, rs@)[k as int]),
{
    let (lo, hi) = rs[k];
    assert(rs@[k as int].0 <= rs@[k as int].1 && rs@[k as int].1 <= v.len());
    let t = ltrim_index(v, lo, hi);
    range_starts_with(v, t, hi, fence_v)
}

fn is_nonblank_at(v: &Vec<char>, rs: &Vec<(usize, usize)>, k: usize) -> (r: bool)
    requires
        k < rs.len(),
        ranges_within(v@, rs@),
    ensures
        r == (trim(cut(v@, rs@)[k as int]).len() > 0),
{
    let (lo, hi) = rs[k];
    assert(rs@[k as int].0 <= rs@[k as int].1 && rs@[k as int].1 <= v.len());
    let t = ltrim_index(v, lo, hi);
    proof {
        lemma_trim_empty(v@.subrange(lo as int, hi as int));
    }
    t < hi
}

/// Number of fence lines from line `i` on.
pub open spec fn fences_from(ls: Seq<Seq<char>>, i: int) -> nat
    decreases ls.len() - i,
{
    if i < 0 || i >= ls.len() {
        0
    } else {
        (if is_fence_line(ls[i]) {
            1nat
        } else {
            0nat
        }) + fences_from(ls, i + 1)
    }
}

proof fn lemma_fences_until_close(ls: Seq<Seq<char>>, m: int)
    requires
        0 <= m <= ls.len(),
    ensures
        close_index(ls, m) < ls.len() ==> fences_from(ls, m) == fences_from(ls, close_index(ls, m)),
    decreases ls.len() - m,
{
    if m < ls.len() && !is_fence_line(ls[m]) {
        lemma_fences_until_close(ls, m + 1);
    }
}

/// A block of code of lines `ls`: the join of the lines strictly between
/// an opening fence line `a` and the next fence line `z`, at least two of
/// them not blank (none of them is a fence line).
pub open spec fn fenced_code_of(ls: Seq<Seq<char>>, code: Seq<char>) -> bool {
    exists|a: int, z: int|
        #![trigger join_lines(ls.subrange(a + 1, z))]
        0 <= a < z < ls.len() && is_fence_line(ls[a]) && is_fence_line(ls[z]) && (forall|m: int|
            a < m < z ==> !is_fence_line(#[trigger] ls[m])) && nonblank_count(ls.subrange(a + 1, z)) >= 2
            && code == join_lines(ls.subrange(a + 1, z))
}

/// No fence line stands between `m` and `close_index(ls, m)`.
proof fn lemma_close_index_first(ls: Seq<Seq<char>>, m: int)
    requires
        0 <= m <= ls.len(),
    ensures
        forall|p: int| m <= p < close_index(ls, m) ==> !is_fence_line(#[trigger] ls[p]),
    decreases ls.len() - m,
{
    if m < ls.len() && !is_fence_line(ls[m]) {
        lemma_close_index_first(ls, m + 1);
    }
}

/// Law: every extracted block has a non-empty, trimmed language tag and
/// code made of the lines between two fence lines, at least two of them
/// not blank and none a fence line; each block uses up two fence lines of
/// its own (one opening, one closing), so there are at most half as many
/// blocks as fence lines.
pub proof fn law_code_blocks_are_fenced(ls: Seq<Seq<char>>, i: int)
    requires
        0 <= i,
    ensures
        forall|k: int| 0 <= k < blocks_from(ls, i).len() ==> {
            let b = #[trigger] blocks_from(ls, i)[k];
            &&& b.1.len() > 0
            &&& trim(b.1) == b.1
            &&& fenced_code_of(ls, b.0)
        },
        2 * blocks_from(ls, i).len() <= fences_from(ls, i),
    decreases ls.len() - i,
{
    reveal_strlit("unknown");
    if i < ls.len() {
        if is_fence_line(ls[i]) {
            let j = close_index(ls, i + 1);
            lemma_close_index_bounds(ls, i + 1);
            if j < ls.len() {
                law_code_blocks_are_fenced(ls, j + 1);
                lemma_fences_until_close(ls, i + 1);
                assert(is_fence_line(ls[j])) by {
                    lemma_close_is_fence(ls, i + 1);
                }
                let rest = blocks_from(ls, j + 1);
                let body = ls.subrange(i + 1, j);
                if nonblank_count(body) >= 2 {
                    let lang = trim(ltrim(ls[i]).skip(3));
                    let head = (join_lines(body), if lang.len() == 0 {
                        unknown_language()
                    } else {
                        lang
                    });
                    assert(blocks_from(ls, i) == seq![head] + rest);
                    assert(fenced_code_of(ls, head.0)) by {
                        lemma_close_index_first(ls, i + 1);
                        assert(head.0 == join_lines(ls.subrange(i + 1, j)));
                    }
                    assert(trim(head.1) == head.1) by {
                        if lang.len() == 0 {
                            assert(ltrim(unknown_language()) == unknown_language());
                            assert(rtrim(unknown_language()) == unknown_language());
                        } else {
                            lemma_trim_idempotent(ltrim(ls[i]).skip(3));
                        }
                    }
                    assert forall|k: int| 0 <= k < blocks_from(ls, i).len() implies {
                        let b = #[trigger] blocks_from(ls, i)[k];
                        &&& b.1.len() > 0
                        &&& trim(b.1) == b.1
                        &&& fenced_code_of(ls, b.0)
                    } by {
                        if k > 0 {
                            assert(blocks_from(ls, i)[k] == rest[k - 1]);
                        }
                    }
                }
            }
        } else {
            law_code_blocks_are_fenced(ls, i + 1);
        }
    }
}

proof fn lemma_close_is_fence(ls: Seq<Seq<char>>, m: int)
    requires
        0 <= m <= ls.len(),
        close_index(ls, m) < ls.len(),
    ensures
        is_fence_line(ls[close_index(ls, m)]),
    decreases ls.len() - m,
{
    if !is_fence_line(ls[m]) {
        lemma_close_is_fence(ls, m + 1);
    }
}

/// Parses the fenced (three backtick) code blocks out of markdown text and
/// returns `(code, language)` pairs; a block needs two non-blank lines and
/// a closing fence, and a fence without a language gets "unknown".
pub fn extract_code_blocks(content: &str) -> (blocks: Vec<(String, String)>)
    ensures
        pairs_view(blocks@) == code_blocks_of(content@),
{
    let v = chars_of(content);
    let rs = line_ranges(&v);
    let ghost ls = cut(v@, rs@);
    let fence_v: Vec<char> = vec!['`', '`', '`'];
    assert(fence_v@ =~= fence());
    let n = rs.len();
    let mut out: Vec<(String, String)> = Vec::new();
    let mut i: usize = 0;
    while i < n
        invariant
            n == rs.len() == ls.len(),
            ls == cut(v@, rs@),
            ranges_within(v@, rs@),
            fence_v@ == fence(),
            i <= n,
            code_blocks_of(content@) == pairs_view(out@) + blocks_from(ls, i as int),
        decreases n - i,
    {
        if is_fence_at(&v, &rs, i, &fence_v) {
            let (lo, hi) = rs[i];
            assert(rs@[i as int].0 <= rs@[i as int].1 && rs@[i as int].1 <= v.len());
            let t = ltrim_index(&v, lo, hi);
            assert(v@.subrange(t as int, hi as int).take(3) =~= fence());
            let la = ltrim_index(&v, t + 3, hi);
            let lb = rtrim_index(&v, la, hi);
            proof {
                assert(v@.subrange(t as int, hi as int).skip(3) =~= v@.subrange(t + 3, hi as int));
                assert(ls[i as int] == v@.subrange(lo as int, hi as int));
            }
            let ghost lang = trim(ltrim(ls[i as int]).skip(3));
            assert(v@.subrange(la as int, lb as int) == lang);
            let mut j = i + 1;
            let mut nonblank: usize = 0;
            assert(ls.subrange(i + 1, j as int) =~= Seq::<Seq<char>>::empty());
            while j < n && !is_fence_at(&v, &rs, j, &fence_v)
                invariant
                    n == rs.len() == ls.len(),
                    ls == cut(v@, rs@),
                    ranges_within(v@, rs@),
                    fence_v@ == fence(),
                    i < j <= n,
                    close_index(ls, i + 1) == close_index(ls, j as int),
                    nonblank == nonblank_count(ls.subrange(i + 1, j as int)),
                    nonblank <= j - i,
                decreases n - j,
            {
                assert(ls.subrange(i + 1, j + 1).drop_last() =~= ls.subrange(i + 1, j as int));
                if is_nonblank_at(&v, &rs, j) {
                    nonblank = nonblank + 1;
                }
                j = j + 1;
            }
            proof {
                lemma_close_index_bounds(ls, j as int);
            }
            if j < n {
                assert(close_index(ls, i + 1) == j);
                if nonblank >= 2 {
                    let mut code = String::new();
                    let mut k = i + 1;
                    while k < j
                        invariant
                            n == rs.len() == ls.len(),
                            ls == cut(v@, rs@),
                            ranges_within(v@, rs@),
                            i < k <= j < n,
                            code@ == join_lines(ls.subrange(i + 1, k as int)),
                        decreases j - k,
                    {
                        let (a, b) = rs[k];
                        assert(rs@[k as int].0 <= rs@[k as int].1 && rs@[k as int].1 <= v.len());
                        assert(ls.subrange(i + 1, k + 1).drop_last() =~= ls.subrange(
                            i + 1,
                            k as int,
                        ));
                        if k > i + 1 {
                            push_char(&mut code, '\n');
                        }
                        push_range(&mut code, &v, a, b);
                        assert(ls.subrange(i + 1, k + 1).last() == ls[k as int]);
                        proof {
                            if k == i + 1 {
                                assert(code@ =~= join_lines(ls.subrange(i + 1, k + 1)));
                            } else {
                                assert(code@ =~= join_lines(ls.subrange(i + 1, k + 1)));
                            }
                        }
                        k = k + 1;
                    }
                    let lang_s = if la == lb {
                        string_of("unknown")
                    } else {
                        string_from_range(&v, la, lb)
                    };
                    let ghost before = out@;
                    out.push((code, lang_s));
                    assert(pairs_view(out@) =~= pairs_view(before).push((code@, lang_s@)));
                }
                i = j + 1;
            } else {
                i = n;
            }
        } else {
            i = i + 1;
        }
    }
    assert(pairs_view(out@) + blocks_from(ls, n as int) =~= pairs_view(out@));
    out
}

} // verus!

verus! {

// ── naming, indentation and comment style choices ────────────────────

/// Naming pattern kinds the style extractor reports.
#[derive(PartialEq, Eq, Structural, Clone, Copy, Debug)]
pub enum NamingPatternType {
    Snake,
    Camel,
    Pascal,
    Kebab,
    /// Any other kind (not counted towards a convention).
    Other,
}

/// How often the extractor saw a naming pattern.
#[derive(Debug)]
pub struct NamingPattern {
    pub pattern_type: NamingPatternType,
    pub count: u32,
}

/// The naming convention recorded in a user profile.
#[derive(PartialEq, Eq, Structural, Clone, Copy, Debug)]
pub enum NamingConvention {
    SnakeCase,
    CamelCase,
    PascalCase,
    KebabCase,
    Mixed,
}

/// Sum of the counts of patterns of kind `t`.
pub open spec fn kind_total(ps: Seq<NamingPattern>, t: NamingPatternType) -> nat
    decreases ps.len(),
{
    if ps.len() == 0 {
        0
    } else {
        kind_total(ps.drop_last(), t) + if ps.last().pattern_type == t {
            ps.last().count as nat
        } else {
            0nat
        }
    }
}

pub open spec fn max4(a: nat, b: nat, c: nat, d: nat) -> nat {
    let ab = if a >= b { a } else { b };
    let abc = if ab >= c { ab } else { c };
    if abc >= d { abc } else { d }
}

/// The most frequent convention (ties go to snake, camel, pascal, kebab in
/// that order); `Mixed` when nothing was counted.
pub open spec fn naming_choice(ps: Seq<NamingPattern>) -> NamingConvention {
    let s = kind_total(ps, NamingPatternType::Snake);
    let c = kind_total(ps, NamingPatternType::Camel);
    let p = kind_total(ps, NamingPatternType::Pascal);
    let k = kind_total(ps, NamingPatternType::Kebab);
    let m = max4(s, c, p, k);
    if m == 0 {
        NamingConvention::Mixed
    } else if s == m {
        NamingConvention::SnakeCase
    } else if c == m {
        NamingConvention::CamelCase
    } else if p == m {
        NamingConvention::PascalCase
    } else {
        NamingConvention::KebabCase
    }
}

/// The per-kind sums fit the counters (`u32`).
pub open spec fn naming_totals_fit(ps: Seq<NamingPattern>) -> bool {
    &&& kind_total(ps, NamingPatternType::Snake) <= u32::MAX
    &&& kind_total(ps, NamingPatternType::Camel) <= u32::MAX
    &&& kind_total(ps, NamingPatternType::Pascal) <= u32::MAX
    &&& kind_total(ps, NamingPatternType::Kebab) <= u32::MAX
}

proof fn lemma_kind_total_prefix(ps: Seq<NamingPattern>, i: int, t: NamingPatternType)
    requires
        0 <= i <= ps.len(),
    ensures
        kind_total(ps.take(i), t) <= kind_total(ps, t),
    decreases ps.len() - i,
{
    if i < ps.len() {
        lemma_kind_total_prefix(ps, i + 1, t);
        assert(ps.take(i + 1).drop_last() =~= ps.take(i));
    } else {
        assert(ps.take(i) =~= ps);
    }
}

/// Picks the naming convention the patterns show most (see `naming_choice`).
pub fn pick_naming_convention(patterns: &Vec<NamingPattern>) -> (r: NamingConvention)
    requires
        naming_totals_fit(patterns@),
    ensures
        r == naming_choice(patterns@),
{
    let ghost ps = patterns@;
    let mut snake: u32 = 0;
    let mut camel: u32 = 0;
    let mut pascal: u32 = 0;
    let mut kebab: u32 = 0;
    let mut i: usize = 0;
    while i < patterns.len()
        invariant
            ps == patterns@,
            naming_totals_fit(ps),
            i <= patterns.len(),
            snake == kind_total(ps.take(i as int), NamingPatternType::Snake),
            camel == kind_total(ps.take(i as int), NamingPatternType::Camel),
            pascal == kind_total(ps.take(i as int), NamingPatternType::Pascal),
            kebab == kind_total(ps.take(i as int), NamingPatternType::Kebab),
        decreases patterns.len() - i,
    {
        assert(ps.take(i + 1).drop_last() =~= ps.take(i as int));
        assert(ps.take(i + 1).last() == ps[i as int]);
        proof {
            lemma_kind_total_prefix(ps, i + 1, NamingPatternType::Snake);
            lemma_kind_total_prefix(ps, i + 1, NamingPatternType::Camel);
            lemma_kind_total_prefix(ps, i + 1, NamingPatternType::Pascal);
            lemma_kind_total_prefix(ps, i + 1, NamingPatternType::Kebab);
        }
        let p = &patterns[i];
        match p.pattern_type {
            NamingPatternType::Snake => snake = snake + p.count,
            NamingPatternType::Camel => camel = camel + p.count,
            NamingPatternType::Pascal => pascal = pascal + p.count,
            NamingPatternType::Kebab => kebab = kebab + p.count,
            NamingPatternType::Other => {},
        }
        i = i + 1;
    }
    assert(ps.take(patterns.len() as int) =~= ps);
    let m1 = if snake >= camel { snake } else { camel };
    let m2 = if m1 >= pascal { m1 } else { pascal };
    let max = if m2 >= kebab { m2 } else { kebab };
    if max == 0 {
        NamingConvention::Mixed
    } else if snake == max {
        NamingConvention::SnakeCase
    } else if camel == max {
        NamingConvention::CamelCase
    } else if pascal == max {
        NamingConvention::PascalCase
    } else {
        NamingConvention::KebabCase
    }
}

/// Law: the convention picked is one the patterns show at least as often
/// as any other (and `Mixed` only when none was seen).
pub proof fn law_naming_choice_is_most_frequent(ps: Seq<NamingPattern>)
    ensures
        ({
            let s = kind_total(ps, NamingPatternType::Snake);
            let c = kind_total(ps, NamingPatternType::Camel);
            let p = kind_total(ps, NamingPatternType::Pascal);
            let k = kind_total(ps, NamingPatternType::Kebab);
            let chosen = match naming_choice(ps) {
                NamingConvention::SnakeCase => s,
                NamingConvention::CamelCase => c,
                NamingConvention::PascalCase => p,
                NamingConvention::KebabCase => k,
                NamingConvention::Mixed => 0,
            };
            chosen >= s && chosen >= c && chosen >= p && chosen >= k && (naming_choice(ps)
                == NamingConvention::Mixed <==> s + c + p + k == 0)
        }),
{
}

/// Indentation as the extractor reports it.
#[derive(PartialEq, Eq, Structural, Clone, Copy, Debug)]
pub enum IndentStyle {
    Tabs,
    Spaces(usize),
}

/// Indentation as a user profile records it.
#[derive(PartialEq, Eq, Structural, Clone, Copy, Debug)]
pub enum ProfileIndentStyle {
    Tabs,
    TwoSpaces,
    FourSpaces,
}

/// Tabs stay tabs; up to two spaces is "two spaces", more is "four".
pub fn convert_indent_style(style: &IndentStyle) -> (r: ProfileIndentStyle)
    ensures
        r == match *style {
            IndentStyle::Tabs => ProfileIndentStyle::Tabs,
            IndentStyle::Spaces(n) => if n <= 2 {
                ProfileIndentStyle::TwoSpaces
            } else {
                ProfileIndentStyle::FourSpaces
            },
        },
{
    match style {
        IndentStyle::Tabs => ProfileIndentStyle::Tabs,
        IndentStyle::Spaces(size) => {
            if *size <= 2 {
                ProfileIndentStyle::TwoSpaces
            } else {
                ProfileIndentStyle::FourSpaces
            }
        },
    }
}

/// Comment style as a user profile records it.
#[derive(PartialEq, Eq, Structural, Clone, Copy, Debug)]
pub enum ProfileCommentStyle {
    Minimal,
    Moderate,
    Extensive,
    DocBlock,
}

pub open spec fn naming_label(n: NamingConvention) -> Seq<char> {
    match n {
        NamingConvention::SnakeCase => "SnakeCase"@,
        NamingConvention::CamelCase => "CamelCase"@,
        NamingConvention::PascalCase => "PascalCase"@,
        NamingConvention::KebabCase => "KebabCase"@,
        NamingConvention::Mixed => "Mixed"@,
    }
}

pub open spec fn indent_label(n: ProfileIndentStyle) -> Seq<char> {
    match n {
        ProfileIndentStyle::Tabs => "Tabs"@,
        ProfileIndentStyle::TwoSpaces => "TwoSpaces"@,
        ProfileIndentStyle::FourSpaces => "FourSpaces"@,
    }
}

pub open spec fn comment_label(n: ProfileCommentStyle) -> Seq<char> {
    match n {
        ProfileCommentStyle::Minimal => "Minimal"@,
        ProfileCommentStyle::Moderate => "Moderate"@,
        ProfileCommentStyle::Extensive => "Extensive"@,
        ProfileCommentStyle::DocBlock => "DocBlock"@,
    }
}

fn naming_label_exec(n: NamingConvention) -> (r: String)
    ensures
        r@ == naming_label(n),
{
    match n {
        NamingConvention::SnakeCase => string_of("SnakeCase"),
        NamingConvention::CamelCase => string_of("CamelCase"),
        NamingConvention::PascalCase => string_of("PascalCase"),
        NamingConvention::KebabCase => string_of("KebabCase"),
        NamingConvention::Mixed => string_of("Mixed"),
    }
}

fn indent_label_exec(n: ProfileIndentStyle) -> (r: String)
    ensures
        r@ == indent_label(n),
{
    match n {
        ProfileIndentStyle::Tabs => string_of("Tabs"),
        ProfileIndentStyle::TwoSpaces => string_of("TwoSpaces"),
        ProfileIndentStyle::FourSpaces => string_of("FourSpaces"),
    }
}

fn comment_label_exec(n: ProfileCommentStyle) -> (r: String)
    ensures
        r@ == comment_label(n),
{
    match n {
        ProfileCommentStyle::Minimal => string_of("Minimal"),
        ProfileCommentStyle::Moderate => string_of("Moderate"),
        ProfileCommentStyle::Extensive => string_of("Extensive"),
        ProfileCommentStyle::DocBlock => string_of("DocBlock"),
    }
}

/// The coding-style choices of a user profile.
#[derive(PartialEq, Eq, Structural, Clone, Copy, Debug)]
pub struct CodingStyleChoices {
    pub naming_convention: NamingConvention,
    pub indentation_style: ProfileIndentStyle,
    pub comment_style: ProfileCommentStyle,
}

/// The field records an update appends, in order, for the choices that change.
pub open spec fn style_updates(old: CodingStyleChoices, new: CodingStyleChoices) -> Seq<Seq<char>> {
    (if old.naming_convention != new.naming_convention {
        seq!["coding_style.naming_convention="@ + naming_label(new.naming_convention)]
    } else {
        seq![]
    }) + (if old.indentation_style != new.indentation_style {
        seq!["coding_style.indentation_style="@ + indent_label(new.indentation_style)]
    } else {
        seq![]
    }) + (if old.comment_style != new.comment_style {
        seq!["coding_style.comment_style="@ + comment_label(new.comment_style)]
    } else {
        seq![]
    })
}

/// Sets the profile's coding-style choices to `new` and records, for each
/// choice that changed, `coding_style.<field>=<Value>` in `updated_fields`.
pub fn apply_code_style_choices(
    profile: &mut CodingStyleChoices,
    new: CodingStyleChoices,
    updated_fields: &mut Vec<String>,
)
    ensures
        *final(profile) == new,
        seq_view(final(updated_fields)@) == seq_view(old(updated_fields)@) + style_updates(
            *old(profile),
            new,
        ),
{
    let ghost start = seq_view(updated_fields@);
    let ghost oldp = *profile;
    if profile.naming_convention != new.naming_convention {
        profile.naming_convention = new.naming_convention;
        let mut f = string_of("coding_style.naming_convention=");
        let l = naming_label_exec(new.naming_convention);
        push_str(&mut f, l.as_str());
        updated_fields.push(f);
    }
    let ghost mid1 = seq_view(updated_fields@);
    if profile.indentation_style != new.indentation_style {
        profile.indentation_style = new.indentation_style;
        let mut f = string_of("coding_style.indentation_style=");
        let l = indent_label_exec(new.indentation_style);
        push_str(&mut f, l.as_str());
        updated_fields.push(f);
    }
    let ghost mid2 = seq_view(updated_fields@);
    if profile.comment_style != new.comment_style {
        profile.comment_style = new.comment_style;
        let mut f = string_of("coding_style.comment_style=");
        let l = comment_label_exec(new.comment_style);
        push_str(&mut f, l.as_str());
        updated_fields.push(f);
    }
    assert(seq_view(updated_fields@) =~= start + style_updates(oldp, new));
}

/// The name of each naming convention (its variant's name).
proof fn lemma_naming_labels()
    ensures
        naming_label(NamingConvention::SnakeCase) == "SnakeCase"@,
        naming_label(NamingConvention::CamelCase) == "CamelCase"@,
        naming_label(NamingConvention::PascalCase) == "PascalCase"@,
        naming_label(NamingConvention::KebabCase) == "KebabCase"@,
        naming_label(NamingConvention::Mixed) == "Mixed"@,
        forall|a: NamingConvention, b: NamingConvention| naming_label(a) == naming_label(b) ==> a == b,
{
    reveal_strlit("SnakeCase");
    reveal_strlit("CamelCase");
    reveal_strlit("PascalCase");
    reveal_strlit("KebabCase");
    reveal_strlit("Mixed");
    assert forall|a: NamingConvention, b: NamingConvention| naming_label(a) == naming_label(b) implies a == b by {
        if a != b {
            assert(naming_label(a)[0] != naming_label(b)[0] || naming_label(a).len() != naming_label(b).len());
        }
    }
}

/// Law: the record of a changed coding-style choice names the new value
/// by its variant name (`SnakeCase`, `FourSpaces`, `DocBlock`, ...), in
/// the order naming, indentation, comment style; distinct values are
/// recorded by distinct names, so a record tells which value was chosen.
pub proof fn law_style_records_name_the_new_choice(old: CodingStyleChoices, new: CodingStyleChoices)
    ensures
        style_updates(old, new) == (if old.naming_convention != new.naming_convention {
            seq![
                "coding_style.naming_convention="@ + match new.naming_convention {
                    NamingConvention::SnakeCase => "SnakeCase"@,
                    NamingConvention::CamelCase => "CamelCase"@,
                    NamingConvention::PascalCase => "PascalCase"@,
                    NamingConvention::KebabCase => "KebabCase"@,
                    NamingConvention::Mixed => "Mixed"@,
                },
            ]
        } else {
            Seq::<Seq<char>>::empty()
        }) + (if old.indentation_style != new.indentation_style {
            seq![
                "coding_style.indentation_style="@ + match new.indentation_style {
                    ProfileIndentStyle::Tabs => "Tabs"@,
                    ProfileIndentStyle::TwoSpaces => "TwoSpaces"@,
                    ProfileIndentStyle::FourSpaces => "FourSpaces"@,
                },
            ]
        } else {
            Seq::<Seq<char>>::empty()
        }) + (if old.comment_style != new.comment_style {
            seq![
                "coding_style.comment_style="@ + match new.comment_style {
                    ProfileCommentStyle::Minimal => "Minimal"@,
                    ProfileCommentStyle::Moderate => "Moderate"@,
                    ProfileCommentStyle::Extensive => "Extensive"@,
                    ProfileCommentStyle::DocBlock => "DocBlock"@,
                },
            ]
        } else {
            Seq::<Seq<char>>::empty()
        }),
        forall|a: NamingConvention, b: NamingConvention| naming_label(a) == naming_label(b) ==> a == b,
        forall|a: ProfileIndentStyle, b: ProfileIndentStyle| indent_label(a) == indent_label(b) ==> a == b,
        forall|a: ProfileCommentStyle, b: ProfileCommentStyle| comment_label(a) == comment_label(b) ==> a == b,
{
    lemma_naming_labels();
    reveal_strlit("Tabs");
    reveal_strlit("TwoSpaces");
    reveal_strlit("FourSpaces");
    reveal_strlit("Minimal");
    reveal_strlit("Moderate");
    reveal_strlit("Extensive");
    reveal_strlit("DocBlock");
    assert forall|a: ProfileIndentStyle, b: ProfileIndentStyle| indent_label(a) == indent_label(b) implies a == b by {
        if a != b {
            assert(indent_label(a)[0] != indent_label(b)[0] || indent_label(a)[1] != indent_label(b)[1]);
        }
    }
    assert forall|a: ProfileCommentStyle, b: ProfileCommentStyle| comment_label(a) == comment_label(b) implies a
        == b by {
        if a != b {
            assert(comment_label(a)[0] != comment_label(b)[0] || comment_label(a).len() != comment_label(b).len());
        }
    }
}

/// Tone of a user's writing, as a profile records it.
#[derive(PartialEq, Eq, Structural, Clone, Copy, Debug)]
pub enum Tone {
    Formal,
    Neutral,
    Casual,
}

/// How much detail a user wants.
#[derive(PartialEq, Eq, Structural, Clone, Copy, Debug)]
pub enum DetailLevel {
    Minimal,
    Moderate,
    Comprehensive,
}

/// How deep explanations should go.
#[derive(PartialEq, Eq, Structural, Clone, Copy, Debug)]
pub enum ExplanationDepth {
    Brief,
    Standard,
    Detailed,
}

pub open spec fn tone_label(t: Tone) -> Seq<char> {
    match t {
        Tone::Formal => "Formal"@,
        Tone::Neutral => "Neutral"@,
        Tone::Casual => "Casual"@,
    }
}

pub open spec fn detail_label(d: DetailLevel) -> Seq<char> {
    match d {
        DetailLevel::Minimal => "Minimal"@,
        DetailLevel::Moderate => "Moderate"@,
        DetailLevel::Comprehensive => "Comprehensive"@,
    }
}

pub open spec fn depth_label(d: ExplanationDepth) -> Seq<char> {
    match d {
        ExplanationDepth::Brief => "Brief"@,
        ExplanationDepth::Standard => "Standard"@,
        ExplanationDepth::Detailed => "Detailed"@,
    }
}

fn tone_label_exec(t: Tone) -> (r: String)
    ensures
        r@ == tone_label(t),
{
    match t {
        Tone::Formal => string_of("Formal"),
        Tone::Neutral => string_of("Neutral"),
        Tone::Casual => string_of("Casual"),
    }
}

fn detail_label_exec(d: DetailLevel) -> (r: String)
    ensures
        r@ == detail_label(d),
{
    match d {
        DetailLevel::Minimal => string_of("Minimal"),
        DetailLevel::Moderate => string_of("Moderate"),
        DetailLevel::Comprehensive => string_of("Comprehensive"),
    }
}

fn depth_label_exec(d: ExplanationDepth) -> (r: String)
    ensures
        r@ == depth_label(d),
{
    match d {
        ExplanationDepth::Brief => string_of("Brief"),
        ExplanationDepth::Standard => string_of("Standard"),
        ExplanationDepth::Detailed => string_of("Detailed"),
    }
}

/// The communication choices of a user profile.
#[derive(PartialEq, Eq, Structural, Clone, Copy, Debug)]
pub struct CommunicationChoices {
    pub tone: Tone,
    pub detail_level: DetailLevel,
    pub explanation_depth: ExplanationDepth,
}

/// The field records an update appends, in order, for the communication
/// choices that change.
pub open spec fn communication_updates(old: CommunicationChoices, new: CommunicationChoices) -> Seq<Seq<char>> {
    (if old.tone != new.tone {
        seq!["communication.tone="@ + tone_label(new.tone)]
    } else {
        seq![]
    }) + (if old.detail_level != new.detail_level {
        seq!["communication.detail_level="@ + detail_label(new.detail_level)]
    } else {
        seq![]
    }) + (if old.explanation_depth != new.explanation_depth {
        seq!["communication.explanation_depth="@ + depth_label(new.explanation_depth)]
    } else {
        seq![]
    })
}

/// Law: the record of a changed communication choice names the new value
/// by its variant name (`Formal`, `Comprehensive`, `Detailed`, ...), in
/// the order tone, detail level, explanation depth; distinct values are
/// recorded by distinct names.
pub proof fn law_communication_records_name_the_new_choice(old: CommunicationChoices, new: CommunicationChoices)
    ensures
        communication_updates(old, new) == (if old.tone != new.tone {
            seq![
                "communication.tone="@ + match new.tone {
                    Tone::Formal => "Formal"@,
                    Tone::Neutral => "Neutral"@,
                    Tone::Casual => "Casual"@,
                },
            ]
        } else {
            Seq::<Seq<char>>::empty()
        }) + (if old.detail_level != new.detail_level {
            seq![
                "communication.detail_level="@ + match new.detail_level {
                    DetailLevel::Minimal => "Minimal"@,
                    DetailLevel::Moderate => "Moderate"@,
                    DetailLevel::Comprehensive => "Comprehensive"@,
                },
            ]
        } else {
            Seq::<Seq<char>>::empty()
        }) + (if old.explanation_depth != new.explanation_depth {
            seq![
                "communication.explanation_depth="@ + match new.explanation_depth {
                    ExplanationDepth::Brief => "Brief"@,
                    ExplanationDepth::Standard => "Standard"@,
                    ExplanationDepth::Detailed => "Detailed"@,
                },
            ]
        } else {
            Seq::<Seq<char>>::empty()
        }),
        forall|a: Tone, b: Tone| tone_label(a) == tone_label(b) ==> a == b,
        forall|a: DetailLevel, b: DetailLevel| detail_label(a) == detail_label(b) ==> a == b,
        forall|a: ExplanationDepth, b: ExplanationDepth| depth_label(a) == depth_label(b) ==> a == b,
{
    reveal_strlit("Formal");
    reveal_strlit("Neutral");
    reveal_strlit("Casual");
    reveal_strlit("Minimal");
    reveal_strlit("Moderate");
    reveal_strlit("Comprehensive");
    reveal_strlit("Brief");
    reveal_strlit("Standard");
    reveal_strlit("Detailed");
    assert forall|a: Tone, b: Tone| tone_label(a) == tone_label(b) implies a == b by {
        if a != b {
            assert(tone_label(a)[0] != tone_label(b)[0]);
        }
    }
    assert forall|a: DetailLevel, b: DetailLevel| detail_label(a) == detail_label(b) implies a == b by {
        if a != b {
            assert(detail_label(a)[0] != detail_label(b)[0] || detail_label(a)[1] != detail_label(b)[1]);
        }
    }
    assert forall|a: ExplanationDepth, b: ExplanationDepth| depth_label(a) == depth_label(b) implies a == b by {
        if a != b {
            assert(depth_label(a)[0] != depth_label(b)[0]);
        }
    }
}

/// Sets the profile's communication choices to `new` and records, for each
/// choice that changed, `communication.<field>=<Value>` in `updated_fields`.
pub fn apply_communication_choices(
    profile: &mut CommunicationChoices,
    new: CommunicationChoices,
    updated_fields: &mut Vec<String>,
)
    ensures
        *final(profile) == new,
        seq_view(final(updated_fields)@) == seq_view(old(updated_fields)@) + communication_updates(
            *old(profile),
            new,
        ),
{
    let ghost start = seq_view(updated_fields@);
    let ghost oldp = *profile;
    if profile.tone != new.tone {
        profile.tone = new.tone;
        let mut f = string_of("communication.tone=");
        let l = tone_label_exec(new.tone);
        push_str(&mut f, l.as_str());
        updated_fields.push(f);
    }
    if profile.detail_level != new.detail_level {
        profile.detail_level = new.detail_level;
        let mut f = string_of("communication.detail_level=");
        let l = detail_label_exec(new.detail_level);
        push_str(&mut f, l.as_str());
        updated_fields.push(f);
    }
    if profile.explanation_depth != new.explanation_depth {
        profile.explanation_depth = new.explanation_depth;
        let mut f = string_of("communication.explanation_depth=");
        let l = depth_label_exec(new.explanation_depth);
        push_str(&mut f, l.as_str());
        updated_fields.push(f);
    }
    assert(seq_view(updated_fields@) =~= start + communication_updates(oldp, new));
}

} // verus!

verus! {

// ── samples for style learning ───────────────────────────────────────

/// Who wrote a conversation message.
#[derive(PartialEq, Eq, Structural, Clone, Copy, Debug)]
pub enum MessageRole {
    User,
    Assistant,
    System,
    Tool,
}

/// A stored conversation message (what style learning reads of it).
#[derive(Debug)]
pub struct ChatMessage {
    pub role: MessageRole,
    pub content: String,
    /// Unix seconds.
    pub created_at: i64,
}

/// A code sample for style extraction.
#[derive(Debug)]
pub struct CodeSample {
    pub code: String,
    pub language: String,
    /// Unix seconds of the message it came from.
    pub timestamp: i64,
}

/// A user message sample for style extraction.
#[derive(Debug)]
pub struct MessageSample {
    pub content: String,
    pub role: String,
    /// Unix seconds of the message.
    pub timestamp: i64,
}

pub open spec fn code_samples_of(ms: Seq<ChatMessage>) -> Seq<(Seq<char>, Seq<char>, i64)>
    decreases ms.len(),
{
    if ms.len() == 0 {
        seq![]
    } else {
        let m = ms.last();
        code_samples_of(ms.drop_last()) + code_blocks_of(m.content@).map_values(
            |b: (Seq<char>, Seq<char>)| (b.0, b.1, m.created_at),
        )
    }
}

pub open spec fn message_samples_of(ms: Seq<ChatMessage>) -> Seq<(Seq<char>, Seq<char>, i64)>
    decreases ms.len(),
{
    if ms.len() == 0 {
        seq![]
    } else {
        let m = ms.last();
        message_samples_of(ms.drop_last()) + if m.role == MessageRole::User {
            seq![(m.content@, "user"@, m.created_at)]
        } else {
            seq![]
        }
    }
}

pub open spec fn code_sample_views(s: Seq<CodeSample>) -> Seq<(Seq<char>, Seq<char>, i64)> {
    s.map_values(|c: CodeSample| (c.code@, c.language@, c.timestamp))
}

pub open spec fn message_sample_views(s: Seq<MessageSample>) -> Seq<(Seq<char>, Seq<char>, i64)> {
    s.map_values(|c: MessageSample| (c.content@, c.role@, c.timestamp))
}

/// Law: every fenced code block of every message becomes a code sample
/// stamped with the message's time, whoever wrote the message (user,
/// assistant, system or tool); only user messages become message samples.
/// The samples of a conversation are those of its parts, in order.
pub proof fn law_samples_of_messages(m: ChatMessage, a: Seq<ChatMessage>, b: Seq<ChatMessage>)
    ensures
        code_samples_of(seq![m]) == code_blocks_of(m.content@).map_values(
            |blk: (Seq<char>, Seq<char>)| (blk.0, blk.1, m.created_at),
        ),
        forall|r: MessageRole|
            code_samples_of(seq![ChatMessage { role: r, content: m.content, created_at: m.created_at }])
                == #[trigger] code_samples_of(seq![m]),
        message_samples_of(seq![m]) == if m.role == MessageRole::User {
            seq![(m.content@, "user"@, m.created_at)]
        } else {
            Seq::<(Seq<char>, Seq<char>, i64)>::empty()
        },
        code_samples_of(a + b) == code_samples_of(a) + code_samples_of(b),
        message_samples_of(a + b) == message_samples_of(a) + message_samples_of(b),
    decreases b.len(),
{
    assert(seq![m].drop_last() =~= Seq::<ChatMessage>::empty());
    assert forall|r: MessageRole|
        code_samples_of(seq![ChatMessage { role: r, content: m.content, created_at: m.created_at }])
            == #[trigger] code_samples_of(seq![m]) by {
        let m2 = ChatMessage { role: r, content: m.content, created_at: m.created_at };
        assert(seq![m2].drop_last() =~= Seq::<ChatMessage>::empty());
        assert(seq![m2].last() == m2);
        assert(seq![m].drop_last() =~= Seq::<ChatMessage>::empty());
        assert(seq![m].last() == m);
        assert(code_samples_of(seq![m2]) =~= code_samples_of(seq![m]));
    }
    let e = Seq::<ChatMessage>::empty();
    assert(code_samples_of(e) == Seq::<(Seq<char>, Seq<char>, i64)>::empty());
    assert(message_samples_of(e) == Seq::<(Seq<char>, Seq<char>, i64)>::empty());
    assert(seq![m].last() == m);
    let blocks = code_blocks_of(m.content@).map_values(
        |blk: (Seq<char>, Seq<char>)| (blk.0, blk.1, m.created_at),
    );
    assert(code_samples_of(seq![m]) == code_samples_of(e) + blocks);
    assert(code_samples_of(e) + blocks =~= blocks);
    assert(Seq::<(Seq<char>, Seq<char>, i64)>::empty() + seq![(m.content@, "user"@, m.created_at)]
        =~= seq![(m.content@, "user"@, m.created_at)]);
    assert(Seq::<(Seq<char>, Seq<char>, i64)>::empty() + Seq::<(Seq<char>, Seq<char>, i64)>::empty()
        =~= Seq::<(Seq<char>, Seq<char>, i64)>::empty());
    assert(message_samples_of(seq![m]) =~= if m.role == MessageRole::User {
        seq![(m.content@, "user"@, m.created_at)]
    } else {
        Seq::<(Seq<char>, Seq<char>, i64)>::empty()
    });
    if b.len() == 0 {
        assert(a + b =~= a);
        assert(code_samples_of(a) + code_samples_of(b) =~= code_samples_of(a));
        assert(message_samples_of(a) + message_samples_of(b) =~= message_samples_of(a));
    } else {
        law_samples_of_messages(m, a, b.drop_last());
        assert((a + b).drop_last() =~= a + b.drop_last());
        assert((a + b).last() == b.last());
        assert(code_samples_of(a + b) =~= code_samples_of(a) + code_samples_of(b));
        assert(message_samples_of(a + b) =~= message_samples_of(a) + message_samples_of(b));
    }
}

/// Collects the samples style learning works on: every fenced code block
/// of every message (user or assistant), and the text of each user
/// message, each stamped with its message's time.
pub fn extract_samples_from_messages(messages: &Vec<ChatMessage>) -> (r: (Vec<CodeSample>, Vec<MessageSample>))
    ensures
        code_sample_views(r.0@) == code_samples_of(messages@),
        message_sample_views(r.1@) == message_samples_of(messages@),
{
    let mut code_samples: Vec<CodeSample> = Vec::new();
    let mut message_samples: Vec<MessageSample> = Vec::new();
    let mut i: usize = 0;
    while i < messages.len()
        invariant
            i <= messages.len(),
            code_sample_views(code_samples@) == code_samples_of(messages@.take(i as int)),
            message_sample_views(message_samples@) == message_samples_of(messages@.take(i as int)),
        decreases messages.len() - i,
    {
        let msg = &messages[i];
        assert(messages@.take(i + 1).drop_last() =~= messages@.take(i as int));
        assert(messages@.take(i + 1).last() == *msg);
        let ghost ms_before = message_samples@;
        if msg.role == MessageRole::User {
            message_samples.push(MessageSample {
                content: crate::workflow::copy_string(&msg.content),
                role: string_of("user"),
                timestamp: msg.created_at,
            });
            assert(message_sample_views(message_samples@) =~= message_sample_views(ms_before).push(
                (msg.content@, "user"@, msg.created_at),
            ));
        } else {
            assert(message_sample_views(message_samples@) =~= message_sample_views(ms_before) + Seq::<
                (Seq<char>, Seq<char>, i64),
            >::empty());
        }
        let blocks = extract_code_blocks(msg.content.as_str());
        let ghost cs_start = code_sample_views(code_samples@);
        let mut j: usize = 0;
        while j < blocks.len()
            invariant
                j <= blocks.len(),
                pairs_view(blocks@) == code_blocks_of(msg.content@),
                code_sample_views(code_samples@) == cs_start + pairs_view(blocks@).take(j as int).map_values(
                    |b: (Seq<char>, Seq<char>)| (b.0, b.1, msg.created_at),
                ),
            decreases blocks.len() - j,
        {
            let (code, lang) = &blocks[j];
            let ghost before = code_samples@;
            code_samples.push(CodeSample {
                code: crate::workflow::copy_string(code),
                language: crate::workflow::copy_string(lang),
                timestamp: msg.created_at,
            });
            assert(pairs_view(blocks@)[j as int] == (code@, lang@));
            assert(code_sample_views(code_samples@) =~= code_sample_views(before).push(
                (code@, lang@, msg.created_at),
            ));
            assert(pairs_view(blocks@).take(j + 1).map_values(
                |b: (Seq<char>, Seq<char>)| (b.0, b.1, msg.created_at),
            ) =~= pairs_view(blocks@).take(j as int).map_values(
                |b: (Seq<char>, Seq<char>)| (b.0, b.1, msg.created_at),
            ).push((code@, lang@, msg.created_at)));
            assert(code_sample_views(code_samples@) =~= cs_start + pairs_view(blocks@).take(j + 1).map_values(
                |b: (Seq<char>, Seq<char>)| (b.0, b.1, msg.created_at),
            ));
            j = j + 1;
        }
        assert(pairs_view(blocks@).take(blocks.len() as int) =~= pairs_view(blocks@));
        i = i + 1;
    }
    assert(messages@.take(messages.len() as int) =~= messages@);
    (code_samples, message_samples)
}


/// How learning a style from a conversation starts.
#[derive(PartialEq, Eq, Structural, Clone, Copy, Debug)]
pub enum AutoLearnStart {
    /// The conversation holds no message: the request fails.
    NoMessages,
    /// No code block and no user message: nothing is learned.
    NoSamples,
    /// Extract the style from the samples.
    Learn,
}

impl AutoLearnStart {
    /// The error of `NoMessages`, the summary of `NoSamples`; empty for
    /// `Learn`, whose summary the style extraction writes.
    pub fn message(&self) -> (r: String)
        ensures
            r@ == match *self {
                AutoLearnStart::NoMessages => "Conversation has no messages to learn from"@,
                AutoLearnStart::NoSamples => "No usable code or message samples found in conversation"@,
                AutoLearnStart::Learn => seq![],
            },
    {
        match self {
            AutoLearnStart::NoMessages => string_of("Conversation has no messages to learn from"),
            AutoLearnStart::NoSamples => string_of("No usable code or message samples found in conversation"),
            AutoLearnStart::Learn => String::new(),
        }
    }
}

/// Collects the samples of a conversation's messages and decides how
/// learning proceeds: it fails on a conversation without messages, learns
/// nothing when there is neither a code block nor a user message, and
/// learns from the samples otherwise.
pub fn auto_learn_start(messages: &Vec<ChatMessage>) -> (r: (AutoLearnStart, Vec<CodeSample>, Vec<MessageSample>))
    ensures
        code_sample_views(r.1@) == code_samples_of(messages@),
        message_sample_views(r.2@) == message_samples_of(messages@),
        r.0 == if messages.len() == 0 {
            AutoLearnStart::NoMessages
        } else if code_samples_of(messages@).len() == 0 && message_samples_of(messages@).len() == 0 {
            AutoLearnStart::NoSamples
        } else {
            AutoLearnStart::Learn
        },
{
    let (code, msgs) = extract_samples_from_messages(messages);
    let start = if messages.len() == 0 {
        AutoLearnStart::NoMessages
    } else if code.len() == 0 && msgs.len() == 0 {
        AutoLearnStart::NoSamples
    } else {
        AutoLearnStart::Learn
    };
    (start, code, msgs)
}

} // verus!

verus! {

// ── personas ─────────────────────────────────────────────────────────

/// A persona as the list shows it.
#[derive(Debug)]
pub struct PersonalityInfo {
    pub name: String,
    pub version: String,
    pub description: String,
    pub is_active: bool,
}

/// Request to create a persona from a single soul document.
#[derive(Debug)]
pub struct PersonalityCreatePayload {
    pub name: String,
    pub content: String,
    pub description: Option<String>,
    pub version: Option<String>,
}

/// Request to create a persona from its three documents.
#[derive(Debug)]
pub struct PersonalityCreateBootstrapPayload {
    pub name: String,
    pub soul: Option<String>,
    pub identity: Option<String>,
    pub user: Option<String>,
}

/// A persona as it is saved.
#[derive(Debug)]
pub struct PersonalityRecord {
    pub name: String,
    pub version: String,
    pub description: String,
    pub content: String,
    pub identity: String,
    pub user: String,
    /// Milliseconds since the Unix epoch.
    pub created_at: i64,
}

pub open spec fn or_empty(o: Option<String>) -> Seq<char> {
    match o {
        Some(s) => s@,
        None => seq![],
    }
}

fn take_or_empty(o: Option<String>) -> (r: String)
    ensures
        r@ == or_empty(o),
{
    match o {
        Some(s) => s,
        None => String::new(),
    }
}

/// The persona a create request saves: version "1.0.0" and an empty
/// description unless given, no identity or user document.
pub fn personality_from_payload(payload: PersonalityCreatePayload, created_at: i64) -> (p: PersonalityRecord)
    ensures
        p.name@ == payload.name@,
        p.version@ == match payload.version {
            Some(v) => v@,
            None => "1.0.0"@,
        },
        p.description@ == or_empty(payload.description),
        p.content@ == payload.content@,
        p.identity@.len() == 0,
        p.user@.len() == 0,
        p.created_at == created_at,
{
    let version = match payload.version {
        Some(v) => v,
        None => string_of("1.0.0"),
    };
    PersonalityRecord {
        name: payload.name,
        version,
        description: take_or_empty(payload.description),
        content: payload.content,
        identity: String::new(),
        user: String::new(),
        created_at,
    }
}

/// The persona a bootstrap request saves: version "1.0.0", no description,
/// and the three documents (empty where not given).
pub fn personality_from_bootstrap(payload: PersonalityCreateBootstrapPayload, created_at: i64) -> (p:
    PersonalityRecord)
    ensures
        p.name@ == payload.name@,
        p.version@ == "1.0.0"@,
        p.description@.len() == 0,
        p.content@ == or_empty(payload.soul),
        p.identity@ == or_empty(payload.identity),
        p.user@ == or_empty(payload.user),
        p.created_at == created_at,
{
    PersonalityRecord {
        name: payload.name,
        version: string_of("1.0.0"),
        description: String::new(),
        content: take_or_empty(payload.soul),
        identity: take_or_empty(payload.identity),
        user: take_or_empty(payload.user),
        created_at,
    }
}

/// The list entry of persona `name`: its loaded version and description
/// (or "?" and "" when it cannot be loaded), and whether it is the active one.
pub fn personality_info(
    name: String,
    loaded: Option<(String, String, String)>,
    active: Option<&str>,
) -> (r: PersonalityInfo)
    ensures
        r.is_active == match active {
            Some(a) => a@ == name@,
            None => false,
        },
        match loaded {
            Some((n, v, d)) => r.name@ == n@ && r.version@ == v@ && r.description@ == d@,
            None => r.name@ == name@ && r.version@ == "?"@ && r.description@.len() == 0,
        },
{
    let is_active = match active {
        Some(a) => crate::text::str_eq(a, name.as_str()),
        None => false,
    };
    match loaded {
        Some((n, v, d)) => PersonalityInfo { name: n, version: v, description: d, is_active },
        None => PersonalityInfo { name, version: string_of("?"), description: String::new(), is_active },
    }
}

} // verus!
