use vstd::prelude::*;
use vstd::string::StrSliceExecFns;
use crate::text::{before_char, chars_of, index_of_char, starts_with, str_eq};
use crate::workflow::{contains_string, copy_string, copy_strings, seq_view};

verus! {

/// The domain part of a workflow id `wf-{domain}-...`: the text between
/// "wf-" and the next hyphen; "unknown" when the id lacks the prefix.
pub open spec fn domain_of(id: Seq<char>) -> Seq<char> {
    if starts_with(id, "wf-"@) {
        before_char(id.skip(3), '-')
    } else {
        "unknown"@
    }
}

/// Extracts the domain of a workflow id (see `domain_of`).
pub fn extract_domain_from_id(id: &str) -> (r: &str)
    ensures
        r@ == domain_of(id@),
{
    let v = chars_of(id);
    proof {
        reveal_strlit("wf-");
    }
    if v.len() >= 3 && v[0] == 'w' && v[1] == 'f' && v[2] == '-' {
        assert(id@.take(3) =~= "wf-"@);
        let j = index_of_char(&v, 3, '-');
        id.substring_char(3, j)
    } else {
        assert(!starts_with(id@, "wf-"@)) by {
            if starts_with(id@, "wf-"@) {
                assert(id@.take(3)[0] == 'w' && id@.take(3)[1] == 'f' && id@.take(3)[2] == '-');
            }
        }
        "unknown"
    }
}

/// A domain workflow as the factory defines it (what the listing reads).
#[derive(Debug)]
pub struct DomainWorkflowDef {
    pub id: String,
    pub name: String,
    pub description: String,
    pub icon: String,
    pub tags: Vec<String>,
    pub step_count: usize,
}

/// A domain workflow as the front end lists it.
#[derive(Debug)]
pub struct DomainWorkflowSummary {
    pub id: String,
    pub name: String,
    pub description: String,
    pub icon: String,
    pub tags: Vec<String>,
    pub domain: String,
    pub step_count: usize,
}

/// Whether a workflow passes the listing's filters.
pub open spec fn listed(wf: DomainWorkflowDef, domain_id: Option<Seq<char>>, tag: Option<Seq<char>>) -> bool {
    &&& match domain_id {
        Some(d) => domain_of(wf.id@) == d,
        None => true,
    }
    &&& match tag {
        Some(t) => seq_view(wf.tags@).contains(t),
        None => true,
    }
}

pub struct SummaryV {
    pub id: Seq<char>,
    pub name: Seq<char>,
    pub description: Seq<char>,
    pub icon: Seq<char>,
    pub tags: Seq<Seq<char>>,
    pub domain: Seq<char>,
    pub step_count: usize,
}

impl DomainWorkflowSummary {
    pub open spec fn view(&self) -> SummaryV {
        SummaryV {
            id: self.id@,
            name: self.name@,
            description: self.description@,
            icon: self.icon@,
            tags: seq_view(self.tags@),
            domain: self.domain@,
            step_count: self.step_count,
        }
    }
}

pub open spec fn summary_of(wf: DomainWorkflowDef) -> SummaryV {
    SummaryV {
        id: wf.id@,
        name: wf.name@,
        description: wf.description@,
        icon: wf.icon@,
        tags: seq_view(wf.tags@),
        domain: domain_of(wf.id@),
        step_count: wf.step_count,
    }
}

pub open spec fn opt_str_view(o: Option<&str>) -> Option<Seq<char>> {
    match o {
        Some(s) => Some(s@),
        None => None,
    }
}

/// Lists the domain workflows, optionally only those of one domain
/// (inferred from the workflow id) and/or carrying one tag, in order.
pub fn opc_list_domain_workflows(
    all: &Vec<DomainWorkflowDef>,
    domain_id: Option<&str>,
    tag: Option<&str>,
) -> (r: Vec<DomainWorkflowSummary>)
    ensures
        r@.map_values(|s: DomainWorkflowSummary| s.view()) == all@.filter(
            |wf: DomainWorkflowDef| listed(wf, opt_str_view(domain_id), opt_str_view(tag)),
        ).map_values(|wf: DomainWorkflowDef| summary_of(wf)),
{
    let ghost pred = |wf: DomainWorkflowDef| listed(wf, opt_str_view(domain_id), opt_str_view(tag));
    let mut r: Vec<DomainWorkflowSummary> = Vec::new();
    let mut i: usize = 0;
    while i < all.len()
        invariant
            i <= all.len(),
            pred == (|wf: DomainWorkflowDef| listed(wf, opt_str_view(domain_id), opt_str_view(tag))),
            r@.map_values(|s: DomainWorkflowSummary| s.view()) == all@.take(i as int).filter(pred).map_values(
                |wf: DomainWorkflowDef| summary_of(wf),
            ),
        decreases all.len() - i,
    {
        reveal_with_fuel(Seq::<_>::filter, 1);
        assert(all@.take(i + 1).drop_last() =~= all@.take(i as int));
        let wf = &all[i];
        let dom = extract_domain_from_id(wf.id.as_str());
        let domain_ok = match domain_id {
            Some(d) => str_eq(dom, d),
            None => true,
        };
        let tag_ok = match tag {
            Some(t) => contains_string(&wf.tags, &crate::text::string_of(t)),
            None => true,
        };
        let ghost before = r@;
        if domain_ok && tag_ok {
            let s = DomainWorkflowSummary {
                id: copy_string(&wf.id),
                name: copy_string(&wf.name),
                description: copy_string(&wf.description),
                icon: copy_string(&wf.icon),
                tags: copy_strings(&wf.tags),
                domain: crate::text::string_of(dom),
                step_count: wf.step_count,
            };
            r.push(s);
            assert(r@.map_values(|s: DomainWorkflowSummary| s.view()) =~= before.map_values(
                |s: DomainWorkflowSummary| s.view(),
            ).push(summary_of(*wf)));
        }
        assert(all@.take(i + 1).last() == *wf);
        i = i + 1;
    }
    assert(all@.take(all.len() as int) =~= all@);
    r
}

} // verus!

verus! {

/// `before_char` of `d + [c] + rest`, where `d` holds no `c`, is `d`.
proof fn lemma_before_char_of_split(d: Seq<char>, c: char, rest: Seq<char>)
    requires
        !d.contains(c),
    ensures
        before_char(d + seq![c] + rest, c) == d,
    decreases d.len(),
{
    if d.len() == 0 {
        assert((d + seq![c] + rest)[0] == c);
    } else {
        assert(!d.drop_first().contains(c)) by {
            if d.drop_first().contains(c) {
                let k = choose|k: int| 0 <= k < d.drop_first().len() && d.drop_first()[k] == c;
                assert(d[k + 1] == c);
            }
        }
        lemma_before_char_of_split(d.drop_first(), c, rest);
        assert((d + seq![c] + rest).drop_first() =~= d.drop_first() + seq![c] + rest);
        assert(d[0] != c);
        assert(d =~= seq![d[0]] + d.drop_first());
    }
}

/// Law: the domain of `wf-{domain}-{rest}` is `domain` whenever `domain`
/// holds no hyphen, and an id that does not start with `wf-` has domain
/// `unknown`.
pub proof fn law_domain_of_id(domain: Seq<char>, rest: Seq<char>, other: Seq<char>)
    ensures
        !domain.contains('-') ==> domain_of("wf-"@ + domain + "-"@ + rest) == domain,
        !starts_with(other, "wf-"@) ==> domain_of(other) == "unknown"@,
{
    reveal_strlit("wf-");
    reveal_strlit("-");
    let id = "wf-"@ + domain + "-"@ + rest;
    assert(starts_with(id, "wf-"@)) by {
        assert(id.take(3) =~= "wf-"@);
    }
    if !domain.contains('-') {
        assert(id.skip(3) =~= domain + seq!['-'] + rest);
        lemma_before_char_of_split(domain, '-', rest);
    }
}

} // verus!
