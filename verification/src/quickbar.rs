use vstd::prelude::*;
use crate::text::{chars_of, push_str, string_from_range, string_of};

verus! {

/// Window label of the quick bar.
pub const QUICKBAR_LABEL: &'static str = "quickbar";

/// The address used when the development address does not parse.
pub const FALLBACK_URL_STR: &'static str = "http://localhost:1420/index.html?__route=quickbar";

/// Where the quick bar window loads from.
#[derive(Debug)]
pub enum QuickbarUrl {
    /// An external address (development server).
    External(String),
    /// A page of the bundled application.
    App(String),
}

/// `s` without its trailing slashes (`trim_end_matches('/')`).
pub open spec fn strip_slashes(s: Seq<char>) -> Seq<char>
    decreases s.len(),
{
    if s.len() > 0 && s.last() == '/' {
        strip_slashes(s.drop_last())
    } else {
        s
    }
}

/// The quick bar page: under the development server's address (trailing
/// slashes dropped) when one is configured, else the bundled page.
pub fn quickbar_url(dev_url: Option<&str>) -> (r: QuickbarUrl)
    ensures
        match dev_url {
            Some(d) => r matches QuickbarUrl::External(u) && u@ == strip_slashes(d@)
                + "/index.html?__route=quickbar"@,
            None => r matches QuickbarUrl::App(p) && p@ == "index.html?__route=quickbar"@,
        },
{
    match dev_url {
        Some(d) => {
            let v = chars_of(d);
            let mut j = v.len();
            assert(v@.take(v.len() as int) =~= v@);
            while j > 0 && v[j - 1] == '/'
                invariant
                    j <= v.len(),
                    v@ == d@,
                    strip_slashes(v@.take(j as int)) == strip_slashes(d@),
                decreases j,
            {
                assert(v@.take(j as int).drop_last() =~= v@.take(j - 1));
                j = j - 1;
            }
            assert(v@.take(v.len() as int) =~= v@);
            let mut u = string_from_range(&v, 0, j);
            assert(v@.subrange(0, j as int) =~= v@.take(j as int));
            push_str(&mut u, "/index.html?__route=quickbar");
            QuickbarUrl::External(u)
        },
        None => QuickbarUrl::App(string_of("index.html?__route=quickbar")),
    }
}

} // verus!
