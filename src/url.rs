use vstd::prelude::*;

use crate::text::str_eq;

verus! {

/// An address as the application reads it: its path segments, how many of
/// them belong to the application's base path, and its query parameters as
/// name/value pairs in the order the host lists them.
#[derive(Clone, Debug, PartialEq, Eq)]
pub struct AppUrl {
    pub path: Vec<String>,
    pub base_len: usize,
    pub query: Vec<(String, String)>,
}

/// Whether two addresses hold the same path, base path and query.
pub open spec fn same_url(a: AppUrl, b: AppUrl) -> bool {
    &&& a.path@ == b.path@
    &&& a.base_len == b.base_len
    &&& a.query@ == b.query@
}

/// The characters of each segment.
pub open spec fn segments(path: Seq<String>) -> Seq<Seq<char>> {
    path.map_values(|s: String| s@)
}

/// The path segments after the base path.
pub open spec fn remaining_parts(u: AppUrl) -> Seq<Seq<char>> {
    if u.base_len <= u.path@.len() {
        segments(u.path@).subrange(u.base_len as int, u.path@.len() as int)
    } else {
        Seq::empty()
    }
}

/// The path segments of the base path.
pub open spec fn base_parts(u: AppUrl) -> Seq<String> {
    if u.base_len <= u.path@.len() {
        u.path@.subrange(0, u.base_len as int)
    } else {
        u.path@
    }
}

/// Whether some query parameter carries the given name.
pub open spec fn has_param(q: Seq<(String, String)>, name: Seq<char>) -> bool {
    exists|i: int| 0 <= i < q.len() && (#[trigger] q[i]).0@ == name
}

/// The names of the parameters that an identity provider appends when it
/// sends the browser back after a login.
pub open spec fn is_redirect_name(name: Seq<char>) -> bool {
    name == "code"@ || name == "state"@
}

/// Whether the query holds both the authorization code and the state.
pub open spec fn has_redirect_params(q: Seq<(String, String)>) -> bool {
    has_param(q, "code"@) && has_param(q, "state"@)
}

/// The query without any `code` or `state` parameter, other parameters in
/// their order.
pub open spec fn without_redirect_params(q: Seq<(String, String)>) -> Seq<(String, String)> {
    q.filter(|p: (String, String)| !is_redirect_name(p.0@))
}

/// The query after cleanup: the redirect parameters go only where both are
/// present; otherwise the query stays as it is.
pub open spec fn cleaned_query(q: Seq<(String, String)>) -> Seq<(String, String)> {
    if has_redirect_params(q) {
        without_redirect_params(q)
    } else {
        q
    }
}

/// Whether a parameter of the query carries the given name.
pub fn contains_param(q: &Vec<(String, String)>, name: &str) -> (r: bool)
    ensures
        r == has_param(q@, name@),
{
    let mut i: usize = 0;
    while i < q.len()
        invariant
            i <= q@.len(),
            forall|j: int| 0 <= j < i ==> (#[trigger] q@[j]).0@ != name@,
        decreases q@.len() - i,
    {
        if str_eq(q[i].0.as_str(), name) {
            return true;
        }
        i = i + 1;
    }
    false
}

/// Whether the query holds both the authorization code and the state.
pub fn contains_redirect_params(q: &Vec<(String, String)>) -> (r: bool)
    ensures
        r == has_redirect_params(q@),
{
    contains_param(q, "code") && contains_param(q, "state")
}

/// Whether a name is `code` or `state`.
fn redirect_name(name: &str) -> (r: bool)
    ensures
        r == is_redirect_name(name@),
{
    str_eq(name, "code") || str_eq(name, "state")
}

/// A copy of the query without any `code` or `state` parameter.
pub fn strip_redirect_params(q: &Vec<(String, String)>) -> (r: Vec<(String, String)>)
    ensures
        r@ == without_redirect_params(q@),
{
    let mut out: Vec<(String, String)> = Vec::new();
    let mut i: usize = 0;
    while i < q.len()
        invariant
            i <= q@.len(),
            out@ == without_redirect_params(q@.subrange(0, i as int)),
        decreases q@.len() - i,
    {
        let ghost before = q@.subrange(0, i as int);
        let ghost after = q@.subrange(0, i as int + 1);
        proof {
            assert(after.drop_last() =~= before);
            assert(after.last() == q@[i as int]);
            reveal(Seq::filter);
        }
        if !redirect_name(q[i].0.as_str()) {
            let p = (q[i].0.clone(), q[i].1.clone());
            out.push(p);
        }
        i = i + 1;
    }
    assert(q@.subrange(0, q@.len() as int) =~= q@);
    out
}


/// A copy of a query.
pub fn copy_params(q: &Vec<(String, String)>) -> (r: Vec<(String, String)>)
    ensures
        r@ == q@,
{
    let mut out: Vec<(String, String)> = Vec::new();
    let mut i: usize = 0;
    while i < q.len()
        invariant
            i <= q@.len(),
            out@ == q@.subrange(0, i as int),
        decreases q@.len() - i,
    {
        let p = (q[i].0.clone(), q[i].1.clone());
        out.push(p);
        i = i + 1;
        assert(out@ =~= q@.subrange(0, i as int));
    }
    assert(q@.subrange(0, q@.len() as int) =~= q@);
    out
}

/// A copy of a sequence of strings.
fn copy_strings(v: &[String], from: usize, to: usize) -> (r: Vec<String>)
    requires
        from <= to <= v@.len(),
    ensures
        r@ == v@.subrange(from as int, to as int),
{
    let mut out: Vec<String> = Vec::new();
    let mut i: usize = from;
    while i < to
        invariant
            from <= i <= to,
            to <= v@.len(),
            out@ == v@.subrange(from as int, i as int),
        decreases to - i,
    {
        out.push(v[i].clone());
        i = i + 1;
        assert(out@ =~= v@.subrange(from as int, i as int));
    }
    out
}

impl AppUrl {
    /// A copy of the address.
    pub fn copied(&self) -> (r: AppUrl)
        ensures
            same_url(r, *self),
    {
        let path = copy_strings(self.path.as_slice(), 0, self.path.len());
        assert(self.path@.subrange(0, self.path@.len() as int) =~= self.path@);
        AppUrl { path, base_len: self.base_len, query: copy_params(&self.query) }
    }

    /// The base address: the path cut after the base path, the query kept.
    pub fn to_base_url(&self) -> (r: AppUrl)
        ensures
            r.path@ == base_parts(*self),
            r.base_len == r.path@.len(),
            r.query@ == self.query@,
    {
        let n = self.path.len();
        let keep = if self.base_len <= n {
            self.base_len
        } else {
            n
        };
        let path = copy_strings(self.path.as_slice(), 0, keep);
        let query = copy_params(&self.query);
        AppUrl { path, base_len: keep, query }
    }
}

/// The query after cleanup, and whether it changed: the `code` and `state`
/// parameters are removed only where both are present.
pub fn clean_query(q: &Vec<(String, String)>) -> (r: (Vec<(String, String)>, bool))
    ensures
        r.0@ == cleaned_query(q@),
        r.1 == has_redirect_params(q@),
{
    if contains_redirect_params(q) {
        (strip_redirect_params(q), true)
    } else {
        (copy_params(q), false)
    }
}

} // verus!

verus! {

/// Cleanup of the redirect parameters: where both `code` and `state` are
/// present, none of either is left and every other parameter stays; where
/// they are not both present, the query is unchanged; and cleaning a second
/// time changes nothing more.
pub proof fn lemma_cleanup(q: Seq<(String, String)>)
    ensures
        has_redirect_params(q) ==> !has_param(cleaned_query(q), "code"@) && !has_param(
            cleaned_query(q),
            "state"@,
        ),
        has_redirect_params(q) ==> forall|i: int|
            0 <= i < q.len() && !is_redirect_name((#[trigger] q[i]).0@) ==> cleaned_query(
                q,
            ).contains(q[i]),
        !has_redirect_params(q) ==> cleaned_query(q) == q,
        cleaned_query(cleaned_query(q)) == cleaned_query(q),
{
    let pred = |p: (String, String)| !is_redirect_name(p.0@);
    if has_redirect_params(q) {
        let c = without_redirect_params(q);
        assert forall|i: int| 0 <= i < c.len() implies !is_redirect_name(#[trigger] c[i].0@) by {
            q.lemma_filter_pred(pred, i);
        }
        assert forall|i: int|
            0 <= i < q.len() && !is_redirect_name((#[trigger] q[i]).0@) implies c.contains(
            q[i],
        ) by {
            q.lemma_filter_contains(pred, i);
        }
        assert(!has_param(c, "code"@));
    }
}

} // verus!
