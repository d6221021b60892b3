//! The per-method route table, kept in a `matchit` radix tree whose values
//! are handler indices.
use vstd::prelude::*;
use crate::text::pairs_view;
use vstd::std_specs::iter::IteratorSpec;

verus! {

#[verifier::external_type_specification]
#[verifier::external_body]
#[verifier::reject_recursive_types(T)]
pub struct ExRouter<T>(matchit::Router<T>);

#[verifier::external_type_specification]
#[verifier::external_body]
pub struct ExInsertError(matchit::InsertError);

/// What a route table holds: each route inserted, with its value.
pub uninterp spec fn routes_of(t: matchit::Router<usize>) -> Map<Seq<char>, usize>;

/// The route that `matchit` selects for `path` among `routes`, with the
/// parameters it captures, in order; nothing where no route matches. The
/// table prefers a static segment to a parameter, and which route it selects
/// depends on the set of routes, not on the order they were inserted in.
pub uninterp spec fn selected_route(routes: Map<Seq<char>, usize>, path: Seq<char>) -> Option<
    (Seq<char>, Seq<(Seq<char>, Seq<char>)>),
>;

/// Relies on `matchit::Router::new`: a table with no routes.
#[verifier::external_body]
pub(crate) fn new_table() -> (r: matchit::Router<usize>)
    ensures
        routes_of(r).dom().is_empty(),
{
    matchit::Router::new()
}

/// How many times `c` occurs in `s`.
pub open spec fn count_char(s: Seq<char>, c: char) -> nat
    decreases s.len(),
{
    if s.len() == 0 {
        0
    } else {
        (if s[0] == c {
            1nat
        } else {
            0nat
        }) + count_char(s.drop_first(), c)
    }
}

pub proof fn lemma_count_absent(s: Seq<char>, c: char)
    requires
        !s.contains(c),
    ensures
        count_char(s, c) == 0,
    decreases s.len(),
{
    if s.len() > 0 {
        assert(s[0] != c) by {
            if s[0] == c {
                assert(s.contains(c));
            }
        }
        assert(!s.drop_first().contains(c)) by {
            if s.drop_first().contains(c) {
                let k = choose|k: int| 0 <= k < s.drop_first().len() && s.drop_first()[k] == c;
                assert(s[k + 1] == c);
            }
        }
        lemma_count_absent(s.drop_first(), c);
    }
}

/// The most opening braces a route may hold: the table names its
/// parameters with the letters `a` to `z` and refuses a 26th.
pub const MAX_ROUTE_BRACES: usize = 25;

/// Whether a route holds few enough `{` to stay within the table's
/// parameter names (each parameter opens with one).
pub open spec fn within_param_limit(route: Seq<char>) -> bool {
    count_char(route, '{') <= MAX_ROUTE_BRACES
}

/// Whether `route` stays within the table's parameter names.
pub fn fits_param_limit(route: &str) -> (r: bool)
    ensures
        r == within_param_limit(route@),
{
    let mut it = route.chars();
    let mut n: usize = 0;
    loop
        invariant
            n <= MAX_ROUTE_BRACES,
            count_char(route@, '{') == n + count_char(it.remaining(), '{'),
            it.decrease() is Some,
        decreases it.decrease()->0,
    {
        match it.next() {
            None => {
                return true;
            },
            Some(c) => {
                if c == '{' {
                    if n == MAX_ROUTE_BRACES {
                        return false;
                    }
                    n = n + 1;
                }
            },
        }
    }
}

/// Whether a route starts with `/`.
pub open spec fn is_rooted(route: Seq<char>) -> bool {
    route.len() > 0 && route[0] == '/'
}

/// Relies on `matchit::Router::insert`: on success the route is stored with
/// `id`; a route already present is a conflict; a route without braces that
/// is not present yet is stored. It panics on a route with 26 parameters or
/// more. A failed insert may leave the tree changed, so nothing is said of
/// the table then.
#[verifier::external_body]
pub(crate) fn insert_route(t: &mut matchit::Router<usize>, route: &str, id: usize) -> (r: Result<
    (),
    matchit::InsertError,
>)
    requires
        is_rooted(route@),
        within_param_limit(route@),
    ensures
        r is Ok ==> routes_of(*final(t)) == routes_of(*old(t)).insert(route@, id),
        routes_of(*old(t)).contains_key(route@) ==> r is Err,
        !route@.contains('{') && !route@.contains('}') && !routes_of(*old(t)).contains_key(route@)
            ==> r is Ok,
{
    t.insert(route, id)
}

/// Relies on the derived `Clone` of `matchit::Router`: a copy of the tree,
/// holding the same routes.
#[verifier::external_body]
pub(crate) fn clone_table(t: &matchit::Router<usize>) -> (r: matchit::Router<usize>)
    ensures
        routes_of(r) == routes_of(*t),
{
    t.clone()
}

/// Relies on `matchit::Router::at`: the value of the selected route and the
/// captured parameters, converted to owned strings.
#[verifier::external_body]
pub(crate) fn lookup(t: &matchit::Router<usize>, path: &str) -> (r: Option<(usize, Vec<(String, String)>)>)
    ensures
        match selected_route(routes_of(*t), path@) {
            None => r is None,
            Some((route, params)) => routes_of(*t).contains_key(route) && (r matches Some((v, ps))
                && v == routes_of(*t)[route] && pairs_view(ps@) == params),
        },
{
    match t.at(path) {
        Ok(m) => Some((*m.value, m.params.iter().map(|(k, v)| (k.to_string(), v.to_string())).collect())),
        Err(_) => None,
    }
}

} // verus!
