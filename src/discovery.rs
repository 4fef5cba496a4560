//! Which installed applications count as web browsers: those that the
//! handler registry lists for both `http` and `https`.
use vstd::prelude::*;

verus! {

/// The contents of a list of strings.
pub open spec fn names(v: Seq<String>) -> Seq<Seq<char>> {
    v.map_values(|s: String| s@)
}

/// The contents of an optional list of strings.
pub open spec fn opt_names(o: Option<Vec<String>>) -> Option<Seq<Seq<char>>> {
    match o {
        Some(v) => Some(names(v@)),
        None => None,
    }
}

/// The elements of `a` that `b` holds too, each once, at the place of its
/// first occurrence in `a`.
pub open spec fn common_ids(a: Seq<Seq<char>>, b: Seq<Seq<char>>) -> Seq<Seq<char>>
    decreases a.len(),
{
    if a.len() == 0 {
        Seq::empty()
    } else {
        let rest = common_ids(a.drop_last(), b);
        if b.contains(a.last()) && !rest.contains(a.last()) {
            rest.push(a.last())
        } else {
            rest
        }
    }
}

/// The bundle identifiers of the browsers, given what the registry lists for
/// `http` and for `https` (`None` where it answered nothing): the identifiers
/// listed for both schemes. A scheme without an answer has no handlers, so
/// then there are none; with no answer for either scheme there is no list.
pub open spec fn browser_ids(
    http: Option<Seq<Seq<char>>>,
    https: Option<Seq<Seq<char>>>,
) -> Option<Seq<Seq<char>>> {
    match (http, https) {
        (None, None) => None,
        (Some(_), None) => Some(Seq::empty()),
        (None, Some(_)) => Some(Seq::empty()),
        (Some(a), Some(b)) => Some(common_ids(a, b)),
    }
}

/// Relies on `array_tool::vec::Intersect::intersect`, which keeps the first
/// copy of each element of `one` and then those of them that `two` holds.
#[verifier::external_body]
fn intersect(one: &Vec<String>, two: Vec<String>) -> (r: Vec<String>)
    ensures
        names(r@) == common_ids(names(one@), names(two@)),
{
    array_tool::vec::Intersect::intersect(one, two)
}

/// The bundle identifiers of the installed browsers, from the registry's
/// handlers for `http` and for `https`.
pub fn get_browsers_bundle_identifiers(
    http: Option<Vec<String>>,
    https: Option<Vec<String>>,
) -> (r: Option<Vec<String>>)
    ensures
        opt_names(r) == browser_ids(opt_names(http), opt_names(https)),
{
    match (http, https) {
        (None, None) => None,
        (Some(one), Some(two)) => Some(intersect(&one, two)),
        _ => {
            let none: Vec<String> = Vec::new();
            assert(names(none@) =~= Seq::<Seq<char>>::empty());
            Some(none)
        },
    }
}

/// An element is in `common_ids(a, b)` exactly when both `a` and `b` hold it,
/// and no element is there twice.
pub proof fn lemma_common_ids(a: Seq<Seq<char>>, b: Seq<Seq<char>>)
    ensures
        forall|x: Seq<char>| #[trigger]
            common_ids(a, b).contains(x) <==> a.contains(x) && b.contains(x),
        common_ids(a, b).no_duplicates(),
    decreases a.len(),
{
    if a.len() > 0 {
        let rest = common_ids(a.drop_last(), b);
        lemma_common_ids(a.drop_last(), b);
        assert(a == a.drop_last().push(a.last()));
        assert forall|x: Seq<char>| #[trigger]
            common_ids(a, b).contains(x) <==> a.contains(x) && b.contains(x) by {
            let l = a.last();
            let c = common_ids(a, b);
            if a.contains(x) && x != l {
                let i = choose|i: int| 0 <= i < a.len() && a[i] == x;
                assert(a.drop_last()[i] == x);
            }
            if a.drop_last().contains(x) {
                let i = choose|i: int| 0 <= i < a.drop_last().len() && a.drop_last()[i] == x;
                assert(a[i] == x);
            }
            if rest.contains(x) {
                let i = choose|i: int| 0 <= i < rest.len() && rest[i] == x;
                assert(rest.push(l)[i] == x);
            }
            if c != rest {
                assert(c == rest.push(l));
                assert(c[rest.len() as int] == l);
                if c.contains(x) && x != l {
                    let i = choose|i: int| 0 <= i < c.len() && c[i] == x;
                    assert(rest[i] == x);
                }
            }
        }
    }
}

/// When the registry answers for both schemes, the browsers are the
/// applications that handle both: each of them once, and no other.
pub proof fn lemma_browser_ids_intersect(http: Seq<Seq<char>>, https: Seq<Seq<char>>)
    ensures
        browser_ids(Some(http), Some(https)) == Some(common_ids(http, https)),
        common_ids(http, https).to_set() == http.to_set().intersect(https.to_set()),
        common_ids(http, https).no_duplicates(),
{
    lemma_common_ids(http, https);
    assert(common_ids(http, https).to_set() =~= http.to_set().intersect(https.to_set()));
}

/// With no handler registered for one of the schemes, or no answer for one
/// of them, there is no browser.
pub proof fn lemma_no_handlers_no_browsers(
    http: Option<Seq<Seq<char>>>,
    https: Option<Seq<Seq<char>>>,
)
    requires
        http == Some(Seq::<Seq<char>>::empty()) || https == Some(Seq::<Seq<char>>::empty())
            || http is None || https is None,
    ensures
        browser_ids(http, https) is None || browser_ids(http, https)->0.len() == 0,
{
    if http is Some && https is Some {
        let (a, b) = (http->0, https->0);
        lemma_common_ids(a, b);
        if common_ids(a, b).len() > 0 {
            assert(common_ids(a, b).contains(common_ids(a, b)[0]));
        }
    }
}

} // verus!
