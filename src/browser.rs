//! The installed browsers: how each is found from what the registry tells of
//! its bundle identifier, and how one is asked to open URLs.
use vstd::prelude::*;
use crate::flags::LSLaunchFlags;
use crate::launch::{open, LaunchSpec, OSStatus, Openable};
use crate::discovery::{browser_ids, common_ids, lemma_common_ids, names};

verus! {

/// An installed web browser.
#[derive(Clone, Debug)]
pub struct Browser {
    /// Its display name.
    pub name: String,
    /// Its bundle identifier.
    pub bundle_id: String,
    /// Its location, as a URL string.
    pub path: String,
}

impl View for Browser {
    /// Display name, bundle identifier and location.
    type V = (Seq<char>, Seq<char>, Seq<char>);

    open spec fn view(&self) -> (Seq<char>, Seq<char>, Seq<char>) {
        (self.name@, self.bundle_id@, self.path@)
    }
}

/// What the registry told of one bundle identifier: the location of the
/// application that has it, and that application's display name, where
/// they could be found.
#[derive(Clone, Debug)]
pub struct Candidate {
    pub bundle_id: String,
    pub path: Option<String>,
    pub name: Option<String>,
}

/// A candidate is a browser when both its location and its display name
/// were found and neither is empty.
pub open spec fn resolves(c: Candidate) -> bool {
    &&& c.path is Some
    &&& c.path->0@.len() > 0
    &&& c.name is Some
    &&& c.name->0@.len() > 0
}

/// The browser that a candidate stands for, if it resolves.
pub open spec fn browser_of(c: Candidate) -> Option<(Seq<char>, Seq<char>, Seq<char>)> {
    if resolves(c) {
        Some((c.name->0@, c.bundle_id@, c.path->0@))
    } else {
        None
    }
}

/// The browsers that a list of candidates stands for, in its order.
pub open spec fn browsers_of(cs: Seq<Candidate>) -> Seq<(Seq<char>, Seq<char>, Seq<char>)> {
    cs.filter_map(|c: Candidate| browser_of(c))
}

/// The contents of a list of browsers.
pub open spec fn views(bs: Seq<Browser>) -> Seq<(Seq<char>, Seq<char>, Seq<char>)> {
    bs.map_values(|b: Browser| b@)
}

/// The location of an application, from the locations that the registry
/// lists for its bundle identifier (`None` where it answered nothing): the
/// first of them.
pub fn get_app_url(urls: Option<Vec<String>>) -> (r: Option<String>)
    ensures
        r is Some <==> (urls is Some && urls->0@.len() > 0),
        r is Some ==> r->0@ == urls->0@[0]@,
{
    match urls {
        Some(v) => {
            if v.len() > 0 {
                Some(v[0].clone())
            } else {
                None
            }
        },
        None => None,
    }
}

/// The display name of an application, from the status of the lookup and
/// the name it gave: the name where the status is zero.
pub fn get_app_name(status: OSStatus, display_name: Option<String>) -> (r: Option<String>)
    ensures
        r == (if status == 0 {
            display_name
        } else {
            None
        }),
{
    if status == 0 {
        display_name
    } else {
        None
    }
}

/// The installed browsers, from what the registry told of each bundle
/// identifier that handles web URLs (`None` where there was no list of
/// them): those candidates that resolve, in the order given.
pub fn get_browsers(candidates: Option<Vec<Candidate>>) -> (r: Option<Vec<Browser>>)
    ensures
        r is Some <==> candidates is Some,
        r is Some ==> views(r->0@) == browsers_of(candidates->0@),
{
    let cs = match candidates {
        Some(cs) => cs,
        None => {
            return None;
        },
    };
    let mut out: Vec<Browser> = Vec::new();
    let mut i: usize = 0;
    while i < cs.len()
        invariant
            i <= cs@.len(),
            views(out@) == cs@.take(i as int).filter_map(|c: Candidate| browser_of(c)),
        decreases cs@.len() - i,
    {
        let c = &cs[i];
        proof {
            cs@.lemma_filter_map_take_succ(|c: Candidate| browser_of(c), i as int);
        }
        match (&c.path, &c.name) {
            (Some(path), Some(name)) => {
                if !(**path).is_empty() && !(**name).is_empty() {
                    let ghost before = out@;
                    let b = Browser {
                        name: name.clone(),
                        bundle_id: c.bundle_id.clone(),
                        path: path.clone(),
                    };
                    assert(browser_of(*c) == Some(b@));
                    out.push(b);
                    assert(views(out@) =~= views(before) + seq![b@]);
                }
            },
            _ => {},
        }
        i = i + 1;
    }
    assert(cs@.take(i as int) =~= cs@);
    Some(out)
}

/// No browser in the list lacks a name or a location, nor has an empty one:
/// each comes from a candidate that resolves.
pub proof fn lemma_unresolved_dropped(cs: Seq<Candidate>)
    ensures
        forall|b: (Seq<char>, Seq<char>, Seq<char>)| #[trigger]
            browsers_of(cs).contains(b) ==> {
                &&& b.0.len() > 0
                &&& b.2.len() > 0
                &&& exists|c: Candidate| #[trigger]
                    cs.contains(c) && resolves(c) && browser_of(c) == Some(b)
            },
{
    assert forall|b: (Seq<char>, Seq<char>, Seq<char>)| #[trigger]
        browsers_of(cs).contains(b) implies {
            &&& b.0.len() > 0
            &&& b.2.len() > 0
            &&& exists|c: Candidate| #[trigger]
                cs.contains(c) && resolves(c) && browser_of(c) == Some(b)
        } by {
        cs.lemma_filter_map_contains(|c: Candidate| browser_of(c), b);
    }
}

/// The bundle identifiers of a list of candidates, in order.
pub open spec fn candidate_ids(cs: Seq<Candidate>) -> Seq<Seq<char>> {
    cs.map_values(|c: Candidate| c.bundle_id@)
}

/// Where the candidates are those of the identifiers that discovery returns
/// for the registry's answers on `http` and `https`, every browser found
/// handles both schemes; and with no answer or no handler for one of the
/// schemes, none is found.
pub proof fn lemma_browsers_handle_both_schemes(
    http: Option<Seq<Seq<char>>>,
    https: Option<Seq<Seq<char>>>,
    cs: Seq<Candidate>,
)
    requires
        browser_ids(http, https) == Some(candidate_ids(cs)),
    ensures
        forall|b: (Seq<char>, Seq<char>, Seq<char>)| #[trigger]
            browsers_of(cs).contains(b) ==> {
                &&& http is Some && https is Some
                &&& http->0.contains(b.1)
                &&& https->0.contains(b.1)
            },
        (http is None || https is None || http == Some(Seq::<Seq<char>>::empty())
            || https == Some(Seq::<Seq<char>>::empty())) ==> browsers_of(cs).len() == 0,
{
    lemma_unresolved_dropped(cs);
    assert forall|b: (Seq<char>, Seq<char>, Seq<char>)| #[trigger]
        browsers_of(cs).contains(b) implies {
            &&& http is Some && https is Some
            &&& http->0.contains(b.1)
            &&& https->0.contains(b.1)
        } by {
        let c = choose|c: Candidate| #[trigger]
            cs.contains(c) && resolves(c) && browser_of(c) == Some(b);
        let i = choose|i: int| 0 <= i < cs.len() && cs[i] == c;
        assert(candidate_ids(cs)[i] == b.1);
        assert(candidate_ids(cs).len() > 0);
        lemma_common_ids(http->0, https->0);
        assert(common_ids(http->0, https->0).contains(b.1));
    }
    if browsers_of(cs).len() > 0 {
        assert(browsers_of(cs).contains(browsers_of(cs)[0]));
    }
}

impl Browser {
    /// The launch request that opens `urls` in this browser, with the
    /// default flags and without waiting for the launch to finish.
    pub fn open<T: Openable + ?Sized>(&self, urls: &T) -> (r: LaunchSpec)
        ensures
            r.app == Some(self.path),
            r.urls is Some && names(r.urls->0@) == urls.urls_of(),
            r.flags == LSLaunchFlags(0x00010001),
    {
        let flags = LSLaunchFlags::defaults() | LSLaunchFlags::launch_async();
        assert(1u32 | 0x10000u32 == 0x10001u32) by (bit_vector);
        open(Some(urls), Some(self.path.clone()), flags)
    }
}

} // verus!
