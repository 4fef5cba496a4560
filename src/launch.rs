//! Launch requests: which application to start, with which URLs and which
//! flags, and what the launch service's status code means.
use vstd::prelude::*;
use crate::discovery::names;
use crate::flags::LSLaunchFlags;

verus! {

/// A status code of the operating system's services: zero is success.
pub type OSStatus = i32;

/// Something that names one or more URLs to open.
pub trait Openable {
    /// The URLs, in order.
    spec fn urls_of(&self) -> Seq<Seq<char>>;

    /// The URLs as a list of strings.
    fn into_openable(&self) -> (r: Vec<String>)
        ensures
            names(r@) == self.urls_of(),
    ;
}

impl Openable for Vec<String> {
    open spec fn urls_of(&self) -> Seq<Seq<char>> {
        names(self@)
    }

    fn into_openable(&self) -> (r: Vec<String>) {
        let mut out: Vec<String> = Vec::new();
        let mut i: usize = 0;
        while i < self.len()
            invariant
                i <= self@.len(),
                out@.len() == i,
                forall|j: int| 0 <= j < i ==> #[trigger] out@[j]@ == self@[j]@,
            decreases self@.len() - i,
        {
            out.push(self[i].clone());
            i = i + 1;
        }
        assert(names(out@) =~= self.urls_of());
        out
    }
}

impl<'a> Openable for Vec<&'a str> {
    open spec fn urls_of(&self) -> Seq<Seq<char>> {
        self@.map_values(|s: &str| s@)
    }

    fn into_openable(&self) -> (r: Vec<String>) {
        let mut out: Vec<String> = Vec::new();
        let mut i: usize = 0;
        while i < self.len()
            invariant
                i <= self@.len(),
                out@.len() == i,
                forall|j: int| 0 <= j < i ==> #[trigger] out@[j]@ == self@[j]@,
            decreases self@.len() - i,
        {
            out.push(String::from_str(self[i]));
            i = i + 1;
        }
        assert(names(out@) =~= self.urls_of());
        out
    }
}

impl<'a> Openable for Vec<&'a String> {
    open spec fn urls_of(&self) -> Seq<Seq<char>> {
        self@.map_values(|s: &String| s@)
    }

    fn into_openable(&self) -> (r: Vec<String>) {
        let mut out: Vec<String> = Vec::new();
        let mut i: usize = 0;
        while i < self.len()
            invariant
                i <= self@.len(),
                out@.len() == i,
                forall|j: int| 0 <= j < i ==> #[trigger] out@[j]@ == self@[j]@,
            decreases self@.len() - i,
        {
            let s: &String = self[i];
            out.push(s.clone());
            i = i + 1;
        }
        assert(names(out@) =~= self.urls_of());
        out
    }
}

impl Openable for str {
    open spec fn urls_of(&self) -> Seq<Seq<char>> {
        seq![self@]
    }

    fn into_openable(&self) -> (r: Vec<String>) {
        let r = vec![String::from_str(self)];
        assert(names(r@) =~= self.urls_of());
        r
    }
}

impl<'a> Openable for &'a str {
    open spec fn urls_of(&self) -> Seq<Seq<char>> {
        seq![(*self)@]
    }

    fn into_openable(&self) -> (r: Vec<String>) {
        let r = vec![String::from_str(*self)];
        assert(names(r@) =~= self.urls_of());
        r
    }
}

impl Openable for String {
    open spec fn urls_of(&self) -> Seq<Seq<char>> {
        seq![self@]
    }

    fn into_openable(&self) -> (r: Vec<String>) {
        let r = vec![self.clone()];
        assert(names(r@) =~= self.urls_of());
        r
    }
}

/// A request to the launch service: the application to start (its location
/// as a URL string), the URLs to hand it, and the launch flags.
pub struct LaunchSpec {
    pub app: Option<String>,
    pub urls: Option<Vec<String>>,
    pub flags: LSLaunchFlags,
}

/// The launch request that opens `urls` with the application at `app`,
/// under `flags`. Where `app` is absent the service picks the application
/// for each URL; where `urls` is absent the application is only started.
pub fn open<T: Openable + ?Sized>(
    urls: Option<&T>,
    app: Option<String>,
    flags: LSLaunchFlags,
) -> (r: LaunchSpec)
    ensures
        r.app == app,
        r.flags == flags,
        match urls {
            Some(u) => r.urls is Some && names(r.urls->0@) == u.urls_of(),
            None => r.urls is None,
        },
{
    let list = match urls {
        Some(u) => Some(u.into_openable()),
        None => None,
    };
    LaunchSpec { app, urls: list, flags }
}

/// What the launch service's status code says of a launch: success for
/// zero, else the code itself as the error.
pub fn launch_outcome(status: OSStatus) -> (r: Result<(), OSStatus>)
    ensures
        status == 0 ==> r is Ok,
        status != 0 ==> r == Err::<(), OSStatus>(status),
{
    if status == 0 {
        Ok(())
    } else {
        Err(status)
    }
}

} // verus!
