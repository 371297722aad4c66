//! Locating the backlight device directory, once per process.
//!
//! The locator decides; the caller lists the base directory when asked to and
//! hands the listing back. Once a listing has been recorded the answer is
//! fixed: no further listing is asked for, and a failure is never retried.
use vstd::prelude::*;
use vstd::string::StringExecFns;
use crate::error::Error;

verus! {

/// Where backlight devices are listed.
pub const BRIGHTNESS_BASE_PATH: &'static str = "/sys/class/backlight";

/// The locator's answer so far.
#[derive(Debug)]
pub enum Resolution {
    /// The base directory has not been listed yet.
    Pending,
    /// The device directory that was found.
    Found(String),
    /// Why no device directory could be found.
    Missing(Error),
}

pub enum ResolutionView {
    Pending,
    Found(Seq<char>),
    Missing(Error),
}

pub struct LocatorView {
    pub base: Seq<char>,
    pub state: ResolutionView,
}

/// Finds the device directory under a base directory and remembers it.
#[derive(Debug)]
pub struct Locator {
    base: String,
    state: Resolution,
}

/// The name of the first entry of a listing that could be read.
pub open spec fn first_name(entries: Seq<Option<String>>) -> Option<Seq<char>>
    decreases entries.len(),
{
    if entries.len() == 0 {
        None
    } else if entries[0] is Some {
        Some(entries[0]->0@)
    } else {
        first_name(entries.drop_first())
    }
}

/// `base/name`.
pub open spec fn joined(base: Seq<char>, name: Seq<char>) -> Seq<char> {
    base + seq!['/'] + name
}

/// The locator after recording a listing of its base directory: a listing
/// that failed, or held no readable entry, leaves the device missing; one
/// that did selects its first readable entry. A locator that has already
/// recorded a listing keeps its answer.
pub open spec fn after_scan(l: LocatorView, listing: Result<Vec<Option<String>>, Error>) -> LocatorView {
    if l.state is Pending {
        LocatorView {
            base: l.base,
            state: match listing {
                Err(e) => ResolutionView::Missing(e),
                Ok(v) => match first_name(v@) {
                    Some(n) => ResolutionView::Found(joined(l.base, n)),
                    None => ResolutionView::Missing(Error::FailedToGetFirstEntry),
                },
            },
        }
    } else {
        l
    }
}

/// `base/name`, for a directory and the name of an entry in it.
pub fn join_path(base: &str, name: &str) -> (r: String)
    ensures
        r@ == joined(base@, name@),
{
    let mut r = String::from_str(base);
    r.append("/");
    proof {
        reveal_strlit("/");
    }
    r.append(name);
    r
}

fn first_readable(entries: &Vec<Option<String>>) -> (r: Option<&String>)
    ensures
        match first_name(entries@) {
            Some(n) => r is Some && r->0@ == n,
            None => r is None,
        },
{
    let mut i: usize = 0;
    assert(entries@.subrange(0, entries@.len() as int) =~= entries@);
    while i < entries.len()
        invariant
            i <= entries@.len(),
            first_name(entries@) == first_name(entries@.subrange(i as int, entries@.len() as int)),
        decreases entries@.len() - i,
    {
        let ghost rest = entries@.subrange(i as int, entries@.len() as int);
        match &entries[i] {
            Some(name) => {
                return Some(name);
            },
            None => {
                assert(rest.drop_first() =~= entries@.subrange(i as int + 1, entries@.len() as int));
            },
        }
        i = i + 1;
    }
    None
}

impl View for Locator {
    type V = LocatorView;

    closed spec fn view(&self) -> LocatorView {
        LocatorView {
            base: self.base@,
            state: match self.state {
                Resolution::Pending => ResolutionView::Pending,
                Resolution::Found(p) => ResolutionView::Found(p@),
                Resolution::Missing(e) => ResolutionView::Missing(e),
            },
        }
    }
}

impl Locator {
    /// A locator for devices listed under `base` that has not listed it yet.
    pub fn new(base: &str) -> (r: Locator)
        ensures
            r@ == (LocatorView { base: base@, state: ResolutionView::Pending }),
    {
        Locator { base: String::from_str(base), state: Resolution::Pending }
    }

    /// The directory whose entries are the candidate devices.
    pub fn base(&self) -> (r: &String)
        ensures
            r@ == self@.base,
    {
        &self.base
    }

    /// Whether the base directory still has to be listed.
    pub fn needs_scan(&self) -> (r: bool)
        ensures
            r == (self@.state is Pending),
    {
        match self.state {
            Resolution::Pending => true,
            _ => false,
        }
    }

    /// Records the listing of the base directory: the entries' names in the
    /// order the system gave them, `None` for an entry that could not be read,
    /// or why the directory could not be listed.
    pub fn record_scan(&mut self, listing: Result<Vec<Option<String>>, Error>)
        ensures
            final(self)@ == after_scan(old(self)@, listing),
    {
        match self.state {
            Resolution::Pending => {},
            _ => return,
        }
        let state = match listing {
            Err(e) => Resolution::Missing(e),
            Ok(entries) => match first_readable(&entries) {
                Some(name) => Resolution::Found(join_path(self.base.as_str(), name.as_str())),
                None => Resolution::Missing(Error::FailedToGetFirstEntry),
            },
        };
        self.state = state;
    }

    /// The device directory, or why there is none; `None` while the base
    /// directory has not been listed.
    pub fn device_path(&self) -> (r: Option<Result<String, Error>>)
        ensures
            match self@.state {
                ResolutionView::Pending => r is None,
                ResolutionView::Found(p) => r is Some && r->0 is Ok && r->0->Ok_0@ == p,
                ResolutionView::Missing(e) => r == Some(Err::<String, Error>(e)),
            },
    {
        match &self.state {
            Resolution::Pending => None,
            Resolution::Found(p) => Some(Ok(p.clone())),
            Resolution::Missing(e) => Some(Err(e.clone())),
        }
    }
}

/// After its first listing the locator never asks for another, and any
/// listing recorded later leaves it as it was: a device once found stays
/// found at the same path.
pub proof fn lemma_scanned_once(
    l: LocatorView,
    first: Result<Vec<Option<String>>, Error>,
    later: Result<Vec<Option<String>>, Error>,
)
    ensures
        !(after_scan(l, first).state is Pending),
        after_scan(after_scan(l, first), later) == after_scan(l, first),
        l.state is Found ==> after_scan(l, later) == l,
{
}

/// A base directory with no readable entry leaves the device missing, which
/// the locator reports as a failure.
pub proof fn lemma_empty_base_dir(l: LocatorView, entries: Vec<Option<String>>)
    requires
        l.state is Pending,
        forall|i: int| 0 <= i < entries@.len() ==> entries@[i] is None,
    ensures
        after_scan(l, Ok(entries)).state == ResolutionView::Missing(Error::FailedToGetFirstEntry),
{
    lemma_no_readable_entry(entries@);
}

proof fn lemma_no_readable_entry(entries: Seq<Option<String>>)
    requires
        forall|i: int| 0 <= i < entries.len() ==> entries[i] is None,
    ensures
        first_name(entries) is None,
    decreases entries.len(),
{
    if entries.len() > 0 {
        let rest = entries.drop_first();
        assert forall|i: int| 0 <= i < rest.len() implies rest[i] is None by {
            assert(rest[i] == entries[i + 1]);
        }
        lemma_no_readable_entry(rest);
    }
}

} // verus!
