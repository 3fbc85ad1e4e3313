//! The capability registry of an interpreter context: an ordered
//! name-to-handler mapping in which registering later wins only through
//! the explicit override operation, never silently.

use vstd::prelude::*;

verus! {

/// The mapping a registration log denotes: entries registered later win.
pub open spec fn log_map(s: Seq<(String, u64)>) -> Map<Seq<char>, u64>
    decreases s.len(),
{
    if s.len() == 0 {
        Map::empty()
    } else {
        log_map(s.drop_last()).insert(s.last().0@, s.last().1)
    }
}

/// The handler a registration log gives a name, if any: the latest entry
/// of that name.
pub open spec fn log_lookup(s: Seq<(String, u64)>, name: Seq<char>) -> Option<u64>
    decreases s.len(),
{
    if s.len() == 0 {
        None
    } else if s.last().0@ == name {
        Some(s.last().1)
    } else {
        log_lookup(s.drop_last(), name)
    }
}

/// Looking a name up in a log finds exactly what the log's mapping holds
/// for it.
pub proof fn lemma_log_lookup_matches_map(s: Seq<(String, u64)>, name: Seq<char>)
    ensures
        log_lookup(s, name) is Some <==> log_map(s).contains_key(name),
        (log_lookup(s, name) matches Some(h) ==> log_map(s)[name] == h),
    decreases s.len(),
{
    if s.len() > 0 {
        lemma_log_lookup_matches_map(s.drop_last(), name);
    }
}

/// A name-to-handler registry of the capabilities an interpreter context
/// offers. Handlers are carried as plain identifiers; registration order
/// is kept, and a later registration replaces an earlier one only through
/// [`CapabilityRegistry::register_override`].
#[derive(Debug, PartialEq)]
pub struct CapabilityRegistry {
    entries: Vec<(String, u64)>,
}

impl CapabilityRegistry {
    /// The ordered registration log.
    pub closed spec fn log(self) -> Seq<(String, u64)> {
        self.entries@
    }

    /// The mapping the registry currently offers.
    pub open spec fn as_map(self) -> Map<Seq<char>, u64> {
        log_map(self.log())
    }

    /// A fresh registry offering nothing.
    pub fn new() -> (r: CapabilityRegistry)
        ensures
            r.log() == Seq::<(String, u64)>::empty(),
            r.as_map() == Map::<Seq<char>, u64>::empty(),
    {
        let r = CapabilityRegistry { entries: Vec::new() };
        proof {
            assert(r.log() =~= Seq::<(String, u64)>::empty());
        }
        r
    }

    fn lookup_upto(&self, name: &String, n: usize) -> (r: Option<u64>)
        requires
            n <= self.log().len(),
        ensures
            r == log_lookup(self.log().subrange(0, n as int), name@),
        decreases n,
    {
        if n == 0 {
            proof {
                assert(self.log().subrange(0, 0) =~= Seq::<(String, u64)>::empty());
            }
            None
        } else {
            let e = &self.entries[n - 1];
            proof {
                assert(self.log().subrange(0, n as int).last() == self.log()[n - 1]);
                assert(self.log().subrange(0, n as int).drop_last() =~= self.log().subrange(
                    0,
                    n - 1,
                ));
            }
            if e.0 == *name {
                Some(e.1)
            } else {
                self.lookup_upto(name, n - 1)
            }
        }
    }

    /// The handler registered for `name`, if any; the latest registration
    /// of the name wins.
    pub fn lookup(&self, name: &String) -> (r: Option<u64>)
        ensures
            r is Some <==> self.as_map().contains_key(name@),
            (r matches Some(h) ==> self.as_map()[name@] == h),
    {
        proof {
            lemma_log_lookup_matches_map(self.log(), name@);
            assert(self.log().subrange(0, self.log().len() as int) =~= self.log());
        }
        self.lookup_upto(name, self.entries.len())
    }

    /// Registers a capability under a name not yet taken. A name already
    /// registered is refused, leaving the registry unchanged: an earlier
    /// registration is never silently shadowed.
    pub fn register(&mut self, name: String, handler: u64) -> (r: bool)
        ensures
            r <==> !old(self).as_map().contains_key(name@),
            r ==> final(self).log() == old(self).log().push((name, handler)),
            r ==> final(self).as_map() == old(self).as_map().insert(name@, handler),
            !r ==> *final(self) == *old(self),
    {
        let taken = self.lookup(&name);
        match taken {
            Some(_) => false,
            None => {
                self.entries.push((name, handler));
                proof {
                    assert(self.log().drop_last() =~= old(self).log());
                }
                true
            },
        }
    }

    /// Registers a capability under a name, deliberately replacing any
    /// earlier registration of that name.
    pub fn register_override(&mut self, name: String, handler: u64)
        ensures
            final(self).log() == old(self).log().push((name, handler)),
            final(self).as_map() == old(self).as_map().insert(name@, handler),
    {
        self.entries.push((name, handler));
        proof {
            assert(self.log().drop_last() =~= old(self).log());
        }
    }
}

} // verus!
