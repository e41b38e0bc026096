use vstd::prelude::*;
use crate::error::{ConversionError, TemporalKind};

verus! {

/// The handle a cache holds for a kind after a resolution that found
/// `lookup`: a handle once cached is kept, and a failed lookup records
/// nothing.
pub open spec fn resolved_handle(cached: Option<u64>, lookup: Option<u64>) -> Option<u64> {
    if cached is Some {
        cached
    } else {
        lookup
    }
}

/// Host type handles for each temporal kind, resolved once and then reused.
#[derive(Debug, Clone, Copy)]
pub struct TypeCache {
    date: Option<u64>,
    datetime: Option<u64>,
    delta: Option<u64>,
    tzinfo: Option<u64>,
}

impl TypeCache {
    /// The handle cached for `kind`, if it has been resolved.
    pub closed spec fn handle(&self, kind: TemporalKind) -> Option<u64> {
        match kind {
            TemporalKind::Date => self.date,
            TemporalKind::DateTime => self.datetime,
            TemporalKind::Delta => self.delta,
            TemporalKind::TzInfo => self.tzinfo,
        }
    }

    /// A cache with nothing resolved.
    pub fn new() -> (r: TypeCache)
        ensures
            forall|k: TemporalKind| r.handle(k) is None,
    {
        TypeCache { date: None, datetime: None, delta: None, tzinfo: None }
    }

    /// The handle cached for `kind`, if any.
    pub fn get(&self, kind: TemporalKind) -> (r: Option<u64>)
        ensures
            r == self.handle(kind),
    {
        match kind {
            TemporalKind::Date => self.date,
            TemporalKind::DateTime => self.datetime,
            TemporalKind::Delta => self.delta,
            TemporalKind::TzInfo => self.tzinfo,
        }
    }

    /// Whether the host must be asked for the type of `kind`.
    pub fn needs_lookup(&self, kind: TemporalKind) -> (r: bool)
        ensures
            r == self.handle(kind) is None,
    {
        self.get(kind).is_none()
    }

    /// Resolves the handle of `kind`: a cached handle is returned as it is;
    /// otherwise the host's answer `lookup` is cached and returned, and a
    /// failed lookup is a `TypeMismatch` that leaves the cache unchanged.
    pub fn resolve(&mut self, kind: TemporalKind, lookup: Option<u64>) -> (r: Result<
        u64,
        ConversionError,
    >)
        ensures
            final(self).handle(kind) == resolved_handle(old(self).handle(kind), lookup),
            forall|k: TemporalKind| k != kind ==> final(self).handle(k) == old(self).handle(k),
            r == (match resolved_handle(old(self).handle(kind), lookup) {
                Some(h) => Ok(h),
                None => Err(ConversionError::TypeMismatch(kind)),
            }),
    {
        if let Some(h) = self.get(kind) {
            return Ok(h);
        }
        match lookup {
            None => Err(ConversionError::TypeMismatch(kind)),
            Some(h) => {
                match kind {
                    TemporalKind::Date => self.date = Some(h),
                    TemporalKind::DateTime => self.datetime = Some(h),
                    TemporalKind::Delta => self.delta = Some(h),
                    TemporalKind::TzInfo => self.tzinfo = Some(h),
                }
                Ok(h)
            },
        }
    }
}

/// Once a kind has been resolved, resolving it again with any host answer
/// keeps and returns the same handle.
pub proof fn lemma_resolve_idempotent(cached: Option<u64>, first: Option<u64>, second: Option<u64>)
    requires
        resolved_handle(cached, first) is Some,
    ensures
        resolved_handle(resolved_handle(cached, first), second) == resolved_handle(cached, first),
{
}

/// Resolutions of different kinds do not disturb one another, and the first
/// successful lookup of a kind fixes its handle for every later resolution.
pub proof fn lemma_first_lookup_wins(first: u64, later: Seq<Option<u64>>)
    ensures
        later.fold_left(Some(first), |c: Option<u64>, l: Option<u64>| resolved_handle(c, l))
            == Some(first),
    decreases later.len(),
{
    if later.len() > 0 {
        lemma_first_lookup_wins(first, later.drop_last());
    }
}

} // verus!
