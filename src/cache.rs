use vstd::prelude::*;

verus! {

/// How long a refreshed value is served without a new call, in milliseconds.
pub const CACHE_TTL_MS: u64 = 60000;

/// A cached value with the time, in milliseconds since the epoch, of the
/// refresh that installed it. It starts empty; a successful refresh replaces
/// value and time together, a failed one changes nothing.
pub struct CacheCell<T> {
    pub value: Option<T>,
    pub refreshed_at: u64,
}

/// The value is there and was installed less than the time to live before `now`.
pub open spec fn is_fresh<T>(cell: CacheCell<T>, now: u64) -> bool {
    cell.value is Some && (now as int) - (cell.refreshed_at as int) < CACHE_TTL_MS as int
}

/// The cell after a refresh that ended at `now`: replaced where the refresh
/// brought a value, untouched where it failed.
pub open spec fn refreshed<T>(cell: CacheCell<T>, now: u64, outcome: Option<T>) -> CacheCell<T> {
    match outcome {
        Some(v) => CacheCell { value: Some(v), refreshed_at: now },
        None => cell,
    }
}

impl<T> CacheCell<T> {
    /// An empty cell.
    pub fn new() -> (r: CacheCell<T>)
        ensures
            r.value is None,
            r.refreshed_at == 0,
    {
        CacheCell { value: None, refreshed_at: 0 }
    }

    /// Whether a read at `now` may be served from the cell without a call.
    pub fn is_fresh(&self, now: u64) -> (r: bool)
        ensures
            r == is_fresh(*self, now),
    {
        match &self.value {
            Some(_) => now < self.refreshed_at || now - self.refreshed_at < CACHE_TTL_MS,
            None => false,
        }
    }

    /// Installs the outcome of a refresh that ended at `now`; a failed refresh
    /// (`None`) leaves value and time as they were.
    pub fn refresh(&mut self, now: u64, outcome: Option<T>)
        ensures
            *final(self) == refreshed(*old(self), now, outcome),
    {
        match outcome {
            Some(v) => {
                self.value = Some(v);
                self.refreshed_at = now;
            },
            None => {},
        }
    }

    /// The value held, fresh or not.
    pub fn cached(&self) -> (r: Option<&T>)
        ensures
            r is None <==> self.value is None,
            r matches Some(x) ==> self.value == Some(*x),
    {
        self.value.as_ref()
    }
}

/// An empty cell is never fresh; after a successful refresh that ended at
/// `done`, every read before `done + CACHE_TTL_MS` is served from the cell, and
/// every read from then on needs a new call.
pub proof fn lemma_cache_window<T>(cell: CacheCell<T>, done: u64, v: T, later: u64)
    requires
        done <= later,
    ensures
        cell.value is None ==> forall|now: u64| !is_fresh(cell, now),
        (later as int) < done as int + CACHE_TTL_MS as int ==> is_fresh(
            refreshed(cell, done, Some(v)),
            later,
        ),
        (later as int) >= done as int + CACHE_TTL_MS as int ==> !is_fresh(
            refreshed(cell, done, Some(v)),
            later,
        ),
{
}

/// A failed refresh changes nothing: the value held before stays readable,
/// with its old time, until a refresh succeeds.
pub proof fn lemma_failed_refresh_keeps_value<T>(cell: CacheCell<T>, now: u64)
    ensures
        refreshed(cell, now, None) == cell,
        forall|later: u64| is_fresh(refreshed(cell, now, None), later) == is_fresh(cell, later),
{
}

} // verus!
