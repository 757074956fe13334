use vstd::prelude::*;

verus! {

/// Where one cached value stands in its life.
#[derive(Clone, Debug, PartialEq, Eq)]
pub enum Status<V> {
    /// The entry exists and was never fetched.
    Created,
    /// The first fetch is under way; there is nothing to show yet.
    Loading,
    /// A fetch has completed and none is under way.
    Loaded { data: V, updated_at: u64 },
    /// A new fetch is under way while the previous value stays on display.
    Fetching { data: V, updated_at: u64 },
    /// The value was marked as out of date; it is kept until replaced.
    Invalid { data: V, updated_at: u64 },
}

impl<V> Status<V> {
    /// The value on display, if any.
    pub open spec fn spec_data(self) -> Option<V> {
        match self {
            Status::Loaded { data, .. } => Some(data),
            Status::Fetching { data, .. } => Some(data),
            Status::Invalid { data, .. } => Some(data),
            _ => None,
        }
    }

    /// The time of the last completed fetch, if any.
    pub open spec fn spec_updated_at(self) -> Option<u64> {
        match self {
            Status::Loaded { updated_at, .. } => Some(updated_at),
            Status::Fetching { updated_at, .. } => Some(updated_at),
            Status::Invalid { updated_at, .. } => Some(updated_at),
            _ => None,
        }
    }

    /// A fetch is under way.
    pub open spec fn in_flight(self) -> bool {
        self is Loading || self is Fetching
    }

    /// The status after a fetch starts: `Loading` where there is no value
    /// yet, `Fetching` with the value kept where there is one.
    pub open spec fn started(self) -> Status<V> {
        match self {
            Status::Created => Status::Loading,
            Status::Loading => Status::Loading,
            Status::Loaded { data, updated_at } => Status::Fetching { data, updated_at },
            Status::Fetching { data, updated_at } => Status::Fetching { data, updated_at },
            Status::Invalid { data, updated_at } => Status::Fetching { data, updated_at },
        }
    }

    /// The status after an invalidation: a value that is there is kept and
    /// marked; a status without a value stays as it is.
    pub open spec fn invalidated(self) -> Status<V> {
        match self {
            Status::Loaded { data, updated_at } => Status::Invalid { data, updated_at },
            Status::Fetching { data, updated_at } => Status::Invalid { data, updated_at },
            other => other,
        }
    }

    pub fn data(&self) -> (out: Option<&V>)
        ensures
            self.spec_data() == match out {
                Some(d) => Some(*d),
                None => None,
            },
    {
        match self {
            Status::Loaded { data, .. } => Some(data),
            Status::Fetching { data, .. } => Some(data),
            Status::Invalid { data, .. } => Some(data),
            _ => None,
        }
    }

    pub fn updated_at(&self) -> (out: Option<u64>)
        ensures
            out == self.spec_updated_at(),
    {
        match self {
            Status::Loaded { updated_at, .. } => Some(*updated_at),
            Status::Fetching { updated_at, .. } => Some(*updated_at),
            Status::Invalid { updated_at, .. } => Some(*updated_at),
            _ => None,
        }
    }

    pub fn is_created(&self) -> (out: bool)
        ensures
            out == (*self is Created),
    {
        matches!(self, Status::Created)
    }

    pub fn is_loading(&self) -> (out: bool)
        ensures
            out == (*self is Loading),
    {
        matches!(self, Status::Loading)
    }

    pub fn is_loaded(&self) -> (out: bool)
        ensures
            out == (*self is Loaded),
    {
        matches!(self, Status::Loaded { .. })
    }

    pub fn is_fetching(&self) -> (out: bool)
        ensures
            out == (*self is Fetching),
    {
        matches!(self, Status::Fetching { .. })
    }

    pub fn is_invalid(&self) -> (out: bool)
        ensures
            out == (*self is Invalid),
    {
        matches!(self, Status::Invalid { .. })
    }

    pub fn is_in_flight(&self) -> (out: bool)
        ensures
            out == self.in_flight(),
    {
        matches!(self, Status::Loading | Status::Fetching { .. })
    }

    /// Starts a fetch.
    pub fn start(self) -> (out: Status<V>)
        ensures
            out == self.started(),
    {
        match self {
            Status::Created => Status::Loading,
            Status::Loading => Status::Loading,
            Status::Loaded { data, updated_at } => Status::Fetching { data, updated_at },
            Status::Fetching { data, updated_at } => Status::Fetching { data, updated_at },
            Status::Invalid { data, updated_at } => Status::Fetching { data, updated_at },
        }
    }

    /// Marks the value as out of date.
    pub fn invalidate(self) -> (out: Status<V>)
        ensures
            out == self.invalidated(),
    {
        match self {
            Status::Loaded { data, updated_at } => Status::Invalid { data, updated_at },
            Status::Fetching { data, updated_at } => Status::Invalid { data, updated_at },
            other => other,
        }
    }
}

} // verus!
