use crate::codec::text_eq;
use vstd::prelude::*;

verus! {

/// How a range read orders its entries. On the wire it is its symbolic name.
#[derive(Debug, Clone, Copy, PartialEq, Eq, Structural)]
pub enum SortOrder {
    NONE,
    ASCEND,
    DESCEND,
}

/// The wire name of a `SortOrder`.
pub open spec fn sort_order_name(v: SortOrder) -> Seq<char> {
    match v {
        SortOrder::NONE => "NONE"@,
        SortOrder::ASCEND => "ASCEND"@,
        SortOrder::DESCEND => "DESCEND"@,
    }
}

/// The `SortOrder` that a wire name denotes, if any: names match exactly.
pub open spec fn parse_sort_order(s: Seq<char>) -> Option<SortOrder> {
    if s == "NONE"@ {
        Some(SortOrder::NONE)
    } else if s == "ASCEND"@ {
        Some(SortOrder::ASCEND)
    } else if s == "DESCEND"@ {
        Some(SortOrder::DESCEND)
    } else {
        None
    }
}

impl SortOrder {
    /// The symbolic name that stands for this value on the wire.
    pub fn name(&self) -> (r: &'static str)
        ensures
            r@ == sort_order_name(*self),
    {
        match self {
            SortOrder::NONE => "NONE",
            SortOrder::ASCEND => "ASCEND",
            SortOrder::DESCEND => "DESCEND",
        }
    }

    /// The value that a wire name denotes; an unknown name gives `None`.
    pub fn from_name(s: &str) -> (r: Option<SortOrder>)
        ensures
            r == parse_sort_order(s@),
    {
        if text_eq(s, "NONE") {
            Some(SortOrder::NONE)
        } else if text_eq(s, "ASCEND") {
            Some(SortOrder::ASCEND)
        } else if text_eq(s, "DESCEND") {
            Some(SortOrder::DESCEND)
        } else {
            None
        }
    }
}

/// Reading back the wire name of a `SortOrder` gives the same value.
pub proof fn lemma_sort_order_name_round_trip(v: SortOrder)
    ensures
        parse_sort_order(sort_order_name(v)) == Some(v),
{
    reveal_strlit("NONE");
    assert("NONE"@.len() == 4 && "NONE"@[0] == 'N');
    reveal_strlit("ASCEND");
    assert("ASCEND"@.len() == 6 && "ASCEND"@[0] == 'A');
    reveal_strlit("DESCEND");
    assert("DESCEND"@.len() == 7 && "DESCEND"@[0] == 'D');
}

/// Which field a range read sorts by. On the wire it is its symbolic name.
#[derive(Debug, Clone, Copy, PartialEq, Eq, Structural)]
pub enum SortTarget {
    KEY,
    CREATE,
    VERSION,
    MOD,
    VALUE,
}

/// The wire name of a `SortTarget`.
pub open spec fn sort_target_name(v: SortTarget) -> Seq<char> {
    match v {
        SortTarget::KEY => "KEY"@,
        SortTarget::CREATE => "CREATE"@,
        SortTarget::VERSION => "VERSION"@,
        SortTarget::MOD => "MOD"@,
        SortTarget::VALUE => "VALUE"@,
    }
}

/// The `SortTarget` that a wire name denotes, if any: names match exactly.
pub open spec fn parse_sort_target(s: Seq<char>) -> Option<SortTarget> {
    if s == "KEY"@ {
        Some(SortTarget::KEY)
    } else if s == "CREATE"@ {
        Some(SortTarget::CREATE)
    } else if s == "VERSION"@ {
        Some(SortTarget::VERSION)
    } else if s == "MOD"@ {
        Some(SortTarget::MOD)
    } else if s == "VALUE"@ {
        Some(SortTarget::VALUE)
    } else {
        None
    }
}

impl SortTarget {
    /// The symbolic name that stands for this value on the wire.
    pub fn name(&self) -> (r: &'static str)
        ensures
            r@ == sort_target_name(*self),
    {
        match self {
            SortTarget::KEY => "KEY",
            SortTarget::CREATE => "CREATE",
            SortTarget::VERSION => "VERSION",
            SortTarget::MOD => "MOD",
            SortTarget::VALUE => "VALUE",
        }
    }

    /// The value that a wire name denotes; an unknown name gives `None`.
    pub fn from_name(s: &str) -> (r: Option<SortTarget>)
        ensures
            r == parse_sort_target(s@),
    {
        if text_eq(s, "KEY") {
            Some(SortTarget::KEY)
        } else if text_eq(s, "CREATE") {
            Some(SortTarget::CREATE)
        } else if text_eq(s, "VERSION") {
            Some(SortTarget::VERSION)
        } else if text_eq(s, "MOD") {
            Some(SortTarget::MOD)
        } else if text_eq(s, "VALUE") {
            Some(SortTarget::VALUE)
        } else {
            None
        }
    }
}

/// Reading back the wire name of a `SortTarget` gives the same value.
pub proof fn lemma_sort_target_name_round_trip(v: SortTarget)
    ensures
        parse_sort_target(sort_target_name(v)) == Some(v),
{
    reveal_strlit("KEY");
    assert("KEY"@.len() == 3 && "KEY"@[0] == 'K');
    reveal_strlit("CREATE");
    assert("CREATE"@.len() == 6 && "CREATE"@[0] == 'C');
    reveal_strlit("VERSION");
    assert("VERSION"@.len() == 7 && "VERSION"@[0] == 'V');
    reveal_strlit("MOD");
    assert("MOD"@.len() == 3 && "MOD"@[0] == 'M');
    reveal_strlit("VALUE");
    assert("VALUE"@.len() == 5 && "VALUE"@[0] == 'V');
}

/// Which changes a watch leaves out. On the wire it is its symbolic name.
#[derive(Debug, Clone, Copy, PartialEq, Eq, Structural)]
pub enum FilterType {
    NOPUT,
    NODELETE,
}

/// The wire name of a `FilterType`.
pub open spec fn filter_type_name(v: FilterType) -> Seq<char> {
    match v {
        FilterType::NOPUT => "NOPUT"@,
        FilterType::NODELETE => "NODELETE"@,
    }
}

/// The `FilterType` that a wire name denotes, if any: names match exactly.
pub open spec fn parse_filter_type(s: Seq<char>) -> Option<FilterType> {
    if s == "NOPUT"@ {
        Some(FilterType::NOPUT)
    } else if s == "NODELETE"@ {
        Some(FilterType::NODELETE)
    } else {
        None
    }
}

impl FilterType {
    /// The symbolic name that stands for this value on the wire.
    pub fn name(&self) -> (r: &'static str)
        ensures
            r@ == filter_type_name(*self),
    {
        match self {
            FilterType::NOPUT => "NOPUT",
            FilterType::NODELETE => "NODELETE",
        }
    }

    /// The value that a wire name denotes; an unknown name gives `None`.
    pub fn from_name(s: &str) -> (r: Option<FilterType>)
        ensures
            r == parse_filter_type(s@),
    {
        if text_eq(s, "NOPUT") {
            Some(FilterType::NOPUT)
        } else if text_eq(s, "NODELETE") {
            Some(FilterType::NODELETE)
        } else {
            None
        }
    }
}

/// Reading back the wire name of a `FilterType` gives the same value.
pub proof fn lemma_filter_type_name_round_trip(v: FilterType)
    ensures
        parse_filter_type(filter_type_name(v)) == Some(v),
{
    reveal_strlit("NOPUT");
    assert("NOPUT"@.len() == 5 && "NOPUT"@[0] == 'N');
    reveal_strlit("NODELETE");
    assert("NODELETE"@.len() == 8 && "NODELETE"@[0] == 'N');
}

/// What a change event did to its key. On the wire it is its symbolic name.
#[derive(Debug, Clone, Copy, PartialEq, Eq, Structural)]
pub enum EventType {
    PUT,
    DELETE,
}

/// The wire name of a `EventType`.
pub open spec fn event_type_name(v: EventType) -> Seq<char> {
    match v {
        EventType::PUT => "PUT"@,
        EventType::DELETE => "DELETE"@,
    }
}

/// The `EventType` that a wire name denotes, if any: names match exactly.
pub open spec fn parse_event_type(s: Seq<char>) -> Option<EventType> {
    if s == "PUT"@ {
        Some(EventType::PUT)
    } else if s == "DELETE"@ {
        Some(EventType::DELETE)
    } else {
        None
    }
}

impl EventType {
    /// The symbolic name that stands for this value on the wire.
    pub fn name(&self) -> (r: &'static str)
        ensures
            r@ == event_type_name(*self),
    {
        match self {
            EventType::PUT => "PUT",
            EventType::DELETE => "DELETE",
        }
    }

    /// The value that a wire name denotes; an unknown name gives `None`.
    pub fn from_name(s: &str) -> (r: Option<EventType>)
        ensures
            r == parse_event_type(s@),
    {
        if text_eq(s, "PUT") {
            Some(EventType::PUT)
        } else if text_eq(s, "DELETE") {
            Some(EventType::DELETE)
        } else {
            None
        }
    }
}

/// Reading back the wire name of a `EventType` gives the same value.
pub proof fn lemma_event_type_name_round_trip(v: EventType)
    ensures
        parse_event_type(event_type_name(v)) == Some(v),
{
    reveal_strlit("PUT");
    assert("PUT"@.len() == 3 && "PUT"@[0] == 'P');
    reveal_strlit("DELETE");
    assert("DELETE"@.len() == 6 && "DELETE"@[0] == 'D');
}

} // verus!
