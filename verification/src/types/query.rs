//! What a list request asks for: the order, the page, the search engine.

use vstd::prelude::*;
use vstd::string::*;

verus! {

/// The direction of a sort.
#[derive(Debug, Clone, Copy, PartialEq, Eq, Structural)]
pub enum SortDirection {
    /// Smallest first.
    Ascending,
    /// Largest first.
    Descending,
}

impl SortDirection {
    /// The direction as the API writes it: `1` or `-1`.
    pub open spec fn api_text(self) -> Seq<char> {
        match self {
            SortDirection::Ascending => "1"@,
            SortDirection::Descending => "-1"@,
        }
    }

    /// The direction as the API writes it.
    pub fn as_str(&self) -> (s: &'static str)
        ensures
            s@ == self.api_text(),
    {
        match self {
            SortDirection::Ascending => "1",
            SortDirection::Descending => "-1",
        }
    }
}

/// A field to sort by, and the direction.
#[derive(Debug, Clone, PartialEq, Eq)]
pub struct SortSpec {
    field: String,
    direction: SortDirection,
}

impl View for SortSpec {
    type V = (Seq<char>, SortDirection);

    closed spec fn view(&self) -> (Seq<char>, SortDirection) {
        (self.field@, self.direction)
    }
}

impl SortSpec {
    /// The sort as the API writes it: the field, `:`, and the direction.
    pub open spec fn api_text(self) -> Seq<char> {
        self@.0 + ":"@ + self@.1.api_text()
    }

    /// A sort by `field` in `direction`.
    pub fn new(field: String, direction: SortDirection) -> (r: Self)
        ensures
            r@ == (field@, direction),
    {
        SortSpec { field, direction }
    }

    /// A sort by `field`, smallest first.
    pub fn ascending(field: String) -> (r: Self)
        ensures
            r@ == (field@, SortDirection::Ascending),
    {
        Self::new(field, SortDirection::Ascending)
    }

    /// A sort by `field`, largest first.
    pub fn descending(field: String) -> (r: Self)
        ensures
            r@ == (field@, SortDirection::Descending),
    {
        Self::new(field, SortDirection::Descending)
    }

    /// The field.
    pub fn field(&self) -> (s: &str)
        ensures
            s@ == self@.0,
    {
        self.field.as_str()
    }

    /// The direction.
    pub fn direction(&self) -> (d: SortDirection)
        ensures
            d == self@.1,
    {
        self.direction
    }

    /// The sort as the API writes it, such as `created_at:-1`.
    pub fn to_api_string(&self) -> (s: String)
        ensures
            s@ == self.api_text(),
    {
        self.field.clone().concat(":").concat(self.direction.as_str())
    }
}

/// A page number. Pages are counted from 0.
#[derive(Debug, Clone, Copy, PartialEq, Eq, PartialOrd, Ord, Structural)]
pub struct Page(u32);

impl View for Page {
    type V = u32;

    closed spec fn view(&self) -> u32 {
        self.0
    }
}

impl Default for Page {
    /// The first page.
    fn default() -> (r: Self)
        ensures
            r@ == 0,
    {
        Page(0)
    }
}

impl Page {
    /// The page with the number `number`.
    pub fn new(number: u32) -> (r: Self)
        ensures
            r@ == number,
    {
        Page(number)
    }

    /// The number of the page.
    pub fn number(&self) -> (n: u32)
        ensures
            n == self@,
    {
        self.0
    }
}

/// How many items a page holds: at least one.
#[derive(Debug, Clone, Copy, PartialEq, Eq, PartialOrd, Ord, Structural)]
pub struct PerPage(u32);

impl View for PerPage {
    type V = u32;

    closed spec fn view(&self) -> u32 {
        self.0
    }
}

impl PerPage {
    /// Every `PerPage` that `new` makes holds at least one.
    pub open spec fn wf(self) -> bool {
        self@ > 0
    }

    /// A page size of `count` items. A size of 0 is refused.
    pub fn new(count: u32) -> (r: Result<Self, &'static str>)
        ensures
            count == 0 ==> r == Err::<Self, &'static str>("per_page must be greater than 0"),
            count > 0 ==> r is Ok && r->Ok_0@ == count && r->Ok_0.wf(),
    {
        if count == 0 {
            Err("per_page must be greater than 0")
        } else {
            Ok(PerPage(count))
        }
    }

    /// The number of items.
    pub fn count(&self) -> (n: u32)
        ensures
            n == self@,
    {
        self.0
    }
}

/// The version of the user search engine.
#[derive(Debug, Clone, Copy, PartialEq, Eq, Structural)]
pub enum SearchEngine {
    /// The first engine, kept for old queries.
    V1,
    /// The current engine.
    V3,
}

impl Default for SearchEngine {
    /// The current engine.
    fn default() -> (r: Self)
        ensures
            r == SearchEngine::V3,
    {
        SearchEngine::V3
    }
}

impl SearchEngine {
    /// The engine as the API writes it: `v1` or `v3`.
    pub open spec fn api_text(self) -> Seq<char> {
        match self {
            SearchEngine::V1 => "v1"@,
            SearchEngine::V3 => "v3"@,
        }
    }

    /// The engine as the API writes it.
    pub fn as_str(&self) -> (s: &'static str)
        ensures
            s@ == self.api_text(),
    {
        match self {
            SearchEngine::V1 => "v1",
            SearchEngine::V3 => "v3",
        }
    }
}

} // verus!
