//! The enumerated list filters and their wire tokens.

use vstd::prelude::*;
use vstd::string::*;

verus! {

/// Field by which a pull-request listing is ordered.
#[derive(Clone, Copy, Debug, PartialEq, Eq, Structural)]
pub enum Sort {
    Created,
    Updated,
    Popularity,
    LongRunning,
}

impl Sort {
    /// The wire token of this sort order.
    pub open spec fn token_spec(self) -> Seq<char> {
        match self {
            Sort::Created => "created"@,
            Sort::Updated => "updated"@,
            Sort::Popularity => "popularity"@,
            Sort::LongRunning => "long-running"@,
        }
    }

    pub fn to_string(&self) -> (r: String)
        ensures
            r@ == self.token_spec(),
    {
        match self {
            Sort::Created => String::from_str("created"),
            Sort::Updated => String::from_str("updated"),
            Sort::Popularity => String::from_str("popularity"),
            Sort::LongRunning => String::from_str("long-running"),
        }
    }
}

impl Default for Sort {
    fn default() -> (r: Sort)
        ensures
            r == Sort::Created,
    {
        Sort::Created
    }
}

/// Lifecycle state that a pull-request listing is filtered by.
#[derive(Clone, Copy, Debug, PartialEq, Eq, Structural)]
pub enum State {
    Open,
    Closed,
    All,
}

impl State {
    /// The wire token of this state filter.
    pub open spec fn token_spec(self) -> Seq<char> {
        match self {
            State::Open => "open"@,
            State::Closed => "closed"@,
            State::All => "all"@,
        }
    }

    pub fn to_string(&self) -> (r: String)
        ensures
            r@ == self.token_spec(),
    {
        match self {
            State::Open => String::from_str("open"),
            State::Closed => String::from_str("closed"),
            State::All => String::from_str("all"),
        }
    }
}

impl Default for State {
    fn default() -> (r: State)
        ensures
            r == State::Open,
    {
        State::Open
    }
}

/// Direction in which a pull-request listing is ordered.
#[derive(Clone, Copy, Debug, PartialEq, Eq, Structural)]
pub enum SortDirection {
    Asc,
    Desc,
}

impl SortDirection {
    /// The wire token of this direction.
    pub open spec fn token_spec(self) -> Seq<char> {
        match self {
            SortDirection::Asc => "asc"@,
            SortDirection::Desc => "desc"@,
        }
    }

    pub fn to_string(&self) -> (r: String)
        ensures
            r@ == self.token_spec(),
    {
        match self {
            SortDirection::Asc => String::from_str("asc"),
            SortDirection::Desc => String::from_str("desc"),
        }
    }
}

impl Default for SortDirection {
    fn default() -> (r: SortDirection)
        ensures
            r == SortDirection::Asc,
    {
        SortDirection::Asc
    }
}

/// Every sort order has the documented wire token, character for character.
pub proof fn lemma_sort_tokens()
    ensures
        Sort::Created.token_spec() == seq!['c', 'r', 'e', 'a', 't', 'e', 'd'],
        Sort::Updated.token_spec() == seq!['u', 'p', 'd', 'a', 't', 'e', 'd'],
        Sort::Popularity.token_spec() == seq!['p', 'o', 'p', 'u', 'l', 'a', 'r', 'i', 't', 'y'],
        Sort::LongRunning.token_spec() == seq![
            'l', 'o', 'n', 'g', '-', 'r', 'u', 'n', 'n', 'i', 'n', 'g'
        ],
{
    reveal_strlit("created");
    reveal_strlit("updated");
    reveal_strlit("popularity");
    reveal_strlit("long-running");
    assert(Sort::Created.token_spec() =~= seq!['c', 'r', 'e', 'a', 't', 'e', 'd']);
    assert(Sort::Updated.token_spec() =~= seq!['u', 'p', 'd', 'a', 't', 'e', 'd']);
    assert(Sort::Popularity.token_spec() =~= seq![
        'p', 'o', 'p', 'u', 'l', 'a', 'r', 'i', 't', 'y'
    ]);
    assert(Sort::LongRunning.token_spec() =~= seq![
        'l', 'o', 'n', 'g', '-', 'r', 'u', 'n', 'n', 'i', 'n', 'g'
    ]);
}

} // verus!
