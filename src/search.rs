use vstd::prelude::*;

use crate::entry::{appended, EntryKind, ResultEntry};
use crate::result_list::ResultList;

verus! {

/// How many chats the chat search asks for.
pub const CHAT_SEARCH_LIMIT: i32 = 30;

/// How many results one search lists at most; contacts get what the chats
/// leave of it.
pub const RESULT_BUDGET: i32 = 50;

/// Which page the panel shows.
#[derive(Clone, Copy, Debug, PartialEq, Eq, Structural)]
pub enum ViewState {
    Empty,
    Results,
}

/// Where the current search stands.
#[derive(Clone, Copy, Debug, PartialEq, Eq, Structural)]
pub enum Phase {
    Idle,
    AwaitingChats,
    AwaitingContacts,
}

/// A failed remote call, as the remote service reported it. It is logged and
/// never changes the course of a search beyond the missing results.
#[derive(Clone, Debug, PartialEq, Eq)]
pub struct RemoteFailure {
    pub code: i32,
    pub message: String,
}

/// What the caller is to do next for a search.
#[derive(Clone, Debug, PartialEq, Eq)]
pub enum SearchAction {
    /// Ask the remote service for chats matching `query`, at most `limit`;
    /// hand the outcome to `Search::on_chats` with `generation`.
    SearchChats { generation: u64, query: String, limit: i32 },
    /// Ask the remote service for contacts matching `query`, at most `limit`;
    /// hand the outcome to `Search::on_contacts` with `generation`.
    SearchContacts { generation: u64, query: String, limit: i32 },
    /// Nothing more to ask for.
    Finished,
}

impl SearchAction {
    pub open spec fn is_chat_request(self, generation: u64, query: Seq<char>, limit: i32) -> bool {
        match self {
            SearchAction::SearchChats { generation: g, query: q, limit: l } => g == generation
                && q@ == query && l == limit,
            _ => false,
        }
    }

    pub open spec fn is_contact_request(self, generation: u64, query: Seq<char>, limit: i32) -> bool {
        match self {
            SearchAction::SearchContacts { generation: g, query: q, limit: l } => g == generation
                && q@ == query && l == limit,
            _ => false,
        }
    }
}

/// What to do when the panel is reset.
#[derive(Clone, Copy, Debug, PartialEq, Eq, Structural)]
pub enum ResetAction {
    /// The query text is empty: search again, to refresh the recently found chats.
    Refresh,
    /// Clear the query text; the change of text starts the new search.
    ClearText,
}

/// The abstract state of the panel's search.
pub struct SearchState {
    pub generation: u64,
    pub query: Seq<char>,
    pub entries: Seq<ResultEntry>,
    pub view: ViewState,
    pub phase: Phase,
    pub compact: bool,
}

/// The page shown for a list of `size` results.
pub open spec fn view_for(size: nat) -> ViewState {
    if size == 0 {
        ViewState::Empty
    } else {
        ViewState::Results
    }
}

/// The token of the search after one of generation `g`.
pub open spec fn next_generation(g: u64) -> u64 {
    if g == u64::MAX {
        0
    } else {
        (g + 1) as u64
    }
}

/// How many contacts may be asked for once `found` results are listed:
/// what is left of the budget, and never less than zero.
pub open spec fn contact_limit(found: nat) -> i32 {
    if found >= RESULT_BUDGET {
        0
    } else {
        (RESULT_BUDGET - found) as i32
    }
}

/// The ids a remote search delivered: none when it failed.
pub open spec fn delivered(outcome: Result<Vec<i64>, RemoteFailure>) -> Seq<i64> {
    match outcome {
        Ok(ids) => ids@,
        Err(_) => Seq::empty(),
    }
}

/// The search of a sidebar panel: one generation at a time, chats first,
/// then contacts, into one list without repeated ids.
pub struct Search {
    generation: u64,
    query: String,
    list: ResultList,
    view: ViewState,
    phase: Phase,
    compact: bool,
}

impl View for Search {
    type V = SearchState;

    closed spec fn view(&self) -> SearchState {
        SearchState {
            generation: self.generation,
            query: self.query@,
            entries: self.list@,
            view: self.view,
            phase: self.phase,
            compact: self.compact,
        }
    }
}

impl Search {
    /// While chats are awaited the list is empty and the results page shows;
    /// otherwise the page follows the size of the list.
    pub closed spec fn wf(&self) -> bool {
        &&& self.list.wf()
        &&& self.phase == Phase::AwaitingChats ==> self.list@.len() == 0 && self.view
            == ViewState::Results
        &&& self.phase != Phase::AwaitingChats ==> self.view == view_for(self.list@.len())
    }

    pub fn new() -> (r: Search)
        ensures
            r.wf(),
            r@ == (SearchState {
                generation: 0,
                query: Seq::empty(),
                entries: Seq::empty(),
                view: ViewState::Empty,
                phase: Phase::Idle,
                compact: false,
            }),
    {
        Search {
            generation: 0,
            query: String::new(),
            list: ResultList::new(),
            view: ViewState::Empty,
            phase: Phase::Idle,
            compact: false,
        }
    }

    /// Starts a new search for `query`: a new generation, an empty list and
    /// the results page, shown before any data arrives. Outcomes of earlier
    /// generations are ignored from now on.
    pub fn search(&mut self, query: String) -> (r: SearchAction)
        requires
            old(self).wf(),
        ensures
            final(self).wf(),
            final(self)@ == (SearchState {
                generation: next_generation(old(self)@.generation),
                query: query@,
                entries: Seq::empty(),
                view: ViewState::Results,
                phase: Phase::AwaitingChats,
                compact: old(self)@.compact,
            }),
            final(self)@.generation != old(self)@.generation,
            r.is_chat_request(final(self)@.generation, query@, CHAT_SEARCH_LIMIT),
    {
        self.generation = if self.generation == u64::MAX {
            0
        } else {
            self.generation + 1
        };
        let request = query.clone();
        self.query = query;
        self.list.clear();
        self.view = ViewState::Results;
        self.phase = Phase::AwaitingChats;
        SearchAction::SearchChats {
            generation: self.generation,
            query: request,
            limit: CHAT_SEARCH_LIMIT,
        }
    }

    /// The token of the current search.
    pub fn generation(&self) -> (r: u64)
        ensures
            r == self@.generation,
    {
        self.generation
    }

    /// The page that the panel shows.
    pub fn view_state(&self) -> (r: ViewState)
        ensures
            r == self@.view,
    {
        self.view
    }

    pub fn phase(&self) -> (r: Phase)
        ensures
            r == self@.phase,
    {
        self.phase
    }

    /// The query of the current search.
    pub fn query(&self) -> (r: &str)
        ensures
            r@ == self@.query,
    {
        self.query.as_str()
    }

    /// How many results are listed.
    pub fn size(&self) -> (r: usize)
        ensures
            r == self@.entries.len(),
    {
        self.list.size()
    }

    /// The result at `position`, if there is one.
    pub fn entry_at(&self, position: u32) -> (r: Option<ResultEntry>)
        ensures
            r == if position < self@.entries.len() {
                Some(self@.entries[position as int])
            } else {
                None::<ResultEntry>
            },
    {
        self.list.get(position as usize)
    }

    /// Whether the compact layout is used; the search does not depend on it.
    pub fn compact(&self) -> (r: bool)
        ensures
            r == self@.compact,
    {
        self.compact
    }

    /// Sets the layout hint. Returns whether it changed, so that the caller
    /// notifies only then.
    pub fn set_compact(&mut self, compact: bool) -> (changed: bool)
        requires
            old(self).wf(),
        ensures
            final(self).wf(),
            final(self)@ == (SearchState { compact, ..old(self)@ }),
            changed == (old(self)@.compact != compact),
    {
        if self.compact == compact {
            return false;
        }
        self.compact = compact;
        true
    }

    /// What a reset does given the text of the query entry: an empty text is
    /// searched again, to refresh the recently found chats; any other text is
    /// cleared, which starts that search through the entry.
    pub fn reset(text: &str) -> (r: ResetAction)
        ensures
            r == if text@.len() == 0 {
                ResetAction::Refresh
            } else {
                ResetAction::ClearText
            },
    {
        if text.is_empty() {
            ResetAction::Refresh
        } else {
            ResetAction::ClearText
        }
    }

    /// Takes the outcome of the chat search of `generation`. An outcome of
    /// another generation, or one that is not awaited, changes nothing. Else
    /// the chats are listed in order (a failure lists none), the page follows
    /// the size of the list, and for a non-empty query the contact search is
    /// asked for with what is left of the result budget; an empty query ends
    /// the search with the recently found chats.
    pub fn on_chats(&mut self, generation: u64, outcome: Result<Vec<i64>, RemoteFailure>) -> (r:
        SearchAction)
        requires
            old(self).wf(),
        ensures
            final(self).wf(),
            generation != old(self)@.generation || old(self)@.phase != Phase::AwaitingChats ==> {
                &&& final(self)@ == old(self)@
                &&& r == SearchAction::Finished
            },
            generation == old(self)@.generation && old(self)@.phase == Phase::AwaitingChats ==> {
                &&& final(self)@ == (SearchState {
                    entries: appended(Seq::empty(), delivered(outcome), EntryKind::Chat),
                    view: view_for(final(self)@.entries.len()),
                    phase: if old(self)@.query.len() == 0 {
                        Phase::Idle
                    } else {
                        Phase::AwaitingContacts
                    },
                    ..old(self)@
                })
                &&& old(self)@.query.len() == 0 ==> r == SearchAction::Finished
                &&& old(self)@.query.len() != 0 ==> r.is_contact_request(
                    generation,
                    old(self)@.query,
                    contact_limit(final(self)@.entries.len()),
                )
            },
            generation == old(self)@.generation && old(self)@.phase == Phase::AwaitingChats
                && outcome is Err && old(self)@.query.len() != 0 ==> r.is_contact_request(
                generation,
                old(self)@.query,
                RESULT_BUDGET,
            ),
    {
        if generation != self.generation || self.phase != Phase::AwaitingChats {
            return SearchAction::Finished;
        }
        assert(self.list@ =~= Seq::empty());
        if let Ok(ids) = outcome {
            self.list.append(&ids, EntryKind::Chat);
        }
        let size = self.list.size();
        self.view = if size == 0 {
            ViewState::Empty
        } else {
            ViewState::Results
        };
        if self.query.as_str().is_empty() {
            self.phase = Phase::Idle;
            return SearchAction::Finished;
        }
        self.phase = Phase::AwaitingContacts;
        let limit: i32 = if size >= RESULT_BUDGET as usize {
            0
        } else {
            RESULT_BUDGET - size as i32
        };
        SearchAction::SearchContacts { generation, query: self.query.clone(), limit }
    }

    /// Takes the outcome of the contact search of `generation`. An outcome of
    /// another generation, or one that is not awaited, changes nothing. Else
    /// each contact whose id is not listed yet (a user's id is that of their
    /// private chat) is appended in order, a failure appends none, the page
    /// follows the size of the list, and the search is over.
    pub fn on_contacts(&mut self, generation: u64, outcome: Result<Vec<i64>, RemoteFailure>)
        requires
            old(self).wf(),
        ensures
            final(self).wf(),
            generation != old(self)@.generation || old(self)@.phase != Phase::AwaitingContacts
                ==> final(self)@ == old(self)@,
            generation == old(self)@.generation && old(self)@.phase == Phase::AwaitingContacts
                ==> final(self)@ == (SearchState {
                entries: appended(old(self)@.entries, delivered(outcome), EntryKind::User),
                view: view_for(final(self)@.entries.len()),
                phase: Phase::Idle,
                ..old(self)@
            }),
    {
        if generation != self.generation || self.phase != Phase::AwaitingContacts {
            return ;
        }
        if let Ok(ids) = outcome {
            if self.list.append(&ids, EntryKind::User).is_some() {
                self.view = if self.list.size() == 0 {
                    ViewState::Empty
                } else {
                    ViewState::Results
                };
            }
        }
        self.phase = Phase::Idle;
    }
}

} // verus!
