//! The pages of the application and the way through them.
use vstd::prelude::*;

use crate::config::Config;
use crate::text::{
    decimal, is_digit, lemma_decimal_round_trip, lemma_parse_reads_decimal, parse_u64, parsed_u64,
    same_text,
};

verus! {

/// A page.
#[derive(Clone, Copy, Debug, PartialEq, Eq, Structural)]
pub enum Route {
    Home,
    Playlist { id: u64 },
    PlayQueue,
}

/// What showing a page takes.
#[derive(Clone, Copy, Debug, PartialEq, Eq, Structural)]
pub struct RouteAction {
    /// The playlist to load first.
    pub load_playlist: Option<u64>,
    /// The number by which the interface knows the page.
    pub route: i32,
}

/// Why there is no page to go to.
#[derive(Clone, Copy, Debug, PartialEq, Eq, Structural)]
pub enum NavigatorError {
    NoMoreHistory,
    NoRoute,
}

/// The end of the part of a path that starts at `from`: the next slash, or the end of the path.
pub open spec fn part_end(path: Seq<char>, from: int) -> int
    decreases path.len() - from,
{
    if from >= path.len() {
        path.len() as int
    } else if path[from] == '/' {
        from
    } else {
        part_end(path, from + 1)
    }
}

/// The page that a path leads to: `playlist`, a slash and the number of a playlist. Further
/// parts do not matter.
pub open spec fn route_of(path: Seq<char>) -> Option<Route> {
    let first_end = part_end(path, 0);
    if path.take(first_end) != "playlist"@ || first_end == path.len() {
        None
    } else {
        match parsed_u64(path.subrange(first_end + 1, part_end(path, first_end + 1))) {
            Some(id) => Some(Route::Playlist { id }),
            None => None,
        }
    }
}

fn find_part_end(path: &str, from: usize) -> (end: usize)
    requires
        from <= path@.len(),
    ensures
        end == part_end(path@, from as int),
        from <= end <= path@.len(),
{
    let length = path.unicode_len();
    let mut i: usize = from;
    while i < length && path.get_char(i) != '/'
        invariant
            from <= i <= length,
            length == path@.len(),
            part_end(path@, from as int) == part_end(path@, i as int),
        decreases length - i,
    {
        i += 1;
    }
    i
}

impl Route {
    /// The number by which the interface knows a page.
    pub open spec fn number(self) -> i32 {
        match self {
            Route::Home => 0,
            Route::Playlist { .. } => 1,
            Route::PlayQueue => 2,
        }
    }

    pub fn discriminant(&self) -> (number: i32)
        ensures
            number == self.number(),
            *self is Home ==> number == 0,
            *self is Playlist ==> number == 1,
            *self is PlayQueue ==> number == 2,
    {
        match self {
            Route::Home => 0,
            Route::Playlist { .. } => 1,
            Route::PlayQueue => 2,
        }
    }

    /// The page that a path leads to.
    pub fn from_path(path: &str) -> (route: Option<Route>)
        ensures
            route == route_of(path@),
    {
        let first_end = find_part_end(path, 0);
        let page = path.substring_char(0, first_end);
        assert(page@ =~= path@.take(first_end as int));
        if !same_text(page, "playlist") {
            return None;
        }
        if first_end == path.unicode_len() {
            return None;
        }
        let second_end = find_part_end(path, first_end + 1);
        match parse_u64(path, first_end + 1, second_end) {
            Some(id) => Some(Route::Playlist { id }),
            None => None,
        }
    }

    /// What showing this page takes.
    pub fn set_route(&self) -> (action: RouteAction)
        ensures
            action.route == self.number(),
            action.load_playlist == (match *self {
                Route::Playlist { id } => Some(id),
                _ => None,
            }),
    {
        let load_playlist = match self {
            Route::Playlist { id } => Some(*id),
            _ => None,
        };
        RouteAction { load_playlist, route: self.discriminant() }
    }
}

/// The way through the pages: the pages that were visited, and which of them is shown. It keeps
/// the last hundred in a ring.
pub struct Navigator {
    history: Vec<Option<Route>>,
    start: usize,
    end: usize,
    current: usize,
}

/// The place in the ring after another one: after the last one comes the first.
pub open spec fn place_after(index: int) -> int {
    (index + 1) % 100
}

/// The place in the ring before another one: before the first one comes the last.
pub open spec fn place_before(index: int) -> int {
    (index + 99) % 100
}

/// The way through the pages as contracts speak of it, the oldest page first. Before the first
/// visit there is a single place without a page.
#[verifier::ext_equal]
pub struct NavigatorView {
    pub entries: Seq<Option<Route>>,
    pub cursor: int,
}

impl NavigatorView {
    /// Whether this is a way that can come about.
    pub open spec fn well_formed(self) -> bool {
        0 <= self.cursor < self.entries.len() <= 100
    }

    /// What is shown.
    pub open spec fn shown(self) -> Option<Route> {
        self.entries[self.cursor]
    }

    /// The way once another page is visited. What came after the page that is shown is
    /// forgotten, and the oldest page too where there would be too many.
    pub open spec fn visited(self, route: Route) -> NavigatorView {
        let entries = self.entries.take(self.cursor + 1).push(Some(route));
        if entries.len() > 100 {
            NavigatorView { entries: entries.drop_first(), cursor: self.cursor }
        } else {
            NavigatorView { entries, cursor: self.cursor + 1 }
        }
    }

    /// The way once the cursor has moved.
    pub open spec fn moved(self, by: int) -> NavigatorView {
        NavigatorView { cursor: self.cursor + by, ..self }
    }

    /// What a move to the page that is now shown gives.
    pub open spec fn arrival(self) -> Result<Route, NavigatorError> {
        match self.shown() {
            Some(route) => Ok(route),
            None => Err(NavigatorError::NoRoute),
        }
    }
}

impl View for Navigator {
    type V = NavigatorView;

    closed spec fn view(&self) -> NavigatorView {
        NavigatorView {
            entries: Seq::new(
                (self.offset(self.end as int) + 1) as nat,
                |i: int| self.history@[self.slot(i)],
            ),
            cursor: self.offset(self.current as int),
        }
    }
}

impl Navigator {
    /// The place in the ring of the page that was visited as the one with this number.
    spec fn slot(self, number: int) -> int {
        if self.start + number < 100 {
            self.start + number
        } else {
            self.start + number - 100
        }
    }

    /// The number of the page at a place in the ring.
    spec fn offset(self, slot: int) -> int {
        if slot >= self.start {
            slot - self.start
        } else {
            slot + 100 - self.start
        }
    }

    /// Whether the places in the ring are what they should be.
    #[verifier::type_invariant]
    closed spec fn well_formed(self) -> bool {
        &&& self.history@.len() == 100
        &&& self.start < 100
        &&& self.end < 100
        &&& self.current < 100
        &&& self.offset(self.current as int) <= self.offset(self.end as int)
    }

    /// No page has been visited.
    pub fn new() -> (navigator: Navigator)
        ensures
            navigator@ == (NavigatorView { entries: seq![None], cursor: 0 }),
            navigator@.well_formed(),
    {
        let mut history: Vec<Option<Route>> = Vec::new();
        while history.len() < Config::NAVIGATOR_HISTORY_MAX
            invariant
                history@.len() <= 100,
                forall|i: int| 0 <= i < history@.len() ==> history@[i] is None,
            decreases 100 - history@.len(),
        {
            history.push(None);
        }
        let navigator = Navigator { history, start: 0, end: 0, current: 0 };
        assert(navigator@.entries =~= seq![None]);
        navigator
    }

    /// The place in the ring after another one.
    pub fn next(&self, index: usize) -> (next: usize)
        requires
            index < usize::MAX,
        ensures
            next == place_after(index as int),
    {
        proof {
            use_type_invariant(self);
        }
        (index + 1) % self.history.len()
    }

    /// The place in the ring before another one.
    pub fn prev(&self, index: usize) -> (prev: usize)
        requires
            index + 100 <= usize::MAX,
        ensures
            prev == place_before(index as int),
    {
        proof {
            use_type_invariant(self);
        }
        (index + self.history.len() - 1) % self.history.len()
    }

    fn navigate_to_current(&self) -> (route: Result<Route, NavigatorError>)
        ensures
            route == self@.arrival(),
    {
        proof {
            use_type_invariant(self);
        }
        assert(self.slot(self.offset(self.current as int)) == self.current);
        match self.history[self.current] {
            Some(route) => Ok(route),
            None => Err(NavigatorError::NoRoute),
        }
    }

    /// Goes back to the page before. The cursor moves even where there is no page.
    pub fn back(&mut self) -> (route: Result<Route, NavigatorError>)
        ensures
            old(self)@.well_formed(),
            old(self)@.cursor == 0 ==> {
                &&& route == Err::<Route, NavigatorError>(NavigatorError::NoMoreHistory)
                &&& final(self)@ == old(self)@
            },
            old(self)@.cursor > 0 ==> {
                &&& final(self)@ == old(self)@.moved(-1)
                &&& route == final(self)@.arrival()
            },
            final(self)@.well_formed(),
    {
        proof {
            use_type_invariant(&*self);
        }
        if self.current == self.start {
            return Err(NavigatorError::NoMoreHistory);
        }
        let current = self.prev(self.current);
        self.current = current;
        assert(self@.entries =~= old(self)@.entries);
        self.navigate_to_current()
    }

    /// Goes forward again. The cursor moves even where there is no page.
    pub fn forward(&mut self) -> (route: Result<Route, NavigatorError>)
        ensures
            old(self)@.well_formed(),
            old(self)@.cursor + 1 == old(self)@.entries.len() ==> {
                &&& route == Err::<Route, NavigatorError>(NavigatorError::NoMoreHistory)
                &&& final(self)@ == old(self)@
            },
            old(self)@.cursor + 1 < old(self)@.entries.len() ==> {
                &&& final(self)@ == old(self)@.moved(1)
                &&& route == final(self)@.arrival()
            },
            final(self)@.well_formed(),
    {
        proof {
            use_type_invariant(&*self);
        }
        if self.current == self.end {
            return Err(NavigatorError::NoMoreHistory);
        }
        let current = self.next(self.current);
        self.current = current;
        assert(self@.entries =~= old(self)@.entries);
        self.navigate_to_current()
    }

    /// Visits another page.
    pub fn to(&mut self, route: Route) -> (shown: Route)
        ensures
            old(self)@.well_formed(),
            final(self)@ == old(self)@.visited(route),
            final(self)@.well_formed(),
            shown == route,
    {
        proof {
            use_type_invariant(&*self);
        }
        let current = self.next(self.current);
        self.history[current] = Some(route);
        if current == self.start {
            let start = self.next(self.start);
            self.start = start;
        }
        self.end = current;
        self.current = current;
        assert(self@.entries =~= old(self)@.visited(route).entries);
        route
    }
}

/// The two steps around the ring stay inside it and undo each other, from the last place to the
/// first one and back, too.
pub proof fn lemma_ring_steps_undo_each_other(index: int)
    requires
        0 <= index < 100,
    ensures
        0 <= place_after(index) < 100,
        0 <= place_before(index) < 100,
        place_after(place_before(index)) == index,
        place_before(place_after(index)) == index,
        place_after(99) == 0,
        place_before(0) == 99,
{
}

/// Going back from a page that was just visited shows again what was shown before.
pub proof fn lemma_back_undoes_a_visit(way: NavigatorView, route: Route)
    requires
        way.well_formed(),
    ensures
        way.visited(route).well_formed(),
        way.visited(route).shown() == Some(route),
        way.visited(route).cursor > 0,
        way.visited(route).moved(-1).shown() == way.shown(),
{
}

/// Going back and forward again changes nothing.
pub proof fn lemma_forward_undoes_back(way: NavigatorView)
    requires
        way.well_formed(),
    ensures
        way.moved(-1).moved(1) == way,
        way.moved(1).moved(-1) == way,
{
}

/// From a page that was just visited there is no way forward.
pub proof fn lemma_a_visit_forgets_what_came_after(way: NavigatorView, route: Route)
    requires
        way.well_formed(),
    ensures
        way.visited(route).cursor + 1 == way.visited(route).entries.len(),
{
}

/// The path of a playlist leads to the playlist.
pub proof fn lemma_playlist_path_leads_to_it(id: u64)
    ensures
        route_of("playlist/"@ + decimal(id as nat)) == Some(Route::Playlist { id }),
{
    let digits = decimal(id as nat);
    let path = "playlist/"@ + digits;
    reveal_strlit("playlist/");
    reveal_strlit("playlist");
    lemma_decimal_round_trip(id as nat);
    lemma_parse_reads_decimal(id);
    reveal_with_fuel(part_end, 10);
    assert(part_end(path, 0) == 8);
    assert(path.take(8) =~= "playlist"@);
    lemma_digits_have_no_slash(path, 9);
    assert(path.subrange(9, path.len() as int) =~= digits);
}

proof fn lemma_digits_have_no_slash(path: Seq<char>, from: int)
    requires
        0 <= from <= path.len(),
        forall|i: int| from <= i < path.len() ==> is_digit(#[trigger] path[i]),
    ensures
        part_end(path, from) == path.len(),
    decreases path.len() - from,
{
    if from < path.len() {
        assert(is_digit(path[from]));
        lemma_digits_have_no_slash(path, from + 1);
    }
}

/// Visiting a page keeps the way up to the page that was shown and puts the new page behind it.
/// Of a hundred pages the oldest one is forgotten then.
pub proof fn lemma_visit_keeps_the_way(way: NavigatorView, route: Route, i: int)
    requires
        way.well_formed(),
    ensures
        way.cursor + 1 < 100 ==> {
            &&& way.visited(route).entries.len() == way.cursor + 2
            &&& way.visited(route).cursor == way.cursor + 1
            &&& 0 <= i <= way.cursor ==> way.visited(route).entries[i] == way.entries[i]
        },
        way.cursor + 1 == 100 ==> {
            &&& way.visited(route).entries.len() == 100
            &&& way.visited(route).cursor == 99
            &&& 0 <= i < 99 ==> way.visited(route).entries[i] == way.entries[i + 1]
        },
        way.visited(route).entries.last() == Some(route),
{
}

/// Moving through the way changes nothing of it; what is shown is the page at the cursor, and a
/// place without a page is an error.
pub proof fn lemma_moving_shows_the_page_there(way: NavigatorView, by: int)
    requires
        way.well_formed(),
        0 <= way.cursor + by < way.entries.len(),
    ensures
        way.moved(by).entries == way.entries,
        way.moved(by).cursor == way.cursor + by,
        way.moved(by).shown() == way.entries[way.cursor + by],
        way.entries[way.cursor + by] matches Some(route) ==> way.moved(by).arrival() == Ok::<
            Route,
            NavigatorError,
        >(route),
        way.entries[way.cursor + by] is None ==> way.moved(by).arrival() == Err::<
            Route,
            NavigatorError,
        >(NavigatorError::NoRoute),
{
}

/// Only paths of playlists lead anywhere: `playlist`, a slash, and the number, up to the next
/// slash or the end.
pub proof fn lemma_only_playlist_paths_lead_somewhere(path: Seq<char>)
    ensures
        route_of(path) matches Some(route) ==> {
            &&& path.len() > 9
            &&& path.take(9) == "playlist/"@
            &&& route is Playlist
        },
{
    if route_of(path) is Some {
        reveal_strlit("playlist");
        reveal_strlit("playlist/");
        let end = part_end(path, 0);
        lemma_part_ends_at_a_slash(path, 0);
        assert(path.take(end).len() == 8);
        assert(path.take(9) =~= "playlist/"@) by {
            assert forall|i: int| 0 <= i < 8 implies path[i] == "playlist"@[i] by {
                assert(path.take(8)[i] == path[i]);
            }
        }
        lemma_part_ends_at_a_slash(path, end + 1);
        if path.len() <= 9 {
            assert(path.subrange(end + 1, part_end(path, end + 1)).len() == 0);
        }
    }
}

/// A part of a path ends at the next slash, or where the path ends.
pub proof fn lemma_part_ends_at_a_slash(path: Seq<char>, from: int)
    requires
        0 <= from <= path.len(),
    ensures
        from <= part_end(path, from) <= path.len(),
        part_end(path, from) < path.len() ==> path[part_end(path, from)] == '/',
        forall|i: int| from <= i < part_end(path, from) ==> path[i] != '/',
    decreases path.len() - from,
{
    if from < path.len() && path[from] != '/' {
        lemma_part_ends_at_a_slash(path, from + 1);
    }
}

/// A path with anything behind the number of a playlist and a slash leads to the playlist, too.
pub proof fn lemma_further_parts_do_not_matter(id: u64, rest: Seq<char>)
    ensures
        route_of("playlist/"@ + decimal(id as nat) + "/"@ + rest) == Some(Route::Playlist { id }),
{
    let digits = decimal(id as nat);
    let path = "playlist/"@ + digits + "/"@ + rest;
    reveal_strlit("playlist/");
    reveal_strlit("playlist");
    reveal_strlit("/");
    lemma_decimal_round_trip(id as nat);
    lemma_parse_reads_decimal(id);
    reveal_with_fuel(part_end, 10);
    assert(part_end(path, 0) == 8);
    assert(path.take(8) =~= "playlist"@);
    let end = part_end(path, 9);
    let slash = 9 + digits.len() as int;
    lemma_part_ends_at_a_slash(path, 9);
    assert(path[slash] == '/');
    assert forall|i: int| 9 <= i < slash implies path[i] != '/' by {
        assert(path[i] == digits[i - 9]);
        assert(is_digit(digits[i - 9]));
    }
    assert(end == slash);
    assert(path.subrange(9, slash) =~= digits);
}

/// The numbers by which the interface knows the pages.
pub proof fn lemma_numbers_of_pages(id: u64)
    ensures
        Route::Home.number() == 0,
        (Route::Playlist { id }).number() == 1,
        Route::PlayQueue.number() == 2,
{
}

} // verus!
