//! The sidebar: its rows, which of them are folded away, and the covers of the playlists.
use vstd::prelude::*;

use crate::app::App;
use crate::model::{PlaylistShortInfo, UserPlaylists};
use crate::navigator::{lemma_playlist_path_leads_to_it, route_of, Route};
use crate::songlist::{CoverBatch, CoverJob};
use crate::text::{append_decimal, decimal};

verus! {

/// The kinds of rows.
#[derive(Clone, Copy, Debug, PartialEq, Eq, Structural)]
pub enum SideBarItemType {
    Common,
    Container,
    Divider,
}

/// The picture of a row before its cover has come.
#[derive(Clone, Copy, Debug, PartialEq, Eq, Structural)]
pub enum SideBarIcon {
    Blank,
    Music,
}

/// A row of the sidebar.
#[derive(Debug)]
pub struct SideBarItemMessage {
    pub name: String,
    pub route: String,
    pub iconfont: String,
    pub icon: SideBarIcon,
    /// The row that this one can be folded into, or -1.
    pub father: i32,
    pub grade: i32,
    pub display: bool,
    pub expand: bool,
    pub item_type: SideBarItemType,
    /// The place of the row.
    pub index: i32,
}

/// A row as contracts speak of it.
#[verifier::ext_equal]
pub struct ItemView {
    pub name: Seq<char>,
    pub route: Seq<char>,
    pub iconfont: Seq<char>,
    pub icon: SideBarIcon,
    pub father: i32,
    pub grade: i32,
    pub display: bool,
    pub expand: bool,
    pub item_type: SideBarItemType,
    pub index: i32,
}

impl View for SideBarItemMessage {
    type V = ItemView;

    open spec fn view(&self) -> ItemView {
        ItemView {
            name: self.name@,
            route: self.route@,
            iconfont: self.iconfont@,
            icon: self.icon,
            father: self.father,
            grade: self.grade,
            display: self.display,
            expand: self.expand,
            item_type: self.item_type,
            index: self.index,
        }
    }
}

/// Rows as contracts speak of them.
pub open spec fn item_views(items: Seq<SideBarItemMessage>) -> Seq<ItemView> {
    items.map_values(|item: SideBarItemMessage| item@)
}

impl SideBarItemType {
    /// The number by which the interface knows a kind of rows.
    pub open spec fn spec_number(self) -> i32 {
        match self {
            SideBarItemType::Common => 0,
            SideBarItemType::Container => 1,
            SideBarItemType::Divider => 2,
        }
    }

    pub fn number(self) -> (number: i32)
        ensures
            number == self.spec_number(),
            self == SideBarItemType::Common ==> number == 0,
            self == SideBarItemType::Container ==> number == 1,
            self == SideBarItemType::Divider ==> number == 2,
    {
        match self {
            SideBarItemType::Common => 0,
            SideBarItemType::Container => 1,
            SideBarItemType::Divider => 2,
        }
    }
}

/// The path of a playlist.
pub open spec fn playlist_path(id: u64) -> Seq<char> {
    "playlist/"@ + decimal(id as nat)
}

/// A row that cannot be folded away.
pub open spec fn top_item(
    name: Seq<char>,
    route: Seq<char>,
    iconfont: Seq<char>,
    item_type: SideBarItemType,
    index: int,
) -> ItemView {
    ItemView {
        name,
        route,
        iconfont,
        icon: SideBarIcon::Blank,
        father: -1i32,
        grade: 0,
        display: true,
        expand: false,
        item_type,
        index: index as i32,
    }
}

/// The row of a playlist.
pub open spec fn playlist_item(playlist: PlaylistShortInfo, father: int, index: int) -> ItemView {
    ItemView {
        name: playlist.name@,
        route: playlist_path(playlist.id),
        iconfont: ""@,
        icon: SideBarIcon::Music,
        father: father as i32,
        grade: 1,
        display: true,
        expand: false,
        item_type: SideBarItemType::Common,
        index: index as i32,
    }
}

/// The rows of playlists, from a place on.
pub open spec fn playlist_items(
    playlists: Seq<PlaylistShortInfo>,
    father: int,
    first: int,
) -> Seq<ItemView> {
    Seq::new(playlists.len(), |i: int| playlist_item(playlists[i], father, first + i))
}

/// The rows of the sidebar: the start page, the music library, a line, then the playlists that
/// the user made and those that they follow, each below a row that folds them away.
pub open spec fn sidebar_items(
    lovelist_id: u64,
    created: Seq<PlaylistShortInfo>,
    subscribed: Seq<PlaylistShortInfo>,
) -> Seq<ItemView> {
    let followed_row = 4 + created.len() as int;
    seq![
        top_item("主页"@, "home"@, "\u{e710}"@, SideBarItemType::Common, 0),
        top_item(
            "音乐库"@,
            playlist_path(lovelist_id),
            "\u{e6fb}"@,
            SideBarItemType::Common,
            1,
        ),
        top_item(""@, ""@, ""@, SideBarItemType::Divider, 2),
        top_item(
            "创建的歌单"@,
            "create_playlist"@,
            "\u{e6f3}"@,
            SideBarItemType::Container,
            3,
        ),
    ] + playlist_items(created, 3, 4) + seq![
        top_item(
            "关注的歌单"@,
            "subscribe_playlist"@,
            "\u{e6f3}"@,
            SideBarItemType::Container,
            followed_row,
        ),
    ] + playlist_items(subscribed, followed_row, followed_row + 1)
}

/// Whether a cover is that of a playlist.
pub open spec fn is_cover_of(job: CoverJob, playlist: PlaylistShortInfo, row: int) -> bool {
    &&& job.row == row
    &&& job.id == playlist.cover_img_id
    &&& job.url@ == playlist.cover_img_url@
}

/// Whether covers are those of all playlists, in order.
pub open spec fn are_covers_of(
    jobs: Seq<CoverJob>,
    created: Seq<PlaylistShortInfo>,
    subscribed: Seq<PlaylistShortInfo>,
) -> bool {
    &&& jobs.len() == created.len() + subscribed.len()
    &&& forall|i: int|
        0 <= i < created.len() ==> is_cover_of(#[trigger] jobs[i], created[i], 4 + i)
    &&& forall|i: int|
        created.len() <= i < jobs.len() ==> is_cover_of(
            #[trigger] jobs[i],
            subscribed[i - created.len()],
            5 + i,
        )
}

/// Whether a row is shown: unless the row that it can be folded into is there and folded.
pub open spec fn is_visible(items: Seq<ItemView>, row: int) -> bool {
    let father = items[row].father;
    0 <= father < items.len() ==> items[father as int].expand
}

/// The rows that are shown among the first `count`.
pub open spec fn visible_rows(items: Seq<ItemView>, count: int) -> Seq<usize>
    decreases count,
{
    if count <= 0 {
        Seq::empty()
    } else if is_visible(items, count - 1) {
        visible_rows(items, count - 1).push((count - 1) as usize)
    } else {
        visible_rows(items, count - 1)
    }
}

/// The rows once everything is folded away.
pub open spec fn folded(items: Seq<ItemView>) -> Seq<ItemView> {
    items.map_values(
        |item: ItemView|
            if item.item_type == SideBarItemType::Container {
                ItemView { expand: false, ..item }
            } else {
                item
            },
    )
}

/// The rows once a row was opened or folded.
pub open spec fn turned(items: Seq<ItemView>, row: int) -> Seq<ItemView> {
    if row < items.len() {
        items.update(row, ItemView { expand: !items[row].expand, ..items[row] })
    } else {
        items
    }
}

fn push_item(
    items: &mut Vec<SideBarItemMessage>,
    name: String,
    route: String,
    iconfont: &str,
    item_type: SideBarItemType,
)
    ensures
        item_views(final(items)@) == item_views(old(items)@).push(
            top_item(name@, route@, iconfont@, item_type, old(items)@.len() as int),
        ),
{
    let index = items.len() as i32;
    items.push(
        SideBarItemMessage {
            name,
            route,
            iconfont: iconfont.to_string(),
            icon: SideBarIcon::Blank,
            father: -1,
            grade: 0,
            display: true,
            expand: false,
            item_type,
            index,
        },
    );
    assert(item_views(items@) =~= item_views(old(items)@).push(items@.last()@));
}

fn path_of(id: u64) -> (path: String)
    ensures
        path@ == playlist_path(id),
{
    let mut path = "playlist/".to_string();
    append_decimal(&mut path, id);
    path
}

fn push_playlists(
    items: &mut Vec<SideBarItemMessage>,
    jobs: &mut Vec<CoverJob>,
    playlists: &Vec<PlaylistShortInfo>,
    father: usize,
)
    ensures
        item_views(final(items)@) == item_views(old(items)@) + playlist_items(
            playlists@,
            father as int,
            old(items)@.len() as int,
        ),
        final(jobs)@.len() == old(jobs)@.len() + playlists@.len(),
        forall|i: int| 0 <= i < old(jobs)@.len() ==> final(jobs)@[i] == old(jobs)@[i],
        forall|i: int|
            old(jobs)@.len() <= i < final(jobs)@.len() ==> is_cover_of(
                #[trigger] final(jobs)@[i],
                playlists@[i - old(jobs)@.len()],
                old(items)@.len() + i - old(jobs)@.len(),
            ),
{
    let ghost first = items@.len() as int;
    let mut i: usize = 0;
    assert(item_views(items@) =~= item_views(old(items)@) + playlist_items(
        playlists@.take(0),
        father as int,
        first,
    ));
    while i < playlists.len()
        invariant
            i <= playlists.len(),
            first == old(items)@.len(),
            items@.len() == first + i,
            item_views(items@) == item_views(old(items)@) + playlist_items(
                playlists@.take(i as int),
                father as int,
                first,
            ),
            jobs@.len() == old(jobs)@.len() + i,
            forall|j: int| 0 <= j < old(jobs)@.len() ==> jobs@[j] == old(jobs)@[j],
            forall|j: int|
                old(jobs)@.len() <= j < jobs@.len() ==> is_cover_of(
                    #[trigger] jobs@[j],
                    playlists@[j - old(jobs)@.len()],
                    first + j - old(jobs)@.len(),
                ),
        decreases playlists.len() - i,
    {
        let ghost before = item_views(items@);
        let playlist = &playlists[i];
        let row = items.len();
        items.push(
            SideBarItemMessage {
                name: playlist.name.clone(),
                route: path_of(playlist.id),
                iconfont: "".to_string(),
                icon: SideBarIcon::Music,
                father: father as i32,
                grade: 1,
                display: true,
                expand: false,
                item_type: SideBarItemType::Common,
                index: row as i32,
            },
        );
        jobs.push(
            CoverJob { row, id: playlist.cover_img_id, url: playlist.cover_img_url.clone() },
        );
        proof {
            assert(item_views(items@) =~= before.push(items@.last()@));
            assert(items@.last()@ == playlist_item(*playlist, father as int, first + i));
            assert(item_views(items@) =~= item_views(old(items)@) + playlist_items(
                playlists@.take(i + 1),
                father as int,
                first,
            ));
        }
        i += 1;
    }
    assert(playlists@.take(i as int) =~= playlists@);
}

impl App {
    /// The rows of the sidebar, and the covers that they need. `lovelist_id` is the playlist of
    /// the songs that the user likes.
    pub fn sidebar_load(lovelist_id: u64, user_playlists: &UserPlaylists) -> (sidebar: (
        Vec<SideBarItemMessage>,
        Vec<CoverJob>,
    ))
        ensures
            item_views(sidebar.0@) == sidebar_items(
                lovelist_id,
                user_playlists.created@,
                user_playlists.subscribed@,
            ),
            are_covers_of(
                sidebar.1@,
                user_playlists.created@,
                user_playlists.subscribed@,
            ),
    {
        let mut items: Vec<SideBarItemMessage> = Vec::new();
        let mut jobs: Vec<CoverJob> = Vec::new();
        assert(item_views(items@) =~= Seq::empty());
        push_item(
            &mut items,
            "主页".to_string(),
            "home".to_string(),
            "\u{e710}",
            SideBarItemType::Common,
        );
        assert(items@.len() == item_views(items@).len());
        push_item(
            &mut items,
            "音乐库".to_string(),
            path_of(lovelist_id),
            "\u{e6fb}",
            SideBarItemType::Common,
        );
        assert(items@.len() == item_views(items@).len());
        push_item(&mut items, "".to_string(), "".to_string(), "", SideBarItemType::Divider);
        assert(items@.len() == item_views(items@).len());
        let created_row = items.len();
        push_item(
            &mut items,
            "创建的歌单".to_string(),
            "create_playlist".to_string(),
            "\u{e6f3}",
            SideBarItemType::Container,
        );
        assert(items@.len() == item_views(items@).len());
        push_playlists(&mut items, &mut jobs, &user_playlists.created, created_row);
        assert(items@.len() == item_views(items@).len());
        let followed_row = items.len();
        push_item(
            &mut items,
            "关注的歌单".to_string(),
            "subscribe_playlist".to_string(),
            "\u{e6f3}",
            SideBarItemType::Container,
        );
        assert(items@.len() == item_views(items@).len());
        push_playlists(&mut items, &mut jobs, &user_playlists.subscribed, followed_row);
        assert(item_views(items@) =~= sidebar_items(
            lovelist_id,
            user_playlists.created@,
            user_playlists.subscribed@,
        ));
        (items, jobs)
    }

    /// Folds everything away.
    pub fn sidebar_toggle(items: &mut Vec<SideBarItemMessage>)
        ensures
            item_views(final(items)@) == folded(item_views(old(items)@)),
    {
        let mut row: usize = 0;
        while row < items.len()
            invariant
                row <= items@.len(),
                items@.len() == old(items)@.len(),
                forall|k: int|
                    0 <= k < items@.len() ==> #[trigger] items@[k]@ == (if k < row {
                        folded(item_views(old(items)@))[k]
                    } else {
                        old(items)@[k]@
                    }),
            decreases items@.len() - row,
        {
            let ghost before = items@;
            if items[row].item_type == SideBarItemType::Container {
                items[row].expand = false;
            }
            proof {
                let wanted = folded(item_views(old(items)@));
                assert(before[row as int]@ == old(items)@[row as int]@);
                assert(wanted[row as int] =~= items@[row as int]@);
                assert forall|k: int| 0 <= k < items@.len() implies #[trigger] items@[k]@ == (if k
                    < row + 1 {
                    wanted[k]
                } else {
                    old(items)@[k]@
                }) by {
                    assert(k != row ==> items@[k] == before[k]);
                }
            }
            row += 1;
        }
        assert(item_views(items@) =~= folded(item_views(old(items)@)));
    }

    /// Opens a row that is folded, or folds one that is open. Tells whether there is such a row.
    pub fn siderbar_expand(items: &mut Vec<SideBarItemMessage>, index: i32) -> (done: bool)
        requires
            index >= 0,
        ensures
            done == (index < old(items)@.len()),
            item_views(final(items)@) == turned(item_views(old(items)@), index as int),
    {
        let row: usize = index as usize;
        if row >= items.len() {
            return false;
        }
        let expand = items[row].expand;
        items[row].expand = !expand;
        assert(item_views(items@) =~= turned(item_views(old(items)@), index as int));
        true
    }

    /// The rows that are shown.
    pub fn sidebar_show(items: &Vec<SideBarItemMessage>) -> (rows: Vec<usize>)
        ensures
            rows@ == visible_rows(item_views(items@), items@.len() as int),
    {
        let mut rows: Vec<usize> = Vec::new();
        let mut row: usize = 0;
        while row < items.len()
            invariant
                row <= items.len(),
                rows@ == visible_rows(item_views(items@), row as int),
            decreases items.len() - row,
        {
            let father = items[row].father;
            let visible = if father < 0 || father as usize >= items.len() {
                true
            } else {
                items[father as usize].expand
            };
            assert(visible == is_visible(item_views(items@), row as int));
            if visible {
                rows.push(row);
            }
            row += 1;
        }
        rows
    }
}

/// The covers of the sidebar while they arrive.
pub struct SidebarCovers<T> {
    batch: CoverBatch<T>,
    /// How many covers have come or failed, counted up to ten.
    count: u8,
}

impl<T> SidebarCovers<T> {
    /// The covers that wait to be shown.
    pub closed spec fn waiting(self) -> Seq<(usize, T)> {
        self.batch@
    }

    /// How many covers have come or failed since the rows were last shown anew.
    pub closed spec fn since_shown(self) -> int {
        self.count as int
    }

    pub closed spec fn well_formed(self) -> bool {
        self.count < 10
    }

    pub fn new() -> (covers: SidebarCovers<T>)
        ensures
            covers.well_formed(),
            covers.waiting() == Seq::<(usize, T)>::empty(),
            covers.since_shown() == 0,
    {
        SidebarCovers { batch: CoverBatch::new(), count: 0 }
    }

    /// Takes a cover in, if one came. Gives the covers to put in now, and tells whether the rows
    /// are to be shown anew, which they are at every tenth.
    pub fn arrived(&mut self, cover: Option<(usize, T)>) -> (shown: (Vec<(usize, T)>, bool))
        requires
            old(self).well_formed(),
        ensures
            ({
                let waiting = match cover {
                    Some(cover) => old(self).waiting().push(cover),
                    None => old(self).waiting(),
                };
                &&& shown.0@ + final(self).waiting() == waiting
                &&& shown.0@.len() > 0 <==> cover is Some && waiting.len() >= 8
                &&& shown.0@.len() > 0 ==> final(self).waiting().len() == 0
            }),
            shown.1 == (old(self).since_shown() == 9),
            final(self).since_shown() == (if shown.1 {
                0
            } else {
                old(self).since_shown() + 1
            }),
            final(self).well_formed(),
    {
        let ready = self.batch.arrived(cover);
        self.count = (self.count + 1) % 10;
        (ready, self.count == 0)
    }

    /// Gives the covers that still wait, when no more will come.
    pub fn finish(self) -> (shown: Vec<(usize, T)>)
        ensures
            shown@ == self.waiting(),
    {
        self.batch.finish()
    }
}

/// Every row knows its place, and a row that can be folded away can be folded into a row that
/// holds others and cannot be folded away itself.
pub proof fn lemma_sidebar_is_a_tree(
    lovelist_id: u64,
    created: Seq<PlaylistShortInfo>,
    subscribed: Seq<PlaylistShortInfo>,
    row: int,
)
    requires
        5 + created.len() + subscribed.len() <= i32::MAX,
        0 <= row < sidebar_items(lovelist_id, created, subscribed).len(),
    ensures
        sidebar_items(lovelist_id, created, subscribed)[row].index == row,
        ({
            let items = sidebar_items(lovelist_id, created, subscribed);
            let father = items[row].father;
            father == -1 || (0 <= father < row && items[father as int].item_type
                == SideBarItemType::Container && items[father as int].father == -1)
        }),
{
}

/// The row of a playlist leads to that playlist.
pub proof fn lemma_sidebar_leads_to_playlists(
    lovelist_id: u64,
    created: Seq<PlaylistShortInfo>,
    subscribed: Seq<PlaylistShortInfo>,
    i: int,
)
    ensures
        ({
            let items = sidebar_items(lovelist_id, created, subscribed);
            &&& route_of(items[1].route) == Some(Route::Playlist { id: lovelist_id })
            &&& 0 <= i < created.len() ==> route_of(items[4 + i].route) == Some(
                Route::Playlist { id: created[i].id },
            )
            &&& 0 <= i < subscribed.len() ==> route_of(items[5 + created.len() + i].route) == Some(
                Route::Playlist { id: subscribed[i].id },
            )
        }),
{
    lemma_playlist_path_leads_to_it(lovelist_id);
    if 0 <= i < created.len() {
        lemma_playlist_path_leads_to_it(created[i].id);
    }
    if 0 <= i < subscribed.len() {
        lemma_playlist_path_leads_to_it(subscribed[i].id);
    }
}

/// Opening a row and folding it again changes nothing.
pub proof fn lemma_turning_a_row_twice(items: Seq<ItemView>, row: int)
    requires
        0 <= row,
    ensures
        turned(turned(items, row), row) == items,
{
    assert(turned(turned(items, row), row) =~= items);
}

/// Once everything is folded away, exactly the rows that cannot be folded away are shown.
pub proof fn lemma_folding_hides_playlists(
    lovelist_id: u64,
    created: Seq<PlaylistShortInfo>,
    subscribed: Seq<PlaylistShortInfo>,
    row: int,
)
    requires
        5 + created.len() + subscribed.len() <= i32::MAX,
        0 <= row < sidebar_items(lovelist_id, created, subscribed).len(),
    ensures
        is_visible(folded(sidebar_items(lovelist_id, created, subscribed)), row) <==> sidebar_items(
            lovelist_id,
            created,
            subscribed,
        )[row].father == -1,
{
    lemma_sidebar_is_a_tree(lovelist_id, created, subscribed, row);
}

/// The rows of the sidebar in their order: the start page, the music library with the songs that
/// the user likes, a line, the heading of the user's own playlists and these, and the heading of
/// the followed playlists and these. Playlists stand below their heading under their own names.
pub proof fn lemma_rows_of_the_sidebar(
    lovelist_id: u64,
    created: Seq<PlaylistShortInfo>,
    subscribed: Seq<PlaylistShortInfo>,
    i: int,
)
    requires
        5 + created.len() + subscribed.len() <= i32::MAX,
    ensures
        ({
            let items = sidebar_items(lovelist_id, created, subscribed);
            let followed = 4 + created.len() as int;
            &&& items.len() == 5 + created.len() + subscribed.len()
            &&& items[0].name == "主页"@ && items[0].route == "home"@ && items[0].item_type
                == SideBarItemType::Common
            &&& items[1].name == "音乐库"@ && items[1].route == "playlist/"@ + decimal(
                lovelist_id as nat,
            ) && items[1].item_type == SideBarItemType::Common
            &&& items[2].item_type == SideBarItemType::Divider
            &&& items[3].name == "创建的歌单"@ && items[3].item_type == SideBarItemType::Container
            &&& items[followed].name == "关注的歌单"@ && items[followed].item_type
                == SideBarItemType::Container
            &&& items[0].father == -1 && items[1].father == -1 && items[2].father == -1
                && items[3].father == -1 && items[followed].father == -1
            &&& 0 <= i < created.len() ==> {
                &&& items[4 + i].name == created[i].name@
                &&& items[4 + i].route == "playlist/"@ + decimal(created[i].id as nat)
                &&& items[4 + i].father == 3
                &&& items[4 + i].grade == 1
                &&& items[4 + i].item_type == SideBarItemType::Common
                &&& items[4 + i].icon == SideBarIcon::Music
            }
            &&& 0 <= i < subscribed.len() ==> {
                &&& items[followed + 1 + i].name == subscribed[i].name@
                &&& items[followed + 1 + i].route == "playlist/"@ + decimal(
                    subscribed[i].id as nat,
                )
                &&& items[followed + 1 + i].father == followed
                &&& items[followed + 1 + i].grade == 1
                &&& items[followed + 1 + i].item_type == SideBarItemType::Common
                &&& items[followed + 1 + i].icon == SideBarIcon::Music
            }
            &&& 0 <= i < items.len() ==> items[i].display && !items[i].expand
        }),
{
}

/// Every playlist gets its own cover, at the row where it stands.
pub proof fn lemma_covers_of_the_sidebar(
    jobs: Seq<CoverJob>,
    created: Seq<PlaylistShortInfo>,
    subscribed: Seq<PlaylistShortInfo>,
    i: int,
)
    requires
        are_covers_of(jobs, created, subscribed),
    ensures
        jobs.len() == created.len() + subscribed.len(),
        0 <= i < created.len() ==> jobs[i].row == 4 + i && jobs[i].id == created[i].cover_img_id
            && jobs[i].url@ == created[i].cover_img_url@,
        0 <= i < subscribed.len() ==> {
            let job = jobs[created.len() + i];
            &&& job.row == 5 + created.len() + i
            &&& job.id == subscribed[i].cover_img_id
            &&& job.url@ == subscribed[i].cover_img_url@
        },
{
    if 0 <= i < created.len() {
        assert(is_cover_of(jobs[i], created[i], 4 + i));
    }
    if 0 <= i < subscribed.len() {
        let k = created.len() + i;
        assert(is_cover_of(jobs[k], subscribed[k - created.len()], 5 + k));
    }
}

/// Exactly the rows are shown that are not below a folded row, from top to bottom.
pub proof fn lemma_shown_rows(items: Seq<ItemView>, count: int, row: int)
    requires
        0 <= count <= items.len(),
        items.len() <= usize::MAX,
    ensures
        0 <= row < count ==> (visible_rows(items, count).contains(row as usize) <==> (
        items[row].father < 0 || items[row].father >= items.len()
            || items[items[row].father as int].expand)),
        forall|i: int|
            0 <= i < visible_rows(items, count).len() ==> #[trigger] visible_rows(items, count)[i]
                < count,
        forall|i: int, j: int|
            0 <= i < j < visible_rows(items, count).len() ==> #[trigger] visible_rows(
                items,
                count,
            )[i] < #[trigger] visible_rows(items, count)[j],
    decreases count,
{
    if count > 0 {
        lemma_shown_rows(items, count - 1, row);
        let shorter = visible_rows(items, count - 1);
        let longer = visible_rows(items, count);
        if is_visible(items, count - 1) {
            assert(longer == shorter.push((count - 1) as usize));
            assert(longer[shorter.len() as int] == (count - 1) as usize);
            if 0 <= row < count - 1 {
                if shorter.contains(row as usize) {
                    let i = choose|i: int| 0 <= i < shorter.len() && shorter[i] == row as usize;
                    assert(longer[i] == row as usize);
                }
                if longer.contains(row as usize) {
                    let i = choose|i: int| 0 <= i < longer.len() && longer[i] == row as usize;
                    assert(shorter[i] == row as usize);
                }
            }
        } else if row == count - 1 {
            if longer.contains(row as usize) {
                let i = choose|i: int| 0 <= i < longer.len() && longer[i] == row as usize;
                assert(shorter[i] < count - 1);
            }
        }
    }
}

/// Folding everything away folds the rows that hold others and changes nothing else; turning a
/// row turns just that one.
pub proof fn lemma_folding_and_turning(items: Seq<ItemView>, row: int, k: int)
    requires
        0 <= k < items.len(),
        0 <= row,
    ensures
        folded(items).len() == items.len(),
        items[k].item_type == SideBarItemType::Container ==> folded(items)[k] == (ItemView {
            expand: false,
            ..items[k]
        }),
        items[k].item_type != SideBarItemType::Container ==> folded(items)[k] == items[k],
        turned(items, row).len() == items.len(),
        k == row ==> turned(items, row)[k] == (ItemView { expand: !items[k].expand, ..items[k] }),
        k != row ==> turned(items, row)[k] == items[k],
{
}

/// The numbers by which the interface knows the kinds of rows.
pub proof fn lemma_numbers_of_rows()
    ensures
        SideBarItemType::Common.spec_number() == 0,
        SideBarItemType::Container.spec_number() == 1,
        SideBarItemType::Divider.spec_number() == 2,
{
}

} // verus!
