use vstd::prelude::*;

use crate::error::ExtractError;

verus! {

/// The text of each cell of one table row, in document order.
pub type CellRow = Vec<String>;

/// The body rows of one table, in document order.
pub type RawTable = Vec<CellRow>;

/// The tables of one sibling group of the schedule container, in document order.
pub type TableGroup = Vec<RawTable>;

/// One time slot of the music schedule.
#[derive(Clone, Copy, Debug, PartialEq, Eq, Structural)]
pub enum TimeSlot {
    AllTime,
    Morning,
    Daytime,
    Night,
    Midnight,
}

/// Number of time slots, and so of tables in a schedule.
pub const SLOT_COUNT: usize = 5;

/// The slots in the order in which a schedule lists them.
pub open spec fn slot_at(i: int) -> TimeSlot {
    if i == 0 {
        TimeSlot::AllTime
    } else if i == 1 {
        TimeSlot::Morning
    } else if i == 2 {
        TimeSlot::Daytime
    } else if i == 3 {
        TimeSlot::Night
    } else {
        TimeSlot::Midnight
    }
}

/// Where each slot's table stands: the index of its group in the container and
/// the index of the table within that group. The page gives the tables no
/// names, so this table of positions is the one place that knows the layout.
pub open spec fn slot_location(slot: TimeSlot) -> (int, int) {
    match slot {
        TimeSlot::AllTime => (1, 0),
        TimeSlot::Morning => (2, 0),
        TimeSlot::Daytime => (2, 1),
        TimeSlot::Night => (3, 0),
        TimeSlot::Midnight => (3, 1),
    }
}

impl TimeSlot {
    /// The slot at position `i` of a schedule.
    pub fn at(i: usize) -> (r: TimeSlot)
        requires
            i < SLOT_COUNT,
        ensures
            r == slot_at(i as int),
    {
        if i == 0 {
            TimeSlot::AllTime
        } else if i == 1 {
            TimeSlot::Morning
        } else if i == 2 {
            TimeSlot::Daytime
        } else if i == 3 {
            TimeSlot::Night
        } else {
            TimeSlot::Midnight
        }
    }

    /// Group index and table index of this slot's table.
    pub fn location(self) -> (r: (usize, usize))
        ensures
            r.0 as int == slot_location(self).0,
            r.1 as int == slot_location(self).1,
    {
        match self {
            TimeSlot::AllTime => (1, 0),
            TimeSlot::Morning => (2, 0),
            TimeSlot::Daytime => (2, 1),
            TimeSlot::Night => (3, 0),
            TimeSlot::Midnight => (3, 1),
        }
    }

    /// The slot's name as it is sent out.
    pub fn name(self) -> (r: String)
        ensures
            r@ == slot_name(self),
    {
        match self {
            TimeSlot::AllTime => String::from_str("all_time"),
            TimeSlot::Morning => String::from_str("morning"),
            TimeSlot::Daytime => String::from_str("daytime"),
            TimeSlot::Night => String::from_str("night"),
            TimeSlot::Midnight => String::from_str("midnight"),
        }
    }
}

pub open spec fn slot_name(slot: TimeSlot) -> Seq<char> {
    match slot {
        TimeSlot::AllTime => "all_time"@,
        TimeSlot::Morning => "morning"@,
        TimeSlot::Daytime => "daytime"@,
        TimeSlot::Night => "night"@,
        TimeSlot::Midnight => "midnight"@,
    }
}

/// One track of a schedule.
#[derive(Clone, Debug)]
pub struct Music {
    pub title: String,
    pub artist: String,
}

impl View for Music {
    type V = (Seq<char>, Seq<char>);

    open spec fn view(&self) -> (Seq<char>, Seq<char>) {
        (self.title@, self.artist@)
    }
}

/// The tracks of one time slot, in the page's row order.
#[derive(Clone, Debug)]
pub struct MusicTable {
    pub time: TimeSlot,
    pub musics: Vec<Music>,
}

impl View for MusicTable {
    type V = (TimeSlot, Seq<(Seq<char>, Seq<char>)>);

    open spec fn view(&self) -> (TimeSlot, Seq<(Seq<char>, Seq<char>)>) {
        (self.time, self.musics@.map_values(|m: Music| m@))
    }
}

/// Every row has a title cell and an artist cell.
pub open spec fn rows_complete(rows: Seq<Seq<Seq<char>>>) -> bool {
    forall|k: int| 0 <= k < rows.len() ==> #[trigger] rows[k].len() >= 2
}

/// The tracks that a table's rows hold: title from the first cell, artist from
/// the second.
pub open spec fn tracks_of(rows: Seq<Seq<Seq<char>>>) -> Seq<(Seq<char>, Seq<char>)> {
    Seq::new(rows.len(), |k: int| (rows[k][0], rows[k][1]))
}

/// The layout holds a table at the position of `slot`.
pub open spec fn table_present(groups: Seq<Seq<Seq<Seq<Seq<char>>>>>, slot: TimeSlot) -> bool {
    let (g, t) = slot_location(slot);
    g < groups.len() && t < groups[g].len()
}

/// The rows of the table at the position of `slot`.
pub open spec fn slot_rows(groups: Seq<Seq<Seq<Seq<Seq<char>>>>>, slot: TimeSlot) -> Seq<
    Seq<Seq<char>>,
> {
    let (g, t) = slot_location(slot);
    groups[g][t]
}

/// The table of `slot` is there and each of its rows has two cells.
pub open spec fn slot_readable(groups: Seq<Seq<Seq<Seq<Seq<char>>>>>, slot: TimeSlot) -> bool {
    table_present(groups, slot) && rows_complete(slot_rows(groups, slot))
}

/// The layout yields a schedule: every slot's table is there and readable.
pub open spec fn schedule_readable(groups: Seq<Seq<Seq<Seq<Seq<char>>>>>) -> bool {
    slot_readable(groups, TimeSlot::AllTime) && slot_readable(groups, TimeSlot::Morning)
        && slot_readable(groups, TimeSlot::Daytime) && slot_readable(groups, TimeSlot::Night)
        && slot_readable(groups, TimeSlot::Midnight)
}

/// The schedule that a layout yields, one table per slot in slot order.
pub open spec fn schedule_of(groups: Seq<Seq<Seq<Seq<Seq<char>>>>>) -> Result<
    Seq<(TimeSlot, Seq<(Seq<char>, Seq<char>)>)>,
    ExtractError,
> {
    if schedule_readable(groups) {
        Ok(
            Seq::new(
                SLOT_COUNT as nat,
                |i: int| (slot_at(i), tracks_of(slot_rows(groups, slot_at(i)))),
            ),
        )
    } else {
        Err(ExtractError::StructuralMismatch)
    }
}

/// Reads the tracks of one table.
pub fn read_table(rows: &RawTable) -> (r: Result<Vec<Music>, ExtractError>)
    ensures
        match r {
            Ok(v) => rows_complete(rows.deep_view()) && v@.map_values(|m: Music| m@)
                == tracks_of(rows.deep_view()),
            Err(e) => !rows_complete(rows.deep_view()) && e == ExtractError::StructuralMismatch,
        },
{
    let mut out: Vec<Music> = Vec::new();
    let mut k: usize = 0;
    while k < rows.len()
        invariant
            k <= rows@.len(),
            out@.len() == k,
            forall|j: int| 0 <= j < k ==> #[trigger] rows.deep_view()[j].len() >= 2,
            forall|j: int|
                0 <= j < k ==> #[trigger] out@[j]@ == (
                    rows.deep_view()[j][0],
                    rows.deep_view()[j][1],
                ),
        decreases rows@.len() - k,
    {
        let row = &rows[k];
        if row.len() < 2 {
            assert(rows.deep_view()[k as int].len() < 2);
            return Err(ExtractError::StructuralMismatch);
        }
        let title = row[0].clone();
        let artist = row[1].clone();
        out.push(Music { title, artist });
        k = k + 1;
    }
    assert(out@.map_values(|m: Music| m@) =~= tracks_of(rows.deep_view()));
    Ok(out)
}

/// Reads the five time-slot tables out of the schedule container's groups.
/// Slot identity comes from position alone (see `slot_location`).
pub fn extract_schedule(groups: &Vec<TableGroup>) -> (r: Result<Vec<MusicTable>, ExtractError>)
    ensures
        match (r, schedule_of(groups.deep_view())) {
            (Ok(v), Ok(s)) => v@.map_values(|t: MusicTable| t@) == s,
            (Err(e), Err(f)) => e == f,
            _ => false,
        },
        r is Ok ==> r->Ok_0@.len() == SLOT_COUNT,
        r is Ok ==> forall|i: int|
            0 <= i < SLOT_COUNT ==> (#[trigger] r->Ok_0@[i]).time == slot_at(i)
                && r->Ok_0@[i].musics@.len() == slot_rows(groups.deep_view(), slot_at(i)).len(),
{
    let ghost gv = groups.deep_view();
    let mut out: Vec<MusicTable> = Vec::new();
    let mut i: usize = 0;
    while i < SLOT_COUNT
        invariant
            i <= SLOT_COUNT,
            gv == groups.deep_view(),
            out@.len() == i,
            forall|j: int| 0 <= j < i ==> #[trigger] slot_readable(gv, slot_at(j)),
            forall|j: int|
                0 <= j < i ==> #[trigger] out@[j]@ == (
                    slot_at(j),
                    tracks_of(slot_rows(gv, slot_at(j))),
                ),
        decreases SLOT_COUNT - i,
    {
        let slot = TimeSlot::at(i);
        let (g, t) = slot.location();
        if g >= groups.len() || t >= groups[g].len() {
            assert(!slot_readable(gv, slot_at(i as int)));
            return Err(ExtractError::StructuralMismatch);
        }
        assert(groups[g as int][t as int].deep_view() == slot_rows(gv, slot));
        match read_table(&groups[g][t]) {
            Ok(musics) => {
                out.push(MusicTable { time: slot, musics });
            },
            Err(e) => {
                assert(!slot_readable(gv, slot_at(i as int)));
                return Err(e);
            },
        }
        i = i + 1;
    }
    assert(slot_readable(gv, slot_at(0)));
    assert(slot_readable(gv, slot_at(1)));
    assert(slot_readable(gv, slot_at(2)));
    assert(slot_readable(gv, slot_at(3)));
    assert(slot_readable(gv, slot_at(4)));
    assert(out@.map_values(|t: MusicTable| t@) =~= schedule_of(gv)->Ok_0);
    assert forall|i: int| 0 <= i < SLOT_COUNT implies (#[trigger] out@[i]).time == slot_at(i)
        && out@[i].musics@.len() == slot_rows(gv, slot_at(i)).len() by {
        assert(out@[i]@.1.len() == out@[i].musics@.len());
    };
    Ok(out)
}

} // verus!
