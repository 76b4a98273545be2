use vstd::prelude::*;

use crate::error::ExtractError;
use crate::period::{period_of, resolve_period};
use crate::roster::{extract_persons, roster_of, Person, ProfileColumn};
use crate::schedule::{extract_schedule, schedule_of, MusicTable, TableGroup};

verus! {

/// The one record that a run produces and sends out.
#[derive(Clone, Debug)]
pub struct CampaignPayload {
    /// The campaign window, `YYYYMMDD-YYYYMMDD`.
    pub period: String,
    pub persons: Vec<Person>,
    pub musics: Vec<MusicTable>,
}

pub type PersonView = (Seq<char>, Seq<char>, Seq<char>);

pub type TrackView = (Seq<char>, Seq<char>);

pub type MusicTableView = (crate::schedule::TimeSlot, Seq<TrackView>);

pub type PayloadView = (Seq<char>, Seq<PersonView>, Seq<MusicTableView>);

pub type LayoutView = Seq<Seq<Seq<Seq<Seq<char>>>>>;

impl View for CampaignPayload {
    type V = PayloadView;

    open spec fn view(&self) -> PayloadView {
        (
            self.period@,
            self.persons@.map_values(|p: Person| p@),
            self.musics@.map_values(|t: MusicTable| t@),
        )
    }
}

/// Puts the three parts of a run together, unchanged.
pub fn assemble(period: String, persons: Vec<Person>, musics: Vec<MusicTable>) -> (r:
    CampaignPayload)
    ensures
        r.period@ == period@,
        r.persons@ == persons@,
        r.musics@ == musics@,
{
    CampaignPayload { period, persons, musics }
}

/// The window step: the heading's text, where the heading was found.
pub open spec fn period_step(heading: Option<Seq<char>>, year: nat) -> Result<
    Seq<char>,
    ExtractError,
> {
    match heading {
        None => Err(ExtractError::ElementNotFound),
        Some(h) => period_of(h, year),
    }
}

/// The roster step: the profile columns, where the list was found.
pub open spec fn persons_step(columns: Option<Seq<ProfileColumn>>) -> Result<
    Seq<PersonView>,
    ExtractError,
> {
    match columns {
        None => Err(ExtractError::ElementNotFound),
        Some(c) => roster_of(c),
    }
}

/// The schedule step: the container's groups, where the container was found.
pub open spec fn schedule_step(groups: Option<LayoutView>) -> Result<
    Seq<MusicTableView>,
    ExtractError,
> {
    match groups {
        None => Err(ExtractError::ElementNotFound),
        Some(g) => schedule_of(g),
    }
}

/// The record of a run, or the error of its first failing step.
pub open spec fn payload_of(
    heading: Option<Seq<char>>,
    year: nat,
    columns: Option<Seq<ProfileColumn>>,
    groups: Option<LayoutView>,
) -> Result<PayloadView, ExtractError> {
    match (period_step(heading, year), persons_step(columns), schedule_step(groups)) {
        (Ok(p), Ok(ps), Ok(ms)) => Ok((p, ps, ms)),
        (Err(e), _, _) => Err(e),
        (_, Err(e), _) => Err(e),
        (_, _, Err(e)) => Err(e),
    }
}

pub open spec fn heading_view(h: Option<String>) -> Option<Seq<char>> {
    match h {
        Some(s) => Some(s@),
        None => None,
    }
}

pub open spec fn columns_view(c: Option<Vec<ProfileColumn>>) -> Option<Seq<ProfileColumn>> {
    match c {
        Some(v) => Some(v@),
        None => None,
    }
}

pub open spec fn layout_view(g: Option<Vec<TableGroup>>) -> Option<LayoutView> {
    match g {
        Some(v) => Some(v.deep_view()),
        None => None,
    }
}

/// Runs the three extraction steps in order on what was read off the page and
/// assembles their results. `None` stands for a part of the page that was not
/// found. The first failing step ends the run, and then no record is made.
pub fn build_payload(
    heading: &Option<String>,
    year: u32,
    columns: &Option<Vec<ProfileColumn>>,
    groups: &Option<Vec<TableGroup>>,
) -> (r: Result<CampaignPayload, ExtractError>)
    ensures
        match (
            r,
            payload_of(heading_view(*heading), year as nat, columns_view(*columns), layout_view(*groups)),
        ) {
            (Ok(p), Ok(q)) => p@ == q,
            (Err(e), Err(f)) => e == f,
            _ => false,
        },
{
    let period = match heading {
        None => {
            return Err(ExtractError::ElementNotFound);
        },
        Some(h) => match resolve_period(h.as_str(), year) {
            Ok(p) => p,
            Err(e) => {
                return Err(e);
            },
        },
    };
    let persons = match columns {
        None => {
            return Err(ExtractError::ElementNotFound);
        },
        Some(c) => match extract_persons(c) {
            Ok(p) => p,
            Err(e) => {
                return Err(e);
            },
        },
    };
    let musics = match groups {
        None => {
            return Err(ExtractError::ElementNotFound);
        },
        Some(g) => match extract_schedule(g) {
            Ok(m) => m,
            Err(e) => {
                return Err(e);
            },
        },
    };
    let r = assemble(period, persons, musics);
    Ok(r)
}

/// A record is made only when every step succeeds: where the heading, the
/// profile list or the schedule container is missing, or any step fails, no
/// record comes out.
pub proof fn lemma_all_or_nothing(
    heading: Option<Seq<char>>,
    year: nat,
    columns: Option<Seq<ProfileColumn>>,
    groups: Option<LayoutView>,
)
    ensures
        payload_of(heading, year, columns, groups) is Ok <==> (period_step(heading, year) is Ok
            && persons_step(columns) is Ok && schedule_step(groups) is Ok),
        heading is None || columns is None || groups is None ==> payload_of(
            heading,
            year,
            columns,
            groups,
        ) is Err,
{
}

} // verus!
