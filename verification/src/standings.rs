//! The league table: what is known of each team, and how it is drawn.

use vstd::prelude::*;
use crate::outside::{
    add_table_row, draw_table, new_table, set_table_header, table_header, table_rows, table_text,
};
use crate::text::{decimal, render_decimal, render_signed, signed_decimal, text_views};

verus! {

/// One team's line of the league table.
#[derive(Debug)]
pub struct TeamStanding {
    pub standing: usize,
    pub team_name: String,
    pub victory_point: u32,
    pub match_count: u32,
    pub won_count: u32,
    pub drawn_count: u32,
    pub lost_count: u32,
    pub goal_point: i32,
    pub lost_point: i32,
    pub point_difference: i32,
}

/// The league table and when it was last brought up to date.
#[derive(Debug)]
pub struct StandingsResponse {
    pub standing: Vec<TeamStanding>,
    pub updated_at: String,
}

/// The headings of the columns.
pub open spec fn header_cells() -> Seq<Seq<char>> {
    seq!["#"@, "Team"@, "P"@, "W"@, "D"@, "L"@, "GF"@, "GA"@, "GD"@, "Pts"@]
}

/// The cells of one team's line: its place, its name, the matches played,
/// won, drawn and lost, its goals in the two goal columns, its goal
/// difference and its points.
pub open spec fn row_cells(team: TeamStanding) -> Seq<Seq<char>> {
    seq![
        decimal(team.standing as nat),
        team.team_name@,
        decimal(team.match_count as nat),
        decimal(team.won_count as nat),
        decimal(team.drawn_count as nat),
        decimal(team.lost_count as nat),
        signed_decimal(team.goal_point as int),
        signed_decimal(team.goal_point as int),
        signed_decimal(team.point_difference as int),
        decimal(team.victory_point as nat),
    ]
}

/// The cells of the lines of all teams, in order.
pub open spec fn table_cells(teams: Seq<TeamStanding>) -> Seq<Seq<Seq<char>>> {
    teams.map_values(|team: TeamStanding| row_cells(team))
}

/// The headings of the columns.
pub fn standings_header() -> (r: Vec<String>)
    ensures
        text_views(r@) == header_cells(),
{
    let mut r: Vec<String> = Vec::new();
    r.push(String::from_str("#"));
    r.push(String::from_str("Team"));
    r.push(String::from_str("P"));
    r.push(String::from_str("W"));
    r.push(String::from_str("D"));
    r.push(String::from_str("L"));
    r.push(String::from_str("GF"));
    r.push(String::from_str("GA"));
    r.push(String::from_str("GD"));
    r.push(String::from_str("Pts"));
    assert(text_views(r@) =~= header_cells());
    r
}

/// The cells of one team's line.
pub fn standing_row(team: &TeamStanding) -> (r: Vec<String>)
    ensures
        text_views(r@) == row_cells(*team),
{
    let mut r: Vec<String> = Vec::new();
    r.push(render_decimal(team.standing as u64));
    r.push(team.team_name.clone());
    r.push(render_decimal(team.match_count as u64));
    r.push(render_decimal(team.won_count as u64));
    r.push(render_decimal(team.drawn_count as u64));
    r.push(render_decimal(team.lost_count as u64));
    r.push(render_signed(team.goal_point as i64));
    r.push(render_signed(team.goal_point as i64));
    r.push(render_signed(team.point_difference as i64));
    r.push(render_decimal(team.victory_point as u64));
    assert(text_views(r@) =~= row_cells(*team));
    r
}

/// The league table drawn as text: the headings, then one line for each
/// team, in the order given.
pub fn format_standings(teams: &Vec<TeamStanding>) -> (r: String)
    ensures
        r@ == table_text(Some(header_cells()), table_cells(teams@)),
{
    let mut table = new_table();
    set_table_header(&mut table, standings_header());
    let mut i: usize = 0;
    assert(table_cells(teams@).take(0) =~= Seq::<Seq<Seq<char>>>::empty());
    while i < teams.len()
        invariant
            i <= teams.len(),
            table_header(table) == Some(header_cells()),
            table_rows(table) == table_cells(teams@).take(i as int),
        decreases teams.len() - i,
    {
        add_table_row(&mut table, standing_row(&teams[i]));
        proof {
            assert(table_cells(teams@).take(i as int + 1) =~= table_cells(teams@).take(
                i as int,
            ).push(row_cells(teams[i as int])));
        }
        i += 1;
    }
    assert(table_cells(teams@).take(teams.len() as int) =~= table_cells(teams@));
    draw_table(&table)
}

} // verus!
