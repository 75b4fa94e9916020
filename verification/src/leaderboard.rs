//! The leaderboard: teams, already ranked by the database, laid out four to a page.

use vstd::prelude::*;
use crate::flow::points_or_zero;
use crate::model::{records_model, Record, RecordModel};
use crate::text::{render_signed, signed_decimal};

verus! {

/// The consecutive pieces of `s` of `n` items each, the last one shorter
/// where `n` does not divide the length.
pub open spec fn chunks<T>(s: Seq<T>, n: nat) -> Seq<Seq<T>>
    decreases s.len(),
{
    if s.len() == 0 || n == 0 {
        seq![]
    } else if s.len() <= n {
        seq![s]
    } else {
        seq![s.take(n as int)] + chunks(s.skip(n as int), n)
    }
}

/// The items of a sequence of sequences, one after the other.
pub open spec fn flatten<T>(ss: Seq<Seq<T>>) -> Seq<T>
    decreases ss.len(),
{
    if ss.len() == 0 {
        seq![]
    } else {
        ss[0] + flatten(ss.drop_first())
    }
}

/// The models of a sequence of vectors.
pub open spec fn vecs_model<T>(v: Seq<Vec<T>>) -> Seq<Seq<T>> {
    v.map_values(|c: Vec<T>| c@)
}

/// Splits `vec` into consecutive parts of `n` items, the last one shorter
/// where `n` does not divide its length. The items are moved, not cloned.
pub fn divide_into_parts<T: Clone>(vec: Vec<T>, n: usize) -> (parts: Vec<Vec<T>>)
    requires
        n > 0,
    ensures
        vecs_model(parts@) == chunks(vec@, n as nat),
{
    let ghost whole = vec@;
    let mut parts: Vec<Vec<T>> = Vec::new();
    let mut rest = vec;
    while rest.len() > 0
        invariant
            n > 0,
            chunks(whole, n as nat) == vecs_model(parts@) + chunks(rest@, n as nat),
        decreases rest.len(),
    {
        let ghost before = vecs_model(parts@);
        if rest.len() <= n {
            let ghost last = rest@;
            parts.push(rest);
            rest = Vec::new();
            proof {
                assert(vecs_model(parts@) =~= before + seq![last]);
                assert(chunks(rest@, n as nat) =~= Seq::<Seq<T>>::empty());
                assert(vecs_model(parts@) + chunks(rest@, n as nat) =~= before + seq![last]);
            }
        } else {
            let ghost old_rest = rest@;
            let tail = rest.split_off(n);
            parts.push(rest);
            rest = tail;
            proof {
                assert(old_rest.take(n as int) =~= old_rest.subrange(0, n as int));
                assert(old_rest.skip(n as int) =~= rest@);
                assert(vecs_model(parts@) =~= before + seq![old_rest.take(n as int)]);
                assert(before + chunks(old_rest, n as nat) =~= vecs_model(parts@) + chunks(
                    rest@,
                    n as nat,
                ));
            }
        }
    }
    proof {
        assert(vecs_model(parts@) + chunks(rest@, n as nat) =~= vecs_model(parts@));
    }
    parts
}

/// The number of teams on a page of the leaderboard.
pub const TEAMS_PER_PAGE: usize = 4;

/// The lines that show a team on the leaderboard.
pub open spec fn standing(team: RecordModel) -> Seq<char> {
    "Team Name: "@ + (match team.name {
        Ok(n) => n,
        Err(_) => "NIL"@,
    }) + "\n**Points** - "@ + signed_decimal(points_or_zero(team) as int) + "\n\n"@
}

/// A page of the leaderboard: the standings of its teams, in order.
pub open spec fn page_text(teams: Seq<RecordModel>) -> Seq<char>
    decreases teams.len(),
{
    if teams.len() == 0 {
        seq![]
    } else {
        page_text(teams.drop_last()) + standing(teams.last())
    }
}

/// The pages of the leaderboard for teams in ranking order.
pub open spec fn leaderboard_pages(teams: Seq<RecordModel>) -> Seq<Seq<char>> {
    chunks(teams, TEAMS_PER_PAGE as nat).map_values(|c: Seq<RecordModel>| page_text(c))
}

fn show_standing(team: &Record) -> (s: String)
    ensures
        s@ == standing(team@),
{
    let name = match &team.name {
        Ok(n) => n.clone(),
        Err(_) => String::from_str("NIL"),
    };
    let points = match team.points {
        Ok(p) => p,
        Err(_) => 0,
    };
    let s = String::from_str("Team Name: ").concat(name.as_str()).concat(
        "\n**Points** - ",
    ).concat(render_signed(points as i64).as_str()).concat("\n\n");
    proof {
        assert(s@ =~= standing(team@));
    }
    s
}

fn show_page(teams: &Vec<Record>) -> (s: String)
    ensures
        s@ == page_text(records_model(teams@)),
{
    let mut s = String::new();
    let mut i: usize = 0;
    while i < teams.len()
        invariant
            0 <= i <= teams.len(),
            s@ == page_text(records_model(teams@).take(i as int)),
        decreases teams.len() - i,
    {
        let line = show_standing(&teams[i]);
        s.append(line.as_str());
        proof {
            let m = records_model(teams@);
            assert(m.take(i + 1).drop_last() =~= m.take(i as int));
        }
        i = i + 1;
    }
    proof {
        assert(records_model(teams@).take(i as int) =~= records_model(teams@));
    }
    s
}

/// Lays out the leaderboard: `teams` in the order the database ranked them
/// (most points first, then earliest progress), four to a page.
pub fn leaderboard(teams: Vec<Record>) -> (pages: Vec<String>)
    ensures
        pages@.map_values(|p: String| p@) == leaderboard_pages(records_model(teams@)),
{
    let ghost ranked = teams@;
    let parts = divide_into_parts(teams, TEAMS_PER_PAGE);
    let mut pages: Vec<String> = Vec::new();
    let mut i: usize = 0;
    proof {
        lemma_chunks_map(ranked, TEAMS_PER_PAGE as nat);
    }
    while i < parts.len()
        invariant
            0 <= i <= parts.len(),
            pages@.len() == i,
            vecs_model(parts@) == chunks(ranked, TEAMS_PER_PAGE as nat),
            chunks(records_model(ranked), TEAMS_PER_PAGE as nat) == chunks(
                ranked,
                TEAMS_PER_PAGE as nat,
            ).map_values(|c: Seq<Record>| records_model(c)),
            pages@.map_values(|p: String| p@) == leaderboard_pages(records_model(ranked)).take(
                i as int,
            ),
        decreases parts.len() - i,
    {
        let page = show_page(&parts[i]);
        let ghost old_pages = pages@;
        pages.push(page);
        proof {
            let want = leaderboard_pages(records_model(ranked));
            let pieces = chunks(ranked, TEAMS_PER_PAGE as nat);
            assert(vecs_model(parts@)[i as int] == parts@[i as int]@);
            assert(pieces[i as int] == parts@[i as int]@);
            assert(chunks(records_model(ranked), TEAMS_PER_PAGE as nat)[i as int] == records_model(
                parts@[i as int]@,
            ));
            assert(want[i as int] == page@);
            assert forall|j: int| 0 <= j < i implies #[trigger] pages@[j]@ == want[j] by {
                assert(pages@[j] == old_pages[j]);
                assert(old_pages.map_values(|p: String| p@)[j] == want.take(i as int)[j]);
            }
            assert(pages@.map_values(|p: String| p@) =~= want.take(i + 1));
        }
        i = i + 1;
    }
    proof {
        let want = leaderboard_pages(records_model(ranked));
        assert(want.len() == parts@.len());
        assert(pages@.map_values(|p: String| p@) =~= want);
    }
    pages
}

/// Splitting commutes with taking models of the items.
proof fn lemma_chunks_map(s: Seq<Record>, n: nat)
    requires
        n > 0,
    ensures
        chunks(records_model(s), n) == chunks(s, n).map_values(|c: Seq<Record>| records_model(c)),
    decreases s.len(),
{
    if s.len() == 0 {
        assert(chunks(s, n).map_values(|c: Seq<Record>| records_model(c)) =~= seq![]);
    } else if s.len() <= n {
        assert(chunks(s, n).map_values(|c: Seq<Record>| records_model(c)) =~= seq![
            records_model(s),
        ]);
    } else {
        lemma_chunks_map(s.skip(n as int), n);
        assert(records_model(s).take(n as int) =~= records_model(s.take(n as int)));
        assert(records_model(s).skip(n as int) =~= records_model(s.skip(n as int)));
        assert(chunks(s, n).map_values(|c: Seq<Record>| records_model(c)) =~= seq![
            records_model(s.take(n as int)),
        ] + chunks(s.skip(n as int), n).map_values(|c: Seq<Record>| records_model(c)));
    }
}

} // verus!
