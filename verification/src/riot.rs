//! The match-selection pipeline: deduplicating candidate match identifiers
//! across tracked players, filtering fetched matches by the eligibility
//! rules, computing victory from team data, and picking the most recent
//! eligible match. The raw match data arrives as plain values fetched from
//! the game-statistics API by the surrounding application.

use vstd::prelude::*;

use crate::config::User;
use crate::text::dec_rep;
use crate::text::u32_to_string;

verus! {

/// The two game modes eligible for downstream processing.
#[derive(Clone, Copy, PartialEq, Eq, Structural, Debug)]
pub enum GameMode {
    Classic,
    Aram,
}

/// One entry of a fetched match's full participant roster, as plain values.
pub struct RawParticipant {
    pub summoner_name: String,
    pub champion_name: String,
    pub team_position: String,
    pub team_id: u16,
    pub kills: u32,
    pub deaths: u32,
    pub assists: u32,
    pub gold_earned: u32,
    pub total_minions_killed: u32,
    pub total_damage_dealt_to_champions: u32,
    pub vision_score: u32,
}

/// One team record of a fetched match.
pub struct RawTeam {
    pub team_id: u16,
    pub win: bool,
}

/// A fetched match, before eligibility filtering.
pub struct RawMatch {
    pub match_id: String,
    pub game_mode: String,
    pub game_start_timestamp: i64,
    pub participants: Vec<RawParticipant>,
    pub teams: Vec<RawTeam>,
}

/// One tracked player's per-match statistics.
pub struct ParticipantData {
    pub summoner_name: String,
    pub discord_name: String,
    pub champion_name: String,
    pub team_position: String,
    pub kills: u32,
    pub deaths: u32,
    pub assists: u32,
    pub gold_earned: u32,
    pub total_minions_killed: u32,
    pub total_damage_dealt_to_champions: u32,
    pub vision_score: u32,
}

/// One qualifying game record: eligible mode, at least two tracked
/// participants, victory resolved from the tracked players' team.
pub struct Match {
    pub id: String,
    /// Start timestamp as fetched; selection orders by this value.
    pub time: i64,
    /// The start time rendered as local date and time.
    pub time_display: String,
    pub game_mode: GameMode,
    pub is_victory: bool,
    /// Tracked players only, in roster order.
    pub participants: Vec<ParticipantData>,
}

/// Retrieval failed for one match or for the whole operation.
#[derive(Debug)]
pub struct RetrievalError {
    pub message: String,
}

// ---------------------------------------------------------------------------
// Deduplication of candidate match identifiers
// ---------------------------------------------------------------------------

/// Whether `ids` holds a string whose characters are `id`.
pub open spec fn contains_id(ids: Seq<String>, id: Seq<char>) -> bool {
    exists|i: int| 0 <= i < ids.len() && ids[i]@ == id
}

/// Whether any per-player list holds a string whose characters are `id`.
pub open spec fn appears(lists: Seq<Vec<String>>, id: Seq<char>) -> bool {
    exists|k: int| 0 <= k < lists.len() && contains_id(#[trigger] lists[k]@, id)
}

/// Pushing one string onto a list adds exactly its characters to what the
/// list contains.
proof fn lemma_contains_id_push(ids: Seq<String>, x: String)
    ensures
        forall|id: Seq<char>| #[trigger] contains_id(ids.push(x), id) == (contains_id(ids, id)
            || id == x@),
{
    assert forall|id: Seq<char>| #[trigger] contains_id(ids.push(x), id) == (contains_id(ids, id)
        || id == x@) by {
        if contains_id(ids.push(x), id) {
            let i = choose|i: int| 0 <= i < ids.push(x).len() && ids.push(x)[i]@ == id;
            if i < ids.len() {
                assert(ids[i]@ == id);
            }
        }
        if contains_id(ids, id) {
            let i = choose|i: int| 0 <= i < ids.len() && ids[i]@ == id;
            assert(ids.push(x)[i]@ == id);
        }
        assert(ids.push(x)[ids.len() as int]@ == x@);
    }
}

fn vec_contains_id(ids: &Vec<String>, id: &String) -> (r: bool)
    ensures
        r == contains_id(ids@, id@),
{
    let mut i: usize = 0;
    while i < ids.len()
        invariant
            0 <= i <= ids@.len(),
            forall|k: int| 0 <= k < i ==> ids@[k]@ != id@,
        decreases ids@.len() - i,
    {
        if ids[i] == *id {
            return true;
        }
        i += 1;
    }
    false
}

/// Unions the per-player candidate lists into one list in which each
/// identifier occurs exactly once, however many players reported it.
pub fn dedup_match_ids(lists: Vec<Vec<String>>) -> (r: Vec<String>)
    ensures
        forall|i: int, j: int| 0 <= i < j < r@.len() ==> r@[i]@ != r@[j]@,
        forall|id: Seq<char>| #[trigger] contains_id(r@, id) == appears(lists@, id),
{
    let mut r: Vec<String> = Vec::new();
    let mut k: usize = 0;
    while k < lists.len()
        invariant
            0 <= k <= lists@.len(),
            forall|i: int, j: int| 0 <= i < j < r@.len() ==> r@[i]@ != r@[j]@,
            forall|id: Seq<char>| #[trigger] contains_id(r@, id) == appears(
                lists@.take(k as int),
                id,
            ),
        decreases lists@.len() - k,
    {
        let ghost prefix = lists@.take(k as int);
        let list = &lists[k];
        let mut l: usize = 0;
        while l < list.len()
            invariant
                0 <= l <= list@.len(),
                list == &lists@[k as int],
                0 <= k < lists@.len(),
                prefix == lists@.take(k as int),
                forall|i: int, j: int| 0 <= i < j < r@.len() ==> r@[i]@ != r@[j]@,
                forall|id: Seq<char>| #[trigger] contains_id(r@, id) == (appears(prefix, id)
                    || contains_id(list@.take(l as int), id)),
            decreases list@.len() - l,
        {
            proof {
                lemma_contains_id_push(r@, list@[l as int]);
                lemma_contains_id_push(list@.take(l as int), list@[l as int]);
                assert(list@.take(l as int + 1) =~= list@.take(l as int).push(list@[l as int]));
            }
            if !vec_contains_id(&r, &list[l]) {
                r.push(list[l].clone());
            }
            l += 1;
        }
        proof {
            assert(list@.take(list@.len() as int) =~= list@);
            assert forall|id: Seq<char>| #[trigger] contains_id(r@, id) == appears(
                lists@.take(k as int + 1),
                id,
            ) by {
                if appears(lists@.take(k as int + 1), id) {
                    let x = choose|x: int|
                        0 <= x < lists@.take(k as int + 1).len() && contains_id(
                            #[trigger] lists@.take(k as int + 1)[x]@,
                            id,
                        );
                    if x < k {
                        assert(contains_id(lists@.take(k as int)[x]@, id));
                    } else {
                        assert(lists@.take(k as int + 1)[x] == lists@[k as int]);
                    }
                }
                if appears(lists@.take(k as int), id) {
                    let x = choose|x: int|
                        0 <= x < lists@.take(k as int).len() && contains_id(
                            #[trigger] lists@.take(k as int)[x]@,
                            id,
                        );
                    assert(contains_id(lists@.take(k as int + 1)[x]@, id));
                }
                if contains_id(list@, id) {
                    assert(lists@.take(k as int + 1)[k as int] == lists@[k as int]);
                    assert(appears(lists@.take(k as int + 1), id));
                }
            }
        }
        k += 1;
    }
    proof {
        assert(lists@.take(lists@.len() as int) =~= lists@);
    }
    r
}

// ---------------------------------------------------------------------------
// Tracked players and eligibility
// ---------------------------------------------------------------------------

/// Whether a roster name belongs to a tracked player: the first user with
/// that summoner name decides.
pub open spec fn is_tracked(name: Seq<char>, users: Seq<User>) -> bool
    decreases users.len(),
{
    if users.len() == 0 {
        false
    } else if users.first().summoner_name@ == name {
        true
    } else {
        is_tracked(name, users.drop_first())
    }
}

/// The chat display name of the first tracked player with this summoner name.
pub open spec fn discord_of(name: Seq<char>, users: Seq<User>) -> Seq<char>
    decreases users.len(),
{
    if users.len() == 0 {
        Seq::empty()
    } else if users.first().summoner_name@ == name {
        users.first().discord_name@
    } else {
        discord_of(name, users.drop_first())
    }
}

/// The roster entries that belong to tracked players, in roster order.
pub open spec fn tracked_of(roster: Seq<RawParticipant>, users: Seq<User>) -> Seq<RawParticipant>
    decreases roster.len(),
{
    if roster.len() == 0 {
        Seq::empty()
    } else if is_tracked(roster.last().summoner_name@, users) {
        tracked_of(roster.drop_last(), users) + seq![roster.last()]
    } else {
        tracked_of(roster.drop_last(), users)
    }
}

/// A match is eligible when its mode is CLASSIC or ARAM and at least two
/// tracked players took part.
pub open spec fn eligible_mode(mode: Seq<char>) -> bool {
    mode == "CLASSIC"@ || mode == "ARAM"@
}

pub open spec fn match_eligible(raw: RawMatch, users: Seq<User>) -> bool {
    eligible_mode(raw.game_mode@) && tracked_of(raw.participants@, users).len() >= 2
}

/// Looks a summoner name up in the tracked players.
pub fn find_discord_name(users: &Vec<User>, name: &String) -> (r: Option<String>)
    ensures
        r is Some <==> is_tracked(name@, users@),
        r matches Some(d) ==> d@ == discord_of(name@, users@),
{
    let mut i: usize = 0;
    proof {
        assert(users@.skip(0) =~= users@);
    }
    while i < users.len()
        invariant
            0 <= i <= users@.len(),
            is_tracked(name@, users@) == is_tracked(name@, users@.skip(i as int)),
            discord_of(name@, users@) == discord_of(name@, users@.skip(i as int)),
        decreases users@.len() - i,
    {
        proof {
            assert(users@.skip(i as int).first() == users@[i as int]);
            assert(users@.skip(i as int).drop_first() =~= users@.skip(i as int + 1));
        }
        if users[i].summoner_name == *name {
            return Some(users[i].discord_name.clone());
        }
        i += 1;
    }
    proof {
        assert(users@.skip(users@.len() as int) =~= Seq::<User>::empty());
    }
    None
}

// ---------------------------------------------------------------------------
// Victory resolution
// ---------------------------------------------------------------------------

/// Victory of the given team: the first team record with a matching
/// identifier decides; with no matching record the match counts as a defeat
/// (a defensive fallback, not expected in well-formed data).
pub open spec fn spec_victory(teams: Seq<RawTeam>, team_id: u16) -> bool
    decreases teams.len(),
{
    if teams.len() == 0 {
        false
    } else if teams.first().team_id == team_id {
        teams.first().win
    } else {
        spec_victory(teams.drop_first(), team_id)
    }
}

pub fn is_victory_of(teams: &Vec<RawTeam>, team_id: u16) -> (r: bool)
    ensures
        r == spec_victory(teams@, team_id),
{
    let mut i: usize = 0;
    proof {
        assert(teams@.skip(0) =~= teams@);
    }
    while i < teams.len()
        invariant
            0 <= i <= teams@.len(),
            spec_victory(teams@, team_id) == spec_victory(teams@.skip(i as int), team_id),
        decreases teams@.len() - i,
    {
        proof {
            assert(teams@.skip(i as int).first() == teams@[i as int]);
            assert(teams@.skip(i as int).drop_first() =~= teams@.skip(i as int + 1));
        }
        if teams[i].team_id == team_id {
            return teams[i].win;
        }
        i += 1;
    }
    proof {
        assert(teams@.skip(teams@.len() as int) =~= Seq::<RawTeam>::empty());
    }
    false
}

// ---------------------------------------------------------------------------
// Match construction
// ---------------------------------------------------------------------------

impl ParticipantData {
    /// Copies one tracked roster entry together with the player's chat name.
    pub fn new(participant: &RawParticipant, discord_name: String) -> (r: Self)
        ensures
            r.summoner_name@ == participant.summoner_name@,
            r.discord_name@ == discord_name@,
            r.champion_name@ == participant.champion_name@,
            r.team_position@ == participant.team_position@,
            r.kills == participant.kills,
            r.deaths == participant.deaths,
            r.assists == participant.assists,
            r.gold_earned == participant.gold_earned,
            r.total_minions_killed == participant.total_minions_killed,
            r.total_damage_dealt_to_champions == participant.total_damage_dealt_to_champions,
            r.vision_score == participant.vision_score,
    {
        ParticipantData {
            summoner_name: participant.summoner_name.clone(),
            discord_name,
            champion_name: participant.champion_name.clone(),
            team_position: participant.team_position.clone(),
            kills: participant.kills,
            deaths: participant.deaths,
            assists: participant.assists,
            gold_earned: participant.gold_earned,
            total_minions_killed: participant.total_minions_killed,
            total_damage_dealt_to_champions: participant.total_damage_dealt_to_champions,
            vision_score: participant.vision_score,
        }
    }
}

/// `p` carries exactly the statistics of roster entry `q`, with the chat name
/// the tracked-player list gives for it.
pub open spec fn participant_matches(p: ParticipantData, q: RawParticipant, users: Seq<User>) -> bool {
    &&& p.summoner_name@ == q.summoner_name@
    &&& p.discord_name@ == discord_of(q.summoner_name@, users)
    &&& p.champion_name@ == q.champion_name@
    &&& p.team_position@ == q.team_position@
    &&& p.kills == q.kills
    &&& p.deaths == q.deaths
    &&& p.assists == q.assists
    &&& p.gold_earned == q.gold_earned
    &&& p.total_minions_killed == q.total_minions_killed
    &&& p.total_damage_dealt_to_champions == q.total_damage_dealt_to_champions
    &&& p.vision_score == q.vision_score
}

/// What a match built from `raw` holds: the identifier and timestamp carried
/// over, the mode decoded, victory resolved from the last tracked roster
/// entry's team, and exactly the tracked roster entries as participants.
pub open spec fn built_match(m: Match, raw: RawMatch, users: Seq<User>) -> bool {
    let kept = tracked_of(raw.participants@, users);
    &&& m.id@ == raw.match_id@
    &&& m.time == raw.game_start_timestamp
    &&& m.game_mode == (if raw.game_mode@ == "CLASSIC"@ {
        GameMode::Classic
    } else {
        GameMode::Aram
    })
    &&& m.is_victory == spec_victory(raw.teams@, kept.last().team_id)
    &&& m.participants@.len() == kept.len()
    &&& forall|i: int|
        0 <= i < kept.len() ==> participant_matches(
            #[trigger] m.participants@[i],
            kept[i],
            users,
        )
}

/// Relies on chrono's `TimeZone::timestamp_opt` on `Local` (`Some` exactly
/// when the timestamp maps to a single local time) and on
/// `DateTime::format`, which renders that local time; the rendering depends
/// on the machine's time zone, so nothing is claimed of the characters.
#[verifier::external_body]
fn format_local_timestamp(ts: i64) -> (r: Option<String>) {
    chrono::TimeZone::timestamp_opt(&chrono::Local, ts, 0).single().map(
        |t| t.format("%Y/%m/%d %H:%M").to_string(),
    )
}

/// Evaluates one fetched match against the eligibility rules.
///
/// Returns `Ok(None)` exactly when the match is ineligible: its mode is
/// neither CLASSIC nor ARAM, or fewer than two tracked players took part.
/// For an eligible match it builds the `Match` record, failing only when the
/// start timestamp does not resolve to a local time.
pub fn process_match(raw: RawMatch, users: &Vec<User>) -> (r: Result<
    Option<Match>,
    RetrievalError,
>)
    ensures
        (r matches Ok(o) && o is None) <==> !match_eligible(raw, users@),
        r is Err ==> match_eligible(raw, users@) && (r->Err_0).message@
            == "Failed to parse timestamp"@,
        r matches Ok(o) ==> (o matches Some(m) ==> match_eligible(raw, users@) && built_match(
            m,
            raw,
            users@,
        )),
{
    let classic = "CLASSIC".to_owned();
    let aram = "ARAM".to_owned();
    let is_classic = raw.game_mode == classic;
    let is_aram = raw.game_mode == aram;
    if !is_classic && !is_aram {
        return Ok(None);
    }
    let mut participants: Vec<ParticipantData> = Vec::new();
    let mut team_id: u16 = 0;
    let mut idx: usize = 0;
    while idx < raw.participants.len()
        invariant
            0 <= idx <= raw.participants@.len(),
            participants@.len() == tracked_of(raw.participants@.take(idx as int), users@).len(),
            forall|i: int|
                0 <= i < participants@.len() ==> participant_matches(
                    #[trigger] participants@[i],
                    tracked_of(raw.participants@.take(idx as int), users@)[i],
                    users@,
                ),
            tracked_of(raw.participants@.take(idx as int), users@).len() > 0 ==> team_id
                == tracked_of(raw.participants@.take(idx as int), users@).last().team_id,
        decreases raw.participants@.len() - idx,
    {
        let p = &raw.participants[idx];
        match find_discord_name(users, &p.summoner_name) {
            Some(discord_name) => {
                team_id = p.team_id;
                participants.push(ParticipantData::new(p, discord_name));
            },
            None => {},
        }
        proof {
            assert(raw.participants@.take(idx as int + 1).drop_last() =~= raw.participants@.take(
                idx as int,
            ));
            assert(raw.participants@.take(idx as int + 1).last() == raw.participants@[idx as int]);
        }
        idx += 1;
    }
    proof {
        assert(raw.participants@.take(raw.participants@.len() as int) =~= raw.participants@);
    }
    if participants.len() <= 1 {
        return Ok(None);
    }
    let is_victory = is_victory_of(&raw.teams, team_id);
    match format_local_timestamp(raw.game_start_timestamp) {
        None => Err(
            RetrievalError { message: "Failed to parse timestamp".to_owned() },
        ),
        Some(time_display) => Ok(
            Some(
                Match {
                    id: raw.match_id,
                    time: raw.game_start_timestamp,
                    time_display,
                    game_mode: if is_classic {
                        GameMode::Classic
                    } else {
                        GameMode::Aram
                    },
                    is_victory,
                    participants,
                },
            ),
        ),
    }
}

// ---------------------------------------------------------------------------
// Selection of the most recent eligible match
// ---------------------------------------------------------------------------

/// The match the selection step picks: the one with the latest start time,
/// the last such one when several share it.
pub open spec fn spec_most_recent(ms: Seq<Match>) -> Option<Match>
    decreases ms.len(),
{
    if ms.len() == 0 {
        None
    } else {
        match spec_most_recent(ms.drop_last()) {
            None => Some(ms.last()),
            Some(b) => if ms.last().time >= b.time {
                Some(ms.last())
            } else {
                Some(b)
            },
        }
    }
}

/// The selected match comes from the pool and no pool entry starts later.
pub proof fn lemma_most_recent_is_max(ms: Seq<Match>)
    ensures
        spec_most_recent(ms) is None <==> ms.len() == 0,
        spec_most_recent(ms) matches Some(m) ==> (exists|i: int| 0 <= i < ms.len() && ms[i] == m)
            && (forall|j: int| 0 <= j < ms.len() ==> ms[j].time <= m.time),
    decreases ms.len(),
{
    if ms.len() > 0 {
        let prev = ms.drop_last();
        lemma_most_recent_is_max(prev);
        let m = spec_most_recent(ms)->Some_0;
        assert(forall|j: int| 0 <= j < prev.len() ==> prev[j] == ms[j]);
        if prev.len() == 0 {
            assert(ms[ms.len() - 1] == m);
        } else {
            let b = spec_most_recent(prev)->Some_0;
            let i = choose|i: int| 0 <= i < prev.len() && prev[i] == b;
            if ms.last().time >= b.time {
                assert(ms[ms.len() - 1] == m);
            } else {
                assert(ms[i] == m);
            }
            assert forall|j: int| 0 <= j < ms.len() implies ms[j].time <= m.time by {
                if j < prev.len() {
                    assert(prev[j].time <= b.time);
                }
            }
        }
    }
}

/// Given two eligible matches with distinct start times, selection picks the
/// one with the later start time.
pub proof fn lemma_selects_later(m1: Match, m2: Match)
    requires
        m1.time != m2.time,
    ensures
        spec_most_recent(seq![m1, m2]) == Some(
            if m1.time < m2.time {
                m2
            } else {
                m1
            },
        ),
{
    let s = seq![m1, m2];
    assert(s.drop_last() =~= seq![m1]);
    assert(seq![m1].drop_last() =~= Seq::<Match>::empty());
    assert(spec_most_recent(Seq::<Match>::empty()) is None);
    assert(spec_most_recent(seq![m1]) == Some(seq![m1].last()));
    assert(seq![m1].last() == m1);
    assert(s.last() == m2);
}

/// Picks the most recent match of the pool, or none if the pool is empty.
pub fn select_most_recent(ms: Vec<Match>) -> (r: Option<Match>)
    ensures
        r == spec_most_recent(ms@),
{
    let ghost orig = ms@;
    let mut ms = ms;
    if ms.len() == 0 {
        return None;
    }
    let mut best: usize = 0;
    let mut i: usize = 1;
    proof {
        assert(orig.take(1).drop_last() =~= Seq::<Match>::empty());
        assert(spec_most_recent(Seq::<Match>::empty()) is None);
        assert(orig.take(1).last() == orig[0]);
        assert(spec_most_recent(orig.take(1)) == Some(orig[0]));
    }
    while i < ms.len()
        invariant
            ms@ == orig,
            0 <= best < i <= orig.len(),
            spec_most_recent(orig.take(i as int)) == Some(orig[best as int]),
        decreases orig.len() - i,
    {
        proof {
            assert(orig.take(i as int + 1).drop_last() =~= orig.take(i as int));
            assert(orig.take(i as int + 1).last() == orig[i as int]);
        }
        if ms[i].time >= ms[best].time {
            best = i;
        }
        i += 1;
    }
    proof {
        assert(orig.take(orig.len() as int) =~= orig);
    }
    let m = ms.remove(best);
    Some(m)
}

/// The results of the per-match fetches that succeeded with an eligible
/// match, in order.
pub open spec fn successes(results: Seq<Result<Option<Match>, RetrievalError>>) -> Seq<Match>
    decreases results.len(),
{
    if results.len() == 0 {
        Seq::empty()
    } else {
        successes(results.drop_last()) + match results.last() {
            Ok(Some(m)) => seq![m],
            _ => Seq::empty(),
        }
    }
}

/// Gets the most recent match that satisfies the eligibility rules, out of
/// the per-match evaluation results. Failed or ineligible entries are
/// dropped; the most recent of the remaining matches is returned, or none if
/// no match remains.
pub fn get_most_recent_match(results: Vec<Result<Option<Match>, RetrievalError>>) -> (r: Option<
    Match,
>)
    ensures
        r == spec_most_recent(successes(results@)),
{
    let ghost orig = results@;
    let mut results = results;
    let n = results.len();
    let mut pool: Vec<Match> = Vec::new();
    let mut i: usize = 0;
    proof {
        assert(orig.len() == n);
        assert(orig.skip(0) =~= orig);
        assert(orig.take(0) =~= Seq::<Result<Option<Match>, RetrievalError>>::empty());
    }
    while results.len() > 0
        invariant
            results@ =~= orig.skip(i as int),
            0 <= i <= orig.len(),
            orig.len() <= usize::MAX,
            pool@ == successes(orig.take(i as int)),
        decreases results@.len(),
    {
        proof {
            assert(orig.take(i as int + 1).drop_last() =~= orig.take(i as int));
            assert(orig.take(i as int + 1).last() == orig[i as int]);
            assert(orig.skip(i as int)[0] == orig[i as int]);
        }
        let head = results.remove(0);
        match head {
            Ok(Some(m)) => pool.push(m),
            _ => {},
        }
        proof {
            assert(results@ =~= orig.skip(i as int + 1));
        }
        i += 1;
    }
    proof {
        assert(orig.take(i as int) =~= orig);
    }
    select_most_recent(pool)
}

// ---------------------------------------------------------------------------
// Renderings
// ---------------------------------------------------------------------------

/// The tag of an eligible game mode, as the statistics API spells it.
pub open spec fn mode_name(m: GameMode) -> Seq<char> {
    if m is Classic {
        "CLASSIC"@
    } else {
        "ARAM"@
    }
}

/// The rendering of the victory flag.
pub open spec fn result_name(v: bool) -> Seq<char> {
    if v {
        "Victory"@
    } else {
        "Defeat"@
    }
}

/// Name and champion lines of the verbose participant block.
pub open spec fn verbose_head(p: ParticipantData) -> Seq<char> {
    p.summoner_name@ + ":\n"@ + "  Champion: "@ + p.champion_name@ + "\n"@
}

/// The position line, meaningless in ARAM and omitted there.
pub open spec fn position_line(p: ParticipantData) -> Seq<char> {
    "  Position: "@ + p.team_position@ + "\n"@
}

/// The labelled statistic lines of the verbose participant block.
pub open spec fn verbose_stats(p: ParticipantData) -> Seq<char> {
    "  Kills: "@ + dec_rep(p.kills as nat) + "\n"@ + "  Deaths: "@ + dec_rep(p.deaths as nat)
        + "\n"@ + "  Assists: "@ + dec_rep(p.assists as nat) + "\n"@ + "  Gold: "@ + dec_rep(
        p.gold_earned as nat,
    ) + "\n"@ + "  CS: "@ + dec_rep(p.total_minions_killed as nat) + "\n"@
        + "  Damage to Champions: "@ + dec_rep(p.total_damage_dealt_to_champions as nat) + "\n"@
}

/// The vision-score line, meaningless in ARAM and omitted there.
pub open spec fn vision_line(p: ParticipantData) -> Seq<char> {
    "  Vision Score: "@ + dec_rep(p.vision_score as nat) + "\n"@
}

/// One participant's block of the verbose rendering, one labelled line per
/// statistic; position and vision score appear only outside ARAM.
pub open spec fn verbose_participant_view(p: ParticipantData, mode: GameMode) -> Seq<char> {
    verbose_head(p) + (if mode is Aram {
        Seq::<char>::empty()
    } else {
        position_line(p)
    }) + verbose_stats(p) + (if mode is Aram {
        Seq::<char>::empty()
    } else {
        vision_line(p)
    })
}

/// Name and champion of the compact participant block.
pub open spec fn human_head(p: ParticipantData) -> Seq<char> {
    p.summoner_name@ + ":\n"@ + "  Champion: "@ + p.champion_name@
}

/// The position fragment of the compact block, omitted in ARAM.
pub open spec fn position_fragment(p: ParticipantData) -> Seq<char> {
    ", Position: "@ + p.team_position@
}

/// The combined statistic lines of the compact participant block.
pub open spec fn human_stats(p: ParticipantData) -> Seq<char> {
    ", KDA: "@ + dec_rep(p.kills as nat) + "/"@ + dec_rep(p.deaths as nat) + "/"@ + dec_rep(
        p.assists as nat,
    ) + "\n"@ + "  Gold: "@ + dec_rep(p.gold_earned as nat) + ", CS: "@ + dec_rep(
        p.total_minions_killed as nat,
    ) + ", Damage to Champions: "@ + dec_rep(p.total_damage_dealt_to_champions as nat)
}

/// The vision-score fragment of the compact block, omitted in ARAM.
pub open spec fn vision_fragment(p: ParticipantData) -> Seq<char> {
    ", Vision Score: "@ + dec_rep(p.vision_score as nat)
}

/// One participant's block of the compact rendering: champion, position and
/// KDA on one line, the remaining statistics on a second.
pub open spec fn human_participant_view(p: ParticipantData, mode: GameMode) -> Seq<char> {
    human_head(p) + (if mode is Aram {
        Seq::<char>::empty()
    } else {
        position_fragment(p)
    }) + human_stats(p) + (if mode is Aram {
        Seq::<char>::empty()
    } else {
        vision_fragment(p)
    })
}

/// Both renderings omit the position and vision-score parts exactly when the
/// game mode is ARAM; in CLASSIC they stand at their places.
pub proof fn lemma_aram_omits_position_and_vision(p: ParticipantData)
    ensures
        verbose_participant_view(p, GameMode::Aram) == verbose_head(p) + verbose_stats(p),
        verbose_participant_view(p, GameMode::Classic) == verbose_head(p) + position_line(p)
            + verbose_stats(p) + vision_line(p),
        human_participant_view(p, GameMode::Aram) == human_head(p) + human_stats(p),
        human_participant_view(p, GameMode::Classic) == human_head(p) + position_fragment(p)
            + human_stats(p) + vision_fragment(p),
{
    assert(verbose_participant_view(p, GameMode::Aram) =~= verbose_head(p) + verbose_stats(p));
    assert(human_participant_view(p, GameMode::Aram) =~= human_head(p) + human_stats(p));
}

/// The participant blocks in roster order, joined by a newline.
pub open spec fn verbose_blocks(ps: Seq<ParticipantData>, mode: GameMode) -> Seq<char>
    decreases ps.len(),
{
    if ps.len() == 0 {
        Seq::empty()
    } else if ps.len() == 1 {
        verbose_participant_view(ps.first(), mode)
    } else {
        verbose_blocks(ps.drop_last(), mode) + "\n"@ + verbose_participant_view(ps.last(), mode)
    }
}

/// The compact participant blocks in roster order, joined by a newline.
pub open spec fn human_blocks(ps: Seq<ParticipantData>, mode: GameMode) -> Seq<char>
    decreases ps.len(),
{
    if ps.len() == 0 {
        Seq::empty()
    } else if ps.len() == 1 {
        human_participant_view(ps.first(), mode)
    } else {
        human_blocks(ps.drop_last(), mode) + "\n"@ + human_participant_view(ps.last(), mode)
    }
}

/// The verbose rendering handed to the language model: mode, result, then
/// every participant's full statistic block.
pub open spec fn verbose_view(m: Match) -> Seq<char> {
    "Game Mode: "@ + mode_name(m.game_mode) + "\n\n"@ + "Game Result: "@ + result_name(
        m.is_victory,
    ) + "\n\n"@ + verbose_blocks(m.participants@, m.game_mode) + "\n"@
}

/// The compact rendering shown in chat: mode, local start time and result on
/// one line, then two lines per participant.
pub open spec fn human_view(m: Match) -> Seq<char> {
    "Game Mode: "@ + mode_name(m.game_mode) + ", Time: "@ + m.time_display@ + ", Result: "@
        + result_name(m.is_victory) + "\n"@ + human_blocks(m.participants@, m.game_mode) + "\n"@
}

/// Renderings are functions of the match value alone: equal matches render
/// to identical strings, byte for byte.
pub proof fn lemma_render_deterministic(a: Match, b: Match)
    requires
        a == b,
    ensures
        verbose_view(a) == verbose_view(b),
        human_view(a) == human_view(b),
{
}

impl ParticipantData {
    /// The verbose statistic block of this participant, as given to the
    /// language model.
    #[verifier::rlimit(100)]
    pub fn display(&self, mode: GameMode) -> (r: String)
        ensures
            r@ == verbose_participant_view(*self, mode),
    {
        let mut s = self.summoner_name.clone();
        s.append(":\n");
        s.append("  Champion: ");
        s.append(self.champion_name.as_str());
        s.append("\n");
        proof {
            assert(s@ =~= verbose_head(*self));
        }
        if mode != GameMode::Aram {
            s.append("  Position: ");
            s.append(self.team_position.as_str());
            s.append("\n");
            proof {
                assert(s@ =~= verbose_head(*self) + position_line(*self));
            }
        }
        let ghost before_stats = s@;
        s.append("  Kills: ");
        s.append(u32_to_string(self.kills).as_str());
        s.append("\n");
        s.append("  Deaths: ");
        s.append(u32_to_string(self.deaths).as_str());
        s.append("\n");
        s.append("  Assists: ");
        s.append(u32_to_string(self.assists).as_str());
        s.append("\n");
        let ghost mid_stats = s@;
        s.append("  Gold: ");
        s.append(u32_to_string(self.gold_earned).as_str());
        s.append("\n");
        s.append("  CS: ");
        s.append(u32_to_string(self.total_minions_killed).as_str());
        s.append("\n");
        s.append("  Damage to Champions: ");
        s.append(u32_to_string(self.total_damage_dealt_to_champions).as_str());
        s.append("\n");
        proof {
            assert(mid_stats =~= before_stats + ("  Kills: "@ + dec_rep(self.kills as nat) + "\n"@
                + "  Deaths: "@ + dec_rep(self.deaths as nat) + "\n"@ + "  Assists: "@ + dec_rep(
                self.assists as nat,
            ) + "\n"@));
            assert(s@ =~= before_stats + verbose_stats(*self));
        }
        if mode != GameMode::Aram {
            let ghost before_vision = s@;
            s.append("  Vision Score: ");
            s.append(u32_to_string(self.vision_score).as_str());
            s.append("\n");
            proof {
                assert(s@ =~= before_vision + vision_line(*self));
            }
        }
        proof {
            assert(s@ =~= verbose_participant_view(*self, mode));
        }
        s
    }

    /// The compact statistic block of this participant, as shown in chat.
    #[verifier::rlimit(60)]
    pub fn human_format(&self, mode: GameMode) -> (r: String)
        ensures
            r@ == human_participant_view(*self, mode),
    {
        let mut s = self.summoner_name.clone();
        s.append(":\n");
        s.append("  Champion: ");
        s.append(self.champion_name.as_str());
        proof {
            assert(s@ =~= human_head(*self));
        }
        if mode != GameMode::Aram {
            s.append(", Position: ");
            s.append(self.team_position.as_str());
            proof {
                assert(s@ =~= human_head(*self) + position_fragment(*self));
            }
        }
        let ghost before_stats = s@;
        s.append(", KDA: ");
        s.append(u32_to_string(self.kills).as_str());
        s.append("/");
        s.append(u32_to_string(self.deaths).as_str());
        s.append("/");
        s.append(u32_to_string(self.assists).as_str());
        s.append("\n");
        let ghost mid_stats = s@;
        s.append("  Gold: ");
        s.append(u32_to_string(self.gold_earned).as_str());
        s.append(", CS: ");
        s.append(u32_to_string(self.total_minions_killed).as_str());
        s.append(", Damage to Champions: ");
        s.append(u32_to_string(self.total_damage_dealt_to_champions).as_str());
        proof {
            assert(mid_stats =~= before_stats + (", KDA: "@ + dec_rep(self.kills as nat) + "/"@
                + dec_rep(self.deaths as nat) + "/"@ + dec_rep(self.assists as nat) + "\n"@));
            assert(s@ =~= before_stats + human_stats(*self));
        }
        if mode != GameMode::Aram {
            let ghost before_vision = s@;
            s.append(", Vision Score: ");
            s.append(u32_to_string(self.vision_score).as_str());
            proof {
                assert(s@ =~= before_vision + vision_fragment(*self));
            }
        }
        proof {
            assert(s@ =~= human_participant_view(*self, mode));
        }
        s
    }
}

impl Match {
    /// The verbose rendering of this match, the text handed to the language
    /// model.
    pub fn verbose_format(&self) -> (r: String)
        ensures
            r@ == verbose_view(*self),
    {
        let mut s = String::new();
        s.append("Game Mode: ");
        s.append(
            if self.game_mode == GameMode::Classic {
                "CLASSIC"
            } else {
                "ARAM"
            },
        );
        s.append("\n\n");
        s.append("Game Result: ");
        s.append(
            if self.is_victory {
                "Victory"
            } else {
                "Defeat"
            },
        );
        s.append("\n\n");
        let mut body = String::new();
        let mut i: usize = 0;
        proof {
            assert(self.participants@.take(0) =~= Seq::<ParticipantData>::empty());
        }
        while i < self.participants.len()
            invariant
                0 <= i <= self.participants@.len(),
                body@ == verbose_blocks(self.participants@.take(i as int), self.game_mode),
            decreases self.participants@.len() - i,
        {
            if i > 0 {
                body.append("\n");
            }
            let block = self.participants[i].display(self.game_mode);
            body.append(block.as_str());
            proof {
                assert(self.participants@.take(i as int + 1).drop_last() =~= self.participants@.take(
                    i as int,
                ));
                assert(self.participants@.take(i as int + 1).last()
                    == self.participants@[i as int]);
                assert(body@ =~= verbose_blocks(
                    self.participants@.take(i as int + 1),
                    self.game_mode,
                ));
            }
            i += 1;
        }
        proof {
            assert(self.participants@.take(self.participants@.len() as int)
                =~= self.participants@);
        }
        s.append(body.as_str());
        s.append("\n");
        proof {
            assert(s@ =~= verbose_view(*self));
        }
        s
    }

    /// The compact rendering of this match, the text shown in chat.
    pub fn human_format(&self) -> (r: String)
        ensures
            r@ == human_view(*self),
    {
        let mut s = String::new();
        s.append("Game Mode: ");
        s.append(
            if self.game_mode == GameMode::Classic {
                "CLASSIC"
            } else {
                "ARAM"
            },
        );
        s.append(", Time: ");
        s.append(self.time_display.as_str());
        s.append(", Result: ");
        s.append(
            if self.is_victory {
                "Victory"
            } else {
                "Defeat"
            },
        );
        s.append("\n");
        let mut body = String::new();
        let mut i: usize = 0;
        proof {
            assert(self.participants@.take(0) =~= Seq::<ParticipantData>::empty());
        }
        while i < self.participants.len()
            invariant
                0 <= i <= self.participants@.len(),
                body@ == human_blocks(self.participants@.take(i as int), self.game_mode),
            decreases self.participants@.len() - i,
        {
            if i > 0 {
                body.append("\n");
            }
            let block = self.participants[i].human_format(self.game_mode);
            body.append(block.as_str());
            proof {
                assert(self.participants@.take(i as int + 1).drop_last() =~= self.participants@.take(
                    i as int,
                ));
                assert(self.participants@.take(i as int + 1).last()
                    == self.participants@[i as int]);
                assert(body@ =~= human_blocks(
                    self.participants@.take(i as int + 1),
                    self.game_mode,
                ));
            }
            i += 1;
        }
        proof {
            assert(self.participants@.take(self.participants@.len() as int)
                =~= self.participants@);
        }
        s.append(body.as_str());
        s.append("\n");
        proof {
            assert(s@ =~= human_view(*self));
        }
        s
    }
}

} // verus!
