use whobad::riot::GameMode;
use whobad::riot::Match;
use whobad::riot::ParticipantData;
use whobad::text::u32_to_string;

fn participant(name: &str, champion: &str, position: &str) -> ParticipantData {
    ParticipantData {
        summoner_name: name.to_string(),
        discord_name: name.to_string(),
        champion_name: champion.to_string(),
        team_position: position.to_string(),
        kills: 5,
        deaths: 2,
        assists: 8,
        gold_earned: 12000,
        total_minions_killed: 180,
        total_damage_dealt_to_champions: 25000,
        vision_score: 30,
    }
}

fn classic_match() -> Match {
    Match {
        id: "NA_42".to_string(),
        time: 1700000000,
        time_display: "2024/01/02 03:04".to_string(),
        game_mode: GameMode::Classic,
        is_victory: true,
        participants: vec![
            participant("alice", "Ahri", "MIDDLE"),
            participant("bob", "Garen", "TOP"),
        ],
    }
}

fn aram_match() -> Match {
    let mut m = classic_match();
    m.game_mode = GameMode::Aram;
    m.is_victory = false;
    m
}

#[test]
fn decimal_rendering_is_exact() {
    assert_eq!(u32_to_string(0), "0");
    assert_eq!(u32_to_string(7), "7");
    assert_eq!(u32_to_string(42), "42");
    assert_eq!(u32_to_string(90000), "90000");
    assert_eq!(u32_to_string(u32::MAX), "4294967295");
}

#[test]
fn verbose_block_classic_is_exact() {
    let p = participant("alice", "Ahri", "MIDDLE");
    let expected = "alice:\n  Champion: Ahri\n  Position: MIDDLE\n  Kills: 5\n  Deaths: 2\n  Assists: 8\n  Gold: 12000\n  CS: 180\n  Damage to Champions: 25000\n  Vision Score: 30\n";
    assert_eq!(p.display(GameMode::Classic), expected);
}

#[test]
fn verbose_block_aram_omits_position_and_vision() {
    let p = participant("alice", "Ahri", "MIDDLE");
    let expected = "alice:\n  Champion: Ahri\n  Kills: 5\n  Deaths: 2\n  Assists: 8\n  Gold: 12000\n  CS: 180\n  Damage to Champions: 25000\n";
    assert_eq!(p.display(GameMode::Aram), expected);
}

#[test]
fn compact_block_classic_is_exact() {
    let p = participant("alice", "Ahri", "MIDDLE");
    let expected = "alice:\n  Champion: Ahri, Position: MIDDLE, KDA: 5/2/8\n  Gold: 12000, CS: 180, Damage to Champions: 25000, Vision Score: 30";
    assert_eq!(p.human_format(GameMode::Classic), expected);
}

#[test]
fn compact_block_aram_omits_position_and_vision() {
    let p = participant("alice", "Ahri", "MIDDLE");
    let expected = "alice:\n  Champion: Ahri, KDA: 5/2/8\n  Gold: 12000, CS: 180, Damage to Champions: 25000";
    assert_eq!(p.human_format(GameMode::Aram), expected);
}

#[test]
fn verbose_match_rendering_is_exact() {
    let m = classic_match();
    let expected = "Game Mode: CLASSIC\n\nGame Result: Victory\n\nalice:\n  Champion: Ahri\n  Position: MIDDLE\n  Kills: 5\n  Deaths: 2\n  Assists: 8\n  Gold: 12000\n  CS: 180\n  Damage to Champions: 25000\n  Vision Score: 30\n\nbob:\n  Champion: Garen\n  Position: TOP\n  Kills: 5\n  Deaths: 2\n  Assists: 8\n  Gold: 12000\n  CS: 180\n  Damage to Champions: 25000\n  Vision Score: 30\n\n";
    assert_eq!(m.verbose_format(), expected);
}

#[test]
fn compact_match_rendering_is_exact() {
    let m = aram_match();
    let expected = "Game Mode: ARAM, Time: 2024/01/02 03:04, Result: Defeat\nalice:\n  Champion: Ahri, KDA: 5/2/8\n  Gold: 12000, CS: 180, Damage to Champions: 25000\nbob:\n  Champion: Garen, KDA: 5/2/8\n  Gold: 12000, CS: 180, Damage to Champions: 25000\n";
    assert_eq!(m.human_format(), expected);
}

#[test]
fn renderings_are_deterministic() {
    let m = classic_match();
    assert_eq!(m.verbose_format(), m.verbose_format());
    assert_eq!(m.human_format(), m.human_format());
    let n = aram_match();
    assert_eq!(n.verbose_format(), n.verbose_format());
    assert_eq!(n.human_format(), n.human_format());
}
