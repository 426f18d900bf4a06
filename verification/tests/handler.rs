use whobad::config::Config;
use whobad::config::User;
use whobad::gemini::extract_commentary;
use whobad::gemini::Candidate;
use whobad::gemini::CommentaryError;
use whobad::gemini::Content;
use whobad::gemini::FinishReason;
use whobad::gemini::GenerateContentResponse;
use whobad::gemini::Part;
use whobad::handler::handler_step;
use whobad::handler::HandlerAction;
use whobad::handler::HandlerEvent;
use whobad::handler::HandlerState;
use whobad::riot::dedup_match_ids;
use whobad::riot::get_most_recent_match;
use whobad::riot::process_match;
use whobad::riot::RawMatch;
use whobad::riot::RawParticipant;
use whobad::riot::RawTeam;
use whobad::riot::RetrievalError;

fn user(summoner: &str, discord: &str) -> User {
    User { summoner_name: summoner.to_string(), discord_name: discord.to_string() }
}

fn raw_participant(name: &str, team_id: u16) -> RawParticipant {
    RawParticipant {
        summoner_name: name.to_string(),
        champion_name: "Ahri".to_string(),
        team_position: "MIDDLE".to_string(),
        team_id,
        kills: 5,
        deaths: 2,
        assists: 8,
        gold_earned: 12000,
        total_minions_killed: 180,
        total_damage_dealt_to_champions: 25000,
        vision_score: 30,
    }
}

#[test]
fn config_get_returns_the_configuration() {
    let config = Config {
        riot_apikey: "SECRET-REDACTED".to_string(),
        gemini_apikey: "SECRET-REDACTED".to_string(),
        discord_token: "SECRET-REDACTED".to_string(),
        players: vec![user("alice", "Alice")],
        guild_ids: vec![42],
    };
    let got = config.get();
    assert_eq!(got.players.len(), 1);
    assert_eq!(got.guild_ids, vec![42]);
}

#[test]
fn command_is_acknowledged_with_a_placeholder() {
    let (state, action) = handler_step(HandlerState::Idle, HandlerEvent::Command);
    assert!(matches!(state, HandlerState::Acknowledged));
    match action {
        HandlerAction::SendPlaceholder(t) => assert_eq!(t, "fetching..."),
        _ => panic!("expected the placeholder reply"),
    }
}

#[test]
fn no_recent_match_is_reported_without_commentary() {
    // No tracked player had any match in the window: the reply says so and
    // no commentary is requested.
    let (state, _) = handler_step(HandlerState::Idle, HandlerEvent::Command);
    let picked = get_most_recent_match(Vec::new());
    assert!(picked.is_none());
    let (state, action) = handler_step(state, HandlerEvent::Retrieved(Ok(picked)));
    assert!(matches!(state, HandlerState::Completed));
    match action {
        HandlerAction::Reply(t) => assert_eq!(t, "No recent match found."),
        _ => panic!("expected a reply, not a commentary request"),
    }
}

#[test]
fn retrieval_failure_is_reported() {
    let err = RetrievalError { message: "Failed to parse timestamp".to_string() };
    let (state, action) = handler_step(
        HandlerState::Acknowledged,
        HandlerEvent::Retrieved(Err(err)),
    );
    assert!(matches!(state, HandlerState::Completed));
    match action {
        HandlerAction::Reply(t) => {
            assert_eq!(t, "Failed to get most recent match: Failed to parse timestamp")
        }
        _ => panic!("expected a reply"),
    }
}

#[test]
fn commentary_failure_is_reported() {
    let users = vec![user("alice", "Alice"), user("bob", "Bob")];
    let raw = RawMatch {
        match_id: "NA_1".to_string(),
        game_mode: "ARAM".to_string(),
        game_start_timestamp: 1700000000,
        participants: vec![raw_participant("alice", 100), raw_participant("bob", 100)],
        teams: vec![RawTeam { team_id: 100, win: true }],
    };
    let m = process_match(raw, &users).unwrap().unwrap();
    let (state, _) = handler_step(
        HandlerState::Acknowledged,
        HandlerEvent::Retrieved(Ok(Some(m))),
    );
    let (state, action) = handler_step(
        state,
        HandlerEvent::Commented(Err(CommentaryError::NoCandidates)),
    );
    assert!(matches!(state, HandlerState::Completed));
    match action {
        HandlerAction::Reply(t) => {
            assert_eq!(t, "AI failed to analyze the result: Gemini returned no candidates")
        }
        _ => panic!("expected a reply"),
    }
}

#[test]
fn completed_ignores_further_events() {
    let (state, action) = handler_step(HandlerState::Completed, HandlerEvent::Command);
    assert!(matches!(state, HandlerState::Completed));
    assert!(matches!(action, HandlerAction::NoAction));
    let (state, action) = handler_step(
        HandlerState::Completed,
        HandlerEvent::Commented(Ok("late".to_string())),
    );
    assert!(matches!(state, HandlerState::Completed));
    assert!(matches!(action, HandlerAction::NoAction));
}

#[test]
fn shared_match_is_found_and_reported_with_commentary() {
    // Three tracked players; the second player's lookup fails; the first and
    // third share one eligible CLASSIC match.
    let users = vec![user("alice", "Alice"), user("bob", "Bob"), user("carol", "Carol")];

    let alice_ids = vec!["NA_77".to_string()];
    // bob's lookup failed: his contribution is an empty list.
    let bob_ids = Vec::<String>::new();
    let carol_ids = vec!["NA_77".to_string()];
    let ids = dedup_match_ids(vec![alice_ids, bob_ids, carol_ids]);
    assert_eq!(ids, vec!["NA_77".to_string()]);

    let raw = RawMatch {
        match_id: "NA_77".to_string(),
        game_mode: "CLASSIC".to_string(),
        game_start_timestamp: 1700000000,
        participants: vec![
            raw_participant("stranger", 200),
            raw_participant("alice", 100),
            raw_participant("carol", 100),
        ],
        teams: vec![
            RawTeam { team_id: 100, win: true },
            RawTeam { team_id: 200, win: false },
        ],
    };
    let results = vec![process_match(raw, &users)];
    let picked = get_most_recent_match(results).unwrap();
    assert_eq!(picked.id, "NA_77");
    assert_eq!(picked.participants.len(), 2);
    let compact = picked.human_format();

    let (state, _) = handler_step(HandlerState::Idle, HandlerEvent::Command);
    let (state, action) = handler_step(state, HandlerEvent::Retrieved(Ok(Some(picked))));
    let prompt = match action {
        HandlerAction::AskCommentary(p) => p,
        _ => panic!("expected a commentary request"),
    };
    assert!(prompt.contains("Game Mode: CLASSIC"));
    assert!(prompt.contains("alice:"));
    assert!(prompt.contains("carol:"));

    let resp = GenerateContentResponse {
        candidates: vec![
            Candidate {
                content: Content { parts: vec![Part { text: "carol fed.".to_string() }] },
                finish_reason: FinishReason::Stop,
            },
        ],
    };
    let judgment = extract_commentary(resp).unwrap();
    let (state, action) = handler_step(state, HandlerEvent::Commented(Ok(judgment)));
    assert!(matches!(state, HandlerState::Completed));
    match action {
        HandlerAction::Reply(t) => {
            assert_eq!(t, format!("{}\n{}", compact, "carol fed."));
            assert!(t.starts_with("Game Mode: CLASSIC, Time: "));
            assert!(t.ends_with("carol fed."));
        }
        _ => panic!("expected the final reply"),
    }
}
