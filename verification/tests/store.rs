use gaming_hub::store::GameKind;
use gaming_hub::store::ScoreRecord;
use gaming_hub::store::create_users_table_sql;
use gaming_hub::store::insert_user_sql;
use gaming_hub::store::select_user_sql;
use rusqlite::Connection;

fn open_store() -> Connection {
    let conn = Connection::open_in_memory().unwrap();
    conn.execute(create_users_table_sql(), []).unwrap();
    for g in [GameKind::NumberGuess, GameKind::WordGuess, GameKind::Reflex] {
        conn.execute(g.create_table_sql(), []).unwrap();
    }
    conn
}

fn create_user(conn: &Connection, name: &str) -> i64 {
    conn.execute(insert_user_sql(), [name]).unwrap();
    conn.last_insert_rowid()
}

fn find_user(conn: &Connection, name: &str) -> Option<(i64, String)> {
    let mut stmt = conn.prepare(select_user_sql()).unwrap();
    let mut rows = stmt.query([name]).unwrap();
    match rows.next().unwrap() {
        Some(row) => Some((row.get::<_, i64>(0).unwrap(), row.get::<_, String>(1).unwrap())),
        None => None,
    }
}

fn record_score(conn: &Connection, rec: &ScoreRecord) {
    conn.execute(rec.game.insert_score_sql(), (rec.user_id, rec.username.as_str(), rec.value))
        .unwrap();
}

fn best_score(conn: &Connection, game: GameKind, user_id: i64) -> Option<i32> {
    let mut stmt = conn.prepare(game.best_score_sql()).unwrap();
    let mut rows = stmt.query([user_id]).unwrap();
    match rows.next().unwrap() {
        Some(row) => Some(row.get::<_, i32>(0).unwrap()),
        None => None,
    }
}

#[test]
fn finding_a_user_twice_returns_the_same_identifier() {
    let conn = open_store();
    let id = create_user(&conn, "alice");
    let first = find_user(&conn, "alice").unwrap();
    let second = find_user(&conn, "alice").unwrap();
    assert_eq!(first, (id, "alice".to_string()));
    assert_eq!(first, second);
    assert_eq!(find_user(&conn, "bob"), None);
    assert_eq!(find_user(&conn, "bob"), None);
}

#[test]
fn three_records_and_the_best_is_their_maximum() {
    let conn = open_store();
    let id = create_user(&conn, "carol");
    for value in [30, 70, 50] {
        let rec = ScoreRecord::new(GameKind::NumberGuess, id, "carol".to_string(), value);
        record_score(&conn, &rec);
    }
    assert_eq!(best_score(&conn, GameKind::NumberGuess, id), Some(70));
    assert_eq!(best_score(&conn, GameKind::WordGuess, id), None);
    assert_eq!(best_score(&conn, GameKind::Reflex, id), None);

    let rec = ScoreRecord::new(GameKind::Reflex, id, "carol".to_string(), 12);
    record_score(&conn, &rec);
    assert_eq!(best_score(&conn, GameKind::Reflex, id), Some(12));
}

#[test]
fn leaderboard_lists_top_five_descending() {
    let conn = open_store();
    let mut expected: Vec<(String, i32)> = Vec::new();
    for (name, value) in [("a", 10), ("b", 60), ("c", 30), ("d", 90), ("e", 20), ("f", 50)] {
        let id = create_user(&conn, name);
        let rec = ScoreRecord::new(GameKind::WordGuess, id, name.to_string(), value);
        record_score(&conn, &rec);
        expected.push((name.to_string(), value));
    }
    expected.sort_by(|x, y| y.1.cmp(&x.1));
    expected.truncate(5);

    let mut stmt = conn.prepare(GameKind::WordGuess.leaderboard_sql()).unwrap();
    let rows = stmt
        .query_map([], |row| {
            Ok((row.get::<_, String>(0)?, row.get::<_, i32>(1)?))
        })
        .unwrap()
        .collect::<Result<Vec<_>, _>>()
        .unwrap();
    assert_eq!(rows, expected);
}

#[test]
fn each_engine_emits_a_record_for_its_own_game() {
    let mut round = gaming_hub::guessing::GuessRound::new(5);
    round.submit_guess(5);
    let rec = round.score_record(7, "dave".to_string());
    assert_eq!(rec.game, GameKind::NumberGuess);
    assert_eq!(rec.user_id, 7);
    assert_eq!(rec.username, "dave");
    assert_eq!(rec.value, 100);

    let mut word_round = gaming_hub::motus::MotusRound::new(vec!['a', 'b']);
    word_round.submit(&vec!['a', 'b']);
    let rec = word_round.score_record(7, "dave".to_string());
    assert_eq!(rec.game, GameKind::WordGuess);
    assert_eq!(rec.value, 100);

    let game = gaming_hub::reflex::Game::new();
    let rec = game.score_record(7, "dave".to_string());
    assert_eq!(rec.game, GameKind::Reflex);
    assert_eq!(rec.value, 0);
}

#[test]
fn game_names_match_their_tables() {
    assert_eq!(GameKind::NumberGuess.game_name(), "guessing");
    assert_eq!(GameKind::WordGuess.game_name(), "motus");
    assert_eq!(GameKind::Reflex.game_name(), "reflex");
    assert!(GameKind::NumberGuess.insert_score_sql().contains("guessing"));
    assert!(GameKind::WordGuess.best_score_sql().contains("motus"));
    assert!(GameKind::Reflex.leaderboard_sql().contains("reflex"));
}
