//! The narrow interface the engines use toward the persistence port: the
//! closed game enumeration, the score record emitted once per completed
//! round, and one fixed, parameterized statement per game in place of any
//! free-form interpolation into query text.

use vstd::prelude::*;

verus! {

/// The closed set of games a score can be recorded for.
#[derive(Clone, Copy, Debug, PartialEq, Eq, Structural)]
pub enum GameKind {
    NumberGuess,
    WordGuess,
    Reflex,
}

impl GameKind {
    pub open spec fn name_spec(self) -> Seq<char> {
        match self {
            GameKind::NumberGuess => "guessing"@,
            GameKind::WordGuess => "motus"@,
            GameKind::Reflex => "reflex"@,
        }
    }

    /// The stored name of the game.
    pub fn game_name(&self) -> (r: &'static str)
        ensures
            r@ == self.name_spec(),
    {
        match self {
            GameKind::NumberGuess => "guessing",
            GameKind::WordGuess => "motus",
            GameKind::Reflex => "reflex",
        }
    }

    pub open spec fn create_table_sql_spec(self) -> Seq<char> {
        match self {
            GameKind::NumberGuess => "CREATE TABLE IF NOT EXISTS guessing (id INTEGER PRIMARY KEY, user_id INTEGER, username TEXT, score INTEGER, FOREIGN KEY (user_id) REFERENCES users(id))"@,
            GameKind::WordGuess => "CREATE TABLE IF NOT EXISTS motus (id INTEGER PRIMARY KEY, user_id INTEGER, username TEXT, score INTEGER, FOREIGN KEY (user_id) REFERENCES users(id))"@,
            GameKind::Reflex => "CREATE TABLE IF NOT EXISTS reflex (id INTEGER PRIMARY KEY, user_id INTEGER, username TEXT, score INTEGER, FOREIGN KEY (user_id) REFERENCES users(id))"@,
        }
    }

    /// The statement that creates the game's score table if it is absent.
    pub fn create_table_sql(&self) -> (r: &'static str)
        ensures
            r@ == self.create_table_sql_spec(),
    {
        match self {
            GameKind::NumberGuess => "CREATE TABLE IF NOT EXISTS guessing (id INTEGER PRIMARY KEY, user_id INTEGER, username TEXT, score INTEGER, FOREIGN KEY (user_id) REFERENCES users(id))",
            GameKind::WordGuess => "CREATE TABLE IF NOT EXISTS motus (id INTEGER PRIMARY KEY, user_id INTEGER, username TEXT, score INTEGER, FOREIGN KEY (user_id) REFERENCES users(id))",
            GameKind::Reflex => "CREATE TABLE IF NOT EXISTS reflex (id INTEGER PRIMARY KEY, user_id INTEGER, username TEXT, score INTEGER, FOREIGN KEY (user_id) REFERENCES users(id))",
        }
    }

    pub open spec fn insert_score_sql_spec(self) -> Seq<char> {
        match self {
            GameKind::NumberGuess => "INSERT INTO guessing (user_id, username, score) VALUES (?1, ?2, ?3)"@,
            GameKind::WordGuess => "INSERT INTO motus (user_id, username, score) VALUES (?1, ?2, ?3)"@,
            GameKind::Reflex => "INSERT INTO reflex (user_id, username, score) VALUES (?1, ?2, ?3)"@,
        }
    }

    /// The parameterized statement that records one score for the game.
    pub fn insert_score_sql(&self) -> (r: &'static str)
        ensures
            r@ == self.insert_score_sql_spec(),
    {
        match self {
            GameKind::NumberGuess => "INSERT INTO guessing (user_id, username, score) VALUES (?1, ?2, ?3)",
            GameKind::WordGuess => "INSERT INTO motus (user_id, username, score) VALUES (?1, ?2, ?3)",
            GameKind::Reflex => "INSERT INTO reflex (user_id, username, score) VALUES (?1, ?2, ?3)",
        }
    }

    pub open spec fn leaderboard_sql_spec(self) -> Seq<char> {
        match self {
            GameKind::NumberGuess => "SELECT username, score FROM guessing ORDER BY score DESC LIMIT 5"@,
            GameKind::WordGuess => "SELECT username, score FROM motus ORDER BY score DESC LIMIT 5"@,
            GameKind::Reflex => "SELECT username, score FROM reflex ORDER BY score DESC LIMIT 5"@,
        }
    }

    /// The query for the game's top five scores, descending.
    pub fn leaderboard_sql(&self) -> (r: &'static str)
        ensures
            r@ == self.leaderboard_sql_spec(),
    {
        match self {
            GameKind::NumberGuess => "SELECT username, score FROM guessing ORDER BY score DESC LIMIT 5",
            GameKind::WordGuess => "SELECT username, score FROM motus ORDER BY score DESC LIMIT 5",
            GameKind::Reflex => "SELECT username, score FROM reflex ORDER BY score DESC LIMIT 5",
        }
    }

    pub open spec fn best_score_sql_spec(self) -> Seq<char> {
        match self {
            GameKind::NumberGuess => "SELECT score FROM guessing WHERE user_id = ?1 ORDER BY score DESC LIMIT 1"@,
            GameKind::WordGuess => "SELECT score FROM motus WHERE user_id = ?1 ORDER BY score DESC LIMIT 1"@,
            GameKind::Reflex => "SELECT score FROM reflex WHERE user_id = ?1 ORDER BY score DESC LIMIT 1"@,
        }
    }

    /// The query for one user's single highest score in the game.
    pub fn best_score_sql(&self) -> (r: &'static str)
        ensures
            r@ == self.best_score_sql_spec(),
    {
        match self {
            GameKind::NumberGuess => "SELECT score FROM guessing WHERE user_id = ?1 ORDER BY score DESC LIMIT 1",
            GameKind::WordGuess => "SELECT score FROM motus WHERE user_id = ?1 ORDER BY score DESC LIMIT 1",
            GameKind::Reflex => "SELECT score FROM reflex WHERE user_id = ?1 ORDER BY score DESC LIMIT 1",
        }
    }
}

/// The statement that creates the user table if it is absent.
pub fn create_users_table_sql() -> (r: &'static str)
    ensures
        r@ == "CREATE TABLE IF NOT EXISTS users (id INTEGER PRIMARY KEY, username TEXT UNIQUE, created_at TIMESTAMP DEFAULT CURRENT_TIMESTAMP)"@,
{
    "CREATE TABLE IF NOT EXISTS users (id INTEGER PRIMARY KEY, username TEXT UNIQUE, created_at TIMESTAMP DEFAULT CURRENT_TIMESTAMP)"
}

/// The parameterized statement that creates a user.
pub fn insert_user_sql() -> (r: &'static str)
    ensures
        r@ == "INSERT INTO users (username) VALUES (?1)"@,
{
    "INSERT INTO users (username) VALUES (?1)"
}

/// The parameterized query that looks a user up by name.
pub fn select_user_sql() -> (r: &'static str)
    ensures
        r@ == "SELECT id, username FROM users WHERE username = ?1"@,
{
    "SELECT id, username FROM users WHERE username = ?1"
}

/// One score record, created exactly once per completed round and handed
/// to the persistence port; its value is never negative.
#[derive(Clone, Debug)]
pub struct ScoreRecord {
    pub game: GameKind,
    pub user_id: i64,
    pub username: String,
    pub value: i32,
}

impl ScoreRecord {
    pub open spec fn wf(self) -> bool {
        self.value >= 0
    }

    pub fn new(game: GameKind, user_id: i64, username: String, value: i32) -> (r: ScoreRecord)
        requires
            value >= 0,
        ensures
            r.wf(),
            r.game == game,
            r.user_id == user_id,
            r.username@ == username@,
            r.value == value,
    {
        ScoreRecord { game, user_id, username, value }
    }
}

} // verus!
