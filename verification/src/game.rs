//! Game events and game summaries: the row that recording a completed game
//! stores, how the stored rows are counted, and the answers of the two handlers.
use crate::auth::User;
use crate::http::Status;
use crate::ids::{is_random_uuid, new_random_id};
use vstd::prelude::*;
use vstd::string::StringExecFns;

verus! {

/// What a client sends to record a game: when it was played, in milliseconds
/// since the Unix epoch (UTC).
#[derive(Clone, Copy, Debug, PartialEq, Eq, Structural)]
pub struct GamePayload {
    pub occurred_at: i64,
}

/// A user's statistics.
#[derive(Clone, Copy, Debug, PartialEq, Eq, Structural)]
pub struct UserStats {
    pub total_games_played: i64,
}

/// A user as the game summary shows it.
#[derive(Clone, Debug)]
pub struct UserResponse {
    pub id: u128,
    pub email: String,
    pub stats: UserStats,
}

/// The body of the game summary.
#[derive(Clone, Debug)]
pub struct ResponseBody {
    pub user: UserResponse,
}

/// The value of the `type` column of a recorded game.
pub open spec fn completed_kind() -> Seq<char> {
    "COMPLETED"@
}

/// A row of the `games` table.
#[derive(Clone, Debug)]
pub struct NewGame {
    pub game_id: u128,
    pub user_id: u128,
    pub kind: String,
    pub occurred_at: i64,
}

/// `game` is a row that recording `payload` for `user` makes.
pub open spec fn recorded_for(user: User, payload: GamePayload, game: NewGame) -> bool {
    &&& game.user_id == user.user_id
    &&& game.kind@ == completed_kind()
    &&& game.occurred_at == payload.occurred_at
    &&& is_random_uuid(game.game_id)
}

/// The row that recording `payload` for `user` stores, given the id drawn for
/// the game: that id, the user's id, the kind "COMPLETED" and the payload's time.
pub fn new_game(user: &User, payload: &GamePayload, game_id: u128) -> (game: NewGame)
    ensures
        game.game_id == game_id,
        game.user_id == user.user_id,
        game.kind@ == completed_kind(),
        game.occurred_at == payload.occurred_at,
{
    let kind = String::from_str("COMPLETED");
    NewGame { game_id, user_id: user.user_id, kind, occurred_at: payload.occurred_at }
}

/// What the game-event handler does with the session's user and the payload.
#[derive(Clone, Debug)]
pub enum GameEventStep {
    /// Answer with this status and stop.
    Reply(Status),
    /// Insert this row into the `games` table.
    Record(NewGame),
}

/// Without a logged-in user the event is refused with 403; with one, a row for
/// that user is inserted.
pub fn game_event_start(user: Option<User>, payload: &GamePayload) -> (step: GameEventStep)
    ensures
        match user {
            None => step == GameEventStep::Reply(Status::Forbidden),
            Some(u) => step matches GameEventStep::Record(game) && recorded_for(u, *payload, game),
        },
        user matches Some(u) ==> (step matches GameEventStep::Record(game) && {
            &&& game.user_id == u.user_id
            &&& game.kind@ == "COMPLETED"@
            &&& game.occurred_at == payload.occurred_at
        }),
{
    match user {
        None => GameEventStep::Reply(Status::Forbidden),
        Some(u) => {
            let game_id = new_random_id();
            GameEventStep::Record(new_game(&u, payload, game_id))
        },
    }
}

/// The answer to a game event once the insert has been tried.
pub open spec fn event_reply(inserted: bool) -> Status {
    if inserted {
        Status::Success
    } else {
        Status::InternalServerError
    }
}

pub fn game_event_finish(inserted: bool) -> (s: Status)
    ensures
        s == event_reply(inserted),
        inserted ==> s == Status::Success,
        !inserted ==> s == Status::InternalServerError,
{
    if inserted {
        Status::Success
    } else {
        Status::InternalServerError
    }
}

/// What the game-summary handler does with the session's user.
#[derive(Clone, Debug)]
pub enum SummaryStep {
    /// Answer with this status and stop.
    Reply(Status),
    /// Count the games of this user.
    CountGames(User),
}

pub open spec fn summary_step(user: Option<User>) -> SummaryStep {
    match user {
        None => SummaryStep::Reply(Status::Forbidden),
        Some(u) => SummaryStep::CountGames(u),
    }
}

pub fn game_summary_start(user: Option<User>) -> (step: SummaryStep)
    ensures
        step == summary_step(user),
        user is None ==> step == SummaryStep::Reply(Status::Forbidden),
        user matches Some(u) ==> step == SummaryStep::CountGames(u),
{
    match user {
        None => SummaryStep::Reply(Status::Forbidden),
        Some(u) => SummaryStep::CountGames(u),
    }
}

/// What the count of a user's games came back as: a row whose count may be
/// NULL, no row at all, or a failure of the store.
#[derive(Clone, Copy, Debug, PartialEq, Eq, Structural)]
pub enum CountLookup {
    Row(Option<i64>),
    NoRow,
    Failed,
}

/// The number of games to report for a lookup: a NULL count or a missing row
/// counts as 0; a failed lookup gives none.
pub open spec fn reported_count(lookup: CountLookup) -> Option<i64> {
    match lookup {
        CountLookup::Row(Some(n)) => Some(n),
        CountLookup::Row(None) => Some(0),
        CountLookup::NoRow => Some(0),
        CountLookup::Failed => None,
    }
}

pub fn games_played(lookup: CountLookup) -> (n: Option<i64>)
    ensures
        n == reported_count(lookup),
        lookup matches CountLookup::Row(Some(k)) ==> n == Some(k),
        lookup == CountLookup::Row(None) ==> n == Some(0i64),
        lookup == CountLookup::NoRow ==> n == Some(0i64),
        lookup == CountLookup::Failed ==> n is None,
{
    match lookup {
        CountLookup::Row(Some(n)) => Some(n),
        CountLookup::Row(None) => Some(0),
        CountLookup::NoRow => Some(0),
        CountLookup::Failed => None,
    }
}

/// How the game-summary handler answers.
#[derive(Clone, Debug)]
pub enum SummaryReply {
    /// A bare status.
    Reply(Status),
    /// 200 with this body.
    Body(ResponseBody),
}

/// The body of the summary of `user` with `count` games.
pub open spec fn summary_of(user: User, count: i64, body: ResponseBody) -> bool {
    &&& body.user.id == user.user_id
    &&& body.user.email@ == user.email@
    &&& body.user.stats.total_games_played == count
}

/// The summary of the user's games: 500 where the count failed, else the
/// user's id and email with the reported count.
pub fn game_summary_finish(user: User, lookup: CountLookup) -> (reply: SummaryReply)
    ensures
        match reported_count(lookup) {
            None => reply == SummaryReply::Reply(Status::InternalServerError),
            Some(n) => reply matches SummaryReply::Body(body) && summary_of(user, n, body),
        },
        lookup == CountLookup::Failed ==> reply == SummaryReply::Reply(Status::InternalServerError),
        lookup != CountLookup::Failed ==> (reply matches SummaryReply::Body(body) && {
            &&& body.user.id == user.user_id
            &&& body.user.email@ == user.email@
            &&& (lookup matches CountLookup::Row(Some(k)) ==> body.user.stats.total_games_played == k)
            &&& (lookup == CountLookup::Row(None) || lookup == CountLookup::NoRow
                ==> body.user.stats.total_games_played == 0)
        }),
{
    match games_played(lookup) {
        None => SummaryReply::Reply(Status::InternalServerError),
        Some(n) => {
            let stats = UserStats { total_games_played: n };
            SummaryReply::Body(ResponseBody { user: UserResponse { id: user.user_id, email: user.email, stats } })
        },
    }
}

/// The number of rows of the `games` table that belong to a user: what
/// `SELECT COUNT(game_id) FROM games WHERE user_id = $1` counts.
pub open spec fn games_count(rows: Seq<NewGame>, user_id: u128) -> nat
    decreases rows.len(),
{
    if rows.len() == 0 {
        0
    } else {
        games_count(rows.drop_last(), user_id) + if rows.last().user_id == user_id {
            1nat
        } else {
            0nat
        }
    }
}

/// Recording a game for a user adds one to that user's count of games and
/// leaves every other user's count as it was.
pub proof fn recording_counts_once(rows: Seq<NewGame>, user: User, payload: GamePayload, game: NewGame, other: u128)
    requires
        recorded_for(user, payload, game),
        other != user.user_id,
    ensures
        games_count(rows.push(game), user.user_id) == games_count(rows, user.user_id) + 1,
        games_count(rows.push(game), other) == games_count(rows, other),
{
    assert(rows.push(game).drop_last() =~= rows);
}

/// Once a game is recorded for a user, that user's summary, read from the
/// stored rows, reports one game more than it did before.
pub proof fn summary_counts_recorded_game(
    rows: Seq<NewGame>,
    user: User,
    payload: GamePayload,
    game: NewGame,
    before: ResponseBody,
    after: ResponseBody,
)
    requires
        recorded_for(user, payload, game),
        games_count(rows, user.user_id) < i64::MAX,
        summary_of(user, games_count(rows, user.user_id) as i64, before),
        summary_of(user, games_count(rows.push(game), user.user_id) as i64, after),
    ensures
        after.user.stats.total_games_played == before.user.stats.total_games_played + 1,
{
    assert(rows.push(game).drop_last() =~= rows);
}

/// Recording any number of games for a user adds exactly that many to the
/// user's count, and leaves every other user's count as it was: no recorded
/// game is merged with another or lost.
pub proof fn recording_counts_each(rows: Seq<NewGame>, user: User, games: Seq<NewGame>, other: u128)
    requires
        forall|i: int| 0 <= i < games.len() ==> (#[trigger] games[i]).user_id == user.user_id,
    ensures
        games_count(rows + games, user.user_id) == games_count(rows, user.user_id) + games.len(),
        other != user.user_id ==> games_count(rows + games, other) == games_count(rows, other),
    decreases games.len(),
{
    if games.len() == 0 {
        assert(rows + games =~= rows);
    } else {
        let init = games.drop_last();
        assert forall|i: int| 0 <= i < init.len() implies (#[trigger] init[i]).user_id == user.user_id by {
            assert(init[i] == games[i]);
        }
        recording_counts_each(rows, user, init, other);
        assert((rows + games).drop_last() =~= rows + init);
        assert((rows + games).last() == games[games.len() - 1]);
    }
}

/// After any number of games are recorded for a user, that user's summary,
/// read from the stored rows, reports that many games more than it did before.
pub proof fn summary_counts_recorded_games(
    rows: Seq<NewGame>,
    user: User,
    games: Seq<NewGame>,
    before: ResponseBody,
    after: ResponseBody,
)
    requires
        forall|i: int| 0 <= i < games.len() ==> (#[trigger] games[i]).user_id == user.user_id,
        games_count(rows, user.user_id) + games.len() <= i64::MAX,
        summary_of(user, games_count(rows, user.user_id) as i64, before),
        summary_of(user, games_count(rows + games, user.user_id) as i64, after),
    ensures
        after.user.stats.total_games_played == before.user.stats.total_games_played + games.len(),
{
    recording_counts_each(rows, user, games, user.user_id);
}

/// A count that the store returns in a row is reported exactly as it is, for
/// every count; a NULL count or a missing row is reported as 0, and only a
/// failed lookup reports nothing.
pub proof fn reported_count_is_the_stored_count(n: i64)
    ensures
        reported_count(CountLookup::Row(Some(n))) == Some(n),
        reported_count(CountLookup::Row(None)) == Some(0i64),
        reported_count(CountLookup::NoRow) == Some(0i64),
        reported_count(CountLookup::Failed) is None,
{
}

/// Whatever rows are stored, the count reported for a user is the number of
/// that user's rows, when the store returns that number.
pub proof fn reported_count_is_games_count(rows: Seq<NewGame>, user_id: u128)
    requires
        games_count(rows, user_id) <= i64::MAX,
    ensures
        reported_count(CountLookup::Row(Some(games_count(rows, user_id) as i64)))
            == Some(games_count(rows, user_id) as i64),
        reported_count(CountLookup::Row(Some(games_count(rows, user_id) as i64)))->0
            == games_count(rows, user_id),
{
}

/// The summary step of a logged-in user counts that very user's games: the
/// user it passes on has the same id, email and password hash; without a
/// user the summary is refused with 403.
pub proof fn summary_counts_the_session_user(u: User)
    ensures
        summary_step(Some(u)) matches SummaryStep::CountGames(v) && {
            &&& v.user_id == u.user_id
            &&& v.email@ == u.email@
            &&& v.password_hash@ == u.password_hash@
        },
        summary_step(None) == SummaryStep::Reply(Status::Forbidden),
{
}

/// A game event is answered 200 exactly when its row was inserted, else 500.
pub proof fn event_reply_follows_the_insert(inserted: bool)
    ensures
        (event_reply(inserted) == Status::Success) == inserted,
        !inserted ==> event_reply(inserted) == Status::InternalServerError,
{
}

/// A row recorded for a user belongs to that user, is of kind "COMPLETED" and
/// carries the payload's time.
pub proof fn recorded_row_fields(user: User, payload: GamePayload, game: NewGame)
    requires
        recorded_for(user, payload, game),
    ensures
        game.user_id == user.user_id,
        game.kind@ == "COMPLETED"@,
        game.occurred_at == payload.occurred_at,
{
}

/// The summary body of a user with a count shows that user's id and email
/// and exactly that count.
pub proof fn summary_body_fields(user: User, count: i64, body: ResponseBody)
    requires
        summary_of(user, count, body),
    ensures
        body.user.id == user.user_id,
        body.user.email@ == user.email@,
        body.user.stats.total_games_played == count,
{
}

/// A user's games are counted one per stored row of that user: none
/// stored counts 0, and each row of the user adds one.
pub proof fn games_count_counts_rows(rows: Seq<NewGame>, game: NewGame, user_id: u128)
    ensures
        games_count(Seq::empty(), user_id) == 0,
        game.user_id == user_id ==> games_count(rows.push(game), user_id) == games_count(rows, user_id) + 1,
        game.user_id != user_id ==> games_count(rows.push(game), user_id) == games_count(rows, user_id),
{
    assert(rows.push(game).drop_last() =~= rows);
}

} // verus!
