//! The work done for one packet: find the key it was sealed with, open
//! and decode it, and record the kills of the player update it carries.
//! The database is outside the library, so the work is a state machine:
//! each step takes what the last query gave and says what to do next.
use vstd::prelude::*;
use bytes::BytesMut;
use crate::buffer::bytes_view;
use crate::crypto::{KEY_LEN, NONCE_LEN};
use crate::codec::packed_player_update;
use crate::message::{message_type_of, opened_plaintext, DecryptError, Message, MessageType};
use crate::models::{Kill, Player, ServerKey};
use crate::packet::Packet;
use crate::player_update::{InGameKill, PlayerUpdate};
use crate::wire::be_i32;

verus! {

#[verifier::external_type_specification]
#[verifier::external_body]
pub struct ExDieselError(diesel::result::Error);

/// A failed database query: no row matched, or the query failed.
#[derive(Debug)]
pub enum SqlError {
    NotFound,
    Other(diesel::result::Error),
}

/// Why a packet could not be processed.
#[derive(Debug)]
pub enum ProcessingError {
    SqlError(SqlError),
    ParseError(DecryptError),
}

impl From<SqlError> for ProcessingError {
    fn from(err: SqlError) -> (r: ProcessingError) {
        ProcessingError::SqlError(err)
    }
}

impl vstd::std_specs::convert::FromSpecImpl<SqlError> for ProcessingError {
    open spec fn obeys_from_spec() -> bool {
        true
    }

    open spec fn from_spec(err: SqlError) -> ProcessingError {
        ProcessingError::SqlError(err)
    }
}

impl From<DecryptError> for ProcessingError {
    fn from(err: DecryptError) -> (r: ProcessingError) {
        ProcessingError::ParseError(err)
    }
}

impl vstd::std_specs::convert::FromSpecImpl<DecryptError> for ProcessingError {
    open spec fn obeys_from_spec() -> bool {
        true
    }

    open spec fn from_spec(err: DecryptError) -> ProcessingError {
        ProcessingError::ParseError(err)
    }
}

/// What the worker asks for next.
pub enum WorkerAction {
    /// Look up the server key with this id.
    LoadServerKey(i64),
    /// Look up the player with this Steam id.
    FindPlayer(i64),
    /// Insert a player with this Steam id.
    InsertPlayer(i64),
    /// Store this kill.
    SaveKill(Kill),
    /// The packet is done with, with this outcome.
    Finish(Result<(), ProcessingError>),
    /// The packet cannot be processed: its key is good but its nonce field
    /// is shorter than a nonce, or its plaintext is too short to hold a
    /// message type.  The daemon's worker stops on a panic here.
    Abandon,
}

/// What an action gave.
pub enum WorkerEvent {
    /// The answer to `LoadServerKey`.
    ServerKeyLoaded(Result<ServerKey, SqlError>),
    /// The answer to `FindPlayer` or `InsertPlayer`.
    PlayerLoaded(Result<Player, SqlError>),
    /// `SaveKill` was carried out (a failure to store the kill is logged
    /// and does not stop the packet).
    KillSaved,
}

/// Where the work on one packet stands.
pub enum PacketJob {
    AwaitingKey { nonce: BytesMut, data: BytesMut },
    FindingKiller { server_id: i64, update: PlayerUpdate },
    InsertingKiller { server_id: i64, update: PlayerUpdate },
    FindingVictim { server_id: i64, killer_id: i64, kill: InGameKill, rest: Vec<InGameKill> },
    InsertingVictim { server_id: i64, killer_id: i64, kill: InGameKill, rest: Vec<InGameKill> },
    SavingKill { server_id: i64, killer_id: i64, rest: Vec<InGameKill> },
    Finished,
}

/// The kill record for `kill`, made by `killer_id` and suffered by
/// `victim_id` on server `server_id`.
pub open spec fn kill_record(kill: InGameKill, server_id: i64, killer_id: i64, victim_id: i64) -> Kill {
    Kill {
        timestamp: kill.timestamp,
        map: kill.map,
        server_id,
        killer_id,
        victim_id,
        headshot: kill.headshot,
        pos_x: kill.pos_x,
        pos_y: kill.pos_y,
        pos_z: kill.pos_z,
        weapon: kill.weapon,
    }
}

/// What comes once the killer is known and `kills` remain to be recorded:
/// the first remaining victim is looked up, or the packet is done.
pub open spec fn next_kill(
    r: (PacketJob, WorkerAction),
    server_id: i64,
    killer_id: i64,
    kills: Seq<InGameKill>,
) -> bool {
    if kills.len() == 0 {
        &&& r.0 is Finished
        &&& r.1 matches WorkerAction::Finish(Ok(()))
    } else {
        &&& r.0 matches PacketJob::FindingVictim { server_id: s, killer_id: k, kill, rest } && s
            == server_id && k == killer_id && kill == kills[0] && rest@ == kills.drop_first()
        &&& r.1 == WorkerAction::FindPlayer(kills[0].victim_id)
    }
}

/// The packet is done with, with this outcome.
pub open spec fn finishes(r: (PacketJob, WorkerAction), outcome: Result<(), ProcessingError>) -> bool {
    &&& r.0 is Finished
    &&& r.1 == WorkerAction::Finish(outcome)
}

/// What opening and decoding a packet under a loaded key leads to.
pub open spec fn opens_to(
    r: (PacketJob, WorkerAction),
    server_id: i64,
    key: Seq<u8>,
    nonce: Seq<u8>,
    data: Seq<u8>,
) -> bool {
    let opened = opened_plaintext(key, nonce, data);
    if key.len() == KEY_LEN && (nonce.len() < NONCE_LEN || (opened matches Some(p) && p.len() < 4)) {
        r.0 is Finished && r.1 is Abandon
    } else {
        match opened {
            None => finishes(r, Err(ProcessingError::ParseError(DecryptError::CryptographyError))),
            Some(p) => if message_type_of(be_i32(p)) == MessageType::PlayerUpdate {
                match packed_player_update(p.skip(4)) {
                    Ok(u) => {
                        &&& r.0 matches PacketJob::FindingKiller { server_id: s, update } && s
                            == server_id && update@ == u
                        &&& r.1 == WorkerAction::FindPlayer(u.steam_id)
                    },
                    Err(e) => {
                        &&& r.0 is Finished
                        &&& r.1 matches WorkerAction::Finish(
                            Err(ProcessingError::ParseError(DecryptError::DeserializeError(e2))),
                        ) && e2 == e
                    },
                }
            } else {
                finishes(r, Err(ProcessingError::ParseError(DecryptError::InvalidMessage)))
            },
        }
    }
}

impl PacketJob {
    /// The event the job waits for is of the kind that `event` is.
    pub open spec fn accepts(&self, event: WorkerEvent) -> bool {
        match self {
            PacketJob::AwaitingKey { .. } => event is ServerKeyLoaded,
            PacketJob::FindingKiller { .. } => event is PlayerLoaded,
            PacketJob::InsertingKiller { .. } => event is PlayerLoaded,
            PacketJob::FindingVictim { .. } => event is PlayerLoaded,
            PacketJob::InsertingVictim { .. } => event is PlayerLoaded,
            PacketJob::SavingKill { .. } => event is KillSaved,
            PacketJob::Finished => false,
        }
    }

    /// How far the job is from its end: first by stage, then by the
    /// actions left within the stage.
    pub open spec fn stage(&self) -> nat {
        match self {
            PacketJob::AwaitingKey { .. } => 2,
            PacketJob::Finished => 0,
            _ => 1,
        }
    }

    /// The actions left in the stage of recording kills.
    pub open spec fn work_left(&self) -> nat {
        match self {
            PacketJob::FindingKiller { update, .. } => 3 * update.kills@.len() + 2,
            PacketJob::InsertingKiller { update, .. } => 3 * update.kills@.len() + 1,
            PacketJob::FindingVictim { rest, .. } => 3 * rest@.len() + 3,
            PacketJob::InsertingVictim { rest, .. } => 3 * rest@.len() + 2,
            PacketJob::SavingKill { rest, .. } => 3 * rest@.len() + 1,
            _ => 0,
        }
    }

    /// What a step from `self` on `event` gives.
    pub open spec fn steps_to(self, event: WorkerEvent, r: (PacketJob, WorkerAction)) -> bool {
        match (self, event) {
            (PacketJob::AwaitingKey { nonce, data }, WorkerEvent::ServerKeyLoaded(found)) => match found {
                Err(e) => finishes(r, Err(ProcessingError::SqlError(e))),
                Ok(key) => opens_to(r, key.server_id, key.key_data@, bytes_view(nonce), bytes_view(data)),
            },
            (PacketJob::FindingKiller { server_id, update }, WorkerEvent::PlayerLoaded(found)) => match found {
                Ok(player) => next_kill(r, server_id, player.player_id, update.kills@),
                Err(SqlError::NotFound) => {
                    &&& r.0 == PacketJob::InsertingKiller { server_id, update }
                    &&& r.1 == WorkerAction::InsertPlayer(update.steam_id)
                },
                Err(e) => finishes(r, Err(ProcessingError::SqlError(e))),
            },
            (PacketJob::InsertingKiller { server_id, update }, WorkerEvent::PlayerLoaded(found)) => match found {
                Ok(player) => next_kill(r, server_id, player.player_id, update.kills@),
                Err(e) => finishes(r, Err(ProcessingError::SqlError(e))),
            },
            (
                PacketJob::FindingVictim { server_id, killer_id, kill, rest },
                WorkerEvent::PlayerLoaded(found),
            ) => match found {
                Ok(victim) => {
                    &&& r.0 matches PacketJob::SavingKill { server_id: s, killer_id: k, rest: r2 } && s
                        == server_id && k == killer_id && r2@ == rest@
                    &&& r.1 == WorkerAction::SaveKill(
                        kill_record(kill, server_id, killer_id, victim.player_id),
                    )
                },
                Err(SqlError::NotFound) => {
                    &&& r.0 matches PacketJob::InsertingVictim {
                        server_id: s,
                        killer_id: k,
                        kill: kl,
                        rest: r2,
                    } && s == server_id && k == killer_id && kl == kill && r2@ == rest@
                    &&& r.1 == WorkerAction::InsertPlayer(kill.victim_id)
                },
                Err(e) => finishes(r, Err(ProcessingError::SqlError(e))),
            },
            (
                PacketJob::InsertingVictim { server_id, killer_id, kill, rest },
                WorkerEvent::PlayerLoaded(found),
            ) => match found {
                Ok(victim) => {
                    &&& r.0 matches PacketJob::SavingKill { server_id: s, killer_id: k, rest: r2 } && s
                        == server_id && k == killer_id && r2@ == rest@
                    &&& r.1 == WorkerAction::SaveKill(
                        kill_record(kill, server_id, killer_id, victim.player_id),
                    )
                },
                Err(e) => finishes(r, Err(ProcessingError::SqlError(e))),
            },
            (PacketJob::SavingKill { server_id, killer_id, rest }, WorkerEvent::KillSaved) => next_kill(
                r,
                server_id,
                killer_id,
                rest@,
            ),
            _ => false,
        }
    }

    /// Starts the work on a packet: its server key is looked up first.
    pub fn start(packet: Packet) -> (r: (PacketJob, WorkerAction))
        ensures
            r.0 == (PacketJob::AwaitingKey { nonce: packet.nonce, data: packet.data }),
            r.1 == WorkerAction::LoadServerKey(packet.key_id),
    {
        let key_id = packet.key_id;
        (PacketJob::AwaitingKey { nonce: packet.nonce, data: packet.data }, WorkerAction::LoadServerKey(key_id))
    }

    /// Once the killer is known: looks up the next victim, or finishes.
    fn continue_kills(server_id: i64, killer_id: i64, kills: Vec<InGameKill>) -> (r: (
        PacketJob,
        WorkerAction,
    ))
        ensures
            next_kill(r, server_id, killer_id, kills@),
            r.0.stage() <= 1,
            r.0.work_left() <= 3 * kills@.len(),
    {
        let mut kills = kills;
        if kills.len() == 0 {
            (PacketJob::Finished, WorkerAction::Finish(Ok(())))
        } else {
            let kill = kills.remove(0);
            let victim_id = kill.victim_id;
            (
                PacketJob::FindingVictim { server_id, killer_id, kill, rest: kills },
                WorkerAction::FindPlayer(victim_id),
            )
        }
    }

    /// Takes the answer to the last action and says what to do next.
    /// Every step brings the job nearer to its end, and the job is
    /// finished exactly when the action is to finish or abandon it.
    pub fn step(self, event: WorkerEvent) -> (r: (PacketJob, WorkerAction))
        requires
            self.accepts(event),
        ensures
            self.steps_to(event, r),
            r.0.stage() < self.stage() || (r.0.stage() == self.stage() && r.0.work_left()
                < self.work_left()),
            (r.0 is Finished) <==> (r.1 is Finish || r.1 is Abandon),
    {
        match self {
            PacketJob::AwaitingKey { nonce, data } => match event {
                WorkerEvent::ServerKeyLoaded(Ok(key)) => {
                    let server_id = key.server_id;
                    match Message::decrypt_checked(key.key_data.as_slice(), nonce, data) {
                        None => (PacketJob::Finished, WorkerAction::Abandon),
                        Some(Err(e)) => (
                            PacketJob::Finished,
                            WorkerAction::Finish(Err(ProcessingError::from(e))),
                        ),
                        Some(Ok(Message::PlayerUpdate(update))) => {
                            let steam_id = update.steam_id;
                            (PacketJob::FindingKiller { server_id, update }, WorkerAction::FindPlayer(steam_id))
                        },
                    }
                },
                WorkerEvent::ServerKeyLoaded(Err(e)) => (
                    PacketJob::Finished,
                    WorkerAction::Finish(Err(ProcessingError::from(e))),
                ),
                _ => (PacketJob::Finished, WorkerAction::Abandon),
            },
            PacketJob::FindingKiller { server_id, update } => match event {
                WorkerEvent::PlayerLoaded(Ok(player)) => PacketJob::continue_kills(
                    server_id,
                    player.player_id,
                    update.kills,
                ),
                WorkerEvent::PlayerLoaded(Err(SqlError::NotFound)) => {
                    let steam_id = update.steam_id;
                    (PacketJob::InsertingKiller { server_id, update }, WorkerAction::InsertPlayer(steam_id))
                },
                WorkerEvent::PlayerLoaded(Err(e)) => (
                    PacketJob::Finished,
                    WorkerAction::Finish(Err(ProcessingError::from(e))),
                ),
                _ => (PacketJob::Finished, WorkerAction::Abandon),
            },
            PacketJob::InsertingKiller { server_id, update } => match event {
                WorkerEvent::PlayerLoaded(Ok(player)) => PacketJob::continue_kills(
                    server_id,
                    player.player_id,
                    update.kills,
                ),
                WorkerEvent::PlayerLoaded(Err(e)) => (
                    PacketJob::Finished,
                    WorkerAction::Finish(Err(ProcessingError::from(e))),
                ),
                _ => (PacketJob::Finished, WorkerAction::Abandon),
            },
            PacketJob::FindingVictim { server_id, killer_id, kill, rest } => match event {
                WorkerEvent::PlayerLoaded(Ok(victim)) => {
                    let record = Kill {
                        timestamp: kill.timestamp,
                        map: kill.map,
                        server_id,
                        killer_id,
                        victim_id: victim.player_id,
                        headshot: kill.headshot,
                        pos_x: kill.pos_x,
                        pos_y: kill.pos_y,
                        pos_z: kill.pos_z,
                        weapon: kill.weapon,
                    };
                    (PacketJob::SavingKill { server_id, killer_id, rest }, WorkerAction::SaveKill(record))
                },
                WorkerEvent::PlayerLoaded(Err(SqlError::NotFound)) => {
                    let victim_id = kill.victim_id;
                    (
                        PacketJob::InsertingVictim { server_id, killer_id, kill, rest },
                        WorkerAction::InsertPlayer(victim_id),
                    )
                },
                WorkerEvent::PlayerLoaded(Err(e)) => (
                    PacketJob::Finished,
                    WorkerAction::Finish(Err(ProcessingError::from(e))),
                ),
                _ => (PacketJob::Finished, WorkerAction::Abandon),
            },
            PacketJob::InsertingVictim { server_id, killer_id, kill, rest } => match event {
                WorkerEvent::PlayerLoaded(Ok(victim)) => {
                    let record = Kill {
                        timestamp: kill.timestamp,
                        map: kill.map,
                        server_id,
                        killer_id,
                        victim_id: victim.player_id,
                        headshot: kill.headshot,
                        pos_x: kill.pos_x,
                        pos_y: kill.pos_y,
                        pos_z: kill.pos_z,
                        weapon: kill.weapon,
                    };
                    (PacketJob::SavingKill { server_id, killer_id, rest }, WorkerAction::SaveKill(record))
                },
                WorkerEvent::PlayerLoaded(Err(e)) => (
                    PacketJob::Finished,
                    WorkerAction::Finish(Err(ProcessingError::from(e))),
                ),
                _ => (PacketJob::Finished, WorkerAction::Abandon),
            },
            PacketJob::SavingKill { server_id, killer_id, rest } => PacketJob::continue_kills(
                server_id,
                killer_id,
                rest,
            ),
            PacketJob::Finished => (PacketJob::Finished, WorkerAction::Abandon),
        }
    }
}


/// A kill is saved as it was decoded: when a step asks to save a kill,
/// the job was at a kill whose victim the database just gave back, and
/// the record carries that kill's timestamp, map, headshot flag, position
/// and weapon unchanged, the job's server and killer, and the victim's
/// row id.
pub proof fn lemma_saved_kill_is_the_decoded_kill(
    job: PacketJob,
    event: WorkerEvent,
    r: (PacketJob, WorkerAction),
)
    requires
        job.steps_to(event, r),
        r.1 is SaveKill,
    ensures
        r.1 matches WorkerAction::SaveKill(rec) && event matches WorkerEvent::PlayerLoaded(
            Ok(victim),
        ) && ((job matches PacketJob::FindingVictim { server_id, killer_id, kill, .. } && {
            &&& rec.timestamp == kill.timestamp
            &&& rec.map == kill.map
            &&& rec.headshot == kill.headshot
            &&& rec.pos_x == kill.pos_x
            &&& rec.pos_y == kill.pos_y
            &&& rec.pos_z == kill.pos_z
            &&& rec.weapon == kill.weapon
            &&& rec.server_id == server_id
            &&& rec.killer_id == killer_id
            &&& rec.victim_id == victim.player_id
        }) || (job matches PacketJob::InsertingVictim { server_id, killer_id, kill, .. } && {
            &&& rec.timestamp == kill.timestamp
            &&& rec.map == kill.map
            &&& rec.headshot == kill.headshot
            &&& rec.pos_x == kill.pos_x
            &&& rec.pos_y == kill.pos_y
            &&& rec.pos_z == kill.pos_z
            &&& rec.weapon == kill.weapon
            &&& rec.server_id == server_id
            &&& rec.killer_id == killer_id
            &&& rec.victim_id == victim.player_id
        })),
{
}

/// The killer id that a job carries, once the killer is known.
pub open spec fn known_killer(job: PacketJob) -> Option<i64> {
    match job {
        PacketJob::FindingVictim { killer_id, .. } => Some(killer_id),
        PacketJob::InsertingVictim { killer_id, .. } => Some(killer_id),
        PacketJob::SavingKill { killer_id, .. } => Some(killer_id),
        _ => None,
    }
}

/// The killer is the player row that the database gave for the update's
/// Steam id: when the lookup or the insert of the killer answers with a
/// row, every job that follows carries that row's id as the killer, and
/// the first victim looked up is the first kill's victim.
pub proof fn lemma_killer_is_the_player_row(
    job: PacketJob,
    player: Player,
    r: (PacketJob, WorkerAction),
)
    requires
        job is FindingKiller || job is InsertingKiller,
        job.steps_to(WorkerEvent::PlayerLoaded(Ok(player)), r),
    ensures
        r.0 is Finished || known_killer(r.0) == Some(player.player_id),
        job matches PacketJob::FindingKiller { update, .. } ==> (update.kills@.len() > 0 ==> r.1
            == WorkerAction::FindPlayer(update.kills@[0].victim_id)),
        job matches PacketJob::InsertingKiller { update, .. } ==> (update.kills@.len() > 0 ==> r.1
            == WorkerAction::FindPlayer(update.kills@[0].victim_id)),
{
}

/// Once the killer is known it stays the same: every step from a job
/// that carries a killer to another such job keeps the killer, and a kill
/// saved on the way is recorded under it.
pub proof fn lemma_killer_is_kept(job: PacketJob, event: WorkerEvent, r: (PacketJob, WorkerAction))
    requires
        known_killer(job) is Some,
        job.steps_to(event, r),
    ensures
        known_killer(r.0) is Some ==> known_killer(r.0) == known_killer(job),
        r.1 matches WorkerAction::SaveKill(rec) ==> Some(rec.killer_id) == known_killer(job),
{
}


/// The decoded update starts the recording: once the key is found and
/// the packet decodes, the killer looked up is the update's player, and
/// the kills are recorded for the key's server.
pub proof fn lemma_update_starts_with_its_player(
    nonce: BytesMut,
    data: BytesMut,
    key: ServerKey,
    r: (PacketJob, WorkerAction),
)
    requires
        (PacketJob::AwaitingKey { nonce, data }).steps_to(WorkerEvent::ServerKeyLoaded(Ok(key)), r),
    ensures
        r.0 matches PacketJob::FindingKiller { server_id, update } ==> {
            &&& server_id == key.server_id
            &&& r.1 == WorkerAction::FindPlayer(update.steam_id)
        },
        !(r.0 is FindingKiller) ==> (r.0 is Finished),
{
}

/// A player that the database does not know is inserted under the Steam
/// id it was looked up by: the update's player for the killer, the kill's
/// victim for a victim; the job goes on with the same update or kill.
pub proof fn lemma_missing_player_is_inserted(job: PacketJob, r: (PacketJob, WorkerAction))
    requires
        job.steps_to(WorkerEvent::PlayerLoaded(Err(SqlError::NotFound)), r),
        job is FindingKiller || job is FindingVictim,
    ensures
        job matches PacketJob::FindingKiller { server_id, update } ==> {
            &&& r.1 == WorkerAction::InsertPlayer(update.steam_id)
            &&& r.0 == PacketJob::InsertingKiller { server_id, update }
        },
        job matches PacketJob::FindingVictim { server_id, killer_id, kill, rest } ==> {
            &&& r.1 == WorkerAction::InsertPlayer(kill.victim_id)
            &&& r.0 matches PacketJob::InsertingVictim { server_id: s, killer_id: k, kill: kl, rest: rs }
                && s == server_id && k == killer_id && kl == kill && rs@ == rest@
        },
{
}

/// A failed query ends the packet with that query's error: a missing or
/// failed key, a failed insert, or a lookup that failed otherwise than by
/// finding no row.
pub proof fn lemma_failed_query_finishes(job: PacketJob, event: WorkerEvent, r: (PacketJob, WorkerAction))
    requires
        job.steps_to(event, r),
    ensures
        event matches WorkerEvent::ServerKeyLoaded(Err(e)) ==> r.0 is Finished && r.1
            == WorkerAction::Finish(Err(ProcessingError::SqlError(e))),
        event matches WorkerEvent::PlayerLoaded(Err(e)) ==> (e is NotFound && (job is FindingKiller
            || job is FindingVictim)) || (r.0 is Finished && r.1 == WorkerAction::Finish(
            Err(ProcessingError::SqlError(e)),
        )),
{
}

/// A packet finishes well only once every kill of its update has been
/// asked to be saved: a step that finishes with success comes from a job
/// with no kill left to record.
pub proof fn lemma_success_only_when_no_kill_left(
    job: PacketJob,
    event: WorkerEvent,
    r: (PacketJob, WorkerAction),
)
    requires
        job.steps_to(event, r),
        r.1 == WorkerAction::Finish(Ok(())),
    ensures
        job matches PacketJob::FindingKiller { update, .. } ==> update.kills@.len() == 0,
        job matches PacketJob::InsertingKiller { update, .. } ==> update.kills@.len() == 0,
        job matches PacketJob::SavingKill { rest, .. } ==> rest@.len() == 0,
        !(job is FindingVictim || job is InsertingVictim || job is AwaitingKey),
{
}

} // verus!
