//! The database flows: fetching a record (and creating it when it is missing),
//! updating and deleting it, as decisions taken one reply of the database at a time,
//! and the error messages each failure is reported with.
use crate::text::{concat3, i64_to_decimal, owned, push_str, signed_decimal};
use rustflake::Snowflake;
use vstd::prelude::*;

verus! {

/// What a flow does with a record.
#[derive(Clone, Copy, Debug, PartialEq, Eq, Structural)]
pub enum DbOp {
    Get,
    Update,
    Delete,
}

/// What the database answered last, or `Start` before the first request.
#[derive(Clone, Copy, Debug, PartialEq, Eq, Structural)]
pub enum DbEvent {
    Start,
    Found,
    Missing,
    FindFailed,
    Inserted,
    InsertFailed,
    Updated,
    UpdateFailed,
    Deleted,
    DeleteFailed,
}

/// The step of a flow that failed.
#[derive(Clone, Copy, Debug, PartialEq, Eq, Structural)]
pub enum DbFailure {
    Fetch,
    Insert,
    Update,
    Delete,
}

/// What the flow asks of the database next, or how it ends: `Finish(true)` when it
/// ends with a record (the one found, updated or deleted), `Finish(false)` when there
/// was none.
#[derive(Clone, Copy, Debug, PartialEq, Eq, Structural)]
pub enum DbAction {
    Find,
    Insert,
    Update,
    Delete,
    Finish(bool),
    Fail(DbFailure),
}

/// The decision of a flow: look the record up; when it is found, update or delete it
/// (or finish with it); when it is missing, insert the default record and look it up
/// again if there is one, finish without a record otherwise; any failure ends the
/// flow with the step that failed.
pub open spec fn db_step_spec(op: DbOp, create_missing: bool, ev: DbEvent) -> DbAction {
    match ev {
        DbEvent::Start => DbAction::Find,
        DbEvent::Found => match op {
            DbOp::Get => DbAction::Finish(true),
            DbOp::Update => DbAction::Update,
            DbOp::Delete => DbAction::Delete,
        },
        DbEvent::Missing => if create_missing {
            DbAction::Insert
        } else {
            DbAction::Finish(false)
        },
        DbEvent::FindFailed => DbAction::Fail(DbFailure::Fetch),
        DbEvent::Inserted => DbAction::Find,
        DbEvent::InsertFailed => DbAction::Fail(DbFailure::Insert),
        DbEvent::Updated => DbAction::Finish(true),
        DbEvent::UpdateFailed => DbAction::Fail(DbFailure::Update),
        DbEvent::Deleted => DbAction::Finish(true),
        DbEvent::DeleteFailed => DbAction::Fail(DbFailure::Delete),
    }
}

/// The next step of a flow, given the database's last answer. Fetching and updating
/// a guild create it when it is missing (`create_missing`); deleting does not.
pub fn db_step(op: DbOp, create_missing: bool, ev: DbEvent) -> (a: DbAction)
    ensures
        a == db_step_spec(op, create_missing, ev),
{
    match ev {
        DbEvent::Start => DbAction::Find,
        DbEvent::Found => match op {
            DbOp::Get => DbAction::Finish(true),
            DbOp::Update => DbAction::Update,
            DbOp::Delete => DbAction::Delete,
        },
        DbEvent::Missing => if create_missing {
            DbAction::Insert
        } else {
            DbAction::Finish(false)
        },
        DbEvent::FindFailed => DbAction::Fail(DbFailure::Fetch),
        DbEvent::Inserted => DbAction::Find,
        DbEvent::InsertFailed => DbAction::Fail(DbFailure::Insert),
        DbEvent::Updated => DbAction::Finish(true),
        DbEvent::UpdateFailed => DbAction::Fail(DbFailure::Update),
        DbEvent::Deleted => DbAction::Finish(true),
        DbEvent::DeleteFailed => DbAction::Fail(DbFailure::Delete),
    }
}

/// Whether fetching and updating create a missing record: always for updates,
/// never for deletes, and for fetches when a default record is given.
pub open spec fn creates_missing(op: DbOp, has_default: bool) -> bool {
    match op {
        DbOp::Get => has_default,
        DbOp::Update => true,
        DbOp::Delete => false,
    }
}

/// The item named in a fetch error: a delete always looks its record up as a guild.
pub open spec fn fetch_item(op: DbOp, item: Seq<char>) -> Seq<char> {
    if op == DbOp::Delete {
        "guild"@
    } else {
        item
    }
}

/// The message a failed step of a flow on `item` with id `id` is reported with.
pub open spec fn db_error_spec(f: DbFailure, op: DbOp, item: Seq<char>, id: Seq<char>) -> Seq<char> {
    match f {
        DbFailure::Fetch => "failed to fetch "@ + fetch_item(op, item) + " swith id "@ + id + " from db"@,
        DbFailure::Insert => "failed to insert "@ + item + " with id "@ + id + " into db"@,
        DbFailure::Update => "failed to update "@ + item + " with id "@ + id + " in db"@,
        DbFailure::Delete => "failed to delete "@ + item + " with id "@ + id + " from db"@,
    }
}

/// The error message of a failed step.
pub fn db_error(f: DbFailure, op: DbOp, item: &str, id: &str) -> (s: String)
    ensures
        s@ == db_error_spec(f, op, item@, id@),
{
    let (head, name, middle, tail) = match f {
        DbFailure::Fetch => ("failed to fetch ", if op == DbOp::Delete { "guild" } else { item }, " swith id ", " from db"),
        DbFailure::Insert => ("failed to insert ", item, " with id ", " into db"),
        DbFailure::Update => ("failed to update ", item, " with id ", " in db"),
        DbFailure::Delete => ("failed to delete ", item, " with id ", " from db"),
    };
    let mut s = concat3(head, name, middle);
    push_str(&mut s, id);
    push_str(&mut s, tail);
    s
}

/// The message of a failed fetch of all the records of an item.
pub open spec fn fetch_all_error_spec(item: Seq<char>) -> Seq<char> {
    "failed to fetch all "@ + item + "s from db"@
}

/// The error message of a failed fetch of all the records of an item.
pub fn fetch_all_error(item: &str) -> (s: String)
    ensures
        s@ == fetch_all_error_spec(item@),
{
    concat3("failed to fetch all ", item, "s from db")
}

/// The item name of guild records.
pub const GUILD_ITEM: &'static str = "guild";

/// A guild record to write: its id, and its autorole setting when it is set.
#[derive(Clone, Debug)]
pub struct GuildRecord {
    pub id: String,
    pub autorole: Option<bool>,
}

/// The record inserted for a guild that has none: only its id is set.
pub fn default_model(id: &str) -> (r: GuildRecord)
    ensures
        r.id@ == id@,
        r.autorole is None,
{
    GuildRecord { id: owned(id), autorole: None }
}

/// The change that toggles a guild's autorole setting.
pub fn toggle_autorole(r: &mut GuildRecord)
    requires
        old(r).autorole is Some,
    ensures
        final(r).id@ == old(r).id@,
        final(r).autorole == Some(!old(r).autorole.unwrap()),
{
    let v = match r.autorole {
        Some(v) => v,
        None => false,
    };
    r.autorole = Some(!v);
}

/// The message of a failed fetch of one autorole record by its id (no space before
/// "from").
pub open spec fn autorole_fetch_error_spec(id: Seq<char>) -> Seq<char> {
    "failed to fetch autorole with id "@ + id + "from db"@
}

/// The error message of a failed fetch of one autorole record.
pub fn autorole_fetch_error(id: &str) -> (s: String)
    ensures
        s@ == autorole_fetch_error_spec(id@),
{
    concat3("failed to fetch autorole with id ", id, "from db")
}

/// The message of a failed fetch of a guild's autorole records.
pub open spec fn guild_autoroles_error_spec(guild_id: Seq<char>) -> Seq<char> {
    "failed to fetch autoroles from guild with id "@ + guild_id + " from db"@
}

/// The error message of a failed fetch of a guild's autorole records.
pub fn guild_autoroles_error(guild_id: &str) -> (s: String)
    ensures
        s@ == guild_autoroles_error_spec(guild_id@),
{
    concat3("failed to fetch autoroles from guild with id ", guild_id, " from db")
}

/// The message of a failed step on an autorole record, named by its role's id.
pub open spec fn autorole_error_spec(f: DbFailure, role_id: Seq<char>) -> Seq<char> {
    match f {
        DbFailure::Insert => "failed to insert autorole with id "@ + role_id + " into db"@,
        DbFailure::Delete => "failed to delete autorole with id "@ + role_id + " from db"@,
        _ => "failed to fetch autorole with id "@ + role_id + " from db"@,
    }
}

/// The error message of a failed step on an autorole record.
pub fn autorole_error(f: DbFailure, role_id: &str) -> (s: String)
    ensures
        s@ == autorole_error_spec(f, role_id@),
{
    match f {
        DbFailure::Insert => concat3("failed to insert autorole with id ", role_id, " into db"),
        DbFailure::Delete => concat3("failed to delete autorole with id ", role_id, " from db"),
        _ => concat3("failed to fetch autorole with id ", role_id, " from db"),
    }
}

/// The message of a failed step on a member record, named by its user and guild.
pub open spec fn member_error_spec(f: DbFailure, user_id: Seq<char>, guild_id: Seq<char>) -> Seq<char> {
    let verb = match f {
        DbFailure::Insert => "insert"@,
        DbFailure::Delete => "delete"@,
        DbFailure::Update => "update"@,
        DbFailure::Fetch => "fetch"@,
    };
    let place = match f {
        DbFailure::Insert => " into db"@,
        DbFailure::Update => " in db"@,
        _ => " from db"@,
    };
    "failed to "@ + verb + " member with user id "@ + user_id + ", guild id "@ + guild_id + place
}

/// The error message of a failed step on a member record.
pub fn member_error(f: DbFailure, user_id: &str, guild_id: &str) -> (s: String)
    ensures
        s@ == member_error_spec(f, user_id@, guild_id@),
{
    let verb = match f {
        DbFailure::Insert => "insert",
        DbFailure::Delete => "delete",
        DbFailure::Update => "update",
        DbFailure::Fetch => "fetch",
    };
    let place = match f {
        DbFailure::Insert => " into db",
        DbFailure::Update => " in db",
        _ => " from db",
    };
    let mut s = concat3("failed to ", verb, " member with user id ");
    push_str(&mut s, user_id);
    push_str(&mut s, ", guild id ");
    push_str(&mut s, guild_id);
    push_str(&mut s, place);
    s
}

/// The message of a failed step on a user record.
pub open spec fn user_error_spec(f: DbFailure, id: Seq<char>) -> Seq<char> {
    match f {
        DbFailure::Insert => "failed to insert user with id "@ + id + " into db"@,
        DbFailure::Delete => "failed to delete user with id "@ + id + " from db"@,
        DbFailure::Update => "failed to update user with id "@ + id + " in db"@,
        DbFailure::Fetch => "failed to fetch user with id "@ + id + " from db"@,
    }
}

/// The error message of a failed step on a user record.
pub fn user_error(f: DbFailure, id: &str) -> (s: String)
    ensures
        s@ == user_error_spec(f, id@),
{
    match f {
        DbFailure::Insert => concat3("failed to insert user with id ", id, " into db"),
        DbFailure::Delete => concat3("failed to delete user with id ", id, " from db"),
        DbFailure::Update => concat3("failed to update user with id ", id, " in db"),
        DbFailure::Fetch => concat3("failed to fetch user with id ", id, " from db"),
    }
}

/// The message of a failed fetch of all user (or member) records.
pub open spec fn all_users_error_spec() -> Seq<char> {
    "failed to fetch all users from db"@
}

/// The error message of a failed fetch of all user or member records.
pub fn all_users_error() -> (s: String)
    ensures
        s@ == all_users_error_spec(),
{
    owned("failed to fetch all users from db")
}

/// The snowflake worker of autorole record ids.
pub const AUTOROLE_WORKER: i64 = 1;

/// The snowflake worker of member record ids.
pub const MEMBER_WORKER: i64 = 2;

/// The snowflake datacenter of all record ids.
pub const DATACENTER: i64 = 1;

/// A snowflake id generator of rustflake.
#[verifier::external_type_specification]
#[verifier::external_body]
pub struct ExSnowflake(rustflake::Snowflake);

/// The largest epoch, in either direction, for which a generator's clock reading
/// minus its epoch stays within `i64` for every instant chrono can represent.
pub const EPOCH_LIMIT: i64 = 9_000_000_000_000_000_000;

/// The worker id a snowflake generator was made with.
pub uninterp spec fn snowflake_worker(s: Snowflake) -> int;

/// The datacenter id a snowflake generator was made with.
pub uninterp spec fn snowflake_datacenter(s: Snowflake) -> int;

/// Whether a snowflake carries a worker and a datacenter id: for ids that fit their
/// five bits each, bits 17 to 21 of the snowflake hold the worker and bits 12 to 16
/// the datacenter.
pub open spec fn carries(n: i64, worker: int, datacenter: int) -> bool {
    0 <= worker < 32 && 0 <= datacenter < 32 ==> ((n >> 17u64) & 31i64) == worker && ((n >> 12u64)
        & 31i64) == datacenter
}

/// Makes a snowflake generator.
///
/// Trusted: rustflake's `Snowflake::new(epoch, worker_id, datacenter_id)`, which
/// stores its arguments: the generator's worker and datacenter are the ones given.
/// The epoch is kept within `EPOCH_LIMIT` because `generate` subtracts it from the
/// current time in milliseconds.
#[verifier::external_body]
fn snowflake_new(epoch: i64, worker_id: i64, datacenter_id: i64) -> (s: Snowflake)
    requires
        -EPOCH_LIMIT <= epoch <= EPOCH_LIMIT,
    ensures
        snowflake_worker(s) == worker_id,
        snowflake_datacenter(s) == datacenter_id,
{
    Snowflake::new(epoch, worker_id, datacenter_id)
}

/// Draws the next id of a generator.
///
/// Trusted: rustflake's `Snowflake::generate`, which returns
/// `(time << 22) | (worker << 17) | (datacenter << 12) | sequence` with a sequence
/// below 4096, and changes only its sequence and last time. So the generator keeps
/// its worker and datacenter, and the id carries them whenever they fit five bits;
/// which id comes back depends on the clock and is left unsaid. Its one
/// subtraction, the current time in milliseconds minus the epoch, cannot overflow
/// for a generator made by `snowflake_new`.
#[verifier::external_body]
fn snowflake_generate(s: &mut Snowflake) -> (id: i64)
    ensures
        snowflake_worker(*final(s)) == snowflake_worker(*old(s)),
        snowflake_datacenter(*final(s)) == snowflake_datacenter(*old(s)),
        carries(id, snowflake_worker(*old(s)), snowflake_datacenter(*old(s))),
{
    s.generate()
}

/// Makes record ids: snowflakes drawn from one generator.
pub struct IdGenerator {
    inner: Snowflake,
}

impl IdGenerator {
    /// The worker id of the generator's snowflakes.
    pub closed spec fn worker(&self) -> int {
        snowflake_worker(self.inner)
    }

    /// The datacenter id of the generator's snowflakes.
    pub closed spec fn datacenter(&self) -> int {
        snowflake_datacenter(self.inner)
    }

    /// A generator for a worker, with the given epoch and datacenter.
    pub fn new(epoch: i64, worker_id: i64, datacenter_id: i64) -> (g: IdGenerator)
        requires
            -EPOCH_LIMIT <= epoch <= EPOCH_LIMIT,
        ensures
            g.worker() == worker_id,
            g.datacenter() == datacenter_id,
    {
        IdGenerator { inner: snowflake_new(epoch, worker_id, datacenter_id) }
    }

    /// The next id, written in decimal: a snowflake that carries the generator's
    /// worker and datacenter.
    pub fn next_id(&mut self) -> (s: String)
        ensures
            final(self).worker() == old(self).worker(),
            final(self).datacenter() == old(self).datacenter(),
            exists|n: i64| s@ == signed_decimal(n as int) && carries(n, old(self).worker(), old(self).datacenter()),
    {
        let n = snowflake_generate(&mut self.inner);
        let s = i64_to_decimal(n);
        assert(s@ == signed_decimal(n as int) && carries(n, old(self).worker(), old(self).datacenter()));
        s
    }
}

/// An autorole record: its id, its guild and its role.
#[derive(Clone, Debug)]
pub struct AutoroleRecord {
    pub id: String,
    pub guild_id: String,
    pub role_id: String,
}

/// The record that makes a role an autorole of its guild, under a fresh snowflake
/// id of the generator.
pub fn new_autorole(ids: &mut IdGenerator, guild_id: u64, role_id: u64) -> (r: AutoroleRecord)
    ensures
        final(ids).worker() == old(ids).worker(),
        final(ids).datacenter() == old(ids).datacenter(),
        exists|n: i64| r.id@ == signed_decimal(n as int) && carries(n, old(ids).worker(), old(ids).datacenter()),
        r.guild_id@ == crate::text::decimal(guild_id as nat),
        r.role_id@ == crate::text::decimal(role_id as nat),
{
    let id = ids.next_id();
    AutoroleRecord {
        id,
        guild_id: crate::text::u64_to_decimal(guild_id),
        role_id: crate::text::u64_to_decimal(role_id),
    }
}

/// A member record: its id, its user and its guild.
#[derive(Clone, Debug)]
pub struct MemberRecord {
    pub id: String,
    pub user_id: String,
    pub guild_id: String,
}

/// The record of a member, under a fresh snowflake id of the generator.
pub fn new_member(ids: &mut IdGenerator, user_id: u64, guild_id: u64) -> (r: MemberRecord)
    ensures
        final(ids).worker() == old(ids).worker(),
        final(ids).datacenter() == old(ids).datacenter(),
        exists|n: i64| r.id@ == signed_decimal(n as int) && carries(n, old(ids).worker(), old(ids).datacenter()),
        r.user_id@ == crate::text::decimal(user_id as nat),
        r.guild_id@ == crate::text::decimal(guild_id as nat),
{
    let id = ids.next_id();
    MemberRecord {
        id,
        user_id: crate::text::u64_to_decimal(user_id),
        guild_id: crate::text::u64_to_decimal(guild_id),
    }
}

/// Every flow begins by looking its record up.
pub proof fn law_flows_start_with_find(op: DbOp, create_missing: bool)
    ensures
        db_step_spec(op, create_missing, DbEvent::Start) == DbAction::Find,
{
}

/// A flow that creates missing records never ends without a record: it ends with
/// one or fails. An update that finds (or creates) its record updates it before it
/// ends, and ends with the updated record.
pub proof fn law_created_flows_end_with_record(op: DbOp, ev: DbEvent)
    requires
        op != DbOp::Delete,
    ensures
        db_step_spec(op, true, ev) != DbAction::Finish(false),
        op == DbOp::Update && ev == DbEvent::Found ==> db_step_spec(op, true, ev) == DbAction::Update,
        db_step_spec(op, true, ev) == DbAction::Finish(true) ==> (ev == DbEvent::Found && op == DbOp::Get)
            || ev == DbEvent::Updated || ev == DbEvent::Deleted,
{
}

/// A flow on a record never inserts unless it creates missing records, and then
/// only right after the record was found missing.
pub proof fn law_insert_only_when_missing(op: DbOp, create_missing: bool, ev: DbEvent)
    ensures
        db_step_spec(op, create_missing, ev) == DbAction::Insert <==> (create_missing && ev
            == DbEvent::Missing),
{
}

/// After an insert the record is looked up again.
pub proof fn law_insert_then_find(op: DbOp, create_missing: bool)
    ensures
        db_step_spec(op, create_missing, DbEvent::Inserted) == DbAction::Find,
{
}

/// A flow fails exactly when the database reports a failure, and it fails with the
/// step that failed.
pub proof fn law_failures_reported(op: DbOp, create_missing: bool, ev: DbEvent)
    ensures
        db_step_spec(op, create_missing, ev) is Fail <==> (ev == DbEvent::FindFailed || ev
            == DbEvent::InsertFailed || ev == DbEvent::UpdateFailed || ev == DbEvent::DeleteFailed),
        ev == DbEvent::FindFailed ==> db_step_spec(op, create_missing, ev) == DbAction::Fail(
            DbFailure::Fetch,
        ),
{
}

} // verus!
