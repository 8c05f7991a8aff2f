//! Sticky roles: roles that members get back when they rejoin a guild.
use crate::commands::{sticky_toggle_reply, Reply};
use crate::db::{carries, IdGenerator};
use crate::text::{decimal, owned, parse_u64, parse_u64_spec, signed_decimal, str_eq, strings_view, u64_to_decimal, NumberError};
use vstd::prelude::*;

verus! {

/// What toggling sticky roles does: the new setting, whether the guild's saved
/// roles are deleted, and the reply.
pub struct StickyToggle {
    pub sticky: bool,
    pub clear_records: bool,
    pub reply: Reply,
}

/// Toggling sticky roles flips the setting and, when it turns them off, deletes the
/// saved roles of the guild.
pub fn toggle(was_sticky: bool) -> (t: StickyToggle)
    ensures
        t.sticky == !was_sticky,
        t.clear_records == was_sticky,
        (t.reply.title@, t.reply.description@, t.reply.colour)
            == crate::commands::toggle_reply_spec("Sticky roles have"@, !was_sticky),
{
    let sticky = !was_sticky;
    StickyToggle { sticky, clear_records: !sticky, reply: sticky_toggle_reply(sticky) }
}

/// A saved role of a member.
#[derive(Clone, Debug)]
pub struct StickyRow {
    pub id: String,
    pub guild_id: String,
    pub user_id: String,
    pub role_id: String,
}

/// The rows saved for a leaving member with the given roles, row `i` under the
/// `i`-th id: none when sticky roles are off.
pub open spec fn sticky_rows_spec(sticky: bool, ids: Seq<Seq<char>>, guild_id: u64, user_id: u64, roles: Seq<u64>) -> Seq<(Seq<char>, Seq<char>, Seq<char>, Seq<char>)> {
    if sticky {
        Seq::new(roles.len(), |i: int| (ids[i], decimal(guild_id as nat), decimal(user_id as nat), decimal(roles[i] as nat)))
    } else {
        Seq::empty()
    }
}

/// The views of saved rows.
pub open spec fn rows_view(v: Seq<StickyRow>) -> Seq<(Seq<char>, Seq<char>, Seq<char>, Seq<char>)> {
    v.map_values(|r: StickyRow| (r.id@, r.guild_id@, r.user_id@, r.role_id@))
}

/// Whether no two of the texts are the same.
pub open spec fn pairwise_distinct(s: Seq<Seq<char>>) -> bool {
    forall|i: int, j: int| 0 <= i < j < s.len() ==> s[i] != s[j]
}

/// Whether a text is a snowflake, written in decimal, that carries a worker and a
/// datacenter.
pub open spec fn snowflake_of(t: Seq<char>, worker: int, datacenter: int) -> bool {
    exists|k: i64| t == signed_decimal(k as int) && carries(k, worker, datacenter)
}

/// The drawn ids when no two of them are the same, `None` otherwise.
pub fn distinct_ids(drawn: Vec<String>) -> (r: Option<Vec<String>>)
    ensures
        r == if pairwise_distinct(strings_view(drawn@)) {
            Some(drawn)
        } else {
            None::<Vec<String>>
        },
{
    let mut i: usize = 0;
    while i < drawn.len()
        invariant
            i <= drawn@.len(),
            forall|a: int, b: int| 0 <= a < b < drawn@.len() && a < i ==> #[trigger] drawn@[a]@
                != #[trigger] drawn@[b]@,
        decreases drawn.len() - i,
    {
        let mut j: usize = i + 1;
        while j < drawn.len()
            invariant
                i < drawn@.len(),
                i + 1 <= j <= drawn@.len(),
                forall|a: int, b: int| 0 <= a < b < drawn@.len() && a < i ==> #[trigger] drawn@[a]@
                    != #[trigger] drawn@[b]@,
                forall|b: int| i < b < j ==> drawn@[i as int]@ != #[trigger] drawn@[b]@,
            decreases drawn.len() - j,
        {
            if str_eq(drawn[i].as_str(), drawn[j].as_str()) {
                assert(strings_view(drawn@)[i as int] == strings_view(drawn@)[j as int]);
                return None;
            }
            j = j + 1;
        }
        i = i + 1;
    }
    assert(pairwise_distinct(strings_view(drawn@))) by {
        assert forall|a: int, b: int| 0 <= a < b < strings_view(drawn@).len() implies strings_view(drawn@)[a]
            != strings_view(drawn@)[b] by {
            assert(drawn@[a]@ != drawn@[b]@);
        }
    }
    Some(drawn)
}

/// Draws `n` ids for saved rows from a generator: `n` snowflakes, each carrying the
/// generator's worker and datacenter, handed back when no two are the same
/// (`distinct_ids`); with nothing to draw, no ids.
pub fn fresh_ids(ids: &mut IdGenerator, n: usize) -> (r: Option<Vec<String>>)
    ensures
        final(ids).worker() == old(ids).worker(),
        final(ids).datacenter() == old(ids).datacenter(),
        n == 0 ==> (r matches Some(v) && v@.len() == 0),
        exists|d: Seq<Seq<char>>|
            {
                &&& d.len() == n
                &&& forall|i: int| 0 <= i < n ==> #[trigger] snowflake_of(d[i], old(ids).worker(), old(ids).datacenter())
                &&& (r is Some <==> pairwise_distinct(d))
                &&& (r matches Some(v) ==> strings_view(v@) == d)
            },
{
    let ghost w = ids.worker();
    let ghost dc = ids.datacenter();
    let mut v: Vec<String> = Vec::new();
    let mut i: usize = 0;
    while i < n
        invariant
            i <= n,
            v@.len() == i,
            ids.worker() == w,
            ids.datacenter() == dc,
            w == old(ids).worker(),
            dc == old(ids).datacenter(),
            forall|a: int| 0 <= a < v@.len() ==> #[trigger] snowflake_of(v@[a]@, w, dc),
        decreases n - i,
    {
        let id = ids.next_id();
        assert(snowflake_of(id@, w, dc));
        let ghost before = v@;
        v.push(id);
        assert forall|a: int| 0 <= a < v@.len() implies #[trigger] snowflake_of(v@[a]@, w, dc) by {
            if a < i {
                assert(v@[a] == before[a]);
                assert(snowflake_of(before[a]@, w, dc));
            }
        }
        i = i + 1;
    }
    let ghost d = strings_view(v@);
    assert forall|k: int| 0 <= k < n implies #[trigger] snowflake_of(d[k], w, dc) by {
        assert(snowflake_of(v@[k]@, w, dc));
    }
    let r = distinct_ids(v);
    if n == 0 {
        assert(pairwise_distinct(d));
    }
    r
}

/// The rows to save for a leaving member, one per role, each under its own id
/// from `ids`.
pub fn save_roles(sticky: bool, ids: &Vec<String>, guild_id: u64, user_id: u64, roles: &Vec<u64>) -> (v: Vec<StickyRow>)
    requires
        ids@.len() == roles@.len(),
        pairwise_distinct(strings_view(ids@)),
    ensures
        rows_view(v@) == sticky_rows_spec(sticky, strings_view(ids@), guild_id, user_id, roles@),
        forall|i: int, j: int| 0 <= i < j < v@.len() ==> #[trigger] v@[i].id@ != #[trigger] v@[j].id@,
{
    let mut v: Vec<StickyRow> = Vec::new();
    if !sticky {
        assert(rows_view(v@) =~= sticky_rows_spec(sticky, strings_view(ids@), guild_id, user_id, roles@));
        return v;
    }
    let mut i: usize = 0;
    while i < roles.len()
        invariant
            sticky,
            ids@.len() == roles@.len(),
            i <= roles@.len(),
            rows_view(v@) == sticky_rows_spec(sticky, strings_view(ids@), guild_id, user_id, roles@).subrange(0, i as int),
        decreases roles.len() - i,
    {
        let ghost before = v@;
        v.push(StickyRow {
            id: owned(ids[i].as_str()),
            guild_id: u64_to_decimal(guild_id),
            user_id: u64_to_decimal(user_id),
            role_id: u64_to_decimal(roles[i]),
        });
        assert(rows_view(v@) =~= rows_view(before).push(
            (ids@[i as int]@, decimal(guild_id as nat), decimal(user_id as nat), decimal(roles@[i as int] as nat)),
        ));
        i = i + 1;
        assert(rows_view(v@) =~= sticky_rows_spec(sticky, strings_view(ids@), guild_id, user_id, roles@).subrange(0, i as int));
    }
    assert(rows_view(v@) =~= sticky_rows_spec(sticky, strings_view(ids@), guild_id, user_id, roles@));
    assert forall|i: int, j: int| 0 <= i < j < v@.len() implies #[trigger] v@[i].id@ != #[trigger] v@[j].id@ by {
        assert(rows_view(v@)[i].0 == strings_view(ids@)[i]);
        assert(rows_view(v@)[j].0 == strings_view(ids@)[j]);
    }
    v
}

/// The saved rows of a member have pairwise distinct ids when the ids they are made
/// with are, so every role is saved under a key of its own.
pub proof fn law_rows_have_distinct_ids(sticky: bool, ids: Seq<Seq<char>>, guild_id: u64, user_id: u64, roles: Seq<u64>)
    requires
        ids.len() == roles.len(),
        pairwise_distinct(ids),
    ensures
        ({
            let rows = sticky_rows_spec(sticky, ids, guild_id, user_id, roles);
            forall|i: int, j: int| 0 <= i < j < rows.len() ==> #[trigger] rows[i].0 != #[trigger] rows[j].0
        }),
{
}

/// The role ids of the saved rows, read as numbers up to the first that does not
/// read: `Ok` with all of them, or the error of the first bad one.
pub open spec fn role_ids_spec(ids: Seq<Seq<char>>) -> Result<Seq<u64>, NumberError>
    decreases ids.len(),
{
    if ids.len() == 0 {
        Ok(Seq::empty())
    } else {
        match role_ids_spec(ids.drop_last()) {
            Err(e) => Err(e),
            Ok(rest) => match parse_u64_spec(ids.last()) {
                Err(e) => Err(e),
                Ok(n) => Ok(rest.push(n)),
            },
        }
    }
}

proof fn lemma_error_extends(ids: Seq<Seq<char>>, j: int)
    requires
        0 <= j <= ids.len(),
        role_ids_spec(ids.subrange(0, j)) is Err,
    ensures
        role_ids_spec(ids) == role_ids_spec(ids.subrange(0, j)),
    decreases ids.len() - j,
{
    if j < ids.len() {
        assert(ids.subrange(0, j + 1).drop_last() =~= ids.subrange(0, j));
        lemma_error_extends(ids, j + 1);
    } else {
        assert(ids.subrange(0, j) =~= ids);
    }
}

/// The roles to give back to a rejoining member, from their saved rows.
pub fn add_roles(role_ids: &Vec<String>) -> (r: Result<Vec<u64>, NumberError>)
    ensures
        match r {
            Ok(v) => role_ids_spec(strings_view(role_ids@)) == Ok::<Seq<u64>, NumberError>(v@),
            Err(e) => role_ids_spec(strings_view(role_ids@)) == Err::<Seq<u64>, NumberError>(e),
        },
{
    let ghost ids = strings_view(role_ids@);
    let mut v: Vec<u64> = Vec::new();
    let mut i: usize = 0;
    assert(ids.subrange(0, 0) =~= Seq::<Seq<char>>::empty());
    while i < role_ids.len()
        invariant
            ids == strings_view(role_ids@),
            i <= role_ids@.len(),
            role_ids_spec(ids.subrange(0, i as int)) == Ok::<Seq<u64>, NumberError>(v@),
        decreases role_ids.len() - i,
    {
        assert(ids.subrange(0, i + 1).drop_last() =~= ids.subrange(0, i as int));
        assert(ids.subrange(0, i + 1).last() == role_ids@[i as int]@);
        match parse_u64(role_ids[i].as_str()) {
            Ok(n) => {
                v.push(n);
            },
            Err(e) => {
                proof {
                    lemma_error_extends(ids, i as int + 1);
                }
                return Err(e);
            },
        }
        i = i + 1;
    }
    assert(ids.subrange(0, role_ids@.len() as int) =~= ids);
    Ok(v)
}

proof fn lemma_ids_read_back(roles: Seq<u64>, k: int)
    requires
        0 <= k <= roles.len(),
    ensures
        role_ids_spec(Seq::new(k as nat, |i: int| decimal(roles[i] as nat))) == Ok::<Seq<u64>, NumberError>(
            roles.take(k),
        ),
    decreases k,
{
    let s = Seq::new(k as nat, |i: int| decimal(roles[i] as nat));
    if k == 0 {
        assert(roles.take(0) =~= Seq::<u64>::empty());
    } else {
        lemma_ids_read_back(roles, k - 1);
        assert(s.drop_last() =~= Seq::new((k - 1) as nat, |i: int| decimal(roles[i] as nat)));
        crate::text::law_parse_decimal(roles[k - 1]);
        assert(roles.take(k - 1).push(roles[k - 1]) =~= roles.take(k));
    }
}

/// When sticky roles are on, the saved rows hold one role each, the member's roles
/// in order: reading the saved role ids back (as `add_roles` does on rejoin) gives
/// exactly the roles the member had.
pub proof fn law_saved_roles_come_back(ids: Seq<Seq<char>>, guild_id: u64, user_id: u64, roles: Seq<u64>)
    requires
        ids.len() == roles.len(),
    ensures
        ({
            let rows = sticky_rows_spec(true, ids, guild_id, user_id, roles);
            &&& rows.len() == roles.len()
            &&& role_ids_spec(Seq::new(rows.len(), |i: int| rows[i].3)) == Ok::<Seq<u64>, NumberError>(roles)
        }),
{
    let rows = sticky_rows_spec(true, ids, guild_id, user_id, roles);
    lemma_ids_read_back(roles, roles.len() as int);
    assert(Seq::new(rows.len(), |i: int| rows[i].3) =~= Seq::new(roles.len(), |i: int| decimal(roles[i] as nat)));
    assert(roles.take(roles.len() as int) =~= roles);
}

} // verus!
