//! Which connections a replica holds for which user, and who is to be sent what.
//!
//! A connection is known by its identifier; the channel that leads to its client
//! is known by a number that the caller picked for it.

use vstd::prelude::*;

verus! {

/// The connections of a replica: for each user the identifier and the sender of
/// each connection, oldest first.
pub type Connections = Map<Seq<char>, Seq<(u128, u64)>>;

/// Nobody is connected.
pub open spec fn no_connections() -> Connections {
    Map::empty()
}

/// The connections of one user.
pub open spec fn connections_of(connections: Connections, user: Seq<char>) -> Seq<(u128, u64)> {
    if connections.contains_key(user) {
        connections[user]
    } else {
        Seq::empty()
    }
}

/// The connections after a user opened one more.
pub open spec fn with_connection(
    connections: Connections,
    user: Seq<char>,
    id: u128,
    sender: u64,
) -> Connections {
    connections.insert(user, connections_of(connections, user).push((id, sender)))
}

/// The test for a connection with another identifier.
pub open spec fn is_other(id: u128) -> spec_fn((u128, u64)) -> bool {
    |entry: (u128, u64)| entry.0 != id
}

/// Some connections without those of one identifier.
pub open spec fn others(entries: Seq<(u128, u64)>, id: u128) -> Seq<(u128, u64)> {
    entries.filter(is_other(id))
}

/// The connections after a user closed one; the user stays known.
pub open spec fn without_connection(
    connections: Connections,
    user: Seq<char>,
    id: u128,
) -> Connections {
    if connections.contains_key(user) {
        connections.insert(user, others(connections[user], id))
    } else {
        connections
    }
}

/// The connections after a user closed one; a user with none left is forgotten.
pub open spec fn without_connection_or_user(
    connections: Connections,
    user: Seq<char>,
    id: u128,
) -> Connections {
    let remaining = without_connection(connections, user, id);
    if remaining.contains_key(user) && remaining[user].len() == 0 {
        remaining.remove(user)
    } else {
        remaining
    }
}

/// Copies some connections.
pub(crate) fn copy_entries(entries: &Vec<(u128, u64)>) -> (copy: Vec<(u128, u64)>)
    ensures
        copy@ == entries@,
{
    let mut copy: Vec<(u128, u64)> = Vec::new();
    let mut i: usize = 0;
    while i < entries.len()
        invariant
            i <= entries@.len(),
            copy@ == entries@.take(i as int),
        decreases entries.len() - i,
    {
        copy.push(entries[i]);
        assert(entries@.take(i + 1) =~= entries@.take(i as int).push(entries@[i as int]));
        i += 1;
    }
    assert(entries@.take(i as int) =~= entries@);
    copy
}

/// Keeps the connections with another identifier.
pub fn retain_others(entries: &Vec<(u128, u64)>, id: u128) -> (kept: Vec<(u128, u64)>)
    ensures
        kept@ == others(entries@, id),
{
    let mut kept: Vec<(u128, u64)> = Vec::new();
    let mut i: usize = 0;
    proof {
        reveal(Seq::filter);
        assert(entries@.take(0).filter(is_other(id)) =~= Seq::empty());
    }
    while i < entries.len()
        invariant
            i <= entries@.len(),
            kept@ == entries@.take(i as int).filter(is_other(id)),
        decreases entries.len() - i,
    {
        let entry = entries[i];
        proof {
            reveal(Seq::filter);
            assert(entries@.take(i + 1).drop_last() =~= entries@.take(i as int));
            assert(entries@.take(i + 1).last() == entry);
        }
        if entry.0 != id {
            kept.push(entry);
        }
        i += 1;
    }
    assert(entries@.take(i as int) =~= entries@);
    kept
}

/// Bytes on their way to one client.
#[derive(Debug, PartialEq)]
pub struct Delivery {
    pub sender: u64,
    pub data: Vec<u8>,
}

impl View for Delivery {
    type V = (u64, Seq<u8>);

    open spec fn view(&self) -> (u64, Seq<u8>) {
        (self.sender, self.data@)
    }
}

/// What a list of deliveries sends, in order.
pub open spec fn delivery_views(deliveries: Seq<Delivery>) -> Seq<(u64, Seq<u8>)> {
    deliveries.map_values(|delivery: Delivery| delivery@)
}

/// The same bytes to each of some connections, in their order.
pub open spec fn addressed(entries: Seq<(u128, u64)>, data: Seq<u8>) -> Seq<(u64, Seq<u8>)> {
    entries.map_values(|entry: (u128, u64)| (entry.1, data))
}

/// The same bytes to each connection of each of some users, user by user.
pub open spec fn fan_out(
    connections: Connections,
    users: Seq<Seq<char>>,
    data: Seq<u8>,
) -> Seq<(u64, Seq<u8>)>
    decreases users.len(),
{
    if users.len() == 0 {
        Seq::empty()
    } else {
        fan_out(connections, users.drop_last(), data) + addressed(
            connections_of(connections, users.last()),
            data,
        )
    }
}

/// Addresses the same bytes to each of some connections, behind what is already
/// addressed.
pub fn address_all(deliveries: &mut Vec<Delivery>, entries: &Vec<(u128, u64)>, data: &Vec<u8>)
    ensures
        delivery_views(final(deliveries)@) == delivery_views(old(deliveries)@) + addressed(
            entries@,
            data@,
        ),
{
    let mut i: usize = 0;
    let ghost before = delivery_views(deliveries@);
    assert(before + addressed(entries@.take(0), data@) =~= before);
    while i < entries.len()
        invariant
            i <= entries@.len(),
            delivery_views(deliveries@) == before + addressed(entries@.take(i as int), data@),
        decreases entries.len() - i,
    {
        let ghost so_far = deliveries@;
        let copy = data.clone();
        assert(copy@ =~= data@);
        deliveries.push(Delivery { sender: entries[i].1, data: copy });
        proof {
            assert(entries@.take(i + 1) =~= entries@.take(i as int).push(entries@[i as int]));
            assert(delivery_views(deliveries@) =~= delivery_views(so_far).push(
                (entries@[i as int].1, data@),
            ));
            assert(delivery_views(deliveries@) =~= before + addressed(entries@.take(i + 1), data@));
        }
        i += 1;
    }
    assert(entries@.take(i as int) =~= entries@);
}

/// A connection that was opened is reached from then on, behind those that were
/// there before, and no other user's connections change.
pub proof fn law_opened_connection_is_reached(
    connections: Connections,
    user: Seq<char>,
    id: u128,
    sender: u64,
    other: Seq<char>,
)
    ensures
        ({
            let after = with_connection(connections, user, id, sender);
            &&& connections_of(after, user) == connections_of(connections, user).push((id, sender))
            &&& other != user ==> connections_of(after, other) == connections_of(connections, other)
        }),
{
}

/// A connection that was closed is reached no more, the user's other connections
/// still are, in the same order, and no other user's connections change. Both
/// ways of closing agree on that.
pub proof fn law_closed_connection_is_not_reached(
    connections: Connections,
    user: Seq<char>,
    id: u128,
    other: Seq<char>,
)
    ensures
        ({
            let kept = without_connection(connections, user, id);
            let swept = without_connection_or_user(connections, user, id);
            &&& connections_of(kept, user) == others(connections_of(connections, user), id)
            &&& connections_of(swept, user) == others(connections_of(connections, user), id)
            &&& forall|sender: u64| !connections_of(kept, user).contains((id, sender))
            &&& other != user ==> connections_of(kept, other) == connections_of(connections, other)
            &&& other != user ==> connections_of(swept, other) == connections_of(
                connections,
                other,
            )
        }),
{
    broadcast use vstd::seq_lib::group_filter_ensures;
    reveal(Seq::filter);
    let entries = connections_of(connections, user);
    let remaining = others(entries, id);
    if connections.contains_key(user) {
        assert forall|sender: u64| !remaining.contains((id, sender)) by {
            if remaining.contains((id, sender)) {
                let i = choose|i: int| 0 <= i < remaining.len() && remaining[i] == (id, sender);
                assert(remaining[i].0 != id);
            }
        }
        assert(remaining.len() == 0 ==> remaining =~= Seq::<(u128, u64)>::empty());
    } else {
        assert(remaining =~= Seq::<(u128, u64)>::empty());
    }
}

proof fn lemma_others_of_strangers(entries: Seq<(u128, u64)>, id: u128)
    requires
        forall|i: int| 0 <= i < entries.len() ==> (#[trigger] entries[i]).0 != id,
    ensures
        others(entries, id) == entries,
    decreases entries.len(),
{
    reveal(Seq::filter);
    if entries.len() > 0 {
        lemma_others_of_strangers(entries.drop_last(), id);
        assert(entries[entries.len() - 1].0 != id);
        assert(entries.drop_last().push(entries.last()) =~= entries);
    }
}

/// Opening a connection under a new identifier and closing it again leaves every
/// user with the connections they had.
pub proof fn law_open_then_close_restores(
    connections: Connections,
    user: Seq<char>,
    id: u128,
    sender: u64,
    any: Seq<char>,
)
    requires
        forall|i: int|
            0 <= i < connections_of(connections, user).len() ==> (#[trigger] connections_of(
                connections,
                user,
            )[i]).0 != id,
    ensures
        ({
            let opened = with_connection(connections, user, id, sender);
            &&& connections_of(without_connection(opened, user, id), any) == connections_of(
                connections,
                any,
            )
            &&& connections_of(without_connection_or_user(opened, user, id), any)
                == connections_of(connections, any)
        }),
{
    let entries = connections_of(connections, user);
    let opened = with_connection(connections, user, id, sender);
    lemma_others_of_strangers(entries, id);
    reveal(Seq::filter);
    assert(entries.push((id, sender)).drop_last() =~= entries);
    assert(others(entries.push((id, sender)), id) == entries);
    assert(entries.len() == 0 ==> entries =~= Seq::<(u128, u64)>::empty());
    law_closed_connection_is_not_reached(opened, user, id, any);
}

/// A user is sent an update once for each of their connections, and nobody else
/// is.
pub proof fn law_fan_out_to_one_user(connections: Connections, user: Seq<char>, data: Seq<u8>)
    ensures
        fan_out(connections, seq![user], data) == addressed(
            connections_of(connections, user),
            data,
        ),
{
    reveal_with_fuel(fan_out, 2);
    let users = seq![user];
    assert(users.drop_last() =~= Seq::empty());
    assert(fan_out(connections, users, data) =~= addressed(
        connections_of(connections, user),
        data,
    ));
}

/// Whether a sender belongs to a connection of one of some users.
pub open spec fn serves(connections: Connections, users: Seq<Seq<char>>, sender: u64) -> bool {
    exists|i: int, j: int|
        0 <= i < users.len() && 0 <= j < connections_of(connections, users[i]).len()
            && #[trigger] connections_of(connections, users[i])[j].1 == sender
}

/// What is sent on account of an update is the update, and it goes to the
/// connections of the users it is for and to nobody else.
pub proof fn law_fan_out_reaches_exactly(
    connections: Connections,
    users: Seq<Seq<char>>,
    data: Seq<u8>,
    sender: u64,
    bytes: Seq<u8>,
)
    ensures
        fan_out(connections, users, data).contains((sender, bytes)) <==> bytes == data && serves(
            connections,
            users,
            sender,
        ),
    decreases users.len(),
{
    let all = fan_out(connections, users, data);
    if users.len() > 0 {
        let before = users.drop_last();
        law_fan_out_reaches_exactly(connections, before, data, sender, bytes);
        let first = fan_out(connections, before, data);
        let last = addressed(connections_of(connections, users.last()), data);
        if all.contains((sender, bytes)) {
            let k = choose|k: int| 0 <= k < all.len() && all[k] == (sender, bytes);
            if k < first.len() {
                assert(first[k] == (sender, bytes));
                let (i, j) = choose|i: int, j: int|
                    0 <= i < before.len() && 0 <= j < connections_of(connections, before[i]).len()
                        && #[trigger] connections_of(connections, before[i])[j].1 == sender;
                assert(connections_of(connections, users[i])[j].1 == sender);
            } else {
                assert(last[k - first.len()] == (sender, bytes));
                assert(connections_of(connections, users[users.len() - 1])[k - first.len()].1
                    == sender);
            }
        }
        if bytes == data && serves(connections, users, sender) {
            let (i, j) = choose|i: int, j: int|
                0 <= i < users.len() && 0 <= j < connections_of(connections, users[i]).len()
                    && #[trigger] connections_of(connections, users[i])[j].1 == sender;
            if i < before.len() {
                assert(connections_of(connections, before[i])[j].1 == sender);
                let k = choose|k: int| 0 <= k < first.len() && first[k] == (sender, bytes);
                assert(all[k] == (sender, bytes));
            } else {
                assert(last[j] == (sender, bytes));
                assert(all[first.len() + j] == (sender, bytes));
            }
        }
    }
}

/// Whether no sender belongs to two connections.
pub open spec fn senders_differ(connections: Connections) -> bool {
    forall|a: Seq<char>, i: int, b: Seq<char>, j: int|
        0 <= i < connections_of(connections, a).len() && 0 <= j < connections_of(
            connections,
            b,
        ).len() && (#[trigger] connections_of(connections, a)[i]).1 == (
        #[trigger] connections_of(connections, b)[j]).1 ==> a == b && i == j
}

/// An update to some users, each named once, goes to no connection twice.
pub proof fn law_fan_out_reaches_once(
    connections: Connections,
    users: Seq<Seq<char>>,
    data: Seq<u8>,
)
    requires
        senders_differ(connections),
        users.no_duplicates(),
    ensures
        fan_out(connections, users, data).no_duplicates(),
    decreases users.len(),
{
    if users.len() > 0 {
        let before = users.drop_last();
        law_fan_out_reaches_once(connections, before, data);
        let first = fan_out(connections, before, data);
        let entries = connections_of(connections, users.last());
        let last = addressed(entries, data);
        let all = first + last;
        assert forall|x: int, y: int| 0 <= x < y < all.len() implies all[x] != all[y] by {
            if x >= first.len() {
                let i = x - first.len();
                let j = y - first.len();
                assert(entries[i].1 != entries[j].1);
                assert(all[x] == last[i] && all[y] == last[j]);
            } else if y >= first.len() {
                let j = y - first.len();
                let sender = entries[j].1;
                assert(all[y] == (sender, data));
                if all[x] == all[y] {
                    assert(first[x] == (sender, data));
                    law_fan_out_reaches_exactly(connections, before, data, sender, data);
                    let (u, i) = choose|u: int, i: int|
                        0 <= u < before.len() && 0 <= i < connections_of(
                            connections,
                            before[u],
                        ).len() && #[trigger] connections_of(connections, before[u])[i].1 == sender;
                    assert(connections_of(connections, before[u])[i].1 == entries[j].1);
                    assert(before[u] == users.last());
                    assert(users[u] == users[users.len() - 1]);
                }
            }
        }
        assert(fan_out(connections, users, data) =~= all);
    }
}

/// A user has exactly the connections that the registry holds for the user, and none
/// where it holds none; an empty registry holds none for anybody.
pub proof fn law_connections_are_those_held(connections: Connections, user: Seq<char>)
    ensures
        connections.contains_key(user) ==> connections_of(connections, user) == connections[user],
        !connections.contains_key(user) ==> connections_of(connections, user).len() == 0,
        connections_of(no_connections(), user).len() == 0,
{
}

/// Closing keeps the connections with other identifiers in their order and drops those
/// with the identifier: taken one after the other, each either stays behind the ones
/// that stayed before it, or is dropped, by its identifier alone.
pub proof fn law_closing_goes_by_the_identifier(
    entries: Seq<(u128, u64)>,
    entry: (u128, u64),
    id: u128,
)
    ensures
        others(Seq::empty(), id).len() == 0,
        entry.0 != id ==> others(entries.push(entry), id) == others(entries, id).push(entry),
        entry.0 == id ==> others(entries.push(entry), id) == others(entries, id),
{
    reveal(Seq::filter);
    assert(entries.push(entry).drop_last() =~= entries);
}

/// Each connection of each user is sent the bytes, in order: those of one more user
/// come behind all others, as many as the user has connections.
pub proof fn law_fan_out_goes_user_by_user(
    connections: Connections,
    users: Seq<Seq<char>>,
    user: Seq<char>,
    data: Seq<u8>,
    i: int,
)
    ensures
        fan_out(connections, Seq::empty(), data).len() == 0,
        ({
            let before = fan_out(connections, users, data);
            let after = fan_out(connections, users.push(user), data);
            let entries = connections_of(connections, user);
            &&& after.len() == before.len() + entries.len()
            &&& 0 <= i < before.len() ==> after[i] == before[i]
            &&& 0 <= i < entries.len() ==> after[before.len() + i] == (entries[i].1, data)
        }),
{
    assert(users.push(user).drop_last() =~= users);
}

/// A list of deliveries stands for exactly the senders and the bytes that it holds.
pub proof fn law_deliveries_keep_everything(deliveries: Seq<Delivery>, i: int)
    ensures
        delivery_views(deliveries).len() == deliveries.len(),
        0 <= i < deliveries.len() ==> delivery_views(deliveries)[i].0 == deliveries[i].sender,
        0 <= i < deliveries.len() ==> delivery_views(deliveries)[i].1 == deliveries[i].data@,
{
}

/// Whatever user, identifier and sender: opening adds the one connection under the one
/// user and changes nothing else in the registry; closing takes no other user out and
/// leaves no connection under the identifier.
pub proof fn law_registry_changes_for_one_user(
    connections: Connections,
    user: Seq<char>,
    id: u128,
    sender: u64,
    other: Seq<char>,
)
    ensures
        ({
            let opened = with_connection(connections, user, id, sender);
            let kept = without_connection(connections, user, id);
            let swept = without_connection_or_user(connections, user, id);
            &&& opened.contains_key(user) && opened[user].last() == (id, sender)
            &&& opened[user].len() == connections_of(connections, user).len() + 1
            &&& opened[user].drop_last() == connections_of(connections, user)
            &&& other != user ==> {
                &&& opened.contains_key(other) == connections.contains_key(other)
                &&& kept.contains_key(other) == connections.contains_key(other)
                &&& swept.contains_key(other) == connections.contains_key(other)
                &&& connections.contains_key(other) ==> opened[other] == connections[other]
                    && kept[other] == connections[other] && swept[other] == connections[other]
            }
            &&& kept.contains_key(user) == connections.contains_key(user)
            &&& swept.contains_key(user) ==> swept[user].len() > 0
        }),
{
    assert(connections_of(connections, user).push((id, sender)).drop_last() =~= connections_of(
        connections,
        user,
    ));
}

}
