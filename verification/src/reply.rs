//! What the server's replies mean to a client.

use vstd::prelude::*;

use crate::error::{FailureModel, NetplayError};
use crate::message::{seat_names, MessageModel, NetplayMessage, NetplayRoom, RoomModel};

verus! {

/// A reply grants its request if its `accept` field is there and is zero.
pub open spec fn granted(reply: MessageModel) -> bool {
    reply.accept == Some(0i32)
}

/// The reason that a refusal gives, or `default` where it gives none.
pub open spec fn refusal_reason(reply: MessageModel, default: Seq<char>) -> Seq<char> {
    match reply.message {
        Some(reason) => reason,
        None => default,
    }
}

/// The room that a reply describes, with its port.
pub open spec fn described_room(reply: MessageModel, reply_type: Seq<char>) -> Result<
    (RoomModel, i32),
    FailureModel,
> {
    match reply.room {
        Some(room) => match room.port {
            Some(port) => Ok((room, port)),
            None => Err(FailureModel::MissingPort(reply_type)),
        },
        None => Err(FailureModel::MissingRoom(reply_type)),
    }
}

/// What a reply to a join request gives: the room and its port.
pub open spec fn join_result(reply: MessageModel) -> Result<(RoomModel, i32), FailureModel> {
    if granted(reply) {
        described_room(reply, "reply_join_room"@)
    } else {
        Err(
            FailureModel::JoinRejected(refusal_reason(reply, "Join rejected (unknown reason)"@)),
        )
    }
}

/// What a reply to a create request gives: the room and its port.
pub open spec fn create_result(reply: MessageModel) -> Result<(RoomModel, i32), FailureModel> {
    if granted(reply) {
        described_room(reply, "reply_create_room"@)
    } else {
        Err(FailureModel::CreateRejected(refusal_reason(reply, "Room creation rejected"@)))
    }
}

/// The first seat with this name.
pub open spec fn seat_of(names: Seq<Seq<char>>, name: Seq<char>) -> Option<int> {
    if names.contains(name) {
        Some(choose|seat: int| #[trigger] is_first_seat(names, name, seat))
    } else {
        None
    }
}

/// `seat` holds this name, and no seat before it does.
pub open spec fn is_first_seat(names: Seq<Seq<char>>, name: Seq<char>, seat: int) -> bool {
    &&& 0 <= seat < names.len()
    &&& names[seat] == name
    &&& forall|earlier: int| 0 <= earlier < seat ==> names[earlier] != name
}

/// What the reply that begins the game gives a guest: the guest's seat.
pub open spec fn guest_begin_result(reply: MessageModel, player_name: Seq<char>) -> Result<
    int,
    FailureModel,
> {
    if granted(reply) {
        match reply.player_names {
            Some(names) => match seat_of(names, player_name) {
                Some(seat) => Ok(seat),
                None => Err(FailureModel::NotSeated),
            },
            None => Err(FailureModel::MissingPlayerNames),
        }
    } else {
        Err(FailureModel::BeginRejected(refusal_reason(reply, "Game start rejected"@)))
    }
}

/// What the reply that begins the game gives a host: leave to begin.
pub open spec fn host_begin_result(reply: MessageModel) -> Result<(), FailureModel> {
    if granted(reply) {
        Ok(())
    } else {
        Err(FailureModel::BeginRejected(refusal_reason(reply, "Begin game rejected"@)))
    }
}

/// The number of seats with a name in them.
pub open spec fn occupied_seats(names: Option<Seq<Seq<char>>>) -> nat {
    match names {
        Some(names) => names.filter(|name: Seq<char>| name.len() > 0).len(),
        None => 0,
    }
}

fn is_granted(reply: &NetplayMessage) -> (r: bool)
    ensures
        r == granted(reply@),
{
    match reply.accept {
        Some(code) => code == 0,
        None => false,
    }
}

fn reason_or(message: Option<String>, default: &str) -> (r: String)
    ensures
        r@ == match message.deep_view() {
            Some(reason) => reason,
            None => default@,
        },
{
    match message {
        Some(reason) => reason,
        None => default.to_string(),
    }
}

fn room_and_port(room: Option<NetplayRoom>, reply_type: &str) -> (r: Result<
    (NetplayRoom, i32),
    NetplayError,
>)
    ensures
        match room {
            Some(described) => match described.port {
                Some(port) => r == Ok::<(NetplayRoom, i32), NetplayError>((described, port)),
                None => r is Err && r->Err_0@ == FailureModel::MissingPort(reply_type@),
            },
            None => r is Err && r->Err_0@ == FailureModel::MissingRoom(reply_type@),
        },
{
    match room {
        Some(described) => match described.port {
            Some(port) => Ok((described, port)),
            None => Err(NetplayError::MissingPort(reply_type.to_string())),
        },
        None => Err(NetplayError::MissingRoom(reply_type.to_string())),
    }
}

/// Reads a reply to a join request.
pub fn read_join_reply(reply: NetplayMessage) -> (r: Result<(NetplayRoom, i32), NetplayError>)
    ensures
        match r {
            Ok((room, port)) => join_result(reply@) == Ok::<(RoomModel, i32), FailureModel>(
                (room@, port),
            ),
            Err(error) => join_result(reply@) == Err::<(RoomModel, i32), FailureModel>(error@),
        },
{
    if is_granted(&reply) {
        room_and_port(reply.room, "reply_join_room")
    } else {
        Err(NetplayError::JoinRejected(reason_or(reply.message, "Join rejected (unknown reason)")))
    }
}

/// Reads a reply to a create request.
pub fn read_create_reply(reply: NetplayMessage) -> (r: Result<(NetplayRoom, i32), NetplayError>)
    ensures
        match r {
            Ok((room, port)) => create_result(reply@) == Ok::<(RoomModel, i32), FailureModel>(
                (room@, port),
            ),
            Err(error) => create_result(reply@) == Err::<(RoomModel, i32), FailureModel>(error@),
        },
{
    if is_granted(&reply) {
        room_and_port(reply.room, "reply_create_room")
    } else {
        Err(NetplayError::CreateRejected(reason_or(reply.message, "Room creation rejected")))
    }
}

proof fn lemma_first_seat(names: Seq<Seq<char>>, name: Seq<char>, seat: int)
    requires
        is_first_seat(names, name, seat),
    ensures
        seat_of(names, name) == Some(seat),
{
    assert(names.contains(name));
    let chosen = choose|chosen: int| #[trigger] is_first_seat(names, name, chosen);
    assert(is_first_seat(names, name, chosen));
    if chosen < seat {
        assert(names[chosen] != name);
    }
}

proof fn lemma_first_seat_exists(names: Seq<Seq<char>>, name: Seq<char>, seat: int)
    requires
        0 <= seat < names.len(),
        names[seat] == name,
    ensures
        exists|first: int| #[trigger] is_first_seat(names, name, first),
    decreases seat,
{
    if exists|earlier: int| 0 <= earlier < seat && names[earlier] == name {
        let earlier = choose|earlier: int| 0 <= earlier < seat && names[earlier] == name;
        lemma_first_seat_exists(names, name, earlier);
    } else {
        assert(is_first_seat(names, name, seat));
    }
}

/// The seat of a name is the first that holds it.
pub(crate) proof fn lemma_seat_is_first(names: Seq<Seq<char>>, name: Seq<char>)
    ensures
        match seat_of(names, name) {
            Some(seat) => is_first_seat(names, name, seat),
            None => !names.contains(name),
        },
{
    if names.contains(name) {
        let seat = choose|seat: int| 0 <= seat < names.len() && names[seat] == name;
        lemma_first_seat_exists(names, name, seat);
    }
}

/// The first of the four seats in which `name` sits.
pub fn find_seat(names: &[String; 4], name: &String) -> (r: Option<u8>)
    ensures
        match r {
            Some(seat) => seat < 4 && seat_of(seat_names(*names), name@) == Some(seat as int)
                && is_first_seat(seat_names(*names), name@, seat as int),
            None => seat_of(seat_names(*names), name@) is None && !seat_names(*names).contains(
                name@,
            ),
        },
{
    let mut seat: u8 = 0;
    while seat < 4
        invariant
            seat <= 4,
            forall|earlier: int| 0 <= earlier < seat ==> seat_names(*names)[earlier] != name@,
        decreases 4 - seat,
    {
        if names[seat as usize] == *name {
            proof {
                lemma_first_seat(seat_names(*names), name@, seat as int);
            }
            return Some(seat);
        }
        seat = seat + 1;
    }
    None
}

/// Reads the reply that begins the game, as a guest.
pub fn read_guest_begin_reply(reply: NetplayMessage, player_name: &String) -> (r: Result<
    u8,
    NetplayError,
>)
    ensures
        match r {
            Ok(seat) => seat < 4 && guest_begin_result(reply@, player_name@) == Ok::<
                int,
                FailureModel,
            >(seat as int),
            Err(error) => guest_begin_result(reply@, player_name@) == Err::<int, FailureModel>(
                error@,
            ),
        },
{
    if is_granted(&reply) {
        match &reply.player_names {
            Some(names) => match find_seat(names, player_name) {
                Some(seat) => Ok(seat),
                None => Err(NetplayError::NotSeated),
            },
            None => Err(NetplayError::MissingPlayerNames),
        }
    } else {
        Err(NetplayError::BeginRejected(reason_or(reply.message, "Game start rejected")))
    }
}

/// Reads the reply that begins the game, as a host.
pub fn read_host_begin_reply(reply: NetplayMessage) -> (r: Result<(), NetplayError>)
    ensures
        match r {
            Ok(_) => host_begin_result(reply@) == Ok::<(), FailureModel>(()),
            Err(error) => host_begin_result(reply@) == Err::<(), FailureModel>(error@),
        },
{
    if is_granted(&reply) {
        Ok(())
    } else {
        Err(NetplayError::BeginRejected(reason_or(reply.message, "Begin game rejected")))
    }
}

/// Counts the seats with a name in them.
pub fn count_players(names: &Option<[String; 4]>) -> (r: usize)
    ensures
        r == occupied_seats(
            match *names {
                Some(names) => Some(seat_names(names)),
                None => None,
            },
        ),
        r <= 4,
{
    match names {
        Some(names) => {
            let ghost all = seat_names(*names);
            let ghost named = |name: Seq<char>| name.len() > 0;
            let mut count: usize = 0;
            let mut seat: usize = 0;
            assert(all.take(0).filter(named) =~= Seq::empty()) by {
                reveal(Seq::filter);
            }
            while seat < 4
                invariant
                    seat <= 4,
                    all == seat_names(*names),
                    named == (|name: Seq<char>| name.len() > 0),
                    count <= seat,
                    count == all.take(seat as int).filter(named).len(),
                decreases 4 - seat,
            {
                proof {
                    reveal(Seq::filter);
                    assert(all.take(seat + 1).drop_last() =~= all.take(seat as int));
                }
                if !names[seat].as_str().is_empty() {
                    count = count + 1;
                }
                seat = seat + 1;
            }
            assert(all.take(4) =~= all);
            count
        },
        None => 0,
    }
}

/// A reply to a join request admits the guest exactly if its `accept` is zero and its room has a
/// port, and then gives that room and that port, whatever else it says. If not, it is a refusal, or
/// the room or the port is missing, in that order.
pub proof fn law_join_reply_is_read_by_its_fields(reply: MessageModel)
    ensures
        reply.accept != Some(0i32) ==> join_result(reply) == Err::<(RoomModel, i32), FailureModel>(
            FailureModel::JoinRejected(
                if reply.message is Some {
                    reply.message->0
                } else {
                    "Join rejected (unknown reason)"@
                },
            ),
        ),
        reply.accept == Some(0i32) && reply.room is None ==> join_result(reply) == Err::<
            (RoomModel, i32),
            FailureModel,
        >(FailureModel::MissingRoom("reply_join_room"@)),
        reply.accept == Some(0i32) && reply.room is Some && reply.room->0.port is None
            ==> join_result(reply) == Err::<(RoomModel, i32), FailureModel>(
            FailureModel::MissingPort("reply_join_room"@),
        ),
        reply.accept == Some(0i32) && reply.room is Some && reply.room->0.port is Some
            ==> join_result(reply) == Ok::<(RoomModel, i32), FailureModel>(
            (reply.room->0, reply.room->0.port->0),
        ),
{
}

/// A reply to a create request opens the room exactly if its `accept` is zero and its room has a
/// port, and then gives that room and that port, whatever else it says. If not, it is a refusal, or
/// the room or the port is missing, in that order.
pub proof fn law_create_reply_is_read_by_its_fields(reply: MessageModel)
    ensures
        reply.accept != Some(0i32) ==> create_result(reply) == Err::<
            (RoomModel, i32),
            FailureModel,
        >(
            FailureModel::CreateRejected(
                if reply.message is Some {
                    reply.message->0
                } else {
                    "Room creation rejected"@
                },
            ),
        ),
        reply.accept == Some(0i32) && reply.room is None ==> create_result(reply) == Err::<
            (RoomModel, i32),
            FailureModel,
        >(FailureModel::MissingRoom("reply_create_room"@)),
        reply.accept == Some(0i32) && reply.room is Some && reply.room->0.port is None
            ==> create_result(reply) == Err::<(RoomModel, i32), FailureModel>(
            FailureModel::MissingPort("reply_create_room"@),
        ),
        reply.accept == Some(0i32) && reply.room is Some && reply.room->0.port is Some
            ==> create_result(reply) == Ok::<(RoomModel, i32), FailureModel>(
            (reply.room->0, reply.room->0.port->0),
        ),
{
}

/// The reply that begins the game seats a guest exactly if its `accept` is zero and the guest's name
/// is among the players', and then in the first seat with that name, whatever else it says.
pub proof fn law_guest_begin_reply_is_read_by_its_fields(
    reply: MessageModel,
    player_name: Seq<char>,
)
    ensures
        reply.accept != Some(0i32) ==> guest_begin_result(reply, player_name) == Err::<
            int,
            FailureModel,
        >(
            FailureModel::BeginRejected(
                if reply.message is Some {
                    reply.message->0
                } else {
                    "Game start rejected"@
                },
            ),
        ),
        reply.accept == Some(0i32) && reply.player_names is None ==> guest_begin_result(
            reply,
            player_name,
        ) == Err::<int, FailureModel>(FailureModel::MissingPlayerNames),
        reply.accept == Some(0i32) && reply.player_names is Some && !reply.player_names->0.contains(
            player_name,
        ) ==> guest_begin_result(reply, player_name) == Err::<int, FailureModel>(
            FailureModel::NotSeated,
        ),
        forall|seat: int|
            #![trigger reply.player_names->0[seat]]
            reply.accept == Some(0i32) && reply.player_names is Some && 0 <= seat
                < reply.player_names->0.len() && reply.player_names->0[seat] == player_name && (
            forall|earlier: int|
                0 <= earlier < seat ==> reply.player_names->0[earlier] != player_name)
                ==> guest_begin_result(reply, player_name) == Ok::<int, FailureModel>(seat),
{
    assert forall|seat: int|
        #![trigger reply.player_names->0[seat]]
        reply.accept == Some(0i32) && reply.player_names is Some && 0 <= seat
            < reply.player_names->0.len() && reply.player_names->0[seat] == player_name && (forall|
            earlier: int,
        |
            0 <= earlier < seat ==> reply.player_names->0[earlier] != player_name) implies
        guest_begin_result(reply, player_name) == Ok::<int, FailureModel>(seat) by {
        lemma_first_seat(reply.player_names->0, player_name, seat);
    }
}

/// The reply that begins the game gives a host leave exactly if its `accept` is zero, whatever else
/// it says.
pub proof fn law_host_begin_reply_is_read_by_its_fields(reply: MessageModel)
    ensures
        reply.accept == Some(0i32) ==> host_begin_result(reply) is Ok,
        reply.accept != Some(0i32) ==> host_begin_result(reply) == Err::<(), FailureModel>(
            FailureModel::BeginRejected(
                if reply.message is Some {
                    reply.message->0
                } else {
                    "Begin game rejected"@
                },
            ),
        ),
{
}

/// Of four seats those with a name in them are counted, one for each; without names there are no
/// players.
pub proof fn law_players_are_counted_seat_by_seat(names: Seq<Seq<char>>)
    requires
        names.len() == 4,
    ensures
        occupied_seats(None) == 0,
        occupied_seats(Some(names)) == (if names[0].len() > 0 {
            1int
        } else {
            0
        }) + (if names[1].len() > 0 {
            1int
        } else {
            0
        }) + (if names[2].len() > 0 {
            1int
        } else {
            0
        }) + (if names[3].len() > 0 {
            1int
        } else {
            0
        }),
{
    let named = |name: Seq<char>| name.len() > 0;
    reveal(Seq::filter);
    let three = names.drop_last();
    let two = three.drop_last();
    let one = two.drop_last();
    let none = one.drop_last();
    assert(none.filter(named).len() == 0);
    assert(one.filter(named).len() == if names[0].len() > 0 {
        1int
    } else {
        0
    });
    assert(two.filter(named).len() == one.filter(named).len() + if names[1].len() > 0 {
        1int
    } else {
        0
    });
    assert(three.filter(named).len() == two.filter(named).len() + if names[2].len() > 0 {
        1int
    } else {
        0
    });
    assert(names.filter(named).len() == three.filter(named).len() + if names[3].len() > 0 {
        1int
    } else {
        0
    });
}

} // verus!
