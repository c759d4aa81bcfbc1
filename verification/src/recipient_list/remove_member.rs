//! Removing a recipient from a list.

use crate::recipient_list::ModifyRecipientListError;
use crate::repository::{members_view, MemberView, RecipientListMemberRow, StorageConnection};
use vstd::prelude::*;

verus! {

/// A recipient to remove from a list.
pub struct RemoveRecipientFromList {
    pub recipient_id: String,
    pub recipient_list_id: String,
}

impl Clone for RemoveRecipientFromList {
    fn clone(&self) -> (copy: RemoveRecipientFromList)
        ensures
            copy.recipient_id@ == self.recipient_id@,
            copy.recipient_list_id@ == self.recipient_list_id@,
    {
        RemoveRecipientFromList {
            recipient_id: self.recipient_id.clone(),
            recipient_list_id: self.recipient_list_id.clone(),
        }
    }
}

/// `i` is the place of the first row that makes the recipient a member of
/// the list.
pub open spec fn is_first_member(
    members: Seq<MemberView>,
    recipient_id: Seq<char>,
    recipient_list_id: Seq<char>,
    i: int,
) -> bool {
    &&& 0 <= i < members.len()
    &&& members[i].recipient_id == recipient_id
    &&& members[i].recipient_list_id == recipient_list_id
    &&& forall|j: int|
        0 <= j < i ==> !((#[trigger] members[j]).recipient_id == recipient_id
            && members[j].recipient_list_id == recipient_list_id)
}

/// The place of the first row that makes the recipient a member of the
/// list, if there is one.
pub open spec fn first_member(
    members: Seq<MemberView>,
    recipient_id: Seq<char>,
    recipient_list_id: Seq<char>,
) -> Option<int> {
    if exists|i: int| is_first_member(members, recipient_id, recipient_list_id, i) {
        Some(choose|i: int| is_first_member(members, recipient_id, recipient_list_id, i))
    } else {
        None
    }
}

/// `i` is the place of the first row with the id `id`.
pub open spec fn is_first_with_id(members: Seq<MemberView>, id: Seq<char>, i: int) -> bool {
    &&& 0 <= i < members.len()
    &&& members[i].id == id
    &&& forall|j: int| 0 <= j < i ==> (#[trigger] members[j]).id != id
}

/// `after` is `before` without the first member row with the id `id`.
pub open spec fn member_removed(before: StorageConnection, after: StorageConnection, id: Seq<char>)
    -> bool {
    &&& exists|i: int|
        is_first_with_id(members_view(before.recipient_list_members@), id, i)
            && after.recipient_list_members@ == before.recipient_list_members@.remove(i)
    &&& after.recipients == before.recipients
    &&& after.recipient_lists == before.recipient_lists
    &&& after.notification_configs == before.notification_configs
    &&& after.notification_queries == before.notification_queries
    &&& after.notification_events == before.notification_events
    &&& after.plugin_store == before.plugin_store
}

/// Finds the member to remove. A recipient that is not a member of the
/// list is an error.
pub fn validate(remove_member: &RemoveRecipientFromList, connection: &StorageConnection) -> (result:
    Result<RecipientListMemberRow, ModifyRecipientListError>)
    ensures
        match first_member(
            members_view(connection.recipient_list_members@),
            remove_member.recipient_id@,
            remove_member.recipient_list_id@,
        ) {
            Some(i) => result is Ok && result.unwrap()@ == connection.recipient_list_members@[i]@,
            None => result == Err::<RecipientListMemberRow, ModifyRecipientListError>(
                ModifyRecipientListError::RecipientListMemberDoesNotExist,
            ),
        },
{
    let rows = &connection.recipient_list_members;
    let ghost members = members_view(rows@);
    let mut i: usize = 0;
    while i < rows.len()
        invariant
            i <= rows@.len(),
            rows@ == connection.recipient_list_members@,
            members == members_view(rows@),
            forall|j: int|
                0 <= j < i ==> !((#[trigger] members[j]).recipient_id == remove_member.recipient_id@
                    && members[j].recipient_list_id == remove_member.recipient_list_id@),
        decreases rows@.len() - i,
    {
        assert(members[i as int] == rows@[i as int]@);
        if rows[i].recipient_id == remove_member.recipient_id && rows[i].recipient_list_id
            == remove_member.recipient_list_id {
            proof {
                assert(is_first_member(
                    members,
                    remove_member.recipient_id@,
                    remove_member.recipient_list_id@,
                    i as int,
                ));
                let c = choose|c: int|
                    is_first_member(
                        members,
                        remove_member.recipient_id@,
                        remove_member.recipient_list_id@,
                        c,
                    );
                assert(c == i);
            }
            return Ok(rows[i].clone());
        }
        i += 1;
    }
    proof {
        assert forall|c: int|
            !is_first_member(
                members,
                remove_member.recipient_id@,
                remove_member.recipient_list_id@,
                c,
            ) by {
            if 0 <= c < members.len() {
                assert(!(members[c].recipient_id == remove_member.recipient_id@
                    && members[c].recipient_list_id == remove_member.recipient_list_id@));
            }
        }
    }
    Err(ModifyRecipientListError::RecipientListMemberDoesNotExist)
}

/// Removes the first member row with the id `id`.
fn delete(connection: &mut StorageConnection, id: &String)
    requires
        exists|j: int|
            0 <= j < old(connection).recipient_list_members@.len() && (#[trigger] old(
                connection,
            ).recipient_list_members@[j]).id@ == id@,
    ensures
        member_removed(*old(connection), *final(connection), id@),
{
    let ghost members = members_view(connection.recipient_list_members@);
    let ghost last = choose|j: int|
        0 <= j < connection.recipient_list_members@.len() && (
        #[trigger] connection.recipient_list_members@[j]).id@ == id@;
    let mut i: usize = 0;
    while !(connection.recipient_list_members[i].id == *id)
        invariant
            i <= last < connection.recipient_list_members@.len(),
            connection.recipient_list_members@[last].id@ == id@,
            *connection == *old(connection),
            members == members_view(connection.recipient_list_members@),
            forall|j: int| 0 <= j < i ==> (#[trigger] members[j]).id != id@,
        decreases connection.recipient_list_members@.len() - i,
    {
        assert(members[i as int] == connection.recipient_list_members@[i as int]@);
        assert(i < connection.recipient_list_members.len());
        i += 1;
    }
    assert(members[i as int] == connection.recipient_list_members@[i as int]@);
    connection.recipient_list_members.remove(i);
    assert(is_first_with_id(members, id@, i as int));
}

/// Ends the membership of a recipient in a list, and returns the member
/// that was removed. A recipient that is not a member of the list is an
/// error, and nothing changes.
pub fn remove_recipient_from_list(
    connection: &mut StorageConnection,
    remove_member: RemoveRecipientFromList,
) -> (result: Result<RecipientListMemberRow, ModifyRecipientListError>)
    ensures
        match first_member(
            members_view(old(connection).recipient_list_members@),
            remove_member.recipient_id@,
            remove_member.recipient_list_id@,
        ) {
            Some(i) => {
                &&& result is Ok
                &&& result.unwrap()@ == old(connection).recipient_list_members@[i]@
                &&& member_removed(*old(connection), *final(connection), result.unwrap()@.id)
            },
            None => {
                &&& result == Err::<RecipientListMemberRow, ModifyRecipientListError>(
                    ModifyRecipientListError::RecipientListMemberDoesNotExist,
                )
                &&& *final(connection) == *old(connection)
            },
        },
{
    let member = match validate(&remove_member, connection) {
        Ok(member) => member,
        Err(error) => {
            return Err(error);
        },
    };
    proof {
        let i = first_member(
            members_view(connection.recipient_list_members@),
            remove_member.recipient_id@,
            remove_member.recipient_list_id@,
        ).unwrap();
        assert(is_first_member(
            members_view(connection.recipient_list_members@),
            remove_member.recipient_id@,
            remove_member.recipient_list_id@,
            i,
        ));
        assert(connection.recipient_list_members@[i].id@ == member.id@);
    }
    delete(connection, &member.id);
    Ok(member)
}

} // verus!
