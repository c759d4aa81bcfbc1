//! Adding a recipient to a list.

use crate::recipient_list::ModifyRecipientListError;
use crate::repository::{RecipientListMemberRow, StorageConnection};
use crate::util::uuid;
use vstd::prelude::*;

verus! {

/// A recipient to add to a list.
pub struct AddRecipientToList {
    pub recipient_id: String,
    pub recipient_list_id: String,
}

impl Clone for AddRecipientToList {
    fn clone(&self) -> (copy: AddRecipientToList)
        ensures
            copy.recipient_id@ == self.recipient_id@,
            copy.recipient_list_id@ == self.recipient_list_id@,
    {
        AddRecipientToList {
            recipient_id: self.recipient_id.clone(),
            recipient_list_id: self.recipient_list_id.clone(),
        }
    }
}

/// The storage holds the recipient `id`.
pub open spec fn recipient_exists(connection: StorageConnection, id: Seq<char>) -> bool {
    exists|i: int|
        0 <= i < connection.recipients@.len() && (#[trigger] connection.recipients@[i]).id@ == id
}

/// The storage holds the list `id`.
pub open spec fn list_exists(connection: StorageConnection, id: Seq<char>) -> bool {
    exists|i: int|
        0 <= i < connection.recipient_lists@.len() && (#[trigger] connection.recipient_lists@[i]).id@
            == id
}

/// The recipient is a member of the list.
pub open spec fn member_exists(
    connection: StorageConnection,
    recipient_id: Seq<char>,
    recipient_list_id: Seq<char>,
) -> bool {
    exists|i: int|
        0 <= i < connection.recipient_list_members@.len() && (
        #[trigger] connection.recipient_list_members@[i]).recipient_id@ == recipient_id
            && connection.recipient_list_members@[i].recipient_list_id@ == recipient_list_id
}

/// Why the recipient cannot be added to the list, if it cannot: the
/// recipient has to exist, then the list, and the recipient must not be a
/// member of it yet.
pub open spec fn validation(connection: StorageConnection, new_member: AddRecipientToList)
    -> Option<ModifyRecipientListError> {
    if !recipient_exists(connection, new_member.recipient_id@) {
        Some(ModifyRecipientListError::RecipientDoesNotExist)
    } else if !list_exists(connection, new_member.recipient_list_id@) {
        Some(ModifyRecipientListError::RecipientListDoesNotExist)
    } else if member_exists(connection, new_member.recipient_id@, new_member.recipient_list_id@) {
        Some(ModifyRecipientListError::RecipientListMemberAlreadyExists)
    } else {
        None
    }
}

fn check_recipient_exists(id: &String, connection: &StorageConnection) -> (found: bool)
    ensures
        found == recipient_exists(*connection, id@),
{
    let mut i: usize = 0;
    while i < connection.recipients.len()
        invariant
            i <= connection.recipients@.len(),
            forall|j: int| 0 <= j < i ==> (#[trigger] connection.recipients@[j]).id@ != id@,
        decreases connection.recipients@.len() - i,
    {
        if connection.recipients[i].id == *id {
            return true;
        }
        i += 1;
    }
    false
}

fn check_recipient_list_exists(id: &String, connection: &StorageConnection) -> (found: bool)
    ensures
        found == list_exists(*connection, id@),
{
    let mut i: usize = 0;
    while i < connection.recipient_lists.len()
        invariant
            i <= connection.recipient_lists@.len(),
            forall|j: int| 0 <= j < i ==> (#[trigger] connection.recipient_lists@[j]).id@ != id@,
        decreases connection.recipient_lists@.len() - i,
    {
        if connection.recipient_lists[i].id == *id {
            return true;
        }
        i += 1;
    }
    false
}

fn check_recipient_list_member_does_not_exist(
    recipient_id: &String,
    recipient_list_id: &String,
    connection: &StorageConnection,
) -> (absent: bool)
    ensures
        absent == !member_exists(*connection, recipient_id@, recipient_list_id@),
{
    let mut i: usize = 0;
    while i < connection.recipient_list_members.len()
        invariant
            i <= connection.recipient_list_members@.len(),
            forall|j: int|
                0 <= j < i ==> !((#[trigger] connection.recipient_list_members@[j]).recipient_id@
                    == recipient_id@ && connection.recipient_list_members@[j].recipient_list_id@
                    == recipient_list_id@),
        decreases connection.recipient_list_members@.len() - i,
    {
        if connection.recipient_list_members[i].recipient_id == *recipient_id
            && connection.recipient_list_members[i].recipient_list_id == *recipient_list_id {
            return false;
        }
        i += 1;
    }
    true
}

/// Checks that the recipient can be added to the list.
pub fn validate(new_member: &AddRecipientToList, connection: &StorageConnection) -> (result:
    Result<(), ModifyRecipientListError>)
    ensures
        match result {
            Ok(()) => validation(*connection, *new_member) is None,
            Err(error) => validation(*connection, *new_member) == Some(error),
        },
{
    if !check_recipient_exists(&new_member.recipient_id, connection) {
        return Err(ModifyRecipientListError::RecipientDoesNotExist);
    }
    if !check_recipient_list_exists(&new_member.recipient_list_id, connection) {
        return Err(ModifyRecipientListError::RecipientListDoesNotExist);
    }
    if !check_recipient_list_member_does_not_exist(
        &new_member.recipient_id,
        &new_member.recipient_list_id,
        connection,
    ) {
        return Err(ModifyRecipientListError::RecipientListMemberAlreadyExists);
    }
    Ok(())
}

/// The row of a new member, under a fresh id.
pub fn generate(new_member: AddRecipientToList) -> (result: Result<
    RecipientListMemberRow,
    ModifyRecipientListError,
>)
    ensures
        result is Ok,
        result.unwrap().recipient_id@ == new_member.recipient_id@,
        result.unwrap().recipient_list_id@ == new_member.recipient_list_id@,
{
    Ok(
        RecipientListMemberRow {
            id: uuid(),
            recipient_id: new_member.recipient_id,
            recipient_list_id: new_member.recipient_list_id,
        },
    )
}

/// `after` is `before` with the member `member` of `input` added at the
/// end of the members.
pub open spec fn is_new_member(
    before: StorageConnection,
    after: StorageConnection,
    member: RecipientListMemberRow,
    input: AddRecipientToList,
) -> bool {
    &&& member.recipient_id@ == input.recipient_id@
    &&& member.recipient_list_id@ == input.recipient_list_id@
    &&& after.recipient_list_members@.len() == before.recipient_list_members@.len() + 1
    &&& after.recipient_list_members@.drop_last() == before.recipient_list_members@
    &&& after.recipient_list_members@.last()@ == member@
    &&& after.recipients == before.recipients
    &&& after.recipient_lists == before.recipient_lists
    &&& after.notification_configs == before.notification_configs
    &&& after.notification_queries == before.notification_queries
    &&& after.notification_events == before.notification_events
    &&& after.plugin_store == before.plugin_store
}

/// Makes a recipient a member of a list, and returns the new member. Where
/// the recipient cannot be added, that is the error and nothing changes.
pub fn add_recipient_to_list(
    connection: &mut StorageConnection,
    new_recipient_list_member: AddRecipientToList,
) -> (result: Result<RecipientListMemberRow, ModifyRecipientListError>)
    ensures
        result is Ok <==> validation(*old(connection), new_recipient_list_member) is None,
        result is Ok ==> is_new_member(
            *old(connection),
            *final(connection),
            result.unwrap(),
            new_recipient_list_member,
        ),
        result is Err ==> *final(connection) == *old(connection) && Some(result.unwrap_err())
            == validation(*old(connection), new_recipient_list_member),
{
    match validate(&new_recipient_list_member, connection) {
        Ok(()) => {},
        Err(error) => {
            return Err(error);
        },
    }
    let row = match generate(new_recipient_list_member.clone()) {
        Ok(row) => row,
        Err(error) => {
            return Err(error);
        },
    };
    let member = row.clone();
    let ghost before = connection.recipient_list_members@;
    connection.recipient_list_members.push(row);
    assert(connection.recipient_list_members@.drop_last() =~= before);
    Ok(member)
}

} // verus!
