//! Recipient lists: adding a recipient to a list and removing one.

use crate::recipient_list::add_member::{
    add_recipient_to_list, is_new_member, validation, AddRecipientToList,
};
use crate::recipient_list::remove_member::{
    first_member, member_removed, remove_recipient_from_list, RemoveRecipientFromList,
};
use crate::repository::{members_view, RecipientListMemberRow, StorageConnection};
use vstd::prelude::*;

pub mod add_member;
pub mod remove_member;

verus! {

/// An error of the storage.
#[derive(Debug, PartialEq)]
pub enum RepositoryError {
    NotFound,
    DBError(String),
}

/// Why one record could not be looked up.
#[derive(Debug, PartialEq)]
pub enum SingleRecordError {
    DatabaseError(RepositoryError),
    NotFound(String),
}

/// Why a recipient list could not be changed.
#[derive(Debug, PartialEq)]
pub enum ModifyRecipientListError {
    RecipientListAlreadyExists,
    ModifiedRecordNotFound,
    DatabaseError(RepositoryError),
    RecipientListDoesNotExist,
    InvalidRecipientListName,
    RecipientListMemberAlreadyExists,
    RecipientListMemberDoesNotExist,
    RecipientDoesNotExist,
    GenericError(String),
}

impl ModifyRecipientListError {
    /// The error of a change, from the error of looking up one record: a
    /// record that is not found is the changed record gone.
    pub fn from(error: SingleRecordError) -> (converted: ModifyRecipientListError)
        ensures
            converted == match error {
                SingleRecordError::DatabaseError(inner) => ModifyRecipientListError::DatabaseError(
                    inner,
                ),
                SingleRecordError::NotFound(_) => ModifyRecipientListError::ModifiedRecordNotFound,
            },
    {
        match error {
            SingleRecordError::DatabaseError(inner) => ModifyRecipientListError::DatabaseError(
                inner,
            ),
            SingleRecordError::NotFound(_) => ModifyRecipientListError::ModifiedRecordNotFound,
        }
    }
}

/// What the service for recipient lists does.
pub trait RecipientListServiceTrait {
    /// Makes a recipient a member of a list, and returns the new member.
    /// Where the recipient cannot be added, that is the error and nothing
    /// changes.
    fn add_recipient_to_list(
        &self,
        connection: &mut StorageConnection,
        input: AddRecipientToList,
    ) -> (result: Result<RecipientListMemberRow, ModifyRecipientListError>)
        ensures
            result is Ok <==> validation(*old(connection), input) is None,
            result is Ok ==> is_new_member(
                *old(connection),
                *final(connection),
                result.unwrap(),
                input,
            ),
            result is Err ==> *final(connection) == *old(connection) && Some(result.unwrap_err())
                == validation(*old(connection), input),
    ;

    /// Ends the membership of a recipient in a list, and returns the member
    /// that was removed. A recipient that is not a member of the list is an
    /// error, and nothing changes.
    fn remove_recipient_from_list(
        &self,
        connection: &mut StorageConnection,
        input: RemoveRecipientFromList,
    ) -> (result: Result<RecipientListMemberRow, ModifyRecipientListError>)
        ensures
            match first_member(
                members_view(old(connection).recipient_list_members@),
                input.recipient_id@,
                input.recipient_list_id@,
            ) {
                Some(i) => {
                    &&& result is Ok
                    &&& result.unwrap()@ == old(connection).recipient_list_members@[i]@
                    &&& member_removed(*old(connection), *final(connection), result.unwrap()@.id)
                },
                None => {
                    &&& result == Err::<RecipientListMemberRow, ModifyRecipientListError>(
                        ModifyRecipientListError::RecipientListMemberDoesNotExist,
                    )
                    &&& *final(connection) == *old(connection)
                },
            },
    ;
}

/// The service for recipient lists.
pub struct RecipientListService {}

impl RecipientListServiceTrait for RecipientListService {
    fn add_recipient_to_list(
        &self,
        connection: &mut StorageConnection,
        input: AddRecipientToList,
    ) -> (result: Result<RecipientListMemberRow, ModifyRecipientListError>) {
        add_recipient_to_list(connection, input)
    }

    fn remove_recipient_from_list(
        &self,
        connection: &mut StorageConnection,
        input: RemoveRecipientFromList,
    ) -> (result: Result<RecipientListMemberRow, ModifyRecipientListError>) {
        remove_recipient_from_list(connection, input)
    }
}

} // verus!
