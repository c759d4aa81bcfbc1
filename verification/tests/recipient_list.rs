use notify_core::mock::{mock_recipient_a, mock_recipient_b};
use notify_core::recipient_list::add_member::{add_recipient_to_list, AddRecipientToList};
use notify_core::recipient_list::remove_member::{
    remove_recipient_from_list, RemoveRecipientFromList,
};
use notify_core::recipient_list::{
    ModifyRecipientListError, RecipientListService, RecipientListServiceTrait, RepositoryError,
    SingleRecordError,
};
use notify_core::repository::{RecipientListMemberRow, RecipientListRow, StorageConnection};

fn lists() -> StorageConnection {
    let mut connection = StorageConnection::new();
    connection.recipients.push(mock_recipient_a());
    connection.recipients.push(mock_recipient_b());
    connection.recipient_lists.push(RecipientListRow {
        id: "list".to_string(),
        name: "A list".to_string(),
        description: String::new(),
    });
    connection
}

fn add(recipient_id: &str, recipient_list_id: &str) -> AddRecipientToList {
    AddRecipientToList {
        recipient_id: recipient_id.to_string(),
        recipient_list_id: recipient_list_id.to_string(),
    }
}

fn remove(recipient_id: &str, recipient_list_id: &str) -> RemoveRecipientFromList {
    RemoveRecipientFromList {
        recipient_id: recipient_id.to_string(),
        recipient_list_id: recipient_list_id.to_string(),
    }
}

#[test]
fn recipient_is_added_to_a_list() {
    let mut connection = lists();
    let member = add_recipient_to_list(&mut connection, add("id_recipient_a", "list")).unwrap();
    assert_eq!(member.recipient_id, "id_recipient_a");
    assert_eq!(member.recipient_list_id, "list");
    assert!(!member.id.is_empty());
    assert_eq!(connection.recipient_list_members, vec![member.clone()]);

    let second = RecipientListService {}
        .add_recipient_to_list(&mut connection, add("id_recipient_b", "list"))
        .unwrap();
    assert_ne!(second.id, member.id);
    assert_eq!(connection.recipient_list_members.len(), 2);
}

#[test]
fn recipient_cannot_be_added() {
    let mut connection = lists();
    assert_eq!(
        add_recipient_to_list(&mut connection, add("nobody", "no list")),
        Err(ModifyRecipientListError::RecipientDoesNotExist)
    );
    assert_eq!(
        add_recipient_to_list(&mut connection, add("id_recipient_a", "no list")),
        Err(ModifyRecipientListError::RecipientListDoesNotExist)
    );
    add_recipient_to_list(&mut connection, add("id_recipient_a", "list")).unwrap();
    assert_eq!(
        add_recipient_to_list(&mut connection, add("id_recipient_a", "list")),
        Err(ModifyRecipientListError::RecipientListMemberAlreadyExists)
    );
    assert_eq!(connection.recipient_list_members.len(), 1);
    assert_eq!(
        notify_core::recipient_list::add_member::validate(
            &add("id_recipient_b", "list"),
            &connection
        ),
        Ok(())
    );
    assert!(notify_core::recipient_list::add_member::generate(add("x", "y")).is_ok());
}

#[test]
fn recipient_is_removed_from_a_list() {
    let mut connection = lists();
    let a = add_recipient_to_list(&mut connection, add("id_recipient_a", "list")).unwrap();
    let b = add_recipient_to_list(&mut connection, add("id_recipient_b", "list")).unwrap();
    assert_eq!(
        notify_core::recipient_list::remove_member::validate(
            &remove("id_recipient_b", "list"),
            &connection
        ),
        Ok(RecipientListMemberRow {
            id: b.id.clone(),
            recipient_id: "id_recipient_b".to_string(),
            recipient_list_id: "list".to_string(),
        })
    );
    let removed = remove_recipient_from_list(&mut connection, remove("id_recipient_a", "list"));
    assert_eq!(removed, Ok(a));
    assert_eq!(connection.recipient_list_members, vec![b.clone()]);

    assert_eq!(
        remove_recipient_from_list(&mut connection, remove("id_recipient_a", "list")),
        Err(ModifyRecipientListError::RecipientListMemberDoesNotExist)
    );
    assert_eq!(
        RecipientListService {}
            .remove_recipient_from_list(&mut connection, remove("id_recipient_b", "other")),
        Err(ModifyRecipientListError::RecipientListMemberDoesNotExist)
    );
    assert_eq!(connection.recipient_list_members, vec![b.clone()]);
    assert_eq!(
        RecipientListService {}
            .remove_recipient_from_list(&mut connection, remove("id_recipient_b", "list")),
        Ok(b)
    );
    assert!(connection.recipient_list_members.is_empty());
}

#[test]
fn error_of_a_single_record() {
    assert_eq!(
        ModifyRecipientListError::from(SingleRecordError::NotFound("id".to_string())),
        ModifyRecipientListError::ModifiedRecordNotFound
    );
    assert_eq!(
        ModifyRecipientListError::from(SingleRecordError::DatabaseError(
            RepositoryError::DBError("down".to_string())
        )),
        ModifyRecipientListError::DatabaseError(RepositoryError::DBError("down".to_string()))
    );
    assert_eq!(
        ModifyRecipientListError::from(SingleRecordError::DatabaseError(RepositoryError::NotFound)),
        ModifyRecipientListError::DatabaseError(RepositoryError::NotFound)
    );
}
