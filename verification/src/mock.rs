//! Recipients for tests and demonstrations.

use crate::repository::{NotificationType, RecipientRow, RecipientView};
use vstd::prelude::*;
use vstd::string::StringExecFns;

verus! {

/// Recipient A: reached by email, not deleted.
pub open spec fn recipient_a() -> RecipientView {
    RecipientView {
        id: "id_recipient_a"@,
        name: "recipient_a"@,
        notification_type: NotificationType::Email,
        to_address: "a@openmsupply.foundation"@,
        deleted_datetime: None,
    }
}

/// Recipient AA: reached by email, not deleted.
pub open spec fn recipient_aa() -> RecipientView {
    RecipientView {
        id: "id_recipient_aa"@,
        name: "recipient_aa"@,
        notification_type: NotificationType::Email,
        to_address: "aa@openmsupply.foundation"@,
        deleted_datetime: None,
    }
}

/// Recipient B: reached by email, not deleted.
pub open spec fn recipient_b() -> RecipientView {
    RecipientView {
        id: "id_recipient_b"@,
        name: "recipient_b"@,
        notification_type: NotificationType::Email,
        to_address: "b@openmsupply.foundation"@,
        deleted_datetime: None,
    }
}

/// Recipient C: reached by Telegram, not deleted.
pub open spec fn recipient_c() -> RecipientView {
    RecipientView {
        id: "id_recipient_c"@,
        name: "recipient_c"@,
        notification_type: NotificationType::Telegram,
        to_address: "chat_id_c"@,
        deleted_datetime: None,
    }
}

/// Recipient D: reached by email, deleted on 2023-01-01 00:00:00.
pub open spec fn recipient_d_deleted() -> RecipientView {
    RecipientView {
        id: "id_recipient_d"@,
        name: "recipient_d"@,
        notification_type: NotificationType::Email,
        to_address: "d@openmsupply.foundation"@,
        deleted_datetime: Some(1_672_531_200_000_000i64),
    }
}

/// The five recipients, in the order A, AA, B, C, D.
pub fn mock_recipients() -> (recipients: Vec<RecipientRow>)
    ensures
        recipients@.len() == 5,
        recipients@[0]@ == recipient_a(),
        recipients@[1]@ == recipient_aa(),
        recipients@[2]@ == recipient_b(),
        recipients@[3]@ == recipient_c(),
        recipients@[4]@ == recipient_d_deleted(),
{
    let mut recipients: Vec<RecipientRow> = Vec::new();
    recipients.push(mock_recipient_a());
    recipients.push(mock_recipient_aa());
    recipients.push(mock_recipient_b());
    recipients.push(mock_recipient_c());
    recipients.push(mock_recipient_d_deleted());
    recipients
}

/// Recipient A.
pub fn mock_recipient_a() -> (recipient: RecipientRow)
    ensures
        recipient@ == recipient_a(),
{
    RecipientRow {
        id: String::from_str("id_recipient_a"),
        name: String::from_str("recipient_a"),
        notification_type: NotificationType::Email,
        to_address: String::from_str("a@openmsupply.foundation"),
        deleted_datetime: None,
    }
}

/// Recipient AA.
pub fn mock_recipient_aa() -> (recipient: RecipientRow)
    ensures
        recipient@ == recipient_aa(),
{
    RecipientRow {
        id: String::from_str("id_recipient_aa"),
        name: String::from_str("recipient_aa"),
        notification_type: NotificationType::Email,
        to_address: String::from_str("aa@openmsupply.foundation"),
        deleted_datetime: None,
    }
}

/// Recipient B.
pub fn mock_recipient_b() -> (recipient: RecipientRow)
    ensures
        recipient@ == recipient_b(),
{
    RecipientRow {
        id: String::from_str("id_recipient_b"),
        name: String::from_str("recipient_b"),
        notification_type: NotificationType::Email,
        to_address: String::from_str("b@openmsupply.foundation"),
        deleted_datetime: None,
    }
}

/// Recipient C.
pub fn mock_recipient_c() -> (recipient: RecipientRow)
    ensures
        recipient@ == recipient_c(),
{
    RecipientRow {
        id: String::from_str("id_recipient_c"),
        name: String::from_str("recipient_c"),
        notification_type: NotificationType::Telegram,
        to_address: String::from_str("chat_id_c"),
        deleted_datetime: None,
    }
}

/// Recipient D, who was deleted.
pub fn mock_recipient_d_deleted() -> (recipient: RecipientRow)
    ensures
        recipient@ == recipient_d_deleted(),
{
    RecipientRow {
        id: String::from_str("id_recipient_d"),
        name: String::from_str("recipient_d"),
        notification_type: NotificationType::Email,
        to_address: String::from_str("d@openmsupply.foundation"),
        deleted_datetime: Some(1_672_531_200_000_000),
    }
}

} // verus!
