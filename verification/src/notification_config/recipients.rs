//! Whom a configuration notifies.

use crate::enqueue::{targets_view, NotificationTarget, TargetView};
use crate::notification_config::{ModifyNotificationConfigError, NotificationConfig};
use crate::repository::{
    members_view, recipients_view, MemberView, RecipientListMemberRow, RecipientView,
    StorageConnection,
};
use crate::text::{contains_text, texts};
use vstd::prelude::*;

verus! {

/// `recipient_id` is a member of one of the lists `list_ids`.
pub open spec fn is_member(members: Seq<MemberView>, list_ids: Seq<Seq<char>>, recipient_id: Seq<char>)
    -> bool {
    exists|m: int|
        0 <= m < members.len() && (#[trigger] members[m]).recipient_id == recipient_id
            && list_ids.contains(members[m].recipient_list_id)
}

/// A configuration notifies a recipient that it names, or that is a member
/// of a list that it names.
pub open spec fn is_notified(
    recipient_ids: Seq<Seq<char>>,
    list_ids: Seq<Seq<char>>,
    members: Seq<MemberView>,
    recipient: RecipientView,
) -> bool {
    recipient_ids.contains(recipient.id) || is_member(members, list_ids, recipient.id)
}

/// [`is_notified`] for a fixed configuration and table of members.
pub open spec fn notified(
    recipient_ids: Seq<Seq<char>>,
    list_ids: Seq<Seq<char>>,
    members: Seq<MemberView>,
) -> spec_fn(RecipientView) -> bool {
    |recipient: RecipientView| is_notified(recipient_ids, list_ids, members, recipient)
}

/// The target that a recipient stands for.
pub open spec fn target_of(recipient: RecipientView) -> TargetView {
    TargetView {
        name: recipient.name,
        to_address: recipient.to_address,
        notification_type: recipient.notification_type,
    }
}

/// The targets of a configuration that names the recipients
/// `recipient_ids` and the lists `list_ids`: each recipient that it
/// notifies, once, in the order of the storage.
pub open spec fn targets_of(
    recipient_ids: Seq<Seq<char>>,
    list_ids: Seq<Seq<char>>,
    recipients: Seq<RecipientView>,
    members: Seq<MemberView>,
) -> Seq<TargetView> {
    recipients.filter(notified(recipient_ids, list_ids, members)).map_values(
        |recipient: RecipientView| target_of(recipient),
    )
}

fn is_member_of_lists(
    members: &Vec<RecipientListMemberRow>,
    list_ids: &Vec<String>,
    recipient_id: &String,
) -> (found: bool)
    ensures
        found == is_member(members_view(members@), texts(list_ids@), recipient_id@),
{
    let mut m: usize = 0;
    while m < members.len()
        invariant
            m <= members@.len(),
            forall|j: int|
                0 <= j < m ==> !((#[trigger] members_view(members@)[j]).recipient_id
                    == recipient_id@ && texts(list_ids@).contains(
                    members_view(members@)[j].recipient_list_id,
                )),
        decreases members@.len() - m,
    {
        assert(members_view(members@)[m as int] == members@[m as int]@);
        if members[m].recipient_id == *recipient_id && contains_text(
            list_ids,
            &members[m].recipient_list_id,
        ) {
            return true;
        }
        m += 1;
    }
    false
}

/// The targets of a configuration.
pub fn get_notification_targets(
    connection: &StorageConnection,
    notification_config: &NotificationConfig,
) -> (result: Result<Vec<NotificationTarget>, ModifyNotificationConfigError>)
    ensures
        result is Ok,
        targets_view(result.unwrap()@) == targets_of(
            texts(notification_config.recipient_ids@),
            texts(notification_config.recipient_list_ids@),
            recipients_view(connection.recipients@),
            members_view(connection.recipient_list_members@),
        ),
{
    let rows = &connection.recipients;
    let ghost all = recipients_view(rows@);
    let ghost wanted = notified(
        texts(notification_config.recipient_ids@),
        texts(notification_config.recipient_list_ids@),
        members_view(connection.recipient_list_members@),
    );
    let ghost convert = |recipient: RecipientView| target_of(recipient);
    let mut targets: Vec<NotificationTarget> = Vec::new();
    let mut i: usize = 0;
    assert(all.take(0) =~= Seq::empty());
    assert(targets_view(targets@) =~= all.take(0).filter(wanted).map_values(convert));
    while i < rows.len()
        invariant
            i <= rows@.len(),
            all == recipients_view(rows@),
            wanted == notified(
                texts(notification_config.recipient_ids@),
                texts(notification_config.recipient_list_ids@),
                members_view(connection.recipient_list_members@),
            ),
            convert == |recipient: RecipientView| target_of(recipient),
            targets_view(targets@) == all.take(i as int).filter(wanted).map_values(convert),
        decreases rows@.len() - i,
    {
        let row = &rows[i];
        let is_wanted = contains_text(&notification_config.recipient_ids, &row.id)
            || is_member_of_lists(
            &connection.recipient_list_members,
            &notification_config.recipient_list_ids,
            &row.id,
        );
        proof {
            reveal(Seq::filter);
            assert(all.take(i as int + 1).drop_last() =~= all.take(i as int));
            assert(all.take(i as int + 1).last() == row@);
            assert(is_wanted == wanted(row@));
        }
        if is_wanted {
            let ghost before = targets@;
            targets.push(
                NotificationTarget {
                    name: row.name.clone(),
                    to_address: row.to_address.clone(),
                    notification_type: row.notification_type,
                },
            );
            assert(targets_view(targets@) =~= targets_view(before).push(target_of(row@)));
            assert(all.take(i as int + 1).filter(wanted).map_values(convert) =~= all.take(
                i as int,
            ).filter(wanted).map_values(convert).push(target_of(row@)));
        }
        i += 1;
    }
    assert(all.take(i as int) =~= all);
    Ok(targets)
}

} // verus!
