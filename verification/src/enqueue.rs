//! From a notification to event rows: one row for each distinct address,
//! rendered from the notification's templates.
//!
//! The template engine is the caller's part; this module says what it is
//! to do and decides what comes of it. [`setup_steps`] lists how the engine
//! of a notification is set up. [`prepare_notification_events`] takes what
//! that came to and says what is to be rendered. The caller renders. Then
//! [`create_notification_events`] turns what was rendered into events.

use crate::json::{json_text, Json, JsonValue};
use crate::repository::{
    NotificationEventRow, NotificationEventStatus, NotificationType, RecipientRow,
    StorageConnection,
};
use crate::templates::{context_from_json, error_debug};
use crate::text::{
    copy_of, copy_of_result, lemma_text_le_antisymmetric, lemma_text_le_reflexive, lemma_text_le_total,
    lemma_text_lt_le, option_text, str_le, text_lt, text_result,
};
use crate::util::{now, uuid};
use vstd::prelude::*;
use vstd::string::StringExecFns;

verus! {

/// Whom a notification goes to, and what a template may read of them.
#[derive(Debug, PartialEq)]
pub struct NotificationTarget {
    pub name: String,
    pub to_address: String,
    pub notification_type: NotificationType,
}

/// The value of a [`NotificationTarget`].
pub struct TargetView {
    pub name: Seq<char>,
    pub to_address: Seq<char>,
    pub notification_type: NotificationType,
}

impl View for NotificationTarget {
    type V = TargetView;

    open spec fn view(&self) -> TargetView {
        TargetView {
            name: self.name@,
            to_address: self.to_address@,
            notification_type: self.notification_type,
        }
    }
}

impl Clone for NotificationTarget {
    fn clone(&self) -> (copy: NotificationTarget)
        ensures
            copy@ == self@,
    {
        NotificationTarget {
            name: self.name.clone(),
            to_address: self.to_address.clone(),
            notification_type: self.notification_type,
        }
    }
}

impl NotificationTarget {
    /// The target that a stored recipient stands for.
    pub fn from(recipient: RecipientRow) -> (target: NotificationTarget)
        ensures
            target.name@ == recipient.name@,
            target.to_address@ == recipient.to_address@,
            target.notification_type == recipient.notification_type,
    {
        NotificationTarget {
            name: recipient.name,
            to_address: recipient.to_address,
            notification_type: recipient.notification_type,
        }
    }
}

/// The values of a list of targets.
pub open spec fn targets_view(targets: Seq<NotificationTarget>) -> Seq<TargetView> {
    targets.map_values(|t: NotificationTarget| t@)
}

/// `k` is the first place in `targets` with the address found there.
pub open spec fn is_first_of_address(targets: Seq<TargetView>, k: int) -> bool {
    &&& 0 <= k < targets.len()
    &&& forall|m: int| 0 <= m < k ==> (#[trigger] targets[m]).to_address != targets[k].to_address
}

/// `target` stands in `all`, and no earlier target of `all` has its address.
pub open spec fn is_first_in(all: Seq<TargetView>, target: TargetView) -> bool {
    exists|k: int| is_first_of_address(all, k) && all[k] == target
}

/// Some target of `targets` has the address `address`.
pub open spec fn has_address(targets: Seq<TargetView>, address: Seq<char>) -> bool {
    exists|i: int| 0 <= i < targets.len() && (#[trigger] targets[i]).to_address == address
}

/// The addresses of `targets` grow strictly from left to right, so none
/// occurs twice.
pub open spec fn strictly_ascending(targets: Seq<TargetView>) -> bool {
    forall|i: int, j: int|
        0 <= i < j < targets.len() ==> text_lt(
            (#[trigger] targets[i]).to_address,
            (#[trigger] targets[j]).to_address,
        )
}

/// `unique` is `all` ordered by address, with the first target of each
/// address kept and the later ones dropped.
pub open spec fn is_deduplicated(all: Seq<TargetView>, unique: Seq<TargetView>) -> bool {
    &&& strictly_ascending(unique)
    &&& forall|i: int| 0 <= i < unique.len() ==> #[trigger] is_first_in(all, unique[i])
    &&& forall|k: int| 0 <= k < all.len() ==> #[trigger] has_address(unique, all[k].to_address)
}

fn address_lt(a: &String, b: &String) -> (lt: bool)
    ensures
        lt == text_lt(a@, b@),
{
    str_le(a.as_str(), b.as_str()) && !(*a == *b)
}

/// What was first in `seen` is first in `seen` with one more target.
proof fn lemma_first_stays_first(seen: Seq<TargetView>, x: TargetView, target: TargetView)
    requires
        is_first_in(seen, target),
    ensures
        is_first_in(seen.push(x), target),
{
    let seen_now = seen.push(x);
    let k = choose|k: int| is_first_of_address(seen, k) && seen[k] == target;
    assert(seen_now[k] == seen[k]);
    assert forall|m: int| 0 <= m < k implies (#[trigger] seen_now[m]).to_address
        != seen_now[k].to_address by {
        assert(seen_now[m] == seen[m]);
    }
    assert(is_first_of_address(seen_now, k) && seen_now[k] == target);
}

/// A target whose address is already present changes nothing.
proof fn lemma_duplicate_is_dropped(
    seen: Seq<TargetView>,
    unique: Seq<TargetView>,
    x: TargetView,
    p: int,
)
    requires
        is_deduplicated(seen, unique),
        0 <= p < unique.len(),
        unique[p].to_address == x.to_address,
    ensures
        is_deduplicated(seen.push(x), unique),
{
    let seen_now = seen.push(x);
    assert forall|i: int| 0 <= i < unique.len() implies #[trigger] is_first_in(
        seen_now,
        unique[i],
    ) by {
        assert(is_first_in(seen, unique[i]));
        lemma_first_stays_first(seen, x, unique[i]);
    }
    assert forall|k: int| 0 <= k < seen_now.len() implies #[trigger] has_address(
        unique,
        seen_now[k].to_address,
    ) by {
        if k < seen.len() {
            assert(seen_now[k] == seen[k]);
            assert(has_address(unique, seen[k].to_address));
        } else {
            assert(unique[p].to_address == seen_now[k].to_address);
        }
    }
}

/// Putting `x` where it belongs keeps the addresses strictly ascending.
proof fn lemma_insert_keeps_order(unique: Seq<TargetView>, x: TargetView, p: int)
    requires
        strictly_ascending(unique),
        0 <= p <= unique.len(),
        forall|q: int| 0 <= q < p ==> text_lt((#[trigger] unique[q]).to_address, x.to_address),
        p < unique.len() ==> !text_lt(unique[p].to_address, x.to_address) && unique[p].to_address
            != x.to_address,
    ensures
        strictly_ascending(unique.insert(p, x)),
        forall|q: int|
            p <= q < unique.len() ==> text_lt(x.to_address, (#[trigger] unique[q]).to_address),
{
    let after = unique.insert(p, x);
    let address = x.to_address;
    assert forall|q: int| p <= q < unique.len() implies text_lt(
        address,
        (#[trigger] unique[q]).to_address,
    ) by {
        let here = unique[p].to_address;
        lemma_text_le_total(address, here);
        assert(text_lt(address, here));
        if q > p {
            assert(text_lt(unique[p].to_address, unique[q].to_address));
            lemma_text_lt_le(address, here, unique[q].to_address);
        }
    }
    assert forall|i: int, j: int| 0 <= i < j < after.len() implies text_lt(
        (#[trigger] after[i]).to_address,
        (#[trigger] after[j]).to_address,
    ) by {
        if j < p {
            assert(after[i] == unique[i] && after[j] == unique[j]);
        } else if j == p {
            assert(after[i] == unique[i] && after[j] == x);
        } else if i < p {
            assert(after[i] == unique[i] && after[j] == unique[j - 1]);
        } else if i == p {
            assert(after[i] == x && after[j] == unique[j - 1]);
        } else {
            assert(after[i] == unique[i - 1] && after[j] == unique[j - 1]);
        }
    }
}

/// An address that differs from all in `unique` differs from all in `seen`.
proof fn lemma_address_is_new(seen: Seq<TargetView>, unique: Seq<TargetView>, x: TargetView, p: int)
    requires
        is_deduplicated(seen, unique),
        0 <= p <= unique.len(),
        forall|q: int| 0 <= q < p ==> text_lt((#[trigger] unique[q]).to_address, x.to_address),
        forall|q: int|
            p <= q < unique.len() ==> text_lt(x.to_address, (#[trigger] unique[q]).to_address),
    ensures
        is_first_of_address(seen.push(x), seen.len() as int),
{
    let seen_now = seen.push(x);
    assert forall|m: int| 0 <= m < seen.len() implies (#[trigger] seen_now[m]).to_address
        != x.to_address by {
        assert(seen_now[m] == seen[m]);
        assert(has_address(unique, seen[m].to_address));
        let i = choose|i: int|
            0 <= i < unique.len() && (#[trigger] unique[i]).to_address == seen[m].to_address;
        if i < p {
            assert(text_lt(unique[i].to_address, x.to_address));
        } else {
            assert(text_lt(x.to_address, unique[i].to_address));
        }
    }
}

/// A target with a new address takes its place among the others.
proof fn lemma_new_address_is_inserted(
    seen: Seq<TargetView>,
    unique: Seq<TargetView>,
    x: TargetView,
    p: int,
)
    requires
        is_deduplicated(seen, unique),
        0 <= p <= unique.len(),
        forall|q: int| 0 <= q < p ==> text_lt((#[trigger] unique[q]).to_address, x.to_address),
        p < unique.len() ==> !text_lt(unique[p].to_address, x.to_address) && unique[p].to_address
            != x.to_address,
    ensures
        is_deduplicated(seen.push(x), unique.insert(p, x)),
{
    let seen_now = seen.push(x);
    let after = unique.insert(p, x);
    let n = seen.len() as int;
    lemma_insert_keeps_order(unique, x, p);
    lemma_address_is_new(seen, unique, x, p);
    assert(seen_now[n] == x);
    assert forall|i: int| 0 <= i < after.len() implies #[trigger] is_first_in(
        seen_now,
        after[i],
    ) by {
        if i == p {
            assert(is_first_of_address(seen_now, n) && seen_now[n] == after[i]);
        } else {
            let b = if i < p {
                i
            } else {
                i - 1
            };
            assert(after[i] == unique[b]);
            assert(is_first_in(seen, unique[b]));
            lemma_first_stays_first(seen, x, unique[b]);
        }
    }
    assert forall|k: int| 0 <= k < seen_now.len() implies #[trigger] has_address(
        after,
        seen_now[k].to_address,
    ) by {
        if k < n {
            assert(seen_now[k] == seen[k]);
            assert(has_address(unique, seen[k].to_address));
            let b = choose|i: int|
                0 <= i < unique.len() && (#[trigger] unique[i]).to_address == seen[k].to_address;
            let i = if b < p {
                b
            } else {
                b + 1
            };
            assert(after[i] == unique[b]);
            assert(0 <= i < after.len() && after[i].to_address == seen_now[k].to_address);
        } else {
            assert(after[p] == x);
            assert(0 <= p < after.len() && after[p].to_address == seen_now[k].to_address);
        }
    }
}

/// The addresses of `targets`, in order.
pub open spec fn addresses(targets: Seq<TargetView>) -> Seq<Seq<char>> {
    targets.map_values(|t: TargetView| t.to_address)
}

/// Two strictly ascending lists that hold the same texts are one list.
proof fn lemma_ascending_lists_agree(a: Seq<Seq<char>>, b: Seq<Seq<char>>)
    requires
        forall|i: int, j: int| 0 <= i < j < a.len() ==> text_lt(#[trigger] a[i], #[trigger] a[j]),
        forall|i: int, j: int| 0 <= i < j < b.len() ==> text_lt(#[trigger] b[i], #[trigger] b[j]),
        forall|i: int| 0 <= i < a.len() ==> b.contains(#[trigger] a[i]),
        forall|i: int| 0 <= i < b.len() ==> a.contains(#[trigger] b[i]),
    ensures
        a == b,
    decreases a.len(),
{
    if a.len() == 0 {
        if b.len() > 0 {
            assert(a.contains(b[0]));
        }
        assert(a =~= b);
    } else {
        assert(b.contains(a[0]));
        let j = choose|j: int| 0 <= j < b.len() && b[j] == a[0];
        assert(a.contains(b[0]));
        let i = choose|i: int| 0 <= i < a.len() && a[i] == b[0];
        if i > 0 {
            assert(text_lt(a[0], a[i]));
        }
        if j > 0 {
            assert(text_lt(b[0], b[j]));
        }
        lemma_text_le_reflexive(a[0]);
        lemma_text_le_reflexive(b[0]);
        lemma_text_le_antisymmetric(a[0], b[0]);
        let a1 = a.drop_first();
        let b1 = b.drop_first();
        assert forall|i: int| 0 <= i < a1.len() implies b1.contains(#[trigger] a1[i]) by {
            assert(a1[i] == a[i + 1]);
            assert(b.contains(a[i + 1]));
            let m = choose|m: int| 0 <= m < b.len() && b[m] == a[i + 1];
            assert(text_lt(a[0], a[i + 1]));
            assert(m > 0);
            assert(b1[m - 1] == a1[i]);
        }
        assert forall|i: int| 0 <= i < b1.len() implies a1.contains(#[trigger] b1[i]) by {
            assert(b1[i] == b[i + 1]);
            assert(a.contains(b[i + 1]));
            let m = choose|m: int| 0 <= m < a.len() && a[m] == b[i + 1];
            assert(text_lt(b[0], b[i + 1]));
            assert(m > 0);
            assert(a1[m - 1] == b1[i]);
        }
        assert forall|i: int, j: int| 0 <= i < j < a1.len() implies text_lt(
            #[trigger] a1[i],
            #[trigger] a1[j],
        ) by {
            assert(a1[i] == a[i + 1] && a1[j] == a[j + 1]);
        }
        assert forall|i: int, j: int| 0 <= i < j < b1.len() implies text_lt(
            #[trigger] b1[i],
            #[trigger] b1[j],
        ) by {
            assert(b1[i] == b[i + 1] && b1[j] == b[j + 1]);
        }
        lemma_ascending_lists_agree(a1, b1);
        assert(a =~= seq![a[0]] + a1);
        assert(b =~= seq![b[0]] + b1);
    }
}

/// The first target of an address is one target.
proof fn lemma_first_is_unique(all: Seq<TargetView>, s: TargetView, t: TargetView)
    requires
        is_first_in(all, s),
        is_first_in(all, t),
        s.to_address == t.to_address,
    ensures
        s == t,
{
    let k = choose|k: int| is_first_of_address(all, k) && all[k] == s;
    let m = choose|m: int| is_first_of_address(all, m) && all[m] == t;
    if k < m {
        assert(all[k].to_address != all[m].to_address);
    }
    if m < k {
        assert(all[m].to_address != all[k].to_address);
    }
}

/// Only one list is `all` deduplicated.
pub proof fn lemma_deduplicated_is_unique(
    all: Seq<TargetView>,
    first: Seq<TargetView>,
    second: Seq<TargetView>,
)
    requires
        is_deduplicated(all, first),
        is_deduplicated(all, second),
    ensures
        first == second,
{
    let a = addresses(first);
    let b = addresses(second);
    assert forall|i: int| 0 <= i < a.len() implies b.contains(#[trigger] a[i]) by {
        assert(is_first_in(all, first[i]));
        let k = choose|k: int| is_first_of_address(all, k) && all[k] == first[i];
        assert(has_address(second, all[k].to_address));
        let m = choose|m: int|
            0 <= m < second.len() && (#[trigger] second[m]).to_address == all[k].to_address;
        assert(b[m] == a[i]);
    }
    assert forall|i: int| 0 <= i < b.len() implies a.contains(#[trigger] b[i]) by {
        assert(is_first_in(all, second[i]));
        let k = choose|k: int| is_first_of_address(all, k) && all[k] == second[i];
        assert(has_address(first, all[k].to_address));
        let m = choose|m: int|
            0 <= m < first.len() && (#[trigger] first[m]).to_address == all[k].to_address;
        assert(a[m] == b[i]);
    }
    assert forall|i: int, j: int| 0 <= i < j < a.len() implies text_lt(
        #[trigger] a[i],
        #[trigger] a[j],
    ) by {
        assert(a[i] == first[i].to_address && a[j] == first[j].to_address);
    }
    assert forall|i: int, j: int| 0 <= i < j < b.len() implies text_lt(
        #[trigger] b[i],
        #[trigger] b[j],
    ) by {
        assert(b[i] == second[i].to_address && b[j] == second[j].to_address);
    }
    lemma_ascending_lists_agree(a, b);
    assert(first.len() == a.len() && second.len() == b.len());
    assert forall|i: int| 0 <= i < first.len() implies first[i] == second[i] by {
        assert(a[i] == first[i].to_address && b[i] == second[i].to_address);
        assert(is_first_in(all, first[i]));
        assert(is_first_in(all, second[i]));
        lemma_first_is_unique(all, first[i], second[i]);
    }
    assert(first =~= second);
}

/// `all` ordered by address, with the first target of each address kept and
/// the later ones dropped.
pub open spec fn deduplicated(all: Seq<TargetView>) -> Seq<TargetView> {
    choose|unique: Seq<TargetView>| is_deduplicated(all, unique)
}

/// After deduplication every address of `all` stands in exactly one place.
pub proof fn lemma_one_target_for_each_address(all: Seq<TargetView>, unique: Seq<TargetView>, k: int)
    requires
        is_deduplicated(all, unique),
        0 <= k < all.len(),
    ensures
        exists|i: int|
            0 <= i < unique.len() && (#[trigger] unique[i]).to_address == all[k].to_address
                && forall|j: int|
                0 <= j < unique.len() && j != i ==> (#[trigger] unique[j]).to_address
                    != all[k].to_address,
{
    assert(has_address(unique, all[k].to_address));
    let i = choose|i: int|
        0 <= i < unique.len() && (#[trigger] unique[i]).to_address == all[k].to_address;
    assert forall|j: int| 0 <= j < unique.len() && j != i implies (#[trigger] unique[j]).to_address
        != all[k].to_address by {
        if j < i {
            assert(text_lt(unique[j].to_address, unique[i].to_address));
        } else {
            assert(text_lt(unique[i].to_address, unique[j].to_address));
        }
    }
}

/// Orders the recipients by address and keeps one for each address: the
/// one that comes first in `recipients`.
pub fn deduplicate_recipients(recipients: &Vec<NotificationTarget>) -> (unique: Vec<
    NotificationTarget,
>)
    ensures
        is_deduplicated(targets_view(recipients@), targets_view(unique@)),
        targets_view(unique@) == deduplicated(targets_view(recipients@)),
{
    let mut unique: Vec<NotificationTarget> = Vec::new();
    let mut n: usize = 0;
    assert(targets_view(recipients@).take(0) =~= Seq::empty());
    while n < recipients.len()
        invariant
            n <= recipients.len(),
            is_deduplicated(targets_view(recipients@).take(n as int), targets_view(unique@)),
        decreases recipients.len() - n,
    {
        let ghost all = targets_view(recipients@);
        let ghost before = targets_view(unique@);
        let recipient = &recipients[n];
        let mut p: usize = 0;
        while p < unique.len() && address_lt(&unique[p].to_address, &recipient.to_address)
            invariant
                p <= unique.len(),
                forall|q: int|
                    0 <= q < p ==> text_lt(
                        #[trigger] unique@[q].to_address@,
                        recipient.to_address@,
                    ),
            decreases unique.len() - p,
        {
            p += 1;
        }
        let found = p < unique.len() && unique[p].to_address == recipient.to_address;
        proof {
            assert(all.take(n as int + 1) =~= all.take(n as int).push(recipient@));
            assert forall|q: int| 0 <= q < p implies text_lt(
                #[trigger] before[q].to_address,
                recipient.to_address@,
            ) by {
                assert(before[q] == unique@[q]@);
            }
            if p < unique.len() {
                assert(before[p as int] == unique@[p as int]@);
            }
            if found {
                lemma_duplicate_is_dropped(all.take(n as int), before, recipient@, p as int);
            } else {
                lemma_new_address_is_inserted(all.take(n as int), before, recipient@, p as int);
            }
        }
        if !found {
            unique.insert(p, recipient.clone());
            assert(targets_view(unique@) =~= before.insert(p as int, recipient@));
        }
        n += 1;
    }
    proof {
        let all = targets_view(recipients@);
        assert(all.take(n as int) =~= all);
        lemma_deduplicated_is_unique(all, targets_view(unique@), deduplicated(all));
    }
    unique
}

/// Names a template of the library, or holds the text of a template that
/// is private to one notification.
#[derive(Debug, PartialEq)]
pub enum TemplateDefinition {
    TemplateName(String),
    Template(String),
}

/// The value of a [`TemplateDefinition`].
pub enum TemplateView {
    TemplateName(Seq<char>),
    Template(Seq<char>),
}

impl View for TemplateDefinition {
    type V = TemplateView;

    open spec fn view(&self) -> TemplateView {
        match self {
            TemplateDefinition::TemplateName(name) => TemplateView::TemplateName(name@),
            TemplateDefinition::Template(text) => TemplateView::Template(text@),
        }
    }
}

impl Clone for TemplateDefinition {
    fn clone(&self) -> (copy: TemplateDefinition)
        ensures
            copy@ == self@,
    {
        match self {
            TemplateDefinition::TemplateName(name) => TemplateDefinition::TemplateName(
                name.clone(),
            ),
            TemplateDefinition::Template(text) => TemplateDefinition::Template(text.clone()),
        }
    }
}

/// The value of an optional template.
pub open spec fn option_template(template: Option<TemplateDefinition>) -> Option<TemplateView> {
    match template {
        Some(t) => Some(t@),
        None => None,
    }
}

/// A copy of a list of targets.
pub fn copy_of_targets(targets: &Vec<NotificationTarget>) -> (copy: Vec<NotificationTarget>)
    ensures
        targets_view(copy@) == targets_view(targets@),
{
    let mut copy: Vec<NotificationTarget> = Vec::new();
    let mut i: usize = 0;
    while i < targets.len()
        invariant
            i <= targets@.len(),
            copy@.len() == i,
            forall|j: int| 0 <= j < i ==> (#[trigger] copy@[j])@ == targets@[j]@,
        decreases targets@.len() - i,
    {
        copy.push(targets[i].clone());
        i += 1;
    }
    assert(targets_view(copy@) =~= targets_view(targets@));
    copy
}

/// A notification to render: the templates, whom it goes to, and the data
/// that the templates read. Without a title template the library's
/// `default/title.md` is used.
#[derive(Debug, PartialEq)]
pub struct NotificationContext {
    pub title_template: Option<TemplateDefinition>,
    pub body_template: TemplateDefinition,
    pub recipients: Vec<NotificationTarget>,
    pub template_data: Json,
}

/// The value of a [`NotificationContext`].
pub struct NotificationView {
    pub title_template: Option<TemplateView>,
    pub body_template: TemplateView,
    pub recipients: Seq<TargetView>,
    pub template_data: JsonValue,
}

impl View for NotificationContext {
    type V = NotificationView;

    open spec fn view(&self) -> NotificationView {
        NotificationView {
            title_template: option_template(self.title_template),
            body_template: self.body_template@,
            recipients: targets_view(self.recipients@),
            template_data: self.template_data@,
        }
    }
}

/// A notification that waits to be rendered, with the configuration that
/// it comes from.
#[derive(Debug, PartialEq)]
pub struct NotificationRequest {
    pub config_id: Option<String>,
    pub notification: NotificationContext,
}

/// The value of a [`NotificationRequest`].
pub struct NotificationRequestView {
    pub config_id: Option<Seq<char>>,
    pub notification: NotificationView,
}

impl View for NotificationRequest {
    type V = NotificationRequestView;

    open spec fn view(&self) -> NotificationRequestView {
        NotificationRequestView {
            config_id: option_text(self.config_id),
            notification: self.notification@,
        }
    }
}

/// The values of a list of waiting notifications.
pub open spec fn notification_requests_view(requests: Seq<NotificationRequest>) -> Seq<
    NotificationRequestView,
> {
    requests.map_values(|request: NotificationRequest| request@)
}

/// Why a notification could not be created.
#[derive(Debug, PartialEq)]
pub enum NotificationServiceError {
    InternalError(String),
}

/// The name under which templates read a channel.
pub open spec fn channel_name(notification_type: NotificationType) -> Seq<char> {
    match notification_type {
        NotificationType::Email => "Email"@,
        NotificationType::Telegram => "Telegram"@,
        NotificationType::Unknown => "Unknown"@,
    }
}

/// What templates read under `recipient`.
pub open spec fn recipient_value(target: TargetView) -> JsonValue {
    JsonValue::Object(
        seq![
            ("name"@, JsonValue::Str(target.name)),
            ("to_address"@, JsonValue::Str(target.to_address)),
            ("notification_type"@, JsonValue::Str(channel_name(target.notification_type))),
        ],
    )
}

/// What the templates of `target` read: the members of `data`, then
/// `recipient`. Data that is not an object has no members.
pub open spec fn context_value(data: JsonValue, target: TargetView) -> JsonValue {
    match data {
        JsonValue::Object(members) => JsonValue::Object(
            members.push(("recipient"@, recipient_value(target))),
        ),
        _ => JsonValue::Object(seq![("recipient"@, recipient_value(target))]),
    }
}

/// The recipient as templates read it.
pub fn recipient_json(recipient: &NotificationTarget) -> (json: Json)
    ensures
        json@ == recipient_value(recipient@),
{
    let type_text = match recipient.notification_type {
        NotificationType::Email => "Email",
        NotificationType::Telegram => "Telegram",
        NotificationType::Unknown => "Unknown",
    };
    let mut fields: Vec<(String, Json)> = Vec::new();
    fields.push((String::from_str("name"), Json::Str(recipient.name.clone())));
    fields.push((String::from_str("to_address"), Json::Str(recipient.to_address.clone())));
    fields.push((String::from_str("notification_type"), Json::Str(String::from_str(type_text))));
    let json = Json::Object(fields);
    proof {
        reveal_with_fuel(crate::json::json_view, 2);
        assert(json@->Object_0 =~= recipient_value(recipient@)->Object_0);
    }
    json
}

/// The data of a notification with the recipient added: what the templates
/// of this recipient read, and what is kept on the event.
pub fn render_context(data: &Json, recipient: &NotificationTarget) -> (context: Json)
    ensures
        context@ == context_value(data@, recipient@),
{
    let mut fields = match data.duplicate() {
        Json::Object(fields) => fields,
        _ => Vec::new(),
    };
    let ghost before = Json::Object(fields)@->Object_0;
    proof {
        match data@ {
            JsonValue::Object(members) => {
                assert(before == members);
            },
            _ => {
                assert(before =~= Seq::empty());
            },
        }
    }
    fields.push((String::from_str("recipient"), recipient_json(recipient)));
    let context = Json::Object(fields);
    assert(context@->Object_0 =~= before.push(("recipient"@, recipient_value(recipient@))));
    context
}

/// `after` is `before` with the events `rows` added at the end; no other
/// table differs.
pub open spec fn events_added(
    before: StorageConnection,
    after: StorageConnection,
    rows: Seq<NotificationEventRow>,
) -> bool {
    &&& after.notification_events@ == before.notification_events@ + rows
    &&& after.recipients == before.recipients
    &&& after.recipient_lists == before.recipient_lists
    &&& after.recipient_list_members == before.recipient_list_members
    &&& after.notification_configs == before.notification_configs
    &&& after.notification_queries == before.notification_queries
    &&& after.plugin_store == before.plugin_store
}

/// What is to be rendered for one recipient: the templates of the
/// notification, with `context` as the data that they read.
#[derive(Debug, PartialEq)]
pub struct RenderRequest {
    pub recipient: NotificationTarget,
    pub context: Json,
}

/// The value of a [`RenderRequest`].
pub struct RenderRequestView {
    pub recipient: TargetView,
    pub context: JsonValue,
}

impl View for RenderRequest {
    type V = RenderRequestView;

    open spec fn view(&self) -> RenderRequestView {
        RenderRequestView { recipient: self.recipient@, context: self.context@ }
    }
}

/// The values of a list of requests.
pub open spec fn requests_view(requests: Seq<RenderRequest>) -> Seq<RenderRequestView> {
    requests.map_values(|request: RenderRequest| request@)
}

/// What rendering the title and the body for one recipient gave: the text,
/// or the error.
#[derive(Debug, PartialEq)]
pub struct Rendered {
    pub title: Result<String, String>,
    pub body: Result<String, String>,
}

/// The value of a [`Rendered`].
pub struct RenderedView {
    pub title: Result<Seq<char>, Seq<char>>,
    pub body: Result<Seq<char>, Seq<char>>,
}

impl View for Rendered {
    type V = RenderedView;

    open spec fn view(&self) -> RenderedView {
        RenderedView { title: text_result(self.title), body: text_result(self.body) }
    }
}

/// What stands for a rendering that was not handed in: title and body
/// failed, with this error.
pub open spec fn not_rendered() -> RenderedView {
    RenderedView {
        title: Err("The notification was not rendered"@),
        body: Err("The notification was not rendered"@),
    }
}

/// What was rendered for the request at place `i`.
pub open spec fn rendering(rendered: Seq<Rendered>, i: int) -> RenderedView {
    if 0 <= i < rendered.len() {
        rendered[i]@
    } else {
        not_rendered()
    }
}

/// `row` is the event of `request`, from what rendering its title and its
/// body gave. It is queued where both were rendered. Where one failed it is
/// failed and carries the error, that of the body where both failed; it
/// still holds the title or the body that was rendered. In either case it
/// holds the data that the templates read.
pub open spec fn is_event_of(
    row: NotificationEventRow,
    request: RenderRequestView,
    config_id: Option<Seq<char>>,
    rendered: RenderedView,
) -> bool {
    &&& row.to_address@ == request.recipient.to_address
    &&& row.notification_type == request.recipient.notification_type
    &&& option_text(row.notification_config_id) == config_id
    &&& option_text(row.context) == Some(json_text(request.context))
    &&& row.send_attempts == 0
    &&& row.retry_at is None
    &&& row.sent_at is None
    &&& row.created_at == row.updated_at
    &&& row.status == if rendered.title is Ok && rendered.body is Ok {
        NotificationEventStatus::Queued
    } else {
        NotificationEventStatus::Failed
    }
    &&& option_text(row.title) == match rendered.title {
        Ok(text) => Some(text),
        Err(_) => None,
    }
    &&& row.message@ == match rendered.body {
        Ok(text) => text,
        Err(_) => Seq::<char>::empty(),
    }
    &&& option_text(row.error_message) == match rendered.body {
        Err(error) => Some(error),
        Ok(_) => match rendered.title {
            Err(error) => Some(error),
            Ok(_) => None,
        },
    }
}

/// `row` records that a notification could not be set up: it has no
/// address, the channel `Unknown`, no configuration, and the error.
pub open spec fn is_setup_failure(row: NotificationEventRow, error: Seq<char>) -> bool {
    &&& row.to_address@ == Seq::<char>::empty()
    &&& row.notification_type == NotificationType::Unknown
    &&& row.status == NotificationEventStatus::Failed
    &&& option_text(row.error_message) == Some(error)
    &&& row.notification_config_id is None
    &&& row.title is None
    &&& row.message@ == Seq::<char>::empty()
    &&& row.context is None
    &&& row.send_attempts == 0
    &&& row.retry_at is None
    &&& row.sent_at is None
    &&& row.created_at == row.updated_at
}

/// The event of one recipient, from what rendering its title and its body
/// gave.
///
/// The event is queued where both were rendered. Where one failed the event
/// is failed and carries the error, that of the body where both failed; it
/// still holds the title or the body that was rendered.
pub fn build_event_row(
    id: String,
    created_at: i64,
    config_id: &Option<String>,
    recipient: &NotificationTarget,
    context: Option<String>,
    title: Result<String, String>,
    body: Result<String, String>,
) -> (row: NotificationEventRow)
    ensures
        row.id@ == id@,
        row.created_at == created_at,
        row.updated_at == created_at,
        row.to_address@ == recipient.to_address@,
        row.notification_type == recipient.notification_type,
        option_text(row.notification_config_id) == option_text(*config_id),
        option_text(row.context) == option_text(context),
        row.send_attempts == 0,
        row.retry_at is None,
        row.sent_at is None,
        row.status == if title is Ok && body is Ok {
            NotificationEventStatus::Queued
        } else {
            NotificationEventStatus::Failed
        },
        option_text(row.title) == match title {
            Ok(text) => Some(text@),
            Err(_) => None,
        },
        row.message@ == match body {
            Ok(text) => text@,
            Err(_) => Seq::<char>::empty(),
        },
        option_text(row.error_message) == match body {
            Err(error) => Some(error@),
            Ok(_) => match title {
                Err(error) => Some(error@),
                Ok(_) => None,
            },
        },
{
    let mut status = NotificationEventStatus::Queued;
    let mut error_message: Option<String> = None;
    let title_text = match title {
        Ok(text) => Some(text),
        Err(error) => {
            status = NotificationEventStatus::Failed;
            error_message = Some(error);
            None
        },
    };
    let message = match body {
        Ok(text) => text,
        Err(error) => {
            status = NotificationEventStatus::Failed;
            error_message = Some(error);
            String::new()
        },
    };
    NotificationEventRow {
        id,
        notification_config_id: copy_of(config_id),
        to_address: recipient.to_address.clone(),
        notification_type: recipient.notification_type,
        title: title_text,
        message,
        context,
        status,
        error_message,
        send_attempts: 0,
        retry_at: None,
        sent_at: None,
        created_at,
        updated_at: created_at,
    }
}

/// Records that a notification could not be set up: adds one failed event
/// without address, and returns the error to hand on.
pub fn create_failed_event_row(error: String, connection: &mut StorageConnection) -> (failure:
    NotificationServiceError)
    ensures
        final(connection).notification_events@.len() == old(connection).notification_events@.len()
            + 1,
        events_added(
            *old(connection),
            *final(connection),
            seq![final(connection).notification_events@.last()],
        ),
        is_setup_failure(final(connection).notification_events@.last(), error@),
        final(connection).notification_events@.skip(
            old(connection).notification_events@.len() as int,
        ) == seq![final(connection).notification_events@.last()],
        failure matches NotificationServiceError::InternalError(message) && message@
            == "Failed to create notification: "@ + error@,
{
    let message = String::from_str("Failed to create notification: ").concat(error.as_str());
    let created_at = now();
    let row = NotificationEventRow {
        id: uuid(),
        notification_config_id: None,
        to_address: String::new(),
        notification_type: NotificationType::Unknown,
        title: None,
        message: String::new(),
        context: None,
        status: NotificationEventStatus::Failed,
        error_message: Some(error),
        send_attempts: 0,
        retry_at: None,
        sent_at: None,
        created_at,
        updated_at: created_at,
    };
    let ghost before = connection.notification_events@;
    connection.notification_events.push(row);
    assert(connection.notification_events@ =~= before + seq![row]);
    assert(connection.notification_events@.skip(before.len() as int) =~= seq![row]);
    NotificationServiceError::InternalError(message)
}

/// Where each row has the address of the target at its place, and the
/// targets are `all` deduplicated, every address of `all` has exactly one
/// row.
pub proof fn lemma_one_event_for_each_address(
    all: Seq<TargetView>,
    unique: Seq<TargetView>,
    rows: Seq<NotificationEventRow>,
    k: int,
)
    requires
        is_deduplicated(all, unique),
        rows.len() == unique.len(),
        forall|i: int|
            0 <= i < rows.len() ==> (#[trigger] rows[i]).to_address@ == unique[i].to_address,
        0 <= k < all.len(),
    ensures
        exists|i: int|
            0 <= i < rows.len() && (#[trigger] rows[i]).to_address@ == all[k].to_address
                && forall|j: int|
                0 <= j < rows.len() && j != i ==> (#[trigger] rows[j]).to_address@
                    != all[k].to_address,
{
    lemma_one_target_for_each_address(all, unique, k);
    let i = choose|i: int|
        0 <= i < unique.len() && (#[trigger] unique[i]).to_address == all[k].to_address
            && forall|j: int|
            0 <= j < unique.len() && j != i ==> (#[trigger] unique[j]).to_address
                != all[k].to_address;
    assert(rows[i].to_address@ == all[k].to_address);
    assert forall|j: int| 0 <= j < rows.len() && j != i implies (#[trigger] rows[j]).to_address@
        != all[k].to_address by {
        assert(unique[j].to_address != all[k].to_address);
    }
}

/// The name under which the title is rendered: the name of the template,
/// `title_template` for a template given as text, and the default title of
/// the library where the notification names none.
pub open spec fn title_name(title: Option<TemplateView>) -> Seq<char> {
    match title {
        Some(TemplateView::TemplateName(name)) => name,
        Some(TemplateView::Template(_)) => "title_template"@,
        None => "default/title.md"@,
    }
}

/// The name under which the body is rendered: the name of the template, or
/// `body_template` for a template given as text.
pub open spec fn body_name(body: TemplateView) -> Seq<char> {
    match body {
        TemplateView::TemplateName(name) => name,
        TemplateView::Template(_) => "body_template"@,
    }
}

/// One step of setting the engine of a notification up.
#[derive(Debug, PartialEq)]
pub enum SetupStep {
    /// Start from an empty engine and take over the templates of the
    /// library.
    Library,
    /// Parse `content` and file it under `name`.
    Template { name: String, content: String },
}

/// The value of a [`SetupStep`].
pub enum SetupStepView {
    Library,
    Template { name: Seq<char>, content: Seq<char> },
}

impl View for SetupStep {
    type V = SetupStepView;

    open spec fn view(&self) -> SetupStepView {
        match self {
            SetupStep::Library => SetupStepView::Library,
            SetupStep::Template { name, content } => SetupStepView::Template {
                name: name@,
                content: content@,
            },
        }
    }
}

/// The values of a list of steps.
pub open spec fn steps_view(steps: Seq<SetupStep>) -> Seq<SetupStepView> {
    steps.map_values(|step: SetupStep| step@)
}

/// The steps that set the engine of a notification up, in their order:
/// the library first, then the title and then the body, each where it is
/// given as text. These two are filed under the names `title_template` and
/// `body_template`, and are private to the notification.
pub open spec fn steps_of(title: Option<TemplateView>, body: TemplateView) -> Seq<SetupStepView> {
    seq![SetupStepView::Library] + match title {
        Some(TemplateView::Template(text)) => seq![
            SetupStepView::Template { name: "title_template"@, content: text },
        ],
        _ => Seq::empty(),
    } + match body {
        TemplateView::Template(text) => seq![
            SetupStepView::Template { name: "body_template"@, content: text },
        ],
        _ => Seq::empty(),
    }
}

/// The steps that set the engine of a notification up. The caller takes
/// them in order and stops at the first that fails.
pub fn setup_steps(notification: &NotificationContext) -> (steps: Vec<SetupStep>)
    ensures
        steps_view(steps@) == steps_of(
            option_template(notification.title_template),
            notification.body_template@,
        ),
{
    let mut steps: Vec<SetupStep> = Vec::new();
    steps.push(SetupStep::Library);
    match &notification.title_template {
        Some(TemplateDefinition::Template(text)) => {
            steps.push(
                SetupStep::Template {
                    name: String::from_str("title_template"),
                    content: text.clone(),
                },
            );
        },
        _ => {},
    }
    match &notification.body_template {
        TemplateDefinition::Template(text) => {
            steps.push(
                SetupStep::Template {
                    name: String::from_str("body_template"),
                    content: text.clone(),
                },
            );
        },
        _ => {},
    }
    assert(steps_view(steps@) =~= steps_of(
        option_template(notification.title_template),
        notification.body_template@,
    ));
    steps
}

/// What is needed to render a notification: the names under which title
/// and body are rendered, and one request for each distinct address.
#[derive(Debug, PartialEq)]
pub struct RenderPlan {
    pub title_template_name: String,
    pub body_template_name: String,
    pub requests: Vec<RenderRequest>,
}

/// The recipients of a list of requests.
pub open spec fn recipients_of(requests: Seq<RenderRequestView>) -> Seq<TargetView> {
    requests.map_values(|request: RenderRequestView| request.recipient)
}

/// What setting the engine up came to.
pub open spec fn setup_view(setup: Result<(), String>) -> Result<(), Seq<char>> {
    match setup {
        Ok(()) => Ok(()),
        Err(error) => Err(error@),
    }
}

/// `plan` is the plan of `notification`, where setting its engine up came
/// to `setup`.
///
/// Where the engine could not be set up, the plan is that error. Where it
/// could, but the data is no JSON object, the plan is an error too. Else the
/// plan holds the names of title and body and one request for each distinct
/// address: the recipients deduplicated, each with the data and the
/// recipient as the context.
pub open spec fn is_plan_of(
    notification: NotificationView,
    setup: Result<(), Seq<char>>,
    plan: Result<RenderPlan, String>,
) -> bool {
    match setup {
        Err(error) => plan is Err && plan->Err_0@ == error,
        Ok(()) => match plan {
            Err(_) => !(notification.template_data is Object),
            Ok(p) => {
                let requests = requests_view(p.requests@);
                &&& notification.template_data is Object
                &&& p.title_template_name@ == title_name(notification.title_template)
                &&& p.body_template_name@ == body_name(notification.body_template)
                &&& is_deduplicated(notification.recipients, recipients_of(requests))
                &&& forall|i: int|
                    0 <= i < requests.len() ==> (#[trigger] requests[i]).context == context_value(
                        notification.template_data,
                        requests[i].recipient,
                    )
            },
        },
    }
}

/// Plans the rendering of a notification, after the engine was set up as
/// [`setup_steps`] says; `setup` is what that came to.
///
/// Where the engine could not be set up, the result is that error. Then the
/// data is checked: data that is no JSON object is an error, as tera words
/// it. Else the recipients are deduplicated by address, and each of them
/// gets a request.
pub fn prepare_notification_events(notification: &NotificationContext, setup: Result<(), String>) -> (plan:
    Result<RenderPlan, String>)
    ensures
        is_plan_of(notification@, setup_view(setup), plan),
{
    match setup {
        Ok(()) => {},
        Err(error) => {
            return Err(error);
        },
    }
    let title_template_name = match &notification.title_template {
        Some(TemplateDefinition::TemplateName(name)) => name.clone(),
        Some(TemplateDefinition::Template(_)) => String::from_str("title_template"),
        None => String::from_str("default/title.md"),
    };
    let body_template_name = match &notification.body_template {
        TemplateDefinition::TemplateName(name) => name.clone(),
        TemplateDefinition::Template(_) => String::from_str("body_template"),
    };
    match context_from_json(&notification.template_data) {
        Ok(_) => {},
        Err(error) => {
            return Err(error_debug(&error));
        },
    }

    let recipients = deduplicate_recipients(&notification.recipients);
    let ghost unique = targets_view(recipients@);
    let mut requests: Vec<RenderRequest> = Vec::new();
    let mut n: usize = 0;
    while n < recipients.len()
        invariant
            n <= recipients@.len(),
            unique == targets_view(recipients@),
            requests@.len() == n,
            forall|i: int|
                0 <= i < n ==> (#[trigger] requests@[i])@ == (RenderRequestView {
                    recipient: unique[i],
                    context: context_value(notification.template_data@, unique[i]),
                }),
        decreases recipients@.len() - n,
    {
        let recipient = &recipients[n];
        assert(unique[n as int] == recipient@);
        requests.push(
            RenderRequest {
                recipient: recipient.clone(),
                context: render_context(&notification.template_data, recipient),
            },
        );
        n += 1;
    }
    proof {
        let views = requests_view(requests@);
        assert(recipients_of(views) =~= unique);
        assert forall|i: int| 0 <= i < views.len() implies (#[trigger] views[i]).context
            == context_value(notification.template_data@, views[i].recipient) by {
            assert(views[i] == requests@[i]@);
        }
    }
    Ok(RenderPlan { title_template_name, body_template_name, requests })
}

/// `rows` are the events of a notification with the plan `plan`, from what
/// rendering its requests gave.
///
/// Where the notification could not be planned, one failed event without
/// address and without configuration records the error. Otherwise every
/// request has its event, in the order of the requests.
pub open spec fn are_events_of_plan(
    rows: Seq<NotificationEventRow>,
    plan: Result<RenderPlan, String>,
    config_id: Option<Seq<char>>,
    rendered: Seq<Rendered>,
) -> bool {
    match plan {
        Ok(p) => {
            &&& rows.len() == p.requests@.len()
            &&& forall|i: int|
                0 <= i < rows.len() ==> is_event_of(
                    #[trigger] rows[i],
                    p.requests@[i]@,
                    config_id,
                    rendering(rendered, i),
                )
        },
        Err(error) => {
            &&& rows.len() == 1
            &&& is_setup_failure(rows[0], error@)
        },
    }
}

/// Some row of `rows` goes to `address`.
pub open spec fn has_event(rows: Seq<NotificationEventRow>, address: Seq<char>) -> bool {
    exists|i: int| 0 <= i < rows.len() && (#[trigger] rows[i]).to_address@ == address
}

/// A notification with a recipient gives an event: whatever setting up and
/// rendering came to, its events are at least one. Where it was planned,
/// they are one for each distinct address, and every address of its
/// recipients has exactly one.
pub proof fn lemma_notification_gives_an_event(
    notification: NotificationView,
    setup: Result<(), Seq<char>>,
    plan: Result<RenderPlan, String>,
    config_id: Option<Seq<char>>,
    rendered: Seq<Rendered>,
    rows: Seq<NotificationEventRow>,
)
    requires
        is_plan_of(notification, setup, plan),
        are_events_of_plan(rows, plan, config_id, rendered),
        notification.recipients.len() >= 1,
    ensures
        rows.len() >= 1,
        plan is Ok ==> forall|k: int|
            0 <= k < notification.recipients.len() ==> #[trigger] has_event(
                rows,
                notification.recipients[k].to_address,
            ),
{
    match plan {
        Ok(p) => {
            let requests = requests_view(p.requests@);
            let unique = recipients_of(requests);
            assert forall|i: int| 0 <= i < rows.len() implies (#[trigger] rows[i]).to_address@
                == unique[i].to_address by {
                assert(requests[i] == p.requests@[i]@);
            }
            assert forall|k: int| 0 <= k < notification.recipients.len() implies #[trigger] has_event(
                rows,
                notification.recipients[k].to_address,
            ) by {
                lemma_one_event_for_each_address(notification.recipients, unique, rows, k);
            }
            assert(has_event(rows, notification.recipients[0].to_address));
        },
        Err(_) => {},
    }
}

/// Adds the events of a notification to the storage, from the plan and
/// from what rendering its requests gave.
///
/// Where the notification could not be set up, no recipient gets an event:
/// one failed event without address and without configuration records the
/// error, and the error is returned.
///
/// Otherwise every request gets one event, in the order of the requests:
/// queued with the rendered title and body, or failed with the error where
/// one of them was not rendered; a failure does not stop the others.
/// `rendered` holds the renderings in the order of the requests; a request
/// without one counts as not rendered.
pub fn create_notification_events(
    connection: &mut StorageConnection,
    config_id: Option<String>,
    plan: &Result<RenderPlan, String>,
    rendered: &Vec<Rendered>,
) -> (result: Result<(), NotificationServiceError>)
    ensures
        events_added(
            *old(connection),
            *final(connection),
            final(connection).notification_events@.skip(
                old(connection).notification_events@.len() as int,
            ),
        ),
        are_events_of_plan(
            final(connection).notification_events@.skip(
                old(connection).notification_events@.len() as int,
            ),
            *plan,
            option_text(config_id),
            rendered@,
        ),
        match *plan {
            Ok(_) => result is Ok,
            Err(error) => result matches Err(NotificationServiceError::InternalError(message))
                && message@ == "Failed to create notification: "@ + error@,
        },
{
    let p = match plan {
        Ok(p) => p,
        Err(error) => {
            return Err(create_failed_event_row(error.clone(), connection));
        },
    };
    let ghost before = connection.notification_events@;
    let mut n: usize = 0;
    assert(connection.notification_events@.skip(before.len() as int) =~= Seq::empty());
    while n < p.requests.len()
        invariant
            n <= p.requests@.len(),
            before == old(connection).notification_events@,
            connection.notification_events@.len() == before.len() + n,
            events_added(
                *old(connection),
                *connection,
                connection.notification_events@.skip(before.len() as int),
            ),
            forall|i: int|
                0 <= i < n ==> is_event_of(
                    #[trigger] connection.notification_events@[before.len() + i],
                    p.requests@[i]@,
                    option_text(config_id),
                    rendering(rendered@, i),
                ),
        decreases p.requests@.len() - n,
    {
        let request = &p.requests[n];
        let (title, body) = if n < rendered.len() {
            (copy_of_result(&rendered[n].title), copy_of_result(&rendered[n].body))
        } else {
            (
                Err(String::from_str("The notification was not rendered")),
                Err(String::from_str("The notification was not rendered")),
            )
        };
        let row = build_event_row(
            uuid(),
            now(),
            &config_id,
            &request.recipient,
            Some(request.context.to_text()),
            title,
            body,
        );
        let ghost events = connection.notification_events@;
        connection.notification_events.push(row);
        proof {
            assert(is_event_of(
                row,
                p.requests@[n as int]@,
                option_text(config_id),
                rendering(rendered@, n as int),
            ));
            assert(connection.notification_events@.skip(before.len() as int) =~= events.skip(
                before.len() as int,
            ).push(row));
            assert(connection.notification_events@ =~= before + connection.notification_events@.skip(
                before.len() as int,
            ));
            assert forall|i: int| 0 <= i < n + 1 implies is_event_of(
                #[trigger] connection.notification_events@[before.len() + i],
                p.requests@[i]@,
                option_text(config_id),
                rendering(rendered@, i),
            ) by {
                if i < n {
                    assert(connection.notification_events@[before.len() + i] == events[before.len()
                        + i]);
                }
            }
        }
        n += 1;
    }
    proof {
        let rows = connection.notification_events@.skip(before.len() as int);
        assert forall|i: int| 0 <= i < rows.len() implies is_event_of(
            #[trigger] rows[i],
            p.requests@[i]@,
            option_text(config_id),
            rendering(rendered@, i),
        ) by {
            assert(rows[i] == connection.notification_events@[before.len() + i]);
        }
    }
    Ok(())
}

} // verus!
