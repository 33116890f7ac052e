//! The decisions of an owner's batch snooze of follow-ups: the order in
//! which the targets are locked, when the locked rows permit the snooze, and
//! the controls and receipt text that the batch records.
use vstd::prelude::*;

use crate::identity::str_equals;
use crate::json_text::{decimal, json_int, push_decimal, push_json_int, push_text, string_from_chars};
use crate::store_codes::StoredValueError;
use crate::text_order::{text_less, text_lt};

verus! {

/// A follow-up that an approved command targets, at the version it saw.
#[derive(Debug, PartialEq, Eq)]
pub struct FollowUpTarget {
    pub follow_up_id: String,
    pub expected_source_version: u64,
}

impl Clone for FollowUpTarget {
    fn clone(&self) -> (r: Self)
        ensures
            r == *self,
    {
        FollowUpTarget {
            follow_up_id: self.follow_up_id.clone(),
            expected_source_version: self.expected_source_version,
        }
    }
}

/// A follow-up item as locked for the control.
#[derive(Debug, PartialEq, Eq)]
pub struct FollowUpItemRow {
    pub status: String,
    pub due_at_unix_secs: i64,
    pub source_version: u64,
}

/// One applied follow-up control, with its audit values.
#[derive(Debug, PartialEq, Eq)]
pub struct AppliedControl {
    pub follow_up_id: String,
    pub control_kind: &'static str,
    pub previous_status: &'static str,
    pub current_status: &'static str,
    pub previous_source_version: u64,
    pub current_source_version: u64,
    pub previous_due_at_unix_secs: Option<i64>,
    pub current_due_at_unix_secs: Option<i64>,
    pub reason: String,
    pub result_ref: String,
}

/// The controls of one command and the receipt text of the whole batch.
#[derive(Debug, PartialEq, Eq)]
pub struct AppliedControlBatch {
    pub controls: Vec<AppliedControl>,
    pub result_ref: String,
}

// ---------------------------------------------------------------------------
// Lock order.

/// Where a target goes in a list ordered by identifier: after every target
/// whose identifier is not greater, searching from `k`.
pub open spec fn insert_pos(s: Seq<FollowUpTarget>, x: FollowUpTarget, k: int) -> int
    decreases s.len() - k,
{
    if k < 0 || k >= s.len() {
        s.len() as int
    } else if text_lt(x.follow_up_id@, s[k].follow_up_id@) {
        k
    } else {
        insert_pos(s, x, k + 1)
    }
}

pub proof fn lemma_insert_pos_bounds(s: Seq<FollowUpTarget>, x: FollowUpTarget, k: int)
    requires
        0 <= k <= s.len(),
    ensures
        k <= insert_pos(s, x, k) <= s.len(),
    decreases s.len() - k,
{
    if k < s.len() && !text_lt(x.follow_up_id@, s[k].follow_up_id@) {
        lemma_insert_pos_bounds(s, x, k + 1);
    }
}

/// The targets stably sorted by identifier, the deterministic order in
/// which their rows are locked: equal identifiers keep their order.
pub open spec fn sorted_by_id(s: Seq<FollowUpTarget>) -> Seq<FollowUpTarget>
    decreases s.len(),
{
    if s.len() == 0 {
        Seq::empty()
    } else {
        let r = sorted_by_id(s.drop_last());
        r.insert(insert_pos(r, s.last(), 0), s.last())
    }
}

pub proof fn lemma_sorted_by_id_len(s: Seq<FollowUpTarget>)
    ensures
        sorted_by_id(s).len() == s.len(),
    decreases s.len(),
{
    if s.len() > 0 {
        let r = sorted_by_id(s.drop_last());
        lemma_sorted_by_id_len(s.drop_last());
        lemma_insert_pos_bounds(r, s.last(), 0);
    }
}

/// The targets in lock order.
pub fn lock_order(targets: &Vec<FollowUpTarget>) -> (r: Vec<FollowUpTarget>)
    ensures
        r@ == sorted_by_id(targets@),
{
    let mut out: Vec<FollowUpTarget> = Vec::new();
    let mut i: usize = 0;
    proof {
        assert(targets@.take(0) =~= Seq::<FollowUpTarget>::empty());
    }
    while i < targets.len()
        invariant
            i <= targets@.len(),
            out@ == sorted_by_id(targets@.take(i as int)),
        decreases targets@.len() - i,
    {
        let x = targets[i].clone();
        proof {
            lemma_sorted_by_id_len(targets@.take(i as int));
        }
        let mut p: usize = 0;
        while p < out.len() && !text_less(x.follow_up_id.as_str(), out[p].follow_up_id.as_str())
            invariant
                p <= out@.len(),
                insert_pos(out@, x, 0) == insert_pos(out@, x, p as int),
            decreases out@.len() - p,
        {
            p = p + 1;
        }
        proof {
            assert(insert_pos(out@, x, p as int) == p as int);
            assert(targets@.take(i + 1).drop_last() =~= targets@.take(i as int));
            assert(targets@.take(i + 1).last() == x);
        }
        out.insert(p, x);
        i = i + 1;
    }
    proof {
        assert(targets@.take(i as int) =~= targets@);
    }
    out
}

// ---------------------------------------------------------------------------
// Batch snooze.

/// An outbox delivery status that may already be on its way to the owner:
/// a notification in that state cannot safely be changed under it.
pub open spec fn outbox_status_blocks(status: Seq<char>) -> bool {
    status == "claimed"@ || status == "unknown_commit"@
}

/// No outbox row of one target is claimed or of unknown commit.
pub open spec fn outbox_clear(statuses: Seq<String>) -> bool {
    forall|j: int| 0 <= j < statuses.len() ==> !outbox_status_blocks(#[trigger] statuses[j]@)
}

/// The locked rows permit the snooze: one row per target, each scheduled at
/// the version the command saw; the new time lies in the future and within
/// 365 days of the database clock, and after every target's current due
/// time; and no outbox row of any target is claimed or of unknown commit.
pub open spec fn snooze_permitted(
    ordered: Seq<FollowUpTarget>,
    rows: Seq<Option<FollowUpItemRow>>,
    outbox: Seq<Vec<String>>,
    snooze_until_unix_secs: i64,
    is_future: bool,
    within_365_days: bool,
) -> bool {
    &&& rows.len() == ordered.len()
    &&& outbox.len() == ordered.len()
    &&& forall|i: int| 0 <= i < outbox.len() ==> outbox_clear(#[trigger] outbox[i]@)
    &&& forall|i: int|
        0 <= i < rows.len() ==> (#[trigger] rows[i] matches Some(row) && row.status@ == "scheduled"@
            && row.source_version == ordered[i].expected_source_version)
    &&& is_future
    &&& within_365_days
    &&& forall|i: int|
        0 <= i < rows.len() ==> (#[trigger] rows[i] matches Some(row) && snooze_until_unix_secs
            > row.due_at_unix_secs)
}

/// The receipt text of one snoozed follow-up.
pub open spec fn snooze_ref(id: Seq<char>, until: i64, version: u64) -> Seq<char> {
    "跟进事项 "@ + id + " 已推迟到 "@ + json_int(until as int) + "（版本 "@ + decimal(version as nat)
        + " -> "@ + decimal((version + 1) as nat) + "）"@
}

/// The identifiers separated by a comma and a space.
pub open spec fn comma_joined(ids: Seq<Seq<char>>) -> Seq<char>
    decreases ids.len(),
{
    if ids.len() == 0 {
        Seq::empty()
    } else if ids.len() == 1 {
        ids[0]
    } else {
        comma_joined(ids.drop_last()) + ", "@ + ids.last()
    }
}

pub open spec fn target_ids(ordered: Seq<FollowUpTarget>) -> Seq<Seq<char>> {
    ordered.map_values(|t: FollowUpTarget| t.follow_up_id@)
}

/// The receipt text of the whole batch.
pub open spec fn batch_snooze_ref(ordered: Seq<FollowUpTarget>, until: i64) -> Seq<char> {
    "已批量推迟 "@ + decimal(ordered.len()) + " 条跟进事项到 "@ + json_int(until as int) + "："@
        + comma_joined(target_ids(ordered))
}

/// The control recorded for the `i`-th locked target.
pub open spec fn snooze_control_ok(
    c: AppliedControl,
    t: FollowUpTarget,
    row: FollowUpItemRow,
    until: i64,
    reason: Seq<char>,
) -> bool {
    &&& c.follow_up_id@ == t.follow_up_id@
    &&& c.control_kind@ == "snooze"@
    &&& c.previous_status@ == "scheduled"@
    &&& c.current_status@ == "scheduled"@
    &&& c.previous_source_version == row.source_version
    &&& c.current_source_version == row.source_version + 1
    &&& c.previous_due_at_unix_secs == Some(row.due_at_unix_secs)
    &&& c.current_due_at_unix_secs == Some(until)
    &&& c.reason@ == reason
    &&& c.result_ref@ == snooze_ref(t.follow_up_id@, until, row.source_version)
}

fn invalid(message: &str) -> (r: StoredValueError)
    ensures
        r matches StoredValueError::InvalidData(m) && m@ == message@,
{
    StoredValueError::InvalidData(message.to_owned())
}

fn snooze_ref_text(id: &str, until: i64, version: u64) -> (r: String)
    requires
        version < u64::MAX,
    ensures
        r@ == snooze_ref(id@, until, version),
{
    let mut out: Vec<char> = Vec::new();
    push_text(&mut out, "跟进事项 ");
    push_text(&mut out, id);
    push_text(&mut out, " 已推迟到 ");
    push_json_int(&mut out, until);
    push_text(&mut out, "（版本 ");
    push_decimal(&mut out, version);
    push_text(&mut out, " -> ");
    push_decimal(&mut out, version + 1);
    push_text(&mut out, "）");
    assert(out@ =~= snooze_ref(id@, until, version));
    string_from_chars(&out)
}

fn batch_ref_text(ordered: &Vec<FollowUpTarget>, until: i64) -> (r: String)
    ensures
        r@ == batch_snooze_ref(ordered@, until),
{
    let ghost ids = target_ids(ordered@);
    let mut out: Vec<char> = Vec::new();
    push_text(&mut out, "已批量推迟 ");
    push_decimal(&mut out, ordered.len() as u64);
    push_text(&mut out, " 条跟进事项到 ");
    push_json_int(&mut out, until);
    push_text(&mut out, "：");
    let ghost head = out@;
    let mut i: usize = 0;
    while i < ordered.len()
        invariant
            i <= ordered@.len(),
            ids == target_ids(ordered@),
            ids.len() == ordered@.len(),
            out@ == head + comma_joined(ids.take(i as int)),
        decreases ordered@.len() - i,
    {
        if i > 0 {
            push_text(&mut out, ", ");
        }
        push_text(&mut out, ordered[i].follow_up_id.as_str());
        proof {
            assert(ids[i as int] == ordered@[i as int].follow_up_id@);
            assert(ids.take(i + 1).drop_last() =~= ids.take(i as int));
            if i == 0 {
                assert(ids.take(1) =~= seq![ids[0]]);
            }
        }
        assert(out@ =~= head + comma_joined(ids.take(i + 1)));
        i = i + 1;
    }
    assert(ids.take(i as int) =~= ids);
    assert(out@ =~= batch_snooze_ref(ordered@, until));
    string_from_chars(&out)
}

/// Whether any of one target's outbox delivery statuses blocks a control.
fn any_outbox_blocks(statuses: &Vec<String>) -> (r: bool)
    ensures
        r == !outbox_clear(statuses@),
{
    let mut j: usize = 0;
    while j < statuses.len()
        invariant
            j <= statuses@.len(),
            forall|m: int| 0 <= m < j ==> !outbox_status_blocks(#[trigger] statuses@[m]@),
        decreases statuses@.len() - j,
    {
        let s = statuses[j].as_str();
        if str_equals(s, "claimed") || str_equals(s, "unknown_commit") {
            proof {
                reveal_strlit("claimed");
                reveal_strlit("unknown_commit");
                assert(outbox_status_blocks(statuses@[j as int]@));
            }
            return true;
        }
        j = j + 1;
    }
    false
}

/// The decision of a batch snooze on the rows locked in lock order (`rows[i]`
/// is the row of the `i`-th target of `lock_order(targets)`, absent when the
/// account has no such follow-up), the delivery statuses of each target's
/// outbox rows in the same order (`outbox[i]`), and the database clock's
/// verdict on the new time. All or nothing: every target is snoozed to the
/// common new time with its version raised by one, or the command is
/// refused.
pub fn batch_snooze_step(
    targets: &Vec<FollowUpTarget>,
    rows: &Vec<Option<FollowUpItemRow>>,
    outbox: &Vec<Vec<String>>,
    snooze_until_unix_secs: i64,
    is_future: bool,
    within_365_days: bool,
    reason: &str,
) -> (r: Result<AppliedControlBatch, StoredValueError>)
    requires
        forall|i: int|
            0 <= i < rows@.len() ==> (#[trigger] rows@[i] matches Some(row) ==> row.source_version
                < u64::MAX),
    ensures
        ({
            let ordered = sorted_by_id(targets@);
            &&& r is Ok <==> snooze_permitted(
                ordered,
                rows@,
                outbox@,
                snooze_until_unix_secs,
                is_future,
                within_365_days,
            )
            &&& r matches Ok(batch) ==> {
                &&& batch.controls@.len() == ordered.len()
                &&& forall|i: int|
                    0 <= i < ordered.len() ==> snooze_control_ok(
                        #[trigger] batch.controls@[i],
                        ordered[i],
                        rows@[i]->0,
                        snooze_until_unix_secs,
                        reason@,
                    )
                &&& batch.result_ref@ == batch_snooze_ref(ordered, snooze_until_unix_secs)
            }
            &&& r matches Err(e) ==> e is InvalidData
        }),
{
    let ordered = lock_order(targets);
    proof {
        lemma_sorted_by_id_len(targets@);
    }
    if rows.len() != ordered.len() {
        return Err(invalid("follow_up not found in account"));
    }
    let mut i: usize = 0;
    while i < rows.len()
        invariant
            i <= rows@.len(),
            rows@.len() == ordered@.len(),
            ordered@ == sorted_by_id(targets@),
            forall|k: int|
                0 <= k < i ==> (#[trigger] rows@[k] matches Some(row) && row.status@ == "scheduled"@
                    && row.source_version == ordered@[k].expected_source_version),
        decreases rows@.len() - i,
    {
        match &rows[i] {
            Some(row) => {
                if !str_equals(row.status.as_str(), "scheduled")
                    || row.source_version != ordered[i].expected_source_version {
                    proof {
                        let bad = rows@[i as int];
                        assert(!(bad matches Some(x) && x.status@ == "scheduled"@ && x.source_version
                            == ordered@[i as int].expected_source_version));
                        assert(!snooze_permitted(
                            sorted_by_id(targets@),
                            rows@,
                            outbox@,
                            snooze_until_unix_secs,
                            is_future,
                            within_365_days,
                        ));
                    }
                    return Err(invalid("follow_up status or source_version changed since approval"));
                }
            },
            None => {
                return Err(invalid("follow_up not found in account"));
            },
        }
        i = i + 1;
    }
    if !is_future {
        return Err(invalid("follow_up snooze_until must be later than the database current time"));
    }
    if !within_365_days {
        return Err(
            invalid("follow_up snooze_until must be within 365 days of the database current time"),
        );
    }
    let mut j: usize = 0;
    while j < rows.len()
        invariant
            j <= rows@.len(),
            forall|k: int|
                0 <= k < rows@.len() ==> (#[trigger] rows@[k] is Some),
            forall|k: int|
                0 <= k < j ==> (#[trigger] rows@[k] matches Some(row) && snooze_until_unix_secs
                    > row.due_at_unix_secs),
        decreases rows@.len() - j,
    {
        match &rows[j] {
            Some(row) => {
                if snooze_until_unix_secs <= row.due_at_unix_secs {
                    return Err(
                        invalid(
                            "follow_up snooze_until must be later than every target's current due time",
                        ),
                    );
                }
            },
            None => {},
        }
        j = j + 1;
    }
    if outbox.len() != ordered.len() {
        return Err(invalid("follow-up outbox rows do not match the locked targets"));
    }
    let mut t: usize = 0;
    while t < outbox.len()
        invariant
            t <= outbox@.len(),
            forall|m: int| 0 <= m < t ==> outbox_clear(#[trigger] outbox@[m]@),
        decreases outbox@.len() - t,
    {
        if any_outbox_blocks(&outbox[t]) {
            return Err(
                invalid(
                    "follow-up has claimed or unknown_commit outbox rows; cannot safely snooze",
                ),
            );
        }
        t = t + 1;
    }
    let mut controls: Vec<AppliedControl> = Vec::new();
    let mut k: usize = 0;
    while k < rows.len()
        invariant
            k <= rows@.len(),
            rows@.len() == ordered@.len(),
            ordered@ == sorted_by_id(targets@),
            forall|m: int| 0 <= m < rows@.len() ==> (#[trigger] rows@[m] is Some),
            forall|m: int|
                0 <= m < rows@.len() ==> (#[trigger] rows@[m] matches Some(row) ==> row.source_version
                    < u64::MAX),
            controls@.len() == k,
            forall|m: int|
                0 <= m < k ==> snooze_control_ok(
                    #[trigger] controls@[m],
                    ordered@[m],
                    rows@[m]->0,
                    snooze_until_unix_secs,
                    reason@,
                ),
        decreases rows@.len() - k,
    {
        match &rows[k] {
            Some(row) => {
                let id = ordered[k].follow_up_id.as_str();
                let control = AppliedControl {
                    follow_up_id: id.to_owned(),
                    control_kind: "snooze",
                    previous_status: "scheduled",
                    current_status: "scheduled",
                    previous_source_version: row.source_version,
                    current_source_version: row.source_version + 1,
                    previous_due_at_unix_secs: Some(row.due_at_unix_secs),
                    current_due_at_unix_secs: Some(snooze_until_unix_secs),
                    reason: reason.to_owned(),
                    result_ref: snooze_ref_text(id, snooze_until_unix_secs, row.source_version),
                };
                controls.push(control);
            },
            None => {},
        }
        k = k + 1;
    }
    let result_ref = batch_ref_text(&ordered, snooze_until_unix_secs);
    Ok(AppliedControlBatch { controls, result_ref })
}

} // verus!
