//! Failure handling: exponential back-off, the cooldown window, blocking
//! after repeated failures, and whether a tick goes ahead at all.
use vstd::prelude::*;

use crate::confirm::{
    confirmation_message, confirmation_text, lemma_push_once_extends, push_confirmation_once, push_once,
};
use crate::text::{decimal, decimal_text, seq_contains, text_contains};
use crate::types::{AutopilotStage, ConfirmationPolicy, ErrorCategory, ManagedProjectState, StateModel};

verus! {

/// Declares anyhow's error type, which a failed tick hands over.
#[verifier::external_type_specification]
#[verifier::external_body]
pub struct ExAnyhowError(anyhow::Error);

/// What anyhow's alternate formatting (`{:#}`) writes for an error: its
/// message, then each cause's after `: `.
pub uninterp spec fn error_chain(err: anyhow::Error) -> Seq<char>;

/// Calls anyhow's alternate formatting (`{:#}`) of an error. Claimed: the
/// text is a function of the error alone.
#[verifier::external_body]
fn error_chain_text(err: &anyhow::Error) -> (res: String)
    ensures
        res@ == error_chain(*err),
{
    format!("{:#}", err)
}

/// Two to the power `e`.
pub open spec fn doubling(e: nat) -> nat
    decreases e,
{
    if e == 0 {
        1
    } else {
        2 * doubling((e - 1) as nat)
    }
}

/// The back-off after `failures` consecutive failures, in milliseconds:
/// ten seconds, doubled for each failure after the first up to five
/// doublings, and never more than five minutes.
pub open spec fn backoff_ms(failures: u32) -> u64 {
    let exp: nat = if failures <= 1 {
        0
    } else if failures - 1 < 5 {
        (failures - 1) as nat
    } else {
        5
    };
    let raw = 10000 * doubling(exp);
    (if raw < 300000 {
        raw
    } else {
        300000
    }) as u64
}

/// The summary after a failed tick.
pub open spec fn failure_summary(count: u32, backoff: u64) -> Seq<char> {
    "tick 失败，第 "@ + decimal(count as nat) + " 次连续失败；已进入 "@ + decimal((backoff / 1000) as nat)
        + " 秒冷却"@
}

/// The detail of the confirmation asked for after repeated failures.
pub open spec fn repeated_failure_detail(count: u32, error: Seq<char>) -> Seq<char> {
    "连续失败 "@ + decimal(count as nat) + " 次："@ + error
}

/// What an error's text says it is: an outside command's failure, a
/// planning document that could not be read, or something else.
pub open spec fn category_of(error: Seq<char>) -> ErrorCategory {
    if seq_contains(error, "command failed: "@) {
        ErrorCategory::Command
    } else if seq_contains(error, "failed to read "@) {
        ErrorCategory::Document
    } else {
        ErrorCategory::Other
    }
}

/// How to recover from a failure of this category.
pub open spec fn hint_for(category: ErrorCategory) -> Seq<char> {
    match category {
        ErrorCategory::Unset => Seq::empty(),
        ErrorCategory::Command => "检查 git/cargo 命令输出，修复后等待自动重试"@,
        ErrorCategory::Document => "补齐或修正 VISION/CURRENT_DIRECTION/TODO 文档后等待自动重试"@,
        ErrorCategory::Other => "查看 last_error，人工处理后等待自动重试"@,
    }
}

/// The state after a failed tick at `now` whose error reads `error`:
/// one more consecutive failure, a cooldown of the back-off from `now`,
/// and, from the third failure in a row on, the blocked stage with a
/// confirmation request.
pub open spec fn after_failure(m: StateModel, error: Seq<char>, now: u64) -> StateModel {
    let count = m.consecutive_failures.saturating_add(1);
    let backoff = backoff_ms(count);
    let base = StateModel {
        consecutive_failures: count,
        last_error: error,
        last_error_category: category_of(error),
        recovery_hint: hint_for(category_of(error)),
        last_failure_at_ms: now,
        cooldown_until_ms: now.saturating_add(backoff),
        current_focus: "处理失败与退避冷却"@,
        current_objective: "等待冷却结束后自动重试；若连续失败过多则转 blocked"@,
        last_summary: failure_summary(count, backoff),
        ..m
    };
    if count >= 3 {
        StateModel {
            stage: AutopilotStage::Blocked,
            blocked_reason: error,
            pending_confirmation: push_once(
                base.pending_confirmation,
                confirmation_text(
                    ConfirmationPolicy::RepeatedFailure,
                    repeated_failure_detail(count, error),
                ),
            ),
            ..base
        }
    } else {
        base
    }
}

/// The state with failure tracking cleared.
pub open spec fn cleared(m: StateModel) -> StateModel {
    StateModel {
        consecutive_failures: 0,
        last_error: Seq::empty(),
        last_error_category: ErrorCategory::Unset,
        recovery_hint: Seq::empty(),
        last_failure_at_ms: 0,
        cooldown_until_ms: 0,
        ..m
    }
}

/// Whether a tick at `now` falls inside the cooldown window.
pub open spec fn cooling_down(m: StateModel, now: u64) -> bool {
    m.cooldown_until_ms > now
}

/// The hold note shown while paused.
pub open spec fn hold_note(reason: Seq<char>) -> Seq<char> {
    if reason.len() == 0 {
        Seq::empty()
    } else {
        "（manual hold："@ + reason + "）"@
    }
}

/// The state after a tick at `now` that does not run the cycle, because
/// the project is paused or cooling down.
pub open spec fn held_tick(m: StateModel, now: u64) -> StateModel {
    if m.paused {
        StateModel {
            last_summary: "autopilot 当前已暂停"@ + hold_note(m.manual_hold_reason) + "，跳过本轮 tick"@,
            current_focus: "等待恢复运行"@,
            current_objective: "人工取消 paused/hold 后再继续自动推进"@,
            ..m
        }
    } else {
        StateModel {
            last_summary: "仍在冷却中，"@ + decimal(
                (m.cooldown_until_ms.saturating_sub(now) / 1000) as nat,
            ) + " 秒后再自动重试"@,
            current_focus: "冷却等待"@,
            current_objective: "跳过本轮执行，等待 backoff 窗口结束"@,
            ..m
        }
    }
}

/// The back-off after `consecutive_failures` failures in a row.
pub fn compute_backoff_ms(consecutive_failures: u32) -> (ms: u64)
    ensures
        ms == backoff_ms(consecutive_failures),
{
    let exp = consecutive_failures.saturating_sub(1);
    let exp: u32 = if exp < 5 {
        exp
    } else {
        5
    };
    let base = 10_000u64;
    let factor = 1u64 << exp;
    proof {
        reveal_with_fuel(doubling, 6);
        if exp == 0 {
            assert(1u64 << 0u32 == 1) by (bit_vector);
        } else if exp == 1 {
            assert(1u64 << 1u32 == 2) by (bit_vector);
        } else if exp == 2 {
            assert(1u64 << 2u32 == 4) by (bit_vector);
        } else if exp == 3 {
            assert(1u64 << 3u32 == 8) by (bit_vector);
        } else if exp == 4 {
            assert(1u64 << 4u32 == 16) by (bit_vector);
        } else {
            assert(1u64 << 5u32 == 32) by (bit_vector);
        }
        assert(factor == doubling(exp as nat));
    }
    let raw = base * factor;
    if raw < 300_000 {
        raw
    } else {
        300_000
    }
}

/// Whether a tick at `now_ms_value` must wait for the cooldown to end.
pub fn should_wait_for_cooldown(state: &ManagedProjectState, now_ms_value: u64) -> (res: bool)
    ensures
        res == cooling_down(state@, now_ms_value),
{
    state.cooldown_until_ms > now_ms_value
}

/// What the error text says it is.
pub fn classify_error(error_text: &str) -> (c: ErrorCategory)
    ensures
        c == category_of(error_text@),
{
    if text_contains(error_text, "command failed: ") {
        ErrorCategory::Command
    } else if text_contains(error_text, "failed to read ") {
        ErrorCategory::Document
    } else {
        ErrorCategory::Other
    }
}

/// How to recover from a failure of `category`.
pub fn recovery_hint_for(category: ErrorCategory) -> (hint: String)
    ensures
        hint@ == hint_for(category),
{
    match category {
        ErrorCategory::Unset => String::new(),
        ErrorCategory::Command => "检查 git/cargo 命令输出，修复后等待自动重试".to_string(),
        ErrorCategory::Document => "补齐或修正 VISION/CURRENT_DIRECTION/TODO 文档后等待自动重试".to_string(),
        ErrorCategory::Other => "查看 last_error，人工处理后等待自动重试".to_string(),
    }
}

/// Records a failed tick at `now_ms_value` whose error reads `error_text`:
/// the error is classified and a recovery hint recorded.
pub fn record_tick_failure(state: &mut ManagedProjectState, error_text: String, now_ms_value: u64)
    ensures
        final(state)@ == after_failure(old(state)@, error_text@, now_ms_value),
        old(state)@.pending_confirmation.is_prefix_of(final(state)@.pending_confirmation),
{
    proof {
        lemma_failure_keeps_pending(state@, error_text@, now_ms_value);
    }
    state.consecutive_failures = state.consecutive_failures.saturating_add(1);
    let category = classify_error(error_text.as_str());
    state.last_error_category = category;
    state.recovery_hint = recovery_hint_for(category);
    let count = state.consecutive_failures;
    let backoff_ms = compute_backoff_ms(count);
    state.last_failure_at_ms = now_ms_value;
    state.cooldown_until_ms = now_ms_value.saturating_add(backoff_ms);
    state.current_focus = "处理失败与退避冷却".to_string();
    state.current_objective = "等待冷却结束后自动重试；若连续失败过多则转 blocked".to_string();
    let mut summary = "tick 失败，第 ".to_string();
    summary.append(decimal_text(count as u64).as_str());
    summary.append(" 次连续失败；已进入 ");
    summary.append(decimal_text(backoff_ms / 1000).as_str());
    summary.append(" 秒冷却");
    state.last_summary = summary;
    if count >= 3 {
        state.stage = AutopilotStage::Blocked;
        state.blocked_reason = error_text.clone();
        let mut detail = "连续失败 ".to_string();
        detail.append(decimal_text(count as u64).as_str());
        detail.append(" 次：");
        detail.append(error_text.as_str());
        let message = confirmation_message(ConfirmationPolicy::RepeatedFailure, detail.as_str());
        state.last_error = error_text;
        push_confirmation_once(state, message);
    } else {
        state.last_error = error_text;
    }
}

/// Records a failed tick at `now_ms_value`: the error's text (with its
/// causes) becomes the last error.
pub fn register_tick_failure(state: &mut ManagedProjectState, err: &anyhow::Error, now_ms_value: u64)
    ensures
        final(state)@ == after_failure(old(state)@, error_chain(*err), now_ms_value),
        old(state)@.pending_confirmation.is_prefix_of(final(state)@.pending_confirmation),
{
    let text = error_chain_text(err);
    record_tick_failure(state, text, now_ms_value);
}

/// Forgets past failures after a tick that went through.
pub fn clear_failure_tracking(state: &mut ManagedProjectState)
    ensures
        final(state)@ == cleared(old(state)@),
{
    state.consecutive_failures = 0;
    state.last_error = String::new();
    state.last_error_category = ErrorCategory::Unset;
    state.recovery_hint = String::new();
    state.last_failure_at_ms = 0;
    state.cooldown_until_ms = 0;
}

/// Decides whether a tick at `now_ms_value` runs the cycle. A paused
/// project, or one inside its cooldown window, does not; its summary,
/// focus and objective then say why.
pub fn prepare_tick(state: &mut ManagedProjectState, now_ms_value: u64) -> (run: bool)
    ensures
        run == (!old(state).paused && !cooling_down(old(state)@, now_ms_value)),
        run ==> final(state)@ == old(state)@,
        !run ==> final(state)@ == held_tick(old(state)@, now_ms_value),
{
    if state.paused {
        let mut summary = "autopilot 当前已暂停".to_string();
        if !state.manual_hold_reason.as_str().is_empty() {
            summary.append("（manual hold：");
            summary.append(state.manual_hold_reason.as_str());
            summary.append("）");
        }
        summary.append("，跳过本轮 tick");
        assert(summary@ =~= "autopilot 当前已暂停"@ + hold_note(state.manual_hold_reason@)
            + "，跳过本轮 tick"@);
        state.last_summary = summary;
        state.current_focus = "等待恢复运行".to_string();
        state.current_objective = "人工取消 paused/hold 后再继续自动推进".to_string();
        false
    } else if should_wait_for_cooldown(state, now_ms_value) {
        let remain_ms = state.cooldown_until_ms.saturating_sub(now_ms_value);
        let mut summary = "仍在冷却中，".to_string();
        summary.append(decimal_text(remain_ms / 1000).as_str());
        summary.append(" 秒后再自动重试");
        state.last_summary = summary;
        state.current_focus = "冷却等待".to_string();
        state.current_objective = "跳过本轮执行，等待 backoff 窗口结束".to_string();
        false
    } else {
        true
    }
}

/// Closes a tick that ran the cycle: a cycle that went through clears the
/// failure tracking; a failed one is recorded at `now_ms_value`.
pub fn complete_tick(state: &mut ManagedProjectState, outcome: Result<(), anyhow::Error>, now_ms_value: u64)
    ensures
        outcome is Ok ==> final(state)@ == cleared(old(state)@),
        outcome is Err ==> final(state)@ == after_failure(
            old(state)@,
            error_chain(outcome->Err_0),
            now_ms_value,
        ),
{
    match outcome {
        Ok(()) => clear_failure_tracking(state),
        Err(err) => register_tick_failure(state, &err, now_ms_value),
    }
}

/// The back-off never falls below ten seconds nor rises above five
/// minutes, and it does not shrink as failures accumulate.
pub proof fn lemma_backoff_bounded_and_monotone(a: u32, b: u32)
    requires
        a <= b,
    ensures
        10000 <= backoff_ms(a) <= 300000,
        backoff_ms(a) <= backoff_ms(b),
{
    reveal_with_fuel(doubling, 6);
}

/// Up to the cap, each further failure doubles the back-off.
pub proof fn lemma_backoff_doubles(n: u32)
    requires
        1 <= n <= 4,
    ensures
        backoff_ms((n + 1) as u32) == 2 * backoff_ms(n),
{
    reveal_with_fuel(doubling, 6);
}

/// After a failure at `now`, ticks wait exactly until the back-off (from
/// `now`) has passed.
pub proof fn lemma_failure_opens_cooldown(m: StateModel, error: Seq<char>, now: u64, later: u64)
    ensures
        cooling_down(after_failure(m, error, now), later) <==> later < now.saturating_add(
            backoff_ms(m.consecutive_failures.saturating_add(1)),
        ),
{
}

/// A tick that went through ends every cooldown.
pub proof fn lemma_cleared_never_waits(m: StateModel, now: u64)
    ensures
        !cooling_down(cleared(m), now),
        cleared(m).consecutive_failures == 0,
{
}

/// A tick that went through forgets past failures, and only them: the
/// count, the error, its category and hint, and the failure and cooldown
/// times are reset; the stage, the round and the queue stay.
pub proof fn lemma_cleared_forgets_failures(m: StateModel)
    ensures
        cleared(m).consecutive_failures == 0,
        cleared(m).last_error.len() == 0,
        cleared(m).last_error_category == ErrorCategory::Unset,
        cleared(m).recovery_hint.len() == 0,
        cleared(m).last_failure_at_ms == 0,
        cleared(m).cooldown_until_ms == 0,
        cleared(m).stage == m.stage,
        cleared(m).loop_iteration == m.loop_iteration,
        cleared(m).pending_confirmation == m.pending_confirmation,
        cleared(m).blocked_reason == m.blocked_reason,
        cleared(m).next_suggestions == m.next_suggestions,
{
}

/// Failures in a row are counted, and from the third on the project is
/// blocked with a repeated-failure confirmation queued; before the third
/// the stage is kept.
pub proof fn lemma_repeated_failures_block(m: StateModel, error: Seq<char>, now: u64)
    requires
        m.consecutive_failures < u32::MAX,
    ensures
        after_failure(m, error, now).consecutive_failures == m.consecutive_failures + 1,
        m.consecutive_failures >= 2 ==> after_failure(m, error, now).stage
            == AutopilotStage::Blocked,
        m.consecutive_failures >= 2 ==> after_failure(
            m,
            error,
            now,
        ).pending_confirmation.contains(
            confirmation_text(
                ConfirmationPolicy::RepeatedFailure,
                repeated_failure_detail((m.consecutive_failures + 1) as u32, error),
            ),
        ),
        m.consecutive_failures < 2 ==> after_failure(m, error, now).stage == m.stage,
{
    let count = (m.consecutive_failures + 1) as u32;
    let msg = confirmation_text(
        ConfirmationPolicy::RepeatedFailure,
        repeated_failure_detail(count, error),
    );
    if m.consecutive_failures >= 2 && !m.pending_confirmation.contains(msg) {
        assert(m.pending_confirmation.push(msg)[m.pending_confirmation.len() as int] == msg);
    }
}

/// A failed tick keeps every confirmation that was pending before it, in
/// order: the old queue is a prefix of the new one, which adds at most the
/// repeated-failure request; before the third failure in a row the queue
/// is left as it was.
pub proof fn lemma_failure_keeps_pending(m: StateModel, error: Seq<char>, now: u64)
    ensures
        m.pending_confirmation.is_prefix_of(after_failure(m, error, now).pending_confirmation),
        after_failure(m, error, now).pending_confirmation.len() <= m.pending_confirmation.len() + 1,
        m.consecutive_failures < 2 ==> after_failure(m, error, now).pending_confirmation
            == m.pending_confirmation,
{
    let count = m.consecutive_failures.saturating_add(1);
    lemma_push_once_extends(
        m.pending_confirmation,
        confirmation_text(ConfirmationPolicy::RepeatedFailure, repeated_failure_detail(count, error)),
    );
    assert(m.pending_confirmation =~= m.pending_confirmation.subrange(
        0,
        m.pending_confirmation.len() as int,
    ));
}

/// What a failed tick records: the count goes up by one (and stays at its
/// ceiling), the error, its category and hint, the time, and a cooldown of
/// the back-off from `now`; from the third failure in a row on the project
/// is blocked for that error.
pub proof fn lemma_failure_records(m: StateModel, error: Seq<char>, now: u64)
    ensures
        m.consecutive_failures < u32::MAX ==> after_failure(m, error, now).consecutive_failures
            == m.consecutive_failures + 1,
        m.consecutive_failures == u32::MAX ==> after_failure(m, error, now).consecutive_failures
            == u32::MAX,
        after_failure(m, error, now).last_error == error,
        after_failure(m, error, now).last_failure_at_ms == now,
        after_failure(m, error, now).recovery_hint == hint_for(category_of(error)),
        now + backoff_ms(after_failure(m, error, now).consecutive_failures) <= u64::MAX
            ==> after_failure(m, error, now).cooldown_until_ms == now + backoff_ms(
            after_failure(m, error, now).consecutive_failures,
        ),
        now + backoff_ms(after_failure(m, error, now).consecutive_failures) > u64::MAX
            ==> after_failure(m, error, now).cooldown_until_ms == u64::MAX,
        m.consecutive_failures >= 2 ==> after_failure(m, error, now).blocked_reason == error,
        m.consecutive_failures < 2 ==> after_failure(m, error, now).blocked_reason
            == m.blocked_reason,
        after_failure(m, error, now).loop_iteration == m.loop_iteration,
        after_failure(m, error, now).next_suggestions == m.next_suggestions,
        after_failure(m, error, now).project_id == m.project_id,
{
}

/// The back-off of each count of failures in a row: ten seconds for the
/// first, then twenty, forty, eighty and a hundred and sixty, and five
/// minutes from the sixth on.
pub proof fn lemma_backoff_table(n: u32)
    ensures
        n <= 1 ==> backoff_ms(n) == 10000,
        n == 2 ==> backoff_ms(n) == 20000,
        n == 3 ==> backoff_ms(n) == 40000,
        n == 4 ==> backoff_ms(n) == 80000,
        n == 5 ==> backoff_ms(n) == 160000,
        n >= 6 ==> backoff_ms(n) == 300000,
{
    reveal_with_fuel(doubling, 6);
}

/// Three failures in a row, starting from a project with no failures
/// counted, block it.
pub proof fn lemma_three_failures_block(m: StateModel, e1: Seq<char>, e2: Seq<char>, e3: Seq<char>, t1: u64, t2: u64, t3: u64)
    requires
        m.consecutive_failures == 0,
    ensures
        after_failure(after_failure(after_failure(m, e1, t1), e2, t2), e3, t3).stage
            == AutopilotStage::Blocked,
        after_failure(after_failure(m, e1, t1), e2, t2).stage == m.stage,
{
    lemma_repeated_failures_block(m, e1, t1);
    lemma_repeated_failures_block(after_failure(m, e1, t1), e2, t2);
    lemma_repeated_failures_block(after_failure(after_failure(m, e1, t1), e2, t2), e3, t3);
}

/// A held tick (paused or cooling down) makes no progress: the stage, the
/// round, the queue of confirmations and the failure tracking stay as
/// they were.
pub proof fn lemma_held_tick_makes_no_progress(m: StateModel, now: u64)
    ensures
        held_tick(m, now).stage == m.stage,
        held_tick(m, now).loop_iteration == m.loop_iteration,
        held_tick(m, now).pending_confirmation == m.pending_confirmation,
        held_tick(m, now).consecutive_failures == m.consecutive_failures,
        held_tick(m, now).cooldown_until_ms == m.cooldown_until_ms,
        held_tick(m, now).next_suggestions == m.next_suggestions,
{
}

/// How an error is classified: a failed outside command by
/// "command failed: ", an unreadable planning document by
/// "failed to read " (where no command failed), anything else as other;
/// each category comes with its own recovery hint.
pub proof fn lemma_error_categories(error: Seq<char>)
    ensures
        seq_contains(error, "command failed: "@) ==> category_of(error) == ErrorCategory::Command,
        !seq_contains(error, "command failed: "@) && seq_contains(error, "failed to read "@)
            ==> category_of(error) == ErrorCategory::Document,
        !seq_contains(error, "command failed: "@) && !seq_contains(error, "failed to read "@)
            ==> category_of(error) == ErrorCategory::Other,
        hint_for(ErrorCategory::Command) == "检查 git/cargo 命令输出，修复后等待自动重试"@,
        hint_for(ErrorCategory::Document) == "补齐或修正 VISION/CURRENT_DIRECTION/TODO 文档后等待自动重试"@,
        hint_for(ErrorCategory::Other) == "查看 last_error，人工处理后等待自动重试"@,
{
}

/// Every failure is classified, and comes with a recovery hint.
pub proof fn lemma_failure_is_classified(m: StateModel, error: Seq<char>, now: u64)
    ensures
        after_failure(m, error, now).last_error_category != ErrorCategory::Unset,
        after_failure(m, error, now).last_error_category == category_of(error),
        after_failure(m, error, now).recovery_hint.len() > 0,
{
    reveal_strlit("检查 git/cargo 命令输出，修复后等待自动重试");
    reveal_strlit("补齐或修正 VISION/CURRENT_DIRECTION/TODO 文档后等待自动重试");
    reveal_strlit("查看 last_error，人工处理后等待自动重试");
}

} // verus!
