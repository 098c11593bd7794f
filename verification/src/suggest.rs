//! Suggestions: the fixed list of each stage, and the suggestions drawn
//! from the project's planning documents.
use vstd::prelude::*;

use crate::text::{all_ascii, ascii_lower, lowercase, lowercase_text, seq_contains, text_contains};
use crate::types::{
    suggestion_models, AutopilotStage, ManagedProjectState, StateModel, SuggestionModel,
    WorkflowDocumentContext, WorkflowSuggestion, WorkflowSuggestionKind,
};

verus! {

/// The model of a suggestion with these parts.
pub open spec fn model(title: Seq<char>, priority: u8, rationale: Seq<char>, kind: WorkflowSuggestionKind) -> SuggestionModel {
    SuggestionModel { title, priority, rationale, kind }
}

/// The fixed suggestions of each stage, most urgent first.
pub open spec fn default_models(stage: AutopilotStage) -> Seq<SuggestionModel> {
    match stage {
        AutopilotStage::Plan => seq![
            model("读取目标文档并重新排序下一阶段事项"@, 1, "先对齐 vision/direction/todo，避免跑偏"@, WorkflowSuggestionKind::DocSync),
            model("生成 3–5 个下一阶段建议"@, 2, "为默认执行前两个动作提供输入"@, WorkflowSuggestionKind::Feature),
            model("同步当前状态与目标口径"@, 3, "减少文档与代码漂移"@, WorkflowSuggestionKind::DocSync),
        ],
        AutopilotStage::Execute => seq![
            model("执行建议第 1 项"@, 1, "默认推进当前最优先事项"@, WorkflowSuggestionKind::Feature),
            model("执行建议第 2 项"@, 2, "保持双任务推进节奏"@, WorkflowSuggestionKind::Feature),
            model("补最小必要测试"@, 3, "防止推进后没有验证锁定"@, WorkflowSuggestionKind::Test),
        ],
        AutopilotStage::Verify => seq![
            model("跑定向测试与一致性检查"@, 1, "验证刚完成的两项动作是否稳定"@, WorkflowSuggestionKind::Test),
            model("检查状态漂移与 flaky"@, 2, "优先发现不稳定点"@, WorkflowSuggestionKind::BugScan),
            model("采集 git/test/doc 数据摘要"@, 3, "为每 10 轮汇报与关键事件汇报提供素材"@, WorkflowSuggestionKind::Collect),
        ],
        AutopilotStage::BugScan => seq![
            model("查找 bug"@, 1, "bug 环固定第一项为查找问题"@, WorkflowSuggestionKind::BugScan),
            model("修复 bug"@, 2, "bug 环固定第二项为修复问题"@, WorkflowSuggestionKind::BugFix),
        ],
        AutopilotStage::BugFix => seq![
            model("修复 bug"@, 1, "执行最小修复"@, WorkflowSuggestionKind::BugFix),
            model("补测试锁住修复"@, 2, "防止回归"@, WorkflowSuggestionKind::Test),
        ],
        AutopilotStage::DocSync => seq![
            model("同步 TODO/STATUS/PROGRESS"@, 1, "让文档继续反映真实阶段"@, WorkflowSuggestionKind::DocSync),
            model("采集文档变更摘要"@, 2, "让后续汇报可解释"@, WorkflowSuggestionKind::Collect),
        ],
        AutopilotStage::CommitPush => seq![
            model("commit 当前稳定成果"@, 1, "把本轮稳定成果落盘"@, WorkflowSuggestionKind::Commit),
            model("评估是否 push"@, 2, "外发前进入确认点"@, WorkflowSuggestionKind::Commit),
        ],
        AutopilotStage::Cooldown => seq![
            model("短暂冷却并等待下一轮"@, 1, "避免高频抖动"@, WorkflowSuggestionKind::Performance),
        ],
        AutopilotStage::Blocked => seq![
            model("识别阻塞原因"@, 1, "先明确为什么不能继续"@, WorkflowSuggestionKind::BugScan),
            model("给出恢复路径"@, 2, "为人工确认或恢复运行做准备"@, WorkflowSuggestionKind::DocSync),
        ],
    }
}

/// `s` when `cond` holds, else nothing.
pub open spec fn when(cond: bool, s: SuggestionModel) -> Seq<SuggestionModel> {
    if cond {
        seq![s]
    } else {
        Seq::empty()
    }
}

/// The suggestions that lowercased planning documents call for, in order
/// of priority: each is drawn by a keyword of the direction, the todo list
/// or the vision.
pub open spec fn document_models(todo: Seq<char>, direction: Seq<char>, vision: Seq<char>) -> Seq<SuggestionModel> {
    when(
        seq_contains(direction, "trust score"@),
        model("继续推进 trust score 核心化"@, 1, "当前方向明确要求继续把 proxy selection 收敛到 trust score 核心表达"@, WorkflowSuggestionKind::Feature),
    ) + when(
        seq_contains(direction, "verify"@),
        model("推进 verify / smoke / batch verify 质量闭环"@, 2, "当前方向要求把 verify 信号统一成更稳定的质量闭环"@, WorkflowSuggestionKind::Feature),
    ) + when(
        seq_contains(todo, "写放大"@) || seq_contains(direction, "写放大"@),
        model("治理高并发写放大与状态竞争"@, 3, "TODO 与当前方向都把写放大列为当前重点"@, WorkflowSuggestionKind::Performance),
    ) + when(
        seq_contains(direction, "文档"@) || seq_contains(todo, "同步 current_"@),
        model("继续同步 CURRENT_*/TODO/STATUS 口径"@, 4, "当前阶段强调文档、策略、代码主链要保持同一口径"@, WorkflowSuggestionKind::DocSync),
    ) + when(
        seq_contains(vision, "artifact"@) || seq_contains(vision, "可替换执行引擎"@),
        model("补执行引擎边界与 artifact 策略"@, 5, "vision 强调可替换执行引擎与长期运行下的结果管理能力"@, WorkflowSuggestionKind::Refactor),
    )
}

/// The suggestions for `stage` given the lowercased documents: the bug
/// scan keeps its fixed list; otherwise the document suggestions, or the
/// stage's fixed list where the documents call for none.
pub open spec fn dynamic_models(stage: AutopilotStage, todo: Seq<char>, direction: Seq<char>, vision: Seq<char>) -> Seq<SuggestionModel> {
    if stage == AutopilotStage::BugScan {
        default_models(stage)
    } else {
        let found = document_models(todo, direction, vision);
        if found.len() == 0 {
            default_models(stage)
        } else {
            found
        }
    }
}

/// Priorities never decrease along the list.
pub open spec fn by_priority(s: Seq<SuggestionModel>) -> bool {
    forall|i: int, j: int| 0 <= i <= j < s.len() ==> s[i].priority <= s[j].priority
}

/// A suggestion with these parts.
pub fn suggestion(title: &str, priority: u8, rationale: &str, kind: WorkflowSuggestionKind) -> (res: WorkflowSuggestion)
    ensures
        res@ == model(title@, priority, rationale@, kind),
{
    WorkflowSuggestion {
        title: title.to_string(),
        priority,
        rationale: rationale.to_string(),
        kind,
    }
}

fn list1(a: WorkflowSuggestion) -> (res: Vec<WorkflowSuggestion>)
    ensures
        suggestion_models(res@) == seq![a@],
{
    let mut v = Vec::new();
    v.push(a);
    assert(suggestion_models(v@) =~= seq![a@]);
    v
}

fn list2(a: WorkflowSuggestion, b: WorkflowSuggestion) -> (res: Vec<WorkflowSuggestion>)
    ensures
        suggestion_models(res@) == seq![a@, b@],
{
    let mut v = Vec::new();
    v.push(a);
    v.push(b);
    assert(suggestion_models(v@) =~= seq![a@, b@]);
    v
}

fn list3(a: WorkflowSuggestion, b: WorkflowSuggestion, c: WorkflowSuggestion) -> (res: Vec<WorkflowSuggestion>)
    ensures
        suggestion_models(res@) == seq![a@, b@, c@],
{
    let mut v = Vec::new();
    v.push(a);
    v.push(b);
    v.push(c);
    assert(suggestion_models(v@) =~= seq![a@, b@, c@]);
    v
}

/// The fixed suggestions of `stage`.
pub fn default_suggestions_for_stage(stage: AutopilotStage) -> (res: Vec<WorkflowSuggestion>)
    ensures
        suggestion_models(res@) == default_models(stage),
{
    match stage {
        AutopilotStage::Plan => list3(
            suggestion("读取目标文档并重新排序下一阶段事项", 1, "先对齐 vision/direction/todo，避免跑偏", WorkflowSuggestionKind::DocSync),
            suggestion("生成 3–5 个下一阶段建议", 2, "为默认执行前两个动作提供输入", WorkflowSuggestionKind::Feature),
            suggestion("同步当前状态与目标口径", 3, "减少文档与代码漂移", WorkflowSuggestionKind::DocSync),
        ),
        AutopilotStage::Execute => list3(
            suggestion("执行建议第 1 项", 1, "默认推进当前最优先事项", WorkflowSuggestionKind::Feature),
            suggestion("执行建议第 2 项", 2, "保持双任务推进节奏", WorkflowSuggestionKind::Feature),
            suggestion("补最小必要测试", 3, "防止推进后没有验证锁定", WorkflowSuggestionKind::Test),
        ),
        AutopilotStage::Verify => list3(
            suggestion("跑定向测试与一致性检查", 1, "验证刚完成的两项动作是否稳定", WorkflowSuggestionKind::Test),
            suggestion("检查状态漂移与 flaky", 2, "优先发现不稳定点", WorkflowSuggestionKind::BugScan),
            suggestion("采集 git/test/doc 数据摘要", 3, "为每 10 轮汇报与关键事件汇报提供素材", WorkflowSuggestionKind::Collect),
        ),
        AutopilotStage::BugScan => list2(
            suggestion("查找 bug", 1, "bug 环固定第一项为查找问题", WorkflowSuggestionKind::BugScan),
            suggestion("修复 bug", 2, "bug 环固定第二项为修复问题", WorkflowSuggestionKind::BugFix),
        ),
        AutopilotStage::BugFix => list2(
            suggestion("修复 bug", 1, "执行最小修复", WorkflowSuggestionKind::BugFix),
            suggestion("补测试锁住修复", 2, "防止回归", WorkflowSuggestionKind::Test),
        ),
        AutopilotStage::DocSync => list2(
            suggestion("同步 TODO/STATUS/PROGRESS", 1, "让文档继续反映真实阶段", WorkflowSuggestionKind::DocSync),
            suggestion("采集文档变更摘要", 2, "让后续汇报可解释", WorkflowSuggestionKind::Collect),
        ),
        AutopilotStage::CommitPush => list2(
            suggestion("commit 当前稳定成果", 1, "把本轮稳定成果落盘", WorkflowSuggestionKind::Commit),
            suggestion("评估是否 push", 2, "外发前进入确认点", WorkflowSuggestionKind::Commit),
        ),
        AutopilotStage::Cooldown => list1(
            suggestion("短暂冷却并等待下一轮", 1, "避免高频抖动", WorkflowSuggestionKind::Performance),
        ),
        AutopilotStage::Blocked => list2(
            suggestion("识别阻塞原因", 1, "先明确为什么不能继续", WorkflowSuggestionKind::BugScan),
            suggestion("给出恢复路径", 2, "为人工确认或恢复运行做准备", WorkflowSuggestionKind::DocSync),
        ),
    }
}

/// Appends `s` when `cond` holds.
fn push_when(v: &mut Vec<WorkflowSuggestion>, cond: bool, s: WorkflowSuggestion)
    ensures
        suggestion_models(final(v)@) == suggestion_models(old(v)@) + when(cond, s@),
{
    let ghost before = suggestion_models(v@);
    if cond {
        v.push(s);
        assert(suggestion_models(v@) =~= before + seq![s@]);
    } else {
        assert(before + when(cond, s@) =~= before);
    }
}

/// The suggestions for `stage` given the already lowercased todo list,
/// current direction and vision. The document suggestions are drawn in
/// order of priority, one per priority, so the list needs no sorting and
/// holds at most five.
pub fn suggestions_from_lowercased(stage: AutopilotStage, todo: &str, direction: &str, vision: &str) -> (res: Vec<WorkflowSuggestion>)
    ensures
        suggestion_models(res@) == dynamic_models(stage, todo@, direction@, vision@),
{
    let mut found: Vec<WorkflowSuggestion> = Vec::new();
    assert(suggestion_models(found@) =~= Seq::<SuggestionModel>::empty());
    let c1 = text_contains(direction, "trust score");
    push_when(&mut found, c1, suggestion("继续推进 trust score 核心化", 1, "当前方向明确要求继续把 proxy selection 收敛到 trust score 核心表达", WorkflowSuggestionKind::Feature));
    let c2 = text_contains(direction, "verify");
    push_when(&mut found, c2, suggestion("推进 verify / smoke / batch verify 质量闭环", 2, "当前方向要求把 verify 信号统一成更稳定的质量闭环", WorkflowSuggestionKind::Feature));
    let c3 = text_contains(todo, "写放大") || text_contains(direction, "写放大");
    push_when(&mut found, c3, suggestion("治理高并发写放大与状态竞争", 3, "TODO 与当前方向都把写放大列为当前重点", WorkflowSuggestionKind::Performance));
    let c4 = text_contains(direction, "文档") || text_contains(todo, "同步 current_");
    push_when(&mut found, c4, suggestion("继续同步 CURRENT_*/TODO/STATUS 口径", 4, "当前阶段强调文档、策略、代码主链要保持同一口径", WorkflowSuggestionKind::DocSync));
    let c5 = text_contains(vision, "artifact") || text_contains(vision, "可替换执行引擎");
    push_when(&mut found, c5, suggestion("补执行引擎边界与 artifact 策略", 5, "vision 强调可替换执行引擎与长期运行下的结果管理能力", WorkflowSuggestionKind::Refactor));
    assert(suggestion_models(found@) =~= Seq::<SuggestionModel>::empty() + document_models(todo@, direction@, vision@));
    if stage == AutopilotStage::BugScan {
        return default_suggestions_for_stage(stage);
    }
    if found.len() == 0 {
        default_suggestions_for_stage(stage)
    } else {
        found
    }
}

/// The suggestions for `stage` drawn from the project's documents, matched
/// without regard to case.
pub fn generate_dynamic_suggestions(stage: AutopilotStage, ctx: &WorkflowDocumentContext) -> (res: Vec<WorkflowSuggestion>)
    ensures
        suggestion_models(res@) == dynamic_models(
            stage,
            lowercase(ctx.todo@),
            lowercase(ctx.current_direction@),
            lowercase(ctx.vision@),
        ),
        all_ascii(ctx.todo@) && all_ascii(ctx.current_direction@) && all_ascii(ctx.vision@)
            ==> suggestion_models(res@) == dynamic_models(
            stage,
            ascii_lower(ctx.todo@),
            ascii_lower(ctx.current_direction@),
            ascii_lower(ctx.vision@),
        ),
{
    let todo = lowercase_text(ctx.todo.as_str());
    let direction = lowercase_text(ctx.current_direction.as_str());
    let vision = lowercase_text(ctx.vision.as_str());
    suggestions_from_lowercased(stage, todo.as_str(), direction.as_str(), vision.as_str())
}

/// The state with its next suggestions drawn from the documents.
pub open spec fn refreshed(m: StateModel, ctx_todo: Seq<char>, ctx_direction: Seq<char>, ctx_vision: Seq<char>) -> StateModel {
    StateModel {
        next_suggestions: dynamic_models(
            m.stage,
            lowercase(ctx_todo),
            lowercase(ctx_direction),
            lowercase(ctx_vision),
        ),
        ..m
    }
}

/// Replaces the next suggestions with those the loaded documents call for
/// at the current stage.
pub fn refresh_dynamic_suggestions(ctx: &WorkflowDocumentContext, state: &mut ManagedProjectState)
    ensures
        final(state)@ == refreshed(old(state)@, ctx.todo@, ctx.current_direction@, ctx.vision@),
{
    state.next_suggestions = generate_dynamic_suggestions(state.stage, ctx);
}

/// Every stage has suggestions, in order of priority.
pub proof fn lemma_default_models_nonempty_sorted(stage: AutopilotStage)
    ensures
        default_models(stage).len() >= 1,
        by_priority(default_models(stage)),
{
}

/// The bug loop always starts with finding the bug and then fixing it.
pub proof fn lemma_bug_loop_order(todo: Seq<char>, direction: Seq<char>, vision: Seq<char>)
    ensures
        dynamic_models(AutopilotStage::BugScan, todo, direction, vision)[0].kind
            == WorkflowSuggestionKind::BugScan,
        dynamic_models(AutopilotStage::BugScan, todo, direction, vision)[1].kind
            == WorkflowSuggestionKind::BugFix,
        dynamic_models(AutopilotStage::BugScan, todo, direction, vision).len() == 2,
{
}

proof fn lemma_append_when(a: Seq<SuggestionModel>, cond: bool, s: SuggestionModel)
    requires
        by_priority(a),
        forall|k: int| 0 <= k < a.len() ==> #[trigger] a[k].priority < s.priority,
    ensures
        by_priority(a + when(cond, s)),
        forall|k: int|
            0 <= k < (a + when(cond, s)).len() ==> #[trigger] (a + when(cond, s))[k].priority
                <= s.priority,
        (a + when(cond, s)).len() <= a.len() + 1,
{
    let r = a + when(cond, s);
    assert forall|k: int| 0 <= k < r.len() implies #[trigger] r[k].priority <= s.priority by {
        if k < a.len() {
            assert(r[k] == a[k]);
        }
    }
    assert forall|i: int, j: int| 0 <= i <= j < r.len() implies r[i].priority <= r[j].priority by {
        if j < a.len() {
            assert(r[i] == a[i] && r[j] == a[j]);
        } else if i < a.len() {
            assert(r[i] == a[i]);
        }
    }
}

proof fn lemma_append_keeps(a: Seq<SuggestionModel>, cond: bool, s: SuggestionModel, x: SuggestionModel)
    requires
        a.contains(x) || (cond && x == s),
    ensures
        (a + when(cond, s)).contains(x),
{
    if a.contains(x) {
        let i = choose|i: int| 0 <= i < a.len() && a[i] == x;
        assert((a + when(cond, s))[i] == x);
    } else {
        assert((a + when(cond, s))[a.len() as int] == x);
    }
}

proof fn lemma_append_only(a: Seq<SuggestionModel>, cond: bool, s: SuggestionModel, p: spec_fn(SuggestionModel) -> bool)
    requires
        forall|k: int| 0 <= k < a.len() ==> p(#[trigger] a[k]),
        cond ==> p(s),
    ensures
        forall|k: int| 0 <= k < (a + when(cond, s)).len() ==> p(#[trigger] (a + when(cond, s))[k]),
{
    assert forall|k: int| 0 <= k < (a + when(cond, s)).len() implies p(#[trigger] (a + when(cond, s))[k]) by {
        if k < a.len() {
            assert((a + when(cond, s))[k] == a[k]);
        }
    }
}

/// Each keyword of the lowercased documents draws its own suggestion, at
/// every stage but the bug scan: "trust score" in the direction the trust
/// score work (priority 1), "verify" in the direction the verify loop
/// (2), "写放大" in the todo list or the direction the write
/// amplification work (3), "文档" in the direction or "同步 current_" in
/// the todo list the document sync (4), "artifact" or "可替换执行引擎" in
/// the vision the execution engine boundary (5). Where some keyword
/// appears, nothing else is suggested; where none does, the stage keeps
/// its fixed list. The bug scan always keeps its own list.
pub proof fn lemma_keywords_draw_suggestions(stage: AutopilotStage, todo: Seq<char>, direction: Seq<char>, vision: Seq<char>)
    ensures
        stage == AutopilotStage::BugScan ==> dynamic_models(stage, todo, direction, vision)
            == default_models(AutopilotStage::BugScan),
        stage != AutopilotStage::BugScan && seq_contains(direction, "trust score"@)
            ==> dynamic_models(stage, todo, direction, vision).contains(
            model("继续推进 trust score 核心化"@, 1, "当前方向明确要求继续把 proxy selection 收敛到 trust score 核心表达"@, WorkflowSuggestionKind::Feature),
        ),
        stage != AutopilotStage::BugScan && seq_contains(direction, "verify"@)
            ==> dynamic_models(stage, todo, direction, vision).contains(
            model("推进 verify / smoke / batch verify 质量闭环"@, 2, "当前方向要求把 verify 信号统一成更稳定的质量闭环"@, WorkflowSuggestionKind::Feature),
        ),
        stage != AutopilotStage::BugScan && (seq_contains(todo, "写放大"@) || seq_contains(direction, "写放大"@))
            ==> dynamic_models(stage, todo, direction, vision).contains(
            model("治理高并发写放大与状态竞争"@, 3, "TODO 与当前方向都把写放大列为当前重点"@, WorkflowSuggestionKind::Performance),
        ),
        stage != AutopilotStage::BugScan && (seq_contains(direction, "文档"@) || seq_contains(todo, "同步 current_"@))
            ==> dynamic_models(stage, todo, direction, vision).contains(
            model("继续同步 CURRENT_*/TODO/STATUS 口径"@, 4, "当前阶段强调文档、策略、代码主链要保持同一口径"@, WorkflowSuggestionKind::DocSync),
        ),
        stage != AutopilotStage::BugScan && (seq_contains(vision, "artifact"@) || seq_contains(vision, "可替换执行引擎"@))
            ==> dynamic_models(stage, todo, direction, vision).contains(
            model("补执行引擎边界与 artifact 策略"@, 5, "vision 强调可替换执行引擎与长期运行下的结果管理能力"@, WorkflowSuggestionKind::Refactor),
        ),
        stage != AutopilotStage::BugScan && (seq_contains(direction, "trust score"@) || seq_contains(direction, "verify"@)
            || seq_contains(todo, "写放大"@) || seq_contains(direction, "写放大"@)
            || seq_contains(direction, "文档"@) || seq_contains(todo, "同步 current_"@)
            || seq_contains(vision, "artifact"@) || seq_contains(vision, "可替换执行引擎"@))
            ==> forall|k: int| 0 <= k < dynamic_models(stage, todo, direction, vision).len() ==> {
                let x = #[trigger] dynamic_models(stage, todo, direction, vision)[k];
                ||| x == model("继续推进 trust score 核心化"@, 1, "当前方向明确要求继续把 proxy selection 收敛到 trust score 核心表达"@, WorkflowSuggestionKind::Feature)
                    && seq_contains(direction, "trust score"@)
                ||| x == model("推进 verify / smoke / batch verify 质量闭环"@, 2, "当前方向要求把 verify 信号统一成更稳定的质量闭环"@, WorkflowSuggestionKind::Feature)
                    && seq_contains(direction, "verify"@)
                ||| x == model("治理高并发写放大与状态竞争"@, 3, "TODO 与当前方向都把写放大列为当前重点"@, WorkflowSuggestionKind::Performance)
                    && (seq_contains(todo, "写放大"@) || seq_contains(direction, "写放大"@))
                ||| x == model("继续同步 CURRENT_*/TODO/STATUS 口径"@, 4, "当前阶段强调文档、策略、代码主链要保持同一口径"@, WorkflowSuggestionKind::DocSync)
                    && (seq_contains(direction, "文档"@) || seq_contains(todo, "同步 current_"@))
                ||| x == model("补执行引擎边界与 artifact 策略"@, 5, "vision 强调可替换执行引擎与长期运行下的结果管理能力"@, WorkflowSuggestionKind::Refactor)
                    && (seq_contains(vision, "artifact"@) || seq_contains(vision, "可替换执行引擎"@))
            },
        stage != AutopilotStage::BugScan && !seq_contains(direction, "trust score"@) && !seq_contains(direction, "verify"@)
            && !seq_contains(todo, "写放大"@) && !seq_contains(direction, "写放大"@)
            && !seq_contains(direction, "文档"@) && !seq_contains(todo, "同步 current_"@)
            && !seq_contains(vision, "artifact"@) && !seq_contains(vision, "可替换执行引擎"@)
            ==> dynamic_models(stage, todo, direction, vision) == default_models(stage),
{
    let e = Seq::<SuggestionModel>::empty();
    let s1 = model("继续推进 trust score 核心化"@, 1, "当前方向明确要求继续把 proxy selection 收敛到 trust score 核心表达"@, WorkflowSuggestionKind::Feature);
    let s2 = model("推进 verify / smoke / batch verify 质量闭环"@, 2, "当前方向要求把 verify 信号统一成更稳定的质量闭环"@, WorkflowSuggestionKind::Feature);
    let s3 = model("治理高并发写放大与状态竞争"@, 3, "TODO 与当前方向都把写放大列为当前重点"@, WorkflowSuggestionKind::Performance);
    let s4 = model("继续同步 CURRENT_*/TODO/STATUS 口径"@, 4, "当前阶段强调文档、策略、代码主链要保持同一口径"@, WorkflowSuggestionKind::DocSync);
    let s5 = model("补执行引擎边界与 artifact 策略"@, 5, "vision 强调可替换执行引擎与长期运行下的结果管理能力"@, WorkflowSuggestionKind::Refactor);
    let c1 = seq_contains(direction, "trust score"@);
    let c2 = seq_contains(direction, "verify"@);
    let c3 = seq_contains(todo, "写放大"@) || seq_contains(direction, "写放大"@);
    let c4 = seq_contains(direction, "文档"@) || seq_contains(todo, "同步 current_"@);
    let c5 = seq_contains(vision, "artifact"@) || seq_contains(vision, "可替换执行引擎"@);
    let a1 = when(c1, s1);
    assert(a1 =~= e + when(c1, s1));
    let a2 = a1 + when(c2, s2);
    let a3 = a2 + when(c3, s3);
    let a4 = a3 + when(c4, s4);
    let a5 = a4 + when(c5, s5);
    assert(document_models(todo, direction, vision) == a5);
    lemma_append_when(e, c1, s1);
    lemma_append_when(a1, c2, s2);
    lemma_append_when(a2, c3, s3);
    lemma_append_when(a3, c4, s4);
    if c1 {
        lemma_append_keeps(e, c1, s1, s1);
        lemma_append_keeps(a1, c2, s2, s1);
        lemma_append_keeps(a2, c3, s3, s1);
        lemma_append_keeps(a3, c4, s4, s1);
        lemma_append_keeps(a4, c5, s5, s1);
    }
    if c2 {
        lemma_append_keeps(a1, c2, s2, s2);
        lemma_append_keeps(a2, c3, s3, s2);
        lemma_append_keeps(a3, c4, s4, s2);
        lemma_append_keeps(a4, c5, s5, s2);
    }
    if c3 {
        lemma_append_keeps(a2, c3, s3, s3);
        lemma_append_keeps(a3, c4, s4, s3);
        lemma_append_keeps(a4, c5, s5, s3);
    }
    if c4 {
        lemma_append_keeps(a3, c4, s4, s4);
        lemma_append_keeps(a4, c5, s5, s4);
    }
    if c5 {
        lemma_append_keeps(a4, c5, s5, s5);
    }
    let p = |x: SuggestionModel|
        (x == s1 && c1) || (x == s2 && c2) || (x == s3 && c3) || (x == s4 && c4) || (x == s5 && c5);
    lemma_append_only(e, c1, s1, p);
    lemma_append_only(a1, c2, s2, p);
    lemma_append_only(a2, c3, s3, p);
    lemma_append_only(a3, c4, s4, p);
    lemma_append_only(a4, c5, s5, p);
    if !c1 && !c2 && !c3 && !c4 && !c5 {
        assert(a5.len() == 0);
    }
}

/// Whatever the documents say, there is something to do: the list is never
/// empty, holds at most five suggestions, and runs in order of priority.
pub proof fn lemma_dynamic_models_shape(stage: AutopilotStage, todo: Seq<char>, direction: Seq<char>, vision: Seq<char>)
    ensures
        1 <= dynamic_models(stage, todo, direction, vision).len() <= 5,
        by_priority(dynamic_models(stage, todo, direction, vision)),
{
    let e = Seq::<SuggestionModel>::empty();
    let s1 = model("继续推进 trust score 核心化"@, 1, "当前方向明确要求继续把 proxy selection 收敛到 trust score 核心表达"@, WorkflowSuggestionKind::Feature);
    let s2 = model("推进 verify / smoke / batch verify 质量闭环"@, 2, "当前方向要求把 verify 信号统一成更稳定的质量闭环"@, WorkflowSuggestionKind::Feature);
    let s3 = model("治理高并发写放大与状态竞争"@, 3, "TODO 与当前方向都把写放大列为当前重点"@, WorkflowSuggestionKind::Performance);
    let s4 = model("继续同步 CURRENT_*/TODO/STATUS 口径"@, 4, "当前阶段强调文档、策略、代码主链要保持同一口径"@, WorkflowSuggestionKind::DocSync);
    let s5 = model("补执行引擎边界与 artifact 策略"@, 5, "vision 强调可替换执行引擎与长期运行下的结果管理能力"@, WorkflowSuggestionKind::Refactor);
    let c1 = seq_contains(direction, "trust score"@);
    let c2 = seq_contains(direction, "verify"@);
    let c3 = seq_contains(todo, "写放大"@) || seq_contains(direction, "写放大"@);
    let c4 = seq_contains(direction, "文档"@) || seq_contains(todo, "同步 current_"@);
    let c5 = seq_contains(vision, "artifact"@) || seq_contains(vision, "可替换执行引擎"@);
    let a1 = when(c1, s1);
    assert(a1 =~= e + when(c1, s1));
    lemma_append_when(e, c1, s1);
    lemma_append_when(a1, c2, s2);
    let a2 = a1 + when(c2, s2);
    lemma_append_when(a2, c3, s3);
    let a3 = a2 + when(c3, s3);
    lemma_append_when(a3, c4, s4);
    let a4 = a3 + when(c4, s4);
    lemma_append_when(a4, c5, s5);
    assert(document_models(todo, direction, vision) == a4 + when(c5, s5));
}

} // verus!
