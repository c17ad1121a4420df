//! The built-in, versioned minutes templates.

use vstd::prelude::*;

use super::error::MinutesError;
use super::model::ContentType;
use crate::text::str_eq;

verus! {
pub const STANDARD_MEETING_TEMPLATE_ID: &'static str = "standard_meeting";
pub const PROJECT_WEEKLY_TEMPLATE_ID: &'static str = "project_weekly";
pub const CUSTOMER_COMMUNICATION_TEMPLATE_ID: &'static str = "customer_communication";
pub const COURSE_SUMMARY_TEMPLATE_ID: &'static str = "course_summary";
pub const RESEARCH_PROJECT_TEMPLATE_ID: &'static str = "research_project";
pub const ACADEMIC_LECTURE_TEMPLATE_ID: &'static str = "academic_lecture";
pub const SPEECH_SUMMARY_TEMPLATE_ID: &'static str = "speech_summary";
pub const PROFILE_INTERVIEW_TEMPLATE_ID: &'static str = "profile_interview";
pub const IN_DEPTH_INTERVIEW_TEMPLATE_ID: &'static str = "in_depth_interview";
pub const BUSINESS_PLAN_TEMPLATE_ID: &'static str = "business_plan";
pub const ARTICLE_OUTLINE_TEMPLATE_ID: &'static str = "article_outline";
pub const ADAPTIVE_TEMPLATE_ID: &'static str = "adaptive";
/// The version of every built-in template.
pub const BUILTIN_TEMPLATE_VERSION: &'static str = "1.0.0";

/// The number of built-in templates.
pub const TEMPLATE_COUNT: usize = 12;

/// A built-in minutes template that the UI cannot rewrite.
#[derive(Debug, Clone, Copy, PartialEq, Eq)]
pub struct MinutesTemplate {
    pub id: &'static str,
    pub version: &'static str,
    pub display_name: &'static str,
    pub description: &'static str,
    pub instructions: &'static str,
}

/// The built-in template at position `i` of the stable order.
pub open spec fn builtin_template(i: int) -> MinutesTemplate {
    if i == 0 {
        MinutesTemplate { id: STANDARD_MEETING_TEMPLATE_ID, version: BUILTIN_TEMPLATE_VERSION, display_name: "标准会议纪要", description: "适用于日常讨论、部门例会与一般协作会议。", instructions: "平衡概括摘要、主要议题、结论、已确认决策、明确待办和风险问题；按讨论顺序组织议题。一般讨论、建议和设想不能升级为决策或待办。" }
    } else if i == 1 {
        MinutesTemplate { id: PROJECT_WEEKLY_TEMPLATE_ID, version: BUILTIN_TEMPLATE_VERSION, display_name: "项目周会", description: "适用于项目进展同步、任务协调与风险跟踪。", instructions: "议题优先按项目或工作流归类，摘要强调原文报告的进展，风险问题强调阻塞、依赖和偏差，待办只收明确后续动作。不得推算完成率；目标日期不自动成为待办截止日期。" }
    } else if i == 2 {
        MinutesTemplate { id: CUSTOMER_COMMUNICATION_TEMPLATE_ID, version: BUILTIN_TEMPLATE_VERSION, display_name: "客户沟通", description: "适用于需求沟通、方案演示与商务澄清。", instructions: "聚焦客户明确表达的诉求、澄清和约束；决策只收双方明确确认事项，待办只收明确对外或客户动作，异议和待确认内容归为问题。客户建议不等于我方承诺，不推断客户情绪、身份或合同义务。" }
    } else if i == 3 {
        MinutesTemplate { id: COURSE_SUMMARY_TEMPLATE_ID, version: BUILTIN_TEMPLATE_VERSION, display_name: "课程总结", description: "适用于课堂、培训与系列课程的知识梳理。", instructions: "以学习者复习为目标，摘要概括课程主旨，主要议题按知识模块或教学顺序组织，关键结论提取定义、原理、方法和案例要点。只有讲者明确布置的练习或阅读才记为待办；不把教学示例误写为真实决策。" }
    } else if i == 4 {
        MinutesTemplate { id: RESEARCH_PROJECT_TEMPLATE_ID, version: BUILTIN_TEMPLATE_VERSION, display_name: "课题研究", description: "适用于课题研讨、研究进展汇报与方法论评审。", instructions: "围绕研究问题、背景、假设、方法、数据证据、阶段发现和局限组织议题。关键结论必须与转写中的证据强度一致，风险问题优先收录方法偏差、数据缺口和待验证假设。不把研究假设或相关性表述改写为已证实的因果结论。" }
    } else if i == 5 {
        MinutesTemplate { id: ACADEMIC_LECTURE_TEMPLATE_ID, version: BUILTIN_TEMPLATE_VERSION, display_name: "学术讲座", description: "适用于学术报告、主题演讲与专家问答。", instructions: "contentType 使用 lecture。摘要突出讲座主旨与学术价值，主要议题按理论背景、核心论点、证据或案例、局限与问答组织。区分讲者主张、引用他人观点和听众提问；未得到回答的问题纳入风险和问题，不补写缺失的文献、数据或结论。" }
    } else if i == 6 {
        MinutesTemplate { id: SPEECH_SUMMARY_TEMPLATE_ID, version: BUILTIN_TEMPLATE_VERSION, display_name: "演讲总结", description: "适用于主题演讲、分享、致辞与单人观点陈述。", instructions: "contentType 使用 speech。以听众快速回顾为目标，按演讲推进顺序组织主题脉络、核心观点、论据、案例和启发。讲者的观点不能改写为会议共识、决策或团队待办；除非原文明示真实执行承诺，否则 decisions 和 actionItems 必须为空。" }
    } else if i == 7 {
        MinutesTemplate { id: PROFILE_INTERVIEW_TEMPLATE_ID, version: BUILTIN_TEMPLATE_VERSION, display_name: "人物专访", description: "适用于人物故事、职业经历与观点型访谈。", instructions: "聚焦受访者的亲述经历、关键转折、价值观和代表性观点，主要议题可按时间线或人生主题组织。区分采访者问题与受访者回答；不根据语气推断性格、情绪或动机，不将个人回忆扩展为未核实的客观事实。" }
    } else if i == 8 {
        MinutesTemplate { id: IN_DEPTH_INTERVIEW_TEMPLATE_ID, version: BUILTIN_TEMPLATE_VERSION, display_name: "深度访谈", description: "适用于用户研究、定性调研与专业主题访谈。", instructions: "按研究主题归纳受访者的事实性描述、行为、需求、痛点、偏好和未解问题，保留重要条件与例外。关键结论只能是对本次访谈证据的概括；不将单一受访者观点泛化为整体人群结论，不把采访者的引导性提问当作受访者立场。" }
    } else if i == 9 {
        MinutesTemplate { id: BUSINESS_PLAN_TEMPLATE_ID, version: BUILTIN_TEMPLATE_VERSION, display_name: "商业计划书", description: "适用于商业构想讨论、创业项目路演与计划评审。", instructions: "以问题与机会、目标客户、价值主张、产品或服务、市场与竞争、商业模式、执行路径、资源需求和风险假设为关注重点组织议题。决策和待办仅收录明确确认的行动；不自行生成市场数据、财务预测、竞争对手信息或融资条款。" }
    } else if i == 10 {
        MinutesTemplate { id: ARTICLE_OUTLINE_TEMPLATE_ID, version: BUILTIN_TEMPLATE_VERSION, display_name: "文章大纲", description: "适用于将口述素材、选题讨论或内容会议整理成写作结构。", instructions: "将摘要作为文章主旨，将主要议题按逻辑递进关系组织为写作大纲，每个议题概括对应分节的核心论点、素材或案例。关键结论收录已明确的写作方向，待办只收明确约定的补充或编写任务；不补写转写中没有的论据或事实。" }
    } else {
        MinutesTemplate { id: ADAPTIVE_TEMPLATE_ID, version: BUILTIN_TEMPLATE_VERSION, display_name: "自适应模板", description: "由模型根据转写内容选择最合适的组织重点。", instructions: "先仅基于转写内容选择 contentType：多人协商、确认或任务协调才是 meeting；单人连续表达观点、主题分享或致辞是 speech；知识讲解按 lecture 或 course；问答主导是 interview；工作进展陈述但没有协商过程是 report；写作口述素材是 article_material；证据不足使用 other。不能因为出现‘我们’、多人声道或工作术语就判为会议。非会议内容按主题脉络组织 topics，把 conclusions 作为核心观点或知识点；不得把讲者观点、建议、案例和修辞句改成会议决策或团队待办，未出现明确执行承诺时 decisions 和 actionItems 必须为空。不得输出判断过程，不得编造转写和可信上下文中不存在的事实。" }
    }
}

/// The built-in template at position `i` of the stable order.
pub fn template_at(i: usize) -> (t: MinutesTemplate)
    requires
        i < TEMPLATE_COUNT,
    ensures
        t == builtin_template(i as int),
{
    if i == 0 {
        MinutesTemplate { id: STANDARD_MEETING_TEMPLATE_ID, version: BUILTIN_TEMPLATE_VERSION, display_name: "标准会议纪要", description: "适用于日常讨论、部门例会与一般协作会议。", instructions: "平衡概括摘要、主要议题、结论、已确认决策、明确待办和风险问题；按讨论顺序组织议题。一般讨论、建议和设想不能升级为决策或待办。" }
    } else if i == 1 {
        MinutesTemplate { id: PROJECT_WEEKLY_TEMPLATE_ID, version: BUILTIN_TEMPLATE_VERSION, display_name: "项目周会", description: "适用于项目进展同步、任务协调与风险跟踪。", instructions: "议题优先按项目或工作流归类，摘要强调原文报告的进展，风险问题强调阻塞、依赖和偏差，待办只收明确后续动作。不得推算完成率；目标日期不自动成为待办截止日期。" }
    } else if i == 2 {
        MinutesTemplate { id: CUSTOMER_COMMUNICATION_TEMPLATE_ID, version: BUILTIN_TEMPLATE_VERSION, display_name: "客户沟通", description: "适用于需求沟通、方案演示与商务澄清。", instructions: "聚焦客户明确表达的诉求、澄清和约束；决策只收双方明确确认事项，待办只收明确对外或客户动作，异议和待确认内容归为问题。客户建议不等于我方承诺，不推断客户情绪、身份或合同义务。" }
    } else if i == 3 {
        MinutesTemplate { id: COURSE_SUMMARY_TEMPLATE_ID, version: BUILTIN_TEMPLATE_VERSION, display_name: "课程总结", description: "适用于课堂、培训与系列课程的知识梳理。", instructions: "以学习者复习为目标，摘要概括课程主旨，主要议题按知识模块或教学顺序组织，关键结论提取定义、原理、方法和案例要点。只有讲者明确布置的练习或阅读才记为待办；不把教学示例误写为真实决策。" }
    } else if i == 4 {
        MinutesTemplate { id: RESEARCH_PROJECT_TEMPLATE_ID, version: BUILTIN_TEMPLATE_VERSION, display_name: "课题研究", description: "适用于课题研讨、研究进展汇报与方法论评审。", instructions: "围绕研究问题、背景、假设、方法、数据证据、阶段发现和局限组织议题。关键结论必须与转写中的证据强度一致，风险问题优先收录方法偏差、数据缺口和待验证假设。不把研究假设或相关性表述改写为已证实的因果结论。" }
    } else if i == 5 {
        MinutesTemplate { id: ACADEMIC_LECTURE_TEMPLATE_ID, version: BUILTIN_TEMPLATE_VERSION, display_name: "学术讲座", description: "适用于学术报告、主题演讲与专家问答。", instructions: "contentType 使用 lecture。摘要突出讲座主旨与学术价值，主要议题按理论背景、核心论点、证据或案例、局限与问答组织。区分讲者主张、引用他人观点和听众提问；未得到回答的问题纳入风险和问题，不补写缺失的文献、数据或结论。" }
    } else if i == 6 {
        MinutesTemplate { id: SPEECH_SUMMARY_TEMPLATE_ID, version: BUILTIN_TEMPLATE_VERSION, display_name: "演讲总结", description: "适用于主题演讲、分享、致辞与单人观点陈述。", instructions: "contentType 使用 speech。以听众快速回顾为目标，按演讲推进顺序组织主题脉络、核心观点、论据、案例和启发。讲者的观点不能改写为会议共识、决策或团队待办；除非原文明示真实执行承诺，否则 decisions 和 actionItems 必须为空。" }
    } else if i == 7 {
        MinutesTemplate { id: PROFILE_INTERVIEW_TEMPLATE_ID, version: BUILTIN_TEMPLATE_VERSION, display_name: "人物专访", description: "适用于人物故事、职业经历与观点型访谈。", instructions: "聚焦受访者的亲述经历、关键转折、价值观和代表性观点，主要议题可按时间线或人生主题组织。区分采访者问题与受访者回答；不根据语气推断性格、情绪或动机，不将个人回忆扩展为未核实的客观事实。" }
    } else if i == 8 {
        MinutesTemplate { id: IN_DEPTH_INTERVIEW_TEMPLATE_ID, version: BUILTIN_TEMPLATE_VERSION, display_name: "深度访谈", description: "适用于用户研究、定性调研与专业主题访谈。", instructions: "按研究主题归纳受访者的事实性描述、行为、需求、痛点、偏好和未解问题，保留重要条件与例外。关键结论只能是对本次访谈证据的概括；不将单一受访者观点泛化为整体人群结论，不把采访者的引导性提问当作受访者立场。" }
    } else if i == 9 {
        MinutesTemplate { id: BUSINESS_PLAN_TEMPLATE_ID, version: BUILTIN_TEMPLATE_VERSION, display_name: "商业计划书", description: "适用于商业构想讨论、创业项目路演与计划评审。", instructions: "以问题与机会、目标客户、价值主张、产品或服务、市场与竞争、商业模式、执行路径、资源需求和风险假设为关注重点组织议题。决策和待办仅收录明确确认的行动；不自行生成市场数据、财务预测、竞争对手信息或融资条款。" }
    } else if i == 10 {
        MinutesTemplate { id: ARTICLE_OUTLINE_TEMPLATE_ID, version: BUILTIN_TEMPLATE_VERSION, display_name: "文章大纲", description: "适用于将口述素材、选题讨论或内容会议整理成写作结构。", instructions: "将摘要作为文章主旨，将主要议题按逻辑递进关系组织为写作大纲，每个议题概括对应分节的核心论点、素材或案例。关键结论收录已明确的写作方向，待办只收明确约定的补充或编写任务；不补写转写中没有的论据或事实。" }
    } else {
        MinutesTemplate { id: ADAPTIVE_TEMPLATE_ID, version: BUILTIN_TEMPLATE_VERSION, display_name: "自适应模板", description: "由模型根据转写内容选择最合适的组织重点。", instructions: "先仅基于转写内容选择 contentType：多人协商、确认或任务协调才是 meeting；单人连续表达观点、主题分享或致辞是 speech；知识讲解按 lecture 或 course；问答主导是 interview；工作进展陈述但没有协商过程是 report；写作口述素材是 article_material；证据不足使用 other。不能因为出现‘我们’、多人声道或工作术语就判为会议。非会议内容按主题脉络组织 topics，把 conclusions 作为核心观点或知识点；不得把讲者观点、建议、案例和修辞句改成会议决策或团队待办，未出现明确执行承诺时 decisions 和 actionItems 必须为空。不得输出判断过程，不得编造转写和可信上下文中不存在的事实。" }
    }
}

/// Every built-in template, in the stable order.
pub fn list_templates() -> (r: Vec<MinutesTemplate>)
    ensures
        r@ == Seq::new(TEMPLATE_COUNT as nat, |i: int| builtin_template(i)),
{
    let mut r: Vec<MinutesTemplate> = Vec::new();
    let mut i: usize = 0;
    while i < TEMPLATE_COUNT
        invariant
            0 <= i <= TEMPLATE_COUNT,
            r@ == Seq::new(i as nat, |k: int| builtin_template(k)),
        decreases TEMPLATE_COUNT - i,
    {
        r.push(template_at(i));
        i = i + 1;
        proof {
            assert(r@ =~= Seq::new(i as nat, |k: int| builtin_template(k)));
        }
    }
    r
}

/// Whether `id` names a built-in template.
pub open spec fn is_builtin_id(id: Seq<char>) -> bool {
    exists|i: int| 0 <= i < TEMPLATE_COUNT && #[trigger] builtin_template(i).id@ == id
}

/// Resolves one built-in template by ID and version.
pub fn get_template(template_id: &str, template_version: &str) -> (r: Result<
    MinutesTemplate,
    MinutesError,
>)
    ensures
        match r {
            Ok(t) => {
                &&& exists|i: int| 0 <= i < TEMPLATE_COUNT && t == builtin_template(i)
                &&& t.id@ == template_id@
                &&& t.version@ == template_version@
            },
            Err(e) => {
                ||| (e == MinutesError::UnknownTemplate && !is_builtin_id(template_id@))
                ||| (e == MinutesError::TemplateVersionMismatch && is_builtin_id(template_id@)
                    && template_version@ != BUILTIN_TEMPLATE_VERSION@)
            },
        },
        r is Ok <==> (is_builtin_id(template_id@) && template_version@
            == BUILTIN_TEMPLATE_VERSION@),
{
    let mut i: usize = 0;
    while i < TEMPLATE_COUNT
        invariant
            0 <= i <= TEMPLATE_COUNT,
            forall|k: int| 0 <= k < i ==> builtin_template(k).id@ != template_id@,
        decreases TEMPLATE_COUNT - i,
    {
        let t = template_at(i);
        if str_eq(t.id, template_id) {
            if !str_eq(t.version, template_version) {
                return Err(MinutesError::TemplateVersionMismatch);
            }
            return Ok(t);
        }
        i = i + 1;
    }
    Err(MinutesError::UnknownTemplate)
}

/// The trusted content type of a manual template; none for the adaptive template.
pub open spec fn template_content_type(id: Seq<char>) -> Option<ContentType> {
    if id == STANDARD_MEETING_TEMPLATE_ID@ || id == PROJECT_WEEKLY_TEMPLATE_ID@ || id
        == CUSTOMER_COMMUNICATION_TEMPLATE_ID@ {
        Some(ContentType::Meeting)
    } else if id == COURSE_SUMMARY_TEMPLATE_ID@ {
        Some(ContentType::Course)
    } else if id == RESEARCH_PROJECT_TEMPLATE_ID@ || id == BUSINESS_PLAN_TEMPLATE_ID@ {
        Some(ContentType::Report)
    } else if id == ACADEMIC_LECTURE_TEMPLATE_ID@ {
        Some(ContentType::Lecture)
    } else if id == SPEECH_SUMMARY_TEMPLATE_ID@ {
        Some(ContentType::Speech)
    } else if id == PROFILE_INTERVIEW_TEMPLATE_ID@ || id == IN_DEPTH_INTERVIEW_TEMPLATE_ID@ {
        Some(ContentType::Interview)
    } else if id == ARTICLE_OUTLINE_TEMPLATE_ID@ {
        Some(ContentType::ArticleMaterial)
    } else {
        None
    }
}

/// Returns the trusted content type of a manual template; the adaptive template
/// lets the model classify the content.
pub fn content_type_for_template(template_id: &str) -> (r: Option<ContentType>)
    ensures
        r == template_content_type(template_id@),
{
    if str_eq(template_id, STANDARD_MEETING_TEMPLATE_ID) || str_eq(template_id, PROJECT_WEEKLY_TEMPLATE_ID)
        || str_eq(template_id, CUSTOMER_COMMUNICATION_TEMPLATE_ID) {
        Some(ContentType::Meeting)
    } else if str_eq(template_id, COURSE_SUMMARY_TEMPLATE_ID) {
        Some(ContentType::Course)
    } else if str_eq(template_id, RESEARCH_PROJECT_TEMPLATE_ID) || str_eq(template_id, BUSINESS_PLAN_TEMPLATE_ID) {
        Some(ContentType::Report)
    } else if str_eq(template_id, ACADEMIC_LECTURE_TEMPLATE_ID) {
        Some(ContentType::Lecture)
    } else if str_eq(template_id, SPEECH_SUMMARY_TEMPLATE_ID) {
        Some(ContentType::Speech)
    } else if str_eq(template_id, PROFILE_INTERVIEW_TEMPLATE_ID) || str_eq(template_id, IN_DEPTH_INTERVIEW_TEMPLATE_ID) {
        Some(ContentType::Interview)
    } else if str_eq(template_id, ARTICLE_OUTLINE_TEMPLATE_ID) {
        Some(ContentType::ArticleMaterial)
    } else {
        None
    }
}

/// Each manual template fixes its content type, and only the adaptive template (or an
/// unknown one) leaves the classification to the model.
pub proof fn law_template_fixes_content_type()
    ensures
        template_content_type(STANDARD_MEETING_TEMPLATE_ID@) == Some(ContentType::Meeting),
        template_content_type(PROJECT_WEEKLY_TEMPLATE_ID@) == Some(ContentType::Meeting),
        template_content_type(CUSTOMER_COMMUNICATION_TEMPLATE_ID@) == Some(ContentType::Meeting),
        template_content_type(COURSE_SUMMARY_TEMPLATE_ID@) == Some(ContentType::Course),
        template_content_type(RESEARCH_PROJECT_TEMPLATE_ID@) == Some(ContentType::Report),
        template_content_type(BUSINESS_PLAN_TEMPLATE_ID@) == Some(ContentType::Report),
        template_content_type(ACADEMIC_LECTURE_TEMPLATE_ID@) == Some(ContentType::Lecture),
        template_content_type(SPEECH_SUMMARY_TEMPLATE_ID@) == Some(ContentType::Speech),
        template_content_type(PROFILE_INTERVIEW_TEMPLATE_ID@) == Some(ContentType::Interview),
        template_content_type(IN_DEPTH_INTERVIEW_TEMPLATE_ID@) == Some(ContentType::Interview),
        template_content_type(ARTICLE_OUTLINE_TEMPLATE_ID@) == Some(ContentType::ArticleMaterial),
        template_content_type(ADAPTIVE_TEMPLATE_ID@) is None,
{
    reveal_strlit("standard_meeting");
    reveal_strlit("project_weekly");
    reveal_strlit("customer_communication");
    reveal_strlit("course_summary");
    reveal_strlit("research_project");
    reveal_strlit("academic_lecture");
    reveal_strlit("speech_summary");
    reveal_strlit("profile_interview");
    reveal_strlit("in_depth_interview");
    reveal_strlit("business_plan");
    reveal_strlit("article_outline");
    reveal_strlit("adaptive");
    assert(STANDARD_MEETING_TEMPLATE_ID@.len() == 16);
    assert(PROJECT_WEEKLY_TEMPLATE_ID@.len() == 14);
    assert(CUSTOMER_COMMUNICATION_TEMPLATE_ID@.len() == 22);
    assert(COURSE_SUMMARY_TEMPLATE_ID@.len() == 14);
    assert(RESEARCH_PROJECT_TEMPLATE_ID@.len() == 16);
    assert(ACADEMIC_LECTURE_TEMPLATE_ID@.len() == 16);
    assert(SPEECH_SUMMARY_TEMPLATE_ID@.len() == 14);
    assert(PROFILE_INTERVIEW_TEMPLATE_ID@.len() == 17);
    assert(IN_DEPTH_INTERVIEW_TEMPLATE_ID@.len() == 18);
    assert(BUSINESS_PLAN_TEMPLATE_ID@.len() == 13);
    assert(ARTICLE_OUTLINE_TEMPLATE_ID@.len() == 15);
    assert(ADAPTIVE_TEMPLATE_ID@.len() == 8);
    assert(COURSE_SUMMARY_TEMPLATE_ID@[0] != PROJECT_WEEKLY_TEMPLATE_ID@[0]);
    assert(SPEECH_SUMMARY_TEMPLATE_ID@[0] != PROJECT_WEEKLY_TEMPLATE_ID@[0]);
    assert(SPEECH_SUMMARY_TEMPLATE_ID@[0] != COURSE_SUMMARY_TEMPLATE_ID@[0]);
    assert(RESEARCH_PROJECT_TEMPLATE_ID@[0] != STANDARD_MEETING_TEMPLATE_ID@[0]);
    assert(ACADEMIC_LECTURE_TEMPLATE_ID@[0] != STANDARD_MEETING_TEMPLATE_ID@[0]);
    assert(ACADEMIC_LECTURE_TEMPLATE_ID@[0] != RESEARCH_PROJECT_TEMPLATE_ID@[0]);
}

/// Whether some built-in template has this ID and version.
pub open spec fn template_listed(id: Seq<char>, version: Seq<char>) -> bool {
    exists|i: int| 0 <= i < TEMPLATE_COUNT && #[trigger] builtin_template(i).id@ == id && builtin_template(i).version@ == version
}

/// The built-in templates have distinct IDs and all carry the built-in version, so a
/// lookup succeeds exactly for a built-in ID with that version, and then finds the one
/// template with that ID.
pub proof fn law_template_registry_is_keyed_by_id()
    ensures
        forall|i: int, j: int|
            0 <= i < TEMPLATE_COUNT && 0 <= j < TEMPLATE_COUNT && i != j ==> #[trigger] builtin_template(i).id@
                != #[trigger] builtin_template(j).id@,
        forall|i: int| 0 <= i < TEMPLATE_COUNT ==> #[trigger] builtin_template(i).version@ == BUILTIN_TEMPLATE_VERSION@,
        forall|id: Seq<char>, version: Seq<char>|
            #[trigger] template_listed(id, version) <==> (is_builtin_id(id) && version == BUILTIN_TEMPLATE_VERSION@),
{
    reveal_strlit("standard_meeting");
    reveal_strlit("project_weekly");
    reveal_strlit("customer_communication");
    reveal_strlit("course_summary");
    reveal_strlit("research_project");
    reveal_strlit("academic_lecture");
    reveal_strlit("speech_summary");
    reveal_strlit("profile_interview");
    reveal_strlit("in_depth_interview");
    reveal_strlit("business_plan");
    reveal_strlit("article_outline");
    reveal_strlit("adaptive");
    assert(STANDARD_MEETING_TEMPLATE_ID@.len() == 16);
    assert(PROJECT_WEEKLY_TEMPLATE_ID@.len() == 14);
    assert(CUSTOMER_COMMUNICATION_TEMPLATE_ID@.len() == 22);
    assert(COURSE_SUMMARY_TEMPLATE_ID@.len() == 14);
    assert(RESEARCH_PROJECT_TEMPLATE_ID@.len() == 16);
    assert(ACADEMIC_LECTURE_TEMPLATE_ID@.len() == 16);
    assert(SPEECH_SUMMARY_TEMPLATE_ID@.len() == 14);
    assert(PROFILE_INTERVIEW_TEMPLATE_ID@.len() == 17);
    assert(IN_DEPTH_INTERVIEW_TEMPLATE_ID@.len() == 18);
    assert(BUSINESS_PLAN_TEMPLATE_ID@.len() == 13);
    assert(ARTICLE_OUTLINE_TEMPLATE_ID@.len() == 15);
    assert(ADAPTIVE_TEMPLATE_ID@.len() == 8);
    assert(STANDARD_MEETING_TEMPLATE_ID@[0] != RESEARCH_PROJECT_TEMPLATE_ID@[0]);
    assert(STANDARD_MEETING_TEMPLATE_ID@[0] != ACADEMIC_LECTURE_TEMPLATE_ID@[0]);
    assert(RESEARCH_PROJECT_TEMPLATE_ID@[0] != ACADEMIC_LECTURE_TEMPLATE_ID@[0]);
    assert(PROJECT_WEEKLY_TEMPLATE_ID@[0] != COURSE_SUMMARY_TEMPLATE_ID@[0]);
    assert(PROJECT_WEEKLY_TEMPLATE_ID@[0] != SPEECH_SUMMARY_TEMPLATE_ID@[0]);
    assert(COURSE_SUMMARY_TEMPLATE_ID@[0] != SPEECH_SUMMARY_TEMPLATE_ID@[0]);
    assert forall|i: int, j: int|
        0 <= i < TEMPLATE_COUNT && 0 <= j < TEMPLATE_COUNT && i != j implies #[trigger] builtin_template(i).id@
            != #[trigger] builtin_template(j).id@ by {}
    assert forall|i: int| 0 <= i < TEMPLATE_COUNT implies #[trigger] builtin_template(i).version@
        == BUILTIN_TEMPLATE_VERSION@ by {}
}

} // verus!
