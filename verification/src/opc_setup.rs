use vstd::prelude::*;
use crate::text::{lines, push_str, starts_with, string_of, trim};

verus! {

/// A company role: its id, name, description, system prompt and limits.
#[derive(Debug)]
pub struct OpcRoleDef {
    pub id: &'static str,
    pub name: &'static str,
    pub description: &'static str,
    pub system_prompt: &'static str,
    pub max_concurrent: i32,
    pub timeout_seconds: i64,
}

/// System prompt of the `ceo` role.
pub const CEO_SYSTEM_PROMPT: &'static str = "你是 OPC 一人公司的 CEO/创始人。负责公司战略方向、业务决策和资源调配。\
        \n\n核心原则：\
        \n1. 数据驱动决策 — 所有重大决策必须基于 OpcGetDashboard 等工具获取的实际数据\
        \n2. 授权优先于执行 — 技术问题委托给 CTO，财务问题委托给 CFO\
        \n3. 现金流是生命线 — 时刻关注待收账款和付款期限\
        \n4. 每周复盘 — 检查关键指标：收入、客户、项目、KPI\
        \n5. 风险意识 — 识别单点故障，建立备份方案\
        \n\n输出格式：中文经营报告，包含全景概览、关键发现、决策事项和委托事项。";

/// System prompt of the `cto` role.
pub const CTO_SYSTEM_PROMPT: &'static str = "你是 OPC 一人公司的 CTO/技术负责人。负责技术决策和工程效率。\
        \n\n核心原则：\
        \n1. 先验证再投资 — 超过3天工作量的必须先做原型验证\
        \n2. 复用优于自建 — 优先选成熟方案，不重复造轮子\
        \n3. 一人公司约束 — 选技术栈时考虑一个人能否维护\
        \n4. AI优先 — 能用AI自动化的绝不手工做\
        \n\n输出格式：技术方案或项目报告，含可行性评估和实施计划。";

/// System prompt of the `cfo` role.
pub const CFO_SYSTEM_PROMPT: &'static str = "你是 OPC 一人公司的 CFO/财务负责人。负责现金管理和财务决策。\
        \n\n核心原则：\
        \n1. 收款优先 — 逾期7天启动催收\
        \n2. 每月财报 — 每月生成财务报表分析趋势\
        \n3. 税务预留 — 每笔收入预留15-25%用于税务\
        \n4. 现金流预测 — 维持3个月运营资金\
        \n5. 可投资利润 — 净利润50%可用于再投资\
        \n\n输出格式：财务报告和分析。";

/// System prompt of the `coo` role.
pub const COO_SYSTEM_PROMPT: &'static str = "你是 OPC 一人公司的 COO/运营负责人。确保运营高效、客户满意。\
        \n\n核心原则：\
        \n1. 项目设里程碑 — 至少3个里程碑，定期检查\
        \n2. 客户活跃度 — 关注客户状态变化\
        \n3. 运营效率 — 识别重复工作并自动化\
        \n\n输出格式：运营报告。";

/// System prompt of the `cmo` role.
pub const CMO_SYSTEM_PROMPT: &'static str = "你是 OPC 一人公司的 CMO/增长负责人。专注于获客和内容营销。\
        \n\n核心原则：\
        \n1. 内容即渠道 — 每篇内容都是获客渠道\
        \n2. 来源追踪 — 记录客户来源分析ROI\
        \n3. 持续输出 — 每周至少一篇博客\
        \n\n输出格式：营销分析报告。";

/// System prompt of the `cpo` role.
pub const CPO_SYSTEM_PROMPT: &'static str = "你是 OPC 一人公司的 CPO/产品负责人。确保产品方向和交付质量。\
        \n\n核心原则：\
        \n1. 用户反馈驱动 — 产品决策基于反馈和数据\
        \n2. 最小可用优先 — MVP后迭代\
        \n3. 交付质量 — 稳定运行才是交付\
        \n\n输出格式：产品方案和规划文档。";

/// System prompt of the `opc_financial_clerk` role.
pub const OPC_FINANCIAL_CLERK_SYSTEM_PROMPT: &'static str = "你是 OPC 一人公司的财务专员。负责日常财务执行工作。\
        \n\n核心职责：\
        \n1. 发票管理 — 使用 OpcCreateInvoice/OpcTransitionInvoice 创建和流转发票\
        \n2. 收款跟踪 — 监控发票状态，对逾期款项执行催收\
        \n3. 数据准确 — 金额、客户、行项目必须核对无误\
        \n4. 流程合规 — 按既定审批流程执行，不越权\
        \n\n输出格式：简洁的执行报告，含操作结果和下一步建议。";

/// System prompt of the `opc_operations_manager` role.
pub const OPC_OPERATIONS_MANAGER_SYSTEM_PROMPT: &'static str = "你是 OPC 一人公司的运营经理。负责运营执行和项目交付。\
        \n\n核心职责：\
        \n1. 项目管理 — 使用 OpcCreateProject/OpcAddMilestone 创建和跟踪项目\
        \n2. 里程碑管控 — 定期检查里程碑完成情况，识别风险\
        \n3. 资源配置 — 合理分配时间和精力，避免单点瓶颈\
        \n4. 客户对接 — 维护客户状态，及时同步进度\
        \n\n输出格式：执行报告，含进度、风险、下一步行动。";

/// System prompt of the `opc_sales_rep` role.
pub const OPC_SALES_REP_SYSTEM_PROMPT: &'static str = "你是 OPC 一人公司的销售代表。负责销售执行和客户关系。\
        \n\n核心职责：\
        \n1. 客户开发 — 使用 OpcCreateCustomer 创建客户记录，记录来源和画像\
        \n2. 线索跟进 — 及时响应客户需求，推进销售流程\
        \n3. 关系维护 — 定期回访，保持客户活跃度\
        \n4. 来源追踪 — 准确记录客户来源以分析 ROI\
        \n\n输出格式：销售执行报告，含客户状态、跟进动作、转化情况。";

/// System prompt of the `opc_business_analyst` role.
pub const OPC_BUSINESS_ANALYST_SYSTEM_PROMPT: &'static str = "你是 OPC 一人公司的业务分析师。负责数据分析和决策支持。\
        \n\n核心职责：\
        \n1. 数据收集 — 使用 OpcGetDashboard/OpcListInvoices 等工具获取完整数据\
        \n2. 指标分析 — 收入趋势、客户增长、项目成功率、KPI 异常\
        \n3. 洞察提取 — 从数据中发现机会和风险，给出可执行建议\
        \n4. 报告输出 — 结构化报告：摘要、数据、分析、建议\
        \n\n输出格式：分析报告，含数据表、趋势图描述、改进建议。";

/// System prompt of the `ai_researcher` role.
pub const AI_RESEARCHER_SYSTEM_PROMPT: &'static str = "你是 OPC 的 AI 研究分析师，负责 AI 技术调研、模型评测和研究报告输出。\
        \n\n核心原则：\
        \n1. 数据驱动 — 所有结论必须基于真实数据和 benchmark 结果\
        \n2. 来源可信 — 优先引用顶级会议和权威来源\
        \n3. 结构清晰 — 输出结构化报告，结论先行\
        \n4. 可执行建议 — 给出具体可操作的后续步骤\
        \n\n输出格式：结构化研究报告，含数据、分析、结论和建议。";

/// The role with these fields.
pub open spec fn role_def(
    id: &'static str,
    name: &'static str,
    description: &'static str,
    system_prompt: &'static str,
    max_concurrent: i32,
    timeout_seconds: i64,
) -> OpcRoleDef {
    OpcRoleDef { id, name, description, system_prompt, max_concurrent, timeout_seconds }
}

/// The six core company roles (CEO, CTO, CFO, COO, CMO, CPO).
pub fn opc_roles() -> (r: Vec<OpcRoleDef>)
    ensures
        r@ == seq![
            role_def("ceo", "CEO/创始人", "一人公司全面经营决策", CEO_SYSTEM_PROMPT, 3, 600),
            role_def("cto", "CTO/技术负责人", "技术架构与AI应用", CTO_SYSTEM_PROMPT, 2, 600),
            role_def("cfo", "CFO/财务负责人", "财务管理与投资分析", CFO_SYSTEM_PROMPT, 2, 600),
            role_def("coo", "COO/运营负责人", "运营管理与客户服务", COO_SYSTEM_PROMPT, 2, 600),
            role_def("cmo", "CMO/增长负责人", "市场营销与客户增长", CMO_SYSTEM_PROMPT, 2, 600),
            role_def("cpo", "CPO/产品负责人", "产品规划与用户体验", CPO_SYSTEM_PROMPT, 2, 600),
        ],
{
    vec![
    OpcRoleDef {
        id: "ceo",
        name: "CEO/创始人",
        description: "一人公司全面经营决策",
        system_prompt: CEO_SYSTEM_PROMPT,
        max_concurrent: 3,
        timeout_seconds: 600,
    },
    OpcRoleDef {
        id: "cto",
        name: "CTO/技术负责人",
        description: "技术架构与AI应用",
        system_prompt: CTO_SYSTEM_PROMPT,
        max_concurrent: 2,
        timeout_seconds: 600,
    },
    OpcRoleDef {
        id: "cfo",
        name: "CFO/财务负责人",
        description: "财务管理与投资分析",
        system_prompt: CFO_SYSTEM_PROMPT,
        max_concurrent: 2,
        timeout_seconds: 600,
    },
    OpcRoleDef {
        id: "coo",
        name: "COO/运营负责人",
        description: "运营管理与客户服务",
        system_prompt: COO_SYSTEM_PROMPT,
        max_concurrent: 2,
        timeout_seconds: 600,
    },
    OpcRoleDef {
        id: "cmo",
        name: "CMO/增长负责人",
        description: "市场营销与客户增长",
        system_prompt: CMO_SYSTEM_PROMPT,
        max_concurrent: 2,
        timeout_seconds: 600,
    },
    OpcRoleDef {
        id: "cpo",
        name: "CPO/产品负责人",
        description: "产品规划与用户体验",
        system_prompt: CPO_SYSTEM_PROMPT,
        max_concurrent: 2,
        timeout_seconds: 600,
    }
    ]
}

/// The four business roles workflow steps are executed as.
pub fn opc_business_roles() -> (r: Vec<OpcRoleDef>)
    ensures
        r@ == seq![
            role_def("opc_financial_clerk", "OPC 财务专员", "一人公司财务执行——发票管理、收款跟踪、催款执行", OPC_FINANCIAL_CLERK_SYSTEM_PROMPT, 3, 300),
            role_def("opc_operations_manager", "OPC 运营经理", "一人公司运营执行——项目管理、里程碑跟踪、资源配置", OPC_OPERATIONS_MANAGER_SYSTEM_PROMPT, 3, 300),
            role_def("opc_sales_rep", "OPC 销售代表", "一人公司销售执行——客户获取、线索跟进、关系维护", OPC_SALES_REP_SYSTEM_PROMPT, 3, 300),
            role_def("opc_business_analyst", "OPC 业务分析师", "一人公司数据分析——收入趋势、客户增长、运营报告", OPC_BUSINESS_ANALYST_SYSTEM_PROMPT, 3, 300),
        ],
{
    vec![
    OpcRoleDef {
        id: "opc_financial_clerk",
        name: "OPC 财务专员",
        description: "一人公司财务执行——发票管理、收款跟踪、催款执行",
        system_prompt: OPC_FINANCIAL_CLERK_SYSTEM_PROMPT,
        max_concurrent: 3,
        timeout_seconds: 300,
    },
    OpcRoleDef {
        id: "opc_operations_manager",
        name: "OPC 运营经理",
        description: "一人公司运营执行——项目管理、里程碑跟踪、资源配置",
        system_prompt: OPC_OPERATIONS_MANAGER_SYSTEM_PROMPT,
        max_concurrent: 3,
        timeout_seconds: 300,
    },
    OpcRoleDef {
        id: "opc_sales_rep",
        name: "OPC 销售代表",
        description: "一人公司销售执行——客户获取、线索跟进、关系维护",
        system_prompt: OPC_SALES_REP_SYSTEM_PROMPT,
        max_concurrent: 3,
        timeout_seconds: 300,
    },
    OpcRoleDef {
        id: "opc_business_analyst",
        name: "OPC 业务分析师",
        description: "一人公司数据分析——收入趋势、客户增长、运营报告",
        system_prompt: OPC_BUSINESS_ANALYST_SYSTEM_PROMPT,
        max_concurrent: 3,
        timeout_seconds: 300,
    }
    ]
}

/// Roles specific to one industry.
pub fn industry_roles() -> (r: Vec<OpcRoleDef>)
    ensures
        r@ == seq![
            role_def(
                "ai_researcher",
                "AI 研究分析师",
                "AI 技术调研、模型评测、报告输出",
                AI_RESEARCHER_SYSTEM_PROMPT,
                2,
                600,
            ),
        ],
{
    vec![OpcRoleDef {
    id: "ai_researcher",
    name: "AI 研究分析师",
    description: "AI 技术调研、模型评测、报告输出",
    system_prompt: AI_RESEARCHER_SYSTEM_PROMPT,
    max_concurrent: 2,
    timeout_seconds: 600,
}
    ]
}

/// The first line of `ls` that starts with "domain:", if any.
pub open spec fn first_domain_line(ls: Seq<Seq<char>>) -> Option<Seq<char>>
    decreases ls.len(),
{
    if ls.len() == 0 {
        None
    } else if starts_with(ls[0], "domain:"@) {
        Some(ls[0])
    } else {
        first_domain_line(ls.drop_first())
    }
}

/// The domain an expert document declares on its first "domain:" line
/// (the rest of that line, trimmed); empty when it declares none.
pub open spec fn declared_domain(content: Seq<char>) -> Seq<char> {
    match first_domain_line(lines(content)) {
        Some(l) => trim(l.skip(7)),
        None => seq![],
    }
}

/// Reads the domain an expert document declares (see `declared_domain`).
pub fn expert_domain(content: &str) -> (r: String)
    ensures
        r@ == declared_domain(content@),
{
    let v = crate::text::chars_of(content);
    let rs = crate::text::line_ranges(&v);
    let ghost ls = crate::text::cut(v@, rs@);
    let key: Vec<char> = vec!['d', 'o', 'm', 'a', 'i', 'n', ':'];
    proof {
        reveal_strlit("domain:");
        assert(key@ =~= "domain:"@);
        assert(ls.skip(0) =~= ls);
        assert(key@.len() == 7);
    }
    let mut k: usize = 0;
    while k < rs.len()
        invariant
            k <= rs.len(),
            ls == crate::text::cut(v@, rs@),
            ls == lines(content@),
            crate::text::ranges_within(v@, rs@),
            key@ == "domain:"@,
            key@.len() == 7,
            first_domain_line(ls) == first_domain_line(ls.skip(k as int)),
        decreases rs.len() - k,
    {
        let (lo, hi) = rs[k];
        assert(rs@[k as int].0 <= rs@[k as int].1 && rs@[k as int].1 <= v.len());
        assert(ls[k as int] == v@.subrange(lo as int, hi as int));
        assert(ls.skip(k as int)[0] == ls[k as int]);
        if crate::text::range_starts_with(&v, lo, hi, &key) {
            let a = crate::text::ltrim_index(&v, lo + 7, hi);
            let b = crate::text::rtrim_index(&v, a, hi);
            assert(v@.subrange(lo as int, hi as int).skip(7) =~= v@.subrange(lo + 7, hi as int));
            assert(first_domain_line(ls.skip(k as int)) == Some(ls[k as int]));
            return crate::text::string_from_range(&v, a, b);
        }
        assert(ls.skip(k as int).drop_first() =~= ls.skip(k + 1));
        k = k + 1;
    }
    assert(ls.skip(rs.len() as int) =~= Seq::<Seq<char>>::empty());
    String::new()
}

/// Id of an embedded expert: `opc-{key}`.
pub fn expert_id(key: &str) -> (r: String)
    ensures
        r@ == "opc-"@ + key@,
{
    let mut r = string_of("opc-");
    push_str(&mut r, key);
    r
}

/// Id of the profile that binds `expert_key` to role `role_id`:
/// `opc-{role}-{expert}`.
pub fn role_profile_id(role_id: &str, expert_key: &str) -> (r: String)
    ensures
        r@ == "opc-"@ + role_id@ + "-"@ + expert_key@,
{
    let mut r = string_of("opc-");
    push_str(&mut r, role_id);
    push_str(&mut r, "-");
    push_str(&mut r, expert_key);
    r
}

/// Id of the profile made for an imported expert: `exp-{source_dir}-{id}`.
pub fn bulk_profile_id(source_dir: &str, expert_id: &str) -> (r: String)
    ensures
        r@ == "exp-"@ + source_dir@ + "-"@ + expert_id@,
{
    let mut r = string_of("exp-");
    push_str(&mut r, source_dir);
    push_str(&mut r, "-");
    push_str(&mut r, expert_id);
    r
}

/// Description of an embedded expert: `OPC {name} — {domain} 领域`.
pub fn expert_description(name: &str, domain: &str) -> (r: String)
    ensures
        r@ == "OPC "@ + name@ + " — "@ + domain@ + " 领域"@,
{
    let mut r = string_of("OPC ");
    push_str(&mut r, name);
    push_str(&mut r, " — ");
    push_str(&mut r, domain);
    push_str(&mut r, " 领域");
    r
}

/// Name of a role profile: `🏢 {display name}`.
pub fn role_profile_name(display_name: &str) -> (r: String)
    ensures
        r@ == "🏢 "@ + display_name@,
{
    let mut r = string_of("🏢 ");
    push_str(&mut r, display_name);
    r
}

/// Description of a role profile: `OPC {display name} — 角色绑定 {role}`.
pub fn role_profile_description(display_name: &str, role_id: &str) -> (r: String)
    ensures
        r@ == "OPC "@ + display_name@ + " — 角色绑定 "@ + role_id@,
{
    let mut r = string_of("OPC ");
    push_str(&mut r, display_name);
    push_str(&mut r, " — 角色绑定 ");
    push_str(&mut r, role_id);
    r
}

/// The embedded core experts: key and display name.
pub fn embedded_experts() -> (r: Vec<(&'static str, &'static str)>)
    ensures
        r@ == seq![
            ("ceo-business-strategist", "CEO/创始人"),
            ("cto-ai-engineer", "CTO/技术负责人"),
            ("cfo-financial-analyst", "CFO/财务负责人"),
            ("coo-operations-manager", "COO/运营负责人"),
            ("cmo-content-strategist", "CMO/增长负责人"),
            ("cpo-product-manager", "CPO/产品负责人"),
        ],
{
    vec![
        ("ceo-business-strategist", "CEO/创始人"),
        ("cto-ai-engineer", "CTO/技术负责人"),
        ("cfo-financial-analyst", "CFO/财务负责人"),
        ("coo-operations-manager", "COO/运营负责人"),
        ("cmo-content-strategist", "CMO/增长负责人"),
        ("cpo-product-manager", "CPO/产品负责人"),
    ]
}

/// Which role each embedded expert is bound to.
pub fn expert_role_map() -> (r: Vec<(&'static str, &'static str)>)
    ensures
        r@ == seq![
            ("ceo-business-strategist", "ceo"),
            ("cto-ai-engineer", "cto"),
            ("cfo-financial-analyst", "cfo"),
            ("coo-operations-manager", "coo"),
            ("cmo-content-strategist", "cmo"),
            ("cpo-product-manager", "cpo"),
        ],
{
    vec![
        ("ceo-business-strategist", "ceo"),
        ("cto-ai-engineer", "cto"),
        ("cfo-financial-analyst", "cfo"),
        ("coo-operations-manager", "coo"),
        ("cmo-content-strategist", "cmo"),
        ("cpo-product-manager", "cpo"),
    ]
}

/// The display name of expert `key`: its name in `table`, or the key itself.
pub fn expert_display_name(table: &Vec<(&'static str, &'static str)>, key: &str) -> (r: String)
    ensures
        (exists|i: int| 0 <= i < table.len() && table@[i].0@ == key@) ==> (exists|i: int|
            0 <= i < table.len() && table@[i].0@ == key@ && r@ == table@[i].1@ && forall|j: int|
                0 <= j < i ==> table@[j].0@ != key@),
        !(exists|i: int| 0 <= i < table.len() && table@[i].0@ == key@) ==> r@ == key@,
{
    let mut i: usize = 0;
    while i < table.len()
        invariant
            i <= table.len(),
            forall|j: int| 0 <= j < i ==> table@[j].0@ != key@,
        decreases table.len() - i,
    {
        if crate::text::str_eq(table[i].0, key) {
            return string_of(table[i].1);
        }
        i = i + 1;
    }
    string_of(key)
}

/// The tools each embedded expert's profile recommends.
pub fn profile_tools() -> (r: Vec<(&'static str, Vec<&'static str>)>)
    ensures
        r.len() == 6,
        r@[0].0 == "ceo-business-strategist",
        r@[0].1@ == seq!["OpcGetDashboard", "OpcGetFinancialReport", "OpcListKpis", "OpcListInvoices", "OpcListCustomers", "OpcListProjects", "OpcSearchWiki"],
        r@[1].0 == "cto-ai-engineer",
        r@[1].1@ == seq!["OpcListProjects", "OpcCreateProject", "OpcAddMilestone", "OpcListKpis", "OpcRecordKpi", "OpcSearchWiki", "OpcSendNotification"],
        r@[2].0 == "cfo-financial-analyst",
        r@[2].1@ == seq!["OpcListInvoices", "OpcCreateInvoice", "OpcTransitionInvoice", "OpcListCustomers", "OpcGetDashboard", "OpcGetFinancialReport", "OpcRecordKpi", "OpcListKpis", "OpcSendNotification", "OpcSearchWiki"],
        r@[3].0 == "coo-operations-manager",
        r@[3].1@ == seq!["OpcListProjects", "OpcCreateProject", "OpcAddMilestone", "OpcListCustomers", "OpcCreateCustomer", "OpcListInvoices", "OpcGetDashboard", "OpcSendNotification", "OpcSearchWiki"],
        r@[4].0 == "cmo-content-strategist",
        r@[4].1@ == seq!["OpcListCustomers", "OpcCreateCustomer", "OpcListBlogPosts", "OpcCreateLandingPage", "OpcListLandingPages", "OpcGetDashboard", "OpcSendNotification", "OpcSearchWiki"],
        r@[5].0 == "cpo-product-manager",
        r@[5].1@ == seq!["OpcListProjects", "OpcCreateProject", "OpcAddMilestone", "OpcListLandingPages", "OpcCreateLandingPage", "OpcListCustomers", "OpcSearchWiki"],
{
    vec![
        ("ceo-business-strategist", vec![
            "OpcGetDashboard",
            "OpcGetFinancialReport",
            "OpcListKpis",
            "OpcListInvoices",
            "OpcListCustomers",
            "OpcListProjects",
            "OpcSearchWiki",
        ]),
        ("cto-ai-engineer", vec![
            "OpcListProjects",
            "OpcCreateProject",
            "OpcAddMilestone",
            "OpcListKpis",
            "OpcRecordKpi",
            "OpcSearchWiki",
            "OpcSendNotification",
        ]),
        ("cfo-financial-analyst", vec![
            "OpcListInvoices",
            "OpcCreateInvoice",
            "OpcTransitionInvoice",
            "OpcListCustomers",
            "OpcGetDashboard",
            "OpcGetFinancialReport",
            "OpcRecordKpi",
            "OpcListKpis",
            "OpcSendNotification",
            "OpcSearchWiki",
        ]),
        ("coo-operations-manager", vec![
            "OpcListProjects",
            "OpcCreateProject",
            "OpcAddMilestone",
            "OpcListCustomers",
            "OpcCreateCustomer",
            "OpcListInvoices",
            "OpcGetDashboard",
            "OpcSendNotification",
            "OpcSearchWiki",
        ]),
        ("cmo-content-strategist", vec![
            "OpcListCustomers",
            "OpcCreateCustomer",
            "OpcListBlogPosts",
            "OpcCreateLandingPage",
            "OpcListLandingPages",
            "OpcGetDashboard",
            "OpcSendNotification",
            "OpcSearchWiki",
        ]),
        ("cpo-product-manager", vec![
            "OpcListProjects",
            "OpcCreateProject",
            "OpcAddMilestone",
            "OpcListLandingPages",
            "OpcCreateLandingPage",
            "OpcListCustomers",
            "OpcSearchWiki",
        ]),
    ]
}

/// The tools listed for expert `key` in `table` (the first entry with that
/// key), if it has an entry.
pub fn tools_for_expert(table: &Vec<(&'static str, Vec<&'static str>)>, key: &str) -> (r: Option<
    Vec<&'static str>,
>)
    ensures
        match r {
            Some(ts) => exists|i: int|
                0 <= i < table.len() && table@[i].0@ == key@ && ts@ == table@[i].1@ && forall|j: int|
                    0 <= j < i ==> table@[j].0@ != key@,
            None => forall|i: int| 0 <= i < table.len() ==> table@[i].0@ != key@,
        },
{
    let mut i: usize = 0;
    while i < table.len()
        invariant
            i <= table.len(),
            forall|j: int| 0 <= j < i ==> table@[j].0@ != key@,
        decreases table.len() - i,
    {
        if crate::text::str_eq(table[i].0, key) {
            let ts = copy_strs(&table[i].1);
            return Some(ts);
        }
        i = i + 1;
    }
    None
}

fn copy_strs(v: &Vec<&'static str>) -> (r: Vec<&'static str>)
    ensures
        r@ == v@,
{
    let mut r: Vec<&'static str> = Vec::new();
    let mut i: usize = 0;
    while i < v.len()
        invariant
            i <= v.len(),
            r@ == v@.take(i as int),
        decreases v.len() - i,
    {
        r.push(v[i]);
        assert(v@.take(i + 1) =~= v@.take(i as int).push(v@[i as int]));
        i = i + 1;
    }
    assert(v@.take(v.len() as int) =~= v@);
    r
}

/// The action seeding the demand-discovery template takes.
#[derive(Debug)]
pub enum TemplateSeedAction {
    /// Nothing stored yet: write the template.
    Create,
    /// The stored template is current: keep it (and the user's edits).
    Keep,
    /// The stored template is older: snapshot it under this version id,
    /// then replace it.
    Upgrade(String),
}

/// Id of the demand-discovery template.
pub const DEMAND_TEMPLATE_ID: &'static str = "opc-demand-discovery";

/// Current version of the demand-discovery template.
pub const DEMAND_TEMPLATE_VERSION: i32 = 3;

/// The decimal text of a signed number.
pub open spec fn signed_decimal(v: int) -> Seq<char> {
    if v < 0 {
        "-"@ + crate::text::decimal((-v) as nat)
    } else {
        crate::text::decimal(v as nat)
    }
}

/// Decides how to seed the demand-discovery template given the version
/// stored, if any.
pub fn demand_template_action(existing: Option<i32>) -> (a: TemplateSeedAction)
    ensures
        match existing {
            None => a is Create,
            Some(v) => if v >= DEMAND_TEMPLATE_VERSION {
                a is Keep
            } else {
                a matches TemplateSeedAction::Upgrade(id) && id@ == DEMAND_TEMPLATE_ID@ + "_v"@
                    + signed_decimal(v as int)
            },
        },
{
    match existing {
        None => TemplateSeedAction::Create,
        Some(v) => {
            if v >= DEMAND_TEMPLATE_VERSION {
                TemplateSeedAction::Keep
            } else {
                let mut id = string_of(DEMAND_TEMPLATE_ID);
                push_str(&mut id, "_v");
                if v < 0 {
                    push_str(&mut id, "-");
                    let m: i64 = -(v as i64);
                    crate::text::push_decimal(&mut id, m as u64);
                } else {
                    crate::text::push_decimal(&mut id, v as u64);
                }
                TemplateSeedAction::Upgrade(id)
            }
        },
    }
}

/// The variables (JSON text) to write in place of the new template's own
/// starting values, given the seeding action and the variables of the
/// stored template: on an upgrade the stored ones, so the values the user
/// set survive; when the template is created, none (its own are written).
pub fn demand_variables_to_keep(action: &TemplateSeedAction, stored: Option<String>) -> (r: Option<String>)
    ensures
        match action {
            TemplateSeedAction::Upgrade(_) => crate::workflow::opt_view(r) == crate::workflow::opt_view(stored),
            _ => r is None,
        },
{
    match action {
        TemplateSeedAction::Upgrade(_) => stored,
        _ => None,
    }
}

/// The tools line appended to an agent's prompt: empty when it has no
/// tools, else the tool names joined with "、".
pub open spec fn tool_prompt_text(names: Seq<Seq<char>>) -> Seq<char> {
    if names.len() == 0 {
        seq![]
    } else {
        "\n\n你可以调用以下工具获取最新数据："@ + crate::text::join_with(names, "、"@)
            + "。请先调用相关工具获取数据，再基于返回结果进行分析。"@
    }
}

/// Builds the tools line of an agent's prompt (see `tool_prompt_text`).
pub fn tool_prompt(names: &Vec<String>) -> (r: String)
    ensures
        r@ == tool_prompt_text(crate::workflow::seq_view(names@)),
{
    if names.len() == 0 {
        return String::new();
    }
    let mut r = string_of("\n\n你可以调用以下工具获取最新数据：");
    let j = crate::text::join_strings(names, "、");
    push_str(&mut r, j.as_str());
    push_str(&mut r, "。请先调用相关工具获取数据，再基于返回结果进行分析。");
    r
}

} // verus!
