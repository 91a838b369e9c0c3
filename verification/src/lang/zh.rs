//! Chinese messages.
use vstd::prelude::*;
use crate::lang::Dict;

verus! {

pub const USAGE_LABEL: &'static str = "用法：";
pub const USAGE_INTERACTIVE: &'static str = "  {0} <根目录>          启动交互式产品模拟器菜单";
pub const USAGE_LIST: &'static str = "  {0} --list <根目录>   解析并打印所有产品定义";
pub const USAGE_LANG: &'static str = "  {0} --lang <语言代码> <根目录>   设置界面语言 (en, es, zh, de, ru, fr)";
pub const NO_TXT_FILES: &'static str = "在 '{0}' 中未找到 .txt 文件";
pub const CANNOT_READ_FILE: &'static str = "{0}: 无法读取文件: {1}";
pub const FILE_COLON_MSG: &'static str = "{0}: {1}";
pub const PARSED_PRODUCTS_HEADER: &'static str = "=== 已解析的产品（{0} 个有效）===";
pub const NO_VALID_PRODUCTS: &'static str = "(未找到有效产品)";
pub const FILE_LABEL: &'static str = "文件: {0}";
pub const NOT_A_DIRECTORY: &'static str = "错误：'{0}' 不是目录";
pub const UNKNOWN_LANG: &'static str = "错误：未知的语言代码 '{0}'（支持：en, es, zh, de, ru, fr）";
pub const COST_DISPLAY: &'static str = "- {0} {1} {2}";
pub const PRODUCT_LABEL: &'static str = "产品: {0}";
pub const SALE_PRICE_LABEL: &'static str = "  售价:     {0} {1}";
pub const PRODUCTION_TIME_LABEL: &'static str = "  生产时间: {0} {1}";
pub const COSTS_HEADER: &'static str = "  成本 ({0}):";
pub const NO_COSTS: &'static str = "    (无)";
pub const TIME_MINS: &'static str = "分钟";
pub const TIME_HOURS: &'static str = "小时";
pub const ERR_DUPLICATE_PRODUCT_LINE: &'static str = "第 {0} 行：重复的产品定义行";
pub const ERR_LINE_PREFIX: &'static str = "第 {0} 行：{1}";
pub const ERR_UNEXPECTED_LINE: &'static str = "第 {0} 行：意外的行，每行必须以 '+' 或 '-' 开头";
pub const ERR_MISSING_PRODUCT_LINE: &'static str = "缺少产品定义行（以 '+' 开头的行）";
pub const ERR_PRODUCT_SECTIONS: &'static str = "产品行必须包含恰好 3 个以冒号分隔的部分，找到 {0} 个";
pub const ERR_PRODUCT_PLUS: &'static str = "产品行必须以 '+' 开头";
pub const ERR_EMPTY_PRODUCT_NAME: &'static str = "产品名称为空";
pub const ERR_SALE_SECTION: &'static str = "销售部分必须是 '<价格> <货币>'，找到 {0} 个标记";
pub const ERR_INVALID_SALE_PRICE: &'static str = "无效的售价 '{0}'";
pub const ERR_INVALID_SALE_CURRENCY: &'static str = "无效的售出货币 '{0}'：必须是3字母 ISO 4217代码（如 USD、EUR、GBP、JPY）";
pub const ERR_TIME_SECTION: &'static str = "生产时间部分必须是 '<时间> <单位>'，找到 {0} 个标记";
pub const ERR_INVALID_PROD_TIME: &'static str = "无效的生产时间 '{0}'";
pub const ERR_INVALID_TIME_UNIT: &'static str = "无效的生产时间单位 '{0}'：必须是 mins 或 hours";
pub const ERR_COST_MINUS: &'static str = "成本行必须以 '-' 开头";
pub const ERR_COST_TOKENS: &'static str = "成本行必须是 '<价格> <货币> <描述>'，找到 {0} 个标记";
pub const ERR_INVALID_COST_PRICE: &'static str = "无效的成本价格 '{0}'";
pub const ERR_INVALID_COST_CURRENCY: &'static str = "无效的成本货币 '{0}'：必须是3字母 ISO 4217代码（如 USD、EUR、GBP、JPY）";
pub const RESULT_PRODUCT: &'static str = "📦 产品: \t\t\t{0}";
pub const RESULT_SALE_PRICE: &'static str = "💶 售价: \t\t{0} {1}";
pub const RESULT_TOTAL_COST: &'static str = "💸 总成本: \t\t{0} {1}";
pub const RESULT_NET_PROFIT_UNIT: &'static str = "📈 净利润（单位）: \t{0} {1}";
pub const RESULT_PROFIT_MARGIN: &'static str = "📊 利润率: \t{0}%";
pub const RESULT_PROD_TIME: &'static str = "🕐 生产时间: \t{0} 分钟";
pub const RESULT_MONTHLY_GOAL: &'static str = "🎯 月度目标:\t\t{0} {1} → 所需销售: {2}";
pub const RESULT_MONTHLY_TIME: &'static str = "🕐 月度总时间:\t{0} 分钟 ({1} 小时) ({2} 个并行产品，{3} 工作小时) ({4} 工作日)";
pub const RESULT_MONTH_ROW: &'static str = "{0} {1} → {2} 次销售  🕐 {3} 分钟 ({4} 小时)";
pub const RESULT_ANNUAL_GOAL: &'static str = "🎯 年度目标:\t\t\t{0} {1} → 所需销售: {2}";
pub const RESULT_ANNUAL_TIME: &'static str = "🕐 年度总时间:\t\t{0} 分钟 ({1} 小时) ({2} 个并行产品，{3} 工作小时) ({4} 工作日)";
pub const RESULT_WORKDAY: &'static str = "🕐 工作日:\t\t{0} 小时";
pub const RESULT_PARALLEL: &'static str = "🧵 并行产品:\t{0}";
pub const REQUIRED_SALES_NEEDLE: &'static str = "所需销售:";
pub const WARN_NET_PROFIT_NONPOSITIVE: &'static str = "⚠️ 单位净利润为 {0} {1}。无法以此达到净利润目标。";
pub const PROMPT_MONTHLY_GOAL: &'static str = "🎯 你的月度净利润目标是多少（单位 {0}）？";
pub const PROMPT_ANNUAL_GOAL: &'static str = "🎯 你的年度净利润目标是多少（单位 {0}）？";
pub const PROMPT_MONTHLY_GOAL_PLAIN: &'static str = "🎯 你的月度净利润目标是多少？";
pub const PROMPT_ANNUAL_GOAL_PLAIN: &'static str = "🎯 你的年度净利润目标是多少？";
pub const ERR_READ_MONTHLY_GOAL: &'static str = "无法读取月度目标: {0}";
pub const ERR_READ_ANNUAL_GOAL: &'static str = "无法读取年度目标: {0}";
pub const PROMPT_WORKDAY_HOURS: &'static str = "🕐 企业每天运行多少小时？({0}-{1})";
pub const VALIDATE_WORKDAY_RANGE: &'static str = "请输入 {0} 到 {1} 之间的数字";
pub const ERR_READ_WORKDAY: &'static str = "无法读取工作日小时数: {0}";
pub const PROMPT_PARALLEL_PRODUCTS: &'static str = "🧵 企业能同时生产多少个并行产品？({0}-{1})";
pub const VALIDATE_PARALLEL_RANGE: &'static str = "请输入 {0} 到 {1} 之间的数字";
pub const ERR_READ_PARALLEL: &'static str = "无法读取并行产品数量: {0}";
pub const SALES_NEEDED_HEADER: &'static str = "➡️ 达到净利润所需的销售：";
pub const MONTHLY_LABEL: &'static str = "📆 月度 ({0} {1}):\t{2} 次销售";
pub const ANNUAL_LABEL: &'static str = "📅 年度 ({0} {1}):\t{2} 次销售";
pub const ERR_WRITE_RESULT_FILE: &'static str = "无法写入结果文件: {0}";
pub const WARN_PRODUCT_EXCLUDED: &'static str = "⚠️ «{0}»: 净利润 {1} {2} ≤ 0，已从分配中排除。";
pub const WARN_NO_POSITIVE_PRODUCTS: &'static str = "⚠️ 没有产品具有正的净利润；无法分配目标。";
pub const RANDOM_SPLIT_HEADER: &'static str = "🎲 随机销售分配（每个产品 1%–70%，归一化为 100%）：";
pub const SPLIT_ITEM: &'static str = "  • {0}  🎲 {1}%  → 占目标的 {2}%";
pub const PER_PRODUCT_HEADER: &'static str = "➡️ 每个产品所需的销售（分配目标）：";
pub const PER_PRODUCT_MONTHLY: &'static str = "      📆 月度:  {0} {1}  {2} 次销售  🕐 {3} 分钟 ({4} 小时)";
pub const PER_PRODUCT_ANNUAL: &'static str = "      📅 年度:      {0} {1}  {2} 次销售  🕐 {3} 分钟 ({4} 小时)";
pub const TOTALS_HEADER: &'static str = "📊 合计（{0} 个产品）：";
pub const TOTAL_MONTHLY_SALES: &'static str = "  📆 月度总销售:  {0}  🕐 {1} 分钟 ({2} 小时) ({3} 个并行产品，{4} 工作小时) ({5} 工作日)";
pub const TOTAL_MONTH_ROW: &'static str = "{0} 次销售  🕐 {1} 分钟 ({2} 小时)";
pub const TOTAL_ANNUAL_SALES: &'static str = "  📅 年度总销售:  {0}  🕐 {1} 分钟 ({2} 小时) ({3} 个并行产品，{4} 工作小时) ({5} 工作日)";
pub const ERR_WRITE_RESULT_FILE_FOR: &'static str = "无法为 «{0}» 写入结果文件: {1}";
pub const ERR_WRITE_TOTALS_FILE: &'static str = "无法写入总计文件: {0}";
pub const WARN_NO_TXT_FILES: &'static str = "⚠️ 文件夹 '{0}' 中没有有效的 .txt 文件";
pub const MENU_PROMPT: &'static str = "📄 选择一个或多个文件（空格标记，回车确认）：";
pub const ERR_MENU: &'static str = "菜单错误: {0}";
pub const WARN_NO_SELECTION: &'static str = "⚠️ 未选择任何文件。";
pub const ERR_READ_FILE: &'static str = "❌ 读取文件 \"{0}\" 时出错: {1}";
pub const SUMMARY_NET_PROFIT: &'static str = "\t💶 {0} {1}";
pub const SUMMARY_MARGIN: &'static str = "\t📊 {0}%";
pub const SUMMARY_MONTHLY: &'static str = "\t📆 {0} 次销售（月）\t 🕐 {1} 分钟（月）";
pub const SUMMARY_ANNUAL: &'static str = "\t📅 {0} 次销售（年）\t🕐 {1} 小时（年）";
pub const TUI_TAB_PRODUCTS: &'static str = "产品";
pub const TUI_TAB_GRAPH: &'static str = "图表";
pub const TUI_SIDEBAR_MONTH: &'static str = "月份";
pub const TUI_SIDEBAR_SETTINGS: &'static str = "设置";
pub const TUI_SIDEBAR_TOTALS: &'static str = "合计";
pub const TUI_PRODUCTS_YEARLY: &'static str = "产品（年度%）";
pub const TUI_MONTH_PCT_SALES: &'static str = "{0} (销售%)";
pub const TUI_SLIDER_WORKDAY: &'static str = "工作日小时";
pub const TUI_SLIDER_PARALLEL: &'static str = "并行产品";
pub const TUI_SLIDER_MONTHLY_GOAL: &'static str = "月度净利润目标";
pub const TUI_SLIDER_YEARLY_GOAL: &'static str = "年度净利润目标";
pub const TUI_SLIDER_MONTH: &'static str = "月份";
pub const TUI_PARALLEL_LABEL: &'static str = "并行产品 [{0}..={1}]";
pub const TUI_LOCK_YEAR: &'static str = " 锁定年度";
pub const TUI_LOCK_MONTH: &'static str = " 锁定月份";
pub const TUI_YEARLY_SALES: &'static str = "年度销售";
pub const TUI_LEGEND_UNITS: &'static str = "\u{25a0} 单位 (n)   ";
pub const TUI_LEGEND_PROFIT: &'static str = "\u{25a0} 利润 ($)   ";
pub const TUI_LEGEND_COST: &'static str = "\u{25a0} 成本 ($)   ";
pub const TUI_AXIS_MAX: &'static str = "轴最大值";
pub const TUI_MAX: &'static str = "最大";
pub const TUI_PROFIT: &'static str = "利润";
pub const TUI_YEARLY: &'static str = "年度";
pub const TUI_DONUT_MARGIN: &'static str = "利润率";
pub const TUI_DONUT_VS_YEAR: &'static str = "vs 年度";
pub const TUI_LABEL_MONTHLY: &'static str = "月度";
pub const TUI_LABEL_YEARLY: &'static str = "年度";
pub const TUI_LABEL_SETTINGS: &'static str = "设置";
pub const TUI_LABEL_SALES: &'static str = "销售";
pub const TUI_LABEL_MIN: &'static str = "分钟";
pub const TUI_LABEL_HOURS: &'static str = "小时";
pub const TUI_LABEL_WORKDAYS: &'static str = "工作日";
pub const TUI_LABEL_WORKDAY: &'static str = "工作日";
pub const TUI_LABEL_PARALLEL: &'static str = "并行";
pub const TUI_LABEL_YEARLY_REF: &'static str = "年度参考";
pub const TUI_LABEL_12X_MO: &'static str = "12x 月";
pub const TUI_LABEL_GOAL: &'static str = "目标";
pub const TUI_SUFFIX_HOURS: &'static str = "小时";
pub const TUI_REGION_MAIN: &'static str = "主区域";
pub const TUI_REGION_SIDEBAR: &'static str = "侧栏";
pub const TUI_FOOTER: &'static str = "区域: {0}   Tab 区域   Shift+Tab 标签   \u{2191}/\u{2193} 滚动/导航   \u{2190}/\u{2192} 调整   空格 锁定   Ctrl+E 导出   Ctrl+H 帮助   q 退出";
pub const TUI_FOOTER_STATUS: &'static str = "{0}   |   区域: {1}   Tab 区域   Shift+Tab 标签   \u{2191}/\u{2193} 滚动/导航   \u{2190}/\u{2192} 调整   空格 锁定   Ctrl+E 导出   Ctrl+H 帮助   q 退出";
pub const TUI_EXPORT_ERROR: &'static str = "导出错误 ({0}): {1}";
pub const TUI_EXPORT_ERROR_TOTALS: &'static str = "导出错误 (合计): {0}";
pub const TUI_EXPORTED: &'static str = "已导出 {0} 个产品文件及合计到 {1}";
pub const TUI_NO_PRODUCTS: &'static str = "在 {0} 中未找到具有正净利润的产品";
pub const TUI_HELP_TITLE: &'static str = "帮助";
pub const TUI_HELP_TEXT: &'static str = "## 产品定义（.txt 文件）\n每个产品是业务文件夹中的一个纯文本文件。第一行定义产品；此后每个以 \"- \" 开头的行是一个成本项。\n\n  + <名称> : <售价> <货币> : <生产时间> <单位>\n    - <成本价> <货币> <描述>\n    - <成本价> <货币> <描述>\n\n  示例：\n  + Beer : 2.7 USD : 0.2 mins\n    - 0.27 USD labor\n    - 0.32 USD beer\n    - 0.10 USD cleaning\n\n  - 货币：任意 3 位 ISO 4217 代码（USD、EUR、GBP、JPY、MXN、CNY 等）。\n  - 生产时间单位：\"mins\" 或 \"hours\"。\n  - 净利润（售价 - 总成本）为零或负的产品会被跳过。\n  - 匹配 *.simulation_results.txt 的文件以及状态文件 simulation_state.txt 会被加载器忽略。\n\n## 月度与年度净利润目标\n模拟器以净利润（收入减成本）为目标，而非收入。两个侧栏滑块设定目标：\n\n  - 月度目标：每月应达到的净利润（默认 500）。\n  - 年度目标：显示在 12 x 月度合计旁的参考目标（默认 500）。年度总额是 12 个月结果的求和，因此年度目标仅作参考。\n\n每月，月度目标按各产品的销售百分比分摊，得到每个产品所需的销售数量：\n\n  required_sales = ceil(份额 * 月度目标 / 单位净利润)\n\n## 并行产品 / 服务\n\"parallel\" 滑块表示可同时生产或交付的产品/服务数量。它与每日工时一起定义以分钟为单位的月度产能：\n\n  capacity_minutes = 每日工时 * 22 工作日 * 60 * 并行数\n\n若所需生产分钟数超过产能，销量会按比例缩减以适应（该月无法完全达成目标）。并行范围会被自动钳制以保持目标可达；滑块的最小/最大值在每次更改时重新计算。\n\n## 每日工时\n业务每天运营的小时数（1..24，默认 8）。它参与上方的产能公式，以及结果中显示的“工作日”数值：\n\n  workdays = 所需小时 / (每日工时 * 并行数)\n\n## 月度 / 年度销售分布 %\n每月目标通过百分比在产品之间分配。每个月份列始终精确求和为 100%。\n\n  - Graph 标签：月份选择器选择月份（1 月..12 月）。每个产品有一个月度 % 滑块。编辑它会设定该产品的 %，并将余数在当月其他未锁定的产品之间平均重新分配。\n  - Products 标签：每个产品显示年度 % 滑块（其 12 个月度值的均值）。编辑它会将目标传播到该产品未被月锁定的每个月，并在每个月内重新分配。\n\n图表绘制 12 个独立的月份列，因此各月组合可不同（季节性需求）。年度总额是 12 个月之和。\n\n## 锁定\n锁定会冻结某产品的百分比，使其不参与重新分配。\n\n  - 年度锁定（Products 标签，在年度滑块上按 Space）：在全部 12 个月冻结该产品。月份复选框显示为已勾选并变灰。\n  - 月度锁定（Graph 标签，在月度滑块上按 Space）：仅冻结所选月份中该产品（若产品已被年度锁定则禁用）。\n\n被锁定的产品保持其在 100% 饼图中的固定份额；剩余百分比在未锁定产品之间分配。\n\n## 导出与状态\n按 Ctrl+E 导出当前模拟：\n\n  - 每个产品一个 <产品>.simulation_results.txt（统计 + 12 行月度 + 年度行 + 工时/并行）。\n  - 一个汇总全部产品的 totals.simulation_results.txt。\n  - 一个保存百分比、锁定和设置的 simulation_state.txt 文件。\n\n重新打开应用会恢复已保存的分布。若自上次保存后产品有增减，每个月的百分比会被重新归一化为求和 100%。\n\n## 按键\n  Tab          切换侧栏 <-> 主区域\n  Shift+Tab    切换 Products <-> Graph 标签\n  Up / Down    滚动主区域或导航侧栏滑块\n  Left / Right 调整聚焦滑块\n  Space        切换聚焦产品滑块的锁定\n  Ctrl+E       导出模拟 + 保存状态\n  Ctrl+H       打开 / 关闭本帮助\n  q / Esc      退出（若帮助已打开则先关闭帮助）";

/// The Chinese dictionary.
pub open spec fn table() -> Dict {
    Dict {
        usage_label: USAGE_LABEL,
        usage_interactive: USAGE_INTERACTIVE,
        usage_list: USAGE_LIST,
        usage_lang: USAGE_LANG,
        no_txt_files: NO_TXT_FILES,
        cannot_read_file: CANNOT_READ_FILE,
        file_colon_msg: FILE_COLON_MSG,
        parsed_products_header: PARSED_PRODUCTS_HEADER,
        no_valid_products: NO_VALID_PRODUCTS,
        file_label: FILE_LABEL,
        not_a_directory: NOT_A_DIRECTORY,
        unknown_lang: UNKNOWN_LANG,
        cost_display: COST_DISPLAY,
        product_label: PRODUCT_LABEL,
        sale_price_label: SALE_PRICE_LABEL,
        production_time_label: PRODUCTION_TIME_LABEL,
        costs_header: COSTS_HEADER,
        no_costs: NO_COSTS,
        time_mins: TIME_MINS,
        time_hours: TIME_HOURS,
        err_duplicate_product_line: ERR_DUPLICATE_PRODUCT_LINE,
        err_line_prefix: ERR_LINE_PREFIX,
        err_unexpected_line: ERR_UNEXPECTED_LINE,
        err_missing_product_line: ERR_MISSING_PRODUCT_LINE,
        err_product_sections: ERR_PRODUCT_SECTIONS,
        err_product_plus: ERR_PRODUCT_PLUS,
        err_empty_product_name: ERR_EMPTY_PRODUCT_NAME,
        err_sale_section: ERR_SALE_SECTION,
        err_invalid_sale_price: ERR_INVALID_SALE_PRICE,
        err_invalid_sale_currency: ERR_INVALID_SALE_CURRENCY,
        err_time_section: ERR_TIME_SECTION,
        err_invalid_prod_time: ERR_INVALID_PROD_TIME,
        err_invalid_time_unit: ERR_INVALID_TIME_UNIT,
        err_cost_minus: ERR_COST_MINUS,
        err_cost_tokens: ERR_COST_TOKENS,
        err_invalid_cost_price: ERR_INVALID_COST_PRICE,
        err_invalid_cost_currency: ERR_INVALID_COST_CURRENCY,
        result_product: RESULT_PRODUCT,
        result_sale_price: RESULT_SALE_PRICE,
        result_total_cost: RESULT_TOTAL_COST,
        result_net_profit_unit: RESULT_NET_PROFIT_UNIT,
        result_profit_margin: RESULT_PROFIT_MARGIN,
        result_prod_time: RESULT_PROD_TIME,
        result_monthly_goal: RESULT_MONTHLY_GOAL,
        result_monthly_time: RESULT_MONTHLY_TIME,
        result_month_row: RESULT_MONTH_ROW,
        result_annual_goal: RESULT_ANNUAL_GOAL,
        result_annual_time: RESULT_ANNUAL_TIME,
        result_workday: RESULT_WORKDAY,
        result_parallel: RESULT_PARALLEL,
        required_sales_needle: REQUIRED_SALES_NEEDLE,
        warn_net_profit_nonpositive: WARN_NET_PROFIT_NONPOSITIVE,
        prompt_monthly_goal: PROMPT_MONTHLY_GOAL,
        prompt_annual_goal: PROMPT_ANNUAL_GOAL,
        prompt_monthly_goal_plain: PROMPT_MONTHLY_GOAL_PLAIN,
        prompt_annual_goal_plain: PROMPT_ANNUAL_GOAL_PLAIN,
        err_read_monthly_goal: ERR_READ_MONTHLY_GOAL,
        err_read_annual_goal: ERR_READ_ANNUAL_GOAL,
        prompt_workday_hours: PROMPT_WORKDAY_HOURS,
        validate_workday_range: VALIDATE_WORKDAY_RANGE,
        err_read_workday: ERR_READ_WORKDAY,
        prompt_parallel_products: PROMPT_PARALLEL_PRODUCTS,
        validate_parallel_range: VALIDATE_PARALLEL_RANGE,
        err_read_parallel: ERR_READ_PARALLEL,
        sales_needed_header: SALES_NEEDED_HEADER,
        monthly_label: MONTHLY_LABEL,
        annual_label: ANNUAL_LABEL,
        err_write_result_file: ERR_WRITE_RESULT_FILE,
        warn_product_excluded: WARN_PRODUCT_EXCLUDED,
        warn_no_positive_products: WARN_NO_POSITIVE_PRODUCTS,
        random_split_header: RANDOM_SPLIT_HEADER,
        split_item: SPLIT_ITEM,
        per_product_header: PER_PRODUCT_HEADER,
        per_product_monthly: PER_PRODUCT_MONTHLY,
        per_product_annual: PER_PRODUCT_ANNUAL,
        totals_header: TOTALS_HEADER,
        total_monthly_sales: TOTAL_MONTHLY_SALES,
        total_month_row: TOTAL_MONTH_ROW,
        total_annual_sales: TOTAL_ANNUAL_SALES,
        err_write_result_file_for: ERR_WRITE_RESULT_FILE_FOR,
        err_write_totals_file: ERR_WRITE_TOTALS_FILE,
        warn_no_txt_files: WARN_NO_TXT_FILES,
        menu_prompt: MENU_PROMPT,
        err_menu: ERR_MENU,
        warn_no_selection: WARN_NO_SELECTION,
        err_read_file: ERR_READ_FILE,
        summary_net_profit: SUMMARY_NET_PROFIT,
        summary_margin: SUMMARY_MARGIN,
        summary_monthly: SUMMARY_MONTHLY,
        summary_annual: SUMMARY_ANNUAL,
        tui_tab_products: TUI_TAB_PRODUCTS,
        tui_tab_graph: TUI_TAB_GRAPH,
        tui_sidebar_month: TUI_SIDEBAR_MONTH,
        tui_sidebar_settings: TUI_SIDEBAR_SETTINGS,
        tui_sidebar_totals: TUI_SIDEBAR_TOTALS,
        tui_products_yearly: TUI_PRODUCTS_YEARLY,
        tui_month_pct_sales: TUI_MONTH_PCT_SALES,
        tui_slider_workday: TUI_SLIDER_WORKDAY,
        tui_slider_parallel: TUI_SLIDER_PARALLEL,
        tui_slider_monthly_goal: TUI_SLIDER_MONTHLY_GOAL,
        tui_slider_yearly_goal: TUI_SLIDER_YEARLY_GOAL,
        tui_slider_month: TUI_SLIDER_MONTH,
        tui_parallel_label: TUI_PARALLEL_LABEL,
        tui_lock_year: TUI_LOCK_YEAR,
        tui_lock_month: TUI_LOCK_MONTH,
        tui_yearly_sales: TUI_YEARLY_SALES,
        tui_legend_units: TUI_LEGEND_UNITS,
        tui_legend_profit: TUI_LEGEND_PROFIT,
        tui_legend_cost: TUI_LEGEND_COST,
        tui_axis_max: TUI_AXIS_MAX,
        tui_max: TUI_MAX,
        tui_profit: TUI_PROFIT,
        tui_yearly: TUI_YEARLY,
        tui_donut_margin: TUI_DONUT_MARGIN,
        tui_donut_vs_year: TUI_DONUT_VS_YEAR,
        tui_label_monthly: TUI_LABEL_MONTHLY,
        tui_label_yearly: TUI_LABEL_YEARLY,
        tui_label_settings: TUI_LABEL_SETTINGS,
        tui_label_sales: TUI_LABEL_SALES,
        tui_label_min: TUI_LABEL_MIN,
        tui_label_hours: TUI_LABEL_HOURS,
        tui_label_workdays: TUI_LABEL_WORKDAYS,
        tui_label_workday: TUI_LABEL_WORKDAY,
        tui_label_parallel: TUI_LABEL_PARALLEL,
        tui_label_yearly_ref: TUI_LABEL_YEARLY_REF,
        tui_label_12x_mo: TUI_LABEL_12X_MO,
        tui_label_goal: TUI_LABEL_GOAL,
        tui_suffix_hours: TUI_SUFFIX_HOURS,
        tui_region_main: TUI_REGION_MAIN,
        tui_region_sidebar: TUI_REGION_SIDEBAR,
        tui_footer: TUI_FOOTER,
        tui_footer_status: TUI_FOOTER_STATUS,
        tui_export_error: TUI_EXPORT_ERROR,
        tui_export_error_totals: TUI_EXPORT_ERROR_TOTALS,
        tui_exported: TUI_EXPORTED,
        tui_no_products: TUI_NO_PRODUCTS,
        tui_help_title: TUI_HELP_TITLE,
        tui_help_text: TUI_HELP_TEXT,
    }
}

/// Builds the Chinese dictionary.
pub fn make() -> (d: Dict)
    ensures
        d == table(),
{
    Dict {
        usage_label: USAGE_LABEL,
        usage_interactive: USAGE_INTERACTIVE,
        usage_list: USAGE_LIST,
        usage_lang: USAGE_LANG,
        no_txt_files: NO_TXT_FILES,
        cannot_read_file: CANNOT_READ_FILE,
        file_colon_msg: FILE_COLON_MSG,
        parsed_products_header: PARSED_PRODUCTS_HEADER,
        no_valid_products: NO_VALID_PRODUCTS,
        file_label: FILE_LABEL,
        not_a_directory: NOT_A_DIRECTORY,
        unknown_lang: UNKNOWN_LANG,
        cost_display: COST_DISPLAY,
        product_label: PRODUCT_LABEL,
        sale_price_label: SALE_PRICE_LABEL,
        production_time_label: PRODUCTION_TIME_LABEL,
        costs_header: COSTS_HEADER,
        no_costs: NO_COSTS,
        time_mins: TIME_MINS,
        time_hours: TIME_HOURS,
        err_duplicate_product_line: ERR_DUPLICATE_PRODUCT_LINE,
        err_line_prefix: ERR_LINE_PREFIX,
        err_unexpected_line: ERR_UNEXPECTED_LINE,
        err_missing_product_line: ERR_MISSING_PRODUCT_LINE,
        err_product_sections: ERR_PRODUCT_SECTIONS,
        err_product_plus: ERR_PRODUCT_PLUS,
        err_empty_product_name: ERR_EMPTY_PRODUCT_NAME,
        err_sale_section: ERR_SALE_SECTION,
        err_invalid_sale_price: ERR_INVALID_SALE_PRICE,
        err_invalid_sale_currency: ERR_INVALID_SALE_CURRENCY,
        err_time_section: ERR_TIME_SECTION,
        err_invalid_prod_time: ERR_INVALID_PROD_TIME,
        err_invalid_time_unit: ERR_INVALID_TIME_UNIT,
        err_cost_minus: ERR_COST_MINUS,
        err_cost_tokens: ERR_COST_TOKENS,
        err_invalid_cost_price: ERR_INVALID_COST_PRICE,
        err_invalid_cost_currency: ERR_INVALID_COST_CURRENCY,
        result_product: RESULT_PRODUCT,
        result_sale_price: RESULT_SALE_PRICE,
        result_total_cost: RESULT_TOTAL_COST,
        result_net_profit_unit: RESULT_NET_PROFIT_UNIT,
        result_profit_margin: RESULT_PROFIT_MARGIN,
        result_prod_time: RESULT_PROD_TIME,
        result_monthly_goal: RESULT_MONTHLY_GOAL,
        result_monthly_time: RESULT_MONTHLY_TIME,
        result_month_row: RESULT_MONTH_ROW,
        result_annual_goal: RESULT_ANNUAL_GOAL,
        result_annual_time: RESULT_ANNUAL_TIME,
        result_workday: RESULT_WORKDAY,
        result_parallel: RESULT_PARALLEL,
        required_sales_needle: REQUIRED_SALES_NEEDLE,
        warn_net_profit_nonpositive: WARN_NET_PROFIT_NONPOSITIVE,
        prompt_monthly_goal: PROMPT_MONTHLY_GOAL,
        prompt_annual_goal: PROMPT_ANNUAL_GOAL,
        prompt_monthly_goal_plain: PROMPT_MONTHLY_GOAL_PLAIN,
        prompt_annual_goal_plain: PROMPT_ANNUAL_GOAL_PLAIN,
        err_read_monthly_goal: ERR_READ_MONTHLY_GOAL,
        err_read_annual_goal: ERR_READ_ANNUAL_GOAL,
        prompt_workday_hours: PROMPT_WORKDAY_HOURS,
        validate_workday_range: VALIDATE_WORKDAY_RANGE,
        err_read_workday: ERR_READ_WORKDAY,
        prompt_parallel_products: PROMPT_PARALLEL_PRODUCTS,
        validate_parallel_range: VALIDATE_PARALLEL_RANGE,
        err_read_parallel: ERR_READ_PARALLEL,
        sales_needed_header: SALES_NEEDED_HEADER,
        monthly_label: MONTHLY_LABEL,
        annual_label: ANNUAL_LABEL,
        err_write_result_file: ERR_WRITE_RESULT_FILE,
        warn_product_excluded: WARN_PRODUCT_EXCLUDED,
        warn_no_positive_products: WARN_NO_POSITIVE_PRODUCTS,
        random_split_header: RANDOM_SPLIT_HEADER,
        split_item: SPLIT_ITEM,
        per_product_header: PER_PRODUCT_HEADER,
        per_product_monthly: PER_PRODUCT_MONTHLY,
        per_product_annual: PER_PRODUCT_ANNUAL,
        totals_header: TOTALS_HEADER,
        total_monthly_sales: TOTAL_MONTHLY_SALES,
        total_month_row: TOTAL_MONTH_ROW,
        total_annual_sales: TOTAL_ANNUAL_SALES,
        err_write_result_file_for: ERR_WRITE_RESULT_FILE_FOR,
        err_write_totals_file: ERR_WRITE_TOTALS_FILE,
        warn_no_txt_files: WARN_NO_TXT_FILES,
        menu_prompt: MENU_PROMPT,
        err_menu: ERR_MENU,
        warn_no_selection: WARN_NO_SELECTION,
        err_read_file: ERR_READ_FILE,
        summary_net_profit: SUMMARY_NET_PROFIT,
        summary_margin: SUMMARY_MARGIN,
        summary_monthly: SUMMARY_MONTHLY,
        summary_annual: SUMMARY_ANNUAL,
        tui_tab_products: TUI_TAB_PRODUCTS,
        tui_tab_graph: TUI_TAB_GRAPH,
        tui_sidebar_month: TUI_SIDEBAR_MONTH,
        tui_sidebar_settings: TUI_SIDEBAR_SETTINGS,
        tui_sidebar_totals: TUI_SIDEBAR_TOTALS,
        tui_products_yearly: TUI_PRODUCTS_YEARLY,
        tui_month_pct_sales: TUI_MONTH_PCT_SALES,
        tui_slider_workday: TUI_SLIDER_WORKDAY,
        tui_slider_parallel: TUI_SLIDER_PARALLEL,
        tui_slider_monthly_goal: TUI_SLIDER_MONTHLY_GOAL,
        tui_slider_yearly_goal: TUI_SLIDER_YEARLY_GOAL,
        tui_slider_month: TUI_SLIDER_MONTH,
        tui_parallel_label: TUI_PARALLEL_LABEL,
        tui_lock_year: TUI_LOCK_YEAR,
        tui_lock_month: TUI_LOCK_MONTH,
        tui_yearly_sales: TUI_YEARLY_SALES,
        tui_legend_units: TUI_LEGEND_UNITS,
        tui_legend_profit: TUI_LEGEND_PROFIT,
        tui_legend_cost: TUI_LEGEND_COST,
        tui_axis_max: TUI_AXIS_MAX,
        tui_max: TUI_MAX,
        tui_profit: TUI_PROFIT,
        tui_yearly: TUI_YEARLY,
        tui_donut_margin: TUI_DONUT_MARGIN,
        tui_donut_vs_year: TUI_DONUT_VS_YEAR,
        tui_label_monthly: TUI_LABEL_MONTHLY,
        tui_label_yearly: TUI_LABEL_YEARLY,
        tui_label_settings: TUI_LABEL_SETTINGS,
        tui_label_sales: TUI_LABEL_SALES,
        tui_label_min: TUI_LABEL_MIN,
        tui_label_hours: TUI_LABEL_HOURS,
        tui_label_workdays: TUI_LABEL_WORKDAYS,
        tui_label_workday: TUI_LABEL_WORKDAY,
        tui_label_parallel: TUI_LABEL_PARALLEL,
        tui_label_yearly_ref: TUI_LABEL_YEARLY_REF,
        tui_label_12x_mo: TUI_LABEL_12X_MO,
        tui_label_goal: TUI_LABEL_GOAL,
        tui_suffix_hours: TUI_SUFFIX_HOURS,
        tui_region_main: TUI_REGION_MAIN,
        tui_region_sidebar: TUI_REGION_SIDEBAR,
        tui_footer: TUI_FOOTER,
        tui_footer_status: TUI_FOOTER_STATUS,
        tui_export_error: TUI_EXPORT_ERROR,
        tui_export_error_totals: TUI_EXPORT_ERROR_TOTALS,
        tui_exported: TUI_EXPORTED,
        tui_no_products: TUI_NO_PRODUCTS,
        tui_help_title: TUI_HELP_TITLE,
        tui_help_text: TUI_HELP_TEXT,
    }
}

} // verus!
