//! English messages.
use vstd::prelude::*;
use crate::lang::Dict;

verus! {

pub const USAGE_LABEL: &'static str = "Usage:";
pub const USAGE_INTERACTIVE: &'static str = "  {0} <root_folder>          Launch the interactive product simulator menu";
pub const USAGE_LIST: &'static str = "  {0} --list <root_folder>   Parse and print all product definitions";
pub const USAGE_LANG: &'static str = "  {0} --lang <lang_code> <root_folder>   Set interface language (en, es, zh, de, ru, fr)";
pub const NO_TXT_FILES: &'static str = "No .txt files found in '{0}'";
pub const CANNOT_READ_FILE: &'static str = "{0}: cannot read file: {1}";
pub const FILE_COLON_MSG: &'static str = "{0}: {1}";
pub const PARSED_PRODUCTS_HEADER: &'static str = "=== Parsed products ({0} valid) ===";
pub const NO_VALID_PRODUCTS: &'static str = "(no valid products found)";
pub const FILE_LABEL: &'static str = "File: {0}";
pub const NOT_A_DIRECTORY: &'static str = "Error: '{0}' is not a directory";
pub const UNKNOWN_LANG: &'static str = "Error: unknown language code '{0}' (supported: en, es, zh, de, ru, fr)";
pub const COST_DISPLAY: &'static str = "- {0} {1} {2}";
pub const PRODUCT_LABEL: &'static str = "Product: {0}";
pub const SALE_PRICE_LABEL: &'static str = "  Sale price:     {0} {1}";
pub const PRODUCTION_TIME_LABEL: &'static str = "  Production time: {0} {1}";
pub const COSTS_HEADER: &'static str = "  Costs ({0}):";
pub const NO_COSTS: &'static str = "    (none)";
pub const TIME_MINS: &'static str = "mins";
pub const TIME_HOURS: &'static str = "hours";
pub const ERR_DUPLICATE_PRODUCT_LINE: &'static str = "line {0}: duplicate product definition line";
pub const ERR_LINE_PREFIX: &'static str = "line {0}: {1}";
pub const ERR_UNEXPECTED_LINE: &'static str = "line {0}: unexpected line, every line must start with '+' or '-'";
pub const ERR_MISSING_PRODUCT_LINE: &'static str = "missing product definition line (a line starting with '+')";
pub const ERR_PRODUCT_SECTIONS: &'static str = "product line must contain exactly 3 colon-separated sections, found {0}";
pub const ERR_PRODUCT_PLUS: &'static str = "product line must start with '+'";
pub const ERR_EMPTY_PRODUCT_NAME: &'static str = "product name is empty";
pub const ERR_SALE_SECTION: &'static str = "sale section must be '<price> <currency>', found {0} token(s)";
pub const ERR_INVALID_SALE_PRICE: &'static str = "invalid sale price '{0}'";
pub const ERR_INVALID_SALE_CURRENCY: &'static str = "invalid sale currency '{0}': must be a 3-letter ISO 4217 code (e.g. USD, EUR, GBP, JPY)";
pub const ERR_TIME_SECTION: &'static str = "production-time section must be '<time> <unit>', found {0} token(s)";
pub const ERR_INVALID_PROD_TIME: &'static str = "invalid production time '{0}'";
pub const ERR_INVALID_TIME_UNIT: &'static str = "invalid production time unit '{0}': must be one of mins, hours";
pub const ERR_COST_MINUS: &'static str = "cost line must start with '-'";
pub const ERR_COST_TOKENS: &'static str = "cost line must be '<price> <currency> <description>', found {0} token(s)";
pub const ERR_INVALID_COST_PRICE: &'static str = "invalid cost price '{0}'";
pub const ERR_INVALID_COST_CURRENCY: &'static str = "invalid cost currency '{0}': must be a 3-letter ISO 4217 code (e.g. USD, EUR, GBP, JPY)";
pub const RESULT_PRODUCT: &'static str = "📦 Product: \t\t\t{0}";
pub const RESULT_SALE_PRICE: &'static str = "💶 Sale price: \t\t{0} {1}";
pub const RESULT_TOTAL_COST: &'static str = "💸 Total cost: \t\t{0} {1}";
pub const RESULT_NET_PROFIT_UNIT: &'static str = "📈 Net profit (unit): \t{0} {1}";
pub const RESULT_PROFIT_MARGIN: &'static str = "📊 Profit margin: \t{0}%";
pub const RESULT_PROD_TIME: &'static str = "🕐 Production time: \t{0} minutes";
pub const RESULT_MONTHLY_GOAL: &'static str = "🎯 Monthly goal:\t\t{0} {1} → Required sales: {2}";
pub const RESULT_MONTHLY_TIME: &'static str = "🕐 Total monthly time:\t{0} minutes ({1} hours) ({2} parallel products in {3} workday hours) ({4} workdays)";
pub const RESULT_MONTH_ROW: &'static str = "{0} {1} → {2} sales  🕐 {3} min ({4} h)";
pub const RESULT_ANNUAL_GOAL: &'static str = "🎯 Annual goal:\t\t\t{0} {1} → Required sales: {2}";
pub const RESULT_ANNUAL_TIME: &'static str = "🕐 Total annual time:\t\t{0} minutes ({1} hours) ({2} parallel products in {3} workday hours) ({4} workdays)";
pub const RESULT_WORKDAY: &'static str = "🕐 Workday:\t\t{0} hours";
pub const RESULT_PARALLEL: &'static str = "🧵 Parallel products:\t{0}";
pub const REQUIRED_SALES_NEEDLE: &'static str = "Required sales:";
pub const WARN_NET_PROFIT_NONPOSITIVE: &'static str = "⚠️ The net profit per unit is {0} {1}. It is not possible to reach a net profit goal like this.";
pub const PROMPT_MONTHLY_GOAL: &'static str = "🎯 What is your MONTHLY net profit goal (in {0})?";
pub const PROMPT_ANNUAL_GOAL: &'static str = "🎯 What is your ANNUAL net profit goal (in {0})?";
pub const PROMPT_MONTHLY_GOAL_PLAIN: &'static str = "🎯 What is your MONTHLY net profit goal?";
pub const PROMPT_ANNUAL_GOAL_PLAIN: &'static str = "🎯 What is your ANNUAL net profit goal?";
pub const ERR_READ_MONTHLY_GOAL: &'static str = "could not read monthly goal: {0}";
pub const ERR_READ_ANNUAL_GOAL: &'static str = "could not read annual goal: {0}";
pub const PROMPT_WORKDAY_HOURS: &'static str = "🕐 How many hours per day does the business run? ({0}-{1})";
pub const VALIDATE_WORKDAY_RANGE: &'static str = "Enter a number between {0} and {1}";
pub const ERR_READ_WORKDAY: &'static str = "could not read workday hours: {0}";
pub const PROMPT_PARALLEL_PRODUCTS: &'static str = "🧵 How many parallel products can the business produce? ({0}-{1})";
pub const VALIDATE_PARALLEL_RANGE: &'static str = "Enter a number between {0} and {1}";
pub const ERR_READ_PARALLEL: &'static str = "could not read number of parallel products: {0}";
pub const SALES_NEEDED_HEADER: &'static str = "➡️ Required sales to reach the net profit:";
pub const MONTHLY_LABEL: &'static str = "📆 Monthly ({0} {1}):\t{2} sales";
pub const ANNUAL_LABEL: &'static str = "📅 Annual ({0} {1}):\t{2} sales";
pub const ERR_WRITE_RESULT_FILE: &'static str = "could not write the result file: {0}";
pub const WARN_PRODUCT_EXCLUDED: &'static str = "⚠️ «{0}»: net profit {1} {2} ≤ 0, excluded from the split.";
pub const WARN_NO_POSITIVE_PRODUCTS: &'static str = "⚠️ No product has positive net profit; the goal cannot be split.";
pub const RANDOM_SPLIT_HEADER: &'static str = "🎲 Random sales split (1%–70% per product, normalized to 100%):";
pub const SPLIT_ITEM: &'static str = "  • {0}  🎲 {1}%  → {2}% of the goal";
pub const PER_PRODUCT_HEADER: &'static str = "➡️ Required sales per product (split goal):";
pub const PER_PRODUCT_MONTHLY: &'static str = "      📆 Monthly:  {0} {1}  {2} sales  🕐 {3} min ({4} h)";
pub const PER_PRODUCT_ANNUAL: &'static str = "      📅 Annual:   {0} {1}  {2} sales  🕐 {3} min ({4} h)";
pub const TOTALS_HEADER: &'static str = "📊 Totals ({0} products):";
pub const TOTAL_MONTHLY_SALES: &'static str = "  📆 Total monthly sales:  {0}  🕐 {1} min ({2} h) ({3} parallel products in {4} workday hours) ({5} workdays)";
pub const TOTAL_MONTH_ROW: &'static str = "{0} sales  🕐 {1} min ({2} h)";
pub const TOTAL_ANNUAL_SALES: &'static str = "  📅 Total annual sales:  {0}  🕐 {1} min ({2} h) ({3} parallel products in {4} workday hours) ({5} workdays)";
pub const ERR_WRITE_RESULT_FILE_FOR: &'static str = "could not write the result file for «{0}»: {1}";
pub const ERR_WRITE_TOTALS_FILE: &'static str = "could not write the totals file: {0}";
pub const WARN_NO_TXT_FILES: &'static str = "⚠️ No valid .txt files in folder '{0}'";
pub const MENU_PROMPT: &'static str = "📄 Select one or more files (space to mark, enter to confirm):";
pub const ERR_MENU: &'static str = "menu error: {0}";
pub const WARN_NO_SELECTION: &'static str = "⚠️ No file was selected.";
pub const ERR_READ_FILE: &'static str = "❌ Error reading file \"{0}\": {1}";
pub const SUMMARY_NET_PROFIT: &'static str = "\t💶 {0} {1}";
pub const SUMMARY_MARGIN: &'static str = "\t📊 {0}%";
pub const SUMMARY_MONTHLY: &'static str = "\t📆 {0} sales (month) \t 🕐 {1} min (month)";
pub const SUMMARY_ANNUAL: &'static str = "\t📅 {0} sales (year) \t🕐 {1} hours (year)";
pub const TUI_TAB_PRODUCTS: &'static str = "Products";
pub const TUI_TAB_GRAPH: &'static str = "Graph";
pub const TUI_SIDEBAR_MONTH: &'static str = "Month";
pub const TUI_SIDEBAR_SETTINGS: &'static str = "Settings";
pub const TUI_SIDEBAR_TOTALS: &'static str = "Totals";
pub const TUI_PRODUCTS_YEARLY: &'static str = "Products (yearly %)";
pub const TUI_MONTH_PCT_SALES: &'static str = "{0} (% sales)";
pub const TUI_SLIDER_WORKDAY: &'static str = "Workday hours";
pub const TUI_SLIDER_PARALLEL: &'static str = "Parallel products";
pub const TUI_SLIDER_MONTHLY_GOAL: &'static str = "Monthly net-profit goal";
pub const TUI_SLIDER_YEARLY_GOAL: &'static str = "Yearly net-profit goal";
pub const TUI_SLIDER_MONTH: &'static str = "Month";
pub const TUI_PARALLEL_LABEL: &'static str = "Parallel products [{0}..={1}]";
pub const TUI_LOCK_YEAR: &'static str = " lock year";
pub const TUI_LOCK_MONTH: &'static str = " lock month";
pub const TUI_YEARLY_SALES: &'static str = "Yearly sales";
pub const TUI_LEGEND_UNITS: &'static str = "\u{25a0} units (n)   ";
pub const TUI_LEGEND_PROFIT: &'static str = "\u{25a0} profit ($)   ";
pub const TUI_LEGEND_COST: &'static str = "\u{25a0} cost ($)   ";
pub const TUI_AXIS_MAX: &'static str = "axis max";
pub const TUI_MAX: &'static str = "max";
pub const TUI_PROFIT: &'static str = "profit";
pub const TUI_YEARLY: &'static str = "yearly";
pub const TUI_DONUT_MARGIN: &'static str = "margin";
pub const TUI_DONUT_VS_YEAR: &'static str = "vs year";
pub const TUI_LABEL_MONTHLY: &'static str = "Monthly";
pub const TUI_LABEL_YEARLY: &'static str = "Yearly";
pub const TUI_LABEL_SETTINGS: &'static str = "Settings";
pub const TUI_LABEL_SALES: &'static str = "sales";
pub const TUI_LABEL_MIN: &'static str = "min";
pub const TUI_LABEL_HOURS: &'static str = "hours";
pub const TUI_LABEL_WORKDAYS: &'static str = "workdays";
pub const TUI_LABEL_WORKDAY: &'static str = "workday";
pub const TUI_LABEL_PARALLEL: &'static str = "parallel";
pub const TUI_LABEL_YEARLY_REF: &'static str = "Yearly ref";
pub const TUI_LABEL_12X_MO: &'static str = "12x mo";
pub const TUI_LABEL_GOAL: &'static str = "goal";
pub const TUI_SUFFIX_HOURS: &'static str = "h";
pub const TUI_REGION_MAIN: &'static str = "main";
pub const TUI_REGION_SIDEBAR: &'static str = "sidebar";
pub const TUI_FOOTER: &'static str = "region: {0}   Tab region   Shift+Tab tab   \u{2191}/\u{2193} scroll/navigate   \u{2190}/\u{2192} adjust   Space lock   Ctrl+E export   Ctrl+H help   q quit";
pub const TUI_FOOTER_STATUS: &'static str = "{0}   |   region: {1}   Tab region   Shift+Tab tab   \u{2191}/\u{2193} scroll/navigate   \u{2190}/\u{2192} adjust   Space lock   Ctrl+E export   Ctrl+H help   q quit";
pub const TUI_EXPORT_ERROR: &'static str = "export error ({0}): {1}";
pub const TUI_EXPORT_ERROR_TOTALS: &'static str = "export error (totals): {0}";
pub const TUI_EXPORTED: &'static str = "exported {0} product files + totals to {1}";
pub const TUI_NO_PRODUCTS: &'static str = "No products with a positive net profit were found in {0}";
pub const TUI_HELP_TITLE: &'static str = "Help";
pub const TUI_HELP_TEXT: &'static str = "## Product definition (.txt files)\nEach product is a plain-text file in the business folder. The first line defines the product; every following line starting with \"- \" is a cost.\n\n  + <name> : <sale_price> <currency> : <production_time> <unit>\n    - <cost_price> <currency> <description>\n    - <cost_price> <currency> <description>\n\n  Example:\n  + Beer : 2.7 USD : 0.2 mins\n    - 0.27 USD labor\n    - 0.32 USD beer\n    - 0.10 USD cleaning\n\n  - Currency: any 3-letter ISO 4217 code (USD, EUR, GBP, JPY, MXN, CNY, ...).\n  - Production-time units: \"mins\" or \"hours\".\n  - Products whose net profit (price - total cost) is zero or negative are skipped.\n  - Files matching *.simulation_results.txt and the state file simulation_state.txt are ignored by the loader.\n\n## Monthly & yearly net-profit goals\nThe simulator targets a NET-PROFIT goal (income minus costs), not revenue. Two sidebar sliders set the targets:\n\n  - Monthly goal: the net profit each month must reach (default 500).\n  - Yearly goal: a reference target shown next to the 12 x monthly sum (default 500). The yearly total is the SUM of the 12 monthly results, so the yearly goal is only a reference.\n\nEach month, the monthly goal is split across products by their sales-% share, giving a required sales count per product:\n\n  required_sales = ceil(share * monthly_goal / net_profit_per_unit)\n\n## Parallel products / services\nThe \"parallel\" slider is how many products can be produced or services delivered at the same time. Together with the workday hours it defines the monthly production CAPACITY in minutes:\n\n  capacity_minutes = workday_hours * 22 workdays * 60 * parallel\n\nIf the required production minutes exceed capacity, sales are scaled down to fit (the goal cannot be fully met that month). The parallel range is automatically clamped so the goals stay reachable; the slider's own min/max is recomputed on every change.\n\n## Workday hours\nHow many hours per day the business operates (1..24, default 8). It feeds the capacity formula above and the \"workdays\" figure shown in the results:\n\n  workdays = required_hours / (workday_hours * parallel)\n\n## Monthly / yearly sales distribution %\nEach month's goal is divided between products using percentages. Every month column always sums to exactly 100%.\n\n  - Graph tab: a Month selector picks the month (Jan..Dec). Each product has a monthly-% slider. Editing it sets that product's % and redistributes the remainder EQUALLY across all other non-locked products in that month.\n  - Products tab: each product shows a yearly-% slider (the mean of its 12 monthly values). Editing it propagates the target to every month where the product isn't month-locked, redistributing within each month.\n\nThe chart draws 12 separate monthly columns, so the mix can vary per month (seasonal demand). The yearly total is the sum of the 12 months.\n\n## Locks\nLocks freeze a product's percentage so it is excluded from redistribution.\n\n  - Yearly lock (Products tab, Space on a yearly slider): freezes the product in ALL 12 months. Month checkboxes render checked and greyed out.\n  - Month lock (Graph tab, Space on a monthly slider): freezes the product only for the selected month (disabled if the product is yearly-locked).\n\nLocked products keep their fixed share of the 100% pie; the remaining percentage is split among the unlocked products.\n\n## Exports & state\nPress Ctrl+E to export the current simulation:\n\n  - One <product>.simulation_results.txt per product (stats + 12 monthly rows + annual row + workday/parallel).\n  - A totals.simulation_results.txt aggregating all products.\n  - A simulation_state.txt file saving percentages, locks and settings.\n\nReopening the app restores the saved distribution. If products were added or removed since the save, each month's percentages are re-normalized to sum to 100%.\n\n## Keys\n  Tab          toggle sidebar <-> main area\n  Shift+Tab    switch Products <-> Graph tab\n  Up / Down    scroll main area or navigate sidebar sliders\n  Left / Right adjust the focused slider\n  Space        toggle the lock of the focused product slider\n  Ctrl+E       export simulation + save state\n  Ctrl+H       open / close this help\n  q / Esc      quit (close help if it is open)";

/// The English dictionary.
pub open spec fn table() -> Dict {
    Dict {
        usage_label: USAGE_LABEL,
        usage_interactive: USAGE_INTERACTIVE,
        usage_list: USAGE_LIST,
        usage_lang: USAGE_LANG,
        no_txt_files: NO_TXT_FILES,
        cannot_read_file: CANNOT_READ_FILE,
        file_colon_msg: FILE_COLON_MSG,
        parsed_products_header: PARSED_PRODUCTS_HEADER,
        no_valid_products: NO_VALID_PRODUCTS,
        file_label: FILE_LABEL,
        not_a_directory: NOT_A_DIRECTORY,
        unknown_lang: UNKNOWN_LANG,
        cost_display: COST_DISPLAY,
        product_label: PRODUCT_LABEL,
        sale_price_label: SALE_PRICE_LABEL,
        production_time_label: PRODUCTION_TIME_LABEL,
        costs_header: COSTS_HEADER,
        no_costs: NO_COSTS,
        time_mins: TIME_MINS,
        time_hours: TIME_HOURS,
        err_duplicate_product_line: ERR_DUPLICATE_PRODUCT_LINE,
        err_line_prefix: ERR_LINE_PREFIX,
        err_unexpected_line: ERR_UNEXPECTED_LINE,
        err_missing_product_line: ERR_MISSING_PRODUCT_LINE,
        err_product_sections: ERR_PRODUCT_SECTIONS,
        err_product_plus: ERR_PRODUCT_PLUS,
        err_empty_product_name: ERR_EMPTY_PRODUCT_NAME,
        err_sale_section: ERR_SALE_SECTION,
        err_invalid_sale_price: ERR_INVALID_SALE_PRICE,
        err_invalid_sale_currency: ERR_INVALID_SALE_CURRENCY,
        err_time_section: ERR_TIME_SECTION,
        err_invalid_prod_time: ERR_INVALID_PROD_TIME,
        err_invalid_time_unit: ERR_INVALID_TIME_UNIT,
        err_cost_minus: ERR_COST_MINUS,
        err_cost_tokens: ERR_COST_TOKENS,
        err_invalid_cost_price: ERR_INVALID_COST_PRICE,
        err_invalid_cost_currency: ERR_INVALID_COST_CURRENCY,
        result_product: RESULT_PRODUCT,
        result_sale_price: RESULT_SALE_PRICE,
        result_total_cost: RESULT_TOTAL_COST,
        result_net_profit_unit: RESULT_NET_PROFIT_UNIT,
        result_profit_margin: RESULT_PROFIT_MARGIN,
        result_prod_time: RESULT_PROD_TIME,
        result_monthly_goal: RESULT_MONTHLY_GOAL,
        result_monthly_time: RESULT_MONTHLY_TIME,
        result_month_row: RESULT_MONTH_ROW,
        result_annual_goal: RESULT_ANNUAL_GOAL,
        result_annual_time: RESULT_ANNUAL_TIME,
        result_workday: RESULT_WORKDAY,
        result_parallel: RESULT_PARALLEL,
        required_sales_needle: REQUIRED_SALES_NEEDLE,
        warn_net_profit_nonpositive: WARN_NET_PROFIT_NONPOSITIVE,
        prompt_monthly_goal: PROMPT_MONTHLY_GOAL,
        prompt_annual_goal: PROMPT_ANNUAL_GOAL,
        prompt_monthly_goal_plain: PROMPT_MONTHLY_GOAL_PLAIN,
        prompt_annual_goal_plain: PROMPT_ANNUAL_GOAL_PLAIN,
        err_read_monthly_goal: ERR_READ_MONTHLY_GOAL,
        err_read_annual_goal: ERR_READ_ANNUAL_GOAL,
        prompt_workday_hours: PROMPT_WORKDAY_HOURS,
        validate_workday_range: VALIDATE_WORKDAY_RANGE,
        err_read_workday: ERR_READ_WORKDAY,
        prompt_parallel_products: PROMPT_PARALLEL_PRODUCTS,
        validate_parallel_range: VALIDATE_PARALLEL_RANGE,
        err_read_parallel: ERR_READ_PARALLEL,
        sales_needed_header: SALES_NEEDED_HEADER,
        monthly_label: MONTHLY_LABEL,
        annual_label: ANNUAL_LABEL,
        err_write_result_file: ERR_WRITE_RESULT_FILE,
        warn_product_excluded: WARN_PRODUCT_EXCLUDED,
        warn_no_positive_products: WARN_NO_POSITIVE_PRODUCTS,
        random_split_header: RANDOM_SPLIT_HEADER,
        split_item: SPLIT_ITEM,
        per_product_header: PER_PRODUCT_HEADER,
        per_product_monthly: PER_PRODUCT_MONTHLY,
        per_product_annual: PER_PRODUCT_ANNUAL,
        totals_header: TOTALS_HEADER,
        total_monthly_sales: TOTAL_MONTHLY_SALES,
        total_month_row: TOTAL_MONTH_ROW,
        total_annual_sales: TOTAL_ANNUAL_SALES,
        err_write_result_file_for: ERR_WRITE_RESULT_FILE_FOR,
        err_write_totals_file: ERR_WRITE_TOTALS_FILE,
        warn_no_txt_files: WARN_NO_TXT_FILES,
        menu_prompt: MENU_PROMPT,
        err_menu: ERR_MENU,
        warn_no_selection: WARN_NO_SELECTION,
        err_read_file: ERR_READ_FILE,
        summary_net_profit: SUMMARY_NET_PROFIT,
        summary_margin: SUMMARY_MARGIN,
        summary_monthly: SUMMARY_MONTHLY,
        summary_annual: SUMMARY_ANNUAL,
        tui_tab_products: TUI_TAB_PRODUCTS,
        tui_tab_graph: TUI_TAB_GRAPH,
        tui_sidebar_month: TUI_SIDEBAR_MONTH,
        tui_sidebar_settings: TUI_SIDEBAR_SETTINGS,
        tui_sidebar_totals: TUI_SIDEBAR_TOTALS,
        tui_products_yearly: TUI_PRODUCTS_YEARLY,
        tui_month_pct_sales: TUI_MONTH_PCT_SALES,
        tui_slider_workday: TUI_SLIDER_WORKDAY,
        tui_slider_parallel: TUI_SLIDER_PARALLEL,
        tui_slider_monthly_goal: TUI_SLIDER_MONTHLY_GOAL,
        tui_slider_yearly_goal: TUI_SLIDER_YEARLY_GOAL,
        tui_slider_month: TUI_SLIDER_MONTH,
        tui_parallel_label: TUI_PARALLEL_LABEL,
        tui_lock_year: TUI_LOCK_YEAR,
        tui_lock_month: TUI_LOCK_MONTH,
        tui_yearly_sales: TUI_YEARLY_SALES,
        tui_legend_units: TUI_LEGEND_UNITS,
        tui_legend_profit: TUI_LEGEND_PROFIT,
        tui_legend_cost: TUI_LEGEND_COST,
        tui_axis_max: TUI_AXIS_MAX,
        tui_max: TUI_MAX,
        tui_profit: TUI_PROFIT,
        tui_yearly: TUI_YEARLY,
        tui_donut_margin: TUI_DONUT_MARGIN,
        tui_donut_vs_year: TUI_DONUT_VS_YEAR,
        tui_label_monthly: TUI_LABEL_MONTHLY,
        tui_label_yearly: TUI_LABEL_YEARLY,
        tui_label_settings: TUI_LABEL_SETTINGS,
        tui_label_sales: TUI_LABEL_SALES,
        tui_label_min: TUI_LABEL_MIN,
        tui_label_hours: TUI_LABEL_HOURS,
        tui_label_workdays: TUI_LABEL_WORKDAYS,
        tui_label_workday: TUI_LABEL_WORKDAY,
        tui_label_parallel: TUI_LABEL_PARALLEL,
        tui_label_yearly_ref: TUI_LABEL_YEARLY_REF,
        tui_label_12x_mo: TUI_LABEL_12X_MO,
        tui_label_goal: TUI_LABEL_GOAL,
        tui_suffix_hours: TUI_SUFFIX_HOURS,
        tui_region_main: TUI_REGION_MAIN,
        tui_region_sidebar: TUI_REGION_SIDEBAR,
        tui_footer: TUI_FOOTER,
        tui_footer_status: TUI_FOOTER_STATUS,
        tui_export_error: TUI_EXPORT_ERROR,
        tui_export_error_totals: TUI_EXPORT_ERROR_TOTALS,
        tui_exported: TUI_EXPORTED,
        tui_no_products: TUI_NO_PRODUCTS,
        tui_help_title: TUI_HELP_TITLE,
        tui_help_text: TUI_HELP_TEXT,
    }
}

/// Builds the English dictionary.
pub fn make() -> (d: Dict)
    ensures
        d == table(),
{
    Dict {
        usage_label: USAGE_LABEL,
        usage_interactive: USAGE_INTERACTIVE,
        usage_list: USAGE_LIST,
        usage_lang: USAGE_LANG,
        no_txt_files: NO_TXT_FILES,
        cannot_read_file: CANNOT_READ_FILE,
        file_colon_msg: FILE_COLON_MSG,
        parsed_products_header: PARSED_PRODUCTS_HEADER,
        no_valid_products: NO_VALID_PRODUCTS,
        file_label: FILE_LABEL,
        not_a_directory: NOT_A_DIRECTORY,
        unknown_lang: UNKNOWN_LANG,
        cost_display: COST_DISPLAY,
        product_label: PRODUCT_LABEL,
        sale_price_label: SALE_PRICE_LABEL,
        production_time_label: PRODUCTION_TIME_LABEL,
        costs_header: COSTS_HEADER,
        no_costs: NO_COSTS,
        time_mins: TIME_MINS,
        time_hours: TIME_HOURS,
        err_duplicate_product_line: ERR_DUPLICATE_PRODUCT_LINE,
        err_line_prefix: ERR_LINE_PREFIX,
        err_unexpected_line: ERR_UNEXPECTED_LINE,
        err_missing_product_line: ERR_MISSING_PRODUCT_LINE,
        err_product_sections: ERR_PRODUCT_SECTIONS,
        err_product_plus: ERR_PRODUCT_PLUS,
        err_empty_product_name: ERR_EMPTY_PRODUCT_NAME,
        err_sale_section: ERR_SALE_SECTION,
        err_invalid_sale_price: ERR_INVALID_SALE_PRICE,
        err_invalid_sale_currency: ERR_INVALID_SALE_CURRENCY,
        err_time_section: ERR_TIME_SECTION,
        err_invalid_prod_time: ERR_INVALID_PROD_TIME,
        err_invalid_time_unit: ERR_INVALID_TIME_UNIT,
        err_cost_minus: ERR_COST_MINUS,
        err_cost_tokens: ERR_COST_TOKENS,
        err_invalid_cost_price: ERR_INVALID_COST_PRICE,
        err_invalid_cost_currency: ERR_INVALID_COST_CURRENCY,
        result_product: RESULT_PRODUCT,
        result_sale_price: RESULT_SALE_PRICE,
        result_total_cost: RESULT_TOTAL_COST,
        result_net_profit_unit: RESULT_NET_PROFIT_UNIT,
        result_profit_margin: RESULT_PROFIT_MARGIN,
        result_prod_time: RESULT_PROD_TIME,
        result_monthly_goal: RESULT_MONTHLY_GOAL,
        result_monthly_time: RESULT_MONTHLY_TIME,
        result_month_row: RESULT_MONTH_ROW,
        result_annual_goal: RESULT_ANNUAL_GOAL,
        result_annual_time: RESULT_ANNUAL_TIME,
        result_workday: RESULT_WORKDAY,
        result_parallel: RESULT_PARALLEL,
        required_sales_needle: REQUIRED_SALES_NEEDLE,
        warn_net_profit_nonpositive: WARN_NET_PROFIT_NONPOSITIVE,
        prompt_monthly_goal: PROMPT_MONTHLY_GOAL,
        prompt_annual_goal: PROMPT_ANNUAL_GOAL,
        prompt_monthly_goal_plain: PROMPT_MONTHLY_GOAL_PLAIN,
        prompt_annual_goal_plain: PROMPT_ANNUAL_GOAL_PLAIN,
        err_read_monthly_goal: ERR_READ_MONTHLY_GOAL,
        err_read_annual_goal: ERR_READ_ANNUAL_GOAL,
        prompt_workday_hours: PROMPT_WORKDAY_HOURS,
        validate_workday_range: VALIDATE_WORKDAY_RANGE,
        err_read_workday: ERR_READ_WORKDAY,
        prompt_parallel_products: PROMPT_PARALLEL_PRODUCTS,
        validate_parallel_range: VALIDATE_PARALLEL_RANGE,
        err_read_parallel: ERR_READ_PARALLEL,
        sales_needed_header: SALES_NEEDED_HEADER,
        monthly_label: MONTHLY_LABEL,
        annual_label: ANNUAL_LABEL,
        err_write_result_file: ERR_WRITE_RESULT_FILE,
        warn_product_excluded: WARN_PRODUCT_EXCLUDED,
        warn_no_positive_products: WARN_NO_POSITIVE_PRODUCTS,
        random_split_header: RANDOM_SPLIT_HEADER,
        split_item: SPLIT_ITEM,
        per_product_header: PER_PRODUCT_HEADER,
        per_product_monthly: PER_PRODUCT_MONTHLY,
        per_product_annual: PER_PRODUCT_ANNUAL,
        totals_header: TOTALS_HEADER,
        total_monthly_sales: TOTAL_MONTHLY_SALES,
        total_month_row: TOTAL_MONTH_ROW,
        total_annual_sales: TOTAL_ANNUAL_SALES,
        err_write_result_file_for: ERR_WRITE_RESULT_FILE_FOR,
        err_write_totals_file: ERR_WRITE_TOTALS_FILE,
        warn_no_txt_files: WARN_NO_TXT_FILES,
        menu_prompt: MENU_PROMPT,
        err_menu: ERR_MENU,
        warn_no_selection: WARN_NO_SELECTION,
        err_read_file: ERR_READ_FILE,
        summary_net_profit: SUMMARY_NET_PROFIT,
        summary_margin: SUMMARY_MARGIN,
        summary_monthly: SUMMARY_MONTHLY,
        summary_annual: SUMMARY_ANNUAL,
        tui_tab_products: TUI_TAB_PRODUCTS,
        tui_tab_graph: TUI_TAB_GRAPH,
        tui_sidebar_month: TUI_SIDEBAR_MONTH,
        tui_sidebar_settings: TUI_SIDEBAR_SETTINGS,
        tui_sidebar_totals: TUI_SIDEBAR_TOTALS,
        tui_products_yearly: TUI_PRODUCTS_YEARLY,
        tui_month_pct_sales: TUI_MONTH_PCT_SALES,
        tui_slider_workday: TUI_SLIDER_WORKDAY,
        tui_slider_parallel: TUI_SLIDER_PARALLEL,
        tui_slider_monthly_goal: TUI_SLIDER_MONTHLY_GOAL,
        tui_slider_yearly_goal: TUI_SLIDER_YEARLY_GOAL,
        tui_slider_month: TUI_SLIDER_MONTH,
        tui_parallel_label: TUI_PARALLEL_LABEL,
        tui_lock_year: TUI_LOCK_YEAR,
        tui_lock_month: TUI_LOCK_MONTH,
        tui_yearly_sales: TUI_YEARLY_SALES,
        tui_legend_units: TUI_LEGEND_UNITS,
        tui_legend_profit: TUI_LEGEND_PROFIT,
        tui_legend_cost: TUI_LEGEND_COST,
        tui_axis_max: TUI_AXIS_MAX,
        tui_max: TUI_MAX,
        tui_profit: TUI_PROFIT,
        tui_yearly: TUI_YEARLY,
        tui_donut_margin: TUI_DONUT_MARGIN,
        tui_donut_vs_year: TUI_DONUT_VS_YEAR,
        tui_label_monthly: TUI_LABEL_MONTHLY,
        tui_label_yearly: TUI_LABEL_YEARLY,
        tui_label_settings: TUI_LABEL_SETTINGS,
        tui_label_sales: TUI_LABEL_SALES,
        tui_label_min: TUI_LABEL_MIN,
        tui_label_hours: TUI_LABEL_HOURS,
        tui_label_workdays: TUI_LABEL_WORKDAYS,
        tui_label_workday: TUI_LABEL_WORKDAY,
        tui_label_parallel: TUI_LABEL_PARALLEL,
        tui_label_yearly_ref: TUI_LABEL_YEARLY_REF,
        tui_label_12x_mo: TUI_LABEL_12X_MO,
        tui_label_goal: TUI_LABEL_GOAL,
        tui_suffix_hours: TUI_SUFFIX_HOURS,
        tui_region_main: TUI_REGION_MAIN,
        tui_region_sidebar: TUI_REGION_SIDEBAR,
        tui_footer: TUI_FOOTER,
        tui_footer_status: TUI_FOOTER_STATUS,
        tui_export_error: TUI_EXPORT_ERROR,
        tui_export_error_totals: TUI_EXPORT_ERROR_TOTALS,
        tui_exported: TUI_EXPORTED,
        tui_no_products: TUI_NO_PRODUCTS,
        tui_help_title: TUI_HELP_TITLE,
        tui_help_text: TUI_HELP_TEXT,
    }
}

} // verus!
