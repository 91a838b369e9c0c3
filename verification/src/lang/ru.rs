//! Russian messages.
use vstd::prelude::*;
use crate::lang::Dict;

verus! {

pub const USAGE_LABEL: &'static str = "Использование:";
pub const USAGE_INTERACTIVE: &'static str = "  {0} <корневая_папка>          Запустить интерактивное меню симулятора продуктов";
pub const USAGE_LIST: &'static str = "  {0} --list <корневая_папка>   Разобрать и вывести все определения продуктов";
pub const USAGE_LANG: &'static str = "  {0} --lang <код_языка> <корневая_папка>   Задать язык интерфейса (en, es, zh, de, ru, fr)";
pub const NO_TXT_FILES: &'static str = "В '{0}' не найдено .txt-файлов";
pub const CANNOT_READ_FILE: &'static str = "{0}: не удалось прочитать файл: {1}";
pub const FILE_COLON_MSG: &'static str = "{0}: {1}";
pub const PARSED_PRODUCTS_HEADER: &'static str = "=== Разобранные продукты ({0} действительных) ===";
pub const NO_VALID_PRODUCTS: &'static str = "(действительных продуктов не найдено)";
pub const FILE_LABEL: &'static str = "Файл: {0}";
pub const NOT_A_DIRECTORY: &'static str = "Ошибка: '{0}' не является каталогом";
pub const UNKNOWN_LANG: &'static str = "Ошибка: неизвестный код языка '{0}' (поддерживаются: en, es, zh, de, ru, fr)";
pub const COST_DISPLAY: &'static str = "- {0} {1} {2}";
pub const PRODUCT_LABEL: &'static str = "Продукт: {0}";
pub const SALE_PRICE_LABEL: &'static str = "  Цена продажи:     {0} {1}";
pub const PRODUCTION_TIME_LABEL: &'static str = "  Время производства: {0} {1}";
pub const COSTS_HEADER: &'static str = "  Затраты ({0}):";
pub const NO_COSTS: &'static str = "    (нет)";
pub const TIME_MINS: &'static str = "мин";
pub const TIME_HOURS: &'static str = "часы";
pub const ERR_DUPLICATE_PRODUCT_LINE: &'static str = "строка {0}: повторная строка определения продукта";
pub const ERR_LINE_PREFIX: &'static str = "строка {0}: {1}";
pub const ERR_UNEXPECTED_LINE: &'static str = "строка {0}: неожиданная строка, каждая строка должна начинаться с '+' или '-'";
pub const ERR_MISSING_PRODUCT_LINE: &'static str = "отсутствует строка определения продукта (строка, начинающаяся с '+')";
pub const ERR_PRODUCT_SECTIONS: &'static str = "строка продукта должна содержать ровно 3 секции, разделённых двоеточием, найдено {0}";
pub const ERR_PRODUCT_PLUS: &'static str = "строка продукта должна начинаться с '+'";
pub const ERR_EMPTY_PRODUCT_NAME: &'static str = "имя продукта пусто";
pub const ERR_SALE_SECTION: &'static str = "секция продажи должна быть '<цена> <валюта>', найдено {0} токен(ов)";
pub const ERR_INVALID_SALE_PRICE: &'static str = "недопустимая цена продажи '{0}'";
pub const ERR_INVALID_SALE_CURRENCY: &'static str = "недопустимая валюта продажи '{0}': должна быть 3-буквенным кодом ISO 4217 (напр. USD, EUR, GBP, JPY)";
pub const ERR_TIME_SECTION: &'static str = "секция времени производства должна быть '<время> <единица>', найдено {0} токен(ов)";
pub const ERR_INVALID_PROD_TIME: &'static str = "недопустимое время производства '{0}'";
pub const ERR_INVALID_TIME_UNIT: &'static str = "недопустимая единица времени производства '{0}': должна быть mins или hours";
pub const ERR_COST_MINUS: &'static str = "строка затрат должна начинаться с '-'";
pub const ERR_COST_TOKENS: &'static str = "строка затрат должна быть '<цена> <валюта> <описание>', найдено {0} токен(ов)";
pub const ERR_INVALID_COST_PRICE: &'static str = "недопустимая цена затрат '{0}'";
pub const ERR_INVALID_COST_CURRENCY: &'static str = "недопустимая валюта затрат '{0}': должна быть 3-буквенным кодом ISO 4217 (напр. USD, EUR, GBP, JPY)";
pub const RESULT_PRODUCT: &'static str = "📦 Продукт: \t\t\t{0}";
pub const RESULT_SALE_PRICE: &'static str = "💶 Цена продажи: \t\t{0} {1}";
pub const RESULT_TOTAL_COST: &'static str = "💸 Общие затраты: \t\t{0} {1}";
pub const RESULT_NET_PROFIT_UNIT: &'static str = "📈 Чистая прибыль (единица): \t{0} {1}";
pub const RESULT_PROFIT_MARGIN: &'static str = "📊 Маржа прибыли: \t{0}%";
pub const RESULT_PROD_TIME: &'static str = "🕐 Время производства: \t{0} минут";
pub const RESULT_MONTHLY_GOAL: &'static str = "🎯 Месячная цель:\t\t{0} {1} → Требуемые продажи: {2}";
pub const RESULT_MONTHLY_TIME: &'static str = "🕐 Общее время за месяц:\t{0} минут ({1} часов) ({2} параллельных продукта при {3} часах рабочего дня) ({4} рабочих дней)";
pub const RESULT_MONTH_ROW: &'static str = "{0} {1} → {2} продаж  🕐 {3} мин ({4} ч)";
pub const RESULT_ANNUAL_GOAL: &'static str = "🎯 Годовая цель:\t\t\t{0} {1} → Требуемые продажи: {2}";
pub const RESULT_ANNUAL_TIME: &'static str = "🕐 Общее время за год:\t\t{0} минут ({1} часов) ({2} параллельных продукта при {3} часах рабочего дня) ({4} рабочих дней)";
pub const RESULT_WORKDAY: &'static str = "🕐 Рабочий день:\t\t{0} часов";
pub const RESULT_PARALLEL: &'static str = "🧵 Параллельные продукты:\t{0}";
pub const REQUIRED_SALES_NEEDLE: &'static str = "Требуемые продажи:";
pub const WARN_NET_PROFIT_NONPOSITIVE: &'static str = "⚠️ Чистая прибыль на единицу составляет {0} {1}. Достичь цели по чистой прибыли таким образом невозможно.";
pub const PROMPT_MONTHLY_GOAL: &'static str = "🎯 Какова ваша МЕСЯЧНАЯ цель по чистой прибыли (в {0})?";
pub const PROMPT_ANNUAL_GOAL: &'static str = "🎯 Какова ваша ГОДОВАЯ цель по чистой прибыли (в {0})?";
pub const PROMPT_MONTHLY_GOAL_PLAIN: &'static str = "🎯 Какова ваша МЕСЯЧНАЯ цель по чистой прибыли?";
pub const PROMPT_ANNUAL_GOAL_PLAIN: &'static str = "🎯 Какова ваша ГОДОВАЯ цель по чистой прибыли?";
pub const ERR_READ_MONTHLY_GOAL: &'static str = "не удалось прочитать месячную цель: {0}";
pub const ERR_READ_ANNUAL_GOAL: &'static str = "не удалось прочитать годовую цель: {0}";
pub const PROMPT_WORKDAY_HOURS: &'static str = "🕐 Сколько часов в день работает бизнес? ({0}-{1})";
pub const VALIDATE_WORKDAY_RANGE: &'static str = "Введите число от {0} до {1}";
pub const ERR_READ_WORKDAY: &'static str = "не удалось прочитать часы рабочего дня: {0}";
pub const PROMPT_PARALLEL_PRODUCTS: &'static str = "🧵 Сколько параллельных продуктов может производить бизнес? ({0}-{1})";
pub const VALIDATE_PARALLEL_RANGE: &'static str = "Введите число от {0} до {1}";
pub const ERR_READ_PARALLEL: &'static str = "не удалось прочитать количество параллельных продуктов: {0}";
pub const SALES_NEEDED_HEADER: &'static str = "➡️ Требуемые продажи для достижения чистой прибыли:";
pub const MONTHLY_LABEL: &'static str = "📆 Ежемесячно ({0} {1}):\t{2} продаж";
pub const ANNUAL_LABEL: &'static str = "📅 Ежегодно ({0} {1}):\t{2} продаж";
pub const ERR_WRITE_RESULT_FILE: &'static str = "не удалось записать файл результатов: {0}";
pub const WARN_PRODUCT_EXCLUDED: &'static str = "⚠️ «{0}»: чистая прибыль {1} {2} ≤ 0, исключён из распределения.";
pub const WARN_NO_POSITIVE_PRODUCTS: &'static str = "⚠️ Ни один продукт не имеет положительной чистой прибыли; цель распределить нельзя.";
pub const RANDOM_SPLIT_HEADER: &'static str = "🎲 Случайное распределение продаж (1%–70% на продукт, нормировано к 100%):";
pub const SPLIT_ITEM: &'static str = "  • {0}  🎲 {1}%  → {2}% от цели";
pub const PER_PRODUCT_HEADER: &'static str = "➡️ Требуемые продажи по продуктам (распределённая цель):";
pub const PER_PRODUCT_MONTHLY: &'static str = "      📆 Месяц:  {0} {1}  {2} продаж  🕐 {3} мин ({4} ч)";
pub const PER_PRODUCT_ANNUAL: &'static str = "      📅 Год:      {0} {1}  {2} продаж  🕐 {3} мин ({4} ч)";
pub const TOTALS_HEADER: &'static str = "📊 Итоги ({0} продуктов):";
pub const TOTAL_MONTHLY_SALES: &'static str = "  📆 Всего продаж за месяц:  {0}  🕐 {1} мин ({2} ч) ({3} параллельных продукта при {4} часах рабочего дня) ({5} рабочих дней)";
pub const TOTAL_MONTH_ROW: &'static str = "{0} продаж  🕐 {1} мин ({2} ч)";
pub const TOTAL_ANNUAL_SALES: &'static str = "  📅 Всего продаж за год:  {0}  🕐 {1} мин ({2} ч) ({3} параллельных продукта при {4} часах рабочего дня) ({5} рабочих дней)";
pub const ERR_WRITE_RESULT_FILE_FOR: &'static str = "не удалось записать файл результатов для «{0}»: {1}";
pub const ERR_WRITE_TOTALS_FILE: &'static str = "не удалось записать файл итогов: {0}";
pub const WARN_NO_TXT_FILES: &'static str = "⚠️ В папке '{0}' нет допустимых .txt-файлов";
pub const MENU_PROMPT: &'static str = "📄 Выберите один или несколько файлов (пробел — отметить, ввод — подтвердить):";
pub const ERR_MENU: &'static str = "ошибка меню: {0}";
pub const WARN_NO_SELECTION: &'static str = "⚠️ Файл не выбран.";
pub const ERR_READ_FILE: &'static str = "❌ Ошибка чтения файла \"{0}\": {1}";
pub const SUMMARY_NET_PROFIT: &'static str = "\t💶 {0} {1}";
pub const SUMMARY_MARGIN: &'static str = "\t📊 {0}%";
pub const SUMMARY_MONTHLY: &'static str = "\t📆 {0} продаж (месяц) \t 🕐 {1} мин (месяц)";
pub const SUMMARY_ANNUAL: &'static str = "\t📅 {0} продаж (год) \t🕐 {1} часов (год)";
pub const TUI_TAB_PRODUCTS: &'static str = "Продукты";
pub const TUI_TAB_GRAPH: &'static str = "График";
pub const TUI_SIDEBAR_MONTH: &'static str = "Месяц";
pub const TUI_SIDEBAR_SETTINGS: &'static str = "Настройки";
pub const TUI_SIDEBAR_TOTALS: &'static str = "Итоги";
pub const TUI_PRODUCTS_YEARLY: &'static str = "Продукты (годовой %)";
pub const TUI_MONTH_PCT_SALES: &'static str = "{0} (продажи %)";
pub const TUI_SLIDER_WORKDAY: &'static str = "Часы рабочего дня";
pub const TUI_SLIDER_PARALLEL: &'static str = "Параллельные продукты";
pub const TUI_SLIDER_MONTHLY_GOAL: &'static str = "Месячная цель по чистой прибыли";
pub const TUI_SLIDER_YEARLY_GOAL: &'static str = "Годовая цель по чистой прибыли";
pub const TUI_SLIDER_MONTH: &'static str = "Месяц";
pub const TUI_PARALLEL_LABEL: &'static str = "Параллельные продукты [{0}..={1}]";
pub const TUI_LOCK_YEAR: &'static str = " блок. год";
pub const TUI_LOCK_MONTH: &'static str = " блок. месяц";
pub const TUI_YEARLY_SALES: &'static str = "Годовые продажи";
pub const TUI_LEGEND_UNITS: &'static str = "\u{25a0} единиц (n)   ";
pub const TUI_LEGEND_PROFIT: &'static str = "\u{25a0} прибыль ($)   ";
pub const TUI_LEGEND_COST: &'static str = "\u{25a0} затраты ($)   ";
pub const TUI_AXIS_MAX: &'static str = "макс. оси";
pub const TUI_MAX: &'static str = "макс";
pub const TUI_PROFIT: &'static str = "прибыль";
pub const TUI_YEARLY: &'static str = "годовой";
pub const TUI_DONUT_MARGIN: &'static str = "маржа";
pub const TUI_DONUT_VS_YEAR: &'static str = "vs год";
pub const TUI_LABEL_MONTHLY: &'static str = "Ежемесячно";
pub const TUI_LABEL_YEARLY: &'static str = "Ежегодно";
pub const TUI_LABEL_SETTINGS: &'static str = "Настройки";
pub const TUI_LABEL_SALES: &'static str = "продажи";
pub const TUI_LABEL_MIN: &'static str = "мин";
pub const TUI_LABEL_HOURS: &'static str = "часы";
pub const TUI_LABEL_WORKDAYS: &'static str = "раб. дни";
pub const TUI_LABEL_WORKDAY: &'static str = "раб. день";
pub const TUI_LABEL_PARALLEL: &'static str = "паралл.";
pub const TUI_LABEL_YEARLY_REF: &'static str = "Годовая ссылка";
pub const TUI_LABEL_12X_MO: &'static str = "12x мес";
pub const TUI_LABEL_GOAL: &'static str = "цель";
pub const TUI_SUFFIX_HOURS: &'static str = "ч";
pub const TUI_REGION_MAIN: &'static str = "основная";
pub const TUI_REGION_SIDEBAR: &'static str = "боковая";
pub const TUI_FOOTER: &'static str = "регион: {0}   Tab регион   Shift+Tab вкладка   \u{2191}/\u{2193} прокрутка/навигация   \u{2190}/\u{2192} настроить   Пробел блок.   Ctrl+E экспорт   Ctrl+H справка   q выход";
pub const TUI_FOOTER_STATUS: &'static str = "{0}   |   регион: {1}   Tab регион   Shift+Tab вкладка   \u{2191}/\u{2193} прокрутка/навигация   \u{2190}/\u{2192} настроить   Пробел блок.   Ctrl+E экспорт   Ctrl+H справка   q выход";
pub const TUI_EXPORT_ERROR: &'static str = "ошибка экспорта ({0}): {1}";
pub const TUI_EXPORT_ERROR_TOTALS: &'static str = "ошибка экспорта (итоги): {0}";
pub const TUI_EXPORTED: &'static str = "экспортировано {0} файлов продуктов + итоги в {1}";
pub const TUI_NO_PRODUCTS: &'static str = "В {0} не найдено продуктов с положительной чистой прибылью";
pub const TUI_HELP_TITLE: &'static str = "Справка";
pub const TUI_HELP_TEXT: &'static str = "## Определение продукта (файлы .txt)\nКаждый продукт — текстовый файл в папке бизнеса. Первая строка задаёт продукт; каждая следующая строка, начинающаяся с «- », — это статья затрат.\n\n  + <название> : <цена_продажи> <валюта> : <время_производства> <единица>\n    - <цена_затрат> <валюта> <описание>\n    - <цена_затрат> <валюта> <описание>\n\n  Пример:\n  + Beer : 2.7 USD : 0.2 mins\n    - 0.27 USD labor\n    - 0.32 USD beer\n    - 0.10 USD cleaning\n\n  - Валюта: любой 3-буквенный код ISO 4217 (USD, EUR, GBP, JPY, MXN, CNY, ...).\n  - Единицы времени производства: «mins» или «hours».\n  - Продукты с нулевой или отрицательной чистой прибылью (цена - итог затрат) пропускаются.\n  - Файлы *.simulation_results.txt и файл состояния simulation_state.txt игнорируются загрузчиком.\n\n## Цели по месячной и годовой чистой прибыли\nСимулятор ориентируется на цель по ЧИСТОЙ ПРИБЫЛИ (доход минус затраты), а не по выручке. Два ползунка на боковой панели задают цели:\n\n  - Месячная цель: чистая прибыль, которую должен достигать каждый месяц (по умолчанию 500).\n  - Годовая цель: эталонная цель рядом с суммой 12 x месячных (по умолчанию 500). Годовой итог — это СУММА 12 месячных результатов, поэтому годовая цель лишь ориентир.\n\nКаждый месяц месячная цель распределяется между продуктами по их процентам продаж, давая требуемое число продаж по каждому продукту:\n\n  required_sales = ceil(доля * месячная_цель / чистая_прибыль_за_единицу)\n\n## Параллельные продукты / услуги\nПолзунок «parallel» — сколько продуктов можно производить или услуг оказывать одновременно. Вместе с часами рабочего дня он задаёт месячную ПРОИЗВОДСТВЕННУЮ МОЩНОСТЬ в минутах:\n\n  capacity_minutes = часы_рабочего_дня * 22 рабочих_дня * 60 * parallel\n\nЕсли требуемые минуты производства превышают мощность, продажи пропорционально уменьшаются (в этом месяце цель недостижима полностью). Диапазон parallel автоматически ограничивается так, чтобы цели оставались достижимыми; min/max ползунка пересчитываются при каждом изменении.\n\n## Часы рабочего дня\nСколько часов в день работает бизнес (1..24, по умолчанию 8). Используется в формуле мощности выше и в показателе «рабочие дни» в результатах:\n\n  workdays = требуемые_часы / (часы_рабочего_дня * parallel)\n\n## Месячное / годовое распределение продаж %\nЦель каждого месяца делится между продуктами через проценты. Каждый столбец месяца всегда даёт в сумме ровно 100%.\n\n  - Вкладка Graph: выбор месяца (Янв..Дек). У каждого продукта ползунок месячного %. Изменение задаёт % продукта и перераспределяет остаток ПОРОВНУ между остальными незаблокированными продуктами этого месяца.\n  - Вкладка Products: у каждого продукта ползунок годового % (среднее его 12 месячных значений). Изменение распространяет целевое значение на каждый месяц, где продукт не заблокирован по месяцу, с перераспределением внутри каждого месяца.\n\nДиаграмма строит 12 отдельных месячных столбцов, поэтому состав может меняться по месяцам (сезонный спрос). Годовой итог — сумма 12 месяцев.\n\n## Блокировки\nБлокировки замораживают процент продукта, исключая его из перераспределения.\n\n  - Годовая блокировка (вкладка Products, Space на годовом ползунке): замораживает продукт во ВСЕХ 12 месяцах. Флажки месяцев отображаются отмеченными и серыми.\n  - Месячная блокировка (вкладка Graph, Space на месячном ползунке): замораживает продукт только в выбранном месяце (отключена, если продукт заблокирован по году).\n\nЗаблокированные продукты сохраняют фиксированную долю 100%-ного пирога; оставшийся процент делится между незаблокированными продуктами.\n\n## Экспорт и состояние\nНажмите Ctrl+E для экспорта текущей симуляции:\n\n  - По одному <продукт>.simulation_results.txt на продукт (статистика + 12 месячных строк + годовая строка + рабочий день/parallel).\n  - Файл totals.simulation_results.txt, объединяющий все продукты.\n  - Файл simulation_state.txt, сохраняющий проценты, блокировки и настройки.\n\nПри повторном открытии восстанавливается сохранённое распределение. Если продукты были добавлены или удалены, проценты каждого месяца перенормируются к сумме 100%.\n\n## Клавиши\n  Tab          переключить боковую панель <-> главную область\n  Shift+Tab    переключить вкладку Products <-> Graph\n  Up / Down    прокрутка главной области или навигация по ползункам\n  Left / Right настроить активный ползунок\n  Space        переключить блокировку активного ползунка продукта\n  Ctrl+E       экспорт симуляции + сохранение состояния\n  Ctrl+H       открыть / закрыть эту справку\n  q / Esc      выход (закрыть справку, если она открыта)";

/// The Russian dictionary.
pub open spec fn table() -> Dict {
    Dict {
        usage_label: USAGE_LABEL,
        usage_interactive: USAGE_INTERACTIVE,
        usage_list: USAGE_LIST,
        usage_lang: USAGE_LANG,
        no_txt_files: NO_TXT_FILES,
        cannot_read_file: CANNOT_READ_FILE,
        file_colon_msg: FILE_COLON_MSG,
        parsed_products_header: PARSED_PRODUCTS_HEADER,
        no_valid_products: NO_VALID_PRODUCTS,
        file_label: FILE_LABEL,
        not_a_directory: NOT_A_DIRECTORY,
        unknown_lang: UNKNOWN_LANG,
        cost_display: COST_DISPLAY,
        product_label: PRODUCT_LABEL,
        sale_price_label: SALE_PRICE_LABEL,
        production_time_label: PRODUCTION_TIME_LABEL,
        costs_header: COSTS_HEADER,
        no_costs: NO_COSTS,
        time_mins: TIME_MINS,
        time_hours: TIME_HOURS,
        err_duplicate_product_line: ERR_DUPLICATE_PRODUCT_LINE,
        err_line_prefix: ERR_LINE_PREFIX,
        err_unexpected_line: ERR_UNEXPECTED_LINE,
        err_missing_product_line: ERR_MISSING_PRODUCT_LINE,
        err_product_sections: ERR_PRODUCT_SECTIONS,
        err_product_plus: ERR_PRODUCT_PLUS,
        err_empty_product_name: ERR_EMPTY_PRODUCT_NAME,
        err_sale_section: ERR_SALE_SECTION,
        err_invalid_sale_price: ERR_INVALID_SALE_PRICE,
        err_invalid_sale_currency: ERR_INVALID_SALE_CURRENCY,
        err_time_section: ERR_TIME_SECTION,
        err_invalid_prod_time: ERR_INVALID_PROD_TIME,
        err_invalid_time_unit: ERR_INVALID_TIME_UNIT,
        err_cost_minus: ERR_COST_MINUS,
        err_cost_tokens: ERR_COST_TOKENS,
        err_invalid_cost_price: ERR_INVALID_COST_PRICE,
        err_invalid_cost_currency: ERR_INVALID_COST_CURRENCY,
        result_product: RESULT_PRODUCT,
        result_sale_price: RESULT_SALE_PRICE,
        result_total_cost: RESULT_TOTAL_COST,
        result_net_profit_unit: RESULT_NET_PROFIT_UNIT,
        result_profit_margin: RESULT_PROFIT_MARGIN,
        result_prod_time: RESULT_PROD_TIME,
        result_monthly_goal: RESULT_MONTHLY_GOAL,
        result_monthly_time: RESULT_MONTHLY_TIME,
        result_month_row: RESULT_MONTH_ROW,
        result_annual_goal: RESULT_ANNUAL_GOAL,
        result_annual_time: RESULT_ANNUAL_TIME,
        result_workday: RESULT_WORKDAY,
        result_parallel: RESULT_PARALLEL,
        required_sales_needle: REQUIRED_SALES_NEEDLE,
        warn_net_profit_nonpositive: WARN_NET_PROFIT_NONPOSITIVE,
        prompt_monthly_goal: PROMPT_MONTHLY_GOAL,
        prompt_annual_goal: PROMPT_ANNUAL_GOAL,
        prompt_monthly_goal_plain: PROMPT_MONTHLY_GOAL_PLAIN,
        prompt_annual_goal_plain: PROMPT_ANNUAL_GOAL_PLAIN,
        err_read_monthly_goal: ERR_READ_MONTHLY_GOAL,
        err_read_annual_goal: ERR_READ_ANNUAL_GOAL,
        prompt_workday_hours: PROMPT_WORKDAY_HOURS,
        validate_workday_range: VALIDATE_WORKDAY_RANGE,
        err_read_workday: ERR_READ_WORKDAY,
        prompt_parallel_products: PROMPT_PARALLEL_PRODUCTS,
        validate_parallel_range: VALIDATE_PARALLEL_RANGE,
        err_read_parallel: ERR_READ_PARALLEL,
        sales_needed_header: SALES_NEEDED_HEADER,
        monthly_label: MONTHLY_LABEL,
        annual_label: ANNUAL_LABEL,
        err_write_result_file: ERR_WRITE_RESULT_FILE,
        warn_product_excluded: WARN_PRODUCT_EXCLUDED,
        warn_no_positive_products: WARN_NO_POSITIVE_PRODUCTS,
        random_split_header: RANDOM_SPLIT_HEADER,
        split_item: SPLIT_ITEM,
        per_product_header: PER_PRODUCT_HEADER,
        per_product_monthly: PER_PRODUCT_MONTHLY,
        per_product_annual: PER_PRODUCT_ANNUAL,
        totals_header: TOTALS_HEADER,
        total_monthly_sales: TOTAL_MONTHLY_SALES,
        total_month_row: TOTAL_MONTH_ROW,
        total_annual_sales: TOTAL_ANNUAL_SALES,
        err_write_result_file_for: ERR_WRITE_RESULT_FILE_FOR,
        err_write_totals_file: ERR_WRITE_TOTALS_FILE,
        warn_no_txt_files: WARN_NO_TXT_FILES,
        menu_prompt: MENU_PROMPT,
        err_menu: ERR_MENU,
        warn_no_selection: WARN_NO_SELECTION,
        err_read_file: ERR_READ_FILE,
        summary_net_profit: SUMMARY_NET_PROFIT,
        summary_margin: SUMMARY_MARGIN,
        summary_monthly: SUMMARY_MONTHLY,
        summary_annual: SUMMARY_ANNUAL,
        tui_tab_products: TUI_TAB_PRODUCTS,
        tui_tab_graph: TUI_TAB_GRAPH,
        tui_sidebar_month: TUI_SIDEBAR_MONTH,
        tui_sidebar_settings: TUI_SIDEBAR_SETTINGS,
        tui_sidebar_totals: TUI_SIDEBAR_TOTALS,
        tui_products_yearly: TUI_PRODUCTS_YEARLY,
        tui_month_pct_sales: TUI_MONTH_PCT_SALES,
        tui_slider_workday: TUI_SLIDER_WORKDAY,
        tui_slider_parallel: TUI_SLIDER_PARALLEL,
        tui_slider_monthly_goal: TUI_SLIDER_MONTHLY_GOAL,
        tui_slider_yearly_goal: TUI_SLIDER_YEARLY_GOAL,
        tui_slider_month: TUI_SLIDER_MONTH,
        tui_parallel_label: TUI_PARALLEL_LABEL,
        tui_lock_year: TUI_LOCK_YEAR,
        tui_lock_month: TUI_LOCK_MONTH,
        tui_yearly_sales: TUI_YEARLY_SALES,
        tui_legend_units: TUI_LEGEND_UNITS,
        tui_legend_profit: TUI_LEGEND_PROFIT,
        tui_legend_cost: TUI_LEGEND_COST,
        tui_axis_max: TUI_AXIS_MAX,
        tui_max: TUI_MAX,
        tui_profit: TUI_PROFIT,
        tui_yearly: TUI_YEARLY,
        tui_donut_margin: TUI_DONUT_MARGIN,
        tui_donut_vs_year: TUI_DONUT_VS_YEAR,
        tui_label_monthly: TUI_LABEL_MONTHLY,
        tui_label_yearly: TUI_LABEL_YEARLY,
        tui_label_settings: TUI_LABEL_SETTINGS,
        tui_label_sales: TUI_LABEL_SALES,
        tui_label_min: TUI_LABEL_MIN,
        tui_label_hours: TUI_LABEL_HOURS,
        tui_label_workdays: TUI_LABEL_WORKDAYS,
        tui_label_workday: TUI_LABEL_WORKDAY,
        tui_label_parallel: TUI_LABEL_PARALLEL,
        tui_label_yearly_ref: TUI_LABEL_YEARLY_REF,
        tui_label_12x_mo: TUI_LABEL_12X_MO,
        tui_label_goal: TUI_LABEL_GOAL,
        tui_suffix_hours: TUI_SUFFIX_HOURS,
        tui_region_main: TUI_REGION_MAIN,
        tui_region_sidebar: TUI_REGION_SIDEBAR,
        tui_footer: TUI_FOOTER,
        tui_footer_status: TUI_FOOTER_STATUS,
        tui_export_error: TUI_EXPORT_ERROR,
        tui_export_error_totals: TUI_EXPORT_ERROR_TOTALS,
        tui_exported: TUI_EXPORTED,
        tui_no_products: TUI_NO_PRODUCTS,
        tui_help_title: TUI_HELP_TITLE,
        tui_help_text: TUI_HELP_TEXT,
    }
}

/// Builds the Russian dictionary.
pub fn make() -> (d: Dict)
    ensures
        d == table(),
{
    Dict {
        usage_label: USAGE_LABEL,
        usage_interactive: USAGE_INTERACTIVE,
        usage_list: USAGE_LIST,
        usage_lang: USAGE_LANG,
        no_txt_files: NO_TXT_FILES,
        cannot_read_file: CANNOT_READ_FILE,
        file_colon_msg: FILE_COLON_MSG,
        parsed_products_header: PARSED_PRODUCTS_HEADER,
        no_valid_products: NO_VALID_PRODUCTS,
        file_label: FILE_LABEL,
        not_a_directory: NOT_A_DIRECTORY,
        unknown_lang: UNKNOWN_LANG,
        cost_display: COST_DISPLAY,
        product_label: PRODUCT_LABEL,
        sale_price_label: SALE_PRICE_LABEL,
        production_time_label: PRODUCTION_TIME_LABEL,
        costs_header: COSTS_HEADER,
        no_costs: NO_COSTS,
        time_mins: TIME_MINS,
        time_hours: TIME_HOURS,
        err_duplicate_product_line: ERR_DUPLICATE_PRODUCT_LINE,
        err_line_prefix: ERR_LINE_PREFIX,
        err_unexpected_line: ERR_UNEXPECTED_LINE,
        err_missing_product_line: ERR_MISSING_PRODUCT_LINE,
        err_product_sections: ERR_PRODUCT_SECTIONS,
        err_product_plus: ERR_PRODUCT_PLUS,
        err_empty_product_name: ERR_EMPTY_PRODUCT_NAME,
        err_sale_section: ERR_SALE_SECTION,
        err_invalid_sale_price: ERR_INVALID_SALE_PRICE,
        err_invalid_sale_currency: ERR_INVALID_SALE_CURRENCY,
        err_time_section: ERR_TIME_SECTION,
        err_invalid_prod_time: ERR_INVALID_PROD_TIME,
        err_invalid_time_unit: ERR_INVALID_TIME_UNIT,
        err_cost_minus: ERR_COST_MINUS,
        err_cost_tokens: ERR_COST_TOKENS,
        err_invalid_cost_price: ERR_INVALID_COST_PRICE,
        err_invalid_cost_currency: ERR_INVALID_COST_CURRENCY,
        result_product: RESULT_PRODUCT,
        result_sale_price: RESULT_SALE_PRICE,
        result_total_cost: RESULT_TOTAL_COST,
        result_net_profit_unit: RESULT_NET_PROFIT_UNIT,
        result_profit_margin: RESULT_PROFIT_MARGIN,
        result_prod_time: RESULT_PROD_TIME,
        result_monthly_goal: RESULT_MONTHLY_GOAL,
        result_monthly_time: RESULT_MONTHLY_TIME,
        result_month_row: RESULT_MONTH_ROW,
        result_annual_goal: RESULT_ANNUAL_GOAL,
        result_annual_time: RESULT_ANNUAL_TIME,
        result_workday: RESULT_WORKDAY,
        result_parallel: RESULT_PARALLEL,
        required_sales_needle: REQUIRED_SALES_NEEDLE,
        warn_net_profit_nonpositive: WARN_NET_PROFIT_NONPOSITIVE,
        prompt_monthly_goal: PROMPT_MONTHLY_GOAL,
        prompt_annual_goal: PROMPT_ANNUAL_GOAL,
        prompt_monthly_goal_plain: PROMPT_MONTHLY_GOAL_PLAIN,
        prompt_annual_goal_plain: PROMPT_ANNUAL_GOAL_PLAIN,
        err_read_monthly_goal: ERR_READ_MONTHLY_GOAL,
        err_read_annual_goal: ERR_READ_ANNUAL_GOAL,
        prompt_workday_hours: PROMPT_WORKDAY_HOURS,
        validate_workday_range: VALIDATE_WORKDAY_RANGE,
        err_read_workday: ERR_READ_WORKDAY,
        prompt_parallel_products: PROMPT_PARALLEL_PRODUCTS,
        validate_parallel_range: VALIDATE_PARALLEL_RANGE,
        err_read_parallel: ERR_READ_PARALLEL,
        sales_needed_header: SALES_NEEDED_HEADER,
        monthly_label: MONTHLY_LABEL,
        annual_label: ANNUAL_LABEL,
        err_write_result_file: ERR_WRITE_RESULT_FILE,
        warn_product_excluded: WARN_PRODUCT_EXCLUDED,
        warn_no_positive_products: WARN_NO_POSITIVE_PRODUCTS,
        random_split_header: RANDOM_SPLIT_HEADER,
        split_item: SPLIT_ITEM,
        per_product_header: PER_PRODUCT_HEADER,
        per_product_monthly: PER_PRODUCT_MONTHLY,
        per_product_annual: PER_PRODUCT_ANNUAL,
        totals_header: TOTALS_HEADER,
        total_monthly_sales: TOTAL_MONTHLY_SALES,
        total_month_row: TOTAL_MONTH_ROW,
        total_annual_sales: TOTAL_ANNUAL_SALES,
        err_write_result_file_for: ERR_WRITE_RESULT_FILE_FOR,
        err_write_totals_file: ERR_WRITE_TOTALS_FILE,
        warn_no_txt_files: WARN_NO_TXT_FILES,
        menu_prompt: MENU_PROMPT,
        err_menu: ERR_MENU,
        warn_no_selection: WARN_NO_SELECTION,
        err_read_file: ERR_READ_FILE,
        summary_net_profit: SUMMARY_NET_PROFIT,
        summary_margin: SUMMARY_MARGIN,
        summary_monthly: SUMMARY_MONTHLY,
        summary_annual: SUMMARY_ANNUAL,
        tui_tab_products: TUI_TAB_PRODUCTS,
        tui_tab_graph: TUI_TAB_GRAPH,
        tui_sidebar_month: TUI_SIDEBAR_MONTH,
        tui_sidebar_settings: TUI_SIDEBAR_SETTINGS,
        tui_sidebar_totals: TUI_SIDEBAR_TOTALS,
        tui_products_yearly: TUI_PRODUCTS_YEARLY,
        tui_month_pct_sales: TUI_MONTH_PCT_SALES,
        tui_slider_workday: TUI_SLIDER_WORKDAY,
        tui_slider_parallel: TUI_SLIDER_PARALLEL,
        tui_slider_monthly_goal: TUI_SLIDER_MONTHLY_GOAL,
        tui_slider_yearly_goal: TUI_SLIDER_YEARLY_GOAL,
        tui_slider_month: TUI_SLIDER_MONTH,
        tui_parallel_label: TUI_PARALLEL_LABEL,
        tui_lock_year: TUI_LOCK_YEAR,
        tui_lock_month: TUI_LOCK_MONTH,
        tui_yearly_sales: TUI_YEARLY_SALES,
        tui_legend_units: TUI_LEGEND_UNITS,
        tui_legend_profit: TUI_LEGEND_PROFIT,
        tui_legend_cost: TUI_LEGEND_COST,
        tui_axis_max: TUI_AXIS_MAX,
        tui_max: TUI_MAX,
        tui_profit: TUI_PROFIT,
        tui_yearly: TUI_YEARLY,
        tui_donut_margin: TUI_DONUT_MARGIN,
        tui_donut_vs_year: TUI_DONUT_VS_YEAR,
        tui_label_monthly: TUI_LABEL_MONTHLY,
        tui_label_yearly: TUI_LABEL_YEARLY,
        tui_label_settings: TUI_LABEL_SETTINGS,
        tui_label_sales: TUI_LABEL_SALES,
        tui_label_min: TUI_LABEL_MIN,
        tui_label_hours: TUI_LABEL_HOURS,
        tui_label_workdays: TUI_LABEL_WORKDAYS,
        tui_label_workday: TUI_LABEL_WORKDAY,
        tui_label_parallel: TUI_LABEL_PARALLEL,
        tui_label_yearly_ref: TUI_LABEL_YEARLY_REF,
        tui_label_12x_mo: TUI_LABEL_12X_MO,
        tui_label_goal: TUI_LABEL_GOAL,
        tui_suffix_hours: TUI_SUFFIX_HOURS,
        tui_region_main: TUI_REGION_MAIN,
        tui_region_sidebar: TUI_REGION_SIDEBAR,
        tui_footer: TUI_FOOTER,
        tui_footer_status: TUI_FOOTER_STATUS,
        tui_export_error: TUI_EXPORT_ERROR,
        tui_export_error_totals: TUI_EXPORT_ERROR_TOTALS,
        tui_exported: TUI_EXPORTED,
        tui_no_products: TUI_NO_PRODUCTS,
        tui_help_title: TUI_HELP_TITLE,
        tui_help_text: TUI_HELP_TEXT,
    }
}

} // verus!
