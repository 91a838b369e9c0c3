//! Spanish messages.
use vstd::prelude::*;
use crate::lang::Dict;

verus! {

pub const USAGE_LABEL: &'static str = "Uso:";
pub const USAGE_INTERACTIVE: &'static str = "  {0} <carpeta_raíz>          Inicia el menú interactivo del simulador de productos";
pub const USAGE_LIST: &'static str = "  {0} --list <carpeta_raíz>   Analiza e imprime todas las definiciones de productos";
pub const USAGE_LANG: &'static str = "  {0} --lang <código_idioma> <carpeta_raíz>   Selecciona el idioma (en, es, zh, de, ru, fr)";
pub const NO_TXT_FILES: &'static str = "No se encontraron archivos .txt en '{0}'";
pub const CANNOT_READ_FILE: &'static str = "{0}: no se puede leer el archivo: {1}";
pub const FILE_COLON_MSG: &'static str = "{0}: {1}";
pub const PARSED_PRODUCTS_HEADER: &'static str = "=== Productos analizados ({0} válidos) ===";
pub const NO_VALID_PRODUCTS: &'static str = "(no se encontraron productos válidos)";
pub const FILE_LABEL: &'static str = "Archivo: {0}";
pub const NOT_A_DIRECTORY: &'static str = "Error: '{0}' no es un directorio";
pub const UNKNOWN_LANG: &'static str = "Error: código de idioma desconocido '{0}' (soportados: en, es, zh, de, ru, fr)";
pub const COST_DISPLAY: &'static str = "- {0} {1} {2}";
pub const PRODUCT_LABEL: &'static str = "Producto: {0}";
pub const SALE_PRICE_LABEL: &'static str = "  Precio de venta:     {0} {1}";
pub const PRODUCTION_TIME_LABEL: &'static str = "  Tiempo de producción: {0} {1}";
pub const COSTS_HEADER: &'static str = "  Costes ({0}):";
pub const NO_COSTS: &'static str = "    (ninguno)";
pub const TIME_MINS: &'static str = "minutos";
pub const TIME_HOURS: &'static str = "horas";
pub const ERR_DUPLICATE_PRODUCT_LINE: &'static str = "línea {0}: definición de producto duplicada";
pub const ERR_LINE_PREFIX: &'static str = "línea {0}: {1}";
pub const ERR_UNEXPECTED_LINE: &'static str = "línea {0}: línea inesperada, cada línea debe empezar con '+' o '-'";
pub const ERR_MISSING_PRODUCT_LINE: &'static str = "falta la línea de definición de producto (una línea que empieza con '+')";
pub const ERR_PRODUCT_SECTIONS: &'static str = "la línea de producto debe contener exactamente 3 secciones separadas por dos puntos, se encontraron {0}";
pub const ERR_PRODUCT_PLUS: &'static str = "la línea de producto debe empezar con '+'";
pub const ERR_EMPTY_PRODUCT_NAME: &'static str = "el nombre del producto está vacío";
pub const ERR_SALE_SECTION: &'static str = "la sección de venta debe ser '<precio> <moneda>', se encontraron {0} token(s)";
pub const ERR_INVALID_SALE_PRICE: &'static str = "precio de venta inválido '{0}'";
pub const ERR_INVALID_SALE_CURRENCY: &'static str = "moneda de venta inválida '{0}': debe ser un código ISO 4217 de 3 letras (ej. USD, EUR, GBP, JPY)";
pub const ERR_TIME_SECTION: &'static str = "la sección de tiempo de producción debe ser '<tiempo> <unidad>', se encontraron {0} token(s)";
pub const ERR_INVALID_PROD_TIME: &'static str = "tiempo de producción inválido '{0}'";
pub const ERR_INVALID_TIME_UNIT: &'static str = "unidad de tiempo de producción inválida '{0}': debe ser una de mins, hours";
pub const ERR_COST_MINUS: &'static str = "la línea de coste debe empezar con '-'";
pub const ERR_COST_TOKENS: &'static str = "la línea de coste debe ser '<precio> <moneda> <descripción>', se encontraron {0} token(s)";
pub const ERR_INVALID_COST_PRICE: &'static str = "precio de coste inválido '{0}'";
pub const ERR_INVALID_COST_CURRENCY: &'static str = "moneda de coste inválida '{0}': debe ser un código ISO 4217 de 3 letras (ej. USD, EUR, GBP, JPY)";
pub const RESULT_PRODUCT: &'static str = "📦 Producto: \t\t\t{0}";
pub const RESULT_SALE_PRICE: &'static str = "💶 Precio de venta: \t\t{0} {1}";
pub const RESULT_TOTAL_COST: &'static str = "💸 Coste total: \t\t{0} {1}";
pub const RESULT_NET_PROFIT_UNIT: &'static str = "📈 Beneficio neto (unidad): \t{0} {1}";
pub const RESULT_PROFIT_MARGIN: &'static str = "📊 Margen de beneficio: \t{0}%";
pub const RESULT_PROD_TIME: &'static str = "🕐 Tiempo de producción: \t{0} minutos";
pub const RESULT_MONTHLY_GOAL: &'static str = "🎯 Meta mensual:\t\t{0} {1} → Ventas necesarias: {2}";
pub const RESULT_MONTHLY_TIME: &'static str = "🕐 Tiempo mensual total:\t{0} minutos ({1} horas) ({2} productos en paralelo en {3} horas de jornada) ({4} jornadas)";
pub const RESULT_MONTH_ROW: &'static str = "{0} {1} → {2} ventas  🕐 {3} min ({4} h)";
pub const RESULT_ANNUAL_GOAL: &'static str = "🎯 Meta anual:\t\t\t{0} {1} → Ventas necesarias: {2}";
pub const RESULT_ANNUAL_TIME: &'static str = "🕐 Tiempo anual total:\t\t{0} minutos ({1} horas) ({2} productos en paralelo en {3} horas de jornada) ({4} jornadas)";
pub const RESULT_WORKDAY: &'static str = "🕐 Jornada laboral:\t\t{0} horas";
pub const RESULT_PARALLEL: &'static str = "🧵 Productos en paralelo:\t{0}";
pub const REQUIRED_SALES_NEEDLE: &'static str = "Ventas necesarias:";
pub const WARN_NET_PROFIT_NONPOSITIVE: &'static str = "⚠️ El beneficio neto por unidad es {0} {1}. No es posible alcanzar una meta de beneficios netos así.";
pub const PROMPT_MONTHLY_GOAL: &'static str = "🎯 ¿Cuál es tu meta MENSUAL de beneficio neto (en {0})?";
pub const PROMPT_ANNUAL_GOAL: &'static str = "🎯 ¿Cuál es tu meta ANUAL de beneficio neto (en {0})?";
pub const PROMPT_MONTHLY_GOAL_PLAIN: &'static str = "🎯 ¿Cuál es tu meta MENSUAL de beneficio neto?";
pub const PROMPT_ANNUAL_GOAL_PLAIN: &'static str = "🎯 ¿Cuál es tu meta ANUAL de beneficio neto?";
pub const ERR_READ_MONTHLY_GOAL: &'static str = "no se pudo leer la meta mensual: {0}";
pub const ERR_READ_ANNUAL_GOAL: &'static str = "no se pudo leer la meta anual: {0}";
pub const PROMPT_WORKDAY_HOURS: &'static str = "🕐 ¿Cuántas horas al día funciona el negocio? ({0}-{1})";
pub const VALIDATE_WORKDAY_RANGE: &'static str = "Introduce un número entre {0} y {1}";
pub const ERR_READ_WORKDAY: &'static str = "no se pudo leer las horas de jornada: {0}";
pub const PROMPT_PARALLEL_PRODUCTS: &'static str = "🧵 ¿Cuántos productos en paralelo puede fabricar el negocio? ({0}-{1})";
pub const VALIDATE_PARALLEL_RANGE: &'static str = "Introduce un número entre {0} y {1}";
pub const ERR_READ_PARALLEL: &'static str = "no se pudo leer el número de productos en paralelo: {0}";
pub const SALES_NEEDED_HEADER: &'static str = "➡️ Ventas necesarias para alcanzar el beneficio neto:";
pub const MONTHLY_LABEL: &'static str = "📆 Mensual ({0} {1}):\t{2} ventas";
pub const ANNUAL_LABEL: &'static str = "📅 Anual ({0} {1}):\t{2} ventas";
pub const ERR_WRITE_RESULT_FILE: &'static str = "no se pudo escribir el archivo de resultados: {0}";
pub const WARN_PRODUCT_EXCLUDED: &'static str = "⚠️ «{0}»: beneficio neto {1} {2} ≤ 0, se excluye del reparto.";
pub const WARN_NO_POSITIVE_PRODUCTS: &'static str = "⚠️ Ningún producto tiene beneficio neto positivo; no se puede repartir la meta.";
pub const RANDOM_SPLIT_HEADER: &'static str = "🎲 Reparto aleatorio de ventas (1%–70% por producto, normalizado al 100%):";
pub const SPLIT_ITEM: &'static str = "  • {0}  🎲 {1}%  → {2}% de la meta";
pub const PER_PRODUCT_HEADER: &'static str = "➡️ Ventas necesarias por producto (meta repartida):";
pub const PER_PRODUCT_MONTHLY: &'static str = "      📆 Mensual:  {0} {1}  {2} ventas  🕐 {3} min ({4} h)";
pub const PER_PRODUCT_ANNUAL: &'static str = "      📅 Anual:    {0} {1}  {2} ventas  🕐 {3} min ({4} h)";
pub const TOTALS_HEADER: &'static str = "📊 Totales ({0} productos):";
pub const TOTAL_MONTHLY_SALES: &'static str = "  📆 Ventas mensuales totales:  {0}  🕐 {1} min ({2} h) ({3} productos en paralelo en {4} horas de jornada) ({5} jornadas)";
pub const TOTAL_MONTH_ROW: &'static str = "{0} ventas  🕐 {1} min ({2} h)";
pub const TOTAL_ANNUAL_SALES: &'static str = "  📅 Ventas anuales totales:  {0}  🕐 {1} min ({2} h) ({3} productos en paralelo en {4} horas de jornada) ({5} jornadas)";
pub const ERR_WRITE_RESULT_FILE_FOR: &'static str = "no se pudo escribir el archivo de resultados para «{0}»: {1}";
pub const ERR_WRITE_TOTALS_FILE: &'static str = "no se pudo escribir el archivo de totales: {0}";
pub const WARN_NO_TXT_FILES: &'static str = "⚠️ No hay archivos .txt válidos en la carpeta '{0}'";
pub const MENU_PROMPT: &'static str = "📄 Selecciona uno o varios archivos (espacio para marcar, intro para confirmar):";
pub const ERR_MENU: &'static str = "error en el menú: {0}";
pub const WARN_NO_SELECTION: &'static str = "⚠️ No se seleccionó ningún archivo.";
pub const ERR_READ_FILE: &'static str = "❌ Error al leer el archivo \"{0}\": {1}";
pub const SUMMARY_NET_PROFIT: &'static str = "\t💶 {0} {1}";
pub const SUMMARY_MARGIN: &'static str = "\t📊 {0}%";
pub const SUMMARY_MONTHLY: &'static str = "\t📆 {0} ventas (mes) \t 🕐 {1} min (mes)";
pub const SUMMARY_ANNUAL: &'static str = "\t📅 {0} ventas (año) \t🕐 {1} horas (año)";
pub const TUI_TAB_PRODUCTS: &'static str = "Productos";
pub const TUI_TAB_GRAPH: &'static str = "Gráfico";
pub const TUI_SIDEBAR_MONTH: &'static str = "Mes";
pub const TUI_SIDEBAR_SETTINGS: &'static str = "Ajustes";
pub const TUI_SIDEBAR_TOTALS: &'static str = "Totales";
pub const TUI_PRODUCTS_YEARLY: &'static str = "Productos (% anual)";
pub const TUI_MONTH_PCT_SALES: &'static str = "{0} (% ventas)";
pub const TUI_SLIDER_WORKDAY: &'static str = "Horas de jornada";
pub const TUI_SLIDER_PARALLEL: &'static str = "Productos en paralelo";
pub const TUI_SLIDER_MONTHLY_GOAL: &'static str = "Meta mensual de beneficio neto";
pub const TUI_SLIDER_YEARLY_GOAL: &'static str = "Meta anual de beneficio neto";
pub const TUI_SLIDER_MONTH: &'static str = "Mes";
pub const TUI_PARALLEL_LABEL: &'static str = "Productos en paralelo [{0}..={1}]";
pub const TUI_LOCK_YEAR: &'static str = " bloquear año";
pub const TUI_LOCK_MONTH: &'static str = " bloquear mes";
pub const TUI_YEARLY_SALES: &'static str = "Ventas anuales";
pub const TUI_LEGEND_UNITS: &'static str = "\u{25a0} unidades (n)   ";
pub const TUI_LEGEND_PROFIT: &'static str = "\u{25a0} beneficio ($)   ";
pub const TUI_LEGEND_COST: &'static str = "\u{25a0} coste ($)   ";
pub const TUI_AXIS_MAX: &'static str = "máx. eje";
pub const TUI_MAX: &'static str = "máx";
pub const TUI_PROFIT: &'static str = "beneficio";
pub const TUI_YEARLY: &'static str = "anual";
pub const TUI_DONUT_MARGIN: &'static str = "margen";
pub const TUI_DONUT_VS_YEAR: &'static str = "vs año";
pub const TUI_LABEL_MONTHLY: &'static str = "Mensual";
pub const TUI_LABEL_YEARLY: &'static str = "Anual";
pub const TUI_LABEL_SETTINGS: &'static str = "Ajustes";
pub const TUI_LABEL_SALES: &'static str = "ventas";
pub const TUI_LABEL_MIN: &'static str = "min";
pub const TUI_LABEL_HOURS: &'static str = "horas";
pub const TUI_LABEL_WORKDAYS: &'static str = "jornadas";
pub const TUI_LABEL_WORKDAY: &'static str = "jornada";
pub const TUI_LABEL_PARALLEL: &'static str = "paralelo";
pub const TUI_LABEL_YEARLY_REF: &'static str = "Ref. anual";
pub const TUI_LABEL_12X_MO: &'static str = "12x mes";
pub const TUI_LABEL_GOAL: &'static str = "meta";
pub const TUI_SUFFIX_HOURS: &'static str = "h";
pub const TUI_REGION_MAIN: &'static str = "principal";
pub const TUI_REGION_SIDEBAR: &'static str = "lateral";
pub const TUI_FOOTER: &'static str = "región: {0}   Tab región   Shift+Tab pestaña   \u{2191}/\u{2193} desplazar/navegar   \u{2190}/\u{2192} ajustar   Espacio bloquear   Ctrl+E exportar   Ctrl+H ayuda   q salir";
pub const TUI_FOOTER_STATUS: &'static str = "{0}   |   región: {1}   Tab región   Shift+Tab pestaña   \u{2191}/\u{2193} desplazar/navegar   \u{2190}/\u{2192} ajustar   Espacio bloquear   Ctrl+E exportar   Ctrl+H ayuda   q salir";
pub const TUI_EXPORT_ERROR: &'static str = "error de exportación ({0}): {1}";
pub const TUI_EXPORT_ERROR_TOTALS: &'static str = "error de exportación (totales): {0}";
pub const TUI_EXPORTED: &'static str = "exportados {0} archivos de producto + totales a {1}";
pub const TUI_NO_PRODUCTS: &'static str = "No se encontraron productos con beneficio neto positivo en {0}";
pub const TUI_HELP_TITLE: &'static str = "Ayuda";
pub const TUI_HELP_TEXT: &'static str = "## Definición de producto (archivos .txt)\nCada producto es un archivo de texto plano en la carpeta del negocio. La primera línea define el producto; cada línea siguiente que empiece por \"- \" es un coste.\n\n  + <nombre> : <precio_venta> <moneda> : <tiempo_producción> <unidad>\n    - <precio_coste> <moneda> <descripción>\n    - <precio_coste> <moneda> <descripción>\n\n  Ejemplo:\n  + Beer : 2.7 USD : 0.2 mins\n    - 0.27 USD labor\n    - 0.32 USD beer\n    - 0.10 USD cleaning\n\n  - Moneda: cualquier código ISO 4217 de 3 letras (USD, EUR, GBP, JPY, MXN, CNY, ...).\n  - Unidades de tiempo de producción: \"mins\" u \"hours\".\n  - Los productos cuyo beneficio neto (precio - coste total) sea cero o negativo se omiten.\n  - Los archivos *.simulation_results.txt y el archivo de estado simulation_state.txt los ignora el cargador.\n\n## Objetivos de beneficio neto mensual y anual\nEl simulador persigue un objetivo de BENEFICIO NETO (ingresos menos costes), no de ingresos. Dos deslizadores de la barra lateral fijan los objetivos:\n\n  - Objetivo mensual: el beneficio neto que cada mes debe alcanzar (por defecto 500).\n  - Objetivo anual: un objetivo de referencia mostrado junto a la suma de 12 x mensual (por defecto 500). El total anual es la SUMA de los 12 resultados mensuales, por lo que el objetivo anual es solo una referencia.\n\nCada mes, el objetivo mensual se reparte entre los productos según su porcentaje de ventas, dando un número de ventas requeridas por producto:\n\n  required_sales = ceil(parte * objetivo_mensual / beneficio_neto_por_unidad)\n\n## Productos / servicios paralelos\nEl deslizador \"parallel\" indica cuántos productos pueden producirse o servicios entregarse a la vez. Junto con las horas de jornada define la CAPACIDAD de producción mensual en minutos:\n\n  capacity_minutes = horas_jornada * 22 jornadas * 60 * paralelo\n\nSi los minutos de producción requeridos superan la capacidad, las ventas se reducen para encajar (el objetivo no se puede cumplir ese mes). El rango de paralelo se ajusta automáticamente para que los objetivos sean alcanzables; el mínimo/máximo del deslizador se recalcula en cada cambio.\n\n## Horas de jornada\nCuántas horas al día opera el negocio (1..24, por defecto 8). Interviene en la fórmula de capacidad y en la figura de \"jornadas\" mostrada en los resultados:\n\n  workdays = horas_requeridas / (horas_jornada * paralelo)\n\n## Distribución de ventas mensual / anual %\nEl objetivo de cada mes se reparte entre los productos usando porcentajes. Cada columna de mes siempre suma exactamente 100%.\n\n  - Pestaña Gráfico: un selector de mes elige el mes (Ene..Dic). Cada producto tiene un deslizador de % mensual. Al editarlo se fija el % de ese producto y el resto se redistribuye EQUITATIVAMENTE entre los demás productos no bloqueados de ese mes.\n  - Pestaña Productos: cada producto muestra un deslizador de % anual (la media de sus 12 valores mensuales). Al editarlo se propaga el objetivo a cada mes en que el producto no esté bloqueado por mes, redistribuyendo dentro de cada mes.\n\nEl gráfico dibuja 12 columnas mensuales independientes, por lo que la mezcla puede variar por mes (demanda estacional). El total anual es la suma de los 12 meses.\n\n## Bloqueos\nLos bloqueos congelan el porcentaje de un producto para excluirlo de la redistribución.\n\n  - Bloqueo anual (pestaña Productos, Espacio en un deslizador anual): congela el producto en TODOS los 12 meses. Las casillas mensuales se muestran marcadas y en gris.\n  - Bloqueo mensual (pestaña Gráfico, Espacio en un deslizador mensual): congela el producto solo para el mes seleccionado (se desactiva si el producto está bloqueado anualmente).\n\nLos productos bloqueados mantienen su parte fija del pastel del 100%; el porcentaje restante se reparte entre los productos desbloqueados.\n\n## Exportación y estado\nPulsa Ctrl+E para exportar la simulación actual:\n\n  - Un <producto>.simulation_results.txt por producto (estadísticas + 12 filas mensuales + fila anual + jornada/paralelo).\n  - Un totals.simulation_results.txt agregando todos los productos.\n  - Un archivo simulation_state.txt que guarda porcentajes, bloqueos y ajustes.\n\nAl reabrir la app se restaura la distribución guardada. Si se añadieron o quitaron productos desde el guardado, los porcentajes de cada mes se renormalizan para sumar 100%.\n\n## Teclas\n  Tab          alternar barra lateral <-> área principal\n  Shift+Tab    cambiar pestaña Productos <-> Gráfico\n  Up / Down    desplazar área principal o navegar deslizadores\n  Left / Right ajustar el deslizador en foco\n  Space        alternar el bloqueo del deslizador de producto en foco\n  Ctrl+E       exportar simulación + guardar estado\n  Ctrl+H       abrir / cerrar esta ayuda\n  q / Esc      salir (cierra la ayuda si está abierta)";

/// The Spanish dictionary.
pub open spec fn table() -> Dict {
    Dict {
        usage_label: USAGE_LABEL,
        usage_interactive: USAGE_INTERACTIVE,
        usage_list: USAGE_LIST,
        usage_lang: USAGE_LANG,
        no_txt_files: NO_TXT_FILES,
        cannot_read_file: CANNOT_READ_FILE,
        file_colon_msg: FILE_COLON_MSG,
        parsed_products_header: PARSED_PRODUCTS_HEADER,
        no_valid_products: NO_VALID_PRODUCTS,
        file_label: FILE_LABEL,
        not_a_directory: NOT_A_DIRECTORY,
        unknown_lang: UNKNOWN_LANG,
        cost_display: COST_DISPLAY,
        product_label: PRODUCT_LABEL,
        sale_price_label: SALE_PRICE_LABEL,
        production_time_label: PRODUCTION_TIME_LABEL,
        costs_header: COSTS_HEADER,
        no_costs: NO_COSTS,
        time_mins: TIME_MINS,
        time_hours: TIME_HOURS,
        err_duplicate_product_line: ERR_DUPLICATE_PRODUCT_LINE,
        err_line_prefix: ERR_LINE_PREFIX,
        err_unexpected_line: ERR_UNEXPECTED_LINE,
        err_missing_product_line: ERR_MISSING_PRODUCT_LINE,
        err_product_sections: ERR_PRODUCT_SECTIONS,
        err_product_plus: ERR_PRODUCT_PLUS,
        err_empty_product_name: ERR_EMPTY_PRODUCT_NAME,
        err_sale_section: ERR_SALE_SECTION,
        err_invalid_sale_price: ERR_INVALID_SALE_PRICE,
        err_invalid_sale_currency: ERR_INVALID_SALE_CURRENCY,
        err_time_section: ERR_TIME_SECTION,
        err_invalid_prod_time: ERR_INVALID_PROD_TIME,
        err_invalid_time_unit: ERR_INVALID_TIME_UNIT,
        err_cost_minus: ERR_COST_MINUS,
        err_cost_tokens: ERR_COST_TOKENS,
        err_invalid_cost_price: ERR_INVALID_COST_PRICE,
        err_invalid_cost_currency: ERR_INVALID_COST_CURRENCY,
        result_product: RESULT_PRODUCT,
        result_sale_price: RESULT_SALE_PRICE,
        result_total_cost: RESULT_TOTAL_COST,
        result_net_profit_unit: RESULT_NET_PROFIT_UNIT,
        result_profit_margin: RESULT_PROFIT_MARGIN,
        result_prod_time: RESULT_PROD_TIME,
        result_monthly_goal: RESULT_MONTHLY_GOAL,
        result_monthly_time: RESULT_MONTHLY_TIME,
        result_month_row: RESULT_MONTH_ROW,
        result_annual_goal: RESULT_ANNUAL_GOAL,
        result_annual_time: RESULT_ANNUAL_TIME,
        result_workday: RESULT_WORKDAY,
        result_parallel: RESULT_PARALLEL,
        required_sales_needle: REQUIRED_SALES_NEEDLE,
        warn_net_profit_nonpositive: WARN_NET_PROFIT_NONPOSITIVE,
        prompt_monthly_goal: PROMPT_MONTHLY_GOAL,
        prompt_annual_goal: PROMPT_ANNUAL_GOAL,
        prompt_monthly_goal_plain: PROMPT_MONTHLY_GOAL_PLAIN,
        prompt_annual_goal_plain: PROMPT_ANNUAL_GOAL_PLAIN,
        err_read_monthly_goal: ERR_READ_MONTHLY_GOAL,
        err_read_annual_goal: ERR_READ_ANNUAL_GOAL,
        prompt_workday_hours: PROMPT_WORKDAY_HOURS,
        validate_workday_range: VALIDATE_WORKDAY_RANGE,
        err_read_workday: ERR_READ_WORKDAY,
        prompt_parallel_products: PROMPT_PARALLEL_PRODUCTS,
        validate_parallel_range: VALIDATE_PARALLEL_RANGE,
        err_read_parallel: ERR_READ_PARALLEL,
        sales_needed_header: SALES_NEEDED_HEADER,
        monthly_label: MONTHLY_LABEL,
        annual_label: ANNUAL_LABEL,
        err_write_result_file: ERR_WRITE_RESULT_FILE,
        warn_product_excluded: WARN_PRODUCT_EXCLUDED,
        warn_no_positive_products: WARN_NO_POSITIVE_PRODUCTS,
        random_split_header: RANDOM_SPLIT_HEADER,
        split_item: SPLIT_ITEM,
        per_product_header: PER_PRODUCT_HEADER,
        per_product_monthly: PER_PRODUCT_MONTHLY,
        per_product_annual: PER_PRODUCT_ANNUAL,
        totals_header: TOTALS_HEADER,
        total_monthly_sales: TOTAL_MONTHLY_SALES,
        total_month_row: TOTAL_MONTH_ROW,
        total_annual_sales: TOTAL_ANNUAL_SALES,
        err_write_result_file_for: ERR_WRITE_RESULT_FILE_FOR,
        err_write_totals_file: ERR_WRITE_TOTALS_FILE,
        warn_no_txt_files: WARN_NO_TXT_FILES,
        menu_prompt: MENU_PROMPT,
        err_menu: ERR_MENU,
        warn_no_selection: WARN_NO_SELECTION,
        err_read_file: ERR_READ_FILE,
        summary_net_profit: SUMMARY_NET_PROFIT,
        summary_margin: SUMMARY_MARGIN,
        summary_monthly: SUMMARY_MONTHLY,
        summary_annual: SUMMARY_ANNUAL,
        tui_tab_products: TUI_TAB_PRODUCTS,
        tui_tab_graph: TUI_TAB_GRAPH,
        tui_sidebar_month: TUI_SIDEBAR_MONTH,
        tui_sidebar_settings: TUI_SIDEBAR_SETTINGS,
        tui_sidebar_totals: TUI_SIDEBAR_TOTALS,
        tui_products_yearly: TUI_PRODUCTS_YEARLY,
        tui_month_pct_sales: TUI_MONTH_PCT_SALES,
        tui_slider_workday: TUI_SLIDER_WORKDAY,
        tui_slider_parallel: TUI_SLIDER_PARALLEL,
        tui_slider_monthly_goal: TUI_SLIDER_MONTHLY_GOAL,
        tui_slider_yearly_goal: TUI_SLIDER_YEARLY_GOAL,
        tui_slider_month: TUI_SLIDER_MONTH,
        tui_parallel_label: TUI_PARALLEL_LABEL,
        tui_lock_year: TUI_LOCK_YEAR,
        tui_lock_month: TUI_LOCK_MONTH,
        tui_yearly_sales: TUI_YEARLY_SALES,
        tui_legend_units: TUI_LEGEND_UNITS,
        tui_legend_profit: TUI_LEGEND_PROFIT,
        tui_legend_cost: TUI_LEGEND_COST,
        tui_axis_max: TUI_AXIS_MAX,
        tui_max: TUI_MAX,
        tui_profit: TUI_PROFIT,
        tui_yearly: TUI_YEARLY,
        tui_donut_margin: TUI_DONUT_MARGIN,
        tui_donut_vs_year: TUI_DONUT_VS_YEAR,
        tui_label_monthly: TUI_LABEL_MONTHLY,
        tui_label_yearly: TUI_LABEL_YEARLY,
        tui_label_settings: TUI_LABEL_SETTINGS,
        tui_label_sales: TUI_LABEL_SALES,
        tui_label_min: TUI_LABEL_MIN,
        tui_label_hours: TUI_LABEL_HOURS,
        tui_label_workdays: TUI_LABEL_WORKDAYS,
        tui_label_workday: TUI_LABEL_WORKDAY,
        tui_label_parallel: TUI_LABEL_PARALLEL,
        tui_label_yearly_ref: TUI_LABEL_YEARLY_REF,
        tui_label_12x_mo: TUI_LABEL_12X_MO,
        tui_label_goal: TUI_LABEL_GOAL,
        tui_suffix_hours: TUI_SUFFIX_HOURS,
        tui_region_main: TUI_REGION_MAIN,
        tui_region_sidebar: TUI_REGION_SIDEBAR,
        tui_footer: TUI_FOOTER,
        tui_footer_status: TUI_FOOTER_STATUS,
        tui_export_error: TUI_EXPORT_ERROR,
        tui_export_error_totals: TUI_EXPORT_ERROR_TOTALS,
        tui_exported: TUI_EXPORTED,
        tui_no_products: TUI_NO_PRODUCTS,
        tui_help_title: TUI_HELP_TITLE,
        tui_help_text: TUI_HELP_TEXT,
    }
}

/// Builds the Spanish dictionary.
pub fn make() -> (d: Dict)
    ensures
        d == table(),
{
    Dict {
        usage_label: USAGE_LABEL,
        usage_interactive: USAGE_INTERACTIVE,
        usage_list: USAGE_LIST,
        usage_lang: USAGE_LANG,
        no_txt_files: NO_TXT_FILES,
        cannot_read_file: CANNOT_READ_FILE,
        file_colon_msg: FILE_COLON_MSG,
        parsed_products_header: PARSED_PRODUCTS_HEADER,
        no_valid_products: NO_VALID_PRODUCTS,
        file_label: FILE_LABEL,
        not_a_directory: NOT_A_DIRECTORY,
        unknown_lang: UNKNOWN_LANG,
        cost_display: COST_DISPLAY,
        product_label: PRODUCT_LABEL,
        sale_price_label: SALE_PRICE_LABEL,
        production_time_label: PRODUCTION_TIME_LABEL,
        costs_header: COSTS_HEADER,
        no_costs: NO_COSTS,
        time_mins: TIME_MINS,
        time_hours: TIME_HOURS,
        err_duplicate_product_line: ERR_DUPLICATE_PRODUCT_LINE,
        err_line_prefix: ERR_LINE_PREFIX,
        err_unexpected_line: ERR_UNEXPECTED_LINE,
        err_missing_product_line: ERR_MISSING_PRODUCT_LINE,
        err_product_sections: ERR_PRODUCT_SECTIONS,
        err_product_plus: ERR_PRODUCT_PLUS,
        err_empty_product_name: ERR_EMPTY_PRODUCT_NAME,
        err_sale_section: ERR_SALE_SECTION,
        err_invalid_sale_price: ERR_INVALID_SALE_PRICE,
        err_invalid_sale_currency: ERR_INVALID_SALE_CURRENCY,
        err_time_section: ERR_TIME_SECTION,
        err_invalid_prod_time: ERR_INVALID_PROD_TIME,
        err_invalid_time_unit: ERR_INVALID_TIME_UNIT,
        err_cost_minus: ERR_COST_MINUS,
        err_cost_tokens: ERR_COST_TOKENS,
        err_invalid_cost_price: ERR_INVALID_COST_PRICE,
        err_invalid_cost_currency: ERR_INVALID_COST_CURRENCY,
        result_product: RESULT_PRODUCT,
        result_sale_price: RESULT_SALE_PRICE,
        result_total_cost: RESULT_TOTAL_COST,
        result_net_profit_unit: RESULT_NET_PROFIT_UNIT,
        result_profit_margin: RESULT_PROFIT_MARGIN,
        result_prod_time: RESULT_PROD_TIME,
        result_monthly_goal: RESULT_MONTHLY_GOAL,
        result_monthly_time: RESULT_MONTHLY_TIME,
        result_month_row: RESULT_MONTH_ROW,
        result_annual_goal: RESULT_ANNUAL_GOAL,
        result_annual_time: RESULT_ANNUAL_TIME,
        result_workday: RESULT_WORKDAY,
        result_parallel: RESULT_PARALLEL,
        required_sales_needle: REQUIRED_SALES_NEEDLE,
        warn_net_profit_nonpositive: WARN_NET_PROFIT_NONPOSITIVE,
        prompt_monthly_goal: PROMPT_MONTHLY_GOAL,
        prompt_annual_goal: PROMPT_ANNUAL_GOAL,
        prompt_monthly_goal_plain: PROMPT_MONTHLY_GOAL_PLAIN,
        prompt_annual_goal_plain: PROMPT_ANNUAL_GOAL_PLAIN,
        err_read_monthly_goal: ERR_READ_MONTHLY_GOAL,
        err_read_annual_goal: ERR_READ_ANNUAL_GOAL,
        prompt_workday_hours: PROMPT_WORKDAY_HOURS,
        validate_workday_range: VALIDATE_WORKDAY_RANGE,
        err_read_workday: ERR_READ_WORKDAY,
        prompt_parallel_products: PROMPT_PARALLEL_PRODUCTS,
        validate_parallel_range: VALIDATE_PARALLEL_RANGE,
        err_read_parallel: ERR_READ_PARALLEL,
        sales_needed_header: SALES_NEEDED_HEADER,
        monthly_label: MONTHLY_LABEL,
        annual_label: ANNUAL_LABEL,
        err_write_result_file: ERR_WRITE_RESULT_FILE,
        warn_product_excluded: WARN_PRODUCT_EXCLUDED,
        warn_no_positive_products: WARN_NO_POSITIVE_PRODUCTS,
        random_split_header: RANDOM_SPLIT_HEADER,
        split_item: SPLIT_ITEM,
        per_product_header: PER_PRODUCT_HEADER,
        per_product_monthly: PER_PRODUCT_MONTHLY,
        per_product_annual: PER_PRODUCT_ANNUAL,
        totals_header: TOTALS_HEADER,
        total_monthly_sales: TOTAL_MONTHLY_SALES,
        total_month_row: TOTAL_MONTH_ROW,
        total_annual_sales: TOTAL_ANNUAL_SALES,
        err_write_result_file_for: ERR_WRITE_RESULT_FILE_FOR,
        err_write_totals_file: ERR_WRITE_TOTALS_FILE,
        warn_no_txt_files: WARN_NO_TXT_FILES,
        menu_prompt: MENU_PROMPT,
        err_menu: ERR_MENU,
        warn_no_selection: WARN_NO_SELECTION,
        err_read_file: ERR_READ_FILE,
        summary_net_profit: SUMMARY_NET_PROFIT,
        summary_margin: SUMMARY_MARGIN,
        summary_monthly: SUMMARY_MONTHLY,
        summary_annual: SUMMARY_ANNUAL,
        tui_tab_products: TUI_TAB_PRODUCTS,
        tui_tab_graph: TUI_TAB_GRAPH,
        tui_sidebar_month: TUI_SIDEBAR_MONTH,
        tui_sidebar_settings: TUI_SIDEBAR_SETTINGS,
        tui_sidebar_totals: TUI_SIDEBAR_TOTALS,
        tui_products_yearly: TUI_PRODUCTS_YEARLY,
        tui_month_pct_sales: TUI_MONTH_PCT_SALES,
        tui_slider_workday: TUI_SLIDER_WORKDAY,
        tui_slider_parallel: TUI_SLIDER_PARALLEL,
        tui_slider_monthly_goal: TUI_SLIDER_MONTHLY_GOAL,
        tui_slider_yearly_goal: TUI_SLIDER_YEARLY_GOAL,
        tui_slider_month: TUI_SLIDER_MONTH,
        tui_parallel_label: TUI_PARALLEL_LABEL,
        tui_lock_year: TUI_LOCK_YEAR,
        tui_lock_month: TUI_LOCK_MONTH,
        tui_yearly_sales: TUI_YEARLY_SALES,
        tui_legend_units: TUI_LEGEND_UNITS,
        tui_legend_profit: TUI_LEGEND_PROFIT,
        tui_legend_cost: TUI_LEGEND_COST,
        tui_axis_max: TUI_AXIS_MAX,
        tui_max: TUI_MAX,
        tui_profit: TUI_PROFIT,
        tui_yearly: TUI_YEARLY,
        tui_donut_margin: TUI_DONUT_MARGIN,
        tui_donut_vs_year: TUI_DONUT_VS_YEAR,
        tui_label_monthly: TUI_LABEL_MONTHLY,
        tui_label_yearly: TUI_LABEL_YEARLY,
        tui_label_settings: TUI_LABEL_SETTINGS,
        tui_label_sales: TUI_LABEL_SALES,
        tui_label_min: TUI_LABEL_MIN,
        tui_label_hours: TUI_LABEL_HOURS,
        tui_label_workdays: TUI_LABEL_WORKDAYS,
        tui_label_workday: TUI_LABEL_WORKDAY,
        tui_label_parallel: TUI_LABEL_PARALLEL,
        tui_label_yearly_ref: TUI_LABEL_YEARLY_REF,
        tui_label_12x_mo: TUI_LABEL_12X_MO,
        tui_label_goal: TUI_LABEL_GOAL,
        tui_suffix_hours: TUI_SUFFIX_HOURS,
        tui_region_main: TUI_REGION_MAIN,
        tui_region_sidebar: TUI_REGION_SIDEBAR,
        tui_footer: TUI_FOOTER,
        tui_footer_status: TUI_FOOTER_STATUS,
        tui_export_error: TUI_EXPORT_ERROR,
        tui_export_error_totals: TUI_EXPORT_ERROR_TOTALS,
        tui_exported: TUI_EXPORTED,
        tui_no_products: TUI_NO_PRODUCTS,
        tui_help_title: TUI_HELP_TITLE,
        tui_help_text: TUI_HELP_TEXT,
    }
}

} // verus!
