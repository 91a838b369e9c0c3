//! German messages.
use vstd::prelude::*;
use crate::lang::Dict;

verus! {

pub const USAGE_LABEL: &'static str = "Verwendung:";
pub const USAGE_INTERACTIVE: &'static str = "  {0} <Wurzelordner>          Startet das interaktive Produkt-Simulator-Menü";
pub const USAGE_LIST: &'static str = "  {0} --list <Wurzelordner>   Analysiert und gibt alle Produktdefinitionen aus";
pub const USAGE_LANG: &'static str = "  {0} --lang <sprachcode> <Wurzelordner>   Schnittstellensprache wählen (en, es, zh, de, ru, fr)";
pub const NO_TXT_FILES: &'static str = "Keine .txt-Dateien in '{0}' gefunden";
pub const CANNOT_READ_FILE: &'static str = "{0}: Datei konnte nicht gelesen werden: {1}";
pub const FILE_COLON_MSG: &'static str = "{0}: {1}";
pub const PARSED_PRODUCTS_HEADER: &'static str = "=== Analysierte Produkte ({0} gültig) ===";
pub const NO_VALID_PRODUCTS: &'static str = "(keine gültigen Produkte gefunden)";
pub const FILE_LABEL: &'static str = "Datei: {0}";
pub const NOT_A_DIRECTORY: &'static str = "Fehler: '{0}' ist kein Verzeichnis";
pub const UNKNOWN_LANG: &'static str = "Fehler: unbekannter Sprachcode '{0}' (unterstützt: en, es, zh, de, ru, fr)";
pub const COST_DISPLAY: &'static str = "- {0} {1} {2}";
pub const PRODUCT_LABEL: &'static str = "Produkt: {0}";
pub const SALE_PRICE_LABEL: &'static str = "  Verkaufspreis:     {0} {1}";
pub const PRODUCTION_TIME_LABEL: &'static str = "  Produktionszeit: {0} {1}";
pub const COSTS_HEADER: &'static str = "  Kosten ({0}):";
pub const NO_COSTS: &'static str = "    (keine)";
pub const TIME_MINS: &'static str = "Minuten";
pub const TIME_HOURS: &'static str = "Stunden";
pub const ERR_DUPLICATE_PRODUCT_LINE: &'static str = "Zeile {0}: doppelte Produktdefinitionszeile";
pub const ERR_LINE_PREFIX: &'static str = "Zeile {0}: {1}";
pub const ERR_UNEXPECTED_LINE: &'static str = "Zeile {0}: unerwartete Zeile, jede Zeile muss mit '+' oder '-' beginnen";
pub const ERR_MISSING_PRODUCT_LINE: &'static str = "Produktdefinitionszeile fehlt (eine mit '+' beginnende Zeile)";
pub const ERR_PRODUCT_SECTIONS: &'static str = "Produktzeile muss genau 3 durch Doppelpunkt getrennte Abschnitte enthalten, gefunden {0}";
pub const ERR_PRODUCT_PLUS: &'static str = "Produktzeile muss mit '+' beginnen";
pub const ERR_EMPTY_PRODUCT_NAME: &'static str = "Produktname ist leer";
pub const ERR_SALE_SECTION: &'static str = "Verkaufsabschnitt muss '<Preis> <Währung>' sein, {0} Token gefunden";
pub const ERR_INVALID_SALE_PRICE: &'static str = "ungültiger Verkaufspreis '{0}'";
pub const ERR_INVALID_SALE_CURRENCY: &'static str = "ungültige Verkaufswährung '{0}': muss ein 3-buchstabiger ISO-4217-Code sein (z.B. USD, EUR, GBP, JPY)";
pub const ERR_TIME_SECTION: &'static str = "Produktionszeit-Abschnitt muss '<Zeit> <Einheit>' sein, {0} Token gefunden";
pub const ERR_INVALID_PROD_TIME: &'static str = "ungültige Produktionszeit '{0}'";
pub const ERR_INVALID_TIME_UNIT: &'static str = "ungültige Produktionszeit-Einheit '{0}': muss mins oder hours sein";
pub const ERR_COST_MINUS: &'static str = "Kostenzeile muss mit '-' beginnen";
pub const ERR_COST_TOKENS: &'static str = "Kostenzeile muss '<Preis> <Währung> <Beschreibung>' sein, {0} Token gefunden";
pub const ERR_INVALID_COST_PRICE: &'static str = "ungültiger Kostenpreis '{0}'";
pub const ERR_INVALID_COST_CURRENCY: &'static str = "ungültige Kostenwährung '{0}': muss ein 3-buchstabiger ISO-4217-Code sein (z.B. USD, EUR, GBP, JPY)";
pub const RESULT_PRODUCT: &'static str = "📦 Produkt: \t\t\t{0}";
pub const RESULT_SALE_PRICE: &'static str = "💶 Verkaufspreis: \t\t{0} {1}";
pub const RESULT_TOTAL_COST: &'static str = "💸 Gesamtkosten: \t\t{0} {1}";
pub const RESULT_NET_PROFIT_UNIT: &'static str = "📈 Nettogewinn (Einheit): \t{0} {1}";
pub const RESULT_PROFIT_MARGIN: &'static str = "📊 Gewinnmarge: \t{0}%";
pub const RESULT_PROD_TIME: &'static str = "🕐 Produktionszeit: \t{0} Minuten";
pub const RESULT_MONTHLY_GOAL: &'static str = "🎯 Monatsziel:\t\t{0} {1} → Erforderliche Verkäufe: {2}";
pub const RESULT_MONTHLY_TIME: &'static str = "🕐 Gesamtzeit monatlich:\t{0} Minuten ({1} Stunden) ({2} Parallelprodukte in {3} Arbeitstunden) ({4} Arbeitstage)";
pub const RESULT_MONTH_ROW: &'static str = "{0} {1} → {2} Verkäufe  🕐 {3} Min ({4} Std.)";
pub const RESULT_ANNUAL_GOAL: &'static str = "🎯 Jahresziel:\t\t\t{0} {1} → Erforderliche Verkäufe: {2}";
pub const RESULT_ANNUAL_TIME: &'static str = "🕐 Gesamtzeit jährlich:\t\t{0} Minuten ({1} Stunden) ({2} Parallelprodukte in {3} Arbeitstunden) ({4} Arbeitstage)";
pub const RESULT_WORKDAY: &'static str = "🕐 Arbeitstag:\t\t{0} Stunden";
pub const RESULT_PARALLEL: &'static str = "🧵 Parallelprodukte:\t{0}";
pub const REQUIRED_SALES_NEEDLE: &'static str = "Erforderliche Verkäufe:";
pub const WARN_NET_PROFIT_NONPOSITIVE: &'static str = "⚠️ Der Nettogewinn pro Einheit beträgt {0} {1}. Ein Nettogewinnziel ist so nicht erreichbar.";
pub const PROMPT_MONTHLY_GOAL: &'static str = "🎯 Wie hoch ist dein MONATliches Nettogewinnziel (in {0})?";
pub const PROMPT_ANNUAL_GOAL: &'static str = "🎯 Wie hoch ist dein JAHRES-Nettogewinnziel (in {0})?";
pub const PROMPT_MONTHLY_GOAL_PLAIN: &'static str = "🎯 Wie hoch ist dein MONATliches Nettogewinnziel?";
pub const PROMPT_ANNUAL_GOAL_PLAIN: &'static str = "🎯 Wie hoch ist dein JAHRES-Nettogewinnziel?";
pub const ERR_READ_MONTHLY_GOAL: &'static str = "Monatsziel konnte nicht gelesen werden: {0}";
pub const ERR_READ_ANNUAL_GOAL: &'static str = "Jahresziel konnte nicht gelesen werden: {0}";
pub const PROMPT_WORKDAY_HOURS: &'static str = "🕐 Wie viele Stunden pro Tag läuft das Geschäft? ({0}-{1})";
pub const VALIDATE_WORKDAY_RANGE: &'static str = "Gib eine Zahl zwischen {0} und {1} ein";
pub const ERR_READ_WORKDAY: &'static str = "Arbeitstunden konnten nicht gelesen werden: {0}";
pub const PROMPT_PARALLEL_PRODUCTS: &'static str = "🧵 Wie viele Parallelprodukte kann das Geschäft herstellen? ({0}-{1})";
pub const VALIDATE_PARALLEL_RANGE: &'static str = "Gib eine Zahl zwischen {0} und {1} ein";
pub const ERR_READ_PARALLEL: &'static str = "Anzahl der Parallelprodukte konnte nicht gelesen werden: {0}";
pub const SALES_NEEDED_HEADER: &'static str = "➡️ Erforderliche Verkäufe zum Erreichen des Nettogewinns:";
pub const MONTHLY_LABEL: &'static str = "📆 Monatlich ({0} {1}):\t{2} Verkäufe";
pub const ANNUAL_LABEL: &'static str = "📅 Jährlich ({0} {1}):\t{2} Verkäufe";
pub const ERR_WRITE_RESULT_FILE: &'static str = "Ergebnisdatei konnte nicht geschrieben werden: {0}";
pub const WARN_PRODUCT_EXCLUDED: &'static str = "⚠️ «{0}»: Nettogewinn {1} {2} ≤ 0, von der Aufteilung ausgeschlossen.";
pub const WARN_NO_POSITIVE_PRODUCTS: &'static str = "⚠️ Kein Produkt hat positiven Nettogewinn; das Ziel kann nicht aufgeteilt werden.";
pub const RANDOM_SPLIT_HEADER: &'static str = "🎲 Zufällige Vertriebsaufteilung (1 %–70 % pro Produkt, auf 100 % normalisiert):";
pub const SPLIT_ITEM: &'static str = "  • {0}  🎲 {1}%  → {2}% des Ziels";
pub const PER_PRODUCT_HEADER: &'static str = "➡️ Erforderliche Verkäufe pro Produkt (aufgeteiltes Ziel):";
pub const PER_PRODUCT_MONTHLY: &'static str = "      📆 Monatlich:  {0} {1}  {2} Verkäufe  🕐 {3} Min ({4} Std.)";
pub const PER_PRODUCT_ANNUAL: &'static str = "      📅 Jährlich: {0} {1}  {2} Verkäufe  🕐 {3} Min ({4} Std.)";
pub const TOTALS_HEADER: &'static str = "📊 Gesamtergebnis ({0} Produkte):";
pub const TOTAL_MONTHLY_SALES: &'static str = "  📆 Monatliche Gesamtverkäufe:  {0}  🕐 {1} Min ({2} Std.) ({3} Parallelprodukte in {4} Arbeitstunden) ({5} Arbeitstage)";
pub const TOTAL_MONTH_ROW: &'static str = "{0} Verkäufe  🕐 {1} Min ({2} Std.)";
pub const TOTAL_ANNUAL_SALES: &'static str = "  📅 Jährliche Gesamtverkäufe:  {0}  🕐 {1} Min ({2} Std.) ({3} Parallelprodukte in {4} Arbeitstunden) ({5} Arbeitstage)";
pub const ERR_WRITE_RESULT_FILE_FOR: &'static str = "Ergebnisdatei für «{0}» konnte nicht geschrieben werden: {1}";
pub const ERR_WRITE_TOTALS_FILE: &'static str = "Gesamtdatei konnte nicht geschrieben werden: {0}";
pub const WARN_NO_TXT_FILES: &'static str = "⚠️ Keine gültigen .txt-Dateien im Ordner '{0}'";
pub const MENU_PROMPT: &'static str = "📄 Wähle eine oder mehrere Dateien (Leertaste zum Markieren, Enter zum Bestätigen):";
pub const ERR_MENU: &'static str = "Menüfehler: {0}";
pub const WARN_NO_SELECTION: &'static str = "⚠️ Es wurde keine Datei ausgewählt.";
pub const ERR_READ_FILE: &'static str = "❌ Fehler beim Lesen der Datei \"{0}\": {1}";
pub const SUMMARY_NET_PROFIT: &'static str = "\t💶 {0} {1}";
pub const SUMMARY_MARGIN: &'static str = "\t📊 {0}%";
pub const SUMMARY_MONTHLY: &'static str = "\t📆 {0} Verkäufe (Monat) \t 🕐 {1} Min (Monat)";
pub const SUMMARY_ANNUAL: &'static str = "\t📅 {0} Verkäufe (Jahr) \t🕐 {1} Std. (Jahr)";
pub const TUI_TAB_PRODUCTS: &'static str = "Produkte";
pub const TUI_TAB_GRAPH: &'static str = "Diagramm";
pub const TUI_SIDEBAR_MONTH: &'static str = "Monat";
pub const TUI_SIDEBAR_SETTINGS: &'static str = "Einstellungen";
pub const TUI_SIDEBAR_TOTALS: &'static str = "Gesamt";
pub const TUI_PRODUCTS_YEARLY: &'static str = "Produkte (jährlich %)";
pub const TUI_MONTH_PCT_SALES: &'static str = "{0} (Verkäufe %)";
pub const TUI_SLIDER_WORKDAY: &'static str = "Arbeitsstunden";
pub const TUI_SLIDER_PARALLEL: &'static str = "Parallelprodukte";
pub const TUI_SLIDER_MONTHLY_GOAL: &'static str = "Monatliches Nettogewinnziel";
pub const TUI_SLIDER_YEARLY_GOAL: &'static str = "Jährliches Nettogewinnziel";
pub const TUI_SLIDER_MONTH: &'static str = "Monat";
pub const TUI_PARALLEL_LABEL: &'static str = "Parallelprodukte [{0}..={1}]";
pub const TUI_LOCK_YEAR: &'static str = " Jahr sperren";
pub const TUI_LOCK_MONTH: &'static str = " Monat sperren";
pub const TUI_YEARLY_SALES: &'static str = "Jährliche Verkäufe";
pub const TUI_LEGEND_UNITS: &'static str = "\u{25a0} Einheiten (n)   ";
pub const TUI_LEGEND_PROFIT: &'static str = "\u{25a0} Gewinn ($)   ";
pub const TUI_LEGEND_COST: &'static str = "\u{25a0} Kosten ($)   ";
pub const TUI_AXIS_MAX: &'static str = "Achsenmax";
pub const TUI_MAX: &'static str = "Max";
pub const TUI_PROFIT: &'static str = "Gewinn";
pub const TUI_YEARLY: &'static str = "jährlich";
pub const TUI_DONUT_MARGIN: &'static str = "Marge";
pub const TUI_DONUT_VS_YEAR: &'static str = "vs Jahr";
pub const TUI_LABEL_MONTHLY: &'static str = "Monatlich";
pub const TUI_LABEL_YEARLY: &'static str = "Jährlich";
pub const TUI_LABEL_SETTINGS: &'static str = "Einstellungen";
pub const TUI_LABEL_SALES: &'static str = "Verkäufe";
pub const TUI_LABEL_MIN: &'static str = "Min";
pub const TUI_LABEL_HOURS: &'static str = "Std.";
pub const TUI_LABEL_WORKDAYS: &'static str = "Arbeitstage";
pub const TUI_LABEL_WORKDAY: &'static str = "Arbeitstag";
pub const TUI_LABEL_PARALLEL: &'static str = "Parallel";
pub const TUI_LABEL_YEARLY_REF: &'static str = "Jahresref.";
pub const TUI_LABEL_12X_MO: &'static str = "12x Mo";
pub const TUI_LABEL_GOAL: &'static str = "Ziel";
pub const TUI_SUFFIX_HOURS: &'static str = "Std.";
pub const TUI_REGION_MAIN: &'static str = "Hauptbereich";
pub const TUI_REGION_SIDEBAR: &'static str = "Seitenleiste";
pub const TUI_FOOTER: &'static str = "Bereich: {0}   Tab Bereich   Shift+Tab Tab   \u{2191}/\u{2193} scrollen/navigieren   \u{2190}/\u{2192} anpassen   Leertaste sperren   Ctrl+E Export   Ctrl+H Hilfe   q Beenden";
pub const TUI_FOOTER_STATUS: &'static str = "{0}   |   Bereich: {1}   Tab Bereich   Shift+Tab Tab   \u{2191}/\u{2193} scrollen/navigieren   \u{2190}/\u{2192} anpassen   Leertaste sperren   Ctrl+E Export   Ctrl+H Hilfe   q Beenden";
pub const TUI_EXPORT_ERROR: &'static str = "Exportfehler ({0}): {1}";
pub const TUI_EXPORT_ERROR_TOTALS: &'static str = "Exportfehler (Gesamt): {0}";
pub const TUI_EXPORTED: &'static str = "{0} Produkdateien + Gesamt exportiert nach {1}";
pub const TUI_NO_PRODUCTS: &'static str = "Keine Produkte mit positivem Nettogewinn in {0} gefunden";
pub const TUI_HELP_TITLE: &'static str = "Hilfe";
pub const TUI_HELP_TEXT: &'static str = "## Produktdefinition (.txt-Dateien)\nJedes Produkt ist eine Klartextdatei im Geschäftordner. Die erste Zeile definiert das Produkt; jede weitere Zeile, die mit „- \" beginnt, ist ein Kostenpunkt.\n\n  + <Name> : <Verkaufspreis> <Währung> : <Produktionszeit> <Einheit>\n    - <Kostenpreis> <Währung> <Beschreibung>\n    - <Kostenpreis> <Währung> <Beschreibung>\n\n  Beispiel:\n  + Beer : 2.7 USD : 0.2 mins\n    - 0.27 USD labor\n    - 0.32 USD beer\n    - 0.10 USD cleaning\n\n  - Währung: jeder 3-stellige ISO-4217-Code (USD, EUR, GBP, JPY, MXN, CNY, ...).\n  - Einheiten der Produktionszeit: „mins\" oder „hours\".\n  - Produkte mit null oder negativem Nettogewinn (Preis - Gesamtkosten) werden übersprungen.\n  - Dateien mit *.simulation_results.txt und die Zustandsdatei simulation_state.txt werden vom Loader ignoriert.\n\n## Monats- & Jahres-Nettogewinnziele\nDer Simulator verfolgt ein NETTOGEWINN-Ziel (Einnahmen minus Kosten), nicht Umsatz. Zwei Sidebar-Regler legen die Ziele fest:\n\n  - Monatsziel: der Nettogewinn, den jeder Monat erreichen soll (Standard 500).\n  - Jahresziel: ein Referenzziel, neben der 12 x Monats-Summe angezeigt (Standard 500). Die Jahressumme ist die SUMME der 12 Monatswerte, das Jahresziel ist also nur ein Referenzwert.\n\nJeden Monat wird das Monatsziel nach den Verkaufs-Prozenten der Produkte aufgeteilt; ergibt die erforderliche Stückzahl je Produkt:\n\n  required_sales = ceil(Anteil * Monatsziel / Nettogewinn_pro_Einheit)\n\n## Parallele Produkte / Dienste\nDer Regler „parallel\" gibt an, wie viele Produkte gleichzeitig hergestellt bzw. Dienste geliefert werden können. Zusammen mit den Arbeitsstunden ergibt sich die monatliche Produktions-KAPAZITÄT in Minuten:\n\n  capacity_minutes = arbeitsstunden * 22 Arbeitstage * 60 * parallel\n\nÜbersteigen die erforderlichen Produktionsminuten die Kapazität, werden die Verkäufe passend herunterskaliert (das Ziel ist in diesem Monat nicht vollständig erreichbar). Der Parallel-Bereich wird automatisch so eingeschränkt, dass die Ziele erreichbar bleiben; Min/Max des Reglers werden bei jeder Änderung neu berechnet.\n\n## Arbeitsstunden\nWie viele Stunden pro Tag das Geschäft arbeitet (1..24, Standard 8). Fließt in die Kapazitätsformel ein und in die „Arbeitstage\"-Angabe der Ergebnisse:\n\n  workdays = erforderliche_Stunden / (arbeitsstunden * parallel)\n\n## Monats- / Jahres-Verkaufsverteilung %\nDas Monatsziel wird über Prozentangaben unter die Produkte verteilt. Jede Monatsspalte ergibt immer exakt 100%.\n\n  - Graph-Tab: ein Monatswähler wählt den Monat (Jan..Dez). Jedes Produkt hat einen Monats-%-Regler. Bearbeiten setzt den % des Produkts und verteilt den Rest GLEICHMÄSSIG unter den anderen nicht gesperrten Produkten dieses Monats.\n  - Products-Tab: jedes Produkt zeigt einen Jahres-%-Regler (den Mittel seiner 12 Monatswerte). Bearbeiten propagiert den Zielwert in jeden Monat, in dem das Produkt nicht monatsgesperrt ist, und verteilt innerhalb jedes Monats neu.\n\nDas Diagramm zeichnet 12 separate Monatsspalten, sodass die Zusammensetzung je Monat variieren kann (saisonale Nachfrage). Die Jahressumme ist die Summe der 12 Monate.\n\n## Sperren\nSperren frieren den Prozentsatz eines Produkts ein und nehmen es von der Neuverteilung aus.\n\n  - Jahressperre (Products-Tab, Leertaste auf Jahresregler): friert das Produkt in ALLEN 12 Monaten ein. Monats-Kästchen erscheinen markiert und ausgegraut.\n  - Monatssperre (Graph-Tab, Leertaste auf Monatsregler): friert das Produkt nur im gewählten Monat (deaktiviert, falls das Produkt jahresgesperrt ist).\n\nGesperrte Produkte behalten ihren festen Anteil am 100%-Kuchen; der restliche Prozentsatz wird unter den nicht gesperrten Produkten aufgeteilt.\n\n## Export & Status\nMit Ctrl+E den aktuellen Stand exportieren:\n\n  - Pro Produkt eine <produkt>.simulation_results.txt (Statistik + 12 Monatszeilen + Jahreszeile + Arbeitstag/Parallel).\n  - Eine totals.simulation_results.txt über alle Produkte.\n  - Eine Datei simulation_state.txt, die Prozente, Sperren und Einstellungen speichert.\n\nBeim erneuten Öffnen wird die gespeicherte Verteilung wiederhergestellt. Wurden Produkte hinzugefügt oder entfernt, werden die Prozente je Monat neu normalisiert, sodass sie 100 % ergeben.\n\n## Tasten\n  Tab          Sidebar <-> Hauptbereich wechseln\n  Shift+Tab    Products <-> Graph-Tab wechseln\n  Up / Down    Hauptbereich scrollen oder Sidebar-Regler navigieren\n  Left / Right fokussierten Regler anpassen\n  Space        Sperre des fokussierten Produktreglers umschalten\n  Ctrl+E       Simulation exportieren + Status speichern\n  Ctrl+H       diese Hilfe öffnen / schließen\n  q / Esc      beenden (Hilfe schließen, wenn offen)";

/// The German dictionary.
pub open spec fn table() -> Dict {
    Dict {
        usage_label: USAGE_LABEL,
        usage_interactive: USAGE_INTERACTIVE,
        usage_list: USAGE_LIST,
        usage_lang: USAGE_LANG,
        no_txt_files: NO_TXT_FILES,
        cannot_read_file: CANNOT_READ_FILE,
        file_colon_msg: FILE_COLON_MSG,
        parsed_products_header: PARSED_PRODUCTS_HEADER,
        no_valid_products: NO_VALID_PRODUCTS,
        file_label: FILE_LABEL,
        not_a_directory: NOT_A_DIRECTORY,
        unknown_lang: UNKNOWN_LANG,
        cost_display: COST_DISPLAY,
        product_label: PRODUCT_LABEL,
        sale_price_label: SALE_PRICE_LABEL,
        production_time_label: PRODUCTION_TIME_LABEL,
        costs_header: COSTS_HEADER,
        no_costs: NO_COSTS,
        time_mins: TIME_MINS,
        time_hours: TIME_HOURS,
        err_duplicate_product_line: ERR_DUPLICATE_PRODUCT_LINE,
        err_line_prefix: ERR_LINE_PREFIX,
        err_unexpected_line: ERR_UNEXPECTED_LINE,
        err_missing_product_line: ERR_MISSING_PRODUCT_LINE,
        err_product_sections: ERR_PRODUCT_SECTIONS,
        err_product_plus: ERR_PRODUCT_PLUS,
        err_empty_product_name: ERR_EMPTY_PRODUCT_NAME,
        err_sale_section: ERR_SALE_SECTION,
        err_invalid_sale_price: ERR_INVALID_SALE_PRICE,
        err_invalid_sale_currency: ERR_INVALID_SALE_CURRENCY,
        err_time_section: ERR_TIME_SECTION,
        err_invalid_prod_time: ERR_INVALID_PROD_TIME,
        err_invalid_time_unit: ERR_INVALID_TIME_UNIT,
        err_cost_minus: ERR_COST_MINUS,
        err_cost_tokens: ERR_COST_TOKENS,
        err_invalid_cost_price: ERR_INVALID_COST_PRICE,
        err_invalid_cost_currency: ERR_INVALID_COST_CURRENCY,
        result_product: RESULT_PRODUCT,
        result_sale_price: RESULT_SALE_PRICE,
        result_total_cost: RESULT_TOTAL_COST,
        result_net_profit_unit: RESULT_NET_PROFIT_UNIT,
        result_profit_margin: RESULT_PROFIT_MARGIN,
        result_prod_time: RESULT_PROD_TIME,
        result_monthly_goal: RESULT_MONTHLY_GOAL,
        result_monthly_time: RESULT_MONTHLY_TIME,
        result_month_row: RESULT_MONTH_ROW,
        result_annual_goal: RESULT_ANNUAL_GOAL,
        result_annual_time: RESULT_ANNUAL_TIME,
        result_workday: RESULT_WORKDAY,
        result_parallel: RESULT_PARALLEL,
        required_sales_needle: REQUIRED_SALES_NEEDLE,
        warn_net_profit_nonpositive: WARN_NET_PROFIT_NONPOSITIVE,
        prompt_monthly_goal: PROMPT_MONTHLY_GOAL,
        prompt_annual_goal: PROMPT_ANNUAL_GOAL,
        prompt_monthly_goal_plain: PROMPT_MONTHLY_GOAL_PLAIN,
        prompt_annual_goal_plain: PROMPT_ANNUAL_GOAL_PLAIN,
        err_read_monthly_goal: ERR_READ_MONTHLY_GOAL,
        err_read_annual_goal: ERR_READ_ANNUAL_GOAL,
        prompt_workday_hours: PROMPT_WORKDAY_HOURS,
        validate_workday_range: VALIDATE_WORKDAY_RANGE,
        err_read_workday: ERR_READ_WORKDAY,
        prompt_parallel_products: PROMPT_PARALLEL_PRODUCTS,
        validate_parallel_range: VALIDATE_PARALLEL_RANGE,
        err_read_parallel: ERR_READ_PARALLEL,
        sales_needed_header: SALES_NEEDED_HEADER,
        monthly_label: MONTHLY_LABEL,
        annual_label: ANNUAL_LABEL,
        err_write_result_file: ERR_WRITE_RESULT_FILE,
        warn_product_excluded: WARN_PRODUCT_EXCLUDED,
        warn_no_positive_products: WARN_NO_POSITIVE_PRODUCTS,
        random_split_header: RANDOM_SPLIT_HEADER,
        split_item: SPLIT_ITEM,
        per_product_header: PER_PRODUCT_HEADER,
        per_product_monthly: PER_PRODUCT_MONTHLY,
        per_product_annual: PER_PRODUCT_ANNUAL,
        totals_header: TOTALS_HEADER,
        total_monthly_sales: TOTAL_MONTHLY_SALES,
        total_month_row: TOTAL_MONTH_ROW,
        total_annual_sales: TOTAL_ANNUAL_SALES,
        err_write_result_file_for: ERR_WRITE_RESULT_FILE_FOR,
        err_write_totals_file: ERR_WRITE_TOTALS_FILE,
        warn_no_txt_files: WARN_NO_TXT_FILES,
        menu_prompt: MENU_PROMPT,
        err_menu: ERR_MENU,
        warn_no_selection: WARN_NO_SELECTION,
        err_read_file: ERR_READ_FILE,
        summary_net_profit: SUMMARY_NET_PROFIT,
        summary_margin: SUMMARY_MARGIN,
        summary_monthly: SUMMARY_MONTHLY,
        summary_annual: SUMMARY_ANNUAL,
        tui_tab_products: TUI_TAB_PRODUCTS,
        tui_tab_graph: TUI_TAB_GRAPH,
        tui_sidebar_month: TUI_SIDEBAR_MONTH,
        tui_sidebar_settings: TUI_SIDEBAR_SETTINGS,
        tui_sidebar_totals: TUI_SIDEBAR_TOTALS,
        tui_products_yearly: TUI_PRODUCTS_YEARLY,
        tui_month_pct_sales: TUI_MONTH_PCT_SALES,
        tui_slider_workday: TUI_SLIDER_WORKDAY,
        tui_slider_parallel: TUI_SLIDER_PARALLEL,
        tui_slider_monthly_goal: TUI_SLIDER_MONTHLY_GOAL,
        tui_slider_yearly_goal: TUI_SLIDER_YEARLY_GOAL,
        tui_slider_month: TUI_SLIDER_MONTH,
        tui_parallel_label: TUI_PARALLEL_LABEL,
        tui_lock_year: TUI_LOCK_YEAR,
        tui_lock_month: TUI_LOCK_MONTH,
        tui_yearly_sales: TUI_YEARLY_SALES,
        tui_legend_units: TUI_LEGEND_UNITS,
        tui_legend_profit: TUI_LEGEND_PROFIT,
        tui_legend_cost: TUI_LEGEND_COST,
        tui_axis_max: TUI_AXIS_MAX,
        tui_max: TUI_MAX,
        tui_profit: TUI_PROFIT,
        tui_yearly: TUI_YEARLY,
        tui_donut_margin: TUI_DONUT_MARGIN,
        tui_donut_vs_year: TUI_DONUT_VS_YEAR,
        tui_label_monthly: TUI_LABEL_MONTHLY,
        tui_label_yearly: TUI_LABEL_YEARLY,
        tui_label_settings: TUI_LABEL_SETTINGS,
        tui_label_sales: TUI_LABEL_SALES,
        tui_label_min: TUI_LABEL_MIN,
        tui_label_hours: TUI_LABEL_HOURS,
        tui_label_workdays: TUI_LABEL_WORKDAYS,
        tui_label_workday: TUI_LABEL_WORKDAY,
        tui_label_parallel: TUI_LABEL_PARALLEL,
        tui_label_yearly_ref: TUI_LABEL_YEARLY_REF,
        tui_label_12x_mo: TUI_LABEL_12X_MO,
        tui_label_goal: TUI_LABEL_GOAL,
        tui_suffix_hours: TUI_SUFFIX_HOURS,
        tui_region_main: TUI_REGION_MAIN,
        tui_region_sidebar: TUI_REGION_SIDEBAR,
        tui_footer: TUI_FOOTER,
        tui_footer_status: TUI_FOOTER_STATUS,
        tui_export_error: TUI_EXPORT_ERROR,
        tui_export_error_totals: TUI_EXPORT_ERROR_TOTALS,
        tui_exported: TUI_EXPORTED,
        tui_no_products: TUI_NO_PRODUCTS,
        tui_help_title: TUI_HELP_TITLE,
        tui_help_text: TUI_HELP_TEXT,
    }
}

/// Builds the German dictionary.
pub fn make() -> (d: Dict)
    ensures
        d == table(),
{
    Dict {
        usage_label: USAGE_LABEL,
        usage_interactive: USAGE_INTERACTIVE,
        usage_list: USAGE_LIST,
        usage_lang: USAGE_LANG,
        no_txt_files: NO_TXT_FILES,
        cannot_read_file: CANNOT_READ_FILE,
        file_colon_msg: FILE_COLON_MSG,
        parsed_products_header: PARSED_PRODUCTS_HEADER,
        no_valid_products: NO_VALID_PRODUCTS,
        file_label: FILE_LABEL,
        not_a_directory: NOT_A_DIRECTORY,
        unknown_lang: UNKNOWN_LANG,
        cost_display: COST_DISPLAY,
        product_label: PRODUCT_LABEL,
        sale_price_label: SALE_PRICE_LABEL,
        production_time_label: PRODUCTION_TIME_LABEL,
        costs_header: COSTS_HEADER,
        no_costs: NO_COSTS,
        time_mins: TIME_MINS,
        time_hours: TIME_HOURS,
        err_duplicate_product_line: ERR_DUPLICATE_PRODUCT_LINE,
        err_line_prefix: ERR_LINE_PREFIX,
        err_unexpected_line: ERR_UNEXPECTED_LINE,
        err_missing_product_line: ERR_MISSING_PRODUCT_LINE,
        err_product_sections: ERR_PRODUCT_SECTIONS,
        err_product_plus: ERR_PRODUCT_PLUS,
        err_empty_product_name: ERR_EMPTY_PRODUCT_NAME,
        err_sale_section: ERR_SALE_SECTION,
        err_invalid_sale_price: ERR_INVALID_SALE_PRICE,
        err_invalid_sale_currency: ERR_INVALID_SALE_CURRENCY,
        err_time_section: ERR_TIME_SECTION,
        err_invalid_prod_time: ERR_INVALID_PROD_TIME,
        err_invalid_time_unit: ERR_INVALID_TIME_UNIT,
        err_cost_minus: ERR_COST_MINUS,
        err_cost_tokens: ERR_COST_TOKENS,
        err_invalid_cost_price: ERR_INVALID_COST_PRICE,
        err_invalid_cost_currency: ERR_INVALID_COST_CURRENCY,
        result_product: RESULT_PRODUCT,
        result_sale_price: RESULT_SALE_PRICE,
        result_total_cost: RESULT_TOTAL_COST,
        result_net_profit_unit: RESULT_NET_PROFIT_UNIT,
        result_profit_margin: RESULT_PROFIT_MARGIN,
        result_prod_time: RESULT_PROD_TIME,
        result_monthly_goal: RESULT_MONTHLY_GOAL,
        result_monthly_time: RESULT_MONTHLY_TIME,
        result_month_row: RESULT_MONTH_ROW,
        result_annual_goal: RESULT_ANNUAL_GOAL,
        result_annual_time: RESULT_ANNUAL_TIME,
        result_workday: RESULT_WORKDAY,
        result_parallel: RESULT_PARALLEL,
        required_sales_needle: REQUIRED_SALES_NEEDLE,
        warn_net_profit_nonpositive: WARN_NET_PROFIT_NONPOSITIVE,
        prompt_monthly_goal: PROMPT_MONTHLY_GOAL,
        prompt_annual_goal: PROMPT_ANNUAL_GOAL,
        prompt_monthly_goal_plain: PROMPT_MONTHLY_GOAL_PLAIN,
        prompt_annual_goal_plain: PROMPT_ANNUAL_GOAL_PLAIN,
        err_read_monthly_goal: ERR_READ_MONTHLY_GOAL,
        err_read_annual_goal: ERR_READ_ANNUAL_GOAL,
        prompt_workday_hours: PROMPT_WORKDAY_HOURS,
        validate_workday_range: VALIDATE_WORKDAY_RANGE,
        err_read_workday: ERR_READ_WORKDAY,
        prompt_parallel_products: PROMPT_PARALLEL_PRODUCTS,
        validate_parallel_range: VALIDATE_PARALLEL_RANGE,
        err_read_parallel: ERR_READ_PARALLEL,
        sales_needed_header: SALES_NEEDED_HEADER,
        monthly_label: MONTHLY_LABEL,
        annual_label: ANNUAL_LABEL,
        err_write_result_file: ERR_WRITE_RESULT_FILE,
        warn_product_excluded: WARN_PRODUCT_EXCLUDED,
        warn_no_positive_products: WARN_NO_POSITIVE_PRODUCTS,
        random_split_header: RANDOM_SPLIT_HEADER,
        split_item: SPLIT_ITEM,
        per_product_header: PER_PRODUCT_HEADER,
        per_product_monthly: PER_PRODUCT_MONTHLY,
        per_product_annual: PER_PRODUCT_ANNUAL,
        totals_header: TOTALS_HEADER,
        total_monthly_sales: TOTAL_MONTHLY_SALES,
        total_month_row: TOTAL_MONTH_ROW,
        total_annual_sales: TOTAL_ANNUAL_SALES,
        err_write_result_file_for: ERR_WRITE_RESULT_FILE_FOR,
        err_write_totals_file: ERR_WRITE_TOTALS_FILE,
        warn_no_txt_files: WARN_NO_TXT_FILES,
        menu_prompt: MENU_PROMPT,
        err_menu: ERR_MENU,
        warn_no_selection: WARN_NO_SELECTION,
        err_read_file: ERR_READ_FILE,
        summary_net_profit: SUMMARY_NET_PROFIT,
        summary_margin: SUMMARY_MARGIN,
        summary_monthly: SUMMARY_MONTHLY,
        summary_annual: SUMMARY_ANNUAL,
        tui_tab_products: TUI_TAB_PRODUCTS,
        tui_tab_graph: TUI_TAB_GRAPH,
        tui_sidebar_month: TUI_SIDEBAR_MONTH,
        tui_sidebar_settings: TUI_SIDEBAR_SETTINGS,
        tui_sidebar_totals: TUI_SIDEBAR_TOTALS,
        tui_products_yearly: TUI_PRODUCTS_YEARLY,
        tui_month_pct_sales: TUI_MONTH_PCT_SALES,
        tui_slider_workday: TUI_SLIDER_WORKDAY,
        tui_slider_parallel: TUI_SLIDER_PARALLEL,
        tui_slider_monthly_goal: TUI_SLIDER_MONTHLY_GOAL,
        tui_slider_yearly_goal: TUI_SLIDER_YEARLY_GOAL,
        tui_slider_month: TUI_SLIDER_MONTH,
        tui_parallel_label: TUI_PARALLEL_LABEL,
        tui_lock_year: TUI_LOCK_YEAR,
        tui_lock_month: TUI_LOCK_MONTH,
        tui_yearly_sales: TUI_YEARLY_SALES,
        tui_legend_units: TUI_LEGEND_UNITS,
        tui_legend_profit: TUI_LEGEND_PROFIT,
        tui_legend_cost: TUI_LEGEND_COST,
        tui_axis_max: TUI_AXIS_MAX,
        tui_max: TUI_MAX,
        tui_profit: TUI_PROFIT,
        tui_yearly: TUI_YEARLY,
        tui_donut_margin: TUI_DONUT_MARGIN,
        tui_donut_vs_year: TUI_DONUT_VS_YEAR,
        tui_label_monthly: TUI_LABEL_MONTHLY,
        tui_label_yearly: TUI_LABEL_YEARLY,
        tui_label_settings: TUI_LABEL_SETTINGS,
        tui_label_sales: TUI_LABEL_SALES,
        tui_label_min: TUI_LABEL_MIN,
        tui_label_hours: TUI_LABEL_HOURS,
        tui_label_workdays: TUI_LABEL_WORKDAYS,
        tui_label_workday: TUI_LABEL_WORKDAY,
        tui_label_parallel: TUI_LABEL_PARALLEL,
        tui_label_yearly_ref: TUI_LABEL_YEARLY_REF,
        tui_label_12x_mo: TUI_LABEL_12X_MO,
        tui_label_goal: TUI_LABEL_GOAL,
        tui_suffix_hours: TUI_SUFFIX_HOURS,
        tui_region_main: TUI_REGION_MAIN,
        tui_region_sidebar: TUI_REGION_SIDEBAR,
        tui_footer: TUI_FOOTER,
        tui_footer_status: TUI_FOOTER_STATUS,
        tui_export_error: TUI_EXPORT_ERROR,
        tui_export_error_totals: TUI_EXPORT_ERROR_TOTALS,
        tui_exported: TUI_EXPORTED,
        tui_no_products: TUI_NO_PRODUCTS,
        tui_help_title: TUI_HELP_TITLE,
        tui_help_text: TUI_HELP_TEXT,
    }
}

} // verus!
