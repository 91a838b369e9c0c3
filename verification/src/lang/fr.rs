//! French messages.
use vstd::prelude::*;
use crate::lang::Dict;

verus! {

pub const USAGE_LABEL: &'static str = "Utilisation :";
pub const USAGE_INTERACTIVE: &'static str = "  {0} <dossier_racine>          Lance le menu interactif du simulateur de produits";
pub const USAGE_LIST: &'static str = "  {0} --list <dossier_racine>   Analyser et afficher toutes les définitions de produits";
pub const USAGE_LANG: &'static str = "  {0} --lang <code_langue> <dossier_racine>   Définir la langue (en, es, zh, de, ru, fr)";
pub const NO_TXT_FILES: &'static str = "Aucun fichier .txt trouvé dans « {0} »";
pub const CANNOT_READ_FILE: &'static str = "{0} : impossible de lire le fichier : {1}";
pub const FILE_COLON_MSG: &'static str = "{0} : {1}";
pub const PARSED_PRODUCTS_HEADER: &'static str = "=== Produits analysés ({0} valides) ===";
pub const NO_VALID_PRODUCTS: &'static str = "(aucun produit valide trouvé)";
pub const FILE_LABEL: &'static str = "Fichier : {0}";
pub const NOT_A_DIRECTORY: &'static str = "Erreur : « {0} » n'est pas un répertoire";
pub const UNKNOWN_LANG: &'static str = "Erreur : code de langue inconnu « {0} » (supportés : en, es, zh, de, ru, fr)";
pub const COST_DISPLAY: &'static str = "- {0} {1} {2}";
pub const PRODUCT_LABEL: &'static str = "Produit : {0}";
pub const SALE_PRICE_LABEL: &'static str = "  Prix de vente :     {0} {1}";
pub const PRODUCTION_TIME_LABEL: &'static str = "  Temps de production : {0} {1}";
pub const COSTS_HEADER: &'static str = "  Coûts ({0}) :";
pub const NO_COSTS: &'static str = "    (aucun)";
pub const TIME_MINS: &'static str = "min";
pub const TIME_HOURS: &'static str = "heures";
pub const ERR_DUPLICATE_PRODUCT_LINE: &'static str = "ligne {0} : ligne de définition de produit en double";
pub const ERR_LINE_PREFIX: &'static str = "ligne {0} : {1}";
pub const ERR_UNEXPECTED_LINE: &'static str = "ligne {0} : ligne inattendue, chaque ligne doit commencer par « + » ou « - »";
pub const ERR_MISSING_PRODUCT_LINE: &'static str = "ligne de définition de produit manquante (une ligne commençant par « + »)";
pub const ERR_PRODUCT_SECTIONS: &'static str = "la ligne produit doit contenir exactement 3 sections séparées par deux-points, {0} trouvée(s)";
pub const ERR_PRODUCT_PLUS: &'static str = "la ligne produit doit commencer par « + »";
pub const ERR_EMPTY_PRODUCT_NAME: &'static str = "le nom du produit est vide";
pub const ERR_SALE_SECTION: &'static str = "la section vente doit être « <prix> <monnaie> », {0} jeton(s) trouvé(s)";
pub const ERR_INVALID_SALE_PRICE: &'static str = "prix de vente invalide « {0} »";
pub const ERR_INVALID_SALE_CURRENCY: &'static str = "monnaie de vente invalide « {0} » : doit être un code ISO 4217 de 3 lettres (ex. USD, EUR, GBP, JPY)";
pub const ERR_TIME_SECTION: &'static str = "la section temps de production doit être « <temps> <unité> », {0} jeton(s) trouvé(s)";
pub const ERR_INVALID_PROD_TIME: &'static str = "temps de production invalide « {0} »";
pub const ERR_INVALID_TIME_UNIT: &'static str = "unité de temps de production invalide « {0} » : doit être mins ou hours";
pub const ERR_COST_MINUS: &'static str = "la ligne de coût doit commencer par « - »";
pub const ERR_COST_TOKENS: &'static str = "la ligne de coût doit être « <prix> <monnaie> <description> », {0} jeton(s) trouvé(s)";
pub const ERR_INVALID_COST_PRICE: &'static str = "prix de coût invalide « {0} »";
pub const ERR_INVALID_COST_CURRENCY: &'static str = "monnaie de coût invalide « {0} » : doit être un code ISO 4217 de 3 lettres (ex. USD, EUR, GBP, JPY)";
pub const RESULT_PRODUCT: &'static str = "📦 Produit : \t\t\t{0}";
pub const RESULT_SALE_PRICE: &'static str = "💶 Prix de vente : \t\t{0} {1}";
pub const RESULT_TOTAL_COST: &'static str = "💸 Coût total : \t\t{0} {1}";
pub const RESULT_NET_PROFIT_UNIT: &'static str = "📈 Profit net (unité) : \t{0} {1}";
pub const RESULT_PROFIT_MARGIN: &'static str = "📊 Marge bénéficiaire : \t{0}%";
pub const RESULT_PROD_TIME: &'static str = "🕐 Temps de production : \t{0} minutes";
pub const RESULT_MONTHLY_GOAL: &'static str = "🎯 Objectif mensuel :\t\t{0} {1} → Ventes requises : {2}";
pub const RESULT_MONTHLY_TIME: &'static str = "🕐 Temps mensuel total :\t{0} minutes ({1} heures) ({2} produits parallèles sur {3} heures de travail) ({4} jours de travail)";
pub const RESULT_MONTH_ROW: &'static str = "{0} {1} → {2} ventes  🕐 {3} min ({4} h)";
pub const RESULT_ANNUAL_GOAL: &'static str = "🎯 Objectif annuel :\t\t\t{0} {1} → Ventes requises : {2}";
pub const RESULT_ANNUAL_TIME: &'static str = "🕐 Temps annuel total :\t\t{0} minutes ({1} heures) ({2} produits parallèles sur {3} heures de travail) ({4} jours de travail)";
pub const RESULT_WORKDAY: &'static str = "🕐 Journée de travail :\t\t{0} heures";
pub const RESULT_PARALLEL: &'static str = "🧵 Produits parallèles :\t{0}";
pub const REQUIRED_SALES_NEEDLE: &'static str = "Ventes requises :";
pub const WARN_NET_PROFIT_NONPOSITIVE: &'static str = "⚠️ Le profit net par unité est de {0} {1}. Impossible d'atteindre un objectif de profit net ainsi.";
pub const PROMPT_MONTHLY_GOAL: &'static str = "🎯 Quel est votre objectif MENSUEL de profit net (en {0}) ?";
pub const PROMPT_ANNUAL_GOAL: &'static str = "🎯 Quel est votre objectif ANNUEL de profit net (en {0}) ?";
pub const PROMPT_MONTHLY_GOAL_PLAIN: &'static str = "🎯 Quel est votre objectif MENSUEL de profit net ?";
pub const PROMPT_ANNUAL_GOAL_PLAIN: &'static str = "🎯 Quel est votre objectif ANNUEL de profit net ?";
pub const ERR_READ_MONTHLY_GOAL: &'static str = "impossible de lire l'objectif mensuel : {0}";
pub const ERR_READ_ANNUAL_GOAL: &'static str = "impossible de lire l'objectif annuel : {0}";
pub const PROMPT_WORKDAY_HOURS: &'static str = "🕐 Combien d'heures par jour le commerce fonctionne-t-il ? ({0}-{1})";
pub const VALIDATE_WORKDAY_RANGE: &'static str = "Saisissez un nombre entre {0} et {1}";
pub const ERR_READ_WORKDAY: &'static str = "impossible de lire les heures de travail : {0}";
pub const PROMPT_PARALLEL_PRODUCTS: &'static str = "🧵 Combien de produits parallèles l'entreprise peut-elle produire ? ({0}-{1})";
pub const VALIDATE_PARALLEL_RANGE: &'static str = "Saisissez un nombre entre {0} et {1}";
pub const ERR_READ_PARALLEL: &'static str = "impossible de lire le nombre de produits parallèles : {0}";
pub const SALES_NEEDED_HEADER: &'static str = "➡️ Ventes requises pour atteindre le profit net :";
pub const MONTHLY_LABEL: &'static str = "📆 Mensuel ({0} {1}) :\t{2} ventes";
pub const ANNUAL_LABEL: &'static str = "📅 Annuel ({0} {1}) :\t{2} ventes";
pub const ERR_WRITE_RESULT_FILE: &'static str = "impossible d'écrire le fichier de résultats : {0}";
pub const WARN_PRODUCT_EXCLUDED: &'static str = "⚠️ «{0} » : profit net {1} {2} ≤ 0, exclu de la répartition.";
pub const WARN_NO_POSITIVE_PRODUCTS: &'static str = "⚠️ Aucun produit n'a de profit net positif ; l'objectif ne peut pas être réparti.";
pub const RANDOM_SPLIT_HEADER: &'static str = "🎲 Répartition aléatoire des ventes (1 %–70 % par produit, normalisée à 100 %) :";
pub const SPLIT_ITEM: &'static str = "  • {0}  🎲 {1}%  → {2}% de l'objectif";
pub const PER_PRODUCT_HEADER: &'static str = "➡️ Ventes requises par produit (objectif réparti) :";
pub const PER_PRODUCT_MONTHLY: &'static str = "      📆 Mensuel :  {0} {1}  {2} ventes  🕐 {3} min ({4} h)";
pub const PER_PRODUCT_ANNUAL: &'static str = "      📅 Annuel :  {0} {1}  {2} ventes  🕐 {3} min ({4} h)";
pub const TOTALS_HEADER: &'static str = "📊 Totaux ({0} produits) :";
pub const TOTAL_MONTHLY_SALES: &'static str = "  📆 Ventes mensuelles totales :  {0}  🕐 {1} min ({2} h) ({3} produits parallèles sur {4} heures de travail) ({5} jours de travail)";
pub const TOTAL_MONTH_ROW: &'static str = "{0} ventes  🕐 {1} min ({2} h)";
pub const TOTAL_ANNUAL_SALES: &'static str = "  📅 Ventes annuelles totales :  {0}  🕐 {1} min ({2} h) ({3} produits parallèles sur {4} heures de travail) ({5} jours de travail)";
pub const ERR_WRITE_RESULT_FILE_FOR: &'static str = "impossible d'écrire le fichier de résultats pour « {0} » : {1}";
pub const ERR_WRITE_TOTALS_FILE: &'static str = "impossible d'écrire le fichier des totaux : {0}";
pub const WARN_NO_TXT_FILES: &'static str = "⚠️ Aucun fichier .txt valide dans le dossier « {0} »";
pub const MENU_PROMPT: &'static str = "📄 Sélectionnez un ou plusieurs fichiers (espace pour cocher, entrée pour confirmer) :";
pub const ERR_MENU: &'static str = "erreur de menu : {0}";
pub const WARN_NO_SELECTION: &'static str = "⚠️ Aucun fichier sélectionné.";
pub const ERR_READ_FILE: &'static str = "❌ Erreur de lecture du fichier « {0} » : {1}";
pub const SUMMARY_NET_PROFIT: &'static str = "\t💶 {0} {1}";
pub const SUMMARY_MARGIN: &'static str = "\t📊 {0}%";
pub const SUMMARY_MONTHLY: &'static str = "\t📆 {0} ventes (mois) \t 🕐 {1} min (mois)";
pub const SUMMARY_ANNUAL: &'static str = "\t📅 {0} ventes (an) \t🕐 {1} heures (an)";
pub const TUI_TAB_PRODUCTS: &'static str = "Produits";
pub const TUI_TAB_GRAPH: &'static str = "Graphique";
pub const TUI_SIDEBAR_MONTH: &'static str = "Mois";
pub const TUI_SIDEBAR_SETTINGS: &'static str = "Paramètres";
pub const TUI_SIDEBAR_TOTALS: &'static str = "Totaux";
pub const TUI_PRODUCTS_YEARLY: &'static str = "Produits (% annuel)";
pub const TUI_MONTH_PCT_SALES: &'static str = "{0} (% ventes)";
pub const TUI_SLIDER_WORKDAY: &'static str = "Heures de travail";
pub const TUI_SLIDER_PARALLEL: &'static str = "Produits parallèles";
pub const TUI_SLIDER_MONTHLY_GOAL: &'static str = "Objectif mensuel de profit net";
pub const TUI_SLIDER_YEARLY_GOAL: &'static str = "Objectif annuel de profit net";
pub const TUI_SLIDER_MONTH: &'static str = "Mois";
pub const TUI_PARALLEL_LABEL: &'static str = "Produits parallèles [{0}..={1}]";
pub const TUI_LOCK_YEAR: &'static str = " verrouiller année";
pub const TUI_LOCK_MONTH: &'static str = " verrouiller mois";
pub const TUI_YEARLY_SALES: &'static str = "Ventes annuelles";
pub const TUI_LEGEND_UNITS: &'static str = "\u{25a0} unités (n)   ";
pub const TUI_LEGEND_PROFIT: &'static str = "\u{25a0} profit ($)   ";
pub const TUI_LEGEND_COST: &'static str = "\u{25a0} coût ($)   ";
pub const TUI_AXIS_MAX: &'static str = "max. axe";
pub const TUI_MAX: &'static str = "max";
pub const TUI_PROFIT: &'static str = "profit";
pub const TUI_YEARLY: &'static str = "annuel";
pub const TUI_DONUT_MARGIN: &'static str = "marge";
pub const TUI_DONUT_VS_YEAR: &'static str = "vs an";
pub const TUI_LABEL_MONTHLY: &'static str = "Mensuel";
pub const TUI_LABEL_YEARLY: &'static str = "Annuel";
pub const TUI_LABEL_SETTINGS: &'static str = "Paramètres";
pub const TUI_LABEL_SALES: &'static str = "ventes";
pub const TUI_LABEL_MIN: &'static str = "min";
pub const TUI_LABEL_HOURS: &'static str = "heures";
pub const TUI_LABEL_WORKDAYS: &'static str = "jours trav.";
pub const TUI_LABEL_WORKDAY: &'static str = "jour trav.";
pub const TUI_LABEL_PARALLEL: &'static str = "parall.";
pub const TUI_LABEL_YEARLY_REF: &'static str = "Réf. annuelle";
pub const TUI_LABEL_12X_MO: &'static str = "12x mois";
pub const TUI_LABEL_GOAL: &'static str = "objectif";
pub const TUI_SUFFIX_HOURS: &'static str = "h";
pub const TUI_REGION_MAIN: &'static str = "principal";
pub const TUI_REGION_SIDEBAR: &'static str = "latéral";
pub const TUI_FOOTER: &'static str = "région : {0}   Tab région   Shift+Tab onglet   \u{2191}/\u{2193} défiler/naviguer   \u{2190}/\u{2192} ajuster   Espace verrouiller   Ctrl+E exporter   Ctrl+H aide   q quitter";
pub const TUI_FOOTER_STATUS: &'static str = "{0}   |   région : {1}   Tab région   Shift+Tab onglet   \u{2191}/\u{2193} défiler/naviguer   \u{2190}/\u{2192} ajuster   Espace verrouiller   Ctrl+E exporter   Ctrl+H aide   q quitter";
pub const TUI_EXPORT_ERROR: &'static str = "erreur d'export ({0}) : {1}";
pub const TUI_EXPORT_ERROR_TOTALS: &'static str = "erreur d'export (totaux) : {0}";
pub const TUI_EXPORTED: &'static str = "exporté {0} fichiers produit + totaux vers {1}";
pub const TUI_NO_PRODUCTS: &'static str = "Aucun produit avec un profit net positif trouvé dans {0}";
pub const TUI_HELP_TITLE: &'static str = "Aide";
pub const TUI_HELP_TEXT: &'static str = "## Définition du produit (fichiers .txt)\nChaque produit est un fichier texte brut dans le dossier du commerce. La première ligne définit le produit ; chaque ligne suivante commençant par « - » est un coût.\n\n  + <nom> : <prix_vente> <monnaie> : <temps_production> <unité>\n    - <prix_coût> <monnaie> <description>\n    - <prix_coût> <monnaie> <description>\n\n  Exemple :\n  + Beer : 2.7 USD : 0.2 mins\n    - 0.27 USD labor\n    - 0.32 USD beer\n    - 0.10 USD cleaning\n\n  - Monnaie : tout code ISO 4217 à 3 lettres (USD, EUR, GBP, JPY, MXN, CNY, ...).\n  - Unités de temps de production : « mins » ou « hours ».\n  - Les produits dont le profit net (prix - coût total) est nul ou négatif sont ignorés.\n  - Les fichiers *.simulation_results.txt et le fichier d'état simulation_state.txt sont ignorés par le chargeur.\n\n## Objectifs de profit net mensuel et annuel\nLe simulateur vise un objectif de PROFIT NET (revenus moins coûts), pas de chiffre d'affaires. Deux curseurs de la barre latérale fixent les objectifs :\n\n  - Objectif mensuel : le profit net que chaque mois doit atteindre (500 par défaut).\n  - Objectif annuel : un objectif de référence affiché à côté de la somme 12 x mensuelle (500 par défaut). Le total annuel est la SOMME des 12 résultats mensuels, l'objectif annuel n'est donc qu'une référence.\n\nChaque mois, l'objectif mensuel est réparti entre les produits selon leur part de ventes en %, donnant un nombre de ventes requises par produit :\n\n  required_sales = ceil(part * objectif_mensuel / profit_net_par_unité)\n\n## Produits / services parallèles\nLe curseur « parallel » indique combien de produits peuvent être produits ou services livrés simultanément. Avec les heures de journée, il définit la CAPACITÉ de production mensuelle en minutes :\n\n  capacity_minutes = heures_journée * 22 jours * 60 * parallel\n\nSi les minutes de production requises dépassent la capacité, les ventes sont réduites en proportion (l'objectif ne peut être pleinement atteint ce mois-là). La plage de parallel est automatiquement bornée pour que les objectifs restent atteignables ; le min/max du curseur est recalculé à chaque modification.\n\n## Heures de journée\nNombre d'heures par jour pendant lesquelles le commerce fonctionne (1..24, 8 par défaut). Entre dans la formule de capacité ci-dessus et dans la valeur « journées » affichée dans les résultats :\n\n  workdays = heures_requises / (heures_journée * parallel)\n\n## Distribution des ventes mensuelle / annuelle %\nL'objectif de chaque mois est réparti entre les produits via des pourcentages. Chaque colonne de mois fait toujours exactement 100 % au total.\n\n  - Onglet Graph : un sélecteur de mois choisit le mois (janv.~déc.). Chaque produit a un curseur de % mensuel. Le modifier fixe le % du produit et redistribue le reste ÉGALEMENT entre les autres produits non verrouillés de ce mois.\n  - Onglet Products : chaque produit affiche un curseur de % annuel (la moyenne de ses 12 valeurs mensuelles). Le modifier propage la cible à chaque mois où le produit n'est pas verrouillé par mois, en redistribuant dans chaque mois.\n\nLe graphique dessine 12 colonnes mensuelles distinctes, donc la répartition peut varier par mois (demande saisonnière). Le total annuel est la somme des 12 mois.\n\n## Verrous\nLes verrous figent le pourcentage d'un produit pour l'exclure de la redistribution.\n\n  - Verrou annuel (onglet Products, Espace sur un curseur annuel) : fige le produit sur TOUS les 12 mois. Les cases mensuelles apparaissent cochées et grisées.\n  - Verrou mensuel (onglet Graph, Espace sur un curseur mensuel) : fige le produit seulement pour le mois sélectionné (désactivé si le produit est verrouillé annuellement).\n\nLes produits verrouillés gardent leur part fixe du camembert des 100 % ; le reste est réparti entre les produits non verrouillés.\n\n## Exportation et état\nAppuyez sur Ctrl+E pour exporter la simulation actuelle :\n\n  - Un <produit>.simulation_results.txt par produit (statistiques + 12 lignes mensuelles + ligne annuelle + journée/parallel).\n  - Un totals.simulation_results.txt agrégeant tous les produits.\n  - Un fichier simulation_state.txt sauvegardant les pourcentages, verrous et réglages.\n\nÀ la réouverture, la distribution sauvegardée est restaurée. Si des produits ont été ajoutés ou supprimés depuis la sauvegarde, les pourcentages de chaque mois sont renormalisés pour sommer à 100 %.\n\n## Touches\n  Tab          basculer barre latérale <-> zone principale\n  Shift+Tab    basculer l'onglet Products <-> Graph\n  Up / Down    défiler la zone principale ou naviguer les curseurs\n  Left / Right ajuster le curseur actif\n  Space        basculer le verrou du curseur produit actif\n  Ctrl+E       exporter la simulation + sauver l'état\n  Ctrl+H       ouvrir / fermer cette aide\n  q / Esc      quitter (ferme l'aide si elle est ouverte)";

/// The French dictionary.
pub open spec fn table() -> Dict {
    Dict {
        usage_label: USAGE_LABEL,
        usage_interactive: USAGE_INTERACTIVE,
        usage_list: USAGE_LIST,
        usage_lang: USAGE_LANG,
        no_txt_files: NO_TXT_FILES,
        cannot_read_file: CANNOT_READ_FILE,
        file_colon_msg: FILE_COLON_MSG,
        parsed_products_header: PARSED_PRODUCTS_HEADER,
        no_valid_products: NO_VALID_PRODUCTS,
        file_label: FILE_LABEL,
        not_a_directory: NOT_A_DIRECTORY,
        unknown_lang: UNKNOWN_LANG,
        cost_display: COST_DISPLAY,
        product_label: PRODUCT_LABEL,
        sale_price_label: SALE_PRICE_LABEL,
        production_time_label: PRODUCTION_TIME_LABEL,
        costs_header: COSTS_HEADER,
        no_costs: NO_COSTS,
        time_mins: TIME_MINS,
        time_hours: TIME_HOURS,
        err_duplicate_product_line: ERR_DUPLICATE_PRODUCT_LINE,
        err_line_prefix: ERR_LINE_PREFIX,
        err_unexpected_line: ERR_UNEXPECTED_LINE,
        err_missing_product_line: ERR_MISSING_PRODUCT_LINE,
        err_product_sections: ERR_PRODUCT_SECTIONS,
        err_product_plus: ERR_PRODUCT_PLUS,
        err_empty_product_name: ERR_EMPTY_PRODUCT_NAME,
        err_sale_section: ERR_SALE_SECTION,
        err_invalid_sale_price: ERR_INVALID_SALE_PRICE,
        err_invalid_sale_currency: ERR_INVALID_SALE_CURRENCY,
        err_time_section: ERR_TIME_SECTION,
        err_invalid_prod_time: ERR_INVALID_PROD_TIME,
        err_invalid_time_unit: ERR_INVALID_TIME_UNIT,
        err_cost_minus: ERR_COST_MINUS,
        err_cost_tokens: ERR_COST_TOKENS,
        err_invalid_cost_price: ERR_INVALID_COST_PRICE,
        err_invalid_cost_currency: ERR_INVALID_COST_CURRENCY,
        result_product: RESULT_PRODUCT,
        result_sale_price: RESULT_SALE_PRICE,
        result_total_cost: RESULT_TOTAL_COST,
        result_net_profit_unit: RESULT_NET_PROFIT_UNIT,
        result_profit_margin: RESULT_PROFIT_MARGIN,
        result_prod_time: RESULT_PROD_TIME,
        result_monthly_goal: RESULT_MONTHLY_GOAL,
        result_monthly_time: RESULT_MONTHLY_TIME,
        result_month_row: RESULT_MONTH_ROW,
        result_annual_goal: RESULT_ANNUAL_GOAL,
        result_annual_time: RESULT_ANNUAL_TIME,
        result_workday: RESULT_WORKDAY,
        result_parallel: RESULT_PARALLEL,
        required_sales_needle: REQUIRED_SALES_NEEDLE,
        warn_net_profit_nonpositive: WARN_NET_PROFIT_NONPOSITIVE,
        prompt_monthly_goal: PROMPT_MONTHLY_GOAL,
        prompt_annual_goal: PROMPT_ANNUAL_GOAL,
        prompt_monthly_goal_plain: PROMPT_MONTHLY_GOAL_PLAIN,
        prompt_annual_goal_plain: PROMPT_ANNUAL_GOAL_PLAIN,
        err_read_monthly_goal: ERR_READ_MONTHLY_GOAL,
        err_read_annual_goal: ERR_READ_ANNUAL_GOAL,
        prompt_workday_hours: PROMPT_WORKDAY_HOURS,
        validate_workday_range: VALIDATE_WORKDAY_RANGE,
        err_read_workday: ERR_READ_WORKDAY,
        prompt_parallel_products: PROMPT_PARALLEL_PRODUCTS,
        validate_parallel_range: VALIDATE_PARALLEL_RANGE,
        err_read_parallel: ERR_READ_PARALLEL,
        sales_needed_header: SALES_NEEDED_HEADER,
        monthly_label: MONTHLY_LABEL,
        annual_label: ANNUAL_LABEL,
        err_write_result_file: ERR_WRITE_RESULT_FILE,
        warn_product_excluded: WARN_PRODUCT_EXCLUDED,
        warn_no_positive_products: WARN_NO_POSITIVE_PRODUCTS,
        random_split_header: RANDOM_SPLIT_HEADER,
        split_item: SPLIT_ITEM,
        per_product_header: PER_PRODUCT_HEADER,
        per_product_monthly: PER_PRODUCT_MONTHLY,
        per_product_annual: PER_PRODUCT_ANNUAL,
        totals_header: TOTALS_HEADER,
        total_monthly_sales: TOTAL_MONTHLY_SALES,
        total_month_row: TOTAL_MONTH_ROW,
        total_annual_sales: TOTAL_ANNUAL_SALES,
        err_write_result_file_for: ERR_WRITE_RESULT_FILE_FOR,
        err_write_totals_file: ERR_WRITE_TOTALS_FILE,
        warn_no_txt_files: WARN_NO_TXT_FILES,
        menu_prompt: MENU_PROMPT,
        err_menu: ERR_MENU,
        warn_no_selection: WARN_NO_SELECTION,
        err_read_file: ERR_READ_FILE,
        summary_net_profit: SUMMARY_NET_PROFIT,
        summary_margin: SUMMARY_MARGIN,
        summary_monthly: SUMMARY_MONTHLY,
        summary_annual: SUMMARY_ANNUAL,
        tui_tab_products: TUI_TAB_PRODUCTS,
        tui_tab_graph: TUI_TAB_GRAPH,
        tui_sidebar_month: TUI_SIDEBAR_MONTH,
        tui_sidebar_settings: TUI_SIDEBAR_SETTINGS,
        tui_sidebar_totals: TUI_SIDEBAR_TOTALS,
        tui_products_yearly: TUI_PRODUCTS_YEARLY,
        tui_month_pct_sales: TUI_MONTH_PCT_SALES,
        tui_slider_workday: TUI_SLIDER_WORKDAY,
        tui_slider_parallel: TUI_SLIDER_PARALLEL,
        tui_slider_monthly_goal: TUI_SLIDER_MONTHLY_GOAL,
        tui_slider_yearly_goal: TUI_SLIDER_YEARLY_GOAL,
        tui_slider_month: TUI_SLIDER_MONTH,
        tui_parallel_label: TUI_PARALLEL_LABEL,
        tui_lock_year: TUI_LOCK_YEAR,
        tui_lock_month: TUI_LOCK_MONTH,
        tui_yearly_sales: TUI_YEARLY_SALES,
        tui_legend_units: TUI_LEGEND_UNITS,
        tui_legend_profit: TUI_LEGEND_PROFIT,
        tui_legend_cost: TUI_LEGEND_COST,
        tui_axis_max: TUI_AXIS_MAX,
        tui_max: TUI_MAX,
        tui_profit: TUI_PROFIT,
        tui_yearly: TUI_YEARLY,
        tui_donut_margin: TUI_DONUT_MARGIN,
        tui_donut_vs_year: TUI_DONUT_VS_YEAR,
        tui_label_monthly: TUI_LABEL_MONTHLY,
        tui_label_yearly: TUI_LABEL_YEARLY,
        tui_label_settings: TUI_LABEL_SETTINGS,
        tui_label_sales: TUI_LABEL_SALES,
        tui_label_min: TUI_LABEL_MIN,
        tui_label_hours: TUI_LABEL_HOURS,
        tui_label_workdays: TUI_LABEL_WORKDAYS,
        tui_label_workday: TUI_LABEL_WORKDAY,
        tui_label_parallel: TUI_LABEL_PARALLEL,
        tui_label_yearly_ref: TUI_LABEL_YEARLY_REF,
        tui_label_12x_mo: TUI_LABEL_12X_MO,
        tui_label_goal: TUI_LABEL_GOAL,
        tui_suffix_hours: TUI_SUFFIX_HOURS,
        tui_region_main: TUI_REGION_MAIN,
        tui_region_sidebar: TUI_REGION_SIDEBAR,
        tui_footer: TUI_FOOTER,
        tui_footer_status: TUI_FOOTER_STATUS,
        tui_export_error: TUI_EXPORT_ERROR,
        tui_export_error_totals: TUI_EXPORT_ERROR_TOTALS,
        tui_exported: TUI_EXPORTED,
        tui_no_products: TUI_NO_PRODUCTS,
        tui_help_title: TUI_HELP_TITLE,
        tui_help_text: TUI_HELP_TEXT,
    }
}

/// Builds the French dictionary.
pub fn make() -> (d: Dict)
    ensures
        d == table(),
{
    Dict {
        usage_label: USAGE_LABEL,
        usage_interactive: USAGE_INTERACTIVE,
        usage_list: USAGE_LIST,
        usage_lang: USAGE_LANG,
        no_txt_files: NO_TXT_FILES,
        cannot_read_file: CANNOT_READ_FILE,
        file_colon_msg: FILE_COLON_MSG,
        parsed_products_header: PARSED_PRODUCTS_HEADER,
        no_valid_products: NO_VALID_PRODUCTS,
        file_label: FILE_LABEL,
        not_a_directory: NOT_A_DIRECTORY,
        unknown_lang: UNKNOWN_LANG,
        cost_display: COST_DISPLAY,
        product_label: PRODUCT_LABEL,
        sale_price_label: SALE_PRICE_LABEL,
        production_time_label: PRODUCTION_TIME_LABEL,
        costs_header: COSTS_HEADER,
        no_costs: NO_COSTS,
        time_mins: TIME_MINS,
        time_hours: TIME_HOURS,
        err_duplicate_product_line: ERR_DUPLICATE_PRODUCT_LINE,
        err_line_prefix: ERR_LINE_PREFIX,
        err_unexpected_line: ERR_UNEXPECTED_LINE,
        err_missing_product_line: ERR_MISSING_PRODUCT_LINE,
        err_product_sections: ERR_PRODUCT_SECTIONS,
        err_product_plus: ERR_PRODUCT_PLUS,
        err_empty_product_name: ERR_EMPTY_PRODUCT_NAME,
        err_sale_section: ERR_SALE_SECTION,
        err_invalid_sale_price: ERR_INVALID_SALE_PRICE,
        err_invalid_sale_currency: ERR_INVALID_SALE_CURRENCY,
        err_time_section: ERR_TIME_SECTION,
        err_invalid_prod_time: ERR_INVALID_PROD_TIME,
        err_invalid_time_unit: ERR_INVALID_TIME_UNIT,
        err_cost_minus: ERR_COST_MINUS,
        err_cost_tokens: ERR_COST_TOKENS,
        err_invalid_cost_price: ERR_INVALID_COST_PRICE,
        err_invalid_cost_currency: ERR_INVALID_COST_CURRENCY,
        result_product: RESULT_PRODUCT,
        result_sale_price: RESULT_SALE_PRICE,
        result_total_cost: RESULT_TOTAL_COST,
        result_net_profit_unit: RESULT_NET_PROFIT_UNIT,
        result_profit_margin: RESULT_PROFIT_MARGIN,
        result_prod_time: RESULT_PROD_TIME,
        result_monthly_goal: RESULT_MONTHLY_GOAL,
        result_monthly_time: RESULT_MONTHLY_TIME,
        result_month_row: RESULT_MONTH_ROW,
        result_annual_goal: RESULT_ANNUAL_GOAL,
        result_annual_time: RESULT_ANNUAL_TIME,
        result_workday: RESULT_WORKDAY,
        result_parallel: RESULT_PARALLEL,
        required_sales_needle: REQUIRED_SALES_NEEDLE,
        warn_net_profit_nonpositive: WARN_NET_PROFIT_NONPOSITIVE,
        prompt_monthly_goal: PROMPT_MONTHLY_GOAL,
        prompt_annual_goal: PROMPT_ANNUAL_GOAL,
        prompt_monthly_goal_plain: PROMPT_MONTHLY_GOAL_PLAIN,
        prompt_annual_goal_plain: PROMPT_ANNUAL_GOAL_PLAIN,
        err_read_monthly_goal: ERR_READ_MONTHLY_GOAL,
        err_read_annual_goal: ERR_READ_ANNUAL_GOAL,
        prompt_workday_hours: PROMPT_WORKDAY_HOURS,
        validate_workday_range: VALIDATE_WORKDAY_RANGE,
        err_read_workday: ERR_READ_WORKDAY,
        prompt_parallel_products: PROMPT_PARALLEL_PRODUCTS,
        validate_parallel_range: VALIDATE_PARALLEL_RANGE,
        err_read_parallel: ERR_READ_PARALLEL,
        sales_needed_header: SALES_NEEDED_HEADER,
        monthly_label: MONTHLY_LABEL,
        annual_label: ANNUAL_LABEL,
        err_write_result_file: ERR_WRITE_RESULT_FILE,
        warn_product_excluded: WARN_PRODUCT_EXCLUDED,
        warn_no_positive_products: WARN_NO_POSITIVE_PRODUCTS,
        random_split_header: RANDOM_SPLIT_HEADER,
        split_item: SPLIT_ITEM,
        per_product_header: PER_PRODUCT_HEADER,
        per_product_monthly: PER_PRODUCT_MONTHLY,
        per_product_annual: PER_PRODUCT_ANNUAL,
        totals_header: TOTALS_HEADER,
        total_monthly_sales: TOTAL_MONTHLY_SALES,
        total_month_row: TOTAL_MONTH_ROW,
        total_annual_sales: TOTAL_ANNUAL_SALES,
        err_write_result_file_for: ERR_WRITE_RESULT_FILE_FOR,
        err_write_totals_file: ERR_WRITE_TOTALS_FILE,
        warn_no_txt_files: WARN_NO_TXT_FILES,
        menu_prompt: MENU_PROMPT,
        err_menu: ERR_MENU,
        warn_no_selection: WARN_NO_SELECTION,
        err_read_file: ERR_READ_FILE,
        summary_net_profit: SUMMARY_NET_PROFIT,
        summary_margin: SUMMARY_MARGIN,
        summary_monthly: SUMMARY_MONTHLY,
        summary_annual: SUMMARY_ANNUAL,
        tui_tab_products: TUI_TAB_PRODUCTS,
        tui_tab_graph: TUI_TAB_GRAPH,
        tui_sidebar_month: TUI_SIDEBAR_MONTH,
        tui_sidebar_settings: TUI_SIDEBAR_SETTINGS,
        tui_sidebar_totals: TUI_SIDEBAR_TOTALS,
        tui_products_yearly: TUI_PRODUCTS_YEARLY,
        tui_month_pct_sales: TUI_MONTH_PCT_SALES,
        tui_slider_workday: TUI_SLIDER_WORKDAY,
        tui_slider_parallel: TUI_SLIDER_PARALLEL,
        tui_slider_monthly_goal: TUI_SLIDER_MONTHLY_GOAL,
        tui_slider_yearly_goal: TUI_SLIDER_YEARLY_GOAL,
        tui_slider_month: TUI_SLIDER_MONTH,
        tui_parallel_label: TUI_PARALLEL_LABEL,
        tui_lock_year: TUI_LOCK_YEAR,
        tui_lock_month: TUI_LOCK_MONTH,
        tui_yearly_sales: TUI_YEARLY_SALES,
        tui_legend_units: TUI_LEGEND_UNITS,
        tui_legend_profit: TUI_LEGEND_PROFIT,
        tui_legend_cost: TUI_LEGEND_COST,
        tui_axis_max: TUI_AXIS_MAX,
        tui_max: TUI_MAX,
        tui_profit: TUI_PROFIT,
        tui_yearly: TUI_YEARLY,
        tui_donut_margin: TUI_DONUT_MARGIN,
        tui_donut_vs_year: TUI_DONUT_VS_YEAR,
        tui_label_monthly: TUI_LABEL_MONTHLY,
        tui_label_yearly: TUI_LABEL_YEARLY,
        tui_label_settings: TUI_LABEL_SETTINGS,
        tui_label_sales: TUI_LABEL_SALES,
        tui_label_min: TUI_LABEL_MIN,
        tui_label_hours: TUI_LABEL_HOURS,
        tui_label_workdays: TUI_LABEL_WORKDAYS,
        tui_label_workday: TUI_LABEL_WORKDAY,
        tui_label_parallel: TUI_LABEL_PARALLEL,
        tui_label_yearly_ref: TUI_LABEL_YEARLY_REF,
        tui_label_12x_mo: TUI_LABEL_12X_MO,
        tui_label_goal: TUI_LABEL_GOAL,
        tui_suffix_hours: TUI_SUFFIX_HOURS,
        tui_region_main: TUI_REGION_MAIN,
        tui_region_sidebar: TUI_REGION_SIDEBAR,
        tui_footer: TUI_FOOTER,
        tui_footer_status: TUI_FOOTER_STATUS,
        tui_export_error: TUI_EXPORT_ERROR,
        tui_export_error_totals: TUI_EXPORT_ERROR_TOTALS,
        tui_exported: TUI_EXPORTED,
        tui_no_products: TUI_NO_PRODUCTS,
        tui_help_title: TUI_HELP_TITLE,
        tui_help_text: TUI_HELP_TEXT,
    }
}

} // verus!
