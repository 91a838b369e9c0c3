use tiny_business_simulator::lang::{fmt, fmt_aligned, fmt_block, fmt_prefixed, pad_left, pad_to, prefix_before_value, str_width, Lang};

#[test]
fn lang_from_code_roundtrip() {
    for code in ["en", "es", "zh", "de", "ru", "fr"] {
        let l = Lang::from_code(code).expect("known code");
        assert_eq!(l.code(), code);
    }
    assert!(Lang::from_code("xx").is_none());
}

#[test]
fn lang_default_is_english() {
    assert_eq!(Lang::DEFAULT, Lang::En);
}

#[test]
fn lang_fmt_substitutes_placeholders() {
    assert_eq!(fmt("a{0}b{1}c", &["X", "Y"]), "aXbYc");
    assert_eq!(fmt("no args", &[]), "no args");
    assert_eq!(fmt("{0}-{0}", &["z"]), "z-z");
    // out-of-range index yields empty substitution
    assert_eq!(fmt("{0}{1}", &["only"]), "only");
}

#[test]
fn lang_fmt_handles_multibyte_and_bare_brace() {
    assert_eq!(fmt("📦 {0} → {1}", &["Café", "100"]), "📦 Café → 100");
    assert_eq!(fmt("literal { not a placeholder", &[]), "literal { not a placeholder");
}

#[test]
fn lang_all_languages_have_required_sales_needle_distinct() {
    for l in [Lang::En, Lang::Es, Lang::Zh, Lang::De, Lang::Ru, Lang::Fr] {
        assert!(!l.dict().required_sales_needle.is_empty());
    }
}

#[test]
fn lang_str_width_counts_ascii_and_double_width() {
    assert_eq!(str_width("Product:"), 8);
    assert_eq!(str_width("📦 Product:"), 11); // emoji(2) + space(1) + "Product:"(8)
    assert_eq!(str_width("产品"), 4); // CJK: 2 per char
    assert_eq!(str_width("Цена"), 8); // Cyrillic: 2 per char
}

#[test]
fn lang_pad_to_pads_with_spaces() {
    assert_eq!(pad_to("ab", 5), "ab   ");
    assert_eq!(pad_to("abcd", 4), "abcd");
    // Already wider than target: returned unchanged.
    assert_eq!(pad_to("abcde", 2), "abcde");
}

#[test]
fn lang_prefix_before_value_strips_trailing_whitespace() {
    assert_eq!(prefix_before_value("📦 Product: \t\t\t{0}"), "📦 Product:");
    assert_eq!(prefix_before_value("no placeholder"), "no placeholder");
}

#[test]
fn lang_fmt_aligned_pads_label_with_spaces() {
    let out = fmt_aligned("📦 Product: \t\t\t{0}", &["Cerveza"], 24);
    assert!(out.starts_with("📦 Product:"));
    assert!(!out.contains('\t'), "aligned output must not contain tabs");
    assert!(out.ends_with("Cerveza"));
    let short = fmt_aligned("📦 X: {0}", &["v"], 24);
    let long = fmt_aligned("📦 Something long: {0}", &["v"], 24);
    let off_s = short.find("v").unwrap();
    let off_l = long.find("v").unwrap();
    assert_eq!(off_s, off_l, "value column must align");
}

#[test]
fn lang_pad_left_right_justifies() {
    assert_eq!(pad_left("5", 4), "   5");
    assert_eq!(pad_left("1234", 4), "1234");
    assert_eq!(pad_left("12345", 3), "12345"); // wider than target
}

#[test]
fn lang_fmt_block_right_aligns_numeric_columns() {
    let rows: Vec<(&str, Vec<String>)> = vec![
        ("{0} {1} {2}", vec!["5".into(), "USD".into(), "100".into()]),
        ("{0} {1} {2}", vec!["1234".into(), "USD".into(), "5".into()]),
    ];
    let out = fmt_block(&rows, 0);
    assert_eq!(out.len(), 2);
    assert_eq!(out[0], "   5 USD 100");
    assert_eq!(out[1], "1234 USD   5");
}

#[test]
fn lang_tests_from_code_roundtrip() {
    for code in ["en", "es", "zh", "de", "ru", "fr"] {
        let l = Lang::from_code(code).expect("known code");
        assert_eq!(l.code(), code);
    }
    assert!(Lang::from_code("xx").is_none());
}

#[test]
fn lang_tests_default_is_english() {
    assert_eq!(Lang::DEFAULT, Lang::En);
}

#[test]
fn lang_tests_fmt_substitutes_placeholders() {
    assert_eq!(fmt("a{0}b{1}c", &["X", "Y"]), "aXbYc");
    assert_eq!(fmt("no args", &[]), "no args");
    assert_eq!(fmt("{0}-{0}", &["z"]), "z-z");
    // out-of-range index yields empty substitution
    assert_eq!(fmt("{0}{1}", &["only"]), "only");
}

#[test]
fn lang_tests_fmt_handles_multibyte_and_bare_brace() {
    assert_eq!(fmt("📦 {0} → {1}", &["Café", "100"]), "📦 Café → 100");
    assert_eq!(fmt("literal { not a placeholder", &[]), "literal { not a placeholder");
}

#[test]
fn lang_tests_all_languages_have_required_sales_needle_distinct() {
    for l in [Lang::En, Lang::Es, Lang::Zh, Lang::De, Lang::Ru, Lang::Fr] {
        assert!(!l.dict().required_sales_needle.is_empty());
    }
}

#[test]
fn lang_tests_pad_to_pads_with_spaces() {
    assert_eq!(pad_to("ab", 5), "ab   ");
    assert_eq!(pad_to("abcd", 4), "abcd");
    // Already wider than target: returned unchanged.
    assert_eq!(pad_to("abcde", 2), "abcde");
}

#[test]
fn lang_tests_prefix_before_value_strips_trailing_whitespace() {
    assert_eq!(prefix_before_value("📦 Product: \t\t\t{0}"), "📦 Product:");
    assert_eq!(prefix_before_value("no placeholder"), "no placeholder");
}

#[test]
fn lang_tests_fmt_aligned_pads_label_with_spaces() {
    let out = fmt_aligned("📦 Product: \t\t\t{0}", &["Cerveza"], 24);
    assert!(out.starts_with("📦 Product:"));
    assert!(!out.contains('\t'), "aligned output must not contain tabs");
    assert!(out.ends_with("Cerveza"));
    let short = fmt_aligned("📦 X: {0}", &["v"], 24);
    let long = fmt_aligned("📦 Something long: {0}", &["v"], 24);
    let off_s = short.find("v").unwrap();
    let off_l = long.find("v").unwrap();
    assert_eq!(off_s, off_l, "value column must align");
}

#[test]
fn lang_tests_pad_left_right_justifies() {
    assert_eq!(pad_left("5", 4), "   5");
    assert_eq!(pad_left("1234", 4), "1234");
    assert_eq!(pad_left("12345", 3), "12345"); // wider than target
}

#[test]
fn lang_tests_fmt_block_right_aligns_numeric_columns() {
    let rows: Vec<(&str, Vec<String>)> = vec![
        ("{0} {1} {2}", vec!["5".into(), "USD".into(), "100".into()]),
        ("{0} {1} {2}", vec!["1234".into(), "USD".into(), "5".into()]),
    ];
    let out = fmt_block(&rows, 0);
    assert_eq!(out.len(), 2);
    assert_eq!(out[0], "   5 USD 100");
    assert_eq!(out[1], "1234 USD   5");
}

#[test]
fn value_column_aligns_across_all_languages() {
    for lang in [Lang::En, Lang::Es, Lang::Zh, Lang::De, Lang::Ru, Lang::Fr] {
        let d = lang.dict();
        let templates = [
            d.result_product,
            d.result_sale_price,
            d.result_total_cost,
            d.result_net_profit_unit,
            d.result_profit_margin,
            d.result_prod_time,
        ];
        let label_w = templates
            .iter()
            .map(|t| str_width(prefix_before_value(t)))
            .max()
            .unwrap_or(0)
            + 2;
        for (i, t) in templates.iter().enumerate() {
            let pw = str_width(prefix_before_value(t));
            assert!(
                pw < label_w,
                "lang {:?}: template {} prefix width {} >= label_w {}",
                lang.code(),
                i,
                pw,
                label_w
            );
        }
    }
}

#[test]
fn months_follow_the_language() {
    assert_eq!(Lang::En.months_abbr()[0], "Jan");
    assert_eq!(Lang::Es.months_abbr()[11], "Dic");
    assert_eq!(Lang::Fr.months_abbr()[7], "août");
}

#[test]
fn fmt_aligned_pads_to_the_label_width_exactly() {
    assert_eq!(fmt_aligned("Name: {0}", &["x"], 8), "Name:   x");
    assert_eq!(fmt_prefixed("{0} {1}", "Jan:", &["5", "USD"], 6), "Jan:  5 USD");
}

#[test]
fn str_width_adds_up_and_counts_two_cells_per_non_ascii_char() {
    let (a, b) = ("Beer ", "啤酒 Цена 🍺");
    assert_eq!(str_width(&format!("{}{}", a, b)), str_width(a) + str_width(b));
    assert_eq!(str_width(a), a.len());
    assert_eq!(str_width("Цена"), 8);
    assert_eq!(str_width("🍺"), 2);
    let n = b.chars().count();
    assert!(n <= str_width(b) && str_width(b) <= 2 * n);
}
