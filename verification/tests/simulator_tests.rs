use tiny_business_simulator::files::{is_product_file, result_file_path, state_file_path, totals_file_path};
use tiny_business_simulator::lang::{fmt, fmt_block, pad_to, prefix_before_value, str_width, Lang};

#[test]
fn result_file_path_appends_resultado() {
    let r = result_file_path("test/test_data/foo.txt");
    assert_eq!(r, "test/test_data/foo.simulation_results.txt");
}

#[test]
fn per_product_and_totals_lines_align_value_column() {
    let d = Lang::En.dict();
    // Pad product names to the longest name's width.
    let names = ["Cerveza", "American burger"];
    let name_w = names.iter().map(|n| str_width(n)).max().unwrap();
    let padded: Vec<String> = names.iter().map(|n| pad_to(n, name_w)).collect();

    // split_item: the 🎲 column starts at the same offset for both rows.
    let split_lines: Vec<String> = padded
        .iter()
        .map(|p| fmt(d.split_item, &[p, "5", "9.26"]))
        .collect();
    for l in &split_lines {
        assert!(!l.contains('\t'), "split_item must not contain tabs: {l:?}");
    }
    let dice_offsets: Vec<usize> = split_lines
        .iter()
        .map(|l| l.find('🎲').expect("dice emoji present"))
        .collect();
    assert_eq!(
        dice_offsets[0], dice_offsets[1],
        "🎲 column must align across product names of different lengths"
    );

    // per_product_monthly / per_product_annual: every numeric column must
    // right-align across all rows in the block (this is the case the user
    // reported: `254.24` vs `5084.75` shifted the following columns).
    let per_w = [d.per_product_monthly, d.per_product_annual]
        .iter()
        .map(|t| str_width(prefix_before_value(t)))
        .max()
        .unwrap_or(0)
        + 2;
    let per_rows: Vec<(&'static str, Vec<String>)> = vec![
        (d.per_product_monthly, vec!["254.24".into(), "USD".into(), "24".into(), "288.00".into(), "4.80".into()]),
        (d.per_product_annual,   vec!["5084.75".into(), "USD".into(), "468".into(), "5616.00".into(), "93.60".into()]),
        (d.per_product_monthly, vec!["4745.76".into(), "USD".into(), "493".into(), "493.00".into(), "8.22".into()]),
        (d.per_product_annual,   vec!["94915.25".into(), "USD".into(), "9846".into(), "9846.00".into(), "164.10".into()]),
    ];
    let per_lines = fmt_block(&per_rows, per_w);
    assert_eq!(per_lines.len(), 4);
    for l in &per_lines {
        assert!(!l.contains('\t'), "per-product line must not contain tabs: {l:?}");
    }
    // The currency column ("USD") must start at the same byte offset in
    // every row — that only happens if the amount column ({0}) was
    // right-aligned to a common width.
    let eur_offsets: Vec<usize> = per_lines
        .iter()
        .map(|l| l.find("USD").expect("USD present"))
        .collect();
    let first = eur_offsets[0];
    for o in &eur_offsets {
        assert_eq!(*o, first, "USD column must align across all rows:\n{}", per_lines.join("\n"));
    }
    // Likewise the "sales" word must start at the same offset.
    let sales_offsets: Vec<usize> = per_lines
        .iter()
        .map(|l| l.find("sales").or_else(|| l.find("ventas")).expect("sales word present"))
        .collect();
    let first = sales_offsets[0];
    for o in &sales_offsets {
        assert_eq!(*o, first, "sales column must align across all rows:\n{}", per_lines.join("\n"));
    }

    // Totals lines: every numeric column must right-align.
    let tot_w = [d.total_monthly_sales, d.total_annual_sales]
        .iter()
        .map(|t| str_width(prefix_before_value(t)))
        .max()
        .unwrap_or(0)
        + 2;
    let totals_rows: Vec<(&'static str, Vec<String>)> = vec![
        (d.total_monthly_sales, vec!["517".into(), "781.00".into(), "13.02".into(), "3".into(), "10".into(), "1.30".into()]),
        (d.total_annual_sales,  vec!["10314".into(), "15462.00".into(), "257.70".into(), "3".into(), "10".into(), "25.77".into()]),
    ];
    let tot_lines = fmt_block(&totals_rows, tot_w);
    for l in &tot_lines {
        assert!(!l.contains('\t'), "totals line must not contain tabs: {l:?}");
    }
    // The 🕐 emoji must start at the same offset in both totals rows.
    let clock_offsets: Vec<usize> = tot_lines
        .iter()
        .map(|l| l.find('🕐').expect("clock present"))
        .collect();
    assert_eq!(
        clock_offsets[0], clock_offsets[1],
        "🕐 column must align across totals rows:\n{}", tot_lines.join("\n")
    );
}

#[test]
fn result_file_path_keeps_hidden_names_and_replaces_last_extension() {
    assert_eq!(result_file_path("a.b/.hidden"), "a.b/.hidden.simulation_results.txt");
    assert_eq!(result_file_path("x.tar.gz"), "x.tar.simulation_results.txt");
    assert_eq!(result_file_path("plain"), "plain.simulation_results.txt");
}

#[test]
fn folder_files_are_joined_with_one_separator() {
    assert_eq!(totals_file_path("biz"), "biz/totals.simulation_results.txt");
    assert_eq!(totals_file_path("biz/"), "biz/totals.simulation_results.txt");
    assert_eq!(state_file_path(""), "simulation_state.txt");
}

#[test]
fn product_files_are_plain_txt_files() {
    assert!(is_product_file("beer.txt"));
    assert!(!is_product_file("beer.simulation_results.txt"));
    assert!(!is_product_file("totals.simulation_results.txt"));
    assert!(!is_product_file("simulation_state.txt"));
    assert!(!is_product_file("notes.md"));
}

#[test]
fn result_file_path_matches_set_extension_on_every_path() {
    let cases = [
        "", "/", ".", "..", "./", "a/..", "a/b/", "a/b/.", "a/b//", "a/./", "/.", "./.", "...", "a.", "x/y.txt",
        "dir.d/file", ".hidden", "a/.b.c",
    ];
    for c in cases {
        let mut p = std::path::PathBuf::from(c);
        p.set_extension("simulation_results.txt");
        assert_eq!(result_file_path(c), p.to_str().unwrap(), "path {:?}", c);
    }
    assert_eq!(result_file_path("a/b/"), "a/b.simulation_results.txt");
    assert_eq!(result_file_path(".."), "..");
}
