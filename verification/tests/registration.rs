use egui_chinese_font::FontTable;
use egui_chinese_font::custom_font_table;
use egui_chinese_font::setup_custom_chinese_font;

fn bytes_of<'a>(table: &'a FontTable, name: &str) -> Option<&'a Vec<u8>> {
    // Later entries shadow earlier ones, so scan from the back.
    table.entries.iter().rev().find(|e| e.name == name).map(|e| &e.bytes)
}

#[test]
fn custom_font_defaults_to_chinese_name() {
    let mut base = FontTable::new();
    base.register_font("existing", vec![1, 2, 3]);
    let bytes = vec![9u8, 8, 7];
    let table = custom_font_table(base, bytes.clone(), None);

    assert_eq!(bytes_of(&table, "chinese"), Some(&bytes));
    assert_eq!(table.proportional[0], "chinese");
    assert_eq!(table.monospace[0], "chinese");
    assert_eq!(table.proportional[1], "existing");
    assert_eq!(table.monospace[1], "existing");
    assert_eq!(bytes_of(&table, "existing"), Some(&vec![1u8, 2, 3]));
}

#[test]
fn custom_font_uses_given_name() {
    let mut base = FontTable::new();
    base.register_font("existing", vec![1, 2, 3]);
    let bytes = vec![5u8, 6];
    let table = custom_font_table(base, bytes.clone(), Some("foo"));

    assert_eq!(bytes_of(&table, "foo"), Some(&bytes));
    assert!(bytes_of(&table, "chinese").is_none());
    assert_eq!(table.proportional[0], "foo");
    assert_eq!(table.monospace[0], "foo");
    assert_eq!(table.proportional[1], "existing");
    assert_eq!(table.monospace[1], "existing");
}

#[test]
fn registering_twice_keeps_both_in_call_order() {
    let mut table = FontTable::new();
    table.register_font("first", vec![1u8]);
    table.register_font("second", vec![2u8]);

    assert_eq!(bytes_of(&table, "first"), Some(&vec![1u8]));
    assert_eq!(bytes_of(&table, "second"), Some(&vec![2u8]));
    assert_eq!(table.proportional, vec!["second".to_owned(), "first".to_owned()]);
    assert_eq!(table.monospace, vec!["second".to_owned(), "first".to_owned()]);
}

#[test]
fn reregistering_a_name_replaces_its_bytes() {
    let mut table = FontTable::new();
    table.register_font("chinese", vec![1u8]);
    table.register_font("chinese", vec![2u8]);

    assert_eq!(bytes_of(&table, "chinese"), Some(&vec![2u8]));
}

#[test]
fn empty_table_has_no_fonts() {
    let table = FontTable::new();
    assert!(table.entries.is_empty());
    assert!(table.proportional.is_empty());
    assert!(table.monospace.is_empty());
}

#[test]
fn custom_font_applies_to_a_context() {
    // Exercises the full path through egui's add_font; the insertion is
    // applied at the context's next pass.
    let ctx = egui::Context::default();
    setup_custom_chinese_font(&ctx, vec![0u8, 1, 2, 3], None);
    setup_custom_chinese_font(&ctx, vec![4u8, 5], Some("foo"));
}

#[test]
fn context_keeps_prior_names_across_setups() {
    // Register twice with real font bytes (egui's own default font), run
    // one pass so the insertions take effect, and read the font table
    // back: both names must be present, the later call first, egui's
    // defaults behind them.
    let bytes = egui::FontDefinitions::default()
        .font_data
        .values()
        .next()
        .expect("egui default fonts present")
        .font
        .to_vec();
    let ctx = egui::Context::default();
    setup_custom_chinese_font(&ctx, bytes.clone(), Some("first"));
    setup_custom_chinese_font(&ctx, bytes, None);
    ctx.begin_pass(egui::RawInput::default());
    let mut output = ctx.end_pass();
    output.textures_delta.clear();
    let current = ctx.fonts(|f| f.definitions().clone());
    assert!(current.font_data.contains_key("first"));
    assert!(current.font_data.contains_key("chinese"));
    for family in [egui::FontFamily::Proportional, egui::FontFamily::Monospace] {
        let names = current.families.get(&family).expect("family configured");
        assert_eq!(names[0], "chinese");
        assert_eq!(names[1], "first");
        assert!(names.len() > 2, "egui's default names remain behind");
    }
}
